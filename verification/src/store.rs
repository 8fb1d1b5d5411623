//! What the service asks of the store, and what the store answers.

use crate::date::CalendarDate;
use crate::models::customer::CreateCustomer;
use crate::models::customer::CreateCustomerView;
use crate::models::customer::Customer;
use crate::models::customer::CustomerView;
use crate::models::order::CreateOrder;
use crate::models::order::Order;
use crate::models::product::CreateProduct;
use crate::models::product::CreateProductView;
use crate::models::product::Product;
use crate::models::product::ProductView;
use crate::price::Price;
use crate::validation::field_errors;
use crate::validation::Failures;
use validator::ValidationErrors;
use vstd::prelude::*;
use vstd::string::StringExecFns;

verus! {

/// One of the three families of rows.
#[derive(Clone, Copy, Debug, PartialEq, Eq)]
pub enum Resource {
    Customers,
    Products,
    Orders,
}

impl Resource {
    /// The name of the table, which is also the name in a listing's range.
    pub open spec fn table(self) -> Seq<char> {
        match self {
            Resource::Customers => "customers"@,
            Resource::Products => "products"@,
            Resource::Orders => "orders"@,
        }
    }

    /// The name of the table.
    pub fn table_name(self) -> (name: &'static str)
        ensures
            name@ == self.table(),
    {
        match self {
            Resource::Customers => "customers",
            Resource::Products => "products",
            Resource::Orders => "orders",
        }
    }
}

/// A payload of any of the three resources.
#[derive(Clone, Debug, PartialEq, Eq)]
pub enum Record {
    Customer(CreateCustomer),
    Product(CreateProduct),
    Order(CreateOrder),
}

/// A payload by view.
pub enum RecordView {
    Customer(CreateCustomerView),
    Product(CreateProductView),
    Order(CreateOrder),
}

impl View for Record {
    type V = RecordView;

    open spec fn view(&self) -> RecordView {
        match self {
            Record::Customer(customer) => RecordView::Customer(customer@),
            Record::Product(product) => RecordView::Product(product@),
            Record::Order(order) => RecordView::Order(*order),
        }
    }
}

impl RecordView {
    /// The resource that the payload belongs to.
    pub open spec fn resource(self) -> Resource {
        match self {
            RecordView::Customer(_) => Resource::Customers,
            RecordView::Product(_) => Resource::Products,
            RecordView::Order(_) => Resource::Orders,
        }
    }

    /// The payload breaks no rule of its resource.
    pub open spec fn valid(self) -> bool {
        match self {
            RecordView::Customer(customer) => customer.valid(),
            RecordView::Product(product) => product.valid(),
            RecordView::Order(order) => order.valid(),
        }
    }

    /// Every rule the payload breaks, by field.
    pub open spec fn failures(self) -> Failures {
        match self {
            RecordView::Customer(customer) => customer.failures(),
            RecordView::Product(product) => product.failures(),
            RecordView::Order(order) => order.failures(),
        }
    }
}

impl Record {
    /// The resource that the payload belongs to.
    pub fn resource(&self) -> (resource: Resource)
        ensures
            resource == self@.resource(),
    {
        match self {
            Record::Customer(_) => Resource::Customers,
            Record::Product(_) => Resource::Products,
            Record::Order(_) => Resource::Orders,
        }
    }

    /// Checks every rule of the payload's resource and reports all that fail.
    pub fn validate(&self) -> (result: Result<(), ValidationErrors>)
        ensures
            result is Ok <==> self@.valid(),
            result matches Err(errors) ==> field_errors(errors) == self@.failures(),
    {
        match self {
            Record::Customer(customer) => customer.validate(),
            Record::Product(product) => product.validate(),
            Record::Order(order) => order.validate(),
        }
    }
}

/// A row of any of the three resources.
#[derive(Clone, Debug, PartialEq, Eq)]
pub enum Entity {
    Customer(Customer),
    Product(Product),
    Order(Order),
}

/// A row by view.
pub enum EntityView {
    Customer(CustomerView),
    Product(ProductView),
    Order(Order),
}

impl View for Entity {
    type V = EntityView;

    open spec fn view(&self) -> EntityView {
        match self {
            Entity::Customer(customer) => EntityView::Customer(customer@),
            Entity::Product(product) => EntityView::Product(product@),
            Entity::Order(order) => EntityView::Order(*order),
        }
    }
}

/// The rows of a list, each by its view.
pub open spec fn rows_view(rows: Seq<Entity>) -> Seq<EntityView> {
    rows.map_values(|row: Entity| row@)
}

/// What the store answers to a statement.
#[derive(Clone, Debug, PartialEq, Eq)]
pub enum Answer {
    /// The statement could not be carried out.
    Failed,
    /// Whether the row that was asked for is there.
    Exists(bool),
    /// How many rows a write touched.
    Affected(u64),
    /// The rows that a query found.
    Rows(Vec<Entity>),
}

/// An answer with its count as a natural number and its rows by view.
pub enum AnswerView {
    Failed,
    Exists(bool),
    Affected(nat),
    Rows(Seq<EntityView>),
}

impl View for Answer {
    type V = AnswerView;

    open spec fn view(&self) -> AnswerView {
        match self {
            Answer::Failed => AnswerView::Failed,
            Answer::Exists(exists) => AnswerView::Exists(*exists),
            Answer::Affected(count) => AnswerView::Affected(*count as nat),
            Answer::Rows(rows) => AnswerView::Rows(rows_view(rows@)),
        }
    }
}

/// A value bound to a placeholder of a statement.
#[derive(Clone, Copy, Debug, PartialEq, Eq)]
pub enum Param<'a> {
    Int(i64),
    Text(&'a str),
    OptionalText(Option<&'a str>),
    Decimal(Price),
    Flag(bool),
    Date(CalendarDate),
}

/// A value with its number as an integer and its text as a sequence of characters.
pub enum ParamView {
    Int(int),
    Text(Seq<char>),
    OptionalText(Option<Seq<char>>),
    Decimal(Price),
    Flag(bool),
    Date(CalendarDate),
}

impl<'a> View for Param<'a> {
    type V = ParamView;

    open spec fn view(&self) -> ParamView {
        match self {
            Param::Int(number) => ParamView::Int(*number as int),
            Param::Text(text) => ParamView::Text(text@),
            Param::OptionalText(text) => ParamView::OptionalText(
                match text {
                    Some(text) => Some(text@),
                    None => None,
                },
            ),
            Param::Decimal(price) => ParamView::Decimal(*price),
            Param::Flag(flag) => ParamView::Flag(*flag),
            Param::Date(date) => ParamView::Date(*date),
        }
    }
}

/// The parameters of a list, each by its view.
pub open spec fn params_view(params: Seq<Param>) -> Seq<ParamView> {
    params.map_values(|param: Param| param@)
}

/// A single statement for the store.
#[derive(Clone, Copy, Debug, PartialEq, Eq)]
pub enum Statement<'a> {
    /// All rows of a resource.
    SelectAll(Resource),
    /// The row with an id, if there is one.
    SelectById(Resource, i64),
    /// Whether a row with an id is there.
    Exists(Resource, i64),
    /// A new row with the payload's fields; the store assigns the id.
    Insert(&'a Record),
    /// The payload's fields for the row with an id.
    Update(i64, &'a Record),
    /// The row with an id goes.
    Delete(Resource, i64),
    /// Every row whose id is listed goes.
    DeleteMany(Resource, &'a Vec<i32>),
}

/// A statement with its ids as integers and its payload by view.
pub enum StatementView {
    SelectAll(Resource),
    SelectById(Resource, int),
    Exists(Resource, int),
    Insert(RecordView),
    Update(int, RecordView),
    Delete(Resource, int),
    DeleteMany(Resource, Seq<i32>),
}

impl<'a> View for Statement<'a> {
    type V = StatementView;

    open spec fn view(&self) -> StatementView {
        match self {
            Statement::SelectAll(resource) => StatementView::SelectAll(*resource),
            Statement::SelectById(resource, id) => StatementView::SelectById(
                *resource,
                *id as int,
            ),
            Statement::Exists(resource, id) => StatementView::Exists(*resource, *id as int),
            Statement::Insert(record) => StatementView::Insert(record@),
            Statement::Update(id, record) => StatementView::Update(*id as int, record@),
            Statement::Delete(resource, id) => StatementView::Delete(*resource, *id as int),
            Statement::DeleteMany(resource, ids) => StatementView::DeleteMany(*resource, ids@),
        }
    }
}

/// `count` placeholders, separated by commas.
pub open spec fn placeholders(count: nat) -> Seq<char>
    decreases count,
{
    if count == 0 {
        Seq::empty()
    } else if count == 1 {
        "?"@
    } else {
        placeholders((count - 1) as nat) + ",?"@
    }
}

/// The statement that inserts a payload.
pub open spec fn insert_text(record: RecordView) -> Seq<char> {
    match record {
        RecordView::Customer(_) => "INSERT INTO customers (name, email, address) VALUES (?, ?, ?)"@,
        RecordView::Product(_) =>
            "INSERT INTO products (name, description, price, in_stock) VALUES (?, ?, ?, ?)"@,
        RecordView::Order(_) =>
            "INSERT INTO orders (customer_id, product_id, quantity, order_date) VALUES (?, ?, ?, ?)"@,
    }
}

/// The statement that replaces a row by a payload.
pub open spec fn update_text(record: RecordView) -> Seq<char> {
    match record {
        RecordView::Customer(_) =>
            "UPDATE customers SET name = ?, email = ?, address = ? WHERE id = ?"@,
        RecordView::Product(_) =>
            "UPDATE products SET name = ?, description = ?, price = ?, in_stock = ? WHERE id = ?"@,
        RecordView::Order(_) =>
            "UPDATE orders SET customer_id = ?, product_id = ?, quantity = ?, order_date = ? WHERE id = ?"@,
    }
}

/// The values of a payload, in the order of its columns.
pub open spec fn record_params(record: RecordView) -> Seq<ParamView> {
    match record {
        RecordView::Customer(customer) => seq![
            ParamView::Text(customer.name),
            ParamView::OptionalText(customer.email),
            ParamView::Text(customer.address),
        ],
        RecordView::Product(product) => seq![
            ParamView::Text(product.name),
            ParamView::OptionalText(product.description),
            ParamView::Decimal(product.price),
            ParamView::Flag(product.in_stock),
        ],
        RecordView::Order(order) => seq![
            ParamView::Int(order.customer_id as int),
            ParamView::Int(order.product_id as int),
            ParamView::Int(order.quantity as int),
            ParamView::Date(order.order_date),
        ],
    }
}

/// One integer parameter for each id, in the order of the list.
pub open spec fn id_params(ids: Seq<i32>) -> Seq<ParamView> {
    Seq::new(ids.len(), |i: int| ParamView::Int(ids[i] as int))
}

impl StatementView {
    /// The text of the statement, with a `?` for each value.
    pub open spec fn text(self) -> Seq<char> {
        match self {
            StatementView::SelectAll(resource) => "SELECT * FROM "@ + resource.table(),
            StatementView::SelectById(resource, _) => "SELECT * FROM "@ + resource.table()
                + " WHERE id = ?"@,
            StatementView::Exists(resource, _) => "SELECT EXISTS(SELECT 1 FROM "@
                + resource.table() + " WHERE id = ?)"@,
            StatementView::Insert(record) => insert_text(record),
            StatementView::Update(_, record) => update_text(record),
            StatementView::Delete(resource, _) => "DELETE FROM "@ + resource.table()
                + " WHERE id = ?"@,
            StatementView::DeleteMany(resource, ids) => "DELETE FROM "@ + resource.table()
                + " WHERE id IN ("@ + placeholders(ids.len()) + ")"@,
        }
    }

    /// The values of the statement, one for each `?` of its text and in their order.
    pub open spec fn params(self) -> Seq<ParamView> {
        match self {
            StatementView::SelectAll(_) => Seq::empty(),
            StatementView::SelectById(_, id) => seq![ParamView::Int(id)],
            StatementView::Exists(_, id) => seq![ParamView::Int(id)],
            StatementView::Insert(record) => record_params(record),
            StatementView::Update(id, record) => record_params(record).push(ParamView::Int(id)),
            StatementView::Delete(_, id) => seq![ParamView::Int(id)],
            StatementView::DeleteMany(_, ids) => id_params(ids),
        }
    }
}

/// Borrows the text of an optional string.
fn optional_text<'a>(text: &'a Option<String>) -> (borrowed: Option<&'a str>)
    ensures
        borrowed is Some <==> text is Some,
        borrowed matches Some(b) ==> b@ == text->0@,
{
    match text {
        Some(text) => Some(text.as_str()),
        None => None,
    }
}

/// Writes `count` placeholders, separated by commas.
fn placeholder_list(count: usize) -> (text: String)
    ensures
        text@ == placeholders(count as nat),
{
    let mut text = String::new();
    let mut written: usize = 0;
    while written < count
        invariant
            written <= count,
            text@ == placeholders(written as nat),
        decreases count - written,
    {
        if written == 0 {
            text.append("?");
            assert(text@ =~= placeholders(1));
        } else {
            text.append(",?");
        }
        written += 1;
    }
    text
}

/// The values of a payload, in the order of its columns.
fn record_values<'a>(record: &'a Record) -> (params: Vec<Param<'a>>)
    ensures
        params_view(params@) == record_params(record@),
{
    let mut params: Vec<Param<'a>> = Vec::new();
    match record {
        Record::Customer(customer) => {
            params.push(Param::Text(customer.name.as_str()));
            params.push(Param::OptionalText(optional_text(&customer.email)));
            params.push(Param::Text(customer.address.as_str()));
        },
        Record::Product(product) => {
            params.push(Param::Text(product.name.as_str()));
            params.push(Param::OptionalText(optional_text(&product.description)));
            params.push(Param::Decimal(product.price));
            params.push(Param::Flag(product.in_stock));
        },
        Record::Order(order) => {
            params.push(Param::Int(order.customer_id as i64));
            params.push(Param::Int(order.product_id as i64));
            params.push(Param::Int(order.quantity as i64));
            params.push(Param::Date(order.order_date));
        },
    }
    assert(params_view(params@) =~= record_params(record@));
    params
}

/// One integer parameter for each id, in the order of the list.
fn id_values<'a>(ids: &Vec<i32>) -> (params: Vec<Param<'a>>)
    ensures
        params_view(params@) == id_params(ids@),
{
    let mut params: Vec<Param<'a>> = Vec::new();
    let mut next: usize = 0;
    while next < ids.len()
        invariant
            next <= ids.len(),
            params@.len() == next,
            forall|i: int| 0 <= i < next ==> (#[trigger] params@[i])@ == ParamView::Int(ids@[i] as int),
        decreases ids.len() - next,
    {
        params.push(Param::Int(ids[next] as i64));
        next += 1;
    }
    assert(params_view(params@) =~= id_params(ids@));
    params
}

impl<'a> Statement<'a> {
    /// The text of the statement, with a `?` for each value.
    pub fn sql(&self) -> (text: String)
        ensures
            text@ == self@.text(),
    {
        match self {
            Statement::SelectAll(resource) => {
                String::from_str("SELECT * FROM ").concat(resource.table_name())
            },
            Statement::SelectById(resource, _) => {
                String::from_str("SELECT * FROM ").concat(resource.table_name()).concat(
                    " WHERE id = ?",
                )
            },
            Statement::Exists(resource, _) => {
                String::from_str("SELECT EXISTS(SELECT 1 FROM ").concat(
                    resource.table_name(),
                ).concat(" WHERE id = ?)")
            },
            Statement::Insert(record) => {
                match record {
                    Record::Customer(_) => String::from_str(
                        "INSERT INTO customers (name, email, address) VALUES (?, ?, ?)",
                    ),
                    Record::Product(_) => String::from_str(
                        "INSERT INTO products (name, description, price, in_stock) VALUES (?, ?, ?, ?)",
                    ),
                    Record::Order(_) => String::from_str(
                        "INSERT INTO orders (customer_id, product_id, quantity, order_date) VALUES (?, ?, ?, ?)",
                    ),
                }
            },
            Statement::Update(_, record) => {
                match record {
                    Record::Customer(_) => String::from_str(
                        "UPDATE customers SET name = ?, email = ?, address = ? WHERE id = ?",
                    ),
                    Record::Product(_) => String::from_str(
                        "UPDATE products SET name = ?, description = ?, price = ?, in_stock = ? WHERE id = ?",
                    ),
                    Record::Order(_) => String::from_str(
                        "UPDATE orders SET customer_id = ?, product_id = ?, quantity = ?, order_date = ? WHERE id = ?",
                    ),
                }
            },
            Statement::Delete(resource, _) => {
                String::from_str("DELETE FROM ").concat(resource.table_name()).concat(
                    " WHERE id = ?",
                )
            },
            Statement::DeleteMany(resource, ids) => {
                String::from_str("DELETE FROM ").concat(resource.table_name()).concat(
                    " WHERE id IN (",
                ).concat(placeholder_list(ids.len()).as_str()).concat(")")
            },
        }
    }

    /// The values of the statement, one for each `?` of its text and in their order.
    pub fn params(&self) -> (params: Vec<Param<'a>>)
        ensures
            params_view(params@) == self@.params(),
    {
        match self {
            Statement::SelectAll(_) => {
                let params: Vec<Param<'a>> = Vec::new();
                assert(params_view(params@) =~= self@.params());
                params
            },
            Statement::SelectById(_, id) | Statement::Exists(_, id) | Statement::Delete(_, id) => {
                let mut params: Vec<Param<'a>> = Vec::new();
                params.push(Param::Int(*id));
                assert(params_view(params@) =~= self@.params());
                params
            },
            Statement::Insert(record) => record_values(record),
            Statement::Update(id, record) => {
                let mut params = record_values(record);
                params.push(Param::Int(*id));
                assert(params_view(params@) =~= self@.params());
                params
            },
            Statement::DeleteMany(_, ids) => id_values(ids),
        }
    }
}

} // verus!
