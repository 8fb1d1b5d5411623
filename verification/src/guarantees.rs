//! A store in its simplest form, and what requests do when they run against it.
//!
//! The store of this module exists in proofs only. It keeps each row under its resource
//! and id and answers every statement at once and without failure. The theorems below
//! say what the service guarantees with such a store behind it.

use crate::flow::created;
use crate::flow::failed;
use crate::flow::succeeded;
use crate::flow::listing;
use crate::flow::plain;
use crate::flow::resume_model;
use crate::flow::start_model;
use crate::flow::OperationView;
use crate::flow::OutcomeView;
use crate::flow::PayloadView;
use crate::flow::StepView;
use crate::models::customer::CustomerView;
use crate::models::order::order_failures_are_complete;
use crate::models::order::CreateOrder;
use crate::models::order::Order;
use crate::models::product::CreateProductView;
use crate::models::product::ProductView;
use crate::store::AnswerView;
use crate::store::EntityView;
use crate::store::RecordView;
use crate::store::Resource;
use crate::store::StatementView;
use crate::utils::content_range;
use crate::utils::earliest_order_date;
use crate::utils::too_early;
use crate::utils::AppErrorView;
use crate::validation::no_failures;
use crate::validation::no_ids;
use crate::validation::with_failure;
use vstd::prelude::*;

verus! {

/// The rows of the store: the fields of each, under its resource and id.
pub type Tables = Map<(Resource, int), RecordView>;

/// The row that the store hands out for the fields it keeps under an id. A customer is
/// only ever written with an email, so the row of one without is of no account.
pub open spec fn row(id: int, fields: RecordView) -> EntityView {
    match fields {
        RecordView::Customer(customer) => EntityView::Customer(
            CustomerView {
                id: id as i32,
                name: customer.name,
                email: match customer.email {
                    Some(email) => email,
                    None => Seq::empty(),
                },
                address: customer.address,
            },
        ),
        RecordView::Product(product) => EntityView::Product(
            ProductView {
                id: id as i32,
                name: product.name,
                description: product.description,
                price: product.price,
                in_stock: product.in_stock,
            },
        ),
        RecordView::Order(order) => EntityView::Order(
            Order {
                id: id as i32,
                customer_id: order.customer_id,
                product_id: order.product_id,
                quantity: order.quantity,
                order_date: order.order_date,
            },
        ),
    }
}

/// `entity` is a row of the resource.
pub open spec fn holds(tables: Tables, resource: Resource, entity: EntityView) -> bool {
    exists|id: int| #[trigger]
        tables.dom().contains((resource, id)) && entity == row(id, tables[(resource, id)])
}

/// `rows` are the rows of the resource, each once, in some order.
pub open spec fn lists(tables: Tables, resource: Resource, rows: Seq<EntityView>) -> bool {
    &&& forall|i: int| 0 <= i < rows.len() ==> holds(tables, resource, #[trigger] rows[i])
    &&& forall|id: int| #[trigger]
        tables.dom().contains((resource, id)) ==> rows.contains(
            row(id, tables[(resource, id)]),
        )
    &&& rows.no_duplicates()
}

/// The rows of a resource in the order in which the store hands them out.
pub open spec fn all_rows(tables: Tables, resource: Resource) -> Seq<EntityView> {
    choose|rows: Seq<EntityView>| lists(tables, resource, rows)
}

/// The rows of a resource whose id is among `ids`.
pub open spec fn listed(tables: Tables, resource: Resource, ids: Seq<i32>) -> Set<
    (Resource, int),
> {
    tables.dom().intersect(
        Set::new(
            |key: (Resource, int)|
                key.0 == resource && exists|i: int| 0 <= i < ids.len() && ids[i] as int == key.1,
        ),
    )
}

/// What the store answers to a statement, and the rows it holds afterwards. `fresh` is
/// the id that it gives to a row it inserts.
pub open spec fn answer(tables: Tables, statement: StatementView, fresh: int) -> (
    Tables,
    AnswerView,
) {
    match statement {
        StatementView::SelectAll(resource) => (
            tables,
            AnswerView::Rows(all_rows(tables, resource)),
        ),
        StatementView::SelectById(resource, id) => (
            tables,
            AnswerView::Rows(
                if tables.dom().contains((resource, id)) {
                    seq![row(id, tables[(resource, id)])]
                } else {
                    Seq::empty()
                },
            ),
        ),
        StatementView::Exists(resource, id) => (
            tables,
            AnswerView::Exists(tables.dom().contains((resource, id))),
        ),
        StatementView::Insert(fields) => (
            tables.insert((fields.resource(), fresh), fields),
            AnswerView::Affected(1),
        ),
        StatementView::Update(id, fields) => if tables.dom().contains((fields.resource(), id)) {
            (tables.insert((fields.resource(), id), fields), AnswerView::Affected(1))
        } else {
            (tables, AnswerView::Affected(0))
        },
        StatementView::Delete(resource, id) => if tables.dom().contains((resource, id)) {
            (tables.remove((resource, id)), AnswerView::Affected(1))
        } else {
            (tables, AnswerView::Affected(0))
        },
        StatementView::DeleteMany(resource, ids) => (
            tables.remove_keys(listed(tables, resource, ids)),
            AnswerView::Affected(listed(tables, resource, ids).len()),
        ),
    }
}

/// A request from its first step to its end.
pub struct Run {
    /// The rows of the store when the request is over.
    pub tables: Tables,
    /// The statements that the store was asked, in their order.
    pub asked: Seq<StatementView>,
    /// How the request ended.
    pub outcome: OutcomeView,
}

/// How many statements a step may still ask.
pub open spec fn distance(step: StepView) -> nat {
    match step {
        StepView::Done(_) => 0,
        StepView::Ask(flow) => match flow.stage {
            crate::flow::Stage::CustomerCheck => 4,
            crate::flow::Stage::ProductCheck => 3,
            crate::flow::Stage::TargetCheck => 2,
            _ => 1,
        },
    }
}

/// Runs a request from a step on: the store answers each statement, and the answer
/// decides the next step.
pub open spec fn run_from(tables: Tables, step: StepView, fresh: int) -> Run
    decreases distance(step),
{
    match step {
        StepView::Done(outcome) => Run { tables, asked: Seq::empty(), outcome },
        StepView::Ask(flow) => {
            let (after, reply) = answer(tables, flow.statement(), fresh);
            let rest = run_from(after, resume_model(flow, reply), fresh);
            Run {
                tables: rest.tables,
                asked: seq![flow.statement()] + rest.asked,
                outcome: rest.outcome,
            }
        },
    }
}

/// Runs a request against the store.
pub open spec fn run(tables: Tables, op: OperationView, fresh: int) -> Run {
    run_from(tables, start_model(op), fresh)
}

/// A statement that changes rows.
pub open spec fn writes(statement: StatementView) -> bool {
    statement is Insert || statement is Update || statement is Delete || statement is DeleteMany
}

/// A product that breaks no rule is created, and looking up the id that the store gave
/// it returns the fields as they were sent.
pub proof fn created_product_is_found(
    tables: Tables,
    product: CreateProductView,
    id: int,
    later: int,
)
    requires
        product.valid(),
        i32::MIN <= id <= i32::MAX,
        !tables.dom().contains((Resource::Products, id)),
    ensures
        ({
            let creation = run(tables, OperationView::Create(RecordView::Product(product)), id);
            let lookup = run(creation.tables, OperationView::Get(Resource::Products, id), later);
            &&& creation.outcome == succeeded(
                plain(PayloadView::Message(created(Resource::Products))),
            )
            &&& lookup.outcome == succeeded(
                plain(
                    PayloadView::Item(
                        EntityView::Product(
                            ProductView {
                                id: id as i32,
                                name: product.name,
                                description: product.description,
                                price: product.price,
                                in_stock: product.in_stock,
                            },
                        ),
                    ),
                ),
            )
        }),
{
    reveal_with_fuel(run_from, 3);
}

/// An order that breaks no rule and names a customer that is not there is not created:
/// the request ends with `NotFound` after the one probe, and the store keeps its rows.
pub proof fn order_for_absent_customer_is_not_created(tables: Tables, order: CreateOrder, fresh: int)
    requires
        order.valid(),
        !tables.dom().contains((Resource::Customers, order.customer_id as int)),
    ensures
        ({
            let creation = run(tables, OperationView::Create(RecordView::Order(order)), fresh);
            &&& creation.outcome == failed(AppErrorView::NotFound)
            &&& creation.tables == tables
            &&& creation.asked == seq![
                StatementView::Exists(Resource::Customers, order.customer_id as int),
            ]
        }),
{
    reveal_with_fuel(run_from, 3);
    let creation = run(tables, OperationView::Create(RecordView::Order(order)), fresh);
    assert(creation.asked =~= seq![
        StatementView::Exists(Resource::Customers, order.customer_id as int),
    ]);
}

/// An order that breaks no rule and names a product that is not there is not created
/// either. The customer is looked up first and the product second; the request ends with
/// `NotFound` after the two probes, and the store keeps its rows.
pub proof fn order_for_absent_product_is_not_created(tables: Tables, order: CreateOrder, fresh: int)
    requires
        order.valid(),
        tables.dom().contains((Resource::Customers, order.customer_id as int)),
        !tables.dom().contains((Resource::Products, order.product_id as int)),
    ensures
        ({
            let creation = run(tables, OperationView::Create(RecordView::Order(order)), fresh);
            &&& creation.outcome == failed(AppErrorView::NotFound)
            &&& creation.tables == tables
            &&& creation.asked == seq![
                StatementView::Exists(Resource::Customers, order.customer_id as int),
                StatementView::Exists(Resource::Products, order.product_id as int),
            ]
        }),
{
    reveal_with_fuel(run_from, 4);
    let creation = run(tables, OperationView::Create(RecordView::Order(order)), fresh);
    assert(creation.asked =~= seq![
        StatementView::Exists(Resource::Customers, order.customer_id as int),
        StatementView::Exists(Resource::Products, order.product_id as int),
    ]);
}

/// An order that breaks no rule and names a customer and a product that are there is
/// created: the store holds it under the id it gave, and every other row is as before.
pub proof fn order_with_its_references_is_created(tables: Tables, order: CreateOrder, fresh: int)
    requires
        order.valid(),
        tables.dom().contains((Resource::Customers, order.customer_id as int)),
        tables.dom().contains((Resource::Products, order.product_id as int)),
    ensures
        ({
            let creation = run(tables, OperationView::Create(RecordView::Order(order)), fresh);
            &&& creation.outcome == succeeded(
                plain(PayloadView::Message(created(Resource::Orders))),
            )
            &&& creation.tables == tables.insert(
                (Resource::Orders, fresh),
                RecordView::Order(order),
            )
        }),
{
    reveal_with_fuel(run_from, 5);
}

/// An order that breaks no rule and names a customer or a product that is not there
/// replaces nothing: the request ends with `NotFound` and the store keeps its rows.
pub proof fn order_for_absent_reference_replaces_nothing(
    tables: Tables,
    id: int,
    order: CreateOrder,
    fresh: int,
)
    requires
        order.valid(),
        !tables.dom().contains((Resource::Customers, order.customer_id as int))
            || !tables.dom().contains((Resource::Products, order.product_id as int)),
    ensures
        ({
            let replacement = run(
                tables,
                OperationView::Update(id, RecordView::Order(order)),
                fresh,
            );
            &&& replacement.outcome == failed(AppErrorView::NotFound)
            &&& replacement.tables == tables
            &&& forall|i: int| 0 <= i < replacement.asked.len() ==> !writes(replacement.asked[i])
        }),
{
    reveal_with_fuel(run_from, 4);
}

/// An order dated before 1 January 2020 is rejected with a failure under `order_date`,
/// whatever else it holds: the store is not asked anything and keeps its rows.
pub proof fn order_dated_too_early_is_rejected(tables: Tables, order: CreateOrder, fresh: int)
    requires
        order.order_date.before(earliest_order_date()),
    ensures
        ({
            let creation = run(tables, OperationView::Create(RecordView::Order(order)), fresh);
            &&& creation.outcome == failed(
                AppErrorView::ValidationError(order.failures()),
            )
            &&& order.failures().dom().contains("order_date"@)
            &&& order.failures()["order_date"@] == seq![too_early()]
            &&& creation.tables == tables
            &&& creation.asked == Seq::<StatementView>::empty()
        }),
{
    reveal_with_fuel(run_from, 2);
    order_failures_are_complete(order);
}

/// Deleting an empty list of ids is an error of validation, reported under `ids`: the
/// store is not asked anything and keeps its rows.
pub proof fn empty_bulk_delete_is_rejected(tables: Tables, resource: Resource, fresh: int)
    ensures
        ({
            let deletion = run(
                tables,
                OperationView::BulkDelete(resource, Seq::<i32>::empty()),
                fresh,
            );
            &&& deletion.outcome == failed(
                AppErrorView::ValidationError(with_failure(no_failures(), "ids"@, no_ids())),
            )
            &&& deletion.tables == tables
            &&& deletion.asked == Seq::<StatementView>::empty()
        }),
{
    reveal_with_fuel(run_from, 2);
}

/// Deleting a list of ids of which none is there ends with `NotFound`, and the store
/// keeps its rows.
pub proof fn bulk_delete_of_absent_ids_finds_nothing(
    tables: Tables,
    resource: Resource,
    ids: Seq<i32>,
    fresh: int,
)
    requires
        ids.len() > 0,
        forall|i: int| 0 <= i < ids.len() ==> !tables.dom().contains((resource, ids[i] as int)),
    ensures
        ({
            let deletion = run(tables, OperationView::BulkDelete(resource, ids), fresh);
            &&& deletion.outcome == failed(AppErrorView::NotFound)
            &&& deletion.tables == tables
        }),
{
    reveal_with_fuel(run_from, 3);
    assert(listed(tables, resource, ids) =~= Set::empty());
    assert(tables.remove_keys(listed(tables, resource, ids)) =~= tables);
}

/// Deleting a list of ids of which at least one is there succeeds and echoes the whole
/// list as it was asked for. Afterwards none of the listed rows is there, and every
/// other row is as before.
pub proof fn bulk_delete_echoes_every_id(
    tables: Tables,
    resource: Resource,
    ids: Seq<i32>,
    fresh: int,
)
    requires
        tables.dom().finite(),
        exists|i: int| 0 <= i < ids.len() && tables.dom().contains((resource, ids[i] as int)),
    ensures
        ({
            let deletion = run(tables, OperationView::BulkDelete(resource, ids), fresh);
            &&& deletion.outcome == succeeded(plain(PayloadView::Ids(ids)))
            &&& forall|i: int|
                0 <= i < ids.len() ==> !deletion.tables.dom().contains((resource, ids[i] as int))
            &&& forall|key: (Resource, int)|
                tables.dom().contains(key) && !listed(tables, resource, ids).contains(key)
                    ==> deletion.tables.dom().contains(key) && deletion.tables[key]
                    == tables[key]
        }),
{
    reveal_with_fuel(run_from, 3);
    let found = choose|i: int|
        0 <= i < ids.len() && tables.dom().contains((resource, ids[i] as int));
    let gone = listed(tables, resource, ids);
    assert(gone.contains((resource, ids[found] as int)));
    assert(gone.finite());
    assert(gone.len() != 0);
    let deletion = run(tables, OperationView::BulkDelete(resource, ids), fresh);
    assert forall|i: int| 0 <= i < ids.len() implies !deletion.tables.dom().contains(
        (resource, ids[i] as int),
    ) by {
        if tables.dom().contains((resource, ids[i] as int)) {
            assert(gone.contains((resource, ids[i] as int)));
        }
    }
}

/// Listing a resource without rows succeeds with no item and the range `<resource> */0`.
pub proof fn listing_of_nothing(tables: Tables, resource: Resource, fresh: int)
    requires
        forall|id: int| !tables.dom().contains((resource, id)),
    ensures
        ({
            let list = run(tables, OperationView::List(resource), fresh);
            &&& list.outcome == succeeded(listing(resource, Seq::empty()))
            &&& listing(resource, Seq::empty()).content_range->0.value == resource.table()
                + " */0"@
            &&& list.tables == tables
        }),
{
    reveal_with_fuel(run_from, 3);
    assert(lists(tables, resource, Seq::empty()));
    let rows = all_rows(tables, resource);
    assert(lists(tables, resource, rows));
    if rows.len() > 0 {
        assert(holds(tables, resource, rows[0]));
    }
    assert(rows =~= Seq::empty());
}

/// Deleting a row that is not there ends with `NotFound` and leaves the store as it
/// was, so deleting it again ends in the same way.
pub proof fn deleting_an_absent_row_twice(
    tables: Tables,
    resource: Resource,
    id: int,
    fresh: int,
    later: int,
)
    requires
        !tables.dom().contains((resource, id)),
    ensures
        ({
            let first = run(tables, OperationView::Delete(resource, id), fresh);
            let second = run(first.tables, OperationView::Delete(resource, id), later);
            &&& first.outcome == failed(AppErrorView::NotFound)
            &&& second.outcome == failed(AppErrorView::NotFound)
            &&& first.tables == tables
            &&& second.tables == tables
        }),
{
    reveal_with_fuel(run_from, 3);
}

/// A request that breaks a rule never reaches the store: it ends with every failure,
/// no statement is asked, and the rows stay as they were.
pub proof fn invalid_request_never_reaches_the_store(tables: Tables, op: OperationView, fresh: int)
    requires
        !op.valid(),
    ensures
        ({
            let attempt = run(tables, op, fresh);
            &&& attempt.outcome == failed(AppErrorView::ValidationError(op.failures()))
            &&& attempt.tables == tables
            &&& attempt.asked == Seq::<StatementView>::empty()
        }),
{
    reveal_with_fuel(run_from, 2);
}

/// A request asks the store at most four statements. Only the last of them can change
/// rows, so no request writes twice.
pub proof fn only_the_last_statement_writes(tables: Tables, op: OperationView, fresh: int)
    ensures
        ({
            let asked = run(tables, op, fresh).asked;
            &&& asked.len() <= 4
            &&& forall|i: int| 0 <= i < asked.len() && writes(#[trigger] asked[i]) ==> i == asked.len() - 1
        }),
{
    reveal_with_fuel(run_from, 6);
}

} // verus!
