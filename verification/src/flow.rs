//! A request as a state machine: validate, check references, run one statement, shape
//! the response.
//!
//! `start` takes a request and `resume` takes the store's answer to the statement that
//! was asked last. Either one ends the request with a response or an error, or names
//! the statement to run next.

use crate::store::Answer;
use crate::store::AnswerView;
use crate::store::Entity;
use crate::store::EntityView;
use crate::store::Record;
use crate::store::RecordView;
use crate::store::Resource;
use crate::store::Statement;
use crate::store::StatementView;
use crate::store::rows_view;
use crate::utils::content_range;
use crate::utils::content_range_header;
use crate::utils::json_response;
use crate::utils::presence;
use crate::utils::validate_customer_exists;
use crate::utils::validate_exists;
use crate::utils::validate_product_exists;
use crate::utils::AppError;
use crate::utils::AppErrorView;
use crate::utils::Envelope;
use crate::utils::Header;
use crate::utils::HeaderView;
use crate::validation::ids_failures;
use crate::validation::no_failures;
use crate::validation::validate_ids;
use crate::validation::Failures;
use vstd::pervasive::unreached;
use vstd::prelude::*;

verus! {

/// What a client asks for.
#[derive(Clone, Debug, PartialEq, Eq)]
pub enum Operation {
    /// All rows of a resource.
    List(Resource),
    /// The row with an id.
    Get(Resource, i64),
    /// A new row from a payload.
    Create(Record),
    /// A payload in place of the row with an id.
    Update(i64, Record),
    /// The row with an id goes.
    Delete(Resource, i64),
    /// Every row whose id is listed goes.
    BulkDelete(Resource, Vec<i32>),
}

/// A request with its ids as integers and its payload by view.
pub enum OperationView {
    List(Resource),
    Get(Resource, int),
    Create(RecordView),
    Update(int, RecordView),
    Delete(Resource, int),
    BulkDelete(Resource, Seq<i32>),
}

impl View for Operation {
    type V = OperationView;

    open spec fn view(&self) -> OperationView {
        match self {
            Operation::List(resource) => OperationView::List(*resource),
            Operation::Get(resource, id) => OperationView::Get(*resource, *id as int),
            Operation::Create(record) => OperationView::Create(record@),
            Operation::Update(id, record) => OperationView::Update(*id as int, record@),
            Operation::Delete(resource, id) => OperationView::Delete(*resource, *id as int),
            Operation::BulkDelete(resource, ids) => OperationView::BulkDelete(*resource, ids@),
        }
    }
}

/// Where a request stands: which answer it waits for.
#[derive(Clone, Copy, Debug, PartialEq, Eq)]
pub enum Stage {
    /// Is the customer that the order names there?
    CustomerCheck,
    /// Is the product that the order names there?
    ProductCheck,
    /// Is the row that is to be replaced there?
    TargetCheck,
    /// The one write of the request.
    Write,
    /// The one query of the request.
    Read,
}

/// What a successful response carries under `data`.
#[derive(Clone, Debug, PartialEq, Eq)]
pub enum Payload {
    Message(&'static str),
    Ids(Vec<i32>),
    Item(Entity),
    Items(Vec<Entity>),
}

/// What a successful response carries, by view.
pub enum PayloadView {
    Message(Seq<char>),
    Ids(Seq<i32>),
    Item(EntityView),
    Items(Seq<EntityView>),
}

impl View for Payload {
    type V = PayloadView;

    open spec fn view(&self) -> PayloadView {
        match self {
            Payload::Message(message) => PayloadView::Message(message@),
            Payload::Ids(ids) => PayloadView::Ids(ids@),
            Payload::Item(row) => PayloadView::Item(row@),
            Payload::Items(rows) => PayloadView::Items(rows_view(rows@)),
        }
    }
}

/// A successful response: the body, and for a listing the header with its range.
#[derive(Clone, Debug, PartialEq, Eq)]
pub struct Response {
    pub content_range: Option<Header>,
    pub body: Envelope<Payload>,
}

/// A successful response by view: the header of a listing, and what stands under `data`.
pub struct ResponseView {
    pub content_range: Option<HeaderView>,
    pub data: PayloadView,
}

impl View for Response {
    type V = ResponseView;

    open spec fn view(&self) -> ResponseView {
        ResponseView {
            content_range: match self.content_range {
                Some(header) => Some(header@),
                None => None,
            },
            data: self.body.data@,
        }
    }
}

/// How a request ends.
pub type Outcome = Result<Response, AppError>;

/// How a request ends, by view.
pub type OutcomeView = Result<ResponseView, AppErrorView>;

/// An outcome with both sides by view.
pub open spec fn outcome_view(outcome: Outcome) -> OutcomeView {
    match outcome {
        Ok(response) => Ok(response@),
        Err(error) => Err(error@),
    }
}

/// The outcome of a request that succeeded.
pub open spec fn succeeded(response: ResponseView) -> OutcomeView {
    Ok(response)
}

/// The outcome of a request that failed.
pub open spec fn failed(error: AppErrorView) -> OutcomeView {
    Err(error)
}

/// The message of a row that was created.
pub open spec fn created(resource: Resource) -> Seq<char> {
    match resource {
        Resource::Customers => "Customer created successfully"@,
        Resource::Products => "Product created successfully"@,
        Resource::Orders => "Order created successfully"@,
    }
}

/// The message of a row that was replaced.
pub open spec fn updated(resource: Resource) -> Seq<char> {
    match resource {
        Resource::Customers => "Customer updated successfully"@,
        Resource::Products => "Product updated successfully"@,
        Resource::Orders => "Order updated successfully"@,
    }
}

/// The message of a row that was deleted.
pub open spec fn deleted(resource: Resource) -> Seq<char> {
    match resource {
        Resource::Customers => "Customer deleted successfully"@,
        Resource::Products => "Product deleted successfully"@,
        Resource::Orders => "Order deleted successfully"@,
    }
}

/// A response without a range header.
pub open spec fn plain(data: PayloadView) -> ResponseView {
    ResponseView { content_range: None, data }
}

/// The response to a listing: the rows, and their range under `Content-Range`.
pub open spec fn listing(resource: Resource, rows: Seq<EntityView>) -> ResponseView {
    ResponseView {
        content_range: Some(
            HeaderView {
                name: "Content-Range"@,
                value: content_range(resource.table(), rows.len()),
            },
        ),
        data: PayloadView::Items(rows),
    }
}

impl OperationView {
    /// The resource that the request is about.
    pub open spec fn resource(self) -> Resource {
        match self {
            OperationView::List(resource) => resource,
            OperationView::Get(resource, _) => resource,
            OperationView::Create(record) => record.resource(),
            OperationView::Update(_, record) => record.resource(),
            OperationView::Delete(resource, _) => resource,
            OperationView::BulkDelete(resource, _) => resource,
        }
    }

    /// The request may go to the store: its payload breaks no rule, its list of ids is
    /// not empty.
    pub open spec fn valid(self) -> bool {
        match self {
            OperationView::Create(record) => record.valid(),
            OperationView::Update(_, record) => record.valid(),
            OperationView::BulkDelete(_, ids) => ids.len() > 0,
            _ => true,
        }
    }

    /// Every rule the request breaks, by field.
    pub open spec fn failures(self) -> Failures {
        match self {
            OperationView::Create(record) => record.failures(),
            OperationView::Update(_, record) => record.failures(),
            OperationView::BulkDelete(_, ids) => ids_failures(ids),
            _ => no_failures(),
        }
    }

    /// The first thing to ask the store. An order's references are checked before it is
    /// written, customer first; a customer or an order that is to be replaced is looked
    /// up before the write.
    pub open spec fn first_stage(self) -> Stage {
        match self {
            OperationView::List(_) => Stage::Read,
            OperationView::Get(_, _) => Stage::Read,
            OperationView::Create(RecordView::Order(_)) => Stage::CustomerCheck,
            OperationView::Update(_, RecordView::Order(_)) => Stage::CustomerCheck,
            OperationView::Update(_, RecordView::Customer(_)) => Stage::TargetCheck,
            _ => Stage::Write,
        }
    }

    /// What follows a check that found its row.
    pub open spec fn stage_after(self, stage: Stage) -> Stage {
        match stage {
            Stage::CustomerCheck => Stage::ProductCheck,
            Stage::ProductCheck => if self is Update {
                Stage::TargetCheck
            } else {
                Stage::Write
            },
            _ => Stage::Write,
        }
    }

    /// The stages that the request can be in.
    pub open spec fn plans(self, stage: Stage) -> bool {
        match self {
            OperationView::List(_) => stage is Read,
            OperationView::Get(_, _) => stage is Read,
            OperationView::Create(RecordView::Order(_)) => stage is CustomerCheck
                || stage is ProductCheck || stage is Write,
            OperationView::Create(_) => stage is Write,
            OperationView::Update(_, RecordView::Order(_)) => stage is CustomerCheck
                || stage is ProductCheck || stage is TargetCheck || stage is Write,
            OperationView::Update(_, RecordView::Customer(_)) => stage is TargetCheck
                || stage is Write,
            OperationView::Update(_, RecordView::Product(_)) => stage is Write,
            OperationView::Delete(_, _) => stage is Write,
            OperationView::BulkDelete(_, _) => stage is Write,
        }
    }

    /// The order that a request with an order as payload carries.
    pub open spec fn order(self) -> crate::models::order::CreateOrder
        recommends
            self matches OperationView::Create(RecordView::Order(_))
                || self matches OperationView::Update(_, RecordView::Order(_)),
    {
        match self {
            OperationView::Create(RecordView::Order(order)) => order,
            OperationView::Update(_, RecordView::Order(order)) => order,
            _ => arbitrary(),
        }
    }

    /// How the request ends once its write touched `count` rows. A created row is
    /// reported whatever the count; a write that was to change or remove rows and
    /// touched none reports that nothing was found. A bulk delete that touched any row
    /// echoes the ids as they were asked for.
    pub open spec fn written(self, count: nat) -> OutcomeView {
        match self {
            OperationView::Create(record) => Ok(
                plain(PayloadView::Message(created(record.resource()))),
            ),
            OperationView::Update(_, record) => if count == 0 {
                Err(AppErrorView::NotFound)
            } else {
                Ok(plain(PayloadView::Message(updated(record.resource()))))
            },
            OperationView::Delete(resource, _) => if count == 0 {
                Err(AppErrorView::NotFound)
            } else {
                Ok(plain(PayloadView::Message(deleted(resource))))
            },
            OperationView::BulkDelete(_, ids) => if count == 0 {
                Err(AppErrorView::NotFound)
            } else {
                Ok(plain(PayloadView::Ids(ids)))
            },
            _ => Err(AppErrorView::InternalServerError),
        }
    }

    /// How the request ends once its query found `rows`. A listing carries all of them
    /// and their range; a lookup carries the first, and finds nothing when there is none.
    pub open spec fn read(self, rows: Seq<EntityView>) -> OutcomeView {
        match self {
            OperationView::List(resource) => Ok(listing(resource, rows)),
            OperationView::Get(_, _) => if rows.len() == 0 {
                Err(AppErrorView::NotFound)
            } else {
                Ok(plain(PayloadView::Item(rows[0])))
            },
            _ => Err(AppErrorView::InternalServerError),
        }
    }
}

/// A request that waits for an answer of the store.
pub struct FlowView {
    pub op: OperationView,
    pub stage: Stage,
}

impl FlowView {
    /// Only requests that passed validation wait for the store, and only in a stage of
    /// their plan.
    pub open spec fn valid(self) -> bool {
        self.op.valid() && self.op.plans(self.stage)
    }

    /// The statement whose answer the request waits for.
    pub open spec fn statement(self) -> StatementView
        recommends
            self.valid(),
    {
        match self.stage {
            Stage::CustomerCheck => StatementView::Exists(
                Resource::Customers,
                self.op.order().customer_id as int,
            ),
            Stage::ProductCheck => StatementView::Exists(
                Resource::Products,
                self.op.order().product_id as int,
            ),
            Stage::TargetCheck => match self.op {
                OperationView::Update(id, record) => StatementView::Exists(record.resource(), id),
                _ => arbitrary(),
            },
            Stage::Write => match self.op {
                OperationView::Create(record) => StatementView::Insert(record),
                OperationView::Update(id, record) => StatementView::Update(id, record),
                OperationView::Delete(resource, id) => StatementView::Delete(resource, id),
                OperationView::BulkDelete(resource, ids) => StatementView::DeleteMany(
                    resource,
                    ids,
                ),
                _ => arbitrary(),
            },
            Stage::Read => match self.op {
                OperationView::List(resource) => StatementView::SelectAll(resource),
                OperationView::Get(resource, id) => StatementView::SelectById(resource, id),
                _ => arbitrary(),
            },
        }
    }
}

/// Either the request goes on and waits for the store, or it is over.
pub enum StepView {
    Ask(FlowView),
    Done(OutcomeView),
}

/// The first step of a request. One that breaks a rule ends at once with all its
/// failures and never reaches the store.
pub open spec fn start_model(op: OperationView) -> StepView {
    if op.valid() {
        StepView::Ask(FlowView { op, stage: op.first_stage() })
    } else {
        StepView::Done(Err(AppErrorView::ValidationError(op.failures())))
    }
}

/// The step that follows an answer of the store. A check that does not find its row
/// ends the request, and so does every failure of the store.
pub open spec fn resume_model(flow: FlowView, answer: AnswerView) -> StepView {
    match flow.stage {
        Stage::Write => match answer {
            AnswerView::Failed => StepView::Done(Err(AppErrorView::DatabaseError)),
            AnswerView::Affected(count) => StepView::Done(flow.op.written(count)),
            _ => StepView::Done(Err(AppErrorView::InternalServerError)),
        },
        Stage::Read => match answer {
            AnswerView::Failed => StepView::Done(Err(AppErrorView::DatabaseError)),
            AnswerView::Rows(rows) => StepView::Done(flow.op.read(rows)),
            _ => StepView::Done(Err(AppErrorView::InternalServerError)),
        },
        _ => match presence(answer) {
            Ok(()) => StepView::Ask(
                FlowView { op: flow.op, stage: flow.op.stage_after(flow.stage) },
            ),
            Err(error) => StepView::Done(Err(error)),
        },
    }
}

/// A request that waits for an answer of the store.
#[derive(Debug)]
pub struct Flow {
    op: Operation,
    stage: Stage,
}

impl View for Flow {
    type V = FlowView;

    closed spec fn view(&self) -> FlowView {
        FlowView { op: self.op@, stage: self.stage }
    }
}

/// Either the request goes on and waits for the store, or it is over.
#[derive(Debug)]
pub enum Step {
    Ask(Flow),
    Done(Outcome),
}

impl View for Step {
    type V = StepView;

    open spec fn view(&self) -> StepView {
        match self {
            Step::Ask(flow) => StepView::Ask(flow@),
            Step::Done(outcome) => StepView::Done(outcome_view(*outcome)),
        }
    }
}

/// The message of a row that was created.
fn created_message(resource: Resource) -> (message: &'static str)
    ensures
        message@ == created(resource),
{
    match resource {
        Resource::Customers => "Customer created successfully",
        Resource::Products => "Product created successfully",
        Resource::Orders => "Order created successfully",
    }
}

/// The message of a row that was replaced.
fn updated_message(resource: Resource) -> (message: &'static str)
    ensures
        message@ == updated(resource),
{
    match resource {
        Resource::Customers => "Customer updated successfully",
        Resource::Products => "Product updated successfully",
        Resource::Orders => "Order updated successfully",
    }
}

/// The message of a row that was deleted.
fn deleted_message(resource: Resource) -> (message: &'static str)
    ensures
        message@ == deleted(resource),
{
    match resource {
        Resource::Customers => "Customer deleted successfully",
        Resource::Products => "Product deleted successfully",
        Resource::Orders => "Order deleted successfully",
    }
}

/// A response without a range header.
fn respond(data: Payload) -> (response: Response)
    ensures
        response@ == plain(data@),
{
    Response { content_range: None, body: json_response(data) }
}

impl Operation {
    /// The first thing to ask the store.
    fn first_stage(&self) -> (stage: Stage)
        ensures
            stage == self@.first_stage(),
    {
        match self {
            Operation::List(_) => Stage::Read,
            Operation::Get(_, _) => Stage::Read,
            Operation::Create(Record::Order(_)) => Stage::CustomerCheck,
            Operation::Update(_, Record::Order(_)) => Stage::CustomerCheck,
            Operation::Update(_, Record::Customer(_)) => Stage::TargetCheck,
            _ => Stage::Write,
        }
    }

    /// How the request ends once its write touched `count` rows.
    fn written(self, count: u64) -> (outcome: Outcome)
        ensures
            outcome_view(outcome) == self@.written(count as nat),
    {
        match self {
            Operation::Create(record) => Ok(
                respond(Payload::Message(created_message(record.resource()))),
            ),
            Operation::Update(_, record) => {
                if count == 0 {
                    Err(AppError::NotFound)
                } else {
                    Ok(respond(Payload::Message(updated_message(record.resource()))))
                }
            },
            Operation::Delete(resource, _) => {
                if count == 0 {
                    Err(AppError::NotFound)
                } else {
                    Ok(respond(Payload::Message(deleted_message(resource))))
                }
            },
            Operation::BulkDelete(_, ids) => {
                if count == 0 {
                    Err(AppError::NotFound)
                } else {
                    Ok(respond(Payload::Ids(ids)))
                }
            },
            _ => Err(AppError::InternalServerError),
        }
    }

    /// How the request ends once its query found `rows`.
    fn read(self, rows: Vec<Entity>) -> (outcome: Outcome)
        ensures
            outcome_view(outcome) == self@.read(rows_view(rows@)),
    {
        match self {
            Operation::List(resource) => {
                let header = content_range_header(resource.table_name(), rows.len());
                Ok(
                    Response {
                        content_range: Some(header),
                        body: json_response(Payload::Items(rows)),
                    },
                )
            },
            Operation::Get(_, _) => {
                if rows.len() == 0 {
                    Err(AppError::NotFound)
                } else {
                    let mut rows = rows;
                    let first = rows.remove(0);
                    Ok(respond(Payload::Item(first)))
                }
            },
            _ => Err(AppError::InternalServerError),
        }
    }
}

impl Flow {
    #[verifier::type_invariant]
    spec fn well_formed(self) -> bool {
        self@.valid()
    }

    /// The statement whose answer the request waits for. Only a request that passed
    /// validation ever waits, so no statement carries a payload that breaks a rule.
    pub fn statement(&self) -> (statement: Statement<'_>)
        ensures
            statement@ == self@.statement(),
            self@.valid(),
    {
        proof {
            use_type_invariant(self);
        }
        match self.stage {
            Stage::CustomerCheck => match &self.op {
                Operation::Create(Record::Order(order)) => Statement::Exists(
                    Resource::Customers,
                    order.customer_id as i64,
                ),
                Operation::Update(_, Record::Order(order)) => Statement::Exists(
                    Resource::Customers,
                    order.customer_id as i64,
                ),
                _ => unreached(),
            },
            Stage::ProductCheck => match &self.op {
                Operation::Create(Record::Order(order)) => Statement::Exists(
                    Resource::Products,
                    order.product_id as i64,
                ),
                Operation::Update(_, Record::Order(order)) => Statement::Exists(
                    Resource::Products,
                    order.product_id as i64,
                ),
                _ => unreached(),
            },
            Stage::TargetCheck => match &self.op {
                Operation::Update(id, record) => Statement::Exists(record.resource(), *id),
                _ => unreached(),
            },
            Stage::Write => match &self.op {
                Operation::Create(record) => Statement::Insert(record),
                Operation::Update(id, record) => Statement::Update(*id, record),
                Operation::Delete(resource, id) => Statement::Delete(*resource, *id),
                Operation::BulkDelete(resource, ids) => Statement::DeleteMany(*resource, ids),
                _ => unreached(),
            },
            Stage::Read => match &self.op {
                Operation::List(resource) => Statement::SelectAll(*resource),
                Operation::Get(resource, id) => Statement::SelectById(*resource, *id),
                _ => unreached(),
            },
        }
    }
}

/// Takes a request. A payload or a list of ids that breaks a rule ends it at once with
/// every failure; anything else waits for the store with its first statement.
pub fn start(op: Operation) -> (step: Step)
    ensures
        step@ == start_model(op@),
{
    let checked = match &op {
        Operation::Create(record) => record.validate(),
        Operation::Update(_, record) => record.validate(),
        Operation::BulkDelete(_, ids) => validate_ids(ids),
        _ => Ok(()),
    };
    match checked {
        Err(errors) => Step::Done(Err(AppError::ValidationError(errors))),
        Ok(()) => {
            let stage = op.first_stage();
            Step::Ask(Flow { op, stage })
        },
    }
}

/// Takes the store's answer to the statement that the request waited for.
pub fn resume(flow: Flow, answer: Answer) -> (step: Step)
    ensures
        step@ == resume_model(flow@, answer@),
{
    proof {
        use_type_invariant(&flow);
    }
    let Flow { op, stage } = flow;
    match stage {
        Stage::Write => match answer {
            Answer::Failed => Step::Done(Err(AppError::DatabaseError)),
            Answer::Affected(count) => Step::Done(op.written(count)),
            _ => Step::Done(Err(AppError::InternalServerError)),
        },
        Stage::Read => match answer {
            Answer::Failed => Step::Done(Err(AppError::DatabaseError)),
            Answer::Rows(rows) => Step::Done(op.read(rows)),
            _ => Step::Done(Err(AppError::InternalServerError)),
        },
        Stage::CustomerCheck => match validate_customer_exists(&answer) {
            Ok(()) => Step::Ask(Flow { op, stage: Stage::ProductCheck }),
            Err(error) => Step::Done(Err(error)),
        },
        Stage::ProductCheck => match validate_product_exists(&answer) {
            Ok(()) => {
                let next = match &op {
                    Operation::Update(_, _) => Stage::TargetCheck,
                    _ => Stage::Write,
                };
                Step::Ask(Flow { op, stage: next })
            },
            Err(error) => Step::Done(Err(error)),
        },
        Stage::TargetCheck => match validate_exists(&answer) {
            Ok(()) => Step::Ask(Flow { op, stage: Stage::Write }),
            Err(error) => Step::Done(Err(error)),
        },
    }
}

} // verus!
