//! Requests on customers.

use crate::flow::start;
use crate::flow::start_model;
use crate::flow::Operation;
use crate::flow::OperationView;
use crate::flow::Step;
use crate::models::customer::CreateCustomer;
use crate::store::Record;
use crate::store::RecordView;
use crate::store::Resource;
use vstd::prelude::*;

verus! {

/// List all customers.
pub fn list_customers() -> (step: Step)
    ensures
        step@ == start_model(OperationView::List(Resource::Customers)),
{
    start(Operation::List(Resource::Customers))
}

/// Get the customer with an id.
pub fn get_customer(id: i32) -> (step: Step)
    ensures
        step@ == start_model(OperationView::Get(Resource::Customers, id as int)),
{
    start(Operation::Get(Resource::Customers, id as i64))
}

/// Create a customer.
pub fn create_customer(customer: CreateCustomer) -> (step: Step)
    ensures
        step@ == start_model(OperationView::Create(RecordView::Customer(customer@))),
{
    start(Operation::Create(Record::Customer(customer)))
}

/// Replace the customer with an id.
pub fn update_customer(id: i32, customer: CreateCustomer) -> (step: Step)
    ensures
        step@ == start_model(OperationView::Update(id as int, RecordView::Customer(customer@))),
{
    start(Operation::Update(id as i64, Record::Customer(customer)))
}

/// Delete the customer with an id.
pub fn delete_customer(id: i32) -> (step: Step)
    ensures
        step@ == start_model(OperationView::Delete(Resource::Customers, id as int)),
{
    start(Operation::Delete(Resource::Customers, id as i64))
}

/// Delete every customer whose id is listed.
pub fn delete_customers(ids: Vec<i32>) -> (step: Step)
    ensures
        step@ == start_model(OperationView::BulkDelete(Resource::Customers, ids@)),
{
    start(Operation::BulkDelete(Resource::Customers, ids))
}

} // verus!
