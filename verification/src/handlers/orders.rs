//! Requests on orders.

use crate::flow::start;
use crate::flow::start_model;
use crate::flow::Operation;
use crate::flow::OperationView;
use crate::flow::Step;
use crate::models::order::CreateOrder;
use crate::store::Record;
use crate::store::RecordView;
use crate::store::Resource;
use vstd::prelude::*;

verus! {

/// List all orders.
pub fn list_orders() -> (step: Step)
    ensures
        step@ == start_model(OperationView::List(Resource::Orders)),
{
    start(Operation::List(Resource::Orders))
}

/// Get the order with an id.
pub fn get_order(id: i32) -> (step: Step)
    ensures
        step@ == start_model(OperationView::Get(Resource::Orders, id as int)),
{
    start(Operation::Get(Resource::Orders, id as i64))
}

/// Create an order.
pub fn create_order(order: CreateOrder) -> (step: Step)
    ensures
        step@ == start_model(OperationView::Create(RecordView::Order(order))),
{
    start(Operation::Create(Record::Order(order)))
}

/// Replace the order with an id.
pub fn update_order(id: i32, order: CreateOrder) -> (step: Step)
    ensures
        step@ == start_model(OperationView::Update(id as int, RecordView::Order(order))),
{
    start(Operation::Update(id as i64, Record::Order(order)))
}

/// Delete the order with an id.
pub fn delete_order(id: i32) -> (step: Step)
    ensures
        step@ == start_model(OperationView::Delete(Resource::Orders, id as int)),
{
    start(Operation::Delete(Resource::Orders, id as i64))
}

/// Delete every order whose id is listed.
pub fn delete_orders(ids: Vec<i32>) -> (step: Step)
    ensures
        step@ == start_model(OperationView::BulkDelete(Resource::Orders, ids@)),
{
    start(Operation::BulkDelete(Resource::Orders, ids))
}

} // verus!
