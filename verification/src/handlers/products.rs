//! Requests on products.

use crate::flow::start;
use crate::flow::start_model;
use crate::flow::Operation;
use crate::flow::OperationView;
use crate::flow::Step;
use crate::models::product::CreateProduct;
use crate::store::Record;
use crate::store::RecordView;
use crate::store::Resource;
use vstd::prelude::*;

verus! {

/// List all products.
pub fn list_products() -> (step: Step)
    ensures
        step@ == start_model(OperationView::List(Resource::Products)),
{
    start(Operation::List(Resource::Products))
}

/// Get the product with an id.
pub fn get_product(id: u32) -> (step: Step)
    ensures
        step@ == start_model(OperationView::Get(Resource::Products, id as int)),
{
    start(Operation::Get(Resource::Products, id as i64))
}

/// Create a product.
pub fn create_product(product: CreateProduct) -> (step: Step)
    ensures
        step@ == start_model(OperationView::Create(RecordView::Product(product@))),
{
    start(Operation::Create(Record::Product(product)))
}

/// Replace the product with an id.
pub fn update_product(id: u32, product: CreateProduct) -> (step: Step)
    ensures
        step@ == start_model(OperationView::Update(id as int, RecordView::Product(product@))),
{
    start(Operation::Update(id as i64, Record::Product(product)))
}

/// Delete the product with an id.
pub fn delete_product(id: i32) -> (step: Step)
    ensures
        step@ == start_model(OperationView::Delete(Resource::Products, id as int)),
{
    start(Operation::Delete(Resource::Products, id as i64))
}

/// Delete every product whose id is listed.
pub fn delete_products(ids: Vec<i32>) -> (step: Step)
    ensures
        step@ == start_model(OperationView::BulkDelete(Resource::Products, ids@)),
{
    start(Operation::BulkDelete(Resource::Products, ids))
}

} // verus!
