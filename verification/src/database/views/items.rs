//! The `items_view`: every item of the catalogue, product or service, in one relation.

use rust_decimal::Decimal;
use vstd::prelude::*;

use crate::shared_models::ItemType;

verus! {

/// The records of the `items_view`, whose primary key is `item_id`.
pub struct ItemsView {
    records: Vec<ItemsViewRecord>,
}

/// One item: the product columns are filled for a product, the service columns for a
/// service.
#[derive(Clone)]
pub struct ItemsViewRecord {
    pub item_id: i32,
    pub item_type: ItemType,
    pub product_sku: Option<i32>,
    pub product_name: Option<String>,
    pub product_cost: Option<Decimal>,
    pub product_price: Option<Decimal>,
    pub service_id: Option<i32>,
    pub service_type_name: Option<String>,
    pub service_device_name: Option<String>,
    pub service_base_fee: Option<Decimal>,
    pub service_labor_fee: Option<Decimal>,
}

impl View for ItemsView {
    type V = Seq<ItemsViewRecord>;

    closed spec fn view(&self) -> Seq<ItemsViewRecord> {
        self.records@
    }
}

impl ItemsView {
    /// The view that holds `records`, in that order.
    pub fn with_records(records: Vec<ItemsViewRecord>) -> (view: Self)
        ensures
            view@ == records@,
    {
        ItemsView { records }
    }

    /// Gives the records up to the caller.
    pub fn take_records(self) -> (records: Vec<ItemsViewRecord>)
        ensures
            records@ == self@,
    {
        self.records
    }

    /// The records of the view, in order.
    pub fn records(&self) -> (records: &[ItemsViewRecord])
        ensures
            records@ == self@,
    {
        self.records.as_slice()
    }
}

} // verus!
