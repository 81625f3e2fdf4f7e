//! Records and response bodies of the three table operations.
use vstd::prelude::*;

verus! {

/// One ordered food item of a table, as read back from the store.
#[derive(Debug, Clone, PartialEq, Eq)]
pub struct TableItem {
    pub item_id: u32,
    pub table_number: u32,
    pub item_name: String,
    pub ordered_on: String,
    pub prepare_minutes: u32,
}

/// The content of a `TableItem`.
pub struct TableItemView {
    pub item_id: u32,
    pub table_number: u32,
    pub item_name: Seq<char>,
    pub ordered_on: Seq<char>,
    pub prepare_minutes: u32,
}

impl View for TableItem {
    type V = TableItemView;

    open spec fn view(&self) -> TableItemView {
        TableItemView {
            item_id: self.item_id,
            table_number: self.table_number,
            item_name: self.item_name@,
            ordered_on: self.ordered_on@,
            prepare_minutes: self.prepare_minutes,
        }
    }
}

/// Body of a request that adds items to a table.
#[derive(Debug, Clone, PartialEq, Eq)]
pub struct AddItemsToTableRequest {
    pub items_names: Vec<String>,
}

/// Outcome of adding items: `status` is `"success"` or `"failed"`.
#[derive(Debug, Clone, PartialEq, Eq)]
pub struct AddItemsResponse {
    pub status: String,
    pub message: String,
    pub items_ids: Vec<u32>,
}

/// The content of an `AddItemsResponse`.
pub struct AddItemsResponseView {
    pub status: Seq<char>,
    pub message: Seq<char>,
    pub items_ids: Seq<u32>,
}

impl View for AddItemsResponse {
    type V = AddItemsResponseView;

    open spec fn view(&self) -> AddItemsResponseView {
        AddItemsResponseView {
            status: self.status@,
            message: self.message@,
            items_ids: self.items_ids@,
        }
    }
}

/// Outcome of removing an item: `status` is `"success"` or `"failed"`.
#[derive(Debug, Clone, PartialEq, Eq)]
pub struct RemoveTableItemResponse {
    pub status: String,
    pub message: String,
}

/// The content of a `RemoveTableItemResponse`.
pub struct RemoveTableItemResponseView {
    pub status: Seq<char>,
    pub message: Seq<char>,
}

impl View for RemoveTableItemResponse {
    type V = RemoveTableItemResponseView;

    open spec fn view(&self) -> RemoveTableItemResponseView {
        RemoveTableItemResponseView { status: self.status@, message: self.message@ }
    }
}

/// A value bound to a `?` placeholder of a statement.
#[derive(Debug, Clone, PartialEq, Eq)]
pub enum SqlParam {
    Number(u32),
    Text(String),
}

/// A statement with its bound parameters, in placeholder order.
#[derive(Debug, Clone, PartialEq, Eq)]
pub struct Statement {
    pub sql: String,
    pub params: Vec<SqlParam>,
}

} // verus!
