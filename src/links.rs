//! Hyperlink targets of table and item resources.
use vstd::prelude::*;

use crate::text::{decimal, decimal_text, text_then_number};

verus! {

pub open spec fn table_href_text(table_number: u32) -> Seq<char> {
    "/tables/"@ + decimal_text(table_number as nat)
}

pub open spec fn item_href_text(table_number: u32, item_id: u32) -> Seq<char> {
    table_href_text(table_number) + "/items/"@ + decimal_text(item_id as nat)
}

/// `/tables/{table_number}`.
pub fn table_href(table_number: u32) -> (r: String)
    ensures
        r@ == table_href_text(table_number),
{
    text_then_number("/tables/", table_number as u64)
}

/// `/tables/{table_number}/items/{item_id}`.
pub fn item_href(table_number: u32, item_id: u32) -> (r: String)
    ensures
        r@ == item_href_text(table_number, item_id),
{
    let mut s = table_href(table_number);
    s.append("/items/");
    let id = decimal(item_id as u64);
    s.append(id.as_str());
    s
}

} // verus!
