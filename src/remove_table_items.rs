//! Removing one item of a table: the delete, and the response once its
//! transaction has ended.
use vstd::prelude::*;

use crate::errors::PersistenceError;
use crate::model::{RemoveTableItemResponse, RemoveTableItemResponseView, SqlParam, Statement};
use crate::text::{decimal_text, text_then_number};
use crate::transaction::TxnOutcome;

verus! {

pub open spec fn delete_sql() -> Seq<char> {
    "DELETE FROM table_items WHERE table_number = ? and item_id = ?"@
}

pub open spec fn removed_view(item_id: u32) -> RemoveTableItemResponseView {
    RemoveTableItemResponseView {
        status: "success"@,
        message: "Removed item: "@ + decimal_text(item_id as nat),
    }
}

pub open spec fn absent_view(item_id: u32) -> RemoveTableItemResponseView {
    RemoveTableItemResponseView {
        status: "success"@,
        message: "No item with id "@ + decimal_text(item_id as nat),
    }
}

pub open spec fn remove_failed_view() -> RemoveTableItemResponseView {
    RemoveTableItemResponseView {
        status: "failed"@,
        message: "Can NOT remove desired table item"@,
    }
}

/// What removing an item answers, given how its transaction ended: a
/// committed delete of some row is a success, of none an absent item, and a
/// rolled back one a failed response.
pub open spec fn remove_result(item_id: u32, result: Result<TxnOutcome, PersistenceError>) -> Result<
    RemoveTableItemResponseView,
    PersistenceError,
> {
    match result {
        Err(e) => Err(e),
        Ok(TxnOutcome::Applied { affected, .. }) => if affected > 0 {
            Ok(removed_view(item_id))
        } else {
            Ok(absent_view(item_id))
        },
        Ok(TxnOutcome::RolledBack) => Ok(remove_failed_view()),
    }
}

/// The delete text, by exact table number and item id.
pub fn generate_query() -> (r: String)
    ensures
        r@ == delete_sql(),
{
    String::from_str("DELETE FROM table_items WHERE table_number = ? and item_id = ?")
}

/// The delete with its two parameters.
pub fn generate_delete_statement(table_number: u32, item_id: u32) -> (r: Statement)
    ensures
        r.sql@ == delete_sql(),
        r.params@ == seq![SqlParam::Number(table_number), SqlParam::Number(item_id)],
{
    let mut params: Vec<SqlParam> = Vec::new();
    params.push(SqlParam::Number(table_number));
    params.push(SqlParam::Number(item_id));
    Statement { sql: generate_query(), params }
}

pub fn generate_absent_response(item_id: u32) -> (r: RemoveTableItemResponse)
    ensures
        r@ == absent_view(item_id),
{
    RemoveTableItemResponse {
        status: String::from_str("success"),
        message: text_then_number("No item with id ", item_id as u64),
    }
}

pub fn generate_failed_response() -> (r: RemoveTableItemResponse)
    ensures
        r@ == remove_failed_view(),
{
    RemoveTableItemResponse {
        status: String::from_str("failed"),
        message: String::from_str("Can NOT remove desired table item"),
    }
}

pub fn generate_success_response(item_id: u32) -> (r: RemoveTableItemResponse)
    ensures
        r@ == removed_view(item_id),
{
    RemoveTableItemResponse {
        status: String::from_str("success"),
        message: text_then_number("Removed item: ", item_id as u64),
    }
}

/// The answer to a remove once its transaction has ended.
pub fn remove_table_item_result(item_id: u32, result: Result<TxnOutcome, PersistenceError>) -> (r:
    Result<RemoveTableItemResponse, PersistenceError>)
    ensures
        r matches Ok(resp) ==> remove_result(item_id, result) == Ok::<
            RemoveTableItemResponseView,
            PersistenceError,
        >(resp@),
        r matches Err(e) ==> remove_result(item_id, result) == Err::<
            RemoveTableItemResponseView,
            PersistenceError,
        >(e),
{
    match result {
        Err(e) => Err(e),
        Ok(TxnOutcome::Applied { affected, .. }) => {
            if affected > 0 {
                Ok(generate_success_response(item_id))
            } else {
                Ok(generate_absent_response(item_id))
            }
        },
        Ok(TxnOutcome::RolledBack) => Ok(generate_failed_response()),
    }
}

/// Removing an item that the delete found answers success with a message
/// that ends with the item's id; removing one it did not find also answers
/// success, with a message that says the item is not there and differs from
/// the first.
pub proof fn lemma_remove_reports_the_id(item_id: u32, affected: u64)
    ensures
        ({
            let r = remove_result(item_id, Ok(TxnOutcome::Applied { affected, first_id: 0 }));
            &&& r matches Ok(v)
            &&& v.status == "success"@
            &&& affected > 0 ==> v.message == "Removed item: "@ + decimal_text(item_id as nat)
            &&& affected == 0 ==> v.message == "No item with id "@ + decimal_text(item_id as nat)
        }),
        removed_view(item_id).message != absent_view(item_id).message,
{
    reveal_strlit("Removed item: ");
    reveal_strlit("No item with id ");
    assert(removed_view(item_id).message[0] != absent_view(item_id).message[0]);
}

} // verus!
