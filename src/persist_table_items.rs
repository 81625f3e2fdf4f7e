//! Adding items to a table: which names are kept, the records stamped for
//! them, the multi-row insert, and the response once the transaction ends.
use vstd::prelude::*;

use crate::errors::PersistenceError;
use crate::model::{AddItemsResponse, AddItemsResponseView, SqlParam, Statement};
use crate::text::{decimal, decimal_text, text_then_number};
use crate::transaction::{ids_fit, next_state, StatementKind, TxnEvent, TxnOutcome, TxnState};

verus! {

/// The characters with the Unicode `White_Space` property.
pub open spec fn is_white_space(c: char) -> bool {
    let u = c as u32;
    ||| 0x9 <= u <= 0xd
    ||| u == 0x20
    ||| u == 0x85
    ||| u == 0xa0
    ||| u == 0x1680
    ||| 0x2000 <= u <= 0x200a
    ||| u == 0x2028
    ||| u == 0x2029
    ||| u == 0x202f
    ||| u == 0x205f
    ||| u == 0x3000
}

/// A name that is empty or made of whitespace only.
pub open spec fn is_blank_text(s: Seq<char>) -> bool {
    forall|i: int| 0 <= i < s.len() ==> is_white_space(#[trigger] s[i])
}

/// The names that are not blank, in their order.
pub open spec fn kept_names(names: Seq<String>) -> Seq<Seq<char>>
    decreases names.len(),
{
    if names.len() == 0 {
        Seq::empty()
    } else {
        let rest = kept_names(names.drop_last());
        if is_blank_text(names.last()@) {
            rest
        } else {
            rest.push(names.last()@)
        }
    }
}

/// Relies on `char::is_whitespace`: true exactly of the characters with the
/// Unicode `White_Space` property.
#[verifier::external_body]
fn char_is_whitespace(c: char) -> (r: bool)
    ensures
        r == is_white_space(c),
{
    c.is_whitespace()
}

/// Relies on chrono's `Local::now`, formatted as `%Y-%m-%d %H:%M:%S`: the
/// text depends on the clock, so nothing is stated of it.
#[verifier::external_body]
fn current_timestamp() -> (r: String) {
    chrono::Local::now().format("%Y-%m-%d %H:%M:%S").to_string()
}

/// Relies on rand's `Rng::gen_range(5..16)` on the thread-local generator:
/// a value of the half-open range.
#[verifier::external_body]
fn random_prepare_minutes() -> (r: u32)
    ensures
        5 <= r < 16,
{
    rand::Rng::gen_range(&mut rand::thread_rng(), 5..16)
}

/// Whether a name is empty or whitespace only.
pub fn is_blank(name: &String) -> (r: bool)
    ensures
        r == is_blank_text(name@),
{
    let s = name.as_str();
    let n = s.unicode_len();
    let mut i: usize = 0;
    while i < n
        invariant
            n == s@.len(),
            s@ == name@,
            i <= n,
            forall|k: int| 0 <= k < i ==> is_white_space(#[trigger] s@[k]),
        decreases n - i,
    {
        let c = s.get_char(i);
        if !char_is_whitespace(c) {
            return false;
        }
        i = i + 1;
    }
    true
}

/// One record per non-blank name, in order: the name, the time of the
/// order, and a preparation time in `[5, 16)`.
pub fn generate_table_item_records(items_names: Vec<String>) -> (r: Vec<(String, String, u32)>)
    ensures
        r@.len() == kept_names(items_names@).len(),
        forall|i: int| 0 <= i < r@.len() ==> (#[trigger] r@[i]).0@ == kept_names(items_names@)[i],
        forall|i: int| 0 <= i < r@.len() ==> 5 <= (#[trigger] r@[i]).2 < 16,
{
    let mut records: Vec<(String, String, u32)> = Vec::new();
    let mut i: usize = 0;
    while i < items_names.len()
        invariant
            i <= items_names@.len(),
            records@.len() == kept_names(items_names@.subrange(0, i as int)).len(),
            forall|k: int| 0 <= k < records@.len() ==> (#[trigger] records@[k]).0@ == kept_names(items_names@.subrange(0, i as int))[k],
            forall|k: int| 0 <= k < records@.len() ==> 5 <= (#[trigger] records@[k]).2 < 16,
        decreases items_names@.len() - i,
    {
        proof {
            assert(items_names@.subrange(0, i + 1).drop_last() =~= items_names@.subrange(0, i as int));
        }
        let name = &items_names[i];
        if !is_blank(name) {
            let ordered_on = current_timestamp();
            let prepare_minutes = random_prepare_minutes();
            records.push((name.clone(), ordered_on, prepare_minutes));
        }
        i = i + 1;
    }
    proof {
        assert(items_names@.subrange(0, items_names@.len() as int) =~= items_names@);
    }
    records
}

/// `n` groups of four placeholders, separated by `", "`.
pub open spec fn value_groups(n: nat) -> Seq<char>
    decreases n,
{
    if n == 0 {
        Seq::empty()
    } else if n == 1 {
        "(?, ?, ?, ?)"@
    } else {
        value_groups((n - 1) as nat) + ", (?, ?, ?, ?)"@
    }
}

pub open spec fn insert_sql(n: nat) -> Seq<char> {
    "INSERT INTO table_items (table_number, item_name, ordered_on, prepare_minutes) VALUES "@
        + value_groups(n)
}

/// The multi-row insert text for `num_records` records.
pub fn generate_query(num_records: usize) -> (r: String)
    ensures
        r@ == insert_sql(num_records as nat),
{
    let mut s = String::from_str(
        "INSERT INTO table_items (table_number, item_name, ordered_on, prepare_minutes) VALUES ",
    );
    if num_records == 0 {
        return s;
    }
    s.append("(?, ?, ?, ?)");
    let mut i: usize = 1;
    while i < num_records
        invariant
            1 <= i <= num_records,
            s@ == insert_sql(i as nat),
        decreases num_records - i,
    {
        s.append(", (?, ?, ?, ?)");
        i = i + 1;
    }
    s
}

/// The four parameters of one record.
pub open spec fn record_params(table_number: u32, rec: (String, String, u32)) -> Seq<SqlParam> {
    seq![
        SqlParam::Number(table_number),
        SqlParam::Text(rec.0),
        SqlParam::Text(rec.1),
        SqlParam::Number(rec.2),
    ]
}

pub open spec fn insert_params(table_number: u32, recs: Seq<(String, String, u32)>) -> Seq<SqlParam>
    decreases recs.len(),
{
    if recs.len() == 0 {
        Seq::empty()
    } else {
        insert_params(table_number, recs.drop_last()) + record_params(table_number, recs.last())
    }
}

/// The insert of the records, with their parameters in column order.
pub fn generate_insert_statement(table_number: u32, records: &Vec<(String, String, u32)>) -> (r:
    Statement)
    requires
        records@.len() > 0,
    ensures
        r.sql@ == insert_sql(records@.len()),
        r.params@ == insert_params(table_number, records@),
{
    let mut params: Vec<SqlParam> = Vec::new();
    let mut i: usize = 0;
    while i < records.len()
        invariant
            i <= records@.len(),
            params@ == insert_params(table_number, records@.subrange(0, i as int)),
        decreases records@.len() - i,
    {
        proof {
            assert(records@.subrange(0, i + 1).drop_last() =~= records@.subrange(0, i as int));
        }
        let rec = &records[i];
        params.push(SqlParam::Number(table_number));
        params.push(SqlParam::Text(rec.0.clone()));
        params.push(SqlParam::Text(rec.1.clone()));
        params.push(SqlParam::Number(rec.2));
        proof {
            assert(params@ =~= insert_params(table_number, records@.subrange(0, i + 1)));
        }
        i = i + 1;
    }
    proof {
        assert(records@.subrange(0, records@.len() as int) =~= records@);
    }
    Statement { sql: generate_query(records.len()), params }
}

/// `n` consecutive ids from `first` on.
pub open spec fn ids_from(first: u32, n: nat) -> Seq<u32> {
    Seq::new(n, |i: int| (first + i) as u32)
}

pub open spec fn added_message(n: nat, table_number: u32) -> Seq<char> {
    "Added "@ + decimal_text(n) + " items on table "@ + decimal_text(table_number as nat)
}

pub open spec fn add_failed_message(table_number: u32) -> Seq<char> {
    "Can NOT add item(s) to table "@ + decimal_text(table_number as nat)
}

/// The success body for `n` items added to a table, with their ids.
pub open spec fn added_view(table_number: u32, n: nat, ids: Seq<u32>) -> AddItemsResponseView {
    AddItemsResponseView {
        status: "success"@,
        message: added_message(n, table_number),
        items_ids: ids,
    }
}

pub open spec fn add_failed_view(table_number: u32) -> AddItemsResponseView {
    AddItemsResponseView {
        status: "failed"@,
        message: add_failed_message(table_number),
        items_ids: Seq::empty(),
    }
}

/// What adding `n` records to a table answers, given how its transaction
/// ended.
pub open spec fn add_result(table_number: u32, n: nat, result: Result<TxnOutcome, PersistenceError>) -> Result<
    AddItemsResponseView,
    PersistenceError,
> {
    match result {
        Err(e) => Err(e),
        Ok(TxnOutcome::Applied { first_id, .. }) => Ok(added_view(table_number, n, ids_from(first_id, n))),
        Ok(TxnOutcome::RolledBack) => Ok(add_failed_view(table_number)),
    }
}

pub fn generate_failed_response(table_number: u32) -> (r: AddItemsResponse)
    ensures
        r@ == add_failed_view(table_number),
{
    AddItemsResponse {
        status: String::from_str("failed"),
        message: text_then_number("Can NOT add item(s) to table ", table_number as u64),
        items_ids: Vec::new(),
    }
}

pub fn generate_success_response(table_number: u32, num_items: usize, item_ids: Vec<u32>) -> (r:
    AddItemsResponse)
    ensures
        r@ == added_view(table_number, num_items as nat, item_ids@),
{
    let mut message = text_then_number("Added ", num_items as u64);
    message.append(" items on table ");
    let table = decimal(table_number as u64);
    message.append(table.as_str());
    AddItemsResponse { status: String::from_str("success"), message, items_ids: item_ids }
}

/// The ids `first_id`, `first_id + 1`, ... of `count` inserted records.
pub fn item_ids_from(first_id: u32, count: usize) -> (r: Vec<u32>)
    requires
        ids_fit(first_id, count as u64),
    ensures
        r@ == ids_from(first_id, count as nat),
{
    let mut ids: Vec<u32> = Vec::new();
    let mut i: usize = 0;
    while i < count
        invariant
            i <= count,
            first_id + count <= 0x1_0000_0000,
            ids@ == ids_from(first_id, i as nat),
        decreases count - i,
    {
        ids.push(first_id + i as u32);
        proof {
            assert(ids@ =~= ids_from(first_id, (i + 1) as nat));
        }
        i = i + 1;
    }
    ids
}

/// The answer to an add of `count` records once its transaction has ended:
/// hard errors pass through, a committed insert reports its contiguous ids,
/// and a rolled back one is a failed response.
pub fn add_items_result(table_number: u32, count: usize, result: Result<TxnOutcome, PersistenceError>) -> (r:
    Result<AddItemsResponse, PersistenceError>)
    requires
        result matches Ok(TxnOutcome::Applied { first_id, .. }) ==> ids_fit(first_id, count as u64),
    ensures
        r matches Ok(resp) ==> add_result(table_number, count as nat, result) == Ok::<
            AddItemsResponseView,
            PersistenceError,
        >(resp@),
        r matches Err(e) ==> add_result(table_number, count as nat, result) == Err::<
            AddItemsResponseView,
            PersistenceError,
        >(e),
{
    match result {
        Err(e) => Err(e),
        Ok(TxnOutcome::Applied { first_id, .. }) => {
            let ids = item_ids_from(first_id, count);
            Ok(generate_success_response(table_number, count, ids))
        },
        Ok(TxnOutcome::RolledBack) => Ok(generate_failed_response(table_number)),
    }
}

/// What an add request leads to: an answer with no store round trip when
/// every name is blank, or an insert of the records of the kept names.
pub enum AddPlan {
    NothingToAdd(AddItemsResponse),
    Insert { records: Vec<(String, String, u32)>, statement: Statement },
}

/// Plans an add request.
pub fn plan_add_items(table_number: u32, items_names: Vec<String>) -> (r: AddPlan)
    ensures
        r is NothingToAdd <==> kept_names(items_names@).len() == 0,
        r matches AddPlan::NothingToAdd(resp) ==> resp@ == added_view(table_number, 0, Seq::empty()),
        r matches AddPlan::Insert { records, statement } ==> {
            &&& records@.len() == kept_names(items_names@).len()
            &&& (forall|i: int| 0 <= i < records@.len() ==> (#[trigger] records@[i]).0@ == kept_names(items_names@)[i])
            &&& (forall|i: int| 0 <= i < records@.len() ==> 5 <= (#[trigger] records@[i]).2 < 16)
            &&& statement.sql@ == insert_sql(records@.len())
            &&& statement.params@ == insert_params(table_number, records@)
        },
{
    let records = generate_table_item_records(items_names);
    if records.len() == 0 {
        AddPlan::NothingToAdd(generate_success_response(table_number, 0, Vec::new()))
    } else {
        let statement = generate_insert_statement(table_number, &records);
        AddPlan::Insert { records, statement }
    }
}

/// The state an insert transaction of `rows` records reaches when every
/// step goes through: connection, start, the insert, the first id read,
/// the commit.
pub open spec fn insert_run(rows: u64, affected: u64, first_id: u32) -> TxnState {
    let kind = StatementKind::Insert { rows };
    let connected = next_state(kind, TxnState::Connecting, TxnEvent::Done);
    let begun = next_state(kind, connected, TxnEvent::Done);
    let executed = next_state(kind, begun, TxnEvent::Executed { affected });
    let id_read = next_state(kind, executed, TxnEvent::InsertIdRead { id: Some(first_id) });
    next_state(kind, id_read, TxnEvent::Done)
}

/// Adding names of which at least one is not blank, through a transaction
/// whose steps all go through, commits and answers success with one id per
/// non-blank name, ascending by one from the first generated id.
pub proof fn lemma_add_reports_contiguous_ids(
    table_number: u32,
    items_names: Seq<String>,
    affected: u64,
    first_id: u32,
)
    requires
        kept_names(items_names).len() > 0,
        first_id + kept_names(items_names).len() <= 0x1_0000_0000,
    ensures
        ({
            let n = kept_names(items_names).len();
            let end = insert_run(n as u64, affected, first_id);
            &&& end == TxnState::Finished { result: Ok(TxnOutcome::Applied { affected, first_id }) }
            &&& add_result(table_number, n, end->result) matches Ok(v)
            &&& v.status == "success"@
            &&& v.items_ids.len() == n
            &&& forall|i: int| 0 <= i < n ==> v.items_ids[i] == first_id + i
            &&& forall|i: int, j: int| 0 <= i < j < n ==> v.items_ids[i] < v.items_ids[j]
        }),
{
    let n = kept_names(items_names).len();
    assert((n as u64) as int == n);
    assert(ids_fit(first_id, n as u64));
    let ids = ids_from(first_id, n);
    assert forall|i: int| 0 <= i < n implies ids[i] == first_id + i by {
        assert(first_id + i < 0x1_0000_0000);
    }
}

/// Two add batches each report their own contiguous range; where the store
/// gave them ranges that do not overlap, no id is reported by both.
pub proof fn lemma_batches_do_not_share_ids(first_a: u32, n_a: nat, first_b: u32, n_b: nat)
    requires
        first_a + n_a <= 0x1_0000_0000,
        first_b + n_b <= 0x1_0000_0000,
        first_a + n_a <= first_b || first_b + n_b <= first_a,
    ensures
        forall|i: int| 0 <= i < n_a ==> ids_from(first_a, n_a)[i] == first_a + i,
        forall|i: int| 0 <= i < n_b ==> ids_from(first_b, n_b)[i] == first_b + i,
        forall|i: int, j: int|
            0 <= i < n_a && 0 <= j < n_b ==> ids_from(first_a, n_a)[i] != ids_from(first_b, n_b)[j],
{
    assert forall|i: int| 0 <= i < n_a implies ids_from(first_a, n_a)[i] == first_a + i by {
        assert(first_a + i < 0x1_0000_0000);
    }
    assert forall|i: int| 0 <= i < n_b implies ids_from(first_b, n_b)[i] == first_b + i by {
        assert(first_b + i < 0x1_0000_0000);
    }
}

} // verus!
