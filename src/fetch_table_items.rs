//! Reading the items of a table: the filtered select, the mapping of each
//! fetched row to a record, and the outcome of a fetch.
use vstd::prelude::*;
use vstd::utf8::{encode_utf8, encode_utf8_decode_utf8, encode_utf8_valid_utf8};

use crate::errors::{generate_mysql_value_error, MysqlValueError, PersistenceError, ValueMissing};
use crate::model::{SqlParam, Statement, TableItem, TableItemView};
use crate::values::{
    column_at, column_datetime_text, column_name_text, column_u32, datetime_value_text, owned,
    datetime_text, name_text, valid_datetime, value_u32, ColumnValue, RawRow,
};

verus! {

/// `n` placeholders separated by commas.
pub open spec fn marks(n: nat) -> Seq<char>
    decreases n,
{
    if n == 0 {
        Seq::empty()
    } else if n == 1 {
        "?"@
    } else {
        marks((n - 1) as nat) + ",?"@
    }
}

pub open spec fn select_base() -> Seq<char> {
    "SELECT * FROM table_items WHERE table_number = ?"@
}

pub open spec fn ids_condition(n: nat) -> Seq<char> {
    "item_id IN ("@ + marks(n) + ")"@
}

pub open spec fn names_condition(n: nat) -> Seq<char> {
    "item_name IN ("@ + marks(n) + ")"@
}

/// The select text for `n_ids` id filters and `n_names` name filters
/// (zero for an absent or empty list).
pub open spec fn select_sql(n_ids: nat, n_names: nat) -> Seq<char> {
    if n_ids > 0 && n_names > 0 {
        select_base() + " AND ( "@ + ids_condition(n_ids) + " OR "@ + names_condition(n_names)
            + " )"@
    } else if n_ids > 0 {
        select_base() + " AND ( "@ + ids_condition(n_ids) + " )"@
    } else if n_names > 0 {
        select_base() + " AND ( "@ + names_condition(n_names) + " )"@
    } else {
        select_base()
    }
}

/// The entries of an optional list (none when it is absent).
pub open spec fn listed<T>(v: Option<Vec<T>>) -> Seq<T> {
    match v {
        Some(v) => v@,
        None => Seq::empty(),
    }
}

pub open spec fn number_params(ids: Seq<u32>) -> Seq<SqlParam> {
    Seq::new(ids.len(), |i: int| SqlParam::Number(ids[i]))
}

pub open spec fn text_params(names: Seq<String>) -> Seq<SqlParam> {
    Seq::new(names.len(), |i: int| SqlParam::Text(names[i]))
}

/// The table number, then each id, then each name.
pub open spec fn select_params(table_number: u32, ids: Seq<u32>, names: Seq<String>) -> Seq<
    SqlParam,
> {
    seq![SqlParam::Number(table_number)] + number_params(ids) + text_params(names)
}

fn build_marks(n: usize) -> (r: String)
    requires
        n > 0,
    ensures
        r@ == marks(n as nat),
{
    let mut s = String::from_str("?");
    let mut i: usize = 1;
    while i < n
        invariant
            1 <= i <= n,
            s@ == marks(i as nat),
        decreases n - i,
    {
        s.append(",?");
        i = i + 1;
    }
    s
}

/// The select for a table, filtered by ids and/or names when a list is
/// present and non-empty; all values are bound parameters.
pub fn generate_query_and_params(
    table_number: u32,
    items_ids: Option<Vec<u32>>,
    items_names: Option<Vec<String>>,
) -> (r: Statement)
    ensures
        r.sql@ == select_sql(listed(items_ids).len(), listed(items_names).len()),
        r.params@ == select_params(table_number, listed(items_ids), listed(items_names)),
{
    let ids: Vec<u32> = match items_ids {
        Some(v) => v,
        None => Vec::new(),
    };
    let names: Vec<String> = match items_names {
        Some(v) => v,
        None => Vec::new(),
    };
    let mut sql = String::from_str("SELECT * FROM table_items WHERE table_number = ?");
    let mut params: Vec<SqlParam> = Vec::new();
    params.push(SqlParam::Number(table_number));
    let mut i: usize = 0;
    while i < ids.len()
        invariant
            i <= ids@.len(),
            params@ == seq![SqlParam::Number(table_number)] + number_params(ids@.subrange(0, i as int)),
        decreases ids@.len() - i,
    {
        params.push(SqlParam::Number(ids[i]));
        proof {
            assert(number_params(ids@.subrange(0, i + 1)) =~= number_params(ids@.subrange(0, i as int)).push(SqlParam::Number(ids@[i as int])));
        }
        i = i + 1;
    }
    let mut j: usize = 0;
    while j < names.len()
        invariant
            j <= names@.len(),
            params@ == seq![SqlParam::Number(table_number)] + number_params(ids@) + text_params(names@.subrange(0, j as int)),
        decreases names@.len() - j,
    {
        params.push(SqlParam::Text(names[j].clone()));
        proof {
            assert(text_params(names@.subrange(0, j + 1)) =~= text_params(names@.subrange(0, j as int)).push(SqlParam::Text(names@[j as int])));
        }
        j = j + 1;
    }
    proof {
        assert(ids@.subrange(0, ids@.len() as int) =~= ids@);
        assert(names@.subrange(0, names@.len() as int) =~= names@);
    }
    if ids.len() > 0 || names.len() > 0 {
        sql.append(" AND ( ");
        if ids.len() > 0 {
            sql.append("item_id IN (");
            let m = build_marks(ids.len());
            sql.append(m.as_str());
            sql.append(")");
            if names.len() > 0 {
                sql.append(" OR ");
            }
        }
        if names.len() > 0 {
            sql.append("item_name IN (");
            let m = build_marks(names.len());
            sql.append(m.as_str());
            sql.append(")");
        }
        sql.append(" )");
    }
    Statement { sql, params }
}

/// What a fetched row maps to: the record, or the category and column of
/// the first required column (in `item_id`, `table_number`, `item_name`,
/// `prepare_minutes`, `ordered_on` order) that is missing or unconvertible.
pub open spec fn row_item(row: RawRow) -> Result<TableItemView, (MysqlValueError, Seq<char>)> {
    let id = match column_at(row, 0) {
        Some(c) => value_u32(c),
        None => None,
    };
    let table = match column_at(row, 1) {
        Some(c) => value_u32(c),
        None => None,
    };
    let minutes = match column_at(row, 3) {
        Some(c) => value_u32(c),
        None => None,
    };
    if id is None {
        Err((MysqlValueError::MissingInteger, "item_id"@))
    } else if table is None {
        Err((MysqlValueError::MissingInteger, "table_number"@))
    } else if name_text(column_at(row, 2)) is None {
        Err((MysqlValueError::MissingString, "item_name"@))
    } else if minutes is None {
        Err((MysqlValueError::MissingInteger, "prepare_minutes"@))
    } else if datetime_value_text(column_at(row, 4)) is None {
        Err((MysqlValueError::MissingDatetime, "ordered_on"@))
    } else {
        Ok(
            TableItemView {
                item_id: id->0,
                table_number: table->0,
                item_name: name_text(column_at(row, 2))->0,
                ordered_on: datetime_value_text(column_at(row, 4))->0,
                prepare_minutes: minutes->0,
            },
        )
    }
}

fn column_of(row: &RawRow, i: usize) -> (r: Option<&ColumnValue>)
    ensures
        owned(r) == column_at(*row, i as int),
{
    if i < row.values.len() {
        row.values[i].as_ref()
    } else {
        None
    }
}

/// Maps one fetched row to a record, or says which column it lacks.
pub fn convert_row_to_table_item(row: &RawRow) -> (r: Result<TableItem, ValueMissing>)
    ensures
        r is Ok <==> row_item(*row) is Ok,
        r matches Ok(item) ==> row_item(*row) == Ok::<TableItemView, (MysqlValueError, Seq<char>)>(item@),
        r matches Err(e) ==> row_item(*row) == Err::<TableItemView, (MysqlValueError, Seq<char>)>((e.kind, e.column@)),
{
    let item_id = match column_u32(column_of(row, 0)) {
        Some(v) => v,
        None => {
            return Err(generate_mysql_value_error(MysqlValueError::MissingInteger, String::from_str("item_id")));
        },
    };
    let table_number = match column_u32(column_of(row, 1)) {
        Some(v) => v,
        None => {
            return Err(generate_mysql_value_error(MysqlValueError::MissingInteger, String::from_str("table_number")));
        },
    };
    let item_name = match column_name_text(column_of(row, 2)) {
        Some(v) => v,
        None => {
            return Err(generate_mysql_value_error(MysqlValueError::MissingString, String::from_str("item_name")));
        },
    };
    let prepare_minutes = match column_u32(column_of(row, 3)) {
        Some(v) => v,
        None => {
            return Err(generate_mysql_value_error(MysqlValueError::MissingInteger, String::from_str("prepare_minutes")));
        },
    };
    let ordered_on = match column_datetime_text(column_of(row, 4)) {
        Some(v) => v,
        None => {
            return Err(generate_mysql_value_error(MysqlValueError::MissingDatetime, String::from_str("ordered_on")));
        },
    };
    Ok(TableItem { item_id, table_number, item_name, ordered_on, prepare_minutes })
}

/// The records of the rows that map, in row order; rows that the driver
/// could not read (`None`) and rows that do not map are left out.
pub open spec fn mapped_items(rows: Seq<Option<RawRow>>) -> Seq<TableItemView>
    decreases rows.len(),
{
    if rows.len() == 0 {
        Seq::empty()
    } else {
        let rest = mapped_items(rows.drop_last());
        match rows.last() {
            Some(row) => match row_item(row) {
                Ok(item) => rest.push(item),
                Err(_) => rest,
            },
            None => rest,
        }
    }
}

pub open spec fn items_view(items: Seq<TableItem>) -> Seq<TableItemView> {
    items.map_values(|t: TableItem| t@)
}

/// The records of a fetch; no record at all is a not-found error.
pub fn table_items_from_rows(rows: &Vec<Option<RawRow>>) -> (r: Result<Vec<TableItem>, PersistenceError>)
    ensures
        r is Err <==> mapped_items(rows@).len() == 0,
        r matches Err(e) ==> e == PersistenceError::ResourceNotFound,
        r matches Ok(items) ==> items_view(items@) == mapped_items(rows@),
        rows@.len() == 0 ==> r == Err::<Vec<TableItem>, PersistenceError>(PersistenceError::ResourceNotFound),
{
    let mut items: Vec<TableItem> = Vec::new();
    let mut i: usize = 0;
    while i < rows.len()
        invariant
            i <= rows@.len(),
            items_view(items@) == mapped_items(rows@.subrange(0, i as int)),
        decreases rows@.len() - i,
    {
        proof {
            assert(rows@.subrange(0, i + 1).drop_last() =~= rows@.subrange(0, i as int));
        }
        match &rows[i] {
            Some(row) => {
                match convert_row_to_table_item(row) {
                    Ok(item) => {
                        proof {
                            assert(items_view(items@.push(item)) =~= items_view(items@).push(item@));
                        }
                        items.push(item);
                    },
                    Err(_) => {},
                }
            },
            None => {},
        }
        i = i + 1;
    }
    proof {
        assert(rows@.subrange(0, rows@.len() as int) =~= rows@);
    }
    if items.len() == 0 {
        Err(PersistenceError::ResourceNotFound)
    } else {
        Ok(items)
    }
}

/// The outcome of a fetch: no connection, a select that failed, or the
/// records of the rows it returned.
pub fn get_table_items_result(connected: bool, selected: Option<Vec<Option<RawRow>>>) -> (r: Result<
    Vec<TableItem>,
    PersistenceError,
>)
    ensures
        !connected ==> r == Err::<Vec<TableItem>, PersistenceError>(PersistenceError::DBConnError),
        connected && selected is None ==> r == Err::<Vec<TableItem>, PersistenceError>(PersistenceError::DBOpError),
        connected ==> (selected matches Some(rows) ==> {
            &&& (r is Err <==> mapped_items(rows@).len() == 0)
            &&& (r matches Err(e) ==> e == PersistenceError::ResourceNotFound)
            &&& (r matches Ok(items) ==> items_view(items@) == mapped_items(rows@))
        }),
{
    if !connected {
        return Err(PersistenceError::DBConnError);
    }
    match selected {
        Some(rows) => table_items_from_rows(&rows),
        None => Err(PersistenceError::DBOpError),
    }
}

/// The records kept from two runs of rows, one after the other, are those
/// of the first run followed by those of the second.
pub proof fn lemma_mapped_items_concat(a: Seq<Option<RawRow>>, b: Seq<Option<RawRow>>)
    ensures
        mapped_items(a + b) == mapped_items(a) + mapped_items(b),
    decreases b.len(),
{
    if b.len() == 0 {
        assert(a + b =~= a);
        assert(mapped_items(a) + mapped_items(b) =~= mapped_items(a));
    } else {
        assert((a + b).drop_last() =~= a + b.drop_last());
        lemma_mapped_items_concat(a, b.drop_last());
        match b.last() {
            Some(row) => match row_item(row) {
                Ok(item) => {
                    assert(mapped_items(a) + mapped_items(b.drop_last()).push(item) =~= (
                    mapped_items(a) + mapped_items(b.drop_last())).push(item));
                },
                Err(_) => {},
            },
            None => {},
        }
    }
}

/// A fetch over rows that all map returns one record per row, in row
/// order, each the record its row maps to.
pub proof fn lemma_fetch_keeps_every_mappable_row(rows: Seq<Option<RawRow>>)
    requires
        forall|i: int| 0 <= i < rows.len() ==> ((#[trigger] rows[i]) matches Some(row) && row_item(row) is Ok),
    ensures
        mapped_items(rows).len() == rows.len(),
        forall|i: int|
            0 <= i < rows.len() ==> Ok::<TableItemView, (MysqlValueError, Seq<char>)>(
                #[trigger] mapped_items(rows)[i],
            ) == row_item(rows[i]->0),
    decreases rows.len(),
{
    if rows.len() > 0 {
        let init = rows.drop_last();
        assert forall|i: int| 0 <= i < init.len() implies ((#[trigger] init[i]) matches Some(row)
            && row_item(row) is Ok) by {
            assert(init[i] == rows[i]);
        }
        lemma_fetch_keeps_every_mappable_row(init);
        assert(rows[rows.len() - 1] matches Some(row) && row_item(row) is Ok);
    }
}

/// A row as the store gives back a stored record (unsigned integers, the
/// UTF-8 bytes of the name, a date and time that exist) maps back to that
/// record, with the time written as `YYYY-MM-DD HH:MM:SS`.
pub proof fn lemma_stored_row_round_trip(
    row: RawRow,
    item_id: u32,
    table_number: u32,
    item_name: Seq<char>,
    prepare_minutes: u32,
    y: u16,
    mo: u8,
    d: u8,
    h: u8,
    mi: u8,
    s: u8,
    us: u32,
)
    requires
        row.values@.len() == 5,
        row.values@[0] == Some(ColumnValue::UInt(item_id as u64)),
        row.values@[1] == Some(ColumnValue::UInt(table_number as u64)),
        row.values@[2] matches Some(ColumnValue::Bytes(b)) && b@ == encode_utf8(item_name),
        row.values@[3] == Some(ColumnValue::UInt(prepare_minutes as u64)),
        row.values@[4] == Some(ColumnValue::Date(y, mo, d, h, mi, s, us)),
        valid_datetime(y, mo, d, h, mi, s),
    ensures
        row_item(row) == Ok::<TableItemView, (MysqlValueError, Seq<char>)>(
            TableItemView {
                item_id,
                table_number,
                item_name,
                ordered_on: datetime_text(y, mo, d, h, mi, s),
                prepare_minutes,
            },
        ),
{
    encode_utf8_valid_utf8(item_name);
    encode_utf8_decode_utf8(item_name);
}

/// A row whose ids read but which has no `item_name` column fails with a
/// missing string in `item_name`, and a fetch leaves it out: the records
/// are those of the other rows.
pub proof fn lemma_row_without_name_is_dropped(
    before: Seq<Option<RawRow>>,
    row: RawRow,
    after: Seq<Option<RawRow>>,
)
    requires
        column_at(row, 0) matches Some(c) && value_u32(c) is Some,
        column_at(row, 1) matches Some(c) && value_u32(c) is Some,
        column_at(row, 2) is None,
    ensures
        row_item(row) == Err::<TableItemView, (MysqlValueError, Seq<char>)>(
            (MysqlValueError::MissingString, "item_name"@),
        ),
        mapped_items(before + seq![Some(row)] + after) == mapped_items(before + after),
{
    lemma_mapped_items_concat(before + seq![Some(row)], after);
    lemma_mapped_items_concat(before, seq![Some(row)]);
    lemma_mapped_items_concat(before, after);
    let single = seq![Some(row)];
    assert(single.drop_last() =~= Seq::<Option<RawRow>>::empty());
    assert(single.last() == Some(row));
    assert(row_item(row) is Err);
    assert(mapped_items(Seq::<Option<RawRow>>::empty()) =~= Seq::<TableItemView>::empty());
    assert(mapped_items(single) =~= Seq::<TableItemView>::empty());
    assert(mapped_items(before) + Seq::<TableItemView>::empty() =~= mapped_items(before));
}

} // verus!
