//! The text of the statements, and the text of the rows that come back.
use vstd::prelude::*;
use crate::common::{cleanup_delimiter, DELIMITER};
use crate::error::{VoteErrorKind, VoteErrorView};
use crate::text::{
    comes_before, concat, replace, replaced, same_text, split, split_by, strip_suffix, text_lt,
    trim, trimmed,
};

verus! {

/// The names in a list of columns that are separated by commas.
pub fn get_columns(column_string: &str) -> (r: Vec<String>)
    ensures
        r.deep_view() == split_by(column_string@, ","@),
{
    proof {
        reveal_strlit(",");
    }
    split(column_string, ",")
}

/// The statement that asks whether a row has the id `id`. `id_expression`
/// is what the table computes the id of a row from.
pub open spec fn is_unique_statement(
    table: Seq<char>,
    id_expression: Seq<char>,
    id: Seq<char>,
) -> Seq<char> {
    "SELECT "@ + id_expression + "  FROM "@ + table + " WHERE "@ + id_expression + " = '"@ + id
        + "'"@
}

/// The statement that asks whether a row has the id `id`.
pub fn is_unique_sql(table: &str, id_expression: &str, id: &str) -> (r: String)
    ensures
        r@ == is_unique_statement(table@, id_expression@, id@),
{
    let mut out = concat("SELECT ", id_expression);
    out.append("  FROM ");
    out.append(table);
    out.append(" WHERE ");
    out.append(id_expression);
    out.append(" = '");
    out.append(id);
    out.append("'");
    out
}

/// Whether a name is free, from the number of rows that are called so;
/// `None` stands for a database that failed. A name is free only where the
/// database answered and no row is called so.
pub fn is_unique(rows: Option<usize>) -> (r: bool)
    ensures
        r == (rows == Some(0usize)),
{
    match rows {
        Some(n) => n == 0,
        None => false,
    }
}

/// What a column holds.
#[derive(Clone, Copy, Debug, PartialEq, Eq, Structural)]
pub enum ColumnType {
    /// A small whole number.
    Integer,
    /// A number with a fraction.
    Real,
    /// Yes or no.
    Flag,
    /// Text.
    Text,
}

/// What the column `column_name` of `table` holds: the ranges and sums are
/// whole numbers, the weights and means have fractions, the role of a
/// candidate is a flag, and all else is text.
pub open spec fn column_type_of(table: Seq<char>, column_name: Seq<char>) -> ColumnType {
    if column_name == "min"@ || column_name == "max"@ || column_name == "sum"@ {
        ColumnType::Integer
    } else if column_name == "weight"@ || column_name == "weighted"@ || column_name == "mean"@ {
        ColumnType::Real
    } else if column_name == "voter"@ && table == "candidates"@ {
        ColumnType::Flag
    } else {
        ColumnType::Text
    }
}

/// What the column `column_name` of `table` holds.
pub fn column_type(table: &str, column_name: &str) -> (r: ColumnType)
    ensures
        r == column_type_of(table@, column_name@),
{
    if same_text(column_name, "min") || same_text(column_name, "max") || same_text(
        column_name,
        "sum",
    ) {
        ColumnType::Integer
    } else if same_text(column_name, "weight") || same_text(column_name, "weighted") || same_text(
        column_name,
        "mean",
    ) {
        ColumnType::Real
    } else if same_text(column_name, "voter") && same_text(table, "candidates") {
        ColumnType::Flag
    } else {
        ColumnType::Text
    }
}

/// The text of a column's value in a row that was read: the value and the
/// column separator.
pub fn get_column_value_by_column_name(value: &str) -> (r: String)
    ensures
        r@ == value@ + DELIMITER@,
{
    concat(value, DELIMITER)
}

/// A column and the value it is set to.
#[derive(Debug)]
pub struct Pair {
    pub column: String,
    pub value: String,
}

/// What a `Pair` holds.
pub struct PairView {
    pub column: Seq<char>,
    pub value: Seq<char>,
}

impl View for Pair {
    type V = PairView;

    open spec fn view(&self) -> PairView {
        PairView { column: self.column@, value: self.value@ }
    }
}

impl DeepView for Pair {
    type V = PairView;

    open spec fn deep_view(&self) -> PairView {
        self@
    }
}

/// Whether the columns come in ascending order, so that none occurs twice.
pub open spec fn ascending(pairs: Seq<PairView>) -> bool {
    forall|i: int|
        0 <= i < pairs.len() - 1 ==> text_lt((#[trigger] pairs[i]).column, pairs[i + 1].column)
}

/// Whether the columns come in ascending order, so that none occurs twice.
pub fn is_ascending(pairs: &Vec<Pair>) -> (r: bool)
    ensures
        r == ascending(pairs.deep_view()),
{
    if pairs.len() < 2 {
        return true;
    }
    let mut i: usize = 0;
    while i < pairs.len() - 1
        invariant
            pairs.len() >= 2,
            i <= pairs.len() - 1,
            forall|j: int|
                0 <= j < i ==> j < pairs.len() - 1 && text_lt(
                    (#[trigger] pairs.deep_view()[j]).column,
                    pairs.deep_view()[j + 1].column,
                ),
        decreases pairs.len() - i,
    {
        assert(pairs.deep_view()[i as int] == pairs[i as int]@);
        assert(pairs.deep_view()[i + 1] == pairs[i + 1]@);
        if !comes_before(pairs[i].column.as_str(), pairs[i + 1].column.as_str()) {
            return false;
        }
        i += 1;
    }
    true
}

/// The assignments of an update, each followed by a comma.
pub open spec fn assignments(pairs: Seq<PairView>) -> Seq<char>
    decreases pairs.len(),
{
    if pairs.len() == 0 {
        Seq::empty()
    } else {
        assignments(pairs.drop_last()) + pairs.last().column + " = '"@ + pairs.last().value
            + "',"@
    }
}

/// The statement that sets the given columns of the row with the id `id`,
/// in the given order.
pub open spec fn update_statement(
    table: Seq<char>,
    pairs: Seq<PairView>,
    id_expression: Seq<char>,
    id: Seq<char>,
) -> Seq<char> {
    "UPDATE "@ + table + " SET "@ + assignments(pairs).drop_last() + " WHERE "@ + id_expression
        + " = '"@ + id + "'"@
}

/// The statement that sets the given columns of the row with the id `id`.
/// The columns come in ascending order and none occurs twice. `None` where
/// no column is given.
pub fn update_sql(table: &str, new_pairs: &Vec<Pair>, id_expression: &str, id: &str) -> (r:
    Option<String>)
    requires
        ascending(new_pairs.deep_view()),
    ensures
        r is Some <==> new_pairs@.len() > 0,
        r is Some ==> r->0@ == update_statement(
            table@,
            new_pairs.deep_view(),
            id_expression@,
            id@,
        ),
{
    if new_pairs.len() == 0 {
        return None;
    }
    let mut set = String::new();
    let mut i: usize = 0;
    assert(new_pairs.deep_view().take(0) =~= Seq::<PairView>::empty());
    while i < new_pairs.len()
        invariant
            i <= new_pairs.len(),
            set@ == assignments(new_pairs.deep_view().take(i as int)),
        decreases new_pairs.len() - i,
    {
        let ghost next = new_pairs.deep_view().take(i + 1);
        assert(next.drop_last() =~= new_pairs.deep_view().take(i as int));
        assert(next.last() == new_pairs[i as int]@);
        set.append(new_pairs[i].column.as_str());
        set.append(" = '");
        set.append(new_pairs[i].value.as_str());
        set.append("',");
        i += 1;
    }
    assert(new_pairs.deep_view().take(new_pairs.len() as int) =~= new_pairs.deep_view());
    proof {
        reveal_strlit("',");
        reveal_strlit(",");
        let all = new_pairs.deep_view();
        assert(assignments(all) == assignments(all.drop_last()) + all.last().column + " = '"@
            + all.last().value + "',"@);
        assert(","@.is_suffix_of(set@)) by {
            assert(set@.subrange(set@.len() - 1, set@.len() as int) =~= ","@);
        }
        assert(set@.take(set@.len() - 1) =~= set@.drop_last());
    }
    let assigned = match strip_suffix(set.as_str(), ",") {
        Some(s) => s,
        None => set,
    };
    let mut out = concat("UPDATE ", table);
    out.append(" SET ");
    out.append(assigned.as_str());
    out.append(" WHERE ");
    out.append(id_expression);
    out.append(" = '");
    out.append(id);
    out.append("'");
    Some(out)
}

/// What an update ends with, from the number of rows that it changed.
pub fn update<'r>(rows_affected: u64) -> (r: Result<bool, VoteErrorKind<'r>>)
    ensures
        rows_affected > 0 ==> r == Ok::<bool, VoteErrorKind<'r>>(true),
        rows_affected == 0 ==> r is Err && r->Err_0@ == VoteErrorView::Conflict(
            "Hit multiple rows.Not detailed enough"@,
        ),
{
    if rows_affected > 0 {
        Ok(true)
    } else {
        Err(VoteErrorKind::from(crate::error::FromErrorKind::MultipleRows(true)))
    }
}

/// The statement that reads the row with the id `id`.
pub open spec fn select_statement(
    table: Seq<char>,
    object_columns: Seq<char>,
    id_expression: Seq<char>,
    id: Seq<char>,
) -> Seq<char> {
    "SELECT "@ + object_columns + " FROM "@ + table + " WHERE "@ + id_expression + " = '"@ + id
        + "'"@
}

/// The statement that reads the row with the id `id`.
pub fn select_sql(table: &str, object_columns: &str, id_expression: &str, id: &str) -> (r: String)
    ensures
        r@ == select_statement(table@, object_columns@, id_expression@, id@),
{
    let mut out = concat("SELECT ", object_columns);
    out.append(" FROM ");
    out.append(table);
    out.append(" WHERE ");
    out.append(id_expression);
    out.append(" = '");
    out.append(id);
    out.append("'");
    out
}

/// The columns of a row that was read, each followed by the column
/// separator; nothing where no row was read.
pub fn select(values: Option<Vec<String>>) -> (r: Vec<String>)
    ensures
        (match values {
            Some(v) => r.deep_view() == v.deep_view().map_values(
                |value: Seq<char>| value + DELIMITER@,
            ),
            None => r@.len() == 0,
        }),
{
    match values {
        None => Vec::new(),
        Some(v) => {
            let mut result: Vec<String> = Vec::new();
            let mut i: usize = 0;
            while i < v.len()
                invariant
                    i <= v.len(),
                    result.deep_view() == v.deep_view().take(i as int).map_values(
                        |value: Seq<char>| value + DELIMITER@,
                    ),
                decreases v.len() - i,
            {
                let ghost before = result.deep_view();
                result.push(get_column_value_by_column_name(v[i].as_str()));
                assert(result.deep_view() =~= before.push(v[i as int]@ + DELIMITER@));
                assert(v.deep_view().take(i + 1).map_values(|value: Seq<char>| value + DELIMITER@)
                    =~= before.push(v[i as int]@ + DELIMITER@));
                i += 1;
            }
            assert(v.deep_view().take(v.len() as int) =~= v.deep_view());
            result
        },
    }
}

/// The statement that reads all rows of a table.
pub fn list_rows_sql(table: &str, object_columns: &str) -> (r: String)
    ensures
        r@ == "SELECT "@ + object_columns@ + " FROM "@ + table@ + " "@,
{
    let mut out = concat("SELECT ", object_columns);
    out.append(" FROM ");
    out.append(table);
    out.append(" ");
    out
}

/// The names of the columns that are read for a listing, without the white
/// space around them.
pub fn listed_columns(object_columns: &str) -> (r: Vec<String>)
    ensures
        r.deep_view() == split_by(object_columns@, ","@).map_values(|c: Seq<char>| trimmed(c)),
{
    let names = get_columns(object_columns);
    let mut out: Vec<String> = Vec::new();
    let mut i: usize = 0;
    while i < names.len()
        invariant
            i <= names.len(),
            names.deep_view() == split_by(object_columns@, ","@),
            out.deep_view() == names.deep_view().take(i as int).map_values(
                |c: Seq<char>| trimmed(c),
            ),
        decreases names.len() - i,
    {
        let ghost before = out.deep_view();
        out.push(trim(names[i].as_str()));
        assert(out.deep_view() =~= before.push(trimmed(names[i as int]@)));
        assert(names.deep_view().take(i + 1).map_values(|c: Seq<char>| trimmed(c))
            =~= before.push(trimmed(names[i as int]@)));
        i += 1;
    }
    assert(names.deep_view().take(names.len() as int) =~= names.deep_view());
    out
}

/// The part that one column adds to the listing of a whole row: its value
/// and an underscore, with every comma in the value an underscore too.
pub open spec fn listed_part(value: Seq<char>) -> Seq<char> {
    replaced(replaced(value + DELIMITER@, DELIMITER@, ","@), ","@, "_"@)
}

/// The parts of all columns of a row, one after the other.
pub open spec fn listed_parts(values: Seq<Seq<char>>) -> Seq<char>
    decreases values.len(),
{
    if values.len() == 0 {
        Seq::empty()
    } else {
        listed_parts(values.drop_last()) + listed_part(values.last())
    }
}

/// `text` without one underscore at its end, and then without one comma at
/// its end.
pub open spec fn without_tail(text: Seq<char>) -> Seq<char> {
    let first = if "_"@.is_suffix_of(text) {
        text.take(text.len() - "_"@.len())
    } else {
        text
    };
    if ","@.is_suffix_of(first) {
        first.take(first.len() - ","@.len())
    } else {
        first
    }
}

/// The listing of one row: of all its columns (`all`), whose values are
/// `values`, or of its first value alone.
pub open spec fn listed_row(values: Seq<Seq<char>>, all: bool) -> Seq<char> {
    if all {
        without_tail(listed_parts(values))
    } else if values.len() > 0 {
        without_tail(replaced(values[0] + DELIMITER@, DELIMITER@, ","@))
    } else {
        Seq::empty()
    }
}

/// `text` without one underscore at its end, and then without one comma at
/// its end.
pub fn strip_tail(text: String) -> (r: String)
    ensures
        r@ == without_tail(text@),
{
    let first = match strip_suffix(text.as_str(), "_") {
        Some(b) => b,
        None => text,
    };
    match strip_suffix(first.as_str(), ",") {
        Some(b) => b,
        None => first,
    }
}

/// The listing of one row that was read. `values` holds the values of the
/// row's columns, or of its identity column alone where not `all` columns
/// are listed.
pub fn list_row(values: &Vec<String>, all: bool) -> (r: String)
    ensures
        r@ == listed_row(values.deep_view(), all),
{
    proof {
        reveal_strlit(",");
    }
    let mut next_row = String::new();
    if all {
        let mut i: usize = 0;
        assert(values.deep_view().take(0) =~= Seq::<Seq<char>>::empty());
        while i < values.len()
            invariant
                i <= values.len(),
                ","@.len() > 0,
                next_row@ == listed_parts(values.deep_view().take(i as int)),
            decreases values.len() - i,
        {
            let ghost next = values.deep_view().take(i + 1);
            assert(next.drop_last() =~= values.deep_view().take(i as int));
            assert(next.last() == values[i as int]@);
            let value = get_column_value_by_column_name(values[i].as_str());
            let cleaned = cleanup_delimiter(value.as_str());
            let a = replace(cleaned.as_str(), ",", "_");
            next_row.append(a.as_str());
            i += 1;
        }
        assert(values.deep_view().take(values.len() as int) =~= values.deep_view());
    } else if values.len() > 0 {
        assert(values.deep_view()[0] == values[0]@);
        let value = get_column_value_by_column_name(values[0].as_str());
        next_row.append(cleanup_delimiter(value.as_str()).as_str());
        assert(next_row@ =~= replaced(values[0]@ + DELIMITER@, DELIMITER@, ","@));
    } else {
        return next_row;
    }
    strip_tail(next_row)
}

/// The statement that stores a row.
pub fn save_sql(table: &str, object_row: &str) -> (r: String)
    ensures
        r@ == "INSERT into "@ + table@ + " VALUES ("@ + replaced(object_row@, DELIMITER@, ","@)
            + ")"@,
{
    let mut out = concat("INSERT into ", table);
    out.append(" VALUES (");
    out.append(cleanup_delimiter(object_row).as_str());
    out.append(")");
    out
}

/// What storing a row ends with: the row, or the failure of the database.
pub fn save<'r>(object_row: &str, failure: Option<String>) -> (r: Result<String, VoteErrorKind<'r>>)
    ensures
        (match failure {
            None => r is Ok && r->Ok_0@ == object_row@,
            Some(e) => r is Err && r->Err_0@ == VoteErrorView::DB(e@),
        }),
{
    match failure {
        None => Ok(object_row.to_owned()),
        Some(e) => Err(VoteErrorKind::DB(e)),
    }
}

} // verus!
