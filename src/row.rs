use vstd::prelude::*;

use crate::error::{Error, ErrorView, texts_of};
use crate::views::result_view;

verus! {

/// A double-precision measure (an area, a length, a time), carried by its
/// IEEE-754 bit pattern. The library only moves such values from rows into
/// records; it does no arithmetic on them.
#[derive(Clone, Copy, Debug, PartialEq, Eq, Structural)]
pub struct Real {
    pub bits: u64,
}

impl View for Real {
    type V = Real;

    open spec fn view(&self) -> Real {
        *self
    }
}

/// The content of one cell of a result row.
#[derive(Clone, Debug)]
pub enum Value {
    Null,
    Int(i32),
    Real(Real),
    Text(String),
}

/// One named cell of a result row.
#[derive(Clone, Debug)]
pub struct Cell {
    pub column: String,
    pub value: Value,
}

/// One result row: its cells in column order. A column name may occur more
/// than once; a lookup by name sees the first such cell.
#[derive(Clone, Debug)]
pub struct Row {
    pub cells: Vec<Cell>,
}

/// The value of the first cell named `name`, if any.
pub open spec fn column_value(cells: Seq<Cell>, name: Seq<char>) -> Option<Value>
    decreases cells.len(),
{
    if cells.len() == 0 {
        None
    } else if cells[0].column@ == name {
        Some(cells[0].value)
    } else {
        column_value(cells.drop_first(), name)
    }
}

/// The value under the first alias whose column is present and not null.
pub open spec fn resolve(cells: Seq<Cell>, aliases: Seq<Seq<char>>) -> Option<Value>
    decreases aliases.len(),
{
    if aliases.len() == 0 {
        None
    } else {
        match column_value(cells, aliases[0]) {
            Some(Value::Null) | None => resolve(cells, aliases.drop_first()),
            Some(v) => Some(v),
        }
    }
}

/// Whether some alias names a column of the row, null or not.
pub open spec fn has_column(cells: Seq<Cell>, aliases: Seq<Seq<char>>) -> bool {
    exists|i: int| 0 <= i < aliases.len() && (#[trigger] column_value(cells, aliases[i])) is Some
}

/// The texts of a list of column aliases.
pub open spec fn names_of(aliases: Seq<&str>) -> Seq<Seq<char>> {
    aliases.map_values(|a: &str| a@)
}

/// An integer field: the resolved value if it is an integer.
pub open spec fn int_field(cells: Seq<Cell>, aliases: Seq<Seq<char>>) -> Result<i32, ErrorView> {
    match resolve(cells, aliases) {
        Some(Value::Int(v)) => Ok(v),
        _ => Err(ErrorView::MissingColumn(aliases)),
    }
}

/// A measure field: the resolved value if it is a measure.
pub open spec fn real_field(cells: Seq<Cell>, aliases: Seq<Seq<char>>) -> Result<Real, ErrorView> {
    match resolve(cells, aliases) {
        Some(Value::Real(v)) => Ok(v),
        _ => Err(ErrorView::MissingColumn(aliases)),
    }
}

/// A code field: the resolved value if it is a text; a code never defaults.
pub open spec fn code_field(cells: Seq<Cell>, aliases: Seq<Seq<char>>) -> Result<Seq<char>, ErrorView> {
    match resolve(cells, aliases) {
        Some(Value::Text(s)) => Ok(s@),
        _ => Err(ErrorView::MissingColumn(aliases)),
    }
}

/// A text field: like a code, but empty where the columns are present and
/// all null.
pub open spec fn text_field(cells: Seq<Cell>, aliases: Seq<Seq<char>>) -> Result<Seq<char>, ErrorView> {
    match resolve(cells, aliases) {
        Some(Value::Text(s)) => Ok(s@),
        None if has_column(cells, aliases) => Ok(Seq::empty()),
        _ => Err(ErrorView::MissingColumn(aliases)),
    }
}

/// Whether two texts are equal.
pub(crate) fn same_text(a: &str, b: &str) -> (r: bool)
    ensures
        r == (a@ == b@),
{
    a.to_owned() == b.to_owned()
}

/// Index of the first cell named `name`.
fn find_column(cells: &Vec<Cell>, name: &String) -> (r: Option<usize>)
    ensures
        match r {
            Some(i) => i < cells@.len() && column_value(cells@, name@) == Some(cells@[i as int].value),
            None => column_value(cells@, name@) is None,
        },
{
    let mut i: usize = 0;
    assert(cells@.subrange(0, cells@.len() as int) =~= cells@);
    while i < cells.len()
        invariant
            i <= cells@.len(),
            column_value(cells@, name@) == column_value(cells@.subrange(i as int, cells@.len() as int), name@),
        decreases cells@.len() - i,
    {
        if cells[i].column == *name {
            return Some(i);
        }
        assert(cells@.subrange(i as int, cells@.len() as int).drop_first()
            =~= cells@.subrange(i + 1, cells@.len() as int));
        i += 1;
    }
    assert(cells@.subrange(i as int, cells@.len() as int).len() == 0);
    None
}

/// The aliases as owned strings, in order.
fn alias_names(aliases: &[&str]) -> (r: Vec<String>)
    ensures
        texts_of(r@) == names_of(aliases@),
{
    let mut names: Vec<String> = Vec::new();
    let mut i: usize = 0;
    while i < aliases.len()
        invariant
            i <= aliases@.len(),
            names@.len() == i,
            texts_of(names@) =~= names_of(aliases@.subrange(0, i as int)),
        decreases aliases@.len() - i,
    {
        let name: String = aliases[i].to_owned();
        assert(name@ == aliases@[i as int]@);
        let ghost before = names@;
        names.push(name);
        assert(names@ =~= before.push(name));
        assert forall|j: int| 0 <= j <= i implies #[trigger] texts_of(names@)[j] == names_of(
            aliases@.subrange(0, i + 1),
        )[j] by {
            if j < i {
                assert(texts_of(before)[j] == names_of(aliases@.subrange(0, i as int))[j]);
            }
        }
        i += 1;
        assert(texts_of(names@) =~= names_of(aliases@.subrange(0, i as int)));
    }
    assert(aliases@.subrange(0, i as int) =~= aliases@);
    names
}

/// Resolving from alias `i` on looks at alias `i` first, then at the rest.
proof fn lemma_resolve_step(cells: Seq<Cell>, aliases: Seq<Seq<char>>, i: int)
    requires
        0 <= i < aliases.len(),
    ensures
        resolve(cells, aliases.subrange(i, aliases.len() as int)) == match column_value(cells, aliases[i]) {
            Some(Value::Null) | None => resolve(cells, aliases.subrange(i + 1, aliases.len() as int)),
            Some(v) => Some(v),
        },
{
    let s = aliases.subrange(i, aliases.len() as int);
    assert(s[0] == aliases[i]);
    assert(s.drop_first() =~= aliases.subrange(i + 1, aliases.len() as int));
}

/// The first present, non-null value under one of the aliases, tried in
/// order; `MissingColumn` with the aliases where there is none.
pub fn get<'a>(row: &'a Row, aliases: &[&str]) -> (r: Result<&'a Value, Error>)
    ensures
        match r {
            Ok(v) => resolve(row.cells@, names_of(aliases@)) == Some(*v),
            Err(e) => resolve(row.cells@, names_of(aliases@)) is None
                && e@ == ErrorView::MissingColumn(names_of(aliases@)),
        },
{
    let names = alias_names(aliases);
    let ghost all = names_of(aliases@);
    let mut i: usize = 0;
    assert(all.subrange(0, all.len() as int) =~= all);
    while i < names.len()
        invariant
            i <= names@.len(),
            texts_of(names@) == all,
            all == names_of(aliases@),
            all.len() == names@.len(),
            resolve(row.cells@, all) == resolve(row.cells@, all.subrange(i as int, all.len() as int)),
        decreases names@.len() - i,
    {
        proof {
            lemma_resolve_step(row.cells@, all, i as int);
            assert(names@[i as int]@ == all[i as int]);
        }
        match find_column(&row.cells, &names[i]) {
            Some(k) => {
                match &row.cells[k].value {
                    Value::Null => {},
                    v => {
                        assert(column_value(row.cells@, all[i as int]) == Some(*v));
                        assert(resolve(row.cells@, all.subrange(i as int, all.len() as int)) == Some(*v));
                        return Ok(v);
                    },
                }
            },
            None => {},
        }
        i += 1;
    }
    assert(all.subrange(i as int, all.len() as int).len() == 0);
    Err(Error::MissingColumn(names))
}

/// Whether one of the aliases names a column of the row.
fn has_any_column(row: &Row, aliases: &[&str]) -> (r: bool)
    ensures
        r == has_column(row.cells@, names_of(aliases@)),
{
    let names = alias_names(aliases);
    let ghost all = names_of(aliases@);
    let mut i: usize = 0;
    while i < names.len()
        invariant
            i <= names@.len(),
            texts_of(names@) == all,
            all == names_of(aliases@),
            all.len() == names@.len(),
            forall|j: int| 0 <= j < i ==> (#[trigger] column_value(row.cells@, all[j])) is None,
        decreases names@.len() - i,
    {
        assert(names@[i as int]@ == all[i as int]);
        if find_column(&row.cells, &names[i]).is_some() {
            return true;
        }
        i += 1;
    }
    false
}

/// An integer field of the row.
pub fn get_int(row: &Row, aliases: &[&str]) -> (r: Result<i32, Error>)
    ensures
        result_view(r) == int_field(row.cells@, names_of(aliases@)),
{
    match get(row, aliases) {
        Ok(Value::Int(v)) => Ok(*v),
        Ok(_) => Err(Error::MissingColumn(alias_names(aliases))),
        Err(e) => Err(e),
    }
}

/// A measure field of the row.
pub fn get_real(row: &Row, aliases: &[&str]) -> (r: Result<Real, Error>)
    ensures
        result_view(r) == real_field(row.cells@, names_of(aliases@)),
{
    match get(row, aliases) {
        Ok(Value::Real(v)) => Ok(*v),
        Ok(_) => Err(Error::MissingColumn(alias_names(aliases))),
        Err(e) => Err(e),
    }
}

/// A code field of the row: a text that is never defaulted.
pub fn get_code(row: &Row, aliases: &[&str]) -> (r: Result<String, Error>)
    ensures
        result_view(r) == code_field(row.cells@, names_of(aliases@)),
{
    match get(row, aliases) {
        Ok(Value::Text(s)) => Ok(s.clone()),
        Ok(_) => Err(Error::MissingColumn(alias_names(aliases))),
        Err(e) => Err(e),
    }
}

/// A text field of the row: empty where its columns are present but null.
pub fn get_text(row: &Row, aliases: &[&str]) -> (r: Result<String, Error>)
    ensures
        result_view(r) == text_field(row.cells@, names_of(aliases@)),
{
    match get(row, aliases) {
        Ok(Value::Text(s)) => Ok(s.clone()),
        Ok(_) => Err(Error::MissingColumn(alias_names(aliases))),
        Err(e) => {
            if has_any_column(row, aliases) {
                Ok(String::new())
            } else {
                Err(e)
            }
        },
    }
}

} // verus!
