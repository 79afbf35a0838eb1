use vstd::prelude::*;

use crate::text::chars_of;

verus! {

/// The outcome of a database operation: a value, or a failure of the database itself.
#[derive(Debug)]
pub enum DatabaseResult<T> {
    Success(T),
    DatabaseError,
}

impl<T> DatabaseResult<T> {
    pub fn is_err(&self) -> (b: bool)
        ensures
            b == (self is DatabaseError),
    {
        match self {
            DatabaseResult::Success(_) => false,
            DatabaseResult::DatabaseError => true,
        }
    }
}

/// One column value of a result row.
#[derive(Debug)]
pub enum Value {
    Int(i64),
    Text(String),
    Null,
}

/// A column value in specifications.
pub enum ValueModel {
    Int(i64),
    Text(Seq<char>),
    Null,
}

impl View for Value {
    type V = ValueModel;

    open spec fn view(&self) -> ValueModel {
        match self {
            Value::Int(i) => ValueModel::Int(*i),
            Value::Text(s) => ValueModel::Text(s@),
            Value::Null => ValueModel::Null,
        }
    }
}

/// One row of a query result: its columns, by name, in order.
#[derive(Debug)]
pub struct Row {
    pub columns: Vec<(String, Value)>,
}

/// A row in specifications.
pub type RowModel = Seq<(Seq<char>, ValueModel)>;

impl View for Row {
    type V = RowModel;

    open spec fn view(&self) -> RowModel {
        self.columns@.map_values(|c: (String, Value)| (c.0@, c.1@))
    }
}

/// The value of the first column called `name`, if there is one.
pub open spec fn row_value(row: RowModel, name: Seq<char>) -> Option<ValueModel>
    decreases row.len(),
{
    if row.len() == 0 {
        None
    } else if row[0].0 == name {
        Some(row[0].1)
    } else {
        row_value(row.drop_first(), name)
    }
}

/// The integer in the first column called `name`; `None` if there is no such column
/// or it does not hold an integer.
pub open spec fn row_int(row: RowModel, name: Seq<char>) -> Option<i64> {
    match row_value(row, name) {
        Some(ValueModel::Int(i)) => Some(i),
        _ => None,
    }
}

/// The text in the first column called `name`; `None` if there is no such column or
/// it does not hold text.
pub open spec fn row_text(row: RowModel, name: Seq<char>) -> Option<Seq<char>> {
    match row_value(row, name) {
        Some(ValueModel::Text(s)) => Some(s),
        _ => None,
    }
}

/// An integer column converted to `u32`: `None` if it is missing or out of range.
pub open spec fn row_u32(row: RowModel, name: Seq<char>) -> Option<u32> {
    match row_int(row, name) {
        Some(i) => if 0 <= i <= u32::MAX {
            Some(i as u32)
        } else {
            None
        },
        None => None,
    }
}

/// Whether `a` and `b` hold the same characters.
pub fn str_equal(a: &str, b: &str) -> (eq: bool)
    ensures
        eq == (a@ == b@),
{
    let x = chars_of(a);
    let y = chars_of(b);
    if x.len() != y.len() {
        return false;
    }
    let mut i: usize = 0;
    while i < x.len()
        invariant
            x@ == a@,
            y@ == b@,
            x@.len() == y@.len(),
            0 <= i <= x@.len(),
            forall|j: int| 0 <= j < i ==> x@[j] == y@[j],
        decreases x@.len() - i,
    {
        if x[i] != y[i] {
            return false;
        }
        i = i + 1;
    }
    assert(x@ =~= y@);
    true
}

/// `x` as a `u32`, or `None` if it is out of range.
pub fn to_u32(x: i64) -> (r: Option<u32>)
    ensures
        r is Some <==> 0 <= x <= u32::MAX,
        r matches Some(v) ==> v == x,
{
    if 0 <= x && x <= 0xffff_ffff {
        Some(x as u32)
    } else {
        None
    }
}

impl Row {
    fn find(&self, name: &str) -> (i: usize)
        ensures
            i <= self.columns@.len(),
            i < self.columns@.len() ==> row_value(self@, name@) == Some(self.columns@[i as int].1@),
            i == self.columns@.len() ==> row_value(self@, name@) is None,
    {
        let mut i: usize = 0;
        assert(self@.skip(0) =~= self@);
        while i < self.columns.len()
            invariant
                0 <= i <= self.columns@.len(),
                row_value(self@, name@) == row_value(self@.skip(i as int), name@),
            decreases self.columns@.len() - i,
        {
            let ghost rest = self@.skip(i as int);
            assert(rest[0] == (self.columns@[i as int].0@, self.columns@[i as int].1@));
            if str_equal(self.columns[i].0.as_str(), name) {
                return i;
            }
            assert(rest.drop_first() =~= self@.skip(i + 1));
            i = i + 1;
        }
        i
    }

    /// The integer in the column called `name`.
    pub fn fetch_int(&self, name: &str) -> (r: Option<i64>)
        ensures
            r == row_int(self@, name@),
    {
        let i = self.find(name);
        if i == self.columns.len() {
            return None;
        }
        match &self.columns[i].1 {
            Value::Int(v) => Some(*v),
            _ => None,
        }
    }

    /// The text in the column called `name`.
    pub fn fetch_string(&self, name: &str) -> (r: Option<String>)
        ensures
            r is Some <==> row_text(self@, name@) is Some,
            r matches Some(s) ==> s@ == row_text(self@, name@)->0,
    {
        let i = self.find(name);
        if i == self.columns.len() {
            return None;
        }
        match &self.columns[i].1 {
            Value::Text(s) => Some(s.clone()),
            _ => None,
        }
    }

    /// The column called `name` as a `u32`.
    pub fn fetch_u32(&self, name: &str) -> (r: Option<u32>)
        ensures
            r == row_u32(self@, name@),
    {
        match self.fetch_int(name) {
            Some(x) => to_u32(x),
            None => None,
        }
    }
}

} // verus!
