//! Tables: column names paired with equal-length column collections.

use vstd::prelude::*;
use crate::error::{ErrorCode, RayError, Result};
use crate::types::TextKind;
use crate::value::{
    coll_len, lemma_view_seq_from_elems, lemma_view_seq_index, lemma_view_seq_len, strings_view,
    view_seq, Cells, Column, Datum, Obj, Value,
};
use crate::vector::{no_nulls, strs_view};
use crate::value::flags_view;

verus! {

/// A table view with as many names as columns.
pub open spec fn table_wf(d: Datum) -> bool {
    d is Table && d->Table_0.len() == d->Table_1.len()
}

/// Column names of a table view.
pub open spec fn table_names(d: Datum) -> Seq<Seq<char>> {
    d->Table_0
}

/// Columns of a table view.
pub open spec fn table_cols(d: Datum) -> Seq<Datum> {
    d->Table_1
}

/// Number of rows: the length of the first column (0 without columns).
pub open spec fn nrows_of(d: Datum) -> nat {
    if table_cols(d).len() > 0 { coll_len(table_cols(d)[0]) } else { 0 }
}

/// All columns have the length of the first.
pub open spec fn rows_agree(cols: Seq<Datum>) -> bool {
    forall|i: int| 0 <= i < cols.len() ==> #[trigger] coll_len(cols[i]) == coll_len(cols[0])
}

/// Every column is a vector or a list.
pub open spec fn cols_are_collections(cols: Seq<Datum>) -> bool {
    forall|i: int| 0 <= i < cols.len() ==> (#[trigger] cols[i] is Vector || cols[i] is List)
}

/// `i` is the first column named `name`.
pub open spec fn first_name(names: Seq<Seq<char>>, name: Seq<char>, i: int) -> bool {
    0 <= i < names.len() && names[i] == name && forall|j: int|
        0 <= j < i ==> #[trigger] names[j] != name
}

/// When no name repeats, the first column named like column `i` is column `i`:
/// [`Table::column`] finds each column of a table built by [`Table::new`] by its name.
pub proof fn law_distinct_names_find_their_column(names: Seq<Seq<char>>, i: int)
    requires
        forall|a: int, b: int| 0 <= a < b < names.len() ==> names[a] != names[b],
        0 <= i < names.len(),
    ensures
        first_name(names, names[i], i),
        forall|j: int| first_name(names, names[i], j) ==> j == i,
{
    assert forall|j: int| first_name(names, names[i], j) implies j == i by {
        if j < i {
            assert(names[j] != names[i]);
        } else if j > i {
            assert(names[i] != names[j]);
        }
    }
}

/// `str::to_uppercase` of a text.
pub uninterp spec fn uppercase_of(s: Seq<char>) -> Seq<char>;

/// Calls `str::to_uppercase`, std's Unicode uppercase mapping; the result is
/// named `uppercase_of` of the input's characters.
#[verifier::external_body]
fn to_uppercase(s: &str) -> (r: String)
    ensures
        r@ == uppercase_of(s@),
{
    s.to_uppercase()
}

/// Canonical CSV column-type name of an uppercased token (aliases resolved).
pub open spec fn canonical_type_name(u: Seq<char>) -> Seq<char> {
    if u == "SYM"@ {
        "SYMBOL"@
    } else if u == "STRING"@ {
        "STR"@
    } else if u == "BOOL"@ || u == "BOOLEAN"@ {
        "B8"@
    } else {
        u
    }
}

/// The canonical CSV column-type name of an already uppercased token: the
/// aliases `SYM`, `STRING`, `BOOL` and `BOOLEAN` resolved, anything else kept.
pub fn canonical_type(u: String) -> (r: String)
    ensures
        r@ == canonical_type_name(u@),
{
    proof {
        reveal_strlit("SYM");
        reveal_strlit("SYMBOL");
        reveal_strlit("STRING");
        reveal_strlit("STR");
        reveal_strlit("BOOL");
        reveal_strlit("BOOLEAN");
        reveal_strlit("B8");
    }
    if u == "SYM".to_string() {
        "SYMBOL".to_string()
    } else if u == "STRING".to_string() {
        "STR".to_string()
    } else if u == "BOOL".to_string() || u == "BOOLEAN".to_string() {
        "B8".to_string()
    } else {
        u
    }
}

/// Normalize a CSV column-type token to the engine's uppercase name, accepting
/// the aliases `SYM`, `STRING`, `BOOL` and `BOOLEAN`.
pub fn normalize_type_token(t: &str) -> (r: String)
    ensures
        r@ == canonical_type_name(uppercase_of(t@)),
{
    canonical_type(to_uppercase(t))
}

/// The schema a CSV read hands the engine: a symbol vector of the normalized type names.
pub fn csv_schema(column_types: &[&str]) -> (r: Value)
    ensures
        r@ == Datum::Vector(
            Cells::Text(
                TextKind::Sym,
                column_types@.map_values(|t: &str| canonical_type_name(uppercase_of(t@))),
            ),
            no_nulls(column_types@.len()),
        ),
{
    let mut names: Vec<String> = Vec::new();
    let mut i: usize = 0;
    while i < column_types.len()
        invariant
            i <= column_types@.len(),
            strings_view(names@) == column_types@.take(i as int).map_values(
                |t: &str| canonical_type_name(uppercase_of(t@)),
            ),
        decreases column_types@.len() - i,
    {
        let ghost before = names@;
        names.push(normalize_type_token(column_types[i]));
        i += 1;
        assert(strings_view(names@) =~= strings_view(before).push(names@.last()@));
        assert(strings_view(names@) =~= column_types@.take(i as int).map_values(
            |t: &str| canonical_type_name(uppercase_of(t@)),
        ));
    }
    assert(column_types@.take(column_types@.len() as int) =~= column_types@);
    assert(flags_view(Seq::<bool>::empty(), column_types@.len()) =~= no_nulls(column_types@.len()));
    Value::from_obj(Obj::Vector(Column::Text(TextKind::Sym, names), Vec::new()))
}

/// A table.
#[derive(Debug)]
pub struct Table {
    value: Value,
}

impl View for Table {
    type V = Datum;

    closed spec fn view(&self) -> Datum {
        self.value@
    }
}

impl Table {
    #[verifier::type_invariant]
    spec fn inv(self) -> bool {
        table_wf(self.value@)
    }

    /// Build a table from column names and their columns (copied).
    ///
    /// Errors if the counts differ, if a column's length differs from the
    /// first's, or if a column is not a vector or list.
    pub fn new(names: &[&str], columns: &[Value]) -> (r: Result<Table>)
        ensures
            names@.len() != columns@.len() ==> (r matches Err(e) && e.code == ErrorCode::Length),
            names@.len() == columns@.len() && !rows_agree(view_seq(columns@)) ==> (r matches Err(e)
                && e.code == ErrorCode::Length),
            names@.len() == columns@.len() && rows_agree(view_seq(columns@))
                && !cols_are_collections(view_seq(columns@)) ==> (r matches Err(e) && e.code
                == ErrorCode::Type),
            r is Ok <==> (names@.len() == columns@.len() && rows_agree(view_seq(columns@))
                && cols_are_collections(view_seq(columns@))),
            r matches Ok(t) ==> t@ == Datum::Table(strs_view(names@), view_seq(columns@)),
    {
        proof { lemma_view_seq_len(columns@); }
        if names.len() != columns.len() {
            return Err(RayError::new(ErrorCode::Length, "table: names and columns differ in count"));
        }
        let ncols = columns.len();
        if ncols > 0 {
            let nrows = columns[0].len();
            proof { lemma_view_seq_index(columns@, 0); }
            let mut i: usize = 0;
            while i < ncols
                invariant
                    i <= ncols,
                    ncols == columns@.len(),
                    ncols > 0,
                    view_seq(columns@).len() == ncols,
                    nrows == coll_len(view_seq(columns@)[0]),
                    forall|j: int| 0 <= j < i ==> #[trigger] coll_len(view_seq(columns@)[j]) == nrows,
                decreases ncols - i,
            {
                proof { lemma_view_seq_index(columns@, i as int); }
                if columns[i].len() != nrows {
                    return Err(RayError::new(ErrorCode::Length, "table: columns differ in rows"));
                }
                i += 1;
            }
        }
        assert(rows_agree(view_seq(columns@)));
        let mut j: usize = 0;
        while j < ncols
            invariant
                j <= ncols,
                ncols == columns@.len(),
                ncols == names@.len(),
                rows_agree(view_seq(columns@)),
                view_seq(columns@).len() == ncols,
                forall|k: int| 0 <= k < j ==> (#[trigger] view_seq(columns@)[k] is Vector || view_seq(
                    columns@,
                )[k] is List),
            decreases ncols - j,
        {
            proof { lemma_view_seq_index(columns@, j as int); }
            if !columns[j].is_vec() && !columns[j].is_list() {
                return Err(RayError::new(ErrorCode::Type, "table: a column is not a vector or list"));
            }
            j += 1;
        }
        let mut name_vec: Vec<String> = Vec::new();
        let mut col_vec: Vec<Value> = Vec::new();
        let mut k: usize = 0;
        while k < ncols
            invariant
                k <= ncols,
                ncols == columns@.len(),
                ncols == names@.len(),
                strings_view(name_vec@) == strs_view(names@.take(k as int)),
                col_vec@.len() == k,
                forall|m: int| 0 <= m < k ==> #[trigger] col_vec@[m]@ == columns@[m]@,
            decreases ncols - k,
        {
            let ghost before = name_vec@;
            name_vec.push(names[k].to_string());
            col_vec.push(columns[k].clone());
            k += 1;
            assert(strings_view(name_vec@) =~= strings_view(before).push(names@[k - 1]@));
            assert(strings_view(name_vec@) =~= strs_view(names@.take(k as int)));
        }
        proof {
            assert(names@.take(ncols as int) =~= names@);
            let d = Seq::new(columns@.len(), |m: int| columns@[m]@);
            lemma_view_seq_from_elems(col_vec@, d);
            lemma_view_seq_from_elems(columns@, d);
            lemma_view_seq_len(col_vec@);
        }
        let value = Value::from_obj(Obj::Table(name_vec, col_vec));
        Ok(Table { value })
    }

    /// Wrap a value that is a (well-formed) table.
    pub fn from_value(value: Value) -> (r: Result<Table>)
        ensures
            r is Ok <==> table_wf(value@),
            r matches Ok(t) ==> t@ == value@,
            r matches Err(e) ==> e.code == ErrorCode::Type,
    {
        let ok = match value.obj() {
            Obj::Table(names, cols) => {
                proof { lemma_view_seq_len(cols@); }
                names.len() == cols.len()
            },
            _ => false,
        };
        if ok {
            Ok(Table { value })
        } else {
            Err(RayError::new(ErrorCode::Type, "expected a table"))
        }
    }

    /// Borrow the underlying value.
    pub fn as_value(&self) -> (v: &Value)
        ensures
            v@ == self@,
    {
        &self.value
    }

    /// Consume into the underlying value.
    pub fn into_value(self) -> (v: Value)
        ensures
            v@ == self@,
    {
        self.value
    }

    /// Number of columns.
    pub fn ncols(&self) -> (n: usize)
        ensures
            n == table_names(self@).len(),
            n == table_cols(self@).len(),
    {
        proof { use_type_invariant(self); }
        match self.value.obj() {
            Obj::Table(names, _) => names.len(),
            _ => 0,
        }
    }

    /// Number of rows.
    pub fn nrows(&self) -> (n: usize)
        ensures
            n == nrows_of(self@),
    {
        proof { use_type_invariant(self); }
        match self.value.obj() {
            Obj::Table(_, cols) => {
                proof { lemma_view_seq_len(cols@); }
                if cols.len() > 0 {
                    proof { lemma_view_seq_index(cols@, 0); }
                    cols[0].len()
                } else {
                    0
                }
            },
            _ => 0,
        }
    }

    /// `(rows, cols)`.
    pub fn shape(&self) -> (r: (usize, usize))
        ensures
            r.0 == nrows_of(self@),
            r.1 == table_names(self@).len(),
    {
        (self.nrows(), self.ncols())
    }

    /// Column names in order.
    pub fn column_names(&self) -> (r: Vec<String>)
        ensures
            strings_view(r@) == table_names(self@),
    {
        proof { use_type_invariant(self); }
        match self.value.obj() {
            Obj::Table(names, _) => {
                let r = names.clone();
                assert(r@ =~= names@);
                r
            },
            _ => Vec::new(),
        }
    }

    /// The first column named `name`.
    pub fn column(&self, name: &str) -> (r: Result<Value>)
        ensures
            r is Ok <==> table_names(self@).contains(name@),
            r matches Ok(v) ==> exists|i: int|
                first_name(table_names(self@), name@, i) && v@ == table_cols(self@)[i],
            r matches Err(e) ==> e.code == ErrorCode::NotFound,
    {
        proof { use_type_invariant(self); }
        match self.value.obj() {
            Obj::Table(names, cols) => {
                proof { lemma_view_seq_len(cols@); }
                let target = name.to_string();
                let mut i: usize = 0;
                while i < names.len()
                    invariant
                        i <= names@.len(),
                        names@.len() == cols@.len(),
                        self@ == Datum::Table(strings_view(names@), view_seq(cols@)),
                        target@ == name@,
                        forall|j: int| 0 <= j < i ==> #[trigger] strings_view(names@)[j] != name@,
                    decreases names@.len() - i,
                {
                    if names[i] == target {
                        proof {
                            lemma_view_seq_index(cols@, i as int);
                            assert(first_name(table_names(self@), name@, i as int));
                        }
                        let v = cols[i].clone();
                        assert(v@ == table_cols(self@)[i as int]);
                        assert(first_name(table_names(self@), name@, i as int) && v@ == table_cols(self@)[i as int]);
                        return Ok(v);
                    }
                    i += 1;
                }
                proof {
                    if table_names(self@).contains(name@) {
                        let j = choose|j: int| 0 <= j < table_names(self@).len() && table_names(self@)[j] == name@;
                        assert(strings_view(names@)[j] != name@);
                    }
                }
                Err(RayError::new(ErrorCode::NotFound, "column not found"))
            },
            _ => Err(RayError::new(ErrorCode::NotFound, "column not found")),
        }
    }

    /// The column at position `idx`.
    pub fn column_at(&self, idx: usize) -> (r: Result<Value>)
        ensures
            r is Ok <==> idx < table_names(self@).len(),
            r matches Ok(v) ==> v@ == table_cols(self@)[idx as int],
            r matches Err(e) ==> e.code == ErrorCode::Range,
    {
        proof { use_type_invariant(self); }
        if idx >= self.ncols() {
            return Err(RayError::new(ErrorCode::Range, "column index out of range"));
        }
        match self.value.obj() {
            Obj::Table(_, cols) => {
                proof {
                    lemma_view_seq_len(cols@);
                    lemma_view_seq_index(cols@, idx as int);
                }
                Ok(cols[idx].clone())
            },
            _ => Err(RayError::new(ErrorCode::Range, "column index out of range")),
        }
    }

    /// All columns in order.
    pub fn columns(&self) -> (r: Result<Vec<Value>>)
        ensures
            r matches Ok(v) && view_seq(v@) == table_cols(self@) && v@.len() == table_names(self@).len(),
    {
        proof { use_type_invariant(self); }
        let n = self.ncols();
        let mut out: Vec<Value> = Vec::new();
        let mut i: usize = 0;
        while i < n
            invariant
                i <= n,
                n == table_cols(self@).len(),
                table_wf(self@),
                out@.len() == i,
                forall|j: int| 0 <= j < i ==> #[trigger] out@[j]@ == table_cols(self@)[j],
            decreases n - i,
        {
            match self.column_at(i) {
                Ok(c) => out.push(c),
                Err(_) => {
                    return Err(RayError::new(ErrorCode::Range, "column index out of range"));
                },
            }
            i += 1;
        }
        proof { lemma_view_seq_from_elems(out@, table_cols(self@)); }
        Ok(out)
    }
}

impl Clone for Table {
    fn clone(&self) -> (r: Self)
        ensures
            r@ == self@,
    {
        proof { use_type_invariant(self); }
        Table { value: self.value.clone() }
    }
}

impl Value {
    /// True if this value is a table.
    pub fn is_table(&self) -> (b: bool)
        ensures
            b == self@ is Table,
    {
        match self.obj() {
            Obj::Table(_, _) => true,
            _ => false,
        }
    }

    /// This value as a [`Table`] (a copy of the handle).
    pub fn as_table(&self) -> (r: Result<Table>)
        ensures
            r is Ok <==> table_wf(self@),
            r matches Ok(t) ==> t@ == self@,
            r matches Err(e) ==> e.code == ErrorCode::Type,
    {
        Table::from_value(self.clone())
    }
}

/// CSV type tokens: the aliases `SYM`, `STRING`, `BOOL` and `BOOLEAN` become
/// `SYMBOL`, `STR`, `B8` and `B8`; every other uppercased token is kept as it
/// is; and normalizing twice changes nothing more.
pub proof fn law_type_aliases(u: Seq<char>)
    ensures
        canonical_type_name("SYM"@) == "SYMBOL"@,
        canonical_type_name("STRING"@) == "STR"@,
        canonical_type_name("BOOL"@) == "B8"@,
        canonical_type_name("BOOLEAN"@) == "B8"@,
        u != "SYM"@ && u != "STRING"@ && u != "BOOL"@ && u != "BOOLEAN"@ ==> canonical_type_name(u) == u,
        canonical_type_name(canonical_type_name(u)) == canonical_type_name(u),
{
    reveal_strlit("SYM");
    reveal_strlit("SYMBOL");
    reveal_strlit("STRING");
    reveal_strlit("STR");
    reveal_strlit("BOOL");
    reveal_strlit("BOOLEAN");
    reveal_strlit("B8");
    assert("SYM"@.len() == 3 && "STRING"@.len() == 6 && "BOOL"@.len() == 4 && "BOOLEAN"@.len() == 7);
    assert("STRING"@ != "SYM"@);
    assert("BOOL"@ != "SYM"@ && "BOOL"@ != "STRING"@);
    assert("BOOLEAN"@ != "SYM"@ && "BOOLEAN"@ != "STRING"@);
    assert("SYMBOL"@.len() == 6 && "STR"@.len() == 3 && "B8"@.len() == 2);
    assert("SYMBOL"@[1] != "STRING"@[1]);
    assert("STR"@[2] != "SYM"@[2]);
    assert(canonical_type_name("SYMBOL"@) == "SYMBOL"@);
    assert(canonical_type_name("STR"@) == "STR"@);
    assert(canonical_type_name("B8"@) == "B8"@);
}

} // verus!
