//! Typed homogeneous vectors: construction, zero-copy slices, element access
//! and copy-on-write mutation.

use vstd::prelude::*;
use crate::convert::FromValue;
use crate::error::{ErrorCode, RayError, Result};
use crate::sealed::Sealed;
use crate::types::{
    is_vector_code, ByteKind, TextKind, W32Kind, W64Kind, RAY_BOOL, RAY_DATE, RAY_F32, RAY_F64,
    RAY_GUID, RAY_I16, RAY_I32, RAY_I64, RAY_STR, RAY_SYM, RAY_TIME, RAY_TIMESTAMP, RAY_U8,
};
use crate::value::{
    abs_tag, cell_scalar, cells_code, cells_len, coll_len, flags_view, guids_view, item,
    lemma_flags_idem, lemma_view_seq_index, lemma_view_seq_len, lemma_view_seq_from_elems, lemma_view_seq_push,
    normalized_flags, null_at, strings_view, type_tag, view_seq, Atom, Cells, Column, Datum, Obj, Scalar, Value,
};

verus! {

/// `n` cleared null flags.
pub open spec fn no_nulls(n: nat) -> Seq<bool> {
    Seq::new(n, |i: int| false)
}

/// Booleans as the 0/1 bytes a boolean vector stores.
pub open spec fn bools_as_bytes(s: Seq<bool>) -> Seq<u8> {
    s.map_values(|b: bool| if b { 1u8 } else { 0u8 })
}

/// The texts of a slice of string slices.
pub open spec fn strs_view(s: Seq<&str>) -> Seq<Seq<char>> {
    s.map_values(|x: &str| x@)
}

/// Empty storage of a vector kind.
pub open spec fn empty_cells(t: i8) -> Cells {
    if t == RAY_BOOL {
        Cells::Bytes(ByteKind::Bool, Seq::empty())
    } else if t == RAY_U8 {
        Cells::Bytes(ByteKind::U8, Seq::empty())
    } else if t == RAY_I16 {
        Cells::I16(Seq::empty())
    } else if t == RAY_I32 {
        Cells::W32(W32Kind::I32, Seq::empty())
    } else if t == RAY_DATE {
        Cells::W32(W32Kind::Date, Seq::empty())
    } else if t == RAY_TIME {
        Cells::W32(W32Kind::Time, Seq::empty())
    } else if t == RAY_I64 {
        Cells::W64(W64Kind::I64, Seq::empty())
    } else if t == RAY_TIMESTAMP {
        Cells::W64(W64Kind::Timestamp, Seq::empty())
    } else if t == RAY_F32 {
        Cells::F32(Seq::empty())
    } else if t == RAY_F64 {
        Cells::F64(Seq::empty())
    } else if t == RAY_GUID {
        Cells::Guid(Seq::empty())
    } else if t == RAY_SYM {
        Cells::Text(TextKind::Sym, Seq::empty())
    } else {
        Cells::Text(TextKind::Str, Seq::empty())
    }
}

/// Cells `[a, b)` of a storage.
pub open spec fn cells_subrange(c: Cells, a: int, b: int) -> Cells {
    match c {
        Cells::Bytes(k, s) => Cells::Bytes(k, s.subrange(a, b)),
        Cells::I16(s) => Cells::I16(s.subrange(a, b)),
        Cells::W32(k, s) => Cells::W32(k, s.subrange(a, b)),
        Cells::W64(k, s) => Cells::W64(k, s.subrange(a, b)),
        Cells::F32(s) => Cells::F32(s.subrange(a, b)),
        Cells::F64(s) => Cells::F64(s.subrange(a, b)),
        Cells::Guid(s) => Cells::Guid(s.subrange(a, b)),
        Cells::Text(k, s) => Cells::Text(k, s.subrange(a, b)),
    }
}

/// The cells of `c1` followed by those of `c2` (of the same kind).
pub open spec fn cells_concat(c1: Cells, c2: Cells) -> Cells {
    match (c1, c2) {
        (Cells::Bytes(k, s), Cells::Bytes(_, t)) => Cells::Bytes(k, s + t),
        (Cells::I16(s), Cells::I16(t)) => Cells::I16(s + t),
        (Cells::W32(k, s), Cells::W32(_, t)) => Cells::W32(k, s + t),
        (Cells::W64(k, s), Cells::W64(_, t)) => Cells::W64(k, s + t),
        (Cells::F32(s), Cells::F32(t)) => Cells::F32(s + t),
        (Cells::F64(s), Cells::F64(t)) => Cells::F64(s + t),
        (Cells::Guid(s), Cells::Guid(t)) => Cells::Guid(s + t),
        (Cells::Text(k, s), Cells::Text(_, t)) => Cells::Text(k, s + t),
        _ => c1,
    }
}

/// Elements `[a, b)` of a vector (cells and flags) or a list.
pub open spec fn slice_view(d: Datum, a: int, b: int) -> Datum {
    match d {
        Datum::Vector(c, n) => Datum::Vector(cells_subrange(c, a, b), n.subrange(a, b)),
        Datum::List(s) => Datum::List(s.subrange(a, b)),
        _ => Datum::Null,
    }
}

/// The elements of `d1` followed by those of `d2`: two vectors or two lists.
pub open spec fn concat_view(d1: Datum, d2: Datum) -> Datum {
    match (d1, d2) {
        (Datum::Vector(c1, n1), Datum::Vector(c2, n2)) => Datum::Vector(cells_concat(c1, c2), n1 + n2),
        (Datum::List(s1), Datum::List(s2)) => Datum::List(s1 + s2),
        _ => Datum::Null,
    }
}

/// Splitting a vector or list at any position and concatenating the two
/// parts gives it back: what [`Value::slice`] takes apart, [`Value::concat`]
/// puts together.
pub proof fn law_split_then_concat(d: Datum, k: int)
    requires
        d is Vector ==> d->Vector_1.len() == cells_len(d->Vector_0),
        d is Vector || d is List,
        0 <= k <= coll_len(d),
    ensures
        concat_view(slice_view(d, 0, k), slice_view(d, k, coll_len(d) as int)) == d,
{
    match d {
        Datum::Vector(c, n) => {
            let m = cells_len(c) as int;
            assert(n.subrange(0, k) + n.subrange(k, m) =~= n);
            match c {
                Cells::Bytes(kd, s) => assert(s.subrange(0, k) + s.subrange(k, m) =~= s),
                Cells::I16(s) => assert(s.subrange(0, k) + s.subrange(k, m) =~= s),
                Cells::W32(kd, s) => assert(s.subrange(0, k) + s.subrange(k, m) =~= s),
                Cells::W64(kd, s) => assert(s.subrange(0, k) + s.subrange(k, m) =~= s),
                Cells::F32(s) => assert(s.subrange(0, k) + s.subrange(k, m) =~= s),
                Cells::F64(s) => assert(s.subrange(0, k) + s.subrange(k, m) =~= s),
                Cells::Guid(s) => assert(s.subrange(0, k) + s.subrange(k, m) =~= s),
                Cells::Text(kd, s) => assert(s.subrange(0, k) + s.subrange(k, m) =~= s),
            }
        },
        Datum::List(s) => {
            assert(s.subrange(0, k) + s.subrange(k, s.len() as int) =~= s);
        },
        _ => {},
    }
}

/// A write is read back: after [`Value::set`] stores `elem` at `idx`, element
/// `idx` reads as `elem` (no longer null), and every other element reads as it
/// did before.
pub proof fn law_read_after_write<T: VecElem>(before: Datum, idx: int, elem: T, after: Datum)
    requires
        before is Vector,
        before->Vector_1.len() == cells_len(before->Vector_0),
        T::unwrap(before->Vector_0) is Some,
        0 <= idx < coll_len(before),
        after == Datum::Vector(
            T::wrap(T::unwrap(before->Vector_0)->Some_0.update(idx, elem)),
            before->Vector_1.update(idx, false),
        ),
    ensures
        item(after, idx) == Datum::Atom(T::scalar(elem)),
        forall|j: int| 0 <= j < coll_len(before) && j != idx ==> #[trigger] item(after, j) == item(before, j),
{
    let c = before->Vector_0;
    let s = T::unwrap(c)->Some_0;
    T::lemma_unwrap(c);
    T::lemma_wrap(s);
    T::lemma_wrap(s.update(idx, elem));
    assert(s.update(idx, elem)[idx] == elem);
    assert forall|j: int| 0 <= j < coll_len(before) && j != idx implies #[trigger] item(after, j) == item(before, j) by {
        assert(s.update(idx, elem)[j] == s[j]);
    }
}

/// Every element of a vector built from `data` reads back: `get` succeeds,
/// gives the element's atom, and that atom extracts to the element;
/// `as_slice` gives `data` itself.
pub proof fn law_get_extracts<T: VecElem>(data: Seq<T>, i: int)
    requires
        0 <= i < data.len(),
    ensures
        ({
            let d = Datum::Vector(T::wrap(data), no_nulls(data.len()));
            &&& get_ok(d, i)
            &&& item(d, i) == Datum::Atom(T::scalar(data[i]))
            &&& T::accepts(item(d, i))
            &&& !T::may_refuse(item(d, i))
            &&& forall|y: T| #[trigger] T::decodes_to(item(d, i), y) ==> y == data[i]
            &&& T::unwrap(d->Vector_0) == Some(data)
        }),
{
    T::lemma_wrap(data);
    T::lemma_scalar_extracts(data[i]);
}

/// `get` succeeds: a vector or list, and an index inside it.
pub open spec fn get_ok(d: Datum, i: int) -> bool {
    (d is Vector || d is List) && 0 <= i < coll_len(d)
}

/// A fixed-width vector element type, mapping a Rust integer to a vector kind
/// for zero-copy slicing and bulk construction.
pub trait VecElem: Copy + Sealed + Sized + FromValue {
    /// Canonical (positive) vector type id.
    spec fn spec_ray_type() -> i8;

    /// Storage holding exactly `s`.
    spec fn wrap(s: Seq<Self>) -> Cells;

    /// The elements of a storage of this kind, `None` for another kind.
    spec fn unwrap(c: Cells) -> Option<Seq<Self>>;

    /// The content of the atom an element reads back as.
    spec fn scalar(x: Self) -> Scalar;

    proof fn lemma_ray_type()
        ensures
            is_vector_code(Self::spec_ray_type() as int),
    ;

    proof fn lemma_wrap(s: Seq<Self>)
        ensures
            Self::unwrap(Self::wrap(s)) == Some(s),
            cells_code(Self::wrap(s)) == Self::spec_ray_type(),
            cells_len(Self::wrap(s)) == s.len(),
            forall|i: int| 0 <= i < s.len() ==> cell_scalar(Self::wrap(s), i) == Self::scalar(#[trigger] s[i]),
    ;

    /// An element's atom extracts back to the element.
    proof fn lemma_scalar_extracts(x: Self)
        ensures
            Self::accepts(Datum::Atom(Self::scalar(x))),
            !Self::may_refuse(Datum::Atom(Self::scalar(x))),
            forall|y: Self| #[trigger] Self::decodes_to(Datum::Atom(Self::scalar(x)), y) ==> y == x,
    ;

    proof fn lemma_unwrap(c: Cells)
        ensures
            Self::unwrap(c) is Some <==> cells_code(c) == Self::spec_ray_type(),
            Self::unwrap(c) matches Some(s) ==> Self::wrap(s) == c && s.len() == cells_len(c),
    ;

    /// Canonical (positive) vector type id.
    fn ray_type() -> (t: i8)
        ensures
            t == Self::spec_ray_type(),
    ;

    /// Storage holding a copy of `data`.
    fn make_column(data: &[Self]) -> (c: Column)
        ensures
            c@ == Self::wrap(data@),
    ;

    /// The storage as a slice of this type, if it is of this kind.
    fn slice_of(c: &Column) -> (r: Option<&[Self]>)
        ensures
            r matches Some(s) ==> Self::unwrap(c@) == Some(s@),
            r is None ==> Self::unwrap(c@) is None,
    ;

    /// The storage with cell `i` replaced by `x`.
    fn with_cell(c: Column, i: usize, x: Self) -> (r: Column)
        requires
            Self::unwrap(c@) is Some,
            i < cells_len(c@),
        ensures
            r@ == Self::wrap(Self::unwrap(c@)->Some_0.update(i as int, x)),
    ;

    /// The storage with `x` appended.
    fn with_push(c: Column, x: Self) -> (r: Column)
        requires
            Self::unwrap(c@) is Some,
        ensures
            r@ == Self::wrap(Self::unwrap(c@)->Some_0.push(x)),
    ;
}

fn copy_slice<T: Copy>(data: &[T]) -> (v: Vec<T>)
    ensures
        v@ == data@,
{
    let mut v: Vec<T> = Vec::new();
    let mut i: usize = 0;
    while i < data.len()
        invariant
            i <= data@.len(),
            v@ == data@.take(i as int),
        decreases data@.len() - i,
    {
        v.push(data[i]);
        i += 1;
        assert(v@ =~= data@.take(i as int));
    }
    assert(v@ =~= data@);
    v
}

impl Sealed for u8 {}
impl Sealed for i16 {}
impl Sealed for i32 {}
impl Sealed for i64 {}

impl VecElem for u8 {
    open spec fn spec_ray_type() -> i8 {
        RAY_U8
    }

    open spec fn wrap(s: Seq<u8>) -> Cells {
        Cells::Bytes(ByteKind::U8, s)
    }

    open spec fn unwrap(c: Cells) -> Option<Seq<u8>> {
        match c {
            Cells::Bytes(ByteKind::U8, s) => Some(s),
            _ => None,
        }
    }

    open spec fn scalar(x: u8) -> Scalar {
        Scalar::U8(x)
    }

    proof fn lemma_ray_type() {
    }

    proof fn lemma_wrap(s: Seq<u8>) {
    }

    proof fn lemma_unwrap(c: Cells) {
    }

    proof fn lemma_scalar_extracts(x: Self) {
    }

    fn ray_type() -> (t: i8) {
        RAY_U8
    }

    fn make_column(data: &[u8]) -> (c: Column) {
        Column::Bytes(ByteKind::U8, copy_slice(data))
    }

    fn slice_of(c: &Column) -> (r: Option<&[u8]>) {
        match c {
            Column::Bytes(ByteKind::U8, v) => Some(v.as_slice()),
            _ => None,
        }
    }

    fn with_cell(c: Column, i: usize, x: u8) -> (r: Column) {
        match c {
            Column::Bytes(ByteKind::U8, mut v) => {
                v.set(i, x);
                Column::Bytes(ByteKind::U8, v)
            },
            other => other,
        }
    }

    fn with_push(c: Column, x: u8) -> (r: Column) {
        match c {
            Column::Bytes(ByteKind::U8, mut v) => {
                v.push(x);
                Column::Bytes(ByteKind::U8, v)
            },
            other => other,
        }
    }
}

impl VecElem for i16 {
    open spec fn spec_ray_type() -> i8 {
        RAY_I16
    }

    open spec fn wrap(s: Seq<i16>) -> Cells {
        Cells::I16(s)
    }

    open spec fn unwrap(c: Cells) -> Option<Seq<i16>> {
        match c {
            Cells::I16(s) => Some(s),
            _ => None,
        }
    }

    open spec fn scalar(x: i16) -> Scalar {
        Scalar::I16(x)
    }

    proof fn lemma_ray_type() {
    }

    proof fn lemma_wrap(s: Seq<i16>) {
    }

    proof fn lemma_unwrap(c: Cells) {
    }

    proof fn lemma_scalar_extracts(x: Self) {
    }

    fn ray_type() -> (t: i8) {
        RAY_I16
    }

    fn make_column(data: &[i16]) -> (c: Column) {
        Column::I16(copy_slice(data))
    }

    fn slice_of(c: &Column) -> (r: Option<&[i16]>) {
        match c {
            Column::I16(v) => Some(v.as_slice()),
            _ => None,
        }
    }

    fn with_cell(c: Column, i: usize, x: i16) -> (r: Column) {
        match c {
            Column::I16(mut v) => {
                v.set(i, x);
                Column::I16(v)
            },
            other => other,
        }
    }

    fn with_push(c: Column, x: i16) -> (r: Column) {
        match c {
            Column::I16(mut v) => {
                v.push(x);
                Column::I16(v)
            },
            other => other,
        }
    }
}

impl VecElem for i32 {
    open spec fn spec_ray_type() -> i8 {
        RAY_I32
    }

    open spec fn wrap(s: Seq<i32>) -> Cells {
        Cells::W32(W32Kind::I32, s)
    }

    open spec fn unwrap(c: Cells) -> Option<Seq<i32>> {
        match c {
            Cells::W32(W32Kind::I32, s) => Some(s),
            _ => None,
        }
    }

    open spec fn scalar(x: i32) -> Scalar {
        Scalar::W32(W32Kind::I32, x)
    }

    proof fn lemma_ray_type() {
    }

    proof fn lemma_wrap(s: Seq<i32>) {
    }

    proof fn lemma_unwrap(c: Cells) {
    }

    proof fn lemma_scalar_extracts(x: Self) {
    }

    fn ray_type() -> (t: i8) {
        RAY_I32
    }

    fn make_column(data: &[i32]) -> (c: Column) {
        Column::W32(W32Kind::I32, copy_slice(data))
    }

    fn slice_of(c: &Column) -> (r: Option<&[i32]>) {
        match c {
            Column::W32(W32Kind::I32, v) => Some(v.as_slice()),
            _ => None,
        }
    }

    fn with_cell(c: Column, i: usize, x: i32) -> (r: Column) {
        match c {
            Column::W32(W32Kind::I32, mut v) => {
                v.set(i, x);
                Column::W32(W32Kind::I32, v)
            },
            other => other,
        }
    }

    fn with_push(c: Column, x: i32) -> (r: Column) {
        match c {
            Column::W32(W32Kind::I32, mut v) => {
                v.push(x);
                Column::W32(W32Kind::I32, v)
            },
            other => other,
        }
    }
}

impl VecElem for i64 {
    open spec fn spec_ray_type() -> i8 {
        RAY_I64
    }

    open spec fn wrap(s: Seq<i64>) -> Cells {
        Cells::W64(W64Kind::I64, s)
    }

    open spec fn unwrap(c: Cells) -> Option<Seq<i64>> {
        match c {
            Cells::W64(W64Kind::I64, s) => Some(s),
            _ => None,
        }
    }

    open spec fn scalar(x: i64) -> Scalar {
        Scalar::W64(W64Kind::I64, x)
    }

    proof fn lemma_ray_type() {
    }

    proof fn lemma_wrap(s: Seq<i64>) {
    }

    proof fn lemma_unwrap(c: Cells) {
    }

    proof fn lemma_scalar_extracts(x: Self) {
    }

    fn ray_type() -> (t: i8) {
        RAY_I64
    }

    fn make_column(data: &[i64]) -> (c: Column) {
        Column::W64(W64Kind::I64, copy_slice(data))
    }

    fn slice_of(c: &Column) -> (r: Option<&[i64]>) {
        match c {
            Column::W64(W64Kind::I64, v) => Some(v.as_slice()),
            _ => None,
        }
    }

    fn with_cell(c: Column, i: usize, x: i64) -> (r: Column) {
        match c {
            Column::W64(W64Kind::I64, mut v) => {
                v.set(i, x);
                Column::W64(W64Kind::I64, v)
            },
            other => other,
        }
    }

    fn with_push(c: Column, x: i64) -> (r: Column) {
        match c {
            Column::W64(W64Kind::I64, mut v) => {
                v.push(x);
                Column::W64(W64Kind::I64, v)
            },
            other => other,
        }
    }
}


fn copy_range<T: Copy>(v: &Vec<T>, a: usize, b: usize) -> (r: Vec<T>)
    requires
        a <= b <= v@.len(),
    ensures
        r@ == v@.subrange(a as int, b as int),
{
    let mut r: Vec<T> = Vec::new();
    let mut i: usize = a;
    while i < b
        invariant
            a <= i <= b <= v@.len(),
            r@ == v@.subrange(a as int, i as int),
        decreases b - i,
    {
        r.push(v[i]);
        i += 1;
        assert(r@ =~= v@.subrange(a as int, i as int));
    }
    r
}

fn copy_concat<T: Copy>(v: &Vec<T>, w: &Vec<T>) -> (r: Vec<T>)
    ensures
        r@ == v@ + w@,
{
    let mut r = copy_range(v, 0, v.len());
    let mut i: usize = 0;
    assert(r@ =~= v@ + w@.take(0));
    while i < w.len()
        invariant
            i <= w@.len(),
            r@ == v@ + w@.take(i as int),
        decreases w@.len() - i,
    {
        r.push(w[i]);
        i += 1;
        assert(r@ =~= v@ + w@.take(i as int));
    }
    assert(w@.take(w@.len() as int) =~= w@);
    r
}

fn clone_strings(v: &Vec<String>, a: usize, b: usize, out: &mut Vec<String>)
    requires
        a <= b <= v@.len(),
    ensures
        strings_view(final(out)@) == strings_view(old(out)@) + strings_view(v@).subrange(a as int, b as int),
{
    let ghost start = strings_view(out@);
    let mut i: usize = a;
    assert(strings_view(out@) =~= start + strings_view(v@).subrange(a as int, i as int));
    while i < b
        invariant
            a <= i <= b <= v@.len(),
            strings_view(out@) == start + strings_view(v@).subrange(a as int, i as int),
        decreases b - i,
    {
        let ghost before = out@;
        out.push(v[i].clone());
        i += 1;
        assert(strings_view(out@) =~= strings_view(before).push(v@[i - 1]@));
        assert(strings_view(out@) =~= start + strings_view(v@).subrange(a as int, i as int));
    }
}

fn copy_guids(v: &Vec<[u8; 16]>, a: usize, b: usize, out: &mut Vec<[u8; 16]>)
    requires
        a <= b <= v@.len(),
    ensures
        final(out)@ == old(out)@ + v@.subrange(a as int, b as int),
{
    let ghost start = out@;
    let mut i: usize = a;
    assert(out@ =~= start + v@.subrange(a as int, i as int));
    while i < b
        invariant
            a <= i <= b <= v@.len(),
            out@ == start + v@.subrange(a as int, i as int),
        decreases b - i,
    {
        out.push(v[i]);
        i += 1;
        assert(out@ =~= start + v@.subrange(a as int, i as int));
    }
}

impl Column {
    /// Empty storage of a vector kind.
    pub fn empty(t: i8) -> (c: Column)
        requires
            is_vector_code(t as int),
        ensures
            c@ == empty_cells(t),
    {
        let c = if t == RAY_BOOL {
            Column::Bytes(ByteKind::Bool, Vec::new())
        } else if t == RAY_U8 {
            Column::Bytes(ByteKind::U8, Vec::new())
        } else if t == RAY_I16 {
            Column::I16(Vec::new())
        } else if t == RAY_I32 {
            Column::W32(W32Kind::I32, Vec::new())
        } else if t == RAY_DATE {
            Column::W32(W32Kind::Date, Vec::new())
        } else if t == RAY_TIME {
            Column::W32(W32Kind::Time, Vec::new())
        } else if t == RAY_I64 {
            Column::W64(W64Kind::I64, Vec::new())
        } else if t == RAY_TIMESTAMP {
            Column::W64(W64Kind::Timestamp, Vec::new())
        } else if t == RAY_F32 {
            Column::F32(Vec::new())
        } else if t == RAY_F64 {
            Column::F64(Vec::new())
        } else if t == RAY_GUID {
            Column::Guid(Vec::new())
        } else if t == RAY_SYM {
            Column::Text(TextKind::Sym, Vec::new())
        } else {
            Column::Text(TextKind::Str, Vec::new())
        };
        assert(strings_view(Seq::<String>::empty()) =~= Seq::empty());
        assert(guids_view(Seq::<[u8; 16]>::empty()) =~= Seq::empty());
        assert(c@ == empty_cells(t));
        c
    }

    /// Cell `i` as an atom.
    pub fn cell_atom(&self, i: usize) -> (a: Atom)
        requires
            i < cells_len(self@),
        ensures
            a@ == cell_scalar(self@, i as int),
    {
        match self {
            Column::Bytes(ByteKind::Bool, v) => Atom::Bool(v[i] != 0),
            Column::Bytes(ByteKind::U8, v) => Atom::U8(v[i]),
            Column::I16(v) => Atom::I16(v[i]),
            Column::W32(k, v) => Atom::W32(*k, v[i]),
            Column::W64(k, v) => Atom::W64(*k, v[i]),
            Column::F32(v) => Atom::F32(v[i]),
            Column::F64(v) => Atom::F64(v[i]),
            Column::Guid(v) => Atom::Guid(v[i]),
            Column::Text(TextKind::Sym, v) => Atom::Sym(v[i].clone(), true),
            Column::Text(TextKind::Str, v) => Atom::Str(v[i].clone()),
        }
    }

    /// Cells `[a, b)`.
    pub fn subrange(&self, a: usize, b: usize) -> (c: Column)
        requires
            a <= b <= cells_len(self@),
        ensures
            c@ == cells_subrange(self@, a as int, b as int),
    {
        match self {
            Column::Bytes(k, v) => Column::Bytes(*k, copy_range(v, a, b)),
            Column::I16(v) => Column::I16(copy_range(v, a, b)),
            Column::W32(k, v) => Column::W32(*k, copy_range(v, a, b)),
            Column::W64(k, v) => Column::W64(*k, copy_range(v, a, b)),
            Column::F32(v) => Column::F32(copy_range(v, a, b)),
            Column::F64(v) => Column::F64(copy_range(v, a, b)),
            Column::Guid(v) => {
                let mut out: Vec<[u8; 16]> = Vec::new();
                copy_guids(v, a, b, &mut out);
                assert(out@ =~= v@.subrange(a as int, b as int));
                assert(guids_view(out@) =~= guids_view(v@).subrange(a as int, b as int));
                Column::Guid(out)
            },
            Column::Text(k, v) => {
                let mut out: Vec<String> = Vec::new();
                clone_strings(v, a, b, &mut out);
                assert(strings_view(out@) =~= strings_view(v@).subrange(a as int, b as int));
                Column::Text(*k, out)
            },
        }
    }

    /// The cells of `self` followed by those of `other`, if both are of one kind.
    pub fn concat(&self, other: &Column) -> (r: Option<Column>)
        ensures
            r is Some <==> cells_code(self@) == cells_code(other@),
            r matches Some(c) ==> c@ == cells_concat(self@, other@),
    {
        match (self, other) {
            (Column::Bytes(k, v), Column::Bytes(k2, w)) => {
                if *k == *k2 { Some(Column::Bytes(*k, copy_concat(v, w))) } else { None }
            },
            (Column::I16(v), Column::I16(w)) => Some(Column::I16(copy_concat(v, w))),
            (Column::W32(k, v), Column::W32(k2, w)) => {
                if *k == *k2 { Some(Column::W32(*k, copy_concat(v, w))) } else { None }
            },
            (Column::W64(k, v), Column::W64(k2, w)) => {
                if *k == *k2 { Some(Column::W64(*k, copy_concat(v, w))) } else { None }
            },
            (Column::F32(v), Column::F32(w)) => Some(Column::F32(copy_concat(v, w))),
            (Column::F64(v), Column::F64(w)) => Some(Column::F64(copy_concat(v, w))),
            (Column::Guid(v), Column::Guid(w)) => {
                let mut out: Vec<[u8; 16]> = Vec::new();
                copy_guids(v, 0, v.len(), &mut out);
                copy_guids(w, 0, w.len(), &mut out);
                assert(out@ =~= v@ + w@);
                assert(guids_view(out@) =~= guids_view(v@) + guids_view(w@));
                Some(Column::Guid(out))
            },
            (Column::Text(k, v), Column::Text(k2, w)) => {
                if *k == *k2 {
                    let mut out: Vec<String> = Vec::new();
                    clone_strings(v, 0, v.len(), &mut out);
                    clone_strings(w, 0, w.len(), &mut out);
                    assert(strings_view(out@) =~= strings_view(v@) + strings_view(w@));
                    Some(Column::Text(*k, out))
                } else {
                    None
                }
            },
            _ => None,
        }
    }
}


/// Clone `items[a..b]` into a new vector.
fn clone_value_range(items: &Vec<Value>, a: usize, b: usize) -> (out: Vec<Value>)
    requires
        a <= b <= items@.len(),
    ensures
        view_seq(out@) == view_seq(items@).subrange(a as int, b as int),
{
    let mut out: Vec<Value> = Vec::new();
    let mut i: usize = a;
    while i < b
        invariant
            a <= i <= b <= items@.len(),
            out@.len() == i - a,
            forall|j: int| 0 <= j < out@.len() ==> #[trigger] out@[j]@ == items@[a + j]@,
        decreases b - i,
    {
        out.push(items[i].clone());
        i += 1;
    }
    proof {
        lemma_view_seq_len(items@);
        let d = view_seq(items@).subrange(a as int, b as int);
        assert forall|j: int| 0 <= j < out@.len() implies #[trigger] out@[j]@ == d[j] by {
            lemma_view_seq_index(items@, a + j);
        }
        lemma_view_seq_from_elems(out@, d);
    }
    out
}

impl Value {
    // ---- construction ----

    /// A vector holding a copy of `data`, with no null elements.
    pub fn vec<T: VecElem>(data: &[T]) -> (r: Value)
        ensures
            r@ == Datum::Vector(T::wrap(data@), no_nulls(data@.len())),
    {
        let c = T::make_column(data);
        proof {
            T::lemma_wrap(data@);
            assert(flags_view(Seq::<bool>::empty(), data@.len()) =~= no_nulls(data@.len()));
        }
        Value::from_obj(Obj::Vector(c, Vec::new()))
    }

    /// A boolean vector (stored as 0/1 bytes).
    pub fn bool_vec(data: &[bool]) -> (r: Value)
        ensures
            r@ == Datum::Vector(
                Cells::Bytes(ByteKind::Bool, bools_as_bytes(data@)),
                no_nulls(data@.len()),
            ),
    {
        let mut v: Vec<u8> = Vec::new();
        let mut i: usize = 0;
        while i < data.len()
            invariant
                i <= data@.len(),
                v@ == bools_as_bytes(data@.take(i as int)),
            decreases data@.len() - i,
        {
            v.push(if data[i] { 1u8 } else { 0u8 });
            i += 1;
            assert(v@ =~= bools_as_bytes(data@.take(i as int)));
        }
        assert(data@.take(data@.len() as int) =~= data@);
        assert(flags_view(Seq::<bool>::empty(), data@.len()) =~= no_nulls(data@.len()));
        Value::from_obj(Obj::Vector(Column::Bytes(ByteKind::Bool, v), Vec::new()))
    }

    /// An `f32` vector from the bits of its elements.
    pub fn f32_bits_vec(bits: &[u32]) -> (r: Value)
        ensures
            r@ == Datum::Vector(Cells::F32(bits@), no_nulls(bits@.len())),
    {
        let mut v: Vec<u32> = Vec::new();
        let mut i: usize = 0;
        while i < bits.len()
            invariant
                i <= bits@.len(),
                v@ == bits@.take(i as int),
            decreases bits@.len() - i,
        {
            v.push(bits[i]);
            i += 1;
            assert(v@ =~= bits@.take(i as int));
        }
        assert(bits@.take(bits@.len() as int) =~= bits@);
        assert(flags_view(Seq::<bool>::empty(), bits@.len()) =~= no_nulls(bits@.len()));
        Value::from_obj(Obj::Vector(Column::F32(v), Vec::new()))
    }

    /// An `f64` vector from the bits of its elements.
    pub fn f64_bits_vec(bits: &[u64]) -> (r: Value)
        ensures
            r@ == Datum::Vector(Cells::F64(bits@), no_nulls(bits@.len())),
    {
        let mut v: Vec<u64> = Vec::new();
        let mut i: usize = 0;
        while i < bits.len()
            invariant
                i <= bits@.len(),
                v@ == bits@.take(i as int),
            decreases bits@.len() - i,
        {
            v.push(bits[i]);
            i += 1;
            assert(v@ =~= bits@.take(i as int));
        }
        assert(bits@.take(bits@.len() as int) =~= bits@);
        assert(flags_view(Seq::<bool>::empty(), bits@.len()) =~= no_nulls(bits@.len()));
        Value::from_obj(Obj::Vector(Column::F64(v), Vec::new()))
    }

    /// A symbol vector.
    pub fn sym_vec(items: &[&str]) -> (r: Value)
        ensures
            r@ == Datum::Vector(Cells::Text(TextKind::Sym, strs_view(items@)), no_nulls(items@.len())),
    {
        let v = to_strings(items);
        assert(flags_view(Seq::<bool>::empty(), items@.len()) =~= no_nulls(items@.len()));
        Value::from_obj(Obj::Vector(Column::Text(TextKind::Sym, v), Vec::new()))
    }

    /// A string vector.
    pub fn str_vec(items: &[&str]) -> (r: Value)
        ensures
            r@ == Datum::Vector(Cells::Text(TextKind::Str, strs_view(items@)), no_nulls(items@.len())),
    {
        let v = to_strings(items);
        assert(flags_view(Seq::<bool>::empty(), items@.len()) =~= no_nulls(items@.len()));
        Value::from_obj(Obj::Vector(Column::Text(TextKind::Str, v), Vec::new()))
    }

    /// An empty vector of the given canonical type.
    pub fn empty_vec(abs_type: i8, capacity: i64) -> (r: Value)
        requires
            is_vector_code(abs_type as int),
            capacity >= 0,
        ensures
            r@ == Datum::Vector(empty_cells(abs_type), Seq::empty()),
    {
        let c = Column::empty(abs_type);
        assert(flags_view(Seq::<bool>::empty(), 0) =~= Seq::<bool>::empty());
        Value::from_obj(Obj::Vector(c, Vec::new()))
    }

    // ---- zero-copy reads ----

    /// The storage of a vector of `T`'s kind, as a slice.
    pub fn as_slice<T: VecElem>(&self) -> (r: Result<&[T]>)
        ensures
            r is Ok <==> (self@ is Vector && cells_code(self@->Vector_0) == T::spec_ray_type()),
            r matches Ok(s) ==> T::unwrap(self@->Vector_0) == Some(s@),
            r matches Err(e) ==> e.code == ErrorCode::Type,
    {
        match self.obj() {
            Obj::Vector(c, _) => {
                proof { T::lemma_unwrap(c@); }
                match T::slice_of(c) {
                    Some(s) => Ok(s),
                    None => Err(RayError::new(ErrorCode::Type, "slice: vector element type differs")),
                }
            },
            _ => Err(RayError::new(ErrorCode::Type, "slice: value is not a vector")),
        }
    }

    /// The 0/1 bytes of a boolean vector.
    pub fn bool_slice(&self) -> (r: Result<&[u8]>)
        ensures
            r is Ok <==> (self@ is Vector && cells_code(self@->Vector_0) == RAY_BOOL),
            r matches Ok(s) ==> self@->Vector_0 == Cells::Bytes(ByteKind::Bool, s@),
            r matches Err(e) ==> e.code == ErrorCode::Type,
    {
        match self.obj() {
            Obj::Vector(Column::Bytes(ByteKind::Bool, v), _) => Ok(v.as_slice()),
            _ => Err(RayError::new(ErrorCode::Type, "slice: not a boolean vector")),
        }
    }

    /// A date vector as raw days since 2000-01-01.
    pub fn date_days_slice(&self) -> (r: Result<&[i32]>)
        ensures
            r is Ok <==> (self@ is Vector && cells_code(self@->Vector_0) == RAY_DATE),
            r matches Ok(s) ==> self@->Vector_0 == Cells::W32(W32Kind::Date, s@),
            r matches Err(e) ==> e.code == ErrorCode::Type,
    {
        match self.obj() {
            Obj::Vector(Column::W32(W32Kind::Date, v), _) => Ok(v.as_slice()),
            _ => Err(RayError::new(ErrorCode::Type, "slice: not a date vector")),
        }
    }

    /// A time vector as raw milliseconds since midnight.
    pub fn time_millis_slice(&self) -> (r: Result<&[i32]>)
        ensures
            r is Ok <==> (self@ is Vector && cells_code(self@->Vector_0) == RAY_TIME),
            r matches Ok(s) ==> self@->Vector_0 == Cells::W32(W32Kind::Time, s@),
            r matches Err(e) ==> e.code == ErrorCode::Type,
    {
        match self.obj() {
            Obj::Vector(Column::W32(W32Kind::Time, v), _) => Ok(v.as_slice()),
            _ => Err(RayError::new(ErrorCode::Type, "slice: not a time vector")),
        }
    }

    /// A timestamp vector as raw nanoseconds since 2000-01-01 UTC.
    pub fn timestamp_nanos_slice(&self) -> (r: Result<&[i64]>)
        ensures
            r is Ok <==> (self@ is Vector && cells_code(self@->Vector_0) == RAY_TIMESTAMP),
            r matches Ok(s) ==> self@->Vector_0 == Cells::W64(W64Kind::Timestamp, s@),
            r matches Err(e) ==> e.code == ErrorCode::Type,
    {
        match self.obj() {
            Obj::Vector(Column::W64(W64Kind::Timestamp, v), _) => Ok(v.as_slice()),
            _ => Err(RayError::new(ErrorCode::Type, "slice: not a timestamp vector")),
        }
    }

    /// An `f32` vector as the bits of its elements.
    pub fn f32_bits_slice(&self) -> (r: Result<&[u32]>)
        ensures
            r is Ok <==> (self@ is Vector && cells_code(self@->Vector_0) == RAY_F32),
            r matches Ok(s) ==> self@->Vector_0 == Cells::F32(s@),
            r matches Err(e) ==> e.code == ErrorCode::Type,
    {
        match self.obj() {
            Obj::Vector(Column::F32(v), _) => Ok(v.as_slice()),
            _ => Err(RayError::new(ErrorCode::Type, "slice: not an f32 vector")),
        }
    }

    /// An `f64` vector as the bits of its elements.
    pub fn f64_bits_slice(&self) -> (r: Result<&[u64]>)
        ensures
            r is Ok <==> (self@ is Vector && cells_code(self@->Vector_0) == RAY_F64),
            r matches Ok(s) ==> self@->Vector_0 == Cells::F64(s@),
            r matches Err(e) ==> e.code == ErrorCode::Type,
    {
        match self.obj() {
            Obj::Vector(Column::F64(v), _) => Ok(v.as_slice()),
            _ => Err(RayError::new(ErrorCode::Type, "slice: not an f64 vector")),
        }
    }

    // ---- element access ----

    /// True if element `idx` is flagged null.
    pub fn is_null_at(&self, idx: usize) -> (b: bool)
        ensures
            b == null_at(self@, idx as int),
    {
        match self.obj() {
            Obj::Vector(c, n) => idx < c.len() && idx < n.len() && n[idx],
            _ => false,
        }
    }

    /// Element `idx` of a vector or list, boxed (the null singleton for a null element).
    pub fn get(&self, idx: usize) -> (r: Result<Value>)
        ensures
            r is Ok <==> get_ok(self@, idx as int),
            r matches Ok(v) ==> v@ == item(self@, idx as int),
            r matches Err(e) ==> e.code == (if idx >= coll_len(self@) {
                ErrorCode::Range
            } else {
                ErrorCode::Type
            }),
    {
        let n = self.len();
        if idx >= n {
            return Err(RayError::new(ErrorCode::Range, "index out of range"));
        }
        match self.obj() {
            Obj::List(items) => {
                proof {
                    lemma_view_seq_len(items@);
                    lemma_view_seq_index(items@, idx as int);
                }
                Ok(items[idx].clone())
            },
            Obj::Vector(c, flags) => {
                if idx < flags.len() && flags[idx] {
                    Ok(Value::null())
                } else {
                    Ok(Value::from_obj(Obj::Atom(c.cell_atom(idx))))
                }
            },
            _ => Err(RayError::new(ErrorCode::Type, "get: not a vector or list")),
        }
    }

    /// An iterator over the boxed elements.
    pub fn iter(&self) -> (it: VecIter<'_>)
        ensures
            it.value() == self,
            it.index() == 0,
            it.end() == coll_len(self@),
    {
        VecIter { value: self, idx: 0, len: self.len() }
    }

    // ---- mutation ----

    /// Overwrite element `idx` of a vector of `T`'s kind (clearing its null flag).
    pub fn set<T: VecElem>(&mut self, idx: usize, elem: T) -> (r: Result<()>)
        ensures
            r is Ok <==> (abs_tag(old(self)@) == T::spec_ray_type() && idx < coll_len(old(self)@)),
            r is Ok ==> old(self)@ is Vector && final(self)@ == Datum::Vector(
                T::wrap(T::unwrap(old(self)@->Vector_0)->Some_0.update(idx as int, elem)),
                old(self)@->Vector_1.update(idx as int, false),
            ),
            r matches Err(e) ==> final(self)@ == old(self)@ && e.code == (if abs_tag(old(self)@)
                != T::spec_ray_type() {
                ErrorCode::Type
            } else {
                ErrorCode::Range
            }),
    {
        if self.abs_type() != T::ray_type() {
            return Err(RayError::new(ErrorCode::Type, "set: element type mismatch"));
        }
        let n = self.len();
        if idx >= n {
            return Err(RayError::new(ErrorCode::Range, "set: index out of range"));
        }
        proof { T::lemma_ray_type(); }
        let o = self.take_obj();
        match o {
            Obj::Vector(c, flags) => {
                proof { T::lemma_unwrap(c@); }
                let c2 = T::with_cell(c, idx, elem);
                let mut f2 = normalized_flags(&flags, n);
                f2.set(idx, false);
                proof {
                    T::lemma_wrap(T::unwrap(c@)->Some_0.update(idx as int, elem));
                    lemma_flags_idem(f2@, n as nat);
                }
                self.set_obj(Obj::Vector(c2, f2));
                Ok(())
            },
            other => {
                self.set_obj(other);
                Err(RayError::new(ErrorCode::Type, "set: not a vector"))
            },
        }
    }

    /// Append an element to a vector of `T`'s kind.
    pub fn push<T: VecElem>(&mut self, elem: T) -> (r: Result<()>)
        ensures
            r is Ok <==> (old(self)@ is Vector && cells_code(old(self)@->Vector_0)
                == T::spec_ray_type()),
            r is Ok ==> final(self)@ == Datum::Vector(
                T::wrap(T::unwrap(old(self)@->Vector_0)->Some_0.push(elem)),
                old(self)@->Vector_1.push(false),
            ),
            r matches Err(e) ==> final(self)@ == old(self)@ && e.code == ErrorCode::Type,
    {
        if self.abs_type() != T::ray_type() || !self.is_vec() {
            return Err(RayError::new(ErrorCode::Type, "push: element type mismatch"));
        }
        let o = self.take_obj();
        match o {
            Obj::Vector(c, flags) => {
                let n = c.len();
                proof { T::lemma_unwrap(c@); }
                let c2 = T::with_push(c, elem);
                let mut f2 = normalized_flags(&flags, n);
                f2.push(false);
                proof {
                    T::lemma_wrap(T::unwrap(c@)->Some_0.push(elem));
                    lemma_flags_idem(f2@, (n + 1) as nat);
                }
                self.set_obj(Obj::Vector(c2, f2));
                Ok(())
            },
            other => {
                self.set_obj(other);
                Err(RayError::new(ErrorCode::Type, "push: not a vector"))
            },
        }
    }

    /// Flag element `idx` as null, or clear its flag.
    pub fn set_null(&mut self, idx: usize, is_null: bool) -> (r: Result<()>)
        ensures
            r is Ok <==> (old(self)@ is Vector && idx < coll_len(old(self)@)),
            r is Ok ==> final(self)@ == Datum::Vector(
                old(self)@->Vector_0,
                old(self)@->Vector_1.update(idx as int, is_null),
            ),
            r matches Err(e) ==> final(self)@ == old(self)@ && e.code == (if old(self)@ is Vector {
                ErrorCode::Range
            } else {
                ErrorCode::Type
            }),
    {
        if !self.is_vec() {
            return Err(RayError::new(ErrorCode::Type, "set_null: not a vector"));
        }
        let n = self.len();
        if idx >= n {
            return Err(RayError::new(ErrorCode::Range, "set_null: index out of range"));
        }
        let o = self.take_obj();
        match o {
            Obj::Vector(c, flags) => {
                let mut f2 = normalized_flags(&flags, n);
                f2.set(idx, is_null);
                proof { lemma_flags_idem(f2@, n as nat); }
                self.set_obj(Obj::Vector(c, f2));
                Ok(())
            },
            other => {
                self.set_obj(other);
                Err(RayError::new(ErrorCode::Type, "set_null: not a vector"))
            },
        }
    }

    /// A copy of the elements `[offset, offset + len)` of a vector or list.
    pub fn slice(&self, offset: i64, len: i64) -> (r: Result<Value>)
        ensures
            r is Ok <==> ((self@ is Vector || self@ is List) && 0 <= offset && 0 <= len && offset
                + len <= coll_len(self@)),
            r matches Ok(v) ==> v@ == slice_view(self@, offset as int, offset + len),
            r matches Err(e) ==> e.code == (if self@ is Vector || self@ is List {
                ErrorCode::Range
            } else {
                ErrorCode::Type
            }),
    {
        let total = self.len();
        match self.obj() {
            Obj::Vector(_, _) => {},
            Obj::List(_) => {},
            _ => {
                return Err(RayError::new(ErrorCode::Type, "slice: not a vector or list"));
            },
        }
        if offset < 0 || len < 0 || (offset as u64) > (total as u64) || (len as u64) > (total as u64)
            - (offset as u64) {
            return Err(RayError::new(ErrorCode::Range, "slice: range out of bounds"));
        }
        let a = offset as usize;
        let b = a + len as usize;
        match self.obj() {
            Obj::Vector(c, flags) => {
                let f = normalized_flags(flags, total);
                let mut f2: Vec<bool> = Vec::new();
                let mut i: usize = a;
                while i < b
                    invariant
                        a <= i <= b <= total,
                        f@.len() == total,
                        f2@ == f@.subrange(a as int, i as int),
                    decreases b - i,
                {
                    f2.push(f[i]);
                    i += 1;
                    assert(f2@ =~= f@.subrange(a as int, i as int));
                }
                let c2 = c.subrange(a, b);
                proof { lemma_flags_idem(f2@, (b - a) as nat); }
                assert(cells_len(c2@) == b - a);
                Ok(Value::from_obj(Obj::Vector(c2, f2)))
            },
            Obj::List(items) => {
                proof { lemma_view_seq_len(items@); }
                Ok(Value::from_obj(Obj::List(clone_value_range(items, a, b))))
            },
            _ => Err(RayError::new(ErrorCode::Type, "slice: not a vector or list")),
        }
    }

    /// The elements of `self` followed by those of `other`: two vectors of one kind, or two lists.
    pub fn concat(&self, other: &Value) -> (r: Result<Value>)
        ensures
            r is Ok <==> ((self@ is Vector && other@ is Vector && cells_code(self@->Vector_0)
                == cells_code(other@->Vector_0)) || (self@ is List && other@ is List)),
            r matches Ok(v) ==> v@ == concat_view(self@, other@),
            r matches Err(e) ==> e.code == ErrorCode::Type,
    {
        match (self.obj(), other.obj()) {
            (Obj::Vector(c1, f1), Obj::Vector(c2, f2)) => {
                match c1.concat(c2) {
                    Some(c) => {
                        let n1 = c1.len();
                        let n2 = c2.len();
                        let g1 = normalized_flags(f1, n1);
                        let g2 = normalized_flags(f2, n2);
                        let mut g: Vec<bool> = Vec::new();
                        let mut i: usize = 0;
                        while i < n1
                            invariant
                                i <= n1,
                                g1@.len() == n1,
                                g@ == g1@.take(i as int),
                            decreases n1 - i,
                        {
                            g.push(g1[i]);
                            i += 1;
                            assert(g@ =~= g1@.take(i as int));
                        }
                        let mut j: usize = 0;
                        while j < n2
                            invariant
                                j <= n2,
                                g1@.len() == n1,
                                g2@.len() == n2,
                                g@ == g1@ + g2@.take(j as int),
                            decreases n2 - j,
                        {
                            g.push(g2[j]);
                            j += 1;
                            assert(g@ =~= g1@ + g2@.take(j as int));
                        }
                        assert(g1@.take(n1 as int) =~= g1@);
                        assert(g2@.take(n2 as int) =~= g2@);
                        proof {
                            assert(cells_len(c@) == n1 + n2);
                            lemma_flags_idem(g@, (n1 + n2) as nat);
                        }
                        Ok(Value::from_obj(Obj::Vector(c, g)))
                    },
                    None => Err(RayError::new(ErrorCode::Type, "concat: element types differ")),
                }
            },
            (Obj::List(s1), Obj::List(s2)) => {
                let mut out = clone_value_range(s1, 0, s1.len());
                proof {
                    lemma_view_seq_len(s1@);
                    lemma_view_seq_len(s2@);
                    assert(view_seq(s1@).subrange(0, s1@.len() as int) =~= view_seq(s1@));
                    assert(view_seq(out@) =~= view_seq(s1@) + view_seq(s2@).take(0));
                }
                let mut i: usize = 0;
                while i < s2.len()
                    invariant
                        i <= s2@.len(),
                        view_seq(s2@).len() == s2@.len(),
                        view_seq(out@) == view_seq(s1@) + view_seq(s2@).take(i as int),
                    decreases s2@.len() - i,
                {
                    let v = s2[i].clone();
                    proof {
                        lemma_view_seq_push(out@, v);
                        lemma_view_seq_index(s2@, i as int);
                    }
                    out.push(v);
                    i += 1;
                    assert(view_seq(out@) =~= view_seq(s1@) + view_seq(s2@).take(i as int));
                }
                assert(view_seq(s2@).take(s2@.len() as int) =~= view_seq(s2@));
                Ok(Value::from_obj(Obj::List(out)))
            },
            _ => Err(RayError::new(ErrorCode::Type, "concat: not two vectors or two lists")),
        }
    }
}

/// Copy the texts of a slice of string slices.
fn to_strings(items: &[&str]) -> (v: Vec<String>)
    ensures
        strings_view(v@) == strs_view(items@),
{
    let mut v: Vec<String> = Vec::new();
    let mut i: usize = 0;
    while i < items.len()
        invariant
            i <= items@.len(),
            strings_view(v@) == strs_view(items@.take(i as int)),
        decreases items@.len() - i,
    {
        let ghost before = v@;
        v.push(items[i].to_string());
        i += 1;
        assert(strings_view(v@) =~= strings_view(before).push(items@[i - 1]@));
        assert(strings_view(v@) =~= strs_view(items@.take(i as int)));
    }
    assert(items@.take(items@.len() as int) =~= items@);
    v
}

/// A whole iteration hands out every element: [`Value::iter`] starts at index
/// 0 with end `coll_len`, each [`VecIter::next`] below the end advances by one
/// and gives `Ok` of the element exactly when `get` would, and every index
/// below the end of a vector or list is one `get` accepts. So the iterator
/// yields `coll_len` items, the `k`-th being `Ok` of element `k`, then `None`.
pub proof fn law_iteration_yields_every_element(v: Datum)
    requires
        v is Vector || v is List,
    ensures
        forall|k: int| 0 <= k < coll_len(v) ==> #[trigger] get_ok(v, k),
{
}

/// Iterator over a vector's or list's boxed elements.
pub struct VecIter<'a> {
    value: &'a Value,
    idx: usize,
    len: usize,
}

impl<'a> VecIter<'a> {
    pub closed spec fn value(&self) -> &'a Value {
        self.value
    }

    pub closed spec fn index(&self) -> nat {
        self.idx as nat
    }

    pub closed spec fn end(&self) -> nat {
        self.len as nat
    }

    /// The next boxed element, or `None` once every element was handed out.
    pub fn next(&mut self) -> (r: Option<Result<Value>>)
        ensures
            final(self).value() == old(self).value(),
            final(self).end() == old(self).end(),
            old(self).index() >= old(self).end() ==> r is None && final(self).index() == old(self).index(),
            old(self).index() < old(self).end() ==> final(self).index() == old(self).index() + 1
                && (r matches Some(x) && (x is Ok <==> get_ok(old(self).value()@, old(self).index() as int))
                && (x matches Ok(v) ==> v@ == item(old(self).value()@, old(self).index() as int))),
    {
        if self.idx >= self.len {
            return None;
        }
        let r = self.value.get(self.idx);
        self.idx += 1;
        Some(r)
    }
}

/// An empty vector has the kind it was asked for: for every vector type id
/// `t`, the empty storage is of type `t` and holds no cells, so a vector built
/// by [`Value::empty_vec`] has type tag `t`.
pub proof fn law_empty_vector_has_its_type(t: i8)
    requires
        is_vector_code(t as int),
    ensures
        cells_code(empty_cells(t)) == t,
        cells_len(empty_cells(t)) == 0,
        type_tag(Datum::Vector(empty_cells(t), Seq::empty())) == t,
{
}

} // verus!
