//! [`Value`]: a handle to one object of the value model (atom, vector, list,
//! dictionary, table, function object or the null singleton).
//!
//! A `Value` is one pointer wide: it owns a boxed object. Its meaning is given
//! by its view, a [`Datum`], over which every contract of the library is
//! stated.

use vstd::prelude::*;
use std::marker::PhantomData;
use std::rc::Rc;
use crate::types::{
    byte_code, text_code, w32_code, w64_code, Arity, ByteKind, TextKind, W32Kind, W64Kind,
    ATTR_HAS_NULLS, ATTR_QUOTED, RAY_BOOL, RAY_DATE, RAY_DICT, RAY_F32, RAY_F64, RAY_GUID,
    RAY_I16, RAY_I32, RAY_I64, RAY_LAMBDA, RAY_LIST, RAY_NULL, RAY_STR, RAY_SYM, RAY_TABLE,
    RAY_TIME, RAY_TIMESTAMP, RAY_U8, RAY_UNARY, RAY_VARY,
};

verus! {

/// An atom's payload. Floats are held by their IEEE-754 bits.
#[derive(Debug)]
pub enum Atom {
    Bool(bool),
    U8(u8),
    I16(i16),
    W32(W32Kind, i32),
    W64(W64Kind, i64),
    F32(u32),
    F64(u64),
    Guid([u8; 16]),
    /// A symbol and whether it is quoted (a literal) rather than a name reference.
    Sym(String, bool),
    Str(String),
}

/// A homogeneous vector's storage.
#[derive(Debug)]
pub enum Column {
    Bytes(ByteKind, Vec<u8>),
    I16(Vec<i16>),
    W32(W32Kind, Vec<i32>),
    W64(W64Kind, Vec<i64>),
    F32(Vec<u32>),
    F64(Vec<u64>),
    Guid(Vec<[u8; 16]>),
    Text(TextKind, Vec<String>),
}

/// The object a [`Value`] owns.
#[derive(Debug)]
pub enum Obj {
    Null,
    Atom(Atom),
    /// Storage and per-element null flags (a missing flag reads as not null).
    Vector(Column, Vec<bool>),
    List(Vec<Value>),
    Dict(Value, Value),
    /// Column names and column values.
    Table(Vec<String>, Vec<Value>),
    /// A compiled lambda, carrying its source text.
    Lambda(String),
    /// A native function object bound under a name.
    Builtin(String, Arity),
}

/// A handle to an object of the value model.
#[derive(Debug)]
pub struct Value {
    obj: Box<Obj>,
    /// Keeps values on the thread that owns the runtime (`!Send`, `!Sync`).
    not_send: PhantomData<Rc<()>>,
}

/// The mathematical content of an atom.
pub enum Scalar {
    Bool(bool),
    U8(u8),
    I16(i16),
    W32(W32Kind, i32),
    W64(W64Kind, i64),
    F32(u32),
    F64(u64),
    Guid(Seq<u8>),
    Sym(Seq<char>, bool),
    Str(Seq<char>),
}

/// The mathematical content of a vector's storage.
pub enum Cells {
    Bytes(ByteKind, Seq<u8>),
    I16(Seq<i16>),
    W32(W32Kind, Seq<i32>),
    W64(W64Kind, Seq<i64>),
    F32(Seq<u32>),
    F64(Seq<u64>),
    Guid(Seq<Seq<u8>>),
    Text(TextKind, Seq<Seq<char>>),
}

/// The mathematical content of a value.
pub enum Datum {
    Null,
    Atom(Scalar),
    /// Cells and null flags; the flags are as long as the cells.
    Vector(Cells, Seq<bool>),
    List(Seq<Datum>),
    Dict(Box<Datum>, Box<Datum>),
    Table(Seq<Seq<char>>, Seq<Datum>),
    Lambda(Seq<char>),
    Builtin(Seq<char>, Arity),
}

pub open spec fn guids_view(s: Seq<[u8; 16]>) -> Seq<Seq<u8>> {
    s.map_values(|x: [u8; 16]| x@)
}

/// The all-zero GUID, the GUID kind's null.
pub open spec fn zero_guid() -> Seq<u8> {
    Seq::new(16, |i: int| 0u8)
}

pub open spec fn strings_view(s: Seq<String>) -> Seq<Seq<char>> {
    s.map_values(|x: String| x@)
}

impl View for Atom {
    type V = Scalar;

    open spec fn view(&self) -> Scalar {
        match *self {
            Atom::Bool(b) => Scalar::Bool(b),
            Atom::U8(x) => Scalar::U8(x),
            Atom::I16(x) => Scalar::I16(x),
            Atom::W32(k, x) => Scalar::W32(k, x),
            Atom::W64(k, x) => Scalar::W64(k, x),
            Atom::F32(x) => Scalar::F32(x),
            Atom::F64(x) => Scalar::F64(x),
            Atom::Guid(g) => Scalar::Guid(g@),
            Atom::Sym(s, q) => Scalar::Sym(s@, q),
            Atom::Str(s) => Scalar::Str(s@),
        }
    }
}

impl View for Column {
    type V = Cells;

    open spec fn view(&self) -> Cells {
        match *self {
            Column::Bytes(k, v) => Cells::Bytes(k, v@),
            Column::I16(v) => Cells::I16(v@),
            Column::W32(k, v) => Cells::W32(k, v@),
            Column::W64(k, v) => Cells::W64(k, v@),
            Column::F32(v) => Cells::F32(v@),
            Column::F64(v) => Cells::F64(v@),
            Column::Guid(v) => Cells::Guid(guids_view(v@)),
            Column::Text(k, v) => Cells::Text(k, strings_view(v@)),
        }
    }
}

/// Number of cells.
pub open spec fn cells_len(c: Cells) -> nat {
    match c {
        Cells::Bytes(_, s) => s.len(),
        Cells::I16(s) => s.len(),
        Cells::W32(_, s) => s.len(),
        Cells::W64(_, s) => s.len(),
        Cells::F32(s) => s.len(),
        Cells::F64(s) => s.len(),
        Cells::Guid(s) => s.len(),
        Cells::Text(_, s) => s.len(),
    }
}

/// Null flags of a stored vector, read as long as its cells.
pub open spec fn flags_view(n: Seq<bool>, len: nat) -> Seq<bool> {
    Seq::new(len, |i: int| i < n.len() && n[i])
}

/// The views of a sequence of values.
pub open spec fn view_seq(s: Seq<Value>) -> Seq<Datum>
    decreases s,
{
    if s.len() == 0 {
        Seq::empty()
    } else {
        view_seq(s.drop_last()).push(s.last().view())
    }
}

impl Obj {
    pub open spec fn view_obj(self) -> Datum
        decreases self,
    {
        match self {
            Obj::Null => Datum::Null,
            Obj::Atom(a) => Datum::Atom(a@),
            Obj::Vector(c, n) => Datum::Vector(c@, flags_view(n@, cells_len(c@))),
            Obj::List(items) => Datum::List(view_seq(items@)),
            Obj::Dict(k, v) => Datum::Dict(Box::new(k.view()), Box::new(v.view())),
            Obj::Table(names, cols) => Datum::Table(strings_view(names@), view_seq(cols@)),
            Obj::Lambda(s) => Datum::Lambda(s@),
            Obj::Builtin(s, a) => Datum::Builtin(s@, a),
        }
    }
}

impl View for Value {
    type V = Datum;

    closed spec fn view(&self) -> Datum
        decreases self,
    {
        (*self.obj).view_obj()
    }
}

pub proof fn lemma_view_seq_len(s: Seq<Value>)
    ensures
        view_seq(s).len() == s.len(),
    decreases s.len(),
{
    if s.len() > 0 {
        lemma_view_seq_len(s.drop_last());
        assert(view_seq(s) == view_seq(s.drop_last()).push(s.last()@));
    }
}

pub proof fn lemma_view_seq_index(s: Seq<Value>, i: int)
    requires
        0 <= i < s.len(),
    ensures
        view_seq(s).len() == s.len(),
        view_seq(s)[i] == s[i]@,
    decreases s.len(),
{
    lemma_view_seq_len(s);
    assert(view_seq(s) == view_seq(s.drop_last()).push(s.last()@));
    if i < s.len() - 1 {
        lemma_view_seq_index(s.drop_last(), i);
    }
}

/// `view_seq` is determined by the elements' views.
pub proof fn lemma_view_seq_from_elems(s: Seq<Value>, d: Seq<Datum>)
    requires
        s.len() == d.len(),
        forall|i: int| 0 <= i < s.len() ==> #[trigger] s[i]@ == d[i],
    ensures
        view_seq(s) == d,
    decreases s.len(),
{
    if s.len() > 0 {
        lemma_view_seq_from_elems(s.drop_last(), d.drop_last());
        assert(view_seq(s) == view_seq(s.drop_last()).push(s.last()@));
        assert(d == d.drop_last().push(d.last()));
    } else {
        assert(d =~= Seq::<Datum>::empty());
    }
}

pub proof fn lemma_view_seq_push(s: Seq<Value>, v: Value)
    ensures
        view_seq(s.push(v)) == view_seq(s).push(v@),
{
    assert(s.push(v).drop_last() == s);
}

// ---- the spec vocabulary over views ----

/// Tag of a scalar's kind.
pub open spec fn scalar_code(a: Scalar) -> i8 {
    match a {
        Scalar::Bool(_) => RAY_BOOL,
        Scalar::U8(_) => RAY_U8,
        Scalar::I16(_) => RAY_I16,
        Scalar::W32(k, _) => w32_code(k),
        Scalar::W64(k, _) => w64_code(k),
        Scalar::F32(_) => RAY_F32,
        Scalar::F64(_) => RAY_F64,
        Scalar::Guid(_) => RAY_GUID,
        Scalar::Sym(_, _) => RAY_SYM,
        Scalar::Str(_) => RAY_STR,
    }
}

/// Tag of a storage's element kind.
pub open spec fn cells_code(c: Cells) -> i8 {
    match c {
        Cells::Bytes(k, _) => byte_code(k),
        Cells::I16(_) => RAY_I16,
        Cells::W32(k, _) => w32_code(k),
        Cells::W64(k, _) => w64_code(k),
        Cells::F32(_) => RAY_F32,
        Cells::F64(_) => RAY_F64,
        Cells::Guid(_) => RAY_GUID,
        Cells::Text(k, _) => text_code(k),
    }
}

/// The signed type tag: negative for atoms, positive for vectors, 0 for lists.
pub open spec fn type_tag(d: Datum) -> i8 {
    match d {
        Datum::Null => RAY_NULL,
        Datum::Atom(a) => (-scalar_code(a)) as i8,
        Datum::Vector(c, _) => cells_code(c),
        Datum::List(_) => RAY_LIST,
        Datum::Dict(_, _) => RAY_DICT,
        Datum::Table(_, _) => RAY_TABLE,
        Datum::Lambda(_) => RAY_LAMBDA,
        Datum::Builtin(_, Arity::Unary) => RAY_UNARY,
        Datum::Builtin(_, Arity::Vary) => RAY_VARY,
    }
}

/// `|type tag|`.
pub open spec fn abs_tag(d: Datum) -> i8 {
    let t = type_tag(d);
    if t < 0 { (-t) as i8 } else { t }
}

/// Element / pair count of vectors, lists and dictionaries; 0 for the rest.
pub open spec fn coll_len(d: Datum) -> nat
    decreases d,
{
    match d {
        Datum::Vector(c, _) => cells_len(c),
        Datum::List(s) => s.len(),
        Datum::Dict(k, _) => coll_len(*k),
        _ => 0,
    }
}

/// Cell `i` of a storage, as an atom's content (symbols come back quoted).
pub open spec fn cell_scalar(c: Cells, i: int) -> Scalar {
    match c {
        Cells::Bytes(ByteKind::Bool, s) => Scalar::Bool(s[i] != 0),
        Cells::Bytes(ByteKind::U8, s) => Scalar::U8(s[i]),
        Cells::I16(s) => Scalar::I16(s[i]),
        Cells::W32(k, s) => Scalar::W32(k, s[i]),
        Cells::W64(k, s) => Scalar::W64(k, s[i]),
        Cells::F32(s) => Scalar::F32(s[i]),
        Cells::F64(s) => Scalar::F64(s[i]),
        Cells::Guid(s) => Scalar::Guid(s[i]),
        Cells::Text(TextKind::Sym, s) => Scalar::Sym(s[i], true),
        Cells::Text(TextKind::Str, s) => Scalar::Str(s[i]),
    }
}

/// Element `i` is flagged null.
pub open spec fn null_at(d: Datum, i: int) -> bool {
    match d {
        Datum::Vector(_, n) => 0 <= i < n.len() && n[i],
        _ => false,
    }
}

/// Element `i` of a vector or list, boxed: a null element is the null singleton.
pub open spec fn item(d: Datum, i: int) -> Datum {
    match d {
        Datum::Vector(c, n) => if n[i] { Datum::Null } else { Datum::Atom(cell_scalar(c, i)) },
        Datum::List(s) => s[i],
        _ => Datum::Null,
    }
}

/// IEEE-754 single precision NaN, by its bits.
pub open spec fn f32_bits_nan(b: u32) -> bool {
    (b / 0x80_0000) % 256 == 255 && b % 0x80_0000 != 0
}

/// IEEE-754 double precision NaN, by its bits.
pub open spec fn f64_bits_nan(b: u64) -> bool {
    (b / 0x10_0000_0000_0000) % 2048 == 2047 && b % 0x10_0000_0000_0000 != 0
}

/// The scalar is its kind's null sentinel.
pub open spec fn scalar_is_null(a: Scalar) -> bool {
    match a {
        Scalar::Bool(_) => false,
        Scalar::U8(_) => false,
        Scalar::I16(x) => x == i16::MIN,
        Scalar::W32(_, x) => x == i32::MIN,
        Scalar::W64(_, x) => x == i64::MIN,
        Scalar::F32(b) => f32_bits_nan(b),
        Scalar::F64(b) => f64_bits_nan(b),
        Scalar::Guid(g) => g == zero_guid(),
        Scalar::Sym(s, _) => s.len() == 0,
        Scalar::Str(s) => s.len() == 0,
    }
}

/// The untyped null, or an atom holding its kind's null sentinel.
pub open spec fn atom_is_null(d: Datum) -> bool {
    match d {
        Datum::Null => true,
        Datum::Atom(a) => scalar_is_null(a),
        _ => false,
    }
}

/// Atoms: scalars and function objects.
pub open spec fn is_atom_datum(d: Datum) -> bool {
    d is Atom || d is Lambda || d is Builtin
}

/// The attribute byte.
pub open spec fn attrs_of(d: Datum) -> u8 {
    match d {
        Datum::Vector(_, n) => if n.contains(true) { ATTR_HAS_NULLS } else { 0 },
        Datum::Atom(Scalar::Sym(_, true)) => ATTR_QUOTED,
        _ => 0,
    }
}

// ---- exec ----

impl Clone for Atom {
    fn clone(&self) -> (r: Self)
        ensures
            r@ == self@,
    {
        match self {
            Atom::Bool(b) => Atom::Bool(*b),
            Atom::U8(x) => Atom::U8(*x),
            Atom::I16(x) => Atom::I16(*x),
            Atom::W32(k, x) => Atom::W32(*k, *x),
            Atom::W64(k, x) => Atom::W64(*k, *x),
            Atom::F32(x) => Atom::F32(*x),
            Atom::F64(x) => Atom::F64(*x),
            Atom::Guid(g) => Atom::Guid(*g),
            Atom::Sym(s, q) => Atom::Sym(s.clone(), *q),
            Atom::Str(s) => Atom::Str(s.clone()),
        }
    }
}

impl Clone for Column {
    fn clone(&self) -> (r: Self)
        ensures
            r@ == self@,
    {
        match self {
            Column::Bytes(k, v) => {
                let c = v.clone();
                assert(c@ =~= v@);
                Column::Bytes(*k, c)
            },
            Column::I16(v) => {
                let c = v.clone();
                assert(c@ =~= v@);
                Column::I16(c)
            },
            Column::W32(k, v) => {
                let c = v.clone();
                assert(c@ =~= v@);
                Column::W32(*k, c)
            },
            Column::W64(k, v) => {
                let c = v.clone();
                assert(c@ =~= v@);
                Column::W64(*k, c)
            },
            Column::F32(v) => {
                let c = v.clone();
                assert(c@ =~= v@);
                Column::F32(c)
            },
            Column::F64(v) => {
                let c = v.clone();
                assert(c@ =~= v@);
                Column::F64(c)
            },
            Column::Guid(v) => {
                let mut c: Vec<[u8; 16]> = Vec::new();
                let mut i: usize = 0;
                while i < v.len()
                    invariant
                        i <= v.len(),
                        c@ == v@.take(i as int),
                    decreases v.len() - i,
                {
                    c.push(v[i]);
                    i += 1;
                    assert(c@ =~= v@.take(i as int));
                }
                assert(c@ =~= v@);
                Column::Guid(c)
            },
            Column::Text(k, v) => {
                let c = v.clone();
                assert(c@ =~= v@);
                Column::Text(*k, c)
            },
        }
    }
}

impl Column {
    /// Number of cells.
    pub fn len(&self) -> (n: usize)
        ensures
            n == cells_len(self@),
    {
        match self {
            Column::Bytes(_, v) => v.len(),
            Column::I16(v) => v.len(),
            Column::W32(_, v) => v.len(),
            Column::W64(_, v) => v.len(),
            Column::F32(v) => v.len(),
            Column::F64(v) => v.len(),
            Column::Guid(v) => v.len(),
            Column::Text(_, v) => v.len(),
        }
    }

    /// Tag of the element kind.
    pub fn code(&self) -> (t: i8)
        ensures
            t == cells_code(self@),
    {
        match self {
            Column::Bytes(ByteKind::Bool, _) => RAY_BOOL,
            Column::Bytes(ByteKind::U8, _) => RAY_U8,
            Column::I16(_) => RAY_I16,
            Column::W32(W32Kind::I32, _) => RAY_I32,
            Column::W32(W32Kind::Date, _) => RAY_DATE,
            Column::W32(W32Kind::Time, _) => RAY_TIME,
            Column::W64(W64Kind::I64, _) => RAY_I64,
            Column::W64(W64Kind::Timestamp, _) => RAY_TIMESTAMP,
            Column::F32(_) => RAY_F32,
            Column::F64(_) => RAY_F64,
            Column::Guid(_) => RAY_GUID,
            Column::Text(TextKind::Sym, _) => RAY_SYM,
            Column::Text(TextKind::Str, _) => RAY_STR,
        }
    }
}

/// Copy the null flags of a vector of `len` cells into a flag vector of exactly that length.
pub fn normalized_flags(n: &Vec<bool>, len: usize) -> (r: Vec<bool>)
    ensures
        r@ == flags_view(n@, len as nat),
{
    let mut r: Vec<bool> = Vec::new();
    let mut i: usize = 0;
    while i < len
        invariant
            i <= len,
            r@ == flags_view(n@, len as nat).take(i as int),
        decreases len - i,
    {
        let f = i < n.len() && n[i];
        r.push(f);
        i += 1;
        assert(r@ =~= flags_view(n@, len as nat).take(i as int));
    }
    assert(r@ =~= flags_view(n@, len as nat));
    r
}

pub proof fn lemma_flags_idem(n: Seq<bool>, len: nat)
    requires
        n.len() == len,
    ensures
        flags_view(n, len) == n,
{
    assert(flags_view(n, len) =~= n);
}

impl Clone for Value {
    fn clone(&self) -> (r: Self)
        ensures
            r@ == self@,
        decreases self,
    {
        let o: &Obj = &self.obj;
        match o {
            Obj::Null => Value { obj: Box::new(Obj::Null), not_send: PhantomData },
            Obj::Atom(a) => Value { obj: Box::new(Obj::Atom(a.clone())), not_send: PhantomData },
            Obj::Vector(c, n) => {
                let n2 = n.clone();
                assert(n2@ =~= n@);
                Value { obj: Box::new(Obj::Vector(c.clone(), n2)), not_send: PhantomData }
            },
            Obj::List(items) => {
                let out = clone_values(items, Ghost(*self));
                Value { obj: Box::new(Obj::List(out)), not_send: PhantomData }
            },
            Obj::Dict(k, v) => {
                assert(decreases_to!(*self => *self.obj));
                Value { obj: Box::new(Obj::Dict(k.clone(), v.clone())), not_send: PhantomData }
            },
            Obj::Table(names, cols) => {
                let names2 = names.clone();
                assert(names2@ =~= names@);
                let out = clone_values(cols, Ghost(*self));
                Value { obj: Box::new(Obj::Table(names2, out)), not_send: PhantomData }
            },
            Obj::Lambda(s) => Value { obj: Box::new(Obj::Lambda(s.clone())), not_send: PhantomData },
            Obj::Builtin(s, a) => Value { obj: Box::new(Obj::Builtin(s.clone(), *a)), not_send: PhantomData },
        }
    }
}

/// Clone each value of a vector owned (transitively) by `owner`.
fn clone_values(items: &Vec<Value>, Ghost(owner): Ghost<Value>) -> (out: Vec<Value>)
    requires
        forall|i: int| 0 <= i < items@.len() ==> decreases_to!(owner => #[trigger] items@[i]),
    ensures
        view_seq(out@) == view_seq(items@),
        out@.len() == items@.len(),
    decreases owner, 0nat,
{
    let mut out: Vec<Value> = Vec::new();
    let mut i: usize = 0;
    while i < items.len()
        invariant
            i <= items.len(),
            out.len() == i,
            forall|j: int| 0 <= j < i ==> #[trigger] out@[j]@ == items@[j]@,
            forall|i: int| 0 <= i < items@.len() ==> decreases_to!(owner => #[trigger] items@[i]),
        decreases items.len() - i,
    {
        let c = items[i].clone();
        out.push(c);
        i += 1;
    }
    proof {
        let d = Seq::new(items@.len(), |j: int| items@[j]@);
        lemma_view_seq_from_elems(out@, d);
        lemma_view_seq_from_elems(items@, d);
    }
    out
}


impl Value {
    /// Wrap an object.
    pub(crate) fn from_obj(o: Obj) -> (v: Value)
        ensures
            v@ == o.view_obj(),
    {
        Value { obj: Box::new(o), not_send: PhantomData }
    }

    /// The owned object.
    pub(crate) closed spec fn spec_obj(&self) -> Obj {
        *self.obj
    }

    /// Borrow the object.
    pub(crate) fn obj(&self) -> (o: &Obj)
        ensures
            o.view_obj() == self@,
            *o == self.spec_obj(),
    {
        &self.obj
    }

    /// The values inside a value's object come before it in the decreases order.
    pub(crate) proof fn lemma_children_decrease(&self)
        ensures
            self.spec_obj() matches Obj::Dict(k, x) ==> decreases_to!(*self => k) && decreases_to!(*self => x),
            self.spec_obj() matches Obj::List(items) ==> forall|i: int|
                0 <= i < items@.len() ==> decreases_to!(*self => #[trigger] items@[i]),
            self.spec_obj() matches Obj::Table(_, cols) ==> forall|i: int|
                0 <= i < cols@.len() ==> decreases_to!(*self => #[trigger] cols@[i]),
    {
        assert(decreases_to!(*self => *self.obj));
    }

    /// Replace the object.
    pub(crate) fn set_obj(&mut self, o: Obj)
        ensures
            final(self)@ == o.view_obj(),
    {
        self.obj = Box::new(o);
    }

    /// Move the object out, leaving the null singleton behind.
    pub(crate) fn take_obj(&mut self) -> (o: Obj)
        ensures
            o.view_obj() == old(self)@,
            final(self)@ == Datum::Null,
    {
        let mut b: Box<Obj> = Box::new(Obj::Null);
        std::mem::swap(&mut b, &mut self.obj);
        *b
    }

    /// The untyped null singleton.
    pub fn null() -> (v: Value)
        ensures
            v@ == Datum::Null,
    {
        Value { obj: Box::new(Obj::Null), not_send: PhantomData }
    }

    /// The signed type tag (negative = atom, positive = vector, 0 = list, ...).
    pub fn type_code(&self) -> (t: i8)
        ensures
            t == type_tag(self@),
    {
        match &*self.obj {
            Obj::Null => RAY_NULL,
            Obj::Atom(a) => match a {
                Atom::Bool(_) => -RAY_BOOL,
                Atom::U8(_) => -RAY_U8,
                Atom::I16(_) => -RAY_I16,
                Atom::W32(W32Kind::I32, _) => -RAY_I32,
                Atom::W32(W32Kind::Date, _) => -RAY_DATE,
                Atom::W32(W32Kind::Time, _) => -RAY_TIME,
                Atom::W64(W64Kind::I64, _) => -RAY_I64,
                Atom::W64(W64Kind::Timestamp, _) => -RAY_TIMESTAMP,
                Atom::F32(_) => -RAY_F32,
                Atom::F64(_) => -RAY_F64,
                Atom::Guid(_) => -RAY_GUID,
                Atom::Sym(_, _) => -RAY_SYM,
                Atom::Str(_) => -RAY_STR,
            },
            Obj::Vector(c, _) => c.code(),
            Obj::List(_) => RAY_LIST,
            Obj::Dict(_, _) => RAY_DICT,
            Obj::Table(_, _) => RAY_TABLE,
            Obj::Lambda(_) => RAY_LAMBDA,
            Obj::Builtin(_, Arity::Unary) => RAY_UNARY,
            Obj::Builtin(_, Arity::Vary) => RAY_VARY,
        }
    }

    /// `|type|`, the canonical type id.
    pub fn abs_type(&self) -> (t: i8)
        ensures
            t == abs_tag(self@),
            t >= 0,
    {
        let t = self.type_code();
        if t < 0 { -t } else { t }
    }

    /// True for atoms (scalars and function objects).
    pub fn is_atom(&self) -> (b: bool)
        ensures
            b == is_atom_datum(self@),
    {
        match &*self.obj {
            Obj::Atom(_) => true,
            Obj::Lambda(_) => true,
            Obj::Builtin(_, _) => true,
            _ => false,
        }
    }

    /// True for homogeneous vectors.
    pub fn is_vec(&self) -> (b: bool)
        ensures
            b == self@ is Vector,
    {
        match &*self.obj {
            Obj::Vector(_, _) => true,
            _ => false,
        }
    }

    /// True if this is the null singleton.
    pub fn is_null(&self) -> (b: bool)
        ensures
            b == (self@ == Datum::Null),
    {
        match &*self.obj {
            Obj::Null => true,
            _ => false,
        }
    }

    /// Element / pair count of vectors, lists and dictionaries (0 for the rest).
    pub fn len(&self) -> (n: usize)
        ensures
            n == coll_len(self@),
        decreases self,
    {
        match &*self.obj {
            Obj::Vector(c, _) => c.len(),
            Obj::List(items) => {
                proof { lemma_view_seq_len(items@); }
                items.len()
            },
            Obj::Dict(k, _) => {
                assert(decreases_to!(*self => *self.obj));
                k.len()
            },
            _ => 0,
        }
    }

    /// The count of [`Value::len`] as a signed integer (saturating at `i64::MAX`).
    pub fn len_raw(&self) -> (n: i64)
        ensures
            n == if coll_len(self@) <= i64::MAX { coll_len(self@) as int } else { i64::MAX as int },
    {
        let n = self.len();
        let m = n as u64;
        if m <= 0x7fff_ffff_ffff_ffffu64 { m as i64 } else { i64::MAX }
    }

    /// True if the collection has zero elements.
    pub fn is_empty(&self) -> (b: bool)
        ensures
            b == (coll_len(self@) == 0),
    {
        self.len() == 0
    }

    /// True for the untyped null and for atoms holding their kind's null sentinel.
    pub fn is_atom_null(&self) -> (b: bool)
        ensures
            b == atom_is_null(self@),
    {
        match &*self.obj {
            Obj::Null => true,
            Obj::Atom(a) => match a {
                Atom::Bool(_) => false,
                Atom::U8(_) => false,
                Atom::I16(x) => *x == i16::MIN,
                Atom::W32(_, x) => *x == i32::MIN,
                Atom::W64(_, x) => *x == i64::MIN,
                Atom::F32(b) => (*b / 0x80_0000) % 256 == 255 && *b % 0x80_0000 != 0,
                Atom::F64(b) => (*b / 0x10_0000_0000_0000) % 2048 == 2047 && *b % 0x10_0000_0000_0000
                    != 0,
                Atom::Guid(g) => {
                    let mut i: usize = 0;
                    let mut zero = true;
                    while i < 16
                        invariant
                            i <= 16,
                            zero == (forall|j: int| 0 <= j < i ==> g@[j] == 0u8),
                        decreases 16 - i,
                    {
                        if g[i] != 0 {
                            zero = false;
                        }
                        i += 1;
                    }
                    assert(zero ==> g@ =~= zero_guid());
                    assert(!zero ==> g@ != zero_guid());
                    zero
                },
                Atom::Sym(s, _) => s.as_str().is_empty(),
                Atom::Str(s) => s.as_str().is_empty(),
            },
            _ => false,
        }
    }

    /// The attribute byte: `ATTR_HAS_NULLS` for a vector with a null element,
    /// `ATTR_QUOTED` for a quoted symbol atom, 0 otherwise.
    pub fn attrs(&self) -> (a: u8)
        ensures
            a == attrs_of(self@),
    {
        match &*self.obj {
            Obj::Vector(c, n) => {
                let len = c.len();
                let mut i: usize = 0;
                let mut any = false;
                while i < len
                    invariant
                        i <= len,
                        len == cells_len(c@),
                        any == (exists|j: int| 0 <= j < i && #[trigger] flags_view(n@, len as nat)[j]),
                    decreases len - i,
                {
                    assert(flags_view(n@, len as nat)[i as int] == (i < n@.len() && n@[i as int]));
                    if i < n.len() && n[i] {
                        any = true;
                    }
                    i += 1;
                }
                let ghost f = flags_view(n@, len as nat);
                assert(any == f.contains(true)) by {
                    if f.contains(true) {
                        let j = choose|j: int| 0 <= j < f.len() && f[j] == true;
                        assert(f[j]);
                    }
                }
                if any { ATTR_HAS_NULLS } else { 0 }
            },
            Obj::Atom(Atom::Sym(_, q)) => if *q { ATTR_QUOTED } else { 0 },
            _ => 0,
        }
    }
}


} // verus!
