//! Deep equality of values.

use vstd::prelude::*;
use crate::value::{
    flags_view, guids_view, lemma_view_seq_from_elems, lemma_view_seq_index,
    lemma_view_seq_len, strings_view, view_seq, Atom, Column, Datum, Obj, Value,
};

verus! {

fn eq_u8s(a: &Vec<u8>, b: &Vec<u8>) -> (r: bool)
    ensures
        r == (a@ == b@),
{
    if a.len() != b.len() {
        return false;
    }
    let mut i: usize = 0;
    while i < a.len()
        invariant
            i <= a@.len(),
            a@.len() == b@.len(),
            forall|j: int| 0 <= j < i ==> a@[j] == b@[j],
        decreases a@.len() - i,
    {
        if a[i] != b[i] {
            return false;
        }
        i += 1;
    }
    assert(a@ =~= b@);
    true
}

fn eq_i16s(a: &Vec<i16>, b: &Vec<i16>) -> (r: bool)
    ensures
        r == (a@ == b@),
{
    if a.len() != b.len() {
        return false;
    }
    let mut i: usize = 0;
    while i < a.len()
        invariant
            i <= a@.len(),
            a@.len() == b@.len(),
            forall|j: int| 0 <= j < i ==> a@[j] == b@[j],
        decreases a@.len() - i,
    {
        if a[i] != b[i] {
            return false;
        }
        i += 1;
    }
    assert(a@ =~= b@);
    true
}

fn eq_i32s(a: &Vec<i32>, b: &Vec<i32>) -> (r: bool)
    ensures
        r == (a@ == b@),
{
    if a.len() != b.len() {
        return false;
    }
    let mut i: usize = 0;
    while i < a.len()
        invariant
            i <= a@.len(),
            a@.len() == b@.len(),
            forall|j: int| 0 <= j < i ==> a@[j] == b@[j],
        decreases a@.len() - i,
    {
        if a[i] != b[i] {
            return false;
        }
        i += 1;
    }
    assert(a@ =~= b@);
    true
}

fn eq_i64s(a: &Vec<i64>, b: &Vec<i64>) -> (r: bool)
    ensures
        r == (a@ == b@),
{
    if a.len() != b.len() {
        return false;
    }
    let mut i: usize = 0;
    while i < a.len()
        invariant
            i <= a@.len(),
            a@.len() == b@.len(),
            forall|j: int| 0 <= j < i ==> a@[j] == b@[j],
        decreases a@.len() - i,
    {
        if a[i] != b[i] {
            return false;
        }
        i += 1;
    }
    assert(a@ =~= b@);
    true
}

fn eq_u32s(a: &Vec<u32>, b: &Vec<u32>) -> (r: bool)
    ensures
        r == (a@ == b@),
{
    if a.len() != b.len() {
        return false;
    }
    let mut i: usize = 0;
    while i < a.len()
        invariant
            i <= a@.len(),
            a@.len() == b@.len(),
            forall|j: int| 0 <= j < i ==> a@[j] == b@[j],
        decreases a@.len() - i,
    {
        if a[i] != b[i] {
            return false;
        }
        i += 1;
    }
    assert(a@ =~= b@);
    true
}

fn eq_u64s(a: &Vec<u64>, b: &Vec<u64>) -> (r: bool)
    ensures
        r == (a@ == b@),
{
    if a.len() != b.len() {
        return false;
    }
    let mut i: usize = 0;
    while i < a.len()
        invariant
            i <= a@.len(),
            a@.len() == b@.len(),
            forall|j: int| 0 <= j < i ==> a@[j] == b@[j],
        decreases a@.len() - i,
    {
        if a[i] != b[i] {
            return false;
        }
        i += 1;
    }
    assert(a@ =~= b@);
    true
}

fn eq_guid(a: &[u8; 16], b: &[u8; 16]) -> (r: bool)
    ensures
        r == (a@ == b@),
{
    let mut i: usize = 0;
    while i < 16
        invariant
            i <= 16,
            a@.len() == 16,
            b@.len() == 16,
            forall|j: int| 0 <= j < i ==> a@[j] == b@[j],
        decreases 16 - i,
    {
        if a[i] != b[i] {
            return false;
        }
        i += 1;
    }
    assert(a@ =~= b@);
    true
}

fn eq_guids(a: &Vec<[u8; 16]>, b: &Vec<[u8; 16]>) -> (r: bool)
    ensures
        r == (guids_view(a@) == guids_view(b@)),
{
    if a.len() != b.len() {
        assert(guids_view(a@).len() != guids_view(b@).len());
        return false;
    }
    let mut i: usize = 0;
    while i < a.len()
        invariant
            i <= a@.len(),
            a@.len() == b@.len(),
            forall|j: int| 0 <= j < i ==> a@[j]@ == b@[j]@,
        decreases a@.len() - i,
    {
        if !eq_guid(&a[i], &b[i]) {
            assert(guids_view(a@)[i as int] != guids_view(b@)[i as int]);
            return false;
        }
        i += 1;
    }
    assert(guids_view(a@) =~= guids_view(b@));
    true
}

fn eq_strings(a: &Vec<String>, b: &Vec<String>) -> (r: bool)
    ensures
        r == (strings_view(a@) == strings_view(b@)),
{
    if a.len() != b.len() {
        assert(strings_view(a@).len() != strings_view(b@).len());
        return false;
    }
    let mut i: usize = 0;
    while i < a.len()
        invariant
            i <= a@.len(),
            a@.len() == b@.len(),
            forall|j: int| 0 <= j < i ==> a@[j]@ == b@[j]@,
        decreases a@.len() - i,
    {
        if a[i] != b[i] {
            assert(strings_view(a@)[i as int] != strings_view(b@)[i as int]);
            return false;
        }
        i += 1;
    }
    assert(strings_view(a@) =~= strings_view(b@));
    true
}

fn eq_flags(a: &Vec<bool>, b: &Vec<bool>, n: usize) -> (r: bool)
    ensures
        r == (flags_view(a@, n as nat) == flags_view(b@, n as nat)),
{
    let mut i: usize = 0;
    while i < n
        invariant
            i <= n,
            forall|j: int| 0 <= j < i ==> flags_view(a@, n as nat)[j] == flags_view(b@, n as nat)[j],
        decreases n - i,
    {
        let x = i < a.len() && a[i];
        let y = i < b.len() && b[i];
        if x != y {
            assert(flags_view(a@, n as nat)[i as int] != flags_view(b@, n as nat)[i as int]);
            return false;
        }
        i += 1;
    }
    assert(flags_view(a@, n as nat) =~= flags_view(b@, n as nat));
    true
}

fn eq_atoms(a: &Atom, b: &Atom) -> (r: bool)
    ensures
        r == (a@ == b@),
{
    match (a, b) {
        (Atom::Bool(x), Atom::Bool(y)) => *x == *y,
        (Atom::U8(x), Atom::U8(y)) => *x == *y,
        (Atom::I16(x), Atom::I16(y)) => *x == *y,
        (Atom::W32(k, x), Atom::W32(l, y)) => *k == *l && *x == *y,
        (Atom::W64(k, x), Atom::W64(l, y)) => *k == *l && *x == *y,
        (Atom::F32(x), Atom::F32(y)) => *x == *y,
        (Atom::F64(x), Atom::F64(y)) => *x == *y,
        (Atom::Guid(x), Atom::Guid(y)) => eq_guid(x, y),
        (Atom::Sym(s, p), Atom::Sym(t, q)) => *p == *q && *s == *t,
        (Atom::Str(s), Atom::Str(t)) => *s == *t,
        _ => false,
    }
}

fn eq_columns(a: &Column, b: &Column) -> (r: bool)
    ensures
        r == (a@ == b@),
{
    match (a, b) {
        (Column::Bytes(k, x), Column::Bytes(l, y)) => *k == *l && eq_u8s(x, y),
        (Column::I16(x), Column::I16(y)) => eq_i16s(x, y),
        (Column::W32(k, x), Column::W32(l, y)) => *k == *l && eq_i32s(x, y),
        (Column::W64(k, x), Column::W64(l, y)) => *k == *l && eq_i64s(x, y),
        (Column::F32(x), Column::F32(y)) => eq_u32s(x, y),
        (Column::F64(x), Column::F64(y)) => eq_u64s(x, y),
        (Column::Guid(x), Column::Guid(y)) => eq_guids(x, y),
        (Column::Text(k, x), Column::Text(l, y)) => *k == *l && eq_strings(x, y),
        _ => false,
    }
}

/// `view_seq` of two sequences agree exactly when they agree elementwise.
pub proof fn lemma_view_seq_eq(a: Seq<Value>, b: Seq<Value>)
    ensures
        view_seq(a) == view_seq(b) <==> (a.len() == b.len() && forall|i: int|
            0 <= i < a.len() ==> #[trigger] a[i]@ == b[i]@),
{
    lemma_view_seq_len(a);
    lemma_view_seq_len(b);
    if a.len() == b.len() && forall|i: int| 0 <= i < a.len() ==> #[trigger] a[i]@ == b[i]@ {
        let d = Seq::new(a.len(), |i: int| a[i]@);
        lemma_view_seq_from_elems(a, d);
        lemma_view_seq_from_elems(b, d);
    }
    if view_seq(a) == view_seq(b) {
        assert forall|i: int| 0 <= i < a.len() implies #[trigger] a[i]@ == b[i]@ by {
            lemma_view_seq_index(a, i);
            lemma_view_seq_index(b, i);
        }
    }
}

fn eq_values(a: &Vec<Value>, b: &Vec<Value>, Ghost(owner): Ghost<Value>) -> (r: bool)
    requires
        forall|i: int| 0 <= i < a@.len() ==> decreases_to!(owner => #[trigger] a@[i]),
    ensures
        r == (view_seq(a@) == view_seq(b@)),
    decreases owner, 0nat,
{
    proof { lemma_view_seq_eq(a@, b@); }
    if a.len() != b.len() {
        return false;
    }
    let mut i: usize = 0;
    while i < a.len()
        invariant
            i <= a@.len(),
            a@.len() == b@.len(),
            forall|j: int| 0 <= j < i ==> #[trigger] a@[j]@ == b@[j]@,
            forall|i: int| 0 <= i < a@.len() ==> decreases_to!(owner => #[trigger] a@[i]),
        decreases a@.len() - i,
    {
        if !a[i].equals(&b[i]) {
            proof {
                lemma_view_seq_eq(a@, b@);
                assert(a@[i as int]@ != b@[i as int]@);
            }
            return false;
        }
        i += 1;
    }
    true
}

impl Value {
    /// Deep equality: the two values have the same content.
    pub fn equals(&self, other: &Value) -> (b: bool)
        ensures
            b == (self@ == other@),
        decreases self,
    {
        let o: &Obj = self.obj();
        let p: &Obj = other.obj();
        proof { self.lemma_children_decrease(); }
        match (o, p) {
            (Obj::Null, Obj::Null) => true,
            (Obj::Atom(a), Obj::Atom(b)) => eq_atoms(a, b),
            (Obj::Vector(c1, f1), Obj::Vector(c2, f2)) => {
                if !eq_columns(c1, c2) {
                    return false;
                }
                let n = c1.len();
                eq_flags(f1, f2, n)
            },
            (Obj::List(s1), Obj::List(s2)) => eq_values(s1, s2, Ghost(*self)),
            (Obj::Dict(k1, v1), Obj::Dict(k2, v2)) => {
                k1.equals(k2) && v1.equals(v2)
            },
            (Obj::Table(n1, c1), Obj::Table(n2, c2)) => {
                eq_strings(n1, n2) && eq_values(c1, c2, Ghost(*self))
            },
            (Obj::Lambda(s), Obj::Lambda(t)) => *s == *t,
            (Obj::Builtin(s, x), Obj::Builtin(t, y)) => *x == *y && *s == *t,
            _ => false,
        }
    }
}

} // verus!
