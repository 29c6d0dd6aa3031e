//! Heterogeneous lists: ordered sequences of boxed values.

use vstd::prelude::*;
use crate::error::{ErrorCode, RayError, Result};
use crate::value::{lemma_view_seq_from_elems, lemma_view_seq_push, view_seq, Datum, Obj, Value};

verus! {

impl Value {
    /// A list holding copies of `items`.
    pub fn list(items: &[Value]) -> (r: Value)
        ensures
            r@ == Datum::List(view_seq(items@)),
    {
        let mut out: Vec<Value> = Vec::new();
        let mut i: usize = 0;
        while i < items.len()
            invariant
                i <= items@.len(),
                out@.len() == i,
                forall|j: int| 0 <= j < i ==> #[trigger] out@[j]@ == items@[j]@,
            decreases items@.len() - i,
        {
            out.push(items[i].clone());
            i += 1;
        }
        proof {
            let d = Seq::new(items@.len(), |j: int| items@[j]@);
            lemma_view_seq_from_elems(out@, d);
            lemma_view_seq_from_elems(items@, d);
        }
        Value::from_obj(Obj::List(out))
    }

    /// An empty list.
    pub fn empty_list(capacity: i64) -> (r: Value)
        requires
            capacity >= 0,
        ensures
            r@ == Datum::List(Seq::empty()),
    {
        let v: Vec<Value> = Vec::new();
        assert(view_seq(v@) =~= Seq::<Datum>::empty());
        Value::from_obj(Obj::List(v))
    }

    /// True if this value is a heterogeneous list.
    pub fn is_list(&self) -> (b: bool)
        ensures
            b == self@ is List,
    {
        match self.obj() {
            Obj::List(_) => true,
            _ => false,
        }
    }

    /// Append a copy of `item` to a list.
    pub fn list_push(&mut self, item: &Value) -> (r: Result<()>)
        ensures
            r is Ok <==> old(self)@ is List,
            r is Ok ==> final(self)@ == Datum::List(old(self)@->List_0.push(item@)),
            r matches Err(e) ==> final(self)@ == old(self)@ && e.code == ErrorCode::Type,
    {
        if !self.is_list() {
            return Err(RayError::new(ErrorCode::Type, "list_push: value is not a list"));
        }
        let o = self.take_obj();
        match o {
            Obj::List(mut items) => {
                let c = item.clone();
                proof { lemma_view_seq_push(items@, c); }
                items.push(c);
                self.set_obj(Obj::List(items));
                Ok(())
            },
            other => {
                self.set_obj(other);
                Err(RayError::new(ErrorCode::Type, "list_push: value is not a list"))
            },
        }
    }
}

} // verus!
