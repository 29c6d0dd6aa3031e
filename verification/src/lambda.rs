//! User-defined lambda functions.
//!
//! [`Fn`] wraps a lambda value. Build one from Rayfall source with [`Fn::new`],
//! or take one already bound in the global environment with [`Fn::from_global`].
//! [`Fn::bind`] binds it under a generated name (once) so a query can refer to
//! it by name.

use vstd::prelude::*;
use crate::error::{ErrorCode, RayError, Result};
use crate::runtime::Runtime;
use crate::types::RAY_LAMBDA;
use crate::ops::{operation_name, Operation};
use crate::value::{
    lemma_view_seq_from_elems, lemma_view_seq_index, lemma_view_seq_len, type_tag, view_seq, Datum, Obj,
    Scalar, Value,
};

verus! {

/// `char::is_whitespace`: the Unicode `White_Space` characters.
pub open spec fn is_whitespace(c: char) -> bool {
    let u = c as u32;
    (9 <= u <= 13) || u == 32 || u == 0x85 || u == 0xa0 || u == 0x1680 || (0x2000 <= u <= 0x200a)
        || u == 0x2028 || u == 0x2029 || u == 0x202f || u == 0x205f || u == 0x3000
}

/// `str::trim_start`: the text without its leading whitespace.
pub open spec fn trim_start_of(s: Seq<char>) -> Seq<char>
    decreases s.len(),
{
    if s.len() > 0 && is_whitespace(s[0]) {
        trim_start_of(s.drop_first())
    } else {
        s
    }
}

/// Trimming stops at the first character that is not whitespace.
proof fn lemma_trim_start_at(s: Seq<char>, i: int)
    requires
        0 <= i <= s.len(),
        forall|j: int| 0 <= j < i ==> is_whitespace(#[trigger] s[j]),
        i == s.len() || !is_whitespace(s[i]),
    ensures
        trim_start_of(s) == s.subrange(i, s.len() as int),
    decreases i,
{
    if i == 0 {
        assert(s.subrange(0, s.len() as int) =~= s);
    } else {
        let t = s.drop_first();
        assert(is_whitespace(s[0]));
        assert forall|j: int| 0 <= j < i - 1 implies is_whitespace(#[trigger] t[j]) by {
            assert(t[j] == s[j + 1]);
        }
        if i - 1 < t.len() {
            assert(t[i - 1] == s[i]);
        }
        lemma_trim_start_at(t, i - 1);
        assert(t.subrange(i - 1, t.len() as int) =~= s.subrange(i, s.len() as int));
    }
}

fn char_is_whitespace(c: char) -> (b: bool)
    ensures
        b == is_whitespace(c),
{
    let u = c as u32;
    (9 <= u && u <= 13) || u == 32 || u == 0x85 || u == 0xa0 || u == 0x1680 || (0x2000 <= u && u
        <= 0x200a) || u == 0x2028 || u == 0x2029 || u == 0x202f || u == 0x205f || u == 0x3000
}

/// `s` without its leading whitespace.
fn trim_start(s: &str) -> (r: &str)
    ensures
        r@ == trim_start_of(s@),
{
    let n = s.unicode_len();
    let mut i: usize = 0;
    while i < n && char_is_whitespace(s.get_char(i))
        invariant
            i <= n,
            n == s@.len(),
            forall|j: int| 0 <= j < i ==> is_whitespace(#[trigger] s@[j]),
        decreases n - i,
    {
        i += 1;
    }
    proof { lemma_trim_start_at(s@, i as int); }
    s.substring_char(i, n)
}

/// The text begins with `(fn`.
pub open spec fn starts_with_fn(s: Seq<char>) -> bool {
    s.len() >= 3 && s[0] == '(' && s[1] == 'f' && s[2] == 'n'
}

/// Source accepted by [`Fn::new`]: a `(fn …)` expression, leading whitespace allowed.
pub open spec fn is_fn_source(s: Seq<char>) -> bool {
    starts_with_fn(trim_start_of(s))
}

/// Does already trimmed source text begin with `(fn`?
pub fn is_fn_expression(t: &str) -> (b: bool)
    ensures
        b == starts_with_fn(t@),
{
    let n = t.unicode_len();
    n >= 3 && t.get_char(0) == '(' && t.get_char(1) == 'f' && t.get_char(2) == 'n'
}

/// Lower-case hexadecimal digit of `d < 16`.
pub open spec fn hex_digit(d: int) -> char {
    if d < 10 { ((48 + d) as u8) as char } else { ((87 + d) as u8) as char }
}

/// Lower-case hexadecimal text of `n`, without leading zeros.
pub open spec fn hex_of(n: nat) -> Seq<char>
    decreases n,
{
    if n < 16 {
        seq![hex_digit(n as int)]
    } else {
        hex_of(n / 16).push(hex_digit((n % 16) as int))
    }
}

/// The name a generated binding gets for counter value `n`.
pub open spec fn bind_name_of(n: nat) -> Seq<char> {
    "__rustfn_"@ + hex_of(n)
}

fn hex_char(d: u64) -> (c: &'static str)
    requires
        d < 16,
    ensures
        c@ == seq![hex_digit(d as int)],
{
    proof {
        reveal_strlit("0");
        reveal_strlit("1");
        reveal_strlit("2");
        reveal_strlit("3");
        reveal_strlit("4");
        reveal_strlit("5");
        reveal_strlit("6");
        reveal_strlit("7");
        reveal_strlit("8");
        reveal_strlit("9");
        reveal_strlit("a");
        reveal_strlit("b");
        reveal_strlit("c");
        reveal_strlit("d");
        reveal_strlit("e");
        reveal_strlit("f");
    }
    let c = if d == 0 {
        "0"
    } else if d == 1 {
        "1"
    } else if d == 2 {
        "2"
    } else if d == 3 {
        "3"
    } else if d == 4 {
        "4"
    } else if d == 5 {
        "5"
    } else if d == 6 {
        "6"
    } else if d == 7 {
        "7"
    } else if d == 8 {
        "8"
    } else if d == 9 {
        "9"
    } else if d == 10 {
        "a"
    } else if d == 11 {
        "b"
    } else if d == 12 {
        "c"
    } else if d == 13 {
        "d"
    } else if d == 14 {
        "e"
    } else {
        "f"
    };
    assert(c@ =~= seq![hex_digit(d as int)]);
    c
}

/// Append the lower-case hexadecimal text of `n` to `out`.
fn push_hex(out: &mut String, n: u64)
    ensures
        final(out)@ == old(out)@ + hex_of(n as nat),
    decreases n,
{
    if n < 16 {
        out.append(hex_char(n));
    } else {
        push_hex(out, n / 16);
        out.append(hex_char(n % 16));
        assert(old(out)@ + hex_of(n as nat) =~= old(out)@ + hex_of((n / 16) as nat) + seq![
            hex_digit((n % 16) as int),
        ]);
    }
}

/// The name a generated binding gets for counter value `n`: `__rustfn_` and `n` in hex.
pub fn bind_name_for(n: u64) -> (r: String)
    ensures
        r@ == bind_name_of(n as nat),
{
    let mut s = String::from_str("__rustfn_");
    push_hex(&mut s, n);
    s
}

/// A compiled lambda function.
#[derive(Debug)]
pub struct Fn {
    value: Value,
    source: Option<String>,
    bound_name: Option<String>,
}

impl Fn {
    /// The lambda value.
    pub closed spec fn value_view(&self) -> Datum {
        self.value@
    }

    /// The source text, when built from one.
    pub closed spec fn source_view(&self) -> Option<Seq<char>> {
        match self.source {
            Some(s) => Some(s@),
            None => None,
        }
    }

    /// The global name this lambda is bound under, if any.
    pub closed spec fn bound_view(&self) -> Option<Seq<char>> {
        match self.bound_name {
            Some(s) => Some(s@),
            None => None,
        }
    }

    /// A lambda from Rayfall source, e.g. `"(fn [x] (* x x))"`.
    ///
    /// Errors unless the source, leading whitespace aside, starts with `(fn`.
    /// The source is kept as it is, not evaluated: whether its body is
    /// well formed is for the engine that evaluates it to say.
    pub fn new(source: &str) -> (r: Result<Fn>)
        ensures
            r is Ok <==> is_fn_source(source@),
            r matches Ok(f) ==> f.value_view() == Datum::Lambda(source@) && f.source_view() == Some(
                source@,
            ) && f.bound_view() is None,
            r matches Err(e) ==> e.code == ErrorCode::Domain,
    {
        if !is_fn_expression(trim_start(source)) {
            return Err(RayError::new(ErrorCode::Domain, "Fn::new: source must be a `(fn …)` expression"));
        }
        let value = Value::from_obj(Obj::Lambda(source.to_string()));
        Ok(Fn { value, source: Some(source.to_string()), bound_name: None })
    }

    /// Wrap an existing lambda value.
    pub fn from_value(value: Value) -> (r: Result<Fn>)
        ensures
            r is Ok <==> type_tag(value@) == RAY_LAMBDA,
            r matches Ok(f) ==> f.value_view() == value@ && f.source_view() is None && f.bound_view() is None,
            r matches Err(e) ==> e.code == ErrorCode::Type,
    {
        if value.type_code() != RAY_LAMBDA {
            return Err(RayError::new(ErrorCode::Type, "Fn::from_value: expected a lambda"));
        }
        Ok(Fn { value, source: None, bound_name: None })
    }

    /// The lambda bound in the global environment under `name`, reusing that binding.
    pub fn from_global(rt: &Runtime, name: &str) -> (r: Result<Fn>)
        ensures
            r is Ok <==> (rt@.contains_key(name@) && type_tag(rt@[name@]) == RAY_LAMBDA),
            r matches Ok(f) ==> f.value_view() == rt@[name@] && f.source_view() is None
                && f.bound_view() == Some(name@),
            r matches Err(e) ==> e.code == (if rt@.contains_key(name@) {
                ErrorCode::Type
            } else {
                ErrorCode::NotFound
            }),
    {
        let v = match rt.get_global(name) {
            Ok(v) => v,
            Err(e) => {
                return Err(e);
            },
        };
        match Fn::from_value(v) {
            Ok(mut f) => {
                f.bound_name = Some(name.to_string());
                Ok(f)
            },
            Err(e) => Err(e),
        }
    }

    /// Borrow the lambda value.
    pub fn as_value(&self) -> (v: &Value)
        ensures
            v@ == self.value_view(),
    {
        &self.value
    }

    /// The source this lambda was built from, if any.
    pub fn source(&self) -> (r: Option<&str>)
        ensures
            r matches Some(s) ==> self.source_view() == Some(s@),
            r is None ==> self.source_view() is None,
    {
        match &self.source {
            Some(s) => Some(s.as_str()),
            None => None,
        }
    }

    /// The form that calls the lambda directly on `args`: the list of the
    /// lambda followed by the arguments (no global binding is needed).
    pub fn call_expr(&self, args: &[Value]) -> (r: Value)
        ensures
            r@ == Datum::List(seq![self.value_view()] + view_seq(args@)),
    {
        let mut items: Vec<Value> = Vec::new();
        items.push(self.value.clone());
        let mut i: usize = 0;
        while i < args.len()
            invariant
                i <= args@.len(),
                items@.len() == i + 1,
                items@[0]@ == self.value_view(),
                forall|j: int| 0 <= j < i ==> #[trigger] items@[j + 1]@ == args@[j]@,
            decreases args@.len() - i,
        {
            items.push(args[i].clone());
            i += 1;
        }
        proof {
            let d = seq![self.value_view()] + view_seq(args@);
            lemma_view_seq_len(args@);
            assert forall|j: int| 0 <= j < items@.len() implies #[trigger] items@[j]@ == d[j] by {
                if j > 0 {
                    let k = j - 1;
                    lemma_view_seq_index(args@, k);
                    assert(items@[k + 1]@ == args@[k]@);
                    assert(d[j] == view_seq(args@)[k]);
                }
            }
            lemma_view_seq_from_elems(items@, d);
        }
        Value::from_obj(Obj::List(items))
    }

    /// The form that asks for the lambda's metadata: `(meta <lambda>)`, the
    /// name `meta` unquoted.
    pub fn meta_expr(&self) -> (r: Value)
        ensures
            r@ == Datum::List(seq![Datum::Atom(Scalar::Sym(operation_name(Operation::Meta), false)), self.value_view()]),
    {
        let meta = Operation::Meta;
        let name = meta.as_str();
        let op = Value::name_ref(name);
        let mut items: Vec<Value> = Vec::new();
        items.push(op);
        items.push(self.value.clone());
        proof {
            let d = seq![Datum::Atom(Scalar::Sym(operation_name(Operation::Meta), false)), self.value_view()];
            assert forall|j: int| 0 <= j < items@.len() implies #[trigger] items@[j]@ == d[j] by {}
            lemma_view_seq_from_elems(items@, d);
        }
        Value::from_obj(Obj::List(items))
    }

    /// The text this lambda displays as: its source, or `lambda` without one.
    pub fn display_string(&self) -> (r: String)
        ensures
            r@ == (match self.source_view() {
                Some(s) => s,
                None => "lambda"@,
            }),
    {
        match &self.source {
            Some(s) => s.clone(),
            None => "lambda".to_string(),
        }
    }

    /// Bind the lambda into the global environment under a generated name,
    /// once; later calls return the same name.
    pub fn bind(&mut self, rt: &mut Runtime) -> (r: Result<String>)
        requires
            old(self).bound_view() is None ==> old(rt).bind_counter() < u64::MAX,
        ensures
            r is Ok,
            final(self).value_view() == old(self).value_view(),
            final(self).source_view() == old(self).source_view(),
            old(self).bound_view() matches Some(n) ==> (r matches Ok(s) && s@ == n
                && final(self).bound_view() == Some(n) && final(rt)@ == old(rt)@
                && final(rt).bind_counter() == old(rt).bind_counter()),
            old(self).bound_view() is None ==> (r matches Ok(s) && s@ == bind_name_of(
                old(rt).bind_counter() as nat,
            ) && final(self).bound_view() == Some(s@) && final(rt)@ == old(rt)@.insert(
                s@,
                old(self).value_view(),
            ) && final(rt).bind_counter() == old(rt).bind_counter() + 1),
    {
        match &self.bound_name {
            Some(n) => {
                return Ok(n.clone());
            },
            None => {},
        }
        let id = rt.next_bind_id();
        let name = bind_name_for(id);
        let _ = rt.set_global(name.as_str(), &self.value);
        self.bound_name = Some(name.clone());
        Ok(name)
    }
}

impl Clone for Fn {
    fn clone(&self) -> (r: Self)
        ensures
            r.value_view() == self.value_view(),
            r.source_view() == self.source_view(),
            r.bound_view() == self.bound_view(),
    {
        let source = match &self.source {
            Some(s) => Some(s.clone()),
            None => None,
        };
        let bound_name = match &self.bound_name {
            Some(s) => Some(s.clone()),
            None => None,
        };
        Fn { value: self.value.clone(), source, bound_name }
    }
}

} // verus!
