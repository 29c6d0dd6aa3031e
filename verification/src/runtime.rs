//! Runtime lifecycle and the global environment.
//!
//! The engine permits one live runtime per process. [`Host`] is the
//! process-wide lifecycle state: whether a heap is mapped, whether its guard was
//! dropped while handles still point into it, and how many handles are out.
//! [`Runtime`] is the guard of a live runtime and owns the global environment.

use vstd::prelude::*;
use std::marker::PhantomData;
use std::rc::Rc;
use crate::error::{ErrorCode, RayError, Result};
use crate::value::{Datum, Value};

verus! {

/// The lifecycle of the process's engine heap.
pub struct Lifecycle {
    /// A heap is mapped.
    pub live: bool,
    /// The guard was dropped while handles were out; the last handle unmaps.
    pub pending: bool,
    /// Live handles into the heap.
    pub handles: nat,
}

/// Process-wide lifecycle state.
#[derive(Debug)]
pub struct Host {
    live: bool,
    pending: bool,
    handles: u64,
}

impl View for Host {
    type V = Lifecycle;

    closed spec fn view(&self) -> Lifecycle {
        Lifecycle { live: self.live, pending: self.pending, handles: self.handles as nat }
    }
}

/// A runtime can be called into: a heap is mapped and its guard is alive.
pub open spec fn live_spec(l: Lifecycle) -> bool {
    l.live && !l.pending
}

/// The state after the heap is unmapped.
pub open spec fn torn_down(l: Lifecycle) -> Lifecycle {
    Lifecycle { live: false, pending: false, handles: l.handles }
}

/// The state after a runtime is created.
pub open spec fn started(l: Lifecycle) -> Lifecycle {
    Lifecycle { live: true, ..l }
}

/// The state after a handle is taken.
pub open spec fn acquired(l: Lifecycle) -> Lifecycle {
    Lifecycle { handles: l.handles + 1, ..l }
}

/// The state after a handle is given back: the last handle of a heap whose
/// guard is gone unmaps it.
pub open spec fn handle_released(l: Lifecycle) -> Lifecycle {
    if l.handles == 1 && l.pending {
        torn_down(Lifecycle { handles: 0, ..l })
    } else {
        Lifecycle { handles: (l.handles - 1) as nat, ..l }
    }
}

/// The state after the guard is dropped: unmapped with no handle out,
/// otherwise left to the last handle.
pub open spec fn ended(l: Lifecycle) -> Lifecycle {
    if l.handles == 0 {
        torn_down(l)
    } else {
        Lifecycle { pending: true, ..l }
    }
}

impl Host {
    /// A process where no runtime was created yet.
    pub fn new() -> (h: Host)
        ensures
            h@ == (Lifecycle { live: false, pending: false, handles: 0 }),
    {
        Host { live: false, pending: false, handles: 0 }
    }

    /// Take a handle on the heap, keeping it mapped.
    pub fn acquire_handle(&mut self)
        requires
            old(self)@.handles < u64::MAX,
        ensures
            final(self)@ == acquired(old(self)@),
    {
        self.handles = self.handles + 1;
    }

    /// Give a handle back; returns whether this was the last handle of a
    /// heap whose guard is gone, in which case the heap is unmapped now.
    pub fn release_handle(&mut self) -> (teardown: bool)
        requires
            old(self)@.handles > 0,
        ensures
            teardown == (old(self)@.handles == 1 && old(self)@.pending),
            final(self)@ == handle_released(old(self)@),
    {
        let last = self.handles == 1;
        self.handles = self.handles - 1;
        if last && self.pending {
            self.pending = false;
            self.live = false;
            true
        } else {
            false
        }
    }

    /// Take a handle on the live heap for `value`: while the returned
    /// [`Held`] is not released, the heap stays mapped, even past the
    /// runtime's guard. Building a held value requires a live runtime.
    pub fn hold(&mut self, value: Value) -> (h: Held)
        requires
            live_spec(old(self)@),
            old(self)@.handles < u64::MAX,
        ensures
            h@ == value@,
            final(self)@ == acquired(old(self)@),
    {
        self.acquire_handle();
        Held { value }
    }

    /// Give back the handle of a held value, returning the value and whether
    /// this unmapped the heap (the last handle of a heap whose guard is gone).
    pub fn release(&mut self, held: Held) -> (r: (Value, bool))
        requires
            old(self)@.handles > 0,
        ensures
            r.0@ == held@,
            r.1 == (old(self)@.handles == 1 && old(self)@.pending),
            final(self)@ == handle_released(old(self)@),
    {
        let teardown = self.release_handle();
        (held.value, teardown)
    }

    /// Handles currently out.
    pub fn handles(&self) -> (n: u64)
        ensures
            n == self@.handles,
    {
        self.handles
    }
}

/// Is there a runtime that can be called into?
///
/// False when none was created and when a guard was dropped while handles
/// outlived it.
pub fn is_live(host: &Host) -> (b: bool)
    ensures
        b == live_spec(host@),
{
    host.live && !host.pending
}

/// A value holding a handle on the engine heap.
#[derive(Debug)]
pub struct Held {
    value: Value,
}

impl View for Held {
    type V = Datum;

    closed spec fn view(&self) -> Datum {
        self.value@
    }
}

impl Held {
    /// The held value; it stays readable for as long as it is held.
    pub fn value(&self) -> (v: &Value)
        ensures
            v@ == self@,
    {
        &self.value
    }
}

/// One global binding.
#[derive(Debug)]
pub struct Binding {
    name: String,
    value: Value,
}

/// The guard of the live runtime, owning the global environment.
#[derive(Debug)]
pub struct Runtime {
    entries: Vec<Binding>,
    next_bind: u64,
    /// Keeps the runtime on the thread that created it (`!Send`, `!Sync`).
    not_send: PhantomData<Rc<()>>,
}

/// The global environment: the value bound to each name.
pub open spec fn env_of(entries: Seq<Binding>) -> Map<Seq<char>, Datum> {
    Map::new(
        |k: Seq<char>| exists|i: int| 0 <= i < entries.len() && entries[i].key() == k,
        |k: Seq<char>| entries[choose|i: int| 0 <= i < entries.len() && entries[i].key() == k].datum(),
    )
}

/// No name occurs twice.
pub open spec fn names_unique(entries: Seq<Binding>) -> bool {
    forall|i: int, j: int| 0 <= i < j < entries.len() ==> entries[i].key() != entries[j].key()
}

impl Binding {
    pub closed spec fn key(&self) -> Seq<char> {
        self.name@
    }

    pub closed spec fn datum(&self) -> Datum {
        self.value@
    }
}

impl View for Runtime {
    type V = Map<Seq<char>, Datum>;

    closed spec fn view(&self) -> Map<Seq<char>, Datum> {
        env_of(self.entries@)
    }
}

impl Runtime {
    #[verifier::type_invariant]
    spec fn inv(self) -> bool {
        names_unique(self.entries@)
    }

    /// The counter behind the names of generated bindings.
    pub closed spec fn bind_counter(&self) -> u64 {
        self.next_bind
    }

    /// Create the process runtime.
    ///
    /// Errors if one is live, or if a previous runtime's heap is still mapped
    /// because handles outlived its guard.
    pub fn new(host: &mut Host) -> (r: Result<Runtime>)
        ensures
            r is Ok <==> !old(host)@.live,
            r matches Ok(rt) ==> final(host)@ == started(old(host)@) && rt@
                == Map::<Seq<char>, Datum>::empty() && rt.bind_counter() == 1,
            r matches Err(e) ==> final(host)@ == old(host)@ && e.code == ErrorCode::Runtime && e.message@
                == (if old(host)@.pending {
                "the previous runtime's heap is still mapped: handles outlive it"@
            } else {
                "a rayforce runtime is already live in this process"@
            }),
    {
        if host.live {
            if host.pending {
                return Err(
                    RayError::new(
                        ErrorCode::Runtime,
                        "the previous runtime's heap is still mapped: handles outlive it",
                    ),
                );
            }
            return Err(RayError::new(ErrorCode::Runtime, "a rayforce runtime is already live in this process"));
        }
        host.live = true;
        let rt = Runtime { entries: Vec::new(), next_bind: 1, not_send: PhantomData };
        assert(rt@ =~= Map::<Seq<char>, Datum>::empty());
        Ok(rt)
    }

    /// Drop the guard: unmap the heap now if no handle is out (returns `true`),
    /// otherwise leave that to the last handle.
    pub fn end(self, host: &mut Host) -> (teardown: bool)
        ensures
            teardown == (old(host)@.handles == 0),
            final(host)@ == ended(old(host)@),
    {
        if host.handles == 0 {
            host.live = false;
            host.pending = false;
            true
        } else {
            host.pending = true;
            false
        }
    }

    /// Run `f` with a fresh live runtime, tearing it down on the way out.
    ///
    /// Errors, without calling `f`, when a runtime is already live: scopes
    /// cannot be nested.
    pub fn scope<T, F: FnOnce(&mut Host, &mut Runtime) -> Result<T>>(host: &mut Host, f: F) -> (r: Result<T>)
        requires
            forall|h: &mut Host, rt: &mut Runtime| #[trigger] f.requires((h, rt)),
        ensures
            old(host)@.live ==> (r matches Err(e) && e.code == ErrorCode::Runtime && final(host)@ == old(host)@),
            !old(host)@.live ==> !final(host)@.live || final(host)@.pending,
            !old(host)@.live ==> exists|h: &mut Host, rt: &mut Runtime|
                (*h)@.live && (*rt)@ == Map::<Seq<char>, Datum>::empty() && call_ensures(f, (h, rt), r),
    {
        let mut rt = match Runtime::new(host) {
            Ok(rt) => rt,
            Err(_) => {
                return Err(RayError::new(ErrorCode::Runtime, "Runtime::scope cannot be nested: a runtime is already live"));
            },
        };
        let r = f(host, &mut rt);
        rt.end(host);
        r
    }

    /// Bind `value` to the global name `name`.
    pub fn set_global(&mut self, name: &str, value: &Value) -> (r: Result<()>)
        ensures
            r is Ok,
            final(self)@ == old(self)@.insert(name@, value@),
            final(self).bind_counter() == old(self).bind_counter(),
    {
        set_global(self, name, value)
    }

    /// Look up a global binding by name.
    pub fn get_global(&self, name: &str) -> (r: Result<Value>)
        ensures
            r is Ok <==> self@.contains_key(name@),
            r matches Ok(v) ==> v@ == self@[name@],
            r matches Err(e) ==> e.code == ErrorCode::NotFound,
    {
        get_global(self, name)
    }

    /// Hand out the next number for a generated binding name.
    pub fn next_bind_id(&mut self) -> (n: u64)
        requires
            old(self).bind_counter() < u64::MAX,
        ensures
            n == old(self).bind_counter(),
            final(self).bind_counter() == n + 1,
            final(self)@ == old(self)@,
    {
        proof { use_type_invariant(&*self); }
        let n = self.next_bind;
        self.next_bind = n + 1;
        n
    }
}

/// Bind `value` to the global name `name` (copying it).
pub fn set_global(rt: &mut Runtime, name: &str, value: &Value) -> (r: Result<()>)
    ensures
        r is Ok,
        final(rt)@ == old(rt)@.insert(name@, value@),
        final(rt).bind_counter() == old(rt).bind_counter(),
{
    proof { use_type_invariant(&*rt); }
    let key = name.to_string();
    let n = rt.entries.len();
    let ghost old_entries = rt.entries@;
    let ghost before = rt@;
    let mut i: usize = 0;
    while i < n
        invariant
            i <= n,
            n == rt.entries@.len(),
            rt.entries@ == old_entries,
            names_unique(old_entries),
            before == env_of(old_entries),
            before == old(rt)@,
            rt.bind_counter() == old(rt).bind_counter(),
            key@ == name@,
            forall|j: int| 0 <= j < i ==> #[trigger] rt.entries@[j].key() != name@,
        decreases n - i,
    {
        if rt.entries[i].name == key {
            assert(old_entries[i as int].key() == name@);
            let b = Binding { name: key, value: value.clone() };
            let mut entries: Vec<Binding> = Vec::new();
            std::mem::swap(&mut entries, &mut rt.entries);
            entries.set(i, b);
            proof {
                assert forall|p: int| 0 <= p < entries@.len() implies #[trigger] entries@[p].key() == old_entries[p].key() by {}
                assert forall|p: int, q: int| 0 <= p < q < entries@.len() implies entries@[p].key() != entries@[q].key() by {
                    assert(entries@[p].key() == old_entries[p].key());
                    assert(entries@[q].key() == old_entries[q].key());
                }
            }
            rt.entries = entries;
            proof {
                assert forall|k: Seq<char>| #[trigger] rt@.contains_key(k) == before.insert(name@, value@).contains_key(k) by {
                    if rt@.contains_key(k) {
                        let c = choose|m: int| 0 <= m < rt.entries@.len() && rt.entries@[m].key() == k;
                        assert(old_entries[c].key() == k);
                    }
                    if before.contains_key(k) {
                        let c = choose|m: int| 0 <= m < old_entries.len() && old_entries[m].key() == k;
                        assert(rt.entries@[c].key() == k);
                    }
                    if k == name@ {
                        assert(rt.entries@[i as int].key() == k);
                    }
                }
                assert forall|k: Seq<char>| rt@.contains_key(k) implies #[trigger] rt@[k] == before.insert(name@, value@)[k] by {
                    let c = choose|m: int| 0 <= m < rt.entries@.len() && rt.entries@[m].key() == k;
                    if k == name@ {
                        assert(c == i);
                    } else {
                        let d = choose|m: int| 0 <= m < old_entries.len() && old_entries[m].key() == k;
                        assert(rt.entries@[d].key() == k);
                        assert(c == d);
                    }
                }
                assert(rt@ =~= before.insert(name@, value@));
            }
            return Ok(());
        }
        i += 1;
    }
    let b = Binding { name: key, value: value.clone() };
    let mut entries: Vec<Binding> = Vec::new();
    std::mem::swap(&mut entries, &mut rt.entries);
    entries.push(b);
    proof {
        assert forall|p: int, q: int| 0 <= p < q < entries@.len() implies entries@[p].key() != entries@[q].key() by {
            if q < n {
                assert(old_entries[p].key() != old_entries[q].key());
            }
        }
    }
    rt.entries = entries;
    proof {
        assert forall|k: Seq<char>| #[trigger] rt@.contains_key(k) == before.insert(name@, value@).contains_key(k) by {
            if rt@.contains_key(k) && k != name@ {
                let c = choose|m: int| 0 <= m < rt.entries@.len() && rt.entries@[m].key() == k;
                assert(c < old_entries.len());
                assert(old_entries[c].key() == k);
            }
            if before.contains_key(k) {
                let c = choose|m: int| 0 <= m < old_entries.len() && old_entries[m].key() == k;
                assert(rt.entries@[c].key() == k);
            }
            if k == name@ {
                assert(rt.entries@[n as int].key() == k);
            }
        }
        assert forall|k: Seq<char>| rt@.contains_key(k) implies #[trigger] rt@[k] == before.insert(name@, value@)[k] by {
            let c = choose|m: int| 0 <= m < rt.entries@.len() && rt.entries@[m].key() == k;
            if k == name@ {
                assert(c == n);
            } else {
                let d = choose|m: int| 0 <= m < old_entries.len() && old_entries[m].key() == k;
                assert(rt.entries@[d].key() == k);
                assert(c == d);
            }
        }
        assert(rt@ =~= before.insert(name@, value@));
    }
    Ok(())
}

/// Look up a global binding (a copy of the bound value).
pub fn get_global(rt: &Runtime, name: &str) -> (r: Result<Value>)
    ensures
        r is Ok <==> rt@.contains_key(name@),
        r matches Ok(v) ==> v@ == rt@[name@],
        r matches Err(e) ==> e.code == ErrorCode::NotFound,
{
    proof { use_type_invariant(rt); }
    let key = name.to_string();
    let n = rt.entries.len();
    let mut i: usize = 0;
    while i < n
        invariant
            i <= n,
            n == rt.entries@.len(),
            names_unique(rt.entries@),
            key@ == name@,
            forall|j: int| 0 <= j < i ==> #[trigger] rt.entries@[j].key() != name@,
        decreases n - i,
    {
        if rt.entries[i].name == key {
            proof {
                let c = choose|m: int| 0 <= m < rt.entries@.len() && rt.entries@[m].key() == name@;
                assert(c == i);
            }
            return Ok(rt.entries[i].value.clone());
        }
        i += 1;
    }
    Err(RayError::new(ErrorCode::NotFound, "global not found"))
}

/// Reading a name right after binding it gives the bound value; every other
/// name reads as before.
pub proof fn law_get_after_set(env: Map<Seq<char>, Datum>, name: Seq<char>, v: Datum, other: Seq<char>)
    ensures
        env.insert(name, v).contains_key(name),
        env.insert(name, v)[name] == v,
        other != name ==> (env.insert(name, v).contains_key(other) == env.contains_key(other)),
        other != name && env.contains_key(other) ==> env.insert(name, v)[other] == env[other],
{
}

/// A held value keeps the heap mapped past its runtime's guard: in a fresh
/// process, create a runtime and hold a value; dropping the guard leaves no
/// runtime to call into, but the heap stays mapped, so a new runtime is
/// refused; releasing the value unmaps the heap, and a new runtime can start.
pub proof fn law_held_value_keeps_heap_mapped(fresh: Lifecycle)
    requires
        fresh == (Lifecycle { live: false, pending: false, handles: 0 }),
    ensures
        ({
            let running = started(fresh);
            let holding = acquired(running);
            let guard_gone = ended(holding);
            let released = handle_released(guard_gone);
            &&& live_spec(running)
            &&& live_spec(holding)
            &&& !live_spec(guard_gone)
            &&& guard_gone.live
            &&& guard_gone.handles == 1
            &&& !released.live
            &&& released.handles == 0
        }),
{
}

} // verus!
