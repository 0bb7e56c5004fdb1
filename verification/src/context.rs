use vstd::prelude::*;
use vstd::slice::slice_to_vec;

use crate::ctf::iterator::Iterator;
use crate::error::Error;

verus! {

/// The on-disk trace formats the binding can name to the native layer.
/// Only the Common Trace Format is wired.
pub enum Format {
    Ctf,
}

impl Format {
    /// The tag string under which the native layer knows this format.
    pub fn tag(&self) -> (r: &'static str)
        ensures
            r@ == "ctf"@,
    {
        "ctf"
    }
}

/// Identifies one registered trace within a session. It carries no
/// ownership; it only names the trace for a later removal.
#[derive(Debug, Clone, Copy, PartialEq, Eq, Structural)]
pub struct TraceHandleId(i32);

impl TraceHandleId {
    /// The raw identifier the native layer returned on registration.
    pub closed spec fn spec_id(self) -> i32 {
        self.0
    }

    /// The identifier as a plain integer, for display and diagnostics.
    pub fn raw(&self) -> (r: i32)
        ensures
            r == self.spec_id(),
    {
        self.0
    }
}

/// Builds the null-terminated byte string under which a trace path is
/// handed to the native layer. A path holding an embedded null byte has
/// no such representation and is rejected before any native call.
pub fn encode_trace_path(path: &[u8]) -> (r: Result<Vec<u8>, Error>)
    ensures
        path@.contains(0u8) ==> (r matches Err(e) && e is InvalidTracePath),
        !path@.contains(0u8) ==> (r matches Ok(v) && v@ == path@.push(0u8)),
{
    let mut i: usize = 0;
    while i < path.len()
        invariant
            i <= path@.len(),
            forall|j: int| 0 <= j < i ==> path@[j] != 0u8,
        decreases path@.len() - i,
    {
        if path[i] == 0u8 {
            assert(path@.contains(0u8)) by {
                assert(path@[i as int] == 0u8);
            }
            return Err(Error::InvalidTracePath);
        }
        i += 1;
    }
    let mut out = slice_to_vec(path);
    out.push(0u8);
    Ok(out)
}

/// The session's decision core. It mirrors the state the native session
/// holds: whether the session is still alive, and which trace
/// identifiers registration has handed out and removal has not taken
/// back. Every native outcome is interpreted against this state.
pub struct Context {
    alive: bool,
    traces: Vec<i32>,
}

impl Context {
    /// Whether the native session handle has not been released yet.
    pub closed spec fn spec_alive(self) -> bool {
        self.alive
    }

    /// The identifiers of the traces the session currently holds, in
    /// registration order.
    pub closed spec fn spec_traces(self) -> Seq<i32> {
        self.traces@
    }

    /// Decides the outcome of session creation: `handle_valid` says
    /// whether the native allocation yielded a handle.
    pub fn new(handle_valid: bool) -> (r: Result<Context, Error>)
        ensures
            handle_valid ==> (r matches Ok(c) && c.spec_alive() && c.spec_traces()
                === Seq::<i32>::empty()),
            !handle_valid ==> (r matches Err(e) && e is ContextCreation),
    {
        if handle_valid {
            Ok(Context { alive: true, traces: Vec::new() })
        } else {
            Err(Error::ContextCreation)
        }
    }

    /// Whether the session is still alive.
    pub fn is_alive(&self) -> (r: bool)
        ensures
            r == self.spec_alive(),
    {
        self.alive
    }

    /// How many traces the session currently holds.
    pub fn trace_count(&self) -> (r: usize)
        ensures
            r == self.spec_traces().len(),
    {
        self.traces.len()
    }

    /// The identifiers of the traces the session currently holds, in
    /// registration order.
    pub fn trace_ids(&self) -> (r: &Vec<i32>)
        ensures
            r@ === self.spec_traces(),
    {
        &self.traces
    }

    /// Registers a trace. The path must first be representable as a
    /// null-terminated byte string; only then does the native
    /// registration's return value count: `native_id` negative is the
    /// native failure, otherwise it is the identifier handed out, and
    /// the session records it.
    pub fn add_trace(&mut self, path: &[u8], format: Format, native_id: i32) -> (r: Result<
        TraceHandleId,
        Error,
    >)
        requires
            old(self).spec_alive(),
        ensures
            final(self).spec_alive(),
            path@.contains(0u8) ==> (r matches Err(e) && e is InvalidTracePath)
                && final(self).spec_traces() === old(self).spec_traces(),
            (!path@.contains(0u8) && native_id < 0) ==> (r matches Err(e) && e is TraceAdd)
                && final(self).spec_traces() === old(self).spec_traces(),
            (!path@.contains(0u8) && native_id >= 0) ==> (r matches Ok(h) && h.spec_id()
                == native_id) && final(self).spec_traces() === old(self).spec_traces().push(
                native_id,
            ),
    {
        let _ = format;
        match encode_trace_path(path) {
            Err(e) => Err(e),
            Ok(_) => {
                if native_id < 0 {
                    Err(Error::TraceAdd)
                } else {
                    self.traces.push(native_id);
                    Ok(TraceHandleId(native_id))
                }
            },
        }
    }

    /// Unregisters a previously added trace. An identifier the session
    /// does not hold fails, carrying that identifier; so does a
    /// negative return from the native removal. Otherwise every record
    /// of the identifier leaves the session.
    pub fn remove_trace(&mut self, handle: TraceHandleId, native_ret: i32) -> (r: Result<
        (),
        Error,
    >)
        requires
            old(self).spec_alive(),
        ensures
            final(self).spec_alive(),
            !old(self).spec_traces().contains(handle.spec_id()) ==> (r matches Err(e) && e
                matches Error::TraceRemove(h) && h == handle) && final(self).spec_traces()
                === old(self).spec_traces(),
            (old(self).spec_traces().contains(handle.spec_id()) && native_ret < 0) ==> (r
                matches Err(e) && e matches Error::TraceRemove(h) && h == handle)
                && final(self).spec_traces() === old(self).spec_traces(),
            (old(self).spec_traces().contains(handle.spec_id()) && native_ret >= 0) ==> r is Ok
                && final(self).spec_traces() === old(self).spec_traces().filter(
                (|x: i32| x != handle.spec_id()),
            ),
    {
        if !contains_id(&self.traces, handle.raw()) {
            return Err(Error::TraceRemove(handle));
        }
        if native_ret < 0 {
            return Err(Error::TraceRemove(handle));
        }
        let ghost pred = (|x: i32| x != handle.spec_id());
        let mut kept: Vec<i32> = Vec::new();
        let mut i: usize = 0;
        proof {
            reveal_with_fuel(Seq::<i32>::filter, 1);
            assert(self.traces@.subrange(0, 0).filter(pred) =~= kept@);
        }
        while i < self.traces.len()
            invariant
                i <= self.traces@.len(),
                self.alive == old(self).alive,
                self.traces@ === old(self).spec_traces(),
                kept@ === self.traces@.subrange(0, i as int).filter(pred),
                pred == (|x: i32| x != handle.spec_id()),
            decreases self.traces@.len() - i,
        {
            let x = self.traces[i];
            proof {
                reveal_with_fuel(Seq::<i32>::filter, 2);
                let pre = self.traces@.subrange(0, i as int);
                let cur = self.traces@.subrange(0, i as int + 1);
                assert(cur.drop_last() =~= pre);
                assert(cur.last() == self.traces@[i as int]);
                if pred(self.traces@[i as int]) {
                    assert(cur.filter(pred) === pre.filter(pred).push(cur.last()));
                } else {
                    assert(cur.filter(pred) === pre.filter(pred));
                }
            }
            if x != handle.raw() {
                kept.push(x);
            }
            i += 1;
        }
        proof {
            assert(self.traces@.subrange(0, self.traces@.len() as int) =~= self.traces@);
        }
        self.traces = kept;
        Ok(())
    }

    /// Asks for an iterator over the registered traces. `cursor_created`
    /// says whether the native layer yielded a cursor; a fresh cursor
    /// has read nothing yet.
    pub fn ctf_iter(&self, cursor_created: bool) -> (r: Option<Iterator>)
        requires
            self.spec_alive(),
        ensures
            cursor_created ==> (r matches Some(it) && it.spec_alive() && !it.spec_started()),
            !cursor_created ==> r is None,
    {
        if cursor_created {
            Some(Iterator::new())
        } else {
            None
        }
    }

    /// Marks the one release of the native session handle. The session
    /// must still be alive, so a second release can never be asked for.
    pub fn release(&mut self)
        requires
            old(self).spec_alive(),
        ensures
            !final(self).spec_alive(),
            final(self).spec_traces() === old(self).spec_traces(),
    {
        self.alive = false;
    }
}

/// Whether the identifier stands among the registered ones.
fn contains_id(v: &Vec<i32>, id: i32) -> (r: bool)
    ensures
        r == v@.contains(id),
{
    let mut i: usize = 0;
    while i < v.len()
        invariant
            i <= v@.len(),
            forall|j: int| 0 <= j < i ==> v@[j] != id,
        decreases v@.len() - i,
    {
        if v[i] == id {
            assert(v@.contains(id)) by {
                assert(v@[i as int] == id);
            }
            return true;
        }
        i += 1;
    }
    false
}

/// After registering two traces into a fresh session and then removing
/// the first, the session holds exactly the second — the state
/// `ctf_iter` builds an iterator over covers only the remaining trace.
/// The sequence below is the one `new`, `add_trace` and `remove_trace`
/// promise through `spec_traces`.
pub proof fn lemma_two_added_one_removed(a: i32, b: i32)
    requires
        a != b,
    ensures
        Seq::<i32>::empty().push(a).push(b).filter((|x: i32| x != a)) === seq![b],
{
    let s = Seq::<i32>::empty();
    let pred = (|x: i32| x != a);
    reveal_with_fuel(Seq::<i32>::filter, 3);
    assert(s.push(a).push(b).drop_last() =~= s.push(a));
    assert(s.push(a).drop_last() =~= s);
    assert(s.filter(pred) === Seq::<i32>::empty());
    assert(s.push(a).filter(pred) === Seq::<i32>::empty());
    assert(s.push(a).push(b).filter(pred) =~= seq![b]);
}

} // verus!
