use vstd::prelude::*;

use crate::error::HostFault;
use std::collections::HashMap;

verus! {

broadcast use vstd::std_specs::hash::group_hash_axioms;

/// The dispatch index bound to the host "multiply" implementation.
pub const MULT_FUNC_INDEX: usize = 0;

/// The dispatch index bound to the host "state_add" implementation.
pub const STATE_ADD_FUNC_INDEX: usize = 1;

/// A host-owned stateful object, referenced from the guest only through an
/// opaque integer handle.
#[derive(Debug, PartialEq, Eq, Structural)]
pub struct State(pub i32);

impl State {
    /// Adds `a` to the held value with 32-bit wraparound.
    pub fn add(&mut self, a: i32)
        ensures
            final(self).0 == old(self).0.wrapping_add(a),
    {
        self.0 = self.0.wrapping_add(a);
    }
}

/// The host runtime: the registry mapping each issued State Handle to its
/// host-owned object, together with the host function implementations the
/// dispatch table routes into.
pub struct Runtime {
    pub states: HashMap<i32, State>,
}

impl View for Runtime {
    type V = Map<i32, i32>;

    /// The registry as a mapping from handle to held value.
    open spec fn view(&self) -> Map<i32, i32> {
        self.states@.map_values(|st: State| st.0)
    }
}

impl Runtime {
    /// A runtime with an empty registry.
    pub fn new() -> (r: Self)
        ensures
            r@ == Map::<i32, i32>::empty(),
    {
        let states: HashMap<i32, State> = HashMap::new();
        let r = Runtime { states };
        proof {
            assert(r@ =~= Map::<i32, i32>::empty());
        }
        r
    }

    /// The pure host "multiply" implementation, with 32-bit wraparound.
    pub fn multiply(&self, a: i32, b: i32) -> (r: i32)
        ensures
            r == a.wrapping_mul(b),
    {
        a.wrapping_mul(b)
    }

    /// Installs `value` under `handle`, overwriting any previous entry.
    pub fn insert_state(&mut self, handle: i32, value: i32)
        ensures
            final(self)@ == old(self)@.insert(handle, value),
    {
        self.states.insert(handle, State(value));
        proof {
            assert(final(self)@ =~= old(self)@.insert(handle, value));
        }
    }

    /// The value registered under `handle`, if any.
    pub fn get_state(&self, handle: i32) -> (r: Option<i32>)
        ensures
            r == if self@.contains_key(handle) {
                Some(self@[handle])
            } else {
                None::<i32>
            },
    {
        match self.states.get(&handle) {
            Some(st) => Some(st.0),
            None => None,
        }
    }

    /// Applies the "add a delta" mutation to the object registered under
    /// `handle`. Invoking this on an unregistered handle is a programming
    /// error that aborts the call, never a recoverable condition, so such
    /// handles are excluded here; `dispatch_state_add` is the checked entry
    /// the host boundary uses.
    pub fn state_add(&mut self, handle: i32, delta: i32)
        requires
            old(self)@.contains_key(handle),
        ensures
            final(self)@ == old(self)@.insert(handle, old(self)@[handle].wrapping_add(delta)),
    {
        let current = match self.states.get(&handle) {
            Some(st) => Some(st.0),
            None => None,
        };
        match current {
            Some(v) => {
                let mut st = State(v);
                st.add(delta);
                self.states.insert(handle, st);
                proof {
                    assert(final(self)@ =~= old(self)@.insert(
                        handle,
                        old(self)@[handle].wrapping_add(delta),
                    ));
                }
            },
            None => {
                proof {
                    assert(false);
                }
            },
        }
    }

    /// Routes a guest call to the host implementation bound at `index`.
    /// Dispatch is strictly by index, never by name. An index the resolver
    /// never issued, a mismatched argument list, or a missing handle are
    /// unrecoverable internal-consistency failures that abort rather than
    /// degrade, so they are excluded here: the interpreter enforces the
    /// arity negotiated at resolution time, and `dispatch_state_add` tests
    /// the handle before routing through this table.
    pub fn invoke_index(&mut self, index: usize, args: &Vec<i32>) -> (r: Result<
        Option<i32>,
        HostFault,
    >)
        requires
            index == MULT_FUNC_INDEX || index == STATE_ADD_FUNC_INDEX,
            args@.len() == 2,
            index == STATE_ADD_FUNC_INDEX ==> old(self)@.contains_key(args@[0]),
        ensures
            index == MULT_FUNC_INDEX ==> r == Ok::<Option<i32>, HostFault>(
                Some(args@[0].wrapping_mul(args@[1])),
            ) && final(self)@ == old(self)@,
            index == STATE_ADD_FUNC_INDEX ==> r == Ok::<Option<i32>, HostFault>(None)
                && final(self)@ == old(self)@.insert(
                args@[0],
                old(self)@[args@[0]].wrapping_add(args@[1]),
            ),
    {
        if index == MULT_FUNC_INDEX {
            let c = self.multiply(args[0], args[1]);
            Ok(Some(c))
        } else {
            self.state_add(args[0], args[1]);
            Ok(None)
        }
    }
}

/// Routes a guest "multiply" call through the dispatch table by its index.
pub fn dispatch_multiply(rt: &mut Runtime, a: i32, b: i32) -> (r: i32)
    ensures
        r == a.wrapping_mul(b),
        final(rt)@ == old(rt)@,
{
    let mut args: Vec<i32> = Vec::new();
    args.push(a);
    args.push(b);
    match rt.invoke_index(MULT_FUNC_INDEX, &args) {
        Ok(Some(v)) => v,
        _ => {
            proof {
                assert(false);
            }
            0
        },
    }
}

/// The checked entry for a guest "state_add" call: it tests the State
/// Handle, then routes through the dispatch table by its index. The fault
/// it returns on an unregistered handle exists solely for the host boundary
/// to abort on, as the dispatcher itself excludes that input.
pub fn dispatch_state_add(rt: &mut Runtime, handle: i32, delta: i32) -> (r: Result<(), HostFault>)
    ensures
        old(rt)@.contains_key(handle) ==> r == Ok::<(), HostFault>(()) && final(rt)@
            == old(rt)@.insert(handle, old(rt)@[handle].wrapping_add(delta)),
        !old(rt)@.contains_key(handle) ==> r == Err::<(), HostFault>(
            HostFault::MissingState(handle),
        ) && final(rt)@ == old(rt)@,
{
    let registered = match rt.get_state(handle) {
        Some(_) => true,
        None => false,
    };
    if registered {
        let mut args: Vec<i32> = Vec::new();
        args.push(handle);
        args.push(delta);
        match rt.invoke_index(STATE_ADD_FUNC_INDEX, &args) {
            Ok(_) => Ok(()),
            Err(f) => Err(f),
        }
    } else {
        Err(HostFault::MissingState(handle))
    }
}

} // verus!
