use vstd::prelude::*;

use crate::codec::WasmString;
use crate::error::HostError;
use crate::interp::{func_call, instance_get_func, memory_read, memory_size, memory_write,
    store_states, store_swap_data};
use crate::loader::{lemma_states_is_store_states, LoadedModule};
use crate::registry::Runtime;

verus! {

/// Installs `value` under `handle` in the registry the store holds: the
/// runtime is taken out of the store, mutated by its own verified method,
/// and put back.
pub fn store_insert_state(s: &mut wasmi::Store<Runtime>, handle: i32, value: i32)
    ensures
        store_states(*final(s)) == store_states(*old(s)).insert(handle, value),
{
    let mut rt = store_swap_data(s, Runtime::new());
    rt.insert_state(handle, value);
    let _ = store_swap_data(s, rt);
}

/// Looks `handle` up in the registry the store holds, leaving the registry
/// as it was.
pub fn store_get_state(s: &mut wasmi::Store<Runtime>, handle: i32) -> (r: Option<i32>)
    ensures
        store_states(*final(s)) == store_states(*old(s)),
        r == if store_states(*old(s)).contains_key(handle) {
            Some(store_states(*old(s))[handle])
        } else {
            None::<i32>
        },
{
    let rt = store_swap_data(s, Runtime::new());
    let r = rt.get_state(handle);
    let _ = store_swap_data(s, rt);
    r
}

/// One scripted export invocation: the export's name, the literal arguments
/// handed to it, the value it returned, and, for the string-returning step,
/// the text decoded from memory afterwards.
#[derive(Debug)]
pub struct CallRecord {
    pub name: String,
    pub args: Vec<i32>,
    pub result: Option<i32>,
    pub text: Option<String>,
}

/// A missing export is a distinct error, never a silent default.
pub fn require_export(found: Option<wasmi::Func>) -> (r: Result<wasmi::Func, HostError>)
    ensures
        found matches Some(f) ==> r == Ok::<wasmi::Func, HostError>(f),
        found is None ==> (r matches Err(e) && e matches HostError::ExportNotFound),
{
    match found {
        Some(f) => Ok(f),
        None => Err(HostError::ExportNotFound),
    }
}

/// Invokes the export named `func_name` with `args`, expecting `n_results`
/// results: the export is looked up by name, a name absent from the export
/// table fails distinctly, and the returned value, if any, is handed back.
pub fn call(m: &mut LoadedModule, func_name: &str, args: &Vec<i32>, n_results: usize) -> (r:
    Result<Option<i32>, HostError>)
    ensures
        r matches Ok(v) ==> (n_results == 0 ==> v == None::<i32>),
        r matches Err(e) ==> (e matches HostError::ExportNotFound || e matches
            HostError::Interpreter(_)),
{
    let found = instance_get_func(&m.store, &m.instance, func_name);
    let f = match require_export(found) {
        Ok(f) => f,
        Err(e) => {
            return Err(e);
        },
    };
    match func_call(&mut m.store, &f, args, n_results) {
        Ok(v) => Ok(v),
        Err(e) => Err(HostError::Interpreter(e)),
    }
}

/// Verification of one scripted step: succeeds exactly when the observed
/// value equals the expected one, and otherwise reports which step failed.
pub fn check_step(step: u32, actual: Option<i32>, expected: Option<i32>) -> (r: Result<
    (),
    HostError,
>)
    ensures
        actual == expected ==> r == Ok::<(), HostError>(()),
        actual != expected ==> (r matches Err(e) && e matches HostError::Mismatch(s) && s == step),
{
    let same = match (actual, expected) {
        (Option::None, Option::None) => true,
        (Option::Some(a), Option::Some(b)) => a == b,
        _ => false,
    };
    if same {
        Ok(())
    } else {
        Err(HostError::Mismatch(step))
    }
}

/// The bytes the script seeds into guest memory before the counting step:
/// ASCII for "hello world".
pub open spec fn seed_bytes() -> Seq<u8> {
    seq![104u8, 101u8, 108u8, 108u8, 111u8, 32u8, 119u8, 111u8, 114u8, 108u8, 100u8]
}

/// Builds the seed bytes the counting step reads.
fn hello_world_seed() -> (r: Vec<u8>)
    ensures
        r@ == seed_bytes(),
{
    let mut seed: Vec<u8> = Vec::new();
    seed.push(104u8);
    seed.push(101u8);
    seed.push(108u8);
    seed.push(108u8);
    seed.push(111u8);
    seed.push(32u8);
    seed.push(119u8);
    seed.push(111u8);
    seed.push(114u8);
    seed.push(108u8);
    seed.push(100u8);
    proof {
        assert(seed@ =~= seed_bytes());
    }
    seed
}

/// What a successful run of the script pins: which export each step
/// invoked, with which literal arguments, and the value it returned — the
/// addition of three and six returned nine, the count over the eleven
/// seeded bytes returned eleven, the string-returning step yielded an
/// offset whose decoding was exactly the fixed message, the host-call
/// computation on three returned eighteen, and the stateful mutation on
/// handle one returned no value.
pub open spec fn script_post(recs: Seq<CallRecord>) -> bool {
    &&& recs.len() == 5
    &&& recs[0].name@ == "add"@ && recs[0].args@ == seq![3i32, 6i32] && recs[0].result == Some(
        9i32,
    )
    &&& recs[1].name@ == "count_str"@ && recs[1].args@ == seq![0i32, 11i32] && recs[1].result
        == Some(11i32)
    &&& recs[2].name@ == "return_str"@ && recs[2].args@ == Seq::<i32>::empty() && (
    recs[2].result matches Some(off) && off >= 0) && (recs[2].text matches Some(t) && t@
        == "hello from webassembly"@)
    &&& recs[3].name@ == "calc_host"@ && recs[3].args@ == seq![3i32] && recs[3].result == Some(
        18i32,
    )
    &&& recs[4].name@ == "host_state_add"@ && recs[4].args@ == seq![1i32] && recs[4].result
        == None::<i32>
}

/// Runs the demonstration script against an instantiated module: a fixed
/// list of export invocations with literal arguments, each result checked
/// against its expected value, the first mismatch reported as a failure of
/// that step. On success the records pin each step's export name, argument
/// list and observed result (see `script_post`), and the registry then
/// holds five under the handle the script registered; every failure is a
/// load, call, bounds or mismatch error.
pub fn play(m: &mut LoadedModule) -> (r: Result<Vec<CallRecord>, HostError>)
    ensures
        r matches Ok(recs) ==> script_post(recs@),
        r is Ok ==> final(m).states().contains_key(1i32) && final(m).states()[1i32] == 5i32,
        r matches Err(e) ==> (e matches HostError::ExportNotFound || e matches
            HostError::Interpreter(_) || e matches HostError::Mismatch(_) || e matches
            HostError::OutOfBounds),
{
    let mut records: Vec<CallRecord> = Vec::new();

    // Add numbers: add(3, 6) is expected to return 9.
    let mut args1: Vec<i32> = Vec::new();
    args1.push(3);
    args1.push(6);
    proof {
        assert(args1@ =~= seq![3i32, 6i32]);
    }
    let res1 = match call(m, "add", &args1, 1) {
        Ok(v) => v,
        Err(e) => {
            return Err(e);
        },
    };
    match check_step(1, res1, Some(9)) {
        Ok(()) => {},
        Err(e) => {
            return Err(e);
        },
    }
    records.push(
        CallRecord { name: String::from_str("add"), args: args1, result: res1, text: None },
    );

    // Count string length: seed "hello world" into memory at offset zero,
    // then count_str(0, 11) is expected to return 11.
    let seed = hello_world_seed();
    match memory_write(&mut m.store, &m.memory, 0, &seed) {
        Ok(()) => {},
        Err(e) => {
            return Err(HostError::Interpreter(e));
        },
    }
    let mut args2: Vec<i32> = Vec::new();
    args2.push(0);
    args2.push(11);
    proof {
        assert(args2@ =~= seq![0i32, 11i32]);
    }
    let res2 = match call(m, "count_str", &args2, 1) {
        Ok(v) => v,
        Err(e) => {
            return Err(e);
        },
    };
    match check_step(2, res2, Some(11)) {
        Ok(()) => {},
        Err(e) => {
            return Err(e);
        },
    }
    records.push(
        CallRecord { name: String::from_str("count_str"), args: args2, result: res2, text: None },
    );

    // Return a string: return_str() hands back an offset into memory where
    // a null-terminated string is expected to spell the fixed message.
    let args3: Vec<i32> = Vec::new();
    let res3 = match call(m, "return_str", &args3, 1) {
        Ok(v) => v,
        Err(e) => {
            return Err(e);
        },
    };
    let offset = match res3 {
        Some(v) => v,
        None => {
            return Err(HostError::Mismatch(3));
        },
    };
    if offset < 0 {
        return Err(HostError::Mismatch(3));
    }
    let size = memory_size(&m.store, &m.memory);
    if (offset as usize) >= size {
        return Err(HostError::OutOfBounds);
    }
    let avail = size - (offset as usize);
    let window: usize = if avail < 64 {
        avail
    } else {
        64
    };
    let chunk = match memory_read(&m.store, &m.memory, offset as usize, window) {
        Ok(v) => v,
        Err(e) => {
            return Err(HostError::Interpreter(e));
        },
    };
    let decoded = match WasmString::from_little_endian(chunk.as_slice()) {
        Ok(w) => w,
        Err(e) => {
            return Err(e);
        },
    };
    let expected_text = String::from_str("hello from webassembly");
    if !(decoded.0 == expected_text) {
        return Err(HostError::Mismatch(3));
    }
    records.push(
        CallRecord {
            name: String::from_str("return_str"),
            args: args3,
            result: res3,
            text: Some(decoded.0),
        },
    );

    // Calculate by calling back into the host: calc_host(3) doubles its
    // input and multiplies through the host, expected to return 18.
    let mut args4: Vec<i32> = Vec::new();
    args4.push(3);
    proof {
        assert(args4@ =~= seq![3i32]);
    }
    let res4 = match call(m, "calc_host", &args4, 1) {
        Ok(v) => v,
        Err(e) => {
            return Err(e);
        },
    };
    match check_step(4, res4, Some(18)) {
        Ok(()) => {},
        Err(e) => {
            return Err(e);
        },
    }
    records.push(
        CallRecord { name: String::from_str("calc_host"), args: args4, result: res4, text: None },
    );

    // Mutate a host object through its opaque handle: register handle 1
    // with value 0, invoke host_state_add(1), and the registry is expected
    // to hold 5 afterwards while the call returns no value.
    store_insert_state(&mut m.store, 1, 0);
    let mut args5: Vec<i32> = Vec::new();
    args5.push(1);
    proof {
        assert(args5@ =~= seq![1i32]);
    }
    let res5 = match call(m, "host_state_add", &args5, 0) {
        Ok(v) => v,
        Err(e) => {
            return Err(e);
        },
    };
    match check_step(5, res5, None) {
        Ok(()) => {},
        Err(e) => {
            return Err(e);
        },
    }
    let held = store_get_state(&mut m.store, 1);
    match check_step(5, held, Some(5)) {
        Ok(()) => {},
        Err(e) => {
            return Err(e);
        },
    }
    records.push(
        CallRecord {
            name: String::from_str("host_state_add"),
            args: args5,
            result: res5,
            text: None,
        },
    );

    proof {
        lemma_states_is_store_states(*m);
    }
    Ok(records)
}

} // verus!
