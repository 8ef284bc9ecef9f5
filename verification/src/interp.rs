use vstd::prelude::*;

use crate::registry::{dispatch_multiply, dispatch_state_add, Runtime};

// Every Memory, Func and Instance handle below is resolved by wasmi against
// the store it is handed, and wasmi panics when that store does not own the
// handle. The crate therefore keeps each instance, memory and store together
// in a LoadedModule whose fields only its own construction sets, so no
// mismatched pair can reach these wrappers.

verus! {

// The interpreter's handle types are opaque to the library: values of them
// are carried through and handed back to the interpreter, never inspected.

#[verifier::external_type_specification]
#[verifier::external_body]
pub struct ExEngine(wasmi::Engine);

#[verifier::external_type_specification]
#[verifier::external_body]
pub struct ExModule(wasmi::Module);

#[verifier::external_type_specification]
#[verifier::external_body]
#[verifier::reject_recursive_types(T)]
pub struct ExStore<T>(wasmi::Store<T>);

#[verifier::external_type_specification]
#[verifier::external_body]
#[verifier::reject_recursive_types(T)]
pub struct ExLinker<T>(wasmi::Linker<T>);

#[verifier::external_type_specification]
#[verifier::external_body]
pub struct ExInstance(wasmi::Instance);

#[verifier::external_type_specification]
#[verifier::external_body]
pub struct ExMemory(wasmi::Memory);

#[verifier::external_type_specification]
#[verifier::external_body]
pub struct ExFunc(wasmi::Func);

#[verifier::external_type_specification]
#[verifier::external_body]
pub struct ExWasmiError(wasmi::Error);

/// The registry held as the store's host data: each registered handle and
/// the value of the object it names.
pub uninterp spec fn store_states(s: wasmi::Store<Runtime>) -> Map<i32, i32>;

/// Whether the interpreter, under its default configuration, accepts the
/// bytes as a valid binary module.
pub uninterp spec fn parse_ok(bytes: Seq<u8>) -> bool;

/// Relies on wasmi::Engine::default and wasmi::Module::new: parses and
/// validates a binary module under the default configuration, failing on
/// malformed input. Whether parsing succeeds depends on the bytes alone,
/// which `parse_ok` names.
#[verifier::external_body]
pub(crate) fn parse_module(bytes: &Vec<u8>) -> (r: Result<
    (wasmi::Engine, wasmi::Module),
    wasmi::Error,
>)
    ensures
        r is Ok <==> parse_ok(bytes@),
{
    let engine = wasmi::Engine::default();
    match wasmi::Module::new(&engine, bytes.as_slice()) {
        Ok(module) => Ok((engine, module)),
        Err(e) => Err(e),
    }
}

/// Relies on wasmi::Store::new: the store's host data is exactly the
/// runtime it is given.
#[verifier::external_body]
pub(crate) fn store_new(engine: &wasmi::Engine, rt: Runtime) -> (r: wasmi::Store<Runtime>)
    ensures
        store_states(r) == rt@,
{
    wasmi::Store::new(engine, rt)
}

/// Relies on wasmi::Store::data_mut and core::mem::replace: swaps the host
/// data held by the store for `rt`, handing back what the store held
/// before. Verified code takes the runtime out with this, works on it
/// itself, and puts it back.
#[verifier::external_body]
pub(crate) fn store_swap_data(s: &mut wasmi::Store<Runtime>, rt: Runtime) -> (r: Runtime)
    ensures
        store_states(*final(s)) == rt@,
        r@ == store_states(*old(s)),
{
    core::mem::replace(s.data_mut(), rt)
}

/// Relies on wasmi::Linker::new: a linker with no definitions.
#[verifier::external_body]
pub(crate) fn linker_new(engine: &wasmi::Engine) -> wasmi::Linker<Runtime> {
    wasmi::Linker::new(engine)
}

/// Relies on wasmi::Linker::func_wrap: defines the host "multiply" under the
/// "env" namespace with signature (i32, i32) -> i32. The closure only routes
/// the call through the verified dispatcher.
#[verifier::external_body]
pub(crate) fn linker_define_multiply(l: &mut wasmi::Linker<Runtime>) -> Result<(), wasmi::Error> {
    l.func_wrap(
        "env",
        "multiply",
        |mut caller: wasmi::Caller<'_, Runtime>, a: i32, b: i32| -> i32 {
            dispatch_multiply(caller.data_mut(), a, b)
        },
    ).map(|_| ()).map_err(wasmi::Error::from)
}

/// Relies on wasmi::Linker::func_wrap: defines the host "state_add" under
/// the "env" namespace with signature (i32, i32) -> (). The closure only
/// routes the call through the verified dispatcher; as a missing handle is a
/// programming-invariant violation, it aborts rather than recovers.
#[verifier::external_body]
pub(crate) fn linker_define_state_add(l: &mut wasmi::Linker<Runtime>) -> Result<(), wasmi::Error> {
    l.func_wrap(
        "env",
        "state_add",
        |mut caller: wasmi::Caller<'_, Runtime>, handle: i32, n: i32| {
            dispatch_state_add(caller.data_mut(), handle, n).unwrap()
        },
    ).map(|_| ()).map_err(wasmi::Error::from)
}

/// Relies on wasmi::Linker::instantiate_and_start: instantiates the module,
/// failing when it needs an import the linker does not define or an imported
/// item does not satisfy its declared type. A start function the module
/// declares would be run here, so the loader refuses such modules before
/// this call; nothing is promised of the store.
#[verifier::external_body]
pub(crate) fn linker_instantiate(
    l: &wasmi::Linker<Runtime>,
    s: &mut wasmi::Store<Runtime>,
    module: &wasmi::Module,
) -> Result<wasmi::Instance, wasmi::Error> {
    l.instantiate_and_start(&mut *s, module)
}

/// Relies on wasmi::Instance::get_memory: the memory exported under `name`,
/// or nothing when the module exports none of that name.
#[verifier::external_body]
pub(crate) fn instance_get_memory(
    s: &wasmi::Store<Runtime>,
    instance: &wasmi::Instance,
    name: &str,
) -> Option<wasmi::Memory> {
    instance.get_memory(s, name)
}

/// Relies on wasmi::Instance::get_func: the function exported under `name`,
/// or nothing when the module's export table holds no such name.
#[verifier::external_body]
pub(crate) fn instance_get_func(
    s: &wasmi::Store<Runtime>,
    instance: &wasmi::Instance,
    name: &str,
) -> Option<wasmi::Func> {
    instance.get_func(s, name)
}

/// Relies on wasmi::Memory::data_size: the current size of the memory in
/// bytes.
#[verifier::external_body]
pub(crate) fn memory_size(s: &wasmi::Store<Runtime>, mem: &wasmi::Memory) -> usize {
    mem.data_size(s)
}

/// Relies on wasmi::Memory::read: copies `len` bytes starting at `offset`
/// out of linear memory; on success the copy holds exactly `len` bytes, and
/// it fails when the range is out of bounds.
#[verifier::external_body]
pub(crate) fn memory_read(
    s: &wasmi::Store<Runtime>,
    mem: &wasmi::Memory,
    offset: usize,
    len: usize,
) -> (r: Result<Vec<u8>, wasmi::Error>)
    ensures
        r matches Ok(v) ==> v@.len() == len,
{
    let mut buffer: Vec<u8> = Vec::new();
    buffer.resize(len, 0u8);
    match mem.read(s, offset, buffer.as_mut_slice()) {
        Ok(()) => Ok(buffer),
        Err(e) => Err(wasmi::Error::from(e)),
    }
}

/// Relies on wasmi::Memory::write: copies `data` into linear memory at
/// `offset`, failing when the range is out of bounds.
#[verifier::external_body]
pub(crate) fn memory_write(
    s: &mut wasmi::Store<Runtime>,
    mem: &wasmi::Memory,
    offset: usize,
    data: &Vec<u8>,
) -> Result<(), wasmi::Error> {
    mem.write(&mut *s, offset, data.as_slice()).map_err(wasmi::Error::from)
}

/// Relies on wasmi::Func::call: runs the function with the given i32
/// arguments and a result buffer of `n_results` slots; a call prepared for
/// no results hands back no value. The guest may call back into the host
/// functions, so nothing is promised of the store.
#[verifier::external_body]
pub(crate) fn func_call(
    s: &mut wasmi::Store<Runtime>,
    f: &wasmi::Func,
    args: &Vec<i32>,
    n_results: usize,
) -> (r: Result<Option<i32>, wasmi::Error>)
    ensures
        r matches Ok(v) ==> (n_results == 0 ==> v == None::<i32>),
{
    let inputs: Vec<wasmi::Val> = args.iter().map(|a| wasmi::Val::I32(*a)).collect();
    let mut outputs: Vec<wasmi::Val> = Vec::new();
    outputs.resize(n_results, wasmi::Val::I32(0));
    match f.call(&mut *s, inputs.as_slice(), outputs.as_mut_slice()) {
        Ok(()) => Ok(outputs.get(0).and_then(|v| v.i32())),
        Err(e) => Err(e),
    }
}

} // verus!
