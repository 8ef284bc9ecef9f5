use vstd::prelude::*;

use crate::error::HostError;
use crate::interp::{instance_get_memory, linker_define_multiply, linker_define_state_add,
    linker_instantiate, linker_new, parse_module, parse_ok, store_new, store_states};
use crate::module_scan::{has_start_section, spec_has_start_section};
use crate::registry::{Runtime, MULT_FUNC_INDEX, STATE_ADD_FUNC_INDEX};
use crate::resolver::RuntimeModuleImportResolver;

verus! {

/// An instantiated, validated module: its store (holding the host runtime),
/// its instance, and its exported linear memory. The fields stay together:
/// only construction here sets them, so every instance and memory is always
/// used with the store that owns it.
pub struct LoadedModule {
    pub(crate) store: wasmi::Store<Runtime>,
    pub(crate) instance: wasmi::Instance,
    pub(crate) memory: wasmi::Memory,
}

impl LoadedModule {
    /// The registry held by the module's store: each registered State
    /// Handle and the value of the host object it names.
    pub closed spec fn states(self) -> Map<i32, i32> {
        store_states(self.store)
    }
}

/// What `states` reads: the registry of the store the module holds.
pub(crate) proof fn lemma_states_is_store_states(m: LoadedModule)
    ensures
        m.states() == store_states(m.store),
{
}

/// A module that does not export its memory under "memory" is refused with
/// a distinct error, never used blindly.
pub fn require_memory_export(found: Option<wasmi::Memory>) -> (r: Result<wasmi::Memory, HostError>)
    ensures
        found matches Some(m) ==> r == Ok::<wasmi::Memory, HostError>(m),
        found is None ==> (r matches Err(e) && e matches HostError::NoMemoryExport),
{
    match found {
        Some(m) => Ok(m),
        None => Err(HostError::NoMemoryExport),
    }
}

/// Parses and validates `bytes` into a runnable module, binds the host
/// functions the resolver recognizes under the "env" namespace, and
/// instantiates the module. Loading fails on malformed bytes (carrying the
/// interpreter's diagnostic), on an import the resolver does not recognize,
/// on a module that declares a start function, and on a module that does
/// not export its memory under "memory".
pub fn instantiate(bytes: &Vec<u8>, resolver: &RuntimeModuleImportResolver) -> (r: Result<
    LoadedModule,
    HostError,
>)
    ensures
        parse_ok(bytes@) && spec_has_start_section(bytes@) <==> (r matches Err(e) && e matches
            HostError::StartFunction),
        !parse_ok(bytes@) ==> (r matches Err(e) && e matches HostError::Interpreter(_)),
        r matches Err(e) ==> (e matches HostError::StartFunction || e matches
            HostError::Interpreter(_) || e matches HostError::NoMemoryExport),
{
    let (engine, module) = match parse_module(bytes) {
        Ok(p) => p,
        Err(e) => {
            return Err(HostError::Interpreter(e));
        },
    };
    if has_start_section(bytes.as_slice()) {
        return Err(HostError::StartFunction);
    }
    // The resolver issues the dispatch indices the linker's host functions
    // route through; resolution of the two recognized names cannot fail.
    let multiply_ref = match resolver.resolve_func("multiply") {
        Ok(f) => f,
        Err(e) => {
            proof {
                assert(false);
            }
            return Err(e);
        },
    };
    let state_add_ref = match resolver.resolve_func("state_add") {
        Ok(f) => f,
        Err(e) => {
            proof {
                assert(false);
            }
            return Err(e);
        },
    };
    assert(multiply_ref.index == MULT_FUNC_INDEX);
    assert(state_add_ref.index == STATE_ADD_FUNC_INDEX);
    let mut linker = linker_new(&engine);
    match linker_define_multiply(&mut linker) {
        Ok(()) => {},
        Err(e) => {
            return Err(HostError::Interpreter(e));
        },
    }
    match linker_define_state_add(&mut linker) {
        Ok(()) => {},
        Err(e) => {
            return Err(HostError::Interpreter(e));
        },
    }
    let mut store = store_new(&engine, Runtime::new());
    let instance = match linker_instantiate(&linker, &mut store, &module) {
        Ok(i) => i,
        Err(e) => {
            return Err(HostError::Interpreter(e));
        },
    };
    let memory = match require_memory_export(instance_get_memory(&store, &instance, "memory")) {
        Ok(m) => m,
        Err(e) => {
            return Err(e);
        },
    };
    Ok(LoadedModule { store, instance, memory })
}

} // verus!
