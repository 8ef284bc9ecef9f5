use wasm_host::error::HostError;
use wasm_host::registry::{MULT_FUNC_INDEX, STATE_ADD_FUNC_INDEX};
use wasm_host::resolver::{RuntimeModuleImportResolver, ValueKind};

#[test]
fn resolve_multiply_gives_its_signature_and_index() {
    let resolver = RuntimeModuleImportResolver;
    let f = resolver.resolve_func("multiply").unwrap();
    assert_eq!(f.index, MULT_FUNC_INDEX);
    assert_eq!(f.signature.params, vec![ValueKind::I32, ValueKind::I32]);
    assert_eq!(f.signature.ret, Some(ValueKind::I32));
}

#[test]
fn resolve_state_add_gives_its_signature_and_index() {
    let resolver = RuntimeModuleImportResolver;
    let f = resolver.resolve_func("state_add").unwrap();
    assert_eq!(f.index, STATE_ADD_FUNC_INDEX);
    assert_eq!(f.signature.params, vec![ValueKind::I32, ValueKind::I32]);
    assert_eq!(f.signature.ret, None);
}

#[test]
fn resolve_unknown_name_fails_with_that_name() {
    let resolver = RuntimeModuleImportResolver;
    match resolver.resolve_func("bogus") {
        Err(HostError::UnknownImport(name)) => assert_eq!(name, "bogus"),
        _ => panic!("an unknown import must fail resolution"),
    }
}

#[test]
fn resolving_twice_yields_equivalent_references() {
    let resolver = RuntimeModuleImportResolver;
    let a = resolver.resolve_func("multiply").unwrap();
    let b = resolver.resolve_func("multiply").unwrap();
    assert_eq!(a.index, b.index);
    assert_eq!(a.signature.params, b.signature.params);
    assert_eq!(a.signature.ret, b.signature.ret);
}
