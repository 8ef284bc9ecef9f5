use vstd::prelude::*;

use crate::error::HostError;
use crate::registry::{MULT_FUNC_INDEX, STATE_ADD_FUNC_INDEX};

verus! {

/// The kinds of typed values that cross the host/guest boundary. The tag
/// must match the signature declared at resolution time.
#[derive(Debug, Clone, Copy, PartialEq, Eq, Structural)]
pub enum ValueKind {
    I32,
}

/// An ordered parameter list plus an optional return kind: exactly what the
/// guest module declares it imports.
#[derive(Debug, Clone)]
pub struct Signature {
    pub params: Vec<ValueKind>,
    pub ret: Option<ValueKind>,
}

/// A typed reference to a host function: its exact signature and the stable
/// dispatch index that correlates the import name with the implementation.
#[derive(Debug, Clone)]
pub struct HostFuncRef {
    pub signature: Signature,
    pub index: usize,
}

/// Resolves import names of the single "env" namespace to typed host
/// function references.
pub struct RuntimeModuleImportResolver;

impl RuntimeModuleImportResolver {
    /// The import names the resolver recognizes.
    pub open spec fn known_import(name: Seq<char>) -> bool {
        name == "multiply"@ || name == "state_add"@
    }

    /// What resolution of `name` yields, as a predicate over the result:
    /// each recognized name is bound to its exact signature and stable
    /// dispatch index, and any other name fails with an unknown-import
    /// error carrying that name.
    pub open spec fn resolve_post(name: Seq<char>, r: Result<HostFuncRef, HostError>) -> bool {
        &&& name == "multiply"@ ==> (r matches Ok(f) && f.signature.params@ == seq![
            ValueKind::I32,
            ValueKind::I32,
        ] && f.signature.ret == Some(ValueKind::I32) && f.index == MULT_FUNC_INDEX)
        &&& name == "state_add"@ ==> (r matches Ok(f) && f.signature.params@ == seq![
            ValueKind::I32,
            ValueKind::I32,
        ] && f.signature.ret == None::<ValueKind> && f.index == STATE_ADD_FUNC_INDEX)
        &&& !Self::known_import(name) ==> (r matches Err(e) && e matches
            HostError::UnknownImport(n) && n@ == name)
    }

    /// Returns the typed function reference bound to `field_name`, or an
    /// unknown-import error carrying that name. Resolution is total and
    /// side-effect-free: the result is a function of the name alone.
    pub fn resolve_func(&self, field_name: &str) -> (r: Result<HostFuncRef, HostError>)
        ensures
            Self::resolve_post(field_name@, r),
    {
        proof {
            reveal_strlit("multiply");
            reveal_strlit("state_add");
            assert("multiply"@.len() == 8);
            assert("state_add"@.len() == 9);
            assert("multiply"@ != "state_add"@);
        }
        let name = field_name.to_owned();
        let mut params: Vec<ValueKind> = Vec::new();
        params.push(ValueKind::I32);
        params.push(ValueKind::I32);
        proof {
            assert(params@ =~= seq![ValueKind::I32, ValueKind::I32]);
        }
        if name == String::from_str("multiply") {
            Ok(HostFuncRef {
                signature: Signature { params, ret: Some(ValueKind::I32) },
                index: MULT_FUNC_INDEX,
            })
        } else if name == String::from_str("state_add") {
            Ok(HostFuncRef {
                signature: Signature { params, ret: None },
                index: STATE_ADD_FUNC_INDEX,
            })
        } else {
            Err(HostError::UnknownImport(name))
        }
    }
}

/// Resolution is repeatable: any two results that resolution of the same
/// name can yield are equivalent references, with the same signature and
/// the same dispatch index; for an unrecognized name, both carry that name.
pub proof fn lemma_resolution_repeatable(
    name: Seq<char>,
    r1: Result<HostFuncRef, HostError>,
    r2: Result<HostFuncRef, HostError>,
)
    requires
        RuntimeModuleImportResolver::resolve_post(name, r1),
        RuntimeModuleImportResolver::resolve_post(name, r2),
    ensures
        r1 matches Ok(f1) ==> (r2 matches Ok(f2) && f1.signature.params@ == f2.signature.params@
            && f1.signature.ret == f2.signature.ret && f1.index == f2.index),
        r1 matches Err(e1) ==> (r2 matches Err(e2) && e1 matches HostError::UnknownImport(n1)
            && e2 matches HostError::UnknownImport(n2) && n1@ == n2@),
{
    reveal_strlit("multiply");
    reveal_strlit("state_add");
    assert("multiply"@.len() == 8);
    assert("state_add"@.len() == 9);
    assert("multiply"@ != "state_add"@);
}

} // verus!
