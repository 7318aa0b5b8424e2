//! Everything a call needs before the virtual machine runs it: the store that
//! resolves the module, the module's identity and the argument list.
use vstd::prelude::*;
use crate::file_format::{AccountAddress, CompiledModule};
use crate::store::{ModuleId, ModuleKey, ModuleStore};

verus! {

/// Relies on move_core_types::language_storage::TypeTag only as a carried value: type
/// arguments are handed to the virtual machine untouched.
#[verifier::external_type_specification]
#[verifier::external_body]
pub struct ExTypeTag(move_core_types::language_storage::TypeTag);

/// Relies on move_core_types::value::MoveValue::simple_serialize of a signer value: a
/// signer serializes as its address, a newtype that bcs writes as its 16 bytes in order,
/// one container deep, so the encoding always succeeds.
#[verifier::external_body]
fn serialize_signer(address: AccountAddress) -> (r: Option<Vec<u8>>)
    ensures
        r is Some,
        r.unwrap()@ == address@,
{
    let a = move_core_types::account_address::AccountAddress::new(address);
    move_core_types::value::MoveValue::Signer(a).simple_serialize()
}

/// The argument list of a call: each signer as a serialized signer value, in order,
/// then the other arguments unchanged, in order.
pub fn combine_signers_and_args(signers: Vec<AccountAddress>, non_signer_args: Vec<Vec<u8>>) -> (r:
    Vec<Vec<u8>>)
    requires
        signers@.len() + non_signer_args@.len() <= usize::MAX,
    ensures
        r@.len() == signers@.len() + non_signer_args@.len(),
        forall|i: int| 0 <= i < signers@.len() ==> #[trigger] r@[i]@ == signers@[i]@,
        forall|j: int|
            0 <= j < non_signer_args@.len() ==> #[trigger] r@[signers@.len() + j]@
                == non_signer_args@[j]@,
{
    let mut r: Vec<Vec<u8>> = Vec::new();
    let mut i: usize = 0;
    while i < signers.len()
        invariant
            0 <= i <= signers@.len(),
            r@.len() == i,
            forall|m: int| 0 <= m < i ==> #[trigger] r@[m]@ == signers@[m]@,
        decreases signers@.len() - i,
    {
        let bytes = serialize_signer(signers[i]).unwrap();
        r.push(bytes);
        i = i + 1;
    }
    let ghost ns = signers@.len();
    let mut args = non_signer_args;
    let ghost originals = args@;
    r.append(&mut args);
    assert forall|j: int| 0 <= j < originals.len() implies #[trigger] r@[ns + j]@
        == originals[j]@ by {
        assert(r@[ns + j] == originals[j]);
    }
    r
}

/// A call ready for the virtual machine: which function of which module, with which
/// type arguments and serialized arguments.
pub struct Invocation {
    pub module_id: ModuleId,
    pub function_name: String,
    pub ty_args: Vec<move_core_types::language_storage::TypeTag>,
    pub args: Vec<Vec<u8>>,
}

/// Sets up a call of `function_name` in `module`: a fresh store holding `bytes`, the
/// module's serialized form, under the module's identity, and the call aimed at that
/// identity with signers placed before the other arguments.
pub fn prepare_call(
    module: &CompiledModule,
    bytes: Vec<u8>,
    function_name: String,
    non_signer_args: Vec<Vec<u8>>,
    ty_args: Vec<move_core_types::language_storage::TypeTag>,
    signers: Vec<AccountAddress>,
) -> (res: (ModuleStore, Invocation))
    requires
        module.self_handle_valid(),
        signers@.len() + non_signer_args@.len() <= usize::MAX,
    ensures
        res.0.wf(),
        res.0@ == Map::<ModuleKey, Seq<u8>>::empty().insert(module.spec_self_id(), bytes@),
        res.1.module_id.key() == module.spec_self_id(),
        res.1.function_name@ == function_name@,
        res.1.ty_args@ == ty_args@,
        res.1.args@.len() == signers@.len() + non_signer_args@.len(),
        forall|i: int| 0 <= i < signers@.len() ==> #[trigger] res.1.args@[i]@ == signers@[i]@,
        forall|j: int|
            0 <= j < non_signer_args@.len() ==> #[trigger] res.1.args@[signers@.len() + j]@
                == non_signer_args@[j]@,
{
    let mut store = ModuleStore::new();
    let module_id = module.self_id();
    store.add_module(module, bytes);
    let args = combine_signers_and_args(signers, non_signer_args);
    (store, Invocation { module_id, function_name, ty_args, args })
}

} // verus!
