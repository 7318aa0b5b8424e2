use move_core_types::account_address::AccountAddress as OutsideAddress;
use move_core_types::identifier::Identifier;
use move_core_types::language_storage::{StructTag, TypeTag};
use movedemo::builder::make_module_with_function_at;
use movedemo::file_format::{CompiledModule, Signature, Visibility};
use movedemo::invoke::{combine_signers_and_args, prepare_call};
use movedemo::store::{module_id_eq, ModuleId, ModuleStore};

fn module_at(address: [u8; 16]) -> CompiledModule {
    make_module_with_function_at(address, Visibility::Public, false, Signature(vec![]), Signature(vec![]), vec![]).0
}

fn tag() -> StructTag {
    StructTag {
        address: OutsideAddress::new([1u8; 16]),
        module: Identifier::new("M").unwrap(),
        name: Identifier::new("X").unwrap(),
        type_params: vec![],
    }
}

#[test]
fn self_id_comes_from_self_handle() {
    let m = module_at([3u8; 16]);
    let id = m.self_id();
    assert_eq!(id.address, [3u8; 16]);
    assert_eq!(id.name, "M");
}

#[test]
fn resolve_after_add_yields_bytes() {
    let m = module_at([4u8; 16]);
    let mut store = ModuleStore::new();
    store.add_module(&m, vec![1, 2, 3]);
    assert_eq!(store.get_module(&m.self_id()), Some(vec![1, 2, 3]));
}

#[test]
fn adding_twice_keeps_latest_bytes() {
    let m = module_at([5u8; 16]);
    let mut store = ModuleStore::new();
    store.add_module(&m, vec![1]);
    store.add_module(&m, vec![9, 9]);
    assert_eq!(store.get_module(&m.self_id()), Some(vec![9, 9]));
}

#[test]
fn unknown_module_not_found() {
    let mut store = ModuleStore::new();
    let other = ModuleId { address: [6u8; 16], name: "M".to_string() };
    assert_eq!(store.get_module(&other), None);
    store.add_module(&module_at([5u8; 16]), vec![1]);
    assert_eq!(store.get_module(&other), None);
    let renamed = ModuleId { address: [5u8; 16], name: "N".to_string() };
    assert_eq!(store.get_module(&renamed), None);
}

#[test]
fn two_modules_held_side_by_side() {
    let a = module_at([1u8; 16]);
    let b = module_at([2u8; 16]);
    let mut store = ModuleStore::new();
    store.add_module(&a, vec![10]);
    store.add_module(&b, vec![20]);
    assert_eq!(store.get_module(&a.self_id()), Some(vec![10]));
    assert_eq!(store.get_module(&b.self_id()), Some(vec![20]));
}

#[test]
fn resources_never_found() {
    let mut store = ModuleStore::new();
    assert_eq!(store.get_resource(&[0u8; 16], &tag()), None);
    store.add_module(&module_at([1u8; 16]), vec![1]);
    assert_eq!(store.get_resource(&[1u8; 16], &tag()), None);
}

#[test]
fn module_id_equality() {
    let a = ModuleId { address: [1u8; 16], name: "M".to_string() };
    let b = ModuleId { address: [1u8; 16], name: "M".to_string() };
    let mut c_address = [1u8; 16];
    c_address[15] = 2;
    let c = ModuleId { address: c_address, name: "M".to_string() };
    assert!(module_id_eq(&a, &b));
    assert!(!module_id_eq(&a, &c));
}

#[test]
fn signers_precede_other_arguments() {
    let mut first = [0u8; 16];
    first[0] = 0xaa;
    let second = [0x11u8; 16];
    let args = combine_signers_and_args(vec![first, second], vec![vec![1, 2], vec![]]);
    assert_eq!(args.len(), 4);
    assert_eq!(args[0], first.to_vec());
    assert_eq!(args[1], second.to_vec());
    assert_eq!(args[2], vec![1, 2]);
    assert_eq!(args[3], Vec::<u8>::new());
}

#[test]
fn no_signers_no_arguments() {
    assert!(combine_signers_and_args(vec![], vec![]).is_empty());
}

#[test]
fn prepared_call_targets_module() {
    let m = module_at([8u8; 16]);
    let (store, call) = prepare_call(&m, vec![4, 5], "foo".to_string(), vec![vec![7]], vec![TypeTag::U64], vec![[9u8; 16]]);
    assert_eq!(call.module_id.address, [8u8; 16]);
    assert_eq!(call.module_id.name, "M");
    assert_eq!(call.function_name, "foo");
    assert_eq!(call.ty_args, vec![TypeTag::U64]);
    assert_eq!(call.args, vec![vec![9u8; 16], vec![7]]);
    assert_eq!(store.get_module(&call.module_id), Some(vec![4, 5]));
}

#[test]
fn prepared_call_for_missing_function_still_builds() {
    let m = module_at([8u8; 16]);
    let (store, call) = prepare_call(&m, vec![1], "bar".to_string(), vec![], vec![], vec![]);
    assert_eq!(call.function_name, "bar");
    assert!(call.args.is_empty());
    assert_eq!(store.get_module(&call.module_id), Some(vec![1]));
}
