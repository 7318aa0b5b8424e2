use movedemo::builder::{make_module_with_function, make_module_with_function_at, signature_eq, token_eq};
use movedemo::file_format::{
    AbilitySet, Bytecode, CompiledModule, Signature, SignatureToken, StructFieldInformation,
    Visibility, VERSION_MAX,
};

fn sig(tokens: Vec<SignatureToken>) -> Signature {
    Signature(tokens)
}

fn table_lengths(m: &CompiledModule) -> Vec<usize> {
    m.signatures.iter().map(|s| s.0.len()).collect()
}

fn assert_no_duplicate_signatures(m: &CompiledModule) {
    for i in 0..m.signatures.len() {
        for j in 0..m.signatures.len() {
            if i != j {
                assert!(!signature_eq(&m.signatures[i], &m.signatures[j]));
            }
        }
    }
}

fn assert_indices_in_range(m: &CompiledModule) {
    assert!((m.self_module_handle_idx as usize) < m.module_handles.len());
    for h in &m.module_handles {
        assert!((h.address as usize) < m.address_identifiers.len());
        assert!((h.name as usize) < m.identifiers.len());
    }
    for h in &m.struct_handles {
        assert!((h.module as usize) < m.module_handles.len());
        assert!((h.name as usize) < m.identifiers.len());
    }
    for h in &m.function_handles {
        assert!((h.module as usize) < m.module_handles.len());
        assert!((h.name as usize) < m.identifiers.len());
        assert!((h.parameters as usize) < m.signatures.len());
        assert!((h.return_ as usize) < m.signatures.len());
    }
    for d in &m.struct_defs {
        assert!((d.struct_handle as usize) < m.struct_handles.len());
    }
    for d in &m.function_defs {
        assert!((d.function as usize) < m.function_handles.len());
        assert!((d.code.as_ref().unwrap().locals as usize) < m.signatures.len());
    }
}

#[test]
fn empty_signatures_share_entry_zero() {
    let (m, name) = make_module_with_function(Visibility::Public, false, sig(vec![]), sig(vec![]), vec![]);
    assert_eq!(name, "foo");
    assert_eq!(m.signatures.len(), 1);
    assert_eq!(m.function_handles[0].parameters, 0);
    assert_eq!(m.function_handles[0].return_, 0);
    assert_no_duplicate_signatures(&m);
    assert_indices_in_range(&m);
}

#[test]
fn same_parameter_and_return_signature_stored_once() {
    let (m, _) = make_module_with_function(
        Visibility::Private,
        true,
        sig(vec![SignatureToken::U64, SignatureToken::Bool]),
        sig(vec![SignatureToken::U64, SignatureToken::Bool]),
        vec![],
    );
    assert_eq!(table_lengths(&m), vec![0, 2]);
    assert_eq!(m.function_handles[0].parameters, 1);
    assert_eq!(m.function_handles[0].return_, 1);
    assert_no_duplicate_signatures(&m);
    assert_indices_in_range(&m);
}

#[test]
fn distinct_signatures_get_fresh_entries() {
    let (m, _) = make_module_with_function(
        Visibility::Public,
        false,
        sig(vec![SignatureToken::Address]),
        sig(vec![SignatureToken::Vector(Box::new(SignatureToken::U8))]),
        vec![AbilitySet(1)],
    );
    assert_eq!(table_lengths(&m), vec![0, 1, 1]);
    assert_eq!(m.function_handles[0].parameters, 1);
    assert_eq!(m.function_handles[0].return_, 2);
    assert_eq!(m.function_handles[0].type_parameters, vec![AbilitySet(1)]);
    assert_no_duplicate_signatures(&m);
    assert_indices_in_range(&m);
}

#[test]
fn empty_parameters_with_nonempty_return() {
    let (m, _) = make_module_with_function(
        Visibility::Friend,
        false,
        sig(vec![]),
        sig(vec![SignatureToken::Struct(0)]),
        vec![],
    );
    assert_eq!(table_lengths(&m), vec![0, 1]);
    assert_eq!(m.function_handles[0].parameters, 0);
    assert_eq!(m.function_handles[0].return_, 1);
    assert_no_duplicate_signatures(&m);
    assert_indices_in_range(&m);
}

#[test]
fn built_module_layout() {
    let address = [7u8; 16];
    let (m, name) =
        make_module_with_function_at(address, Visibility::Public, false, sig(vec![]), sig(vec![]), vec![]);
    assert_eq!(name, "foo");
    assert_eq!(m.version, VERSION_MAX);
    assert_eq!(m.identifiers, vec!["M".to_string(), "X".to_string(), "foo".to_string()]);
    assert_eq!(m.address_identifiers, vec![address]);
    assert_eq!(m.self_module_handle_idx, 0);
    assert_eq!(m.module_handles[0].address, 0);
    assert_eq!(m.module_handles[0].name, 0);
    assert_eq!(m.struct_handles[0].name, 1);
    assert_eq!(m.struct_handles[0].abilities, AbilitySet::empty());
    assert_eq!(m.function_handles[0].name, 2);
    match &m.struct_defs[0].field_information {
        StructFieldInformation::Declared(fields) => {
            assert_eq!(fields.len(), 1);
            assert_eq!(fields[0].name, 1);
            assert!(token_eq(&fields[0].signature, &SignatureToken::Bool));
        }
        StructFieldInformation::Native => panic!("struct fields must be declared"),
    }
    let f = &m.function_defs[0];
    assert_eq!(f.visibility, Visibility::Public);
    assert!(!f.is_entry);
    assert!(f.acquires_global_resources.is_empty());
    let code = f.code.as_ref().unwrap();
    assert_eq!(code.locals, 0);
    assert_eq!(code.code, vec![Bytecode::LdU64(0), Bytecode::Abort]);
}

#[test]
fn fresh_address_each_build() {
    let (a, _) = make_module_with_function(Visibility::Public, false, sig(vec![]), sig(vec![]), vec![]);
    let (b, _) = make_module_with_function(Visibility::Public, false, sig(vec![]), sig(vec![]), vec![]);
    assert_eq!(a.address_identifiers.len(), 1);
    assert_ne!(a.address_identifiers[0], b.address_identifiers[0]);
}

#[test]
fn token_equality_is_structural() {
    let a = SignatureToken::Reference(Box::new(SignatureToken::Vector(Box::new(SignatureToken::U64))));
    let b = SignatureToken::Reference(Box::new(SignatureToken::Vector(Box::new(SignatureToken::U64))));
    let c = SignatureToken::MutableReference(Box::new(SignatureToken::Vector(Box::new(SignatureToken::U64))));
    assert!(token_eq(&a, &b));
    assert!(!token_eq(&a, &c));
    assert!(!token_eq(&SignatureToken::TypeParameter(0), &SignatureToken::TypeParameter(1)));
    assert!(!signature_eq(&sig(vec![SignatureToken::U8]), &sig(vec![SignatureToken::U8, SignatureToken::U8])));
}
