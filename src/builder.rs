//! Assembles one module with a single struct and a single function.
use vstd::prelude::*;
use crate::file_format::{
    signature_refs_valid, signatures_distinct, AbilitySet, AccountAddress, Bytecode,
    CodeUnit, CompiledModule, FieldDefinition, FunctionDefinition, FunctionHandle, ModuleHandle,
    Signature, SignatureToken, StructDefinition, StructFieldInformation, StructHandle, Visibility,
    VERSION_MAX,
};

verus! {

/// Structural equality of two types.
pub fn token_eq(a: &SignatureToken, b: &SignatureToken) -> (r: bool)
    ensures
        r == (*a == *b),
    decreases a,
{
    match (a, b) {
        (SignatureToken::Bool, SignatureToken::Bool) => true,
        (SignatureToken::U8, SignatureToken::U8) => true,
        (SignatureToken::U64, SignatureToken::U64) => true,
        (SignatureToken::U128, SignatureToken::U128) => true,
        (SignatureToken::Address, SignatureToken::Address) => true,
        (SignatureToken::Signer, SignatureToken::Signer) => true,
        (SignatureToken::Vector(x), SignatureToken::Vector(y)) => token_eq(x, y),
        (SignatureToken::Struct(x), SignatureToken::Struct(y)) => *x == *y,
        (SignatureToken::Reference(x), SignatureToken::Reference(y)) => token_eq(x, y),
        (SignatureToken::MutableReference(x), SignatureToken::MutableReference(y)) => token_eq(
            x,
            y,
        ),
        (SignatureToken::TypeParameter(x), SignatureToken::TypeParameter(y)) => *x == *y,
        _ => false,
    }
}

/// Structural equality of two signatures.
pub fn signature_eq(a: &Signature, b: &Signature) -> (r: bool)
    ensures
        r == (a.0@ == b.0@),
{
    if a.0.len() != b.0.len() {
        return false;
    }
    let mut k: usize = 0;
    while k < a.0.len()
        invariant
            a.0@.len() == b.0@.len(),
            0 <= k <= a.0@.len(),
            forall|m: int| 0 <= m < k ==> a.0@[m] == b.0@[m],
        decreases a.0@.len() - k,
    {
        if !token_eq(&a.0[k], &b.0[k]) {
            return false;
        }
        k = k + 1;
    }
    assert(a.0@ =~= b.0@);
    true
}

/// Position of the first entry of `sigs` that holds the types `s`, if any.
pub open spec fn first_index_of(sigs: Seq<Seq<SignatureToken>>, s: Seq<SignatureToken>) -> Option<
    nat,
>
    decreases sigs.len(),
{
    if sigs.len() == 0 {
        None
    } else if sigs[0] == s {
        Some(0)
    } else {
        match first_index_of(sigs.subrange(1, sigs.len() as int), s) {
            Some(i) => Some(i + 1),
            None => None,
        }
    }
}

/// The types held by each entry of a signature table.
pub open spec fn table_view(sigs: Seq<Signature>) -> Seq<Seq<SignatureToken>> {
    sigs.map_values(|s: Signature| s.0@)
}

proof fn lemma_first_index_of(sigs: Seq<Seq<SignatureToken>>, s: Seq<SignatureToken>)
    ensures
        first_index_of(sigs, s) matches Some(i) ==> i < sigs.len() && sigs[i as int] == s
            && forall|m: int| 0 <= m < i ==> sigs[m] != s,
        first_index_of(sigs, s) is None ==> forall|m: int| 0 <= m < sigs.len() ==> sigs[m] != s,
    decreases sigs.len(),
{
    if sigs.len() > 0 {
        let rest = sigs.subrange(1, sigs.len() as int);
        lemma_first_index_of(rest, s);
        assert forall|m: int| 0 < m < sigs.len() implies sigs[m] == rest[m - 1] by {}
    }
}

proof fn lemma_table_after(sigs: Seq<Seq<SignatureToken>>, s: Seq<SignatureToken>)
    ensures
        forall|i: int|
            0 <= i < table_after(sigs, s).len() ==> #[trigger] table_after(sigs, s)[i] == s || (i
                < sigs.len() && table_after(sigs, s)[i] == sigs[i]),
        (forall|i: int, j: int|
            0 <= i < sigs.len() && 0 <= j < sigs.len() && i != j ==> sigs[i] != sigs[j]) ==> (
        forall|i: int, j: int|
            0 <= i < table_after(sigs, s).len() && 0 <= j < table_after(sigs, s).len() && i != j
                ==> #[trigger] table_after(sigs, s)[i] != #[trigger] table_after(sigs, s)[j]),
{
    lemma_first_index_of(sigs, s);
}

/// The table after looking `s` up in `sigs`: unchanged when present, else `s` appended.
pub open spec fn table_after(sigs: Seq<Seq<SignatureToken>>, s: Seq<SignatureToken>) -> Seq<
    Seq<SignatureToken>,
> {
    if first_index_of(sigs, s) is Some {
        sigs
    } else {
        sigs.push(s)
    }
}

/// The index that looking `s` up in `sigs` yields.
pub open spec fn index_after(sigs: Seq<Seq<SignatureToken>>, s: Seq<SignatureToken>) -> nat {
    match first_index_of(sigs, s) {
        Some(i) => i,
        None => sigs.len(),
    }
}

/// Finds `sig` in the table by structural equality and returns its index; appends it
/// first when no entry holds the same types.
pub fn find_or_push_signature(signatures: &mut Vec<Signature>, sig: Signature) -> (idx: u16)
    requires
        old(signatures)@.len() < 0xffff,
    ensures
        table_view(final(signatures)@) == table_after(table_view(old(signatures)@), sig.0@),
        idx as nat == index_after(table_view(old(signatures)@), sig.0@),
        idx < final(signatures)@.len(),
        final(signatures)@.len() <= old(signatures)@.len() + 1,
        forall|i: int|
            0 <= i < final(signatures)@.len() ==> (i < old(signatures)@.len()
                && #[trigger] final(signatures)@[i] == old(signatures)@[i])
                || final(signatures)@[i].0@ == sig.0@,
        final(signatures)@[idx as int].0@ == sig.0@,
        signatures_distinct(old(signatures)@) ==> signatures_distinct(final(signatures)@),
{
    let ghost before = table_view(signatures@);
    proof {
        lemma_first_index_of(before, sig.0@);
    }
    let mut k: usize = 0;
    while k < signatures.len()
        invariant
            0 <= k <= signatures@.len(),
            signatures@.len() < 0xffff,
            before == table_view(signatures@),
            forall|m: int| 0 <= m < k ==> signatures@[m].0@ != sig.0@,
        decreases signatures@.len() - k,
    {
        if signature_eq(&signatures[k], &sig) {
            proof {
                assert(before[k as int] == sig.0@);
                assert(first_index_of(before, sig.0@) == Some(k as nat)) by {
                    lemma_first_index_of(before, sig.0@);
                    if first_index_of(before, sig.0@) is None {
                        assert(before[k as int] != sig.0@);
                    }
                    let i = first_index_of(before, sig.0@).unwrap();
                    if i < k {
                        assert(before[i as int] != sig.0@);
                    }
                    if i > k {
                        assert(before[k as int] != sig.0@);
                    }
                }
            }
            return k as u16;
        }
        k = k + 1;
    }
    assert(first_index_of(before, sig.0@) is None) by {
        if first_index_of(before, sig.0@) is Some {
            let i = first_index_of(before, sig.0@).unwrap();
            assert(before[i as int] == sig.0@);
        }
    }
    let ghost old_sigs = signatures@;
    signatures.push(sig);
    assert(table_view(signatures@) =~= before.push(sig.0@));
    proof {
        if signatures_distinct(old_sigs) {
            assert forall|i: int, j: int|
                0 <= i < signatures@.len() && 0 <= j < signatures@.len() && i != j implies #[trigger] signatures@[i].0@
                    != #[trigger] signatures@[j].0@ by {
                if i < old_sigs.len() && j < old_sigs.len() {
                    assert(old_sigs[i].0@ != old_sigs[j].0@);
                }
            }
        }
    }
    (signatures.len() - 1) as u16
}

/// The signature table of a built module, as the types of each entry.
pub open spec fn built_signatures(p: Seq<SignatureToken>, r: Seq<SignatureToken>) -> Seq<
    Seq<SignatureToken>,
> {
    table_after(table_after(seq![Seq::empty()], p), r)
}

/// The signature index of a built function's parameters.
pub open spec fn built_parameters_index(p: Seq<SignatureToken>) -> nat {
    index_after(seq![Seq::empty()], p)
}

/// The signature index of a built function's returns.
pub open spec fn built_return_index(p: Seq<SignatureToken>, r: Seq<SignatureToken>) -> nat {
    index_after(table_after(seq![Seq::empty()], p), r)
}

/// The name given to the built module.
pub open spec fn module_name() -> Seq<char> {
    seq!['M']
}

/// The name given to the built struct.
pub open spec fn struct_name() -> Seq<char> {
    seq!['X']
}

/// The name given to the built function.
pub open spec fn function_name() -> Seq<char> {
    seq!['f', 'o', 'o']
}

/// `m` is the module built from these inputs with `address` as its one address.
pub open spec fn is_built_module(
    m: CompiledModule,
    address: Seq<u8>,
    visibility: Visibility,
    is_entry: bool,
    p: Seq<SignatureToken>,
    r: Seq<SignatureToken>,
    type_parameters: Seq<AbilitySet>,
) -> bool {
    &&& m.version == VERSION_MAX
    &&& m.self_module_handle_idx == 0
    &&& m.module_handles@ == seq![ModuleHandle { address: 0, name: 0 }]
    &&& m.struct_handles@.len() == 1
    &&& m.struct_handles@[0].module == 0
    &&& m.struct_handles@[0].name == 1
    &&& m.struct_handles@[0].abilities.0 == 0
    &&& m.struct_handles@[0].type_parameters@.len() == 0
    &&& m.function_handles@.len() == 1
    &&& m.function_handles@[0].module == 0
    &&& m.function_handles@[0].name == 2
    &&& m.function_handles@[0].parameters as nat == built_parameters_index(p)
    &&& m.function_handles@[0].return_ as nat == built_return_index(p, r)
    &&& m.function_handles@[0].type_parameters@ == type_parameters
    &&& table_view(m.signatures@) == built_signatures(p, r)
    &&& m.identifiers@.len() == 3
    &&& m.identifiers@[0]@ == module_name()
    &&& m.identifiers@[1]@ == struct_name()
    &&& m.identifiers@[2]@ == function_name()
    &&& m.address_identifiers@.len() == 1
    &&& m.address_identifiers@[0]@ == address
    &&& m.struct_defs@.len() == 1
    &&& m.struct_defs@[0].struct_handle == 0
    &&& m.struct_defs@[0].field_information matches StructFieldInformation::Declared(fields)
    &&& fields@.len() == 1
    &&& fields@[0].name == 1
    &&& fields@[0].signature == SignatureToken::Bool
    &&& m.function_defs@.len() == 1
    &&& m.function_defs@[0].function == 0
    &&& m.function_defs@[0].visibility == visibility
    &&& m.function_defs@[0].is_entry == is_entry
    &&& m.function_defs@[0].acquires_global_resources@.len() == 0
    &&& m.function_defs@[0].code matches Some(c)
    &&& c.locals == 0
    &&& c.code@ == seq![Bytecode::LdU64(0), Bytecode::Abort]
}

/// Builds the module around the given address: one module handle, one struct with a
/// boolean field, one function whose body pushes zero and aborts. Returns the module
/// and the name of its function.
pub fn make_module_with_function_at(
    address: AccountAddress,
    visibility: Visibility,
    is_entry: bool,
    parameters: Signature,
    return_: Signature,
    type_parameters: Vec<AbilitySet>,
) -> (res: (CompiledModule, String))
    ensures
        is_built_module(
            res.0,
            address@,
            visibility,
            is_entry,
            parameters.0@,
            return_.0@,
            type_parameters@,
        ),
        res.1@ == function_name(),
        res.0.self_handle_valid(),
        signatures_distinct(res.0.signatures@),
        signature_refs_valid(parameters.0@, 1) && signature_refs_valid(return_.0@, 1)
            ==> res.0.indices_valid(),
{
    let ghost p = parameters.0@;
    let ghost r = return_.0@;
    let mut signatures: Vec<Signature> = vec![Signature(Vec::new())];
    assert(table_view(signatures@) =~= seq![Seq::<SignatureToken>::empty()]);
    assert(signatures_distinct(signatures@));
    let parameters_idx = find_or_push_signature(&mut signatures, parameters);
    let ghost mid = signatures@;
    assert(forall|i: int| 0 <= i < mid.len() ==> mid[i].0@.len() == 0 || #[trigger] mid[i].0@ == p);
    let return_idx = find_or_push_signature(&mut signatures, return_);
    proof {
        reveal_strlit("M");
        reveal_strlit("X");
        reveal_strlit("foo");
    }
    let module = CompiledModule {
        version: VERSION_MAX,
        self_module_handle_idx: 0,
        module_handles: vec![ModuleHandle { address: 0, name: 0 }],
        struct_handles: vec![
            StructHandle {
                module: 0,
                name: 1,
                abilities: AbilitySet::empty(),
                type_parameters: Vec::new(),
            },
        ],
        function_handles: vec![
            FunctionHandle {
                module: 0,
                name: 2,
                parameters: parameters_idx,
                return_: return_idx,
                type_parameters,
            },
        ],
        signatures,
        identifiers: vec!["M".to_owned(), "X".to_owned(), "foo".to_owned()],
        address_identifiers: vec![address],
        struct_defs: vec![
            StructDefinition {
                struct_handle: 0,
                field_information: StructFieldInformation::Declared(
                    vec![FieldDefinition { name: 1, signature: SignatureToken::Bool }],
                ),
            },
        ],
        function_defs: vec![
            FunctionDefinition {
                function: 0,
                visibility,
                is_entry,
                acquires_global_resources: Vec::new(),
                code: Some(CodeUnit { locals: 0, code: vec![Bytecode::LdU64(0), Bytecode::Abort] }),
            },
        ],
    };
    let name = "foo".to_owned();
    proof {
        assert(module.identifiers@[0]@ =~= module_name());
        assert(module.identifiers@[1]@ =~= struct_name());
        assert(module.identifiers@[2]@ =~= function_name());
        assert(module.function_defs@[0].code.unwrap().code@ =~= seq![
            Bytecode::LdU64(0),
            Bytecode::Abort,
        ]);
        assert(module.module_handles@ =~= seq![ModuleHandle { address: 0, name: 0 }]);
        if signature_refs_valid(p, 1) && signature_refs_valid(r, 1) {
            assert forall|i: int| 0 <= i < module.signatures@.len() implies signature_refs_valid(
                #[trigger] module.signatures@[i].0@,
                1,
            ) by {
                assert(table_view(module.signatures@)[i] == module.signatures@[i].0@);
                if module.signatures@[i].0@ != r {
                    assert(module.signatures@[i] == mid[i]);
                }
            }
        }
    }
    (module, name)
}

/// Relies on move_core_types::account_address::AccountAddress::random: a fresh address
/// drawn from the operating system's random source. Nothing is known of its bytes.
#[verifier::external_body]
fn random_address() -> (r: AccountAddress) {
    move_core_types::account_address::AccountAddress::random().into_bytes()
}

/// Builds the module around a freshly drawn address (see `make_module_with_function_at`).
pub fn make_module_with_function(
    visibility: Visibility,
    is_entry: bool,
    parameters: Signature,
    return_: Signature,
    type_parameters: Vec<AbilitySet>,
) -> (res: (CompiledModule, String))
    ensures
        res.0.address_identifiers@.len() == 1,
        is_built_module(
            res.0,
            res.0.address_identifiers@[0]@,
            visibility,
            is_entry,
            parameters.0@,
            return_.0@,
            type_parameters@,
        ),
        res.1@ == function_name(),
        res.0.self_handle_valid(),
        signatures_distinct(res.0.signatures@),
        signature_refs_valid(parameters.0@, 1) && signature_refs_valid(return_.0@, 1)
            ==> res.0.indices_valid(),
{
    let address = random_address();
    make_module_with_function_at(address, visibility, is_entry, parameters, return_, type_parameters)
}

/// Whatever the parameter and return types, the signature table of a built module never
/// holds the same types twice, also when both are the same or empty.
pub proof fn lemma_built_signatures_distinct(p: Seq<SignatureToken>, r: Seq<SignatureToken>)
    ensures
        forall|i: int, j: int|
            0 <= i < built_signatures(p, r).len() && 0 <= j < built_signatures(p, r).len() && i
                != j ==> #[trigger] built_signatures(p, r)[i] != #[trigger] built_signatures(p, r)[j],
{
    let base = seq![Seq::<SignatureToken>::empty()];
    lemma_table_after(base, p);
    lemma_table_after(table_after(base, p), r);
}

/// In a built module every index stored in a handle, a definition or a code body names
/// an existing entry of its table, provided the given types name only the one struct.
pub proof fn lemma_built_module_indices_valid(
    m: CompiledModule,
    address: Seq<u8>,
    visibility: Visibility,
    is_entry: bool,
    p: Seq<SignatureToken>,
    r: Seq<SignatureToken>,
    type_parameters: Seq<AbilitySet>,
)
    requires
        is_built_module(m, address, visibility, is_entry, p, r, type_parameters),
        signature_refs_valid(p, 1),
        signature_refs_valid(r, 1),
    ensures
        m.indices_valid(),
{
    let base = seq![Seq::<SignatureToken>::empty()];
    lemma_table_after(base, p);
    lemma_table_after(table_after(base, p), r);
    lemma_first_index_of(base, p);
    lemma_first_index_of(table_after(base, p), r);
    assert forall|i: int| 0 <= i < m.signatures@.len() implies signature_refs_valid(
        #[trigger] m.signatures@[i].0@,
        1,
    ) by {
        assert(table_view(m.signatures@)[i] == m.signatures@[i].0@);
    }
}

} // verus!
