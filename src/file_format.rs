//! The in-memory form of a module: handle tables, pools, definitions and code.
use vstd::prelude::*;

verus! {

/// The schema revision that built modules declare.
pub const VERSION_MAX: u32 = 5;

/// An account address, as its raw bytes.
pub type AccountAddress = [u8; 16];

/// Who may call a function.
#[derive(Clone, Copy, Debug, PartialEq, Eq, Structural)]
pub enum Visibility {
    Private,
    Public,
    Friend,
}

/// A set of abilities, one bit per ability.
#[derive(Clone, Copy, Debug, PartialEq, Eq, Structural)]
pub struct AbilitySet(pub u8);

impl AbilitySet {
    /// The set with no ability in it.
    pub fn empty() -> (r: AbilitySet)
        ensures
            r.0 == 0,
    {
        AbilitySet(0)
    }
}

/// A type as it appears in a signature.
#[derive(Debug)]
pub enum SignatureToken {
    Bool,
    U8,
    U64,
    U128,
    Address,
    Signer,
    Vector(Box<SignatureToken>),
    /// A struct, by its index in the struct-handle table.
    Struct(u16),
    Reference(Box<SignatureToken>),
    MutableReference(Box<SignatureToken>),
    /// A type parameter, by its position.
    TypeParameter(u16),
}

/// An ordered tuple of types: parameters, returns or locals.
#[derive(Debug)]
pub struct Signature(pub Vec<SignatureToken>);

/// Names a module by an address-pool index and an identifier-pool index.
#[derive(Clone, Copy, Debug, PartialEq, Eq, Structural)]
pub struct ModuleHandle {
    pub address: u16,
    pub name: u16,
}

/// Names a struct type declared by some module.
#[derive(Debug)]
pub struct StructHandle {
    pub module: u16,
    pub name: u16,
    pub abilities: AbilitySet,
    pub type_parameters: Vec<AbilitySet>,
}

/// Names a function declared by some module, with its signature indices.
#[derive(Debug)]
pub struct FunctionHandle {
    pub module: u16,
    pub name: u16,
    pub parameters: u16,
    pub return_: u16,
    pub type_parameters: Vec<AbilitySet>,
}

/// One field of a declared struct.
#[derive(Debug)]
pub struct FieldDefinition {
    pub name: u16,
    pub signature: SignatureToken,
}

/// The fields of a struct definition.
#[derive(Debug)]
pub enum StructFieldInformation {
    Native,
    Declared(Vec<FieldDefinition>),
}

/// The definition of a struct whose handle this module holds.
#[derive(Debug)]
pub struct StructDefinition {
    pub struct_handle: u16,
    pub field_information: StructFieldInformation,
}

/// The instructions a built function body uses.
#[derive(Clone, Copy, Debug, PartialEq, Eq, Structural)]
pub enum Bytecode {
    LdU64(u64),
    Abort,
}

/// A function body: the signature index of its locals and its instructions.
#[derive(Debug)]
pub struct CodeUnit {
    pub locals: u16,
    pub code: Vec<Bytecode>,
}

/// The definition of a function whose handle this module holds.
#[derive(Debug)]
pub struct FunctionDefinition {
    pub function: u16,
    pub visibility: Visibility,
    pub is_entry: bool,
    pub acquires_global_resources: Vec<u16>,
    pub code: Option<CodeUnit>,
}

/// A whole module: every cross reference is an index into one of its tables.
#[derive(Debug)]
pub struct CompiledModule {
    pub version: u32,
    pub self_module_handle_idx: u16,
    pub module_handles: Vec<ModuleHandle>,
    pub struct_handles: Vec<StructHandle>,
    pub function_handles: Vec<FunctionHandle>,
    pub signatures: Vec<Signature>,
    pub identifiers: Vec<String>,
    pub address_identifiers: Vec<AccountAddress>,
    pub struct_defs: Vec<StructDefinition>,
    pub function_defs: Vec<FunctionDefinition>,
}

/// Every struct index inside `t` is below `n_structs`.
pub open spec fn token_refs_valid(t: SignatureToken, n_structs: nat) -> bool
    decreases t,
{
    match t {
        SignatureToken::Vector(inner) => token_refs_valid(*inner, n_structs),
        SignatureToken::Reference(inner) => token_refs_valid(*inner, n_structs),
        SignatureToken::MutableReference(inner) => token_refs_valid(*inner, n_structs),
        SignatureToken::Struct(i) => i < n_structs,
        _ => true,
    }
}

/// Every struct index inside the types of `s` is below `n_structs`.
pub open spec fn signature_refs_valid(s: Seq<SignatureToken>, n_structs: nat) -> bool {
    forall|k: int| 0 <= k < s.len() ==> #[trigger] token_refs_valid(s[k], n_structs)
}

/// No two entries of a signature table hold the same types.
pub open spec fn signatures_distinct(sigs: Seq<Signature>) -> bool {
    forall|i: int, j: int|
        0 <= i < sigs.len() && 0 <= j < sigs.len() && i != j ==> #[trigger] sigs[i].0@
            != #[trigger] sigs[j].0@
}

impl CompiledModule {
    /// The self handle names an existing module handle, whose address and name indices
    /// name existing pool entries.
    pub open spec fn self_handle_valid(&self) -> bool {
        &&& self.self_module_handle_idx < self.module_handles@.len()
        &&& self.module_handles@[self.self_module_handle_idx as int].address
            < self.address_identifiers@.len()
        &&& self.module_handles@[self.self_module_handle_idx as int].name
            < self.identifiers@.len()
    }

    /// No index stored anywhere in the module points past the end of its table.
    pub open spec fn indices_valid(&self) -> bool {
        let n_addr = self.address_identifiers@.len();
        let n_ids = self.identifiers@.len();
        let n_mods = self.module_handles@.len();
        let n_structs = self.struct_handles@.len();
        let n_funs = self.function_handles@.len();
        let n_sigs = self.signatures@.len();
        let n_sdefs = self.struct_defs@.len();
        &&& self.self_module_handle_idx < n_mods
        &&& forall|i: int|
            0 <= i < n_mods ==> {
                let h = #[trigger] self.module_handles@[i];
                h.address < n_addr && h.name < n_ids
            }
        &&& forall|i: int|
            0 <= i < n_structs ==> {
                let h = #[trigger] self.struct_handles@[i];
                h.module < n_mods && h.name < n_ids
            }
        &&& forall|i: int|
            0 <= i < n_funs ==> {
                let h = #[trigger] self.function_handles@[i];
                h.module < n_mods && h.name < n_ids && h.parameters < n_sigs && h.return_ < n_sigs
            }
        &&& forall|i: int|
            0 <= i < n_sigs ==> signature_refs_valid(#[trigger] self.signatures@[i].0@, n_structs)
        &&& forall|i: int|
            0 <= i < n_sdefs ==> {
                let d = #[trigger] self.struct_defs@[i];
                &&& d.struct_handle < n_structs
                &&& d.field_information matches StructFieldInformation::Declared(fields) ==> forall|
                    k: int,
                |
                    0 <= k < fields@.len() ==> {
                        let f = #[trigger] fields@[k];
                        f.name < n_ids && token_refs_valid(f.signature, n_structs)
                    }
            }
        &&& forall|i: int|
            0 <= i < self.function_defs@.len() ==> {
                let d = #[trigger] self.function_defs@[i];
                &&& d.function < n_funs
                &&& forall|k: int|
                    0 <= k < d.acquires_global_resources@.len()
                        ==> #[trigger] d.acquires_global_resources@[k] < n_sdefs
                &&& d.code matches Some(c) ==> c.locals < n_sigs
            }
    }

}

} // verus!
