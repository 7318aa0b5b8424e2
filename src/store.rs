//! An in-memory store of serialized modules, keyed by module identity.
use vstd::prelude::*;
use crate::file_format::{AccountAddress, CompiledModule};

verus! {

/// Relies on move_core_types::language_storage::StructTag only as a carried value: the
/// store never looks inside one.
#[verifier::external_type_specification]
#[verifier::external_body]
pub struct ExStructTag(move_core_types::language_storage::StructTag);

/// The identity of a module: the address that publishes it and its name.
#[derive(Debug)]
pub struct ModuleId {
    pub address: AccountAddress,
    pub name: String,
}

/// A module identity as plain values.
pub type ModuleKey = (Seq<u8>, Seq<char>);

impl ModuleId {
    pub open spec fn key(&self) -> ModuleKey {
        (self.address@, self.name@)
    }
}

/// Byte-wise equality of two addresses.
pub fn address_eq(a: &AccountAddress, b: &AccountAddress) -> (r: bool)
    ensures
        r == (a@ == b@),
{
    let mut k: usize = 0;
    while k < 16
        invariant
            0 <= k <= 16,
            a@.len() == 16,
            b@.len() == 16,
            forall|m: int| 0 <= m < k ==> a@[m] == b@[m],
        decreases 16 - k,
    {
        if a[k] != b[k] {
            return false;
        }
        k = k + 1;
    }
    assert(a@ =~= b@);
    true
}

/// Equality of two module identities.
pub fn module_id_eq(a: &ModuleId, b: &ModuleId) -> (r: bool)
    ensures
        r == (a.key() == b.key()),
{
    address_eq(&a.address, &b.address) && a.name == b.name
}

impl CompiledModule {
    /// The identity named by the module's self handle.
    pub open spec fn spec_self_id(&self) -> ModuleKey {
        let h = self.module_handles@[self.self_module_handle_idx as int];
        (self.address_identifiers@[h.address as int]@, self.identifiers@[h.name as int]@)
    }

    /// The identity named by the module's self handle.
    pub fn self_id(&self) -> (r: ModuleId)
        requires
            self.self_handle_valid(),
        ensures
            r.key() == self.spec_self_id(),
    {
        let h = self.module_handles[self.self_module_handle_idx as usize];
        ModuleId {
            address: self.address_identifiers[h.address as usize],
            name: self.identifiers[h.name as usize].clone(),
        }
    }
}

/// Serialized modules by identity; each identity is held at most once.
pub struct ModuleStore {
    modules: Vec<(ModuleId, Vec<u8>)>,
}

impl View for ModuleStore {
    type V = Map<ModuleKey, Seq<u8>>;

    closed spec fn view(&self) -> Map<ModuleKey, Seq<u8>> {
        Map::new(
            |k: ModuleKey| exists|i: int| 0 <= i < self.modules@.len() && #[trigger] self.modules@[i].0.key() == k,
            |k: ModuleKey|
                self.modules@[choose|i: int| 0 <= i < self.modules@.len() && #[trigger] self.modules@[i].0.key() == k].1@,
        )
    }
}

impl ModuleStore {
    /// No identity is held twice.
    pub closed spec fn wf(&self) -> bool {
        forall|i: int, j: int|
            0 <= i < self.modules@.len() && 0 <= j < self.modules@.len() && i != j
                ==> #[trigger] self.modules@[i].0.key() != #[trigger] self.modules@[j].0.key()
    }

    proof fn lemma_entry_in_view(&self, i: int)
        requires
            self.wf(),
            0 <= i < self.modules@.len(),
        ensures
            self@.contains_key(self.modules@[i].0.key()),
            self@[self.modules@[i].0.key()] == self.modules@[i].1@,
    {
        let k = self.modules@[i].0.key();
        assert(self.modules@[i].0.key() == k);
        let j = choose|j: int| 0 <= j < self.modules@.len() && #[trigger] self.modules@[j].0.key() == k;
        assert(i == j);
    }

    /// An empty store.
    pub fn new() -> (r: ModuleStore)
        ensures
            r.wf(),
            r@ == Map::<ModuleKey, Seq<u8>>::empty(),
    {
        let r = ModuleStore { modules: Vec::new() };
        assert(r@ =~= Map::<ModuleKey, Seq<u8>>::empty());
        r
    }

    /// Position of the entry held under `id`, if any.
    fn find(&self, id: &ModuleId) -> (r: Option<usize>)
        requires
            self.wf(),
        ensures
            r matches Some(i) ==> i < self.modules@.len() && self.modules@[i as int].0.key()
                == id.key(),
            r is None ==> !self@.contains_key(id.key()),
    {
        let mut k: usize = 0;
        while k < self.modules.len()
            invariant
                0 <= k <= self.modules@.len(),
                forall|m: int| 0 <= m < k ==> self.modules@[m].0.key() != id.key(),
            decreases self.modules@.len() - k,
        {
            if module_id_eq(&self.modules[k].0, id) {
                return Some(k);
            }
            k = k + 1;
        }
        None
    }

    /// Stores `bytes`, the serialized form of `module`, under the module's own
    /// identity; an entry already held under that identity is replaced.
    pub fn add_module(&mut self, module: &CompiledModule, bytes: Vec<u8>)
        requires
            old(self).wf(),
            module.self_handle_valid(),
        ensures
            final(self).wf(),
            final(self)@ == old(self)@.insert(module.spec_self_id(), bytes@),
    {
        let id = module.self_id();
        let ghost key = id.key();
        let ghost b = bytes@;
        let ghost before = self.modules@;
        match self.find(&id) {
            Some(i) => {
                self.modules.set(i, (id, bytes));
                proof {
                    assert forall|k: ModuleKey| #[trigger] self@.contains_key(k) == old(self)@.insert(key, b).contains_key(k) by {
                        if k != key {
                            if old(self)@.contains_key(k) {
                                let j = choose|j: int| 0 <= j < before.len() && #[trigger] before[j].0.key() == k;
                                assert(self.modules@[j].0.key() == k);
                            }
                            if self@.contains_key(k) {
                                let j = choose|j: int| 0 <= j < self.modules@.len() && #[trigger] self.modules@[j].0.key() == k;
                                assert(before[j].0.key() == k);
                            }
                        } else {
                            assert(self.modules@[i as int].0.key() == k);
                        }
                    }
                    assert forall|k: ModuleKey| #[trigger] self@.contains_key(k) implies self@[k] == old(self)@.insert(key, b)[k] by {
                        let j = choose|j: int| 0 <= j < self.modules@.len() && #[trigger] self.modules@[j].0.key() == k;
                        self.lemma_entry_in_view(j);
                        if j != i {
                            old(self).lemma_entry_in_view(j);
                        }
                    }
                    assert(self@ =~= old(self)@.insert(key, b));
                }
            },
            None => {
                self.modules.push((id, bytes));
                proof {
                    let n = before.len() as int;
                    assert(self.modules@[n].0.key() == key);
                    assert forall|k: ModuleKey| #[trigger] self@.contains_key(k) == old(self)@.insert(key, b).contains_key(k) by {
                        if old(self)@.contains_key(k) {
                            let j = choose|j: int| 0 <= j < before.len() && #[trigger] before[j].0.key() == k;
                            assert(self.modules@[j].0.key() == k);
                        }
                        if self@.contains_key(k) && k != key {
                            let j = choose|j: int| 0 <= j < self.modules@.len() && #[trigger] self.modules@[j].0.key() == k;
                            assert(before[j].0.key() == k);
                        }
                    }
                    assert forall|k: ModuleKey| #[trigger] self@.contains_key(k) implies self@[k] == old(self)@.insert(key, b)[k] by {
                        let j = choose|j: int| 0 <= j < self.modules@.len() && #[trigger] self.modules@[j].0.key() == k;
                        self.lemma_entry_in_view(j);
                        if j != n {
                            old(self).lemma_entry_in_view(j);
                        }
                    }
                    assert(self@ =~= old(self)@.insert(key, b));
                }
            },
        }
    }

    /// The bytes held under `id`, or `None` when no module has that identity.
    pub fn get_module(&self, id: &ModuleId) -> (r: Option<Vec<u8>>)
        requires
            self.wf(),
        ensures
            r is Some <==> self@.contains_key(id.key()),
            r matches Some(b) ==> b@ == self@[id.key()],
    {
        match self.find(id) {
            Some(i) => {
                proof {
                    self.lemma_entry_in_view(i as int);
                }
                Some(self.modules[i].1.clone())
            },
            None => None,
        }
    }

    /// The store holds no resources: every lookup finds nothing.
    pub fn get_resource(
        &self,
        address: &AccountAddress,
        tag: &move_core_types::language_storage::StructTag,
    ) -> (r: Option<Vec<u8>>)
        ensures
            r is None,
    {
        None
    }
}

/// Adding a module's bytes to a store and then resolving the module's own identity yields
/// exactly those bytes, whatever the store held before.
pub proof fn lemma_resolve_after_add(
    before: Map<ModuleKey, Seq<u8>>,
    module: CompiledModule,
    bytes: Seq<u8>,
)
    ensures
        before.insert(module.spec_self_id(), bytes).contains_key(module.spec_self_id()),
        before.insert(module.spec_self_id(), bytes)[module.spec_self_id()] == bytes,
        forall|k: ModuleKey|
            k != module.spec_self_id() ==> #[trigger] before.insert(
                module.spec_self_id(),
                bytes,
            ).contains_key(k) == before.contains_key(k),
{
}

/// Adding the same module twice leaves the store as if only the second add had happened:
/// the second bytes replace the first, and resolving the identity yields the second.
pub proof fn lemma_add_twice_keeps_latest(
    before: Map<ModuleKey, Seq<u8>>,
    module: CompiledModule,
    first: Seq<u8>,
    second: Seq<u8>,
)
    ensures
        before.insert(module.spec_self_id(), first).insert(module.spec_self_id(), second)
            == before.insert(module.spec_self_id(), second),
        before.insert(module.spec_self_id(), first).insert(module.spec_self_id(), second)[module.spec_self_id()]
            == second,
{
    assert(before.insert(module.spec_self_id(), first).insert(module.spec_self_id(), second)
        =~= before.insert(module.spec_self_id(), second));
}

} // verus!
