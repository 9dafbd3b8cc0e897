//! Versioned parameter sets and the registry that maps a version to its set.
//!
//! A registry is filled once, when the process starts, and only read after
//! that. Sets are added and never changed, so a record issued under some
//! version stays verifiable for as long as that version is registered.

use vstd::prelude::*;

pub mod v0;

pub use self::v0 as cur;

verus! {

/// The variants of Argon2.
#[derive(Clone, Copy, Debug, PartialEq, Eq, Structural)]
pub enum Variant {
    /// Data-independent addressing; the choice for password hashing.
    Argon2i,
    /// Data-dependent addressing.
    Argon2d,
    /// The hybrid of the two. A set may name it, but the Argon2
    /// implementation in use computes the other two only: see
    /// [`crate::engine::computable`].
    Argon2id,
}

/// The cost factors and lengths under which records of one version are made.
#[derive(Clone, Copy, Debug, PartialEq, Eq, Structural)]
pub struct ParameterSet {
    pub version: u16,
    pub passes: u32,
    pub lanes: u32,
    /// Memory cost in KiB.
    pub memory_kb: u32,
    pub variant: Variant,
    pub salt_len: usize,
    pub hash_len: usize,
    /// Whether records of this version should be replaced by records of the
    /// current one.
    pub needs_rehash: bool,
}

impl ParameterSet {
    /// The invariant of a registered set: neither length is zero.
    pub open spec fn wf(&self) -> bool {
        self.salt_len > 0 && self.hash_len > 0
    }

    /// Whether `self` satisfies [`ParameterSet::wf`].
    pub fn is_wf(&self) -> (b: bool)
        ensures
            b == self.wf(),
    {
        self.salt_len > 0 && self.hash_len > 0
    }
}

/// Why a registry refused a parameter set.
#[derive(Clone, Copy, Debug, PartialEq, Eq, Structural)]
pub enum RegistryError {
    /// The set has a salt or hash length of zero.
    InvalidSet,
    /// The set was to become the current one and is marked for rehashing.
    CurrentNeedsRehash,
    /// A set of the same version is registered already.
    DuplicateVersion,
}

/// The table that `sets` stands for: each set under its version.
spec fn table_of(sets: Seq<ParameterSet>) -> Map<u16, ParameterSet>
    decreases sets.len(),
{
    if sets.len() == 0 {
        Map::empty()
    } else {
        table_of(sets.drop_last()).insert(sets.last().version, sets.last())
    }
}

/// Whether no two of `sets` share a version.
spec fn distinct_versions(sets: Seq<ParameterSet>) -> bool {
    forall|i: int, j: int| 0 <= i < j < sets.len() ==> sets[i].version != sets[j].version
}

/// A version absent from `sets` is absent from their table.
proof fn lemma_table_absent(sets: Seq<ParameterSet>, version: u16)
    requires
        forall|i: int| 0 <= i < sets.len() ==> sets[i].version != version,
    ensures
        !table_of(sets).dom().contains(version),
    decreases sets.len(),
{
    if sets.len() > 0 {
        lemma_table_absent(sets.drop_last(), version);
    }
}

/// With distinct versions, each set is the entry of its own version.
proof fn lemma_table_present(sets: Seq<ParameterSet>, i: int)
    requires
        distinct_versions(sets),
        0 <= i < sets.len(),
    ensures
        table_of(sets).dom().contains(sets[i].version),
        table_of(sets)[sets[i].version] == sets[i],
    decreases sets.len(),
{
    if i < sets.len() - 1 {
        lemma_table_present(sets.drop_last(), i);
    }
}

/// Every entry of a table is one of the sets, filed under its own version.
/// The index of that set is returned.
proof fn lemma_table_entry(sets: Seq<ParameterSet>, version: u16) -> (i: int)
    requires
        table_of(sets).dom().contains(version),
    ensures
        0 <= i < sets.len(),
        sets[i] == table_of(sets)[version],
        sets[i].version == version,
    decreases sets.len(),
{
    if sets.last().version == version {
        sets.len() - 1
    } else {
        lemma_table_entry(sets.drop_last(), version)
    }
}

/// The registered parameter sets, one of which is the current one.
#[derive(Debug)]
pub struct ParameterRegistry {
    sets: Vec<ParameterSet>,
    current: usize,
}

impl ParameterRegistry {
    /// The invariant: the current set is registered and not marked for
    /// rehashing, every set is well formed, no version occurs twice.
    pub closed spec fn wf(&self) -> bool {
        &&& self.current < self.sets@.len()
        &&& !self.sets@[self.current as int].needs_rehash
        &&& distinct_versions(self.sets@)
        &&& forall|i: int| 0 <= i < self.sets@.len() ==> (#[trigger] self.sets@[i]).wf()
    }

    /// The registered sets, each under its version.
    pub closed spec fn table(&self) -> Map<u16, ParameterSet> {
        table_of(self.sets@)
    }

    /// The version under which new records are made.
    pub closed spec fn current_version(&self) -> u16 {
        self.sets@[self.current as int].version
    }

    /// What [`ParameterRegistry::lookup`] returns for `version`.
    pub open spec fn spec_lookup(&self, version: u16) -> Option<ParameterSet> {
        if self.table().dom().contains(version) {
            Some(self.table()[version])
        } else {
            None
        }
    }

    /// What [`ParameterRegistry::current`] returns.
    pub open spec fn spec_current(&self) -> ParameterSet {
        self.table()[self.current_version()]
    }

    /// What holds of every well-formed registry: each set is filed under its
    /// own version, so a version names at most one set; each set is well
    /// formed; the current set is registered and is not marked for rehashing.
    pub proof fn lemma_invariant(&self)
        requires
            self.wf(),
        ensures
            forall|v: u16| #[trigger]
                self.table().dom().contains(v) ==> self.table()[v].version == v
                    && self.table()[v].wf(),
            self.table().dom().contains(self.current_version()),
            self.spec_lookup(self.current_version()) == Some(self.spec_current()),
            self.spec_current().version == self.current_version(),
            !self.spec_current().needs_rehash,
    {
        assert forall|v: u16| #[trigger]
            self.table().dom().contains(v) implies self.table()[v].version == v
            && self.table()[v].wf() by {
            let i = lemma_table_entry(self.sets@, v);
            assert(self.sets@[i].wf());
        }
        lemma_table_present(self.sets@, self.current as int);
    }

    /// A registry whose one set, `current`, is the current one.
    pub fn new(current: ParameterSet) -> (r: Result<ParameterRegistry, RegistryError>)
        ensures
            !current.wf() ==> r == Err::<ParameterRegistry, _>(RegistryError::InvalidSet),
            current.wf() && current.needs_rehash ==> r == Err::<ParameterRegistry, _>(
                RegistryError::CurrentNeedsRehash,
            ),
            current.wf() && !current.needs_rehash ==> r is Ok,
            r matches Ok(registry) ==> {
                &&& registry.wf()
                &&& registry.table() == Map::<u16, ParameterSet>::empty().insert(
                    current.version,
                    current,
                )
                &&& registry.current_version() == current.version
            },
    {
        if !current.is_wf() {
            return Err(RegistryError::InvalidSet);
        }
        if current.needs_rehash {
            return Err(RegistryError::CurrentNeedsRehash);
        }
        let mut sets: Vec<ParameterSet> = Vec::new();
        sets.push(current);
        proof {
            assert(sets@.drop_last() =~= Seq::<ParameterSet>::empty());
            assert(table_of(sets@.drop_last()) == Map::<u16, ParameterSet>::empty());
        }
        Ok(ParameterRegistry { sets, current: 0 })
    }

    /// The registry of this release: version 0 alone, which is current.
    pub fn standard() -> (registry: ParameterRegistry)
        ensures
            registry.wf(),
            registry.table() == Map::<u16, ParameterSet>::empty().insert(
                v0::VERSION,
                v0::spec_parameter_set(),
            ),
            registry.current_version() == cur::VERSION,
    {
        let mut sets: Vec<ParameterSet> = Vec::new();
        sets.push(cur::parameter_set());
        proof {
            assert(sets@.drop_last() =~= Seq::<ParameterSet>::empty());
            assert(table_of(sets@.drop_last()) == Map::<u16, ParameterSet>::empty());
        }
        ParameterRegistry { sets, current: 0 }
    }

    /// Adds `set` beside the sets already registered. Nothing that is
    /// registered changes, and the current set stays current.
    pub fn register(&mut self, set: ParameterSet) -> (r: Result<(), RegistryError>)
        requires
            old(self).wf(),
        ensures
            final(self).wf(),
            final(self).current_version() == old(self).current_version(),
            !set.wf() ==> r == Err::<(), _>(RegistryError::InvalidSet),
            set.wf() && old(self).table().dom().contains(set.version) ==> r == Err::<(), _>(
                RegistryError::DuplicateVersion,
            ),
            set.wf() && !old(self).table().dom().contains(set.version) ==> r is Ok,
            r is Ok ==> final(self).table() == old(self).table().insert(set.version, set),
            r is Err ==> final(self).table() == old(self).table(),
    {
        if !set.is_wf() {
            return Err(RegistryError::InvalidSet);
        }
        if self.lookup(set.version).is_some() {
            return Err(RegistryError::DuplicateVersion);
        }
        proof {
            assert forall|i: int| 0 <= i < self.sets@.len() implies self.sets@[i].version
                != set.version by {
                lemma_table_present(self.sets@, i);
            }
        }
        let ghost before = self.sets@;
        self.sets.push(set);
        proof {
            assert(self.sets@.drop_last() =~= before);
        }
        Ok(())
    }

    /// The set registered under `version`, if there is one.
    pub fn lookup(&self, version: u16) -> (found: Option<ParameterSet>)
        requires
            self.wf(),
        ensures
            found == self.spec_lookup(version),
    {
        let mut i: usize = 0;
        while i < self.sets.len()
            invariant
                i <= self.sets@.len(),
                distinct_versions(self.sets@),
                forall|j: int| 0 <= j < i ==> self.sets@[j].version != version,
            decreases self.sets@.len() - i,
        {
            if self.sets[i].version == version {
                proof {
                    lemma_table_present(self.sets@, i as int);
                }
                return Some(self.sets[i]);
            }
            i += 1;
        }
        proof {
            lemma_table_absent(self.sets@, version);
        }
        None
    }

    /// The set under which new records are made.
    pub fn current(&self) -> (set: ParameterSet)
        requires
            self.wf(),
        ensures
            set == self.spec_current(),
            set.version == self.current_version(),
            !set.needs_rehash,
    {
        proof {
            lemma_table_present(self.sets@, self.current as int);
        }
        self.sets[self.current]
    }
}

} // verus!
