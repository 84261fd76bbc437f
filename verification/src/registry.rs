//! The registry mapping every observed block hash to that block's state.
//!
//! A [`Storage`] owns one slot per observed hash.  A slot starts without any
//! installed state and gains one when a built [`BlockStorage`] is published
//! for its hash; from then on the published snapshot is shared read-only by
//! reference count.  The registry's model is a map from the hash's bytes to
//! an optional [`StateView`]: `None` stands for a slot that exists but has no
//! storage installed, and a missing key for a hash never observed — the two
//! are indistinguishable to readers, by design.

use std::sync::Arc;
use vstd::prelude::*;
use crate::hash::BlockHash;
use crate::trie::{BlockStorage, StateView};

verus! {

/// The hash-to-slot entries a [`SlotMap`] holds.
pub uninterp spec fn slot_entries(m: SlotMap) -> Map<Seq<u8>, BlockState>;

/// One registry slot: the state of one block, if it has been installed.
pub struct BlockState {
    pub storage: Option<Arc<BlockStorage>>,
}

impl View for BlockState {
    type V = Option<StateView>;

    open spec fn view(&self) -> Option<StateView> {
        match self.storage {
            Some(s) => Some(s@),
            None => None,
        }
    }
}

/// The hash-keyed slot store, backed by `hashbrown::HashMap` with the FNV
/// hasher over the hash's 32 raw bytes.  Held opaquely; its contents are
/// named by [`slot_entries`].
#[verifier::external_body]
pub struct SlotMap {
    inner: hashbrown::HashMap<[u8; 32], BlockState, fnv::FnvBuildHasher>,
}

impl SlotMap {
    /// Relies on `hashbrown::HashMap::default`: a map with no entries.
    #[verifier::external_body]
    fn new() -> (r: SlotMap)
        ensures
            slot_entries(r) == (Map::<Seq<u8>, BlockState>::empty()),
    {
        SlotMap { inner: hashbrown::HashMap::default() }
    }

    /// Relies on `hashbrown::HashMap::contains_key` over the hash's bytes.
    #[verifier::external_body]
    fn contains(&self, hash: &BlockHash) -> (r: bool)
        ensures
            r == slot_entries(*self).contains_key(hash@),
    {
        self.inner.contains_key(&hash.bytes)
    }

    /// Relies on `hashbrown::HashMap::get`: the slot the hash maps to, if any.
    #[verifier::external_body]
    fn get(&self, hash: &BlockHash) -> (r: Option<&BlockState>)
        ensures
            match r {
                Some(s) => slot_entries(*self).contains_key(hash@) && *s == slot_entries(
                    *self,
                )[hash@],
                None => !slot_entries(*self).contains_key(hash@),
            },
    {
        self.inner.get(&hash.bytes)
    }

    /// Relies on `hashbrown::HashMap::insert`: after the call the hash maps
    /// to the slot; every other entry is untouched.
    #[verifier::external_body]
    fn insert(&mut self, hash: &BlockHash, state: BlockState)
        ensures
            slot_entries(*final(self)) == slot_entries(*old(self)).insert(hash@, state),
    {
        self.inner.insert(hash.bytes, state);
    }
}

/// The slot-to-model view of a map of [`BlockState`] values.
pub open spec fn slot_view_map(m: Map<Seq<u8>, BlockState>) -> Map<Seq<u8>, Option<StateView>> {
    m.map_values(|s: BlockState| s@)
}

/// The registry after an access to `hash`: an empty slot is created if none
/// existed; an existing slot — installed or not — is left untouched.
pub open spec fn spec_access(
    m: Map<Seq<u8>, Option<StateView>>,
    hash: Seq<u8>,
) -> Map<Seq<u8>, Option<StateView>> {
    if m.contains_key(hash) {
        m
    } else {
        m.insert(hash, None)
    }
}

/// The state installed for `hash`, if any.  A hash never observed and a hash
/// observed but without installed state both read as `None`.
pub open spec fn spec_query(m: Map<Seq<u8>, Option<StateView>>, hash: Seq<u8>) -> Option<
    StateView,
> {
    if m.contains_key(hash) {
        m[hash]
    } else {
        None
    }
}

/// The registry after publishing state `s` for `hash`, replacing whatever
/// the slot held before (last write wins).
pub open spec fn spec_install(
    m: Map<Seq<u8>, Option<StateView>>,
    hash: Seq<u8>,
    s: StateView,
) -> Map<Seq<u8>, Option<StateView>> {
    m.insert(hash, Some(s))
}

proof fn lemma_slot_view_insert(m: Map<Seq<u8>, BlockState>, hash: Seq<u8>, s: BlockState)
    ensures
        slot_view_map(m.insert(hash, s)) == slot_view_map(m).insert(hash, s@),
{
    assert(slot_view_map(m.insert(hash, s)) =~= slot_view_map(m).insert(hash, s@));
}

/// Returned by [`Block::set_storage`] when the content's derived state root
/// fails validation against the root this block's header declares.  Root
/// computation belongs to an external collaborator; until one is wired in,
/// publication performs no root check and this error is never produced.
#[derive(Clone, Copy, PartialEq, Eq, Structural, Debug)]
pub struct IntegrityError;

/// Main storage entry point: the registry of every observed block.
pub struct Storage {
    /// For each observed block hash, its slot.
    blocks: SlotMap,
}

impl View for Storage {
    type V = Map<Seq<u8>, Option<StateView>>;

    closed spec fn view(&self) -> Map<Seq<u8>, Option<StateView>> {
        slot_view_map(slot_entries(self.blocks))
    }
}

/// Access to one block within the storage, bound to that block's hash.
///
/// The accessor holds no borrow of the registry itself: each method takes
/// the registry it was obtained from explicitly.
pub struct Block {
    /// The hash this accessor is bound to.
    pub hash: BlockHash,
}

impl Storage {
    /// Creates a new empty storage: no hash has been observed.
    pub fn empty() -> (s: Storage)
        ensures
            s@ == Map::<Seq<u8>, Option<StateView>>::empty(),
    {
        let s = Storage { blocks: SlotMap::new() };
        proof {
            assert(slot_view_map(Map::empty()) =~= Map::<Seq<u8>, Option<StateView>>::empty());
        }
        s
    }

    /// Returns an accessor to the given block within the storage.
    ///
    /// Since every single hash is potentially valid, this always succeeds:
    /// a hash seen for the first time gets an empty slot, and an existing
    /// slot — installed or not — is left exactly as it was.
    pub fn block(&mut self, hash: &BlockHash) -> (b: Block)
        ensures
            final(self)@ == spec_access(old(self)@, hash@),
            b.hash == *hash,
    {
        let ghost m0 = slot_entries(self.blocks);
        if !self.blocks.contains(hash) {
            self.blocks.insert(hash, BlockState { storage: None });
            proof {
                lemma_slot_view_insert(m0, hash@, BlockState { storage: None });
                assert(!old(self)@.contains_key(hash@));
                assert(self@ == spec_access(old(self)@, hash@));
            }
        }
        Block { hash: *hash }
    }
}

impl Block {
    /// Returns the state installed for this block, if known: a cheap
    /// reference-counted clone of the published snapshot.  Pure read; the
    /// registry is never changed.
    pub fn storage(&self, registry: &Storage) -> (r: Option<Arc<BlockStorage>>)
        ensures
            match r {
                Some(s) => spec_query(registry@, self.hash@) == Some(s@),
                None => spec_query(registry@, self.hash@) is None,
            },
    {
        match registry.blocks.get(&self.hash) {
            Some(state) => {
                proof {
                    assert(registry@.contains_key(self.hash@));
                    assert(registry@[self.hash@] == state@);
                }
                match &state.storage {
                    Some(s) => Some(s.clone()),
                    None => None,
                }
            },
            None => {
                proof {
                    assert(!registry@.contains_key(self.hash@));
                }
                None
            },
        }
    }

    /// Publishes `block_storage` as this block's state, replacing whatever
    /// the slot held before: last write wins, and earlier holders of the
    /// previous snapshot keep it alive independently.
    ///
    /// Publication is atomic: on an error the registry is left exactly as it
    /// was.  Validating the content's derived state root against this hash
    /// belongs to an external root-computation collaborator; until one is
    /// wired in no content is rejected, so the result is always `Ok`.
    pub fn set_storage(self, registry: &mut Storage, block_storage: BlockStorage) -> (r: Result<
        (),
        IntegrityError,
    >)
        ensures
            r is Ok,
            final(registry)@ == spec_install(old(registry)@, self.hash@, block_storage@),
    {
        let ghost m0 = slot_entries(registry.blocks);
        let ghost sv = block_storage@;
        let state = BlockState { storage: Some(Arc::new(block_storage)) };
        proof {
            assert(state@ == Some(sv));
        }
        registry.blocks.insert(&self.hash, state);
        proof {
            lemma_slot_view_insert(m0, self.hash@, state);
            assert(registry@ == spec_install(old(registry)@, self.hash@, sv));
        }
        Ok(())
    }

    /// Reserved accessor for this block's header.
    ///
    /// Header storage belongs to an external collaborator that is not yet
    /// wired in, so for now this reports no header for any hash.  That is a
    /// "not yet implemented" outcome, distinct from a hash genuinely having
    /// no header once a collaborator is attached.
    pub fn header(&self) -> (r: Option<()>)
        ensures
            r is None,
    {
        None
    }
}

/// Law: a hash never observed reads as absent.  Accessing it creates only an
/// empty slot, so a query right after the access still returns nothing.
pub proof fn lemma_fresh_hash_reads_absent(m: Map<Seq<u8>, Option<StateView>>, hash: Seq<u8>)
    requires
        !m.contains_key(hash),
    ensures
        spec_query(spec_access(m, hash), hash) is None,
{
}

/// Law: a successful publication is observed.  After installing state `s`
/// for a hash, a query for that hash returns exactly `s`.
pub proof fn lemma_install_then_query(
    m: Map<Seq<u8>, Option<StateView>>,
    hash: Seq<u8>,
    s: StateView,
)
    ensures
        spec_query(spec_install(m, hash, s), hash) == Some(s),
{
}

/// Law: reads are idempotent.  Accessing a hash changes no query result —
/// for that hash or any other — and accessing it twice is the same as
/// accessing it once.
pub proof fn lemma_access_is_read_idempotent(m: Map<Seq<u8>, Option<StateView>>, hash: Seq<u8>)
    ensures
        spec_access(spec_access(m, hash), hash) == spec_access(m, hash),
        forall|h2: Seq<u8>| #[trigger] spec_query(spec_access(m, hash), h2) == spec_query(m, h2),
{
}

/// Law: publications are isolated per hash.  Installing state for one hash
/// never changes what a different hash reads as.
pub proof fn lemma_install_isolated(
    m: Map<Seq<u8>, Option<StateView>>,
    h1: Seq<u8>,
    h2: Seq<u8>,
    s: StateView,
)
    requires
        h1 != h2,
    ensures
        spec_query(spec_install(m, h2, s), h1) == spec_query(m, h1),
{
}

/// Law: re-publication is last-write-wins.  Installing `s1` and then `s2`
/// for the same hash leaves the registry exactly as installing `s2` alone.
pub proof fn lemma_republication_last_write_wins(
    m: Map<Seq<u8>, Option<StateView>>,
    hash: Seq<u8>,
    s1: StateView,
    s2: StateView,
)
    ensures
        spec_install(spec_install(m, hash, s1), hash, s2) == spec_install(m, hash, s2),
{
    assert(spec_install(spec_install(m, hash, s1), hash, s2) =~= spec_install(m, hash, s2));
}

} // verus!
