//! One block's world state: a flat top-level trie plus named child tries.
//!
//! A [`BlockStorage`] is built privately (its mutating methods take `&mut
//! self`), then published through the registry, after which it is only ever
//! shared behind a reference count and read.  The flat stores are backed by
//! hashbrown hash maps with the FNV hasher; those maps sit behind a small
//! trusted boundary, and everything above it is verified against the
//! mathematical model [`StateView`].

use vstd::prelude::*;

verus! {

/// The byte-key/byte-value entries a [`ByteMap`] holds.
pub uninterp spec fn byte_entries(m: ByteMap) -> Map<Seq<u8>, Seq<u8>>;

/// The name-to-child entries a [`ChildMap`] holds.
pub uninterp spec fn child_entries(m: ChildMap) -> Map<Seq<u8>, Child>;

/// A flat byte-key/byte-value store, backed by `hashbrown::HashMap` with the
/// FNV hasher.  Held opaquely; its contents are named by [`byte_entries`].
#[verifier::external_body]
pub struct ByteMap {
    inner: hashbrown::HashMap<Vec<u8>, Vec<u8>, fnv::FnvBuildHasher>,
}

impl ByteMap {
    /// Relies on `hashbrown::HashMap::default`: a map with no entries.
    #[verifier::external_body]
    fn new() -> (r: ByteMap)
        ensures
            byte_entries(r) == (Map::<Seq<u8>, Seq<u8>>::empty()),
    {
        ByteMap { inner: hashbrown::HashMap::default() }
    }

    /// Relies on `hashbrown::HashMap::insert`: after the call the key maps to
    /// the value; every other key is untouched.
    #[verifier::external_body]
    fn insert(&mut self, key: Vec<u8>, value: Vec<u8>)
        ensures
            byte_entries(*final(self)) == byte_entries(*old(self)).insert(key@, value@),
    {
        self.inner.insert(key, value);
    }

    /// Relies on `hashbrown::HashMap::get`: the value the key maps to, if any.
    #[verifier::external_body]
    fn get(&self, key: &Vec<u8>) -> (r: Option<&Vec<u8>>)
        ensures
            match r {
                Some(v) => byte_entries(*self).contains_key(key@) && v@ == byte_entries(
                    *self,
                )[key@],
                None => !byte_entries(*self).contains_key(key@),
            },
    {
        self.inner.get(key)
    }
}

/// A single namespaced child trie: an independent flat byte-key/byte-value
/// store, isolated from the top-level trie and from every other child.
/// Its view is the mapping it holds.
pub struct Child {
    trie: ByteMap,
}

impl View for Child {
    type V = Map<Seq<u8>, Seq<u8>>;

    closed spec fn view(&self) -> Map<Seq<u8>, Seq<u8>> {
        byte_entries(self.trie)
    }
}

impl Child {
    /// Builds a child trie with no entries.
    pub fn empty() -> (c: Child)
        ensures
            c@ == Map::<Seq<u8>, Seq<u8>>::empty(),
    {
        Child { trie: ByteMap::new() }
    }

    /// Maps `key` to `value` within this child, replacing any previous value.
    pub fn insert(&mut self, key: Vec<u8>, value: Vec<u8>)
        ensures
            final(self)@ == old(self)@.insert(key@, value@),
    {
        self.trie.insert(key, value);
    }

    /// The value `key` maps to within this child, if any.
    pub fn get(&self, key: &Vec<u8>) -> (r: Option<&Vec<u8>>)
        ensures
            match r {
                Some(v) => self@.contains_key(key@) && v@ == self@[key@],
                None => !self@.contains_key(key@),
            },
    {
        self.trie.get(key)
    }
}

/// A store of child tries keyed by name, backed by `hashbrown::HashMap` with
/// the FNV hasher.  Held opaquely; its contents are named by [`child_entries`].
#[verifier::external_body]
pub struct ChildMap {
    inner: hashbrown::HashMap<Vec<u8>, Child, fnv::FnvBuildHasher>,
}

impl ChildMap {
    /// Relies on `hashbrown::HashMap::default`: a map with no entries.
    #[verifier::external_body]
    fn new() -> (r: ChildMap)
        ensures
            child_entries(r) == (Map::<Seq<u8>, Child>::empty()),
    {
        ChildMap { inner: hashbrown::HashMap::default() }
    }

    /// Relies on `hashbrown::HashMap::get`: the child the name maps to, if any.
    #[verifier::external_body]
    fn get(&self, name: &Vec<u8>) -> (r: Option<&Child>)
        ensures
            match r {
                Some(c) => child_entries(*self).contains_key(name@) && *c == child_entries(
                    *self,
                )[name@],
                None => !child_entries(*self).contains_key(name@),
            },
    {
        self.inner.get(name)
    }

    /// Relies on `hashbrown::HashMap::remove`: takes the named child out of
    /// the map, if present, leaving every other entry untouched.
    #[verifier::external_body]
    fn remove(&mut self, name: &Vec<u8>) -> (r: Option<Child>)
        ensures
            match r {
                Some(c) => child_entries(*old(self)).contains_key(name@) && c == child_entries(
                    *old(self),
                )[name@] && child_entries(*final(self)) == child_entries(*old(self)).remove(name@),
                None => !child_entries(*old(self)).contains_key(name@) && child_entries(
                    *final(self),
                ) == child_entries(*old(self)),
            },
    {
        self.inner.remove(name)
    }

    /// Relies on `hashbrown::HashMap::insert`: after the call the name maps to
    /// the child; every other entry is untouched.
    #[verifier::external_body]
    fn insert(&mut self, name: Vec<u8>, child: Child)
        ensures
            child_entries(*final(self)) == child_entries(*old(self)).insert(name@, child),
    {
        self.inner.insert(name, child);
    }
}

/// The mathematical content of one block's state: the top-level mapping and,
/// per child name, that child's mapping.  Key spaces are independent: a key in
/// one child says nothing about the same key elsewhere.
pub struct StateView {
    pub top: Map<Seq<u8>, Seq<u8>>,
    pub children: Map<Seq<u8>, Map<Seq<u8>, Seq<u8>>>,
}

/// The child-name-to-content view of a map of [`Child`] values.
pub open spec fn child_view_map(m: Map<Seq<u8>, Child>) -> Map<Seq<u8>, Map<Seq<u8>, Seq<u8>>> {
    m.map_values(|c: Child| c@)
}

/// The state with no top-level entries and no children.
pub open spec fn spec_empty_state() -> StateView {
    StateView { top: Map::empty(), children: Map::empty() }
}

/// The state after writing `value` under `key` in the top-level trie.
pub open spec fn spec_top_insert(s: StateView, key: Seq<u8>, value: Seq<u8>) -> StateView {
    StateView { top: s.top.insert(key, value), children: s.children }
}

/// The top-level value under `key`, if any.
pub open spec fn spec_top_lookup(s: StateView, key: Seq<u8>) -> Option<Seq<u8>> {
    if s.top.contains_key(key) {
        Some(s.top[key])
    } else {
        None
    }
}

/// The content of the child named `child`: its mapping if the child exists,
/// else the empty mapping (a never-touched child reads as empty).
pub open spec fn spec_child_content(s: StateView, child: Seq<u8>) -> Map<Seq<u8>, Seq<u8>> {
    if s.children.contains_key(child) {
        s.children[child]
    } else {
        Map::empty()
    }
}

/// The state after writing `value` under `key` in the child named `child`,
/// creating that child if it did not exist.
pub open spec fn spec_child_insert(
    s: StateView,
    child: Seq<u8>,
    key: Seq<u8>,
    value: Seq<u8>,
) -> StateView {
    StateView { top: s.top, children: s.children.insert(child, spec_child_content(s, child).insert(key, value)) }
}

/// The value under `key` in the child named `child`, if any.
pub open spec fn spec_child_lookup(s: StateView, child: Seq<u8>, key: Seq<u8>) -> Option<Seq<u8>> {
    if spec_child_content(s, child).contains_key(key) {
        Some(spec_child_content(s, child)[key])
    } else {
        None
    }
}

/// The reserved top-level key `:code`, holding the runtime code blob.
pub open spec fn code_key_bytes() -> Seq<u8> {
    seq![0x3au8, 0x63u8, 0x6fu8, 0x64u8, 0x65u8]
}

/// The runtime code blob stored under `:code`, if any.
pub open spec fn spec_code_lookup(s: StateView) -> Option<Seq<u8>> {
    spec_top_lookup(s, code_key_bytes())
}

proof fn lemma_child_view_insert(m: Map<Seq<u8>, Child>, name: Seq<u8>, c: Child)
    ensures
        child_view_map(m.insert(name, c)) == child_view_map(m).insert(name, c@),
{
    assert(child_view_map(m.insert(name, c)) =~= child_view_map(m).insert(name, c@));
}

/// Storage for an individual block: the top-level trie plus its child tries.
///
/// Built exclusively by its owner; once published via the registry it is
/// shared read-only, so every mutating method here needs `&mut self` and is
/// only reachable before publication.
pub struct BlockStorage {
    top_trie: ByteMap,
    children: ChildMap,
}

impl View for BlockStorage {
    type V = StateView;

    closed spec fn view(&self) -> StateView {
        StateView { top: byte_entries(self.top_trie), children: child_view_map(child_entries(self.children)) }
    }
}

impl BlockStorage {
    /// Builds a new empty [`BlockStorage`]: no top-level entries, no children.
    pub fn empty() -> (s: BlockStorage)
        ensures
            s@ == spec_empty_state(),
    {
        let s = BlockStorage { top_trie: ByteMap::new(), children: ChildMap::new() };
        proof {
            assert(child_view_map(Map::empty()) =~= Map::<Seq<u8>, Map<Seq<u8>, Seq<u8>>>::empty());
        }
        s
    }

    /// Writes `value` under `key` in the top-level trie, replacing any
    /// previous value; children are untouched.
    pub fn insert(&mut self, key: Vec<u8>, value: Vec<u8>)
        ensures
            final(self)@ == spec_top_insert(old(self)@, key@, value@),
    {
        self.top_trie.insert(key, value);
    }

    /// The top-level value under `key`, if any.
    pub fn get(&self, key: &Vec<u8>) -> (r: Option<&Vec<u8>>)
        ensures
            match r {
                Some(v) => spec_top_lookup(self@, key@) == Some(v@),
                None => spec_top_lookup(self@, key@) is None,
            },
    {
        self.top_trie.get(key)
    }

    /// The value of the reserved `:code` key, containing the runtime code.
    pub fn code_key(&self) -> (r: Option<&Vec<u8>>)
        ensures
            match r {
                Some(v) => spec_code_lookup(self@) == Some(v@),
                None => spec_code_lookup(self@) is None,
            },
    {
        // `:code` as raw bytes.
        let key: Vec<u8> = vec![0x3au8, 0x63u8, 0x6fu8, 0x64u8, 0x65u8];
        proof {
            assert(key@ =~= code_key_bytes());
        }
        self.get(&key)
    }

    /// Writes `value` under `key` in the child named `child`, creating that
    /// child if it did not exist; the top-level trie and every other child
    /// are untouched.
    pub fn child_insert(&mut self, child: Vec<u8>, key: Vec<u8>, value: Vec<u8>)
        ensures
            final(self)@ == spec_child_insert(old(self)@, child@, key@, value@),
    {
        let ghost entries0 = child_entries(self.children);
        let mut c: Child = match self.children.remove(&child) {
            Some(c) => c,
            None => Child::empty(),
        };
        proof {
            assert(old(self)@.children.contains_key(child@) == entries0.contains_key(child@));
            if entries0.contains_key(child@) {
                assert(old(self)@.children[child@] == entries0[child@]@);
            }
            assert(c@ == spec_child_content(old(self)@, child@));
        }
        c.insert(key, value);
        self.children.insert(child, c);
        proof {
            let target = spec_child_insert(old(self)@, child@, key@, value@);
            assert(child_entries(self.children) =~= entries0.insert(
                child@,
                c,
            ));
            lemma_child_view_insert(entries0, child@, c);
            assert(self@.children == target.children);
            assert(self@ == target);
        }
    }

    /// The value under `key` in the child named `child`, if any; a child that
    /// was never written to reads as empty.
    pub fn child_get(&self, child: &Vec<u8>, key: &Vec<u8>) -> (r: Option<&Vec<u8>>)
        ensures
            match r {
                Some(v) => spec_child_lookup(self@, child@, key@) == Some(v@),
                None => spec_child_lookup(self@, child@, key@) is None,
            },
    {
        match self.children.get(child) {
            Some(c) => {
                proof {
                    assert(self@.children.contains_key(child@));
                    assert(self@.children[child@] == c@);
                }
                c.get(key)
            },
            None => {
                proof {
                    assert(!self@.children.contains_key(child@));
                }
                None
            },
        }
    }
}

/// Law: the runtime code accessor reads exactly what was last written under
/// `:code`.  Writing `:code` makes it the code blob; writing any other
/// top-level key, or any child key, leaves the code blob unchanged; an empty
/// state has none.
pub proof fn lemma_code_key_tracks_code(s: StateView, key: Seq<u8>, value: Seq<u8>, child: Seq<u8>)
    ensures
        spec_code_lookup(spec_top_insert(s, code_key_bytes(), value)) == Some(value),
        key != code_key_bytes() ==> spec_code_lookup(spec_top_insert(s, key, value))
            == spec_code_lookup(s),
        spec_code_lookup(spec_child_insert(s, child, key, value)) == spec_code_lookup(s),
        spec_code_lookup(spec_empty_state()) is None,
{
}

/// Law: child tries are isolated namespaces.  Writing `key` in the child
/// named `c1` never changes what the same `key` reads as in a different child
/// `c2`, nor in the top-level trie; and a top-level write never changes what
/// any child reads.
pub proof fn lemma_child_isolation(
    s: StateView,
    c1: Seq<u8>,
    c2: Seq<u8>,
    key: Seq<u8>,
    value: Seq<u8>,
)
    requires
        c1 != c2,
    ensures
        spec_child_lookup(spec_child_insert(s, c1, key, value), c2, key) == spec_child_lookup(
            s,
            c2,
            key,
        ),
        spec_top_lookup(spec_child_insert(s, c1, key, value), key) == spec_top_lookup(s, key),
        spec_child_lookup(spec_top_insert(s, key, value), c1, key) == spec_child_lookup(
            s,
            c1,
            key,
        ),
{
}

} // verus!
