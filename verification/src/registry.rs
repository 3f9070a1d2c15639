//! A register of shared values under a 64-bit key, most often the hash of
//! the value's text.

use vstd::prelude::*;
use vstd::std_specs::hash::DefaultHasherAdditionalSpecFns;
use vstd::string::to_string_from_display_ensures;
use vstd::utf8::encode_utf8;
use std::collections::hash_map::DefaultHasher;
use std::collections::HashMap;
use std::hash::Hasher;
use std::rc::Rc;

verus! {

/// The register itself: at most one value under each key.
#[derive(Debug, Clone, Default, PartialEq, Eq)]
pub struct HashSetMap<T> {
    register: HashMap<u64, Rc<T>>,
}

/// Fills a register. It takes values in only while it holds a hasher.
pub struct HashSetMapBuilder<T> {
    hash_register: HashSetMap<T>,
    hasher: Option<Rc<DefaultHasher>>,
}

/// The key under which a text goes, for a hasher that has been fed
/// `written` so far: what the hasher gives once the text's bytes are
/// written to it as well.
pub open spec fn text_key(written: Seq<Seq<u8>>, text: Seq<char>) -> u64 {
    DefaultHasher::spec_finish(written.push(encode_utf8(text)))
}

/// What was held under `key`, if anything.
pub open spec fn held_under<T>(entries: Map<u64, Rc<T>>, key: u64) -> Option<Rc<T>> {
    if entries.contains_key(key) {
        Some(entries[key])
    } else {
        None
    }
}

impl<T> HashSetMapBuilder<T> {
    /// The values held, by key.
    pub closed spec fn entries(&self) -> Map<u64, Rc<T>> {
        self.hash_register.register@
    }

    /// The hasher held, if any.
    pub closed spec fn held_hasher(&self) -> Option<Rc<DefaultHasher>> {
        self.hasher
    }

    /// Whether a hasher is held, which `insert` and `insert_hashed` need.
    pub fn has_hasher(&self) -> (r: bool)
        ensures
            r == self.held_hasher().is_some(),
    {
        self.hasher.is_some()
    }

    /// Hashes the text of `input` with `hasher` and puts `input` under that
    /// hash, in place of what was held there, which is returned.
    pub fn insert(&mut self, hasher: &mut DefaultHasher, input: T) -> (r: Option<Rc<T>>) where
        T: std::fmt::Display,

        requires
            old(self).held_hasher().is_some(),
        ensures
            final(self).held_hasher() == old(self).held_hasher(),
            exists|text: String| #[trigger]
                to_string_from_display_ensures::<T>(&input, text) && final(hasher)@ == old(
                    hasher,
                )@.push(encode_utf8(text@)) && final(self).entries() == old(self).entries().insert(
                    text_key(old(hasher)@, text@),
                    Rc::new(input),
                ) && r == held_under(old(self).entries(), text_key(old(hasher)@, text@)),
    {
        let text = input.to_string();
        hasher.write(text.as_str().as_bytes());
        let fed: &DefaultHasher = hasher;
        let key = fed.finish();
        self.insert_hashed(key, input)
    }

    /// Puts `input` under `key`, in place of what was held there, which is
    /// returned.
    pub fn insert_hashed(&mut self, key: u64, input: T) -> (r: Option<Rc<T>>)
        requires
            old(self).held_hasher().is_some(),
        ensures
            final(self).held_hasher() == old(self).held_hasher(),
            final(self).entries() == old(self).entries().insert(key, Rc::new(input)),
            r == held_under(old(self).entries(), key),
    {
        self.hash_register.register.insert(key, Rc::new(input))
    }

    /// An empty register with a hasher in its first state.
    pub fn new() -> (r: Self)
        ensures
            r.entries() == Map::<u64, Rc<T>>::empty(),
            r.held_hasher().is_some(),
            r.held_hasher().unwrap()@ == Seq::<Seq<u8>>::empty(),
    {
        Self {
            hash_register: HashSetMap { register: HashMap::new() },
            hasher: Some(Rc::new(DefaultHasher::new())),
        }
    }

    /// An empty register with room for `capacity` values, and no hasher.
    pub fn new_with_capacity(capacity: usize) -> (r: Self)
        ensures
            r.entries() == Map::<u64, Rc<T>>::empty(),
            r.held_hasher().is_none(),
    {
        Self { hash_register: HashSetMap { register: HashMap::with_capacity(capacity) }, hasher: None }
    }

    /// An empty register that holds `hasher`.
    pub fn new_with_hasher(hasher: Rc<DefaultHasher>) -> (r: Self)
        ensures
            r.entries() == Map::<u64, Rc<T>>::empty(),
            r.held_hasher() == Some(hasher),
    {
        Self { hash_register: HashSetMap { register: HashMap::new() }, hasher: Some(hasher) }
    }

    /// An empty register with room for `capacity` values that holds `hasher`.
    pub fn new_with_capacity_and_hasher(capacity: usize, hasher: Rc<DefaultHasher>) -> (r: Self)
        ensures
            r.entries() == Map::<u64, Rc<T>>::empty(),
            r.held_hasher() == Some(hasher),
    {
        Self {
            hash_register: HashSetMap { register: HashMap::with_capacity(capacity) },
            hasher: Some(hasher),
        }
    }

    /// The register that was filled.
    pub fn build(self) -> (r: HashMap<u64, Rc<T>>)
        ensures
            r@ == self.entries(),
    {
        self.hash_register.register
    }

    pub fn with_hasher(self, hasher: Rc<DefaultHasher>) -> (r: Self)
        ensures
            r.entries() == self.entries(),
            r.held_hasher() == Some(hasher),
    {
        let mut this = self;
        this.hasher = Some(hasher);
        this
    }

    pub fn hasher(&mut self, hasher: Rc<DefaultHasher>) -> (r: &mut Self)
        ensures
            r.entries() == old(self).entries(),
            r.held_hasher() == Some(hasher),
            *final(self) == *final(r),
    {
        self.hasher = Some(hasher);
        self
    }

    pub fn len(&self) -> (r: usize)
        ensures
            r == self.entries().len(),
    {
        self.hash_register.register.len()
    }

    pub fn is_empty(&self) -> (r: bool)
        ensures
            r == self.entries().is_empty(),
    {
        self.hash_register.register.is_empty()
    }

    /// Drops every value; the hasher stays.
    pub fn clear(&mut self)
        ensures
            final(self).entries() == Map::<u64, Rc<T>>::empty(),
            final(self).held_hasher() == old(self).held_hasher(),
    {
        self.hash_register.register.clear();
    }
}

impl<T> Default for HashSetMapBuilder<T> {
    fn default() -> (r: Self)
        ensures
            r.entries() == Map::<u64, Rc<T>>::empty(),
            r.held_hasher().is_some(),
            r.held_hasher().unwrap()@ == Seq::<Seq<u8>>::empty(),
    {
        Self {
            hash_register: HashSetMap { register: HashMap::new() },
            hasher: Some(Rc::new(DefaultHasher::new())),
        }
    }
}

} // verus!
