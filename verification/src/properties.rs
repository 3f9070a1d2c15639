//! The keyed properties of one node.

use vstd::prelude::*;
use kdl::KdlValue;
use std::collections::HashMap;
use crate::document::{
    get_property, insert_property, lists_keys, property_keys, property_map, remove_property,
    text_put, Properties, PropertyModel,
};
use crate::value::KdlValueBuilder;

verus! {

/// Whether one of the first `done` keys has the text `k`.
pub open spec fn among(keys: Seq<String>, done: int, k: Seq<char>) -> bool {
    exists|j: int| 0 <= j < done && (#[trigger] keys[j])@ == k
}

/// `base` after the entries of `from` under the first `done` keys were put
/// into it, each over what `base` held under the same key.
pub open spec fn merged_upto(
    base: PropertyModel,
    from: PropertyModel,
    keys: Seq<String>,
    done: int,
) -> PropertyModel {
    Map::new(
        |k: Seq<char>| base.contains_key(k) || among(keys, done, k),
        |k: Seq<char>|
            if among(keys, done, k) {
                from[k]
            } else {
                base[k]
            },
    )
}

/// Before any key is done, nothing of `from` is in.
pub proof fn lemma_merge_start(base: PropertyModel, from: PropertyModel, keys: Seq<String>)
    ensures
        merged_upto(base, from, keys, 0) == base,
{
    assert(merged_upto(base, from, keys, 0) =~= base);
}

/// Doing one more key puts the entry of `from` under that key.
pub proof fn lemma_merge_step(
    base: PropertyModel,
    from: PropertyModel,
    keys: Seq<String>,
    done: int,
)
    requires
        0 <= done < keys.len(),
    ensures
        merged_upto(base, from, keys, done + 1) == merged_upto(base, from, keys, done).insert(
            keys[done]@,
            from[keys[done]@],
        ),
{
    assert forall|k: Seq<char>|
        among(keys, done + 1, k) <==> among(keys, done, k) || k == keys[done]@ by {
        if among(keys, done, k) {
            let j = choose|j: int| 0 <= j < done && (#[trigger] keys[j])@ == k;
            assert(0 <= j < done + 1 && keys[j]@ == k);
        }
        if k == keys[done]@ {
            assert(0 <= done < done + 1 && keys[done]@ == k);
        }
    }
    assert(merged_upto(base, from, keys, done + 1) =~= merged_upto(base, from, keys, done).insert(
        keys[done]@,
        from[keys[done]@],
    ));
}

/// Once every key of `from` is done, `from` has been merged into `base`.
pub proof fn lemma_merge_done(base: PropertyModel, from: PropertyModel, keys: Seq<String>)
    requires
        lists_keys(keys, from),
    ensures
        merged_upto(base, from, keys, keys.len() as int) == base.union_prefer_right(from),
{
    assert(forall|k: Seq<char>| among(keys, keys.len() as int, k) <==> from.contains_key(k));
    assert(merged_upto(base, from, keys, keys.len() as int) =~= base.union_prefer_right(from));
}

/// Puts a copy of every entry of `from` into `into`. Under a key that both
/// hold, the value of `from` takes the place of the one held.
pub fn merge_properties(into: &mut Properties, from: &Properties)
    ensures
        property_map(*final(into)) == property_map(*old(into)).union_prefer_right(
            property_map(*from),
        ),
{
    let ghost base = property_map(*into);
    let ghost source = property_map(*from);
    let keys = property_keys(from);
    let mut i: usize = 0;
    proof {
        lemma_merge_start(base, source, keys@);
    }
    while i < keys.len()
        invariant
            i <= keys.len(),
            source == property_map(*from),
            lists_keys(keys@, source),
            property_map(*into) == merged_upto(base, source, keys@, i as int),
        decreases keys.len() - i,
    {
        let key = keys[i].clone();
        let found = get_property(from, key.as_str());
        if let Some(val) = found {
            insert_property(into, key, val);
        }
        proof {
            lemma_merge_step(base, source, keys@, i as int);
        }
        i += 1;
    }
    proof {
        lemma_merge_done(base, source, keys@);
    }
}

/// A property map as the `kdl` crate holds it. Its view gives the value
/// under the text of each key.
#[derive(Debug, PartialEq)]
pub struct KdlPropertiesProxy(pub Properties);

impl View for KdlPropertiesProxy {
    type V = PropertyModel;

    open spec fn view(&self) -> PropertyModel {
        property_map(self.0)
    }
}

impl KdlPropertiesProxy {
    fn new() -> (r: Self)
        ensures
            r@ == PropertyModel::empty(),
    {
        let r = KdlPropertiesProxy(HashMap::new());
        assert(r@ =~= PropertyModel::empty());
        r
    }
}

/// The builder of one node's property map. Its view gives the value that
/// the node will hold under the text of each key.
#[derive(Debug, PartialEq)]
pub struct KdlPropertiesBuilder {
    pub props: KdlPropertiesProxy,
    pub v: KdlValueBuilder,
}

impl View for KdlPropertiesBuilder {
    type V = PropertyModel;

    open spec fn view(&self) -> PropertyModel {
        self.props@
    }
}

impl KdlPropertiesBuilder {
    pub fn new() -> (r: Self)
        ensures
            r@ == PropertyModel::empty(),
    {
        Self { props: KdlPropertiesProxy::new(), v: KdlValueBuilder }
    }

    /// A map of its own with a copy of every entry.
    pub fn build(self) -> (r: Properties)
        ensures
            property_map(r) == self@,
    {
        let mut output: Properties = HashMap::new();
        assert(property_map(output) =~= PropertyModel::empty());
        merge_properties(&mut output, &self.props.0);
        assert(property_map(output) =~= self@);
        output
    }

    pub fn reset(self) -> (r: Self)
        ensures
            r@ == PropertyModel::empty(),
    {
        let mut this = self;
        this.props.0.clear();
        assert(this@ =~= PropertyModel::empty());
        this
    }

    /// Puts `val` under `key`, in place of what was held there.
    pub fn add(self, key: &mut str, val: KdlValue) -> (r: Self)
        ensures
            r@ == self@.insert(old(key)@, val),
            final(key)@ == old(key)@,
    {
        let mut this = self;
        let text: &str = key;
        insert_property(&mut this.props.0, text.to_string(), val);
        this
    }

    /// Takes out the entry under `key`; without one, nothing changes.
    pub fn rem(self, key: &mut str) -> (r: Self)
        ensures
            r@ == self@.remove(old(key)@),
            final(key)@ == old(key)@,
    {
        let mut this = self;
        remove_property(&mut this.props.0, key);
        this
    }

    /// Drops the entries held and takes a copy of those of `props`.
    pub fn set(self, props: &mut Properties) -> (r: Self)
        ensures
            r@ == property_map(*old(props)),
            *final(props) == *old(props),
    {
        let mut this = self;
        this.props.0.clear();
        assert(this@ =~= PropertyModel::empty());
        merge_properties(&mut this.props.0, props);
        assert(property_map(this.props.0) =~= property_map(*props));
        this
    }

    /// Puts a copy of every entry of `props` into the map; under a key that
    /// both hold, the value of `props` wins.
    pub fn join(self, props: &mut KdlPropertiesProxy) -> (r: Self)
        ensures
            r@ == self@.union_prefer_right(old(props)@),
            *final(props) == *old(props),
    {
        let mut this = self;
        merge_properties(&mut this.props.0, &props.0);
        this
    }

    /// Puts every entry of `other` into the map; under a key that both
    /// hold, the value of `other` wins.
    pub fn extend(self, other: KdlPropertiesBuilder) -> (r: Self)
        ensures
            r@ == self@.union_prefer_right(other@),
    {
        let mut this = self;
        merge_properties(&mut this.props.0, &other.props.0);
        this
    }

    /// Puts a string value with the text of `val` under `id`.
    pub fn str(self, id: &mut str, val: &mut str) -> (r: Self)
        ensures
            text_put(self@, r@, old(id)@, old(val)@),
            final(id)@ == old(id)@,
            final(val)@ == old(val)@,
    {
        let value = self.v.str(val);
        let r = self.add(id, value);
        assert(r@.remove(id@) =~= self@.remove(id@));
        r
    }

    /// Puts a string value with the text of `val` under `id`.
    pub fn s(self, id: &mut str, val: &mut str) -> (r: Self)
        ensures
            text_put(self@, r@, old(id)@, old(val)@),
            final(id)@ == old(id)@,
            final(val)@ == old(val)@,
    {
        let value = self.v.s(val);
        let r = self.add(id, value);
        assert(r@.remove(id@) =~= self@.remove(id@));
        r
    }

    pub fn integer(self, id: &mut str, val: i64) -> (r: Self)
        ensures
            r@ == self@.insert(old(id)@, KdlValue::Int(val)),
            final(id)@ == old(id)@,
    {
        let value = self.v.integer(val);
        self.add(id, value)
    }

    pub fn i(self, id: &mut str, val: i64) -> (r: Self)
        ensures
            r@ == self@.insert(old(id)@, KdlValue::Int(val)),
            final(id)@ == old(id)@,
    {
        let value = self.v.i(val);
        self.add(id, value)
    }

    pub fn bool(self, id: &mut str, val: bool) -> (r: Self)
        ensures
            r@ == self@.insert(old(id)@, KdlValue::Boolean(val)),
            final(id)@ == old(id)@,
    {
        let value = self.v.bool(val);
        self.add(id, value)
    }

    pub fn b(self, key: &mut str, val: bool) -> (r: Self)
        ensures
            r@ == self@.insert(old(key)@, KdlValue::Boolean(val)),
            final(key)@ == old(key)@,
    {
        let value = self.v.b(val);
        self.add(key, value)
    }

    pub fn y(self, id: &mut str) -> (r: Self)
        ensures
            r@ == self@.insert(old(id)@, KdlValue::Boolean(true)),
            final(id)@ == old(id)@,
    {
        let value = self.v.y();
        self.add(id, value)
    }

    pub fn n(self, id: &mut str) -> (r: Self)
        ensures
            r@ == self@.insert(old(id)@, KdlValue::Boolean(false)),
            final(id)@ == old(id)@,
    {
        let value = self.v.n();
        self.add(id, value)
    }

    pub fn nul(self, id: &mut str) -> (r: Self)
        ensures
            r@ == self@.insert(old(id)@, KdlValue::Null),
            final(id)@ == old(id)@,
    {
        let value = self.v.nul();
        self.add(id, value)
    }

    pub fn nil(self, id: &mut str) -> (r: Self)
        ensures
            r@ == self@.insert(old(id)@, KdlValue::Null),
            final(id)@ == old(id)@,
    {
        let value = self.v.nil();
        self.add(id, value)
    }
}

impl Default for KdlPropertiesBuilder {
    fn default() -> (r: Self)
        ensures
            r@ == PropertyModel::empty(),
    {
        Self { props: KdlPropertiesProxy::new(), v: KdlValueBuilder }
    }
}

} // verus!
