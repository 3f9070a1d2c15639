//! The document types of the `kdl` crate and their mathematical model.

use vstd::prelude::*;
use kdl::{KdlNode, KdlValue};
use std::collections::HashMap;

verus! {

/// Makes `kdl::KdlValue` known to the verifier, which reads its variants
/// from the crate's own definition: nothing is assumed about the type.
#[verifier::external_type_specification]
pub struct ExKdlValue(kdl::KdlValue);

/// Makes `kdl::KdlNode` known to the verifier, which reads its four public
/// fields from the crate's own definition: nothing is assumed about the type.
#[verifier::external_type_specification]
pub struct ExKdlNode(kdl::KdlNode);

/// `KdlValue::clone`, which the `kdl` crate derives: the copy has the
/// variant and the payload of the value it was made from.
pub assume_specification[ <KdlValue as Clone>::clone ](v: &KdlValue) -> (res: KdlValue)
    ensures
        res == *v,
;

/// The property map of a node, as the `kdl` crate holds it.
pub type Properties = HashMap<String, KdlValue>;

/// What a property map holds: a value for the text of each key.
pub type PropertyModel = Map<Seq<char>, KdlValue>;

/// The entries of a property map by the text of their keys: the map holds
/// a value under a text where one of its keys has that text.
pub open spec fn property_map(m: Properties) -> PropertyModel {
    Map::new(
        |t: Seq<char>| exists|k: String| #[trigger] m@.contains_key(k) && k@ == t,
        |t: Seq<char>| m@[choose|k: String| #[trigger] m@.contains_key(k) && k@ == t],
    )
}

/// What a document node is: a name, positional values in order, properties
/// by key, and child nodes in order.
pub struct NodeModel {
    pub name: Seq<char>,
    pub values: Seq<KdlValue>,
    pub properties: PropertyModel,
    pub children: Seq<NodeModel>,
}

impl NodeModel {
    /// A node with a name and nothing else.
    pub open spec fn fresh(name: Seq<char>) -> NodeModel {
        NodeModel { name, values: Seq::empty(), properties: Map::empty(), children: Seq::empty() }
    }

    pub open spec fn with_name(self, name: Seq<char>) -> NodeModel {
        NodeModel { name, ..self }
    }

    pub open spec fn with_values(self, values: Seq<KdlValue>) -> NodeModel {
        NodeModel { values, ..self }
    }

    pub open spec fn with_properties(self, properties: PropertyModel) -> NodeModel {
        NodeModel { properties, ..self }
    }

    pub open spec fn with_children(self, children: Seq<NodeModel>) -> NodeModel {
        NodeModel { children, ..self }
    }

    /// The node without its values and properties; its children stay.
    pub open spec fn cleared(self) -> NodeModel {
        self.with_values(Seq::empty()).with_properties(Map::empty())
    }
}

/// The model of a built node, taken field by field through the whole subtree.
pub open spec fn node_model(n: KdlNode) -> NodeModel
    decreases n,
{
    NodeModel {
        name: n.name@,
        values: n.values@,
        properties: property_map(n.properties),
        children: Seq::new(
            n.children@.len(),
            |i: int|
                if 0 <= i < n.children@.len() {
                    node_model(n.children@[i])
                } else {
                    arbitrary()
                },
        ),
    }
}

/// Whether `v` is a string value with the text `t`.
pub open spec fn is_text(v: KdlValue, t: Seq<char>) -> bool {
    v matches KdlValue::String(s) && s@ == t
}

/// Whether `after` is `before` with one more value at its end, a string
/// value with the text `t`.
pub open spec fn text_pushed(before: Seq<KdlValue>, after: Seq<KdlValue>, t: Seq<char>) -> bool {
    &&& after.len() == before.len() + 1
    &&& after.drop_last() == before
    &&& is_text(after.last(), t)
}

/// Whether `after` is `before` with a string value of the text `t` under
/// `key`, in place of what `before` held there.
pub open spec fn text_put(
    before: PropertyModel,
    after: PropertyModel,
    key: Seq<char>,
    t: Seq<char>,
) -> bool {
    &&& after.contains_key(key)
    &&& is_text(after[key], t)
    &&& after.remove(key) == before.remove(key)
}

/// Whether `keys` names every entry of `m` once: the keys differ in their
/// text, each is a key of `m`, and no key of `m` is missing.
pub open spec fn lists_keys(keys: Seq<String>, m: PropertyModel) -> bool {
    &&& forall|i: int, j: int|
        0 <= i < j < keys.len() ==> (#[trigger] keys[i])@ != (#[trigger] keys[j])@
    &&& forall|i: int| 0 <= i < keys.len() ==> m.contains_key((#[trigger] keys[i])@)
    &&& forall|k: Seq<char>| #[trigger]
        m.contains_key(k) ==> exists|i: int| 0 <= i < keys.len() && (#[trigger] keys[i])@ == k
}

// vstd specifies `HashMap` for the key types that it has a model of, and
// `String` is not among them. Each of the four functions below makes one
// call on a property map and states what the standard library documents of
// that call, with the keys taken by their text.

/// `HashMap::insert` with a `String` key: the map then holds `val` under
/// the text of `key`, whether or not it held an entry for that text before;
/// every other entry stays.
#[verifier::external_body]
pub(crate) fn insert_property(m: &mut Properties, key: String, val: KdlValue)
    ensures
        property_map(*final(m)) == property_map(*old(m)).insert(key@, val),
{
    m.insert(key, val);
}

/// `HashMap::remove` with a `String` key: the map then holds no entry under
/// the text of `key`; every other entry stays.
#[verifier::external_body]
pub(crate) fn remove_property(m: &mut Properties, key: &str)
    ensures
        property_map(*final(m)) == property_map(*old(m)).remove(key@),
{
    m.remove(key);
}

/// `HashMap::get` with a `String` key: a copy of the value held under the
/// text of `key`, or `None` where the map holds none.
#[verifier::external_body]
pub(crate) fn get_property(m: &Properties, key: &str) -> (found: Option<KdlValue>)
    ensures
        found.is_some() == property_map(*m).contains_key(key@),
        found.is_some() ==> found.unwrap() == property_map(*m)[key@],
{
    m.get(key).cloned()
}

/// `HashMap::keys` with a `String` key: a copy of each key, once, in an
/// order that is not stated.
#[verifier::external_body]
pub(crate) fn property_keys(m: &Properties) -> (keys: Vec<String>)
    ensures
        lists_keys(keys@, property_map(*m)),
{
    m.keys().cloned().collect()
}

} // verus!
