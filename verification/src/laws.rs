//! What holds of the builders whatever they are given, stated over the
//! models that their contracts speak of.

use vstd::prelude::*;
use kdl::KdlValue;
use crate::document::{NodeModel, PropertyModel};

verus! {

/// One change to a node under construction.
pub enum Mutation {
    /// A value is put behind the values.
    AddValue(KdlValue),
    /// The value at an index is taken out.
    RemoveValue(int),
    /// A value is put under a property key.
    PutProperty(Seq<char>, KdlValue),
    /// The entry under a property key is taken out, if there is one.
    RemoveProperty(Seq<char>),
    /// A child is put behind the children.
    AddChild(NodeModel),
    /// The child at an index is taken out.
    RemoveChild(int),
}

/// Whether the change can be made to `m`: an index must point at something.
pub open spec fn allowed(m: NodeModel, step: Mutation) -> bool {
    match step {
        Mutation::RemoveValue(i) => 0 <= i < m.values.len(),
        Mutation::RemoveChild(i) => 0 <= i < m.children.len(),
        _ => true,
    }
}

/// The node after the change.
pub open spec fn apply(m: NodeModel, step: Mutation) -> NodeModel {
    match step {
        Mutation::AddValue(v) => m.with_values(m.values.push(v)),
        Mutation::RemoveValue(i) => m.with_values(m.values.remove(i)),
        Mutation::PutProperty(k, v) => m.with_properties(m.properties.insert(k, v)),
        Mutation::RemoveProperty(k) => m.with_properties(m.properties.remove(k)),
        Mutation::AddChild(c) => m.with_children(m.children.push(c)),
        Mutation::RemoveChild(i) => m.with_children(m.children.remove(i)),
    }
}

/// The node after the changes, made first to last.
pub open spec fn run(m: NodeModel, steps: Seq<Mutation>) -> NodeModel
    decreases steps.len(),
{
    if steps.len() == 0 {
        m
    } else {
        apply(run(m, steps.drop_last()), steps.last())
    }
}

/// Whether each change can be made to the node that the changes before it
/// have left.
pub open spec fn all_allowed(m: NodeModel, steps: Seq<Mutation>) -> bool
    decreases steps.len(),
{
    steps.len() == 0 || (all_allowed(m, steps.drop_last()) && allowed(
        run(m, steps.drop_last()),
        steps.last(),
    ))
}

/// Values put in, less values taken out.
pub open spec fn values_gained(steps: Seq<Mutation>) -> int
    decreases steps.len(),
{
    if steps.len() == 0 {
        0
    } else {
        values_gained(steps.drop_last()) + match steps.last() {
            Mutation::AddValue(_) => 1int,
            Mutation::RemoveValue(_) => -1int,
            _ => 0int,
        }
    }
}

/// Children put in, less children taken out.
pub open spec fn children_gained(steps: Seq<Mutation>) -> int
    decreases steps.len(),
{
    if steps.len() == 0 {
        0
    } else {
        children_gained(steps.drop_last()) + match steps.last() {
            Mutation::AddChild(_) => 1int,
            Mutation::RemoveChild(_) => -1int,
            _ => 0int,
        }
    }
}

/// What one change adds to the number of properties: a put counts where
/// the key is new, a removal where the key is held.
pub open spec fn property_gain(held: PropertyModel, step: Mutation) -> int {
    match step {
        Mutation::PutProperty(k, _) => if held.contains_key(k) {
            0int
        } else {
            1int
        },
        Mutation::RemoveProperty(k) => if held.contains_key(k) {
            -1int
        } else {
            0int
        },
        _ => 0int,
    }
}

/// Properties put under new keys, less properties taken out.
pub open spec fn properties_gained(m: NodeModel, steps: Seq<Mutation>) -> int
    decreases steps.len(),
{
    if steps.len() == 0 {
        0
    } else {
        properties_gained(m, steps.drop_last()) + property_gain(
            run(m, steps.drop_last()).properties,
            steps.last(),
        )
    }
}

/// After any changes that can be made, the node has as many values as it
/// had, plus those put in, less those taken out; the same holds of its
/// children, and of its properties where a put under a key that is held
/// counts for nothing. The name is the one it had. A built node has the
/// model of its builder, so these are also the counts of the node that
/// `build` hands back.
pub proof fn law_shape(m: NodeModel, steps: Seq<Mutation>)
    requires
        all_allowed(m, steps),
        m.properties.dom().finite(),
    ensures
        run(m, steps).name == m.name,
        run(m, steps).values.len() == m.values.len() + values_gained(steps),
        run(m, steps).children.len() == m.children.len() + children_gained(steps),
        run(m, steps).properties.dom().finite(),
        run(m, steps).properties.len() == m.properties.len() + properties_gained(m, steps),
    decreases steps.len(),
{
    if steps.len() > 0 {
        law_shape(m, steps.drop_last());
    }
}

/// The values after each of `more` was put behind `start`, first to last.
pub open spec fn appended(start: Seq<KdlValue>, more: Seq<KdlValue>) -> Seq<KdlValue>
    decreases more.len(),
{
    if more.len() == 0 {
        start
    } else {
        appended(start, more.drop_last()).push(more.last())
    }
}

/// Values that are put in one by one stand behind those that were there,
/// in the order in which they were put in.
pub proof fn law_append_order(start: Seq<KdlValue>, more: Seq<KdlValue>)
    ensures
        appended(start, more) == start + more,
        appended(Seq::empty(), more) == more,
    decreases more.len(),
{
    if more.len() > 0 {
        law_append_order(start, more.drop_last());
        law_append_order(Seq::empty(), more.drop_last());
        assert(start + more =~= (start + more.drop_last()).push(more.last()));
        assert(more =~= (Seq::<KdlValue>::empty() + more.drop_last()).push(more.last()));
        assert(Seq::<KdlValue>::empty() + more.drop_last() =~= more.drop_last());
    } else {
        assert(start + more =~= start);
    }
}

/// A second put under a key leaves one entry there, with the second value;
/// the first put is as if it were never made, and the other keys hold what
/// they held.
pub proof fn law_overwrite(m: PropertyModel, key: Seq<char>, first: KdlValue, second: KdlValue)
    ensures
        m.insert(key, first).insert(key, second) == m.insert(key, second),
        m.insert(key, first).insert(key, second).contains_key(key),
        m.insert(key, first).insert(key, second)[key] == second,
        m.insert(key, first).insert(key, second).remove(key) == m.remove(key),
        m.dom().finite() ==> m.insert(key, first).insert(key, second).len() == m.insert(
            key,
            first,
        ).len(),
{
    assert(m.insert(key, first).insert(key, second) =~= m.insert(key, second));
    assert(m.insert(key, second).remove(key) =~= m.remove(key));
    assert(m.insert(key, first).dom() =~= m.insert(key, second).dom());
}

/// After a merge, a key that the merged-in map holds has that map's value,
/// whether or not the other map held the key; a key that only the other
/// map holds keeps its value; and no other key is held.
pub proof fn law_merge_precedence(a: PropertyModel, b: PropertyModel, key: Seq<char>)
    ensures
        a.union_prefer_right(b).contains_key(key) <==> a.contains_key(key) || b.contains_key(key),
        b.contains_key(key) ==> a.union_prefer_right(b)[key] == b[key],
        a.contains_key(key) && !b.contains_key(key) ==> a.union_prefer_right(b)[key] == a[key],
{
}

/// A chain of nodes, one below the other: the node at `level` has the name
/// and the one value of that level, no property, and the rest of the chain
/// as its only child.
pub open spec fn chain(names: Seq<Seq<char>>, values: Seq<KdlValue>, level: int) -> NodeModel
    decreases names.len() - level,
{
    let own = NodeModel::fresh(names[level]).with_values(Seq::empty().push(values[level]));
    if 0 <= level && level + 1 < names.len() {
        own.with_children(Seq::empty().push(chain(names, values, level + 1)))
    } else {
        own
    }
}

/// The node that is `depth` levels below `m`, going down by first children.
pub open spec fn descendant(m: NodeModel, depth: nat) -> NodeModel
    decreases depth,
{
    if depth == 0 {
        m
    } else {
        descendant(m.children[0], (depth - 1) as nat)
    }
}

/// In a chain of single children, each made with its name and one value
/// and then given the chain below it as a child, the node at each depth has
/// the name and the one value of that depth, and one child but for the
/// last, which has none.
pub proof fn law_nested_chain(
    names: Seq<Seq<char>>,
    values: Seq<KdlValue>,
    level: int,
    depth: nat,
)
    requires
        names.len() == values.len(),
        0 <= level,
        level + depth < names.len(),
    ensures
        descendant(chain(names, values, level), depth).name == names[level + depth],
        descendant(chain(names, values, level), depth).values == seq![values[level + depth]],
        descendant(chain(names, values, level), depth).properties == PropertyModel::empty(),
        descendant(chain(names, values, level), depth).children.len() == (if level + depth + 1
            < names.len() {
            1int
        } else {
            0int
        }),
    decreases depth,
{
    if depth > 0 {
        law_nested_chain(names, values, level + 1, (depth - 1) as nat);
        assert(chain(names, values, level).children[0] == chain(names, values, level + 1));
    } else {
        assert(chain(names, values, level).values =~= seq![values[level]]);
    }
}

} // verus!
