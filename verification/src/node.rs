//! The node builder: a name, values, properties and child builders, turned
//! into a document node by [`KdlNodeBuilder::build`].

use vstd::prelude::*;
use kdl::{KdlNode, KdlValue};
use crate::document::{
    get_property, insert_property, lists_keys, node_model, property_keys, property_map,
    remove_property, text_pushed, NodeModel, Properties, PropertyModel,
};
use crate::properties::{
    lemma_merge_done, lemma_merge_start, lemma_merge_step, merged_upto, KdlPropertiesBuilder,
};
use crate::values::{KdlValuesBuilder, KdlValuesProxy};

verus! {

/// The builder of one node and of the subtree below it. Its view is the
/// node that `build` will make.
#[derive(Debug, PartialEq)]
pub struct KdlNodeBuilder {
    pub n: String,
    pub v: KdlValuesBuilder,
    pub p: KdlPropertiesBuilder,
    pub c: KdlChildrenProxy,
}

/// The child builders of a node, in order. Its view is the list of the
/// nodes that they will make.
#[derive(Debug, PartialEq)]
pub struct KdlChildrenProxy(pub Vec<KdlNodeBuilder>);

/// The nodes that a list of builders will make, in the same order.
pub open spec fn models(builders: Seq<KdlNodeBuilder>) -> Seq<NodeModel> {
    Seq::new(builders.len(), |i: int| builders[i].model())
}

/// Each node of the list without its values.
pub open spec fn without_values(nodes: Seq<NodeModel>) -> Seq<NodeModel> {
    Seq::new(nodes.len(), |i: int| nodes[i].with_values(Seq::empty()))
}

/// Each node of the list without its properties.
pub open spec fn without_properties(nodes: Seq<NodeModel>) -> Seq<NodeModel> {
    Seq::new(nodes.len(), |i: int| nodes[i].with_properties(Map::empty()))
}

impl View for KdlNodeBuilder {
    type V = NodeModel;

    open spec fn view(&self) -> NodeModel {
        self.model()
    }
}

impl View for KdlChildrenProxy {
    type V = Seq<NodeModel>;

    open spec fn view(&self) -> Seq<NodeModel> {
        models(self.0@)
    }
}

impl KdlChildrenProxy {
    pub fn new() -> (r: Self)
        ensures
            r@ == Seq::<NodeModel>::empty(),
    {
        let r = KdlChildrenProxy(Vec::new());
        assert(r@ =~= Seq::<NodeModel>::empty());
        r
    }

    /// Builds every child, first to last.
    pub fn build(self) -> (r: Vec<KdlNode>)
        ensures
            r@.len() == self@.len(),
            forall|i: int| 0 <= i < r@.len() ==> node_model(#[trigger] r@[i]) == self@[i],
        decreases self,
    {
        let ghost kids = self.0@;
        let mut out: Vec<KdlNode> = Vec::new();
        for child in it: self.0
            invariant
                it.seq() == kids,
                kids == self.0@,
                out@.len() == it.index(),
                forall|i: int|
                    0 <= i < out@.len() ==> node_model(#[trigger] out@[i]) == kids[i].model(),
        {
            let node = child.build();
            out.push(node);
        }
        out
    }
}

impl KdlNodeBuilder {
    /// What the builder stands for: its own four parts, with the model of
    /// each child builder in place of the builder.
    pub open spec fn model(self) -> NodeModel
        decreases self,
    {
        NodeModel {
            name: self.n@,
            values: self.v@,
            properties: self.p@,
            children: Seq::new(
                self.c.0@.len(),
                |i: int|
                    if 0 <= i < self.c.0@.len() {
                        self.c.0@[i].model()
                    } else {
                        arbitrary()
                    },
            ),
        }
    }

    /// The children of the model are the models of the child builders.
    pub proof fn lemma_children(self)
        ensures
            self@.children == self.c@,
    {
        assert(self@.children =~= self.c@);
    }

    /// A builder with a name and nothing else.
    pub fn new(name: &mut str) -> (r: Self)
        ensures
            r@ == NodeModel::fresh(old(name)@),
            final(name)@ == old(name)@,
    {
        let text: &str = name;
        let r = Self {
            n: text.to_string(),
            v: KdlValuesBuilder::new(),
            p: KdlPropertiesBuilder::new(),
            c: KdlChildrenProxy::new(),
        };
        assert(r@.children =~= Seq::<NodeModel>::empty());
        r
    }

    /// Turns the builder and every builder below it into document nodes,
    /// children before their parent.
    pub fn build(self) -> (r: KdlNode)
        ensures
            node_model(r) == self@,
            r.children@.len() == self@.children.len(),
        decreases self,
    {
        let values = self.v.build();
        let properties = self.p.build();
        let children = self.c.build();
        let r = KdlNode { name: self.n, values, properties, children };
        assert(node_model(r).children =~= self@.children);
        r
    }

    /// Drops the values and the properties; the name and the children stay.
    pub fn reset(self) -> (r: Self)
        ensures
            r@ == self@.cleared(),
    {
        self.reset_children().reset_values().reset_properties()
    }

    /// Takes the values, the properties and the children of `val` behind
    /// its own. Under a property key that both hold, the value of `val` wins.
    /// The name of `val` is dropped.
    pub fn extend(self, val: KdlNodeBuilder) -> (r: Self)
        ensures
            r@ == self@.with_values(self@.values + val@.values).with_properties(
                self@.properties.union_prefer_right(val@.properties),
            ).with_children(self@.children + val@.children),
    {
        let mut this = self;
        let ghost prior = this@;
        let mut more = val.c.0;
        this.c.0.append(&mut more);
        this.v = this.v.extend(val.v);
        this.p = this.p.extend(val.p);
        assert(this@.children =~= prior.children + val@.children);
        this
    }

    /// Leaves the builder and `val` as they are.
    pub fn extend_children(self, val: &mut KdlNodeBuilder) -> (r: Self)
        ensures
            r == self,
            *final(val) == *old(val),
    {
        self
    }

    pub fn name(self, name: &mut str) -> (r: Self)
        ensures
            r@ == self@.with_name(old(name)@),
            final(name)@ == old(name)@,
    {
        let mut this = self;
        let ghost prior = this@;
        let text: &str = name;
        this.n = text.to_string();
        assert(this@.children =~= prior.children);
        this
    }

    pub fn reset_values(self) -> (r: Self)
        ensures
            r@ == self@.with_values(Seq::empty()),
    {
        let mut this = self;
        let ghost prior = this@;
        this.v = this.v.reset();
        assert(this@.children =~= prior.children);
        this
    }

    pub fn reset_properties(self) -> (r: Self)
        ensures
            r@ == self@.with_properties(Map::empty()),
    {
        let mut this = self;
        let ghost prior = this@;
        this.p = this.p.reset();
        assert(this@.children =~= prior.children);
        this
    }

    /// Drops the values and the properties of the child at `child`; its
    /// name and its own children stay.
    pub fn reset_child(self, child: usize) -> (r: Self)
        requires
            child < self@.children.len(),
        ensures
            r@ == self@.with_children(
                self@.children.update(child as int, self@.children[child as int].cleared()),
            ),
    {
        let mut this = self;
        let ghost prior = this@;
        let one = this.c.0.remove(child);
        let ghost one_model = one@;
        let fresh = one.reset();
        this.c.0.insert(child, fresh);
        assert(this@.children =~= prior.children.update(child as int, one_model.cleared()));
        this
    }

    /// Leaves the builder as it is.
    pub fn reset_child_values(self, child: usize) -> (r: Self)
        ensures
            r == self,
    {
        self
    }

    /// Leaves the builder as it is.
    pub fn reset_child_properties(self, child: usize) -> (r: Self)
        ensures
            r == self,
    {
        self
    }

    /// Leaves the builder as it is: `reset` does not reach the children.
    pub fn reset_children(self) -> (r: Self)
        ensures
            r == self,
    {
        self
    }

    /// Drops the values of every child; the children of the children stay
    /// as they are.
    pub fn reset_children_values(self) -> (r: Self)
        ensures
            r@ == self@.with_children(without_values(self@.children)),
    {
        let mut this = self;
        let ghost prior = this@;
        let ghost kids = this.c.0@;
        let mut out: Vec<KdlNodeBuilder> = Vec::new();
        let mut rest: Vec<KdlNodeBuilder> = Vec::new();
        rest.append(&mut this.c.0);
        for child in it: rest
            invariant
                it.seq() == kids,
                out@.len() == it.index(),
                forall|i: int|
                    0 <= i < out@.len() ==> (#[trigger] out@[i])@ == kids[i]@.with_values(
                        Seq::empty(),
                    ),
        {
            out.push(child.reset_values());
        }
        this.c.0 = out;
        assert(this@.children =~= without_values(prior.children));
        this
    }

    /// Drops the properties of every child; the children of the children
    /// stay as they are.
    pub fn reset_children_properties(self) -> (r: Self)
        ensures
            r@ == self@.with_children(without_properties(self@.children)),
    {
        let mut this = self;
        let ghost prior = this@;
        let ghost kids = this.c.0@;
        let mut out: Vec<KdlNodeBuilder> = Vec::new();
        let mut rest: Vec<KdlNodeBuilder> = Vec::new();
        rest.append(&mut this.c.0);
        for child in it: rest
            invariant
                it.seq() == kids,
                out@.len() == it.index(),
                forall|i: int|
                    0 <= i < out@.len() ==> (#[trigger] out@[i])@ == kids[i]@.with_properties(
                        Map::empty(),
                    ),
        {
            out.push(child.reset_properties());
        }
        this.c.0 = out;
        assert(this@.children =~= without_properties(prior.children));
        this
    }

    /// Puts `val` behind the values.
    pub fn add(self, val: KdlValue) -> (r: Self)
        ensures
            r@ == self@.with_values(self@.values.push(val)),
    {
        let mut this = self;
        let ghost prior = this@;
        this.v = this.v.add(val);
        assert(this@.children =~= prior.children);
        this
    }

    /// Puts `val` behind the values.
    pub fn val(self, val: KdlValue) -> (r: Self)
        ensures
            r@ == self@.with_values(self@.values.push(val)),
    {
        let mut this = self;
        let ghost prior = this@;
        this.v = this.v.add(val);
        assert(this@.children =~= prior.children);
        this
    }

    /// Takes out the value at `index`; the values behind it move up by one.
    pub fn rem(self, index: usize) -> (r: Self)
        requires
            index < self@.values.len(),
        ensures
            r@ == self@.with_values(self@.values.remove(index as int)),
    {
        let mut this = self;
        let ghost prior = this@;
        this.v = this.v.rem(index);
        assert(this@.children =~= prior.children);
        this
    }

    /// Moves the values of `vals` behind its own; `vals` is left empty.
    pub fn join(self, vals: &mut KdlValuesProxy) -> (r: Self)
        ensures
            r@ == self@.with_values(self@.values + old(vals)@),
            final(vals)@ == Seq::<KdlValue>::empty(),
    {
        let mut this = self;
        let ghost prior = this@;
        this.v = this.v.join(vals);
        assert(this@.children =~= prior.children);
        this
    }

    /// Moves the values of `vals` behind its own; `vals` is left empty.
    pub fn vals(self, vals: &mut KdlValuesProxy) -> (r: Self)
        ensures
            r@ == self@.with_values(self@.values + old(vals)@),
            final(vals)@ == Seq::<KdlValue>::empty(),
    {
        let mut this = self;
        let ghost prior = this@;
        this.v = this.v.join(vals);
        assert(this@.children =~= prior.children);
        this
    }

    /// Takes out the value at `index` and puts `val` at the end: the new
    /// value does not stand at `index`.
    pub fn value(self, index: usize, val: KdlValue) -> (r: Self)
        requires
            index < self@.values.len(),
        ensures
            r@ == self@.with_values(self@.values.remove(index as int).push(val)),
    {
        let mut this = self;
        let ghost prior = this@;
        this.v = this.v.rem(index);
        this.v = this.v.add(val);
        assert(this@.children =~= prior.children);
        this
    }

    /// Drops its values and takes a copy of those of `vals`.
    pub fn set(self, vals: &mut KdlValuesProxy) -> (r: Self)
        ensures
            r@ == self@.with_values(old(vals)@),
            final(vals)@ == old(vals)@,
    {
        let mut this = self;
        let ghost prior = this@;
        this.v = this.v.set(vals);
        assert(this@.children =~= prior.children);
        this
    }

    /// Drops its values and takes a copy of those of `vals`.
    pub fn values(self, vals: &mut KdlValuesProxy) -> (r: Self)
        ensures
            r@ == self@.with_values(old(vals)@),
            final(vals)@ == old(vals)@,
    {
        let mut this = self;
        let ghost prior = this@;
        this.v = this.v.set(vals);
        assert(this@.children =~= prior.children);
        this
    }

    /// Puts `val` under `key`, in place of what was held there.
    pub fn put(self, key: &mut str, val: KdlValue) -> (r: Self)
        ensures
            r@ == self@.with_properties(self@.properties.insert(old(key)@, val)),
            final(key)@ == old(key)@,
    {
        let mut this = self;
        let ghost prior = this@;
        this.p = this.p.add(key, val);
        assert(this@.children =~= prior.children);
        this
    }

    /// Puts `val` under `key`, in place of what was held there.
    pub fn prop(self, key: &mut str, val: KdlValue) -> (r: Self)
        ensures
            r@ == self@.with_properties(self@.properties.insert(old(key)@, val)),
            final(key)@ == old(key)@,
    {
        let mut this = self;
        let ghost prior = this@;
        this.p = this.p.add(key, val);
        assert(this@.children =~= prior.children);
        this
    }

    /// Puts a copy of every entry of `props` into the properties; under a
    /// key that both hold, the value of `props` wins.
    pub fn props(self, props: &mut Properties) -> (r: Self)
        ensures
            r@ == self@.with_properties(
                self@.properties.union_prefer_right(property_map(*old(props))),
            ),
            *final(props) == *old(props),
    {
        self.properties(props)
    }

    /// Takes out what is held under `key`, then puts `val` there.
    pub fn property(self, key: &mut str, val: KdlValue) -> (r: Self)
        ensures
            r@ == self@.with_properties(self@.properties.insert(old(key)@, val)),
            final(key)@ == old(key)@,
    {
        let mut this = self;
        let ghost prior = this@;
        this.p = this.p.rem(key);
        this.p = this.p.add(key, val);
        assert(this@.properties =~= prior.properties.insert(key@, val));
        assert(this@.children =~= prior.children);
        this
    }

    /// For every entry of `props`: takes out what is held under its key,
    /// then puts a copy of the entry there. Under a key that both hold, the
    /// value of `props` wins.
    pub fn properties(self, props: &mut Properties) -> (r: Self)
        ensures
            r@ == self@.with_properties(
                self@.properties.union_prefer_right(property_map(*old(props))),
            ),
            *final(props) == *old(props),
    {
        let mut this = self;
        let ghost prior = this@;
        let ghost base = this.p@;
        let ghost source = property_map(*props);
        let keys = property_keys(props);
        let mut held = this.p.props.0;
        let mut i: usize = 0;
        proof {
            lemma_merge_start(base, source, keys@);
        }
        while i < keys.len()
            invariant
                i <= keys.len(),
                source == property_map(*props),
                lists_keys(keys@, source),
                property_map(held) == merged_upto(base, source, keys@, i as int),
            decreases keys.len() - i,
        {
            let key = keys[i].clone();
            let found = get_property(props, key.as_str());
            if let Some(val) = found {
                remove_property(&mut held, key.as_str());
                insert_property(&mut held, key, val);
                assert(property_map(held) =~= merged_upto(base, source, keys@, i as int).insert(
                    keys@[i as int]@,
                    val,
                ));
            }
            proof {
                lemma_merge_step(base, source, keys@, i as int);
            }
            i += 1;
        }
        proof {
            lemma_merge_done(base, source, keys@);
        }
        this.p.props.0 = held;
        assert(this@.children =~= prior.children);
        this
    }

    /// Puts `child` behind the children.
    pub fn child(self, child: KdlNodeBuilder) -> (r: Self)
        ensures
            r@ == self@.with_children(self@.children.push(child@)),
    {
        let mut this = self;
        let ghost prior = this@;
        this.c.0.push(child);
        assert(this@.children =~= prior.children.push(child@));
        this
    }

    /// Puts the builders of `children` behind the children, in their order.
    pub fn children(self, children: Vec<KdlNodeBuilder>) -> (r: Self)
        ensures
            r@ == self@.with_children(self@.children + models(children@)),
    {
        let mut this = self;
        let ghost prior = this@;
        let mut more = children;
        this.c.0.append(&mut more);
        assert(this@.children =~= prior.children + models(children@));
        this
    }

    /// Puts `child` at `index`; the children from there on move back by one.
    pub fn insert_child(self, index: usize, child: KdlNodeBuilder) -> (r: Self)
        requires
            index <= self@.children.len(),
        ensures
            r@ == self@.with_children(self@.children.insert(index as int, child@)),
    {
        let mut this = self;
        let ghost prior = this@;
        this.c.0.insert(index, child);
        assert(this@.children =~= prior.children.insert(index as int, child@));
        this
    }

    /// Drops the children and takes the builders of `children` in their place.
    pub fn set_children(self, children: Vec<KdlNodeBuilder>) -> (r: Self)
        ensures
            r@ == self@.with_children(models(children@)),
    {
        let mut this = self;
        this.c.0 = children;
        assert(this@.children =~= models(children@));
        this
    }

    /// Takes out the child at `child`; the children behind it move up by one.
    pub fn remove_child(self, child: usize) -> (r: Self)
        requires
            child < self@.children.len(),
        ensures
            r@ == self@.with_children(self@.children.remove(child as int)),
    {
        let mut this = self;
        let ghost prior = this@;
        this.c.0.remove(child);
        assert(this@.children =~= prior.children.remove(child as int));
        this
    }

    pub fn remove_children(self) -> (r: Self)
        ensures
            r@ == self@.with_children(Seq::empty()),
    {
        let mut this = self;
        this.c.0.clear();
        assert(this@.children =~= Seq::<NodeModel>::empty());
        this
    }

    /// Puts a string value with the text of `val` behind the values.
    pub fn str(self, val: &mut str) -> (r: Self)
        ensures
            r@ == self@.with_values(r@.values),
            text_pushed(self@.values, r@.values, old(val)@),
            final(val)@ == old(val)@,
    {
        let mut this = self;
        let ghost prior = this@;
        let text: &str = val;
        this.v.vals.0.push(KdlValue::String(text.to_string()));
        assert(this@.children =~= prior.children);
        assert(this@.values.drop_last() =~= prior.values);
        this
    }

    /// Puts a string value with the text of `val` behind the values.
    pub fn s(self, val: &mut str) -> (r: Self)
        ensures
            r@ == self@.with_values(r@.values),
            text_pushed(self@.values, r@.values, old(val)@),
            final(val)@ == old(val)@,
    {
        let mut this = self;
        let ghost prior = this@;
        this.v = this.v.s(val);
        assert(this@.children =~= prior.children);
        this
    }

    pub fn integer(self, val: i64) -> (r: Self)
        ensures
            r@ == self@.with_values(self@.values.push(KdlValue::Int(val))),
    {
        let mut this = self;
        let ghost prior = this@;
        this.v = this.v.integer(val);
        assert(this@.children =~= prior.children);
        this
    }

    pub fn i(self, val: i64) -> (r: Self)
        ensures
            r@ == self@.with_values(self@.values.push(KdlValue::Int(val))),
    {
        let mut this = self;
        let ghost prior = this@;
        this.v = this.v.i(val);
        assert(this@.children =~= prior.children);
        this
    }

    pub fn bool(self, val: bool) -> (r: Self)
        ensures
            r@ == self@.with_values(self@.values.push(KdlValue::Boolean(val))),
    {
        let mut this = self;
        let ghost prior = this@;
        this.v = this.v.bool(val);
        assert(this@.children =~= prior.children);
        this
    }

    pub fn b(self, val: bool) -> (r: Self)
        ensures
            r@ == self@.with_values(self@.values.push(KdlValue::Boolean(val))),
    {
        let mut this = self;
        let ghost prior = this@;
        this.v = this.v.b(val);
        assert(this@.children =~= prior.children);
        this
    }

    pub fn y(self) -> (r: Self)
        ensures
            r@ == self@.with_values(self@.values.push(KdlValue::Boolean(true))),
    {
        let mut this = self;
        let ghost prior = this@;
        this.v = this.v.y();
        assert(this@.children =~= prior.children);
        this
    }

    pub fn n(self) -> (r: Self)
        ensures
            r@ == self@.with_values(self@.values.push(KdlValue::Boolean(false))),
    {
        let mut this = self;
        let ghost prior = this@;
        this.v = this.v.n();
        assert(this@.children =~= prior.children);
        this
    }

    pub fn null(self) -> (r: Self)
        ensures
            r@ == self@.with_values(self@.values.push(KdlValue::Null)),
    {
        let mut this = self;
        let ghost prior = this@;
        this.v = this.v.nul();
        assert(this@.children =~= prior.children);
        this
    }

    pub fn nul(self) -> (r: Self)
        ensures
            r@ == self@.with_values(self@.values.push(KdlValue::Null)),
    {
        let mut this = self;
        let ghost prior = this@;
        this.v = this.v.nul();
        assert(this@.children =~= prior.children);
        this
    }

    pub fn nil(self) -> (r: Self)
        ensures
            r@ == self@.with_values(self@.values.push(KdlValue::Null)),
    {
        let mut this = self;
        let ghost prior = this@;
        this.v = this.v.nil();
        assert(this@.children =~= prior.children);
        this
    }
}

} // verus!
