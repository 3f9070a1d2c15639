//! The positional values of one node.

use vstd::prelude::*;
use kdl::KdlValue;
use crate::document::text_pushed;
use crate::value::KdlValueBuilder;

verus! {

/// An ordered list of document values. Its view is the list itself.
#[derive(Debug, PartialEq)]
pub struct KdlValuesProxy(pub Vec<KdlValue>);

impl View for KdlValuesProxy {
    type V = Seq<KdlValue>;

    open spec fn view(&self) -> Seq<KdlValue> {
        self.0@
    }
}

impl KdlValuesProxy {
    /// Puts `val` at the end.
    pub fn add(self, val: KdlValue) -> (r: Self)
        ensures
            r@ == self@.push(val),
    {
        let mut this = self;
        this.0.push(val);
        this
    }

    /// Takes out the value at `index`; the values behind it move up by one.
    pub fn rem(self, index: usize) -> (r: Self)
        requires
            index < self@.len(),
        ensures
            r@ == self@.remove(index as int),
    {
        let mut this = self;
        this.0.remove(index);
        this
    }

    pub fn clear(self) -> (r: Self)
        ensures
            r@ == Seq::<KdlValue>::empty(),
    {
        let mut this = self;
        this.0.clear();
        this
    }

    /// Drops the values held and takes a copy of those of `vals`.
    pub fn set(self, vals: &mut KdlValuesProxy) -> (r: Self)
        ensures
            r@ == old(vals)@,
            final(vals)@ == old(vals)@,
    {
        let mut this = self;
        this.0 = vals.0.clone();
        assert(this.0@ =~= vals.0@);
        this
    }

    /// Moves the values of `vals` behind those held; `vals` is left empty.
    pub fn append(self, vals: &mut KdlValuesProxy) -> (r: Self)
        ensures
            r@ == self@ + old(vals)@,
            final(vals)@ == Seq::<KdlValue>::empty(),
    {
        let mut this = self;
        this.0.append(&mut vals.0);
        this
    }
}

/// The builder of one node's value list. Its view is the list of values in
/// the order in which they will stand in the node.
#[derive(Debug, PartialEq)]
pub struct KdlValuesBuilder {
    pub vals: KdlValuesProxy,
    pub v: KdlValueBuilder,
}

impl View for KdlValuesBuilder {
    type V = Seq<KdlValue>;

    open spec fn view(&self) -> Seq<KdlValue> {
        self.vals@
    }
}

impl KdlValuesBuilder {
    pub fn new() -> (r: Self)
        ensures
            r@ == Seq::<KdlValue>::empty(),
    {
        Self { vals: KdlValuesProxy(Vec::new()), v: KdlValueBuilder }
    }

    /// A copy of the values, in order. The builder is left as it is.
    pub fn build(&self) -> (r: Vec<KdlValue>)
        ensures
            r@ == self@,
    {
        let r = self.vals.0.clone();
        assert(r@ =~= self.vals.0@);
        r
    }

    pub fn reset(self) -> (r: Self)
        ensures
            r@ == Seq::<KdlValue>::empty(),
    {
        let mut this = self;
        this.vals.0.clear();
        this
    }

    /// Puts `val` at the end.
    pub fn add(self, val: KdlValue) -> (r: Self)
        ensures
            r@ == self@.push(val),
    {
        let mut this = self;
        this.vals.0.push(val);
        this
    }

    /// Takes out the value at `index`; the values behind it move up by one.
    pub fn rem(self, index: usize) -> (r: Self)
        requires
            index < self@.len(),
        ensures
            r@ == self@.remove(index as int),
    {
        let mut this = self;
        this.vals.0.remove(index);
        this
    }

    pub fn clear(self) -> (r: Self)
        ensures
            r@ == Seq::<KdlValue>::empty(),
    {
        let mut this = self;
        this.vals.0.clear();
        this
    }

    /// Drops the values held and takes a copy of those of `vals`.
    pub fn set(self, vals: &mut KdlValuesProxy) -> (r: Self)
        ensures
            r@ == old(vals)@,
            final(vals)@ == old(vals)@,
    {
        let mut this = self;
        this.vals.0 = vals.0.clone();
        assert(this.vals.0@ =~= vals.0@);
        this
    }

    /// Moves the values of `vals` behind those held; `vals` is left empty.
    pub fn join(self, vals: &mut KdlValuesProxy) -> (r: Self)
        ensures
            r@ == self@ + old(vals)@,
            final(vals)@ == Seq::<KdlValue>::empty(),
    {
        let mut this = self;
        this.vals.0.append(&mut vals.0);
        this
    }

    /// Puts the values of `other` behind those held.
    pub fn extend(self, other: Self) -> (r: Self)
        ensures
            r@ == self@ + other@,
    {
        let mut this = self;
        let mut rest = other.vals.0;
        this.vals.0.append(&mut rest);
        this
    }

    /// Puts a string value with the text of `val` at the end.
    pub fn str(self, val: &mut str) -> (r: Self)
        ensures
            text_pushed(self@, r@, old(val)@),
            final(val)@ == old(val)@,
    {
        let value = self.v.str(val);
        let r = self.add(value);
        assert(r@.drop_last() =~= self@);
        r
    }

    /// Puts a string value with the text of `val` at the end.
    pub fn s(self, val: &mut str) -> (r: Self)
        ensures
            text_pushed(self@, r@, old(val)@),
            final(val)@ == old(val)@,
    {
        let value = self.v.s(val);
        let r = self.add(value);
        assert(r@.drop_last() =~= self@);
        r
    }

    pub fn integer(self, val: i64) -> (r: Self)
        ensures
            r@ == self@.push(KdlValue::Int(val)),
    {
        let value = self.v.integer(val);
        self.add(value)
    }

    pub fn i(self, val: i64) -> (r: Self)
        ensures
            r@ == self@.push(KdlValue::Int(val)),
    {
        let value = self.v.i(val);
        self.add(value)
    }

    pub fn nul(self) -> (r: Self)
        ensures
            r@ == self@.push(KdlValue::Null),
    {
        let value = self.v.nul();
        self.add(value)
    }

    pub fn nil(self) -> (r: Self)
        ensures
            r@ == self@.push(KdlValue::Null),
    {
        let value = self.v.nil();
        self.add(value)
    }

    pub fn bool(self, val: bool) -> (r: Self)
        ensures
            r@ == self@.push(KdlValue::Boolean(val)),
    {
        let value = self.v.bool(val);
        self.add(value)
    }

    pub fn b(self, val: bool) -> (r: Self)
        ensures
            r@ == self@.push(KdlValue::Boolean(val)),
    {
        let value = self.v.b(val);
        self.add(value)
    }

    pub fn y(self) -> (r: Self)
        ensures
            r@ == self@.push(KdlValue::Boolean(true)),
    {
        let value = self.v.y();
        self.add(value)
    }

    pub fn n(self) -> (r: Self)
        ensures
            r@ == self@.push(KdlValue::Boolean(false)),
    {
        let value = self.v.n();
        self.add(value)
    }
}

} // verus!
