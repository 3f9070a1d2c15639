//! Document values made from primitives.

use vstd::prelude::*;
use kdl::KdlValue;
use crate::document::is_text;

verus! {

/// A stateless maker of document values.
#[derive(Copy, Clone, Debug, PartialEq, Eq, Hash)]
pub struct KdlValueBuilder;

impl KdlValueBuilder {
    pub fn new() -> (r: Self)
        ensures
            r == KdlValueBuilder,
    {
        KdlValueBuilder
    }

    pub fn clone(self) -> (r: Self)
        ensures
            r == self,
    {
        self
    }

    /// A string value with the text of `val`.
    pub fn str(self, val: &str) -> (r: KdlValue)
        ensures
            is_text(r, val@),
    {
        KdlValue::String(val.to_string())
    }

    /// A string value with the text of `val`.
    pub fn s(self, val: &mut str) -> (r: KdlValue)
        ensures
            is_text(r, old(val)@),
            final(val)@ == old(val)@,
    {
        self.str(val)
    }

    pub fn integer(self, val: i64) -> (r: KdlValue)
        ensures
            r == KdlValue::Int(val),
    {
        KdlValue::Int(val)
    }

    pub fn i(self, val: i64) -> (r: KdlValue)
        ensures
            r == KdlValue::Int(val),
    {
        self.integer(val)
    }

    pub fn bool(self, val: bool) -> (r: KdlValue)
        ensures
            r == KdlValue::Boolean(val),
    {
        KdlValue::Boolean(val)
    }

    pub fn b(self, val: bool) -> (r: KdlValue)
        ensures
            r == KdlValue::Boolean(val),
    {
        self.bool(val)
    }

    pub fn y(self) -> (r: KdlValue)
        ensures
            r == KdlValue::Boolean(true),
    {
        self.bool(true)
    }

    pub fn n(self) -> (r: KdlValue)
        ensures
            r == KdlValue::Boolean(false),
    {
        self.bool(false)
    }

    pub fn nul(self) -> (r: KdlValue)
        ensures
            r == KdlValue::Null,
    {
        KdlValue::Null
    }

    pub fn nil(self) -> (r: KdlValue)
        ensures
            r == KdlValue::Null,
    {
        self.nul()
    }
}

} // verus!
