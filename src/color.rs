//! Colours as red, green and blue channels.

use vstd::prelude::*;
use crate::array::{add3, mul3, scale3, A3};
use crate::bound::{max, max_spec};
use crate::num::Num;

verus! {

/// A colour: the three channels `(r, g, b)`.
#[derive(Clone, Copy, Debug, PartialEq)]
pub struct Color<S>(pub A3<S>);

impl<S: Num> Color<S> {
    pub fn rgb(rgb: A3<S>) -> (c: Color<S>)
        ensures
            c == Color(rgb),
    {
        Color(rgb)
    }

    /// The gray of level `g` in every channel.
    pub fn gray(g: S) -> (c: Color<S>)
        ensures
            c == Color(A3(g, g, g)),
    {
        Color(A3::rep(g))
    }

    /// The largest channel.
    pub fn max_channel(self) -> (m: S)
        ensures
            m == max_spec(max_spec(self.0.0, self.0.1), self.0.2),
    {
        max(max(self.0.0, self.0.1), self.0.2)
    }

    pub fn to_rgb(self) -> (rgb: A3<S>)
        ensures
            rgb == self.0,
    {
        self.0
    }

    pub fn add(self, o: Color<S>) -> (c: Color<S>)
        ensures
            c == Color(add3(self.0, o.0)),
    {
        Color(self.0.add(o.0))
    }

    /// The channel-wise product: a filter applied to a colour.
    pub fn mul(self, o: Color<S>) -> (c: Color<S>)
        ensures
            c == Color(mul3(self.0, o.0)),
    {
        Color(self.0.mul(o.0))
    }

    pub fn scale(self, k: S) -> (c: Color<S>)
        ensures
            c == Color(scale3(self.0, k)),
    {
        Color(self.0.scale(k))
    }
}

} // verus!
