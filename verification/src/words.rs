//! Numbers as the device sees them. Every scalar that ends up in a uniform or
//! vertex buffer is held as a 32-bit word: the bit pattern of a
//! single-precision number. This module moves such words around; it never
//! does arithmetic on them.

use vstd::prelude::*;

verus! {

/// The word of 0.0.
pub const WORD_ZERO: u32 = 0;

/// The word of 1.0.
pub const WORD_ONE: u32 = 0x3F80_0000;

/// The word of 100.0.
pub const WORD_HUNDRED: u32 = 0x42C8_0000;

/// The word of 1000.0.
pub const WORD_THOUSAND: u32 = 0x447A_0000;

/// Two words.
#[derive(Debug, Default, Clone, Copy, PartialEq, Eq, Structural)]
pub struct Vec2 {
    pub x: u32,
    pub y: u32,
}

/// Three words.
#[derive(Debug, Default, Clone, Copy, PartialEq, Eq, Structural)]
pub struct Vec3 {
    pub x: u32,
    pub y: u32,
    pub z: u32,
}

/// Four words.
#[derive(Debug, Default, Clone, Copy, PartialEq, Eq, Structural)]
pub struct Vec4 {
    pub x: u32,
    pub y: u32,
    pub z: u32,
    pub w: u32,
}

/// A color, one word per channel.
#[derive(Debug, Clone, Copy, PartialEq, Eq, Structural)]
pub struct RColor {
    pub r: u32,
    pub g: u32,
    pub b: u32,
    pub a: u32,
}

impl Vec2 {
    pub fn new(x: u32, y: u32) -> (v: Self)
        ensures
            v == (Vec2 { x, y }),
    {
        Vec2 { x, y }
    }

    /// Both components zero.
    pub fn zero() -> (v: Self)
        ensures
            v == (Vec2 { x: WORD_ZERO, y: WORD_ZERO }),
    {
        Vec2 { x: WORD_ZERO, y: WORD_ZERO }
    }

    pub fn from_tuple(pair: (u32, u32)) -> (v: Self)
        ensures
            v == (Vec2 { x: pair.0, y: pair.1 }),
    {
        Vec2 { x: pair.0, y: pair.1 }
    }

    pub fn as_array(&self) -> (a: [u32; 2])
        ensures
            a@ == seq![self.x, self.y],
    {
        let a = [self.x, self.y];
        assert(a@ =~= seq![self.x, self.y]);
        a
    }
}

impl Vec3 {
    pub fn new(x: u32, y: u32, z: u32) -> (v: Self)
        ensures
            v == (Vec3 { x, y, z }),
    {
        Vec3 { x, y, z }
    }

    pub fn from_array(a: [u32; 3]) -> (v: Self)
        ensures
            v == (Vec3 { x: a@[0], y: a@[1], z: a@[2] }),
    {
        Vec3 { x: a[0], y: a[1], z: a[2] }
    }

    pub fn as_array(&self) -> (a: [u32; 3])
        ensures
            a@ == seq![self.x, self.y, self.z],
    {
        let a = [self.x, self.y, self.z];
        assert(a@ =~= seq![self.x, self.y, self.z]);
        a
    }

    /// The first two components.
    pub fn xy(&self) -> (v: Vec2)
        ensures
            v == (Vec2 { x: self.x, y: self.y }),
    {
        Vec2 { x: self.x, y: self.y }
    }
}

impl Vec4 {
    pub fn new(x: u32, y: u32, z: u32, w: u32) -> (v: Self)
        ensures
            v == (Vec4 { x, y, z, w }),
    {
        Vec4 { x, y, z, w }
    }

    pub fn from_array(a: [u32; 4]) -> (v: Self)
        ensures
            v == (Vec4 { x: a@[0], y: a@[1], z: a@[2], w: a@[3] }),
    {
        Vec4 { x: a[0], y: a[1], z: a[2], w: a[3] }
    }

    pub fn as_array(&self) -> (a: [u32; 4])
        ensures
            a@ == seq![self.x, self.y, self.z, self.w],
    {
        let a = [self.x, self.y, self.z, self.w];
        assert(a@ =~= seq![self.x, self.y, self.z, self.w]);
        a
    }
}

impl RColor {
    /// A color from its four channel words.
    pub fn rgba_pct(r: u32, g: u32, b: u32, a: u32) -> (c: Self)
        ensures
            c == (RColor { r, g, b, a }),
    {
        RColor { r, g, b, a }
    }

    /// Opaque white.
    pub fn white() -> (c: Self)
        ensures
            c == (RColor { r: WORD_ONE, g: WORD_ONE, b: WORD_ONE, a: WORD_ONE }),
    {
        RColor { r: WORD_ONE, g: WORD_ONE, b: WORD_ONE, a: WORD_ONE }
    }

    /// The channels in the order red, green, blue, alpha.
    pub fn as_array(&self) -> (a: [u32; 4])
        ensures
            a@ == seq![self.r, self.g, self.b, self.a],
    {
        let a = [self.r, self.g, self.b, self.a];
        assert(a@ =~= seq![self.r, self.g, self.b, self.a]);
        a
    }
}

/// The words of an array, in order.
pub fn words_of<const N: usize>(a: &[u32; N]) -> (words: Vec<u32>)
    ensures
        words@ == a@,
{
    let mut words: Vec<u32> = Vec::new();
    let mut i: usize = 0;
    while i < N
        invariant
            i <= N,
            a@.len() == N,
            words@ == a@.take(i as int),
        decreases N - i,
    {
        words.push(a[i]);
        i += 1;
        assert(words@ =~= a@.take(i as int));
    }
    assert(a@.take(N as int) =~= a@);
    words
}

} // verus!
