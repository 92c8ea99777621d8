//! Color derivation: a deterministic mapping from a window identifier to a
//! stable RGB triple, so that each tab keeps a consistent, recognizable
//! accent color across redraws and across runs.

use vstd::prelude::*;
use std::collections::hash_map::DefaultHasher;
use std::hash::Hasher;
use vstd::std_specs::hash::DefaultHasherAdditionalSpecFns;

verus! {

/// An RGB triple.  Each channel is a numerator over 256: the displayed
/// intensity of a channel `c` is `c / 256`, so every channel lies in
/// `[0, 1)`.
#[derive(Clone, Copy, Debug, PartialEq, Eq, Structural)]
pub struct Rgb {
    pub r: u8,
    pub g: u8,
    pub b: u8,
}

/// The little-endian byte encoding of a window identifier, which is what
/// the hasher is fed.
pub open spec fn window_bytes(wid: u32) -> Seq<u8> {
    seq![
        (wid & 0xff) as u8,
        ((wid >> 8) & 0xff) as u8,
        ((wid >> 16) & 0xff) as u8,
        ((wid >> 24) & 0xff) as u8,
    ]
}

/// The 64-bit hash a fresh hasher yields for a window identifier.
pub open spec fn window_hash(wid: u32) -> u64 {
    DefaultHasher::spec_finish(seq![window_bytes(wid)])
}

/// The color derived from a window identifier: three 8-bit fields of the
/// low 32 bits of its hash, spread across the hash so distinct
/// identifiers rarely collide.
pub open spec fn color_spec(wid: u32) -> Rgb {
    let h = (window_hash(wid) & 0xffff_ffff) as u32;
    Rgb { r: ((h >> 16) & 0xff) as u8, g: ((h >> 8) & 0xff) as u8, b: (h & 0xff) as u8 }
}

/// Derive the accent color of a window.  The result is a pure function of
/// the identifier alone: the same identifier always yields the same
/// triple.
pub fn color_hash(wid: u32) -> (c: Rgb)
    ensures
        c == color_spec(wid),
{
    let mut hasher = DefaultHasher::new();
    let bytes: [u8; 4] = [
        (wid & 0xff) as u8,
        ((wid >> 8) & 0xff) as u8,
        ((wid >> 16) & 0xff) as u8,
        ((wid >> 24) & 0xff) as u8,
    ];
    hasher.write(bytes.as_slice());
    let h64 = hasher.finish();
    proof {
        assert(bytes@ =~= window_bytes(wid));
        assert(seq![bytes@] =~= seq![window_bytes(wid)]);
    }
    let h = (h64 & 0xffff_ffff) as u32;
    Rgb { r: ((h >> 16) & 0xff) as u8, g: ((h >> 8) & 0xff) as u8, b: (h & 0xff) as u8 }
}

/// Raise a channel to a minimum brightness, so that no accent is fully
/// black.
pub open spec fn floor_channel_spec(c: u8, floor: u8) -> u8 {
    if c < floor {
        floor
    } else {
        c
    }
}

/// The accent color actually painted for a tab: each channel of the
/// derived color floored to a minimum brightness.
pub open spec fn accent_spec(wid: u32, floor: u8) -> Rgb {
    let c = color_spec(wid);
    Rgb {
        r: floor_channel_spec(c.r, floor),
        g: floor_channel_spec(c.g, floor),
        b: floor_channel_spec(c.b, floor),
    }
}

/// Floor every channel of a color to a minimum brightness.
pub fn floor_color(c: Rgb, floor: u8) -> (r: Rgb)
    ensures
        r.r == floor_channel_spec(c.r, floor),
        r.g == floor_channel_spec(c.g, floor),
        r.b == floor_channel_spec(c.b, floor),
{
    Rgb {
        r: if c.r < floor { floor } else { c.r },
        g: if c.g < floor { floor } else { c.g },
        b: if c.b < floor { floor } else { c.b },
    }
}

} // verus!
