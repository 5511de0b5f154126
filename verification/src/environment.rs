//! The background radiance map surrounding the scene.
//!
//! An environment is a 2D grid of RGBA32F texels given as raw bytes, four
//! little-endian single-precision components per texel.  The orchestrator
//! only checks that the byte payload matches the claimed extent exactly; an
//! environment failing that is replaced by the 1-by-1 default.  Decoding
//! image files into such a payload is the unverified driver's job.

use crate::extent::Extent;
use vstd::prelude::*;

verus! {

/// Bytes per texel: four single-precision components of four bytes each.
pub const BYTES_PER_TEXEL: u32 = 16;

/// A background radiance map: an extent and exactly
/// `width * height * 16` bytes of RGBA32F texel data.
#[derive(Clone, Debug, PartialEq, Eq)]
pub struct Environment {
    pub size: Extent,
    pub data: Vec<u8>,
}

/// Texel payload of the default environment: one texel of the muted blue
/// `(0.2, 0.3, 0.4, 1.0)`, components little-endian.
pub open spec fn default_environment_data() -> Seq<u8> {
    seq![
        0xCDu8,
        0xCCu8,
        0x4Cu8,
        0x3Eu8,
        0x9Au8,
        0x99u8,
        0x99u8,
        0x3Eu8,
        0xCDu8,
        0xCCu8,
        0xCCu8,
        0x3Eu8,
        0x00u8,
        0x00u8,
        0x80u8,
        0x3Fu8,
    ]
}

impl Environment {
    /// Whether this is the fallback environment: a single muted blue texel.
    pub open spec fn is_spec_default(self) -> bool {
        self.size == (Extent { width: 1, height: 1 }) && self.data@ == default_environment_data()
    }

    /// An environment is usable when its byte payload has exactly
    /// `width * height * 16` bytes.
    pub open spec fn spec_valid(self) -> bool {
        self.data@.len() == self.size.width * self.size.height * BYTES_PER_TEXEL
    }

    /// Decide whether this environment may be uploaded.
    pub fn validate(&self) -> (r: bool)
        ensures
            r == self.spec_valid(),
    {
        proof {
            vstd::arithmetic::mul::lemma_mul_upper_bound(
                self.size.width as int,
                0xFFFF_FFFF,
                self.size.height as int,
                0xFFFF_FFFF,
            );
            vstd::arithmetic::mul::lemma_mul_upper_bound(
                self.size.width as int * self.size.height as int,
                0xFFFF_FFFFint * 0xFFFF_FFFFint,
                BYTES_PER_TEXEL as int,
                16,
            );
        }
        let texels: u64 = (self.size.width as u64) * (self.size.height as u64);
        let expected: u128 = (texels as u128) * (BYTES_PER_TEXEL as u128);
        (self.data.len() as u128) == expected
    }
}

impl Default for Environment {
    /// The fallback environment: a single muted blue texel.
    fn default() -> (r: Environment)
        ensures
            r.size == (Extent { width: 1, height: 1 }),
            r.data@ == default_environment_data(),
            r.is_spec_default(),
            r.spec_valid(),
    {
        let data: Vec<u8> = vec![
            0xCD,
            0xCC,
            0x4C,
            0x3E,
            0x9A,
            0x99,
            0x99,
            0x3E,
            0xCD,
            0xCC,
            0xCC,
            0x3E,
            0x00,
            0x00,
            0x80,
            0x3F,
        ];
        let r = Environment { size: Extent { width: 1, height: 1 }, data };
        proof {
            assert(r.data@ =~= default_environment_data());
            assert(r.data@.len() == 16);
            assert(r.size.width == 1 && r.size.height == 1);
            assert(r.spec_valid());
        }
        r
    }
}

} // verus!
