//! The deterministic mixing digest.
//!
//! Both the stake-table commitment and the verifier's Fiat-Shamir transcript
//! compress a sequence of 64-bit limbs into a 256-bit word.  The digest runs
//! four independent 64-bit lanes over the same limb sequence; each lane
//! starts from its own seed mixed with a domain-separation tag, and absorbs
//! one limb per step.  The limb order is load-bearing: permuting the input
//! changes the digest, which is exactly what a transcript needs.
//!
//! The digest is a pure function of the tag and the limbs, so it is
//! bit-for-bit reproducible across runs and across implementations that
//! follow the same constants.

use vstd::prelude::*;
use crate::field::U256;

verus! {

/// Multipliers of the two finalising rounds of a mixing step.
pub const MIX_MULTIPLIER_A: u64 = 0xBF58476D1CE4E5B9;
pub const MIX_MULTIPLIER_B: u64 = 0x94D049BB133111EB;

/// Per-lane seeds.
pub const LANE_SEED_0: u64 = 0x243F6A8885A308D3;
pub const LANE_SEED_1: u64 = 0x13198A2E03707344;
pub const LANE_SEED_2: u64 = 0xA4093822299F31D0;
pub const LANE_SEED_3: u64 = 0x082EFA98EC4E6C89;

/// Domain-separation tag for the stake-table commitment.
pub const TAG_STAKE_TABLE: u64 = 0x5354414B45434F4D;

/// Domain-separation tag for the verifier transcript.
pub const TAG_TRANSCRIPT: u64 = 0x5452414E53435249;

/// One mixing step: absorb limb `x` into lane state `h`.
#[verifier::opaque]
pub open spec fn spec_mix(h: u64, x: u64) -> u64 {
    let a = h ^ x;
    let b = vstd::wrapping::u64_specs::wrapping_mul(a, MIX_MULTIPLIER_A);
    let c = b ^ (b >> 32);
    let d = vstd::wrapping::u64_specs::wrapping_mul(c, MIX_MULTIPLIER_B);
    d ^ (d >> 29)
}

/// Absorb every limb of `xs` into lane state `h`, front to back.
pub open spec fn spec_absorb(h: u64, xs: Seq<u64>) -> u64
    decreases xs.len(),
{
    if xs.len() == 0 {
        h
    } else {
        spec_absorb(spec_mix(h, xs[0]), xs.skip(1))
    }
}

/// The digest of `xs` under domain tag `tag`: four lanes, one limb each.
pub open spec fn spec_digest(tag: u64, xs: Seq<u64>) -> U256 {
    U256 {
        limb0: spec_absorb(spec_mix(LANE_SEED_0, tag), xs),
        limb1: spec_absorb(spec_mix(LANE_SEED_1, tag), xs),
        limb2: spec_absorb(spec_mix(LANE_SEED_2, tag), xs),
        limb3: spec_absorb(spec_mix(LANE_SEED_3, tag), xs),
    }
}

fn mix(h: u64, x: u64) -> (r: u64)
    ensures
        r == spec_mix(h, x),
{
    proof {
        reveal(spec_mix);
    }
    let a = h ^ x;
    let b = a.wrapping_mul(MIX_MULTIPLIER_A);
    let c = b ^ (b >> 32);
    let d = c.wrapping_mul(MIX_MULTIPLIER_B);
    d ^ (d >> 29)
}

proof fn lemma_absorb_step(h: u64, xs: Seq<u64>, i: int)
    requires
        0 <= i < xs.len(),
    ensures
        spec_absorb(h, xs.skip(i)) == spec_absorb(spec_mix(h, xs[i]), xs.skip(i + 1)),
{
    assert(xs.skip(i).len() > 0);
    assert(xs.skip(i)[0] == xs[i]);
    assert(xs.skip(i).skip(1) =~= xs.skip(i + 1));
}

/// Digest a limb sequence under a domain tag.
pub fn digest(tag: u64, xs: &Vec<u64>) -> (r: U256)
    ensures
        r == spec_digest(tag, xs@),
{
    let mut lane0 = mix(LANE_SEED_0, tag);
    let mut lane1 = mix(LANE_SEED_1, tag);
    let mut lane2 = mix(LANE_SEED_2, tag);
    let mut lane3 = mix(LANE_SEED_3, tag);
    let ghost full = xs@;
    proof {
        assert(full.skip(0) =~= full);
    }
    let mut i: usize = 0;
    while i < xs.len()
        invariant
            0 <= i <= xs.len(),
            full == xs@,
            spec_absorb(lane0, full.skip(i as int)) == spec_absorb(spec_mix(LANE_SEED_0, tag), full),
            spec_absorb(lane1, full.skip(i as int)) == spec_absorb(spec_mix(LANE_SEED_1, tag), full),
            spec_absorb(lane2, full.skip(i as int)) == spec_absorb(spec_mix(LANE_SEED_2, tag), full),
            spec_absorb(lane3, full.skip(i as int)) == spec_absorb(spec_mix(LANE_SEED_3, tag), full),
        decreases xs.len() - i,
    {
        proof {
            lemma_absorb_step(lane0, full, i as int);
            lemma_absorb_step(lane1, full, i as int);
            lemma_absorb_step(lane2, full, i as int);
            lemma_absorb_step(lane3, full, i as int);
        }
        let x = xs[i];
        lane0 = mix(lane0, x);
        lane1 = mix(lane1, x);
        lane2 = mix(lane2, x);
        lane3 = mix(lane3, x);
        i = i + 1;
    }
    proof {
        assert(full.skip(i as int) =~= Seq::<u64>::empty());
    }
    U256 { limb0: lane0, limb1: lane1, limb2: lane2, limb3: lane3 }
}

} // verus!
