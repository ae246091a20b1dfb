//! The padding strategy.
//!
//! At estimation time the final calldata is not yet complete: a signature or
//! paymaster data of a known length will be appended later. To avoid
//! underestimating, the oracle extends the calldata by that many filler
//! bytes before querying.
//!
//! Filler policy: the appended bytes are drawn from a fixed linear
//! congruential generator (Knuth's 64-bit constants, seeded with a fixed
//! golden-ratio constant), taking bits 32 to 39 of each successive state.
//! The filler is therefore reproducible — the same extra length always
//! yields the same bytes — while remaining varied enough that a
//! data-availability compressor cannot discount it as trivial filler.

use vstd::prelude::*;
use vstd::wrapping::u64_specs;

verus! {

/// Multiplier of the filler generator.
pub const FILLER_MULTIPLIER: u64 = 6364136223846793005;

/// Increment of the filler generator.
pub const FILLER_INCREMENT: u64 = 1442695040888963407;

/// Fixed seed of the filler generator.
pub const FILLER_SEED: u64 = 0x9e3779b97f4a7c15;

/// One step of the filler generator.
pub open spec fn lcg_step(s: u64) -> u64 {
    u64_specs::wrapping_add(u64_specs::wrapping_mul(s, FILLER_MULTIPLIER), FILLER_INCREMENT)
}

/// The generator state before the `i`th filler byte is drawn.
pub open spec fn filler_state(i: nat) -> u64
    decreases i,
{
    if i == 0 {
        FILLER_SEED
    } else {
        lcg_step(filler_state((i - 1) as nat))
    }
}

/// The `i`th filler byte: bits 32 to 39 of the state after `i + 1` steps.
pub open spec fn filler_byte(i: nat) -> u8 {
    (((filler_state((i + 1) as nat) / 0x1_0000_0000) % 0x100) as u8)
}

/// The first `n` filler bytes.
pub open spec fn filler_bytes(n: nat) -> Seq<u8> {
    Seq::new(n, |i: int| filler_byte(i as nat))
}

/// What padding returns: the original calldata followed by `extra` filler
/// bytes.
pub open spec fn pad_calldata(data: Seq<u8>, extra: nat) -> Seq<u8> {
    data + filler_bytes(extra)
}

/// The filler is reproducible and depends only on a byte's position behind
/// the calldata, never on the calldata itself: padding two payloads by the
/// same extra length appends the same filler bytes to each.
pub proof fn lemma_filler_independent_of_calldata(
    data1: Seq<u8>,
    data2: Seq<u8>,
    n: nat,
    i: int,
)
    requires
        0 <= i < n,
    ensures
        pad_calldata(data1, n)[data1.len() + i] == pad_calldata(data2, n)[data2.len() + i],
{
    assert(pad_calldata(data1, n)[data1.len() + i] == filler_byte(i as nat));
    assert(pad_calldata(data2, n)[data2.len() + i] == filler_byte(i as nat));
}

/// Extends `data` with `extra_data_len` filler bytes, simulating calldata
/// that will only be appended after estimation. With nothing to append the
/// calldata comes back byte-for-byte unchanged; otherwise the result keeps
/// the original bytes as its prefix and grows by exactly the extra length.
pub fn extend_bytes_with_random(data: Vec<u8>, extra_data_len: usize) -> (r: Vec<u8>)
    ensures
        r@ == pad_calldata(data@, extra_data_len as nat),
        extra_data_len == 0 ==> r@ == data@,
        r@.len() == data@.len() + extra_data_len,
        r@.subrange(0, data@.len() as int) == data@,
{
    proof {
        assert(pad_calldata(data@, 0) =~= data@);
    }
    if extra_data_len == 0 {
        proof {
            assert(data@.subrange(0, data@.len() as int) =~= data@);
        }
        return data;
    }
    let ghost orig: Seq<u8> = data@;
    let mut out = data;
    let mut state: u64 = FILLER_SEED;
    let mut k: usize = 0;
    while k < extra_data_len
        invariant
            k <= extra_data_len,
            state == filler_state(k as nat),
            out@ == orig + filler_bytes(k as nat),
        decreases extra_data_len - k,
    {
        state = state.wrapping_mul(FILLER_MULTIPLIER).wrapping_add(FILLER_INCREMENT);
        let b: u8 = ((state / 0x1_0000_0000) % 0x100) as u8;
        proof {
            assert(state == filler_state((k + 1) as nat));
            assert(b == filler_byte(k as nat));
            assert(filler_bytes((k + 1) as nat) =~= filler_bytes(k as nat).push(
                filler_byte(k as nat),
            ));
        }
        out.push(b);
        k = k + 1;
    }
    proof {
        assert(out@.subrange(0, orig.len() as int) =~= orig);
    }
    out
}

} // verus!
