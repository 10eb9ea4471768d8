//! A 32-bit linear feedback shift register, used to make test patterns.
use vstd::prelude::*;

verus! {

/// Bit `i` of `state`, as a number.
pub open spec fn bit_at(state: u32, i: u32) -> u32 {
    (state >> i) & 1
}

/// The feedback bit: the parity of the taps at 31, 21, 1 and 0.
pub open spec fn feedback(state: u32) -> u32 {
    bit_at(state, 31) ^ bit_at(state, 21) ^ bit_at(state, 1) ^ bit_at(state, 0)
}

/// The successor of `state`: every bit moves up by one place, the top bit
/// falls out and the feedback bit enters at the bottom.
pub open spec fn next_state(state: u32) -> u32 {
    ((2 * state) % 0x1_0000_0000 + feedback(state)) as u32
}

/// The state that `steps` steps lead to.
pub open spec fn state_after(seed: u32, steps: nat) -> u32
    decreases steps,
{
    if steps == 0 {
        seed
    } else {
        next_state(state_after(seed, (steps - 1) as nat))
    }
}

/// The first `len` states, starting with `seed` itself.
pub open spec fn pattern(seed: u32, len: nat) -> Seq<u32> {
    Seq::new(len, |i: int| state_after(seed, i as nat))
}

proof fn lemma_shift_form(state: u32)
    ensures
        next_state(state) == (state << 1) | feedback(state),
        (state << 1) + feedback(state) <= u32::MAX,
        next_state(state) == (state << 1) + feedback(state),
        feedback(state) == ((state >> 31) ^ (state >> 21) ^ (state >> 1) ^ (state >> 0)) & 1,
        feedback(state) <= 1,
{
    let up = state << 1;
    let f = feedback(state);
    assert(up == (2 * state) % 0x1_0000_0000) by (bit_vector)
        requires
            up == state << 1,
    ;
    assert(f == ((state >> 31) ^ (state >> 21) ^ (state >> 1) ^ (state >> 0)) & 1 && f <= 1)
        by (bit_vector)
        requires
            f == ((state >> 31u32) & 1) ^ ((state >> 21u32) & 1) ^ ((state >> 1u32) & 1) ^ ((state
                >> 0u32) & 1),
    ;
    assert(up + f <= 0xffff_ffff && (up | f) == up + f) by (bit_vector)
        requires
            up == state << 1,
            f <= 1,
    ;
}

/// Advances the register by one step. Used to make test vectors.
pub fn lfsr_next(state: u32) -> (next: u32)
    ensures
        next == next_state(state),
{
    proof {
        lemma_shift_form(state);
    }
    let bit: u32 = ((state >> 31) ^ (state >> 21) ^ (state >> 1) ^ (state >> 0)) & 1;
    (state << 1) + bit
}

/// No two states have the same successor.
pub proof fn law_next_is_injective(a: u32, b: u32)
    requires
        next_state(a) == next_state(b),
    ensures
        a == b,
{
    lemma_shift_form(a);
    lemma_shift_form(b);
    let fa = feedback(a);
    let fb = feedback(b);
    assert(a == b) by (bit_vector)
        requires
            fa == ((a >> 31) ^ (a >> 21) ^ (a >> 1) ^ (a >> 0)) & 1,
            fb == ((b >> 31) ^ (b >> 21) ^ (b >> 1) ^ (b >> 0)) & 1,
            (a << 1) | fa == (b << 1) | fb,
    ;
}

/// The register is stuck at zero if and only if it starts there.
pub proof fn law_zero_is_isolated(seed: u32, steps: nat)
    ensures
        state_after(seed, steps) == 0 <==> seed == 0,
    decreases steps,
{
    if steps > 0 {
        law_zero_is_isolated(seed, (steps - 1) as nat);
        let prev = state_after(seed, (steps - 1) as nat);
        assert(feedback(0) == 0) by (bit_vector);
        assert(next_state(0) == 0);
        if next_state(prev) == 0 {
            law_next_is_injective(prev, 0);
        }
    }
}

/// Every word of a pattern is followed by its successor.
pub proof fn law_pattern_steps(seed: u32, len: nat, i: int)
    requires
        0 <= i,
        i + 1 < len,
    ensures
        pattern(seed, len)[0] == seed,
        pattern(seed, len)[i + 1] == next_state(pattern(seed, len)[i]),
{
}

/// In numbers: the successor is twice the state, less what no longer fits in 32
/// bits, and odd if and only if an odd number of the bits 31, 21, 1 and 0 of the
/// state are set.
pub proof fn law_next_in_numbers(state: u32)
    ensures
        next_state(state) as int / 2 == state as int % 0x8000_0000,
        next_state(state) as int % 2 == (state as int / 0x8000_0000 + (state as int / 0x20_0000)
            % 2 + (state as int / 2) % 2 + state as int % 2) % 2,
{
    lemma_shift_form(state);
    let next = next_state(state);
    let f = feedback(state);
    assert(next / 2 == state % 0x8000_0000 && next % 2 == (state / 0x8000_0000 + (state
        / 0x20_0000) % 2 + (state / 2) % 2 + state % 2) % 2) by (bit_vector)
        requires
            next == (state << 1) | f,
            f == ((state >> 31) ^ (state >> 21) ^ (state >> 1) ^ (state >> 0)) & 1,
    ;
}

} // verus!
