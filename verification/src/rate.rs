//! Bitrate and byte-budget arithmetic.

use std::time::Duration;
use vstd::prelude::*;

use crate::clock;

verus! {

/// The 64-bit count nearest to `n` from below the limit of the type.
pub open spec fn capped(n: int) -> u64 {
    if n > u64::MAX {
        u64::MAX
    } else {
        n as u64
    }
}

/// `n` without what lies below zero.
pub open spec fn at_least_zero(n: int) -> int {
    if n < 0 {
        0
    } else {
        n
    }
}

fn cap_u64(value: u128) -> (capped_value: u64)
    ensures
        capped_value == capped(value as int),
{
    if value > u64::MAX as u128 {
        u64::MAX
    } else {
        value as u64
    }
}

/// The target of a stage: `ratio_percent` percent of the final target, rounded
/// down.
pub fn stage_target_bps(final_target_bps: u64, ratio_percent: u64) -> (target: u64)
    ensures
        target == capped((final_target_bps * ratio_percent) / 100),
{
    assert(final_target_bps * ratio_percent <= 0xffff_ffff_ffff_ffff * 0xffff_ffff_ffff_ffff)
        by (nonlinear_arith)
        requires
            final_target_bps <= 0xffff_ffff_ffff_ffff,
            ratio_percent <= 0xffff_ffff_ffff_ffff,
    ;
    cap_u64(final_target_bps as u128 * ratio_percent as u128 / 100)
}

/// How many payload bytes a rate allows in a time: bits per second times
/// nanoseconds, in whole bytes.
pub open spec fn budget_bytes(target_bps: u64, nanos: int) -> u64 {
    capped((target_bps * nanos) / 8_000_000_000)
}

/// Payload bytes that `target_bps` allows within `nanos` nanoseconds.
pub fn allowed_bytes_in_nanos(target_bps: u64, nanos: u128) -> (allowed: u64)
    ensures
        allowed == budget_bytes(target_bps, nanos as int),
{
    match (target_bps as u128).checked_mul(nanos) {
        Some(bit_nanos) => cap_u64(bit_nanos / 8 / 1_000_000_000),
        None => u64::MAX,
    }
}

/// Payload bytes that `target_bps` allows within `elapsed`.
pub fn allowed_total_bytes(target_bps: u64, elapsed: Duration) -> (allowed: u64)
    ensures
        allowed == budget_bytes(target_bps, clock::duration_nanos(elapsed) as int),
{
    allowed_bytes_in_nanos(target_bps, elapsed.as_nanos())
}

/// What of a budget neither media nor padding has used up yet.
pub open spec fn padding_due(
    target_bps: u64,
    nanos: int,
    accepted_media_payload_bytes: u64,
    accepted_padding_payload_bytes: u64,
) -> u64 {
    at_least_zero(
        budget_bytes(target_bps, nanos) - accepted_media_payload_bytes
            - accepted_padding_payload_bytes,
    ) as u64
}

/// Padding bytes still due after `nanos` nanoseconds of a stage.
pub fn padding_due_in_nanos(
    target_bps: u64,
    nanos: u128,
    accepted_media_payload_bytes: u64,
    accepted_padding_payload_bytes: u64,
) -> (due: u64)
    ensures
        due == padding_due(
            target_bps,
            nanos as int,
            accepted_media_payload_bytes,
            accepted_padding_payload_bytes,
        ),
{
    allowed_bytes_in_nanos(target_bps, nanos)
        .saturating_sub(accepted_media_payload_bytes)
        .saturating_sub(accepted_padding_payload_bytes)
}

/// Padding bytes still due after `elapsed` of a stage.
pub fn padding_due_bytes(
    target_bps: u64,
    elapsed: Duration,
    accepted_media_payload_bytes: u64,
    accepted_padding_payload_bytes: u64,
) -> (due: u64)
    ensures
        due == padding_due(
            target_bps,
            clock::duration_nanos(elapsed) as int,
            accepted_media_payload_bytes,
            accepted_padding_payload_bytes,
        ),
{
    padding_due_in_nanos(
        target_bps,
        elapsed.as_nanos(),
        accepted_media_payload_bytes,
        accepted_padding_payload_bytes,
    )
}

/// Whether a goodput reaches `pass_percent` percent of a target.
pub open spec fn reaches(goodput_bps: u64, target_bps: u64, pass_percent: u64) -> bool {
    goodput_bps * 100 >= target_bps * pass_percent
}

/// Whether the receiver's goodput reaches `pass_percent` percent of the target.
pub fn goodput_passes(receiver_goodput_bps: u64, target_bps: u64, pass_percent: u64) -> (passes:
    bool)
    ensures
        passes == reaches(receiver_goodput_bps, target_bps, pass_percent),
{
    assert(target_bps * pass_percent <= 0xffff_ffff_ffff_ffff * 0xffff_ffff_ffff_ffff)
        by (nonlinear_arith)
        requires
            target_bps <= 0xffff_ffff_ffff_ffff,
            pass_percent <= 0xffff_ffff_ffff_ffff,
    ;
    receiver_goodput_bps as u128 * 100 >= target_bps as u128 * pass_percent as u128
}

/// The bitrate of `bytes` in `elapsed_ms` milliseconds, rounded down; zero where
/// no time has passed.
pub open spec fn bitrate(bytes: u64, elapsed_ms: u64) -> u64 {
    if elapsed_ms == 0 {
        0
    } else {
        capped((bytes * 8000) / elapsed_ms as int)
    }
}

/// Bits per second that `bytes` in `elapsed_ms` milliseconds make.
pub fn bitrate_bps(bytes: u64, elapsed_ms: u64) -> (bps: u64)
    ensures
        bps == bitrate(bytes, elapsed_ms),
{
    if elapsed_ms == 0 {
        0
    } else {
        cap_u64(bytes as u128 * 8 * 1000 / elapsed_ms as u128)
    }
}

/// The last stage is the target itself, and no stage of at most a hundred percent
/// asks for more.
pub proof fn stage_targets_stay_below(final_target_bps: u64, ratio_percent: u64)
    requires
        ratio_percent <= 100,
    ensures
        capped((final_target_bps * ratio_percent) / 100) <= final_target_bps,
        capped((final_target_bps * 100) / 100) == final_target_bps,
{
    assert(final_target_bps * ratio_percent <= final_target_bps * 100) by (nonlinear_arith)
        requires
            ratio_percent <= 100,
    ;
}

/// A higher target or a higher ratio never asks for less.
pub proof fn stage_targets_grow(
    lower_target_bps: u64,
    higher_target_bps: u64,
    lower_percent: u64,
    higher_percent: u64,
)
    requires
        lower_target_bps <= higher_target_bps,
        lower_percent <= higher_percent,
    ensures
        capped((lower_target_bps * lower_percent) / 100) <= capped(
            (higher_target_bps * higher_percent) / 100,
        ),
{
    assert(lower_target_bps * lower_percent <= higher_target_bps * higher_percent)
        by (nonlinear_arith)
        requires
            lower_target_bps <= higher_target_bps,
            lower_percent <= higher_percent,
    ;
}

/// A budget never shrinks as time passes, nor where the rate is higher.
pub proof fn budget_grows(
    lower_bps: u64,
    higher_bps: u64,
    earlier_nanos: int,
    later_nanos: int,
)
    requires
        lower_bps <= higher_bps,
        0 <= earlier_nanos <= later_nanos,
    ensures
        budget_bytes(lower_bps, earlier_nanos) <= budget_bytes(higher_bps, later_nanos),
{
    assert(0 <= lower_bps * earlier_nanos <= higher_bps * later_nanos) by (nonlinear_arith)
        requires
            lower_bps <= higher_bps,
            0 <= earlier_nanos <= later_nanos,
    ;
}

/// The budget of whole seconds is the rate times the seconds, in whole bytes: it
/// is worked out over the whole time and not summed up tick by tick.
pub proof fn budget_of_whole_seconds(target_bps: u64, seconds: nat)
    ensures
        budget_bytes(target_bps, (seconds * 1_000_000_000) as int) == capped(
            (target_bps * seconds) / 8,
        ),
{
    let bits = target_bps * seconds;
    assert(target_bps * (seconds * 1_000_000_000) == bits * 1_000_000_000) by (nonlinear_arith)
        requires
            bits == target_bps * seconds,
    ;
    assert((bits * 1_000_000_000) / 8_000_000_000 == bits / 8) by (nonlinear_arith);
}

/// A budget keeps the fractions of a byte that the budgets of its parts would lose:
/// it is never less than what they add up to, and at most one byte more.
pub proof fn budget_is_cumulative(target_bps: u64, first_nanos: int, more_nanos: int)
    requires
        0 <= first_nanos,
        0 <= more_nanos,
    ensures
        ({
            let parts = budget_bytes(target_bps, first_nanos) + budget_bytes(
                target_bps,
                more_nanos,
            );
            let whole = budget_bytes(target_bps, first_nanos + more_nanos);
            &&& whole >= capped(parts)
            &&& whole <= parts + 1
        }),
{
    let first = target_bps * first_nanos;
    let more = target_bps * more_nanos;
    assert(target_bps * (first_nanos + more_nanos) == first + more && first >= 0 && more >= 0)
        by (nonlinear_arith)
        requires
            first == target_bps * first_nanos,
            more == target_bps * more_nanos,
            0 <= first_nanos,
            0 <= more_nanos,
    ;
}

/// Paying what is due uses the budget up exactly, and then nothing is due.
pub proof fn paying_what_is_due_settles(
    target_bps: u64,
    nanos: int,
    media: u64,
    padding: u64,
)
    requires
        0 <= nanos,
    ensures
        ({
            let due = padding_due(target_bps, nanos, media, padding);
            &&& due > 0 ==> media + padding + due == budget_bytes(target_bps, nanos)
            &&& due == 0 <==> media + padding >= budget_bytes(target_bps, nanos)
            &&& due > 0 ==> padding_due(target_bps, nanos, media, (padding + due) as u64) == 0
        }),
{
}

/// Whatever passes still passes where the goodput is higher, the target lower or
/// the percentage lower.
pub proof fn gate_is_monotone(
    goodput_bps: u64,
    higher_bps: u64,
    target_bps: u64,
    lower_target_bps: u64,
    pass_percent: u64,
    lower_percent: u64,
)
    requires
        goodput_bps <= higher_bps,
        lower_target_bps <= target_bps,
        lower_percent <= pass_percent,
        reaches(goodput_bps, target_bps, pass_percent),
    ensures
        reaches(higher_bps, lower_target_bps, lower_percent),
{
    assert(lower_target_bps * lower_percent <= target_bps * pass_percent) by (nonlinear_arith)
        requires
            lower_target_bps <= target_bps,
            lower_percent <= pass_percent,
    ;
}

/// More bytes, or the same in less time, never make a lower bitrate.
pub proof fn bitrate_grows(fewer: u64, more: u64, shorter_ms: u64, longer_ms: u64)
    requires
        fewer <= more,
        0 < shorter_ms <= longer_ms,
    ensures
        bitrate(fewer, longer_ms) <= bitrate(more, shorter_ms),
{
    let a = fewer * 8000;
    let b = more * 8000;
    let s = shorter_ms as int;
    let l = longer_ms as int;
    assert(a / l <= b / s) by (nonlinear_arith)
        requires
            0 <= a <= b,
            0 < s <= l,
    ;
}

/// A number that fits its type is kept, and a larger one becomes the largest.
pub proof fn capping_keeps_what_fits(n: int)
    ensures
        0 <= n <= u64::MAX ==> capped(n) == n,
        n > u64::MAX ==> capped(n) == u64::MAX,
        n < 0 ==> at_least_zero(n) == 0,
        n >= 0 ==> at_least_zero(n) == n,
{
}

/// The target of a stage is the largest whole number of which a hundred are no more
/// than the ratio's percentage of the final target.
pub proof fn stage_targets_round_down(final_target_bps: u64, ratio_percent: u64)
    ensures
        ({
            let target = capped((final_target_bps * ratio_percent) / 100);
            &&& target * 100 <= final_target_bps * ratio_percent
            &&& target < u64::MAX ==> final_target_bps * ratio_percent < (target + 1) * 100
        }),
{
    assert(0 <= final_target_bps * ratio_percent) by (nonlinear_arith);
}

/// The budget of a time is the largest number of whole bytes whose bits the rate
/// sends within it.
pub proof fn budget_is_what_the_rate_sends(target_bps: u64, nanos: int)
    requires
        0 <= nanos,
    ensures
        ({
            let allowed = budget_bytes(target_bps, nanos);
            &&& allowed * 8_000_000_000 <= target_bps * nanos
            &&& allowed < u64::MAX ==> target_bps * nanos < (allowed + 1) * 8_000_000_000
        }),
{
    assert(0 <= target_bps * nanos) by (nonlinear_arith)
        requires
            0 <= nanos,
    ;
}

/// Padding is due for what media and padding have left of the budget: with it they
/// make the budget, and none is due where they make it already.
pub proof fn padding_is_due_for_the_rest(target_bps: u64, nanos: int, media: u64, padding: u64)
    requires
        0 <= nanos,
    ensures
        ({
            let due = padding_due(target_bps, nanos, media, padding);
            let allowed = (target_bps * nanos) / 8_000_000_000;
            &&& allowed <= u64::MAX && media + padding <= allowed ==> media + padding + due
                == allowed
            &&& allowed <= u64::MAX && media + padding > allowed ==> due == 0
            &&& allowed > u64::MAX && media + padding <= u64::MAX ==> media + padding + due
                == u64::MAX
            &&& allowed > u64::MAX && media + padding > u64::MAX ==> due == 0
        }),
{
    assert(0 <= target_bps * nanos) by (nonlinear_arith)
        requires
            0 <= nanos,
    ;
}

/// A goodput passes if and only if a hundred times it is at least the percentage
/// times the target.
pub proof fn gate_is_exact(goodput_bps: u64, target_bps: u64, pass_percent: u64)
    ensures
        reaches(goodput_bps, target_bps, pass_percent) <==> target_bps * pass_percent <= 100
            * goodput_bps,
{
}

/// The bitrate is the largest whole number of bits a second that the bytes make in
/// the milliseconds. In no time they make none.
pub proof fn bitrate_is_bits_over_time(bytes: u64, elapsed_ms: u64)
    ensures
        elapsed_ms == 0 ==> bitrate(bytes, elapsed_ms) == 0,
        elapsed_ms > 0 ==> {
            &&& bitrate(bytes, elapsed_ms) * elapsed_ms <= bytes * 8000
            &&& bitrate(bytes, elapsed_ms) < u64::MAX ==> bytes * 8000 < (bitrate(
                bytes,
                elapsed_ms,
            ) + 1) * elapsed_ms
        },
{
    if elapsed_ms > 0 {
        let bits = bytes * 8000;
        let time = elapsed_ms as int;
        let whole = bits / time;
        let bps = bitrate(bytes, elapsed_ms) as int;
        assert(0 <= whole && whole * time <= bits && bits < (whole + 1) * time)
            by (nonlinear_arith)
            requires
                0 <= bits,
                0 < time,
                whole == bits / time,
        ;
        assert(bps * time <= whole * time) by (nonlinear_arith)
            requires
                bps <= whole,
                0 < time,
        ;
    }
}

} // verus!
