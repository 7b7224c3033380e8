//! The pacing policy: how many microseconds to wait before the next send.

use vstd::prelude::*;

verus! {

/// The five mutually exclusive rate policies.  Rates and the speed
/// multiplier are exact rational numbers `num / den`, so the pacing
/// arithmetic below is integer arithmetic throughout.
#[derive(Clone, Copy, Debug)]
pub enum RatePolicy {
    /// Pace sends so that the cumulative throughput approaches
    /// `num / den` megabits per second.
    Mbps { num: u64, den: u64 },
    /// The operator authorizes each batch of sends interactively;
    /// the wait is the blocking read, never a timed sleep.
    OneAtATime,
    /// Pace sends so that the packet rate approaches `num / den`
    /// packets per second.
    Pps { num: u64, den: u64 },
    /// Send as fast as possible.
    TopSpeed,
    /// Replay the capture's own inter-packet gaps scaled by `num / den`
    /// (values below one speed playback up, above one slow it down).
    Multiplier { num: u64, den: u64 },
}

impl RatePolicy {
    /// A rate is positive and its denominator small enough that the
    /// pacing products below stay well inside 128 bits.
    pub open spec fn wf(self) -> bool {
        match self {
            RatePolicy::Mbps { num, den } => 1 <= num && 1 <= den <= 1_000_000,
            RatePolicy::OneAtATime => true,
            RatePolicy::Pps { num, den } => 1 <= num && 1 <= den <= 1_000_000,
            RatePolicy::TopSpeed => true,
            RatePolicy::Multiplier { num, den } => 1 <= den <= 1_000_000,
        }
    }
}

/// The sleep a policy asks for, before the cap is applied.
///
/// A `last_record_ts_us` of zero marks the first record of a file: no
/// policy applies to it and the wait is zero.  The throughput policies
/// compare the cumulative target time against the elapsed time and never
/// go below zero; the multiplier policy scales the gap between the two
/// record timestamps.
pub open spec fn raw_sleep_us(
    policy: RatePolicy,
    last_record_ts_us: u64,
    curr_record_ts_us: u64,
    elapsed_us: u64,
    byte_cnt: u64,
    packet_cnt: u64,
) -> int {
    if last_record_ts_us == 0 {
        0
    } else {
        match policy {
            RatePolicy::Mbps { num, den } => {
                let target_us = byte_cnt * 8 * den / (num as int);
                if target_us > elapsed_us {
                    target_us - elapsed_us
                } else {
                    0
                }
            },
            RatePolicy::OneAtATime => 0,
            RatePolicy::Pps { num, den } => {
                let target_us = packet_cnt * 1_000_000 * den / (num as int);
                if target_us > elapsed_us {
                    target_us - elapsed_us
                } else {
                    0
                }
            },
            RatePolicy::TopSpeed => 0,
            RatePolicy::Multiplier { num, den } => {
                if curr_record_ts_us >= last_record_ts_us {
                    (curr_record_ts_us - last_record_ts_us) * num / (den as int)
                } else {
                    0
                }
            },
        }
    }
}

/// The sleep actually performed: the raw value saturated into the
/// machine word and then clamped at `maxsleep_ms * 1000` microseconds.
pub open spec fn clamped_sleep_us(
    policy: RatePolicy,
    maxsleep_ms: u64,
    last_record_ts_us: u64,
    curr_record_ts_us: u64,
    elapsed_us: u64,
    byte_cnt: u64,
    packet_cnt: u64,
) -> int {
    let raw = raw_sleep_us(
        policy,
        last_record_ts_us,
        curr_record_ts_us,
        elapsed_us,
        byte_cnt,
        packet_cnt,
    );
    let sat = if raw > u64::MAX { u64::MAX as int } else { raw };
    let cap = maxsleep_ms * 1000;
    if sat > cap {
        cap
    } else {
        sat
    }
}

/// Compute the microseconds to sleep before sending the next record.
pub fn compute_sleep_us(
    policy: &RatePolicy,
    maxsleep_ms: u64,
    last_record_ts_us: u64,
    curr_record_ts_us: u64,
    elapsed_us: u64,
    byte_cnt: u64,
    packet_cnt: u64,
) -> (r: u64)
    requires
        policy.wf(),
    ensures
        r == clamped_sleep_us(
            *policy,
            maxsleep_ms,
            last_record_ts_us,
            curr_record_ts_us,
            elapsed_us,
            byte_cnt,
            packet_cnt,
        ),
{
    let raw: u128 = if last_record_ts_us == 0 {
        0
    } else {
        match *policy {
            RatePolicy::Mbps { num, den } => {
                proof {
                    vstd::arithmetic::mul::lemma_mul_upper_bound(
                        byte_cnt * 8,
                        u64::MAX * 8,
                        den as int,
                        1_000_000,
                    );
                }
                let target_us: u128 = (byte_cnt as u128) * 8 * (den as u128) / (num as u128);
                if target_us > elapsed_us as u128 {
                    target_us - elapsed_us as u128
                } else {
                    0
                }
            },
            RatePolicy::OneAtATime => 0,
            RatePolicy::Pps { num, den } => {
                proof {
                    vstd::arithmetic::mul::lemma_mul_upper_bound(
                        packet_cnt * 1_000_000,
                        u64::MAX * 1_000_000,
                        den as int,
                        1_000_000,
                    );
                }
                let target_us: u128 = (packet_cnt as u128) * 1_000_000 * (den as u128) / (
                num as u128);
                if target_us > elapsed_us as u128 {
                    target_us - elapsed_us as u128
                } else {
                    0
                }
            },
            RatePolicy::TopSpeed => 0,
            RatePolicy::Multiplier { num, den } => {
                if curr_record_ts_us >= last_record_ts_us {
                    proof {
                        vstd::arithmetic::mul::lemma_mul_upper_bound(
                            curr_record_ts_us - last_record_ts_us,
                            u64::MAX as int,
                            num as int,
                            u64::MAX as int,
                        );
                    }
                    ((curr_record_ts_us - last_record_ts_us) as u128) * (num as u128) / (
                    den as u128)
                } else {
                    0
                }
            },
        }
    };
    let sat: u64 = if raw > u64::MAX as u128 {
        u64::MAX
    } else {
        raw as u64
    };
    let cap: u128 = (maxsleep_ms as u128) * 1000;
    if (sat as u128) > cap {
        cap as u64
    } else {
        sat
    }
}

/// The first record of a file is never delayed, whatever the policy.
pub proof fn lemma_first_record_no_wait(
    policy: RatePolicy,
    maxsleep_ms: u64,
    curr_record_ts_us: u64,
    elapsed_us: u64,
    byte_cnt: u64,
    packet_cnt: u64,
)
    ensures
        clamped_sleep_us(
            policy,
            maxsleep_ms,
            0,
            curr_record_ts_us,
            elapsed_us,
            byte_cnt,
            packet_cnt,
        ) == 0,
{
}

/// The sleep is never negative and, after clamping, never exceeds
/// `maxsleep_ms * 1000` microseconds.
pub proof fn lemma_sleep_within_bounds(
    policy: RatePolicy,
    maxsleep_ms: u64,
    last_record_ts_us: u64,
    curr_record_ts_us: u64,
    elapsed_us: u64,
    byte_cnt: u64,
    packet_cnt: u64,
)
    requires
        policy.wf(),
    ensures
        0 <= clamped_sleep_us(
            policy,
            maxsleep_ms,
            last_record_ts_us,
            curr_record_ts_us,
            elapsed_us,
            byte_cnt,
            packet_cnt,
        ),
        clamped_sleep_us(
            policy,
            maxsleep_ms,
            last_record_ts_us,
            curr_record_ts_us,
            elapsed_us,
            byte_cnt,
            packet_cnt,
        ) <= maxsleep_ms * 1000,
{
    let raw = raw_sleep_us(
        policy,
        last_record_ts_us,
        curr_record_ts_us,
        elapsed_us,
        byte_cnt,
        packet_cnt,
    );
    assert(raw >= 0) by {
        if last_record_ts_us != 0 {
            match policy {
                RatePolicy::Mbps { num, den } => {
                    vstd::arithmetic::mul::lemma_mul_nonnegative(byte_cnt * 8, den as int);
                    vstd::arithmetic::div_mod::lemma_div_pos_is_pos(byte_cnt * 8 * den, num as int);
                },
                RatePolicy::Pps { num, den } => {
                    vstd::arithmetic::mul::lemma_mul_nonnegative(
                        packet_cnt * 1_000_000,
                        den as int,
                    );
                    vstd::arithmetic::div_mod::lemma_div_pos_is_pos(
                        packet_cnt * 1_000_000 * den,
                        num as int,
                    );
                },
                RatePolicy::Multiplier { num, den } => {
                    if curr_record_ts_us >= last_record_ts_us {
                        vstd::arithmetic::mul::lemma_mul_nonnegative(
                            curr_record_ts_us - last_record_ts_us,
                            num as int,
                        );
                        vstd::arithmetic::div_mod::lemma_div_pos_is_pos(
                            (curr_record_ts_us - last_record_ts_us) * num,
                            den as int,
                        );
                    }
                },
                _ => {},
            }
        }
    }
}

} // verus!
