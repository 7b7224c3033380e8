//! The replayer: a state machine that drives capture files, loop
//! iterations, limits, pacing and counters.
//!
//! The engine owns the parsed records and all counters and decides, step
//! by step, what the surrounding process must do next: sleep and inject
//! the current record, ask the operator for a send count, delay between
//! loop iterations, or stop and report.  The process reports back the
//! outcome of each injection and the operator's answers; everything else
//! is decided, and verified, here.

use vstd::prelude::*;

use crate::capture::CaptureFile;
use crate::pacing::{clamped_sleep_us, compute_sleep_us, RatePolicy};

verus! {

/// The immutable per-run configuration.
#[derive(Clone, Copy, Debug)]
pub struct ReplayConfig {
    /// Which of the five rate policies paces the run.
    pub policy: RatePolicy,
    /// How many times the whole file list is replayed; zero means the
    /// run sends nothing.
    pub loop_count: u16,
    /// Delay between successive loop iterations, in milliseconds.
    pub loopdelay_ms: u64,
    /// Abort once this much wall-clock time has elapsed, in seconds.
    pub duration_limit_s: u64,
    /// Abort once more than this many packets were fully sent.
    pub packet_limit: u64,
    /// Cap on any single pacing sleep, in milliseconds.
    pub maxsleep_ms: u64,
}

impl ReplayConfig {
    pub open spec fn wf(self) -> bool {
        self.policy.wf()
    }
}

/// Where the engine stands between two calls.
#[derive(Clone, Copy, Debug)]
pub enum Phase {
    /// Ready to look for the next record.
    Ready,
    /// Waiting for the operator's send count (one-at-a-time mode).
    AwaitCount,
    /// Waiting for the outcome of injecting the current record.
    AwaitInject,
    /// The run ended, by completion or abort.
    Finished,
}

/// What the surrounding process must do next.
#[derive(Clone, Copy, Debug)]
pub enum Action {
    /// Ask the operator how many packets to send; `sent_packets` packets
    /// were fully sent so far.  Answer through `operator_count`.
    Prompt { sent_packets: u64 },
    /// Sleep `sleep_us` microseconds, then inject the current record and
    /// report through `injected` or `inject_failed`.
    Send { sleep_us: u64 },
    /// Sleep `ms` milliseconds between two loop iterations, then ask
    /// again.
    DelayLoop { ms: u64 },
    /// The run is over; report the final statistics.
    Finished { aborted: bool },
}

/// The outcome of advancing the cursor to the next thing to do.
#[derive(Clone, Copy, Debug)]
pub enum SeekOutcome {
    /// The cursor stands on a record to process.
    AtRecord,
    /// An inter-loop delay is due before the next iteration.
    Delay,
    /// All iterations are exhausted.
    Done,
}

/// The replay engine.  Counters only grow during a run, and `abort`,
/// once set, never clears.
pub struct Replayer {
    pub config: ReplayConfig,
    /// The parsed capture files, replayed in order on every iteration.
    pub files: Vec<CaptureFile>,
    /// Bytes reported transmitted so far.
    pub byte_cnt: u64,
    /// Records fully sent so far.
    pub packet_cnt: u64,
    /// Records sent shorter than their payload so far.
    pub truncated_cnt: u64,
    /// Sends the operator pre-authorized in one-at-a-time mode.
    pub pending_manual: u32,
    /// Whether a limit or an injection failure ended the run early.
    pub abort: bool,
    /// Current loop iteration, file within it, and record within that.
    pub loop_i: u16,
    pub file_i: usize,
    pub rec_i: usize,
    /// Timestamp of the previous record of the current file; zero while
    /// the next record is the file's first.
    pub last_ts_us: u64,
    pub phase: Phase,
}

/// Whether a limit stops the run before the current record: strictly
/// more than `packet_limit` packets fully sent, or at least
/// `duration_limit_s` seconds elapsed.  The packet check being strict,
/// the limit itself is still sendable.
pub open spec fn over_limit(s: Replayer, elapsed_us: u64) -> bool {
    s.packet_cnt > s.config.packet_limit || elapsed_us >= s.config.duration_limit_s * 1_000_000
}

impl Replayer {
    /// The cursor stands on an existing record.
    pub open spec fn at_record(self) -> bool {
        &&& self.loop_i < self.config.loop_count
        &&& self.file_i < self.files@.len()
        &&& self.rec_i < self.files@[self.file_i as int].records@.len()
    }

    /// The record the cursor stands on.
    pub open spec fn current_record_ts(self) -> u64 {
        self.files@[self.file_i as int].records@[self.rec_i as int].ts_us
    }

    /// Well-formedness: the cursor stays in bounds, the packet counter
    /// never passes one beyond the limit, and each phase carries what
    /// its next step relies on.
    pub open spec fn wf(self) -> bool {
        &&& self.config.wf()
        &&& self.loop_i <= self.config.loop_count
        &&& self.file_i <= self.files@.len()
        &&& self.packet_cnt <= self.config.packet_limit + 1
        &&& match self.phase {
            Phase::Ready => !self.abort,
            Phase::AwaitCount => {
                &&& !self.abort
                &&& self.at_record()
                &&& self.packet_cnt <= self.config.packet_limit
                &&& self.config.policy is OneAtATime
                &&& self.pending_manual == 0
                &&& self.last_ts_us != 0
            },
            Phase::AwaitInject => {
                &&& !self.abort
                &&& self.at_record()
                &&& self.packet_cnt <= self.config.packet_limit
            },
            Phase::Finished => true,
        }
    }

    /// The engine with the given phase, all else unchanged.
    pub open spec fn with_phase(self, phase: Phase) -> Replayer {
        Replayer { phase, ..self }
    }

    /// The engine stopped for good, aborted or complete.
    pub open spec fn finished(self, aborted: bool) -> Replayer {
        Replayer { abort: aborted, phase: Phase::Finished, ..self }
    }
}

/// Advance a cursor over `s.files` to the next record, inter-loop
/// delay, or the end of the run.  Crossing the end of a file resets the
/// previous-record timestamp; crossing the end of the file list starts
/// the next loop iteration, owing a delay first when one is configured
/// and another iteration follows.
pub open spec fn seek_cursor(s: Replayer, loop_i: int, file_i: int, rec_i: int, last_ts_us: u64) -> (
    int,
    int,
    int,
    u64,
    SeekOutcome,
)
    decreases s.config.loop_count - loop_i, s.files@.len() - file_i,
{
    if loop_i >= s.config.loop_count {
        (loop_i, file_i, rec_i, last_ts_us, SeekOutcome::Done)
    } else if file_i >= s.files@.len() {
        if loop_i + 1 < s.config.loop_count && s.config.loopdelay_ms > 0 {
            (loop_i + 1, 0, 0, 0u64, SeekOutcome::Delay)
        } else {
            seek_cursor(s, loop_i + 1, 0, 0, 0u64)
        }
    } else if rec_i >= s.files@[file_i].records@.len() {
        seek_cursor(s, loop_i, file_i + 1, 0, 0u64)
    } else {
        (loop_i, file_i, rec_i, last_ts_us, SeekOutcome::AtRecord)
    }
}

/// The engine after advancing its cursor, with the outcome.
pub open spec fn seek(s: Replayer) -> (Replayer, SeekOutcome) {
    let (loop_i, file_i, rec_i, last_ts_us, oc) = seek_cursor(
        s,
        s.loop_i as int,
        s.file_i as int,
        s.rec_i as int,
        s.last_ts_us,
    );
    (
        Replayer {
            loop_i: loop_i as u16,
            file_i: file_i as usize,
            rec_i: rec_i as usize,
            last_ts_us,
            ..s
        },
        oc,
    )
}

impl Replayer {
    /// A fresh engine over the given configuration and parsed files.
    pub fn new(config: ReplayConfig, files: Vec<CaptureFile>) -> (r: Replayer)
        requires
            config.wf(),
        ensures
            r.wf(),
            r.config == config,
            r.files == files,
            r.byte_cnt == 0,
            r.packet_cnt == 0,
            r.truncated_cnt == 0,
            r.pending_manual == 0,
            !r.abort,
            r.loop_i == 0,
            r.file_i == 0,
            r.rec_i == 0,
            r.last_ts_us == 0,
            r.phase is Ready,
    {
        Replayer {
            config,
            files,
            byte_cnt: 0,
            packet_cnt: 0,
            truncated_cnt: 0,
            pending_manual: 0,
            abort: false,
            loop_i: 0,
            file_i: 0,
            rec_i: 0,
            last_ts_us: 0,
            phase: Phase::Ready,
        }
    }

    /// Decide the next step of the run.  `elapsed_us` is the wall-clock
    /// time since the run started, sampled just before the call; the
    /// limits are checked against it before any pacing, so even the
    /// first record of a run passes through them.
    #[verifier::loop_isolation(false)]
    pub fn next(&mut self, elapsed_us: u64) -> (r: Action)
        requires
            old(self).wf(),
            old(self).phase is Ready,
        ensures
            final(self).wf(),
            final(self).config == old(self).config,
            final(self).files == old(self).files,
            final(self).byte_cnt == old(self).byte_cnt,
            final(self).packet_cnt == old(self).packet_cnt,
            final(self).truncated_cnt == old(self).truncated_cnt,
            ({
                let (s1, oc) = seek(*old(self));
                match oc {
                    SeekOutcome::Done => {
                        &&& *final(self) == s1.with_phase(Phase::Finished)
                        &&& r == (Action::Finished { aborted: false })
                    },
                    SeekOutcome::Delay => {
                        &&& *final(self) == s1
                        &&& r == (Action::DelayLoop { ms: old(self).config.loopdelay_ms })
                    },
                    SeekOutcome::AtRecord => {
                        if over_limit(s1, elapsed_us) {
                            &&& *final(self) == s1.finished(true)
                            &&& r == (Action::Finished { aborted: true })
                        } else if s1.last_ts_us != 0 && s1.config.policy is OneAtATime
                            && s1.pending_manual == 0 {
                            &&& *final(self) == s1.with_phase(Phase::AwaitCount)
                            &&& r == (Action::Prompt { sent_packets: s1.packet_cnt })
                        } else {
                            let decremented = s1.last_ts_us != 0
                                && s1.config.policy is OneAtATime;
                            &&& *final(self) == (Replayer {
                                phase: Phase::AwaitInject,
                                pending_manual: if decremented {
                                    (s1.pending_manual - 1) as u32
                                } else {
                                    s1.pending_manual
                                },
                                ..s1
                            })
                            &&& r matches Action::Send { sleep_us } && sleep_us
                                == clamped_sleep_us(
                                s1.config.policy,
                                s1.config.maxsleep_ms,
                                s1.last_ts_us,
                                s1.current_record_ts(),
                                elapsed_us,
                                s1.byte_cnt,
                                s1.packet_cnt,
                            )
                        }
                    },
                }
            }),
    {
        let ghost orig = *self;
        loop
            invariant
                self.wf(),
                self.phase is Ready,
                self.config == orig.config,
                self.files == orig.files,
                self.byte_cnt == orig.byte_cnt,
                self.packet_cnt == orig.packet_cnt,
                self.truncated_cnt == orig.truncated_cnt,
                self.pending_manual == orig.pending_manual,
                self.abort == orig.abort,
                seek_cursor(
                    orig,
                    self.loop_i as int,
                    self.file_i as int,
                    self.rec_i as int,
                    self.last_ts_us,
                ) == seek_cursor(
                    orig,
                    orig.loop_i as int,
                    orig.file_i as int,
                    orig.rec_i as int,
                    orig.last_ts_us,
                ),
            decreases self.config.loop_count - self.loop_i, self.files.len() - self.file_i,
        {
            if self.loop_i >= self.config.loop_count {
                proof {
                    assert(seek_cursor(
                        orig,
                        self.loop_i as int,
                        self.file_i as int,
                        self.rec_i as int,
                        self.last_ts_us,
                    ) == (
                        self.loop_i as int,
                        self.file_i as int,
                        self.rec_i as int,
                        self.last_ts_us,
                        SeekOutcome::Done,
                    ));
                    assert(*self == seek(orig).0);
                }
                self.phase = Phase::Finished;
                return Action::Finished { aborted: false };
            }
            if self.file_i >= self.files.len() {
                proof {
                    assert(seek_cursor(
                        orig,
                        self.loop_i as int,
                        self.file_i as int,
                        self.rec_i as int,
                        self.last_ts_us,
                    ) == if self.loop_i + 1 < self.config.loop_count && self.config.loopdelay_ms
                        > 0 {
                        (self.loop_i + 1, 0int, 0int, 0u64, SeekOutcome::Delay)
                    } else {
                        seek_cursor(orig, self.loop_i + 1, 0, 0, 0u64)
                    });
                }
                self.loop_i = self.loop_i + 1;
                self.file_i = 0;
                self.rec_i = 0;
                self.last_ts_us = 0;
                if self.loop_i < self.config.loop_count && self.config.loopdelay_ms > 0 {
                    proof {
                        assert(*self == seek(orig).0);
                    }
                    return Action::DelayLoop { ms: self.config.loopdelay_ms };
                }
                continue;
            }
            let nrec = self.files[self.file_i].records.len();
            if self.rec_i >= nrec {
                proof {
                    assert(seek_cursor(
                        orig,
                        self.loop_i as int,
                        self.file_i as int,
                        self.rec_i as int,
                        self.last_ts_us,
                    ) == seek_cursor(orig, self.loop_i as int, self.file_i + 1, 0, 0u64));
                }
                self.file_i = self.file_i + 1;
                self.rec_i = 0;
                self.last_ts_us = 0;
                continue;
            }
            break;
        }
        proof {
            assert(seek_cursor(
                orig,
                self.loop_i as int,
                self.file_i as int,
                self.rec_i as int,
                self.last_ts_us,
            ) == (
                self.loop_i as int,
                self.file_i as int,
                self.rec_i as int,
                self.last_ts_us,
                SeekOutcome::AtRecord,
            ));
            assert(*self == seek(orig).0);
            assert(seek(orig).1 == SeekOutcome::AtRecord);
        }
        // The limit check runs before pacing, for every record.
        let duration_cap_us: u128 = (self.config.duration_limit_s as u128) * 1_000_000;
        if self.packet_cnt > self.config.packet_limit || (elapsed_us as u128) >= duration_cap_us {
            self.abort = true;
            self.phase = Phase::Finished;
            return Action::Finished { aborted: true };
        }
        // Pacing: the first record of a file always goes out at once; in
        // one-at-a-time mode every later record consumes one
        // pre-authorized send, asking the operator when none is left.
        if self.last_ts_us != 0 {
            let one_at_a_time = match self.config.policy {
                RatePolicy::OneAtATime => true,
                _ => false,
            };
            if one_at_a_time {
                if self.pending_manual == 0 {
                    self.phase = Phase::AwaitCount;
                    return Action::Prompt { sent_packets: self.packet_cnt };
                }
                self.pending_manual = self.pending_manual - 1;
            }
        }
        let ts = self.files[self.file_i].records[self.rec_i].ts_us;
        let sleep_us = compute_sleep_us(
            &self.config.policy,
            self.config.maxsleep_ms,
            self.last_ts_us,
            ts,
            elapsed_us,
            self.byte_cnt,
            self.packet_cnt,
        );
        self.phase = Phase::AwaitInject;
        Action::Send { sleep_us }
    }

    /// The operator's answer to a `Prompt`: `n` sends are authorized,
    /// the current record consumes the first one and goes out with no
    /// timed sleep.
    pub fn operator_count(&mut self, n: u32) -> (r: Action)
        requires
            old(self).wf(),
            old(self).phase is AwaitCount,
            n >= 1,
        ensures
            final(self).wf(),
            *final(self) == (Replayer {
                pending_manual: (n - 1) as u32,
                phase: Phase::AwaitInject,
                ..*old(self)
            }),
            r == (Action::Send { sleep_us: 0u64 }),
    {
        self.pending_manual = n - 1;
        self.phase = Phase::AwaitInject;
        Action::Send { sleep_us: 0 }
    }

    /// The payload the pending `Send` must inject.
    pub fn current_payload(&self) -> (r: &Vec<u8>)
        requires
            self.wf(),
            self.phase is AwaitInject,
        ensures
            *r == self.files@[self.file_i as int].records@[self.rec_i as int].payload,
    {
        &self.files[self.file_i].records[self.rec_i].payload
    }

    /// Report a completed injection of `bytes_sent` bytes.  A send
    /// shorter than the payload counts as truncated, a full one as a
    /// sent packet; the byte counter grows either way, and the cursor
    /// moves past the record.  Counters saturate at the machine limit.
    pub fn injected(&mut self, bytes_sent: usize)
        requires
            old(self).wf(),
            old(self).phase is AwaitInject,
        ensures
            final(self).wf(),
            ({
                let rec = old(self).files@[old(self).file_i as int].records@[old(
                    self,
                ).rec_i as int];
                let full = bytes_sent >= rec.payload.len();
                &&& *final(self) == (Replayer {
                    byte_cnt: old(self).byte_cnt.saturating_add(bytes_sent as u64),
                    packet_cnt: if full {
                        old(self).packet_cnt.saturating_add(1)
                    } else {
                        old(self).packet_cnt
                    },
                    truncated_cnt: if full {
                        old(self).truncated_cnt
                    } else {
                        old(self).truncated_cnt.saturating_add(1)
                    },
                    last_ts_us: rec.ts_us,
                    rec_i: (old(self).rec_i + 1) as usize,
                    phase: Phase::Ready,
                    ..*old(self)
                })
            }),
    {
        let nrec = self.files[self.file_i].records.len();
        proof {
            // the cursor moves one past the record, staying in bounds
            assert(self.rec_i < nrec);
        }
        let payload_len = self.files[self.file_i].records[self.rec_i].payload.len();
        if bytes_sent >= payload_len {
            self.packet_cnt = self.packet_cnt.saturating_add(1);
        } else {
            self.truncated_cnt = self.truncated_cnt.saturating_add(1);
        }
        self.byte_cnt = self.byte_cnt.saturating_add(bytes_sent as u64);
        self.last_ts_us = self.files[self.file_i].records[self.rec_i].ts_us;
        self.rec_i = self.rec_i + 1;
        self.phase = Phase::Ready;
    }

    /// Report a failed injection: the run aborts at once; the counters
    /// stay as they were.
    pub fn inject_failed(&mut self)
        requires
            old(self).wf(),
            old(self).phase is AwaitInject,
        ensures
            final(self).wf(),
            *final(self) == old(self).finished(true),
    {
        self.abort = true;
        self.phase = Phase::Finished;
    }

    /// Whether the run is over.
    pub fn is_finished(&self) -> (r: bool)
        ensures
            r == (self.phase is Finished),
    {
        match self.phase {
            Phase::Finished => true,
            _ => false,
        }
    }
}

/// In a run that never saw a truncated send, the packets sent never
/// exceed the packet limit plus one: the strictly-greater-than limit
/// check permits exactly one send at the limit.
pub proof fn lemma_sent_within_packet_limit(s: Replayer)
    requires
        s.wf(),
        s.truncated_cnt == 0,
    ensures
        s.packet_cnt + s.truncated_cnt <= s.config.packet_limit + 1,
{
}

/// With no packet sent yet, as on the very first record of a run, only
/// the duration limit can abort: it fires exactly when the elapsed time
/// has reached `duration_limit_s` seconds, and the packet limit cannot
/// fire whatever its value.
pub proof fn lemma_first_record_abort_is_duration(s: Replayer, elapsed_us: u64)
    requires
        s.packet_cnt == 0,
    ensures
        over_limit(s, elapsed_us) <==> elapsed_us >= s.config.duration_limit_s * 1_000_000,
{
}

} // verus!
