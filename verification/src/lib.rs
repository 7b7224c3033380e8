//! Verified core of a traffic-replay engine.
//!
//! The library holds the decision logic of a tool that replays captured
//! network traffic onto a live interface: the pacing policy that computes
//! how long to wait before each send, the replayer state machine that
//! drives files, loop iterations, limits and counters, and the model of a
//! network interface whose OS handle is opened lazily and released exactly
//! once.  The surrounding process (capture-file reading, raw sockets,
//! sleeping, operator input) performs the actions this library decides on.

pub mod capture;
pub mod interface;
pub mod pacing;
pub mod replay;
