//! Client-side runtime core of a profiler.
//!
//! - `state`: the process-wide session lifecycle, a phase and a count of live handles packed in
//!   one word, with the decision of each compare-and-swap transition and the laws of the protocol.
//! - `span`: the per-thread span stack that reconciles enter and exit events with a backend whose
//!   zones must nest strictly, and reports discipline violations.
//! - `cache`: the bounded per-thread pool of reusable text buffers.
//! - `text`: zone names, event messages and their truncation to the backend's limits.
//! - `gpu`: context ids, query-id pools and records of GPU zones.
//! - `names`: NUL-terminated frame and plot names, and the profiling allocator's settings.
//! - `demangle`: the buffer demanglers write into and its hand-over as a C string.
//!
//! Everything here is a decision over plain values. The backend (start-up, shutdown, zones,
//! messages) and the shared atomic word are driven by the caller, who performs each action that
//! these functions return.

pub mod cache;
pub mod demangle;
pub mod gpu;
pub mod names;
pub mod span;
pub mod state;
pub mod text;
