//! Decision logic for a small GPU host program.
//!
//! The crate holds no handle to a device or a window. It decides what a host
//! has to do next and the host does it.
//!
//! - [`event_loop`]: the window loop, a state machine from notifications and
//!   frame outcomes to actions.
//! - [`cycle`]: a submission as a list of steps, the plans of a headless
//!   dispatch and of a presented frame, and the tracker that says which step
//!   may follow which.
//! - [`progress`]: a cycle in progress, which hands the host one step at a
//!   time and ends at the first that fails.
//! - [`ordering`]: what every admitted list of steps guarantees.
//! - [`workgroups`]: how many workgroups cover a buffer.
//! - [`readback`]: the marker at the start of a fresh buffer, and what the
//!   host makes of the bytes that come back.
//! - [`extent`]: pixel dimensions.

pub mod extent;
pub mod event_loop;
pub mod workgroups;
pub mod readback;
pub mod cycle;
pub mod progress;
pub mod ordering;
