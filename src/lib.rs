//! A load-balancing broker and its workers: the broker answers each request
//! with a continue-signal until its time budget is spent, then retires every
//! worker that asks, and stops once a quota of retirement replies is sent.
//! The transport, the clock and the sleeping are left to the caller.

pub mod broker;
pub mod hex;
pub mod protocol;
pub mod worker;
