//! Verified core of the rust9x Windows system layer: NT status and string
//! helpers, the decision logic of the keyed-event thread parker, the
//! event-based condition variable fallback, lazily published handles, the
//! file-information emulation and the random-fill chunking.
#![allow(non_camel_case_types, non_snake_case, non_upper_case_globals)]

pub mod c;
pub mod lazy;
pub mod windowsxp;
pub mod condvar;
pub mod fileextd;
pub mod random;
pub mod thread_parking;
pub mod target_spec;
pub mod targets;
