//! A container for a value that can be tweaked at run time while a program
//! is being developed, and is frozen once the program is built for release.
//!
//! The container, `DirtyStatic`, comes in two variants with identical
//! surfaces: a mutable one, whose `replace` overwrites the stored value, and
//! a frozen one, whose `replace` leaves the value untouched and records a
//! diagnostic warning instead. A build uses exactly one of the two; the
//! [`config`] module holds the selection rule that picks a variant from the
//! build profile and the two override switches, and rejects the contradictory
//! combination of both overrides at once.

pub mod config;
pub mod frozen;
pub mod mutable;
