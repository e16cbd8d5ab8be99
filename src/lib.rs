//! Layout quirks ("erratas") of the Intel(R) Crash Log record format.
//!
//! A record header yields a [`header::Version`]; [`errata::Errata::from_version`] maps it to the
//! set of quirks that the record decoder has to honour.

pub mod errata;
pub mod header;
