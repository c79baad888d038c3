//! A deterministic avatar mutation and combination engine.
//!
//! Game entities ("avatars") are encoded as fixed-size 32-byte arrays
//! ("DNA") carrying bitfield-packed attributes.  The engine mints fresh
//! avatars from a seeded pseudo-random byte stream and combines ("forges")
//! existing avatars under one of several algorithms chosen by a classifier.
//! Every randomized decision draws from an explicit, reproducible hash
//! provider, so that for a fixed seed and fixed inputs every operation
//! returns bit-identical results.

pub mod bits;
pub mod builder;
pub mod dna;
pub mod forge;
pub mod hash_provider;
pub mod mint;
pub mod roller;
pub mod tables;
pub mod types;
