//! The core of a beacon chain: the validator registry, committee selection,
//! Casper FFG justification and finalization, and the bookkeeping that a
//! state transition does slot by slot.
//!
//! Signatures are checked outside this library. Where an operation depends
//! on a signature, it takes the verdict of the check and says what the
//! check is to be run on.

pub mod attestation;
pub mod block;
pub mod casper;
pub mod checked;
pub mod committee;
pub mod consts;
pub mod epoch;
pub mod error;
pub mod eth1;
pub mod executive;
pub mod genesis;
pub mod genesis_config;
pub mod hashing;
pub mod operations;
pub mod primitives;
pub mod registry;
pub mod root;
pub mod shuffle;
pub mod slashing;
pub mod state;
pub mod storage;
pub mod transition;
pub mod util;
pub mod validator;
