//! A toolkit for zero-knowledge proofs on Stellar/Soroban.
//!
//! Three proving backends (Groth16, UltraHonk, RISC Zero) are brought under
//! one way of working: a project is built, an input is proved, and what the
//! proving tools write is encoded, byte for byte, as the on-chain verifier
//! reads it. The verifier contract goes through a pipeline that keeps it
//! within the limits of the network, and an estimator tells what a
//! verification will cost.
//!
//! The library runs no tool and touches no file. A build or a proof is a
//! sequence of [`process::Step`]s: each asks for one action and is handed the
//! event that came of it.

pub mod backend;
pub mod call;
pub mod cli;
pub mod config;
pub mod error;
pub mod estimator;
pub mod field;
pub mod groth16;
pub mod hash;
pub mod hexfmt;
pub mod json;
pub mod path;
pub mod pipeline;
pub mod process;
pub mod profile;
pub mod project;
pub mod risc0;
pub mod stellar;
pub mod text;
pub mod tools;
pub mod ultrahonk;
pub mod version;
