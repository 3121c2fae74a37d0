//! Primitives for checking an untrusted block trace without holding chain
//! state.
//!
//! A trace is what a full node says of one block: header fields, transaction
//! records, proof fragments, code blobs, and the account states it claims for
//! the end of the block. This crate rebuilds typed transactions from the
//! records, counts the L1 and L2 transactions of a block, lays out and hashes
//! the bytes of its data-availability commitment, lays the proofs of all
//! accounts and storage slots out as one list of fragments and says in which
//! order they go into a node store, and holds the claimed account states
//! against those that local execution arrived at.
//!
//! Every function is verified against a contract over mathematical values.
//! Two things are taken on trust: the Keccak sponge of `tiny_keccak` (see
//! [`hasher`]) and the reading of a signature's recovery value by `alloy` (see
//! [`signature`]).

pub mod block;
pub mod bytes;
pub mod commands;
pub mod hasher;
pub mod post_state;
pub mod primitives;
pub mod proof_import;
pub mod signature;
pub mod storage_trace;
pub mod trace;
pub mod transaction;
