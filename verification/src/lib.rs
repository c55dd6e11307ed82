//! A fixed-price swap library for a cell-based ledger.
//!
//! A holder of a fungible-token balance advertises a swap of tokens for a
//! fixed native-coin price by locking the tokens in an order cell; a
//! counterparty settles the swap atomically. This crate covers the pieces
//! with real design decisions: the binary order encoding ([`codec`]), the
//! resolution of a cell by positional offset ([`selector`]), the assembly of
//! the unsigned create-order and take-order transactions ([`assembler`]), the
//! change/fee balancing loop ([`balancer`]), and the assignment of inputs to
//! signing groups ([`signing`]). Network access, configuration, key handling
//! and the ledger's own binary envelope are collaborators outside this crate:
//! they hand these functions plain values and take plain values back.

use vstd::prelude::*;

pub mod assembler;
pub mod balancer;
pub mod bytes;
pub mod cells;
pub mod codec;
pub mod script;
pub mod selector;
pub mod signing;

verus! {

/// Everything that can go wrong during one command invocation.
///
/// Every condition is unrecoverable for the current run: the caller maps any
/// of these to a failed exit and must not broadcast anything once one arises.
#[derive(Clone, Copy, Debug, PartialEq, Eq, Structural)]
pub enum SwapError {
    /// A positional cell offset lies beyond the fetched cell list.
    OffsetOutOfRange,
    /// A cell payload or lock argument has the wrong length for its kind.
    MalformedPayload,
    /// The change lock's spendable cells cannot cover outputs plus fee.
    InsufficientCapacity,
    /// A required key is missing or the external signer rejected a group.
    SigningFailure,
    /// An external round-trip (indexer, node, signer transport) failed.
    NetworkFailure,
}

} // verus!
