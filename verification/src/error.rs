use vstd::prelude::*;

verus! {

/// The closed set of reasons a command can fail. Any of them aborts the
/// transaction: the caller must discard every write of the failed command.
#[derive(Debug, Clone, PartialEq, Eq)]
pub enum ContractError {
    /// Wraps a host-level storage or decode error, reported by the runtime
    /// shim around this library; no handler in this crate produces it.
    Std(String),
    /// The ticket is already claimed, or the registry slot is missing.
    InvalidClaimableTicket {},
    /// An owner-only command came from a caller other than the owner.
    Unauthorized {},
    /// Structural mismatch in variable-length inputs (reserved).
    InvalidLength {},
    /// The purchase would push the caller past `max_ticket_per_person`.
    TicketLimitExceeded {},
    /// No registry entry matches the requested ticket.
    InvalidTicketType {},
    /// The attached funds are below the fixed minimum ticket cost.
    InsufficientAmount {},
    /// A signature check failed (reserved for off-chain-approved commands).
    InvalidSignature {},
    /// `BlockUser` on an address that is already blocked.
    UserAlreadyBlackListed {},
    /// `UnblockUser` on an address that is not blocked.
    UserNotBlocked {},
    /// A blocked caller attempted a user-facing command.
    UserBlackListed {},
}

} // verus!
