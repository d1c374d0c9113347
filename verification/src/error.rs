use vstd::prelude::*;

verus! {

/// The typed failures of the transition engine. Every failure is terminal
/// for the current transition and is raised before any write reaches the
/// store, so a failed transition never leaves a partial mutation behind.
#[derive(Clone, Copy, Debug, PartialEq, Eq, Structural)]
pub enum ContractError {
    /// The host's address validator rejected the proposed admin address.
    InvalidAddress,
    /// A poll was created against a question that already has a poll.
    DuplicateKey,
    /// A vote was cast against a question with no existing poll.
    PollNotFound,
    /// A vote carried a choice other than the two recognized literals.
    InvalidChoice,
    /// The configuration singleton was read before instantiation wrote it.
    NotFound,
}

} // verus!
