use vstd::prelude::*;

verus! {

/// The four terminal failures of the voting registry. Every operation either
/// fully applies its effect or returns one of these and changes nothing.
#[derive(Clone, Copy, Debug, PartialEq, Eq, Structural)]
pub enum ProposalError {
    /// Creation was given a choice list with no entry or with more than five.
    MaxLengthChoices,
    /// A vote arrived at or after the proposal's deadline.
    DeadlinePassed,
    /// A vote named a choice index outside the proposal's choice list.
    InvalidOption,
    /// Deletion was asked for before the post-deadline cooldown had elapsed.
    ProposalNotExpiredEnough,
}

} // verus!
