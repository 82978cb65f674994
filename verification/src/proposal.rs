use vstd::prelude::*;

use crate::errors::ProposalError;

verus! {

/// Upper bound on the number of choices a proposal may carry.
pub const MAX_CHOICES: usize = 5;

/// Seconds a proposal must be kept past its deadline before it may be
/// deleted: thirty days.
pub const DELETION_COOLDOWN: u64 = 2592000;

/// Total of a tally: the number of votes the cells have accumulated.
pub open spec fn tally_total(tally: Seq<u64>) -> int
    decreases tally.len(),
{
    if tally.len() == 0 {
        0
    } else {
        tally_total(tally.drop_last()) + tally.last()
    }
}

/// A tally whose cells are all zero sums to zero.
proof fn lemma_tally_total_zero(tally: Seq<u64>)
    requires
        forall|i: int| 0 <= i < tally.len() ==> tally[i] == 0,
    ensures
        tally_total(tally) == 0,
    decreases tally.len(),
{
    if tally.len() > 0 {
        lemma_tally_total_zero(tally.drop_last());
    }
}

/// Raising one cell by one raises the total by one.
proof fn lemma_tally_total_update(tally: Seq<u64>, i: int, v: u64)
    requires
        0 <= i < tally.len(),
    ensures
        tally_total(tally.update(i, v)) == tally_total(tally) - tally[i] + v,
    decreases tally.len(),
{
    let updated = tally.update(i, v);
    if i == tally.len() - 1 {
        assert(updated.drop_last() =~= tally.drop_last());
    } else {
        assert(updated.drop_last() =~= tally.drop_last().update(i, v));
        lemma_tally_total_update(tally.drop_last(), i, v);
    }
}

/// One vote subject: free-text title and description, an ordered list of
/// choices whose positions are the stable choice indices, a voting deadline
/// in seconds since the epoch, one tally cell per choice, and the creator
/// recorded for storage-ownership bookkeeping.
pub struct Proposal {
    pub creator: u64,
    pub title: String,
    pub description: String,
    pub choices: Vec<String>,
    pub deadline: u64,
    pub votes: Vec<u64>,
}

impl Proposal {
    /// The record invariant: between one and five choices, one tally cell
    /// per choice. Established at creation and preserved by every operation.
    pub open spec fn well_formed(self) -> bool {
        &&& 1 <= self.choices@.len() <= MAX_CHOICES
        &&& self.votes@.len() == self.choices@.len()
    }

    /// Total number of votes this proposal has accepted.
    pub open spec fn total_votes(self) -> int {
        tally_total(self.votes@)
    }

    /// Everything fixed at creation: all fields but the tally.
    pub open spec fn header(self) -> (u64, Seq<char>, Seq<char>, Seq<String>, u64) {
        (self.creator, self.title@, self.description@, self.choices@, self.deadline)
    }

    /// Whether the post-deadline cooldown has elapsed at time `now`, so the
    /// record's storage may be reclaimed.
    pub open spec fn deletable(self, now: u64) -> bool {
        now >= self.deadline + DELETION_COOLDOWN
    }

    /// Builds a fresh proposal. The choice list must hold between one and
    /// five entries; anything else is rejected with `MaxLengthChoices`, the
    /// registry's one bounds error, and nothing is built. On success every
    /// tally cell starts at zero.
    pub fn new(
        creator: u64,
        title: String,
        description: String,
        choices: Vec<String>,
        deadline: u64,
    ) -> (r: Result<Proposal, ProposalError>)
        ensures
            r is Ok <==> 1 <= choices@.len() <= MAX_CHOICES,
            !(1 <= choices@.len() <= MAX_CHOICES) ==> r == Err::<Proposal, ProposalError>(
                ProposalError::MaxLengthChoices,
            ),
            r matches Ok(p) ==> {
                &&& p.well_formed()
                &&& p.creator == creator
                &&& p.title@ == title@
                &&& p.description@ == description@
                &&& p.choices@ == choices@
                &&& p.deadline == deadline
                &&& p.votes@.len() == choices@.len()
                &&& forall|i: int| 0 <= i < p.votes@.len() ==> p.votes@[i] == 0
                &&& p.total_votes() == 0
            },
    {
        if choices.len() == 0 || choices.len() > MAX_CHOICES {
            return Err(ProposalError::MaxLengthChoices);
        }
        let n: usize = choices.len();
        let mut votes: Vec<u64> = Vec::new();
        let mut i: usize = 0;
        while i < n
            invariant
                i <= n,
                votes@.len() == i,
                forall|j: int| 0 <= j < i ==> votes@[j] == 0,
            decreases n - i,
        {
            votes.push(0);
            i = i + 1;
        }
        proof {
            lemma_tally_total_zero(votes@);
        }
        Ok(Proposal { creator, title, description, choices, deadline, votes })
    }

    /// Casts one vote. Fails with `DeadlinePassed` from the deadline onward,
    /// then with `InvalidOption` for an index outside the choice list; on
    /// success exactly the chosen cell grows, by exactly one. On failure the
    /// record is untouched.
    pub fn vote(&mut self, user_choice: u8, now: u64) -> (r: Result<(), ProposalError>)
        requires
            old(self).well_formed(),
            now < old(self).deadline && (user_choice as int) < old(self).choices@.len()
                ==> old(self).votes@[user_choice as int] < u64::MAX,
        ensures
            final(self).well_formed(),
            final(self).header() == old(self).header(),
            r is Ok <==> now < old(self).deadline && (user_choice as int) < old(
                self,
            ).choices@.len(),
            now >= old(self).deadline ==> r == Err::<(), ProposalError>(
                ProposalError::DeadlinePassed,
            ) && *final(self) == *old(self),
            now < old(self).deadline && (user_choice as int) >= old(self).choices@.len() ==> r
                == Err::<(), ProposalError>(ProposalError::InvalidOption) && *final(self) == *old(
                self,
            ),
            r is Ok ==> final(self).votes@ == old(self).votes@.update(
                user_choice as int,
                (old(self).votes@[user_choice as int] + 1) as u64,
            ),
            r is Ok ==> final(self).total_votes() == old(self).total_votes() + 1,
            r is Err ==> *final(self) == *old(self) && final(self).total_votes() == old(
                self,
            ).total_votes(),
    {
        if now >= self.deadline {
            return Err(ProposalError::DeadlinePassed);
        }
        let idx: usize = user_choice as usize;
        if idx >= self.choices.len() {
            return Err(ProposalError::InvalidOption);
        }
        let cell = &mut self.votes[idx];
        proof {
            lemma_tally_total_update(old(self).votes@, idx as int, (old(self).votes@[idx as int] + 1) as u64);
        }
        *cell = *cell + 1;
        Ok(())
    }

    /// Checks whether the record may be deleted at time `now`: only once
    /// thirty days have passed since the deadline, else
    /// `ProposalNotExpiredEnough`. Reads only; the registry does the closing.
    pub fn check_delete(&self, now: u64) -> (r: Result<(), ProposalError>)
        ensures
            r is Ok <==> self.deletable(now),
            !self.deletable(now) ==> r == Err::<(), ProposalError>(
                ProposalError::ProposalNotExpiredEnough,
            ),
    {
        if now >= DELETION_COOLDOWN && now - DELETION_COOLDOWN >= self.deadline {
            Ok(())
        } else {
            Err(ProposalError::ProposalNotExpiredEnough)
        }
    }
}

} // verus!
