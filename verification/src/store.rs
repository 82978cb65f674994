use vstd::prelude::*;

use crate::errors::ProposalError;
use crate::proposal::Proposal;
use crate::proposal::MAX_CHOICES;

verus! {

/// One storage slot of the registry. A proposal's address is its slot index,
/// handed out in creation order, so the address is derivable from how many
/// records existed before it. A closed slot keeps its address unusable
/// forever and records the party that reclaimed the storage value.
pub enum Slot {
    Live { record: Proposal },
    Closed { reclaimer: u64 },
}

/// The proposal store: one slot for every record ever created, addressed by
/// creation index. Deleted records leave a closed slot behind, so no address
/// is ever reused.
pub struct ProposalStore {
    pub slots: Vec<Slot>,
}

impl ProposalStore {
    /// The store invariant: every live record is well formed.
    pub open spec fn well_formed(self) -> bool {
        forall|i: int|
            0 <= i < self.slots@.len() ==> (#[trigger] self.slots@[i] matches Slot::Live { record }
                ==> record.well_formed())
    }

    /// Whether `addr` names a live record.
    pub open spec fn live_at(self, addr: u64) -> bool {
        addr < self.slots@.len() && self.slots@[addr as int] is Live
    }

    /// The live record at `addr`.
    pub open spec fn record_at(self, addr: u64) -> Proposal
        recommends
            self.live_at(addr),
    {
        self.slots@[addr as int]->record
    }

    /// An empty store: no record was ever created.
    pub fn new() -> (r: ProposalStore)
        ensures
            r.slots@.len() == 0,
            r.well_formed(),
    {
        ProposalStore { slots: Vec::new() }
    }

    /// Reads the record at `addr` back, or `None` where no live record holds
    /// that address: never created, or already deleted.
    pub fn get_proposal(&self, addr: u64) -> (r: Option<&Proposal>)
        ensures
            r matches Some(p) ==> self.live_at(addr) && *p == self.record_at(addr),
            r is None <==> !self.live_at(addr),
    {
        if addr >= self.slots.len() as u64 {
            return None;
        }
        match &self.slots[addr as usize] {
            Slot::Live { record } => Some(record),
            Slot::Closed { .. } => None,
        }
    }
}

/// Creates a proposal: validates the choice list, then persists a fresh
/// record, every tally cell at zero, at the next address. On failure the
/// store is untouched and the error says why; success is owed exactly when
/// the list holds between one and five choices.
pub fn create_proposal(
    store: &mut ProposalStore,
    creator: u64,
    title: String,
    description: String,
    choices: Vec<String>,
    deadline: u64,
) -> (r: Result<u64, ProposalError>)
    requires
        old(store).well_formed(),
    ensures
        final(store).well_formed(),
        r is Ok <==> 1 <= choices@.len() <= MAX_CHOICES,
        r is Err ==> r == Err::<u64, ProposalError>(ProposalError::MaxLengthChoices) && *final(store) == *old(store),
        r matches Ok(addr) ==> ({
            let p = final(store).record_at(addr);
            &&& addr == old(store).slots@.len()
            &&& final(store).slots@ == old(store).slots@.push(Slot::Live { record: p })
            &&& final(store).live_at(addr)
            &&& p.well_formed()
            &&& p.creator == creator
            &&& p.title@ == title@
            &&& p.description@ == description@
            &&& p.choices@ == choices@
            &&& p.deadline == deadline
            &&& p.votes@.len() == choices@.len()
            &&& forall|i: int| 0 <= i < p.votes@.len() ==> p.votes@[i] == 0
            &&& p.total_votes() == 0
        }),
{
    let record = match Proposal::new(creator, title, description, choices, deadline) {
        Ok(record) => record,
        Err(e) => {
            return Err(e);
        },
    };
    let addr: u64 = store.slots.len() as u64;
    store.slots.push(Slot::Live { record });
    Ok(addr)
}

/// Casts one vote on the record at `proposal`. At or past the deadline it
/// fails with `DeadlinePassed`; a choice index outside the record's list
/// fails with `InvalidOption`; otherwise exactly the chosen tally cell grows
/// by exactly one. Every other slot, and on failure the whole store, is left
/// as it was.
pub fn cast_vote(store: &mut ProposalStore, proposal: u64, user_choice: u8, now: u64) -> (r: Result<
    (),
    ProposalError,
>)
    requires
        old(store).well_formed(),
        old(store).live_at(proposal),
        now < old(store).record_at(proposal).deadline && (user_choice as int) < old(store).record_at(proposal).choices@.len() ==> old(store).record_at(proposal).votes@[user_choice
            as int] < u64::MAX,
    ensures
        final(store).well_formed(),
        final(store).live_at(proposal),
        final(store).slots@.len() == old(store).slots@.len(),
        forall|a: int|
            0 <= a < old(store).slots@.len() && a != proposal ==> final(store).slots@[a] == old(store).slots@[a],
        r is Ok <==> now < old(store).record_at(proposal).deadline && (user_choice as int) < old(store).record_at(proposal).choices@.len(),
        now >= old(store).record_at(proposal).deadline ==> r == Err::<(), ProposalError>(
            ProposalError::DeadlinePassed,
        ) && final(store).slots@ == old(store).slots@,
        now < old(store).record_at(proposal).deadline && (user_choice as int) >= old(store).record_at(proposal).choices@.len() ==> r == Err::<(), ProposalError>(
            ProposalError::InvalidOption,
        ) && final(store).slots@ == old(store).slots@,
        r is Err ==> final(store).slots@ == old(store).slots@,
        r is Ok ==> ({
            let pre = old(store).record_at(proposal);
            let post = final(store).record_at(proposal);
            &&& post.header() == pre.header()
            &&& post.votes@ == pre.votes@.update(
                user_choice as int,
                (pre.votes@[user_choice as int] + 1) as u64,
            )
            &&& post.total_votes() == pre.total_votes() + 1
        }),
{
    let n: usize = store.slots.len();
    assert(proposal < n as u64);
    let idx: usize = proposal as usize;
    assert(idx as int == proposal as int);
    let r = match &mut store.slots[idx] {
        Slot::Live { record } => record.vote(user_choice, now),
        Slot::Closed { .. } => vstd::pervasive::unreached(),
    };
    proof {
        if r is Err {
            assert(store.slots@ =~= old(store).slots@);
        }
    }
    r
}

/// Deletes the record at `proposal`, closing its address for good and
/// handing the storage value backing the record to `reclaimer`. Before
/// thirty days past the deadline it fails with `ProposalNotExpiredEnough`
/// and the record, tallies included, is kept intact.
pub fn delete_proposal(store: &mut ProposalStore, proposal: u64, reclaimer: u64, now: u64) -> (r:
    Result<(), ProposalError>)
    requires
        old(store).well_formed(),
        old(store).live_at(proposal),
    ensures
        final(store).well_formed(),
        r is Ok <==> old(store).record_at(proposal).deletable(now),
        !old(store).record_at(proposal).deletable(now) ==> r == Err::<(), ProposalError>(
            ProposalError::ProposalNotExpiredEnough,
        ) && *final(store) == *old(store),
        r is Ok ==> final(store).slots@ == old(store).slots@.update(
            proposal as int,
            Slot::Closed { reclaimer },
        ) && !final(store).live_at(proposal),
{
    let n: usize = store.slots.len();
    assert(proposal < n as u64);
    let idx: usize = proposal as usize;
    assert(idx as int == proposal as int);
    let check = match &store.slots[idx] {
        Slot::Live { record } => record.check_delete(now),
        Slot::Closed { .. } => vstd::pervasive::unreached(),
    };
    match check {
        Ok(_) => {
            store.slots[idx] = Slot::Closed { reclaimer };
            Ok(())
        },
        Err(e) => Err(e),
    }
}

} // verus!
