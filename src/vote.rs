use vstd::prelude::*;
use crate::address::{found_view, program_address_of, vote_record_address, vote_seeds};
use crate::identity::Identity;
use crate::proposal::Proposal;

verus! {

/// A cast vote's record, kept forever as proof that the voter took part. It
/// holds the bump of the address it is stored at.
#[derive(Clone, Copy, Debug, PartialEq, Eq, Structural)]
pub struct VoterPDA {
    pub bump: u8,
}

/// The three choices a voter has.
#[derive(Clone, Copy, Debug, PartialEq, Eq, Structural)]
pub enum VoteType {
    For,
    Against,
    Abstain,
}

/// Why a vote was rejected.
#[derive(Clone, Copy, Debug, PartialEq, Eq, Structural)]
pub enum VotingError {
    AlreadyVoted,
    VotingClosed,
    /// No address could be derived for the vote record: no bump seed puts the
    /// derived address off the curve. The vote is rejected with nothing
    /// written, where a panic would abort it the same way.
    AddressUnavailable,
}

impl VotingError {
    /// The message shown to the caller for this error.
    pub fn message(&self) -> (r: &'static str)
        ensures
            *self == VotingError::AlreadyVoted ==> r@ == "The voter has already voted on this proposal."@,
            *self == VotingError::VotingClosed ==> r@ == "Voting is closed for this proposal."@,
            *self == VotingError::AddressUnavailable ==> r@ == "No address could be derived for the vote record."@,
    {
        match self {
            VotingError::AlreadyVoted => "The voter has already voted on this proposal.",
            VotingError::VotingClosed => "Voting is closed for this proposal.",
            VotingError::AddressUnavailable => "No address could be derived for the vote record.",
        }
    }
}

/// The records a vote touches: the proposal, the voter, the slot of the
/// voter's record on it (empty until the vote is cast), and the id of the
/// program that owns the records.
pub struct VoteOnProposals {
    pub proposal: Proposal,
    pub voter: Identity,
    pub voter_pda: Option<VoterPDA>,
    pub program_id: Identity,
}

/// The tally that a vote of kind `vote` adds to.
pub open spec fn tally_of(p: Proposal, vote: VoteType) -> u64 {
    match vote {
        VoteType::For => p.for_votes,
        VoteType::Against => p.against_votes,
        VoteType::Abstain => p.abstain_votes,
    }
}

/// Whether `now` lies in the proposal's inclusive voting window.
pub open spec fn is_open(p: Proposal, now: i64) -> bool {
    p.start_date <= now <= p.end_date
}

/// Where the record of the voter's vote in `pre` is stored: its key names
/// the proposal by creator and id, and the voter.
pub open spec fn record_address(pre: VoteOnProposals) -> Option<(Seq<u8>, u8)> {
    program_address_of(vote_seeds(pre.proposal.creator@, pre.proposal.id, pre.voter@), pre.program_id@)
}

/// Whether a vote cast at `now` gets past the window and the record checks,
/// so that it is counted once its record's address is found.
pub open spec fn vote_counts(pre: VoteOnProposals, now: i64) -> bool {
    is_open(pre.proposal, now) && pre.voter_pda is None
}

/// The outcome of a vote cast at time `now`, where `found` is the address
/// and bump derived for its record, if any.
pub open spec fn vote_result_at(
    pre: VoteOnProposals,
    now: i64,
    found: Option<(Seq<u8>, u8)>,
) -> Result<(), VotingError> {
    if !is_open(pre.proposal, now) {
        Err(VotingError::VotingClosed)
    } else if pre.voter_pda is Some {
        Err(VotingError::AlreadyVoted)
    } else if found is None {
        Err(VotingError::AddressUnavailable)
    } else {
        Ok(())
    }
}

/// The outcome of a vote cast at time `now`.
pub open spec fn vote_result(pre: VoteOnProposals, now: i64) -> Result<(), VotingError> {
    vote_result_at(pre, now, record_address(pre))
}

/// `n`, plus one where `hit` holds.
pub open spec fn bumped(n: u64, hit: bool) -> int {
    if hit {
        n + 1
    } else {
        n as int
    }
}

/// How a vote relates the records before and after it, where `found` is the
/// address and bump derived for its record: on success the chosen tally grows
/// by one and the voter's record is written, together.
pub open spec fn vote_post_at(
    pre: VoteOnProposals,
    post: VoteOnProposals,
    vote: VoteType,
    now: i64,
    found: Option<(Seq<u8>, u8)>,
    r: Result<(), VotingError>,
) -> bool {
    &&& r == vote_result_at(pre, now, found)
    &&& r is Ok ==> {
        &&& post.voter == pre.voter
        &&& post.program_id == pre.program_id
        &&& post.voter_pda == Some(VoterPDA { bump: (found->0).1 })
        &&& post.proposal.id == pre.proposal.id
        &&& post.proposal.creator == pre.proposal.creator
        &&& post.proposal.title == pre.proposal.title
        &&& post.proposal.description == pre.proposal.description
        &&& post.proposal.start_date == pre.proposal.start_date
        &&& post.proposal.end_date == pre.proposal.end_date
        &&& post.proposal.for_votes == bumped(pre.proposal.for_votes, vote == VoteType::For)
        &&& post.proposal.against_votes == bumped(pre.proposal.against_votes, vote == VoteType::Against)
        &&& post.proposal.abstain_votes == bumped(pre.proposal.abstain_votes, vote == VoteType::Abstain)
        &&& post.proposal.total_votes() == pre.proposal.total_votes() + 1
    }
    &&& r is Err ==> post == pre
}

/// How a vote relates the records before and after it, its record stored at
/// the address derived from the proposal and the voter.
pub open spec fn vote_post(
    pre: VoteOnProposals,
    post: VoteOnProposals,
    vote: VoteType,
    now: i64,
    r: Result<(), VotingError>,
) -> bool {
    vote_post_at(pre, post, vote, now, record_address(pre), r)
}

/// Whether `now` lies in the proposal's inclusive voting window.
pub fn window_open(p: &Proposal, now: i64) -> (r: bool)
    ensures
        r == is_open(*p, now),
{
    p.start_date <= now && now <= p.end_date
}

/// Casts the voter's vote at time `now`, given the address and bump `found`
/// derived for its record: only inside the voting window, only where no
/// record is there yet, and only where an address was found.
pub fn record_vote(
    ctx: &mut VoteOnProposals,
    vote: VoteType,
    now: i64,
    found: Option<(Identity, u8)>,
) -> (r: Result<(), VotingError>)
    requires
        vote_counts(*old(ctx), now) ==> tally_of(old(ctx).proposal, vote) < u64::MAX,
    ensures
        vote_post_at(*old(ctx), *final(ctx), vote, now, found_view(found), r),
{
    if !window_open(&ctx.proposal, now) {
        return Err(VotingError::VotingClosed);
    }
    if ctx.voter_pda.is_some() {
        return Err(VotingError::AlreadyVoted);
    }
    let bump = match found {
        Some(f) => f.1,
        None => {
            return Err(VotingError::AddressUnavailable);
        },
    };
    match vote {
        VoteType::For => {
            ctx.proposal.for_votes = ctx.proposal.for_votes + 1;
        },
        VoteType::Against => {
            ctx.proposal.against_votes = ctx.proposal.against_votes + 1;
        },
        VoteType::Abstain => {
            ctx.proposal.abstain_votes = ctx.proposal.abstain_votes + 1;
        },
    }
    ctx.voter_pda = Some(VoterPDA { bump });
    Ok(())
}

/// Casts the voter's vote on the proposal at time `now`: only inside the
/// voting window, and only once per voter and proposal.
pub fn vote_on_proposal(ctx: &mut VoteOnProposals, vote: VoteType, now: i64) -> (r: Result<(), VotingError>)
    requires
        vote_counts(*old(ctx), now) ==> tally_of(old(ctx).proposal, vote) < u64::MAX,
    ensures
        vote_post(*old(ctx), *final(ctx), vote, now, r),
{
    let found = vote_record_address(&ctx.proposal.creator, ctx.proposal.id, &ctx.voter, &ctx.program_id);
    record_vote(ctx, vote, now, found)
}

} // verus!
