use vstd::prelude::*;
use crate::identity::Identity;

verus! {

/// Longest title a proposal may carry, in bytes of UTF-8.
pub const MAX_TITLE_LEN: usize = 256;

/// Longest description a proposal may carry, in bytes of UTF-8.
pub const MAX_DESCRIPTION_LEN: usize = 1024;

/// Length in bytes of the UTF-8 encoding of a text.
pub open spec fn byte_len(s: Seq<char>) -> nat {
    vstd::utf8::encode_utf8(s).len()
}

/// Length in bytes of the UTF-8 encoding of `s`.
pub fn text_len(s: &String) -> (n: usize)
    ensures
        n == byte_len(s@),
{
    s.as_str().as_bytes().len()
}

/// A proposal, stored under its creator and sequence id.
#[derive(Clone, Debug, PartialEq, Eq)]
pub struct Proposal {
    pub id: u64,
    pub creator: Identity,
    pub title: String,
    pub description: String,
    pub start_date: i64,
    pub end_date: i64,
    pub for_votes: u64,
    pub against_votes: u64,
    pub abstain_votes: u64,
}

impl Proposal {
    /// Sum of the three tallies.
    pub open spec fn total_votes(self) -> int {
        self.for_votes + self.against_votes + self.abstain_votes
    }

    /// Title and description within their bounds.
    pub open spec fn fields_fit(self) -> bool {
        &&& byte_len(self.title@) <= MAX_TITLE_LEN
        &&& byte_len(self.description@) <= MAX_DESCRIPTION_LEN
    }
}

/// The per-creator sequence allocator: the next id to hand out.
#[derive(Clone, Copy, Debug, PartialEq, Eq, Structural)]
pub struct ProposalCounter {
    pub count: u64,
}

impl ProposalCounter {
    /// The counter of a creator who has never proposed anything.
    pub fn new() -> (r: ProposalCounter)
        ensures
            r.count == 0,
    {
        ProposalCounter { count: 0 }
    }
}

/// Why a request on a proposal was rejected.
#[derive(Clone, Copy, Debug, PartialEq, Eq, Structural)]
pub enum ProposalError {
    Unauthorized,
    TitleTooLong,
    DescriptionTooLong,
    InvalidDates,
}

impl ProposalError {
    /// The message shown to the caller for this error.
    pub fn message(&self) -> (r: &'static str)
        ensures
            *self == ProposalError::Unauthorized ==> r@
                == "Unauthorized: only the creator of the proposal can perform this action."@,
            *self == ProposalError::TitleTooLong ==> r@ == "The title exceeds the maximum allowed length."@,
            *self == ProposalError::DescriptionTooLong ==> r@
                == "The description exceeds the maximum allowed length."@,
            *self == ProposalError::InvalidDates ==> r@ == "The start date must be earlier than the end date."@,
    {
        match self {
            ProposalError::Unauthorized => "Unauthorized: only the creator of the proposal can perform this action.",
            ProposalError::TitleTooLong => "The title exceeds the maximum allowed length.",
            ProposalError::DescriptionTooLong => "The description exceeds the maximum allowed length.",
            ProposalError::InvalidDates => "The start date must be earlier than the end date.",
        }
    }
}

/// The records a creation request touches: the creator's counter, the fresh
/// slot for the new proposal, and the creator.
pub struct CreateProposal {
    pub proposal_counter: ProposalCounter,
    pub proposal: Proposal,
    pub creator: Identity,
}

/// The outcome of a creation request with the given arguments.
pub open spec fn create_result(
    title: Seq<char>,
    description: Seq<char>,
    start_date: i64,
    end_date: i64,
) -> Result<(), ProposalError> {
    if byte_len(title) > MAX_TITLE_LEN {
        Err(ProposalError::TitleTooLong)
    } else if byte_len(description) > MAX_DESCRIPTION_LEN {
        Err(ProposalError::DescriptionTooLong)
    } else if start_date >= end_date {
        Err(ProposalError::InvalidDates)
    } else {
        Ok(())
    }
}

/// How a creation request relates the records before and after it.
pub open spec fn create_post(
    pre: CreateProposal,
    post: CreateProposal,
    title: Seq<char>,
    description: Seq<char>,
    start_date: i64,
    end_date: i64,
    r: Result<(), ProposalError>,
) -> bool {
    &&& r == create_result(title, description, start_date, end_date)
    &&& post.creator == pre.creator
    &&& r is Ok ==> {
        &&& post.proposal_counter.count == pre.proposal_counter.count + 1
        &&& post.proposal.id == pre.proposal_counter.count
        &&& post.proposal.creator == pre.creator
        &&& post.proposal.title@ == title
        &&& post.proposal.description@ == description
        &&& post.proposal.start_date == start_date
        &&& post.proposal.end_date == end_date
        &&& post.proposal.for_votes == 0
        &&& post.proposal.against_votes == 0
        &&& post.proposal.abstain_votes == 0
        &&& post.proposal.fields_fit()
    }
    &&& r is Err ==> post == pre
}

/// Checks the arguments of a creation request: the title, then the
/// description, then the dates.
pub fn check_proposal_fields(
    title: &String,
    description: &String,
    start_date: i64,
    end_date: i64,
) -> (r: Result<(), ProposalError>)
    ensures
        r == create_result(title@, description@, start_date, end_date),
{
    if text_len(title) > MAX_TITLE_LEN {
        return Err(ProposalError::TitleTooLong);
    }
    if text_len(description) > MAX_DESCRIPTION_LEN {
        return Err(ProposalError::DescriptionTooLong);
    }
    if start_date >= end_date {
        return Err(ProposalError::InvalidDates);
    }
    Ok(())
}

/// Registers a proposal of `ctx.creator` under the next id of its counter.
/// Nothing is written unless the title, the description and the dates are
/// all valid.
pub fn create_proposal(
    ctx: &mut CreateProposal,
    title: String,
    description: String,
    start_date: i64,
    end_date: i64,
) -> (r: Result<(), ProposalError>)
    requires
        create_result(title@, description@, start_date, end_date) is Ok ==> old(ctx).proposal_counter.count
            < u64::MAX,
    ensures
        create_post(*old(ctx), *final(ctx), title@, description@, start_date, end_date, r),
{
    match check_proposal_fields(&title, &description, start_date, end_date) {
        Ok(()) => {},
        Err(e) => {
            return Err(e);
        },
    }
    let id = ctx.proposal_counter.count;
    ctx.proposal = Proposal {
        id,
        creator: ctx.creator,
        title,
        description,
        start_date,
        end_date,
        for_votes: 0,
        against_votes: 0,
        abstain_votes: 0,
    };
    ctx.proposal_counter.count = id + 1;
    Ok(())
}

/// The records an amendment request touches: the proposal and the caller.
pub struct UpdateProposal {
    pub proposal: Proposal,
    pub creator: Identity,
}

/// The text an optional replacement leaves in place of `current`.
pub open spec fn replaced_text(new: Option<String>, current: Seq<char>) -> Seq<char> {
    match new {
        Some(t) => t@,
        None => current,
    }
}

/// The value an optional replacement leaves in place of `current`.
pub open spec fn replaced_date(new: Option<i64>, current: i64) -> i64 {
    match new {
        Some(d) => d,
        None => current,
    }
}

/// The outcome of an amendment request. The dates are checked against each
/// other only when both are supplied.
pub open spec fn update_result(
    pre: UpdateProposal,
    title: Option<String>,
    description: Option<String>,
    start_date: Option<i64>,
    end_date: Option<i64>,
) -> Result<(), ProposalError> {
    if pre.creator@ != pre.proposal.creator@ {
        Err(ProposalError::Unauthorized)
    } else if title is Some && byte_len(title->0@) > MAX_TITLE_LEN {
        Err(ProposalError::TitleTooLong)
    } else if description is Some && byte_len(description->0@) > MAX_DESCRIPTION_LEN {
        Err(ProposalError::DescriptionTooLong)
    } else if start_date is Some && end_date is Some && start_date->0 >= end_date->0 {
        Err(ProposalError::InvalidDates)
    } else {
        Ok(())
    }
}

/// How an amendment request relates the records before and after it: on
/// success each supplied field is replaced and every other field is kept.
pub open spec fn update_post(
    pre: UpdateProposal,
    post: UpdateProposal,
    title: Option<String>,
    description: Option<String>,
    start_date: Option<i64>,
    end_date: Option<i64>,
    r: Result<(), ProposalError>,
) -> bool {
    &&& r == update_result(pre, title, description, start_date, end_date)
    &&& r is Ok ==> {
        &&& post.creator == pre.creator
        &&& post.proposal.id == pre.proposal.id
        &&& post.proposal.creator == pre.proposal.creator
        &&& post.proposal.title@ == replaced_text(title, pre.proposal.title@)
        &&& post.proposal.description@ == replaced_text(description, pre.proposal.description@)
        &&& post.proposal.start_date == replaced_date(start_date, pre.proposal.start_date)
        &&& post.proposal.end_date == replaced_date(end_date, pre.proposal.end_date)
        &&& post.proposal.for_votes == pre.proposal.for_votes
        &&& post.proposal.against_votes == pre.proposal.against_votes
        &&& post.proposal.abstain_votes == pre.proposal.abstain_votes
        &&& pre.proposal.fields_fit() ==> post.proposal.fields_fit()
    }
    &&& r is Err ==> post == pre
}

/// Amends a proposal on behalf of its creator: each supplied field is checked
/// and written, the others are left as they are. Nothing is written unless
/// every check passes.
pub fn update_proposal(
    ctx: &mut UpdateProposal,
    title: Option<String>,
    description: Option<String>,
    start_date: Option<i64>,
    end_date: Option<i64>,
) -> (r: Result<(), ProposalError>)
    ensures
        update_post(*old(ctx), *final(ctx), title, description, start_date, end_date, r),
{
    if !ctx.creator.same(&ctx.proposal.creator) {
        return Err(ProposalError::Unauthorized);
    }
    match &title {
        Some(t) => {
            if text_len(t) > MAX_TITLE_LEN {
                return Err(ProposalError::TitleTooLong);
            }
        },
        None => {},
    }
    match &description {
        Some(d) => {
            if text_len(d) > MAX_DESCRIPTION_LEN {
                return Err(ProposalError::DescriptionTooLong);
            }
        },
        None => {},
    }
    match (start_date, end_date) {
        (Some(s), Some(e)) => {
            if s >= e {
                return Err(ProposalError::InvalidDates);
            }
        },
        _ => {},
    }
    match title {
        Some(t) => {
            ctx.proposal.title = t;
        },
        None => {},
    }
    match description {
        Some(d) => {
            ctx.proposal.description = d;
        },
        None => {},
    }
    match start_date {
        Some(s) => {
            ctx.proposal.start_date = s;
        },
        None => {},
    }
    match end_date {
        Some(e) => {
            ctx.proposal.end_date = e;
        },
        None => {},
    }
    Ok(())
}

/// The records a withdrawal request touches: the proposal's slot, which holds
/// nothing once the proposal is removed, and the caller.
pub struct DeleteProposal {
    pub proposal: Option<Proposal>,
    pub creator: Identity,
}

/// The outcome of a withdrawal request on a stored proposal.
pub open spec fn delete_result(pre: DeleteProposal) -> Result<(), ProposalError> {
    if pre.creator@ == pre.proposal->0.creator@ {
        Ok(())
    } else {
        Err(ProposalError::Unauthorized)
    }
}

/// How a withdrawal request relates the records before and after it.
pub open spec fn delete_post(pre: DeleteProposal, post: DeleteProposal, r: Result<(), ProposalError>) -> bool {
    &&& r == delete_result(pre)
    &&& r is Ok ==> post.proposal is None && post.creator == pre.creator
    &&& r is Err ==> post == pre
}

/// Removes a proposal on behalf of its creator.
pub fn delete_proposal(ctx: &mut DeleteProposal) -> (r: Result<(), ProposalError>)
    requires
        old(ctx).proposal is Some,
    ensures
        delete_post(*old(ctx), *final(ctx), r),
{
    let authorized = match &ctx.proposal {
        Some(p) => ctx.creator.same(&p.creator),
        None => false,
    };
    if !authorized {
        return Err(ProposalError::Unauthorized);
    }
    ctx.proposal = None;
    Ok(())
}

} // verus!
