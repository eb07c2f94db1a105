use vstd::prelude::*;
use crate::proposal::{create_post, update_post, CreateProposal, ProposalError, UpdateProposal};
use crate::address::{le_bytes, shifted, vote_seeds};
use crate::vote::{is_open, vote_post, vote_result, VoteOnProposals, VoteType, VotingError};

verus! {

/// How many of `results` are successes.
pub open spec fn successes(results: Seq<Result<(), ProposalError>>) -> nat
    decreases results.len(),
{
    if results.len() == 0 {
        0
    } else {
        successes(results.drop_last()) + if results.last() is Ok {
            1nat
        } else {
            0nat
        }
    }
}

/// Whether `pres`/`posts` are a run of creation requests by one creator, each
/// starting from the counter the one before left behind, the first from a
/// fresh counter.
pub open spec fn creation_run(
    pres: Seq<CreateProposal>,
    posts: Seq<CreateProposal>,
    titles: Seq<Seq<char>>,
    descriptions: Seq<Seq<char>>,
    starts: Seq<i64>,
    ends: Seq<i64>,
    results: Seq<Result<(), ProposalError>>,
) -> bool {
    &&& posts.len() == pres.len()
    &&& titles.len() == pres.len()
    &&& descriptions.len() == pres.len()
    &&& starts.len() == pres.len()
    &&& ends.len() == pres.len()
    &&& results.len() == pres.len()
    &&& pres.len() > 0 ==> pres[0].proposal_counter.count == 0
    &&& forall|i: int|
        0 <= i < pres.len() ==> #[trigger] create_post(
            pres[i],
            posts[i],
            titles[i],
            descriptions[i],
            starts[i],
            ends[i],
            results[i],
        )
    &&& forall|i: int|
        0 <= i < pres.len() - 1 ==> #[trigger] pres[i + 1].proposal_counter == posts[i].proposal_counter
}

proof fn lemma_counter_counts_successes(
    pres: Seq<CreateProposal>,
    posts: Seq<CreateProposal>,
    titles: Seq<Seq<char>>,
    descriptions: Seq<Seq<char>>,
    starts: Seq<i64>,
    ends: Seq<i64>,
    results: Seq<Result<(), ProposalError>>,
    i: int,
)
    requires
        creation_run(pres, posts, titles, descriptions, starts, ends, results),
        0 <= i < pres.len(),
    ensures
        pres[i].proposal_counter.count == successes(results.take(i)),
        posts[i].proposal_counter.count == successes(results.take(i + 1)),
    decreases i,
{
    assert(create_post(pres[i], posts[i], titles[i], descriptions[i], starts[i], ends[i], results[i]));
    assert(results.take(i + 1).drop_last() =~= results.take(i));
    if i == 0 {
        assert(results.take(0) =~= Seq::<Result<(), ProposalError>>::empty());
    } else {
        lemma_counter_counts_successes(pres, posts, titles, descriptions, starts, ends, results, i - 1);
        assert(pres[(i - 1) + 1].proposal_counter == posts[i - 1].proposal_counter);
    }
}

/// Ids are handed out gap-free from zero: in a run of creation requests by
/// one creator, a request that succeeds gets as its id the number of requests
/// before it that succeeded, so successive successes get 0, 1, 2, ...
pub proof fn lemma_ids_gap_free(
    pres: Seq<CreateProposal>,
    posts: Seq<CreateProposal>,
    titles: Seq<Seq<char>>,
    descriptions: Seq<Seq<char>>,
    starts: Seq<i64>,
    ends: Seq<i64>,
    results: Seq<Result<(), ProposalError>>,
)
    requires
        creation_run(pres, posts, titles, descriptions, starts, ends, results),
    ensures
        forall|i: int|
            0 <= i < pres.len() && #[trigger] results[i] is Ok ==> posts[i].proposal.id == successes(
                results.take(i),
            ),
        forall|i: int, j: int|
            0 <= i < j < pres.len() && #[trigger] results[i] is Ok && #[trigger] results[j] is Ok
                ==> posts[i].proposal.id < posts[j].proposal.id,
{
    assert forall|i: int| 0 <= i < pres.len() && #[trigger] results[i] is Ok implies posts[i].proposal.id
        == successes(results.take(i)) by {
        lemma_counter_counts_successes(pres, posts, titles, descriptions, starts, ends, results, i);
        assert(create_post(pres[i], posts[i], titles[i], descriptions[i], starts[i], ends[i], results[i]));
    }
    assert forall|i: int, j: int|
        0 <= i < j < pres.len() && #[trigger] results[i] is Ok && #[trigger] results[j] is Ok implies posts[i].proposal.id
        < posts[j].proposal.id by {
        lemma_counter_counts_successes(pres, posts, titles, descriptions, starts, ends, results, i);
        lemma_counter_counts_successes(pres, posts, titles, descriptions, starts, ends, results, j);
        lemma_successes_monotonic(results, i + 1, j);
        assert(create_post(pres[i], posts[i], titles[i], descriptions[i], starts[i], ends[i], results[i]));
        assert(create_post(pres[j], posts[j], titles[j], descriptions[j], starts[j], ends[j], results[j]));
    }
}

proof fn lemma_successes_monotonic(results: Seq<Result<(), ProposalError>>, i: int, j: int)
    requires
        0 <= i <= j <= results.len(),
    ensures
        successes(results.take(i)) <= successes(results.take(j)),
    decreases j - i,
{
    if i < j {
        lemma_successes_monotonic(results, i, j - 1);
        assert(results.take(j).drop_last() =~= results.take(j - 1));
    }
}

/// A creator who supplies a new start date alone may place it at or after the
/// end date: the dates are compared only when both are supplied.
pub proof fn lemma_lone_start_date_unchecked(
    pre: UpdateProposal,
    post: UpdateProposal,
    start_date: i64,
    r: Result<(), ProposalError>,
)
    requires
        update_post(pre, post, None, None, Some(start_date), None, r),
        pre.creator@ == pre.proposal.creator@,
    ensures
        r is Ok,
        post.proposal.start_date == start_date,
        post.proposal.end_date == pre.proposal.end_date,
{
}

/// Only the first vote of a voter on a proposal counts: once it succeeded,
/// a later vote on the record it left, with any choice and at any time inside
/// the window, fails with `AlreadyVoted` and changes nothing.
pub proof fn lemma_second_vote_rejected(
    first_pre: VoteOnProposals,
    first_post: VoteOnProposals,
    first_vote: VoteType,
    first_now: i64,
    first_r: Result<(), VotingError>,
    second_pre: VoteOnProposals,
    second_post: VoteOnProposals,
    second_vote: VoteType,
    second_now: i64,
    second_r: Result<(), VotingError>,
)
    requires
        vote_post(first_pre, first_post, first_vote, first_now, first_r),
        first_r is Ok,
        second_pre.voter_pda == first_post.voter_pda,
        is_open(second_pre.proposal, second_now),
        vote_post(second_pre, second_post, second_vote, second_now, second_r),
    ensures
        second_r == Err::<(), VotingError>(VotingError::AlreadyVoted),
        second_post == second_pre,
{
}

/// Whether `pres`/`posts` are a run of votes by one voter on one proposal,
/// each made on the records the one before left behind, the first before the
/// voter had a record, every one inside the voting window.
pub open spec fn voting_run(
    pres: Seq<VoteOnProposals>,
    posts: Seq<VoteOnProposals>,
    votes: Seq<VoteType>,
    nows: Seq<i64>,
    results: Seq<Result<(), VotingError>>,
) -> bool {
    &&& posts.len() == pres.len()
    &&& votes.len() == pres.len()
    &&& nows.len() == pres.len()
    &&& results.len() == pres.len()
    &&& pres.len() > 0 ==> pres[0].voter_pda is None
    &&& forall|i: int|
        0 <= i < pres.len() ==> #[trigger] vote_post(pres[i], posts[i], votes[i], nows[i], results[i])
    &&& forall|i: int| 0 <= i < pres.len() ==> #[trigger] is_open(pres[i].proposal, nows[i])
    &&& forall|i: int| 0 <= i < pres.len() - 1 ==> #[trigger] pres[i + 1] == posts[i]
}

proof fn lemma_after_first_vote(
    pres: Seq<VoteOnProposals>,
    posts: Seq<VoteOnProposals>,
    votes: Seq<VoteType>,
    nows: Seq<i64>,
    results: Seq<Result<(), VotingError>>,
    i: int,
)
    requires
        voting_run(pres, posts, votes, nows, results),
        results[0] is Ok,
        1 <= i < pres.len(),
    ensures
        pres[i].voter_pda is Some,
        results[i] == Err::<(), VotingError>(VotingError::AlreadyVoted),
        posts[i] == pres[i],
        pres[i].proposal == posts[0].proposal,
    decreases i,
{
    assert(pres[(i - 1) + 1] == posts[i - 1]);
    assert(vote_post(pres[i], posts[i], votes[i], nows[i], results[i]));
    assert(is_open(pres[i].proposal, nows[i]));
    if i == 1 {
        assert(vote_post(pres[0], posts[0], votes[0], nows[0], results[0]));
    } else {
        lemma_after_first_vote(pres, posts, votes, nows, results, i - 1);
    }
}

/// In a run of votes by one voter on one proposal inside the window, the
/// first decides: it is counted unless no address can be derived for its
/// record, and once it is counted every later vote, whatever its choice,
/// fails with `AlreadyVoted` and leaves the tallies as the first left them.
pub proof fn lemma_only_first_vote_counts(
    pres: Seq<VoteOnProposals>,
    posts: Seq<VoteOnProposals>,
    votes: Seq<VoteType>,
    nows: Seq<i64>,
    results: Seq<Result<(), VotingError>>,
)
    requires
        voting_run(pres, posts, votes, nows, results),
        pres.len() > 0,
    ensures
        results[0] == vote_result(pres[0], nows[0]),
        results[0] is Ok || results[0] == Err::<(), VotingError>(VotingError::AddressUnavailable),
        results[0] is Ok ==> forall|i: int|
            1 <= i < pres.len() ==> #[trigger] results[i] == Err::<(), VotingError>(VotingError::AlreadyVoted)
                && posts[i].proposal == posts[0].proposal,
{
    assert(vote_post(pres[0], posts[0], votes[0], nows[0], results[0]));
    assert(is_open(pres[0].proposal, nows[0]));
    if results[0] is Ok {
        assert forall|i: int| 1 <= i < pres.len() implies #[trigger] results[i] == Err::<(), VotingError>(
            VotingError::AlreadyVoted,
        ) && posts[i].proposal == posts[0].proposal by {
            lemma_after_first_vote(pres, posts, votes, nows, results, i);
        }
    }
}

proof fn lemma_le_byte_equal(x: u64, y: u64, i: nat)
    requires
        le_bytes(x) == le_bytes(y),
        i < 8,
    ensures
        shifted(x, i) % 256 == shifted(y, i) % 256,
{
    assert(le_bytes(x)[i as int] == le_bytes(y)[i as int]);
    assert(le_bytes(x)[i as int] == (shifted(x, (i as int) as nat) % 256) as u8);
    assert(le_bytes(y)[i as int] == (shifted(y, (i as int) as nat) % 256) as u8);
    assert((i as int) as nat == i);
}

/// Distinct ids give distinct little-endian encodings.
pub proof fn lemma_le_bytes_injective(x: u64, y: u64)
    requires
        le_bytes(x) == le_bytes(y),
    ensures
        x == y,
{
    reveal_with_fuel(shifted, 9);
    lemma_le_byte_equal(x, y, 0);
    lemma_le_byte_equal(x, y, 1);
    lemma_le_byte_equal(x, y, 2);
    lemma_le_byte_equal(x, y, 3);
    lemma_le_byte_equal(x, y, 4);
    lemma_le_byte_equal(x, y, 5);
    lemma_le_byte_equal(x, y, 6);
    lemma_le_byte_equal(x, y, 7);
    assert(shifted(x, 8) == 0 && shifted(y, 8) == 0);
}

/// Vote records of distinct proposals never share a key: two proposals that
/// differ in creator or in id give every voter distinct seeds.
pub proof fn lemma_vote_seeds_distinct(
    creator_a: Seq<u8>,
    id_a: u64,
    creator_b: Seq<u8>,
    id_b: u64,
    voter: Seq<u8>,
)
    requires
        creator_a != creator_b || id_a != id_b,
    ensures
        vote_seeds(creator_a, id_a, voter) != vote_seeds(creator_b, id_b, voter),
{
    if vote_seeds(creator_a, id_a, voter) == vote_seeds(creator_b, id_b, voter) {
        assert(vote_seeds(creator_a, id_a, voter)[1] == creator_a);
        assert(vote_seeds(creator_b, id_b, voter)[1] == creator_b);
        assert(vote_seeds(creator_a, id_a, voter)[2] == le_bytes(id_a));
        assert(vote_seeds(creator_b, id_b, voter)[2] == le_bytes(id_b));
        lemma_le_bytes_injective(id_a, id_b);
    }
}

/// The tallies of a proposal sum to the number of distinct voters with a
/// record on it: a vote keeps that so, adding one to both exactly when it
/// succeeds.
pub proof fn lemma_tallies_count_voters(
    pre: VoteOnProposals,
    post: VoteOnProposals,
    vote: VoteType,
    now: i64,
    r: Result<(), VotingError>,
    voters: Set<Seq<u8>>,
)
    requires
        vote_post(pre, post, vote, now, r),
        voters.finite(),
        pre.proposal.total_votes() == voters.len(),
        pre.voter_pda is Some <==> voters.contains(pre.voter@),
    ensures
        r is Ok ==> post.proposal.total_votes() == voters.insert(pre.voter@).len(),
        r is Ok ==> post.voter_pda is Some && voters.insert(pre.voter@).contains(post.voter@),
        r is Err ==> post.proposal.total_votes() == voters.len(),
{
    if r is Ok {
        assert(!voters.contains(pre.voter@));
        assert(voters.insert(pre.voter@).len() == voters.len() + 1);
    }
}

} // verus!
