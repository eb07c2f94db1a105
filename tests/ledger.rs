use anchor_lang::prelude::Pubkey;
use proposal_ledger::address::{counter_address, proposal_address, u64_le_bytes, vote_record_address};
use proposal_ledger::identity::Identity;
use proposal_ledger::proposal::{
    check_proposal_fields, create_proposal, delete_proposal, text_len, update_proposal, CreateProposal, DeleteProposal, Proposal,
    ProposalCounter, ProposalError, UpdateProposal,
};
use proposal_ledger::vote::{record_vote, vote_on_proposal, window_open, VoteOnProposals, VoteType, VoterPDA, VotingError};

fn ident(b: u8) -> Identity {
    Identity { bytes: [b; 32] }
}

fn blank() -> Proposal {
    Proposal {
        id: 0,
        creator: ident(0),
        title: String::new(),
        description: String::new(),
        start_date: 0,
        end_date: 0,
        for_votes: 0,
        against_votes: 0,
        abstain_votes: 0,
    }
}

fn stored(creator: Identity, start: i64, end: i64) -> Proposal {
    Proposal { creator, title: "T".to_string(), description: "D".to_string(), start_date: start, end_date: end, ..blank() }
}

fn create_ctx(creator: Identity, count: u64) -> CreateProposal {
    CreateProposal { proposal_counter: ProposalCounter { count }, proposal: blank(), creator }
}

fn vote_ctx(proposal: Proposal, voter: Identity) -> VoteOnProposals {
    VoteOnProposals { proposal, voter, voter_pda: None, program_id: ident(9) }
}

fn tallies(p: &Proposal) -> (u64, u64, u64) {
    (p.for_votes, p.against_votes, p.abstain_votes)
}

#[test]
fn create_ids_start_at_zero_without_gaps() {
    let c = ident(1);
    let mut counter = ProposalCounter::new();
    let mut ids = Vec::new();
    for k in 0..4 {
        let mut ctx = CreateProposal { proposal_counter: counter, proposal: blank(), creator: c };
        let title = if k == 2 { "x".repeat(300) } else { format!("P{}", k) };
        let r = create_proposal(&mut ctx, title, "D".to_string(), 10, 20);
        if r.is_ok() {
            ids.push(ctx.proposal.id);
        }
        counter = ctx.proposal_counter;
    }
    assert_eq!(ids, vec![0, 1, 2]);
    assert_eq!(counter.count, 3);
}

#[test]
fn create_fills_the_proposal() {
    let c = ident(1);
    let mut ctx = create_ctx(c, 5);
    assert_eq!(create_proposal(&mut ctx, "Title".to_string(), "Desc".to_string(), -5, 7), Ok(()));
    let p = &ctx.proposal;
    assert_eq!(p.id, 5);
    assert_eq!(p.creator, c);
    assert_eq!(p.title, "Title");
    assert_eq!(p.description, "Desc");
    assert_eq!((p.start_date, p.end_date), (-5, 7));
    assert_eq!(tallies(p), (0, 0, 0));
    assert_eq!(ctx.proposal_counter.count, 6);
}

#[test]
fn create_title_bounds() {
    let mut ok = create_ctx(ident(1), 0);
    assert_eq!(create_proposal(&mut ok, "a".repeat(256), String::new(), 1, 2), Ok(()));
    let mut long = create_ctx(ident(1), 0);
    assert_eq!(create_proposal(&mut long, "a".repeat(257), String::new(), 1, 2), Err(ProposalError::TitleTooLong));
    assert_eq!(long.proposal_counter.count, 0);
    assert_eq!(long.proposal, blank());
    // 129 two-byte characters: 258 bytes
    let mut wide = create_ctx(ident(1), 0);
    assert_eq!(create_proposal(&mut wide, "é".repeat(129), String::new(), 1, 2), Err(ProposalError::TitleTooLong));
    assert_eq!(wide.proposal_counter.count, 0);
}

#[test]
fn create_description_bounds() {
    let mut ok = create_ctx(ident(1), 3);
    assert_eq!(create_proposal(&mut ok, "t".to_string(), "d".repeat(1024), 1, 2), Ok(()));
    let mut long = create_ctx(ident(1), 3);
    assert_eq!(
        create_proposal(&mut long, "t".to_string(), "d".repeat(1025), 1, 2),
        Err(ProposalError::DescriptionTooLong)
    );
    assert_eq!(long.proposal_counter.count, 3);
}

#[test]
fn create_rejects_bad_dates() {
    let mut equal = create_ctx(ident(1), 0);
    assert_eq!(create_proposal(&mut equal, "t".to_string(), "d".to_string(), 5, 5), Err(ProposalError::InvalidDates));
    assert_eq!(equal.proposal_counter.count, 0);
    let mut reversed = create_ctx(ident(1), 0);
    assert_eq!(
        create_proposal(&mut reversed, "t".to_string(), "d".to_string(), 9, 5),
        Err(ProposalError::InvalidDates)
    );
    assert_eq!(reversed.proposal_counter.count, 0);
}

#[test]
fn create_checks_title_first() {
    let mut ctx = create_ctx(ident(1), 0);
    assert_eq!(
        create_proposal(&mut ctx, "a".repeat(300), "d".repeat(2000), 9, 5),
        Err(ProposalError::TitleTooLong)
    );
}

#[test]
fn update_by_stranger_is_unauthorized() {
    let before = stored(ident(1), 10, 20);
    let mut ctx = UpdateProposal { proposal: before.clone(), creator: ident(2) };
    let r = update_proposal(&mut ctx, Some("New".to_string()), None, Some(1), Some(2));
    assert_eq!(r, Err(ProposalError::Unauthorized));
    assert_eq!(ctx.proposal, before);
}

#[test]
fn update_lone_start_date_is_not_checked() {
    let mut ctx = UpdateProposal { proposal: stored(ident(1), 10, 20), creator: ident(1) };
    assert_eq!(update_proposal(&mut ctx, None, None, Some(50), None), Ok(()));
    assert_eq!((ctx.proposal.start_date, ctx.proposal.end_date), (50, 20));
}

#[test]
fn update_lone_end_date_is_written() {
    let mut ctx = UpdateProposal { proposal: stored(ident(1), 10, 20), creator: ident(1) };
    assert_eq!(update_proposal(&mut ctx, None, None, None, Some(3)), Ok(()));
    assert_eq!((ctx.proposal.start_date, ctx.proposal.end_date), (10, 3));
}

#[test]
fn update_both_dates_checked() {
    let before = stored(ident(1), 10, 20);
    let mut bad = UpdateProposal { proposal: before.clone(), creator: ident(1) };
    assert_eq!(
        update_proposal(&mut bad, Some("N".to_string()), None, Some(30), Some(30)),
        Err(ProposalError::InvalidDates)
    );
    assert_eq!(bad.proposal, before);
    let mut good = UpdateProposal { proposal: before.clone(), creator: ident(1) };
    assert_eq!(update_proposal(&mut good, None, None, Some(30), Some(40)), Ok(()));
    assert_eq!((good.proposal.start_date, good.proposal.end_date), (30, 40));
}

#[test]
fn update_replaces_only_supplied_fields() {
    let mut p = stored(ident(1), 10, 20);
    p.for_votes = 4;
    let mut ctx = UpdateProposal { proposal: p, creator: ident(1) };
    assert_eq!(update_proposal(&mut ctx, None, Some("More".to_string()), None, None), Ok(()));
    assert_eq!(ctx.proposal.title, "T");
    assert_eq!(ctx.proposal.description, "More");
    assert_eq!(ctx.proposal.for_votes, 4);
    assert_eq!((ctx.proposal.start_date, ctx.proposal.end_date), (10, 20));
}

#[test]
fn update_rejects_long_fields_without_writing() {
    let before = stored(ident(1), 10, 20);
    let mut t = UpdateProposal { proposal: before.clone(), creator: ident(1) };
    assert_eq!(
        update_proposal(&mut t, Some("a".repeat(257)), Some("ok".to_string()), None, None),
        Err(ProposalError::TitleTooLong)
    );
    assert_eq!(t.proposal, before);
    let mut d = UpdateProposal { proposal: before.clone(), creator: ident(1) };
    assert_eq!(
        update_proposal(&mut d, Some("ok".to_string()), Some("b".repeat(1025)), None, None),
        Err(ProposalError::DescriptionTooLong)
    );
    assert_eq!(d.proposal, before);
}

#[test]
fn delete_by_stranger_is_unauthorized() {
    let before = stored(ident(1), 10, 20);
    let mut ctx = DeleteProposal { proposal: Some(before.clone()), creator: ident(2) };
    assert_eq!(delete_proposal(&mut ctx), Err(ProposalError::Unauthorized));
    assert_eq!(ctx.proposal, Some(before));
}

#[test]
fn delete_by_creator_removes() {
    let mut ctx = DeleteProposal { proposal: Some(stored(ident(1), 10, 20)), creator: ident(1) };
    assert_eq!(delete_proposal(&mut ctx), Ok(()));
    assert!(ctx.proposal.is_none());
}

#[test]
fn vote_outside_window_is_closed() {
    for now in [99, 201, i64::MIN, i64::MAX] {
        let mut ctx = vote_ctx(stored(ident(1), 100, 200), ident(2));
        assert_eq!(vote_on_proposal(&mut ctx, VoteType::For, now), Err(VotingError::VotingClosed));
        assert_eq!(tallies(&ctx.proposal), (0, 0, 0));
        assert!(ctx.voter_pda.is_none());
    }
}

#[test]
fn vote_window_is_inclusive() {
    let mut at_start = vote_ctx(stored(ident(1), 100, 200), ident(2));
    assert_eq!(vote_on_proposal(&mut at_start, VoteType::Against, 100), Ok(()));
    assert_eq!(tallies(&at_start.proposal), (0, 1, 0));
    let mut at_end = vote_ctx(stored(ident(1), 100, 200), ident(3));
    assert_eq!(vote_on_proposal(&mut at_end, VoteType::Abstain, 200), Ok(()));
    assert_eq!(tallies(&at_end.proposal), (0, 0, 1));
}

#[test]
fn only_first_vote_counts() {
    let mut ctx = vote_ctx(stored(ident(1), 100, 200), ident(2));
    assert_eq!(vote_on_proposal(&mut ctx, VoteType::For, 150), Ok(()));
    for choice in [VoteType::For, VoteType::Against, VoteType::Abstain] {
        assert_eq!(vote_on_proposal(&mut ctx, choice, 151), Err(VotingError::AlreadyVoted));
        assert_eq!(tallies(&ctx.proposal), (1, 0, 0));
    }
}

#[test]
fn tallies_sum_to_distinct_voters() {
    let mut p = stored(ident(1), 100, 200);
    let choices = [VoteType::For, VoteType::Against, VoteType::Abstain, VoteType::For];
    let mut slots: Vec<Option<VoterPDA>> = vec![None; 4];
    let mut voted = 0u64;
    for round in 0..2 {
        for (v, choice) in choices.iter().enumerate() {
            let mut ctx = VoteOnProposals { proposal: p.clone(), voter: ident(10 + v as u8), voter_pda: slots[v], program_id: ident(9) };
            let r = vote_on_proposal(&mut ctx, *choice, 150);
            if round == 0 {
                assert_eq!(r, Ok(()));
                voted += 1;
            } else {
                assert_eq!(r, Err(VotingError::AlreadyVoted));
            }
            p = ctx.proposal;
            slots[v] = ctx.voter_pda;
            assert_eq!(p.for_votes + p.against_votes + p.abstain_votes, voted);
        }
    }
    assert_eq!(tallies(&p), (2, 1, 1));
}

#[test]
fn scenario_create_then_vote() {
    let c = ident(1);
    let mut create = create_ctx(c, ProposalCounter::new().count);
    assert_eq!(create_proposal(&mut create, "T".to_string(), "D".to_string(), 100, 200), Ok(()));
    assert_eq!(create.proposal.id, 0);
    assert_eq!(tallies(&create.proposal), (0, 0, 0));

    let mut v1 = vote_ctx(create.proposal.clone(), ident(2));
    assert_eq!(vote_on_proposal(&mut v1, VoteType::For, 150), Ok(()));
    assert_eq!(tallies(&v1.proposal), (1, 0, 0));
    let expected = vote_record_address(&c, 0, &ident(2), &ident(9)).unwrap();
    assert_eq!(v1.voter_pda, Some(VoterPDA { bump: expected.1 }));

    assert_eq!(vote_on_proposal(&mut v1, VoteType::Against, 160), Err(VotingError::AlreadyVoted));
    assert_eq!(tallies(&v1.proposal), (1, 0, 0));

    let mut v2 = vote_ctx(v1.proposal.clone(), ident(3));
    assert_eq!(vote_on_proposal(&mut v2, VoteType::Abstain, 250), Err(VotingError::VotingClosed));
    assert_eq!(tallies(&v2.proposal), (1, 0, 0));
}

#[test]
fn le_bytes_of_u64() {
    assert_eq!(u64_le_bytes(0x0102030405060708), vec![8, 7, 6, 5, 4, 3, 2, 1]);
    assert_eq!(u64_le_bytes(0), vec![0; 8]);
    assert_eq!(u64_le_bytes(u64::MAX), vec![255; 8]);
    assert_eq!(u64_le_bytes(7).as_slice(), &7u64.to_le_bytes());
}

#[test]
fn vote_record_address_matches_derivation() {
    let program = Pubkey::new_from_array([9; 32]);
    let voter = [2u8; 32];
    let creator = [1u8; 32];
    let (addr, bump) =
        Pubkey::find_program_address(&[b"vote", &creator, &42u64.to_le_bytes(), &voter], &program);
    let got = vote_record_address(&Identity { bytes: creator }, 42, &Identity { bytes: voter }, &ident(9)).unwrap();
    assert_eq!(got.0.bytes, addr.to_bytes());
    assert_eq!(got.1, bump);
    assert_ne!(got.0, ident(9));
    assert_ne!(got.0, Identity { bytes: voter });
    let other = vote_record_address(&Identity { bytes: creator }, 43, &Identity { bytes: voter }, &ident(9)).unwrap();
    assert_ne!(other.0, got.0);
    let other_creator = vote_record_address(&ident(3), 42, &Identity { bytes: voter }, &ident(9)).unwrap();
    assert_ne!(other_creator.0, got.0);
}

#[test]
fn proposal_and_counter_addresses_match_derivation() {
    let program = Pubkey::new_from_array([9; 32]);
    let creator = [1u8; 32];
    let (p, pb) = Pubkey::find_program_address(&[b"proposal", &creator, &3u64.to_le_bytes()], &program);
    assert_eq!(proposal_address(&Identity { bytes: creator }, 3, &ident(9)).unwrap(), (Identity { bytes: p.to_bytes() }, pb));
    let (c, cb) = Pubkey::find_program_address(&[b"proposal_counter", &creator], &program);
    assert_eq!(counter_address(&Identity { bytes: creator }, &ident(9)).unwrap(), (Identity { bytes: c.to_bytes() }, cb));
}

#[test]
fn identity_comparison() {
    assert!(ident(4).same(&ident(4)));
    let mut b = [4u8; 32];
    b[31] = 5;
    assert!(!ident(4).same(&Identity { bytes: b }));
}

#[test]
fn text_len_counts_bytes() {
    assert_eq!(text_len(&"abc".to_string()), 3);
    assert_eq!(text_len(&"é".to_string()), 2);
    assert_eq!(text_len(&String::new()), 0);
}

#[test]
fn error_messages() {
    assert_eq!(ProposalError::Unauthorized.message(), "Unauthorized: only the creator of the proposal can perform this action.");
    assert_eq!(ProposalError::InvalidDates.message(), "The start date must be earlier than the end date.");
    assert_eq!(VotingError::AlreadyVoted.message(), "The voter has already voted on this proposal.");
    assert_eq!(VotingError::VotingClosed.message(), "Voting is closed for this proposal.");
}

#[test]
fn same_id_under_two_creators_keeps_separate_records() {
    // both creators' first proposal has id 0
    let a = stored(ident(1), 100, 200);
    let b = stored(ident(5), 100, 200);
    assert_eq!((a.id, b.id), (0, 0));
    let voter = ident(2);
    let on_a = vote_record_address(&ident(1), 0, &voter, &ident(9)).unwrap();
    let on_b = vote_record_address(&ident(5), 0, &voter, &ident(9)).unwrap();
    assert_ne!(on_a.0, on_b.0);
    let mut va = vote_ctx(a, voter);
    assert_eq!(vote_on_proposal(&mut va, VoteType::For, 150), Ok(()));
    assert_eq!(va.voter_pda, Some(VoterPDA { bump: on_a.1 }));
    let mut vb = vote_ctx(b, voter);
    assert_eq!(vote_on_proposal(&mut vb, VoteType::Against, 150), Ok(()));
    assert_eq!(vb.voter_pda, Some(VoterPDA { bump: on_b.1 }));
    assert_eq!(tallies(&vb.proposal), (0, 1, 0));
}

#[test]
fn record_vote_uses_the_given_address() {
    let mut none = vote_ctx(stored(ident(1), 100, 200), ident(2));
    assert_eq!(record_vote(&mut none, VoteType::For, 150, None), Err(VotingError::AddressUnavailable));
    assert_eq!(tallies(&none.proposal), (0, 0, 0));
    assert!(none.voter_pda.is_none());
    let mut found = vote_ctx(stored(ident(1), 100, 200), ident(2));
    assert_eq!(record_vote(&mut found, VoteType::Abstain, 150, Some((ident(7), 253))), Ok(()));
    assert_eq!(found.voter_pda, Some(VoterPDA { bump: 253 }));
    assert_eq!(tallies(&found.proposal), (0, 0, 1));
    let mut closed = vote_ctx(stored(ident(1), 100, 200), ident(2));
    assert_eq!(record_vote(&mut closed, VoteType::For, 201, None), Err(VotingError::VotingClosed));
    let mut again = vote_ctx(stored(ident(1), 100, 200), ident(2));
    again.voter_pda = Some(VoterPDA { bump: 1 });
    assert_eq!(record_vote(&mut again, VoteType::For, 150, Some((ident(7), 9))), Err(VotingError::AlreadyVoted));
    assert_eq!(again.voter_pda, Some(VoterPDA { bump: 1 }));
}

#[test]
fn full_tally_only_matters_when_counted() {
    let mut p = stored(ident(1), 100, 200);
    p.for_votes = u64::MAX;
    let mut ctx = vote_ctx(p, ident(2));
    assert_eq!(vote_on_proposal(&mut ctx, VoteType::For, 300), Err(VotingError::VotingClosed));
    assert_eq!(vote_on_proposal(&mut ctx, VoteType::Against, 150), Ok(()));
    assert_eq!(tallies(&ctx.proposal), (u64::MAX, 1, 0));
}

#[test]
fn full_counter_only_matters_on_success() {
    let mut ctx = create_ctx(ident(1), u64::MAX);
    assert_eq!(create_proposal(&mut ctx, "t".to_string(), "d".to_string(), 5, 5), Err(ProposalError::InvalidDates));
    assert_eq!(ctx.proposal_counter.count, u64::MAX);
}

#[test]
fn field_checks_in_order() {
    assert_eq!(check_proposal_fields(&"t".to_string(), &"d".to_string(), 1, 2), Ok(()));
    assert_eq!(check_proposal_fields(&"t".repeat(257), &"d".repeat(1025), 2, 1), Err(ProposalError::TitleTooLong));
    assert_eq!(check_proposal_fields(&"t".to_string(), &"d".repeat(1025), 2, 1), Err(ProposalError::DescriptionTooLong));
    assert_eq!(check_proposal_fields(&"t".to_string(), &"d".to_string(), 2, 1), Err(ProposalError::InvalidDates));
}

#[test]
fn window_bounds_are_inclusive() {
    let p = stored(ident(1), 100, 200);
    assert!(window_open(&p, 100));
    assert!(window_open(&p, 200));
    assert!(!window_open(&p, 99));
    assert!(!window_open(&p, 201));
}

#[test]
fn remaining_error_messages() {
    assert_eq!(ProposalError::TitleTooLong.message(), "The title exceeds the maximum allowed length.");
    assert_eq!(ProposalError::DescriptionTooLong.message(), "The description exceeds the maximum allowed length.");
    assert_eq!(VotingError::AddressUnavailable.message(), "No address could be derived for the vote record.");
}
