use risc0_zkvm::{FakeReceipt, InnerReceipt, Receipt, ReceiptClaim};
use sagittarius_zk::action::{bind_journal, expected_program, verify_action, ActionResult, Expected};
use sagittarius_zk::binding::{
    check_cluster_journal, check_cluster_proof, check_init_proof, check_scout_journal,
    check_scout_proof, check_turn_journal, check_turn_proof, cluster_journal_shots,
    cluster_proof_shots,
};
use sagittarius_zk::chain::DigestChain;
use sagittarius_zk::codec::{
    cluster_input, decode_shot_commit, init_input, journal_words, scout_input, turn_input,
};
use sagittarius_zk::registry::{ActionKind, ProgramRegistry};
use sagittarius_zk::types::{
    ClusterBombParams, ClusterConfig, CommitField, Digest, GameState, HitType, Position,
    ScoutParams, ShotParams, ZkError,
};

fn digest(base: u32) -> Digest {
    Digest::from_words([base, base + 1, base + 2, base + 3, base + 4, base + 5, base + 6, base + 7])
}

fn bytes_of(words: &[u32]) -> Vec<u8> {
    let mut out = Vec::new();
    for w in words {
        out.extend_from_slice(&w.to_le_bytes());
    }
    out
}

fn turn_journal(old: Digest, new: Digest, shot: (u32, u32), hit: u32) -> Vec<u8> {
    let mut w = Vec::new();
    w.extend_from_slice(&old.to_words());
    w.extend_from_slice(&new.to_words());
    w.push(shot.0);
    w.push(shot.1);
    w.push(hit);
    bytes_of(&w)
}

fn cluster_words(old: Digest, new: Digest, seed: u32) -> Vec<u32> {
    let mut w = Vec::new();
    w.extend_from_slice(&old.to_words());
    w.extend_from_slice(&new.to_words());
    w.extend_from_slice(&[0, 0, 2, 2, seed]);
    w.extend_from_slice(&[2, 0, 0, 1, 1]);
    w.extend_from_slice(&[2, 0, 1]);
    w
}

fn registry() -> ProgramRegistry {
    ProgramRegistry::new(digest(100), digest(200), digest(300), digest(400))
}

fn fake_receipt(image_id: Digest, journal: Vec<u8>) -> Receipt {
    let id = risc0_zkvm::sha::Digest::from(image_id.to_words());
    let claim = ReceiptClaim::ok(id, journal.clone());
    Receipt::new(InnerReceipt::Fake(FakeReceipt::new(claim)), journal)
}

#[test]
fn turn_scenario_accepts_requested_shot() {
    let j = turn_journal(digest(1), digest(11), (3, 4), 1);
    let r = check_turn_journal(&j, &Position::new(3, 4), &digest(1));
    assert_eq!(r, Ok((HitType::Hit, digest(11))));
}

#[test]
fn turn_scenario_refuses_other_shot() {
    let j = turn_journal(digest(1), digest(11), (3, 4), 1);
    let r = check_turn_journal(&j, &Position::new(3, 5), &digest(1));
    assert_eq!(r, Err(ZkError::CommitmentMismatch(CommitField::Shot)));
}

#[test]
fn turn_refuses_other_old_digest() {
    let j = turn_journal(digest(1), digest(11), (3, 4), 2);
    let r = check_turn_journal(&j, &Position::new(3, 4), &digest(2));
    assert_eq!(r, Err(ZkError::CommitmentMismatch(CommitField::OldStateDigest)));
    let both = check_turn_journal(&j, &Position::new(9, 9), &digest(2));
    assert_eq!(both, Err(ZkError::CommitmentMismatch(CommitField::OldStateDigest)));
}

#[test]
fn turn_checked_twice_gives_same_result() {
    let j = turn_journal(digest(1), digest(11), (0, 7), 2);
    let a = check_turn_journal(&j, &Position::new(0, 7), &digest(1));
    let b = check_turn_journal(&j, &Position::new(0, 7), &digest(1));
    assert_eq!(a, b);
    assert_eq!(a, Ok((HitType::Sunk, digest(11))));
}

#[test]
fn turn_malformed_journals() {
    let short = turn_journal(digest(1), digest(11), (3, 4), 1);
    let r = check_turn_journal(&short[..70].to_vec(), &Position::new(3, 4), &digest(1));
    assert_eq!(r, Err(ZkError::MalformedJournal));
    let bad_hit = turn_journal(digest(1), digest(11), (3, 4), 3);
    let r = check_turn_journal(&bad_hit, &Position::new(3, 4), &digest(1));
    assert_eq!(r, Err(ZkError::MalformedJournal));
    let r = check_turn_journal(&Vec::new(), &Position::new(3, 4), &digest(1));
    assert_eq!(r, Err(ZkError::MalformedJournal));
}

#[test]
fn journal_words_little_endian_and_padded() {
    let w = journal_words(&vec![1, 2, 3, 4, 5]);
    assert_eq!(w, vec![0x0403_0201, 5]);
    assert_eq!(journal_words(&Vec::new()), Vec::<u32>::new());
}

#[test]
fn decode_shot_commit_fields() {
    let j = turn_journal(digest(1), digest(11), (3, 4), 0);
    let c = decode_shot_commit(&journal_words(&j)).unwrap();
    assert_eq!(c.old_state_digest, digest(1));
    assert_eq!(c.new_state_digest, digest(11));
    assert_eq!(c.shot, Position::new(3, 4));
    assert_eq!(c.hit, HitType::Miss);
}

#[test]
fn cluster_scenario_wrong_seed_refused() {
    let j = bytes_of(&cluster_words(digest(1), digest(11), 7));
    let r = check_cluster_journal(&j, Position::new(0, 0), Position::new(2, 2), 8, digest(1));
    assert_eq!(r, Err(ZkError::CommitmentMismatch(CommitField::Seed)));
}

#[test]
fn cluster_scenario_right_seed_accepted() {
    let j = bytes_of(&cluster_words(digest(1), digest(11), 7));
    let r = check_cluster_journal(&j, Position::new(0, 0), Position::new(2, 2), 7, digest(1));
    let (shots, hits, next) = r.unwrap();
    assert_eq!(shots, vec![Position::new(0, 0), Position::new(1, 1)]);
    assert_eq!(hits, vec![HitType::Miss, HitType::Hit]);
    assert_eq!(next, digest(11));
}

#[test]
fn cluster_shots_same_at_creation_and_verification() {
    let j = bytes_of(&cluster_words(digest(1), digest(11), 7));
    let created = cluster_journal_shots(&j).unwrap();
    let (shots, hits, _) =
        check_cluster_journal(&j, Position::new(0, 0), Position::new(2, 2), 7, digest(1)).unwrap();
    assert_eq!(created, shots);
    assert_eq!(shots.len(), hits.len());
}

#[test]
fn cluster_field_mismatches() {
    let j = bytes_of(&cluster_words(digest(1), digest(11), 7));
    let ul = Position::new(0, 0);
    let dr = Position::new(2, 2);
    assert_eq!(
        check_cluster_journal(&j, ul, dr, 7, digest(2)),
        Err(ZkError::CommitmentMismatch(CommitField::OldStateDigest))
    );
    assert_eq!(
        check_cluster_journal(&j, Position::new(0, 1), dr, 7, digest(1)),
        Err(ZkError::CommitmentMismatch(CommitField::UpperLeft))
    );
    assert_eq!(
        check_cluster_journal(&j, ul, Position::new(3, 2), 7, digest(1)),
        Err(ZkError::CommitmentMismatch(CommitField::DownRight))
    );
}

#[test]
fn cluster_unequal_lengths_malformed() {
    let mut w = cluster_words(digest(1), digest(11), 7);
    w.truncate(w.len() - 3);
    w.extend_from_slice(&[1, 0]);
    let j = bytes_of(&w);
    let r = check_cluster_journal(&j, Position::new(0, 0), Position::new(2, 2), 7, digest(1));
    assert_eq!(r, Err(ZkError::MalformedJournal));
    assert_eq!(cluster_journal_shots(&j), Err(ZkError::MalformedJournal));
}

#[test]
fn cluster_seed_out_of_byte_range_malformed() {
    let j = bytes_of(&cluster_words(digest(1), digest(11), 263));
    let r = check_cluster_journal(&j, Position::new(0, 0), Position::new(2, 2), 7, digest(1));
    assert_eq!(r, Err(ZkError::MalformedJournal));
}

#[test]
fn scout_binding() {
    let j = bytes_of(&[5, 6, 3, 0, 1, 2]);
    let ok = check_scout_journal(&j, &Position::new(5, 6));
    assert_eq!(ok, Ok(vec![HitType::Miss, HitType::Hit, HitType::Sunk]));
    let other = check_scout_journal(&j, &Position::new(6, 5));
    assert_eq!(other, Err(ZkError::CommitmentMismatch(CommitField::Shot)));
    let short = bytes_of(&[5, 6, 4, 0, 1, 2]);
    assert_eq!(check_scout_journal(&short, &Position::new(5, 6)), Err(ZkError::MalformedJournal));
}

#[test]
fn chain_race_only_one_advance() {
    let mut chain = DigestChain::new(digest(1));
    assert_eq!(chain.advance(&digest(1), &digest(11)), Ok(()));
    assert_eq!(
        chain.advance(&digest(1), &digest(21)),
        Err(ZkError::CommitmentMismatch(CommitField::OldStateDigest))
    );
    assert_eq!(chain.head(), digest(11));
}

#[test]
fn init_accepted_exactly_when_seal_valid() {
    assert_eq!(check_init_proof(true), Ok(()));
    assert_eq!(check_init_proof(false), Err(ZkError::InvalidReceipt));
}

#[test]
fn registry_image_ids() {
    let r = registry();
    assert_eq!(r.image_id(ActionKind::Init), digest(100));
    assert_eq!(r.image_id(ActionKind::Turn), digest(200));
    assert_eq!(r.image_id(ActionKind::Scout), digest(300));
    assert_eq!(r.image_id(ActionKind::Cluster), digest(400));
}

#[test]
fn input_encodings() {
    let state = GameState { encoded: vec![9, 8, 7] };
    assert_eq!(init_input(&state), vec![9, 8, 7]);
    let shot = ShotParams { state: state.clone(), shot: Position::new(3, 4) };
    assert_eq!(turn_input(&shot), vec![9, 8, 7, 3, 4]);
    let scout = ScoutParams { state: state.clone(), shot: Position::new(1, 2) };
    assert_eq!(scout_input(&scout), vec![9, 8, 7, 1, 2]);
    let config = ClusterConfig {
        upper_left_coordinates: Position::new(0, 0),
        down_right_coordinates: Position::new(2, 2),
        seed: 7,
    };
    let cluster = ClusterBombParams { state, config };
    assert_eq!(cluster_input(&cluster), vec![9, 8, 7, 0, 0, 2, 2, 7]);
}

#[test]
fn unverified_receipts_are_invalid() {
    let j = turn_journal(digest(1), digest(11), (3, 4), 1);
    let turn = fake_receipt(digest(200), j);
    let r = check_turn_proof(turn, false, &Position::new(3, 4), &digest(1));
    assert_eq!(r, Err(ZkError::InvalidReceipt));
    let scout = fake_receipt(digest(300), bytes_of(&[5, 6, 0]));
    assert_eq!(check_scout_proof(scout, false, &Position::new(5, 6)), Err(ZkError::InvalidReceipt));
    let cluster = fake_receipt(digest(400), bytes_of(&cluster_words(digest(1), digest(11), 7)));
    let r = check_cluster_proof(cluster, false, Position::new(0, 0), Position::new(2, 2), 7, digest(1));
    assert_eq!(r, Err(ZkError::InvalidReceipt));
}

#[test]
fn turn_receipt_bound_to_its_journal() {
    let j = turn_journal(digest(1), digest(11), (3, 4), 1);
    let ok = check_turn_proof(fake_receipt(digest(200), j.clone()), true, &Position::new(3, 4), &digest(1));
    assert_eq!(ok, Ok((HitType::Hit, digest(11))));
    let other = check_turn_proof(fake_receipt(digest(200), j), true, &Position::new(3, 5), &digest(1));
    assert_eq!(other, Err(ZkError::CommitmentMismatch(CommitField::Shot)));
}

#[test]
fn scout_and_cluster_receipts_bound_to_their_journals() {
    let scout = fake_receipt(digest(300), bytes_of(&[5, 6, 1, 0]));
    assert_eq!(check_scout_proof(scout, true, &Position::new(5, 6)), Ok(vec![HitType::Miss]));
    let cj = bytes_of(&cluster_words(digest(1), digest(11), 7));
    let r = check_cluster_proof(fake_receipt(digest(400), cj.clone()), true, Position::new(0, 0), Position::new(2, 2), 8, digest(1));
    assert_eq!(r, Err(ZkError::CommitmentMismatch(CommitField::Seed)));
    let (shots, hits, next) =
        check_cluster_proof(fake_receipt(digest(400), cj), true, Position::new(0, 0), Position::new(2, 2), 7, digest(1))
            .unwrap();
    assert_eq!(shots, vec![Position::new(0, 0), Position::new(1, 1)]);
    assert_eq!(hits, vec![HitType::Miss, HitType::Hit]);
    assert_eq!(next, digest(11));
}

#[test]
fn refused_receipt_leaves_chain_head() {
    let mut chain = DigestChain::new(digest(1));
    let turn = fake_receipt(digest(200), turn_journal(digest(1), digest(11), (3, 4), 1));
    assert_eq!(chain.apply_turn_proof(turn, false, &Position::new(3, 4)), Err(ZkError::InvalidReceipt));
    let stale = fake_receipt(digest(200), turn_journal(digest(5), digest(11), (3, 4), 1));
    assert_eq!(
        chain.apply_turn_proof(stale, true, &Position::new(3, 4)),
        Err(ZkError::CommitmentMismatch(CommitField::OldStateDigest))
    );
    let cluster = fake_receipt(digest(400), bytes_of(&cluster_words(digest(1), digest(11), 7)));
    let r = chain.apply_cluster_proof(cluster, true, Position::new(0, 0), Position::new(2, 2), 9);
    assert!(r.is_err());
    assert_eq!(chain.head(), digest(1));
}

#[test]
fn accepted_turn_advances_chain_once() {
    let mut chain = DigestChain::new(digest(1));
    let j = turn_journal(digest(1), digest(11), (3, 4), 2);
    let first = chain.apply_turn_proof(fake_receipt(digest(200), j.clone()), true, &Position::new(3, 4));
    assert_eq!(first, Ok(HitType::Sunk));
    assert_eq!(chain.head(), digest(11));
    let replay = chain.apply_turn_proof(fake_receipt(digest(200), j), true, &Position::new(3, 4));
    assert_eq!(replay, Err(ZkError::CommitmentMismatch(CommitField::OldStateDigest)));
    assert_eq!(chain.head(), digest(11));
}

#[test]
fn accepted_cluster_advances_chain() {
    let mut chain = DigestChain::new(digest(1));
    let cj = bytes_of(&cluster_words(digest(1), digest(11), 7));
    let (shots, hits) = chain
        .apply_cluster_proof(fake_receipt(digest(400), cj), true, Position::new(0, 0), Position::new(2, 2), 7)
        .unwrap();
    assert_eq!(shots.len(), hits.len());
    assert_eq!(chain.head(), digest(11));
}

#[test]
fn created_cluster_receipt_shots() {
    let cluster = fake_receipt(digest(400), bytes_of(&cluster_words(digest(1), digest(11), 7)));
    let shots = cluster_proof_shots(&cluster).unwrap();
    assert_eq!(shots, vec![Position::new(0, 0), Position::new(1, 1)]);
}

#[test]
fn bind_journal_per_kind() {
    let j = turn_journal(digest(1), digest(11), (3, 4), 1);
    assert!(matches!(bind_journal(&j, &Expected::Init), Ok(ActionResult::Init)));
    assert!(matches!(bind_journal(&Vec::new(), &Expected::Init), Ok(ActionResult::Init)));
    let turn = Expected::Turn { shot: Position::new(3, 4), old_state: digest(1) };
    match bind_journal(&j, &turn) {
        Ok(ActionResult::Turn { hit, new_state }) => {
            assert_eq!(hit, HitType::Hit);
            assert_eq!(new_state, digest(11));
        }
        other => panic!("unexpected {:?}", other),
    }
    let wrong = Expected::Turn { shot: Position::new(3, 5), old_state: digest(1) };
    assert!(matches!(
        bind_journal(&j, &wrong),
        Err(ZkError::CommitmentMismatch(CommitField::Shot))
    ));
    let cj = bytes_of(&cluster_words(digest(1), digest(11), 7));
    let cluster = Expected::Cluster {
        ul: Position::new(0, 0),
        dr: Position::new(2, 2),
        seed: 8,
        old_state: digest(1),
    };
    assert!(matches!(
        bind_journal(&cj, &cluster),
        Err(ZkError::CommitmentMismatch(CommitField::Seed))
    ));
    let scout = Expected::Scout { shot: Position::new(5, 6) };
    match bind_journal(&bytes_of(&[5, 6, 1, 2]), &scout) {
        Ok(ActionResult::Scout { cells }) => assert_eq!(cells, vec![HitType::Sunk]),
        other => panic!("unexpected {:?}", other),
    }
    assert_eq!(scout.kind(), ActionKind::Scout);
}

#[test]
fn verify_action_binds_receipt() {
    let receipt = fake_receipt(digest(100), Vec::new());
    assert!(matches!(verify_action(&receipt, false, &Expected::Init), Err(ZkError::InvalidReceipt)));
    assert!(matches!(verify_action(&receipt, true, &Expected::Init), Ok(ActionResult::Init)));
    let j = turn_journal(digest(1), digest(11), (3, 4), 0);
    let turn = fake_receipt(digest(200), j);
    let expected = Expected::Turn { shot: Position::new(3, 4), old_state: digest(2) };
    assert!(matches!(
        verify_action(&turn, true, &expected),
        Err(ZkError::CommitmentMismatch(CommitField::OldStateDigest))
    ));
    assert_eq!(expected_program(&registry(), &expected), digest(200));
    assert_eq!(expected_program(&registry(), &Expected::Init), digest(100));
}
