//! Verification of an action's proof: cryptographic validity against the
//! action's program, then the binding of the decoded commitment to the values
//! that the verifying party asked for.
use vstd::prelude::*;
use risc0_zkvm::Receipt;
use crate::codec::{
    cluster_commit_of, decode_cluster_commit, decode_scout_result, decode_shot_commit,
    journal_words, scout_result_of, shot_commit_of, words_of,
};
use crate::types::ShotCommit;
use crate::receipt::{journal_of, receipt_journal};
use crate::types::{CommitField, Digest, HitType, Position, ZkError};

verus! {

/// What a turn's journal yields when bound to the requested shot and the
/// caller's current digest: the hit outcome and the new digest.
pub open spec fn turn_outcome(journal: Seq<u8>, shot: Position, old_state: Digest) -> Result<
    (HitType, Digest),
    ZkError,
> {
    match shot_commit_of(words_of(journal)) {
        None => Err(ZkError::MalformedJournal),
        Some(c) => if c.old_state_digest != old_state {
            Err(ZkError::CommitmentMismatch(CommitField::OldStateDigest))
        } else if c.shot != shot {
            Err(ZkError::CommitmentMismatch(CommitField::Shot))
        } else {
            Ok((c.hit, c.new_state_digest))
        },
    }
}

/// What a scout's journal yields when bound to the scouted position: the
/// outcome of each cell of the area.
pub open spec fn scout_outcome(journal: Seq<u8>, shot: Position) -> Result<Seq<HitType>, ZkError> {
    match scout_result_of(words_of(journal)) {
        None => Err(ZkError::MalformedJournal),
        Some(s) => if s.shot != shot {
            Err(ZkError::CommitmentMismatch(CommitField::Shot))
        } else {
            Ok(s.cells)
        },
    }
}

/// What a cluster bomb's journal yields when bound to the requested
/// rectangle, seed and current digest: the cells hit, their outcomes and the
/// new digest.
pub open spec fn cluster_outcome(
    journal: Seq<u8>,
    ul: Position,
    dr: Position,
    seed: u8,
    old_state: Digest,
) -> Result<(Seq<Position>, Seq<HitType>, Digest), ZkError> {
    match cluster_commit_of(words_of(journal)) {
        None => Err(ZkError::MalformedJournal),
        Some(c) => if c.old_state_digest != old_state {
            Err(ZkError::CommitmentMismatch(CommitField::OldStateDigest))
        } else if c.config.upper_left_coordinates != ul {
            Err(ZkError::CommitmentMismatch(CommitField::UpperLeft))
        } else if c.config.down_right_coordinates != dr {
            Err(ZkError::CommitmentMismatch(CommitField::DownRight))
        } else if c.config.seed != seed {
            Err(ZkError::CommitmentMismatch(CommitField::Seed))
        } else {
            Ok((c.shots, c.hits, c.new_state_digest))
        },
    }
}

/// The cells that a cluster bomb's journal says were hit, as its creator
/// reads them.
pub open spec fn cluster_shots_outcome(journal: Seq<u8>) -> Result<Seq<Position>, ZkError> {
    match cluster_commit_of(words_of(journal)) {
        None => Err(ZkError::MalformedJournal),
        Some(c) => Ok(c.shots),
    }
}

/// Whether an executable scout result is the outcome `o`.
pub open spec fn scout_matches(r: Result<Vec<HitType>, ZkError>, o: Result<Seq<HitType>, ZkError>) -> bool {
    match (r, o) {
        (Ok(cells), Ok(want)) => cells@ == want,
        (Err(e), Err(want)) => e == want,
        _ => false,
    }
}

/// Whether an executable cluster result is the outcome `o`.
pub open spec fn cluster_matches(
    r: Result<(Vec<Position>, Vec<HitType>, Digest), ZkError>,
    o: Result<(Seq<Position>, Seq<HitType>, Digest), ZkError>,
) -> bool {
    match (r, o) {
        (Ok(got), Ok(want)) => got.0@ == want.0 && got.1@ == want.1 && got.2 == want.2,
        (Err(e), Err(want)) => e == want,
        _ => false,
    }
}

/// Whether an executable list of cells is the outcome `o`.
pub open spec fn shots_match(r: Result<Vec<Position>, ZkError>, o: Result<Seq<Position>, ZkError>) -> bool {
    match (r, o) {
        (Ok(got), Ok(want)) => got@ == want,
        (Err(e), Err(want)) => e == want,
        _ => false,
    }
}

/// Accepts any receipt of the init program whose seal was found valid:
/// an init proof has no prior state to bind against.
pub fn check_init_proof(verified: bool) -> (r: Result<(), ZkError>)
    ensures
        verified ==> r == Ok::<(), ZkError>(()),
        !verified ==> r == Err::<(), ZkError>(ZkError::InvalidReceipt),
{
    if verified {
        Ok(())
    } else {
        Err(ZkError::InvalidReceipt)
    }
}

/// Binds a turn's journal to the requested shot and the current digest.
pub fn check_turn_journal(journal: &Vec<u8>, shot: &Position, old_state: &Digest) -> (r: Result<
    (HitType, Digest),
    ZkError,
>)
    ensures
        r == turn_outcome(journal@, *shot, *old_state),
{
    let words = journal_words(journal);
    match decode_shot_commit(&words) {
        None => Err(ZkError::MalformedJournal),
        Some(c) => {
            if c.old_state_digest != *old_state {
                Err(ZkError::CommitmentMismatch(CommitField::OldStateDigest))
            } else if c.shot != *shot {
                Err(ZkError::CommitmentMismatch(CommitField::Shot))
            } else {
                Ok((c.hit, c.new_state_digest))
            }
        },
    }
}

/// Binds a scout's journal to the scouted position.
pub fn check_scout_journal(journal: &Vec<u8>, shot: &Position) -> (r: Result<Vec<HitType>, ZkError>)
    ensures
        scout_matches(r, scout_outcome(journal@, *shot)),
{
    let words = journal_words(journal);
    match decode_scout_result(&words) {
        None => Err(ZkError::MalformedJournal),
        Some(s) => {
            if s.shot != *shot {
                Err(ZkError::CommitmentMismatch(CommitField::Shot))
            } else {
                Ok(s.cells)
            }
        },
    }
}

/// Binds a cluster bomb's journal to the requested rectangle, seed and
/// current digest.
pub fn check_cluster_journal(
    journal: &Vec<u8>,
    ul: Position,
    dr: Position,
    seed: u8,
    old_state: Digest,
) -> (r: Result<(Vec<Position>, Vec<HitType>, Digest), ZkError>)
    ensures
        cluster_matches(r, cluster_outcome(journal@, ul, dr, seed, old_state)),
{
    let words = journal_words(journal);
    match decode_cluster_commit(&words) {
        None => Err(ZkError::MalformedJournal),
        Some(c) => {
            if c.old_state_digest != old_state {
                Err(ZkError::CommitmentMismatch(CommitField::OldStateDigest))
            } else if c.config.upper_left_coordinates != ul {
                Err(ZkError::CommitmentMismatch(CommitField::UpperLeft))
            } else if c.config.down_right_coordinates != dr {
                Err(ZkError::CommitmentMismatch(CommitField::DownRight))
            } else if c.config.seed != seed {
                Err(ZkError::CommitmentMismatch(CommitField::Seed))
            } else {
                Ok((c.shots, c.hits, c.new_state_digest))
            }
        },
    }
}

/// Reads the cells hit from a cluster bomb's journal.
pub fn cluster_journal_shots(journal: &Vec<u8>) -> (r: Result<Vec<Position>, ZkError>)
    ensures
        shots_match(r, cluster_shots_outcome(journal@)),
{
    let words = journal_words(journal);
    match decode_cluster_commit(&words) {
        None => Err(ZkError::MalformedJournal),
        Some(c) => Ok(c.shots),
    }
}

/// Binds a turn's receipt, whose seal was checked against the turn program
/// with outcome `verified`, to the requested shot and the current digest.
pub fn check_turn_proof(receipt: Receipt, verified: bool, shot: &Position, old_state: &Digest) -> (r:
    Result<(HitType, Digest), ZkError>)
    ensures
        !verified ==> r == Err::<(HitType, Digest), ZkError>(ZkError::InvalidReceipt),
        verified ==> r == turn_outcome(journal_of(receipt), *shot, *old_state),
{
    if !verified {
        return Err(ZkError::InvalidReceipt);
    }
    let journal = receipt_journal(&receipt);
    check_turn_journal(&journal, shot, old_state)
}

/// Binds a scout's receipt, whose seal was checked against the scout program
/// with outcome `verified`, to the scouted position.
pub fn check_scout_proof(receipt: Receipt, verified: bool, shot: &Position) -> (r: Result<
    Vec<HitType>,
    ZkError,
>)
    ensures
        !verified ==> r == Err::<Vec<HitType>, ZkError>(ZkError::InvalidReceipt),
        verified ==> scout_matches(r, scout_outcome(journal_of(receipt), *shot)),
{
    if !verified {
        return Err(ZkError::InvalidReceipt);
    }
    let journal = receipt_journal(&receipt);
    check_scout_journal(&journal, shot)
}

/// Binds a cluster bomb's receipt, whose seal was checked against the cluster
/// program with outcome `verified`, to the requested rectangle, seed and
/// current digest.
pub fn check_cluster_proof(
    receipt: Receipt,
    verified: bool,
    ul: Position,
    dr: Position,
    seed: u8,
    old_state: Digest,
) -> (r: Result<(Vec<Position>, Vec<HitType>, Digest), ZkError>)
    ensures
        !verified ==> r == Err::<(Vec<Position>, Vec<HitType>, Digest), ZkError>(
            ZkError::InvalidReceipt,
        ),
        verified ==> cluster_matches(r, cluster_outcome(journal_of(receipt), ul, dr, seed, old_state)),
{
    if !verified {
        return Err(ZkError::InvalidReceipt);
    }
    let journal = receipt_journal(&receipt);
    check_cluster_journal(&journal, ul, dr, seed, old_state)
}

/// The cells that a freshly made cluster bomb receipt says were hit, read
/// from its journal.
pub fn cluster_proof_shots(receipt: &Receipt) -> (r: Result<Vec<Position>, ZkError>)
    ensures
        shots_match(r, cluster_shots_outcome(journal_of(*receipt))),
{
    let journal = receipt_journal(receipt);
    cluster_journal_shots(&journal)
}

/// A decodable turn commitment is accepted exactly when its old digest is the
/// caller's digest and its shot is the requested one; it then yields its hit
/// and new digest, and any other commitment is refused as a mismatch.
pub proof fn lemma_turn_binding(journal: Seq<u8>, shot: Position, old_state: Digest)
    requires
        shot_commit_of(words_of(journal)) is Some,
    ensures
        ({
            let c: ShotCommit = shot_commit_of(words_of(journal))->0;
            let o = turn_outcome(journal, shot, old_state);
            &&& o is Ok <==> (c.old_state_digest == old_state && c.shot == shot)
            &&& o is Ok ==> o->Ok_0 == (c.hit, c.new_state_digest)
            &&& o is Err ==> o->Err_0 is CommitmentMismatch
        }),
{
}

/// The cells and outcomes that an accepted cluster bomb yields have the same
/// length, and the cells are those its creator reads from the same journal.
pub proof fn lemma_cluster_round_trip(
    journal: Seq<u8>,
    ul: Position,
    dr: Position,
    seed: u8,
    old_state: Digest,
)
    requires
        cluster_outcome(journal, ul, dr, seed, old_state) is Ok,
    ensures
        ({
            let o = cluster_outcome(journal, ul, dr, seed, old_state)->Ok_0;
            &&& o.0.len() == o.1.len()
            &&& cluster_shots_outcome(journal) == Ok::<Seq<Position>, ZkError>(o.0)
        }),
{
    reveal(cluster_commit_of);
}

/// Checking the same turn journal twice against the same expected values
/// gives the same result both times.
pub proof fn lemma_turn_check_repeatable(
    journal: Seq<u8>,
    shot: Position,
    old_state: Digest,
    r1: Result<(HitType, Digest), ZkError>,
    r2: Result<(HitType, Digest), ZkError>,
)
    requires
        r1 == turn_outcome(journal, shot, old_state),
        r2 == turn_outcome(journal, shot, old_state),
    ensures
        r1 == r2,
{
}

/// Checking the same cluster bomb journal twice against the same expected
/// values gives the same result both times.
pub proof fn lemma_cluster_check_repeatable(
    journal: Seq<u8>,
    ul: Position,
    dr: Position,
    seed: u8,
    old_state: Digest,
    r1: Result<(Vec<Position>, Vec<HitType>, Digest), ZkError>,
    r2: Result<(Vec<Position>, Vec<HitType>, Digest), ZkError>,
)
    requires
        cluster_matches(r1, cluster_outcome(journal, ul, dr, seed, old_state)),
        cluster_matches(r2, cluster_outcome(journal, ul, dr, seed, old_state)),
    ensures
        r1 is Ok <==> r2 is Ok,
        r1 is Ok ==> r1->Ok_0.0@ == r2->Ok_0.0@ && r1->Ok_0.1@ == r2->Ok_0.1@ && r1->Ok_0.2
            == r2->Ok_0.2,
        r1 is Err ==> r1->Err_0 == r2->Err_0,
{
}

/// Checking the same turn receipt twice, with the same seal outcome and the
/// same expected values, gives the same result both times.
pub proof fn lemma_turn_proof_repeatable(
    receipt: Receipt,
    verified: bool,
    shot: Position,
    old_state: Digest,
    r1: Result<(HitType, Digest), ZkError>,
    r2: Result<(HitType, Digest), ZkError>,
)
    requires
        !verified ==> r1 == Err::<(HitType, Digest), ZkError>(ZkError::InvalidReceipt),
        verified ==> r1 == turn_outcome(journal_of(receipt), shot, old_state),
        !verified ==> r2 == Err::<(HitType, Digest), ZkError>(ZkError::InvalidReceipt),
        verified ==> r2 == turn_outcome(journal_of(receipt), shot, old_state),
    ensures
        r1 == r2,
{
}

} // verus!
