//! The per-game chain of accepted state digests.
use vstd::prelude::*;
use risc0_zkvm::Receipt;
use crate::binding::{check_cluster_proof, check_turn_proof, cluster_outcome, turn_outcome};
use crate::codec::{shot_commit_of, words_of};
use crate::receipt::journal_of;
use crate::types::{CommitField, Digest, HitType, Position, ZkError};

verus! {

/// The head of one game's digest chain: the digest of the last accepted
/// board state.
#[derive(Debug)]
pub struct DigestChain {
    head: Digest,
}

/// The chain head after an advance from `head` that expects `expected` and
/// moves to `next`, and whether the advance was accepted.
pub open spec fn advance_outcome(head: Digest, expected: Digest, next: Digest) -> (Digest, bool) {
    if head == expected {
        (next, true)
    } else {
        (head, false)
    }
}

impl DigestChain {
    pub closed spec fn spec_head(&self) -> Digest {
        self.head
    }

    /// A chain whose head is the digest of the initial board.
    pub fn new(genesis: Digest) -> (r: DigestChain)
        ensures
            r.spec_head() == genesis,
    {
        DigestChain { head: genesis }
    }

    pub fn head(&self) -> (r: Digest)
        ensures
            r == self.spec_head(),
    {
        self.head
    }

    /// Moves the head to `next` if it still is `expected`; otherwise the
    /// transition was built on a stale state and is refused.
    pub fn advance(&mut self, expected: &Digest, next: &Digest) -> (r: Result<(), ZkError>)
        ensures
            final(self).spec_head() == advance_outcome(old(self).spec_head(), *expected, *next).0,
            r is Ok == advance_outcome(old(self).spec_head(), *expected, *next).1,
            r is Err ==> r == Err::<(), ZkError>(
                ZkError::CommitmentMismatch(CommitField::OldStateDigest),
            ),
    {
        if self.head == *expected {
            self.head = *next;
            Ok(())
        } else {
            Err(ZkError::CommitmentMismatch(CommitField::OldStateDigest))
        }
    }

    /// Binds a turn's receipt, whose seal was checked against the turn
    /// program with outcome `verified`, to the current head and, if it is
    /// accepted, moves the head to the turn's new digest.
    pub fn apply_turn_proof(&mut self, receipt: Receipt, verified: bool, shot: &Position) -> (r:
        Result<HitType, ZkError>)
        ensures
            !verified ==> r == Err::<HitType, ZkError>(ZkError::InvalidReceipt),
            verified ==> ({
                let o = turn_outcome(journal_of(receipt), *shot, old(self).spec_head());
                &&& o is Ok ==> r == Ok::<HitType, ZkError>(o->Ok_0.0) && final(self).spec_head()
                    == o->Ok_0.1
                &&& o is Err ==> r == Err::<HitType, ZkError>(o->Err_0)
            }),
            r is Err ==> final(self).spec_head() == old(self).spec_head(),
    {
        match check_turn_proof(receipt, verified, shot, &self.head) {
            Ok((hit, next)) => {
                self.head = next;
                Ok(hit)
            },
            Err(e) => Err(e),
        }
    }

    /// Binds a cluster bomb's receipt, whose seal was checked against the
    /// cluster program with outcome `verified`, to the current head and, if it
    /// is accepted, moves the head to the bomb's new digest.
    pub fn apply_cluster_proof(
        &mut self,
        receipt: Receipt,
        verified: bool,
        ul: Position,
        dr: Position,
        seed: u8,
    ) -> (r: Result<(Vec<Position>, Vec<HitType>), ZkError>)
        ensures
            !verified ==> r == Err::<(Vec<Position>, Vec<HitType>), ZkError>(ZkError::InvalidReceipt),
            verified ==> ({
                let o = cluster_outcome(journal_of(receipt), ul, dr, seed, old(self).spec_head());
                &&& o is Ok ==> r is Ok && r->Ok_0.0@ == o->Ok_0.0 && r->Ok_0.1@ == o->Ok_0.1
                    && final(self).spec_head() == o->Ok_0.2
                &&& o is Err ==> r == Err::<(Vec<Position>, Vec<HitType>), ZkError>(o->Err_0)
            }),
            r is Err ==> final(self).spec_head() == old(self).spec_head(),
    {
        let head = self.head;
        match check_cluster_proof(receipt, verified, ul, dr, seed, head) {
            Ok((shots, hits, next)) => {
                self.head = next;
                Ok((shots, hits))
            },
            Err(e) => Err(e),
        }
    }
}

/// Two transitions built on the same head: once the first has moved the head
/// to a different digest, the second is refused and the head stays where the
/// first put it.
pub proof fn lemma_only_one_advance_from_a_head(head: Digest, next1: Digest, next2: Digest)
    requires
        next1 != head,
    ensures
        advance_outcome(head, head, next1) == (next1, true),
        advance_outcome(advance_outcome(head, head, next1).0, head, next2) == (next1, false),
{
}

/// Once a turn's proof has moved the chain from `d0` to a different digest,
/// any turn proof whose commitment also starts from `d0`, the same one
/// included, is refused as stale.
pub proof fn lemma_stale_turn_refused(j1: Seq<u8>, s1: Position, j2: Seq<u8>, s2: Position, d0: Digest)
    requires
        turn_outcome(j1, s1, d0) is Ok,
        turn_outcome(j1, s1, d0)->Ok_0.1 != d0,
        shot_commit_of(words_of(j2)) is Some,
        shot_commit_of(words_of(j2))->0.old_state_digest == d0,
    ensures
        turn_outcome(j2, s2, turn_outcome(j1, s1, d0)->Ok_0.1) == Err::<(HitType, Digest), ZkError>(
            ZkError::CommitmentMismatch(CommitField::OldStateDigest),
        ),
{
}

} // verus!
