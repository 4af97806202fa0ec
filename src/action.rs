//! One entry point for every action kind: what the verifying party expects,
//! and what an accepted proof yields, as closed variants over the catalog.
use vstd::prelude::*;
use risc0_zkvm::Receipt;
use crate::binding::{
    check_cluster_journal, check_scout_journal, check_turn_journal, cluster_outcome, scout_outcome,
    turn_outcome,
};
use crate::receipt::{journal_of, receipt_journal};
use crate::registry::{ActionKind, ProgramRegistry};
use crate::types::{Digest, HitType, Position, ZkError};

verus! {

/// The public values that the verifying party asked for, per action kind.
#[derive(Clone, Copy, Debug)]
pub enum Expected {
    Init,
    Turn { shot: Position, old_state: Digest },
    Scout { shot: Position },
    Cluster { ul: Position, dr: Position, seed: u8, old_state: Digest },
}

/// What an accepted proof yields, per action kind.
#[derive(Clone, Debug)]
pub enum ActionResult {
    Init,
    Turn { hit: HitType, new_state: Digest },
    Scout { cells: Vec<HitType> },
    Cluster { shots: Vec<Position>, hits: Vec<HitType>, new_state: Digest },
}

/// Mathematical value of an [`ActionResult`].
pub enum ActionResultView {
    Init,
    Turn { hit: HitType, new_state: Digest },
    Scout { cells: Seq<HitType> },
    Cluster { shots: Seq<Position>, hits: Seq<HitType>, new_state: Digest },
}

impl View for ActionResult {
    type V = ActionResultView;

    open spec fn view(&self) -> ActionResultView {
        match self {
            ActionResult::Init => ActionResultView::Init,
            ActionResult::Turn { hit, new_state } => ActionResultView::Turn {
                hit: *hit,
                new_state: *new_state,
            },
            ActionResult::Scout { cells } => ActionResultView::Scout { cells: cells@ },
            ActionResult::Cluster { shots, hits, new_state } => ActionResultView::Cluster {
                shots: shots@,
                hits: hits@,
                new_state: *new_state,
            },
        }
    }
}

impl Expected {
    pub open spec fn spec_kind(&self) -> ActionKind {
        match self {
            Expected::Init => ActionKind::Init,
            Expected::Turn { .. } => ActionKind::Turn,
            Expected::Scout { .. } => ActionKind::Scout,
            Expected::Cluster { .. } => ActionKind::Cluster,
        }
    }

    /// The action kind whose proof these values are expected of.
    pub fn kind(&self) -> (r: ActionKind)
        ensures
            r == self.spec_kind(),
    {
        match self {
            Expected::Init => ActionKind::Init,
            Expected::Turn { .. } => ActionKind::Turn,
            Expected::Scout { .. } => ActionKind::Scout,
            Expected::Cluster { .. } => ActionKind::Cluster,
        }
    }
}

/// What a journal yields when bound to the expected values of its action.
/// An init journal is accepted whatever it holds.
pub open spec fn action_outcome(journal: Seq<u8>, expected: Expected) -> Result<ActionResultView, ZkError> {
    match expected {
        Expected::Init => Ok(ActionResultView::Init),
        Expected::Turn { shot, old_state } => match turn_outcome(journal, shot, old_state) {
            Ok((hit, new_state)) => Ok(ActionResultView::Turn { hit, new_state }),
            Err(e) => Err(e),
        },
        Expected::Scout { shot } => match scout_outcome(journal, shot) {
            Ok(cells) => Ok(ActionResultView::Scout { cells }),
            Err(e) => Err(e),
        },
        Expected::Cluster { ul, dr, seed, old_state } => match cluster_outcome(
            journal,
            ul,
            dr,
            seed,
            old_state,
        ) {
            Ok((shots, hits, new_state)) => Ok(ActionResultView::Cluster { shots, hits, new_state }),
            Err(e) => Err(e),
        },
    }
}

/// Whether an executable action result is the outcome `o`.
pub open spec fn action_matches(r: Result<ActionResult, ZkError>, o: Result<ActionResultView, ZkError>) -> bool {
    match (r, o) {
        (Ok(got), Ok(want)) => got@ == want,
        (Err(e), Err(want)) => e == want,
        _ => false,
    }
}

/// Binds a journal to the expected values of its action.
pub fn bind_journal(journal: &Vec<u8>, expected: &Expected) -> (r: Result<ActionResult, ZkError>)
    ensures
        action_matches(r, action_outcome(journal@, *expected)),
{
    match *expected {
        Expected::Init => Ok(ActionResult::Init),
        Expected::Turn { shot, old_state } => match check_turn_journal(journal, &shot, &old_state) {
            Ok((hit, new_state)) => Ok(ActionResult::Turn { hit, new_state }),
            Err(e) => Err(e),
        },
        Expected::Scout { shot } => match check_scout_journal(journal, &shot) {
            Ok(cells) => Ok(ActionResult::Scout { cells }),
            Err(e) => Err(e),
        },
        Expected::Cluster { ul, dr, seed, old_state } => match check_cluster_journal(
            journal,
            ul,
            dr,
            seed,
            old_state,
        ) {
            Ok((shots, hits, new_state)) => Ok(ActionResult::Cluster { shots, hits, new_state }),
            Err(e) => Err(e),
        },
    }
}

/// Binds a receipt, whose seal was checked against the program of the
/// expected action with outcome `verified`, to the expected values.
pub fn verify_action(receipt: &Receipt, verified: bool, expected: &Expected) -> (r: Result<
    ActionResult,
    ZkError,
>)
    ensures
        !verified ==> r == Err::<ActionResult, ZkError>(ZkError::InvalidReceipt),
        verified ==> action_matches(r, action_outcome(journal_of(*receipt), *expected)),
{
    if !verified {
        return Err(ZkError::InvalidReceipt);
    }
    let journal = receipt_journal(receipt);
    bind_journal(&journal, expected)
}

/// The image id that a receipt for the expected action must be checked
/// against.
pub fn expected_program(programs: &ProgramRegistry, expected: &Expected) -> (r: Digest)
    ensures
        r == programs.spec_image_id(expected.spec_kind()),
{
    programs.image_id(expected.kind())
}

} // verus!
