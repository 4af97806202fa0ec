use vstd::prelude::*;

verus! {

/// A board coordinate.
#[derive(Clone, Copy, Debug, PartialEq, Eq, Structural)]
pub struct Position {
    pub x: u32,
    pub y: u32,
}

impl Position {
    pub fn new(x: u32, y: u32) -> (r: Position)
        ensures
            r.x == x,
            r.y == y,
    {
        Position { x, y }
    }
}

/// Outcome of a shot on one cell.
#[derive(Clone, Copy, Debug, PartialEq, Eq, Structural)]
pub enum HitType {
    Miss,
    Hit,
    Sunk,
}

/// Commitment to a full board state, compared by equality only.
#[derive(Clone, Copy, Debug, PartialEq, Eq, Structural)]
pub struct Digest {
    pub w0: u32,
    pub w1: u32,
    pub w2: u32,
    pub w3: u32,
    pub w4: u32,
    pub w5: u32,
    pub w6: u32,
    pub w7: u32,
}

impl Digest {
    /// The digest as its eight words, in order.
    pub open spec fn words(self) -> Seq<u32> {
        seq![self.w0, self.w1, self.w2, self.w3, self.w4, self.w5, self.w6, self.w7]
    }

    pub fn from_words(w: [u32; 8]) -> (r: Digest)
        ensures
            r.words() == w@,
    {
        let r = Digest { w0: w[0], w1: w[1], w2: w[2], w3: w[3], w4: w[4], w5: w[5], w6: w[6], w7: w[7] };
        assert(r.words() =~= w@);
        r
    }

    pub fn to_words(&self) -> (r: [u32; 8])
        ensures
            r@ == self.words(),
    {
        let r = [self.w0, self.w1, self.w2, self.w3, self.w4, self.w5, self.w6, self.w7];
        assert(r@ =~= self.words());
        r
    }
}

} // verus!

verus! {

/// Parameters of a cluster bomb: the rectangle it covers and the seed that
/// picks the affected cells inside it.
#[derive(Clone, Copy, Debug, PartialEq, Eq, Structural)]
pub struct ClusterConfig {
    pub upper_left_coordinates: Position,
    pub down_right_coordinates: Position,
    pub seed: u8,
}

/// Public commitment of a single shot.
#[derive(Clone, Copy, Debug, PartialEq, Eq, Structural)]
pub struct ShotCommit {
    pub old_state_digest: Digest,
    pub new_state_digest: Digest,
    pub shot: Position,
    pub hit: HitType,
}

/// Public result of a scout: the scouted position and the outcome of each
/// cell of its area, in order.
#[derive(Clone, Debug)]
pub struct ScoutResult {
    pub shot: Position,
    pub cells: Vec<HitType>,
}

/// Mathematical value of a [`ScoutResult`].
pub struct ScoutResultView {
    pub shot: Position,
    pub cells: Seq<HitType>,
}

impl View for ScoutResult {
    type V = ScoutResultView;

    open spec fn view(&self) -> ScoutResultView {
        ScoutResultView { shot: self.shot, cells: self.cells@ }
    }
}

/// Public commitment of a cluster bomb: `shots[i]` is the cell whose outcome
/// is `hits[i]`.
#[derive(Clone, Debug)]
pub struct ClusterCommit {
    pub old_state_digest: Digest,
    pub new_state_digest: Digest,
    pub config: ClusterConfig,
    pub shots: Vec<Position>,
    pub hits: Vec<HitType>,
}

/// Mathematical value of a [`ClusterCommit`].
pub struct ClusterCommitView {
    pub old_state_digest: Digest,
    pub new_state_digest: Digest,
    pub config: ClusterConfig,
    pub shots: Seq<Position>,
    pub hits: Seq<HitType>,
}

impl View for ClusterCommit {
    type V = ClusterCommitView;

    open spec fn view(&self) -> ClusterCommitView {
        ClusterCommitView {
            old_state_digest: self.old_state_digest,
            new_state_digest: self.new_state_digest,
            config: self.config,
            shots: self.shots@,
            hits: self.hits@,
        }
    }
}

/// The public field of a commitment that disagreed with the expected value.
#[derive(Clone, Copy, Debug, PartialEq, Eq, Structural)]
pub enum CommitField {
    OldStateDigest,
    Shot,
    UpperLeft,
    DownRight,
    Seed,
}

/// Why an action's proof was not produced or not accepted.
#[derive(Clone, Copy, Debug, PartialEq, Eq, Structural)]
pub enum ZkError {
    /// The prover could not produce a proof for the private input.
    ProvingFailed,
    /// The receipt does not verify against the action's program identity.
    InvalidReceipt,
    /// The journal does not decode into the action's commitment.
    MalformedJournal,
    /// A public field of the commitment differs from the expected value.
    CommitmentMismatch(CommitField),
}

/// The secret board of one player, in the word encoding of the game model.
#[derive(Clone, Debug)]
pub struct GameState {
    pub encoded: Vec<u32>,
}

/// Private input of a shot: the board and the position shot at.
#[derive(Clone, Debug)]
pub struct ShotParams {
    pub state: GameState,
    pub shot: Position,
}

/// Private input of a scout: the board and the scouted position.
#[derive(Clone, Debug)]
pub struct ScoutParams {
    pub state: GameState,
    pub shot: Position,
}

/// Private input of a cluster bomb: the board and the bomb's configuration.
#[derive(Clone, Debug)]
pub struct ClusterBombParams {
    pub state: GameState,
    pub config: ClusterConfig,
}

} // verus!
