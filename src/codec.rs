//! The word encoding of journals and private inputs: every scalar is one
//! little-endian 32-bit word, a struct is its fields in order, an enum is its
//! variant index, and a sequence is its length followed by its elements.
use vstd::prelude::*;
use crate::types::{
    ClusterBombParams, ClusterCommit, ClusterCommitView, ClusterConfig, Digest, GameState,
    HitType, Position, ScoutParams, ScoutResult, ScoutResultView, ShotCommit, ShotParams,
};

verus! {

/// Byte `k` of `b`, or zero past its end.
pub open spec fn byte_or_zero(b: Seq<u8>, k: int) -> int {
    if 0 <= k < b.len() {
        b[k] as int
    } else {
        0
    }
}

/// Word `i` of `b`, read little-endian.
pub open spec fn word_at(b: Seq<u8>, i: int) -> u32 {
    (byte_or_zero(b, 4 * i) + 256 * byte_or_zero(b, 4 * i + 1) + 65536 * byte_or_zero(b, 4 * i + 2)
        + 16777216 * byte_or_zero(b, 4 * i + 3)) as u32
}

/// The words of a byte string; a last partial word is filled with zero bytes.
pub open spec fn words_of(b: Seq<u8>) -> Seq<u32> {
    Seq::new(((b.len() + 3) / 4) as nat, |i: int| word_at(b, i))
}

fn byte_or_zero_exec(b: &Vec<u8>, k: usize) -> (r: u32)
    ensures
        r as int == byte_or_zero(b@, k as int),
        r < 256,
{
    if k < b.len() {
        b[k] as u32
    } else {
        0
    }
}

/// Splits a journal into its words.
pub fn journal_words(b: &Vec<u8>) -> (r: Vec<u32>)
    ensures
        r@ == words_of(b@),
{
    let n: usize = b.len() / 4 + if b.len() % 4 == 0 { 0 } else { 1 };
    assert(n as int == (b.len() + 3) / 4);
    let mut r: Vec<u32> = Vec::new();
    let mut i: usize = 0;
    while i < n
        invariant
            n as int == (b.len() + 3) / 4,
            i <= n,
            r@.len() == i,
            forall|j: int| 0 <= j < i ==> r@[j] == word_at(b@, j),
        decreases n - i,
    {
        let b0 = byte_or_zero_exec(b, 4 * i);
        let b1 = byte_or_zero_exec(b, 4 * i + 1);
        let b2 = byte_or_zero_exec(b, 4 * i + 2);
        let b3 = byte_or_zero_exec(b, 4 * i + 3);
        r.push(b0 + 256 * b1 + 65536 * b2 + 16777216 * b3);
        i = i + 1;
    }
    assert(r@ =~= words_of(b@));
    r
}

/// The hit outcome whose variant index is `v`, if any.
pub open spec fn hit_of(v: u32) -> Option<HitType> {
    if v == 0 {
        Some(HitType::Miss)
    } else if v == 1 {
        Some(HitType::Hit)
    } else if v == 2 {
        Some(HitType::Sunk)
    } else {
        None
    }
}

pub open spec fn digest_at(w: Seq<u32>, i: int) -> Digest {
    Digest {
        w0: w[i],
        w1: w[i + 1],
        w2: w[i + 2],
        w3: w[i + 3],
        w4: w[i + 4],
        w5: w[i + 5],
        w6: w[i + 6],
        w7: w[i + 7],
    }
}

pub open spec fn position_at(w: Seq<u32>, i: int) -> Position {
    Position { x: w[i], y: w[i + 1] }
}

/// Whether the `n` words from `start` on are all hit outcomes.
pub open spec fn hits_valid(w: Seq<u32>, start: int, n: int) -> bool {
    forall|i: int| 0 <= i < n ==> (#[trigger] hit_of(w[start + i])) is Some
}

pub open spec fn hits_at(w: Seq<u32>, start: int, n: int) -> Seq<HitType> {
    Seq::new(n as nat, |i: int| hit_of(w[start + i])->0)
}

pub open spec fn positions_at(w: Seq<u32>, start: int, n: int) -> Seq<Position> {
    Seq::new(n as nat, |i: int| position_at(w, start + 2 * i))
}

/// The shot commitment that a journal's words start with: two digests, a
/// position and a hit outcome.
pub open spec fn shot_commit_of(w: Seq<u32>) -> Option<ShotCommit> {
    if w.len() >= 19 && hit_of(w[18]) is Some {
        Some(
            ShotCommit {
                old_state_digest: digest_at(w, 0),
                new_state_digest: digest_at(w, 8),
                shot: position_at(w, 16),
                hit: hit_of(w[18])->0,
            },
        )
    } else {
        None
    }
}

/// The scout result that a journal's words start with: a position, then a
/// sequence of hit outcomes.
pub open spec fn scout_result_of(w: Seq<u32>) -> Option<ScoutResultView> {
    if w.len() >= 3 && 3 + w[2] <= w.len() && hits_valid(w, 3, w[2] as int) {
        Some(ScoutResultView { shot: position_at(w, 0), cells: hits_at(w, 3, w[2] as int) })
    } else {
        None
    }
}

/// Index of the word that holds the number of hits of a cluster commitment.
pub open spec fn cluster_hits_len_index(w: Seq<u32>) -> int {
    22 + 2 * w[21]
}

/// The cluster commitment that a journal's words start with: two digests,
/// the configuration, a sequence of positions and a sequence of hit outcomes
/// of the same length.
#[verifier::opaque]
pub open spec fn cluster_commit_of(w: Seq<u32>) -> Option<ClusterCommitView> {
    let h = cluster_hits_len_index(w);
    if w.len() >= 22 && w[20] < 256 && h < w.len() && w[h] == w[21] && h + 1 + w[h] <= w.len()
        && hits_valid(w, h + 1, w[h] as int) {
        Some(
            ClusterCommitView {
                old_state_digest: digest_at(w, 0),
                new_state_digest: digest_at(w, 8),
                config: ClusterConfig {
                    upper_left_coordinates: position_at(w, 16),
                    down_right_coordinates: position_at(w, 18),
                    seed: w[20] as u8,
                },
                shots: positions_at(w, 22, w[21] as int),
                hits: hits_at(w, h + 1, w[h] as int),
            },
        )
    } else {
        None
    }
}

fn read_hit(v: u32) -> (r: Option<HitType>)
    ensures
        r == hit_of(v),
{
    if v == 0 {
        Some(HitType::Miss)
    } else if v == 1 {
        Some(HitType::Hit)
    } else if v == 2 {
        Some(HitType::Sunk)
    } else {
        None
    }
}

fn read_digest(w: &Vec<u32>, i: usize) -> (r: Digest)
    requires
        i + 8 <= w.len(),
    ensures
        r == digest_at(w@, i as int),
{
    Digest {
        w0: w[i],
        w1: w[i + 1],
        w2: w[i + 2],
        w3: w[i + 3],
        w4: w[i + 4],
        w5: w[i + 5],
        w6: w[i + 6],
        w7: w[i + 7],
    }
}

fn read_position(w: &Vec<u32>, i: usize) -> (r: Position)
    requires
        i + 2 <= w.len(),
    ensures
        r == position_at(w@, i as int),
{
    Position { x: w[i], y: w[i + 1] }
}

fn read_hits(w: &Vec<u32>, start: usize, n: usize) -> (r: Option<Vec<HitType>>)
    requires
        start + n <= w.len(),
    ensures
        r is Some <==> hits_valid(w@, start as int, n as int),
        r is Some ==> r->0@ == hits_at(w@, start as int, n as int),
{
    let mut out: Vec<HitType> = Vec::new();
    let mut i: usize = 0;
    while i < n
        invariant
            start + n <= w.len(),
            i <= n,
            out@.len() == i,
            hits_valid(w@, start as int, i as int),
            forall|j: int| 0 <= j < i ==> out@[j] == hit_of(w@[start + j])->0,
        decreases n - i,
    {
        match read_hit(w[start + i]) {
            Some(h) => {
                out.push(h);
            },
            None => {
                assert(hit_of(w@[start + i]) is None);
                return None;
            },
        }
        i = i + 1;
    }
    assert(out@ =~= hits_at(w@, start as int, n as int));
    Some(out)
}

fn read_positions(w: &Vec<u32>, start: usize, n: usize) -> (r: Vec<Position>)
    requires
        start + 2 * n <= w.len(),
    ensures
        r@ == positions_at(w@, start as int, n as int),
{
    let mut out: Vec<Position> = Vec::new();
    let mut i: usize = 0;
    while i < n
        invariant
            start + 2 * n <= w.len(),
            i <= n,
            out@.len() == i,
            forall|j: int| 0 <= j < i ==> out@[j] == position_at(w@, start + 2 * j),
        decreases n - i,
    {
        out.push(read_position(w, start + 2 * i));
        i = i + 1;
    }
    assert(out@ =~= positions_at(w@, start as int, n as int));
    out
}

/// Decodes a shot commitment from a journal's words.
pub fn decode_shot_commit(w: &Vec<u32>) -> (r: Option<ShotCommit>)
    ensures
        r == shot_commit_of(w@),
{
    if w.len() < 19 {
        return None;
    }
    match read_hit(w[18]) {
        Some(hit) => Some(
            ShotCommit {
                old_state_digest: read_digest(w, 0),
                new_state_digest: read_digest(w, 8),
                shot: read_position(w, 16),
                hit,
            },
        ),
        None => None,
    }
}

/// Decodes a scout result from a journal's words.
pub fn decode_scout_result(w: &Vec<u32>) -> (r: Option<ScoutResult>)
    ensures
        r is Some <==> scout_result_of(w@) is Some,
        r is Some ==> r->0@ == scout_result_of(w@)->0,
{
    if w.len() < 3 {
        return None;
    }
    let n = w[2] as usize;
    if n > w.len() - 3 {
        return None;
    }
    match read_hits(w, 3, n) {
        Some(cells) => Some(ScoutResult { shot: read_position(w, 0), cells }),
        None => None,
    }
}

/// Decodes a cluster commitment from a journal's words.
pub fn decode_cluster_commit(w: &Vec<u32>) -> (r: Option<ClusterCommit>)
    ensures
        r is Some <==> cluster_commit_of(w@) is Some,
        r is Some ==> r->0@ == cluster_commit_of(w@)->0,
{
    reveal(cluster_commit_of);
    if w.len() < 22 || w[20] >= 256 {
        return None;
    }
    let n_shots = w[21] as usize;
    if n_shots > (w.len() - 22) / 2 {
        assert(cluster_hits_len_index(w@) >= w@.len());
        return None;
    }
    let h: usize = 22 + 2 * n_shots;
    if h >= w.len() {
        return None;
    }
    let n_hits = w[h] as usize;
    if w[h] != w[21] || n_hits > w.len() - h - 1 {
        return None;
    }
    let shots = read_positions(w, 22, n_shots);
    match read_hits(w, h + 1, n_hits) {
        Some(hits) => Some(
            ClusterCommit {
                old_state_digest: read_digest(w, 0),
                new_state_digest: read_digest(w, 8),
                config: ClusterConfig {
                    upper_left_coordinates: read_position(w, 16),
                    down_right_coordinates: read_position(w, 18),
                    seed: w[20] as u8,
                },
                shots,
                hits,
            },
        ),
        None => None,
    }
}

/// The words of a private input: the encoded board followed by `tail`.
pub open spec fn input_words(state: GameState, tail: Seq<u32>) -> Seq<u32> {
    state.encoded@ + tail
}

fn append_words(out: &mut Vec<u32>, tail: &[u32])
    ensures
        final(out)@ == old(out)@ + tail@,
{
    let mut i: usize = 0;
    while i < tail.len()
        invariant
            i <= tail@.len(),
            out@ == old(out)@ + tail@.subrange(0, i as int),
        decreases tail@.len() - i,
    {
        out.push(tail[i]);
        i = i + 1;
        assert(tail@.subrange(0, i as int) =~= tail@.subrange(0, i - 1) + seq![tail@[i - 1]]);
    }
    assert(tail@.subrange(0, i as int) =~= tail@);
}

/// Encodes the private input of the initial commitment to a board.
pub fn init_input(state: &GameState) -> (r: Vec<u32>)
    ensures
        r@ == input_words(*state, seq![]),
{
    let mut r: Vec<u32> = Vec::new();
    append_words(&mut r, state.encoded.as_slice());
    assert(r@ =~= input_words(*state, seq![]));
    r
}

/// Encodes the private input of a shot.
pub fn turn_input(params: &ShotParams) -> (r: Vec<u32>)
    ensures
        r@ == input_words(params.state, seq![params.shot.x, params.shot.y]),
{
    let mut r: Vec<u32> = Vec::new();
    append_words(&mut r, params.state.encoded.as_slice());
    let tail = [params.shot.x, params.shot.y];
    append_words(&mut r, &tail);
    assert(tail@ =~= seq![params.shot.x, params.shot.y]);
    r
}

/// Encodes the private input of a scout.
pub fn scout_input(params: &ScoutParams) -> (r: Vec<u32>)
    ensures
        r@ == input_words(params.state, seq![params.shot.x, params.shot.y]),
{
    let mut r: Vec<u32> = Vec::new();
    append_words(&mut r, params.state.encoded.as_slice());
    let tail = [params.shot.x, params.shot.y];
    append_words(&mut r, &tail);
    assert(tail@ =~= seq![params.shot.x, params.shot.y]);
    r
}

/// The words of a cluster bomb's configuration.
pub open spec fn config_words(c: ClusterConfig) -> Seq<u32> {
    seq![
        c.upper_left_coordinates.x,
        c.upper_left_coordinates.y,
        c.down_right_coordinates.x,
        c.down_right_coordinates.y,
        c.seed as u32,
    ]
}

/// Encodes the private input of a cluster bomb.
pub fn cluster_input(params: &ClusterBombParams) -> (r: Vec<u32>)
    ensures
        r@ == input_words(params.state, config_words(params.config)),
{
    let mut r: Vec<u32> = Vec::new();
    append_words(&mut r, params.state.encoded.as_slice());
    let c = params.config;
    let tail = [
        c.upper_left_coordinates.x,
        c.upper_left_coordinates.y,
        c.down_right_coordinates.x,
        c.down_right_coordinates.y,
        c.seed as u32,
    ];
    append_words(&mut r, &tail);
    assert(tail@ =~= config_words(c));
    r
}

} // verus!
