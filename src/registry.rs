//! The fixed catalog of actions and the program identity of each.
use vstd::prelude::*;
use crate::types::Digest;

verus! {

/// The four kinds of game action that carry a proof.
#[derive(Clone, Copy, Debug, PartialEq, Eq, Structural)]
pub enum ActionKind {
    Init,
    Turn,
    Scout,
    Cluster,
}

/// The image id of the program of each action kind, set once when built.
#[derive(Clone, Copy, Debug)]
pub struct ProgramRegistry {
    init_id: Digest,
    turn_id: Digest,
    scout_id: Digest,
    cluster_id: Digest,
}

impl ProgramRegistry {
    /// The image id registered for `kind`.
    pub closed spec fn spec_image_id(&self, kind: ActionKind) -> Digest {
        match kind {
            ActionKind::Init => self.init_id,
            ActionKind::Turn => self.turn_id,
            ActionKind::Scout => self.scout_id,
            ActionKind::Cluster => self.cluster_id,
        }
    }

    pub fn new(init_id: Digest, turn_id: Digest, scout_id: Digest, cluster_id: Digest) -> (r:
        ProgramRegistry)
        ensures
            r.spec_image_id(ActionKind::Init) == init_id,
            r.spec_image_id(ActionKind::Turn) == turn_id,
            r.spec_image_id(ActionKind::Scout) == scout_id,
            r.spec_image_id(ActionKind::Cluster) == cluster_id,
    {
        ProgramRegistry { init_id, turn_id, scout_id, cluster_id }
    }

    pub fn image_id(&self, kind: ActionKind) -> (r: Digest)
        ensures
            r == self.spec_image_id(kind),
    {
        match kind {
            ActionKind::Init => self.init_id,
            ActionKind::Turn => self.turn_id,
            ActionKind::Scout => self.scout_id,
            ActionKind::Cluster => self.cluster_id,
        }
    }
}

} // verus!
