//! Sequencing of one surface-deformation tick.
//!
//! A tick rewrites every vertex position, group by group, and then recomputes
//! the vertex normals once. `DeformTick` decides what comes next; the caller
//! performs each action on its mesh buffer and asks again.

use vstd::prelude::*;
use crate::batch::{group_at, spec_group_at, spec_group_count, Group};

verus! {

/// What the caller has to do next within a tick.
#[derive(Clone, Copy, Debug, PartialEq, Eq, Structural)]
pub enum DeformAction {
    /// Write the displaced positions of the vertices of this group.
    EvaluateGroup(Group),
    /// All positions are written: recompute the normals from them.
    RecomputeNormals,
    /// The tick is complete; nothing is left to do.
    Finished,
}

/// Progress of a tick as a mathematical value.
pub struct DeformProgress {
    /// Number of vertices of the surface.
    pub vertex_count: nat,
    /// Number of groups whose evaluation has been handed out.
    pub groups_done: nat,
    /// Whether the recomputation of the normals has been handed out.
    pub normals_done: bool,
}

impl DeformProgress {
    /// Progress at the start of a tick over `vertex_count` vertices.
    pub open spec fn start(vertex_count: nat) -> DeformProgress {
        DeformProgress { vertex_count, groups_done: 0, normals_done: false }
    }

    /// The action that this progress calls for.
    pub open spec fn action(self) -> DeformAction {
        if self.groups_done < spec_group_count(self.vertex_count) {
            DeformAction::EvaluateGroup(spec_group_at(self.vertex_count, self.groups_done))
        } else if !self.normals_done {
            DeformAction::RecomputeNormals
        } else {
            DeformAction::Finished
        }
    }

    /// The progress once that action has been handed out.
    pub open spec fn next(self) -> DeformProgress {
        if self.groups_done < spec_group_count(self.vertex_count) {
            DeformProgress { groups_done: self.groups_done + 1, ..self }
        } else {
            DeformProgress { normals_done: true, ..self }
        }
    }

    /// Number of vertices whose evaluation has been handed out: the groups
    /// handed out so far hold the vertices below this number, each once.
    pub open spec fn vertices_done(self) -> nat {
        if 4 * self.groups_done < self.vertex_count {
            4 * self.groups_done
        } else {
            self.vertex_count
        }
    }

    /// The progress after `steps` actions of a tick over `vertex_count` vertices.
    pub open spec fn after(vertex_count: nat, steps: nat) -> DeformProgress
        decreases steps,
    {
        if steps == 0 {
            Self::start(vertex_count)
        } else {
            Self::after(vertex_count, (steps - 1) as nat).next()
        }
    }
}

/// The `i`-th action of a tick over `vertex_count` vertices: the groups in
/// order, then the normals, then nothing more.
pub open spec fn spec_action_at(vertex_count: nat, i: nat) -> DeformAction {
    if i < spec_group_count(vertex_count) {
        DeformAction::EvaluateGroup(spec_group_at(vertex_count, i))
    } else if i == spec_group_count(vertex_count) {
        DeformAction::RecomputeNormals
    } else {
        DeformAction::Finished
    }
}

/// One tick of surface deformation in progress.
pub struct DeformTick {
    vertex_count: usize,
    next_group: usize,
    normals_done: bool,
}

impl View for DeformTick {
    type V = DeformProgress;

    closed spec fn view(&self) -> DeformProgress {
        DeformProgress {
            vertex_count: self.vertex_count as nat,
            groups_done: self.next_group as nat,
            normals_done: self.normals_done,
        }
    }
}

impl DeformTick {
    #[verifier::type_invariant]
    spec fn inv(self) -> bool {
        &&& self.next_group <= spec_group_count(self.vertex_count as nat)
        &&& self.normals_done ==> self.next_group == spec_group_count(self.vertex_count as nat)
    }

    /// Starts a tick over a surface of `vertex_count` vertices.
    pub fn begin(vertex_count: usize) -> (tick: DeformTick)
        ensures
            tick@ == DeformProgress::start(vertex_count as nat),
    {
        DeformTick { vertex_count, next_group: 0, normals_done: false }
    }

    /// Number of vertices that the tick covers.
    pub fn vertex_count(&self) -> (n: usize)
        ensures
            n == self@.vertex_count,
    {
        self.vertex_count
    }

    /// Whether every action of the tick has been handed out.
    pub fn is_finished(&self) -> (done: bool)
        ensures
            done == (self@.action() == DeformAction::Finished),
    {
        proof {
            use_type_invariant(self);
        }
        self.normals_done
    }

    /// Hands out the next action of the tick and advances past it.
    pub fn step(&mut self) -> (action: DeformAction)
        ensures
            action == old(self)@.action(),
            final(self)@ == old(self)@.next(),
    {
        proof {
            use_type_invariant(&*self);
        }
        match group_at(self.vertex_count, self.next_group) {
            Some(group) => {
                self.next_group = self.next_group + 1;
                DeformAction::EvaluateGroup(group)
            },
            None => {
                if !self.normals_done {
                    self.normals_done = true;
                    DeformAction::RecomputeNormals
                } else {
                    DeformAction::Finished
                }
            },
        }
    }
}

/// After `steps` actions, as many groups have been handed out as there were
/// steps, up to the number of groups; the normals have been handed out exactly
/// when more steps were taken than there are groups.
pub proof fn lemma_progress_after(vertex_count: nat, steps: nat)
    ensures
        DeformProgress::after(vertex_count, steps) == (DeformProgress {
            vertex_count,
            groups_done: if steps < spec_group_count(vertex_count) {
                steps
            } else {
                spec_group_count(vertex_count)
            },
            normals_done: steps > spec_group_count(vertex_count),
        }),
    decreases steps,
{
    if steps > 0 {
        lemma_progress_after(vertex_count, (steps - 1) as nat);
    }
}

/// A tick hands out every group once, in order, then the recomputation of the
/// normals exactly once, and from then on reports that it has finished: the
/// normals are never recomputed between two position writes.
pub proof fn lemma_tick_order(vertex_count: nat, i: nat)
    ensures
        DeformProgress::after(vertex_count, i).action() == spec_action_at(vertex_count, i),
        spec_action_at(vertex_count, i) == DeformAction::RecomputeNormals <==> i
            == spec_group_count(vertex_count),
{
    lemma_progress_after(vertex_count, i);
}

/// Positions are written front to back without a gap, and the normals wait for
/// the last of them: a group that is handed out starts at the first vertex not
/// yet handed out and moves that mark to its own end, and the recomputation of
/// the normals is handed out only once every vertex has been.
pub proof fn lemma_normals_follow_positions(progress: DeformProgress)
    requires
        progress.vertex_count <= usize::MAX,
        progress.groups_done <= spec_group_count(progress.vertex_count),
    ensures
        match progress.action() {
            DeformAction::EvaluateGroup(group) => {
                &&& group.start == progress.vertices_done()
                &&& group.start + group.len == progress.next().vertices_done()
                &&& !progress.normals_done ==> !progress.next().normals_done
            },
            DeformAction::RecomputeNormals => {
                &&& progress.vertices_done() == progress.vertex_count
                &&& progress.next().vertices_done() == progress.vertex_count
                &&& progress.next().normals_done
            },
            DeformAction::Finished => progress.next() == progress,
        },
{
}

} // verus!
