//! Grouping of a run of points into fixed-width groups for batch evaluation.
//!
//! A batch of `n` points is evaluated group by group: every group but possibly
//! the last holds `GROUP_WIDTH` consecutive points and can be evaluated lane-wise;
//! a shorter last group is evaluated point by point. The grouping is a pure
//! function of `n`; it never looks at the points themselves.

use vstd::prelude::*;

verus! {

/// Number of points evaluated together in one full group.
pub const GROUP_WIDTH: usize = 4;

/// A run of consecutive point indices, `start .. start + len`.
#[derive(Clone, Copy, Debug, PartialEq, Eq, Structural)]
pub struct Group {
    pub start: usize,
    pub len: usize,
}

impl Group {
    /// Whether the point with index `i` belongs to this group.
    pub open spec fn contains(self, i: int) -> bool {
        self.start <= i < self.start + self.len
    }

    /// A full group fills every lane.
    pub open spec fn spec_is_full(&self) -> bool {
        self.len == GROUP_WIDTH
    }

    /// Whether the group fills every lane, so that it can be evaluated lane-wise.
    #[verifier::when_used_as_spec(spec_is_full)]
    pub fn is_full(&self) -> (full: bool)
        ensures
            full == self.spec_is_full(),
    {
        self.len == GROUP_WIDTH
    }
}

/// Number of groups needed to cover `n` points: `n / GROUP_WIDTH`, rounded up.
pub open spec fn spec_group_count(n: nat) -> nat {
    (n + 3) / 4
}

/// The `k`-th group of a batch of `n` points: it starts at `GROUP_WIDTH * k` and
/// holds the points up to the next multiple of `GROUP_WIDTH`, or up to `n`.
pub open spec fn spec_group_at(n: nat, k: nat) -> Group
    recommends
        k < spec_group_count(n),
{
    Group {
        start: (4 * k) as usize,
        len: (if n - 4 * k < 4 {
            n - 4 * k
        } else {
            4
        }) as usize,
    }
}

/// All groups of a batch of `n` points, in evaluation order.
pub open spec fn spec_plan(n: nat) -> Seq<Group> {
    Seq::new(spec_group_count(n), |k: int| spec_group_at(n, k as nat))
}

/// Number of groups, full or partial, that cover `n` points.
pub fn group_count(n: usize) -> (count: usize)
    ensures
        count == spec_group_count(n as nat),
{
    let full: usize = n / GROUP_WIDTH;
    if n % GROUP_WIDTH == 0 {
        full
    } else {
        full + 1
    }
}

/// The `k`-th group of a batch of `n` points, or `None` past the last group.
pub fn group_at(n: usize, k: usize) -> (group: Option<Group>)
    ensures
        group == if k < spec_group_count(n as nat) {
            Some(spec_group_at(n as nat, k as nat))
        } else {
            None
        },
{
    if k >= group_count(n) {
        return None;
    }
    let start: usize = k * GROUP_WIDTH;
    let rest: usize = n - start;
    let len: usize = if rest < GROUP_WIDTH {
        rest
    } else {
        GROUP_WIDTH
    };
    Some(Group { start, len })
}

/// All groups of a batch of `n` points, in evaluation order.
pub fn plan_groups(n: usize) -> (plan: Vec<Group>)
    ensures
        plan@ == spec_plan(n as nat),
{
    let count: usize = group_count(n);
    let mut plan: Vec<Group> = Vec::new();
    let mut k: usize = 0;
    while k < count
        invariant
            count == spec_group_count(n as nat),
            k <= count,
            plan@.len() == k,
            forall|j: int| 0 <= j < k ==> plan@[j] == spec_group_at(n as nat, j as nat),
        decreases count - k,
    {
        if let Some(group) = group_at(n, k) {
            plan.push(group);
        }
        k += 1;
    }
    assert(plan@ =~= spec_plan(n as nat));
    plan
}

/// Every group of a batch holds between one and `GROUP_WIDTH` points and ends
/// within the batch.
pub proof fn lemma_group_bounds(n: nat, k: nat)
    requires
        n <= usize::MAX,
        k < spec_group_count(n),
    ensures
        spec_group_at(n, k).start == 4 * k,
        1 <= spec_group_at(n, k).len <= 4,
        spec_group_at(n, k).start + spec_group_at(n, k).len <= n,
{
}

/// Only the last group of a batch can be partial, and each group begins where
/// the one before it ends.
pub proof fn lemma_groups_adjacent(n: nat, k: nat)
    requires
        n <= usize::MAX,
        k + 1 < spec_group_count(n),
    ensures
        spec_group_at(n, k).spec_is_full(),
        spec_group_at(n, k + 1).start == spec_group_at(n, k).start + spec_group_at(n, k).len,
{
}

/// The groups end exactly at the end of the batch: the last group stops at `n`.
pub proof fn lemma_last_group_ends_batch(n: nat)
    requires
        0 < n <= usize::MAX,
    ensures
        spec_group_count(n) > 0,
        spec_group_at(n, (spec_group_count(n) - 1) as nat).start + spec_group_at(
            n,
            (spec_group_count(n) - 1) as nat,
        ).len == n,
{
}

/// The groups partition the batch: point `i` lies in group `i / GROUP_WIDTH` and
/// in no other group.
pub proof fn lemma_groups_partition(n: nat, i: nat)
    requires
        n <= usize::MAX,
        i < n,
    ensures
        i / 4 < spec_group_count(n),
        spec_group_at(n, i / 4).contains(i as int),
        forall|k: nat|
            k < spec_group_count(n) && #[trigger] spec_group_at(n, k).contains(i as int) ==> k == i
                / 4,
{
}

} // verus!
