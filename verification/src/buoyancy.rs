//! Submersion bookkeeping for a floating body.
//!
//! A body is sampled at a fixed set of points. Each tick, every point is either
//! under the water surface or not; the share of points under water is the
//! body's submerged fraction. The tally counts exactly, so the fraction is a
//! ratio of two integers and is defined for a body without sample points too.

use vstd::prelude::*;

verus! {

/// A ratio `numerator / denominator` between zero and one.
#[derive(Clone, Copy, Debug, PartialEq, Eq, Structural)]
pub struct Fraction {
    pub numerator: usize,
    pub denominator: usize,
}

impl Fraction {
    /// The ratio is defined and lies in the closed interval from zero to one.
    pub open spec fn wf(self) -> bool {
        0 < self.denominator && self.numerator <= self.denominator
    }

    /// The ratio is exactly zero.
    pub open spec fn spec_is_zero(&self) -> bool {
        self.numerator == 0
    }

    /// The ratio is exactly one.
    pub open spec fn spec_is_one(&self) -> bool {
        self.numerator == self.denominator
    }

    /// Whether the ratio is exactly zero.
    #[verifier::when_used_as_spec(spec_is_zero)]
    pub fn is_zero(&self) -> (zero: bool)
        ensures
            zero == self.spec_is_zero(),
    {
        self.numerator == 0
    }

    /// Whether the ratio is exactly one.
    #[verifier::when_used_as_spec(spec_is_one)]
    pub fn is_one(&self) -> (one: bool)
        ensures
            one == self.spec_is_one(),
    {
        self.numerator == self.denominator
    }
}

/// Number of submerged points among `flags`, where `flags[i]` says whether
/// sample point `i` lies under the water surface.
pub open spec fn count_submerged(flags: Seq<bool>) -> nat
    decreases flags.len(),
{
    if flags.len() == 0 {
        0
    } else {
        count_submerged(flags.drop_last()) + if flags.last() {
            1nat
        } else {
            0nat
        }
    }
}

/// The submerged fraction of a body whose sample points gave `flags`: the share
/// of submerged points, and zero for a body without sample points.
pub open spec fn spec_submerged_fraction(flags: Seq<bool>) -> Fraction {
    if flags.len() == 0 {
        Fraction { numerator: 0, denominator: 1 }
    } else {
        Fraction { numerator: count_submerged(flags) as usize, denominator: flags.len() as usize }
    }
}

/// Running count of the sample points of one body within one tick.
pub struct SubmersionTally {
    submerged: usize,
    total: usize,
    flags: Ghost<Seq<bool>>,
}

impl View for SubmersionTally {
    type V = Seq<bool>;

    /// The outcomes recorded so far, in order.
    closed spec fn view(&self) -> Seq<bool> {
        self.flags@
    }
}

impl SubmersionTally {
    #[verifier::type_invariant]
    spec fn inv(self) -> bool {
        &&& self.total == self.flags@.len()
        &&& self.submerged == count_submerged(self.flags@)
    }

    /// A tally with no point recorded.
    pub fn new() -> (tally: SubmersionTally)
        ensures
            tally@ == Seq::<bool>::empty(),
    {
        SubmersionTally { submerged: 0, total: 0, flags: Ghost(Seq::empty()) }
    }

    /// Records one sample point, submerged or not.
    pub fn record(&mut self, submerged: bool)
        requires
            old(self)@.len() < usize::MAX,
        ensures
            final(self)@ == old(self)@.push(submerged),
    {
        proof {
            use_type_invariant(&*self);
            lemma_count_bounded(self.flags@);
            assert(self.flags@.push(submerged).drop_last() =~= self.flags@);
        }
        let submerged_now: usize = if submerged {
            self.submerged + 1
        } else {
            self.submerged
        };
        let total_now: usize = self.total + 1;
        let ghost flags_now: Seq<bool> = self.flags@.push(submerged);
        *self = SubmersionTally { submerged: submerged_now, total: total_now, flags: Ghost(flags_now) };
    }

    /// Number of points recorded as submerged.
    pub fn submerged_points(&self) -> (count: usize)
        ensures
            count == count_submerged(self@),
    {
        proof {
            use_type_invariant(self);
        }
        self.submerged
    }

    /// Number of points recorded.
    pub fn total_points(&self) -> (count: usize)
        ensures
            count == self@.len(),
    {
        proof {
            use_type_invariant(self);
        }
        self.total
    }

    /// The submerged fraction of the points recorded so far.
    pub fn fraction(&self) -> (fraction: Fraction)
        ensures
            fraction == spec_submerged_fraction(self@),
            fraction.wf(),
    {
        proof {
            use_type_invariant(self);
            lemma_count_bounded(self.flags@);
        }
        if self.total == 0 {
            Fraction { numerator: 0, denominator: 1 }
        } else {
            Fraction { numerator: self.submerged, denominator: self.total }
        }
    }
}

/// No more points are submerged than there are points.
pub proof fn lemma_count_bounded(flags: Seq<bool>)
    ensures
        count_submerged(flags) <= flags.len(),
    decreases flags.len(),
{
    if flags.len() > 0 {
        lemma_count_bounded(flags.drop_last());
    }
}

/// The submerged fraction always lies between zero and one, whatever the
/// sample points and the water do; for a body without sample points it is zero.
pub proof fn lemma_fraction_in_unit_interval(flags: Seq<bool>)
    requires
        flags.len() <= usize::MAX,
    ensures
        spec_submerged_fraction(flags).wf(),
        flags.len() == 0 ==> spec_submerged_fraction(flags).spec_is_zero(),
{
    lemma_count_bounded(flags);
}

/// Every point counts as submerged exactly when every flag is set.
pub proof fn lemma_all_submerged(flags: Seq<bool>)
    ensures
        count_submerged(flags) == flags.len() <==> forall|i: int|
            0 <= i < flags.len() ==> flags[i],
    decreases flags.len(),
{
    if flags.len() > 0 {
        let front = flags.drop_last();
        lemma_all_submerged(front);
        lemma_count_bounded(front);
        assert(forall|i: int| 0 <= i < front.len() ==> front[i] == flags[i]);
        if count_submerged(flags) == flags.len() {
            assert(flags.last());
            assert(count_submerged(front) == front.len());
            assert forall|i: int| 0 <= i < flags.len() implies flags[i] by {
                if i < front.len() {
                    assert(front[i]);
                }
            }
        }
        if forall|i: int| 0 <= i < flags.len() ==> flags[i] {
            assert(flags[flags.len() - 1]);
            assert forall|i: int| 0 <= i < front.len() implies front[i] by {
                assert(flags[i]);
            }
        }
    }
}

/// No point counts as submerged exactly when no flag is set.
pub proof fn lemma_none_submerged(flags: Seq<bool>)
    ensures
        count_submerged(flags) == 0 <==> forall|i: int| 0 <= i < flags.len() ==> !flags[i],
    decreases flags.len(),
{
    if flags.len() > 0 {
        let front = flags.drop_last();
        lemma_none_submerged(front);
        assert(forall|i: int| 0 <= i < front.len() ==> front[i] == flags[i]);
        if count_submerged(flags) == 0 {
            assert(!flags.last());
            assert forall|i: int| 0 <= i < flags.len() implies !flags[i] by {
                if i < front.len() {
                    assert(!front[i]);
                }
            }
        }
        if forall|i: int| 0 <= i < flags.len() ==> !flags[i] {
            assert(!flags[flags.len() - 1]);
            assert forall|i: int| 0 <= i < front.len() implies !front[i] by {
                assert(!flags[i]);
            }
        }
    }
}

/// A body with at least one sample point, all of them submerged, has a
/// submerged fraction of one; a body none of whose points is submerged has a
/// submerged fraction of zero.
pub proof fn lemma_fraction_extremes(flags: Seq<bool>)
    requires
        flags.len() <= usize::MAX,
    ensures
        flags.len() > 0 && (forall|i: int| 0 <= i < flags.len() ==> flags[i])
            ==> spec_submerged_fraction(flags).spec_is_one(),
        (forall|i: int| 0 <= i < flags.len() ==> !flags[i]) ==> spec_submerged_fraction(
            flags,
        ).spec_is_zero(),
{
    lemma_all_submerged(flags);
    lemma_none_submerged(flags);
}

} // verus!
