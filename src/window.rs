use vstd::prelude::*;

use crate::result::LeansigResult;

verus! {

/// Number of epochs in a key's lifetime: the epoch domain is `[0, 2^32)`.
pub const LIFETIME: u64 = 0x1_0000_0000;

/// A half-open interval of epochs `[start, end)`.
#[derive(Debug, Clone, Copy, PartialEq, Eq, Structural)]
pub struct EpochInterval {
    pub start: u64,
    pub end: u64,
}

impl EpochInterval {
    /// The bounds are ordered and lie in the epoch domain.
    pub open spec fn wf(self) -> bool {
        self.start <= self.end && self.end <= LIFETIME
    }

    /// Epoch `e` lies in the interval: start inclusive, end exclusive.
    pub open spec fn has(self, e: int) -> bool {
        self.start <= e < self.end
    }

    /// Every epoch of `self` lies in `outer`.
    pub open spec fn within(self, outer: EpochInterval) -> bool {
        outer.start <= self.start && self.end <= outer.end
    }

    /// Whether `epoch` lies in the interval.
    pub fn contains(&self, epoch: u64) -> (b: bool)
        ensures
            b == self.has(epoch as int),
    {
        self.start <= epoch && epoch < self.end
    }

    /// Whether the interval is well formed.
    pub fn is_valid(&self) -> (b: bool)
        ensures
            b == self.wf(),
    {
        self.start <= self.end && self.end <= LIFETIME
    }

    /// Whether every epoch of `self` lies in `outer`.
    pub fn is_within(&self, outer: &EpochInterval) -> (b: bool)
        ensures
            b == self.within(*outer),
    {
        outer.start <= self.start && self.end <= outer.end
    }
}

/// The activation interval asked for by `activation_epoch` and
/// `num_active_epochs`; key generation fails when it leaves the epoch domain.
pub fn requested_activation(activation_epoch: u64, num_active_epochs: u64) -> (r: Result<
    EpochInterval,
    LeansigResult,
>)
    ensures
        r is Ok <==> activation_epoch + num_active_epochs <= LIFETIME,
        r matches Ok(i) ==> i.start == activation_epoch && i.end == activation_epoch
            + num_active_epochs && i.wf(),
        r matches Err(e) ==> e == LeansigResult::SigningFailed,
{
    if activation_epoch <= LIFETIME && num_active_epochs <= LIFETIME - activation_epoch {
        Ok(EpochInterval { start: activation_epoch, end: activation_epoch + num_active_epochs })
    } else {
        Err(LeansigResult::SigningFailed)
    }
}

/// The epoch windows of a secret key: the activation interval, fixed for the
/// key's lifetime, and the prepared interval inside it, for which signing
/// material is at hand.
#[derive(Debug, Clone, Copy, PartialEq, Eq, Structural)]
pub struct KeyWindows {
    pub activation: EpochInterval,
    pub prepared: EpochInterval,
}

impl KeyWindows {
    /// Both intervals are well formed and the prepared one lies inside the
    /// activation one.
    pub open spec fn wf(self) -> bool {
        self.activation.wf() && self.prepared.wf() && self.prepared.within(self.activation)
    }

    /// The prepared interval has reached the end of the activation interval.
    pub open spec fn exhausted(self) -> bool {
        self.prepared.end == self.activation.end
    }

    /// The windows a key reports, accepted only where they keep the
    /// invariant.
    pub fn from_reported(activation: EpochInterval, prepared: EpochInterval) -> (r: Option<
        KeyWindows,
    >)
        ensures
            r is Some <==> (KeyWindows { activation, prepared }).wf(),
            r matches Some(w) ==> w.activation == activation && w.prepared == prepared,
    {
        if activation.is_valid() && prepared.is_valid() && prepared.is_within(&activation) {
            Some(KeyWindows { activation, prepared })
        } else {
            None
        }
    }

    /// First epoch of the activation interval.
    pub fn activation_start(&self) -> (e: u64)
        ensures
            e == self.activation.start,
    {
        self.activation.start
    }

    /// End (exclusive) of the activation interval.
    pub fn activation_end(&self) -> (e: u64)
        ensures
            e == self.activation.end,
    {
        self.activation.end
    }

    /// First epoch of the prepared interval.
    pub fn prepared_start(&self) -> (e: u64)
        ensures
            e == self.prepared.start,
    {
        self.prepared.start
    }

    /// End (exclusive) of the prepared interval.
    pub fn prepared_end(&self) -> (e: u64)
        ensures
            e == self.prepared.end,
    {
        self.prepared.end
    }

    /// Whether no further advancement can move the prepared interval.
    pub fn is_exhausted(&self) -> (b: bool)
        ensures
            b == self.exhausted(),
    {
        self.prepared.end == self.activation.end
    }

    /// The signing precondition: `epoch` must lie in the prepared interval.
    pub fn check_sign_epoch(&self, epoch: u32) -> (r: LeansigResult)
        ensures
            r == LeansigResult::Success <==> self.prepared.has(epoch as int),
            r != LeansigResult::Success ==> r == LeansigResult::EpochNotPrepared,
    {
        if self.prepared.contains(epoch as u64) {
            LeansigResult::Success
        } else {
            LeansigResult::EpochNotPrepared
        }
    }

    /// Takes the prepared interval that the key reports after one step of
    /// advancement. It is adopted only where it moves forward (neither bound
    /// goes back) and stays inside the activation interval; otherwise the
    /// windows stay as they were, which is also what happens once the key is
    /// exhausted. Returns whether the prepared interval changed.
    pub fn advance(&mut self, reported: EpochInterval) -> (moved: bool)
        requires
            old(self).wf(),
        ensures
            final(self).wf(),
            final(self).activation == old(self).activation,
            moved <==> reported != old(self).prepared && advance_admits(*old(self), reported),
            advance_admits(*old(self), reported) ==> final(self).prepared == reported,
            !advance_admits(*old(self), reported) ==> *final(self) == *old(self),
            old(self).prepared.start <= final(self).prepared.start,
            old(self).prepared.end <= final(self).prepared.end,
    {
        let admits = reported.is_valid() && reported.is_within(&self.activation)
            && self.prepared.start <= reported.start && self.prepared.end <= reported.end;
        if admits {
            let moved = reported.start != self.prepared.start || reported.end != self.prepared.end;
            self.prepared = reported;
            moved
        } else {
            false
        }
    }
}

/// `reported` is an admissible next prepared interval for `w`.
pub open spec fn advance_admits(w: KeyWindows, reported: EpochInterval) -> bool {
    reported.wf() && reported.within(w.activation) && w.prepared.start <= reported.start
        && w.prepared.end <= reported.end
}

} // verus!
