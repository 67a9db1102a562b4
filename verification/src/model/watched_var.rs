use vstd::prelude::*;

use crate::scheduler::SignalId;
use vstd::std_specs::cmp::PartialEqSpec;

verus! {

/// A value together with the signal that announces its changes; setting
/// it to an equal value is not a change.
pub struct WatchedVar<T> {
    value: T,
    signal: SignalId,
}

impl<T: PartialEq> WatchedVar<T> {
    /// The current value.
    pub closed spec fn value(&self) -> T {
        self.value
    }

    /// The signal that announces changes.
    pub closed spec fn change_signal_view(&self) -> SignalId {
        self.signal
    }

    /// A variable holding `value`, announcing changes with `signal`.
    pub fn new(value: T, signal: SignalId) -> (v: Self)
        ensures
            v.value() == value,
            v.change_signal_view() == signal,
    {
        WatchedVar { value, signal }
    }

    /// The current value.
    pub fn get(&self) -> (r: &T)
        ensures
            *r == self.value(),
    {
        &self.value
    }

    /// The signal that announces changes.
    pub fn signal(&self) -> (s: SignalId)
        ensures
            s == self.change_signal_view(),
    {
        self.signal
    }

    /// Store `value` unless it equals the current value; reports whether
    /// the value changed.
    pub fn set(&mut self, value: T) -> (changed: bool)
        ensures
            changed ==> final(self).value() == value,
            !changed ==> final(self).value() == old(self).value(),
            T::obeys_eq_spec() ==> changed == !old(self).value().eq_spec(&value),
            final(self).change_signal_view() == old(self).change_signal_view(),
    {
        if self.value == value {
            false
        } else {
            self.value = value;
            true
        }
    }
}

} // verus!
