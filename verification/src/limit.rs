//! Quota tracking with pluggable notification.
//!
//! A [`LimitTracker`] holds a value against a maximum and notifies a
//! [`Messenger`] when the value crosses three-quarters, nine-tenths, or the
//! whole of the maximum.  The threshold decision itself is the verified
//! function [`quota_message`]; sending is left to the messenger
//! implementation.

use vstd::prelude::*;

verus! {

/// A sink for notification messages, implemented by the library's users.
pub trait Messenger {
    /// Delivers one message.
    fn send(&self, msg: &str);
}

/// `value / max >= num / den`, read as a comparison of exact ratios.  A zero
/// `max` counts as exceeded by any positive value and reached by none
/// otherwise.
pub open spec fn ratio_at_least(value: int, max: int, num: int, den: int) -> bool {
    if max == 0 {
        value > 0
    } else {
        den * value >= num * max
    }
}

/// How close a value is to its maximum.
#[derive(Debug, Clone, Copy, PartialEq, Eq, Structural)]
pub enum QuotaLevel {
    /// Below three quarters of the maximum.
    Normal,
    /// At or above three quarters of the maximum.
    Warning,
    /// At or above nine tenths of the maximum.
    Urgent,
    /// At or above the maximum.
    Exceeded,
}

/// The quota level of `value` against `max`.
pub open spec fn spec_quota_level(value: int, max: int) -> QuotaLevel {
    if ratio_at_least(value, max, 1, 1) {
        QuotaLevel::Exceeded
    } else if ratio_at_least(value, max, 9, 10) {
        QuotaLevel::Urgent
    } else if ratio_at_least(value, max, 3, 4) {
        QuotaLevel::Warning
    } else {
        QuotaLevel::Normal
    }
}

/// The message owed for `value` against `max`, if any.
pub fn quota_message(value: usize, max: usize) -> (r: Option<&'static str>)
    ensures
        spec_quota_level(value as int, max as int) == QuotaLevel::Exceeded ==> (r matches Some(m)
            && m@ == "Error: You are over your quota!"@),
        spec_quota_level(value as int, max as int) == QuotaLevel::Urgent ==> (r matches Some(m)
            && m@ == "Urgent warning: You've used up over 90% of your quota!"@),
        spec_quota_level(value as int, max as int) == QuotaLevel::Warning ==> (r matches Some(m)
            && m@ == "Warning: You've used up over 75% of your quota!"@),
        spec_quota_level(value as int, max as int) == QuotaLevel::Normal ==> r is None,
{
    if max == 0 {
        if value == 0 {
            None
        } else {
            Some("Error: You are over your quota!")
        }
    } else {
        let v = value as u128;
        let m = max as u128;
        if v >= m {
            Some("Error: You are over your quota!")
        } else if 10 * v >= 9 * m {
            Some("Urgent warning: You've used up over 90% of your quota!")
        } else if 4 * v >= 3 * m {
            Some("Warning: You've used up over 75% of your quota!")
        } else {
            None
        }
    }
}

/// Tracks a value against a maximum, telling its messenger when thresholds
/// are crossed.
pub struct LimitTracker<'a, T: Messenger> {
    messenger: &'a T,
    value: usize,
    max: usize,
}

impl<'a, T: Messenger> LimitTracker<'a, T> {
    /// The tracked value.
    pub closed spec fn spec_value(&self) -> usize {
        self.value
    }

    /// The maximum against which the value is measured.
    pub closed spec fn spec_max(&self) -> usize {
        self.max
    }

    /// A fresh tracker at zero.
    pub fn new(messenger: &'a T, max: usize) -> (t: LimitTracker<'a, T>)
        ensures
            t.spec_value() == 0,
            t.spec_max() == max,
    {
        LimitTracker { messenger, value: 0, max }
    }

    /// Stores `value` and sends the owed quota message, if any.
    pub fn set_value(&mut self, value: usize)
        ensures
            final(self).spec_value() == value,
            final(self).spec_max() == old(self).spec_max(),
    {
        self.value = value;
        match quota_message(value, self.max) {
            Some(m) => self.messenger.send(m),
            None => {},
        }
    }
}

} // verus!
