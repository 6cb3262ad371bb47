//! Tracks a value against a quota and sends a warning as it fills up.

use vstd::prelude::*;

verus! {

/// Whatever delivers a message: a log, a mail, a text to a phone.
pub trait Messenger {
    /// Delivers `msg`.
    fn send(&self, msg: &str);
}

/// How far a quota is used up.
#[derive(Clone, Copy, Debug, PartialEq, Eq, Structural)]
pub enum Usage {
    /// Less than three quarters.
    Fine,
    /// At least three quarters, less than nine tenths.
    Warning,
    /// At least nine tenths, less than all of it.
    Urgent,
    /// All of it, or more.
    Over,
}

/// How far a quota of `max` is used up by `value`. The thresholds are exact
/// fractions of `max`. Of a quota of zero nothing is used up by zero, and
/// anything more is over it.
pub open spec fn usage(value: usize, max: usize) -> Usage {
    if max == 0 {
        if value > 0 {
            Usage::Over
        } else {
            Usage::Fine
        }
    } else if value >= max {
        Usage::Over
    } else if 10 * value >= 9 * max {
        Usage::Urgent
    } else if 4 * value >= 3 * max {
        Usage::Warning
    } else {
        Usage::Fine
    }
}

/// The message that goes out at `level`, if one does.
pub open spec fn message_at(level: Usage) -> Option<Seq<char>> {
    match level {
        Usage::Fine => None,
        Usage::Warning => Some("Warning: You've used up over 75% of your quota!"@),
        Usage::Urgent => Some("Urgent warning: You've used up over 90% of your quota!"@),
        Usage::Over => Some("Error: You are over your quota!"@),
    }
}

/// How far a quota of `max` is used up by `value`.
pub fn usage_of(value: usize, max: usize) -> (level: Usage)
    ensures
        level == usage(value, max),
{
    let value = value as u128;
    let max = max as u128;
    if max == 0 {
        if value > 0 {
            Usage::Over
        } else {
            Usage::Fine
        }
    } else if value >= max {
        Usage::Over
    } else if 10 * value >= 9 * max {
        Usage::Urgent
    } else if 4 * value >= 3 * max {
        Usage::Warning
    } else {
        Usage::Fine
    }
}

/// The message that goes out when `value` of a quota of `max` is used up,
/// if one does.
pub fn warning(value: usize, max: usize) -> (message: Option<&'static str>)
    ensures
        message is Some == message_at(usage(value, max)) is Some,
        message matches Some(text) ==> Some(text@) == message_at(usage(value, max)),
{
    match usage_of(value, max) {
        Usage::Fine => None,
        Usage::Warning => Some("Warning: You've used up over 75% of your quota!"),
        Usage::Urgent => Some("Urgent warning: You've used up over 90% of your quota!"),
        Usage::Over => Some("Error: You are over your quota!"),
    }
}

/// Keeps a value and its quota, and a messenger to warn through.
pub struct LimitTracker<'a, T: Messenger> {
    messenger: &'a T,
    value: usize,
    max: usize,
}

impl<'a, T> LimitTracker<'a, T> where T: Messenger {
    /// The messenger that the tracker warns through.
    pub closed spec fn messenger(&self) -> &'a T {
        self.messenger
    }

    /// The value last set.
    pub closed spec fn value(&self) -> usize {
        self.value
    }

    /// The quota.
    pub closed spec fn max(&self) -> usize {
        self.max
    }

    /// A tracker for a quota of `max`, with nothing used up yet.
    pub fn new(messenger: &'a T, max: usize) -> (tracker: LimitTracker<'a, T>)
        ensures
            tracker.messenger() == messenger,
            tracker.value() == 0,
            tracker.max() == max,
    {
        LimitTracker { messenger, value: 0, max }
    }

    /// Sets the value, and sends through the messenger the message that
    /// `warning` gives for it, if it gives one.
    pub fn set_value(&mut self, value: usize)
        ensures
            final(self).value() == value,
            final(self).max() == old(self).max(),
            final(self).messenger() == old(self).messenger(),
    {
        self.value = value;
        match warning(self.value, self.max) {
            Some(message) => {
                self.messenger.send(message);
            },
            None => {},
        }
    }
}

} // verus!
