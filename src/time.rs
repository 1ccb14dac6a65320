use vstd::prelude::*;
use crate::format::{clock_string, clock_text};

verus! {

/// Seconds in one day; a `Time` wraps silently at this bound.
pub const SECONDS_PER_DAY: u32 = 86400;

/// A clock reading `hour:minutes:second` within a single day.
#[derive(Clone, Copy, Debug, PartialEq, Eq, Structural)]
pub struct Time {
    pub second: u16,
    pub minutes: u16,
    pub hour: u16,
}

/// Failure of a clock operation.
#[derive(Clone, Copy, Debug, PartialEq, Eq, Structural)]
pub enum TimeError {
    /// A countdown was asked to go below `00:00:00`.
    Underflow,
}

impl Time {
    /// Every field is within its range.
    pub open spec fn wf(self) -> bool {
        self.hour < 24 && self.minutes < 60 && self.second < 60
    }

    /// The number of seconds since `00:00:00`.
    pub open spec fn total(self) -> int {
        self.hour * 3600 + self.minutes * 60 + self.second
    }

    /// The reading that lies `n` seconds after midnight, taken modulo one day.
    pub open spec fn from_total(n: int) -> Time {
        let d = n % 86400;
        Time { hour: (d / 3600) as u16, minutes: ((d % 3600) / 60) as u16, second: (d % 60) as u16 }
    }

    /// One second later, wrapping from `23:59:59` to `00:00:00`.
    pub open spec fn incremented(self) -> Time {
        Time::from_total(self.total() + 1)
    }

    /// One second earlier; meaningful only above `00:00:00`.
    pub open spec fn decremented(self) -> Time {
        Time::from_total(self.total() - 1)
    }

    pub open spec fn zero() -> Time {
        Time { second: 0, minutes: 0, hour: 0 }
    }

    pub fn new() -> (r: Time)
        ensures
            r == Time::zero(),
    {
        Time { second: 0, minutes: 0, hour: 0 }
    }

    pub fn is_zero(&self) -> (r: bool)
        ensures
            r == (*self == Time::zero()),
    {
        self.second == 0 && self.minutes == 0 && self.hour == 0
    }

    /// Advances the clock by one second, carrying into minutes and hours.
    pub fn increment_second(&mut self)
        requires
            old(self).wf(),
        ensures
            final(self).wf(),
            *final(self) == old(self).incremented(),
            final(self).total() == (old(self).total() + 1) % 86400,
    {
        self.second = self.second + 1;
        self.check_carry();
        proof {
            lemma_from_total_of_wf(*self);
        }
    }

    /// Restores the field ranges after `second` was advanced by one.
    fn check_carry(&mut self)
        requires
            old(self).second <= 60,
            old(self).minutes < 60,
            old(self).hour < 24,
        ensures
            final(self).wf(),
            final(self).total() == old(self).total() % 86400,
    {
        if self.second == 60 {
            self.second = 0;
            self.minutes = self.minutes + 1;
        }
        if self.minutes == 60 {
            self.minutes = 0;
            self.hour = self.hour + 1;
        }
        if self.hour == 24 {
            self.hour = 0;
        }
    }

    /// Moves the clock back by one second, borrowing from minutes and hours;
    /// at `00:00:00` it fails and leaves the clock unchanged.
    pub fn decrement_second(&mut self) -> (r: Result<(), TimeError>)
        requires
            old(self).wf(),
        ensures
            final(self).wf(),
            old(self).total() == 0 ==> r == Err::<(), TimeError>(TimeError::Underflow)
                && *final(self) == *old(self),
            old(self).total() > 0 ==> r == Ok::<(), TimeError>(()) && *final(self)
                == old(self).decremented(),
            old(self).total() > 0 ==> final(self).total() == old(self).total() - 1,
    {
        if self.second > 0 {
            self.second = self.second - 1;
        } else if self.minutes > 0 {
            self.second = 59;
            self.minutes = self.minutes - 1;
        } else if self.hour > 0 {
            self.second = 59;
            self.minutes = 59;
            self.hour = self.hour - 1;
        } else {
            return Err(TimeError::Underflow);
        }
        proof {
            lemma_from_total_of_wf(*self);
        }
        Ok(())
    }

    /// Sets the clock to `seconds` after midnight; whole days are dropped.
    pub fn set_time_by_second(&mut self, seconds: u32)
        ensures
            final(self).wf(),
            *final(self) == Time::from_total(seconds as int),
            final(self).total() == seconds as int % 86400,
    {
        let d: u32 = seconds % SECONDS_PER_DAY;
        self.hour = (d / 3600) as u16;
        self.minutes = ((d % 3600) / 60) as u16;
        self.second = (d % 60) as u16;
        proof {
            lemma_from_total_wf(seconds as int);
        }
    }

    /// The number of seconds since midnight.
    pub fn get_second(&self) -> (r: u32)
        requires
            self.wf(),
        ensures
            r == self.total(),
    {
        self.second as u32 + self.minutes as u32 * 60 + self.hour as u32 * 3600
    }

    /// The reading as `HH:MM:SS`, each part zero-padded to two digits.
    pub fn formatted_string(&self) -> (r: String)
        ensures
            r@ == clock_text(self.hour as nat, self.minutes as nat, self.second as nat),
    {
        clock_string(self.hour as u32, self.minutes as u32, self.second as u32)
    }

    /// Sets the clock to `00:00:00`.
    pub fn reset_time(&mut self)
        ensures
            *final(self) == Time::zero(),
    {
        self.second = 0;
        self.minutes = 0;
        self.hour = 0;
    }
}

/// `from_total` yields a reading in range that stands for `n` modulo one day.
pub proof fn lemma_from_total_wf(n: int)
    ensures
        Time::from_total(n).wf(),
        Time::from_total(n).total() == n % 86400,
{
    let d = n % 86400;
    assert(0 <= d < 86400);
    assert(d == (d / 3600) * 3600 + (d % 3600)) by (nonlinear_arith)
        requires 0 <= d;
    assert((d % 3600) == ((d % 3600) / 60) * 60 + (d % 3600) % 60) by (nonlinear_arith)
        requires 0 <= d;
    assert((d % 3600) % 60 == d % 60) by (nonlinear_arith)
        requires 0 <= d;
    assert(d / 3600 < 24) by (nonlinear_arith)
        requires 0 <= d < 86400;
}

/// Setting the clock from a second count below one day and reading it back
/// gives that count.
pub proof fn lemma_seconds_round_trip(n: u32)
    requires
        n < SECONDS_PER_DAY,
    ensures
        Time::from_total(n as int).total() == n,
{
    lemma_from_total_wf(n as int);
}

/// One second forward and one second back is the same reading, everywhere
/// but at `23:59:59`, where the forward step wraps to `00:00:00`.
pub proof fn lemma_increment_then_decrement(t: Time)
    requires
        t.wf(),
        t.total() != 86399,
    ensures
        t.incremented().total() > 0,
        t.incremented().decremented() == t,
{
    lemma_from_total_wf(t.total() + 1);
    lemma_from_total_of_wf(t);
}

/// A reading in range is recovered from its second count.
pub proof fn lemma_from_total_of_wf(t: Time)
    requires
        t.wf(),
    ensures
        Time::from_total(t.total()) == t,
{
    let n = t.total();
    assert(0 <= n < 86400);
    assert(n % 86400 == n);
    assert(n / 3600 == t.hour as int) by (nonlinear_arith)
        requires n == t.hour * 3600 + t.minutes * 60 + t.second, t.minutes < 60, t.second < 60, 0 <= t.hour;
    assert(n % 3600 == t.minutes * 60 + t.second) by (nonlinear_arith)
        requires n == t.hour * 3600 + t.minutes * 60 + t.second, t.minutes < 60, t.second < 60, 0 <= t.hour;
    assert((t.minutes * 60 + t.second) / 60 == t.minutes as int) by (nonlinear_arith)
        requires t.second < 60, 0 <= t.minutes;
    assert(n % 60 == t.second as int) by (nonlinear_arith)
        requires n == t.hour * 3600 + t.minutes * 60 + t.second, t.second < 60, 0 <= t.hour, 0 <= t.minutes;
}

} // verus!
