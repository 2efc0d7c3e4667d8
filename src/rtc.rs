//! The real-time clock of MBC3 cartridges.
use vstd::prelude::*;

verus! {

/// Seconds in a day.
pub const SECONDS_PER_DAY: u64 = 86400;

/// The day counter has nine bits.
pub const DAYS_PER_CYCLE: u64 = 512;

/// A span of time as the clock registers hold it.
#[derive(Clone, Copy, Debug, PartialEq, Eq, Structural)]
pub struct Duration {
    pub seconds: u64,
    pub minutes: u64,
    pub hours: u64,
    pub days: u64,
}

/// The clock registers that show `s` seconds, with days modulo 512.
pub open spec fn duration_of(s: int) -> Duration {
    Duration {
        seconds: (s % 60) as u64,
        minutes: ((s / 60) % 60) as u64,
        hours: ((s / 3600) % 24) as u64,
        days: ((s / 86400) % 512) as u64,
    }
}

impl Duration {
    pub open spec fn wf(&self) -> bool {
        self.seconds < 60 && self.minutes < 60 && self.hours < 24 && self.days < 512
    }

    /// The seconds that the registers stand for.
    pub open spec fn total(&self) -> int {
        self.seconds + self.minutes * 60 + self.hours * 3600 + self.days * 86400
    }

    /// Zero.
    pub fn new() -> (r: Duration)
        ensures
            r.total() == 0,
            r.wf(),
    {
        Duration { seconds: 0, minutes: 0, hours: 0, days: 0 }
    }

    /// The registers for a number of seconds, days counted modulo 512.
    pub fn from(seconds: u64) -> (r: Duration)
        ensures
            r == duration_of(seconds as int),
            r.wf(),
    {
        Duration {
            seconds: seconds % 60,
            minutes: (seconds / 60) % 60,
            hours: (seconds / 3600) % 24,
            days: (seconds / 86400) % 512,
        }
    }

    /// The seconds that this duration stands for.
    pub fn get_seconds(&self) -> (r: u64)
        requires
            self.wf(),
        ensures
            r == self.total(),
            r < DAYS_PER_CYCLE * SECONDS_PER_DAY,
    {
        self.seconds + self.minutes * 60 + self.hours * 3600 + self.days * 86400
    }

    /// This duration advanced by some seconds, days modulo 512.
    pub fn add_seconds(&self, seconds: u64) -> (r: Duration)
        requires
            self.wf(),
            seconds <= u64::MAX / 2,
        ensures
            r == duration_of(self.total() + seconds),
            r.wf(),
    {
        Duration::from(self.get_seconds() + seconds)
    }
}

/// Relies on time::get_time: the current Unix time in seconds. The value
/// depends on the host clock, so nothing is stated of it.
#[verifier::external_body]
fn unix_time_now() -> (r: i64) {
    time::get_time().sec
}

/// The clock: its running value, anchored at a Unix time, an optional
/// latched copy, and the halt and day-carry bits.
#[derive(Clone, Copy, Debug, PartialEq, Eq, Structural)]
pub struct RTC {
    pub last: i64,
    pub duration: Duration,
    pub latched: Option<Duration>,
    pub halt: bool,
    pub day_carry: bool,
}

impl RTC {
    pub open spec fn wf(&self) -> bool {
        &&& self.duration.wf()
        &&& self.latched matches Some(d) ==> d.wf()
    }

    /// The registers as read: the latched copy if there is one.
    pub open spec fn shown(&self) -> Duration {
        match self.latched {
            Some(d) => d,
            None => self.duration,
        }
    }

    /// The clock after it is brought up to the time `now`: when `now` is past
    /// the anchor and the clock is not halted, the elapsed seconds are added
    /// and a count past day 511 sets the day carry. The anchor moves to `now`.
    pub open spec fn updated(&self, now: i64) -> RTC {
        if now <= self.last {
            *self
        } else if self.halt {
            RTC { last: now, ..*self }
        } else {
            let sum = self.duration.total() + (now - self.last);
            RTC {
                last: now,
                duration: duration_of(sum),
                day_carry: self.day_carry || sum >= 512 * 86400,
                ..*self
            }
        }
    }

    /// A clock at zero, anchored at the current time.
    pub fn new() -> (r: RTC)
        ensures
            r.duration.total() == 0,
            r.latched is None,
            !r.halt && !r.day_carry,
            r.wf(),
    {
        RTC { last: unix_time_now(), duration: Duration::new(), latched: None, halt: false, day_carry: false }
    }

    /// Brings the clock up to the time `now`.
    pub fn update_at(&mut self, now: i64)
        requires
            old(self).wf(),
        ensures
            *final(self) == old(self).updated(now),
            final(self).wf(),
    {
        if now > self.last {
            let delta: u64 = (now as i128 - self.last as i128) as u64;
            self.last = now;
            if !self.halt {
                let total: u128 = self.duration.get_seconds() as u128 + delta as u128;
                self.duration = Duration {
                    seconds: (total % 60) as u64,
                    minutes: ((total / 60) % 60) as u64,
                    hours: ((total / 3600) % 24) as u64,
                    days: ((total / 86400) % 512) as u64,
                };
                if total >= (DAYS_PER_CYCLE * SECONDS_PER_DAY) as u128 {
                    self.day_carry = true;
                }
            }
        }
    }

    /// Brings the clock up to the current time.
    pub fn update(&mut self)
        requires
            old(self).wf(),
        ensures
            exists|now: i64| *final(self) == #[trigger] old(self).updated(now),
            final(self).wf(),
    {
        let now = unix_time_now();
        self.update_at(now);
    }

    /// Brings the clock up to date and latches a copy of it.
    pub fn latch(&mut self)
        requires
            old(self).wf(),
        ensures
            exists|now: i64|
                *final(self) == (RTC { latched: Some(#[trigger] old(self).updated(now).duration), ..old(self).updated(now) }),
            final(self).wf(),
    {
        self.update();
        self.latched = Some(self.duration);
    }

    /// Drops the latched copy.
    pub fn unlatch(&mut self)
        ensures
            *final(self) == (RTC { latched: None, ..*old(self) }),
    {
        self.latched = None;
    }

    fn shown_exec(&self) -> (r: Duration)
        ensures
            r == self.shown(),
    {
        match self.latched {
            Some(d) => d,
            None => self.duration,
        }
    }

    /// RTC S.
    pub fn seconds(&self) -> (r: u8)
        requires
            self.wf(),
        ensures
            r == self.shown().seconds,
    {
        self.shown_exec().seconds as u8
    }

    /// Writes RTC S (modulo 60).
    pub fn set_seconds(&mut self, value: u8)
        ensures
            *final(self) == (RTC { duration: Duration { seconds: (value % 60) as u64, ..old(self).duration }, ..*old(self) }),
    {
        self.duration.seconds = (value % 60) as u64;
    }

    /// RTC M.
    pub fn minutes(&self) -> (r: u8)
        requires
            self.wf(),
        ensures
            r == self.shown().minutes,
    {
        self.shown_exec().minutes as u8
    }

    /// Writes RTC M (modulo 60).
    pub fn set_minutes(&mut self, value: u8)
        ensures
            *final(self) == (RTC { duration: Duration { minutes: (value % 60) as u64, ..old(self).duration }, ..*old(self) }),
    {
        self.duration.minutes = (value % 60) as u64;
    }

    /// RTC H.
    pub fn hours(&self) -> (r: u8)
        requires
            self.wf(),
        ensures
            r == self.shown().hours,
    {
        self.shown_exec().hours as u8
    }

    /// Writes RTC H (modulo 24).
    pub fn set_hours(&mut self, value: u8)
        ensures
            *final(self) == (RTC { duration: Duration { hours: (value % 24) as u64, ..old(self).duration }, ..*old(self) }),
    {
        self.duration.hours = (value % 24) as u64;
    }

    /// RTC DL: the low eight bits of the day counter.
    pub fn days_low(&self) -> (r: u8)
        requires
            self.wf(),
        ensures
            r == self.shown().days % 256,
    {
        (self.shown_exec().days % 256) as u8
    }

    /// Writes RTC DL; bit 8 of the day counter is kept.
    pub fn set_days_low(&mut self, value: u8)
        requires
            old(self).wf(),
        ensures
            *final(self) == (RTC {
                duration: Duration { days: (value + (old(self).duration.days / 256) * 256) as u64, ..old(self).duration },
                ..*old(self)
            }),
            final(self).wf(),
    {
        let days = self.duration.days;
        self.duration.days = value as u64 + (days / 256) * 256;
    }

    /// RTC DH: bit 0 is bit 8 of the day counter, bit 6 the halt bit, bit 7 the day carry.
    pub fn days_high(&self) -> (r: u8)
        requires
            self.wf(),
        ensures
            r == (self.shown().days / 256) + (if self.halt { 64int } else { 0 }) + (if self.day_carry {
                128int
            } else {
                0
            }),
    {
        let high: u8 = (self.shown_exec().days / 256) as u8;
        let halt: u8 = if self.halt { 64 } else { 0 };
        let carry: u8 = if self.day_carry { 128 } else { 0 };
        high + halt + carry
    }

    /// Writes RTC DH: bit 0 into bit 8 of the day counter, bit 6 into the halt
    /// bit, bit 7 into the day carry.
    pub fn set_days_high(&mut self, value: u8)
        requires
            old(self).wf(),
        ensures
            *final(self) == (RTC {
                duration: Duration { days: (old(self).duration.days % 256 + (value % 2) * 256) as u64, ..old(self).duration },
                halt: (value / 64) % 2 == 1,
                day_carry: value >= 128,
                ..*old(self)
            }),
            final(self).wf(),
    {
        self.duration.days = self.duration.days % 256 + (value as u64 % 2) * 256;
        self.halt = (value / 64) % 2 == 1;
        self.day_carry = value >= 128;
    }
}

} // verus!
