//! The calendar layer: the clock's time as an instant in UTC, and the
//! range check between such an instant and the 32-bit timestamp registers.
use vstd::prelude::*;
use core::num::TryFromIntError;
use crate::registers::Registers;
use crate::rtc::Rtc;

verus! {

/// An instant in UTC: whole seconds since 1970-01-01T00:00:00Z (negative
/// before it) and the nanoseconds past that second. During a leap second the
/// nanoseconds run past one billion.
#[derive(Clone, Copy, Debug, PartialEq, Eq, Structural)]
pub struct UtcTime {
    pub secs: i64,
    pub nanos: u32,
}

impl UtcTime {
    /// The nanoseconds lie within one second, or within a leap second.
    pub open spec fn wf(self) -> bool {
        self.nanos < 2_000_000_000
    }

    /// The instant `secs` seconds after the epoch, on a whole second.
    pub open spec fn at_second(secs: u32) -> UtcTime {
        UtcTime { secs: secs as i64, nanos: 0 }
    }

    /// The instant truncated to its whole second.
    pub open spec fn truncated(self) -> UtcTime {
        UtcTime { secs: self.secs, nanos: 0 }
    }

    /// The instant lies between 1970-01-01T00:00:00Z and 2106-02-07T06:28:15Z,
    /// both included: its whole second fits the clock's unsigned 32-bit
    /// registers, and it is not past the last of those seconds.
    pub open spec fn in_register_range(self) -> bool {
        ||| 0 <= self.secs < u32::MAX
        ||| (self.secs == u32::MAX && self.nanos == 0)
    }

    /// The instant `secs` seconds after the epoch.
    pub fn from_unix_timestamp(secs: u32) -> (r: UtcTime)
        ensures
            r == UtcTime::at_second(secs),
            r.wf(),
    {
        UtcTime { secs: secs as i64, nanos: 0 }
    }

    /// The whole seconds since the epoch.
    pub fn timestamp(&self) -> (r: i64)
        ensures
            r == self.secs,
    {
        self.secs
    }

    /// The whole seconds since the epoch as a register value, or an error
    /// where the instant lies outside the range of the registers.
    pub fn register_timestamp(&self) -> (r: Result<u32, TryFromIntError>)
        ensures
            r is Ok <==> self.in_register_range(),
            r is Ok ==> r->Ok_0 == self.secs as u32,
    {
        let secs = u32::try_from(self.secs);
        match secs {
            Ok(s) => {
                if s == u32::MAX && self.nanos > 0 {
                    // Past the last whole second: the next second does not fit.
                    u32::try_from(self.secs + 1)
                } else {
                    secs
                }
            },
            Err(_) => secs,
        }
    }
}

impl Rtc {
    /// Returns the current time.
    pub fn get_time(&self) -> (r: UtcTime)
        ensures
            r == UtcTime::at_second(self@.dr),
            r.wf(),
    {
        UtcTime::from_unix_timestamp(self.get_unix_timestamp())
    }

    /// Sets the current time. Returns an error, and writes nothing, where the
    /// time is beyond the range of the clock.
    pub fn set_time(&mut self, time: UtcTime) -> (r: Result<(), TryFromIntError>)
        ensures
            r is Ok <==> time.in_register_range(),
            r is Ok ==> final(self)@ == old(self)@.loaded(time.secs as u32),
            r is Err ==> final(self)@ == old(self)@,
    {
        match time.register_timestamp() {
            Ok(secs) => {
                self.set_unix_timestamp(secs);
                Ok(())
            },
            Err(e) => Err(e),
        }
    }

    /// Sets the match register to the given time. When the clock reaches it,
    /// the match interrupt is raised (and is pending if it is enabled).
    /// Returns an error, and writes nothing, where the time is beyond the
    /// range of the clock.
    pub fn set_match(&mut self, match_time: UtcTime) -> (r: Result<(), TryFromIntError>)
        ensures
            r is Ok <==> match_time.in_register_range(),
            r is Ok ==> final(self)@ == old(self)@.with_match(match_time.secs as u32),
            r is Err ==> final(self)@ == old(self)@,
    {
        match match_time.register_timestamp() {
            Ok(secs) => {
                self.set_match_timestamp(secs);
                Ok(())
            },
            Err(e) => Err(e),
        }
    }
}

/// Setting the time to an instant in the clock's range and reading it back
/// gives that instant truncated to whole seconds.
pub proof fn lemma_time_round_trip(regs: Registers, time: UtcTime)
    requires
        time.in_register_range(),
    ensures
        UtcTime::at_second(regs.loaded(time.secs as u32).dr) == time.truncated(),
{
}

/// Setting the time to an instant before 1970-01-01T00:00:00Z or after
/// 2106-02-07T06:28:15Z fails.
pub proof fn lemma_time_out_of_range(time: UtcTime)
    requires
        time.secs < 0 || time.secs > u32::MAX || (time.secs == u32::MAX && time.nanos > 0),
    ensures
        !time.in_register_range(),
{
}

} // verus!
