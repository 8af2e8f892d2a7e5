//! One client conversation.

use vstd::prelude::*;
use std::time::Instant;

verus! {

/// A reading of the monotonic clock. Nothing inside it is visible here: it
/// is taken, kept and handed back to the clock.
#[verifier::external_type_specification]
#[verifier::external_body]
pub struct ExInstant(Instant);

/// `Instant::now` reads the monotonic clock. Nothing is claimed of the
/// reading.
pub assume_specification[ Instant::now ]() -> (reading: Instant)
;

/// `Instant::elapsed` measures the time that has passed since a reading.
/// Nothing is claimed of the measure.
pub assume_specification[ Instant::elapsed ](origin: &Instant) -> (passed: std::time::Duration)
;

/// `Duration::as_nanos` gives a span as a whole number of nanoseconds.
/// Nothing is claimed of the number.
pub assume_specification[ std::time::Duration::as_nanos ](span: &std::time::Duration) -> (nanos:
    u128)
;

/// The server's record of one client conversation.
///
/// `last_active` counts the nanoseconds from `created_at` to the latest
/// activity. It never goes down.
pub struct Session {
    pub id: String,
    pub protocol_version: String,
    pub initialized: bool,
    pub created_at: Instant,
    pub last_active: u128,
}

impl Session {
    /// The session after activity at `elapsed` nanoseconds from its creation:
    /// the later of that and the activity already recorded.
    pub open spec fn touched(self, elapsed: u128) -> Session {
        Session {
            last_active: if elapsed > self.last_active {
                elapsed
            } else {
                self.last_active
            },
            ..self
        }
    }

    /// The session once the client has acknowledged the handshake.
    pub open spec fn acknowledged(self) -> Session {
        Session { initialized: true, ..self }
    }

    /// A session that starts now: not yet initialized, with no activity
    /// after its creation.
    pub fn new(id: String, protocol_version: String) -> (session: Session)
        ensures
            session.id == id,
            session.protocol_version == protocol_version,
            !session.initialized,
            session.last_active == 0,
    {
        Session { id, protocol_version, initialized: false, created_at: Instant::now(), last_active: 0 }
    }

    /// Records activity at `elapsed` nanoseconds from creation.
    pub fn touch_at(&mut self, elapsed: u128)
        ensures
            *final(self) == old(self).touched(elapsed),
    {
        if elapsed > self.last_active {
            self.last_active = elapsed;
        }
    }

    /// Records activity now. The clock decides how far `last_active` moves;
    /// it does not move back, and nothing else changes.
    pub fn touch(&mut self)
        ensures
            exists|elapsed: u128| *final(self) == old(self).touched(elapsed),
            final(self).last_active >= old(self).last_active,
    {
        let passed = self.created_at.elapsed();
        let elapsed = passed.as_nanos();
        self.touch_at(elapsed);
    }
}

} // verus!
