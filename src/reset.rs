use vstd::prelude::*;
use crate::device::{motor_reset_frame, sensor_reset_frame, Board};
use crate::frame::SPIError;
use crate::motor::{LED_TO_FIRMWARE_CONTROL, MOTOR_FLOAT};
use crate::ports::{MotorPort, SensorPort};
use crate::sensor::SensorType;

verus! {

/// Number of requests that a reset sends: one per sensor port, three per motor port.
pub const RESET_STEPS: usize = 16;

/// A reset of the whole board in progress. It hands out its requests one at
/// a time, takes the outcome of each, and goes on to the next whatever that
/// outcome was. It fails as a whole when any request failed, with the first
/// failure.
pub struct ResetAll {
    frames: Vec<Vec<u8>>,
    next: usize,
    failure: Option<SPIError>,
}

impl ResetAll {
    /// The requests of the reset, in order.
    pub closed spec fn requests(&self) -> Seq<Seq<u8>> {
        self.frames@.map_values(|f: Vec<u8>| f@)
    }

    /// How many outcomes have been recorded.
    pub closed spec fn sent(&self) -> nat {
        self.next as nat
    }

    /// Whether any recorded outcome was a failure.
    pub closed spec fn failed(&self) -> bool {
        self.failure is Some
    }

    pub closed spec fn wf(&self) -> bool {
        &&& self.frames@.len() == RESET_STEPS
        &&& self.next <= RESET_STEPS
    }

    /// The request to send next, or `None` once every request has an outcome.
    pub fn next_request(&self) -> (r: Option<&Vec<u8>>)
        requires
            self.wf(),
        ensures
            self.sent() < RESET_STEPS ==> (r matches Some(f) && f@ == self.requests()[self.sent() as int]),
            self.sent() >= RESET_STEPS ==> r is None,
    {
        if self.next < self.frames.len() {
            Some(&self.frames[self.next])
        } else {
            None
        }
    }

    /// Whether every request has an outcome.
    pub fn is_done(&self) -> (r: bool)
        requires
            self.wf(),
        ensures
            r == (self.sent() == RESET_STEPS),
    {
        self.next == self.frames.len()
    }

    /// Records the outcome of the request last handed out and moves on to
    /// the next one, whether that outcome was a success or a failure.
    pub fn record(&mut self, outcome: Result<(), SPIError>)
        requires
            old(self).wf(),
            old(self).sent() < RESET_STEPS,
        ensures
            final(self).wf(),
            final(self).requests() == old(self).requests(),
            final(self).requests().len() == RESET_STEPS,
            final(self).sent() == old(self).sent() + 1,
            final(self).failed() == (old(self).failed() || outcome is Err),
    {
        if self.failure.is_none() {
            match outcome {
                Err(e) => {
                    self.failure = Some(e);
                },
                Ok(()) => {},
            }
        }
        self.next = self.next + 1;
    }

    /// The result of the whole reset: success only when no request failed.
    pub fn finish(self) -> (r: Result<(), SPIError>)
        requires
            self.wf(),
            self.sent() == RESET_STEPS,
        ensures
            r is Ok <==> !self.failed(),
    {
        match self.failure {
            Some(e) => Err(e),
            None => Ok(()),
        }
    }
}

impl Board {
    /// Starts a reset of the whole board: every sensor port goes back to no
    /// mode, here and on the board; every motor is left floating with no
    /// limits; the LED goes back to the firmware.
    pub fn reset_all(&mut self) -> (r: ResetAll)
        ensures
            r.wf(),
            r.sent() == 0,
            !r.failed(),
            r.requests().len() == RESET_STEPS,
            forall|i: int| 0 <= i < 4 ==> #[trigger] r.requests()[i] == sensor_reset_frame(old(self).spec_address(), i),
            forall|j: int, s: int|
                0 <= j < 4 && 0 <= s < 3 ==> r.requests()[4 + 3 * j + s]
                    == #[trigger] motor_reset_frame(old(self).spec_address(), j, s),
            forall|p: SensorPort| #[trigger] final(self).configured(p) == SensorType::NoSensor,
            final(self).spec_address() == old(self).spec_address(),
    {
        let ghost address = self.spec_address();
        let mut frames: Vec<Vec<u8>> = Vec::new();
        let mut i: usize = 0;
        while i < 4
            invariant
                i <= 4,
                self.spec_address() == address,
                frames@.len() == i,
                forall|k: int| 0 <= k < i ==> #[trigger] frames@[k]@ == sensor_reset_frame(address, k),
                forall|p: SensorPort| p.spec_index() < i ==> #[trigger] self.configured(p) == SensorType::NoSensor,
            decreases 4 - i,
        {
            let port = SensorPort::from_index(i);
            let f = self.set_sensor_type(port, SensorType::NoSensor, 0);
            match f {
                Ok(f) => frames.push(f),
                Err(_) => {},
            }
            i += 1;
        }
        let mut j: usize = 0;
        while j < 4
            invariant
                j <= 4,
                self.spec_address() == address,
                frames@.len() == 4 + 3 * j,
                forall|k: int| 0 <= k < 4 ==> #[trigger] frames@[k]@ == sensor_reset_frame(address, k),
                forall|m: int, s: int|
                    0 <= m < j && 0 <= s < 3 ==> frames@[4 + 3 * m + s]@
                        == #[trigger] motor_reset_frame(address, m, s),
                forall|p: SensorPort| #[trigger] self.configured(p) == SensorType::NoSensor,
            decreases 4 - j,
        {
            let port = MotorPort::from_index(j);
            frames.push(self.set_motor_power_request(port, MOTOR_FLOAT));
            frames.push(self.set_motor_limits_request(port, 0, 0));
            frames.push(self.set_led_request(LED_TO_FIRMWARE_CONTROL));
            j += 1;
        }
        ResetAll { frames, next: 0, failure: None }
    }
}

} // verus!
