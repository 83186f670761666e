//! Decisions of the sample scheduler. The scheduler ticks at 80 Hz; at each
//! tick it reads the measurement status and does the work that the status
//! asks for. The work itself (clocking the converter, waiting, averaging)
//! is the caller's; what is decided here is which work is due, what a sample
//! is sent as, and what the status is once the work is done.

use crate::outbox::{queued, DataPointChannel, QueueFull, DATA_POINT_COMMAND_CHANNEL_SIZE};
use crate::progressor::{
    clock_low_bits, frame_of, CalibrationPoint, ControlOpCode, DataPoint, DeviceState,
    MeasurementTaskStatus, ResponseCode,
};
use vstd::prelude::*;

verus! {

/// Period of the scheduler in microseconds: 80 ticks a second.
pub const SAMPLE_PERIOD_MICROS: u64 = 12_500;

/// The work that is due at a tick.
#[derive(Copy, Debug, Clone, PartialEq, Eq, Structural)]
pub enum ScheduledWork {
    /// Nothing is due.
    Idle,
    /// A sample is to be taken and sent.
    Sample,
    /// The scale is to be tared. After a soft tare the measurement goes on;
    /// after an explicit one it does not.
    Tare { soft: bool },
    /// The calibration is to be updated with a point at the given target
    /// weight (bit pattern of an IEEE-754 single).
    Calibrate(u32),
    /// The default calibration is to be restored.
    RestoreDefaultCalibration,
}

/// The work that a measurement status asks for.
pub open spec fn work_for(status: MeasurementTaskStatus) -> ScheduledWork {
    match status {
        MeasurementTaskStatus::Disabled => ScheduledWork::Idle,
        MeasurementTaskStatus::Enabled => ScheduledWork::Sample,
        MeasurementTaskStatus::Tare => ScheduledWork::Tare { soft: false },
        MeasurementTaskStatus::SoftTare => ScheduledWork::Tare { soft: true },
        MeasurementTaskStatus::Calibration(weight) => ScheduledWork::Calibrate(weight),
        MeasurementTaskStatus::DefaultCalibration => ScheduledWork::RestoreDefaultCalibration,
    }
}

/// Microseconds from the start of the measurement to `now_micros`, on a
/// 32-bit clock that wraps around.
pub open spec fn elapsed_since(start_time: u32, now_micros: u64) -> u32 {
    let now = clock_low_bits(now_micros);
    if now >= start_time {
        (now - start_time) as u32
    } else {
        (now + 0x1_0000_0000 - start_time) as u32
    }
}

impl DeviceState {
    /// The state once the work that was due has been done: a tare leaves the
    /// device tared, with the measurement enabled if the tare was a soft one
    /// and disabled if not; a calibration leaves the measurement disabled.
    pub open spec fn after_work(self, work: ScheduledWork) -> DeviceState {
        match work {
            ScheduledWork::Tare { soft } => DeviceState {
                tared: true,
                measurement_status: if soft {
                    MeasurementTaskStatus::Enabled
                } else {
                    MeasurementTaskStatus::Disabled
                },
                ..self
            },
            ScheduledWork::Calibrate(_) | ScheduledWork::RestoreDefaultCalibration => DeviceState {
                measurement_status: MeasurementTaskStatus::Disabled,
                ..self
            },
            _ => self,
        }
    }

    /// The calibration points once another one has been taken: it fills the
    /// first free place; where both are taken, the older point leaves and the
    /// newer one moves up, so that the line is always drawn through the two
    /// points taken last.
    pub open spec fn with_calibration_point(self, point: CalibrationPoint) -> DeviceState {
        let points = self.calibration_points;
        DeviceState {
            calibration_points: if points[0] is None {
                [Some(point), points[1]]
            } else if points[1] is None {
                [points[0], Some(point)]
            } else {
                [points[1], Some(point)]
            },
            ..self
        }
    }

    /// Keeps a calibration point that was just taken.
    pub fn add_calibration_point(&mut self, point: CalibrationPoint)
        ensures
            *final(self) == old(self).with_calibration_point(point),
    {
        let first = self.calibration_points[0];
        let second = self.calibration_points[1];
        let points = if first.is_none() {
            [Some(point), second]
        } else if second.is_none() {
            [first, Some(point)]
        } else {
            [second, Some(point)]
        };
        self.calibration_points = points;
    }

    /// The work that is due at this tick.
    pub fn scheduled_work(&self) -> (work: ScheduledWork)
        ensures
            work == work_for(self.measurement_status),
    {
        match self.measurement_status {
            MeasurementTaskStatus::Disabled => ScheduledWork::Idle,
            MeasurementTaskStatus::Enabled => ScheduledWork::Sample,
            MeasurementTaskStatus::Tare => ScheduledWork::Tare { soft: false },
            MeasurementTaskStatus::SoftTare => ScheduledWork::Tare { soft: true },
            MeasurementTaskStatus::Calibration(weight) => ScheduledWork::Calibrate(weight),
            MeasurementTaskStatus::DefaultCalibration => ScheduledWork::RestoreDefaultCalibration,
        }
    }

    /// Records that the work that was due has been done.
    pub fn complete(&mut self, work: ScheduledWork)
        ensures
            *final(self) == old(self).after_work(work),
    {
        match work {
            ScheduledWork::Tare { soft } => {
                self.tared = true;
                if soft {
                    self.measurement_status = MeasurementTaskStatus::Enabled;
                } else {
                    self.measurement_status = MeasurementTaskStatus::Disabled;
                }
            },
            ScheduledWork::Calibrate(_) | ScheduledWork::RestoreDefaultCalibration => {
                self.measurement_status = MeasurementTaskStatus::Disabled;
            },
            ScheduledWork::Idle | ScheduledWork::Sample => {},
        }
    }

    /// The timestamp of a sample taken at `now_micros`: the microseconds
    /// since the measurement was started.
    pub fn timestamp(&self, now_micros: u64) -> (elapsed: u32)
        ensures
            elapsed == elapsed_since(self.start_time, now_micros),
    {
        let now: u32 = (now_micros % 0x1_0000_0000) as u32;
        now.wrapping_sub(self.start_time)
    }

    /// Sends a weight (bit pattern of an IEEE-754 single, in kilograms) taken
    /// at `now_micros` as a weight measurement. When the channel is full the
    /// sample is dropped and the drop is reported: a late sample is worth
    /// less than none.
    pub fn publish_sample(
        &self,
        weight: u32,
        now_micros: u64,
        channel: &mut DataPointChannel,
    ) -> (sent: Result<(), QueueFull>)
        ensures
            sent is Ok <==> queued(*old(channel)).len() < DATA_POINT_COMMAND_CHANNEL_SIZE,
            sent is Ok ==> queued(*final(channel)).len() == queued(*old(channel)).len() + 1
                && queued(*final(channel)).drop_last() == queued(*old(channel)) && queued(
                *final(channel),
            ).last()@ == frame_of(
                ResponseCode::WeightMeasurement(
                    weight,
                    elapsed_since(self.start_time, now_micros),
                ),
            ),
            sent is Err ==> queued(*final(channel)) == queued(*old(channel)),
    {
        let response = ResponseCode::WeightMeasurement(weight, self.timestamp(now_micros));
        proof {
            response.lemma_payload_len();
        }
        let data_point = DataPoint::from(response);
        let sent = data_point.send(channel);
        proof {
            if sent is Ok {
                assert(queued(*channel).drop_last() =~= queued(*old(channel)));
            }
        }
        sent
    }
}

/// An explicit tare runs at the next tick and leaves the device tared with
/// the measurement disabled. A measurement that is started untared runs a
/// soft tare at the next tick, which leaves the device tared with the
/// measurement enabled; from then on a measurement starts at once. A stopped
/// measurement leaves nothing due.
pub proof fn lemma_tare_cycle(state: DeviceState, data: Seq<u8>, now_micros: u64)
    ensures
        ({
            let asked = state.after_command(ControlOpCode::TareScale, data, now_micros);
            let done = asked.after_work(work_for(asked.measurement_status));
            &&& work_for(asked.measurement_status) == ScheduledWork::Tare { soft: false }
            &&& done.tared
            &&& done.measurement_status == MeasurementTaskStatus::Disabled
        }),
        !state.tared ==> ({
            let asked = state.after_command(ControlOpCode::StartMeasurement, data, now_micros);
            let done = asked.after_work(work_for(asked.measurement_status));
            let again = done.after_command(ControlOpCode::StartMeasurement, data, now_micros);
            &&& work_for(asked.measurement_status) == ScheduledWork::Tare { soft: true }
            &&& done.tared
            &&& done.measurement_status == MeasurementTaskStatus::Enabled
            &&& work_for(done.measurement_status) == ScheduledWork::Sample
            &&& again.measurement_status == MeasurementTaskStatus::Enabled
        }),
        work_for(
            state.after_command(
                ControlOpCode::StopMeasurement,
                data,
                now_micros,
            ).measurement_status,
        ) == ScheduledWork::Idle,
{
}

} // verus!
