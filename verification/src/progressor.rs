//! Progressor control commands and the device state they drive.

use crate::byte_vec::{byte_vec_as_slice, byte_vec_new, byte_vec_push, held_bytes};
use crate::little_endian::{
    be_value, le_bytes, lemma_minimal_le_bytes, lemma_minimal_le_bytes_len, lemma_pow256_values,
    minimal_le_bytes, pow256,
};
use crate::outbox::{queued, DataPointChannel, QueueFull, DATA_POINT_COMMAND_CHANNEL_SIZE};
use arrayvec::ArrayVec;
use vstd::prelude::*;

verus! {

/// Why an inbound control-point write could not be turned into a command.
#[derive(Clone, Copy, Debug, PartialEq, Eq, Structural)]
pub enum DecodeError {
    /// The first byte is not one of the known command codes.
    UnknownOpCode(u8),
    /// The buffer is too short for the command it announces.
    Malformed,
}

/// Progressor commands.
#[derive(Clone, Copy, Debug, PartialEq, Eq, Structural)]
pub enum ControlOpCode {
    /// Zero the weight while no load is applied.
    TareScale,
    /// Start continuous measurement at 80 Hz.
    StartMeasurement,
    /// Stop the measurement.
    StopMeasurement,
    /// Turn the device off.
    Shutdown,
    /// Measure the battery voltage in millivolts.
    SampleBattery,
    /// Ask for the device identifier.
    GetProgressorId,
    /// Ask for the application version.
    GetAppVersion,
    /// Ask for the calibration values.
    GetCalibration,
    /// Add a calibration point; the payload carries the target weight.
    AddCalibrationPoint,
    /// Restore the default calibration.
    DefaultCalibration,
}

impl ControlOpCode {
    /// The byte that stands for this command on the wire.
    pub open spec fn spec_code(self) -> u8 {
        match self {
            ControlOpCode::TareScale => 0x64,
            ControlOpCode::StartMeasurement => 0x65,
            ControlOpCode::StopMeasurement => 0x66,
            ControlOpCode::Shutdown => 0x6E,
            ControlOpCode::SampleBattery => 0x6F,
            ControlOpCode::GetProgressorId => 0x70,
            ControlOpCode::GetAppVersion => 0x6B,
            ControlOpCode::GetCalibration => 0x72,
            ControlOpCode::AddCalibrationPoint => 0x73,
            ControlOpCode::DefaultCalibration => 0x74,
        }
    }

    /// The byte that stands for this command on the wire.
    #[verifier::when_used_as_spec(spec_code)]
    pub fn code(self) -> (byte: u8)
        ensures
            byte == self.spec_code(),
    {
        match self {
            ControlOpCode::TareScale => 0x64,
            ControlOpCode::StartMeasurement => 0x65,
            ControlOpCode::StopMeasurement => 0x66,
            ControlOpCode::Shutdown => 0x6E,
            ControlOpCode::SampleBattery => 0x6F,
            ControlOpCode::GetProgressorId => 0x70,
            ControlOpCode::GetAppVersion => 0x6B,
            ControlOpCode::GetCalibration => 0x72,
            ControlOpCode::AddCalibrationPoint => 0x73,
            ControlOpCode::DefaultCalibration => 0x74,
        }
    }
}

/// The command a byte stands for, if any.
pub open spec fn opcode_of(byte: u8) -> Option<ControlOpCode> {
    if byte == 0x64 {
        Some(ControlOpCode::TareScale)
    } else if byte == 0x65 {
        Some(ControlOpCode::StartMeasurement)
    } else if byte == 0x66 {
        Some(ControlOpCode::StopMeasurement)
    } else if byte == 0x6B {
        Some(ControlOpCode::GetAppVersion)
    } else if byte == 0x6E {
        Some(ControlOpCode::Shutdown)
    } else if byte == 0x6F {
        Some(ControlOpCode::SampleBattery)
    } else if byte == 0x70 {
        Some(ControlOpCode::GetProgressorId)
    } else if byte == 0x72 {
        Some(ControlOpCode::GetCalibration)
    } else if byte == 0x73 {
        Some(ControlOpCode::AddCalibrationPoint)
    } else if byte == 0x74 {
        Some(ControlOpCode::DefaultCalibration)
    } else {
        None
    }
}

/// Decodes the command byte of a control-point write. Every byte outside the
/// command table is reported, with the byte, as an unknown command.
pub fn decode_opcode(byte: u8) -> (decoded: Result<ControlOpCode, DecodeError>)
    ensures
        decoded == match opcode_of(byte) {
            Some(op) => Ok::<ControlOpCode, DecodeError>(op),
            None => Err::<ControlOpCode, DecodeError>(DecodeError::UnknownOpCode(byte)),
        },
{
    match byte {
        0x64 => Ok(ControlOpCode::TareScale),
        0x65 => Ok(ControlOpCode::StartMeasurement),
        0x66 => Ok(ControlOpCode::StopMeasurement),
        0x6E => Ok(ControlOpCode::Shutdown),
        0x6F => Ok(ControlOpCode::SampleBattery),
        0x70 => Ok(ControlOpCode::GetProgressorId),
        0x6B => Ok(ControlOpCode::GetAppVersion),
        0x72 => Ok(ControlOpCode::GetCalibration),
        0x73 => Ok(ControlOpCode::AddCalibrationPoint),
        0x74 => Ok(ControlOpCode::DefaultCalibration),
        _ => Err(DecodeError::UnknownOpCode(byte)),
    }
}

/// Converts an integer into its little-endian bytes with the zero bytes on the
/// most significant side trimmed. Zero keeps one zero byte.
pub fn to_le_bytes_without_trailing_zeros(input: u64) -> (out: ArrayVec<u8, 8>)
    ensures
        held_bytes(out) == minimal_le_bytes(input as nat),
{
    let mut out = byte_vec_new();
    byte_vec_push(&mut out, (input % 256) as u8);
    let mut rest: u64 = input / 256;
    let mut pushed: usize = 1;
    proof {
        lemma_pow256_values();
        reveal_with_fuel(pow256, 9);
        assert(held_bytes(out) =~= seq![(input % 256) as u8]);
    }
    while rest != 0
        invariant
            1 <= pushed <= 8,
            held_bytes(out).len() == pushed,
            rest < pow256((8 - pushed) as nat),
            minimal_le_bytes(input as nat) == held_bytes(out) + if rest == 0 {
                Seq::<u8>::empty()
            } else {
                minimal_le_bytes(rest as nat)
            },
        decreases rest,
    {
        let ghost before = held_bytes(out);
        byte_vec_push(&mut out, (rest % 256) as u8);
        proof {
            let tail = if rest / 256 == 0 {
                Seq::<u8>::empty()
            } else {
                minimal_le_bytes((rest / 256) as nat)
            };
            assert(before + (seq![(rest % 256) as u8] + tail) =~= before.push((rest % 256) as u8)
                + tail);
        }
        rest = rest / 256;
        pushed = pushed + 1;
    }
    assert(held_bytes(out) + Seq::<u8>::empty() =~= held_bytes(out));
    out
}

/// Maximum size in bytes of the payload of any data point.
pub const MAX_PAYLOAD_SIZE: usize = 12;

/// Size in bytes of a data point on the wire: code, length, payload area.
pub const DATA_POINT_SIZE: usize = 14;

/// What the device has to say, before it is laid out as a frame.
///
/// A weight is carried as the bit pattern of an IEEE-754 single: the codec
/// moves the four bytes and never computes with them.
#[derive(Copy, Clone, Debug)]
pub enum ResponseCode {
    /// Battery voltage in millivolts.
    SampleBatteryVoltage(u32),
    /// A weight in kilograms (bit pattern) and the microseconds since the
    /// measurement was started.
    WeightMeasurement(u32, u32),
    /// The battery is empty; the device turns itself off after this warning.
    LowPowerWarning,
    /// The application version, as text bytes.
    AppVersion(&'static [u8]),
    /// The device identifier.
    ProgressorId(u64),
    /// The calibration curve, an opaque block.
    CalibrationCurve([u8; 12]),
}

impl ResponseCode {
    /// The response code byte of the frame.
    pub open spec fn spec_op_code(&self) -> u8 {
        match self {
            ResponseCode::WeightMeasurement(..) => 0x01,
            ResponseCode::LowPowerWarning => 0x04,
            _ => 0x00,
        }
    }

    /// The meaningful bytes of the frame's payload area.
    pub open spec fn payload(self) -> Seq<u8> {
        match self {
            ResponseCode::SampleBatteryVoltage(millivolts) => le_bytes(millivolts as nat, 4),
            ResponseCode::WeightMeasurement(weight, timestamp) => le_bytes(weight as nat, 4)
                + le_bytes(timestamp as nat, 4),
            ResponseCode::LowPowerWarning => Seq::empty(),
            ResponseCode::AppVersion(version) => version@,
            ResponseCode::ProgressorId(id) => minimal_le_bytes(id as nat),
            ResponseCode::CalibrationCurve(curve) => curve@,
        }
    }

    /// Whether the payload fits the payload area. Only an application version
    /// can fail to.
    pub open spec fn fits(self) -> bool {
        self.payload().len() <= MAX_PAYLOAD_SIZE
    }

    /// How long the payload of each kind of response is. Every response but
    /// an over-long application version fits the payload area.
    pub proof fn lemma_payload_len(self)
        ensures
            self is SampleBatteryVoltage ==> self.payload().len() == 4,
            self is WeightMeasurement ==> self.payload().len() == 8,
            self is LowPowerWarning ==> self.payload().len() == 0,
            self is ProgressorId ==> 1 <= self.payload().len() <= 8,
            self is CalibrationCurve ==> self.payload().len() == 12,
            !(self is AppVersion) ==> self.fits(),
    {
        match self {
            ResponseCode::SampleBatteryVoltage(millivolts) => {
                crate::little_endian::lemma_le_bytes_len(millivolts as nat, 4);
            },
            ResponseCode::WeightMeasurement(weight, timestamp) => {
                crate::little_endian::lemma_le_bytes_len(weight as nat, 4);
                crate::little_endian::lemma_le_bytes_len(timestamp as nat, 4);
            },
            ResponseCode::ProgressorId(id) => {
                lemma_pow256_values();
                lemma_minimal_le_bytes(id as nat);
                lemma_minimal_le_bytes_len(id as nat, 8);
            },
            _ => {},
        }
    }

    /// The response code byte of the frame.
    #[verifier::when_used_as_spec(spec_op_code)]
    pub fn op_code(&self) -> (code: u8)
        ensures
            code == self.spec_op_code(),
    {
        match self {
            ResponseCode::SampleBatteryVoltage(..)
            | ResponseCode::AppVersion(..)
            | ResponseCode::ProgressorId(..)
            | ResponseCode::CalibrationCurve(..) => 0x00,
            ResponseCode::WeightMeasurement(..) => 0x01,
            ResponseCode::LowPowerWarning => 0x04,
        }
    }

    /// The number of meaningful payload bytes.
    pub fn length(&self) -> (length: u8)
        requires
            self.fits(),
        ensures
            length == self.payload().len(),
    {
        proof {
            self.lemma_payload_len();
        }
        match self {
            ResponseCode::SampleBatteryVoltage(..) => 4,
            ResponseCode::WeightMeasurement(..) => 8,
            ResponseCode::LowPowerWarning => 0,
            ResponseCode::AppVersion(version) => version.len() as u8,
            ResponseCode::ProgressorId(id) => {
                let bytes = to_le_bytes_without_trailing_zeros(*id);
                byte_vec_as_slice(&bytes).len() as u8
            },
            ResponseCode::CalibrationCurve(..) => 12,
        }
    }

    /// The payload area: the payload, then zero bytes up to the area's size.
    pub fn value(&self) -> (value: [u8; 12])
        requires
            self.fits(),
        ensures
            value@ == zero_padded(self.payload()),
    {
        let mut value = [0u8; 12];
        proof {
            self.lemma_payload_len();
        }
        match self {
            ResponseCode::SampleBatteryVoltage(millivolts) => {
                let bytes = u32_to_le_bytes(*millivolts);
                copy_into(&mut value, 0, bytes.as_slice());
            },
            ResponseCode::WeightMeasurement(weight, timestamp) => {
                let low = u32_to_le_bytes(*weight);
                let high = u32_to_le_bytes(*timestamp);
                copy_into(&mut value, 0, low.as_slice());
                copy_into(&mut value, 4, high.as_slice());
            },
            ResponseCode::LowPowerWarning => (),
            ResponseCode::ProgressorId(id) => {
                let bytes = to_le_bytes_without_trailing_zeros(*id);
                copy_into(&mut value, 0, byte_vec_as_slice(&bytes));
            },
            ResponseCode::AppVersion(version) => {
                copy_into(&mut value, 0, version);
            },
            ResponseCode::CalibrationCurve(curve) => {
                copy_into(&mut value, 0, curve.as_slice());
            },
        }
        assert(value@ =~= zero_padded(self.payload()));
        value
    }
}

/// `payload`, then zero bytes up to the size of the payload area.
pub open spec fn zero_padded(payload: Seq<u8>) -> Seq<u8> {
    Seq::new(
        MAX_PAYLOAD_SIZE as nat,
        |i: int|
            if i < payload.len() {
                payload[i]
            } else {
                0u8
            },
    )
}

/// The four bytes of `value`, least significant first.
fn u32_to_le_bytes(value: u32) -> (bytes: [u8; 4])
    ensures
        bytes@ == le_bytes(value as nat, 4),
{
    let bytes = [
        (value % 256) as u8,
        ((value / 256) % 256) as u8,
        ((value / 65536) % 256) as u8,
        ((value / 16777216) % 256) as u8,
    ];
    proof {
        reveal_with_fuel(le_bytes, 5);
        assert(bytes@ =~= le_bytes(value as nat, 4));
    }
    bytes
}

/// Writes `bytes` into `target` from `offset` on and leaves the rest alone.
fn copy_into(target: &mut [u8; 12], offset: usize, bytes: &[u8])
    requires
        offset + bytes@.len() <= 12,
    ensures
        forall|i: int|
            0 <= i < 12 ==> final(target)@[i] == if offset <= i < offset + bytes@.len() {
                bytes@[i - offset]
            } else {
                old(target)@[i]
            },
{
    let mut done: usize = 0;
    while done < bytes.len()
        invariant
            done <= bytes@.len(),
            offset + bytes@.len() <= 12,
            forall|i: int|
                0 <= i < 12 ==> target@[i] == if offset <= i < offset + done {
                    bytes@[i - offset]
                } else {
                    old(target)@[i]
                },
        decreases bytes@.len() - done,
    {
        target[offset + done] = bytes[done];
        done = done + 1;
    }
}

/// A data point as a reader of the wire sees it.
pub struct DataPointView {
    /// Response code.
    pub response_code: u8,
    /// Number of meaningful bytes in `value`.
    pub length: u8,
    /// The payload area, all twelve bytes of it.
    pub value: Seq<u8>,
}

impl DataPointView {
    /// The meaningful bytes: the first `length` of the payload area.
    pub open spec fn payload(self) -> Seq<u8> {
        self.value.subrange(0, self.length as int)
    }

    /// The fourteen bytes that go over the wire.
    pub open spec fn wire(self) -> Seq<u8> {
        seq![self.response_code, self.length] + self.value
    }
}

/// The frame that a response is laid out as.
pub open spec fn frame_of(response: ResponseCode) -> DataPointView {
    DataPointView {
        response_code: response.spec_op_code(),
        length: response.payload().len() as u8,
        value: zero_padded(response.payload()),
    }
}

/// Frame sent on the data-point characteristic: a response code, the number
/// of meaningful payload bytes, and a payload area of twelve bytes.
#[derive(Copy, Clone, Debug)]
pub struct DataPoint {
    response_code: u8,
    length: u8,
    value: [u8; 12],
}

impl View for DataPoint {
    type V = DataPointView;

    closed spec fn view(&self) -> DataPointView {
        DataPointView { response_code: self.response_code, length: self.length, value: self.value@ }
    }
}

impl DataPoint {
    #[verifier::type_invariant]
    spec fn length_in_area(self) -> bool {
        self.length <= MAX_PAYLOAD_SIZE
    }

    /// Lays a response out as a frame.
    pub fn from(response: ResponseCode) -> (data_point: DataPoint)
        requires
            response.fits(),
        ensures
            data_point@ == frame_of(response),
    {
        let length: u8 = response.length();
        let value = response.value();
        let response_code: u8 = response.op_code();
        DataPoint { length, value, response_code }
    }

    /// Sends the data point to the channel. When the channel is full the
    /// data point is dropped, the channel stays as it is, and the drop is
    /// reported to the caller.
    pub fn send(&self, channel: &mut DataPointChannel) -> (sent: Result<(), QueueFull>)
        ensures
            sent is Ok <==> queued(*old(channel)).len() < DATA_POINT_COMMAND_CHANNEL_SIZE,
            sent is Ok ==> queued(*final(channel)) == queued(*old(channel)).push(*self),
            sent is Err ==> queued(*final(channel)) == queued(*old(channel)),
    {
        channel.try_send(*self)
    }

    /// Response code.
    pub fn response_code(&self) -> (code: u8)
        ensures
            code == self@.response_code,
    {
        self.response_code
    }

    /// Number of meaningful payload bytes, at most twelve.
    pub fn length(&self) -> (length: u8)
        ensures
            length == self@.length,
            length <= MAX_PAYLOAD_SIZE,
    {
        proof {
            use_type_invariant(self);
        }
        self.length
    }

    /// The payload area, padding included.
    pub fn value(&self) -> (value: [u8; 12])
        ensures
            value@ == self@.value,
    {
        self.value
    }

    /// The meaningful bytes of the payload area.
    pub fn payload(&self) -> (payload: &[u8])
        ensures
            payload@ == self@.payload(),
    {
        proof {
            use_type_invariant(self);
        }
        vstd::slice::slice_subrange(self.value.as_slice(), 0, self.length as usize)
    }

    /// The frame as it goes over the wire: code, length, payload area.
    pub fn to_bytes(&self) -> (bytes: [u8; 14])
        ensures
            bytes@ == self@.wire(),
    {
        let bytes = [
            self.response_code,
            self.length,
            self.value[0],
            self.value[1],
            self.value[2],
            self.value[3],
            self.value[4],
            self.value[5],
            self.value[6],
            self.value[7],
            self.value[8],
            self.value[9],
            self.value[10],
            self.value[11],
        ];
        assert(bytes@ =~= self@.wire());
        bytes
    }
}

/// Status of the weight measurement task.
///
/// A calibration weight is carried as the bit pattern of an IEEE-754 single.
#[derive(Copy, Debug, Clone, PartialEq, Eq, Structural)]
pub enum MeasurementTaskStatus {
    /// Measurements are enabled.
    Enabled,
    /// Measurements are disabled.
    Disabled,
    /// A calibration point at the given target weight is to be taken.
    Calibration(u32),
    /// The scale is to be tared.
    Tare,
    /// The scale is to be tared before the measurement that was asked for
    /// begins.
    SoftTare,
    /// The default calibration values are to be restored.
    DefaultCalibration,
}

/// One point of the calibration line: a raw reading and the weight (bit
/// pattern of an IEEE-754 single) that was on the scale when it was taken.
#[derive(Copy, Debug, Clone, PartialEq, Eq)]
pub struct CalibrationPoint {
    /// Tare-adjusted raw reading.
    pub raw: i32,
    /// Target weight.
    pub target_weight: u32,
}

/// Device state, shared by the command dispatcher and the sample scheduler.
#[derive(Copy, Debug, Clone, PartialEq, Eq)]
pub struct DeviceState {
    /// Measurement status.
    pub measurement_status: MeasurementTaskStatus,
    /// True once a tare has completed.
    pub tared: bool,
    /// Time at which the measurement was started, in microseconds.
    pub start_time: u32,
    /// Calibration points, two at most.
    pub calibration_points: [Option<CalibrationPoint>; 2],
}

/// What the device says of itself when asked.
#[derive(Copy, Debug, Clone)]
pub struct DeviceIdentity {
    /// Application version, as text bytes; at most twelve.
    pub version: &'static [u8],
    /// Device identifier.
    pub id: u64,
}

impl DeviceIdentity {
    /// The version fits the payload area of a frame.
    pub open spec fn wf(self) -> bool {
        self.version@.len() <= MAX_PAYLOAD_SIZE
    }

    /// An identity, unless the version is too long to be sent.
    pub fn new(version: &'static [u8], id: u64) -> (identity: Option<DeviceIdentity>)
        ensures
            identity == if version@.len() <= MAX_PAYLOAD_SIZE {
                Some(DeviceIdentity { version, id })
            } else {
                None
            },
    {
        if version.len() <= MAX_PAYLOAD_SIZE {
            Some(DeviceIdentity { version, id })
        } else {
            None
        }
    }
}

/// The number that a text spells, as `str::parse::<u64>` reads it; `None`
/// where the text spells none that fits.
pub uninterp spec fn parsed_u64(text: Seq<char>) -> Option<u64>;

/// `str::parse::<u64>`: the number that the text spells, if it spells one.
#[verifier::external_body]
fn parse_u64(text: &str) -> (parsed: Option<u64>)
    ensures
        parsed == parsed_u64(text@),
{
    text.parse::<u64>().ok()
}

/// The identifier to answer with, given what the configured identifier text
/// was read as: a text that spells no number stands for identifier 0.
pub fn device_id_or_default(parsed: Option<u64>) -> (id: u64)
    ensures
        id == match parsed {
            Some(number) => number,
            None => 0,
        },
{
    match parsed {
        Some(number) => number,
        None => 0,
    }
}

/// The identifier that a configured identifier text stands for.
pub fn device_id_from_text(text: &str) -> (id: u64)
    ensures
        id == match parsed_u64(text@) {
            Some(number) => number,
            None => 0,
        },
{
    device_id_or_default(parse_u64(text))
}

/// What became of a command.
#[derive(Copy, Debug, Clone, PartialEq, Eq, Structural)]
pub enum CommandOutcome {
    /// The measurement status was set as the command asks.
    StatusSet,
    /// The response was queued for the transport.
    ResponseQueued,
    /// The response found the queue full and was dropped.
    ResponseDropped,
    /// The calibration values are to be reported on the diagnostic log; no
    /// frame is sent.
    CalibrationReported,
    /// The command is known but does nothing.
    Ignored,
    /// The command could not be decoded; nothing changed.
    Rejected(DecodeError),
}

/// The low 32 bits of a microsecond clock.
pub open spec fn clock_low_bits(now_micros: u64) -> u32 {
    (now_micros % 0x1_0000_0000) as u32
}

/// The target weight of an `AddCalibrationPoint` command: the four bytes from
/// offset 1 on, most significant first. A buffer of fewer than five bytes
/// carries none.
pub open spec fn calibration_weight_of(payload: Seq<u8>) -> Result<u32, DecodeError> {
    if payload.len() >= 5 {
        Ok(be_value(payload.subrange(1, 5)) as u32)
    } else {
        Err(DecodeError::Malformed)
    }
}

/// Decodes the target weight of an `AddCalibrationPoint` command.
pub fn decode_calibration_point(payload: &[u8]) -> (weight: Result<u32, DecodeError>)
    ensures
        weight == calibration_weight_of(payload@),
{
    if payload.len() < 5 {
        return Err(DecodeError::Malformed);
    }
    let weight: u32 = (payload[1] as u32) * 0x100_0000 + (payload[2] as u32) * 0x1_0000
        + (payload[3] as u32) * 0x100 + (payload[4] as u32);
    proof {
        let bytes = payload@.subrange(1, 5);
        reveal_with_fuel(be_value, 5);
        assert(be_value(bytes) == weight);
    }
    Ok(weight)
}

impl DeviceState {
    /// The state of a device that was just switched on: measurement
    /// disabled, never tared, no calibration point.
    pub open spec fn initial() -> DeviceState {
        DeviceState {
            measurement_status: MeasurementTaskStatus::Disabled,
            tared: false,
            start_time: 0,
            calibration_points: [None, None],
        }
    }

    /// The state of a device that was just switched on.
    pub fn new() -> (state: DeviceState)
        ensures
            state == DeviceState::initial(),
    {
        DeviceState {
            measurement_status: MeasurementTaskStatus::Disabled,
            tared: false,
            start_time: 0,
            calibration_points: [None, None],
        }
    }

    /// The state with another measurement status.
    pub open spec fn with_status(self, status: MeasurementTaskStatus) -> DeviceState {
        DeviceState { measurement_status: status, ..self }
    }

    /// The state after a command, given the buffer it came in and the clock
    /// at its arrival.
    pub open spec fn after_command(
        self,
        op: ControlOpCode,
        data: Seq<u8>,
        now_micros: u64,
    ) -> DeviceState {
        match op {
            ControlOpCode::TareScale => self.with_status(MeasurementTaskStatus::Tare),
            ControlOpCode::StartMeasurement => DeviceState {
                start_time: clock_low_bits(now_micros),
                measurement_status: if self.tared {
                    MeasurementTaskStatus::Enabled
                } else {
                    MeasurementTaskStatus::SoftTare
                },
                ..self
            },
            ControlOpCode::StopMeasurement => self.with_status(MeasurementTaskStatus::Disabled),
            ControlOpCode::AddCalibrationPoint => match calibration_weight_of(data) {
                Ok(weight) => self.with_status(MeasurementTaskStatus::Calibration(weight)),
                Err(_) => self,
            },
            ControlOpCode::DefaultCalibration => self.with_status(
                MeasurementTaskStatus::DefaultCalibration,
            ),
            _ => self,
        }
    }
}

impl ControlOpCode {
    /// The response that the command is answered with at once, if any.
    pub open spec fn response(self, identity: DeviceIdentity) -> Option<ResponseCode> {
        match self {
            ControlOpCode::GetAppVersion => Some(ResponseCode::AppVersion(identity.version)),
            ControlOpCode::GetProgressorId => Some(ResponseCode::ProgressorId(identity.id)),
            _ => None,
        }
    }

    /// What is reported of the command, given its buffer and whether the
    /// queue has room for a response.
    pub open spec fn outcome(self, data: Seq<u8>, room: bool) -> CommandOutcome {
        match self {
            ControlOpCode::GetAppVersion | ControlOpCode::GetProgressorId => if room {
                CommandOutcome::ResponseQueued
            } else {
                CommandOutcome::ResponseDropped
            },
            ControlOpCode::GetCalibration => CommandOutcome::CalibrationReported,
            ControlOpCode::Shutdown | ControlOpCode::SampleBattery => CommandOutcome::Ignored,
            ControlOpCode::AddCalibrationPoint => match calibration_weight_of(data) {
                Ok(_) => CommandOutcome::StatusSet,
                Err(error) => CommandOutcome::Rejected(error),
            },
            _ => CommandOutcome::StatusSet,
        }
    }

    /// How the queue stands after the command, given how it stood before: a
    /// response goes behind the frames that wait if there is room for it,
    /// and nothing else changes.
    pub open spec fn queue_step(
        self,
        before: Seq<DataPoint>,
        after: Seq<DataPoint>,
        identity: DeviceIdentity,
    ) -> bool {
        match self.response(identity) {
            Some(response) if before.len() < DATA_POINT_COMMAND_CHANNEL_SIZE => {
                &&& after.len() == before.len() + 1
                &&& after.drop_last() == before
                &&& after.last()@ == frame_of(response)
            },
            _ => after == before,
        }
    }

    /// Processes the command: sets the measurement status as the command
    /// asks, and answers a request with one frame on the channel. A command
    /// whose payload cannot be decoded changes nothing, and a response that
    /// finds the channel full is dropped; either is reported in the outcome.
    pub fn process(
        self,
        data: &[u8],
        channel: &mut DataPointChannel,
        device_state: &mut DeviceState,
        now_micros: u64,
        identity: &DeviceIdentity,
    ) -> (outcome: CommandOutcome)
        requires
            identity.wf(),
        ensures
            *final(device_state) == old(device_state).after_command(self, data@, now_micros),
            self.queue_step(queued(*old(channel)), queued(*final(channel)), *identity),
            outcome == self.outcome(
                data@,
                queued(*old(channel)).len() < DATA_POINT_COMMAND_CHANNEL_SIZE,
            ),
    {
        match self {
            ControlOpCode::TareScale => {
                device_state.measurement_status = MeasurementTaskStatus::Tare;
                CommandOutcome::StatusSet
            },
            ControlOpCode::StartMeasurement => {
                device_state.start_time = (now_micros % 0x1_0000_0000) as u32;
                if device_state.tared {
                    device_state.measurement_status = MeasurementTaskStatus::Enabled;
                } else {
                    device_state.measurement_status = MeasurementTaskStatus::SoftTare;
                }
                CommandOutcome::StatusSet
            },
            ControlOpCode::StopMeasurement => {
                device_state.measurement_status = MeasurementTaskStatus::Disabled;
                CommandOutcome::StatusSet
            },
            ControlOpCode::GetAppVersion => {
                let response = ResponseCode::AppVersion(identity.version);
                respond(response, channel)
            },
            ControlOpCode::GetProgressorId => {
                let response = ResponseCode::ProgressorId(identity.id);
                proof {
                    response.lemma_payload_len();
                }
                respond(response, channel)
            },
            ControlOpCode::GetCalibration => CommandOutcome::CalibrationReported,
            ControlOpCode::AddCalibrationPoint => {
                match decode_calibration_point(data) {
                    Ok(weight) => {
                        device_state.measurement_status = MeasurementTaskStatus::Calibration(
                            weight,
                        );
                        CommandOutcome::StatusSet
                    },
                    Err(error) => CommandOutcome::Rejected(error),
                }
            },
            ControlOpCode::DefaultCalibration => {
                device_state.measurement_status = MeasurementTaskStatus::DefaultCalibration;
                CommandOutcome::StatusSet
            },
            ControlOpCode::Shutdown | ControlOpCode::SampleBattery => CommandOutcome::Ignored,
        }
    }
}

/// Lays the response out as a frame and queues it; reports whether the frame
/// was queued or, the queue being full, dropped.
fn respond(response: ResponseCode, channel: &mut DataPointChannel) -> (outcome: CommandOutcome)
    requires
        response.fits(),
    ensures
        queued(*old(channel)).len() < DATA_POINT_COMMAND_CHANNEL_SIZE ==> {
            &&& outcome == CommandOutcome::ResponseQueued
            &&& queued(*final(channel)).len() == queued(*old(channel)).len() + 1
            &&& queued(*final(channel)).drop_last() == queued(*old(channel))
            &&& queued(*final(channel)).last()@ == frame_of(response)
        },
        queued(*old(channel)).len() >= DATA_POINT_COMMAND_CHANNEL_SIZE ==> {
            &&& outcome == CommandOutcome::ResponseDropped
            &&& queued(*final(channel)) == queued(*old(channel))
        },
{
    let data_point = DataPoint::from(response);
    match data_point.send(channel) {
        Ok(()) => {
            assert(queued(*channel).drop_last() =~= queued(*old(channel)));
            CommandOutcome::ResponseQueued
        },
        Err(_) => CommandOutcome::ResponseDropped,
    }
}

/// The command that a control-point write carries: its first byte names it.
/// An empty buffer names none.
pub open spec fn command_in(buffer: Seq<u8>) -> Result<ControlOpCode, DecodeError> {
    if buffer.len() == 0 {
        Err(DecodeError::Malformed)
    } else {
        match opcode_of(buffer[0]) {
            Some(op) => Ok(op),
            None => Err(DecodeError::UnknownOpCode(buffer[0])),
        }
    }
}

/// Entry point of the command dispatcher, called for every write on the
/// control point. The command is decoded and processed; a buffer that
/// carries no known command is reported and changes nothing.
pub fn on_command(
    buffer: &[u8],
    channel: &mut DataPointChannel,
    device_state: &mut DeviceState,
    now_micros: u64,
    identity: &DeviceIdentity,
) -> (outcome: CommandOutcome)
    requires
        identity.wf(),
    ensures
        match command_in(buffer@) {
            Ok(op) => {
                &&& *final(device_state) == old(device_state).after_command(
                    op,
                    buffer@,
                    now_micros,
                )
                &&& op.queue_step(queued(*old(channel)), queued(*final(channel)), *identity)
                &&& outcome == op.outcome(
                    buffer@,
                    queued(*old(channel)).len() < DATA_POINT_COMMAND_CHANNEL_SIZE,
                )
            },
            Err(error) => {
                &&& *final(device_state) == *old(device_state)
                &&& queued(*final(channel)) == queued(*old(channel))
                &&& outcome == CommandOutcome::Rejected(error)
            },
        },
{
    if buffer.len() == 0 {
        return CommandOutcome::Rejected(DecodeError::Malformed);
    }
    match decode_opcode(buffer[0]) {
        Ok(op) => op.process(buffer, channel, device_state, now_micros, identity),
        Err(error) => CommandOutcome::Rejected(error),
    }
}

/// Decoding a command byte is total: it succeeds on the ten bytes of the
/// command table, and on those only; every command comes back from its own
/// byte, and a byte that decodes is the byte of the command it decodes to.
pub proof fn lemma_opcode_table(byte: u8, op: ControlOpCode)
    ensures
        opcode_of(byte) is Some <==> byte == 0x64 || byte == 0x65 || byte == 0x66 || byte == 0x6B
            || byte == 0x6E || byte == 0x6F || byte == 0x70 || byte == 0x72 || byte == 0x73
            || byte == 0x74,
        opcode_of(op.spec_code()) == Some(op),
        opcode_of(byte) == Some(op) <==> op.spec_code() == byte,
{
}

/// The identifier of a device is sent in minimal form: zero as exactly one
/// zero byte, any other identifier without a zero byte on the most
/// significant side, in at most eight bytes that spell the identifier.
pub proof fn lemma_identifier_is_minimal(id: u64)
    ensures
        ({
            let bytes = ResponseCode::ProgressorId(id).payload();
            &&& 1 <= bytes.len() <= 8
            &&& crate::little_endian::le_value(bytes) == id
            &&& id == 0 ==> bytes == seq![0u8]
            &&& id != 0 ==> bytes.last() != 0
        }),
{
    lemma_pow256_values();
    lemma_minimal_le_bytes(id as nat);
    lemma_minimal_le_bytes_len(id as nat, 8);
}

/// A frame read back gives what it was built from: the meaningful bytes of
/// the frame are the payload of the response, no more and no fewer, and read
/// by the layout of its kind they give the fields of the response. The bytes
/// behind them are zero and say nothing.
pub proof fn lemma_frame_round_trip(response: ResponseCode)
    requires
        response.fits(),
    ensures
        ({
            let frame = frame_of(response);
            let payload = frame.payload();
            &&& frame.response_code == response.spec_op_code()
            &&& frame.length <= MAX_PAYLOAD_SIZE
            &&& frame.value.len() == MAX_PAYLOAD_SIZE
            &&& payload == response.payload()
            &&& frame.wire().len() == DATA_POINT_SIZE
            &&& frame.wire()[0] == frame.response_code
            &&& frame.wire()[1] == frame.length
            &&& frame.wire().subrange(2, 2 + frame.length as int) == response.payload()
            &&& match response {
                ResponseCode::SampleBatteryVoltage(millivolts) => payload.len() == 4
                    && crate::little_endian::le_value(payload) == millivolts,
                ResponseCode::WeightMeasurement(weight, timestamp) => payload.len() == 8
                    && crate::little_endian::le_value(payload.subrange(0, 4)) == weight
                    && crate::little_endian::le_value(payload.subrange(4, 8)) == timestamp,
                ResponseCode::LowPowerWarning => payload.len() == 0,
                ResponseCode::AppVersion(version) => payload == version@,
                ResponseCode::ProgressorId(id) => crate::little_endian::le_value(payload) == id,
                ResponseCode::CalibrationCurve(curve) => payload == curve@,
            }
        }),
{
    let frame = frame_of(response);
    let payload = frame.payload();
    response.lemma_payload_len();
    lemma_pow256_values();
    assert(payload =~= response.payload());
    assert(frame.wire().subrange(2, 2 + frame.length as int) =~= response.payload());
    match response {
        ResponseCode::SampleBatteryVoltage(millivolts) => {
            crate::little_endian::lemma_le_bytes_len(millivolts as nat, 4);
            crate::little_endian::lemma_le_value_of_le_bytes(millivolts as nat, 4);
        },
        ResponseCode::WeightMeasurement(weight, timestamp) => {
            crate::little_endian::lemma_le_bytes_len(weight as nat, 4);
            crate::little_endian::lemma_le_bytes_len(timestamp as nat, 4);
            crate::little_endian::lemma_le_value_of_le_bytes(weight as nat, 4);
            crate::little_endian::lemma_le_value_of_le_bytes(timestamp as nat, 4);
            assert(payload.subrange(0, 4) =~= le_bytes(weight as nat, 4));
            assert(payload.subrange(4, 8) =~= le_bytes(timestamp as nat, 4));
        },
        ResponseCode::ProgressorId(id) => {
            lemma_minimal_le_bytes(id as nat);
        },
        _ => {},
    }
}

/// A measurement that is asked for before the scale was ever tared begins
/// with a soft tare; once the scale is tared it begins at once. Either way
/// the start time is taken from the clock.
pub proof fn lemma_start_measurement(state: DeviceState, data: Seq<u8>, now_micros: u64)
    ensures
        ({
            let next = state.after_command(ControlOpCode::StartMeasurement, data, now_micros);
            &&& !state.tared ==> next.measurement_status == MeasurementTaskStatus::SoftTare
            &&& state.tared ==> next.measurement_status == MeasurementTaskStatus::Enabled
            &&& next.tared == state.tared
            &&& next.start_time == clock_low_bits(now_micros)
        }),
        DeviceState::initial().after_command(
            ControlOpCode::StartMeasurement,
            data,
            now_micros,
        ).measurement_status == MeasurementTaskStatus::SoftTare,
{
}

/// A calibration point whose buffer is shorter than five bytes is rejected
/// as malformed and leaves the state, the measurement status with it, as it
/// was; one of five bytes or more sets the status to the calibration it asks
/// for.
pub proof fn lemma_calibration_point(state: DeviceState, data: Seq<u8>, now_micros: u64, room: bool)
    ensures
        data.len() < 5 ==> state.after_command(
            ControlOpCode::AddCalibrationPoint,
            data,
            now_micros,
        ) == state && ControlOpCode::AddCalibrationPoint.outcome(data, room)
            == CommandOutcome::Rejected(DecodeError::Malformed),
        data.len() >= 5 ==> state.after_command(
            ControlOpCode::AddCalibrationPoint,
            data,
            now_micros,
        ).measurement_status is Calibration && ControlOpCode::AddCalibrationPoint.outcome(
            data,
            room,
        ) == CommandOutcome::StatusSet,
{
}

} // verus!
