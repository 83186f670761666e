//! Integer side of the HX711 24-bit ADC driver: gain selection, assembly of a
//! conversion from the sampled data line, and the tare baseline.
//!
//! The pins and the delays are the caller's. The caller clocks the converter
//! and hands over what it sampled; what is decided here is what the samples
//! are worth. Calibration values are carried as bit patterns of IEEE-754
//! singles and never computed with.

use vstd::prelude::*;

verus! {

/// The absolute minimum reading. A smaller value is clamped.
pub const HX711_MINIMUM: i32 = -8_388_608;

/// The absolute maximum reading. A greater value is clamped.
pub const HX711_MAXIMUM: i32 = 8_388_607;

/// Number of data bits in one conversion.
pub const HX711_DATA_BITS: usize = 24;

/// The time in microseconds that the clock line is held at each level.
pub const HX711_DELAY_TIME_US: u32 = 1;

/// The time in microseconds between two samples of a tare.
pub const HX711_TARE_SLEEP_TIME_US: u32 = 10_000;

/// Number of readings that one measurement is averaged over.
pub const MEASUREMENT_SAMPLES: usize = 20;

/// Default calibration factor (1.3145).
pub const CALIBRATION_FACTOR: u32 = 0x3fa8_4189;

/// Default calibration offset (-3.8790).
pub const CALIBRATION_OFFSET: u32 = 0xc078_4189;

/// The HX711 has different amplifier gain settings. The setting is chosen by
/// clocking a fixed number of extra pulses after the 24 data pulses of a read,
/// and applies to the conversion that follows.
#[derive(Clone, Copy, Debug, PartialEq, Eq, Structural)]
pub enum GainMode {
    /// Amplification gain of 128 on channel A.
    A128,
    /// Amplification gain of 32 on channel B.
    B32,
    /// Amplification gain of 64 on channel A.
    A64,
}

impl GainMode {
    /// Number of trailing clock pulses that select this mode.
    pub open spec fn spec_extra_pulses(self) -> u8 {
        match self {
            GainMode::A128 => 1,
            GainMode::B32 => 2,
            GainMode::A64 => 3,
        }
    }

    /// Number of trailing clock pulses that select this mode.
    #[verifier::when_used_as_spec(spec_extra_pulses)]
    pub fn extra_pulses(self) -> (pulses: u8)
        ensures
            pulses == self.spec_extra_pulses(),
            1 <= pulses <= 3,
    {
        match self {
            GainMode::A128 => 1,
            GainMode::B32 => 2,
            GainMode::A64 => 3,
        }
    }
}

/// Calibration values: a reading `raw` stands for the weight
/// `raw * factor - offset`.
#[derive(Clone, Copy, Debug, PartialEq, Eq, Structural)]
pub struct Calibration {
    /// Offset.
    pub offset: u32,
    /// Factor.
    pub factor: u32,
}

/// The calibration that the driver starts with and can be reset to.
pub open spec fn default_calibration() -> Calibration {
    Calibration { offset: CALIBRATION_OFFSET, factor: CALIBRATION_FACTOR }
}

/// The number that `bits` spell, most significant bit first.
pub open spec fn bits_value(bits: Seq<bool>) -> nat
    decreases bits.len(),
{
    if bits.len() == 0 {
        0
    } else {
        2 * bits_value(bits.drop_last()) + if bits.last() {
            1nat
        } else {
            0nat
        }
    }
}

/// The reading that a 24-bit word stands for in two's complement: bit 23 is
/// the sign. A word that does not fit 24 bits is clamped to the reading range.
pub open spec fn sample_of_word(word: u32) -> int {
    if word % 0x100_0000 >= 0x80_0000 {
        word % 0x100_0000 - 0x100_0000
    } else if word < 0x80_0000 {
        word as int
    } else if word < 0x8000_0000 {
        HX711_MAXIMUM as int
    } else {
        HX711_MINIMUM as int
    }
}

/// The reading that the 24 bits of a conversion stand for, most significant
/// bit first, in two's complement.
pub open spec fn raw_sample(bits: Seq<bool>) -> int {
    if bits_value(bits) >= 0x80_0000 {
        bits_value(bits) - 0x100_0000
    } else {
        bits_value(bits) as int
    }
}

/// 2 to the power `n`.
pub open spec fn two_to(n: nat) -> nat
    decreases n,
{
    if n == 0 {
        1
    } else {
        2 * two_to((n - 1) as nat)
    }
}

/// `two_to` grows with its argument.
pub proof fn lemma_two_to_monotonic(low: nat, high: nat)
    requires
        low <= high,
    ensures
        two_to(low) <= two_to(high),
    decreases high,
{
    if low < high {
        lemma_two_to_monotonic(low, (high - 1) as nat);
    }
}

/// `n` bits spell a number below `2^n`.
pub proof fn lemma_bits_value_bound(bits: Seq<bool>)
    ensures
        bits_value(bits) < two_to(bits.len()),
    decreases bits.len(),
{
    if bits.len() > 0 {
        lemma_bits_value_bound(bits.drop_last());
    }
}

/// Every conversion stands for a reading in the reading range.
pub proof fn lemma_raw_sample_range(bits: Seq<bool>)
    requires
        bits.len() == HX711_DATA_BITS,
    ensures
        HX711_MINIMUM <= raw_sample(bits) <= HX711_MAXIMUM,
{
    lemma_bits_value_bound(bits);
    reveal_with_fuel(two_to, 25);
}

/// Assembling a word bit by bit and then sign-extending it gives the reading
/// of the conversion: each bit taken in doubles the word and adds the bit,
/// and a word of 24 bits is never clamped.
pub proof fn lemma_assembled_word(bits: Seq<bool>, bit: bool)
    ensures
        bits_value(bits.push(bit)) == 2 * bits_value(bits) + if bit {
            1int
        } else {
            0int
        },
        bits.len() == HX711_DATA_BITS ==> bits_value(bits) < 0x100_0000 && sample_of_word(
            bits_value(bits) as u32,
        ) == raw_sample(bits),
{
    assert(bits.push(bit).drop_last() =~= bits);
    lemma_bits_value_bound(bits);
    reveal_with_fuel(two_to, 25);
}

/// Takes one more sampled bit into the word that is being assembled.
pub fn shift_in(word: u32, bit: bool) -> (next: u32)
    requires
        word < 0x8000_0000,
    ensures
        next == 2 * word + if bit {
            1int
        } else {
            0int
        },
{
    if bit {
        word * 2 + 1
    } else {
        word * 2
    }
}

/// Sign-extends bit 23 of an assembled word and clamps the result to the
/// reading range.
pub fn sample_from_word(word: u32) -> (sample: i32)
    ensures
        sample == sample_of_word(word),
        HX711_MINIMUM <= sample <= HX711_MAXIMUM,
{
    let low: u32 = word % 0x100_0000;
    if low >= 0x80_0000 {
        (low as i32) - 0x100_0000
    } else if word < 0x80_0000 {
        word as i32
    } else if word < 0x8000_0000 {
        HX711_MAXIMUM
    } else {
        HX711_MINIMUM
    }
}

/// The driver's state as contracts speak of it.
pub struct Hx711View {
    /// Gain mode of the next conversion.
    pub gain_mode: GainMode,
    /// Baseline that is subtracted from every reading.
    pub tare_value: int,
    /// Calibration values.
    pub calibration: Calibration,
}

/// Driver state of the HX711 24-bit ADC.
#[derive(Clone, Copy, Debug)]
pub struct Hx711 {
    gain_mode: GainMode,
    tare_value: i32,
    calibration: Calibration,
}

impl View for Hx711 {
    type V = Hx711View;

    closed spec fn view(&self) -> Hx711View {
        Hx711View {
            gain_mode: self.gain_mode,
            tare_value: self.tare_value as int,
            calibration: self.calibration,
        }
    }
}

impl Hx711 {
    #[verifier::type_invariant]
    spec fn baseline_in_range(self) -> bool {
        HX711_MINIMUM <= self.tare_value <= HX711_MAXIMUM
    }

    /// A new driver: gain of 64 on channel A, no tare, default calibration.
    pub fn new() -> (driver: Hx711)
        ensures
            driver@ == (Hx711View {
                gain_mode: GainMode::A64,
                tare_value: 0,
                calibration: default_calibration(),
            }),
    {
        Hx711 {
            gain_mode: GainMode::A64,
            tare_value: 0,
            calibration: Calibration { offset: CALIBRATION_OFFSET, factor: CALIBRATION_FACTOR },
        }
    }

    /// Sets the gain mode for the next reading.
    pub fn set_gain_mode(&mut self, gain_mode: GainMode)
        ensures
            final(self)@ == (Hx711View { gain_mode, ..old(self)@ }),
    {
        proof {
            use_type_invariant(&*self);
        }
        self.gain_mode = gain_mode;
    }

    /// Gain mode of the next conversion.
    pub fn gain_mode(&self) -> (gain_mode: GainMode)
        ensures
            gain_mode == self@.gain_mode,
    {
        self.gain_mode
    }

    /// Number of clock pulses to send after the 24 data pulses of a read.
    pub fn gain_pulses(&self) -> (pulses: u8)
        ensures
            pulses == self@.gain_mode.spec_extra_pulses(),
    {
        self.gain_mode.extra_pulses()
    }

    /// Baseline that is subtracted from every reading; within the reading
    /// range.
    pub fn tare_value(&self) -> (baseline: i32)
        ensures
            baseline == self@.tare_value,
            HX711_MINIMUM <= baseline <= HX711_MAXIMUM,
    {
        proof {
            use_type_invariant(self);
        }
        self.tare_value
    }

    /// Calibration values.
    pub fn calibration(&self) -> (calibration: Calibration)
        ensures
            calibration == self@.calibration,
    {
        self.calibration
    }

    /// True if the converter has a value ready to be read: it holds the data
    /// line low.
    pub fn is_ready(data_line_high: bool) -> (ready: bool)
        ensures
            ready == !data_line_high,
    {
        !data_line_high
    }

    /// The reading of one conversion, from the 24 levels that the data line
    /// showed at the rising clock edges, first edge first.
    pub fn read_raw(bits: &[bool; 24]) -> (sample: i32)
        ensures
            sample == raw_sample(bits@),
            HX711_MINIMUM <= sample <= HX711_MAXIMUM,
    {
        let mut result: u32 = 0;
        let mut taken: usize = 0;
        while taken < 24
            invariant
                taken <= 24,
                result == bits_value(bits@.take(taken as int)),
                result < 0x100_0000,
            decreases 24 - taken,
        {
            proof {
                let upto = bits@.take(taken as int + 1);
                assert(upto.drop_last() =~= bits@.take(taken as int));
                lemma_bits_value_bound(upto);
                lemma_two_to_monotonic(upto.len(), 24);
                reveal_with_fuel(two_to, 25);
            }
            result = shift_in(result, bits[taken]);
            taken = taken + 1;
        }
        proof {
            assert(bits@.take(24) =~= bits@);
        }
        sample_from_word(result)
    }

    /// The reading of one conversion with the tare baseline subtracted.
    pub fn read(&self, bits: &[bool; 24]) -> (reading: i32)
        ensures
            reading == raw_sample(bits@) - self@.tare_value,
    {
        proof {
            use_type_invariant(self);
        }
        Hx711::read_raw(bits) - self.tare_value
    }

    /// Stores a new tare baseline: the average of readings taken with no
    /// load, which lies in the reading range as they do.
    pub fn set_tare_value(&mut self, baseline: i32)
        requires
            HX711_MINIMUM <= baseline <= HX711_MAXIMUM,
        ensures
            final(self)@ == (Hx711View { tare_value: baseline as int, ..old(self)@ }),
    {
        self.tare_value = baseline;
    }

    /// Stores new calibration values.
    pub fn set_calibration(&mut self, calibration: Calibration)
        ensures
            final(self)@ == (Hx711View { calibration, ..old(self)@ }),
    {
        proof {
            use_type_invariant(&*self);
        }
        self.calibration = calibration;
    }

    /// Resets the calibration values to the defaults.
    pub fn restore_default_calibration(&mut self)
        ensures
            final(self)@ == (Hx711View { calibration: default_calibration(), ..old(self)@ }),
    {
        proof {
            use_type_invariant(&*self);
        }
        self.calibration = Calibration { offset: CALIBRATION_OFFSET, factor: CALIBRATION_FACTOR };
    }
}

} // verus!
