//! Stream formats as a device reports them, and the container header that a
//! recording of such a stream gets.

use vstd::prelude::*;

verus! {

/// How a device represents one sample.
#[derive(Clone, Copy, Debug, PartialEq, Eq, Structural)]
pub enum SampleFormat {
    /// Signed 16-bit integers; silence is 0.
    I16,
    /// Unsigned 16-bit integers; silence is 32768.
    U16,
    /// 32-bit floating point between -1 and 1.
    F32,
}

impl SampleFormat {
    /// Bytes that one sample takes.
    pub open spec fn spec_sample_size(self) -> int {
        match self {
            SampleFormat::I16 => 2,
            SampleFormat::U16 => 2,
            SampleFormat::F32 => 4,
        }
    }

    /// Bytes that one sample takes.
    pub fn sample_size(&self) -> (size: usize)
        ensures
            size == self.spec_sample_size(),
    {
        match self {
            SampleFormat::I16 => 2,
            SampleFormat::U16 => 2,
            SampleFormat::F32 => 4,
        }
    }
}

/// The format of a stream: what a device and its user agree on.
#[derive(Clone, Copy, Debug, PartialEq, Eq, Structural)]
pub struct Format {
    pub channels: u16,
    pub sample_rate: u32,
    pub data_type: SampleFormat,
}

/// Whether a container stores integers or floating point.
#[derive(Clone, Copy, Debug, PartialEq, Eq, Structural)]
pub enum WavSampleFormat {
    Float,
    Int,
}

/// The header of a container.
#[derive(Clone, Copy, Debug, PartialEq, Eq, Structural)]
pub struct WavSpec {
    pub channels: u16,
    pub sample_rate: u32,
    pub bits_per_sample: u16,
    pub sample_format: WavSampleFormat,
}

/// Both integer formats are stored as integers, floating point as floating
/// point.
pub open spec fn spec_sample_format(format: SampleFormat) -> WavSampleFormat {
    match format {
        SampleFormat::U16 => WavSampleFormat::Int,
        SampleFormat::I16 => WavSampleFormat::Int,
        SampleFormat::F32 => WavSampleFormat::Float,
    }
}

/// The header mirrors the stream's format: as many channels, the same rate,
/// and eight bits to each byte of a sample.
pub open spec fn spec_wav_spec(format: Format) -> WavSpec {
    WavSpec {
        channels: format.channels,
        sample_rate: format.sample_rate,
        bits_per_sample: (format.data_type.spec_sample_size() * 8) as u16,
        sample_format: spec_sample_format(format.data_type),
    }
}

/// How a container stores samples of `format`.
pub fn sample_format(format: SampleFormat) -> (stored: WavSampleFormat)
    ensures
        stored == spec_sample_format(format),
{
    match format {
        SampleFormat::U16 => WavSampleFormat::Int,
        SampleFormat::I16 => WavSampleFormat::Int,
        SampleFormat::F32 => WavSampleFormat::Float,
    }
}

/// The header of a container that records a stream of `format`.
pub fn wav_spec_from_format(format: &Format) -> (spec: WavSpec)
    ensures
        spec == spec_wav_spec(*format),
        spec.bits_per_sample == 16 || spec.bits_per_sample == 32,
{
    WavSpec {
        channels: format.channels,
        sample_rate: format.sample_rate,
        bits_per_sample: (format.data_type.sample_size() * 8) as u16,
        sample_format: sample_format(format.data_type),
    }
}

} // verus!
