use std::io::Cursor;
use tone_capture::capture::{Access, CaptureSession, DURATION_SECS};
use tone_capture::format::{
    sample_format, wav_spec_from_format, Format, SampleFormat, WavSampleFormat, WavSpec,
};

fn container_spec(spec: WavSpec) -> hound::WavSpec {
    hound::WavSpec {
        channels: spec.channels,
        sample_rate: spec.sample_rate,
        bits_per_sample: spec.bits_per_sample,
        sample_format: match spec.sample_format {
            WavSampleFormat::Int => hound::SampleFormat::Int,
            WavSampleFormat::Float => hound::SampleFormat::Float,
        },
    }
}

#[test]
fn sample_sizes() {
    assert_eq!(SampleFormat::I16.sample_size(), 2);
    assert_eq!(SampleFormat::U16.sample_size(), 2);
    assert_eq!(SampleFormat::F32.sample_size(), 4);
}

#[test]
fn integer_formats_are_stored_as_integers() {
    assert_eq!(sample_format(SampleFormat::U16), WavSampleFormat::Int);
    assert_eq!(sample_format(SampleFormat::I16), WavSampleFormat::Int);
    assert_eq!(sample_format(SampleFormat::F32), WavSampleFormat::Float);
}

#[test]
fn header_mirrors_the_format() {
    let format: Format = Format { channels: 2, sample_rate: 44100, data_type: SampleFormat::U16 };
    assert_eq!(
        wav_spec_from_format(&format),
        WavSpec {
            channels: 2,
            sample_rate: 44100,
            bits_per_sample: 16,
            sample_format: WavSampleFormat::Int
        }
    );
    let format: Format = Format { channels: 1, sample_rate: 48000, data_type: SampleFormat::I16 };
    assert_eq!(
        wav_spec_from_format(&format),
        WavSpec {
            channels: 1,
            sample_rate: 48000,
            bits_per_sample: 16,
            sample_format: WavSampleFormat::Int
        }
    );
    let format: Format = Format { channels: 6, sample_rate: 96000, data_type: SampleFormat::F32 };
    assert_eq!(
        wav_spec_from_format(&format),
        WavSpec {
            channels: 6,
            sample_rate: 96000,
            bits_per_sample: 32,
            sample_format: WavSampleFormat::Float
        }
    );
}

#[test]
fn recording_lasts_three_seconds() {
    assert_eq!(DURATION_SECS, 3);
}

#[test]
fn start_records_with_the_header_of_the_format() {
    let format: Format = Format { channels: 2, sample_rate: 44100, data_type: SampleFormat::F32 };
    let session: CaptureSession = CaptureSession::start(&format);
    assert!(session.recording);
    assert!(session.writer_held);
    assert_eq!(session.spec, wav_spec_from_format(&format));
    assert!(session.admits(Access::Acquired));
    assert!(!session.admits(Access::Refused));
}

#[test]
fn start_then_stop_leaves_a_closed_container_without_frames() {
    let format: Format = Format { channels: 2, sample_rate: 44100, data_type: SampleFormat::I16 };
    let mut session: CaptureSession = CaptureSession::start(&format);
    let spec: hound::WavSpec = container_spec(session.spec);
    let mut bytes: Cursor<Vec<u8>> = Cursor::new(Vec::new());
    let writer = hound::WavWriter::new(&mut bytes, spec).unwrap();
    session.stop();
    assert!(!session.recording);
    assert!(!session.writer_held);
    writer.finalize().unwrap();

    let reader = hound::WavReader::new(Cursor::new(bytes.into_inner())).unwrap();
    assert_eq!(reader.spec(), spec);
    assert_eq!(reader.spec().channels, 2);
    assert_eq!(reader.spec().sample_rate, 44100);
    assert_eq!(reader.spec().bits_per_sample, 16);
    assert_eq!(reader.spec().sample_format, hound::SampleFormat::Int);
    assert_eq!(reader.len(), 0);
    assert_eq!(reader.duration(), 0);
}

#[test]
fn refused_access_drops_the_batch_and_leaves_the_session_recording() {
    let format: Format = Format { channels: 1, sample_rate: 8000, data_type: SampleFormat::U16 };
    let session: CaptureSession = CaptureSession::start(&format);
    let before: CaptureSession = session;
    let unsigned: Vec<u16> = vec![1, 2, 3];
    assert_eq!(session.on_unsigned_samples(Access::Refused, &unsigned), Vec::<i16>::new());
    let signed: Vec<i16> = vec![-1, 0, 1];
    assert_eq!(session.on_samples(Access::Refused, &signed), Vec::<i16>::new());
    let floats: Vec<f32> = vec![0.5, -0.5];
    assert_eq!(session.on_samples(Access::Refused, &floats), Vec::<f32>::new());
    assert_eq!(session, before);
    assert!(session.recording);
    // the next batch is appended again
    assert_eq!(session.on_samples(Access::Acquired, &signed), signed);
}

#[test]
fn acquired_access_appends_the_batch_in_order() {
    let format: Format = Format { channels: 1, sample_rate: 8000, data_type: SampleFormat::I16 };
    let session: CaptureSession = CaptureSession::start(&format);
    let signed: Vec<i16> = vec![3, -2, 1, i16::MIN, i16::MAX];
    assert_eq!(session.on_samples(Access::Acquired, &signed), signed);
    let floats: Vec<f32> = vec![0.25, -1.0, 1.0, 0.0];
    let appended: Vec<f32> = session.on_samples(Access::Acquired, &floats);
    assert_eq!(appended.len(), 4);
    for (a, b) in appended.iter().zip(floats.iter()) {
        assert_eq!(a.to_bits(), b.to_bits());
    }
    let empty: Vec<i16> = Vec::new();
    assert_eq!(session.on_samples(Access::Acquired, &empty), empty);
}

#[test]
fn unsigned_samples_are_stored_signed() {
    let format: Format = Format { channels: 1, sample_rate: 8000, data_type: SampleFormat::U16 };
    let session: CaptureSession = CaptureSession::start(&format);
    let unsigned: Vec<u16> = vec![0, 1, 32767, 32768, 40000, 65535];
    assert_eq!(
        session.on_unsigned_samples(Access::Acquired, &unsigned),
        vec![-32768, -32767, -1, 0, 7232, 32767]
    );
}

#[test]
fn stopped_session_ignores_every_batch() {
    let format: Format = Format { channels: 1, sample_rate: 8000, data_type: SampleFormat::U16 };
    let mut session: CaptureSession = CaptureSession::start(&format);
    let spec: WavSpec = session.spec;
    session.stop();
    assert_eq!(session.spec, spec);
    assert!(!session.admits(Access::Acquired));
    assert!(!session.admits(Access::Refused));
    let unsigned: Vec<u16> = vec![1, 2, 3];
    assert_eq!(session.on_unsigned_samples(Access::Acquired, &unsigned), Vec::<i16>::new());
    let signed: Vec<i16> = vec![1, 2, 3];
    assert_eq!(session.on_samples(Access::Acquired, &signed), Vec::<i16>::new());
}

#[test]
fn batch_is_ignored_unless_recording_with_the_writer_held() {
    let spec: WavSpec = WavSpec {
        channels: 1,
        sample_rate: 8000,
        bits_per_sample: 16,
        sample_format: WavSampleFormat::Int,
    };
    let signed: Vec<i16> = vec![5, 6];
    for recording in [false, true] {
        for writer_held in [false, true] {
            for access in [Access::Acquired, Access::Refused] {
                let session: CaptureSession = CaptureSession { spec, recording, writer_held };
                let expected: bool = recording && writer_held && access == Access::Acquired;
                assert_eq!(session.admits(access), expected);
                let appended: Vec<i16> = session.on_samples(access, &signed);
                if expected {
                    assert_eq!(appended, signed);
                } else {
                    assert!(appended.is_empty());
                }
            }
        }
    }
}

#[test]
fn recorded_batches_come_back_from_the_container() {
    let format: Format = Format { channels: 2, sample_rate: 44100, data_type: SampleFormat::U16 };
    let mut session: CaptureSession = CaptureSession::start(&format);
    let spec: hound::WavSpec = container_spec(session.spec);
    let mut bytes: Cursor<Vec<u8>> = Cursor::new(Vec::new());
    let mut writer = hound::WavWriter::new(&mut bytes, spec).unwrap();
    let batches: Vec<(Access, Vec<u16>)> = vec![
        (Access::Acquired, vec![0, 65535, 32768, 32769]),
        (Access::Refused, vec![1, 2, 3, 4]),
        (Access::Acquired, vec![40000, 20000]),
    ];
    for (access, batch) in batches.iter() {
        for sample in session.on_unsigned_samples(*access, batch) {
            writer.write_sample(sample).ok();
        }
    }
    session.stop();
    for sample in session.on_unsigned_samples(Access::Acquired, &[9, 9]) {
        writer.write_sample(sample).ok();
    }
    writer.finalize().unwrap();

    let mut reader = hound::WavReader::new(Cursor::new(bytes.into_inner())).unwrap();
    assert_eq!(reader.spec(), spec);
    let stored: Vec<i16> = reader.samples::<i16>().map(|s| s.unwrap()).collect();
    assert_eq!(stored, vec![-32768, 32767, 0, 1, 7232, -12768]);
    assert_eq!(reader.duration(), 3);
}
