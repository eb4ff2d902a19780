//! A recording session: which batches of captured samples reach the container,
//! and when the container is closed.
//!
//! The session decides; it holds no file. Whoever owns the writer appends what
//! [`CaptureSession::on_samples`] hands back and closes the container after
//! [`CaptureSession::stop`].

use vstd::prelude::*;
use crate::convert::{unsigned_to_signed, U16_MIDPOINT};
use crate::format::{spec_wav_spec, wav_spec_from_format, Format, WavSpec};

verus! {

/// Seconds that a recording lasts.
pub const DURATION_SECS: u64 = 3;

/// What came of asking for sole use of the writer without waiting for it.
#[derive(Clone, Copy, Debug, PartialEq, Eq, Structural)]
pub enum Access {
    Acquired,
    Refused,
}

/// The state of a recording.
#[derive(Clone, Copy, Debug, PartialEq, Eq, Structural)]
pub struct CaptureSession {
    /// The header of the container.
    pub spec: WavSpec,
    /// Set from the start until `stop`; while it is clear, batches are ignored.
    pub recording: bool,
    /// The writer is still there: nobody has taken it to close the container.
    pub writer_held: bool,
}

/// The signed sample for each unsigned one, in the same order.
pub open spec fn spec_signed(samples: Seq<u16>) -> Seq<i16> {
    Seq::new(samples.len(), |i: int| (samples[i] - U16_MIDPOINT) as i16)
}

impl CaptureSession {
    /// A batch is appended only while the session records, the writer was
    /// acquired, and it has not been taken away.
    pub open spec fn accepts(self, access: Access) -> bool {
        self.recording && access == Access::Acquired && self.writer_held
    }

    /// A session that records into a container whose header mirrors `format`.
    pub fn start(format: &Format) -> (session: Self)
        ensures
            session == (CaptureSession {
                spec: spec_wav_spec(*format),
                recording: true,
                writer_held: true,
            }),
    {
        CaptureSession { spec: wav_spec_from_format(format), recording: true, writer_held: true }
    }

    /// Whether a batch that arrives now is appended.
    pub fn admits(&self, access: Access) -> (yes: bool)
        ensures
            yes == self.accepts(access),
    {
        let acquired = match access {
            Access::Acquired => true,
            Access::Refused => false,
        };
        self.recording && acquired && self.writer_held
    }

    /// The samples to append for a batch that is stored as it came: the whole
    /// batch in its order, or nothing where the batch is dropped.
    pub fn on_samples<T: Copy>(&self, access: Access, buffer: &[T]) -> (appended: Vec<T>)
        ensures
            self.accepts(access) ==> appended@ == buffer@,
            !self.accepts(access) ==> appended@.len() == 0,
    {
        let mut appended: Vec<T> = Vec::new();
        if self.admits(access) {
            let mut i: usize = 0;
            while i < buffer.len()
                invariant
                    i <= buffer@.len(),
                    appended@ == buffer@.subrange(0, i as int),
                decreases buffer@.len() - i,
            {
                appended.push(buffer[i]);
                i = i + 1;
            }
        }
        appended
    }

    /// The samples to append for a batch of unsigned samples, which are stored
    /// signed: each sample less the midpoint, in the batch's order, or nothing
    /// where the batch is dropped.
    pub fn on_unsigned_samples(&self, access: Access, buffer: &[u16]) -> (appended: Vec<i16>)
        ensures
            self.accepts(access) ==> appended@ == spec_signed(buffer@),
            !self.accepts(access) ==> appended@.len() == 0,
    {
        let mut appended: Vec<i16> = Vec::new();
        if self.admits(access) {
            let mut i: usize = 0;
            while i < buffer.len()
                invariant
                    i <= buffer@.len(),
                    appended@ == spec_signed(buffer@.subrange(0, i as int)),
                decreases buffer@.len() - i,
            {
                appended.push(unsigned_to_signed(buffer[i]));
                i = i + 1;
            }
        }
        appended
    }

    /// Ends the recording: no batch is appended from now on, and the writer
    /// is taken so that the container can be closed. This happens once.
    pub fn stop(&mut self)
        requires
            old(self).writer_held,
        ensures
            !final(self).recording,
            !final(self).writer_held,
            final(self).spec == old(self).spec,
            forall|access: Access| !final(self).accepts(access),
    {
        self.recording = false;
        self.writer_held = false;
    }
}

} // verus!
