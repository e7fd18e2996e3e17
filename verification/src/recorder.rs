//! Record audio from the capture device into memory, then into a file.
//!
//! `start` begins capturing. A driver then calls `poll` at every interval:
//! each poll takes what the capture device has gathered. `stop` takes what
//! is left, ends capturing and keeps the samples for `save_to_file`.

use vstd::prelude::*;
use vstd::string::StringExecFns;
use crate::device::Device;
use crate::openal::CAPTURE_SAMPLE_RATE;
use crate::record_context;
use crate::record_context::RecordContext;
use crate::sndfile::{format_ok, FormatType, MediaStore, OpenMode, SndFile, SndFileModel, SndInfo,
    TAG_COUNT, WAV_PCM16};

verus! {

/// Records what the capture device hears.
pub struct Recorder {
    ctxt: RecordContext,
    started: bool,
    running: bool,
    gathered: Vec<i16>,
    samples: Vec<i16>,
}

impl Recorder {
    /// The capture device recorded from.
    pub closed spec fn device(&self) -> usize {
        self.ctxt.device().handle
    }

    /// A recording is under way only after `start`.
    pub closed spec fn wf(&self) -> bool {
        self.running ==> self.started
    }

    /// Whether `start` was ever called.
    pub closed spec fn started(&self) -> bool {
        self.started
    }

    /// Whether a recording is under way.
    pub closed spec fn running(&self) -> bool {
        self.running
    }

    /// What the recording under way has gathered so far.
    pub closed spec fn gathered(&self) -> Seq<i16> {
        self.gathered@
    }

    /// The samples of the last finished recording.
    pub closed spec fn samples(&self) -> Seq<i16> {
        self.samples@
    }

    /// Create a new audio recorder: not started, with no samples.
    pub fn new(record_context: RecordContext) -> (recorder: Recorder)
        ensures
            recorder.wf(),
            recorder.device() == record_context.device().handle,
            !recorder.started(),
            !recorder.running(),
            recorder.gathered() == Seq::<i16>::empty(),
            recorder.samples() == Seq::<i16>::empty(),
    {
        Recorder {
            ctxt: record_context,
            started: false,
            running: false,
            gathered: Vec::new(),
            samples: Vec::new(),
        }
    }

    /// Begins a recording: capture starts, with nothing gathered yet.
    pub fn start(&mut self, dev: &mut Device)
        ensures
            final(self).wf(),
            final(self).device() == old(self).device(),
            final(self).started(),
            final(self).running(),
            final(self).gathered() == Seq::<i16>::empty(),
            final(self).samples() == old(self).samples(),
            final(dev)@ == old(dev)@.capture_start(old(self).device()),
    {
        dev.capture_start(record_context::get(self.ctxt).handle);
        self.started = true;
        self.running = true;
        self.gathered = Vec::new();
    }

    /// One step of a recording under way: takes every sample that the
    /// capture device has gathered. Nothing happens when no recording is
    /// under way.
    pub fn poll(&mut self, dev: &mut Device)
        ensures
            final(self).wf() == old(self).wf(),
            final(self).device() == old(self).device(),
            final(self).started() == old(self).started(),
            final(self).running() == old(self).running(),
            final(self).samples() == old(self).samples(),
            final(self).gathered() == (if old(self).running() {
                old(self).gathered() + old(dev)@.capture_taken(old(self).device())
            } else {
                old(self).gathered()
            }),
            final(dev)@ == (if old(self).running() {
                old(dev)@.capture_drain(old(self).device())
            } else {
                old(dev)@
            }),
    {
        if self.running {
            let device = record_context::get(self.ctxt).handle;
            if dev.capture_available(device) != 0 {
                let mut taken = dev.capture_samples(device);
                self.gathered.append(&mut taken);
            } else {
                proof {
                    assert(dev@.capture_drain(device).capture.pending =~= dev@.capture.pending);
                }
            }
        }
    }

    /// Ends the recording under way: takes what the capture device still
    /// has, stops capture and keeps everything gathered as the recorded
    /// samples. Returns false, and changes nothing, if `start` was never
    /// called.
    pub fn stop(&mut self, dev: &mut Device) -> (done: bool)
        requires
            old(self).wf(),
        ensures
            final(self).wf(),
            done == old(self).started(),
            final(self).device() == old(self).device(),
            final(self).started() == old(self).started(),
            !final(self).running(),
            final(self).samples() == (if old(self).running() {
                old(self).gathered() + old(dev)@.capture_taken(old(self).device())
            } else {
                old(self).samples()
            }),
            final(dev)@ == (if old(self).running() {
                old(dev)@.capture_drain(old(self).device()).capture_stop(old(self).device())
            } else {
                old(dev)@
            }),
            old(self).running() ==> final(self).gathered() == Seq::<i16>::empty(),
            !old(self).running() ==> final(self).gathered() == old(self).gathered(),
    {
        if !self.started {
            return false;
        }
        if self.running {
            self.poll(dev);
            dev.capture_stop(record_context::get(self.ctxt).handle);
            let mut gathered: Vec<i16> = Vec::new();
            core::mem::swap(&mut self.gathered, &mut gathered);
            self.samples = gathered;
            self.running = false;
        }
        true
    }

    /// The recorded samples.
    pub fn get_samples(&self) -> (samples: Vec<i16>)
        ensures
            samples@ == self.samples(),
    {
        crate::sndfile::copy_samples(&self.samples)
    }

    /// The file that saving `samples` under `filename` makes: one channel,
    /// 44100 Hz, 16-bit PCM in a WAV container, at `filename` with `.wav`
    /// appended.
    pub open spec fn saved_file(filename: Seq<char>, samples: Seq<i16>) -> SndFileModel {
        SndFileModel {
            path: filename + ".wav"@,
            info: SndInfo {
                frames: samples.len() as i64,
                samplerate: CAPTURE_SAMPLE_RATE,
                channels: 1,
                format: WAV_PCM16,
                sections: 0,
                seekable: 0,
            },
            samples,
            position: 0,
            strings: Seq::new(TAG_COUNT as nat, |i: int| None::<String>),
        }
    }

    /// Whether there is something to save: at least one recorded sample,
    /// and no more than a file can count.
    pub open spec fn can_save(&self) -> bool {
        0 < self.samples().len() <= i64::MAX
    }

    /// Saves the recorded samples as a WAV file in `store`. Returns false,
    /// and makes no file, when nothing was recorded.
    pub fn save_to_file(&mut self, filename: &str, store: &mut MediaStore) -> (done: bool)
        requires
            old(store).wf(),
        ensures
            final(store).wf(),
            *final(self) == *old(self),
            done == old(self).can_save(),
            final(store).files() == (if done {
                old(store).files().push(Self::saved_file(filename@, old(self).samples()))
            } else {
                old(store).files()
            }),
    {
        if self.samples.len() == 0 || self.samples.len() as u64 > i64::MAX as u64 {
            return false;
        }
        let len = self.samples.len() as i64;
        let format = FormatType::FormatPcm16.bitor(FormatType::FormatWav);
        proof {
            assert(0x0002i32 | 0x010000i32 == 0x010002i32) by (bit_vector);
            assert((0x010002i32 & 0x0FFF0000i32) != 0) by (bit_vector);
            assert((0x010002i32 & 0x0000FFFFi32) != 0) by (bit_vector);
            assert(format == WAV_PCM16);
        }
        let infos = SndInfo {
            frames: len,
            samplerate: CAPTURE_SAMPLE_RATE,
            channels: 1,
            format,
            sections: 0,
            seekable: 0,
        };
        proof {
            assert(format_ok(infos));
        }
        let file_ext = filename.to_owned().concat(".wav");
        match SndFile::new_with_info(file_ext.as_str(), OpenMode::Write, infos) {
            Ok(mut f) => {
                proof {
                    assert(f@.path == filename@ + ".wav"@);
                    assert(f@.can_write(self.samples@.len(), len));
                }
                let ghost made = f@;
                let _ = f.write_i16(&self.samples, len);
                proof {
                    assert(self.samples@.subrange(0, len as int) =~= self.samples@);
                    assert(f@ == made.written(self.samples@));
                    assert(Seq::<i16>::empty() + self.samples@ =~= self.samples@);
                    assert(f@ == Self::saved_file(filename@, self.samples@));
                }
                store.add(f);
                true
            },
            Err(_) => false,
        }
    }
}

} // verus!
