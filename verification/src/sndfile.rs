//! The decode source: an audio file as decoded samples with its format
//! description and text tags, read in chunks and rewound by seeking.

use vstd::prelude::*;

verus! {

/// The format description of an audio file.
#[derive(Clone, Copy, PartialEq, Eq, Debug, Structural)]
pub struct SndInfo {
    /// Number of frames; a frame holds one sample per channel.
    pub frames: i64,
    /// Frames per second.
    pub samplerate: i32,
    /// Number of channels.
    pub channels: i32,
    /// Container and encoding, as one code.
    pub format: i32,
    /// Number of sections.
    pub sections: i32,
    /// Non-zero where the file can be sought.
    pub seekable: i32,
}

/// How a file is opened.
#[derive(Clone, Copy, PartialEq, Eq, Debug, Structural)]
pub enum OpenMode {
    Read,
    Write,
    ReadWrite,
}

/// The text tags a file can carry.
#[derive(Clone, Copy, PartialEq, Eq, Debug, Structural)]
pub enum StringSoundType {
    Title,
    Copyright,
    Software,
    Artist,
    Comment,
    Date,
    Album,
    License,
    TrackNumber,
    Genre,
}

/// How many tags there are.
pub const TAG_COUNT: usize = 10;

impl StringSoundType {
    /// The place of a tag among the tags of a file.
    pub open spec fn spec_index(self) -> int {
        match self {
            StringSoundType::Title => 0,
            StringSoundType::Copyright => 1,
            StringSoundType::Software => 2,
            StringSoundType::Artist => 3,
            StringSoundType::Comment => 4,
            StringSoundType::Date => 5,
            StringSoundType::Album => 6,
            StringSoundType::License => 7,
            StringSoundType::TrackNumber => 8,
            StringSoundType::Genre => 9,
        }
    }

    /// The place of a tag among the tags of a file.
    pub fn index(self) -> (i: usize)
        ensures
            i == self.spec_index(),
            i < TAG_COUNT,
    {
        match self {
            StringSoundType::Title => 0,
            StringSoundType::Copyright => 1,
            StringSoundType::Software => 2,
            StringSoundType::Artist => 3,
            StringSoundType::Comment => 4,
            StringSoundType::Date => 5,
            StringSoundType::Album => 6,
            StringSoundType::License => 7,
            StringSoundType::TrackNumber => 8,
            StringSoundType::Genre => 9,
        }
    }
}

/// The decoder's error classes.
#[derive(Clone, Copy, PartialEq, Eq, Debug, Structural)]
pub enum Error {
    NoError,
    UnrecognizedFormat,
    SystemError,
    MalformedFile,
    UnsupportedEncoding,
}

/// From where a seek counts.
#[derive(Clone, Copy, PartialEq, Eq, Debug, Structural)]
pub enum SeekMode {
    /// From the first frame.
    SeekSet,
    /// From the current frame.
    SeekCur,
    /// From the end.
    SeekEnd,
}

/// Containers, encodings, byte orders and the masks that part them.
#[derive(Clone, Copy, PartialEq, Eq, Debug, Structural)]
pub enum FormatType {
    FormatWav,
    FormatAiff,
    FormatAu,
    FormatRaw,
    FormatPaf,
    FormatSvx,
    FormatNist,
    FormatVoc,
    FormatIrcam,
    FormatW64,
    FormatMat4,
    FormatMat5,
    FormatPvf,
    FormatXi,
    FormatHtk,
    FormatSds,
    FormatAvr,
    FormatWavex,
    FormatSd2,
    FormatFlac,
    FormatCaf,
    FormatWve,
    FormatOgg,
    FormatMpc2k,
    FormatRf64,
    FormatPcmS8,
    FormatPcm16,
    FormatPcm24,
    FormatPcm32,
    FormatPcmU8,
    FormatFloat,
    FormatDouble,
    FormatUlaw,
    FormatAlaw,
    FormatImaAdpcm,
    FormatApcm,
    FormatGsm610,
    FormatVoxAdpcm,
    FormatG72132,
    FormatG72324,
    FormatG72340,
    FormatDww12,
    FormatDww16,
    FormatDww24,
    FormatDwwN,
    FormatDpcm8,
    FormatDpcm16,
    FormatVorbis,
    EndianFile,
    EndianLittle,
    EndianBig,
    EndianCpu,
    FormatSubMask,
    FormatTypeMask,
}

impl FormatType {
    /// The code of a format part.
    pub open spec fn spec_code(self) -> i32 {
        match self {
            FormatType::FormatWav => 0x010000,
            FormatType::FormatAiff => 0x020000,
            FormatType::FormatAu => 0x030000,
            FormatType::FormatRaw => 0x040000,
            FormatType::FormatPaf => 0x050000,
            FormatType::FormatSvx => 0x060000,
            FormatType::FormatNist => 0x070000,
            FormatType::FormatVoc => 0x080000,
            FormatType::FormatIrcam => 0x0A0000,
            FormatType::FormatW64 => 0x0B0000,
            FormatType::FormatMat4 => 0x0C0000,
            FormatType::FormatMat5 => 0x0D0000,
            FormatType::FormatPvf => 0x0E0000,
            FormatType::FormatXi => 0x0F0000,
            FormatType::FormatHtk => 0x100000,
            FormatType::FormatSds => 0x110000,
            FormatType::FormatAvr => 0x120000,
            FormatType::FormatWavex => 0x130000,
            FormatType::FormatSd2 => 0x160000,
            FormatType::FormatFlac => 0x170000,
            FormatType::FormatCaf => 0x180000,
            FormatType::FormatWve => 0x190000,
            FormatType::FormatOgg => 0x200000,
            FormatType::FormatMpc2k => 0x210000,
            FormatType::FormatRf64 => 0x220000,
            FormatType::FormatPcmS8 => 0x0001,
            FormatType::FormatPcm16 => 0x0002,
            FormatType::FormatPcm24 => 0x0003,
            FormatType::FormatPcm32 => 0x0004,
            FormatType::FormatPcmU8 => 0x0005,
            FormatType::FormatFloat => 0x0006,
            FormatType::FormatDouble => 0x0007,
            FormatType::FormatUlaw => 0x0010,
            FormatType::FormatAlaw => 0x0011,
            FormatType::FormatImaAdpcm => 0x0012,
            FormatType::FormatApcm => 0x0013,
            FormatType::FormatGsm610 => 0x0020,
            FormatType::FormatVoxAdpcm => 0x0021,
            FormatType::FormatG72132 => 0x0030,
            FormatType::FormatG72324 => 0x0031,
            FormatType::FormatG72340 => 0x0032,
            FormatType::FormatDww12 => 0x0040,
            FormatType::FormatDww16 => 0x0041,
            FormatType::FormatDww24 => 0x0042,
            FormatType::FormatDwwN => 0x0043,
            FormatType::FormatDpcm8 => 0x0050,
            FormatType::FormatDpcm16 => 0x0051,
            FormatType::FormatVorbis => 0x0060,
            FormatType::EndianFile => 0x00000000,
            FormatType::EndianLittle => 0x10000000,
            FormatType::EndianBig => 0x20000000,
            FormatType::EndianCpu => 0x30000000,
            FormatType::FormatSubMask => 0x0000FFFF,
            FormatType::FormatTypeMask => 0x0FFF0000,
        }
    }

    /// The code of a format part.
    pub fn code(self) -> (c: i32)
        ensures
            c == self.spec_code(),
    {
        match self {
            FormatType::FormatWav => 0x010000,
            FormatType::FormatAiff => 0x020000,
            FormatType::FormatAu => 0x030000,
            FormatType::FormatRaw => 0x040000,
            FormatType::FormatPaf => 0x050000,
            FormatType::FormatSvx => 0x060000,
            FormatType::FormatNist => 0x070000,
            FormatType::FormatVoc => 0x080000,
            FormatType::FormatIrcam => 0x0A0000,
            FormatType::FormatW64 => 0x0B0000,
            FormatType::FormatMat4 => 0x0C0000,
            FormatType::FormatMat5 => 0x0D0000,
            FormatType::FormatPvf => 0x0E0000,
            FormatType::FormatXi => 0x0F0000,
            FormatType::FormatHtk => 0x100000,
            FormatType::FormatSds => 0x110000,
            FormatType::FormatAvr => 0x120000,
            FormatType::FormatWavex => 0x130000,
            FormatType::FormatSd2 => 0x160000,
            FormatType::FormatFlac => 0x170000,
            FormatType::FormatCaf => 0x180000,
            FormatType::FormatWve => 0x190000,
            FormatType::FormatOgg => 0x200000,
            FormatType::FormatMpc2k => 0x210000,
            FormatType::FormatRf64 => 0x220000,
            FormatType::FormatPcmS8 => 0x0001,
            FormatType::FormatPcm16 => 0x0002,
            FormatType::FormatPcm24 => 0x0003,
            FormatType::FormatPcm32 => 0x0004,
            FormatType::FormatPcmU8 => 0x0005,
            FormatType::FormatFloat => 0x0006,
            FormatType::FormatDouble => 0x0007,
            FormatType::FormatUlaw => 0x0010,
            FormatType::FormatAlaw => 0x0011,
            FormatType::FormatImaAdpcm => 0x0012,
            FormatType::FormatApcm => 0x0013,
            FormatType::FormatGsm610 => 0x0020,
            FormatType::FormatVoxAdpcm => 0x0021,
            FormatType::FormatG72132 => 0x0030,
            FormatType::FormatG72324 => 0x0031,
            FormatType::FormatG72340 => 0x0032,
            FormatType::FormatDww12 => 0x0040,
            FormatType::FormatDww16 => 0x0041,
            FormatType::FormatDww24 => 0x0042,
            FormatType::FormatDwwN => 0x0043,
            FormatType::FormatDpcm8 => 0x0050,
            FormatType::FormatDpcm16 => 0x0051,
            FormatType::FormatVorbis => 0x0060,
            FormatType::EndianFile => 0x00000000,
            FormatType::EndianLittle => 0x10000000,
            FormatType::EndianBig => 0x20000000,
            FormatType::EndianCpu => 0x30000000,
            FormatType::FormatSubMask => 0x0000FFFF,
            FormatType::FormatTypeMask => 0x0FFF0000,
        }
    }

    /// The code of two format parts together.
    pub fn bitor(self, rhs: FormatType) -> (c: i32)
        ensures
            c == self.spec_code() | rhs.spec_code(),
    {
        self.code() | rhs.code()
    }
}

/// The code of 16-bit PCM in a WAV container.
pub const WAV_PCM16: i32 = 0x010002;

/// A format that the decoder knows, with its name and file extension.
#[derive(PartialEq, Eq, Debug)]
pub struct FormatInfo {
    pub format: i32,
    pub name: String,
    pub extension: String,
}

/// What an audio file is, as a mathematical value.
pub struct SndFileModel {
    pub path: Seq<char>,
    pub info: SndInfo,
    /// Every sample, interleaved by channel.
    pub samples: Seq<i16>,
    /// The read position, in samples.
    pub position: nat,
    /// The tags, in the order of [`StringSoundType`].
    pub strings: Seq<Option<String>>,
}

impl SndFileModel {
    /// The samples from the read position on.
    pub open spec fn remaining(self) -> Seq<i16> {
        self.samples.subrange(self.position as int, self.samples.len() as int)
    }

    /// How many samples a read of `items` returns.
    pub open spec fn read_len(self, items: i64) -> nat {
        if items <= 0 {
            0
        } else if items <= self.samples.len() - self.position {
            items as nat
        } else {
            (self.samples.len() - self.position) as nat
        }
    }

    /// The chunk that a read of `items` returns.
    pub open spec fn chunk(self, items: i64) -> Seq<i16> {
        self.samples.subrange(self.position as int, (self.position + self.read_len(items)) as int)
    }

    /// After a read of `items`.
    pub open spec fn read(self, items: i64) -> SndFileModel {
        SndFileModel { position: self.position + self.read_len(items), ..self }
    }

    /// The frame a seek aims at.
    pub open spec fn seek_target(self, frames: i64, whence: SeekMode) -> int {
        match whence {
            SeekMode::SeekSet => frames as int,
            SeekMode::SeekCur => self.position as int / self.info.channels as int + frames,
            SeekMode::SeekEnd => self.info.frames + frames,
        }
    }

    /// Whether a seek stays inside the file.
    pub open spec fn seek_ok(self, frames: i64, whence: SeekMode) -> bool {
        0 <= self.seek_target(frames, whence) <= self.info.frames
    }

    /// After a seek: at the target frame if it is inside the file,
    /// unchanged otherwise.
    pub open spec fn seek(self, frames: i64, whence: SeekMode) -> SndFileModel {
        if self.seek_ok(frames, whence) {
            SndFileModel {
                position: (self.seek_target(frames, whence) * self.info.channels) as nat,
                ..self
            }
        } else {
            self
        }
    }

    /// Whether `items` samples out of `len` can be written: they are there,
    /// and they make whole frames that the file can still count.
    pub open spec fn can_write(self, len: nat, items: i64) -> bool {
        &&& 0 <= items <= len
        &&& items as int % self.info.channels as int == 0
        &&& self.info.frames + items as int / self.info.channels as int <= i64::MAX
    }

    /// After writing `data` at the end.
    pub open spec fn written(self, data: Seq<i16>) -> SndFileModel {
        SndFileModel {
            samples: self.samples + data,
            info: SndInfo {
                frames: (self.info.frames + data.len() as int / self.info.channels as int) as i64,
                ..self.info
            },
            ..self
        }
    }

    /// The tag of the given kind, if the file has it.
    pub open spec fn string(self, kind: StringSoundType) -> Option<String> {
        self.strings[kind.spec_index()]
    }

    /// The file as just opened: at its first sample.
    pub open spec fn rewound(self) -> SndFileModel {
        SndFileModel { position: 0, ..self }
    }
}

/// Whether a format description can be written: at least one channel, a
/// positive sample rate, and both a container and an encoding.
pub open spec fn format_ok(info: SndInfo) -> bool {
    info.channels >= 1 && info.samplerate >= 1 && (info.format & 0x0FFF0000) != 0 && (info.format
        & 0x0000FFFF) != 0
}

/// An audio file held as decoded samples.
pub struct SndFile {
    path: String,
    info: SndInfo,
    samples: Vec<i16>,
    position: usize,
    strings: Vec<Option<String>>,
}

impl View for SndFile {
    type V = SndFileModel;

    closed spec fn view(&self) -> SndFileModel {
        SndFileModel {
            path: self.path@,
            info: self.info,
            samples: self.samples@,
            position: self.position as nat,
            strings: self.strings@,
        }
    }
}

/// A copy of `samples`.
pub fn copy_samples(samples: &Vec<i16>) -> (copy: Vec<i16>)
    ensures
        copy@ == samples@,
{
    let mut copy: Vec<i16> = Vec::new();
    let mut i: usize = 0;
    while i < samples.len()
        invariant
            i <= samples.len(),
            copy@ == samples@.subrange(0, i as int),
        decreases samples.len() - i,
    {
        copy.push(samples[i]);
        i = i + 1;
    }
    copy
}

fn copy_strings(strings: &Vec<Option<String>>) -> (copy: Vec<Option<String>>)
    ensures
        copy@ == strings@,
{
    let mut copy: Vec<Option<String>> = Vec::new();
    let mut i: usize = 0;
    while i < strings.len()
        invariant
            i <= strings.len(),
            copy@ == strings@.subrange(0, i as int),
        decreases strings.len() - i,
    {
        let item = match &strings[i] {
            Some(text) => Some(text.clone()),
            None => None,
        };
        copy.push(item);
        i = i + 1;
    }
    copy
}

impl SndFile {
    /// What every file holds: whole frames of at least one channel, a read
    /// position inside the samples, and a place for each tag.
    pub closed spec fn wf(&self) -> bool {
        &&& self.info.channels >= 1
        &&& self.info.frames >= 0
        &&& self.samples@.len() == self.info.frames * self.info.channels
        &&& self.position <= self.samples@.len()
        &&& self.strings@.len() == TAG_COUNT
    }

    /// What `wf` says, over the file's value.
    pub proof fn lemma_wf(&self)
        requires
            self.wf(),
        ensures
            self@.info.channels >= 1,
            self@.info.frames >= 0,
            self@.samples.len() == self@.info.frames * self@.info.channels,
            self@.position <= self@.samples.len(),
            self@.strings.len() == TAG_COUNT,
    {
    }

    /// Whether `samples` on `channels` channels make a file: whole frames
    /// of at least one channel.
    pub open spec fn decodable(channels: i32, samples: Seq<i16>) -> bool {
        channels >= 1 && samples.len() % (channels as nat) == 0 && samples.len() / (
        channels as nat) <= i64::MAX
    }

    /// The file that a decoder found at `path`: `samples` interleaved on
    /// `channels` channels, with no tag yet. `None` unless the samples make
    /// whole frames.
    pub fn from_samples(path: &str, samplerate: i32, channels: i32, format: i32, samples: Vec<i16>)
        -> (file: Option<SndFile>)
        ensures
            file.is_some() <==> Self::decodable(channels, samples@),
            match file {
                Some(f) => f.wf() && f@ == (SndFileModel {
                    path: path@,
                    info: SndInfo {
                        frames: (samples@.len() / (channels as nat)) as i64,
                        samplerate,
                        channels,
                        format,
                        sections: 1,
                        seekable: 1,
                    },
                    samples: samples@,
                    position: 0,
                    strings: Seq::new(TAG_COUNT as nat, |i: int| None::<String>),
                }),
                None => true,
            },
    {
        if channels < 1 {
            return None;
        }
        let width = channels as usize;
        if samples.len() % width != 0 {
            return None;
        }
        let frames = samples.len() / width;
        if frames as u64 > i64::MAX as u64 {
            return None;
        }
        proof {
            assert(samples@.len() == frames * width) by (nonlinear_arith)
                requires
                    width > 0,
                    samples@.len() % (width as nat) == 0,
                    frames == samples@.len() / (width as nat),
            ;
        }
        let mut strings: Vec<Option<String>> = Vec::new();
        let mut i: usize = 0;
        while i < TAG_COUNT
            invariant
                i <= TAG_COUNT,
                strings@ == Seq::new(i as nat, |j: int| None::<String>),
            decreases TAG_COUNT - i,
        {
            strings.push(None);
            i = i + 1;
        }
        Some(
            SndFile {
                path: path.to_owned(),
                info: SndInfo {
                    frames: frames as i64,
                    samplerate,
                    channels,
                    format,
                    sections: 1,
                    seekable: 1,
                },
                samples,
                position: 0,
                strings,
            },
        )
    }

    /// The format description of the file.
    pub fn get_sndinfo(&self) -> (info: SndInfo)
        ensures
            info == self@.info,
    {
        self.info
    }

    /// The path the file was found or made under.
    pub fn path(&self) -> (path: String)
        ensures
            path@ == self@.path,
    {
        self.path.clone()
    }

    /// Every sample of the file.
    pub fn samples(&self) -> (samples: Vec<i16>)
        ensures
            samples@ == self@.samples,
    {
        copy_samples(&self.samples)
    }

    /// The tag of the given kind; `None` where the file has none.
    pub fn get_string(&self, string_type: StringSoundType) -> (text: Option<String>)
        requires
            self.wf(),
        ensures
            text == self@.string(string_type),
    {
        match &self.strings[string_type.index()] {
            Some(text) => Some(text.clone()),
            None => None,
        }
    }

    /// Sets the tag of the given kind.
    pub fn set_string(&mut self, string_type: StringSoundType, string: String) -> (error: Error)
        requires
            old(self).wf(),
        ensures
            final(self).wf(),
            error == Error::NoError,
            final(self)@ == (SndFileModel {
                strings: old(self)@.strings.update(string_type.spec_index(), Some(string)),
                ..old(self)@
            }),
    {
        self.strings[string_type.index()] = Some(string);
        Error::NoError
    }

    /// Whether a format description can be written.
    pub fn check_format(info: &SndInfo) -> (ok: bool)
        ensures
            ok == format_ok(*info),
    {
        info.channels >= 1 && info.samplerate >= 1 && (info.format & 0x0FFF0000) != 0 && (
        info.format & 0x0000FFFF) != 0
    }

    /// Moves the read position to a frame, counted from the start, the
    /// current frame or the end. Returns the frame reached, or -1, with the
    /// position unchanged, when the target lies outside the file.
    pub fn seek(&mut self, frames: i64, whence: SeekMode) -> (offset: i64)
        requires
            old(self).wf(),
        ensures
            final(self).wf(),
            final(self)@ == old(self)@.seek(frames, whence),
            offset == (if old(self)@.seek_ok(frames, whence) {
                old(self)@.seek_target(frames, whence)
            } else {
                -1
            }),
    {
        let width = self.info.channels as usize;
        let total = self.samples.len();
        proof {
            assert(self.position / width <= self.info.frames) by (nonlinear_arith)
                requires
                    width >= 1,
                    self.position <= self.info.frames * width,
                    self.info.frames >= 0,
            ;
        }
        let base: i64 = match whence {
            SeekMode::SeekSet => 0,
            SeekMode::SeekCur => (self.position / width) as i64,
            SeekMode::SeekEnd => self.info.frames,
        };
        match base.checked_add(frames) {
            Some(target) => {
                if 0 <= target && target <= self.info.frames {
                    proof {
                        assert(0 <= target <= target * width <= self.info.frames * width)
                            by (nonlinear_arith)
                            requires
                                0 <= target <= self.info.frames,
                                width >= 1,
                        ;
                    }
                    self.position = (target as usize) * width;
                    target
                } else {
                    -1
                }
            },
            None => -1,
        }
    }

    /// Reads up to `items` samples from the read position and moves it
    /// past them. The chunk is shorter at the end of the file, and empty
    /// after it.
    pub fn read_i16(&mut self, items: i64) -> (chunk: Vec<i16>)
        requires
            old(self).wf(),
        ensures
            final(self).wf(),
            chunk@ == old(self)@.chunk(items),
            final(self)@ == old(self)@.read(items),
    {
        let left = self.samples.len() - self.position;
        let count: usize = if items <= 0 {
            0
        } else if (items as u64) <= (left as u64) {
            items as usize
        } else {
            left
        };
        let start = self.position;
        let mut chunk: Vec<i16> = Vec::new();
        let mut i: usize = 0;
        while i < count
            invariant
                i <= count,
                start + count <= self.samples@.len(),
                self.samples@.len() <= usize::MAX,
                chunk@ == self.samples@.subrange(start as int, start + i),
            decreases count - i,
        {
            chunk.push(self.samples[start + i]);
            i = i + 1;
        }
        self.position = start + count;
        chunk
    }

    /// Appends the first `items` samples of `array` to the file and returns
    /// how many were written. Nothing is written, and 0 is returned, unless
    /// `array` holds that many samples and they make whole frames that the
    /// file can still count.
    pub fn write_i16(&mut self, array: &Vec<i16>, items: i64) -> (written: i64)
        requires
            old(self).wf(),
        ensures
            final(self).wf(),
            written == (if old(self)@.can_write(array@.len(), items) { items } else { 0 }),
            final(self)@ == (if old(self)@.can_write(array@.len(), items) {
                old(self)@.written(array@.subrange(0, items as int))
            } else {
                old(self)@
            }),
    {
        let limit = array.len();
        if items < 0 || (items as u64) > (limit as u64) || items % (self.info.channels as i64) != 0 {
            return 0;
        }
        let frames = match self.info.frames.checked_add(items / (self.info.channels as i64)) {
            Some(frames) => frames,
            None => {
                return 0;
            },
        };
        let count = items as usize;
        let ghost start = self.samples@;
        let mut i: usize = 0;
        while i < count
            invariant
                i <= count,
                count <= limit,
                limit == array@.len(),
                self.samples@ == start + array@.subrange(0, i as int),
                self.path == old(self).path,
                self.info == old(self).info,
                self.position == old(self).position,
                self.strings == old(self).strings,
            decreases count - i,
        {
            self.samples.push(array[i]);
            i = i + 1;
        }
        proof {
            let width = self.info.channels as int;
            let added = items as int;
            assert((self.info.frames + added / width) * width == self.info.frames * width + added)
                by (nonlinear_arith)
                requires
                    width >= 1,
                    added % width == 0,
            ;
        }
        self.info.frames = frames;
        items
    }

    /// Opens the file at `path` in `store` for reading, at its first
    /// sample. Fails when the store has no such file, or when asked to
    /// write.
    pub fn new(store: &MediaStore, path: &str, mode: OpenMode) -> (file: Result<SndFile, String>)
        requires
            store.wf(),
        ensures
            file.is_ok() <==> (mode == OpenMode::Read && store.holds(path@)),
            match file {
                Ok(f) => f.wf() && f@ == store.find(path@).rewound(),
                Err(message) => message@ == "System error : cannot open the file."@,
            },
    {
        match mode {
            OpenMode::Read => {},
            _ => {
                return Err("System error : cannot open the file.".to_owned());
            },
        }
        let wanted = path.to_owned();
        let mut i: usize = 0;
        while i < store.files.len()
            invariant
                i <= store.files.len(),
                store.wf(),
                mode == OpenMode::Read,
                wanted@ == path@,
                forall|j: int| 0 <= j < i ==> store.files()[j].path != path@,
            decreases store.files.len() - i,
        {
            if store.files[i].path == wanted {
                let found = &store.files[i];
                let file = SndFile {
                    path: found.path.clone(),
                    info: found.info,
                    samples: copy_samples(&found.samples),
                    position: 0,
                    strings: copy_strings(&found.strings),
                };
                proof {
                    lemma_first_at(store.files(), path@, 0, i as int);
                }
                return Ok(file);
            }
            i = i + 1;
        }
        proof {
            lemma_absent(store.files(), path@, 0);
        }
        Err("System error : cannot open the file.".to_owned())
    }

    /// Makes an empty file at `path` with the given format description, to
    /// be written. Fails unless the mode is `Write` and the description can
    /// be written.
    pub fn new_with_info(path: &str, mode: OpenMode, info: SndInfo) -> (file: Result<
        SndFile,
        String,
    >)
        ensures
            file.is_ok() <==> (mode == OpenMode::Write && format_ok(info)),
            match file {
                Ok(f) => f.wf() && f@ == (SndFileModel {
                    path: path@,
                    info: SndInfo { frames: 0, ..info },
                    samples: Seq::empty(),
                    position: 0,
                    strings: Seq::new(TAG_COUNT as nat, |i: int| None::<String>),
                }),
                Err(message) => message@ == "Format not recognised."@,
            },
    {
        let writing = match mode {
            OpenMode::Write => true,
            _ => false,
        };
        if !writing || !Self::check_format(&info) {
            return Err("Format not recognised.".to_owned());
        }
        let mut strings: Vec<Option<String>> = Vec::new();
        let mut i: usize = 0;
        while i < TAG_COUNT
            invariant
                i <= TAG_COUNT,
                strings@ == Seq::new(i as nat, |j: int| None::<String>),
            decreases TAG_COUNT - i,
        {
            strings.push(None);
            i = i + 1;
        }
        let file = SndFile {
            path: path.to_owned(),
            info: SndInfo { frames: 0, ..info },
            samples: Vec::new(),
            position: 0,
            strings,
        };
        Ok(file)
    }
}

/// The place of the first file at `path` among `files` from place `from`
/// on; the number of files when there is none.
pub open spec fn first_at(files: Seq<SndFileModel>, path: Seq<char>, from: int) -> int
    decreases files.len() - from,
{
    if from < 0 || from >= files.len() {
        files.len() as int
    } else if files[from].path == path {
        from
    } else {
        first_at(files, path, from + 1)
    }
}

/// The first file at `path` is the one before which no file is at `path`.
pub proof fn lemma_first_at(files: Seq<SndFileModel>, path: Seq<char>, from: int, at: int)
    requires
        0 <= from <= at < files.len(),
        files[at].path == path,
        forall|j: int| from <= j < at ==> files[j].path != path,
    ensures
        first_at(files, path, from) == at,
    decreases at - from,
{
    if from < at {
        lemma_first_at(files, path, from + 1, at);
    }
}

/// Where no file is at `path`, the search runs to the end.
pub proof fn lemma_absent(files: Seq<SndFileModel>, path: Seq<char>, from: int)
    requires
        0 <= from,
        forall|j: int| from <= j < files.len() ==> files[j].path != path,
    ensures
        first_at(files, path, from) == files.len(),
    decreases files.len() - from,
{
    if from < files.len() {
        lemma_absent(files, path, from + 1);
    }
}

/// A file put at the end is found only where no earlier file has its path.
pub proof fn lemma_added(files: Seq<SndFileModel>, file: SndFileModel, path: Seq<char>, from: int)
    requires
        0 <= from <= files.len(),
    ensures
        first_at(files, path, from) < files.len() ==> first_at(files.push(file), path, from)
            == first_at(files, path, from),
        first_at(files, path, from) >= files.len() ==> first_at(files.push(file), path, from) == (
        if path == file.path {
            files.len() as int
        } else {
            (files.len() + 1) as int
        }),
    decreases files.len() - from,
{
    let after = files.push(file);
    if from < files.len() {
        if files[from].path != path {
            lemma_added(files, file, path, from + 1);
        }
    } else {
        if file.path != path {
            assert(first_at(after, path, from + 1) == after.len());
        }
    }
}

/// The audio files that can be opened, by path.
pub struct MediaStore {
    files: Vec<SndFile>,
}

impl MediaStore {
    /// Every file in the store is well formed.
    pub closed spec fn wf(&self) -> bool {
        forall|i: int| 0 <= i < self.files@.len() ==> (#[trigger] self.files@[i]).wf()
    }

    /// The files, oldest first.
    pub closed spec fn files(&self) -> Seq<SndFileModel> {
        Seq::new(self.files@.len(), |i: int| self.files@[i]@)
    }

    /// Whether the store has a file at `path`.
    pub open spec fn holds(&self, path: Seq<char>) -> bool {
        first_at(self.files(), path, 0) < self.files().len()
    }

    /// The first file at `path`.
    pub open spec fn find(&self, path: Seq<char>) -> SndFileModel {
        self.files()[first_at(self.files(), path, 0)]
    }

    /// A store with no file.
    pub fn new() -> (store: MediaStore)
        ensures
            store.wf(),
            store.files() == Seq::<SndFileModel>::empty(),
            forall|path: Seq<char>| !store.holds(path),
    {
        let store = MediaStore { files: Vec::new() };
        proof {
            assert forall|path: Seq<char>| !store.holds(path) by {
                lemma_absent(store.files(), path, 0);
            }
        }
        store
    }

    /// Puts `file` into the store, after the files already in it.
    pub fn add(&mut self, file: SndFile)
        requires
            old(self).wf(),
            file.wf(),
        ensures
            final(self).wf(),
            final(self).files() == old(self).files().push(file@),
    {
        self.files.push(file);
    }

    /// How many files the store holds.
    pub fn len(&self) -> (count: usize)
        ensures
            count == self.files().len(),
    {
        self.files.len()
    }

    /// The file at place `index`, as a copy at its first sample.
    pub fn get(&self, index: usize) -> (file: Option<SndFile>)
        requires
            self.wf(),
        ensures
            file.is_some() <==> index < self.files().len(),
            match file {
                Some(f) => f.wf() && f@ == self.files()[index as int].rewound(),
                None => true,
            },
    {
        if index < self.files.len() {
            let found = &self.files[index];
            Some(
                SndFile {
                    path: found.path.clone(),
                    info: found.info,
                    samples: copy_samples(&found.samples),
                    position: 0,
                    strings: copy_strings(&found.strings),
                },
            )
        } else {
            None
        }
    }
}

} // verus!
