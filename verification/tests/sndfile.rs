use ears::audio_tags::{empty, get_sound_tags};
use ears::device::{Device, Hardware};
use ears::openal::{error_message, openal_has_error};
use ears::sndfile::{
    Error, FormatType, MediaStore, OpenMode, SeekMode, SndFile, SndInfo, StringSoundType,
};

fn counting(len: i16, channels: i32) -> SndFile {
    let samples: Vec<i16> = (0..len).collect();
    SndFile::from_samples("count.wav", 8000, channels, 0x010002, samples).unwrap()
}

#[test]
fn from_samples_needs_whole_frames() {
    assert!(SndFile::from_samples("a", 8000, 2, 0, vec![1, 2, 3]).is_none());
    assert!(SndFile::from_samples("a", 8000, 0, 0, vec![]).is_none());
    assert!(SndFile::from_samples("a", 8000, -1, 0, vec![1]).is_none());
    let file = SndFile::from_samples("a", 8000, 3, 7, vec![1, 2, 3, 4, 5, 6]).unwrap();
    assert_eq!(
        file.get_sndinfo(),
        SndInfo { frames: 2, samplerate: 8000, channels: 3, format: 7, sections: 1, seekable: 1 }
    );
    assert_eq!(file.samples(), vec![1, 2, 3, 4, 5, 6]);
}

#[test]
fn reads_come_in_chunks_and_end_short() {
    let mut file = counting(7, 1);
    assert_eq!(file.read_i16(3), vec![0, 1, 2]);
    assert_eq!(file.read_i16(0), Vec::<i16>::new());
    assert_eq!(file.read_i16(-5), Vec::<i16>::new());
    assert_eq!(file.read_i16(3), vec![3, 4, 5]);
    assert_eq!(file.read_i16(3), vec![6]);
    assert_eq!(file.read_i16(3), Vec::<i16>::new());
    assert_eq!(file.read_i16(i64::MAX), Vec::<i16>::new());
}

#[test]
fn seek_moves_by_frames() {
    let mut file = counting(10, 2);
    assert_eq!(file.seek(2, SeekMode::SeekSet), 2);
    assert_eq!(file.read_i16(2), vec![4, 5]);
    assert_eq!(file.seek(1, SeekMode::SeekCur), 4);
    assert_eq!(file.read_i16(100), vec![8, 9]);
    assert_eq!(file.seek(0, SeekMode::SeekEnd), 5);
    assert_eq!(file.seek(-5, SeekMode::SeekEnd), 0);
    assert_eq!(file.read_i16(1), vec![0]);
    assert_eq!(file.seek(0, SeekMode::SeekCur), 0);
    assert_eq!(file.seek(0, SeekMode::SeekSet), 0);
    assert_eq!(file.read_i16(1), vec![0]);
}

#[test]
fn seek_outside_the_file_fails_and_keeps_the_position() {
    let mut file = counting(10, 2);
    assert_eq!(file.seek(3, SeekMode::SeekSet), 3);
    assert_eq!(file.seek(6, SeekMode::SeekSet), -1);
    assert_eq!(file.seek(-1, SeekMode::SeekSet), -1);
    assert_eq!(file.seek(1, SeekMode::SeekEnd), -1);
    assert_eq!(file.seek(-4, SeekMode::SeekCur), -1);
    assert_eq!(file.seek(i64::MAX, SeekMode::SeekCur), -1);
    assert_eq!(file.seek(i64::MIN, SeekMode::SeekEnd), -1);
    assert_eq!(file.read_i16(2), vec![6, 7]);
}

#[test]
fn store_finds_files_by_path() {
    let mut store = MediaStore::new();
    assert!(SndFile::new(&store, "a.wav", OpenMode::Read).is_err());
    let mut first = SndFile::from_samples("a.wav", 8000, 1, 0, vec![1, 2]).unwrap();
    assert_eq!(first.read_i16(1), vec![1]);
    store.add(first);
    store.add(SndFile::from_samples("b.wav", 8000, 1, 0, vec![3]).unwrap());
    store.add(SndFile::from_samples("a.wav", 8000, 1, 0, vec![4]).unwrap());
    assert_eq!(store.len(), 3);
    let mut a = SndFile::new(&store, "a.wav", OpenMode::Read).unwrap();
    assert_eq!(a.read_i16(10), vec![1, 2]);
    let mut b = SndFile::new(&store, "b.wav", OpenMode::Read).unwrap();
    assert_eq!(b.read_i16(10), vec![3]);
    assert_eq!(
        SndFile::new(&store, "c.wav", OpenMode::Read).err().unwrap(),
        "System error : cannot open the file."
    );
    assert!(SndFile::new(&store, "a.wav", OpenMode::Write).is_err());
    assert!(SndFile::new(&store, "a.wav", OpenMode::ReadWrite).is_err());
}

#[test]
fn new_with_info_makes_an_empty_file_to_write() {
    let info = SndInfo {
        frames: 99,
        samplerate: 44100,
        channels: 1,
        format: 0x010002,
        sections: 0,
        seekable: 0,
    };
    let mut file = SndFile::new_with_info("out.wav", OpenMode::Write, info).unwrap();
    assert_eq!(file.get_sndinfo().frames, 0);
    assert_eq!(file.write_i16(&vec![5, 6, 7], 2), 2);
    assert_eq!(file.get_sndinfo().frames, 2);
    assert_eq!(file.samples(), vec![5, 6]);
    assert_eq!(file.write_i16(&vec![8], 1), 1);
    assert_eq!(file.samples(), vec![5, 6, 8]);
    assert_eq!(file.write_i16(&vec![9], 2), 0);
    assert_eq!(file.write_i16(&vec![9], -1), 0);
    assert_eq!(file.write_i16(&vec![9], 0), 0);
    assert_eq!(file.samples(), vec![5, 6, 8]);
    assert_eq!(file.get_sndinfo().frames, 3);

    assert!(SndFile::new_with_info("out.wav", OpenMode::Read, info).is_err());
    let mut bad = info;
    bad.channels = 0;
    assert_eq!(
        SndFile::new_with_info("out.wav", OpenMode::Write, bad).err().unwrap(),
        "Format not recognised."
    );
}

#[test]
fn check_format_wants_container_and_encoding() {
    let mut info = SndInfo {
        frames: 0,
        samplerate: 44100,
        channels: 1,
        format: 0x010002,
        sections: 0,
        seekable: 0,
    };
    assert!(SndFile::check_format(&info));
    info.format = 0x010000;
    assert!(!SndFile::check_format(&info));
    info.format = 0x0002;
    assert!(!SndFile::check_format(&info));
    info.format = 0x010002;
    info.samplerate = 0;
    assert!(!SndFile::check_format(&info));
    info.samplerate = 1;
    info.channels = 0;
    assert!(!SndFile::check_format(&info));
}

#[test]
fn format_codes() {
    assert_eq!(FormatType::FormatWav.code(), 0x010000);
    assert_eq!(FormatType::FormatPcm16.code(), 0x0002);
    assert_eq!(FormatType::FormatOgg.code(), 0x200000);
    assert_eq!(FormatType::FormatVorbis.code(), 0x0060);
    assert_eq!(FormatType::EndianCpu.code(), 0x30000000);
    assert_eq!(FormatType::FormatTypeMask.code(), 0x0FFF0000);
    assert_eq!(FormatType::FormatPcm16.bitor(FormatType::FormatWav), 0x010002);
    assert_eq!(FormatType::FormatOgg.bitor(FormatType::FormatVorbis), 0x200060);
}

#[test]
fn tags_default_to_empty_strings() {
    let mut file = counting(4, 1);
    assert_eq!(get_sound_tags(&file), empty());
    assert_eq!(file.get_string(StringSoundType::Artist), None);
    assert_eq!(file.set_string(StringSoundType::Artist, "A".to_string()), Error::NoError);
    assert_eq!(file.set_string(StringSoundType::TrackNumber, "7".to_string()), Error::NoError);
    assert_eq!(file.get_string(StringSoundType::Artist), Some("A".to_string()));
    let tags = get_sound_tags(&file);
    assert_eq!(tags.artist, "A");
    assert_eq!(tags.trackNumber, "7");
    assert_eq!(tags.title, "");
    assert_eq!(tags.copy(), tags);
    assert_eq!(empty().album, "");
}

#[test]
fn tag_places() {
    assert_eq!(StringSoundType::Title.index(), 0);
    assert_eq!(StringSoundType::Genre.index(), 9);
}

#[test]
fn error_messages() {
    assert_eq!(error_message(0), None);
    assert_eq!(
        error_message(0xA001),
        Some("OpenAL error : Invalid name paramater passed to AL call.".to_string())
    );
    assert_eq!(
        error_message(0xA002),
        Some("OpenAL error : Invalid enum parameter passed to AL call.".to_string())
    );
    assert_eq!(
        error_message(0xA003),
        Some("OpenAL error : Invalid value parameter passed to AL call.".to_string())
    );
    assert_eq!(error_message(0xA004), Some("OpenAL error : Illegal AL call.".to_string()));
    assert_eq!(error_message(0xA005), Some("OpenAL error : Not enough memory.".to_string()));
    assert_eq!(error_message(1), Some("OpenAL internal error : Unknow error.".to_string()));
}

#[test]
fn the_first_error_stays_until_it_is_read() {
    let hardware = Hardware {
        output: true,
        context: true,
        activation: true,
        capture_extension: true,
        capture: true,
    };
    let mut dev = Device::new(hardware);
    assert_eq!(openal_has_error(&mut dev), None);
    dev.source_play(4);
    let source = dev.gen_source();
    dev.bind_buffer(source, 9);
    assert_eq!(
        openal_has_error(&mut dev),
        Some("OpenAL error : Invalid name paramater passed to AL call.".to_string())
    );
    assert_eq!(openal_has_error(&mut dev), None);
    dev.bind_buffer(source, 9);
    assert_eq!(dev.get_error(), 0xA003);
    let buffer = dev.gen_buffer();
    dev.bind_buffer(source, buffer);
    dev.queue_buffer(source, buffer);
    assert_eq!(dev.get_error(), 0xA004);
    dev.source_play(source);
    dev.bind_buffer(source, 0);
    assert_eq!(dev.get_error(), 0xA004);
    assert_eq!(dev.unqueue_buffer(source), 0);
    assert_eq!(dev.get_error(), 0xA003);
}

#[test]
fn writes_are_whole_frames() {
    let info = SndInfo {
        frames: 0,
        samplerate: 44100,
        channels: 2,
        format: 0x010002,
        sections: 0,
        seekable: 0,
    };
    let mut file = SndFile::new_with_info("stereo.wav", OpenMode::Write, info).unwrap();
    assert_eq!(file.write_i16(&vec![1, 2, 3, 4], 3), 0);
    assert_eq!(file.samples(), Vec::<i16>::new());
    assert_eq!(file.write_i16(&vec![1, 2, 3, 4], 4), 4);
    assert_eq!(file.get_sndinfo().frames, 2);
    assert_eq!(file.seek(1, SeekMode::SeekSet), 1);
    assert_eq!(file.read_i16(10), vec![3, 4]);
}
