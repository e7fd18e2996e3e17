#![allow(non_snake_case)]

use ears::device::{Device, Hardware};
use ears::internal::ContextScope;
use ears::sndfile::{MediaStore, OpenMode, SndFile};
use ears::sound_data::SoundData;

fn machine() -> (ContextScope, Device, MediaStore) {
    let hardware = Hardware {
        output: true,
        context: true,
        activation: true,
        capture_extension: true,
        capture: true,
    };
    let mut store = MediaStore::new();
    let samples: Vec<i16> = (0..1000).map(|i| (i % 100) as i16).collect();
    store.add(SndFile::from_samples("shot.wav", 44100, 1, 0x010002, samples).unwrap());
    (ContextScope::new(), Device::new(hardware), store)
}

#[test]
fn sounddata_create_OK() {
    let (mut scope, mut dev, store) = machine();
    let snd_data =
        SoundData::new(&mut scope, &mut dev, SndFile::new(&store, "shot.wav", OpenMode::Read)).unwrap();
    assert_eq!(snd_data.get_buffer(), 1);
    assert_eq!(snd_data.get_nb_sample(), 1000);
    assert_eq!(dev.buffer_samples(1).len(), 1000);
}

#[test]
fn sounddata_create_FAIL() {
    let (mut scope, mut dev, store) = machine();
    let snd_data =
        SoundData::new(&mut scope, &mut dev, SndFile::new(&store, "toto.wav", OpenMode::Read));
    assert!(snd_data.is_none());
    assert!(!dev.is_buffer(1));
}
