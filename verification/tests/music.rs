#![allow(non_snake_case)]

use ears::audio_controller::AudioController;
use ears::device::{Device, Hardware};
use ears::internal::ContextScope;
use ears::music::Music;
use ears::sndfile::{MediaStore, OpenMode, SndFile};
use ears::states::State::Stopped;

fn machine() -> (ContextScope, Device, MediaStore) {
    let hardware = Hardware {
        output: true,
        context: true,
        activation: true,
        capture_extension: true,
        capture: true,
    };
    let mut store = MediaStore::new();
    let samples: Vec<i16> = (0..1000).map(|i| (i % 100) as i16).collect();
    store.add(SndFile::from_samples("shot.wav", 44100, 1, 0x010002, samples).unwrap());
    (ContextScope::new(), Device::new(hardware), store)
}

fn music(scope: &mut ContextScope, dev: &mut Device, store: &MediaStore, path: &str) -> Option<Music> {
    Music::new(scope, dev, SndFile::new(store, path, OpenMode::Read))
}

#[test]
fn music_create_OK() {
    let (mut scope, mut dev, store) = machine();
    let msc = music(&mut scope, &mut dev, &store, "shot.wav");

    match msc {
        Some(_) => {}
        None => panic!(),
    }
}

#[test]
fn music_create_FAIL() {
    let (mut scope, mut dev, store) = machine();
    let msc = music(&mut scope, &mut dev, &store, "toto.wav");

    match msc {
        Some(_) => panic!(),
        None => {}
    }
}

#[test]
fn music_stop_OK() {
    let (mut scope, mut dev, store) = machine();
    let mut msc = music(&mut scope, &mut dev, &store, "shot.wav").expect("Cannot create Music");

    msc.play(&mut scope, &mut dev);
    msc.stop(&mut scope, &mut dev);
    assert_eq!(msc.get_state(&mut scope, &mut dev) as i32, Stopped as i32);
    msc.stop(&mut scope, &mut dev);
}

#[test]
fn music_is_looping_TRUE() {
    let (mut scope, mut dev, store) = machine();
    let mut msc = music(&mut scope, &mut dev, &store, "shot.wav").expect("Cannot create Music");

    msc.set_looping(&mut scope, &mut dev, true);
    assert_eq!(msc.is_looping(&mut scope, &mut dev), true);
}

#[test]
fn music_is_looping_FALSE() {
    let (mut scope, mut dev, store) = machine();
    let mut msc = music(&mut scope, &mut dev, &store, "shot.wav").expect("Cannot create Music");

    msc.set_looping(&mut scope, &mut dev, false);
    assert_eq!(msc.is_looping(&mut scope, &mut dev), false);
}

#[test]
fn music_set_relative_TRUE() {
    let (mut scope, mut dev, store) = machine();
    let mut msc = music(&mut scope, &mut dev, &store, "shot.wav").expect("Cannot create Music");

    msc.set_relative(&mut scope, &mut dev, true);
    assert_eq!(msc.is_relative(&mut scope, &mut dev), true);
}

#[test]
fn music_set_relative_FALSE() {
    let (mut scope, mut dev, store) = machine();
    let mut msc = music(&mut scope, &mut dev, &store, "shot.wav").expect("Cannot create Music");

    msc.set_relative(&mut scope, &mut dev, false);
    assert_eq!(msc.is_relative(&mut scope, &mut dev), false);
}
