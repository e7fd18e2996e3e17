#![allow(non_snake_case)]

use ears::audio_controller::AudioController;
use ears::device::{Device, Hardware};
use ears::internal::ContextScope;
use ears::sndfile::{MediaStore, OpenMode, SndFile};
use ears::sound::Sound;
use ears::states::State::{Paused, Playing, Stopped};

fn machine() -> (ContextScope, Device, MediaStore) {
    let hardware = Hardware {
        output: true,
        context: true,
        activation: true,
        capture_extension: true,
        capture: true,
    };
    let mut store = MediaStore::new();
    let samples: Vec<i16> = (0..1000).map(|i| (i % 100) as i16).collect();
    store.add(SndFile::from_samples("res/shot.wav", 44100, 1, 0x010002, samples).unwrap());
    (ContextScope::new(), Device::new(hardware), store)
}

fn sound(scope: &mut ContextScope, dev: &mut Device, store: &MediaStore, path: &str) -> Option<Sound> {
    Sound::new(scope, dev, SndFile::new(store, path, OpenMode::Read))
}

#[test]
fn sound_create_OK() {
    let (mut scope, mut dev, store) = machine();
    let snd = sound(&mut scope, &mut dev, &store, "res/shot.wav");
    println!("YOUHOU");
    match snd {
        Some(_) => {}
        None => panic!(),
    }
}

#[test]
fn sound_create_FAIL() {
    let (mut scope, mut dev, store) = machine();
    let snd = sound(&mut scope, &mut dev, &store, "toto.wav");

    match snd {
        Some(_) => panic!(),
        None => {}
    }
}

#[test]
fn sound_play_OK() {
    let (mut scope, mut dev, store) = machine();
    let mut snd = sound(&mut scope, &mut dev, &store, "res/shot.wav").expect("Cannot create sound");

    snd.play(&mut scope, &mut dev);
    assert_eq!(snd.get_state(&mut scope, &mut dev) as i32, Playing as i32);
    snd.stop(&mut scope, &mut dev);
}

#[test]
fn sound_pause_OK() {
    let (mut scope, mut dev, store) = machine();
    let mut snd = sound(&mut scope, &mut dev, &store, "res/shot.wav").expect("Cannot create sound");

    snd.play(&mut scope, &mut dev);
    snd.pause(&mut scope, &mut dev);
    assert_eq!(snd.get_state(&mut scope, &mut dev) as i32, Paused as i32);
    snd.stop(&mut scope, &mut dev);
}

#[test]
fn sound_stop_OK() {
    let (mut scope, mut dev, store) = machine();
    let mut snd = sound(&mut scope, &mut dev, &store, "res/shot.wav").expect("Cannot create sound");

    snd.play(&mut scope, &mut dev);
    snd.stop(&mut scope, &mut dev);
    assert_eq!(snd.get_state(&mut scope, &mut dev) as i32, Stopped as i32);
    snd.stop(&mut scope, &mut dev);
}

#[test]
fn sound_is_playing_TRUE() {
    let (mut scope, mut dev, store) = machine();
    let mut snd = sound(&mut scope, &mut dev, &store, "res/shot.wav").expect("Cannot create sound");

    snd.play(&mut scope, &mut dev);
    assert_eq!(snd.is_playing(&mut scope, &mut dev), true);
    snd.stop(&mut scope, &mut dev);
}

#[test]
fn sound_is_playing_FALSE() {
    let (mut scope, mut dev, store) = machine();
    let mut snd = sound(&mut scope, &mut dev, &store, "res/shot.wav").expect("Cannot create sound");

    assert_eq!(snd.is_playing(&mut scope, &mut dev), false);
    snd.stop(&mut scope, &mut dev);
}

#[test]
fn sound_is_looping_TRUE() {
    let (mut scope, mut dev, store) = machine();
    let mut snd = sound(&mut scope, &mut dev, &store, "res/shot.wav").expect("Cannot create sound");

    snd.set_looping(&mut scope, &mut dev, true);
    assert_eq!(snd.is_looping(&mut scope, &mut dev), true);
}

#[test]
fn sound_is_looping_FALSE() {
    let (mut scope, mut dev, store) = machine();
    let mut snd = sound(&mut scope, &mut dev, &store, "res/shot.wav").expect("Cannot create sound");

    snd.set_looping(&mut scope, &mut dev, false);
    assert_eq!(snd.is_looping(&mut scope, &mut dev), false);
}

#[test]
fn sound_set_relative_TRUE() {
    let (mut scope, mut dev, store) = machine();
    let mut snd = sound(&mut scope, &mut dev, &store, "res/shot.wav").expect("Cannot create sound");

    snd.set_relative(&mut scope, &mut dev, true);
    assert_eq!(snd.is_relative(&mut scope, &mut dev), true);
}

#[test]
fn sound_set_relative_FALSE() {
    let (mut scope, mut dev, store) = machine();
    let mut snd = sound(&mut scope, &mut dev, &store, "res/shot.wav").expect("Cannot create sound");

    snd.set_relative(&mut scope, &mut dev, false);
    assert_eq!(snd.is_relative(&mut scope, &mut dev), false);
}
