use ears::device::{Command, Device, Hardware};
use ears::init::init_in;
use ears::internal::ContextScope;
use ears::recorder::Recorder;
use ears::sndfile::{MediaStore, OpenMode, SndFile};

fn machine() -> (ContextScope, Device) {
    let hardware = Hardware {
        output: true,
        context: true,
        activation: true,
        capture_extension: true,
        capture: true,
    };
    (ContextScope::new(), Device::new(hardware))
}

#[test]
fn stop_without_start_returns_false() {
    let (mut scope, mut dev) = machine();
    let ctxt = init_in(&mut scope, &mut dev).unwrap();
    let mut recorder = Recorder::new(ctxt);
    let _ = dev.take_commands();
    assert_eq!(recorder.stop(&mut dev), false);
    assert_eq!(dev.pending_commands(), 0);
    assert_eq!(recorder.get_samples(), Vec::<i16>::new());
}

#[test]
fn immediate_stop_saves_nothing() {
    let (mut scope, mut dev) = machine();
    let ctxt = init_in(&mut scope, &mut dev).unwrap();
    let mut recorder = Recorder::new(ctxt);
    recorder.start(&mut dev);
    assert_eq!(recorder.stop(&mut dev), true);
    let mut store = MediaStore::new();
    assert_eq!(recorder.save_to_file("hello_file", &mut store), false);
    assert_eq!(store.len(), 0);
}

#[test]
fn recorded_samples_are_saved_as_mono_wav() {
    let (mut scope, mut dev) = machine();
    let ctxt = init_in(&mut scope, &mut dev).unwrap();
    let mut recorder = Recorder::new(ctxt);
    let _ = dev.take_commands();
    dev.capture_feed(vec![9, 9, 9]);
    recorder.start(&mut dev);
    dev.capture_feed(vec![1, 2, 3]);
    recorder.poll(&mut dev);
    recorder.poll(&mut dev);
    dev.capture_feed(vec![4, 5]);
    recorder.poll(&mut dev);
    dev.capture_feed(vec![6]);
    assert_eq!(recorder.get_samples(), Vec::<i16>::new());
    assert_eq!(recorder.stop(&mut dev), true);
    dev.capture_feed(vec![7, 8]);
    assert_eq!(recorder.get_samples(), vec![1, 2, 3, 4, 5, 6]);
    assert_eq!(
        dev.take_commands(),
        vec![Command::CaptureStart { device: 3 }, Command::CaptureStop { device: 3 }]
    );
    assert_eq!(recorder.stop(&mut dev), true);
    assert_eq!(recorder.get_samples(), vec![1, 2, 3, 4, 5, 6]);

    let mut store = MediaStore::new();
    assert_eq!(recorder.save_to_file("hello_file", &mut store), true);
    assert_eq!(store.len(), 1);
    assert!(SndFile::new(&store, "hello_file", OpenMode::Read).is_err());
    let mut file = SndFile::new(&store, "hello_file.wav", OpenMode::Read).unwrap();
    let info = file.get_sndinfo();
    assert_eq!(info.frames, 6);
    assert_eq!(info.channels, 1);
    assert_eq!(info.samplerate, 44100);
    assert_eq!(info.format, 0x010002);
    assert_eq!(file.path(), "hello_file.wav");
    assert_eq!(file.read_i16(100), vec![1, 2, 3, 4, 5, 6]);
}

#[test]
fn one_sample_is_enough_to_save() {
    let (mut scope, mut dev) = machine();
    let ctxt = init_in(&mut scope, &mut dev).unwrap();
    let mut recorder = Recorder::new(ctxt);
    recorder.start(&mut dev);
    dev.capture_feed(vec![-7]);
    assert!(recorder.stop(&mut dev));
    let mut store = MediaStore::new();
    assert!(recorder.save_to_file("one", &mut store));
    assert_eq!(store.get(0).unwrap().samples(), vec![-7]);
    assert!(store.get(1).is_none());
}

#[test]
fn a_second_recording_replaces_the_first() {
    let (mut scope, mut dev) = machine();
    let ctxt = init_in(&mut scope, &mut dev).unwrap();
    let mut recorder = Recorder::new(ctxt);
    recorder.start(&mut dev);
    dev.capture_feed(vec![1, 2]);
    assert!(recorder.stop(&mut dev));
    recorder.start(&mut dev);
    assert_eq!(recorder.get_samples(), vec![1, 2]);
    dev.capture_feed(vec![3]);
    assert!(recorder.stop(&mut dev));
    assert_eq!(recorder.get_samples(), vec![3]);
}

#[test]
fn poll_before_start_takes_nothing() {
    let (mut scope, mut dev) = machine();
    let ctxt = init_in(&mut scope, &mut dev).unwrap();
    let mut recorder = Recorder::new(ctxt);
    recorder.poll(&mut dev);
    assert_eq!(dev.capture_available(3), 0);
    dev.capture_start(3);
    dev.capture_feed(vec![1]);
    recorder.poll(&mut dev);
    assert_eq!(dev.capture_available(3), 1);
}
