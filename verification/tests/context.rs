#![allow(non_snake_case)]

use ears::audio_controller::AudioController;
use ears::device::{Command, Device, Hardware};
use ears::init::{init, init_in};
use ears::internal::{ContextError, ContextScope, OpenAlData};
use ears::openal::ALCdevice;
use ears::record_context;
use ears::sndfile::SndFile;
use ears::sound::Sound;
use ears::states::State;

fn hardware() -> Hardware {
    Hardware { output: true, context: true, activation: true, capture_extension: true, capture: true }
}

#[test]
fn init_test_init_ears_OK() {
    let mut scope = ContextScope::new();
    let mut dev = Device::new(hardware());
    assert_eq!(init(&mut scope, &mut dev), true)
}

#[test]
fn test_init_in_with_normal_init_OK() {
    let mut scope = ContextScope::new();
    let mut dev = Device::new(hardware());
    init(&mut scope, &mut dev);
    assert!(init_in(&mut scope, &mut dev).is_some())
}

#[test]
fn test_init_in_alone_OK() {
    let mut scope = ContextScope::new();
    let mut dev = Device::new(hardware());
    assert!(init_in(&mut scope, &mut dev).is_some())
}

#[test]
fn test_init_in_in_another_task_OK() {
    let mut scope = ContextScope::new();
    let mut dev = Device::new(hardware());
    init(&mut scope, &mut dev);
    let mut other = ContextScope::new();
    assert_eq!(init_in(&mut other, &mut dev), None)
}

#[test]
fn init_is_idempotent() {
    let mut scope = ContextScope::new();
    let mut dev = Device::new(hardware());
    assert!(init(&mut scope, &mut dev));
    let data = scope.data;
    let commands = dev.take_commands();
    assert_eq!(
        commands,
        vec![
            Command::OpenDevice { device: 1 },
            Command::CreateContext { device: 1, context: 2 },
            Command::MakeContextCurrent { context: 2 },
        ]
    );
    assert!(init(&mut scope, &mut dev));
    assert_eq!(scope.data, data);
    assert_eq!(dev.pending_commands(), 0);
    assert_eq!(dev.current_context(), 2);
}

#[test]
fn second_scope_uses_the_current_context() {
    let mut scope = ContextScope::new();
    let mut dev = Device::new(hardware());
    assert!(init(&mut scope, &mut dev));
    let _ = dev.take_commands();
    let mut other = ContextScope::new();
    assert!(init(&mut other, &mut dev));
    assert!(other.data.is_none());
    assert_eq!(dev.pending_commands(), 0);
}

#[test]
fn context_errors_follow_the_first_failing_step() {
    let mut h = hardware();
    h.output = false;
    let mut scope = ContextScope::new();
    let mut dev = Device::new(h);
    assert_eq!(
        OpenAlData::check_al_context(&mut scope, &mut dev),
        Err(ContextError::DeviceOpenError)
    );
    assert!(scope.data.is_none());
    assert!(!init(&mut scope, &mut dev));

    let mut h = hardware();
    h.context = false;
    let mut dev = Device::new(h);
    assert_eq!(
        OpenAlData::check_al_context(&mut scope, &mut dev),
        Err(ContextError::ContextCreateError)
    );

    let mut h = hardware();
    h.activation = false;
    let mut dev = Device::new(h);
    assert_eq!(
        OpenAlData::check_al_context(&mut scope, &mut dev),
        Err(ContextError::ContextActivationError)
    );
    assert_eq!(dev.current_context(), 0);
}

#[test]
fn input_context_errors() {
    let mut h = hardware();
    h.capture_extension = false;
    let mut scope = ContextScope::new();
    let mut dev = Device::new(h);
    assert_eq!(
        OpenAlData::check_al_input_context(&mut scope, &mut dev),
        Err(ContextError::CaptureExtensionUnavailable)
    );

    let mut h = hardware();
    h.capture = false;
    let mut scope = ContextScope::new();
    let mut dev = Device::new(h);
    assert_eq!(
        OpenAlData::check_al_input_context(&mut scope, &mut dev),
        Err(ContextError::CaptureDeviceOpenError)
    );

    let mut scope = ContextScope::new();
    let mut dev = Device::new(hardware());
    assert!(init(&mut scope, &mut dev));
    let mut other = ContextScope::new();
    assert_eq!(
        OpenAlData::check_al_input_context(&mut other, &mut dev),
        Err(ContextError::ScopeViolation)
    );
    assert!(other.data.is_none());

    let mut h = hardware();
    h.output = false;
    let mut scope = ContextScope::new();
    let mut dev = Device::new(h);
    assert_eq!(
        OpenAlData::check_al_input_context(&mut scope, &mut dev),
        Err(ContextError::DeviceOpenError)
    );
}

#[test]
fn input_context_hands_out_the_same_capture_device() {
    let mut scope = ContextScope::new();
    let mut dev = Device::new(hardware());
    let first = init_in(&mut scope, &mut dev).unwrap();
    let _ = dev.take_commands();
    let second = init_in(&mut scope, &mut dev).unwrap();
    assert_eq!(first, second);
    assert_eq!(record_context::get(first), ALCdevice { handle: 3 });
    assert_eq!(dev.pending_commands(), 0);
    assert_eq!(scope.data.unwrap().al_capt_device, ALCdevice { handle: 3 });
}

#[test]
fn capture_device_is_opened_mono_16_bit_44100() {
    let mut scope = ContextScope::new();
    let mut dev = Device::new(hardware());
    assert!(init(&mut scope, &mut dev));
    let _ = dev.take_commands();
    assert!(init_in(&mut scope, &mut dev).is_some());
    assert_eq!(
        dev.take_commands(),
        vec![Command::CaptureOpenDevice { rate: 44100, format: 0x1101, size: 44100, device: 3 }]
    );
}

#[test]
fn teardown_closes_capture_before_output() {
    let mut scope = ContextScope::new();
    let mut dev = Device::new(hardware());
    assert!(init_in(&mut scope, &mut dev).is_some());
    let _ = dev.take_commands();
    scope.teardown(&mut dev);
    assert_eq!(
        dev.take_commands(),
        vec![
            Command::DestroyContext { context: 2 },
            Command::CaptureCloseDevice { device: 3 },
            Command::CloseDevice { device: 1 },
        ]
    );
    assert!(scope.data.is_none());
    assert_eq!(dev.current_context(), 0);
    scope.teardown(&mut dev);
    assert_eq!(dev.pending_commands(), 0);
}

#[test]
fn teardown_without_capture() {
    let mut scope = ContextScope::new();
    let mut dev = Device::new(hardware());
    assert!(init(&mut scope, &mut dev));
    let _ = dev.take_commands();
    scope.teardown(&mut dev);
    assert_eq!(
        dev.take_commands(),
        vec![Command::DestroyContext { context: 2 }, Command::CloseDevice { device: 1 }]
    );
}

#[test]
fn context_error_messages() {
    assert_eq!(
        ContextError::DeviceOpenError.message(),
        "Internal error: cannot open the default device."
    );
    assert_eq!(
        ContextError::ContextCreateError.message(),
        "Internal error: cannot create the OpenAL context."
    );
    assert_eq!(
        ContextError::ContextActivationError.message(),
        "Internal error: cannot make the OpenAL context current."
    );
    assert_eq!(
        ContextError::ScopeViolation.message(),
        "Error: you must request the input context, in the task where you initialize ears."
    );
    assert_eq!(
        ContextError::CaptureExtensionUnavailable.message(),
        "Error: no input device available on your system."
    );
    assert_eq!(
        ContextError::CaptureDeviceOpenError.message(),
        "Internal error: cannot open the default capture device."
    );
}

#[test]
fn operations_without_a_context_return_defaults() {
    let mut scope = ContextScope::new();
    let mut dev = Device::new(hardware());
    let file = SndFile::from_samples("a.wav", 44100, 1, 0x010002, vec![1, 2, 3]).unwrap();
    let mut snd = Sound::new(&mut scope, &mut dev, Ok(file)).unwrap();
    snd.play(&mut scope, &mut dev);
    snd.set_looping(&mut scope, &mut dev, true);
    assert_eq!(snd.get_state(&mut scope, &mut dev), State::Playing);

    scope.teardown(&mut dev);
    let mut h = hardware();
    h.output = false;
    dev.set_hardware(h);
    assert_eq!(snd.get_state(&mut scope, &mut dev), State::Initial);
    assert_eq!(snd.is_playing(&mut scope, &mut dev), false);
    assert_eq!(snd.is_looping(&mut scope, &mut dev), false);
    snd.stop(&mut scope, &mut dev);
    assert_eq!(dev.source_state(snd.voice()), State::Playing);
}
