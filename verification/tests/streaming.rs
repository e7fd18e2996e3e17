use ears::audio_controller::AudioController;
use ears::device::{Command, Device, Hardware};
use ears::internal::ContextScope;
use ears::music::Music;
use ears::openal::get_channels_format;
use ears::sndfile::SndFile;
use ears::sound_data::SoundData;
use ears::states::State;

fn machine() -> (ContextScope, Device) {
    let hardware = Hardware {
        output: true,
        context: true,
        activation: true,
        capture_extension: true,
        capture: true,
    };
    (ContextScope::new(), Device::new(hardware))
}

fn counting(len: i16, channels: i32) -> SndFile {
    let samples: Vec<i16> = (0..len).collect();
    SndFile::from_samples("count.wav", 44100, channels, 0x010002, samples).unwrap()
}

fn range(from: i16, to: i16) -> Vec<i16> {
    (from..to).collect()
}

#[test]
fn formats_of_the_supported_channel_counts() {
    assert_eq!(get_channels_format(1), Some(0x1101));
    assert_eq!(get_channels_format(2), Some(0x1103));
    assert_eq!(get_channels_format(4), Some(0x1205));
    assert_eq!(get_channels_format(5), Some(0x120B));
    assert_eq!(get_channels_format(6), Some(0x120E));
    assert_eq!(get_channels_format(7), Some(0x1211));
    for channels in [-1, 0, 3, 8, 9, 100, i32::MAX, i32::MIN] {
        assert_eq!(get_channels_format(channels), None);
    }
}

#[test]
fn music_is_made_for_every_supported_channel_count() {
    for channels in [1, 2, 4, 5, 6, 7] {
        let (mut scope, mut dev) = machine();
        let msc = Music::new(&mut scope, &mut dev, Ok(counting(420, channels)));
        assert!(msc.is_some());
        assert!(dev.is_source(1) && dev.is_buffer(1) && dev.is_buffer(2));
        let (mut scope, mut dev) = machine();
        let data = SoundData::new(&mut scope, &mut dev, Ok(counting(420, channels)));
        assert!(data.is_some());
        assert!(dev.is_buffer(1));
    }
}

#[test]
fn unsupported_channel_counts_fail_and_leave_nothing() {
    for channels in [3, 8, 9, 10] {
        let (mut scope, mut dev) = machine();
        let file = counting(720, channels);
        assert!(Music::new(&mut scope, &mut dev, Ok(file)).is_none());
        assert!(!dev.is_source(1));
        assert!(!dev.is_buffer(1));
        assert!(!dev.is_buffer(2));
        assert_eq!(dev.get_error(), 0);

        let (mut scope, mut dev) = machine();
        let file = counting(720, channels);
        assert!(SoundData::new(&mut scope, &mut dev, Ok(file)).is_none());
        assert!(!dev.is_buffer(1));
        let _ = dev.take_commands();
    }
}

#[test]
fn music_fails_on_a_pending_backend_error_and_cleans_up() {
    let (mut scope, mut dev) = machine();
    dev.source_play(9);
    let msc = Music::new(&mut scope, &mut dev, Ok(counting(100, 1)));
    assert!(msc.is_none());
    assert!(!dev.is_source(1));
    assert!(!dev.is_buffer(1));
    assert!(!dev.is_buffer(2));
    assert_eq!(dev.get_error(), 0);
    let msc = Music::new(&mut scope, &mut dev, Ok(counting(100, 1)));
    assert!(msc.is_some());
}

#[test]
fn play_fills_and_queues_two_chunks() {
    let (mut scope, mut dev) = machine();
    let mut msc = Music::new(&mut scope, &mut dev, Ok(counting(250, 1))).unwrap();
    assert_eq!(msc.get_chunk_size(), 50000);
    msc.set_chunk_size(50);
    let _ = dev.take_commands();
    assert!(!msc.is_streaming());
    msc.play(&mut scope, &mut dev);
    assert!(msc.is_streaming());
    assert_eq!(msc.get_state(&mut scope, &mut dev), State::Playing);
    assert_eq!(dev.buffer_samples(1), range(0, 50));
    assert_eq!(dev.buffer_samples(2), range(50, 100));
    assert_eq!(dev.buffers_queued(1), 2);
    assert_eq!(dev.buffers_processed(1), 0);
    assert_eq!(
        dev.take_commands(),
        vec![
            Command::BindBuffer { source: 1, buffer: 0 },
            Command::BufferData { buffer: 1, format: 0x1101, rate: 44100 },
            Command::BufferData { buffer: 2, format: 0x1101, rate: 44100 },
            Command::QueueBuffer { source: 1, buffer: 1 },
            Command::QueueBuffer { source: 1, buffer: 2 },
            Command::Play(1),
        ]
    );
}

#[test]
fn refilled_buffers_keep_the_order_of_the_queue() {
    let (mut scope, mut dev) = machine();
    let mut msc = Music::new(&mut scope, &mut dev, Ok(counting(400, 1))).unwrap();
    msc.set_chunk_size(50);
    msc.play(&mut scope, &mut dev);

    assert!(msc.tick(&mut scope, &mut dev));
    assert_eq!(dev.buffer_samples(1), range(0, 50));

    dev.advance(1);
    assert_eq!(dev.buffers_processed(1), 1);
    let _ = dev.take_commands();
    assert!(msc.tick(&mut scope, &mut dev));
    assert_eq!(
        dev.take_commands(),
        vec![
            Command::UnqueueBuffer { source: 1 },
            Command::BufferData { buffer: 1, format: 0x1101, rate: 44100 },
            Command::QueueBuffer { source: 1, buffer: 1 },
        ]
    );
    assert_eq!(dev.buffer_samples(1), range(100, 150));
    assert_eq!(dev.buffer_samples(2), range(50, 100));
    assert_eq!(dev.buffers_processed(1), 0);
    assert_eq!(dev.buffers_queued(1), 2);

    dev.advance(1);
    assert_eq!(dev.buffers_processed(1), 1);

    msc.pause(&mut scope, &mut dev);
    assert_eq!(msc.get_state(&mut scope, &mut dev), State::Paused);
    assert!(msc.tick(&mut scope, &mut dev));
    assert_eq!(dev.buffers_processed(1), 1);
    assert_eq!(dev.buffer_samples(2), range(50, 100));

    msc.play(&mut scope, &mut dev);
    assert_eq!(msc.get_state(&mut scope, &mut dev), State::Playing);
    assert_eq!(dev.buffers_processed(1), 1);
    assert_eq!(dev.buffers_queued(1), 2);
    assert!(msc.tick(&mut scope, &mut dev));
    assert_eq!(dev.buffer_samples(2), range(150, 200));
    assert_eq!(dev.buffer_samples(1), range(100, 150));
}

#[test]
fn a_tick_on_a_stopped_voice_only_detaches() {
    let (mut scope, mut dev) = machine();
    let mut msc = Music::new(&mut scope, &mut dev, Ok(counting(400, 1))).unwrap();
    msc.set_chunk_size(50);
    msc.play(&mut scope, &mut dev);
    dev.advance(1);
    dev.advance(1);
    let _ = dev.take_commands();
    assert_eq!(dev.source_state(1), State::Stopped);
    assert!(!msc.tick(&mut scope, &mut dev));
    assert_eq!(dev.take_commands(), vec![Command::BindBuffer { source: 1, buffer: 0 }]);
}

#[test]
fn two_processed_buffers_are_refilled_in_queue_order() {
    let (mut scope, mut dev) = machine();
    let file = counting(600, 1);
    let mut msc = Music::new(&mut scope, &mut dev, Ok(file)).unwrap();
    msc.set_chunk_size(50);
    let third = dev.gen_buffer();
    msc.play(&mut scope, &mut dev);
    dev.buffer_data(third, 0x1101, range(-50, 0), 44100);
    dev.queue_buffer(1, third);
    dev.advance(1);
    dev.advance(1);
    assert_eq!(dev.source_state(1), State::Playing);
    assert_eq!(dev.buffers_processed(1), 2);
    let _ = dev.take_commands();
    assert!(msc.tick(&mut scope, &mut dev));
    assert_eq!(
        dev.take_commands(),
        vec![
            Command::UnqueueBuffer { source: 1 },
            Command::BufferData { buffer: 1, format: 0x1101, rate: 44100 },
            Command::QueueBuffer { source: 1, buffer: 1 },
            Command::UnqueueBuffer { source: 1 },
            Command::BufferData { buffer: 2, format: 0x1101, rate: 44100 },
            Command::QueueBuffer { source: 1, buffer: 2 },
        ]
    );
    assert_eq!(dev.buffer_samples(1), range(100, 150));
    assert_eq!(dev.buffer_samples(2), range(150, 200));
    assert_eq!(dev.buffer_samples(third), range(-50, 0));
    assert_eq!(dev.buffers_queued(1), 3);
    assert_eq!(dev.buffers_processed(1), 0);
    dev.advance(1);
    assert_eq!(dev.unqueue_buffer(1), third);
    dev.advance(1);
    assert_eq!(dev.unqueue_buffer(1), 1);
    dev.advance(1);
    assert_eq!(dev.unqueue_buffer(1), 2);
    assert_eq!(dev.source_state(1), State::Stopped);
}

#[test]
fn a_short_stream_stops_on_its_own_and_detaches() {
    let (mut scope, mut dev) = machine();
    let mut msc = Music::new(&mut scope, &mut dev, Ok(counting(70, 1))).unwrap();
    msc.set_chunk_size(50);
    msc.play(&mut scope, &mut dev);
    assert_eq!(dev.buffer_samples(1), range(0, 50));
    assert_eq!(dev.buffer_samples(2), range(50, 70));
    assert_eq!(msc.get_state(&mut scope, &mut dev), State::Playing);
    dev.advance(1);
    assert_eq!(msc.get_state(&mut scope, &mut dev), State::Playing);
    dev.advance(1);
    assert_eq!(msc.get_state(&mut scope, &mut dev), State::Stopped);
    assert!(!msc.tick(&mut scope, &mut dev));
    assert!(!msc.is_streaming());
    assert_eq!(dev.buffers_queued(1), 0);
    assert_eq!(dev.bound_buffer(1), 0);
    assert_eq!(msc.get_state(&mut scope, &mut dev), State::Stopped);
    assert!(!msc.tick(&mut scope, &mut dev));
}

#[test]
fn an_empty_stream_yields_empty_buffers() {
    let (mut scope, mut dev) = machine();
    let mut msc = Music::new(&mut scope, &mut dev, Ok(counting(0, 1))).unwrap();
    msc.play(&mut scope, &mut dev);
    assert_eq!(dev.buffer_samples(1), Vec::<i16>::new());
    assert_eq!(dev.buffer_samples(2), Vec::<i16>::new());
    assert_eq!(dev.buffers_queued(1), 2);
}

#[test]
fn stop_ends_streaming_at_the_next_tick() {
    let (mut scope, mut dev) = machine();
    let mut msc = Music::new(&mut scope, &mut dev, Ok(counting(400, 1))).unwrap();
    msc.set_chunk_size(50);
    msc.play(&mut scope, &mut dev);
    msc.stop(&mut scope, &mut dev);
    assert_eq!(msc.get_state(&mut scope, &mut dev), State::Stopped);
    msc.stop(&mut scope, &mut dev);
    assert_eq!(msc.get_state(&mut scope, &mut dev), State::Stopped);
    assert!(msc.is_streaming());
    assert!(!msc.tick(&mut scope, &mut dev));
    assert!(!msc.is_streaming());
    assert_eq!(dev.buffers_queued(1), 0);
}

#[test]
fn play_after_stop_restarts_from_the_first_frame() {
    let (mut scope, mut dev) = machine();
    let mut msc = Music::new(&mut scope, &mut dev, Ok(counting(400, 1))).unwrap();
    msc.set_chunk_size(50);
    msc.play(&mut scope, &mut dev);
    dev.advance(1);
    assert!(msc.tick(&mut scope, &mut dev));
    assert_eq!(dev.buffer_samples(1), range(100, 150));
    msc.stop(&mut scope, &mut dev);
    msc.play(&mut scope, &mut dev);
    assert_eq!(msc.get_state(&mut scope, &mut dev), State::Playing);
    assert_eq!(dev.buffer_samples(1), range(0, 50));
    assert_eq!(dev.buffer_samples(2), range(50, 100));
    assert_eq!(dev.buffers_queued(1), 2);
    assert_eq!(dev.buffers_processed(1), 0);
}

#[test]
fn play_while_playing_restarts() {
    let (mut scope, mut dev) = machine();
    let mut msc = Music::new(&mut scope, &mut dev, Ok(counting(400, 1))).unwrap();
    msc.set_chunk_size(50);
    msc.play(&mut scope, &mut dev);
    dev.advance(1);
    assert!(msc.tick(&mut scope, &mut dev));
    let _ = dev.take_commands();
    msc.play(&mut scope, &mut dev);
    let commands = dev.take_commands();
    assert_eq!(commands[0], Command::Stop(1));
    assert_eq!(commands[1], Command::BindBuffer { source: 1, buffer: 0 });
    assert_eq!(dev.buffer_samples(1), range(0, 50));
    assert_eq!(dev.buffer_samples(2), range(50, 100));
    assert_eq!(dev.buffers_queued(1), 2);
    assert_eq!(msc.get_state(&mut scope, &mut dev), State::Playing);
}

#[test]
fn tick_before_play_does_nothing() {
    let (mut scope, mut dev) = machine();
    let mut msc = Music::new(&mut scope, &mut dev, Ok(counting(400, 1))).unwrap();
    let _ = dev.take_commands();
    assert!(!msc.tick(&mut scope, &mut dev));
    assert_eq!(dev.pending_commands(), 0);
}

#[test]
fn stereo_music_reads_interleaved_chunks() {
    let (mut scope, mut dev) = machine();
    let mut msc = Music::new(&mut scope, &mut dev, Ok(counting(300, 2))).unwrap();
    msc.set_chunk_size(100);
    msc.play(&mut scope, &mut dev);
    assert_eq!(dev.buffer_samples(1), range(0, 100));
    assert_eq!(dev.buffer_samples(2), range(100, 200));
    assert_eq!(
        dev.take_commands()[7],
        Command::BufferData { buffer: 1, format: 0x1103, rate: 44100 }
    );
}

#[test]
fn releasing_a_music_deletes_its_voice_and_buffers() {
    let (mut scope, mut dev) = machine();
    let msc = Music::new(&mut scope, &mut dev, Ok(counting(300, 2))).unwrap();
    msc.release(&mut dev);
    assert!(!dev.is_source(1));
    assert!(!dev.is_buffer(1));
    assert!(!dev.is_buffer(2));
}

#[test]
fn a_music_can_be_fed_chunk_by_chunk() {
    let (mut scope, mut dev) = machine();
    let mut msc = Music::new(&mut scope, &mut dev, Ok(counting(0, 1))).unwrap();
    assert_eq!(msc.chunks_due(&mut scope, &mut dev), 0);
    assert!(!msc.refill(&mut scope, &mut dev, range(0, 10)));
    let _ = dev.take_commands();
    msc.play_with(&mut scope, &mut dev, range(0, 10), range(10, 20));
    assert_eq!(
        dev.take_commands(),
        vec![
            Command::BindBuffer { source: 1, buffer: 0 },
            Command::BufferData { buffer: 1, format: 0x1101, rate: 44100 },
            Command::BufferData { buffer: 2, format: 0x1101, rate: 44100 },
            Command::QueueBuffer { source: 1, buffer: 1 },
            Command::QueueBuffer { source: 1, buffer: 2 },
            Command::Play(1),
        ]
    );
    assert!(msc.is_streaming());
    assert_eq!(msc.get_state(&mut scope, &mut dev), State::Playing);
    assert_eq!(dev.buffer_samples(1), range(0, 10));
    assert_eq!(dev.buffer_samples(2), range(10, 20));
    assert_eq!(msc.chunks_due(&mut scope, &mut dev), 0);
    assert!(!msc.refill(&mut scope, &mut dev, range(20, 30)));
    assert_eq!(dev.buffer_samples(1), range(0, 10));

    dev.sync(1, 1, false);
    assert_eq!(msc.chunks_due(&mut scope, &mut dev), 1);
    assert!(msc.refill(&mut scope, &mut dev, range(20, 30)));
    assert_eq!(
        dev.take_commands(),
        vec![
            Command::UnqueueBuffer { source: 1 },
            Command::BufferData { buffer: 1, format: 0x1101, rate: 44100 },
            Command::QueueBuffer { source: 1, buffer: 1 },
        ]
    );
    assert_eq!(dev.buffer_samples(1), range(20, 30));
    assert_eq!(dev.buffer_samples(2), range(10, 20));
    assert_eq!(msc.chunks_due(&mut scope, &mut dev), 0);
    assert!(msc.tick(&mut scope, &mut dev));
    assert_eq!(dev.pending_commands(), 0);

    msc.pause(&mut scope, &mut dev);
    dev.sync(1, 1, false);
    assert_eq!(msc.chunks_due(&mut scope, &mut dev), 0);
    msc.play_with(&mut scope, &mut dev, range(90, 95), range(95, 99));
    assert_eq!(dev.buffer_samples(2), range(10, 20));
    assert_eq!(dev.take_commands(), vec![Command::Pause(1), Command::Play(1)]);

    dev.sync(1, 2, true);
    assert_eq!(msc.get_state(&mut scope, &mut dev), State::Stopped);
    assert_eq!(msc.chunks_due(&mut scope, &mut dev), 0);
    assert!(!msc.tick(&mut scope, &mut dev));
    assert!(!msc.is_streaming());
    assert_eq!(dev.buffers_queued(1), 0);
    assert_eq!(dev.bound_buffer(1), 0);
    assert!(dev.is_buffer(1) && dev.is_buffer(2));
}

#[test]
fn feeding_and_reading_the_file_come_to_the_same() {
    let (mut scope, mut dev) = machine();
    let mut read = Music::new(&mut scope, &mut dev, Ok(counting(130, 1))).unwrap();
    let mut fed = Music::new(&mut scope, &mut dev, Ok(counting(0, 1))).unwrap();
    read.set_chunk_size(50);
    read.play(&mut scope, &mut dev);
    fed.play_with(&mut scope, &mut dev, range(0, 50), range(50, 100));
    dev.advance(read.voice());
    dev.advance(fed.voice());
    assert!(read.tick(&mut scope, &mut dev));
    assert!(fed.refill(&mut scope, &mut dev, range(100, 130)));
    assert!(fed.tick(&mut scope, &mut dev));
    assert_eq!(dev.buffer_samples(1), dev.buffer_samples(3));
    assert_eq!(dev.buffer_samples(2), dev.buffer_samples(4));
    assert_eq!(dev.buffer_samples(3), range(100, 130));
    assert_eq!(dev.buffers_queued(read.voice()), dev.buffers_queued(fed.voice()));
    assert_eq!(dev.buffers_processed(read.voice()), dev.buffers_processed(fed.voice()));
}
