use kira::backend::AudioManagerSettings;
use kira::command::Event;
use kira::error::CommandError;
use kira::error::InstanceError;
use kira::error::PlaySoundError;
use kira::error::AddSoundError;
use kira::frame::Frame;
use kira::instance::InstanceId;
use kira::instance::InstanceSettings;
use kira::instance::InstanceState;
use kira::manager::AudioManager;
use kira::metronome::Tempo;
use kira::sequence::Sequence;
use kira::sequence::SequenceStep;
use kira::sound::PlayableSettings;
use kira::sound::Sound;
use kira::tween::Easing;
use kira::tween::Tween;

fn small_settings() -> AudioManagerSettings {
    AudioManagerSettings {
        num_commands: 8,
        num_events: 64,
        num_sounds: 4,
        num_instances: 4,
        num_parameters: 4,
        num_sequences: 4,
        num_metronomes: 2,
    }
}

fn tone(frames: usize, sample_rate: u32) -> Sound {
    let mut buf = Vec::new();
    for _ in 0..frames {
        buf.push(Frame::new(10000, 10000));
    }
    Sound::new(sample_rate, buf, PlayableSettings::base())
}

#[test]
fn single_shot_plays_then_reclaims() {
    let (mut manager, mut backend) = AudioManager::new(1000, small_settings());
    let sound_id = manager.add_sound(tone(1000, 1000)).unwrap();
    let instance_id = manager.play_sound(sound_id, InstanceSettings::base()).unwrap();
    let out = backend.process();
    assert_eq!(backend.instance_state(instance_id), Some(InstanceState::Playing));
    assert!(out.left() != 0 || out.right() != 0);
    let mut nonzero = 0u32;
    for _ in 0..1000 {
        let f = backend.process();
        if f.left() != 0 {
            nonzero += 1;
        }
    }
    assert!(nonzero > 900);
    for _ in 0..10 {
        backend.process();
    }
    assert_eq!(backend.instance_count(), 0);
    assert_eq!(backend.instance_state(instance_id), None);
}

#[test]
fn fade_pause_resume() {
    let (mut manager, mut backend) = AudioManager::new(1000, small_settings());
    let sound_id = manager.add_sound(tone(1000, 1000)).unwrap();
    let instance_id = manager.play_sound(sound_id, InstanceSettings::base()).unwrap();
    backend.process();
    assert_eq!(backend.instance_effective_volume(instance_id), Some(1000));
    let fade = Tween { duration_ticks: 100, easing: Easing::Linear };
    manager.pause_instance(instance_id, Some(fade)).unwrap();
    for _ in 0..50 {
        backend.process();
    }
    assert_eq!(backend.instance_effective_volume(instance_id), Some(500));
    assert_eq!(backend.instance_state(instance_id), Some(InstanceState::Pausing));
    for _ in 0..50 {
        backend.process();
    }
    assert_eq!(backend.instance_effective_volume(instance_id), Some(0));
    assert_eq!(backend.instance_state(instance_id), Some(InstanceState::Paused));
    manager.resume_instance(instance_id, Some(fade)).unwrap();
    for _ in 0..100 {
        backend.process();
    }
    assert_eq!(backend.instance_effective_volume(instance_id), Some(1000));
    assert_eq!(backend.instance_state(instance_id), Some(InstanceState::Playing));
}

#[test]
fn metronome_ticks_in_order() {
    let (mut manager, mut backend) = AudioManager::new(1000, small_settings());
    let metronome_id = manager
        .add_metronome(Tempo { milli_bpm: 120000 }, vec![1000, 4000])
        .unwrap();
    manager.start_metronome(metronome_id).unwrap();
    let mut events: Vec<(u32, u64)> = Vec::new();
    for tick in 0..10000u32 {
        backend.process();
        while let Some(event) = manager.next_event() {
            match event {
                Event::MetronomeIntervalPassed(id, interval) => {
                    assert_eq!(id, metronome_id);
                    events.push((tick, interval));
                }
                Event::CustomEvent(_) => panic!("no custom events expected"),
            }
        }
    }
    let ones = events.iter().filter(|e| e.1 == 1000).count();
    let fours = events.iter().filter(|e| e.1 == 4000).count();
    assert_eq!(ones, 20);
    assert_eq!(fours, 5);
    assert_eq!(events.len(), 25);
    for pair in events.windows(2) {
        let earlier = pair[0];
        let later = pair[1];
        assert!(earlier.0 < later.0 || (earlier.0 == later.0 && earlier.1 < later.1));
    }
    assert_eq!(events[0], (499, 1000));
}

#[test]
fn sequence_timing() {
    let (mut manager, mut backend) = AudioManager::new(1000, small_settings());
    let sound_id = manager.add_sound(tone(1000, 1000)).unwrap();
    let metronome_id = manager
        .add_metronome(Tempo { milli_bpm: 120000 }, vec![1000])
        .unwrap();
    manager.start_metronome(metronome_id).unwrap();
    let a = InstanceId { index: 2, generation: 7 };
    let b = InstanceId { index: 3, generation: 9 };
    let steps = vec![
        SequenceStep::PlaySound(sound_id, a, InstanceSettings::base()),
        SequenceStep::WaitForInterval(1000),
        SequenceStep::PlaySound(sound_id, b, InstanceSettings::base()),
        SequenceStep::End,
    ];
    let sequence = Sequence::new(metronome_id, steps);
    let sequence_id = manager.start_sequence(sequence).unwrap();
    backend.process();
    assert_eq!(backend.instance_state(a), Some(InstanceState::Playing));
    assert_eq!(backend.instance_state(b), None);
    assert!(backend.sequence_exists(sequence_id));
    for _ in 0..498 {
        backend.process();
    }
    assert_eq!(backend.instance_state(b), None);
    backend.process();
    assert_eq!(backend.instance_state(b), Some(InstanceState::Playing));
    assert!(!backend.sequence_exists(sequence_id));
}

#[test]
fn queue_full_then_drained() {
    let mut settings = small_settings();
    settings.num_commands = 4;
    let (mut manager, mut backend) = AudioManager::new(1000, settings);
    for _ in 0..4 {
        manager.emit_custom_event(5).unwrap();
    }
    let refused = manager.emit_custom_event(5);
    assert_eq!(refused, Err(CommandError::CommandQueueFull));
    backend.process();
    manager.emit_custom_event(6).unwrap();
}

#[test]
fn stale_id_is_safe() {
    let (mut manager, mut backend) = AudioManager::new(1000, small_settings());
    let sound_id = manager.add_sound(tone(5, 1000)).unwrap();
    let instance_id = manager.play_sound(sound_id, InstanceSettings::base()).unwrap();
    for _ in 0..10 {
        backend.process();
    }
    assert_eq!(backend.instance_count(), 0);
    manager.free_unused_instances();
    let refused = manager.set_instance_volume(instance_id, 500, None);
    assert_eq!(refused, Err(InstanceError::InstanceStopped));
    assert_eq!(backend.instance_state(instance_id), None);
    backend.process();
    assert_eq!(backend.instance_count(), 0);
}

#[test]
fn unloading_a_sound_stops_its_instances_at_once() {
    let (mut manager, mut backend) = AudioManager::new(1000, small_settings());
    let sound_id = manager.add_sound(tone(1000, 1000)).unwrap();
    let instance_id = manager.play_sound(sound_id, InstanceSettings::base()).unwrap();
    backend.process();
    assert_eq!(backend.instance_count(), 1);
    manager.unload_sound(sound_id).unwrap();
    backend.process();
    assert_eq!(backend.instance_count(), 0);
    assert_eq!(backend.instance_state(instance_id), None);
    manager.free_unused_instances();
    let refused = manager.set_instance_volume(instance_id, 500, None);
    assert_eq!(refused, Err(InstanceError::InstanceStopped));
}

#[test]
fn arena_count_never_exceeds_capacity() {
    let (mut manager, mut backend) = AudioManager::new(1000, small_settings());
    let sound_id = manager.add_sound(tone(1000, 1000)).unwrap();
    let mut limit_hit = false;
    for _ in 0..6 {
        match manager.play_sound(sound_id, InstanceSettings::base()) {
            Ok(_) => {}
            Err(PlaySoundError::InstanceLimitReached) => {
                limit_hit = true;
            }
            Err(other) => panic!("unexpected error {:?}", other),
        }
        backend.process();
        assert!(backend.instance_count() <= 4);
    }
    assert!(limit_hit);
}

#[test]
fn sound_limit_reached() {
    let mut settings = small_settings();
    settings.num_sounds = 1;
    let (mut manager, mut backend) = AudioManager::new(1000, settings);
    manager.add_sound(tone(5, 1000)).unwrap();
    let refused = manager.add_sound(tone(5, 1000));
    assert_eq!(refused, Err(AddSoundError::SoundLimitReached));
    backend.process();
}

#[test]
fn stop_on_stopping_keeps_longer_fade() {
    let mut inst = kira::instance::Instance::new(
        kira::sound::SoundId { index: 0, generation: 0 },
        InstanceSettings::base(),
        1000000,
    );
    inst.stop(Some(Tween { duration_ticks: 100, easing: Easing::Linear }));
    for _ in 0..10 {
        inst.update();
    }
    assert_eq!(inst.effective_volume(), 900);
    inst.stop(Some(Tween { duration_ticks: 200, easing: Easing::Linear }));
    for _ in 0..10 {
        inst.update();
    }
    assert_eq!(inst.effective_volume(), 800);
    inst.stop(Some(Tween { duration_ticks: 10, easing: Easing::Linear }));
    for _ in 0..5 {
        inst.update();
    }
    assert_eq!(inst.effective_volume(), 400);
    for _ in 0..5 {
        inst.update();
    }
    assert_eq!(inst.effective_volume(), 0);
    assert_eq!(inst.state_exec(), InstanceState::Stopped);
}

#[test]
fn effective_volume_stays_in_band() {
    let mut inst = kira::instance::Instance::new(
        kira::sound::SoundId { index: 0, generation: 0 },
        InstanceSettings { volume_milli: 800, pitch_milli: 1000, loop_start_units: None },
        1000000,
    );
    inst.pause(Some(Tween { duration_ticks: 7, easing: Easing::InOutPowi(2) }));
    for _ in 0..20 {
        inst.update();
        let v = inst.effective_volume();
        assert!(v >= 0 && v <= 800);
    }
    inst.resume(Some(Tween { duration_ticks: 3, easing: Easing::OutPowi(3) }));
    for _ in 0..20 {
        inst.update();
        let v = inst.effective_volume();
        assert!(v >= 0 && v <= 800);
    }
}

#[test]
fn parameters_follow_commands() {
    let (mut manager, mut backend) = AudioManager::new(1000, small_settings());
    let id = manager.add_parameter(500).unwrap();
    backend.process();
    assert_eq!(backend.parameter_value(id), Some(500));
    manager.set_parameter(id, 700).unwrap();
    backend.process();
    assert_eq!(backend.parameter_value(id), Some(700));
    manager
        .tween_parameter(id, 1700, Tween { duration_ticks: 100, easing: Easing::Linear })
        .unwrap();
    for _ in 0..50 {
        backend.process();
    }
    assert_eq!(backend.parameter_value(id), Some(1200));
    for _ in 0..50 {
        backend.process();
    }
    assert_eq!(backend.parameter_value(id), Some(1700));
    manager.remove_parameter(id).unwrap();
    backend.process();
    backend.process();
    assert_eq!(backend.parameter_value(id), None);
    manager.free_unused_parameters();
}

#[test]
fn out_of_cap_settings_are_clamped() {
    let (mut manager, mut backend) = AudioManager::new(1000, small_settings());
    let sound_id = manager.add_sound(tone(1000, 1000)).unwrap();
    let loud = InstanceSettings {
        volume_milli: 5_000_000,
        pitch_milli: -3,
        loop_start_units: None,
    };
    let instance_id = manager.play_sound(sound_id, loud).unwrap();
    backend.process();
    assert_eq!(backend.instance_state(instance_id), Some(InstanceState::Playing));
    assert_eq!(backend.instance_effective_volume(instance_id), Some(1_024_000));
    manager.set_instance_volume(instance_id, -50, None).unwrap();
    backend.process();
    assert_eq!(backend.instance_effective_volume(instance_id), Some(0));
}

#[test]
fn looping_sequence_emits_periodically() {
    let (mut manager, mut backend) = AudioManager::new(1000, small_settings());
    let metronome_id = manager
        .add_metronome(Tempo { milli_bpm: 120000 }, vec![1000])
        .unwrap();
    let steps = vec![
        SequenceStep::EmitCustomEvent(9),
        SequenceStep::Wait(5),
        SequenceStep::GoTo(0),
    ];
    let sequence_id = manager.start_sequence(Sequence::new(metronome_id, steps)).unwrap();
    let mut tags = 0u32;
    for _ in 0..31 {
        backend.process();
        while let Some(event) = manager.next_event() {
            if event == Event::CustomEvent(9) {
                tags += 1;
            }
        }
    }
    assert_eq!(tags, 7, "one emission when started, then one every five ticks");
    assert!(backend.sequence_exists(sequence_id));
}
