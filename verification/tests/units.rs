use kira::error::FromFileError;
use kira::frame::Frame;
use kira::metronome::Metronome;
use kira::metronome::Tempo;
use kira::sound::AudioFormat;
use kira::sound::PlayableSettings;
use kira::sound::Sound;
use kira::sound::assemble_sound;
use kira::sound::format_from_extension;
use kira::sound::frames_from_mono_i32;
use kira::sound::frames_from_stereo_i32;
use kira::sound::uniform_sample_rate;
use kira::static_sound::PlaybackState;
use kira::static_sound::StaticSound;
use kira::tween::Easing;
use kira::tween::eased_progress;
use kira::tween::progress_exec;

#[test]
fn cubic_interpolation_midpoint() {
    let y0 = Frame::new(0, 0);
    let y1 = Frame::new(0, 0);
    let y2 = Frame::new(1024, 1024);
    let y3 = Frame::new(1024, 1024);
    let f = Frame::interpolate(y0, y1, y2, y3, 512);
    assert_eq!(f.left(), 512);
    assert_eq!(f.right(), 512);
}

#[test]
fn interpolation_at_zero_fraction_is_second_point() {
    let y0 = Frame::new(100, -100);
    let y1 = Frame::new(200, -200);
    let y2 = Frame::new(300, -300);
    let y3 = Frame::new(400, -400);
    let f = Frame::interpolate(y0, y1, y2, y3, 0);
    assert_eq!(f.left(), 200);
    assert_eq!(f.right(), -200);
}

#[test]
fn pcm_scaling() {
    let f16 = Frame::from_i32(16384, -32768, 16);
    assert_eq!(f16.left(), 16384);
    assert_eq!(f16.right(), -32768);
    let f8 = Frame::from_i32(127, -128, 8);
    assert_eq!(f8.left(), 127 * 256);
    assert_eq!(f8.right(), -128 * 256);
    let f24 = Frame::from_i32(0x400000, -0x400000, 24);
    assert_eq!(f24.left(), 0x4000);
    assert_eq!(f24.right(), -0x4000);
}

#[test]
fn frame_arithmetic_saturates() {
    let big = Frame::new(4398046511104, 4398046511104);
    let sum = big.add(big);
    assert_eq!(sum.left(), 4398046511104);
    let scaled = big.scaled(2000000);
    assert_eq!(scaled.left(), 4398046511104);
    let half = Frame::new(1000, -1000).scaled(500);
    assert_eq!(half.left(), 500);
    assert_eq!(half.right(), -500);
    let diff = Frame::new(300, 100).sub(Frame::new(100, 300));
    assert_eq!(diff.left(), 200);
    assert_eq!(diff.right(), -200);
    let mono = Frame::from_mono(77);
    assert_eq!(mono.left(), 77);
    assert_eq!(mono.right(), 77);
}

#[test]
fn frame_lookup_inside_and_past_the_end() {
    let frames = vec![
        Frame::new(100, 100),
        Frame::new(200, 200),
        Frame::new(300, 300),
        Frame::new(400, 400),
    ];
    let sound = Sound::new(1000, frames, PlayableSettings::base());
    let inside = sound.get_frame_at_position(1, 1000);
    assert_eq!(inside.left(), 200);
    let far = sound.get_frame_at_position(10, 1);
    assert_eq!(far.left(), 0);
    assert_eq!(far.right(), 0);
}

#[test]
fn duration_in_milliseconds() {
    let mut frames = Vec::new();
    for _ in 0..44100 {
        frames.push(Frame::zero());
    }
    let sound = Sound::new(44100, frames, PlayableSettings::base());
    assert_eq!(sound.duration_ms(), 1000);
}

#[test]
fn cooldown_counts_down() {
    let mut settings = PlayableSettings::base();
    settings.cooldown_ms = Some(5);
    let mut sound = Sound::new(1000, vec![Frame::zero()], settings);
    assert!(!sound.cooling_down());
    sound.start_cooldown(1000);
    assert!(sound.cooling_down());
    for _ in 0..5 {
        sound.update_cooldown();
    }
    assert!(!sound.cooling_down());
    let mut plain = Sound::new(1000, vec![Frame::zero()], PlayableSettings::base());
    plain.start_cooldown(1000);
    assert!(!plain.cooling_down());
}

#[test]
fn extension_mapping() {
    assert_eq!(format_from_extension(&b"mp3".to_vec()), Some(AudioFormat::Mp3));
    assert_eq!(format_from_extension(&b"ogg".to_vec()), Some(AudioFormat::Ogg));
    assert_eq!(format_from_extension(&b"flac".to_vec()), Some(AudioFormat::Flac));
    assert_eq!(format_from_extension(&b"wav".to_vec()), Some(AudioFormat::Wav));
    assert_eq!(format_from_extension(&b"aiff".to_vec()), None);
}

#[test]
fn sample_rate_consistency() {
    assert_eq!(uniform_sample_rate(&vec![]), Err(FromFileError::UnknownMp3SampleRate));
    assert_eq!(
        uniform_sample_rate(&vec![44100, 48000]),
        Err(FromFileError::VariableMp3SampleRate)
    );
    assert_eq!(uniform_sample_rate(&vec![44100, 44100]), Ok(44100));
}

#[test]
fn channel_assembly() {
    let samples = vec![100, -100, 200, -200, 300];
    let mono = frames_from_mono_i32(&samples, 16);
    assert_eq!(mono.len(), 5);
    assert_eq!(mono[2].left(), 200);
    assert_eq!(mono[2].right(), 200);
    let stereo = frames_from_stereo_i32(&samples, 16);
    assert_eq!(stereo.len(), 2);
    assert_eq!(stereo[1].left(), 200);
    assert_eq!(stereo[1].right(), -200);
    let rejected = assemble_sound(44100, 6, &samples, 16, PlayableSettings::base());
    assert!(matches!(rejected, Err(FromFileError::UnsupportedChannelConfiguration)));
    let accepted = assemble_sound(44100, 1, &samples, 16, PlayableSettings::base()).unwrap();
    assert_eq!(accepted.frame_count_exec(), 5);
}

#[test]
fn easing_formulas() {
    assert_eq!(eased_progress(Easing::Linear, 500), 500);
    assert_eq!(eased_progress(Easing::InPowi(2), 500), 250);
    assert_eq!(eased_progress(Easing::OutPowi(2), 500), 750);
    assert_eq!(eased_progress(Easing::InOutPowi(2), 250), 125);
    assert_eq!(eased_progress(Easing::InOutPowi(2), 750), 875);
    assert_eq!(eased_progress(Easing::InPowi(0), 700), 700);
    assert_eq!(progress_exec(0, 100), 0);
    assert_eq!(progress_exec(25, 100), 250);
    assert_eq!(progress_exec(250, 100), 1000);
}

#[test]
fn metronome_emission_ticks() {
    let mut m = Metronome::new(Tempo { milli_bpm: 120000 }, 1000, vec![1000, 4000]);
    let mut out: Vec<u64> = Vec::new();
    m.update(&mut out);
    assert!(out.is_empty());
    m.start();
    let mut emissions: Vec<(u32, Vec<u64>)> = Vec::new();
    for tick in 0..2500u32 {
        out.clear();
        m.update(&mut out);
        if !out.is_empty() {
            emissions.push((tick, out.clone()));
        }
    }
    assert_eq!(
        emissions,
        vec![
            (499, vec![1000]),
            (999, vec![1000]),
            (1499, vec![1000]),
            (1999, vec![1000, 4000]),
            (2499, vec![1000]),
        ]
    );
    m.pause();
    out.clear();
    m.update(&mut out);
    assert!(out.is_empty());
    m.stop();
}

#[test]
fn static_sound_runs_to_completion() {
    let frames = vec![
        Frame::new(500, 500),
        Frame::new(500, 500),
        Frame::new(500, 500),
        Frame::new(500, 500),
        Frame::new(500, 500),
    ];
    let mut s = StaticSound::new(1000, frames);
    assert_eq!(s.sample_rate(), 1000);
    assert_eq!(s.duration_ms(), 5);
    assert_eq!(s.frame_at_index(0).left(), 500);
    assert_eq!(s.frame_at_index(9).left(), 0);
    let first = s.process(1000);
    assert_eq!(first.left(), 500);
    let mut steps = 0;
    while !s.finished() && steps < 100 {
        s.process(1000);
        steps += 1;
    }
    assert!(s.finished());
    assert!(steps <= 10);
    assert_eq!(s.state_exec(), PlaybackState::Stopped);
    assert_eq!(
        s.process(1000).left(),
        0,
        "a sound past its end plays silence"
    );
}
