use karplus::engine::{Karplus, NOTE_OFF, NOTE_ON};
use karplus::envelope::{envelope_rate, ENV_ONE};
use karplus::excitation::{mix_excitation, SourceKind, SAMPLE_LIMIT, SAMPLE_ONE};
use karplus::params::{KarplusParameters, SOURCE_COUNT};
use karplus::resonator::{delay_length_for, Resonator};
use karplus::voice::{Voice, VoiceTracker};

fn silent_fields(engine: &Karplus) -> Vec<[i32; SOURCE_COUNT]> {
    vec![[0; SOURCE_COUNT]; engine.tracker.voices().len()]
}

fn step(engine: &mut Karplus) -> i32 {
    engine.advance();
    let fields = silent_fields(engine);
    engine.render(&fields)
}

#[test]
fn one_attack_step_from_silence() {
    let mut k = Karplus::new(100, 220);
    k.params.set_parameter(10, 1000);
    k.note_on(60);
    k.advance();
    let voices = k.tracker.voices();
    assert_eq!(voices.len(), 1);
    assert_eq!(voices[0].pitch, 60);
    assert_eq!(voices[0].envelope, ENV_ONE / 100);
    assert!(!voices[0].released);
}

#[test]
fn envelope_rises_while_held_and_falls_after_release() {
    let mut k = Karplus::new(1000, 220);
    k.params.set_parameter(10, 10);
    k.params.set_parameter(11, 20);
    k.note_on(64);
    let mut last = 0u64;
    for _ in 0..30 {
        k.advance();
        let e = k.tracker.voices()[0].envelope;
        assert!(e >= last);
        assert!(e <= ENV_ONE);
        last = e;
    }
    assert_eq!(last, ENV_ONE);
    k.note_off(64);
    let mut steps = 0;
    while !k.tracker.voices().is_empty() {
        k.advance();
        if let Some(v) = k.tracker.voices().first() {
            assert!(v.envelope < last);
            assert!(v.envelope > 0);
            last = v.envelope;
        }
        steps += 1;
    }
    assert_eq!(steps, 20);
}

#[test]
fn voice_leaves_in_the_step_its_envelope_reaches_zero() {
    let mut k = Karplus::new(1000, 220);
    k.params.set_parameter(10, 1);
    k.params.set_parameter(11, 1);
    k.note_on(50);
    k.advance();
    assert_eq!(k.tracker.voices()[0].envelope, ENV_ONE);
    k.note_off(50);
    k.advance();
    assert!(k.tracker.voices().is_empty());
    for _ in 0..5 {
        k.advance();
        assert!(k.tracker.voices().is_empty());
    }
}

#[test]
fn note_released_before_its_first_step_never_sounds() {
    let mut k = Karplus::new(44100, 220);
    k.note_on(60);
    k.note_off(60);
    k.advance();
    assert!(k.tracker.voices().is_empty());
}

#[test]
fn repeated_note_on_overlaps_and_note_off_releases_both() {
    let mut k = Karplus::new(44100, 220);
    k.note_on(60);
    k.advance();
    k.note_on(60);
    k.note_on(61);
    assert_eq!(k.tracker.voices().len(), 3);
    k.note_off(60);
    let v = k.tracker.voices();
    assert!(v[0].released && v[1].released && !v[2].released);
    assert_eq!(v[1].envelope, 0);
}

#[test]
fn muted_sources_give_silence() {
    let mut k = Karplus::new(44100, 220);
    k.params.set_parameter(0, 0);
    k.params.set_parameter(10, 1);
    k.note_on(60);
    k.note_on(72);
    for _ in 0..500 {
        k.advance();
        let fields = vec![[SAMPLE_ONE; SOURCE_COUNT]; k.tracker.voices().len()];
        assert_eq!(k.render_with(&fields), 0);
    }
    assert_eq!(k.tracker.voices().len(), 2);
}

#[test]
fn undamped_ringing_never_grows() {
    let mut k = Karplus::new(1000, 250);
    assert_eq!(k.resonator.len(), 4);
    k.params.set_parameter(12, 1000);
    k.params.set_parameter(10, 1);
    k.params.set_parameter(11, 1);
    k.note_on(60);
    k.advance();
    let fields = vec![[SAMPLE_ONE; SOURCE_COUNT]; 1];
    assert_eq!(k.render_with(&fields), SAMPLE_ONE);
    k.note_off(60);
    k.advance();
    assert!(k.tracker.voices().is_empty());
    let mut peak = SAMPLE_ONE;
    for _ in 0..400 {
        let y = k.render_with(&Vec::new());
        assert!(y.abs() <= peak);
        peak = peak.max(y.abs());
    }
    assert!(peak <= SAMPLE_ONE);
}

#[test]
fn fixed_excitation_is_deterministic() {
    let run = || {
        let mut k = Karplus::new(8000, 400);
        k.params.set_parameter(1, 700);
        k.params.set_parameter(10, 2);
        k.note_on(69);
        let mut out = Vec::new();
        for i in 0..100 {
            k.advance();
            let mut values = [0i32; SOURCE_COUNT];
            values[1] = (i * 997 % 131072) - 65536;
            let fields = vec![values; k.tracker.voices().len()];
            out.push(k.render_with(&fields));
        }
        out
    };
    assert_eq!(run(), run());
}

#[test]
fn white_noise_note_sounds_bounded_and_decays() {
    let mut k = Karplus::new(44100, 220);
    k.params.set_parameter(0, 1000);
    for i in 1..10 {
        k.params.set_parameter(i, 0);
    }
    k.params.set_parameter(10, 1);
    k.params.set_parameter(11, 1);
    k.params.set_parameter(12, 996);
    k.note_on(69);
    let bound = SAMPLE_ONE + SAMPLE_ONE / 2;
    let mut peak_on = 0;
    for _ in 0..50 {
        let y = step(&mut k);
        assert!(y.abs() <= bound);
        peak_on = peak_on.max(y.abs());
    }
    assert!(peak_on > 0);
    k.note_off(69);
    let mut samples = 50;
    while !k.tracker.voices().is_empty() {
        let y = step(&mut k);
        assert!(y.abs() <= bound);
        samples += 1;
    }
    assert!(samples < 150);
    let window = |k: &mut Karplus| {
        let mut energy: i128 = 0;
        let mut peak = 0;
        for _ in 0..200 {
            let y = step(k);
            energy += (y as i128) * (y as i128);
            peak = peak.max(y.abs());
        }
        (energy, peak)
    };
    let (first_energy, mut last_peak) = window(&mut k);
    assert!(last_peak <= bound);
    let mut last_energy = first_energy;
    for _ in 0..65 {
        let (energy, peak) = window(&mut k);
        assert!(peak <= last_peak);
        last_peak = peak;
        last_energy = energy;
    }
    assert!(last_energy * 2 < first_energy);
}

#[test]
fn render_draws_fresh_white_noise() {
    let mut k = Karplus::new(44100, 220);
    k.params.set_parameter(10, 1);
    k.note_on(60);
    let mut outputs = Vec::new();
    for _ in 0..60 {
        outputs.push(step(&mut k));
    }
    assert!(outputs.iter().any(|&y| y != 0));
    assert!(outputs.iter().any(|&y| y != outputs[59]));
}

#[test]
fn phase_counter_runs_only_while_voices_sound() {
    let mut k = Karplus::new(1000, 220);
    k.params.set_parameter(10, 1);
    k.params.set_parameter(11, 1);
    step(&mut k);
    assert_eq!(k.elapsed, 0);
    k.note_on(60);
    step(&mut k);
    step(&mut k);
    assert_eq!(k.elapsed, 2);
    k.note_off(60);
    step(&mut k);
    step(&mut k);
    assert_eq!(k.elapsed, 2);
}

#[test]
fn midi_events_start_and_release_notes() {
    let mut k = Karplus::new(44100, 220);
    let events = vec![[NOTE_ON, 60, 100], [NOTE_ON, 64, 90], [0xb0, 7, 127], [NOTE_OFF, 60, 0], [0x91, 67, 100]];
    k.process_events(&events);
    let v = k.tracker.voices();
    assert_eq!(v.len(), 2);
    assert_eq!((v[0].pitch, v[0].released), (60, true));
    assert_eq!((v[1].pitch, v[1].released), (64, false));
}

#[test]
fn default_engine_matches_its_settings() {
    let k = Karplus::default();
    assert_eq!(k.sample_rate, 44100);
    assert_eq!(k.resonator.len(), 200);
    assert_eq!(k.params.get_parameter(0), 1000);
    assert_eq!(k.params.get_parameter(12), 996);
    assert!(k.tracker.voices().is_empty());
}

#[test]
fn sample_rate_change_retunes_delay_line() {
    let mut k = Karplus::new(44100, 441);
    assert_eq!(k.resonator.len(), 100);
    k.set_sample_rate(22050);
    assert_eq!(k.sample_rate, 22050);
    assert_eq!(k.resonator.len(), 50);
}

#[test]
fn envelope_rates_are_exact() {
    assert_eq!(envelope_rate(100, 1000), 10_000_000);
    assert_eq!(envelope_rate(44100, 1), 22_675_736);
    assert_eq!(envelope_rate(44100, 500), 45_351);
    assert_eq!(envelope_rate(0, 0), 1_000_000_000_000);
}

#[test]
fn delay_length_rounds_the_period() {
    assert_eq!(delay_length_for(44100, 220), 200);
    assert_eq!(delay_length_for(44100, 440), 100);
    assert_eq!(delay_length_for(44100, 0), 44100);
    assert_eq!(delay_length_for(1000, 3), 333);
    assert_eq!(delay_length_for(1000, 1999), 2);
    assert_eq!(delay_length_for(3000, 1999), 2);
    assert_eq!(delay_length_for(1000, 400), 3);
}

#[test]
fn resonator_averages_the_two_oldest_samples() {
    let mut r = Resonator::new(3);
    assert_eq!(r.step(1000, 1000), 1000);
    assert_eq!(r.step(-300, 1000), -300);
    assert_eq!(r.step(0, 1000), 500);
    assert_eq!(r.step(0, 1000), 350);
    assert_eq!(r.step(0, 500), 50);
    assert_eq!(r.step(7, 1000), 432);
    assert_eq!(r.step(0, 0), 0);
    assert_eq!(r.step(-1000, 1000), -759);
    assert_eq!(r.step(0, 999), 215);
    assert_eq!(r.step(0, 999), -379);
}

#[test]
fn resonator_clips_to_the_sample_range() {
    let mut r = Resonator::new(2);
    assert_eq!(r.step(SAMPLE_LIMIT, 1000), SAMPLE_LIMIT);
    assert_eq!(r.step(SAMPLE_LIMIT, 1000), SAMPLE_LIMIT);
    assert_eq!(r.step(SAMPLE_LIMIT, 1000), SAMPLE_LIMIT);
    assert_eq!(r.step(i32::MIN, 0), -SAMPLE_LIMIT);
}

#[test]
fn mixer_scales_by_level_and_envelope() {
    let mut t = VoiceTracker::new();
    t.note_on(60);
    t.note_on(62);
    t.advance_and_prune(ENV_ONE / 2, 0);
    let mut levels = [0u32; SOURCE_COUNT];
    levels[SourceKind::Perlin.slot()] = 500;
    levels[SourceKind::Worley.slot()] = 1000;
    let mut a = [0i32; SOURCE_COUNT];
    a[1] = SAMPLE_ONE;
    a[3] = -SAMPLE_ONE;
    a[0] = 12345;
    let mut b = [0i32; SOURCE_COUNT];
    b[1] = -10001;
    b[3] = 3;
    let fields = vec![a, b];
    // 65536*0.5*0.5 - 65536*0.5 + trunc(-10001*0.25) + trunc(3*0.5)
    assert_eq!(mix_excitation(t.voices(), &fields, &levels), 16384 - 32768 - 2500 + 1);
}

#[test]
fn mixer_skips_quiet_voices_and_clips() {
    let mut t = VoiceTracker::new();
    t.note_on(60);
    t.advance_and_prune(50_000, 0);
    let levels = [4_000_000_000u32; SOURCE_COUNT];
    let fields = vec![[SAMPLE_LIMIT; SOURCE_COUNT]];
    assert_eq!(mix_excitation(t.voices(), &fields, &levels), 0);
    t.advance_and_prune(ENV_ONE, 0);
    assert_eq!(mix_excitation(t.voices(), &fields, &levels), SAMPLE_LIMIT);
    let empty: Vec<Voice> = Vec::new();
    assert_eq!(mix_excitation(&empty, &Vec::new(), &levels), 0);
}

#[test]
fn source_slots_follow_the_parameter_table() {
    assert_eq!(SourceKind::WhiteNoise.slot(), 0);
    assert_eq!(SourceKind::Cylinders.slot(), 7);
    assert_eq!(SourceKind::BasicMulti.slot(), 9);
    let p = KarplusParameters::default();
    assert_eq!(p.get_parameter_name(SourceKind::RidgedMulti.slot() as i32), "RidgedMulti");
}
