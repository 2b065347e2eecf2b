use stagectl::audio::{AudioController, CueAction, UNIT_GAIN};

#[test]
fn new_controller_is_empty_at_unit_gain() {
    let a = AudioController::new();
    assert_eq!(a.volume(), UNIT_GAIN);
    assert_eq!(a.cue_count(), 0);
}

#[test]
fn started_cue_plays_at_product_gain() {
    let mut a = AudioController::new();
    let id = a.play_sound("intro.wav", 800).unwrap();
    assert_eq!(a.poll(id), CueAction::SetVolume(800_000));
}

#[test]
fn start_then_stop_halts_cue() {
    let mut a = AudioController::new();
    let id = a.play_sound("thunder.wav", 1000).unwrap();
    a.stop_sound("thunder.wav");
    assert_eq!(a.poll(id), CueAction::Stop);
}

#[test]
fn stop_halts_every_cue_of_that_name_only() {
    let mut a = AudioController::new();
    let x = a.play_sound("rain.wav", 1000).unwrap();
    let y = a.play_sound("rain.wav", 500).unwrap();
    let z = a.play_sound("wind.wav", 1000).unwrap();
    assert_ne!(x, y);
    a.stop_sound("rain.wav");
    assert_eq!(a.poll(x), CueAction::Stop);
    assert_eq!(a.poll(y), CueAction::Stop);
    assert_eq!(a.poll(z), CueAction::SetVolume(1_000_000));
}

#[test]
fn stop_all_halts_three_cues() {
    let mut a = AudioController::new();
    let ids: Vec<u64> = ["a.wav", "b.wav", "c.wav", "d.wav"]
        .iter()
        .map(|n| a.play_sound(n, 700).unwrap())
        .collect();
    a.stop_all_sounds();
    for id in ids {
        assert_eq!(a.poll(id), CueAction::Stop);
    }
}

#[test]
fn master_volume_scales_each_cue() {
    let mut a = AudioController::new();
    let full = a.play_sound("one.wav", 1000).unwrap();
    let quiet = a.play_sound("two.wav", 400).unwrap();
    a.set_volume(500);
    assert_eq!(a.poll(full), CueAction::SetVolume(500_000));
    assert_eq!(a.poll(quiet), CueAction::SetVolume(200_000));
}

#[test]
fn stop_twice_and_stop_all_on_empty_are_noops() {
    let mut a = AudioController::new();
    a.stop_all_sounds();
    assert_eq!(a.cue_count(), 0);
    let id = a.play_sound("x.wav", 1000).unwrap();
    a.stop_sound("x.wav");
    a.stop_sound("x.wav");
    assert_eq!(a.cue_count(), 1);
    assert_eq!(a.poll(id), CueAction::Stop);
    a.stop_sound("missing.wav");
    assert_eq!(a.cue_count(), 1);
}

#[test]
fn last_volume_write_stands() {
    let mut a = AudioController::new();
    let id = a.play_sound("bed.wav", 1000).unwrap();
    for level in [100u32, 900, 250, 750] {
        a.set_volume(level);
    }
    assert_eq!(a.volume(), 750);
    assert_eq!(a.poll(id), CueAction::SetVolume(750_000));
}

#[test]
fn interleaved_volume_writes_end_at_last() {
    let mut a = AudioController::new();
    let mut ids = Vec::new();
    for n in 0..8 {
        ids.push(a.play_sound(&format!("cue{}.wav", n), 1000).unwrap());
    }
    for k in 0..100u32 {
        for caller in 0..4u32 {
            a.set_volume(caller * 1000 + k);
            assert_eq!(a.poll(ids[(k % 8) as usize]), CueAction::SetVolume(((caller * 1000 + k) as u64) * 1000));
        }
    }
    a.set_volume(600);
    assert_eq!(a.volume(), 600);
    for id in ids {
        assert_eq!(a.poll(id), CueAction::SetVolume(600_000));
    }
}

#[test]
fn retired_cue_leaves_registry() {
    let mut a = AudioController::new();
    let x = a.play_sound("x.wav", 1000).unwrap();
    let y = a.play_sound("y.wav", 300).unwrap();
    a.stop_sound("x.wav");
    a.retire(x);
    assert_eq!(a.cue_count(), 1);
    assert_eq!(a.poll(x), CueAction::Stop);
    assert_eq!(a.poll(y), CueAction::SetVolume(300_000));
    a.retire(x);
    assert_eq!(a.cue_count(), 1);
}

#[test]
fn unknown_handle_stops() {
    let a = AudioController::new();
    assert_eq!(a.poll(12), CueAction::Stop);
}
