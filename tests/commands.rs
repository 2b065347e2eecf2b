use stagectl::command::{parse_command, Command};

fn args(v: &[&str]) -> Vec<String> {
    v.iter().map(|s| s.to_string()).collect()
}

#[test]
fn set_dmx_value_is_read() {
    match parse_command("set_dmx_value", &args(&["1", "+20", "255"])) {
        Command::SetDmxValue { universe, channel, value } => {
            assert_eq!((universe, channel, value), (1, 20, 255));
        }
        _ => panic!("expected a channel write"),
    }
}

#[test]
fn set_dmx_value_bad_numbers_are_malformed() {
    assert!(matches!(parse_command("set_dmx_value", &args(&["1", "2", "256"])), Command::Malformed));
    assert!(matches!(parse_command("set_dmx_value", &args(&["x", "2", "3"])), Command::Malformed));
    assert!(matches!(parse_command("set_dmx_value", &args(&["-1", "2", "3"])), Command::Malformed));
    assert!(matches!(parse_command("set_dmx_value", &args(&["", "2", "3"])), Command::Malformed));
}

#[test]
fn wrong_arity_is_ignored() {
    assert!(matches!(parse_command("set_dmx_value", &args(&["1", "2"])), Command::Ignored));
    assert!(matches!(parse_command("play_sound", &args(&["a.wav"])), Command::Ignored));
    assert!(matches!(parse_command("stop_sound", &args(&[])), Command::Ignored));
    assert!(matches!(parse_command("set_volume", &args(&["1", "2"])), Command::Ignored));
}

#[test]
fn sound_verbs_keep_their_text() {
    match parse_command("play_sound", &args(&["a.wav", "0.4"])) {
        Command::PlaySound { file_name, volume } => {
            assert_eq!(file_name, "a.wav");
            assert_eq!(volume, "0.4");
        }
        _ => panic!("expected a cue start"),
    }
    match parse_command("stop_sound", &args(&["a.wav"])) {
        Command::StopSound { file_name } => assert_eq!(file_name, "a.wav"),
        _ => panic!("expected a cue stop"),
    }
    match parse_command("set_volume", &args(&["0.5"])) {
        Command::SetVolume { level } => assert_eq!(level, "0.5"),
        _ => panic!("expected a volume change"),
    }
    assert!(matches!(parse_command("stop_all_sounds", &args(&["extra"])), Command::StopAllSounds));
}

#[test]
fn unknown_verb() {
    assert!(matches!(parse_command("fade", &args(&[])), Command::Unknown));
    assert!(matches!(parse_command("", &args(&[])), Command::Unknown));
}
