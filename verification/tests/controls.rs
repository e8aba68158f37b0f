use audyo::playback::service::{format_duration, AudioEvent};
use audyo::controls::{LoopMode, MuteSound, SignalMessage, Volume};
use audyo::text_input::TextInput;

#[test]
fn loop_mode_goes_round_in_three_steps() {
    assert_eq!(LoopMode::Single.next(), LoopMode::Playlist);
    assert_eq!(LoopMode::Playlist.next(), LoopMode::Shuffle);
    assert_eq!(LoopMode::Shuffle.next(), LoopMode::Single);
    for mode in [LoopMode::Single, LoopMode::Playlist, LoopMode::Shuffle] {
        assert_eq!(mode.next().next().next(), mode);
    }
}

#[test]
fn labels_are_the_button_symbols() {
    assert_eq!(LoopMode::Single.text(), "🔂");
    assert_eq!(LoopMode::Playlist.text(), "🔁");
    assert_eq!(LoopMode::Shuffle.text(), "🔀");
    assert_eq!(Volume::Down.text(), "⬇️");
    assert_eq!(Volume::Up.text(), "⬆️");
    assert_eq!(Volume::Normal.text(), "🔉");
    assert_eq!(MuteSound::On.text(), "🔇");
    assert_eq!(MuteSound::Off.text(), "🔉");
}

#[test]
fn volume_and_mute_move_to_the_named_state() {
    for volume in [Volume::Up, Volume::Down, Volume::Normal] {
        assert_eq!(volume.up(), Volume::Up);
        assert_eq!(volume.down(), Volume::Down);
        assert_eq!(volume.normal(), Volume::Normal);
    }
    assert!(Volume::Up != Volume::Down);
    assert!(Volume::Normal == Volume::Normal);
    for mute in [MuteSound::On, MuteSound::Off] {
        assert_eq!(mute.on(), MuteSound::On);
        assert_eq!(mute.off(), MuteSound::Off);
    }
    assert!(MuteSound::On != MuteSound::Off);
}

#[test]
fn messages_and_events_compare_by_value() {
    assert_eq!(SignalMessage::UpdateIndex(3), SignalMessage::UpdateIndex(3));
    assert_ne!(SignalMessage::UpdateIndex(3), SignalMessage::Downloaded);
    assert_eq!(AudioEvent::default(), AudioEvent::Pause);
    assert_ne!(AudioEvent::Play, AudioEvent::Pause);
}

#[test]
fn durations_are_shown_as_minutes_and_seconds() {
    assert_eq!(format_duration(0), "00:00");
    assert_eq!(format_duration(9), "00:09");
    assert_eq!(format_duration(60), "01:00");
    assert_eq!(format_duration(212), "03:32");
    assert_eq!(format_duration(3599), "59:59");
    assert_eq!(format_duration(6000), "100:00");
    assert_eq!(format_duration(u64::MAX), format!("{:02}:{:02}", u64::MAX / 60, u64::MAX % 60));
}

#[test]
fn text_input_edits_at_the_cursor() {
    let mut input = TextInput::new();
    assert_eq!((input.value(), input.cursor()), ("", 0));
    input.insert('a');
    input.insert('c');
    assert_eq!((input.value(), input.cursor()), ("ac", 2));
    input.move_left();
    input.insert('b');
    assert_eq!((input.value(), input.cursor()), ("abc", 2));
    input.insert_str("XY");
    assert_eq!((input.value(), input.cursor()), ("abXYc", 4));
    input.delete_back();
    assert_eq!((input.value(), input.cursor()), ("abXc", 3));
    input.delete_forward();
    assert_eq!((input.value(), input.cursor()), ("abX", 3));
    input.delete_forward();
    assert_eq!((input.value(), input.cursor()), ("abX", 3));
    input.move_right();
    assert_eq!(input.cursor(), 3);
    input.move_start();
    assert_eq!(input.cursor(), 0);
    input.move_left();
    assert_eq!(input.cursor(), 0);
    input.delete_back();
    assert_eq!((input.value(), input.cursor()), ("abX", 0));
    input.delete_forward();
    assert_eq!((input.value(), input.cursor()), ("bX", 0));
    input.move_right();
    assert_eq!(input.cursor(), 1);
    input.move_end();
    assert_eq!(input.cursor(), 2);
    input.push_str("-tail");
    assert_eq!((input.value(), input.cursor()), ("bX-tail", 2));
    input.clear();
    assert_eq!((input.value(), input.cursor()), ("", 0));
}

#[test]
fn text_input_counts_the_cursor_in_bytes() {
    let mut input = TextInput::new();
    input.insert_str("é");
    assert_eq!((input.value(), input.cursor()), ("é", 2));
    assert!(input.on_boundary());
    input.move_left();
    assert_eq!(input.cursor(), 1);
    assert!(!input.on_boundary());
    input.move_left();
    assert!(input.on_boundary());
    input.delete_forward();
    assert_eq!((input.value(), input.cursor()), ("", 0));
    input.insert('音');
    assert_eq!((input.value(), input.cursor()), ("音", 1));
    assert!(!input.on_boundary());
}
