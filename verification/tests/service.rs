use audyo::playback::service::{AudioEvent, AudioService, Position, SinkCommand};
use audyo::controls::LoopMode;

fn service(tracks: &[&str], index: usize, current: Option<&str>, mode: LoopMode) -> AudioService {
    let mut s = AudioService::new();
    s.playlist = tracks.iter().map(|t| t.to_string()).collect();
    s.current_playlist_index = index;
    s.current_audio = current.map(|c| c.to_string());
    s.loop_mode = mode;
    s
}

#[test]
fn new_service_is_paused_and_empty() {
    let s = AudioService::new();
    assert_eq!(s.audio_event, AudioEvent::Pause);
    assert_eq!(s.length, 1);
    assert_eq!(s.current_audio, None);
    assert_eq!(s.current_playlist_index, 0);
    assert!(s.playlist.is_empty());
    assert_eq!(s.loop_mode, LoopMode::Single);
}

#[test]
fn single_mode_keeps_an_empty_playlist() {
    let mut s = AudioService::new();
    assert_eq!(s.single_mode(0), SinkCommand::Keep);
    assert_eq!(s.current_audio, None);
}

#[test]
fn single_mode_queues_the_first_track() {
    let mut s = service(&["a", "b"], 1, None, LoopMode::Single);
    assert_eq!(s.single_mode(0), SinkCommand::Append("b".to_string()));
    assert_eq!(s.current_audio, Some("b".to_string()));
    assert_eq!(s.audio_event, AudioEvent::Pause);
}

#[test]
fn single_mode_repeats_the_track_when_the_queue_is_empty() {
    let mut s = service(&["a", "b"], 0, Some("a"), LoopMode::Single);
    assert_eq!(s.single_mode(1), SinkCommand::Keep);
    assert_eq!(s.single_mode(0), SinkCommand::Append("a".to_string()));
    assert_eq!(s.current_audio, Some("a".to_string()));
}

#[test]
fn single_mode_restarts_on_another_selection() {
    let mut s = service(&["a", "b"], 1, Some("a"), LoopMode::Single);
    assert_eq!(s.single_mode(1), SinkCommand::Restart("b".to_string()));
    assert_eq!(s.current_audio, Some("b".to_string()));
    assert_eq!(s.audio_event, AudioEvent::Play);
}

#[test]
fn playlist_mode_moves_on_when_the_queue_is_empty() {
    let mut s = service(&["a", "b", "c"], 1, Some("b"), LoopMode::Playlist);
    assert_eq!(s.playlist_mode(0), (SinkCommand::Append("c".to_string()), Some(2)));
    assert_eq!(s.current_audio, Some("c".to_string()));
    assert_eq!(s.playlist_mode(0), (SinkCommand::Append("a".to_string()), Some(0)));
    assert_eq!(s.current_playlist_index, 0);
    assert_eq!(s.playlist_mode(1), (SinkCommand::Keep, None));
}

#[test]
fn playlist_mode_restarts_on_another_selection() {
    let mut s = service(&["a", "b", "c"], 2, Some("a"), LoopMode::Playlist);
    assert_eq!(s.playlist_mode(3), (SinkCommand::Restart("c".to_string()), None));
    assert_eq!(s.audio_event, AudioEvent::Play);
    let mut s = service(&["a", "b", "c"], 2, None, LoopMode::Playlist);
    assert_eq!(s.playlist_mode(3), (SinkCommand::Keep, None));
    assert_eq!(s.playlist_mode_with(0, 0), (SinkCommand::Append("a".to_string()), Some(0)));
    let mut s = AudioService::new();
    assert_eq!(s.playlist_mode(0), (SinkCommand::Keep, None));
}

#[test]
fn shuffle_picks_another_track() {
    for draw in 0..3 {
        let mut s = service(&["a", "b", "c", "d"], 1, Some("b"), LoopMode::Shuffle);
        let expected = [0usize, 2, 3][draw];
        let (command, moved) = s.playlist_mode_with(0, draw);
        assert_eq!(moved, Some(expected));
        assert_eq!(command, SinkCommand::Append(["a", "b", "c", "d"][expected].to_string()));
    }
    let mut seen = [false; 4];
    for _ in 0..500 {
        let mut s = service(&["a", "b", "c", "d"], 1, Some("b"), LoopMode::Shuffle);
        s.change_track_index();
        assert!(s.current_playlist_index < 4);
        assert_ne!(s.current_playlist_index, 1);
        seen[s.current_playlist_index] = true;
    }
    assert_eq!(seen, [true, false, true, true]);
    let mut lonely = service(&["a"], 0, Some("a"), LoopMode::Shuffle);
    assert_eq!(lonely.playlist_mode(0), (SinkCommand::Append("a".to_string()), Some(0)));
}

#[test]
fn change_track_index_follows_the_mode() {
    let mut s = service(&["a", "b"], 1, None, LoopMode::Single);
    s.change_track_index();
    assert_eq!(s.current_playlist_index, 1);
    let mut s = service(&["a", "b"], 0, None, LoopMode::Playlist);
    s.change_track_index();
    assert_eq!(s.current_playlist_index, 1);
    s.change_track_index();
    assert_eq!(s.current_playlist_index, 0);
    let mut s = service(&["a", "b"], 0, None, LoopMode::Shuffle);
    s.change_track_index_with(0);
    assert_eq!(s.current_playlist_index, 1);
    s.change_track_index_with(0);
    assert_eq!(s.current_playlist_index, 0);
}

#[test]
fn seeks_move_by_five_seconds() {
    let mut s = AudioService::new();
    s.length = 100;
    assert_eq!(s.seek_forward(Position { secs: 10, nanos: 7 }), Position { secs: 15, nanos: 7 });
    assert_eq!(s.seek_forward(Position { secs: 94, nanos: 7 }), Position { secs: 99, nanos: 7 });
    assert_eq!(s.seek_forward(Position { secs: 95, nanos: 7 }), Position { secs: 100, nanos: 0 });
    assert_eq!(s.seek_forward(Position { secs: 400, nanos: 1 }), Position { secs: 100, nanos: 0 });
    s.length = 5;
    assert_eq!(s.seek_forward(Position { secs: 4, nanos: 1 }), Position { secs: 9, nanos: 1 });
    s.length = 0;
    assert_eq!(s.seek_forward(Position { secs: 0, nanos: 0 }), Position { secs: 5, nanos: 0 });
    assert_eq!(s.seek_backward(Position { secs: 4, nanos: 9 }), Position { secs: 0, nanos: 0 });
    assert_eq!(s.seek_backward(Position { secs: 5, nanos: 9 }), Position { secs: 0, nanos: 9 });
    assert_eq!(s.seek_backward(Position { secs: 60, nanos: 9 }), Position { secs: 55, nanos: 9 });
}

#[test]
fn shown_position_wraps_at_the_length() {
    let mut s = AudioService::new();
    assert_eq!(s.get_current_position(17), 0);
    s.length = 10;
    assert_eq!(s.get_current_position(9), 9);
    assert_eq!(s.get_current_position(10), 0);
    assert_eq!(s.get_current_position(25), 5);
}
