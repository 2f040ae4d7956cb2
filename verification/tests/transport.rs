use tunedeck::key::Key;
use tunedeck::player::{duration_ms_from_probe, MusicPlayer, SinkCommand};

fn fresh(total_ms: Option<u64>, now_ms: u64) -> MusicPlayer {
    MusicPlayer::new(String::from("/music/song1.mp3"), total_ms, now_ms)
}

#[test]
fn activation_starts_playing_at_zero() {
    let p = fresh(Some(200_000), 5_000);
    assert!(!p.is_paused);
    assert!(p.sink_active);
    assert_eq!(p.elapsed_before_pause_ms, 0);
    assert_eq!(p.start_time_ms, Some(5_000));
    assert_eq!(p.pause_start_ms, None);
    assert!(!p.repeat);
    assert_eq!(p.current_elapsed_ms(5_000), 0);
}

#[test]
fn pause_commits_only_running_time() {
    // total 200 s; pause at 50 s; wait 30 s paused; resume; wait 10 s.
    let mut p = fresh(Some(200_000), 0);
    let cmd = p.toggle_pause(50_000);
    assert_eq!(cmd, Some(SinkCommand::Pause));
    assert_eq!(p.elapsed_before_pause_ms, 50_000);
    assert!(p.is_paused);

    // Still paused 30 s later: nothing accumulates.
    assert_eq!(p.current_elapsed_ms(80_000), 50_000);

    let cmd = p.toggle_pause(80_000);
    assert_eq!(cmd, Some(SinkCommand::Resume));
    assert_eq!(p.elapsed_before_pause_ms, 50_000);
    assert!(!p.is_paused);

    // 10 s after the resume the reported elapsed is 60 s, not 90 s.
    assert_eq!(p.current_elapsed_ms(90_000), 60_000);
    assert_eq!(p.progress_permille(90_000), 300);
}

#[test]
fn double_toggle_changes_committed_elapsed_by_running_interval_only() {
    let mut p = fresh(Some(100_000), 10_000);
    p.toggle_pause(17_000); // ran 7 s
    p.toggle_pause(42_000); // paused 25 s
    assert_eq!(p.elapsed_before_pause_ms, 7_000);
}

#[test]
fn progress_is_constant_while_paused_and_grows_while_playing() {
    let mut p = fresh(Some(100_000), 0);
    assert!(p.progress_permille(10_000) <= p.progress_permille(20_000));
    p.toggle_pause(30_000);
    assert_eq!(p.progress_permille(31_000), p.progress_permille(90_000));
}

#[test]
fn progress_unknown_duration_is_zero() {
    let p = fresh(None, 0);
    assert_eq!(p.progress_permille(123_456), 0);
}

#[test]
fn progress_clamps_at_full() {
    let p = fresh(Some(1_000), 0);
    assert_eq!(p.current_elapsed_ms(5_000), 1_000);
    assert_eq!(p.progress_permille(5_000), 1000);
}

#[test]
fn reload_resets_accounting_even_mid_pause() {
    let mut p = fresh(Some(200_000), 0);
    p.toggle_pause(50_000);
    assert!(p.is_paused);
    let cmd = p.reload(60_000);
    assert_eq!(cmd, SinkCommand::Restart);
    assert!(!p.is_paused);
    assert!(p.sink_active);
    assert_eq!(p.elapsed_before_pause_ms, 0);
    assert_eq!(p.pause_start_ms, None);
    assert_eq!(p.start_time_ms, Some(60_000));
    assert_eq!(p.current_elapsed_ms(61_000), 1_000);
}

#[test]
fn update_restarts_in_repeat_mode_at_the_end() {
    let mut p = fresh(Some(10_000), 0);
    p.repeat = true;
    let cmd = p.update(9_999);
    assert_eq!(cmd, None);
    let cmd = p.update(10_000);
    assert_eq!(cmd, Some(SinkCommand::Restart));
    assert_eq!(p.elapsed_before_pause_ms, 0);
    assert_eq!(p.start_time_ms, Some(10_000));
}

#[test]
fn update_spins_only_while_playing() {
    let mut p = fresh(Some(100_000), 0);
    let before = p.vinyl_angle_milli;
    p.update(1_000);
    assert_eq!(p.vinyl_angle_milli, before + p.vinyl_speed_milli);
    p.toggle_pause(2_000);
    let frozen = p.vinyl_angle_milli;
    p.update(3_000);
    assert_eq!(p.vinyl_angle_milli, frozen);
}

#[test]
fn cleanup_is_idempotent() {
    let mut p = fresh(Some(100_000), 0);
    let cmd = p.cleanup();
    assert_eq!(cmd, Some(SinkCommand::Stop));
    assert!(!p.sink_active);
    assert_eq!(p.total_duration_ms, None);
    assert_eq!(p.start_time_ms, None);
    let again = p.cleanup();
    assert_eq!(again, None);
    assert!(!p.sink_active);
    // A stopped transport ignores the pause toggle.
    assert_eq!(p.toggle_pause(1_000), None);
}

#[test]
fn key_strokes_drive_the_transport() {
    let mut p = fresh(Some(100_000), 0);
    assert_eq!(p.handle_key(Key::Char(' '), 4_000), Some(SinkCommand::Pause));
    assert_eq!(p.elapsed_before_pause_ms, 4_000);
    assert_eq!(p.handle_key(Key::Char(' '), 6_000), Some(SinkCommand::Resume));
    assert_eq!(p.handle_key(Key::Char('r'), 7_000), Some(SinkCommand::Restart));
    assert_eq!(p.elapsed_before_pause_ms, 0);
    assert_eq!(p.handle_key(Key::Char('t'), 7_000), None);
    assert!(p.repeat);
    assert_eq!(p.handle_key(Key::Char('n'), 7_000), None);
    assert!(p.next_track);
    assert_eq!(p.vinyl_speed_milli, 100);
    p.handle_key(Key::Char('+'), 7_000);
    assert_eq!(p.vinyl_speed_milli, 150);
    p.handle_key(Key::Char('-'), 7_000);
    p.handle_key(Key::Char('-'), 7_000);
    // The speed never drops below one step: 50 stays 50.
    assert_eq!(p.vinyl_speed_milli, 50);
    p.handle_key(Key::Char('-'), 7_000);
    assert_eq!(p.vinyl_speed_milli, 50);
    let x = p.image_offset_x;
    p.handle_key(Key::Char('l'), 7_000);
    assert_eq!(p.image_offset_x, x + 1);
    p.handle_key(Key::Char('h'), 7_000);
    assert_eq!(p.image_offset_x, x);
    assert_eq!(p.handle_key(Key::Other, 7_000), None);
}

#[test]
fn display_name_is_the_file_stem() {
    let p = MusicPlayer::new(String::from("/home/u/Music/song.one.mp3"), None, 0);
    assert_eq!(p.get_name(), "song.one");
    let p = MusicPlayer::new(String::from(""), None, 0);
    assert_eq!(p.get_name(), "not found");
}

#[test]
fn probe_duration_exact_values() {
    // 441 000 frames at 44 100 Hz last exactly 10 s.
    assert_eq!(duration_ms_from_probe(Some(441_000), Some(44_100)), Some(10_000));
    // 44 101 frames at 44 100 Hz round down to a whole millisecond count.
    assert_eq!(duration_ms_from_probe(Some(44_101), Some(44_100)), Some(1_000));
    assert_eq!(duration_ms_from_probe(None, Some(44_100)), None);
    assert_eq!(duration_ms_from_probe(Some(441_000), None), None);
    assert_eq!(duration_ms_from_probe(Some(441_000), Some(0)), None);
    assert_eq!(duration_ms_from_probe(Some(u64::MAX), Some(1)), None);
}
