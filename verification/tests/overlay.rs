use tunedeck::browser::{kill_followup, MusicBrowser, MusicItem, OverlayCommand};

fn mapped_file(name: &str, video: &str) -> MusicItem {
    MusicItem {
        name: String::from(name),
        is_dir: false,
        video_path: Some(String::from(video)),
        music_path: Some(String::from("/music/x.mp3")),
    }
}

#[test]
fn playing_twice_replaces_the_overlay_process() {
    let items = vec![mapped_file("a.mp3", "/videos/a.mp4"), mapped_file("b.mp3", "/videos/b.mp4")];
    let mut b = MusicBrowser::new(String::from("/music"), items);

    // First activation: nothing to kill, one spawn.
    let cmds = b.play_selected();
    assert_eq!(cmds.len(), 1);
    assert!(matches!(&cmds[0], OverlayCommand::Spawn(p) if p == "/videos/a.mp4"));
    b.register_overlay(7);
    assert_eq!(b.current_overlay(), Some(7));

    // Second activation: the owned process dies before the new one starts.
    b.move_selection_down(2);
    let cmds = b.play_selected();
    assert_eq!(cmds.len(), 2);
    assert!(matches!(cmds[0], OverlayCommand::Kill(7)));
    assert!(matches!(&cmds[1], OverlayCommand::Spawn(p) if p == "/videos/b.mp4"));
    assert_eq!(b.current_overlay(), None);
    b.register_overlay(8);
    assert_eq!(b.current_overlay(), Some(8));
}

#[test]
fn activating_a_file_without_video_still_kills_the_old_overlay() {
    let items = vec![MusicItem {
        name: String::from("plain.mp3"),
        is_dir: false,
        video_path: None,
        music_path: Some(String::from("/music/plain.mp3")),
    }];
    let mut b = MusicBrowser::new(String::from("/music"), items);
    b.register_overlay(3);
    let cmds = b.play_selected();
    assert_eq!(cmds.len(), 1);
    assert!(matches!(cmds[0], OverlayCommand::Kill(3)));
    assert_eq!(b.current_overlay(), None);
}

#[test]
fn activating_a_directory_spawns_and_kills_nothing() {
    let items = vec![MusicItem {
        name: String::from("Folder"),
        is_dir: true,
        video_path: None,
        music_path: None,
    }];
    let mut b = MusicBrowser::new(String::from("/music"), items);
    b.register_overlay(3);
    let cmds = b.play_selected();
    assert!(cmds.is_empty());
    assert_eq!(b.current_overlay(), Some(3));
}

#[test]
fn failed_direct_kill_escalates_to_the_sweep() {
    assert!(matches!(kill_followup(false), Some(OverlayCommand::Sweep)));
    assert!(kill_followup(true).is_none());
}

#[test]
fn cleanup_releases_the_token_and_is_safe_without_one() {
    let mut b = MusicBrowser::new(String::from("/music"), Vec::new());
    assert_eq!(b.cleanup(), None);
    b.register_overlay(9);
    assert_eq!(b.cleanup(), Some(9));
    assert_eq!(b.current_overlay(), None);
    assert_eq!(b.cleanup(), None);
}
