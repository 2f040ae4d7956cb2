use tunedeck::app::{App, AppError, Effect, InputMode};
use tunedeck::browser::{MusicItem, OverlayCommand};
use tunedeck::event::EventHandler;
use tunedeck::key::Key;
use tunedeck::player::SinkCommand;
use tunedeck::todo::TodoManager;

const VISIBLE: usize = 2;

fn press(app: &mut App, key: Key) -> (bool, Vec<Effect>) {
    EventHandler::handle_key_event(app, key, VISIBLE, 0)
}

fn file(name: &str, path: &str, video: Option<&str>) -> MusicItem {
    MusicItem {
        name: String::from(name),
        is_dir: false,
        video_path: video.map(String::from),
        music_path: Some(String::from(path)),
    }
}

fn dir(name: &str) -> MusicItem {
    MusicItem { name: String::from(name), is_dir: true, video_path: None, music_path: None }
}

fn demo_catalog() -> Vec<MusicItem> {
    vec![
        file("song1.mp3", "/music/song1.mp3", Some("/videos/clip1.mp4")),
        dir("Folder"),
        file("song2.mp3", "/music/song2.mp3", None),
    ]
}

#[test]
fn quit_key_quits_in_every_mode() {
    let mut app = App::new(String::from("/music"));
    let (quit, effects) = press(&mut app, Key::Char('q'));
    assert!(quit);
    assert!(effects.is_empty());
    app.set_input_mode(InputMode::Editing);
    assert!(press(&mut app, Key::Char('q')).0);
}

#[test]
fn editing_collects_the_input_and_enter_commits_it() {
    let mut app = App::new(String::from("/music"));
    assert!(!press(&mut app, Key::Char('i')).0);
    assert_eq!(app.get_input_mode(), InputMode::Editing);
    press(&mut app, Key::Char('c'));
    press(&mut app, Key::Char('a'));
    press(&mut app, Key::Char('r'));
    press(&mut app, Key::Char('t'));
    press(&mut app, Key::Backspace);
    assert_eq!(app.get_input(), "car");
    press(&mut app, Key::Enter);
    assert_eq!(app.get_input_mode(), InputMode::Normal);
    assert_eq!(app.get_input(), "");
    assert_eq!(app.get_todos().len(), 1);
    assert_eq!(app.get_todos()[0].title, "car");
    assert_eq!(app.get_todos()[0].id, 1);
}

#[test]
fn enter_on_an_empty_input_adds_nothing() {
    let mut app = App::new(String::from("/music"));
    press(&mut app, Key::Char('i'));
    press(&mut app, Key::Enter);
    assert!(app.get_todos().is_empty());
    assert_eq!(app.get_input_mode(), InputMode::Editing);
}

#[test]
fn toggle_key_flips_the_first_todo() {
    let mut app = App::new(String::from("/music"));
    app.add_todo(String::from("a"));
    app.add_todo(String::from("b"));
    press(&mut app, Key::Char('t'));
    assert!(app.get_todos()[0].completed);
    assert!(!app.get_todos()[1].completed);
}

#[test]
fn browser_key_asks_for_the_root_listing_and_mode_waits_for_it() {
    let mut app = App::new(String::from("/music"));
    let (_, effects) = press(&mut app, Key::Char('b'));
    assert_eq!(effects.len(), 1);
    assert!(matches!(&effects[0], Effect::OpenBrowser(p) if p == "/music"));
    // The mode changes only once the listing is installed.
    assert_eq!(app.get_input_mode(), InputMode::Normal);
    app.install_browser(String::from("/music"), demo_catalog());
    assert_eq!(app.get_input_mode(), InputMode::Browser);
    let b = app.music_browser.as_ref().unwrap();
    assert_eq!((b.selected_index, b.scroll_offset), (0, 0));
}

#[test]
fn arrow_keys_move_the_browser_selection() {
    let mut app = App::new(String::from("/music"));
    app.install_browser(String::from("/music"), demo_catalog());
    press(&mut app, Key::Down);
    press(&mut app, Key::Down);
    let b = app.music_browser.as_ref().unwrap();
    assert_eq!((b.selected_index, b.scroll_offset), (2, 1));
    press(&mut app, Key::Up);
    let b = app.music_browser.as_ref().unwrap();
    assert_eq!((b.selected_index, b.scroll_offset), (1, 1));
}

#[test]
fn activating_a_directory_asks_for_its_listing_and_applying_resets() {
    let mut app = App::new(String::from("/music"));
    app.install_browser(String::from("/music"), demo_catalog());
    press(&mut app, Key::Down); // select "Folder"
    let (_, effects) = press(&mut app, Key::Enter);
    assert_eq!(effects.len(), 1);
    assert!(matches!(&effects[0], Effect::EnterDirectory(p) if p == "/music/Folder"));
    // The selector is untouched until the listing arrives...
    let b = app.music_browser.as_ref().unwrap();
    assert_eq!(b.selected_index, 1);
    // ...and resets once it does, whatever it was.
    let inner = vec![file("x.mp3", "/music/Folder/x.mp3", None)];
    app.music_browser.as_mut().unwrap().apply_directory(String::from("/music/Folder"), inner);
    let b = app.music_browser.as_ref().unwrap();
    assert_eq!((b.selected_index, b.scroll_offset), (0, 0));
    assert_eq!(b.current_path, "/music/Folder");
}

#[test]
fn activating_a_file_replaces_overlay_and_opens_the_media() {
    let mut app = App::new(String::from("/music"));
    app.install_browser(String::from("/music"), demo_catalog());
    app.music_browser.as_mut().unwrap().register_overlay(41);
    let (_, effects) = press(&mut app, Key::Enter);
    assert_eq!(effects.len(), 3);
    assert!(matches!(effects[0], Effect::Overlay(OverlayCommand::Kill(41))));
    assert!(matches!(&effects[1], Effect::Overlay(OverlayCommand::Spawn(p)) if p == "/videos/clip1.mp4"));
    assert!(matches!(&effects[2], Effect::OpenMedia(p) if p == "/music/song1.mp3"));
    assert_eq!(app.music_browser.as_ref().unwrap().current_overlay(), None);

    // The probe reports back and the transport replaces the old one.
    let stop = app.attach_player(String::from("/music/song1.mp3"), Some(200_000), 1_000);
    assert_eq!(stop, None);
    assert!(app.music_player.is_some());
    let stop = app.attach_player(String::from("/music/song1.mp3"), Some(200_000), 2_000);
    assert_eq!(stop, Some(SinkCommand::Stop));
}

#[test]
fn activating_a_plain_file_asks_only_for_the_media() {
    let mut app = App::new(String::from("/music"));
    app.install_browser(String::from("/music"), demo_catalog());
    press(&mut app, Key::Down);
    press(&mut app, Key::Down); // select "song2.mp3", which has no video
    let (_, effects) = press(&mut app, Key::Enter);
    assert_eq!(effects.len(), 1);
    assert!(matches!(&effects[0], Effect::OpenMedia(p) if p == "/music/song2.mp3"));
}

#[test]
fn player_focus_routes_keys_to_the_transport() {
    let mut app = App::new(String::from("/music"));
    app.install_browser(String::from("/music"), demo_catalog());
    app.attach_player(String::from("/music/song1.mp3"), Some(200_000), 0);
    press(&mut app, Key::Char('v'));
    assert_eq!(app.get_input_mode(), InputMode::Player);
    let (_, effects) = press(&mut app, Key::Char(' '));
    assert_eq!(effects.len(), 1);
    assert!(matches!(effects[0], Effect::Sink(SinkCommand::Pause)));
    assert!(app.music_player.as_ref().unwrap().is_paused);
    let (_, effects) = press(&mut app, Key::Char(' '));
    assert!(matches!(effects[0], Effect::Sink(SinkCommand::Resume)));
}

#[test]
fn exit_key_kills_overlay_stops_sink_and_returns_to_normal() {
    let mut app = App::new(String::from("/music"));
    app.install_browser(String::from("/music"), demo_catalog());
    app.music_browser.as_mut().unwrap().register_overlay(5);
    app.attach_player(String::from("/music/song1.mp3"), Some(200_000), 0);
    let (_, effects) = press(&mut app, Key::Char('e'));
    assert_eq!(effects.len(), 2);
    assert!(matches!(effects[0], Effect::Overlay(OverlayCommand::Kill(5))));
    assert!(matches!(effects[1], Effect::Sink(SinkCommand::Stop)));
    assert_eq!(app.get_input_mode(), InputMode::Normal);
    assert!(app.music_browser.is_none());
    assert!(app.music_player.is_none());
}

#[test]
fn exit_key_with_nothing_live_asks_nothing() {
    let mut app = App::new(String::from("/music"));
    app.install_browser(String::from("/music"), Vec::new());
    let (_, effects) = press(&mut app, Key::Char('e'));
    assert!(effects.is_empty());
    assert_eq!(app.get_input_mode(), InputMode::Normal);
}

#[test]
fn selecting_media_without_a_browser_is_an_error() {
    let app = App::new(String::from("/music"));
    assert!(matches!(
        app.initialize_music_player_from_browser(),
        Err(AppError::BrowserMissing)
    ));
    let mut app = App::new(String::from("/music"));
    app.install_browser(String::from("/music"), vec![dir("Folder")]);
    assert!(matches!(
        app.initialize_music_player_from_browser(),
        Err(AppError::NoSongSelected)
    ));
}

#[test]
fn unhandled_keys_change_nothing() {
    let mut app = App::new(String::from("/music"));
    let (quit, effects) = press(&mut app, Key::Other);
    assert!(!quit);
    assert!(effects.is_empty());
    assert_eq!(app.get_input_mode(), InputMode::Normal);
    // A browser key stroke outside browser mode does nothing either.
    let (_, effects) = press(&mut app, Key::Up);
    assert!(effects.is_empty());
}
