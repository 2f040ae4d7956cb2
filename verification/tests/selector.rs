use tunedeck::browser::{build_items, BrowserError, MusicBrowser, MusicItem, RawEntry};

fn file(name: &str, path: &str) -> MusicItem {
    MusicItem {
        name: String::from(name),
        is_dir: false,
        video_path: None,
        music_path: Some(String::from(path)),
    }
}

fn dir(name: &str) -> MusicItem {
    MusicItem { name: String::from(name), is_dir: true, video_path: None, music_path: None }
}

fn demo_catalog() -> Vec<MusicItem> {
    vec![
        file("song1.mp3", "/music/song1.mp3"),
        dir("Folder"),
        file("song2.mp3", "/music/song2.mp3"),
    ]
}

#[test]
fn scroll_window_follows_selection() {
    // Catalog of three entries, two visible rows.
    let mut b = MusicBrowser::new(String::from("/music"), demo_catalog());
    assert_eq!((b.selected_index, b.scroll_offset), (0, 0));

    b.move_selection_down(2);
    assert_eq!((b.selected_index, b.scroll_offset), (1, 0));

    b.move_selection_down(2);
    assert_eq!((b.selected_index, b.scroll_offset), (2, 1));

    // The bottom is a wall.
    b.move_selection_down(2);
    assert_eq!((b.selected_index, b.scroll_offset), (2, 1));

    b.move_selection_up(2);
    assert_eq!((b.selected_index, b.scroll_offset), (1, 1));

    b.move_selection_up(2);
    assert_eq!((b.selected_index, b.scroll_offset), (0, 0));

    // The top is a wall too.
    b.move_selection_up(2);
    assert_eq!((b.selected_index, b.scroll_offset), (0, 0));
}

#[test]
fn selection_stays_in_bounds_for_any_walk() {
    let mut b = MusicBrowser::new(String::from("/music"), demo_catalog());
    let len = 3;
    let vc = 2;
    for step in 0..100u32 {
        if step % 3 == 0 {
            b.move_selection_down(vc);
        } else {
            b.move_selection_up(vc);
        }
        assert!(b.selected_index < len);
        assert!(b.scroll_offset <= b.selected_index);
        assert!(b.selected_index < b.scroll_offset + vc);
    }
}

#[test]
fn empty_catalog_is_a_no_op() {
    let mut b = MusicBrowser::new(String::from("/music"), Vec::new());
    b.move_selection_down(2);
    b.move_selection_up(2);
    assert_eq!((b.selected_index, b.scroll_offset), (0, 0));
    assert!(b.select_item().is_none());
    assert_eq!(b.get_selected_music_path(), None);
}

#[test]
fn zero_visible_rows_keeps_arithmetic_valid() {
    let mut b = MusicBrowser::new(String::from("/music"), demo_catalog());
    b.move_selection_down(0);
    assert_eq!(b.selected_index, 1);
    assert_eq!(b.visible_bounds(0), (b.scroll_offset, b.scroll_offset));
}

#[test]
fn visible_bounds_clamp_to_the_catalog() {
    let mut b = MusicBrowser::new(String::from("/music"), demo_catalog());
    assert_eq!(b.visible_bounds(2), (0, 2));
    assert_eq!(b.visible_bounds(10), (0, 3));
    b.move_selection_down(2);
    b.move_selection_down(2);
    assert_eq!(b.visible_bounds(2), (1, 3));
}

#[test]
fn select_item_reads_the_catalog() {
    let b = MusicBrowser::new(String::from("/music"), demo_catalog());
    let it = b.select_item().unwrap();
    assert_eq!(it.name, "song1.mp3");
    assert!(!it.is_dir);
    assert_eq!(b.get_selected_music_path(), Some(String::from("/music/song1.mp3")));
}

#[test]
fn enter_directory_joins_the_path() {
    let b = MusicBrowser::new(String::from("/music"), demo_catalog());
    assert_eq!(b.enter_directory("Folder"), Ok(String::from("/music/Folder")));
    let b2 = MusicBrowser::new(String::from("/music/"), demo_catalog());
    assert_eq!(b2.enter_directory("Folder"), Ok(String::from("/music/Folder")));
}

#[test]
fn enter_directory_rejects_files_and_strangers() {
    let b = MusicBrowser::new(String::from("/music"), demo_catalog());
    assert_eq!(b.enter_directory("song1.mp3"), Err(BrowserError::NotADirectory));
    assert_eq!(b.enter_directory("Elsewhere"), Err(BrowserError::NotADirectory));
}

#[test]
fn applying_a_directory_resets_selection_and_scroll() {
    let mut b = MusicBrowser::new(String::from("/music"), demo_catalog());
    b.move_selection_down(2);
    b.move_selection_down(2);
    assert_eq!((b.selected_index, b.scroll_offset), (2, 1));
    b.apply_directory(String::from("/music/Folder"), vec![file("x.mp3", "/music/Folder/x.mp3")]);
    assert_eq!((b.selected_index, b.scroll_offset), (0, 0));
    assert_eq!(b.current_path, "/music/Folder");
    assert_eq!(b.items.len(), 1);
}

#[test]
fn built_catalog_reflects_the_entries() {
    let entries = vec![
        RawEntry {
            name: String::from("song1.mp3"),
            is_dir: false,
            path: String::from("/music/song1.mp3"),
        },
        RawEntry { name: String::from("Folder"), is_dir: true, path: String::from("/music/Folder") },
    ];
    let items = build_items(&entries, &None);
    assert_eq!(items.len(), 2);
    assert_eq!(items[0].name, "song1.mp3");
    assert!(!items[0].is_dir);
    assert_eq!(items[0].music_path, Some(String::from("/music/song1.mp3")));
    assert_eq!(items[0].video_path, None);
    assert!(items[1].is_dir);
    assert_eq!(items[1].music_path, None);
    assert_eq!(items[1].video_path, None);
}
