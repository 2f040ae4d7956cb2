//! Key-event dispatch: one verified transition per key stroke.
//!
//! The caller polls the terminal, translates the event into a [`Key`], and
//! applies at most one transition per loop iteration; the returned effects
//! are carried out afterwards, strictly in order, so stopping an old
//! resource always precedes starting its replacement.

use vstd::prelude::*;

use crate::app::{App, Effect, InputMode};
use crate::browser::OverlayCommand;
use crate::key::Key;
use crate::names;
use crate::player::SinkCommand;
use crate::todo::{lemma_find_todo_characterization, spec_find_todo, spec_toggled, TodoManager};

verus! {

/// Dispatches key events to the coordinator.
pub struct EventHandler;

/// The key/mode pairs on which the dispatcher acts; on every other pair it
/// returns with nothing changed and nothing to do.
pub open spec fn spec_key_handled(key: Key, mode: InputMode) -> bool {
    ||| key == Key::Char('q')
    ||| key == Key::Char('i') && mode == InputMode::Normal
    ||| key == Key::Enter && mode == InputMode::Editing
    ||| key == Key::Char('b') && (mode == InputMode::Normal || mode == InputMode::Player)
    ||| (key == Key::Up || key == Key::Down || key == Key::Enter || key == Key::Char('v') || key
        == Key::Char('e')) && mode == InputMode::Browser
    ||| mode == InputMode::Player
    ||| (key matches Key::Char(_) || key == Key::Backspace) && mode == InputMode::Editing
    ||| key == Key::Char('t') && mode == InputMode::Normal
}

impl EventHandler {
    /// Applies one key stroke to the coordinator and says whether the
    /// application must quit, together with the side effects the caller
    /// must carry out, in order.
    pub fn handle_key_event(app: &mut App, key: Key, visible_count: usize, now_ms: u64) -> (r: (
        bool,
        Vec<Effect>,
    ))
        requires
            old(app).player_wf(),
            old(app).player_time_wf(now_ms as int),
        ensures
            final(app).player_wf(),
            r.0 == (key == Key::Char('q')),
            key == Key::Char('q') ==> *final(app) == *old(app) && r.1@.len() == 0,
            key != Key::Char('q') ==> {
                let mode = old(app).input_mode;
                &&& (key == Key::Char('i') && mode == InputMode::Normal) ==> *final(app) == (App {
                    input_mode: InputMode::Editing,
                    ..*old(app)
                }) && r.1@.len() == 0
                &&& (key == Key::Enter && mode == InputMode::Editing) ==> r.1@.len() == 0 && (
                if old(app).input@.len() == 0 {
                    *final(app) == *old(app)
                } else {
                    &&& *final(app) == (App {
                        todos: final(app).todos,
                        input: final(app).input,
                        input_mode: InputMode::Normal,
                        next_id: old(app).next_id.saturating_add(1),
                        ..*old(app)
                    })
                    &&& final(app).input@.len() == 0
                    &&& final(app).todos@.len() == old(app).todos@.len() + 1
                    &&& final(app).todos@.drop_last() == old(app).todos@
                    &&& final(app).todos@.last().title@ == old(app).input@
                    &&& final(app).todos@.last().id == old(app).next_id
                    &&& !final(app).todos@.last().completed
                })
                &&& (key == Key::Char('b') && (mode == InputMode::Normal || mode
                    == InputMode::Player)) ==> *final(app) == *old(app) && r.1@.len() == 1 && (
                r.1@[0] matches Effect::OpenBrowser(p) && p@ == old(app).music_root@)
                &&& (key == Key::Up && mode == InputMode::Browser) ==> r.1@.len() == 0 && (
                match old(app).music_browser {
                    Some(b) => *final(app) == (App {
                        music_browser: Some(b.spec_move_up()),
                        ..*old(app)
                    }),
                    None => *final(app) == *old(app),
                })
                &&& (key == Key::Down && mode == InputMode::Browser) ==> r.1@.len() == 0 && (
                match old(app).music_browser {
                    Some(b) => *final(app) == (App {
                        music_browser: Some(b.spec_move_down(visible_count as int)),
                        ..*old(app)
                    }),
                    None => *final(app) == *old(app),
                })
                &&& (key == Key::Enter && mode == InputMode::Browser) ==> spec_browser_enter(
                    *old(app),
                    *final(app),
                    r.1@,
                )
                &&& (key == Key::Char('v') && mode == InputMode::Browser) ==> *final(app) == (App {
                    input_mode: InputMode::Player,
                    ..*old(app)
                }) && r.1@.len() == 0
                &&& (mode == InputMode::Player && key != Key::Char('b')) ==> (match old(app).music_player {
                    Some(p) => {
                        &&& *final(app) == (App {
                            music_player: Some(p.spec_handle_key(key, now_ms)),
                            ..*old(app)
                        })
                        &&& (match p.spec_handle_key_cmd(key, now_ms) {
                            Some(c) => r.1@.len() == 1 && r.1@[0] == Effect::Sink(c),
                            None => r.1@.len() == 0,
                        })
                    },
                    None => *final(app) == *old(app) && r.1@.len() == 0,
                })
                &&& (key == Key::Char('e') && mode == InputMode::Browser) ==> spec_browser_exit(
                    *old(app),
                    *final(app),
                    r.1@,
                )
                &&& mode == InputMode::Editing ==> (key matches Key::Char(c) ==> *final(app) == (
                App { input: final(app).input, ..*old(app) }) && final(app).input@ == old(app).input@.push(c) && r.1@.len() == 0)
                &&& (mode == InputMode::Editing && key == Key::Backspace) ==> *final(app) == (App {
                    input: final(app).input,
                    ..*old(app)
                }) && r.1@.len() == 0 && (if old(app).input@.len() == 0 {
                    final(app).input@ == old(app).input@
                } else {
                    final(app).input@ == old(app).input@.drop_last()
                })
                &&& (key == Key::Char('t') && mode == InputMode::Normal) ==> r.1@.len() == 0 && (
                if old(app).todos@.len() == 0 {
                    *final(app) == *old(app)
                } else {
                    *final(app) == (App { todos: final(app).todos, ..*old(app) }) && final(app).todos@ == old(app).todos@.update(0, spec_toggled(old(app).todos@[0]))
                })
                &&& !spec_key_handled(key, mode) ==> *final(app) == *old(app) && r.1@.len() == 0
            },
    {
        let mut effects: Vec<Effect> = Vec::new();
        let mode = app.get_input_mode();
        match (key, mode) {
            (Key::Char('q'), _) => (true, effects),
            (Key::Char('i'), InputMode::Normal) => {
                app.set_input_mode(InputMode::Editing);
                (false, effects)
            },
            (Key::Enter, InputMode::Editing) => {
                if !app.get_input().is_empty() {
                    let title = app.get_input().to_owned();
                    app.add_todo(title);
                    app.clear_input();
                    app.set_input_mode(InputMode::Normal);
                }
                (false, effects)
            },
            (Key::Char('b'), InputMode::Normal) | (Key::Char('b'), InputMode::Player) => {
                let e = app.show_music_browser();
                effects.push(e);
                (false, effects)
            },
            (Key::Up, InputMode::Browser) => {
                match &mut app.music_browser {
                    Some(b) => b.move_selection_up(visible_count),
                    None => (),
                }
                (false, effects)
            },
            (Key::Down, InputMode::Browser) => {
                match &mut app.music_browser {
                    Some(b) => b.move_selection_down(visible_count),
                    None => (),
                }
                (false, effects)
            },
            (Key::Enter, InputMode::Browser) => {
                let effects = Self::handle_browser_enter(app);
                (false, effects)
            },
            (Key::Char('v'), InputMode::Browser) => {
                app.set_input_mode(InputMode::Player);
                (false, effects)
            },
            (_, InputMode::Player) => {
                match &mut app.music_player {
                    Some(p) => {
                        let cmd = p.handle_key(key, now_ms);
                        match cmd {
                            Some(c) => effects.push(Effect::Sink(c)),
                            None => (),
                        }
                    },
                    None => (),
                }
                (false, effects)
            },
            (Key::Char('e'), InputMode::Browser) => {
                let token = app.handle_music_browser_exit();
                match token {
                    Some(t) => effects.push(Effect::Overlay(OverlayCommand::Kill(t))),
                    None => (),
                }
                let cmd = app.handle_player_exit();
                match cmd {
                    Some(c) => effects.push(Effect::Sink(c)),
                    None => (),
                }
                (false, effects)
            },
            (Key::Char(c), InputMode::Editing) => {
                app.push_to_input(c);
                (false, effects)
            },
            (Key::Backspace, InputMode::Editing) => {
                app.pop_from_input();
                (false, effects)
            },
            (Key::Char('t'), InputMode::Normal) => {
                if app.get_todos().len() > 0 {
                    let id = app.get_todos()[0].id;
                    proof {
                        lemma_find_todo_characterization(app.todos@, id);
                        let r = spec_find_todo(app.todos@, id);
                        assert(app.todos@[0].id == id);
                        if r == -1 {
                            assert(app.todos@[0].id != id);
                        } else if r > 0 {
                            assert(app.todos@[0].id != id);
                        }
                        assert(r == 0);
                    }
                    app.toggle_todo(id);
                }
                (false, effects)
            },
            _ => (false, effects),
        }
    }

    /// The selected entry is activated: a directory asks for its listing, a
    /// file asks for the overlay replacement and the media to open.
    fn handle_browser_enter(app: &mut App) -> (effects: Vec<Effect>)
        ensures
            spec_browser_enter(*old(app), *final(app), effects@),
            final(app).music_player == old(app).music_player,
    {
        let mut effects: Vec<Effect> = Vec::new();
        let mut selected_file = false;
        match &mut app.music_browser {
            Some(b) => {
                if b.selected_index < b.items.len() {
                    if b.items[b.selected_index].is_dir {
                        let name = b.items[b.selected_index].name.clone();
                        proof {
                            assert(b.items@[b.selected_index as int].is_dir && b.items@[
                            b.selected_index as int].name@ == name@);
                        }
                        match b.enter_directory(name.as_str()) {
                            Ok(p) => effects.push(Effect::EnterDirectory(p)),
                            Err(_) => {
                                proof {
                                    assert(false);
                                }
                            },
                        }
                    } else {
                        let mut cmds = b.play_selected();
                        let ghost orig_cmds = cmds@;
                        let total = cmds.len();
                        let mut k: usize = 0;
                        while cmds.len() > 0
                            invariant
                                total == orig_cmds.len(),
                                k + cmds@.len() == orig_cmds.len(),
                                cmds@ =~= orig_cmds.subrange(k as int, orig_cmds.len() as int),
                                effects@.len() == k,
                                forall|j: int|
                                    0 <= j < k ==> effects@[j] == Effect::Overlay(
                                        #[trigger] orig_cmds[j],
                                    ),
                            decreases cmds@.len(),
                        {
                            let c = cmds.remove(0);
                            proof {
                                assert(c == orig_cmds[k as int]);
                                assert(cmds@ =~= orig_cmds.subrange(
                                    k + 1,
                                    orig_cmds.len() as int,
                                ));
                            }
                            effects.push(Effect::Overlay(c));
                            k = k + 1;
                        }
                        selected_file = true;
                    }
                }
            },
            None => (),
        }
        if selected_file {
            match app.initialize_music_player_from_browser() {
                Ok(e) => effects.push(e),
                Err(_) => (),
            }
        }
        effects
    }
}

/// What activating the selected browser entry does: a directory leaves the
/// state alone and asks for its listing; a file releases the owned overlay
/// token and asks, in order, for the old overlay's kill, the new overlay's
/// spawn, and the media to open — each only when there is one.
pub open spec fn spec_browser_enter(pre: App, post: App, effects: Seq<Effect>) -> bool {
    match pre.music_browser {
        None => post == pre && effects.len() == 0,
        Some(b) => {
            let sel = b.selected_index as int;
            if sel < b.items@.len() {
                let it = b.items@[sel];
                if it.is_dir {
                    &&& post == pre
                    &&& effects.len() == 1
                    &&& (effects[0] matches Effect::EnterDirectory(p) && p@ == names::spec_join(
                        b.current_path@,
                        it.name@,
                    ))
                } else {
                    let kills: int = if b.overlay_token() is Some {
                        1int
                    } else {
                        0int
                    };
                    let spawns: int = if it.video_path is Some {
                        1int
                    } else {
                        0int
                    };
                    let medias: int = if it.music_path is Some {
                        1int
                    } else {
                        0int
                    };
                    &&& (post.music_browser matches Some(nb) && nb.overlay_token() is None
                        && nb.current_path@ == b.current_path@ && nb.items@ == b.items@
                        && nb.selected_index == b.selected_index && nb.scroll_offset
                        == b.scroll_offset)
                    &&& post == (App { music_browser: post.music_browser, ..pre })
                    &&& effects.len() == kills + spawns + medias
                    &&& (b.overlay_token() matches Some(t) ==> effects[0] == Effect::Overlay(
                        OverlayCommand::Kill(t),
                    ))
                    &&& (it.video_path matches Some(v) ==> (effects[kills] matches Effect::Overlay(
                        cmd,
                    ) && (cmd matches OverlayCommand::Spawn(p) && p@ == v@)))
                    &&& (it.music_path matches Some(mp) ==> (effects[kills + spawns]
                        matches Effect::OpenMedia(p) && p@ == mp@))
                }
            } else {
                post == pre && effects.len() == 0
            }
        },
    }
}

/// What leaving the browser does: catalog and transport discarded, mode
/// back to normal, and, in order, the owned overlay's kill and the sink's
/// stop — each only when there is something to kill or stop.
pub open spec fn spec_browser_exit(pre: App, post: App, effects: Seq<Effect>) -> bool {
    let kills: int = if crate::app::spec_owned_overlay(pre) is Some {
        1int
    } else {
        0int
    };
    let stops: int = if (pre.music_player matches Some(p) && p.sink_active) {
        1int
    } else {
        0int
    };
    &&& post == (App {
        music_browser: None,
        music_player: None,
        input_mode: InputMode::Normal,
        ..pre
    })
    &&& effects.len() == kills + stops
    &&& (crate::app::spec_owned_overlay(pre) matches Some(t) ==> effects[0] == Effect::Overlay(
        OverlayCommand::Kill(t),
    ))
    &&& ((pre.music_player matches Some(p) && p.sink_active) ==> effects[kills] == Effect::Sink(
        SinkCommand::Stop,
    ))
}

} // verus!
