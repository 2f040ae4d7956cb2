//! The coordinator: one mode value, the todo list with its input line, and
//! ownership of the browser, the name mapping, and the playback transport.
//!
//! Side effects are requested through [`Effect`] values; the caller carries
//! them out and reports back through the `install_browser`, `attach_player`
//! and browser callbacks.

use vstd::prelude::*;

use crate::browser::{MusicBrowser, MusicItem, OverlayCommand, SongMapping};
use crate::player::{MusicPlayer, SinkCommand};
use crate::todo::{
    lemma_find_todo_characterization, spec_find_todo, spec_max_id, Todo, TodoManager,
};

verus! {

/// The mode the coordinator is in; invalid combinations are unrepresentable.
#[derive(Clone, Copy, PartialEq, Eq, Structural, Debug)]
pub enum InputMode {
    Normal,
    Editing,
    Browser,
    Player,
}

/// Errors of the coordinator's own decisions.
#[derive(Clone, Copy, PartialEq, Eq, Structural, Debug)]
pub enum AppError {
    /// No browser is open.
    BrowserMissing,
    /// The selection carries no music file.
    NoSongSelected,
}

/// One side effect the caller must carry out.
#[derive(Clone, Debug)]
pub enum Effect {
    /// Enumerate this directory, creating it first when missing, and report
    /// back through `App::install_browser`.
    OpenBrowser(String),
    /// Enumerate this directory and report back through
    /// `MusicBrowser::apply_directory`; on failure change nothing.
    EnterDirectory(String),
    /// Act on the overlay process world as the command says.
    Overlay(OverlayCommand),
    /// Open and probe this audio file, then report back through
    /// `App::attach_player`; on failure change nothing.
    OpenMedia(String),
    /// Drive the real audio sink as the command says.
    Sink(SinkCommand),
}

/// Relies on `String::push`: appends one character at the end.
#[verifier::external_body]
fn string_push(s: &mut String, c: char)
    ensures
        final(s)@ == old(s)@.push(c),
{
    s.push(c);
}

/// Relies on `String::pop`: removes and returns the last character, if any.
#[verifier::external_body]
fn string_pop(s: &mut String) -> (r: Option<char>)
    ensures
        old(s)@.len() == 0 ==> final(s)@ == old(s)@ && r is None,
        old(s)@.len() > 0 ==> final(s)@ == old(s)@.drop_last() && r == Some(old(s)@.last()),
{
    s.pop()
}

/// The overlay process token the open browser owns, if any.
pub open spec fn spec_owned_overlay(app: App) -> Option<u64> {
    match app.music_browser {
        Some(b) => b.overlay_token(),
        None => None,
    }
}

/// The coordinator's whole state.
pub struct App {
    pub todos: Vec<Todo>,
    /// The todo input line being edited.
    pub input: String,
    pub input_mode: InputMode,
    /// Id the next added todo entry gets.
    pub next_id: usize,
    pub music_browser: Option<MusicBrowser>,
    pub song_mapping: Option<SongMapping>,
    pub music_player: Option<MusicPlayer>,
    /// Directory the browser opens at; configuration given at construction.
    pub music_root: String,
}

impl App {
    /// The transport, when present, is in one of its three proper states.
    pub open spec fn player_wf(self) -> bool {
        self.music_player matches Some(p) ==> p.wf()
    }

    /// The clock sample is usable for the transport, when one is present.
    pub open spec fn player_time_wf(self, now: int) -> bool {
        self.music_player matches Some(p) ==> p.time_wf(now)
    }

    /// A fresh coordinator: no todos, empty input, normal mode, nothing
    /// open or playing.
    pub fn new(music_root: String) -> (app: App)
        ensures
            app.todos@ =~= Seq::<Todo>::empty(),
            app.input@ =~= Seq::<char>::empty(),
            app.input_mode == InputMode::Normal,
            app.next_id == 1,
            app.music_browser is None,
            app.song_mapping is None,
            app.music_player is None,
            app.music_root@ == music_root@,
            app.player_wf(),
    {
        App {
            todos: Vec::new(),
            input: String::new(),
            input_mode: InputMode::Normal,
            next_id: 1,
            music_browser: None,
            song_mapping: None,
            music_player: None,
            music_root,
        }
    }

    /// A fresh coordinator holding stored todos; the next id is one past
    /// the largest stored id, or `1` when none are stored.
    pub fn with_todos(todos: Vec<Todo>, music_root: String) -> (app: App)
        requires
            spec_max_id(todos@) < usize::MAX,
        ensures
            app.todos@ == todos@,
            app.next_id == spec_max_id(todos@) + 1,
            app.input@ =~= Seq::<char>::empty(),
            app.input_mode == InputMode::Normal,
            app.music_browser is None,
            app.song_mapping is None,
            app.music_player is None,
            app.music_root@ == music_root@,
            app.player_wf(),
    {
        let n = todos.len();
        let mut m: usize = 0;
        let mut i: usize = 0;
        proof {
            assert(todos@.subrange(0, 0) =~= Seq::<Todo>::empty());
        }
        while i < n
            invariant
                n == todos@.len(),
                i <= n,
                m == spec_max_id(todos@.subrange(0, i as int)),
            decreases n - i,
        {
            proof {
                assert(todos@.subrange(0, i + 1).drop_last() =~= todos@.subrange(0, i as int));
                assert(todos@.subrange(0, i + 1).last() == todos@[i as int]);
            }
            if todos[i].id > m {
                m = todos[i].id;
            }
            i = i + 1;
        }
        proof {
            assert(todos@.subrange(0, n as int) =~= todos@);
        }
        App {
            todos,
            input: String::new(),
            input_mode: InputMode::Normal,
            next_id: m + 1,
            music_browser: None,
            song_mapping: None,
            music_player: None,
            music_root,
        }
    }

    /// Attaches the name mapping loaded at startup.
    pub fn set_song_mapping(&mut self, mapping: SongMapping)
        ensures
            *final(self) == (App { song_mapping: final(self).song_mapping, ..*old(self) }),
            final(self).song_mapping == Some(mapping),
    {
        self.song_mapping = Some(mapping);
    }

    /// Asks for the browser to be (re)opened at the configured root.  The
    /// state is untouched: it changes only when the listing arrives through
    /// `install_browser`, so a failed listing leaves everything as it was.
    pub fn show_music_browser(&self) -> (e: Effect)
        ensures
            e matches Effect::OpenBrowser(p) && p@ == self.music_root@,
    {
        Effect::OpenBrowser(self.music_root.clone())
    }

    /// Installs the freshly listed catalog: a browser over it with
    /// selection and scroll at the top, in browser mode.  An overlay
    /// process owned by the replaced browser is carried over, so it is
    /// never silently forgotten while alive.
    pub fn install_browser(&mut self, path: String, items: Vec<MusicItem>)
        ensures
            *final(self) == (App {
                music_browser: final(self).music_browser,
                input_mode: InputMode::Browser,
                ..*old(self)
            }),
            final(self).music_browser matches Some(b) && b.current_path@ == path@ && b.items@
                == items@ && b.selected_index == 0 && b.scroll_offset == 0 && b.overlay_token()
                == spec_owned_overlay(*old(self)),
    {
        let token: Option<u64> = match &self.music_browser {
            Some(b) => b.current_overlay(),
            None => None,
        };
        let mut b = MusicBrowser::new(path, items);
        match token {
            Some(t) => b.register_overlay(t),
            None => (),
        }
        self.music_browser = Some(b);
        self.input_mode = InputMode::Browser;
    }

    /// Discards the browser, handing back the overlay process token it
    /// owned so the caller can terminate that process.
    pub fn clear_music_browser(&mut self) -> (r: Option<u64>)
        ensures
            *final(self) == (App { music_browser: None, ..*old(self) }),
            r == spec_owned_overlay(*old(self)),
    {
        let r = match &mut self.music_browser {
            Some(b) => b.cleanup(),
            None => None,
        };
        self.music_browser = None;
        r
    }

    /// Tears the whole coordinator down; today that is discarding the
    /// browser and its overlay process.
    pub fn cleanup(&mut self) -> (r: Option<u64>)
        ensures
            *final(self) == (App { music_browser: None, ..*old(self) }),
            r == spec_owned_overlay(*old(self)),
    {
        self.clear_music_browser()
    }

    /// Stops and drops the playback transport, handing back the command
    /// for the real sink.  Safe when none is attached.
    pub fn cleanup_music_player(&mut self) -> (cmd: Option<SinkCommand>)
        ensures
            *final(self) == (App { music_player: None, ..*old(self) }),
            cmd == (match old(self).music_player {
                Some(p) => if p.sink_active {
                    Some(SinkCommand::Stop)
                } else {
                    None
                },
                None => None,
            }),
    {
        let cmd = match &mut self.music_player {
            Some(p) => p.cleanup(),
            None => None,
        };
        self.music_player = None;
        cmd
    }

    /// Leaves the player: transport stopped and dropped, mode back to
    /// normal.
    pub fn handle_player_exit(&mut self) -> (cmd: Option<SinkCommand>)
        ensures
            *final(self) == (App {
                music_player: None,
                input_mode: InputMode::Normal,
                ..*old(self)
            }),
            cmd == (match old(self).music_player {
                Some(p) => if p.sink_active {
                    Some(SinkCommand::Stop)
                } else {
                    None
                },
                None => None,
            }),
    {
        let cmd = self.cleanup_music_player();
        self.input_mode = InputMode::Normal;
        cmd
    }

    /// Leaves the browser: catalog discarded, mode back to normal, and the
    /// owned overlay process token handed back for termination.
    pub fn handle_music_browser_exit(&mut self) -> (r: Option<u64>)
        ensures
            *final(self) == (App {
                music_browser: None,
                input_mode: InputMode::Normal,
                ..*old(self)
            }),
            r == spec_owned_overlay(*old(self)),
    {
        let r = self.clear_music_browser();
        self.input_mode = InputMode::Normal;
        r
    }

    /// Decides what to open for the selected entry: the music path of the
    /// selection, or why there is none.  Activation itself happens when the
    /// probe reports back through `attach_player`.
    pub fn initialize_music_player_from_browser(&self) -> (r: Result<Effect, AppError>)
        ensures
            match r {
                Ok(e) => match e {
                    Effect::OpenMedia(p) => self.music_browser matches Some(b)
                        && b.selected_index < b.items@.len() && (b.items@[b.selected_index as int].music_path matches Some(q)
                        && p@ == q@),
                    _ => false,
                },
                Err(AppError::BrowserMissing) => self.music_browser is None,
                Err(AppError::NoSongSelected) => (self.music_browser matches Some(b) && (
                b.selected_index >= b.items@.len()
                    || b.items@[b.selected_index as int].music_path is None)),
            },
    {
        match &self.music_browser {
            Some(b) => match b.get_selected_music_path() {
                Some(p) => Ok(Effect::OpenMedia(p)),
                None => Err(AppError::NoSongSelected),
            },
            None => Err(AppError::BrowserMissing),
        }
    }

    /// Installs a fresh transport for the opened file, replacing any prior
    /// one; the returned command stops the replaced sink.  Missing album
    /// art never blocks this: the transport carries none.
    pub fn attach_player(
        &mut self,
        audio_file: String,
        total_duration_ms: Option<u64>,
        now_ms: u64,
    ) -> (cmd: Option<SinkCommand>)
        ensures
            *final(self) == (App { music_player: final(self).music_player, ..*old(self) }),
            final(self).music_player == Some(
                MusicPlayer::spec_new(audio_file, total_duration_ms, now_ms),
            ),
            final(self).player_wf(),
            cmd == (match old(self).music_player {
                Some(p) => if p.sink_active {
                    Some(SinkCommand::Stop)
                } else {
                    None
                },
                None => None,
            }),
    {
        let cmd = self.cleanup_music_player();
        self.music_player = Some(MusicPlayer::new(audio_file, total_duration_ms, now_ms));
        cmd
    }

    /// The mode the coordinator is in.
    pub fn get_input_mode(&self) -> (m: InputMode)
        ensures
            m == self.input_mode,
    {
        self.input_mode
    }

    /// Sets the mode directly.
    pub fn set_input_mode(&mut self, mode: InputMode)
        ensures
            *final(self) == (App { input_mode: mode, ..*old(self) }),
    {
        self.input_mode = mode;
    }

    /// The todo input line being edited.
    pub fn get_input(&self) -> (r: &str)
        ensures
            r@ == self.input@,
    {
        self.input.as_str()
    }

    /// Empties the todo input line.
    pub fn clear_input(&mut self)
        ensures
            *final(self) == (App { input: final(self).input, ..*old(self) }),
            final(self).input@ =~= Seq::<char>::empty(),
    {
        self.input = String::new();
    }

    /// Appends one character to the todo input line.
    pub fn push_to_input(&mut self, c: char)
        ensures
            *final(self) == (App { input: final(self).input, ..*old(self) }),
            final(self).input@ == old(self).input@.push(c),
    {
        string_push(&mut self.input, c);
    }

    /// Removes the last character of the todo input line, if any.
    pub fn pop_from_input(&mut self)
        ensures
            *final(self) == (App { input: final(self).input, ..*old(self) }),
            old(self).input@.len() == 0 ==> final(self).input@ == old(self).input@,
            old(self).input@.len() > 0 ==> final(self).input@ == old(self).input@.drop_last(),
    {
        let _ = string_pop(&mut self.input);
    }
}

impl TodoManager for App {
    open spec fn todos_view(&self) -> Seq<Todo> {
        self.todos@
    }

    fn add_todo(&mut self, title: String)
        ensures
            *final(self) == (App {
                todos: final(self).todos,
                next_id: old(self).next_id.saturating_add(1),
                ..*old(self)
            }),
            final(self).todos@.last().id == old(self).next_id,
    {
        let todo = Todo::new(self.next_id, title);
        self.todos.push(todo);
        self.next_id = self.next_id.saturating_add(1);
        proof {
            assert(self.todos@.drop_last() =~= old(self).todos@);
        }
    }

    fn remove_todo(&mut self, id: usize)
        ensures
            *final(self) == (App { todos: final(self).todos, ..*old(self) }),
    {
        let ghost orig = self.todos@;
        let ghost pred = |t: Todo| t.id != id;
        let n = self.todos.len();
        let mut kept: Vec<Todo> = Vec::new();
        let mut i: usize = 0;
        proof {
            reveal(Seq::filter);
            assert(orig.subrange(0, 0) =~= Seq::<Todo>::empty());
            assert(orig.subrange(0, 0).filter(pred) =~= Seq::<Todo>::empty());
        }
        while i < n
            invariant
                n == orig.len(),
                orig == self.todos@,
                i <= n,
                kept@ == orig.subrange(0, i as int).filter(pred),
                pred == (|t: Todo| t.id != id),
            decreases n - i,
        {
            proof {
                reveal(Seq::filter);
                assert(orig.subrange(0, i + 1).drop_last() =~= orig.subrange(0, i as int));
                assert(orig.subrange(0, i + 1).last() == orig[i as int]);
            }
            let t = &self.todos[i];
            if t.id != id {
                kept.push(Todo { id: t.id, title: t.title.clone(), completed: t.completed });
                proof {
                    reveal(Seq::filter);
                    assert(kept@.last() == orig[i as int]);
                    assert(kept@ =~= orig.subrange(0, i + 1).filter(pred));
                }
            } else {
                proof {
                    reveal(Seq::filter);
                    assert(kept@ =~= orig.subrange(0, i + 1).filter(pred));
                }
            }
            i = i + 1;
        }
        proof {
            assert(orig.subrange(0, n as int) =~= orig);
        }
        self.todos = kept;
    }

    fn toggle_todo(&mut self, id: usize)
        ensures
            *final(self) == (App { todos: final(self).todos, ..*old(self) }),
    {
        proof {
            lemma_find_todo_characterization(self.todos@, id);
        }
        let n = self.todos.len();
        let mut i: usize = 0;
        while i < n
            invariant
                n == self.todos@.len(),
                self.todos@ == old(self).todos@,
                *self == *old(self),
                i <= n,
                forall|j: int| 0 <= j < i ==> self.todos@[j].id != id,
            decreases n - i,
        {
            if self.todos[i].id == id {
                let title = self.todos[i].title.clone();
                let completed = self.todos[i].completed;
                self.todos.set(i, Todo { id, title, completed: !completed });
                proof {
                    lemma_find_todo_characterization(old(self).todos@, id);
                    let r = spec_find_todo(old(self).todos@, id);
                    assert(old(self).todos@[i as int].id == id);
                    if r == -1 {
                        assert(old(self).todos@[i as int].id != id);
                    } else if r < i {
                        assert(old(self).todos@[r].id == id);
                        assert(old(self).todos@[r].id != id);
                    } else if r > i {
                        assert(old(self).todos@[i as int].id != id);
                    }
                    assert(r == i);
                }
                return ;
            }
            i = i + 1;
        }
        proof {
            lemma_find_todo_characterization(old(self).todos@, id);
        }
    }

    fn get_todos(&self) -> (r: &Vec<Todo>) {
        &self.todos
    }
}

} // verus!
