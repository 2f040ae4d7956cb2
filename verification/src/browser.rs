//! The directory browser: name→overlay mapping, catalog entries, the
//! scroll-windowed selector, and the overlay process manager.
//!
//! Filesystem enumeration and process control happen outside; this module
//! holds the state and decides what must be done, handing the caller
//! [`OverlayCommand`] values to carry out.

use vstd::prelude::*;
use vstd::string::StrSliceExecFns;

use crate::names;

verus! {

/// The string-to-string mapping a YAML text denotes, when it is a valid
/// mapping of that shape.  Which mapping a text denotes is a function of the
/// text alone; this names the result of the parser relied upon below.
pub uninterp spec fn yaml_name_map(text: Seq<char>) -> Option<Map<Seq<char>, Seq<char>>>;

#[verifier::external_type_specification]
#[verifier::external_body]
pub struct ExSerdeYamlError(serde_yaml::Error);

/// Relies on `serde_yaml::from_str::<HashMap<String, String>>`: parses the
/// text as a YAML mapping from strings to strings and returns its entries,
/// in no particular order; fails exactly on texts that do not denote such a
/// mapping.
#[verifier::external_body]
fn parse_yaml_name_map(text: &str) -> (r: Result<Vec<(String, String)>, serde_yaml::Error>)
    ensures
        r is Ok <==> yaml_name_map(text@) is Some,
        r matches Ok(pairs) ==> {
            let m = yaml_name_map(text@)->0;
            &&& forall|i: int|
                0 <= i < pairs@.len() ==> #[trigger] m.contains_pair(pairs@[i].0@, pairs@[i].1@)
            &&& forall|k: Seq<char>|
                m.dom().contains(k) ==> exists|i: int|
                    0 <= i < pairs@.len() && #[trigger] pairs@[i].0@ == k
        },
{
    match serde_yaml::from_str::<std::collections::HashMap<String, String>>(text) {
        Ok(m) => Ok(m.into_iter().collect()),
        Err(e) => Err(e),
    }
}

/// First value paired with `name` in `entries`, scanning left to right.
pub open spec fn spec_lookup(entries: Seq<(Seq<char>, Seq<char>)>, name: Seq<char>) -> Option<
    Seq<char>,
>
    decreases entries.len(),
{
    if entries.len() == 0 {
        None
    } else if entries[0].0 == name {
        Some(entries[0].1)
    } else {
        spec_lookup(entries.drop_first(), name)
    }
}

/// What looking `k` up in the map `m` yields.
pub open spec fn spec_map_lookup(m: Map<Seq<char>, Seq<char>>, k: Seq<char>) -> Option<Seq<char>> {
    if m.dom().contains(k) {
        Some(m[k])
    } else {
        None
    }
}

proof fn lemma_lookup_in_map(
    entries: Seq<(Seq<char>, Seq<char>)>,
    m: Map<Seq<char>, Seq<char>>,
    k: Seq<char>,
)
    requires
        forall|i: int|
            0 <= i < entries.len() ==> #[trigger] m.contains_pair(entries[i].0, entries[i].1),
    ensures
        spec_lookup(entries, k) matches Some(v) ==> m.contains_pair(k, v),
    decreases entries.len(),
{
    if entries.len() == 0 {
    } else if entries[0].0 == k {
    } else {
        let rest = entries.drop_first();
        assert forall|i: int| 0 <= i < rest.len() implies #[trigger] m.contains_pair(
            rest[i].0,
            rest[i].1,
        ) by {
            assert(rest[i] == entries[i + 1]);
        }
        lemma_lookup_in_map(rest, m, k);
    }
}

proof fn lemma_lookup_finds(entries: Seq<(Seq<char>, Seq<char>)>, k: Seq<char>)
    requires
        exists|i: int| 0 <= i < entries.len() && #[trigger] entries[i].0 == k,
    ensures
        spec_lookup(entries, k) is Some,
    decreases entries.len(),
{
    if entries[0].0 == k {
    } else {
        let i = choose|i: int| 0 <= i < entries.len() && #[trigger] entries[i].0 == k;
        let rest = entries.drop_first();
        assert(rest[i - 1] == entries[i]);
        lemma_lookup_finds(rest, k);
    }
}

/// Errors of the mapping loader.
#[derive(Clone, Copy, PartialEq, Eq, Structural, Debug)]
pub enum MappingError {
    /// The text is not a YAML mapping from strings to strings.
    InvalidYaml,
}

/// Mapping from bare music file names to overlay video paths, loaded once
/// from a declarative text and read-only afterwards.
pub struct SongMapping {
    mapping: Vec<(String, String)>,
}

impl SongMapping {
    /// The mapping's entries as pairs of character sequences.
    pub closed spec fn entries(self) -> Seq<(Seq<char>, Seq<char>)> {
        self.mapping@.map_values(|p: (String, String)| (p.0@, p.1@))
    }

    /// Parses the mapping from a YAML text: succeeds exactly when the text
    /// denotes a mapping from strings to strings, and then looking any name
    /// up yields what that mapping pairs it with.
    pub fn from_yaml(text: &str) -> (r: Result<SongMapping, MappingError>)
        ensures
            r is Ok <==> yaml_name_map(text@) is Some,
            r matches Err(e) ==> e == MappingError::InvalidYaml,
            r matches Ok(sm) ==> forall|k: Seq<char>| #[trigger]
                spec_lookup(sm.entries(), k) == spec_map_lookup(yaml_name_map(text@)->0, k),
    {
        match parse_yaml_name_map(text) {
            Err(_) => Err(MappingError::InvalidYaml),
            Ok(pairs) => {
                let sm = SongMapping { mapping: pairs };
                proof {
                    let m = yaml_name_map(text@)->0;
                    let es = sm.entries();
                    assert forall|i: int| 0 <= i < es.len() implies #[trigger] m.contains_pair(
                        es[i].0,
                        es[i].1,
                    ) by {
                        assert(m.contains_pair(sm.mapping@[i].0@, sm.mapping@[i].1@));
                    }
                    assert forall|k: Seq<char>| #[trigger] spec_lookup(es, k) == spec_map_lookup(
                        m,
                        k,
                    ) by {
                        lemma_lookup_in_map(es, m, k);
                        if m.dom().contains(k) {
                            let i = choose|i: int|
                                0 <= i < sm.mapping@.len() && #[trigger] sm.mapping@[i].0@ == k;
                            assert(es[i].0 == k);
                            lemma_lookup_finds(es, k);
                        } else {
                            match spec_lookup(es, k) {
                                Some(v) => {
                                    assert(m.contains_pair(k, v));
                                    assert(false);
                                },
                                None => {},
                            }
                        }
                    }
                }
                Ok(sm)
            },
        }
    }

    /// Overlay video path mapped to the bare file name of `song_path`, if
    /// any; lookup is by exact file-name match.
    pub fn get_video_path(&self, song_path: &str) -> (r: Option<String>)
        ensures
            match r {
                Some(v) => spec_lookup(self.entries(), names::spec_file_name(song_path@)) == Some(
                    v@,
                ),
                None => spec_lookup(self.entries(), names::spec_file_name(song_path@)) is None,
            },
    {
        let name = names::file_name(song_path);
        let n = self.mapping.len();
        let mut i: usize = 0;
        proof {
            assert(self.entries().skip(0) =~= self.entries());
        }
        while i < n
            invariant
                n == self.mapping@.len(),
                i <= n,
                name@ == names::spec_file_name(song_path@),
                spec_lookup(self.entries(), name@) == spec_lookup(
                    self.entries().skip(i as int),
                    name@,
                ),
            decreases n - i,
        {
            let p = &self.mapping[i];
            proof {
                assert(self.entries().skip(i as int)[0] == self.entries()[i as int]);
            }
            if p.0 == name {
                return Some(p.1.clone());
            }
            proof {
                assert(self.entries().skip(i as int).drop_first() == self.entries().skip(i + 1));
            }
            i = i + 1;
        }
        None
    }
}

/// One entry of the current directory's catalog.
pub struct MusicItem {
    /// Bare file or directory name.
    pub name: String,
    pub is_dir: bool,
    /// Overlay video path from the name mapping; absent for directories and
    /// unmapped files.
    pub video_path: Option<String>,
    /// Full path of the music file; absent for directories.
    pub music_path: Option<String>,
}

impl MusicItem {
    /// Directories carry neither a media nor an overlay path.
    pub open spec fn wf(self) -> bool {
        self.is_dir ==> self.video_path is None && self.music_path is None
    }

    /// The full path of this entry's music file, if it has one.
    pub fn get_music_path(&self) -> (r: Option<String>)
        ensures
            r == self.music_path,
    {
        match &self.music_path {
            Some(p) => Some(p.clone()),
            None => None,
        }
    }
}

/// One raw filesystem entry, as the caller enumerates a directory.
pub struct RawEntry {
    /// Bare entry name.
    pub name: String,
    pub is_dir: bool,
    /// Full path of the entry.
    pub path: String,
}

/// Overlay video path a catalog builder attaches to a file called `name`.
pub open spec fn spec_video_for(mapping: Option<SongMapping>, name: Seq<char>) -> Option<
    Seq<char>,
> {
    match mapping {
        Some(m) => spec_lookup(m.entries(), names::spec_file_name(name)),
        None => None,
    }
}

/// How one catalog item must reflect one raw entry under `mapping`.
pub open spec fn spec_built_item(e: RawEntry, it: MusicItem, mapping: Option<SongMapping>) -> bool {
    &&& it.name@ == e.name@
    &&& it.is_dir == e.is_dir
    &&& it.wf()
    &&& !e.is_dir ==> {
        &&& (it.music_path matches Some(p) && p@ == e.path@)
        &&& (match it.video_path {
            Some(v) => spec_video_for(mapping, e.name@) == Some(v@),
            None => spec_video_for(mapping, e.name@) is None,
        })
    }
}

/// What the caller must do to the overlay process world.
#[derive(Clone, Debug)]
pub enum OverlayCommand {
    /// Terminate the owned overlay process with this token; if the direct
    /// kill fails, follow up as `kill_followup` says.
    Kill(u64),
    /// Best-effort sweep: kill every overlay process by its known name and
    /// wait for the sweep to finish.
    Sweep,
    /// Spawn a new overlay process for this video path and register the
    /// token it gets.
    Spawn(String),
}

/// Whether a direct kill that ended with `direct_kill_ok` must be followed
/// by the broad sweep.  The owned handle can be stale (the process may have
/// died independently), so a failed direct kill escalates rather than
/// aborting.
pub fn kill_followup(direct_kill_ok: bool) -> (c: Option<OverlayCommand>)
    ensures
        c is Some <==> !direct_kill_ok,
        c matches Some(cmd) ==> cmd == OverlayCommand::Sweep,
{
    if direct_kill_ok {
        None
    } else {
        Some(OverlayCommand::Sweep)
    }
}

/// Catalog of one directory plus selection, scroll window, and the owned
/// overlay process token.
pub struct MusicBrowser {
    /// Directory the catalog lists.
    pub current_path: String,
    /// The catalog, in filesystem enumeration order.
    pub items: Vec<MusicItem>,
    /// Index of the selected entry.
    pub selected_index: usize,
    /// Token of the owned overlay process, if one is registered.
    pub current_player: Option<u64>,
    /// First catalog index inside the visible window.
    pub scroll_offset: usize,
}

/// Errors of the browser's navigation.
#[derive(Clone, Copy, PartialEq, Eq, Structural, Debug)]
pub enum BrowserError {
    /// The activated entry is not a directory of the catalog.
    NotADirectory,
}

impl MusicBrowser {
    /// Token of the owned overlay process, if one is registered.
    pub open spec fn overlay_token(self) -> Option<u64> {
        self.current_player
    }

    /// Selection and scroll window sit inside the catalog:
    /// on a non-empty catalog the selected index is in range and, for a
    /// positive window size, visible.
    pub open spec fn selector_wf(self, visible_count: int) -> bool {
        if self.items@.len() == 0 {
            self.selected_index == 0 && self.scroll_offset == 0
        } else {
            &&& self.selected_index < self.items@.len()
            &&& visible_count > 0 ==> self.scroll_offset <= self.selected_index
                < self.scroll_offset + visible_count
        }
    }

    /// Selection move one step up: the window top follows the selection.
    pub open spec fn spec_move_up(self) -> MusicBrowser {
        if self.selected_index > 0 {
            let ns = (self.selected_index - 1) as usize;
            MusicBrowser {
                selected_index: ns,
                scroll_offset: if ns < self.scroll_offset {
                    ns
                } else {
                    self.scroll_offset
                },
                ..self
            }
        } else {
            self
        }
    }

    /// Selection move one step down: the window slides so the selection is
    /// its last visible row when it would fall below.
    pub open spec fn spec_move_down(self, visible_count: int) -> MusicBrowser {
        if self.selected_index + 1 < self.items@.len() {
            let ns = (self.selected_index + 1) as usize;
            MusicBrowser {
                selected_index: ns,
                scroll_offset: if ns >= self.scroll_offset + visible_count {
                    (ns - visible_count + 1) as usize
                } else {
                    self.scroll_offset
                },
                ..self
            }
        } else {
            self
        }
    }

    /// A fresh browser over an already listed catalog: selection and scroll
    /// start at the top, no overlay process is owned.
    pub fn new(current_path: String, items: Vec<MusicItem>) -> (b: MusicBrowser)
        ensures
            b.current_path@ == current_path@,
            b.items@ == items@,
            b.selected_index == 0,
            b.scroll_offset == 0,
            b.overlay_token() is None,
    {
        MusicBrowser { current_path, items, selected_index: 0, current_player: None, scroll_offset: 0 }
    }

    /// The selected catalog entry, when the selection is in range.
    pub fn select_item(&self) -> (r: Option<&MusicItem>)
        ensures
            match r {
                Some(it) => self.selected_index < self.items@.len() && *it
                    == self.items@[self.selected_index as int],
                None => self.selected_index >= self.items@.len(),
            },
    {
        if self.selected_index < self.items.len() {
            Some(&self.items[self.selected_index])
        } else {
            None
        }
    }

    /// Moves the selection one step up, never past the top, and snaps the
    /// window down to keep the selection visible.
    pub fn move_selection_up(&mut self, visible_count: usize)
        ensures
            *final(self) == old(self).spec_move_up(),
            visible_count >= 1 && old(self).selector_wf(visible_count as int) ==> final(self).selector_wf(visible_count as int),
    {
        if self.selected_index > 0 {
            self.selected_index = self.selected_index - 1;
            if self.selected_index < self.scroll_offset {
                self.scroll_offset = self.selected_index;
            }
        }
    }

    /// Moves the selection one step down, never past the last entry, and
    /// slides the window up to keep the selection its last visible row.
    pub fn move_selection_down(&mut self, visible_count: usize)
        ensures
            *final(self) == old(self).spec_move_down(visible_count as int),
            visible_count >= 1 && old(self).selector_wf(visible_count as int) ==> final(self).selector_wf(visible_count as int),
    {
        if self.items.len() > 0 && self.selected_index < self.items.len() - 1 {
            self.selected_index = self.selected_index + 1;
            let past_window = match self.scroll_offset.checked_add(visible_count) {
                Some(limit) => self.selected_index >= limit,
                None => false,
            };
            if past_window {
                self.scroll_offset = self.selected_index - visible_count + 1;
            }
        }
    }

    /// Bounds of the visible window: the catalog rows
    /// `[start, end)` are on screen, and row `i` of the window is catalog
    /// entry `start + i`.
    pub fn visible_bounds(&self, visible_count: usize) -> (r: (usize, usize))
        requires
            self.scroll_offset <= self.items@.len(),
        ensures
            r.0 == self.scroll_offset,
            r.1 == if self.scroll_offset + visible_count < self.items@.len() {
                self.scroll_offset + visible_count
            } else {
                self.items@.len() as int
            },
            r.0 <= r.1 <= self.items@.len(),
    {
        let end = match self.scroll_offset.checked_add(visible_count) {
            Some(e) => if e < self.items.len() {
                e
            } else {
                self.items.len()
            },
            None => self.items.len(),
        };
        (self.scroll_offset, end)
    }

    /// Checks that `dir_name` names a directory of the catalog and yields
    /// the path to list; the browser itself is untouched, so a failed
    /// activation leaves selection and catalog unchanged.
    pub fn enter_directory(&self, dir_name: &str) -> (r: Result<String, BrowserError>)
        ensures
            match r {
                Ok(p) => spec_catalog_has_dir(self.items@, dir_name@) && p@ == names::spec_join(
                    self.current_path@,
                    dir_name@,
                ),
                Err(e) => e == BrowserError::NotADirectory && !spec_catalog_has_dir(
                    self.items@,
                    dir_name@,
                ),
            },
    {
        let dname: String = dir_name.to_owned();
        let n = self.items.len();
        let mut i: usize = 0;
        while i < n
            invariant
                n == self.items@.len(),
                dname@ == dir_name@,
                i <= n,
                forall|j: int|
                    0 <= j < i ==> !(#[trigger] self.items@[j].is_dir && self.items@[j].name@
                        == dir_name@),
            decreases n - i,
        {
            let it = &self.items[i];
            if it.is_dir && it.name == dname {
                proof {
                    assert(self.items@[i as int].is_dir && self.items@[i as int].name@
                        == dir_name@);
                }
                return Ok(names::join_path(self.current_path.as_str(), dir_name));
            }
            i = i + 1;
        }
        Err(BrowserError::NotADirectory)
    }

    /// Replaces the catalog with the listing of an entered directory and
    /// resets selection and scroll to the top, whatever they were.
    pub fn apply_directory(&mut self, new_path: String, items: Vec<MusicItem>)
        ensures
            final(self).current_path@ == new_path@,
            final(self).items@ == items@,
            final(self).selected_index == 0,
            final(self).scroll_offset == 0,
            final(self).overlay_token() == old(self).overlay_token(),
    {
        self.current_path = new_path;
        self.items = items;
        self.selected_index = 0;
        self.scroll_offset = 0;
    }

    /// Starts playing the selected file's overlay: asks the caller to kill
    /// the owned overlay process first, then to spawn one for the file's
    /// video path if it has one.  A selected directory, or no selection,
    /// asks nothing.
    pub fn play_selected(&mut self) -> (cmds: Vec<OverlayCommand>)
        ensures
            ({
                let items = old(self).items@;
                let sel = old(self).selected_index as int;
                if sel < items.len() && !items[sel].is_dir {
                    &&& final(self).overlay_token() is None
                    &&& final(self).current_path@ == old(self).current_path@
                    &&& final(self).items@ == old(self).items@
                    &&& final(self).selected_index == old(self).selected_index
                    &&& final(self).scroll_offset == old(self).scroll_offset
                    &&& cmds@.len() == (if old(self).overlay_token() is Some {
                        1int
                    } else {
                        0int
                    }) + (if items[sel].video_path is Some {
                        1int
                    } else {
                        0int
                    })
                    &&& (old(self).overlay_token() matches Some(t) ==> cmds@[0]
                        == OverlayCommand::Kill(t))
                    &&& (items[sel].video_path matches Some(v) ==> (cmds@.last()
                        matches OverlayCommand::Spawn(p) && p@ == v@))
                } else {
                    *final(self) == *old(self) && cmds@.len() == 0
                }
            }),
    {
        let mut cmds: Vec<OverlayCommand> = Vec::new();
        if self.selected_index < self.items.len() {
            if !self.items[self.selected_index].is_dir {
                match self.current_player {
                    Some(t) => {
                        cmds.push(OverlayCommand::Kill(t));
                        self.current_player = None;
                    },
                    None => {},
                }
                match &self.items[self.selected_index].video_path {
                    Some(v) => {
                        cmds.push(OverlayCommand::Spawn(v.clone()));
                    },
                    None => {},
                }
            }
        }
        cmds
    }

    /// Records the token of a freshly spawned overlay process.  The previous
    /// owner must have been released first: at most one process is ever
    /// owned.
    pub fn register_overlay(&mut self, token: u64)
        requires
            old(self).overlay_token() is None,
        ensures
            final(self).overlay_token() == Some(token),
            final(self).current_path@ == old(self).current_path@,
            final(self).items@ == old(self).items@,
            final(self).selected_index == old(self).selected_index,
            final(self).scroll_offset == old(self).scroll_offset,
    {
        self.current_player = Some(token);
    }

    /// Releases the owned overlay process token, handing it to the caller
    /// for termination.  A `None` result means nothing was owned and nothing
    /// is to kill.
    pub fn kill_current_player(&mut self) -> (r: Option<u64>)
        ensures
            final(self).overlay_token() is None,
            r == old(self).overlay_token(),
            final(self).current_path@ == old(self).current_path@,
            final(self).items@ == old(self).items@,
            final(self).selected_index == old(self).selected_index,
            final(self).scroll_offset == old(self).scroll_offset,
    {
        let r = self.current_player;
        self.current_player = None;
        r
    }

    /// Same release as `kill_current_player`, for mode exit and teardown;
    /// safe to call when nothing was ever spawned.
    pub fn cleanup(&mut self) -> (r: Option<u64>)
        ensures
            final(self).overlay_token() is None,
            r == old(self).overlay_token(),
            final(self).current_path@ == old(self).current_path@,
            final(self).items@ == old(self).items@,
            final(self).selected_index == old(self).selected_index,
            final(self).scroll_offset == old(self).scroll_offset,
    {
        self.kill_current_player()
    }

    /// Token of the owned overlay process, if one is registered.
    pub fn current_overlay(&self) -> (r: Option<u64>)
        ensures
            r == self.overlay_token(),
    {
        self.current_player
    }

    /// Full music path of the selected entry, if the selection is a file.
    pub fn get_selected_music_path(&self) -> (r: Option<String>)
        ensures
            r == if self.selected_index < self.items@.len() {
                self.items@[self.selected_index as int].music_path
            } else {
                None::<String>
            },
    {
        match self.select_item() {
            Some(it) => it.get_music_path(),
            None => None,
        }
    }
}

/// Whether the catalog holds a directory entry called `name`.
pub open spec fn spec_catalog_has_dir(items: Seq<MusicItem>, name: Seq<char>) -> bool {
    exists|i: int| 0 <= i < items.len() && (#[trigger] items[i].is_dir) && items[i].name@ == name
}

/// Builds the catalog for one directory: one item per raw entry, in
/// enumeration order, each file carrying its full path and the overlay
/// video its name is mapped to, each directory carrying neither.
pub fn build_items(entries: &Vec<RawEntry>, mapping: &Option<SongMapping>) -> (items: Vec<
    MusicItem,
>)
    ensures
        items@.len() == entries@.len(),
        forall|i: int|
            0 <= i < entries@.len() ==> spec_built_item(
                entries@[i],
                #[trigger] items@[i],
                *mapping,
            ),
{
    let mut items: Vec<MusicItem> = Vec::new();
    let n = entries.len();
    let mut i: usize = 0;
    while i < n
        invariant
            n == entries@.len(),
            i <= n,
            items@.len() == i,
            forall|j: int|
                0 <= j < i ==> spec_built_item(entries@[j], #[trigger] items@[j], *mapping),
        decreases n - i,
    {
        let e = &entries[i];
        let video_path: Option<String> = if e.is_dir {
            None
        } else {
            match mapping {
                Some(m) => m.get_video_path(e.name.as_str()),
                None => None,
            }
        };
        let music_path: Option<String> = if e.is_dir {
            None
        } else {
            Some(e.path.clone())
        };
        items.push(
            MusicItem { name: e.name.clone(), is_dir: e.is_dir, video_path, music_path },
        );
        i = i + 1;
    }
    items
}

/// The overlay processes alive in the surrounding system, by token, may
/// only ever be the one the browser owns.
pub open spec fn overlay_inv(live: Set<u64>, owned: Option<u64>) -> bool {
    forall|t: u64| #[trigger] live.contains(t) ==> owned == Some(t)
}

/// Effect of the kill step on the set of live overlay processes: a direct
/// kill removes the owned process; when it fails, the broad sweep removes
/// every overlay process.
pub open spec fn spec_kill_effect(live: Set<u64>, token: u64, direct_ok: bool) -> Set<u64> {
    if direct_ok {
        live.remove(token)
    } else {
        Set::empty()
    }
}

/// Live overlay processes after the whole play protocol: kill the owned
/// process if any (directly or by sweep), then spawn the new one.
pub open spec fn spec_play_protocol_live(
    live: Set<u64>,
    owned: Option<u64>,
    direct_ok: bool,
    new_token: u64,
) -> Set<u64> {
    let after_kill = match owned {
        Some(t) => spec_kill_effect(live, t, direct_ok),
        None => live,
    };
    after_kill.insert(new_token)
}

/// Law: from any state where at most the owned overlay process is alive,
/// playing a new overlay leaves exactly one process alive — the new one —
/// whether or not the direct kill of the old one succeeded.  The protocol
/// is the one `play_selected` requests of the caller (release the owned
/// token, kill it directly or by the sweep of `kill_followup`, spawn) and
/// `register_overlay` completes.
pub proof fn lemma_play_yields_single_overlay(
    live: Set<u64>,
    owned: Option<u64>,
    direct_ok: bool,
    new_token: u64,
)
    requires
        overlay_inv(live, owned),
    ensures
        spec_play_protocol_live(live, owned, direct_ok, new_token) =~= set![new_token],
        overlay_inv(spec_play_protocol_live(live, owned, direct_ok, new_token), Some(new_token)),
{
}

/// Law: from any state where at most the owned overlay process is alive,
/// the kill step alone leaves no overlay process alive, so a failed spawn
/// afterwards leaves none rather than two.
pub proof fn lemma_kill_leaves_none(live: Set<u64>, owned: Option<u64>, direct_ok: bool)
    requires
        overlay_inv(live, owned),
    ensures
        (match owned {
            Some(t) => spec_kill_effect(live, t, direct_ok),
            None => live,
        }) =~= Set::<u64>::empty(),
{
}

/// Law: the selector moves keep selection and window well-formed for any
/// positive window size: the selected index stays inside the catalog and
/// inside the window.
pub proof fn lemma_selector_moves_preserve_wf(b: MusicBrowser, visible_count: int)
    requires
        visible_count >= 1,
        b.items@.len() <= usize::MAX,
        b.selector_wf(visible_count),
    ensures
        b.spec_move_up().selector_wf(visible_count),
        b.spec_move_down(visible_count).selector_wf(visible_count),
{
    if b.selected_index + 1 < b.items@.len() {
        let ns = b.selected_index + 1;
        if ns >= b.scroll_offset + visible_count {
            assert(ns - visible_count + 1 >= 1);
            assert(ns - visible_count + 1 <= ns);
            assert(b.spec_move_down(visible_count).scroll_offset == ns - visible_count + 1);
        }
    }
}

/// One selector move: a step down when `down` holds, else a step up.
pub open spec fn spec_move(b: MusicBrowser, down: bool, visible_count: int) -> MusicBrowser {
    if down {
        b.spec_move_down(visible_count)
    } else {
        b.spec_move_up()
    }
}

/// The selector after a whole sequence of moves, applied left to right.
pub open spec fn spec_apply_moves(b: MusicBrowser, moves: Seq<bool>, visible_count: int) -> MusicBrowser
    decreases moves.len(),
{
    if moves.len() == 0 {
        b
    } else {
        spec_apply_moves(spec_move(b, moves[0], visible_count), moves.drop_first(), visible_count)
    }
}

/// Law: under every sequence of selection moves, for any positive window
/// size, the selection stays inside the catalog and the window keeps
/// showing it.
pub proof fn lemma_selector_wf_under_all_move_sequences(
    b: MusicBrowser,
    moves: Seq<bool>,
    visible_count: int,
)
    requires
        visible_count >= 1,
        b.items@.len() <= usize::MAX,
        b.selector_wf(visible_count),
    ensures
        spec_apply_moves(b, moves, visible_count).selector_wf(visible_count),
    decreases moves.len(),
{
    if moves.len() > 0 {
        lemma_selector_moves_preserve_wf(b, visible_count);
        let b1 = spec_move(b, moves[0], visible_count);
        assert(b1.items@ == b.items@);
        lemma_selector_wf_under_all_move_sequences(b1, moves.drop_first(), visible_count);
    }
}

} // verus!
