//! The playlists page: a row of scopes (the saved playlists, then each
//! online source), the playlists of the chosen scope, and the songs of the
//! chosen playlist.  Loaded lists are cached per source and per playlist.
use vstd::prelude::*;
use crate::cache::{ItemCache, SourceCache};
use crate::input::{KeyCode, KeyEvent, MOD_CONTROL, MOD_NONE, MOD_SHIFT, MouseButton, MouseEvent, MouseEventKind};
use crate::layout::{
    PageChunks, Rect, bordered_inner, bottom_of, first_hit, hit_index, inner_of, inside, page_placed,
    sat_add16, split_page, tab_rects, tabs_placed,
};
use crate::text::{decimal, decimal_digits, truncate_chars, truncated};
use crate::listnav::{
    ensure_visible, last_index, min_int, sat_sub, step_down, step_up, select_down, select_up,
    page_down, visible_offset, wheel_rows,
};
use crate::model::{
    source_caption, source_label, source_name, source_title, source_code,
    NotificationLevel, advance_request_id, joined, next_request_id,
    AppAction, InsertPosition, Notification, Playlist, SongInfo, SourceId, copy_playlists,
    copy_songs,
};

verus! {

/// What the page needs loaded next.
#[derive(Debug, Clone, PartialEq, Eq)]
pub enum PlaylistLoadRequest {
    List { source: SourceId },
    Songs { source: SourceId, playlist_id: String },
}

/// State of the playlists page.
pub struct PlaylistsPage {
    pub scopes: Vec<Option<SourceId>>,
    pub scope_index: usize,
    pub playlists: Vec<Playlist>,
    pub songs: Vec<SongInfo>,
    pub selected: usize,
    pub selected_playlist: Option<usize>,
    pub list_loaded: bool,
    pub list_loading: bool,
    pub songs_loaded: bool,
    pub songs_loading: bool,
    pub playlist_scroll_offset: usize,
    pub song_scroll_offset: usize,
    pub error_message: Option<String>,
    pub list_cache: SourceCache<Playlist>,
    pub song_cache: ItemCache<SongInfo>,
}

/// The online source of the chosen scope; none for the saved playlists
/// or an index out of range.
pub open spec fn source_of(p: PlaylistsPage) -> Option<SourceId> {
    if p.scope_index < p.scopes@.len() {
        p.scopes@[p.scope_index as int]
    } else {
        None
    }
}

/// The playlist whose songs are shown, if one is open.
pub open spec fn playlist_of(p: PlaylistsPage) -> Option<Playlist> {
    match p.selected_playlist {
        Some(i) => if i < p.playlists@.len() {
            Some(p.playlists@[i as int])
        } else {
            None
        },
        None => None,
    }
}

/// What to load next: the songs of the open playlist when they are
/// neither loaded nor loading; else, with no playlist open, the list of
/// the chosen online source when it is neither loaded nor loading.
pub open spec fn next_request(p: PlaylistsPage) -> Option<PlaylistLoadRequest> {
    match playlist_of(p) {
        Some(pl) => if !p.songs_loading && !p.songs_loaded {
            Some(PlaylistLoadRequest::Songs { source: pl.source, playlist_id: pl.id })
        } else {
            None
        },
        None => match source_of(p) {
            Some(source) => if !p.list_loading && !p.list_loaded {
                Some(PlaylistLoadRequest::List { source })
            } else {
                None
            },
            None => None,
        },
    }
}

/// The length of the list the selection moves in.
pub open spec fn list_len(p: PlaylistsPage) -> int {
    if p.selected_playlist is Some {
        p.songs@.len() as int
    } else {
        p.playlists@.len() as int
    }
}

/// The scopes of a page over `sources`: the saved playlists first.
pub open spec fn scopes_for(sources: Seq<SourceId>) -> Seq<Option<SourceId>> {
    seq![None].add(sources.map_values(|s: SourceId| Some(s)))
}

/// `q` is `p` after a request started loading.
pub open spec fn began(p: PlaylistsPage, request: PlaylistLoadRequest, q: PlaylistsPage) -> bool {
    match request {
        PlaylistLoadRequest::List { .. } => q == PlaylistsPage {
            error_message: None,
            list_loading: true,
            list_loaded: false,
            ..p
        },
        PlaylistLoadRequest::Songs { .. } => q == PlaylistsPage {
            error_message: None,
            songs_loading: true,
            songs_loaded: false,
            ..p
        },
    }
}

/// `q` is `p` after the saved playlists were read: they are shown when
/// the saved scope is chosen and no playlist is open.
pub open spec fn favorites_synced(p: PlaylistsPage, favorites: Seq<Playlist>, q: PlaylistsPage) -> bool {
    if source_of(p) is Some || p.selected_playlist is Some {
        q == p
    } else {
        &&& q.playlists@ == favorites
        &&& q == PlaylistsPage {
            playlists: q.playlists,
            list_loaded: true,
            list_loading: false,
            selected: min_int(p.selected as int, last_index(favorites.len() as int)) as usize,
            ..p
        }
    }
}

/// `q` is `p` after the playlists of `source` arrived: they are cached,
/// and shown when `source` is chosen and no playlist is open.
pub open spec fn list_arrived(
    p: PlaylistsPage,
    source: SourceId,
    playlists: Seq<Playlist>,
    q: PlaylistsPage,
) -> bool {
    &&& q.list_cache@ == p.list_cache@.insert(source, playlists)
    &&& if source_of(p) != Some(source) || p.selected_playlist is Some {
        q == PlaylistsPage { list_cache: q.list_cache, ..p }
    } else {
        &&& q.playlists@ == playlists
        &&& q == PlaylistsPage {
            playlists: q.playlists,
            list_cache: q.list_cache,
            list_loading: false,
            list_loaded: true,
            error_message: None,
            selected: min_int(p.selected as int, last_index(playlists.len() as int)) as usize,
            playlist_scroll_offset: 0,
            ..p
        }
    }
}

/// `q` is `p` after the songs of playlist `playlist_id` on `source`
/// arrived: they are cached, and shown when that playlist is open.
pub open spec fn songs_arrived(
    p: PlaylistsPage,
    source: SourceId,
    playlist_id: Seq<char>,
    songs: Seq<SongInfo>,
    q: PlaylistsPage,
) -> bool {
    &&& q.song_cache@ == p.song_cache@.insert((source, playlist_id), songs)
    &&& if playlist_of(p) is Some && playlist_of(p)->0.source == source && playlist_of(p)->0.id@
        == playlist_id {
        &&& q.songs@ == songs
        &&& q == PlaylistsPage {
            songs: q.songs,
            song_cache: q.song_cache,
            songs_loading: false,
            songs_loaded: true,
            error_message: None,
            selected: 0,
            song_scroll_offset: 0,
            ..p
        }
    } else {
        q == PlaylistsPage { song_cache: q.song_cache, ..p }
    }
}

/// `q` is `p` after a request failed with `message`.
pub open spec fn failed(
    p: PlaylistsPage,
    request: PlaylistLoadRequest,
    message: String,
    q: PlaylistsPage,
) -> bool {
    match request {
        PlaylistLoadRequest::List { source } => if source_of(p) == Some(source)
            && p.selected_playlist is None {
            &&& q.playlists@.len() == 0
            &&& q == PlaylistsPage {
                playlists: q.playlists,
                list_loading: false,
                list_loaded: true,
                error_message: Some(message),
                selected: 0,
                ..p
            }
        } else {
            q == PlaylistsPage { selected: 0, ..p }
        },
        PlaylistLoadRequest::Songs { source, playlist_id } => if playlist_of(p) is Some
            && playlist_of(p)->0.source == source && playlist_of(p)->0.id@ == playlist_id@ {
            &&& q.songs@.len() == 0
            &&& q == PlaylistsPage {
                songs: q.songs,
                songs_loading: false,
                songs_loaded: true,
                error_message: Some(message),
                selected: 0,
                ..p
            }
        } else {
            q == PlaylistsPage { selected: 0, ..p }
        },
    }
}

/// `q` is `p` after opening the selected playlist: its songs come from
/// the cache when it holds them, otherwise the list is empty, not loaded.
pub open spec fn entered(p: PlaylistsPage, q: PlaylistsPage) -> bool {
    if p.selected_playlist is Some || p.selected >= p.playlists@.len() {
        q == p
    } else {
        let pl = p.playlists@[p.selected as int];
        let key = (pl.source, pl.id@);
        &&& q.songs_loaded == p.song_cache@.contains_key(key)
        &&& q.songs@ == if p.song_cache@.contains_key(key) {
            p.song_cache@[key]
        } else {
            Seq::<SongInfo>::empty()
        }
        &&& q == PlaylistsPage {
            songs: q.songs,
            songs_loaded: q.songs_loaded,
            selected_playlist: Some(p.selected),
            selected: 0,
            song_scroll_offset: 0,
            error_message: None,
            songs_loading: false,
            ..p
        }
    }
}

/// `q` is `p` after closing the open playlist; the selection goes back to
/// that playlist.
pub open spec fn left(p: PlaylistsPage, q: PlaylistsPage) -> bool {
    let index = match p.selected_playlist {
        Some(i) => i as int,
        None => 0,
    };
    &&& q.songs@.len() == 0
    &&& q == PlaylistsPage {
        selected_playlist: None,
        songs: q.songs,
        songs_loaded: false,
        songs_loading: false,
        error_message: None,
        selected: min_int(index, last_index(p.playlists@.len() as int)) as usize,
        song_scroll_offset: 0,
        ..p
    }
}

/// `q` is `p` after a refresh: the open playlist's songs, or the chosen
/// source's list, are dropped from the cache and emptied; on the saved
/// scope the saved playlists are read again.
pub open spec fn refreshed(p: PlaylistsPage, favorites: Seq<Playlist>, q: PlaylistsPage) -> bool {
    match playlist_of(p) {
        Some(pl) => {
            &&& q.song_cache@ == p.song_cache@.remove((pl.source, pl.id@))
            &&& q.songs@.len() == 0
            &&& q == PlaylistsPage {
                error_message: None,
                song_cache: q.song_cache,
                songs: q.songs,
                songs_loaded: false,
                songs_loading: false,
                selected: 0,
                song_scroll_offset: 0,
                ..p
            }
        },
        None => match source_of(p) {
            Some(source) => {
                &&& q.list_cache@ == p.list_cache@.remove(source)
                &&& q.playlists@.len() == 0
                &&& q == PlaylistsPage {
                    error_message: None,
                    list_cache: q.list_cache,
                    playlists: q.playlists,
                    list_loaded: false,
                    list_loading: false,
                    selected: 0,
                    playlist_scroll_offset: 0,
                    ..p
                }
            },
            None => favorites_synced(PlaylistsPage { error_message: None, ..p }, favorites, q),
        },
    }
}

/// `q` is `p` after choosing the scope at `index`: the playlist view is
/// closed; an online source's list comes from the cache when it holds it,
/// and the saved scope shows the saved playlists.
pub open spec fn switched(
    p: PlaylistsPage,
    index: int,
    favorites: Seq<Playlist>,
    q: PlaylistsPage,
) -> bool {
    if index >= p.scopes@.len() || index == p.scope_index {
        q == p
    } else {
        let scope = p.scopes@[index];
        &&& q.playlists@ == match scope {
            Some(source) => if p.list_cache@.contains_key(source) {
                p.list_cache@[source]
            } else {
                Seq::<Playlist>::empty()
            },
            None => favorites,
        }
        &&& q.list_loaded == match scope {
            Some(source) => p.list_cache@.contains_key(source),
            None => true,
        }
        &&& q.songs@.len() == 0
        &&& q == PlaylistsPage {
            scope_index: index as usize,
            selected_playlist: None,
            songs: q.songs,
            songs_loaded: false,
            songs_loading: false,
            error_message: None,
            selected: 0,
            playlist_scroll_offset: 0,
            song_scroll_offset: 0,
            playlists: q.playlists,
            list_loaded: q.list_loaded,
            list_loading: false,
            ..p
        }
    }
}

/// The scope before the current one, wrapping.
pub open spec fn previous_scope_index(p: PlaylistsPage) -> int {
    if p.scope_index == 0 {
        p.scopes@.len() - 1
    } else {
        p.scope_index - 1
    }
}

/// The scope after the current one, wrapping.
pub open spec fn next_scope_index(p: PlaylistsPage) -> int {
    (p.scope_index + 1) % (p.scopes@.len() as int)
}

/// The playlist a favorite toggle acts on: the open one, else the
/// selected one.
pub open spec fn toggle_target(p: PlaylistsPage) -> Option<Playlist> {
    match playlist_of(p) {
        Some(pl) => Some(pl),
        None => if p.selected < p.playlists@.len() {
            Some(p.playlists@[p.selected as int])
        } else {
            None
        },
    }
}

/// What a key press does on the playlists page.
#[derive(Debug, Clone, Copy, PartialEq, Eq, Structural)]
pub enum PlaylistsCommand {
    PreviousScope,
    NextScope,
    Up,
    Down,
    First,
    Last,
    PageUp,
    PageDown,
    Activate,
    Add(InsertPosition),
    Leave,
    ToggleFavorite,
    Refresh,
    Ignore,
}

/// The command a key stands for, `open` telling whether a playlist's
/// songs are shown.
pub open spec fn command_of(key: KeyEvent, open: bool) -> PlaylistsCommand {
    let m = key.modifiers;
    let c = key.code;
    if (m == MOD_CONTROL && (c == KeyCode::Left || c == KeyCode::Char('h'))) || (m == MOD_NONE
        && c == KeyCode::Char('[')) {
        PlaylistsCommand::PreviousScope
    } else if (m == MOD_CONTROL && c == KeyCode::Right) || (m == MOD_NONE && c == KeyCode::Char(
        ']',
    )) {
        PlaylistsCommand::NextScope
    } else if m == MOD_NONE && c == KeyCode::Left && !open {
        PlaylistsCommand::PreviousScope
    } else if m == MOD_NONE && c == KeyCode::Right && !open {
        PlaylistsCommand::NextScope
    } else if m == MOD_NONE && (c == KeyCode::Up || c == KeyCode::Char('e')) {
        PlaylistsCommand::Up
    } else if m == MOD_NONE && (c == KeyCode::Down || c == KeyCode::Char('n')) {
        PlaylistsCommand::Down
    } else if m == MOD_NONE && (c == KeyCode::Home || c == KeyCode::Char('g')) {
        PlaylistsCommand::First
    } else if (m == MOD_NONE && (c == KeyCode::End || c == KeyCode::Char('G'))) || (m == MOD_SHIFT
        && c == KeyCode::Char('G')) {
        PlaylistsCommand::Last
    } else if (m == MOD_CONTROL && c == KeyCode::Char('u')) || (m == MOD_NONE && c
        == KeyCode::PageUp) {
        PlaylistsCommand::PageUp
    } else if (m == MOD_CONTROL && c == KeyCode::Char('d')) || (m == MOD_NONE && c
        == KeyCode::PageDown) {
        PlaylistsCommand::PageDown
    } else if m == MOD_NONE && (c == KeyCode::Enter || c == KeyCode::Char('\r') || c
        == KeyCode::Char('i')) {
        PlaylistsCommand::Activate
    } else if m == MOD_NONE && c == KeyCode::Char('a') && open {
        PlaylistsCommand::Add(InsertPosition::End)
    } else if ((m == MOD_NONE || m == MOD_SHIFT) && c == KeyCode::Char('A')) && open {
        PlaylistsCommand::Add(InsertPosition::Next)
    } else if m == MOD_NONE && (c == KeyCode::Char('h') || c == KeyCode::Left || c == KeyCode::Esc)
        && open {
        PlaylistsCommand::Leave
    } else if (m == MOD_NONE && c == KeyCode::Char('f')) || (m == MOD_CONTROL && c
        == KeyCode::Char('l')) {
        PlaylistsCommand::ToggleFavorite
    } else if m == MOD_NONE && c == KeyCode::Char('r') {
        PlaylistsCommand::Refresh
    } else {
        PlaylistsCommand::Ignore
    }
}

/// Reads a key press as a playlists command.
pub fn playlists_command(key: &KeyEvent, open: bool) -> (r: PlaylistsCommand)
    ensures
        r == command_of(*key, open),
{
    let m = key.modifiers;
    let c = key.code;
    if (m == MOD_CONTROL && (c == KeyCode::Left || c == KeyCode::Char('h'))) || (m == MOD_NONE
        && c == KeyCode::Char('[')) {
        PlaylistsCommand::PreviousScope
    } else if (m == MOD_CONTROL && c == KeyCode::Right) || (m == MOD_NONE && c == KeyCode::Char(
        ']',
    )) {
        PlaylistsCommand::NextScope
    } else if m == MOD_NONE && c == KeyCode::Left && !open {
        PlaylistsCommand::PreviousScope
    } else if m == MOD_NONE && c == KeyCode::Right && !open {
        PlaylistsCommand::NextScope
    } else if m == MOD_NONE && (c == KeyCode::Up || c == KeyCode::Char('e')) {
        PlaylistsCommand::Up
    } else if m == MOD_NONE && (c == KeyCode::Down || c == KeyCode::Char('n')) {
        PlaylistsCommand::Down
    } else if m == MOD_NONE && (c == KeyCode::Home || c == KeyCode::Char('g')) {
        PlaylistsCommand::First
    } else if (m == MOD_NONE && (c == KeyCode::End || c == KeyCode::Char('G'))) || (m == MOD_SHIFT
        && c == KeyCode::Char('G')) {
        PlaylistsCommand::Last
    } else if (m == MOD_CONTROL && c == KeyCode::Char('u')) || (m == MOD_NONE && c
        == KeyCode::PageUp) {
        PlaylistsCommand::PageUp
    } else if (m == MOD_CONTROL && c == KeyCode::Char('d')) || (m == MOD_NONE && c
        == KeyCode::PageDown) {
        PlaylistsCommand::PageDown
    } else if m == MOD_NONE && (c == KeyCode::Enter || c == KeyCode::Char('\r') || c
        == KeyCode::Char('i')) {
        PlaylistsCommand::Activate
    } else if m == MOD_NONE && c == KeyCode::Char('a') && open {
        PlaylistsCommand::Add(InsertPosition::End)
    } else if ((m == MOD_NONE || m == MOD_SHIFT) && c == KeyCode::Char('A')) && open {
        PlaylistsCommand::Add(InsertPosition::Next)
    } else if m == MOD_NONE && (c == KeyCode::Char('h') || c == KeyCode::Left || c == KeyCode::Esc)
        && open {
        PlaylistsCommand::Leave
    } else if (m == MOD_NONE && c == KeyCode::Char('f')) || (m == MOD_CONTROL && c
        == KeyCode::Char('l')) {
        PlaylistsCommand::ToggleFavorite
    } else if m == MOD_NONE && c == KeyCode::Char('r') {
        PlaylistsCommand::Refresh
    } else {
        PlaylistsCommand::Ignore
    }
}

/// What handling a key asks of the application: an action, or a
/// favorite toggle of a playlist (which touches the saved playlists).
#[derive(Debug, Clone, PartialEq, Eq)]
pub enum PlaylistsInput {
    Action(AppAction),
    ToggleFavorite(Playlist),
}

/// `q` and the returned `r` are what `command` does to `p`;
/// `favorites` are the saved playlists as stored.
pub open spec fn command_effect(
    p: PlaylistsPage,
    command: PlaylistsCommand,
    wrap: bool,
    favorites: Seq<Playlist>,
    q: PlaylistsPage,
    r: PlaylistsInput,
) -> bool {
    match command {
        PlaylistsCommand::PreviousScope => r == PlaylistsInput::Action(AppAction::NoOp) && if p.scopes@.len() == 0 {
            q == p
        } else {
            switched(p, previous_scope_index(p), favorites, q)
        },
        PlaylistsCommand::NextScope => r == PlaylistsInput::Action(AppAction::NoOp) && if p.scopes@.len() == 0 {
            q == p
        } else {
            switched(p, next_scope_index(p), favorites, q)
        },
        PlaylistsCommand::Up => r == PlaylistsInput::Action(AppAction::NoOp) && q == PlaylistsPage {
            selected: step_up(p.selected as int, list_len(p), wrap) as usize,
            ..p
        },
        PlaylistsCommand::Down => r == PlaylistsInput::Action(AppAction::NoOp) && q == PlaylistsPage {
            selected: step_down(p.selected as int, list_len(p), wrap) as usize,
            ..p
        },
        PlaylistsCommand::First => r == PlaylistsInput::Action(AppAction::NoOp) && q == PlaylistsPage {
            selected: 0,
            ..p
        },
        PlaylistsCommand::Last => r == PlaylistsInput::Action(AppAction::NoOp) && q == PlaylistsPage {
            selected: last_index(list_len(p)) as usize,
            ..p
        },
        PlaylistsCommand::PageUp => r == PlaylistsInput::Action(AppAction::NoOp) && q == PlaylistsPage {
            selected: sat_sub(p.selected as int, 10) as usize,
            ..p
        },
        PlaylistsCommand::PageDown => r == PlaylistsInput::Action(AppAction::NoOp) && q == PlaylistsPage {
            selected: min_int(p.selected + 10, last_index(list_len(p))) as usize,
            ..p
        },
        PlaylistsCommand::Activate => if p.selected_playlist is Some && p.songs@.len() > 0 {
            q == p && r is Action && r->Action_0 is PlaySong && r->Action_0->songs@ == p.songs@ && r->Action_0->index
                == p.selected
        } else {
            r == PlaylistsInput::Action(AppAction::NoOp) && entered(p, q)
        },
        PlaylistsCommand::Add(position) => q == p && if p.selected < p.songs@.len() {
            r == PlaylistsInput::Action(
                AppAction::AddToQueue { song: p.songs@[p.selected as int], position },
            )
        } else {
            r == PlaylistsInput::Action(AppAction::NoOp)
        },
        PlaylistsCommand::Leave => r == PlaylistsInput::Action(AppAction::NoOp) && left(p, q),
        PlaylistsCommand::ToggleFavorite => q == p && match toggle_target(p) {
            Some(pl) => r == PlaylistsInput::ToggleFavorite(pl),
            None => r == PlaylistsInput::Action(AppAction::NoOp),
        },
        PlaylistsCommand::Refresh => r == PlaylistsInput::Action(AppAction::NoOp) && refreshed(
            p,
            favorites,
            q,
        ),
        PlaylistsCommand::Ignore => r == PlaylistsInput::Action(AppAction::NoOp) && q == p,
    }
}

/// The message shown after a playlist was removed from the saved ones.
pub open spec fn unfavorited_message() -> Seq<char> {
    seq!['已', '取', '消', '收', '藏', '歌', '单']
}

/// The message shown after a playlist was saved.
pub open spec fn favorited_message() -> Seq<char> {
    seq!['已', '收', '藏', '歌', '单']
}


/// Width of the playlist box when playlists and songs stand side by side.
pub const PLAYLIST_BOX_WIDTH: u16 = 34;

/// `q` and `r` are what a mouse event does to `p` on a page laid out as
/// `page`, whose tab row holds the tabs `tabs`:
/// the wheel moves the selection by `step` rows, a click on a scope tab
/// chooses it (`favorites` are the saved playlists), a click on a
/// playlist selects it (and opens it when `activate`), a click on a song
/// of the open playlist selects it (and plays from it when `activate`),
/// and a right click on a playlist, with none open, selects it and asks
/// to toggle it among the saved ones.
pub open spec fn mouse_effect(
    p: PlaylistsPage,
    event: MouseEvent,
    page: PageChunks,
    tabs: Seq<Rect>,
    step: int,
    activate: bool,
    favorites: Seq<Playlist>,
    q: PlaylistsPage,
    r: PlaylistsInput,
) -> bool {
    let column = event.column as int;
    let row = event.row as int;
    let tab = first_hit(tabs, column, row);
    let list_inner = inner_of(page.list);
    let list_index = p.playlist_scroll_offset + (row - list_inner.y);
    let song_inner = inner_of(page.songs);
    let song_y = sat_add16(song_inner.y as int, 1);
    let song_index = p.song_scroll_offset + (row - song_y);
    let none = PlaylistsInput::Action(AppAction::NoOp);
    match event.kind {
        MouseEventKind::ScrollUp => r == none && q == PlaylistsPage {
            selected: sat_sub(p.selected as int, step) as usize,
            ..p
        },
        MouseEventKind::ScrollDown => r == none && q == PlaylistsPage {
            selected: min_int(p.selected + step, last_index(list_len(p))) as usize,
            ..p
        },
        MouseEventKind::Down(MouseButton::Left) => if tab is Some {
            r == none && switched(p, tab->0, favorites, q)
        } else if inside(list_inner, column, row) {
            &&& r == none
            &&& if list_index < p.playlists@.len() {
                if activate {
                    entered(PlaylistsPage { selected: list_index as usize, ..p }, q)
                } else if p.selected_playlist is None {
                    q == PlaylistsPage { selected: list_index as usize, ..p }
                } else {
                    q == p
                }
            } else {
                q == p
            }
        } else if p.selected_playlist is Some && song_y <= row < bottom_of(song_inner) && song_index
            < p.songs@.len() {
            &&& q == PlaylistsPage { selected: song_index as usize, ..p }
            &&& if activate {
                r is Action && r->Action_0 is PlaySong && r->Action_0->songs@ == p.songs@
                    && r->Action_0->index == song_index
            } else {
                r == none
            }
        } else {
            r == none && q == p
        },
        MouseEventKind::Down(MouseButton::Right) => if p.selected_playlist is None && inside(
            list_inner,
            column,
            row,
        ) && list_index < p.playlists@.len() {
            &&& q == PlaylistsPage { selected: list_index as usize, ..p }
            &&& r == PlaylistsInput::ToggleFavorite(p.playlists@[list_index])
        } else {
            r == none && q == p
        },
        _ => r == none && q == p,
    }
}

/// An answer to request `id` for the playlists of `source` is still
/// wanted: `id` is the latest request and `source` is still shown.
pub open spec fn list_answer_wanted(p: PlaylistsPage, id: u64, latest: u64, source: SourceId) -> bool {
    id == latest && source_of(p) == Some(source)
}

/// An answer to request `id` for the songs of playlist `playlist_id` of
/// `source` is still wanted: `id` is the latest request and that playlist
/// is still open.
pub open spec fn songs_answer_wanted(
    p: PlaylistsPage,
    id: u64,
    latest: u64,
    source: SourceId,
    playlist_id: Seq<char>,
) -> bool {
    id == latest && playlist_of(p) is Some && playlist_of(p)->0.source == source && playlist_of(
        p,
    )->0.id@ == playlist_id
}

/// The notification of a failed load: an error reading `prefix` then
/// the failure.
pub open spec fn failure_note(r: Option<Notification>, prefix: Seq<char>, message: Seq<char>) -> bool {
    r is Some && r->0.level == NotificationLevel::Error && r->0.message@ == prefix + message
}

/// The caption of a scope tab: "已收藏" for the saved playlists, a
/// source's name and code when `full`, else its code.
pub open spec fn scope_caption(scope: Option<SourceId>, full: bool) -> Seq<char> {
    match scope {
        None => "已收藏"@,
        Some(source) => if full {
            source_caption(source)
        } else {
            source_code(source)
        },
    }
}

/// The caption of the tab of `scope`; names need a row at least 58
/// columns wide (`full`).
pub fn scope_label(scope: Option<SourceId>, full: bool) -> (r: &'static str)
    ensures
        r@ == scope_caption(scope, full),
{
    proof {
        reveal_strlit("已收藏");
    }
    match scope {
        None => "已收藏",
        Some(source) => if full {
            source_label(source)
        } else {
            source.as_str()
        },
    }
}

/// The line of a playlist in a box `width` columns wide: a star when it
/// is saved (`favorite`), its name, its song count when known, cut to
/// the width.
pub open spec fn playlist_line(playlist: Playlist, favorite: bool, width: int) -> Seq<char> {
    let prefix = if favorite {
        "* "@
    } else {
        "  "@
    };
    let details = if playlist.song_count > 0 {
        " · "@ + decimal_digits(playlist.song_count as nat) + " 首"@
    } else {
        ""@
    };
    truncated(prefix + playlist.name@ + details, width as nat)
}

/// The line of `playlist` in a box `width` columns wide.
pub fn playlist_row_text(playlist: &Playlist, favorite: bool, width: u16) -> (r: String)
    ensures
        r@ == playlist_line(*playlist, favorite, width as int),
{
    proof {
        reveal_strlit("* ");
        reveal_strlit("  ");
        reveal_strlit("");
    }
    let mut text = if favorite {
        String::from_str("* ")
    } else {
        String::from_str("  ")
    };
    text.append(playlist.name.as_str());
    if playlist.song_count > 0 {
        let count = decimal(playlist.song_count);
        text.append(" · ");
        text.append(count.as_str());
        text.append(" 首");
    } else {
        text.append("");
    }
    truncate_chars(text.as_str(), width as usize)
}

/// The title of the playlist box: saved or popular playlists, and how
/// many.
pub open spec fn lists_caption(p: PlaylistsPage) -> Seq<char> {
    if source_of(p) is None {
        "收藏歌单 ("@ + decimal_digits(p.playlists@.len()) + ")"@
    } else {
        "热门歌单 ("@ + decimal_digits(p.playlists@.len()) + ")"@
    }
}

/// The title of the song box: the open playlist's source and name, else
/// "歌曲列表".
pub open spec fn songs_caption(p: PlaylistsPage) -> Seq<char> {
    match playlist_of(p) {
        Some(pl) => source_title(pl.source) + " · "@ + pl.name@,
        None => "歌曲列表"@,
    }
}

/// The playlist box shows rows (rather than a message) and follows the
/// selection: no playlist is open, nothing failed or is loading, and
/// playlists are there.
pub open spec fn playlists_listed(p: PlaylistsPage) -> bool {
    p.selected_playlist is None && p.error_message is None && !p.list_loading
        && p.playlists@.len() > 0
}

/// The song list of the open playlist shows rows: nothing failed or is
/// loading and songs are there.
pub open spec fn songs_listed(p: PlaylistsPage) -> bool {
    p.selected_playlist is Some && p.error_message is None && !p.songs_loading && p.songs@.len() > 0
}

impl PlaylistsPage {
    /// A page with the saved playlists first and then each of `sources`;
    /// the saved scope is chosen and counts as loaded.
    pub fn new(sources: Vec<SourceId>) -> (r: PlaylistsPage)
        ensures
            r.scopes@ == scopes_for(sources@),
            r.scope_index == 0,
            r.playlists@.len() == 0,
            r.songs@.len() == 0,
            r.selected == 0,
            r.selected_playlist is None,
            r.list_loaded && !r.list_loading && !r.songs_loaded && !r.songs_loading,
            r.playlist_scroll_offset == 0,
            r.song_scroll_offset == 0,
            r.error_message is None,
            r.list_cache@ == Map::<SourceId, Seq<Playlist>>::empty(),
            r.song_cache@ == Map::<(SourceId, Seq<char>), Seq<SongInfo>>::empty(),
    {
        let mut scopes: Vec<Option<SourceId>> = Vec::new();
        scopes.push(None);
        let mut i: usize = 0;
        while i < sources.len()
            invariant
                i <= sources@.len(),
                scopes@ == scopes_for(sources@.subrange(0, i as int)),
            decreases sources.len() - i,
        {
            scopes.push(Some(sources[i]));
            i = i + 1;
            assert(scopes@ =~= scopes_for(sources@.subrange(0, i as int)));
        }
        assert(sources@.subrange(0, sources@.len() as int) =~= sources@);
        PlaylistsPage {
            scopes,
            scope_index: 0,
            playlists: Vec::new(),
            songs: Vec::new(),
            selected: 0,
            selected_playlist: None,
            list_loaded: true,
            list_loading: false,
            songs_loaded: false,
            songs_loading: false,
            playlist_scroll_offset: 0,
            song_scroll_offset: 0,
            error_message: None,
            list_cache: SourceCache::new(),
            song_cache: ItemCache::new(),
        }
    }

    /// The online source of the chosen scope.
    pub fn current_source(&self) -> (r: Option<SourceId>)
        ensures
            r == source_of(*self),
    {
        if self.scope_index < self.scopes.len() {
            self.scopes[self.scope_index]
        } else {
            None
        }
    }

    /// The playlist whose songs are shown.
    pub fn current_playlist(&self) -> (r: Option<&Playlist>)
        ensures
            match r {
                Some(pl) => playlist_of(*self) == Some(*pl),
                None => playlist_of(*self) is None,
            },
    {
        match self.selected_playlist {
            Some(i) => if i < self.playlists.len() {
                Some(&self.playlists[i])
            } else {
                None
            },
            None => None,
        }
    }

    /// Shows the saved playlists when the saved scope is chosen and no
    /// playlist is open.
    pub fn sync_favorites(&mut self, favorites: Vec<Playlist>)
        ensures
            favorites_synced(*old(self), favorites@, *final(self)),
    {
        if self.current_source().is_some() || self.selected_playlist.is_some() {
            return ;
        }
        self.playlists = favorites;
        self.list_loaded = true;
        self.list_loading = false;
        let last = self.playlists.len().saturating_sub(1);
        if last < self.selected {
            self.selected = last;
        }
    }

    /// What should be loaded next, if anything.
    pub fn next_load_request(&self) -> (r: Option<PlaylistLoadRequest>)
        ensures
            r == next_request(*self),
    {
        match self.current_playlist() {
            Some(pl) => {
                if !self.songs_loading && !self.songs_loaded {
                    return Some(
                        PlaylistLoadRequest::Songs { source: pl.source, playlist_id: pl.id.clone() },
                    );
                }
                None
            },
            None => {
                let source = match self.current_source() {
                    Some(s) => s,
                    None => return None,
                };
                if !self.list_loading && !self.list_loaded {
                    return Some(PlaylistLoadRequest::List { source });
                }
                None
            },
        }
    }

    /// Marks `request` as loading.
    pub fn begin_loading(&mut self, request: &PlaylistLoadRequest)
        ensures
            began(*old(self), *request, *final(self)),
    {
        self.error_message = None;
        match request {
            PlaylistLoadRequest::List { .. } => {
                self.list_loading = true;
                self.list_loaded = false;
            },
            PlaylistLoadRequest::Songs { .. } => {
                self.songs_loading = true;
                self.songs_loaded = false;
            },
        }
    }

    /// The title of the playlist box.
    pub fn lists_title(&self) -> (r: String)
        ensures
            r@ == lists_caption(*self),
    {
        let count = decimal(self.playlists.len() as u64);
        let mut s = if self.current_source().is_none() {
            crate::model::joined("收藏歌单 (", count.as_str())
        } else {
            crate::model::joined("热门歌单 (", count.as_str())
        };
        s.append(")");
        s
    }

    /// The title of the song box.
    pub fn songs_title(&self) -> (r: String)
        ensures
            r@ == songs_caption(*self),
    {
        match self.current_playlist() {
            Some(pl) => {
                let mut s = String::from_str(source_name(pl.source));
                s.append(" · ");
                s.append(pl.name.as_str());
                s
            },
            None => {
                proof {
                    reveal_strlit("歌曲列表");
                }
                String::from_str("歌曲列表")
            },
        }
    }

    /// Starts loading what the page needs next, if anything, under the
    /// next number of the request counter `request_id`.
    pub fn start_next_load(&mut self, request_id: &mut u64) -> (r: Option<PlaylistLoadRequest>)
        ensures
            r == next_request(*old(self)),
            match r {
                Some(request) => began(*old(self), request, *final(self)) && *final(request_id)
                    == next_request_id(*old(request_id)),
                None => *final(self) == *old(self) && *final(request_id) == *old(request_id),
            },
    {
        let request = match self.next_load_request() {
            Some(request) => request,
            None => return None,
        };
        self.begin_loading(&request);
        *request_id = advance_request_id(*request_id);
        Some(request)
    }

    /// Takes the answer to request `id` for the playlists of `source`, if
    /// it is still wanted (`latest` is the last request made); a failure is
    /// shown on the page and returned as a notification.
    pub fn take_list_answer(
        &mut self,
        id: u64,
        latest: u64,
        source: SourceId,
        result: Result<Vec<Playlist>, String>,
    ) -> (r: Option<Notification>)
        ensures
            !list_answer_wanted(*old(self), id, latest, source) ==> r is None && *final(self)
                == *old(self),
            list_answer_wanted(*old(self), id, latest, source) ==> match result {
                Ok(items) => r is None && list_arrived(*old(self), source, items@, *final(self)),
                Err(message) => failed(
                    *old(self),
                    PlaylistLoadRequest::List { source },
                    message,
                    *final(self),
                ) && failure_note(r, "加载热门歌单失败: "@, message@),
            },
    {
        if id != latest || self.current_source() != Some(source) {
            return None;
        }
        match result {
            Ok(items) => {
                self.update_playlists(source, items);
                None
            },
            Err(message) => {
                let note = joined("加载热门歌单失败: ", message.as_str());
                self.update_error(&PlaylistLoadRequest::List { source }, message);
                Some(Notification::error(note))
            },
        }
    }

    /// Takes the answer to request `id` for the songs of playlist
    /// `playlist_id` of `source`, if it is still wanted; a failure is shown
    /// on the page and returned as a notification.
    pub fn take_songs_answer(
        &mut self,
        id: u64,
        latest: u64,
        source: SourceId,
        playlist_id: String,
        result: Result<Vec<SongInfo>, String>,
    ) -> (r: Option<Notification>)
        ensures
            !songs_answer_wanted(*old(self), id, latest, source, playlist_id@) ==> r is None
                && *final(self) == *old(self),
            songs_answer_wanted(*old(self), id, latest, source, playlist_id@) ==> match result {
                Ok(songs) => r is None && songs_arrived(
                    *old(self),
                    source,
                    playlist_id@,
                    songs@,
                    *final(self),
                ),
                Err(message) => failed(
                    *old(self),
                    PlaylistLoadRequest::Songs { source, playlist_id },
                    message,
                    *final(self),
                ) && failure_note(r, "加载歌单歌曲失败: "@, message@),
            },
    {
        if id != latest {
            return None;
        }
        let open = match self.current_playlist() {
            Some(pl) => pl.source == source && pl.id == playlist_id,
            None => false,
        };
        if !open {
            return None;
        }
        match result {
            Ok(songs) => {
                self.update_songs(source, playlist_id.as_str(), songs);
                None
            },
            Err(message) => {
                let note = joined("加载歌单歌曲失败: ", message.as_str());
                self.update_error(&PlaylistLoadRequest::Songs { source, playlist_id }, message);
                Some(Notification::error(note))
            },
        }
    }

    /// Takes in the playlists loaded for `source`.
    pub fn update_playlists(&mut self, source: SourceId, playlists: Vec<Playlist>)
        ensures
            list_arrived(*old(self), source, playlists@, *final(self)),
    {
        self.list_cache.insert(source, copy_playlists(&playlists));
        if self.current_source() != Some(source) || self.selected_playlist.is_some() {
            return ;
        }
        self.playlists = playlists;
        self.list_loading = false;
        self.list_loaded = true;
        self.error_message = None;
        let last = self.playlists.len().saturating_sub(1);
        if last < self.selected {
            self.selected = last;
        }
        self.playlist_scroll_offset = 0;
    }

    /// Takes in the songs loaded for playlist `playlist_id` on `source`.
    pub fn update_songs(&mut self, source: SourceId, playlist_id: &str, songs: Vec<SongInfo>)
        ensures
            songs_arrived(*old(self), source, playlist_id@, songs@, *final(self)),
    {
        let key = String::from_str(playlist_id);
        self.song_cache.insert(source, String::from_str(playlist_id), copy_songs(&songs));
        let showing = match self.current_playlist() {
            Some(pl) => pl.source == source && pl.id == key,
            None => false,
        };
        if !showing {
            return ;
        }
        self.songs = songs;
        self.songs_loading = false;
        self.songs_loaded = true;
        self.error_message = None;
        self.selected = 0;
        self.song_scroll_offset = 0;
    }

    /// Records that `request` failed with `message`.
    pub fn update_error(&mut self, request: &PlaylistLoadRequest, message: String)
        ensures
            failed(*old(self), *request, message, *final(self)),
    {
        match request {
            PlaylistLoadRequest::List { source } => {
                if self.current_source() == Some(*source) && self.selected_playlist.is_none() {
                    self.playlists.clear();
                    self.list_loading = false;
                    self.list_loaded = true;
                    self.error_message = Some(message);
                }
            },
            PlaylistLoadRequest::Songs { source, playlist_id } => {
                let showing = match self.current_playlist() {
                    Some(pl) => pl.source == *source && pl.id == *playlist_id,
                    None => false,
                };
                if showing {
                    self.songs.clear();
                    self.songs_loading = false;
                    self.songs_loaded = true;
                    self.error_message = Some(message);
                }
            },
        }
        self.selected = 0;
    }

    /// The length of the list the selection moves in.
    pub fn current_list_len(&self) -> (r: usize)
        ensures
            r == list_len(*self),
    {
        if self.selected_playlist.is_some() {
            self.songs.len()
        } else {
            self.playlists.len()
        }
    }

    /// Opens the selected playlist.
    pub fn enter_selected_playlist(&mut self)
        ensures
            entered(*old(self), *final(self)),
    {
        if self.selected_playlist.is_some() || self.selected >= self.playlists.len() {
            return ;
        }
        let index = self.selected;
        let source = self.playlists[index].source;
        let id = self.playlists[index].id.clone();
        self.selected_playlist = Some(index);
        self.selected = 0;
        self.song_scroll_offset = 0;
        self.error_message = None;
        self.songs_loading = false;
        match self.song_cache.get(source, &id) {
            Some(songs) => {
                self.songs = copy_songs(songs);
                self.songs_loaded = true;
            },
            None => {
                self.songs.clear();
                self.songs_loaded = false;
            },
        }
    }

    /// Closes the open playlist and selects it in the list.
    pub fn leave_playlist(&mut self)
        ensures
            left(*old(self), *final(self)),
    {
        let index = match self.selected_playlist {
            Some(i) => i,
            None => 0,
        };
        self.selected_playlist = None;
        self.songs.clear();
        self.songs_loaded = false;
        self.songs_loading = false;
        self.error_message = None;
        let last = self.playlists.len().saturating_sub(1);
        self.selected = if index < last {
            index
        } else {
            last
        };
        self.song_scroll_offset = 0;
    }

    /// Forgets what is shown so that it loads again; `favorites` are the
    /// saved playlists as stored.
    pub fn refresh_current(&mut self, favorites: Vec<Playlist>)
        ensures
            refreshed(*old(self), favorites@, *final(self)),
    {
        self.error_message = None;
        let target = match self.current_playlist() {
            Some(pl) => Some((pl.source, pl.id.clone())),
            None => None,
        };
        match target {
            Some((source, id)) => {
                self.song_cache.remove(source, &id);
                self.songs.clear();
                self.songs_loaded = false;
                self.songs_loading = false;
                self.selected = 0;
                self.song_scroll_offset = 0;
            },
            None => match self.current_source() {
                Some(source) => {
                    self.list_cache.remove(source);
                    self.playlists.clear();
                    self.list_loaded = false;
                    self.list_loading = false;
                    self.selected = 0;
                    self.playlist_scroll_offset = 0;
                },
                None => {
                    self.sync_favorites(favorites);
                },
            },
        }
    }

    /// Chooses the scope before the current one, wrapping.
    pub fn select_previous_scope(&mut self, favorites: Vec<Playlist>)
        ensures
            if old(self).scopes@.len() == 0 {
                *final(self) == *old(self)
            } else {
                switched(*old(self), previous_scope_index(*old(self)), favorites@, *final(self))
            },
    {
        if self.scopes.len() == 0 {
            return ;
        }
        let index = if self.scope_index == 0 {
            self.scopes.len() - 1
        } else {
            self.scope_index - 1
        };
        self.select_scope(index, favorites);
    }

    /// Chooses the scope after the current one, wrapping.
    pub fn select_next_scope(&mut self, favorites: Vec<Playlist>)
        ensures
            if old(self).scopes@.len() == 0 {
                *final(self) == *old(self)
            } else {
                switched(*old(self), next_scope_index(*old(self)), favorites@, *final(self))
            },
    {
        if self.scopes.len() == 0 {
            return ;
        }
        let n = self.scopes.len();
        let index = (self.scope_index % n + 1) % n;
        proof {
            let a = self.scope_index as int;
            let m = n as int;
            vstd::arithmetic::div_mod::lemma_add_mod_noop(a, 1, m);
            vstd::arithmetic::div_mod::lemma_mod_twice(1, m);
            if m == 1 {
                assert(1int % 1 == 0);
            } else {
                vstd::arithmetic::div_mod::lemma_small_mod(1, m as nat);
            }
        }
        self.select_scope(index, favorites);
    }

    /// Chooses the scope at `index`; `favorites` are the saved playlists
    /// as stored, shown when the saved scope is chosen.
    pub fn select_scope(&mut self, index: usize, favorites: Vec<Playlist>)
        ensures
            switched(*old(self), index as int, favorites@, *final(self)),
    {
        if index >= self.scopes.len() || index == self.scope_index {
            return ;
        }
        self.scope_index = index;
        self.selected_playlist = None;
        self.songs.clear();
        self.songs_loaded = false;
        self.songs_loading = false;
        self.error_message = None;
        self.selected = 0;
        self.playlist_scroll_offset = 0;
        self.song_scroll_offset = 0;
        match self.scopes[index] {
            Some(source) => match self.list_cache.get(source) {
                Some(items) => {
                    self.playlists = copy_playlists(items);
                    self.list_loaded = true;
                    self.list_loading = false;
                },
                None => {
                    self.playlists.clear();
                    self.list_loaded = false;
                    self.list_loading = false;
                },
            },
            None => {
                self.playlists = favorites;
                self.list_loaded = true;
                self.list_loading = false;
            },
        }
    }

    /// The playlist a favorite toggle acts on.
    pub fn favorite_target(&self) -> (r: Option<Playlist>)
        ensures
            r == toggle_target(*self),
    {
        match self.current_playlist() {
            Some(pl) => Some(pl.duplicate()),
            None => if self.selected < self.playlists.len() {
                Some(self.playlists[self.selected].duplicate())
            } else {
                None
            },
        }
    }

    /// Finishes a favorite toggle: after a removal on the saved scope the
    /// open playlist is closed and the saved playlists (`favorites`, as
    /// now stored) are shown again.  Returns the notification to show.
    pub fn finish_favorite_toggle(&mut self, removed: bool, favorites: Vec<Playlist>) -> (r: AppAction)
        ensures
            removed && source_of(*old(self)) is None ==> exists|mid: PlaylistsPage|
                (if old(self).selected_playlist is Some {
                    left(*old(self), mid)
                } else {
                    mid == *old(self)
                }) && favorites_synced(mid, favorites@, *final(self)),
            !(removed && source_of(*old(self)) is None) ==> *final(self) == *old(self),
            r is ShowNotification,
            r->ShowNotification_0.level == crate::model::NotificationLevel::Info,
            r->ShowNotification_0.message@ == if removed {
                unfavorited_message()
            } else {
                favorited_message()
            },
    {
        proof {
            reveal_strlit("已取消收藏歌单");
            reveal_strlit("已收藏歌单");
        }
        if removed {
            if self.current_source().is_none() {
                let ghost before = *self;
                if self.selected_playlist.is_some() {
                    self.leave_playlist();
                }
                let ghost mid = *self;
                self.sync_favorites(favorites);
                assert((if before.selected_playlist is Some {
                    left(before, mid)
                } else {
                    mid == before
                }) && favorites_synced(mid, favorites@, *self));
            }
            let message = String::from_str("已取消收藏歌单");
            assert(message@ =~= unfavorited_message());
            AppAction::ShowNotification(Notification::info(message))
        } else {
            let message = String::from_str("已收藏歌单");
            assert(message@ =~= favorited_message());
            AppAction::ShowNotification(Notification::info(message))
        }
    }

    /// Acts on a key press; `wrap` tells whether moving past either end
    /// of a list wraps around, and `favorites` are the saved playlists.
    pub fn handle_input(&mut self, key: &KeyEvent, wrap: bool, favorites: Vec<Playlist>) -> (r:
        PlaylistsInput)
        ensures
            command_effect(
                *old(self),
                command_of(*key, old(self).selected_playlist is Some),
                wrap,
                favorites@,
                *final(self),
                r,
            ),
    {
        let command = playlists_command(key, self.selected_playlist.is_some());
        match command {
            PlaylistsCommand::PreviousScope => {
                self.select_previous_scope(favorites);
            },
            PlaylistsCommand::NextScope => {
                self.select_next_scope(favorites);
            },
            PlaylistsCommand::Up => {
                let len = self.current_list_len();
                self.selected = select_up(self.selected, len, wrap);
            },
            PlaylistsCommand::Down => {
                let len = self.current_list_len();
                self.selected = select_down(self.selected, len, wrap);
            },
            PlaylistsCommand::First => {
                self.selected = 0;
            },
            PlaylistsCommand::Last => {
                self.selected = self.current_list_len().saturating_sub(1);
            },
            PlaylistsCommand::PageUp => {
                self.selected = self.selected.saturating_sub(10);
            },
            PlaylistsCommand::PageDown => {
                self.selected = page_down(self.selected, 10, self.current_list_len());
            },
            PlaylistsCommand::Activate => {
                if self.selected_playlist.is_some() && self.songs.len() > 0 {
                    return PlaylistsInput::Action(
                        AppAction::PlaySong { songs: copy_songs(&self.songs), index: self.selected },
                    );
                }
                self.enter_selected_playlist();
            },
            PlaylistsCommand::Add(position) => {
                if self.selected < self.songs.len() {
                    return PlaylistsInput::Action(
                        AppAction::AddToQueue { song: self.songs[self.selected].duplicate(), position },
                    );
                }
            },
            PlaylistsCommand::Leave => {
                self.leave_playlist();
            },
            PlaylistsCommand::ToggleFavorite => {
                match self.favorite_target() {
                    Some(pl) => {
                        return PlaylistsInput::ToggleFavorite(pl);
                    },
                    None => {},
                }
            },
            PlaylistsCommand::Refresh => {
                self.refresh_current(favorites);
            },
            PlaylistsCommand::Ignore => {},
        }
        PlaylistsInput::Action(AppAction::NoOp)
    }

    /// Acts on a mouse event on a page laid out as `page`, with the
    /// tabs `tabs` (one per scope); the wheel moves by
    /// `scroll_amount` rows (at least one), and `favorites` are the saved
    /// playlists as stored.
    pub fn handle_mouse_on(
        &mut self,
        event: &MouseEvent,
        page: &PageChunks,
        tabs: &Vec<Rect>,
        scroll_amount: usize,
        activate: bool,
        favorites: Vec<Playlist>,
    ) -> (r: PlaylistsInput)
        requires
            tabs@.len() == old(self).scopes@.len(),
        ensures
            mouse_effect(
                *old(self),
                *event,
                *page,
                tabs@,
                wheel_rows(scroll_amount as int),
                activate,
                favorites@,
                *final(self),
                r,
            ),
    {
        let step = if scroll_amount >= 1 {
            scroll_amount
        } else {
            1
        };
        match event.kind {
            MouseEventKind::ScrollUp => {
                self.selected = self.selected.saturating_sub(step);
            },
            MouseEventKind::ScrollDown => {
                let len = self.current_list_len();
                self.selected = page_down(self.selected, step, len);
            },
            MouseEventKind::Down(MouseButton::Left) => {
                match hit_index(tabs, event.column, event.row) {
                    Some(index) => {
                        self.select_scope(index, favorites);
                        return PlaylistsInput::Action(AppAction::NoOp);
                    },
                    None => {},
                }
                let list_inner = bordered_inner(page.list);
                if list_inner.contains(event.column, event.row) {
                    let offset = (event.row - list_inner.y) as usize;
                    let len = self.playlists.len();
                    if self.playlist_scroll_offset < len && offset < len - self.playlist_scroll_offset {
                        let index = self.playlist_scroll_offset + offset;
                        if activate {
                            self.selected = index;
                            self.enter_selected_playlist();
                        } else if self.selected_playlist.is_none() {
                            self.selected = index;
                        }
                    }
                    return PlaylistsInput::Action(AppAction::NoOp);
                }
                if self.selected_playlist.is_some() {
                    let song_inner = bordered_inner(page.songs);
                    let list_y = song_inner.y.saturating_add(1);
                    if event.row >= list_y && event.row < song_inner.bottom() {
                        let offset = (event.row - list_y) as usize;
                        let len = self.songs.len();
                        if self.song_scroll_offset < len && offset < len - self.song_scroll_offset {
                            let index = self.song_scroll_offset + offset;
                            self.selected = index;
                            if activate {
                                return PlaylistsInput::Action(
                                    AppAction::PlaySong { songs: copy_songs(&self.songs), index },
                                );
                            }
                        }
                    }
                }
            },
            MouseEventKind::Down(MouseButton::Right) => {
                if self.selected_playlist.is_none() {
                    let list_inner = bordered_inner(page.list);
                    if list_inner.contains(event.column, event.row) {
                        let offset = (event.row - list_inner.y) as usize;
                        let len = self.playlists.len();
                        if self.playlist_scroll_offset < len && offset < len
                            - self.playlist_scroll_offset {
                            let index = self.playlist_scroll_offset + offset;
                            self.selected = index;
                            return PlaylistsInput::ToggleFavorite(self.playlists[index].duplicate());
                        }
                    }
                }
            },
            _ => {},
        }
        PlaylistsInput::Action(AppAction::NoOp)
    }

    /// Acts on a mouse event over the page `area`; the wheel moves by
    /// `scroll_amount` rows (at least one), and `favorites` are the saved
    /// playlists as stored.  The page is laid out by the layout solver;
    /// whatever parts it gives, the event acts as on a page laid out so.
    pub fn handle_mouse(
        &mut self,
        event: &MouseEvent,
        area: Rect,
        scroll_amount: usize,
        activate: bool,
        favorites: Vec<Playlist>,
    ) -> (r: PlaylistsInput)
        requires
            old(self).scopes@.len() <= u32::MAX,
        ensures
            exists|page: PageChunks, tabs: Seq<Rect>|
                page_placed(area, page) && tabs_placed(page.tabs, old(self).scopes@.len() as int, tabs)
                    && #[trigger] mouse_effect(
                    *old(self),
                    *event,
                    page,
                    tabs,
                    wheel_rows(scroll_amount as int),
                    activate,
                    favorites@,
                    *final(self),
                    r,
                ),
    {
        let page = split_page(area, self.playlists.len(), PLAYLIST_BOX_WIDTH);
        let tabs = tab_rects(page.tabs, self.scopes.len());
        self.handle_mouse_on(event, &page, &tabs, scroll_amount, activate, favorites)
    }

    /// Before the page is drawn: the playlist box scrolls so that the
    /// selected playlist shows in its `list_rows` rows, and the song list
    /// of the open playlist so that the selected song shows in its
    /// `song_rows` rows; a list showing a message instead keeps its scroll.
    pub fn fit_views(&mut self, list_rows: usize, song_rows: usize)
        ensures
            final(self).playlist_scroll_offset == if playlists_listed(*old(self)) && list_rows > 0 {
                visible_offset(
                    old(self).selected as int,
                    list_rows as int,
                    old(self).playlists@.len() as int,
                    old(self).playlist_scroll_offset as int,
                ) as usize
            } else {
                old(self).playlist_scroll_offset
            },
            final(self).song_scroll_offset == if songs_listed(*old(self)) && song_rows > 0 {
                visible_offset(
                    old(self).selected as int,
                    song_rows as int,
                    old(self).songs@.len() as int,
                    old(self).song_scroll_offset as int,
                ) as usize
            } else {
                old(self).song_scroll_offset
            },
            *final(self) == (PlaylistsPage {
                playlist_scroll_offset: final(self).playlist_scroll_offset,
                song_scroll_offset: final(self).song_scroll_offset,
                ..*old(self)
            }),
    {
        if self.selected_playlist.is_none() && self.error_message.is_none() && !self.list_loading
            && self.playlists.len() > 0 && list_rows > 0 {
            ensure_visible(
                self.selected,
                list_rows,
                self.playlists.len(),
                &mut self.playlist_scroll_offset,
            );
        }
        if self.selected_playlist.is_some() && self.error_message.is_none() && !self.songs_loading
            && self.songs.len() > 0 && song_rows > 0 {
            ensure_visible(self.selected, song_rows, self.songs.len(), &mut self.song_scroll_offset);
        }
    }
}

/// Once a request is loading, the page does not ask for it again.
pub proof fn lemma_loading_request_not_repeated(
    p: PlaylistsPage,
    request: PlaylistLoadRequest,
    q: PlaylistsPage,
)
    requires
        next_request(p) == Some(request),
        began(p, request, q),
    ensures
        next_request(q) is None,
{
}

/// Playlists loaded for a source come back from the cache, without a new
/// request, when one switches away and returns to that source.
pub proof fn lemma_lists_cached_per_source(
    p: PlaylistsPage,
    playlists: Seq<Playlist>,
    q: PlaylistsPage,
    away: usize,
    favorites: Seq<Playlist>,
    r: PlaylistsPage,
    s: PlaylistsPage,
)
    requires
        source_of(p) is Some,
        list_arrived(p, source_of(p)->0, playlists, q),
        switched(q, away as int, favorites, r),
        away != p.scope_index,
        away < p.scopes@.len(),
        switched(r, p.scope_index as int, favorites, s),
    ensures
        s.playlists@ == playlists,
        s.list_loaded,
        next_request(s) is None,
{
    let source = source_of(p)->0;
    assert(q.list_cache@.contains_key(source));
    assert(q.scopes == p.scopes);
    assert(q.scope_index == p.scope_index);
    assert(r.list_cache == q.list_cache);
    assert(r.scopes == p.scopes);
    assert(r.scope_index == away);
    assert(r.scopes@[p.scope_index as int] == Some(source));
}

/// Each source's list is requested on its own: a list that arrived for one
/// source does not count as loaded for another.
pub proof fn lemma_other_source_still_requested(
    p: PlaylistsPage,
    source: SourceId,
    playlists: Seq<Playlist>,
    q: PlaylistsPage,
)
    requires
        source_of(p) is Some,
        source_of(p) != Some(source),
        p.selected_playlist is None,
        !p.list_loaded,
        !p.list_loading,
        list_arrived(p, source, playlists, q),
    ensures
        next_request(q) == Some(PlaylistLoadRequest::List { source: source_of(p)->0 }),
{
}

} // verus!
