//! The leaderboard page: a row of sources, the boards of the chosen
//! source, and the songs of the chosen board.  Loaded boards and songs
//! are cached per source and per board so that switching back shows them
//! without another request.
use vstd::prelude::*;
use crate::cache::{ItemCache, SourceCache};
use crate::input::{KeyCode, KeyEvent, MOD_CONTROL, MOD_NONE, MOD_SHIFT, MouseButton, MouseEvent, MouseEventKind};
use crate::layout::{
    PageChunks, Rect, bordered_inner, bottom_of, first_hit, hit_index, inner_of, inside, page_placed,
    sat_add16, split_page, tab_rects, tabs_placed,
};
use crate::text::{decimal, decimal_digits, pad_left, padded_left, truncate_chars, truncated};
use crate::listnav::{
    ensure_visible, last_index, min_int, sat_sub, step_down, step_up, select_down, select_up,
    page_down, visible_offset, wheel_rows,
};
use crate::model::{
    source_caption, source_label, source_name, source_title,
    Notification, NotificationLevel, advance_request_id, joined, next_request_id,
    AppAction, InsertPosition, LeaderboardInfo, SongInfo, SourceId, copy_boards, copy_songs,
};

verus! {

/// What the page needs loaded next.
#[derive(Debug, Clone, PartialEq, Eq)]
pub enum LeaderboardLoadRequest {
    Boards { source: SourceId },
    Songs { source: SourceId, board_id: String },
}

/// State of the leaderboard page.
pub struct LeaderboardPage {
    pub sources: Vec<SourceId>,
    pub source_index: usize,
    pub boards: Vec<LeaderboardInfo>,
    pub songs: Vec<SongInfo>,
    pub selected: usize,
    pub selected_board: Option<usize>,
    pub boards_loaded: bool,
    pub boards_loading: bool,
    pub songs_loaded: bool,
    pub songs_loading: bool,
    pub board_scroll_offset: usize,
    pub song_scroll_offset: usize,
    pub error_message: Option<String>,
    pub board_cache: SourceCache<LeaderboardInfo>,
    pub song_cache: ItemCache<SongInfo>,
}

/// The source whose boards are shown, if the index names one.
pub open spec fn source_of(p: LeaderboardPage) -> Option<SourceId> {
    if p.source_index < p.sources@.len() {
        Some(p.sources@[p.source_index as int])
    } else {
        None
    }
}

/// The board whose songs are shown, if one is open.
pub open spec fn board_of(p: LeaderboardPage) -> Option<LeaderboardInfo> {
    match p.selected_board {
        Some(i) => if i < p.boards@.len() {
            Some(p.boards@[i as int])
        } else {
            None
        },
        None => None,
    }
}

/// What to load next: the songs of the open board when they are neither
/// loaded nor loading, else the boards of the source when no board is
/// open and they are neither loaded nor loading.
pub open spec fn next_request(p: LeaderboardPage) -> Option<LeaderboardLoadRequest> {
    match source_of(p) {
        None => None,
        Some(source) => match board_of(p) {
            Some(board) => if !p.songs_loading && !p.songs_loaded {
                Some(LeaderboardLoadRequest::Songs { source, board_id: board.id })
            } else {
                None
            },
            None => if !p.boards_loading && !p.boards_loaded {
                Some(LeaderboardLoadRequest::Boards { source })
            } else {
                None
            },
        },
    }
}

/// The length of the list the selection moves in.
pub open spec fn list_len(p: LeaderboardPage) -> int {
    if p.selected_board is Some {
        p.songs@.len() as int
    } else {
        p.boards@.len() as int
    }
}

/// `q` is `p` after a request started loading.
pub open spec fn began(p: LeaderboardPage, request: LeaderboardLoadRequest, q: LeaderboardPage) -> bool {
    match request {
        LeaderboardLoadRequest::Boards { .. } => q == LeaderboardPage {
            error_message: None,
            boards_loading: true,
            boards_loaded: false,
            ..p
        },
        LeaderboardLoadRequest::Songs { .. } => q == LeaderboardPage {
            error_message: None,
            songs_loading: true,
            songs_loaded: false,
            ..p
        },
    }
}

/// `q` is `p` after the boards of `source` arrived: they are cached, and
/// shown when `source` is current and no board is open.
pub open spec fn boards_arrived(
    p: LeaderboardPage,
    source: SourceId,
    boards: Seq<LeaderboardInfo>,
    q: LeaderboardPage,
) -> bool {
    &&& q.board_cache@ == p.board_cache@.insert(source, boards)
    &&& if source_of(p) != Some(source) || p.selected_board is Some {
        q == LeaderboardPage { board_cache: q.board_cache, ..p }
    } else {
        &&& q.boards@ == boards
        &&& q == LeaderboardPage {
            boards: q.boards,
            board_cache: q.board_cache,
            boards_loading: false,
            boards_loaded: true,
            error_message: None,
            selected: min_int(p.selected as int, last_index(boards.len() as int)) as usize,
            board_scroll_offset: 0,
            ..p
        }
    }
}

/// `q` is `p` after the songs of board `board_id` of `source` arrived:
/// they are cached, and shown when that board is open on `source`.
pub open spec fn songs_arrived(
    p: LeaderboardPage,
    source: SourceId,
    board_id: Seq<char>,
    songs: Seq<SongInfo>,
    q: LeaderboardPage,
) -> bool {
    &&& q.song_cache@ == p.song_cache@.insert((source, board_id), songs)
    &&& if source_of(p) == Some(source) && board_of(p) is Some && board_of(p)->0.id@ == board_id {
        &&& q.songs@ == songs
        &&& q == LeaderboardPage {
            songs: q.songs,
            song_cache: q.song_cache,
            songs_loading: false,
            songs_loaded: true,
            error_message: None,
            selected: 0,
            song_scroll_offset: 0,
            ..p
        }
    } else {
        q == LeaderboardPage { song_cache: q.song_cache, ..p }
    }
}

/// `q` is `p` after a request failed with `message`: the failed list is
/// emptied and marked loaded with the error, if it is still the one
/// shown; the selection returns to the top either way.
pub open spec fn failed(
    p: LeaderboardPage,
    request: LeaderboardLoadRequest,
    message: String,
    q: LeaderboardPage,
) -> bool {
    match request {
        LeaderboardLoadRequest::Boards { source } => if source_of(p) == Some(source)
            && p.selected_board is None {
            &&& q.boards@.len() == 0
            &&& q == LeaderboardPage {
                boards: q.boards,
                boards_loading: false,
                boards_loaded: true,
                error_message: Some(message),
                selected: 0,
                ..p
            }
        } else {
            q == LeaderboardPage { selected: 0, ..p }
        },
        LeaderboardLoadRequest::Songs { source, board_id } => if source_of(p) == Some(source)
            && board_of(p) is Some && board_of(p)->0.id@ == board_id@ {
            &&& q.songs@.len() == 0
            &&& q == LeaderboardPage {
                songs: q.songs,
                songs_loading: false,
                songs_loaded: true,
                error_message: Some(message),
                selected: 0,
                ..p
            }
        } else {
            q == LeaderboardPage { selected: 0, ..p }
        },
    }
}

/// `q` is `p` after opening the selected board: its songs come from the
/// cache when it holds them, otherwise the list is empty and not loaded.
pub open spec fn entered(p: LeaderboardPage, q: LeaderboardPage) -> bool {
    if p.selected_board is Some || p.selected >= p.boards@.len() {
        q == p
    } else {
        let board = p.boards@[p.selected as int];
        let key = (board.source, board.id@);
        &&& q.songs_loaded == p.song_cache@.contains_key(key)
        &&& q.songs@ == if p.song_cache@.contains_key(key) {
            p.song_cache@[key]
        } else {
            Seq::<SongInfo>::empty()
        }
        &&& q == LeaderboardPage {
            songs: q.songs,
            songs_loaded: q.songs_loaded,
            selected_board: Some(p.selected),
            selected: 0,
            song_scroll_offset: 0,
            error_message: None,
            songs_loading: false,
            ..p
        }
    }
}

/// `q` is `p` after closing the open board: the selection goes back to
/// that board in the board list.
pub open spec fn left(p: LeaderboardPage, q: LeaderboardPage) -> bool {
    let index = match p.selected_board {
        Some(i) => i as int,
        None => 0,
    };
    &&& q.songs@.len() == 0
    &&& q == LeaderboardPage {
        selected_board: None,
        songs: q.songs,
        songs_loaded: false,
        songs_loading: false,
        error_message: None,
        selected: min_int(index, last_index(p.boards@.len() as int)) as usize,
        song_scroll_offset: 0,
        ..p
    }
}

/// `q` is `p` after a refresh: what is shown is dropped from the cache and
/// emptied, so that it loads again.
pub open spec fn refreshed(p: LeaderboardPage, q: LeaderboardPage) -> bool {
    match source_of(p) {
        None => q == p,
        Some(source) => match board_of(p) {
            Some(board) => {
                &&& q.song_cache@ == p.song_cache@.remove((source, board.id@))
                &&& q.songs@.len() == 0
                &&& q == LeaderboardPage {
                    error_message: None,
                    song_cache: q.song_cache,
                    songs: q.songs,
                    songs_loaded: false,
                    songs_loading: false,
                    selected: 0,
                    song_scroll_offset: 0,
                    ..p
                }
            },
            None => {
                &&& q.board_cache@ == p.board_cache@.remove(source)
                &&& q.boards@.len() == 0
                &&& q == LeaderboardPage {
                    error_message: None,
                    board_cache: q.board_cache,
                    boards: q.boards,
                    boards_loaded: false,
                    boards_loading: false,
                    selected: 0,
                    board_scroll_offset: 0,
                    ..p
                }
            },
        },
    }
}

/// `q` is `p` after choosing the source at `index`: the board view is
/// closed and the boards come from the cache when it holds them.
pub open spec fn switched(p: LeaderboardPage, index: int, q: LeaderboardPage) -> bool {
    if index >= p.sources@.len() || index == p.source_index {
        q == p
    } else {
        let source = p.sources@[index];
        &&& q.boards_loaded == p.board_cache@.contains_key(source)
        &&& q.boards@ == if p.board_cache@.contains_key(source) {
            p.board_cache@[source]
        } else {
            Seq::<LeaderboardInfo>::empty()
        }
        &&& q.songs@.len() == 0
        &&& q == LeaderboardPage {
            source_index: index as usize,
            selected_board: None,
            songs: q.songs,
            songs_loaded: false,
            songs_loading: false,
            error_message: None,
            selected: 0,
            board_scroll_offset: 0,
            song_scroll_offset: 0,
            boards: q.boards,
            boards_loaded: q.boards_loaded,
            boards_loading: false,
            ..p
        }
    }
}

/// The index of the source before the current one, wrapping.
pub open spec fn previous_source_index(p: LeaderboardPage) -> int {
    if p.source_index == 0 {
        p.sources@.len() - 1
    } else {
        p.source_index - 1
    }
}

/// The index of the source after the current one, wrapping.
pub open spec fn next_source_index(p: LeaderboardPage) -> int {
    (p.source_index + 1) % (p.sources@.len() as int)
}

/// Choosing the next source moves from source `i` to source `i + 1`,
/// the last one wrapping to the first.
pub proof fn lemma_next_source_steps_forward(p: LeaderboardPage, q: LeaderboardPage)
    requires
        0 < p.sources@.len() <= usize::MAX,
        p.source_index < p.sources@.len(),
        switched(p, next_source_index(p), q),
    ensures
        q.source_index == if p.source_index + 1 == p.sources@.len() {
            0
        } else {
            p.source_index + 1
        },
{
    let n = p.sources@.len() as int;
    let i = p.source_index as int;
    if i + 1 < n {
        vstd::arithmetic::div_mod::lemma_small_mod((i + 1) as nat, n as nat);
        assert(next_source_index(p) == i + 1);
    } else {
        vstd::arithmetic::div_mod::lemma_mod_self_0(n);
        assert(next_source_index(p) == 0);
    }
}

/// Choosing the next source and then the previous one returns to the
/// source chosen before, and the other way round.
pub proof fn lemma_next_then_previous_source(
    p: LeaderboardPage,
    q: LeaderboardPage,
    t: LeaderboardPage,
    u: LeaderboardPage,
    v: LeaderboardPage,
)
    requires
        0 < p.sources@.len() <= usize::MAX,
        p.source_index < p.sources@.len(),
        switched(p, next_source_index(p), q),
        switched(q, previous_source_index(q), t),
        switched(p, previous_source_index(p), u),
        switched(u, next_source_index(u), v),
    ensures
        t.source_index == p.source_index,
        v.source_index == p.source_index,
{
    lemma_next_source_steps_forward(p, q);
    assert(q.sources == p.sources);
    assert(u.sources == p.sources);
    assert(u.source_index < u.sources@.len());
    lemma_next_source_steps_forward(u, v);
}

/// What a key press does on the leaderboard page.
#[derive(Debug, Clone, Copy, PartialEq, Eq, Structural)]
pub enum LeaderboardCommand {
    PreviousSource,
    NextSource,
    Up,
    Down,
    First,
    Last,
    PageUp,
    PageDown,
    Activate,
    Add(InsertPosition),
    Leave,
    Refresh,
    Ignore,
}

/// The command a key stands for, `board_open` telling whether a board's
/// songs are shown.
pub open spec fn command_of(key: KeyEvent, board_open: bool) -> LeaderboardCommand {
    let m = key.modifiers;
    let c = key.code;
    if (m == MOD_CONTROL && (c == KeyCode::Left || c == KeyCode::Char('h'))) || (m == MOD_NONE
        && c == KeyCode::Char('[')) {
        LeaderboardCommand::PreviousSource
    } else if (m == MOD_CONTROL && (c == KeyCode::Right || c == KeyCode::Char('l'))) || (m
        == MOD_NONE && c == KeyCode::Char(']')) {
        LeaderboardCommand::NextSource
    } else if m == MOD_NONE && c == KeyCode::Left && !board_open {
        LeaderboardCommand::PreviousSource
    } else if m == MOD_NONE && c == KeyCode::Right && !board_open {
        LeaderboardCommand::NextSource
    } else if m == MOD_NONE && (c == KeyCode::Up || c == KeyCode::Char('e')) {
        LeaderboardCommand::Up
    } else if m == MOD_NONE && (c == KeyCode::Down || c == KeyCode::Char('n')) {
        LeaderboardCommand::Down
    } else if m == MOD_NONE && (c == KeyCode::Home || c == KeyCode::Char('g')) {
        LeaderboardCommand::First
    } else if (m == MOD_NONE && (c == KeyCode::End || c == KeyCode::Char('G'))) || (m == MOD_SHIFT
        && c == KeyCode::Char('G')) {
        LeaderboardCommand::Last
    } else if (m == MOD_CONTROL && c == KeyCode::Char('u')) || (m == MOD_NONE && c
        == KeyCode::PageUp) {
        LeaderboardCommand::PageUp
    } else if (m == MOD_CONTROL && c == KeyCode::Char('d')) || (m == MOD_NONE && c
        == KeyCode::PageDown) {
        LeaderboardCommand::PageDown
    } else if m == MOD_NONE && (c == KeyCode::Enter || c == KeyCode::Char('\r') || c
        == KeyCode::Char('i')) {
        LeaderboardCommand::Activate
    } else if m == MOD_NONE && c == KeyCode::Char('a') && board_open {
        LeaderboardCommand::Add(InsertPosition::End)
    } else if ((m == MOD_NONE || m == MOD_SHIFT) && c == KeyCode::Char('A')) && board_open {
        LeaderboardCommand::Add(InsertPosition::Next)
    } else if m == MOD_NONE && (c == KeyCode::Char('h') || c == KeyCode::Left || c == KeyCode::Esc)
        && board_open {
        LeaderboardCommand::Leave
    } else if m == MOD_NONE && c == KeyCode::Char('r') {
        LeaderboardCommand::Refresh
    } else {
        LeaderboardCommand::Ignore
    }
}

/// Reads a key press as a leaderboard command.
pub fn leaderboard_command(key: &KeyEvent, board_open: bool) -> (r: LeaderboardCommand)
    ensures
        r == command_of(*key, board_open),
{
    let m = key.modifiers;
    let c = key.code;
    if (m == MOD_CONTROL && (c == KeyCode::Left || c == KeyCode::Char('h'))) || (m == MOD_NONE
        && c == KeyCode::Char('[')) {
        LeaderboardCommand::PreviousSource
    } else if (m == MOD_CONTROL && (c == KeyCode::Right || c == KeyCode::Char('l'))) || (m
        == MOD_NONE && c == KeyCode::Char(']')) {
        LeaderboardCommand::NextSource
    } else if m == MOD_NONE && c == KeyCode::Left && !board_open {
        LeaderboardCommand::PreviousSource
    } else if m == MOD_NONE && c == KeyCode::Right && !board_open {
        LeaderboardCommand::NextSource
    } else if m == MOD_NONE && (c == KeyCode::Up || c == KeyCode::Char('e')) {
        LeaderboardCommand::Up
    } else if m == MOD_NONE && (c == KeyCode::Down || c == KeyCode::Char('n')) {
        LeaderboardCommand::Down
    } else if m == MOD_NONE && (c == KeyCode::Home || c == KeyCode::Char('g')) {
        LeaderboardCommand::First
    } else if (m == MOD_NONE && (c == KeyCode::End || c == KeyCode::Char('G'))) || (m == MOD_SHIFT
        && c == KeyCode::Char('G')) {
        LeaderboardCommand::Last
    } else if (m == MOD_CONTROL && c == KeyCode::Char('u')) || (m == MOD_NONE && c
        == KeyCode::PageUp) {
        LeaderboardCommand::PageUp
    } else if (m == MOD_CONTROL && c == KeyCode::Char('d')) || (m == MOD_NONE && c
        == KeyCode::PageDown) {
        LeaderboardCommand::PageDown
    } else if m == MOD_NONE && (c == KeyCode::Enter || c == KeyCode::Char('\r') || c
        == KeyCode::Char('i')) {
        LeaderboardCommand::Activate
    } else if m == MOD_NONE && c == KeyCode::Char('a') && board_open {
        LeaderboardCommand::Add(InsertPosition::End)
    } else if ((m == MOD_NONE || m == MOD_SHIFT) && c == KeyCode::Char('A')) && board_open {
        LeaderboardCommand::Add(InsertPosition::Next)
    } else if m == MOD_NONE && (c == KeyCode::Char('h') || c == KeyCode::Left || c == KeyCode::Esc)
        && board_open {
        LeaderboardCommand::Leave
    } else if m == MOD_NONE && c == KeyCode::Char('r') {
        LeaderboardCommand::Refresh
    } else {
        LeaderboardCommand::Ignore
    }
}

/// `q` and the returned action `r` are what `command` does to `p`.
pub open spec fn command_effect(
    p: LeaderboardPage,
    command: LeaderboardCommand,
    wrap: bool,
    q: LeaderboardPage,
    r: AppAction,
) -> bool {
    match command {
        LeaderboardCommand::PreviousSource => r == AppAction::NoOp && if p.sources@.len() == 0 {
            q == p
        } else {
            switched(p, previous_source_index(p), q)
        },
        LeaderboardCommand::NextSource => r == AppAction::NoOp && if p.sources@.len() == 0 {
            q == p
        } else {
            switched(p, next_source_index(p), q)
        },
        LeaderboardCommand::Up => r == AppAction::NoOp && q == LeaderboardPage {
            selected: step_up(p.selected as int, list_len(p), wrap) as usize,
            ..p
        },
        LeaderboardCommand::Down => r == AppAction::NoOp && q == LeaderboardPage {
            selected: step_down(p.selected as int, list_len(p), wrap) as usize,
            ..p
        },
        LeaderboardCommand::First => r == AppAction::NoOp && q == LeaderboardPage {
            selected: 0,
            ..p
        },
        LeaderboardCommand::Last => r == AppAction::NoOp && q == LeaderboardPage {
            selected: last_index(list_len(p)) as usize,
            ..p
        },
        LeaderboardCommand::PageUp => r == AppAction::NoOp && q == LeaderboardPage {
            selected: crate::listnav::sat_sub(p.selected as int, 10) as usize,
            ..p
        },
        LeaderboardCommand::PageDown => r == AppAction::NoOp && q == LeaderboardPage {
            selected: min_int(p.selected + 10, last_index(list_len(p))) as usize,
            ..p
        },
        LeaderboardCommand::Activate => if p.selected_board is Some && p.songs@.len() > 0 {
            q == p && r is PlaySong && r->songs@ == p.songs@ && r->index == p.selected
        } else {
            r == AppAction::NoOp && entered(p, q)
        },
        LeaderboardCommand::Add(position) => q == p && if p.selected < p.songs@.len() {
            r == AppAction::AddToQueue { song: p.songs@[p.selected as int], position }
        } else {
            r == AppAction::NoOp
        },
        LeaderboardCommand::Leave => r == AppAction::NoOp && left(p, q),
        LeaderboardCommand::Refresh => r == AppAction::NoOp && refreshed(p, q),
        LeaderboardCommand::Ignore => r == AppAction::NoOp && q == p,
    }
}


/// Width of the board box when boards and songs stand side by side.
pub const BOARD_BOX_WIDTH: u16 = 30;

/// `q` and `r` are what a mouse event does to `p` on a page laid out as
/// `page`, whose tab row holds the tabs `tabs`:
/// the wheel moves the selection by `step` rows, a click on a source tab
/// chooses it, a click on a board selects it (and opens it when
/// `activate`), and a click on a song of the open board selects it (and
/// plays the board from it when `activate`).
pub open spec fn mouse_effect(
    p: LeaderboardPage,
    event: MouseEvent,
    page: PageChunks,
    tabs: Seq<Rect>,
    step: int,
    activate: bool,
    q: LeaderboardPage,
    r: AppAction,
) -> bool {
    let column = event.column as int;
    let row = event.row as int;
    let tab = first_hit(tabs, column, row);
    let board_inner = inner_of(page.list);
    let board_index = p.board_scroll_offset + (row - board_inner.y);
    let song_inner = inner_of(page.songs);
    let list_y = sat_add16(song_inner.y as int, 1);
    let song_index = p.song_scroll_offset + (row - list_y);
    match event.kind {
        MouseEventKind::ScrollUp => r == AppAction::NoOp && q == LeaderboardPage {
            selected: sat_sub(p.selected as int, step) as usize,
            ..p
        },
        MouseEventKind::ScrollDown => r == AppAction::NoOp && q == LeaderboardPage {
            selected: min_int(p.selected + step, last_index(list_len(p))) as usize,
            ..p
        },
        MouseEventKind::Down(MouseButton::Left) => if tab is Some {
            r == AppAction::NoOp && switched(p, tab->0, q)
        } else if inside(board_inner, column, row) {
            &&& r == AppAction::NoOp
            &&& if board_index < p.boards@.len() {
                if activate {
                    entered(LeaderboardPage { selected: board_index as usize, ..p }, q)
                } else if p.selected_board is None {
                    q == LeaderboardPage { selected: board_index as usize, ..p }
                } else {
                    q == p
                }
            } else {
                q == p
            }
        } else if p.selected_board is Some && list_y <= row < bottom_of(song_inner) && song_index
            < p.songs@.len() {
            &&& q == LeaderboardPage { selected: song_index as usize, ..p }
            &&& if activate {
                r is PlaySong && r->songs@ == p.songs@ && r->index == song_index
            } else {
                r == AppAction::NoOp
            }
        } else {
            r == AppAction::NoOp && q == p
        },
        _ => r == AppAction::NoOp && q == p,
    }
}

/// An answer to request `id` for the boards of `source` is still wanted:
/// `id` is the latest request and `source` is still shown.
pub open spec fn boards_answer_wanted(p: LeaderboardPage, id: u64, latest: u64, source: SourceId) -> bool {
    id == latest && source_of(p) == Some(source)
}

/// An answer to request `id` for the songs of board `board_id` of
/// `source` is still wanted: `id` is the latest request and that board is
/// still open on `source`.
pub open spec fn songs_answer_wanted(
    p: LeaderboardPage,
    id: u64,
    latest: u64,
    source: SourceId,
    board_id: Seq<char>,
) -> bool {
    id == latest && source_of(p) == Some(source) && board_of(p) is Some && board_of(p)->0.id@
        == board_id
}

/// The notification of a failed load: an error reading `prefix` then
/// the failure.
pub open spec fn failure_note(r: Option<Notification>, prefix: Seq<char>, message: Seq<char>) -> bool {
    r is Some && r->0.level == NotificationLevel::Error && r->0.message@ == prefix + message
}

/// The caption of a source tab: name and code when the row is at least
/// 48 columns wide, else the code.
pub open spec fn tab_caption(source: SourceId, width: int) -> Seq<char> {
    if width >= 48 {
        source_caption(source)
    } else {
        crate::model::source_code(source)
    }
}

/// The caption of the tab of `source` in a row `width` columns wide.
pub fn source_tab_label(source: SourceId, width: u16) -> (r: &'static str)
    ensures
        r@ == tab_caption(source, width as int),
{
    if width >= 48 {
        source_label(source)
    } else {
        source.as_str()
    }
}

/// The line of board number `index` (from 0) in a box `width` columns
/// wide: its number right-aligned in two columns and a dot, then its
/// name (with its update note when the box is at least 34 wide), cut to
/// the room left.
pub open spec fn board_line(board: LeaderboardInfo, index: int, width: int) -> Seq<char> {
    let prefix = padded_left(decimal_digits((index + 1) as nat), 2) + ". "@;
    let label = if width >= 34 && board.update is Some {
        board.name@ + "  "@ + board.update->0@
    } else {
        board.name@
    };
    prefix + truncated(label, crate::listnav::sat_sub(width, prefix.len() as int) as nat)
}

/// The line of board number `index` in a box `width` columns wide.
pub fn board_row_text(board: &LeaderboardInfo, index: usize, width: u16) -> (r: String)
    requires
        index < u64::MAX,
    ensures
        r@ == board_line(*board, index as int, width as int),
{
    let number = decimal(index as u64 + 1);
    let mut prefix = pad_left(number.as_str(), 2);
    prefix.append(". ");
    let used = prefix.unicode_len();
    let available: usize = if (width as usize) > used {
        width as usize - used
    } else {
        0
    };
    let label = match &board.update {
        Some(update) => if width >= 34 {
            let mut l = board.name.clone();
            l.append("  ");
            l.append(update.as_str());
            l
        } else {
            board.name.clone()
        },
        None => board.name.clone(),
    };
    let cut = truncate_chars(label.as_str(), available);
    prefix.append(cut.as_str());
    prefix
}

/// The title of the board box: "榜单 (count)".
pub open spec fn boards_caption(p: LeaderboardPage) -> Seq<char> {
    "榜单 ("@ + decimal_digits(p.boards@.len()) + ")"@
}

/// The title of the song box: the open board's source and name, else
/// "歌曲列表".
pub open spec fn songs_caption(p: LeaderboardPage) -> Seq<char> {
    match board_of(p) {
        Some(board) => source_title(board.source) + " · "@ + board.name@,
        None => "歌曲列表"@,
    }
}

/// The board list shows rows (rather than a message) and follows the
/// selection: sources exist, no board is open, nothing failed or is
/// loading, and boards are there.
pub open spec fn boards_listed(p: LeaderboardPage) -> bool {
    p.sources@.len() > 0 && p.selected_board is None && p.error_message is None
        && !p.boards_loading && p.boards@.len() > 0
}

/// The song list of the open board shows rows: nothing failed or is
/// loading and songs are there.
pub open spec fn songs_listed(p: LeaderboardPage) -> bool {
    p.selected_board is Some && p.error_message is None && !p.songs_loading && p.songs@.len() > 0
}

impl LeaderboardPage {
    /// A page over `sources`, the first one chosen, nothing loaded.
    pub fn new(sources: Vec<SourceId>) -> (r: LeaderboardPage)
        ensures
            r.sources == sources,
            r.source_index == 0,
            r.boards@.len() == 0,
            r.songs@.len() == 0,
            r.selected == 0,
            r.selected_board is None,
            !r.boards_loaded && !r.boards_loading && !r.songs_loaded && !r.songs_loading,
            r.board_scroll_offset == 0,
            r.song_scroll_offset == 0,
            r.error_message is None,
            r.board_cache@ == Map::<SourceId, Seq<LeaderboardInfo>>::empty(),
            r.song_cache@ == Map::<(SourceId, Seq<char>), Seq<SongInfo>>::empty(),
    {
        LeaderboardPage {
            sources,
            source_index: 0,
            boards: Vec::new(),
            songs: Vec::new(),
            selected: 0,
            selected_board: None,
            boards_loaded: false,
            boards_loading: false,
            songs_loaded: false,
            songs_loading: false,
            board_scroll_offset: 0,
            song_scroll_offset: 0,
            error_message: None,
            board_cache: SourceCache::new(),
            song_cache: ItemCache::new(),
        }
    }

    /// The source whose boards are shown.
    pub fn current_source(&self) -> (r: Option<SourceId>)
        ensures
            r == source_of(*self),
    {
        if self.source_index < self.sources.len() {
            Some(self.sources[self.source_index])
        } else {
            None
        }
    }

    /// The board whose songs are shown.
    pub fn current_board(&self) -> (r: Option<&LeaderboardInfo>)
        ensures
            match r {
                Some(b) => board_of(*self) == Some(*b),
                None => board_of(*self) is None,
            },
    {
        match self.selected_board {
            Some(i) => if i < self.boards.len() {
                Some(&self.boards[i])
            } else {
                None
            },
            None => None,
        }
    }

    /// What should be loaded next, if anything.
    pub fn next_load_request(&self) -> (r: Option<LeaderboardLoadRequest>)
        ensures
            r == next_request(*self),
    {
        let source = match self.current_source() {
            Some(s) => s,
            None => return None,
        };
        match self.current_board() {
            Some(board) => {
                if !self.songs_loading && !self.songs_loaded {
                    return Some(
                        LeaderboardLoadRequest::Songs { source, board_id: board.id.clone() },
                    );
                }
                None
            },
            None => {
                if !self.boards_loading && !self.boards_loaded {
                    return Some(LeaderboardLoadRequest::Boards { source });
                }
                None
            },
        }
    }

    /// Marks `request` as loading.
    pub fn begin_loading(&mut self, request: &LeaderboardLoadRequest)
        ensures
            began(*old(self), *request, *final(self)),
    {
        self.error_message = None;
        match request {
            LeaderboardLoadRequest::Boards { .. } => {
                self.boards_loading = true;
                self.boards_loaded = false;
            },
            LeaderboardLoadRequest::Songs { .. } => {
                self.songs_loading = true;
                self.songs_loaded = false;
            },
        }
    }

    /// The title of the board box.
    pub fn boards_title(&self) -> (r: String)
        ensures
            r@ == boards_caption(*self),
    {
        let count = decimal(self.boards.len() as u64);
        let mut s = crate::model::joined("榜单 (", count.as_str());
        s.append(")");
        s
    }

    /// The title of the song box.
    pub fn songs_title(&self) -> (r: String)
        ensures
            r@ == songs_caption(*self),
    {
        match self.current_board() {
            Some(board) => {
                let mut s = String::from_str(source_name(board.source));
                s.append(" · ");
                s.append(board.name.as_str());
                s
            },
            None => {
                proof {
                    reveal_strlit("歌曲列表");
                }
                String::from_str("歌曲列表")
            },
        }
    }

    /// Starts loading what the page needs next, if anything, under the
    /// next number of the request counter `request_id`.
    pub fn start_next_load(&mut self, request_id: &mut u64) -> (r: Option<LeaderboardLoadRequest>)
        ensures
            r == next_request(*old(self)),
            match r {
                Some(request) => began(*old(self), request, *final(self)) && *final(request_id)
                    == next_request_id(*old(request_id)),
                None => *final(self) == *old(self) && *final(request_id) == *old(request_id),
            },
    {
        let request = match self.next_load_request() {
            Some(request) => request,
            None => return None,
        };
        self.begin_loading(&request);
        *request_id = advance_request_id(*request_id);
        Some(request)
    }

    /// Takes the answer to request `id` for the boards of `source`, if it
    /// is still wanted (`latest` is the last request made); a failure is
    /// shown on the page and returned as a notification.
    pub fn take_boards_answer(
        &mut self,
        id: u64,
        latest: u64,
        source: SourceId,
        result: Result<Vec<LeaderboardInfo>, String>,
    ) -> (r: Option<Notification>)
        ensures
            !boards_answer_wanted(*old(self), id, latest, source) ==> r is None && *final(self)
                == *old(self),
            boards_answer_wanted(*old(self), id, latest, source) ==> match result {
                Ok(boards) => r is None && boards_arrived(*old(self), source, boards@, *final(self)),
                Err(message) => failed(
                    *old(self),
                    LeaderboardLoadRequest::Boards { source },
                    message,
                    *final(self),
                ) && failure_note(r, "加载榜单目录失败: "@, message@),
            },
    {
        if id != latest || self.current_source() != Some(source) {
            return None;
        }
        match result {
            Ok(boards) => {
                self.update_boards(source, boards);
                None
            },
            Err(message) => {
                let note = joined("加载榜单目录失败: ", message.as_str());
                self.update_error(&LeaderboardLoadRequest::Boards { source }, message);
                Some(Notification::error(note))
            },
        }
    }

    /// Takes the answer to request `id` for the songs of board `board_id`
    /// of `source`, if it is still wanted; a failure is shown on the page
    /// and returned as a notification.
    pub fn take_songs_answer(
        &mut self,
        id: u64,
        latest: u64,
        source: SourceId,
        board_id: String,
        result: Result<Vec<SongInfo>, String>,
    ) -> (r: Option<Notification>)
        ensures
            !songs_answer_wanted(*old(self), id, latest, source, board_id@) ==> r is None
                && *final(self) == *old(self),
            songs_answer_wanted(*old(self), id, latest, source, board_id@) ==> match result {
                Ok(songs) => r is None && songs_arrived(
                    *old(self),
                    source,
                    board_id@,
                    songs@,
                    *final(self),
                ),
                Err(message) => failed(
                    *old(self),
                    LeaderboardLoadRequest::Songs { source, board_id },
                    message,
                    *final(self),
                ) && failure_note(r, "加载榜单歌曲失败: "@, message@),
            },
    {
        if id != latest || self.current_source() != Some(source) {
            return None;
        }
        let open = match self.current_board() {
            Some(board) => board.id == board_id,
            None => false,
        };
        if !open {
            return None;
        }
        match result {
            Ok(songs) => {
                self.update_songs(source, board_id.as_str(), songs);
                None
            },
            Err(message) => {
                let note = joined("加载榜单歌曲失败: ", message.as_str());
                self.update_error(&LeaderboardLoadRequest::Songs { source, board_id }, message);
                Some(Notification::error(note))
            },
        }
    }

    /// Takes in the boards loaded for `source`.
    pub fn update_boards(&mut self, source: SourceId, boards: Vec<LeaderboardInfo>)
        ensures
            boards_arrived(*old(self), source, boards@, *final(self)),
    {
        self.board_cache.insert(source, copy_boards(&boards));
        if self.current_source() != Some(source) || self.selected_board.is_some() {
            return ;
        }
        self.boards = boards;
        self.boards_loading = false;
        self.boards_loaded = true;
        self.error_message = None;
        let last = self.boards.len().saturating_sub(1);
        if last < self.selected {
            self.selected = last;
        }
        self.board_scroll_offset = 0;
    }

    /// Takes in the songs loaded for board `board_id` of `source`.
    pub fn update_songs(&mut self, source: SourceId, board_id: &str, songs: Vec<SongInfo>)
        ensures
            songs_arrived(*old(self), source, board_id@, songs@, *final(self)),
    {
        let key = String::from_str(board_id);
        self.song_cache.insert(source, String::from_str(board_id), copy_songs(&songs));
        let showing = match self.current_board() {
            Some(board) => self.current_source() == Some(source) && board.id == key,
            None => false,
        };
        if !showing {
            return ;
        }
        self.songs = songs;
        self.songs_loading = false;
        self.songs_loaded = true;
        self.error_message = None;
        self.selected = 0;
        self.song_scroll_offset = 0;
    }

    /// Records that `request` failed with `message`.
    pub fn update_error(&mut self, request: &LeaderboardLoadRequest, message: String)
        ensures
            failed(*old(self), *request, message, *final(self)),
    {
        match request {
            LeaderboardLoadRequest::Boards { source } => {
                if self.current_source() == Some(*source) && self.selected_board.is_none() {
                    self.boards.clear();
                    self.boards_loading = false;
                    self.boards_loaded = true;
                    self.error_message = Some(message);
                }
            },
            LeaderboardLoadRequest::Songs { source, board_id } => {
                let showing = match self.current_board() {
                    Some(board) => self.current_source() == Some(*source) && board.id == *board_id,
                    None => false,
                };
                if showing {
                    self.songs.clear();
                    self.songs_loading = false;
                    self.songs_loaded = true;
                    self.error_message = Some(message);
                }
            },
        }
        self.selected = 0;
    }

    /// The length of the list the selection moves in.
    pub fn current_list_len(&self) -> (r: usize)
        ensures
            r == list_len(*self),
    {
        if self.selected_board.is_some() {
            self.songs.len()
        } else {
            self.boards.len()
        }
    }

    /// Moves the selection up one row.
    pub fn move_selection_up(&mut self, wrap: bool)
        ensures
            *final(self) == (LeaderboardPage {
                selected: step_up(old(self).selected as int, list_len(*old(self)), wrap) as usize,
                ..*old(self)
            }),
    {
        let len = self.current_list_len();
        self.selected = select_up(self.selected, len, wrap);
    }

    /// Moves the selection down one row.
    pub fn move_selection_down(&mut self, wrap: bool)
        ensures
            *final(self) == (LeaderboardPage {
                selected: step_down(old(self).selected as int, list_len(*old(self)), wrap) as usize,
                ..*old(self)
            }),
    {
        let len = self.current_list_len();
        self.selected = select_down(self.selected, len, wrap);
    }

    /// Opens the selected board.
    pub fn enter_selected_board(&mut self)
        ensures
            entered(*old(self), *final(self)),
    {
        if self.selected_board.is_some() || self.selected >= self.boards.len() {
            return ;
        }
        let board_index = self.selected;
        let source = self.boards[board_index].source;
        let id = self.boards[board_index].id.clone();
        self.selected_board = Some(board_index);
        self.selected = 0;
        self.song_scroll_offset = 0;
        self.error_message = None;
        self.songs_loading = false;
        match self.song_cache.get(source, &id) {
            Some(songs) => {
                self.songs = copy_songs(songs);
                self.songs_loaded = true;
            },
            None => {
                self.songs.clear();
                self.songs_loaded = false;
            },
        }
    }

    /// Closes the open board and selects it in the board list.
    pub fn leave_board(&mut self)
        ensures
            left(*old(self), *final(self)),
    {
        let board_index = match self.selected_board {
            Some(i) => i,
            None => 0,
        };
        self.selected_board = None;
        self.songs.clear();
        self.songs_loaded = false;
        self.songs_loading = false;
        self.error_message = None;
        let last = self.boards.len().saturating_sub(1);
        self.selected = if board_index < last {
            board_index
        } else {
            last
        };
        self.song_scroll_offset = 0;
    }

    /// Forgets what is shown so that it loads again.
    pub fn refresh_current(&mut self)
        ensures
            refreshed(*old(self), *final(self)),
    {
        let source = match self.current_source() {
            Some(s) => s,
            None => return ,
        };
        self.error_message = None;
        let board_id = match self.current_board() {
            Some(board) => Some(board.id.clone()),
            None => None,
        };
        match board_id {
            Some(id) => {
                self.song_cache.remove(source, &id);
                self.songs.clear();
                self.songs_loaded = false;
                self.songs_loading = false;
                self.selected = 0;
                self.song_scroll_offset = 0;
            },
            None => {
                self.board_cache.remove(source);
                self.boards.clear();
                self.boards_loaded = false;
                self.boards_loading = false;
                self.selected = 0;
                self.board_scroll_offset = 0;
            },
        }
    }

    /// Chooses the source before the current one, wrapping.
    pub fn select_previous_source(&mut self)
        ensures
            if old(self).sources@.len() == 0 {
                *final(self) == *old(self)
            } else {
                switched(*old(self), previous_source_index(*old(self)), *final(self))
            },
    {
        if self.sources.len() == 0 {
            return ;
        }
        let index = if self.source_index == 0 {
            self.sources.len() - 1
        } else {
            self.source_index - 1
        };
        self.select_source(index);
    }

    /// Chooses the source after the current one, wrapping.
    pub fn select_next_source(&mut self)
        ensures
            if old(self).sources@.len() == 0 {
                *final(self) == *old(self)
            } else {
                switched(*old(self), next_source_index(*old(self)), *final(self))
            },
    {
        if self.sources.len() == 0 {
            return ;
        }
        let n = self.sources.len();
        let index = (self.source_index % n + 1) % n;
        proof {
            let a = self.source_index as int;
            let m = n as int;
            vstd::arithmetic::div_mod::lemma_add_mod_noop(a, 1, m);
            vstd::arithmetic::div_mod::lemma_mod_twice(1, m);
            if m == 1 {
                assert(1int % 1 == 0);
            } else {
                vstd::arithmetic::div_mod::lemma_small_mod(1, m as nat);
            }
        }
        self.select_source(index);
    }

    /// Chooses the source at `index`.
    pub fn select_source(&mut self, index: usize)
        ensures
            switched(*old(self), index as int, *final(self)),
    {
        if index >= self.sources.len() || index == self.source_index {
            return ;
        }
        self.source_index = index;
        self.selected_board = None;
        self.songs.clear();
        self.songs_loaded = false;
        self.songs_loading = false;
        self.error_message = None;
        self.selected = 0;
        self.board_scroll_offset = 0;
        self.song_scroll_offset = 0;
        let source = self.sources[index];
        match self.board_cache.get(source) {
            Some(boards) => {
                self.boards = copy_boards(boards);
                self.boards_loaded = true;
                self.boards_loading = false;
            },
            None => {
                self.boards.clear();
                self.boards_loaded = false;
                self.boards_loading = false;
            },
        }
    }

    /// Acts on a key press; `wrap` tells whether moving past either end
    /// of a list wraps around.
    pub fn handle_input(&mut self, key: &KeyEvent, wrap: bool) -> (r: AppAction)
        ensures
            command_effect(
                *old(self),
                command_of(*key, old(self).selected_board is Some),
                wrap,
                *final(self),
                r,
            ),
    {
        let command = leaderboard_command(key, self.selected_board.is_some());
        match command {
            LeaderboardCommand::PreviousSource => {
                self.select_previous_source();
            },
            LeaderboardCommand::NextSource => {
                self.select_next_source();
            },
            LeaderboardCommand::Up => {
                self.move_selection_up(wrap);
            },
            LeaderboardCommand::Down => {
                self.move_selection_down(wrap);
            },
            LeaderboardCommand::First => {
                self.selected = 0;
            },
            LeaderboardCommand::Last => {
                self.selected = self.current_list_len().saturating_sub(1);
            },
            LeaderboardCommand::PageUp => {
                self.selected = self.selected.saturating_sub(10);
            },
            LeaderboardCommand::PageDown => {
                self.selected = page_down(self.selected, 10, self.current_list_len());
            },
            LeaderboardCommand::Activate => {
                if self.selected_board.is_some() && self.songs.len() > 0 {
                    return AppAction::PlaySong { songs: copy_songs(&self.songs), index: self.selected };
                }
                self.enter_selected_board();
            },
            LeaderboardCommand::Add(position) => {
                if self.selected < self.songs.len() {
                    return AppAction::AddToQueue { song: self.songs[self.selected].duplicate(), position };
                }
            },
            LeaderboardCommand::Leave => {
                self.leave_board();
            },
            LeaderboardCommand::Refresh => {
                self.refresh_current();
            },
            LeaderboardCommand::Ignore => {},
        }
        AppAction::NoOp
    }

    /// Acts on a mouse event on a page laid out as `page`, with the
    /// tabs `tabs` (one per source); the wheel moves by
    /// `scroll_amount` rows (at least one).
    pub fn handle_mouse_on(
        &mut self,
        event: &MouseEvent,
        page: &PageChunks,
        tabs: &Vec<Rect>,
        scroll_amount: usize,
        activate: bool,
    ) -> (r: AppAction)
        requires
            tabs@.len() == old(self).sources@.len(),
        ensures
            mouse_effect(
                *old(self),
                *event,
                *page,
                tabs@,
                wheel_rows(scroll_amount as int),
                activate,
                *final(self),
                r,
            ),
    {
        let step = if scroll_amount >= 1 {
            scroll_amount
        } else {
            1
        };
        match event.kind {
            MouseEventKind::ScrollUp => {
                self.selected = self.selected.saturating_sub(step);
            },
            MouseEventKind::ScrollDown => {
                let len = self.current_list_len();
                self.selected = page_down(self.selected, step, len);
            },
            MouseEventKind::Down(MouseButton::Left) => {
                match hit_index(tabs, event.column, event.row) {
                    Some(index) => {
                        self.select_source(index);
                        return AppAction::NoOp;
                    },
                    None => {},
                }
                let board_inner = bordered_inner(page.list);
                if board_inner.contains(event.column, event.row) {
                    let offset = (event.row - board_inner.y) as usize;
                    let len = self.boards.len();
                    if self.board_scroll_offset < len && offset < len - self.board_scroll_offset {
                        let index = self.board_scroll_offset + offset;
                        if activate {
                            self.selected = index;
                            self.enter_selected_board();
                        } else if self.selected_board.is_none() {
                            self.selected = index;
                        }
                    }
                    return AppAction::NoOp;
                }
                if self.selected_board.is_some() {
                    let song_inner = bordered_inner(page.songs);
                    let list_y = song_inner.y.saturating_add(1);
                    if event.row >= list_y && event.row < song_inner.bottom() {
                        let offset = (event.row - list_y) as usize;
                        let len = self.songs.len();
                        if self.song_scroll_offset < len && offset < len - self.song_scroll_offset {
                            let index = self.song_scroll_offset + offset;
                            self.selected = index;
                            if activate {
                                return AppAction::PlaySong { songs: copy_songs(&self.songs), index };
                            }
                        }
                    }
                }
            },
            _ => {},
        }
        AppAction::NoOp
    }

    /// Acts on a mouse event over the page `area`; the wheel moves by
    /// `scroll_amount` rows (at least one).  The page is laid out by the
    /// layout solver; whatever parts it gives, the event acts as on a page
    /// laid out so.
    pub fn handle_mouse(&mut self, event: &MouseEvent, area: Rect, scroll_amount: usize, activate: bool) -> (r:
        AppAction)
        requires
            old(self).sources@.len() <= u32::MAX,
        ensures
            exists|page: PageChunks, tabs: Seq<Rect>|
                page_placed(area, page) && tabs_placed(page.tabs, old(self).sources@.len() as int, tabs)
                    && #[trigger] mouse_effect(
                    *old(self),
                    *event,
                    page,
                    tabs,
                    wheel_rows(scroll_amount as int),
                    activate,
                    *final(self),
                    r,
                ),
    {
        let page = split_page(area, self.boards.len(), BOARD_BOX_WIDTH);
        let tabs = tab_rects(page.tabs, self.sources.len());
        self.handle_mouse_on(event, &page, &tabs, scroll_amount, activate)
    }

    /// Before the page is drawn: the board list scrolls so that the
    /// selected board shows in its `board_rows` rows, and the song list of
    /// the open board so that the selected song shows in its `song_rows`
    /// rows; a list showing a message instead keeps its scroll.
    pub fn fit_views(&mut self, board_rows: usize, song_rows: usize)
        ensures
            final(self).board_scroll_offset == if boards_listed(*old(self)) && board_rows > 0 {
                visible_offset(
                    old(self).selected as int,
                    board_rows as int,
                    old(self).boards@.len() as int,
                    old(self).board_scroll_offset as int,
                ) as usize
            } else {
                old(self).board_scroll_offset
            },
            final(self).song_scroll_offset == if songs_listed(*old(self)) && song_rows > 0 {
                visible_offset(
                    old(self).selected as int,
                    song_rows as int,
                    old(self).songs@.len() as int,
                    old(self).song_scroll_offset as int,
                ) as usize
            } else {
                old(self).song_scroll_offset
            },
            *final(self) == (LeaderboardPage {
                board_scroll_offset: final(self).board_scroll_offset,
                song_scroll_offset: final(self).song_scroll_offset,
                ..*old(self)
            }),
    {
        if self.sources.len() > 0 && self.selected_board.is_none() && self.error_message.is_none()
            && !self.boards_loading && self.boards.len() > 0 && board_rows > 0 {
            ensure_visible(self.selected, board_rows, self.boards.len(), &mut self.board_scroll_offset);
        }
        if self.selected_board.is_some() && self.error_message.is_none() && !self.songs_loading
            && self.songs.len() > 0 && song_rows > 0 {
            ensure_visible(self.selected, song_rows, self.songs.len(), &mut self.song_scroll_offset);
        }
    }
}

/// Once a request is loading, the page does not ask for it again.
pub proof fn lemma_loading_request_not_repeated(
    p: LeaderboardPage,
    request: LeaderboardLoadRequest,
    q: LeaderboardPage,
)
    requires
        next_request(p) == Some(request),
        began(p, request, q),
    ensures
        next_request(q) is None,
{
}

/// Boards that arrive for the shown source satisfy the page: they are
/// shown and nothing more is requested.
pub proof fn lemma_arrived_boards_are_shown(
    p: LeaderboardPage,
    source: SourceId,
    boards: Seq<LeaderboardInfo>,
    q: LeaderboardPage,
)
    requires
        source_of(p) == Some(source),
        p.selected_board is None,
        boards_arrived(p, source, boards, q),
    ensures
        q.boards@ == boards,
        next_request(q) is None,
{
}

/// Boards loaded for a source come back from the cache, without a new
/// request, when one switches away and returns to that source.
pub proof fn lemma_boards_cached_per_source(
    p: LeaderboardPage,
    boards: Seq<LeaderboardInfo>,
    q: LeaderboardPage,
    away: usize,
    r: LeaderboardPage,
    s: LeaderboardPage,
)
    requires
        source_of(p) is Some,
        boards_arrived(p, source_of(p)->0, boards, q),
        switched(q, away as int, r),
        away != p.source_index,
        away < p.sources@.len(),
        switched(r, p.source_index as int, s),
    ensures
        s.boards@ == boards,
        s.boards_loaded,
        next_request(s) is None,
{
    let source = source_of(p)->0;
    assert(q.board_cache@.contains_key(source));
    assert(q.board_cache@[source] == boards);
    assert(q.sources == p.sources);
    assert(q.source_index == p.source_index);
    assert(r.board_cache == q.board_cache);
    assert(r.sources == p.sources);
    assert(r.source_index == away);
    assert(r.sources@[p.source_index as int] == source);
}

/// Songs loaded for a board come back from the cache, without a new
/// request, when the board is opened again.
pub proof fn lemma_songs_cached_per_board(
    p: LeaderboardPage,
    songs: Seq<SongInfo>,
    q: LeaderboardPage,
    r: LeaderboardPage,
    s: LeaderboardPage,
)
    requires
        source_of(p) is Some,
        board_of(p) is Some,
        board_of(p)->0.source == source_of(p)->0,
        songs_arrived(p, source_of(p)->0, board_of(p)->0.id@, songs, q),
        left(q, r),
        entered(r, s),
    ensures
        s.songs@ == songs,
        s.songs_loaded,
        next_request(s) is None,
{
    let i = p.selected_board->0;
    assert(r.selected == i);
}

/// A refresh with no board open asks for the boards of the source again.
pub proof fn lemma_refresh_requests_boards(p: LeaderboardPage, q: LeaderboardPage)
    requires
        source_of(p) is Some,
        p.selected_board is None,
        refreshed(p, q),
    ensures
        next_request(q) == Some(LeaderboardLoadRequest::Boards { source: source_of(p)->0 }),
{
}

/// Opening a board and closing it again leaves the selection on that
/// board.
pub proof fn lemma_leave_returns_to_board(p: LeaderboardPage, q: LeaderboardPage, r: LeaderboardPage)
    requires
        p.selected_board is None,
        p.selected < p.boards@.len(),
        entered(p, q),
        left(q, r),
    ensures
        r.selected == p.selected,
        r.selected_board is None,
        r.boards == p.boards,
{
}

} // verus!
