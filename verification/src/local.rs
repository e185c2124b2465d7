//! The local music page: the songs found in the configured directories,
//! browsed with the keys, played, queued, rescanned or deleted.  The
//! scan and the deletion are the application's part; the page decides.
use vstd::prelude::*;
use crate::input::{KeyCode, KeyEvent, MOD_CONTROL, MOD_NONE, MOD_SHIFT, activates, is_song_activation_key};
use crate::listnav::{
    ensure_visible, last_index, min_int, next_index, next_list_index, page_down, prev_index,
    previous_list_index, sat_sub, visible_offset,
};
use crate::model::{Action, AppAction, InsertPosition, SongInfo, copy_songs};

verus! {

/// What a key does on the local music page.
#[derive(Debug, Clone, Copy, PartialEq, Eq, Structural)]
pub enum LocalCommand {
    Rescan,
    Up,
    Down,
    First,
    Last,
    PageUp,
    PageDown,
    Add(InsertPosition),
    Delete,
    Activate,
    Ignore,
}

/// The command of a key that has no configured binding.
pub open spec fn unbound_command(key: KeyEvent) -> LocalCommand {
    let m = key.modifiers;
    let c = key.code;
    if m == MOD_NONE && c == KeyCode::Char('r') {
        LocalCommand::Rescan
    } else if m == MOD_NONE && c == KeyCode::Up {
        LocalCommand::Up
    } else if m == MOD_NONE && c == KeyCode::Down {
        LocalCommand::Down
    } else if m == MOD_NONE && (c == KeyCode::Home || c == KeyCode::Char('g')) {
        LocalCommand::First
    } else if (m == MOD_NONE && (c == KeyCode::End || c == KeyCode::Char('G'))) || (m == MOD_SHIFT
        && c == KeyCode::Char('G')) {
        LocalCommand::Last
    } else if (m == MOD_CONTROL && c == KeyCode::Char('u')) || (m == MOD_NONE && c
        == KeyCode::PageUp) {
        LocalCommand::PageUp
    } else if (m == MOD_CONTROL && c == KeyCode::Char('d')) || (m == MOD_NONE && c
        == KeyCode::PageDown) {
        LocalCommand::PageDown
    } else if activates(key) {
        LocalCommand::Activate
    } else if m == MOD_NONE && c == KeyCode::Char('a') {
        LocalCommand::Add(InsertPosition::End)
    } else if (m == MOD_NONE || m == MOD_SHIFT) && c == KeyCode::Char('A') {
        LocalCommand::Add(InsertPosition::Next)
    } else if m == MOD_NONE && (c == KeyCode::Char('d') || c == KeyCode::Delete) {
        LocalCommand::Delete
    } else {
        LocalCommand::Ignore
    }
}

/// The command of a key on the local music page: its configured page
/// binding when it has one (other bindings do nothing here), else the
/// built-in key.
pub open spec fn local_command(key: KeyEvent, binding: Option<Action>) -> LocalCommand {
    match binding {
        Some(Action::LocalRescan) => LocalCommand::Rescan,
        Some(Action::ListSelectUp) => LocalCommand::Up,
        Some(Action::ListSelectDown) => LocalCommand::Down,
        Some(Action::ListSelectFirst) => LocalCommand::First,
        Some(Action::ListSelectLast) => LocalCommand::Last,
        Some(Action::ListPageUp) => LocalCommand::PageUp,
        Some(Action::ListPageDown) => LocalCommand::PageDown,
        Some(Action::ListAddToQueue) => LocalCommand::Add(InsertPosition::End),
        Some(Action::ListAddToQueueNext) => LocalCommand::Add(InsertPosition::Next),
        Some(Action::LocalDelete) => LocalCommand::Delete,
        Some(Action::ListActivate) => LocalCommand::Activate,
        Some(_) => LocalCommand::Ignore,
        None => unbound_command(key),
    }
}

/// Reads a key press on the local music page.
pub fn read_local_command(key: &KeyEvent, binding: Option<Action>) -> (r: LocalCommand)
    ensures
        r == local_command(*key, binding),
{
    match binding {
        Some(Action::LocalRescan) => {
            return LocalCommand::Rescan;
        },
        Some(Action::ListSelectUp) => {
            return LocalCommand::Up;
        },
        Some(Action::ListSelectDown) => {
            return LocalCommand::Down;
        },
        Some(Action::ListSelectFirst) => {
            return LocalCommand::First;
        },
        Some(Action::ListSelectLast) => {
            return LocalCommand::Last;
        },
        Some(Action::ListPageUp) => {
            return LocalCommand::PageUp;
        },
        Some(Action::ListPageDown) => {
            return LocalCommand::PageDown;
        },
        Some(Action::ListAddToQueue) => {
            return LocalCommand::Add(InsertPosition::End);
        },
        Some(Action::ListAddToQueueNext) => {
            return LocalCommand::Add(InsertPosition::Next);
        },
        Some(Action::LocalDelete) => {
            return LocalCommand::Delete;
        },
        Some(Action::ListActivate) => {
            return LocalCommand::Activate;
        },
        Some(_) => {
            return LocalCommand::Ignore;
        },
        None => {},
    }
    let m = key.modifiers;
    let c = key.code;
    if m == MOD_NONE && c == KeyCode::Char('r') {
        LocalCommand::Rescan
    } else if m == MOD_NONE && c == KeyCode::Up {
        LocalCommand::Up
    } else if m == MOD_NONE && c == KeyCode::Down {
        LocalCommand::Down
    } else if m == MOD_NONE && (c == KeyCode::Home || c == KeyCode::Char('g')) {
        LocalCommand::First
    } else if (m == MOD_NONE && (c == KeyCode::End || c == KeyCode::Char('G'))) || (m == MOD_SHIFT
        && c == KeyCode::Char('G')) {
        LocalCommand::Last
    } else if (m == MOD_CONTROL && c == KeyCode::Char('u')) || (m == MOD_NONE && c
        == KeyCode::PageUp) {
        LocalCommand::PageUp
    } else if (m == MOD_CONTROL && c == KeyCode::Char('d')) || (m == MOD_NONE && c
        == KeyCode::PageDown) {
        LocalCommand::PageDown
    } else if is_song_activation_key(key) {
        LocalCommand::Activate
    } else if m == MOD_NONE && c == KeyCode::Char('a') {
        LocalCommand::Add(InsertPosition::End)
    } else if (m == MOD_NONE || m == MOD_SHIFT) && c == KeyCode::Char('A') {
        LocalCommand::Add(InsertPosition::Next)
    } else if m == MOD_NONE && (c == KeyCode::Char('d') || c == KeyCode::Delete) {
        LocalCommand::Delete
    } else {
        LocalCommand::Ignore
    }
}

/// What the local music page asks of the application.
#[derive(Debug, Clone, PartialEq, Eq)]
pub enum LocalOutcome {
    Action(AppAction),
    /// Scan the configured directories again.
    Rescan,
    /// Ask whether to delete the file at `path` (a song called `name`).
    ConfirmDelete { name: String, path: String },
    /// The selected song has no file to delete: say so.
    NoFilePath,
}

/// `s`, `scroll` and `r` are the selection, first row and outcome after
/// `command` on the songs `songs`, from the selection `selected` and
/// first row `offset`.
pub open spec fn local_effect(
    songs: Seq<SongInfo>,
    wrap: bool,
    selected: int,
    offset: int,
    command: LocalCommand,
    s: int,
    scroll: int,
    r: LocalOutcome,
) -> bool {
    let len = songs.len() as int;
    let noop = LocalOutcome::Action(AppAction::NoOp);
    match command {
        LocalCommand::Rescan => r == LocalOutcome::Rescan && s == 0 && scroll == 0,
        LocalCommand::Up => r == noop && scroll == offset && s == prev_index(selected, len, wrap),
        LocalCommand::Down => r == noop && scroll == offset && s == next_index(selected, len, wrap),
        LocalCommand::First => r == noop && scroll == offset && s == 0,
        LocalCommand::Last => r == noop && scroll == offset && s == last_index(len),
        LocalCommand::PageUp => r == noop && scroll == offset && s == sat_sub(selected, 10),
        LocalCommand::PageDown => r == noop && scroll == offset && s == min_int(
            selected + 10,
            last_index(len),
        ),
        LocalCommand::Add(position) => scroll == offset && s == selected && if selected < len {
            r == LocalOutcome::Action(AppAction::AddToQueue { song: songs[selected], position })
        } else {
            r == noop
        },
        LocalCommand::Delete => scroll == offset && s == selected && if selected < len {
            match songs[selected].file_path {
                Some(path) => r == (LocalOutcome::ConfirmDelete { name: songs[selected].name, path }),
                None => r == LocalOutcome::NoFilePath,
            }
        } else {
            r == noop
        },
        LocalCommand::Activate => scroll == offset && s == selected && if selected < len {
            r is Action && r->Action_0 is PlaySong && r->Action_0->songs@ == songs
                && r->Action_0->index == selected
        } else {
            r == noop
        },
        LocalCommand::Ignore => r == noop && scroll == offset && s == selected,
    }
}

/// Acts on a key press on the local music page: `binding` is the page
/// binding the configuration gives the key, `songs` the songs found,
/// `wrap` whether the selection wraps around the ends; `selected` and
/// `scroll` are the selection and first row shown.
pub fn local_key(
    key: &KeyEvent,
    binding: Option<Action>,
    songs: &Vec<SongInfo>,
    wrap: bool,
    selected: &mut usize,
    scroll: &mut usize,
) -> (r: LocalOutcome)
    ensures
        local_effect(
            songs@,
            wrap,
            *old(selected) as int,
            *old(scroll) as int,
            local_command(*key, binding),
            *final(selected) as int,
            *final(scroll) as int,
            r,
        ),
{
    let len = songs.len();
    match read_local_command(key, binding) {
        LocalCommand::Rescan => {
            *selected = 0;
            *scroll = 0;
            return LocalOutcome::Rescan;
        },
        LocalCommand::Up => {
            *selected = previous_list_index(*selected, len, wrap);
        },
        LocalCommand::Down => {
            *selected = next_list_index(*selected, len, wrap);
        },
        LocalCommand::First => {
            *selected = 0;
        },
        LocalCommand::Last => {
            *selected = len.saturating_sub(1);
        },
        LocalCommand::PageUp => {
            *selected = selected.saturating_sub(10);
        },
        LocalCommand::PageDown => {
            *selected = page_down(*selected, 10, len);
        },
        LocalCommand::Add(position) => {
            if *selected < len {
                return LocalOutcome::Action(
                    AppAction::AddToQueue { song: songs[*selected].duplicate(), position },
                );
            }
        },
        LocalCommand::Delete => {
            if *selected < len {
                let song = &songs[*selected];
                return match &song.file_path {
                    Some(path) => LocalOutcome::ConfirmDelete { name: song.name.clone(), path: path.clone() },
                    None => LocalOutcome::NoFilePath,
                };
            }
        },
        LocalCommand::Activate => {
            if *selected < len {
                return LocalOutcome::Action(
                    AppAction::PlaySong { songs: copy_songs(songs), index: *selected },
                );
            }
        },
        LocalCommand::Ignore => {},
    }
    LocalOutcome::Action(AppAction::NoOp)
}

/// Before the song list is drawn in a box whose inside is `inner_height`
/// rows high (a header row and a spare row besides the songs): when songs
/// are listed, the first row moves so that the selection shows.
pub fn local_fit_view(inner_height: u16, has_paths: bool, len: usize, selected: usize, scroll: &mut usize)
    ensures
        *final(scroll) == if inner_height >= 3 && has_paths && len > 0 {
            visible_offset(selected as int, inner_height - 2, len as int, *old(scroll) as int) as usize
        } else {
            *old(scroll)
        },
{
    if inner_height < 3 || !has_paths || len == 0 {
        return ;
    }
    let visible = (inner_height - 2) as usize;
    ensure_visible(selected, visible, len, scroll);
}

/// The selection and first row after a song was deleted and `remaining`
/// songs are left: both stay within the list.
pub fn after_local_delete(selected: usize, scroll: usize, remaining: usize) -> (r: (usize, usize))
    ensures
        r.0 == min_int(selected as int, last_index(remaining as int)),
        r.1 == min_int(scroll as int, last_index(remaining as int)),
{
    let last = remaining.saturating_sub(1);
    (if selected < last {
        selected
    } else {
        last
    }, if scroll < last {
        scroll
    } else {
        last
    })
}

} // verus!
