//! The play history page: a list of songs played before, browsed with
//! the keys or the mouse.  The history itself is stored by the
//! application and handed to each call.
use vstd::prelude::*;
use crate::input::{KeyCode, KeyEvent, MOD_CONTROL, MOD_NONE, MOD_SHIFT, MouseButton, MouseEvent, MouseEventKind};
use crate::layout::{Rect, bordered_inner, bottom_of, inner_of, sat_add16};
use crate::listnav::{ensure_visible, last_index, min_int, page_down, sat_sub, visible_offset};
use crate::model::{AppAction, InsertPosition, SongInfo, copy_songs};

verus! {

/// What a key does on the history page.
#[derive(Debug, Clone, Copy, PartialEq, Eq, Structural)]
pub enum HistoryCommand {
    Up,
    Down,
    First,
    Last,
    PageUp,
    PageDown,
    Play,
    Add(InsertPosition),
    Ignore,
}

/// The command a key stands for on the history page.
pub open spec fn history_command(key: KeyEvent) -> HistoryCommand {
    let m = key.modifiers;
    let c = key.code;
    if m == MOD_NONE && (c == KeyCode::Up || c == KeyCode::Char('e')) {
        HistoryCommand::Up
    } else if m == MOD_NONE && (c == KeyCode::Down || c == KeyCode::Char('n')) {
        HistoryCommand::Down
    } else if m == MOD_NONE && (c == KeyCode::Home || c == KeyCode::Char('g')) {
        HistoryCommand::First
    } else if (m == MOD_NONE && (c == KeyCode::End || c == KeyCode::Char('G'))) || (m == MOD_SHIFT
        && c == KeyCode::Char('G')) {
        HistoryCommand::Last
    } else if (m == MOD_CONTROL && c == KeyCode::Char('u')) || (m == MOD_NONE && c
        == KeyCode::PageUp) {
        HistoryCommand::PageUp
    } else if (m == MOD_CONTROL && c == KeyCode::Char('d')) || (m == MOD_NONE && c
        == KeyCode::PageDown) {
        HistoryCommand::PageDown
    } else if m == MOD_NONE && (c == KeyCode::Enter || c == KeyCode::Char('\r')) {
        HistoryCommand::Play
    } else if m == MOD_NONE && c == KeyCode::Char('a') {
        HistoryCommand::Add(InsertPosition::End)
    } else if (m == MOD_NONE || m == MOD_SHIFT) && c == KeyCode::Char('A') {
        HistoryCommand::Add(InsertPosition::Next)
    } else {
        HistoryCommand::Ignore
    }
}

/// Reads a key press on the history page.
pub fn read_history_command(key: &KeyEvent) -> (r: HistoryCommand)
    ensures
        r == history_command(*key),
{
    let m = key.modifiers;
    let c = key.code;
    if m == MOD_NONE && (c == KeyCode::Up || c == KeyCode::Char('e')) {
        HistoryCommand::Up
    } else if m == MOD_NONE && (c == KeyCode::Down || c == KeyCode::Char('n')) {
        HistoryCommand::Down
    } else if m == MOD_NONE && (c == KeyCode::Home || c == KeyCode::Char('g')) {
        HistoryCommand::First
    } else if (m == MOD_NONE && (c == KeyCode::End || c == KeyCode::Char('G'))) || (m == MOD_SHIFT
        && c == KeyCode::Char('G')) {
        HistoryCommand::Last
    } else if (m == MOD_CONTROL && c == KeyCode::Char('u')) || (m == MOD_NONE && c
        == KeyCode::PageUp) {
        HistoryCommand::PageUp
    } else if (m == MOD_CONTROL && c == KeyCode::Char('d')) || (m == MOD_NONE && c
        == KeyCode::PageDown) {
        HistoryCommand::PageDown
    } else if m == MOD_NONE && (c == KeyCode::Enter || c == KeyCode::Char('\r')) {
        HistoryCommand::Play
    } else if m == MOD_NONE && c == KeyCode::Char('a') {
        HistoryCommand::Add(InsertPosition::End)
    } else if (m == MOD_NONE || m == MOD_SHIFT) && c == KeyCode::Char('A') {
        HistoryCommand::Add(InsertPosition::Next)
    } else {
        HistoryCommand::Ignore
    }
}

/// `s` and `r` are the selection and action after `command` on a
/// history of `history`, with the selection at `selected`.
pub open spec fn history_effect(
    history: Seq<SongInfo>,
    wrap: bool,
    selected: int,
    command: HistoryCommand,
    s: int,
    r: AppAction,
) -> bool {
    let len = history.len() as int;
    match command {
        HistoryCommand::Up => r == AppAction::NoOp && s == if len == 0 {
            selected
        } else if selected > 0 {
            selected - 1
        } else if wrap {
            len - 1
        } else {
            selected
        },
        HistoryCommand::Down => r == AppAction::NoOp && s == if len == 0 {
            selected
        } else if selected + 1 < len {
            selected + 1
        } else if wrap {
            0
        } else {
            selected
        },
        HistoryCommand::First => r == AppAction::NoOp && s == 0,
        HistoryCommand::Last => r == AppAction::NoOp && s == last_index(len),
        HistoryCommand::PageUp => r == AppAction::NoOp && s == sat_sub(selected, 10),
        HistoryCommand::PageDown => r == AppAction::NoOp && s == min_int(selected + 10, last_index(len)),
        HistoryCommand::Play => s == selected && if selected < len {
            r is PlaySong && r->songs@ == history && r->index == selected
        } else {
            r == AppAction::NoOp
        },
        HistoryCommand::Add(position) => s == selected && if selected < len {
            r == AppAction::AddToQueue { song: history[selected], position }
        } else {
            r == AppAction::NoOp
        },
        HistoryCommand::Ignore => r == AppAction::NoOp && s == selected,
    }
}

/// Acts on a key press on the history page; `wrap` lets the selection
/// wrap around the ends of the list.
pub fn handle_input(key: &KeyEvent, history: &Vec<SongInfo>, wrap: bool, selected: &mut usize) -> (r:
    AppAction)
    ensures
        history_effect(
            history@,
            wrap,
            *old(selected) as int,
            history_command(*key),
            *final(selected) as int,
            r,
        ),
{
    let len = history.len();
    match read_history_command(key) {
        HistoryCommand::Up => {
            if len > 0 {
                if *selected > 0 {
                    *selected = *selected - 1;
                } else if wrap {
                    *selected = len - 1;
                }
            }
        },
        HistoryCommand::Down => {
            if len > 0 {
                if *selected < len - 1 {
                    *selected = *selected + 1;
                } else if wrap {
                    *selected = 0;
                }
            }
        },
        HistoryCommand::First => {
            *selected = 0;
        },
        HistoryCommand::Last => {
            *selected = len.saturating_sub(1);
        },
        HistoryCommand::PageUp => {
            *selected = selected.saturating_sub(10);
        },
        HistoryCommand::PageDown => {
            *selected = page_down(*selected, 10, len);
        },
        HistoryCommand::Play => {
            if *selected < len {
                return AppAction::PlaySong { songs: copy_songs(history), index: *selected };
            }
        },
        HistoryCommand::Add(position) => {
            if *selected < len {
                return AppAction::AddToQueue { song: history[*selected].duplicate(), position };
            }
        },
        HistoryCommand::Ignore => {},
    }
    AppAction::NoOp
}

/// Acts on a mouse event over the history box `area`: the wheel moves the
/// selection by `scroll_amount` rows (at least one), a click on a song
/// row selects it and, when `activate`, plays the history from it.
/// `scroll` is the first song row drawn.
pub fn handle_mouse(
    event: &MouseEvent,
    area: Rect,
    history: &Vec<SongInfo>,
    scroll_amount: usize,
    selected: &mut usize,
    scroll: usize,
    activate: bool,
) -> (r: AppAction)
    ensures
        ({
            let len = history@.len() as int;
            let step = if scroll_amount >= 1 {
                scroll_amount as int
            } else {
                1
            };
            let inner = inner_of(area);
            let list_y = sat_add16(inner.y as int, 1);
            let row = event.row as int;
            let index = scroll + (row - list_y);
            match event.kind {
                MouseEventKind::ScrollUp => r == AppAction::NoOp && *final(selected) == sat_sub(
                    *old(selected) as int,
                    step,
                ),
                MouseEventKind::ScrollDown => r == AppAction::NoOp && *final(selected) == min_int(
                    *old(selected) + step,
                    last_index(len),
                ),
                MouseEventKind::Down(MouseButton::Left) => if list_y <= row < bottom_of(inner) && index
                    < len {
                    *final(selected) == index && if activate {
                        r is PlaySong && r->songs@ == history@ && r->index == index
                    } else {
                        r == AppAction::NoOp
                    }
                } else {
                    r == AppAction::NoOp && *final(selected) == *old(selected)
                },
                _ => r == AppAction::NoOp && *final(selected) == *old(selected),
            }
        }),
{
    let len = history.len();
    let step = if scroll_amount >= 1 {
        scroll_amount
    } else {
        1
    };
    match event.kind {
        MouseEventKind::ScrollUp => {
            *selected = selected.saturating_sub(step);
        },
        MouseEventKind::ScrollDown => {
            *selected = page_down(*selected, step, len);
        },
        MouseEventKind::Down(MouseButton::Left) => {
            let inner = bordered_inner(area);
            let list_y = inner.y.saturating_add(1);
            if event.row >= list_y && event.row < inner.bottom() {
                let offset = (event.row - list_y) as usize;
                if scroll < len && offset < len - scroll {
                    let index = scroll + offset;
                    *selected = index;
                    if activate {
                        return AppAction::PlaySong { songs: copy_songs(history), index };
                    }
                }
            }
        },
        _ => {},
    }
    AppAction::NoOp
}

/// Before the history is drawn: a selection past the end of a non-empty
/// history goes back to the first song, and the first row drawn moves
/// so that the selection shows in a window of `visible` song rows.
pub fn fit_view(len: usize, visible: usize, selected: &mut usize, scroll: &mut usize)
    ensures
        len == 0 ==> *final(selected) == *old(selected) && *final(scroll) == *old(scroll),
        len > 0 ==> *final(selected) == if *old(selected) < len {
            *old(selected)
        } else {
            0
        },
        len > 0 && visible == 0 ==> *final(scroll) == *old(scroll),
        len > 0 && visible > 0 ==> *final(scroll) == visible_offset(
            *final(selected) as int,
            visible as int,
            len as int,
            *old(scroll) as int,
        ),
{
    if len == 0 {
        return ;
    }
    if *selected >= len {
        *selected = 0;
    }
    if visible == 0 {
        return ;
    }
    ensure_visible(*selected, visible, len, scroll);
}

} // verus!
