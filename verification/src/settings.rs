//! The settings page: toggles of the interface, the list of JS sources
//! (added by URL or path), and the list of local music directories.
//! Changing the configuration and saving it is the application's part;
//! the page decides what to change and what to report.
use vstd::prelude::*;
use crate::input::{KeyCode, KeyEvent, MOD_NONE, MOD_SHIFT, MouseButton, MouseEvent, MouseEventKind};
use crate::layout::{
    Constraint, Direction, Rect, bordered_inner, bottom_of, clamped_rect, inner_of, inside,
    fitted, laid_out, sat_add16, spans, split,
};
use crate::listnav::{last_index, min_int, page_down, sat_sub};
use crate::model::{AppAction, joined};
use crate::text::{
    decimal, decimal_digits, pad_right, padded_right, pop_char, push_char, shorten_source, shortened,
    trim, trimmed,
};

verus! {

/// The focus name of the JS source list.
pub open spec fn js_focus() -> Seq<char> {
    seq!['j', 's']
}

/// The focus name of the local directory list.
pub open spec fn local_focus() -> Seq<char> {
    seq!['l', 'o', 'c', 'a', 'l']
}

/// State of the settings page.
pub struct SettingsPage {
    /// The JS source URL or path being typed.
    pub input_url: String,
    /// Whether a JS source is being typed.
    pub input_mode: bool,
    /// The last status message.
    pub status_msg: Option<String>,
    /// The selected JS source.
    pub selected_source: usize,
    /// The local music directory being typed.
    pub local_path_input: String,
    /// Whether a local music directory is being typed.
    pub local_path_mode: bool,
    /// The selected local music directory.
    pub selected_local_path: usize,
    /// The focused list: "js" or "local".
    pub focus: String,
}

/// A configuration change or page action a key asks for.
#[derive(Debug, Clone, PartialEq, Eq)]
pub enum SettingsOutcome {
    Action(AppAction),
    ToggleMouse,
    ToggleAggregateSearch,
    ToggleWrapNavigation,
    ToggleShowCover,
    CyclePlayMode,
    CycleAccent,
    AddLocalPath(String),
    RemoveLocalPath(String),
}

/// What a key does while a text is typed.
#[derive(Debug, Clone, Copy, PartialEq, Eq, Structural)]
pub enum TypingCommand {
    Cancel,
    Submit,
    Type(char),
    Erase,
    Ignore,
}

/// Esc cancels and Enter submits (unmodified), a character is typed with
/// no modifier or shift held, Backspace (unmodified) erases.
pub open spec fn typing_command(key: KeyEvent) -> TypingCommand {
    if key.modifiers == MOD_NONE && key.code == KeyCode::Esc {
        TypingCommand::Cancel
    } else if key.modifiers == MOD_NONE && key.code == KeyCode::Enter {
        TypingCommand::Submit
    } else if (key.modifiers == MOD_NONE || key.modifiers == MOD_SHIFT) && key.code is Char {
        TypingCommand::Type(key.code->Char_0)
    } else if key.modifiers == MOD_NONE && key.code == KeyCode::Backspace {
        TypingCommand::Erase
    } else {
        TypingCommand::Ignore
    }
}

/// Reads a key press made while typing.
pub fn read_typing(key: &KeyEvent) -> (r: TypingCommand)
    ensures
        r == typing_command(*key),
{
    if key.modifiers == MOD_NONE && key.code == KeyCode::Esc {
        TypingCommand::Cancel
    } else if key.modifiers == MOD_NONE && key.code == KeyCode::Enter {
        TypingCommand::Submit
    } else if key.modifiers == MOD_NONE || key.modifiers == MOD_SHIFT {
        match key.code {
            KeyCode::Char(c) => TypingCommand::Type(c),
            KeyCode::Backspace => if key.modifiers == MOD_NONE {
                TypingCommand::Erase
            } else {
                TypingCommand::Ignore
            },
            _ => TypingCommand::Ignore,
        }
    } else {
        TypingCommand::Ignore
    }
}

/// What a key does on the focused list.
#[derive(Debug, Clone, Copy, PartialEq, Eq, Structural)]
pub enum ListCommand {
    StartInput,
    Up,
    Down,
    Remove,
    ToggleMouse,
    ToggleAggregateSearch,
    ToggleWrapNavigation,
    ToggleShowCover,
    CyclePlayMode,
    CycleAccent,
    SwitchFocus,
    Rescan,
    Ignore,
}

/// The command an unmodified key stands for; `local` tells whether the
/// directory list has the focus (where the option letters do nothing and
/// r rescans).
pub open spec fn list_command(key: KeyEvent, local: bool) -> ListCommand {
    if key.modifiers != MOD_NONE {
        ListCommand::Ignore
    } else {
        match key.code {
            KeyCode::Char(c) => if c == 'a' {
                ListCommand::StartInput
            } else if c == 'e' {
                ListCommand::Up
            } else if c == 'n' {
                ListCommand::Down
            } else if c == 'd' {
                ListCommand::Remove
            } else if c == 's' {
                ListCommand::SwitchFocus
            } else if local {
                if c == 'r' {
                    ListCommand::Rescan
                } else {
                    ListCommand::Ignore
                }
            } else if c == 't' {
                ListCommand::ToggleMouse
            } else if c == 'g' {
                ListCommand::ToggleAggregateSearch
            } else if c == 'w' {
                ListCommand::ToggleWrapNavigation
            } else if c == 'c' {
                ListCommand::ToggleShowCover
            } else if c == 'm' {
                ListCommand::CyclePlayMode
            } else if c == 'p' {
                ListCommand::CycleAccent
            } else {
                ListCommand::Ignore
            },
            KeyCode::Up => ListCommand::Up,
            KeyCode::Down => ListCommand::Down,
            _ => ListCommand::Ignore,
        }
    }
}

/// Reads a key press on the focused list.
pub fn read_list_command(key: &KeyEvent, local: bool) -> (r: ListCommand)
    ensures
        r == list_command(*key, local),
{
    if key.modifiers != MOD_NONE {
        return ListCommand::Ignore;
    }
    match key.code {
        KeyCode::Char(c) => if c == 'a' {
            ListCommand::StartInput
        } else if c == 'e' {
            ListCommand::Up
        } else if c == 'n' {
            ListCommand::Down
        } else if c == 'd' {
            ListCommand::Remove
        } else if c == 's' {
            ListCommand::SwitchFocus
        } else if local {
            if c == 'r' {
                ListCommand::Rescan
            } else {
                ListCommand::Ignore
            }
        } else if c == 't' {
            ListCommand::ToggleMouse
        } else if c == 'g' {
            ListCommand::ToggleAggregateSearch
        } else if c == 'w' {
            ListCommand::ToggleWrapNavigation
        } else if c == 'c' {
            ListCommand::ToggleShowCover
        } else if c == 'm' {
            ListCommand::CyclePlayMode
        } else if c == 'p' {
            ListCommand::CycleAccent
        } else {
            ListCommand::Ignore
        },
        KeyCode::Up => ListCommand::Up,
        KeyCode::Down => ListCommand::Down,
        _ => ListCommand::Ignore,
    }
}

/// The selection after removing the selected one of `len` entries: it
/// moves up when the last entry was removed.
pub open spec fn after_removal(selected: int, len: int) -> int {
    if selected >= crate::listnav::sat_sub(len, 1) {
        crate::listnav::sat_sub(selected, 1)
    } else {
        selected
    }
}

/// `q` and `r` are what a key does to `p` while a JS source address is
/// typed: Esc drops it, Enter imports the trimmed address (when not
/// blank), a character is typed and Backspace erases one.
pub open spec fn url_input_post(p: SettingsPage, key: KeyEvent, q: SettingsPage, r: AppAction) -> bool {
    match typing_command(key) {
        TypingCommand::Cancel => r == AppAction::NoOp && !q.input_mode
            && q.input_url@.len() == 0 && q == (SettingsPage {
            input_mode: false,
            input_url: q.input_url,
            ..p
        }),
        TypingCommand::Submit => if trimmed(p.input_url@).len() > 0 {
            &&& r is ImportSource
            &&& r->ImportSource_0@ == trimmed(p.input_url@)
            &&& q.input_url@.len() == 0
            &&& q.status_msg is Some
            &&& q.status_msg->0@ == "正在添加音源..."@
            &&& q == (SettingsPage {
                input_mode: false,
                input_url: q.input_url,
                status_msg: q.status_msg,
                ..p
            })
        } else {
            r == AppAction::NoOp && q == p
        },
        TypingCommand::Type(c) => r == AppAction::NoOp && q.input_url@
            == p.input_url@.push(c) && q == (SettingsPage {
            input_url: q.input_url,
            ..p
        }),
        TypingCommand::Erase => r == AppAction::NoOp && q.input_url@ == (if p.input_url@.len() == 0 {
            p.input_url@
        } else {
            p.input_url@.drop_last()
        }) && q == (SettingsPage { input_url: q.input_url, ..p }),
        TypingCommand::Ignore => r == AppAction::NoOp && q == p,
    }
}

/// `q` and `r` are what a key does to `p` while a local directory is
/// typed: Esc drops it, Enter asks to add the trimmed path (when not
/// blank), a character is typed and Backspace erases one.
pub open spec fn local_path_post(p: SettingsPage, key: KeyEvent, q: SettingsPage, r: SettingsOutcome) -> bool {
    match typing_command(key) {
        TypingCommand::Cancel => r == SettingsOutcome::Action(AppAction::NoOp)
            && q.local_path_input@.len() == 0 && q == (SettingsPage {
            local_path_mode: false,
            local_path_input: q.local_path_input,
            ..p
        }),
        TypingCommand::Submit => if trimmed(p.local_path_input@).len() > 0 {
            &&& r is AddLocalPath
            &&& r->AddLocalPath_0@ == trimmed(p.local_path_input@)
            &&& q.local_path_input@.len() == 0
            &&& q == (SettingsPage {
                local_path_mode: false,
                local_path_input: q.local_path_input,
                ..p
            })
        } else {
            r == SettingsOutcome::Action(AppAction::NoOp) && q == p
        },
        TypingCommand::Type(c) => r == SettingsOutcome::Action(AppAction::NoOp) && q.local_path_input@ == p.local_path_input@.push(c) && q == (
        SettingsPage { local_path_input: q.local_path_input, ..p }),
        TypingCommand::Erase => r == SettingsOutcome::Action(AppAction::NoOp) && q.local_path_input@ == (if p.local_path_input@.len() == 0 {
            p.local_path_input@
        } else {
            p.local_path_input@.drop_last()
        }) && q == (SettingsPage {
            local_path_input: q.local_path_input,
            ..p
        }),
        TypingCommand::Ignore => r == SettingsOutcome::Action(AppAction::NoOp) && q == p,
    }
}

/// `q` and `r` are what a key does to `p` while the JS source list has
/// the focus: start typing an address, move in the list of `sources`,
/// remove the selected source, change a setting, or switch the focus.
pub open spec fn source_keys_post(p: SettingsPage, key: KeyEvent, sources: Seq<String>, q: SettingsPage, r: SettingsOutcome) -> bool {
    match list_command(key, false) {
        ListCommand::StartInput => r == SettingsOutcome::Action(AppAction::NoOp)
            && q == (SettingsPage {
            input_mode: true,
            status_msg: None,
            ..p
        }),
        ListCommand::Up => r == SettingsOutcome::Action(AppAction::NoOp) && q == (
        SettingsPage {
            selected_source: crate::listnav::sat_sub(p.selected_source as int, 1) as usize,
            ..p
        }),
        ListCommand::Down => r == SettingsOutcome::Action(AppAction::NoOp) && q
            == (SettingsPage {
            selected_source: if p.selected_source + 1 < sources.len() {
                (p.selected_source + 1) as usize
            } else {
                p.selected_source
            },
            ..p
        }),
        ListCommand::Remove => if p.selected_source < sources.len() {
            &&& r == SettingsOutcome::Action(
                AppAction::RemoveSource(sources[p.selected_source as int]),
            )
            &&& q.status_msg is Some
            &&& q.status_msg->0@ == "已移除音源"@
            &&& q == (SettingsPage {
                status_msg: q.status_msg,
                selected_source: after_removal(
                    p.selected_source as int,
                    sources.len() as int,
                ) as usize,
                ..p
            })
        } else {
            r == SettingsOutcome::Action(AppAction::NoOp) && q == p
        },
        ListCommand::ToggleMouse => r == SettingsOutcome::ToggleMouse && q
            == p,
        ListCommand::ToggleAggregateSearch => r == SettingsOutcome::ToggleAggregateSearch
            && q == p,
        ListCommand::ToggleWrapNavigation => r == SettingsOutcome::ToggleWrapNavigation
            && q == p,
        ListCommand::ToggleShowCover => r == SettingsOutcome::ToggleShowCover && q == p,
        ListCommand::CyclePlayMode => r == SettingsOutcome::CyclePlayMode && q
            == p,
        ListCommand::CycleAccent => r == SettingsOutcome::CycleAccent && q
            == p,
        ListCommand::SwitchFocus => r == SettingsOutcome::Action(AppAction::NoOp)
            && q.focus@ == (if p.focus@ == js_focus() {
            local_focus()
        } else {
            js_focus()
        }) && q == (SettingsPage { focus: q.focus, ..p }),
        _ => r == SettingsOutcome::Action(AppAction::NoOp) && q == p,
    }
}

/// `q` and `r` are what a key does to `p` while the directory list has
/// the focus: switch the focus back, start typing a path, move in the
/// list of `paths`, remove the selected directory, or rescan them all
/// down to `max_depth` levels.
pub open spec fn local_keys_post(p: SettingsPage, key: KeyEvent, paths: Seq<String>, max_depth: usize, q: SettingsPage, r: SettingsOutcome) -> bool {
    match list_command(key, true) {
        ListCommand::SwitchFocus => r == SettingsOutcome::Action(AppAction::NoOp)
            && q.focus@ == js_focus() && q == (SettingsPage {
            focus: q.focus,
            ..p
        }),
        ListCommand::StartInput => r == SettingsOutcome::Action(AppAction::NoOp)
            && q.local_path_input@.len() == 0 && q == (SettingsPage {
            local_path_mode: true,
            local_path_input: q.local_path_input,
            status_msg: None,
            ..p
        }),
        ListCommand::Up => r == SettingsOutcome::Action(AppAction::NoOp) && q == (
        SettingsPage {
            selected_local_path: crate::listnav::sat_sub(
                p.selected_local_path as int,
                1,
            ) as usize,
            ..p
        }),
        ListCommand::Down => r == SettingsOutcome::Action(AppAction::NoOp) && q
            == (SettingsPage {
            selected_local_path: if p.selected_local_path + 1 < paths.len() {
                (p.selected_local_path + 1) as usize
            } else {
                p.selected_local_path
            },
            ..p
        }),
        ListCommand::Remove => if p.selected_local_path < paths.len() {
            r == SettingsOutcome::RemoveLocalPath(
                paths[p.selected_local_path as int],
            ) && q == (SettingsPage {
                selected_local_path: after_removal(
                    p.selected_local_path as int,
                    paths.len() as int,
                ) as usize,
                ..p
            })
        } else {
            r == SettingsOutcome::Action(AppAction::NoOp) && q == p
        },
        ListCommand::Rescan => {
            &&& r is Action
            &&& r->Action_0 is ScanLocalMusic
            &&& r->Action_0->paths@ == paths
            &&& r->Action_0->max_depth == max_depth
            &&& q.status_msg is Some
            &&& q.status_msg->0@ == "正在扫描本地音乐..."@
            &&& q == (SettingsPage {
                status_msg: q.status_msg,
                ..p
            })
        },
        _ => r == SettingsOutcome::Action(AppAction::NoOp) && q == p,
    }
}


/// What a key does to `p` on the settings page, as `handle_input` states
/// it; `sources` are the JS sources and `paths` the local directories.
pub open spec fn key_effect(
    p: SettingsPage,
    key: KeyEvent,
    sources: Seq<String>,
    paths: Seq<String>,
    max_depth: usize,
    q: SettingsPage,
    r: SettingsOutcome,
) -> bool {
    &&& p.local_path_mode ==> local_path_post(p, key, q, r)
    &&& !p.local_path_mode && p.input_mode ==> r is Action && url_input_post(p, key, q, r->Action_0)
    &&& !p.local_path_mode && !p.input_mode && p.focus@ == local_focus() ==> local_keys_post(
        p,
        key,
        paths,
        max_depth,
        q,
        r,
    )
    &&& !p.local_path_mode && !p.input_mode && p.focus@ != local_focus() ==> source_keys_post(
        p,
        key,
        sources,
        q,
        r,
    )
}

/// The top band of a settings page at least 72 columns wide: its first
/// twelve rows (all of them on a lower page).
pub open spec fn settings_top(area: Rect) -> Rect {
    clamped_rect(area.x, area.y, area.width, min_int(12, area.height as int) as u16)
}

/// The local directory box of a settings page at least 72 columns wide:
/// the rows below the top band, or the last row of the band when none
/// are left below it.
pub open spec fn settings_bottom(area: Rect) -> Rect {
    let bottom_y = bottom_of(settings_top(area));
    if bottom_y < bottom_of(area) {
        clamped_rect(area.x, bottom_y as u16, area.width, (bottom_of(area) - bottom_y) as u16)
    } else {
        clamped_rect(area.x, sat_sub(bottom_y, 1) as u16, area.width, 1)
    }
}

/// The sizes asked for the settings boxes: options and sources side by
/// side at 42% and 58% of a page at least 72 columns wide; else the
/// options up to twelve rows and the directories up to eight (a third of
/// the page each at most), the sources at least six rows between them.
pub open spec fn settings_constraints(area: Rect) -> Seq<Constraint> {
    if area.width >= 72 {
        seq![Constraint::Percentage(42), Constraint::Percentage(58)]
    } else {
        let third = area.height as int / 3;
        seq![
            Constraint::Length(min_int(12, third) as u16),
            Constraint::Min(6),
            Constraint::Length(min_int(8, third) as u16),
        ]
    }
}

/// The direction of the settings split: side by side on a page at least
/// 72 columns wide, else stacked.
pub open spec fn settings_direction(width: u16) -> Direction {
    if width >= 72 {
        Direction::Horizontal
    } else {
        Direction::Vertical
    }
}

/// How the settings page `area` is split: the direction and the sizes.
pub fn settings_split(area: Rect) -> (r: (Direction, Vec<Constraint>))
    ensures
        r.0 == settings_direction(area.width),
        r.1@ == settings_constraints(area),
{
    if area.width >= 72 {
        let c = vec![Constraint::Percentage(42), Constraint::Percentage(58)];
        assert(c@ =~= settings_constraints(area));
        (Direction::Horizontal, c)
    } else {
        let third = area.height / 3;
        let first = if third < 12 {
            third
        } else {
            12
        };
        let last = if third < 8 {
            third
        } else {
            8
        };
        let c = vec![Constraint::Length(first), Constraint::Min(6), Constraint::Length(last)];
        assert(c@ =~= settings_constraints(area));
        (Direction::Vertical, c)
    }
}

/// `parts` are the boxes of the settings page `area`, as
/// `settings_chunks` places them, whatever sizes the solver chose: the
/// options, the JS sources and the local directories.  A page at least
/// 72 columns wide has options and sources side by side in its top band
/// and the directories below; a narrower one stacks the three.
pub open spec fn settings_placed(area: Rect, parts: Seq<Rect>) -> bool {
    if area.width >= 72 {
        exists|top: Seq<Rect>|
            #[trigger] laid_out(Direction::Horizontal, settings_top(area), top) && top.len() == 2
                && parts == seq![top[0], top[1], settings_bottom(area)]
    } else {
        parts.len() == 3 && laid_out(Direction::Vertical, area, parts)
    }
}

/// Splits the settings page into its three boxes (`settings_split`).
pub fn settings_chunks(area: Rect) -> (r: Vec<Rect>)
    ensures
        r@.len() == 3,
        settings_placed(area, r@),
{
    let (direction, constraints) = settings_split(area);
    if area.width >= 72 {
        let top_height = if area.height < 12 {
            area.height
        } else {
            12
        };
        let band = Rect::new(area.x, area.y, area.width, top_height);
        assert(band == settings_top(area));
        let top = split(direction, &constraints, band);
        assert(spans(Direction::Horizontal, fitted(band), top@[0]));
        let bottom_y = top[0].bottom();
        let area_bottom = area.bottom();
        let bottom = if bottom_y < area_bottom {
            Rect::new(area.x, bottom_y, area.width, area_bottom - bottom_y)
        } else {
            Rect::new(area.x, bottom_y.saturating_sub(1), area.width, 1)
        };
        let r = vec![top[0], top[1], bottom];
        assert(r@ =~= seq![top@[0], top@[1], settings_bottom(area)]);
        r
    } else {
        split(direction, &constraints, area)
    }
}

/// The state line of the JS sources: in use, none configured, or loading
/// (or failed).
pub open spec fn source_state_line(in_use: bool, configured: int) -> Seq<char> {
    if in_use {
        "已就绪，播放/歌词/封面由 JS 音源解析"@
    } else if configured == 0 {
        "尚未导入 JS 音源"@
    } else {
        "加载中或加载失败"@
    }
}

/// The state line of the JS sources; `in_use` tells whether one is in
/// use and `configured` how many are configured.
pub fn source_state(in_use: bool, configured: usize) -> (r: &'static str)
    ensures
        r@ == source_state_line(in_use, configured as int),
{
    proof {
        reveal_strlit("已就绪，播放/歌词/封面由 JS 音源解析");
        reveal_strlit("尚未导入 JS 音源");
        reveal_strlit("加载中或加载失败");
    }
    if in_use {
        "已就绪，播放/歌词/封面由 JS 音源解析"
    } else if configured == 0 {
        "尚未导入 JS 音源"
    } else {
        "加载中或加载失败"
    }
}

/// The line of a configured JS source in a box `width` columns wide:
/// whether its script is cached, then its address shortened to the room
/// left (at least eight characters).
pub open spec fn source_line(url: Seq<char>, cached: bool, width: int) -> Seq<char> {
    let status = if cached {
        "cached"@
    } else {
        "download"@
    };
    let room = sat_sub(width, 14);
    " "@ + padded_right(status, 8) + " "@ + shortened(url, if room >= 8 {
        room as nat
    } else {
        8
    })
}

/// The line of the JS source `url` in a box `width` columns wide;
/// `cached` tells whether its script is cached.
pub fn source_row_text(url: &str, cached: bool, width: u16) -> (r: String)
    ensures
        r@ == source_line(url@, cached, width as int),
{
    proof {
        reveal_strlit("cached");
        reveal_strlit("download");
    }
    let status = if cached {
        pad_right("cached", 8)
    } else {
        pad_right("download", 8)
    };
    let room = width.saturating_sub(14) as usize;
    let max = if room >= 8 {
        room
    } else {
        8
    };
    let mut s = joined(" ", status.as_str());
    s.append(" ");
    let short = shorten_source(url, max);
    s.append(short.as_str());
    s
}

/// The line counting the local songs: " 共 count 首歌曲".
pub fn local_count_line(count: usize) -> (r: String)
    ensures
        r@ == " 共 "@ + decimal_digits(count as nat) + " 首歌曲"@,
{
    let digits = decimal(count as u64);
    let mut s = joined(" 共 ", digits.as_str());
    s.append(" 首歌曲");
    s
}

/// The box a path or address is typed in: at most 74 columns wide (four
/// narrower than the page), three rows high (or the page), centred.
pub open spec fn typing_box(area: Rect) -> Rect {
    let width = min_int(sat_sub(area.width as int, 4), 74);
    clamped_rect(
        (area.x + sat_sub(area.width as int, width) / 2) as u16,
        (area.y + sat_sub(area.height as int, 3) / 2) as u16,
        width as u16,
        min_int(3, area.height as int) as u16,
    )
}

/// The typing box fits within the cell grid.
pub open spec fn typing_box_fits(area: Rect) -> bool {
    &&& area.x + sat_sub(area.width as int, min_int(sat_sub(area.width as int, 4), 74)) / 2
        <= u16::MAX
    &&& area.y + sat_sub(area.height as int, 3) / 2 <= u16::MAX
}

/// The box a path or address is typed in, over the page `area`.
pub fn input_box(area: Rect) -> (r: Rect)
    requires
        typing_box_fits(area),
    ensures
        r == typing_box(area),
{
    let narrowed = area.width.saturating_sub(4);
    let width: u16 = if narrowed < 74 {
        narrowed
    } else {
        74
    };
    let height: u16 = if area.height < 3 {
        area.height
    } else {
        3
    };
    Rect::new(
        area.x + area.width.saturating_sub(width) / 2,
        area.y + area.height.saturating_sub(3) / 2,
        width,
        height,
    )
}

/// The option key standing on row `offset` of the options box: mouse,
/// aggregate search, wrapping, cover, play mode, accent colour.
pub open spec fn option_key(offset: int) -> Option<char> {
    if offset == 0 {
        Some('t')
    } else if offset == 1 {
        Some('g')
    } else if offset == 2 {
        Some('w')
    } else if offset == 3 {
        Some('c')
    } else if offset == 4 {
        Some('m')
    } else if offset == 5 {
        Some('p')
    } else {
        None
    }
}

/// The option key on row `offset` of the options box.
pub fn option_key_at(offset: u16) -> (r: Option<char>)
    ensures
        r == option_key(offset as int),
{
    if offset == 0 {
        Some('t')
    } else if offset == 1 {
        Some('g')
    } else if offset == 2 {
        Some('w')
    } else if offset == 3 {
        Some('c')
    } else if offset == 4 {
        Some('m')
    } else if offset == 5 {
        Some('p')
    } else {
        None
    }
}

/// The entry of a list box drawn at `row`: the list starts two rows into
/// the box (below a help line) and holds `len` entries.
pub open spec fn entry_at(inner: Rect, column: int, row: int, len: int) -> Option<int> {
    let top = sat_add16(inner.y as int, 2);
    if inside(inner, column, row) && row >= top && row - top < len {
        Some(row - top)
    } else {
        None
    }
}

/// The entry of the list in the box with inside `inner` drawn at the
/// cell, if any.
fn entry_index(inner: Rect, column: u16, row: u16, len: usize) -> (r: Option<usize>)
    ensures
        match r {
            Some(i) => entry_at(inner, column as int, row as int, len as int) == Some(i as int),
            None => entry_at(inner, column as int, row as int, len as int) is None,
        },
{
    let top = inner.y.saturating_add(2);
    if inner.contains(column, row) && row >= top && ((row - top) as usize) < len {
        Some((row - top) as usize)
    } else {
        None
    }
}

/// `q` and `r` are what a mouse event does to `p` on a page whose boxes
/// are `parts` (options, JS sources, local directories):
/// nothing while a JS source is typed; the wheel moves the JS source
/// selection; a click on an option row acts as its key; a click on a JS
/// source or a local directory selects it and focuses its list.
pub open spec fn settings_mouse_effect(
    p: SettingsPage,
    event: MouseEvent,
    parts: Seq<Rect>,
    sources: Seq<String>,
    paths: Seq<String>,
    max_depth: usize,
    q: SettingsPage,
    r: SettingsOutcome,
) -> bool {
    let column = event.column as int;
    let row = event.row as int;
    let options = inner_of(parts[0]);
    let key = if inside(options, column, row) {
        option_key(row - options.y)
    } else {
        None
    };
    let source = entry_at(inner_of(parts[1]), column, row, sources.len() as int);
    let local = entry_at(inner_of(parts[2]), column, row, paths.len() as int);
    let noop = SettingsOutcome::Action(AppAction::NoOp);
    if p.input_mode {
        q == p && r == noop
    } else {
        match event.kind {
            MouseEventKind::ScrollUp => r == noop && q == SettingsPage {
                selected_source: sat_sub(p.selected_source as int, 1) as usize,
                ..p
            },
            MouseEventKind::ScrollDown => r == noop && q == SettingsPage {
                selected_source: min_int(p.selected_source + 1, last_index(sources.len() as int))
                    as usize,
                ..p
            },
            MouseEventKind::Down(MouseButton::Left) => match key {
                Some(c) => key_effect(
                    p,
                    KeyEvent { code: KeyCode::Char(c), modifiers: MOD_NONE },
                    sources,
                    paths,
                    max_depth,
                    q,
                    r,
                ),
                None => r == noop && if source is None && local is None {
                    q == p
                } else {
                    &&& q.focus@ == if local is Some {
                        local_focus()
                    } else {
                        js_focus()
                    }
                    &&& q == SettingsPage {
                        selected_source: match source {
                            Some(i) => i as usize,
                            None => p.selected_source,
                        },
                        selected_local_path: match local {
                            Some(i) => i as usize,
                            None => p.selected_local_path,
                        },
                        focus: q.focus,
                        ..p
                    }
                },
            },
            _ => q == p && r == noop,
        }
    }
}

impl SettingsPage {
    /// Whether a text is being typed (a JS source or a local directory).
    pub fn any_input_active(&self) -> (r: bool)
        ensures
            r == (self.input_mode || self.local_path_mode),
    {
        self.input_mode || self.local_path_mode
    }

    /// A page with nothing typed, the JS source list focused.
    pub fn new() -> (r: SettingsPage)
        ensures
            r.input_url@.len() == 0,
            !r.input_mode,
            r.status_msg is None,
            r.selected_source == 0,
            r.local_path_input@.len() == 0,
            !r.local_path_mode,
            r.selected_local_path == 0,
            r.focus@ == js_focus(),
    {
        proof {
            reveal_strlit("js");
        }
        SettingsPage {
            input_url: String::new(),
            input_mode: false,
            status_msg: None,
            selected_source: 0,
            local_path_input: String::new(),
            local_path_mode: false,
            selected_local_path: 0,
            focus: String::from_str("js"),
        }
    }

    /// Whether the local directory list has the focus.
    pub fn local_focused(&self) -> (r: bool)
        ensures
            r == (self.focus@ == local_focus()),
    {
        proof {
            reveal_strlit("local");
            assert("local"@ =~= local_focus());
        }
        let local = String::from_str("local");
        self.focus == local
    }

    /// Acts on a key while a JS source is typed.
    pub fn handle_url_input(&mut self, key: &KeyEvent) -> (r: AppAction)
        ensures
            url_input_post(*old(self), *key, *final(self), r),
    {
        match read_typing(key) {
            TypingCommand::Cancel => {
                self.input_mode = false;
                self.input_url = String::new();
                AppAction::NoOp
            },
            TypingCommand::Submit => {
                let url = trim(self.input_url.as_str());
                if url.unicode_len() > 0 {
                    self.input_mode = false;
                    self.input_url = String::new();
                    self.status_msg = Some(String::from_str("正在添加音源..."));
                    AppAction::ImportSource(url)
                } else {
                    AppAction::NoOp
                }
            },
            TypingCommand::Type(c) => {
                push_char(&mut self.input_url, c);
                AppAction::NoOp
            },
            TypingCommand::Erase => {
                pop_char(&mut self.input_url);
                AppAction::NoOp
            },
            TypingCommand::Ignore => AppAction::NoOp,
        }
    }

    /// Acts on a key while a local music directory is typed; submitting a
    /// non-blank directory asks to add it (trimmed) to the configuration.
    pub fn handle_local_path_input(&mut self, key: &KeyEvent) -> (r: SettingsOutcome)
        ensures
            local_path_post(*old(self), *key, *final(self), r),
    {
        match read_typing(key) {
            TypingCommand::Cancel => {
                self.local_path_mode = false;
                self.local_path_input = String::new();
                SettingsOutcome::Action(AppAction::NoOp)
            },
            TypingCommand::Submit => {
                let path = trim(self.local_path_input.as_str());
                if path.unicode_len() > 0 {
                    self.local_path_mode = false;
                    self.local_path_input = String::new();
                    SettingsOutcome::AddLocalPath(path)
                } else {
                    SettingsOutcome::Action(AppAction::NoOp)
                }
            },
            TypingCommand::Type(c) => {
                push_char(&mut self.local_path_input, c);
                SettingsOutcome::Action(AppAction::NoOp)
            },
            TypingCommand::Erase => {
                pop_char(&mut self.local_path_input);
                SettingsOutcome::Action(AppAction::NoOp)
            },
            TypingCommand::Ignore => SettingsOutcome::Action(AppAction::NoOp),
        }
    }

    /// Acts on a key on the JS source list; `sources` are the configured
    /// JS sources.
    pub fn handle_source_keys(&mut self, key: &KeyEvent, sources: &Vec<String>) -> (r: SettingsOutcome)
        ensures
            source_keys_post(*old(self), *key, sources@, *final(self), r),
    {
        proof {
            reveal_strlit("js");
            reveal_strlit("local");
            assert("js"@ =~= js_focus());
            assert("local"@ =~= local_focus());
        }
        match read_list_command(key, false) {
            ListCommand::StartInput => {
                self.input_mode = true;
                self.status_msg = None;
            },
            ListCommand::Up => {
                self.selected_source = self.selected_source.saturating_sub(1);
            },
            ListCommand::Down => {
                if self.selected_source < sources.len() && self.selected_source + 1 < sources.len() {
                    self.selected_source = self.selected_source + 1;
                }
            },
            ListCommand::Remove => {
                if self.selected_source < sources.len() {
                    let url = sources[self.selected_source].clone();
                    self.status_msg = Some(String::from_str("已移除音源"));
                    if self.selected_source >= sources.len().saturating_sub(1) {
                        self.selected_source = self.selected_source.saturating_sub(1);
                    }
                    return SettingsOutcome::Action(AppAction::RemoveSource(url));
                }
            },
            ListCommand::ToggleMouse => {
                return SettingsOutcome::ToggleMouse;
            },
            ListCommand::ToggleAggregateSearch => {
                return SettingsOutcome::ToggleAggregateSearch;
            },
            ListCommand::ToggleWrapNavigation => {
                return SettingsOutcome::ToggleWrapNavigation;
            },
            ListCommand::ToggleShowCover => {
                return SettingsOutcome::ToggleShowCover;
            },
            ListCommand::CyclePlayMode => {
                return SettingsOutcome::CyclePlayMode;
            },
            ListCommand::CycleAccent => {
                return SettingsOutcome::CycleAccent;
            },
            ListCommand::SwitchFocus => {
                let js = String::from_str("js");
                if self.focus == js {
                    self.focus = String::from_str("local");
                } else {
                    self.focus = js;
                }
            },
            _ => {},
        }
        SettingsOutcome::Action(AppAction::NoOp)
    }

    /// Acts on a key on the local directory list; `paths` are the
    /// configured directories and `max_depth` how deep a scan goes.
    pub fn handle_local_keys(&mut self, key: &KeyEvent, paths: &Vec<String>, max_depth: usize) -> (r:
        SettingsOutcome)
        ensures
            local_keys_post(*old(self), *key, paths@, max_depth, *final(self), r),
    {
        proof {
            reveal_strlit("js");
            assert("js"@ =~= js_focus());
        }
        match read_list_command(key, true) {
            ListCommand::SwitchFocus => {
                self.focus = String::from_str("js");
            },
            ListCommand::StartInput => {
                self.local_path_mode = true;
                self.local_path_input = String::new();
                self.status_msg = None;
            },
            ListCommand::Up => {
                self.selected_local_path = self.selected_local_path.saturating_sub(1);
            },
            ListCommand::Down => {
                if self.selected_local_path < paths.len() && self.selected_local_path + 1
                    < paths.len() {
                    self.selected_local_path = self.selected_local_path + 1;
                }
            },
            ListCommand::Remove => {
                if self.selected_local_path < paths.len() {
                    let removed = paths[self.selected_local_path].clone();
                    if self.selected_local_path >= paths.len().saturating_sub(1) {
                        self.selected_local_path = self.selected_local_path.saturating_sub(1);
                    }
                    return SettingsOutcome::RemoveLocalPath(removed);
                }
            },
            ListCommand::Rescan => {
                self.status_msg = Some(String::from_str("正在扫描本地音乐..."));
                return SettingsOutcome::Action(
                    AppAction::ScanLocalMusic { paths: crate::settings::copy_strings(paths), max_depth },
                );
            },
            _ => {},
        }
        SettingsOutcome::Action(AppAction::NoOp)
    }

    /// Acts on a key press: typing goes to the open input, other keys to
    /// the focused list.
    pub fn handle_input(
        &mut self,
        key: &KeyEvent,
        sources: &Vec<String>,
        paths: &Vec<String>,
        max_depth: usize,
    ) -> (r: SettingsOutcome)
        ensures
            old(self).local_path_mode ==> local_path_post(*old(self), *key, *final(self), r),
            !old(self).local_path_mode && old(self).input_mode ==> r is Action && url_input_post(
                *old(self),
                *key,
                *final(self),
                r->Action_0,
            ),
            !old(self).local_path_mode && !old(self).input_mode && old(self).focus@
                == local_focus() ==> local_keys_post(*old(self), *key, paths@, max_depth, *final(self), r),
            !old(self).local_path_mode && !old(self).input_mode && old(self).focus@
                != local_focus() ==> source_keys_post(*old(self), *key, sources@, *final(self), r),
    {
        if self.local_path_mode {
            let r = self.handle_local_path_input(key);
            return r;
        }
        if self.input_mode {
            let a = self.handle_url_input(key);
            return SettingsOutcome::Action(a);
        }
        if self.local_focused() {
            return self.handle_local_keys(key, paths, max_depth);
        }
        self.handle_source_keys(key, sources)
    }

    /// Acts on a mouse event over the page `area`; `sources` are the JS
    /// sources and `paths` the local directories, as configured.  The
    /// boxes are placed by the layout solver; whatever it gives, the event
    /// acts as on a page with those boxes.
    pub fn handle_mouse(
        &mut self,
        event: &MouseEvent,
        area: Rect,
        sources: &Vec<String>,
        paths: &Vec<String>,
        max_depth: usize,
    ) -> (r: SettingsOutcome)
        ensures
            exists|parts: Seq<Rect>|
                settings_placed(area, parts) && #[trigger] settings_mouse_effect(
                    *old(self),
                    *event,
                    parts,
                    sources@,
                    paths@,
                    max_depth,
                    *final(self),
                    r,
                ),
    {
        let chunks = settings_chunks(area);
        self.handle_mouse_on(event, &chunks, sources, paths, max_depth)
    }

    /// Acts on a mouse event on a page whose boxes are `chunks` (options,
    /// JS sources, local directories); `sources` are the JS sources and
    /// `paths` the local directories, as configured.
    pub fn handle_mouse_on(
        &mut self,
        event: &MouseEvent,
        chunks: &Vec<Rect>,
        sources: &Vec<String>,
        paths: &Vec<String>,
        max_depth: usize,
    ) -> (r: SettingsOutcome)
        requires
            chunks@.len() == 3,
        ensures
            settings_mouse_effect(*old(self), *event, chunks@, sources@, paths@, max_depth, *final(self), r),
    {
        if self.input_mode {
            return SettingsOutcome::Action(AppAction::NoOp);
        }
        match event.kind {
            MouseEventKind::ScrollUp => {
                self.selected_source = self.selected_source.saturating_sub(1);
            },
            MouseEventKind::ScrollDown => {
                self.selected_source = page_down(self.selected_source, 1, sources.len());
            },
            MouseEventKind::Down(MouseButton::Left) => {
                let options = bordered_inner(chunks[0]);
                if options.contains(event.column, event.row) {
                    match option_key_at(event.row - options.y) {
                        Some(c) => {
                            let key = KeyEvent::new(KeyCode::Char(c), MOD_NONE);
                            return self.handle_input(&key, sources, paths, max_depth);
                        },
                        None => {},
                    }
                }
                let source = entry_index(bordered_inner(chunks[1]), event.column, event.row, sources.len());
                let local = entry_index(bordered_inner(chunks[2]), event.column, event.row, paths.len());
                proof {
                    reveal_strlit("js");
                    reveal_strlit("local");
                    assert("js"@ =~= js_focus());
                    assert("local"@ =~= local_focus());
                }
                match source {
                    Some(i) => {
                        self.selected_source = i;
                        self.focus = String::from_str("js");
                    },
                    None => {},
                }
                match local {
                    Some(i) => {
                        self.selected_local_path = i;
                        self.focus = String::from_str("local");
                    },
                    None => {},
                }
            },
            _ => {},
        }
        SettingsOutcome::Action(AppAction::NoOp)
    }

    /// Reports the outcome of saving a changed setting (`error` holds
    /// the failure, if saving failed).
    pub fn record_save(&mut self, error: Option<String>)
        ensures
            final(self).status_msg is Some,
            final(self).status_msg->0@ == match error {
                None => "设置已保存"@,
                Some(e) => "保存设置失败: "@ + e@,
            },
            *final(self) == (SettingsPage { status_msg: final(self).status_msg, ..*old(self) }),
    {
        self.status_msg = Some(
            match error {
                None => String::from_str("设置已保存"),
                Some(e) => joined("保存设置失败: ", e.as_str()),
            },
        );
    }

    /// Reports the play mode now in use (`label`) and the outcome of
    /// saving it.
    pub fn record_play_mode(&mut self, label: &str, error: Option<String>)
        ensures
            final(self).status_msg is Some,
            final(self).status_msg->0@ == match error {
                None => "播放模式: "@ + label@,
                Some(e) => "播放模式已切换，但保存失败: "@ + e@,
            },
            *final(self) == (SettingsPage { status_msg: final(self).status_msg, ..*old(self) }),
    {
        self.status_msg = Some(
            match error {
                None => joined("播放模式: ", label),
                Some(e) => joined("播放模式已切换，但保存失败: ", e.as_str()),
            },
        );
    }

    /// After a directory was added to the configuration: reports the save
    /// and asks to scan the configured `paths`.
    pub fn finish_add_local_path(&mut self, error: Option<String>, paths: Vec<String>, max_depth: usize) -> (r:
        AppAction)
        ensures
            r == (AppAction::ScanLocalMusic { paths, max_depth }),
            final(self).status_msg is Some,
            final(self).status_msg->0@ == match error {
                None => "正在扫描本地音乐..."@,
                Some(e) => "目录已添加，但保存失败: "@ + e@,
            },
            *final(self) == (SettingsPage { status_msg: final(self).status_msg, ..*old(self) }),
    {
        self.status_msg = Some(
            match error {
                None => String::from_str("正在扫描本地音乐..."),
                Some(e) => joined("目录已添加，但保存失败: ", e.as_str()),
            },
        );
        AppAction::ScanLocalMusic { paths, max_depth }
    }

    /// After directory `removed` left the configuration: reports the save
    /// and asks to scan the `remaining` directories.
    pub fn finish_remove_local_path(
        &mut self,
        removed: &str,
        error: Option<String>,
        remaining: Vec<String>,
        max_depth: usize,
    ) -> (r: AppAction)
        ensures
            r == (AppAction::ScanLocalMusic { paths: remaining, max_depth }),
            final(self).status_msg is Some,
            final(self).status_msg->0@ == match error {
                None => "已移除 "@ + removed@ + "，正在重新扫描..."@,
                Some(e) => "已移除，但保存失败: "@ + e@,
            },
            *final(self) == (SettingsPage { status_msg: final(self).status_msg, ..*old(self) }),
    {
        self.status_msg = Some(
            match error {
                None => {
                    let mut m = joined("已移除 ", removed);
                    m.append("，正在重新扫描...");
                    m
                },
                Some(e) => joined("已移除，但保存失败: ", e.as_str()),
            },
        );
        AppAction::ScanLocalMusic { paths: remaining, max_depth }
    }

    /// A JS source finished loading and was enabled; `error` holds the
    /// failure to save the configuration, if any.
    pub fn source_imported(&mut self, error: Option<String>)
        ensures
            final(self).selected_source == 0,
            final(self).status_msg is Some,
            final(self).status_msg->0@ == match error {
                None => "✓ 音源已加载并启用"@,
                Some(e) => "✗ 音源已启用，但保存配置失败: "@ + e@,
            },
            *final(self) == (SettingsPage {
                selected_source: 0,
                status_msg: final(self).status_msg,
                ..*old(self)
            }),
    {
        self.selected_source = 0;
        self.status_msg = Some(
            match error {
                None => String::from_str("✓ 音源已加载并启用"),
                Some(e) => joined("✗ 音源已启用，但保存配置失败: ", e.as_str()),
            },
        );
    }

    /// A JS source failed to load with `error`.
    pub fn source_import_failed(&mut self, error: &str)
        ensures
            final(self).status_msg is Some,
            final(self).status_msg->0@ == "✗ 音源加载失败: "@ + error@,
            *final(self) == (SettingsPage { status_msg: final(self).status_msg, ..*old(self) }),
    {
        self.status_msg = Some(joined("✗ 音源加载失败: ", error));
    }

    /// Keeps both selections inside their lists (as drawing the page does).
    pub fn clamp_selections(&mut self, sources_len: usize, paths_len: usize)
        ensures
            *final(self) == (SettingsPage {
                selected_source: if sources_len == 0 {
                    old(self).selected_source
                } else {
                    crate::listnav::min_int(old(self).selected_source as int, sources_len - 1) as usize
                },
                selected_local_path: if paths_len == 0 {
                    old(self).selected_local_path
                } else {
                    crate::listnav::min_int(old(self).selected_local_path as int, paths_len - 1) as usize
                },
                ..*old(self)
            }),
    {
        if sources_len > 0 && self.selected_source > sources_len - 1 {
            self.selected_source = sources_len - 1;
        }
        if paths_len > 0 && self.selected_local_path > paths_len - 1 {
            self.selected_local_path = paths_len - 1;
        }
    }
}


/// `items` without the entries equal to `value`, order kept.
pub open spec fn without(items: Seq<String>, value: Seq<char>) -> Seq<String>
    decreases items.len(),
{
    if items.len() == 0 {
        Seq::<String>::empty()
    } else {
        let rest = without(items.drop_last(), value);
        if items.last()@ == value {
            rest
        } else {
            rest.push(items.last())
        }
    }
}

/// `items` without the entries equal to `value`, order kept.
pub fn remove_all(items: &Vec<String>, value: &str) -> (r: Vec<String>)
    ensures
        r@ == without(items@, value@),
{
    let target = String::from_str(value);
    let mut out: Vec<String> = Vec::new();
    let mut i: usize = 0;
    while i < items.len()
        invariant
            i <= items.len(),
            target@ == value@,
            out@ == without(items@.take(i as int), value@),
        decreases items.len() - i,
    {
        assert(items@.take(i + 1).drop_last() =~= items@.take(i as int));
        if items[i] != target {
            out.push(items[i].clone());
        }
        i = i + 1;
    }
    assert(items@.take(items.len() as int) =~= items@);
    out
}

/// Whether some entry of `items` equals `value`.
pub fn contains_string(items: &Vec<String>, value: &String) -> (r: bool)
    ensures
        r == exists|i: int| 0 <= i < items@.len() && (#[trigger] items@[i])@ == value@,
{
    let mut i: usize = 0;
    while i < items.len()
        invariant
            i <= items.len(),
            forall|k: int| 0 <= k < i ==> (#[trigger] items@[k])@ != value@,
        decreases items.len() - i,
    {
        if items[i] == *value {
            return true;
        }
        i = i + 1;
    }
    false
}

/// Adds directory `path` to the configured `paths` unless it is there;
/// adding one turns local music on.
pub fn add_local_path(paths: &mut Vec<String>, enabled: &mut bool, path: String)
    ensures
        (exists|i: int| 0 <= i < old(paths)@.len() && (#[trigger] old(paths)@[i])@ == path@) ==> (
        final(paths)@ == old(paths)@ && *final(enabled) == *old(enabled)),
        !(exists|i: int| 0 <= i < old(paths)@.len() && (#[trigger] old(paths)@[i])@ == path@) ==> (
        final(paths)@ == old(paths)@.push(path) && *final(enabled)),
{
    if !contains_string(paths, &path) {
        paths.push(path);
        *enabled = true;
    }
}

/// Removes directory `removed` from the configured `paths`; local music
/// stays on only while directories remain.  Returns that on/off state.
pub fn remove_local_path(paths: &mut Vec<String>, removed: &str) -> (enabled: bool)
    ensures
        final(paths)@ == without(old(paths)@, removed@),
        enabled == (final(paths)@.len() > 0),
{
    let kept = remove_all(paths, removed);
    *paths = kept;
    paths.len() > 0
}

/// Puts JS source `url` first in `sources`, dropping other copies of it.
pub fn promote_source(sources: &mut Vec<String>, url: String)
    ensures
        final(sources)@ == seq![url].add(without(old(sources)@, url@)),
{
    let kept = remove_all(sources, url.as_str());
    let mut out: Vec<String> = Vec::new();
    out.push(url);
    let mut i: usize = 0;
    let ghost first = out@[0];
    while i < kept.len()
        invariant
            i <= kept.len(),
            out@ == seq![first].add(kept@.take(i as int)),
        decreases kept.len() - i,
    {
        out.push(kept[i].clone());
        i = i + 1;
        assert(out@ =~= seq![first].add(kept@.take(i as int)));
    }
    assert(kept@.take(kept.len() as int) =~= kept@);
    *sources = out;
}

/// The accent colours, in the order the p key cycles through them.
pub open spec fn accent_after(accent: Seq<char>) -> Seq<char> {
    if accent == "#cba6f7"@ {
        "#89b4fa"@
    } else if accent == "#89b4fa"@ {
        "#94e2d5"@
    } else if accent == "#94e2d5"@ {
        "#f5c2e7"@
    } else if accent == "#f5c2e7"@ {
        "#fab387"@
    } else {
        "#cba6f7"@
    }
}

/// The accent colour that follows `accent`; an unknown colour restarts
/// the cycle.
pub fn next_accent(accent: &String) -> (r: String)
    ensures
        r@ == accent_after(accent@),
{
    let a = String::from_str("#cba6f7");
    let b = String::from_str("#89b4fa");
    let c = String::from_str("#94e2d5");
    let d = String::from_str("#f5c2e7");
    let e = String::from_str("#fab387");
    if *accent == a {
        b
    } else if *accent == b {
        c
    } else if *accent == c {
        d
    } else if *accent == d {
        e
    } else {
        a
    }
}

/// Cycling the accent five times from a known colour returns to it.
pub proof fn lemma_accent_cycle()
    ensures
        accent_after(accent_after(accent_after(accent_after(accent_after("#cba6f7"@))))) == "#cba6f7"@,
{
    reveal_strlit("#cba6f7");
    reveal_strlit("#89b4fa");
    reveal_strlit("#94e2d5");
    reveal_strlit("#f5c2e7");
    reveal_strlit("#fab387");
    assert("#89b4fa"@[1] != "#cba6f7"@[1]);
    assert("#94e2d5"@[2] != "#cba6f7"@[2] && "#94e2d5"@[2] != "#89b4fa"@[2]);
    assert("#f5c2e7"@[1] != "#cba6f7"@[1] && "#f5c2e7"@[1] != "#89b4fa"@[1] && "#f5c2e7"@[1]
        != "#94e2d5"@[1]);
    assert("#fab387"@[1] != "#cba6f7"@[1] && "#fab387"@[1] != "#89b4fa"@[1] && "#fab387"@[1]
        != "#94e2d5"@[1] && "#fab387"@[2] != "#f5c2e7"@[2]);
}

/// A copy of a list of strings, equal to it.
pub fn copy_strings(items: &Vec<String>) -> (r: Vec<String>)
    ensures
        r@ == items@,
{
    let mut out: Vec<String> = Vec::new();
    let mut i: usize = 0;
    while i < items.len()
        invariant
            i <= items.len(),
            out@ == items@.subrange(0, i as int),
        decreases items.len() - i,
    {
        out.push(items[i].clone());
        i = i + 1;
        assert(out@ =~= items@.subrange(0, i as int));
    }
    assert(items@.subrange(0, items.len() as int) =~= items@);
    out
}

} // verus!
