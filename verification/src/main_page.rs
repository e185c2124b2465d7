//! The play queue page: selection, reordering, removal and playback of
//! queued songs.  The queue itself belongs to the application; the page
//! decides and reports what to do with it.
use vstd::prelude::*;
use crate::input::{KeyCode, KeyEvent, MOD_CONTROL, MOD_NONE, MOD_SHIFT, MouseButton, MouseEvent, MouseEventKind};
use crate::layout::{
    Constraint, Direction, Rect, bordered_inner, bottom_of, inner_of, laid_out, sat_add16, split,
};
use crate::listnav::{
    last_index, min_int, sat_sub, step_down, step_up, select_down, select_up, page_down, visible_offset,
    wheel_rows,
};
use crate::model::{AppAction, SongInfo, copy_songs};

verus! {

/// State of the queue page.
pub struct MainPage {
    pub selected: usize,
    pub scroll: usize,
    pub dragging: Option<usize>,
}

/// What the queue page asks of the application.
#[derive(Debug, Clone, PartialEq, Eq)]
pub enum QueueOutcome {
    Action(AppAction),
    /// Move the queued song at `from` to `to`.
    MoveItem { from: usize, to: usize },
    /// Remove the queued song at `index`; `removing_current` tells whether
    /// it is the one playing.
    Remove { index: usize, removing_current: bool },
    /// Empty the queue and stop playback.
    Clear,
}

/// What a key does on the queue page.
#[derive(Debug, Clone, Copy, PartialEq, Eq, Structural)]
pub enum QueueCommand {
    Up,
    Down,
    First,
    Last,
    PageUp,
    PageDown,
    MoveUp,
    MoveDown,
    Play,
    Remove,
    Clear,
    Ignore,
}

/// The command a key stands for on the queue page.
pub open spec fn queue_command(key: KeyEvent) -> QueueCommand {
    let m = key.modifiers;
    let c = key.code;
    if m == MOD_NONE && (c == KeyCode::Up || c == KeyCode::Char('e')) {
        QueueCommand::Up
    } else if m == MOD_NONE && (c == KeyCode::Down || c == KeyCode::Char('n')) {
        QueueCommand::Down
    } else if m == MOD_NONE && (c == KeyCode::Home || c == KeyCode::Char('g')) {
        QueueCommand::First
    } else if (m == MOD_NONE && (c == KeyCode::End || c == KeyCode::Char('G'))) || (m == MOD_SHIFT
        && c == KeyCode::Char('G')) {
        QueueCommand::Last
    } else if (m == MOD_CONTROL && c == KeyCode::Char('u')) || (m == MOD_NONE && c
        == KeyCode::PageUp) {
        QueueCommand::PageUp
    } else if (m == MOD_CONTROL && c == KeyCode::Char('d')) || (m == MOD_NONE && c
        == KeyCode::PageDown) {
        QueueCommand::PageDown
    } else if m == MOD_SHIFT && (c == KeyCode::Up || c == KeyCode::Char('E')) {
        QueueCommand::MoveUp
    } else if m == MOD_SHIFT && (c == KeyCode::Down || c == KeyCode::Char('N')) {
        QueueCommand::MoveDown
    } else if m == MOD_NONE && c == KeyCode::Enter {
        QueueCommand::Play
    } else if m == MOD_NONE && c == KeyCode::Char('d') {
        QueueCommand::Remove
    } else if m == MOD_SHIFT && c == KeyCode::Char('D') {
        QueueCommand::Clear
    } else {
        QueueCommand::Ignore
    }
}

/// Reads a key press on the queue page.
pub fn read_queue_command(key: &KeyEvent) -> (r: QueueCommand)
    ensures
        r == queue_command(*key),
{
    let m = key.modifiers;
    let c = key.code;
    if m == MOD_NONE && (c == KeyCode::Up || c == KeyCode::Char('e')) {
        QueueCommand::Up
    } else if m == MOD_NONE && (c == KeyCode::Down || c == KeyCode::Char('n')) {
        QueueCommand::Down
    } else if m == MOD_NONE && (c == KeyCode::Home || c == KeyCode::Char('g')) {
        QueueCommand::First
    } else if (m == MOD_NONE && (c == KeyCode::End || c == KeyCode::Char('G'))) || (m == MOD_SHIFT
        && c == KeyCode::Char('G')) {
        QueueCommand::Last
    } else if (m == MOD_CONTROL && c == KeyCode::Char('u')) || (m == MOD_NONE && c
        == KeyCode::PageUp) {
        QueueCommand::PageUp
    } else if (m == MOD_CONTROL && c == KeyCode::Char('d')) || (m == MOD_NONE && c
        == KeyCode::PageDown) {
        QueueCommand::PageDown
    } else if m == MOD_SHIFT && (c == KeyCode::Up || c == KeyCode::Char('E')) {
        QueueCommand::MoveUp
    } else if m == MOD_SHIFT && (c == KeyCode::Down || c == KeyCode::Char('N')) {
        QueueCommand::MoveDown
    } else if m == MOD_NONE && c == KeyCode::Enter {
        QueueCommand::Play
    } else if m == MOD_NONE && c == KeyCode::Char('d') {
        QueueCommand::Remove
    } else if m == MOD_SHIFT && c == KeyCode::Char('D') {
        QueueCommand::Clear
    } else {
        QueueCommand::Ignore
    }
}

/// The selection the page starts a key from: when it lies past the end
/// of the queue it falls back to the playing song (or the last one).
pub open spec fn start_selection(selected: int, len: int, current: int) -> int {
    if selected >= len {
        min_int(current, last_index(len))
    } else {
        selected
    }
}

/// `q` and `r` are what a key does to `p` on a queue of `songs` whose
/// playing song is at `current`.
pub open spec fn queue_key_effect(
    p: MainPage,
    command: QueueCommand,
    songs: Seq<SongInfo>,
    current: int,
    wrap: bool,
    q: MainPage,
    r: QueueOutcome,
) -> bool {
    let len = songs.len() as int;
    let s = start_selection(p.selected as int, len, current);
    let noop = QueueOutcome::Action(AppAction::NoOp);
    match command {
        QueueCommand::Up => r == noop && q == MainPage { selected: step_up(s, len, wrap) as usize, ..p },
        QueueCommand::Down => r == noop && q == MainPage {
            selected: step_down(s, len, wrap) as usize,
            ..p
        },
        QueueCommand::First => r == noop && q == MainPage { selected: 0, ..p },
        QueueCommand::Last => r == noop && q == MainPage { selected: last_index(len) as usize, ..p },
        QueueCommand::PageUp => r == noop && q == MainPage { selected: sat_sub(s, 5) as usize, ..p },
        QueueCommand::PageDown => r == noop && q == MainPage {
            selected: min_int(s + 5, last_index(len)) as usize,
            ..p
        },
        QueueCommand::MoveUp => if s > 0 {
            r == (QueueOutcome::MoveItem { from: s as usize, to: (s - 1) as usize }) && q == MainPage {
                selected: (s - 1) as usize,
                ..p
            }
        } else {
            r == noop && q == MainPage { selected: s as usize, ..p }
        },
        QueueCommand::MoveDown => if s + 1 < len {
            r == (QueueOutcome::MoveItem { from: s as usize, to: (s + 1) as usize }) && q == MainPage {
                selected: (s + 1) as usize,
                ..p
            }
        } else {
            r == noop && q == MainPage { selected: s as usize, ..p }
        },
        QueueCommand::Play => q == MainPage { selected: s as usize, ..p } && if s < len {
            r is Action && r->Action_0 is PlaySong && r->Action_0->songs@ == songs
                && r->Action_0->index == s
        } else {
            r == noop
        },
        QueueCommand::Remove => r == (QueueOutcome::Remove {
            index: s as usize,
            removing_current: s == current,
        }) && q == MainPage { selected: min_int(s, sat_sub(len, 2)) as usize, ..p },
        QueueCommand::Clear => r == QueueOutcome::Clear && q == MainPage {
            selected: 0,
            scroll: 0,
            ..p
        },
        QueueCommand::Ignore => r == noop && q == MainPage { selected: s as usize, ..p },
    }
}


/// Removing a queued song reports that the playing song is removed
/// exactly when the removed entry is the playing one; `d` removes the
/// song the selection starts from.
pub proof fn lemma_remove_reports_playing(
    p: MainPage,
    command: QueueCommand,
    songs: Seq<SongInfo>,
    current: usize,
    wrap: bool,
    q: MainPage,
    r: QueueOutcome,
)
    requires
        queue_key_effect(p, command, songs, current as int, wrap, q, r),
    ensures
        r matches QueueOutcome::Remove { index, removing_current } ==> removing_current == (index
            == current),
        command == queue_command(KeyEvent { code: KeyCode::Char('d'), modifiers: MOD_NONE })
            ==> (r matches QueueOutcome::Remove { index, removing_current } && index
            == start_selection(p.selected as int, songs.len() as int, current as int) && removing_current
            == (index == current)),
{
}

/// A page at least 72 columns wide sets cover and lyrics left of the
/// queue; a narrower one stacks the queue above the lyrics.
pub open spec fn queue_direction(width: u16) -> Direction {
    if width >= 72 {
        Direction::Horizontal
    } else {
        Direction::Vertical
    }
}

/// The sizes asked for the two parts of the main page: 36% and 64% side
/// by side, or 62% and 38% stacked.
pub open spec fn queue_constraints(width: u16) -> Seq<Constraint> {
    if width >= 72 {
        seq![Constraint::Percentage(36), Constraint::Percentage(64)]
    } else {
        seq![Constraint::Percentage(62), Constraint::Percentage(38)]
    }
}

/// How a main page `width` columns wide is split: the direction and the
/// two sizes.
pub fn queue_split(width: u16) -> (r: (Direction, Vec<Constraint>))
    ensures
        r.0 == queue_direction(width),
        r.1@ == queue_constraints(width),
{
    if width >= 72 {
        let c = vec![Constraint::Percentage(36), Constraint::Percentage(64)];
        assert(c@ =~= queue_constraints(width));
        (Direction::Horizontal, c)
    } else {
        let c = vec![Constraint::Percentage(62), Constraint::Percentage(38)];
        assert(c@ =~= queue_constraints(width));
        (Direction::Vertical, c)
    }
}

/// `queue` is placed as the queue box of the page `area`, whatever sizes
/// the solver chose: the second of the two parts of a page at least 72
/// columns wide, else the first.
pub open spec fn queue_placed(area: Rect, queue: Rect) -> bool {
    exists|parts: Seq<Rect>|
        #[trigger] laid_out(queue_direction(area.width), area, parts) && parts.len() == 2 && queue
            == if area.width >= 72 {
            parts[1]
        } else {
            parts[0]
        }
}

/// The box of the queue on the page `area` (`queue_split`): the right
/// part of a page at least 72 columns wide (cover and lyrics on the
/// left), else the top part.
pub fn queue_area(area: Rect) -> (r: Rect)
    ensures
        queue_placed(area, r),
{
    let (direction, constraints) = queue_split(area.width);
    let parts = split(direction, &constraints, area);
    assert(laid_out(queue_direction(area.width), area, parts@));
    if area.width >= 72 {
        parts[1]
    } else {
        parts[0]
    }
}

/// The queued song drawn at `row` of the queue box `queue`, with the
/// song list scrolled to `scroll` (a header row stands above the songs).
pub open spec fn queue_slot(row: int, queue: Rect, scroll: int, len: int) -> Option<int> {
    let inner = inner_of(queue);
    let list_y = sat_add16(inner.y as int, 1);
    if row < list_y || row >= bottom_of(inner) || scroll + (row - list_y) >= len {
        None
    } else {
        Some(scroll + (row - list_y))
    }
}

/// The queued song drawn at `row` of the queue box `queue`, if any.
pub fn queue_index_at(row: u16, queue: Rect, scroll: usize, len: usize) -> (r: Option<usize>)
    ensures
        match r {
            Some(i) => queue_slot(row as int, queue, scroll as int, len as int) == Some(i as int),
            None => queue_slot(row as int, queue, scroll as int, len as int) is None,
        },
{
    let inner = bordered_inner(queue);
    let list_y = inner.y.saturating_add(1);
    if row < list_y || row >= inner.bottom() {
        return None;
    }
    let offset = (row - list_y) as usize;
    if scroll < len && offset < len - scroll {
        Some(scroll + offset)
    } else {
        None
    }
}

/// `q` and `r` are what a mouse event over the page whose queue box is
/// `queue` does to `p` on a queue of `songs` whose playing song is at `current`: the wheel
/// moves by `step` rows, a click selects a song and starts dragging it
/// (or plays the queue from it when `activate`), a click elsewhere
/// selects the playing song, dragging onto another song moves the dragged
/// one there, and letting go ends the drag.
pub open spec fn queue_mouse_effect(
    p: MainPage,
    event: MouseEvent,
    queue: Rect,
    songs: Seq<SongInfo>,
    current: int,
    step: int,
    activate: bool,
    q: MainPage,
    r: QueueOutcome,
) -> bool {
    let len = songs.len() as int;
    let slot = queue_slot(event.row as int, queue, p.scroll as int, len);
    let noop = QueueOutcome::Action(AppAction::NoOp);
    match event.kind {
        MouseEventKind::ScrollUp => r == noop && q == MainPage {
            selected: sat_sub(p.selected as int, step) as usize,
            dragging: None,
            ..p
        },
        MouseEventKind::ScrollDown => r == noop && q == MainPage {
            selected: min_int(p.selected + step, last_index(len)) as usize,
            dragging: None,
            ..p
        },
        MouseEventKind::Down(MouseButton::Left) => match slot {
            Some(i) => if activate {
                &&& q == MainPage { selected: i as usize, dragging: None, ..p }
                &&& r is Action && r->Action_0 is PlaySong && r->Action_0->songs@ == songs
                    && r->Action_0->index == i
            } else {
                r == noop && q == MainPage { selected: i as usize, dragging: Some(i as usize), ..p }
            },
            None => r == noop && q == MainPage {
                selected: min_int(current, last_index(len)) as usize,
                dragging: None,
                ..p
            },
        },
        MouseEventKind::Drag(MouseButton::Left) => match (p.dragging, slot) {
            (Some(from), Some(to)) => if from != to {
                r == (QueueOutcome::MoveItem { from, to: to as usize }) && q == MainPage {
                    selected: to as usize,
                    dragging: Some(to as usize),
                    ..p
                }
            } else {
                r == noop && q == p
            },
            _ => r == noop && q == p,
        },
        MouseEventKind::Up(MouseButton::Left) => r == noop && q == MainPage { dragging: None, ..p },
        _ => r == noop && q == p,
    }
}

/// Moving a song up and then down again (or down, then up) puts it back:
/// the second move undoes the first and the selection returns.
pub proof fn lemma_moves_undo(
    p: MainPage,
    songs: Seq<SongInfo>,
    current: int,
    wrap: bool,
    q: MainPage,
    r: QueueOutcome,
    t: MainPage,
    u: QueueOutcome,
)
    requires
        p.selected < songs.len(),
        queue_key_effect(p, QueueCommand::MoveUp, songs, current, wrap, q, r),
        queue_key_effect(q, QueueCommand::MoveDown, songs, current, wrap, t, u),
        p.selected > 0,
    ensures
        r == (QueueOutcome::MoveItem { from: p.selected, to: (p.selected - 1) as usize }),
        u == (QueueOutcome::MoveItem { from: (p.selected - 1) as usize, to: p.selected }),
        t.selected == p.selected,
{
}

impl MainPage {
    /// A page at the top of the queue, nothing dragged.
    pub fn new() -> (r: MainPage)
        ensures
            r.selected == 0,
            r.scroll == 0,
            r.dragging is None,
    {
        MainPage { selected: 0, scroll: 0, dragging: None }
    }

    /// Acts on a key; `songs` is the queue, `current` the index of the
    /// playing song and `wrap` whether moving past either end wraps.
    pub fn handle_input(&mut self, key: &KeyEvent, songs: &Vec<SongInfo>, current: usize, wrap: bool) -> (r:
        QueueOutcome)
        ensures
            queue_key_effect(
                *old(self),
                queue_command(*key),
                songs@,
                current as int,
                wrap,
                *final(self),
                r,
            ),
    {
        let len = songs.len();
        if self.selected >= len {
            let last = len.saturating_sub(1);
            self.selected = if current < last {
                current
            } else {
                last
            };
        }
        match read_queue_command(key) {
            QueueCommand::Up => {
                self.selected = select_up(self.selected, len, wrap);
            },
            QueueCommand::Down => {
                self.selected = select_down(self.selected, len, wrap);
            },
            QueueCommand::First => {
                self.selected = 0;
            },
            QueueCommand::Last => {
                self.selected = len.saturating_sub(1);
            },
            QueueCommand::PageUp => {
                self.selected = self.selected.saturating_sub(5);
            },
            QueueCommand::PageDown => {
                self.selected = page_down(self.selected, 5, len);
            },
            QueueCommand::MoveUp => {
                if self.selected > 0 {
                    let from = self.selected;
                    self.selected = from - 1;
                    return QueueOutcome::MoveItem { from, to: from - 1 };
                }
            },
            QueueCommand::MoveDown => {
                if self.selected < len && self.selected + 1 < len {
                    let from = self.selected;
                    self.selected = from + 1;
                    return QueueOutcome::MoveItem { from, to: from + 1 };
                }
            },
            QueueCommand::Play => {
                if self.selected < len {
                    return QueueOutcome::Action(
                        AppAction::PlaySong { songs: copy_songs(songs), index: self.selected },
                    );
                }
            },
            QueueCommand::Remove => {
                let index = self.selected;
                let removing_current = index == current;
                let keep = len.saturating_sub(2);
                self.selected = if index < keep {
                    index
                } else {
                    keep
                };
                return QueueOutcome::Remove { index, removing_current };
            },
            QueueCommand::Clear => {
                self.selected = 0;
                self.scroll = 0;
                return QueueOutcome::Clear;
            },
            QueueCommand::Ignore => {},
        }
        QueueOutcome::Action(AppAction::NoOp)
    }

    /// Acts on a mouse event over the page whose queue box is `queue`;
    /// `songs` is the queue,
    /// `current` the index of the playing song, and the wheel moves by
    /// `scroll_amount` rows (at least one).
    pub fn handle_mouse_on(
        &mut self,
        event: &MouseEvent,
        queue: Rect,
        songs: &Vec<SongInfo>,
        current: usize,
        scroll_amount: usize,
        activate: bool,
    ) -> (r: QueueOutcome)
        ensures
            queue_mouse_effect(
                *old(self),
                *event,
                queue,
                songs@,
                current as int,
                wheel_rows(scroll_amount as int),
                activate,
                *final(self),
                r,
            ),
    {
        let len = songs.len();
        let step = if scroll_amount >= 1 {
            scroll_amount
        } else {
            1
        };
        match event.kind {
            MouseEventKind::ScrollUp => {
                self.dragging = None;
                self.selected = self.selected.saturating_sub(step);
            },
            MouseEventKind::ScrollDown => {
                self.dragging = None;
                self.selected = page_down(self.selected, step, len);
            },
            MouseEventKind::Down(MouseButton::Left) => {
                match queue_index_at(event.row, queue, self.scroll, len) {
                    Some(index) => {
                        self.selected = index;
                        self.dragging = Some(index);
                        if activate {
                            self.dragging = None;
                            return QueueOutcome::Action(
                                AppAction::PlaySong { songs: copy_songs(songs), index },
                            );
                        }
                    },
                    None => {
                        self.dragging = None;
                        let last = len.saturating_sub(1);
                        self.selected = if current < last {
                            current
                        } else {
                            last
                        };
                    },
                }
            },
            MouseEventKind::Drag(MouseButton::Left) => {
                match self.dragging {
                    Some(from) => {
                        match queue_index_at(event.row, queue, self.scroll, len) {
                            Some(target) => {
                                if from != target {
                                    self.selected = target;
                                    self.dragging = Some(target);
                                    return QueueOutcome::MoveItem { from, to: target };
                                }
                            },
                            None => {},
                        }
                    },
                    None => {},
                }
            },
            MouseEventKind::Up(MouseButton::Left) => {
                self.dragging = None;
            },
            _ => {},
        }
        QueueOutcome::Action(AppAction::NoOp)
    }

    /// Acts on a mouse event over the page `area`; `songs` is the queue,
    /// `current` the index of the playing song, and the wheel moves by
    /// `scroll_amount` rows (at least one).  The queue box is placed by
    /// the layout solver; whatever box it gives, the event acts as on a
    /// page with that box.
    pub fn handle_mouse(
        &mut self,
        event: &MouseEvent,
        area: Rect,
        songs: &Vec<SongInfo>,
        current: usize,
        scroll_amount: usize,
        activate: bool,
    ) -> (r: QueueOutcome)
        ensures
            exists|queue: Rect|
                queue_placed(area, queue) && #[trigger] queue_mouse_effect(
                    *old(self),
                    *event,
                    queue,
                    songs@,
                    current as int,
                    wheel_rows(scroll_amount as int),
                    activate,
                    *final(self),
                    r,
                ),
    {
        let queue = queue_area(area);
        self.handle_mouse_on(event, queue, songs, current, scroll_amount, activate)
    }

    /// Keeps the selection inside a queue of `len` songs and scrolls a
    /// window of `visible` rows so that it shows the selection (as
    /// drawing the queue does).
    pub fn sync_view(&mut self, len: usize, visible: usize)
        ensures
            len > 0 ==> final(self).selected == min_int(old(self).selected as int, len - 1),
            len == 0 ==> final(self).selected == old(self).selected,
            len > 0 && visible > 0 ==> final(self).scroll == visible_offset(
                final(self).selected as int,
                visible as int,
                len as int,
                old(self).scroll as int,
            ),
            len == 0 || visible == 0 ==> final(self).scroll == old(self).scroll,
            final(self).dragging == old(self).dragging,
    {
        if len == 0 {
            return ;
        }
        if self.selected > len - 1 {
            self.selected = len - 1;
        }
        if visible == 0 {
            return ;
        }
        crate::listnav::ensure_visible(self.selected, visible, len, &mut self.scroll);
    }
}

/// What to do after the playing song was removed: stop when the queue
/// is now empty, else play the song the queue moved on to.
pub fn after_current_removed(remaining: Vec<SongInfo>, next: usize) -> (r: Option<AppAction>)
    ensures
        remaining@.len() == 0 ==> r is None,
        remaining@.len() > 0 ==> r == Some(AppAction::PlaySong { songs: remaining, index: next }),
{
    if remaining.len() == 0 {
        None
    } else {
        Some(AppAction::PlaySong { songs: remaining, index: next })
    }
}

} // verus!
