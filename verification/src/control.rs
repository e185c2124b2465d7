//! Decisions of the application loop: where a key or a mouse event goes,
//! the global shortcuts and the pages they stay out of, the double click,
//! and the layout of the screen.  The loop itself (terminal, player,
//! background tasks) performs what these functions decide.
use vstd::prelude::*;
use std::time::Instant;
use crate::clock::{elapsed_since, instant_now, nanos_of};
use crate::input::{
    KeyCode, KeyEvent, MOD_NONE, MOD_SHIFT, MouseButton, MouseEvent, MouseEventKind, plain, shifted,
};
use crate::layout::{
    Constraint, Direction, Rect, laid_out, bordered_inner, clamped_rect, inner_of, inside, split,
};
use crate::listnav::{min_int, sat_sub};
use crate::model::Action;
use crate::nav::{NavTab, shortcut_tab, tab_after, tab_at, tab_before, tab_chunks, tab_hit};

verus! {

/// What the loop knows when a key arrives: the page shown, which text
/// fields take typing, what is open above the pages.
#[derive(Debug, Clone, Copy, PartialEq, Eq, Structural)]
pub struct KeyContext {
    pub tab: NavTab,
    /// The settings page takes typing (a JS source or a directory).
    pub settings_input: bool,
    /// The search page takes typing.
    pub search_input: bool,
    /// The favorites filter takes typing.
    pub favorites_input: bool,
    /// A playlist is open on the playlists page.
    pub playlist_open: bool,
    /// A board is open on the leaderboard page.
    pub board_open: bool,
    /// The login prompt is shown.
    pub login_open: bool,
    /// The delete prompt for a local file is shown.
    pub confirm_open: bool,
    /// A song's context menu is shown.
    pub menu_open: bool,
}

/// The shown page takes typing, so shortcuts are left to it.
pub open spec fn typing(c: KeyContext) -> bool {
    (c.tab == NavTab::Settings && c.settings_input) || (c.tab == NavTab::Search && c.search_input)
        || (c.tab == NavTab::Favorites && c.favorites_input)
}

/// Whether the shown page takes typing.
pub fn text_input_active(c: &KeyContext) -> (r: bool)
    ensures
        r == typing(*c),
{
    (c.tab == NavTab::Settings && c.settings_input) || (c.tab == NavTab::Search && c.search_input)
        || (c.tab == NavTab::Favorites && c.favorites_input)
}

/// A key on the settings page that may change a search preference (the
/// aggregate search or the wrapping of lists), after which the search
/// page takes the preferences anew.
pub open spec fn changes_search_preferences(key: KeyEvent) -> bool {
    key.code == KeyCode::Char('g') || key.code == KeyCode::Char('w')
}

/// Whether the search page takes the preferences anew after `key` on
/// the settings page.
pub fn syncs_search_preferences(key: &KeyEvent) -> (r: bool)
    ensures
        r == changes_search_preferences(*key),
{
    key.code == KeyCode::Char('g') || key.code == KeyCode::Char('w')
}

/// A notification stays on screen while notifications are shown in the
/// application (`in_app`) and it has not expired.
pub fn notification_kept(in_app: bool, expired: bool) -> (r: bool)
    ensures
        r == (in_app && !expired),
{
    in_app && !expired
}

/// At the periodic tick the screen is redrawn while a song plays or
/// loads (`playing_or_loading`), while the shown page `tab` takes typing
/// (so that the cursor shows), or while a notification is shown.
pub open spec fn redraw_wanted(
    tab: NavTab,
    search_input: bool,
    settings_input: bool,
    favorites_input: bool,
    playing_or_loading: bool,
    notification_shown: bool,
) -> bool {
    ||| playing_or_loading
    ||| (tab == NavTab::Search && search_input)
    ||| (tab == NavTab::Settings && settings_input)
    ||| (tab == NavTab::Favorites && favorites_input)
    ||| notification_shown
}

/// Whether the periodic tick redraws the screen.
pub fn periodic_redraw(
    tab: NavTab,
    search_input: bool,
    settings_input: bool,
    favorites_input: bool,
    playing_or_loading: bool,
    notification_shown: bool,
) -> (r: bool)
    ensures
        r == redraw_wanted(
            tab,
            search_input,
            settings_input,
            favorites_input,
            playing_or_loading,
            notification_shown,
        ),
{
    playing_or_loading || (tab == NavTab::Search && search_input) || (tab == NavTab::Settings
        && settings_input) || (tab == NavTab::Favorites && favorites_input) || notification_shown
}

/// A shortcut that acts on the whole application.
#[derive(Debug, Clone, Copy, PartialEq, Eq, Structural)]
pub enum GlobalCommand {
    Quit,
    PlayPause,
    NextTrack,
    PrevTrack,
    CycleMode,
    SeekForward,
    SeekBackward,
    VolumeUp,
    VolumeDown,
    SwitchTab(NavTab),
    ToggleFavorite,
}

/// The shortcut a configured global binding stands for, where the page
/// shown lets it act.  Seeking stays out of the leaderboard and the
/// playlists (their arrows pick sources), the previous track out of the
/// settings, favoriting out of the favorites and the playlists, and
/// going back to the queue out of pages that use the key themselves.
pub open spec fn bound_command(binding: Action, c: KeyContext) -> Option<GlobalCommand> {
    let t = typing(c);
    let tab = c.tab;
    match binding {
        Action::GlobalQuit => if !t {
            Some(GlobalCommand::Quit)
        } else {
            None
        },
        Action::GlobalPlayPause => if !t {
            Some(GlobalCommand::PlayPause)
        } else {
            None
        },
        Action::GlobalNextTrack => if !t {
            Some(GlobalCommand::NextTrack)
        } else {
            None
        },
        Action::GlobalPrevTrack => if !t && tab != NavTab::Settings {
            Some(GlobalCommand::PrevTrack)
        } else {
            None
        },
        Action::GlobalCycleMode => if !t {
            Some(GlobalCommand::CycleMode)
        } else {
            None
        },
        Action::GlobalSeekForward => if !t && tab != NavTab::Leaderboard && tab != NavTab::Playlists {
            Some(GlobalCommand::SeekForward)
        } else {
            None
        },
        Action::GlobalSeekBackward => if !t && tab != NavTab::Leaderboard && tab
            != NavTab::Playlists {
            Some(GlobalCommand::SeekBackward)
        } else {
            None
        },
        Action::GlobalVolumeUp => if !t {
            Some(GlobalCommand::VolumeUp)
        } else {
            None
        },
        Action::GlobalVolumeDown => if !t {
            Some(GlobalCommand::VolumeDown)
        } else {
            None
        },
        Action::GlobalNextTab => if !t {
            Some(GlobalCommand::SwitchTab(tab_after(tab)))
        } else {
            None
        },
        Action::GlobalPrevTab => if !t {
            Some(GlobalCommand::SwitchTab(tab_before(tab)))
        } else {
            None
        },
        Action::GlobalGoToMain => if !(tab == NavTab::Settings && c.settings_input) && tab
            != NavTab::Main && tab != NavTab::Search && tab != NavTab::Favorites && !(tab
            == NavTab::Playlists && c.playlist_open) && !(tab == NavTab::Leaderboard
            && c.board_open) {
            Some(GlobalCommand::SwitchTab(NavTab::Main))
        } else {
            None
        },
        Action::GlobalToggleFavorite => if !t && tab != NavTab::Favorites && tab
            != NavTab::Playlists {
            Some(GlobalCommand::ToggleFavorite)
        } else {
            None
        },
        _ => None,
    }
}

/// The fixed keys that act globally whatever is configured: `>` and `<`
/// (shifted) change track, the arrows left and right seek (except on the
/// pages whose arrows pick a scope), and up and down change the volume on
/// the queue page.
pub open spec fn alias_command(key: KeyEvent, c: KeyContext) -> Option<GlobalCommand> {
    let t = typing(c);
    let tab = c.tab;
    let seek_allowed = !t && tab != NavTab::Search && tab != NavTab::Leaderboard && tab
        != NavTab::Playlists;
    if shifted(key, KeyCode::Char('>')) && !t {
        Some(GlobalCommand::NextTrack)
    } else if shifted(key, KeyCode::Char('<')) && !t {
        Some(GlobalCommand::PrevTrack)
    } else if plain(key, KeyCode::Right) && seek_allowed {
        Some(GlobalCommand::SeekForward)
    } else if plain(key, KeyCode::Left) && seek_allowed {
        Some(GlobalCommand::SeekBackward)
    } else if plain(key, KeyCode::Up) && tab == NavTab::Main {
        Some(GlobalCommand::VolumeUp)
    } else if plain(key, KeyCode::Down) && tab == NavTab::Main {
        Some(GlobalCommand::VolumeDown)
    } else {
        None
    }
}

/// The global shortcut of a key: its configured binding where that acts,
/// else one of the fixed keys.
pub open spec fn global_command(binding: Option<Action>, key: KeyEvent, c: KeyContext) -> Option<
    GlobalCommand,
> {
    match binding {
        Some(b) => match bound_command(b, c) {
            Some(g) => Some(g),
            None => alias_command(key, c),
        },
        None => alias_command(key, c),
    }
}

/// While the page shown takes typing, and nothing is open above it,
/// every key goes to the page: no tab digit and no global shortcut acts.
pub proof fn lemma_typing_keys_reach_the_page(key: KeyEvent, binding: Option<Action>, c: KeyContext)
    requires
        typing(c),
        !c.login_open,
        !c.confirm_open,
        !c.menu_open,
    ensures
        key_route(key, binding, c) == KeyRoute::Page,
{
}

/// With nothing open above the pages and no typing, a tab digit switches
/// to its tab, whatever binding the key has.
pub proof fn lemma_digits_switch_tabs(key: KeyEvent, binding: Option<Action>, c: KeyContext)
    requires
        !typing(c),
        !c.login_open,
        !c.confirm_open,
        !c.menu_open,
        shortcut_tab(key) is Some,
    ensures
        key_route(key, binding, c) == KeyRoute::Global(GlobalCommand::SwitchTab(shortcut_tab(key)->0)),
{
}

/// On the queue page, with nothing open and no binding acting, plain Up
/// raises the volume and plain Down lowers it.
pub proof fn lemma_queue_arrows_set_volume(c: KeyContext)
    requires
        c.tab == NavTab::Main,
        !c.login_open,
        !c.confirm_open,
        !c.menu_open,
    ensures
        key_route(KeyEvent { code: KeyCode::Up, modifiers: MOD_NONE }, None, c) == KeyRoute::Global(
            GlobalCommand::VolumeUp,
        ),
        key_route(KeyEvent { code: KeyCode::Down, modifiers: MOD_NONE }, None, c) == KeyRoute::Global(
            GlobalCommand::VolumeDown,
        ),
{
}

/// Where a key press goes.
#[derive(Debug, Clone, Copy, PartialEq, Eq, Structural)]
pub enum KeyRoute {
    /// To the login prompt.
    Login,
    /// To the delete prompt.
    Confirm,
    /// To the song menu.
    Menu,
    /// A global shortcut.
    Global(GlobalCommand),
    /// To the page shown.
    Page,
}

/// Where a key press goes: to what is open above the pages (the login
/// prompt first, then the delete prompt, then the song menu), else to a
/// tab digit unless the page takes typing, else to a global shortcut,
/// else to the page.
pub open spec fn key_route(key: KeyEvent, binding: Option<Action>, c: KeyContext) -> KeyRoute {
    if c.login_open {
        KeyRoute::Login
    } else if c.confirm_open {
        KeyRoute::Confirm
    } else if c.menu_open {
        KeyRoute::Menu
    } else if !typing(c) && shortcut_tab(key) is Some {
        KeyRoute::Global(GlobalCommand::SwitchTab(shortcut_tab(key)->0))
    } else {
        match global_command(binding, key, c) {
            Some(g) => KeyRoute::Global(g),
            None => KeyRoute::Page,
        }
    }
}

/// The shortcut a configured binding stands for in context `c`.
fn bound_global(binding: Action, c: &KeyContext) -> (r: Option<GlobalCommand>)
    ensures
        r == bound_command(binding, *c),
{
    let t = text_input_active(c);
    let tab = c.tab;
    match binding {
        Action::GlobalQuit => if !t {
            Some(GlobalCommand::Quit)
        } else {
            None
        },
        Action::GlobalPlayPause => if !t {
            Some(GlobalCommand::PlayPause)
        } else {
            None
        },
        Action::GlobalNextTrack => if !t {
            Some(GlobalCommand::NextTrack)
        } else {
            None
        },
        Action::GlobalPrevTrack => if !t && tab != NavTab::Settings {
            Some(GlobalCommand::PrevTrack)
        } else {
            None
        },
        Action::GlobalCycleMode => if !t {
            Some(GlobalCommand::CycleMode)
        } else {
            None
        },
        Action::GlobalSeekForward => if !t && tab != NavTab::Leaderboard && tab != NavTab::Playlists {
            Some(GlobalCommand::SeekForward)
        } else {
            None
        },
        Action::GlobalSeekBackward => if !t && tab != NavTab::Leaderboard && tab
            != NavTab::Playlists {
            Some(GlobalCommand::SeekBackward)
        } else {
            None
        },
        Action::GlobalVolumeUp => if !t {
            Some(GlobalCommand::VolumeUp)
        } else {
            None
        },
        Action::GlobalVolumeDown => if !t {
            Some(GlobalCommand::VolumeDown)
        } else {
            None
        },
        Action::GlobalNextTab => if !t {
            Some(GlobalCommand::SwitchTab(tab.next()))
        } else {
            None
        },
        Action::GlobalPrevTab => if !t {
            Some(GlobalCommand::SwitchTab(tab.previous()))
        } else {
            None
        },
        Action::GlobalGoToMain => if !(tab == NavTab::Settings && c.settings_input) && tab
            != NavTab::Main && tab != NavTab::Search && tab != NavTab::Favorites && !(tab
            == NavTab::Playlists && c.playlist_open) && !(tab == NavTab::Leaderboard
            && c.board_open) {
            Some(GlobalCommand::SwitchTab(NavTab::Main))
        } else {
            None
        },
        Action::GlobalToggleFavorite => if !t && tab != NavTab::Favorites && tab
            != NavTab::Playlists {
            Some(GlobalCommand::ToggleFavorite)
        } else {
            None
        },
        _ => None,
    }
}

/// The fixed global key of a key press in context `c`, if any.
fn alias_global(key: &KeyEvent, c: &KeyContext) -> (r: Option<GlobalCommand>)
    ensures
        r == alias_command(*key, *c),
{
    let t = text_input_active(c);
    let tab = c.tab;
    let seek_allowed = !t && tab != NavTab::Search && tab != NavTab::Leaderboard && tab
        != NavTab::Playlists;
    let m = key.modifiers;
    let code = key.code;
    if m == MOD_SHIFT && code == KeyCode::Char('>') && !t {
        Some(GlobalCommand::NextTrack)
    } else if m == MOD_SHIFT && code == KeyCode::Char('<') && !t {
        Some(GlobalCommand::PrevTrack)
    } else if m == MOD_NONE && code == KeyCode::Right && seek_allowed {
        Some(GlobalCommand::SeekForward)
    } else if m == MOD_NONE && code == KeyCode::Left && seek_allowed {
        Some(GlobalCommand::SeekBackward)
    } else if m == MOD_NONE && code == KeyCode::Up && tab == NavTab::Main {
        Some(GlobalCommand::VolumeUp)
    } else if m == MOD_NONE && code == KeyCode::Down && tab == NavTab::Main {
        Some(GlobalCommand::VolumeDown)
    } else {
        None
    }
}

/// Decides where a key press goes; `binding` is the global binding the
/// configuration gives the key, if any.
pub fn route_key(key: &KeyEvent, binding: Option<Action>, c: &KeyContext) -> (r: KeyRoute)
    ensures
        r == key_route(*key, binding, *c),
{
    if c.login_open {
        return KeyRoute::Login;
    }
    if c.confirm_open {
        return KeyRoute::Confirm;
    }
    if c.menu_open {
        return KeyRoute::Menu;
    }
    if !text_input_active(c) {
        match crate::nav::handle_input(key) {
            Some(tab) => {
                return KeyRoute::Global(GlobalCommand::SwitchTab(tab));
            },
            None => {},
        }
    }
    let bound = match binding {
        Some(b) => bound_global(b, c),
        None => None,
    };
    match bound {
        Some(g) => KeyRoute::Global(g),
        None => match alias_global(key, c) {
            Some(g) => KeyRoute::Global(g),
            None => KeyRoute::Page,
        },
    }
}

/// Whether a page's answer sends the user back to the queue: the search
/// and favorites pages go back with `GoBack`.
pub open spec fn goes_back(tab: NavTab, going_back: bool) -> bool {
    going_back && (tab == NavTab::Search || tab == NavTab::Favorites)
}

/// Whether the page `tab`, having answered `GoBack` (`going_back`),
/// returns to the queue page.
pub fn returns_to_queue(tab: NavTab, going_back: bool) -> (r: bool)
    ensures
        r == goes_back(tab, going_back),
{
    going_back && (tab == NavTab::Search || tab == NavTab::Favorites)
}

/// The areas of the screen the mouse is routed by.
#[derive(Debug, Clone, Copy, PartialEq, Eq, Structural)]
pub struct UiAreas {
    pub tabs: Rect,
    pub content: Rect,
    pub progress: Rect,
    pub notification: Rect,
}

/// The sizes asked for the rows of the screen: four rows of header,
/// three of tab bar, the page (at least three rows), one of progress bar
/// and one of status line.
pub open spec fn screen_row_constraints() -> Seq<Constraint> {
    seq![
        Constraint::Length(4),
        Constraint::Length(3),
        Constraint::Min(3),
        Constraint::Length(1),
        Constraint::Length(1),
    ]
}

/// The constraints of `screen_row_constraints`.
pub fn screen_rows() -> (r: Vec<Constraint>)
    ensures
        r@ == screen_row_constraints(),
{
    let r = vec![
        Constraint::Length(4),
        Constraint::Length(3),
        Constraint::Min(3),
        Constraint::Length(1),
        Constraint::Length(1),
    ];
    assert(r@ =~= screen_row_constraints());
    r
}

/// Splits the screen into its rows (`screen_rows`): header, tab bar,
/// page, progress bar and status line, each as wide as the screen.
pub fn screen_chunks(area: Rect) -> (r: Vec<Rect>)
    ensures
        r@.len() == 5,
        laid_out(Direction::Vertical, area, r@),
{
    let constraints = screen_rows();
    split(Direction::Vertical, &constraints, area)
}

/// The mouse areas of a screen `area` before the notification is placed:
/// the tab bar, the page and the progress bar are the second, third and
/// fourth of the screen's rows, and no notification is shown.
pub fn screen_areas(area: Rect) -> (r: UiAreas)
    ensures
        exists|rows: Seq<Rect>|
            rows.len() == 5 && laid_out(Direction::Vertical, area, rows) && r == #[trigger] areas_of(
                rows,
            ),
{
    let rows = screen_chunks(area);
    let r = UiAreas {
        tabs: rows[1],
        content: rows[2],
        progress: rows[3],
        notification: Rect { x: 0, y: 0, width: 0, height: 0 },
    };
    assert(r == areas_of(rows@));
    r
}

/// The mouse areas given the screen's five `rows`.
pub open spec fn areas_of(rows: Seq<Rect>) -> UiAreas {
    UiAreas {
        tabs: rows[1],
        content: rows[2],
        progress: rows[3],
        notification: Rect { x: 0, y: 0, width: 0, height: 0 },
    }
}

/// Where a mouse event goes.
#[derive(Debug, Clone, Copy, PartialEq, Eq, Structural)]
pub enum MouseRoute {
    /// Nothing: the delete prompt is shown.
    Ignore,
    /// To the song menu.
    Menu,
    /// A click on the notification.
    Notification,
    /// A click on the tab bar, on the given tab if any.
    Tabs(Option<NavTab>),
    /// A click on the progress bar.
    Progress,
    /// To the page shown.
    Page,
    /// Outside of everything.
    Outside,
}

/// Where a mouse event goes: nowhere while the delete prompt is shown,
/// to the song menu while it is open, else a left click on the
/// notification, the tab bar (to the tab whose column among `tab_parts`
/// holds it) or the progress bar goes there, and any event over the page
/// to the page.
pub open spec fn mouse_route(
    event: MouseEvent,
    areas: UiAreas,
    tab_parts: Seq<Rect>,
    confirm_open: bool,
    menu_open: bool,
) -> MouseRoute {
    let column = event.column as int;
    let row = event.row as int;
    let left = event.kind == MouseEventKind::Down(MouseButton::Left);
    if confirm_open {
        MouseRoute::Ignore
    } else if menu_open {
        MouseRoute::Menu
    } else if inside(areas.notification, column, row) && left {
        MouseRoute::Notification
    } else if inside(areas.tabs, column, row) && left {
        MouseRoute::Tabs(tab_at(tab_parts, column, row))
    } else if inside(areas.progress, column, row) && left {
        MouseRoute::Progress
    } else if inside(areas.content, column, row) {
        MouseRoute::Page
    } else {
        MouseRoute::Outside
    }
}

/// Decides where a mouse event goes, given the columns `tab_parts` of
/// the tab bar's inside, one per tab.
pub fn route_mouse_on(
    event: &MouseEvent,
    areas: &UiAreas,
    tab_parts: &Vec<Rect>,
    confirm_open: bool,
    menu_open: bool,
) -> (r: MouseRoute)
    ensures
        r == mouse_route(*event, *areas, tab_parts@, confirm_open, menu_open),
{
    let left = event.kind == MouseEventKind::Down(MouseButton::Left);
    if confirm_open {
        MouseRoute::Ignore
    } else if menu_open {
        MouseRoute::Menu
    } else if areas.notification.contains(event.column, event.row) && left {
        MouseRoute::Notification
    } else if areas.tabs.contains(event.column, event.row) && left {
        MouseRoute::Tabs(tab_hit(tab_parts, event.column, event.row))
    } else if areas.progress.contains(event.column, event.row) && left {
        MouseRoute::Progress
    } else if areas.content.contains(event.column, event.row) {
        MouseRoute::Page
    } else {
        MouseRoute::Outside
    }
}

/// Decides where a mouse event goes: the tab bar's inside is split into
/// its eight tabs by the layout solver, whose columns lie on the rows of
/// the bar's inside, and the event is routed among them.
pub fn route_mouse(event: &MouseEvent, areas: &UiAreas, confirm_open: bool, menu_open: bool) -> (r:
    MouseRoute)
    ensures
        exists|parts: Seq<Rect>|
            parts.len() == 8 && laid_out(Direction::Horizontal, inner_of(areas.tabs), parts) && r
                == #[trigger] mouse_route(*event, *areas, parts, confirm_open, menu_open),
{
    let parts = tab_chunks(bordered_inner(areas.tabs));
    route_mouse_on(event, areas, &parts, confirm_open, menu_open)
}

/// Tells a double click from a single one: the last left click, with
/// the cell it was made on.
pub struct ClickTracker {
    pub last_left_click: Option<(Instant, u16, u16)>,
}

impl ClickTracker {
    /// A tracker that has seen no click.
    pub fn new() -> (r: ClickTracker)
        ensures
            r.last_left_click is None,
    {
        ClickTracker { last_left_click: None }
    }

    /// Whether `event` is the second of two left clicks on the same cell
    /// within half a second.  A double click is forgotten, so that a third
    /// click starts anew; another left click is remembered.  The time since
    /// the last click is read from the clock and handed to `doubled_after`,
    /// which decides; whatever the clock reads, the answer is that
    /// decision for some time waited.
    pub fn is_double_click(&mut self, event: &MouseEvent) -> (r: bool)
        ensures
            exists|waited: int|
                0 <= waited && r == #[trigger] click_doubled(
                    last_cell_of(*old(self)),
                    *event,
                    waited,
                ),
            event.kind != MouseEventKind::Down(MouseButton::Left) ==> !r && *final(self) == *old(
                self,
            ),
            r ==> final(self).last_left_click is None,
            event.kind == MouseEventKind::Down(MouseButton::Left) && !r ==> last_cell_of(
                *final(self),
            ) == Some((event.column, event.row)),
    {
        if event.kind != MouseEventKind::Down(MouseButton::Left) {
            proof {
                assert(!click_doubled(last_cell_of(*old(self)), *event, 0));
            }
            return false;
        }
        let (last_cell, waited): (Option<(u16, u16)>, u128) = match &self.last_left_click {
            Some((time, x, y)) => {
                if *x == event.column && *y == event.row {
                    let elapsed = elapsed_since(time);
                    (Some((*x, *y)), nanos_of(&elapsed))
                } else {
                    (Some((*x, *y)), u128::MAX)
                }
            },
            None => (None, u128::MAX),
        };
        let doubled = doubled_after(last_cell, event, waited);
        if doubled {
            self.last_left_click = None;
        } else {
            self.last_left_click = Some((instant_now(), event.column, event.row));
        }
        doubled
    }
}

/// The cell of the last left click a tracker remembers, if any.
pub open spec fn last_cell_of(t: ClickTracker) -> Option<(u16, u16)> {
    match t.last_left_click {
        Some((_, x, y)) => Some((x, y)),
        None => None,
    }
}

/// A left click on the cell of the last left click (`last_cell`), less
/// than half a second (`waited_nanos` nanoseconds) after it, is a double
/// click.
pub open spec fn click_doubled(last_cell: Option<(u16, u16)>, event: MouseEvent, waited_nanos: int) -> bool {
    &&& event.kind == MouseEventKind::Down(MouseButton::Left)
    &&& last_cell == Some((event.column, event.row))
    &&& waited_nanos < 500_000_000
}

/// Whether `event` is a double click, the last left click having been on
/// `last_cell` `waited_nanos` nanoseconds ago.
pub fn doubled_after(last_cell: Option<(u16, u16)>, event: &MouseEvent, waited_nanos: u128) -> (r: bool)
    ensures
        r == click_doubled(last_cell, *event, waited_nanos as int),
{
    if event.kind != MouseEventKind::Down(MouseButton::Left) {
        return false;
    }
    match last_cell {
        Some((x, y)) => x == event.column && y == event.row && waited_nanos < 500_000_000,
        None => false,
    }
}

/// The box of the login prompt: at most 66 by 40 cells, four cells
/// smaller than the screen each way, centred.
pub open spec fn login_box(area: Rect) -> Rect {
    let w = min_int(66, sat_sub(area.width as int, 4));
    let h = min_int(40, sat_sub(area.height as int, 4));
    clamped_rect(
        (area.x + sat_sub(area.width as int, w) / 2) as u16,
        (area.y + sat_sub(area.height as int, h) / 2) as u16,
        w as u16,
        h as u16,
    )
}

/// The login prompt, centred on the screen, stays within the cell grid.
pub open spec fn login_box_fits(area: Rect) -> bool {
    &&& area.x + sat_sub(area.width as int, min_int(66, sat_sub(area.width as int, 4))) / 2
        <= u16::MAX
    &&& area.y + sat_sub(area.height as int, min_int(40, sat_sub(area.height as int, 4))) / 2
        <= u16::MAX
}

/// The box of the login prompt on the screen `area`.
pub fn login_area(area: Rect) -> (r: Rect)
    requires
        login_box_fits(area),
    ensures
        r == login_box(area),
{
    let narrowed = area.width.saturating_sub(4);
    let lowered = area.height.saturating_sub(4);
    let w: u16 = if narrowed < 66 {
        narrowed
    } else {
        66
    };
    let h: u16 = if lowered < 40 {
        lowered
    } else {
        40
    };
    Rect::new(
        area.x + area.width.saturating_sub(w) / 2,
        area.y + area.height.saturating_sub(h) / 2,
        w,
        h,
    )
}

} // verus!
