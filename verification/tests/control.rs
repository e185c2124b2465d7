use voicefox::control::{
    doubled_after, login_area, notification_kept, periodic_redraw, screen_rows, syncs_search_preferences, returns_to_queue, route_key, route_mouse, route_mouse_on, screen_areas,
    text_input_active,
    ClickTracker, GlobalCommand, KeyContext, KeyRoute, MouseRoute, UiAreas,
};
use voicefox::input::{KeyCode, KeyEvent, MouseButton, MouseEvent, MouseEventKind, MOD_NONE, MOD_SHIFT};
use voicefox::layout::{Constraint, Rect};
use voicefox::model::Action;
use voicefox::nav::NavTab;
use voicefox::sequence::{answers_latest, next_generation, request_current};

fn context(tab: NavTab) -> KeyContext {
    KeyContext {
        tab,
        settings_input: false,
        search_input: false,
        favorites_input: false,
        playlist_open: false,
        board_open: false,
        login_open: false,
        confirm_open: false,
        menu_open: false,
    }
}

fn key(code: KeyCode) -> KeyEvent {
    KeyEvent::new(code, MOD_NONE)
}

#[test]
fn overlays_take_keys_first() {
    let mut c = context(NavTab::Main);
    c.menu_open = true;
    c.confirm_open = true;
    assert_eq!(route_key(&key(KeyCode::Char('1')), None, &c), KeyRoute::Confirm);
    c.login_open = true;
    assert_eq!(route_key(&key(KeyCode::Char('1')), None, &c), KeyRoute::Login);
    c.login_open = false;
    c.confirm_open = false;
    assert_eq!(route_key(&key(KeyCode::Char('1')), None, &c), KeyRoute::Menu);
}

#[test]
fn digits_switch_tabs_unless_typing() {
    let c = context(NavTab::Main);
    assert_eq!(
        route_key(&key(KeyCode::Char('3')), Some(Action::GlobalQuit), &c),
        KeyRoute::Global(GlobalCommand::SwitchTab(NavTab::Leaderboard))
    );
    let mut typing = context(NavTab::Search);
    typing.search_input = true;
    assert!(text_input_active(&typing));
    assert_eq!(route_key(&key(KeyCode::Char('3')), None, &typing), KeyRoute::Page);
    assert_eq!(
        route_key(&key(KeyCode::Char('q')), Some(Action::GlobalQuit), &typing),
        KeyRoute::Page
    );
}

#[test]
fn global_bindings_respect_their_pages() {
    let c = context(NavTab::Leaderboard);
    assert_eq!(
        route_key(&key(KeyCode::Char('l')), Some(Action::GlobalSeekForward), &c),
        KeyRoute::Page
    );
    assert_eq!(
        route_key(&key(KeyCode::Tab), Some(Action::GlobalNextTab), &c),
        KeyRoute::Global(GlobalCommand::SwitchTab(NavTab::Playlists))
    );
    let mut open = context(NavTab::Leaderboard);
    open.board_open = true;
    assert_eq!(
        route_key(&key(KeyCode::Esc), Some(Action::GlobalGoToMain), &open),
        KeyRoute::Page
    );
    assert_eq!(
        route_key(&key(KeyCode::Esc), Some(Action::GlobalGoToMain), &c),
        KeyRoute::Global(GlobalCommand::SwitchTab(NavTab::Main))
    );
    let settings = context(NavTab::Settings);
    assert_eq!(
        route_key(&key(KeyCode::Char('p')), Some(Action::GlobalPrevTrack), &settings),
        KeyRoute::Page
    );
    assert_eq!(
        route_key(&key(KeyCode::Char('f')), Some(Action::GlobalToggleFavorite), &context(NavTab::Favorites)),
        KeyRoute::Page
    );
}

#[test]
fn fixed_keys_seek_change_track_and_volume() {
    let main = context(NavTab::Main);
    assert_eq!(
        route_key(&KeyEvent::new(KeyCode::Char('>'), MOD_SHIFT), None, &main),
        KeyRoute::Global(GlobalCommand::NextTrack)
    );
    assert_eq!(
        route_key(&key(KeyCode::Right), None, &main),
        KeyRoute::Global(GlobalCommand::SeekForward)
    );
    assert_eq!(route_key(&key(KeyCode::Up), None, &main), KeyRoute::Global(GlobalCommand::VolumeUp));
    let search = context(NavTab::Search);
    assert_eq!(route_key(&key(KeyCode::Right), None, &search), KeyRoute::Page);
    assert_eq!(route_key(&key(KeyCode::Up), None, &search), KeyRoute::Page);
    // A binding that does not act here falls back to the fixed keys.
    assert_eq!(
        route_key(&key(KeyCode::Left), Some(Action::ListSelectUp), &main),
        KeyRoute::Global(GlobalCommand::SeekBackward)
    );
}

#[test]
fn back_from_search_and_favorites_returns_to_the_queue() {
    assert!(returns_to_queue(NavTab::Search, true));
    assert!(returns_to_queue(NavTab::Favorites, true));
    assert!(!returns_to_queue(NavTab::History, true));
    assert!(!returns_to_queue(NavTab::Search, false));
}

#[test]
fn mouse_goes_to_the_area_under_it() {
    let areas = screen_areas(Rect::new(0, 0, 80, 24));
    assert_eq!(areas.tabs, Rect::new(0, 4, 80, 3));
    assert_eq!(areas.content, Rect::new(0, 7, 80, 15));
    assert_eq!(areas.progress, Rect::new(0, 22, 80, 1));
    let click = |column, row| MouseEvent { kind: MouseEventKind::Down(MouseButton::Left), column, row };
    assert_eq!(route_mouse(&click(2, 5), &areas, false, false), MouseRoute::Tabs(Some(NavTab::Main)));
    assert_eq!(route_mouse(&click(2, 22), &areas, false, false), MouseRoute::Progress);
    assert_eq!(route_mouse(&click(2, 10), &areas, false, false), MouseRoute::Page);
    assert_eq!(route_mouse(&click(2, 1), &areas, false, false), MouseRoute::Outside);
    assert_eq!(route_mouse(&click(2, 10), &areas, true, true), MouseRoute::Ignore);
    assert_eq!(route_mouse(&click(2, 10), &areas, false, true), MouseRoute::Menu);
    let with_note = UiAreas { notification: Rect::new(60, 8, 20, 3), ..areas };
    assert_eq!(route_mouse(&click(65, 9), &with_note, false, false), MouseRoute::Notification);
    let wheel = MouseEvent { kind: MouseEventKind::ScrollUp, column: 2, row: 5 };
    assert_eq!(route_mouse(&wheel, &areas, false, false), MouseRoute::Outside);
}

#[test]
fn double_clicks_need_the_same_cell() {
    let mut tracker = ClickTracker::new();
    let click = |column, row| MouseEvent { kind: MouseEventKind::Down(MouseButton::Left), column, row };
    assert!(!tracker.is_double_click(&click(3, 4)));
    assert!(tracker.is_double_click(&click(3, 4)));
    // A double click is forgotten; the next one starts anew.
    assert!(!tracker.is_double_click(&click(3, 4)));
    assert!(!tracker.is_double_click(&click(5, 4)));
    let moved = MouseEvent { kind: MouseEventKind::Moved, column: 5, row: 4 };
    assert!(!tracker.is_double_click(&moved));
    assert!(tracker.is_double_click(&click(5, 4)));
}

#[test]
fn login_prompt_is_centred_and_capped() {
    assert_eq!(login_area(Rect::new(0, 0, 100, 50)), Rect::new(17, 5, 66, 40));
    assert_eq!(login_area(Rect::new(0, 0, 40, 20)), Rect::new(2, 2, 36, 16));
}

#[test]
fn a_double_click_needs_the_same_cell_within_half_a_second() {
    let click = |column, row| MouseEvent { kind: MouseEventKind::Down(MouseButton::Left), column, row };
    assert!(doubled_after(Some((3, 4)), &click(3, 4), 0));
    assert!(doubled_after(Some((3, 4)), &click(3, 4), 499_999_999));
    assert!(!doubled_after(Some((3, 4)), &click(3, 4), 500_000_000));
    assert!(!doubled_after(Some((3, 4)), &click(3, 4), 5_000_000_000));
    assert!(!doubled_after(Some((3, 4)), &click(4, 4), 0));
    assert!(!doubled_after(None, &click(3, 4), 0));
    let right = MouseEvent { kind: MouseEventKind::Down(MouseButton::Right), column: 3, row: 4 };
    assert!(!doubled_after(Some((3, 4)), &right, 0));
}

#[test]
fn tab_clicks_are_routed_by_the_given_tab_columns() {
    let areas = UiAreas {
        tabs: Rect::new(0, 4, 80, 3),
        content: Rect::new(0, 7, 80, 15),
        progress: Rect::new(0, 22, 80, 1),
        notification: Rect::new(0, 0, 0, 0),
    };
    let parts: Vec<Rect> = (0..8).map(|i| Rect::new(1 + 10 * i, 5, 10, 1)).collect();
    let click = |column, row| MouseEvent { kind: MouseEventKind::Down(MouseButton::Left), column, row };
    assert_eq!(route_mouse_on(&click(2, 5), &areas, &parts, false, false), MouseRoute::Tabs(Some(NavTab::Main)));
    assert_eq!(
        route_mouse_on(&click(75, 5), &areas, &parts, false, false),
        MouseRoute::Tabs(Some(NavTab::Settings))
    );
    assert_eq!(route_mouse_on(&click(2, 4), &areas, &parts, false, false), MouseRoute::Tabs(None));
    assert_eq!(route_mouse_on(&click(2, 10), &areas, &parts, false, false), MouseRoute::Page);
}

#[test]
fn the_tick_redraws_while_something_moves() {
    assert!(!periodic_redraw(NavTab::Main, true, true, true, false, false));
    assert!(periodic_redraw(NavTab::Main, false, false, false, true, false));
    assert!(periodic_redraw(NavTab::Search, true, false, false, false, false));
    assert!(!periodic_redraw(NavTab::Search, false, true, true, false, false));
    assert!(periodic_redraw(NavTab::Settings, false, true, false, false, false));
    assert!(periodic_redraw(NavTab::Favorites, false, false, true, false, false));
    assert!(periodic_redraw(NavTab::History, false, false, false, false, true));
}

#[test]
fn the_screen_asks_for_its_five_rows() {
    assert_eq!(
        screen_rows(),
        vec![
            Constraint::Length(4),
            Constraint::Length(3),
            Constraint::Min(3),
            Constraint::Length(1),
            Constraint::Length(1),
        ]
    );
}

#[test]
fn settings_keys_g_and_w_refresh_the_search_preferences() {
    assert!(syncs_search_preferences(&KeyEvent::new(KeyCode::Char('g'), MOD_NONE)));
    assert!(syncs_search_preferences(&KeyEvent::new(KeyCode::Char('w'), MOD_NONE)));
    assert!(!syncs_search_preferences(&KeyEvent::new(KeyCode::Char('m'), MOD_NONE)));
    assert!(!syncs_search_preferences(&KeyEvent::new(KeyCode::Enter, MOD_NONE)));
}

#[test]
fn notifications_stay_until_they_expire_or_are_turned_off() {
    assert!(notification_kept(true, false));
    assert!(!notification_kept(true, true));
    assert!(!notification_kept(false, false));
}

#[test]
fn only_the_latest_request_is_answered() {
    let sequence = std::sync::atomic::AtomicU64::new(0);
    let first = next_generation(&sequence);
    assert!(answers_latest(first, first));
    assert!(request_current(&sequence, first));
    let second = next_generation(&sequence);
    assert_eq!(second, first + 1);
    assert!(!request_current(&sequence, first));
    assert!(request_current(&sequence, second));
    assert!(!answers_latest(second, first));
}
