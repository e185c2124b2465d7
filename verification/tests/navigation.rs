use voicefox::input::{KeyCode, KeyEvent, MOD_CONTROL, MOD_NONE, MOD_SHIFT};
use voicefox::listnav::{ensure_visible, next_list_index, page_down, previous_list_index, select_down, select_up};
use voicefox::layout::Rect;
use voicefox::nav::{
    delete_confirmation_action, handle_input, hit_test, nav_page_scope,
    should_scan_local_music_on_entry, tab_chunks, tab_hit, DeleteConfirmationAction, NavTab,
};

#[test]
fn local_list_navigation_wraps_at_both_ends() {
    assert_eq!(previous_list_index(0, 4, true), 3);
    assert_eq!(next_list_index(3, 4, true), 0);
    assert_eq!(previous_list_index(0, 4, false), 0);
    assert_eq!(next_list_index(3, 4, false), 3);
}

#[test]
fn local_delete_confirmation_accepts_terminal_shift_variants() {
    for key in [
        KeyEvent::new(KeyCode::Char('y'), MOD_NONE),
        KeyEvent::new(KeyCode::Char('Y'), MOD_SHIFT),
        KeyEvent::new(KeyCode::Char('Y'), MOD_NONE),
    ] {
        assert_eq!(
            delete_confirmation_action(&key),
            DeleteConfirmationAction::Confirm
        );
    }

    for key in [
        KeyEvent::new(KeyCode::Char('n'), MOD_NONE),
        KeyEvent::new(KeyCode::Char('N'), MOD_SHIFT),
        KeyEvent::new(KeyCode::Esc, MOD_NONE),
    ] {
        assert_eq!(
            delete_confirmation_action(&key),
            DeleteConfirmationAction::Cancel
        );
    }
}

#[test]
fn entering_empty_local_music_page_starts_scan() {
    assert!(should_scan_local_music_on_entry(
        NavTab::History,
        NavTab::LocalMusic,
        true,
        true,
        true,
        false,
    ));
}

#[test]
fn local_music_entry_does_not_start_invalid_or_duplicate_scan() {
    for (enabled, has_paths, songs_empty, is_scanning) in [
        (false, true, true, false),
        (true, false, true, false),
        (true, true, false, false),
        (true, true, true, true),
    ] {
        assert!(!should_scan_local_music_on_entry(
            NavTab::History,
            NavTab::LocalMusic,
            enabled,
            has_paths,
            songs_empty,
            is_scanning,
        ));
    }

    assert!(!should_scan_local_music_on_entry(
        NavTab::LocalMusic,
        NavTab::LocalMusic,
        true,
        true,
        true,
        false,
    ));
}

#[test]
fn delete_prompt_ignores_control_and_other_keys() {
    assert_eq!(
        delete_confirmation_action(&KeyEvent::new(KeyCode::Char('y'), MOD_CONTROL)),
        DeleteConfirmationAction::Ignore
    );
    assert_eq!(
        delete_confirmation_action(&KeyEvent::new(KeyCode::Esc, MOD_SHIFT)),
        DeleteConfirmationAction::Ignore
    );
    assert_eq!(
        delete_confirmation_action(&KeyEvent::new(KeyCode::Char('x'), MOD_NONE)),
        DeleteConfirmationAction::Ignore
    );
}

#[test]
fn digit_shortcuts_select_tabs() {
    assert_eq!(handle_input(&KeyEvent::new(KeyCode::Char('1'), MOD_NONE)), Some(NavTab::Main));
    assert_eq!(handle_input(&KeyEvent::new(KeyCode::Char('7'), MOD_NONE)), Some(NavTab::LocalMusic));
    assert_eq!(handle_input(&KeyEvent::new(KeyCode::Char('8'), MOD_NONE)), Some(NavTab::Settings));
    assert_eq!(handle_input(&KeyEvent::new(KeyCode::Char('9'), MOD_NONE)), None);
    assert_eq!(handle_input(&KeyEvent::new(KeyCode::Char('1'), MOD_SHIFT)), None);
}

#[test]
fn tab_cycle_returns_after_eight_steps() {
    let mut tab = NavTab::Favorites;
    for _ in 0..8 {
        tab = tab.next();
    }
    assert_eq!(tab, NavTab::Favorites);
    assert_eq!(NavTab::Main.previous(), NavTab::Settings);
    assert_eq!(NavTab::History.next(), NavTab::LocalMusic);
    assert_eq!(NavTab::LocalMusic.next().previous(), NavTab::LocalMusic);
}

#[test]
fn labels_and_scopes() {
    assert_eq!(NavTab::Leaderboard.label(), "3 排行榜");
    assert_eq!(NavTab::all().len(), 8);
    assert_eq!(NavTab::all()[6], NavTab::LocalMusic);
    assert_eq!(nav_page_scope(NavTab::LocalMusic), "local");
    assert_eq!(nav_page_scope(NavTab::Favorites), "favorites");
}

#[test]
fn list_steps_and_scrolling() {
    assert_eq!(previous_list_index(7, 4, false), 3);
    assert_eq!(next_list_index(0, 0, true), 0);
    assert_eq!(select_up(0, 5, true), 4);
    assert_eq!(select_up(0, 5, false), 0);
    assert_eq!(select_down(4, 5, true), 0);
    assert_eq!(select_down(2, 0, true), 2);
    assert_eq!(page_down(3, 10, 8), 7);
    assert_eq!(page_down(usize::MAX, 10, 0), 0);
    let mut offset = 0;
    ensure_visible(12, 5, 20, &mut offset);
    assert_eq!(offset, 8);
    ensure_visible(2, 5, 20, &mut offset);
    assert_eq!(offset, 2);
    ensure_visible(19, 5, 20, &mut offset);
    assert_eq!(offset, 15);
    ensure_visible(3, 0, 20, &mut offset);
    assert_eq!(offset, 0);
}

#[test]
fn tabs_remain_clickable_at_eighty_columns() {
    let chunks = tab_chunks(Rect::new(1, 1, 78, 1));

    assert_eq!(chunks.len(), 8);
    assert!(chunks.iter().all(|chunk| chunk.width >= 9));
    assert_eq!(chunks.iter().map(|chunk| chunk.width).sum::<u16>(), 78);
}

#[test]
fn clicks_on_the_tab_bar_pick_the_tab_under_them() {
    let bar = Rect::new(0, 4, 80, 3);
    assert_eq!(hit_test(bar, 2, 5), Some(NavTab::Main));
    assert_eq!(hit_test(bar, 77, 5), Some(NavTab::Settings));
    // The border row and the border column are not tabs.
    assert_eq!(hit_test(bar, 2, 4), None);
    assert_eq!(hit_test(bar, 0, 5), None);
}

#[test]
fn a_click_picks_the_tab_of_the_column_under_it() {
    let parts: Vec<Rect> = (0..9).map(|i| Rect::new(5 * i, 2, 5, 1)).collect();
    assert_eq!(tab_hit(&parts, 0, 2), Some(NavTab::Main));
    assert_eq!(tab_hit(&parts, 12, 2), Some(NavTab::Leaderboard));
    assert_eq!(tab_hit(&parts, 39, 2), Some(NavTab::Settings));
    // A ninth column names no tab; nor does a cell off the columns.
    assert_eq!(tab_hit(&parts, 41, 2), None);
    assert_eq!(tab_hit(&parts, 12, 3), None);
}
