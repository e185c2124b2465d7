use voicefox::input::{KeyCode, KeyEvent, MouseButton, MouseEvent, MouseEventKind, MOD_NONE};
use voicefox::layout::{Constraint, Rect};
use voicefox::model::{AppAction, SearchResult, SongInfo, SourceId};
use voicefox::search::{
    matching_variant_indices, same_track, scope_tab_label, search_scope, search_scope_index,
    search_rows, variant_popup, SearchPage,
};

fn song(id: &str, source: SourceId, name: &str, singer: &str) -> SongInfo {
    SongInfo::new(id.to_string(), source, name.to_string(), singer.to_string())
}

fn key(code: KeyCode) -> KeyEvent {
    KeyEvent::new(code, MOD_NONE)
}

#[test]
fn right_arrow_cycles_search_scope() {
    let mut page = SearchPage::new(None, true, 3);
    page.input_mode = false;

    let action = page.handle_input(&KeyEvent::new(KeyCode::Right, MOD_NONE));

    assert_eq!(page.source_filter, Some(SourceId::Kw));
    assert!(matches!(action, AppAction::NoOp));
}

#[test]
fn source_tab_selects_single_source_and_starts_search() {
    let mut page = SearchPage::new(None, true, 3);
    page.input = "晴天".to_string();

    let action = page.select_source(2);

    assert_eq!(page.source_filter, Some(SourceId::Kg));
    assert!(matches!(
        action,
        AppAction::Search {
            source: Some(SourceId::Kg),
            ..
        }
    ));
}

#[test]
fn groups_equivalent_tracks_by_source() {
    let results = vec![
        song("kw-1", SourceId::Kw, "晴天", "周杰伦"),
        song("kg-1", SourceId::Kg, "晴天", "周杰伦"),
        song("tx-1", SourceId::Tx, "晴天 (Live)", "周杰伦"),
        song("kw-2", SourceId::Kw, "晴天", "周杰伦"),
    ];

    assert_eq!(matching_variant_indices(&results, 0), vec![0, 1]);
}

#[test]
fn left_arrow_wraps_to_the_last_scope_and_back() {
    let mut page = SearchPage::new(None, true, 3);
    page.cycle_source(false);
    assert_eq!(page.source_filter, Some(SourceId::Local));
    page.cycle_source(true);
    assert_eq!(page.source_filter, None);
    for _ in 0..7 {
        page.cycle_source(true);
    }
    assert_eq!(page.source_filter, None);
}

#[test]
fn scopes_and_their_positions_agree() {
    for index in 0..7usize {
        let scope = search_scope(index).unwrap();
        assert_eq!(search_scope_index(scope), index);
    }
    assert_eq!(search_scope(7), None);
    assert_eq!(scope_tab_label(0, true), "全部");
    assert_eq!(scope_tab_label(0, false), "all");
    assert_eq!(scope_tab_label(5, false), "wy");
    assert_eq!(scope_tab_label(6, true), "本地 local");
}

#[test]
fn same_track_allows_singer_containment_and_close_durations() {
    let mut a = song("1", SourceId::Kw, "Hello World", "Adele");
    let mut b = song("2", SourceId::Kg, "hello-world", "Adele & Friends");
    assert!(same_track(&a, &b));
    a.duration_secs = 200;
    b.duration_secs = 209;
    assert!(!same_track(&a, &b));
    b.duration_secs = 208;
    assert!(same_track(&a, &b));
    let c = song("3", SourceId::Tx, "Hello World", "Someone Else");
    assert!(!same_track(&a, &c));
    let empty = song("4", SourceId::Tx, "", "Adele");
    assert!(!same_track(&empty, &empty));
}

#[test]
fn typing_then_enter_searches_the_trimmed_keyword() {
    let mut page = SearchPage::new(Some(SourceId::Tx), true, 3);
    page.handle_input(&key(KeyCode::Char('i')));
    assert!(page.input_mode);
    for c in " 晴天 ".chars() {
        page.handle_input(&key(KeyCode::Char(c)));
    }
    let action = page.handle_input(&key(KeyCode::Enter));
    match action {
        AppAction::Search { keyword, source } => {
            assert_eq!(keyword, "晴天");
            assert_eq!(source, Some(SourceId::Tx));
        }
        other => panic!("unexpected {:?}", other),
    }
    assert_eq!(page.last_searched_input, "晴天");
    // Submitting the same keyword while it is searched does nothing.
    page.begin_search("晴天", false);
    assert!(matches!(page.handle_input(&key(KeyCode::Enter)), AppAction::NoOp));
}

#[test]
fn erasing_the_keyword_clears_the_results() {
    let mut page = SearchPage::new(None, true, 3);
    page.input_mode = true;
    page.input = "a".to_string();
    page.results = vec![song("1", SourceId::Kw, "a", "b")];
    page.result_keyword = "a".to_string();
    page.total = 1;
    page.handle_input(&KeyEvent::new(KeyCode::Backspace, MOD_NONE));
    assert_eq!(page.input, "");
    assert!(page.results.is_empty());
    assert_eq!(page.result_keyword, "");
    assert_eq!(page.total, 0);
}

#[test]
fn appending_a_page_skips_songs_already_shown() {
    let mut page = SearchPage::new(None, true, 3);
    page.begin_search("k", false);
    assert!(page.is_searching);
    page.update_results(
        "k".to_string(),
        1,
        false,
        SearchResult {
            items: vec![song("1", SourceId::Kw, "a", "x"), song("2", SourceId::Kw, "b", "x")],
            total: 4,
            has_more: true,
        },
        None,
    );
    assert!(!page.is_searching);
    page.input = "k".to_string();
    page.selected = 1;
    let more = page.handle_input(&key(KeyCode::Down));
    match &more {
        AppAction::SearchMore { keyword, page: number, source } => {
            assert_eq!(keyword, "k");
            assert_eq!(*number, 2);
            assert_eq!(*source, None);
            assert!(page.accepts_more(keyword, *number, *source));
        }
        other => panic!("unexpected {:?}", other),
    }
    assert!(!page.accepts_more(&"k".to_string(), 3, None));
    page.begin_search("k", true);
    page.update_results(
        "k".to_string(),
        2,
        true,
        SearchResult {
            items: vec![song("2", SourceId::Kw, "b", "x"), song("3", SourceId::Kg, "c", "x")],
            total: 4,
            has_more: false,
        },
        None,
    );
    let ids: Vec<&str> = page.results.iter().map(|s| s.id.as_str()).collect();
    assert_eq!(ids, vec!["1", "2", "3"]);
    assert_eq!(page.selected, 1);
    assert_eq!(page.current_page, 2);
}

#[test]
fn variant_picker_plays_the_chosen_source() {
    let mut page = SearchPage::new(None, true, 3);
    page.results = vec![
        song("kw-1", SourceId::Kw, "晴天", "周杰伦"),
        song("kg-1", SourceId::Kg, "晴天", "周杰伦"),
    ];
    page.selected = 1;
    page.handle_input(&key(KeyCode::Char('v')));
    assert_eq!(page.variant_indices, vec![0, 1]);
    assert_eq!(page.variant_selected, 1);
    page.handle_input(&key(KeyCode::Up));
    assert_eq!(page.variant_selected, 0);
    let action = page.handle_input(&key(KeyCode::Enter));
    match action {
        AppAction::PlaySong { songs, index } => {
            assert_eq!(songs.len(), 2);
            assert_eq!(index, 0);
        }
        other => panic!("unexpected {:?}", other),
    }
    assert!(page.variant_indices.is_empty());
    assert_eq!(page.selected, 0);
}

#[test]
fn failed_search_shows_the_error_in_the_title() {
    let mut page = SearchPage::new(None, true, 3);
    page.begin_search("x", false);
    assert_eq!(page.results_title(), "搜索中");
    page.update_error("boom".to_string());
    assert_eq!(page.results_title(), "搜索失败 - boom");
    page.error_message = None;
    page.results = vec![song("1", SourceId::Kw, "a", "b")];
    page.total = 12;
    page.has_more = true;
    assert_eq!(page.results_title(), "搜索结果 1/12 · 还有更多 · v 选择音源");
    assert_eq!(page.input_title(), "搜索 · 全部音源 · NORMAL");
    page.source_filter = Some(SourceId::Mg);
    page.input_mode = true;
    assert_eq!(page.input_title(), "搜索 · mg · INSERT");
}

#[test]
fn variant_popup_is_centred() {
    let popup = variant_popup(Rect::new(0, 0, 100, 30), 2);
    assert_eq!(popup, Rect::new(4, 12, 92, 5));
    let small = variant_popup(Rect::new(0, 0, 10, 2), 5);
    assert_eq!(small, Rect::new(2, 0, 6, 2));
}

#[test]
fn wheel_moves_the_selection_by_the_scroll_amount() {
    let mut page = SearchPage::new(None, true, 3);
    page.results = (0..10)
        .map(|i| song(&i.to_string(), SourceId::Kw, "n", "s"))
        .collect();
    let area = Rect::new(0, 0, 80, 30);
    let down = MouseEvent { kind: MouseEventKind::ScrollDown, column: 10, row: 20 };
    page.handle_mouse(&down, area, false);
    assert_eq!(page.selected, 3);
    let up = MouseEvent { kind: MouseEventKind::ScrollUp, column: 10, row: 20 };
    page.handle_mouse(&up, area, false);
    page.handle_mouse(&up, area, false);
    assert_eq!(page.selected, 0);
    let click = MouseEvent { kind: MouseEventKind::Down(MouseButton::Left), column: 5, row: 1 };
    page.handle_mouse(&click, area, false);
    assert!(page.input_mode);
}

#[test]
fn mouse_acts_on_the_given_rows_and_tabs() {
    let mut page = SearchPage::new(None, true, 3);
    page.input_mode = false;
    page.results = (0..10)
        .map(|i| song(&i.to_string(), SourceId::Kw, "n", "s"))
        .collect();
    let chunks = vec![Rect::new(0, 0, 80, 3), Rect::new(0, 3, 80, 1), Rect::new(0, 4, 80, 26)];
    let tabs: Vec<Rect> = (0..7).map(|i| Rect::new(10 * i, 3, 10, 1)).collect();
    let at = |column, row| MouseEvent { kind: MouseEventKind::Down(MouseButton::Left), column, row };
    // The result list starts on the row below its header, inside the border.
    match page.handle_mouse_on(&at(20, 8), &chunks, &tabs, true) {
        AppAction::PlaySong { index, .. } => assert_eq!(index, 2),
        other => panic!("unexpected {:?}", other),
    }
    assert_eq!(page.selected, 2);
    assert!(!page.input_mode);
    page.handle_mouse_on(&at(25, 3), &chunks, &tabs, false);
    assert_eq!(Some(page.source_filter), search_scope(2));
    page.handle_mouse_on(&at(5, 1), &chunks, &tabs, false);
    assert!(page.input_mode);
}

#[test]
fn the_last_page_number_asks_for_no_more_but_keys_still_work() {
    let mut page = SearchPage::new(None, true, 3);
    page.input_mode = false;
    page.input = "k".to_string();
    page.result_keyword = "k".to_string();
    page.results = vec![song("1", SourceId::Kw, "a", "x"), song("2", SourceId::Kw, "b", "x")];
    page.has_more = true;
    page.current_page = u32::MAX;
    page.selected = 1;
    // No page follows the last page number: Down at the end asks for nothing.
    assert_eq!(page.handle_input(&key(KeyCode::Down)), AppAction::NoOp);
    let wheel = MouseEvent { kind: MouseEventKind::ScrollDown, column: 10, row: 20 };
    assert_eq!(page.handle_mouse(&wheel, Rect::new(0, 0, 80, 30), false), AppAction::NoOp);
    // Enter on a new keyword still searches.
    page.input = "new".to_string();
    match page.handle_input(&key(KeyCode::Enter)) {
        AppAction::Search { keyword, .. } => assert_eq!(keyword, "new"),
        other => panic!("unexpected {:?}", other),
    }
}

#[test]
fn the_search_page_asks_for_its_three_rows() {
    assert_eq!(search_rows(), vec![Constraint::Length(3), Constraint::Length(1), Constraint::Min(0)]);
}
