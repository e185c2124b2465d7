use voicefox::history;
use voicefox::input::{KeyCode, KeyEvent, MouseButton, MouseEvent, MouseEventKind, MOD_NONE, MOD_SHIFT};
use voicefox::layout::{
    content_layout, equal_ratios, page_rows, split_page, tab_rects, Constraint, Direction, PageChunks, Rect,
};
use voicefox::leaderboard::{board_row_text, source_tab_label, LeaderboardLoadRequest, LeaderboardPage};
use voicefox::main_page::{queue_area, queue_index_at, queue_split, MainPage, QueueOutcome};
use voicefox::model::{AppAction, InsertPosition, LeaderboardInfo, NotificationLevel, Playlist, SongInfo, SourceId};
use voicefox::playlists::{playlist_row_text, scope_label, PlaylistLoadRequest, PlaylistsInput, PlaylistsPage};
use voicefox::settings::{
    input_box, local_count_line, option_key_at, settings_chunks, settings_split, source_row_text,
    source_state, SettingsOutcome, SettingsPage,
};

fn song(id: &str) -> SongInfo {
    SongInfo::new(id.to_string(), SourceId::Kw, format!("歌 {id}"), "手".to_string())
}

fn left(column: u16, row: u16) -> MouseEvent {
    MouseEvent { kind: MouseEventKind::Down(MouseButton::Left), column, row }
}

#[test]
fn history_keys_play_and_queue() {
    let list = vec![song("1"), song("2"), song("3")];
    let mut selected = 0usize;
    history::handle_input(&KeyEvent::new(KeyCode::Up, MOD_NONE), &list, true, &mut selected);
    assert_eq!(selected, 2);
    history::handle_input(&KeyEvent::new(KeyCode::Down, MOD_NONE), &list, false, &mut selected);
    assert_eq!(selected, 2);
    match history::handle_input(&KeyEvent::new(KeyCode::Enter, MOD_NONE), &list, false, &mut selected) {
        AppAction::PlaySong { songs, index } => {
            assert_eq!(songs, list);
            assert_eq!(index, 2);
        }
        other => panic!("unexpected {:?}", other),
    }
    assert_eq!(
        history::handle_input(&KeyEvent::new(KeyCode::Char('A'), MOD_SHIFT), &list, false, &mut selected),
        AppAction::AddToQueue { song: list[2].clone(), position: InsertPosition::Next }
    );
    selected = 9;
    assert_eq!(
        history::handle_input(&KeyEvent::new(KeyCode::Enter, MOD_NONE), &list, false, &mut selected),
        AppAction::NoOp
    );
}

#[test]
fn history_clicks_and_view() {
    let list: Vec<SongInfo> = (0..20).map(|i| song(&i.to_string())).collect();
    let area = Rect::new(0, 0, 60, 12);
    let mut selected = 0usize;
    // Inner box starts at row 1; the header takes row 1, songs from row 2.
    let r = history::handle_mouse(&left(5, 4), area, &list, 3, &mut selected, 5, true);
    assert_eq!(selected, 7);
    assert!(matches!(r, AppAction::PlaySong { index: 7, .. }));
    history::handle_mouse(&MouseEvent { kind: MouseEventKind::ScrollDown, column: 0, row: 0 }, area, &list, 0, &mut selected, 5, false);
    assert_eq!(selected, 8);
    let (mut sel, mut scroll) = (30usize, 4usize);
    history::fit_view(20, 5, &mut sel, &mut scroll);
    assert_eq!((sel, scroll), (0, 0));
    let (mut sel, mut scroll) = (12usize, 0usize);
    history::fit_view(20, 5, &mut sel, &mut scroll);
    assert_eq!((sel, scroll), (12, 8));
}

#[test]
fn queue_clicks_select_drag_and_play() {
    let list: Vec<SongInfo> = (0..10).map(|i| song(&i.to_string())).collect();
    let area = Rect::new(0, 0, 100, 30);
    let queue = queue_area(area);
    assert_eq!(queue, Rect::new(36, 0, 64, 30));
    assert_eq!(queue_index_at(2, queue, 0, 10), Some(0));
    assert_eq!(queue_index_at(1, queue, 0, 10), None);
    let mut page = MainPage::new();
    page.handle_mouse(&left(50, 4), area, &list, 0, 3, false);
    assert_eq!(page.selected, 2);
    assert_eq!(page.dragging, Some(2));
    let drag = MouseEvent { kind: MouseEventKind::Drag(MouseButton::Left), column: 50, row: 6 };
    assert_eq!(page.handle_mouse(&drag, area, &list, 0, 3, false), QueueOutcome::MoveItem { from: 2, to: 4 });
    assert_eq!(page.selected, 4);
    let up = MouseEvent { kind: MouseEventKind::Up(MouseButton::Left), column: 50, row: 6 };
    page.handle_mouse(&up, area, &list, 0, 3, false);
    assert_eq!(page.dragging, None);
    // A click off the song rows selects the playing one.
    page.handle_mouse(&left(50, 0), area, &list, 6, 3, false);
    assert_eq!(page.selected, 6);
    match page.handle_mouse(&left(50, 3), area, &list, 6, 3, true) {
        QueueOutcome::Action(AppAction::PlaySong { index, .. }) => assert_eq!(index, 1),
        other => panic!("unexpected {:?}", other),
    }
    assert_eq!(page.dragging, None);
    // On a queue box given by hand, row 5 is the fourth song row.
    let mut page = MainPage::new();
    let outcome = page.handle_mouse_on(&left(10, 5), Rect::new(0, 0, 40, 12), &list, 0, 3, false);
    assert_eq!(outcome, QueueOutcome::Action(AppAction::NoOp));
    assert_eq!(page.selected, 3);
}

#[test]
fn settings_clicks_act_on_options_and_lists() {
    let sources = vec!["a.js".to_string(), "b.js".to_string()];
    let paths = vec!["/music".to_string()];
    let area = Rect::new(0, 0, 100, 30);
    let chunks = settings_chunks(area);
    assert_eq!(chunks.len(), 3);
    assert_eq!(chunks[2].y, 12);
    let mut page = SettingsPage::new();
    // Row 1 is the first option (mouse).
    assert_eq!(page.handle_mouse(&left(3, 1), area, &sources, &paths, 4), SettingsOutcome::ToggleMouse);
    assert_eq!(page.handle_mouse(&left(3, 3), area, &sources, &paths, 4), SettingsOutcome::ToggleWrapNavigation);
    // The second source of the source box (its list starts two rows in).
    page.handle_mouse(&left(60, 4), area, &sources, &paths, 4);
    assert_eq!(page.selected_source, 1);
    assert_eq!(page.focus, "js");
    page.handle_mouse(&left(10, 15), area, &sources, &paths, 4);
    assert_eq!(page.selected_local_path, 0);
    assert_eq!(page.focus, "local");
    page.handle_mouse(&MouseEvent { kind: MouseEventKind::ScrollUp, column: 0, row: 0 }, area, &sources, &paths, 4);
    assert_eq!(page.selected_source, 0);
    page.input_mode = true;
    assert_eq!(
        page.handle_mouse(&left(3, 1), area, &sources, &paths, 4),
        SettingsOutcome::Action(AppAction::NoOp)
    );
    assert_eq!(option_key_at(5), Some('p'));
    assert_eq!(option_key_at(6), None);
}

#[test]
fn settings_lines() {
    assert_eq!(source_state(true, 0), "已就绪，播放/歌词/封面由 JS 音源解析");
    assert_eq!(source_state(false, 0), "尚未导入 JS 音源");
    assert_eq!(source_state(false, 2), "加载中或加载失败");
    assert_eq!(source_row_text("a.js", true, 40), " cached   a.js");
    assert_eq!(source_row_text("https://example.com/source.js", false, 20), " download https...");
    assert_eq!(local_count_line(7), " 共 7 首歌曲");
    assert_eq!(local_count_line(0), " 共 0 首歌曲");
    assert_eq!(local_count_line(10), " 共 10 首歌曲");
    assert_eq!(local_count_line(1907), " 共 1907 首歌曲");
    assert_eq!(input_box(Rect::new(0, 0, 100, 30)), Rect::new(13, 13, 74, 3));
}

#[test]
fn leaderboard_answers_and_clicks() {
    let mut page = LeaderboardPage::new(vec![SourceId::Kw, SourceId::Kg]);
    let mut id = 0u64;
    let request = page.start_next_load(&mut id);
    assert_eq!(request, Some(LeaderboardLoadRequest::Boards { source: SourceId::Kw }));
    assert_eq!(id, 1);
    assert_eq!(page.start_next_load(&mut id), None);
    assert_eq!(id, 1);
    // A stale answer changes nothing.
    let board = LeaderboardInfo::new("93".to_string(), "飙升榜".to_string(), SourceId::Kw);
    assert!(page.take_boards_answer(0, id, SourceId::Kw, Ok(vec![board.clone()])).is_none());
    assert!(page.boards.is_empty());
    let note = page.take_boards_answer(1, id, SourceId::Kw, Err("offline".to_string())).unwrap();
    assert_eq!(note.level, NotificationLevel::Error);
    assert_eq!(note.message, "加载榜单目录失败: offline");
    assert_eq!(page.error_message, Some("offline".to_string()));
    page.refresh_current();
    page.start_next_load(&mut id);
    assert!(page.take_boards_answer(2, id, SourceId::Kw, Ok(vec![board.clone()])).is_none());
    assert_eq!(page.boards, vec![board.clone()]);
    assert_eq!(page.boards_title(), "榜单 (1)");
    assert_eq!(page.songs_title(), "歌曲列表");
    // Wide page: tabs on row 0, boards box 30 wide below.
    let area = Rect::new(0, 0, 100, 20);
    page.handle_mouse(&left(2, 2), area, 3, true);
    assert_eq!(page.selected_board, Some(0));
    assert_eq!(page.songs_title(), "酷我 · 飙升榜");
    page.handle_mouse(&left(60, 0), area, 3, false);
    assert_eq!(page.source_index, 1);
    assert_eq!(page.selected_board, None);
    // The same clicks on a page laid out by hand.
    let chunks = PageChunks {
        tabs: Rect::new(0, 0, 100, 1),
        list: Rect::new(0, 1, 30, 19),
        songs: Rect::new(30, 1, 70, 19),
    };
    let tabs: Vec<Rect> = (0..page.sources.len() as u16).map(|i| Rect::new(20 * i, 0, 20, 1)).collect();
    page.handle_mouse_on(&left(5, 0), &chunks, &tabs, 3, false);
    assert_eq!(page.source_index, 0);
}

#[test]
fn page_content_split_follows_the_width() {
    let (direction, constraints) = content_layout(81, 3, 30);
    assert_eq!(direction, Direction::Vertical);
    assert_eq!(constraints, vec![Constraint::Length(5), Constraint::Min(0)]);
    let (_, constraints) = content_layout(81, 20, 30);
    assert_eq!(constraints, vec![Constraint::Length(11), Constraint::Min(0)]);
    let (direction, constraints) = content_layout(82, 3, 30);
    assert_eq!(direction, Direction::Horizontal);
    assert_eq!(constraints, vec![Constraint::Length(30), Constraint::Min(0)]);
}

#[test]
fn leaderboard_lines() {
    let mut board = LeaderboardInfo::new("1".to_string(), "新歌榜".to_string(), SourceId::Kg);
    assert_eq!(board_row_text(&board, 0, 30), " 1. 新歌榜");
    board.update = Some("今日".to_string());
    assert_eq!(board_row_text(&board, 11, 40), "12. 新歌榜  今日");
    assert_eq!(board_row_text(&board, 11, 8), "12. 新歌榜");
    assert_eq!(board_row_text(&board, 11, 6), "12. 新…");
    assert_eq!(source_tab_label(SourceId::Wy, 60), "网易 wy");
    assert_eq!(source_tab_label(SourceId::Wy, 40), "wy");
}

fn playlist(id: &str, source: SourceId, count: u64) -> Playlist {
    Playlist {
        id: id.to_string(),
        name: format!("单 {id}"),
        source,
        cover_url: None,
        song_count: count,
        description: None,
        play_count: None,
    }
}

#[test]
fn playlist_answers_clicks_and_lines() {
    let favorites = vec![playlist("f", SourceId::Kw, 0)];
    let mut page = PlaylistsPage::new(vec![SourceId::Tx]);
    page.sync_favorites(favorites.clone());
    assert_eq!(page.lists_title(), "收藏歌单 (1)");
    page.select_scope(1, favorites.clone());
    let mut id = 7u64;
    assert_eq!(page.start_next_load(&mut id), Some(PlaylistLoadRequest::List { source: SourceId::Tx }));
    assert_eq!(id, 8);
    let items = vec![playlist("p1", SourceId::Tx, 12), playlist("p2", SourceId::Tx, 0)];
    assert!(page.take_list_answer(8, 8, SourceId::Tx, Ok(items.clone())).is_none());
    assert_eq!(page.playlists, items);
    assert_eq!(page.lists_title(), "热门歌单 (2)");
    let area = Rect::new(0, 0, 100, 20);
    // Right click on the second playlist asks to save it.
    let right = MouseEvent { kind: MouseEventKind::Down(MouseButton::Right), column: 3, row: 3 };
    assert_eq!(
        page.handle_mouse(&right, area, 3, false, favorites.clone()),
        PlaylistsInput::ToggleFavorite(items[1].clone())
    );
    assert_eq!(page.selected, 1);
    assert_eq!(playlist_row_text(&items[0], true, 30), "* 单 p1 · 12 首");
    assert_eq!(playlist_row_text(&items[1], false, 4), "  单…");
    assert_eq!(scope_label(None, true), "已收藏");
    assert_eq!(scope_label(Some(SourceId::Tx), false), "tx");
    let pages = split_page(area, 2, 34);
    assert_eq!(pages.tabs, Rect::new(0, 0, 100, 1));
    assert_eq!(pages.list, Rect::new(0, 1, 34, 19));
    assert_eq!(tab_rects(pages.tabs, 0).len(), 0);
    assert_eq!(tab_rects(pages.tabs, 2).len(), 2);
}

#[test]
fn layouts_ask_for_the_sizes_of_their_parts() {
    assert_eq!(equal_ratios(3), vec![Constraint::Ratio(1, 3); 3]);
    assert!(equal_ratios(0).is_empty());
    assert_eq!(page_rows(), vec![Constraint::Length(1), Constraint::Min(0)]);
    assert_eq!(
        queue_split(72),
        (Direction::Horizontal, vec![Constraint::Percentage(36), Constraint::Percentage(64)])
    );
    assert_eq!(
        queue_split(71),
        (Direction::Vertical, vec![Constraint::Percentage(62), Constraint::Percentage(38)])
    );
    assert_eq!(
        settings_split(Rect::new(0, 0, 72, 30)),
        (Direction::Horizontal, vec![Constraint::Percentage(42), Constraint::Percentage(58)])
    );
    assert_eq!(
        settings_split(Rect::new(0, 0, 60, 30)),
        (Direction::Vertical, vec![Constraint::Length(10), Constraint::Min(6), Constraint::Length(8)])
    );
    assert_eq!(
        settings_split(Rect::new(0, 0, 60, 45)),
        (Direction::Vertical, vec![Constraint::Length(12), Constraint::Min(6), Constraint::Length(8)])
    );
}

#[test]
fn a_split_cut_to_the_grid_stays_on_it() {
    // An area reaching past the last row is cut to end there.
    let parts = split_page(Rect::new(0, 65000, 80, 1000), 2, 34);
    assert!(parts.tabs.y >= 65000);
    assert!(parts.songs.y as u32 + parts.songs.height as u32 <= u16::MAX as u32);
}
