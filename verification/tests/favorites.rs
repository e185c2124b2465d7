use voicefox::favorites::{FavoritesOutcome, FavoritesPage, ListFilter};
use voicefox::input::{KeyCode, KeyEvent, MOD_CONTROL, MOD_NONE};
use voicefox::model::{Action, AppAction, InsertPosition, SongInfo, SourceId};

#[test]
fn filters_title_artist_album_and_source() {
    let mut page = FavoritesPage::new();
    let mut song = SongInfo::new("1".into(), SourceId::Kw, "晴天".into(), "周杰伦".into());
    song.album_name = "叶惠美".into();
    let songs = vec![song];

    for query in ["晴天", "周杰伦", "叶惠美", "kw"] {
        page.filter.set_query(query);
        assert_eq!(page.filtered_song_indices(&songs), vec![0]);
    }
}

fn song(id: &str, name: &str, singer: &str) -> SongInfo {
    SongInfo::new(id.into(), SourceId::Kg, name.into(), singer.into())
}

#[test]
fn filter_is_case_insensitive_and_empty_keeps_all() {
    let mut page = FavoritesPage::new();
    let songs = vec![song("1", "Hello", "Adele"), song("2", "Yellow", "Coldplay")];
    assert_eq!(page.filtered_song_indices(&songs), vec![0, 1]);
    page.filter.set_query("  ELLO ");
    assert_eq!(page.filtered_song_indices(&songs), vec![0, 1]);
    page.filter.set_query("adele");
    assert_eq!(page.filtered_song_indices(&songs), vec![0]);
    page.filter.set_query("kw");
    assert!(page.filtered_song_indices(&songs).is_empty());
}

#[test]
fn typing_into_the_filter_resets_the_selection() {
    let mut page = FavoritesPage::new();
    page.selected = 3;
    page.filter.activate();
    assert!(page.input_mode());
    let out = page.handle_input(&KeyEvent::new(KeyCode::Char('x'), MOD_NONE), None, &vec![], false);
    assert_eq!(out, FavoritesOutcome::Action(AppAction::NoOp));
    assert_eq!(page.filter.query(), "x");
    assert_eq!(page.selected, 0);
    page.handle_input(&KeyEvent::new(KeyCode::Esc, MOD_NONE), None, &vec![], false);
    assert!(!page.input_mode());
    assert_eq!(page.filter.query(), "x");
}

#[test]
fn favorites_keys_navigate_play_and_remove() {
    let mut page = FavoritesPage::new();
    let songs = vec![song("1", "a", "s"), song("2", "b", "s"), song("3", "c", "s")];
    let down = KeyEvent::new(KeyCode::Down, MOD_NONE);
    page.handle_input(&down, None, &songs, false);
    assert_eq!(page.selected, 1);
    page.handle_input(&KeyEvent::new(KeyCode::Char('x'), MOD_NONE), Some(Action::ListSelectLast), &songs, false);
    assert_eq!(page.selected, 2);
    page.handle_input(&down, None, &songs, true);
    assert_eq!(page.selected, 0);
    let out = page.handle_input(&KeyEvent::new(KeyCode::Enter, MOD_NONE), None, &songs, false);
    assert_eq!(out, FavoritesOutcome::Action(AppAction::PlaySong { songs: songs.clone(), index: 0 }));
    let out = page.handle_input(&KeyEvent::new(KeyCode::Char('A'), MOD_NONE), None, &songs, false);
    assert_eq!(out, FavoritesOutcome::Action(AppAction::AddToQueue { song: songs[0].clone(), position: InsertPosition::Next }));
    page.selected = 2;
    let out = page.handle_input(&KeyEvent::new(KeyCode::Char('l'), MOD_CONTROL), None, &songs, false);
    assert_eq!(out, FavoritesOutcome::Remove(2));
    let remaining = vec![songs[0].clone(), songs[1].clone()];
    let action = page.finish_remove(true, &remaining);
    assert_eq!(page.selected, 1);
    match action {
        AppAction::ShowNotification(n) => assert_eq!(n.message, "已取消收藏"),
        other => panic!("unexpected {:?}", other),
    }
    let out = page.handle_input(&KeyEvent::new(KeyCode::Esc, MOD_NONE), None, &songs, false);
    assert_eq!(out, FavoritesOutcome::Action(AppAction::GoBack));
}

#[test]
fn back_clears_a_filter_before_leaving() {
    let mut page = FavoritesPage::new();
    let songs = vec![song("1", "a", "s")];
    page.filter.set_query("a");
    page.selected = 0;
    let out = page.handle_input(&KeyEvent::new(KeyCode::Esc, MOD_NONE), None, &songs, false);
    assert_eq!(out, FavoritesOutcome::Action(AppAction::NoOp));
    assert_eq!(page.filter.query(), "");
    let mut filter = ListFilter::new();
    assert!(!filter.handle_input(&KeyEvent::new(KeyCode::Char('a'), MOD_NONE)));
}
