use voicefox::input::{KeyCode, KeyEvent, MOD_CONTROL, MOD_NONE, MOD_SHIFT};
use voicefox::local::{after_local_delete, local_fit_view, local_key, LocalOutcome};
use voicefox::model::{Action, AppAction, InsertPosition, SongInfo, SourceId};

fn songs(n: usize) -> Vec<SongInfo> {
    (0..n)
        .map(|i| {
            let mut s = SongInfo::new(
                i.to_string(),
                SourceId::Local,
                format!("song {i}"),
                "me".to_string(),
            );
            if i % 2 == 0 {
                s.file_path = Some(format!("/music/{i}.mp3"));
            }
            s
        })
        .collect()
}

fn press(code: KeyCode, modifiers: u8, binding: Option<Action>, list: &Vec<SongInfo>, selected: &mut usize, scroll: &mut usize) -> LocalOutcome {
    local_key(&KeyEvent::new(code, modifiers), binding, list, true, selected, scroll)
}

#[test]
fn arrows_wrap_and_pages_jump() {
    let list = songs(12);
    let (mut selected, mut scroll) = (0usize, 4usize);
    press(KeyCode::Up, MOD_NONE, None, &list, &mut selected, &mut scroll);
    assert_eq!(selected, 11);
    press(KeyCode::Down, MOD_NONE, None, &list, &mut selected, &mut scroll);
    assert_eq!(selected, 0);
    press(KeyCode::Char('d'), MOD_CONTROL, None, &list, &mut selected, &mut scroll);
    assert_eq!(selected, 10);
    press(KeyCode::PageDown, MOD_NONE, None, &list, &mut selected, &mut scroll);
    assert_eq!(selected, 11);
    press(KeyCode::Char('u'), MOD_CONTROL, None, &list, &mut selected, &mut scroll);
    assert_eq!(selected, 1);
    press(KeyCode::Char('G'), MOD_SHIFT, None, &list, &mut selected, &mut scroll);
    assert_eq!(selected, 11);
    press(KeyCode::Home, MOD_NONE, None, &list, &mut selected, &mut scroll);
    assert_eq!(selected, 0);
    assert_eq!(scroll, 4);
}

#[test]
fn rescan_resets_the_view() {
    let list = songs(3);
    let (mut selected, mut scroll) = (2usize, 1usize);
    let r = press(KeyCode::Char('r'), MOD_NONE, None, &list, &mut selected, &mut scroll);
    assert_eq!(r, LocalOutcome::Rescan);
    assert_eq!((selected, scroll), (0, 0));
}

#[test]
fn enter_plays_and_a_queues() {
    let list = songs(3);
    let (mut selected, mut scroll) = (1usize, 0usize);
    match press(KeyCode::Enter, MOD_NONE, None, &list, &mut selected, &mut scroll) {
        LocalOutcome::Action(AppAction::PlaySong { songs, index }) => {
            assert_eq!(songs.len(), 3);
            assert_eq!(index, 1);
        }
        other => panic!("unexpected {:?}", other),
    }
    assert_eq!(
        press(KeyCode::Char('A'), MOD_SHIFT, None, &list, &mut selected, &mut scroll),
        LocalOutcome::Action(AppAction::AddToQueue { song: list[1].clone(), position: InsertPosition::Next })
    );
    let empty: Vec<SongInfo> = Vec::new();
    let mut none = 0usize;
    assert_eq!(
        press(KeyCode::Enter, MOD_NONE, None, &empty, &mut none, &mut scroll),
        LocalOutcome::Action(AppAction::NoOp)
    );
}

#[test]
fn delete_asks_only_for_songs_with_files() {
    let list = songs(3);
    let (mut selected, mut scroll) = (0usize, 0usize);
    assert_eq!(
        press(KeyCode::Delete, MOD_NONE, None, &list, &mut selected, &mut scroll),
        LocalOutcome::ConfirmDelete { name: "song 0".to_string(), path: "/music/0.mp3".to_string() }
    );
    selected = 1;
    assert_eq!(
        press(KeyCode::Char('d'), MOD_NONE, None, &list, &mut selected, &mut scroll),
        LocalOutcome::NoFilePath
    );
}

#[test]
fn configured_bindings_replace_the_built_in_keys() {
    let list = songs(3);
    let (mut selected, mut scroll) = (0usize, 0usize);
    // 'x' bound to moving down moves down.
    press(KeyCode::Char('x'), MOD_NONE, Some(Action::ListSelectDown), &list, &mut selected, &mut scroll);
    assert_eq!(selected, 1);
    // A bound key with a binding this page does not use does nothing.
    assert_eq!(
        press(KeyCode::Char('r'), MOD_NONE, Some(Action::FavoritesFilter), &list, &mut selected, &mut scroll),
        LocalOutcome::Action(AppAction::NoOp)
    );
    assert_eq!(selected, 1);
}

#[test]
fn view_follows_the_selection_and_shrinks_after_deletion() {
    let mut scroll = 0usize;
    local_fit_view(7, true, 30, 12, &mut scroll);
    assert_eq!(scroll, 8);
    local_fit_view(2, true, 30, 25, &mut scroll);
    assert_eq!(scroll, 8);
    local_fit_view(7, false, 30, 25, &mut scroll);
    assert_eq!(scroll, 8);
    assert_eq!(after_local_delete(9, 8, 5), (4, 4));
    assert_eq!(after_local_delete(2, 1, 5), (2, 1));
    assert_eq!(after_local_delete(2, 1, 0), (0, 0));
}
