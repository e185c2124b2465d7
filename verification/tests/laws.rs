use voicefox::input::{KeyCode, KeyEvent, MOD_SHIFT};
use voicefox::listnav::{next_list_index, previous_list_index};
use voicefox::main_page::{MainPage, QueueOutcome};
use voicefox::model::{AppAction, SongInfo, SourceId};
use voicefox::nav::NavTab;
use voicefox::search::{matching_variant_indices, SearchPage};
use voicefox::settings::next_accent;
use voicefox::text::shorten_source;

fn song(id: &str, source: SourceId, name: &str) -> SongInfo {
    SongInfo::new(id.to_string(), source, name.to_string(), "歌手".to_string())
}

#[test]
fn moving_a_song_up_then_down_puts_it_back() {
    let songs: Vec<SongInfo> = (0..5).map(|i| song(&i.to_string(), SourceId::Kw, "x")).collect();
    let mut page = MainPage::new();
    page.selected = 3;
    let first = page.handle_input(&KeyEvent::new(KeyCode::Up, MOD_SHIFT), &songs, 0, false);
    let second = page.handle_input(&KeyEvent::new(KeyCode::Down, MOD_SHIFT), &songs, 0, false);
    assert_eq!(first, QueueOutcome::MoveItem { from: 3, to: 2 });
    assert_eq!(second, QueueOutcome::MoveItem { from: 2, to: 3 });
    assert_eq!(page.selected, 3);
}

#[test]
fn wrapped_steps_undo_each_other() {
    for len in 1..6usize {
        for selected in 0..len {
            assert_eq!(previous_list_index(next_list_index(selected, len, true), len, true), selected);
            assert_eq!(next_list_index(previous_list_index(selected, len, true), len, true), selected);
        }
    }
}

#[test]
fn debounce_fires_once_per_keyword() {
    let mut page = SearchPage::new(None, true, 3);
    page.input = "周杰伦".to_string();
    assert!(page.tick_after(0).is_none());
    assert!(page.tick_after(300_000_000).is_none());
    match page.tick_after(300_000_001) {
        Some(AppAction::Search { keyword, .. }) => assert_eq!(keyword, "周杰伦"),
        other => panic!("unexpected {:?}", other),
    }
    assert!(page.tick_after(5_000_000_000).is_none());
    page.input = "周杰伦 晴天".to_string();
    assert!(page.tick_after(400_000_000).is_some());
}

#[test]
fn the_selected_source_is_always_offered() {
    let results = vec![
        song("kg-1", SourceId::Kg, "七里香"),
        song("kw-1", SourceId::Kw, "七里香"),
        song("kg-2", SourceId::Kg, "七里香"),
    ];
    // The second Kugou copy is represented by the first one.
    assert_eq!(matching_variant_indices(&results, 2), vec![0, 1]);
    assert_eq!(matching_variant_indices(&results, 1), vec![0, 1]);
    assert_eq!(matching_variant_indices(&results, 5), Vec::<usize>::new());
}

#[test]
fn accent_colours_cycle_in_five_steps() {
    let mut accent = "#cba6f7".to_string();
    let mut seen = Vec::new();
    for _ in 0..5 {
        accent = next_accent(&accent);
        seen.push(accent.clone());
    }
    assert_eq!(accent, "#cba6f7");
    assert_eq!(seen[0], "#89b4fa");
    assert_eq!(next_accent(&"red".to_string()), "#cba6f7");
}

#[test]
fn shortened_paths_have_the_asked_length() {
    let path = "abcdefghijklmnopqrstuvwxyz";
    for max in 0..30usize {
        let short = shorten_source(path, max);
        if path.chars().count() <= max {
            assert_eq!(short, path);
        } else {
            assert_eq!(short.chars().count(), max);
            if max > 3 {
                assert!(short.ends_with("..."));
                assert!(path.starts_with(&short[..max - 3]));
            }
        }
    }
}

#[test]
fn next_and_previous_tab_undo_each_other() {
    for tab in NavTab::all() {
        assert_eq!(tab.next().previous(), tab);
        assert_eq!(tab.previous().next(), tab);
    }
}
