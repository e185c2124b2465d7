use voicefox::leaderboard::{LeaderboardLoadRequest, LeaderboardPage};
use voicefox::model::{LeaderboardInfo, Playlist, SongInfo, SourceId};
use voicefox::playlists::{PlaylistLoadRequest, PlaylistsPage};

#[test]
fn caches_each_source_and_refreshes_the_current_view() {
    let mut page = LeaderboardPage::new(vec![SourceId::Kw, SourceId::Kg]);
    assert_eq!(
        page.next_load_request(),
        Some(LeaderboardLoadRequest::Boards {
            source: SourceId::Kw
        })
    );

    let board = LeaderboardInfo::new("93".to_string(), "飙升榜".to_string(), SourceId::Kw);
    page.update_boards(SourceId::Kw, vec![board.clone()]);
    page.enter_selected_board();
    assert_eq!(
        page.next_load_request(),
        Some(LeaderboardLoadRequest::Songs {
            source: SourceId::Kw,
            board_id: "93".to_string()
        })
    );

    let song = SongInfo::new(
        "1".to_string(),
        SourceId::Kw,
        "测试歌曲".to_string(),
        "测试歌手".to_string(),
    );
    page.update_songs(SourceId::Kw, "93", vec![song]);
    assert!(page.next_load_request().is_none());

    page.leave_board();
    page.select_source(1);
    assert_eq!(
        page.next_load_request(),
        Some(LeaderboardLoadRequest::Boards {
            source: SourceId::Kg
        })
    );

    page.select_source(0);
    assert_eq!(page.boards, vec![board]);
    assert!(page.next_load_request().is_none());
    page.refresh_current();
    assert_eq!(
        page.next_load_request(),
        Some(LeaderboardLoadRequest::Boards {
            source: SourceId::Kw
        })
    );
}

fn playlist(id: &str, source: SourceId) -> Playlist {
    Playlist {
        id: id.to_string(),
        name: id.to_string(),
        source,
        cover_url: None,
        song_count: 0,
        description: None,
        play_count: None,
    }
}

#[test]
fn source_lists_are_cached_independently() {
    let mut page = PlaylistsPage::new(vec![SourceId::Kw, SourceId::Kg]);
    page.scope_index = 1;
    page.list_loaded = false;
    assert_eq!(
        page.next_load_request(),
        Some(PlaylistLoadRequest::List {
            source: SourceId::Kw
        })
    );
    page.update_playlists(SourceId::Kw, vec![playlist("kw-1", SourceId::Kw)]);
    page.scope_index = 2;
    page.list_loaded = false;
    assert_eq!(
        page.next_load_request(),
        Some(PlaylistLoadRequest::List {
            source: SourceId::Kg
        })
    );
}
