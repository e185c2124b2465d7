use voicefox::actions::{
    describe_song, join_with, loading_message, menu_effect, needs_cover_reload, playing_message,
    playing_title, queue_message, retry_after_player_error, scan_report, seek_by_target,
    settle_cover, usable_source_urls, AttemptedSources, MenuEffect, ResolveStep, Resolver,
    SongMenuAction, SourceLoad, SourceLoadStep,
};
use voicefox::model::{AppAction, InsertPosition, NotificationLevel, SongInfo, SourceId};

fn song(id: &str, source: SourceId) -> SongInfo {
    SongInfo::new(id.to_string(), source, "晴天".to_string(), "周杰伦".to_string())
}

#[test]
fn queue_messages_tell_where_the_song_went() {
    let s = song("1", SourceId::Kw);
    assert_eq!(describe_song(&s), "晴天 - 周杰伦");
    let end = queue_message(&s, InsertPosition::End, 7);
    assert_eq!(end.level, NotificationLevel::Success);
    assert_eq!(end.message, "已加入队列: 晴天 - 周杰伦");
    assert_eq!(queue_message(&s, InsertPosition::Next, 0).message, "已加入队列: 晴天 - 周杰伦");
    assert_eq!(queue_message(&s, InsertPosition::Next, 3).message, "下一首播放: 晴天 - 周杰伦");
    assert_eq!(loading_message(&s).message, "正在加载: 晴天 - 周杰伦");
    assert_eq!(playing_message(&s), "晴天 - 周杰伦 [kw]");
    assert_eq!(playing_title(&s), "正在播放: 晴天");
}

#[test]
fn covers_and_retries() {
    let a = Some("http://a".to_string());
    let b = Some("http://b".to_string());
    assert!(needs_cover_reload(true, &a, &b));
    assert!(needs_cover_reload(true, &a, &None));
    assert!(!needs_cover_reload(true, &a, &a.clone()));
    assert!(!needs_cover_reload(false, &a, &b));
    assert!(!needs_cover_reload(true, &None, &b));
    let mut s = song("1", SourceId::Kw);
    settle_cover(&mut s, b.clone());
    assert_eq!(s.cover_url, b);
    settle_cover(&mut s, a.clone());
    assert_eq!(s.cover_url, b);
    assert!(retry_after_player_error(true, &Some(song("1", SourceId::Tx))));
    assert!(!retry_after_player_error(true, &Some(song("1", SourceId::Local))));
    assert!(!retry_after_player_error(false, &Some(song("1", SourceId::Tx))));
    assert!(!retry_after_player_error(true, &None));
}

#[test]
fn seeking_stays_in_range() {
    assert_eq!(seek_by_target(1_000, 500), 1_500);
    assert_eq!(seek_by_target(1_000, -5_000), 0);
    assert_eq!(seek_by_target(u128::MAX, 1), u64::MAX);
    assert_eq!(seek_by_target(10, i64::MIN), 0);
}

#[test]
fn each_source_is_tried_once_per_track() {
    let mut attempted = AttemptedSources::new();
    let track = song("kw-1", SourceId::Kw);
    let (mut resolver, fetch) = Resolver::begin(track.clone(), true, &mut attempted);
    assert!(fetch);
    assert!(attempted.contains(SourceId::Kw));
    let step = resolver.direct_answered(Err("no url".to_string()), true);
    assert_eq!(step, ResolveStep::FindCandidates);
    let candidates = vec![song("kw-2", SourceId::Kw), song("kg-1", SourceId::Kg), song("kg-2", SourceId::Kg), song("tx-1", SourceId::Tx)];
    let step = resolver.candidates_found(candidates, true, &mut attempted);
    assert_eq!(step, ResolveStep::Fetch(song("kg-1", SourceId::Kg)));
    let step = resolver.candidate_answered(Err("blocked".to_string()), true, &mut attempted);
    assert_eq!(step, ResolveStep::Fetch(song("tx-1", SourceId::Tx)));
    let step = resolver.candidate_answered(Ok(()), true, &mut attempted);
    assert_eq!(step, ResolveStep::Play(song("tx-1", SourceId::Tx)));

    // Retrying the same track: its own source was tried already.
    let (mut again, fetch) = Resolver::begin(track.clone(), true, &mut attempted);
    assert!(!fetch);
    assert_eq!(again.direct_error, "音源 kw 已尝试");
    assert_eq!(again.skipped_direct(true), ResolveStep::FindCandidates);
    let step = again.candidates_found(vec![song("kg-3", SourceId::Kg)], true, &mut attempted);
    assert_eq!(step, ResolveStep::Fail("获取播放地址失败，换源后仍不可用: 音源 kw 已尝试".to_string()));
}

#[test]
fn resolution_stops_or_fails_as_configured() {
    let mut attempted = AttemptedSources::new();
    let (mut r, _) = Resolver::begin(song("1", SourceId::Wy), false, &mut attempted);
    assert_eq!(
        r.direct_answered(Err("404".to_string()), true),
        ResolveStep::Fail("获取播放地址失败: 404".to_string())
    );
    let (mut r, _) = Resolver::begin(song("2", SourceId::Mg), true, &mut attempted);
    assert_eq!(r.direct_answered(Err("x".to_string()), false), ResolveStep::Drop);
    assert_eq!(r.direct_answered(Ok(()), true), ResolveStep::Play(song("2", SourceId::Mg)));
    attempted.clear();
    assert!(!attempted.contains(SourceId::Wy));
}

#[test]
fn js_sources_load_in_order_until_one_works() {
    let urls = vec!["  ".to_string(), "a.js".to_string(), "".to_string(), " b.js".to_string()];
    assert_eq!(usable_source_urls(&urls), vec!["a.js".to_string(), " b.js".to_string()]);
    let (mut load, step) = SourceLoad::begin(&urls);
    assert_eq!(step, SourceLoadStep::Load("a.js".to_string()));
    assert_eq!(load.failed("bad".to_string(), true), SourceLoadStep::Load(" b.js".to_string()));
    assert_eq!(load.failed("worse".to_string(), true), SourceLoadStep::Clear);
    let note = load.finish(true).unwrap();
    assert_eq!(note.level, NotificationLevel::Error);
    assert_eq!(note.message, "没有可用的 JS 音源: worse");
    assert!(load.finish(false).is_none());
    match load.loaded(true) {
        SourceLoadStep::Ready(n) => assert_eq!(n.message, "JS 音源已就绪"),
        other => panic!("unexpected {:?}", other),
    }
    assert_eq!(load.loaded(false), SourceLoadStep::Stop);
    let (_, step) = SourceLoad::begin(&vec![" ".to_string()]);
    assert_eq!(step, SourceLoadStep::Clear);
}

#[test]
fn scans_report_counts_or_errors() {
    let (status, notes) = scan_report(&Vec::new(), 42);
    assert_eq!(status, "扫描完成，共 42 首");
    assert_eq!(notes.len(), 1);
    assert_eq!(notes[0].message, "本地音乐扫描完成，共 42 首");
    let errors = vec!["a".to_string(), "b".to_string()];
    let (status, notes) = scan_report(&errors, 3);
    assert_eq!(status, "扫描错误: a; b");
    assert_eq!(notes.len(), 2);
    assert_eq!(notes[1].level, NotificationLevel::Error);
    assert_eq!(join_with(&Vec::new(), ", "), "");
    assert_eq!(scan_report(&Vec::new(), 0).0, "扫描完成，共 0 首");
}

#[test]
fn menu_entries_do_what_they_say() {
    let mut list = vec![song("1", SourceId::Kw), song("2", SourceId::Local)];
    list[1].file_path = Some("/m/2.flac".to_string());
    match menu_effect(SongMenuAction::Play, &list, 1, false) {
        MenuEffect::Action(AppAction::PlaySong { songs, index }) => {
            assert_eq!(songs, list);
            assert_eq!(index, 1);
        }
        other => panic!("unexpected {:?}", other),
    }
    assert_eq!(
        menu_effect(SongMenuAction::PlayNext, &list, 0, false),
        MenuEffect::Action(AppAction::AddToQueue { song: list[0].clone(), position: InsertPosition::Next })
    );
    match menu_effect(SongMenuAction::ToggleFavorite, &list, 0, true) {
        MenuEffect::ToggleFavorite { remove, note, .. } => {
            assert!(remove);
            assert_eq!(note.message, "已取消收藏");
        }
        other => panic!("unexpected {:?}", other),
    }
    match menu_effect(SongMenuAction::RemoveFromQueue, &list, 0, false) {
        MenuEffect::RemoveFromQueue { index, note } => {
            assert_eq!(index, 0);
            assert_eq!(note.message, "已从队列移除: 晴天");
        }
        other => panic!("unexpected {:?}", other),
    }
    assert_eq!(
        menu_effect(SongMenuAction::DeleteLocal, &list, 1, false),
        MenuEffect::ConfirmDelete { name: "晴天".to_string(), path: "/m/2.flac".to_string() }
    );
    match menu_effect(SongMenuAction::DeleteLocal, &list, 0, false) {
        MenuEffect::NoFilePath(note) => assert_eq!(note.message, "无法删除：没有本地文件路径"),
        other => panic!("unexpected {:?}", other),
    }
}
