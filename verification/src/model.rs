//! The plain data the pages work on: music sources, songs, boards,
//! playlists, search results and the actions a page hands back to the
//! application loop.
use vstd::prelude::*;

verus! {

/// An online (or the local) music source.
#[derive(Debug, Clone, Copy, PartialEq, Eq, Hash, Structural)]
pub enum SourceId {
    Kw,
    Kg,
    Tx,
    Wy,
    Mg,
    Local,
}

/// The short code of each source.
pub open spec fn source_code(source: SourceId) -> Seq<char> {
    match source {
        SourceId::Kw => seq!['k', 'w'],
        SourceId::Kg => seq!['k', 'g'],
        SourceId::Tx => seq!['t', 'x'],
        SourceId::Wy => seq!['w', 'y'],
        SourceId::Mg => seq!['m', 'g'],
        SourceId::Local => seq!['l', 'o', 'c', 'a', 'l'],
    }
}

impl SourceId {
    /// The short code of the source ("kw", "kg", ...).
    pub fn as_str(&self) -> (r: &'static str)
        ensures
            r@ == source_code(*self),
    {
        proof {
            reveal_strlit("kw");
            reveal_strlit("kg");
            reveal_strlit("tx");
            reveal_strlit("wy");
            reveal_strlit("mg");
            reveal_strlit("local");
        }
        match self {
            SourceId::Kw => "kw",
            SourceId::Kg => "kg",
            SourceId::Tx => "tx",
            SourceId::Wy => "wy",
            SourceId::Mg => "mg",
            SourceId::Local => "local",
        }
    }
}

/// The display name of each source.
pub open spec fn source_title(source: SourceId) -> Seq<char> {
    match source {
        SourceId::Kw => "酷我"@,
        SourceId::Kg => "酷狗"@,
        SourceId::Tx => "QQ"@,
        SourceId::Wy => "网易云"@,
        SourceId::Mg => "咪咕"@,
        SourceId::Local => "本地"@,
    }
}

/// The display name of `source`.
pub fn source_name(source: SourceId) -> (r: &'static str)
    ensures
        r@ == source_title(source),
{
    proof {
        reveal_strlit("酷我");
        reveal_strlit("酷狗");
        reveal_strlit("QQ");
        reveal_strlit("网易云");
        reveal_strlit("咪咕");
        reveal_strlit("本地");
    }
    match source {
        SourceId::Kw => "酷我",
        SourceId::Kg => "酷狗",
        SourceId::Tx => "QQ",
        SourceId::Wy => "网易云",
        SourceId::Mg => "咪咕",
        SourceId::Local => "本地",
    }
}

/// The name and code of each source, as a tab shows it when there is
/// room.
pub open spec fn source_caption(source: SourceId) -> Seq<char> {
    match source {
        SourceId::Kw => "酷我 kw"@,
        SourceId::Kg => "酷狗 kg"@,
        SourceId::Tx => "QQ tx"@,
        SourceId::Wy => "网易 wy"@,
        SourceId::Mg => "咪咕 mg"@,
        SourceId::Local => "本地 local"@,
    }
}

/// The name and code of `source`.
pub fn source_label(source: SourceId) -> (r: &'static str)
    ensures
        r@ == source_caption(source),
{
    proof {
        reveal_strlit("酷我 kw");
        reveal_strlit("酷狗 kg");
        reveal_strlit("QQ tx");
        reveal_strlit("网易 wy");
        reveal_strlit("咪咕 mg");
        reveal_strlit("本地 local");
    }
    match source {
        SourceId::Kw => "酷我 kw",
        SourceId::Kg => "酷狗 kg",
        SourceId::Tx => "QQ tx",
        SourceId::Wy => "网易 wy",
        SourceId::Mg => "咪咕 mg",
        SourceId::Local => "本地 local",
    }
}

/// A song as the pages see it.
#[derive(Debug, Clone, PartialEq, Eq)]
pub struct SongInfo {
    pub id: String,
    pub source: SourceId,
    pub name: String,
    pub singer: String,
    pub album_name: String,
    /// Length of the track in whole seconds (0 when unknown).
    pub duration_secs: u64,
    pub file_path: Option<String>,
    pub cover_url: Option<String>,
}

/// A copy of an optional string, equal to it.
pub fn copy_opt_string(value: &Option<String>) -> (r: Option<String>)
    ensures
        r == *value,
{
    match value {
        Some(s) => Some(s.clone()),
        None => None,
    }
}

impl SongInfo {
    /// A song with the given identity, name and singer; everything else empty.
    pub fn new(id: String, source: SourceId, name: String, singer: String) -> (r: SongInfo)
        ensures
            r.id == id,
            r.source == source,
            r.name == name,
            r.singer == singer,
            r.album_name@ == Seq::<char>::empty(),
            r.duration_secs == 0,
            r.file_path is None,
            r.cover_url is None,
    {
        SongInfo {
            id,
            source,
            name,
            singer,
            album_name: String::new(),
            duration_secs: 0,
            file_path: None,
            cover_url: None,
        }
    }

    /// A field-by-field copy of the song.
    pub fn duplicate(&self) -> (r: SongInfo)
        ensures
            r == *self,
    {
        SongInfo {
            id: self.id.clone(),
            source: self.source,
            name: self.name.clone(),
            singer: self.singer.clone(),
            album_name: self.album_name.clone(),
            duration_secs: self.duration_secs,
            file_path: copy_opt_string(&self.file_path),
            cover_url: copy_opt_string(&self.cover_url),
        }
    }
}

/// A copy of a list of songs, equal to it.
pub fn copy_songs(songs: &Vec<SongInfo>) -> (r: Vec<SongInfo>)
    ensures
        r@ == songs@,
{
    let mut out: Vec<SongInfo> = Vec::new();
    let mut i: usize = 0;
    while i < songs.len()
        invariant
            i <= songs.len(),
            out@ == songs@.subrange(0, i as int),
        decreases songs.len() - i,
    {
        out.push(songs[i].duplicate());
        i = i + 1;
        assert(out@ =~= songs@.subrange(0, i as int));
    }
    assert(songs@.subrange(0, songs.len() as int) =~= songs@);
    out
}

/// A leaderboard (chart) of one source.
#[derive(Debug, Clone, PartialEq, Eq)]
pub struct LeaderboardInfo {
    pub id: String,
    pub name: String,
    pub source: SourceId,
    /// When the board was last updated, as the source reports it.
    pub update: Option<String>,
}

impl LeaderboardInfo {
    /// A board with the given identity and name, without an update note.
    pub fn new(id: String, name: String, source: SourceId) -> (r: LeaderboardInfo)
        ensures
            r.id == id,
            r.name == name,
            r.source == source,
            r.update is None,
    {
        LeaderboardInfo { id, name, source, update: None }
    }

    /// A field-by-field copy of the board.
    pub fn duplicate(&self) -> (r: LeaderboardInfo)
        ensures
            r == *self,
    {
        LeaderboardInfo {
            id: self.id.clone(),
            name: self.name.clone(),
            source: self.source,
            update: copy_opt_string(&self.update),
        }
    }
}

/// A copy of a list of boards, equal to it.
pub fn copy_boards(boards: &Vec<LeaderboardInfo>) -> (r: Vec<LeaderboardInfo>)
    ensures
        r@ == boards@,
{
    let mut out: Vec<LeaderboardInfo> = Vec::new();
    let mut i: usize = 0;
    while i < boards.len()
        invariant
            i <= boards.len(),
            out@ == boards@.subrange(0, i as int),
        decreases boards.len() - i,
    {
        out.push(boards[i].duplicate());
        i = i + 1;
        assert(out@ =~= boards@.subrange(0, i as int));
    }
    assert(boards@.subrange(0, boards.len() as int) =~= boards@);
    out
}

/// An online playlist (or one the user saved).
#[derive(Debug, Clone, PartialEq, Eq)]
pub struct Playlist {
    pub id: String,
    pub name: String,
    pub source: SourceId,
    pub cover_url: Option<String>,
    pub song_count: u64,
    pub description: Option<String>,
    pub play_count: Option<u64>,
}

impl Playlist {
    /// A field-by-field copy of the playlist.
    pub fn duplicate(&self) -> (r: Playlist)
        ensures
            r == *self,
    {
        Playlist {
            id: self.id.clone(),
            name: self.name.clone(),
            source: self.source,
            cover_url: copy_opt_string(&self.cover_url),
            song_count: self.song_count,
            description: copy_opt_string(&self.description),
            play_count: self.play_count,
        }
    }
}

/// A copy of a list of playlists, equal to it.
pub fn copy_playlists(items: &Vec<Playlist>) -> (r: Vec<Playlist>)
    ensures
        r@ == items@,
{
    let mut out: Vec<Playlist> = Vec::new();
    let mut i: usize = 0;
    while i < items.len()
        invariant
            i <= items.len(),
            out@ == items@.subrange(0, i as int),
        decreases items.len() - i,
    {
        out.push(items[i].duplicate());
        i = i + 1;
        assert(out@ =~= items@.subrange(0, i as int));
    }
    assert(items@.subrange(0, items.len() as int) =~= items@);
    out
}

/// One page of search results.
#[derive(Debug, Clone, PartialEq, Eq)]
pub struct SearchResult {
    pub items: Vec<SongInfo>,
    pub total: u32,
    pub has_more: bool,
}

/// Where a song goes when it is added to the play queue.
#[derive(Debug, Clone, Copy, PartialEq, Eq, Structural)]
pub enum InsertPosition {
    Next,
    End,
}

/// How a notification is shown.
#[derive(Debug, Clone, Copy, PartialEq, Eq, Structural)]
pub enum NotificationLevel {
    Info,
    Success,
    Warning,
    Error,
}

/// A message for the user.
#[derive(Debug, Clone, PartialEq, Eq)]
pub struct Notification {
    pub level: NotificationLevel,
    pub message: String,
}

impl Notification {
    /// An informational notification carrying `message`.
    pub fn info(message: String) -> (r: Notification)
        ensures
            r.level == NotificationLevel::Info,
            r.message == message,
    {
        Notification { level: NotificationLevel::Info, message }
    }

    /// A success notification carrying `message`.
    pub fn success(message: String) -> (r: Notification)
        ensures
            r.level == NotificationLevel::Success,
            r.message == message,
    {
        Notification { level: NotificationLevel::Success, message }
    }

    /// A warning carrying `message`.
    pub fn warning(message: String) -> (r: Notification)
        ensures
            r.level == NotificationLevel::Warning,
            r.message == message,
    {
        Notification { level: NotificationLevel::Warning, message }
    }

    /// An error notification carrying `message`.
    pub fn error(message: String) -> (r: Notification)
        ensures
            r.level == NotificationLevel::Error,
            r.message == message,
    {
        Notification { level: NotificationLevel::Error, message }
    }
}

/// The number after `id` of a request counter, wrapping after the last.
pub open spec fn next_request_id(id: u64) -> u64 {
    if id == u64::MAX {
        0
    } else {
        (id + 1) as u64
    }
}

/// Advances a request counter, wrapping after the last number.
pub fn advance_request_id(id: u64) -> (r: u64)
    ensures
        r == next_request_id(id),
{
    if id == u64::MAX {
        0
    } else {
        id + 1
    }
}

/// A string holding `prefix` followed by `rest`.
pub fn joined(prefix: &str, rest: &str) -> (r: String)
    ensures
        r@ == prefix@ + rest@,
{
    let mut s = String::from_str(prefix);
    s.append(rest);
    s
}

/// What a page asks the application loop to do.
#[derive(Debug, Clone, PartialEq, Eq)]
pub enum AppAction {
    NoOp,
    GoBack,
    PlaySong { songs: Vec<SongInfo>, index: usize },
    AddToQueue { song: SongInfo, position: InsertPosition },
    ShowNotification(Notification),
    Search { keyword: String, source: Option<SourceId> },
    SearchMore { keyword: String, page: u32, source: Option<SourceId> },
    ImportSource(String),
    RemoveSource(String),
    ScanLocalMusic { paths: Vec<String>, max_depth: usize },
}

/// A key binding, as the configured resolver names it.
#[derive(Debug, Clone, Copy, PartialEq, Eq, Structural)]
pub enum Action {
    ListSelectUp,
    ListSelectDown,
    ListSelectFirst,
    ListSelectLast,
    ListPageUp,
    ListPageDown,
    ListActivate,
    ListAddToQueue,
    ListAddToQueueNext,
    ListGoBack,
    FavoritesFilter,
    FavoritesRemove,
    LocalRescan,
    LocalDelete,
    GlobalQuit,
    GlobalPlayPause,
    GlobalNextTrack,
    GlobalPrevTrack,
    GlobalCycleMode,
    GlobalSeekForward,
    GlobalSeekBackward,
    GlobalVolumeUp,
    GlobalVolumeDown,
    GlobalNextTab,
    GlobalPrevTab,
    GlobalGoToMain,
    GlobalToggleFavorite,
    Other,
}

} // verus!
