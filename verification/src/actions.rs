//! What the application does with the actions the pages hand back:
//! the messages it shows, the further page of results it accepts, when a
//! failed track is retried on another source, which sources a track is
//! resolved on, the JS sources it loads, and what a song's menu does.
//! Playing, loading and saving are the application's part.
use vstd::prelude::*;
use crate::text::{decimal, decimal_digits, trim, trimmed};
use crate::model::{
    AppAction, InsertPosition, Notification, NotificationLevel, SongInfo, SourceId, copy_songs,
    joined, source_code,
};

verus! {

/// "name - singer" of a song.
pub open spec fn song_line(song: SongInfo) -> Seq<char> {
    song.name@ + " - "@ + song.singer@
}

/// "name - singer" of `song`.
pub fn describe_song(song: &SongInfo) -> (r: String)
    ensures
        r@ == song_line(*song),
{
    let mut s = joined(song.name.as_str(), " - ");
    s.append(song.singer.as_str());
    s
}

/// The message after `song` went into the queue at `position`, landing
/// at index `inserted`: a song put next that lands first is simply
/// queued; put next elsewhere, it plays next.
pub open spec fn queue_note(song: SongInfo, position: InsertPosition, inserted: int) -> Seq<char> {
    if position == InsertPosition::Next && inserted != 0 {
        "下一首播放: "@ + song_line(song)
    } else {
        "已加入队列: "@ + song_line(song)
    }
}

/// The success message after `song` went into the queue.
pub fn queue_message(song: &SongInfo, position: InsertPosition, inserted: usize) -> (r: Notification)
    ensures
        r.level == NotificationLevel::Success,
        r.message@ == queue_note(*song, position, inserted as int),
{
    let line = describe_song(song);
    let text = if position == InsertPosition::Next && inserted != 0 {
        joined("下一首播放: ", line.as_str())
    } else {
        joined("已加入队列: ", line.as_str())
    };
    Notification::success(text)
}

/// The message shown while `song` is being loaded.
pub fn loading_message(song: &SongInfo) -> (r: Notification)
    ensures
        r.level == NotificationLevel::Info,
        r.message@ == "正在加载: "@ + song_line(*song),
{
    let line = describe_song(song);
    Notification::info(joined("正在加载: ", line.as_str()))
}

/// The line telling which song plays, from which source:
/// "name - singer [source]".
pub fn playing_message(song: &SongInfo) -> (r: String)
    ensures
        r@ == song_line(*song) + " ["@ + source_code(song.source) + "]"@,
{
    let mut s = describe_song(song);
    s.append(" [");
    s.append(song.source.as_str());
    s.append("]");
    s
}

/// The title over the playing line: "正在播放: name".
pub fn playing_title(song: &SongInfo) -> (r: String)
    ensures
        r@ == "正在播放: "@ + song.name@,
{
    joined("正在播放: ", song.name.as_str())
}

/// Two optional texts are equal.
fn same_text(a: &Option<String>, b: &Option<String>) -> (r: bool)
    ensures
        r == match (a, b) {
            (Some(x), Some(y)) => x@ == y@,
            (None, None) => true,
            _ => false,
        },
{
    match (a, b) {
        (Some(x), Some(y)) => *x == *y,
        (None, None) => true,
        _ => false,
    }
}

/// The cover has to be loaded again once the playing song is resolved:
/// covers are shown, the resolved song has one, and it is not the one
/// loaded from the queue.
pub open spec fn cover_reload(show_cover: bool, resolved: Option<String>, initial: Option<String>) -> bool {
    show_cover && resolved is Some && !(initial is Some && initial->0@ == resolved->0@)
}

/// Whether the cover has to be loaded again for the resolved song.
pub fn needs_cover_reload(show_cover: bool, resolved: &Option<String>, initial: &Option<String>) -> (r:
    bool)
    ensures
        r == cover_reload(show_cover, *resolved, *initial),
{
    show_cover && resolved.is_some() && !same_text(resolved, initial)
}

/// The resolved song takes the cover that came with its address when it
/// has none of its own.
pub fn settle_cover(resolved: &mut SongInfo, from_address: Option<String>)
    ensures
        *final(resolved) == (SongInfo {
            cover_url: if old(resolved).cover_url is Some {
                old(resolved).cover_url
            } else {
                from_address
            },
            ..*old(resolved)
        }),
{
    if resolved.cover_url.is_none() {
        resolved.cover_url = from_address;
    }
}

/// After the player failed on the current song, it is retried on other
/// sources when switching sources is allowed and the song is an online
/// one.
pub open spec fn retries(auto_toggle: bool, current: Option<SongInfo>) -> bool {
    auto_toggle && current is Some && current->0.source != SourceId::Local
}

/// Whether the player's failure on `current` is answered by retrying
/// the song on other sources (else it is reported).
pub fn retry_after_player_error(auto_toggle: bool, current: &Option<SongInfo>) -> (r: bool)
    ensures
        r == retries(auto_toggle, *current),
{
    match current {
        Some(song) => auto_toggle && song.source != SourceId::Local,
        None => false,
    }
}

/// The position, in microseconds, after seeking by `offset`
/// microseconds from `current`: never before the start and at most the
/// largest `u64`.
pub open spec fn seek_target(current: int, offset: int) -> int {
    let moved = if offset >= 0 {
        if current + offset > u128::MAX {
            u128::MAX as int
        } else {
            current + offset
        }
    } else if current + offset < 0 {
        0
    } else {
        current + offset
    };
    if moved > u64::MAX {
        u64::MAX as int
    } else {
        moved
    }
}

/// The position after seeking by `offset` microseconds from `current`.
pub fn seek_by_target(current: u128, offset: i64) -> (r: u64)
    ensures
        r == seek_target(current as int, offset as int),
{
    let moved: u128 = if offset >= 0 {
        current.saturating_add(offset as u128)
    } else {
        let magnitude: u128 = (-(offset as i128)) as u128;
        current.saturating_sub(magnitude)
    };
    if moved > u64::MAX as u128 {
        u64::MAX
    } else {
        moved as u64
    }
}

/// The sources a track was already tried on, in the order they were
/// tried, each once.
pub struct AttemptedSources {
    sources: Vec<SourceId>,
}

impl View for AttemptedSources {
    type V = Seq<SourceId>;

    closed spec fn view(&self) -> Seq<SourceId> {
        self.sources@
    }
}

impl AttemptedSources {
    /// No source is listed twice.
    #[verifier::type_invariant]
    closed spec fn each_once(self) -> bool {
        forall|a: int, b: int|
            0 <= a < b < self.sources@.len() ==> self.sources@[a] != self.sources@[b]
    }

    /// No source tried yet.
    pub fn new() -> (r: AttemptedSources)
        ensures
            r@ == Seq::<SourceId>::empty(),
    {
        AttemptedSources { sources: Vec::new() }
    }

    /// Forgets the sources tried (a new track is played).
    pub fn clear(&mut self)
        ensures
            final(self)@ == Seq::<SourceId>::empty(),
    {
        self.sources = Vec::new();
    }

    /// Whether `source` was tried.
    pub fn contains(&self, source: SourceId) -> (r: bool)
        ensures
            r == self@.contains(source),
    {
        let mut i: usize = 0;
        while i < self.sources.len()
            invariant
                i <= self.sources@.len(),
                forall|k: int| 0 <= k < i ==> self.sources@[k] != source,
            decreases self.sources.len() - i,
        {
            if self.sources[i] == source {
                assert(self.sources@[i as int] == source);
                return true;
            }
            i = i + 1;
        }
        false
    }

    /// Notes that `source` is tried; true when it was not tried before.
    pub fn mark(&mut self, source: SourceId) -> (fresh: bool)
        ensures
            fresh == !old(self)@.contains(source),
            final(self)@ == if fresh {
                old(self)@.push(source)
            } else {
                old(self)@
            },
    {
        if self.contains(source) {
            return false;
        }
        proof {
            use_type_invariant(&*self);
        }
        let mut sources: Vec<SourceId> = Vec::new();
        std::mem::swap(&mut sources, &mut self.sources);
        sources.push(source);
        assert forall|a: int, b: int| 0 <= a < b < sources@.len() implies sources@[a]
            != sources@[b] by {
            if b == sources@.len() - 1 {
                assert(old(self)@[a] != source);
            }
        }
        self.sources = sources;
        true
    }
}

/// The first candidate from index `from` on whose source was not tried.
pub open spec fn first_untried(candidates: Seq<SongInfo>, from: int, tried: Seq<SourceId>) -> Option<int>
    decreases candidates.len() - from,
{
    if from < 0 || from >= candidates.len() {
        None
    } else if !tried.contains(candidates[from].source) {
        Some(from)
    } else {
        first_untried(candidates, from + 1, tried)
    }
}

/// What to do next while a playable address is looked for.
#[derive(Debug, Clone, PartialEq, Eq)]
pub enum ResolveStep {
    /// Ask for the address of this song.
    Fetch(SongInfo),
    /// Look for the same track on other sources.
    FindCandidates,
    /// Play this song: its address was found.
    Play(SongInfo),
    /// Give up, telling the user this.
    Fail(String),
    /// A newer request took over: stop without a word.
    Drop,
}

/// The search for a playable address of `song`: first on its own
/// source, then, when switching sources is allowed, on the same track
/// found on the other sources, each source tried once.
pub struct Resolver {
    pub song: SongInfo,
    pub auto_toggle: bool,
    /// Why the song's own source gave no address.
    pub direct_error: String,
    /// The same track on other sources, as found.
    pub candidates: Vec<SongInfo>,
    /// The next candidate to consider.
    pub next: usize,
}

/// The message when the song's own source was tried before.
pub open spec fn tried_before(source: SourceId) -> Seq<char> {
    "音源 "@ + source_code(source) + " 已尝试"@
}

/// `q` and `r` follow a failure on the song's own source (its reason
/// already in `p`): stop when a newer request took over, give up when
/// switching sources is not allowed, else look for other sources.
pub open spec fn after_direct_failure(p: Resolver, current: bool, q: Resolver, r: ResolveStep) -> bool {
    q == p && if !current {
        r == ResolveStep::Drop
    } else if !p.auto_toggle {
        r is Fail && r->Fail_0@ == "获取播放地址失败: "@ + p.direct_error@
    } else {
        r == ResolveStep::FindCandidates
    }
}

/// `q`, `r` and the sources tried (`tried` before, `now` after) follow a
/// move to the next candidate whose source was not tried: it is fetched,
/// or, with none left, the search gives up.
pub open spec fn advanced(
    p: Resolver,
    tried: Seq<SourceId>,
    q: Resolver,
    now: Seq<SourceId>,
    r: ResolveStep,
) -> bool {
    match first_untried(p.candidates@, p.next as int, tried) {
        Some(i) => {
            &&& r == ResolveStep::Fetch(p.candidates@[i])
            &&& now == tried.push(p.candidates@[i].source)
            &&& q == Resolver { next: (i + 1) as usize, ..p }
        },
        None => {
            &&& r is Fail
            &&& r->Fail_0@ == "获取播放地址失败，换源后仍不可用: "@ + p.direct_error@
            &&& now == tried
            &&& q == Resolver { next: p.candidates@.len() as usize, ..p }
        },
    }
}

impl Resolver {
    /// Starts looking for an address of `song`: its own source is
    /// fetched first unless it was tried already (`attempted`).  Returns
    /// whether to fetch the song itself; when not, `skipped_direct` comes
    /// next.
    pub fn begin(song: SongInfo, auto_toggle: bool, attempted: &mut AttemptedSources) -> (r: (
        Resolver,
        bool,
    ))
        ensures
            r.1 == !old(attempted)@.contains(song.source),
            final(attempted)@ == if r.1 {
                old(attempted)@.push(song.source)
            } else {
                old(attempted)@
            },
            r.0.song == song,
            r.0.auto_toggle == auto_toggle,
            r.0.candidates@.len() == 0,
            r.0.next == 0,
            !r.1 ==> r.0.direct_error@ == tried_before(song.source),
    {
        let fresh = attempted.mark(song.source);
        let direct_error = if fresh {
            String::new()
        } else {
            let mut s = joined("音源 ", song.source.as_str());
            s.append(" 已尝试");
            s
        };
        (Resolver { song, auto_toggle, direct_error, candidates: Vec::new(), next: 0 }, fresh)
    }

    /// The song's own source was tried before: decides what follows;
    /// `current` tells whether this is still the latest request.
    pub fn skipped_direct(&mut self, current: bool) -> (r: ResolveStep)
        ensures
            after_direct_failure(*old(self), current, *final(self), r),
    {
        if !current {
            return ResolveStep::Drop;
        }
        if !self.auto_toggle {
            return ResolveStep::Fail(joined("获取播放地址失败: ", self.direct_error.as_str()));
        }
        ResolveStep::FindCandidates
    }

    /// The song's own source answered (`Err` carries why it gave no
    /// address); `current` tells whether this is still the latest request.
    pub fn direct_answered(&mut self, result: Result<(), String>, current: bool) -> (r: ResolveStep)
        ensures
            match result {
                Ok(()) => r == ResolveStep::Play(old(self).song) && *final(self) == *old(self),
                Err(e) => after_direct_failure(
                    Resolver { direct_error: e, ..*old(self) },
                    current,
                    *final(self),
                    r,
                ),
            },
    {
        match result {
            Ok(()) => ResolveStep::Play(self.song.duplicate()),
            Err(e) => {
                self.direct_error = e;
                self.skipped_direct(current)
            },
        }
    }

    /// Moves to the next candidate whose source was not tried.
    fn advance(&mut self, attempted: &mut AttemptedSources) -> (r: ResolveStep)
        requires
            old(self).next <= old(self).candidates@.len(),
        ensures
            advanced(*old(self), old(attempted)@, *final(self), final(attempted)@, r),
    {
        let len = self.candidates.len();
        while self.next < len
            invariant
                len == self.candidates@.len(),
                self.next <= len,
                old(self).next <= self.next,
                *self == (Resolver { next: self.next, ..*old(self) }),
                attempted@ == old(attempted)@,
                first_untried(self.candidates@, old(self).next as int, attempted@) == first_untried(
                    self.candidates@,
                    self.next as int,
                    attempted@,
                ),
            decreases len - self.next,
        {
            let i = self.next;
            let source = self.candidates[i].source;
            self.next = i + 1;
            if attempted.mark(source) {
                return ResolveStep::Fetch(self.candidates[i].duplicate());
            }
        }
        ResolveStep::Fail(joined("获取播放地址失败，换源后仍不可用: ", self.direct_error.as_str()))
    }

    /// The same track was found on `candidates`; `current` tells whether
    /// this is still the latest request.
    pub fn candidates_found(&mut self, candidates: Vec<SongInfo>, current: bool, attempted: &mut AttemptedSources) -> (r:
        ResolveStep)
        ensures
            !current ==> r == ResolveStep::Drop && *final(self) == *old(self) && final(attempted)@
                == old(attempted)@,
            current ==> advanced(
                Resolver { candidates, next: 0, ..*old(self) },
                old(attempted)@,
                *final(self),
                final(attempted)@,
                r,
            ),
    {
        if !current {
            return ResolveStep::Drop;
        }
        self.candidates = candidates;
        self.next = 0;
        self.advance(attempted)
    }

    /// The candidate fetched last answered (`Err` carries why it gave no
    /// address); `current` tells whether this is still the latest request.
    pub fn candidate_answered(
        &mut self,
        result: Result<(), String>,
        current: bool,
        attempted: &mut AttemptedSources,
    ) -> (r: ResolveStep)
        requires
            0 < old(self).next <= old(self).candidates@.len(),
        ensures
            match result {
                Ok(()) => r == ResolveStep::Play(old(self).candidates@[old(self).next - 1])
                    && *final(self) == *old(self) && final(attempted)@ == old(attempted)@,
                Err(_) => if !current {
                    r == ResolveStep::Drop && *final(self) == *old(self) && final(attempted)@
                        == old(attempted)@
                } else {
                    advanced(*old(self), old(attempted)@, *final(self), final(attempted)@, r)
                },
            },
    {
        match result {
            Ok(()) => ResolveStep::Play(self.candidates[self.next - 1].duplicate()),
            Err(_) => {
                if !current {
                    return ResolveStep::Drop;
                }
                self.advance(attempted)
            },
        }
    }
}

proof fn lemma_first_untried_fresh(candidates: Seq<SongInfo>, from: int, tried: Seq<SourceId>)
    ensures
        first_untried(candidates, from, tried) matches Some(i) ==> 0 <= from <= i
            < candidates.len() && !tried.contains(candidates[i].source),
    decreases candidates.len() - from,
{
    if 0 <= from < candidates.len() && tried.contains(candidates[from].source) {
        lemma_first_untried_fresh(candidates, from + 1, tried);
    }
}

/// A candidate is fetched only from a source not tried before, and that
/// source is then noted as tried: no source is asked twice for one track.
pub proof fn lemma_candidate_sources_fresh(
    p: Resolver,
    tried: Seq<SourceId>,
    q: Resolver,
    now: Seq<SourceId>,
    r: ResolveStep,
)
    requires
        advanced(p, tried, q, now, r),
        r is Fetch,
    ensures
        !tried.contains(r->Fetch_0.source),
        now == tried.push(r->Fetch_0.source),
{
    lemma_first_untried_fresh(p.candidates@, p.next as int, tried);
}

/// The configured JS source addresses worth loading: those that are not
/// blank, in order.
pub open spec fn non_blank(urls: Seq<String>) -> Seq<String>
    decreases urls.len(),
{
    if urls.len() == 0 {
        Seq::<String>::empty()
    } else {
        let rest = non_blank(urls.drop_last());
        if trimmed(urls.last()@).len() > 0 {
            rest.push(urls.last())
        } else {
            rest
        }
    }
}

/// The addresses of `urls` that are not blank, in order.
pub fn usable_source_urls(urls: &Vec<String>) -> (r: Vec<String>)
    ensures
        r@ == non_blank(urls@),
{
    let mut out: Vec<String> = Vec::new();
    let mut i: usize = 0;
    while i < urls.len()
        invariant
            i <= urls@.len(),
            out@ == non_blank(urls@.take(i as int)),
        decreases urls.len() - i,
    {
        assert(urls@.take(i + 1).drop_last() =~= urls@.take(i as int));
        let blank = trim(urls[i].as_str()).unicode_len() == 0;
        if !blank {
            out.push(urls[i].clone());
        }
        i = i + 1;
    }
    assert(urls@.take(urls@.len() as int) =~= urls@);
    out
}

/// What to do next while the JS sources load.
#[derive(Debug, Clone, PartialEq, Eq)]
pub enum SourceLoadStep {
    /// Load the source at this address.
    Load(String),
    /// A source loaded and is in use: tell the user.
    Ready(Notification),
    /// Stop: a newer request took over.
    Stop,
    /// None loaded: drop the sources in use (if this is still the latest
    /// request) and report through `finish`.
    Clear,
}

/// Loading the configured JS sources one after another until one loads.
pub struct SourceLoad {
    pub urls: Vec<String>,
    pub next: usize,
    pub last_error: Option<String>,
}

/// `q` and `r` follow moving on from `p`: the next address is loaded, or
/// with none left the sources are cleared.
pub open spec fn moved_on(p: SourceLoad, q: SourceLoad, r: SourceLoadStep) -> bool {
    if p.next < p.urls@.len() {
        r == SourceLoadStep::Load(p.urls@[p.next as int]) && q == SourceLoad {
            next: (p.next + 1) as usize,
            ..p
        }
    } else {
        r == SourceLoadStep::Clear && q == p
    }
}

impl SourceLoad {
    /// Starts loading the non-blank addresses of `urls`, in order.
    pub fn begin(urls: &Vec<String>) -> (r: (SourceLoad, SourceLoadStep))
        ensures
            r.0.urls@.len() == 0 ==> r.1 == SourceLoadStep::Clear && r.0.next == 0,
            r.0.urls@.len() > 0 ==> r.1 == SourceLoadStep::Load(r.0.urls@[0]) && r.0.next == 1,
            r.0.urls@ == non_blank(urls@),
            r.0.last_error is None,
    {
        let usable = usable_source_urls(urls);
        let mut load = SourceLoad { urls: usable, next: 0, last_error: None };
        let step = load.move_on();
        (load, step)
    }

    fn move_on(&mut self) -> (r: SourceLoadStep)
        ensures
            moved_on(*old(self), *final(self), r),
    {
        if self.next < self.urls.len() {
            let url = self.urls[self.next].clone();
            self.next = self.next + 1;
            SourceLoadStep::Load(url)
        } else {
            SourceLoadStep::Clear
        }
    }

    /// The last address loaded; `in_use` tells whether it was put in use
    /// (it is not when a newer request took over).
    pub fn loaded(&mut self, in_use: bool) -> (r: SourceLoadStep)
        ensures
            *final(self) == *old(self),
            in_use ==> r is Ready && r->Ready_0.level == NotificationLevel::Success
                && r->Ready_0.message@ == "JS 音源已就绪"@,
            !in_use ==> r == SourceLoadStep::Stop,
    {
        proof {
            reveal_strlit("JS 音源已就绪");
        }
        if in_use {
            SourceLoadStep::Ready(Notification::success(String::from_str("JS 音源已就绪")))
        } else {
            SourceLoadStep::Stop
        }
    }

    /// The last address failed with `error`; `current` tells whether this
    /// is still the latest request.
    pub fn failed(&mut self, error: String, current: bool) -> (r: SourceLoadStep)
        ensures
            !current ==> r == SourceLoadStep::Stop && *final(self) == *old(self),
            current ==> moved_on(SourceLoad { last_error: Some(error), ..*old(self) }, *final(self), r),
    {
        if !current {
            return SourceLoadStep::Stop;
        }
        self.last_error = Some(error);
        self.move_on()
    }

    /// After clearing: when the sources were cleared (`cleared`) and some
    /// address failed, the last failure is reported.
    pub fn finish(&self, cleared: bool) -> (r: Option<Notification>)
        ensures
            cleared && self.last_error is Some ==> r is Some && r->0.level == NotificationLevel::Error
                && r->0.message@ == "没有可用的 JS 音源: "@ + self.last_error->0@,
            !(cleared && self.last_error is Some) ==> r is None,
    {
        if !cleared {
            return None;
        }
        match &self.last_error {
            Some(e) => Some(Notification::error(joined("没有可用的 JS 音源: ", e.as_str()))),
            None => None,
        }
    }
}

/// The texts of `items` one after another, `separator` between two.
pub open spec fn joined_with(items: Seq<String>, separator: Seq<char>) -> Seq<char>
    decreases items.len(),
{
    if items.len() == 0 {
        Seq::<char>::empty()
    } else if items.len() == 1 {
        items[0]@
    } else {
        joined_with(items.drop_last(), separator) + separator + items.last()@
    }
}

/// The texts of `items` with `separator` between two.
pub fn join_with(items: &Vec<String>, separator: &str) -> (r: String)
    ensures
        r@ == joined_with(items@, separator@),
{
    let mut out = String::new();
    let mut i: usize = 0;
    while i < items.len()
        invariant
            i <= items@.len(),
            out@ == joined_with(items@.take(i as int), separator@),
        decreases items.len() - i,
    {
        assert(items@.take(i + 1).drop_last() =~= items@.take(i as int));
        if i > 0 {
            out.append(separator);
        }
        out.append(items[i].as_str());
        i = i + 1;
        assert(i == 1 ==> items@.take(i as int)[0] == items@[0]);
    }
    assert(items@.take(items@.len() as int) =~= items@);
    out
}

/// What a finished scan of the local music reports: with no error, the
/// number of songs found (as a status line and a success notification);
/// else the errors (joined in the status line, one error notification
/// each).
pub fn scan_report(errors: &Vec<String>, count: usize) -> (r: (String, Vec<Notification>))
    ensures
        errors@.len() == 0 ==> r.0@ == "扫描完成，共 "@ + decimal_digits(count as nat) + " 首"@
            && r.1@.len() == 1 && r.1@[0].level == NotificationLevel::Success && r.1@[0].message@
            == "本地音乐扫描完成，共 "@ + decimal_digits(count as nat) + " 首"@,
        errors@.len() > 0 ==> r.0@ == "扫描错误: "@ + joined_with(errors@, "; "@) && r.1@.len()
            == errors@.len() && forall|i: int|
            0 <= i < errors@.len() ==> (#[trigger] r.1@[i]).level == NotificationLevel::Error
                && r.1@[i].message == errors@[i],
{
    if errors.len() == 0 {
        let digits = decimal(count as u64);
        let mut status = joined("扫描完成，共 ", digits.as_str());
        status.append(" 首");
        let mut note = joined("本地音乐扫描完成，共 ", digits.as_str());
        note.append(" 首");
        let mut notes: Vec<Notification> = Vec::new();
        notes.push(Notification::success(note));
        return (status, notes);
    }
    let list = join_with(errors, "; ");
    let status = joined("扫描错误: ", list.as_str());
    let mut notes: Vec<Notification> = Vec::new();
    let mut i: usize = 0;
    while i < errors.len()
        invariant
            i <= errors@.len(),
            notes@.len() == i,
            forall|k: int|
                0 <= k < i ==> (#[trigger] notes@[k]).level == NotificationLevel::Error
                    && notes@[k].message == errors@[k],
        decreases errors.len() - i,
    {
        notes.push(Notification::error(errors[i].clone()));
        i = i + 1;
    }
    (status, notes)
}

/// An entry of a song's context menu.
#[derive(Debug, Clone, Copy, PartialEq, Eq, Structural)]
pub enum SongMenuAction {
    Play,
    PlayNext,
    AddToQueue,
    ToggleFavorite,
    RemoveFromQueue,
    DeleteLocal,
}

/// What a chosen menu entry asks of the application.
#[derive(Debug, Clone, PartialEq, Eq)]
pub enum MenuEffect {
    Action(AppAction),
    /// Remove the song from the favorites (`remove`) or add it, and say so.
    ToggleFavorite { song: SongInfo, remove: bool, note: Notification },
    /// Remove the queued song at `index`, and say so.
    RemoveFromQueue { index: usize, note: Notification },
    /// Ask whether to delete the file at `path` (a song called `name`).
    ConfirmDelete { name: String, path: String },
    /// Tell the user the song has no file to delete.
    NoFilePath(Notification),
}

/// What menu entry `action` does for the song at `index` of `songs`
/// (the list the menu was opened on); `favorite` tells whether that song
/// is among the favorites.
pub fn menu_effect(action: SongMenuAction, songs: &Vec<SongInfo>, index: usize, favorite: bool) -> (r:
    MenuEffect)
    requires
        index < songs@.len(),
    ensures
        ({
            let song = songs@[index as int];
            match action {
                SongMenuAction::Play => r is Action && r->Action_0 is PlaySong
                    && r->Action_0->songs@ == songs@ && r->Action_0->index == index,
                SongMenuAction::PlayNext => r == MenuEffect::Action(
                    AppAction::AddToQueue { song, position: InsertPosition::Next },
                ),
                SongMenuAction::AddToQueue => r == MenuEffect::Action(
                    AppAction::AddToQueue { song, position: InsertPosition::End },
                ),
                SongMenuAction::ToggleFavorite => r matches MenuEffect::ToggleFavorite {
                    song: s,
                    remove,
                    note,
                } && s == song && remove == favorite && note.level == NotificationLevel::Success
                    && note.message@ == if favorite {
                    "已取消收藏"@
                } else {
                    "已添加收藏"@
                },
                SongMenuAction::RemoveFromQueue => r matches MenuEffect::RemoveFromQueue {
                    index: i,
                    note,
                } && i == index && note.level == NotificationLevel::Success && note.message@
                    == "已从队列移除: "@ + song.name@,
                SongMenuAction::DeleteLocal => match song.file_path {
                    Some(path) => r == (MenuEffect::ConfirmDelete { name: song.name, path }),
                    None => r is NoFilePath && r->NoFilePath_0.level == NotificationLevel::Error
                        && r->NoFilePath_0.message@ == "无法删除：没有本地文件路径"@,
                },
            }
        }),
{
    let song = &songs[index];
    proof {
        reveal_strlit("已取消收藏");
        reveal_strlit("已添加收藏");
        reveal_strlit("无法删除：没有本地文件路径");
    }
    match action {
        SongMenuAction::Play => MenuEffect::Action(
            AppAction::PlaySong { songs: copy_songs(songs), index },
        ),
        SongMenuAction::PlayNext => MenuEffect::Action(
            AppAction::AddToQueue { song: song.duplicate(), position: InsertPosition::Next },
        ),
        SongMenuAction::AddToQueue => MenuEffect::Action(
            AppAction::AddToQueue { song: song.duplicate(), position: InsertPosition::End },
        ),
        SongMenuAction::ToggleFavorite => {
            let text = if favorite {
                String::from_str("已取消收藏")
            } else {
                String::from_str("已添加收藏")
            };
            MenuEffect::ToggleFavorite {
                song: song.duplicate(),
                remove: favorite,
                note: Notification::success(text),
            }
        },
        SongMenuAction::RemoveFromQueue => MenuEffect::RemoveFromQueue {
            index,
            note: Notification::success(joined("已从队列移除: ", song.name.as_str())),
        },
        SongMenuAction::DeleteLocal => match &song.file_path {
            Some(path) => MenuEffect::ConfirmDelete { name: song.name.clone(), path: path.clone() },
            None => MenuEffect::NoFilePath(
                Notification::error(String::from_str("无法删除：没有本地文件路径")),
            ),
        },
    }
}

} // verus!
