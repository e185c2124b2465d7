//! The search page: a typed keyword, a choice of sources, pages of
//! results loaded one after another, and a picker between the same track
//! found on several sources.
use vstd::prelude::*;
use std::time::Instant;
use crate::clock::{elapsed_since, instant_now, nanos_of};
use crate::input::{
    KeyCode, KeyEvent, MOD_CONTROL, MOD_NONE, MOD_SHIFT, MouseButton, MouseEvent, MouseEventKind,
    control_or_alt, has_control_or_alt,
};
use crate::layout::{
    Constraint, Direction, Rect, laid_out, bordered_inner, bottom_of, equal_columns, first_hit,
    hit_index, inner_of, inside, sat_add16, split,
};
use crate::listnav::{ensure_visible, last_index, min_int, sat_sub, step_up, select_up, page_down, visible_offset};
use crate::model::{AppAction, InsertPosition, SearchResult, SongInfo, SourceId, copy_songs, joined, source_code};
use crate::text::{decimal, decimal_digits, contains_str, has_infix, normalize, normalized, pop_char, push_char, trim, trimmed};

verus! {

/// The search scopes in the order the tab row shows them: all sources,
/// then kw, kg, tx, mg, wy and local.
pub open spec fn scope_at(index: int) -> Option<Option<SourceId>> {
    if index == 0 {
        Some(None)
    } else if index == 1 {
        Some(Some(SourceId::Kw))
    } else if index == 2 {
        Some(Some(SourceId::Kg))
    } else if index == 3 {
        Some(Some(SourceId::Tx))
    } else if index == 4 {
        Some(Some(SourceId::Mg))
    } else if index == 5 {
        Some(Some(SourceId::Wy))
    } else if index == 6 {
        Some(Some(SourceId::Local))
    } else {
        None
    }
}

/// The number of search scopes.
pub const SCOPE_COUNT: usize = 7;

/// The position of a scope in the tab row.
pub open spec fn scope_index(scope: Option<SourceId>) -> int {
    match scope {
        None => 0,
        Some(SourceId::Kw) => 1,
        Some(SourceId::Kg) => 2,
        Some(SourceId::Tx) => 3,
        Some(SourceId::Mg) => 4,
        Some(SourceId::Wy) => 5,
        Some(SourceId::Local) => 6,
    }
}

/// The scope at `index` of the tab row, if there is one.
pub fn search_scope(index: usize) -> (r: Option<Option<SourceId>>)
    ensures
        r == scope_at(index as int),
{
    if index == 0 {
        Some(None)
    } else if index == 1 {
        Some(Some(SourceId::Kw))
    } else if index == 2 {
        Some(Some(SourceId::Kg))
    } else if index == 3 {
        Some(Some(SourceId::Tx))
    } else if index == 4 {
        Some(Some(SourceId::Mg))
    } else if index == 5 {
        Some(Some(SourceId::Wy))
    } else if index == 6 {
        Some(Some(SourceId::Local))
    } else {
        None
    }
}

/// The position of `scope` in the tab row.
pub fn search_scope_index(scope: Option<SourceId>) -> (r: usize)
    ensures
        r == scope_index(scope),
        r < SCOPE_COUNT,
        scope_at(r as int) == Some(scope),
{
    match scope {
        None => 0,
        Some(SourceId::Kw) => 1,
        Some(SourceId::Kg) => 2,
        Some(SourceId::Tx) => 3,
        Some(SourceId::Mg) => 4,
        Some(SourceId::Wy) => 5,
        Some(SourceId::Local) => 6,
    }
}

/// The caption of the scope tab at `index`: its full name when the row
/// is `wide`, else the source code ("all" for every source).
pub open spec fn scope_caption(index: int, wide: bool) -> Seq<char> {
    if wide {
        if index == 0 {
            "全部"@
        } else if index == 1 {
            "酷我 kw"@
        } else if index == 2 {
            "酷狗 kg"@
        } else if index == 3 {
            "QQ tx"@
        } else if index == 4 {
            "咪咕 mg"@
        } else if index == 5 {
            "网易 wy"@
        } else {
            "本地 local"@
        }
    } else {
        match scope_at(index) {
            Some(Some(source)) => source_code(source),
            _ => "all"@,
        }
    }
}

/// The caption of the scope tab at `index` (one of the seven tabs);
/// full names need a row at least 66 columns wide.
pub fn scope_tab_label(index: usize, wide: bool) -> (r: &'static str)
    requires
        index < SCOPE_COUNT,
    ensures
        r@ == scope_caption(index as int, wide),
{
    proof {
        reveal_strlit("全部");
        reveal_strlit("酷我 kw");
        reveal_strlit("酷狗 kg");
        reveal_strlit("QQ tx");
        reveal_strlit("咪咕 mg");
        reveal_strlit("网易 wy");
        reveal_strlit("本地 local");
        reveal_strlit("all");
    }
    if wide {
        if index == 0 {
            "全部"
        } else if index == 1 {
            "酷我 kw"
        } else if index == 2 {
            "酷狗 kg"
        } else if index == 3 {
            "QQ tx"
        } else if index == 4 {
            "咪咕 mg"
        } else if index == 5 {
            "网易 wy"
        } else {
            "本地 local"
        }
    } else {
        match search_scope(index) {
            Some(Some(source)) => source.as_str(),
            _ => "all",
        }
    }
}

/// The title of the keyword box: the scope and whether a keyword is
/// being typed.
pub open spec fn input_caption(p: SearchPage) -> Seq<char> {
    "搜索 · "@ + match p.source_filter {
        Some(source) => source_code(source),
        None => "全部音源"@,
    } + " · "@ + if p.input_mode {
        "INSERT"@
    } else {
        "NORMAL"@
    }
}

/// The title of the result box: searching, the failure, or how many
/// results are shown of how many and whether more are coming.
pub open spec fn results_caption(p: SearchPage) -> Seq<char> {
    if p.is_searching && p.results@.len() == 0 {
        "搜索中"@
    } else if p.error_message is Some {
        "搜索失败 - "@ + p.error_message->0@
    } else {
        "搜索结果 "@ + decimal_digits(p.results@.len()) + "/"@ + decimal_digits(p.total as nat)
            + if p.is_searching {
            " · 正在加载更多"@
        } else if p.has_more {
            " · 还有更多"@
        } else {
            ""@
        } + " · v 选择音源"@
    }
}

/// The title of the variant picker: the selected result's name, if any.
pub open spec fn picker_caption(p: SearchPage) -> Seq<char> {
    if p.selected < p.results@.len() {
        " 选择音源 · "@ + p.results@[p.selected as int].name@ + " "@
    } else {
        " 选择音源 "@
    }
}

/// State of the search page.
pub struct SearchPage {
    pub input: String,
    pub results: Vec<SongInfo>,
    pub selected: usize,
    pub scroll_offset: usize,
    pub last_input_time: Instant,
    pub last_searched_input: String,
    pub is_searching: bool,
    pub result_keyword: String,
    pub total: u32,
    pub has_more: bool,
    pub error_message: Option<String>,
    pub current_page: u32,
    pub input_mode: bool,
    pub source_filter: Option<SourceId>,
    pub result_source_filter: Option<SourceId>,
    pub variant_indices: Vec<usize>,
    pub variant_selected: usize,
    pub wrap_navigation: bool,
    pub scroll_amount: usize,
}

/// More results can be asked for: the last search has more, none is
/// running, and the typed keyword and scope are those of the results
/// shown, which come from at least one loaded page; and a further page
/// number exists.
pub open spec fn more_available(p: SearchPage) -> bool {
    &&& p.has_more && !p.is_searching && trimmed(p.input@) == p.result_keyword@ && p.source_filter
        == p.result_source_filter && p.current_page > 0
    &&& p.current_page < u32::MAX
}

/// A further page `page` of `keyword` over `scope` is taken up: no
/// search runs, the results shown are of `keyword`, the scope is still
/// `scope`, and `page` follows the last page loaded.
pub open spec fn more_wanted(p: SearchPage, keyword: Seq<char>, page: int, scope: Option<SourceId>) -> bool {
    !p.is_searching && p.result_keyword@ == keyword && p.source_filter == scope && page
        == p.current_page + 1
}

/// Whether two songs are the same track: equal non-empty normalized
/// titles, singers equal or one holding the other (or one unknown), and
/// durations within eight seconds (or one unknown).
pub open spec fn same_track_spec(left: SongInfo, right: SongInfo) -> bool {
    let ln = normalized(left.name@);
    let rn = normalized(right.name@);
    let ls = normalized(left.singer@);
    let rs = normalized(right.singer@);
    let ld = left.duration_secs as int;
    let rd = right.duration_secs as int;
    &&& ln.len() > 0 && ln == rn
    &&& ls.len() == 0 || rs.len() == 0 || ls == rs || has_infix(ls, rs) || has_infix(rs, ls)
    &&& ld == 0 || rd == 0 || (ld - rd <= 8 && rd - ld <= 8)
}

/// Being the same track does not depend on which song is asked about
/// first.
pub proof fn lemma_same_track_symmetric(a: SongInfo, b: SongInfo)
    ensures
        same_track_spec(a, b) == same_track_spec(b, a),
{
}

/// Two songs with the same non-empty normalized title, at least one of
/// whose durations is unknown, are the same track when either normalized
/// singer occurs in the other (either way round).
pub proof fn lemma_same_track_when_singers_nest(a: SongInfo, b: SongInfo)
    requires
        normalized(a.name@).len() > 0,
        normalized(a.name@) == normalized(b.name@),
        a.duration_secs == 0 || b.duration_secs == 0,
        has_infix(normalized(a.singer@), normalized(b.singer@)) || has_infix(
            normalized(b.singer@),
            normalized(a.singer@),
        ),
    ensures
        same_track_spec(a, b),
        same_track_spec(b, a),
{
}

/// Whether two songs are the same track.
pub fn same_track(left: &SongInfo, right: &SongInfo) -> (r: bool)
    ensures
        r == same_track_spec(*left, *right),
{
    let left_name = normalize(left.name.as_str());
    let right_name = normalize(right.name.as_str());
    if left_name.unicode_len() == 0 || left_name != right_name {
        return false;
    }
    let left_singer = normalize(left.singer.as_str());
    let right_singer = normalize(right.singer.as_str());
    let singer_matches = left_singer.unicode_len() == 0 || right_singer.unicode_len() == 0
        || left_singer == right_singer || contains_str(left_singer.as_str(), right_singer.as_str())
        || contains_str(right_singer.as_str(), left_singer.as_str());
    if !singer_matches {
        return false;
    }
    let ld = left.duration_secs;
    let rd = right.duration_secs;
    ld == 0 || rd == 0 || (if ld >= rd {
        ld - rd <= 8
    } else {
        rd - ld <= 8
    })
}

/// Some index of `indices` names a result from `source`.
pub open spec fn source_taken(results: Seq<SongInfo>, indices: Seq<usize>, source: SourceId) -> bool {
    exists|k: int| 0 <= k < indices.len() && results[#[trigger] indices[k] as int].source == source
}

/// The indices, among the first `n` results, of the tracks equal to
/// `target`, keeping only the first one from each source.
pub open spec fn variants_upto(results: Seq<SongInfo>, target: SongInfo, n: int) -> Seq<usize>
    decreases n,
{
    if n <= 0 {
        Seq::<usize>::empty()
    } else {
        let prev = variants_upto(results, target, n - 1);
        let song = results[n - 1];
        if same_track_spec(target, song) && !source_taken(results, prev, song.source) {
            prev.push((n - 1) as usize)
        } else {
            prev
        }
    }
}

/// The variants of the selected result: each source's first copy of
/// the same track; none when nothing is selected.
pub open spec fn variants_of(results: Seq<SongInfo>, selected: int) -> Seq<usize> {
    if 0 <= selected < results.len() {
        variants_upto(results, results[selected], results.len() as int)
    } else {
        Seq::<usize>::empty()
    }
}

proof fn lemma_variants_in_range(results: Seq<SongInfo>, target: SongInfo, n: int)
    requires
        n <= results.len(),
    ensures
        forall|k: int|
            0 <= k < variants_upto(results, target, n).len() ==> #[trigger] variants_upto(
                results,
                target,
                n,
            )[k] < n,
        variants_upto(results, target, n).len() <= if n > 0 {
            n
        } else {
            0
        },
    decreases n,
{
    if n > 0 {
        lemma_variants_in_range(results, target, n - 1);
    }
}

/// Each source occurs at most once among the variants.
pub proof fn lemma_variants_one_per_source(results: Seq<SongInfo>, target: SongInfo, n: int)
    requires
        n <= results.len(),
        results.len() <= usize::MAX,
    ensures
        forall|a: int, b: int|
            0 <= a < b < variants_upto(results, target, n).len() ==> results[variants_upto(
                results,
                target,
                n,
            )[a] as int].source != results[variants_upto(results, target, n)[b] as int].source,
    decreases n,
{
    if n > 0 {
        lemma_variants_one_per_source(results, target, n - 1);
        lemma_variants_in_range(results, target, n - 1);
        let prev = variants_upto(results, target, n - 1);
        let song = results[n - 1];
        if same_track_spec(target, song) && !source_taken(results, prev, song.source) {
            let cur = prev.push((n - 1) as usize);
            assert forall|a: int, b: int| 0 <= a < b < cur.len() implies results[cur[a] as int].source
                != results[cur[b] as int].source by {
                assert(cur[a] == prev[a]);
                if b < prev.len() {
                    assert(cur[b] == prev[b]);
                } else {
                    assert(cur[b] as int == n - 1);
                    if results[prev[a] as int].source == song.source {
                        assert(source_taken(results, prev, song.source));
                    }
                }
            }
        }
    }
}

proof fn lemma_taken_grows(results: Seq<SongInfo>, indices: Seq<usize>, extra: usize, source: SourceId)
    requires
        source_taken(results, indices, source),
    ensures
        source_taken(results, indices.push(extra), source),
{
    let k = choose|k: int| 0 <= k < indices.len() && results[#[trigger] indices[k] as int].source == source;
    assert(indices.push(extra)[k] == indices[k]);
}

proof fn lemma_source_kept(results: Seq<SongInfo>, target: SongInfo, s: int, n: int)
    requires
        0 <= s < n <= results.len(),
        results.len() <= usize::MAX,
        same_track_spec(target, results[s]),
    ensures
        source_taken(results, variants_upto(results, target, n), results[s].source),
    decreases n,
{
    let prev = variants_upto(results, target, n - 1);
    if n - 1 == s {
        if !source_taken(results, prev, results[s].source) {
            let cur = prev.push(s as usize);
            assert(cur[prev.len() as int] as int == s);
            assert(source_taken(results, cur, results[s].source));
        }
    } else {
        lemma_source_kept(results, target, s, n - 1);
        let song = results[n - 1];
        if same_track_spec(target, song) && !source_taken(results, prev, song.source) {
            lemma_taken_grows(results, prev, (n - 1) as usize, results[s].source);
        }
    }
}

/// The variants of a selected result with a name always offer its own
/// source: the picker holds the result itself or an earlier copy of the
/// same track from that source.
pub proof fn lemma_selected_source_offered(results: Seq<SongInfo>, selected: int)
    requires
        0 <= selected < results.len(),
        results.len() <= usize::MAX,
        normalized(results[selected].name@).len() > 0,
    ensures
        source_taken(results, variants_of(results, selected), results[selected].source),
{
    lemma_source_kept(results, results[selected], selected, results.len() as int);
}

/// The indices of the results that are the same track as the selected
/// one, one per source, first ones first.
pub fn matching_variant_indices(results: &Vec<SongInfo>, selected: usize) -> (r: Vec<usize>)
    ensures
        r@ == variants_of(results@, selected as int),
{
    if selected >= results.len() {
        return Vec::new();
    }
    let target = &results[selected];
    let mut out: Vec<usize> = Vec::new();
    let mut seen: Vec<SourceId> = Vec::new();
    let mut i: usize = 0;
    while i < results.len()
        invariant
            i <= results@.len(),
            selected < results@.len(),
            *target == results@[selected as int],
            out@ == variants_upto(results@, *target, i as int),
            seen@.len() == out@.len(),
            forall|k: int| 0 <= k < out@.len() ==> #[trigger] seen@[k] == results@[out@[k] as int].source,
            forall|k: int| 0 <= k < out@.len() ==> #[trigger] out@[k] < i,
        decreases results.len() - i,
    {
        let song = &results[i];
        if same_track(target, song) {
            let mut taken = false;
            let mut k: usize = 0;
            while k < seen.len()
                invariant
                    k <= seen@.len(),
                    seen@.len() == out@.len(),
                    taken == exists|j: int| 0 <= j < k && seen@[j] == song.source,
                decreases seen.len() - k,
            {
                if seen[k] == song.source {
                    taken = true;
                }
                k = k + 1;
            }
            proof {
                if taken {
                    let j = choose|j: int| 0 <= j < seen@.len() && seen@[j] == song.source;
                    assert(results@[out@[j] as int].source == song.source);
                    assert(source_taken(results@, out@, song.source));
                } else {
                    assert forall|j: int| 0 <= j < out@.len() implies results@[#[trigger] out@[
                        j
                    ] as int].source != song.source by {
                        assert(seen@[j] == results@[out@[j] as int].source);
                    }
                }
            }
            if !taken {
                out.push(i);
                seen.push(song.source);
            }
        }
        i = i + 1;
    }
    out
}

/// The position of `value` in `items`, or 0 when it is absent.
pub open spec fn position_or_zero(items: Seq<usize>, value: usize) -> int {
    if exists|k: int| 0 <= k < items.len() && items[k] == value {
        choose|k: int|
            0 <= k < items.len() && items[k] == value && forall|j: int|
                0 <= j < k ==> items[j] != value
    } else {
        0
    }
}

/// The position of `value` in `items`, or 0 when it is absent.
pub fn position_of(items: &Vec<usize>, value: usize) -> (r: usize)
    ensures
        (exists|k: int| 0 <= k < items@.len() && items@[k] == value) ==> r < items@.len()
            && items@[r as int] == value && forall|j: int| 0 <= j < r ==> items@[j] != value,
        !(exists|k: int| 0 <= k < items@.len() && items@[k] == value) ==> r == 0,
{
    let mut i: usize = 0;
    while i < items.len()
        invariant
            i <= items@.len(),
            forall|j: int| 0 <= j < i ==> items@[j] != value,
        decreases items.len() - i,
    {
        if items[i] == value {
            return i;
        }
        i = i + 1;
    }
    0
}

/// The results after appending `items`, skipping songs whose id and
/// source are already among them.
pub open spec fn appended_unique(results: Seq<SongInfo>, items: Seq<SongInfo>) -> Seq<SongInfo>
    decreases items.len(),
{
    if items.len() == 0 {
        results
    } else {
        let before = appended_unique(results, items.drop_last());
        let song = items.last();
        if exists|k: int|
            0 <= k < before.len() && before[k].id@ == song.id@ && before[k].source == song.source {
            before
        } else {
            before.push(song)
        }
    }
}

/// What a key does while the variant picker is open.
#[derive(Debug, Clone, Copy, PartialEq, Eq, Structural)]
pub enum VariantCommand {
    Close,
    Up,
    Down,
    First,
    Last,
    Add(InsertPosition),
    Play,
    Ignore,
}

/// The picker command a key stands for.
pub open spec fn variant_command(key: KeyEvent) -> VariantCommand {
    let m = key.modifiers;
    let c = key.code;
    if m == MOD_NONE && (c == KeyCode::Esc || c == KeyCode::Char('v')) {
        VariantCommand::Close
    } else if m == MOD_NONE && (c == KeyCode::Up || c == KeyCode::Left || c == KeyCode::Char('e')) {
        VariantCommand::Up
    } else if m == MOD_NONE && (c == KeyCode::Down || c == KeyCode::Right || c == KeyCode::Char(
        'n',
    )) {
        VariantCommand::Down
    } else if m == MOD_NONE && (c == KeyCode::Home || c == KeyCode::Char('g')) {
        VariantCommand::First
    } else if (m == MOD_NONE && (c == KeyCode::End || c == KeyCode::Char('G'))) || (m == MOD_SHIFT
        && c == KeyCode::Char('G')) {
        VariantCommand::Last
    } else if m == MOD_NONE && c == KeyCode::Char('a') {
        VariantCommand::Add(InsertPosition::End)
    } else if (m == MOD_NONE || m == MOD_SHIFT) && c == KeyCode::Char('A') {
        VariantCommand::Add(InsertPosition::Next)
    } else if m == MOD_NONE && c == KeyCode::Enter {
        VariantCommand::Play
    } else {
        VariantCommand::Ignore
    }
}

/// Reads a key press made while the variant picker is open.
pub fn read_variant_command(key: &KeyEvent) -> (r: VariantCommand)
    ensures
        r == variant_command(*key),
{
    let m = key.modifiers;
    let c = key.code;
    if m == MOD_NONE && (c == KeyCode::Esc || c == KeyCode::Char('v')) {
        VariantCommand::Close
    } else if m == MOD_NONE && (c == KeyCode::Up || c == KeyCode::Left || c == KeyCode::Char('e')) {
        VariantCommand::Up
    } else if m == MOD_NONE && (c == KeyCode::Down || c == KeyCode::Right || c == KeyCode::Char(
        'n',
    )) {
        VariantCommand::Down
    } else if m == MOD_NONE && (c == KeyCode::Home || c == KeyCode::Char('g')) {
        VariantCommand::First
    } else if (m == MOD_NONE && (c == KeyCode::End || c == KeyCode::Char('G'))) || (m == MOD_SHIFT
        && c == KeyCode::Char('G')) {
        VariantCommand::Last
    } else if m == MOD_NONE && c == KeyCode::Char('a') {
        VariantCommand::Add(InsertPosition::End)
    } else if (m == MOD_NONE || m == MOD_SHIFT) && c == KeyCode::Char('A') {
        VariantCommand::Add(InsertPosition::Next)
    } else if m == MOD_NONE && c == KeyCode::Enter {
        VariantCommand::Play
    } else {
        VariantCommand::Ignore
    }
}

/// `q` and `r` are what a picker command does to `p`.
pub open spec fn variant_effect(p: SearchPage, command: VariantCommand, q: SearchPage, r: AppAction) -> bool {
    let len = p.variant_indices@.len() as int;
    let vs = p.variant_selected as int;
    match command {
        VariantCommand::Close => r == AppAction::NoOp && q.variant_indices@.len() == 0 && q
            == SearchPage { variant_indices: q.variant_indices, variant_selected: 0, ..p },
        VariantCommand::Up => r == AppAction::NoOp && q == SearchPage {
            variant_selected: if vs > 0 {
                (vs - 1) as usize
            } else if p.wrap_navigation {
                last_index(len) as usize
            } else {
                p.variant_selected
            },
            ..p
        },
        VariantCommand::Down => r == AppAction::NoOp && q == SearchPage {
            variant_selected: if vs + 1 < len {
                (vs + 1) as usize
            } else if p.wrap_navigation {
                0
            } else {
                p.variant_selected
            },
            ..p
        },
        VariantCommand::First => r == AppAction::NoOp && q == SearchPage { variant_selected: 0, ..p },
        VariantCommand::Last => r == AppAction::NoOp && q == SearchPage {
            variant_selected: last_index(len) as usize,
            ..p
        },
        VariantCommand::Add(position) => q == p && if vs < len && p.variant_indices@[vs]
            < p.results@.len() {
            r == AppAction::AddToQueue {
                song: p.results@[p.variant_indices@[vs] as int],
                position,
            }
        } else {
            r == AppAction::NoOp
        },
        VariantCommand::Play => if vs < len {
            &&& r is PlaySong
            &&& r->songs@ == p.results@
            &&& r->index == p.variant_indices@[vs]
            &&& q.variant_indices@.len() == 0
            &&& q == SearchPage {
                selected: p.variant_indices@[vs],
                variant_indices: q.variant_indices,
                variant_selected: 0,
                ..p
            }
        } else {
            r == AppAction::NoOp && q == p
        },
        VariantCommand::Ignore => r == AppAction::NoOp && q == p,
    }
}

/// What a key does in the normal (not typing) mode.
#[derive(Debug, Clone, Copy, PartialEq, Eq, Structural)]
pub enum SearchCommand {
    Back,
    StartTyping,
    OpenVariants,
    Add(InsertPosition),
    Submit,
    Up,
    Down,
    First,
    Last,
    PageUp,
    PageDown,
    PreviousScope,
    NextScope,
    Ignore,
}

/// The normal-mode command a key stands for; `has_results` tells whether
/// results are shown (page keys do nothing without them).
pub open spec fn search_command(key: KeyEvent, has_results: bool) -> SearchCommand {
    let m = key.modifiers;
    let c = key.code;
    if m == MOD_NONE && c == KeyCode::Esc {
        SearchCommand::Back
    } else if m == MOD_NONE && (c == KeyCode::Char('i') || c == KeyCode::Char('/')) {
        SearchCommand::StartTyping
    } else if m == MOD_NONE && c == KeyCode::Char('v') {
        SearchCommand::OpenVariants
    } else if m == MOD_NONE && c == KeyCode::Char('a') {
        SearchCommand::Add(InsertPosition::End)
    } else if (m == MOD_NONE || m == MOD_SHIFT) && c == KeyCode::Char('A') {
        SearchCommand::Add(InsertPosition::Next)
    } else if m == MOD_NONE && c == KeyCode::Enter {
        SearchCommand::Submit
    } else if m == MOD_NONE && (c == KeyCode::Up || c == KeyCode::Char('e')) {
        SearchCommand::Up
    } else if m == MOD_NONE && (c == KeyCode::Down || c == KeyCode::Char('n')) {
        SearchCommand::Down
    } else if m == MOD_NONE && (c == KeyCode::Home || c == KeyCode::Char('g')) {
        SearchCommand::First
    } else if (m == MOD_NONE && (c == KeyCode::End || c == KeyCode::Char('G'))) || (m == MOD_SHIFT
        && c == KeyCode::Char('G')) {
        SearchCommand::Last
    } else if ((m == MOD_CONTROL && c == KeyCode::Char('u')) || (m == MOD_NONE && c
        == KeyCode::PageUp)) && has_results {
        SearchCommand::PageUp
    } else if ((m == MOD_CONTROL && c == KeyCode::Char('d')) || (m == MOD_NONE && c
        == KeyCode::PageDown)) && has_results {
        SearchCommand::PageDown
    } else if m == MOD_NONE && c == KeyCode::Left {
        SearchCommand::PreviousScope
    } else if m == MOD_NONE && c == KeyCode::Right {
        SearchCommand::NextScope
    } else {
        SearchCommand::Ignore
    }
}

/// Reads a normal-mode key press.
pub fn read_search_command(key: &KeyEvent, has_results: bool) -> (r: SearchCommand)
    ensures
        r == search_command(*key, has_results),
{
    let m = key.modifiers;
    let c = key.code;
    if m == MOD_NONE && c == KeyCode::Esc {
        SearchCommand::Back
    } else if m == MOD_NONE && (c == KeyCode::Char('i') || c == KeyCode::Char('/')) {
        SearchCommand::StartTyping
    } else if m == MOD_NONE && c == KeyCode::Char('v') {
        SearchCommand::OpenVariants
    } else if m == MOD_NONE && c == KeyCode::Char('a') {
        SearchCommand::Add(InsertPosition::End)
    } else if (m == MOD_NONE || m == MOD_SHIFT) && c == KeyCode::Char('A') {
        SearchCommand::Add(InsertPosition::Next)
    } else if m == MOD_NONE && c == KeyCode::Enter {
        SearchCommand::Submit
    } else if m == MOD_NONE && (c == KeyCode::Up || c == KeyCode::Char('e')) {
        SearchCommand::Up
    } else if m == MOD_NONE && (c == KeyCode::Down || c == KeyCode::Char('n')) {
        SearchCommand::Down
    } else if m == MOD_NONE && (c == KeyCode::Home || c == KeyCode::Char('g')) {
        SearchCommand::First
    } else if (m == MOD_NONE && (c == KeyCode::End || c == KeyCode::Char('G'))) || (m == MOD_SHIFT
        && c == KeyCode::Char('G')) {
        SearchCommand::Last
    } else if ((m == MOD_CONTROL && c == KeyCode::Char('u')) || (m == MOD_NONE && c
        == KeyCode::PageUp)) && has_results {
        SearchCommand::PageUp
    } else if ((m == MOD_CONTROL && c == KeyCode::Char('d')) || (m == MOD_NONE && c
        == KeyCode::PageDown)) && has_results {
        SearchCommand::PageDown
    } else if m == MOD_NONE && c == KeyCode::Left {
        SearchCommand::PreviousScope
    } else if m == MOD_NONE && c == KeyCode::Right {
        SearchCommand::NextScope
    } else {
        SearchCommand::Ignore
    }
}

/// `q` and `r` are what choosing the scope at `index` does to `p`: a
/// different scope (or one the results do not come from) becomes the
/// filter, closes the picker, and searches again when a keyword is typed.
pub open spec fn scope_chosen(p: SearchPage, index: int, q: SearchPage, r: AppAction) -> bool {
    match scope_at(index) {
        None => q == p && r == AppAction::NoOp,
        Some(scope) => if p.source_filter == scope && p.result_source_filter == scope {
            q == p && r == AppAction::NoOp
        } else {
            let keyword = trimmed(p.input@);
            &&& q.variant_indices@.len() == 0
            &&& if keyword.len() == 0 {
                r == AppAction::NoOp && q == SearchPage {
                    source_filter: scope,
                    error_message: None,
                    variant_indices: q.variant_indices,
                    variant_selected: 0,
                    ..p
                }
            } else {
                &&& r is Search
                &&& r->Search_keyword@ == keyword
                &&& r->Search_source == scope
                &&& q.last_searched_input@ == keyword
                &&& q == SearchPage {
                    source_filter: scope,
                    error_message: None,
                    variant_indices: q.variant_indices,
                    variant_selected: 0,
                    last_searched_input: q.last_searched_input,
                    ..p
                }
            }
        },
    }
}

/// `q` and `r` are what a normal-mode command does to `p`.
pub open spec fn command_effect(p: SearchPage, command: SearchCommand, q: SearchPage, r: AppAction) -> bool {
    let len = p.results@.len() as int;
    let s = p.selected as int;
    let keyword = trimmed(p.input@);
    let more = AppAction::SearchMore {
        keyword: p.result_keyword,
        page: (p.current_page + 1) as u32,
        source: p.source_filter,
    };
    match command {
        SearchCommand::Back => q == p && r == AppAction::GoBack,
        SearchCommand::StartTyping => r == AppAction::NoOp && q == SearchPage { input_mode: true, ..p },
        SearchCommand::OpenVariants => r == AppAction::NoOp && q.variant_indices@ == variants_of(
            p.results@,
            s,
        ) && q.variant_selected == position_or_zero(q.variant_indices@, p.selected) && q
            == SearchPage {
            variant_indices: q.variant_indices,
            variant_selected: q.variant_selected,
            ..p
        },
        SearchCommand::Add(position) => q == p && if s < len {
            r == AppAction::AddToQueue { song: p.results@[s], position }
        } else {
            r == AppAction::NoOp
        },
        SearchCommand::Submit => if keyword.len() == 0 || (p.is_searching
            && p.last_searched_input@ == keyword) {
            q == p && r == AppAction::NoOp
        } else if p.result_keyword@ == keyword && len > 0 {
            q == p && r is PlaySong && r->songs@ == p.results@ && r->index == p.selected
        } else {
            &&& r is Search
            &&& r->Search_keyword@ == keyword
            &&& r->Search_source == p.source_filter
            &&& q.last_searched_input@ == keyword
            &&& q == SearchPage {
                last_searched_input: q.last_searched_input,
                last_input_time: q.last_input_time,
                ..p
            }
        },
        SearchCommand::Up => r == AppAction::NoOp && q == SearchPage {
            selected: step_up(s, len, p.wrap_navigation) as usize,
            ..p
        },
        SearchCommand::Down => if len == 0 {
            r == AppAction::NoOp && q == p
        } else if s + 1 < len {
            r == AppAction::NoOp && q == SearchPage { selected: (s + 1) as usize, ..p }
        } else if more_available(p) {
            q == p && r == more
        } else if p.wrap_navigation {
            r == AppAction::NoOp && q == SearchPage { selected: 0, ..p }
        } else {
            r == AppAction::NoOp && q == p
        },
        SearchCommand::First => r == AppAction::NoOp && q == SearchPage { selected: 0, ..p },
        SearchCommand::Last => r == AppAction::NoOp && q == SearchPage {
            selected: last_index(len) as usize,
            ..p
        },
        SearchCommand::PageUp => r == AppAction::NoOp && q == SearchPage {
            selected: sat_sub(s, 10) as usize,
            ..p
        },
        SearchCommand::PageDown => {
            let t = min_int(s + 10, last_index(len));
            &&& q == SearchPage { selected: t as usize, ..p }
            &&& r == if t + 1 == len && more_available(p) {
                more
            } else {
                AppAction::NoOp
            }
        },
        SearchCommand::PreviousScope => scope_chosen(
            p,
            (scope_index(p.source_filter) + 6) % 7,
            q,
            r,
        ),
        SearchCommand::NextScope => scope_chosen(p, (scope_index(p.source_filter) + 1) % 7, q, r),
        SearchCommand::Ignore => q == p && r == AppAction::NoOp,
    }
}

/// What a key does while a keyword is typed.
#[derive(Debug, Clone, Copy, PartialEq, Eq, Structural)]
pub enum TypingCommand {
    Stop,
    Submit,
    Type(char),
    Erase,
    Ignore,
}

/// Esc (unmodified) stops typing, Enter (unmodified) submits, a
/// character or Backspace without control or alt types or erases.
pub open spec fn typing_command(key: KeyEvent) -> TypingCommand {
    if key.modifiers == MOD_NONE && key.code == KeyCode::Esc {
        TypingCommand::Stop
    } else if key.modifiers == MOD_NONE && key.code == KeyCode::Enter {
        TypingCommand::Submit
    } else if key.code is Char && !has_control_or_alt(key.modifiers) {
        TypingCommand::Type(key.code->Char_0)
    } else if key.code == KeyCode::Backspace && !has_control_or_alt(key.modifiers) {
        TypingCommand::Erase
    } else {
        TypingCommand::Ignore
    }
}

/// Reads a key press made while a keyword is typed.
pub fn read_typing_command(key: &KeyEvent) -> (r: TypingCommand)
    ensures
        r == typing_command(*key),
{
    if key.modifiers == MOD_NONE && key.code == KeyCode::Esc {
        return TypingCommand::Stop;
    }
    if key.modifiers == MOD_NONE && key.code == KeyCode::Enter {
        return TypingCommand::Submit;
    }
    if control_or_alt(key.modifiers) {
        return TypingCommand::Ignore;
    }
    match key.code {
        KeyCode::Char(c) => TypingCommand::Type(c),
        KeyCode::Backspace => TypingCommand::Erase,
        _ => TypingCommand::Ignore,
    }
}

/// `q` and `r` are what a typing command does to `p`.
pub open spec fn typing_effect(p: SearchPage, command: TypingCommand, q: SearchPage, r: AppAction) -> bool {
    let keyword = trimmed(p.input@);
    match command {
        TypingCommand::Stop => r == AppAction::NoOp && q == SearchPage { input_mode: false, ..p },
        TypingCommand::Submit => if keyword.len() == 0 || (p.is_searching && p.last_searched_input@
            == keyword) {
            r == AppAction::NoOp && q == p
        } else {
            &&& r is Search
            &&& r->Search_keyword@ == keyword
            &&& r->Search_source == p.source_filter
            &&& q.last_searched_input@ == keyword
            &&& q == SearchPage {
                last_searched_input: q.last_searched_input,
                last_input_time: q.last_input_time,
                ..p
            }
        },
        TypingCommand::Type(c) => r == AppAction::NoOp && q.input@ == p.input@.push(c) && q
            == SearchPage {
            input: q.input,
            last_input_time: q.last_input_time,
            error_message: None,
            ..p
        },
        TypingCommand::Erase => {
            let erased = if p.input@.len() == 0 {
                p.input@
            } else {
                p.input@.drop_last()
            };
            &&& r == AppAction::NoOp
            &&& q.input@ == erased
            &&& if trimmed(erased).len() == 0 {
                &&& q.results@.len() == 0
                &&& q.result_keyword@.len() == 0
                &&& q == SearchPage {
                    input: q.input,
                    last_input_time: q.last_input_time,
                    error_message: None,
                    results: q.results,
                    result_keyword: q.result_keyword,
                    total: 0,
                    has_more: false,
                    current_page: 0,
                    selected: 0,
                    scroll_offset: 0,
                    ..p
                }
            } else {
                q == SearchPage {
                    input: q.input,
                    last_input_time: q.last_input_time,
                    error_message: None,
                    ..p
                }
            }
        },
        TypingCommand::Ignore => r == AppAction::NoOp && q == p,
    }
}

/// The sizes asked for the rows of the search page: three rows of
/// keyword box, one of scope tabs, and the rest for the results.
pub open spec fn search_row_constraints() -> Seq<Constraint> {
    seq![Constraint::Length(3), Constraint::Length(1), Constraint::Min(0)]
}

/// The constraints of `search_row_constraints`.
pub fn search_rows() -> (r: Vec<Constraint>)
    ensures
        r@ == search_row_constraints(),
{
    let r = vec![Constraint::Length(3), Constraint::Length(1), Constraint::Min(0)];
    assert(r@ =~= search_row_constraints());
    r
}

/// Splits the page area into its three rows (`search_rows`): the
/// keyword box, the scope tabs and the result list, each as wide as the
/// page.
pub fn search_page_chunks(area: Rect) -> (r: Vec<Rect>)
    ensures
        r@.len() == 3,
        laid_out(Direction::Vertical, area, r@),
{
    let constraints = search_rows();
    split(Direction::Vertical, &constraints, area)
}

/// Splits the scope row into one tab per scope, in equal shares.
pub fn source_tab_areas(area: Rect) -> (r: Vec<Rect>)
    ensures
        r@.len() == 7,
        laid_out(Direction::Horizontal, area, r@),
{
    equal_columns(area, 7)
}

/// The width of the variant picker: four cells narrower than the page,
/// at most 92.
pub open spec fn popup_width(area: Rect) -> int {
    min_int(sat_sub(area.width as int, 4), 92)
}

/// The height of the variant picker: a row per variant and three more,
/// within the page less two rows, and at least three rows (or the page).
pub open spec fn popup_height(area: Rect, count: int) -> int {
    let wanted = min_int((count as u16) as int + 3, sat_sub(area.height as int, 2));
    let least = min_int(3, area.height as int);
    if wanted >= least {
        wanted
    } else {
        least
    }
}

/// The picker, centred on the page, stays within the cell grid.
pub open spec fn popup_fits(area: Rect, count: int) -> bool {
    &&& area.x + sat_sub(area.width as int, popup_width(area)) / 2 <= u16::MAX
    &&& area.y + sat_sub(area.height as int, popup_height(area, count)) / 2 <= u16::MAX
}

/// The rectangle of the variant picker for `count` variants.
pub open spec fn popup_rect(area: Rect, count: int) -> Rect {
    let x = area.x + sat_sub(area.width as int, popup_width(area)) / 2;
    let y = area.y + sat_sub(area.height as int, popup_height(area, count)) / 2;
    let w = popup_width(area);
    let h = popup_height(area, count);
    Rect {
        x: x as u16,
        y: y as u16,
        width: if w > u16::MAX - x {
            (u16::MAX - x) as u16
        } else {
            w as u16
        },
        height: if h > u16::MAX - y {
            (u16::MAX - y) as u16
        } else {
            h as u16
        },
    }
}

/// The rectangle of the variant picker for `count` variants, centred on
/// `area`.
pub fn variant_popup(area: Rect, count: usize) -> (r: Rect)
    requires
        popup_fits(area, count as int),
    ensures
        r == popup_rect(area, count as int),
{
    let narrowed = area.width.saturating_sub(4);
    let width: u16 = if narrowed < 92 {
        narrowed
    } else {
        92
    };
    let rows = (count as u16) as u32 + 3;
    let room = area.height.saturating_sub(2) as u32;
    let wanted = if rows < room {
        rows
    } else {
        room
    };
    let least: u32 = if area.height < 3 {
        area.height as u32
    } else {
        3
    };
    let height32 = if wanted >= least {
        wanted
    } else {
        least
    };
    assert(height32 <= area.height);
    let height = height32 as u16;
    let x = area.x + area.width.saturating_sub(width) / 2;
    let y = area.y + area.height.saturating_sub(height) / 2;
    Rect::new(x, y, width, height)
}

/// `q` and `r` are what a mouse event does to `p` while the picker is
/// closed, on a page whose rows are `chunks` (keyword box, scope tabs,
/// results) and whose scope tabs are `tabs`: a click on the keyword box
/// starts typing, a click on a scope
/// tab chooses that scope, the wheel moves the selection (asking for
/// the next page at the end), and a click on a result selects it and,
/// when `activate`, plays the results from it.
pub open spec fn page_mouse_effect(
    p: SearchPage,
    event: MouseEvent,
    chunks: Seq<Rect>,
    tabs: Seq<Rect>,
    activate: bool,
    q: SearchPage,
    r: AppAction,
) -> bool {
    let len = p.results@.len() as int;
    let column = event.column as int;
    let row = event.row as int;
    let left = event.kind == MouseEventKind::Down(MouseButton::Left);
    let tab = first_hit(tabs, column, row);
    if left && inside(chunks[0], column, row) {
        r == AppAction::NoOp && q == SearchPage { input_mode: true, ..p }
    } else if left && inside(chunks[1], column, row) && tab is Some {
        scope_chosen(SearchPage { input_mode: false, ..p }, tab->0, q, r)
    } else {
        match event.kind {
            MouseEventKind::ScrollUp => r == AppAction::NoOp && q == SearchPage {
                selected: sat_sub(p.selected as int, p.scroll_amount as int) as usize,
                ..p
            },
            MouseEventKind::ScrollDown => {
                let t = min_int(p.selected + p.scroll_amount, last_index(len));
                &&& q == SearchPage { selected: t as usize, ..p }
                &&& r == if t + 1 == len && more_available(p) {
                    AppAction::SearchMore {
                        keyword: p.result_keyword,
                        page: (p.current_page + 1) as u32,
                        source: p.source_filter,
                    }
                } else {
                    AppAction::NoOp
                }
            },
            MouseEventKind::Down(MouseButton::Left) => {
                let inner = inner_of(chunks[2]);
                let list_y = sat_add16(inner.y as int, 1);
                let index = p.scroll_offset + (row - list_y);
                if list_y <= row < bottom_of(inner) && index < len {
                    &&& q == SearchPage { input_mode: false, selected: index as usize, ..p }
                    &&& if activate {
                        r is PlaySong && r->songs@ == p.results@ && r->index == index
                    } else {
                        r == AppAction::NoOp
                    }
                } else {
                    q == p && r == AppAction::NoOp
                }
            },
            _ => q == p && r == AppAction::NoOp,
        }
    }
}

/// `q` and `r` are what a mouse event does to `p` while the picker is
/// open: the wheel moves within it, a click outside closes it, and a
/// click on a variant selects it and, when `activate`, plays it.
pub open spec fn picker_mouse_effect(
    p: SearchPage,
    event: MouseEvent,
    area: Rect,
    activate: bool,
    q: SearchPage,
    r: AppAction,
) -> bool {
    let len = p.variant_indices@.len() as int;
    let popup = popup_rect(area, len);
    let inner = inner_of(popup);
    let list_y = sat_add16(inner.y as int, 1);
    let row = event.row as int;
    let index = row - list_y;
    match event.kind {
        MouseEventKind::ScrollUp => r == AppAction::NoOp && q == SearchPage {
            variant_selected: sat_sub(p.variant_selected as int, 1) as usize,
            ..p
        },
        MouseEventKind::ScrollDown => r == AppAction::NoOp && q == SearchPage {
            variant_selected: min_int(p.variant_selected + 1, last_index(len)) as usize,
            ..p
        },
        MouseEventKind::Down(MouseButton::Left) => if !inside(popup, event.column as int, row) {
            r == AppAction::NoOp && q.variant_indices@.len() == 0 && q == SearchPage {
                variant_indices: q.variant_indices,
                variant_selected: 0,
                ..p
            }
        } else if list_y <= row < bottom_of(inner) && index < len {
            if activate {
                variant_effect(
                    SearchPage { variant_selected: index as usize, ..p },
                    VariantCommand::Play,
                    q,
                    r,
                )
            } else {
                r == AppAction::NoOp && q == SearchPage { variant_selected: index as usize, ..p }
            }
        } else {
            r == AppAction::NoOp && q == p
        },
        _ => r == AppAction::NoOp && q == p,
    }
}

impl SearchPage {
    /// An empty page searching `source_filter` (all sources when none).
    pub fn new(source_filter: Option<SourceId>, wrap_navigation: bool, scroll_amount: usize) -> (r:
        SearchPage)
        ensures
            r.input@.len() == 0,
            r.results@.len() == 0,
            r.selected == 0,
            r.scroll_offset == 0,
            r.last_searched_input@.len() == 0,
            !r.is_searching,
            r.result_keyword@.len() == 0,
            r.total == 0,
            !r.has_more,
            r.error_message is None,
            r.current_page == 0,
            !r.input_mode,
            r.source_filter == source_filter,
            r.result_source_filter is None,
            r.variant_indices@.len() == 0,
            r.variant_selected == 0,
            r.wrap_navigation == wrap_navigation,
            r.scroll_amount == if scroll_amount >= 1 {
                scroll_amount
            } else {
                1
            },
    {
        SearchPage {
            input: String::new(),
            results: Vec::new(),
            selected: 0,
            scroll_offset: 0,
            last_input_time: instant_now(),
            last_searched_input: String::new(),
            is_searching: false,
            result_keyword: String::new(),
            total: 0,
            has_more: false,
            error_message: None,
            current_page: 0,
            input_mode: false,
            source_filter,
            result_source_filter: None,
            variant_indices: Vec::new(),
            variant_selected: 0,
            wrap_navigation,
            scroll_amount: if scroll_amount >= 1 {
                scroll_amount
            } else {
                1
            },
        }
    }

    /// Whether more results can be asked for.
    pub fn can_load_more(&self) -> (r: bool)
        ensures
            r == more_available(*self),
    {
        if !self.has_more || self.is_searching || self.current_page == 0
            || self.current_page == u32::MAX || self.source_filter != self.result_source_filter {
            return false;
        }
        let keyword = trim(self.input.as_str());
        keyword == self.result_keyword
    }

    /// Whether a request for page `page` of `keyword` over `scope` is
    /// still to be made.
    pub fn accepts_more(&self, keyword: &String, page: u32, scope: Option<SourceId>) -> (r: bool)
        ensures
            r == more_wanted(*self, keyword@, page as int, scope),
    {
        !self.is_searching && self.result_keyword == *keyword && self.source_filter == scope
            && page as u64 == self.current_page as u64 + 1
    }

    /// The title of the keyword box.
    pub fn input_title(&self) -> (r: String)
        ensures
            r@ == input_caption(*self),
    {
        let mut s = String::from_str("搜索 · ");
        match self.source_filter {
            Some(source) => s.append(source.as_str()),
            None => s.append("全部音源"),
        }
        s.append(" · ");
        if self.input_mode {
            s.append("INSERT");
        } else {
            s.append("NORMAL");
        }
        proof {
            reveal_strlit("搜索 · ");
            reveal_strlit("全部音源");
            reveal_strlit(" · ");
            reveal_strlit("INSERT");
            reveal_strlit("NORMAL");
        }
        s
    }

    /// The title of the result box.
    pub fn results_title(&self) -> (r: String)
        ensures
            r@ == results_caption(*self),
    {
        proof {
            reveal_strlit("搜索中");
        }
        if self.is_searching && self.results.len() == 0 {
            return String::from_str("搜索中");
        }
        match &self.error_message {
            Some(e) => {
                return joined("搜索失败 - ", e.as_str());
            },
            None => {},
        }
        let shown = decimal(self.results.len() as u64);
        let total = decimal(self.total as u64);
        let mut s = joined("搜索结果 ", shown.as_str());
        s.append("/");
        s.append(total.as_str());
        if self.is_searching {
            s.append(" · 正在加载更多");
        } else if self.has_more {
            s.append(" · 还有更多");
        } else {
            s.append("");
        }
        s.append(" · v 选择音源");
        s
    }

    /// The title of the variant picker.
    pub fn picker_title(&self) -> (r: String)
        ensures
            r@ == picker_caption(*self),
    {
        if self.selected < self.results.len() {
            let mut s = joined(" 选择音源 · ", self.results[self.selected].name.as_str());
            s.append(" ");
            s
        } else {
            proof {
                reveal_strlit(" 选择音源 ");
            }
            String::from_str(" 选择音源 ")
        }
    }

    /// Before the results are drawn in `list_rows` rows: the first row
    /// moves so that the selection shows.
    pub fn fit_view(&mut self, list_rows: usize)
        ensures
            *final(self) == (SearchPage {
                scroll_offset: if old(self).results@.len() > 0 && list_rows > 0 {
                    visible_offset(
                        old(self).selected as int,
                        list_rows as int,
                        old(self).results@.len() as int,
                        old(self).scroll_offset as int,
                    ) as usize
                } else {
                    old(self).scroll_offset
                },
                ..*old(self)
            }),
    {
        if self.results.len() > 0 && list_rows > 0 {
            ensure_visible(self.selected, list_rows, self.results.len(), &mut self.scroll_offset);
        }
    }

    /// Closes the variant picker.
    pub fn close_variants(&mut self)
        ensures
            final(self).variant_indices@.len() == 0,
            *final(self) == (SearchPage {
                variant_indices: final(self).variant_indices,
                variant_selected: 0,
                ..*old(self)
            }),
    {
        self.variant_indices = Vec::new();
        self.variant_selected = 0;
    }

    /// Opens the variant picker on the selected result.
    pub fn open_variants(&mut self)
        ensures
            final(self).variant_indices@ == variants_of(old(self).results@, old(self).selected as int),
            final(self).variant_selected == position_or_zero(
                final(self).variant_indices@,
                old(self).selected,
            ),
            *final(self) == (SearchPage {
                variant_indices: final(self).variant_indices,
                variant_selected: final(self).variant_selected,
                ..*old(self)
            }),
    {
        self.variant_indices = matching_variant_indices(&self.results, self.selected);
        let position = position_of(&self.variant_indices, self.selected);
        self.variant_selected = position;
        proof {
            let items = self.variant_indices@;
            let value = old(self).selected;
            if exists|k: int| 0 <= k < items.len() && items[k] == value {
                let c = choose|k: int|
                    0 <= k < items.len() && items[k] == value && forall|j: int|
                        0 <= j < k ==> items[j] != value;
                assert(0 <= position < items.len() && items[position as int] == value && forall|j: int|
                    0 <= j < position ==> items[j] != value);
                if c < position {
                    assert(items[c] != value);
                }
                if position < c {
                    assert(items[position as int] != value);
                }
            }
        }
    }

    /// Chooses the scope at `index` of the tab row.
    pub fn select_source(&mut self, index: usize) -> (r: AppAction)
        ensures
            scope_chosen(*old(self), index as int, *final(self), r),
    {
        let scope = match search_scope(index) {
            Some(s) => s,
            None => return AppAction::NoOp,
        };
        if self.source_filter == scope && self.result_source_filter == scope {
            return AppAction::NoOp;
        }
        self.source_filter = scope;
        self.error_message = None;
        self.close_variants();
        let keyword = trim(self.input.as_str());
        if keyword.unicode_len() == 0 {
            AppAction::NoOp
        } else {
            self.last_searched_input = keyword.clone();
            AppAction::Search { keyword, source: self.source_filter }
        }
    }

    /// Chooses the scope before (`forward` false) or after the current one
    /// in the tab row, wrapping.
    pub fn cycle_source(&mut self, forward: bool) -> (r: AppAction)
        ensures
            scope_chosen(
                *old(self),
                if forward {
                    (scope_index(old(self).source_filter) + 1) % 7
                } else {
                    (scope_index(old(self).source_filter) + 6) % 7
                },
                *final(self),
                r,
            ),
    {
        let current = search_scope_index(self.source_filter);
        let next = if forward {
            (current + 1) % SCOPE_COUNT
        } else {
            (current + SCOPE_COUNT - 1) % SCOPE_COUNT
        };
        self.select_source(next)
    }

    /// Takes new preferences: aggregate search (all sources) or the
    /// default source, wrapping, and the rows a wheel step moves.
    pub fn set_preferences(
        &mut self,
        aggregate_search: bool,
        default_source: SourceId,
        wrap_navigation: bool,
        scroll_amount: usize,
    )
        ensures
            *final(self) == (SearchPage {
                wrap_navigation,
                scroll_amount: if scroll_amount >= 1 {
                    scroll_amount
                } else {
                    1
                },
                source_filter: if aggregate_search {
                    None
                } else {
                    Some(default_source)
                },
                ..*old(self)
            }),
    {
        self.wrap_navigation = wrap_navigation;
        self.scroll_amount = if scroll_amount >= 1 {
            scroll_amount
        } else {
            1
        };
        self.source_filter = if aggregate_search {
            None
        } else {
            Some(default_source)
        };
    }

    /// The debounced search, `waited_nanos` nanoseconds after the last
    /// key typed: once typing paused for more than 300 milliseconds, a
    /// non-blank keyword that differs from the last one searched is
    /// searched.
    pub fn tick_after(&mut self, waited_nanos: u128) -> (r: Option<AppAction>)
        ensures
            tick_effect(*old(self), waited_nanos as int, *final(self), r),
    {
        let keyword = trim(self.input.as_str());
        if keyword.unicode_len() == 0 {
            return None;
        }
        if waited_nanos > 300_000_000 && keyword != self.last_searched_input {
            self.last_searched_input = keyword.clone();
            Some(AppAction::Search { keyword, source: self.source_filter })
        } else {
            None
        }
    }

    /// The debounced search, once typing paused for more than 300
    /// milliseconds.  The time since the last key is read from the clock
    /// and handed to `tick_after`, which decides; whatever the clock
    /// reads, the outcome is that of `tick_after` for some time waited.
    pub fn tick(&mut self) -> (r: Option<AppAction>)
        ensures
            exists|waited: int|
                0 <= waited && #[trigger] tick_effect(*old(self), waited, *final(self), r),
            !debounce_may_fire(*old(self)) ==> r is None && *final(self) == *old(self),
    {
        let elapsed = elapsed_since(&self.last_input_time);
        let waited = nanos_of(&elapsed);
        let r = self.tick_after(waited);
        assert(tick_effect(*old(self), waited as int, *self, r));
        r
    }

    /// A search for `keyword` started (`append`: a further page of it).
    pub fn begin_search(&mut self, keyword: &str, append: bool)
        ensures
            final(self).last_searched_input@ == keyword@,
            final(self).variant_indices@.len() == 0,
            *final(self) == (SearchPage {
                is_searching: true,
                last_searched_input: final(self).last_searched_input,
                error_message: None,
                variant_indices: final(self).variant_indices,
                variant_selected: 0,
                current_page: if append {
                    old(self).current_page
                } else {
                    0
                },
                ..*old(self)
            }),
    {
        self.is_searching = true;
        self.last_searched_input = String::from_str(keyword);
        self.error_message = None;
        self.close_variants();
        if !append {
            self.current_page = 0;
        }
    }

    /// Takes in page `page` of the results for `keyword` over
    /// `source_filter`: appended (skipping songs already shown) or
    /// replacing what is shown.
    pub fn update_results(
        &mut self,
        keyword: String,
        page: u32,
        append: bool,
        result: SearchResult,
        source_filter: Option<SourceId>,
    )
        ensures
            final(self).results@ == if append {
                appended_unique(old(self).results@, result.items@)
            } else {
                result.items@
            },
            *final(self) == (SearchPage {
                results: final(self).results,
                selected: if append {
                    old(self).selected
                } else {
                    0
                },
                scroll_offset: if append {
                    old(self).scroll_offset
                } else {
                    0
                },
                is_searching: false,
                result_keyword: keyword,
                result_source_filter: source_filter,
                current_page: page,
                total: result.total,
                has_more: result.has_more,
                error_message: None,
                ..*old(self)
            }),
    {
        let SearchResult { items, total, has_more } = result;
        if append {
            let mut i: usize = 0;
            while i < items.len()
                invariant
                    i <= items@.len(),
                    self.results@ == appended_unique(old(self).results@, items@.take(i as int)),
                    *self == (SearchPage { results: self.results, ..*old(self) }),
                decreases items.len() - i,
            {
                assert(items@.take(i + 1).drop_last() =~= items@.take(i as int));
                let song = &items[i];
                let mut present = false;
                let mut k: usize = 0;
                while k < self.results.len()
                    invariant
                        k <= self.results@.len(),
                        present == exists|j: int|
                            0 <= j < k && self.results@[j].id@ == song.id@ && self.results@[j].source
                                == song.source,
                    decreases self.results.len() - k,
                {
                    if self.results[k].id == song.id && self.results[k].source == song.source {
                        present = true;
                    }
                    k = k + 1;
                }
                if !present {
                    self.results.push(song.duplicate());
                }
                i = i + 1;
            }
            assert(items@.take(items@.len() as int) =~= items@);
        } else {
            self.results = items;
            self.selected = 0;
            self.scroll_offset = 0;
        }
        self.is_searching = false;
        self.result_keyword = keyword;
        self.result_source_filter = source_filter;
        self.current_page = page;
        self.total = total;
        self.has_more = has_more;
        self.error_message = None;
    }

    /// A search failed with `message`.
    pub fn update_error(&mut self, message: String)
        ensures
            final(self).variant_indices@.len() == 0,
            *final(self) == (SearchPage {
                is_searching: false,
                error_message: Some(message),
                variant_indices: final(self).variant_indices,
                variant_selected: 0,
                ..*old(self)
            }),
    {
        self.is_searching = false;
        self.error_message = Some(message);
        self.close_variants();
    }

    /// Acts on a key while the variant picker is open.
    pub fn handle_variant_input(&mut self, key: &KeyEvent) -> (r: AppAction)
        ensures
            variant_effect(*old(self), variant_command(*key), *final(self), r),
    {
        let len = self.variant_indices.len();
        match read_variant_command(key) {
            VariantCommand::Close => {
                self.close_variants();
            },
            VariantCommand::Up => {
                if self.variant_selected > 0 {
                    self.variant_selected = self.variant_selected - 1;
                } else if self.wrap_navigation {
                    self.variant_selected = len.saturating_sub(1);
                }
            },
            VariantCommand::Down => {
                if self.variant_selected < len && self.variant_selected + 1 < len {
                    self.variant_selected = self.variant_selected + 1;
                } else if self.wrap_navigation {
                    self.variant_selected = 0;
                }
            },
            VariantCommand::First => {
                self.variant_selected = 0;
            },
            VariantCommand::Last => {
                self.variant_selected = len.saturating_sub(1);
            },
            VariantCommand::Add(position) => {
                if self.variant_selected < len {
                    let index = self.variant_indices[self.variant_selected];
                    if index < self.results.len() {
                        return AppAction::AddToQueue { song: self.results[index].duplicate(), position };
                    }
                }
            },
            VariantCommand::Play => {
                if self.variant_selected < len {
                    let index = self.variant_indices[self.variant_selected];
                    self.selected = index;
                    self.close_variants();
                    return AppAction::PlaySong { songs: copy_songs(&self.results), index };
                }
            },
            VariantCommand::Ignore => {},
        }
        AppAction::NoOp
    }

    /// Acts on a key while a keyword is typed.
    pub fn handle_typing(&mut self, key: &KeyEvent) -> (r: AppAction)
        ensures
            typing_effect(*old(self), typing_command(*key), *final(self), r),
    {
        match read_typing_command(key) {
            TypingCommand::Stop => {
                self.input_mode = false;
            },
            TypingCommand::Submit => {
                let keyword = trim(self.input.as_str());
                if !(keyword.unicode_len() == 0 || (self.is_searching && self.last_searched_input
                    == keyword)) {
                    self.last_input_time = instant_now();
                    self.last_searched_input = keyword.clone();
                    return AppAction::Search { keyword, source: self.source_filter };
                }
            },
            TypingCommand::Type(c) => {
                push_char(&mut self.input, c);
                self.last_input_time = instant_now();
                self.error_message = None;
            },
            TypingCommand::Erase => {
                pop_char(&mut self.input);
                self.last_input_time = instant_now();
                self.error_message = None;
                let rest = trim(self.input.as_str());
                if rest.unicode_len() == 0 {
                    self.results = Vec::new();
                    self.result_keyword = String::new();
                    self.total = 0;
                    self.has_more = false;
                    self.current_page = 0;
                    self.selected = 0;
                    self.scroll_offset = 0;
                }
            },
            TypingCommand::Ignore => {},
        }
        AppAction::NoOp
    }

    /// Acts on a key: the picker takes it when open, else the keyword
    /// when it is typed, else it is a page command.
    pub fn handle_input(&mut self, key: &KeyEvent) -> (r: AppAction)
        ensures
            old(self).variant_indices@.len() > 0 ==> variant_effect(
                *old(self),
                variant_command(*key),
                *final(self),
                r,
            ),
            old(self).variant_indices@.len() == 0 && old(self).input_mode ==> typing_effect(
                *old(self),
                typing_command(*key),
                *final(self),
                r,
            ),
            old(self).variant_indices@.len() == 0 && !old(self).input_mode ==> command_effect(
                *old(self),
                search_command(*key, old(self).results@.len() > 0),
                *final(self),
                r,
            ),
    {
        if self.variant_indices.len() > 0 {
            return self.handle_variant_input(key);
        }
        if self.input_mode {
            return self.handle_typing(key);
        }
        let len = self.results.len();
        match read_search_command(key, len > 0) {
            SearchCommand::Back => {
                return AppAction::GoBack;
            },
            SearchCommand::StartTyping => {
                self.input_mode = true;
            },
            SearchCommand::OpenVariants => {
                self.open_variants();
            },
            SearchCommand::Add(position) => {
                if self.selected < len {
                    return AppAction::AddToQueue { song: self.results[self.selected].duplicate(), position };
                }
            },
            SearchCommand::Submit => {
                let keyword = trim(self.input.as_str());
                if keyword.unicode_len() == 0 {
                    return AppAction::NoOp;
                }
                if self.is_searching && self.last_searched_input == keyword {
                    return AppAction::NoOp;
                }
                if self.result_keyword == keyword && len > 0 {
                    return AppAction::PlaySong { songs: copy_songs(&self.results), index: self.selected };
                }
                self.last_input_time = instant_now();
                self.last_searched_input = keyword.clone();
                return AppAction::Search { keyword, source: self.source_filter };
            },
            SearchCommand::Up => {
                self.selected = select_up(self.selected, len, self.wrap_navigation);
            },
            SearchCommand::Down => {
                if len > 0 {
                    if self.selected < len - 1 {
                        self.selected = self.selected + 1;
                    } else if self.can_load_more() {
                        return AppAction::SearchMore {
                            keyword: self.result_keyword.clone(),
                            page: self.current_page + 1,
                            source: self.source_filter,
                        };
                    } else if self.wrap_navigation {
                        self.selected = 0;
                    }
                }
            },
            SearchCommand::First => {
                self.selected = 0;
            },
            SearchCommand::Last => {
                self.selected = len.saturating_sub(1);
            },
            SearchCommand::PageUp => {
                self.selected = self.selected.saturating_sub(10);
            },
            SearchCommand::PageDown => {
                self.selected = page_down(self.selected, 10, len);
                if self.selected < len && self.selected + 1 == len && self.can_load_more() {
                    return AppAction::SearchMore {
                        keyword: self.result_keyword.clone(),
                        page: self.current_page + 1,
                        source: self.source_filter,
                    };
                }
            },
            SearchCommand::PreviousScope => {
                return self.cycle_source(false);
            },
            SearchCommand::NextScope => {
                return self.cycle_source(true);
            },
            SearchCommand::Ignore => {},
        }
        AppAction::NoOp
    }

    /// Acts on a mouse event over the page `area`.  With the picker open
    /// the event acts on it; else the page's rows and scope tabs are laid
    /// out by the layout solver, and whatever parts it gives, the event
    /// acts as on a page laid out so.
    pub fn handle_mouse(&mut self, event: &MouseEvent, area: Rect, activate: bool) -> (r: AppAction)
        requires
            old(self).variant_indices@.len() > 0 ==> popup_fits(
                area,
                old(self).variant_indices@.len() as int,
            ),
        ensures
            old(self).variant_indices@.len() > 0 ==> picker_mouse_effect(
                *old(self),
                *event,
                area,
                activate,
                *final(self),
                r,
            ),
            old(self).variant_indices@.len() == 0 ==> exists|chunks: Seq<Rect>, tabs: Seq<Rect>|
                chunks.len() == 3 && laid_out(Direction::Vertical, area, chunks) && tabs.len() == 7
                    && laid_out(Direction::Horizontal, chunks[1], tabs)
                    && #[trigger] page_mouse_effect(
                    *old(self),
                    *event,
                    chunks,
                    tabs,
                    activate,
                    *final(self),
                    r,
                ),
    {
        if self.variant_indices.len() > 0 {
            return self.handle_variant_mouse(event, area, activate);
        }
        let chunks = search_page_chunks(area);
        let tabs = source_tab_areas(chunks[1]);
        self.handle_mouse_on(event, &chunks, &tabs, activate)
    }

    /// Acts on a mouse event while the picker is closed, on a page whose
    /// rows are `chunks` (keyword box, scope tabs, results) and whose scope
    /// tabs are `tabs`.
    pub fn handle_mouse_on(&mut self, event: &MouseEvent, chunks: &Vec<Rect>, tabs: &Vec<Rect>, activate: bool) -> (r:
        AppAction)
        requires
            old(self).variant_indices@.len() == 0,
            chunks@.len() == 3,
        ensures
            page_mouse_effect(*old(self), *event, chunks@, tabs@, activate, *final(self), r),
    {
        let left = event.kind == MouseEventKind::Down(MouseButton::Left);
        if left && chunks[0].contains(event.column, event.row) {
            self.input_mode = true;
            return AppAction::NoOp;
        }
        if left && chunks[1].contains(event.column, event.row) {
            match hit_index(tabs, event.column, event.row) {
                Some(index) => {
                    self.input_mode = false;
                    return self.select_source(index);
                },
                None => {},
            }
        }
        let len = self.results.len();
        match event.kind {
            MouseEventKind::ScrollUp => {
                self.selected = self.selected.saturating_sub(self.scroll_amount);
            },
            MouseEventKind::ScrollDown => {
                self.selected = page_down(self.selected, self.scroll_amount, len);
                if self.selected < len && self.selected + 1 == len && self.can_load_more() {
                    return AppAction::SearchMore {
                        keyword: self.result_keyword.clone(),
                        page: self.current_page + 1,
                        source: self.source_filter,
                    };
                }
            },
            MouseEventKind::Down(MouseButton::Left) => {
                let inner = bordered_inner(chunks[2]);
                let list_y = inner.y.saturating_add(1);
                if event.row >= list_y && event.row < inner.bottom() {
                    let offset = (event.row - list_y) as usize;
                    if self.scroll_offset < len && offset < len - self.scroll_offset {
                        let index = self.scroll_offset + offset;
                        self.input_mode = false;
                        self.selected = index;
                        if activate {
                            return AppAction::PlaySong { songs: copy_songs(&self.results), index };
                        }
                    }
                }
            },
            _ => {},
        }
        AppAction::NoOp
    }

    /// Acts on a mouse event while the variant picker is open.
    fn handle_variant_mouse(&mut self, event: &MouseEvent, area: Rect, activate: bool) -> (r: AppAction)
        requires
            old(self).variant_indices@.len() > 0,
            popup_fits(area, old(self).variant_indices@.len() as int),
        ensures
            picker_mouse_effect(*old(self), *event, area, activate, *final(self), r),
    {
        let len = self.variant_indices.len();
        match event.kind {
            MouseEventKind::ScrollUp => {
                self.variant_selected = self.variant_selected.saturating_sub(1);
            },
            MouseEventKind::ScrollDown => {
                self.variant_selected = page_down(self.variant_selected, 1, len);
            },
            MouseEventKind::Down(MouseButton::Left) => {
                let popup = variant_popup(area, len);
                if !popup.contains(event.column, event.row) {
                    self.close_variants();
                    return AppAction::NoOp;
                }
                let inner = bordered_inner(popup);
                let list_y = inner.y.saturating_add(1);
                if event.row >= list_y && event.row < inner.bottom() {
                    let index = (event.row - list_y) as usize;
                    if index < len {
                        self.variant_selected = index;
                        if activate {
                            return self.handle_variant_input(&KeyEvent::new(KeyCode::Enter, MOD_NONE));
                        }
                    }
                }
            },
            _ => {},
        }
        AppAction::NoOp
    }
}

/// The debounce fires for `p` after `waited_nanos` nanoseconds without
/// typing: the keyword is not blank, typing paused for more than 300
/// milliseconds, and the keyword differs from the last one searched.
pub open spec fn debounce_fires(p: SearchPage, waited_nanos: int) -> bool {
    &&& trimmed(p.input@).len() > 0
    &&& waited_nanos > 300_000_000
    &&& trimmed(p.input@) != p.last_searched_input@
}

/// The debounce can fire for `p` at all, however long typing paused.
pub open spec fn debounce_may_fire(p: SearchPage) -> bool {
    trimmed(p.input@).len() > 0 && trimmed(p.input@) != p.last_searched_input@
}

/// `q` and `r` are what a tick `waited_nanos` nanoseconds after the last
/// key does to `p`: a search for the keyword when the debounce fires,
/// nothing otherwise.
pub open spec fn tick_effect(p: SearchPage, waited_nanos: int, q: SearchPage, r: Option<AppAction>) -> bool {
    if debounce_fires(p, waited_nanos) {
        &&& r is Some
        &&& r->0 is Search
        &&& r->0->Search_keyword@ == trimmed(p.input@)
        &&& r->0->Search_source == p.source_filter
        &&& q.last_searched_input@ == trimmed(p.input@)
        &&& q == (SearchPage { last_searched_input: q.last_searched_input, ..p })
    } else {
        r is None && q == p
    }
}

/// A further page the page asks for (after a key, in the normal mode) is
/// one the application takes up: the request it hands back is wanted by
/// the page as it is left.
pub proof fn lemma_requested_page_is_wanted(p: SearchPage, key: KeyEvent, q: SearchPage, r: AppAction)
    requires
        command_effect(p, search_command(key, p.results@.len() > 0), q, r),
        r is SearchMore,
    ensures
        more_wanted(q, r->SearchMore_keyword@, r->page as int, r->SearchMore_source),
{
}

/// A further page asked for by turning the mouse wheel is wanted too.
pub proof fn lemma_wheel_page_is_wanted(
    p: SearchPage,
    event: MouseEvent,
    chunks: Seq<Rect>,
    tabs: Seq<Rect>,
    activate: bool,
    q: SearchPage,
    r: AppAction,
)
    requires
        page_mouse_effect(p, event, chunks, tabs, activate, q, r),
        r is SearchMore,
    ensures
        more_wanted(q, r->SearchMore_keyword@, r->page as int, r->SearchMore_source),
{
}

/// Stepping to the next scope and back (or back and then on) returns to
/// the same scope, and seven steps forward go round the whole row.
pub proof fn lemma_scope_cycle(scope: Option<SourceId>)
    ensures
        scope_at((((scope_index(scope) + 1) % 7) + 6) % 7) == Some(scope),
        scope_at((((scope_index(scope) + 6) % 7) + 1) % 7) == Some(scope),
        (scope_index(scope) + 7) % 7 == scope_index(scope),
{
}

/// Once the debounce fired for a keyword, it does not fire again until
/// the keyword changes: a later tick, however long after, asks for
/// nothing.
pub proof fn lemma_debounce_fires_once(p: SearchPage, waited: int, q: SearchPage, r: Option<AppAction>, again: int)
    requires
        tick_effect(p, waited, q, r),
        r is Some,
    ensures
        !debounce_fires(q, again),
        !debounce_may_fire(q),
{
}

/// A further page appended never repeats a song already shown (same id
/// on the same source), provided the shown songs were distinct.
pub proof fn lemma_append_keeps_songs_distinct(results: Seq<SongInfo>, items: Seq<SongInfo>)
    requires
        forall|a: int, b: int|
            0 <= a < b < results.len() ==> !(results[a].id@ == results[b].id@ && results[a].source
                == results[b].source),
    ensures
        forall|a: int, b: int|
            0 <= a < b < appended_unique(results, items).len() ==> !(appended_unique(
                results,
                items,
            )[a].id@ == appended_unique(results, items)[b].id@ && appended_unique(
                results,
                items,
            )[a].source == appended_unique(results, items)[b].source),
        appended_unique(results, items).len() >= results.len(),
        appended_unique(results, items).take(results.len() as int) == results,
    decreases items.len(),
{
    if items.len() > 0 {
        lemma_append_keeps_songs_distinct(results, items.drop_last());
        let before = appended_unique(results, items.drop_last());
        let after = appended_unique(results, items);
        let song = items.last();
        if !(exists|k: int|
            0 <= k < before.len() && before[k].id@ == song.id@ && before[k].source == song.source) {
            assert forall|a: int, b: int| 0 <= a < b < after.len() implies !(after[a].id@
                == after[b].id@ && after[a].source == after[b].source) by {
                if b == before.len() {
                    assert(after[a] == before[a]);
                }
            }
            assert(after.take(results.len() as int) =~= before.take(results.len() as int));
        }
    }
}

} // verus!
