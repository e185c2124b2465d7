//! The favorites page: the saved songs, narrowed by a typed filter that
//! matches title, singer, album or source.
use vstd::prelude::*;
use crate::input::{
    KeyCode, KeyEvent, MOD_CONTROL, MOD_NONE, MOD_SHIFT, MouseButton, MouseEvent, MouseEventKind,
    activates, control_or_alt, has_control_or_alt, is_song_activation_key,
};
use crate::layout::{Rect, bordered_inner, bottom_of, inner_of};
use crate::listnav::{ensure_visible, visible_offset, last_index, min_int, sat_sub, step_down, step_up, select_down, select_up, page_down};
use crate::model::{Action, AppAction, InsertPosition, Notification, SongInfo, source_code};
use crate::text::{
    decimal, decimal_digits,
    pop_char,
    contains_str, has_infix, lowercase_str, push_char, str_to_lowercase, trim, trimmed,
};

verus! {

/// A typed filter over a list: whether it is being typed, and its text.
pub struct ListFilter {
    pub query: String,
    pub active: bool,
}

/// What a key does to the filter while it is typed: Esc and Enter end
/// typing, Backspace erases, a character without control or alt is
/// typed; every key is taken.
pub open spec fn filter_key_effect(f: ListFilter, key: KeyEvent, g: ListFilter) -> bool {
    if key.code == KeyCode::Esc || key.code == KeyCode::Enter {
        g.query == f.query && !g.active
    } else if key.code == KeyCode::Backspace {
        g.active == f.active && g.query@ == (if f.query@.len() == 0 {
            f.query@
        } else {
            f.query@.drop_last()
        })
    } else if key.code is Char && !has_control_or_alt(key.modifiers) {
        g.active == f.active && g.query@ == f.query@.push(key.code->Char_0)
    } else {
        g == f
    }
}

/// The text the filter matches against: its query, trimmed and
/// lower-cased.
pub open spec fn filter_text(query: Seq<char>) -> Seq<char> {
    lowercase_str(trimmed(query))
}

impl ListFilter {
    /// An empty filter, not being typed.
    pub fn new() -> (r: ListFilter)
        ensures
            r.query@.len() == 0,
            !r.active,
    {
        ListFilter { query: String::new(), active: false }
    }

    /// Whether the filter is being typed.
    pub fn is_active(&self) -> (r: bool)
        ensures
            r == self.active,
    {
        self.active
    }

    /// The typed text.
    pub fn query(&self) -> (r: &str)
        ensures
            r@ == self.query@,
    {
        self.query.as_str()
    }

    /// Starts typing.
    pub fn activate(&mut self)
        ensures
            final(self).active,
            final(self).query == old(self).query,
    {
        self.active = true;
    }

    /// Stops typing, keeping the text.
    pub fn deactivate(&mut self)
        ensures
            !final(self).active,
            final(self).query == old(self).query,
    {
        self.active = false;
    }

    /// Clears the text and stops typing.
    pub fn reset(&mut self)
        ensures
            !final(self).active,
            final(self).query@.len() == 0,
    {
        self.query = String::new();
        self.active = false;
    }

    /// Replaces the text.
    pub fn set_query(&mut self, query: &str)
        ensures
            final(self).query@ == query@,
            final(self).active == old(self).active,
    {
        self.query = String::from_str(query);
    }

    /// Takes a key while the filter is typed; returns whether it took it.
    pub fn handle_input(&mut self, key: &KeyEvent) -> (r: bool)
        ensures
            r == old(self).active,
            old(self).active ==> filter_key_effect(*old(self), *key, *final(self)),
            !old(self).active ==> *final(self) == *old(self),
    {
        if !self.active {
            return false;
        }
        match key.code {
            KeyCode::Esc | KeyCode::Enter => {
                self.active = false;
            },
            KeyCode::Backspace => {
                pop_char(&mut self.query);
            },
            KeyCode::Char(c) => {
                if !control_or_alt(key.modifiers) {
                    push_char(&mut self.query, c);
                }
            },
            _ => {},
        }
        true
    }

    /// The text the filter matches against.
    pub fn match_text(&self) -> (r: String)
        ensures
            r@ == filter_text(self.query@),
    {
        let t = trim(self.query.as_str());
        str_to_lowercase(t.as_str())
    }
}

/// The song matches the filter text in its title, singer or album (each
/// lower-cased) or in its source code.
pub open spec fn song_matches(song: SongInfo, text: Seq<char>) -> bool {
    has_infix(lowercase_str(song.name@), text) || has_infix(lowercase_str(song.singer@), text)
        || has_infix(lowercase_str(song.album_name@), text) || has_infix(
        source_code(song.source),
        text,
    )
}

/// The indices of the songs that match, in order.
pub open spec fn matching_indices(songs: Seq<SongInfo>, text: Seq<char>) -> Seq<usize>
    decreases songs.len(),
{
    if songs.len() == 0 {
        Seq::<usize>::empty()
    } else {
        let rest = matching_indices(songs.drop_last(), text);
        if song_matches(songs.last(), text) {
            rest.push((songs.len() - 1) as usize)
        } else {
            rest
        }
    }
}

/// The songs at `indices`, in that order.
pub open spec fn picked(songs: Seq<SongInfo>, indices: Seq<usize>) -> Seq<SongInfo> {
    indices.map_values(|i: usize| songs[i as int])
}

/// Every index that matching yields names a song.
pub proof fn lemma_matching_in_range(songs: Seq<SongInfo>, text: Seq<char>)
    ensures
        forall|k: int|
            0 <= k < matching_indices(songs, text).len() ==> #[trigger] matching_indices(
                songs,
                text,
            )[k] < songs.len(),
        matching_indices(songs, text).len() <= songs.len(),
    decreases songs.len(),
{
    if songs.len() > 0 {
        lemma_matching_in_range(songs.drop_last(), text);
    }
}

/// The filter keeps the song at `i` exactly when the query, trimmed and
/// lower-cased, occurs in its lower-cased title, singer or album, or in
/// its source code: letter case in the title, singer and album does not
/// matter.
pub proof fn lemma_filter_keeps_exactly(songs: Seq<SongInfo>, query: Seq<char>, i: int)
    requires
        0 <= i < songs.len(),
        songs.len() <= usize::MAX,
    ensures
        matching_indices(songs, filter_text(query)).contains(i as usize) <==> ({
            let text = lowercase_str(trimmed(query));
            ||| has_infix(lowercase_str(songs[i].name@), text)
            ||| has_infix(lowercase_str(songs[i].singer@), text)
            ||| has_infix(lowercase_str(songs[i].album_name@), text)
            ||| has_infix(source_code(songs[i].source), text)
        }),
    decreases songs.len(),
{
    let text = filter_text(query);
    let rest = matching_indices(songs.drop_last(), text);
    let last = songs.len() - 1;
    lemma_matching_in_range(songs.drop_last(), text);
    if i == last {
        assert(!rest.contains(i as usize)) by {
            if rest.contains(i as usize) {
                let k = choose|k: int| 0 <= k < rest.len() && rest[k] == i as usize;
                assert(rest[k] < songs.drop_last().len());
            }
        }
        if song_matches(songs.last(), text) {
            assert(rest.push(last as usize)[rest.len() as int] == i as usize);
        } else {
        }
    } else {
        lemma_filter_keeps_exactly(songs.drop_last(), query, i);
        assert(songs.drop_last()[i] == songs[i]);
        if song_matches(songs.last(), text) {
            let pushed = rest.push(last as usize);
            if rest.contains(i as usize) {
                let k = choose|k: int| 0 <= k < rest.len() && rest[k] == i as usize;
                assert(pushed[k] == i as usize);
            }
            if pushed.contains(i as usize) {
                let k = choose|k: int| 0 <= k < pushed.len() && pushed[k] == i as usize;
                assert(k < rest.len());
                assert(rest[k] == i as usize);
            }
        }
    }
}

/// An empty filter text keeps every song, in order.
pub proof fn lemma_empty_filter_keeps_all(songs: Seq<SongInfo>)
    ensures
        matching_indices(songs, Seq::<char>::empty()) == Seq::new(
            songs.len(),
            |i: int| i as usize,
        ),
    decreases songs.len(),
{
    if songs.len() > 0 {
        lemma_empty_filter_keeps_all(songs.drop_last());
        assert(has_infix(lowercase_str(songs.last().name@), Seq::<char>::empty())) by {
            assert(lowercase_str(songs.last().name@).subrange(0int, 0int + Seq::<char>::empty().len()) =~= Seq::<char>::empty());
        }
        assert(matching_indices(songs, Seq::<char>::empty()) =~= Seq::new(
            songs.len(),
            |i: int| i as usize,
        ));
    }
}

/// Whether `song` matches the filter text `text`.
pub fn matches_song(song: &SongInfo, text: &String) -> (r: bool)
    ensures
        r == song_matches(*song, text@),
{
    let name = str_to_lowercase(song.name.as_str());
    if contains_str(name.as_str(), text.as_str()) {
        return true;
    }
    let singer = str_to_lowercase(song.singer.as_str());
    if contains_str(singer.as_str(), text.as_str()) {
        return true;
    }
    let album = str_to_lowercase(song.album_name.as_str());
    if contains_str(album.as_str(), text.as_str()) {
        return true;
    }
    contains_str(song.source.as_str(), text.as_str())
}

/// State of the favorites page.
pub struct FavoritesPage {
    pub selected: usize,
    pub scroll: usize,
    pub filter: ListFilter,
    pub viewport_height: usize,
}

/// What the favorites page asks of the application.
#[derive(Debug, Clone, PartialEq, Eq)]
pub enum FavoritesOutcome {
    Action(AppAction),
    /// Remove the saved song at this index from the favorites.
    Remove(usize),
}

/// What a key does on the favorites page.
#[derive(Debug, Clone, Copy, PartialEq, Eq, Structural)]
pub enum FavoritesCommand {
    Filter,
    Up,
    Down,
    First,
    Last,
    PageUp,
    PageDown,
    Activate,
    Add(InsertPosition),
    Remove,
    Back,
    Ignore,
}

/// The command of an unbound key.
pub open spec fn key_command(key: KeyEvent) -> FavoritesCommand {
    let m = key.modifiers;
    let c = key.code;
    if m == MOD_NONE && c == KeyCode::Char('/') {
        FavoritesCommand::Filter
    } else if m == MOD_NONE && c == KeyCode::Esc {
        FavoritesCommand::Back
    } else if m == MOD_NONE && c == KeyCode::Up {
        FavoritesCommand::Up
    } else if m == MOD_NONE && c == KeyCode::Down {
        FavoritesCommand::Down
    } else if m == MOD_NONE && (c == KeyCode::Home || c == KeyCode::Char('g')) {
        FavoritesCommand::First
    } else if (m == MOD_NONE && (c == KeyCode::End || c == KeyCode::Char('G'))) || (m == MOD_SHIFT
        && c == KeyCode::Char('G')) {
        FavoritesCommand::Last
    } else if (m == MOD_CONTROL && c == KeyCode::Char('u')) || (m == MOD_NONE && c
        == KeyCode::PageUp) {
        FavoritesCommand::PageUp
    } else if (m == MOD_CONTROL && c == KeyCode::Char('d')) || (m == MOD_NONE && c
        == KeyCode::PageDown) {
        FavoritesCommand::PageDown
    } else if activates(key) {
        FavoritesCommand::Activate
    } else if m == MOD_NONE && c == KeyCode::Char('a') {
        FavoritesCommand::Add(InsertPosition::End)
    } else if (m == MOD_NONE || m == MOD_SHIFT) && c == KeyCode::Char('A') {
        FavoritesCommand::Add(InsertPosition::Next)
    } else if (m == MOD_NONE && (c == KeyCode::Char('d') || c == KeyCode::Delete)) || (m
        == MOD_CONTROL && c == KeyCode::Char('l')) {
        FavoritesCommand::Remove
    } else {
        FavoritesCommand::Ignore
    }
}

/// The command of a key: its configured binding when it names a page
/// action, else the built-in keys.
pub open spec fn command_of(key: KeyEvent, binding: Option<Action>) -> FavoritesCommand {
    match binding {
        Some(Action::FavoritesFilter) => FavoritesCommand::Filter,
        Some(Action::ListSelectUp) => FavoritesCommand::Up,
        Some(Action::ListSelectDown) => FavoritesCommand::Down,
        Some(Action::ListSelectFirst) => FavoritesCommand::First,
        Some(Action::ListSelectLast) => FavoritesCommand::Last,
        Some(Action::ListPageUp) => FavoritesCommand::PageUp,
        Some(Action::ListPageDown) => FavoritesCommand::PageDown,
        Some(Action::ListActivate) => FavoritesCommand::Activate,
        Some(Action::ListAddToQueue) => FavoritesCommand::Add(InsertPosition::End),
        Some(Action::ListAddToQueueNext) => FavoritesCommand::Add(InsertPosition::Next),
        Some(Action::FavoritesRemove) => FavoritesCommand::Remove,
        Some(Action::ListGoBack) => FavoritesCommand::Back,
        _ => key_command(key),
    }
}

/// Reads a key press (with its configured binding) on the favorites page.
pub fn favorites_command(key: &KeyEvent, binding: Option<Action>) -> (r: FavoritesCommand)
    ensures
        r == command_of(*key, binding),
{
    match binding {
        Some(Action::FavoritesFilter) => {
            return FavoritesCommand::Filter;
        },
        Some(Action::ListSelectUp) => {
            return FavoritesCommand::Up;
        },
        Some(Action::ListSelectDown) => {
            return FavoritesCommand::Down;
        },
        Some(Action::ListSelectFirst) => {
            return FavoritesCommand::First;
        },
        Some(Action::ListSelectLast) => {
            return FavoritesCommand::Last;
        },
        Some(Action::ListPageUp) => {
            return FavoritesCommand::PageUp;
        },
        Some(Action::ListPageDown) => {
            return FavoritesCommand::PageDown;
        },
        Some(Action::ListActivate) => {
            return FavoritesCommand::Activate;
        },
        Some(Action::ListAddToQueue) => {
            return FavoritesCommand::Add(InsertPosition::End);
        },
        Some(Action::ListAddToQueueNext) => {
            return FavoritesCommand::Add(InsertPosition::Next);
        },
        Some(Action::FavoritesRemove) => {
            return FavoritesCommand::Remove;
        },
        Some(Action::ListGoBack) => {
            return FavoritesCommand::Back;
        },
        _ => {},
    }
    let m = key.modifiers;
    let c = key.code;
    if m == MOD_NONE && c == KeyCode::Char('/') {
        FavoritesCommand::Filter
    } else if m == MOD_NONE && c == KeyCode::Esc {
        FavoritesCommand::Back
    } else if m == MOD_NONE && c == KeyCode::Up {
        FavoritesCommand::Up
    } else if m == MOD_NONE && c == KeyCode::Down {
        FavoritesCommand::Down
    } else if m == MOD_NONE && (c == KeyCode::Home || c == KeyCode::Char('g')) {
        FavoritesCommand::First
    } else if (m == MOD_NONE && (c == KeyCode::End || c == KeyCode::Char('G'))) || (m == MOD_SHIFT
        && c == KeyCode::Char('G')) {
        FavoritesCommand::Last
    } else if (m == MOD_CONTROL && c == KeyCode::Char('u')) || (m == MOD_NONE && c
        == KeyCode::PageUp) {
        FavoritesCommand::PageUp
    } else if (m == MOD_CONTROL && c == KeyCode::Char('d')) || (m == MOD_NONE && c
        == KeyCode::PageDown) {
        FavoritesCommand::PageDown
    } else if is_song_activation_key(key) {
        FavoritesCommand::Activate
    } else if m == MOD_NONE && c == KeyCode::Char('a') {
        FavoritesCommand::Add(InsertPosition::End)
    } else if (m == MOD_NONE || m == MOD_SHIFT) && c == KeyCode::Char('A') {
        FavoritesCommand::Add(InsertPosition::Next)
    } else if (m == MOD_NONE && (c == KeyCode::Char('d') || c == KeyCode::Delete)) || (m
        == MOD_CONTROL && c == KeyCode::Char('l')) {
        FavoritesCommand::Remove
    } else {
        FavoritesCommand::Ignore
    }
}

/// The selection kept inside a list of `len` rows, and the scroll kept
/// at or above it.
pub open spec fn clamped(p: FavoritesPage, len: int) -> FavoritesPage {
    if len == 0 {
        FavoritesPage { selected: 0, scroll: 0, ..p }
    } else {
        let s = min_int(p.selected as int, len - 1);
        FavoritesPage { selected: s as usize, scroll: min_int(p.scroll as int, s) as usize, ..p }
    }
}

/// The rows a page-up or page-down moves: half the visible rows, at
/// least one.
pub open spec fn half_page(viewport_height: int) -> int {
    if viewport_height / 2 >= 1 {
        viewport_height / 2
    } else {
        1
    }
}

/// `q` and `r` are what `command` does to `p` (already clamped) over the
/// saved songs `favorites` and the `shown` indices of the filtered ones.
pub open spec fn command_effect(
    p: FavoritesPage,
    command: FavoritesCommand,
    favorites: Seq<SongInfo>,
    shown: Seq<usize>,
    wrap: bool,
    q: FavoritesPage,
    r: FavoritesOutcome,
) -> bool {
    let len = shown.len() as int;
    let s = p.selected as int;
    let noop = FavoritesOutcome::Action(AppAction::NoOp);
    let half = half_page(p.viewport_height as int);
    match command {
        FavoritesCommand::Filter => r == noop && q.filter.active && q.filter.query == p.filter.query
            && q == FavoritesPage { filter: q.filter, ..p },
        FavoritesCommand::Up => r == noop && q == FavoritesPage {
            selected: step_up(s, len, wrap) as usize,
            ..p
        },
        FavoritesCommand::Down => r == noop && q == FavoritesPage {
            selected: step_down(s, len, wrap) as usize,
            ..p
        },
        FavoritesCommand::First => r == noop && q == FavoritesPage { selected: 0, ..p },
        FavoritesCommand::Last => r == noop && q == FavoritesPage {
            selected: last_index(len) as usize,
            ..p
        },
        FavoritesCommand::PageUp => r == noop && q == FavoritesPage {
            selected: sat_sub(s, half) as usize,
            ..p
        },
        FavoritesCommand::PageDown => r == noop && q == FavoritesPage {
            selected: min_int(s + half, last_index(len)) as usize,
            ..p
        },
        FavoritesCommand::Activate => q == p && if s < len {
            r is Action && r->Action_0 is PlaySong && r->Action_0->songs@ == picked(favorites, shown)
                && r->Action_0->index == s
        } else {
            r == noop
        },
        FavoritesCommand::Add(position) => q == p && if s < len {
            r == FavoritesOutcome::Action(
                AppAction::AddToQueue { song: favorites[shown[s] as int], position },
            )
        } else {
            r == noop
        },
        FavoritesCommand::Remove => q == p && if s < len {
            r == FavoritesOutcome::Remove(shown[s])
        } else {
            r == noop
        },
        FavoritesCommand::Back => if p.filter.query@.len() == 0 {
            q == p && r == FavoritesOutcome::Action(AppAction::GoBack)
        } else {
            r == noop && !q.filter.active && q.filter.query@.len() == 0 && q == FavoritesPage {
                filter: q.filter,
                selected: 0,
                scroll: 0,
                ..p
            }
        },
        FavoritesCommand::Ignore => r == noop && q == p,
    }
}

impl FavoritesPage {
    /// A page at the top of the list, with an empty filter.
    pub fn new() -> (r: FavoritesPage)
        ensures
            r.selected == 0,
            r.scroll == 0,
            r.filter.query@.len() == 0,
            !r.filter.active,
            r.viewport_height == 1,
    {
        FavoritesPage { selected: 0, scroll: 0, filter: ListFilter::new(), viewport_height: 1 }
    }

    /// Whether the filter is being typed (keys then go to it).
    pub fn input_mode(&self) -> (r: bool)
        ensures
            r == self.filter.active,
    {
        self.filter.is_active()
    }

    /// The song a right click at `row` of the favorites box `area` opens
    /// a menu on: the songs let through and the position of the clicked
    /// one, which becomes the selection (typing in the filter stops).
    pub fn context_song_at(&mut self, row: u16, area: Rect, favorites: &Vec<SongInfo>) -> (r: Option<
        (Vec<SongInfo>, usize),
    >)
        ensures
            ({
                let shown = matching_indices(favorites@, filter_text(old(self).filter.query@));
                let inner = inner_of(area);
                let search_rows: int = if old(self).filter.active || old(self).filter.query@.len()
                    > 0 {
                    1
                } else {
                    0
                };
                let list_y = crate::layout::sat_add16(
                    crate::layout::sat_add16(inner.y as int, search_rows),
                    1,
                );
                let index = old(self).scroll + (row - list_y);
                if list_y <= row < bottom_of(inner) && index < shown.len() {
                    &&& r matches Some((songs, i)) && songs@ == picked(favorites@, shown) && i
                        == index
                    &&& !final(self).filter.active
                    &&& final(self).filter.query == old(self).filter.query
                    &&& *final(self) == FavoritesPage {
                        selected: index as usize,
                        filter: final(self).filter,
                        ..*old(self)
                    }
                } else {
                    r is None && *final(self) == *old(self)
                }
            }),
    {
        let shown = self.filtered_song_indices(favorites);
        proof {
            lemma_matching_in_range(favorites@, filter_text(self.filter.query@));
        }
        let inner = bordered_inner(area);
        let search_rows: u16 = if self.filter.active || self.filter.query.unicode_len() > 0 {
            1
        } else {
            0
        };
        let list_y = inner.y.saturating_add(search_rows).saturating_add(1);
        if row < list_y || row >= inner.bottom() {
            return None;
        }
        let offset = (row - list_y) as usize;
        if !(self.scroll < shown.len() && offset < shown.len() - self.scroll) {
            return None;
        }
        let index = self.scroll + offset;
        let songs = Self::songs_at(favorites, &shown);
        self.filter.deactivate();
        self.selected = index;
        Some((songs, index))
    }

    /// The title of the favorites box: how many songs are shown of how
    /// many saved.
    pub fn title(shown: usize, total: usize) -> (r: String)
        ensures
            r@ == " 收藏 "@ + decimal_digits(shown as nat) + "/"@ + decimal_digits(total as nat)
                + " · / 筛选 "@,
    {
        let a = decimal(shown as u64);
        let b = decimal(total as u64);
        let mut s = crate::model::joined(" 收藏 ", a.as_str());
        s.append("/");
        s.append(b.as_str());
        s.append(" · / 筛选 ");
        s
    }

    /// Before the list is drawn in `list_rows` rows, with `total` songs
    /// saved and `shown` let through: the page size follows the rows (at
    /// least one), and, when songs are listed, the first row moves so that
    /// the selection shows.
    pub fn fit_view(&mut self, list_rows: u16, total: usize, shown: usize)
        ensures
            final(self).viewport_height == if list_rows >= 1 {
                list_rows as usize
            } else {
                1
            },
            final(self).scroll == if total > 0 && shown > 0 && list_rows > 0 {
                visible_offset(
                    old(self).selected as int,
                    list_rows as int,
                    shown as int,
                    old(self).scroll as int,
                ) as usize
            } else {
                old(self).scroll
            },
            final(self).selected == old(self).selected,
            final(self).filter == old(self).filter,
    {
        self.viewport_height = if list_rows >= 1 {
            list_rows as usize
        } else {
            1
        };
        if total > 0 && shown > 0 && list_rows > 0 {
            ensure_visible(self.selected, list_rows as usize, shown, &mut self.scroll);
        }
    }

    /// Keeps the selection inside a list of `len` rows.
    pub fn clamp_selection(&mut self, len: usize)
        ensures
            *final(self) == clamped(*old(self), len as int),
    {
        if len == 0 {
            self.selected = 0;
            self.scroll = 0;
        } else {
            if self.selected > len - 1 {
                self.selected = len - 1;
            }
            if self.scroll > self.selected {
                self.scroll = self.selected;
            }
        }
    }

    /// The indices of the saved songs the filter lets through, in order.
    pub fn filtered_song_indices(&self, favorites: &Vec<SongInfo>) -> (r: Vec<usize>)
        ensures
            r@ == matching_indices(favorites@, filter_text(self.filter.query@)),
    {
        let text = self.filter.match_text();
        let mut out: Vec<usize> = Vec::new();
        let mut i: usize = 0;
        while i < favorites.len()
            invariant
                i <= favorites@.len(),
                text@ == filter_text(self.filter.query@),
                out@ == matching_indices(favorites@.take(i as int), text@),
            decreases favorites.len() - i,
        {
            assert(favorites@.take(i + 1).drop_last() =~= favorites@.take(i as int));
            if matches_song(&favorites[i], &text) {
                out.push(i);
            }
            i = i + 1;
        }
        assert(favorites@.take(favorites@.len() as int) =~= favorites@);
        out
    }

    /// The saved songs at `indices`, in that order.
    pub fn songs_at(favorites: &Vec<SongInfo>, indices: &Vec<usize>) -> (r: Vec<SongInfo>)
        requires
            forall|k: int| 0 <= k < indices@.len() ==> #[trigger] indices@[k] < favorites@.len(),
        ensures
            r@ == picked(favorites@, indices@),
    {
        let mut out: Vec<SongInfo> = Vec::new();
        let mut i: usize = 0;
        while i < indices.len()
            invariant
                i <= indices@.len(),
                forall|k: int| 0 <= k < indices@.len() ==> #[trigger] indices@[k] < favorites@.len(),
                out@ == picked(favorites@, indices@.take(i as int)),
            decreases indices.len() - i,
        {
            out.push(favorites[indices[i]].duplicate());
            i = i + 1;
            assert(out@ =~= picked(favorites@, indices@.take(i as int)));
        }
        assert(indices@.take(indices@.len() as int) =~= indices@);
        out
    }

    /// Acts on a key; `binding` is the key's configured page action,
    /// `favorites` the saved songs and `wrap` whether moving past either
    /// end wraps.  While the filter is typed the key goes to it, and a
    /// changed text returns the selection to the top.
    pub fn handle_input(
        &mut self,
        key: &KeyEvent,
        binding: Option<Action>,
        favorites: &Vec<SongInfo>,
        wrap: bool,
    ) -> (r: FavoritesOutcome)
        ensures
            old(self).filter.active ==> {
                &&& r == FavoritesOutcome::Action(AppAction::NoOp)
                &&& filter_key_effect(old(self).filter, *key, final(self).filter)
                &&& if final(self).filter.query@ != old(self).filter.query@ {
                    *final(self) == FavoritesPage {
                        selected: 0,
                        scroll: 0,
                        filter: final(self).filter,
                        ..*old(self)
                    }
                } else {
                    *final(self) == FavoritesPage { filter: final(self).filter, ..*old(self) }
                }
            },
            !old(self).filter.active ==> {
                let shown = matching_indices(favorites@, filter_text(old(self).filter.query@));
                command_effect(
                    clamped(*old(self), shown.len() as int),
                    command_of(*key, binding),
                    favorites@,
                    shown,
                    wrap,
                    *final(self),
                    r,
                )
            },
    {
        if self.filter.is_active() {
            let before = self.filter.query.clone();
            self.filter.handle_input(key);
            if self.filter.query != before {
                self.selected = 0;
                self.scroll = 0;
            }
            return FavoritesOutcome::Action(AppAction::NoOp);
        }
        let shown = self.filtered_song_indices(favorites);
        proof {
            lemma_matching_in_range(favorites@, filter_text(self.filter.query@));
        }
        let len = shown.len();
        self.clamp_selection(len);
        let half = if self.viewport_height / 2 >= 1 {
            self.viewport_height / 2
        } else {
            1
        };
        match favorites_command(key, binding) {
            FavoritesCommand::Filter => {
                self.filter.activate();
            },
            FavoritesCommand::Up => {
                self.selected = select_up(self.selected, len, wrap);
            },
            FavoritesCommand::Down => {
                self.selected = select_down(self.selected, len, wrap);
            },
            FavoritesCommand::First => {
                self.selected = 0;
            },
            FavoritesCommand::Last => {
                self.selected = len.saturating_sub(1);
            },
            FavoritesCommand::PageUp => {
                self.selected = self.selected.saturating_sub(half);
            },
            FavoritesCommand::PageDown => {
                self.selected = page_down(self.selected, half, len);
            },
            FavoritesCommand::Activate => {
                if self.selected < len {
                    let songs = Self::songs_at(favorites, &shown);
                    return FavoritesOutcome::Action(
                        AppAction::PlaySong { songs, index: self.selected },
                    );
                }
            },
            FavoritesCommand::Add(position) => {
                if self.selected < len {
                    let song = favorites[shown[self.selected]].duplicate();
                    return FavoritesOutcome::Action(AppAction::AddToQueue { song, position });
                }
            },
            FavoritesCommand::Remove => {
                if self.selected < len {
                    return FavoritesOutcome::Remove(shown[self.selected]);
                }
            },
            FavoritesCommand::Back => {
                if self.filter.query.unicode_len() == 0 {
                    return FavoritesOutcome::Action(AppAction::GoBack);
                }
                self.filter.reset();
                self.selected = 0;
                self.scroll = 0;
            },
            FavoritesCommand::Ignore => {},
        }
        FavoritesOutcome::Action(AppAction::NoOp)
    }

    /// After the application tried to remove a saved song: when it was
    /// removed, the selection is kept inside the `remaining` filtered
    /// songs and a notification says so.
    pub fn finish_remove(&mut self, removed: bool, remaining: &Vec<SongInfo>) -> (r: AppAction)
        ensures
            removed ==> *final(self) == clamped(
                *old(self),
                matching_indices(remaining@, filter_text(old(self).filter.query@)).len() as int,
            ),
            removed ==> r is ShowNotification && r->ShowNotification_0.message@ == "已取消收藏"@
                && r->ShowNotification_0.level == crate::model::NotificationLevel::Info,
            !removed ==> *final(self) == *old(self) && r == AppAction::NoOp,
    {
        if !removed {
            return AppAction::NoOp;
        }
        let shown = self.filtered_song_indices(remaining);
        self.clamp_selection(shown.len());
        AppAction::ShowNotification(Notification::info(String::from_str("已取消收藏")))
    }

    /// Acts on a mouse event over the page drawn in `area`; `favorites`
    /// are the saved songs, `scroll_amount` the rows a wheel step moves
    /// and `activate` whether the click is a double click.
    pub fn handle_mouse(
        &mut self,
        event: &MouseEvent,
        area: Rect,
        favorites: &Vec<SongInfo>,
        scroll_amount: usize,
        activate: bool,
    ) -> (r: AppAction)
        ensures
            ({
                let shown = matching_indices(favorites@, filter_text(old(self).filter.query@));
                let len = shown.len() as int;
                let step = if scroll_amount >= 1 { scroll_amount as int } else { 1 };
                let inner = inner_of(area);
                let search_rows: int = if old(self).filter.active || old(self).filter.query@.len() > 0 {
                    1
                } else {
                    0
                };
                let list_y = crate::layout::sat_add16(
                    crate::layout::sat_add16(inner.y as int, search_rows),
                    1,
                );
                let row = event.row as int;
                let index = old(self).scroll + (row - list_y);
                match event.kind {
                    MouseEventKind::ScrollUp => r == AppAction::NoOp && *final(self) == FavoritesPage {
                        selected: sat_sub(old(self).selected as int, step) as usize,
                        ..*old(self)
                    },
                    MouseEventKind::ScrollDown => r == AppAction::NoOp && *final(self) == FavoritesPage {
                        selected: min_int(old(self).selected + step, last_index(len)) as usize,
                        ..*old(self)
                    },
                    MouseEventKind::Down(MouseButton::Left) => if search_rows == 1 && row == inner.y {
                        r == AppAction::NoOp && final(self).filter.active && final(self).filter.query
                            == old(self).filter.query && *final(self) == FavoritesPage {
                            filter: final(self).filter,
                            ..*old(self)
                        }
                    } else if list_y <= row < bottom_of(inner) && index < len {
                        final(self).selected == index && *final(self) == FavoritesPage {
                            selected: final(self).selected,
                            ..*old(self)
                        } && if activate {
                            r is PlaySong && r->songs@ == picked(favorites@, shown) && r->index
                                == index
                        } else {
                            r == AppAction::NoOp
                        }
                    } else {
                        r == AppAction::NoOp && *final(self) == *old(self)
                    },
                    _ => r == AppAction::NoOp && *final(self) == *old(self),
                }
            }),
    {
        let shown = self.filtered_song_indices(favorites);
        proof {
            lemma_matching_in_range(favorites@, filter_text(self.filter.query@));
        }
        let step = if scroll_amount >= 1 {
            scroll_amount
        } else {
            1
        };
        match event.kind {
            MouseEventKind::ScrollUp => {
                self.selected = self.selected.saturating_sub(step);
            },
            MouseEventKind::ScrollDown => {
                self.selected = page_down(self.selected, step, shown.len());
            },
            MouseEventKind::Down(MouseButton::Left) => {
                let inner = bordered_inner(area);
                let search_rows: u16 = if self.filter.active || self.filter.query.unicode_len() > 0 {
                    1
                } else {
                    0
                };
                if search_rows == 1 && event.row == inner.y {
                    self.filter.activate();
                    return AppAction::NoOp;
                }
                let list_y = inner.y.saturating_add(search_rows).saturating_add(1);
                if event.row >= list_y && event.row < inner.bottom() {
                    let offset = (event.row - list_y) as usize;
                    if self.scroll < shown.len() && offset < shown.len() - self.scroll {
                        let index = self.scroll + offset;
                        self.selected = index;
                        if activate {
                            let songs = Self::songs_at(favorites, &shown);
                            return AppAction::PlaySong { songs, index };
                        }
                    }
                }
            },
            _ => {},
        }
        AppAction::NoOp
    }
}

} // verus!
