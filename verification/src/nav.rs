//! Top-level navigation: the tabs, their shortcuts, tab cycling and the
//! small decisions the main loop takes between pages.
use vstd::prelude::*;
use crate::input::{KeyCode, KeyEvent, MOD_NONE, MOD_SHIFT, plain};
use crate::layout::{
    Direction, Rect, laid_out, bordered_inner, bottom_of, equal_columns, first_hit, hit_index, inner_of,
    lemma_first_hit_off_rows,
};

verus! {

/// A tab of the navigation bar.
#[derive(Debug, Clone, Copy, PartialEq, Eq, Structural)]
pub enum NavTab {
    Main,
    Search,
    Leaderboard,
    Playlists,
    Favorites,
    History,
    Settings,
    LocalMusic,
}

/// The tabs in the order the bar shows them.
pub open spec fn tab_order() -> Seq<NavTab> {
    seq![
        NavTab::Main,
        NavTab::Search,
        NavTab::Leaderboard,
        NavTab::Playlists,
        NavTab::Favorites,
        NavTab::History,
        NavTab::LocalMusic,
        NavTab::Settings,
    ]
}

/// The caption of each tab, led by its shortcut digit.
pub open spec fn tab_label(tab: NavTab) -> Seq<char> {
    match tab {
        NavTab::Main => seq!['1', ' ', '队', '列'],
        NavTab::Search => seq!['2', ' ', '搜', '索'],
        NavTab::Leaderboard => seq!['3', ' ', '排', '行', '榜'],
        NavTab::Playlists => seq!['4', ' ', '歌', '单'],
        NavTab::Favorites => seq!['5', ' ', '收', '藏'],
        NavTab::History => seq!['6', ' ', '历', '史'],
        NavTab::LocalMusic => seq!['7', ' ', '本', '地'],
        NavTab::Settings => seq!['8', ' ', '设', '置'],
    }
}

/// The tab a digit key selects.
pub open spec fn digit_tab(c: char) -> Option<NavTab> {
    if c == '1' {
        Some(NavTab::Main)
    } else if c == '2' {
        Some(NavTab::Search)
    } else if c == '3' {
        Some(NavTab::Leaderboard)
    } else if c == '4' {
        Some(NavTab::Playlists)
    } else if c == '5' {
        Some(NavTab::Favorites)
    } else if c == '6' {
        Some(NavTab::History)
    } else if c == '7' {
        Some(NavTab::LocalMusic)
    } else if c == '8' {
        Some(NavTab::Settings)
    } else {
        None
    }
}

/// The tab a key press switches to: an unmodified digit 1 to 8.
pub open spec fn shortcut_tab(key: KeyEvent) -> Option<NavTab> {
    match key.code {
        KeyCode::Char(c) => if key.modifiers == MOD_NONE {
            digit_tab(c)
        } else {
            None
        },
        _ => None,
    }
}

/// The tab after `tab` in the bar, the last one wrapping to the first.
pub open spec fn tab_after(tab: NavTab) -> NavTab {
    match tab {
        NavTab::Main => NavTab::Search,
        NavTab::Search => NavTab::Leaderboard,
        NavTab::Leaderboard => NavTab::Playlists,
        NavTab::Playlists => NavTab::Favorites,
        NavTab::Favorites => NavTab::History,
        NavTab::History => NavTab::LocalMusic,
        NavTab::LocalMusic => NavTab::Settings,
        NavTab::Settings => NavTab::Main,
    }
}

/// The tab before `tab` in the bar, the first one wrapping to the last.
pub open spec fn tab_before(tab: NavTab) -> NavTab {
    match tab {
        NavTab::Main => NavTab::Settings,
        NavTab::Search => NavTab::Main,
        NavTab::Leaderboard => NavTab::Search,
        NavTab::Playlists => NavTab::Leaderboard,
        NavTab::Favorites => NavTab::Playlists,
        NavTab::History => NavTab::Favorites,
        NavTab::LocalMusic => NavTab::History,
        NavTab::Settings => NavTab::LocalMusic,
    }
}

/// The name under which key bindings of a page are configured.
pub open spec fn page_scope(tab: NavTab) -> Seq<char> {
    match tab {
        NavTab::Main => seq!['m', 'a', 'i', 'n'],
        NavTab::Search => seq!['s', 'e', 'a', 'r', 'c', 'h'],
        NavTab::Leaderboard => seq!['l', 'e', 'a', 'd', 'e', 'r', 'b', 'o', 'a', 'r', 'd'],
        NavTab::Playlists => seq!['p', 'l', 'a', 'y', 'l', 'i', 's', 't', 's'],
        NavTab::Favorites => seq!['f', 'a', 'v', 'o', 'r', 'i', 't', 'e', 's'],
        NavTab::History => seq!['h', 'i', 's', 't', 'o', 'r', 'y'],
        NavTab::LocalMusic => seq!['l', 'o', 'c', 'a', 'l'],
        NavTab::Settings => seq!['s', 'e', 't', 't', 'i', 'n', 'g', 's'],
    }
}

impl NavTab {
    /// The tabs in the order the bar shows them.
    pub fn all() -> (r: Vec<NavTab>)
        ensures
            r@ == tab_order(),
    {
        let r = vec![
            NavTab::Main,
            NavTab::Search,
            NavTab::Leaderboard,
            NavTab::Playlists,
            NavTab::Favorites,
            NavTab::History,
            NavTab::LocalMusic,
            NavTab::Settings,
        ];
        assert(r@ =~= tab_order());
        r
    }

    /// The caption shown for the tab.
    pub fn label(self) -> (r: &'static str)
        ensures
            r@ == tab_label(self),
    {
        proof {
            reveal_strlit("1 队列");
            reveal_strlit("2 搜索");
            reveal_strlit("3 排行榜");
            reveal_strlit("4 歌单");
            reveal_strlit("5 收藏");
            reveal_strlit("6 历史");
            reveal_strlit("7 本地");
            reveal_strlit("8 设置");
        }
        match self {
            NavTab::Main => "1 队列",
            NavTab::Search => "2 搜索",
            NavTab::Leaderboard => "3 排行榜",
            NavTab::Playlists => "4 歌单",
            NavTab::Favorites => "5 收藏",
            NavTab::History => "6 历史",
            NavTab::LocalMusic => "7 本地",
            NavTab::Settings => "8 设置",
        }
    }

    /// The tab after this one, wrapping at the end of the bar.
    pub fn next(self) -> (r: NavTab)
        ensures
            r == tab_after(self),
    {
        match self {
            NavTab::Main => NavTab::Search,
            NavTab::Search => NavTab::Leaderboard,
            NavTab::Leaderboard => NavTab::Playlists,
            NavTab::Playlists => NavTab::Favorites,
            NavTab::Favorites => NavTab::History,
            NavTab::History => NavTab::LocalMusic,
            NavTab::LocalMusic => NavTab::Settings,
            NavTab::Settings => NavTab::Main,
        }
    }

    /// The tab before this one, wrapping at the start of the bar.
    pub fn previous(self) -> (r: NavTab)
        ensures
            r == tab_before(self),
    {
        match self {
            NavTab::Main => NavTab::Settings,
            NavTab::Search => NavTab::Main,
            NavTab::Leaderboard => NavTab::Search,
            NavTab::Playlists => NavTab::Leaderboard,
            NavTab::Favorites => NavTab::Playlists,
            NavTab::History => NavTab::Favorites,
            NavTab::LocalMusic => NavTab::History,
            NavTab::Settings => NavTab::LocalMusic,
        }
    }
}

/// Cycling forward then back, or back then forward, returns to the same
/// tab; and the next tab is always the one that follows in the bar.
pub proof fn lemma_tab_cycle(tab: NavTab)
    ensures
        tab_before(tab_after(tab)) == tab,
        tab_after(tab_before(tab)) == tab,
        forall|i: int|
            0 <= i < 8 && #[trigger] tab_order()[i] == tab ==> tab_after(tab) == tab_order()[(i
                + 1) % 8],
{
    assert(tab_order().len() == 8);
}

/// The tab an unmodified digit key 1 to 8 switches to.
pub fn handle_input(key: &KeyEvent) -> (r: Option<NavTab>)
    ensures
        r == shortcut_tab(*key),
{
    if key.modifiers != MOD_NONE {
        return None;
    }
    match key.code {
        KeyCode::Char(c) => {
            if c == '1' {
                Some(NavTab::Main)
            } else if c == '2' {
                Some(NavTab::Search)
            } else if c == '3' {
                Some(NavTab::Leaderboard)
            } else if c == '4' {
                Some(NavTab::Playlists)
            } else if c == '5' {
                Some(NavTab::Favorites)
            } else if c == '6' {
                Some(NavTab::History)
            } else if c == '7' {
                Some(NavTab::LocalMusic)
            } else if c == '8' {
                Some(NavTab::Settings)
            } else {
                None
            }
        },
        _ => None,
    }
}

/// The shortcut digit of each tab leads back to that tab.
pub proof fn lemma_shortcut_matches_label(tab: NavTab)
    ensures
        shortcut_tab(KeyEvent { code: KeyCode::Char(tab_label(tab)[0]), modifiers: MOD_NONE })
            == Some(tab),
{
}

/// The key-binding scope name of a page.
pub fn nav_page_scope(tab: NavTab) -> (r: &'static str)
    ensures
        r@ == page_scope(tab),
{
    proof {
        reveal_strlit("main");
        reveal_strlit("search");
        reveal_strlit("leaderboard");
        reveal_strlit("playlists");
        reveal_strlit("favorites");
        reveal_strlit("history");
        reveal_strlit("local");
        reveal_strlit("settings");
    }
    match tab {
        NavTab::Main => "main",
        NavTab::Search => "search",
        NavTab::Leaderboard => "leaderboard",
        NavTab::Playlists => "playlists",
        NavTab::Favorites => "favorites",
        NavTab::History => "history",
        NavTab::LocalMusic => "local",
        NavTab::Settings => "settings",
    }
}

/// Entering the local music page starts a scan when local music is
/// enabled, has directories, holds no songs yet and no scan is running.
pub open spec fn scan_on_entry(
    previous_tab: NavTab,
    active_tab: NavTab,
    enabled: bool,
    has_paths: bool,
    songs_empty: bool,
    is_scanning: bool,
) -> bool {
    previous_tab != NavTab::LocalMusic && active_tab == NavTab::LocalMusic && enabled && has_paths
        && songs_empty && !is_scanning
}

/// Whether switching from `previous_tab` to `active_tab` starts a scan
/// of the local music directories.
pub fn should_scan_local_music_on_entry(
    previous_tab: NavTab,
    active_tab: NavTab,
    enabled: bool,
    has_paths: bool,
    songs_empty: bool,
    is_scanning: bool,
) -> (r: bool)
    ensures
        r == scan_on_entry(previous_tab, active_tab, enabled, has_paths, songs_empty, is_scanning),
{
    previous_tab != NavTab::LocalMusic && active_tab == NavTab::LocalMusic && enabled && has_paths
        && songs_empty && !is_scanning
}

/// The answer to the "delete this local file?" prompt.
#[derive(Debug, Clone, Copy, PartialEq, Eq, Structural)]
pub enum DeleteConfirmationAction {
    Confirm,
    Cancel,
    Ignore,
}

/// y or Y confirms and n, N or Esc cancels, with no modifier or only
/// shift held (Esc only unmodified); any other key is ignored.
pub open spec fn confirmation_answer(key: KeyEvent) -> DeleteConfirmationAction {
    let bare_or_shift = key.modifiers == MOD_NONE || key.modifiers == MOD_SHIFT;
    if bare_or_shift && (key.code == KeyCode::Char('y') || key.code == KeyCode::Char('Y')) {
        DeleteConfirmationAction::Confirm
    } else if (bare_or_shift && (key.code == KeyCode::Char('n') || key.code == KeyCode::Char('N')))
        || plain(key, KeyCode::Esc) {
        DeleteConfirmationAction::Cancel
    } else {
        DeleteConfirmationAction::Ignore
    }
}

/// Reads a key press as an answer to the delete prompt.
pub fn delete_confirmation_action(key: &KeyEvent) -> (r: DeleteConfirmationAction)
    ensures
        r == confirmation_answer(*key),
{
    let bare_or_shift = key.modifiers == MOD_NONE || key.modifiers == MOD_SHIFT;
    if bare_or_shift && (key.code == KeyCode::Char('y') || key.code == KeyCode::Char('Y')) {
        DeleteConfirmationAction::Confirm
    } else if (bare_or_shift && (key.code == KeyCode::Char('n') || key.code == KeyCode::Char('N')))
        || (key.modifiers == MOD_NONE && key.code == KeyCode::Esc) {
        DeleteConfirmationAction::Cancel
    } else {
        DeleteConfirmationAction::Ignore
    }
}

/// A shifted y confirms and a shifted N cancels, as terminals report
/// capital letters either with or without the shift bit.
pub proof fn lemma_shift_variants_answer_alike(c: char)
    ensures
        confirmation_answer(KeyEvent { code: KeyCode::Char(c), modifiers: MOD_SHIFT })
            == confirmation_answer(KeyEvent { code: KeyCode::Char(c), modifiers: MOD_NONE }),
{
}

/// The eight equal columns of the tab bar's inside.
pub fn tab_chunks(area: Rect) -> (r: Vec<Rect>)
    ensures
        r@.len() == 8,
        laid_out(Direction::Horizontal, area, r@),
{
    equal_columns(area, 8)
}

/// The tab whose column, among the bar's `parts` (one per tab, in tab
/// order), holds the cell (`column`, `row`).
pub open spec fn tab_at(parts: Seq<Rect>, column: int, row: int) -> Option<NavTab> {
    match first_hit(parts, column, row) {
        Some(i) => if i < 8 {
            Some(tab_order()[i])
        } else {
            None
        },
        None => None,
    }
}

/// The tab a click at (`column`, `row`) lands on, given the bar's
/// columns `parts`, one per tab in tab order.
pub fn tab_hit(parts: &Vec<Rect>, column: u16, row: u16) -> (r: Option<NavTab>)
    ensures
        r == tab_at(parts@, column as int, row as int),
{
    let tabs = NavTab::all();
    match hit_index(parts, column, row) {
        Some(i) => {
            if i < 8 {
                Some(tabs[i])
            } else {
                None
            }
        },
        None => None,
    }
}

/// The tab a click at (`column`, `row`) lands on, in the bar drawn in
/// `area`: the bar's inside is split into eight equal columns by the
/// layout solver, and the click is looked up among them.  The columns
/// are the solver's; whatever they are, they lie on the rows of the
/// bar's inside, so a click off those rows lands on no tab.
pub fn hit_test(area: Rect, column: u16, row: u16) -> (r: Option<NavTab>)
    ensures
        exists|parts: Seq<Rect>|
            parts.len() == 8 && laid_out(Direction::Horizontal, inner_of(area), parts) && r
                == #[trigger] tab_at(parts, column as int, row as int),
        !(inner_of(area).y <= row < bottom_of(inner_of(area))) ==> r is None,
{
    let inner = bordered_inner(area);
    let chunks = tab_chunks(inner);
    let r = tab_hit(&chunks, column, row);
    proof {
        if !(inner.y <= row < bottom_of(inner)) {
            lemma_first_hit_off_rows(chunks@, inner, column as int, row as int);
        }
    }
    r
}

} // verus!
