//! The browser's modes: normal browsing, the help overlay, and incremental
//! search with its query and matches.

use vstd::prelude::*;

verus! {

/// The mode the browser is in. Exactly one is active at a time; a change of
/// mode replaces the whole value.
#[derive(Debug)]
pub enum AppMode {
    Normal,
    Help,
    Search {
        query: String,
        cursor_position: usize,
        matches: Vec<usize>,
        current_match: Option<usize>,
    },
}

/// The mathematical value of an `AppMode`: strings as characters and the
/// matches as a sequence of entry indices.
pub enum ModeModel {
    Normal,
    Help,
    Search {
        query: Seq<char>,
        cursor_position: usize,
        matches: Seq<usize>,
        current_match: Option<usize>,
    },
}

/// Where the cursor of the search field stands after `query`: at its end,
/// counted in bytes of its UTF-8 text.
pub open spec fn cursor_after(query: Seq<char>) -> int {
    vstd::utf8::encode_utf8(query).len() as int
}

impl View for AppMode {
    type V = ModeModel;

    open spec fn view(&self) -> ModeModel {
        match self {
            AppMode::Normal => ModeModel::Normal,
            AppMode::Help => ModeModel::Help,
            AppMode::Search { query, cursor_position, matches, current_match } => ModeModel::Search {
                query: query@,
                cursor_position: *cursor_position,
                matches: matches@,
                current_match: *current_match,
            },
        }
    }
}

/// The title of the search bar: plain before anything is typed, a note
/// when nothing matches, the number of matches otherwise.
#[derive(Debug, Clone, Copy, PartialEq, Eq, Structural)]
pub enum SearchTitle {
    Plain,
    NoMatches,
    Matches(usize),
}

/// The search bar's title for `query` and `matches`.
pub open spec fn search_title_spec(query: Seq<char>, matches: Seq<usize>) -> SearchTitle {
    if matches.len() == 0 && query.len() == 0 {
        SearchTitle::Plain
    } else if matches.len() == 0 {
        SearchTitle::NoMatches
    } else {
        SearchTitle::Matches(matches.len() as usize)
    }
}

/// The text shown in the search field while the query is empty.
pub open spec fn search_placeholder() -> Seq<char> {
    "type to search..."@
}

impl AppMode {
    /// Search mode with an empty query that matches every one of
    /// `entry_count` entries, with the cursor at the start.
    pub fn start_search(entry_count: usize) -> (r: AppMode)
        ensures
            r@ == (ModeModel::Search {
                query: Seq::empty(),
                cursor_position: 0,
                matches: Seq::new(entry_count as nat, |i: int| i as usize),
                current_match: None,
            }),
    {
        let mut matches: Vec<usize> = Vec::new();
        let mut i: usize = 0;
        while i < entry_count
            invariant
                i <= entry_count,
                matches@ == Seq::new(i as nat, |k: int| k as usize),
            decreases entry_count - i,
        {
            matches.push(i);
            i = i + 1;
            assert(matches@ =~= Seq::new(i as nat, |k: int| k as usize));
        }
        let r = AppMode::Search { query: String::new(), cursor_position: 0, matches, current_match: None };
        assert(r@ =~= (ModeModel::Search {
            query: Seq::empty(),
            cursor_position: 0,
            matches: Seq::new(entry_count as nat, |i: int| i as usize),
            current_match: None,
        }));
        r
    }

    /// Whether this is search mode.
    pub fn is_search(&self) -> (r: bool)
        ensures
            r == (self@ is Search),
    {
        match self {
            AppMode::Search { .. } => true,
            _ => false,
        }
    }

    /// The query typed so far in search mode; `None` in the other modes.
    pub fn get_search_query(&self) -> (r: Option<&str>)
        ensures
            self@ is Search <==> r is Some,
            r matches Some(q) ==> q@ == self@->query,
    {
        match self {
            AppMode::Search { query, .. } => Some(query.as_str()),
            _ => None,
        }
    }

    /// In search mode, replaces the query and the matches, puts the cursor
    /// at the end of the new query and forgets the current match; in the
    /// other modes does nothing.
    pub fn update_search(&mut self, new_query: String, matches: Vec<usize>)
        ensures
            old(self)@ is Search ==> final(self)@ == (ModeModel::Search {
                query: new_query@,
                cursor_position: cursor_after(new_query@) as usize,
                matches: matches@,
                current_match: None,
            }),
            !(old(self)@ is Search) ==> final(self)@ == old(self)@,
    {
        if self.is_search() {
            let cursor_position = new_query.as_str().len();
            *self = AppMode::Search { query: new_query, cursor_position, matches, current_match: None };
        }
    }
    /// In search mode, the bar's title and the text of its field: the query,
    /// or a hint while the query is empty. `None` in the other modes.
    pub fn search_bar(&self) -> (r: Option<(SearchTitle, String)>)
        ensures
            self@ is Search <==> r is Some,
            self@ matches ModeModel::Search { query, matches, .. } ==> r matches Some(b) && b.0
                == search_title_spec(query, matches) && b.1@ == (if query.len() == 0 {
                search_placeholder()
            } else {
                query
            }),
    {
        match self {
            AppMode::Search { query, matches, .. } => {
                let title = if matches.len() == 0 && query.as_str().is_empty() {
                    SearchTitle::Plain
                } else if matches.len() == 0 {
                    SearchTitle::NoMatches
                } else {
                    SearchTitle::Matches(matches.len())
                };
                let text = if query.as_str().is_empty() {
                    String::from_str("type to search...")
                } else {
                    query.clone()
                };
                Some((title, text))
            },
            _ => None,
        }
    }
}

} // verus!
