//! The browser's control logic: keys and clicks decoded into commands, and
//! the single state that the control loop changes by applying them in order.

use vstd::prelude::*;
use crate::entry::SshConfigEntry;
use crate::filter::{filter_entries, filter_spec, lemma_empty_query_selects_all};
use crate::list_state::{ListStateManager, NavigationDirection, selected_after, step_index};
use crate::mode::{AppMode, ModeModel, cursor_after};
use crate::strings::{pop_char, push_char};

verus! {

/// Rows above the first list row that the list's frame and title take.
pub const HEADER_ROWS: u16 = 2;

/// A key press, as far as the browser tells keys apart. `Char` is a
/// printable character; `Interrupt` is the interrupt key combination.
#[derive(Debug, Clone, Copy, PartialEq, Eq, Structural)]
pub enum Key {
    Char(char),
    Up,
    Down,
    Enter,
    Esc,
    Backspace,
    Interrupt,
    Other,
}

/// An instruction for the control loop, decoded from an input event.
#[derive(Debug, Clone, Copy, PartialEq, Eq, Structural)]
pub enum Command {
    MoveSelection(NavigationDirection),
    SetSelection(usize),
    EnterSearch,
    ExitToNormal,
    ShowHelp,
    TogglePopup,
    AppendToQuery(char),
    BackspaceQuery,
    Exit,
    FatalSignal,
}

/// Whether the control loop goes on after a command, or stops and why.
#[derive(Debug, Clone, Copy, PartialEq, Eq, Structural)]
pub enum LoopControl {
    Continue,
    Quit,
    Fatal,
}

impl LoopControl {
    /// The process exit status for the way the loop stopped: zero for a
    /// requested exit, one for an interrupt or another fault.
    pub fn exit_code(&self) -> (r: i32)
        ensures
            r == (if *self == LoopControl::Fatal { 1i32 } else { 0i32 }),
    {
        match self {
            LoopControl::Fatal => 1,
            _ => 0,
        }
    }
}

/// The command that `key` stands for in mode `m`, if any. The interrupt
/// key stops the loop in every mode; besides it, help mode knows only Esc;
/// search mode takes every printable character, `q`, `h` and `/` included,
/// as text of the query.
pub open spec fn decode_spec(key: Key, m: ModeModel) -> Option<Command> {
    match key {
        Key::Interrupt => Some(Command::FatalSignal),
        _ => match m {
            ModeModel::Help => match key {
                Key::Esc => Some(Command::ExitToNormal),
                _ => None,
            },
            ModeModel::Search { .. } => match key {
                Key::Up => Some(Command::MoveSelection(NavigationDirection::Up)),
                Key::Down => Some(Command::MoveSelection(NavigationDirection::Down)),
                Key::Enter => Some(Command::TogglePopup),
                Key::Esc => Some(Command::ExitToNormal),
                Key::Backspace => Some(Command::BackspaceQuery),
                Key::Char(c) => Some(Command::AppendToQuery(c)),
                _ => None,
            },
            ModeModel::Normal => match key {
                Key::Up => Some(Command::MoveSelection(NavigationDirection::Up)),
                Key::Down => Some(Command::MoveSelection(NavigationDirection::Down)),
                Key::Enter => Some(Command::TogglePopup),
                Key::Esc => Some(Command::ExitToNormal),
                Key::Char(c) => if c == '/' {
                    Some(Command::EnterSearch)
                } else if c == 'h' {
                    Some(Command::ShowHelp)
                } else if c == 'q' {
                    Some(Command::Exit)
                } else {
                    None
                },
                _ => None,
            },
        },
    }
}

/// The number of rows of the visible list: the matches in search mode, all
/// `entry_count` entries otherwise.
pub open spec fn visible_count_of(m: ModeModel, entry_count: int) -> int {
    match m {
        ModeModel::Search { matches, .. } => matches.len() as int,
        _ => entry_count,
    }
}

/// Search mode on `query` over `entries`, with the cursor at its end.
pub open spec fn search_on(entries: Seq<SshConfigEntry>, query: Seq<char>) -> ModeModel {
    ModeModel::Search {
        query,
        cursor_position: cursor_after(query) as usize,
        matches: filter_spec(entries, query),
        current_match: None,
    }
}

/// The mode after `cmd` in mode `m`.
pub open spec fn mode_after(m: ModeModel, entries: Seq<SshConfigEntry>, cmd: Command) -> ModeModel {
    match cmd {
        Command::EnterSearch => if m is Normal {
            ModeModel::Search {
                query: Seq::empty(),
                cursor_position: 0,
                matches: Seq::new(entries.len(), |i: int| i as usize),
                current_match: None,
            }
        } else {
            m
        },
        Command::ShowHelp => if m is Normal {
            ModeModel::Help
        } else {
            m
        },
        Command::ExitToNormal => ModeModel::Normal,
        Command::AppendToQuery(c) => match m {
            ModeModel::Search { query, .. } => search_on(entries, query.push(c)),
            _ => m,
        },
        Command::BackspaceQuery => match m {
            ModeModel::Search { query, .. } => if query.len() > 0 {
                search_on(entries, query.drop_last())
            } else {
                m
            },
            _ => m,
        },
        _ => m,
    }
}

/// Whether the overlay is open after `cmd` in mode `m`.
pub open spec fn popup_after(open: bool, m: ModeModel, cmd: Command) -> bool {
    match cmd {
        Command::TogglePopup => if m is Help {
            open
        } else {
            !open
        },
        Command::ShowHelp => if m is Normal {
            true
        } else {
            open
        },
        Command::ExitToNormal => false,
        _ => open,
    }
}

/// Whether the loop goes on after `cmd` in mode `m`: an exit request is
/// ignored while searching, an interrupt always stops the loop.
pub open spec fn control_after(m: ModeModel, cmd: Command) -> LoopControl {
    match cmd {
        Command::Exit => if m is Search {
            LoopControl::Continue
        } else {
            LoopControl::Quit
        },
        Command::FatalSignal => LoopControl::Fatal,
        _ => LoopControl::Continue,
    }
}

/// The selection after `cmd`: moves and clicks act on the visible list of
/// the new mode, and every change of the visible list clamps the selection
/// into it again.
pub open spec fn list_after(
    l: ListStateManager,
    m: ModeModel,
    entries: Seq<SshConfigEntry>,
    cmd: Command,
) -> ListStateManager {
    let vc = visible_count_of(mode_after(m, entries, cmd), entries.len() as int);
    match cmd {
        Command::MoveSelection(d) => if vc == 0 {
            l
        } else {
            selected_after(l, step_index(l.selected_index as int, d, vc), vc)
        },
        Command::SetSelection(i) => selected_after(l, i as int, vc),
        Command::EnterSearch | Command::ExitToNormal | Command::AppendToQuery(_)
        | Command::BackspaceQuery => selected_after(l, l.selected_index as int, vc),
        _ => l,
    }
}

/// The index into the visible list that a click on screen row `row` lands
/// on, with `header` rows above the list and the list scrolled by
/// `scroll_offset`; `None` when that is outside the `visible_count` rows.
pub open spec fn click_spec(row: int, header: int, scroll_offset: int, visible_count: int) -> Option<usize> {
    if row >= header && row - header + scroll_offset < visible_count {
        Some((row - header + scroll_offset) as usize)
    } else {
        None
    }
}

/// The visible list row under screen row `row`, if there is one.
pub fn click_to_index(row: u16, header: u16, scroll_offset: usize, visible_count: usize) -> (r:
    Option<usize>)
    ensures
        r == click_spec(row as int, header as int, scroll_offset as int, visible_count as int),
{
    if row < header {
        return None;
    }
    let rel = (row - header) as usize;
    if scroll_offset < visible_count && rel < visible_count - scroll_offset {
        Some(rel + scroll_offset)
    } else {
        None
    }
}

/// The command for `key` in `mode`, if the key means anything there.
pub fn decode_key(key: Key, mode: &AppMode) -> (r: Option<Command>)
    ensures
        r == decode_spec(key, mode@),
{
    if key == Key::Interrupt {
        return Some(Command::FatalSignal);
    }
    match mode {
        AppMode::Help => match key {
            Key::Esc => Some(Command::ExitToNormal),
            _ => None,
        },
        AppMode::Search { .. } => match key {
            Key::Up => Some(Command::MoveSelection(NavigationDirection::Up)),
            Key::Down => Some(Command::MoveSelection(NavigationDirection::Down)),
            Key::Enter => Some(Command::TogglePopup),
            Key::Esc => Some(Command::ExitToNormal),
            Key::Backspace => Some(Command::BackspaceQuery),
            Key::Char(c) => Some(Command::AppendToQuery(c)),
            _ => None,
        },
        AppMode::Normal => match key {
            Key::Up => Some(Command::MoveSelection(NavigationDirection::Up)),
            Key::Down => Some(Command::MoveSelection(NavigationDirection::Down)),
            Key::Enter => Some(Command::TogglePopup),
            Key::Esc => Some(Command::ExitToNormal),
            Key::Char(c) => if c == '/' {
                Some(Command::EnterSearch)
            } else if c == 'h' {
                Some(Command::ShowHelp)
            } else if c == 'q' {
                Some(Command::Exit)
            } else {
                None
            },
            _ => None,
        },
    }
}

/// Leaving search mode leaves nothing of it behind: from normal mode, `/`
/// then Esc comes back to normal mode, whatever was typed in between, and a
/// following `h` enters help mode, which carries no query or matches.
pub proof fn lemma_search_escape_help(entries: Seq<SshConfigEntry>, m: ModeModel, typed: ModeModel)
    requires
        m is Normal,
        typed is Search,
    ensures
        decode_spec(Key::Char('/'), m) == Some(Command::EnterSearch),
        mode_after(m, entries, Command::EnterSearch) is Search,
        decode_spec(Key::Esc, typed) == Some(Command::ExitToNormal),
        mode_after(typed, entries, Command::ExitToNormal) == ModeModel::Normal,
        mode_after(mode_after(m, entries, Command::EnterSearch), entries, Command::ExitToNormal)
            == ModeModel::Normal,
        decode_spec(Key::Char('h'), ModeModel::Normal) == Some(Command::ShowHelp),
        mode_after(
            mode_after(mode_after(m, entries, Command::EnterSearch), entries, Command::ExitToNormal),
            entries,
            Command::ShowHelp,
        ) == ModeModel::Help,
{
}

/// The whole mutable state of the browser: selection and scroll, mode, and
/// whether the overlay is open. The control loop owns it alone.
#[derive(Debug)]
pub struct BrowserState {
    pub list: ListStateManager,
    pub mode: AppMode,
    pub popup_open: bool,
}

impl BrowserState {
    /// The state is consistent with `entries`: in search mode the matches
    /// are what the query selects, and the selection lies in the visible
    /// list (at row zero when that is empty).
    pub open spec fn wf(&self, entries: Seq<SshConfigEntry>) -> bool {
        let vc = visible_count_of(self.mode@, entries.len() as int);
        &&& entries.len() <= usize::MAX
        &&& (self.mode@ matches ModeModel::Search { query, matches, .. } ==> matches
            == filter_spec(entries, query))
        &&& (vc == 0 ==> self.list.selected_index == 0)
        &&& (vc > 0 ==> self.list.selected_index < vc)
    }

    /// Normal mode, overlay closed, first row selected when there is one.
    pub fn new(entries: &[SshConfigEntry]) -> (r: BrowserState)
        ensures
            r.wf(entries@),
            r.mode@ == ModeModel::Normal,
            !r.popup_open,
            entries@.len() == 0 ==> r.list == ListStateManager::spec_new(),
            entries@.len() > 0 ==> r.list == selected_after(
                ListStateManager::spec_new(),
                0,
                entries@.len() as int,
            ),
    {
        let mut list = ListStateManager::new();
        if entries.len() > 0 {
            list.select(0, entries.len());
        }
        BrowserState { list, mode: AppMode::Normal, popup_open: false }
    }

    /// The number of rows of the visible list.
    pub fn visible_count(&self, entry_count: usize) -> (r: usize)
        ensures
            r as int == visible_count_of(self.mode@, entry_count as int),
    {
        match &self.mode {
            AppMode::Search { matches, .. } => matches.len(),
            _ => entry_count,
        }
    }

    /// The entry indices of the visible list, in display order.
    pub fn visible_indices(&self, entry_count: usize) -> (r: Vec<usize>)
        ensures
            r@ == (match self.mode@ {
                ModeModel::Search { matches, .. } => matches,
                _ => Seq::new(entry_count as nat, |i: int| i as usize),
            }),
    {
        let mut r: Vec<usize> = Vec::new();
        match &self.mode {
            AppMode::Search { matches, .. } => {
                let mut i: usize = 0;
                while i < matches.len()
                    invariant
                        i <= matches@.len(),
                        r@ == matches@.subrange(0, i as int),
                    decreases matches@.len() - i,
                {
                    r.push(matches[i]);
                    i = i + 1;
                }
                assert(r@ == matches@.subrange(0, i as int));
                assert(matches@.subrange(0, i as int) =~= matches@);
            },
            _ => {
                let mut i: usize = 0;
                while i < entry_count
                    invariant
                        i <= entry_count,
                        r@ == Seq::new(i as nat, |k: int| k as usize),
                    decreases entry_count - i,
                {
                    r.push(i);
                    i = i + 1;
                    assert(r@ =~= Seq::new(i as nat, |k: int| k as usize));
                }
            },
        }
        r
    }

    /// The index of the entry under the selection, if the visible list has
    /// a row there.
    pub fn selected_entry(&self, entry_count: usize) -> (r: Option<usize>)
        ensures
            r == (match self.mode@ {
                ModeModel::Search { matches, .. } => if (self.list.selected_index as int)
                    < matches.len() {
                    Some(matches[self.list.selected_index as int])
                } else {
                    None
                },
                _ => if self.list.selected_index < entry_count {
                    Some(self.list.selected_index)
                } else {
                    None
                },
            }),
    {
        let sel = self.list.selected_index;
        match &self.mode {
            AppMode::Search { matches, .. } => if sel < matches.len() {
                Some(matches[sel])
            } else {
                None
            },
            _ => if sel < entry_count {
                Some(sel)
            } else {
                None
            },
        }
    }

    /// The command for a click on screen row `row`: the visible row under
    /// it, when there is one.
    pub fn decode_click(&self, entry_count: usize, row: u16) -> (r: Option<Command>)
        ensures
            r == (match click_spec(
                row as int,
                HEADER_ROWS as int,
                self.list.scroll_offset as int,
                visible_count_of(self.mode@, entry_count as int),
            ) {
                Some(i) => Some(Command::SetSelection(i)),
                None => None,
            }),
    {
        let vc = self.visible_count(entry_count);
        match click_to_index(row, HEADER_ROWS, self.list.scroll_offset, vc) {
            Some(i) => Some(Command::SetSelection(i)),
            None => None,
        }
    }

    /// Applies one command: changes mode, query, matches, overlay and
    /// selection as the command says, and tells whether the loop goes on.
    pub fn apply(&mut self, entries: &[SshConfigEntry], cmd: Command) -> (r: LoopControl)
        requires
            old(self).wf(entries@),
        ensures
            final(self).wf(entries@),
            final(self).mode@ == mode_after(old(self).mode@, entries@, cmd),
            final(self).popup_open == popup_after(old(self).popup_open, old(self).mode@, cmd),
            final(self).list == list_after(old(self).list, old(self).mode@, entries@, cmd),
            r == control_after(old(self).mode@, cmd),
    {
        let n = entries.len();
        match cmd {
            Command::MoveSelection(d) => {
                let vc = self.visible_count(n);
                self.list.move_selection(d, vc);
                LoopControl::Continue
            },
            Command::SetSelection(i) => {
                let vc = self.visible_count(n);
                self.list.select(i, vc);
                LoopControl::Continue
            },
            Command::EnterSearch => {
                if !self.mode.is_search() && !self.is_help() {
                    self.mode = AppMode::start_search(n);
                    proof {
                        lemma_empty_query_selects_all(entries@, Seq::empty());
                    }
                }
                self.reclamp(n);
                LoopControl::Continue
            },
            Command::ExitToNormal => {
                self.mode = AppMode::Normal;
                self.popup_open = false;
                self.reclamp(n);
                LoopControl::Continue
            },
            Command::ShowHelp => {
                if !self.mode.is_search() && !self.is_help() {
                    self.mode = AppMode::Help;
                    self.popup_open = true;
                }
                LoopControl::Continue
            },
            Command::TogglePopup => {
                if !self.is_help() {
                    self.popup_open = !self.popup_open;
                }
                LoopControl::Continue
            },
            Command::AppendToQuery(c) => {
                let q = self.mode.get_search_query();
                if let Some(q) = q {
                    let mut new_query = String::from_str(q);
                    push_char(&mut new_query, c);
                    let matches = filter_entries(entries, new_query.as_str());
                    self.mode.update_search(new_query, matches);
                }
                self.reclamp(n);
                LoopControl::Continue
            },
            Command::BackspaceQuery => {
                let q = self.mode.get_search_query();
                if let Some(q) = q {
                    let mut new_query = String::from_str(q);
                    let popped = pop_char(&mut new_query);
                    if popped.is_some() {
                        let matches = filter_entries(entries, new_query.as_str());
                        self.mode.update_search(new_query, matches);
                    }
                }
                self.reclamp(n);
                LoopControl::Continue
            },
            Command::Exit => {
                if self.mode.is_search() {
                    LoopControl::Continue
                } else {
                    LoopControl::Quit
                }
            },
            Command::FatalSignal => LoopControl::Fatal,
        }
    }

    /// Takes a new viewport height and clamps the scroll to it again, so
    /// that the selection stays in view.
    pub fn set_viewport_height(&mut self, entries: &[SshConfigEntry], height: usize)
        requires
            old(self).wf(entries@),
        ensures
            final(self).wf(entries@),
            final(self).mode == old(self).mode,
            final(self).popup_open == old(self).popup_open,
            final(self).list == selected_after(
                ListStateManager { max_display_items: Some(height), ..old(self).list },
                old(self).list.selected_index as int,
                visible_count_of(old(self).mode@, entries@.len() as int),
            ),
    {
        self.list.set_viewport_height(height);
        self.reclamp(entries.len());
    }

    /// Whether this is help mode.
    fn is_help(&self) -> (r: bool)
        ensures
            r == (self.mode@ is Help),
    {
        match self.mode {
            AppMode::Help => true,
            _ => false,
        }
    }

    /// Clamps the selection into the visible list of the current mode.
    fn reclamp(&mut self, entry_count: usize)
        ensures
            final(self).mode == old(self).mode,
            final(self).popup_open == old(self).popup_open,
            final(self).list == selected_after(
                old(self).list,
                old(self).list.selected_index as int,
                visible_count_of(old(self).mode@, entry_count as int),
            ),
    {
        let vc = self.visible_count(entry_count);
        let sel = self.list.selected_index;
        self.list.select(sel, vc);
    }
}

} // verus!
