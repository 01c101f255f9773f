use ssh_config::browser::{click_to_index, decode_key, HEADER_ROWS};
use ssh_config::mode::SearchTitle;
use ssh_config::{AppMode, BrowserState, Command, Key, ListStateManager, LoopControl, NavigationDirection, SshConfigEntry};

fn hosts(names: &[&str]) -> Vec<SshConfigEntry> {
    names.iter().map(|n| SshConfigEntry::new(n.to_string())).collect()
}

fn search_matches(state: &BrowserState) -> Vec<usize> {
    match &state.mode {
        AppMode::Search { matches, .. } => matches.clone(),
        _ => panic!("not in search mode"),
    }
}

#[test]
fn wrap_around_down_from_last() {
    let mut list = ListStateManager::new();
    list.set_viewport_height(10);
    list.select(4, 5);
    assert_eq!(list.get_index(), 4);
    assert_eq!(list.move_selection(NavigationDirection::Down, 5), 0);
    assert_eq!(list.get_index(), 0);
}

#[test]
fn wrap_around_up_from_first() {
    let mut list = ListStateManager::new();
    list.set_viewport_height(10);
    list.select(0, 5);
    assert_eq!(list.move_selection(NavigationDirection::Up, 5), 4);
    assert_eq!(list.get_index(), 4);
}

#[test]
fn move_on_empty_list_is_noop() {
    let mut list = ListStateManager::new();
    list.set_viewport_height(3);
    list.select(0, 0);
    let before = (list.get_index(), list.scroll_offset);
    list.move_selection(NavigationDirection::Down, 0);
    assert_eq!((list.get_index(), list.scroll_offset), before);
}

#[test]
fn scroll_tracking_three_moves_down() {
    let entries = hosts(&["a", "b", "c", "d", "e"]);
    let mut state = BrowserState::new(&entries);
    state.list.set_viewport_height(3);
    state.list.select(0, 5);
    for _ in 0..3 {
        assert_eq!(state.apply(&entries, Command::MoveSelection(NavigationDirection::Down)), LoopControl::Continue);
    }
    assert_eq!(state.list.get_index(), 3);
    assert_eq!(state.list.scroll_offset, 1);
    let visible = state.visible_indices(entries.len());
    let shown: Vec<&str> = visible[state.list.scroll_offset..state.list.scroll_offset + 3]
        .iter()
        .map(|&i| entries[i].host.as_str())
        .collect();
    assert_eq!(shown, vec!["b", "c", "d"]);
}

#[test]
fn selection_stays_in_viewport() {
    let mut list = ListStateManager::new();
    list.set_viewport_height(4);
    for target in [0usize, 9, 3, 20, 1, 7, 0, 5] {
        list.select(target, 10);
        let sel = list.get_index();
        assert!(sel < 10);
        assert!(list.scroll_offset <= sel && sel < list.scroll_offset + 4);
    }
    for _ in 0..25 {
        list.move_selection(NavigationDirection::Up, 10);
        let sel = list.get_index();
        assert!(list.scroll_offset <= sel && sel < list.scroll_offset + 4);
    }
}

#[test]
fn select_clamps_target_and_scroll() {
    let mut list = ListStateManager::new();
    list.set_viewport_height(3);
    list.select(42, 5);
    assert_eq!(list.get_index(), 4);
    assert_eq!(list.scroll_offset, 2);
    list.select(0, 5);
    assert_eq!(list.scroll_offset, 0);
}

#[test]
fn scroll_up_and_down_stay_in_bounds() {
    let mut list = ListStateManager::new();
    list.set_viewport_height(3);
    list.scroll_up();
    assert_eq!(list.scroll_offset, 0);
    list.scroll_down(5);
    list.scroll_down(5);
    list.scroll_down(5);
    assert_eq!(list.scroll_offset, 2);
    list.set_scroll_offset(1);
    list.scroll_up();
    assert_eq!(list.scroll_offset, 0);
}

#[test]
fn clear_selection_keeps_index() {
    let mut list = ListStateManager::new();
    list.set_viewport_height(3);
    list.select(2, 5);
    assert!(list.is_highlighted());
    list.clear_selection();
    assert!(!list.is_highlighted());
    assert_eq!(list.get_index(), 2);
    assert_eq!(list.viewport_height(), 3);
}

#[test]
fn search_narrowing_and_backspace() {
    let entries = hosts(&["web1", "web2", "db1"]);
    let mut state = BrowserState::new(&entries);
    state.apply(&entries, Command::EnterSearch);
    assert_eq!(search_matches(&state), vec![0, 1, 2]);
    state.apply(&entries, Command::AppendToQuery('w'));
    state.apply(&entries, Command::AppendToQuery('e'));
    assert_eq!(state.mode.get_search_query(), Some("we"));
    assert_eq!(search_matches(&state), vec![0, 1]);
    state.apply(&entries, Command::BackspaceQuery);
    assert_eq!(state.mode.get_search_query(), Some("w"));
    state.apply(&entries, Command::BackspaceQuery);
    assert_eq!(state.mode.get_search_query(), Some(""));
    assert_eq!(search_matches(&state), vec![0, 1, 2]);
}

#[test]
fn search_by_keys_we_then_backspace() {
    let entries = hosts(&["web1", "web2", "db1"]);
    let mut state = BrowserState::new(&entries);
    for key in [Key::Char('/'), Key::Char('w'), Key::Char('e')] {
        let cmd = decode_key(key, &state.mode).unwrap();
        state.apply(&entries, cmd);
    }
    assert_eq!(search_matches(&state), vec![0, 1]);
    let cmd = decode_key(Key::Backspace, &state.mode).unwrap();
    state.apply(&entries, cmd);
    assert_eq!(state.mode.get_search_query(), Some("w"));
    assert_eq!(search_matches(&state), vec![0, 1]);
    let cmd = decode_key(Key::Backspace, &state.mode).unwrap();
    state.apply(&entries, cmd);
    assert_eq!(state.mode.get_search_query(), Some(""));
    assert_eq!(search_matches(&state), vec![0, 1, 2]);
}

#[test]
fn backspace_on_empty_query_is_noop() {
    let entries = hosts(&["web1", "db1"]);
    let mut state = BrowserState::new(&entries);
    state.apply(&entries, Command::EnterSearch);
    state.apply(&entries, Command::BackspaceQuery);
    assert_eq!(state.mode.get_search_query(), Some(""));
    assert_eq!(search_matches(&state), vec![0, 1]);
}

#[test]
fn narrowing_clamps_selection() {
    let entries = hosts(&["web1", "web2", "db1"]);
    let mut state = BrowserState::new(&entries);
    state.list.set_viewport_height(5);
    state.apply(&entries, Command::SetSelection(2));
    state.apply(&entries, Command::EnterSearch);
    state.apply(&entries, Command::AppendToQuery('w'));
    assert_eq!(search_matches(&state), vec![0, 1]);
    assert_eq!(state.list.get_index(), 1);
    assert_eq!(state.selected_entry(entries.len()), Some(1));
    state.apply(&entries, Command::AppendToQuery('z'));
    assert_eq!(state.visible_count(entries.len()), 0);
    assert_eq!(state.list.get_index(), 0);
    assert_eq!(state.selected_entry(entries.len()), None);
}

#[test]
fn search_selection_maps_to_entry() {
    let entries = hosts(&["web1", "db1", "web2"]);
    let mut state = BrowserState::new(&entries);
    state.list.set_viewport_height(5);
    state.apply(&entries, Command::EnterSearch);
    state.apply(&entries, Command::AppendToQuery('W'));
    assert_eq!(state.visible_indices(entries.len()), vec![0, 2]);
    state.apply(&entries, Command::MoveSelection(NavigationDirection::Down));
    assert_eq!(state.selected_entry(entries.len()), Some(2));
}

#[test]
fn mouse_mapping_accepted_and_rejected() {
    assert_eq!(HEADER_ROWS, 2);
    assert_eq!(click_to_index(5, 2, 2, 6), Some(5));
    assert_eq!(click_to_index(5, 2, 2, 5), None);
    assert_eq!(click_to_index(1, 2, 0, 5), None);
    assert_eq!(click_to_index(2, 2, 0, 5), Some(0));
}

#[test]
fn click_selects_row() {
    let entries = hosts(&["a", "b", "c", "d", "e", "f", "g"]);
    let mut state = BrowserState::new(&entries);
    state.list.set_viewport_height(3);
    state.list.set_scroll_offset(2);
    let cmd = state.decode_click(entries.len(), 5).unwrap();
    assert_eq!(cmd, Command::SetSelection(5));
    assert_eq!(state.decode_click(entries.len(), 9), None);
    state.apply(&entries, cmd);
    assert_eq!(state.list.get_index(), 5);
}

#[test]
fn slash_escape_then_help_leaves_no_search_state() {
    let entries = hosts(&["web1", "db1"]);
    let mut state = BrowserState::new(&entries);
    for key in [Key::Char('/'), Key::Char('d'), Key::Esc] {
        let cmd = decode_key(key, &state.mode).unwrap();
        state.apply(&entries, cmd);
    }
    assert!(matches!(state.mode, AppMode::Normal));
    assert_eq!(state.mode.get_search_query(), None);
    assert_eq!(state.visible_count(entries.len()), 2);
    let cmd = decode_key(Key::Char('h'), &state.mode).unwrap();
    assert_eq!(cmd, Command::ShowHelp);
    state.apply(&entries, cmd);
    assert!(matches!(state.mode, AppMode::Help));
    assert!(!state.mode.is_search());
    assert!(state.popup_open);
    assert_eq!(decode_key(Key::Char('q'), &state.mode), None);
    let cmd = decode_key(Key::Esc, &state.mode).unwrap();
    state.apply(&entries, cmd);
    assert!(matches!(state.mode, AppMode::Normal));
    assert!(!state.popup_open);
}

#[test]
fn q_is_text_while_searching() {
    let entries = hosts(&["quux", "db1"]);
    let mut state = BrowserState::new(&entries);
    assert_eq!(decode_key(Key::Char('q'), &state.mode), Some(Command::Exit));
    state.apply(&entries, Command::EnterSearch);
    assert_eq!(decode_key(Key::Char('q'), &state.mode), Some(Command::AppendToQuery('q')));
    assert_eq!(decode_key(Key::Char('h'), &state.mode), Some(Command::AppendToQuery('h')));
    assert_eq!(decode_key(Key::Char('/'), &state.mode), Some(Command::AppendToQuery('/')));
    assert_eq!(state.apply(&entries, Command::Exit), LoopControl::Continue);
    state.apply(&entries, Command::AppendToQuery('q'));
    assert_eq!(search_matches(&state), vec![0]);
}

#[test]
fn exit_and_interrupt_stop_the_loop() {
    let entries = hosts(&["a"]);
    let mut state = BrowserState::new(&entries);
    assert_eq!(state.apply(&entries, Command::Exit), LoopControl::Quit);
    assert_eq!(LoopControl::Quit.exit_code(), 0);
    assert_eq!(decode_key(Key::Interrupt, &state.mode), Some(Command::FatalSignal));
    state.apply(&entries, Command::EnterSearch);
    assert_eq!(state.apply(&entries, Command::FatalSignal), LoopControl::Fatal);
    assert_eq!(LoopControl::Fatal.exit_code(), 1);
    assert_eq!(LoopControl::Continue.exit_code(), 0);
}

#[test]
fn popup_toggles_and_closes_on_escape() {
    let entries = hosts(&["a", "b"]);
    let mut state = BrowserState::new(&entries);
    assert_eq!(decode_key(Key::Enter, &state.mode), Some(Command::TogglePopup));
    state.apply(&entries, Command::TogglePopup);
    assert!(state.popup_open);
    state.apply(&entries, Command::TogglePopup);
    assert!(!state.popup_open);
    state.apply(&entries, Command::TogglePopup);
    state.apply(&entries, Command::ExitToNormal);
    assert!(!state.popup_open);
}

#[test]
fn new_state_on_empty_store() {
    let entries: Vec<SshConfigEntry> = Vec::new();
    let mut state = BrowserState::new(&entries);
    assert_eq!(state.list.get_index(), 0);
    assert!(!state.list.is_highlighted());
    state.apply(&entries, Command::MoveSelection(NavigationDirection::Down));
    assert_eq!(state.list.get_index(), 0);
    assert_eq!(state.selected_entry(0), None);
    assert!(state.visible_indices(0).is_empty());
}

#[test]
fn update_search_only_in_search_mode() {
    let mut mode = AppMode::Normal;
    mode.update_search("abc".to_string(), vec![1]);
    assert!(matches!(mode, AppMode::Normal));
    let mut mode = AppMode::start_search(3);
    mode.update_search("héllo".to_string(), vec![2]);
    match &mode {
        AppMode::Search { query, cursor_position, matches, current_match } => {
            assert_eq!(query, "héllo");
            assert_eq!(*cursor_position, 6);
            assert_eq!(matches, &vec![2]);
            assert_eq!(*current_match, None);
        }
        _ => panic!("left search mode"),
    }
}

#[test]
fn search_bar_titles_and_text() {
    assert!(AppMode::Help.search_bar().is_none());
    let mode = AppMode::start_search(0);
    let (title, text) = mode.search_bar().unwrap();
    assert_eq!(title, SearchTitle::Plain);
    assert_eq!(text, "type to search...");
    let mut mode = AppMode::start_search(2);
    mode.update_search("zz".to_string(), vec![]);
    let (title, text) = mode.search_bar().unwrap();
    assert_eq!(title, SearchTitle::NoMatches);
    assert_eq!(text, "zz");
    mode.update_search("a".to_string(), vec![0, 1]);
    assert_eq!(mode.search_bar().unwrap().0, SearchTitle::Matches(2));
}

#[test]
fn resize_brings_selection_back_into_view() {
    let entries = hosts(&["a", "b", "c", "d", "e", "f"]);
    let mut state = BrowserState::new(&entries);
    state.set_viewport_height(&entries, 10);
    state.apply(&entries, Command::SetSelection(5));
    assert_eq!(state.list.scroll_offset, 0);
    state.set_viewport_height(&entries, 2);
    assert_eq!(state.list.viewport_height(), 2);
    assert_eq!(state.list.get_index(), 5);
    assert_eq!(state.list.scroll_offset, 4);
}
