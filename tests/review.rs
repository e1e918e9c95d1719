use music_review::app::{App, AppState, FocusedPane, StatusMessage};
use music_review::metadata::{MetadataItem, ProviderResult, TrackInfo};

fn item(name: &str) -> MetadataItem {
    MetadataItem {
        path: format!("/music/{}", name),
        title: name.to_string(),
        artist: String::new(),
        album: String::new(),
        track: String::new(),
        year: String::new(),
    }
}

fn candidate(title: &str, score: u64) -> ProviderResult {
    ProviderResult {
        provider: "example".to_string(),
        title: title.to_string(),
        artist: "Artist".to_string(),
        album: "Album".to_string(),
        year: "2001".to_string(),
        score,
        tracks: vec![TrackInfo { position: "1".to_string(), title: "Intro".to_string() }],
    }
}

fn session() -> App {
    let mut app = App::new();
    app.current_path = "/music".to_string();
    app
}

fn scanned(dirs: usize, files: usize) -> App {
    let mut app = session();
    let d = (0..dirs).map(|i| format!("/music/d{}", i)).collect();
    let f = (0..files).map(|i| item(&format!("f{}.mp3", i))).collect();
    app.scan_current_directory(Ok((d, f)));
    app
}

#[test]
fn new_session_starts_in_navigation() {
    let app = App::new();
    assert_eq!(app.state, AppState::Navigation);
    assert_eq!(app.focus, FocusedPane::Directory);
    assert!(app.directories.is_empty() && app.files.is_empty() && app.results.is_empty());
    assert_eq!(app.selected_directory, None);
    assert_eq!(app.selected_file, None);
    assert_eq!(app.selected_result, None);
    assert_eq!(app.details_scroll, 0);
    assert_eq!(app.status_message, StatusMessage::Welcome);
}

#[test]
fn scan_installs_lists_and_clears_selections() {
    let mut app = scanned(2, 3);
    assert_eq!(app.directories.len(), 2);
    assert_eq!(app.files.len(), 3);
    assert_eq!(app.status_message, StatusMessage::ScanComplete { files: 3 });
    app.next_item();
    assert_eq!(app.selected_directory, Some(0));
    app.scan_current_directory(Ok((vec!["/x".to_string()], vec![])));
    assert_eq!(app.selected_directory, None);
    assert_eq!(app.directories, vec!["/x".to_string()]);
}

#[test]
fn failed_scan_keeps_state_and_empties_lists() {
    let mut app = scanned(2, 3);
    app.scan_current_directory(Err("permission denied".to_string()));
    assert_eq!(app.state, AppState::Navigation);
    assert!(app.directories.is_empty());
    assert!(app.files.is_empty());
    assert_eq!(app.status_message, StatusMessage::ScanFailed("permission denied".to_string()));
}

#[test]
fn select_directory_moves_into_selection() {
    let mut app = scanned(3, 0);
    assert!(!app.select_directory());
    assert_eq!(app.current_path, "/music");
    app.next_item();
    app.next_item();
    assert!(app.select_directory());
    assert_eq!(app.current_path, "/music/d1");
}

#[test]
fn next_item_wraps_after_full_cycle() {
    for n in 1..5usize {
        for start in 0..n {
            let mut app = scanned(n, 0);
            app.selected_directory = Some(start);
            for _ in 0..n {
                app.next_item();
            }
            assert_eq!(app.selected_directory, Some(start));
        }
    }
}

#[test]
fn next_then_previous_is_identity() {
    let mut app = scanned(0, 4);
    app.toggle_focus();
    assert_eq!(app.focus, FocusedPane::Files);
    for start in 0..4usize {
        app.selected_file = Some(start);
        app.next_item();
        app.previous_item();
        assert_eq!(app.selected_file, Some(start));
        app.previous_item();
        app.next_item();
        assert_eq!(app.selected_file, Some(start));
    }
}

#[test]
fn list_navigation_wraps_at_both_ends() {
    let mut app = scanned(3, 0);
    app.previous_item();
    assert_eq!(app.selected_directory, Some(0));
    app.previous_item();
    assert_eq!(app.selected_directory, Some(2));
    app.next_item();
    assert_eq!(app.selected_directory, Some(0));
}

#[test]
fn empty_lists_stay_unselected() {
    let mut app = scanned(0, 0);
    for _ in 0..3 {
        app.next_item();
        app.previous_item();
        app.toggle_focus();
    }
    assert_eq!(app.selected_directory, None);
    assert_eq!(app.selected_file, None);
    app.search_metadata(Ok(vec![]));
    app.next_result();
    app.previous_result();
    assert_eq!(app.selected_result, None);
}

#[test]
fn focus_cycles_through_panes() {
    let mut app = session();
    app.toggle_focus();
    assert_eq!(app.focus, FocusedPane::Files);
    app.toggle_focus();
    assert_eq!(app.focus, FocusedPane::Results);
    app.toggle_focus();
    assert_eq!(app.focus, FocusedPane::Directory);
}

#[test]
fn search_needs_files() {
    let mut app = scanned(1, 0);
    assert!(!app.request_search());
    assert_eq!(app.status_message, StatusMessage::NoFilesToSearch);
    let mut app = scanned(0, 1);
    assert!(app.request_search());
    assert_eq!(app.status_message, StatusMessage::Searching);
}

#[test]
fn search_always_lands_in_results_unselected() {
    for n in 0..3usize {
        let mut app = scanned(0, 1);
        let found = (0..n).map(|i| candidate(&format!("c{}", i), 500_000)).collect();
        app.search_metadata(Ok(found));
        assert_eq!(app.state, AppState::Results);
        assert_eq!(app.selected_result, None);
        assert_eq!(app.results.len(), n);
        assert_eq!(app.status_message, StatusMessage::SearchComplete { results: n });
    }
}

#[test]
fn failed_search_stays_in_navigation() {
    let mut app = scanned(0, 1);
    app.search_metadata(Err("provider unreachable".to_string()));
    assert_eq!(app.state, AppState::Navigation);
    assert!(app.results.is_empty());
    assert_eq!(app.status_message, StatusMessage::SearchFailed("provider unreachable".to_string()));
}

#[test]
fn review_scenario_enter_and_back() {
    let mut app = scanned(0, 2);
    assert_eq!(app.state, AppState::Navigation);
    app.search_metadata(Ok(vec![candidate("Album", 920_000)]));
    assert_eq!(app.state, AppState::Results);
    assert_eq!(app.results.len(), 1);
    app.details_scroll = 7;
    app.show_details();
    assert_eq!(app.state, AppState::Details);
    assert_eq!(app.details_scroll, 0);
    let chosen = app.selected_result;
    assert_eq!(chosen, Some(0));
    app.go_back();
    assert_eq!(app.state, AppState::Results);
    assert_eq!(app.selected_result, chosen);
    app.go_back();
    assert_eq!(app.state, AppState::Navigation);
    assert_eq!(app.selected_result, None);
}

#[test]
fn back_in_navigation_does_nothing() {
    let mut app = scanned(1, 1);
    app.go_back();
    assert_eq!(app.state, AppState::Navigation);
    assert_eq!(app.selected_result, None);
}

#[test]
fn result_navigation_wraps() {
    let mut app = scanned(0, 1);
    app.search_metadata(Ok(vec![candidate("a", 1), candidate("b", 2), candidate("c", 3)]));
    app.next_result();
    assert_eq!(app.selected_result, Some(0));
    app.previous_result();
    assert_eq!(app.selected_result, Some(2));
    app.next_result();
    assert_eq!(app.selected_result, Some(0));
    app.next_result();
    app.show_details();
    assert_eq!(app.selected_result, Some(1));
}

#[test]
fn show_details_without_results_does_nothing() {
    let mut app = scanned(0, 1);
    app.search_metadata(Ok(vec![]));
    app.show_details();
    assert_eq!(app.state, AppState::Results);
}

#[test]
fn apply_without_selection_is_reported() {
    let mut app = scanned(0, 1);
    app.search_metadata(Ok(vec![candidate("a", 1)]));
    assert_eq!(app.apply_metadata(), None);
    assert_eq!(app.status_message, StatusMessage::NoMetadataSelected);
    assert_eq!(app.state, AppState::Results);
}

#[test]
fn apply_selected_result() {
    let mut app = scanned(0, 1);
    app.search_metadata(Ok(vec![candidate("a", 1), candidate("b", 2)]));
    app.next_result();
    app.next_result();
    app.show_details();
    assert_eq!(app.apply_metadata(), Some(1));
    assert_eq!(app.status_message, StatusMessage::ApplyingMetadata);
    app.finish_apply(Ok(()));
    assert_eq!(app.status_message, StatusMessage::MetadataApplied);
    app.finish_apply(Err("read-only file".to_string()));
    assert_eq!(app.status_message, StatusMessage::ApplyFailed("read-only file".to_string()));
    assert_eq!(app.state, AppState::Details);
}
