use instadl::config::Config;
use instadl::state::{
    classify_click, App, DownloadStatus, FocusedArea, InputMode, KeyAction, KeyInput,
};
use instadl::supervisor::{InstagramDownloader, RunOutput};

fn fresh_app() -> App {
    App::new(InstagramDownloader::new(Config::new("downloads".to_string())))
}

fn lines(texts: &[&str]) -> Vec<String> {
    texts.iter().map(|t| t.to_string()).collect()
}

#[test]
fn a_fresh_app_starts_editing_an_empty_buffer() {
    let app = fresh_app();
    assert_eq!(app.input, "");
    assert_eq!(app.input_mode, InputMode::Editing);
    assert_eq!(app.focused_area, FocusedArea::Input);
    assert_eq!(app.selected_tab, 0);
    assert!(app.selected_history_item.is_none());
    assert!(app.downloads.is_empty());
    assert!(matches!(app.download_status, DownloadStatus::NotStarted));
}

#[test]
fn edit_mode_transitions_move_focus_to_the_input() {
    let mut app = fresh_app();
    app.exit_edit_mode();
    assert_eq!(app.input_mode, InputMode::Normal);
    assert_eq!(app.focused_area, FocusedArea::Input);
    app.toggle_tab();
    app.enter_edit_mode();
    assert_eq!(app.input_mode, InputMode::Editing);
    assert_eq!(app.focused_area, FocusedArea::Input);
}

#[test]
fn toggling_the_tab_twice_returns_to_the_start() {
    let mut app = fresh_app();
    assert_eq!(app.selected_tab, 0);
    app.toggle_tab();
    assert_eq!(app.selected_tab, 1);
    assert_eq!(app.focused_area, FocusedArea::Tabs);
    app.toggle_tab();
    assert_eq!(app.selected_tab, 0);
}

#[test]
fn characters_reach_the_buffer_only_while_editing() {
    let mut app = fresh_app();
    app.push_char('a');
    app.push_char('b');
    assert_eq!(app.input, "ab");
    app.pop_char();
    assert_eq!(app.input, "a");
    app.pop_char();
    app.pop_char();
    assert_eq!(app.input, "");

    app.exit_edit_mode();
    app.push_char('x');
    app.pop_char();
    assert_eq!(app.input, "");
}

#[test]
fn every_character_reaches_the_buffer_while_editing() {
    let mut app = fresh_app();
    for c in "qQi".chars() {
        assert_eq!(app.handle_key(KeyInput::Character(c)), KeyAction::Continue);
    }
    assert_eq!(app.input, "qQi");
    assert_eq!(app.input_mode, InputMode::Editing);
    assert_eq!(app.handle_key(KeyInput::Backspace), KeyAction::Continue);
    assert_eq!(app.input, "qQ");
}

#[test]
fn a_url_with_the_letter_i_can_be_typed() {
    let mut app = fresh_app();
    for c in "https://instagram.com/p/i1".chars() {
        assert_eq!(app.handle_key(KeyInput::Character(c)), KeyAction::Continue);
    }
    assert_eq!(app.input, "https://instagram.com/p/i1");
}

#[test]
fn outside_edit_mode_the_letters_are_commands() {
    let mut app = fresh_app();
    app.exit_edit_mode();
    assert_eq!(app.handle_key(KeyInput::Character('q')), KeyAction::Continue);
    assert_eq!(app.handle_key(KeyInput::Character('x')), KeyAction::Continue);
    assert_eq!(app.input, "");
    assert_eq!(app.handle_key(KeyInput::Character('i')), KeyAction::Continue);
    assert_eq!(app.input_mode, InputMode::Editing);
    assert_eq!(app.input, "");
}

#[test]
fn quitting_takes_the_focused_exit_button() {
    let mut app = fresh_app();
    app.exit_edit_mode();
    assert_eq!(app.handle_key(KeyInput::Character('q')), KeyAction::Continue);
    app.handle_mouse_click(70, 1, 80, FocusedArea::ExitButton);
    assert_eq!(app.focused_area, FocusedArea::ExitButton);
    assert_eq!(app.handle_key(KeyInput::Character('Q')), KeyAction::Exit);
    assert_eq!(app.handle_key(KeyInput::Enter), KeyAction::Exit);
}

#[test]
fn enter_requests_a_submission_elsewhere() {
    let mut app = fresh_app();
    assert_eq!(app.handle_key(KeyInput::Enter), KeyAction::Submit);
    assert_eq!(app.handle_key(KeyInput::Tab), KeyAction::Continue);
    assert_eq!(app.selected_tab, 1);
    assert_eq!(app.handle_key(KeyInput::Escape), KeyAction::Continue);
    assert_eq!(app.input_mode, InputMode::Normal);
    assert_eq!(app.handle_key(KeyInput::Other), KeyAction::Continue);
}

#[test]
fn clicks_classify_by_terminal_bands() {
    assert_eq!(classify_click(75, 1, 80), FocusedArea::ExitButton);
    assert_eq!(classify_click(70, 1, 80), FocusedArea::Tabs);
    assert_eq!(classify_click(75, 2, 80), FocusedArea::Tabs);
    assert_eq!(classify_click(10, 4, 80), FocusedArea::Input);
    assert_eq!(classify_click(10, 6, 80), FocusedArea::History);
    assert_eq!(classify_click(3, 1, 4), FocusedArea::Tabs);
}

#[test]
fn tab_clicks_pick_the_half_under_the_pointer() {
    let mut app = fresh_app();
    app.handle_mouse_click(60, 1, 80, FocusedArea::Tabs);
    assert_eq!(app.selected_tab, 1);
    assert_eq!(app.focused_area, FocusedArea::Tabs);
    app.handle_mouse_click(10, 1, 80, FocusedArea::Tabs);
    assert_eq!(app.selected_tab, 0);
}

#[test]
fn input_clicks_start_editing() {
    let mut app = fresh_app();
    app.exit_edit_mode();
    app.handle_mouse_click(5, 4, 80, FocusedArea::Input);
    assert_eq!(app.input_mode, InputMode::Editing);
    assert_eq!(app.focused_area, FocusedArea::Input);
}

#[test]
fn history_clicks_mean_nothing_on_the_download_tab() {
    let mut app = fresh_app();
    submit_one_success(&mut app, "https://example.com/p/1");
    assert_eq!(app.selected_tab, 0);
    app.handle_mouse_click(10, 7, 80, FocusedArea::History);
    assert!(app.selected_history_item.is_none());
    assert_eq!(app.focused_area, FocusedArea::Input);
}

#[test]
fn history_clicks_select_the_row_in_bounds() {
    let mut app = fresh_app();
    submit_one_success(&mut app, "https://example.com/p/1");
    submit_one_success(&mut app, "https://example.com/p/2");
    app.toggle_tab();
    assert_eq!(app.selected_tab, 1);

    app.handle_mouse_click(10, 8, 80, FocusedArea::History);
    assert_eq!(app.selected_history_item, Some(1));
    assert_eq!(app.focused_area, FocusedArea::History);

    // Rows past the history leave the selection alone.
    app.handle_mouse_click(10, 9, 80, FocusedArea::History);
    assert_eq!(app.selected_history_item, Some(1));

    // Rows above the content band leave it alone as well.
    app.handle_mouse_click(10, 6, 80, FocusedArea::History);
    assert_eq!(app.selected_history_item, Some(1));
}

#[test]
fn submitting_an_empty_buffer_is_a_no_op() {
    let mut app = fresh_app();
    let run = RunOutput {
        stdout_lines: lines(&["download: 50.0%"]),
        stderr_lines: lines(&[]),
        exit_ok: true,
    };
    app.submit_url(&run);
    assert!(matches!(app.download_status, DownloadStatus::NotStarted));
    assert!(app.downloads.is_empty());
    assert!(app.pending_run.is_none());
}

#[test]
fn a_spawn_failure_ends_the_submission_with_its_message() {
    let mut app = fresh_app();
    app.push_char('u');
    let url = app.submit_begin().expect("non-empty input must begin");
    assert_eq!(url, "u");
    app.submit_spawn_failed();
    assert!(app.pending_run.is_none());
    assert!(app.downloads.is_empty());
    match &app.download_status {
        DownloadStatus::Error(message) => assert_eq!(message, "Failed to start yt-dlp"),
        other => panic!("expected an error status, got {:?}", other),
    }
}

fn submit_one_success(app: &mut App, url: &str) {
    app.enter_edit_mode();
    for c in url.chars() {
        app.push_char(c);
    }
    let run = RunOutput {
        stdout_lines: lines(&[]),
        stderr_lines: lines(&[]),
        exit_ok: true,
    };
    app.submit_url(&run);
    assert!(matches!(app.download_status, DownloadStatus::Complete));
}
