//! The interactive state machine.
//!
//! One aggregate holds the input buffer, the modal and focus state, the tab
//! selection, the download history and the status of the current or latest
//! download. Every change goes through a named transition, so the stated
//! invariants hold in every reachable state: the tab selection is zero or
//! one, and a selected history row always lies within the history.
//!
//! A submission runs as a small protocol, because the external process is
//! spawned and drained outside the library: `submit_begin` accepts or
//! rejects the buffered URL, `submit_progress_line` absorbs one line of live
//! output, and `submit_finish` turns the drained standard error and the exit
//! status into the final outcome. `submit_url` plays the whole protocol
//! against a finished transcript.

use vstd::prelude::*;
use vstd::string::*;

use crate::progress::{has_sentinel, parse_progress_line, spec_snapshot, ProgressSnapshot};
use crate::supervisor::{
    output_file_pattern, run_succeeds, spec_failure_message, spec_join_path, stderr_report,
    trim_text, InstagramDownloader, RunOutput,
};

verus! {

// ---------------------------------------------------------------------------
// The state's parts
// ---------------------------------------------------------------------------

/// Whether keystrokes edit the input buffer.
#[derive(Clone, Copy, PartialEq, Eq, Structural, Debug)]
pub enum InputMode {
    Normal,
    Editing,
}

impl Default for InputMode {
    /// The application starts out editing.
    fn default() -> (r: InputMode)
        ensures
            r == InputMode::Editing,
    {
        InputMode::Editing
    }
}

/// The interactive region that keyboard and mouse semantics apply to.
#[derive(Clone, Copy, PartialEq, Eq, Structural, Debug)]
pub enum FocusedArea {
    Input,
    Tabs,
    History,
    ExitButton,
}

impl Default for FocusedArea {
    fn default() -> (r: FocusedArea)
        ensures
            r == FocusedArea::Input,
    {
        FocusedArea::Input
    }
}

/// The life cycle of the current or most recent download: exactly one
/// variant is active, and it is the single source of truth for what the
/// interface shows.
#[derive(Debug)]
pub enum DownloadStatus {
    NotStarted,
    InProgress,
    Downloading(ProgressSnapshot),
    Complete,
    Error(String),
}

impl Default for DownloadStatus {
    fn default() -> (r: DownloadStatus)
        ensures
            r is NotStarted,
    {
        DownloadStatus::NotStarted
    }
}

/// One completed download: an immutable record, appended once and never
/// reordered. The timestamp is unix seconds at completion.
#[derive(Debug)]
pub struct Download {
    pub url: String,
    pub filename: String,
    pub timestamp: i64,
    pub status: String,
}

/// What a running submission remembers: the URL as it was submitted and the
/// output template the run was started with.
#[derive(Debug)]
pub struct PendingRun {
    pub url: String,
    pub template: String,
}

/// The single mutable aggregate of the interactive loop.
pub struct App {
    pub input: String,
    pub input_mode: InputMode,
    pub focused_area: FocusedArea,
    pub selected_tab: usize,
    pub selected_history_item: Option<usize>,
    pub downloads: Vec<Download>,
    pub download_status: DownloadStatus,
    pub downloader: InstagramDownloader,
    pub pending_run: Option<PendingRun>,
}

impl App {
    /// The invariants every transition preserves: two tabs, and a selected
    /// history row that exists.
    pub open spec fn wf(&self) -> bool {
        &&& self.selected_tab < 2
        &&& (self.selected_history_item matches Some(i) ==> i < self.downloads@.len())
    }
}

// ---------------------------------------------------------------------------
// Frame predicates: which fields a transition may touch
// ---------------------------------------------------------------------------

/// All fields agree but the input mode and the focused area.
pub open spec fn same_but_mode_and_focus(a: App, b: App) -> bool {
    &&& b.input == a.input
    &&& b.selected_tab == a.selected_tab
    &&& b.selected_history_item == a.selected_history_item
    &&& b.downloads == a.downloads
    &&& b.download_status == a.download_status
    &&& b.downloader == a.downloader
    &&& b.pending_run == a.pending_run
}

/// All fields agree but the input buffer.
pub open spec fn same_but_input(a: App, b: App) -> bool {
    &&& b.input_mode == a.input_mode
    &&& b.focused_area == a.focused_area
    &&& b.selected_tab == a.selected_tab
    &&& b.selected_history_item == a.selected_history_item
    &&& b.downloads == a.downloads
    &&& b.download_status == a.download_status
    &&& b.downloader == a.downloader
    &&& b.pending_run == a.pending_run
}

/// All fields agree but the tab selection and the focused area.
pub open spec fn same_but_tab_and_focus(a: App, b: App) -> bool {
    &&& b.input == a.input
    &&& b.input_mode == a.input_mode
    &&& b.selected_history_item == a.selected_history_item
    &&& b.downloads == a.downloads
    &&& b.download_status == a.download_status
    &&& b.downloader == a.downloader
    &&& b.pending_run == a.pending_run
}

/// All fields agree but the focused area.
pub open spec fn same_but_focus(a: App, b: App) -> bool {
    &&& b.input == a.input
    &&& b.input_mode == a.input_mode
    &&& b.selected_tab == a.selected_tab
    &&& b.selected_history_item == a.selected_history_item
    &&& b.downloads == a.downloads
    &&& b.download_status == a.download_status
    &&& b.downloader == a.downloader
    &&& b.pending_run == a.pending_run
}

/// All fields agree but the history selection and the focused area.
pub open spec fn same_but_selection_and_focus(a: App, b: App) -> bool {
    &&& b.input == a.input
    &&& b.input_mode == a.input_mode
    &&& b.selected_tab == a.selected_tab
    &&& b.downloads == a.downloads
    &&& b.download_status == a.download_status
    &&& b.downloader == a.downloader
    &&& b.pending_run == a.pending_run
}

/// All fields agree but the download status.
pub open spec fn same_but_status(a: App, b: App) -> bool {
    &&& b.input == a.input
    &&& b.input_mode == a.input_mode
    &&& b.focused_area == a.focused_area
    &&& b.selected_tab == a.selected_tab
    &&& b.selected_history_item == a.selected_history_item
    &&& b.downloads == a.downloads
    &&& b.downloader == a.downloader
    &&& b.pending_run == a.pending_run
}

/// All fields agree but the download status and the pending run.
pub open spec fn same_but_status_and_pending(a: App, b: App) -> bool {
    &&& b.input == a.input
    &&& b.input_mode == a.input_mode
    &&& b.focused_area == a.focused_area
    &&& b.selected_tab == a.selected_tab
    &&& b.selected_history_item == a.selected_history_item
    &&& b.downloads == a.downloads
    &&& b.downloader == a.downloader
}

// ---------------------------------------------------------------------------
// Trusted leaves
// ---------------------------------------------------------------------------

/// Relies on String::push: it appends the given character to the end of the
/// text.
#[verifier::external_body]
fn string_push(s: &mut String, c: char)
    ensures
        final(s)@ == old(s)@.push(c),
{
    s.push(c);
}

/// Relies on chrono::Local::now and chrono::DateTime::timestamp for the
/// current time as unix seconds. The clock's reading is outside any
/// contract, so nothing is stated of the value.
#[verifier::external_body]
fn now_timestamp() -> i64 {
    chrono::Local::now().timestamp()
}

// ---------------------------------------------------------------------------
// Construction and the plain transitions
// ---------------------------------------------------------------------------

impl App {
    /// A fresh state: empty input in edit mode, input focus, the download
    /// tab, no selection, no history, nothing started.
    pub fn new(downloader: InstagramDownloader) -> (app: App)
        ensures
            app.wf(),
            app.input@ == Seq::<char>::empty(),
            app.input_mode == InputMode::Editing,
            app.focused_area == FocusedArea::Input,
            app.selected_tab == 0,
            app.selected_history_item is None,
            app.downloads@ == Seq::<Download>::empty(),
            app.download_status is NotStarted,
            app.downloader == downloader,
            app.pending_run is None,
    {
        let app = App {
            input: String::new(),
            input_mode: InputMode::default(),
            focused_area: FocusedArea::default(),
            selected_tab: 0,
            selected_history_item: None,
            downloads: Vec::new(),
            download_status: DownloadStatus::default(),
            downloader,
            pending_run: None,
        };
        proof {
            assert(app.downloads@ =~= Seq::<Download>::empty());
        }
        app
    }

    /// Starts editing: the mode and the focus move to the input area.
    /// Idempotent.
    pub fn enter_edit_mode(&mut self)
        ensures
            final(self).input_mode == InputMode::Editing,
            final(self).focused_area == FocusedArea::Input,
            same_but_mode_and_focus(*old(self), *final(self)),
    {
        self.input_mode = InputMode::Editing;
        self.focused_area = FocusedArea::Input;
    }

    /// Stops editing. The focus returns to the input area: that is the one
    /// rule this state machine follows on leaving edit mode.
    pub fn exit_edit_mode(&mut self)
        ensures
            final(self).input_mode == InputMode::Normal,
            final(self).focused_area == FocusedArea::Input,
            same_but_mode_and_focus(*old(self), *final(self)),
    {
        self.input_mode = InputMode::Normal;
        self.focused_area = FocusedArea::Input;
    }

    /// Moves to the other tab and focuses the tab bar.
    pub fn toggle_tab(&mut self)
        requires
            old(self).wf(),
        ensures
            final(self).wf(),
            final(self).selected_tab == (old(self).selected_tab + 1) % 2,
            final(self).focused_area == FocusedArea::Tabs,
            same_but_tab_and_focus(*old(self), *final(self)),
    {
        self.selected_tab = (self.selected_tab + 1) % 2;
        self.focused_area = FocusedArea::Tabs;
    }

    /// Appends one character to the input buffer while editing; outside
    /// edit mode keystrokes leave the state alone.
    pub fn push_char(&mut self, c: char)
        ensures
            old(self).input_mode == InputMode::Editing ==> final(self).input@
                == old(self).input@.push(c),
            old(self).input_mode != InputMode::Editing ==> *final(self) == *old(self),
            same_but_input(*old(self), *final(self)),
    {
        if self.input_mode == InputMode::Editing {
            string_push(&mut self.input, c);
        }
    }

    /// Removes the last character of the input buffer while editing, if
    /// there is one; outside edit mode keystrokes leave the state alone.
    pub fn pop_char(&mut self)
        ensures
            old(self).input_mode == InputMode::Editing && old(self).input@.len() > 0
                ==> final(self).input@ == old(self).input@.drop_last(),
            old(self).input_mode == InputMode::Editing && old(self).input@.len() == 0
                ==> *final(self) == *old(self),
            old(self).input_mode != InputMode::Editing ==> *final(self) == *old(self),
            same_but_input(*old(self), *final(self)),
    {
        if self.input_mode == InputMode::Editing {
            let n = self.input.as_str().unicode_len();
            if n > 0 {
                let shortened = self.input.as_str().substring_char(0, n - 1).to_owned();
                proof {
                    assert(self.input@.subrange(0, self.input@.len() - 1) =~= self
                        .input@.drop_last());
                }
                self.input = shortened;
            }
        }
    }
}

/// Toggling the tab twice returns the selection to where it stood: the
/// toggle is cyclic with period two.
pub proof fn lemma_toggle_tab_period_two(t: int)
    requires
        0 <= t < 2,
    ensures
        ((t + 1) % 2 + 1) % 2 == t,
{
}

// ---------------------------------------------------------------------------
// Keyboard routing
// ---------------------------------------------------------------------------

/// A keyboard event, reduced to what the state machine distinguishes.
#[derive(Clone, Copy, PartialEq, Eq, Structural, Debug)]
pub enum KeyInput {
    Character(char),
    Enter,
    Escape,
    Tab,
    Backspace,
    Other,
}

/// What the caller owes after a keystroke: keep going, terminate the
/// program, or run the submission protocol on the buffered URL.
#[derive(Clone, Copy, PartialEq, Eq, Structural, Debug)]
pub enum KeyAction {
    Continue,
    Exit,
    Submit,
}

impl App {
    /// Routes one keystroke. While editing, every character reaches the
    /// input buffer, so any URL can be typed. Outside edit mode the letters
    /// act as commands: q quits while the exit button is focused, and i
    /// enters edit mode. Enter quits on the focused exit button and submits
    /// anywhere else; the submission itself is the caller's to run, through
    /// the submit protocol.
    pub fn handle_key(&mut self, key: KeyInput) -> (r: KeyAction)
        requires
            old(self).wf(),
        ensures
            final(self).wf(),
            match key {
                KeyInput::Character(c) => if old(self).input_mode == InputMode::Editing {
                    &&& final(self).input@ == old(self).input@.push(c)
                    &&& same_but_input(*old(self), *final(self))
                    &&& r == KeyAction::Continue
                } else if c == 'q' || c == 'Q' {
                    &&& *final(self) == *old(self)
                    &&& r == (if old(self).focused_area == FocusedArea::ExitButton {
                        KeyAction::Exit
                    } else {
                        KeyAction::Continue
                    })
                } else if c == 'i' {
                    &&& final(self).input_mode == InputMode::Editing
                    &&& final(self).focused_area == FocusedArea::Input
                    &&& same_but_mode_and_focus(*old(self), *final(self))
                    &&& r == KeyAction::Continue
                } else {
                    &&& *final(self) == *old(self)
                    &&& r == KeyAction::Continue
                },
                KeyInput::Enter => {
                    &&& *final(self) == *old(self)
                    &&& r == (if old(self).focused_area == FocusedArea::ExitButton {
                        KeyAction::Exit
                    } else {
                        KeyAction::Submit
                    })
                },
                KeyInput::Escape => {
                    &&& final(self).input_mode == InputMode::Normal
                    &&& final(self).focused_area == FocusedArea::Input
                    &&& same_but_mode_and_focus(*old(self), *final(self))
                    &&& r == KeyAction::Continue
                },
                KeyInput::Tab => {
                    &&& final(self).selected_tab == (old(self).selected_tab + 1) % 2
                    &&& final(self).focused_area == FocusedArea::Tabs
                    &&& same_but_tab_and_focus(*old(self), *final(self))
                    &&& r == KeyAction::Continue
                },
                KeyInput::Backspace => {
                    &&& old(self).input_mode == InputMode::Editing && old(self).input@.len() > 0
                        ==> final(self).input@ == old(self).input@.drop_last()
                    &&& old(self).input_mode == InputMode::Editing && old(self).input@.len() == 0
                        ==> *final(self) == *old(self)
                    &&& old(self).input_mode != InputMode::Editing ==> *final(self) == *old(self)
                    &&& same_but_input(*old(self), *final(self))
                    &&& r == KeyAction::Continue
                },
                KeyInput::Other => {
                    &&& *final(self) == *old(self)
                    &&& r == KeyAction::Continue
                },
            },
    {
        match key {
            KeyInput::Character(c) => {
                if self.input_mode == InputMode::Editing {
                    self.push_char(c);
                    KeyAction::Continue
                } else if c == 'q' || c == 'Q' {
                    if self.focused_area == FocusedArea::ExitButton {
                        KeyAction::Exit
                    } else {
                        KeyAction::Continue
                    }
                } else if c == 'i' {
                    self.enter_edit_mode();
                    KeyAction::Continue
                } else {
                    KeyAction::Continue
                }
            },
            KeyInput::Enter => {
                if self.focused_area == FocusedArea::ExitButton {
                    KeyAction::Exit
                } else {
                    KeyAction::Submit
                }
            },
            KeyInput::Escape => {
                self.exit_edit_mode();
                KeyAction::Continue
            },
            KeyInput::Tab => {
                self.toggle_tab();
                KeyAction::Continue
            },
            KeyInput::Backspace => {
                self.pop_char();
                KeyAction::Continue
            },
            KeyInput::Other => KeyAction::Continue,
        }
    }
}

// ---------------------------------------------------------------------------
// Pointer routing
// ---------------------------------------------------------------------------

/// The first terminal row on which history entries are drawn: the tab band
/// and the input band take three rows each, and the history block's top
/// border one more.
pub const HISTORY_FIRST_ROW: u16 = 7;

/// Classifies a click by the terminal's vertical bands: the exit button in
/// the top right corner, then the tab band, the input band, and everything
/// below as the history band.
pub open spec fn spec_classify_click(column: int, row: int, width: int) -> FocusedArea {
    if row == 1 && width >= 9 && column >= width - 9 {
        FocusedArea::ExitButton
    } else if row < 3 {
        FocusedArea::Tabs
    } else if row < 6 {
        FocusedArea::Input
    } else {
        FocusedArea::History
    }
}

pub fn classify_click(column: u16, row: u16, width: u16) -> (area: FocusedArea)
    ensures
        area == spec_classify_click(column as int, row as int, width as int),
{
    if row == 1 && width >= 9 && column >= width - 9 {
        FocusedArea::ExitButton
    } else if row < 3 {
        FocusedArea::Tabs
    } else if row < 6 {
        FocusedArea::Input
    } else {
        FocusedArea::History
    }
}

impl App {
    /// Applies one left click that the caller has already classified into a
    /// band. A click on the tab band picks the tab by the horizontal half
    /// of the terminal; one on the input band starts editing; one on the
    /// exit button only moves focus there, termination being the caller's
    /// decision. A click on the history band means nothing unless the
    /// history tab is selected; then it selects the row under the pointer
    /// when that row holds an entry.
    pub fn handle_mouse_click(&mut self, x: u16, y: u16, term_width: u16, area: FocusedArea)
        requires
            old(self).wf(),
        ensures
            final(self).wf(),
            match area {
                FocusedArea::Tabs => {
                    &&& final(self).focused_area == FocusedArea::Tabs
                    &&& final(self).selected_tab == (if x < term_width / 2 {
                        0int
                    } else {
                        1int
                    })
                    &&& same_but_tab_and_focus(*old(self), *final(self))
                },
                FocusedArea::Input => {
                    &&& final(self).input_mode == InputMode::Editing
                    &&& final(self).focused_area == FocusedArea::Input
                    &&& same_but_mode_and_focus(*old(self), *final(self))
                },
                FocusedArea::ExitButton => {
                    &&& final(self).focused_area == FocusedArea::ExitButton
                    &&& same_but_focus(*old(self), *final(self))
                },
                FocusedArea::History => {
                    &&& old(self).selected_tab != 1 ==> *final(self) == *old(self)
                    &&& old(self).selected_tab == 1 ==> {
                        &&& final(self).focused_area == FocusedArea::History
                        &&& same_but_selection_and_focus(*old(self), *final(self))
                        &&& final(self).selected_history_item == (if y >= HISTORY_FIRST_ROW && (
                        y - HISTORY_FIRST_ROW) < old(self).downloads@.len() {
                            Some((y - HISTORY_FIRST_ROW) as usize)
                        } else {
                            old(self).selected_history_item
                        })
                    }
                },
            },
    {
        match area {
            FocusedArea::Tabs => {
                self.focused_area = FocusedArea::Tabs;
                if x < term_width / 2 {
                    self.selected_tab = 0;
                } else {
                    self.selected_tab = 1;
                }
            },
            FocusedArea::Input => {
                self.focused_area = FocusedArea::Input;
                self.enter_edit_mode();
            },
            FocusedArea::ExitButton => {
                self.focused_area = FocusedArea::ExitButton;
            },
            FocusedArea::History => {
                if self.selected_tab == 1 {
                    self.focused_area = FocusedArea::History;
                    if y >= HISTORY_FIRST_ROW {
                        let idx = (y - HISTORY_FIRST_ROW) as usize;
                        if idx < self.downloads.len() {
                            self.selected_history_item = Some(idx);
                        }
                    }
                }
            },
        }
    }
}

// ---------------------------------------------------------------------------
// The submission protocol
// ---------------------------------------------------------------------------

/// The status message of a submission whose process could not be started.
pub open spec fn spawn_failure_text() -> Seq<char> {
    "Failed to start yt-dlp"@
}

impl App {
    /// Appends one completed download to the history, stamped with the
    /// clock's current reading.
    fn add_download(&mut self, url: String, filename: String)
        ensures
            final(self).downloads@.len() == old(self).downloads@.len() + 1,
            final(self).downloads@.subrange(0, old(self).downloads@.len() as int) == old(
                self,
            ).downloads@,
            final(self).downloads@.last().url == url,
            final(self).downloads@.last().filename == filename,
            final(self).downloads@.last().status@ == "Completed"@,
            final(self).input == old(self).input,
            final(self).input_mode == old(self).input_mode,
            final(self).focused_area == old(self).focused_area,
            final(self).selected_tab == old(self).selected_tab,
            final(self).selected_history_item == old(self).selected_history_item,
            final(self).download_status == old(self).download_status,
            final(self).downloader == old(self).downloader,
            final(self).pending_run == old(self).pending_run,
    {
        let record = Download {
            url,
            filename,
            timestamp: now_timestamp(),
            status: String::from_str("Completed"),
        };
        self.downloads.push(record);
        proof {
            assert(self.downloads@.subrange(0, old(self).downloads@.len() as int) =~= old(
                self,
            ).downloads@);
        }
    }

    /// Accepts or rejects the buffered URL. An empty buffer is rejected
    /// and the whole state stays as it was. A non-empty buffer starts a
    /// submission: the status becomes in-progress, the URL and the output
    /// template are captured for the run, and the URL is handed back for
    /// the caller to start the process with.
    pub fn submit_begin(&mut self) -> (r: Option<String>)
        requires
            old(self).wf(),
            old(self).pending_run is None,
        ensures
            final(self).wf(),
            old(self).input@.len() == 0 ==> *final(self) == *old(self) && r is None,
            old(self).input@.len() > 0 ==> {
                &&& r matches Some(u) && u@ == old(self).input@
                &&& final(self).download_status is InProgress
                &&& final(self).pending_run matches Some(p) && p.url@ == old(self).input@
                    && p.template@ == spec_join_path(
                    old(self).downloader.config.output_dir@,
                    output_file_pattern(),
                )
                &&& same_but_status_and_pending(*old(self), *final(self))
            },
    {
        if self.input.as_str().is_empty() {
            return None;
        }
        self.download_status = DownloadStatus::InProgress;
        let url = self.input.clone();
        let template = self.downloader.output_template();
        self.pending_run = Some(PendingRun { url: url.clone(), template });
        Some(url)
    }

    /// Absorbs one line of the running process's standard output. A
    /// sentinel line replaces the status with the snapshot it parses to,
    /// wholesale; any other line leaves the state exactly as it was.
    pub fn submit_progress_line(&mut self, line: &str)
        ensures
            !has_sentinel(line@) ==> *final(self) == *old(self),
            has_sentinel(line@) ==> {
                &&& final(self).download_status matches DownloadStatus::Downloading(p) && p@
                    == spec_snapshot(line@)
                &&& same_but_status(*old(self), *final(self))
            },
    {
        match parse_progress_line(line) {
            Some(snapshot) => {
                self.download_status = DownloadStatus::Downloading(snapshot);
            },
            None => {},
        }
    }

    /// Records that the process could not be started: the submission ends
    /// at once with the spawn-failure message, and no history is written.
    pub fn submit_spawn_failed(&mut self)
        requires
            old(self).pending_run is Some,
        ensures
            final(self).pending_run is None,
            final(self).download_status matches DownloadStatus::Error(m) && m@
                == spawn_failure_text(),
            same_but_status_and_pending(*old(self), *final(self)),
    {
        self.download_status = DownloadStatus::Error(String::from_str("Failed to start yt-dlp"));
        self.pending_run = None;
    }

    /// Ends the submission once the process has exited and its standard
    /// error is drained. On the single success condition - clean exit and
    /// blank standard error - exactly one record is appended, carrying the
    /// submitted URL verbatim and the template as the nominal file name;
    /// the input buffer empties and editing ends. Otherwise the history
    /// stays untouched and the status carries the failure message.
    pub fn submit_finish(&mut self, stderr_lines: &Vec<String>, exit_ok: bool)
        requires
            old(self).wf(),
            old(self).pending_run is Some,
        ensures
            final(self).wf(),
            final(self).pending_run is None,
            run_succeeds(stderr_lines.deep_view(), exit_ok) ==> {
                &&& final(self).downloads@.len() == old(self).downloads@.len() + 1
                &&& final(self).downloads@.subrange(0, old(self).downloads@.len() as int) == old(
                    self,
                ).downloads@
                &&& final(self).downloads@.last().url@ == old(self).pending_run->Some_0.url@
                &&& final(self).downloads@.last().filename@ == old(
                    self,
                ).pending_run->Some_0.template@
                &&& final(self).downloads@.last().status@ == "Completed"@
                &&& final(self).input@.len() == 0
                &&& final(self).input_mode == InputMode::Normal
                &&& final(self).download_status is Complete
                &&& final(self).focused_area == old(self).focused_area
                &&& final(self).selected_tab == old(self).selected_tab
                &&& final(self).selected_history_item == old(self).selected_history_item
                &&& final(self).downloader == old(self).downloader
            },
            !run_succeeds(stderr_lines.deep_view(), exit_ok) ==> {
                &&& final(self).downloads == old(self).downloads
                &&& final(self).download_status matches DownloadStatus::Error(m) && m@
                    == spec_failure_message(stderr_lines.deep_view())
                &&& final(self).input == old(self).input
                &&& final(self).input_mode == old(self).input_mode
                &&& final(self).focused_area == old(self).focused_area
                &&& final(self).selected_tab == old(self).selected_tab
                &&& final(self).selected_history_item == old(self).selected_history_item
                &&& final(self).downloader == old(self).downloader
            },
    {
        let pending = self.pending_run.take();
        let (buffer, failed) = stderr_report(stderr_lines);
        match pending {
            Some(p) => {
                if !failed && exit_ok {
                    self.add_download(p.url, p.template);
                    self.input = String::new();
                    self.input_mode = InputMode::Normal;
                    self.download_status = DownloadStatus::Complete;
                } else if failed {
                    self.download_status = DownloadStatus::Error(trim_text(buffer.as_str()));
                } else {
                    self.download_status = DownloadStatus::Error(
                        String::from_str("download process exited with a failure status"),
                    );
                }
            },
            None => {},
        }
    }

    /// Plays the whole submission protocol against the transcript of a
    /// finished run: an empty input buffer is a no-op; otherwise every
    /// standard-output line is absorbed in order and the run is closed out
    /// against the drained standard error and the exit status.
    pub fn submit_url(&mut self, run: &RunOutput)
        requires
            old(self).wf(),
            old(self).pending_run is None,
        ensures
            final(self).wf(),
            final(self).pending_run is None,
            old(self).input@.len() == 0 ==> *final(self) == *old(self),
            old(self).input@.len() > 0 && run_succeeds(run.stderr_lines.deep_view(), run.exit_ok)
                ==> {
                &&& final(self).downloads@.len() == old(self).downloads@.len() + 1
                &&& final(self).downloads@.subrange(0, old(self).downloads@.len() as int) == old(
                    self,
                ).downloads@
                &&& final(self).downloads@.last().url@ == old(self).input@
                &&& final(self).downloads@.last().filename@ == spec_join_path(
                    old(self).downloader.config.output_dir@,
                    output_file_pattern(),
                )
                &&& final(self).downloads@.last().status@ == "Completed"@
                &&& final(self).input@.len() == 0
                &&& final(self).input_mode == InputMode::Normal
                &&& final(self).download_status is Complete
                &&& final(self).focused_area == old(self).focused_area
                &&& final(self).selected_tab == old(self).selected_tab
                &&& final(self).selected_history_item == old(self).selected_history_item
                &&& final(self).downloader == old(self).downloader
            },
            old(self).input@.len() > 0 && !run_succeeds(run.stderr_lines.deep_view(), run.exit_ok)
                ==> {
                &&& final(self).downloads == old(self).downloads
                &&& final(self).download_status matches DownloadStatus::Error(m) && m@
                    == spec_failure_message(run.stderr_lines.deep_view())
                &&& final(self).input == old(self).input
                &&& final(self).input_mode == old(self).input_mode
                &&& final(self).focused_area == old(self).focused_area
                &&& final(self).selected_tab == old(self).selected_tab
                &&& final(self).selected_history_item == old(self).selected_history_item
                &&& final(self).downloader == old(self).downloader
            },
    {
        match self.submit_begin() {
            None => {},
            Some(_url) => {
                let ghost mid = *self;
                let mut i: usize = 0;
                while i < run.stdout_lines.len()
                    invariant
                        i <= run.stdout_lines.len(),
                        self.wf(),
                        self.pending_run == mid.pending_run,
                        mid.pending_run is Some,
                        self.input == mid.input,
                        self.input_mode == mid.input_mode,
                        self.focused_area == mid.focused_area,
                        self.selected_tab == mid.selected_tab,
                        self.selected_history_item == mid.selected_history_item,
                        self.downloads == mid.downloads,
                        self.downloader == mid.downloader,
                    decreases run.stdout_lines.len() - i,
                {
                    self.submit_progress_line(run.stdout_lines[i].as_str());
                    i = i + 1;
                }
                self.submit_finish(&run.stderr_lines, run.exit_ok);
            },
        }
    }
}

} // verus!
