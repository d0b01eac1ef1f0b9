//! Supervision of one run of the external downloader.
//!
//! The process itself is spawned and drained outside the library; what it
//! wrote arrives here as a transcript: the standard-output lines, the
//! standard-error lines and the exit status. This module turns a transcript
//! into the snapshots that were reported while the run was live and into the
//! final outcome. The policy is strict: a run succeeds exactly when the exit
//! status is success and no standard-error line holds anything but
//! whitespace; otherwise it fails with the accumulated error text.

use vstd::prelude::*;
use vstd::string::*;

use crate::config::Config;
use crate::progress::{
    has_sentinel, parse_progress_line, spec_snapshot, ProgressSnapshot, SnapshotModel,
};

verus! {

// ---------------------------------------------------------------------------
// Blank lines and trimming
// ---------------------------------------------------------------------------

/// The characters with the Unicode white-space property, recognised when
/// deciding whether an error line is blank and when trimming the failure
/// message.
pub open spec fn is_space_char(c: char) -> bool {
    ||| c == ' '
    ||| ('\u{9}' as u32 <= c as u32 && c as u32 <= '\u{d}' as u32)
    ||| c == '\u{85}'
    ||| c == '\u{a0}'
    ||| c == '\u{1680}'
    ||| ('\u{2000}' as u32 <= c as u32 && c as u32 <= '\u{200a}' as u32)
    ||| c == '\u{2028}'
    ||| c == '\u{2029}'
    ||| c == '\u{202f}'
    ||| c == '\u{205f}'
    ||| c == '\u{3000}'
}

pub open spec fn is_blank(s: Seq<char>) -> bool {
    forall|k: int| 0 <= k < s.len() ==> is_space_char(s[k])
}

fn is_space_exec(c: char) -> (b: bool)
    ensures
        b == is_space_char(c),
{
    let u = c as u32;
    c == ' ' || (9 <= u && u <= 13) || u == 0x85 || u == 0xa0 || u == 0x1680 || (0x2000 <= u && u
        <= 0x200a) || u == 0x2028 || u == 0x2029 || u == 0x202f || u == 0x205f || u == 0x3000
}

fn is_blank_exec(line: &str) -> (b: bool)
    ensures
        b == is_blank(line@),
{
    let n = line.unicode_len();
    let mut i: usize = 0;
    while i < n
        invariant
            n == line@.len(),
            i <= n,
            forall|k: int| 0 <= k < i ==> is_space_char(line@[k]),
        decreases n - i,
    {
        if !is_space_exec(line.get_char(i)) {
            return false;
        }
        i = i + 1;
    }
    true
}

/// The first position at or after `i` holding a non-space, or the end.
pub open spec fn trim_start_idx(s: Seq<char>, i: int) -> int
    decreases s.len() - i,
{
    if i < s.len() && is_space_char(s[i]) {
        trim_start_idx(s, i + 1)
    } else {
        i
    }
}

/// The position just after the last non-space before `j`, or zero.
pub open spec fn trim_end_idx(s: Seq<char>, j: int) -> int
    decreases j,
{
    if 0 < j <= s.len() && is_space_char(s[j - 1]) {
        trim_end_idx(s, j - 1)
    } else {
        j
    }
}

/// The text with leading and trailing whitespace removed.
pub open spec fn spec_trim(s: Seq<char>) -> Seq<char> {
    let a = trim_start_idx(s, 0);
    let b = trim_end_idx(s, s.len() as int);
    if a <= b {
        s.subrange(a, b)
    } else {
        Seq::empty()
    }
}

/// Removes leading and trailing whitespace.
pub fn trim_text(line: &str) -> (r: String)
    ensures
        r@ == spec_trim(line@),
{
    let n = line.unicode_len();
    let mut a: usize = 0;
    while a < n && is_space_exec(line.get_char(a))
        invariant
            n == line@.len(),
            a <= n,
            trim_start_idx(line@, 0) == trim_start_idx(line@, a as int),
        decreases n - a,
    {
        a = a + 1;
    }
    let mut b: usize = n;
    while b > 0 && is_space_exec(line.get_char(b - 1))
        invariant
            n == line@.len(),
            b <= n,
            trim_end_idx(line@, n as int) == trim_end_idx(line@, b as int),
        decreases b,
    {
        b = b - 1;
    }
    if a <= b {
        line.substring_char(a, b).to_owned()
    } else {
        String::new()
    }
}

// ---------------------------------------------------------------------------
// The standard-error policy
// ---------------------------------------------------------------------------

/// Whether some standard-error line holds anything but whitespace. Any such
/// line marks the whole run as failed, whatever the exit status says.
pub open spec fn spec_has_error(lines: Seq<Seq<char>>) -> bool {
    exists|k: int| 0 <= k < lines.len() && !is_blank(lines[k])
}

/// The error buffer: the non-blank standard-error lines in order, each
/// followed by a newline.
pub open spec fn joined_errors(lines: Seq<Seq<char>>) -> Seq<char>
    decreases lines.len(),
{
    if lines.len() == 0 {
        Seq::empty()
    } else {
        joined_errors(lines.drop_last()) + (if is_blank(lines.last()) {
            Seq::<char>::empty()
        } else {
            lines.last().push('\n')
        })
    }
}

/// Builds the error buffer of a run and reports whether any line was
/// non-blank.
pub fn stderr_report(lines: &Vec<String>) -> (r: (String, bool))
    ensures
        r.0@ == joined_errors(lines.deep_view()),
        r.1 == spec_has_error(lines.deep_view()),
{
    proof {
        reveal_strlit("\n");
    }
    let ghost dv = lines.deep_view();
    let mut buf = String::new();
    let mut failed = false;
    let mut i: usize = 0;
    proof {
        assert(dv.subrange(0, 0) =~= Seq::<Seq<char>>::empty());
    }
    while i < lines.len()
        invariant
            i <= lines.len(),
            dv == lines.deep_view(),
            dv.len() == lines.len(),
            forall|k: int| 0 <= k < dv.len() ==> dv[k] == lines@[k]@,
            buf@ == joined_errors(dv.subrange(0, i as int)),
            failed == spec_has_error(dv.subrange(0, i as int)),
        decreases lines.len() - i,
    {
        let ghost pre = dv.subrange(0, i as int);
        let ghost post = dv.subrange(0, i as int + 1);
        proof {
            assert(post.drop_last() =~= pre);
            assert(post.last() == dv[i as int]);
        }
        if !is_blank_exec(lines[i].as_str()) {
            buf.append(lines[i].as_str());
            buf.append("\n");
            proof {
                reveal_strlit("\n");
                assert("\n"@ =~= seq!['\n']);
                assert(buf@ =~= joined_errors(pre) + dv[i as int].push('\n'));
                assert(spec_has_error(post)) by {
                    assert(!is_blank(post[i as int]));
                }
            }
            failed = true;
        } else {
            proof {
                assert(buf@ =~= joined_errors(pre) + Seq::<char>::empty());
                assert(spec_has_error(post) == spec_has_error(pre)) by {
                    if spec_has_error(post) {
                        let k = choose|k: int| 0 <= k < post.len() && !is_blank(post[k]);
                        assert(k < pre.len() && !is_blank(pre[k]));
                    }
                    if spec_has_error(pre) {
                        let k = choose|k: int| 0 <= k < pre.len() && !is_blank(pre[k]);
                        assert(!is_blank(post[k]));
                    }
                }
            }
        }
        i = i + 1;
    }
    proof {
        assert(dv.subrange(0, dv.len() as int) =~= dv);
    }
    (buf, failed)
}

// ---------------------------------------------------------------------------
// The outcome of a finished run
// ---------------------------------------------------------------------------

/// What one run of the external tool wrote, gathered after it exited: its
/// standard-output lines, its standard-error lines, and whether its exit
/// status was success.
pub struct RunOutput {
    pub stdout_lines: Vec<String>,
    pub stderr_lines: Vec<String>,
    pub exit_ok: bool,
}

/// The single success condition: a clean exit status and not one non-blank
/// standard-error line.
pub open spec fn run_succeeds(stderr: Seq<Seq<char>>, exit_ok: bool) -> bool {
    !spec_has_error(stderr) && exit_ok
}

/// The message a run without a non-blank standard-error line fails with when
/// its exit status is not success.
pub open spec fn generic_failure_text() -> Seq<char> {
    "download process exited with a failure status"@
}

/// The message of a failed run: the trimmed error buffer, or the generic
/// message when the buffer is empty.
pub open spec fn spec_failure_message(stderr: Seq<Seq<char>>) -> Seq<char> {
    if spec_has_error(stderr) {
        spec_trim(joined_errors(stderr))
    } else {
        generic_failure_text()
    }
}

/// The models of a sequence of snapshots, element by element.
pub open spec fn models_of(v: Seq<ProgressSnapshot>) -> Seq<SnapshotModel> {
    v.map_values(|p: ProgressSnapshot| p@)
}

/// The snapshots that a sequence of standard-output lines reports, in the
/// order the lines came: one per sentinel line, none for any other line.
pub open spec fn spec_snapshots(lines: Seq<Seq<char>>) -> Seq<SnapshotModel>
    decreases lines.len(),
{
    if lines.len() == 0 {
        Seq::empty()
    } else {
        spec_snapshots(lines.drop_last()) + (if has_sentinel(lines.last()) {
            seq![spec_snapshot(lines.last())]
        } else {
            Seq::<SnapshotModel>::empty()
        })
    }
}

/// Helpers around one supervised run.
pub struct DownloadUtils;

impl DownloadUtils {
    /// Interprets the transcript of a finished run: the snapshots its
    /// progress lines reported, in order, and the final outcome. The run
    /// succeeds, handing back the output template, exactly when the exit
    /// status was success and standard error stayed blank; otherwise it
    /// fails with the trimmed error text, or with the generic message when
    /// only the exit status was at fault.
    pub fn handle_download_process(run: &RunOutput, output_template: String) -> (r: (
        Vec<ProgressSnapshot>,
        Result<String, String>,
    ))
        ensures
            models_of(r.0@) == spec_snapshots(run.stdout_lines.deep_view()),
            run_succeeds(run.stderr_lines.deep_view(), run.exit_ok) ==> (r.1 matches Ok(t)
                && t@ == output_template@),
            !run_succeeds(run.stderr_lines.deep_view(), run.exit_ok) ==> (r.1 matches Err(m)
                && m@ == spec_failure_message(run.stderr_lines.deep_view())),
    {
        let ghost odv = run.stdout_lines.deep_view();
        let mut snapshots: Vec<ProgressSnapshot> = Vec::new();
        let mut i: usize = 0;
        proof {
            assert(odv.subrange(0, 0) =~= Seq::<Seq<char>>::empty());
            assert(models_of(snapshots@) =~= spec_snapshots(odv.subrange(0, 0)));
        }
        while i < run.stdout_lines.len()
            invariant
                i <= run.stdout_lines.len(),
                odv == run.stdout_lines.deep_view(),
                odv.len() == run.stdout_lines.len(),
                forall|k: int| 0 <= k < odv.len() ==> odv[k] == run.stdout_lines@[k]@,
                models_of(snapshots@) == spec_snapshots(odv.subrange(0, i as int)),
            decreases run.stdout_lines.len() - i,
        {
            let ghost pre = odv.subrange(0, i as int);
            let ghost post = odv.subrange(0, i as int + 1);
            proof {
                assert(post.drop_last() =~= pre);
                assert(post.last() == odv[i as int]);
            }
            match parse_progress_line(run.stdout_lines[i].as_str()) {
                Some(snapshot) => {
                    snapshots.push(snapshot);
                },
                None => {},
            }
            proof {
                assert(models_of(snapshots@) =~= spec_snapshots(post));
            }
            i = i + 1;
        }
        proof {
            assert(odv.subrange(0, odv.len() as int) =~= odv);
        }
        let (buffer, failed) = stderr_report(&run.stderr_lines);
        let outcome: Result<String, String> = if !failed && run.exit_ok {
            Ok(output_template)
        } else if failed {
            Err(trim_text(buffer.as_str()))
        } else {
            Err(String::from_str("download process exited with a failure status"))
        };
        (snapshots, outcome)
    }
}

// ---------------------------------------------------------------------------
// Output-path templates and command lines
// ---------------------------------------------------------------------------

/// Joins a directory and a file name with a single separator, as a path
/// join does on plain text.
pub open spec fn spec_join_path(dir: Seq<char>, file: Seq<char>) -> Seq<char> {
    if dir.len() == 0 {
        file
    } else if dir.last() == '/' {
        dir + file
    } else {
        dir + seq!['/'] + file
    }
}

/// The file-name pattern handed to the external tool; the tool substitutes
/// the placeholders itself.
pub open spec fn output_file_pattern() -> Seq<char> {
    "%(title)s_%(upload_date)s_%(id)s.%(ext)s"@
}

/// The progress-template argument: it makes the tool print one sentinel
/// line per progress event.
pub open spec fn progress_template_text() -> Seq<char> {
    "download:[%(progress.downloaded_bytes)s/%(progress.total_bytes)s][%(progress.speed)s][ETA:%(progress.eta)s]"@
}

fn join_path(dir: &str, file: &str) -> (r: String)
    ensures
        r@ == spec_join_path(dir@, file@),
{
    let n = dir.unicode_len();
    if n == 0 {
        return file.to_owned();
    }
    let mut r = dir.to_owned();
    if dir.get_char(n - 1) != '/' {
        proof {
            reveal_strlit("/");
            assert("/"@ =~= seq!['/']);
        }
        r.append("/");
    }
    r.append(file);
    r
}

// ---------------------------------------------------------------------------
// The downloaders
// ---------------------------------------------------------------------------

/// A plain supervisor rooted at an output directory.
pub struct Downloader {
    pub output_dir: String,
}

impl Downloader {
    pub fn new(output_dir: String) -> (d: Downloader)
        ensures
            d.output_dir@ == output_dir@,
    {
        Downloader { output_dir }
    }

    /// The output-path template handed to the external tool: the output
    /// directory joined with the placeholder file pattern.
    pub fn output_template(&self) -> (r: String)
        ensures
            r@ == spec_join_path(self.output_dir@, output_file_pattern()),
    {
        join_path(self.output_dir.as_str(), "%(title)s_%(upload_date)s_%(id)s.%(ext)s")
    }

    /// The argument list of one run: the source URL, the output template,
    /// and the flags that force line-buffered progress in the sentinel
    /// format.
    pub fn build_command_args(&self, url: &str) -> (args: Vec<String>)
        ensures
            args@.len() == 6,
            args@[0]@ == url@,
            args@[1]@ == "-o"@,
            args@[2]@ == spec_join_path(self.output_dir@, output_file_pattern()),
            args@[3]@ == "--newline"@,
            args@[4]@ == "--progress-template"@,
            args@[5]@ == progress_template_text(),
    {
        let mut args: Vec<String> = Vec::new();
        args.push(url.to_owned());
        args.push(String::from_str("-o"));
        args.push(self.output_template());
        args.push(String::from_str("--newline"));
        args.push(String::from_str("--progress-template"));
        args.push(String::from_str(
            "download:[%(progress.downloaded_bytes)s/%(progress.total_bytes)s][%(progress.speed)s][ETA:%(progress.eta)s]",
        ));
        args
    }

    /// Interprets a finished run against this downloader's template.
    #[allow(unused_variables)]
    pub fn download(&self, url: &str, run: &RunOutput) -> (r: (
        Vec<ProgressSnapshot>,
        Result<String, String>,
    ))
        ensures
            models_of(r.0@) == spec_snapshots(run.stdout_lines.deep_view()),
            run_succeeds(run.stderr_lines.deep_view(), run.exit_ok) ==> (r.1 matches Ok(t)
                && t@ == spec_join_path(self.output_dir@, output_file_pattern())),
            !run_succeeds(run.stderr_lines.deep_view(), run.exit_ok) ==> (r.1 matches Err(m)
                && m@ == spec_failure_message(run.stderr_lines.deep_view())),
    {
        let template = self.output_template();
        DownloadUtils::handle_download_process(run, template)
    }
}

/// The downloader the interactive state owns; its runs carry the flags that
/// suppress prompts and certificate checks and identify a browser.
pub struct InstagramDownloader {
    pub config: Config,
}

impl InstagramDownloader {
    pub fn new(config: Config) -> (d: InstagramDownloader)
        ensures
            d.config.output_dir@ == config.output_dir@,
    {
        InstagramDownloader { config }
    }

    /// The output-path template handed to the external tool.
    pub fn output_template(&self) -> (r: String)
        ensures
            r@ == spec_join_path(self.config.output_dir@, output_file_pattern()),
    {
        join_path(self.config.output_dir.as_str(), "%(title)s_%(upload_date)s_%(id)s.%(ext)s")
    }

    /// The argument list of one run: the source URL, the output template,
    /// the flags that force line-buffered sentinel progress, and the flags
    /// that suppress certificate checks and set the user agent.
    pub fn build_command_args(&self, url: &str) -> (args: Vec<String>)
        ensures
            args@.len() == 9,
            args@[0]@ == url@,
            args@[1]@ == "-o"@,
            args@[2]@ == spec_join_path(self.config.output_dir@, output_file_pattern()),
            args@[3]@ == "--newline"@,
            args@[4]@ == "--no-check-certificates"@,
            args@[5]@ == "--user-agent"@,
            args@[6]@ == user_agent_text(),
            args@[7]@ == "--progress-template"@,
            args@[8]@ == progress_template_text(),
    {
        let mut args: Vec<String> = Vec::new();
        args.push(url.to_owned());
        args.push(String::from_str("-o"));
        args.push(self.output_template());
        args.push(String::from_str("--newline"));
        args.push(String::from_str("--no-check-certificates"));
        args.push(String::from_str("--user-agent"));
        args.push(String::from_str(
            "Mozilla/5.0 (Windows NT 10.0; Win64; x64) AppleWebKit/537.36 (KHTML, like Gecko) Chrome/122.0.0.0 Safari/537.36",
        ));
        args.push(String::from_str("--progress-template"));
        args.push(String::from_str(
            "download:[%(progress.downloaded_bytes)s/%(progress.total_bytes)s][%(progress.speed)s][ETA:%(progress.eta)s]",
        ));
        args
    }

    /// Interprets a finished run against this downloader's template.
    #[allow(unused_variables)]
    pub fn download(&self, url: &str, run: &RunOutput) -> (r: (
        Vec<ProgressSnapshot>,
        Result<String, String>,
    ))
        ensures
            models_of(r.0@) == spec_snapshots(run.stdout_lines.deep_view()),
            run_succeeds(run.stderr_lines.deep_view(), run.exit_ok) ==> (r.1 matches Ok(t)
                && t@ == spec_join_path(self.config.output_dir@, output_file_pattern())),
            !run_succeeds(run.stderr_lines.deep_view(), run.exit_ok) ==> (r.1 matches Err(m)
                && m@ == spec_failure_message(run.stderr_lines.deep_view())),
    {
        let template = self.output_template();
        DownloadUtils::handle_download_process(run, template)
    }
}

/// The identifying user-agent string sent with every run.
pub open spec fn user_agent_text() -> Seq<char> {
    "Mozilla/5.0 (Windows NT 10.0; Win64; x64) AppleWebKit/537.36 (KHTML, like Gecko) Chrome/122.0.0.0 Safari/537.36"@
}

} // verus!
