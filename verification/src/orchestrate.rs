//! The download orchestration model: from the observable behaviour of the
//! launched child process — did it start, which lines each stream carried,
//! how it exited — to the exact sequence of progress events and the single
//! terminal outcome.
//!
//! The surrounding shell performs the launch, tails the two streams
//! concurrently and forwards each event as it is produced; the functions
//! here decide, line by line and at the end of the run, what is emitted.
//! Within one stream the line order is preserved; the terminal outcome
//! comes strictly after every stream event.

use vstd::prelude::*;
use crate::progress::{parse_progress, spec_progress_token};

verus! {

/// One structured log event, produced for every line of child output and
/// once more at the end of the run. `progress` carries the percentage
/// token of a recognised progress line, on the 0 to 100 scale, as its
/// decimal numeral.
#[derive(Clone, Debug, PartialEq)]
pub struct RealTimeLog {
    pub message: String,
    pub is_error: bool,
    pub progress: Option<String>,
}

/// Mathematical image of `RealTimeLog`.
pub struct RealTimeLogV {
    pub message: Seq<char>,
    pub is_error: bool,
    pub progress: Option<Seq<char>>,
}

impl View for RealTimeLog {
    type V = RealTimeLogV;

    open spec fn view(&self) -> RealTimeLogV {
        RealTimeLogV {
            message: self.message@,
            is_error: self.is_error,
            progress: match self.progress {
                Some(p) => Some(p@),
                None => None,
            },
        }
    }
}

impl DeepView for RealTimeLog {
    type V = RealTimeLogV;

    open spec fn deep_view(&self) -> RealTimeLogV {
        self.view()
    }
}

/// The single terminal outcome of one download request. Its `progress`
/// uses a 0 to 1 scale — distinct, by design, from the 0 to 100 scale of
/// the per-line events.
#[derive(Clone, Debug, PartialEq)]
pub struct DownloadProgress {
    pub message: String,
    pub progress: Option<String>,
    pub is_error: bool,
}

/// Mathematical image of `DownloadProgress`.
pub struct DownloadProgressV {
    pub message: Seq<char>,
    pub progress: Option<Seq<char>>,
    pub is_error: bool,
}

impl View for DownloadProgress {
    type V = DownloadProgressV;

    open spec fn view(&self) -> DownloadProgressV {
        DownloadProgressV {
            message: self.message@,
            progress: match self.progress {
                Some(p) => Some(p@),
                None => None,
            },
            is_error: self.is_error,
        }
    }
}

/// The event one output line turns into: the line itself as the message,
/// the stream's error tag, and the line's progress token if it carries
/// one.
pub open spec fn spec_log_for_line(line: Seq<char>, is_error: bool) -> RealTimeLogV {
    RealTimeLogV { message: line, is_error: is_error, progress: spec_progress_token(line) }
}

/// Turns one line of child output into its log event. A malformed
/// progress marker degrades to an event without a progress value; the
/// line is always forwarded.
pub fn log_for_line(line: String, is_error: bool) -> (ev: RealTimeLog)
    ensures
        ev@ == spec_log_for_line(line@, is_error),
{
    let progress = parse_progress(line.as_str());
    RealTimeLog { message: line, is_error, progress }
}

/// The events of one whole stream, in the stream's own order.
pub open spec fn spec_stream_logs(lines: Seq<Seq<char>>, is_error: bool) -> Seq<RealTimeLogV> {
    lines.map_values(|l: Seq<char>| spec_log_for_line(l, is_error))
}

/// Tails one finished stream: one event per line, order preserved.
pub fn stream_logs(lines: &Vec<String>, is_error: bool) -> (evs: Vec<RealTimeLog>)
    ensures
        evs.deep_view() == spec_stream_logs(lines.deep_view(), is_error),
{
    let n = lines.len();
    let mut evs: Vec<RealTimeLog> = Vec::new();
    let mut i: usize = 0;
    while i < n
        invariant
            i <= n,
            n == lines@.len(),
            evs.deep_view() == spec_stream_logs(lines.deep_view().take(i as int), is_error),
        decreases n - i,
    {
        let ghost pre = evs.deep_view();
        let ev = log_for_line(lines[i].clone(), is_error);
        proof {
            assert(lines.deep_view()[i as int] == lines@[i as int]@);
            assert(ev@ == spec_log_for_line(lines.deep_view()[i as int], is_error));
        }
        evs.push(ev);
        proof {
            assert(evs.deep_view() =~= pre.push(
                spec_log_for_line(lines.deep_view()[i as int], is_error),
            ));
            let target = spec_stream_logs(lines.deep_view().take(i as int + 1), is_error);
            assert(target.len() == i + 1);
            assert(forall|j: int| 0 <= j < i + 1 ==> target[j] == spec_log_for_line(
                lines.deep_view()[j], is_error,
            ));
            assert(forall|j: int| 0 <= j < i ==> pre[j] == spec_log_for_line(
                lines.deep_view()[j], is_error,
            ));
            assert(evs.deep_view() =~= target);
        }
        i = i + 1;
    }
    proof {
        assert(lines.deep_view().take(n as int) =~= lines.deep_view());
    }
    evs
}

/// The last line of the running log: a human-readable completion or
/// failure message, with the matching endpoint of the 0 to 100 scale.
pub open spec fn spec_final_log(success: bool) -> RealTimeLogV {
    if success {
        RealTimeLogV {
            message: "✅ ダウンロードが完了しました"@,
            is_error: false,
            progress: Some("100"@),
        }
    } else {
        RealTimeLogV {
            message: "❌ ダウンロードに失敗しました"@,
            is_error: true,
            progress: Some("0"@),
        }
    }
}

/// Builds the final log event for an exited child.
pub fn final_log(success: bool) -> (ev: RealTimeLog)
    ensures
        ev@ == spec_final_log(success),
{
    if success {
        RealTimeLog {
            message: String::from_str("✅ ダウンロードが完了しました"),
            is_error: false,
            progress: Some(String::from_str("100")),
        }
    } else {
        RealTimeLog {
            message: String::from_str("❌ ダウンロードに失敗しました"),
            is_error: true,
            progress: Some(String::from_str("0")),
        }
    }
}

/// The terminal outcome for an exited child: success exactly when the
/// exit status was success, with progress 1 or 0 on the 0 to 1 scale.
pub open spec fn spec_final_outcome(success: bool) -> DownloadProgressV {
    if success {
        DownloadProgressV {
            message: "✅ 正常に完了しました"@,
            progress: Some("1"@),
            is_error: false,
        }
    } else {
        DownloadProgressV {
            message: "❌ エラーが発生しました"@,
            progress: Some("0"@),
            is_error: true,
        }
    }
}

/// Builds the terminal outcome for an exited child. A nonzero exit status
/// is a normal failed outcome, not an error of the orchestration.
pub fn final_outcome(success: bool) -> (r: DownloadProgress)
    ensures
        r@ == spec_final_outcome(success),
{
    if success {
        DownloadProgress {
            message: String::from_str("✅ 正常に完了しました"),
            progress: Some(String::from_str("1")),
            is_error: false,
        }
    } else {
        DownloadProgress {
            message: String::from_str("❌ エラーが発生しました"),
            progress: Some(String::from_str("0")),
            is_error: true,
        }
    }
}

/// The message of a request that never started: the launch error,
/// surfaced verbatim behind a fixed prefix.
pub open spec fn spec_launch_failure_message(detail: Seq<char>) -> Seq<char> {
    "コマンド実行エラー: "@ + detail
}

/// Builds the launch-failure message from the underlying error text.
pub fn launch_failure_message(detail: &str) -> (m: String)
    ensures
        m@ == spec_launch_failure_message(detail@),
{
    String::from_str("コマンド実行エラー: ").concat(detail)
}

/// The whole running log of a request whose child was launched: every
/// stdout line's event in stdout order, then every stderr line's event in
/// stderr order, then the final log line. (The live run interleaves the
/// two streams arbitrarily; within each stream this order is exact, and
/// the final log line follows everything.)
pub open spec fn spec_run_logs(
    stdout_lines: Seq<Seq<char>>,
    stderr_lines: Seq<Seq<char>>,
    exit_success: bool,
) -> Seq<RealTimeLogV> {
    spec_stream_logs(stdout_lines, false) + spec_stream_logs(stderr_lines, true) + seq![
        spec_final_log(exit_success),
    ]
}

/// The full transcript of one orchestrated download, from the observed
/// behaviour of the child process. A request whose launch failed produces
/// no stream events at all and reports the launch error; a launched
/// request produces one event per output line and exactly one terminal
/// outcome, after all of them.
pub fn run_transcript(
    launch_error: Option<String>,
    stdout_lines: &Vec<String>,
    stderr_lines: &Vec<String>,
    exit_success: bool,
) -> (r: (Vec<RealTimeLog>, Result<DownloadProgress, String>))
    ensures
        match launch_error {
            Some(e) => r.0@.len() == 0 && match r.1 {
                Err(m) => m@ == spec_launch_failure_message(e@),
                Ok(_) => false,
            },
            None => r.0.deep_view() == spec_run_logs(
                stdout_lines.deep_view(),
                stderr_lines.deep_view(),
                exit_success,
            ) && match r.1 {
                Ok(out) => out@ == spec_final_outcome(exit_success),
                Err(_) => false,
            },
        },
{
    match launch_error {
        Some(e) => (Vec::new(), Err(launch_failure_message(e.as_str()))),
        None => {
            let mut evs = stream_logs(stdout_lines, false);
            let mut errs = stream_logs(stderr_lines, true);
            let ghost out_logs = evs.deep_view();
            let ghost err_logs = errs.deep_view();
            evs.append(&mut errs);
            proof {
                assert(evs.deep_view() =~= out_logs + err_logs);
            }
            let ghost joined = evs.deep_view();
            evs.push(final_log(exit_success));
            proof {
                assert(evs.deep_view() =~= joined + seq![spec_final_log(exit_success)]);
            }
            (evs, Ok(final_outcome(exit_success)))
        },
    }
}

/// Law: a launched run preserves each stream's order and ends with the
/// terminal report. The transcript holds one event per line — every
/// stdout line's event at that line's own index, in order, before all
/// stderr events — and its very last entry is the final log line, so the
/// outcome computed afterwards follows every stream event.
pub proof fn lemma_run_logs_shape(
    stdout_lines: Seq<Seq<char>>,
    stderr_lines: Seq<Seq<char>>,
    exit_success: bool,
)
    ensures
        spec_run_logs(stdout_lines, stderr_lines, exit_success).len() == stdout_lines.len()
            + stderr_lines.len() + 1,
        forall|i: int|
            0 <= i < stdout_lines.len() ==> spec_run_logs(stdout_lines, stderr_lines, exit_success)[i]
                == spec_log_for_line(stdout_lines[i], false),
        forall|i: int|
            0 <= i < stderr_lines.len() ==> spec_run_logs(stdout_lines, stderr_lines, exit_success)[
                stdout_lines.len() + i
            ] == spec_log_for_line(stderr_lines[i], true),
        spec_run_logs(stdout_lines, stderr_lines, exit_success).last() == spec_final_log(
            exit_success,
        ),
{
}

} // verus!
