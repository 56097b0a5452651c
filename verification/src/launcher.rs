//! The launch side of the orchestration: which executable path to run,
//! which environment the child gets, the platform's default download
//! directory, and the report of an attempted tool installation.
//!
//! Everything here is decision logic over plain values. The surrounding
//! shell gathers the facts (which paths exist, what a `which` lookup
//! printed, what an environment variable holds) and performs the actual
//! process and filesystem work.

use vstd::prelude::*;
use crate::text::{spec_trimmed, trimmed};

verus! {

/// One conventional installation location of the external tool, together
/// with whether a file exists there.
#[derive(Clone, Debug, PartialEq)]
pub struct PathCandidate {
    pub path: String,
    pub exists: bool,
}

/// Mathematical image of `PathCandidate`.
pub struct PathCandidateV {
    pub path: Seq<char>,
    pub exists: bool,
}

impl View for PathCandidate {
    type V = PathCandidateV;

    open spec fn view(&self) -> PathCandidateV {
        PathCandidateV { path: self.path@, exists: self.exists }
    }
}

impl DeepView for PathCandidate {
    type V = PathCandidateV;

    open spec fn deep_view(&self) -> PathCandidateV {
        self.view()
    }
}

/// The path of the first candidate that exists, if any.
pub open spec fn first_existing(cands: Seq<PathCandidateV>) -> Option<Seq<char>>
    decreases cands.len(),
{
    if cands.len() == 0 {
        None
    } else if cands[0].exists {
        Some(cands[0].path)
    } else {
        first_existing(cands.drop_first())
    }
}

/// The resolution policy: the first conventional location that exists;
/// failing that, the trimmed output of a `which`-style lookup when it is
/// non-empty; failing that, the bare command name, leaving it to the
/// launch step to fail if the tool is truly absent. Resolution itself
/// never fails.
pub open spec fn spec_resolved_executable(
    cands: Seq<PathCandidateV>,
    which: Option<Seq<char>>,
) -> Seq<char> {
    match first_existing(cands) {
        Some(p) => p,
        None => match which {
            Some(w) => if spec_trimmed(w).len() > 0 {
                spec_trimmed(w)
            } else {
                "yt-dlp"@
            },
            None => "yt-dlp"@,
        },
    }
}

/// Picks the executable path for the external tool. `which_output` is the
/// raw standard output of a successful `which`-style lookup, or `None`
/// when no such lookup succeeded.
pub fn resolve_executable(candidates: &Vec<PathCandidate>, which_output: &Option<String>) -> (r:
    String)
    ensures
        r@ == spec_resolved_executable(candidates.deep_view(), which_output.deep_view()),
{
    let n = candidates.len();
    let mut i: usize = 0;
    proof {
        assert(candidates.deep_view().skip(0) =~= candidates.deep_view());
    }
    while i < n
        invariant
            i <= n,
            n == candidates@.len(),
            first_existing(candidates.deep_view()) == first_existing(
                candidates.deep_view().skip(i as int),
            ),
        decreases n - i,
    {
        let ghost rest = candidates.deep_view().skip(i as int);
        if candidates[i].exists {
            proof {
                assert(rest[0] == candidates.deep_view()[i as int]);
            }
            return candidates[i].path.clone();
        }
        proof {
            assert(rest[0] == candidates.deep_view()[i as int]);
            assert(rest.drop_first() =~= candidates.deep_view().skip(i as int + 1));
        }
        i = i + 1;
    }
    proof {
        assert(candidates.deep_view().skip(n as int) =~= Seq::<PathCandidateV>::empty());
    }
    match which_output {
        Some(w) => {
            let t = trimmed(w.as_str());
            if t.as_str().unicode_len() > 0 {
                t
            } else {
                String::from_str("yt-dlp")
            }
        },
        None => String::from_str("yt-dlp"),
    }
}

/// Mathematical image of one environment entry for the child process.
pub struct EnvVarV {
    pub name: Seq<char>,
    pub value: Seq<char>,
}

/// One environment entry the child process is launched with.
#[derive(Clone, Debug, PartialEq)]
pub struct EnvVar {
    pub name: String,
    pub value: String,
}

impl View for EnvVar {
    type V = EnvVarV;

    open spec fn view(&self) -> EnvVarV {
        EnvVarV { name: self.name@, value: self.value@ }
    }
}

impl DeepView for EnvVar {
    type V = EnvVarV;

    open spec fn deep_view(&self) -> EnvVarV {
        self.view()
    }
}

/// The environment the child is always launched with: UTF-8 text decoding
/// for its general and legacy console output; consumer platforms add the
/// forced UTF-8 mode on top.
pub open spec fn spec_launch_env(windows_style: bool) -> Seq<EnvVarV> {
    let base = seq![
        EnvVarV { name: "PYTHONIOENCODING"@, value: "utf-8"@ },
        EnvVarV { name: "PYTHONLEGACYWINDOWSSTDIO"@, value: "utf-8"@ },
    ];
    if windows_style {
        base + seq![EnvVarV { name: "PYTHONUTF8"@, value: "1"@ }]
    } else {
        base
    }
}

/// The explicit launch-time environment for the child process, instead of
/// mutating the ambient process environment.
pub fn launch_env(windows_style: bool) -> (v: Vec<EnvVar>)
    ensures
        v.deep_view() == spec_launch_env(windows_style),
{
    let mut v: Vec<EnvVar> = Vec::new();
    v.push(EnvVar { name: String::from_str("PYTHONIOENCODING"), value: String::from_str("utf-8") });
    v.push(
        EnvVar {
            name: String::from_str("PYTHONLEGACYWINDOWSSTDIO"),
            value: String::from_str("utf-8"),
        },
    );
    if windows_style {
        v.push(EnvVar { name: String::from_str("PYTHONUTF8"), value: String::from_str("1") });
    }
    proof {
        assert(v.deep_view() =~= spec_launch_env(windows_style));
    }
    v
}

/// The default download directory: a `Downloads` folder under the user
/// profile, joined with the platform's separator, or the current directory
/// when no profile directory is known.
pub open spec fn spec_default_download_directory(
    home: Option<Seq<char>>,
    windows_style: bool,
) -> Seq<char> {
    match home {
        Some(h) => if windows_style {
            h + "\\Downloads"@
        } else {
            h + "/Downloads"@
        },
        None => "."@,
    }
}

/// Computes the default download directory from the user profile path.
pub fn default_download_directory(home: Option<String>, windows_style: bool) -> (r: String)
    ensures
        r@ == spec_default_download_directory(home.deep_view(), windows_style),
{
    match home {
        Some(h) => if windows_style {
            h.concat("\\Downloads")
        } else {
            h.concat("/Downloads")
        },
        None => String::from_str("."),
    }
}

/// What an attempted installation of the external tool reports: success
/// text when the installer ran and exited well; otherwise the failure
/// text, carrying either the installer's error output or the reason the
/// installer could not be run at all (named after the platform's
/// installer).
pub open spec fn spec_install_report(
    spawn_error: Option<Seq<char>>,
    status_success: bool,
    stderr_text: Seq<char>,
    windows_style: bool,
) -> Result<Seq<char>, Seq<char>> {
    match spawn_error {
        Some(e) => Err(
            (if windows_style {
                "pipコマンドの実行に失敗しました: "@
            } else {
                "インストールスクリプトの実行に失敗しました: "@
            }) + e,
        ),
        None => if status_success {
            Ok("yt-dlpのインストールが完了しました"@)
        } else {
            Err("yt-dlpのインストールに失敗しました: "@ + stderr_text)
        },
    }
}

/// Builds the installation report. `spawn_error` is the reason the
/// installer process could not be started, if that happened;
/// `status_success` and `stderr_text` describe a completed installer run.
pub fn install_report(
    spawn_error: Option<String>,
    status_success: bool,
    stderr_text: &str,
    windows_style: bool,
) -> (r: Result<String, String>)
    ensures
        match r {
            Ok(m) => spec_install_report(
                spawn_error.deep_view(),
                status_success,
                stderr_text@,
                windows_style,
            ) == Ok::<Seq<char>, Seq<char>>(m@),
            Err(m) => spec_install_report(
                spawn_error.deep_view(),
                status_success,
                stderr_text@,
                windows_style,
            ) == Err::<Seq<char>, Seq<char>>(m@),
        },
{
    match spawn_error {
        Some(e) => {
            let prefix = if windows_style {
                "pipコマンドの実行に失敗しました: "
            } else {
                "インストールスクリプトの実行に失敗しました: "
            };
            Err(String::from_str(prefix).concat(e.as_str()))
        },
        None => if status_success {
            Ok(String::from_str("yt-dlpのインストールが完了しました"))
        } else {
            Err(String::from_str("yt-dlpのインストールに失敗しました: ").concat(stderr_text))
        },
    }
}

} // verus!
