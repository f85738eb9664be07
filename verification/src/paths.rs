//! The files and sockets that the launcher, the runtime and the tray share.

use vstd::prelude::*;
use vstd::string::StringExecFns;

verus! {

/// A file of one web app in the runtime directory.
#[derive(Clone, Copy, Debug, PartialEq, Eq, Structural)]
pub enum AppFile {
    /// Holds the number of unread messages.
    Unread,
    /// There while the runtime wants its window hidden.
    Hide,
    /// There while someone wants the window shown.
    Show,
    /// There while the window is hidden.
    Hidden,
    /// Holds the process number of the runtime.
    Running,
    /// The socket that the runtime listens on.
    Socket,
    /// Holds the process number of the tray.
    TrayPid,
}

/// What stands before the identifier in the name of a file.
pub open spec fn file_prefix(kind: AppFile) -> Seq<char> {
    if kind == AppFile::TrayPid {
        "/ffwebapps-tray-"@
    } else {
        "/ffwebapps-"@
    }
}

/// What stands behind the identifier in the name of a file.
pub open spec fn file_suffix(kind: AppFile) -> Seq<char> {
    match kind {
        AppFile::Unread => ".unread"@,
        AppFile::Hide => ".hide"@,
        AppFile::Show => ".show"@,
        AppFile::Hidden => ".hidden"@,
        AppFile::Running => ".running"@,
        AppFile::Socket => ".sock"@,
        AppFile::TrayPid => ".pid"@,
    }
}

/// The path of a file of the web app `id` in the runtime directory `rt`.
pub open spec fn app_file(rt: Seq<char>, id: Seq<char>, kind: AppFile) -> Seq<char> {
    rt + file_prefix(kind) + id + file_suffix(kind)
}

/// The directory for files that live as long as the session.
pub open spec fn session_dir(variable: Option<Seq<char>>) -> Seq<char> {
    match variable {
        Some(dir) => dir,
        None => "/tmp"@,
    }
}

/// The directory for files that live as long as the session: the one that the environment names,
/// or `/tmp`.
pub fn rt_dir(variable: Option<String>) -> (r: String)
    ensures
        r@ == session_dir(variable.deep_view()),
{
    match variable {
        Some(dir) => dir,
        None => "/tmp".to_owned(),
    }
}

/// The path of a file of the web app `id` in the runtime directory `rt`.
pub fn app_file_path(rt: &str, id: &str, kind: AppFile) -> (r: String)
    ensures
        r@ == app_file(rt@, id@, kind),
{
    let mut path = rt.to_owned();
    match kind {
        AppFile::TrayPid => path.append("/ffwebapps-tray-"),
        _ => path.append("/ffwebapps-"),
    }
    path.append(id);
    match kind {
        AppFile::Unread => path.append(".unread"),
        AppFile::Hide => path.append(".hide"),
        AppFile::Show => path.append(".show"),
        AppFile::Hidden => path.append(".hidden"),
        AppFile::Running => path.append(".running"),
        AppFile::Socket => path.append(".sock"),
        AppFile::TrayPid => path.append(".pid"),
    }
    path
}

/// The file that holds the process number of the tray of the web app `id`.
pub fn tray_pidfile(rt: &str, id: &str) -> (r: String)
    ensures
        r@ == rt@ + "/ffwebapps-tray-"@ + id@ + ".pid"@,
{
    app_file_path(rt, id, AppFile::TrayPid)
}

/// The file that trays write their log to.
pub fn log_path(rt: &str) -> (r: String)
    ensures
        r@ == rt@ + "/ffwebapps-tray.log"@,
{
    let mut path = rt.to_owned();
    path.append("/ffwebapps-tray.log");
    path
}

/// The file that a script for KWin is written to.
pub fn script_path(rt: &str) -> (r: String)
    ensures
        r@ == rt@ + "/ffwebapps-kwin.js"@,
{
    let mut path = rt.to_owned();
    path.append("/ffwebapps-kwin.js");
    path
}

/// Files of different web apps are different, and so are files of different kinds: in one runtime
/// directory a path tells both the web app and the kind.
pub proof fn law_app_files_distinct(
    rt: Seq<char>,
    a: Seq<char>,
    kind_a: AppFile,
    b: Seq<char>,
    kind_b: AppFile,
)
    requires
        app_file(rt, a, kind_a) == app_file(rt, b, kind_b),
    ensures
        a == b,
        kind_a == kind_b,
{
    reveal_strlit("/ffwebapps-tray-");
    reveal_strlit("/ffwebapps-");
    reveal_strlit(".unread");
    reveal_strlit(".hide");
    reveal_strlit(".show");
    reveal_strlit(".hidden");
    reveal_strlit(".running");
    reveal_strlit(".sock");
    reveal_strlit(".pid");
    let p = app_file(rt, a, kind_a);
    let q = app_file(rt, b, kind_b);
    assert(p[p.len() - 1] == file_suffix(kind_a)[file_suffix(kind_a).len() - 1]);
    assert(q[q.len() - 1] == file_suffix(kind_b)[file_suffix(kind_b).len() - 1]);
    assert(p[p.len() - 2] == file_suffix(kind_a)[file_suffix(kind_a).len() - 2]);
    assert(q[q.len() - 2] == file_suffix(kind_b)[file_suffix(kind_b).len() - 2]);
    assert(kind_a == kind_b);
    let from = (rt + file_prefix(kind_a)).len() as int;
    assert(a.len() == b.len());
    assert(a =~= p.subrange(from, from + a.len()));
    assert(b =~= q.subrange(from, from + b.len()));
}

} // verus!
