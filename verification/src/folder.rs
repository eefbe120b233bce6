//! Opening a file or a folder of the mounted drive in the file manager.
use vstd::prelude::*;
use vstd::string::StrSliceExecFns;

use crate::text::{joined, text_reply};

verus! {

/// What is found at a path.
#[derive(Clone, Copy, Debug, PartialEq, Eq, Structural)]
pub enum PathKind {
    Missing,
    Directory,
    File,
}

/// A program and its arguments.
pub struct Launch {
    pub program: String,
    pub args: Vec<String>,
}

/// The mathematical content of a `Launch`.
#[verifier::ext_equal]
pub struct LaunchView {
    pub program: Seq<char>,
    pub args: Seq<Seq<char>>,
}

impl View for Launch {
    type V = LaunchView;

    open spec fn view(&self) -> LaunchView {
        LaunchView {
            program: self.program@,
            args: self.args@.map_values(|arg: String| arg@),
        }
    }
}

/// Whether a character is a letter that can name a drive.
pub open spec fn drive_letter(c: char) -> bool {
    'a' <= c <= 'z' || 'A' <= c <= 'Z'
}

/// Whether a character separates the parts of a path.
pub open spec fn separator(c: char) -> bool {
    c == '\\' || c == '/'
}

/// Whether a path is an absolute path on a drive: a drive letter, a colon, a
/// separator, then anything.
pub open spec fn names_drive_path(path: Seq<char>) -> bool {
    &&& path.len() >= 3
    &&& drive_letter(path[0])
    &&& path[1] == ':'
    &&& separator(path[2])
}

fn is_drive_path(path: &str) -> (absolute: bool)
    ensures
        absolute == names_drive_path(path@),
{
    if path.unicode_len() < 3 {
        return false;
    }
    let letter = path.get_char(0);
    let colon = path.get_char(1);
    let slash = path.get_char(2);
    (('a' <= letter && letter <= 'z') || ('A' <= letter && letter <= 'Z')) && colon == ':' && (slash
        == '\\' || slash == '/')
}

/// The verdict on a path, before the disk is asked.
pub open spec fn path_verdict(path: Seq<char>) -> Result<(), Seq<char>> {
    if names_drive_path(path) {
        Ok(())
    } else {
        Err("非法本地路径: "@ + path)
    }
}

/// Refuses what is no absolute path on a drive, before the disk is asked.
pub fn check_local_path(local_path: &str) -> (verdict: Result<(), String>)
    ensures
        text_reply(verdict) == path_verdict(local_path@),
{
    if is_drive_path(local_path) {
        Ok(())
    } else {
        Err(joined("非法本地路径: ", local_path))
    }
}

/// The file manager on a path: a folder is opened, a file is selected in its
/// folder.
pub open spec fn explorer(path: Seq<char>, kind: PathKind) -> LaunchView {
    LaunchView {
        program: "explorer.exe"@,
        args: if kind == PathKind::Directory {
            seq![path]
        } else {
            seq!["/select,"@, path]
        },
    }
}

/// What is started for a path, where `kind` is what the disk holds there. A path
/// that is refused starts nothing, whatever is there.
pub open spec fn open_plan(path: Seq<char>, kind: PathKind) -> Result<LaunchView, Seq<char>> {
    match path_verdict(path) {
        Err(error) => Err(error),
        Ok(_) => if kind == PathKind::Missing {
            Err("路径不存在（请确认本地挂载盘 P:\\ 已启动）: "@ + path)
        } else {
            Ok(explorer(path, kind))
        },
    }
}

/// What to start for a path that was looked up on the disk.
pub fn open_local_folder(local_path: &str, kind: PathKind) -> (plan: Result<Launch, String>)
    ensures
        (match plan {
            Ok(launch) => Ok(launch@),
            Err(error) => Err(error@),
        }) == open_plan(local_path@, kind),
{
    match check_local_path(local_path) {
        Err(error) => {
            return Err(error);
        },
        Ok(_) => {},
    }
    if kind == PathKind::Missing {
        return Err(joined("路径不存在（请确认本地挂载盘 P:\\ 已启动）: ", local_path));
    }
    let mut args: Vec<String> = Vec::new();
    if kind != PathKind::Directory {
        args.push("/select,".to_owned());
    }
    args.push(local_path.to_owned());
    let launch = Launch { program: "explorer.exe".to_owned(), args };
    assert(launch@ =~= explorer(local_path@, kind));
    Ok(launch)
}

/// What the page is told once the file manager was started, or was not.
pub open spec fn open_reply(started: Result<(), Seq<char>>) -> Result<Seq<char>, Seq<char>> {
    match started {
        Ok(_) => Ok("opened"@),
        Err(error) => Err("打开资源管理器失败: "@ + error),
    }
}

/// What the page is told once the file manager was started, or was not.
pub fn folder_opened(started: Result<(), String>) -> (reply: Result<String, String>)
    ensures
        (match reply {
            Ok(text) => Ok(text@),
            Err(error) => Err(error@),
        }) == open_reply(text_reply(started)),
{
    match started {
        Ok(_) => Ok("opened".to_owned()),
        Err(error) => Err(joined("打开资源管理器失败: ", error.as_str())),
    }
}

/// What the page is told in the end: `kind` is what the disk holds at the path,
/// `started` is how starting the file manager came out or would have come out.
pub open spec fn folder_reply(
    path: Seq<char>,
    kind: PathKind,
    started: Result<(), Seq<char>>,
) -> Result<Seq<char>, Seq<char>> {
    match open_plan(path, kind) {
        Err(error) => Err(error),
        Ok(_) => open_reply(started),
    }
}

/// The page hears `opened` if and only if the path is an absolute one on a drive,
/// holds something, and the file manager was started on it; in every other case
/// it hears of an error and can fall back to its own preview.
pub proof fn law_folder_reply(path: Seq<char>, kind: PathKind, started: Result<(), Seq<char>>)
    ensures
        folder_reply(path, kind, started) is Ok <==> names_drive_path(path) && kind
            != PathKind::Missing && started is Ok,
        folder_reply(path, kind, started) is Ok ==> folder_reply(path, kind, started)->Ok_0
            == "opened"@,
{
}

/// A path that is no absolute path on a drive starts nothing, whatever the disk
/// holds there, and the page hears that it was refused.
pub proof fn law_refused_path_starts_nothing(
    path: Seq<char>,
    kind: PathKind,
    started: Result<(), Seq<char>>,
)
    requires
        !names_drive_path(path),
    ensures
        open_plan(path, kind) is Err,
        folder_reply(path, kind, started) == Err::<Seq<char>, Seq<char>>(
            "非法本地路径: "@ + path,
        ),
{
}

/// The path reaches the file manager whole, as one argument and the last; only a
/// path that is no folder is preceded by the request to select it.
pub proof fn law_path_is_one_argument(path: Seq<char>, kind: PathKind)
    ensures
        explorer(path, kind).args.last() == path,
        explorer(path, kind).args.len() == (if kind == PathKind::Directory {
            1int
        } else {
            2int
        }),
        kind != PathKind::Directory ==> explorer(path, kind).args[0] == "/select,"@,
{
}

/// Whether a path is refused depends on its first three characters alone: an ASCII
/// letter, a colon, a slash of either kind. Every such path is accepted, however
/// it goes on, and every other one is refused by name.
pub proof fn law_drive_paths_accepted(path: Seq<char>)
    ensures
        path_verdict(path) is Ok <==> path.len() >= 3 && ('A' <= path[0] <= 'Z' || 'a' <= path[0]
            <= 'z') && path[1] == ':' && (path[2] == '\\' || path[2] == '/'),
        path_verdict(path) is Err ==> path_verdict(path) == Err::<(), Seq<char>>(
            "非法本地路径: "@ + path,
        ),
{
}

/// What is started for a path on a drive is fixed by the path and by what is
/// there: a file is selected in its folder, a folder is opened, and where nothing
/// is there nothing is started and the path is named.
pub proof fn law_path_opened(path: Seq<char>, kind: PathKind)
    requires
        path.len() >= 3,
        'A' <= path[0] <= 'Z' || 'a' <= path[0] <= 'z',
        path[1] == ':',
        path[2] == '\\' || path[2] == '/',
    ensures
        kind == PathKind::File ==> (open_plan(path, kind) matches Ok(launch) && launch.program
            == "explorer.exe"@ && launch.args == seq!["/select,"@, path]),
        kind == PathKind::Directory ==> (open_plan(path, kind) matches Ok(launch) && launch.program
            == "explorer.exe"@ && launch.args == seq![path]),
        kind == PathKind::Missing ==> open_plan(path, kind) == Err::<LaunchView, Seq<char>>(
            "路径不存在（请确认本地挂载盘 P:\\ 已启动）: "@ + path,
        ),
{
}

/// A path that does not start with a drive starts nothing, whatever is there, and
/// the error names it.
pub proof fn law_other_paths_refused(path: Seq<char>, kind: PathKind)
    requires
        path.len() < 3 || !('A' <= path[0] <= 'Z' || 'a' <= path[0] <= 'z') || path[1] != ':' || (
        path[2] != '\\' && path[2] != '/'),
    ensures
        open_plan(path, kind) == Err::<LaunchView, Seq<char>>("非法本地路径: "@ + path),
{
}

/// The page hears `opened` if the file manager was started, and otherwise why it
/// was not, whole.
pub proof fn law_start_reported(started: Result<(), Seq<char>>)
    ensures
        started is Ok ==> open_reply(started) == Ok::<Seq<char>, Seq<char>>("opened"@),
        started matches Err(error) ==> open_reply(started) == Err::<Seq<char>, Seq<char>>(
            "打开资源管理器失败: "@ + error,
        ),
{
}

/// A path is accepted if and only if it starts with a drive, and the refusal names
/// it.
pub proof fn law_path_checked(local_path: &str, verdict: Result<(), String>)
    requires
        check_local_path.ensures((local_path,), verdict),
    ensures
        verdict is Ok <==> local_path@.len() >= 3 && ('A' <= local_path@[0] <= 'Z' || 'a'
            <= local_path@[0] <= 'z') && local_path@[1] == ':' && (local_path@[2] == '\\'
            || local_path@[2] == '/'),
        verdict matches Err(error) ==> error@ == "非法本地路径: "@ + local_path@,
{
    law_drive_paths_accepted(local_path@);
}

/// For a file on a drive the file manager is started to select it, for a folder to
/// open it, with the whole path as the last argument and nothing added to it.
pub proof fn law_file_manager_started(
    local_path: &str,
    kind: PathKind,
    plan: Result<Launch, String>,
)
    requires
        open_local_folder.ensures((local_path, kind), plan),
        local_path@.len() >= 3,
        'A' <= local_path@[0] <= 'Z' || 'a' <= local_path@[0] <= 'z',
        local_path@[1] == ':',
        local_path@[2] == '\\' || local_path@[2] == '/',
    ensures
        plan is Ok <==> kind != PathKind::Missing,
        plan matches Ok(launch) ==> launch.program@ == "explorer.exe"@ && launch.args@.last()@
            == local_path@,
        kind == PathKind::File ==> (plan matches Ok(launch) && launch.args@.len() == 2
            && launch.args@[0]@ == "/select,"@ && launch.args@[1]@ == local_path@),
        kind == PathKind::Directory ==> (plan matches Ok(launch) && launch.args@.len() == 1
            && launch.args@[0]@ == local_path@),
        plan matches Err(error) ==> error@ == "路径不存在（请确认本地挂载盘 P:\\ 已启动）: "@
            + local_path@,
{
    law_path_opened(local_path@, kind);
    if let Ok(launch) = plan {
        assert(Ok::<LaunchView, Seq<char>>(launch@) == open_plan(local_path@, kind));
        assert(launch@.args.len() == launch.args@.len());
        assert(forall|i: int|
            0 <= i < launch.args@.len() ==> #[trigger] launch@.args[i] == launch.args@[i]@);
        assert(launch@.args[launch.args@.len() - 1] == local_path@);
        assert(launch@.args[0] == launch.args@[0]@);
        if kind == PathKind::File {
            assert(launch@.args[1] == launch.args@[1]@);
        }
    }
}

/// For a path that does not start with a drive nothing is started, whatever is
/// there.
pub proof fn law_no_drive_nothing_started(
    local_path: &str,
    kind: PathKind,
    plan: Result<Launch, String>,
)
    requires
        open_local_folder.ensures((local_path, kind), plan),
        local_path@.len() < 3 || !('A' <= local_path@[0] <= 'Z' || 'a' <= local_path@[0] <= 'z')
            || local_path@[1] != ':' || (local_path@[2] != '\\' && local_path@[2] != '/'),
    ensures
        plan matches Err(error) && error@ == "非法本地路径: "@ + local_path@,
{
    law_other_paths_refused(local_path@, kind);
}

/// The page hears of the start of the file manager, or why there was none, whole.
pub proof fn law_start_heard(started: Result<(), String>, reply: Result<String, String>)
    requires
        folder_opened.ensures((started,), reply),
    ensures
        reply is Ok <==> started is Ok,
        reply matches Ok(text) ==> text@ == "opened"@,
        started matches Err(error) ==> (reply matches Err(text) && text@
            == "打开资源管理器失败: "@ + error@),
{
    law_start_reported(text_reply(started));
}

} // verus!
