//! What the child runs on: the check of `node`, the log file, the workspace and the command line.

use vstd::prelude::*;
use vstd::string::*;

use crate::launch::pairs;
use crate::launch::Launch;
use crate::launch::LaunchView;
use crate::launch::Output;
use crate::paths::join_path;
use crate::paths::path_join;
use crate::text::blank;
use crate::text::decimal;
use crate::text::decimal_text;
use crate::text::is_blank;
use crate::text::law_decimal_injective;
use crate::text::maybe_text;
use crate::text::result_text;
use crate::text::texts;
use crate::text::trim;
use crate::text::trimmed;

verus! {

/// The directory below the data directory that holds the logs.
pub const LOGS_DIR: &'static str = "logs";

/// The workspace below the home directory.
pub const WORKSPACE_DIR: &'static str = "dsh-desktop-workspace";

/// The variable that marks a child of the shell.
pub const CHILD_MARK: &'static str = "DSH_DESKTOP_CHILD";

/// The application data directory, where it has one.
pub fn app_data_dir(found: Result<String, String>) -> (r: Result<String, String>)
    ensures
        result_text(r) == (match found {
            Ok(dir) => Ok(dir@),
            Err(e) => Err("无法解析应用数据目录: "@ + e@),
        }),
{
    match found {
        Ok(dir) => Ok(dir),
        Err(e) => {
            let mut reason = "无法解析应用数据目录: ".to_owned();
            reason.append(e.as_str());
            Err(reason)
        },
    }
}

/// The version that `node --version` printed, or why there is none.
pub fn check_node(asked: Result<Output, String>) -> (r: Result<String, String>)
    ensures
        result_text(r) == (match asked {
            Ok(out) => if out.success {
                Ok(trimmed(out.stdout@))
            } else {
                Err("node --version 执行失败"@)
            },
            Err(e) => Err("找不到 node 运行时（捆绑缺失且 PATH 中无 node）: "@ + e@),
        }),
{
    match asked {
        Ok(out) => if out.success {
            Ok(trim(out.stdout.as_str()).to_owned())
        } else {
            Err("node --version 执行失败".to_owned())
        },
        Err(e) => {
            let mut reason = "找不到 node 运行时（捆绑缺失且 PATH 中无 node）: ".to_owned();
            reason.append(e.as_str());
            Err(reason)
        },
    }
}

/// The directory of the logs.
pub fn logs_dir(data: &str) -> (r: String)
    ensures
        r@ == path_join(data@, LOGS_DIR@),
{
    join_path(data, LOGS_DIR)
}

/// The log file of a child that is started `secs` seconds after the epoch.
pub open spec fn log_path(data: Seq<char>, secs: u64) -> Seq<char> {
    path_join(path_join(data, LOGS_DIR@), "dsh-"@ + decimal(secs as nat) + ".log"@)
}

/// The path of the log, once its directory has been created, or why there is none.
pub fn open_log(data: &str, made: Result<(), String>, secs: u64) -> (r: Result<String, String>)
    ensures
        result_text(r) == (match made {
            Ok(_) => Ok(log_path(data@, secs)),
            Err(e) => Err("创建日志目录失败: "@ + e@),
        }),
{
    match made {
        Ok(_) => {
            let mut name = "dsh-".to_owned();
            name.append(decimal_text(secs).as_str());
            name.append(".log");
            Ok(join_path(logs_dir(data).as_str(), name.as_str()))
        },
        Err(e) => {
            let mut reason = "创建日志目录失败: ".to_owned();
            reason.append(e.as_str());
            Err(reason)
        },
    }
}

/// The directory that the child works in, and whether the shell creates it first.
#[derive(Debug)]
pub struct Workspace {
    pub dir: String,
    pub create: bool,
}

/// The text of an optional text, unless it is blank.
pub open spec fn filled(s: Option<&str>) -> Option<Seq<char>> {
    match s {
        Some(s) => if is_blank(s@) {
            None
        } else {
            Some(s@)
        },
        None => None,
    }
}

/// The working directory of the child: `DSH_CWD` without the white space round it; else the
/// directory that was chosen in the settings; else the workspace of the shell in the home
/// directory, which is created. A blank text counts as none, a missing home is `.`.
pub fn child_workspace(dsh_cwd: Option<&str>, chosen: Option<&str>, home: Option<&str>) -> (r:
    Workspace)
    ensures
        filled(dsh_cwd) matches Some(dir) ==> r.dir@ == trimmed(dir) && !r.create,
        filled(dsh_cwd) is None && filled(chosen) is Some ==> Some(r.dir@) == filled(chosen)
            && !r.create,
        filled(dsh_cwd) is None && filled(chosen) is None ==> r.create && r.dir@ == path_join(
            match home {
                Some(home) => home@,
                None => "."@,
            },
            WORKSPACE_DIR@,
        ),
{
    if let Some(dir) = dsh_cwd {
        if !blank(dir) {
            return Workspace { dir: trim(dir).to_owned(), create: false };
        }
    }
    if let Some(dir) = chosen {
        if !blank(dir) {
            return Workspace { dir: dir.to_owned(), create: false };
        }
    }
    let home = match home {
        Some(home) => home,
        None => ".",
    };
    Workspace { dir: join_path(home, WORKSPACE_DIR), create: true }
}

/// The command line of the child: `node <bin> web --port 0`, marked as a child of the shell.
pub open spec fn child_command(
    node: Seq<char>,
    bin: Seq<char>,
    cwd: Seq<char>,
    path: Option<Seq<char>>,
) -> LaunchView {
    LaunchView {
        program: node,
        args: seq![bin, "web"@, "--port"@, "0"@],
        cwd: Some(cwd),
        env: match path {
            Some(path) => seq![(CHILD_MARK@, "1"@), ("PATH"@, path)],
            None => seq![(CHILD_MARK@, "1"@)],
        },
    }
}

/// Makes the command line of the child; `path` replaces its `PATH` where it is given.
pub fn child_launch(node: String, bin: String, cwd: String, path: Option<String>) -> (r: Launch)
    ensures
        r@ == child_command(node@, bin@, cwd@, maybe_text(path)),
{
    let ghost path_text = maybe_text(path);
    let mut args: Vec<String> = Vec::new();
    args.push(bin);
    args.push("web".to_owned());
    args.push("--port".to_owned());
    args.push("0".to_owned());
    let mut env: Vec<(String, String)> = Vec::new();
    env.push((CHILD_MARK.to_owned(), "1".to_owned()));
    if let Some(path) = path {
        env.push(("PATH".to_owned(), path));
    }
    let r = Launch { program: node, args, cwd: Some(cwd), env };
    assert(r@ =~= child_command(node@, bin@, cwd@, path_text)) by {
        assert(texts(r.args@) =~= seq![bin@, "web"@, "--port"@, "0"@]);
        assert(pairs(r.env@) =~= child_command(node@, bin@, cwd@, path_text).env);
    }
    r
}

/// The child runs the executable that it is given on the `node` that it is given, as
/// `web --port 0`, in the directory that it is given, whether or not it is given a `PATH`. It is
/// marked, and no other variable is set.
pub proof fn law_child_launch(
    node: Seq<char>,
    bin: Seq<char>,
    cwd: Seq<char>,
    path: Option<Seq<char>>,
)
    ensures
        ({
            let launch = child_command(node, bin, cwd, path);
            &&& launch.cwd == Some(cwd)
            &&& launch.program == node
            &&& launch.args.len() == 4
            &&& launch.args[0] == bin
            &&& launch.args[1] == "web"@
            &&& launch.args[2] == "--port"@
            &&& launch.args[3] == "0"@
            &&& launch.env.contains(("DSH_DESKTOP_CHILD"@, "1"@))
            &&& path matches Some(p) ==> launch.env.contains(("PATH"@, p))
            &&& launch.env.len() == 1 + (if path is Some {
                1int
            } else {
                0int
            })
        }),
{
    let launch = child_command(node, bin, cwd, path);
    assert(launch.env[0] == ("DSH_DESKTOP_CHILD"@, "1"@));
    if path is Some {
        assert(launch.env[1] == ("PATH"@, path->0));
    }
}

/// Two launches of the child are the same only if everything that they are made of is the same.
pub proof fn law_child_launch_injective(
    node: Seq<char>,
    bin: Seq<char>,
    cwd: Seq<char>,
    path: Option<Seq<char>>,
    node2: Seq<char>,
    bin2: Seq<char>,
    cwd2: Seq<char>,
    path2: Option<Seq<char>>,
)
    requires
        child_command(node, bin, cwd, path) == child_command(node2, bin2, cwd2, path2),
    ensures
        node == node2,
        bin == bin2,
        cwd == cwd2,
        path == path2,
{
    let a = child_command(node, bin, cwd, path);
    let b = child_command(node2, bin2, cwd2, path2);
    assert(a.args[0] == bin && b.args[0] == bin2);
    law_child_launch(node, bin, cwd, path);
    law_child_launch(node2, bin2, cwd2, path2);
    assert(path is Some <==> path2 is Some);
    if path is Some {
        assert(a.env[1].1 == path->0);
        assert(b.env[1].1 == path2->0);
    }
}

/// A text counts as given exactly if it is there and not blank, and then as it is.
pub proof fn law_filled(s: &str)
    ensures
        filled(None) is None,
        is_blank(s@) ==> filled(Some(s)) is None,
        !is_blank(s@) ==> filled(Some(s)) == Some(s@),
{
}

/// Children that are started at different times have different logs, all of them in `logs` below
/// the data directory.
pub proof fn law_log_path(data: Seq<char>, secs: u64, other: u64)
    requires
        data.len() > 0,
        data.last() != '/',
    ensures
        log_path(data, secs) == data + "/logs/dsh-"@ + decimal(secs as nat) + ".log"@,
        log_path(data, secs) == log_path(data, other) ==> secs == other,
{
    reveal_strlit("/");
    reveal_strlit("logs");
    reveal_strlit("/logs/dsh-");
    reveal_strlit("dsh-");
    reveal_strlit(".log");
    let head = data + "/logs/dsh-"@;
    assert(log_path(data, secs) =~= head + decimal(secs as nat) + ".log"@);
    assert(log_path(data, other) =~= head + decimal(other as nat) + ".log"@);
    if log_path(data, secs) == log_path(data, other) {
        let n = log_path(data, secs).len();
        assert(decimal(secs as nat) =~= log_path(data, secs).subrange(head.len() as int, n - 4));
        assert(decimal(other as nat) =~= log_path(data, other).subrange(head.len() as int, n - 4));
        law_decimal_injective(secs as nat, other as nat);
    }
}

} // verus!
