//! The Node.js toolchain that the application brings along. Its root is searched for in this
//! order:
//!
//! 1. the directory that `DSH_NODE_DIR` names,
//! 2. `../Resources/node-runtime` beside the executable (a package),
//! 3. `node-runtime` beside the executable (a build),
//! 4. `binaries/node-runtime` in the working directory (a development run),
//! 5. `node-runtime` in the resources of the application.
//!
//! Where there is none, the `node` and `npm` of the system are used.

use vstd::prelude::*;
use vstd::string::*;

use crate::launch::pairs;
use crate::launch::words;
use crate::launch::Launch;
use crate::launch::LaunchView;
use crate::paths::join_path;
use crate::paths::path_join;
use crate::text::blank;
use crate::text::chars_of;
use crate::text::is_blank;
use crate::text::maybe_text;
use crate::text::texts;

verus! {

/// The programs of one toolchain, and the directory that they come from.
#[derive(Debug, Clone)]
pub struct NodeToolchain {
    pub node: String,
    pub npm_cli: String,
    pub source: String,
}

/// The texts of a [`NodeToolchain`].
#[verifier::ext_equal]
pub struct NodeToolchainView {
    pub node: Seq<char>,
    pub npm_cli: Seq<char>,
    pub source: Seq<char>,
}

impl View for NodeToolchain {
    type V = NodeToolchainView;

    open spec fn view(&self) -> NodeToolchainView {
        NodeToolchainView { node: self.node@, npm_cli: self.npm_cli@, source: self.source@ }
    }
}

/// The text of an optional toolchain.
pub open spec fn maybe_toolchain(t: Option<NodeToolchain>) -> Option<NodeToolchainView> {
    match t {
        Some(t) => Some(t@),
        None => None,
    }
}

/// The directory of a platform, such as `macos-aarch64`.
pub open spec fn platform_name(os: Seq<char>, arch: Seq<char>) -> Seq<char> {
    os + "-"@ + arch
}

/// Names the directory of a platform.
pub fn platform_dir(os: &str, arch: &str) -> (r: String)
    ensures
        r@ == platform_name(os@, arch@),
{
    let mut r = os.to_owned();
    r.append("-");
    r.append(arch);
    r
}

/// One root, where its base is known.
pub open spec fn root_below(base: Option<&str>, rel: Seq<char>) -> Seq<Seq<char>> {
    match base {
        Some(base) => seq![path_join(base@, rel)],
        None => Seq::empty(),
    }
}

/// The roots in the order in which they are searched.
pub open spec fn roots_in_order(
    dsh_node_dir: Option<&str>,
    exe_dir: Option<&str>,
    cwd: Option<&str>,
    resources: Option<&str>,
) -> Seq<Seq<char>> {
    (match dsh_node_dir {
        Some(dir) => if is_blank(dir@) {
            Seq::empty()
        } else {
            seq![dir@]
        },
        None => Seq::empty(),
    }) + root_below(exe_dir, "../Resources/node-runtime"@) + root_below(exe_dir, "node-runtime"@)
        + root_below(cwd, "binaries/node-runtime"@) + root_below(resources, "node-runtime"@)
}

fn push_root(roots: &mut Vec<String>, base: Option<&str>, rel: &str)
    ensures
        texts(final(roots)@) == texts(old(roots)@) + root_below(base, rel@),
{
    let ghost before = roots@;
    if let Some(base) = base {
        let root = join_path(base, rel);
        roots.push(root);
    }
    assert(texts(roots@) =~= texts(before) + root_below(base, rel@));
}

/// Lists the roots in the order in which they are searched: the variable `DSH_NODE_DIR`, the
/// directory of the executable, the working directory and the resources are given where they are
/// known.
pub fn candidate_roots(
    dsh_node_dir: Option<&str>,
    exe_dir: Option<&str>,
    cwd: Option<&str>,
    resources: Option<&str>,
) -> (r: Vec<String>)
    ensures
        texts(r@) == roots_in_order(dsh_node_dir, exe_dir, cwd, resources),
{
    let mut roots: Vec<String> = Vec::new();
    assert(texts(roots@) =~= Seq::empty());
    if let Some(dir) = dsh_node_dir {
        if !blank(dir) {
            roots.push(dir.to_owned());
            assert(texts(roots@) =~= seq![dir@]);
        }
    }
    push_root(&mut roots, exe_dir, "../Resources/node-runtime");
    push_root(&mut roots, exe_dir, "node-runtime");
    push_root(&mut roots, cwd, "binaries/node-runtime");
    push_root(&mut roots, resources, "node-runtime");
    roots
}

/// The toolchain for a platform at a root.
pub open spec fn toolchain_below(root: Seq<char>, platform: Seq<char>) -> NodeToolchainView {
    let base = path_join(root, platform);
    NodeToolchainView {
        node: path_join(base, "bin/node"@),
        npm_cli: path_join(base, "lib/node_modules/npm/bin/npm-cli.js"@),
        source: base,
    }
}

/// Names the toolchain for a platform at a root, whether or not it is there.
pub fn expected_toolchain(root: &str, platform: &str) -> (r: NodeToolchain)
    ensures
        r@ == toolchain_below(root@, platform@),
{
    let base = join_path(root, platform);
    NodeToolchain {
        node: join_path(base.as_str(), "bin/node"),
        npm_cli: join_path(base.as_str(), "lib/node_modules/npm/bin/npm-cli.js"),
        source: base,
    }
}

/// The toolchain at a root, if its two programs are files.
pub fn toolchain_at(root: &str, platform: &str, node_is_file: bool, npm_cli_is_file: bool) -> (r:
    Option<NodeToolchain>)
    ensures
        maybe_toolchain(r) == (if node_is_file && npm_cli_is_file {
            Some(toolchain_below(root@, platform@))
        } else {
            None
        }),
{
    if node_is_file && npm_cli_is_file {
        Some(expected_toolchain(root, platform))
    } else {
        None
    }
}

/// A root, and which programs of the toolchain are files there.
#[derive(Debug)]
pub struct RootProbe {
    pub root: String,
    pub node_is_file: bool,
    pub npm_cli_is_file: bool,
}

impl RootProbe {
    /// The toolchain is there.
    pub open spec fn usable(self) -> bool {
        self.node_is_file && self.npm_cli_is_file
    }
}

/// The toolchain at the first root that has one.
pub open spec fn first_toolchain(roots: Seq<RootProbe>, platform: Seq<char>) -> Option<
    NodeToolchainView,
>
    decreases roots.len(),
{
    if roots.len() == 0 {
        None
    } else if roots[0].usable() {
        Some(toolchain_below(roots[0].root@, platform))
    } else {
        first_toolchain(roots.skip(1), platform)
    }
}

/// Finds the toolchain at the first root that has one.
pub fn bundled_toolchain(roots: &Vec<RootProbe>, platform: &str) -> (r: Option<NodeToolchain>)
    ensures
        maybe_toolchain(r) == first_toolchain(roots@, platform@),
{
    let mut i: usize = 0;
    assert(roots@.skip(0) =~= roots@);
    while i < roots.len()
        invariant
            i <= roots.len(),
            first_toolchain(roots@, platform@) == first_toolchain(roots@.skip(i as int), platform@),
        decreases roots.len() - i,
    {
        let probe = &roots[i];
        assert(roots@.skip(i as int)[0] == roots@[i as int]);
        let found = toolchain_at(
            probe.root.as_str(),
            platform,
            probe.node_is_file,
            probe.npm_cli_is_file,
        );
        if found.is_some() {
            return found;
        }
        assert(roots@.skip(i as int).skip(1) =~= roots@.skip(i as int + 1));
        i = i + 1;
    }
    None
}

/// A root is passed over only for one that stands before it: of two roots that both have the
/// toolchain, the one that stands later is never taken.
pub proof fn law_root_order(roots: Seq<RootProbe>, platform: Seq<char>, i: int)
    requires
        0 <= i < roots.len(),
        roots[i].usable(),
        forall|j: int| 0 <= j < i ==> !(#[trigger] roots[j]).usable(),
    ensures
        first_toolchain(roots, platform) == Some(toolchain_below(roots[i].root@, platform)),
    decreases i,
{
    if i > 0 {
        let rest = roots.skip(1);
        assert forall|j: int| 0 <= j < i - 1 implies !(#[trigger] rest[j]).usable() by {
            assert(rest[j] == roots[j + 1]);
        }
        assert(rest[i - 1] == roots[i]);
        law_root_order(rest, platform, i - 1);
    }
}

/// The `node` to run, and where it was brought from: that of the toolchain, else the system's.
pub fn node_program(toolchain: &Option<NodeToolchain>) -> (r: (String, Option<String>))
    ensures
        match *toolchain {
            Some(t) => r.0@ == t.node@ && maybe_text(r.1) == Some(t.source@),
            None => r.0@ == "node"@ && r.1 is None,
        },
{
    match toolchain {
        Some(t) => (t.node.clone(), Some(t.source.clone())),
        None => ("node".to_owned(), None),
    }
}

/// How to run `npm`: the program, and the arguments before the subcommand. That of the toolchain
/// is a script for its `node`; else it is the system's.
pub fn npm_invocation(toolchain: &Option<NodeToolchain>) -> (r: (String, Vec<String>))
    ensures
        match *toolchain {
            Some(t) => r.0@ == t.node@ && texts(r.1@) == seq![t.npm_cli@],
            None => r.0@ == "npm"@ && r.1.len() == 0,
        },
{
    let mut prefix: Vec<String> = Vec::new();
    match toolchain {
        Some(t) => {
            prefix.push(t.npm_cli.clone());
            assert(texts(prefix@) =~= seq![t.npm_cli@]);
            (t.node.clone(), prefix)
        },
        None => ("npm".to_owned(), prefix),
    }
}

/// How much of a path stands before its last `/`; nothing where it has none.
pub open spec fn parent_length(path: Seq<char>) -> nat
    decreases path.len(),
{
    if path.len() == 0 {
        0
    } else if path.last() == '/' {
        (path.len() - 1) as nat
    } else {
        parent_length(path.drop_last())
    }
}

/// The directory of a file: its path before the last `/`.
pub open spec fn parent_path(path: Seq<char>) -> Seq<char> {
    path.take(parent_length(path) as int)
}

/// The directory of the programs of the toolchain, where there is one.
pub fn bundled_bin_dir(toolchain: &Option<NodeToolchain>) -> (r: Option<String>)
    ensures
        maybe_text(r) == (match *toolchain {
            Some(t) => Some(parent_path(t.node@)),
            None => None,
        }),
{
    match toolchain {
        Some(t) => {
            let path = chars_of(t.node.as_str());
            let mut n: usize = path.len();
            let ghost whole = path@;
            assert(whole.take(n as int) =~= whole);
            while n > 0 && path[n - 1] != '/'
                invariant
                    path@ == whole,
                    n <= path.len(),
                    parent_length(whole) == parent_length(whole.take(n as int)),
                decreases n,
            {
                assert(whole.take(n as int).last() == whole[n - 1]);
                assert(whole.take(n as int).drop_last() =~= whole.take(n as int - 1));
                n = n - 1;
            }
            if n > 0 {
                assert(whole.take(n as int).last() == whole[n - 1]);
                n = n - 1;
            }
            assert(whole.subrange(0, n as int) =~= whole.take(n as int));
            Some(t.node.as_str().substring_char(0, n).to_owned())
        },
        None => None,
    }
}

/// The programs of a toolchain stand in `bin` below the directory that it comes from.
pub proof fn law_bin_dir(root: Seq<char>, platform: Seq<char>)
    requires
        path_join(root, platform).len() > 0,
    ensures
        parent_path(toolchain_below(root, platform).node) == path_join(
            path_join(root, platform),
            "bin"@,
        ),
{
    let base = path_join(root, platform);
    let node = path_join(base, "bin/node"@);
    reveal_strlit("bin/node");
    reveal_strlit("bin");
    reveal_strlit("/");
    reveal_with_fuel(parent_length, 6);
    let n = node.len();
    assert(node.drop_last().drop_last().drop_last().drop_last().last() == node[n - 5]);
    assert(parent_length(node) == n - 5);
    assert(parent_path(node) =~= path_join(base, "bin"@));
}

/// `PATH` with the programs of the toolchain in front, where there is one.
pub fn enriched_path(toolchain: &Option<NodeToolchain>, existing: &str) -> (r: Option<String>)
    ensures
        maybe_text(r) == (match *toolchain {
            Some(t) => Some(parent_path(t.node@) + ":"@ + existing@),
            None => None,
        }),
{
    match bundled_bin_dir(toolchain) {
        Some(dir) => {
            let mut r = dir;
            r.append(":");
            r.append(existing);
            Some(r)
        },
        None => None,
    }
}

/// The programs that installs, checks and plugins run on.
#[derive(Debug)]
pub struct Tools {
    pub node: String,
    pub npm: String,
    pub npm_prefix: Vec<String>,
    /// `PATH` for the programs, where it is not the one that the shell has.
    pub path: Option<String>,
}

/// The texts of a [`Tools`].
#[verifier::ext_equal]
pub struct ToolsView {
    pub node: Seq<char>,
    pub npm: Seq<char>,
    pub npm_prefix: Seq<Seq<char>>,
    pub path: Option<Seq<char>>,
}

impl View for Tools {
    type V = ToolsView;

    open spec fn view(&self) -> ToolsView {
        ToolsView {
            node: self.node@,
            npm: self.npm@,
            npm_prefix: texts(self.npm_prefix@),
            path: maybe_text(self.path),
        }
    }
}

/// The programs of a toolchain, or those of the system where there is none.
pub open spec fn tools_of(toolchain: Option<NodeToolchainView>, existing: Seq<char>) -> ToolsView {
    match toolchain {
        Some(t) => ToolsView {
            node: t.node,
            npm: t.node,
            npm_prefix: seq![t.npm_cli],
            path: Some(parent_path(t.node) + ":"@ + existing),
        },
        None => ToolsView {
            node: "node"@,
            npm: "npm"@,
            npm_prefix: Seq::empty(),
            path: None,
        },
    }
}

/// Chooses the programs to run on; `existing` is the `PATH` that the shell has.
pub fn choose_tools(toolchain: &Option<NodeToolchain>, existing: &str) -> (r: Tools)
    ensures
        r@ == tools_of(maybe_toolchain(*toolchain), existing@),
{
    let (node, _) = node_program(toolchain);
    let (npm, npm_prefix) = npm_invocation(toolchain);
    let path = enriched_path(toolchain, existing);
    let r = Tools { node, npm, npm_prefix, path };
    assert(r@ =~= tools_of(maybe_toolchain(*toolchain), existing@));
    r
}

/// The variables for the programs: their `PATH`, where it is not the one that the shell has.
pub open spec fn path_env(path: Option<Seq<char>>) -> Seq<(Seq<char>, Seq<char>)> {
    match path {
        Some(path) => seq![("PATH"@, path)],
        None => Seq::empty(),
    }
}

/// A command of `npm` with the arguments `rest`.
pub open spec fn npm_command(tools: ToolsView, rest: Seq<Seq<char>>) -> LaunchView {
    LaunchView {
        program: tools.npm,
        args: tools.npm_prefix + rest,
        cwd: None,
        env: path_env(tools.path),
    }
}

/// A command of `node` with the arguments `rest`.
pub open spec fn node_command(tools: ToolsView, rest: Seq<Seq<char>>) -> LaunchView {
    LaunchView { program: tools.node, args: rest, cwd: None, env: path_env(tools.path) }
}

fn tool_env(tools: &Tools) -> (r: Vec<(String, String)>)
    ensures
        pairs(r@) == path_env(tools@.path),
{
    let mut env: Vec<(String, String)> = Vec::new();
    if let Some(path) = &tools.path {
        env.push(("PATH".to_owned(), path.clone()));
    }
    assert(pairs(env@) =~= path_env(tools@.path));
    env
}

/// Makes a command of `npm`.
pub fn npm_launch(tools: &Tools, rest: &[&str]) -> (r: Launch)
    ensures
        r@ == npm_command(tools@, rest@.map_values(|w: &str| w@)),
{
    let mut args: Vec<String> = Vec::new();
    let mut i: usize = 0;
    while i < tools.npm_prefix.len()
        invariant
            i <= tools.npm_prefix.len(),
            args.len() == i,
            forall|j: int| 0 <= j < i ==> (#[trigger] args@[j])@ == tools.npm_prefix@[j]@,
        decreases tools.npm_prefix.len() - i,
    {
        args.push(tools.npm_prefix[i].clone());
        i = i + 1;
    }
    let mut more = words(rest);
    let ghost back = more@;
    args.append(&mut more);
    assert(texts(args@) =~= texts(tools.npm_prefix@) + texts(back));
    let r = Launch { program: tools.npm.clone(), args, cwd: None, env: tool_env(tools) };
    assert(r@ =~= npm_command(tools@, rest@.map_values(|w: &str| w@)));
    r
}

/// Makes a command of `node`.
pub fn node_launch(tools: &Tools, rest: &[&str]) -> (r: Launch)
    ensures
        r@ == node_command(tools@, rest@.map_values(|w: &str| w@)),
{
    let r = Launch {
        program: tools.node.clone(),
        args: words(rest),
        cwd: None,
        env: tool_env(tools),
    };
    assert(r@ =~= node_command(tools@, rest@.map_values(|w: &str| w@)));
    r
}

/// The roots are searched in the order that is documented, and each one whose base is not known is
/// left out without a gap.
pub proof fn law_roots(
    dsh_node_dir: Option<&str>,
    exe_dir: Option<&str>,
    cwd: Option<&str>,
    resources: Option<&str>,
)
    ensures
        ({
            let roots = roots_in_order(dsh_node_dir, exe_dir, cwd, resources);
            let given = dsh_node_dir is Some && !is_blank(dsh_node_dir->0@);
            let a: int = if given {
                1
            } else {
                0
            };
            let b: int = if exe_dir is Some {
                a + 2
            } else {
                a
            };
            let c: int = if cwd is Some {
                b + 1
            } else {
                b
            };
            let d: int = if resources is Some {
                c + 1
            } else {
                c
            };
            &&& roots.len() == d
            &&& given ==> roots[0] == dsh_node_dir->0@
            &&& exe_dir is Some ==> roots[a] == path_join(
                exe_dir->0@,
                "../Resources/node-runtime"@,
            ) && roots[a + 1] == path_join(exe_dir->0@, "node-runtime"@)
            &&& cwd is Some ==> roots[b] == path_join(cwd->0@, "binaries/node-runtime"@)
            &&& resources is Some ==> roots[c] == path_join(resources->0@, "node-runtime"@)
        }),
{
}

/// The programs of a toolchain stand below its root in the directory of the platform, and a
/// toolchain is there exactly if both of them are files.
pub proof fn law_toolchain(
    root: Seq<char>,
    os: Seq<char>,
    arch: Seq<char>,
    probe: RootProbe,
    roots: Seq<RootProbe>,
    platform: Seq<char>,
)
    ensures
        platform_name(os, arch) == os + "-"@ + arch,
        ({
            let t = toolchain_below(root, platform);
            &&& t.source == path_join(root, platform)
            &&& t.node == path_join(path_join(root, platform), "bin/node"@)
            &&& t.npm_cli == path_join(
                path_join(root, platform),
                "lib/node_modules/npm/bin/npm-cli.js"@,
            )
        }),
        probe.usable() <==> probe.node_is_file && probe.npm_cli_is_file,
        (forall|i: int| 0 <= i < roots.len() ==> !(#[trigger] roots[i]).usable())
            <==> first_toolchain(roots, platform) is None,
    decreases roots.len(),
{
    if roots.len() > 0 {
        let rest = roots.skip(1);
        law_toolchain(root, os, arch, probe, rest, platform);
        if forall|i: int| 0 <= i < rest.len() ==> !(#[trigger] rest[i]).usable() {
            assert forall|i: int| 0 <= i < roots.len() && !roots[0].usable() implies !(
            #[trigger] roots[i]).usable() by {
                if i > 0 {
                    assert(rest[i - 1] == roots[i]);
                }
            }
        }
        if forall|i: int| 0 <= i < roots.len() ==> !(#[trigger] roots[i]).usable() {
            assert forall|i: int| 0 <= i < rest.len() implies !(#[trigger] rest[i]).usable() by {
                assert(rest[i] == roots[i + 1]);
            }
        }
    }
}

/// With a toolchain everything runs on its `node`, `npm` through its script, and its programs come
/// first on the `PATH`; without one everything is the system's, and the `PATH` stays.
pub proof fn law_tools(t: NodeToolchainView, dir: Seq<char>, name: Seq<char>, existing: Seq<char>)
    requires
        t.node == dir + "/"@ + name,
        forall|i: int| 0 <= i < name.len() ==> #[trigger] name[i] != '/',
    ensures
        ({
            let tools = tools_of(Some(t), existing);
            &&& tools.node == t.node
            &&& tools.npm == t.node
            &&& tools.npm_prefix == seq![t.npm_cli]
            &&& tools.path == Some(dir + ":"@ + existing)
        }),
        ({
            let tools = tools_of(None, existing);
            &&& tools.node == "node"@
            &&& tools.npm == "npm"@
            &&& tools.npm_prefix.len() == 0
            &&& tools.path is None
        }),
{
    lemma_parent(dir, name);
}

proof fn lemma_parent(dir: Seq<char>, name: Seq<char>)
    requires
        forall|i: int| 0 <= i < name.len() ==> #[trigger] name[i] != '/',
    ensures
        parent_path(dir + "/"@ + name) == dir,
{
    lemma_parent_length(dir, name);
    reveal_strlit("/");
    assert((dir + "/"@ + name).take(dir.len() as int) =~= dir);
}

proof fn lemma_parent_length(dir: Seq<char>, name: Seq<char>)
    requires
        forall|i: int| 0 <= i < name.len() ==> #[trigger] name[i] != '/',
    ensures
        parent_length(dir + "/"@ + name) == dir.len(),
    decreases name.len(),
{
    reveal_strlit("/");
    let path = dir + "/"@ + name;
    if name.len() > 0 {
        let rest = name.drop_last();
        assert forall|i: int| 0 <= i < rest.len() implies #[trigger] rest[i] != '/' by {
            assert(rest[i] == name[i]);
        }
        lemma_parent_length(dir, rest);
        assert(path.last() == name[name.len() - 1]);
        assert(path.drop_last() =~= dir + "/"@ + rest);
    } else {
        assert(path.last() == '/');
    }
}

/// A command of a tool runs that tool with the arguments it is given, behind those that the tool
/// itself needs, in the directory of the shell, and with the `PATH` of the tools.
pub proof fn law_tool_commands(tools: ToolsView, rest: Seq<Seq<char>>)
    ensures
        ({
            let npm = npm_command(tools, rest);
            &&& npm.program == tools.npm
            &&& npm.args == tools.npm_prefix + rest
            &&& npm.cwd is None
            &&& tools.path is None ==> npm.env.len() == 0
            &&& tools.path matches Some(path) ==> npm.env == seq![("PATH"@, path)]
        }),
        ({
            let node = node_command(tools, rest);
            &&& node.program == tools.node
            &&& node.args == rest
            &&& node.cwd is None
            &&& tools.path is None ==> node.env.len() == 0
            &&& tools.path matches Some(path) ==> node.env == seq![("PATH"@, path)]
        }),
{
}

/// A path without a `/` has no directory before it.
pub proof fn law_no_parent(path: Seq<char>, t: NodeToolchainView, existing: Seq<char>)
    requires
        forall|i: int| 0 <= i < path.len() ==> #[trigger] path[i] != '/',
    ensures
        parent_path(path).len() == 0,
        t.node == path ==> tools_of(Some(t), existing).path == Some(":"@ + existing),
    decreases path.len(),
{
    if path.len() > 0 {
        let rest = path.drop_last();
        assert forall|i: int| 0 <= i < rest.len() implies #[trigger] rest[i] != '/' by {
            assert(rest[i] == path[i]);
        }
        law_no_parent(rest, t, existing);
        assert(path.last() == path[path.len() - 1]);
        lemma_parent_within(rest);
        assert(parent_length(path) == parent_length(rest));
    }
    assert(parent_path(path) + ":"@ + existing =~= ":"@ + existing);
}

proof fn lemma_parent_within(path: Seq<char>)
    ensures
        parent_length(path) <= path.len(),
    decreases path.len(),
{
    if path.len() > 0 {
        lemma_parent_within(path.drop_last());
    }
}

/// A toolchain is shown with its places as they are.
pub proof fn law_node_toolchain_shown(x: NodeToolchain)
    ensures
        x@.node == x.node@,
        x@.npm_cli == x.npm_cli@,
        x@.source == x.source@,
{
}

/// The tools are shown with their programs, arguments and `PATH` as they are.
pub proof fn law_tools_shown(x: Tools)
    ensures
        x@.node == x.node@,
        x@.npm == x.npm@,
        x@.npm_prefix.len() == x.npm_prefix@.len(),
        forall|i: int|
            0 <= i < x.npm_prefix@.len() ==> #[trigger] x@.npm_prefix[i] == x.npm_prefix@[i]@,
        x.path is None ==> x@.path is None,
        x.path matches Some(s) ==> x@.path == Some(s@),
{
}

/// A toolchain that is there is shown as it is.
pub proof fn law_maybe_toolchain(t: NodeToolchain)
    ensures
        maybe_toolchain(Some(t)) == Some(t@),
        maybe_toolchain(None) is None,
{
}

} // verus!
