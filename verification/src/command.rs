//! The command assembler: from a task, its project, and the workspace, build
//! the concrete invocation — binary, argument vector, environment, working
//! directory — for the runner to execute. Toolchain installation is an
//! outside concern: the toolchain hands in its resolved binary paths as plain
//! strings. The two platform strategies are explicit values, not conditional
//! compilation: a posix-style host passes interpreter flags as leading
//! arguments, while a shell-wrapper host passes them through an environment
//! variable and rewrites script-like argument paths to absolute ones.

use crate::strmap::StringMap;
use vstd::prelude::*;
use vstd::string::StrSliceExecFns;
use vstd::string::StringExecFns;

verus! {

/// The host platform family, picked once at startup.
#[derive(Clone, Copy, PartialEq, Eq, Structural, Debug)]
pub enum HostPlatform {
    /// Interpreter flags ride in argv; paths join with `/`.
    Posix,
    /// Binaries are `.cmd`-style wrappers run through a command shell; flags
    /// ride in an environment variable; paths join with `\`.
    Windows,
}

/// The runtime kind of a task's command.
#[derive(Clone, Copy, PartialEq, Eq, Structural, Debug)]
pub enum TaskType {
    /// A node-ecosystem command, run through the toolchain's interpreter.
    Node,
    /// A generic system command, passed through unmodified.
    System,
}

/// Task options the core acts on.
pub struct TaskOptions {
    /// How many times a failed attempt is retried; `retry_count + 1` bounds
    /// the attempts.
    pub retry_count: u32,
    /// Run from the workspace root instead of the project root.
    pub run_from_workspace_root: bool,
}

/// A resolved task: what to run and how.
pub struct Task {
    /// The `project:task` identifier the task resolved from.
    pub target: String,
    pub command: String,
    pub args: Vec<String>,
    pub env: StringMap<String>,
    pub type_of: TaskType,
    /// Output paths, relative to the project root, published after a
    /// successful run.
    pub output_paths: Vec<String>,
    pub options: TaskOptions,
}

/// The project a target resolved to.
pub struct Project {
    pub id: String,
    pub root: String,
    pub source: String,
}

/// Workspace-wide paths, shared read-only across concurrent invocations.
pub struct WorkspaceInfo {
    pub root: String,
    pub cache_dir: String,
    pub working_dir: String,
    pub toolchain_dir: String,
}

/// The toolchain's resolved binaries, as plain paths.
pub struct ToolchainPaths {
    /// The node interpreter.
    pub node_bin: String,
    /// The directory holding the interpreter, prepended to `PATH`.
    pub node_bin_dir: String,
    pub npm_bin: String,
    pub pnpm_bin: Option<String>,
    pub yarn_bin: Option<String>,
}

/// The assembled invocation. Ephemeral: never persisted.
pub struct CommandSpec {
    pub bin: String,
    pub args: Vec<String>,
    pub env: StringMap<String>,
    pub cwd: String,
    /// Whether a non-zero exit is fatal on its own. The cache gate inspects
    /// exit codes itself, so it assembles commands with this off.
    pub bail_on_nonzero: bool,
}

/// The interpreter flags injected into direct runtime and resolved-binary
/// invocations: preserve symlinks, title the process with the target id, and
/// throw on unhandled rejections.
pub open spec fn node_options(target: Seq<char>) -> Seq<Seq<char>> {
    seq!["--preserve-symlinks"@, "--title"@, target, "--unhandled-rejections"@, "throw"@]
}

/// A script-like argument: one ending in `.cmd`, `.bat` or `.ps1`, which a
/// command shell only accepts by absolute path.
pub open spec fn is_script_arg(a: Seq<char>) -> bool {
    a.len() >= 4 && a[a.len() - 4] == '.' && ((a[a.len() - 3] == 'c' && a[a.len() - 2] == 'm'
        && a[a.len() - 1] == 'd') || (a[a.len() - 3] == 'b' && a[a.len() - 2] == 'a' && a[a.len()
        - 1] == 't') || (a[a.len() - 3] == 'p' && a[a.len() - 2] == 's' && a[a.len() - 1] == '1'))
}

/// A path under a shell-wrapper host's working directory.
pub open spec fn shell_joined_path(cwd: Seq<char>, rel: Seq<char>) -> Seq<char> {
    cwd + seq!['\\'] + rel
}

/// A script-like argument made absolute; any other argument unchanged.
pub open spec fn rewritten_arg(a: Seq<char>, cwd: Seq<char>) -> Seq<char> {
    if is_script_arg(a) {
        shell_joined_path(cwd, a)
    } else {
        a
    }
}

/// Every argument rewritten for the shell.
pub open spec fn rewritten_args(args: Seq<Seq<char>>, cwd: Seq<char>) -> Seq<Seq<char>> {
    Seq::new(args.len(), |i: int| rewritten_arg(args[i], cwd))
}

/// The flags joined for the `NODE_OPTIONS` environment variable.
pub open spec fn joined_spaced(parts: Seq<Seq<char>>) -> Seq<char>
    decreases parts.len(),
{
    if parts.len() == 0 {
        Seq::empty()
    } else if parts.len() == 1 {
        parts[0]
    } else {
        joined_spaced(parts.drop_last()) + seq![' '] + parts.last()
    }
}

/// The platform's `PATH` separator.
pub open spec fn path_separator(platform: HostPlatform) -> char {
    match platform {
        HostPlatform::Posix => ':',
        HostPlatform::Windows => ';',
    }
}

/// The `PATH` value with the interpreter's directory prepended.
pub open spec fn path_env(platform: HostPlatform, bin_dir: Seq<char>, inherited: Seq<char>) -> Seq<
    char,
> {
    bin_dir + seq![path_separator(platform)] + inherited
}

/// Where an installed package's binary lives under the project.
pub open spec fn package_bin_path(project_root: Seq<char>, bin: Seq<char>) -> Seq<char> {
    project_root + "/node_modules/.bin/"@ + bin
}

/// Whether `arg` is script-like.
pub fn is_windows_script(arg: &String) -> (r: bool)
    ensures
        r == is_script_arg(arg@),
{
    let n = arg.as_str().unicode_len();
    if n < 4 {
        return false;
    }
    let c0 = arg.as_str().get_char(n - 4);
    let c1 = arg.as_str().get_char(n - 3);
    let c2 = arg.as_str().get_char(n - 2);
    let c3 = arg.as_str().get_char(n - 1);
    c0 == '.' && ((c1 == 'c' && c2 == 'm' && c3 == 'd') || (c1 == 'b' && c2 == 'a' && c3 == 't')
        || (c1 == 'p' && c2 == 's' && c3 == '1'))
}

/// Make a script-like path absolute under the working directory.
fn absolute_script_path(cwd: &String, arg: &String) -> (r: String)
    ensures
        r@ == shell_joined_path(cwd@, arg@),
{
    proof {
        reveal_strlit("\\");
    }
    let r = cwd.clone().concat("\\");
    let r = r.concat(arg.as_str());
    proof {
        assert("\\"@ =~= seq!['\\']);
        assert(r@ =~= shell_joined_path(cwd@, arg@));
    }
    r
}

/// Rewrite each script-like argument to an absolute path for the shell.
fn rewrite_args_for_shell(args: &Vec<String>, cwd: &String) -> (r: Vec<String>)
    ensures
        r.deep_view() == rewritten_args(args.deep_view(), cwd@),
{
    let n = args.len();
    let mut r: Vec<String> = Vec::new();
    let mut i: usize = 0;
    while i < n
        invariant
            0 <= i <= n,
            n == args@.len(),
            r@.len() == i,
            forall|j: int| 0 <= j < i ==> r@[j]@ == rewritten_arg(args@[j]@, cwd@),
        decreases n - i,
    {
        if is_windows_script(&args[i]) {
            r.push(absolute_script_path(cwd, &args[i]));
        } else {
            r.push(args[i].clone());
        }
        i += 1;
    }
    proof {
        assert forall|j: int| 0 <= j < n implies r.deep_view()[j] == rewritten_arg(
            args.deep_view()[j],
            cwd@,
        ) by {
            assert(r.deep_view()[j] == r@[j]@);
            assert(args.deep_view()[j] == args@[j]@);
        }
        assert(r.deep_view() =~= rewritten_args(args.deep_view(), cwd@));
    }
    r
}

/// Copy an argument vector.
fn clone_strings(v: &Vec<String>) -> (r: Vec<String>)
    ensures
        r.deep_view() == v.deep_view(),
        r@.len() == v@.len(),
{
    let n = v.len();
    let mut r: Vec<String> = Vec::new();
    let mut i: usize = 0;
    while i < n
        invariant
            0 <= i <= n,
            n == v@.len(),
            r@.len() == i,
            forall|j: int| 0 <= j < i ==> r@[j]@ == v@[j]@,
        decreases n - i,
    {
        r.push(v[i].clone());
        i += 1;
    }
    proof {
        assert forall|j: int| 0 <= j < n implies r.deep_view()[j] == v.deep_view()[j] by {
            assert(r.deep_view()[j] == r@[j]@);
            assert(v.deep_view()[j] == v@[j]@);
        }
        assert(r.deep_view() =~= v.deep_view());
    }
    r
}

/// Join strings with single spaces.
fn join_with_space(parts: &Vec<String>) -> (r: String)
    ensures
        r@ == joined_spaced(parts.deep_view()),
{
    proof {
        reveal_strlit(" ");
    }
    let n = parts.len();
    let mut r = String::new();
    let mut i: usize = 0;
    while i < n
        invariant
            0 <= i <= n,
            n == parts@.len(),
            r@ == joined_spaced(parts.deep_view().take(i as int)),
        decreases n - i,
    {
        if i > 0 {
            r.append(" ");
        }
        r.append(parts[i].as_str());
        proof {
            reveal_strlit(" ");
            assert(" "@ =~= seq![' ']);
            let dv = parts.deep_view();
            assert(dv.take(i as int + 1).drop_last() =~= dv.take(i as int));
            assert(dv.take(i as int + 1).last() == dv[i as int]);
            if i == 0 {
                assert(r@ =~= joined_spaced(dv.take(i as int + 1)));
            } else {
                assert(r@ =~= joined_spaced(dv.take(i as int + 1)));
            }
        }
        i += 1;
    }
    proof {
        assert(parts.deep_view().take(n as int) =~= parts.deep_view());
    }
    r
}

/// The `PATH` value with the interpreter's directory in front, so nested tool
/// invocations resolve the same binaries.
fn path_env_value(platform: HostPlatform, bin_dir: &String, inherited: &String) -> (r: String)
    ensures
        r@ == path_env(platform, bin_dir@, inherited@),
{
    proof {
        reveal_strlit(":");
        reveal_strlit(";");
    }
    let r = match platform {
        HostPlatform::Posix => bin_dir.clone().concat(":"),
        HostPlatform::Windows => bin_dir.clone().concat(";"),
    };
    let r = r.concat(inherited.as_str());
    proof {
        assert(":"@ =~= seq![':']);
        assert(";"@ =~= seq![';']);
        assert(r@ =~= path_env(platform, bin_dir@, inherited@));
    }
    r
}

/// The path of a package's installed binary under the project root.
fn find_package_bin(project_root: &String, bin: &String) -> (r: String)
    ensures
        r@ == package_bin_path(project_root@, bin@),
{
    let r = project_root.clone().concat("/node_modules/.bin/");
    let r = r.concat(bin.as_str());
    proof {
        assert(r@ =~= package_bin_path(project_root@, bin@));
    }
    r
}

/// The interpreter flags as an argument vector.
pub fn create_node_options(task: &Task) -> (r: Vec<String>)
    ensures
        r.deep_view() == node_options(task.target@),
{
    let mut r: Vec<String> = Vec::new();
    r.push(String::from_str("--preserve-symlinks"));
    r.push(String::from_str("--title"));
    r.push(task.target.clone());
    r.push(String::from_str("--unhandled-rejections"));
    r.push(String::from_str("throw"));
    proof {
        assert(r.deep_view() =~= node_options(task.target@));
    }
    r
}

} // verus!

verus! {

/// The views of a sequence of strings.
pub open spec fn deep_of(s: Seq<String>) -> Seq<Seq<char>> {
    Seq::new(s.len(), |i: int| s[i]@)
}

/// A string vector's deep view is the views of its elements.
proof fn lemma_vec_deep(v: &Vec<String>)
    ensures
        v.deep_view() == deep_of(v@),
{
    assert(v.deep_view() =~= deep_of(v@));
}

/// The views of a concatenation are the concatenated views.
proof fn lemma_deep_concat(c: Seq<String>, a: Seq<String>, b: Seq<String>)
    requires
        c == a + b,
    ensures
        deep_of(c) == deep_of(a) + deep_of(b),
{
    assert(deep_of(c) =~= deep_of(a) + deep_of(b));
}

/// The environment injected into every executed task command: the cache
/// directory, the project's identity and paths, the target being run, the
/// toolchain and workspace paths, the working directory, and the runfile
/// snapshot written before execution.
pub open spec fn with_moon_env(
    base: Map<Seq<char>, Seq<char>>,
    workspace: WorkspaceInfo,
    project: Project,
    target: Seq<char>,
    runfile_path: Seq<char>,
) -> Map<Seq<char>, Seq<char>> {
    base.insert("MOON_CACHE_DIR"@, workspace.cache_dir@).insert("MOON_PROJECT_ID"@, project.id@)
        .insert("MOON_PROJECT_ROOT"@, project.root@)
        .insert("MOON_PROJECT_SOURCE"@, project.source@)
        .insert("MOON_RUN_TARGET"@, target)
        .insert("MOON_TOOLCHAIN_DIR"@, workspace.toolchain_dir@)
        .insert("MOON_WORKSPACE_ROOT"@, workspace.root@)
        .insert("MOON_WORKING_DIR"@, workspace.working_dir@)
        .insert("MOON_PROJECT_RUNFILE"@, runfile_path)
}

/// Add the injected variables to an environment.
fn insert_moon_env(
    env: &mut StringMap<String>,
    workspace: &WorkspaceInfo,
    project: &Project,
    task: &Task,
    runfile_path: &String,
)
    ensures
        final(env)@ == with_moon_env(
            old(env)@,
            *workspace,
            *project,
            task.target@,
            runfile_path@,
        ),
{
    env.insert(String::from_str("MOON_CACHE_DIR"), workspace.cache_dir.clone());
    env.insert(String::from_str("MOON_PROJECT_ID"), project.id.clone());
    env.insert(String::from_str("MOON_PROJECT_ROOT"), project.root.clone());
    env.insert(String::from_str("MOON_PROJECT_SOURCE"), project.source.clone());
    env.insert(String::from_str("MOON_RUN_TARGET"), task.target.clone());
    env.insert(String::from_str("MOON_TOOLCHAIN_DIR"), workspace.toolchain_dir.clone());
    env.insert(String::from_str("MOON_WORKSPACE_ROOT"), workspace.root.clone());
    env.insert(String::from_str("MOON_WORKING_DIR"), workspace.working_dir.clone());
    env.insert(String::from_str("MOON_PROJECT_RUNFILE"), runfile_path.clone());
}

/// The injected variables on their own, for a shell that stores the runfile
/// snapshot and merges environments itself.
pub fn create_env_vars(
    workspace: &WorkspaceInfo,
    project: &Project,
    task: &Task,
    runfile_path: &String,
) -> (r: StringMap<String>)
    ensures
        r@ == with_moon_env(
            Map::<Seq<char>, Seq<char>>::empty(),
            *workspace,
            *project,
            task.target@,
            runfile_path@,
        ),
{
    let mut r: StringMap<String> = StringMap::new();
    insert_moon_env(&mut r, workspace, project, task, runfile_path);
    r
}

/// The binary a node-ecosystem task resolves to: the interpreter itself, a
/// package manager's binary, or — for any other command name — the package's
/// installed binary, run through the interpreter on a posix host and through
/// its shell wrapper on a shell-wrapper host.
pub open spec fn node_command_bin(
    platform: HostPlatform,
    toolchain: ToolchainPaths,
    project: Project,
    task: Task,
) -> Seq<char> {
    if task.command@ == "node"@ {
        toolchain.node_bin@
    } else if task.command@ == "npm"@ {
        toolchain.npm_bin@
    } else if task.command@ == "pnpm"@ {
        match toolchain.pnpm_bin {
            Some(p) => p@,
            None => Seq::empty(),
        }
    } else if task.command@ == "yarn"@ {
        match toolchain.yarn_bin {
            Some(y) => y@,
            None => Seq::empty(),
        }
    } else if platform is Posix {
        toolchain.node_bin@
    } else {
        package_bin_path(project.root@, task.command@)
    }
}

/// The arguments a posix host puts before the task's own: interpreter flags
/// for a direct runtime call, nothing for a package manager, and flags plus
/// the resolved binary's path for any other command.
pub open spec fn node_leading_args(project: Project, task: Task) -> Seq<Seq<char>> {
    if task.command@ == "node"@ {
        node_options(task.target@)
    } else if task.command@ == "npm"@ || task.command@ == "pnpm"@ || task.command@ == "yarn"@ {
        Seq::empty()
    } else {
        node_options(task.target@).push(package_bin_path(project.root@, task.command@))
    }
}

/// A node-ecosystem task's argument vector.
pub open spec fn node_command_args(
    platform: HostPlatform,
    project: Project,
    task: Task,
    cwd: Seq<char>,
) -> Seq<Seq<char>> {
    match platform {
        HostPlatform::Posix => node_leading_args(project, task) + task.args.deep_view(),
        HostPlatform::Windows => rewritten_args(task.args.deep_view(), cwd),
    }
}

/// A node-ecosystem task's environment: the task's own variables with the
/// interpreter's directory prepended to `PATH`, and — on a shell-wrapper host,
/// where flags cannot ride in argv — the interpreter flags in `NODE_OPTIONS`.
pub open spec fn node_command_env(
    platform: HostPlatform,
    toolchain: ToolchainPaths,
    task: Task,
    inherited_path: Seq<char>,
) -> Map<Seq<char>, Seq<char>> {
    let base = task.env@.insert(
        "PATH"@,
        path_env(platform, toolchain.node_bin_dir@, inherited_path),
    );
    match platform {
        HostPlatform::Posix => base,
        HostPlatform::Windows => base.insert(
            "NODE_OPTIONS"@,
            joined_spaced(node_options(task.target@)),
        ),
    }
}

/// Assemble a node-ecosystem task's invocation.
pub fn create_node_target_command(
    platform: HostPlatform,
    toolchain: &ToolchainPaths,
    project: &Project,
    task: &Task,
    cwd: &String,
    inherited_path: &String,
) -> (r: CommandSpec)
    requires
        task.command@ == "pnpm"@ ==> toolchain.pnpm_bin is Some,
        task.command@ == "yarn"@ ==> toolchain.yarn_bin is Some,
    ensures
        r.bin@ == node_command_bin(platform, *toolchain, *project, *task),
        r.args.deep_view() == node_command_args(platform, *project, *task, cwd@),
        r.env@ == node_command_env(platform, *toolchain, *task, inherited_path@),
        r.cwd@ == cwd@,
        r.bail_on_nonzero == false,
{
    let node_lit = String::from_str("node");
    let npm_lit = String::from_str("npm");
    let pnpm_lit = String::from_str("pnpm");
    let yarn_lit = String::from_str("yarn");

    let bin: String = if task.command == node_lit {
        toolchain.node_bin.clone()
    } else if task.command == npm_lit {
        toolchain.npm_bin.clone()
    } else if task.command == pnpm_lit {
        match &toolchain.pnpm_bin {
            Some(p) => p.clone(),
            None => {
                proof {
                    assert(false);
                }
                String::new()
            },
        }
    } else if task.command == yarn_lit {
        match &toolchain.yarn_bin {
            Some(y) => y.clone(),
            None => {
                proof {
                    assert(false);
                }
                String::new()
            },
        }
    } else {
        match platform {
            HostPlatform::Posix => toolchain.node_bin.clone(),
            HostPlatform::Windows => find_package_bin(&project.root, &task.command),
        }
    };

    let args: Vec<String> = match platform {
        HostPlatform::Posix => {
            let mut lead: Vec<String> = if task.command == node_lit {
                create_node_options(task)
            } else if task.command == npm_lit || task.command == pnpm_lit || task.command
                == yarn_lit {
                Vec::new()
            } else {
                let mut l = create_node_options(task);
                l.push(find_package_bin(&project.root, &task.command));
                proof {
                    assert(l.deep_view() =~= node_leading_args(*project, *task)) by {
                        lemma_vec_deep(&l);
                    }
                }
                l
            };
            proof {
                assert(lead.deep_view() == node_leading_args(*project, *task));
            }
            let ghost lead0 = lead@;
            let mut rest = clone_strings(&task.args);
            let ghost rest0 = rest@;
            lead.append(&mut rest);
            proof {
                lemma_deep_concat(lead@, lead0, rest0);
                lemma_vec_deep(&lead);
                lemma_vec_deep(&task.args);
                assert(deep_of(rest0) =~= task.args.deep_view());
                assert(deep_of(lead0) =~= node_leading_args(*project, *task));
                assert(lead.deep_view() == node_command_args(platform, *project, *task, cwd@));
            }
            lead
        },
        HostPlatform::Windows => rewrite_args_for_shell(&task.args, cwd),
    };

    let mut env = task.env.duplicate();
    env.insert(
        String::from_str("PATH"),
        path_env_value(platform, &toolchain.node_bin_dir, inherited_path),
    );
    if let HostPlatform::Windows = platform {
        let options = create_node_options(task);
        env.insert(String::from_str("NODE_OPTIONS"), join_with_space(&options));
    }

    CommandSpec { bin, args, env, cwd: cwd.clone(), bail_on_nonzero: false }
}

/// A generic system command's argument vector: the task's own arguments,
/// script-like paths made absolute on a shell-wrapper host.
pub open spec fn system_command_args(platform: HostPlatform, task: Task, cwd: Seq<char>) -> Seq<
    Seq<char>,
> {
    match platform {
        HostPlatform::Posix => task.args.deep_view(),
        HostPlatform::Windows => rewritten_args(task.args.deep_view(), cwd),
    }
}

/// Assemble a generic system command's invocation: the command and arguments
/// pass through unmodified, except for the shell's script-path rewriting.
pub fn create_system_target_command(platform: HostPlatform, task: &Task, cwd: &String) -> (r:
    CommandSpec)
    ensures
        r.bin@ == task.command@,
        r.args.deep_view() == system_command_args(platform, *task, cwd@),
        r.env@ == task.env@,
        r.cwd@ == cwd@,
        r.bail_on_nonzero == false,
{
    let args = match platform {
        HostPlatform::Posix => clone_strings(&task.args),
        HostPlatform::Windows => rewrite_args_for_shell(&task.args, cwd),
    };
    CommandSpec {
        bin: task.command.clone(),
        args,
        env: task.env.duplicate(),
        cwd: cwd.clone(),
        bail_on_nonzero: false,
    }
}

/// A task runs from the workspace root when it opted in, else from its
/// project's root.
pub open spec fn working_dir_of(
    workspace: WorkspaceInfo,
    project: Project,
    task: Task,
) -> Seq<char> {
    if task.options.run_from_workspace_root {
        workspace.root@
    } else {
        project.root@
    }
}

/// The binary of a task's invocation.
pub open spec fn target_command_bin(
    platform: HostPlatform,
    toolchain: ToolchainPaths,
    project: Project,
    task: Task,
) -> Seq<char> {
    match task.type_of {
        TaskType::Node => node_command_bin(platform, toolchain, project, task),
        TaskType::System => task.command@,
    }
}

/// The arguments of a task's invocation.
pub open spec fn target_command_args(
    platform: HostPlatform,
    workspace: WorkspaceInfo,
    project: Project,
    task: Task,
) -> Seq<Seq<char>> {
    match task.type_of {
        TaskType::Node => node_command_args(
            platform,
            project,
            task,
            working_dir_of(workspace, project, task),
        ),
        TaskType::System => system_command_args(
            platform,
            task,
            working_dir_of(workspace, project, task),
        ),
    }
}

/// The task-level environment of a task's invocation, before the injected
/// variables.
pub open spec fn target_command_env(
    platform: HostPlatform,
    toolchain: ToolchainPaths,
    task: Task,
    inherited_path: Seq<char>,
) -> Map<Seq<char>, Seq<char>> {
    match task.type_of {
        TaskType::Node => node_command_env(platform, toolchain, task, inherited_path),
        TaskType::System => task.env@,
    }
}

/// Assemble the full invocation for a task: dispatch on its runtime kind, set
/// the working directory, inject the per-run environment, and leave non-zero
/// exits to the cache gate rather than bailing.
pub fn create_target_command(
    platform: HostPlatform,
    workspace: &WorkspaceInfo,
    toolchain: &ToolchainPaths,
    project: &Project,
    task: &Task,
    runfile_path: &String,
    inherited_path: &String,
) -> (r: CommandSpec)
    requires
        task.type_of is Node && task.command@ == "pnpm"@ ==> toolchain.pnpm_bin is Some,
        task.type_of is Node && task.command@ == "yarn"@ ==> toolchain.yarn_bin is Some,
    ensures
        r.cwd@ == working_dir_of(*workspace, *project, *task),
        r.bin@ == target_command_bin(platform, *toolchain, *project, *task),
        r.args.deep_view() == target_command_args(platform, *workspace, *project, *task),
        r.env@ == with_moon_env(
            target_command_env(platform, *toolchain, *task, inherited_path@),
            *workspace,
            *project,
            task.target@,
            runfile_path@,
        ),
        r.bail_on_nonzero == false,
{
    let cwd = if task.options.run_from_workspace_root {
        workspace.root.clone()
    } else {
        project.root.clone()
    };
    let mut cmd = match task.type_of {
        TaskType::Node => create_node_target_command(
            platform,
            toolchain,
            project,
            task,
            &cwd,
            inherited_path,
        ),
        TaskType::System => create_system_target_command(platform, task, &cwd),
    };
    insert_moon_env(&mut cmd.env, workspace, project, task, runfile_path);
    cmd
}

/// For the primary target, the user's passthrough arguments go last; any
/// other target, or an empty list, leaves the invocation untouched.
pub fn append_passthrough(cmd: &mut CommandSpec, is_primary: bool, passthrough: &Vec<String>)
    ensures
        final(cmd).bin == old(cmd).bin,
        final(cmd).env == old(cmd).env,
        final(cmd).cwd == old(cmd).cwd,
        final(cmd).bail_on_nonzero == old(cmd).bail_on_nonzero,
        is_primary && passthrough@.len() > 0 ==> final(cmd).args.deep_view() == old(
            cmd,
        ).args.deep_view() + passthrough.deep_view(),
        !(is_primary && passthrough@.len() > 0) ==> final(cmd).args == old(cmd).args,
{
    if is_primary && !passthrough.is_empty() {
        let ghost args0 = cmd.args@;
        let mut extra = clone_strings(passthrough);
        let ghost extra0 = extra@;
        cmd.args.append(&mut extra);
        proof {
            lemma_deep_concat(cmd.args@, args0, extra0);
            lemma_vec_deep(&cmd.args);
            lemma_vec_deep(passthrough);
            assert(deep_of(extra0) =~= passthrough.deep_view());
            assert(deep_of(args0) =~= old(cmd).args.deep_view());
        }
    }
}

} // verus!
