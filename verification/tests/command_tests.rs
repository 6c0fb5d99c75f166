use moon_core::command::{
    append_passthrough, create_env_vars, create_node_options, create_node_target_command,
    create_system_target_command, create_target_command, HostPlatform, Project, Task, TaskOptions,
    TaskType, ToolchainPaths, WorkspaceInfo,
};
use moon_core::strmap::StringMap;

fn make_task(command: &str, args: &[&str], type_of: TaskType) -> Task {
    Task {
        target: "app:build".to_string(),
        command: command.to_string(),
        args: args.iter().map(|a| a.to_string()).collect(),
        env: StringMap::new(),
        type_of,
        output_paths: vec![],
        options: TaskOptions { retry_count: 0, run_from_workspace_root: false },
    }
}

fn make_project() -> Project {
    Project {
        id: "app".to_string(),
        root: "/ws/apps/app".to_string(),
        source: "apps/app".to_string(),
    }
}

fn make_workspace() -> WorkspaceInfo {
    WorkspaceInfo {
        root: "/ws".to_string(),
        cache_dir: "/ws/.moon/cache".to_string(),
        working_dir: "/ws".to_string(),
        toolchain_dir: "/home/u/.moon".to_string(),
    }
}

fn make_toolchain() -> ToolchainPaths {
    ToolchainPaths {
        node_bin: "/tools/node/bin/node".to_string(),
        node_bin_dir: "/tools/node/bin".to_string(),
        npm_bin: "/tools/npm/bin/npm".to_string(),
        pnpm_bin: Some("/tools/pnpm/bin/pnpm".to_string()),
        yarn_bin: Some("/tools/yarn/bin/yarn".to_string()),
    }
}

fn args_of(v: &[String]) -> Vec<&str> {
    v.iter().map(|s| s.as_str()).collect()
}

#[test]
fn node_options_inject_fixed_interpreter_flags() {
    let task = make_task("node", &[], TaskType::Node);
    let opts = create_node_options(&task);
    assert_eq!(
        args_of(&opts),
        vec!["--preserve-symlinks", "--title", "app:build", "--unhandled-rejections", "throw"],
    );
}

#[test]
fn posix_direct_runtime_invocation() {
    let task = make_task("node", &["script.js"], TaskType::Node);
    let cwd = "/ws/apps/app".to_string();
    let path = "/usr/bin".to_string();
    let cmd = create_node_target_command(
        HostPlatform::Posix,
        &make_toolchain(),
        &make_project(),
        &task,
        &cwd,
        &path,
    );
    assert_eq!(cmd.bin, "/tools/node/bin/node");
    assert_eq!(
        args_of(&cmd.args),
        vec![
            "--preserve-symlinks",
            "--title",
            "app:build",
            "--unhandled-rejections",
            "throw",
            "script.js",
        ],
    );
    assert_eq!(
        cmd.env.get(&"PATH".to_string()),
        Some(&"/tools/node/bin:/usr/bin".to_string()),
    );
    assert!(!cmd.bail_on_nonzero);
}

#[test]
fn posix_package_managers_use_their_own_binaries() {
    let cwd = "/ws/apps/app".to_string();
    let path = "/usr/bin".to_string();
    for (command, bin) in [
        ("npm", "/tools/npm/bin/npm"),
        ("pnpm", "/tools/pnpm/bin/pnpm"),
        ("yarn", "/tools/yarn/bin/yarn"),
    ] {
        let task = make_task(command, &["install"], TaskType::Node);
        let cmd = create_node_target_command(
            HostPlatform::Posix,
            &make_toolchain(),
            &make_project(),
            &task,
            &cwd,
            &path,
        );
        assert_eq!(cmd.bin, bin);
        assert_eq!(args_of(&cmd.args), vec!["install"]);
    }
}

#[test]
fn posix_fallback_resolves_package_bin_through_interpreter() {
    let task = make_task("eslint", &["--fix"], TaskType::Node);
    let cwd = "/ws/apps/app".to_string();
    let path = "/usr/bin".to_string();
    let cmd = create_node_target_command(
        HostPlatform::Posix,
        &make_toolchain(),
        &make_project(),
        &task,
        &cwd,
        &path,
    );
    assert_eq!(cmd.bin, "/tools/node/bin/node");
    assert_eq!(
        args_of(&cmd.args),
        vec![
            "--preserve-symlinks",
            "--title",
            "app:build",
            "--unhandled-rejections",
            "throw",
            "/ws/apps/app/node_modules/.bin/eslint",
            "--fix",
        ],
    );
}

#[test]
fn windows_passes_flags_through_environment_and_rewrites_scripts() {
    let task = make_task("eslint", &["run.cmd", "--fix"], TaskType::Node);
    let cwd = "C:\\ws\\apps\\app".to_string();
    let path = "C:\\bin".to_string();
    let cmd = create_node_target_command(
        HostPlatform::Windows,
        &make_toolchain(),
        &make_project(),
        &task,
        &cwd,
        &path,
    );
    // the wrapper itself is invoked; flags ride in the environment
    assert_eq!(cmd.bin, "/ws/apps/app/node_modules/.bin/eslint");
    assert_eq!(args_of(&cmd.args), vec!["C:\\ws\\apps\\app\\run.cmd", "--fix"]);
    assert_eq!(
        cmd.env.get(&"NODE_OPTIONS".to_string()),
        Some(
            &"--preserve-symlinks --title app:build --unhandled-rejections throw".to_string(),
        ),
    );
    assert_eq!(
        cmd.env.get(&"PATH".to_string()),
        Some(&"/tools/node/bin;C:\\bin".to_string()),
    );
}

#[test]
fn system_command_passes_arguments_through() {
    let task = make_task("ls", &["-la", "dir"], TaskType::System);
    let cwd = "/ws".to_string();
    let cmd = create_system_target_command(HostPlatform::Posix, &task, &cwd);
    assert_eq!(cmd.bin, "ls");
    assert_eq!(args_of(&cmd.args), vec!["-la", "dir"]);
    assert_eq!(cmd.cwd, "/ws");
}

#[test]
fn system_command_rewrites_scripts_for_the_shell() {
    let task = make_task("cmd", &["setup.bat", "fast"], TaskType::System);
    let cwd = "C:\\ws".to_string();
    let cmd = create_system_target_command(HostPlatform::Windows, &task, &cwd);
    assert_eq!(args_of(&cmd.args), vec!["C:\\ws\\setup.bat", "fast"]);
}

#[test]
fn injected_environment_names_every_path() {
    let task = make_task("node", &[], TaskType::Node);
    let runfile = "/ws/.moon/cache/runs/app/snapshot.json".to_string();
    let env = create_env_vars(&make_workspace(), &make_project(), &task, &runfile);
    let get = |k: &str| env.get(&k.to_string()).cloned();
    assert_eq!(get("MOON_CACHE_DIR"), Some("/ws/.moon/cache".to_string()));
    assert_eq!(get("MOON_PROJECT_ID"), Some("app".to_string()));
    assert_eq!(get("MOON_PROJECT_ROOT"), Some("/ws/apps/app".to_string()));
    assert_eq!(get("MOON_PROJECT_SOURCE"), Some("apps/app".to_string()));
    assert_eq!(get("MOON_RUN_TARGET"), Some("app:build".to_string()));
    assert_eq!(get("MOON_TOOLCHAIN_DIR"), Some("/home/u/.moon".to_string()));
    assert_eq!(get("MOON_WORKSPACE_ROOT"), Some("/ws".to_string()));
    assert_eq!(get("MOON_WORKING_DIR"), Some("/ws".to_string()));
    assert_eq!(get("MOON_PROJECT_RUNFILE"), Some(runfile));
}

#[test]
fn working_directory_follows_the_task_option() {
    let runfile = "/ws/.moon/runfile".to_string();
    let path = "/usr/bin".to_string();

    let project_task = make_task("ls", &[], TaskType::System);
    let cmd = create_target_command(
        HostPlatform::Posix,
        &make_workspace(),
        &make_toolchain(),
        &make_project(),
        &project_task,
        &runfile,
        &path,
    );
    assert_eq!(cmd.cwd, "/ws/apps/app");
    assert!(!cmd.bail_on_nonzero);
    // the injected variables ride on the assembled command
    assert_eq!(
        cmd.env.get(&"MOON_RUN_TARGET".to_string()),
        Some(&"app:build".to_string()),
    );

    let mut root_task = make_task("ls", &[], TaskType::System);
    root_task.options.run_from_workspace_root = true;
    let cmd = create_target_command(
        HostPlatform::Posix,
        &make_workspace(),
        &make_toolchain(),
        &make_project(),
        &root_task,
        &runfile,
        &path,
    );
    assert_eq!(cmd.cwd, "/ws");
}

#[test]
fn passthrough_args_only_for_primary_target() {
    let task = make_task("ls", &["-l"], TaskType::System);
    let cwd = "/ws".to_string();
    let passthrough = vec!["--color".to_string()];

    let mut cmd = create_system_target_command(HostPlatform::Posix, &task, &cwd);
    append_passthrough(&mut cmd, false, &passthrough);
    assert_eq!(args_of(&cmd.args), vec!["-l"]);

    append_passthrough(&mut cmd, true, &vec![]);
    assert_eq!(args_of(&cmd.args), vec!["-l"]);

    append_passthrough(&mut cmd, true, &passthrough);
    assert_eq!(args_of(&cmd.args), vec!["-l", "--color"]);
}
