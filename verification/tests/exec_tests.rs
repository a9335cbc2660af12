use http_ssh_server::envelope::CommandResult;
use http_ssh_server::exec::{
    argument_of, changes_directory, plan, Host, Outcome, Task, CD, COMMAND_TIMEOUT_SECS,
};

fn host() -> Host {
    Host { windows: false, home: "/home/user".to_string(), timeout_secs: 10 }
}

fn resolve(command: &str, target: &str) -> Task {
    Task::Resolve { command: command.to_string(), target: target.to_string() }
}

#[test]
fn cd_form_is_cd_alone_or_cd_and_a_space() {
    assert!(changes_directory("cd /tmp"));
    assert!(changes_directory("cd "));
    assert!(changes_directory("cd   .."));
    assert!(changes_directory("cd"));
    assert!(!changes_directory("cdx"));
    assert!(!changes_directory("c"));
    assert!(!changes_directory(""));
    assert!(!changes_directory("cd\t/tmp"));
    assert!(!changes_directory("CD"));
    assert!(!changes_directory(" cd /tmp"));
    assert!(!changes_directory("echo cd "));
}

#[test]
fn cd_argument_is_trimmed() {
    assert_eq!(argument_of("cd /tmp"), "/tmp");
    assert_eq!(argument_of("cd   a b  "), "a b");
    assert_eq!(argument_of("cd "), "");
    assert_eq!(argument_of("cd"), "");
}

#[test]
fn plan_of_cd_commands() {
    let h = host();
    assert_eq!(plan("/srv/app", "cd", &h), resolve("cd", "/home/user"));
    assert_eq!(plan("/srv/app", "cd ", &h), resolve("cd ", "/home/user"));
    assert_eq!(plan("/srv/app", "cd    ", &h), resolve("cd    ", "/home/user"));
    assert_eq!(plan("/srv/app", "cd .", &h), resolve("cd .", "/srv/app"));
    assert_eq!(plan("/srv/app", "cd ..", &h), resolve("cd ..", "/srv"));
    assert_eq!(plan("/", "cd ..", &h), resolve("cd ..", "/"));
    assert_eq!(plan("/srv/app", "cd /tmp", &h), resolve("cd /tmp", "/tmp"));
    assert_eq!(plan("/srv/app", "cd logs", &h), resolve("cd logs", "/srv/app/logs"));
    assert_eq!(plan("/srv/app", "cd ../x", &h), resolve("cd ../x", "/srv/app/../x"));
}

#[test]
fn plan_of_cd_on_the_alternate_platform() {
    let h = Host { windows: true, home: "C:\\Users\\me".to_string(), timeout_secs: 15 };
    assert_eq!(plan("C:\\srv", "cd D:\\data", &h), resolve("cd D:\\data", "D:\\data"));
    assert_eq!(plan("C:\\srv", "cd logs", &h), resolve("cd logs", "C:\\srv\\logs"));
    assert_eq!(plan("C:\\srv", "cd ", &h), resolve("cd ", "C:\\Users\\me"));
    assert_eq!(plan("C:\\srv", "cd ..", &h), resolve("cd ..", "C:\\"));
}

#[test]
fn plan_of_other_commands_is_a_shell() {
    assert_eq!(
        plan("/srv/app", "echo hi", &host()),
        Task::Run {
            program: "bash".to_string(),
            flag: "-c".to_string(),
            command: "echo hi".to_string(),
            directory: "/srv/app".to_string(),
            timeout_secs: 10,
        }
    );
    let h = Host { windows: true, home: "C:\\".to_string(), timeout_secs: 15 };
    assert_eq!(
        plan("C:\\srv", "dir", &h),
        Task::Run {
            program: "cmd".to_string(),
            flag: "/C".to_string(),
            command: "dir".to_string(),
            directory: "C:\\srv".to_string(),
            timeout_secs: 15,
        }
    );
    assert_eq!(
        plan("/srv", "cdx", &host()),
        Task::Run {
            program: "bash".to_string(),
            flag: "-c".to_string(),
            command: "cdx".to_string(),
            directory: "/srv".to_string(),
            timeout_secs: 10,
        }
    );
}

#[test]
fn resolved_cd_moves_the_session() {
    let mut cd = CD::new("/srv".to_string());
    let r = cd.resolved("cd /tmp", Ok("/tmp".to_string()));
    assert_eq!(
        r,
        CommandResult {
            command: "cd /tmp".to_string(),
            stdout: String::new(),
            stderr: String::new(),
            exit_code: 0,
            current_directory: "/tmp".to_string(),
        }
    );
    assert_eq!(cd.curr_dir, "/tmp");
}

#[test]
fn failed_cd_leaves_the_session_where_it_was() {
    let mut cd = CD::new("/srv".to_string());
    let r = cd.resolved("cd  nowhere ", Err("No such file or directory (os error 2)".to_string()));
    assert_eq!(
        r,
        CommandResult {
            command: "cd  nowhere ".to_string(),
            stdout: String::new(),
            stderr: "cd: \"nowhere\": No such file or directory (os error 2)".to_string(),
            exit_code: 1,
            current_directory: "/srv".to_string(),
        }
    );
    assert_eq!(cd.curr_dir, "/srv");
}

#[test]
fn cd_dot_leaves_the_directory_unchanged() {
    let mut cd = CD::new("/srv/app".to_string());
    let task = cd.cd("cd .", &host());
    assert_eq!(task, resolve("cd .", "/srv/app"));
    let r = cd.resolved("cd .", Ok("/srv/app".to_string()));
    assert_eq!(r.exit_code, 0);
    assert_eq!(r.current_directory, "/srv/app");
    assert_eq!(cd.curr_dir, "/srv/app");
}

#[test]
fn cd_up_goes_to_the_parent_and_stays_at_the_root() {
    let mut cd = CD::new("/srv/app".to_string());
    assert_eq!(cd.cd("cd ..", &host()), resolve("cd ..", "/srv"));
    let r = cd.resolved("cd ..", Ok("/srv".to_string()));
    assert_eq!(r.current_directory, "/srv");
    assert_eq!(cd.cd("cd ..", &host()), resolve("cd ..", "/"));
    cd.resolved("cd ..", Ok("/".to_string()));
    assert_eq!(cd.curr_dir, "/");
    assert_eq!(cd.cd("cd ..", &host()), resolve("cd ..", "/"));
    let r = cd.resolved("cd ..", Ok("/".to_string()));
    assert_eq!(r.current_directory, "/");
    assert_eq!(cd.curr_dir, "/");
}

#[test]
fn finished_process_gives_its_code_and_trimmed_output() {
    let cd = CD::new("/tmp".to_string());
    let r = cd.finished(
        "echo hi",
        Outcome::Exited { code: Some(0), stdout: "hi\n".to_string(), stderr: String::new() },
        &host(),
    );
    assert_eq!(
        r,
        CommandResult {
            command: "echo hi".to_string(),
            stdout: "hi".to_string(),
            stderr: String::new(),
            exit_code: 0,
            current_directory: "/tmp".to_string(),
        }
    );
    let r = cd.finished(
        "ls nowhere",
        Outcome::Exited {
            code: Some(2),
            stdout: String::new(),
            stderr: "  ls: cannot access 'nowhere'\n".to_string(),
        },
        &host(),
    );
    assert_eq!(r.exit_code, 2);
    assert_eq!(r.stdout, "");
    assert_eq!(r.stderr, "ls: cannot access 'nowhere'");
}

#[test]
fn process_without_an_exit_code_gives_minus_one() {
    let r = CommandResult::of_outcome(
        "kill -9 $$",
        "/",
        Outcome::Exited { code: None, stdout: String::new(), stderr: String::new() },
        10,
    );
    assert_eq!(r.exit_code, -1);
    assert_eq!(r.stderr, "");
}

#[test]
fn timed_out_command_gives_minus_one_and_says_so() {
    let cd = CD::new("/tmp".to_string());
    let r = cd.finished("sleep 30", Outcome::TimedOut, &host());
    assert_eq!(
        r,
        CommandResult {
            command: "sleep 30".to_string(),
            stdout: String::new(),
            stderr: "Command timed out after 10 seconds".to_string(),
            exit_code: -1,
            current_directory: "/tmp".to_string(),
        }
    );
    let r = CommandResult::of_outcome("sleep 30", "/", Outcome::TimedOut, 15);
    assert_eq!(r.stderr, "Command timed out after 15 seconds");
}

#[test]
fn failures_to_run_give_minus_one_and_the_reason() {
    let r = CommandResult::of_outcome("x", "/d", Outcome::SpawnFailed("not found".to_string()), 10);
    assert_eq!(r.exit_code, -1);
    assert_eq!(r.stdout, "");
    assert_eq!(r.stderr, "Failed to execute command: not found");
    assert_eq!(r.current_directory, "/d");
    let r = CommandResult::of_outcome("x", "/d", Outcome::WaitFailed("interrupted".to_string()), 10);
    assert_eq!(r.exit_code, -1);
    assert_eq!(r.stderr, "Process wait error: interrupted");
    let r = CommandResult::of_outcome("x", "/d", Outcome::OutputLost("broken pipe".to_string()), 10);
    assert_eq!(r.exit_code, -1);
    assert_eq!(r.stderr, "Failed to read command output: broken pipe");
}

#[test]
fn default_host_is_the_plain_platform() {
    let h = Host::default();
    assert!(!h.windows);
    assert_eq!(h.home, "/");
    assert_eq!(h.timeout_secs, 15);
    assert_eq!(COMMAND_TIMEOUT_SECS, 15);
}

#[test]
fn cd_alone_goes_home() {
    let mut cd = CD::new("/srv/app".to_string());
    assert_eq!(cd.cd("cd", &host()), resolve("cd", "/home/user"));
    let r = cd.resolved("cd", Ok("/home/user".to_string()));
    assert_eq!(
        r,
        CommandResult {
            command: "cd".to_string(),
            stdout: String::new(),
            stderr: String::new(),
            exit_code: 0,
            current_directory: "/home/user".to_string(),
        }
    );
    assert_eq!(cd.curr_dir, "/home/user");
    let r = cd.resolved("cd", Err("gone".to_string()));
    assert_eq!(r.exit_code, 1);
    assert_eq!(r.stderr, "cd: \"\": gone");
    assert_eq!(cd.curr_dir, "/home/user");
}
