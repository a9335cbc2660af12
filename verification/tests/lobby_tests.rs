use http_ssh_server::exec::{Host, Outcome, Task};
use http_ssh_server::ident::id_to_text;
use http_ssh_server::legacy::Plain;
use http_ssh_server::envelope::Envelope;
use http_ssh_server::lobby::{
    farewell, notify, remove_member, welcome, ConnectError, Lobby, Reaction, Request,
};
use http_ssh_server::message::{ClientActorMessage, Connect, Delivery, Disconnect, WsMessage};

const R1: u128 = 0x11111111_1111_4111_8111_111111111111;
const R2: u128 = 0x22222222_2222_4222_8222_222222222222;
const A: u128 = 0xaaaaaaaa_aaaa_4aaa_8aaa_aaaaaaaaaaaa;
const B: u128 = 0xbbbbbbbb_bbbb_4bbb_8bbb_bbbbbbbbbbbb;
const C: u128 = 0xcccccccc_cccc_4ccc_8ccc_cccccccccccc;
const D: u128 = 0xdddddddd_dddd_4ddd_8ddd_dddddddddddd;

fn lobby() -> Lobby {
    Lobby::new(
        "/srv/start".to_string(),
        Host { windows: false, home: "/home/user".to_string(), timeout_secs: 10 },
    )
}

fn join(lobby: &mut Lobby, id: u128, room: u128) -> Delivery {
    lobby.connect(Connect { lobby_id: room, self_id: id }).expect("the session is new")
}

fn say(id: u128, room: u128, text: &str) -> ClientActorMessage {
    ClientActorMessage { id, msg: text.to_string(), room_id: room }
}

fn to(id: u128, text: &str) -> Delivery {
    Delivery { to: id, message: WsMessage { message: text.to_string() } }
}

fn command(text: &str) -> String {
    format!("{{\"type\":\"command\",\"payload\":{{\"command\":\"{}\"}}}}", text)
}

fn output(command: &str, stdout: &str, stderr: &str, code: i32, directory: &str) -> String {
    format!(
        "{{\"type\":\"command_output\",\"payload\":{{\"command\":\"{}\",\"stdout\":\"{}\",\"stderr\":\"{}\",\"exitCode\":{},\"currentDirectory\":\"{}\"}}}}",
        command, stdout, stderr, code, directory
    )
}

fn exited(stdout: &str) -> Outcome {
    Outcome::Exited { code: Some(0), stdout: stdout.to_string(), stderr: String::new() }
}

fn quiet() -> Reaction {
    Reaction { deliveries: vec![], task: None }
}

fn parsed(text: &str) -> serde_json::Value {
    serde_json::from_str(text).expect("the frame is JSON")
}

#[test]
fn connect_greets_with_the_start_directory() {
    let mut l = lobby();
    let d = join(&mut l, A, R1);
    assert_eq!(d.to, A);
    let v = parsed(&d.message.message);
    assert_eq!(v["type"].as_str(), Some("system_message"));
    assert_eq!(
        v["payload"]["message"].as_str(),
        Some("Connected! Your session ID is aaaaaaaa-aaaa-4aaa-8aaa-aaaaaaaaaaaa")
    );
    assert_eq!(v["payload"]["currentDirectory"].as_str(), Some("/srv/start"));
    let stamp = v["payload"]["timestamp"].as_str().expect("a timestamp");
    assert!(chrono::DateTime::parse_from_rfc3339(stamp).is_ok());
    assert!(l.is_live(A));
    assert_eq!(l.room_of(A), Some(R1));
    assert_eq!(l.directory_of(A), Some("/srv/start".to_string()));
    assert_eq!(l.members_of(R1), Some(vec![A]));
}

#[test]
fn welcome_frame_is_exact() {
    assert_eq!(
        welcome(A, "2024-05-06T07:08:09+00:00", "/srv"),
        "{\"type\":\"system_message\",\"payload\":{\"message\":\"Connected! Your session ID is aaaaaaaa-aaaa-4aaa-8aaa-aaaaaaaaaaaa\",\"timestamp\":\"2024-05-06T07:08:09+00:00\",\"currentDirectory\":\"/srv\"}}"
    );
    assert_eq!(farewell(A), "aaaaaaaa-aaaa-4aaa-8aaa-aaaaaaaaaaaa disconnected.");
}

#[test]
fn connect_adds_members_in_order_and_creates_rooms() {
    let mut l = lobby();
    assert_eq!(l.members_of(R1), None);
    join(&mut l, A, R1);
    join(&mut l, B, R1);
    join(&mut l, C, R2);
    assert_eq!(l.members_of(R1), Some(vec![A, B]));
    assert_eq!(l.members_of(R2), Some(vec![C]));
    assert_eq!(l.room_of(B), Some(R1));
    assert_eq!(l.room_of(C), Some(R2));
    assert_eq!(l.room_of(D), None);
    assert!(!l.is_live(D));
    assert_eq!(l.directory_of(D), None);
}

#[test]
fn connect_refuses_a_live_identifier() {
    let mut l = lobby();
    join(&mut l, A, R1);
    assert_eq!(l.connect(Connect { lobby_id: R2, self_id: A }), Err(ConnectError::SessionExists));
    assert_eq!(l.connect(Connect { lobby_id: R1, self_id: A }), Err(ConnectError::SessionExists));
    assert_eq!(l.room_of(A), Some(R1));
    assert_eq!(l.members_of(R1), Some(vec![A]));
    assert_eq!(l.members_of(R2), None);
}

#[test]
fn disconnect_removes_the_session_and_tells_the_room() {
    let mut l = lobby();
    join(&mut l, A, R1);
    join(&mut l, B, R1);
    join(&mut l, C, R1);
    join(&mut l, D, R2);
    let told = l.disconnect(Disconnect { lobby_id: R1, self_id: B });
    let text = "bbbbbbbb-bbbb-4bbb-8bbb-bbbbbbbbbbbb disconnected.";
    assert_eq!(told, vec![to(A, text), to(C, text)]);
    assert!(!l.is_live(B));
    assert_eq!(l.directory_of(B), None);
    assert_eq!(l.members_of(R1), Some(vec![A, C]));
    assert_eq!(l.members_of(R2), Some(vec![D]));
}

#[test]
fn disconnect_of_the_last_member_removes_the_room() {
    let mut l = lobby();
    join(&mut l, A, R1);
    join(&mut l, B, R1);
    l.disconnect(Disconnect { lobby_id: R1, self_id: A });
    assert_eq!(l.members_of(R1), Some(vec![B]));
    let told = l.disconnect(Disconnect { lobby_id: R1, self_id: B });
    assert_eq!(told, vec![]);
    assert_eq!(l.members_of(R1), None);
    assert!(!l.is_live(A));
    assert!(!l.is_live(B));
}

#[test]
fn disconnect_twice_does_nothing_the_second_time() {
    let mut l = lobby();
    join(&mut l, A, R1);
    join(&mut l, B, R1);
    assert_eq!(l.disconnect(Disconnect { lobby_id: R1, self_id: A }).len(), 1);
    assert_eq!(l.disconnect(Disconnect { lobby_id: R1, self_id: A }), vec![]);
    assert_eq!(l.members_of(R1), Some(vec![B]));
}

#[test]
fn disconnect_of_an_unknown_session_does_nothing() {
    let mut l = lobby();
    join(&mut l, A, R1);
    assert_eq!(l.disconnect(Disconnect { lobby_id: R1, self_id: B }), vec![]);
    assert!(l.is_live(A));
    assert_eq!(l.members_of(R1), Some(vec![A]));
}

#[test]
fn disconnect_goes_by_the_session_whatever_room_is_named() {
    let mut l = lobby();
    join(&mut l, A, R1);
    join(&mut l, B, R1);
    join(&mut l, C, R2);
    let told = l.disconnect(Disconnect { lobby_id: R2, self_id: A });
    assert_eq!(told, vec![to(B, "aaaaaaaa-aaaa-4aaa-8aaa-aaaaaaaaaaaa disconnected.")]);
    assert!(!l.is_live(A));
    assert_eq!(l.members_of(R1), Some(vec![B]));
    assert_eq!(l.members_of(R2), Some(vec![C]));
    let told = l.disconnect(Disconnect { lobby_id: R2, self_id: B });
    assert_eq!(told, vec![]);
    assert_eq!(l.members_of(R1), None);
    assert_eq!(l.members_of(R2), Some(vec![C]));
}

#[test]
fn a_session_may_come_back_after_it_left() {
    let mut l = lobby();
    join(&mut l, A, R1);
    l.disconnect(Disconnect { lobby_id: R1, self_id: A });
    join(&mut l, A, R2);
    assert_eq!(l.room_of(A), Some(R2));
    assert_eq!(l.members_of(R1), None);
}

#[test]
fn broadcast_reaches_the_room_and_only_the_room() {
    let mut l = lobby();
    join(&mut l, A, R1);
    join(&mut l, B, R1);
    join(&mut l, C, R2);
    let r = l.client_message(say(A, R1, "hello"));
    assert_eq!(r.task, None);
    assert_eq!(r.deliveries, vec![to(A, "hello"), to(B, "hello")]);
    let r = l.client_message(say(C, R2, "alone"));
    assert_eq!(r.deliveries, vec![to(C, "alone")]);
}

#[test]
fn broadcast_of_json_without_a_type_goes_out_as_it_is() {
    let mut l = lobby();
    join(&mut l, A, R1);
    join(&mut l, B, R1);
    let r = l.client_message(say(B, R1, "{\"note\":\"x\"}"));
    assert_eq!(r.deliveries, vec![to(A, "{\"note\":\"x\"}"), to(B, "{\"note\":\"x\"}")]);
}

#[test]
fn whisper_reaches_only_its_target() {
    let mut l = lobby();
    join(&mut l, A, R1);
    join(&mut l, B, R1);
    join(&mut l, C, R1);
    let r = l.client_message(say(A, R1, &format!("\\w {} secret", id_to_text(B))));
    assert_eq!(r.task, None);
    assert_eq!(r.deliveries, vec![to(B, "secret")]);
}

#[test]
fn whisper_crosses_rooms() {
    let mut l = lobby();
    join(&mut l, A, R1);
    join(&mut l, D, R2);
    let r = l.client_message(say(A, R1, &format!("\\w {} over here", id_to_text(D))));
    assert_eq!(r.deliveries, vec![to(D, "over here")]);
}

#[test]
fn whisper_to_nobody_is_dropped() {
    let mut l = lobby();
    join(&mut l, A, R1);
    join(&mut l, B, R1);
    let r = l.client_message(say(A, R1, &format!("\\w {} secret", id_to_text(D))));
    assert_eq!(r.deliveries, vec![]);
    assert_eq!(r.task, None);
    let r = l.client_message(say(A, R1, "\\w not-an-id secret"));
    assert_eq!(r.deliveries, vec![]);
    let r = l.client_message(say(A, R1, "\\w"));
    assert_eq!(r.deliveries, vec![]);
}

#[test]
fn relay_takes_the_frame_as_it_was_read() {
    let mut l = lobby();
    join(&mut l, A, R1);
    join(&mut l, B, R1);
    let whisper = Plain::Whisper { target: Some(B), text: "psst".to_string() };
    assert_eq!(l.relay(R1, whisper, "ignored"), vec![to(B, "psst")]);
    let lost = Plain::Whisper { target: Some(C), text: "psst".to_string() };
    assert_eq!(l.relay(R1, lost, "ignored"), vec![]);
    assert_eq!(l.relay(R1, Plain::Broadcast, "all"), vec![to(A, "all"), to(B, "all")]);
    assert_eq!(l.relay(R2, Plain::Broadcast, "all"), vec![]);
}

#[test]
fn ping_is_answered_to_the_sender_alone() {
    let mut l = lobby();
    join(&mut l, A, R1);
    join(&mut l, B, R1);
    let r = l.client_message(say(A, R1, "{\"type\":\"ping\",\"payload\":{\"timestamp\":5}}"));
    assert_eq!(r.task, None);
    assert_eq!(r.deliveries.len(), 1);
    assert_eq!(r.deliveries[0].to, A);
    let v = parsed(&r.deliveries[0].message.message);
    assert_eq!(v["type"].as_str(), Some("pong"));
    let stamp = v["payload"]["timestamp"].as_str().expect("a timestamp");
    assert!(chrono::DateTime::parse_from_rfc3339(stamp).is_ok());
}

#[test]
fn unrecognized_frames_call_for_nothing() {
    let mut l = lobby();
    join(&mut l, A, R1);
    join(&mut l, B, R1);
    for text in [
        "{\"type\":\"resize\",\"payload\":{\"cols\":80}}",
        "{\"type\":\"pong\"}",
        "{\"type\":\"command\"}",
        "{\"type\":\"command\",\"payload\":{\"command\":\"\"}}",
    ] {
        let r = l.client_message(say(A, R1, text));
        assert_eq!(r, quiet());
    }
    assert_eq!(l.is_busy(A), Some(false));
    assert_eq!(l.waiting(A), 0);
}

#[test]
fn frames_of_unknown_senders_are_ignored() {
    let mut l = lobby();
    join(&mut l, A, R1);
    join(&mut l, B, R2);
    for text in ["hello", "{\"type\":\"ping\"}", "{\"type\":\"command\",\"payload\":{\"command\":\"ls\"}}"] {
        let r = l.client_message(say(C, R1, text));
        assert_eq!(r.deliveries, vec![]);
        assert_eq!(r.task, None);
    }
    assert!(!l.is_live(C));
}

#[test]
fn frames_go_to_the_room_of_the_sender_whatever_room_is_named() {
    let mut l = lobby();
    join(&mut l, A, R1);
    join(&mut l, B, R1);
    join(&mut l, C, R2);
    let r = l.client_message(say(A, R2, "hello"));
    assert_eq!(r, Reaction { deliveries: vec![to(A, "hello"), to(B, "hello")], task: None });
}

#[test]
fn cd_alone_takes_the_session_home() {
    let mut l = lobby();
    join(&mut l, A, R1);
    let r = l.client_message(say(A, R1, &command("cd")));
    assert_eq!(r.deliveries, vec![]);
    assert_eq!(
        r.task,
        Some(Task::Resolve { command: "cd".to_string(), target: "/home/user".to_string() })
    );
    let r = l.directory_resolved(A, "cd", Ok("/home/user".to_string()));
    assert_eq!(r, Reaction { deliveries: vec![to(A, &output("cd", "", "", 0, "/home/user"))], task: None });
    assert_eq!(l.directory_of(A), Some("/home/user".to_string()));
}

#[test]
fn dispatch_goes_by_the_envelope() {
    let mut l = lobby();
    join(&mut l, A, R1);
    let r = l.dispatch(A, Envelope::Legacy, "raw", "now");
    assert_eq!(r, Reaction { deliveries: vec![to(A, "raw")], task: None });
    let r = l.dispatch(A, Envelope::Unrecognized, "raw", "now");
    assert_eq!(r, quiet());
    let r = l.dispatch(A, Envelope::Pong, "raw", "now");
    assert_eq!(r, quiet());
    let r = l.dispatch(A, Envelope::Ping, "raw", "2024-01-01T00:00:00+00:00");
    assert_eq!(
        r.deliveries,
        vec![to(A, "{\"type\":\"pong\",\"payload\":{\"timestamp\":\"2024-01-01T00:00:00+00:00\"}}")]
    );
    assert_eq!(l.is_busy(A), Some(false));
    let r = l.dispatch(A, Envelope::Command("pwd".to_string()), "raw", "now");
    assert_eq!(r.deliveries, vec![]);
    assert_eq!(
        r.task,
        Some(Task::Run {
            program: "bash".to_string(),
            flag: "-c".to_string(),
            command: "pwd".to_string(),
            directory: "/srv/start".to_string(),
            timeout_secs: 10,
        })
    );
    assert_eq!(l.is_busy(A), Some(true));
    assert_eq!(l.dispatch(B, Envelope::Legacy, "raw", "now"), quiet());
}

#[test]
fn command_gives_a_task_and_its_result_goes_to_the_sender() {
    let mut l = lobby();
    join(&mut l, A, R1);
    join(&mut l, B, R1);
    let r = l.client_message(say(A, R1, &command("echo hi")));
    assert_eq!(r.deliveries, vec![]);
    assert_eq!(
        r.task,
        Some(Task::Run {
            program: "bash".to_string(),
            flag: "-c".to_string(),
            command: "echo hi".to_string(),
            directory: "/srv/start".to_string(),
            timeout_secs: 10,
        })
    );
    assert_eq!(l.is_busy(A), Some(true));
    assert_eq!(l.is_busy(B), Some(false));
    let r = l.command_finished(A, "echo hi", "/srv/start", exited("hi\n"));
    assert_eq!(
        r,
        Reaction { deliveries: vec![to(A, &output("echo hi", "hi", "", 0, "/srv/start"))], task: None }
    );
    assert_eq!(l.is_busy(A), Some(false));
}

#[test]
fn execute_command_plans_in_the_directory_of_the_session() {
    let mut l = lobby();
    join(&mut l, A, R1);
    assert_eq!(
        l.execute_command("cd logs", A),
        Some(Task::Resolve { command: "cd logs".to_string(), target: "/srv/start/logs".to_string() })
    );
    assert_eq!(
        l.execute_command("cd ", A),
        Some(Task::Resolve { command: "cd ".to_string(), target: "/home/user".to_string() })
    );
    assert_eq!(l.execute_command("cd logs", B), None);
}

#[test]
fn send_message_drops_what_is_for_nobody() {
    let mut l = lobby();
    join(&mut l, A, R1);
    assert_eq!(l.send_message("x", A), Some(to(A, "x")));
    assert_eq!(l.send_message("x", B), None);
}

#[test]
fn results_for_sessions_that_left_are_dropped() {
    let mut l = lobby();
    join(&mut l, A, R1);
    l.client_message(say(A, R1, &command("sleep 5")));
    l.client_message(say(A, R1, "waiting"));
    l.disconnect(Disconnect { lobby_id: R1, self_id: A });
    assert_eq!(l.command_finished(A, "sleep 5", "/", Outcome::TimedOut), quiet());
    assert_eq!(l.directory_resolved(A, "cd /tmp", Ok("/tmp".to_string())), quiet());
    assert_eq!(l.directory_of(A), None);
    assert_eq!(l.is_busy(A), None);
    assert_eq!(l.waiting(A), 0);
    assert!(!l.is_live(A));
}

#[test]
fn cd_of_one_session_leaves_the_others_where_they_are() {
    let mut l = lobby();
    join(&mut l, A, R1);
    join(&mut l, B, R1);
    let r = l.client_message(say(A, R1, &command("cd /tmp")));
    assert_eq!(
        r.task,
        Some(Task::Resolve { command: "cd /tmp".to_string(), target: "/tmp".to_string() })
    );
    let r = l.directory_resolved(A, "cd /tmp", Ok("/tmp".to_string()));
    assert_eq!(r, Reaction { deliveries: vec![to(A, &output("cd /tmp", "", "", 0, "/tmp"))], task: None });
    assert_eq!(l.directory_of(A), Some("/tmp".to_string()));
    assert_eq!(l.directory_of(B), Some("/srv/start".to_string()));
    let r = l.client_message(say(B, R1, &command("pwd")));
    match r.task {
        Some(Task::Run { directory, .. }) => assert_eq!(directory, "/srv/start"),
        other => panic!("unexpected task {:?}", other),
    }
    let r = l.command_finished(B, "pwd", "/srv/start", exited("/srv/start\n"));
    assert_eq!(r.deliveries, vec![to(B, &output("pwd", "/srv/start", "", 0, "/srv/start"))]);
    assert_eq!(l.directory_of(A), Some("/tmp".to_string()));
    assert_eq!(l.members_of(R1), Some(vec![A, B]));
}

#[test]
fn failed_cd_is_reported_and_changes_nothing() {
    let mut l = lobby();
    join(&mut l, A, R1);
    l.client_message(say(A, R1, &command("cd nowhere")));
    let r = l.directory_resolved(A, "cd nowhere", Err("No such file or directory (os error 2)".to_string()));
    assert_eq!(r.task, None);
    assert_eq!(r.deliveries.len(), 1);
    assert_eq!(r.deliveries[0].to, A);
    let v = parsed(&r.deliveries[0].message.message);
    assert_eq!(v["type"].as_str(), Some("command_output"));
    assert_eq!(v["payload"]["command"].as_str(), Some("cd nowhere"));
    assert_eq!(v["payload"]["stdout"].as_str(), Some(""));
    assert_eq!(
        v["payload"]["stderr"].as_str(),
        Some("cd: \"nowhere\": No such file or directory (os error 2)")
    );
    assert_eq!(v["payload"]["exitCode"].as_i64(), Some(1));
    assert_eq!(v["payload"]["currentDirectory"].as_str(), Some("/srv/start"));
    assert_eq!(l.directory_of(A), Some("/srv/start".to_string()));
    assert_eq!(l.is_busy(A), Some(false));
}

#[test]
fn session_scenario_from_connect_to_timeout() {
    let mut l = lobby();
    let d = join(&mut l, A, R1);
    let v = parsed(&d.message.message);
    assert_eq!(v["type"].as_str(), Some("system_message"));
    assert_eq!(v["payload"]["currentDirectory"].as_str(), Some("/srv/start"));

    let r = l.client_message(say(A, R1, "{\"type\":\"command\",\"payload\":{\"command\":\"cd /tmp\"}}"));
    let target = match r.task {
        Some(Task::Resolve { target, .. }) => target,
        other => panic!("unexpected task {:?}", other),
    };
    assert_eq!(target, "/tmp");
    let canonical = match std::path::Path::new(&target).canonicalize() {
        Ok(p) => p.to_string_lossy().into_owned(),
        Err(_) => target.clone(),
    };
    let r = l.directory_resolved(A, "cd /tmp", Ok(canonical.clone()));
    assert_eq!(r.task, None);
    assert_eq!(r.deliveries, vec![to(A, &output("cd /tmp", "", "", 0, &canonical))]);

    let r = l.client_message(say(A, R1, "{\"type\":\"command\",\"payload\":{\"command\":\"echo hi\"}}"));
    let directory = match r.task {
        Some(Task::Run { directory, command, .. }) => {
            assert_eq!(command, "echo hi");
            directory
        }
        other => panic!("unexpected task {:?}", other),
    };
    assert_eq!(directory, canonical);
    let r = l.command_finished(A, "echo hi", &directory, exited("hi\n"));
    let v = parsed(&r.deliveries[0].message.message);
    assert_eq!(v["payload"]["stdout"].as_str(), Some("hi"));
    assert_eq!(v["payload"]["stderr"].as_str(), Some(""));
    assert_eq!(v["payload"]["exitCode"].as_i64(), Some(0));
    assert_eq!(v["payload"]["currentDirectory"].as_str(), Some(canonical.as_str()));

    let r = l.client_message(say(A, R1, "{\"type\":\"command\",\"payload\":{\"command\":\"sleep 30\"}}"));
    match r.task {
        Some(Task::Run { timeout_secs, .. }) => assert_eq!(timeout_secs, 10),
        other => panic!("unexpected task {:?}", other),
    }
    let r = l.command_finished(A, "sleep 30", &directory, Outcome::TimedOut);
    let v = parsed(&r.deliveries[0].message.message);
    assert_eq!(v["payload"]["exitCode"].as_i64(), Some(-1));
    assert!(v["payload"]["stderr"].as_str().expect("a string").contains("timed out"));
    assert_eq!(v["payload"]["currentDirectory"].as_str(), Some(canonical.as_str()));
}

#[test]
fn helpers_for_rooms() {
    assert_eq!(remove_member(&vec![A, B, C], B), vec![A, C]);
    assert_eq!(remove_member(&vec![A, B, C], D), vec![A, B, C]);
    assert_eq!(remove_member(&vec![A], A), Vec::<u128>::new());
    assert_eq!(notify(&vec![A, B], "x"), vec![to(A, "x"), to(B, "x")]);
    assert_eq!(notify(&vec![], "x"), vec![]);
}

#[test]
fn default_lobby_starts_sessions_in_the_root() {
    let mut l = Lobby::default();
    let d = join(&mut l, A, R1);
    let v = parsed(&d.message.message);
    assert_eq!(v["payload"]["currentDirectory"].as_str(), Some("/"));
    assert_eq!(
        l.execute_command("cd ", A),
        Some(Task::Resolve { command: "cd ".to_string(), target: "/".to_string() })
    );
    match l.execute_command("ls", A) {
        Some(Task::Run { timeout_secs, .. }) => assert_eq!(timeout_secs, 15),
        other => panic!("unexpected task {:?}", other),
    }
}

#[test]
fn frames_of_a_busy_session_wait_in_line() {
    let mut l = lobby();
    join(&mut l, A, R1);
    join(&mut l, B, R1);
    let r = l.client_message(say(A, R1, &command("sleep 5")));
    assert!(r.task.is_some());
    assert_eq!(l.client_message(say(A, R1, "hello")), quiet());
    assert_eq!(l.client_message(say(A, R1, &command("cd /tmp"))), quiet());
    assert_eq!(l.client_message(say(A, R1, "never handled before the cd ends")), quiet());
    assert_eq!(l.waiting(A), 3);
    assert_eq!(l.is_busy(A), Some(true));

    let r = l.command_finished_at(A, "sleep 5", "/srv/start", exited(""), "now");
    assert_eq!(
        r,
        Reaction {
            deliveries: vec![
                to(A, &output("sleep 5", "", "", 0, "/srv/start")),
                to(A, "hello"),
                to(B, "hello"),
            ],
            task: Some(Task::Resolve { command: "cd /tmp".to_string(), target: "/tmp".to_string() }),
        }
    );
    assert_eq!(l.waiting(A), 1);
    assert_eq!(l.is_busy(A), Some(true));

    let r = l.directory_resolved_at(A, "cd /tmp", Ok("/tmp".to_string()), "now");
    assert_eq!(
        r,
        Reaction {
            deliveries: vec![
                to(A, &output("cd /tmp", "", "", 0, "/tmp")),
                to(A, "never handled before the cd ends"),
                to(B, "never handled before the cd ends"),
            ],
            task: None,
        }
    );
    assert_eq!(l.waiting(A), 0);
    assert_eq!(l.is_busy(A), Some(false));
    assert_eq!(l.directory_of(A), Some("/tmp".to_string()));
}

#[test]
fn a_command_in_line_runs_in_the_directory_of_the_cd_before_it() {
    let mut l = lobby();
    join(&mut l, A, R1);
    l.client_message(say(A, R1, &command("cd /tmp")));
    assert_eq!(l.client_message(say(A, R1, &command("pwd"))), quiet());
    let r = l.directory_resolved(A, "cd /tmp", Ok("/tmp".to_string()));
    assert_eq!(r.deliveries, vec![to(A, &output("cd /tmp", "", "", 0, "/tmp"))]);
    assert_eq!(
        r.task,
        Some(Task::Run {
            program: "bash".to_string(),
            flag: "-c".to_string(),
            command: "pwd".to_string(),
            directory: "/tmp".to_string(),
            timeout_secs: 10,
        })
    );
}

#[test]
fn a_busy_session_holds_up_no_other() {
    let mut l = lobby();
    join(&mut l, A, R1);
    join(&mut l, B, R1);
    l.client_message(say(A, R1, &command("sleep 30")));
    let r = l.client_message(say(B, R1, "hello"));
    assert_eq!(r, Reaction { deliveries: vec![to(A, "hello"), to(B, "hello")], task: None });
    let r = l.client_message(say(B, R1, &command("echo quick")));
    assert!(r.task.is_some());
    let r = l.command_finished(B, "echo quick", "/srv/start", exited("quick\n"));
    assert_eq!(r.deliveries, vec![to(B, &output("echo quick", "quick", "", 0, "/srv/start"))]);
    assert_eq!(l.is_busy(A), Some(true));
    let r = l.command_finished(A, "sleep 30", "/srv/start", Outcome::TimedOut);
    assert_eq!(
        r.deliveries,
        vec![to(A, &output("sleep 30", "", "Command timed out after 10 seconds", -1, "/srv/start"))]
    );
}

#[test]
fn pings_in_line_are_answered_when_the_command_ends() {
    let mut l = lobby();
    join(&mut l, A, R1);
    l.client_message(say(A, R1, &command("ls")));
    l.client_message(say(A, R1, "{\"type\":\"ping\"}"));
    l.client_message(say(A, R1, "{\"type\":\"resize\"}"));
    let r = l.command_finished_at(A, "ls", "/srv/start", exited("a\nb\n"), "T");
    assert_eq!(
        r,
        Reaction {
            deliveries: vec![
                to(A, &output("ls", "a\\nb", "", 0, "/srv/start")),
                to(A, "{\"type\":\"pong\",\"payload\":{\"timestamp\":\"T\"}}"),
            ],
            task: None,
        }
    );
}

#[test]
fn drain_of_an_idle_session_does_nothing() {
    let mut l = lobby();
    join(&mut l, A, R1);
    assert_eq!(l.drain(A, "now"), quiet());
    assert_eq!(l.drain(B, "now"), quiet());
    l.client_message(say(A, R1, &command("ls")));
    l.client_message(say(A, R1, "later"));
    assert_eq!(l.drain(A, "now"), quiet());
    assert_eq!(l.waiting(A), 1);
}

#[test]
fn receive_is_client_message_at_a_given_time() {
    let mut l = lobby();
    join(&mut l, A, R1);
    let r = l.receive(say(A, R1, "{\"type\":\"ping\"}"), "2024-02-03T04:05:06+00:00");
    assert_eq!(
        r,
        Reaction {
            deliveries: vec![to(
                A,
                "{\"type\":\"pong\",\"payload\":{\"timestamp\":\"2024-02-03T04:05:06+00:00\"}}"
            )],
            task: None,
        }
    );
}

#[test]
fn connect_at_a_given_time_is_exact() {
    let mut l = lobby();
    let d = l.connect_at(Connect { lobby_id: R1, self_id: A }, "2024-05-06T07:08:09+00:00");
    assert_eq!(d, Ok(to(A, &welcome(A, "2024-05-06T07:08:09+00:00", "/srv/start"))));
    let again = l.connect_at(Connect { lobby_id: R1, self_id: A }, "later");
    assert_eq!(again, Err(ConnectError::SessionExists));
}

#[test]
fn handle_serves_the_three_requests() {
    let mut l = lobby();
    let r = l.handle_at(Request::Connect(Connect { lobby_id: R1, self_id: A }), "T1");
    assert_eq!(r, Reaction { deliveries: vec![to(A, &welcome(A, "T1", "/srv/start"))], task: None });
    let r = l.handle_at(Request::Connect(Connect { lobby_id: R2, self_id: A }), "T2");
    assert_eq!(r, quiet());
    assert_eq!(l.room_of(A), Some(R1));
    l.handle_at(Request::Connect(Connect { lobby_id: R1, self_id: B }), "T3");
    l.handle_at(Request::Connect(Connect { lobby_id: R2, self_id: C }), "T4");

    let r = l.handle_at(Request::Message(say(A, R1, "hello")), "T5");
    assert_eq!(r, Reaction { deliveries: vec![to(A, "hello"), to(B, "hello")], task: None });
    let r = l.handle_at(Request::Message(say(A, R1, &format!("\\w {} secret", id_to_text(C)))), "T6");
    assert_eq!(r, Reaction { deliveries: vec![to(C, "secret")], task: None });
    let r = l.handle_at(Request::Message(say(A, R1, "{\"type\":\"ping\"}")), "T7");
    assert_eq!(
        r,
        Reaction {
            deliveries: vec![to(A, "{\"type\":\"pong\",\"payload\":{\"timestamp\":\"T7\"}}")],
            task: None,
        }
    );
    let r = l.handle_at(Request::Message(say(A, R1, &command("cd"))), "T8");
    assert_eq!(
        r,
        Reaction {
            deliveries: vec![],
            task: Some(Task::Resolve { command: "cd".to_string(), target: "/home/user".to_string() }),
        }
    );

    let r = l.handle_at(Request::Disconnect(Disconnect { lobby_id: R1, self_id: A }), "T9");
    assert_eq!(r, Reaction { deliveries: vec![to(B, &farewell(A))], task: None });
    assert_eq!(l.members_of(R1), Some(vec![B]));
    let r = l.handle_at(Request::Disconnect(Disconnect { lobby_id: R1, self_id: A }), "T10");
    assert_eq!(r, quiet());
    let r = l.handle_at(Request::Disconnect(Disconnect { lobby_id: R1, self_id: B }), "T11");
    assert_eq!(r, quiet());
    assert_eq!(l.members_of(R1), None);
    assert_eq!(l.members_of(R2), Some(vec![C]));
}

#[test]
fn handle_reads_the_clock() {
    let mut l = lobby();
    let r = l.handle(Request::Connect(Connect { lobby_id: R1, self_id: A }));
    assert_eq!(r.task, None);
    assert_eq!(r.deliveries.len(), 1);
    let v = parsed(&r.deliveries[0].message.message);
    let stamp = v["payload"]["timestamp"].as_str().expect("a timestamp");
    assert!(chrono::DateTime::parse_from_rfc3339(stamp).is_ok());
    let r = l.handle(Request::Message(say(A, R1, "hello")));
    assert_eq!(r, Reaction { deliveries: vec![to(A, "hello")], task: None });
    let r = l.handle(Request::Disconnect(Disconnect { lobby_id: R1, self_id: A }));
    assert_eq!(r, quiet());
    assert!(!l.is_live(A));
}
