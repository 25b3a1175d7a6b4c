use std::cell::RefCell;
use std::rc::Rc;

use hellvents::command::{StartEvent, USAGE};
use hellvents::config::{AdminConfig, FileConfig, WiseConfig};
use hellvents::events::EventKind;
use hellvents::listener::{ChatOutcome, CommandListener, EventHandle, Reply, Retirement};
use hellvents::melee_mania::MeleeManiaConfig;

struct Recorder {
    name: String,
    log: Rc<RefCell<Vec<String>>>,
}

impl EventHandle for Recorder {
    fn stop(&self) {
        self.log.borrow_mut().push(format!("stop {}", self.name));
    }

    fn abort(&self) {
        self.log.borrow_mut().push(format!("abort {}", self.name));
    }

    fn short_info(&self) -> String {
        format!("short {}", self.name)
    }

    fn long_info(&self) -> String {
        format!("long {}", self.name)
    }
}

fn listener() -> (CommandListener<Recorder>, Rc<RefCell<Vec<String>>>) {
    let config = FileConfig {
        wise: WiseConfig { address: "ws://localhost".to_string(), token: "t".to_string() },
        admin: AdminConfig { allowed_ids: vec!["admin".to_string()] },
    };
    (CommandListener::new(config), Rc::new(RefCell::new(Vec::new())))
}

fn handle(name: &str, log: &Rc<RefCell<Vec<String>>>) -> Recorder {
    Recorder { name: name.to_string(), log: log.clone() }
}

fn text(reply: Reply) -> Option<String> {
    reply.to_string()
}

fn respond(outcome: ChatOutcome<Recorder>) -> Reply {
    match outcome {
        ChatOutcome::Respond(r, retired) => {
            for h in retired {
                h.carry_out();
            }
            r
        }
        _ => panic!("expected a reply"),
    }
}

fn start(l: &mut CommandListener<Recorder>, event: StartEvent, h: Recorder) -> Reply {
    let (reply, retired) = l.start_event(event, h);
    if let Some(r) = retired {
        assert!(matches!(r, Retirement::Abort(_)));
        r.carry_out();
    }
    reply
}

#[test]
fn replies_render_with_headers() {
    assert_eq!(text(Reply::Success("x".to_string())), Some("HELLVENTS | OK\n\nx".to_string()));
    assert_eq!(text(Reply::Failure("y".to_string())), Some("HELLVENTS | ERROR\n\ny".to_string()));
    assert_eq!(text(Reply::Clap("z".to_string())), Some("z".to_string()));
    assert_eq!(text(Reply::Silent), None);
}

#[test]
fn starting_same_kind_aborts_previous() {
    let (mut l, log) = listener();
    let event = StartEvent::MeleeMania(MeleeManiaConfig::default());
    let (r, retired) = l.start_event(event, handle("first", &log));
    assert!(retired.is_none());
    assert_eq!(text(r), Some("HELLVENTS | OK\n\nStarted event MeleeMania.".to_string()));
    let r = start(&mut l, event, handle("second", &log));
    assert_eq!(
        text(r),
        Some("HELLVENTS | OK\n\nAborted previous event of the same type and started event MeleeMania.".to_string())
    );
    assert_eq!(*log.borrow(), vec!["abort first".to_string()]);
    assert!(l.events.is_running(EventKind::MeleeMania));
    assert!(!l.events.is_running(EventKind::RadioSpies));
    let r = l.status(Some(EventKind::MeleeMania));
    assert_eq!(text(r), Some("HELLVENTS | OK\n\nlong second".to_string()));
}

#[test]
fn different_kinds_run_side_by_side() {
    let (mut l, log) = listener();
    start(&mut l, StartEvent::MeleeMania(MeleeManiaConfig::default()), handle("mm", &log));
    start(&mut l, StartEvent::RadioSpies, handle("rs", &log));
    assert!(log.borrow().is_empty());
    let r = l.status(None);
    assert_eq!(
        text(r),
        Some("HELLVENTS | OK\n\nMeleeMania: short mm\nRadioSpies: short rs\n".to_string())
    );
}

#[test]
fn stop_event_stops_gracefully() {
    let (mut l, log) = listener();
    start(&mut l, StartEvent::RadioSpies, handle("rs", &log));
    let (r, retired) = l.stop_event(EventKind::RadioSpies);
    assert_eq!(text(r), Some("HELLVENTS | OK\n\nStopped event RadioSpies".to_string()));
    let retired = retired.expect("the running handle comes back");
    assert!(matches!(retired, Retirement::Stop(_)));
    retired.carry_out();
    assert_eq!(*log.borrow(), vec!["stop rs".to_string()]);
    let (r, retired) = l.stop_event(EventKind::RadioSpies);
    assert!(retired.is_none());
    assert_eq!(
        text(r),
        Some("HELLVENTS | ERROR\n\nNo event of type RadioSpies is currently running".to_string())
    );
    let r = l.status(Some(EventKind::SkyEye));
    assert_eq!(
        text(r),
        Some("HELLVENTS | ERROR\n\nNo event of type SkyEye is currently running".to_string())
    );
}

#[test]
fn chat_from_strangers_is_ignored() {
    let (mut l, log) = listener();
    start(&mut l, StartEvent::RadioSpies, handle("rs", &log));
    let r = respond(l.handle_chat(&"guest".to_string(), "/hv stop radio-spies"));
    assert!(matches!(r, Reply::Silent));
    let r = respond(l.handle_chat(&"admin".to_string(), "hv stop radio-spies"));
    assert!(matches!(r, Reply::Silent));
    let r = respond(l.handle_chat(&"admin".to_string(), "/help"));
    assert!(matches!(r, Reply::Silent));
    assert!(log.borrow().is_empty());
}

#[test]
fn chat_commands_dispatch() {
    let (mut l, log) = listener();
    let admin = "admin".to_string();
    match l.handle_chat(&admin, "/hv start rs") {
        ChatOutcome::Launch(event) => assert_eq!(event, StartEvent::RadioSpies),
        _ => panic!("expected a launch"),
    }
    start(&mut l, StartEvent::RadioSpies, handle("rs", &log));
    start(&mut l, StartEvent::MeleeMania(MeleeManiaConfig::default()), handle("mm", &log));
    let r = respond(l.handle_chat(&admin, "/hv stop-all"));
    assert_eq!(text(r), Some("HELLVENTS | OK\n\nStopped all events".to_string()));
    assert_eq!(*log.borrow(), vec!["stop mm".to_string(), "stop rs".to_string()]);
    let r = respond(l.handle_chat(&admin, "/hv stop-all"));
    assert_eq!(text(r), Some("HELLVENTS | ERROR\n\nNo event is currently running".to_string()));
    let r = respond(l.handle_chat(&admin, "/hv status"));
    assert_eq!(text(r), Some("HELLVENTS | OK\n\nNo event is currently running".to_string()));
    let r = respond(l.handle_chat(&admin, "/hv nonsense"));
    assert_eq!(text(r), Some(format!("error: unrecognized subcommand\n\n{}", USAGE)));
    assert!(matches!(l.handle_chat(&admin, "/hv emergency-exit"), ChatOutcome::Exit));
}

#[test]
fn allow_list_lookup() {
    let admin = AdminConfig { allowed_ids: vec!["a".to_string(), "b".to_string()] };
    assert!(admin.is_allowed(&"b".to_string()));
    assert!(!admin.is_allowed(&"c".to_string()));
}
