use std::collections::HashMap;

use chat_actions::{ActionHandler, ActionResult, ErrorKind, NextOp, OutboundMessage,
    PendingState, PortEvent, PortRequest};

fn s(text: &str) -> String {
    text.to_string()
}

fn raw_count(messages: &[OutboundMessage]) -> usize {
    messages.iter().filter(|m| matches!(m, OutboundMessage::Raw { .. })).count()
}

/// A fault-free in-memory stand-in for the persistence port's hitman
/// records, applying each write the way the real port would.
fn apply(records: &mut HashMap<(String, String), bool>, request: &PortRequest) {
    match request {
        PortRequest::HitmanArm { channel, user } => {
            records.insert((channel.clone(), user.clone()), false);
        }
        PortRequest::HitmanSetProtection { channel, user, protected } => {
            records.insert((channel.clone(), user.clone()), *protected);
        }
        _ => {}
    }
}

#[test]
fn hitman_missing_user_is_soft() {
    let h = ActionHandler::new();
    let args: Vec<String> = vec![];
    let step = h.run("hitman", &args, "chan");
    assert!(step.messages.is_empty());
    assert_eq!(step.next, NextOp::Done(ActionResult::Reply(s("user not specified"))));
}

#[test]
fn hitman_times_out_unprotected_user() {
    let h = ActionHandler::new();
    let mut records: HashMap<(String, String), bool> = HashMap::new();
    let mut raws: usize = 0;

    // The target is named with a mention sigil; the record key is the
    // bare name.
    let step = h.run("hitman", &vec![s("@alice")], "chan");
    assert!(step.messages.is_empty());
    let (request, state) = match step.next {
        NextOp::Call(request, state) => (request, state),
        other => panic!("expected a port call, got {:?}", other),
    };
    assert_eq!(request, PortRequest::HitmanArm { channel: s("chan"), user: s("alice") });
    assert_eq!(state, PendingState::HitmanArmed { channel: s("chan"), user: s("alice") });
    apply(&mut records, &request);
    assert_eq!(records.get(&(s("chan"), s("alice"))), Some(&false));

    let step = h.resume(state, PortEvent::PersistenceDone);
    raws += raw_count(&step.messages);
    assert_eq!(
        step.messages,
        vec![OutboundMessage::Say {
            channel: s("chan"),
            text: s("Timing out alice in 15 seconds..."),
        }],
    );
    let (delay, state) = match step.next {
        NextOp::Wait(delay, state) => (delay, state),
        other => panic!("expected a delay, got {:?}", other),
    };
    assert_eq!(delay, 15);
    assert_eq!(state, PendingState::HitmanWaiting { channel: s("chan"), user: s("alice") });

    let step = h.elapsed(state);
    raws += raw_count(&step.messages);
    assert!(step.messages.is_empty());
    let (request, state) = match step.next {
        NextOp::Call(request, state) => (request, state),
        other => panic!("expected a port call, got {:?}", other),
    };
    assert_eq!(request, PortRequest::HitmanProtected { channel: s("chan"), user: s("alice") });

    let protected = records[&(s("chan"), s("alice"))];
    assert!(!protected);
    let step = h.resume(state, PortEvent::ProtectionFlag(protected));
    raws += raw_count(&step.messages);
    assert_eq!(
        step.messages,
        vec![OutboundMessage::Raw { channel: s("chan"), text: s("/timeout alice 600") }],
    );
    assert_eq!(
        step.next,
        NextOp::Done(ActionResult::Reply(s("alice timed out for 10 minutes!"))),
    );
    // Exactly one raw timeout directive over the whole run.
    assert_eq!(raws, 1);
}

#[test]
fn bodyguard_cancels_pending_hitman() {
    let h = ActionHandler::new();
    let mut records: HashMap<(String, String), bool> = HashMap::new();
    let mut raws: usize = 0;

    // Hitman arms the record and parks for the delay.
    let step = h.run("hitman", &vec![s("alice")], "chan");
    let (request, state) = match step.next {
        NextOp::Call(request, state) => (request, state),
        other => panic!("expected a port call, got {:?}", other),
    };
    apply(&mut records, &request);
    let step = h.resume(state, PortEvent::PersistenceDone);
    raws += raw_count(&step.messages);
    let hitman_state = match step.next {
        NextOp::Wait(15, state) => state,
        other => panic!("expected the fixed delay, got {:?}", other),
    };

    // Bodyguard runs to completion before the delay elapses.
    let step = h.run("bodyguard", &vec![s("alice")], "chan");
    let (request, state) = match step.next {
        NextOp::Call(request, state) => (request, state),
        other => panic!("expected a port call, got {:?}", other),
    };
    assert_eq!(
        request,
        PortRequest::HitmanSetProtection { channel: s("chan"), user: s("alice"), protected: true },
    );
    apply(&mut records, &request);
    let step = h.resume(state, PortEvent::PersistenceDone);
    raws += raw_count(&step.messages);
    assert_eq!(
        step.messages,
        vec![OutboundMessage::Say { channel: s("chan"), text: s("alice has been guarded!") }],
    );
    assert_eq!(step.next, NextOp::Done(ActionResult::Reply(s(""))));

    // The delayed check reads the flag as set, clears it, and ends with
    // an empty reply and no timeout directive.
    let step = h.elapsed(hitman_state);
    raws += raw_count(&step.messages);
    let state = match step.next {
        NextOp::Call(PortRequest::HitmanProtected { .. }, state) => state,
        other => panic!("expected the protection read, got {:?}", other),
    };
    let protected = records[&(s("chan"), s("alice"))];
    assert!(protected);
    let step = h.resume(state, PortEvent::ProtectionFlag(protected));
    raws += raw_count(&step.messages);
    let (request, state) = match step.next {
        NextOp::Call(request, state) => (request, state),
        other => panic!("expected the clearing write, got {:?}", other),
    };
    assert_eq!(
        request,
        PortRequest::HitmanSetProtection {
            channel: s("chan"),
            user: s("alice"),
            protected: false,
        },
    );
    apply(&mut records, &request);
    let step = h.resume(state, PortEvent::PersistenceDone);
    raws += raw_count(&step.messages);
    assert!(step.messages.is_empty());
    assert_eq!(step.next, NextOp::Done(ActionResult::Reply(s(""))));

    assert_eq!(records.get(&(s("chan"), s("alice"))), Some(&false));
    assert_eq!(raws, 0);
}

#[test]
fn bodyguard_missing_user_is_soft() {
    let h = ActionHandler::new();
    let args: Vec<String> = vec![];
    let step = h.run("bodyguard", &args, "chan");
    assert!(step.messages.is_empty());
    assert_eq!(step.next, NextOp::Done(ActionResult::Reply(s("user not specified"))));
}

#[test]
fn hitman_arm_fault_aborts_before_any_message() {
    let h = ActionHandler::new();
    let step = h.resume(
        PendingState::HitmanArmed { channel: s("chan"), user: s("alice") },
        PortEvent::PersistenceFailed(s("db down")),
    );
    assert!(step.messages.is_empty());
    assert_eq!(
        step.next,
        NextOp::Done(ActionResult::Failure(ErrorKind::PersistenceError, s("db down"))),
    );
}

#[test]
fn emoteonly_brackets_the_window() {
    let h = ActionHandler::new();
    let step = h.run("emoteonly", &vec![s("30")], "chan");
    assert_eq!(
        step.messages,
        vec![
            OutboundMessage::Say {
                channel: s("chan"),
                text: s("Emote-only enabled for 30 seconds!"),
            },
            OutboundMessage::Raw { channel: s("chan"), text: s("/emoteonly") },
        ],
    );
    let state = match step.next {
        NextOp::Wait(30, state) => state,
        other => panic!("expected the caller-supplied delay, got {:?}", other),
    };
    assert_eq!(state, PendingState::EmoteOnlyActive { channel: s("chan") });
    let step = h.elapsed(state);
    assert_eq!(
        step.messages,
        vec![OutboundMessage::Raw { channel: s("chan"), text: s("/emoteonlyoff") }],
    );
    assert_eq!(step.next, NextOp::Done(ActionResult::NoReply));
}

#[test]
fn emoteonly_rejects_unparsable_duration() {
    let h = ActionHandler::new();
    let step = h.run("emoteonly", &vec![s("3x")], "chan");
    assert!(step.messages.is_empty());
    assert_eq!(
        step.next,
        NextOp::Done(ActionResult::Failure(ErrorKind::InvalidArguments, s("invalid duration"))),
    );
    let args: Vec<String> = vec![];
    let step = h.run("emoteonly", &args, "chan");
    assert!(step.messages.is_empty());
    assert_eq!(
        step.next,
        NextOp::Done(ActionResult::Failure(ErrorKind::InvalidArguments, s("invalid duration"))),
    );
}
