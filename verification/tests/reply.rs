use krunner_cnrtl::device::Device;
use krunner_cnrtl::dispatch::{DispatchOutcome, IncomingCall};
use krunner_cnrtl::handlers::HandlerOutput;
use krunner_cnrtl::reply::{respond, ReplyBody, ReplyMessage, Response};
use krunner_cnrtl::service::{create_iface, create_tree};
use krunner_cnrtl::value::{MatchResult, Value};

fn call_to(path: &str, interface: &str, operation: &str, arguments: Vec<Value>) -> IncomingCall {
    IncomingCall {
        path: path.to_string(),
        interface: interface.to_string(),
        operation: operation.to_string(),
        arguments,
        sender: ":1.42".to_string(),
        serial: 7,
        expects_reply: true,
    }
}

fn error_reply(name: &str, message: &str) -> Response {
    Response {
        reply: Some(ReplyMessage {
            destination: ":1.42".to_string(),
            reply_serial: 7,
            body: ReplyBody::Error { name: name.to_string(), message: message.to_string() },
        }),
        commands: vec![],
    }
}

#[test]
fn unknown_object_becomes_an_error_reply() {
    let asked = call_to("/nowhere", "org.kde.krunner1", "Match", vec![]);
    assert_eq!(
        respond(&asked, DispatchOutcome::UnknownObjectError),
        error_reply("org.freedesktop.DBus.Error.UnknownObject", "Unknown object path /nowhere")
    );
}

#[test]
fn unknown_interface_becomes_an_error_reply() {
    let asked = call_to("/", "org.example.Other", "Match", vec![]);
    assert_eq!(
        respond(&asked, DispatchOutcome::UnknownInterfaceError),
        error_reply("org.freedesktop.DBus.Error.UnknownInterface", "Unknown interface org.example.Other")
    );
}

#[test]
fn unknown_method_becomes_an_error_reply() {
    let asked = call_to("/", "org.kde.krunner1", "Teardown", vec![]);
    assert_eq!(
        respond(&asked, DispatchOutcome::UnknownMethodError),
        error_reply("org.freedesktop.DBus.Error.UnknownMethod", "Unknown method Teardown")
    );
}

#[test]
fn argument_type_becomes_an_error_reply() {
    let asked = call_to("/", "org.kde.krunner1", "Match", vec![Value::Int32(1)]);
    assert_eq!(
        respond(&asked, DispatchOutcome::ArgumentTypeError),
        error_reply("org.freedesktop.DBus.Error.InvalidArgs", "Invalid arguments for Match")
    );
}

#[test]
fn handler_error_becomes_an_error_reply_with_its_message() {
    let asked = call_to("/", "org.kde.krunner1", "Match", vec![]);
    assert_eq!(
        respond(&asked, DispatchOutcome::HandlerError("the dictionary is closed".to_string())),
        error_reply("org.freedesktop.DBus.Error.Failed", "the dictionary is closed")
    );
}

#[test]
fn a_reply_carries_the_values_and_the_commands() {
    let asked = call_to("/", "org.kde.krunner1", "Run", vec![]);
    let output = HandlerOutput {
        values: vec![Value::Int32(5), Value::Str("five".to_string())],
        commands: vec!["true".to_string(), "false".to_string()],
    };
    assert_eq!(
        respond(&asked, DispatchOutcome::Reply(output)),
        Response {
            reply: Some(ReplyMessage {
                destination: ":1.42".to_string(),
                reply_serial: 7,
                body: ReplyBody::MethodReturn(vec![Value::Int32(5), Value::Str("five".to_string())]),
            }),
            commands: vec!["true".to_string(), "false".to_string()],
        }
    );
}

#[test]
fn a_one_way_call_gets_no_reply_but_its_commands() {
    let mut asked = call_to("/", "org.kde.krunner1", "Run", vec![]);
    asked.expects_reply = false;
    let output = HandlerOutput { values: vec![], commands: vec!["true".to_string()] };
    assert_eq!(
        respond(&asked, DispatchOutcome::Reply(output)),
        Response { reply: None, commands: vec!["true".to_string()] }
    );
}

#[test]
fn a_one_way_call_gets_no_error_reply_either() {
    let mut asked = call_to("/nowhere", "org.kde.krunner1", "Run", vec![]);
    asked.expects_reply = false;
    for outcome in [
        DispatchOutcome::UnknownObjectError,
        DispatchOutcome::UnknownInterfaceError,
        DispatchOutcome::UnknownMethodError,
        DispatchOutcome::ArgumentTypeError,
        DispatchOutcome::HandlerError("no".to_string()),
    ] {
        assert_eq!(respond(&asked, outcome), Response { reply: None, commands: vec![] });
    }
}

#[test]
fn every_call_that_expects_a_reply_gets_one() {
    let asked = call_to("/", "org.kde.krunner1", "Match", vec![]);
    for outcome in [
        DispatchOutcome::Reply(HandlerOutput { values: vec![], commands: vec![] }),
        DispatchOutcome::UnknownObjectError,
        DispatchOutcome::UnknownInterfaceError,
        DispatchOutcome::UnknownMethodError,
        DispatchOutcome::ArgumentTypeError,
        DispatchOutcome::HandlerError("no".to_string()),
    ] {
        let response = respond(&asked, outcome);
        let reply = response.reply.unwrap();
        assert_eq!(reply.destination, ":1.42");
        assert_eq!(reply.reply_serial, 7);
    }
}

#[test]
fn the_tree_answers_match() {
    let tree = create_tree(Device::new(), create_iface());
    let asked = call_to("/", "org.kde.krunner1", "Match", vec![Value::Str("def whale".to_string())]);
    let expected = MatchResult {
        id: "whale".to_string(),
        label: "Definition: whale".to_string(),
        icon_name: "internet-web-browser".to_string(),
        relevance: 100,
        score_bits: 1.0f64.to_bits(),
        extra_data: vec![],
    };
    assert_eq!(
        tree.handle(&asked),
        Response {
            reply: Some(ReplyMessage {
                destination: ":1.42".to_string(),
                reply_serial: 7,
                body: ReplyBody::MethodReturn(vec![Value::Matches(vec![expected])]),
            }),
            commands: vec![],
        }
    );
}

#[test]
fn the_tree_answers_run_with_a_unit_reply_and_one_command() {
    let tree = create_tree(Device::new(), create_iface());
    let asked = call_to(
        "/",
        "org.kde.krunner1",
        "Run",
        vec![Value::Str("anything".to_string()), Value::Str("ignored".to_string())],
    );
    assert_eq!(
        tree.handle(&asked),
        Response {
            reply: Some(ReplyMessage {
                destination: ":1.42".to_string(),
                reply_serial: 7,
                body: ReplyBody::MethodReturn(vec![]),
            }),
            commands: vec!["xdg-open https://www.cnrtl.fr/definition/anything".to_string()],
        }
    );
}

#[test]
fn the_tree_runs_a_one_way_call_for_its_commands() {
    let tree = create_tree(Device::new(), create_iface());
    let mut asked = call_to(
        "/",
        "org.kde.krunner1",
        "Run",
        vec![Value::Str("whale".to_string()), Value::Str("".to_string())],
    );
    asked.expects_reply = false;
    assert_eq!(
        tree.handle(&asked),
        Response {
            reply: None,
            commands: vec!["xdg-open https://www.cnrtl.fr/definition/whale".to_string()],
        }
    );
}

#[test]
fn the_tree_exposes_the_device_and_the_interface() {
    let tree = create_tree(Device::new(), create_iface());
    assert_eq!(tree.registry().lookup("/").unwrap().description(), "A simple krunner test");
    assert!(tree.registry().lookup("/other").is_none());
    assert_eq!(tree.interface().name(), "org.kde.krunner1");
}

#[test]
fn the_tree_reports_the_most_specific_error() {
    let tree = create_tree(Device::new(), create_iface());
    let nowhere = tree.handle(&call_to("/nowhere", "org.example.Other", "Teardown", vec![]));
    assert_eq!(
        nowhere,
        error_reply("org.freedesktop.DBus.Error.UnknownObject", "Unknown object path /nowhere")
    );
    let other = tree.handle(&call_to("/", "org.example.Other", "Teardown", vec![]));
    assert_eq!(
        other,
        error_reply("org.freedesktop.DBus.Error.UnknownInterface", "Unknown interface org.example.Other")
    );
    let teardown = tree.handle(&call_to("/", "org.kde.krunner1", "Teardown", vec![Value::Opaque]));
    assert_eq!(
        teardown,
        error_reply("org.freedesktop.DBus.Error.UnknownMethod", "Unknown method Teardown")
    );
    let wrong = tree.handle(&call_to("/", "org.kde.krunner1", "Match", vec![Value::Opaque]));
    assert_eq!(
        wrong,
        error_reply("org.freedesktop.DBus.Error.InvalidArgs", "Invalid arguments for Match")
    );
}
