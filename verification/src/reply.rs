//! From the outcome of a dispatch to what goes back to the transport: the
//! reply for the caller, and the commands to execute.

use vstd::prelude::*;
use crate::dispatch::{DispatchOutcome, DispatchOutcomeView, IncomingCall, IncomingCallView};
use crate::value::{views_of, Value, ValueView};

verus! {

/// What a reply carries.
#[derive(Clone, Debug, PartialEq, Eq)]
pub enum ReplyBody {
    /// The values that the operation returned, in order.
    MethodReturn(Vec<Value>),
    /// An error of the protocol: its name, and a message for the reader.
    Error { name: String, message: String },
}

/// What a `ReplyBody` is, over views.
pub ghost enum ReplyBodyView {
    MethodReturn(Seq<ValueView>),
    Error { name: Seq<char>, message: Seq<char> },
}

impl View for ReplyBody {
    type V = ReplyBodyView;

    open spec fn view(&self) -> ReplyBodyView {
        match self {
            ReplyBody::MethodReturn(values) => ReplyBodyView::MethodReturn(views_of(values@)),
            ReplyBody::Error { name, message } => ReplyBodyView::Error {
                name: name@,
                message: message@,
            },
        }
    }
}

/// A reply, addressed to the caller and tied to its call.
#[derive(Clone, Debug, PartialEq, Eq)]
pub struct ReplyMessage {
    /// The bus address that the reply goes to.
    pub destination: String,
    /// The serial of the call that this answers.
    pub reply_serial: u32,
    pub body: ReplyBody,
}

/// What a `ReplyMessage` is, over views.
pub ghost struct ReplyMessageView {
    pub destination: Seq<char>,
    pub reply_serial: u32,
    pub body: ReplyBodyView,
}

impl View for ReplyMessage {
    type V = ReplyMessageView;

    open spec fn view(&self) -> ReplyMessageView {
        ReplyMessageView {
            destination: self.destination@,
            reply_serial: self.reply_serial,
            body: self.body@,
        }
    }
}

/// What the transport is to do once a call has been dispatched.
#[derive(Clone, Debug, PartialEq, Eq)]
pub struct Response {
    /// The reply to send; `None` for a one-way call.
    pub reply: Option<ReplyMessage>,
    /// The shell commands to execute, in order. How they end is reported to
    /// nobody.
    pub commands: Vec<String>,
}

/// What a `Response` is, over views.
pub ghost struct ResponseView {
    pub reply: Option<ReplyMessageView>,
    pub commands: Seq<Seq<char>>,
}

impl View for Response {
    type V = ResponseView;

    open spec fn view(&self) -> ResponseView {
        ResponseView {
            reply: match self.reply {
                Some(message) => Some(message@),
                None => None,
            },
            commands: self.commands@.map_values(|c: String| c@),
        }
    }
}

/// The body of the reply for an outcome. An error carries the name that the
/// bus protocol gives it, and a message that names what was not found.
pub open spec fn reply_body(call: IncomingCallView, outcome: DispatchOutcomeView) -> ReplyBodyView {
    match outcome {
        DispatchOutcomeView::Reply(output) => ReplyBodyView::MethodReturn(output.values),
        DispatchOutcomeView::UnknownObjectError => ReplyBodyView::Error {
            name: "org.freedesktop.DBus.Error.UnknownObject"@,
            message: "Unknown object path "@ + call.path,
        },
        DispatchOutcomeView::UnknownInterfaceError => ReplyBodyView::Error {
            name: "org.freedesktop.DBus.Error.UnknownInterface"@,
            message: "Unknown interface "@ + call.interface,
        },
        DispatchOutcomeView::UnknownMethodError => ReplyBodyView::Error {
            name: "org.freedesktop.DBus.Error.UnknownMethod"@,
            message: "Unknown method "@ + call.operation,
        },
        DispatchOutcomeView::ArgumentTypeError => ReplyBodyView::Error {
            name: "org.freedesktop.DBus.Error.InvalidArgs"@,
            message: "Invalid arguments for "@ + call.operation,
        },
        DispatchOutcomeView::HandlerError(message) => ReplyBodyView::Error {
            name: "org.freedesktop.DBus.Error.Failed"@,
            message,
        },
    }
}

/// The commands that an outcome asks for: those of the operation, if it
/// ran.
pub open spec fn commands_of(outcome: DispatchOutcomeView) -> Seq<Seq<char>> {
    match outcome {
        DispatchOutcomeView::Reply(output) => output.commands,
        _ => Seq::empty(),
    }
}

/// The response to a call with the given outcome: a reply to the sender,
/// under the serial of the call, unless the call is one-way; and the
/// commands of the outcome in either case.
pub open spec fn respond_spec(call: IncomingCallView, outcome: DispatchOutcomeView) -> ResponseView {
    ResponseView {
        reply: if call.expects_reply {
            Some(
                ReplyMessageView {
                    destination: call.sender,
                    reply_serial: call.serial,
                    body: reply_body(call, outcome),
                },
            )
        } else {
            None
        },
        commands: commands_of(outcome),
    }
}

/// An error body with the given name, and with `detail` after `prefix` as
/// its message.
fn error_body(name: &str, prefix: &str, detail: &str) -> (body: ReplyBody)
    ensures
        body@ == (ReplyBodyView::Error { name: name@, message: prefix@ + detail@ }),
{
    ReplyBody::Error {
        name: String::from_str(name),
        message: String::from_str(prefix).concat(detail),
    }
}

/// Turns the outcome of dispatching `call` into the response for the
/// transport. Every error becomes an error reply; a call that expects a
/// reply always gets one.
pub fn respond(call: &IncomingCall, outcome: DispatchOutcome) -> (response: Response)
    ensures
        response@ == respond_spec(call@, outcome@),
        response.reply is Some <==> call.expects_reply,
{
    let mut commands: Vec<String> = Vec::new();
    let body = match outcome {
        DispatchOutcome::Reply(output) => {
            commands = output.commands;
            ReplyBody::MethodReturn(output.values)
        },
        DispatchOutcome::UnknownObjectError => error_body(
            "org.freedesktop.DBus.Error.UnknownObject",
            "Unknown object path ",
            call.path.as_str(),
        ),
        DispatchOutcome::UnknownInterfaceError => error_body(
            "org.freedesktop.DBus.Error.UnknownInterface",
            "Unknown interface ",
            call.interface.as_str(),
        ),
        DispatchOutcome::UnknownMethodError => error_body(
            "org.freedesktop.DBus.Error.UnknownMethod",
            "Unknown method ",
            call.operation.as_str(),
        ),
        DispatchOutcome::ArgumentTypeError => error_body(
            "org.freedesktop.DBus.Error.InvalidArgs",
            "Invalid arguments for ",
            call.operation.as_str(),
        ),
        DispatchOutcome::HandlerError(message) => ReplyBody::Error {
            name: String::from_str("org.freedesktop.DBus.Error.Failed"),
            message,
        },
    };
    assert(commands@.map_values(|c: String| c@) =~= commands_of(outcome@));
    let reply = if call.expects_reply {
        Some(
            ReplyMessage {
                destination: String::from_str(call.sender.as_str()),
                reply_serial: call.serial,
                body,
            },
        )
    } else {
        None
    };
    Response { reply, commands }
}

} // verus!
