//! The dispatcher: from an incoming call to the operation it names, and to
//! what that operation hands back.

use vstd::prelude::*;
use crate::device::{DeviceView, Registry};
use crate::handlers::{handler_output, invoke, HandlerOutput, HandlerOutputView};
use crate::interface::{Interface, InterfaceView};
use crate::text::same_text;
use crate::value::{check_conforms, conforms, views_of, Value, ValueView};

verus! {

/// A call as the transport hands it over.
#[derive(Clone, Debug, PartialEq, Eq)]
pub struct IncomingCall {
    /// The object path that the call is sent to.
    pub path: String,
    /// The interface that the call names.
    pub interface: String,
    /// The operation that the call names.
    pub operation: String,
    /// The positional arguments, in order.
    pub arguments: Vec<Value>,
    /// The bus address of the caller, to which a reply goes.
    pub sender: String,
    /// The number by which the caller tells its calls apart.
    pub serial: u32,
    /// Whether the caller waits for a reply; a one-way call expects none.
    pub expects_reply: bool,
}

/// What an `IncomingCall` is, over views.
pub ghost struct IncomingCallView {
    pub path: Seq<char>,
    pub interface: Seq<char>,
    pub operation: Seq<char>,
    pub arguments: Seq<ValueView>,
    pub sender: Seq<char>,
    pub serial: u32,
    pub expects_reply: bool,
}

impl View for IncomingCall {
    type V = IncomingCallView;

    open spec fn view(&self) -> IncomingCallView {
        IncomingCallView {
            path: self.path@,
            interface: self.interface@,
            operation: self.operation@,
            arguments: views_of(self.arguments@),
            sender: self.sender@,
            serial: self.serial,
            expects_reply: self.expects_reply,
        }
    }
}

/// How the dispatch of a call ended.
#[derive(Clone, Debug, PartialEq, Eq)]
pub enum DispatchOutcome {
    /// The operation ran, and handed this back.
    Reply(HandlerOutput),
    /// No record is exposed at the path of the call.
    UnknownObjectError,
    /// The record does not expose the interface that the call names.
    UnknownInterfaceError,
    /// The interface has no operation of the name that the call gives.
    UnknownMethodError,
    /// The arguments are not what the operation declares, in number or in
    /// type.
    ArgumentTypeError,
    /// The operation failed, with this diagnostic message.
    HandlerError(String),
}

/// What a `DispatchOutcome` is, over views.
pub ghost enum DispatchOutcomeView {
    Reply(HandlerOutputView),
    UnknownObjectError,
    UnknownInterfaceError,
    UnknownMethodError,
    ArgumentTypeError,
    HandlerError(Seq<char>),
}

impl View for DispatchOutcome {
    type V = DispatchOutcomeView;

    open spec fn view(&self) -> DispatchOutcomeView {
        match self {
            DispatchOutcome::Reply(output) => DispatchOutcomeView::Reply(output@),
            DispatchOutcome::UnknownObjectError => DispatchOutcomeView::UnknownObjectError,
            DispatchOutcome::UnknownInterfaceError => DispatchOutcomeView::UnknownInterfaceError,
            DispatchOutcome::UnknownMethodError => DispatchOutcomeView::UnknownMethodError,
            DispatchOutcome::ArgumentTypeError => DispatchOutcomeView::ArgumentTypeError,
            DispatchOutcome::HandlerError(message) => DispatchOutcomeView::HandlerError(message@),
        }
    }
}

/// Whether `call` finds its operation: a record is exposed at its path, its
/// interface is the one that is exposed, and the interface has an operation
/// of the name it gives.
pub open spec fn resolves(
    call: IncomingCallView,
    registry: Map<Seq<char>, DeviceView>,
    interface: InterfaceView,
) -> bool {
    &&& registry.contains_key(call.path)
    &&& call.interface == interface.name
    &&& interface.operations.contains_key(call.operation)
}

/// The outcome of a call: the most specific error that applies, looked for
/// in the order object, interface, operation, arguments; or, where none
/// applies, what the handler of the operation hands back.
pub open spec fn dispatch_spec(
    call: IncomingCallView,
    registry: Map<Seq<char>, DeviceView>,
    interface: InterfaceView,
) -> DispatchOutcomeView {
    if !registry.contains_key(call.path) {
        DispatchOutcomeView::UnknownObjectError
    } else if call.interface != interface.name {
        DispatchOutcomeView::UnknownInterfaceError
    } else if !interface.operations.contains_key(call.operation) {
        DispatchOutcomeView::UnknownMethodError
    } else if !conforms(call.arguments, interface.operations[call.operation].inputs) {
        DispatchOutcomeView::ArgumentTypeError
    } else {
        DispatchOutcomeView::Reply(
            handler_output(interface.operations[call.operation].handler, call.arguments),
        )
    }
}

/// Routes `call` to its operation and runs it.
///
/// The record is looked up first, then the interface is compared, then the
/// operation is looked up, then the arguments are held against the declared
/// types: the caller learns of the first of these that fails.
pub fn dispatch(call: &IncomingCall, registry: &Registry, interface: &Interface) -> (outcome:
    DispatchOutcome)
    ensures
        outcome@ == dispatch_spec(call@, registry@, interface@),
        !registry@.contains_key(call@.path) ==> outcome@ is UnknownObjectError,
        registry@.contains_key(call@.path) && call@.interface != interface@.name ==> outcome@
            is UnknownInterfaceError,
        registry@.contains_key(call@.path) && call@.interface == interface@.name
            && !interface@.operations.contains_key(call@.operation) ==> outcome@
            is UnknownMethodError,
        resolves(call@, registry@, interface@) && !conforms(
            call@.arguments,
            interface@.operations[call@.operation].inputs,
        ) ==> outcome@ is ArgumentTypeError,
        resolves(call@, registry@, interface@) && conforms(
            call@.arguments,
            interface@.operations[call@.operation].inputs,
        ) ==> outcome@ == DispatchOutcomeView::Reply(
            handler_output(interface@.operations[call@.operation].handler, call@.arguments),
        ),
        !(outcome@ is HandlerError),
{
    let device = match registry.lookup(call.path.as_str()) {
        Some(device) => device,
        None => {
            return DispatchOutcome::UnknownObjectError;
        },
    };
    if !same_text(call.interface.as_str(), interface.name()) {
        return DispatchOutcome::UnknownInterfaceError;
    }
    let operation = match interface.lookup(call.operation.as_str()) {
        Some(operation) => operation,
        None => {
            return DispatchOutcome::UnknownMethodError;
        },
    };
    if !check_conforms(&call.arguments, operation.inputs()) {
        return DispatchOutcome::ArgumentTypeError;
    }
    match invoke(operation.handler(), device, &call.arguments) {
        Ok(output) => DispatchOutcome::Reply(output),
        Err(message) => DispatchOutcome::HandlerError(message),
    }
}

/// The outcome of a call depends on what is asked alone: two calls to the
/// same path, interface and operation with the same arguments end the same
/// way, whoever sent them, under whatever serial, and whether or not a reply
/// is expected. So a call that is repeated is answered as it was before.
pub proof fn dispatch_depends_on_the_request_alone(
    first: IncomingCallView,
    second: IncomingCallView,
    registry: Map<Seq<char>, DeviceView>,
    interface: InterfaceView,
)
    requires
        first.path == second.path,
        first.interface == second.interface,
        first.operation == second.operation,
        first.arguments == second.arguments,
    ensures
        dispatch_spec(first, registry, interface) == dispatch_spec(second, registry, interface),
{
}

/// The values of a reply are of the types that the operation declares for
/// its output, in order.
pub proof fn reply_conforms_to_declared_outputs(
    call: IncomingCallView,
    registry: Map<Seq<char>, DeviceView>,
    interface: InterfaceView,
)
    requires
        interface.well_formed(),
        dispatch_spec(call, registry, interface) is Reply,
    ensures
        conforms(
            dispatch_spec(call, registry, interface)->Reply_0.values,
            interface.operations[call.operation].outputs,
        ),
{
}

} // verus!
