//! The service as it is set up at startup: the launcher interface, and the
//! tree that exposes the record under it.

use vstd::prelude::*;
use crate::device::{Device, DeviceView, Registry};
use crate::dispatch::{dispatch, dispatch_spec, IncomingCall};
use crate::handlers::Handler;
use crate::interface::{define_interface, Interface, InterfaceView, OperationView};
use crate::reply::{respond, respond_spec, Response};

verus! {

/// What an operation of the launcher interface is: filed under `name`, with
/// the types of its handler.
pub open spec fn launcher_operation(name: Seq<char>, handler: Handler) -> OperationView {
    OperationView {
        name,
        inputs: handler.input_types(),
        outputs: handler.output_types(),
        handler,
    }
}

/// The launcher interface: `Actions`, `Run` and `Match`.
pub open spec fn launcher_interface() -> InterfaceView {
    InterfaceView {
        name: "org.kde.krunner1"@,
        operations: Map::<Seq<char>, OperationView>::empty().insert(
            "Actions"@,
            launcher_operation("Actions"@, Handler::Actions),
        ).insert("Run"@, launcher_operation("Run"@, Handler::Run)).insert(
            "Match"@,
            launcher_operation("Match"@, Handler::Match),
        ),
    }
}

/// Defines the launcher interface.
pub fn create_iface() -> (iface: Interface)
    ensures
        iface@ == launcher_interface(),
        iface@.well_formed(),
{
    proof {
        reveal_strlit("Actions");
        reveal_strlit("Run");
        reveal_strlit("Match");
    }
    let builder = define_interface(String::from_str("org.kde.krunner1"));
    let builder = builder.add_operation(
        String::from_str("Actions"),
        Handler::Actions.inputs(),
        Handler::Actions.outputs(),
        Handler::Actions,
    ).unwrap();
    assert("Run"@.len() != "Actions"@.len());
    let builder = builder.add_operation(
        String::from_str("Run"),
        Handler::Run.inputs(),
        Handler::Run.outputs(),
        Handler::Run,
    ).unwrap();
    assert("Match"@.len() != "Actions"@.len());
    assert("Match"@.len() != "Run"@.len());
    let builder = builder.add_operation(
        String::from_str("Match"),
        Handler::Match.inputs(),
        Handler::Match.outputs(),
        Handler::Match,
    ).unwrap();
    builder.build()
}

/// The records of a service and the interface that each of them exposes.
pub struct Tree {
    registry: Registry,
    interface: Interface,
}

/// What a `Tree` is, over views.
pub ghost struct TreeView {
    pub registry: Map<Seq<char>, DeviceView>,
    pub interface: InterfaceView,
}

impl View for Tree {
    type V = TreeView;

    closed spec fn view(&self) -> TreeView {
        TreeView { registry: self.registry@, interface: self.interface@ }
    }
}

/// The tree that exposes `device`, and nothing else, under `iface`.
pub fn create_tree(device: Device, iface: Interface) -> (tree: Tree)
    ensures
        tree@.registry == Map::<Seq<char>, DeviceView>::empty().insert(device@.path, device@),
        tree@.interface == iface@,
{
    Tree { registry: Registry::new().with(device), interface: iface }
}

impl Tree {
    pub fn registry(&self) -> (registry: &Registry)
        ensures
            registry@ == self@.registry,
    {
        &self.registry
    }

    pub fn interface(&self) -> (interface: &Interface)
        ensures
            interface@ == self@.interface,
    {
        &self.interface
    }

    /// Dispatches `call` and says what the transport is to do for it.
    pub fn handle(&self, call: &IncomingCall) -> (response: Response)
        ensures
            response@ == respond_spec(
                call@,
                dispatch_spec(call@, self@.registry, self@.interface),
            ),
            response.reply is Some <==> call.expects_reply,
    {
        respond(call, dispatch(call, &self.registry, &self.interface))
    }
}

} // verus!
