//! A launcher plugin service: the objects it exposes on the message bus, the
//! interface with its three operations, the dispatcher that routes an incoming
//! call to an operation, and the serve loop's state machine.

pub mod device;
pub mod dispatch;
pub mod handlers;
pub mod interface;
pub mod path;
pub mod reply;
pub mod serve;
pub mod service;
pub mod text;
pub mod value;
