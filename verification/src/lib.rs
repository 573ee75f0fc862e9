//! An IPC object-dispatch registry: it maps an incoming request's
//! (object path, interface name, member name) triple to a concrete handler
//! instance and invokes it, collecting the replies.
//!
//! The registry keeps two tables: interface name to (type tag, interface
//! description), and object path to the ordered bag of tagged instances
//! that live at that path.  A builtin properties interface, seeded at
//! construction, re-enters the same tables keyed by property name.

pub mod bytes;
pub mod names;
pub mod value;
pub mod message;
pub mod info;
pub mod table;
pub mod crossroads;
pub mod stdimpl;

pub use crate::names::{PathName, InterfaceName, MemberName};
pub use crate::value::Value;
pub use crate::message::{Message, MessageKind, ErrorName, MsgHeaders, msg_headers};
pub use crate::info::{TypeTag, Access, MethodInfo, PropInfo, IfaceInfo};
pub use crate::crossroads::{Crossroads, PathData, Instance};
pub use crate::stdimpl::DBusProperties;
