//! The request/reply message abstraction the dispatcher works on.
//!
//! Wire-level encoding and I/O are outside this crate; a message here is a
//! plain value holding a kind, the three routing headers, a serial, and a
//! sequence of typed arguments.  Replies and error replies are constructed
//! pre-addressed to the request's origin through its serial.

use vstd::prelude::*;
use crate::names::{PathName, InterfaceName, MemberName};
use crate::value::Value;

verus! {

/// The kind of a message; only method calls are dispatched.
#[derive(Clone, Copy, Debug, PartialEq, Eq, Structural)]
pub enum MessageKind {
    MethodCall,
    MethodReturn,
    Error,
    Signal,
}

/// The name carried by a standard error reply.
#[derive(Clone, Copy, Debug, PartialEq, Eq, Structural)]
pub enum ErrorName {
    InvalidArgs,
    UnknownInterface,
    UnknownProperty,
    WrongAccess,
    Failed,
}

/// One request or reply message.
pub struct Message {
    pub kind: MessageKind,
    pub path: Option<PathName>,
    pub interface: Option<InterfaceName>,
    pub member: Option<MemberName>,
    pub error: Option<ErrorName>,
    pub serial: u64,
    pub reply_serial: Option<u64>,
    pub args: Vec<Value>,
}

impl Message {
    /// A fresh method call addressed by path, interface and member.
    pub fn new_method_call(path: PathName, interface: InterfaceName, member: MemberName) -> (r:
        Message)
        ensures
            r.kind is MethodCall,
            r.path == Some(path),
            r.interface == Some(interface),
            r.member == Some(member),
            r.error is None,
            r.serial == 0,
            r.reply_serial is None,
            r.args@ == Seq::<Value>::empty(),
    {
        Message {
            kind: MessageKind::MethodCall,
            path: Some(path),
            interface: Some(interface),
            member: Some(member),
            error: None,
            serial: 0,
            reply_serial: None,
            args: Vec::new(),
        }
    }

    /// Stamps the message with a serial number.
    pub fn set_serial(&mut self, serial: u64)
        ensures
            *final(self) == (Message { serial, ..*old(self) }),
    {
        self.serial = serial;
    }

    /// A reply pre-addressed to this request's origin, with no arguments
    /// appended yet.
    pub fn method_return(&self) -> (r: Message)
        ensures
            is_return_to(r, *self),
            r.args@ == Seq::<Value>::empty(),
    {
        Message {
            kind: MessageKind::MethodReturn,
            path: None,
            interface: None,
            member: None,
            error: None,
            serial: 0,
            reply_serial: Some(self.serial),
            args: Vec::new(),
        }
    }

    /// A standard error reply to this request, carrying an error name and a
    /// describing text.
    pub fn error_reply(&self, name: ErrorName, text: Vec<u8>) -> (r: Message)
        ensures
            is_error_reply_to(r, *self, name, text@),
    {
        let mut args: Vec<Value> = Vec::new();
        args.push(Value::Str(text));
        Message {
            kind: MessageKind::Error,
            path: None,
            interface: None,
            member: None,
            error: Some(name),
            serial: 0,
            reply_serial: Some(self.serial),
            args,
        }
    }

    /// The same message with one more argument appended.
    pub fn append1(self, v: Value) -> (r: Message)
        ensures
            r == (Message { args: r.args, ..self }),
            r.args@ == self.args@.push(v),
    {
        let mut m = self;
        m.args.push(v);
        m
    }

    /// The same message with two more arguments appended.
    pub fn append2(self, v1: Value, v2: Value) -> (r: Message)
        ensures
            r == (Message { args: r.args, ..self }),
            r.args@ == self.args@.push(v1).push(v2),
    {
        let mut m = self;
        m.args.push(v1);
        m.args.push(v2);
        m
    }

    /// The first argument, if there is one.
    pub fn read1(&self) -> (r: Option<&Value>)
        ensures
            r is Some <==> self.args@.len() >= 1,
            r matches Some(v) ==> *v == self.args@[0],
    {
        if self.args.len() >= 1 {
            Some(&self.args[0])
        } else {
            None
        }
    }
}

/// `r` is a normal reply addressed back to the origin of `req`.
pub open spec fn is_return_to(r: Message, req: Message) -> bool {
    &&& r.kind is MethodReturn
    &&& r.path is None
    &&& r.interface is None
    &&& r.member is None
    &&& r.error is None
    &&& r.serial == 0
    &&& r.reply_serial == Some(req.serial)
}

/// `r` is a standard error reply addressed back to the origin of `req`,
/// named `name` and describing `text`.
pub open spec fn is_error_reply_to(r: Message, req: Message, name: ErrorName, text: Seq<u8>) -> bool {
    &&& r.kind is Error
    &&& r.path is None
    &&& r.interface is None
    &&& r.member is None
    &&& r.error == Some(name)
    &&& r.serial == 0
    &&& r.reply_serial == Some(req.serial)
    &&& r.args@.len() == 1
    &&& r.args@[0] matches Value::Str(t) && t@ == text
}

/// The three routing headers of a dispatchable method call.
pub struct MsgHeaders {
    pub p: PathName,
    pub i: InterfaceName,
    pub m: MemberName,
}

/// The message is a method call and carries all three routing headers.
pub open spec fn has_headers(m: Message) -> bool {
    &&& m.kind is MethodCall
    &&& m.path is Some
    &&& m.interface is Some
    &&& m.member is Some
}

/// Extracts the three routing headers of a method call; any other message
/// kind, or any missing header, yields nothing.
pub fn msg_headers(msg: &Message) -> (r: Option<MsgHeaders>)
    ensures
        r is Some <==> has_headers(*msg),
        r matches Some(h) ==> h.p@ == msg.path->0@ && h.i@ == msg.interface->0@ && h.m@
            == msg.member->0@,
{
    if !matches!(msg.kind, MessageKind::MethodCall) {
        return None;
    }
    let p = match &msg.path {
        Some(p) => p.dup(),
        None => { return None; },
    };
    let i = match &msg.interface {
        Some(i) => i.dup(),
        None => { return None; },
    };
    let m = match &msg.member {
        Some(m) => m.dup(),
        None => { return None; },
    };
    Some(MsgHeaders { p, i, m })
}

} // verus!
