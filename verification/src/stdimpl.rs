//! The builtin properties interface: a handler seeded into every fresh
//! registry that reinterprets `Get`, `Set` and `GetAll` method calls as
//! string-keyed lookups into the same registry and path table, keyed by
//! property name within the target interface's property list rather than
//! by the calling member name.

use vstd::prelude::*;
use crate::bytes::{bytes_eq, copy_bytes};
use crate::names::{InterfaceName, MemberName};
use crate::value::Value;
use crate::message::{Message, ErrorName, is_return_to, is_error_reply_to};
use crate::info::{TypeTag, Access, readable, writable, MethodInfo, IfaceInfo, find_prop_spec};
use crate::crossroads::{Crossroads, PathData, Instance, find_tagged};
use crate::table::table_insert;

verus! {

/// The byte form of the builtin interface's name,
/// `org.freedesktop.DBus.Properties`.
pub open spec fn properties_iface() -> Seq<u8> {
    seq![
        111u8, 114u8, 103u8, 46u8, 102u8, 114u8, 101u8, 101u8, 100u8, 101u8, 115u8, 107u8, 116u8,
        111u8, 112u8, 46u8, 68u8, 66u8, 117u8, 115u8, 46u8, 80u8, 114u8, 111u8, 112u8, 101u8,
        114u8, 116u8, 105u8, 101u8, 115u8,
    ]
}

/// The byte form of the member name `Get`.
pub open spec fn member_get() -> Seq<u8> {
    seq![71u8, 101u8, 116u8]
}

/// The byte form of the member name `Set`.
pub open spec fn member_set() -> Seq<u8> {
    seq![83u8, 101u8, 116u8]
}

/// The byte form of the member name `GetAll`.
pub open spec fn member_get_all() -> Seq<u8> {
    seq![71u8, 101u8, 116u8, 65u8, 108u8, 108u8]
}

fn properties_iface_vec() -> (r: Vec<u8>)
    ensures
        r@ == properties_iface(),
{
    let mut v: Vec<u8> = Vec::new();
    v.push(111);
    v.push(114);
    v.push(103);
    v.push(46);
    v.push(102);
    v.push(114);
    v.push(101);
    v.push(101);
    v.push(100);
    v.push(101);
    v.push(115);
    v.push(107);
    v.push(116);
    v.push(111);
    v.push(112);
    v.push(46);
    v.push(68);
    v.push(66);
    v.push(117);
    v.push(115);
    v.push(46);
    v.push(80);
    v.push(114);
    v.push(111);
    v.push(112);
    v.push(101);
    v.push(114);
    v.push(116);
    v.push(105);
    v.push(101);
    v.push(115);
    proof {
        assert(v@ =~= properties_iface());
    }
    v
}

fn member_get_vec() -> (r: Vec<u8>)
    ensures
        r@ == member_get(),
{
    let mut v: Vec<u8> = Vec::new();
    v.push(71);
    v.push(101);
    v.push(116);
    proof {
        assert(v@ =~= member_get());
    }
    v
}

fn member_set_vec() -> (r: Vec<u8>)
    ensures
        r@ == member_set(),
{
    let mut v: Vec<u8> = Vec::new();
    v.push(83);
    v.push(101);
    v.push(116);
    proof {
        assert(v@ =~= member_set());
    }
    v
}

fn member_get_all_vec() -> (r: Vec<u8>)
    ensures
        r@ == member_get_all(),
{
    let mut v: Vec<u8> = Vec::new();
    v.push(71);
    v.push(101);
    v.push(116);
    v.push(65);
    v.push(108);
    v.push(108);
    proof {
        assert(v@ =~= member_get_all());
    }
    v
}

/// The interface description seeded for the builtin interface: named
/// `org.freedesktop.DBus.Properties`, with methods `Get`, `Set` and
/// `GetAll` and no properties of its own.
pub open spec fn is_properties_info(info: IfaceInfo) -> bool {
    &&& info.name@ == properties_iface()
    &&& info.methods@.len() == 3
    &&& info.methods@[0].name@ == member_get()
    &&& info.methods@[1].name@ == member_set()
    &&& info.methods@[2].name@ == member_get_all()
    &&& info.props@.len() == 0
}

/// The builtin implementation type backing the properties interface.  An
/// instance of it is placed at each path whose objects should answer
/// property calls; its handlers re-enter the registry that dispatched to
/// them.
pub struct DBusProperties;

impl DBusProperties {
    /// Seeds the builtin properties interface into `cr` under the
    /// reserved type tag `TypeTag(0)`.
    pub fn register<I: Instance>(cr: &mut Crossroads<I>)
        ensures
            final(cr).reg_model() == table_insert(
                old(cr).reg_model(),
                properties_iface(),
                final(cr).iface_lookup(properties_iface())->0,
            ),
            final(cr).iface_lookup(properties_iface()) matches Some(e) && e.0 == TypeTag(0)
                && is_properties_info(e.1),
            forall|n: Seq<u8>|
                n != properties_iface() ==> final(cr).iface_lookup(n) == old(cr).iface_lookup(n),
            final(cr).paths_model() == old(cr).paths_model(),
            old(cr).wf() ==> final(cr).wf(),
    {
        let name = InterfaceName::from_raw(properties_iface_vec());
        let mut methods: Vec<MethodInfo> = Vec::new();
        methods.push(MethodInfo::new(MemberName::from_raw(member_get_vec())));
        methods.push(MethodInfo::new(MemberName::from_raw(member_set_vec())));
        methods.push(MethodInfo::new(MemberName::from_raw(member_get_all_vec())));
        let info = IfaceInfo::new(name, methods, Vec::new());
        let _prev = cr.register(TypeTag(0), info);
    }
}

impl Instance for DBusProperties {
    /// The reserved tag of the builtin properties implementation.
    open spec fn tag_spec(&self) -> TypeTag {
        TypeTag(0)
    }

    fn type_tag(&self) -> (t: TypeTag) {
        TypeTag(0)
    }

    /// The bridge behavior for a registry whose only instance type is the
    /// builtin handler itself.  Its own getter always declines and its
    /// setter always refuses, so the re-entrant calls are resolved in
    /// place rather than through the trait (which could not terminate
    /// through itself); the outcome contracts are the same ones
    /// `properties_call` meets.
    fn call_method(&self, msg: &Message, cr: &Crossroads<DBusProperties>, data: &PathData<
        DBusProperties,
    >) -> (r: Option<Message>)
        ensures
            msg.member is None ==> r is None,
            msg.member matches Some(m) ==> {
                if m@ == member_get() {
                    get_outcome(r, *msg, *cr, data@)
                } else if m@ == member_set() {
                    set_outcome(r, *msg, *cr, data@)
                } else if m@ == member_get_all() {
                    get_all_outcome(r, *msg, *cr, data@)
                } else {
                    r is None
                }
            },
    {
        let m = match &msg.member {
            Some(m) => m,
            None => { return None; },
        };
        let get_n = member_get_vec();
        let set_n = member_set_vec();
        let get_all_n = member_get_all_vec();
        if bytes_eq(m.as_bytes(), &get_n) {
            builtin_get(msg, cr, data)
        } else if bytes_eq(m.as_bytes(), &set_n) {
            builtin_set(msg, cr, data)
        } else if bytes_eq(m.as_bytes(), &get_all_n) {
            builtin_get_all(msg, cr, data)
        } else {
            None
        }
    }

    /// The builtin interface has no properties of its own.
    fn get_prop(&self, prop: &Vec<u8>, msg: &Message) -> Option<Value> {
        None
    }

    /// The builtin interface has no properties of its own.
    fn set_prop(&self, prop: &Vec<u8>, value: &Value, msg: &Message) -> bool {
        false
    }
}

/// The byte form of a string-valued argument, if it is one.
pub open spec fn str_arg(v: Value) -> Option<Seq<u8>> {
    match v {
        Value::Str(b) => Some(b@),
        _ => None,
    }
}

/// The (interface name, property name) arguments of a `Get` call, if the
/// call carries exactly those two string arguments.
pub open spec fn get_args(m: Message) -> Option<(Seq<u8>, Seq<u8>)> {
    if m.args@.len() == 2 && str_arg(m.args@[0]) is Some && str_arg(m.args@[1]) is Some {
        Some((str_arg(m.args@[0])->0, str_arg(m.args@[1])->0))
    } else {
        None
    }
}

/// The (interface name, property name, value) arguments of a `Set` call,
/// if the call carries exactly those three arguments.
pub open spec fn set_args(m: Message) -> Option<(Seq<u8>, Seq<u8>, Value)> {
    if m.args@.len() == 3 && str_arg(m.args@[0]) is Some && str_arg(m.args@[1]) is Some {
        Some((str_arg(m.args@[0])->0, str_arg(m.args@[1])->0, m.args@[2]))
    } else {
        None
    }
}

/// The interface-name argument of a `GetAll` call, if the call carries
/// exactly that one string argument.
pub open spec fn get_all_args(m: Message) -> Option<Seq<u8>> {
    if m.args@.len() == 1 && str_arg(m.args@[0]) is Some {
        Some(str_arg(m.args@[0])->0)
    } else {
        None
    }
}

/// How a (interface name, property name) pair resolves against the
/// registry and one path's data.
pub enum PropResolution<I> {
    /// The interface name is not registered.
    UnknownInterface,
    /// The interface is registered but lists no property of that name.
    UnknownProperty,
    /// No instance at the path bears the interface's type tag.
    NoInstance,
    /// The first matching property's access mode, and the backing
    /// instance.
    Found(Access, I),
}

/// Resolves a property call's string arguments: interface lookup in the
/// registry, property scan in the interface's description, then instance
/// lookup by the registered type tag — the same mechanism the dispatcher
/// itself uses, but keyed by property name.
pub open spec fn resolve_prop<I>(
    cr: Crossroads<I>,
    d: Seq<(TypeTag, I)>,
    iname: Seq<u8>,
    pname: Seq<u8>,
) -> PropResolution<I> {
    match cr.iface_lookup(iname) {
        None => PropResolution::UnknownInterface,
        Some((tag, info)) => match find_prop_spec(info.props@, pname) {
            None => PropResolution::UnknownProperty,
            Some(acc) => match find_tagged(d, tag) {
                None => PropResolution::NoInstance,
                Some(inst) => PropResolution::Found(acc, inst),
            },
        },
    }
}

/// How the interface argument of a `GetAll` call resolves.
pub enum IfaceResolution<I> {
    /// The interface name is not registered.
    UnknownInterface,
    /// No instance at the path bears the interface's type tag.
    NoInstance,
    /// The interface's description and the backing instance.
    Found(IfaceInfo, I),
}

/// Resolves a `GetAll` call's interface argument against the registry and
/// one path's data.
pub open spec fn resolve_iface<I>(
    cr: Crossroads<I>,
    d: Seq<(TypeTag, I)>,
    iname: Seq<u8>,
) -> IfaceResolution<I> {
    match cr.iface_lookup(iname) {
        None => IfaceResolution::UnknownInterface,
        Some((tag, info)) => match find_tagged(d, tag) {
            None => IfaceResolution::NoInstance,
            Some(inst) => IfaceResolution::Found(info, inst),
        },
    }
}

/// A reply wrapping one value in a self-describing envelope.
pub open spec fn is_variant_reply_to(r: Message, req: Message) -> bool {
    &&& is_return_to(r, req)
    &&& r.args@.len() == 1
    &&& r.args@[0] is Variant
}

/// What `properties_get` replies: a standard error reply for malformed
/// arguments, an unknown interface, an unknown property, a missing
/// backing instance or an unreadable property; else whatever the backing
/// instance's getter yields, wrapped in an envelope, or no reply at all
/// if the getter declines.
pub open spec fn get_outcome<I>(
    r: Option<Message>,
    msg: Message,
    cr: Crossroads<I>,
    d: Seq<(TypeTag, I)>,
) -> bool {
    match get_args(msg) {
        None => r matches Some(e) && is_error_reply_to(
            e,
            msg,
            ErrorName::InvalidArgs,
            Seq::empty(),
        ),
        Some(a) => match resolve_prop(cr, d, a.0, a.1) {
            PropResolution::UnknownInterface => r matches Some(e) && is_error_reply_to(
                e,
                msg,
                ErrorName::UnknownInterface,
                a.0,
            ),
            PropResolution::UnknownProperty => r matches Some(e) && is_error_reply_to(
                e,
                msg,
                ErrorName::UnknownProperty,
                a.1,
            ),
            PropResolution::NoInstance => r matches Some(e) && is_error_reply_to(
                e,
                msg,
                ErrorName::UnknownInterface,
                a.0,
            ),
            PropResolution::Found(acc, _) => if !readable(acc) {
                r matches Some(e) && is_error_reply_to(e, msg, ErrorName::WrongAccess, a.1)
            } else {
                r matches Some(e) ==> is_variant_reply_to(e, msg)
            },
        },
    }
}

/// What `properties_set` replies: a standard error reply for malformed
/// arguments, an unknown interface, an unknown property, a missing
/// backing instance or an unwritable property; else an empty reply if the
/// backing instance accepts the write, and an error reply if it refuses.
pub open spec fn set_outcome<I>(
    r: Option<Message>,
    msg: Message,
    cr: Crossroads<I>,
    d: Seq<(TypeTag, I)>,
) -> bool {
    match set_args(msg) {
        None => r matches Some(e) && is_error_reply_to(
            e,
            msg,
            ErrorName::InvalidArgs,
            Seq::empty(),
        ),
        Some(a) => match resolve_prop(cr, d, a.0, a.1) {
            PropResolution::UnknownInterface => r matches Some(e) && is_error_reply_to(
                e,
                msg,
                ErrorName::UnknownInterface,
                a.0,
            ),
            PropResolution::UnknownProperty => r matches Some(e) && is_error_reply_to(
                e,
                msg,
                ErrorName::UnknownProperty,
                a.1,
            ),
            PropResolution::NoInstance => r matches Some(e) && is_error_reply_to(
                e,
                msg,
                ErrorName::UnknownInterface,
                a.0,
            ),
            PropResolution::Found(acc, _) => if !writable(acc) {
                r matches Some(e) && is_error_reply_to(e, msg, ErrorName::WrongAccess, a.1)
            } else {
                r matches Some(e) && ((is_return_to(e, msg) && e.args@.len() == 0)
                    || is_error_reply_to(e, msg, ErrorName::Failed, a.1))
            },
        },
    }
}

/// What `properties_get_all` replies: a standard error reply for
/// malformed arguments, an unknown interface or a missing backing
/// instance; else a normal reply listing (name, envelope) pairs for the
/// readable properties whose getters yield a value.
pub open spec fn get_all_outcome<I>(
    r: Option<Message>,
    msg: Message,
    cr: Crossroads<I>,
    d: Seq<(TypeTag, I)>,
) -> bool {
    match get_all_args(msg) {
        None => r matches Some(e) && is_error_reply_to(
            e,
            msg,
            ErrorName::InvalidArgs,
            Seq::empty(),
        ),
        Some(iname) => match resolve_iface(cr, d, iname) {
            IfaceResolution::UnknownInterface => r matches Some(e) && is_error_reply_to(
                e,
                msg,
                ErrorName::UnknownInterface,
                iname,
            ),
            IfaceResolution::NoInstance => r matches Some(e) && is_error_reply_to(
                e,
                msg,
                ErrorName::UnknownInterface,
                iname,
            ),
            IfaceResolution::Found(_, _) => r matches Some(e) && is_return_to(e, msg)
                && is_prop_listing(e.args@),
        },
    }
}

/// An alternating (property name, envelope) listing, as `GetAll` replies
/// carry it.
pub open spec fn is_prop_listing(args: Seq<Value>) -> bool {
    &&& args.len() % 2 == 0
    &&& forall|i: int|
        0 <= i < args.len() ==> if i % 2 == 0 {
            (#[trigger] args[i]) is Str
        } else {
            args[i] is Variant
        }
}

fn access_readable(a: Access) -> (r: bool)
    ensures
        r == readable(a),
{
    match a {
        Access::Read => true,
        Access::ReadWrite => true,
        Access::Write => false,
    }
}

fn access_writable(a: Access) -> (r: bool)
    ensures
        r == writable(a),
{
    match a {
        Access::Read => false,
        Access::ReadWrite => true,
        Access::Write => true,
    }
}

/// Builds the reply to a permitted property read, from whatever the
/// backing instance's getter yielded: a value is wrapped in a
/// self-describing envelope and addressed back to the request's origin;
/// no value, no reply.
pub fn wrap_get_result(v: Option<Value>, msg: &Message) -> (r: Option<Message>)
    ensures
        r is Some <==> v is Some,
        v matches Some(v0) ==> r matches Some(e) && is_variant_reply_to(e, *msg) && (
        e.args@[0] matches Value::Variant(b) && *b == v0),
{
    match v {
        Some(v0) => Some(msg.method_return().append1(Value::Variant(Box::new(v0)))),
        None => None,
    }
}

/// Builds the reply to a permitted property write, from whether the
/// backing instance accepted it: an empty reply on acceptance, an error
/// reply naming the property on refusal.
pub fn wrap_set_result(accepted: bool, msg: &Message, pname: &Vec<u8>) -> (r: Message)
    ensures
        accepted ==> is_return_to(r, *msg) && r.args@.len() == 0,
        !accepted ==> is_error_reply_to(r, *msg, ErrorName::Failed, pname@),
{
    if accepted {
        msg.method_return()
    } else {
        msg.error_reply(ErrorName::Failed, copy_bytes(pname))
    }
}

/// Handles a properties `Get` call.
pub fn properties_get<I: Instance>(msg: &Message, cr: &Crossroads<I>, data: &PathData<I>) -> (r:
    Option<Message>)
    ensures
        get_outcome(r, *msg, *cr, data@),
{
    if msg.args.len() != 2 {
        return Some(msg.error_reply(ErrorName::InvalidArgs, Vec::new()));
    }
    let iname: &Vec<u8> = match &msg.args[0] {
        Value::Str(b) => b,
        _ => { return Some(msg.error_reply(ErrorName::InvalidArgs, Vec::new())); },
    };
    let pname: &Vec<u8> = match &msg.args[1] {
        Value::Str(b) => b,
        _ => { return Some(msg.error_reply(ErrorName::InvalidArgs, Vec::new())); },
    };
    let (tag, info) = match cr.lookup(iname) {
        Some(e) => e,
        None => {
            return Some(msg.error_reply(ErrorName::UnknownInterface, copy_bytes(iname)));
        },
    };
    let acc = match info.find_prop(pname) {
        Some(a) => a,
        None => { return Some(msg.error_reply(ErrorName::UnknownProperty, copy_bytes(pname))); },
    };
    let inst = match data.find(tag) {
        Some(i) => i,
        None => {
            return Some(msg.error_reply(ErrorName::UnknownInterface, copy_bytes(iname)));
        },
    };
    if !access_readable(acc) {
        return Some(msg.error_reply(ErrorName::WrongAccess, copy_bytes(pname)));
    }
    wrap_get_result(inst.get_prop(pname, msg), msg)
}

/// Handles a properties `Set` call.
pub fn properties_set<I: Instance>(msg: &Message, cr: &Crossroads<I>, data: &PathData<I>) -> (r:
    Option<Message>)
    ensures
        set_outcome(r, *msg, *cr, data@),
{
    if msg.args.len() != 3 {
        return Some(msg.error_reply(ErrorName::InvalidArgs, Vec::new()));
    }
    let iname: &Vec<u8> = match &msg.args[0] {
        Value::Str(b) => b,
        _ => { return Some(msg.error_reply(ErrorName::InvalidArgs, Vec::new())); },
    };
    let pname: &Vec<u8> = match &msg.args[1] {
        Value::Str(b) => b,
        _ => { return Some(msg.error_reply(ErrorName::InvalidArgs, Vec::new())); },
    };
    let value: &Value = &msg.args[2];
    let (tag, info) = match cr.lookup(iname) {
        Some(e) => e,
        None => {
            return Some(msg.error_reply(ErrorName::UnknownInterface, copy_bytes(iname)));
        },
    };
    let acc = match info.find_prop(pname) {
        Some(a) => a,
        None => { return Some(msg.error_reply(ErrorName::UnknownProperty, copy_bytes(pname))); },
    };
    let inst = match data.find(tag) {
        Some(i) => i,
        None => {
            return Some(msg.error_reply(ErrorName::UnknownInterface, copy_bytes(iname)));
        },
    };
    if !access_writable(acc) {
        return Some(msg.error_reply(ErrorName::WrongAccess, copy_bytes(pname)));
    }
    Some(wrap_set_result(inst.set_prop(pname, value, msg), msg, pname))
}

/// Handles a properties `GetAll` call.
pub fn properties_get_all<I: Instance>(msg: &Message, cr: &Crossroads<I>, data: &PathData<I>) -> (r:
    Option<Message>)
    ensures
        get_all_outcome(r, *msg, *cr, data@),
{
    if msg.args.len() != 1 {
        return Some(msg.error_reply(ErrorName::InvalidArgs, Vec::new()));
    }
    let iname: &Vec<u8> = match &msg.args[0] {
        Value::Str(b) => b,
        _ => { return Some(msg.error_reply(ErrorName::InvalidArgs, Vec::new())); },
    };
    let (tag, info) = match cr.lookup(iname) {
        Some(e) => e,
        None => {
            return Some(msg.error_reply(ErrorName::UnknownInterface, copy_bytes(iname)));
        },
    };
    let inst = match data.find(tag) {
        Some(i) => i,
        None => {
            return Some(msg.error_reply(ErrorName::UnknownInterface, copy_bytes(iname)));
        },
    };
    let mut reply = msg.method_return();
    let n = info.props.len();
    let mut j: usize = 0;
    while j < n
        invariant
            n == info.props.len(),
            j <= n,
            is_return_to(reply, *msg),
            is_prop_listing(reply.args@),
        decreases n - j,
    {
        let p = &info.props[j];
        if access_readable(p.access) {
            match inst.get_prop(p.name.as_bytes(), msg) {
                Some(v) => {
                    reply = reply.append2(
                        Value::Str(copy_bytes(p.name.as_bytes())),
                        Value::Variant(Box::new(v)),
                    );
                },
                None => {},
            }
        }
        j += 1;
    }
    Some(reply)
}

/// The builtin properties handler's method dispatch: `Get`, `Set` and
/// `GetAll` are handled; any other member yields no reply.
pub fn properties_call<I: Instance>(msg: &Message, cr: &Crossroads<I>, data: &PathData<I>) -> (r:
    Option<Message>)
    ensures
        msg.member is None ==> r is None,
        msg.member matches Some(m) ==> {
            if m@ == member_get() {
                get_outcome(r, *msg, *cr, data@)
            } else if m@ == member_set() {
                set_outcome(r, *msg, *cr, data@)
            } else if m@ == member_get_all() {
                get_all_outcome(r, *msg, *cr, data@)
            } else {
                r is None
            }
        },
{
    let m = match &msg.member {
        Some(m) => m,
        None => { return None; },
    };
    let get_n = member_get_vec();
    let set_n = member_set_vec();
    let get_all_n = member_get_all_vec();
    if bytes_eq(m.as_bytes(), &get_n) {
        properties_get(msg, cr, data)
    } else if bytes_eq(m.as_bytes(), &set_n) {
        properties_set(msg, cr, data)
    } else if bytes_eq(m.as_bytes(), &get_all_n) {
        properties_get_all(msg, cr, data)
    } else {
        None
    }
}

/// `properties_get` for a registry holding builtin handlers alone, whose
/// getters always decline.
fn builtin_get(msg: &Message, cr: &Crossroads<DBusProperties>, data: &PathData<DBusProperties>)
    -> (r: Option<Message>)
    ensures
        get_outcome(r, *msg, *cr, data@),
{
    if msg.args.len() != 2 {
        return Some(msg.error_reply(ErrorName::InvalidArgs, Vec::new()));
    }
    let iname: &Vec<u8> = match &msg.args[0] {
        Value::Str(b) => b,
        _ => { return Some(msg.error_reply(ErrorName::InvalidArgs, Vec::new())); },
    };
    let pname: &Vec<u8> = match &msg.args[1] {
        Value::Str(b) => b,
        _ => { return Some(msg.error_reply(ErrorName::InvalidArgs, Vec::new())); },
    };
    let (tag, info) = match cr.lookup(iname) {
        Some(e) => e,
        None => {
            return Some(msg.error_reply(ErrorName::UnknownInterface, copy_bytes(iname)));
        },
    };
    let acc = match info.find_prop(pname) {
        Some(a) => a,
        None => { return Some(msg.error_reply(ErrorName::UnknownProperty, copy_bytes(pname))); },
    };
    if data.find(tag).is_none() {
        return Some(msg.error_reply(ErrorName::UnknownInterface, copy_bytes(iname)));
    }
    if !access_readable(acc) {
        return Some(msg.error_reply(ErrorName::WrongAccess, copy_bytes(pname)));
    }
    None
}

/// `properties_set` for a registry holding builtin handlers alone, whose
/// setters always refuse.
fn builtin_set(msg: &Message, cr: &Crossroads<DBusProperties>, data: &PathData<DBusProperties>)
    -> (r: Option<Message>)
    ensures
        set_outcome(r, *msg, *cr, data@),
{
    if msg.args.len() != 3 {
        return Some(msg.error_reply(ErrorName::InvalidArgs, Vec::new()));
    }
    let iname: &Vec<u8> = match &msg.args[0] {
        Value::Str(b) => b,
        _ => { return Some(msg.error_reply(ErrorName::InvalidArgs, Vec::new())); },
    };
    let pname: &Vec<u8> = match &msg.args[1] {
        Value::Str(b) => b,
        _ => { return Some(msg.error_reply(ErrorName::InvalidArgs, Vec::new())); },
    };
    let (tag, info) = match cr.lookup(iname) {
        Some(e) => e,
        None => {
            return Some(msg.error_reply(ErrorName::UnknownInterface, copy_bytes(iname)));
        },
    };
    let acc = match info.find_prop(pname) {
        Some(a) => a,
        None => { return Some(msg.error_reply(ErrorName::UnknownProperty, copy_bytes(pname))); },
    };
    if data.find(tag).is_none() {
        return Some(msg.error_reply(ErrorName::UnknownInterface, copy_bytes(iname)));
    }
    if !access_writable(acc) {
        return Some(msg.error_reply(ErrorName::WrongAccess, copy_bytes(pname)));
    }
    Some(wrap_set_result(false, msg, pname))
}

/// `properties_get_all` for a registry holding builtin handlers alone:
/// every getter declines, so a successful resolution lists no pairs.
fn builtin_get_all(msg: &Message, cr: &Crossroads<DBusProperties>, data: &PathData<DBusProperties>)
    -> (r: Option<Message>)
    ensures
        get_all_outcome(r, *msg, *cr, data@),
{
    if msg.args.len() != 1 {
        return Some(msg.error_reply(ErrorName::InvalidArgs, Vec::new()));
    }
    let iname: &Vec<u8> = match &msg.args[0] {
        Value::Str(b) => b,
        _ => { return Some(msg.error_reply(ErrorName::InvalidArgs, Vec::new())); },
    };
    let (tag, _info) = match cr.lookup(iname) {
        Some(e) => e,
        None => {
            return Some(msg.error_reply(ErrorName::UnknownInterface, copy_bytes(iname)));
        },
    };
    if data.find(tag).is_none() {
        return Some(msg.error_reply(ErrorName::UnknownInterface, copy_bytes(iname)));
    }
    Some(msg.method_return())
}

} // verus!
