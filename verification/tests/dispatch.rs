use crossroads::{
    Access, Crossroads, DBusProperties, ErrorName, IfaceInfo, Instance, MemberName,
    MessageKind, MethodInfo, PathData, PathName, PropInfo, TypeTag, Value,
};
use crossroads::{InterfaceName, Message};
use crossroads::stdimpl::properties_call;

struct Score(u16);

enum Obj {
    Score(Score),
    Props(DBusProperties),
}

impl Instance for Obj {
    fn tag_spec(&self) -> TypeTag {
        self.type_tag()
    }

    fn type_tag(&self) -> TypeTag {
        match self {
            Obj::Score(_) => TypeTag(1),
            Obj::Props(_) => TypeTag(0),
        }
    }

    fn call_method(&self, msg: &Message, cr: &Crossroads<Obj>, data: &PathData<Obj>) -> Option<Message> {
        match self {
            Obj::Score(x) => {
                assert_eq!(x.0, 7u16);
                Some(
                    msg.method_return()
                        .append1(Value::Str(format!("Hello, my score is {}!", x.0).into_bytes())),
                )
            }
            Obj::Props(_) => properties_call(msg, cr, data),
        }
    }

    fn get_prop(&self, prop: &Vec<u8>, _msg: &Message) -> Option<Value> {
        match self {
            Obj::Score(x) => {
                if prop.as_slice() == b"Score" {
                    assert_eq!(x.0, 7u16);
                    Some(Value::U16(x.0))
                } else {
                    None
                }
            }
            Obj::Props(_) => None,
        }
    }

    fn set_prop(&self, _prop: &Vec<u8>, _value: &Value, _msg: &Message) -> bool {
        false
    }
}

fn path(s: &str) -> PathName {
    PathName::new(s.as_bytes().to_vec()).unwrap()
}

fn iface(s: &str) -> InterfaceName {
    InterfaceName::new(s.as_bytes().to_vec()).unwrap()
}

fn member(s: &str) -> MemberName {
    MemberName::new(s.as_bytes().to_vec()).unwrap()
}

fn score_registry() -> Crossroads<Obj> {
    let mut cr = Crossroads::new_sync();
    let info = IfaceInfo::new(
        iface("com.example.dbusrs.crossroads.score"),
        vec![MethodInfo::new(member("Hello"))],
        vec![PropInfo::new(member("Score"), Access::Read)],
    );
    cr.register(TypeTag(1), info);
    let mut pdata = PathData::new();
    pdata.insert(Obj::Score(Score(7u16)));
    pdata.insert(Obj::Props(DBusProperties));
    cr.insert(path("/"), pdata);
    cr
}

fn is_send<T: Send>(_: &T) {}

fn is_sync<T: Sync>(_: &T) {}

#[test]
fn test_send_sync() {
    let c = Crossroads::<Obj>::new_sync();
    is_send(&c);
    is_sync(&c);
}

#[test]
fn simple() {
    let cr = score_registry();

    let mut msg = Message::new_method_call(
        path("/"),
        iface("com.example.dbusrs.crossroads.score"),
        member("Hello"),
    );
    msg.set_serial(57);
    let r = cr.dispatch(&msg).unwrap();
    assert_eq!(r.len(), 1);

    let msg = Message::new_method_call(
        path("/"),
        iface("org.freedesktop.DBus.Properties"),
        member("Get"),
    );
    let mut msg = msg.append2(
        Value::Str(b"com.example.dbusrs.crossroads.score".to_vec()),
        Value::Str(b"Score".to_vec()),
    );
    msg.set_serial(57);
    let r = cr.dispatch(&msg).unwrap();
    assert_eq!(r.len(), 1);
    let z: u16 = match r[0].read1().unwrap() {
        Value::Variant(b) => match **b {
            Value::U16(z) => z,
            _ => panic!("expected a u16 inside the envelope"),
        },
        _ => panic!("expected an envelope"),
    };
    assert_eq!(z, 7u16);
}

#[test]
fn hello_reply_mentions_the_score() {
    let cr = score_registry();
    let mut msg = Message::new_method_call(
        path("/"),
        iface("com.example.dbusrs.crossroads.score"),
        member("Hello"),
    );
    msg.set_serial(57);
    let r = cr.dispatch(&msg).unwrap();
    assert_eq!(r.len(), 1);
    assert!(matches!(r[0].kind, MessageKind::MethodReturn));
    assert_eq!(r[0].reply_serial, Some(57));
    match r[0].read1().unwrap() {
        Value::Str(s) => assert_eq!(s.as_slice(), b"Hello, my score is 7!"),
        _ => panic!("expected a string reply"),
    }
}

#[test]
fn unknown_lookups_yield_no_reply() {
    let cr = score_registry();

    let unknown_path = Message::new_method_call(
        path("/nope"),
        iface("com.example.dbusrs.crossroads.score"),
        member("Hello"),
    );
    assert!(cr.dispatch(&unknown_path).is_none());

    let unknown_iface = Message::new_method_call(
        path("/"),
        iface("com.example.other"),
        member("Hello"),
    );
    assert!(cr.dispatch(&unknown_iface).is_none());

    let unknown_member = Message::new_method_call(
        path("/"),
        iface("com.example.dbusrs.crossroads.score"),
        member("Goodbye"),
    );
    assert!(cr.dispatch(&unknown_member).is_none());
}

#[test]
fn non_method_call_and_missing_headers_yield_no_reply() {
    let cr = score_registry();

    let mut msg = Message::new_method_call(
        path("/"),
        iface("com.example.dbusrs.crossroads.score"),
        member("Hello"),
    );
    msg.kind = MessageKind::Signal;
    assert!(cr.dispatch(&msg).is_none());

    let mut msg = Message::new_method_call(
        path("/"),
        iface("com.example.dbusrs.crossroads.score"),
        member("Hello"),
    );
    msg.member = None;
    assert!(cr.dispatch(&msg).is_none());
}

#[test]
fn instance_missing_at_path_yields_no_reply() {
    let mut cr = Crossroads::new_sync();
    let info = IfaceInfo::new(
        iface("com.example.dbusrs.crossroads.score"),
        vec![MethodInfo::new(member("Hello"))],
        vec![],
    );
    cr.register(TypeTag(1), info);
    let mut pdata = PathData::new();
    pdata.insert(Obj::Props(DBusProperties));
    cr.insert(path("/"), pdata);

    let msg = Message::new_method_call(
        path("/"),
        iface("com.example.dbusrs.crossroads.score"),
        member("Hello"),
    );
    assert!(cr.dispatch(&msg).is_none());
}

#[test]
fn register_twice_returns_the_previous_info() {
    let mut cr = Crossroads::<Obj>::new_sync();
    let name = "com.example.again";
    let mk = |m: &str| {
        IfaceInfo::new(iface(name), vec![MethodInfo::new(member(m))], vec![])
    };
    let first = cr.register(TypeTag(1), mk("First"));
    assert!(first.is_none());
    let second = cr.register(TypeTag(1), mk("Second"));
    let second = second.unwrap();
    assert_eq!(second.methods[0].name.as_bytes().as_slice(), b"First");
    let third = cr.register(TypeTag(1), mk("Third"));
    let third = third.unwrap();
    assert_eq!(third.methods[0].name.as_bytes().as_slice(), b"Second");
}

#[test]
fn two_instance_types_at_one_path_resolve_separately() {
    struct A;
    struct B;
    enum Pair {
        A(A),
        B(B),
    }
    impl Instance for Pair {
        fn tag_spec(&self) -> TypeTag {
            self.type_tag()
        }

        fn type_tag(&self) -> TypeTag {
            match self {
                Pair::A(_) => TypeTag(10),
                Pair::B(_) => TypeTag(11),
            }
        }
        fn call_method(&self, msg: &Message, _cr: &Crossroads<Pair>, _data: &PathData<Pair>) -> Option<Message> {
            let tagname: &[u8] = match self {
                Pair::A(_) => b"from A",
                Pair::B(_) => b"from B",
            };
            Some(msg.method_return().append1(Value::Str(tagname.to_vec())))
        }
        fn get_prop(&self, _prop: &Vec<u8>, _msg: &Message) -> Option<Value> {
            None
        }
        fn set_prop(&self, _prop: &Vec<u8>, _value: &Value, _msg: &Message) -> bool {
            false
        }
    }

    let mut cr = Crossroads::new_sync();
    cr.register(
        TypeTag(10),
        IfaceInfo::new(iface("com.example.a"), vec![MethodInfo::new(member("MA"))], vec![]),
    );
    cr.register(
        TypeTag(11),
        IfaceInfo::new(iface("com.example.b"), vec![MethodInfo::new(member("MB"))], vec![]),
    );
    let mut pdata = PathData::new();
    pdata.insert(Pair::A(A));
    pdata.insert(Pair::B(B));
    cr.insert(path("/"), pdata);

    let call_a = Message::new_method_call(path("/"), iface("com.example.a"), member("MA"));
    let ra = cr.dispatch(&call_a).unwrap();
    match ra[0].read1().unwrap() {
        Value::Str(s) => assert_eq!(s.as_slice(), b"from A"),
        _ => panic!("expected a string"),
    }

    let call_b = Message::new_method_call(path("/"), iface("com.example.b"), member("MB"));
    let rb = cr.dispatch(&call_b).unwrap();
    match rb[0].read1().unwrap() {
        Value::Str(s) => assert_eq!(s.as_slice(), b"from B"),
        _ => panic!("expected a string"),
    }
}

#[test]
fn get_unknown_property_yields_error_reply() {
    let cr = score_registry();
    let msg = Message::new_method_call(
        path("/"),
        iface("org.freedesktop.DBus.Properties"),
        member("Get"),
    )
    .append2(
        Value::Str(b"com.example.dbusrs.crossroads.score".to_vec()),
        Value::Str(b"Nope".to_vec()),
    );
    let r = cr.dispatch(&msg).unwrap();
    assert_eq!(r.len(), 1);
    assert!(matches!(r[0].kind, MessageKind::Error));
    assert_eq!(r[0].error, Some(ErrorName::UnknownProperty));
}

#[test]
fn get_unknown_interface_yields_error_reply() {
    let cr = score_registry();
    let msg = Message::new_method_call(
        path("/"),
        iface("org.freedesktop.DBus.Properties"),
        member("Get"),
    )
    .append2(
        Value::Str(b"com.example.missing".to_vec()),
        Value::Str(b"Score".to_vec()),
    );
    let r = cr.dispatch(&msg).unwrap();
    assert_eq!(r.len(), 1);
    assert_eq!(r[0].error, Some(ErrorName::UnknownInterface));
}

#[test]
fn get_with_malformed_arguments_yields_error_reply() {
    let cr = score_registry();
    let msg = Message::new_method_call(
        path("/"),
        iface("org.freedesktop.DBus.Properties"),
        member("Get"),
    )
    .append1(Value::Str(b"com.example.dbusrs.crossroads.score".to_vec()));
    let r = cr.dispatch(&msg).unwrap();
    assert_eq!(r.len(), 1);
    assert_eq!(r[0].error, Some(ErrorName::InvalidArgs));
}

#[test]
fn set_read_only_property_yields_error_reply() {
    let cr = score_registry();
    let msg = Message::new_method_call(
        path("/"),
        iface("org.freedesktop.DBus.Properties"),
        member("Set"),
    )
    .append2(
        Value::Str(b"com.example.dbusrs.crossroads.score".to_vec()),
        Value::Str(b"Score".to_vec()),
    )
    .append1(Value::Variant(Box::new(Value::U16(9))));
    let r = cr.dispatch(&msg).unwrap();
    assert_eq!(r.len(), 1);
    assert_eq!(r[0].error, Some(ErrorName::WrongAccess));
}

#[test]
fn get_all_lists_readable_properties() {
    let cr = score_registry();
    let msg = Message::new_method_call(
        path("/"),
        iface("org.freedesktop.DBus.Properties"),
        member("GetAll"),
    )
    .append1(Value::Str(b"com.example.dbusrs.crossroads.score".to_vec()));
    let r = cr.dispatch(&msg).unwrap();
    assert_eq!(r.len(), 1);
    assert!(matches!(r[0].kind, MessageKind::MethodReturn));
    assert_eq!(r[0].args.len(), 2);
    match &r[0].args[0] {
        Value::Str(s) => assert_eq!(s.as_slice(), b"Score"),
        _ => panic!("expected the property name"),
    }
    match &r[0].args[1] {
        Value::Variant(b) => match **b {
            Value::U16(z) => assert_eq!(z, 7u16),
            _ => panic!("expected a u16 inside the envelope"),
        },
        _ => panic!("expected an envelope"),
    }
}

#[test]
fn set_writable_property_round_trip() {
    struct Counter(std::cell::Cell<u16>);
    enum CObj {
        C(Counter),
        P(DBusProperties),
    }
    impl Instance for CObj {
        fn tag_spec(&self) -> TypeTag {
            self.type_tag()
        }

        fn type_tag(&self) -> TypeTag {
            match self {
                CObj::C(_) => TypeTag(2),
                CObj::P(_) => TypeTag(0),
            }
        }

        fn call_method(&self, msg: &Message, cr: &Crossroads<CObj>, data: &PathData<CObj>) -> Option<Message> {
            match self {
                CObj::P(_) => properties_call(msg, cr, data),
                CObj::C(_) => None,
            }
        }

        fn get_prop(&self, prop: &Vec<u8>, _msg: &Message) -> Option<Value> {
            match self {
                CObj::C(c) if prop.as_slice() == b"Count" => Some(Value::U16(c.0.get())),
                _ => None,
            }
        }

        fn set_prop(&self, prop: &Vec<u8>, value: &Value, _msg: &Message) -> bool {
            match (self, value) {
                (CObj::C(c), Value::Variant(b)) if prop.as_slice() == b"Count" => {
                    if let Value::U16(v) = **b {
                        c.0.set(v);
                        true
                    } else {
                        false
                    }
                }
                _ => false,
            }
        }
    }

    let mut cr = Crossroads::new_sync();
    cr.register(
        TypeTag(2),
        IfaceInfo::new(
            iface("com.example.counter"),
            vec![],
            vec![PropInfo::new(member("Count"), Access::ReadWrite)],
        ),
    );
    let mut pdata = PathData::new();
    pdata.insert(CObj::C(Counter(std::cell::Cell::new(0))));
    pdata.insert(CObj::P(DBusProperties));
    cr.insert(path("/"), pdata);

    let set = Message::new_method_call(
        path("/"),
        iface("org.freedesktop.DBus.Properties"),
        member("Set"),
    )
    .append2(
        Value::Str(b"com.example.counter".to_vec()),
        Value::Str(b"Count".to_vec()),
    )
    .append1(Value::Variant(Box::new(Value::U16(9))));
    let r = cr.dispatch(&set).unwrap();
    assert_eq!(r.len(), 1);
    assert!(matches!(r[0].kind, MessageKind::MethodReturn));
    assert!(r[0].args.is_empty());

    let get = Message::new_method_call(
        path("/"),
        iface("org.freedesktop.DBus.Properties"),
        member("Get"),
    )
    .append2(
        Value::Str(b"com.example.counter".to_vec()),
        Value::Str(b"Count".to_vec()),
    );
    let r = cr.dispatch(&get).unwrap();
    match r[0].read1().unwrap() {
        Value::Variant(b) => match **b {
            Value::U16(v) => assert_eq!(v, 9),
            _ => panic!("expected a u16 inside the envelope"),
        },
        _ => panic!("expected an envelope"),
    }
}

#[test]
fn get_all_unknown_interface_yields_error_reply() {
    let cr = score_registry();
    let msg = Message::new_method_call(
        path("/"),
        iface("org.freedesktop.DBus.Properties"),
        member("GetAll"),
    )
    .append1(Value::Str(b"com.example.missing".to_vec()));
    let r = cr.dispatch(&msg).unwrap();
    assert_eq!(r.len(), 1);
    assert_eq!(r[0].error, Some(ErrorName::UnknownInterface));
}

#[test]
fn builtin_handler_alone_declines_get_but_reports_errors() {
    let mut cr = Crossroads::<DBusProperties>::new_sync();
    cr.register(
        TypeTag(0),
        IfaceInfo::new(
            iface("com.example.bare"),
            vec![],
            vec![PropInfo::new(member("P"), Access::Read)],
        ),
    );
    let mut pdata = PathData::new();
    pdata.insert(DBusProperties);
    cr.insert(path("/"), pdata);

    let get = Message::new_method_call(
        path("/"),
        iface("org.freedesktop.DBus.Properties"),
        member("Get"),
    )
    .append2(
        Value::Str(b"com.example.bare".to_vec()),
        Value::Str(b"P".to_vec()),
    );
    let r = cr.dispatch(&get).unwrap();
    assert_eq!(r.len(), 0);

    let get_unknown = Message::new_method_call(
        path("/"),
        iface("org.freedesktop.DBus.Properties"),
        member("Get"),
    )
    .append2(
        Value::Str(b"com.example.bare".to_vec()),
        Value::Str(b"Q".to_vec()),
    );
    let r = cr.dispatch(&get_unknown).unwrap();
    assert_eq!(r.len(), 1);
    assert_eq!(r[0].error, Some(ErrorName::UnknownProperty));
}
