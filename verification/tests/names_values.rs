use crossroads::{ErrorName, InterfaceName, MemberName, Message, MessageKind, PathName, Value};

fn path_ok(s: &str) -> bool {
    PathName::new(s.as_bytes().to_vec()).is_some()
}

fn iface_ok(s: &str) -> bool {
    InterfaceName::new(s.as_bytes().to_vec()).is_some()
}

fn member_ok(s: &str) -> bool {
    MemberName::new(s.as_bytes().to_vec()).is_some()
}

#[test]
fn path_validation() {
    assert!(path_ok("/"));
    assert!(path_ok("/a"));
    assert!(path_ok("/a/b_1/C9"));
    assert!(!path_ok(""));
    assert!(!path_ok("a"));
    assert!(!path_ok("/a/"));
    assert!(!path_ok("//b"));
    assert!(!path_ok("/a//b"));
    assert!(!path_ok("/a b"));
}

#[test]
fn interface_validation() {
    assert!(iface_ok("a.b"));
    assert!(iface_ok("com.example.dbusrs.crossroads.score"));
    assert!(iface_ok("org.freedesktop.DBus.Properties"));
    assert!(iface_ok("a.b_c.D2"));
    assert!(!iface_ok(""));
    assert!(!iface_ok("abc"));
    assert!(!iface_ok(".a.b"));
    assert!(!iface_ok("a.b."));
    assert!(!iface_ok("a..b"));
    assert!(!iface_ok("a.1b"));
    assert!(!iface_ok("1a.b"));
    assert!(!iface_ok("a.b c"));
}

#[test]
fn member_validation() {
    assert!(member_ok("Get"));
    assert!(member_ok("_x1"));
    assert!(member_ok("Hello"));
    assert!(!member_ok(""));
    assert!(!member_ok("1x"));
    assert!(!member_ok("a-b"));
    assert!(!member_ok("a.b"));
}

#[test]
fn value_signatures() {
    assert_eq!(Value::Bool(true).signature(), b'b');
    assert_eq!(Value::U16(1).signature(), b'q');
    assert_eq!(Value::U64(1).signature(), b't');
    assert_eq!(Value::Str(vec![]).signature(), b's');
    assert_eq!(Value::Variant(Box::new(Value::U16(1))).signature(), b'v');
}

#[test]
fn replies_are_addressed_to_the_request() {
    let p = PathName::new(b"/".to_vec()).unwrap();
    let i = InterfaceName::new(b"a.b".to_vec()).unwrap();
    let m = MemberName::new(b"M".to_vec()).unwrap();
    let mut req = Message::new_method_call(p, i, m);
    req.set_serial(57);

    let ret = req.method_return();
    assert!(matches!(ret.kind, MessageKind::MethodReturn));
    assert_eq!(ret.reply_serial, Some(57));
    assert!(ret.args.is_empty());

    let err = req.error_reply(ErrorName::Failed, b"why".to_vec());
    assert!(matches!(err.kind, MessageKind::Error));
    assert_eq!(err.error, Some(ErrorName::Failed));
    assert_eq!(err.reply_serial, Some(57));
    assert_eq!(err.args.len(), 1);
    match &err.args[0] {
        Value::Str(t) => assert_eq!(t.as_slice(), b"why"),
        _ => panic!("expected the describing text"),
    }
}

#[test]
fn append_and_read_arguments() {
    let p = PathName::new(b"/".to_vec()).unwrap();
    let i = InterfaceName::new(b"a.b".to_vec()).unwrap();
    let m = MemberName::new(b"M".to_vec()).unwrap();
    let msg = Message::new_method_call(p, i, m);
    assert!(msg.read1().is_none());
    let msg = msg.append1(Value::U16(3));
    match msg.read1().unwrap() {
        Value::U16(v) => assert_eq!(*v, 3),
        _ => panic!("expected the first argument"),
    }
    let msg = msg.append2(Value::Bool(true), Value::U64(9));
    assert_eq!(msg.args.len(), 3);
}
