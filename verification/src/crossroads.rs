//! The dispatch registry: interface registrations, per-path instance bags,
//! and the two-stage lookup that routes a method call to the one instance
//! backing the requested interface at the requested path.

use vstd::prelude::*;
use crate::bytes::copy_bytes;
use crate::names::PathName;
use crate::message::{Message, msg_headers, has_headers};
use crate::info::{TypeTag, IfaceInfo, has_method_spec};
use crate::table::{
    Table, table_lookup, table_insert, lemma_insert_lookup_same, lemma_insert_lookup_other,
    lemma_insert_values, lemma_lookup_is_entry,
};
use crate::stdimpl::DBusProperties;
use crate::value::Value;

verus! {

/// A handler instance that can live at a path.
///
/// One concrete backing type stands behind each registered interface; its
/// instances all report the one type tag chosen at registration, and the
/// dispatcher reaches an instance only through these operations — there is
/// no downcasting.  Implementations are supplied by the library's users
/// (and by the builtin [`DBusProperties`]); the dispatcher's own contracts
/// therefore fix which instance is invoked, not what its handlers reply.
pub trait Instance: Sized {
    /// The tag of the concrete type backing this instance, fixed at
    /// construction.
    spec fn tag_spec(&self) -> TypeTag;

    /// Returns the instance's type tag.
    fn type_tag(&self) -> (t: TypeTag)
        ensures
            t == self.tag_spec(),
    ;

    /// Invokes the method named by `msg`'s member header, with the request
    /// and a dispatch context (the registry and the path's own data, for
    /// nested lookups) — at most one reply message comes back.
    fn call_method(&self, msg: &Message, cr: &Crossroads<Self>, data: &PathData<Self>) -> Option<
        Message,
    >;

    /// Reads the property named `prop`, yielding its value if the instance
    /// produces one.
    fn get_prop(&self, prop: &Vec<u8>, msg: &Message) -> Option<Value>;

    /// Writes `value` to the property named `prop`; the result says
    /// whether the instance accepted the write.
    fn set_prop(&self, prop: &Vec<u8>, value: &Value, msg: &Message) -> bool;
}

/// The instance (with its stored tag) that a tag lookup finds: the first
/// entry bearing the tag.
pub open spec fn find_tagged<I>(s: Seq<(TypeTag, I)>, t: TypeTag) -> Option<I>
    decreases s.len(),
{
    if s.len() == 0 {
        None
    } else if s[0].0 == t {
        Some(s[0].1)
    } else {
        find_tagged(s.drop_first(), t)
    }
}

/// On a bag whose stored tags agree with the instances' own, a successful
/// tag lookup yields an instance bearing exactly that tag.
pub proof fn lemma_find_tagged_tag<I: Instance>(s: Seq<(TypeTag, I)>, t: TypeTag)
    requires
        forall|j: int| 0 <= j < s.len() ==> (#[trigger] s[j]).0 == s[j].1.tag_spec(),
        find_tagged(s, t) is Some,
    ensures
        find_tagged(s, t)->0.tag_spec() == t,
    decreases s.len(),
{
    if s.len() > 0 && s[0].0 != t {
        lemma_find_tagged_tag(s.drop_first(), t);
    }
}

/// If the first `j` entries miss the tag and entry `j` carries it, the
/// lookup yields entry `j`'s instance.
proof fn lemma_find_first_match<I>(s: Seq<(TypeTag, I)>, t: TypeTag, j: int)
    requires
        0 <= j < s.len(),
        forall|k: int| 0 <= k < j ==> (#[trigger] s[k]).0 != t,
        s[j].0 == t,
    ensures
        find_tagged(s, t) == Some(s[j].1),
    decreases j,
{
    if j > 0 {
        lemma_find_first_match(s.drop_first(), t, j - 1);
    }
}

/// If no entry carries the tag, the lookup yields nothing.
proof fn lemma_find_no_match<I>(s: Seq<(TypeTag, I)>, t: TypeTag)
    requires
        forall|k: int| 0 <= k < s.len() ==> (#[trigger] s[k]).0 != t,
    ensures
        find_tagged(s, t) is None,
    decreases s.len(),
{
    if s.len() > 0 {
        lemma_find_no_match(s.drop_first(), t);
    }
}

/// An ordered bag of (type tag, instance) pairs: the interface
/// implementations hosted at one object path.  Lookup by tag returns the
/// first match, so at most one entry per tag is meaningful.
pub struct PathData<I> {
    items: Vec<(TypeTag, I)>,
}

impl<I> View for PathData<I> {
    type V = Seq<(TypeTag, I)>;

    closed spec fn view(&self) -> Seq<(TypeTag, I)> {
        self.items@
    }
}

impl<I> PathData<I> {
    /// An empty bag.
    pub fn new() -> (r: PathData<I>)
        ensures
            r@ == Seq::<(TypeTag, I)>::empty(),
    {
        let r = PathData { items: Vec::new() };
        proof {
            assert(r@ =~= Seq::<(TypeTag, I)>::empty());
        }
        r
    }

    /// The first instance stored under tag `t`, if any: a linear scan.
    pub fn find(&self, t: TypeTag) -> (r: Option<&I>)
        ensures
            r matches Some(i) ==> find_tagged(self@, t) == Some(*i),
            r is Some <==> find_tagged(self@, t) is Some,
    {
        let n = self.items.len();
        let mut j: usize = 0;
        while j < n
            invariant
                n == self.items.len(),
                j <= n,
                forall|k: int| 0 <= k < j ==> (#[trigger] self@[k]).0 != t,
            decreases n - j,
        {
            if self.items[j].0 == t {
                proof {
                    lemma_find_first_match(self@, t, j as int);
                }
                return Some(&self.items[j].1);
            }
            j += 1;
        }
        proof {
            lemma_find_no_match(self@, t);
        }
        None
    }
}

impl<I: Instance> PathData<I> {
    /// Every stored tag is the tag of the instance beside it.
    pub open spec fn wf(&self) -> bool {
        forall|j: int| 0 <= j < self@.len() ==> (#[trigger] self@[j]).0 == self@[j].1.tag_spec()
    }

    /// Appends one instance, stored beside the tag of its concrete type.
    pub fn insert(&mut self, i: I)
        ensures
            final(self)@ == old(self)@.push((i.tag_spec(), i)),
            old(self).wf() ==> final(self).wf(),
    {
        let t = i.type_tag();
        let ghost gi = i;
        self.items.push((t, i));
        proof {
            if old(self).wf() {
                assert forall|j: int| 0 <= j < self@.len() implies (#[trigger] self@[j]).0
                    == self@[j].1.tag_spec() by {
                    if j < old(self)@.len() {
                        assert(self@[j] == old(self)@[j]);
                    } else {
                        assert(self@[j] == (gi.tag_spec(), gi));
                    }
                }
            }
        }
    }
}

/// The registry: interface name to (type tag, interface description), and
/// object path to the bag of tagged instances living there.  Both maps are
/// last-write-wins; construction seeds the builtin properties interface.
pub struct Crossroads<I> {
    reg: Table<(TypeTag, IfaceInfo)>,
    paths: Table<PathData<I>>,
}

impl<I> Crossroads<I> {
    /// The interface registrations, in entry order.
    pub closed spec fn reg_model(&self) -> Seq<(Seq<u8>, (TypeTag, IfaceInfo))> {
        self.reg@
    }

    /// The path table, in entry order.
    pub closed spec fn paths_model(&self) -> Seq<(Seq<u8>, PathData<I>)> {
        self.paths@
    }

    /// The registration under an interface name.
    pub open spec fn iface_lookup(&self, n: Seq<u8>) -> Option<(TypeTag, IfaceInfo)> {
        table_lookup(self.reg_model(), n)
    }

    /// The instance bag at an object path.
    pub open spec fn path_lookup(&self, p: Seq<u8>) -> Option<PathData<I>> {
        table_lookup(self.paths_model(), p)
    }

    /// The instance bag stored at `name`, if any.
    pub fn get_data(&self, name: &PathName) -> (r: Option<&PathData<I>>)
        ensures
            r matches Some(d) ==> self.path_lookup(name@) == Some(*d),
            r is Some <==> self.path_lookup(name@) is Some,
    {
        self.paths.get(name.as_bytes())
    }

    /// The registration under the interface name given in byte form, if
    /// any: the type tag chosen at registration and the description.
    pub fn lookup(&self, name: &Vec<u8>) -> (r: Option<(TypeTag, &IfaceInfo)>)
        ensures
            r matches Some(e) ==> self.iface_lookup(name@) == Some((e.0, *e.1)),
            r is Some <==> self.iface_lookup(name@) is Some,
    {
        match self.reg.get(name) {
            Some(e) => Some((e.0, &e.1)),
            None => None,
        }
    }
}

impl<I: Instance> Crossroads<I> {
    /// Every stored bag keeps tags and instances in agreement.
    pub open spec fn wf(&self) -> bool {
        forall|i: int|
            0 <= i < self.paths_model().len() ==> (#[trigger] self.paths_model()[i]).1.wf()
    }

    /// Registers `info` under its interface name against the concrete type
    /// tagged `tag`, replacing and returning any prior registration of
    /// that name (last write wins; re-registration is not an error).
    pub fn register(&mut self, tag: TypeTag, info: IfaceInfo) -> (r: Option<IfaceInfo>)
        ensures
            final(self).reg_model() == table_insert(old(self).reg_model(), info.name@, (tag, info)),
            final(self).paths_model() == old(self).paths_model(),
            final(self).iface_lookup(info.name@) == Some((tag, info)),
            forall|n: Seq<u8>|
                n != info.name@ ==> final(self).iface_lookup(n) == old(self).iface_lookup(n),
            r == match old(self).iface_lookup(info.name@) {
                Some(e) => Some(e.1),
                None => None::<IfaceInfo>,
            },
            old(self).wf() ==> final(self).wf(),
    {
        let key = copy_bytes(info.name.as_bytes());
        let ghost name = info.name@;
        let prev = self.reg.insert(key, (tag, info));
        proof {
            lemma_insert_lookup_same(old(self).reg_model(), name, (tag, info));
            assert forall|n: Seq<u8>| n != name implies self.iface_lookup(n) == old(
                self,
            ).iface_lookup(n) by {
                lemma_insert_lookup_other(old(self).reg_model(), name, (tag, info), n);
            }
            if old(self).wf() {
                assert forall|i: int| 0 <= i < self.paths_model().len() implies (
                #[trigger] self.paths_model()[i]).1.wf() by {
                    assert(self.paths_model()[i] == old(self).paths_model()[i]);
                }
            }
        }
        match prev {
            Some(e) => Some(e.1),
            None => None,
        }
    }

    /// Replaces the whole entry for `name` with `data` (last write wins
    /// per path; re-insertion is not an error).
    pub fn insert(&mut self, name: PathName, data: PathData<I>)
        requires
            data.wf(),
        ensures
            final(self).paths_model() == table_insert(old(self).paths_model(), name@, data),
            final(self).reg_model() == old(self).reg_model(),
            final(self).path_lookup(name@) == Some(data),
            forall|p: Seq<u8>|
                p != name@ ==> final(self).path_lookup(p) == old(self).path_lookup(p),
            old(self).wf() ==> final(self).wf(),
    {
        let key = copy_bytes(name.as_bytes());
        let ghost n = name@;
        let ghost d = data;
        let _prev = self.paths.insert(key, data);
        proof {
            lemma_insert_lookup_same(old(self).paths_model(), n, d);
            assert forall|p: Seq<u8>| p != n implies final(self).path_lookup(p) == old(
                self,
            ).path_lookup(p) by {
                lemma_insert_lookup_other(old(self).paths_model(), n, d, p);
            }
            if old(self).wf() {
                lemma_insert_values(old(self).paths_model(), n, d);
            }
        }
    }

    /// Routes a method call: header extraction, interface lookup, member
    /// scan, path lookup, instance lookup, then handler invocation.  Every
    /// lookup miss yields the overall *not handled* outcome (no reply
    /// sequence at all, distinct from a handler-produced error reply), so
    /// a caller may chain several dispatch tables.
    pub fn dispatch(&self, msg: &Message) -> (r: Option<Vec<Message>>)
        ensures
            r is Some <==> dispatch_target(*self, *msg) is Some,
            r matches Some(v) ==> v@.len() <= 1,
    {
        let h = match msg_headers(msg) {
            Some(h) => h,
            None => { return None; },
        };
        let (tag, info) = match self.lookup(h.i.as_bytes()) {
            Some(e) => e,
            None => { return None; },
        };
        if !info.has_method(&h.m) {
            return None;
        }
        let data = match self.get_data(&h.p) {
            Some(d) => d,
            None => { return None; },
        };
        let inst = match data.find(tag) {
            Some(i) => i,
            None => { return None; },
        };
        let reply = inst.call_method(msg, self, data);
        match reply {
            Some(m) => {
                let mut v: Vec<Message> = Vec::new();
                v.push(m);
                Some(v)
            },
            None => Some(Vec::new()),
        }
    }

    /// A fresh registry with the builtin properties interface already
    /// seeded, before anything else can be registered.
    pub fn new_sync() -> (r: Crossroads<I>)
        ensures
            r.iface_lookup(crate::stdimpl::properties_iface()) matches Some(e) && e.0 == TypeTag(0)
                && crate::stdimpl::is_properties_info(e.1),
            forall|n: Seq<u8>|
                n != crate::stdimpl::properties_iface() ==> r.iface_lookup(n) is None,
            r.paths_model() == Seq::<(Seq<u8>, PathData<I>)>::empty(),
            r.wf(),
    {
        let mut cr = Crossroads { reg: Table::new(), paths: Table::new() };
        DBusProperties::register(&mut cr);
        cr
    }
}

/// The instance that `dispatch` invokes for `msg`, if every lookup stage
/// succeeds: the first instance bearing the requested interface's tag at
/// the requested path.
pub open spec fn dispatch_target<I>(cr: Crossroads<I>, msg: Message) -> Option<I> {
    if !has_headers(msg) {
        None
    } else {
        match cr.iface_lookup(msg.interface->0@) {
            None => None,
            Some((tag, info)) => if !has_method_spec(info, msg.member->0@) {
                None
            } else {
                match cr.path_lookup(msg.path->0@) {
                    None => None,
                    Some(data) => find_tagged(data@, tag),
                }
            },
        }
    }
}

/// Law: registration is last-write-wins and hands back the displaced
/// entry.  Registering one interface name twice returns the first
/// description from the second call, and a third call returns the second:
/// `register` returns the lookup of the state it starts from, and these
/// are the lookups after one and after two insertions.
pub proof fn lemma_register_last_write_wins(
    s: Seq<(Seq<u8>, (TypeTag, IfaceInfo))>,
    n: Seq<u8>,
    t1: TypeTag,
    i1: IfaceInfo,
    t2: TypeTag,
    i2: IfaceInfo,
)
    ensures
        table_lookup(table_insert(s, n, (t1, i1)), n) == Some((t1, i1)),
        table_lookup(table_insert(table_insert(s, n, (t1, i1)), n, (t2, i2)), n) == Some(
            (t2, i2),
        ),
{
    lemma_insert_lookup_same(s, n, (t1, i1));
    lemma_insert_lookup_same(table_insert(s, n, (t1, i1)), n, (t2, i2));
}

/// Law: when dispatch resolves, the instance it invokes bears exactly the
/// type tag registered for the request's interface.  With several
/// concrete instance types at one path, each backing its own registered
/// interface under a distinct tag, a call to either interface's method
/// therefore reaches the matching instance and never the other.
pub proof fn lemma_dispatch_matches_tag<I: Instance>(cr: Crossroads<I>, msg: Message)
    requires
        cr.wf(),
        dispatch_target(cr, msg) is Some,
    ensures
        cr.iface_lookup(msg.interface->0@) matches Some(e) && dispatch_target(
            cr,
            msg,
        )->0.tag_spec() == e.0,
{
    let (tag, info) = cr.iface_lookup(msg.interface->0@)->0;
    let data = cr.path_lookup(msg.path->0@)->0;
    lemma_lookup_is_entry(cr.paths_model(), msg.path->0@);
    assert(data.wf());
    lemma_find_tagged_tag(data@, tag);
}

} // verus!
