//! Descriptions of registered interfaces: their methods and properties,
//! and the opaque type tag that ties an interface to the concrete instance
//! type backing it.

use vstd::prelude::*;
use crate::bytes::bytes_eq;
use crate::names::{InterfaceName, MemberName};

verus! {

/// An opaque token identifying one concrete implementation type.  It is
/// chosen when an interface is registered against that type, stored with
/// every instance of the type placed into a path, and compared only for
/// equality.
#[derive(Clone, Copy, Debug, PartialEq, Eq, Structural)]
pub struct TypeTag(pub u64);

/// The access mode of a property.
#[derive(Clone, Copy, Debug, PartialEq, Eq, Structural)]
pub enum Access {
    Read,
    Write,
    ReadWrite,
}

/// The property may be read.
pub open spec fn readable(a: Access) -> bool {
    a is Read || a is ReadWrite
}

/// The property may be written.
pub open spec fn writable(a: Access) -> bool {
    a is Write || a is ReadWrite
}

/// One method of an interface.  Invocation is carried by the instance that
/// backs the interface at a path, so the description is the name alone.
pub struct MethodInfo {
    pub name: MemberName,
}

impl MethodInfo {
    pub fn new(name: MemberName) -> (r: MethodInfo)
        ensures
            r.name == name,
    {
        MethodInfo { name }
    }
}

/// One property of an interface: its name and access mode.  Getting and
/// setting are carried by the backing instance.
pub struct PropInfo {
    pub name: MemberName,
    pub access: Access,
}

impl PropInfo {
    pub fn new(name: MemberName, access: Access) -> (r: PropInfo)
        ensures
            r.name == name,
            r.access == access,
    {
        PropInfo { name, access }
    }
}

/// The description of one interface: its name and its ordered method and
/// property lists.  Method and property names are expected to be unique
/// within one description; this is not checked, and lookup takes the first
/// match.
pub struct IfaceInfo {
    pub name: InterfaceName,
    pub methods: Vec<MethodInfo>,
    pub props: Vec<PropInfo>,
}

/// The interface description lists a method named `m`.
pub open spec fn has_method_spec(info: IfaceInfo, m: Seq<u8>) -> bool {
    exists|j: int| 0 <= j < info.methods@.len() && (#[trigger] info.methods@[j]).name@ == m
}

/// The access mode of the first property named `p` in `props`, if any.
pub open spec fn find_prop_spec(props: Seq<PropInfo>, p: Seq<u8>) -> Option<Access>
    decreases props.len(),
{
    if props.len() == 0 {
        None
    } else if props[0].name@ == p {
        Some(props[0].access)
    } else {
        find_prop_spec(props.drop_first(), p)
    }
}

impl IfaceInfo {
    pub fn new(name: InterfaceName, methods: Vec<MethodInfo>, props: Vec<PropInfo>) -> (r:
        IfaceInfo)
        ensures
            r.name == name,
            r.methods == methods,
            r.props == props,
    {
        IfaceInfo { name, methods, props }
    }

    /// Whether a method named `m` is listed.
    pub fn has_method(&self, m: &MemberName) -> (r: bool)
        ensures
            r == has_method_spec(*self, m@),
    {
        let n = self.methods.len();
        let mut j: usize = 0;
        while j < n
            invariant
                n == self.methods.len(),
                j <= n,
                forall|k: int| 0 <= k < j ==> (#[trigger] self.methods@[k]).name@ != m@,
            decreases n - j,
        {
            if bytes_eq(self.methods[j].name.as_bytes(), m.as_bytes()) {
                return true;
            }
            j += 1;
        }
        false
    }

    /// The access mode of the first property named `p`, if any.
    pub fn find_prop(&self, p: &Vec<u8>) -> (r: Option<Access>)
        ensures
            r == find_prop_spec(self.props@, p@),
    {
        let n = self.props.len();
        let mut j: usize = 0;
        proof {
            assert(self.props@.subrange(0, n as int) =~= self.props@);
        }
        while j < n
            invariant
                n == self.props.len(),
                j <= n,
                find_prop_spec(self.props@, p@) == find_prop_spec(
                    self.props@.subrange(j as int, n as int),
                    p@,
                ),
            decreases n - j,
        {
            let tail_eq: bool = bytes_eq(self.props[j].name.as_bytes(), p);
            proof {
                let tail = self.props@.subrange(j as int, n as int);
                assert(tail[0] == self.props@[j as int]);
                assert(tail.drop_first() =~= self.props@.subrange(j as int + 1, n as int));
            }
            if tail_eq {
                return Some(self.props[j].access);
            }
            j += 1;
        }
        proof {
            assert(self.props@.subrange(n as int, n as int).len() == 0);
        }
        None
    }
}

} // verus!
