//! Validated identifiers: object paths, interface names and member names.
//!
//! Each identifier is an immutable wrapper around its normalized byte form;
//! equality and lookup elsewhere in the crate go by that form alone.
//! Interface names are dot-segmented, paths are slash-segmented and begin
//! at a root.

use vstd::prelude::*;
use crate::bytes::copy_bytes;

verus! {

/// Bytes allowed inside a name segment: ASCII letters, digits and `_`.
pub open spec fn is_ident_byte(c: u8) -> bool {
    (65 <= c <= 90) || (97 <= c <= 122) || (48 <= c <= 57) || c == 95
}

/// ASCII decimal digits.
pub open spec fn is_digit_byte(c: u8) -> bool {
    48 <= c <= 57
}

fn ident_byte(c: u8) -> (r: bool)
    ensures
        r == is_ident_byte(c),
{
    (65 <= c && c <= 90) || (97 <= c && c <= 122) || (48 <= c && c <= 57) || c == 95
}

fn digit_byte(c: u8) -> (r: bool)
    ensures
        r == is_digit_byte(c),
{
    48 <= c && c <= 57
}

/// A member (method or property) name: nonempty, segment bytes only,
/// not starting with a digit.
pub open spec fn valid_member(s: Seq<u8>) -> bool {
    &&& s.len() >= 1
    &&& !is_digit_byte(s[0])
    &&& forall|i: int| 0 <= i < s.len() ==> is_ident_byte(#[trigger] s[i])
}

/// An interface name: dot-separated segments, at least two of them, each
/// nonempty, of segment bytes, and not starting with a digit.
pub open spec fn valid_interface(s: Seq<u8>) -> bool {
    &&& s.len() >= 1
    &&& s[s.len() - 1] != 46
    &&& forall|i: int| 0 <= i < s.len() ==> is_ident_byte(#[trigger] s[i]) || s[i] == 46
    &&& exists|i: int| 0 <= i < s.len() && s[i] == 46
    &&& forall|i: int|
        0 <= i < s.len() && (i == 0 || s[i - 1] == 46) ==> is_ident_byte(#[trigger] s[i])
            && !is_digit_byte(s[i])
}

/// An object path: `/`, or `/`-separated nonempty segments of segment
/// bytes, starting at the root and without a trailing separator.
pub open spec fn valid_path(s: Seq<u8>) -> bool {
    &&& s.len() >= 1
    &&& s[0] == 47
    &&& s.len() == 1 || s[s.len() - 1] != 47
    &&& forall|i: int| 1 <= i < s.len() ==> is_ident_byte(#[trigger] s[i]) || s[i] == 47
    &&& forall|i: int| 1 <= i < s.len() && s[i - 1] == 47 ==> is_ident_byte(#[trigger] s[i])
}

fn check_member(s: &Vec<u8>) -> (r: bool)
    ensures
        r == valid_member(s@),
{
    let n = s.len();
    if n == 0 {
        return false;
    }
    if digit_byte(s[0]) {
        return false;
    }
    let mut i: usize = 0;
    while i < n
        invariant
            n == s.len(),
            0 < n,
            i <= n,
            !is_digit_byte(s@[0]),
            forall|k: int| 0 <= k < i ==> is_ident_byte(#[trigger] s@[k]),
        decreases n - i,
    {
        if !ident_byte(s[i]) {
            return false;
        }
        i += 1;
    }
    true
}

#[verifier::rlimit(50)]
fn check_interface(s: &Vec<u8>) -> (r: bool)
    ensures
        r == valid_interface(s@),
{
    let n = s.len();
    if n == 0 {
        return false;
    }
    if s[n - 1] == 46 {
        return false;
    }
    let mut seen_dot = false;
    let mut i: usize = 0;
    while i < n
        invariant
            n == s.len(),
            0 < n,
            i <= n,
            s@[n - 1] != 46,
            seen_dot <==> exists|k: int| 0 <= k < i && s@[k] == 46,
            forall|k: int| 0 <= k < i ==> is_ident_byte(#[trigger] s@[k]) || s@[k] == 46,
            forall|k: int|
                0 <= k < i && (k == 0 || s@[k - 1] == 46) ==> is_ident_byte(#[trigger] s@[k])
                    && !is_digit_byte(s@[k]),
        decreases n - i,
    {
        let c = s[i];
        if !(ident_byte(c) || c == 46) {
            return false;
        }
        let at_segment_start = i == 0 || s[i - 1] == 46;
        if at_segment_start && (c == 46 || digit_byte(c)) {
            return false;
        }
        if c == 46 {
            seen_dot = true;
            proof {
                assert(s@[i as int] == 46);
            }
        }
        i += 1;
    }
    seen_dot
}

fn check_path(s: &Vec<u8>) -> (r: bool)
    ensures
        r == valid_path(s@),
{
    let n = s.len();
    if n == 0 {
        return false;
    }
    if s[0] != 47 {
        return false;
    }
    if n == 1 {
        return true;
    }
    if s[n - 1] == 47 {
        return false;
    }
    let mut i: usize = 1;
    while i < n
        invariant
            n == s.len(),
            1 < n,
            1 <= i <= n,
            s@[0] == 47,
            s@[n - 1] != 47,
            forall|k: int| 1 <= k < i ==> is_ident_byte(#[trigger] s@[k]) || s@[k] == 47,
            forall|k: int| 1 <= k < i && s@[k - 1] == 47 ==> is_ident_byte(#[trigger] s@[k]),
        decreases n - i,
    {
        let c = s[i];
        if !ident_byte(c) {
            if c != 47 {
                return false;
            }
            if s[i - 1] == 47 {
                return false;
            }
        }
        i += 1;
    }
    true
}

/// A validated object path.
pub struct PathName {
    bytes: Vec<u8>,
}

impl View for PathName {
    type V = Seq<u8>;

    closed spec fn view(&self) -> Seq<u8> {
        self.bytes@
    }
}

impl PathName {
    /// The path is well formed.
    pub open spec fn wf(&self) -> bool {
        valid_path(self@)
    }

    /// Validates `bytes` as an object path.
    pub fn new(bytes: Vec<u8>) -> (r: Option<PathName>)
        ensures
            r matches Some(p) ==> p@ == bytes@ && p.wf(),
            r is Some <==> valid_path(bytes@),
    {
        if check_path(&bytes) {
            Some(PathName { bytes })
        } else {
            None
        }
    }

    pub(crate) fn from_raw(bytes: Vec<u8>) -> (r: PathName)
        ensures
            r@ == bytes@,
    {
        PathName { bytes }
    }

    /// The normalized byte form.
    pub fn as_bytes(&self) -> (r: &Vec<u8>)
        ensures
            r@ == self@,
    {
        &self.bytes
    }

    /// A fresh identifier with the same normalized form.
    pub fn dup(&self) -> (r: PathName)
        ensures
            r@ == self@,
    {
        PathName { bytes: copy_bytes(&self.bytes) }
    }
}

/// A validated interface name.
pub struct InterfaceName {
    bytes: Vec<u8>,
}

impl View for InterfaceName {
    type V = Seq<u8>;

    closed spec fn view(&self) -> Seq<u8> {
        self.bytes@
    }
}

impl InterfaceName {
    /// The interface name is well formed.
    pub open spec fn wf(&self) -> bool {
        valid_interface(self@)
    }

    /// Validates `bytes` as an interface name.
    pub fn new(bytes: Vec<u8>) -> (r: Option<InterfaceName>)
        ensures
            r matches Some(p) ==> p@ == bytes@ && p.wf(),
            r is Some <==> valid_interface(bytes@),
    {
        if check_interface(&bytes) {
            Some(InterfaceName { bytes })
        } else {
            None
        }
    }

    pub(crate) fn from_raw(bytes: Vec<u8>) -> (r: InterfaceName)
        ensures
            r@ == bytes@,
    {
        InterfaceName { bytes }
    }

    /// The normalized byte form.
    pub fn as_bytes(&self) -> (r: &Vec<u8>)
        ensures
            r@ == self@,
    {
        &self.bytes
    }

    /// A fresh identifier with the same normalized form.
    pub fn dup(&self) -> (r: InterfaceName)
        ensures
            r@ == self@,
    {
        InterfaceName { bytes: copy_bytes(&self.bytes) }
    }
}

/// A validated member (method or property) name.
pub struct MemberName {
    bytes: Vec<u8>,
}

impl View for MemberName {
    type V = Seq<u8>;

    closed spec fn view(&self) -> Seq<u8> {
        self.bytes@
    }
}

impl MemberName {
    /// The member name is well formed.
    pub open spec fn wf(&self) -> bool {
        valid_member(self@)
    }

    /// Validates `bytes` as a member name.
    pub fn new(bytes: Vec<u8>) -> (r: Option<MemberName>)
        ensures
            r matches Some(p) ==> p@ == bytes@ && p.wf(),
            r is Some <==> valid_member(bytes@),
    {
        if check_member(&bytes) {
            Some(MemberName { bytes })
        } else {
            None
        }
    }

    pub(crate) fn from_raw(bytes: Vec<u8>) -> (r: MemberName)
        ensures
            r@ == bytes@,
    {
        MemberName { bytes }
    }

    /// The normalized byte form.
    pub fn as_bytes(&self) -> (r: &Vec<u8>)
        ensures
            r@ == self@,
    {
        &self.bytes
    }

    /// A fresh identifier with the same normalized form.
    pub fn dup(&self) -> (r: MemberName)
        ensures
            r@ == self@,
    {
        MemberName { bytes: copy_bytes(&self.bytes) }
    }
}

} // verus!
