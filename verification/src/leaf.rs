//! Typed leaf values: one wrapper for each primitive kind of the data model.
//!
//! Every wrapper keeps its payload private and is known to the rest of the
//! crate through its view alone. Two leaves of one kind are equal (`==`)
//! exactly when their views are equal.

use vstd::prelude::*;
use vstd::std_specs::cmp::PartialEqSpecImpl;
use vstd::std_specs::convert::FromSpecImpl;

verus! {

/// A boolean leaf value. Its view is the boolean it holds.
#[derive(Debug)]
pub struct IpldBool(bool);

impl View for IpldBool {
    type V = bool;

    closed spec fn view(&self) -> bool {
        self.0
    }
}

impl IpldBool {
    /// The boolean held by this leaf.
    pub fn get(&self) -> (value: bool)
        ensures
            value == self@,
    {
        self.0
    }
}

impl From<bool> for IpldBool {
    fn from(value: bool) -> (leaf: Self)
        ensures
            leaf@ == value,
    {
        IpldBool(value)
    }
}

impl FromSpecImpl<bool> for IpldBool {
    open spec fn obeys_from_spec() -> bool {
        true
    }

    closed spec fn from_spec(value: bool) -> Self {
        IpldBool(value)
    }
}

impl Clone for IpldBool {
    fn clone(&self) -> (copy: Self)
        ensures
            copy == *self,
    {
        IpldBool(self.0)
    }
}

impl PartialEq for IpldBool {
    fn eq(&self, other: &Self) -> (equal: bool)
        ensures
            equal == (self@ == other@),
    {
        self.0 == other.0
    }
}

impl PartialEqSpecImpl for IpldBool {
    open spec fn obeys_eq_spec() -> bool {
        true
    }

    open spec fn eq_spec(&self, other: &Self) -> bool {
        self@ == other@
    }
}

/// An integer leaf value, in the range of `i128`. Its view is the integer it
/// holds.
#[derive(Debug)]
pub struct IpldInteger(i128);

impl View for IpldInteger {
    type V = int;

    closed spec fn view(&self) -> int {
        self.0 as int
    }
}

impl IpldInteger {
    /// The integer held by this leaf.
    pub fn get(&self) -> (value: i128)
        ensures
            value == self@,
    {
        self.0
    }
}

impl From<i128> for IpldInteger {
    fn from(value: i128) -> (leaf: Self)
        ensures
            leaf@ == value,
    {
        IpldInteger(value)
    }
}

impl FromSpecImpl<i128> for IpldInteger {
    open spec fn obeys_from_spec() -> bool {
        true
    }

    closed spec fn from_spec(value: i128) -> Self {
        IpldInteger(value)
    }
}

impl Clone for IpldInteger {
    fn clone(&self) -> (copy: Self)
        ensures
            copy == *self,
    {
        IpldInteger(self.0)
    }
}

impl PartialEq for IpldInteger {
    fn eq(&self, other: &Self) -> (equal: bool)
        ensures
            equal == (self@ == other@),
    {
        self.0 == other.0
    }
}

impl PartialEqSpecImpl for IpldInteger {
    open spec fn obeys_eq_spec() -> bool {
        true
    }

    open spec fn eq_spec(&self, other: &Self) -> bool {
        self@ == other@
    }
}

/// A floating point leaf value, held as the 64 bits of its IEEE 754
/// binary64 encoding. Its view is that bit pattern.
///
/// Equality is equality of bit patterns: a NaN equals itself, and the two
/// zeros differ.
#[derive(Debug)]
pub struct IpldFloat(u64);

impl View for IpldFloat {
    type V = u64;

    closed spec fn view(&self) -> u64 {
        self.0
    }
}

impl IpldFloat {
    /// The leaf whose encoding is `bits`.
    pub fn from_bits(bits: u64) -> (leaf: Self)
        ensures
            leaf@ == bits,
    {
        IpldFloat(bits)
    }

    /// The encoding of this leaf.
    pub fn to_bits(&self) -> (bits: u64)
        ensures
            bits == self@,
    {
        self.0
    }
}

impl Clone for IpldFloat {
    fn clone(&self) -> (copy: Self)
        ensures
            copy == *self,
    {
        IpldFloat(self.0)
    }
}

impl PartialEq for IpldFloat {
    fn eq(&self, other: &Self) -> (equal: bool)
        ensures
            equal == (self@ == other@),
    {
        self.0 == other.0
    }
}

impl PartialEqSpecImpl for IpldFloat {
    open spec fn obeys_eq_spec() -> bool {
        true
    }

    open spec fn eq_spec(&self, other: &Self) -> bool {
        self@ == other@
    }
}

/// A text leaf value. Its view is the sequence of its characters.
#[derive(Debug)]
pub struct IpldString(String);

impl View for IpldString {
    type V = Seq<char>;

    closed spec fn view(&self) -> Seq<char> {
        self.0@
    }
}

impl IpldString {
    /// The text held by this leaf.
    pub fn as_str(&self) -> (text: &str)
        ensures
            text@ == self@,
    {
        self.0.as_str()
    }

    /// Gives up the leaf for the string it holds.
    pub fn into_string(self) -> (text: String)
        ensures
            text@ == self@,
    {
        self.0
    }
}

impl From<String> for IpldString {
    fn from(text: String) -> (leaf: Self)
        ensures
            leaf@ == text@,
    {
        IpldString(text)
    }
}

impl FromSpecImpl<String> for IpldString {
    open spec fn obeys_from_spec() -> bool {
        true
    }

    closed spec fn from_spec(text: String) -> Self {
        IpldString(text)
    }
}

impl From<&str> for IpldString {
    fn from(text: &str) -> (leaf: Self)
        ensures
            leaf@ == text@,
    {
        IpldString(text.to_owned())
    }
}

/// The leaf made from borrowed text holds a fresh copy of it, which only its
/// view determines: `from` is specified by its own `ensures`, not by
/// `from_spec`.
impl FromSpecImpl<&str> for IpldString {
    open spec fn obeys_from_spec() -> bool {
        false
    }

    closed spec fn from_spec(text: &str) -> Self {
        choose|leaf: IpldString| leaf@ == text@
    }
}

impl Clone for IpldString {
    fn clone(&self) -> (copy: Self)
        ensures
            copy == *self,
    {
        IpldString(self.0.clone())
    }
}

impl PartialEq for IpldString {
    fn eq(&self, other: &Self) -> (equal: bool)
        ensures
            equal == (self@ == other@),
    {
        self.0 == other.0
    }
}

impl PartialEqSpecImpl for IpldString {
    open spec fn obeys_eq_spec() -> bool {
        true
    }

    open spec fn eq_spec(&self, other: &Self) -> bool {
        self@ == other@
    }
}

/// A byte-sequence leaf value. Its view is the sequence of its bytes.
#[derive(Debug)]
pub struct IpldBytes(Vec<u8>);

impl View for IpldBytes {
    type V = Seq<u8>;

    closed spec fn view(&self) -> Seq<u8> {
        self.0@
    }
}

impl IpldBytes {
    /// The bytes held by this leaf.
    pub fn as_slice(&self) -> (bytes: &[u8])
        ensures
            bytes@ == self@,
    {
        self.0.as_slice()
    }

    /// Gives up the leaf for the buffer it holds.
    pub fn into_vec(self) -> (bytes: Vec<u8>)
        ensures
            bytes@ == self@,
    {
        self.0
    }
}

impl From<Vec<u8>> for IpldBytes {
    fn from(bytes: Vec<u8>) -> (leaf: Self)
        ensures
            leaf@ == bytes@,
    {
        IpldBytes(bytes)
    }
}

impl FromSpecImpl<Vec<u8>> for IpldBytes {
    open spec fn obeys_from_spec() -> bool {
        true
    }

    closed spec fn from_spec(bytes: Vec<u8>) -> Self {
        IpldBytes(bytes)
    }
}

impl Clone for IpldBytes {
    fn clone(&self) -> (copy: Self)
        ensures
            copy@ == self@,
    {
        IpldBytes(self.0.clone())
    }
}

impl PartialEq for IpldBytes {
    fn eq(&self, other: &Self) -> (equal: bool)
        ensures
            equal == (self@ == other@),
    {
        let equal = self.0 == other.0;
        assert(equal == (self.0@ =~= other.0@));
        equal
    }
}

impl PartialEqSpecImpl for IpldBytes {
    open spec fn obeys_eq_spec() -> bool {
        true
    }

    open spec fn eq_spec(&self, other: &Self) -> bool {
        self@ == other@
    }
}

/// A link leaf value: it points to another node of the data model, and is
/// held as the bytes of that node's content address. Its view is that byte
/// sequence.
#[derive(Debug)]
pub struct IpldLink(Vec<u8>);

impl View for IpldLink {
    type V = Seq<u8>;

    closed spec fn view(&self) -> Seq<u8> {
        self.0@
    }
}

impl IpldLink {
    /// The bytes of the content address held by this leaf.
    pub fn as_bytes(&self) -> (address: &[u8])
        ensures
            address@ == self@,
    {
        self.0.as_slice()
    }

    /// Gives up the leaf for the buffer it holds.
    pub fn into_bytes(self) -> (address: Vec<u8>)
        ensures
            address@ == self@,
    {
        self.0
    }
}

impl From<Vec<u8>> for IpldLink {
    fn from(address: Vec<u8>) -> (leaf: Self)
        ensures
            leaf@ == address@,
    {
        IpldLink(address)
    }
}

impl FromSpecImpl<Vec<u8>> for IpldLink {
    open spec fn obeys_from_spec() -> bool {
        true
    }

    closed spec fn from_spec(address: Vec<u8>) -> Self {
        IpldLink(address)
    }
}

impl Clone for IpldLink {
    fn clone(&self) -> (copy: Self)
        ensures
            copy@ == self@,
    {
        IpldLink(self.0.clone())
    }
}

impl PartialEq for IpldLink {
    fn eq(&self, other: &Self) -> (equal: bool)
        ensures
            equal == (self@ == other@),
    {
        let equal = self.0 == other.0;
        assert(equal == (self.0@ =~= other.0@));
        equal
    }
}

impl PartialEqSpecImpl for IpldLink {
    open spec fn obeys_eq_spec() -> bool {
        true
    }

    open spec fn eq_spec(&self, other: &Self) -> bool {
        self@ == other@
    }
}

} // verus!
