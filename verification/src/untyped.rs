//! Untyped `Ipld` representation.
//!
//! An [`Ipld`] holds exactly one leaf value, or none. Embedding a leaf
//! (`Ipld::from`) always succeeds and keeps the leaf as it is; extracting a
//! leaf of an expected kind (`try_into`) succeeds exactly when that kind is
//! the active one, and otherwise reports the error named after the expected
//! kind. Nothing is ever coerced from one kind to another.

use crate::error::IpldTypeError;
use crate::leaf::IpldBool;
use crate::leaf::IpldBytes;
use crate::leaf::IpldFloat;
use crate::leaf::IpldInteger;
use crate::leaf::IpldLink;
use crate::leaf::IpldString;
use vstd::prelude::*;
use vstd::std_specs::cmp::PartialEqSpecImpl;
use vstd::std_specs::convert::FromSpec;
use vstd::std_specs::convert::FromSpecImpl;
use vstd::std_specs::convert::TryIntoSpecImpl;

verus! {

/// What an untyped value is, mathematically: the active alternative together
/// with the view of its payload.
pub enum Scalar {
    /// The absence of a value.
    Null,
    /// A boolean.
    Bool(bool),
    /// An integer.
    Integer(int),
    /// A float, as the bits of its encoding.
    Float(u64),
    /// Text, as its sequence of characters.
    Text(Seq<char>),
    /// A sequence of bytes.
    Bytes(Seq<u8>),
    /// A link, as the bytes of the content address it refers to.
    Link(Seq<u8>),
}

/// Untyped `Ipld` representation.
#[derive(Debug)]
pub enum Ipld {
    /// Represents the absence of a value or the value undefined.
    Null,
    /// Represents a boolean value.
    Bool(IpldBool),
    /// Represents an integer.
    Integer(IpldInteger),
    /// Represents a floating point value.
    Float(IpldFloat),
    /// Represents an UTF-8 string.
    String(IpldString),
    /// Represents a sequence of bytes.
    Bytes(IpldBytes),
    /// Represents a link to an Ipld node
    Link(IpldLink),
}

impl View for Ipld {
    type V = Scalar;

    open spec fn view(&self) -> Scalar {
        match self {
            Ipld::Null => Scalar::Null,
            Ipld::Bool(leaf) => Scalar::Bool(leaf@),
            Ipld::Integer(leaf) => Scalar::Integer(leaf@),
            Ipld::Float(leaf) => Scalar::Float(leaf@),
            Ipld::String(leaf) => Scalar::Text(leaf@),
            Ipld::Bytes(leaf) => Scalar::Bytes(leaf@),
            Ipld::Link(leaf) => Scalar::Link(leaf@),
        }
    }
}

impl Ipld {
    /// Whether `self` and `other` hold the same alternative.
    pub open spec fn same_alternative(self, other: Ipld) -> bool {
        match (self, other) {
            (Ipld::Null, Ipld::Null) => true,
            (Ipld::Bool(_), Ipld::Bool(_)) => true,
            (Ipld::Integer(_), Ipld::Integer(_)) => true,
            (Ipld::Float(_), Ipld::Float(_)) => true,
            (Ipld::String(_), Ipld::String(_)) => true,
            (Ipld::Bytes(_), Ipld::Bytes(_)) => true,
            (Ipld::Link(_), Ipld::Link(_)) => true,
            _ => false,
        }
    }
}

/// Embeds a text leaf: the value holds that very leaf.
impl From<IpldString> for Ipld {
    fn from(string: IpldString) -> (ipld: Ipld)
        ensures
            ipld == Ipld::String(string),
    {
        Ipld::String(string)
    }
}

impl FromSpecImpl<IpldString> for Ipld {
    open spec fn obeys_from_spec() -> bool {
        true
    }

    open spec fn from_spec(string: IpldString) -> Ipld {
        Ipld::String(string)
    }
}

/// Extracts the text leaf: succeeds exactly when text is what the value
/// holds, and fails with `NotString` otherwise.
impl TryInto<IpldString> for Ipld {
    type Error = IpldTypeError;

    fn try_into(self) -> (outcome: Result<IpldString, IpldTypeError>)
        ensures
            match outcome {
                Ok(string) => self == Ipld::String(string),
                Err(error) => !(self is String) && error == IpldTypeError::NotString,
            },
    {
        match self {
            Ipld::String(string) => Ok(string),
            _ => Err(IpldTypeError::NotString),
        }
    }
}

impl TryIntoSpecImpl<IpldString> for Ipld {
    open spec fn obeys_try_into_spec() -> bool {
        true
    }

    open spec fn try_into_spec(self) -> Result<IpldString, IpldTypeError> {
        match self {
            Ipld::String(string) => Ok(string),
            _ => Err(IpldTypeError::NotString),
        }
    }
}

/// Embeds owned text: the same as making the text leaf from it and embedding
/// that.
impl From<String> for Ipld {
    fn from(string: String) -> (ipld: Ipld)
        ensures
            ipld == Ipld::String(<IpldString as FromSpec<String>>::from_spec(string)),
            ipld@ == Scalar::Text(string@),
    {
        Ipld::from(IpldString::from(string))
    }
}

impl FromSpecImpl<String> for Ipld {
    open spec fn obeys_from_spec() -> bool {
        true
    }

    open spec fn from_spec(string: String) -> Ipld {
        Ipld::String(<IpldString as FromSpec<String>>::from_spec(string))
    }
}

/// Embeds borrowed text: the value holds a text leaf with the characters of
/// `string`.
impl From<&str> for Ipld {
    fn from(string: &str) -> (ipld: Ipld)
        ensures
            ipld@ == Scalar::Text(string@),
    {
        Ipld::from(IpldString::from(string))
    }
}

/// Borrowed text is copied into a fresh leaf, which only its view
/// determines: `from` is specified by its own `ensures`, not by `from_spec`.
impl FromSpecImpl<&str> for Ipld {
    open spec fn obeys_from_spec() -> bool {
        false
    }

    open spec fn from_spec(string: &str) -> Ipld {
        Ipld::String(<IpldString as FromSpec<&str>>::from_spec(string))
    }
}

/// Embeds a boolean leaf: the value holds that very leaf.
impl From<IpldBool> for Ipld {
    fn from(boolean: IpldBool) -> (ipld: Ipld)
        ensures
            ipld == Ipld::Bool(boolean),
    {
        Ipld::Bool(boolean)
    }
}

impl FromSpecImpl<IpldBool> for Ipld {
    open spec fn obeys_from_spec() -> bool {
        true
    }

    open spec fn from_spec(boolean: IpldBool) -> Ipld {
        Ipld::Bool(boolean)
    }
}

/// Extracts the boolean leaf: succeeds exactly when a boolean is what the value
/// holds, and fails with `NotBool` otherwise.
impl TryInto<IpldBool> for Ipld {
    type Error = IpldTypeError;

    fn try_into(self) -> (outcome: Result<IpldBool, IpldTypeError>)
        ensures
            match outcome {
                Ok(boolean) => self == Ipld::Bool(boolean),
                Err(error) => !(self is Bool) && error == IpldTypeError::NotBool,
            },
    {
        match self {
            Ipld::Bool(boolean) => Ok(boolean),
            _ => Err(IpldTypeError::NotBool),
        }
    }
}

impl TryIntoSpecImpl<IpldBool> for Ipld {
    open spec fn obeys_try_into_spec() -> bool {
        true
    }

    open spec fn try_into_spec(self) -> Result<IpldBool, IpldTypeError> {
        match self {
            Ipld::Bool(boolean) => Ok(boolean),
            _ => Err(IpldTypeError::NotBool),
        }
    }
}

/// Embeds an integer leaf: the value holds that very leaf.
impl From<IpldInteger> for Ipld {
    fn from(integer: IpldInteger) -> (ipld: Ipld)
        ensures
            ipld == Ipld::Integer(integer),
    {
        Ipld::Integer(integer)
    }
}

impl FromSpecImpl<IpldInteger> for Ipld {
    open spec fn obeys_from_spec() -> bool {
        true
    }

    open spec fn from_spec(integer: IpldInteger) -> Ipld {
        Ipld::Integer(integer)
    }
}

/// Extracts the integer leaf: succeeds exactly when an integer is what the value
/// holds, and fails with `NotInteger` otherwise.
impl TryInto<IpldInteger> for Ipld {
    type Error = IpldTypeError;

    fn try_into(self) -> (outcome: Result<IpldInteger, IpldTypeError>)
        ensures
            match outcome {
                Ok(integer) => self == Ipld::Integer(integer),
                Err(error) => !(self is Integer) && error == IpldTypeError::NotInteger,
            },
    {
        match self {
            Ipld::Integer(integer) => Ok(integer),
            _ => Err(IpldTypeError::NotInteger),
        }
    }
}

impl TryIntoSpecImpl<IpldInteger> for Ipld {
    open spec fn obeys_try_into_spec() -> bool {
        true
    }

    open spec fn try_into_spec(self) -> Result<IpldInteger, IpldTypeError> {
        match self {
            Ipld::Integer(integer) => Ok(integer),
            _ => Err(IpldTypeError::NotInteger),
        }
    }
}

/// Embeds a float leaf: the value holds that very leaf.
impl From<IpldFloat> for Ipld {
    fn from(float: IpldFloat) -> (ipld: Ipld)
        ensures
            ipld == Ipld::Float(float),
    {
        Ipld::Float(float)
    }
}

impl FromSpecImpl<IpldFloat> for Ipld {
    open spec fn obeys_from_spec() -> bool {
        true
    }

    open spec fn from_spec(float: IpldFloat) -> Ipld {
        Ipld::Float(float)
    }
}

/// Extracts the float leaf: succeeds exactly when a float is what the value
/// holds, and fails with `NotFloat` otherwise.
impl TryInto<IpldFloat> for Ipld {
    type Error = IpldTypeError;

    fn try_into(self) -> (outcome: Result<IpldFloat, IpldTypeError>)
        ensures
            match outcome {
                Ok(float) => self == Ipld::Float(float),
                Err(error) => !(self is Float) && error == IpldTypeError::NotFloat,
            },
    {
        match self {
            Ipld::Float(float) => Ok(float),
            _ => Err(IpldTypeError::NotFloat),
        }
    }
}

impl TryIntoSpecImpl<IpldFloat> for Ipld {
    open spec fn obeys_try_into_spec() -> bool {
        true
    }

    open spec fn try_into_spec(self) -> Result<IpldFloat, IpldTypeError> {
        match self {
            Ipld::Float(float) => Ok(float),
            _ => Err(IpldTypeError::NotFloat),
        }
    }
}

/// Embeds a byte-sequence leaf: the value holds that very leaf.
impl From<IpldBytes> for Ipld {
    fn from(bytes: IpldBytes) -> (ipld: Ipld)
        ensures
            ipld == Ipld::Bytes(bytes),
    {
        Ipld::Bytes(bytes)
    }
}

impl FromSpecImpl<IpldBytes> for Ipld {
    open spec fn obeys_from_spec() -> bool {
        true
    }

    open spec fn from_spec(bytes: IpldBytes) -> Ipld {
        Ipld::Bytes(bytes)
    }
}

/// Extracts the byte-sequence leaf: succeeds exactly when a byte sequence is what the value
/// holds, and fails with `NotBytes` otherwise.
impl TryInto<IpldBytes> for Ipld {
    type Error = IpldTypeError;

    fn try_into(self) -> (outcome: Result<IpldBytes, IpldTypeError>)
        ensures
            match outcome {
                Ok(bytes) => self == Ipld::Bytes(bytes),
                Err(error) => !(self is Bytes) && error == IpldTypeError::NotBytes,
            },
    {
        match self {
            Ipld::Bytes(bytes) => Ok(bytes),
            _ => Err(IpldTypeError::NotBytes),
        }
    }
}

impl TryIntoSpecImpl<IpldBytes> for Ipld {
    open spec fn obeys_try_into_spec() -> bool {
        true
    }

    open spec fn try_into_spec(self) -> Result<IpldBytes, IpldTypeError> {
        match self {
            Ipld::Bytes(bytes) => Ok(bytes),
            _ => Err(IpldTypeError::NotBytes),
        }
    }
}

/// Embeds a link leaf: the value holds that very leaf.
impl From<IpldLink> for Ipld {
    fn from(link: IpldLink) -> (ipld: Ipld)
        ensures
            ipld == Ipld::Link(link),
    {
        Ipld::Link(link)
    }
}

impl FromSpecImpl<IpldLink> for Ipld {
    open spec fn obeys_from_spec() -> bool {
        true
    }

    open spec fn from_spec(link: IpldLink) -> Ipld {
        Ipld::Link(link)
    }
}

/// Extracts the link leaf: succeeds exactly when a link is what the value
/// holds, and fails with `NotLink` otherwise.
impl TryInto<IpldLink> for Ipld {
    type Error = IpldTypeError;

    fn try_into(self) -> (outcome: Result<IpldLink, IpldTypeError>)
        ensures
            match outcome {
                Ok(link) => self == Ipld::Link(link),
                Err(error) => !(self is Link) && error == IpldTypeError::NotLink,
            },
    {
        match self {
            Ipld::Link(link) => Ok(link),
            _ => Err(IpldTypeError::NotLink),
        }
    }
}

impl TryIntoSpecImpl<IpldLink> for Ipld {
    open spec fn obeys_try_into_spec() -> bool {
        true
    }

    open spec fn try_into_spec(self) -> Result<IpldLink, IpldTypeError> {
        match self {
            Ipld::Link(link) => Ok(link),
            _ => Err(IpldTypeError::NotLink),
        }
    }
}

/// Duplicates the value. The copy is equal to `self` and owns its payload:
/// it shares nothing with `self`.
impl Clone for Ipld {
    fn clone(&self) -> (copy: Self)
        ensures
            copy@ == self@,
    {
        match self {
            Ipld::Null => Ipld::Null,
            Ipld::Bool(leaf) => Ipld::Bool(leaf.clone()),
            Ipld::Integer(leaf) => Ipld::Integer(leaf.clone()),
            Ipld::Float(leaf) => Ipld::Float(leaf.clone()),
            Ipld::String(leaf) => Ipld::String(leaf.clone()),
            Ipld::Bytes(leaf) => Ipld::Bytes(leaf.clone()),
            Ipld::Link(leaf) => Ipld::Link(leaf.clone()),
        }
    }
}

/// Structural equality: the same alternative, with equal payloads.
impl PartialEq for Ipld {
    fn eq(&self, other: &Self) -> (equal: bool)
        ensures
            equal == (self@ == other@),
    {
        match (self, other) {
            (Ipld::Null, Ipld::Null) => true,
            (Ipld::Bool(left), Ipld::Bool(right)) => left == right,
            (Ipld::Integer(left), Ipld::Integer(right)) => left == right,
            (Ipld::Float(left), Ipld::Float(right)) => left == right,
            (Ipld::String(left), Ipld::String(right)) => left == right,
            (Ipld::Bytes(left), Ipld::Bytes(right)) => left == right,
            (Ipld::Link(left), Ipld::Link(right)) => left == right,
            _ => false,
        }
    }
}

/// What `==` means: the two values are the same mathematically.
impl PartialEqSpecImpl for Ipld {
    open spec fn obeys_eq_spec() -> bool {
        true
    }

    open spec fn eq_spec(&self, other: &Self) -> bool {
        self@ == other@
    }
}

} // verus!
