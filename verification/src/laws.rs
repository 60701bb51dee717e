//! The laws that relate embedding, extraction, equality and duplication.
//!
//! Embedding and extraction are spoken of through the spec functions that
//! specify them (`from_spec`, `try_into_spec`); equality through `eq_spec`,
//! which is what `==` computes. Where an operation has no spec function of
//! its own (duplication, embedding borrowed text), the law speaks of every
//! value that the operation may return.

use crate::error::IpldTypeError;
use crate::leaf::IpldBool;
use crate::leaf::IpldBytes;
use crate::leaf::IpldFloat;
use crate::leaf::IpldInteger;
use crate::leaf::IpldLink;
use crate::leaf::IpldString;
use crate::untyped::Ipld;
use vstd::prelude::*;
use vstd::std_specs::cmp::PartialEqSpec;
use vstd::std_specs::convert::FromSpec;
use vstd::std_specs::convert::TryIntoSpec;

verus! {

/// Round trip, booleans: extracting a boolean from an embedded boolean leaf
/// gives that leaf back, unchanged.
pub proof fn round_trip_bool(leaf: IpldBool)
    ensures
        <Ipld as TryIntoSpec<IpldBool>>::try_into_spec(
            <Ipld as FromSpec<IpldBool>>::from_spec(leaf),
        ) == Ok::<IpldBool, IpldTypeError>(leaf),
{
}

/// Round trip, integers: extracting an integer from an embedded integer leaf
/// gives that leaf back, unchanged.
pub proof fn round_trip_integer(leaf: IpldInteger)
    ensures
        <Ipld as TryIntoSpec<IpldInteger>>::try_into_spec(
            <Ipld as FromSpec<IpldInteger>>::from_spec(leaf),
        ) == Ok::<IpldInteger, IpldTypeError>(leaf),
{
}

/// Round trip, floats: extracting a float from an embedded float leaf gives
/// that leaf back, unchanged.
pub proof fn round_trip_float(leaf: IpldFloat)
    ensures
        <Ipld as TryIntoSpec<IpldFloat>>::try_into_spec(
            <Ipld as FromSpec<IpldFloat>>::from_spec(leaf),
        ) == Ok::<IpldFloat, IpldTypeError>(leaf),
{
}

/// Round trip, text: extracting text from an embedded text leaf gives that
/// leaf back, unchanged.
pub proof fn round_trip_string(leaf: IpldString)
    ensures
        <Ipld as TryIntoSpec<IpldString>>::try_into_spec(
            <Ipld as FromSpec<IpldString>>::from_spec(leaf),
        ) == Ok::<IpldString, IpldTypeError>(leaf),
{
}

/// Round trip, bytes: extracting bytes from an embedded byte-sequence leaf
/// gives that leaf back, unchanged.
pub proof fn round_trip_bytes(leaf: IpldBytes)
    ensures
        <Ipld as TryIntoSpec<IpldBytes>>::try_into_spec(
            <Ipld as FromSpec<IpldBytes>>::from_spec(leaf),
        ) == Ok::<IpldBytes, IpldTypeError>(leaf),
{
}

/// Round trip, links: extracting a link from an embedded link leaf gives
/// that leaf back, unchanged.
pub proof fn round_trip_link(leaf: IpldLink)
    ensures
        <Ipld as TryIntoSpec<IpldLink>>::try_into_spec(
            <Ipld as FromSpec<IpldLink>>::from_spec(leaf),
        ) == Ok::<IpldLink, IpldTypeError>(leaf),
{
}

/// Mismatch, booleans: from a value that holds no boolean, extracting a
/// boolean fails with `NotBool`.
pub proof fn mismatch_bool(ipld: Ipld)
    requires
        !(ipld is Bool),
    ensures
        <Ipld as TryIntoSpec<IpldBool>>::try_into_spec(ipld) == Err::<IpldBool, IpldTypeError>(
            IpldTypeError::NotBool,
        ),
{
}

/// Mismatch, integers: from a value that holds no integer, extracting an
/// integer fails with `NotInteger`.
pub proof fn mismatch_integer(ipld: Ipld)
    requires
        !(ipld is Integer),
    ensures
        <Ipld as TryIntoSpec<IpldInteger>>::try_into_spec(ipld) == Err::<
            IpldInteger,
            IpldTypeError,
        >(IpldTypeError::NotInteger),
{
}

/// Mismatch, floats: from a value that holds no float, extracting a float
/// fails with `NotFloat`.
pub proof fn mismatch_float(ipld: Ipld)
    requires
        !(ipld is Float),
    ensures
        <Ipld as TryIntoSpec<IpldFloat>>::try_into_spec(ipld) == Err::<IpldFloat, IpldTypeError>(
            IpldTypeError::NotFloat,
        ),
{
}

/// Mismatch, text: from a value that holds no text, extracting text fails
/// with `NotString`.
pub proof fn mismatch_string(ipld: Ipld)
    requires
        !(ipld is String),
    ensures
        <Ipld as TryIntoSpec<IpldString>>::try_into_spec(ipld) == Err::<IpldString, IpldTypeError>(
            IpldTypeError::NotString,
        ),
{
}

/// Mismatch, bytes: from a value that holds no byte sequence, extracting
/// bytes fails with `NotBytes`.
pub proof fn mismatch_bytes(ipld: Ipld)
    requires
        !(ipld is Bytes),
    ensures
        <Ipld as TryIntoSpec<IpldBytes>>::try_into_spec(ipld) == Err::<IpldBytes, IpldTypeError>(
            IpldTypeError::NotBytes,
        ),
{
}

/// Mismatch, links: from a value that holds no link, extracting a link fails
/// with `NotLink`.
pub proof fn mismatch_link(ipld: Ipld)
    requires
        !(ipld is Link),
    ensures
        <Ipld as TryIntoSpec<IpldLink>>::try_into_spec(ipld) == Err::<IpldLink, IpldTypeError>(
            IpldTypeError::NotLink,
        ),
{
}

/// Equality: two untyped values are equal exactly when they hold the same
/// alternative and their payloads are equal. Values of different
/// alternatives are never equal.
pub proof fn equality_is_structural(left: Ipld, right: Ipld)
    ensures
        left.eq_spec(&right) <==> match (left, right) {
            (Ipld::Null, Ipld::Null) => true,
            (Ipld::Bool(a), Ipld::Bool(b)) => a.eq_spec(&b),
            (Ipld::Integer(a), Ipld::Integer(b)) => a.eq_spec(&b),
            (Ipld::Float(a), Ipld::Float(b)) => a.eq_spec(&b),
            (Ipld::String(a), Ipld::String(b)) => a.eq_spec(&b),
            (Ipld::Bytes(a), Ipld::Bytes(b)) => a.eq_spec(&b),
            (Ipld::Link(a), Ipld::Link(b)) => a.eq_spec(&b),
            _ => false,
        },
        !left.same_alternative(right) ==> !left.eq_spec(&right),
{
}

/// Duplication: a clone of a value is equal to that value.
pub proof fn duplicate_is_equal(source: Ipld, copy: Ipld)
    requires
        cloned::<Ipld>(source, copy),
    ensures
        copy.eq_spec(&source),
        source.eq_spec(&copy),
{
}

/// Text convenience, owned text: embedding a `String` directly gives the
/// very value that making the text leaf first and embedding it gives.
pub proof fn text_convenience_owned(text: String)
    ensures
        <Ipld as FromSpec<String>>::from_spec(text) == <Ipld as FromSpec<IpldString>>::from_spec(
            <IpldString as FromSpec<String>>::from_spec(text),
        ),
{
}

/// Text convenience, borrowed text: whatever embedding a `&str` directly
/// returns is equal to whatever making the text leaf first and embedding it
/// returns.
pub proof fn text_convenience_borrowed(text: &str, direct: Ipld, leaf: IpldString, staged: Ipld)
    requires
        call_ensures(<Ipld as From<&str>>::from, (text,), direct),
        call_ensures(<IpldString as From<&str>>::from, (text,), leaf),
        call_ensures(<Ipld as From<IpldString>>::from, (leaf,), staged),
    ensures
        direct.eq_spec(&staged),
{
}

} // verus!
