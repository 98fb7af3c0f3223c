//! Internet addresses: the two kinds, and two ways to carry the address
//! itself inside the kind.

use vstd::prelude::*;

verus! {

/// The kind of an internet address: version four or version six.
#[derive(Debug, Clone, Copy, PartialEq, Eq, Structural)]
pub enum IpAddrKind {
    V4,
    V6,
}

/// An address of either kind, written out as text.
#[derive(Debug, PartialEq, Eq)]
pub enum IpAddr {
    V4(String),
    V6(String),
}

/// An address whose shape depends on its kind: four octets for version
/// four, text for version six.
#[derive(Debug, PartialEq, Eq)]
pub enum IpAddrTypes {
    V4(u8, u8, u8, u8),
    V6(String),
}

/// Accepts an address kind, whichever it is. Both kinds are one type, so
/// one function takes them both; it does nothing with what it is given.
pub fn route_enum_kind(_ip_kind: IpAddrKind) {
}

/// Makes one value of each kind and routes both kinds, first as written
/// and then through the values.
pub fn defining_an_enum() {
    let four = IpAddrKind::V4;
    let six = IpAddrKind::V6;

    route_enum_kind(IpAddrKind::V4);
    route_enum_kind(IpAddrKind::V6);
    route_enum_kind(four);
    route_enum_kind(six);
}

/// The home address and the loopback address, both as text: `127.0.0.1`
/// of version four, then `::1` of version six.
pub fn enum_string_values() -> (addresses: (IpAddr, IpAddr))
    ensures
        addresses.0 matches IpAddr::V4(text) && text@ == "127.0.0.1"@,
        addresses.1 matches IpAddr::V6(text) && text@ == "::1"@,
{
    let home = IpAddr::V4("127.0.0.1".to_owned());
    let loopback = IpAddr::V6("::1".to_owned());
    (home, loopback)
}

/// The home address as four octets, 127, 0, 0 and 1, then the loopback
/// address `::1` as text.
pub fn enum_different_types() -> (addresses: (IpAddrTypes, IpAddrTypes))
    ensures
        addresses.0 == IpAddrTypes::V4(127, 0, 0, 1),
        addresses.1 matches IpAddrTypes::V6(text) && text@ == "::1"@,
{
    let home = IpAddrTypes::V4(127, 0, 0, 1);
    let loopback = IpAddrTypes::V6("::1".to_owned());
    (home, loopback)
}

} // verus!
