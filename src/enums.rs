use vstd::prelude::*;

verus! {

/// The kind of an IP address, with the address itself.
pub enum IpAddrKind {
    V4(u8, u8, u8, u8),
    V6(String),
}

/// An address with its kind.
pub struct IPAddr {
    pub kind: IpAddrKind,
    pub address: String,
}

/// A message that a program can receive.
pub enum Message {
    Quit,
    Move { x: i32, y: i32 },
    Write(String),
    ChangeColor(i32, i32, i32),
}

/// The loopback address of version 4.
pub fn localhost() -> (r: IpAddrKind)
    ensures
        r == IpAddrKind::V4(127, 0, 0, 1),
{
    IpAddrKind::V4(127, 0, 0, 1)
}

/// Takes an address kind and does nothing with it.
pub fn route(ip_kind: IpAddrKind) {
}

} // verus!
