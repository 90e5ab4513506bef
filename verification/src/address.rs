//! Socket addresses as plain values, and the book of addresses that were read from text.

use crate::strmap::StrMap;
use vstd::prelude::*;

verus! {

/// An internet socket address. Two addresses are equal when every part is.
#[derive(Debug, Clone, Copy, PartialEq, Eq, Structural)]
pub enum SocketAddress {
    V4 { ip: u32, port: u16 },
    V6 { ip: u128, port: u16, flowinfo: u32, scope_id: u32 },
}

/// The address texts that were read successfully, each with the address it stands for. A text
/// that is not in the book is one that could not be read as a socket address.
pub type AddressBook = StrMap<SocketAddress>;

/// Looks `text` up in the book.
pub fn lookup(book: &AddressBook, text: &str) -> (r: Option<SocketAddress>)
    ensures
        r == spec_lookup(book@, text@),
{
    match book.get(text) {
        Some(a) => Some(*a),
        None => None,
    }
}

/// The address that the book gives for `text`.
pub open spec fn spec_lookup(book: Map<Seq<char>, SocketAddress>, text: Seq<char>) -> Option<
    SocketAddress,
> {
    if book.contains_key(text) {
        Some(book[text])
    } else {
        None
    }
}

} // verus!
