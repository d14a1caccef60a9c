use vstd::prelude::*;

verus! {

/// The protocol spoken on a connection.
#[derive(Copy, Clone, Debug, PartialEq, Eq, Hash, Structural)]
pub enum Protocol {
    Http1,
    Http2,
}

} // verus!
