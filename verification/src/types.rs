//! Plain value types shared by every component.

use vstd::prelude::*;

verus! {

/// Identifier of a request, issued by the allocator in insertion order.
pub type RequestId = u64;

/// An already-authenticated account identifier.  The host authenticates
/// callers; the library receives the identity as a plain value.
pub type AccountId = u64;

/// An amount of currency.
pub type Balance = u64;

/// A moment supplied by the external time source.
pub type Timestamp = u64;

} // verus!
