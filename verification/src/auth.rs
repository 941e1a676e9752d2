//! Recipient identity.
//!
//! The catalog evaluates every listing and lookup against a recipient
//! identity. A recipient is either anonymous or known by a name; the catalog
//! only ever compares the identity string against the recipient lists stored
//! with the shares.

use vstd::prelude::*;

verus! {

/// The identity a catalog operation is evaluated against: anonymous, or a
/// recipient known by name.
///
/// The anonymous recipient is represented towards the catalog by a
/// distinguished sentinel string, so a share whose recipient list explicitly
/// contains that sentinel is visible to anonymous callers as well.
#[derive(Debug, Clone, PartialEq)]
pub enum RecipientId {
    /// An unauthenticated caller.
    Anonymous,
    /// A caller authenticated under the contained name.
    Known(String),
}

impl RecipientId {
    /// The identity string the catalog compares against stored recipient
    /// lists.
    pub open spec fn ident(self) -> Seq<char> {
        match self {
            RecipientId::Anonymous => "ANONYMOUS"@,
            RecipientId::Known(name) => name@,
        }
    }

    /// Create the anonymous recipient.
    pub fn anonymous() -> (r: RecipientId)
        ensures
            r == RecipientId::Anonymous,
    {
        RecipientId::Anonymous
    }

    /// Create a recipient known by the given name.
    pub fn known(name: &str) -> (r: RecipientId)
        ensures
            r is Known,
            r.ident() == name@,
    {
        RecipientId::Known(name.to_owned())
    }

    /// Return the identity string of this recipient.
    pub fn as_str(&self) -> (r: &str)
        ensures
            r@ == self.ident(),
    {
        match self {
            RecipientId::Anonymous => "ANONYMOUS",
            RecipientId::Known(name) => name.as_str(),
        }
    }
}

} // verus!
