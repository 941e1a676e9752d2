//! The error taxonomy of the catalog.
//!
//! Every catalog operation reports failure as a [`CatalogError`]: a kind out
//! of a closed set, plus a free-text diagnostic message.

use vstd::prelude::*;

verus! {

/// The closed set of failure kinds a catalog operation can report.
#[derive(Debug, Clone, Copy, PartialEq, Eq, Hash, Structural)]
pub enum CatalogErrorKind {
    /// The named share, schema or table does not exist, or exists but is not
    /// visible to the recipient.
    ResourceNotFound,
    /// The named resource exists but the recipient may not access it.
    /// Reserved: lookups currently collapse invisibility into
    /// `ResourceNotFound` so that they do not confirm the existence of
    /// private resources.
    ResourceForbidden,
    /// The pagination token does not parse as a non-negative decimal integer.
    MalformedPagination,
    /// An internal fault: a required entity field was missing during
    /// construction, or the backend failed unexpectedly.
    Internal,
}

impl CatalogErrorKind {
    /// The wire label of this kind.
    pub open spec fn spec_code(self) -> Seq<char> {
        match self {
            CatalogErrorKind::ResourceNotFound => "NOT_FOUND"@,
            CatalogErrorKind::ResourceForbidden => "FORBIDDEN"@,
            CatalogErrorKind::MalformedPagination => "MALFORMED_PAGINATION"@,
            CatalogErrorKind::Internal => "INTERNAL_ERROR"@,
        }
    }

    /// Return the wire label of this kind.
    pub fn code(&self) -> (r: &'static str)
        ensures
            r@ == self.spec_code(),
    {
        match self {
            CatalogErrorKind::ResourceNotFound => "NOT_FOUND",
            CatalogErrorKind::ResourceForbidden => "FORBIDDEN",
            CatalogErrorKind::MalformedPagination => "MALFORMED_PAGINATION",
            CatalogErrorKind::Internal => "INTERNAL_ERROR",
        }
    }
}

/// An error reported by a catalog operation: a kind plus a diagnostic
/// message. The message is free text and not meant for machine parsing.
#[derive(Debug, Clone)]
pub struct CatalogError {
    kind: CatalogErrorKind,
    message: String,
}

impl CatalogError {
    /// The kind of this error.
    pub closed spec fn spec_kind(self) -> CatalogErrorKind {
        self.kind
    }

    /// The diagnostic message of this error.
    pub closed spec fn spec_message(self) -> Seq<char> {
        self.message@
    }

    /// Create a new error with the given kind and message.
    pub fn new(kind: CatalogErrorKind, message: &str) -> (r: Self)
        ensures
            r.spec_kind() == kind,
            r.spec_message() == message@,
    {
        Self { kind, message: message.to_owned() }
    }

    /// Return the kind of the error.
    pub fn kind(&self) -> (r: CatalogErrorKind)
        ensures
            r == self.spec_kind(),
    {
        self.kind
    }

    /// Return the message of the error.
    pub fn message(&self) -> (r: &str)
        ensures
            r@ == self.spec_message(),
    {
        self.message.as_str()
    }

    /// Render the error as `[LABEL] message`, the form in which it is
    /// reported to callers.
    pub fn display_string(&self) -> (r: String)
        ensures
            r@ == "["@ + self.spec_kind().spec_code() + "] "@ + self.spec_message(),
    {
        let mut out = String::new();
        out.append("[");
        out.append(self.kind.code());
        out.append("] ");
        out.append(self.message.as_str());
        proof {
            assert(out@ =~= "["@ + self.spec_kind().spec_code() + "] "@ + self.spec_message());
        }
        out
    }

    /// Create an error reporting that the requested resource was not found.
    pub fn not_found(message: &str) -> (r: Self)
        ensures
            r.spec_kind() == CatalogErrorKind::ResourceNotFound,
            r.spec_message() == message@,
    {
        Self::new(CatalogErrorKind::ResourceNotFound, message)
    }

    /// Create an error reporting that the requested resource is forbidden.
    pub fn forbidden(message: &str) -> (r: Self)
        ensures
            r.spec_kind() == CatalogErrorKind::ResourceForbidden,
            r.spec_message() == message@,
    {
        Self::new(CatalogErrorKind::ResourceForbidden, message)
    }

    /// Create an error reporting a malformed pagination token.
    pub fn malformed_pagination(message: &str) -> (r: Self)
        ensures
            r.spec_kind() == CatalogErrorKind::MalformedPagination,
            r.spec_message() == message@,
    {
        Self::new(CatalogErrorKind::MalformedPagination, message)
    }

    /// Create an error reporting an internal fault of the catalog.
    pub fn internal(message: &str) -> (r: Self)
        ensures
            r.spec_kind() == CatalogErrorKind::Internal,
            r.spec_message() == message@,
    {
        Self::new(CatalogErrorKind::Internal, message)
    }
}

} // verus!
