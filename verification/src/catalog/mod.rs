//! Types and operations for listing and reading shared assets.
//!
//! The [`Catalog`] trait is the capability interface of the catalog: list
//! shares, schemas and tables, and look a share or table up by name, always
//! relative to a recipient identity and a pagination request. The entity
//! types, the error taxonomy and the pagination protocol live in the
//! submodules and are re-exported here.

mod entity;
mod error;
mod page;

pub mod file;

pub use entity::{
    bag_add, clone_extensions, ExtensionMap, Schema, SchemaBuilder, SchemaBuilderView,
    SchemaView, Share, ShareBuilder, ShareBuilderView, ShareView, Table, TableBuilder,
    TableBuilderView, TableView,
};
pub use error::{CatalogError, CatalogErrorKind};
pub use page::{
    deep_seq, lemma_deep_page_items, lemma_next_token_resumes, lemma_paginate_exhausted,
    lemma_paginate_idempotent, lemma_pagination_round_trip, paginate_response, pagination_ok,
    spec_collect_pages, spec_limit, spec_next_token, spec_offset, spec_page_items, spec_paginate,
    token_valid, Page, Pagination, PaginationView,
};

use crate::auth::RecipientId;
use vstd::prelude::*;

verus! {

/// The capability interface of the catalog: the operation set every backend
/// must provide. Listing operations filter by recipient visibility first and
/// paginate the filtered sequence second; lookups apply the same visibility
/// filter and report an invisible entity as not found. What each operation
/// returns is pinned down by the contracts of the backend implementing it.
pub trait Catalog {
    /// Return one page of the shares visible to the recipient.
    fn list_shares(&self, recipient_id: &RecipientId, pagination: &Pagination) -> Result<
        Page<Share>,
        CatalogError,
    >;

    /// Return one page of the schemas of the named share, if the share is
    /// visible to the recipient.
    fn list_schemas(
        &self,
        share_name: &str,
        recipient_id: &RecipientId,
        pagination: &Pagination,
    ) -> Result<Page<Schema>, CatalogError>;

    /// Return one page of all tables under the named share, if the share is
    /// visible to the recipient.
    fn list_tables_in_share(
        &self,
        share_name: &str,
        recipient_id: &RecipientId,
        pagination: &Pagination,
    ) -> Result<Page<Table>, CatalogError>;

    /// Return one page of the tables of the named schema within the named
    /// share, if the share is visible to the recipient.
    fn list_tables_in_schema(
        &self,
        share_name: &str,
        schema_name: &str,
        recipient_id: &RecipientId,
        pagination: &Pagination,
    ) -> Result<Page<Table>, CatalogError>;

    /// Return the share with the given name, if it exists and is visible to
    /// the recipient.
    fn get_share(&self, share_name: &str, recipient_id: &RecipientId) -> Result<
        Share,
        CatalogError,
    >;

    /// Return the table with the given name within the named share and
    /// schema, if it exists and is visible to the recipient.
    fn get_table(
        &self,
        share_name: &str,
        schema_name: &str,
        table_name: &str,
        recipient_id: &RecipientId,
    ) -> Result<Table, CatalogError>;
}

} // verus!
