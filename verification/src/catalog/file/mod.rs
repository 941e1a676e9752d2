//! Catalog backend based on a declarative configuration document.
//!
//! A [`FileCatalog`] loads its whole snapshot once, at construction, from
//! the content of a configuration document in one of three interchangeable
//! textual encodings, and serves every operation against that immutable
//! in-memory snapshot: the access-control filter first, the pagination
//! protocol second.

mod config;
mod document;
mod model;

pub use config::{FileCatalogConfig, FileCatalogConfigView, FileFormat};
pub use document::{
    doc_model, json_doc, lemma_format_equivalence, load_share_file, obj_get, opt_field_model,
    spec_entries_bag, spec_load_share_file, spec_parsed_doc, spec_read_document,
    spec_read_extensions, spec_read_recipient_names, spec_read_recipients, spec_read_schema,
    spec_read_schemas, spec_read_share, spec_read_shares, spec_read_table, spec_read_tables,
    spec_required_string, toml_doc, yaml_doc, DocValue,
};
pub use model::{
    lemma_list_shares_acl, spec_find_share, spec_find_table, spec_list_schemas,
    spec_list_shares, spec_list_tables_in_schema, spec_list_tables_in_share,
    spec_schemas_of_share, spec_tables_matching_schema, spec_tables_of_schema,
    spec_tables_of_schemas, spec_to_schema, spec_to_share, spec_to_table, spec_visible,
    SchemaConfig, SchemaConfigView, ShareConfig, ShareConfigView, ShareFile, TableConfig,
    TableConfigView,
};

use crate::auth::RecipientId;
use crate::catalog::entity::{Schema, Share, ShareView, Table};
use crate::catalog::error::{CatalogError, CatalogErrorKind};
use crate::catalog::page::{
    deep_seq, lemma_deep_page_items, paginate_response, pagination_ok, spec_limit, spec_offset,
    spec_paginate, Page, Pagination, PaginationView,
};
use crate::catalog::Catalog;
use vstd::prelude::*;

verus! {

/// The mathematical content of a [`FileCatalog`].
pub struct FileCatalogView {
    /// View of the configuration the catalog was constructed with.
    pub config: FileCatalogConfigView,
    /// View of the loaded snapshot.
    pub shares: Seq<ShareConfigView>,
}

/// A catalog serving one immutable snapshot loaded from a configuration
/// document.
#[derive(Debug)]
pub struct FileCatalog {
    config: FileCatalogConfig,
    shares: ShareFile,
}

impl View for FileCatalog {
    type V = FileCatalogView;

    closed spec fn view(&self) -> FileCatalogView {
        FileCatalogView { config: self.config@, shares: self.shares@ }
    }
}

impl FileCatalog {
    /// Construct a catalog from its configuration and the content of the
    /// configuration document, which the embedding application reads from
    /// `config.path()`. The snapshot is exactly what the document describes;
    /// a document that cannot be parsed or does not fit the descriptor shape
    /// fails construction, so a backend never starts on an inconsistent
    /// snapshot.
    pub fn new(config: FileCatalogConfig, content: &str) -> (r: Result<
        FileCatalog,
        CatalogError,
    >)
        ensures
            match spec_load_share_file(content@, config@.format) {
                Some(shares) => r matches Ok(c) && c@.config == config@ && c@.shares == shares,
                None => r matches Err(e) && e.spec_kind() == CatalogErrorKind::Internal,
            },
    {
        let shares = match load_share_file(content, config.format()) {
            Ok(s) => s,
            Err(e) => {
                return Err(e);
            },
        };
        Ok(FileCatalog { config, shares })
    }

    /// Construct a catalog directly from a snapshot.
    pub fn from_share_file(config: FileCatalogConfig, shares: ShareFile) -> (r: FileCatalog)
        ensures
            r@.config == config@,
            r@.shares == shares@,
    {
        FileCatalog { config, shares }
    }

    /// Return the configuration the catalog was constructed with.
    pub fn config(&self) -> (r: &FileCatalogConfig)
        ensures
            r@ == self@.config,
    {
        &self.config
    }

    /// Return one page of the shares visible to the recipient, in
    /// declaration order.
    pub fn list_shares(&self, recipient_id: &RecipientId, pagination: &Pagination) -> (r: Result<
        Page<Share>,
        CatalogError,
    >)
        ensures
            match spec_paginate(
                spec_list_shares(self@.shares, recipient_id.ident()),
                pagination@,
            ) {
                Ok(pair) => r matches Ok(page) && deep_seq(page.spec_items()) == pair.0
                    && page.spec_token() == pair.1,
                Err(k) => r matches Err(e) && e.spec_kind() == k,
            },
    {
        let shares = self.shares.list_shares(recipient_id.as_str());
        let ghost items = shares@;
        let ghost filtered = spec_list_shares(self@.shares, recipient_id.ident());
        let r = paginate_response(shares, pagination);
        proof {
            assert(deep_seq(items) =~= filtered);
            if pagination_ok(pagination@) {
                lemma_deep_page_items(items, spec_offset(pagination@), spec_limit(pagination@));
            }
        }
        r
    }

    /// Return one page of the schemas of the named share, if it is visible
    /// to the recipient, in declaration order.
    pub fn list_schemas(
        &self,
        share_name: &str,
        recipient_id: &RecipientId,
        pagination: &Pagination,
    ) -> (r: Result<Page<Schema>, CatalogError>)
        ensures
            match spec_paginate(
                spec_list_schemas(self@.shares, recipient_id.ident(), share_name@),
                pagination@,
            ) {
                Ok(pair) => r matches Ok(page) && deep_seq(page.spec_items()) == pair.0
                    && page.spec_token() == pair.1,
                Err(k) => r matches Err(e) && e.spec_kind() == k,
            },
    {
        let schemas = self.shares.list_schemas(recipient_id.as_str(), share_name);
        let ghost items = schemas@;
        let ghost filtered = spec_list_schemas(self@.shares, recipient_id.ident(), share_name@);
        let r = paginate_response(schemas, pagination);
        proof {
            assert(deep_seq(items) =~= filtered);
            if pagination_ok(pagination@) {
                lemma_deep_page_items(items, spec_offset(pagination@), spec_limit(pagination@));
            }
        }
        r
    }

    /// Return one page of all tables under the named share, if it is visible
    /// to the recipient, in declaration order.
    pub fn list_tables_in_share(
        &self,
        share_name: &str,
        recipient_id: &RecipientId,
        pagination: &Pagination,
    ) -> (r: Result<Page<Table>, CatalogError>)
        ensures
            match spec_paginate(
                spec_list_tables_in_share(self@.shares, recipient_id.ident(), share_name@),
                pagination@,
            ) {
                Ok(pair) => r matches Ok(page) && deep_seq(page.spec_items()) == pair.0
                    && page.spec_token() == pair.1,
                Err(k) => r matches Err(e) && e.spec_kind() == k,
            },
    {
        let tables = self.shares.list_tables_in_share(recipient_id.as_str(), share_name);
        let ghost items = tables@;
        let ghost filtered = spec_list_tables_in_share(
            self@.shares,
            recipient_id.ident(),
            share_name@,
        );
        let r = paginate_response(tables, pagination);
        proof {
            assert(deep_seq(items) =~= filtered);
            if pagination_ok(pagination@) {
                lemma_deep_page_items(items, spec_offset(pagination@), spec_limit(pagination@));
            }
        }
        r
    }

    /// Return one page of the tables of the named schema within the named
    /// share, if the share is visible to the recipient, in declaration
    /// order.
    pub fn list_tables_in_schema(
        &self,
        share_name: &str,
        schema_name: &str,
        recipient_id: &RecipientId,
        pagination: &Pagination,
    ) -> (r: Result<Page<Table>, CatalogError>)
        ensures
            match spec_paginate(
                spec_list_tables_in_schema(
                    self@.shares,
                    recipient_id.ident(),
                    share_name@,
                    schema_name@,
                ),
                pagination@,
            ) {
                Ok(pair) => r matches Ok(page) && deep_seq(page.spec_items()) == pair.0
                    && page.spec_token() == pair.1,
                Err(k) => r matches Err(e) && e.spec_kind() == k,
            },
    {
        let tables = self.shares.list_tables_in_schema(
            recipient_id.as_str(),
            share_name,
            schema_name,
        );
        let ghost items = tables@;
        let ghost filtered = spec_list_tables_in_schema(
            self@.shares,
            recipient_id.ident(),
            share_name@,
            schema_name@,
        );
        let r = paginate_response(tables, pagination);
        proof {
            assert(deep_seq(items) =~= filtered);
            if pagination_ok(pagination@) {
                lemma_deep_page_items(items, spec_offset(pagination@), spec_limit(pagination@));
            }
        }
        r
    }

    /// Return the share with the given name, if it exists and is visible to
    /// the recipient. A share that does not exist and a share that is not
    /// visible are both reported as not found, so the lookup confirms
    /// nothing about private shares.
    pub fn get_share(&self, share_name: &str, recipient_id: &RecipientId) -> (r: Result<
        Share,
        CatalogError,
    >)
        ensures
            match spec_find_share(
                spec_list_shares(self@.shares, recipient_id.ident()),
                share_name@,
            ) {
                Some(v) => r matches Ok(s) && s@ == v,
                None => r matches Err(e) && e.spec_kind() == CatalogErrorKind::ResourceNotFound,
            },
    {
        match self.shares.get_share(share_name, recipient_id.as_str()) {
            Some(s) => Ok(s),
            None => Err(CatalogError::not_found("")),
        }
    }

    /// Return the table with the given name within the named share and
    /// schema, if it exists and the share is visible to the recipient. An
    /// absent table and an invisible one are both reported as not found.
    pub fn get_table(
        &self,
        share_name: &str,
        schema_name: &str,
        table_name: &str,
        recipient_id: &RecipientId,
    ) -> (r: Result<Table, CatalogError>)
        ensures
            match spec_find_table(
                spec_list_tables_in_schema(
                    self@.shares,
                    recipient_id.ident(),
                    share_name@,
                    schema_name@,
                ),
                table_name@,
            ) {
                Some(v) => r matches Ok(t) && t@ == v,
                None => r matches Err(e) && e.spec_kind() == CatalogErrorKind::ResourceNotFound,
            },
    {
        match self.shares.get_table(share_name, schema_name, table_name, recipient_id.as_str()) {
            Some(t) => Ok(t),
            None => Err(CatalogError::not_found("table not found")),
        }
    }
}

impl Catalog for FileCatalog {
    fn list_shares(&self, recipient_id: &RecipientId, pagination: &Pagination) -> Result<
        Page<Share>,
        CatalogError,
    > {
        FileCatalog::list_shares(self, recipient_id, pagination)
    }

    fn list_schemas(
        &self,
        share_name: &str,
        recipient_id: &RecipientId,
        pagination: &Pagination,
    ) -> Result<Page<Schema>, CatalogError> {
        FileCatalog::list_schemas(self, share_name, recipient_id, pagination)
    }

    fn list_tables_in_share(
        &self,
        share_name: &str,
        recipient_id: &RecipientId,
        pagination: &Pagination,
    ) -> Result<Page<Table>, CatalogError> {
        FileCatalog::list_tables_in_share(self, share_name, recipient_id, pagination)
    }

    fn list_tables_in_schema(
        &self,
        share_name: &str,
        schema_name: &str,
        recipient_id: &RecipientId,
        pagination: &Pagination,
    ) -> Result<Page<Table>, CatalogError> {
        FileCatalog::list_tables_in_schema(self, share_name, schema_name, recipient_id, pagination)
    }

    fn get_share(&self, share_name: &str, recipient_id: &RecipientId) -> Result<
        Share,
        CatalogError,
    > {
        FileCatalog::get_share(self, share_name, recipient_id)
    }

    fn get_table(
        &self,
        share_name: &str,
        schema_name: &str,
        table_name: &str,
        recipient_id: &RecipientId,
    ) -> Result<Table, CatalogError> {
        FileCatalog::get_table(self, share_name, schema_name, table_name, recipient_id)
    }
}

/// Idempotence of a listing operation: the specified response is a function
/// of the snapshot, the recipient identity and the pagination request alone,
/// so two calls with identical arguments against an unchanged snapshot
/// return identical pages. The same argument applies verbatim to every other
/// listing of the catalog, since each one's contract pins its response to
/// `spec_paginate` over the same filtered sequence.
pub proof fn lemma_listing_idempotent(
    shares: Seq<ShareConfigView>,
    recipient: Seq<char>,
    p: PaginationView,
    r1: Result<(Seq<ShareView>, Option<Seq<char>>), CatalogErrorKind>,
    r2: Result<(Seq<ShareView>, Option<Seq<char>>), CatalogErrorKind>,
)
    requires
        r1 == spec_paginate(spec_list_shares(shares, recipient), p),
        r2 == spec_paginate(spec_list_shares(shares, recipient), p),
    ensures
        r1 == r2,
{
}

} // verus!
