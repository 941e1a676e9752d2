//! The in-memory snapshot of a declarative share catalog.
//!
//! A [`ShareFile`] holds the nested share → schema → table descriptors loaded
//! from a configuration document. Every query is a linear scan: first the
//! access-control filter for the recipient, preserving declaration order,
//! then — in the calling backend — the pagination protocol.

use crate::catalog::entity::{
    clone_extensions, ExtensionMap, Schema, SchemaView, Share, ShareView, Table, TableView,
};
use crate::text::str_eq;
use vstd::prelude::*;

verus! {

/// Clone an optional string, keeping its view.
fn clone_opt_string(o: &Option<String>) -> (r: Option<String>)
    ensures
        r.deep_view() == o.deep_view(),
{
    match o {
        Some(s) => Some(s.clone()),
        None => None,
    }
}

/// The mathematical content of a [`TableConfig`].
pub struct TableConfigView {
    /// View of the table name.
    pub name: Seq<char>,
    /// View of the storage location.
    pub location: Seq<char>,
    /// View of the optional table id.
    pub id: Option<Seq<char>>,
    /// View of the optional extension bag.
    pub extensions: Option<Map<Seq<char>, Seq<char>>>,
}

/// The descriptor of one table within a schema descriptor.
#[derive(Debug)]
pub struct TableConfig {
    name: String,
    location: String,
    id: Option<String>,
    extensions: Option<ExtensionMap>,
}

impl View for TableConfig {
    type V = TableConfigView;

    closed spec fn view(&self) -> TableConfigView {
        TableConfigView {
            name: self.name@,
            location: self.location@,
            id: self.id.deep_view(),
            extensions: self.extensions.deep_view(),
        }
    }
}

impl DeepView for TableConfig {
    type V = TableConfigView;

    open spec fn deep_view(&self) -> TableConfigView {
        self@
    }
}

/// The canonical table entity a table descriptor converts to.
pub open spec fn spec_to_table(
    c: TableConfigView,
    share_name: Seq<char>,
    schema_name: Seq<char>,
) -> TableView {
    TableView {
        id: c.id,
        name: c.name,
        share_id: None,
        share_name,
        schema_name,
        storage_location: c.location,
        extensions: c.extensions,
    }
}

impl TableConfig {
    /// Create a table descriptor.
    pub fn new(
        name: &str,
        location: &str,
        id: Option<String>,
        extensions: Option<ExtensionMap>,
    ) -> (r: Self)
        ensures
            r@ == (TableConfigView {
                name: name@,
                location: location@,
                id: id.deep_view(),
                extensions: extensions.deep_view(),
            }),
    {
        TableConfig { name: name.to_owned(), location: location.to_owned(), id, extensions }
    }

    /// Convert the descriptor to the canonical [`Table`] entity.
    pub fn to_table(&self, share_name: &str, schema_name: &str) -> (r: Table)
        ensures
            r@ == spec_to_table(self@, share_name@, schema_name@),
    {
        let built = Table::builder()
            .name(self.name.as_str())
            .storage_path(self.location.as_str())
            .set_id(clone_opt_string(&self.id))
            .schema_name(schema_name)
            .share_name(share_name)
            .set_extensions(clone_extensions(&self.extensions))
            .build();
        built.unwrap()
    }
}

/// The mathematical content of a [`SchemaConfig`].
pub struct SchemaConfigView {
    /// View of the schema name.
    pub name: Seq<char>,
    /// Views of the table descriptors of the schema, in declaration order.
    pub tables: Seq<TableConfigView>,
}

/// The descriptor of one schema within a share descriptor.
#[derive(Debug)]
pub struct SchemaConfig {
    name: String,
    tables: Vec<TableConfig>,
}

impl View for SchemaConfig {
    type V = SchemaConfigView;

    closed spec fn view(&self) -> SchemaConfigView {
        SchemaConfigView { name: self.name@, tables: self.tables.deep_view() }
    }
}

impl DeepView for SchemaConfig {
    type V = SchemaConfigView;

    open spec fn deep_view(&self) -> SchemaConfigView {
        self@
    }
}

/// The canonical schema entity a schema descriptor converts to.
pub open spec fn spec_to_schema(c: SchemaConfigView, share_name: Seq<char>) -> SchemaView {
    SchemaView { id: None, name: c.name, share_name, extensions: None }
}

impl SchemaConfig {
    /// Create a schema descriptor.
    pub fn new(name: &str, tables: Vec<TableConfig>) -> (r: Self)
        ensures
            r@ == (SchemaConfigView { name: name@, tables: tables.deep_view() }),
    {
        SchemaConfig { name: name.to_owned(), tables }
    }

    /// Convert the descriptor to the canonical [`Schema`] entity.
    pub fn to_schema(&self, share_name: &str) -> (r: Schema)
        ensures
            r@ == spec_to_schema(self@, share_name@),
    {
        let built = Schema::builder().name(self.name.as_str()).share_name(share_name).build();
        built.unwrap()
    }
}

/// The mathematical content of a [`ShareConfig`].
pub struct ShareConfigView {
    /// View of the share name.
    pub name: Seq<char>,
    /// Views of the schema descriptors of the share, in declaration order.
    pub schemas: Seq<SchemaConfigView>,
    /// Views of the declared recipient names; `None` when the share declares
    /// no restriction.
    pub recipients: Option<Seq<Seq<char>>>,
    /// View of the optional extension bag.
    pub extensions: Option<Map<Seq<char>, Seq<char>>>,
}

/// The descriptor of one share: its schemas, its optional recipient
/// allow-list and its optional extension bag.
#[derive(Debug)]
pub struct ShareConfig {
    name: String,
    schemas: Vec<SchemaConfig>,
    recipients: Option<Vec<String>>,
    extensions: Option<ExtensionMap>,
}

impl View for ShareConfig {
    type V = ShareConfigView;

    closed spec fn view(&self) -> ShareConfigView {
        ShareConfigView {
            name: self.name@,
            schemas: self.schemas.deep_view(),
            recipients: self.recipients.deep_view(),
            extensions: self.extensions.deep_view(),
        }
    }
}

impl DeepView for ShareConfig {
    type V = ShareConfigView;

    open spec fn deep_view(&self) -> ShareConfigView {
        self@
    }
}

/// The canonical share entity a share descriptor converts to.
pub open spec fn spec_to_share(c: ShareConfigView) -> ShareView {
    ShareView { id: None, name: c.name, extensions: c.extensions }
}

impl ShareConfig {
    /// Create a share descriptor.
    pub fn new(
        name: &str,
        schemas: Vec<SchemaConfig>,
        recipients: Option<Vec<String>>,
        extensions: Option<ExtensionMap>,
    ) -> (r: Self)
        ensures
            r@ == (ShareConfigView {
                name: name@,
                schemas: schemas.deep_view(),
                recipients: recipients.deep_view(),
                extensions: extensions.deep_view(),
            }),
    {
        ShareConfig { name: name.to_owned(), schemas, recipients, extensions }
    }

    /// Convert the descriptor to the canonical [`Share`] entity.
    pub fn to_share(&self) -> (r: Share)
        ensures
            r@ == spec_to_share(self@),
    {
        let built = Share::builder().name(self.name.as_str()).set_extensions(
            clone_extensions(&self.extensions),
        ).build();
        built.unwrap()
    }
}

/// The visibility rule: a share is visible to a recipient identity exactly
/// when it declares no recipients list, or the identity is a member of the
/// declared list. A declared empty list makes the share visible to nobody.
pub open spec fn spec_visible(c: ShareConfigView, recipient: Seq<char>) -> bool {
    match c.recipients {
        None => true,
        Some(rs) => rs.contains(recipient),
    }
}

/// Decide the visibility rule for one share descriptor.
fn is_visible(cfg: &ShareConfig, recipient: &str) -> (r: bool)
    ensures
        r == spec_visible(cfg@, recipient@),
{
    match &cfg.recipients {
        None => true,
        Some(rs) => {
            let mut i: usize = 0;
            proof {
                assert(cfg@.recipients == Some(rs.deep_view()));
            }
            while i < rs.len()
                invariant
                    i <= rs@.len(),
                    cfg@.recipients == Some(rs.deep_view()),
                    forall|j: int| 0 <= j < i ==> rs.deep_view()[j] != recipient@,
                decreases rs@.len() - i,
            {
                if str_eq(rs[i].as_str(), recipient) {
                    proof {
                        assert(rs.deep_view()[i as int] == recipient@);
                        assert(rs.deep_view().contains(recipient@));
                    }
                    return true;
                }
                i += 1;
            }
            proof {
                assert(!rs.deep_view().contains(recipient@));
            }
            false
        },
    }
}

/// The shares of the snapshot visible to a recipient, in declaration order,
/// as canonical entities.
pub open spec fn spec_list_shares(shares: Seq<ShareConfigView>, recipient: Seq<char>) -> Seq<
    ShareView,
>
    decreases shares.len(),
{
    if shares.len() == 0 {
        Seq::empty()
    } else {
        let prefix = spec_list_shares(shares.drop_last(), recipient);
        if spec_visible(shares.last(), recipient) {
            prefix.push(spec_to_share(shares.last()))
        } else {
            prefix
        }
    }
}

/// The first share of a listing carrying the given name, if any.
pub open spec fn spec_find_share(listed: Seq<ShareView>, name: Seq<char>) -> Option<ShareView>
    decreases listed.len(),
{
    if listed.len() == 0 {
        None
    } else if listed[0].name == name {
        Some(listed[0])
    } else {
        spec_find_share(listed.drop_first(), name)
    }
}

/// The schema entities of one share descriptor, in declaration order.
pub open spec fn spec_schemas_of_share(c: ShareConfigView) -> Seq<SchemaView> {
    c.schemas.map_values(|s: SchemaConfigView| spec_to_schema(s, c.name))
}

/// The schemas of the named share visible to a recipient, in declaration
/// order, as canonical entities.
pub open spec fn spec_list_schemas(
    shares: Seq<ShareConfigView>,
    recipient: Seq<char>,
    share_name: Seq<char>,
) -> Seq<SchemaView>
    decreases shares.len(),
{
    if shares.len() == 0 {
        Seq::empty()
    } else {
        let prefix = spec_list_schemas(shares.drop_last(), recipient, share_name);
        if spec_visible(shares.last(), recipient) && shares.last().name == share_name {
            prefix + spec_schemas_of_share(shares.last())
        } else {
            prefix
        }
    }
}

/// The table entities of one schema descriptor, in declaration order.
pub open spec fn spec_tables_of_schema(s: SchemaConfigView, share_name: Seq<char>) -> Seq<
    TableView,
> {
    s.tables.map_values(|t: TableConfigView| spec_to_table(t, share_name, s.name))
}

/// The table entities of a sequence of schema descriptors, concatenated in
/// declaration order.
pub open spec fn spec_tables_of_schemas(
    schemas: Seq<SchemaConfigView>,
    share_name: Seq<char>,
) -> Seq<TableView>
    decreases schemas.len(),
{
    if schemas.len() == 0 {
        Seq::empty()
    } else {
        spec_tables_of_schemas(schemas.drop_last(), share_name) + spec_tables_of_schema(
            schemas.last(),
            share_name,
        )
    }
}

/// The table entities of the schemas carrying the given name, concatenated
/// in declaration order.
pub open spec fn spec_tables_matching_schema(
    schemas: Seq<SchemaConfigView>,
    share_name: Seq<char>,
    schema_name: Seq<char>,
) -> Seq<TableView>
    decreases schemas.len(),
{
    if schemas.len() == 0 {
        Seq::empty()
    } else {
        spec_tables_matching_schema(schemas.drop_last(), share_name, schema_name) + (
        if schemas.last().name == schema_name {
            spec_tables_of_schema(schemas.last(), share_name)
        } else {
            Seq::empty()
        })
    }
}

/// All tables under the named share visible to a recipient, in declaration
/// order, as canonical entities.
pub open spec fn spec_list_tables_in_share(
    shares: Seq<ShareConfigView>,
    recipient: Seq<char>,
    share_name: Seq<char>,
) -> Seq<TableView>
    decreases shares.len(),
{
    if shares.len() == 0 {
        Seq::empty()
    } else {
        let prefix = spec_list_tables_in_share(shares.drop_last(), recipient, share_name);
        if spec_visible(shares.last(), recipient) && shares.last().name == share_name {
            prefix + spec_tables_of_schemas(shares.last().schemas, shares.last().name)
        } else {
            prefix
        }
    }
}

/// The tables of the named schema within the named share visible to a
/// recipient, in declaration order, as canonical entities.
pub open spec fn spec_list_tables_in_schema(
    shares: Seq<ShareConfigView>,
    recipient: Seq<char>,
    share_name: Seq<char>,
    schema_name: Seq<char>,
) -> Seq<TableView>
    decreases shares.len(),
{
    if shares.len() == 0 {
        Seq::empty()
    } else {
        let prefix = spec_list_tables_in_schema(
            shares.drop_last(),
            recipient,
            share_name,
            schema_name,
        );
        if spec_visible(shares.last(), recipient) && shares.last().name == share_name {
            prefix + spec_tables_matching_schema(
                shares.last().schemas,
                shares.last().name,
                schema_name,
            )
        } else {
            prefix
        }
    }
}

/// The first table of a listing carrying the given name, if any.
pub open spec fn spec_find_table(listed: Seq<TableView>, name: Seq<char>) -> Option<TableView>
    decreases listed.len(),
{
    if listed.len() == 0 {
        None
    } else if listed[0].name == name {
        Some(listed[0])
    } else {
        spec_find_table(listed.drop_first(), name)
    }
}

/// Convert every table of one schema descriptor, in order.
fn tables_of_schema(schema: &SchemaConfig, share_name: &str) -> (r: Vec<Table>)
    ensures
        r.deep_view() == spec_tables_of_schema(schema@, share_name@),
{
    let mut out: Vec<Table> = Vec::new();
    let mut j: usize = 0;
    while j < schema.tables.len()
        invariant
            j <= schema.tables@.len(),
            schema@.tables.len() == schema.tables@.len(),
            out.deep_view().len() == j,
            forall|k: int| 0 <= k < j ==> out.deep_view()[k] == spec_to_table(
                #[trigger] schema@.tables[k],
                share_name@,
                schema@.name,
            ),
        decreases schema.tables@.len() - j,
    {
        let t = schema.tables[j].to_table(share_name, schema.name.as_str());
        out.push(t);
        proof {
            assert(schema@.tables[j as int] == schema.tables@[j as int]@);
        }
        j += 1;
    }
    proof {
        assert(out.deep_view() =~= spec_tables_of_schema(schema@, share_name@));
    }
    out
}

/// The in-memory snapshot: the share descriptors in declaration order. The
/// snapshot is immutable once constructed; a fresh document load constructs
/// a fresh snapshot.
#[derive(Debug)]
pub struct ShareFile {
    shares: Vec<ShareConfig>,
}

impl View for ShareFile {
    type V = Seq<ShareConfigView>;

    closed spec fn view(&self) -> Seq<ShareConfigView> {
        self.shares.deep_view()
    }
}

impl ShareFile {
    /// Create an empty snapshot.
    pub fn new() -> (r: Self)
        ensures
            r@ == Seq::<ShareConfigView>::empty(),
    {
        let r = ShareFile { shares: Vec::new() };
        proof {
            assert(r@ =~= Seq::<ShareConfigView>::empty());
        }
        r
    }

    /// Create a snapshot holding the given share descriptors, in order.
    pub fn from_shares(shares: Vec<ShareConfig>) -> (r: Self)
        ensures
            r@ == shares.deep_view(),
    {
        ShareFile { shares }
    }

    /// List the shares visible to the recipient, in declaration order.
    pub fn list_shares(&self, recipient: &str) -> (r: Vec<Share>)
        ensures
            r.deep_view() == spec_list_shares(self@, recipient@),
    {
        let mut out: Vec<Share> = Vec::new();
        let mut i: usize = 0;
        proof {
            assert(self@.take(0) =~= Seq::<ShareConfigView>::empty());
            assert(out.deep_view() =~= spec_list_shares(self@.take(0), recipient@));
        }
        while i < self.shares.len()
            invariant
                i <= self.shares@.len(),
                self@.len() == self.shares@.len(),
                out.deep_view() == spec_list_shares(self@.take(i as int), recipient@),
            decreases self.shares@.len() - i,
        {
            let cfg = &self.shares[i];
            proof {
                assert(self@.take(i + 1).drop_last() =~= self@.take(i as int));
                assert(self@.take(i + 1).last() == self@[i as int]);
                assert(self@[i as int] == cfg@);
            }
            let ghost prev = out.deep_view();
            if is_visible(cfg, recipient) {
                let s = cfg.to_share();
                out.push(s);
                proof {
                    assert(out.deep_view() =~= prev.push(s@));
                }
            }
            i += 1;
        }
        proof {
            assert(self@.take(self.shares@.len() as int) =~= self@);
        }
        out
    }

    /// List the schemas of the named share, if it is visible to the
    /// recipient, in declaration order.
    pub fn list_schemas(&self, recipient: &str, share_name: &str) -> (r: Vec<Schema>)
        ensures
            r.deep_view() == spec_list_schemas(self@, recipient@, share_name@),
    {
        let mut out: Vec<Schema> = Vec::new();
        let mut i: usize = 0;
        proof {
            assert(self@.take(0) =~= Seq::<ShareConfigView>::empty());
            assert(out.deep_view() =~= spec_list_schemas(self@.take(0), recipient@, share_name@));
        }
        while i < self.shares.len()
            invariant
                i <= self.shares@.len(),
                self@.len() == self.shares@.len(),
                out.deep_view() == spec_list_schemas(self@.take(i as int), recipient@, share_name@),
            decreases self.shares@.len() - i,
        {
            let cfg = &self.shares[i];
            proof {
                assert(self@.take(i + 1).drop_last() =~= self@.take(i as int));
                assert(self@.take(i + 1).last() == self@[i as int]);
                assert(self@[i as int] == cfg@);
            }
            let ghost base = out.deep_view();
            if is_visible(cfg, recipient) && str_eq(cfg.name.as_str(), share_name) {
                let mut j: usize = 0;
                while j < cfg.schemas.len()
                    invariant
                        j <= cfg.schemas@.len(),
                        cfg@.schemas.len() == cfg.schemas@.len(),
                        out.deep_view().len() == base.len() + j,
                        forall|k: int| 0 <= k < base.len() ==> out.deep_view()[k] == base[k],
                        forall|k: int| 0 <= k < j ==> out.deep_view()[base.len() + k]
                            == spec_to_schema(#[trigger] cfg@.schemas[k], share_name@),
                    decreases cfg.schemas@.len() - j,
                {
                    let s = cfg.schemas[j].to_schema(share_name);
                    out.push(s);
                    proof {
                        assert(cfg@.schemas[j as int] == cfg.schemas@[j as int]@);
                    }
                    j += 1;
                }
                proof {
                    assert(share_name@ == cfg@.name);
                    assert(out.deep_view() =~= base + spec_schemas_of_share(cfg@));
                }
            }
            proof {
                assert(out.deep_view() =~= spec_list_schemas(
                    self@.take(i + 1),
                    recipient@,
                    share_name@,
                ));
            }
            i += 1;
        }
        proof {
            assert(self@.take(self.shares@.len() as int) =~= self@);
        }
        out
    }

    /// List all tables under the named share, if it is visible to the
    /// recipient, in declaration order.
    pub fn list_tables_in_share(&self, recipient: &str, share_name: &str) -> (r: Vec<Table>)
        ensures
            r.deep_view() == spec_list_tables_in_share(self@, recipient@, share_name@),
    {
        let mut out: Vec<Table> = Vec::new();
        let mut i: usize = 0;
        proof {
            assert(self@.take(0) =~= Seq::<ShareConfigView>::empty());
            assert(out.deep_view() =~= spec_list_tables_in_share(
                self@.take(0),
                recipient@,
                share_name@,
            ));
        }
        while i < self.shares.len()
            invariant
                i <= self.shares@.len(),
                self@.len() == self.shares@.len(),
                out.deep_view() == spec_list_tables_in_share(
                    self@.take(i as int),
                    recipient@,
                    share_name@,
                ),
            decreases self.shares@.len() - i,
        {
            let cfg = &self.shares[i];
            proof {
                assert(self@.take(i + 1).drop_last() =~= self@.take(i as int));
                assert(self@.take(i + 1).last() == self@[i as int]);
                assert(self@[i as int] == cfg@);
            }
            let ghost base = out.deep_view();
            if is_visible(cfg, recipient) && str_eq(cfg.name.as_str(), share_name) {
                let mut j: usize = 0;
                proof {
                    assert(cfg@.schemas.take(0) =~= Seq::<SchemaConfigView>::empty());
                    assert(out.deep_view() =~= base + spec_tables_of_schemas(
                        cfg@.schemas.take(0),
                        share_name@,
                    ));
                }
                while j < cfg.schemas.len()
                    invariant
                        j <= cfg.schemas@.len(),
                        cfg@.schemas.len() == cfg.schemas@.len(),
                        out.deep_view() == base + spec_tables_of_schemas(
                            cfg@.schemas.take(j as int),
                            share_name@,
                        ),
                    decreases cfg.schemas@.len() - j,
                {
                    let mut part = tables_of_schema(&cfg.schemas[j], share_name);
                    let ghost prev = out.deep_view();
                    let ghost part_view = part.deep_view();
                    out.append(&mut part);
                    proof {
                        assert(cfg@.schemas.take(j + 1).drop_last() =~= cfg@.schemas.take(
                            j as int,
                        ));
                        assert(cfg@.schemas.take(j + 1).last() == cfg@.schemas[j as int]);
                        assert(cfg@.schemas[j as int] == cfg.schemas@[j as int]@);
                        assert(out.deep_view() =~= prev + part_view);
                        assert(out.deep_view() =~= base + spec_tables_of_schemas(
                            cfg@.schemas.take(j + 1),
                            share_name@,
                        ));
                    }
                    j += 1;
                }
                proof {
                    assert(cfg@.schemas.take(cfg.schemas@.len() as int) =~= cfg@.schemas);
                    assert(share_name@ == cfg@.name);
                }
            }
            proof {
                assert(out.deep_view() =~= spec_list_tables_in_share(
                    self@.take(i + 1),
                    recipient@,
                    share_name@,
                ));
            }
            i += 1;
        }
        proof {
            assert(self@.take(self.shares@.len() as int) =~= self@);
        }
        out
    }

    /// List the tables of the named schema within the named share, if the
    /// share is visible to the recipient, in declaration order.
    pub fn list_tables_in_schema(
        &self,
        recipient: &str,
        share_name: &str,
        schema_name: &str,
    ) -> (r: Vec<Table>)
        ensures
            r.deep_view() == spec_list_tables_in_schema(
                self@,
                recipient@,
                share_name@,
                schema_name@,
            ),
    {
        let mut out: Vec<Table> = Vec::new();
        let mut i: usize = 0;
        proof {
            assert(self@.take(0) =~= Seq::<ShareConfigView>::empty());
            assert(out.deep_view() =~= spec_list_tables_in_schema(
                self@.take(0),
                recipient@,
                share_name@,
                schema_name@,
            ));
        }
        while i < self.shares.len()
            invariant
                i <= self.shares@.len(),
                self@.len() == self.shares@.len(),
                out.deep_view() == spec_list_tables_in_schema(
                    self@.take(i as int),
                    recipient@,
                    share_name@,
                    schema_name@,
                ),
            decreases self.shares@.len() - i,
        {
            let cfg = &self.shares[i];
            proof {
                assert(self@.take(i + 1).drop_last() =~= self@.take(i as int));
                assert(self@.take(i + 1).last() == self@[i as int]);
                assert(self@[i as int] == cfg@);
            }
            let ghost base = out.deep_view();
            if is_visible(cfg, recipient) && str_eq(cfg.name.as_str(), share_name) {
                let mut j: usize = 0;
                proof {
                    assert(cfg@.schemas.take(0) =~= Seq::<SchemaConfigView>::empty());
                    assert(out.deep_view() =~= base + spec_tables_matching_schema(
                        cfg@.schemas.take(0),
                        share_name@,
                        schema_name@,
                    ));
                }
                while j < cfg.schemas.len()
                    invariant
                        j <= cfg.schemas@.len(),
                        cfg@.schemas.len() == cfg.schemas@.len(),
                        out.deep_view() == base + spec_tables_matching_schema(
                            cfg@.schemas.take(j as int),
                            share_name@,
                            schema_name@,
                        ),
                    decreases cfg.schemas@.len() - j,
                {
                    proof {
                        assert(cfg@.schemas.take(j + 1).drop_last() =~= cfg@.schemas.take(
                            j as int,
                        ));
                        assert(cfg@.schemas.take(j + 1).last() == cfg@.schemas[j as int]);
                        assert(cfg@.schemas[j as int] == cfg.schemas@[j as int]@);
                    }
                    let ghost prev = out.deep_view();
                    if str_eq(cfg.schemas[j].name.as_str(), schema_name) {
                        let mut part = tables_of_schema(&cfg.schemas[j], share_name);
                        let ghost part_view = part.deep_view();
                        out.append(&mut part);
                        proof {
                            assert(out.deep_view() =~= prev + part_view);
                        }
                    } else {
                        proof {
                            assert(out.deep_view() =~= prev + Seq::<TableView>::empty());
                        }
                    }
                    proof {
                        assert(out.deep_view() =~= base + spec_tables_matching_schema(
                            cfg@.schemas.take(j + 1),
                            share_name@,
                            schema_name@,
                        ));
                    }
                    j += 1;
                }
                proof {
                    assert(cfg@.schemas.take(cfg.schemas@.len() as int) =~= cfg@.schemas);
                    assert(share_name@ == cfg@.name);
                }
            }
            proof {
                assert(out.deep_view() =~= spec_list_tables_in_schema(
                    self@.take(i + 1),
                    recipient@,
                    share_name@,
                    schema_name@,
                ));
            }
            i += 1;
        }
        proof {
            assert(self@.take(self.shares@.len() as int) =~= self@);
        }
        out
    }

    /// Return the first table with the given name of the named schema within
    /// the named share, if the share is visible to the recipient.
    pub fn get_table(
        &self,
        share_name: &str,
        schema_name: &str,
        table_name: &str,
        recipient: &str,
    ) -> (r: Option<Table>)
        ensures
            r.deep_view() == spec_find_table(
                spec_list_tables_in_schema(self@, recipient@, share_name@, schema_name@),
                table_name@,
            ),
    {
        let mut tables = self.list_tables_in_schema(recipient, share_name, schema_name);
        let ghost listed = tables.deep_view();
        let mut i: usize = 0;
        proof {
            assert(listed.skip(0) =~= listed);
        }
        while i < tables.len()
            invariant
                i <= tables@.len(),
                listed == tables.deep_view(),
                listed == spec_list_tables_in_schema(self@, recipient@, share_name@, schema_name@),
                spec_find_table(listed, table_name@) == spec_find_table(
                    listed.skip(i as int),
                    table_name@,
                ),
            decreases tables@.len() - i,
        {
            proof {
                assert(listed.skip(i as int)[0] == listed[i as int]);
                assert(listed.skip(i as int).drop_first() =~= listed.skip(i as int + 1));
            }
            if str_eq(tables[i].name(), table_name) {
                proof {
                    assert(listed[i as int] == tables@[i as int]@);
                    assert(spec_find_table(listed, table_name@) == Some(listed[i as int]));
                }
                let t = tables.remove(i);
                let r = Some(t);
                proof {
                    assert(r.deep_view() == spec_find_table(listed, table_name@));
                }
                return r;
            }
            i += 1;
        }
        proof {
            assert(listed.skip(listed.len() as int) =~= Seq::<TableView>::empty());
        }
        None
    }

    /// Return the first visible share with the given name, if any.
    pub fn get_share(&self, name: &str, recipient: &str) -> (r: Option<Share>)
        ensures
            r.deep_view() == spec_find_share(spec_list_shares(self@, recipient@), name@),
    {
        let mut shares = self.list_shares(recipient);
        let ghost listed = shares.deep_view();
        let mut i: usize = 0;
        proof {
            assert(listed.skip(0) =~= listed);
        }
        while i < shares.len()
            invariant
                i <= shares@.len(),
                listed == shares.deep_view(),
                listed == spec_list_shares(self@, recipient@),
                spec_find_share(listed, name@) == spec_find_share(listed.skip(i as int), name@),
            decreases shares@.len() - i,
        {
            proof {
                assert(listed.skip(i as int)[0] == listed[i as int]);
                assert(listed.skip(i as int).drop_first() =~= listed.skip(i as int + 1));
            }
            if str_eq(shares[i].name(), name) {
                proof {
                    assert(listed[i as int] == shares@[i as int]@);
                    assert(listed.skip(i as int)[0].name == name@);
                    assert(spec_find_share(listed, name@) == Some(listed[i as int]));
                }
                let s = shares.remove(i);
                let r = Some(s);
                proof {
                    assert(r.deep_view() == spec_find_share(listed, name@));
                }
                return r;
            }
            i += 1;
        }
        proof {
            assert(listed.skip(listed.len() as int) =~= Seq::<ShareView>::empty());
        }
        None
    }
}

impl Default for ShareFile {
    /// The default snapshot is empty.
    fn default() -> (r: Self)
        ensures
            r@ == Seq::<ShareConfigView>::empty(),
    {
        ShareFile::new()
    }
}

/// Access-control correctness: a share entity stands in the listing for a
/// recipient exactly when some descriptor converts to it and is visible to
/// that recipient — it declares no recipients list, or the recipient's
/// identity is a member of the declared list. In particular, the anonymous
/// identity sees a restricted share only when the declared list names the
/// anonymous sentinel itself.
pub proof fn lemma_list_shares_acl(
    shares: Seq<ShareConfigView>,
    recipient: Seq<char>,
    v: ShareView,
)
    ensures
        spec_list_shares(shares, recipient).contains(v) <==> exists|i: int|
            0 <= i < shares.len() && spec_visible(#[trigger] shares[i], recipient)
                && spec_to_share(shares[i]) == v,
    decreases shares.len(),
{
    if shares.len() > 0 {
        let pre = shares.drop_last();
        let last = shares.last();
        lemma_list_shares_acl(pre, recipient, v);
        let listed = spec_list_shares(shares, recipient);
        let listed_pre = spec_list_shares(pre, recipient);
        if spec_visible(last, recipient) {
            assert(listed == listed_pre.push(spec_to_share(last)));
            if listed_pre.contains(v) {
                let j = choose|j: int| 0 <= j < listed_pre.len() && listed_pre[j] == v;
                assert(listed[j] == v);
            }
            if spec_to_share(last) == v {
                assert(listed[listed.len() - 1] == v);
            }
            if listed.contains(v) {
                let j = choose|j: int| 0 <= j < listed.len() && listed[j] == v;
                if j < listed.len() - 1 {
                    assert(listed_pre[j] == v);
                }
            }
        }
        if exists|i: int|
            0 <= i < pre.len() && spec_visible(#[trigger] pre[i], recipient) && spec_to_share(
                pre[i],
            ) == v {
            let i = choose|i: int|
                0 <= i < pre.len() && spec_visible(#[trigger] pre[i], recipient)
                    && spec_to_share(pre[i]) == v;
            assert(shares[i] == pre[i]);
        }
        if exists|i: int|
            0 <= i < shares.len() && spec_visible(#[trigger] shares[i], recipient)
                && spec_to_share(shares[i]) == v {
            let i = choose|i: int|
                0 <= i < shares.len() && spec_visible(#[trigger] shares[i], recipient)
                    && spec_to_share(shares[i]) == v;
            if i < shares.len() - 1 {
                assert(pre[i] == shares[i]);
            } else {
                assert(shares[i] == last);
            }
        }
    }
}

} // verus!
