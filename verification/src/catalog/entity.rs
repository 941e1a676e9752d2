//! The entity model: shares, schemas, tables, and their builders.
//!
//! Entities are immutable value types; the builders are the only construction
//! path and validate that every required field is present before an instance
//! can exist. Each type carries a mathematical view, over which all the
//! contracts of this library are stated.

use crate::catalog::error::{CatalogError, CatalogErrorKind};
use crate::text::str_eq;
use vstd::prelude::*;

verus! {

/// The property bag attached to shares and tables: a string-to-string map,
/// looked up by exact key. Modelled as `Map<Seq<char>, Seq<char>>`; stored as
/// an association list where the entry nearest the front wins.
#[derive(Debug, PartialEq)]
pub struct ExtensionMap {
    entries: Vec<(String, String)>,
}

/// The map described by an association list, earlier entries overriding
/// later ones.
spec fn assoc_view(entries: Seq<(String, String)>) -> Map<Seq<char>, Seq<char>>
    decreases entries.len(),
{
    if entries.len() == 0 {
        Map::empty()
    } else {
        assoc_view(entries.drop_first()).insert(entries[0].0@, entries[0].1@)
    }
}

/// The value of the first entry of `entries` whose key is `key`, if any.
spec fn assoc_get(entries: Seq<(String, String)>, key: Seq<char>) -> Option<Seq<char>>
    decreases entries.len(),
{
    if entries.len() == 0 {
        None
    } else if entries[0].0@ == key {
        Some(entries[0].1@)
    } else {
        assoc_get(entries.drop_first(), key)
    }
}

/// The first matching entry of an association list is the binding of the map
/// it describes.
proof fn lemma_assoc_get_view(entries: Seq<(String, String)>, key: Seq<char>)
    ensures
        match assoc_get(entries, key) {
            Some(v) => assoc_view(entries).contains_key(key) && assoc_view(entries)[key] == v,
            None => !assoc_view(entries).contains_key(key),
        },
    decreases entries.len(),
{
    if entries.len() > 0 && entries[0].0@ != key {
        lemma_assoc_get_view(entries.drop_first(), key);
    }
}

impl View for ExtensionMap {
    type V = Map<Seq<char>, Seq<char>>;

    closed spec fn view(&self) -> Map<Seq<char>, Seq<char>> {
        assoc_view(self.entries@)
    }
}

impl DeepView for ExtensionMap {
    type V = Map<Seq<char>, Seq<char>>;

    open spec fn deep_view(&self) -> Map<Seq<char>, Seq<char>> {
        self@
    }
}

impl ExtensionMap {
    /// Create an empty extension map.
    pub fn new() -> (r: Self)
        ensures
            r@ == Map::<Seq<char>, Seq<char>>::empty(),
    {
        ExtensionMap { entries: Vec::new() }
    }

    /// Bind `key` to `value`, replacing any earlier binding.
    pub fn insert(&mut self, key: &str, value: &str)
        ensures
            final(self)@ == old(self)@.insert(key@, value@),
    {
        self.entries.insert(0, (key.to_owned(), value.to_owned()));
        proof {
            assert(self.entries@.drop_first() =~= old(self).entries@);
        }
    }

    /// Look the value bound to `key` up; `None` when the key is unbound.
    pub fn get<'a>(&'a self, key: &str) -> (r: Option<&'a str>)
        ensures
            match r {
                Some(v) => self@.contains_key(key@) && v@ == self@[key@],
                None => !self@.contains_key(key@),
            },
    {
        let mut i: usize = 0;
        proof {
            assert(self.entries@.skip(0) =~= self.entries@);
        }
        while i < self.entries.len()
            invariant
                i <= self.entries@.len(),
                assoc_get(self.entries@, key@) == assoc_get(
                    self.entries@.skip(i as int),
                    key@,
                ),
            decreases self.entries@.len() - i,
        {
            proof {
                assert(self.entries@.skip(i as int)[0] == self.entries@[i as int]);
                assert(self.entries@.skip(i as int).drop_first() =~= self.entries@.skip(
                    i as int + 1,
                ));
            }
            if str_eq(self.entries[i].0.as_str(), key) {
                proof {
                    lemma_assoc_get_view(self.entries@, key@);
                }
                return Some(self.entries[i].1.as_str());
            }
            i += 1;
        }
        proof {
            assert(self.entries@.skip(self.entries@.len() as int) =~= Seq::<(
                String,
                String,
            )>::empty());
            lemma_assoc_get_view(self.entries@, key@);
        }
        None
    }
}

impl Clone for ExtensionMap {
    /// Cloning keeps the map unchanged.
    fn clone(&self) -> (r: Self)
        ensures
            r@ == self@,
    {
        let mut entries: Vec<(String, String)> = Vec::new();
        let mut i: usize = 0;
        while i < self.entries.len()
            invariant
                i <= self.entries@.len(),
                entries@.len() == i,
                forall|j: int| 0 <= j < i ==> entries@[j] == self.entries@[j],
            decreases self.entries@.len() - i,
        {
            let pair = &self.entries[i];
            entries.push((pair.0.clone(), pair.1.clone()));
            i += 1;
        }
        proof {
            assert(entries@ =~= self.entries@);
        }
        ExtensionMap { entries }
    }
}

/// Clone an optional extension map, keeping its view.
pub fn clone_extensions(ext: &Option<ExtensionMap>) -> (r: Option<ExtensionMap>)
    ensures
        r.deep_view() == ext.deep_view(),
{
    match ext {
        Some(m) => Some(m.clone()),
        None => None,
    }
}

/// The extension bag after adding one binding, allocating the bag on the
/// first insertion.
pub open spec fn bag_add(
    ext: Option<Map<Seq<char>, Seq<char>>>,
    key: Seq<char>,
    value: Seq<char>,
) -> Option<Map<Seq<char>, Seq<char>>> {
    match ext {
        Some(m) => Some(m.insert(key, value)),
        None => Some(Map::<Seq<char>, Seq<char>>::empty().insert(key, value)),
    }
}

/// The mathematical content of a [`Share`].
pub struct ShareView {
    /// View of the optional backend-assigned identifier.
    pub id: Option<Seq<char>>,
    /// View of the share name.
    pub name: Seq<char>,
    /// View of the optional extension bag.
    pub extensions: Option<Map<Seq<char>, Seq<char>>>,
}

/// A named collection of schemas exposed to recipients.
#[derive(Debug, Clone, PartialEq)]
pub struct Share {
    id: Option<String>,
    name: String,
    extensions: Option<ExtensionMap>,
}

impl View for Share {
    type V = ShareView;

    closed spec fn view(&self) -> ShareView {
        ShareView { id: self.id.deep_view(), name: self.name@, extensions: self.extensions.deep_view() }
    }
}

impl DeepView for Share {
    type V = ShareView;

    open spec fn deep_view(&self) -> ShareView {
        self@
    }
}

impl Share {
    /// Create a new [`ShareBuilder`].
    pub fn builder() -> (r: ShareBuilder)
        ensures
            r@ == (ShareBuilderView { id: None, name: None, extensions: None }),
    {
        ShareBuilder::new()
    }

    /// Return the id of the share.
    pub fn id(&self) -> (r: Option<&str>)
        ensures
            r.deep_view() == self@.id,
    {
        match &self.id {
            Some(s) => Some(s.as_str()),
            None => None,
        }
    }

    /// Return the name of the share.
    pub fn name(&self) -> (r: &str)
        ensures
            r@ == self@.name,
    {
        self.name.as_str()
    }

    /// Return the share extension bound to the key; an absent bag and a
    /// missing key both yield `None`.
    pub fn get_extension<'a>(&'a self, key: &str) -> (r: Option<&'a str>)
        ensures
            match r {
                Some(v) => (self@.extensions matches Some(m) && m.contains_key(key@) && v@
                    == m[key@]),
                None => !(self@.extensions matches Some(m) && m.contains_key(key@)),
            },
    {
        match &self.extensions {
            Some(m) => m.get(key),
            None => None,
        }
    }
}

/// The mathematical content of a [`ShareBuilder`].
pub struct ShareBuilderView {
    /// View of the accumulated id.
    pub id: Option<Seq<char>>,
    /// View of the accumulated name.
    pub name: Option<Seq<char>>,
    /// View of the accumulated extension bag.
    pub extensions: Option<Map<Seq<char>, Seq<char>>>,
}

/// A builder for the [`Share`] type.
#[derive(Debug, Clone)]
pub struct ShareBuilder {
    id: Option<String>,
    name: Option<String>,
    extensions: Option<ExtensionMap>,
}

impl View for ShareBuilder {
    type V = ShareBuilderView;

    closed spec fn view(&self) -> ShareBuilderView {
        ShareBuilderView {
            id: self.id.deep_view(),
            name: self.name.deep_view(),
            extensions: self.extensions.deep_view(),
        }
    }
}

impl ShareBuilder {
    /// Create a new [`ShareBuilder`] with no field set.
    pub fn new() -> (r: Self)
        ensures
            r@ == (ShareBuilderView { id: None, name: None, extensions: None }),
    {
        ShareBuilder { id: None, name: None, extensions: None }
    }

    /// Set the id of the share.
    pub fn id(self, share_id: &str) -> (r: Self)
        ensures
            r@ == (ShareBuilderView { id: Some(share_id@), ..self@ }),
    {
        ShareBuilder { id: Some(share_id.to_owned()), ..self }
    }

    /// Set the id of the share.
    pub fn set_id(self, share_id: Option<String>) -> (r: Self)
        ensures
            r@ == (ShareBuilderView { id: share_id.deep_view(), ..self@ }),
    {
        ShareBuilder { id: share_id, ..self }
    }

    /// Set the name of the share.
    pub fn name(self, share_name: &str) -> (r: Self)
        ensures
            r@ == (ShareBuilderView { name: Some(share_name@), ..self@ }),
    {
        ShareBuilder { name: Some(share_name.to_owned()), ..self }
    }

    /// Set the name of the share.
    pub fn set_name(self, share_name: Option<String>) -> (r: Self)
        ensures
            r@ == (ShareBuilderView { name: share_name.deep_view(), ..self@ }),
    {
        ShareBuilder { name: share_name, ..self }
    }

    /// Set one share extension key-value pair, allocating the bag on the
    /// first insertion.
    pub fn add_extension(self, key: &str, value: &str) -> (r: Self)
        ensures
            r@ == (ShareBuilderView { extensions: bag_add(self@.extensions, key@, value@), ..self@ }),
    {
        let mut ext = match self.extensions {
            Some(m) => m,
            None => ExtensionMap::new(),
        };
        ext.insert(key, value);
        ShareBuilder { extensions: Some(ext), id: self.id, name: self.name }
    }

    /// Set the share extensions wholesale.
    pub fn set_extensions(self, extensions: Option<ExtensionMap>) -> (r: Self)
        ensures
            r@ == (ShareBuilderView { extensions: extensions.deep_view(), ..self@ }),
    {
        ShareBuilder { extensions, ..self }
    }

    /// Build the share. Fails with an internal error when the required
    /// `name` was not set; otherwise the share carries exactly the
    /// accumulated fields.
    pub fn build(self) -> (r: Result<Share, CatalogError>)
        ensures
            self@.name matches Some(n) ==> (r matches Ok(s) && s@ == (ShareView {
                id: self@.id,
                name: n,
                extensions: self@.extensions,
            })),
            self@.name is None ==> (r matches Err(e) && e.spec_kind()
                == CatalogErrorKind::Internal && e.spec_message()
                == "the required attribute `name` was not set"@),
    {
        let Some(share_name) = self.name else {
            return Err(CatalogError::internal("the required attribute `name` was not set"));
        };
        Ok(Share { id: self.id, name: share_name, extensions: self.extensions })
    }
}

impl Default for ShareBuilder {
    /// The default builder has no field set.
    fn default() -> (r: Self)
        ensures
            r@ == (ShareBuilderView { id: None, name: None, extensions: None }),
    {
        ShareBuilder::new()
    }
}

/// The mathematical content of a [`Schema`].
pub struct SchemaView {
    /// View of the optional backend-assigned identifier.
    pub id: Option<Seq<char>>,
    /// View of the schema name.
    pub name: Seq<char>,
    /// View of the name of the share containing the schema.
    pub share_name: Seq<char>,
    /// View of the optional extension bag.
    pub extensions: Option<Map<Seq<char>, Seq<char>>>,
}

/// A named grouping of tables within one share. The relation to its share is
/// expressed purely by the stored share name, never by a live reference.
#[derive(Debug, Clone, PartialEq)]
pub struct Schema {
    id: Option<String>,
    name: String,
    share_name: String,
    extensions: Option<ExtensionMap>,
}

impl View for Schema {
    type V = SchemaView;

    closed spec fn view(&self) -> SchemaView {
        SchemaView {
            id: self.id.deep_view(),
            name: self.name@,
            share_name: self.share_name@,
            extensions: self.extensions.deep_view(),
        }
    }
}

impl DeepView for Schema {
    type V = SchemaView;

    open spec fn deep_view(&self) -> SchemaView {
        self@
    }
}

impl Schema {
    /// Create a new [`SchemaBuilder`].
    pub fn builder() -> (r: SchemaBuilder)
        ensures
            r@ == (SchemaBuilderView {
                schema_id: None,
                share_id: None,
                schema_name: None,
                share_name: None,
                extensions: None,
            }),
    {
        SchemaBuilder::new()
    }

    /// Return the id of the schema.
    pub fn id(&self) -> (r: Option<&str>)
        ensures
            r.deep_view() == self@.id,
    {
        match &self.id {
            Some(s) => Some(s.as_str()),
            None => None,
        }
    }

    /// Return the name of the schema.
    pub fn name(&self) -> (r: &str)
        ensures
            r@ == self@.name,
    {
        self.name.as_str()
    }

    /// Return the name of the share containing the schema.
    pub fn share_name(&self) -> (r: &str)
        ensures
            r@ == self@.share_name,
    {
        self.share_name.as_str()
    }
}

/// The mathematical content of a [`SchemaBuilder`].
pub struct SchemaBuilderView {
    /// View of the accumulated schema id.
    pub schema_id: Option<Seq<char>>,
    /// View of the accumulated share id.
    pub share_id: Option<Seq<char>>,
    /// View of the accumulated schema name.
    pub schema_name: Option<Seq<char>>,
    /// View of the accumulated share name.
    pub share_name: Option<Seq<char>>,
    /// View of the accumulated extension bag.
    pub extensions: Option<Map<Seq<char>, Seq<char>>>,
}

/// A builder for the [`Schema`] type.
#[derive(Debug, Clone)]
pub struct SchemaBuilder {
    schema_id: Option<String>,
    share_id: Option<String>,
    schema_name: Option<String>,
    share_name: Option<String>,
    extensions: Option<ExtensionMap>,
}

impl View for SchemaBuilder {
    type V = SchemaBuilderView;

    closed spec fn view(&self) -> SchemaBuilderView {
        SchemaBuilderView {
            schema_id: self.schema_id.deep_view(),
            share_id: self.share_id.deep_view(),
            schema_name: self.schema_name.deep_view(),
            share_name: self.share_name.deep_view(),
            extensions: self.extensions.deep_view(),
        }
    }
}

impl SchemaBuilder {
    /// Create a new [`SchemaBuilder`] with no field set.
    pub fn new() -> (r: Self)
        ensures
            r@ == (SchemaBuilderView {
                schema_id: None,
                share_id: None,
                schema_name: None,
                share_name: None,
                extensions: None,
            }),
    {
        SchemaBuilder {
            schema_id: None,
            share_id: None,
            schema_name: None,
            share_name: None,
            extensions: None,
        }
    }

    /// Set the id of the schema.
    pub fn id(self, schema_id: &str) -> (r: Self)
        ensures
            r@ == (SchemaBuilderView { schema_id: Some(schema_id@), ..self@ }),
    {
        SchemaBuilder { schema_id: Some(schema_id.to_owned()), ..self }
    }

    /// Set the id of the schema.
    pub fn set_id(self, schema_id: Option<String>) -> (r: Self)
        ensures
            r@ == (SchemaBuilderView { schema_id: schema_id.deep_view(), ..self@ }),
    {
        SchemaBuilder { schema_id, ..self }
    }

    /// Set the id of the share containing the schema.
    pub fn share_id(self, share_id: &str) -> (r: Self)
        ensures
            r@ == (SchemaBuilderView { share_id: Some(share_id@), ..self@ }),
    {
        SchemaBuilder { share_id: Some(share_id.to_owned()), ..self }
    }

    /// Set the id of the share containing the schema.
    pub fn set_share_id(self, share_id: Option<String>) -> (r: Self)
        ensures
            r@ == (SchemaBuilderView { share_id: share_id.deep_view(), ..self@ }),
    {
        SchemaBuilder { share_id, ..self }
    }

    /// Set the name of the schema.
    pub fn name(self, schema_name: &str) -> (r: Self)
        ensures
            r@ == (SchemaBuilderView { schema_name: Some(schema_name@), ..self@ }),
    {
        SchemaBuilder { schema_name: Some(schema_name.to_owned()), ..self }
    }

    /// Set the name of the schema.
    pub fn set_name(self, schema_name: Option<String>) -> (r: Self)
        ensures
            r@ == (SchemaBuilderView { schema_name: schema_name.deep_view(), ..self@ }),
    {
        SchemaBuilder { schema_name, ..self }
    }

    /// Set the name of the share containing the schema.
    pub fn share_name(self, share_name: &str) -> (r: Self)
        ensures
            r@ == (SchemaBuilderView { share_name: Some(share_name@), ..self@ }),
    {
        SchemaBuilder { share_name: Some(share_name.to_owned()), ..self }
    }

    /// Set the name of the share containing the schema.
    pub fn set_share_name(self, share_name: Option<String>) -> (r: Self)
        ensures
            r@ == (SchemaBuilderView { share_name: share_name.deep_view(), ..self@ }),
    {
        SchemaBuilder { share_name, ..self }
    }

    /// Build the schema. Fails with an internal error when the required
    /// `name` or `share_name` was not set, checking `name` first; otherwise
    /// the schema carries exactly the accumulated fields.
    pub fn build(self) -> (r: Result<Schema, CatalogError>)
        ensures
            self@.schema_name matches Some(n) ==> self@.share_name matches Some(sn) ==> (r
                matches Ok(s) && s@ == (SchemaView {
                id: self@.schema_id,
                name: n,
                share_name: sn,
                extensions: self@.extensions,
            })),
            self@.schema_name is None ==> (r matches Err(e) && e.spec_kind()
                == CatalogErrorKind::Internal && e.spec_message()
                == "the required attribute `name` was not set"@),
            (self@.schema_name is Some && self@.share_name is None) ==> (r matches Err(e)
                && e.spec_kind() == CatalogErrorKind::Internal && e.spec_message()
                == "the required attribute `share_name` was not set"@),
    {
        let Some(schema_name) = self.schema_name else {
            return Err(CatalogError::internal("the required attribute `name` was not set"));
        };
        let Some(share_name) = self.share_name else {
            return Err(
                CatalogError::internal("the required attribute `share_name` was not set"),
            );
        };
        Ok(
            Schema {
                id: self.schema_id,
                name: schema_name,
                share_name,
                extensions: self.extensions,
            },
        )
    }
}

impl Default for SchemaBuilder {
    /// The default builder has no field set.
    fn default() -> (r: Self)
        ensures
            r@ == (SchemaBuilderView {
                schema_id: None,
                share_id: None,
                schema_name: None,
                share_name: None,
                extensions: None,
            }),
    {
        SchemaBuilder::new()
    }
}

/// The mathematical content of a [`Table`].
pub struct TableView {
    /// View of the optional backend-assigned identifier.
    pub id: Option<Seq<char>>,
    /// View of the table name.
    pub name: Seq<char>,
    /// View of the optional id of the share containing the table.
    pub share_id: Option<Seq<char>>,
    /// View of the name of the share containing the table.
    pub share_name: Seq<char>,
    /// View of the name of the schema containing the table.
    pub schema_name: Seq<char>,
    /// View of the storage location of the table.
    pub storage_location: Seq<char>,
    /// View of the optional extension bag.
    pub extensions: Option<Map<Seq<char>, Seq<char>>>,
}

/// A named pointer to a storage location, within one schema and share. The
/// storage location is an opaque URI interpreted only by the storage-reading
/// collaborator.
#[derive(Debug, Clone, PartialEq)]
pub struct Table {
    id: Option<String>,
    name: String,
    share_id: Option<String>,
    share_name: String,
    schema_name: String,
    storage_location: String,
    extensions: Option<ExtensionMap>,
}

impl View for Table {
    type V = TableView;

    closed spec fn view(&self) -> TableView {
        TableView {
            id: self.id.deep_view(),
            name: self.name@,
            share_id: self.share_id.deep_view(),
            share_name: self.share_name@,
            schema_name: self.schema_name@,
            storage_location: self.storage_location@,
            extensions: self.extensions.deep_view(),
        }
    }
}

impl DeepView for Table {
    type V = TableView;

    open spec fn deep_view(&self) -> TableView {
        self@
    }
}

impl Table {
    /// Create a new [`TableBuilder`].
    pub fn builder() -> (r: TableBuilder)
        ensures
            r@ == (TableBuilderView {
                share_id: None,
                schema_id: None,
                table_id: None,
                share_name: None,
                schema_name: None,
                table_name: None,
                storage_path: None,
                extensions: None,
            }),
    {
        TableBuilder::new()
    }

    /// Return the id of the table.
    pub fn id(&self) -> (r: Option<&str>)
        ensures
            r.deep_view() == self@.id,
    {
        match &self.id {
            Some(s) => Some(s.as_str()),
            None => None,
        }
    }

    /// Return the id of the share containing the table.
    pub fn share_id(&self) -> (r: Option<&str>)
        ensures
            r.deep_view() == self@.share_id,
    {
        match &self.share_id {
            Some(s) => Some(s.as_str()),
            None => None,
        }
    }

    /// Return the name of the table.
    pub fn name(&self) -> (r: &str)
        ensures
            r@ == self@.name,
    {
        self.name.as_str()
    }

    /// Return the name of the schema containing the table.
    pub fn schema_name(&self) -> (r: &str)
        ensures
            r@ == self@.schema_name,
    {
        self.schema_name.as_str()
    }

    /// Return the name of the share containing the table.
    pub fn share_name(&self) -> (r: &str)
        ensures
            r@ == self@.share_name,
    {
        self.share_name.as_str()
    }

    /// Return the storage path of the table.
    pub fn storage_path(&self) -> (r: &str)
        ensures
            r@ == self@.storage_location,
    {
        self.storage_location.as_str()
    }

    /// Return the table extension bound to the key; an absent bag and a
    /// missing key both yield `None`.
    pub fn get_extension<'a>(&'a self, key: &str) -> (r: Option<&'a str>)
        ensures
            match r {
                Some(v) => (self@.extensions matches Some(m) && m.contains_key(key@) && v@
                    == m[key@]),
                None => !(self@.extensions matches Some(m) && m.contains_key(key@)),
            },
    {
        match &self.extensions {
            Some(m) => m.get(key),
            None => None,
        }
    }
}

/// The mathematical content of a [`TableBuilder`].
pub struct TableBuilderView {
    /// View of the accumulated share id.
    pub share_id: Option<Seq<char>>,
    /// View of the accumulated schema id.
    pub schema_id: Option<Seq<char>>,
    /// View of the accumulated table id.
    pub table_id: Option<Seq<char>>,
    /// View of the accumulated share name.
    pub share_name: Option<Seq<char>>,
    /// View of the accumulated schema name.
    pub schema_name: Option<Seq<char>>,
    /// View of the accumulated table name.
    pub table_name: Option<Seq<char>>,
    /// View of the accumulated storage path.
    pub storage_path: Option<Seq<char>>,
    /// View of the accumulated extension bag.
    pub extensions: Option<Map<Seq<char>, Seq<char>>>,
}

/// A builder for the [`Table`] type.
#[derive(Debug, Clone)]
pub struct TableBuilder {
    share_id: Option<String>,
    schema_id: Option<String>,
    table_id: Option<String>,
    share_name: Option<String>,
    schema_name: Option<String>,
    table_name: Option<String>,
    storage_path: Option<String>,
    extensions: Option<ExtensionMap>,
}

impl View for TableBuilder {
    type V = TableBuilderView;

    closed spec fn view(&self) -> TableBuilderView {
        TableBuilderView {
            share_id: self.share_id.deep_view(),
            schema_id: self.schema_id.deep_view(),
            table_id: self.table_id.deep_view(),
            share_name: self.share_name.deep_view(),
            schema_name: self.schema_name.deep_view(),
            table_name: self.table_name.deep_view(),
            storage_path: self.storage_path.deep_view(),
            extensions: self.extensions.deep_view(),
        }
    }
}

impl TableBuilder {
    /// Create a new [`TableBuilder`] with no field set.
    pub fn new() -> (r: Self)
        ensures
            r@ == (TableBuilderView {
                share_id: None,
                schema_id: None,
                table_id: None,
                share_name: None,
                schema_name: None,
                table_name: None,
                storage_path: None,
                extensions: None,
            }),
    {
        TableBuilder {
            share_id: None,
            schema_id: None,
            table_id: None,
            share_name: None,
            schema_name: None,
            table_name: None,
            storage_path: None,
            extensions: None,
        }
    }

    /// Set the id of the share containing the table.
    pub fn share_id(self, share_id: &str) -> (r: Self)
        ensures
            r@ == (TableBuilderView { share_id: Some(share_id@), ..self@ }),
    {
        TableBuilder { share_id: Some(share_id.to_owned()), ..self }
    }

    /// Set the id of the share containing the table.
    pub fn set_share_id(self, share_id: Option<String>) -> (r: Self)
        ensures
            r@ == (TableBuilderView { share_id: share_id.deep_view(), ..self@ }),
    {
        TableBuilder { share_id, ..self }
    }

    /// Set the id of the schema containing the table.
    pub fn schema_id(self, schema_id: &str) -> (r: Self)
        ensures
            r@ == (TableBuilderView { schema_id: Some(schema_id@), ..self@ }),
    {
        TableBuilder { schema_id: Some(schema_id.to_owned()), ..self }
    }

    /// Set the id of the schema containing the table.
    pub fn set_schema_id(self, schema_id: Option<String>) -> (r: Self)
        ensures
            r@ == (TableBuilderView { schema_id: schema_id.deep_view(), ..self@ }),
    {
        TableBuilder { schema_id, ..self }
    }

    /// Set the id of the table.
    pub fn id(self, table_id: &str) -> (r: Self)
        ensures
            r@ == (TableBuilderView { table_id: Some(table_id@), ..self@ }),
    {
        TableBuilder { table_id: Some(table_id.to_owned()), ..self }
    }

    /// Set the id of the table.
    pub fn set_id(self, table_id: Option<String>) -> (r: Self)
        ensures
            r@ == (TableBuilderView { table_id: table_id.deep_view(), ..self@ }),
    {
        TableBuilder { table_id, ..self }
    }

    /// Set the name of the share containing the table.
    pub fn share_name(self, share_name: &str) -> (r: Self)
        ensures
            r@ == (TableBuilderView { share_name: Some(share_name@), ..self@ }),
    {
        TableBuilder { share_name: Some(share_name.to_owned()), ..self }
    }

    /// Set the name of the share containing the table.
    pub fn set_share_name(self, share_name: Option<String>) -> (r: Self)
        ensures
            r@ == (TableBuilderView { share_name: share_name.deep_view(), ..self@ }),
    {
        TableBuilder { share_name, ..self }
    }

    /// Set the name of the schema containing the table.
    pub fn schema_name(self, schema_name: &str) -> (r: Self)
        ensures
            r@ == (TableBuilderView { schema_name: Some(schema_name@), ..self@ }),
    {
        TableBuilder { schema_name: Some(schema_name.to_owned()), ..self }
    }

    /// Set the name of the schema containing the table.
    pub fn set_schema_name(self, schema_name: Option<String>) -> (r: Self)
        ensures
            r@ == (TableBuilderView { schema_name: schema_name.deep_view(), ..self@ }),
    {
        TableBuilder { schema_name, ..self }
    }

    /// Set the name of the table.
    pub fn name(self, table_name: &str) -> (r: Self)
        ensures
            r@ == (TableBuilderView { table_name: Some(table_name@), ..self@ }),
    {
        TableBuilder { table_name: Some(table_name.to_owned()), ..self }
    }

    /// Set the name of the table.
    pub fn set_name(self, table_name: Option<String>) -> (r: Self)
        ensures
            r@ == (TableBuilderView { table_name: table_name.deep_view(), ..self@ }),
    {
        TableBuilder { table_name, ..self }
    }

    /// Set the storage location of the table.
    pub fn storage_path(self, path: &str) -> (r: Self)
        ensures
            r@ == (TableBuilderView { storage_path: Some(path@), ..self@ }),
    {
        TableBuilder { storage_path: Some(path.to_owned()), ..self }
    }

    /// Set the storage location of the table.
    pub fn set_storage_path(self, path: Option<String>) -> (r: Self)
        ensures
            r@ == (TableBuilderView { storage_path: path.deep_view(), ..self@ }),
    {
        TableBuilder { storage_path: path, ..self }
    }

    /// Set one table extension key-value pair, allocating the bag on the
    /// first insertion.
    pub fn add_extension(self, key: &str, value: &str) -> (r: Self)
        ensures
            r@ == (TableBuilderView { extensions: bag_add(self@.extensions, key@, value@), ..self@ }),
    {
        let mut ext = match self.extensions {
            Some(m) => m,
            None => ExtensionMap::new(),
        };
        ext.insert(key, value);
        TableBuilder {
            extensions: Some(ext),
            share_id: self.share_id,
            schema_id: self.schema_id,
            table_id: self.table_id,
            share_name: self.share_name,
            schema_name: self.schema_name,
            table_name: self.table_name,
            storage_path: self.storage_path,
        }
    }

    /// Set the table extensions wholesale.
    pub fn set_extensions(self, extensions: Option<ExtensionMap>) -> (r: Self)
        ensures
            r@ == (TableBuilderView { extensions: extensions.deep_view(), ..self@ }),
    {
        TableBuilder { extensions, ..self }
    }

    /// Build the table. Fails with an internal error when one of the
    /// required `share_name`, `schema_name`, `name` or `storage_path` was
    /// not set, checked in that order; otherwise the table carries exactly
    /// the accumulated fields.
    pub fn build(self) -> (r: Result<Table, CatalogError>)
        ensures
            self@.share_name matches Some(shn) ==> self@.schema_name matches Some(scn)
                ==> self@.table_name matches Some(tn) ==> self@.storage_path matches Some(sp)
                ==> (r matches Ok(t) && t@ == (TableView {
                id: self@.table_id,
                name: tn,
                share_id: self@.share_id,
                share_name: shn,
                schema_name: scn,
                storage_location: sp,
                extensions: self@.extensions,
            })),
            self@.share_name is None ==> (r matches Err(e) && e.spec_kind()
                == CatalogErrorKind::Internal && e.spec_message()
                == "the required attribute `share_name` was not set"@),
            (self@.share_name is Some && self@.schema_name is None) ==> (r matches Err(e)
                && e.spec_kind() == CatalogErrorKind::Internal && e.spec_message()
                == "the required attribute `schema_name` was not set"@),
            (self@.share_name is Some && self@.schema_name is Some && self@.table_name is None)
                ==> (r matches Err(e) && e.spec_kind() == CatalogErrorKind::Internal
                && e.spec_message() == "the required attribute `table_name` was not set"@),
            (self@.share_name is Some && self@.schema_name is Some && self@.table_name is Some
                && self@.storage_path is None) ==> (r matches Err(e) && e.spec_kind()
                == CatalogErrorKind::Internal && e.spec_message()
                == "the required attribute `storage_path` was not set"@),
    {
        let Some(share_name) = self.share_name else {
            return Err(
                CatalogError::internal("the required attribute `share_name` was not set"),
            );
        };
        let Some(schema_name) = self.schema_name else {
            return Err(
                CatalogError::internal("the required attribute `schema_name` was not set"),
            );
        };
        let Some(table_name) = self.table_name else {
            return Err(
                CatalogError::internal("the required attribute `table_name` was not set"),
            );
        };
        let Some(storage_path) = self.storage_path else {
            return Err(
                CatalogError::internal("the required attribute `storage_path` was not set"),
            );
        };
        Ok(
            Table {
                id: self.table_id,
                name: table_name,
                share_id: self.share_id,
                share_name,
                schema_name,
                storage_location: storage_path,
                extensions: self.extensions,
            },
        )
    }
}

impl Default for TableBuilder {
    /// The default builder has no field set.
    fn default() -> (r: Self)
        ensures
            r@ == (TableBuilderView {
                share_id: None,
                schema_id: None,
                table_id: None,
                share_name: None,
                schema_name: None,
                table_name: None,
                storage_path: None,
                extensions: None,
            }),
    {
        TableBuilder::new()
    }
}

} // verus!
