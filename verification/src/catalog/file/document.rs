//! Loading the catalog configuration document.
//!
//! A configuration document is the nested `shares[].schemas[].tables[]`
//! descriptor tree, written in one of three interchangeable textual
//! encodings. Each encoding is parsed by its own crate into one generic
//! value tree (`serde_json::Value`), and the verified walker below checks
//! the tree's shape and converts it into the snapshot's descriptors.
//!
//! The parsed tree is given a mathematical model: [`DocValue`] is the ghost
//! shape of a generic value, [`doc_model`] names the model of an opaque
//! `serde_json::Value`, and [`json_doc`], [`yaml_doc`] and [`toml_doc`] name
//! what each parser returns for a given text. The trusted items state each
//! outside call over those names; everything from the named tree to the
//! snapshot — the document grammar itself — is verified, so
//! [`load_share_file`] returns exactly [`spec_load_share_file`] of its
//! input.

use crate::catalog::entity::ExtensionMap;
use crate::catalog::error::{CatalogError, CatalogErrorKind};
use crate::catalog::file::config::FileFormat;
use crate::catalog::file::model::{
    SchemaConfig, SchemaConfigView, ShareConfig, ShareConfigView, ShareFile, TableConfig,
    TableConfigView,
};
use vstd::prelude::*;

verus! {

/// The mathematical shape of one generic document value. An object is
/// modelled as its entries in iteration order; `Other` covers the kinds the
/// document grammar never reads (numbers and booleans).
pub enum DocValue {
    /// The explicit null value.
    Null,
    /// A string value.
    Str(Seq<char>),
    /// An array of values.
    Arr(Seq<DocValue>),
    /// An object: its entries, in iteration order.
    Obj(Seq<(Seq<char>, DocValue)>),
    /// Any other kind of value.
    Other,
}

/// The model of an opaque parsed value.
pub uninterp spec fn doc_model(v: serde_json::Value) -> DocValue;

/// The tree that parsing a text as JSON yields, if any.
pub uninterp spec fn json_doc(s: Seq<char>) -> Option<DocValue>;

/// The tree that parsing a text as YAML yields, if any.
pub uninterp spec fn yaml_doc(s: Seq<char>) -> Option<DocValue>;

/// The tree that parsing a text as TOML yields, if any.
pub uninterp spec fn toml_doc(s: Seq<char>) -> Option<DocValue>;

/// The first entry of an object bound to `key`, if any. Parsed objects carry
/// each key once, so this is the object's binding for the key.
pub open spec fn obj_get(entries: Seq<(Seq<char>, DocValue)>, key: Seq<char>) -> Option<DocValue>
    decreases entries.len(),
{
    if entries.len() == 0 {
        None
    } else if entries[0].0 == key {
        Some(entries[0].1)
    } else {
        obj_get(entries.drop_first(), key)
    }
}

/// Whether a plain entry pair renders one model entry: equal keys, and the
/// plain value is the entry's string exactly when the entry holds a string.
pub open spec fn entry_matches(e: (String, Option<String>), m: (Seq<char>, DocValue)) -> bool {
    e.0@ == m.0 && match m.1 {
        DocValue::Str(s) => e.1 matches Some(v) && v@ == s,
        _ => e.1 is None,
    }
}

#[verifier::external_type_specification]
#[verifier::external_body]
pub struct ExValue(serde_json::Value);

/// Relies on `serde_json::from_str::<serde_json::Value>`: parse JSON text
/// into one generic value tree; `None` when the text is not valid JSON.
#[verifier::external_body]
fn parse_json(content: &str) -> (r: Option<serde_json::Value>)
    ensures
        match json_doc(content@) {
            Some(d) => r matches Some(v) && doc_model(v) == d,
            None => r is None,
        },
{
    serde_json::from_str(content).ok()
}

/// Relies on `serde_yaml::from_str::<serde_json::Value>`: parse YAML text
/// into the same generic value tree; `None` when the text is not valid YAML
/// or does not fit the tree (a non-string mapping key, for example).
#[verifier::external_body]
fn parse_yaml(content: &str) -> (r: Option<serde_json::Value>)
    ensures
        match yaml_doc(content@) {
            Some(d) => r matches Some(v) && doc_model(v) == d,
            None => r is None,
        },
{
    serde_yaml::from_str(content).ok()
}

/// Relies on `toml::from_str::<serde_json::Value>`: parse TOML text into the
/// same generic value tree; `None` when the text is not a valid TOML
/// document.
#[verifier::external_body]
fn parse_toml(content: &str) -> (r: Option<serde_json::Value>)
    ensures
        match toml_doc(content@) {
            Some(d) => r matches Some(v) && doc_model(v) == d,
            None => r is None,
        },
{
    toml::from_str(content).ok()
}

/// Relies on `serde_json::Value::get`: look a key up in an object value;
/// `None` when the value is no object or the key is absent.
#[verifier::external_body]
fn value_get<'a>(v: &'a serde_json::Value, key: &str) -> (r: Option<&'a serde_json::Value>)
    ensures
        match doc_model(*v) {
            DocValue::Obj(entries) => match obj_get(entries, key@) {
                Some(dv) => r matches Some(inner) && doc_model(*inner) == dv,
                None => r is None,
            },
            _ => r is None,
        },
{
    v.get(key)
}

/// Relies on `serde_json::Value::is_null`: whether the value is the explicit
/// null value.
#[verifier::external_body]
fn value_is_null(v: &serde_json::Value) -> (r: bool)
    ensures
        r == (doc_model(*v) is Null),
{
    v.is_null()
}

/// Relies on `serde_json::Value::as_str`: the string a string value holds;
/// `None` for every other kind of value.
#[verifier::external_body]
fn value_as_str<'a>(v: &'a serde_json::Value) -> (r: Option<&'a str>)
    ensures
        match doc_model(*v) {
            DocValue::Str(s) => r matches Some(x) && x@ == s,
            _ => r is None,
        },
{
    v.as_str()
}

/// Relies on `serde_json::Value::as_array`: the elements of an array value;
/// `None` for every other kind of value.
#[verifier::external_body]
fn value_as_array<'a>(v: &'a serde_json::Value) -> (r: Option<&'a Vec<serde_json::Value>>)
    ensures
        match doc_model(*v) {
            DocValue::Arr(elems) => r matches Some(a) && a@.len() == elems.len() && (forall|
                i: int,
            |
                0 <= i < elems.len() ==> #[trigger] doc_model(a@[i]) == elems[i]),
            _ => r is None,
        },
{
    v.as_array()
}

/// Relies on `serde_json::Value::as_object` and `serde_json::Map::iter`:
/// the entries of an object value as plain pairs in iteration order, each
/// value rendered by `Value::as_str`; `None` for every other kind of value.
#[verifier::external_body]
fn value_object_entries(v: &serde_json::Value) -> (r: Option<Vec<(String, Option<String>)>>)
    ensures
        match doc_model(*v) {
            DocValue::Obj(entries) => r matches Some(es) && es@.len() == entries.len() && (forall|
                i: int,
            |
                0 <= i < entries.len() ==> entry_matches(#[trigger] es@[i], entries[i])),
            _ => r is None,
        },
{
    v.as_object().map(
        |m|
            m.iter().map(
                |(k, val)| (k.clone(), val.as_str().map(|s| s.to_string())),
            ).collect(),
    )
}

/// A document field counts as present when the object binds it to a
/// non-null value.
pub open spec fn opt_field_model(d: DocValue, key: Seq<char>) -> Option<DocValue> {
    match d {
        DocValue::Obj(entries) => match obj_get(entries, key) {
            Some(dv) => if dv is Null {
                None
            } else {
                Some(dv)
            },
            None => None,
        },
        _ => None,
    }
}

/// Fetch a field that is absent or explicitly null as not present.
fn opt_field<'a>(v: &'a serde_json::Value, key: &str) -> (r: Option<&'a serde_json::Value>)
    ensures
        match opt_field_model(doc_model(*v), key@) {
            Some(dv) => r matches Some(inner) && doc_model(*inner) == dv,
            None => r is None,
        },
{
    match value_get(v, key) {
        Some(inner) => {
            if value_is_null(inner) {
                None
            } else {
                Some(inner)
            }
        },
        None => None,
    }
}

/// A required string attribute: the field must be present and hold a string.
pub open spec fn spec_required_string(d: DocValue, key: Seq<char>) -> Option<Seq<char>> {
    match opt_field_model(d, key) {
        Some(DocValue::Str(s)) => Some(s),
        _ => None,
    }
}

/// Read a required string attribute of a descriptor.
fn read_required_string<'a>(v: &'a serde_json::Value, key: &str) -> (r: Result<
    &'a str,
    CatalogError,
>)
    ensures
        match spec_required_string(doc_model(*v), key@) {
            Some(s) => r matches Ok(x) && x@ == s,
            None => r matches Err(e) && e.spec_kind() == CatalogErrorKind::Internal,
        },
{
    match opt_field(v, key) {
        None => Err(CatalogError::internal("a required attribute was not set")),
        Some(inner) => match value_as_str(inner) {
            Some(s) => Ok(s),
            None => Err(CatalogError::internal("a required attribute must be a string")),
        },
    }
}

/// The extension bag described by an object's entries: every value must be
/// a string; later entries override earlier ones, as repeated insertion
/// does. Parsed objects carry each key once, so the order never shows.
pub open spec fn spec_entries_bag(entries: Seq<(Seq<char>, DocValue)>) -> Option<
    Map<Seq<char>, Seq<char>>,
>
    decreases entries.len(),
{
    if entries.len() == 0 {
        Some(Map::empty())
    } else {
        match spec_entries_bag(entries.drop_last()) {
            Some(m) => match entries.last().1 {
                DocValue::Str(s) => Some(m.insert(entries.last().0, s)),
                _ => None,
            },
            None => None,
        }
    }
}

/// A failing prefix fails the whole entry list.
proof fn lemma_entries_bag_prefix_none(entries: Seq<(Seq<char>, DocValue)>, k: int)
    requires
        0 <= k <= entries.len(),
        spec_entries_bag(entries.take(k)) is None,
    ensures
        spec_entries_bag(entries) is None,
    decreases entries.len() - k,
{
    if k < entries.len() {
        assert(entries.take(k + 1).drop_last() =~= entries.take(k));
        lemma_entries_bag_prefix_none(entries, k + 1);
    } else {
        assert(entries.take(k) =~= entries);
    }
}

/// The optional extension bag of a descriptor: absent means no bag, present
/// means an object whose values are all strings.
pub open spec fn spec_read_extensions(d: DocValue) -> Option<Option<Map<Seq<char>, Seq<char>>>> {
    match opt_field_model(d, "extensions"@) {
        None => Some(None),
        Some(ev) => match ev {
            DocValue::Obj(entries) => match spec_entries_bag(entries) {
                Some(m) => Some(Some(m)),
                None => None,
            },
            _ => None,
        },
    }
}

/// Read the optional extension bag of a descriptor.
fn read_extensions(v: &serde_json::Value) -> (r: Result<Option<ExtensionMap>, CatalogError>)
    ensures
        match spec_read_extensions(doc_model(*v)) {
            Some(ext) => r matches Ok(bag) && bag.deep_view() == ext,
            None => r matches Err(e) && e.spec_kind() == CatalogErrorKind::Internal,
        },
{
    let ev = match opt_field(v, "extensions") {
        None => {
            return Ok(None);
        },
        Some(ev) => ev,
    };
    let ghost dv = doc_model(*ev);
    let entries = match value_object_entries(ev) {
        None => {
            return Err(CatalogError::internal("the attribute `extensions` must be an object"));
        },
        Some(entries) => entries,
    };
    let ghost m_entries = dv->Obj_0;
    let mut bag = ExtensionMap::new();
    let mut i: usize = 0;
    proof {
        assert(m_entries.take(0) =~= Seq::<(Seq<char>, DocValue)>::empty());
    }
    while i < entries.len()
        invariant
            i <= entries@.len(),
            opt_field_model(doc_model(*v), "extensions"@) == Some(dv),
            dv == DocValue::Obj(m_entries),
            entries@.len() == m_entries.len(),
            forall|k: int| 0 <= k < m_entries.len() ==> entry_matches(
                #[trigger] entries@[k],
                m_entries[k],
            ),
            spec_entries_bag(m_entries.take(i as int)) == Some(bag@),
        decreases entries@.len() - i,
    {
        proof {
            assert(m_entries.take(i + 1).drop_last() =~= m_entries.take(i as int));
            assert(m_entries.take(i + 1).last() == m_entries[i as int]);
            assert(entry_matches(entries@[i as int], m_entries[i as int]));
        }
        match &entries[i].1 {
            Some(value) => {
                bag.insert(entries[i].0.as_str(), value.as_str());
            },
            None => {
                proof {
                    assert(spec_entries_bag(m_entries.take(i + 1)) is None);
                    lemma_entries_bag_prefix_none(m_entries, i + 1);
                }
                return Err(
                    CatalogError::internal("an extension value must be a string"),
                );
            },
        }
        i += 1;
    }
    proof {
        assert(m_entries.take(m_entries.len() as int) =~= m_entries);
    }
    Ok(Some(bag))
}

/// One table descriptor: a required `name` and `location`, an optional
/// string `id`, and an optional extension bag.
pub open spec fn spec_read_table(d: DocValue) -> Option<TableConfigView> {
    match spec_required_string(d, "name"@) {
        None => None,
        Some(name) => match spec_required_string(d, "location"@) {
            None => None,
            Some(location) => {
                let id_read = match opt_field_model(d, "id"@) {
                    None => Some(None),
                    Some(DocValue::Str(s)) => Some(Some(s)),
                    Some(_) => None,
                };
                match id_read {
                    None => None,
                    Some(id) => match spec_read_extensions(d) {
                        None => None,
                        Some(extensions) => Some(
                            TableConfigView { name, location, id, extensions },
                        ),
                    },
                }
            },
        },
    }
}

/// Read one table descriptor.
fn read_table(v: &serde_json::Value) -> (r: Result<TableConfig, CatalogError>)
    ensures
        match spec_read_table(doc_model(*v)) {
            Some(tv) => r matches Ok(t) && t@ == tv,
            None => r matches Err(e) && e.spec_kind() == CatalogErrorKind::Internal,
        },
{
    let name = match read_required_string(v, "name") {
        Ok(s) => s,
        Err(e) => {
            return Err(e);
        },
    };
    let location = match read_required_string(v, "location") {
        Ok(s) => s,
        Err(e) => {
            return Err(e);
        },
    };
    let id: Option<String> = match opt_field(v, "id") {
        None => None,
        Some(inner) => match value_as_str(inner) {
            Some(s) => Some(s.to_owned()),
            None => {
                return Err(CatalogError::internal("the attribute `id` must be a string"));
            },
        },
    };
    let extensions = match read_extensions(v) {
        Ok(ext) => ext,
        Err(e) => {
            return Err(e);
        },
    };
    Ok(TableConfig::new(name, location, id, extensions))
}

/// The tables of a schema descriptor's `tables` array, in order; `None` when
/// any element fails to read.
pub open spec fn spec_read_tables(elems: Seq<DocValue>) -> Option<Seq<TableConfigView>>
    decreases elems.len(),
{
    if elems.len() == 0 {
        Some(Seq::empty())
    } else {
        match spec_read_tables(elems.drop_last()) {
            Some(tables) => match spec_read_table(elems.last()) {
                Some(t) => Some(tables.push(t)),
                None => None,
            },
            None => None,
        }
    }
}

/// A failing prefix fails the whole table list.
proof fn lemma_read_tables_prefix_none(elems: Seq<DocValue>, k: int)
    requires
        0 <= k <= elems.len(),
        spec_read_tables(elems.take(k)) is None,
    ensures
        spec_read_tables(elems) is None,
    decreases elems.len() - k,
{
    if k < elems.len() {
        assert(elems.take(k + 1).drop_last() =~= elems.take(k));
        lemma_read_tables_prefix_none(elems, k + 1);
    } else {
        assert(elems.take(k) =~= elems);
    }
}

/// One schema descriptor: a required `name` and a required `tables` array.
pub open spec fn spec_read_schema(d: DocValue) -> Option<SchemaConfigView> {
    match spec_required_string(d, "name"@) {
        None => None,
        Some(name) => match opt_field_model(d, "tables"@) {
            Some(DocValue::Arr(elems)) => match spec_read_tables(elems) {
                Some(tables) => Some(SchemaConfigView { name, tables }),
                None => None,
            },
            _ => None,
        },
    }
}

/// Read one schema descriptor.
fn read_schema(v: &serde_json::Value) -> (r: Result<SchemaConfig, CatalogError>)
    ensures
        match spec_read_schema(doc_model(*v)) {
            Some(sv) => r matches Ok(s) && s@ == sv,
            None => r matches Err(e) && e.spec_kind() == CatalogErrorKind::Internal,
        },
{
    let name = match read_required_string(v, "name") {
        Ok(s) => s,
        Err(e) => {
            return Err(e);
        },
    };
    let tables_v = match opt_field(v, "tables") {
        None => {
            return Err(CatalogError::internal("the required attribute `tables` was not set"));
        },
        Some(inner) => inner,
    };
    let ghost dv = doc_model(*tables_v);
    let arr = match value_as_array(tables_v) {
        None => {
            return Err(CatalogError::internal("the attribute `tables` must be an array"));
        },
        Some(arr) => arr,
    };
    let ghost elems = dv->Arr_0;
    let mut tables: Vec<TableConfig> = Vec::new();
    let mut i: usize = 0;
    proof {
        assert(elems.take(0) =~= Seq::<DocValue>::empty());
        assert(tables.deep_view() =~= Seq::<TableConfigView>::empty());
    }
    while i < arr.len()
        invariant
            i <= arr@.len(),
            opt_field_model(doc_model(*v), "tables"@) == Some(dv),
            dv == DocValue::Arr(elems),
            arr@.len() == elems.len(),
            forall|k: int| 0 <= k < elems.len() ==> #[trigger] doc_model(arr@[k]) == elems[k],
            spec_read_tables(elems.take(i as int)) == Some(tables.deep_view()),
        decreases arr@.len() - i,
    {
        proof {
            assert(elems.take(i + 1).drop_last() =~= elems.take(i as int));
            assert(elems.take(i + 1).last() == elems[i as int]);
            assert(doc_model(arr@[i as int]) == elems[i as int]);
        }
        let ghost prev = tables.deep_view();
        match read_table(&arr[i]) {
            Ok(t) => {
                tables.push(t);
                proof {
                    assert(tables.deep_view() =~= prev.push(t@));
                }
            },
            Err(e) => {
                proof {
                    lemma_read_tables_prefix_none(elems, i + 1);
                }
                return Err(e);
            },
        }
        i += 1;
    }
    proof {
        assert(elems.take(elems.len() as int) =~= elems);
    }
    Ok(SchemaConfig::new(name, tables))
}

/// The schemas of a share descriptor's `schemas` array, in order; `None`
/// when any element fails to read.
pub open spec fn spec_read_schemas(elems: Seq<DocValue>) -> Option<Seq<SchemaConfigView>>
    decreases elems.len(),
{
    if elems.len() == 0 {
        Some(Seq::empty())
    } else {
        match spec_read_schemas(elems.drop_last()) {
            Some(schemas) => match spec_read_schema(elems.last()) {
                Some(s) => Some(schemas.push(s)),
                None => None,
            },
            None => None,
        }
    }
}

/// A failing prefix fails the whole schema list.
proof fn lemma_read_schemas_prefix_none(elems: Seq<DocValue>, k: int)
    requires
        0 <= k <= elems.len(),
        spec_read_schemas(elems.take(k)) is None,
    ensures
        spec_read_schemas(elems) is None,
    decreases elems.len() - k,
{
    if k < elems.len() {
        assert(elems.take(k + 1).drop_last() =~= elems.take(k));
        lemma_read_schemas_prefix_none(elems, k + 1);
    } else {
        assert(elems.take(k) =~= elems);
    }
}

/// The recipient names of a `recipients` array, in order; `None` when any
/// element is not a string.
pub open spec fn spec_read_recipient_names(elems: Seq<DocValue>) -> Option<Seq<Seq<char>>>
    decreases elems.len(),
{
    if elems.len() == 0 {
        Some(Seq::empty())
    } else {
        match spec_read_recipient_names(elems.drop_last()) {
            Some(names) => match elems.last() {
                DocValue::Str(s) => Some(names.push(s)),
                _ => None,
            },
            None => None,
        }
    }
}

/// A failing prefix fails the whole recipient list.
proof fn lemma_read_recipients_prefix_none(elems: Seq<DocValue>, k: int)
    requires
        0 <= k <= elems.len(),
        spec_read_recipient_names(elems.take(k)) is None,
    ensures
        spec_read_recipient_names(elems) is None,
    decreases elems.len() - k,
{
    if k < elems.len() {
        assert(elems.take(k + 1).drop_last() =~= elems.take(k));
        lemma_read_recipients_prefix_none(elems, k + 1);
    } else {
        assert(elems.take(k) =~= elems);
    }
}

/// The optional `recipients` allow-list of a share descriptor: absent means
/// no restriction, present means an array of strings.
pub open spec fn spec_read_recipients(d: DocValue) -> Option<Option<Seq<Seq<char>>>> {
    match opt_field_model(d, "recipients"@) {
        None => Some(None),
        Some(DocValue::Arr(elems)) => match spec_read_recipient_names(elems) {
            Some(names) => Some(Some(names)),
            None => None,
        },
        Some(_) => None,
    }
}

/// Read the optional `recipients` allow-list of a share descriptor.
fn read_recipients(v: &serde_json::Value) -> (r: Result<Option<Vec<String>>, CatalogError>)
    ensures
        match spec_read_recipients(doc_model(*v)) {
            Some(names) => r matches Ok(x) && x.deep_view() == names,
            None => r matches Err(e) && e.spec_kind() == CatalogErrorKind::Internal,
        },
{
    let rv = match opt_field(v, "recipients") {
        None => {
            let r: Option<Vec<String>> = None;
            return Ok(r);
        },
        Some(inner) => inner,
    };
    let ghost dv = doc_model(*rv);
    let arr = match value_as_array(rv) {
        None => {
            return Err(CatalogError::internal("the attribute `recipients` must be an array"));
        },
        Some(arr) => arr,
    };
    let ghost elems = dv->Arr_0;
    let mut recipients: Vec<String> = Vec::new();
    let mut i: usize = 0;
    proof {
        assert(elems.take(0) =~= Seq::<DocValue>::empty());
        assert(recipients.deep_view() =~= Seq::<Seq<char>>::empty());
    }
    while i < arr.len()
        invariant
            i <= arr@.len(),
            opt_field_model(doc_model(*v), "recipients"@) == Some(dv),
            dv == DocValue::Arr(elems),
            arr@.len() == elems.len(),
            forall|k: int| 0 <= k < elems.len() ==> #[trigger] doc_model(arr@[k]) == elems[k],
            spec_read_recipient_names(elems.take(i as int)) == Some(recipients.deep_view()),
        decreases arr@.len() - i,
    {
        proof {
            assert(elems.take(i + 1).drop_last() =~= elems.take(i as int));
            assert(elems.take(i + 1).last() == elems[i as int]);
            assert(doc_model(arr@[i as int]) == elems[i as int]);
        }
        let ghost prev = recipients.deep_view();
        match value_as_str(&arr[i]) {
            Some(s) => {
                recipients.push(s.to_owned());
                proof {
                    assert(recipients.deep_view() =~= prev.push(s@));
                }
            },
            None => {
                proof {
                    lemma_read_recipients_prefix_none(elems, i + 1);
                }
                return Err(CatalogError::internal("a recipient name must be a string"));
            },
        }
        i += 1;
    }
    proof {
        assert(elems.take(elems.len() as int) =~= elems);
    }
    Ok(Some(recipients))
}

/// One share descriptor: a required `name` and `schemas` array, an optional
/// `recipients` allow-list and an optional extension bag.
pub open spec fn spec_read_share(d: DocValue) -> Option<ShareConfigView> {
    match spec_required_string(d, "name"@) {
        None => None,
        Some(name) => match opt_field_model(d, "schemas"@) {
            Some(DocValue::Arr(elems)) => match spec_read_schemas(elems) {
                Some(schemas) => match spec_read_recipients(d) {
                    Some(recipients) => match spec_read_extensions(d) {
                        Some(extensions) => Some(
                            ShareConfigView { name, schemas, recipients, extensions },
                        ),
                        None => None,
                    },
                    None => None,
                },
                None => None,
            },
            _ => None,
        },
    }
}

/// Read one share descriptor.
fn read_share(v: &serde_json::Value) -> (r: Result<ShareConfig, CatalogError>)
    ensures
        match spec_read_share(doc_model(*v)) {
            Some(sv) => r matches Ok(s) && s@ == sv,
            None => r matches Err(e) && e.spec_kind() == CatalogErrorKind::Internal,
        },
{
    let name = match read_required_string(v, "name") {
        Ok(s) => s,
        Err(e) => {
            return Err(e);
        },
    };
    let schemas_v = match opt_field(v, "schemas") {
        None => {
            return Err(CatalogError::internal("the required attribute `schemas` was not set"));
        },
        Some(inner) => inner,
    };
    let ghost dv = doc_model(*schemas_v);
    let arr = match value_as_array(schemas_v) {
        None => {
            return Err(CatalogError::internal("the attribute `schemas` must be an array"));
        },
        Some(arr) => arr,
    };
    let ghost elems = dv->Arr_0;
    let mut schemas: Vec<SchemaConfig> = Vec::new();
    let mut i: usize = 0;
    proof {
        assert(elems.take(0) =~= Seq::<DocValue>::empty());
        assert(schemas.deep_view() =~= Seq::<SchemaConfigView>::empty());
    }
    while i < arr.len()
        invariant
            i <= arr@.len(),
            opt_field_model(doc_model(*v), "schemas"@) == Some(dv),
            dv == DocValue::Arr(elems),
            arr@.len() == elems.len(),
            forall|k: int| 0 <= k < elems.len() ==> #[trigger] doc_model(arr@[k]) == elems[k],
            spec_read_schemas(elems.take(i as int)) == Some(schemas.deep_view()),
        decreases arr@.len() - i,
    {
        proof {
            assert(elems.take(i + 1).drop_last() =~= elems.take(i as int));
            assert(elems.take(i + 1).last() == elems[i as int]);
            assert(doc_model(arr@[i as int]) == elems[i as int]);
        }
        let ghost prev = schemas.deep_view();
        match read_schema(&arr[i]) {
            Ok(s) => {
                schemas.push(s);
                proof {
                    assert(schemas.deep_view() =~= prev.push(s@));
                }
            },
            Err(e) => {
                proof {
                    lemma_read_schemas_prefix_none(elems, i + 1);
                }
                return Err(e);
            },
        }
        i += 1;
    }
    proof {
        assert(elems.take(elems.len() as int) =~= elems);
    }
    let recipients = match read_recipients(v) {
        Ok(r) => r,
        Err(e) => {
            return Err(e);
        },
    };
    let extensions = match read_extensions(v) {
        Ok(ext) => ext,
        Err(e) => {
            return Err(e);
        },
    };
    Ok(ShareConfig::new(name, schemas, recipients, extensions))
}

/// The share descriptors of a document's `shares` array, in order; `None`
/// when any element fails to read.
pub open spec fn spec_read_shares(elems: Seq<DocValue>) -> Option<Seq<ShareConfigView>>
    decreases elems.len(),
{
    if elems.len() == 0 {
        Some(Seq::empty())
    } else {
        match spec_read_shares(elems.drop_last()) {
            Some(shares) => match spec_read_share(elems.last()) {
                Some(s) => Some(shares.push(s)),
                None => None,
            },
            None => None,
        }
    }
}

/// A failing prefix fails the whole share list.
proof fn lemma_read_shares_prefix_none(elems: Seq<DocValue>, k: int)
    requires
        0 <= k <= elems.len(),
        spec_read_shares(elems.take(k)) is None,
    ensures
        spec_read_shares(elems) is None,
    decreases elems.len() - k,
{
    if k < elems.len() {
        assert(elems.take(k + 1).drop_last() =~= elems.take(k));
        lemma_read_shares_prefix_none(elems, k + 1);
    } else {
        assert(elems.take(k) =~= elems);
    }
}

/// The whole document: a `shares` array of share descriptors.
pub open spec fn spec_read_document(d: DocValue) -> Option<Seq<ShareConfigView>> {
    match opt_field_model(d, "shares"@) {
        Some(DocValue::Arr(elems)) => spec_read_shares(elems),
        _ => None,
    }
}

/// The tree a text parses to under the given encoding, if any.
pub open spec fn spec_parsed_doc(content: Seq<char>, format: FileFormat) -> Option<DocValue> {
    match format {
        FileFormat::Json => json_doc(content),
        FileFormat::Yaml => yaml_doc(content),
        FileFormat::Toml => toml_doc(content),
    }
}

/// The snapshot a document's text loads to: the parsed tree must fit the
/// `shares[].schemas[].tables[]` shape; `None` otherwise.
pub open spec fn spec_load_share_file(content: Seq<char>, format: FileFormat) -> Option<
    Seq<ShareConfigView>,
> {
    match spec_parsed_doc(content, format) {
        Some(d) => spec_read_document(d),
        None => None,
    }
}

/// Format equivalence: two texts whose parsed trees are equal load to equal
/// snapshots, whatever their encodings; and every catalog operation's
/// contract is a function of the snapshot alone, so all listings and lookups
/// on the two catalogs agree as well.
pub proof fn lemma_format_equivalence(
    a: Seq<char>,
    fa: FileFormat,
    b: Seq<char>,
    fb: FileFormat,
)
    requires
        spec_parsed_doc(a, fa) == spec_parsed_doc(b, fb),
    ensures
        spec_load_share_file(a, fa) == spec_load_share_file(b, fb),
{
}

/// Load a snapshot from the content of a configuration document.
///
/// The content is parsed according to `format`; the resulting tree must hold
/// a `shares` array of share descriptors. Any parse failure or shape
/// violation is reported as an internal error: a malformed configuration is
/// an authoring bug, and a backend must not start on it.
pub fn load_share_file(content: &str, format: FileFormat) -> (r: Result<ShareFile, CatalogError>)
    ensures
        match spec_load_share_file(content@, format) {
            Some(shares) => r matches Ok(f) && f@ == shares,
            None => r matches Err(e) && e.spec_kind() == CatalogErrorKind::Internal,
        },
{
    let parsed = match format {
        FileFormat::Json => parse_json(content),
        FileFormat::Yaml => parse_yaml(content),
        FileFormat::Toml => parse_toml(content),
    };
    let doc = match parsed {
        Some(v) => v,
        None => {
            return Err(CatalogError::internal("the configuration document could not be parsed"));
        },
    };
    let ghost dm = doc_model(doc);
    let shares_v = match opt_field(&doc, "shares") {
        None => {
            return Err(CatalogError::internal("the required attribute `shares` was not set"));
        },
        Some(inner) => inner,
    };
    let ghost dv = doc_model(*shares_v);
    let arr = match value_as_array(shares_v) {
        None => {
            return Err(CatalogError::internal("the attribute `shares` must be an array"));
        },
        Some(arr) => arr,
    };
    let ghost elems = dv->Arr_0;
    let mut shares: Vec<ShareConfig> = Vec::new();
    let mut i: usize = 0;
    proof {
        assert(elems.take(0) =~= Seq::<DocValue>::empty());
        assert(shares.deep_view() =~= Seq::<ShareConfigView>::empty());
    }
    while i < arr.len()
        invariant
            i <= arr@.len(),
            spec_parsed_doc(content@, format) == Some(dm),
            opt_field_model(dm, "shares"@) == Some(dv),
            dv == DocValue::Arr(elems),
            arr@.len() == elems.len(),
            forall|k: int| 0 <= k < elems.len() ==> #[trigger] doc_model(arr@[k]) == elems[k],
            spec_read_shares(elems.take(i as int)) == Some(shares.deep_view()),
        decreases arr@.len() - i,
    {
        proof {
            assert(elems.take(i + 1).drop_last() =~= elems.take(i as int));
            assert(elems.take(i + 1).last() == elems[i as int]);
            assert(doc_model(arr@[i as int]) == elems[i as int]);
        }
        let ghost prev = shares.deep_view();
        match read_share(&arr[i]) {
            Ok(s) => {
                shares.push(s);
                proof {
                    assert(shares.deep_view() =~= prev.push(s@));
                }
            },
            Err(e) => {
                proof {
                    lemma_read_shares_prefix_none(elems, i + 1);
                }
                return Err(e);
            },
        }
        i += 1;
    }
    proof {
        assert(elems.take(elems.len() as int) =~= elems);
    }
    Ok(ShareFile::from_shares(shares))
}

} // verus!
