use std::collections::HashSet;

use delta_sharing::auth::RecipientId;
use delta_sharing::catalog::file::{FileCatalog, FileCatalogConfig, FileFormat};
use delta_sharing::catalog::{Catalog, CatalogErrorKind, Pagination};

const YAML_DOC: &str = r#"shares:
- name: "public_share_1"
  schemas:
  - name: "schema1"
    tables:
    - name: "table1"
      location: "s3a://<bucket-name>/<table-prefix-1>/"
    - name: "table2"
      location: "s3a://<bucket-name>/<table-prefix-2>/"
  - name: "schema2"
    tables:
    - name: "table3"
      location: "s3a://<bucket-name>/<table-prefix-3>/"
- name: "public_share_2"
  schemas: []
- name: "public_share_3"
  schemas: []
- name: "private_share_1"
  recipients: ["recipient1"]
  schemas: []
"#;

const JSON_DOC: &str = r#"{
  "shares": [
    {
      "name": "public_share_1",
      "schemas": [
        {
          "name": "schema1",
          "tables": [
            { "name": "table1", "location": "s3a://<bucket-name>/<table-prefix-1>/" },
            { "name": "table2", "location": "s3a://<bucket-name>/<table-prefix-2>/" }
          ]
        },
        {
          "name": "schema2",
          "tables": [
            { "name": "table3", "location": "s3a://<bucket-name>/<table-prefix-3>/" }
          ]
        }
      ]
    },
    { "name": "public_share_2", "schemas": [] },
    { "name": "public_share_3", "schemas": [] },
    { "name": "private_share_1", "recipients": ["recipient1"], "schemas": [] }
  ]
}"#;

const TOML_DOC: &str = r#"[[shares]]
name = "public_share_1"

[[shares.schemas]]
name = "schema1"

[[shares.schemas.tables]]
name = "table1"
location = "s3a://<bucket-name>/<table-prefix-1>/"

[[shares.schemas.tables]]
name = "table2"
location = "s3a://<bucket-name>/<table-prefix-2>/"

[[shares.schemas]]
name = "schema2"

[[shares.schemas.tables]]
name = "table3"
location = "s3a://<bucket-name>/<table-prefix-3>/"

[[shares]]
name = "public_share_2"
schemas = []

[[shares]]
name = "public_share_3"
schemas = []

[[shares]]
name = "private_share_1"
recipients = ["recipient1"]
schemas = []
"#;

fn check_list_shares<C: Catalog>(catalog: &C) {
    let recipient = RecipientId::anonymous();
    let pagination = Pagination::default();
    let shares = catalog.list_shares(&recipient, &pagination).unwrap();

    let share_names = shares
        .items()
        .iter()
        .map(|s| s.name())
        .collect::<HashSet<_>>();

    assert_eq!(
        share_names,
        HashSet::from_iter(["public_share_1", "public_share_2", "public_share_3"])
    );
}

fn check_list_shares_pagination<C: Catalog>(catalog: &C) {
    let recipient = RecipientId::anonymous();
    let pagination = Pagination::new(Some(2), None);
    let shares_page_1 = catalog.list_shares(&recipient, &pagination).unwrap();
    assert_eq!(shares_page_1.len(), 2);
    assert!(shares_page_1.next_page_token().is_some());

    let page_token = shares_page_1.next_page_token().unwrap().to_owned();
    let pagination = Pagination::new(Some(2), Some(page_token));
    let shares_page_2 = catalog.list_shares(&recipient, &pagination).unwrap();
    assert_eq!(shares_page_2.len(), 1);
    assert!(shares_page_2.next_page_token().is_none());

    let share_names = shares_page_1
        .items()
        .iter()
        .chain(shares_page_2.items().iter())
        .map(|s| s.name())
        .collect::<HashSet<_>>();

    assert_eq!(
        share_names,
        HashSet::from_iter(["public_share_1", "public_share_2", "public_share_3"])
    );
}

fn check_list_shares_acl<C: Catalog>(catalog: &C) {
    let recipient = RecipientId::known("recipient1");
    let pagination = Pagination::default();
    let shares = catalog.list_shares(&recipient, &pagination).unwrap();

    let share_names = shares
        .items()
        .iter()
        .map(|s| s.name())
        .collect::<HashSet<_>>();

    assert_eq!(
        share_names,
        HashSet::from_iter([
            "public_share_1",
            "public_share_2",
            "public_share_3",
            "private_share_1"
        ])
    );
}

fn check_list_schemas<C: Catalog>(catalog: &C) {
    let recipient = RecipientId::anonymous();
    let pagination = Pagination::default();

    let schemas = catalog
        .list_schemas("public_share_1", &recipient, &pagination)
        .unwrap();
    let schema_names = schemas
        .items()
        .iter()
        .map(|s| s.name())
        .collect::<HashSet<_>>();
    assert_eq!(schema_names, HashSet::from_iter(["schema1", "schema2"]));

    let page = catalog
        .list_schemas("not-existing-share", &recipient, &pagination)
        .unwrap();
    assert!(page.is_empty());
}

fn check_list_tables_in_share<C: Catalog>(catalog: &C) {
    let recipient = RecipientId::anonymous();
    let pagination = Pagination::default();

    let tables = catalog
        .list_tables_in_share("public_share_1", &recipient, &pagination)
        .unwrap();
    let table_names = tables
        .items()
        .iter()
        .map(|s| s.name())
        .collect::<HashSet<_>>();
    assert_eq!(
        table_names,
        HashSet::from_iter(["table1", "table2", "table3"])
    );
}

fn check_list_tables_in_schema<C: Catalog>(catalog: &C) {
    let recipient = RecipientId::anonymous();
    let pagination = Pagination::default();

    let tables = catalog
        .list_tables_in_schema("public_share_1", "schema1", &recipient, &pagination)
        .unwrap();
    let table_names = tables
        .items()
        .iter()
        .map(|s| s.name())
        .collect::<HashSet<_>>();
    assert_eq!(table_names, HashSet::from_iter(["table1", "table2"]));
}

fn check_get_share<C: Catalog>(catalog: &C) {
    let recipient = RecipientId::anonymous();

    let share = catalog.get_share("public_share_1", &recipient).unwrap();
    assert_eq!(share.name(), "public_share_1");
    assert_eq!(share.get_extension("?"), None);

    let recipient = RecipientId::known("unauthorized-client");
    let share = catalog.get_share("private_share_1", &recipient);
    assert!(share.is_err());

    let recipient = RecipientId::known("recipient1");
    let share = catalog.get_share("private_share_1", &recipient);
    assert!(share.is_ok())
}

fn check_get_table<C: Catalog>(catalog: &C) {
    let recipient = RecipientId::anonymous();
    let table = catalog
        .get_table("public_share_1", "schema1", "table1", &recipient)
        .unwrap();
    assert_eq!(table.share_name(), "public_share_1");
    assert_eq!(table.schema_name(), "schema1");
    assert_eq!(table.name(), "table1");
    assert_eq!(table.storage_path(), "s3a://<bucket-name>/<table-prefix-1>/");
    assert_eq!(table.get_extension("?"), None);

    let table = catalog.get_table("public_share_1", "schema1", "does-not-exist", &recipient);
    assert!(table.is_err());
    assert_eq!(
        table.unwrap_err().kind(),
        CatalogErrorKind::ResourceNotFound
    );
}

fn yaml_catalog() -> FileCatalog {
    let cfg = FileCatalogConfig::new("catalog.yaml");
    FileCatalog::new(cfg, YAML_DOC).unwrap()
}

fn json_catalog() -> FileCatalog {
    let cfg = FileCatalogConfig::new("catalog.json").with_format(FileFormat::Json);
    FileCatalog::new(cfg, JSON_DOC).unwrap()
}

fn toml_catalog() -> FileCatalog {
    let cfg = FileCatalogConfig::new("catalog.toml").with_format(FileFormat::Toml);
    FileCatalog::new(cfg, TOML_DOC).unwrap()
}

#[test]
fn yaml_file_catalog() {
    let catalog = yaml_catalog();

    check_list_shares(&catalog);
    check_list_shares_pagination(&catalog);
    check_list_shares_acl(&catalog);
    check_list_schemas(&catalog);
    check_list_tables_in_share(&catalog);
    check_list_tables_in_schema(&catalog);
    check_get_share(&catalog);
    check_get_table(&catalog);
}

#[test]
fn json_file_catalog() {
    let catalog = json_catalog();

    check_list_shares(&catalog);
    check_list_shares_pagination(&catalog);
    check_list_shares_acl(&catalog);
    check_list_schemas(&catalog);
    check_list_tables_in_share(&catalog);
    check_list_tables_in_schema(&catalog);
    check_get_share(&catalog);
    check_get_table(&catalog);
}

#[test]
fn toml_file_catalog() {
    let catalog = toml_catalog();

    check_list_shares(&catalog);
    check_list_shares_pagination(&catalog);
    check_list_shares_acl(&catalog);
    check_list_schemas(&catalog);
    check_list_tables_in_share(&catalog);
    check_list_tables_in_schema(&catalog);
    check_get_share(&catalog);
    check_get_table(&catalog);
}

// The same logical document, expressed in JSON, YAML and TOML, produces
// identical listing results for every operation and recipient.
#[test]
fn format_equivalence() {
    let yaml = yaml_catalog();
    let json = json_catalog();
    let toml = toml_catalog();

    let recipients = vec![
        RecipientId::anonymous(),
        RecipientId::known("recipient1"),
        RecipientId::known("someone-else"),
    ];
    let paginations = vec![
        Pagination::default(),
        Pagination::new(Some(2), None),
        Pagination::new(Some(1), Some("1".to_string())),
    ];

    for recipient in &recipients {
        for pagination in &paginations {
            let y = yaml.list_shares(recipient, pagination).unwrap();
            let j = json.list_shares(recipient, pagination).unwrap();
            let t = toml.list_shares(recipient, pagination).unwrap();
            assert_eq!(y, j);
            assert_eq!(y, t);

            for share in ["public_share_1", "public_share_2", "private_share_1"] {
                let y = yaml.list_schemas(share, recipient, pagination);
                let j = json.list_schemas(share, recipient, pagination);
                let t = toml.list_schemas(share, recipient, pagination);
                assert_eq!(y.as_ref().unwrap(), j.as_ref().unwrap());
                assert_eq!(y.as_ref().unwrap(), t.as_ref().unwrap());

                let y = yaml.list_tables_in_share(share, recipient, pagination);
                let j = json.list_tables_in_share(share, recipient, pagination);
                let t = toml.list_tables_in_share(share, recipient, pagination);
                assert_eq!(y.as_ref().unwrap(), j.as_ref().unwrap());
                assert_eq!(y.as_ref().unwrap(), t.as_ref().unwrap());

                for schema in ["schema1", "schema2"] {
                    let y = yaml.list_tables_in_schema(share, schema, recipient, pagination);
                    let j = json.list_tables_in_schema(share, schema, recipient, pagination);
                    let t = toml.list_tables_in_schema(share, schema, recipient, pagination);
                    assert_eq!(y.as_ref().unwrap(), j.as_ref().unwrap());
                    assert_eq!(y.as_ref().unwrap(), t.as_ref().unwrap());
                }
            }
        }

        for share in ["public_share_1", "private_share_1", "missing"] {
            let y = yaml.get_share(share, recipient);
            let j = json.get_share(share, recipient);
            let t = toml.get_share(share, recipient);
            assert_eq!(y.is_ok(), j.is_ok());
            assert_eq!(y.is_ok(), t.is_ok());
            if let (Ok(ys), Ok(js), Ok(ts)) = (y, j, t) {
                assert_eq!(ys, js);
                assert_eq!(ys, ts);
            }

            let y = yaml.get_table(share, "schema1", "table1", recipient);
            let j = json.get_table(share, "schema1", "table1", recipient);
            let t = toml.get_table(share, "schema1", "table1", recipient);
            assert_eq!(y.is_ok(), j.is_ok());
            assert_eq!(y.is_ok(), t.is_ok());
            if let (Ok(yt), Ok(jt), Ok(tt)) = (y, j, t) {
                assert_eq!(yt, jt);
                assert_eq!(yt, tt);
            }
        }
    }
}
