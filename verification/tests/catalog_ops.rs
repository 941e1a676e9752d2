use delta_sharing::auth::RecipientId;
use delta_sharing::catalog::file::{FileCatalog, FileCatalogConfig};
use delta_sharing::catalog::Pagination;

fn share_config_content() -> &'static str {
    r#"shares:
- name: "share1"
  schemas:
  - name: "schema1"
    tables:
    - name: "table1"
      location: "s3a://<bucket-name>/<the-table-path>"
      id: "00000000-0000-0000-0000-000000000000"
    - name: "table2"
      location: "wasbs://<container-name>@<account-name}.blob.core.windows.net/<the-table-path>"
      id: "00000000-0000-0000-0000-000000000001"
- name: "share2"
  schemas:
  - name: "schema2"
    tables:
    - name: "table3"
      location: "abfss://<container-name>@<account-name}.dfs.core.windows.net/<the-table-path>"
      cdfEnabled: true
      id: "00000000-0000-0000-0000-000000000002"
- name: "share3"
  schemas:
  - name: "schema3"
    tables:
    - name: "table4"
      location: "gs://<bucket-name>/<the-table-path>"
      id: "00000000-0000-0000-0000-000000000003"
- name: "share4"
  schemas:
  - name: "schema4"
    tables:
    - name: "table5"
      location: "s3a://<bucket-name>/<the-table-path>"
      id: "00000000-0000-0000-0000-000000000004""#
}

fn setup_catalog() -> FileCatalog {
    let config = FileCatalogConfig::new("catalog.yaml");
    FileCatalog::new(config, share_config_content()).unwrap()
}

#[test]
fn mod_list_shares() {
    let catalog = setup_catalog();

    let page = catalog
        .list_shares(&RecipientId::anonymous(), &Pagination::new(Some(2), None))
        .unwrap();
    assert_eq!(page.items().len(), 2);
    assert_eq!(page.next_page_token(), Some("2"));

    let page = catalog
        .list_shares(
            &RecipientId::anonymous(),
            &Pagination::new(Some(2), Some("2".to_string())),
        )
        .unwrap();
    assert_eq!(page.items().len(), 2);
    assert_eq!(page.next_page_token(), None);
}

#[test]
fn mod_get_share() {
    let catalog = setup_catalog();
    let share = catalog
        .get_share("share1", &RecipientId::anonymous())
        .unwrap();
    assert_eq!(share.name(), "share1");
}

#[test]
fn mod_list_schemas() {
    let catalog = setup_catalog();
    let schemas = catalog
        .list_schemas("share1", &RecipientId::anonymous(), &Pagination::default())
        .unwrap();
    assert_eq!(schemas.items().len(), 1);
    assert_eq!(schemas.items()[0].name(), "schema1");
    assert_eq!(schemas.items()[0].share_name(), "share1");
    assert_eq!(schemas.items()[0].id(), None);
}

#[test]
fn mod_list_tables_in_share() {
    let catalog = setup_catalog();
    let tables = catalog
        .list_tables_in_share("share1", &RecipientId::anonymous(), &Pagination::default())
        .unwrap();
    assert_eq!(tables.items().len(), 2);
    assert_eq!(tables.items()[0].name(), "table1");
    assert_eq!(tables.items()[0].schema_name(), "schema1");
    assert_eq!(tables.items()[0].share_name(), "share1");
    assert_eq!(
        tables.items()[0].storage_path(),
        "s3a://<bucket-name>/<the-table-path>"
    );
}

#[test]
fn mod_list_tables_in_schema() {
    let catalog = setup_catalog();
    let tables = catalog
        .list_tables_in_schema(
            "share1",
            "schema1",
            &RecipientId::anonymous(),
            &Pagination::default(),
        )
        .unwrap();
    assert_eq!(tables.items().len(), 2);
    assert_eq!(tables.items()[0].name(), "table1");
    assert_eq!(tables.items()[0].schema_name(), "schema1");
    assert_eq!(tables.items()[0].share_name(), "share1");
    assert_eq!(
        tables.items()[0].storage_path(),
        "s3a://<bucket-name>/<the-table-path>"
    );
}

#[test]
fn mod_get_table() {
    let catalog = setup_catalog();
    let tables = catalog
        .get_table("share1", "schema1", "table1", &RecipientId::anonymous())
        .unwrap();
    assert_eq!(tables.name(), "table1");
    assert_eq!(tables.schema_name(), "schema1");
    assert_eq!(tables.share_name(), "share1");
    assert_eq!(
        tables.storage_path(),
        "s3a://<bucket-name>/<the-table-path>"
    );
    assert_eq!(tables.id(), Some("00000000-0000-0000-0000-000000000000"));
    assert_eq!(tables.share_id(), None);
}
