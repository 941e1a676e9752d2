use delta_sharing::catalog::{CatalogErrorKind, Schema, Share, Table};

#[test]
fn share_builder() {
    let share = Share::builder()
        .id("id")
        .name("name")
        .build()
        .expect("failed to build share");

    assert_eq!(share.id(), Some("id"));
    assert_eq!(share.name(), "name");

    let share = Share::builder().id("id").build();
    assert!(share.is_err());
    assert_eq!(share.unwrap_err().kind(), CatalogErrorKind::Internal);
}

#[test]
fn schema_builder() {
    let schema = Schema::builder()
        .id("id")
        .name("name")
        .share_name("share")
        .build()
        .expect("failed to build schema");

    assert_eq!(schema.id(), Some("id"));
    assert_eq!(schema.name(), "name");
    assert_eq!(schema.share_name(), "share");

    let schema = Schema::builder().id("id").build();
    assert!(schema.is_err());
    assert_eq!(schema.unwrap_err().kind(), CatalogErrorKind::Internal);
}

#[test]
fn table_builder() {
    let tb = Table::builder()
        .id("table_id")
        .name("table_name")
        .share_id("share_id")
        .share_name("share_name")
        .schema_name("schema_name")
        .storage_path("path")
        .add_extension("foo", "bar");

    let good_table = tb.clone().build().expect("failed to build table");
    assert_eq!(good_table.id(), Some("table_id"));
    assert_eq!(good_table.share_id(), Some("share_id"));
    assert_eq!(good_table.name(), "table_name");
    assert_eq!(good_table.share_name(), "share_name");
    assert_eq!(good_table.schema_name(), "schema_name");
    assert_eq!(good_table.storage_path(), "path");
    assert_eq!(good_table.get_extension("foo"), Some("bar"));
    assert_eq!(good_table.get_extension("not-existing-key"), None);

    let missing_table_name = tb.clone().set_name(None).build();
    assert!(missing_table_name.is_err());
    assert_eq!(
        missing_table_name.unwrap_err().kind(),
        CatalogErrorKind::Internal
    );

    let missing_schema_name = tb.clone().set_schema_name(None).build();
    assert!(missing_schema_name.is_err());
    assert_eq!(
        missing_schema_name.unwrap_err().kind(),
        CatalogErrorKind::Internal
    );

    let missing_share_name = tb.clone().set_share_name(None).build();
    assert!(missing_share_name.is_err());
    assert_eq!(
        missing_share_name.unwrap_err().kind(),
        CatalogErrorKind::Internal
    );

    let missing_table_path = tb.clone().set_storage_path(None).build();
    assert!(missing_table_path.is_err());
    assert_eq!(
        missing_table_path.unwrap_err().kind(),
        CatalogErrorKind::Internal
    );
}
