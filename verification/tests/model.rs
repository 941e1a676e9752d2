use delta_sharing::auth::RecipientId;
use delta_sharing::catalog::file::{load_share_file, FileFormat};

#[test]
fn model_list_shares() {
    let json = r#"{
        "shares": [
            {
                "name": "share1",
                "schemas": []
            },
            {
                "name": "share2",
                "schemas": [],
                "recipients": ["client1"]
            },
            {
                "name": "share3",
                "schemas": [],
                "recipients": []
            }
        ]
    }"#;
    let file = load_share_file(json, FileFormat::Json).unwrap();

    let recipient = RecipientId::anonymous();
    assert_eq!(
        file.list_shares(recipient.as_str())
            .into_iter()
            .map(|s| s.name().to_owned())
            .collect::<Vec<_>>(),
        vec!["share1"]
    );

    let recipient = RecipientId::known("client1");
    assert_eq!(
        file.list_shares(recipient.as_str())
            .into_iter()
            .map(|s| s.name().to_owned())
            .collect::<Vec<_>>(),
        vec!["share1", "share2"]
    );

    let recipient = RecipientId::known("unauthorized-client");
    assert_eq!(
        file.list_shares(recipient.as_str())
            .into_iter()
            .map(|s| s.name().to_owned())
            .collect::<Vec<_>>(),
        vec!["share1"]
    );
}

#[test]
fn model_get_share() {
    let json = r#"{
        "shares": [
            {
                "name": "share1",
                "extensions": {"foo": "bar"},
                "schemas": []
            },
            {
                "name": "share2",
                "schemas": [],
                "recipients": ["client1"]
            }
        ]
    }"#;
    let file = load_share_file(json, FileFormat::Json).unwrap();

    let recipient = RecipientId::anonymous();
    let share = file.get_share("share1", recipient.as_str()).unwrap();
    assert_eq!(share.name(), "share1");
    assert_eq!(share.get_extension("foo"), Some("bar"));
    assert_eq!(share.get_extension("?"), None);

    let recipient = RecipientId::known("unauthorized-client");
    let share = file.get_share("share2", recipient.as_str());
    assert!(share.is_none());

    let recipient = RecipientId::known("client1");
    let share = file.get_share("share2", recipient.as_str());
    assert!(share.is_some())
}

#[test]
fn model_list_schemas() {
    let json = r#"{
        "shares": [
            {
                "name": "share1",
                "schemas": [
                    {
                        "name": "schema1",
                        "tables": []
                    },
                    {
                        "name": "schema2",
                        "tables": []
                    }
                ]
            }
        ]
    }"#;
    let file = load_share_file(json, FileFormat::Json).unwrap();

    let recipient = RecipientId::anonymous();
    assert_eq!(
        file.list_schemas(recipient.as_str(), "share1")
            .into_iter()
            .map(|s| s.name().to_owned())
            .collect::<Vec<_>>(),
        vec!["schema1", "schema2"]
    );
}

#[test]
fn model_list_tables_in_schema() {
    let json = r#"{
        "shares": [
            {
                "name": "share1",
                "schemas": [
                    {
                        "name": "schema1",
                        "tables": [
                            {
                                "name": "table1",
                                "location": "s3://bucket/prefix1"
                            },
                            {
                                "name": "table2",
                                "location": "s3://bucket/prefix2"
                            }
                        ]
                    },
                    {
                        "name": "schema2",
                        "tables": [
                            {
                                "name": "table3",
                                "location": "s3://bucket/prefix3"
                            }
                        ]
                    }
                ]
            }
        ]
    }"#;
    let file = load_share_file(json, FileFormat::Json).unwrap();

    let recipient = RecipientId::anonymous();
    assert_eq!(
        file.list_tables_in_schema(recipient.as_str(), "share1", "schema1")
            .into_iter()
            .map(|s| s.name().to_owned())
            .collect::<Vec<_>>(),
        vec!["table1", "table2"]
    );

    let recipient = RecipientId::anonymous();
    assert_eq!(
        file.list_tables_in_schema(recipient.as_str(), "share1", "schema2")
            .into_iter()
            .map(|s| s.name().to_owned())
            .collect::<Vec<_>>(),
        vec!["table3"]
    );
}

#[test]
fn model_list_tables_in_share() {
    let json = r#"{
        "shares": [
            {
                "name": "share1",
                "schemas": [
                    {
                        "name": "schema1",
                        "tables": [
                            {
                                "name": "table1",
                                "location": "s3://bucket/prefix1"
                            },
                            {
                                "name": "table2",
                                "location": "s3://bucket/prefix2"
                            }
                        ]
                    },
                    {
                        "name": "schema2",
                        "tables": [
                            {
                                "name": "table3",
                                "location": "s3://bucket/prefix3"
                            }
                        ]
                    }
                ]
            }
        ]
    }"#;
    let file = load_share_file(json, FileFormat::Json).unwrap();

    let recipient = RecipientId::anonymous();
    assert_eq!(
        file.list_tables_in_share(recipient.as_str(), "share1")
            .into_iter()
            .map(|s| s.name().to_owned())
            .collect::<Vec<_>>(),
        vec!["table1", "table2", "table3"]
    );
}

#[test]
fn model_get_table() {
    let json = r#"{
        "shares": [
            {
                "name": "share1",
                "schemas": [
                    {
                        "name": "schema1",
                        "tables": [
                            {
                                "name": "table1",
                                "location": "s3://bucket/prefix1",
                                "extensions": {"foo": "bar"}
                            }
                        ]
                    }
                ]
            }
        ]
    }"#;
    let file = load_share_file(json, FileFormat::Json).unwrap();

    let recipient = RecipientId::anonymous();
    let table = file
        .get_table("share1", "schema1", "table1", recipient.as_str())
        .unwrap();
    assert_eq!(table.share_name(), "share1");
    assert_eq!(table.schema_name(), "schema1");
    assert_eq!(table.name(), "table1");
    assert_eq!(table.storage_path(), "s3://bucket/prefix1");
    assert_eq!(table.get_extension("foo"), Some("bar"));
    assert_eq!(table.get_extension("?"), None);

    let table = file.get_table("share1", "schema1", "?", recipient.as_str());
    assert!(table.is_none());
}
