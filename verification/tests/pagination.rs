use delta_sharing::auth::RecipientId;
use delta_sharing::catalog::file::{
    FileCatalog, FileCatalogConfig, SchemaConfig, ShareConfig, ShareFile, TableConfig,
};
use delta_sharing::catalog::{paginate_response, CatalogErrorKind, Pagination};
use delta_sharing::text::{parse_dec, str_eq, to_dec_string};

fn four_share_catalog() -> FileCatalog {
    let mut shares = Vec::new();
    for i in 1..5 {
        let share_name = format!("share{}", i);
        let schema_name = format!("schema{}", i);
        let table_name = format!("table{}", i);
        let location = format!("s3://bucket/prefix{}", i);
        let table = TableConfig::new(&table_name, &location, None, None);
        let schema = SchemaConfig::new(&schema_name, vec![table]);
        shares.push(ShareConfig::new(&share_name, vec![schema], None, None));
    }
    FileCatalog::from_share_file(
        FileCatalogConfig::new("catalog.yaml"),
        ShareFile::from_shares(shares),
    )
}

// Four shares, no recipients restriction: a page of two plus token "2", and
// the follow-up page drains the rest with no further token.
#[test]
fn two_pages_of_two() {
    let catalog = four_share_catalog();
    let anonymous = RecipientId::anonymous();

    let page = catalog
        .list_shares(&anonymous, &Pagination::new(Some(2), None))
        .unwrap();
    assert_eq!(page.len(), 2);
    assert_eq!(page.items()[0].name(), "share1");
    assert_eq!(page.items()[1].name(), "share2");
    assert_eq!(page.next_page_token(), Some("2"));

    let page = catalog
        .list_shares(&anonymous, &Pagination::new(Some(2), Some("2".to_string())))
        .unwrap();
    assert_eq!(page.len(), 2);
    assert_eq!(page.items()[0].name(), "share3");
    assert_eq!(page.items()[1].name(), "share4");
    assert_eq!(page.next_page_token(), None);

    let page = catalog
        .list_shares(&anonymous, &Pagination::new(Some(2), Some("+2".to_string())))
        .unwrap();
    assert_eq!(page.len(), 2);
    assert_eq!(page.items()[0].name(), "share3");
    assert_eq!(page.next_page_token(), None);
}

// Walking every continuation token yields the full filtered sequence, in
// order, with no duplicates and no omissions.
#[test]
fn round_trip_walk() {
    let catalog = four_share_catalog();
    let anonymous = RecipientId::anonymous();

    for max_results in 1..6u32 {
        let mut names: Vec<String> = Vec::new();
        let mut token: Option<String> = None;
        loop {
            let page = catalog
                .list_shares(&anonymous, &Pagination::new(Some(max_results), token.clone()))
                .unwrap();
            for share in page.items() {
                names.push(share.name().to_owned());
            }
            match page.next_page_token() {
                Some(t) => token = Some(t.to_owned()),
                None => break,
            }
        }
        assert_eq!(names, vec!["share1", "share2", "share3", "share4"]);
    }
}

// Two calls with identical scope, recipient and pagination against an
// unchanged snapshot return identical pages.
#[test]
fn idempotent_calls() {
    let catalog = four_share_catalog();
    let anonymous = RecipientId::anonymous();
    let pagination = Pagination::new(Some(3), Some("1".to_string()));

    let first = catalog.list_shares(&anonymous, &pagination).unwrap();
    let second = catalog.list_shares(&anonymous, &pagination).unwrap();
    assert_eq!(first, second);

    let first = catalog
        .list_tables_in_share("share1", &anonymous, &pagination)
        .unwrap();
    let second = catalog
        .list_tables_in_share("share1", &anonymous, &pagination)
        .unwrap();
    assert_eq!(first, second);
}

// A page token equal to the sequence length yields an empty final page.
#[test]
fn exhausted_offset() {
    let catalog = four_share_catalog();
    let anonymous = RecipientId::anonymous();

    let page = catalog
        .list_shares(&anonymous, &Pagination::new(None, Some("4".to_string())))
        .unwrap();
    assert!(page.is_empty());
    assert_eq!(page.next_page_token(), None);
    assert!(page.is_last_page());

    // A leading plus sign is part of a well-formed numeral, as
    // str::parse::<usize> reads it.
    let page = catalog
        .list_shares(&anonymous, &Pagination::new(None, Some("+4".to_string())))
        .unwrap();
    assert!(page.is_empty());
    assert_eq!(page.next_page_token(), None);
}

// An offset beyond the sequence length also yields an empty final page.
#[test]
fn offset_beyond_end() {
    let catalog = four_share_catalog();
    let anonymous = RecipientId::anonymous();

    let page = catalog
        .list_shares(&anonymous, &Pagination::new(Some(2), Some("17".to_string())))
        .unwrap();
    assert!(page.is_empty());
    assert_eq!(page.next_page_token(), None);
}

// A non-numeric page token yields MalformedPagination.
#[test]
fn malformed_token() {
    let catalog = four_share_catalog();
    let anonymous = RecipientId::anonymous();

    for bad in ["foo", "", "12x", "-1", "1.5", "+", "++2", "+2x", "1 ", "99999999999999999999999999999"] {
        let r = catalog.list_shares(&anonymous, &Pagination::new(None, Some(bad.to_string())));
        assert!(r.is_err());
        assert_eq!(r.unwrap_err().kind(), CatalogErrorKind::MalformedPagination);
    }
}

// A max_results of zero fetches nothing and keeps reporting the same next
// offset until the offset reaches the sequence length.
#[test]
fn zero_page_size() {
    let catalog = four_share_catalog();
    let anonymous = RecipientId::anonymous();

    let page = catalog
        .list_shares(&anonymous, &Pagination::new(Some(0), None))
        .unwrap();
    assert!(page.is_empty());
    assert_eq!(page.next_page_token(), Some("0"));

    let page = catalog
        .list_shares(&anonymous, &Pagination::new(Some(0), Some("2".to_string())))
        .unwrap();
    assert!(page.is_empty());
    assert_eq!(page.next_page_token(), Some("2"));

    let page = catalog
        .list_shares(&anonymous, &Pagination::new(Some(0), Some("4".to_string())))
        .unwrap();
    assert!(page.is_empty());
    assert_eq!(page.next_page_token(), None);
}

// The default page size is 500: a sequence shorter than that fits one page.
#[test]
fn default_page_size() {
    let catalog = four_share_catalog();
    let anonymous = RecipientId::anonymous();

    let page = catalog
        .list_shares(&anonymous, &Pagination::default())
        .unwrap();
    assert_eq!(page.len(), 4);
    assert_eq!(page.next_page_token(), None);
}

// paginate_response slices an arbitrary sequence by offset and limit.
#[test]
fn paginate_plain_values() {
    let items = vec![10, 20, 30, 40, 50];

    let page = paginate_response(items.clone(), &Pagination::new(Some(2), None)).unwrap();
    assert_eq!(page.items(), &vec![10, 20]);
    assert_eq!(page.next_page_token(), Some("2"));

    let page =
        paginate_response(items.clone(), &Pagination::new(Some(2), Some("2".to_string())))
            .unwrap();
    assert_eq!(page.items(), &vec![30, 40]);
    assert_eq!(page.next_page_token(), Some("4"));

    let page =
        paginate_response(items.clone(), &Pagination::new(Some(2), Some("4".to_string())))
            .unwrap();
    assert_eq!(page.items(), &vec![50]);
    assert_eq!(page.next_page_token(), None);

    let (parts, token) = paginate_response(items, &Pagination::new(None, None))
        .unwrap()
        .into_parts();
    assert_eq!(parts, vec![10, 20, 30, 40, 50]);
    assert_eq!(token, None);
}

// The decimal reader accepts exactly the non-empty digit strings whose value
// fits, and the writer renders the plain numeral the reader accepts.
#[test]
fn decimal_tokens() {
    assert_eq!(parse_dec("0"), Some(0));
    assert_eq!(parse_dec("507"), Some(507));
    assert_eq!(parse_dec("007"), Some(7));
    assert_eq!(parse_dec("+1"), Some(1));
    assert_eq!(parse_dec("+0"), Some(0));
    assert_eq!(parse_dec("+007"), Some(7));
    assert_eq!(parse_dec(""), None);
    assert_eq!(parse_dec("+"), None);
    assert_eq!(parse_dec("++1"), None);
    assert_eq!(parse_dec("-1"), None);
    assert_eq!(parse_dec("1 "), None);
    assert_eq!(parse_dec("abc"), None);
    assert_eq!(parse_dec("99999999999999999999999999999"), None);

    assert_eq!(to_dec_string(0), "0");
    assert_eq!(to_dec_string(7), "7");
    assert_eq!(to_dec_string(507), "507");
    assert_eq!(to_dec_string(1000000), "1000000");
    assert_eq!(parse_dec(&to_dec_string(123456)), Some(123456));
}

// Character-level string equality.
#[test]
fn string_equality() {
    assert!(str_eq("", ""));
    assert!(str_eq("share1", "share1"));
    assert!(!str_eq("share1", "share2"));
    assert!(!str_eq("share", "share1"));
    assert!(str_eq("über", "über"));
}
