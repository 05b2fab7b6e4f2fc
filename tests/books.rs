use apiodactyl::handlers::books::{
    matches_filter_operations, matches_lowered, routes, select_books, BookQuery, FilterOperation,
};
use apiodactyl::models::{Book, LocalizedString, LocalizedStringArray};
use mongodb::bson::oid::ObjectId;

#[test]
fn test_filter_operation_parsing() {
    let filters = vec![
        "+required".to_string(),
        "-excluded".to_string(),
        "included".to_string(),
    ];

    let operations = FilterOperation::parse_filters(&filters);

    assert_eq!(operations.len(), 3);

    match &operations[0] {
        FilterOperation::Require(s) => assert_eq!(s, "required"),
        _ => panic!("Expected Require operation"),
    }

    match &operations[1] {
        FilterOperation::Exclude(s) => assert_eq!(s, "excluded"),
        _ => panic!("Expected Exclude operation"),
    }

    match &operations[2] {
        FilterOperation::Include(s) => assert_eq!(s, "included"),
        _ => panic!("Expected Include operation"),
    }
}

#[test]
fn test_matches_filter_operations_include() {
    let array =
        LocalizedStringArray::Simple(vec!["Fiction".to_string(), "Adventure".to_string()]);

    let operations = vec![
        FilterOperation::Include("fiction".to_string()),
        FilterOperation::Include("mystery".to_string()),
    ];

    assert!(matches_filter_operations(&array, &operations, None));
}

#[test]
fn test_matches_filter_operations_require() {
    let array =
        LocalizedStringArray::Simple(vec!["Fiction".to_string(), "Adventure".to_string()]);

    let operations = vec![
        FilterOperation::Require("fiction".to_string()),
        FilterOperation::Require("adventure".to_string()),
    ];

    assert!(matches_filter_operations(&array, &operations, None));

    let operations_fail = vec![
        FilterOperation::Require("fiction".to_string()),
        FilterOperation::Require("mystery".to_string()),
    ];

    assert!(!matches_filter_operations(&array, &operations_fail, None));
}

#[test]
fn test_matches_filter_operations_exclude() {
    let array =
        LocalizedStringArray::Simple(vec!["Fiction".to_string(), "Adventure".to_string()]);

    let operations = vec![
        FilterOperation::Include("fiction".to_string()),
        FilterOperation::Exclude("mystery".to_string()),
    ];

    assert!(matches_filter_operations(&array, &operations, None));

    let operations_fail = vec![
        FilterOperation::Include("fiction".to_string()),
        FilterOperation::Exclude("adventure".to_string()),
    ];

    assert!(!matches_filter_operations(&array, &operations_fail, None));
}

#[test]
fn filter_edge_cases() {
    let array = LocalizedStringArray::Simple(vec!["Science Fiction".to_string()]);
    assert!(matches_filter_operations(&array, &[], None));
    let only_miss = vec![FilterOperation::Include("horror".to_string())];
    assert!(!matches_filter_operations(&array, &only_miss, None));
    let partial = vec![FilterOperation::Require("FICT".to_string())];
    assert!(matches_filter_operations(&array, &partial, None));
    let empty = LocalizedStringArray::Simple(Vec::new());
    let exclude = vec![FilterOperation::Exclude("x".to_string())];
    assert!(matches_filter_operations(&empty, &exclude, None));
    let parsed = FilterOperation::parse_filters(&["+".to_string(), "-".to_string(), "".to_string()]);
    assert!(matches!(&parsed[0], FilterOperation::Require(s) if s.is_empty()));
    assert!(matches!(&parsed[1], FilterOperation::Exclude(s) if s.is_empty()));
    assert!(matches!(&parsed[2], FilterOperation::Include(s) if s.is_empty()));
}

#[test]
fn lowered_matching_is_case_sensitive() {
    let items = vec!["fiction".to_string()];
    let upper = vec![FilterOperation::Require("FICTION".to_string())];
    assert!(!matches_lowered(&items, &upper));
    let lower = vec![FilterOperation::Require("fiction".to_string())];
    assert!(matches_lowered(&items, &lower));
}

#[test]
fn localized_items_filter_in_locale() {
    let array = LocalizedStringArray::Localized(vec![LocalizedString::Localized(vec![
        ("en".to_string(), "Adventure".to_string()),
        ("es".to_string(), "Aventura".to_string()),
    ])]);
    let ops = vec![FilterOperation::Require("aventura".to_string())];
    assert!(matches_filter_operations(&array, &ops, Some("es")));
    assert!(!matches_filter_operations(&array, &ops, Some("en")));
}

fn book(title: &str, genres: &[&str]) -> Book {
    Book {
        oid: ObjectId::new(),
        title: LocalizedString::Simple(title.to_string()),
        author: LocalizedString::Simple("Someone".to_string()),
        genres: LocalizedStringArray::Simple(genres.iter().map(|g| g.to_string()).collect()),
        tags: LocalizedStringArray::Simple(Vec::new()),
        rating: 3,
        status: LocalizedString::Simple("Reading".to_string()),
        description: LocalizedString::Simple(String::new()),
        my_thoughts: LocalizedString::Simple(String::new()),
        links: None,
        cover_image: String::new(),
        explicit: false,
        color: None,
    }
}

fn empty_query() -> BookQuery {
    BookQuery {
        title: None,
        author: None,
        genre: None,
        tag: None,
        status: None,
        explicit: None,
        min_rating: None,
        max_rating: None,
        sort: None,
        locale: None,
    }
}

#[test]
fn book_search_keeps_matching_books_in_order() {
    let books = vec![
        book("Dune", &["Science Fiction"]),
        book("Emma", &["Romance"]),
        book("Dune Messiah", &["Science Fiction", "Sequel"]),
    ];
    let mut q = empty_query();
    q.title = Some("DUNE".to_string());
    q.genre = Some(vec!["fiction".to_string(), "-sequel".to_string()]);
    let found = select_books(&books, &q, None);
    assert_eq!(found.len(), 1);
    assert_eq!(found[0].title, "Dune");
    assert_eq!(select_books(&books, &empty_query(), None).len(), 3);
}

#[test]
fn book_search_prefers_query_locale() {
    let mut b = book("x", &[]);
    b.title = LocalizedString::Localized(vec![
        ("en".to_string(), "The Book".to_string()),
        ("es".to_string(), "El Libro".to_string()),
    ]);
    let mut q = empty_query();
    q.locale = Some("es".to_string());
    let found = select_books(&vec![b], &q, Some("en"));
    assert_eq!(found[0].title, "El Libro");
}

#[test]
fn test_routes_registration() {
    let routes = routes();

    assert_eq!(routes.len(), 9);

    let route_names: Vec<&str> = routes
        .iter()
        .map(|r| r.name.as_ref().map(|n| n.as_str()).unwrap_or(""))
        .collect();

    assert!(route_names.contains(&"get_books"));
    assert!(route_names.contains(&"get_book_by_id"));
    assert!(route_names.contains(&"post_books"));
    assert!(route_names.contains(&"update_book"));
    assert!(route_names.contains(&"patch_book"));
    assert!(route_names.contains(&"delete_book"));
    assert!(route_names.contains(&"bulk_delete_books"));
    assert!(route_names.contains(&"bulk_update_books"));
    assert!(route_names.contains(&"get_raw_book_by_id"));
}
