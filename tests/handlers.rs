use apiodactyl::auth::User;
use apiodactyl::errors::StoreError;
use apiodactyl::handlers::misc::{check_admin_status, health};
use apiodactyl::handlers::reviews::parse_chapters;
use apiodactyl::handlers::{games, misc, projects, reviews};
use apiodactyl::models::ApiKey;
use apiodactyl::routing::Method;
use mongodb::bson::oid::ObjectId;

#[test]
fn route_tables_name_every_handler() {
    assert_eq!(games::routes().len(), 8);
    assert_eq!(projects::routes().len(), 6);
    assert_eq!(reviews::routes().len(), 9);
    let m = misc::routes();
    assert_eq!(m.len(), 2);
    assert_eq!(m[0].name.as_deref(), Some("health"));
    assert_eq!(m[0].method, Method::Get);
    assert_eq!(m[0].uri, "/check-health");
    assert_eq!(m[1].uri, "/check-login");
    let batch = &reviews::routes()[7];
    assert_eq!(batch.name.as_deref(), Some("batch_delete_reviews"));
    assert_eq!(batch.method, Method::Delete);
    assert_eq!(batch.uri, "/batch/<chapters>");
}

#[test]
fn health_reports_store_and_books_collection() {
    let up = health(Ok(vec!["games".to_string(), "books".to_string()]));
    assert_eq!(up.db_status, "database online!");
    assert_eq!(up.collections_status.books, "Books collection online!");
    let no_books = health(Ok(vec!["games".to_string()]));
    assert_eq!(no_books.db_status, "database online!");
    assert_eq!(no_books.collections_status.books, "");
    let down = health(Err(StoreError));
    assert_eq!(down.db_status, "database offline :(");
    assert_eq!(down.collections_status.books, "");
}

#[test]
fn login_status_describes_the_caller() {
    let oid = ObjectId::parse_str("0123456789abcdef01234567").unwrap();
    let created = chrono::NaiveDate::from_ymd_opt(2024, 5, 6)
        .unwrap()
        .and_hms_opt(7, 8, 9)
        .unwrap();
    let user = User {
        api_key: ApiKey {
            oid,
            key_hash: "h".to_string(),
            is_admin: true,
            created_at: created,
            last_used_at: None,
        },
    };
    let status = check_admin_status(user);
    assert!(status.valid);
    assert!(status.is_admin);
    assert_eq!(status.user_id, "0123456789abcdef01234567");
    assert_eq!(status.created_at, "2024-05-06 07:08:09");
    assert_eq!(status.last_used_at, None);
}

#[test]
fn chapter_lists_parse_every_piece() {
    assert_eq!(parse_chapters("1,2,30"), Some(vec![1, 2, 30]));
    assert_eq!(parse_chapters("7"), Some(vec![7]));
    assert_eq!(parse_chapters("-3,+4"), Some(vec![-3, 4]));
    assert_eq!(parse_chapters("2147483647"), Some(vec![i32::MAX]));
    assert_eq!(parse_chapters("2147483648"), None);
    assert_eq!(parse_chapters("1,,2"), None);
    assert_eq!(parse_chapters("1, 2"), None);
    assert_eq!(parse_chapters(""), None);
    assert_eq!(parse_chapters("1,x"), None);
}
