use apiodactyl::handlers::books::BookQuery;
use apiodactyl::handlers::games::GameQuery;
use apiodactyl::handlers::search::{int_condition, parse_flag, sort_order, IntCondition};

fn game_query() -> GameQuery {
    GameQuery {
        title: None,
        developer: None,
        genre: None,
        tag: None,
        status: None,
        explicit: None,
        bad: None,
        min_progress: None,
        max_progress: None,
        exact_progress: None,
        min_rating: None,
        max_rating: None,
        exact_rating: None,
        sort: None,
    }
}

#[test]
fn flags_read_only_true_and_false() {
    assert_eq!(parse_flag(&Some("true".to_string())), Some(true));
    assert_eq!(parse_flag(&Some("false".to_string())), Some(false));
    assert_eq!(parse_flag(&Some("TRUE".to_string())), None);
    assert_eq!(parse_flag(&Some("yes".to_string())), None);
    assert_eq!(parse_flag(&None), None);
}

#[test]
fn exact_value_wins_over_bounds() {
    assert_eq!(
        int_condition(Some(3), Some(1), Some(5)),
        Some(IntCondition::Equals(3))
    );
    assert_eq!(
        int_condition(None, Some(1), None),
        Some(IntCondition::Between {
            min: Some(1),
            max: None
        })
    );
    assert_eq!(int_condition(None, None, None), None);
}

#[test]
fn sort_keys() {
    let title = sort_order(&Some("title".to_string()), "developer").unwrap();
    assert_eq!(title.field, "title");
    assert!(title.ascending);
    let author = sort_order(&Some("author".to_string()), "developer").unwrap();
    assert_eq!(author.field, "developer");
    assert!(author.ascending);
    let rating = sort_order(&Some("rating".to_string()), "author").unwrap();
    assert_eq!(rating.field, "rating");
    assert!(!rating.ascending);
    assert!(sort_order(&Some("date".to_string()), "author").is_none());
    assert!(sort_order(&None, "author").is_none());
}

#[test]
fn book_store_search() {
    let q = BookQuery {
        title: Some("dune".to_string()),
        author: None,
        genre: None,
        tag: None,
        status: Some("Reading".to_string()),
        explicit: Some("false".to_string()),
        min_rating: None,
        max_rating: Some(4),
        sort: Some("author".to_string()),
        locale: None,
    };
    let s = q.store_search();
    assert_eq!(s.title_pattern, Some("dune".to_string()));
    assert_eq!(s.author_pattern, None);
    assert_eq!(s.status, Some("Reading".to_string()));
    assert_eq!(s.explicit, Some(false));
    assert_eq!(
        s.rating,
        Some(IntCondition::Between {
            min: None,
            max: Some(4)
        })
    );
    assert_eq!(s.sort.unwrap().field, "author");
}

#[test]
fn game_store_search() {
    let mut q = game_query();
    q.developer = Some("valve".to_string());
    q.bad = Some("true".to_string());
    q.exact_rating = Some(5);
    q.min_rating = Some(1);
    q.min_progress = Some(50);
    q.sort = Some("author".to_string());
    let s = q.store_search();
    assert_eq!(s.developer_pattern, Some("valve".to_string()));
    assert_eq!(s.bad, Some(true));
    assert_eq!(s.explicit, None);
    assert_eq!(s.rating, Some(IntCondition::Equals(5)));
    assert_eq!(
        s.percent,
        Some(IntCondition::Between {
            min: Some(50),
            max: None
        })
    );
    assert_eq!(s.sort.unwrap().field, "developer");
}

#[test]
fn game_terms_match_any_present_item() {
    let mut q = game_query();
    q.genre = Some("RPG".to_string());
    let genres = vec![None, Some("Action RPG".to_string())];
    let tags = vec![Some("Indie".to_string())];
    assert!(q.accepts(&genres, &tags));
    q.tag = Some("coop".to_string());
    assert!(!q.accepts(&genres, &tags));
    assert!(!q.accepts(&vec![None], &tags));
    assert!(game_query().accepts(&Vec::new(), &Vec::new()));
}
