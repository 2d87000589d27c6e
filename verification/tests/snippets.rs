use snippet_manager::commands::AppState;
use snippet_manager::db::Database;
use snippet_manager::error::DbError;
use snippet_manager::schema::Snippet;

fn fresh_state() -> AppState {
    AppState::new_in_memory().expect("in-memory store must open")
}

#[test]
fn create_round_trip() {
    let mut s = fresh_state();
    let id = s
        .create_snippet(
            "binary search".to_string(),
            "fn bs() {}".to_string(),
            "rust".to_string(),
            "algo,search".to_string(),
        )
        .expect("create must succeed");
    assert_eq!(id, 1);
    let all = s.get_snippets().expect("list must succeed");
    assert_eq!(all.len(), 1);
    let got = &all[0];
    assert_eq!(got.id, Some(1));
    assert_eq!(got.title, "binary search");
    assert_eq!(got.code, "fn bs() {}");
    assert_eq!(got.language, "rust");
    assert_eq!(got.tags, "algo,search");
    assert!(!got.is_favorite);
    assert_eq!(got.created_at, got.updated_at);
    assert!(!got.created_at.is_empty());
}

#[test]
fn create_assigns_increasing_ids() {
    let mut s = fresh_state();
    let a = s
        .create_snippet("a".to_string(), "x".to_string(), "c".to_string(), "t".to_string())
        .unwrap();
    let b = s
        .create_snippet("b".to_string(), "y".to_string(), "c".to_string(), "t".to_string())
        .unwrap();
    assert_eq!(a, 1);
    assert_eq!(b, 2);
}

#[test]
fn list_of_empty_store_is_empty() {
    let s = fresh_state();
    let all = s.get_snippets().expect("list must succeed");
    assert!(all.is_empty());
}

#[test]
fn update_idempotent_and_keeps_created_at() {
    let mut s = fresh_state();
    let id = s
        .create_snippet("t".to_string(), "c".to_string(), "l".to_string(), "g".to_string())
        .unwrap() as i32;
    let created = s.get_snippets().unwrap()[0].created_at.clone();
    s.update_snippet(id, "t2".to_string(), "c2".to_string(), "l2".to_string(), "g2".to_string())
        .expect("first update must succeed");
    let after_once = s.get_snippets().unwrap()[0].clone();
    s.update_snippet(id, "t2".to_string(), "c2".to_string(), "l2".to_string(), "g2".to_string())
        .expect("second update must succeed");
    let after_twice = s.get_snippets().unwrap()[0].clone();
    assert_eq!(after_twice.title, after_once.title);
    assert_eq!(after_twice.code, after_once.code);
    assert_eq!(after_twice.language, after_once.language);
    assert_eq!(after_twice.tags, after_once.tags);
    assert_eq!(after_once.title, "t2");
    assert_eq!(after_once.created_at, created);
    assert_eq!(after_twice.created_at, created);
}

#[test]
fn update_leaves_favorite_flag_alone() {
    let mut s = fresh_state();
    let id = s
        .create_snippet("t".to_string(), "c".to_string(), "l".to_string(), "g".to_string())
        .unwrap() as i32;
    assert_eq!(s.toggle_favorite(id), Ok(true));
    s.update_snippet(id, "t2".to_string(), "c2".to_string(), "l2".to_string(), "g2".to_string())
        .expect("update must succeed");
    let got = s.get_snippets().unwrap()[0].clone();
    assert!(got.is_favorite);
    assert_eq!(got.title, "t2");
}

#[test]
fn delete_removes_exactly_one_row() {
    let mut s = fresh_state();
    for name in ["one", "two", "three"] {
        s.create_snippet(name.to_string(), "c".to_string(), "l".to_string(), "g".to_string())
            .unwrap();
    }
    s.delete_snippet(2).expect("delete must succeed");
    let all = s.get_snippets().unwrap();
    assert_eq!(all.len(), 2);
    assert_eq!(all[0].id, Some(1));
    assert_eq!(all[0].title, "one");
    assert_eq!(all[1].id, Some(3));
    assert_eq!(all[1].title, "three");
}

#[test]
fn deleted_id_is_never_reused() {
    let mut s = fresh_state();
    for name in ["one", "two", "three"] {
        s.create_snippet(name.to_string(), "c".to_string(), "l".to_string(), "g".to_string())
            .unwrap();
    }
    s.delete_snippet(3).expect("delete must succeed");
    let id = s
        .create_snippet("four".to_string(), "c".to_string(), "l".to_string(), "g".to_string())
        .unwrap();
    assert_eq!(id, 4);
}

#[test]
fn toggle_flips_and_matches_persisted_value() {
    let mut s = fresh_state();
    let id = s
        .create_snippet("t".to_string(), "c".to_string(), "l".to_string(), "g".to_string())
        .unwrap() as i32;
    for expected in [true, false, true] {
        let got = s.toggle_favorite(id).expect("toggle must succeed");
        assert_eq!(got, expected);
        let stored = s.get_snippets().unwrap()[0].is_favorite;
        assert_eq!(stored, expected);
    }
}

#[test]
fn unknown_id_update_and_delete_are_silent_noops() {
    let mut s = fresh_state();
    s.create_snippet("t".to_string(), "c".to_string(), "l".to_string(), "g".to_string())
        .unwrap();
    let before = s.get_snippets().unwrap();
    s.update_snippet(99, "x".to_string(), "x".to_string(), "x".to_string(), "x".to_string())
        .expect("update on an unknown id must succeed");
    s.delete_snippet(99).expect("delete on an unknown id must succeed");
    let after = s.get_snippets().unwrap();
    assert_eq!(before.len(), after.len());
    assert_eq!(before[0].title, after[0].title);
    assert_eq!(before[0].updated_at, after[0].updated_at);
}

#[test]
fn unknown_id_toggle_is_a_visible_failure() {
    let mut s = fresh_state();
    let err = s.toggle_favorite(42).expect_err("toggle on an unknown id must fail");
    assert_eq!(err, "Query returned no rows");
}

#[test]
fn adapter_toggle_reports_row_not_found() {
    let mut db = Database::new_in_memory().expect("in-memory store must open");
    assert_eq!(db.toggle_favorite(7), Err(DbError::RowNotFound));
}

#[test]
fn adapter_create_ignores_incoming_favorite_flag() {
    let mut db = Database::new_in_memory().expect("in-memory store must open");
    let snippet = Snippet {
        id: None,
        title: "t".to_string(),
        code: "c".to_string(),
        language: "l".to_string(),
        tags: "g".to_string(),
        is_favorite: true,
        created_at: "2024-01-02T03:04:05+00:00".to_string(),
        updated_at: "2024-01-02T03:04:05+00:00".to_string(),
    };
    let id = db.create_snippet(&snippet).expect("create must succeed");
    assert_eq!(id, 1);
    let all = db.get_all_snippets().expect("list must succeed");
    assert_eq!(all.len(), 1);
    assert!(!all[0].is_favorite);
    assert_eq!(all[0].created_at, "2024-01-02T03:04:05+00:00");
}

#[test]
fn unreachable_path_is_a_store_failure() {
    let r = Database::new("/nonexistent-directory-for-snippets/x/snippets.db");
    match r {
        Err(DbError::Store(msg)) => assert!(!msg.is_empty()),
        Err(DbError::RowNotFound) => panic!("expected a store failure, not a missing row"),
        Ok(_) => panic!("opening an unreachable path must fail"),
    }
}

#[test]
fn search_finds_substrings_of_title() {
    let mut s = fresh_state();
    for name in ["foo", "foobar", "baz"] {
        s.create_snippet(name.to_string(), "c".to_string(), "l".to_string(), "g".to_string())
            .unwrap();
    }
    let hits = s.search_snippets("foo".to_string()).expect("search must succeed");
    let mut titles: Vec<String> = hits.iter().map(|h| h.title.clone()).collect();
    titles.sort();
    assert_eq!(titles, vec!["foo".to_string(), "foobar".to_string()]);
}

#[test]
fn empty_query_matches_every_row() {
    let mut s = fresh_state();
    for name in ["foo", "foobar", "baz"] {
        s.create_snippet(name.to_string(), "c".to_string(), "l".to_string(), "g".to_string())
            .unwrap();
    }
    let hits = s.search_snippets(String::new()).expect("search must succeed");
    assert_eq!(hits.len(), 3);
}

#[test]
fn search_reaches_the_tags_field() {
    let mut s = fresh_state();
    s.create_snippet("foo".to_string(), "c".to_string(), "l".to_string(), "g".to_string())
        .unwrap();
    s.create_snippet("bar".to_string(), "c".to_string(), "l".to_string(), "sorting".to_string())
        .unwrap();
    let hits = s.search_snippets("sorting".to_string()).expect("search must succeed");
    assert_eq!(hits.len(), 1);
    assert_eq!(hits[0].title, "bar");
}

#[test]
fn search_keeps_wildcard_characters_unescaped() {
    let mut s = fresh_state();
    for name in ["foo", "foobar", "baz"] {
        s.create_snippet(name.to_string(), "c".to_string(), "l".to_string(), "g".to_string())
            .unwrap();
    }
    let hits = s.search_snippets("f_o".to_string()).expect("search must succeed");
    assert_eq!(hits.len(), 2);
    let hits = s.search_snippets("o%r".to_string()).expect("search must succeed");
    assert_eq!(hits.len(), 1);
    assert_eq!(hits[0].title, "foobar");
}

#[test]
fn search_is_ascii_case_insensitive() {
    let mut s = fresh_state();
    s.create_snippet("Foo".to_string(), "c".to_string(), "l".to_string(), "g".to_string())
        .unwrap();
    let hits = s.search_snippets("fOO".to_string()).expect("search must succeed");
    assert_eq!(hits.len(), 1);
}
