use zere::SearchBox;

#[test]
fn test_fuzzy_match() {
    let mut search = SearchBox::new();
    search.query = "wrhs".to_string();

    assert!(search.matches("warehouse"));
    assert!(search.matches("Warehouse Test Job"));
    assert!(!search.matches("robot arm"));
}

#[test]
fn test_match_score() {
    let mut search = SearchBox::new();
    search.query = "test".to_string();

    assert!(search.match_score("test") > search.match_score("testing"));
    assert!(search.match_score("test job") > search.match_score("my test"));
}

#[test]
fn empty_query_matches_everything() {
    let search = SearchBox::new();
    assert!(search.matches(""));
    assert!(search.matches("anything at all"));
    assert!(search.matches("Grüße"));
}

#[test]
fn empty_query_scores_zero() {
    let search = SearchBox::new();
    assert_eq!(search.match_score("warehouse"), 0);
    assert_eq!(search.match_score(""), 0);
}

#[test]
fn score_tiers_concrete() {
    let mut search = SearchBox::new();
    search.query = "test".to_string();

    assert_eq!(search.match_score("test"), 1010);
    assert_eq!(search.match_score("testing"), 510);
    assert_eq!(search.match_score("my test"), 110);
}

#[test]
fn subsequence_only_scores_ten() {
    let mut search = SearchBox::new();
    search.query = "wrhs".to_string();
    assert_eq!(search.match_score("warehouse"), 10);
    assert_eq!(search.match_score("robot arm"), 0);
}

#[test]
fn match_implies_score_at_least_ten() {
    let mut search = SearchBox::new();
    for q in ["w", "wrhs", "WARE", "use"] {
        search.query = q.to_string();
        for s in ["warehouse", "Warehouse Test Job", "robot arm", ""] {
            if search.matches(s) {
                assert!(search.match_score(s) >= 10);
            } else {
                assert!(search.match_score(s) == 0);
            }
        }
    }
}

#[test]
fn case_folding_reaches_exact_tier() {
    let mut search = SearchBox::new();
    search.query = "TEST".to_string();
    assert_eq!(search.match_score("test"), 1010);
    search.query = "test".to_string();
    assert_eq!(search.match_score("TeSt"), 1010);
}

#[test]
fn supersequence_is_not_subsequence() {
    let mut search = SearchBox::new();
    search.query = "warehouse".to_string();
    assert!(!search.matches("wrhs"));
    assert_eq!(search.match_score("wrhs"), 0);
}

#[test]
fn non_ascii_candidates_are_total() {
    let mut search = SearchBox::new();
    search.query = "grüße".to_string();
    assert!(search.matches("Grüße aus Berlin"));
    assert!(search.match_score("Grüße") >= 1000);
    assert!(!search.matches("gruesse"));
}

#[test]
fn search_box_editing() {
    let mut search = SearchBox::new();
    search.activate();
    assert!(search.active);
    search.handle_char('a');
    search.handle_char('c');
    assert_eq!(search.query, "ac");
    assert_eq!(search.cursor_position, 2);

    // insert in the middle
    search.cursor_position = 1;
    search.handle_char('b');
    assert_eq!(search.query, "abc");
    assert_eq!(search.cursor_position, 2);

    search.handle_backspace();
    assert_eq!(search.query, "ac");
    assert_eq!(search.cursor_position, 1);

    search.deactivate();
    search.handle_char('x');
    assert_eq!(search.query, "ac");

    search.clear();
    assert_eq!(search.query, "");
    assert_eq!(search.cursor_position, 0);
    assert!(!search.active);
}
