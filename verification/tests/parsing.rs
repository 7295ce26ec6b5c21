use sql_connect::parsing::split_statement_list;

#[test]
fn single() {
    let mut statements = split_statement_list("A");
    assert_eq!(statements.next(), Some("A"));
    assert_eq!(statements.next(), None);
}

#[test]
fn single_with_semicolon() {
    let mut statements = split_statement_list("A;");
    assert_eq!(statements.next(), Some("A"));
    assert_eq!(statements.next(), None);
}

#[test]
fn single_with_semicolon_and_space() {
    let mut statements = split_statement_list("A;  ");
    assert_eq!(statements.next(), Some("A"));
    assert_eq!(statements.next(), Some("  "));
    assert_eq!(statements.next(), None);
}

#[test]
fn multi() {
    let mut statements = split_statement_list("A; B; CDEF; GHI;      J");
    assert_eq!(statements.next(), Some("A"));
    assert_eq!(statements.next(), Some(" B"));
    assert_eq!(statements.next(), Some(" CDEF"));
    assert_eq!(statements.next(), Some(" GHI"));
    assert_eq!(statements.next(), Some("      J"));
    assert_eq!(statements.next(), None);
}

#[test]
fn with_string() {
    let mut statements = split_statement_list("A 'foo''b;ar' B; C");
    assert_eq!(statements.next(), Some("A 'foo''b;ar' B"));
    assert_eq!(statements.next(), Some(" C"));
    assert_eq!(statements.next(), None);
}

#[test]
fn with_group() {
    let mut statements = split_statement_list("A (foo; bar) B; C");
    assert_eq!(statements.next(), Some("A (foo; bar) B"));
    assert_eq!(statements.next(), Some(" C"));
    assert_eq!(statements.next(), None);
}

fn collect(script: &str) -> Vec<String> {
    let mut statements = split_statement_list(script);
    let mut segments = Vec::new();
    // Bounded so that a statement source that never ends fails the test.
    for _ in 0..=script.len() + 1 {
        match statements.next() {
            Some(segment) => segments.push(segment.to_string()),
            None => return segments,
        }
    }
    panic!("more segments than characters");
}

#[test]
fn empty_script_has_no_segment() {
    assert_eq!(collect(""), Vec::<String>::new());
    let mut statements = split_statement_list("");
    assert_eq!(statements.next(), None);
    assert_eq!(statements.next(), None);
}

#[test]
fn lone_semicolon_gives_one_empty_segment() {
    assert_eq!(collect(";"), vec![""]);
    assert_eq!(collect(";;"), vec!["", ""]);
    assert_eq!(collect("A;;B"), vec!["A", "", "B"]);
}

#[test]
fn end_stays_the_end() {
    let mut statements = split_statement_list("A;B");
    assert_eq!(statements.next(), Some("A"));
    assert_eq!(statements.next(), Some("B"));
    assert_eq!(statements.next(), None);
    assert_eq!(statements.next(), None);
}

#[test]
fn plain_script_round_trips() {
    for script in ["", "A", "A; B; CDEF; GHI;      J", ";A", ";;x", "a)b;c", " ; "] {
        assert_eq!(collect(script).join(";"), script);
    }
}

#[test]
fn trailing_semicolon_is_all_that_is_lost() {
    for script in ["A;", "A;B;", ";", "x;;"] {
        let joined = collect(script).join(";");
        assert_eq!(joined, script[..script.len() - 1]);
    }
}

#[test]
fn quoted_script_round_trips() {
    for script in ["A 'foo''b;ar' B; C", "A (foo; bar) B; C", "'a;", "(a;b", "x ('1;2' ; (3;4)) y; z"] {
        assert_eq!(collect(script).join(";"), script);
    }
}

#[test]
fn unterminated_string_swallows_the_rest() {
    assert_eq!(collect("A 'b; c; d"), vec!["A 'b; c; d"]);
}

#[test]
fn unbalanced_group_swallows_the_rest() {
    assert_eq!(collect("A (b; c; d"), vec!["A (b; c; d"]);
    assert_eq!(collect("A ((b); c; d"), vec!["A ((b); c; d"]);
}

#[test]
fn nested_groups_close_one_by_one() {
    assert_eq!(collect("f((a;b);c);d"), vec!["f((a;b);c)", "d"]);
}

#[test]
fn closing_parenthesis_at_top_level_is_inert() {
    assert_eq!(collect("a);b"), vec!["a)", "b"]);
}

#[test]
fn quote_inside_group_opens_a_string() {
    assert_eq!(collect("(')';);x"), vec!["(')';)", "x"]);
}

#[test]
fn parenthesis_inside_string_is_inert() {
    assert_eq!(collect("'(';x"), vec!["'('", "x"]);
}

#[test]
fn doubled_quote_at_end_of_string() {
    assert_eq!(collect("'a''';b"), vec!["'a'''", "b"]);
    assert_eq!(collect("'a'';b"), vec!["'a'';b"]);
}

#[test]
fn string_closed_right_before_a_cut() {
    assert_eq!(collect("'a';b"), vec!["'a'", "b"]);
}

#[test]
fn segments_are_cut_by_characters_not_bytes() {
    assert_eq!(collect("é;ü 'ß;' ;日本"), vec!["é", "ü 'ß;' ", "日本"]);
}

#[test]
fn next_nonempty_skips_empty_segments() {
    let mut statements = split_statement_list(";;A;; B;;");
    assert_eq!(statements.next_nonempty(), Some("A"));
    assert_eq!(statements.next_nonempty(), Some(" B"));
    assert_eq!(statements.next_nonempty(), None);
    assert_eq!(statements.next_nonempty(), None);
    let mut blank = split_statement_list(";;;");
    assert_eq!(blank.next_nonempty(), None);
}
