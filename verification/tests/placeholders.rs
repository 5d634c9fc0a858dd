use query_binder::count_placeholders;

#[test]
fn empty_text_has_no_placeholder() {
    assert_eq!(count_placeholders(""), 0);
}

#[test]
fn text_without_question_mark_has_no_placeholder() {
    assert_eq!(count_placeholders("SELECT * FROM users"), 0);
    assert_eq!(
        count_placeholders("CREATE TABLE users (id INTEGER PRIMARY KEY, name TEXT)"),
        0
    );
}

#[test]
fn each_question_mark_in_plain_sql_is_counted() {
    assert_eq!(count_placeholders("?"), 1);
    assert_eq!(
        count_placeholders("INSERT INTO users (name) VALUES (?) RETURNING *"),
        1
    );
    assert_eq!(count_placeholders("SELECT ?, ?, ?"), 3);
    assert_eq!(count_placeholders("???"), 3);
    assert_eq!(
        count_placeholders("UPDATE users SET name = ? WHERE id = ?"),
        2
    );
}

#[test]
fn question_mark_in_a_string_is_not_counted() {
    assert_eq!(count_placeholders("SELECT '?'"), 0);
    assert_eq!(count_placeholders("SELECT '?', ?"), 1);
    assert_eq!(count_placeholders("SELECT 'who?' || ? || 'why?'"), 1);
}

#[test]
fn doubled_quote_stays_inside_the_string() {
    assert_eq!(count_placeholders("SELECT 'it''s ?'"), 0);
    assert_eq!(count_placeholders("SELECT 'it''s ?', ?"), 1);
    assert_eq!(count_placeholders("SELECT '''?''', ?"), 1);
}

#[test]
fn question_mark_in_a_quoted_name_is_not_counted() {
    assert_eq!(count_placeholders("SELECT \"a?\" FROM t WHERE b = ?"), 1);
    assert_eq!(count_placeholders("SELECT `a?` FROM t WHERE b = ?"), 1);
    assert_eq!(count_placeholders("SELECT [a?] FROM t WHERE b = ?"), 1);
    assert_eq!(count_placeholders("SELECT \"a\"\"?\" FROM t"), 0);
}

#[test]
fn other_quotes_inside_quoted_text_do_not_end_it() {
    assert_eq!(count_placeholders("SELECT '\"?', ?"), 1);
    assert_eq!(count_placeholders("SELECT \"'?\", ?"), 1);
    assert_eq!(count_placeholders("SELECT '-- ?', ?"), 1);
    assert_eq!(count_placeholders("SELECT '/* ?', ?"), 1);
    assert_eq!(count_placeholders("SELECT [a'?] , ?"), 1);
}

#[test]
fn question_mark_in_a_line_comment_is_not_counted() {
    assert_eq!(count_placeholders("SELECT 1 -- ?"), 0);
    assert_eq!(count_placeholders("SELECT ? -- ?\n, ?"), 2);
    assert_eq!(count_placeholders("-- '\nSELECT ?"), 1);
}

#[test]
fn question_mark_in_a_block_comment_is_not_counted() {
    assert_eq!(count_placeholders("SELECT /* ? */ ?"), 1);
    assert_eq!(count_placeholders("SELECT /* ? ** ? */ ?"), 1);
    assert_eq!(count_placeholders("SELECT /**/ ?"), 1);
    assert_eq!(count_placeholders("SELECT /***/ ?"), 1);
    assert_eq!(count_placeholders("SELECT /* ' */ ?"), 1);
}

#[test]
fn unclosed_comment_runs_to_the_end() {
    assert_eq!(count_placeholders("SELECT ? /* ?"), 1);
    assert_eq!(count_placeholders("SELECT /*/ ?"), 0);
    assert_eq!(count_placeholders("SELECT ? /* * / ?"), 1);
}

#[test]
fn unclosed_quote_runs_to_the_end() {
    assert_eq!(count_placeholders("SELECT ? , '?"), 1);
    assert_eq!(count_placeholders("SELECT [?"), 0);
}

#[test]
fn minus_and_slash_alone_open_no_comment() {
    assert_eq!(count_placeholders("SELECT ? - ?"), 2);
    assert_eq!(count_placeholders("SELECT ?-?"), 2);
    assert_eq!(count_placeholders("SELECT -?"), 1);
    assert_eq!(count_placeholders("SELECT ?/?"), 2);
    assert_eq!(count_placeholders("SELECT ? / ? * ?"), 3);
    assert_eq!(count_placeholders("SELECT 1 -'?'- ?"), 1);
    assert_eq!(count_placeholders("SELECT 1 //* ? */ ?"), 1);
    assert_eq!(count_placeholders("SELECT 1 -/* ? */ ?"), 1);
    assert_eq!(count_placeholders("SELECT 1 /-- ?"), 0);
}

#[test]
fn text_beyond_ascii_is_read_by_character() {
    assert_eq!(count_placeholders("SELECT 'é?', ?"), 1);
    assert_eq!(count_placeholders("SELECT ? AS número, ? AS 名前"), 2);
}
