use gitty::poll::{build_history_query, escape_query_value, PollWindow, Timestamp};

#[test]
fn plain_values_are_not_changed() {
    assert_eq!("bfrazho", escape_query_value("bfrazho"));
    assert_eq!("", escape_query_value(""));
    assert_eq!("héllo wörld", escape_query_value("héllo wörld"));
}

#[test]
fn quotes_and_backslashes_are_escaped_twice() {
    assert_eq!("a\\\\\\\"b", escape_query_value("a\"b"));
    assert_eq!("a\\\\\\\\b", escape_query_value("a\\b"));
}

#[test]
fn control_characters_are_written_as_unicode_escapes() {
    assert_eq!("x\\\\u000ay", escape_query_value("x\ny"));
    assert_eq!("\\\\u001f", escape_query_value("\u{1f}"));
}

#[test]
fn history_query_escapes_every_value() {
    let q = build_history_query("o\"rg", "repo", "ma\\in", "2023-10-07T00:00:00+00:00");
    assert_eq!(
        "{\"query\": \"query { repository(owner: \\\"o\\\\\\\"rg\\\", name: \\\"repo\\\") { object(expression: \\\"ma\\\\\\\\in\\\") { ... on Commit { history(first: 100, since: \\\"2023-10-07T00:00:00+00:00\\\") { nodes { oid, message, author { user { id } } } } } } } }\"}",
        q
    );
}

#[test]
fn window_starting_now_is_a_valid_instant() {
    let w = PollWindow::starting_now();
    assert!(w.since.nanos < 1_000_000_000);
    assert!(w.since.offset_seconds.abs() < 86_400);
    assert!(w.since.unix_seconds > 1_600_000_000);
}

#[test]
fn window_keeps_its_start() {
    let t = Timestamp::new(5, 6, -3600);
    assert_eq!(t, PollWindow::new(t).since);
    assert_eq!(Timestamp { unix_seconds: 5, nanos: 6, offset_seconds: -3600 }, t);
}
