use vstd::prelude::*;

verus! {

/// An instant, as chrono gives it: seconds since the Unix epoch, the
/// nanoseconds past that second, and the local offset from UTC in seconds.
#[derive(Debug, Clone, Copy, PartialEq, Eq, Structural)]
pub struct Timestamp {
    pub unix_seconds: i64,
    pub nanos: u32,
    pub offset_seconds: i32,
}

impl Timestamp {
    pub fn new(unix_seconds: i64, nanos: u32, offset_seconds: i32) -> (r: Self)
        ensures
            r == (Timestamp { unix_seconds, nanos, offset_seconds }),
    {
        Timestamp { unix_seconds, nanos, offset_seconds }
    }
}

/// The lower bound of the next commit query.
#[derive(Debug, Clone, Copy, PartialEq, Eq, Structural)]
pub struct PollWindow {
    pub since: Timestamp,
}

impl PollWindow {
    pub fn new(since: Timestamp) -> (r: Self)
        ensures
            r.since == since,
    {
        PollWindow { since }
    }

    /// A window that starts at the current time.
    pub fn starting_now() -> (r: Self)
        ensures
            r.since.nanos < 1_000_000_000,
            -86_400 < r.since.offset_seconds < 86_400,
    {
        PollWindow { since: local_now() }
    }
}

/// The RFC 3339 text of an instant at its offset, as chrono writes it; `None`
/// where chrono has no such offset or instant.
pub uninterp spec fn rfc3339_of(unix_seconds: i64, nanos: u32, offset_seconds: i32) -> Option<
    Seq<char>,
>;

/// Relies on chrono's `DateTime::to_rfc3339`, on a `DateTime<FixedOffset>` made
/// from the parts by `FixedOffset::east_opt` and `DateTime::from_timestamp`
/// (each `None` out of range). The text depends on the parts alone.
#[verifier::external_body]
pub(crate) fn rfc3339(t: Timestamp) -> (r: Option<String>)
    ensures
        match r {
            Some(s) => rfc3339_of(t.unix_seconds, t.nanos, t.offset_seconds) == Some(s@),
            None => rfc3339_of(t.unix_seconds, t.nanos, t.offset_seconds) is None,
        },
{
    let offset = chrono::FixedOffset::east_opt(t.offset_seconds)?;
    let instant = chrono::DateTime::from_timestamp(t.unix_seconds, t.nanos)?;
    Some(instant.with_timezone(&offset).to_rfc3339())
}

/// Relies on chrono's `Local::now`: the current instant, whose nanoseconds come
/// from `SystemTime` (below one second), at the local `FixedOffset` (under a
/// day).
#[verifier::external_body]
pub(crate) fn local_now() -> (r: Timestamp)
    ensures
        r.nanos < 1_000_000_000,
        -86_400 < r.offset_seconds < 86_400,
{
    let now = chrono::Local::now();
    Timestamp {
        unix_seconds: now.timestamp(),
        nanos: now.timestamp_subsec_nanos(),
        offset_seconds: now.offset().local_minus_utc(),
    }
}

pub open spec fn hex_digit(n: int) -> char {
    "0123456789abcdef"@[n]
}

/// How one character of a value is written inside the query: escaped for a
/// GraphQL string, and that escaped again for the JSON string that carries
/// the query.
pub open spec fn escape_char(c: char) -> Seq<char> {
    if c == '"' {
        "\\\\\\\""@
    } else if c == '\\' {
        "\\\\\\\\"@
    } else if (c as int) < 32 {
        "\\\\u00"@ + seq![hex_digit((c as int) / 16), hex_digit((c as int) % 16)]
    } else {
        seq![c]
    }
}

pub open spec fn escaped(s: Seq<char>) -> Seq<char>
    decreases s.len(),
{
    if s.len() == 0 {
        Seq::empty()
    } else {
        escaped(s.drop_last()) + escape_char(s.last())
    }
}

/// Writes a value so that it stands as one string inside the query text.
pub fn escape_query_value(s: &str) -> (r: String)
    ensures
        r@ == escaped(s@),
{
    let digits = "0123456789abcdef";
    proof {
        reveal_strlit("0123456789abcdef");
    }
    let n = s.unicode_len();
    let mut out = String::new();
    let mut i: usize = 0;
    while i < n
        invariant
            n == s@.len(),
            i <= n,
            digits@ == "0123456789abcdef"@,
            digits@.len() == 16,
            out@ == escaped(s@.subrange(0, i as int)),
        decreases n - i,
    {
        let c = s.get_char(i);
        let ghost before = out@;
        if c == '"' {
            out.append("\\\\\\\"");
        } else if c == '\\' {
            out.append("\\\\\\\\");
        } else if (c as u32) < 32 {
            let code = c as u32;
            let hi = (code / 16) as usize;
            let lo = (code % 16) as usize;
            out.append("\\\\u00");
            out.append(digits.substring_char(hi, hi + 1));
            out.append(digits.substring_char(lo, lo + 1));
            assert(out@ =~= before + escape_char(c));
        } else {
            out.append(s.substring_char(i, i + 1));
            assert(out@ =~= before + escape_char(c));
        }
        assert(s@.subrange(0, i + 1).drop_last() =~= s@.subrange(0, i as int));
        i = i + 1;
    }
    assert(s@.subrange(0, n as int) =~= s@);
    out
}

/// The JSON body of the history query: the branch's commits since `since`,
/// at most 100, each with its id, message and author's platform identity.
pub open spec fn history_query(
    org: Seq<char>,
    repo: Seq<char>,
    branch: Seq<char>,
    since: Seq<char>,
) -> Seq<char> {
    "{\"query\": \"query { repository(owner: \\\""@ + escaped(org) + "\\\", name: \\\""@ + escaped(
        repo,
    ) + "\\\") { object(expression: \\\""@ + escaped(branch)
        + "\\\") { ... on Commit { history(first: 100, since: \\\""@ + escaped(since)
        + "\\\") { nodes { oid, message, author { user { id } } } } } } } }\"}"@
}

pub fn build_history_query(org: &str, repo: &str, branch: &str, since: &str) -> (r: String)
    ensures
        r@ == history_query(org@, repo@, branch@, since@),
{
    String::from_str("{\"query\": \"query { repository(owner: \\\"").concat(
        escape_query_value(org).as_str(),
    ).concat("\\\", name: \\\"").concat(escape_query_value(repo).as_str()).concat(
        "\\\") { object(expression: \\\"",
    ).concat(escape_query_value(branch).as_str()).concat(
        "\\\") { ... on Commit { history(first: 100, since: \\\"",
    ).concat(escape_query_value(since).as_str()).concat(
        "\\\") { nodes { oid, message, author { user { id } } } } } } } }\"}",
    )
}

} // verus!
