//! Query-string pieces: percent-encoding, Go-style durations and the job
//! listing filter.
use vstd::prelude::*;

use vstd::utf8::encode_utf8;

use crate::text::{
    all_digits, decimal, digits_value, is_digit, lemma_decimal_digits, push_char, push_decimal,
    push_str,
};
use crate::time::TimeSpan;
use crate::types::{JobStatus, ListJobsFilter};

verus! {

/// Bytes left as they are: ASCII letters, digits and `-`, `_`, `.`, `~`.
pub open spec fn is_unreserved(b: u8) -> bool {
    (65 <= b <= 90) || (97 <= b <= 122) || (48 <= b <= 57) || b == 45 || b == 95 || b == 46 || b
        == 126
}

/// The upper-case hexadecimal digit for `n < 16`.
pub open spec fn hex_digit(n: nat) -> char {
    if n < 10 {
        (48 + n) as char
    } else {
        (55 + n) as char
    }
}

/// How one byte is written: as itself when unreserved, else `%XX`.
pub open spec fn encode_byte(b: u8) -> Seq<char> {
    if is_unreserved(b) {
        seq![b as char]
    } else {
        seq!['%', hex_digit((b / 16) as nat), hex_digit((b % 16) as nat)]
    }
}

/// The percent-encoding of a byte string.
pub open spec fn percent_encode(bytes: Seq<u8>) -> Seq<char>
    decreases bytes.len(),
{
    if bytes.len() == 0 {
        Seq::empty()
    } else {
        percent_encode(bytes.drop_last()) + encode_byte(bytes.last())
    }
}

fn hex(n: u8) -> (c: char)
    requires
        n < 16,
    ensures
        c == hex_digit(n as nat),
{
    if n < 10 {
        (48u8 + n) as char
    } else {
        (55u8 + n) as char
    }
}

/// Percent-encodes the UTF-8 bytes of `input`, leaving ASCII letters,
/// digits and `-_.~` alone and writing every other byte as `%XX`.
pub fn urlencode(input: &str) -> (out: String)
    ensures
        out@ == percent_encode(encode_utf8(input@)),
{
    let bytes = input.as_bytes();
    let mut out = String::new();
    let mut i: usize = 0;
    proof {
        assert(bytes@.take(0) =~= Seq::<u8>::empty());
    }
    while i < bytes.len()
        invariant
            i <= bytes@.len(),
            bytes@ == encode_utf8(input@),
            out@ == percent_encode(bytes@.take(i as int)),
        decreases bytes@.len() - i,
    {
        let b = bytes[i];
        proof {
            assert(bytes@.take(i + 1).drop_last() =~= bytes@.take(i as int));
            assert(bytes@.take(i + 1).last() == b);
        }
        if (65 <= b && b <= 90) || (97 <= b && b <= 122) || (48 <= b && b <= 57) || b == 45 || b
            == 95 || b == 46 || b == 126 {
            push_char(&mut out, b as char);
            proof {
                assert(out@ =~= percent_encode(bytes@.take(i as int)) + encode_byte(b));
            }
        } else {
            push_char(&mut out, '%');
            push_char(&mut out, hex(b / 16));
            push_char(&mut out, hex(b % 16));
            proof {
                assert(out@ =~= percent_encode(bytes@.take(i as int)) + encode_byte(b));
            }
        }
        i = i + 1;
    }
    proof {
        assert(bytes@.take(bytes@.len() as int) =~= bytes@);
    }
    out
}

/// A span of `n` nanoseconds as the Go-style duration string the server
/// reads: `"0s"`, `"<n>ns"`, `"<n>µs"`, `"<n>ms"`, or whole seconds as
/// `"<h>h<m>m<s>s"`, `"<m>m<s>s"` or `"<s>s"`.
pub open spec fn go_duration(n: nat) -> Seq<char> {
    if n == 0 {
        "0s"@
    } else if n % 1_000 != 0 {
        decimal(n) + "ns"@
    } else if (n / 1_000) % 1_000 != 0 {
        decimal(n / 1_000) + "µs"@
    } else if (n / 1_000_000) % 1_000 != 0 {
        decimal(n / 1_000_000) + "ms"@
    } else {
        let secs = n / 1_000_000_000;
        let h = secs / 3_600;
        let m = (secs % 3_600) / 60;
        let s = secs % 60;
        if h > 0 {
            decimal(h) + "h"@ + decimal(m) + "m"@ + decimal(s) + "s"@
        } else if m > 0 {
            decimal(m) + "m"@ + decimal(s) + "s"@
        } else {
            decimal(s) + "s"@
        }
    }
}

/// Formats a span as a Go-style duration string the GraphANN server
/// understands (e.g. `"1h0m0s"`, `"24h0m0s"`, `"30m0s"`, `"500ms"`).
///
/// Whole seconds follow Go's `time.Duration.String`; sub-second spans are
/// written as a plain count of milli-, micro- or nanoseconds.
pub fn format_duration(d: TimeSpan) -> (r: String)
    ensures
        r@ == go_duration(d@),
{
    let total_nanos = d.as_nanos();
    let mut out = String::new();
    if total_nanos == 0 {
        push_str(&mut out, "0s");
    } else if total_nanos % 1_000 != 0 {
        push_decimal(&mut out, total_nanos);
        push_str(&mut out, "ns");
    } else if (total_nanos / 1_000) % 1_000 != 0 {
        push_decimal(&mut out, total_nanos / 1_000);
        push_str(&mut out, "µs");
    } else if d.as_millis() % 1_000 != 0 {
        push_decimal(&mut out, d.as_millis());
        push_str(&mut out, "ms");
    } else {
        let total_secs = d.as_secs();
        let h = total_secs / 3_600;
        let m = (total_secs % 3_600) / 60;
        let s = total_secs % 60;
        if h > 0 {
            push_decimal(&mut out, h as u128);
            push_str(&mut out, "h");
            push_decimal(&mut out, m as u128);
            push_str(&mut out, "m");
            push_decimal(&mut out, s as u128);
            push_str(&mut out, "s");
        } else if m > 0 {
            push_decimal(&mut out, m as u128);
            push_str(&mut out, "m");
            push_decimal(&mut out, s as u128);
            push_str(&mut out, "s");
        } else {
            push_decimal(&mut out, s as u128);
            push_str(&mut out, "s");
        }
    }
    proof {
        assert(out@ =~= go_duration(d@));
    }
    out
}

/// The wire name of a job status.
pub open spec fn job_status_name(s: JobStatus) -> Seq<char> {
    match s {
        JobStatus::Queued => "queued"@,
        JobStatus::Running => "running"@,
        JobStatus::Completed => "completed"@,
        JobStatus::Failed => "failed"@,
    }
}

/// The `key=value` pairs a job filter asks for, in order: status, cursor,
/// limit; each present only when the filter sets it.
pub open spec fn filter_pairs(f: ListJobsFilter) -> Seq<Seq<char>> {
    let a: Seq<Seq<char>> = match f.status {
        Some(s) => seq!["status="@ + job_status_name(s)],
        None => seq![],
    };
    let b: Seq<Seq<char>> = match f.cursor {
        Some(c) => seq!["cursor="@ + c@],
        None => seq![],
    };
    let c: Seq<Seq<char>> = match f.limit {
        Some(l) => seq!["limit="@ + decimal(l as nat)],
        None => seq![],
    };
    a + b + c
}

/// `parts` joined with `&`.
pub open spec fn join_pairs(parts: Seq<Seq<char>>) -> Seq<char>
    decreases parts.len(),
{
    if parts.len() == 0 {
        Seq::empty()
    } else if parts.len() == 1 {
        parts[0]
    } else {
        join_pairs(parts.drop_last()) + "&"@ + parts.last()
    }
}

fn push_pair(
    out: &mut String,
    first: bool,
    key: &str,
    parts: Ghost<Seq<Seq<char>>>,
    start: Ghost<Seq<char>>,
)
    requires
        first <==> parts@.len() == 0,
        old(out)@ == start@ + join_pairs(parts@),
    ensures
        final(out)@ == start@ + join_pairs(parts@.push(key@)),
{
    if !first {
        push_str(out, "&");
    }
    push_str(out, key);
    proof {
        let p2 = parts@.push(key@);
        if first {
            assert(join_pairs(p2) == key@);
            assert(final(out)@ =~= start@ + key@);
        } else {
            assert(p2.drop_last() =~= parts@);
            assert(join_pairs(p2) == join_pairs(parts@) + "&"@ + key@);
            assert(final(out)@ =~= start@ + (join_pairs(parts@) + "&"@ + key@));
        }
    }
}

/// Appends the query string of a job filter, without a leading `?`.
pub fn push_filter(out: &mut String, filter: &ListJobsFilter)
    ensures
        final(out)@ == old(out)@ + join_pairs(filter_pairs(*filter)),
{
    let ghost start = out@;
    let ghost mut parts: Seq<Seq<char>> = seq![];
    let mut first = true;
    proof {
        assert(out@ =~= start + join_pairs(parts));
    }
    if let Some(status) = filter.status {
        let mut key = String::new();
        push_str(&mut key, "status=");
        match status {
            JobStatus::Queued => push_str(&mut key, "queued"),
            JobStatus::Running => push_str(&mut key, "running"),
            JobStatus::Completed => push_str(&mut key, "completed"),
            JobStatus::Failed => push_str(&mut key, "failed"),
        }
        proof {
            assert(key@ =~= "status="@ + job_status_name(status));
        }
        push_pair(out, first, key.as_str(), Ghost(parts), Ghost(start));
        proof {
            parts = parts.push(key@);
        }
        first = false;
    }
    assert(out@ == start + join_pairs(parts));
    if let Some(cursor) = &filter.cursor {
        let mut key = String::new();
        push_str(&mut key, "cursor=");
        push_str(&mut key, cursor.as_str());
        push_pair(out, first, key.as_str(), Ghost(parts), Ghost(start));
        proof {
            parts = parts.push(key@);
        }
        first = false;
    }
    assert(out@ == start + join_pairs(parts));
    if let Some(limit) = filter.limit {
        let mut key = String::new();
        push_str(&mut key, "limit=");
        push_decimal(&mut key, limit as u128);
        push_pair(out, first, key.as_str(), Ghost(parts), Ghost(start));
        proof {
            parts = parts.push(key@);
        }
    }
    proof {
        assert(parts =~= filter_pairs(*filter));
    }
}

/// Joining one more part: it follows the others after an `&`, or stands
/// alone when it is the first.
proof fn lemma_join_push(parts: Seq<Seq<char>>, x: Seq<char>)
    ensures
        join_pairs(parts.push(x)) == if parts.len() == 0 {
            x
        } else {
            join_pairs(parts) + "&"@ + x
        },
{
    assert(parts.push(x).drop_last() =~= parts);
}

/// Non-empty parts join to the empty string only when there are none.
proof fn lemma_join_empty(parts: Seq<Seq<char>>)
    requires
        forall|i: int| 0 <= i < parts.len() ==> (#[trigger] parts[i]).len() > 0,
    ensures
        join_pairs(parts).len() == 0 <==> parts.len() == 0,
    decreases parts.len(),
{
    if parts.len() > 1 {
        lemma_join_empty(parts.drop_last());
    }
}

/// The query a job filter asks for.
pub open spec fn job_query(f: ListJobsFilter) -> Seq<char> {
    join_pairs(filter_pairs(f))
}

/// The job filter's query, pair by pair: an empty filter asks for nothing;
/// a status alone is `status=` and its wire name; a cursor comes after the
/// status pair, separated by one `&` when there is one; and a limit comes
/// last, as `limit=` and its decimal numeral, after one `&` when any pair
/// precedes it.
pub proof fn lemma_job_query(f: ListJobsFilter)
    ensures
        job_query(ListJobsFilter { status: None, cursor: None, limit: None }) == Seq::<char>::empty(),
        job_query(ListJobsFilter { status: Some(JobStatus::Queued), cursor: None, limit: None })
            == "status="@ + "queued"@,
        job_query(ListJobsFilter { status: Some(JobStatus::Running), cursor: None, limit: None })
            == "status="@ + "running"@,
        job_query(ListJobsFilter { status: Some(JobStatus::Completed), cursor: None, limit: None })
            == "status="@ + "completed"@,
        job_query(ListJobsFilter { status: Some(JobStatus::Failed), cursor: None, limit: None })
            == "status="@ + "failed"@,
        f.limit is None && f.cursor is Some ==> {
            let before = job_query(ListJobsFilter { cursor: None, ..f });
            job_query(f) == before + (if before.len() == 0 {
                Seq::<char>::empty()
            } else {
                "&"@
            }) + "cursor="@ + f.cursor->0@
        },
        f.limit is Some ==> {
            let before = job_query(ListJobsFilter { limit: None, ..f });
            job_query(f) == before + (if before.len() == 0 {
                Seq::<char>::empty()
            } else {
                "&"@
            }) + "limit="@ + decimal(f.limit->0 as nat)
        },
{
    reveal_strlit("status=");
    reveal_strlit("cursor=");
    reveal_strlit("limit=");
    let a: Seq<Seq<char>> = match f.status {
        Some(s) => seq!["status="@ + job_status_name(s)],
        None => seq![],
    };
    let b: Seq<Seq<char>> = match f.cursor {
        Some(c) => seq!["cursor="@ + c@],
        None => seq![],
    };
    assert(filter_pairs(f) == a + b + match f.limit {
        Some(l) => seq!["limit="@ + decimal(l as nat)],
        None => Seq::<Seq<char>>::empty(),
    });
    assert forall|i: int| 0 <= i < (a + b).len() implies (#[trigger] (a + b)[i]).len() > 0 by {
        if i < a.len() {
            assert((a + b)[i] == a[i]);
        } else {
            assert((a + b)[i] == b[i - a.len()]);
        }
    }
    assert forall|i: int| 0 <= i < a.len() implies (#[trigger] a[i]).len() > 0 by {}
    if f.limit is Some {
        let g = ListJobsFilter { limit: None, ..f };
        assert(filter_pairs(g) =~= a + b);
        let x = "limit="@ + decimal(f.limit->0 as nat);
        assert(filter_pairs(f) =~= (a + b).push(x));
        lemma_join_push(a + b, x);
        lemma_join_empty(a + b);
    }
    if f.limit is None && f.cursor is Some {
        let g = ListJobsFilter { cursor: None, ..f };
        assert(filter_pairs(g) =~= a);
        let x = "cursor="@ + f.cursor->0@;
        assert(filter_pairs(f) =~= a.push(x));
        lemma_join_push(a, x);
        lemma_join_empty(a);
    }
    assert(filter_pairs(ListJobsFilter { status: None, cursor: None, limit: None }) =~= Seq::<
        Seq<char>,
    >::empty());
    assert(filter_pairs(ListJobsFilter { status: Some(JobStatus::Queued), cursor: None, limit: None })
        =~= seq!["status="@ + "queued"@]);
    assert(filter_pairs(ListJobsFilter { status: Some(JobStatus::Running), cursor: None, limit: None })
        =~= seq!["status="@ + "running"@]);
    assert(filter_pairs(
        ListJobsFilter { status: Some(JobStatus::Completed), cursor: None, limit: None },
    ) =~= seq!["status="@ + "completed"@]);
    assert(filter_pairs(ListJobsFilter { status: Some(JobStatus::Failed), cursor: None, limit: None })
        =~= seq!["status="@ + "failed"@]);
}

/// Characters a percent-encoded string may hold: ASCII letters and
/// digits, `-`, `_`, `.`, `~`, and `%` to start an escape.
pub open spec fn url_safe(c: char) -> bool {
    ('A' <= c && c <= 'Z') || ('a' <= c && c <= 'z') || ('0' <= c && c <= '9') || c == '-' || c
        == '_' || c == '.' || c == '~' || c == '%'
}

/// An upper-case hexadecimal digit.
pub open spec fn upper_hex(c: char) -> bool {
    ('0' <= c && c <= '9') || ('A' <= c && c <= 'F')
}

/// The value of a hexadecimal digit.
pub open spec fn hex_value(c: char) -> int {
    if '0' <= c && c <= '9' {
        c as int - 48
    } else if 'A' <= c && c <= 'F' {
        c as int - 55
    } else {
        c as int - 87
    }
}

/// Reads a percent-encoded string back into bytes: `%XY` is the byte with
/// hexadecimal value `XY`, any other character stands for itself.
pub open spec fn percent_decode(s: Seq<char>) -> Seq<u8>
    decreases s.len(),
{
    if s.len() == 0 {
        Seq::empty()
    } else if s[0] == '%' && s.len() >= 3 {
        seq![(hex_value(s[1]) * 16 + hex_value(s[2])) as u8] + percent_decode(s.skip(3))
    } else {
        seq![(s[0] as int) as u8] + percent_decode(s.skip(1))
    }
}

proof fn lemma_hex_digit(n: nat)
    requires
        n < 16,
    ensures
        upper_hex(hex_digit(n)),
        hex_value(hex_digit(n)) == n,
{
}

/// One byte's encoding reads back as that byte, whatever follows.
proof fn lemma_decode_byte(b: u8, rest: Seq<char>)
    ensures
        percent_decode(encode_byte(b) + rest) == seq![b] + percent_decode(rest),
{
    let s = encode_byte(b) + rest;
    if is_unreserved(b) {
        assert(s[0] == b as char);
        assert(s.skip(1) =~= rest);
    } else {
        lemma_hex_digit((b / 16) as nat);
        lemma_hex_digit((b % 16) as nat);
        assert(s[0] == '%');
        assert(s.skip(3) =~= rest);
        assert(hex_value(s[1]) * 16 + hex_value(s[2]) == b);
    }
}

proof fn lemma_decode_encoded(bytes: Seq<u8>, rest: Seq<char>)
    ensures
        percent_decode(percent_encode(bytes) + rest) == bytes + percent_decode(rest),
    decreases bytes.len(),
{
    if bytes.len() > 0 {
        let d = bytes.drop_last();
        let l = bytes.last();
        assert(percent_encode(bytes) + rest =~= percent_encode(d) + (encode_byte(l) + rest));
        lemma_decode_encoded(d, encode_byte(l) + rest);
        lemma_decode_byte(l, rest);
        assert(bytes =~= d + seq![l]);
        assert(d + (seq![l] + percent_decode(rest)) =~= bytes + percent_decode(rest));
    } else {
        assert(percent_encode(bytes) + rest =~= rest);
        assert(bytes + percent_decode(rest) =~= percent_decode(rest));
    }
}

/// What `urlencode` writes: only ASCII letters, digits, `-`, `_`, `.`, `~`
/// and `%` appear (so `+`, space, `&`, `=` and every non-ASCII byte are
/// escaped); every `%` is followed by two upper-case hexadecimal digits;
/// the unreserved bytes stand for themselves; and decoding gives back the
/// bytes exactly.
pub proof fn lemma_percent_encoding(bytes: Seq<u8>)
    ensures
        forall|i: int| 0 <= i < percent_encode(bytes).len() ==> url_safe(#[trigger] percent_encode(bytes)[i]),
        forall|i: int|
            0 <= i < percent_encode(bytes).len() && #[trigger] percent_encode(bytes)[i] == '%' ==> i
                + 2 < percent_encode(bytes).len() && upper_hex(percent_encode(bytes)[i + 1])
                && upper_hex(percent_encode(bytes)[i + 2]),
        percent_decode(percent_encode(bytes)) == bytes,
    decreases bytes.len(),
{
    lemma_decode_encoded(bytes, Seq::empty());
    assert(percent_encode(bytes) + Seq::<char>::empty() =~= percent_encode(bytes));
    assert(bytes + Seq::<u8>::empty() =~= bytes);
    if bytes.len() > 0 {
        let d = bytes.drop_last();
        let l = bytes.last();
        lemma_percent_encoding(d);
        let pd = percent_encode(d);
        let e = encode_byte(l);
        let pe = percent_encode(bytes);
        assert(pe == pd + e);
        if !is_unreserved(l) {
            lemma_hex_digit((l / 16) as nat);
            lemma_hex_digit((l % 16) as nat);
        }
        assert forall|i: int| 0 <= i < pe.len() implies url_safe(#[trigger] pe[i]) by {
            if i < pd.len() {
                assert(pe[i] == pd[i]);
            } else {
                assert(pe[i] == e[i - pd.len()]);
            }
        }
        assert forall|i: int|
            0 <= i < pe.len() && #[trigger] pe[i] == '%' implies i + 2 < pe.len() && upper_hex(
            pe[i + 1],
        ) && upper_hex(pe[i + 2]) by {
            if i < pd.len() {
                assert(pe[i] == pd[i]);
                assert(pe[i + 1] == pd[i + 1]);
                assert(pe[i + 2] == pd[i + 2]);
            } else {
                assert(pe[i] == e[i - pd.len()]);
                assert(i == pd.len());
                assert(pe[i + 1] == e[1]);
                assert(pe[i + 2] == e[2]);
            }
        }
    }
}

/// The unreserved bytes, and only they, are written as themselves: a
/// single byte outside ASCII letters, digits and `-_.~` comes out as `%`
/// and two hexadecimal digits worth the byte.
pub proof fn lemma_percent_encode_byte(b: u8)
    ensures
        (65 <= b <= 90) || (97 <= b <= 122) || (48 <= b <= 57) || b == 45 || b == 95 || b == 46
            || b == 126 ==> percent_encode(seq![b]) == seq![b as char],
        !((65 <= b <= 90) || (97 <= b <= 122) || (48 <= b <= 57) || b == 45 || b == 95 || b == 46
            || b == 126) ==> {
            let s = percent_encode(seq![b]);
            &&& s.len() == 3
            &&& s[0] == '%'
            &&& upper_hex(s[1]) && upper_hex(s[2])
            &&& hex_value(s[1]) * 16 + hex_value(s[2]) == b
        },
{
    let one = seq![b];
    assert(one.drop_last() =~= Seq::<u8>::empty());
    assert(one.last() == b);
    assert(percent_encode(one.drop_last()) == Seq::<char>::empty());
    assert(percent_encode(one) == percent_encode(one.drop_last()) + encode_byte(b));
    assert(percent_encode(one) =~= encode_byte(b));
    lemma_hex_digit((b / 16) as nat);
    lemma_hex_digit((b % 16) as nat);
}

/// How many ASCII digits `s` starts with.
pub open spec fn digit_run(s: Seq<char>) -> nat
    decreases s.len(),
{
    if s.len() > 0 && is_digit(s[0]) {
        1 + digit_run(s.skip(1))
    } else {
        0
    }
}

/// The unit a Go duration component starts with: its worth in nanoseconds
/// and its length (`ns`, `µs`, `ms`, `s`, `m`, `h`); `(0, 0)` for none.
pub open spec fn go_unit(s: Seq<char>) -> (nat, nat) {
    if s.len() >= 2 && s[0] == 'n' && s[1] == 's' {
        (1, 2)
    } else if s.len() >= 2 && s[0] == 'µ' && s[1] == 's' {
        (1_000, 2)
    } else if s.len() >= 2 && s[0] == 'm' && s[1] == 's' {
        (1_000_000, 2)
    } else if s.len() >= 1 && s[0] == 's' {
        (1_000_000_000, 1)
    } else if s.len() >= 1 && s[0] == 'm' {
        (60_000_000_000, 1)
    } else if s.len() >= 1 && s[0] == 'h' {
        (3_600_000_000_000, 1)
    } else {
        (0, 0)
    }
}

/// The nanoseconds a Go duration string such as `1h30m0s` or `500ms`
/// stands for: a sequence of whole numbers, each followed by its unit;
/// `None` when the string is not of that form.
pub open spec fn read_go_duration(s: Seq<char>) -> Option<nat>
    decreases s.len(),
{
    if s.len() == 0 {
        Some(0)
    } else {
        let k = digit_run(s);
        let (worth, len) = go_unit(s.skip(k as int));
        if k == 0 || len == 0 || k + len > s.len() {
            None
        } else {
            match read_go_duration(s.skip((k + len) as int)) {
                Some(x) => Some(digits_value(s.take(k as int)) * worth + x),
                None => None,
            }
        }
    }
}

proof fn lemma_digit_run(d: Seq<char>, t: Seq<char>)
    requires
        all_digits(d),
        t.len() == 0 || !is_digit(t[0]),
    ensures
        digit_run(d + t) == d.len(),
    decreases d.len(),
{
    if d.len() > 0 {
        assert((d + t)[0] == d[0]);
        assert((d + t).skip(1) =~= d.skip(1) + t);
        assert forall|i: int| 0 <= i < d.skip(1).len() implies is_digit(#[trigger] d.skip(1)[i]) by {
            assert(d.skip(1)[i] == d[i + 1]);
        }
        lemma_digit_run(d.skip(1), t);
    } else {
        assert(d + t =~= t);
    }
}

/// Reading one component `decimal(a)` + unit off the front.
proof fn lemma_read_component(a: nat, unit: Seq<char>, rest: Seq<char>, worth: nat)
    requires
        unit.len() > 0,
        !is_digit(unit[0]),
        go_unit(unit + rest) == (worth, unit.len()),
    ensures
        read_go_duration(decimal(a) + unit + rest) == match read_go_duration(rest) {
            Some(x) => Some(a * worth + x),
            None => None,
        },
{
    lemma_decimal_digits(a);
    let d = decimal(a);
    let s = d + unit + rest;
    assert(s =~= d + (unit + rest));
    lemma_digit_run(d, unit + rest);
    assert(s.skip(d.len() as int) =~= unit + rest);
    assert(s.skip((d.len() + unit.len()) as int) =~= rest);
    assert(s.take(d.len() as int) =~= d);
}

/// The string `format_duration` writes for `n` nanoseconds reads back, as
/// a Go duration, as exactly `n` nanoseconds: no unit is dropped, whether
/// the span is written in nanoseconds, micro- or milliseconds or as hours,
/// minutes and seconds.
pub proof fn lemma_go_duration_reads_back(n: nat)
    ensures
        read_go_duration(go_duration(n)) == Some(n),
{
    reveal_strlit("0s");
    reveal_strlit("ns");
    reveal_strlit("µs");
    reveal_strlit("ms");
    reveal_strlit("s");
    reveal_strlit("m");
    reveal_strlit("h");
    let empty = Seq::<char>::empty();
    assert(read_go_duration(empty) == Some(0nat));
    if n == 0 {
        assert(decimal(0) =~= seq!['0']);
        assert("0s"@ =~= decimal(0) + "s"@ + empty);
        lemma_read_component(0, "s"@, empty, 1_000_000_000);
    } else if n % 1_000 != 0 {
        assert(go_duration(n) =~= decimal(n) + "ns"@ + empty);
        lemma_read_component(n, "ns"@, empty, 1);
    } else if (n / 1_000) % 1_000 != 0 {
        assert(go_duration(n) =~= decimal(n / 1_000) + "µs"@ + empty);
        lemma_read_component(n / 1_000, "µs"@, empty, 1_000);
    } else if (n / 1_000_000) % 1_000 != 0 {
        assert(go_duration(n) =~= decimal(n / 1_000_000) + "ms"@ + empty);
        lemma_read_component(n / 1_000_000, "ms"@, empty, 1_000_000);
        assert((n / 1_000_000) * 1_000_000 == n) by (nonlinear_arith)
            requires
                n % 1_000 == 0,
                (n / 1_000) % 1_000 == 0,
        ;
    } else {
        let secs = n / 1_000_000_000;
        let h = secs / 3_600;
        let m = (secs % 3_600) / 60;
        let s = secs % 60;
        assert(h * 3_600_000_000_000 + m * 60_000_000_000 + s * 1_000_000_000 == n) by (
        nonlinear_arith)
            requires
                n % 1_000 == 0,
                (n / 1_000) % 1_000 == 0,
                (n / 1_000_000) % 1_000 == 0,
                secs == n / 1_000_000_000,
                h == secs / 3_600,
                m == (secs % 3_600) / 60,
                s == secs % 60,
        ;
        lemma_decimal_digits(s);
        lemma_decimal_digits(m);
        let s_part = decimal(s) + "s"@;
        assert(s_part =~= decimal(s) + "s"@ + empty);
        lemma_read_component(s, "s"@, empty, 1_000_000_000);
        assert(is_digit(decimal(s)[0]));
        assert(("m"@ + s_part)[1] == decimal(s)[0]);
        lemma_read_component(m, "m"@, s_part, 60_000_000_000);
        let m_part = decimal(m) + "m"@ + s_part;
        assert(is_digit(decimal(m)[0]));
        assert(("h"@ + m_part)[1] == decimal(m)[0]);
        if h > 0 {
            lemma_read_component(h, "h"@, m_part, 3_600_000_000_000);
            assert(go_duration(n) =~= decimal(h) + "h"@ + m_part);
        } else if m > 0 {
            assert(go_duration(n) =~= m_part);
        } else {
            assert(go_duration(n) =~= s_part);
        }
    }
}

} // verus!
