//! Rendering of values as text, as the query strings need them.

use vstd::prelude::*;

verus! {

/// The decimal digit character for `d`, where `d < 10`.
pub open spec fn digit_char(d: nat) -> char {
    if d == 0 {
        '0'
    } else if d == 1 {
        '1'
    } else if d == 2 {
        '2'
    } else if d == 3 {
        '3'
    } else if d == 4 {
        '4'
    } else if d == 5 {
        '5'
    } else if d == 6 {
        '6'
    } else if d == 7 {
        '7'
    } else if d == 8 {
        '8'
    } else {
        '9'
    }
}

/// The decimal representation of `n`: most significant digit first, no
/// leading zeros, and "0" for zero.
pub open spec fn decimal(n: nat) -> Seq<char>
    decreases n,
{
    if n < 10 {
        seq![digit_char(n)]
    } else {
        decimal(n / 10).push(digit_char(n % 10))
    }
}

/// The text of a boolean: "true" or "false".
pub open spec fn bool_text(b: bool) -> Seq<char> {
    if b {
        seq!['t', 'r', 'u', 'e']
    } else {
        seq!['f', 'a', 'l', 's', 'e']
    }
}

/// Appends the decimal digit `d` to `out`.
fn push_digit(out: &mut String, d: u64)
    requires
        d < 10,
    ensures
        final(out)@ == old(out)@.push(digit_char(d as nat)),
{
    let lit: &str = if d == 0 {
        proof { reveal_strlit("0"); }
        "0"
    } else if d == 1 {
        proof { reveal_strlit("1"); }
        "1"
    } else if d == 2 {
        proof { reveal_strlit("2"); }
        "2"
    } else if d == 3 {
        proof { reveal_strlit("3"); }
        "3"
    } else if d == 4 {
        proof { reveal_strlit("4"); }
        "4"
    } else if d == 5 {
        proof { reveal_strlit("5"); }
        "5"
    } else if d == 6 {
        proof { reveal_strlit("6"); }
        "6"
    } else if d == 7 {
        proof { reveal_strlit("7"); }
        "7"
    } else if d == 8 {
        proof { reveal_strlit("8"); }
        "8"
    } else {
        proof { reveal_strlit("9"); }
        "9"
    };
    assert(lit@ =~= seq![digit_char(d as nat)]);
    out.append(lit);
    assert(final(out)@ =~= old(out)@.push(digit_char(d as nat)));
}

/// Appends the decimal representation of `n` to `out`.
pub(crate) fn push_decimal(out: &mut String, n: u64)
    ensures
        final(out)@ == old(out)@ + decimal(n as nat),
    decreases n,
{
    if n >= 10 {
        push_decimal(out, n / 10);
    }
    push_digit(out, n % 10);
    assert(final(out)@ =~= old(out)@ + decimal(n as nat));
}

/// Appends "true" or "false" to `out`.
pub(crate) fn push_bool(out: &mut String, b: bool)
    ensures
        final(out)@ == old(out)@ + bool_text(b),
{
    if b {
        proof { reveal_strlit("true"); }
        out.append("true");
    } else {
        proof { reveal_strlit("false"); }
        out.append("false");
    }
    assert(final(out)@ =~= old(out)@ + bool_text(b));
}

/// The entries of a query string joined by '&', in order.
pub open spec fn join_amp(entries: Seq<Seq<char>>) -> Seq<char>
    decreases entries.len(),
{
    if entries.len() == 0 {
        Seq::empty()
    } else if entries.len() == 1 {
        entries[0]
    } else {
        join_amp(entries.drop_last()) + seq!['&'] + entries.last()
    }
}

/// A query string: '?' followed by the entries joined by '&'.
pub open spec fn query_text(entries: Seq<Seq<char>>) -> Seq<char> {
    seq!['?'] + join_amp(entries)
}

/// One entry of a query string: the key, '=', and the value's text.
pub open spec fn entry(key: Seq<char>, value: Seq<char>) -> Seq<char> {
    key + seq!['='] + value
}

/// The entries `entries`, followed by one for `key` if a value is given.
pub open spec fn with_entry(
    entries: Seq<Seq<char>>,
    key: Seq<char>,
    value: Option<Seq<char>>,
) -> Seq<Seq<char>> {
    match value {
        Some(v) => entries.push(entry(key, v)),
        None => entries,
    }
}

/// The text of an optional string field.
pub open spec fn opt_string(o: Option<String>) -> Option<Seq<char>> {
    match o {
        Some(s) => Some(s@),
        None => None,
    }
}

/// The decimal text of an optional `u64` field.
pub open spec fn opt_u64(o: Option<u64>) -> Option<Seq<char>> {
    match o {
        Some(n) => Some(decimal(n as nat)),
        None => None,
    }
}

/// The decimal text of an optional `u32` field.
pub open spec fn opt_u32(o: Option<u32>) -> Option<Seq<char>> {
    match o {
        Some(n) => Some(decimal(n as nat)),
        None => None,
    }
}

/// The text of an optional `bool` field.
pub open spec fn opt_bool(o: Option<bool>) -> Option<Seq<char>> {
    match o {
        Some(b) => Some(bool_text(b)),
        None => None,
    }
}

/// Joining one entry more adds '&' and the entry, or just the entry when it
/// is the first.
pub proof fn lemma_join_amp_push(entries: Seq<Seq<char>>, e: Seq<char>)
    ensures
        join_amp(entries.push(e)) == if entries.len() == 0 {
            e
        } else {
            join_amp(entries) + seq!['&'] + e
        },
{
    assert(entries.push(e).drop_last() =~= entries);
}

/// Starts a query string: "?".
pub(crate) fn new_query() -> (out: String)
    ensures
        out@ == query_text(Seq::empty()),
{
    proof { reveal_strlit("?"); }
    let out = String::from_str("?");
    assert(out@ =~= query_text(Seq::empty()));
    out
}

/// Appends '&' unless this is the first entry, then `key` and '='.
fn push_key(out: &mut String, any: bool, key: &str)
    ensures
        final(out)@ == old(out)@ + (if any { seq!['&'] } else { Seq::<char>::empty() }) + key@
            + seq!['='],
{
    if any {
        proof { reveal_strlit("&"); }
        out.append("&");
    }
    out.append(key);
    proof { reveal_strlit("="); }
    out.append("=");
    assert(final(out)@ =~= old(out)@ + (if any { seq!['&'] } else { Seq::<char>::empty() })
        + key@ + seq!['=']);
}

/// Appends the entry `key=value` to a query string holding `entries`.
pub(crate) fn push_text_entry(
    out: &mut String,
    any: &mut bool,
    key: &str,
    value: &str,
    Ghost(entries): Ghost<Seq<Seq<char>>>,
)
    requires
        old(out)@ == query_text(entries),
        *old(any) == (entries.len() > 0),
    ensures
        final(out)@ == query_text(entries.push(entry(key@, value@))),
        *final(any),
{
    push_key(out, *any, key);
    out.append(value);
    *any = true;
    proof {
        lemma_join_amp_push(entries, entry(key@, value@));
    }
    assert(final(out)@ =~= query_text(entries.push(entry(key@, value@))));
}

/// Appends the entry `key=n`, `n` in decimal, to a query string holding
/// `entries`.
pub(crate) fn push_u64_entry(
    out: &mut String,
    any: &mut bool,
    key: &str,
    n: u64,
    Ghost(entries): Ghost<Seq<Seq<char>>>,
)
    requires
        old(out)@ == query_text(entries),
        *old(any) == (entries.len() > 0),
    ensures
        final(out)@ == query_text(entries.push(entry(key@, decimal(n as nat)))),
        *final(any),
{
    push_key(out, *any, key);
    push_decimal(out, n);
    *any = true;
    proof {
        lemma_join_amp_push(entries, entry(key@, decimal(n as nat)));
    }
    assert(final(out)@ =~= query_text(entries.push(entry(key@, decimal(n as nat)))));
}

/// Appends the entry `key=b`, `b` as "true" or "false", to a query string
/// holding `entries`.
pub(crate) fn push_bool_entry(
    out: &mut String,
    any: &mut bool,
    key: &str,
    b: bool,
    Ghost(entries): Ghost<Seq<Seq<char>>>,
)
    requires
        old(out)@ == query_text(entries),
        *old(any) == (entries.len() > 0),
    ensures
        final(out)@ == query_text(entries.push(entry(key@, bool_text(b)))),
        *final(any),
{
    push_key(out, *any, key);
    push_bool(out, b);
    *any = true;
    proof {
        lemma_join_amp_push(entries, entry(key@, bool_text(b)));
    }
    assert(final(out)@ =~= query_text(entries.push(entry(key@, bool_text(b)))));
}

} // verus!
