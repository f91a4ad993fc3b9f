//! What a reader of a query string gets back: the text after '?' split at
//! each '&' gives the entries, and each entry names its field before the
//! first '='.

use vstd::prelude::*;
use crate::query::{
    HisQuery, HisSetPointQuery, LogQuery, PointsQuery, key_date, key_end, key_id,
    key_is_query_size, key_last_only, key_name, key_point_id, key_sender_id, key_source,
    key_start, key_with_init,
};
use crate::text::{
    bool_text, decimal, digit_char, entry, join_amp, opt_bool, opt_string, opt_u32, opt_u64,
    query_text, with_entry,
};

verus! {

/// `s` holds no '&'.
pub open spec fn no_amp(s: Seq<char>) -> bool {
    forall|i: int| 0 <= i < s.len() ==> s[i] != '&'
}

/// The pieces of `s` between its '&' characters, in order: one piece more
/// than `s` holds '&'.
pub open spec fn split_amp(s: Seq<char>) -> Seq<Seq<char>>
    decreases s.len(),
{
    if s.len() == 0 {
        seq![Seq::empty()]
    } else {
        let r = split_amp(s.drop_last());
        if s.last() == '&' {
            r.push(Seq::empty())
        } else {
            r.update(r.len() - 1, r.last().push(s.last()))
        }
    }
}

proof fn lemma_split_amp_nonempty(s: Seq<char>)
    ensures
        split_amp(s).len() >= 1,
    decreases s.len(),
{
    if s.len() > 0 {
        lemma_split_amp_nonempty(s.drop_last());
    }
}

/// Text without '&' after `a` only extends the last piece of `a`.
proof fn lemma_split_amp_extend(a: Seq<char>, b: Seq<char>)
    requires
        no_amp(b),
    ensures
        split_amp(a + b) == split_amp(a).update(
            split_amp(a).len() - 1,
            split_amp(a).last() + b,
        ),
    decreases b.len(),
{
    lemma_split_amp_nonempty(a);
    if b.len() == 0 {
        assert(a + b =~= a);
        assert(split_amp(a).last() + b =~= split_amp(a).last());
        assert(split_amp(a).update(split_amp(a).len() - 1, split_amp(a).last() + b)
            =~= split_amp(a));
    } else {
        let b1 = b.drop_last();
        assert(no_amp(b1));
        lemma_split_amp_extend(a, b1);
        assert((a + b).drop_last() =~= a + b1);
        assert((a + b).last() == b.last());
        assert(split_amp(a).last() + b1.push(b.last()) =~= (split_amp(a).last() + b1).push(
            b.last(),
        ));
        assert(b1.push(b.last()) =~= b);
        lemma_split_amp_nonempty(a + b1);
        assert(split_amp(a + b) =~= split_amp(a).update(
            split_amp(a).len() - 1,
            split_amp(a).last() + b,
        ));
    }
}

/// A separator and then text without '&' adds one piece.
proof fn lemma_split_amp_sep(a: Seq<char>, b: Seq<char>)
    requires
        no_amp(b),
    ensures
        split_amp(a + seq!['&'] + b) == split_amp(a).push(b),
{
    let a1 = a + seq!['&'];
    assert(a1.drop_last() =~= a);
    assert(split_amp(a1) == split_amp(a).push(Seq::empty()));
    lemma_split_amp_extend(a1, b);
    assert(Seq::<char>::empty() + b =~= b);
    assert(split_amp(a1 + b) =~= split_amp(a).push(b));
}

/// Splitting entries joined by '&' gives the entries back, where no entry
/// holds '&'.
pub proof fn lemma_split_join_amp(entries: Seq<Seq<char>>)
    requires
        entries.len() > 0,
        forall|i: int| 0 <= i < entries.len() ==> no_amp(#[trigger] entries[i]),
    ensures
        split_amp(join_amp(entries)) == entries,
    decreases entries.len(),
{
    if entries.len() == 1 {
        lemma_split_amp_extend(Seq::empty(), entries[0]);
        assert(Seq::<char>::empty() + entries[0] =~= entries[0]);
        assert(split_amp(Seq::empty()).update(0, Seq::<char>::empty() + entries[0]) =~= entries);
    } else {
        let d = entries.drop_last();
        assert forall|i: int| 0 <= i < d.len() implies no_amp(#[trigger] d[i]) by {
            assert(d[i] == entries[i]);
        }
        lemma_split_join_amp(d);
        assert(no_amp(entries[entries.len() - 1]));
        lemma_split_amp_sep(join_amp(d), entries.last());
        assert(d.push(entries.last()) =~= entries);
    }
}

/// `s` holds no '='.
pub open spec fn no_eq(s: Seq<char>) -> bool {
    forall|i: int| 0 <= i < s.len() ==> s[i] != '='
}

/// No entry of `entries` holds '&'.
pub open spec fn all_no_amp(entries: Seq<Seq<char>>) -> bool {
    forall|i: int| 0 <= i < entries.len() ==> no_amp(#[trigger] entries[i])
}

/// The entry `e` is one for `key`: it begins with `key` and '='.
pub open spec fn has_key(e: Seq<char>, key: Seq<char>) -> bool {
    &&& key.len() < e.len()
    &&& e.subrange(0, key.len() as int) == key
    &&& e[key.len() as int] == '='
}

/// The value of the entry `e` for `key`: the text after `key` and '='.
pub open spec fn value_of(e: Seq<char>, key: Seq<char>) -> Seq<char> {
    e.subrange(key.len() as int + 1, e.len() as int)
}

/// The value that `entries` give for `key`: that of the last entry for
/// `key`, or none.
pub open spec fn lookup(entries: Seq<Seq<char>>, key: Seq<char>) -> Option<Seq<char>>
    decreases entries.len(),
{
    if entries.len() == 0 {
        None
    } else if has_key(entries.last(), key) {
        Some(value_of(entries.last(), key))
    } else {
        lookup(entries.drop_last(), key)
    }
}

/// What a reader of the query string `s` finds for `key`: the text after
/// the leading '?' is split at each '&', and the last piece for `key` is
/// taken; the empty text holds nothing.
pub open spec fn read_query(s: Seq<char>, key: Seq<char>) -> Option<Seq<char>> {
    if s.len() == 0 {
        None
    } else {
        lookup(split_amp(s.drop_first()), key)
    }
}

/// An entry is one for a key free of '=' exactly when the keys agree, and
/// then its value is the value written.
pub proof fn lemma_has_key_entry(k: Seq<char>, v: Seq<char>, k2: Seq<char>)
    requires
        no_eq(k),
        no_eq(k2),
    ensures
        has_key(entry(k, v), k2) <==> k2 == k,
        k2 == k ==> value_of(entry(k, v), k2) == v,
{
    let e = entry(k, v);
    assert(e.len() == k.len() + 1 + v.len());
    assert(forall|i: int| 0 <= i < k.len() ==> e[i] == k[i]);
    assert(e[k.len() as int] == '=');
    if has_key(e, k2) {
        if k2.len() < k.len() {
            assert(e[k2.len() as int] == k[k2.len() as int]);
        } else if k2.len() > k.len() {
            assert(e.subrange(0, k2.len() as int)[k.len() as int] == e[k.len() as int]);
            assert(k2[k.len() as int] == '=');
        } else {
            assert(k2 =~= k);
        }
    }
    if k2 == k {
        assert(e.subrange(0, k.len() as int) =~= k);
        assert(value_of(e, k2) =~= v);
    }
}

/// Looking up `k2` after an optional entry for `k`.
pub proof fn lemma_lookup_with_entry(
    entries: Seq<Seq<char>>,
    k: Seq<char>,
    v: Option<Seq<char>>,
    k2: Seq<char>,
)
    requires
        no_eq(k),
        no_eq(k2),
    ensures
        lookup(with_entry(entries, k, v), k2) == if k == k2 && v is Some {
            v
        } else {
            lookup(entries, k2)
        },
{
    if let Some(val) = v {
        lemma_has_key_entry(k, val, k2);
        let es = entries.push(entry(k, val));
        assert(es.drop_last() =~= entries);
        assert(es.last() == entry(k, val));
    }
}

/// An optional entry keeps the entries free of '&' when its key and value
/// are.
pub proof fn lemma_with_entry_no_amp(entries: Seq<Seq<char>>, k: Seq<char>, v: Option<Seq<char>>)
    requires
        all_no_amp(entries),
        no_amp(k),
        v matches Some(t) ==> no_amp(t),
    ensures
        all_no_amp(with_entry(entries, k, v)),
{
    if let Some(t) = v {
        let e = entry(k, t);
        assert forall|i: int| 0 <= i < e.len() implies e[i] != '&' by {
            if i < k.len() {
                assert(e[i] == k[i]);
            } else if i > k.len() {
                assert(e[i] == t[i - k.len() - 1]);
            }
        }
        let es = entries.push(e);
        assert forall|i: int| 0 <= i < es.len() implies no_amp(#[trigger] es[i]) by {
            if i < entries.len() {
                assert(es[i] == entries[i]);
            }
        }
    }
}

/// Decimal text is made of the digits '0' to '9'.
pub proof fn lemma_decimal_digits(n: nat)
    ensures
        decimal(n).len() >= 1,
        forall|i: int| 0 <= i < decimal(n).len() ==> '0' <= #[trigger] decimal(n)[i] <= '9',
    decreases n,
{
    if n >= 10 {
        lemma_decimal_digits(n / 10);
    }
}

proof fn lemma_digit_char_injective(a: nat, b: nat)
    requires
        a < 10,
        b < 10,
        digit_char(a) == digit_char(b),
    ensures
        a == b,
{
}

/// Different numbers have different decimal texts.
pub proof fn lemma_decimal_injective(n: nat, m: nat)
    requires
        decimal(n) == decimal(m),
    ensures
        n == m,
    decreases n,
{
    lemma_decimal_digits(n);
    lemma_decimal_digits(m);
    if n >= 10 && m >= 10 {
        lemma_decimal_digits(n / 10);
        lemma_decimal_digits(m / 10);
        assert(decimal(n).drop_last() =~= decimal(n / 10));
        assert(decimal(m).drop_last() =~= decimal(m / 10));
        lemma_decimal_injective(n / 10, m / 10);
        assert(decimal(n).last() == digit_char(n % 10));
        assert(decimal(m).last() == digit_char(m % 10));
        lemma_digit_char_injective(n % 10, m % 10);
    } else if n < 10 && m < 10 {
        assert(decimal(n)[0] == digit_char(n));
        assert(decimal(m)[0] == digit_char(m));
        lemma_digit_char_injective(n, m);
    } else if n >= 10 {
        lemma_decimal_digits(n / 10);
    } else if m >= 10 {
        lemma_decimal_digits(m / 10);
    }
}

/// Decimal text holds no '&'.
pub proof fn lemma_decimal_no_amp(n: nat)
    ensures
        no_amp(decimal(n)),
{
    lemma_decimal_digits(n);
    assert forall|i: int| 0 <= i < decimal(n).len() implies decimal(n)[i] != '&' by {
        assert('0' <= decimal(n)[i] <= '9');
    }
}

/// The text of a boolean holds no '&', and tells the boolean.
pub proof fn lemma_bool_text(b: bool, c: bool)
    ensures
        no_amp(bool_text(b)),
        bool_text(b) == bool_text(c) ==> b == c,
{
    if b != c {
        assert(bool_text(b).len() != bool_text(c).len());
    }
}

/// Reading a query string built from entries free of '&' finds, for each
/// key, what the entries give for it.
pub proof fn lemma_read_query_text(entries: Seq<Seq<char>>)
    requires
        all_no_amp(entries),
    ensures
        forall|k: Seq<char>| #[trigger] read_query(query_text(entries), k) == lookup(entries, k),
{
    assert(query_text(entries).drop_first() =~= join_amp(entries));
    if entries.len() > 0 {
        lemma_split_join_amp(entries);
    } else {
        assert(split_amp(join_amp(entries)) =~= seq![Seq::<char>::empty()]);
        assert forall|k: Seq<char>|
            #[trigger] read_query(query_text(entries), k) == lookup(entries, k) by {
            let es = seq![Seq::<char>::empty()];
            assert(join_amp(entries) =~= Seq::<char>::empty());
            assert(split_amp(Seq::<char>::empty()) == es);
            assert(!has_key(es.last(), k));
            assert(es.drop_last() =~= Seq::<Seq<char>>::empty());
            assert(es.last() == Seq::<char>::empty());
            assert(lookup(Seq::<Seq<char>>::empty(), k) is None);
            assert(lookup(es, k) is None);
            assert(query_text(entries).len() >= 1);
            assert(split_amp(query_text(entries).drop_first()) == es);
            assert(lookup(entries, k) is None);
        }
    }
}

/// The keys of the query fields: none holds '=' or '&', and they differ
/// from one another.
proof fn lemma_keys()
    ensures
        no_eq(key_date()),
        no_amp(key_date()),
        no_eq(key_end()),
        no_amp(key_end()),
        no_eq(key_id()),
        no_amp(key_id()),
        no_eq(key_is_query_size()),
        no_amp(key_is_query_size()),
        no_eq(key_last_only()),
        no_amp(key_last_only()),
        no_eq(key_name()),
        no_amp(key_name()),
        no_eq(key_point_id()),
        no_amp(key_point_id()),
        no_eq(key_sender_id()),
        no_amp(key_sender_id()),
        no_eq(key_source()),
        no_amp(key_source()),
        no_eq(key_start()),
        no_amp(key_start()),
        no_eq(key_with_init()),
        no_amp(key_with_init()),
        key_last_only() != key_with_init(),
        key_last_only() != key_sender_id(),
        key_with_init() != key_sender_id(),
        key_date() != key_name(),
{
    assert(forall|i: int|
        0 <= i < key_date().len() ==> key_date()[i] != '=' && key_date()[i] != '&');
    assert(forall|i: int|
        0 <= i < key_end().len() ==> key_end()[i] != '=' && key_end()[i] != '&');
    assert(forall|i: int|
        0 <= i < key_id().len() ==> key_id()[i] != '=' && key_id()[i] != '&');
    assert(forall|i: int|
        0 <= i < key_is_query_size().len() ==> key_is_query_size()[i] != '='
            && key_is_query_size()[i] != '&');
    assert(forall|i: int|
        0 <= i < key_last_only().len() ==> key_last_only()[i] != '=' && key_last_only()[i] != '&');
    assert(forall|i: int|
        0 <= i < key_name().len() ==> key_name()[i] != '=' && key_name()[i] != '&');
    assert(forall|i: int|
        0 <= i < key_point_id().len() ==> key_point_id()[i] != '=' && key_point_id()[i] != '&');
    assert(forall|i: int|
        0 <= i < key_sender_id().len() ==> key_sender_id()[i] != '=' && key_sender_id()[i] != '&');
    assert(forall|i: int|
        0 <= i < key_source().len() ==> key_source()[i] != '=' && key_source()[i] != '&');
    assert(forall|i: int|
        0 <= i < key_start().len() ==> key_start()[i] != '=' && key_start()[i] != '&');
    assert(forall|i: int|
        0 <= i < key_with_init().len() ==> key_with_init()[i] != '=' && key_with_init()[i] != '&');
    assert(key_last_only()[0] != key_with_init()[0]);
    assert(key_last_only()[0] != key_sender_id()[0]);
    assert(key_with_init()[0] != key_sender_id()[0]);
    assert(key_date()[0] != key_name()[0]);
}

proof fn lemma_his_query_lookup(q: HisQuery, k: Seq<char>)
    requires
        no_eq(k),
    ensures
        k == key_id() ==> lookup(q.entries(), k) == opt_string(q.id),
        k == key_start() ==> lookup(q.entries(), k) == opt_u64(q.start),
        k == key_end() ==> lookup(q.entries(), k) == opt_u64(q.end),
        k == key_date() ==> lookup(q.entries(), k) == opt_string(q.date),
        k == key_source() ==> lookup(q.entries(), k) == opt_u32(q.source),
        k == key_last_only() ==> lookup(q.entries(), k) == opt_bool(q.last_only),
        k == key_with_init() ==> lookup(q.entries(), k) == opt_bool(q.with_init),
        (k != key_id()
            && k != key_start()
            && k != key_end()
            && k != key_date()
            && k != key_source()
            && k != key_last_only()
            && k != key_with_init())
            ==> lookup(q.entries(), k) is None,
{
    lemma_keys();
    let e0 = Seq::<Seq<char>>::empty();
    let e1 = with_entry(e0, key_id(), opt_string(q.id));
    lemma_lookup_with_entry(e0, key_id(), opt_string(q.id), k);
    let e2 = with_entry(e1, key_start(), opt_u64(q.start));
    lemma_lookup_with_entry(e1, key_start(), opt_u64(q.start), k);
    let e3 = with_entry(e2, key_end(), opt_u64(q.end));
    lemma_lookup_with_entry(e2, key_end(), opt_u64(q.end), k);
    let e4 = with_entry(e3, key_date(), opt_string(q.date));
    lemma_lookup_with_entry(e3, key_date(), opt_string(q.date), k);
    let e5 = with_entry(e4, key_source(), opt_u32(q.source));
    lemma_lookup_with_entry(e4, key_source(), opt_u32(q.source), k);
    let e6 = with_entry(e5, key_last_only(), opt_bool(q.last_only));
    lemma_lookup_with_entry(e5, key_last_only(), opt_bool(q.last_only), k);
    let e7 = with_entry(e6, key_with_init(), opt_bool(q.with_init));
    lemma_lookup_with_entry(e6, key_with_init(), opt_bool(q.with_init), k);
    assert(e7 == q.entries());
}

proof fn lemma_his_query_no_amp(q: HisQuery)
    requires
        q.id matches Some(s) ==> no_amp(s@),
        q.date matches Some(s) ==> no_amp(s@),
    ensures
        all_no_amp(q.entries()),
{
    lemma_keys();
    let e0 = Seq::<Seq<char>>::empty();
    let e1 = with_entry(e0, key_id(), opt_string(q.id));
    lemma_with_entry_no_amp(e0, key_id(), opt_string(q.id));
    if let Some(n) = q.start {
        lemma_decimal_no_amp(n as nat);
    }
    let e2 = with_entry(e1, key_start(), opt_u64(q.start));
    lemma_with_entry_no_amp(e1, key_start(), opt_u64(q.start));
    if let Some(n) = q.end {
        lemma_decimal_no_amp(n as nat);
    }
    let e3 = with_entry(e2, key_end(), opt_u64(q.end));
    lemma_with_entry_no_amp(e2, key_end(), opt_u64(q.end));
    let e4 = with_entry(e3, key_date(), opt_string(q.date));
    lemma_with_entry_no_amp(e3, key_date(), opt_string(q.date));
    if let Some(n) = q.source {
        lemma_decimal_no_amp(n as nat);
    }
    let e5 = with_entry(e4, key_source(), opt_u32(q.source));
    lemma_with_entry_no_amp(e4, key_source(), opt_u32(q.source));
    if let Some(b) = q.last_only {
        lemma_bool_text(b, b);
    }
    let e6 = with_entry(e5, key_last_only(), opt_bool(q.last_only));
    lemma_with_entry_no_amp(e5, key_last_only(), opt_bool(q.last_only));
    if let Some(b) = q.with_init {
        lemma_bool_text(b, b);
    }
    let e7 = with_entry(e6, key_with_init(), opt_bool(q.with_init));
    lemma_with_entry_no_amp(e6, key_with_init(), opt_bool(q.with_init));
    assert(e7 == q.entries());
}

/// Reading back a `HisQuery`: splitting its query string after '?' at each
/// '&' and looking up a field's key gives that field's text (none for an
/// unset field), provided the text fields hold no '&'.
pub proof fn lemma_his_query_read_back(q: HisQuery)
    requires
        q.id matches Some(s) ==> no_amp(s@),
        q.date matches Some(s) ==> no_amp(s@),
    ensures
        read_query(query_text(q.entries()), key_id()) == opt_string(q.id),
        read_query(query_text(q.entries()), key_start()) == opt_u64(q.start),
        read_query(query_text(q.entries()), key_end()) == opt_u64(q.end),
        read_query(query_text(q.entries()), key_date()) == opt_string(q.date),
        read_query(query_text(q.entries()), key_source()) == opt_u32(q.source),
        read_query(query_text(q.entries()), key_last_only()) == opt_bool(q.last_only),
        read_query(query_text(q.entries()), key_with_init()) == opt_bool(q.with_init),
{
    lemma_his_query_no_amp(q);
    lemma_read_query_text(q.entries());
    lemma_his_query_lookup(q, key_id());
    lemma_his_query_lookup(q, key_start());
    lemma_his_query_lookup(q, key_end());
    lemma_his_query_lookup(q, key_date());
    lemma_his_query_lookup(q, key_source());
    lemma_his_query_lookup(q, key_last_only());
    lemma_his_query_lookup(q, key_with_init());
}

/// Two `HisQuery` values with the same query string agree on every field
/// (string fields by their text), provided their text fields hold no '&'.
pub proof fn lemma_his_query_str_determines_query(a: HisQuery, b: HisQuery)
    requires
        a.id matches Some(s) ==> no_amp(s@),
        b.id matches Some(s) ==> no_amp(s@),
        a.date matches Some(s) ==> no_amp(s@),
        b.date matches Some(s) ==> no_amp(s@),
        query_text(a.entries()) == query_text(b.entries()),
    ensures
        opt_string(a.id) == opt_string(b.id),
        a.start == b.start,
        a.end == b.end,
        opt_string(a.date) == opt_string(b.date),
        a.source == b.source,
        a.last_only == b.last_only,
        a.with_init == b.with_init,
{
    lemma_his_query_read_back(a);
    lemma_his_query_read_back(b);
    if let (Some(x), Some(y)) = (a.start, b.start) {
        lemma_decimal_injective(x as nat, y as nat);
    }
    if let (Some(x), Some(y)) = (a.end, b.end) {
        lemma_decimal_injective(x as nat, y as nat);
    }
    if let (Some(x), Some(y)) = (a.source, b.source) {
        lemma_decimal_injective(x as nat, y as nat);
    }
    if let (Some(x), Some(y)) = (a.last_only, b.last_only) {
        lemma_bool_text(x, y);
    }
    if let (Some(x), Some(y)) = (a.with_init, b.with_init) {
        lemma_bool_text(x, y);
    }
}

proof fn lemma_his_set_point_query_lookup(q: HisSetPointQuery, k: Seq<char>)
    requires
        no_eq(k),
    ensures
        k == key_point_id() ==> lookup(q.entries(), k) == opt_u64(q.point_id),
        k == key_sender_id() ==> lookup(q.entries(), k) == opt_u64(q.sender_id),
        k == key_start() ==> lookup(q.entries(), k) == opt_u64(q.start),
        k == key_end() ==> lookup(q.entries(), k) == opt_u64(q.end),
        k == key_date() ==> lookup(q.entries(), k) == opt_string(q.date),
        (k != key_point_id()
            && k != key_sender_id()
            && k != key_start()
            && k != key_end()
            && k != key_date())
            ==> lookup(q.entries(), k) is None,
{
    lemma_keys();
    let e0 = Seq::<Seq<char>>::empty();
    let e1 = with_entry(e0, key_point_id(), opt_u64(q.point_id));
    lemma_lookup_with_entry(e0, key_point_id(), opt_u64(q.point_id), k);
    let e2 = with_entry(e1, key_sender_id(), opt_u64(q.sender_id));
    lemma_lookup_with_entry(e1, key_sender_id(), opt_u64(q.sender_id), k);
    let e3 = with_entry(e2, key_start(), opt_u64(q.start));
    lemma_lookup_with_entry(e2, key_start(), opt_u64(q.start), k);
    let e4 = with_entry(e3, key_end(), opt_u64(q.end));
    lemma_lookup_with_entry(e3, key_end(), opt_u64(q.end), k);
    let e5 = with_entry(e4, key_date(), opt_string(q.date));
    lemma_lookup_with_entry(e4, key_date(), opt_string(q.date), k);
    assert(e5 == q.entries());
}

proof fn lemma_his_set_point_query_no_amp(q: HisSetPointQuery)
    requires
        q.date matches Some(s) ==> no_amp(s@),
    ensures
        all_no_amp(q.entries()),
{
    lemma_keys();
    let e0 = Seq::<Seq<char>>::empty();
    if let Some(n) = q.point_id {
        lemma_decimal_no_amp(n as nat);
    }
    let e1 = with_entry(e0, key_point_id(), opt_u64(q.point_id));
    lemma_with_entry_no_amp(e0, key_point_id(), opt_u64(q.point_id));
    if let Some(n) = q.sender_id {
        lemma_decimal_no_amp(n as nat);
    }
    let e2 = with_entry(e1, key_sender_id(), opt_u64(q.sender_id));
    lemma_with_entry_no_amp(e1, key_sender_id(), opt_u64(q.sender_id));
    if let Some(n) = q.start {
        lemma_decimal_no_amp(n as nat);
    }
    let e3 = with_entry(e2, key_start(), opt_u64(q.start));
    lemma_with_entry_no_amp(e2, key_start(), opt_u64(q.start));
    if let Some(n) = q.end {
        lemma_decimal_no_amp(n as nat);
    }
    let e4 = with_entry(e3, key_end(), opt_u64(q.end));
    lemma_with_entry_no_amp(e3, key_end(), opt_u64(q.end));
    let e5 = with_entry(e4, key_date(), opt_string(q.date));
    lemma_with_entry_no_amp(e4, key_date(), opt_string(q.date));
    assert(e5 == q.entries());
}

/// Reading back a `HisSetPointQuery`: splitting its query string after '?' at each
/// '&' and looking up a field's key gives that field's text (none for an
/// unset field), provided the text fields hold no '&'.
pub proof fn lemma_his_set_point_query_read_back(q: HisSetPointQuery)
    requires
        q.date matches Some(s) ==> no_amp(s@),
    ensures
        read_query(query_text(q.entries()), key_point_id()) == opt_u64(q.point_id),
        read_query(query_text(q.entries()), key_sender_id()) == opt_u64(q.sender_id),
        read_query(query_text(q.entries()), key_start()) == opt_u64(q.start),
        read_query(query_text(q.entries()), key_end()) == opt_u64(q.end),
        read_query(query_text(q.entries()), key_date()) == opt_string(q.date),
{
    lemma_his_set_point_query_no_amp(q);
    lemma_read_query_text(q.entries());
    lemma_his_set_point_query_lookup(q, key_point_id());
    lemma_his_set_point_query_lookup(q, key_sender_id());
    lemma_his_set_point_query_lookup(q, key_start());
    lemma_his_set_point_query_lookup(q, key_end());
    lemma_his_set_point_query_lookup(q, key_date());
}

/// Two `HisSetPointQuery` values with the same query string agree on every field
/// (string fields by their text), provided their text fields hold no '&'.
pub proof fn lemma_his_set_point_query_str_determines_query(
    a: HisSetPointQuery,
    b: HisSetPointQuery,
)
    requires
        a.date matches Some(s) ==> no_amp(s@),
        b.date matches Some(s) ==> no_amp(s@),
        query_text(a.entries()) == query_text(b.entries()),
    ensures
        a.point_id == b.point_id,
        a.sender_id == b.sender_id,
        a.start == b.start,
        a.end == b.end,
        opt_string(a.date) == opt_string(b.date),
{
    lemma_his_set_point_query_read_back(a);
    lemma_his_set_point_query_read_back(b);
    if let (Some(x), Some(y)) = (a.point_id, b.point_id) {
        lemma_decimal_injective(x as nat, y as nat);
    }
    if let (Some(x), Some(y)) = (a.sender_id, b.sender_id) {
        lemma_decimal_injective(x as nat, y as nat);
    }
    if let (Some(x), Some(y)) = (a.start, b.start) {
        lemma_decimal_injective(x as nat, y as nat);
    }
    if let (Some(x), Some(y)) = (a.end, b.end) {
        lemma_decimal_injective(x as nat, y as nat);
    }
}

proof fn lemma_points_query_lookup(q: PointsQuery, k: Seq<char>)
    requires
        no_eq(k),
    ensures
        k == key_id() ==> lookup(q.entries(), k) == opt_string(q.id),
        k == key_name() ==> lookup(q.entries(), k) == opt_string(q.name),
        (k != key_id()
            && k != key_name())
            ==> lookup(q.entries(), k) is None,
{
    lemma_keys();
    let e0 = Seq::<Seq<char>>::empty();
    let e1 = with_entry(e0, key_id(), opt_string(q.id));
    lemma_lookup_with_entry(e0, key_id(), opt_string(q.id), k);
    let e2 = with_entry(e1, key_name(), opt_string(q.name));
    lemma_lookup_with_entry(e1, key_name(), opt_string(q.name), k);
    assert(e2 == q.entries());
}

proof fn lemma_points_query_no_amp(q: PointsQuery)
    requires
        q.id matches Some(s) ==> no_amp(s@),
        q.name matches Some(s) ==> no_amp(s@),
    ensures
        all_no_amp(q.entries()),
{
    lemma_keys();
    let e0 = Seq::<Seq<char>>::empty();
    let e1 = with_entry(e0, key_id(), opt_string(q.id));
    lemma_with_entry_no_amp(e0, key_id(), opt_string(q.id));
    let e2 = with_entry(e1, key_name(), opt_string(q.name));
    lemma_with_entry_no_amp(e1, key_name(), opt_string(q.name));
    assert(e2 == q.entries());
}

/// Reading back a `PointsQuery`: splitting its query string after '?' at each
/// '&' and looking up a field's key gives that field's text (none for an
/// unset field), provided the text fields hold no '&'.
pub proof fn lemma_points_query_read_back(q: PointsQuery)
    requires
        q.id matches Some(s) ==> no_amp(s@),
        q.name matches Some(s) ==> no_amp(s@),
    ensures
        read_query(query_text(q.entries()), key_id()) == opt_string(q.id),
        read_query(query_text(q.entries()), key_name()) == opt_string(q.name),
{
    lemma_points_query_no_amp(q);
    lemma_read_query_text(q.entries());
    lemma_points_query_lookup(q, key_id());
    lemma_points_query_lookup(q, key_name());
}

/// Two `PointsQuery` values with the same query string agree on every field
/// (string fields by their text), provided their text fields hold no '&'.
pub proof fn lemma_points_query_str_determines_query(a: PointsQuery, b: PointsQuery)
    requires
        a.id matches Some(s) ==> no_amp(s@),
        b.id matches Some(s) ==> no_amp(s@),
        a.name matches Some(s) ==> no_amp(s@),
        b.name matches Some(s) ==> no_amp(s@),
        query_text(a.entries()) == query_text(b.entries()),
    ensures
        opt_string(a.id) == opt_string(b.id),
        opt_string(a.name) == opt_string(b.name),
{
    lemma_points_query_read_back(a);
    lemma_points_query_read_back(b);
}

proof fn lemma_log_query_lookup(q: LogQuery, k: Seq<char>)
    requires
        no_eq(k),
    ensures
        k == key_is_query_size() ==> lookup(q.entries(), k) == opt_bool(q.is_query_size),
        k != key_is_query_size() ==> lookup(q.entries(), k) is None,
{
    lemma_keys();
    let e0 = Seq::<Seq<char>>::empty();
    let e1 = with_entry(e0, key_is_query_size(), opt_bool(q.is_query_size));
    lemma_lookup_with_entry(e0, key_is_query_size(), opt_bool(q.is_query_size), k);
    assert(e1 == q.entries());
}

proof fn lemma_log_query_no_amp(q: LogQuery)
    requires
    ensures
        all_no_amp(q.entries()),
{
    lemma_keys();
    let e0 = Seq::<Seq<char>>::empty();
    if let Some(b) = q.is_query_size {
        lemma_bool_text(b, b);
    }
    let e1 = with_entry(e0, key_is_query_size(), opt_bool(q.is_query_size));
    lemma_with_entry_no_amp(e0, key_is_query_size(), opt_bool(q.is_query_size));
    assert(e1 == q.entries());
}

/// Reading back a `LogQuery`: splitting its query string after '?' at each
/// '&' and looking up a field's key gives that field's text (none for an
/// unset field), provided the text fields hold no '&'.
pub proof fn lemma_log_query_read_back(q: LogQuery)
    requires
    ensures
        read_query(q.query_view(), key_is_query_size()) == opt_bool(q.is_query_size),
{
    lemma_log_query_no_amp(q);
    lemma_read_query_text(q.entries());
    lemma_log_query_lookup(q, key_is_query_size());
}

/// Two `LogQuery` values with the same query string agree on every field
/// (string fields by their text), provided their text fields hold no '&'.
pub proof fn lemma_log_query_str_determines_query(a: LogQuery, b: LogQuery)
    requires
        a.query_view() == b.query_view(),
    ensures
        a.is_query_size == b.is_query_size,
{
    lemma_log_query_read_back(a);
    lemma_log_query_read_back(b);
    if let (Some(x), Some(y)) = (a.is_query_size, b.is_query_size) {
        lemma_bool_text(x, y);
    }
}

} // verus!
