//! Laws of the query strings, stated over the fields of the queries and
//! the text of the strings themselves.

use vstd::prelude::*;
use crate::query::{
    HisQuery, HisSetPointQuery, LogQuery, PointsQuery, key_date, key_end, key_id,
    key_is_query_size, key_last_only, key_name, key_point_id, key_sender_id, key_source,
    key_start, key_with_init,
};
use crate::text::{
    bool_text, decimal, entry, join_amp, lemma_join_amp_push, opt_bool, opt_string, opt_u32,
    opt_u64, query_text, with_entry,
};

verus! {

/// The text `s` does not end with '&'.
pub open spec fn no_trailing_amp(s: Seq<char>) -> bool {
    s.len() > 0 ==> s.last() != '&'
}

/// Entries that are not empty and do not end with '&'.
spec fn entries_end_well(entries: Seq<Seq<char>>) -> bool {
    forall|i: int|
        0 <= i < entries.len() ==> (#[trigger] entries[i]).len() > 0 && entries[i].last() != '&'
}

/// Joined entries end as the last entry does.
proof fn lemma_join_amp_last(entries: Seq<Seq<char>>)
    requires
        entries.len() > 0,
        entries.last().len() > 0,
    ensures
        join_amp(entries).len() > 0,
        join_amp(entries).last() == entries.last().last(),
{
    if entries.len() > 1 {
        let a = join_amp(entries.drop_last()) + seq!['&'];
        assert(join_amp(entries) == a + entries.last());
        assert((a + entries.last()).last() == entries.last().last());
    }
}

/// A query string of entries that end well does not end with '&'.
proof fn lemma_query_text_end(entries: Seq<Seq<char>>)
    requires
        entries_end_well(entries),
    ensures
        query_text(entries).len() > 0,
        query_text(entries)[0] == '?',
        query_text(entries).last() != '&',
{
    if entries.len() > 0 {
        assert(entries[entries.len() - 1].len() > 0);
        lemma_join_amp_last(entries);
        assert(query_text(entries).last() == join_amp(entries).last());
    } else {
        assert(join_amp(entries) =~= Seq::<char>::empty());
        assert(query_text(entries) =~= seq!['?']);
    }
}

/// An optional entry whose value does not end with '&' keeps the entries
/// ending well.
proof fn lemma_with_entry_end(entries: Seq<Seq<char>>, k: Seq<char>, v: Option<Seq<char>>)
    requires
        entries_end_well(entries),
        v matches Some(t) ==> no_trailing_amp(t),
    ensures
        entries_end_well(with_entry(entries, k, v)),
{
    if let Some(t) = v {
        let e = entry(k, t);
        if t.len() > 0 {
            assert(e.last() == t.last());
        } else {
            assert(e.last() == '=');
        }
        let es = entries.push(e);
        assert forall|i: int| 0 <= i < es.len() implies (#[trigger] es[i]).len() > 0
            && es[i].last() != '&' by {
            if i < entries.len() {
                assert(es[i] == entries[i]);
            }
        }
    }
}

proof fn lemma_decimal_end(n: nat)
    ensures
        no_trailing_amp(decimal(n)),
{
    crate::readback::lemma_decimal_no_amp(n);
    if decimal(n).len() > 0 {
        assert(decimal(n).last() == decimal(n)[decimal(n).len() - 1]);
    }
}

proof fn lemma_bool_end(b: bool)
    ensures
        no_trailing_amp(bool_text(b)),
{
}

/// No entry is empty.
spec fn entries_nonempty(entries: Seq<Seq<char>>) -> bool {
    forall|i: int| 0 <= i < entries.len() ==> (#[trigger] entries[i]).len() > 0
}

/// An optional entry keeps the entries nonempty.
proof fn lemma_with_entry_nonempty(entries: Seq<Seq<char>>, k: Seq<char>, v: Option<Seq<char>>)
    requires
        entries_nonempty(entries),
    ensures
        entries_nonempty(with_entry(entries, k, v)),
{
    if let Some(t) = v {
        let es = entries.push(entry(k, t));
        assert forall|i: int| 0 <= i < es.len() implies (#[trigger] es[i]).len() > 0 by {
            if i < entries.len() {
                assert(es[i] == entries[i]);
            }
        }
    }
}

/// A query string of nonempty entries is longer than "?" exactly when it
/// holds an entry.
proof fn lemma_query_text_len(entries: Seq<Seq<char>>)
    requires
        entries_nonempty(entries),
    ensures
        query_text(entries).len() > 1 <==> entries.len() > 0,
{
    if entries.len() > 0 {
        assert(entries[entries.len() - 1].len() > 0);
        lemma_join_amp_last(entries);
    } else {
        assert(join_amp(entries) =~= Seq::<char>::empty());
    }
}

/// An entry after others is set off by '&'.
proof fn lemma_query_text_push(entries: Seq<Seq<char>>, e: Seq<char>)
    requires
        entries_nonempty(entries),
    ensures
        query_text(entries.push(e)) == query_text(entries) + (if query_text(entries).len() > 1 {
            seq!['&']
        } else {
            Seq::<char>::empty()
        }) + e,
{
    lemma_query_text_len(entries);
    lemma_join_amp_push(entries, e);
    if entries.len() == 0 {
        assert(join_amp(entries) =~= Seq::<char>::empty());
    }
    assert(query_text(entries.push(e)) =~= query_text(entries) + (if query_text(entries).len()
        > 1 {
        seq!['&']
    } else {
        Seq::<char>::empty()
    }) + e);
}

proof fn lemma_his_query_entries_end(q: HisQuery)
    requires
        q.id matches Some(s) ==> no_trailing_amp(s@),
        q.date matches Some(s) ==> no_trailing_amp(s@),
    ensures
        entries_end_well(q.entries()),
{
    let e0 = Seq::<Seq<char>>::empty();
    let e1 = with_entry(e0, key_id(), opt_string(q.id));
    lemma_with_entry_end(e0, key_id(), opt_string(q.id));
    if let Some(n) = q.start {
        lemma_decimal_end(n as nat);
    }
    let e2 = with_entry(e1, key_start(), opt_u64(q.start));
    lemma_with_entry_end(e1, key_start(), opt_u64(q.start));
    if let Some(n) = q.end {
        lemma_decimal_end(n as nat);
    }
    let e3 = with_entry(e2, key_end(), opt_u64(q.end));
    lemma_with_entry_end(e2, key_end(), opt_u64(q.end));
    let e4 = with_entry(e3, key_date(), opt_string(q.date));
    lemma_with_entry_end(e3, key_date(), opt_string(q.date));
    if let Some(n) = q.source {
        lemma_decimal_end(n as nat);
    }
    let e5 = with_entry(e4, key_source(), opt_u32(q.source));
    lemma_with_entry_end(e4, key_source(), opt_u32(q.source));
    if let Some(b) = q.last_only {
        lemma_bool_end(b);
    }
    let e6 = with_entry(e5, key_last_only(), opt_bool(q.last_only));
    lemma_with_entry_end(e5, key_last_only(), opt_bool(q.last_only));
    if let Some(b) = q.with_init {
        lemma_bool_end(b);
    }
    let e7 = with_entry(e6, key_with_init(), opt_bool(q.with_init));
    lemma_with_entry_end(e6, key_with_init(), opt_bool(q.with_init));
    assert(e7 == q.entries());
}

proof fn lemma_his_query_entries_end_any(q: HisQuery)
    ensures
        entries_nonempty(q.entries()),
{
    let e0 = Seq::<Seq<char>>::empty();
    let e1 = with_entry(e0, key_id(), opt_string(q.id));
    lemma_with_entry_nonempty(e0, key_id(), opt_string(q.id));
    let e2 = with_entry(e1, key_start(), opt_u64(q.start));
    lemma_with_entry_nonempty(e1, key_start(), opt_u64(q.start));
    let e3 = with_entry(e2, key_end(), opt_u64(q.end));
    lemma_with_entry_nonempty(e2, key_end(), opt_u64(q.end));
    let e4 = with_entry(e3, key_date(), opt_string(q.date));
    lemma_with_entry_nonempty(e3, key_date(), opt_string(q.date));
    let e5 = with_entry(e4, key_source(), opt_u32(q.source));
    lemma_with_entry_nonempty(e4, key_source(), opt_u32(q.source));
    let e6 = with_entry(e5, key_last_only(), opt_bool(q.last_only));
    lemma_with_entry_nonempty(e5, key_last_only(), opt_bool(q.last_only));
    let e7 = with_entry(e6, key_with_init(), opt_bool(q.with_init));
    lemma_with_entry_nonempty(e6, key_with_init(), opt_bool(q.with_init));
    assert(e7 == q.entries());
}

/// A `HisQuery` query string begins with '?' and never ends with '&', unless
/// the text of a field itself ends with '&'.
pub proof fn lemma_his_query_no_trailing_amp(q: HisQuery)
    requires
        q.id matches Some(s) ==> no_trailing_amp(s@),
        q.date matches Some(s) ==> no_trailing_amp(s@),
    ensures
        q.query_view().len() > 0,
        q.query_view()[0] == '?',
        q.query_view().last() != '&',
{
    lemma_his_query_entries_end(q);
    lemma_query_text_end(q.entries());
}

proof fn lemma_his_query_empty()
    ensures
        (HisQuery {
            id: None,
            start: None,
            end: None,
            date: None,
            source: None,
            last_only: None,
            with_init: None,
        }).query_view() == "?"@,
{
    reveal_strlit("?");
    assert((HisQuery {
        id: None,
        start: None,
        end: None,
        date: None,
        source: None,
        last_only: None,
        with_init: None,
    }).entries() =~= Seq::<Seq<char>>::empty());
    assert(join_amp(Seq::<Seq<char>>::empty()) =~= Seq::<char>::empty());
    assert((HisQuery {
        id: None,
        start: None,
        end: None,
        date: None,
        source: None,
        last_only: None,
        with_init: None,
    }).query_view() =~= "?"@);
}

proof fn lemma_his_query_append_id(q: HisQuery)
    ensures
        (q.id is Some
            && q.start is None
            && q.end is None
            && q.date is None
            && q.source is None
            && q.last_only is None
            && q.with_init is None)
            ==> q.query_view() == (HisQuery { id: None, ..q }).query_view()
            + (if (HisQuery { id: None, ..q }).query_view().len() > 1 {
                "&"@
            } else {
                Seq::<char>::empty()
            })
            + "id="@ + q.id.unwrap()@,
{
    if q.id is Some
        && q.start is None
        && q.end is None
        && q.date is None
        && q.source is None
        && q.last_only is None
        && q.with_init is None
    {
        let qf = HisQuery { id: None, ..q };
        reveal_strlit("id=");
        reveal_strlit("&");
        assert("id="@ =~= key_id() + seq!['=']);
        assert("&"@ =~= seq!['&']);
        let v = q.id.unwrap()@;
        assert(q.entries() =~= qf.entries().push(entry(key_id(), v)));
        lemma_his_query_entries_end_any(qf);
        lemma_query_text_push(qf.entries(), entry(key_id(), v));
        assert(q.query_view() =~= qf.query_view() + (if qf.query_view().len() > 1 {
            "&"@
        } else {
            Seq::<char>::empty()
        }) + "id="@ + v);
    }
}

proof fn lemma_his_query_append_start(q: HisQuery)
    ensures
        (q.start is Some
            && q.end is None
            && q.date is None
            && q.source is None
            && q.last_only is None
            && q.with_init is None)
            ==> q.query_view() == (HisQuery { start: None, ..q }).query_view()
            + (if (HisQuery { start: None, ..q }).query_view().len() > 1 {
                "&"@
            } else {
                Seq::<char>::empty()
            })
            + "start="@ + decimal(q.start.unwrap() as nat),
{
    if q.start is Some
        && q.end is None
        && q.date is None
        && q.source is None
        && q.last_only is None
        && q.with_init is None
    {
        let qf = HisQuery { start: None, ..q };
        reveal_strlit("start=");
        reveal_strlit("&");
        assert("start="@ =~= key_start() + seq!['=']);
        assert("&"@ =~= seq!['&']);
        let v = decimal(q.start.unwrap() as nat);
        assert(q.entries() =~= qf.entries().push(entry(key_start(), v)));
        lemma_his_query_entries_end_any(qf);
        lemma_query_text_push(qf.entries(), entry(key_start(), v));
        assert(q.query_view() =~= qf.query_view() + (if qf.query_view().len() > 1 {
            "&"@
        } else {
            Seq::<char>::empty()
        }) + "start="@ + v);
    }
}

proof fn lemma_his_query_append_end(q: HisQuery)
    ensures
        (q.end is Some
            && q.date is None
            && q.source is None
            && q.last_only is None
            && q.with_init is None)
            ==> q.query_view() == (HisQuery { end: None, ..q }).query_view()
            + (if (HisQuery { end: None, ..q }).query_view().len() > 1 {
                "&"@
            } else {
                Seq::<char>::empty()
            })
            + "end="@ + decimal(q.end.unwrap() as nat),
{
    if q.end is Some
        && q.date is None
        && q.source is None
        && q.last_only is None
        && q.with_init is None
    {
        let qf = HisQuery { end: None, ..q };
        reveal_strlit("end=");
        reveal_strlit("&");
        assert("end="@ =~= key_end() + seq!['=']);
        assert("&"@ =~= seq!['&']);
        let v = decimal(q.end.unwrap() as nat);
        assert(q.entries() =~= qf.entries().push(entry(key_end(), v)));
        lemma_his_query_entries_end_any(qf);
        lemma_query_text_push(qf.entries(), entry(key_end(), v));
        assert(q.query_view() =~= qf.query_view() + (if qf.query_view().len() > 1 {
            "&"@
        } else {
            Seq::<char>::empty()
        }) + "end="@ + v);
    }
}

proof fn lemma_his_query_append_date(q: HisQuery)
    ensures
        (q.date is Some
            && q.source is None
            && q.last_only is None
            && q.with_init is None)
            ==> q.query_view() == (HisQuery { date: None, ..q }).query_view()
            + (if (HisQuery { date: None, ..q }).query_view().len() > 1 {
                "&"@
            } else {
                Seq::<char>::empty()
            })
            + "date="@ + q.date.unwrap()@,
{
    if q.date is Some
        && q.source is None
        && q.last_only is None
        && q.with_init is None
    {
        let qf = HisQuery { date: None, ..q };
        reveal_strlit("date=");
        reveal_strlit("&");
        assert("date="@ =~= key_date() + seq!['=']);
        assert("&"@ =~= seq!['&']);
        let v = q.date.unwrap()@;
        assert(q.entries() =~= qf.entries().push(entry(key_date(), v)));
        lemma_his_query_entries_end_any(qf);
        lemma_query_text_push(qf.entries(), entry(key_date(), v));
        assert(q.query_view() =~= qf.query_view() + (if qf.query_view().len() > 1 {
            "&"@
        } else {
            Seq::<char>::empty()
        }) + "date="@ + v);
    }
}

proof fn lemma_his_query_append_source(q: HisQuery)
    ensures
        (q.source is Some
            && q.last_only is None
            && q.with_init is None)
            ==> q.query_view() == (HisQuery { source: None, ..q }).query_view()
            + (if (HisQuery { source: None, ..q }).query_view().len() > 1 {
                "&"@
            } else {
                Seq::<char>::empty()
            })
            + "source="@ + decimal(q.source.unwrap() as nat),
{
    if q.source is Some
        && q.last_only is None
        && q.with_init is None
    {
        let qf = HisQuery { source: None, ..q };
        reveal_strlit("source=");
        reveal_strlit("&");
        assert("source="@ =~= key_source() + seq!['=']);
        assert("&"@ =~= seq!['&']);
        let v = decimal(q.source.unwrap() as nat);
        assert(q.entries() =~= qf.entries().push(entry(key_source(), v)));
        lemma_his_query_entries_end_any(qf);
        lemma_query_text_push(qf.entries(), entry(key_source(), v));
        assert(q.query_view() =~= qf.query_view() + (if qf.query_view().len() > 1 {
            "&"@
        } else {
            Seq::<char>::empty()
        }) + "source="@ + v);
    }
}

proof fn lemma_his_query_append_last_only(q: HisQuery)
    ensures
        (q.last_only is Some
            && q.with_init is None)
            ==> q.query_view() == (HisQuery { last_only: None, ..q }).query_view()
            + (if (HisQuery { last_only: None, ..q }).query_view().len() > 1 {
                "&"@
            } else {
                Seq::<char>::empty()
            })
            + "last_only="@ + bool_text(q.last_only.unwrap()),
{
    if q.last_only is Some
        && q.with_init is None
    {
        let qf = HisQuery { last_only: None, ..q };
        reveal_strlit("last_only=");
        reveal_strlit("&");
        assert("last_only="@ =~= key_last_only() + seq!['=']);
        assert("&"@ =~= seq!['&']);
        let v = bool_text(q.last_only.unwrap());
        assert(q.entries() =~= qf.entries().push(entry(key_last_only(), v)));
        lemma_his_query_entries_end_any(qf);
        lemma_query_text_push(qf.entries(), entry(key_last_only(), v));
        assert(q.query_view() =~= qf.query_view() + (if qf.query_view().len() > 1 {
            "&"@
        } else {
            Seq::<char>::empty()
        }) + "last_only="@ + v);
    }
}

proof fn lemma_his_query_append_with_init(q: HisQuery)
    ensures
        (q.with_init is Some)
            ==> q.query_view() == (HisQuery { with_init: None, ..q }).query_view()
            + (if (HisQuery { with_init: None, ..q }).query_view().len() > 1 {
                "&"@
            } else {
                Seq::<char>::empty()
            })
            + "with_init="@ + bool_text(q.with_init.unwrap()),
{
    if q.with_init is Some {
        let qf = HisQuery { with_init: None, ..q };
        reveal_strlit("with_init=");
        reveal_strlit("&");
        assert("with_init="@ =~= key_with_init() + seq!['=']);
        assert("&"@ =~= seq!['&']);
        let v = bool_text(q.with_init.unwrap());
        assert(q.entries() =~= qf.entries().push(entry(key_with_init(), v)));
        lemma_his_query_entries_end_any(qf);
        lemma_query_text_push(qf.entries(), entry(key_with_init(), v));
        assert(q.query_view() =~= qf.query_view() + (if qf.query_view().len() > 1 {
            "&"@
        } else {
            Seq::<char>::empty()
        }) + "with_init="@ + v);
    }
}

/// How a `HisQuery` query string grows: with no field set it is "?"; setting
/// a field that comes after every field set so far (in the order of the
/// string) appends '&' (unless the string was just "?"), the key, '=' and
/// the field's text.
pub proof fn lemma_his_query_append_field(q: HisQuery)
    ensures
        (HisQuery {
            id: None,
            start: None,
            end: None,
            date: None,
            source: None,
            last_only: None,
            with_init: None,
        }).query_view() == "?"@,
        (q.id is Some
            && q.start is None
            && q.end is None
            && q.date is None
            && q.source is None
            && q.last_only is None
            && q.with_init is None)
            ==> q.query_view() == (HisQuery { id: None, ..q }).query_view()
            + (if (HisQuery { id: None, ..q }).query_view().len() > 1 {
                "&"@
            } else {
                Seq::<char>::empty()
            })
            + "id="@ + q.id.unwrap()@,
        (q.start is Some
            && q.end is None
            && q.date is None
            && q.source is None
            && q.last_only is None
            && q.with_init is None)
            ==> q.query_view() == (HisQuery { start: None, ..q }).query_view()
            + (if (HisQuery { start: None, ..q }).query_view().len() > 1 {
                "&"@
            } else {
                Seq::<char>::empty()
            })
            + "start="@ + decimal(q.start.unwrap() as nat),
        (q.end is Some
            && q.date is None
            && q.source is None
            && q.last_only is None
            && q.with_init is None)
            ==> q.query_view() == (HisQuery { end: None, ..q }).query_view()
            + (if (HisQuery { end: None, ..q }).query_view().len() > 1 {
                "&"@
            } else {
                Seq::<char>::empty()
            })
            + "end="@ + decimal(q.end.unwrap() as nat),
        (q.date is Some
            && q.source is None
            && q.last_only is None
            && q.with_init is None)
            ==> q.query_view() == (HisQuery { date: None, ..q }).query_view()
            + (if (HisQuery { date: None, ..q }).query_view().len() > 1 {
                "&"@
            } else {
                Seq::<char>::empty()
            })
            + "date="@ + q.date.unwrap()@,
        (q.source is Some
            && q.last_only is None
            && q.with_init is None)
            ==> q.query_view() == (HisQuery { source: None, ..q }).query_view()
            + (if (HisQuery { source: None, ..q }).query_view().len() > 1 {
                "&"@
            } else {
                Seq::<char>::empty()
            })
            + "source="@ + decimal(q.source.unwrap() as nat),
        (q.last_only is Some
            && q.with_init is None)
            ==> q.query_view() == (HisQuery { last_only: None, ..q }).query_view()
            + (if (HisQuery { last_only: None, ..q }).query_view().len() > 1 {
                "&"@
            } else {
                Seq::<char>::empty()
            })
            + "last_only="@ + bool_text(q.last_only.unwrap()),
        (q.with_init is Some)
            ==> q.query_view() == (HisQuery { with_init: None, ..q }).query_view()
            + (if (HisQuery { with_init: None, ..q }).query_view().len() > 1 {
                "&"@
            } else {
                Seq::<char>::empty()
            })
            + "with_init="@ + bool_text(q.with_init.unwrap()),
{
    lemma_his_query_empty();
    lemma_his_query_append_id(q);
    lemma_his_query_append_start(q);
    lemma_his_query_append_end(q);
    lemma_his_query_append_date(q);
    lemma_his_query_append_source(q);
    lemma_his_query_append_last_only(q);
    lemma_his_query_append_with_init(q);
}

proof fn lemma_his_set_point_query_entries_end(q: HisSetPointQuery)
    requires
        q.date matches Some(s) ==> no_trailing_amp(s@),
    ensures
        entries_end_well(q.entries()),
{
    let e0 = Seq::<Seq<char>>::empty();
    if let Some(n) = q.point_id {
        lemma_decimal_end(n as nat);
    }
    let e1 = with_entry(e0, key_point_id(), opt_u64(q.point_id));
    lemma_with_entry_end(e0, key_point_id(), opt_u64(q.point_id));
    if let Some(n) = q.sender_id {
        lemma_decimal_end(n as nat);
    }
    let e2 = with_entry(e1, key_sender_id(), opt_u64(q.sender_id));
    lemma_with_entry_end(e1, key_sender_id(), opt_u64(q.sender_id));
    if let Some(n) = q.start {
        lemma_decimal_end(n as nat);
    }
    let e3 = with_entry(e2, key_start(), opt_u64(q.start));
    lemma_with_entry_end(e2, key_start(), opt_u64(q.start));
    if let Some(n) = q.end {
        lemma_decimal_end(n as nat);
    }
    let e4 = with_entry(e3, key_end(), opt_u64(q.end));
    lemma_with_entry_end(e3, key_end(), opt_u64(q.end));
    let e5 = with_entry(e4, key_date(), opt_string(q.date));
    lemma_with_entry_end(e4, key_date(), opt_string(q.date));
    assert(e5 == q.entries());
}

proof fn lemma_his_set_point_query_entries_end_any(q: HisSetPointQuery)
    ensures
        entries_nonempty(q.entries()),
{
    let e0 = Seq::<Seq<char>>::empty();
    let e1 = with_entry(e0, key_point_id(), opt_u64(q.point_id));
    lemma_with_entry_nonempty(e0, key_point_id(), opt_u64(q.point_id));
    let e2 = with_entry(e1, key_sender_id(), opt_u64(q.sender_id));
    lemma_with_entry_nonempty(e1, key_sender_id(), opt_u64(q.sender_id));
    let e3 = with_entry(e2, key_start(), opt_u64(q.start));
    lemma_with_entry_nonempty(e2, key_start(), opt_u64(q.start));
    let e4 = with_entry(e3, key_end(), opt_u64(q.end));
    lemma_with_entry_nonempty(e3, key_end(), opt_u64(q.end));
    let e5 = with_entry(e4, key_date(), opt_string(q.date));
    lemma_with_entry_nonempty(e4, key_date(), opt_string(q.date));
    assert(e5 == q.entries());
}

/// A `HisSetPointQuery` query string begins with '?' and never ends with '&', unless
/// the text of a field itself ends with '&'.
pub proof fn lemma_his_set_point_query_no_trailing_amp(q: HisSetPointQuery)
    requires
        q.date matches Some(s) ==> no_trailing_amp(s@),
    ensures
        q.query_view().len() > 0,
        q.query_view()[0] == '?',
        q.query_view().last() != '&',
{
    lemma_his_set_point_query_entries_end(q);
    lemma_query_text_end(q.entries());
}

proof fn lemma_his_set_point_query_empty()
    ensures
        (HisSetPointQuery {
            sender_id: None,
            point_id: None,
            start: None,
            end: None,
            date: None,
        }).query_view() == "?"@,
{
    reveal_strlit("?");
    assert((HisSetPointQuery {
        sender_id: None,
        point_id: None,
        start: None,
        end: None,
        date: None,
    }).entries() =~= Seq::<Seq<char>>::empty());
    assert(join_amp(Seq::<Seq<char>>::empty()) =~= Seq::<char>::empty());
    assert((HisSetPointQuery {
        sender_id: None,
        point_id: None,
        start: None,
        end: None,
        date: None,
    }).query_view() =~= "?"@);
}

proof fn lemma_his_set_point_query_append_point_id(q: HisSetPointQuery)
    ensures
        (q.point_id is Some
            && q.sender_id is None
            && q.start is None
            && q.end is None
            && q.date is None)
            ==> q.query_view() == (HisSetPointQuery { point_id: None, ..q }).query_view()
            + (if (HisSetPointQuery { point_id: None, ..q }).query_view().len() > 1 {
                "&"@
            } else {
                Seq::<char>::empty()
            })
            + "point_id="@ + decimal(q.point_id.unwrap() as nat),
{
    if q.point_id is Some
        && q.sender_id is None
        && q.start is None
        && q.end is None
        && q.date is None
    {
        let qf = HisSetPointQuery { point_id: None, ..q };
        reveal_strlit("point_id=");
        reveal_strlit("&");
        assert("point_id="@ =~= key_point_id() + seq!['=']);
        assert("&"@ =~= seq!['&']);
        let v = decimal(q.point_id.unwrap() as nat);
        assert(q.entries() =~= qf.entries().push(entry(key_point_id(), v)));
        lemma_his_set_point_query_entries_end_any(qf);
        lemma_query_text_push(qf.entries(), entry(key_point_id(), v));
        assert(q.query_view() =~= qf.query_view() + (if qf.query_view().len() > 1 {
            "&"@
        } else {
            Seq::<char>::empty()
        }) + "point_id="@ + v);
    }
}

proof fn lemma_his_set_point_query_append_sender_id(q: HisSetPointQuery)
    ensures
        (q.sender_id is Some
            && q.start is None
            && q.end is None
            && q.date is None)
            ==> q.query_view() == (HisSetPointQuery { sender_id: None, ..q }).query_view()
            + (if (HisSetPointQuery { sender_id: None, ..q }).query_view().len() > 1 {
                "&"@
            } else {
                Seq::<char>::empty()
            })
            + "sender_id="@ + decimal(q.sender_id.unwrap() as nat),
{
    if q.sender_id is Some
        && q.start is None
        && q.end is None
        && q.date is None
    {
        let qf = HisSetPointQuery { sender_id: None, ..q };
        reveal_strlit("sender_id=");
        reveal_strlit("&");
        assert("sender_id="@ =~= key_sender_id() + seq!['=']);
        assert("&"@ =~= seq!['&']);
        let v = decimal(q.sender_id.unwrap() as nat);
        assert(q.entries() =~= qf.entries().push(entry(key_sender_id(), v)));
        lemma_his_set_point_query_entries_end_any(qf);
        lemma_query_text_push(qf.entries(), entry(key_sender_id(), v));
        assert(q.query_view() =~= qf.query_view() + (if qf.query_view().len() > 1 {
            "&"@
        } else {
            Seq::<char>::empty()
        }) + "sender_id="@ + v);
    }
}

proof fn lemma_his_set_point_query_append_start(q: HisSetPointQuery)
    ensures
        (q.start is Some
            && q.end is None
            && q.date is None)
            ==> q.query_view() == (HisSetPointQuery { start: None, ..q }).query_view()
            + (if (HisSetPointQuery { start: None, ..q }).query_view().len() > 1 {
                "&"@
            } else {
                Seq::<char>::empty()
            })
            + "start="@ + decimal(q.start.unwrap() as nat),
{
    if q.start is Some
        && q.end is None
        && q.date is None
    {
        let qf = HisSetPointQuery { start: None, ..q };
        reveal_strlit("start=");
        reveal_strlit("&");
        assert("start="@ =~= key_start() + seq!['=']);
        assert("&"@ =~= seq!['&']);
        let v = decimal(q.start.unwrap() as nat);
        assert(q.entries() =~= qf.entries().push(entry(key_start(), v)));
        lemma_his_set_point_query_entries_end_any(qf);
        lemma_query_text_push(qf.entries(), entry(key_start(), v));
        assert(q.query_view() =~= qf.query_view() + (if qf.query_view().len() > 1 {
            "&"@
        } else {
            Seq::<char>::empty()
        }) + "start="@ + v);
    }
}

proof fn lemma_his_set_point_query_append_end(q: HisSetPointQuery)
    ensures
        (q.end is Some
            && q.date is None)
            ==> q.query_view() == (HisSetPointQuery { end: None, ..q }).query_view()
            + (if (HisSetPointQuery { end: None, ..q }).query_view().len() > 1 {
                "&"@
            } else {
                Seq::<char>::empty()
            })
            + "end="@ + decimal(q.end.unwrap() as nat),
{
    if q.end is Some
        && q.date is None
    {
        let qf = HisSetPointQuery { end: None, ..q };
        reveal_strlit("end=");
        reveal_strlit("&");
        assert("end="@ =~= key_end() + seq!['=']);
        assert("&"@ =~= seq!['&']);
        let v = decimal(q.end.unwrap() as nat);
        assert(q.entries() =~= qf.entries().push(entry(key_end(), v)));
        lemma_his_set_point_query_entries_end_any(qf);
        lemma_query_text_push(qf.entries(), entry(key_end(), v));
        assert(q.query_view() =~= qf.query_view() + (if qf.query_view().len() > 1 {
            "&"@
        } else {
            Seq::<char>::empty()
        }) + "end="@ + v);
    }
}

proof fn lemma_his_set_point_query_append_date(q: HisSetPointQuery)
    ensures
        (q.date is Some)
            ==> q.query_view() == (HisSetPointQuery { date: None, ..q }).query_view()
            + (if (HisSetPointQuery { date: None, ..q }).query_view().len() > 1 {
                "&"@
            } else {
                Seq::<char>::empty()
            })
            + "date="@ + q.date.unwrap()@,
{
    if q.date is Some {
        let qf = HisSetPointQuery { date: None, ..q };
        reveal_strlit("date=");
        reveal_strlit("&");
        assert("date="@ =~= key_date() + seq!['=']);
        assert("&"@ =~= seq!['&']);
        let v = q.date.unwrap()@;
        assert(q.entries() =~= qf.entries().push(entry(key_date(), v)));
        lemma_his_set_point_query_entries_end_any(qf);
        lemma_query_text_push(qf.entries(), entry(key_date(), v));
        assert(q.query_view() =~= qf.query_view() + (if qf.query_view().len() > 1 {
            "&"@
        } else {
            Seq::<char>::empty()
        }) + "date="@ + v);
    }
}

/// How a `HisSetPointQuery` query string grows: with no field set it is "?"; setting
/// a field that comes after every field set so far (in the order of the
/// string) appends '&' (unless the string was just "?"), the key, '=' and
/// the field's text.
pub proof fn lemma_his_set_point_query_append_field(q: HisSetPointQuery)
    ensures
        (HisSetPointQuery {
            sender_id: None,
            point_id: None,
            start: None,
            end: None,
            date: None,
        }).query_view() == "?"@,
        (q.point_id is Some
            && q.sender_id is None
            && q.start is None
            && q.end is None
            && q.date is None)
            ==> q.query_view() == (HisSetPointQuery { point_id: None, ..q }).query_view()
            + (if (HisSetPointQuery { point_id: None, ..q }).query_view().len() > 1 {
                "&"@
            } else {
                Seq::<char>::empty()
            })
            + "point_id="@ + decimal(q.point_id.unwrap() as nat),
        (q.sender_id is Some
            && q.start is None
            && q.end is None
            && q.date is None)
            ==> q.query_view() == (HisSetPointQuery { sender_id: None, ..q }).query_view()
            + (if (HisSetPointQuery { sender_id: None, ..q }).query_view().len() > 1 {
                "&"@
            } else {
                Seq::<char>::empty()
            })
            + "sender_id="@ + decimal(q.sender_id.unwrap() as nat),
        (q.start is Some
            && q.end is None
            && q.date is None)
            ==> q.query_view() == (HisSetPointQuery { start: None, ..q }).query_view()
            + (if (HisSetPointQuery { start: None, ..q }).query_view().len() > 1 {
                "&"@
            } else {
                Seq::<char>::empty()
            })
            + "start="@ + decimal(q.start.unwrap() as nat),
        (q.end is Some
            && q.date is None)
            ==> q.query_view() == (HisSetPointQuery { end: None, ..q }).query_view()
            + (if (HisSetPointQuery { end: None, ..q }).query_view().len() > 1 {
                "&"@
            } else {
                Seq::<char>::empty()
            })
            + "end="@ + decimal(q.end.unwrap() as nat),
        (q.date is Some)
            ==> q.query_view() == (HisSetPointQuery { date: None, ..q }).query_view()
            + (if (HisSetPointQuery { date: None, ..q }).query_view().len() > 1 {
                "&"@
            } else {
                Seq::<char>::empty()
            })
            + "date="@ + q.date.unwrap()@,
{
    lemma_his_set_point_query_empty();
    lemma_his_set_point_query_append_point_id(q);
    lemma_his_set_point_query_append_sender_id(q);
    lemma_his_set_point_query_append_start(q);
    lemma_his_set_point_query_append_end(q);
    lemma_his_set_point_query_append_date(q);
}

proof fn lemma_points_query_entries_end(q: PointsQuery)
    requires
        q.id matches Some(s) ==> no_trailing_amp(s@),
        q.name matches Some(s) ==> no_trailing_amp(s@),
    ensures
        entries_end_well(q.entries()),
{
    let e0 = Seq::<Seq<char>>::empty();
    let e1 = with_entry(e0, key_id(), opt_string(q.id));
    lemma_with_entry_end(e0, key_id(), opt_string(q.id));
    let e2 = with_entry(e1, key_name(), opt_string(q.name));
    lemma_with_entry_end(e1, key_name(), opt_string(q.name));
    assert(e2 == q.entries());
}

proof fn lemma_points_query_entries_end_any(q: PointsQuery)
    ensures
        entries_nonempty(q.entries()),
{
    let e0 = Seq::<Seq<char>>::empty();
    let e1 = with_entry(e0, key_id(), opt_string(q.id));
    lemma_with_entry_nonempty(e0, key_id(), opt_string(q.id));
    let e2 = with_entry(e1, key_name(), opt_string(q.name));
    lemma_with_entry_nonempty(e1, key_name(), opt_string(q.name));
    assert(e2 == q.entries());
}

/// A `PointsQuery` query string begins with '?' and never ends with '&', unless
/// the text of a field itself ends with '&'.
pub proof fn lemma_points_query_no_trailing_amp(q: PointsQuery)
    requires
        q.id matches Some(s) ==> no_trailing_amp(s@),
        q.name matches Some(s) ==> no_trailing_amp(s@),
    ensures
        q.query_view().len() > 0,
        q.query_view()[0] == '?',
        q.query_view().last() != '&',
{
    lemma_points_query_entries_end(q);
    lemma_query_text_end(q.entries());
}

proof fn lemma_points_query_empty()
    ensures
        (PointsQuery { id: None, name: None }).query_view() == "?"@,
{
    reveal_strlit("?");
    assert((PointsQuery { id: None, name: None }).entries() =~= Seq::<Seq<char>>::empty());
    assert(join_amp(Seq::<Seq<char>>::empty()) =~= Seq::<char>::empty());
    assert((PointsQuery { id: None, name: None }).query_view() =~= "?"@);
}

proof fn lemma_points_query_append_id(q: PointsQuery)
    ensures
        (q.id is Some
            && q.name is None)
            ==> q.query_view() == (PointsQuery { id: None, ..q }).query_view()
            + (if (PointsQuery { id: None, ..q }).query_view().len() > 1 {
                "&"@
            } else {
                Seq::<char>::empty()
            })
            + "id="@ + q.id.unwrap()@,
{
    if q.id is Some
        && q.name is None
    {
        let qf = PointsQuery { id: None, ..q };
        reveal_strlit("id=");
        reveal_strlit("&");
        assert("id="@ =~= key_id() + seq!['=']);
        assert("&"@ =~= seq!['&']);
        let v = q.id.unwrap()@;
        assert(q.entries() =~= qf.entries().push(entry(key_id(), v)));
        lemma_points_query_entries_end_any(qf);
        lemma_query_text_push(qf.entries(), entry(key_id(), v));
        assert(q.query_view() =~= qf.query_view() + (if qf.query_view().len() > 1 {
            "&"@
        } else {
            Seq::<char>::empty()
        }) + "id="@ + v);
    }
}

proof fn lemma_points_query_append_name(q: PointsQuery)
    ensures
        (q.name is Some)
            ==> q.query_view() == (PointsQuery { name: None, ..q }).query_view()
            + (if (PointsQuery { name: None, ..q }).query_view().len() > 1 {
                "&"@
            } else {
                Seq::<char>::empty()
            })
            + "name="@ + q.name.unwrap()@,
{
    if q.name is Some {
        let qf = PointsQuery { name: None, ..q };
        reveal_strlit("name=");
        reveal_strlit("&");
        assert("name="@ =~= key_name() + seq!['=']);
        assert("&"@ =~= seq!['&']);
        let v = q.name.unwrap()@;
        assert(q.entries() =~= qf.entries().push(entry(key_name(), v)));
        lemma_points_query_entries_end_any(qf);
        lemma_query_text_push(qf.entries(), entry(key_name(), v));
        assert(q.query_view() =~= qf.query_view() + (if qf.query_view().len() > 1 {
            "&"@
        } else {
            Seq::<char>::empty()
        }) + "name="@ + v);
    }
}

/// How a `PointsQuery` query string grows: with no field set it is "?"; setting
/// a field that comes after every field set so far (in the order of the
/// string) appends '&' (unless the string was just "?"), the key, '=' and
/// the field's text.
pub proof fn lemma_points_query_append_field(q: PointsQuery)
    ensures
        (PointsQuery { id: None, name: None }).query_view() == "?"@,
        (q.id is Some
            && q.name is None)
            ==> q.query_view() == (PointsQuery { id: None, ..q }).query_view()
            + (if (PointsQuery { id: None, ..q }).query_view().len() > 1 {
                "&"@
            } else {
                Seq::<char>::empty()
            })
            + "id="@ + q.id.unwrap()@,
        (q.name is Some)
            ==> q.query_view() == (PointsQuery { name: None, ..q }).query_view()
            + (if (PointsQuery { name: None, ..q }).query_view().len() > 1 {
                "&"@
            } else {
                Seq::<char>::empty()
            })
            + "name="@ + q.name.unwrap()@,
{
    lemma_points_query_empty();
    lemma_points_query_append_id(q);
    lemma_points_query_append_name(q);
}

/// The query string of a `LogQuery`: "?is_query_size=" and the flag when it
/// is set, the empty text when it is not.
pub proof fn lemma_log_query_text(q: LogQuery)
    ensures
        q.is_query_size is None ==> q.query_view() == Seq::<char>::empty(),
        q.is_query_size is Some ==> q.query_view() == "?is_query_size="@ + bool_text(
            q.is_query_size.unwrap(),
        ),
{
    reveal_strlit("?is_query_size=");
    if let Some(b) = q.is_query_size {
        assert("?is_query_size="@ =~= seq!['?'] + key_is_query_size() + seq!['=']);
        let es = q.entries();
        assert(es =~= seq![entry(key_is_query_size(), bool_text(b))]);
        assert(join_amp(es) == es[0]);
        assert(q.query_view() =~= "?is_query_size="@ + bool_text(b));
    }
}

} // verus!
