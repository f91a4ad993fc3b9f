//! Query objects of the history, point, transport and log services, and
//! their rendering as URL query strings.

use vstd::prelude::*;
use crate::text::{
    bool_text, decimal, entry, new_query, opt_bool, opt_string, opt_u32, opt_u64, push_bool_entry,
    push_text_entry, push_u64_entry, query_text, with_entry,
};

verus! {

/// Query of historical measurements, events, results or alarms.
///
/// `id` holds point ids separated by ','; `start` and `end` are timestamps
/// in milliseconds; `date` is a day written `yyyy-MM-dd`. Where only one of
/// `start` and `end` is set, the range runs to the end or from the start of
/// that day; where `start`/`end` and `date` are both set, `start`/`end` win.
#[derive(PartialEq, Clone, Debug)]
pub struct HisQuery {
    pub id: Option<String>,
    pub start: Option<u64>,
    pub end: Option<u64>,
    pub date: Option<String>,
    pub source: Option<u32>,
    pub last_only: Option<bool>,
    pub with_init: Option<bool>,
}

/// Query of the results of set-point commands.
#[derive(Clone, Debug)]
pub struct HisSetPointQuery {
    pub sender_id: Option<u64>,
    pub point_id: Option<u64>,
    pub start: Option<u64>,
    pub end: Option<u64>,
    pub date: Option<String>,
}

/// Query of AOE models; `id` holds ids separated by ','.
#[derive(Clone, Debug)]
pub struct AoeQuery {
    pub id: Option<String>,
}

/// Query of measurement points by ids (separated by ',') or by name.
#[derive(Clone, Debug)]
pub struct PointsQuery {
    pub id: Option<String>,
    pub name: Option<String>,
}

/// The kind of a transport channel.
#[derive(Clone, Copy, Debug, PartialEq, Eq)]
pub enum TransportType {
    ModbusTcpClient,
    ModbusTcpServer,
    ModbusRtuClient,
    ModbusRtuServer,
    DLT645Client,
    Mqtt,
    Iec104Client,
    Iec104Server,
    HYMqtt,
    Unknown,
}

/// Query of transport channels by ids (separated by ',') or by kind.
#[derive(Clone, Debug)]
pub struct TransportQuery {
    pub id: Option<String>,
    pub transport_type: Option<TransportType>,
}

/// Query of the log files, or only of their size.
#[derive(Clone, Debug)]
pub struct LogQuery {
    pub is_query_size: Option<bool>,
}

/// The key of the `id` field.
pub open spec fn key_id() -> Seq<char> {
    seq!['i', 'd']
}

/// The key of the `start` field.
pub open spec fn key_start() -> Seq<char> {
    seq!['s', 't', 'a', 'r', 't']
}

/// The key of the `end` field.
pub open spec fn key_end() -> Seq<char> {
    seq!['e', 'n', 'd']
}

/// The key of the `date` field.
pub open spec fn key_date() -> Seq<char> {
    seq!['d', 'a', 't', 'e']
}

/// The key of the `source` field.
pub open spec fn key_source() -> Seq<char> {
    seq!['s', 'o', 'u', 'r', 'c', 'e']
}

/// The key of the `last_only` field.
pub open spec fn key_last_only() -> Seq<char> {
    seq!['l', 'a', 's', 't', '_', 'o', 'n', 'l', 'y']
}

/// The key of the `with_init` field.
pub open spec fn key_with_init() -> Seq<char> {
    seq!['w', 'i', 't', 'h', '_', 'i', 'n', 'i', 't']
}

/// The key of the `point_id` field.
pub open spec fn key_point_id() -> Seq<char> {
    seq!['p', 'o', 'i', 'n', 't', '_', 'i', 'd']
}

/// The key of the `sender_id` field.
pub open spec fn key_sender_id() -> Seq<char> {
    seq!['s', 'e', 'n', 'd', 'e', 'r', '_', 'i', 'd']
}

/// The key of the `name` field.
pub open spec fn key_name() -> Seq<char> {
    seq!['n', 'a', 'm', 'e']
}

/// The key of the `is_query_size` field.
pub open spec fn key_is_query_size() -> Seq<char> {
    seq!['i', 's', '_', 'q', 'u', 'e', 'r', 'y', '_', 's', 'i', 'z', 'e']
}

impl HisQuery {
    /// The `key=value` entries of the set fields, in the order id, start,
    /// end, date, source, last_only, with_init.
    pub open spec fn entries(self) -> Seq<Seq<char>> {
        let e = Seq::empty();
        let e = with_entry(e, key_id(), opt_string(self.id));
        let e = with_entry(e, key_start(), opt_u64(self.start));
        let e = with_entry(e, key_end(), opt_u64(self.end));
        let e = with_entry(e, key_date(), opt_string(self.date));
        let e = with_entry(e, key_source(), opt_u32(self.source));
        let e = with_entry(e, key_last_only(), opt_bool(self.last_only));
        with_entry(e, key_with_init(), opt_bool(self.with_init))
    }

    /// The query string: '?' and then the entries joined by '&'.
    pub open spec fn query_view(self) -> Seq<char> {
        query_text(self.entries())
    }

    /// The URL query string of this query: '?' and then the entries of the
    /// set fields joined by '&' (just "?" when no field is set).
    pub fn query_str(&self) -> (res: String)
        ensures
            res@ == self.query_view(),
    {
        let mut out = new_query();
        let mut any: bool = false;
        let ghost mut e: Seq<Seq<char>> = Seq::empty();
        if let Some(ids) = &self.id {
            proof {
                reveal_strlit("id");
                assert("id"@ =~= key_id());
            }
            push_text_entry(&mut out, &mut any, "id", ids.as_str(), Ghost(e));
            proof { e = e.push(entry(key_id(), ids@)); }
        }
        assert(e == with_entry(Seq::empty(), key_id(), opt_string(self.id)));
        if let Some(start) = self.start {
            proof {
                reveal_strlit("start");
                assert("start"@ =~= key_start());
            }
            push_u64_entry(&mut out, &mut any, "start", start, Ghost(e));
            proof { e = e.push(entry(key_start(), decimal(start as nat))); }
        }
        if let Some(end) = self.end {
            proof {
                reveal_strlit("end");
                assert("end"@ =~= key_end());
            }
            push_u64_entry(&mut out, &mut any, "end", end, Ghost(e));
            proof { e = e.push(entry(key_end(), decimal(end as nat))); }
        }
        if let Some(date) = &self.date {
            proof {
                reveal_strlit("date");
                assert("date"@ =~= key_date());
            }
            push_text_entry(&mut out, &mut any, "date", date.as_str(), Ghost(e));
            proof { e = e.push(entry(key_date(), date@)); }
        }
        if let Some(source) = self.source {
            proof {
                reveal_strlit("source");
                assert("source"@ =~= key_source());
            }
            push_u64_entry(&mut out, &mut any, "source", source as u64, Ghost(e));
            proof { e = e.push(entry(key_source(), decimal(source as nat))); }
        }
        if let Some(last_only) = self.last_only {
            proof {
                reveal_strlit("last_only");
                assert("last_only"@ =~= key_last_only());
            }
            push_bool_entry(&mut out, &mut any, "last_only", last_only, Ghost(e));
            proof { e = e.push(entry(key_last_only(), bool_text(last_only))); }
        }
        if let Some(with_init) = self.with_init {
            proof {
                reveal_strlit("with_init");
                assert("with_init"@ =~= key_with_init());
            }
            push_bool_entry(&mut out, &mut any, "with_init", with_init, Ghost(e));
            proof { e = e.push(entry(key_with_init(), bool_text(with_init))); }
        }
        assert(e == self.entries());
        out
    }
}

impl HisSetPointQuery {
    /// The `key=value` entries of the set fields, in the order point_id,
    /// sender_id, start, end, date.
    pub open spec fn entries(self) -> Seq<Seq<char>> {
        let e = Seq::empty();
        let e = with_entry(e, key_point_id(), opt_u64(self.point_id));
        let e = with_entry(e, key_sender_id(), opt_u64(self.sender_id));
        let e = with_entry(e, key_start(), opt_u64(self.start));
        let e = with_entry(e, key_end(), opt_u64(self.end));
        with_entry(e, key_date(), opt_string(self.date))
    }

    /// The query string: '?' and then the entries joined by '&'.
    pub open spec fn query_view(self) -> Seq<char> {
        query_text(self.entries())
    }

    /// The URL query string of this query: '?' and then the entries of the
    /// set fields joined by '&' (just "?" when no field is set).
    pub fn query_str(&self) -> (res: String)
        ensures
            res@ == self.query_view(),
    {
        let mut out = new_query();
        let mut any: bool = false;
        let ghost mut e: Seq<Seq<char>> = Seq::empty();
        if let Some(point_id) = self.point_id {
            proof {
                reveal_strlit("point_id");
                assert("point_id"@ =~= key_point_id());
            }
            push_u64_entry(&mut out, &mut any, "point_id", point_id, Ghost(e));
            proof { e = e.push(entry(key_point_id(), decimal(point_id as nat))); }
        }
        if let Some(sender) = self.sender_id {
            proof {
                reveal_strlit("sender_id");
                assert("sender_id"@ =~= key_sender_id());
            }
            push_u64_entry(&mut out, &mut any, "sender_id", sender, Ghost(e));
            proof { e = e.push(entry(key_sender_id(), decimal(sender as nat))); }
        }
        if let Some(start) = self.start {
            proof {
                reveal_strlit("start");
                assert("start"@ =~= key_start());
            }
            push_u64_entry(&mut out, &mut any, "start", start, Ghost(e));
            proof { e = e.push(entry(key_start(), decimal(start as nat))); }
        }
        if let Some(end) = self.end {
            proof {
                reveal_strlit("end");
                assert("end"@ =~= key_end());
            }
            push_u64_entry(&mut out, &mut any, "end", end, Ghost(e));
            proof { e = e.push(entry(key_end(), decimal(end as nat))); }
        }
        if let Some(date) = &self.date {
            proof {
                reveal_strlit("date");
                assert("date"@ =~= key_date());
            }
            push_text_entry(&mut out, &mut any, "date", date.as_str(), Ghost(e));
            proof { e = e.push(entry(key_date(), date@)); }
        }
        assert(e == self.entries());
        out
    }
}

impl PointsQuery {
    /// The `key=value` entries of the set fields, in the order id, name.
    pub open spec fn entries(self) -> Seq<Seq<char>> {
        let e = with_entry(Seq::empty(), key_id(), opt_string(self.id));
        with_entry(e, key_name(), opt_string(self.name))
    }

    /// The query string: '?' and then the entries joined by '&'.
    pub open spec fn query_view(self) -> Seq<char> {
        query_text(self.entries())
    }

    /// The URL query string of this query: '?' and then the entries of the
    /// set fields joined by '&' (just "?" when no field is set).
    pub fn query_str(&self) -> (res: String)
        ensures
            res@ == self.query_view(),
    {
        let mut out = new_query();
        let mut any: bool = false;
        let ghost mut e: Seq<Seq<char>> = Seq::empty();
        if let Some(ids) = &self.id {
            proof {
                reveal_strlit("id");
                assert("id"@ =~= key_id());
            }
            push_text_entry(&mut out, &mut any, "id", ids.as_str(), Ghost(e));
            proof { e = e.push(entry(key_id(), ids@)); }
        }
        if let Some(name) = &self.name {
            proof {
                reveal_strlit("name");
                assert("name"@ =~= key_name());
            }
            push_text_entry(&mut out, &mut any, "name", name.as_str(), Ghost(e));
            proof { e = e.push(entry(key_name(), name@)); }
        }
        assert(e == self.entries());
        out
    }
}

impl LogQuery {
    /// The `key=value` entries of the set fields: is_query_size, if set.
    pub open spec fn entries(self) -> Seq<Seq<char>> {
        with_entry(Seq::empty(), key_is_query_size(), opt_bool(self.is_query_size))
    }

    /// The query string: that of the entries when the field is set, else
    /// the empty text.
    pub open spec fn query_view(self) -> Seq<char> {
        if self.is_query_size is Some {
            query_text(self.entries())
        } else {
            Seq::empty()
        }
    }

    /// The URL query string of this query: "?is_query_size=true" or
    /// "?is_query_size=false" when the field is set, else the empty string.
    pub fn query_str(&self) -> (res: String)
        ensures
            res@ == self.query_view(),
    {
        if let Some(b) = self.is_query_size {
            let mut out = new_query();
            let mut any: bool = false;
            proof {
                reveal_strlit("is_query_size");
                assert("is_query_size"@ =~= key_is_query_size());
            }
            push_bool_entry(&mut out, &mut any, "is_query_size", b, Ghost(Seq::empty()));
            out
        } else {
            let out = String::new();
            assert(out@ =~= self.query_view());
            out
        }
    }
}

} // verus!
