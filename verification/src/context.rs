use crate::headers::{header_or_empty, text_or_empty};
use crate::text::{
    lemma_before_asymmetric, lemma_before_irreflexive, lemma_before_transitive, place, precedes,
    Place,
};
use axum::http::header::HeaderMap;
use std::time::Instant;
use vstd::prelude::*;
use vstd::utf8::encode_utf8;

pub use crate::headers::extract_header;

verus! {

/// `std::time::Instant`, a mark on the monotonic clock, carried along as it is.
#[verifier::external_type_specification]
#[verifier::external_body]
pub struct ExInstant(Instant);

/// What a diagnostic key can stand for: a text or a count.
#[derive(Clone, Debug, PartialEq, Eq)]
pub enum Value {
    Text(String),
    Number(u64),
}

/// A `Value` with its text as a sequence of characters.
pub ghost enum Datum {
    Text(Seq<char>),
    Number(u64),
}

impl View for Value {
    type V = Datum;

    open spec fn view(&self) -> Datum {
        match self {
            Value::Text(s) => Datum::Text(s@),
            Value::Number(n) => Datum::Number(*n),
        }
    }
}

/// The entries of a vector of keys and values, each as a pair of views.
pub open spec fn entries_of(v: Seq<(String, Value)>) -> Seq<(Seq<char>, Datum)> {
    Seq::new(v.len(), |i: int| (v[i].0@, v[i].1@))
}

/// Whether the keys of a sequence of entries ascend strictly, in the order that
/// `String` has. No key then occurs twice.
pub open spec fn ascending(s: Seq<(Seq<char>, Datum)>) -> bool {
    forall|i: int, j: int| 0 <= i < j < s.len() ==> precedes(#[trigger] s[i].0, #[trigger] s[j].0)
}

/// The entries `s` with `value` put under `key`: in the place of the entry that has
/// this key, where there is one, else in front of the first entry with a later key,
/// else at the end.
pub open spec fn placed(s: Seq<(Seq<char>, Datum)>, key: Seq<char>, value: Datum) -> Seq<
    (Seq<char>, Datum),
>
    decreases s.len(),
{
    if s.len() == 0 {
        seq![(key, value)]
    } else if s[0].0 == key {
        seq![(key, value)] + s.drop_first()
    } else if precedes(key, s[0].0) {
        seq![(key, value)] + s
    } else {
        seq![s[0]] + placed(s.drop_first(), key, value)
    }
}

/// The value of the first entry of `s` under `key`.
pub open spec fn lookup(s: Seq<(Seq<char>, Datum)>, key: Seq<char>) -> Option<Datum>
    decreases s.len(),
{
    if s.len() == 0 {
        None
    } else if s[0].0 == key {
        Some(s[0].1)
    } else {
        lookup(s.drop_first(), key)
    }
}

/// The last write wins: after `value` is put under `key`, that key stands for
/// `value`, and every other key stands for what it stood for before.
pub proof fn lemma_lookup_placed(
    s: Seq<(Seq<char>, Datum)>,
    key: Seq<char>,
    value: Datum,
    other: Seq<char>,
)
    ensures
        lookup(placed(s, key, value), other) == if other == key {
            Some(value)
        } else {
            lookup(s, other)
        },
    decreases s.len(),
{
    let t = placed(s, key, value);
    if s.len() == 0 {
        assert(t.drop_first() =~= s);
    } else if s[0].0 == key {
        assert(t.drop_first() =~= s.drop_first());
    } else if precedes(key, s[0].0) {
        assert(t.drop_first() =~= s);
    } else {
        lemma_lookup_placed(s.drop_first(), key, value, other);
        assert(t.drop_first() =~= placed(s.drop_first(), key, value));
    }
}

/// Every entry of ascending entries from the first on has a key that comes after
/// a key that comes before the first.
proof fn lemma_before_all(s: Seq<(Seq<char>, Datum)>, key: Seq<char>, j: int)
    requires
        ascending(s),
        0 <= j < s.len(),
        precedes(key, s[0].0),
    ensures
        precedes(key, s[j].0),
{
    if j > 0 {
        lemma_before_transitive(encode_utf8(key), encode_utf8(s[0].0), encode_utf8(s[j].0));
    }
}

/// The entries of a request's diagnostics, kept in the ascending order of their keys.
#[derive(Debug)]
pub struct Diagnostics {
    entries: Vec<(String, Value)>,
}

impl View for Diagnostics {
    type V = Seq<(Seq<char>, Datum)>;

    closed spec fn view(&self) -> Seq<(Seq<char>, Datum)> {
        entries_of(self.entries@)
    }
}

impl Diagnostics {
    #[verifier::type_invariant]
    closed spec fn ordered(self) -> bool {
        ascending(self@)
    }

    /// Diagnostics without an entry.
    pub fn new() -> (r: Diagnostics)
        ensures
            r@ == Seq::<(Seq<char>, Datum)>::empty(),
    {
        Diagnostics { entries: Vec::new() }
    }

    /// The entries, in the ascending order of their keys.
    pub fn entries(&self) -> (r: &Vec<(String, Value)>)
        ensures
            entries_of(r@) == self@,
            ascending(self@),
    {
        proof {
            use_type_invariant(self);
        }
        &self.entries
    }

    /// The value that stands under `key`.
    pub fn get(&self, key: &str) -> (r: Option<&Value>)
        ensures
            match r {
                Some(v) => lookup(self@, key@) == Some(v@),
                None => lookup(self@, key@) is None,
            },
    {
        let mut i: usize = 0;
        assert(self@.skip(0) =~= self@);
        while i < self.entries.len()
            invariant
                i <= self.entries.len(),
                self@ == entries_of(self.entries@),
                lookup(self@, key@) == lookup(self@.skip(i as int), key@),
            decreases self.entries.len() - i,
        {
            assert(self@.skip(i as int).drop_first() =~= self@.skip(i as int + 1));
            if place(key, self.entries[i].0.as_str()) == Place::Same {
                return Some(&self.entries[i].1);
            }
            i += 1;
        }
        None
    }

    /// Puts `value` under `key`: over the value that stood there, or as a new entry
    /// at the place that the order of the keys gives it.
    pub fn insert(&mut self, key: &str, value: Value)
        ensures
            final(self)@ == placed(old(self)@, key@, value@),
    {
        proof {
            use_type_invariant(&*self);
        }
        let mut taken = Diagnostics::new();
        std::mem::swap(self, &mut taken);
        let entries = put(taken.entries, key, value);
        *self = Diagnostics { entries };
    }
}

/// Puts `value` under `key` in a vector of entries whose keys ascend.
fn put(given: Vec<(String, Value)>, key: &str, value: Value) -> (r: Vec<(String, Value)>)
    requires
        ascending(entries_of(given@)),
    ensures
        entries_of(r@) == placed(entries_of(given@), key@, value@),
        ascending(entries_of(r@)),
{
    let mut entries = given;
    let ghost start = entries_of(entries@);
    let mut i: usize = 0;
    assert(start.skip(0) =~= start);
    while i < entries.len()
        invariant
            i <= entries.len(),
            ascending(start),
            start == entries_of(entries@),
            start == entries_of(given@),
            forall|j: int| 0 <= j < i ==> precedes(#[trigger] start[j].0, key@),
            placed(start, key@, value@) == start.take(i as int) + placed(
                start.skip(i as int),
                key@,
                value@,
            ),
        decreases entries.len() - i,
    {
        let ghost tail = start.skip(i as int);
        assert(tail.drop_first() =~= start.skip(i as int + 1));
        match place(key, entries[i].0.as_str()) {
            Place::Before => {
                entries.insert(i, (key.to_owned(), value));
                let ghost now = entries_of(entries@);
                proof {
                    lemma_before_irreflexive(encode_utf8(key@));
                    assert forall|a: int, b: int| 0 <= a < b < now.len() implies precedes(
                        #[trigger] now[a].0,
                        #[trigger] now[b].0,
                    ) by {
                        if b == i {
                            assert(now[a] == start[a]);
                        } else if a == i {
                            assert(ascending(tail));
                            lemma_before_all(tail, key@, b - i - 1);
                        } else if b < i {
                            assert(now[a] == start[a] && now[b] == start[b]);
                        } else if a < i {
                            assert(now[a] == start[a] && now[b] == start[b - 1]);
                        } else {
                            assert(now[a] == start[a - 1] && now[b] == start[b - 1]);
                        }
                    }
                }
                return entries;
            },
            Place::Same => {
                entries.set(i, (key.to_owned(), value));
                let ghost now = entries_of(entries@);
                proof {
                    assert(now =~= start.take(i as int) + (seq![(key@, value@)]
                        + tail.drop_first()));
                    assert(ascending(now));
                }
                return entries;
            },
            Place::After => {
                proof {
                    lemma_before_asymmetric(encode_utf8(tail[0].0), encode_utf8(key@));
                    lemma_before_irreflexive(encode_utf8(key@));
                    assert(start.take(i as int) + (seq![tail[0]] + placed(
                        tail.drop_first(),
                        key@,
                        value@,
                    )) =~= start.take(i as int + 1) + placed(
                        start.skip(i as int + 1),
                        key@,
                        value@,
                    ));
                }
                i += 1;
            },
        }
    }
    entries.push((key.to_owned(), value));
    let ghost now = entries_of(entries@);
    proof {
        assert forall|a: int, b: int| 0 <= a < b < now.len() implies precedes(
            #[trigger] now[a].0,
            #[trigger] now[b].0,
        ) by {
            assert(now[a] == start[a]);
            if b < start.len() {
                assert(now[b] == start[b]);
            }
        }
    }
    entries
}

/// `Instant::now`: a mark on the monotonic clock.
#[verifier::external_body]
fn clock_now() -> (r: Instant) {
    Instant::now()
}

/// `Instant::elapsed` in whole milliseconds: the time that went by since the mark.
#[verifier::external_body]
fn clock_elapsed_millis(start: &Instant) -> (r: u128) {
    start.elapsed().as_millis()
}

/// What one request carries along for its log record.
#[derive(Debug)]
pub struct ReqContext {
    /// The id that the request came with, empty where it came with none.
    pub rid: String,
    /// When the context was made, in milliseconds since the Unix epoch.
    pub unix_ms: u64,
    /// When the context was made, on the monotonic clock.
    pub start: Instant,
    /// What the stages of the request have recorded.
    pub kv: Diagnostics,
}

impl ReqContext {
    /// A context for the request with the id `rid`, made at the given times, with
    /// nothing recorded.
    pub fn at(rid: &str, unix_ms: u64, start: Instant) -> (r: ReqContext)
        ensures
            r.rid@ == rid@,
            r.unix_ms == unix_ms,
            r.start == start,
            r.kv@ == Seq::<(Seq<char>, Datum)>::empty(),
    {
        ReqContext { rid: rid.to_owned(), unix_ms, start, kv: Diagnostics::new() }
    }

    /// A context for the request with the id `rid`, with nothing recorded. It is
    /// made now: `unix_ms` is what the caller has just read off the wall clock, in
    /// milliseconds since the Unix epoch, and the mark on the monotonic clock is
    /// taken here.
    pub fn new(rid: &str, unix_ms: u64) -> (r: ReqContext)
        ensures
            r.rid@ == rid@,
            r.unix_ms == unix_ms,
            r.kv@ == Seq::<(Seq<char>, Datum)>::empty(),
    {
        let start = clock_now();
        ReqContext::at(rid, unix_ms, start)
    }

    /// Records `value` under `key`; a value recorded there before gives way. The
    /// exclusive borrow keeps two writers of one request apart.
    pub fn set(&mut self, key: &str, value: Value)
        ensures
            final(self).kv@ == placed(old(self).kv@, key@, value@),
            final(self).rid == old(self).rid,
            final(self).unix_ms == old(self).unix_ms,
            final(self).start == old(self).start,
    {
        self.kv.insert(key, value);
    }
}

/// The first line of a request as the log shows it.
#[derive(Debug)]
pub struct RequestLine {
    pub method: String,
    pub uri: String,
    pub version: String,
}

/// The one record that is logged for a request.
#[derive(Debug)]
pub struct LogRecord {
    pub method: String,
    pub uri: String,
    pub version: String,
    pub rid: String,
    pub status: u16,
    /// When the request came in, in milliseconds since the Unix epoch.
    pub start: u64,
    /// How long the request took, in milliseconds.
    pub elapsed: u64,
    pub kv: Diagnostics,
}

/// A request on its way through the logging stage: coming in, at a time that the
/// caller has read off the wall clock in milliseconds since the Unix epoch, or
/// going out with the status of its response.
#[derive(Debug)]
pub enum Passage<'a> {
    Enter { line: RequestLine, headers: &'a HeaderMap, unix_ms: u64 },
    Leave { line: RequestLine, ctx: ReqContext, status: u16 },
}

/// What the logging stage does with a request: it lets it go on with a context, or
/// it writes the record.
#[derive(Debug)]
pub enum Stage {
    Inside { line: RequestLine, ctx: ReqContext },
    Logged(LogRecord),
}

/// The record of a request that took `elapsed_millis` milliseconds, of which the
/// low 64 bits are kept.
pub fn log_record(line: RequestLine, ctx: ReqContext, status: u16, elapsed_millis: u128) -> (r:
    LogRecord)
    ensures
        r.method == line.method,
        r.uri == line.uri,
        r.version == line.version,
        r.rid == ctx.rid,
        r.status == status,
        r.start == ctx.unix_ms,
        r.elapsed == elapsed_millis as u64,
        r.kv == ctx.kv,
{
    LogRecord {
        method: line.method,
        uri: line.uri,
        version: line.version,
        rid: ctx.rid,
        status,
        start: ctx.unix_ms,
        elapsed: #[verifier::truncate] (elapsed_millis as u64),
        kv: ctx.kv,
    }
}

/// The logging stage around a request. A request that comes in gets a context with
/// the id of its `X-Request-Id` field, the time it came in and nothing recorded;
/// one that goes out gives the record of its line, its id, the status of its
/// response, the time it came in and all that was recorded for it.
pub fn middleware(passage: Passage) -> (r: Stage)
    ensures
        match passage {
            Passage::Enter { line, headers, unix_ms } => {
                &&& r matches Stage::Inside { line: l, ctx }
                &&& l == line
                &&& ctx.rid@ == text_or_empty(*headers, "x-request-id"@)
                &&& ctx.unix_ms == unix_ms
                &&& ctx.kv@ == Seq::<(Seq<char>, Datum)>::empty()
            },
            Passage::Leave { line, ctx, status } => {
                &&& r matches Stage::Logged(record)
                &&& record.method == line.method
                &&& record.uri == line.uri
                &&& record.version == line.version
                &&& record.rid == ctx.rid
                &&& record.status == status
                &&& record.start == ctx.unix_ms
                &&& record.kv == ctx.kv
            },
        },
{
    match passage {
        Passage::Enter { line, headers, unix_ms } => {
            let rid = header_or_empty(headers, "x-request-id");
            let ctx = ReqContext::new(rid.as_str(), unix_ms);
            Stage::Inside { line, ctx }
        },
        Passage::Leave { line, ctx, status } => {
            let elapsed = clock_elapsed_millis(&ctx.start);
            Stage::Logged(log_record(line, ctx, status, elapsed))
        },
    }
}

} // verus!
