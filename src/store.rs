//! An in-memory event log with the store's operations: append a row, list the
//! most recent events, look one up by identity, count open events per
//! severity. Rows are kept newest first.
use vstd::prelude::*;
use crate::analyzer::{StorageRow, row_for, stored_snapshot};
use crate::control::{Response, ResponseData, shows, snapshot_of};
use crate::event::{Event, StoredEvent, severity_label};

verus! {

/// Timestamps never increase along the sequence.
pub open spec fn newest_first(s: Seq<StoredEvent>) -> bool {
    forall|i: int, j: int| 0 <= i < j < s.len() ==> s[i].ts >= s[j].ts
}

/// `a` and `b` hold the same event.
pub open spec fn same_event(a: StoredEvent, b: StoredEvent) -> bool {
    &&& a.event_id@ == b.event_id@
    &&& a.ts == b.ts
    &&& a.severity@ == b.severity@
    &&& a.type_@ == b.type_@
    &&& a.service_id@ == b.service_id@
    &&& a.snapshot@ == b.snapshot@
    &&& a.status@ == b.status@
}

/// `e` is what the store keeps for `row`: the same fields, and status "open".
pub open spec fn kept_as(e: StoredEvent, row: StorageRow) -> bool {
    &&& e.event_id@ == row.event_id@
    &&& e.ts == row.ts
    &&& e.severity@ == row.severity@
    &&& e.type_@ == row.type_@
    &&& e.service_id@ == row.service_id@
    &&& e.snapshot@ == row.snapshot@
    &&& e.status@ == "open"@
}

/// `after` is `before` with the row for `row` placed after every event at
/// least as recent, and before every older one.
pub open spec fn inserted(before: Seq<StoredEvent>, after: Seq<StoredEvent>, row: StorageRow) -> bool {
    exists|p: int|
        0 <= p <= before.len() && after == before.insert(p, after[p]) && kept_as(after[p], row)
            && (forall|j: int| 0 <= j < p ==> #[trigger] before[j].ts >= row.ts) && (p
            < before.len() ==> before[p].ts < row.ts)
}

/// How many events a listing with `limit` returns: all of them for a negative
/// limit, else at most `limit`.
pub open spec fn listed_count(len: nat, limit: i32) -> nat {
    if limit < 0 || limit >= len {
        len
    } else {
        limit as nat
    }
}

/// `r` is the result of looking up `id` in `s`: the first event with that
/// identity, or none when there is none.
pub open spec fn lookup_result(s: Seq<StoredEvent>, id: Seq<char>, r: Option<StoredEvent>) -> bool {
    match r {
        Some(e) => exists|i: int|
            0 <= i < s.len() && s[i].event_id@ == id && same_event(e, s[i]) && forall|j: int|
                0 <= j < i ==> (#[trigger] s[j].event_id@) != id,
        None => forall|i: int| 0 <= i < s.len() ==> (#[trigger] s[i].event_id@) != id,
    }
}

/// Number of open events of a severity among the first `n` of `s`.
pub open spec fn open_count(s: Seq<StoredEvent>, severity: Seq<char>, n: int) -> nat
    decreases n,
{
    if n <= 0 {
        0
    } else {
        open_count(s, severity, n - 1) + if s[n - 1].severity@ == severity && s[n - 1].status@
            == "open"@ {
            1nat
        } else {
            0nat
        }
    }
}

/// A count as the store reports it (it stops at `i64::MAX`).
pub open spec fn reported(n: nat) -> i64 {
    if n > i64::MAX {
        i64::MAX
    } else {
        n as i64
    }
}

impl StoredEvent {
    /// A copy of this event.
    pub fn duplicate(&self) -> (r: StoredEvent)
        ensures
            same_event(r, *self),
    {
        let snapshot = self.snapshot.clone();
        assert(snapshot@ =~= self.snapshot@);
        StoredEvent {
            event_id: self.event_id.clone(),
            ts: self.ts,
            severity: self.severity.clone(),
            type_: self.type_.clone(),
            service_id: self.service_id.clone(),
            snapshot,
            status: self.status.clone(),
        }
    }
}

pub struct EventLog {
    rows: Vec<StoredEvent>,
}

impl View for EventLog {
    type V = Seq<StoredEvent>;

    closed spec fn view(&self) -> Seq<StoredEvent> {
        self.rows@
    }
}

impl EventLog {
    /// The log's invariant: newest first.
    pub open spec fn wf(&self) -> bool {
        newest_first(self@)
    }

    pub fn new() -> (r: EventLog)
        ensures
            r.wf(),
            r@ == Seq::<StoredEvent>::empty(),
    {
        EventLog { rows: Vec::new() }
    }

    pub fn len(&self) -> (r: usize)
        ensures
            r == self@.len(),
    {
        self.rows.len()
    }

    /// Appends the event of a row, open, after every event at least as recent.
    pub fn insert_event(&mut self, row: StorageRow)
        requires
            old(self).wf(),
        ensures
            final(self).wf(),
            inserted(old(self)@, final(self)@, row),
    {
        let ghost before = self.rows@;
        let ghost row_ts = row.ts;
        let mut p: usize = 0;
        while p < self.rows.len() && self.rows[p].ts >= row.ts
            invariant
                p <= self.rows@.len(),
                self.rows@ == before,
                forall|j: int| 0 <= j < p ==> #[trigger] before[j].ts >= row.ts,
            decreases self.rows@.len() - p,
        {
            p = p + 1;
        }
        let kept = StoredEvent {
            event_id: row.event_id,
            ts: row.ts,
            severity: row.severity,
            type_: row.type_,
            service_id: row.service_id,
            snapshot: row.snapshot,
            status: String::from_str("open"),
        };
        self.rows.insert(p, kept);
        proof {
            let after = self.rows@;
            assert(after[p as int] == kept);
            assert(after == before.insert(p as int, after[p as int]));
            assert forall|i: int, j: int| 0 <= i < j < after.len() implies after[i].ts
                >= after[j].ts by {
                if j < p {
                    assert(after[i] == before[i] && after[j] == before[j]);
                } else if j == p {
                    assert(after[i] == before[i]);
                } else if i < p {
                    assert(after[i] == before[i] && after[j] == before[j - 1]);
                    assert(before[p as int].ts < row_ts);
                } else if i == p {
                    assert(after[j] == before[j - 1]);
                    assert(before[p as int].ts < row_ts);
                } else {
                    assert(after[i] == before[i - 1] && after[j] == before[j - 1]);
                }
            }
        }
    }

    /// The `limit` most recent events, newest first (all of them for a
    /// negative limit).
    pub fn get_recent_events(&self, limit: i32) -> (r: Vec<StoredEvent>)
        requires
            self.wf(),
        ensures
            r@.len() == listed_count(self@.len(), limit),
            forall|j: int| 0 <= j < r@.len() ==> same_event(#[trigger] r@[j], self@[j]),
            newest_first(r@),
    {
        let n: usize = if limit < 0 || limit as usize >= self.rows.len() {
            self.rows.len()
        } else {
            limit as usize
        };
        let mut out: Vec<StoredEvent> = Vec::new();
        let mut i: usize = 0;
        while i < n
            invariant
                n <= self.rows@.len(),
                i <= n,
                out@.len() == i,
                forall|j: int| 0 <= j < i ==> same_event(#[trigger] out@[j], self.rows@[j]),
            decreases n - i,
        {
            out.push(self.rows[i].duplicate());
            i = i + 1;
        }
        proof {
            assert forall|a: int, b: int| 0 <= a < b < out@.len() implies out@[a].ts
                >= out@[b].ts by {
                assert(same_event(out@[a], self.rows@[a]));
                assert(same_event(out@[b], self.rows@[b]));
            }
        }
        out
    }

    /// The first event with identity `id`, if any.
    pub fn get_event_by_id(&self, id: &str) -> (r: Option<StoredEvent>)
        ensures
            lookup_result(self@, id@, r),
    {
        let wanted = String::from_str(id);
        let mut i: usize = 0;
        while i < self.rows.len()
            invariant
                i <= self.rows@.len(),
                wanted@ == id@,
                forall|j: int| 0 <= j < i ==> (#[trigger] self.rows@[j].event_id@) != id@,
            decreases self.rows@.len() - i,
        {
            if self.rows[i].event_id == wanted {
                let e = self.rows[i].duplicate();
                assert(same_event(e, self@[i as int]));
                return Some(e);
            }
            i = i + 1;
        }
        None
    }

    /// Open events per severity: (critical, warning, info).
    pub fn get_event_counts(&self) -> (r: (i64, i64, i64))
        ensures
            r.0 == reported(open_count(self@, "CRITICAL"@, self@.len() as int)),
            r.1 == reported(open_count(self@, "WARNING"@, self@.len() as int)),
            r.2 == reported(open_count(self@, "INFO"@, self@.len() as int)),
    {
        let critical = String::from_str("CRITICAL");
        let warning = String::from_str("WARNING");
        let info = String::from_str("INFO");
        let open = String::from_str("open");
        proof {
            reveal_strlit("CRITICAL");
            reveal_strlit("WARNING");
            reveal_strlit("INFO");
            assert("CRITICAL"@.len() != "WARNING"@.len());
            assert("CRITICAL"@.len() != "INFO"@.len());
            assert("WARNING"@.len() != "INFO"@.len());
        }
        let mut c: i64 = 0;
        let mut w: i64 = 0;
        let mut n: i64 = 0;
        let mut i: usize = 0;
        while i < self.rows.len()
            invariant
                i <= self.rows@.len(),
                critical@ == "CRITICAL"@,
                warning@ == "WARNING"@,
                info@ == "INFO"@,
                open@ == "open"@,
                "CRITICAL"@ != "WARNING"@,
                "CRITICAL"@ != "INFO"@,
                "WARNING"@ != "INFO"@,
                c == reported(open_count(self.rows@, "CRITICAL"@, i as int)),
                w == reported(open_count(self.rows@, "WARNING"@, i as int)),
                n == reported(open_count(self.rows@, "INFO"@, i as int)),
            decreases self.rows@.len() - i,
        {
            let e = &self.rows[i];
            if e.status == open {
                if e.severity == critical {
                    if c < i64::MAX {
                        c = c + 1;
                    }
                } else if e.severity == warning {
                    if w < i64::MAX {
                        w = w + 1;
                    }
                } else if e.severity == info {
                    if n < i64::MAX {
                        n = n + 1;
                    }
                }
            }
            i = i + 1;
        }
        (c, w, n)
    }
}

/// An event that the analyzer path stores under a fresh identity, and that
/// `show` then looks up by that identity, is shown as open with the same
/// identity, severity and category, and with the snapshot read back from the
/// bytes stored for it.
pub proof fn lemma_round_trip(
    event: Event,
    row: StorageRow,
    before: Seq<StoredEvent>,
    after: Seq<StoredEvent>,
    found: Option<StoredEvent>,
    shown: Response,
)
    requires
        row_for(event, row),
        forall|i: int| 0 <= i < before.len() ==> (#[trigger] before[i].event_id@) != event.event_id@,
        inserted(before, after, row),
        lookup_result(after, event.event_id@, found),
        shows(event.event_id@, Ok::<Option<StoredEvent>, String>(found), shown),
    ensures
        shown.success,
        match shown.data {
            ResponseData::Detail(d) => {
                &&& d.event_id@ == event.event_id@
                &&& d.severity@ == severity_label(event.severity)
                &&& d.type_@ == event.type_@
                &&& d.status@ == "open"@
                &&& d.snapshot == snapshot_of(stored_snapshot(event))
            },
            _ => false,
        },
{
    let id = event.event_id@;
    let p = choose|p: int|
        0 <= p <= before.len() && after == before.insert(p, after[p]) && kept_as(after[p], row)
            && (forall|j: int| 0 <= j < p ==> #[trigger] before[j].ts >= row.ts) && (p
            < before.len() ==> before[p].ts < row.ts);
    assert(after[p].event_id@ == id);
    match found {
        Some(e) => {
            let i = choose|i: int|
                0 <= i < after.len() && after[i].event_id@ == id && same_event(e, after[i])
                    && forall|j: int| 0 <= j < i ==> (#[trigger] after[j].event_id@) != id;
            if i < p {
                assert(after[i] == before[i]);
            } else if i > p {
                assert(after[p].event_id@ != id);
            }
            assert(i == p);
        },
        None => {
            assert(after[p].event_id@ != id);
        },
    }
}

} // verus!
