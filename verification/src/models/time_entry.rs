//! Entries of tracked time.

use vstd::prelude::*;

use crate::ident::ObjectId;
use crate::store::{
    lemma_put_one_more, lemma_put_part, put_all, set_all, Change, Owned, Patch, Record,
};
use crate::values::{sent, fill_or_keep, set_or_keep, Number, Timestamp};

verus! {

#[derive(Debug, Clone, PartialEq, Eq)]
pub struct TimeEntry {
    pub id: Option<ObjectId>,
    pub user_id: ObjectId,
    pub project_id: Option<ObjectId>,
    pub description: String,
    pub start_time: Timestamp,
    pub end_time: Option<Timestamp>,
    /// Whole seconds from start to end, fixed when the entry is stopped.
    pub duration: Option<i64>,
    pub is_billable: bool,
    pub hourly_rate: Option<Number>,
    pub created_at: Timestamp,
    pub updated_at: Timestamp,
}

#[derive(Debug, Clone, PartialEq, Eq)]
pub struct CreateTimeEntryRequest {
    pub project_id: Option<String>,
    pub description: String,
    pub start_time: Timestamp,
    pub is_billable: Option<bool>,
    pub hourly_rate: Option<Number>,
}

#[derive(Debug, Clone, Copy, PartialEq, Eq, Structural)]
pub struct StopTimeEntryRequest {
    pub end_time: Timestamp,
}

/// A partial update: a field that is `None` was not sent.
#[derive(Debug, Clone, PartialEq, Eq)]
pub struct UpdateTimeEntryRequest {
    pub description: Option<String>,
    pub start_time: Option<Timestamp>,
    pub end_time: Option<Timestamp>,
    pub is_billable: Option<bool>,
    pub hourly_rate: Option<Number>,
}

/// The whole seconds from `start` to `end`; a part of a second is
/// dropped, towards zero.
pub open spec fn whole_seconds(start: Timestamp, end: Timestamp) -> int {
    if end >= start {
        (end - start) / 1000
    } else {
        -((start - end) / 1000)
    }
}

/// The whole seconds from `start` to `end`.
pub fn seconds_between(start: Timestamp, end: Timestamp) -> (seconds: i64)
    ensures
        seconds == whole_seconds(start, end),
{
    if end >= start {
        let span: i128 = end as i128 - start as i128;
        (span / 1000) as i64
    } else {
        let span: i128 = start as i128 - end as i128;
        -((span / 1000) as i64)
    }
}

impl View for TimeEntry {
    type V = TimeEntry;

    open spec fn view(&self) -> TimeEntry {
        *self
    }
}

impl Record for TimeEntry {
    open spec fn id_of(v: TimeEntry) -> Option<ObjectId> {
        v.id
    }

    open spec fn with_id(v: TimeEntry, id: ObjectId) -> TimeEntry {
        TimeEntry { id: Some(id), ..v }
    }

    proof fn lemma_with_id(v: TimeEntry, id: ObjectId) {
    }

    fn key(&self) -> (k: Option<ObjectId>) {
        self.id
    }

    fn set_key(&mut self, id: ObjectId) {
        self.id = Some(id);
    }

    fn duplicate(&self) -> (copy: Self) {
        TimeEntry {
            id: self.id,
            user_id: self.user_id,
            project_id: self.project_id,
            description: self.description.clone(),
            start_time: self.start_time,
            end_time: self.end_time,
            duration: self.duration,
            is_billable: self.is_billable,
            hourly_rate: self.hourly_rate,
            created_at: self.created_at,
            updated_at: self.updated_at,
        }
    }
}

impl Owned for TimeEntry {
    open spec fn owner_of(v: TimeEntry) -> ObjectId {
        v.user_id
    }

    proof fn lemma_with_id_keeps_owner(v: TimeEntry, id: ObjectId) {
    }

    fn owner_key(&self) -> (k: ObjectId) {
        self.user_id
    }
}

impl TimeEntry {
    /// The record that a request to create an entry describes, once the
    /// project it may name has been read as `project_id`. A new entry is
    /// running: it has no end and no duration. It is billable unless the
    /// request says otherwise.
    pub open spec fn described(
        owner: ObjectId,
        project_id: Option<ObjectId>,
        payload: CreateTimeEntryRequest,
        now: Timestamp,
    ) -> TimeEntry {
        TimeEntry {
            id: None,
            user_id: owner,
            project_id,
            description: payload.description,
            start_time: payload.start_time,
            end_time: None,
            duration: None,
            is_billable: set_or_keep(payload.is_billable, true),
            hourly_rate: payload.hourly_rate,
            created_at: now,
            updated_at: now,
        }
    }

    pub fn new(
        owner: ObjectId,
        project_id: Option<ObjectId>,
        payload: CreateTimeEntryRequest,
        now: Timestamp,
    ) -> (entry: TimeEntry)
        ensures
            entry == TimeEntry::described(owner, project_id, payload, now),
    {
        TimeEntry {
            id: None,
            user_id: owner,
            project_id,
            description: payload.description,
            start_time: payload.start_time,
            end_time: None,
            duration: None,
            is_billable: match payload.is_billable {
                Some(b) => b,
                None => true,
            },
            hourly_rate: payload.hourly_rate,
            created_at: now,
            updated_at: now,
        }
    }
}

impl StopTimeEntryRequest {
    /// The changes that stopping asks for, for an entry that started
    /// at `start_time`: the end, the duration from that start to the
    /// end, and the time of the change.
    pub fn changes(self, start_time: Timestamp, now: Timestamp) -> (changes: Vec<TimeEntryChange>)
        ensures
            changes@ == seq![
                TimeEntryChange::EndTime(self.end_time),
                TimeEntryChange::Duration(whole_seconds(start_time, self.end_time) as i64),
                TimeEntryChange::UpdatedAt(now),
            ],
            forall|v: TimeEntry|
                v.start_time == start_time ==> #[trigger] put_all::<TimeEntry, TimeEntryChange>(
                    changes@,
                    v,
                ) == self.applied(v, now),
    {
        let mut out: Vec<TimeEntryChange> = Vec::new();
        let end = TimeEntryChange::EndTime(self.end_time);
        let span = TimeEntryChange::Duration(seconds_between(start_time, self.end_time));
        let at = TimeEntryChange::UpdatedAt(now);
        out.push(end);
        out.push(span);
        out.push(at);
        proof {
            assert forall|v: TimeEntry| v.start_time == start_time implies #[trigger] put_all::<
                TimeEntry,
                TimeEntryChange,
            >(out@, v) == self.applied(v, now) by {
                let none = Seq::<TimeEntryChange>::empty();
                lemma_put_one_more::<TimeEntry, TimeEntryChange>(none, end, v);
                lemma_put_one_more::<TimeEntry, TimeEntryChange>(none.push(end), span, v);
                lemma_put_one_more::<TimeEntry, TimeEntryChange>(none.push(end).push(span), at, v);
                assert(none.push(end).push(span).push(at) =~= out@);
            }
            assert(out@ =~= seq![end, span, at]);
        }
        out
    }
}

impl Patch<TimeEntry> for StopTimeEntryRequest {
    /// Stopping sets the end and fixes the duration from the start that
    /// the entry has at that moment.
    open spec fn applied(self, v: TimeEntry, now: Timestamp) -> TimeEntry {
        TimeEntry {
            end_time: Some(self.end_time),
            duration: Some(whole_seconds(v.start_time, self.end_time) as i64),
            updated_at: now,
            ..v
        }
    }

    proof fn lemma_applied_keeps_identity(self, v: TimeEntry, now: Timestamp) {
    }

    fn apply(self, doc: &mut TimeEntry, now: Timestamp) {
        let changes = self.changes(doc.start_time, now);
        set_all(&changes, doc);
    }
}

/// One field of an entry set to a new value.
#[derive(Debug, Clone, PartialEq, Eq)]
pub enum TimeEntryChange {
    Description(String),
    StartTime(Timestamp),
    EndTime(Timestamp),
    IsBillable(bool),
    HourlyRate(Number),
    Duration(i64),
    UpdatedAt(Timestamp),
}

impl Change<TimeEntry> for TimeEntryChange {
    open spec fn put(self, v: TimeEntry) -> TimeEntry {
        match self {
            TimeEntryChange::Description(x) => TimeEntry { description: x, ..v },
            TimeEntryChange::StartTime(x) => TimeEntry { start_time: x, ..v },
            TimeEntryChange::EndTime(x) => TimeEntry { end_time: Some(x), ..v },
            TimeEntryChange::IsBillable(x) => TimeEntry { is_billable: x, ..v },
            TimeEntryChange::HourlyRate(x) => TimeEntry { hourly_rate: Some(x), ..v },
            TimeEntryChange::Duration(x) => TimeEntry { duration: Some(x), ..v },
            TimeEntryChange::UpdatedAt(t) => TimeEntry { updated_at: t, ..v },
        }
    }

    proof fn lemma_put_keeps_identity(self, v: TimeEntry) {
    }

    fn set(&self, doc: &mut TimeEntry) {
        match self {
            TimeEntryChange::Description(x) => {
                doc.description = x.clone();
            },
            TimeEntryChange::StartTime(x) => {
                doc.start_time = *x;
            },
            TimeEntryChange::EndTime(x) => {
                doc.end_time = Some(*x);
            },
            TimeEntryChange::IsBillable(x) => {
                doc.is_billable = *x;
            },
            TimeEntryChange::HourlyRate(x) => {
                doc.hourly_rate = Some(*x);
            },
            TimeEntryChange::Duration(x) => {
                doc.duration = Some(*x);
            },
            TimeEntryChange::UpdatedAt(t) => {
                doc.updated_at = *t;
            },
        }
    }
}

impl UpdateTimeEntryRequest {
    /// The changes that the request asks for, in the order in which
    /// they are made: the time of the change, then one change for each
    /// field that was sent.
    pub open spec fn changes_of(self, now: Timestamp) -> Seq<TimeEntryChange> {
        seq![TimeEntryChange::UpdatedAt(now)]
            + sent(self.description, |x: String| TimeEntryChange::Description(x))
            + sent(self.start_time, |x: Timestamp| TimeEntryChange::StartTime(x))
            + sent(self.end_time, |x: Timestamp| TimeEntryChange::EndTime(x))
            + sent(self.is_billable, |x: bool| TimeEntryChange::IsBillable(x))
            + sent(self.hourly_rate, |x: Number| TimeEntryChange::HourlyRate(x))
    }

    /// Made to any record, the changes give what the update gives.
    pub proof fn lemma_changes_give_the_update(self, now: Timestamp, v: TimeEntry)
        ensures
            put_all::<TimeEntry, TimeEntryChange>(self.changes_of(now), v) == self.applied(v, now),
    {
        let s0 = seq![TimeEntryChange::UpdatedAt(now)];
        lemma_put_part::<TimeEntry, TimeEntryChange>(Seq::empty(), s0, v);
        assert(Seq::<TimeEntryChange>::empty() + s0 =~= s0);
        let p1 = sent(self.description, |x: String| TimeEntryChange::Description(x));
        let s1 = s0 + p1;
        lemma_put_part::<TimeEntry, TimeEntryChange>(s0, p1, v);
        let p2 = sent(self.start_time, |x: Timestamp| TimeEntryChange::StartTime(x));
        let s2 = s1 + p2;
        lemma_put_part::<TimeEntry, TimeEntryChange>(s1, p2, v);
        let p3 = sent(self.end_time, |x: Timestamp| TimeEntryChange::EndTime(x));
        let s3 = s2 + p3;
        lemma_put_part::<TimeEntry, TimeEntryChange>(s2, p3, v);
        let p4 = sent(self.is_billable, |x: bool| TimeEntryChange::IsBillable(x));
        let s4 = s3 + p4;
        lemma_put_part::<TimeEntry, TimeEntryChange>(s3, p4, v);
        let p5 = sent(self.hourly_rate, |x: Number| TimeEntryChange::HourlyRate(x));
        let s5 = s4 + p5;
        lemma_put_part::<TimeEntry, TimeEntryChange>(s4, p5, v);
        assert(self.changes_of(now) =~= s5);
    }

    /// The changes that the request asks for: one for each field it
    /// holds, and the time of the change.
    pub fn changes(self, now: Timestamp) -> (changes: Vec<TimeEntryChange>)
        ensures
            changes@ == self.changes_of(now),
            forall|v: TimeEntry|
                #[trigger] put_all::<TimeEntry, TimeEntryChange>(changes@, v) == self.applied(v, now),
    {
        let UpdateTimeEntryRequest {
            description,
            start_time,
            end_time,
            is_billable,
            hourly_rate,
        } = self;
        let mut out: Vec<TimeEntryChange> = Vec::new();
        out.push(TimeEntryChange::UpdatedAt(now));
        let ghost so_far = seq![TimeEntryChange::UpdatedAt(now)];
        assert(out@ =~= so_far);
        if let Some(x) = description {
            out.push(TimeEntryChange::Description(x));
        }
        let ghost so_far = so_far + sent(description, |x: String| TimeEntryChange::Description(x));
        assert(out@ =~= so_far);
        if let Some(x) = start_time {
            out.push(TimeEntryChange::StartTime(x));
        }
        let ghost so_far = so_far + sent(start_time, |x: Timestamp| TimeEntryChange::StartTime(x));
        assert(out@ =~= so_far);
        if let Some(x) = end_time {
            out.push(TimeEntryChange::EndTime(x));
        }
        let ghost so_far = so_far + sent(end_time, |x: Timestamp| TimeEntryChange::EndTime(x));
        assert(out@ =~= so_far);
        if let Some(x) = is_billable {
            out.push(TimeEntryChange::IsBillable(x));
        }
        let ghost so_far = so_far + sent(is_billable, |x: bool| TimeEntryChange::IsBillable(x));
        assert(out@ =~= so_far);
        if let Some(x) = hourly_rate {
            out.push(TimeEntryChange::HourlyRate(x));
        }
        let ghost so_far = so_far + sent(hourly_rate, |x: Number| TimeEntryChange::HourlyRate(x));
        assert(out@ =~= so_far);
        proof {
            assert(so_far =~= self.changes_of(now));
            assert forall|v: TimeEntry| #[trigger]
                put_all::<TimeEntry, TimeEntryChange>(out@, v) == self.applied(v, now) by {
                self.lemma_changes_give_the_update(now, v);
            }
        }
        out
    }
}

impl Patch<TimeEntry> for UpdateTimeEntryRequest {
    /// An update never touches the duration: it stays what stopping made it.
    open spec fn applied(self, v: TimeEntry, now: Timestamp) -> TimeEntry {
        TimeEntry {
            description: set_or_keep(self.description, v.description),
            start_time: set_or_keep(self.start_time, v.start_time),
            end_time: fill_or_keep(self.end_time, v.end_time),
            is_billable: set_or_keep(self.is_billable, v.is_billable),
            hourly_rate: fill_or_keep(self.hourly_rate, v.hourly_rate),
            updated_at: now,
            ..v
        }
    }

    proof fn lemma_applied_keeps_identity(self, v: TimeEntry, now: Timestamp) {
    }

    fn apply(self, doc: &mut TimeEntry, now: Timestamp) {
        let changes = self.changes(now);
        set_all(&changes, doc);
    }
}

/// A partial update of an entry changes the fields that were sent and
/// the time of the last change, and nothing else. The duration is
/// among the fields it cannot reach.
pub proof fn lemma_time_entry_update_is_partial(patch: UpdateTimeEntryRequest, v: TimeEntry, now: Timestamp)
    ensures
        ({
            let w = patch.applied(v, now);
            &&& w.id == v.id
            &&& w.user_id == v.user_id
            &&& w.project_id == v.project_id
            &&& w.duration == v.duration
            &&& w.created_at == v.created_at
            &&& w.updated_at == now
            &&& patch.description is None ==> w.description == v.description
            &&& patch.start_time is None ==> w.start_time == v.start_time
            &&& patch.end_time is None ==> w.end_time == v.end_time
            &&& patch.is_billable is None ==> w.is_billable == v.is_billable
            &&& patch.hourly_rate is None ==> w.hourly_rate == v.hourly_rate
            &&& patch.description matches Some(x) ==> w.description == x
            &&& patch.start_time matches Some(x) ==> w.start_time == x
            &&& patch.end_time matches Some(x) ==> w.end_time == Some(x)
            &&& patch.is_billable matches Some(x) ==> w.is_billable == x
            &&& patch.hourly_rate matches Some(x) ==> w.hourly_rate == Some(x)
            &&& now > v.updated_at ==> w.updated_at > v.updated_at
        }),
{
}

/// Stopping an entry changes its end, its duration and the time of the
/// last change, and nothing else. An hour between start and end is a
/// duration of 3600.
pub proof fn lemma_stop_fixes_duration(stop: StopTimeEntryRequest, v: TimeEntry, now: Timestamp)
    ensures
        ({
            let w = stop.applied(v, now);
            &&& w == TimeEntry { end_time: w.end_time, duration: w.duration, updated_at: now, ..v }
            &&& w.end_time == Some(stop.end_time)
            &&& w.duration == Some(whole_seconds(v.start_time, stop.end_time) as i64)
            &&& i64::MIN <= whole_seconds(v.start_time, stop.end_time) <= i64::MAX
            &&& stop.end_time - v.start_time == 3_600_000 ==> w.duration == Some(3600i64)
        }),
{
}

} // verus!
