//! The audit trail of cataloging: a process record of every creation,
//! match, skipped duplicate, update or uncertain match, within the current
//! processing run.

use crate::calendar::now_ms;
use crate::storage::memory::{InMemoryStorage, StorageError, StorageView};
use crate::storage::records::{ProcessRecord, ProcessRecordView};
use crate::text::owned;
use vstd::prelude::*;
use vstd::string::*;

verus! {

/// Records catalog operations in a store, for the current run.
pub struct ProvenanceTracker {
    pub storage: InMemoryStorage,
    pub process_run_id: Option<u128>,
}

/// `after` is `before` with, when there is a run, one more `catalog`
/// process record of it under a fresh id, describing the change, and
/// created at `now`.
pub open spec fn emitted_at(
    before: StorageView,
    after: StorageView,
    run: Option<u128>,
    change_type: Seq<char>,
    change_log: Seq<char>,
    field_changed: Seq<char>,
    venue_id: Option<u128>,
    event_id: Option<u128>,
    artist_id: Option<u128>,
    now: i64,
) -> bool {
    &&& after.venues == before.venues
    &&& after.artists == before.artists
    &&& after.events == before.events
    &&& after.raw_data == before.raw_data
    &&& after.process_runs == before.process_runs
    &&& match run {
        None => after.process_records == before.process_records,
        Some(k) => exists|id: u128| #[trigger] after.process_records.contains_key(id) && after.process_records == before.process_records.insert(
            id,
            ProcessRecordView {
                id: Some(id),
                process_run_id: k,
                api_name: "catalog"@,
                raw_data_id: None,
                change_type,
                change_log,
                field_changed,
                event_id,
                venue_id,
                artist_id,
                created_at: now,
            },
        ),
    }
}

/// [`emitted_at`] at some time.
pub open spec fn emitted(
    before: StorageView,
    after: StorageView,
    run: Option<u128>,
    change_type: Seq<char>,
    change_log: Seq<char>,
    field_changed: Seq<char>,
    venue_id: Option<u128>,
    event_id: Option<u128>,
    artist_id: Option<u128>,
) -> bool {
    exists|now: i64| #[trigger] emitted_at(before, after, run, change_type, change_log, field_changed, venue_id, event_id, artist_id, now)
}

fn prefixed(prefix: &str, s: &str) -> (r: String)
    ensures
        r@ == prefix@ + s@,
{
    let mut r = owned(prefix);
    r.append(s);
    r
}

impl ProvenanceTracker {
    /// A tracker over `storage` for the run `process_run_id`.
    pub fn new(storage: InMemoryStorage, process_run_id: Option<u128>) -> (r: Self)
        ensures
            r.storage@ == storage@,
            r.process_run_id == process_run_id,
    {
        ProvenanceTracker { storage, process_run_id }
    }

    /// Sets the current run.
    pub fn set_process_run_id(&mut self, run_id: Option<u128>)
        ensures
            final(self).process_run_id == run_id,
            final(self).storage@ == old(self).storage@,
    {
        self.process_run_id = run_id;
    }

    /// Records a change at `now`, when there is a current run.
    pub fn emit_record_at(
        &mut self,
        change_type: &str,
        change_log: &str,
        field_changed: &str,
        venue_id: Option<u128>,
        event_id: Option<u128>,
        artist_id: Option<u128>,
        now: i64,
    ) -> (r: Result<(), StorageError>)
        ensures
            r is Ok,
            final(self).process_run_id == old(self).process_run_id,
            emitted_at(old(self).storage@, final(self).storage@, old(self).process_run_id, change_type@, change_log@, field_changed@,
                venue_id, event_id, artist_id, now),
    {
        if let Some(run_id) = self.process_run_id {
            let mut record = ProcessRecord {
                id: None,
                process_run_id: run_id,
                api_name: owned("catalog"),
                raw_data_id: None,
                change_type: owned(change_type),
                change_log: owned(change_log),
                field_changed: owned(field_changed),
                event_id,
                venue_id,
                artist_id,
                created_at: now,
            };
            let r = self.storage.create_process_record(&mut record);
            proof {
                let id = record@.id->0;
                assert(self.storage@.process_records.contains_key(id));
            }
            match r {
                Ok(()) => Ok(()),
                Err(e) => Err(e),
            }
        } else {
            Ok(())
        }
    }

    /// Records a change at the current time, when there is a current run.
    pub fn emit_record(
        &mut self,
        change_type: &str,
        change_log: &str,
        field_changed: &str,
        venue_id: Option<u128>,
        event_id: Option<u128>,
        artist_id: Option<u128>,
    ) -> (r: Result<(), StorageError>)
        ensures
            r is Ok,
            final(self).process_run_id == old(self).process_run_id,
            emitted(old(self).storage@, final(self).storage@, old(self).process_run_id, change_type@, change_log@, field_changed@,
                venue_id, event_id, artist_id),
    {
        let now = now_ms();
        self.emit_record_at(change_type, change_log, field_changed, venue_id, event_id, artist_id, now)
    }

    /// Records a creation of the venue `venue_name`.
    pub fn venue_created(&mut self, venue_name: &str, venue_id: Option<u128>) -> (r: Result<(), StorageError>)
        ensures
            r is Ok,
            final(self).process_run_id == old(self).process_run_id,
            emitted(old(self).storage@, final(self).storage@, old(self).process_run_id, "create_venue"@, "Created new venue: "@ + venue_name@, "venue"@,
                venue_id, None, None),
    {
        let log = prefixed("Created new venue: ", venue_name);
        self.emit_record("create_venue", log.as_str(), "venue", venue_id, None, None)
    }

    /// Records a match with a stored one of the venue `venue_name`.
    pub fn venue_matched(&mut self, venue_name: &str, venue_id: u128) -> (r: Result<(), StorageError>)
        ensures
            r is Ok,
            final(self).process_run_id == old(self).process_run_id,
            emitted(old(self).storage@, final(self).storage@, old(self).process_run_id, "match_venue"@, "Matched existing venue: "@ + venue_name@, "venue"@,
                Some(venue_id), None, None),
    {
        let log = prefixed("Matched existing venue: ", venue_name);
        self.emit_record("match_venue", log.as_str(), "venue", Some(venue_id), None, None)
    }

    /// Records a skipped duplicate of the venue `venue_name`.
    pub fn venue_duplicate(&mut self, venue_name: &str, venue_id: u128) -> (r: Result<(), StorageError>)
        ensures
            r is Ok,
            final(self).process_run_id == old(self).process_run_id,
            emitted(old(self).storage@, final(self).storage@, old(self).process_run_id, "skip_duplicate_venue"@, "Skipped duplicate venue: "@ + venue_name@, "venue"@,
                Some(venue_id), None, None),
    {
        let log = prefixed("Skipped duplicate venue: ", venue_name);
        self.emit_record("skip_duplicate_venue", log.as_str(), "venue", Some(venue_id), None, None)
    }

    /// Records an uncertain match of the venue `venue_name`.
    pub fn venue_uncertain(&mut self, venue_name: &str) -> (r: Result<(), StorageError>)
        ensures
            r is Ok,
            final(self).process_run_id == old(self).process_run_id,
            emitted(old(self).storage@, final(self).storage@, old(self).process_run_id, "uncertain_venue"@, "Uncertain match for venue: "@ + venue_name@, "venue"@,
                None, None, None),
    {
        let log = prefixed("Uncertain match for venue: ", venue_name);
        self.emit_record("uncertain_venue", log.as_str(), "venue", None, None, None)
    }

    /// Records a creation of the event `event_title`.
    pub fn event_created(&mut self, event_title: &str, event_id: Option<u128>) -> (r: Result<(), StorageError>)
        ensures
            r is Ok,
            final(self).process_run_id == old(self).process_run_id,
            emitted(old(self).storage@, final(self).storage@, old(self).process_run_id, "create_event"@, "Created new event: "@ + event_title@, "event"@,
                None, event_id, None),
    {
        let log = prefixed("Created new event: ", event_title);
        self.emit_record("create_event", log.as_str(), "event", None, event_id, None)
    }

    /// Records an update of the event `event_title`.
    pub fn event_updated(&mut self, event_title: &str, event_id: Option<u128>) -> (r: Result<(), StorageError>)
        ensures
            r is Ok,
            final(self).process_run_id == old(self).process_run_id,
            emitted(old(self).storage@, final(self).storage@, old(self).process_run_id, "update_event"@, "Updated event: "@ + event_title@, "event"@,
                None, event_id, None),
    {
        let log = prefixed("Updated event: ", event_title);
        self.emit_record("update_event", log.as_str(), "event", None, event_id, None)
    }

    /// Records a skipped duplicate of the event `event_title`.
    pub fn event_duplicate(&mut self, event_title: &str, event_id: u128) -> (r: Result<(), StorageError>)
        ensures
            r is Ok,
            final(self).process_run_id == old(self).process_run_id,
            emitted(old(self).storage@, final(self).storage@, old(self).process_run_id, "skip_duplicate_event"@, "Skipped duplicate event: "@ + event_title@, "event"@,
                None, Some(event_id), None),
    {
        let log = prefixed("Skipped duplicate event: ", event_title);
        self.emit_record("skip_duplicate_event", log.as_str(), "event", None, Some(event_id), None)
    }

    /// Records an uncertain match of the event `event_title`.
    pub fn event_uncertain(&mut self, event_title: &str) -> (r: Result<(), StorageError>)
        ensures
            r is Ok,
            final(self).process_run_id == old(self).process_run_id,
            emitted(old(self).storage@, final(self).storage@, old(self).process_run_id, "uncertain_event"@, "Uncertain match for event: "@ + event_title@, "event"@,
                None, None, None),
    {
        let log = prefixed("Uncertain match for event: ", event_title);
        self.emit_record("uncertain_event", log.as_str(), "event", None, None, None)
    }

    /// Records a creation of the artist `artist_name`.
    pub fn artist_created(&mut self, artist_name: &str, artist_id: Option<u128>) -> (r: Result<(), StorageError>)
        ensures
            r is Ok,
            final(self).process_run_id == old(self).process_run_id,
            emitted(old(self).storage@, final(self).storage@, old(self).process_run_id, "create_artist"@, "Created new artist: "@ + artist_name@, "artist"@,
                None, None, artist_id),
    {
        let log = prefixed("Created new artist: ", artist_name);
        self.emit_record("create_artist", log.as_str(), "artist", None, None, artist_id)
    }

    /// Records a match with a stored one of the artist `artist_name`.
    pub fn artist_matched(&mut self, artist_name: &str, artist_id: u128) -> (r: Result<(), StorageError>)
        ensures
            r is Ok,
            final(self).process_run_id == old(self).process_run_id,
            emitted(old(self).storage@, final(self).storage@, old(self).process_run_id, "match_artist"@, "Matched existing artist: "@ + artist_name@, "artist"@,
                None, None, Some(artist_id)),
    {
        let log = prefixed("Matched existing artist: ", artist_name);
        self.emit_record("match_artist", log.as_str(), "artist", None, None, Some(artist_id))
    }

    /// Records an uncertain match of the artist `artist_name`.
    pub fn artist_uncertain(&mut self, artist_name: &str) -> (r: Result<(), StorageError>)
        ensures
            r is Ok,
            final(self).process_run_id == old(self).process_run_id,
            emitted(old(self).storage@, final(self).storage@, old(self).process_run_id, "uncertain_artist"@, "Uncertain match for artist: "@ + artist_name@, "artist"@,
                None, None, None),
    {
        let log = prefixed("Uncertain match for artist: ", artist_name);
        self.emit_record("uncertain_artist", log.as_str(), "artist", None, None, None)
    }
}

} // verus!
