//! Cataloging events: the candidate an enriched event record proposes
//! against the store, its persistence, and the process record it leaves.

use crate::calendar::now_ms;
use crate::catalog::candidate::{new_entity_summary, summary_spec, CatalogCandidate, ChangeSetView, FieldChangeView, PersistedEntity, ProposedEntity};
use crate::catalog::changes::{detect_event_changes, event_changes_spec};
use crate::catalog::mapper::{entity_of, DefaultEventMapper, EventMapper};
use crate::domain::{Event, EventView};
use crate::enrich::EnrichedRecord;
use crate::ids::new_v4;
use crate::normalize::{NormalizedEntity, NormalizedEntityView};
use crate::storage::memory::{event_at, event_with_id, InMemoryStorage, StorageError, StorageView};
use crate::storage::records::{ProcessRecord, ProcessRun};
use crate::storage::table::Row;
use crate::text::{join, join_spec, owned};
use vstd::prelude::*;
use vstd::string::*;

verus! {

/// Prepares, persists and records events in the catalog, mapping them with
/// the default event mapper.
pub struct EventHandler;

/// The event an event record proposes: the normalized event under the
/// canonical id, shown, not finalized, created at `now`.
pub open spec fn proposed_event(e: EventView, canonical_id: u128, now: i64) -> EventView {
    EventView { id: Some(canonical_id), show_event: true, finalized: false, created_at: now, ..e }
}

/// A UUID of version 4 and the RFC 4122 variant.
pub open spec fn is_v4(id: u128) -> bool {
    id & 0xF000C000000000000000u128 == 0x40008000000000000000u128
}

/// The change type, change log and changed fields of a candidate's record:
/// `CREATE` for a new entity, `UPDATE` with the change summary and the
/// changed field names for a changed one, `NO_CHANGE` otherwise.
pub open spec fn record_change(is_new: bool, changes: ChangeSetView, title: Seq<char>) -> (Seq<char>, Seq<char>, Seq<char>) {
    if is_new {
        ("CREATE"@, "Created new event: "@ + title, "all"@)
    } else if changes.has_changes {
        ("UPDATE"@, summary_spec(changes), join_spec(changes.changed_fields.map_values(|f: FieldChangeView| f.field_name), ", "@))
    } else {
        ("NO_CHANGE"@, "No changes detected"@, "none"@)
    }
}

/// The candidate `r` of an enriched record under `canonical_id`, proposed
/// at `now` against the stored events: none unless the record is an event;
/// new when no stored event is at its venue, day and title (ignoring case);
/// else the stored one's change set, persisted only when something changed.
pub open spec fn prepared(record: EnrichedRecord, canonical_id: u128, storage: StorageView, now: i64, r: Option<CatalogCandidate>) -> bool {
    match entity_of(record) {
        NormalizedEntityView::Event(e) => {
            let p = proposed_event(e, canonical_id, now);
            &&& r is Some
            &&& r->0.proposed_state matches ProposedEntity::Event(x) && x@ == p
            &&& (exists|s: EventView| storage.events.values().contains(s) && event_at(p.venue_id, p.event_day, p.title)(s)) ==> {
                &&& r->0.current_state == Some(PersistedEntity::Event)
                &&& exists|s: EventView| #![trigger event_changes_spec(p, s)] storage.events.values().contains(s)
                    && event_at(p.venue_id, p.event_day, p.title)(s) && r->0.changes@ == event_changes_spec(p, s)
                &&& r->0.should_persist == r->0.changes.has_changes
            }
            &&& !(exists|s: EventView| storage.events.values().contains(s) && event_at(p.venue_id, p.event_day, p.title)(s)) ==> {
                &&& r->0.current_state.is_none()
                &&& r->0.changes@ == (ChangeSetView {
                    is_new: true,
                    has_changes: true,
                    changed_fields: Seq::empty(),
                    change_summary: "New event: "@ + p.title,
                })
                &&& r->0.should_persist
            }
        },
        _ => r is None,
    }
}

impl EventHandler {
    /// The handler.
    pub fn new() -> (r: Self) {
        EventHandler
    }

    /// The entity type handled.
    pub fn entity_type(&self) -> (r: &'static str)
        ensures
            r@ == "Event"@,
    {
        "Event"
    }

    /// The candidate of an enriched record under `canonical_id`, proposed at
    /// `now`: none unless the record is an event; new when the store holds
    /// no event at its venue, day and title (ignoring case); else the stored
    /// one's change set, persisted only when something changed.
    pub fn prepare_candidate_at(&self, record: &EnrichedRecord, canonical_id: u128, storage: &InMemoryStorage, now: i64) -> (r: Option<CatalogCandidate>)
        ensures
            prepared(*record, canonical_id, storage@, now, r),
    {
        let venue_id = match &record.quality_assessed_record.normalized_record.entity {
            NormalizedEntity::Event(e) => e.venue_id,
            _ => 0,
        };
        let mapper = DefaultEventMapper;
        let mut proposed = match mapper.to_event(record, venue_id) {
            Ok(e) => e,
            Err(_) => return None,
        };
        proposed.id = Some(canonical_id);
        proposed.show_event = true;
        proposed.finalized = false;
        proposed.created_at = now;
        let ghost p = proposed@;
        assert(p == proposed_event(entity_of(*record)->Event_0, canonical_id, now));
        match storage.get_event_by_venue_date_title(proposed.venue_id, proposed.event_day, proposed.title.as_str()) {
            Some(existing) => {
                let changes = detect_event_changes(&proposed, &existing);
                assert(event_at(p.venue_id, p.event_day, p.title)(existing@));
                Some(CatalogCandidate::existing_entity(ProposedEntity::Event(proposed), PersistedEntity::Event, changes))
            },
            None => {
                let c = CatalogCandidate::new_entity(ProposedEntity::Event(proposed));
                assert(new_entity_summary(ProposedEntity::Event(proposed)) == "New event: "@ + p.title);
                Some(c)
            },
        }
    }

    /// [`Self::prepare_candidate_at`] at the current time.
    pub fn prepare_candidate(&self, record: &EnrichedRecord, canonical_id: u128, storage: &InMemoryStorage) -> (r: Option<CatalogCandidate>)
        ensures
            exists|now: i64| #[trigger] prepared(*record, canonical_id, storage@, now, r),
    {
        let now = now_ms();
        let r = self.prepare_candidate_at(record, canonical_id, storage, now);
        assert(prepared(*record, canonical_id, storage@, now, r));
        r
    }

    /// Persists a candidate: nothing unless it is to be persisted and
    /// proposes an event; a new event is created under a fresh id, a stored
    /// one replaced under its own id (an error when it has none).
    pub fn persist_candidate(&self, candidate: &CatalogCandidate, storage: &mut InMemoryStorage) -> (r: Result<bool, StorageError>)
        ensures
            !candidate.should_persist || !(candidate.proposed_state is Event) ==> r == Ok::<bool, StorageError>(false)
                && final(storage)@ == old(storage)@,
            candidate.should_persist ==> (candidate.proposed_state matches ProposedEntity::Event(e) ==> {
                if candidate.current_state.is_none() {
                    &&& r == Ok::<bool, StorageError>(true)
                    &&& exists|id: u128| #[trigger] final(storage)@.events == old(storage)@.events.insert(id, event_with_id(e@, id))
                    &&& final(storage)@.venues == old(storage)@.venues
                    &&& final(storage)@.artists == old(storage)@.artists
                } else {
                    &&& (match e.id {
                        Some(k) => r == Ok::<bool, StorageError>(true) && final(storage)@.events == old(storage)@.events.insert(k, e@),
                        None => (r matches Err(StorageError::Api { message }) && message@ == "Cannot update event without ID"@)
                            && final(storage)@.events == old(storage)@.events,
                    })
                    &&& final(storage)@.venues == old(storage)@.venues
                    &&& final(storage)@.artists == old(storage)@.artists
                }
            }),
    {
        if !candidate.should_persist {
            return Ok(false);
        }
        let event = match &candidate.proposed_state {
            ProposedEntity::Event(e) => e,
            _ => return Ok(false),
        };
        if candidate.is_new() {
            let mut created = event.duplicate();
            let r = storage.create_event(&mut created);
            proof {
                let id = created@.id->0;
                assert(storage@.events == old(storage)@.events.insert(id, event_with_id(event@, id)));
            }
            match r {
                Ok(()) => Ok(true),
                Err(e) => Err(e),
            }
        } else {
            match storage.update_event(event) {
                Ok(()) => Ok(true),
                Err(e) => Err(e),
            }
        }
    }

    /// The process record of a candidate at `timestamp`: none unless it
    /// proposes an event; else one `catalog` record of the run (a fresh id
    /// when the run has none) for the event (a fresh id when it has none) at
    /// its venue, typed by [`record_change`], under a fresh id.
    pub fn generate_process_records(&self, candidate: &CatalogCandidate, process_run: &ProcessRun, timestamp: i64) -> (r: Vec<ProcessRecord>)
        ensures
            match candidate.proposed_state {
                ProposedEntity::Event(e) => {
                    let rec = r@[0]@;
                    let change = record_change(candidate.current_state.is_none(), candidate.changes@, e.title@);
                    &&& r@.len() == 1
                    &&& rec.id matches Some(i) && is_v4(i)
                    &&& match process_run.id {
                        Some(k) => rec.process_run_id == k,
                        None => is_v4(rec.process_run_id),
                    }
                    &&& rec.api_name == "catalog"@
                    &&& rec.raw_data_id.is_none()
                    &&& (rec.change_type, rec.change_log, rec.field_changed) == change
                    &&& match e.id {
                        Some(k) => rec.event_id == Some(k),
                        None => rec.event_id matches Some(i) && is_v4(i),
                    }
                    &&& rec.venue_id == Some(e.venue_id)
                    &&& rec.artist_id.is_none()
                    &&& rec.created_at == timestamp
                },
                _ => r@.len() == 0,
            },
    {
        let event = match &candidate.proposed_state {
            ProposedEntity::Event(e) => e,
            _ => return Vec::new(),
        };
        let process_run_id = match process_run.id {
            Some(k) => k,
            None => new_v4(),
        };
        let event_id = match event.id {
            Some(k) => k,
            None => new_v4(),
        };
        let (change_type, change_log, field_changed) = if candidate.is_new() {
            let mut log = owned("Created new event: ");
            log.append(event.title.as_str());
            (owned("CREATE"), log, owned("all"))
        } else if candidate.has_changes() {
            let mut names: Vec<String> = Vec::new();
            let mut i: usize = 0;
            while i < candidate.changes.changed_fields.len()
                invariant
                    i <= candidate.changes.changed_fields@.len(),
                    names@.len() == i,
                    forall|j: int| 0 <= j < i ==> (#[trigger] names@[j])@ == candidate.changes.changed_fields@[j].field_name@,
                decreases candidate.changes.changed_fields@.len() - i,
            {
                names.push(candidate.changes.changed_fields[i].field_name.clone());
                i = i + 1;
            }
            assert(names@.map_values(|s: String| s@) =~= candidate.changes@.changed_fields.map_values(|f: FieldChangeView| f.field_name));
            (owned("UPDATE"), candidate.changes.summarize(), join(&names, ", "))
        } else {
            (owned("NO_CHANGE"), owned("No changes detected"), owned("none"))
        };
        let mut out: Vec<ProcessRecord> = Vec::new();
        out.push(ProcessRecord {
            id: Some(new_v4()),
            process_run_id,
            api_name: owned("catalog"),
            raw_data_id: None,
            change_type,
            change_log,
            field_changed,
            event_id: Some(event_id),
            venue_id: Some(event.venue_id),
            artist_id: None,
            created_at: timestamp,
        });
        out
    }
}

} // verus!
