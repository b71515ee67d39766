//! The catalogger's processing runs: started under a fresh id, finished by
//! recording their end.

use crate::calendar::now_ms;
use crate::storage::memory::{InMemoryStorage, StorageError, StorageView};
use crate::storage::records::{ProcessRun, ProcessRunView};
use crate::text::owned;
use vstd::prelude::*;
use vstd::string::*;

verus! {

/// Catalogs into a store, within the current processing run.
pub struct Catalogger {
    pub storage: InMemoryStorage,
    pub process_run_id: Option<u128>,
}

/// Every table of the store but its processing runs is the same.
pub open spec fn same_but_runs(a: StorageView, b: StorageView) -> bool {
    &&& a.venues == b.venues
    &&& a.artists == b.artists
    &&& a.events == b.events
    &&& a.raw_data == b.raw_data
    &&& a.process_records == b.process_records
}

impl Catalogger {
    /// A catalogger over `storage`, with no run started.
    pub fn new(storage: InMemoryStorage) -> (r: Self)
        ensures
            r.storage@ == storage@,
            r.process_run_id.is_none(),
    {
        Catalogger { storage, process_run_id: None }
    }

    /// Starts a run named `name` at `now`: stored under a fresh id, which
    /// becomes the current run.
    pub fn start_run_at(&mut self, name: &str, now: i64) -> (r: Result<u128, StorageError>)
        ensures
            r matches Ok(id) && final(self).process_run_id == Some(id) && final(self).storage@.process_runs
                == old(self).storage@.process_runs.insert(id, ProcessRunView { id: Some(id), name: name@, created_at: now, finished_at: None }),
            same_but_runs(final(self).storage@, old(self).storage@),
    {
        let mut run = ProcessRun { id: None, name: owned(name), created_at: now, finished_at: None };
        match self.storage.create_process_run(&mut run) {
            Ok(()) => {},
            Err(e) => return Err(e),
        }
        let id = match run.id {
            Some(k) => k,
            None => return Err(StorageError::Api { message: owned("ProcessRun should have ID after creation") }),
        };
        self.process_run_id = Some(id);
        Ok(id)
    }

    /// [`Self::start_run_at`] at the current time.
    pub fn start_run(&mut self, name: &str) -> (r: Result<u128, StorageError>)
        ensures
            r matches Ok(id) && final(self).process_run_id == Some(id) && final(self).storage@.process_runs.contains_key(id)
                && final(self).storage@.process_runs[id].name == name@ && final(self).storage@.process_runs[id].finished_at.is_none()
                && final(self).storage@.process_runs == old(self).storage@.process_runs.insert(id, final(self).storage@.process_runs[id]),
            same_but_runs(final(self).storage@, old(self).storage@),
    {
        let now = now_ms();
        self.start_run_at(name, now)
    }

    /// Finishes the current run at `now`, if there is one: its record is
    /// replaced by one with no name, created and finished at `now`, and no
    /// run is current any more.
    pub fn finish_run_at(&mut self, now: i64) -> (r: Result<(), StorageError>)
        ensures
            r is Ok,
            final(self).process_run_id.is_none(),
            match old(self).process_run_id {
                Some(k) => final(self).storage@.process_runs == old(self).storage@.process_runs.insert(
                    k,
                    ProcessRunView { id: Some(k), name: Seq::empty(), created_at: now, finished_at: Some(now) },
                ),
                None => final(self).storage@.process_runs == old(self).storage@.process_runs,
            },
            same_but_runs(final(self).storage@, old(self).storage@),
    {
        if let Some(run_id) = self.process_run_id {
            let run = ProcessRun { id: Some(run_id), name: String::new(), created_at: now, finished_at: Some(now) };
            assert(run@.name =~= Seq::<char>::empty());
            match self.storage.update_process_run(&run) {
                Ok(()) => {},
                Err(e) => return Err(e),
            }
            self.process_run_id = None;
        }
        Ok(())
    }

    /// [`Self::finish_run_at`] at the current time.
    pub fn finish_run(&mut self) -> (r: Result<(), StorageError>)
        ensures
            r is Ok,
            final(self).process_run_id.is_none(),
            match old(self).process_run_id {
                Some(k) => exists|now: i64| #[trigger] final(self).storage@.process_runs == old(self).storage@.process_runs.insert(
                    k,
                    ProcessRunView { id: Some(k), name: Seq::empty(), created_at: now, finished_at: Some(now) },
                ),
                None => final(self).storage@.process_runs == old(self).storage@.process_runs,
            },
            same_but_runs(final(self).storage@, old(self).storage@),
    {
        let now = now_ms();
        self.finish_run_at(now)
    }
}

} // verus!
