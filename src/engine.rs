//! The engine: signature store, scan coordinator, quarantine store and
//! notification log, owned together and driven through `&mut self`; callers
//! on several threads share it behind one lock.

use vstd::prelude::*;
use vstd::string::StringSliceAdditionalSpecFns;
use crate::model::{
    Notification, NotificationLevel, NotificationModel, QuarantineError, QuarantineItem,
    QuarantineModel, ScanConfig, ScanError, ScanEvent, Severity, SignatureModel, ThreatCategory,
    ThreatSignature, event_models, notification_models, quarantine_models, signature_models,
};
use crate::scan::{ScanState, cancel_model, content_model, enumerating, finish_model, offer_model,
    start_model, step_events, step_matches_file, step_model, Candidate};
use crate::quarantine::{
    delete_outcome, delete_store, has_id, ids_unique, plan_outcome, lemma_position_unique,
    lemma_push_keeps_unique, lemma_remove_keeps_unique, position_of, record_outcome,
    record_store, restore_outcome, restore_store,
};
use crate::notifications::{lemma_append_keeps_order, log_wf};
use crate::hashing::{content_hash, derive_quarantine_id, join};
use crate::clock::current_timestamp;

verus! {

/// The text of the standard antivirus test file.
pub const EICAR_TEST_PATTERN: &'static str =
    "X5O!P%@AP[4\\PZX54(P^)7CC)7}$EICAR-STANDARD-ANTIVIRUS-TEST-FILE!$H+H*";

/// The name of the built-in signature of the antivirus test file.
pub const EICAR_SIGNATURE_NAME: &'static str = "EICAR-Test-File";

/// A quarantine result is the modelled outcome: the same error, or a record
/// with the modelled value.
pub open spec fn outcome_is(
    r: Result<QuarantineItem, QuarantineError>,
    m: Result<QuarantineModel, QuarantineError>,
) -> bool {
    match m {
        Ok(v) => r is Ok && r->Ok_0@ == v,
        Err(e) => r == Err::<QuarantineItem, QuarantineError>(e),
    }
}

/// The engine's state; one per process, shared behind a lock.
pub struct Engine {
    /// The active signatures, replaced only as a whole.
    pub threat_signatures: Vec<ThreatSignature>,
    pub quarantine_items: Vec<QuarantineItem>,
    pub scan: ScanState,
    pub notifications: Vec<Notification>,
    /// The id that the next notification gets.
    pub notification_id_counter: u64,
}

impl Engine {
    /// The active signatures.
    pub open spec fn signatures_model(&self) -> Seq<SignatureModel> {
        signature_models(self.threat_signatures@)
    }

    /// The quarantine records.
    pub open spec fn quarantine_model(&self) -> Seq<QuarantineModel> {
        quarantine_models(self.quarantine_items@)
    }

    /// The notification log.
    pub open spec fn log_model(&self) -> Seq<NotificationModel> {
        notification_models(self.notifications@)
    }

    /// What holds of the engine between any two calls.
    pub open spec fn wf(&self) -> bool {
        &&& self.scan@.wf()
        &&& ids_unique(self.quarantine_model())
        &&& log_wf(self.log_model(), self.notification_id_counter)
    }

    /// Everything but the scan state is as in `other`.
    pub open spec fn same_stores(&self, other: &Engine) -> bool {
        &&& self.threat_signatures == other.threat_signatures
        &&& self.quarantine_items == other.quarantine_items
        &&& self.notifications == other.notifications
        &&& self.notification_id_counter == other.notification_id_counter
    }

    /// Everything but the quarantine records is as in `other`.
    pub open spec fn same_but_quarantine(&self, other: &Engine) -> bool {
        &&& self.threat_signatures == other.threat_signatures
        &&& self.scan == other.scan
        &&& self.notifications == other.notifications
        &&& self.notification_id_counter == other.notification_id_counter
    }

    /// An idle engine with no signatures, records or notifications.
    pub fn new() -> (r: Engine)
        ensures
            r.wf(),
            r.signatures_model().len() == 0,
            r.quarantine_model().len() == 0,
            r.log_model().len() == 0,
            r.notification_id_counter == 0,
            !r.scan@.running,
            r.scan@.files_scanned == 0,
            r.scan@.threats_found == 0,
    {
        Engine {
            threat_signatures: Vec::new(),
            quarantine_items: Vec::new(),
            scan: ScanState::new(),
            notifications: Vec::new(),
            notification_id_counter: 0,
        }
    }

    /// The signatures that ship with the engine: the antivirus test file.
    pub fn load_builtin_signatures() -> (r: Vec<ThreatSignature>)
        ensures
            r@.len() == 1,
            r@[0]@.name == EICAR_SIGNATURE_NAME@,
            r@[0]@.pattern == EICAR_TEST_PATTERN.spec_bytes(),
            r@[0]@.category == ThreatCategory::Virus,
            r@[0]@.severity == Severity::Info,
    {
        let mut signatures: Vec<ThreatSignature> = Vec::new();
        signatures.push(
            ThreatSignature {
                name: String::from_str(EICAR_SIGNATURE_NAME),
                pattern: vstd::slice::slice_to_vec(EICAR_TEST_PATTERN.as_bytes()),
                category: ThreatCategory::Virus,
                severity: Severity::Info,
            },
        );
        signatures
    }

    /// Replaces the active signatures as a whole; a running scan keeps the
    /// snapshot it started with.
    pub fn update_signature_database(&mut self, signatures: Vec<ThreatSignature>)
        requires
            old(self).wf(),
        ensures
            final(self).wf(),
            final(self).threat_signatures == signatures,
            final(self).scan == old(self).scan,
            final(self).quarantine_items == old(self).quarantine_items,
            final(self).notifications == old(self).notifications,
            final(self).notification_id_counter == old(self).notification_id_counter,
    {
        self.threat_signatures = signatures;
    }

    /// Makes the built-in signatures the active ones.
    pub fn update_threat_database(&mut self)
        requires
            old(self).wf(),
        ensures
            final(self).wf(),
            final(self).signatures_model().len() == 1,
            final(self).signatures_model()[0].name == EICAR_SIGNATURE_NAME@,
            final(self).signatures_model()[0].pattern == EICAR_TEST_PATTERN.spec_bytes(),
            final(self).scan == old(self).scan,
            final(self).quarantine_items == old(self).quarantine_items,
            final(self).notifications == old(self).notifications,
            final(self).notification_id_counter == old(self).notification_id_counter,
    {
        let signatures = Engine::load_builtin_signatures();
        self.update_signature_database(signatures);
    }

    /// Starts a scan with this configuration over a snapshot of the active
    /// signatures and returns the events to deliver (`Started`); fails while
    /// a scan is running, leaving that scan's state and counters as they are.
    pub fn start_scan(&mut self, config: &ScanConfig) -> (r: Result<Vec<ScanEvent>, ScanError>)
        requires
            old(self).wf(),
        ensures
            final(self).wf(),
            final(self).same_stores(old(self)),
            old(self).scan@.running ==> r == Err::<Vec<ScanEvent>, ScanError>(
                ScanError::ScanAlreadyRunning,
            ) && final(self).scan@ == old(self).scan@,
            !old(self).scan@.running ==> r is Ok && final(self).scan@ == start_model(
                old(self).signatures_model(),
                config.max_file_size,
            ) && event_models(r->Ok_0@) == seq![crate::model::EventModel::Started],
    {
        self.scan.start(&self.threat_signatures, config.max_file_size)
    }

    /// Asks the running scan to stop at its next step; idempotent, and no
    /// effect when no scan runs.
    pub fn cancel_scan(&mut self)
        requires
            old(self).wf(),
        ensures
            final(self).wf(),
            final(self).same_stores(old(self)),
            final(self).scan@ == cancel_model(old(self).scan@),
    {
        self.scan.cancel();
    }

    /// A scan is running.
    pub fn is_scanning(&self) -> (r: bool)
        ensures
            r == self.scan@.running,
    {
        self.scan.scan_in_progress
    }

    /// Cancellation of the running scan was asked for; enumeration stops
    /// when it sees this.
    pub fn is_cancel_requested(&self) -> (r: bool)
        ensures
            r == self.scan@.cancel_requested,
    {
        self.scan.scan_cancelled
    }

    /// The counters of the running or last scan: files scanned, threats found.
    pub fn get_scan_progress(&self) -> (r: (u64, usize))
        ensures
            r.0 == self.scan@.files_scanned,
            r.1 == self.scan@.threats_found,
    {
        (self.scan.files_scanned, self.scan.threats_found)
    }

    /// Offers an entry met while enumerating the running scan's roots: a root
    /// given as such (`is_root`) or an entry inside a root directory, with its
    /// kind and size as found without following links. Returns whether
    /// enumeration goes on; it stops once cancellation is asked for.
    pub fn offer_scan_entry(&mut self, path: String, is_root: bool, is_regular_file: bool, size: u64) -> (r:
        bool)
        requires
            old(self).wf(),
        ensures
            final(self).wf(),
            final(self).same_stores(old(self)),
            final(self).scan@ == offer_model(
                old(self).scan@,
                Candidate { path: path@, is_root: is_root, is_regular_file: is_regular_file, size: size },
            ),
            r == enumerating(old(self).scan@),
    {
        self.scan.offer(path, is_root, is_regular_file, size)
    }

    /// Ends enumeration: the admitted entries, in the order met, are the
    /// scan's files, and their number its total.
    pub fn finish_enumeration(&mut self)
        requires
            old(self).wf(),
        ensures
            final(self).wf(),
            final(self).same_stores(old(self)),
            final(self).scan@ == finish_model(old(self).scan@),
    {
        self.scan.finish_enumeration();
    }

    /// The path of the file that the next scan step matches, if it matches one.
    pub fn pending_scan_file(&self) -> (r: Option<String>)
        requires
            self.wf(),
        ensures
            step_matches_file(self.scan@) <==> r is Some,
            r matches Some(p) ==> p@ == self.scan@.files[self.scan@.next_file],
    {
        self.scan.pending_file()
    }

    /// One step of the scan at time `now`: the terminal event where the scan
    /// is cancelled or has no file left, else the events of matching the next
    /// file's content (`None` for a file that could not be read).
    pub fn scan_file_content(&mut self, content: Option<&[u8]>, now: i64) -> (r: Vec<ScanEvent>)
        requires
            old(self).wf(),
        ensures
            final(self).wf(),
            final(self).same_stores(old(self)),
            final(self).scan@ == step_model(old(self).scan@, content_model(content), now),
            event_models(r@) == step_events(old(self).scan@, content_model(content), now),
    {
        self.scan.step(content, now)
    }

    /// One step of the scan, stamped with the current time.
    pub fn scan_next(&mut self, content: Option<&[u8]>) -> (r: Vec<ScanEvent>)
        requires
            old(self).wf(),
        ensures
            final(self).wf(),
            final(self).same_stores(old(self)),
            exists|now: i64|
                final(self).scan@ == step_model(old(self).scan@, content_model(content), now)
                    && event_models(r@) == step_events(
                    old(self).scan@,
                    content_model(content),
                    now,
                ),
    {
        let now = current_timestamp();
        self.scan_file_content(content, now)
    }

    /// The index of the record with this id, where there is one.
    fn position(&self, id: &String) -> (r: Option<usize>)
        requires
            self.wf(),
        ensures
            r is None <==> !has_id(self.quarantine_model(), id@),
            r matches Some(i) ==> i < self.quarantine_items@.len() && position_of(
                self.quarantine_model(),
                id@,
            ) == i && self.quarantine_model()[i as int].id == id@,
    {
        let ghost m = self.quarantine_model();
        let mut i: usize = 0;
        while i < self.quarantine_items.len()
            invariant
                i <= self.quarantine_items@.len(),
                m == self.quarantine_model(),
                ids_unique(m),
                forall|j: int| 0 <= j < i ==> (#[trigger] m[j]).id != id@,
            decreases self.quarantine_items@.len() - i,
        {
            if self.quarantine_items[i].id == *id {
                proof {
                    lemma_position_unique(m, i as int);
                }
                return Some(i);
            }
            i = i + 1;
        }
        None
    }

    /// A copy of the record with this id, where there is one.
    pub fn find_quarantine_item(&self, item_id: &str) -> (r: Option<QuarantineItem>)
        requires
            self.wf(),
        ensures
            r is None <==> !has_id(self.quarantine_model(), item_id@),
            r matches Some(item) ==> item@ == self.quarantine_model()[position_of(
                self.quarantine_model(),
                item_id@,
            )],
    {
        let id = String::from_str(item_id);
        match self.position(&id) {
            Some(i) => Some(self.quarantine_items[i].duplicate()),
            None => None,
        }
    }

    /// The record for isolating the file at `file_path`, which holds
    /// `content`, at `timestamp` into `quarantine_dir`: its hash is the
    /// content's digest, its id the hash's first sixteen characters and the
    /// time, its quarantine path the id inside the directory. An id that a
    /// record already has is a conflict. Nothing is recorded yet.
    pub fn plan_quarantine(
        &self,
        file_path: &str,
        threat_name: &str,
        content: &[u8],
        timestamp: i64,
        quarantine_dir: &str,
    ) -> (r: Result<QuarantineItem, QuarantineError>)
        requires
            self.wf(),
        ensures
            outcome_is(
                r,
                plan_outcome(
                    self.quarantine_model(),
                    file_path@,
                    threat_name@,
                    content@,
                    timestamp,
                    quarantine_dir@,
                ),
            ),
    {
        let file_hash = content_hash(content);
        let id = derive_quarantine_id(file_hash.as_str(), timestamp);
        if self.position(&id).is_some() {
            return Err(QuarantineError::InternalInconsistency);
        }
        let quarantine_path = join(quarantine_dir, id.as_str());
        Ok(
            QuarantineItem {
                id: id,
                original_path: String::from_str(file_path),
                quarantine_path: quarantine_path,
                threat_name: String::from_str(threat_name),
                timestamp: timestamp,
                file_hash: file_hash,
            },
        )
    }

    /// The record for isolating a file now (see `plan_quarantine`).
    pub fn prepare_quarantine(
        &self,
        file_path: &str,
        threat_name: &str,
        content: &[u8],
        quarantine_dir: &str,
    ) -> (r: Result<QuarantineItem, QuarantineError>)
        requires
            self.wf(),
        ensures
            exists|timestamp: i64|
                outcome_is(
                    r,
                    #[trigger] plan_outcome(
                        self.quarantine_model(),
                        file_path@,
                        threat_name@,
                        content@,
                        timestamp,
                        quarantine_dir@,
                    ),
                ),
    {
        let now = current_timestamp();
        self.plan_quarantine(file_path, threat_name, content, now, quarantine_dir)
    }

    /// Records a file that has been moved into quarantine, and returns a copy
    /// of the record; an id already taken is a conflict and changes nothing.
    pub fn quarantine(&mut self, item: QuarantineItem) -> (r: Result<QuarantineItem, QuarantineError>)
        requires
            old(self).wf(),
        ensures
            final(self).wf(),
            final(self).same_but_quarantine(old(self)),
            final(self).quarantine_model() == record_store(old(self).quarantine_model(), item@),
            outcome_is(r, record_outcome(old(self).quarantine_model(), item@)),
    {
        let ghost m = self.quarantine_model();
        if self.position(&item.id).is_some() {
            return Err(QuarantineError::InternalInconsistency);
        }
        let copy = item.duplicate();
        self.quarantine_items.push(item);
        proof {
            lemma_push_keeps_unique(m, copy@);
            assert(self.quarantine_model() =~= m.push(copy@));
        }
        Ok(copy)
    }

    /// Takes the record with this id out of quarantine for restoring, and
    /// returns it; the caller moves the file back to its original path. Fails
    /// with `NotFoundInQuarantine` where no record has the id, and with
    /// `DestinationOccupied` where the original location is taken; then the
    /// records stay as they are.
    pub fn restore_from_quarantine(&mut self, item_id: &str, destination_occupied: bool) -> (r:
        Result<QuarantineItem, QuarantineError>)
        requires
            old(self).wf(),
        ensures
            final(self).wf(),
            final(self).same_but_quarantine(old(self)),
            final(self).quarantine_model() == restore_store(
                old(self).quarantine_model(),
                item_id@,
                destination_occupied,
            ),
            outcome_is(
                r,
                restore_outcome(old(self).quarantine_model(), item_id@, destination_occupied),
            ),
    {
        let ghost m = self.quarantine_model();
        let id = String::from_str(item_id);
        match self.position(&id) {
            None => Err(QuarantineError::NotFoundInQuarantine),
            Some(i) => {
                if destination_occupied {
                    return Err(QuarantineError::DestinationOccupied);
                }
                let item = self.quarantine_items.remove(i);
                proof {
                    lemma_remove_keeps_unique(m, i as int);
                    assert(self.quarantine_model() =~= m.remove(i as int));
                }
                Ok(item)
            },
        }
    }

    /// Takes the record with this id out of quarantine for deleting, and
    /// returns it; the caller removes the quarantined file. Fails with
    /// `NotFoundInQuarantine`, changing nothing, where no record has the id.
    pub fn delete_from_quarantine(&mut self, item_id: &str) -> (r: Result<QuarantineItem, QuarantineError>)
        requires
            old(self).wf(),
        ensures
            final(self).wf(),
            final(self).same_but_quarantine(old(self)),
            final(self).quarantine_model() == delete_store(old(self).quarantine_model(), item_id@),
            outcome_is(r, delete_outcome(old(self).quarantine_model(), item_id@)),
    {
        let ghost m = self.quarantine_model();
        let id = String::from_str(item_id);
        match self.position(&id) {
            None => Err(QuarantineError::NotFoundInQuarantine),
            Some(i) => {
                let item = self.quarantine_items.remove(i);
                proof {
                    lemma_remove_keeps_unique(m, i as int);
                    assert(self.quarantine_model() =~= m.remove(i as int));
                }
                Ok(item)
            },
        }
    }

    /// A copy of every quarantine record, in the order they were made.
    pub fn get_quarantine_items(&self) -> (r: Vec<QuarantineItem>)
        ensures
            quarantine_models(r@) == self.quarantine_model(),
    {
        let mut out: Vec<QuarantineItem> = Vec::new();
        let mut i: usize = 0;
        while i < self.quarantine_items.len()
            invariant
                i <= self.quarantine_items@.len(),
                out@.len() == i,
                forall|j: int| 0 <= j < i ==> #[trigger] out@[j]@ == self.quarantine_items@[j]@,
            decreases self.quarantine_items@.len() - i,
        {
            out.push(self.quarantine_items[i].duplicate());
            i = i + 1;
        }
        assert(quarantine_models(out@) =~= self.quarantine_model());
        out
    }

    /// Appends a notification stamped `timestamp` with the next id, and
    /// returns that id; once every id has been given, appends nothing and
    /// returns none.
    pub fn append_notification(
        &mut self,
        title: String,
        message: String,
        level: NotificationLevel,
        timestamp: i64,
    ) -> (r: Option<u64>)
        requires
            old(self).wf(),
        ensures
            final(self).wf(),
            final(self).threat_signatures == old(self).threat_signatures,
            final(self).quarantine_items == old(self).quarantine_items,
            final(self).scan == old(self).scan,
            old(self).notification_id_counter == u64::MAX ==> r is None && final(self).notifications
                == old(self).notifications && final(self).notification_id_counter
                == old(self).notification_id_counter,
            old(self).notification_id_counter < u64::MAX ==> r == Some(
                old(self).notification_id_counter,
            ) && final(self).notification_id_counter == old(self).notification_id_counter + 1
                && final(self).log_model() == old(self).log_model().push(
                NotificationModel {
                    id: old(self).notification_id_counter,
                    title: title@,
                    message: message@,
                    level: level,
                    timestamp: timestamp,
                },
            ),
    {
        if self.notification_id_counter == u64::MAX {
            return None;
        }
        let id = self.notification_id_counter;
        let ghost before = self.log_model();
        let entry = Notification { id: id, title: title, message: message, level: level, timestamp: timestamp };
        let ghost em = entry@;
        self.notifications.push(entry);
        self.notification_id_counter = id + 1;
        proof {
            lemma_append_keeps_order(before, id, em);
            assert(self.log_model() =~= before.push(em));
        }
        Some(id)
    }

    /// Appends a notification stamped with the current time (see
    /// `append_notification`).
    pub fn add_notification(&mut self, title: String, message: String, level: NotificationLevel) -> (r:
        Option<u64>)
        requires
            old(self).wf(),
        ensures
            final(self).wf(),
            final(self).threat_signatures == old(self).threat_signatures,
            final(self).quarantine_items == old(self).quarantine_items,
            final(self).scan == old(self).scan,
            old(self).notification_id_counter == u64::MAX ==> r is None && final(self).notifications
                == old(self).notifications,
            old(self).notification_id_counter < u64::MAX ==> r == Some(
                old(self).notification_id_counter,
            ) && final(self).notification_id_counter == old(self).notification_id_counter + 1
                && final(self).log_model().len() == old(self).log_model().len() + 1
                && final(self).log_model().drop_last() == old(self).log_model()
                && final(self).log_model().last().id == old(self).notification_id_counter
                && final(self).log_model().last().title == title@
                && final(self).log_model().last().message == message@
                && final(self).log_model().last().level == level,
    {
        let now = current_timestamp();
        let r = self.append_notification(title, message, level, now);
        proof {
            if old(self).notification_id_counter < u64::MAX {
                assert(self.log_model().drop_last() =~= old(self).log_model());
            }
        }
        r
    }

    /// A copy of the notification log, oldest first.
    pub fn get_notifications(&self) -> (r: Vec<Notification>)
        ensures
            notification_models(r@) == self.log_model(),
    {
        let mut out: Vec<Notification> = Vec::new();
        let mut i: usize = 0;
        while i < self.notifications.len()
            invariant
                i <= self.notifications@.len(),
                out@.len() == i,
                forall|j: int| 0 <= j < i ==> #[trigger] out@[j]@ == self.notifications@[j]@,
            decreases self.notifications@.len() - i,
        {
            out.push(self.notifications[i].duplicate());
            i = i + 1;
        }
        assert(notification_models(out@) =~= self.log_model());
        out
    }

    /// Empties the notification log; ids given before are not given again.
    pub fn clear_notifications(&mut self)
        requires
            old(self).wf(),
        ensures
            final(self).wf(),
            final(self).log_model().len() == 0,
            final(self).notification_id_counter == old(self).notification_id_counter,
            final(self).threat_signatures == old(self).threat_signatures,
            final(self).quarantine_items == old(self).quarantine_items,
            final(self).scan == old(self).scan,
    {
        self.notifications = Vec::new();
        assert(self.log_model() =~= Seq::<NotificationModel>::empty());
    }
}

} // verus!
