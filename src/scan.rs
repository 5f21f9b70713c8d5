//! The lifecycle of one scan: exclusivity, cancellation, counters and the
//! event stream, as a state machine that the caller drives file by file.

use vstd::prelude::*;
use crate::model::{
    DetectedThreat, DetectionModel, EventModel, ScanEvent, ScanError, SignatureModel,
    ThreatSignature, duplicate_signatures, event_models, signature_models,
};
use crate::matching::{first_match, first_occurrence, match_signatures, no_match,
    lemma_first_match_unique, lemma_first_occurrence_unique};

verus! {

/// The state of the scan coordinator and of the scan it runs.
pub struct ScanState {
    /// A scan has started and not yet delivered its terminal event.
    pub scan_in_progress: bool,
    /// Cancellation was asked for during the current scan.
    pub scan_cancelled: bool,
    pub files_scanned: u64,
    pub threats_found: usize,
    /// The files of the current scan have been enumerated.
    pub files_known: bool,
    /// The files of the current scan, in enumeration order.
    pub files: Vec<String>,
    /// Index of the next file to match.
    pub next_file: usize,
    /// The signatures as they stood when the scan started.
    pub snapshot: Vec<ThreatSignature>,
    /// The size limit of the current scan, for files inside a directory.
    pub max_file_size: u64,
    /// Every directory entry offered while enumerating the current scan.
    pub discovered: Ghost<Seq<Candidate>>,
    /// Every event that the current scan has emitted, in order.
    pub events: Ghost<Seq<EventModel>>,
}

/// The mathematical value of the scan state.
pub struct ScanModel {
    pub running: bool,
    pub cancel_requested: bool,
    pub files_scanned: int,
    pub threats_found: int,
    pub files_known: bool,
    pub files: Seq<Seq<char>>,
    pub next_file: int,
    pub snapshot: Seq<SignatureModel>,
    pub max_file_size: u64,
    pub discovered: Seq<Candidate>,
    pub log: Seq<EventModel>,
}

/// A directory entry met while enumerating: a root given as such, or an
/// entry found inside a root directory.
pub struct Candidate {
    pub path: Seq<char>,
    pub is_root: bool,
    pub is_regular_file: bool,
    pub size: u64,
}

/// An entry is scanned when it is a regular file and either a root given as
/// a file or no larger than the limit.
pub open spec fn admitted(is_root: bool, is_regular_file: bool, size: u64, max_file_size: u64) -> bool {
    is_regular_file && (is_root || size <= max_file_size)
}

/// The paths of the admitted entries, in the order they were met.
pub open spec fn admitted_paths(entries: Seq<Candidate>, max_file_size: u64) -> Seq<Seq<char>>
    decreases entries.len(),
{
    if entries.len() == 0 {
        seq![]
    } else {
        let rest = admitted_paths(entries.drop_last(), max_file_size);
        let e = entries.last();
        if admitted(e.is_root, e.is_regular_file, e.size, max_file_size) {
            rest.push(e.path)
        } else {
            rest
        }
    }
}

/// Whether enumeration takes this entry into the scan.
pub fn admit_entry(is_root: bool, is_regular_file: bool, size: u64, max_file_size: u64) -> (r: bool)
    ensures
        r == admitted(is_root, is_regular_file, size, max_file_size),
{
    is_regular_file && (is_root || size <= max_file_size)
}

/// The texts of a sequence of strings.
pub open spec fn string_models(v: Seq<String>) -> Seq<Seq<char>> {
    v.map_values(|s: String| s@)
}

impl View for ScanState {
    type V = ScanModel;

    open spec fn view(&self) -> ScanModel {
        ScanModel {
            running: self.scan_in_progress,
            cancel_requested: self.scan_cancelled,
            files_scanned: self.files_scanned as int,
            threats_found: self.threats_found as int,
            files_known: self.files_known,
            files: string_models(self.files@),
            next_file: self.next_file as int,
            snapshot: signature_models(self.snapshot@),
            max_file_size: self.max_file_size,
            discovered: self.discovered@,
            log: self.events@,
        }
    }
}

/// How many `Progress` events the log holds.
pub open spec fn count_progress(log: Seq<EventModel>) -> nat
    decreases log.len(),
{
    if log.len() == 0 {
        0
    } else {
        count_progress(log.drop_last()) + if log.last() is Progress { 1nat } else { 0nat }
    }
}

/// How many `ThreatFound` events the log holds.
pub open spec fn count_found(log: Seq<EventModel>) -> nat
    decreases log.len(),
{
    if log.len() == 0 {
        0
    } else {
        count_found(log.drop_last()) + if log.last() is ThreatFound { 1nat } else { 0nat }
    }
}

/// No event of the log is terminal.
pub open spec fn no_terminal(log: Seq<EventModel>) -> bool {
    forall|i: int| 0 <= i < log.len() ==> !(#[trigger] log[i]).is_terminal()
}

/// Each `Progress` event of the log comes after enumeration ended, carries
/// the scan's total, and counts the progress events up to and including it.
pub open spec fn progress_counts_up(log: Seq<EventModel>, files_known: bool, total: int) -> bool {
    forall|i: int|
        0 <= i < log.len() && (#[trigger] log[i]) is Progress ==> files_known
            && log[i]->Progress_total == total && log[i]->Progress_current == count_progress(
            log.take(i + 1),
        )
}

impl ScanModel {
    /// What holds of the scan state at every moment.
    pub open spec fn wf(self) -> bool {
        &&& self.files_scanned == count_progress(self.log)
        &&& self.threats_found == count_found(self.log)
        &&& self.threats_found <= self.files_scanned
        &&& self.files == admitted_paths(self.discovered, self.max_file_size)
        &&& progress_counts_up(self.log, self.files_known, self.files.len() as int)
        &&& self.files_known ==> self.next_file == self.files_scanned && self.next_file
            <= self.files.len()
        &&& !self.files_known ==> self.files_scanned == 0
        &&& self.log.len() > 0 ==> self.log[0] is Started
        &&& self.running ==> self.log.len() > 0 && no_terminal(self.log)
        &&& !self.running && self.log.len() > 0 ==> {
            &&& self.files_known
            &&& self.log.last().is_terminal()
            &&& no_terminal(self.log.drop_last())
            &&& self.log.last() is Completed ==> self.log.last()->Completed_files_scanned
                == self.files_scanned && self.log.last()->Completed_threats_found
                == self.threats_found
        }
    }
}

/// The state after a successful start: running, counters at zero, nothing
/// enumerated yet, the signatures taken as they stand, and `Started` emitted.
pub open spec fn start_model(sigs: Seq<SignatureModel>, max_file_size: u64) -> ScanModel {
    ScanModel {
        running: true,
        cancel_requested: false,
        files_scanned: 0,
        threats_found: 0,
        files_known: false,
        files: seq![],
        next_file: 0,
        snapshot: sigs,
        max_file_size: max_file_size,
        discovered: seq![],
        log: seq![EventModel::Started],
    }
}

/// The state after a request to cancel: the flag is set only while running.
pub open spec fn cancel_model(s: ScanModel) -> ScanModel {
    if s.running {
        ScanModel { cancel_requested: true, ..s }
    } else {
        s
    }
}

/// Enumeration takes entries: the scan is running, its files are not all
/// known yet, and no cancellation has been asked for.
pub open spec fn enumerating(s: ScanModel) -> bool {
    s.running && !s.files_known && !s.cancel_requested
}

/// The state after an entry is offered: while enumerating, the entry is
/// met, and its path joins the files when it is admitted.
pub open spec fn offer_model(s: ScanModel, c: Candidate) -> ScanModel {
    if enumerating(s) {
        ScanModel {
            discovered: s.discovered.push(c),
            files: if admitted(c.is_root, c.is_regular_file, c.size, s.max_file_size) {
                s.files.push(c.path)
            } else {
                s.files
            },
            ..s
        }
    } else {
        s
    }
}

/// The state once enumeration has ended: the files met so far are the
/// scan's files, and their number is its total.
pub open spec fn finish_model(s: ScanModel) -> ScanModel {
    if s.running && !s.files_known {
        ScanModel { files_known: true, next_file: 0, ..s }
    } else {
        s
    }
}

/// The next step matches a file.
pub open spec fn step_matches_file(s: ScanModel) -> bool {
    s.running && s.files_known && !s.cancel_requested && s.next_file < s.files.len()
}

/// The detection in the current file: the first signature of the snapshot
/// that matches, at its pattern's first occurrence; none where none matches.
pub open spec fn detection(s: ScanModel, content: Seq<u8>, now: i64) -> Option<DetectionModel> {
    if exists|k: int| first_match(content, s.snapshot, k) {
        let k = choose|k: int| first_match(content, s.snapshot, k);
        let offset = choose|o: int| first_occurrence(content, s.snapshot[k].pattern, o);
        Some(
            DetectionModel {
                signature: s.snapshot[k],
                file_path: s.files[s.next_file],
                offset: offset,
                timestamp: now,
            },
        )
    } else {
        None
    }
}

/// The detection in the current file, where it could be read.
pub open spec fn file_detection(s: ScanModel, content: Option<Seq<u8>>, now: i64) -> Option<
    DetectionModel,
> {
    match content {
        Some(c) => detection(s, c, now),
        None => None,
    }
}

/// The events of one step of the pipeline.
pub open spec fn step_events(s: ScanModel, content: Option<Seq<u8>>, now: i64) -> Seq<EventModel> {
    if !s.running || !s.files_known {
        seq![]
    } else if s.cancel_requested {
        seq![EventModel::Cancelled]
    } else if s.next_file >= s.files.len() {
        seq![
            EventModel::Completed {
                threats_found: s.threats_found,
                files_scanned: s.files_scanned,
            },
        ]
    } else {
        let progress = EventModel::Progress { current: s.next_file + 1, total: s.files.len() as int };
        match file_detection(s, content, now) {
            Some(d) => seq![EventModel::ThreatFound(d), progress],
            None => seq![progress],
        }
    }
}

/// The state after one step of the pipeline.
pub open spec fn step_model(s: ScanModel, content: Option<Seq<u8>>, now: i64) -> ScanModel {
    let ev = step_events(s, content, now);
    if !s.running || !s.files_known {
        s
    } else if s.cancel_requested || s.next_file >= s.files.len() {
        ScanModel { running: false, log: s.log + ev, ..s }
    } else {
        ScanModel {
            files_scanned: s.files_scanned + 1,
            next_file: s.next_file + 1,
            threats_found: s.threats_found + if file_detection(s, content, now) is Some {
                1int
            } else {
                0int
            },
            log: s.log + ev,
            ..s
        }
    }
}

/// The bytes of a file, where it could be read.
pub open spec fn content_model(content: Option<&[u8]>) -> Option<Seq<u8>> {
    match content {
        Some(c) => Some(c@),
        None => None,
    }
}

proof fn lemma_counts_push(log: Seq<EventModel>, e: EventModel)
    ensures
        count_progress(log.push(e)) == count_progress(log) + if e is Progress { 1nat } else { 0nat },
        count_found(log.push(e)) == count_found(log) + if e is ThreatFound { 1nat } else { 0nat },
{
    assert(log.push(e).drop_last() =~= log);
}

proof fn lemma_no_terminal_push(log: Seq<EventModel>, e: EventModel)
    requires
        no_terminal(log),
        !e.is_terminal(),
    ensures
        no_terminal(log.push(e)),
{
    assert forall|i: int| 0 <= i < log.push(e).len() implies !(#[trigger] log.push(e)[i]).is_terminal() by {
        if i < log.len() {
            assert(log.push(e)[i] == log[i]);
        }
    }
}

proof fn lemma_progress_push(log: Seq<EventModel>, files_known: bool, total: int, e: EventModel)
    requires
        progress_counts_up(log, files_known, total),
        e is Progress ==> files_known && e->Progress_total == total && e->Progress_current
            == count_progress(log) + 1,
    ensures
        progress_counts_up(log.push(e), files_known, total),
{
    let l = log.push(e);
    assert forall|i: int| 0 <= i < l.len() && (#[trigger] l[i]) is Progress implies files_known
        && l[i]->Progress_total == total && l[i]->Progress_current == count_progress(
        l.take(i + 1),
    ) by {
        if i < log.len() {
            assert(l.take(i + 1) =~= log.take(i + 1));
            assert(l[i] == log[i]);
        } else {
            assert(l.take(i + 1) =~= l);
            lemma_counts_push(log, e);
        }
    }
}

/// Each step keeps the scan state well formed.
pub proof fn lemma_step_wf(s: ScanModel, content: Option<Seq<u8>>, now: i64)
    requires
        s.wf(),
    ensures
        step_model(s, content, now).wf(),
{
    let ev = step_events(s, content, now);
    let t = step_model(s, content, now);
    if !s.running || !s.files_known {
    } else if s.cancel_requested || s.next_file >= s.files.len() {
        assert(ev.len() == 1);
        assert(s.log + ev =~= s.log.push(ev[0]));
        lemma_counts_push(s.log, ev[0]);
        lemma_progress_push(s.log, s.files_known, s.files.len() as int, ev[0]);
        assert(t.log.drop_last() =~= s.log);
        assert(t.log[0] == s.log[0]);
    } else {
        let progress = EventModel::Progress { current: s.next_file + 1, total: s.files.len() as int };
        match file_detection(s, content, now) {
            Some(d) => {
                let f = EventModel::ThreatFound(d);
                assert(s.log + ev =~= s.log.push(f).push(progress));
                lemma_counts_push(s.log, f);
                lemma_counts_push(s.log.push(f), progress);
                lemma_progress_push(s.log, s.files_known, s.files.len() as int, f);
                lemma_progress_push(s.log.push(f), s.files_known, s.files.len() as int, progress);
                lemma_no_terminal_push(s.log, f);
                lemma_no_terminal_push(s.log.push(f), progress);
                assert(t.log[0] == s.log[0]);
            },
            None => {
                assert(s.log + ev =~= s.log.push(progress));
                lemma_counts_push(s.log, progress);
                lemma_progress_push(s.log, s.files_known, s.files.len() as int, progress);
                lemma_no_terminal_push(s.log, progress);
                assert(t.log[0] == s.log[0]);
            },
        }
    }
}

/// Where some signature matches, one of them is the first to match.
pub proof fn lemma_first_match_exists(content: Seq<u8>, sigs: Seq<SignatureModel>, j: int)
    requires
        0 <= j < sigs.len(),
        crate::matching::signature_matches(content, sigs[j]),
    ensures
        exists|k: int| k <= j && first_match(content, sigs, k),
    decreases j,
{
    if forall|i: int| 0 <= i < j ==> !crate::matching::signature_matches(content, #[trigger] sigs[i]) {
        assert(first_match(content, sigs, j));
    } else {
        let i = choose|i: int| 0 <= i < j && crate::matching::signature_matches(content, #[trigger] sigs[i]);
        lemma_first_match_exists(content, sigs, i);
    }
}

/// Over a whole scan, the `Completed` event reports as many scanned files as
/// the stream holds `Progress` events, and no more than the entries met under
/// the scan's roots that pass the filter on kind and size.
pub proof fn completed_counts_progress_events(s: ScanModel)
    requires
        s.wf(),
        s.log.len() > 0,
        s.log.last() is Completed,
    ensures
        s.log.last()->Completed_files_scanned == count_progress(s.log),
        count_progress(s.log) <= admitted_paths(s.discovered, s.max_file_size).len(),
{
    if s.running {
        assert(!s.log[s.log.len() - 1].is_terminal());
    }
}

/// Matching a file whose bytes hold the pattern of signature `j` yields
/// exactly one `ThreatFound`: it names the first signature of the snapshot
/// that matches (`j` or an earlier one), the file, and the first index of
/// that signature's pattern.
pub proof fn matching_file_yields_one_detection(s: ScanModel, content: Seq<u8>, now: i64, j: int)
    requires
        s.wf(),
        step_matches_file(s),
        0 <= j < s.snapshot.len(),
        crate::matching::signature_matches(content, s.snapshot[j]),
    ensures
        ({
            let ev = step_events(s, Some(content), now);
            &&& count_found(ev) == 1
            &&& ev[0] is ThreatFound
            &&& exists|k: int|
                #![trigger s.snapshot[k]]
                k <= j && first_match(content, s.snapshot, k) && ev[0]->ThreatFound_0.signature
                    == s.snapshot[k] && first_occurrence(
                    content,
                    s.snapshot[k].pattern,
                    ev[0]->ThreatFound_0.offset,
                )
            &&& ev[0]->ThreatFound_0.file_path == s.files[s.next_file]
        }),
{
    lemma_first_match_exists(content, s.snapshot, j);
    let k = choose|k: int| first_match(content, s.snapshot, k);
    let kj = choose|k: int| k <= j && first_match(content, s.snapshot, k);
    lemma_first_match_unique(content, s.snapshot, k, kj);
    let pattern = s.snapshot[k].pattern;
    let w = choose|i: int| crate::matching::occurs_at(content, pattern, i);
    lemma_first_occurrence_exists(content, pattern, w);
    let ev = step_events(s, Some(content), now);
    let progress = EventModel::Progress { current: s.next_file + 1, total: s.files.len() as int };
    let d = detection(s, content, now)->Some_0;
    assert(ev =~= seq![EventModel::ThreatFound(d), progress]);
    assert(ev.drop_last() =~= seq![EventModel::ThreatFound(d)]);
    assert(ev.drop_last().drop_last() =~= Seq::<EventModel>::empty());
    assert(count_found(Seq::<EventModel>::empty()) == 0);
    assert(count_found(ev.drop_last()) == 1);
    assert(count_found(ev) == 1);
    assert(ev[0] == EventModel::ThreatFound(d));
    assert(d.signature == s.snapshot[k]);
    assert(first_occurrence(content, pattern, d.offset));
    assert(k <= j);
}

/// Where a needle occurs, it has a first occurrence.
pub proof fn lemma_first_occurrence_exists(hay: Seq<u8>, needle: Seq<u8>, i: int)
    requires
        crate::matching::occurs_at(hay, needle, i),
    ensures
        exists|o: int| first_occurrence(hay, needle, o),
    decreases i,
{
    if forall|j: int| 0 <= j < i ==> !crate::matching::occurs_at(hay, needle, j) {
        assert(first_occurrence(hay, needle, i));
    } else {
        let j = choose|j: int| 0 <= j < i && crate::matching::occurs_at(hay, needle, j);
        lemma_first_occurrence_exists(hay, needle, j);
    }
}

/// A scan cancelled before its first file is matched (whether or not its
/// files have been enumerated yet) takes no further entry, and ends at its
/// next step with `Cancelled` as the only event: no file counted, no threat
/// reported, and nothing after.
pub proof fn cancel_before_first_file(
    s: ScanModel,
    entry: Candidate,
    content: Option<Seq<u8>>,
    now: i64,
    later: Option<Seq<u8>>,
    later_now: i64,
)
    requires
        s.wf(),
        s.running,
        s.files_scanned == 0,
    ensures
        ({
            let c = finish_model(cancel_model(s));
            let t = step_model(c, content, now);
            &&& offer_model(cancel_model(s), entry) == cancel_model(s)
            &&& step_events(c, content, now) == seq![EventModel::Cancelled]
            &&& !t.running
            &&& t.files_scanned == 0
            &&& count_found(t.log) == 0
            &&& step_events(t, later, later_now).len() == 0
        }),
{
    let c = finish_model(cancel_model(s));
    lemma_step_wf(c, content, now);
}

/// Along a scan's stream the `Progress` events count up one by one, from
/// one, and all carry the total fixed when enumeration ended.
pub proof fn progress_events_count_up(s: ScanModel, i: int)
    requires
        s.wf(),
        0 <= i < s.log.len(),
        s.log[i] is Progress,
    ensures
        s.log[i]->Progress_current == count_progress(s.log.take(i + 1)),
        s.log[i]->Progress_total == s.files.len(),
{
}

/// After its terminal event a scan emits nothing more, whatever it is given.
pub proof fn nothing_after_terminal(s: ScanModel, content: Option<Seq<u8>>, now: i64)
    requires
        s.wf(),
        !s.running,
    ensures
        step_events(s, content, now).len() == 0,
        step_model(s, content, now) == s,
{
}

impl ScanState {
    /// An idle coordinator that has never scanned.
    pub fn new() -> (r: ScanState)
        ensures
            !r@.running,
            !r@.cancel_requested,
            r@.files_scanned == 0,
            r@.threats_found == 0,
            r@.log.len() == 0,
            r@.wf(),
    {
        let r = ScanState {
            scan_in_progress: false,
            scan_cancelled: false,
            files_scanned: 0,
            threats_found: 0,
            files_known: false,
            files: Vec::new(),
            next_file: 0,
            snapshot: Vec::new(),
            max_file_size: 0,
            discovered: Ghost(Seq::empty()),
            events: Ghost(Seq::empty()),
        };
        assert(r@.files =~= seq![]);
        r
    }

    /// Starts a scan over a snapshot of `signatures`, with this size limit,
    /// and returns the events to deliver; a scan already running is left as
    /// it is.
    pub fn start(&mut self, signatures: &Vec<ThreatSignature>, max_file_size: u64) -> (r: Result<
        Vec<ScanEvent>,
        ScanError,
    >)
        requires
            old(self)@.wf(),
        ensures
            final(self)@.wf(),
            old(self)@.running ==> r == Err::<Vec<ScanEvent>, ScanError>(ScanError::ScanAlreadyRunning)
                && final(self)@ == old(self)@,
            !old(self)@.running ==> r is Ok && final(self)@ == start_model(
                signature_models(signatures@),
                max_file_size,
            )
                && event_models(r->Ok_0@) == seq![EventModel::Started],
    {
        if self.scan_in_progress {
            return Err(ScanError::ScanAlreadyRunning);
        }
        self.scan_in_progress = true;
        self.scan_cancelled = false;
        self.files_scanned = 0;
        self.threats_found = 0;
        self.files_known = false;
        self.files = Vec::new();
        self.next_file = 0;
        self.snapshot = duplicate_signatures(signatures);
        self.max_file_size = max_file_size;
        self.discovered = Ghost(Seq::empty());
        let ghost started = seq![EventModel::Started];
        self.events = Ghost(started);
        let mut out: Vec<ScanEvent> = Vec::new();
        out.push(ScanEvent::Started);
        proof {
            assert(self@.files =~= seq![]);
            assert(started.drop_last() =~= Seq::<EventModel>::empty());
            assert(count_progress(Seq::<EventModel>::empty()) == 0);
            assert(count_found(Seq::<EventModel>::empty()) == 0);
            assert(count_progress(started) == 0);
            assert(count_found(started) == 0);
            assert(event_models(out@) =~= seq![EventModel::Started]);
        }
        Ok(out)
    }

    /// Asks the running scan to stop; has no effect when idle.
    pub fn cancel(&mut self)
        requires
            old(self)@.wf(),
        ensures
            final(self)@ == cancel_model(old(self)@),
            final(self)@.wf(),
    {
        if self.scan_in_progress {
            self.scan_cancelled = true;
        }
    }

    /// Offers an entry met while enumerating; it joins the files when it
    /// passes the filter. Returns whether enumeration goes on: it stops as
    /// soon as cancellation is asked for.
    pub fn offer(&mut self, path: String, is_root: bool, is_regular_file: bool, size: u64) -> (r: bool)
        requires
            old(self)@.wf(),
        ensures
            final(self)@ == offer_model(
                old(self)@,
                Candidate { path: path@, is_root: is_root, is_regular_file: is_regular_file, size: size },
            ),
            final(self)@.wf(),
            r == enumerating(old(self)@),
    {
        if !self.scan_in_progress || self.files_known || self.scan_cancelled {
            return false;
        }
        let ghost c = Candidate { path: path@, is_root: is_root, is_regular_file: is_regular_file, size: size };
        let ghost before = self.discovered@;
        let ghost met = before.push(c);
        self.discovered = Ghost(met);
        if admit_entry(is_root, is_regular_file, size, self.max_file_size) {
            self.files.push(path);
        }
        proof {
            assert(met.drop_last() =~= before);
            assert(self@.files =~= offer_model(old(self)@, c).files);
        }
        true
    }

    /// Ends enumeration: the files met so far are the scan's files.
    pub fn finish_enumeration(&mut self)
        requires
            old(self)@.wf(),
        ensures
            final(self)@ == finish_model(old(self)@),
            final(self)@.wf(),
    {
        if self.scan_in_progress && !self.files_known {
            self.files_known = true;
            self.next_file = 0;
        }
    }

    /// The file that the next step matches, if the next step matches one.
    pub fn pending_file(&self) -> (r: Option<String>)
        requires
            self@.wf(),
        ensures
            step_matches_file(self@) <==> r is Some,
            r matches Some(p) ==> p@ == self@.files[self@.next_file],
    {
        if self.scan_in_progress && self.files_known && !self.scan_cancelled && self.next_file
            < self.files.len() {
            Some(self.files[self.next_file].clone())
        } else {
            None
        }
    }

    /// One step of the pipeline: delivers the terminal event where the scan
    /// is cancelled or has no file left, else matches the next file's content
    /// (`None` where it could not be read, which counts as clean).
    pub fn step(&mut self, content: Option<&[u8]>, now: i64) -> (r: Vec<ScanEvent>)
        requires
            old(self)@.wf(),
        ensures
            final(self)@ == step_model(old(self)@, content_model(content), now),
            event_models(r@) == step_events(old(self)@, content_model(content), now),
            final(self)@.wf(),
    {
        let ghost s = self@;
        let ghost cm = content_model(content);
        proof {
            lemma_step_wf(s, cm, now);
        }
        let mut out: Vec<ScanEvent> = Vec::new();
        if !self.scan_in_progress || !self.files_known {
            assert(event_models(out@) =~= step_events(s, cm, now));
            return out;
        }
        if self.scan_cancelled || self.next_file >= self.files.len() {
            let e = if self.scan_cancelled {
                ScanEvent::Cancelled
            } else {
                ScanEvent::Completed {
                    threats_found: self.threats_found,
                    files_scanned: self.files_scanned as usize,
                }
            };
            out.push(e);
            self.scan_in_progress = false;
            let ghost log = self.events@ + event_models(out@);
            self.events = Ghost(log);
            assert(event_models(out@) =~= step_events(s, cm, now));
            assert(self@ == step_model(s, cm, now));
            return out;
        }
        let index = self.next_file;
        let found = match content {
            Some(c) => match_signatures(c, &self.snapshot),
            None => None,
        };
        match found {
            Some((k, offset)) => {
                proof {
                    let c = cm->Some_0;
                    assert(exists|j: int| first_match(c, s.snapshot, j));
                    let kk = choose|j: int| first_match(c, s.snapshot, j);
                    lemma_first_match_unique(c, s.snapshot, k as int, kk);
                    let oo = choose|o: int| first_occurrence(c, s.snapshot[kk].pattern, o);
                    assert(first_occurrence(c, s.snapshot[kk].pattern, offset as int));
                    lemma_first_occurrence_unique(c, s.snapshot[kk].pattern, offset as int, oo);
                }
                let threat = DetectedThreat {
                    signature: self.snapshot[k].duplicate(),
                    file_path: self.files[index].clone(),
                    offset: offset,
                    timestamp: now,
                };
                out.push(ScanEvent::ThreatFound(threat));
                self.threats_found = self.threats_found + 1;
            },
            None => {
                proof {
                    if let Some(c) = cm {
                        if exists|j: int| first_match(c, s.snapshot, j) {
                            let kk = choose|j: int| first_match(c, s.snapshot, j);
                            assert(no_match(c, s.snapshot));
                            assert(crate::matching::signature_matches(c, s.snapshot[kk]));
                        }
                    }
                }
            },
        }
        out.push(ScanEvent::Progress { current: index + 1, total: self.files.len() });
        self.files_scanned = self.files_scanned + 1;
        self.next_file = index + 1;
        let ghost log = self.events@ + event_models(out@);
            self.events = Ghost(log);
        assert(event_models(out@) =~= step_events(s, cm, now));
        assert(self@ == step_model(s, cm, now));
        out
    }
}

} // verus!
