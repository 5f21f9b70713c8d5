//! The values that the engine reads and produces, with their views.

use vstd::prelude::*;

verus! {

/// How serious a finding is.
#[derive(Clone, Copy, Debug, PartialEq, Eq, Structural)]
pub enum Severity {
    Okay,
    Info,
    Warning,
    Critical,
}

impl Severity {
    /// The severity's name, as shown to users.
    pub fn name(&self) -> (r: &'static str) {
        match self {
            Severity::Okay => "Ok",
            Severity::Info => "Info",
            Severity::Warning => "Warning",
            Severity::Critical => "Critical",
        }
    }
}

/// The kind of threat that a signature stands for.
#[derive(Clone, Copy, Debug, PartialEq, Eq, Structural)]
pub enum ThreatCategory {
    Ransomware,
    Trojan,
    Spyware,
    Adware,
    Rootkit,
    Worm,
    Virus,
    PUP,
    Unknown,
}

impl ThreatCategory {
    /// The category's name, as shown to users.
    pub fn name(&self) -> (r: &'static str) {
        match self {
            ThreatCategory::Ransomware => "Ransomware",
            ThreatCategory::Trojan => "Trojan",
            ThreatCategory::Spyware => "Spyware",
            ThreatCategory::Adware => "Adware",
            ThreatCategory::Rootkit => "Rootkit",
            ThreatCategory::Worm => "Worm",
            ThreatCategory::Virus => "Virus",
            ThreatCategory::PUP => "PUP",
            ThreatCategory::Unknown => "Unknown",
        }
    }
}

/// A named byte pattern; a file whose bytes hold the pattern is a threat.
#[derive(Debug)]
pub struct ThreatSignature {
    pub name: String,
    pub pattern: Vec<u8>,
    pub category: ThreatCategory,
    pub severity: Severity,
}

/// The mathematical value of a signature.
pub struct SignatureModel {
    pub name: Seq<char>,
    pub pattern: Seq<u8>,
    pub category: ThreatCategory,
    pub severity: Severity,
}

impl View for ThreatSignature {
    type V = SignatureModel;

    open spec fn view(&self) -> SignatureModel {
        SignatureModel {
            name: self.name@,
            pattern: self.pattern@,
            category: self.category,
            severity: self.severity,
        }
    }
}

/// The models of a sequence of signatures, in order.
pub open spec fn signature_models(sigs: Seq<ThreatSignature>) -> Seq<SignatureModel> {
    sigs.map_values(|s: ThreatSignature| s@)
}

impl ThreatSignature {
    /// A copy of the signature.
    pub fn duplicate(&self) -> (r: ThreatSignature)
        ensures
            r@ == self@,
    {
        ThreatSignature {
            name: self.name.clone(),
            pattern: self.pattern.clone(),
            category: self.category,
            severity: self.severity,
        }
    }
}

/// A copy of each signature, in order.
pub fn duplicate_signatures(sigs: &Vec<ThreatSignature>) -> (r: Vec<ThreatSignature>)
    ensures
        signature_models(r@) == signature_models(sigs@),
{
    let mut out: Vec<ThreatSignature> = Vec::new();
    let mut i: usize = 0;
    while i < sigs.len()
        invariant
            i <= sigs@.len(),
            out@.len() == i,
            forall|j: int| 0 <= j < i ==> #[trigger] out@[j]@ == sigs@[j]@,
        decreases sigs@.len() - i,
    {
        out.push(sigs[i].duplicate());
        i = i + 1;
    }
    assert(signature_models(out@) =~= signature_models(sigs@));
    out
}

/// A file whose bytes hold a signature's pattern.
#[derive(Debug)]
pub struct DetectedThreat {
    pub signature: ThreatSignature,
    pub file_path: String,
    /// Index of the first byte of the pattern's first occurrence.
    pub offset: usize,
    /// Seconds since the Unix epoch.
    pub timestamp: i64,
}

/// The mathematical value of a detection.
pub struct DetectionModel {
    pub signature: SignatureModel,
    pub file_path: Seq<char>,
    pub offset: int,
    pub timestamp: i64,
}

impl View for DetectedThreat {
    type V = DetectionModel;

    open spec fn view(&self) -> DetectionModel {
        DetectionModel {
            signature: self.signature@,
            file_path: self.file_path@,
            offset: self.offset as int,
            timestamp: self.timestamp,
        }
    }
}

/// What a scan is for; the engine treats every kind alike.
#[derive(Clone, Copy, Debug, PartialEq, Eq, Structural)]
pub enum ScanType {
    Quick,
    Full,
    Custom,
    Boot,
    Memory,
}

/// The settings of one scan, fixed for its duration.
#[derive(Debug)]
pub struct ScanConfig {
    pub target_paths: Vec<String>,
    pub scan_type: ScanType,
    pub heuristic_enabled: bool,
    pub cloud_lookup_enabled: bool,
    /// Largest size, in bytes, of a file found inside a directory that is scanned.
    pub max_file_size: u64,
    pub excluded_extensions: Vec<String>,
    pub excluded_paths: Vec<String>,
}

/// One event of a scan's stream.
#[derive(Debug)]
pub enum ScanEvent {
    Started,
    Progress { current: usize, total: usize },
    ThreatFound(DetectedThreat),
    Completed { threats_found: usize, files_scanned: usize },
    Error(String),
    Cancelled,
}

/// The mathematical value of a scan event.
pub enum EventModel {
    Started,
    Progress { current: int, total: int },
    ThreatFound(DetectionModel),
    Completed { threats_found: int, files_scanned: int },
    Error(Seq<char>),
    Cancelled,
}

impl View for ScanEvent {
    type V = EventModel;

    open spec fn view(&self) -> EventModel {
        match self {
            ScanEvent::Started => EventModel::Started,
            ScanEvent::Progress { current, total } => EventModel::Progress {
                current: *current as int,
                total: *total as int,
            },
            ScanEvent::ThreatFound(t) => EventModel::ThreatFound(t@),
            ScanEvent::Completed { threats_found, files_scanned } => EventModel::Completed {
                threats_found: *threats_found as int,
                files_scanned: *files_scanned as int,
            },
            ScanEvent::Error(m) => EventModel::Error(m@),
            ScanEvent::Cancelled => EventModel::Cancelled,
        }
    }
}

/// The models of a sequence of events, in order.
pub open spec fn event_models(events: Seq<ScanEvent>) -> Seq<EventModel> {
    events.map_values(|e: ScanEvent| e@)
}

impl EventModel {
    /// A terminal event ends a scan's stream.
    pub open spec fn is_terminal(self) -> bool {
        self is Completed || self is Cancelled
    }
}

/// Why a scan could not start.
#[derive(Clone, Copy, Debug, PartialEq, Eq, Structural)]
pub enum ScanError {
    ScanAlreadyRunning,
}

/// The record of one isolated file.
#[derive(Debug)]
pub struct QuarantineItem {
    pub id: String,
    pub original_path: String,
    pub quarantine_path: String,
    pub threat_name: String,
    /// Seconds since the Unix epoch.
    pub timestamp: i64,
    /// Lower-case hex SHA-256 digest of the file's content.
    pub file_hash: String,
}

/// The mathematical value of a quarantine record.
pub struct QuarantineModel {
    pub id: Seq<char>,
    pub original_path: Seq<char>,
    pub quarantine_path: Seq<char>,
    pub threat_name: Seq<char>,
    pub timestamp: i64,
    pub file_hash: Seq<char>,
}

impl View for QuarantineItem {
    type V = QuarantineModel;

    open spec fn view(&self) -> QuarantineModel {
        QuarantineModel {
            id: self.id@,
            original_path: self.original_path@,
            quarantine_path: self.quarantine_path@,
            threat_name: self.threat_name@,
            timestamp: self.timestamp,
            file_hash: self.file_hash@,
        }
    }
}

impl QuarantineItem {
    /// A copy of the record.
    pub fn duplicate(&self) -> (r: QuarantineItem)
        ensures
            r@ == self@,
    {
        QuarantineItem {
            id: self.id.clone(),
            original_path: self.original_path.clone(),
            quarantine_path: self.quarantine_path.clone(),
            threat_name: self.threat_name.clone(),
            timestamp: self.timestamp,
            file_hash: self.file_hash.clone(),
        }
    }
}

/// The models of a sequence of quarantine records, in order.
pub open spec fn quarantine_models(items: Seq<QuarantineItem>) -> Seq<QuarantineModel> {
    items.map_values(|i: QuarantineItem| i@)
}

/// Why a quarantine operation failed.
#[derive(Clone, Copy, Debug, PartialEq, Eq, Structural)]
pub enum QuarantineError {
    /// The file to isolate does not exist.
    NotFound,
    /// Reading, moving or removing a file failed.
    IoError,
    /// No record has the given id.
    NotFoundInQuarantine,
    /// A file already stands where a restored file would go.
    DestinationOccupied,
    /// The records and the files disagree, or an id is taken twice.
    InternalInconsistency,
    /// The shared engine could not be locked.
    LockAcquisitionFailure,
}

/// How a notification is shown.
#[derive(Clone, Copy, Debug, PartialEq, Eq, Structural)]
pub enum NotificationLevel {
    Info,
    Warning,
    Error,
    Success,
}

/// One entry of the notification log.
#[derive(Debug)]
pub struct Notification {
    pub id: u64,
    pub title: String,
    pub message: String,
    pub level: NotificationLevel,
    /// Seconds since the Unix epoch.
    pub timestamp: i64,
}

/// The mathematical value of a notification.
pub struct NotificationModel {
    pub id: u64,
    pub title: Seq<char>,
    pub message: Seq<char>,
    pub level: NotificationLevel,
    pub timestamp: i64,
}

impl View for Notification {
    type V = NotificationModel;

    open spec fn view(&self) -> NotificationModel {
        NotificationModel {
            id: self.id,
            title: self.title@,
            message: self.message@,
            level: self.level,
            timestamp: self.timestamp,
        }
    }
}

impl Notification {
    /// A copy of the notification.
    pub fn duplicate(&self) -> (r: Notification)
        ensures
            r@ == self@,
    {
        Notification {
            id: self.id,
            title: self.title.clone(),
            message: self.message.clone(),
            level: self.level,
            timestamp: self.timestamp,
        }
    }
}

/// The models of a sequence of notifications, in order.
pub open spec fn notification_models(items: Seq<Notification>) -> Seq<NotificationModel> {
    items.map_values(|n: Notification| n@)
}

} // verus!
