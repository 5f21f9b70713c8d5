use clean_master_privacy::engine::{Engine, EICAR_SIGNATURE_NAME, EICAR_TEST_PATTERN};
use clean_master_privacy::scan::admit_entry;
use clean_master_privacy::hashing::{content_hash, derive_quarantine_id, join};
use clean_master_privacy::matching::match_signatures;
use clean_master_privacy::model::{
    NotificationLevel, QuarantineError, ScanConfig, ScanError, ScanEvent, ScanType, Severity,
    ThreatCategory, ThreatSignature,
};

fn config(max_file_size: u64) -> ScanConfig {
    ScanConfig {
        target_paths: vec!["/data".to_string()],
        scan_type: ScanType::Custom,
        heuristic_enabled: false,
        cloud_lookup_enabled: false,
        max_file_size,
        excluded_extensions: vec![],
        excluded_paths: vec![],
    }
}

fn offer_files(engine: &mut Engine, paths: &[&str]) {
    for p in paths {
        assert!(engine.offer_scan_entry(p.to_string(), false, true, 10));
    }
    engine.finish_enumeration();
}

fn signature(name: &str, pattern: &[u8]) -> ThreatSignature {
    ThreatSignature {
        name: name.to_string(),
        pattern: pattern.to_vec(),
        category: ThreatCategory::Trojan,
        severity: Severity::Critical,
    }
}

fn progress_count(events: &[ScanEvent]) -> usize {
    events.iter().filter(|e| matches!(e, ScanEvent::Progress { .. })).count()
}

fn found_count(events: &[ScanEvent]) -> usize {
    events.iter().filter(|e| matches!(e, ScanEvent::ThreatFound(_))).count()
}

/// Runs a whole scan over the given files and contents, and returns every event.
fn run_scan(engine: &mut Engine, files: &[(&str, Option<&[u8]>)]) -> Vec<ScanEvent> {
    let mut events = engine.start_scan(&config(1 << 20)).expect("scan starts");
    let paths: Vec<&str> = files.iter().map(|(p, _)| *p).collect();
    offer_files(engine, &paths);
    let mut i = 0;
    loop {
        let content = if engine.pending_scan_file().is_some() { files[i].1 } else { None };
        let step = engine.scan_file_content(content, 1_700_000_000);
        let done = step.is_empty()
            || step.iter().any(|e| matches!(e, ScanEvent::Completed { .. } | ScanEvent::Cancelled));
        events.extend(step);
        i += 1;
        if done {
            return events;
        }
    }
}

#[test]
fn eicar_file_yields_one_threat_at_offset_zero() {
    let mut engine = Engine::new();
    let sig = ThreatSignature {
        name: "EICAR".to_string(),
        pattern: b"X5O!P%@AP[4\\PZX54(P^)7CC)7}$EICAR-STANDARD-ANTIVIRUS-TEST-FILE!$H+H*".to_vec(),
        category: ThreatCategory::Virus,
        severity: Severity::Info,
    };
    engine.update_signature_database(vec![sig]);
    let content = b"X5O!P%@AP[4\\PZX54(P^)7CC)7}$EICAR-STANDARD-ANTIVIRUS-TEST-FILE!$H+H*".to_vec();
    let events = run_scan(&mut engine, &[("/tmp/eicar.com", Some(&content))]);
    assert!(matches!(events[0], ScanEvent::Started));
    assert_eq!(found_count(&events), 1);
    match &events[1] {
        ScanEvent::ThreatFound(t) => {
            assert_eq!(t.signature.name, "EICAR");
            assert_eq!(t.file_path, "/tmp/eicar.com");
            assert_eq!(t.offset, 0);
            assert_eq!(t.timestamp, 1_700_000_000);
        }
        other => panic!("unexpected {:?}", other),
    }
    assert!(matches!(events[2], ScanEvent::Progress { current: 1, total: 1 }));
    assert!(matches!(events[3], ScanEvent::Completed { threats_found: 1, files_scanned: 1 }));
    assert_eq!(events.len(), 4);
    assert_eq!(engine.get_scan_progress(), (1, 1));
    assert!(!engine.is_scanning());
}

#[test]
fn builtin_signature_is_the_test_file() {
    let sigs = Engine::load_builtin_signatures();
    assert_eq!(sigs.len(), 1);
    assert_eq!(sigs[0].name, EICAR_SIGNATURE_NAME);
    assert_eq!(sigs[0].pattern, EICAR_TEST_PATTERN.as_bytes().to_vec());
    assert_eq!(sigs[0].pattern.len(), 68);
    assert_eq!(sigs[0].category, ThreatCategory::Virus);
    assert_eq!(sigs[0].severity, Severity::Info);
}

#[test]
fn offset_is_the_first_occurrence() {
    let mut engine = Engine::new();
    engine.update_threat_database();
    let mut content = b"hello ".to_vec();
    content.extend_from_slice(EICAR_TEST_PATTERN.as_bytes());
    content.extend_from_slice(EICAR_TEST_PATTERN.as_bytes());
    let events = run_scan(&mut engine, &[("a", Some(&content))]);
    match &events[1] {
        ScanEvent::ThreatFound(t) => {
            assert_eq!(t.offset, 6);
            assert_eq!(t.signature.name, "EICAR-Test-File");
        }
        other => panic!("unexpected {:?}", other),
    }
}

#[test]
fn completed_count_equals_progress_events() {
    let mut engine = Engine::new();
    engine.update_signature_database(vec![signature("bad", b"evil")]);
    let clean: &[u8] = b"nothing here";
    let dirty: &[u8] = b"some evil bytes";
    let files = [("a", Some(clean)), ("b", Some(dirty)), ("c", None), ("d", Some(dirty))];
    let events = run_scan(&mut engine, &files);
    assert_eq!(progress_count(&events), 4);
    assert_eq!(found_count(&events), 2);
    match events.last().unwrap() {
        ScanEvent::Completed { threats_found, files_scanned } => {
            assert_eq!(*files_scanned, progress_count(&events));
            assert!(*files_scanned <= files.len());
            assert_eq!(*threats_found, 2);
        }
        other => panic!("unexpected {:?}", other),
    }
    let currents: Vec<usize> = events
        .iter()
        .filter_map(|e| match e {
            ScanEvent::Progress { current, total } => {
                assert_eq!(*total, 4);
                Some(*current)
            }
            _ => None,
        })
        .collect();
    assert_eq!(currents, vec![1, 2, 3, 4]);
}

#[test]
fn first_matching_signature_wins() {
    let mut engine = Engine::new();
    engine.update_signature_database(vec![
        signature("none", b"zzz"),
        signature("second", b"cd"),
        signature("third", b"ab"),
    ]);
    let content: &[u8] = b"abcd";
    let events = run_scan(&mut engine, &[("f", Some(content))]);
    assert_eq!(found_count(&events), 1);
    match &events[1] {
        ScanEvent::ThreatFound(t) => {
            assert_eq!(t.signature.name, "second");
            assert_eq!(t.offset, 2);
        }
        other => panic!("unexpected {:?}", other),
    }
}

#[test]
fn match_signatures_reports_index_and_offset() {
    let sigs = vec![signature("x", b"q"), signature("y", b"lo"), signature("z", b"h")];
    assert_eq!(match_signatures(b"hello", &sigs), Some((1, 3)));
    assert_eq!(match_signatures(b"", &sigs), None);
    assert_eq!(match_signatures(b"abc", &sigs), None);
}

#[test]
fn unreadable_file_counts_as_clean() {
    let mut engine = Engine::new();
    engine.update_threat_database();
    let events = run_scan(&mut engine, &[("gone", None)]);
    assert_eq!(found_count(&events), 0);
    assert!(matches!(events.last().unwrap(), ScanEvent::Completed { threats_found: 0, files_scanned: 1 }));
}

#[test]
fn empty_scan_completes_with_zero() {
    let mut engine = Engine::new();
    let events = run_scan(&mut engine, &[]);
    assert_eq!(events.len(), 2);
    assert!(matches!(events[1], ScanEvent::Completed { threats_found: 0, files_scanned: 0 }));
}

#[test]
fn second_start_is_refused_and_keeps_counters() {
    let mut engine = Engine::new();
    engine.update_signature_database(vec![signature("bad", b"evil")]);
    engine.start_scan(&config(100)).expect("first start");
    offer_files(&mut engine, &["a", "b"]);
    let dirty: &[u8] = b"evil";
    engine.scan_file_content(Some(dirty), 5);
    assert_eq!(engine.get_scan_progress(), (1, 1));
    assert_eq!(engine.start_scan(&config(100)).unwrap_err(), ScanError::ScanAlreadyRunning);
    assert_eq!(engine.get_scan_progress(), (1, 1));
    assert!(engine.is_scanning());
}

#[test]
fn cancel_before_any_file_yields_cancelled() {
    let mut engine = Engine::new();
    engine.update_threat_database();
    let mut events = engine.start_scan(&config(100)).unwrap();
    engine.cancel_scan();
    engine.cancel_scan();
    assert!(engine.is_cancel_requested());
    assert!(!engine.offer_scan_entry("a".to_string(), false, true, 1));
    engine.finish_enumeration();
    assert_eq!(engine.pending_scan_file(), None);
    let content = EICAR_TEST_PATTERN.as_bytes();
    events.extend(engine.scan_file_content(Some(content), 1));
    assert_eq!(events.len(), 2);
    assert!(matches!(events[1], ScanEvent::Cancelled));
    assert_eq!(engine.get_scan_progress(), (0, 0));
    assert!(!engine.is_scanning());
    assert!(engine.scan_file_content(Some(content), 2).is_empty());
}

#[test]
fn cancel_when_idle_has_no_effect() {
    let mut engine = Engine::new();
    engine.cancel_scan();
    assert!(!engine.is_cancel_requested());
    assert!(!engine.is_scanning());
    assert!(engine.start_scan(&config(100)).is_ok());
}

#[test]
fn snapshot_is_kept_when_signatures_change() {
    let mut engine = Engine::new();
    engine.update_signature_database(vec![signature("old", b"abc")]);
    engine.start_scan(&config(100)).unwrap();
    engine.update_signature_database(vec![signature("new", b"xyz")]);
    offer_files(&mut engine, &["f"]);
    let content: &[u8] = b"abc";
    let events = engine.scan_file_content(Some(content), 0);
    match &events[0] {
        ScanEvent::ThreatFound(t) => assert_eq!(t.signature.name, "old"),
        other => panic!("unexpected {:?}", other),
    }
}

#[test]
fn enumeration_keeps_admitted_entries_in_order() {
    let mut engine = Engine::new();
    engine.start_scan(&config(100)).unwrap();
    assert!(engine.offer_scan_entry("/data".to_string(), true, false, 4096));
    assert!(engine.offer_scan_entry("/data/big.iso".to_string(), false, true, 101));
    assert!(engine.offer_scan_entry("/data/small.txt".to_string(), false, true, 100));
    assert!(engine.offer_scan_entry("/data/link".to_string(), false, false, 5));
    assert!(engine.offer_scan_entry("/root.bin".to_string(), true, true, 5000));
    engine.finish_enumeration();
    assert!(!engine.offer_scan_entry("/late".to_string(), false, true, 1));
    assert_eq!(engine.pending_scan_file(), Some("/data/small.txt".to_string()));
    let events = engine.scan_file_content(None, 0);
    assert!(matches!(events[0], ScanEvent::Progress { current: 1, total: 2 }));
    assert_eq!(engine.pending_scan_file(), Some("/root.bin".to_string()));
}

#[test]
fn entry_filter_follows_size_and_kind() {
    assert!(admit_entry(false, true, 100, 100));
    assert!(!admit_entry(false, true, 101, 100));
    assert!(!admit_entry(false, false, 1, 100));
    assert!(admit_entry(true, true, 500, 100));
    assert!(!admit_entry(true, false, 0, 100));
}

#[test]
fn content_hash_is_sha256_hex() {
    assert_eq!(
        content_hash(b"abc"),
        "ba7816bf8f01cfea414140de5dae2223b00361a396177a9cb410ff61f20015ad"
    );
    assert_eq!(
        content_hash(b""),
        "e3b0c44298fc1c149afbf4c8996fb92427ae41e4649b934ca495991b7852b855"
    );
}

#[test]
fn quarantine_id_joins_prefix_and_time() {
    assert_eq!(derive_quarantine_id("0123456789abcdef0123", 1700000000), "0123456789abcdef_1700000000");
    assert_eq!(derive_quarantine_id("abc", -42), "abc_-42");
    assert_eq!(derive_quarantine_id("0123456789abcdef", 0), "0123456789abcdef_0");
    assert_eq!(join("/q", "id"), "/q/id");
    assert_eq!(join("/q/", "id"), "/q/id");
    assert_eq!(join("", "id"), "id");
}

#[test]
fn two_files_in_the_same_second_get_distinct_ids() {
    let mut engine = Engine::new();
    let a = engine.plan_quarantine("/home/u/a.exe", "EICAR", b"first file", 1_700_000_000, "/q").unwrap();
    engine.quarantine(a).unwrap();
    let b = engine.plan_quarantine("/home/u/b.exe", "EICAR", b"second file", 1_700_000_000, "/q").unwrap();
    engine.quarantine(b).unwrap();
    let items = engine.get_quarantine_items();
    assert_eq!(items.len(), 2);
    assert_ne!(items[0].id, items[1].id);
    assert_eq!(items[0].id, format!("{}_1700000000", &content_hash(b"first file")[..16]));
    assert_eq!(items[0].quarantine_path, format!("/q/{}", items[0].id));
}

#[test]
fn same_content_same_second_is_a_conflict() {
    let mut engine = Engine::new();
    let a = engine.plan_quarantine("/a", "T", b"same", 7, "/q").unwrap();
    let dup = engine.plan_quarantine("/b", "T", b"same", 7, "/q").unwrap();
    engine.quarantine(a).unwrap();
    assert_eq!(
        engine.plan_quarantine("/b", "T", b"same", 7, "/q").unwrap_err(),
        QuarantineError::InternalInconsistency
    );
    assert_eq!(engine.quarantine(dup).unwrap_err(), QuarantineError::InternalInconsistency);
    assert_eq!(engine.get_quarantine_items().len(), 1);
}

#[test]
fn isolate_then_restore_gives_back_the_record() {
    let mut engine = Engine::new();
    let content = b"malicious payload";
    let item = engine.plan_quarantine("/home/u/x.bin", "EICAR", content, 99, "/q").unwrap();
    let recorded = engine.quarantine(item).unwrap();
    assert_eq!(recorded.file_hash, content_hash(content));
    assert_eq!(engine.find_quarantine_item(&recorded.id).unwrap().original_path, "/home/u/x.bin");
    let restored = engine.restore_from_quarantine(&recorded.id, false).unwrap();
    assert_eq!(restored.original_path, "/home/u/x.bin");
    assert_eq!(restored.file_hash, content_hash(content));
    assert_eq!(restored.quarantine_path, recorded.quarantine_path);
    assert!(engine.get_quarantine_items().is_empty());
    assert!(engine.find_quarantine_item(&recorded.id).is_none());
}

#[test]
fn restore_onto_occupied_path_keeps_the_record() {
    let mut engine = Engine::new();
    let item = engine.plan_quarantine("/a", "T", b"x", 1, "/q").unwrap();
    let recorded = engine.quarantine(item).unwrap();
    assert_eq!(
        engine.restore_from_quarantine(&recorded.id, true).unwrap_err(),
        QuarantineError::DestinationOccupied
    );
    assert_eq!(engine.get_quarantine_items().len(), 1);
}

#[test]
fn unknown_id_is_not_found_and_changes_nothing() {
    let mut engine = Engine::new();
    let item = engine.plan_quarantine("/a", "T", b"x", 1, "/q").unwrap();
    engine.quarantine(item).unwrap();
    assert_eq!(
        engine.restore_from_quarantine("nope", false).unwrap_err(),
        QuarantineError::NotFoundInQuarantine
    );
    assert_eq!(engine.delete_from_quarantine("nope").unwrap_err(), QuarantineError::NotFoundInQuarantine);
    assert_eq!(engine.get_quarantine_items().len(), 1);
}

#[test]
fn delete_removes_the_record() {
    let mut engine = Engine::new();
    let item = engine.plan_quarantine("/a", "T", b"x", 1, "/q").unwrap();
    let recorded = engine.quarantine(item).unwrap();
    let deleted = engine.delete_from_quarantine(&recorded.id).unwrap();
    assert_eq!(deleted.id, recorded.id);
    assert!(engine.get_quarantine_items().is_empty());
}

#[test]
fn notification_ids_increase_and_survive_clear() {
    let mut engine = Engine::new();
    let a = engine.append_notification("t1".to_string(), "m1".to_string(), NotificationLevel::Info, 10);
    let b = engine.add_notification("t2".to_string(), "m2".to_string(), NotificationLevel::Warning);
    assert_eq!(a, Some(0));
    assert_eq!(b, Some(1));
    let log = engine.get_notifications();
    assert_eq!(log.len(), 2);
    assert_eq!(log[0].title, "t1");
    assert_eq!(log[0].timestamp, 10);
    assert_eq!(log[1].level, NotificationLevel::Warning);
    engine.clear_notifications();
    assert!(engine.get_notifications().is_empty());
    let c = engine.append_notification("t3".to_string(), "m3".to_string(), NotificationLevel::Success, 11);
    assert_eq!(c, Some(2));
}

#[test]
fn notification_ids_run_out_without_reuse() {
    let mut engine = Engine::new();
    engine.notification_id_counter = u64::MAX;
    let r = engine.append_notification("t".to_string(), "m".to_string(), NotificationLevel::Error, 0);
    assert_eq!(r, None);
    assert!(engine.get_notifications().is_empty());
}

#[test]
fn names_of_severities_and_categories() {
    assert_eq!(Severity::Okay.name(), "Ok");
    assert_eq!(Severity::Critical.name(), "Critical");
    assert_eq!(ThreatCategory::PUP.name(), "PUP");
    assert_eq!(ThreatCategory::Ransomware.name(), "Ransomware");
}
