use clean_master_privacy::audit::{AuditError, AuditStatus, PrivacyCategory};
use clean_master_privacy::cleanup::CleanupResult;
use clean_master_privacy::engine::Engine;
use clean_master_privacy::localization::{insert_entry, Localization};
use clean_master_privacy::model::Severity;
use clean_master_privacy::startup::{desktop_entry_text, desktop_file_name, startup_item_from_entry};

#[test]
fn privacy_audit_lists_three_fixable_issues() {
    let engine = Engine::new();
    let issues = engine.audit_privacy();
    let ids: Vec<&str> = issues.iter().map(|i| i.id.as_str()).collect();
    assert_eq!(ids, vec!["browser_history", "cookies", "recent_files"]);
    assert!(issues.iter().all(|i| i.can_fix && i.path.is_none()));
    assert_eq!(issues[2].category, PrivacyCategory::RecentFiles);
    assert_eq!(issues[2].severity, Severity::Warning);
}

#[test]
fn fixing_known_and_unknown_issues() {
    let engine = Engine::new();
    let fix = engine.fix_privacy_issue("cookies").unwrap();
    assert_eq!(fix.item_id, "cookies");
    assert!(fix.success);
    assert_eq!(fix.message, "Cookies cleared");
    assert_eq!(engine.fix_privacy_issue("recent_files").unwrap().message, "Recent files list cleared");
    assert_eq!(engine.fix_privacy_issue("registry").unwrap_err(), AuditError::UnknownPrivacyIssue);
}

#[test]
fn security_audit_reports_three_checks() {
    let engine = Engine::new();
    let items = engine.security_audit();
    let ids: Vec<&str> = items.iter().map(|i| i.id.as_str()).collect();
    assert_eq!(ids, vec!["firewall", "updates", "password_policy"]);
    assert_eq!(items[1].status, AuditStatus::Warning);
    assert_eq!(items[0].severity, Severity::Okay);
}

#[test]
fn anonymize_knows_tor_and_vpn() {
    let engine = Engine::new();
    assert_eq!(engine.anonymize("tor").unwrap().tool_used, "Tor");
    assert_eq!(engine.anonymize("vpn").unwrap().message, "VPN connection established");
    assert_eq!(engine.anonymize("proxy").unwrap_err(), AuditError::UnknownTool);
}

#[test]
fn cleanup_tally_counts_and_saturates() {
    let mut result = CleanupResult::new();
    result.record_removed(10);
    result.record_removed(32);
    result.record_error("Failed to remove x".to_string());
    assert_eq!(result.files_removed, 2);
    assert_eq!(result.space_freed, 42);
    assert_eq!(result.errors, vec!["Failed to remove x".to_string()]);
    result.record_removed(u64::MAX);
    assert_eq!(result.space_freed, u64::MAX);
    assert_eq!(result.files_removed, 3);
}

#[test]
fn desktop_entry_text_and_name() {
    assert_eq!(desktop_file_name("backup"), "backup.desktop");
    assert_eq!(
        desktop_entry_text("backup"),
        "[Desktop Entry]\nType=Application\nName=backup\nExec=backup\nHidden=false\n"
    );
}

#[test]
fn only_desktop_files_are_startup_items() {
    let item = startup_item_from_entry("sync.desktop", Some("desktop")).unwrap();
    assert_eq!(item.name, "sync.desktop");
    assert!(item.enabled);
    assert!(item.command.is_empty());
    assert!(startup_item_from_entry("notes.txt", Some("txt")).is_none());
    assert!(startup_item_from_entry("README", None).is_none());
}

#[test]
fn translations_follow_the_current_language() {
    let mut loc = Localization::new();
    assert_eq!(loc.get_language(), "en");
    assert_eq!(loc.t("scan"), "Scan");
    assert_eq!(loc.t("no_such_key"), "no_such_key");
    loc.set_language("tr");
    assert_eq!(loc.get_language(), "tr");
    assert_eq!(loc.t("scan"), "Tara");
    assert_eq!(loc.t("quit"), "Çıkış");
    loc.set_language("de");
    assert_eq!(loc.get_language(), "tr");
    assert_eq!(loc.get_available_languages(), vec!["en".to_string(), "tr".to_string()]);
}

#[test]
fn insert_entry_replaces_an_existing_key() {
    let mut entries = Vec::new();
    insert_entry(&mut entries, "a".to_string(), "1".to_string());
    insert_entry(&mut entries, "b".to_string(), "2".to_string());
    insert_entry(&mut entries, "a".to_string(), "3".to_string());
    assert_eq!(entries, vec![("a".to_string(), "3".to_string()), ("b".to_string(), "2".to_string())]);
}
