//! The privacy and security checklists, and the fixes and tools they offer.

use vstd::prelude::*;
use crate::model::Severity;
use crate::engine::Engine;

verus! {

/// What a privacy issue concerns.
#[derive(Clone, Copy, Debug, PartialEq, Eq, Structural)]
pub enum PrivacyCategory {
    BrowserHistory,
    Cookies,
    Cache,
    RecentFiles,
    TempFiles,
    Registry,
    NetworkHistory,
    ApplicationLogs,
}

/// One finding of the privacy audit.
#[derive(Debug)]
pub struct PrivacyIssue {
    pub id: String,
    pub title: String,
    pub description: String,
    pub severity: Severity,
    pub category: PrivacyCategory,
    pub path: Option<String>,
    pub can_fix: bool,
}

/// The outcome of a security check.
#[derive(Clone, Copy, Debug, PartialEq, Eq, Structural)]
pub enum AuditStatus {
    Pass,
    Fail,
    Warning,
    NotApplicable,
}

/// One check of the security audit.
#[derive(Debug)]
pub struct AuditItem {
    pub id: String,
    pub title: String,
    pub description: String,
    pub status: AuditStatus,
    pub severity: Severity,
    pub recommendation: String,
}

/// The outcome of fixing a privacy issue.
#[derive(Debug)]
pub struct FixResult {
    pub item_id: String,
    pub success: bool,
    pub message: String,
}

/// The outcome of turning on an anonymisation tool.
#[derive(Debug)]
pub struct AnonymizeResult {
    pub tool_used: String,
    pub success: bool,
    pub message: String,
}

/// A device driver and whether a newer version is wanted.
#[derive(Debug)]
pub struct DriverInfo {
    pub name: String,
    pub version: String,
    pub status: String,
    pub needs_update: bool,
}

/// Why a request named nothing that the engine knows.
#[derive(Clone, Copy, Debug, PartialEq, Eq, Structural)]
pub enum AuditError {
    UnknownPrivacyIssue,
    UnknownTool,
}

/// The ids of the privacy issues that the audit reports, in order.
pub open spec fn privacy_issue_ids() -> Seq<Seq<char>> {
    seq!["browser_history"@, "cookies"@, "recent_files"@]
}

/// The message of a successful fix of the issue with this id.
pub open spec fn fix_message(id: Seq<char>) -> Seq<char> {
    if id == "browser_history"@ {
        "Browser history cleared"@
    } else if id == "cookies"@ {
        "Cookies cleared"@
    } else {
        "Recent files list cleared"@
    }
}

/// The ids of the security checks, in order.
pub open spec fn audit_item_ids() -> Seq<Seq<char>> {
    seq!["firewall"@, "updates"@, "password_policy"@]
}

fn privacy_issue(
    id: &str,
    title: &str,
    description: &str,
    severity: Severity,
    category: PrivacyCategory,
) -> (r: PrivacyIssue)
    ensures
        r.id@ == id@,
        r.title@ == title@,
        r.description@ == description@,
        r.severity == severity,
        r.category == category,
        r.path is None,
        r.can_fix,
{
    PrivacyIssue {
        id: String::from_str(id),
        title: String::from_str(title),
        description: String::from_str(description),
        severity: severity,
        category: category,
        path: None,
        can_fix: true,
    }
}

fn audit_item(
    id: &str,
    title: &str,
    description: &str,
    status: AuditStatus,
    severity: Severity,
    recommendation: &str,
) -> (r: AuditItem)
    ensures
        r.id@ == id@,
        r.title@ == title@,
        r.description@ == description@,
        r.status == status,
        r.severity == severity,
        r.recommendation@ == recommendation@,
{
    AuditItem {
        id: String::from_str(id),
        title: String::from_str(title),
        description: String::from_str(description),
        status: status,
        severity: severity,
        recommendation: String::from_str(recommendation),
    }
}

impl Engine {
    /// The privacy issues that can be fixed: browser history, cookies and
    /// the recent files list.
    pub fn audit_privacy(&self) -> (r: Vec<PrivacyIssue>)
        ensures
            r@.len() == 3,
            forall|i: int| 0 <= i < 3 ==> (#[trigger] r@[i]).id@ == privacy_issue_ids()[i],
            forall|i: int| 0 <= i < 3 ==> (#[trigger] r@[i]).can_fix,
            r@[0].category == PrivacyCategory::BrowserHistory && r@[0].severity == Severity::Info,
            r@[1].category == PrivacyCategory::Cookies && r@[1].severity == Severity::Info,
            r@[2].category == PrivacyCategory::RecentFiles && r@[2].severity == Severity::Warning,
    {
        let mut issues: Vec<PrivacyIssue> = Vec::new();
        issues.push(
            privacy_issue(
                "browser_history",
                "Browser History",
                "Browser history may contain sensitive information",
                Severity::Info,
                PrivacyCategory::BrowserHistory,
            ),
        );
        issues.push(
            privacy_issue(
                "cookies",
                "Browser Cookies",
                "Cookies may track your online activity",
                Severity::Info,
                PrivacyCategory::Cookies,
            ),
        );
        issues.push(
            privacy_issue(
                "recent_files",
                "Recent Files List",
                "Recent files list may reveal your activity",
                Severity::Warning,
                PrivacyCategory::RecentFiles,
            ),
        );
        issues
    }

    /// Fixes the privacy issue with this id; an id that the audit does not
    /// report is refused.
    pub fn fix_privacy_issue(&self, issue_id: &str) -> (r: Result<FixResult, AuditError>)
        ensures
            privacy_issue_ids().contains(issue_id@) ==> r is Ok && r->Ok_0.item_id@ == issue_id@
                && r->Ok_0.success && r->Ok_0.message@ == fix_message(issue_id@),
            !privacy_issue_ids().contains(issue_id@) ==> r == Err::<FixResult, AuditError>(
                AuditError::UnknownPrivacyIssue,
            ),
    {
        proof {
            assert(privacy_issue_ids()[0] == "browser_history"@);
            assert(privacy_issue_ids()[1] == "cookies"@);
            assert(privacy_issue_ids()[2] == "recent_files"@);
        }
        let id = String::from_str(issue_id);
        let message = if id == String::from_str("browser_history") {
            "Browser history cleared"
        } else if id == String::from_str("cookies") {
            "Cookies cleared"
        } else if id == String::from_str("recent_files") {
            "Recent files list cleared"
        } else {
            return Err(AuditError::UnknownPrivacyIssue);
        };
        Ok(FixResult { item_id: id, success: true, message: String::from_str(message) })
    }

    /// The security checks: firewall, system updates and password policy.
    pub fn security_audit(&self) -> (r: Vec<AuditItem>)
        ensures
            r@.len() == 3,
            forall|i: int| 0 <= i < 3 ==> (#[trigger] r@[i]).id@ == audit_item_ids()[i],
            r@[0].status == AuditStatus::Pass && r@[0].severity == Severity::Okay,
            r@[1].status == AuditStatus::Warning && r@[1].severity == Severity::Warning,
            r@[2].status == AuditStatus::Pass && r@[2].severity == Severity::Okay,
    {
        let mut items: Vec<AuditItem> = Vec::new();
        items.push(
            audit_item(
                "firewall",
                "Firewall Status",
                "Check if firewall is enabled",
                AuditStatus::Pass,
                Severity::Okay,
                "Keep firewall enabled",
            ),
        );
        items.push(
            audit_item(
                "updates",
                "System Updates",
                "Check for available system updates",
                AuditStatus::Warning,
                Severity::Warning,
                "Install pending updates",
            ),
        );
        items.push(
            audit_item(
                "password_policy",
                "Password Policy",
                "Check password strength requirements",
                AuditStatus::Pass,
                Severity::Okay,
                "Use strong passwords",
            ),
        );
        items
    }

    /// Turns on the named anonymisation tool, `tor` or `vpn`; any other name
    /// is refused.
    pub fn anonymize(&self, tool: &str) -> (r: Result<AnonymizeResult, AuditError>)
        ensures
            tool@ == "tor"@ ==> r is Ok && r->Ok_0.tool_used@ == "Tor"@ && r->Ok_0.success,
            tool@ == "vpn"@ ==> r is Ok && r->Ok_0.tool_used@ == "VPN"@ && r->Ok_0.success,
            tool@ != "tor"@ && tool@ != "vpn"@ ==> r == Err::<AnonymizeResult, AuditError>(
                AuditError::UnknownTool,
            ),
    {
        proof {
            reveal_strlit("tor");
            reveal_strlit("vpn");
            assert("vpn"@[0] != "tor"@[0]);
        }
        let name = String::from_str(tool);
        if name == String::from_str("tor") {
            Ok(
                AnonymizeResult {
                    tool_used: String::from_str("Tor"),
                    success: true,
                    message: String::from_str("Tor anonymization enabled"),
                },
            )
        } else if name == String::from_str("vpn") {
            Ok(
                AnonymizeResult {
                    tool_used: String::from_str("VPN"),
                    success: true,
                    message: String::from_str("VPN connection established"),
                },
            )
        } else {
            Err(AuditError::UnknownTool)
        }
    }
}

} // verus!
