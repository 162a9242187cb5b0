//! The failures that the control plane reports.

use vstd::prelude::*;
use vstd::string::*;
use crate::text::{join2, join3, join4};

verus! {

/// What went wrong, by class: preconditions, configuration, lookups,
/// resource conflicts, external tools, timing and persistence.
#[derive(Clone, Copy, Debug, PartialEq, Eq, Structural)]
pub enum FailureKind {
    KvmUnavailable,
    PrivilegeRequired,
    MissingHostTool,
    ConfigInvalid,
    VmNotFound,
    ConfigFileNotFound,
    KernelNotFound,
    TapInUse,
    MacInUse,
    ApiSocketInUse,
    ProjectDirAlreadyBound,
    NameInUse,
    IdInUse,
    ExternalCommandFailed,
    HttpApiFailed,
    DownloadFailed,
    HypervisorStartTimeout,
    GuestDhcpTimeout,
    DatabaseError,
    MigrationFailed,
}

/// A failure: its class, what it is about (a command, a name, a path, an
/// endpoint), the exit or status code where there is one, and the text that
/// came with it (a tool's stderr, a response body).
#[derive(Clone, Debug, PartialEq, Eq)]
pub struct Failure {
    pub kind: FailureKind,
    pub subject: String,
    pub code: Option<i32>,
    pub detail: String,
}

pub struct FailureView {
    pub kind: FailureKind,
    pub subject: Seq<char>,
    pub code: Option<i32>,
    pub detail: Seq<char>,
}

impl View for Failure {
    type V = FailureView;

    open spec fn view(&self) -> FailureView {
        FailureView { kind: self.kind, subject: self.subject@, code: self.code, detail: self.detail@ }
    }
}

impl DeepView for Failure {
    type V = FailureView;

    open spec fn deep_view(&self) -> FailureView {
        self@
    }
}

/// A result as contracts see it: both sides by their views.
pub open spec fn lifted<T: DeepView>(r: Result<T, Failure>) -> Result<T::V, FailureView> {
    match r {
        Ok(v) => Ok(v.deep_view()),
        Err(e) => Err(e@),
    }
}

/// A failure of class `kind` with nothing more to say.
pub open spec fn bare(kind: FailureKind) -> FailureView {
    FailureView { kind, subject: Seq::empty(), code: None, detail: Seq::empty() }
}

/// A failure of class `kind` about `subject`.
pub open spec fn about(kind: FailureKind, subject: Seq<char>) -> FailureView {
    FailureView { kind, subject, code: None, detail: Seq::empty() }
}

/// The one-line text of a failure.
pub open spec fn message_of(e: FailureView) -> Seq<char> {
    match e.kind {
        FailureKind::KvmUnavailable => "KVM is not available. Please ensure KVM is enabled in your system."@,
        FailureKind::PrivilegeRequired => "sudo is required for command '"@ + e.subject
            + "', but not available"@,
        FailureKind::MissingHostTool => e.subject + " is not installed. Please install it first."@,
        FailureKind::ConfigInvalid => "Invalid configuration: "@ + e.detail,
        FailureKind::VmNotFound => "No virtual machine found with name or id '"@ + e.subject + "'"@,
        FailureKind::ConfigFileNotFound => "Configuration file not found"@,
        FailureKind::KernelNotFound => "Kernel file "@ + e.subject + " does not exist"@,
        FailureKind::TapInUse => "Tap device name "@ + e.subject + " is already in use"@,
        FailureKind::MacInUse => "MAC address "@ + e.subject + " is already in use"@,
        FailureKind::ApiSocketInUse => "API socket "@ + e.subject + " is already in use"@,
        FailureKind::ProjectDirAlreadyBound => "Project directory "@ + e.subject
            + " already has a virtual machine"@,
        FailureKind::NameInUse => "Name "@ + e.subject + " is already in use"@,
        FailureKind::IdInUse => "Id "@ + e.subject + " is already in use"@,
        FailureKind::ExternalCommandFailed => "Command "@ + e.subject + " failed: "@ + e.detail,
        FailureKind::HttpApiFailed => "Request to "@ + e.subject + " failed: "@ + e.detail,
        FailureKind::DownloadFailed => "Failed to download "@ + e.subject,
        FailureKind::HypervisorStartTimeout => "Timed out waiting for Firecracker to start"@,
        FailureKind::GuestDhcpTimeout => "Timed out waiting for the guest to obtain an IP address"@,
        FailureKind::DatabaseError => "Database operation failed: "@ + e.subject,
        FailureKind::MigrationFailed => "Failed to apply migration: "@ + e.subject,
    }
}

impl Failure {
    pub fn new(kind: FailureKind) -> (e: Failure)
        ensures
            e@ == bare(kind),
    {
        Failure { kind, subject: String::new(), code: None, detail: String::new() }
    }

    pub fn about(kind: FailureKind, subject: &str) -> (e: Failure)
        ensures
            e@ == about(kind, subject@),
    {
        Failure { kind, subject: String::from_str(subject), code: None, detail: String::new() }
    }

    pub fn with_detail(kind: FailureKind, subject: &str, code: Option<i32>, detail: &str) -> (e:
        Failure)
        ensures
            e@ == (FailureView { kind, subject: subject@, code, detail: detail@ }),
    {
        Failure {
            kind,
            subject: String::from_str(subject),
            code,
            detail: String::from_str(detail),
        }
    }

    /// A copy of this failure.
    pub fn duplicate(&self) -> (e: Failure)
        ensures
            e@ == self@,
    {
        Failure {
            kind: self.kind,
            subject: self.subject.clone(),
            code: self.code,
            detail: self.detail.clone(),
        }
    }

    /// The one-line text of this failure.
    pub fn message(&self) -> (m: String)
        ensures
            m@ == message_of(self@),
    {
        let s = self.subject.as_str();
        let d = self.detail.as_str();
        match self.kind {
            FailureKind::KvmUnavailable => String::from_str(
                "KVM is not available. Please ensure KVM is enabled in your system.",
            ),
            FailureKind::PrivilegeRequired => join3(
                "sudo is required for command '",
                s,
                "', but not available",
            ),
            FailureKind::MissingHostTool => join2(s, " is not installed. Please install it first."),
            FailureKind::ConfigInvalid => join2("Invalid configuration: ", d),
            FailureKind::VmNotFound => join3("No virtual machine found with name or id '", s, "'"),
            FailureKind::ConfigFileNotFound => String::from_str("Configuration file not found"),
            FailureKind::KernelNotFound => join3("Kernel file ", s, " does not exist"),
            FailureKind::TapInUse => join3("Tap device name ", s, " is already in use"),
            FailureKind::MacInUse => join3("MAC address ", s, " is already in use"),
            FailureKind::ApiSocketInUse => join3("API socket ", s, " is already in use"),
            FailureKind::ProjectDirAlreadyBound => join3(
                "Project directory ",
                s,
                " already has a virtual machine",
            ),
            FailureKind::NameInUse => join3("Name ", s, " is already in use"),
            FailureKind::IdInUse => join3("Id ", s, " is already in use"),
            FailureKind::ExternalCommandFailed => join4("Command ", s, " failed: ", d),
            FailureKind::HttpApiFailed => join4("Request to ", s, " failed: ", d),
            FailureKind::DownloadFailed => join2("Failed to download ", s),
            FailureKind::HypervisorStartTimeout => String::from_str(
                "Timed out waiting for Firecracker to start",
            ),
            FailureKind::GuestDhcpTimeout => String::from_str(
                "Timed out waiting for the guest to obtain an IP address",
            ),
            FailureKind::DatabaseError => join2("Database operation failed: ", s),
            FailureKind::MigrationFailed => join2("Failed to apply migration: ", s),
        }
    }
}

} // verus!
