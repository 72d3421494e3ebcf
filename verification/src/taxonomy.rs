//! The closed vocabularies that rules and findings are labelled with.

use vstd::prelude::*;

verus! {

/// How grave a finding is. It informs triage and takes no part in scoring.
#[derive(Clone, Copy, Debug, PartialEq, Eq, Structural)]
pub enum Severity {
    Low,
    Medium,
    High,
    Critical,
}

/// The kind of risky behaviour that a rule detects.
#[derive(Clone, Copy, Debug, PartialEq, Eq, Structural)]
pub enum Category {
    Destructive,
    RemoteExec,
    CmdInjection,
    Network,
    Privilege,
    Secrets,
    Persistence,
    SensitiveFileAccess,
}

/// How likely a match is to be a true positive.
#[derive(Clone, Copy, Debug, PartialEq, Eq, Structural)]
pub enum Confidence {
    High,
    Medium,
    Low,
}

/// The verdict on a package.
#[derive(Clone, Copy, Debug, PartialEq, Eq, Structural)]
pub enum RiskLevel {
    Safe,
    Low,
    Medium,
    High,
    Critical,
}

impl RiskLevel {
    /// The token under which the level is exchanged.
    pub open spec fn token(self) -> Seq<char> {
        match self {
            RiskLevel::Safe => "safe"@,
            RiskLevel::Low => "low"@,
            RiskLevel::Medium => "medium"@,
            RiskLevel::High => "high"@,
            RiskLevel::Critical => "critical"@,
        }
    }

    pub fn as_str(&self) -> (s: &'static str)
        ensures
            s@ == self.token(),
    {
        match self {
            RiskLevel::Safe => "safe",
            RiskLevel::Low => "low",
            RiskLevel::Medium => "medium",
            RiskLevel::High => "high",
            RiskLevel::Critical => "critical",
        }
    }
}

impl Severity {
    /// The token under which the severity is exchanged.
    pub open spec fn token(self) -> Seq<char> {
        match self {
            Severity::Low => "low"@,
            Severity::Medium => "medium"@,
            Severity::High => "high"@,
            Severity::Critical => "critical"@,
        }
    }

    pub fn as_str(&self) -> (s: &'static str)
        ensures
            s@ == self.token(),
    {
        match self {
            Severity::Low => "low",
            Severity::Medium => "medium",
            Severity::High => "high",
            Severity::Critical => "critical",
        }
    }
}

impl Category {
    /// The token under which the category is exchanged.
    pub open spec fn token(self) -> Seq<char> {
        match self {
            Category::Destructive => "destructive"@,
            Category::RemoteExec => "remote_exec"@,
            Category::CmdInjection => "cmd_injection"@,
            Category::Network => "network"@,
            Category::Privilege => "privilege"@,
            Category::Secrets => "secrets"@,
            Category::Persistence => "persistence"@,
            Category::SensitiveFileAccess => "sensitive_file_access"@,
        }
    }

    pub fn as_str(&self) -> (s: &'static str)
        ensures
            s@ == self.token(),
    {
        match self {
            Category::Destructive => "destructive",
            Category::RemoteExec => "remote_exec",
            Category::CmdInjection => "cmd_injection",
            Category::Network => "network",
            Category::Privilege => "privilege",
            Category::Secrets => "secrets",
            Category::Persistence => "persistence",
            Category::SensitiveFileAccess => "sensitive_file_access",
        }
    }
}

impl Confidence {
    /// The token under which the confidence is exchanged.
    pub open spec fn token(self) -> Seq<char> {
        match self {
            Confidence::High => "high"@,
            Confidence::Medium => "medium"@,
            Confidence::Low => "low"@,
        }
    }

    pub fn as_str(&self) -> (s: &'static str)
        ensures
            s@ == self.token(),
    {
        match self {
            Confidence::High => "high",
            Confidence::Medium => "medium",
            Confidence::Low => "low",
        }
    }
}

} // verus!
