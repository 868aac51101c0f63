//! Pre-flight guard: the run must not start while conflicting vendor
//! software holds the device. The driver counts the running processes that
//! carry each conflicting name and hands the counts here for the verdict.

use vstd::prelude::*;

verus! {

/// Exact process names that conflict with the tester, in the order they are
/// checked: the utility daemon (unix then windows name), then the official
/// app, then its beta.
pub fn conflict_process_names() -> (r: Vec<&'static str>)
    ensures
        r@.len() == 4,
        r@[0]@ == "goxlr-daemon"@,
        r@[1]@ == "goxlr-daemon.exe"@,
        r@[2]@ == "GoXLR App.exe"@,
        r@[3]@ == "GoXLR Beta App.exe"@,
{
    let mut r: Vec<&'static str> = Vec::new();
    r.push("goxlr-daemon");
    r.push("goxlr-daemon.exe");
    r.push("GoXLR App.exe");
    r.push("GoXLR Beta App.exe");
    r
}

/// What the driver found running: whether the process table could be read at
/// all, and how many processes carry each conflicting name.
#[derive(Debug, Clone, Copy, PartialEq, Eq, Structural)]
pub struct ProcessScan {
    pub readable: bool,
    pub util_unix: u32,
    pub util_windows: u32,
    pub official_app: u32,
    pub beta_app: u32,
}

/// Why the pre-flight refused to let the run start.
#[derive(Debug, Clone, Copy, PartialEq, Eq, Structural)]
pub enum PreflightFault {
    SystemUnreadable,
    UtilityRunning,
    OfficialAppRunning,
    BetaAppRunning,
}

impl PreflightFault {
    /// The characters of the operator-facing diagnostic for this fault.
    pub open spec fn message_spec(self) -> Seq<char> {
        match self {
            PreflightFault::SystemUnreadable => "Unable to Read System Processes, failing Pre-Flight"@,
            PreflightFault::UtilityRunning => "Stop the Utility First!"@,
            PreflightFault::OfficialAppRunning => "Stop the Official App First!"@,
            PreflightFault::BetaAppRunning => "Stop the Official Beta App First!"@,
        }
    }

    /// Operator-facing diagnostic line for this fault.
    pub fn message(&self) -> (r: &'static str)
        ensures
            r@ == self.message_spec(),
    {
        match self {
            PreflightFault::SystemUnreadable => "Unable to Read System Processes, failing Pre-Flight",
            PreflightFault::UtilityRunning => "Stop the Utility First!",
            PreflightFault::OfficialAppRunning => "Stop the Official App First!",
            PreflightFault::BetaAppRunning => "Stop the Official Beta App First!",
        }
    }
}

/// The verdict a scan earns: the first conflicting name with a running
/// process decides, the utility names before the app names; an unreadable
/// process table fails the pre-flight outright.
pub open spec fn preflight_spec(s: ProcessScan) -> Result<(), PreflightFault> {
    if !s.readable {
        Err(PreflightFault::SystemUnreadable)
    } else if s.util_unix > 0 || s.util_windows > 0 {
        Err(PreflightFault::UtilityRunning)
    } else if s.official_app > 0 {
        Err(PreflightFault::OfficialAppRunning)
    } else if s.beta_app > 0 {
        Err(PreflightFault::BetaAppRunning)
    } else {
        Ok(())
    }
}

/// Decides whether the run may start. `Ok` exactly when the process table
/// was readable and no conflicting process is running; otherwise the fault
/// named by the first conflicting name found.
pub fn preflight_verdict(s: ProcessScan) -> (r: Result<(), PreflightFault>)
    ensures
        r == preflight_spec(s),
        r is Ok <==> s.readable && s.util_unix == 0 && s.util_windows == 0 && s.official_app == 0
            && s.beta_app == 0,
{
    if !s.readable {
        Err(PreflightFault::SystemUnreadable)
    } else if s.util_unix > 0 {
        Err(PreflightFault::UtilityRunning)
    } else if s.util_windows > 0 {
        Err(PreflightFault::UtilityRunning)
    } else if s.official_app > 0 {
        Err(PreflightFault::OfficialAppRunning)
    } else if s.beta_app > 0 {
        Err(PreflightFault::BetaAppRunning)
    } else {
        Ok(())
    }
}

} // verus!
