//! Leaving the application in good order.
//!
//! Before the application exits, tunnel mode is switched off where it is on,
//! the system proxy is reset, the proxy engine is stopped and, on macOS, the
//! name servers are restored. Each task has its own time limit and all have
//! one together. The caller runs the tasks; what is decided here is which to
//! run and what their results come to.

use crate::service::VergeConfig;
use vstd::prelude::*;

verus! {

/// The time limit for switching tunnel mode off, in seconds.
pub const TUN_DISABLE_SECS: u64 = 2;

/// The time limit for resetting the system proxy, in seconds.
pub const SYSPROXY_RESET_SECS: u64 = 3;

/// The time limit for stopping the proxy engine, in seconds.
pub const CORE_STOP_SECS: u64 = 3;

/// The time limit for restoring the name servers, in milliseconds.
pub const DNS_RESTORE_MILLIS: u64 = 1000;

/// The time limit for all tasks together, in seconds.
pub const CLEAN_WAIT_SECS: u64 = 8;

/// The tasks to run.
#[derive(Debug, Clone, Copy, PartialEq, Eq, Structural)]
pub struct CleanupPlan {
    pub disable_tun: bool,
    pub reset_sysproxy: bool,
    pub stop_core: bool,
    pub restore_dns: bool,
}

/// Which tasks finished within their time limits. What is said of a task
/// that was not to be run does not count.
#[derive(Debug, Clone, Copy, PartialEq, Eq)]
pub struct CleanupReport {
    pub tun_disabled: bool,
    pub sysproxy_reset: bool,
    pub core_stopped: bool,
    pub dns_restored: bool,
}

/// The tasks that the configuration and the platform call for.
pub open spec fn plan_for(tun_mode: Option<bool>, macos: bool) -> CleanupPlan {
    CleanupPlan {
        disable_tun: tun_mode == Some(true),
        reset_sysproxy: true,
        stop_core: true,
        restore_dns: macos,
    }
}

/// Decides which tasks to run.
pub fn cleanup_plan(config: &VergeConfig, macos: bool) -> (plan: CleanupPlan)
    ensures
        plan == plan_for(config.enable_tun_mode, macos),
{
    CleanupPlan {
        disable_tun: match config.enable_tun_mode {
            Some(on) => on,
            None => false,
        },
        reset_sysproxy: true,
        stop_core: true,
        restore_dns: macos,
    }
}

/// Whether everything that was to be run finished in time.
pub open spec fn all_done(plan: CleanupPlan, report: CleanupReport) -> bool {
    &&& plan.disable_tun ==> report.tun_disabled
    &&& plan.reset_sysproxy ==> report.sysproxy_reset
    &&& plan.stop_core ==> report.core_stopped
    &&& plan.restore_dns ==> report.dns_restored
}

/// Sums the tasks up: success when every task that was to be run finished
/// within its time limit.
pub fn clean_async(plan: &CleanupPlan, report: &CleanupReport) -> (success: bool)
    ensures
        success == all_done(*plan, *report),
{
    (!plan.disable_tun || report.tun_disabled) && (!plan.reset_sysproxy || report.sysproxy_reset)
        && (!plan.stop_core || report.core_stopped) && (!plan.restore_dns || report.dns_restored)
}

/// The result of the whole cleanup: `None` where it outlasted
/// [`CLEAN_WAIT_SECS`], which counts as success so that the exit is not held
/// up.
pub fn clean(result: Option<bool>) -> (success: bool)
    ensures
        success == (match result {
            Some(done) => done,
            None => true,
        }),
{
    match result {
        Some(done) => done,
        None => true,
    }
}

/// The exit code after the cleanup.
pub fn quit(cleaned: bool) -> (code: i32)
    ensures
        code == (if cleaned {
            0i32
        } else {
            1i32
        }),
{
    if cleaned {
        0
    } else {
        1
    }
}

} // verus!
