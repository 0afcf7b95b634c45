use vstd::prelude::*;

use crate::cluster::ClusterStatus;
use crate::vpn::VpnStatus;
use std::sync::atomic::{AtomicBool, Ordering};
use std::sync::Arc;

verus! {

/// Seconds between two rounds of health checks.
pub open spec fn poll_interval() -> u64 {
    5
}

/// Shared flag to pause and resume the health checks (as when the window is hidden). It is
/// shared between threads, so nothing is known of what a read gives.
pub struct MonitorActive(pub Arc<AtomicBool>);

impl MonitorActive {
    /// A flag, set to `active`.
    pub fn new(active: bool) -> (r: MonitorActive) {
        MonitorActive(Arc::new(AtomicBool::new(active)))
    }

    /// Whether the checks are wanted now.
    pub fn is_active(&self) -> (r: bool) {
        self.0.load(Ordering::Relaxed)
    }
}

/// Pauses (`false`) or resumes (`true`) the health checks.
pub fn set_monitor_active(active: bool, state: &MonitorActive) {
    state.0.store(active, Ordering::Relaxed);
}

/// Where the health monitor stands.
#[derive(Clone, Copy, Debug, PartialEq, Eq, Structural)]
pub enum HealthStage {
    /// Waiting to learn whether checks are wanted (the window may be hidden).
    AwaitActive,
    /// Waiting for the VPN state.
    AwaitVpn,
    /// Waiting for the VPN state to be published.
    AwaitVpnEmit,
    /// Waiting for the cluster state.
    AwaitCluster,
    /// Waiting for the cluster state to be published.
    AwaitClusterEmit,
    /// Waiting between two rounds.
    Sleeping,
}

/// What the application is to do next for the health monitor.
pub enum HealthAction {
    /// Read the flag that pauses the checks; answer `Active`.
    ReadActive,
    /// Find out the VPN state (`check_vpn`); answer `VpnChecked`.
    CheckVpn,
    /// Find out the cluster state (`check_cluster`); answer `ClusterChecked`.
    CheckCluster,
    /// Publish the VPN state as the event `health:vpn`; answer `Emitted`.
    EmitVpn(VpnStatus),
    /// Publish the cluster state as the event `health:cluster`; answer `Emitted`.
    EmitCluster(ClusterStatus),
    /// Wait this many seconds; answer `Slept`.
    Sleep(u64),
}

/// What the application reports back.
pub enum HealthEvent {
    Active(bool),
    VpnChecked(Result<VpnStatus, String>),
    ClusterChecked(Result<ClusterStatus, String>),
    Emitted,
    Slept,
}

/// The background health checks: every 5 seconds, where they are not paused, the VPN and
/// cluster states are found out and published.
pub struct HealthMonitor {
    pub stage: HealthStage,
}

/// The kind of event a stage waits for.
pub open spec fn health_expects(stage: HealthStage, event: HealthEvent) -> bool {
    match stage {
        HealthStage::AwaitActive => event is Active,
        HealthStage::AwaitVpn => event is VpnChecked,
        HealthStage::AwaitCluster => event is ClusterChecked,
        HealthStage::AwaitVpnEmit | HealthStage::AwaitClusterEmit => event is Emitted,
        HealthStage::Sleeping => event is Slept,
    }
}

impl HealthMonitor {
    /// A monitor about to start its first round.
    pub fn new() -> (r: (HealthMonitor, HealthAction))
        ensures
            r.0.stage == HealthStage::AwaitActive,
            r.1 is ReadActive,
    {
        (HealthMonitor { stage: HealthStage::AwaitActive }, HealthAction::ReadActive)
    }

    /// Takes the application's report of the last action and says what to do next. A state
    /// that could not be found out is not published; a round ends with a 5 second wait.
    pub fn step(&mut self, event: HealthEvent) -> (a: HealthAction)
        requires
            health_expects(old(self).stage, event),
        ensures
            match old(self).stage {
                HealthStage::AwaitActive => if event == HealthEvent::Active(true) {
                    final(self).stage == HealthStage::AwaitVpn && a is CheckVpn
                } else {
                    final(self).stage == HealthStage::Sleeping && a == HealthAction::Sleep(poll_interval())
                },
                HealthStage::AwaitVpn => match event {
                    HealthEvent::VpnChecked(Ok(st)) => final(self).stage == HealthStage::AwaitVpnEmit
                        && a == HealthAction::EmitVpn(st),
                    _ => final(self).stage == HealthStage::AwaitCluster && a is CheckCluster,
                },
                HealthStage::AwaitVpnEmit => final(self).stage == HealthStage::AwaitCluster && a is CheckCluster,
                HealthStage::AwaitCluster => match event {
                    HealthEvent::ClusterChecked(Ok(st)) => final(self).stage == HealthStage::AwaitClusterEmit
                        && a == HealthAction::EmitCluster(st),
                    _ => final(self).stage == HealthStage::Sleeping && a == HealthAction::Sleep(poll_interval()),
                },
                HealthStage::AwaitClusterEmit => final(self).stage == HealthStage::Sleeping && a == HealthAction::Sleep(poll_interval()),
                HealthStage::Sleeping => final(self).stage == HealthStage::AwaitActive && a is ReadActive,
            },
    {
        match self.stage {
            HealthStage::AwaitActive => match event {
                HealthEvent::Active(true) => {
                    self.stage = HealthStage::AwaitVpn;
                    HealthAction::CheckVpn
                },
                _ => {
                    self.stage = HealthStage::Sleeping;
                    HealthAction::Sleep(5)
                },
            },
            HealthStage::AwaitVpn => match event {
                HealthEvent::VpnChecked(Ok(st)) => {
                    self.stage = HealthStage::AwaitVpnEmit;
                    HealthAction::EmitVpn(st)
                },
                _ => {
                    self.stage = HealthStage::AwaitCluster;
                    HealthAction::CheckCluster
                },
            },
            HealthStage::AwaitVpnEmit => {
                self.stage = HealthStage::AwaitCluster;
                HealthAction::CheckCluster
            },
            HealthStage::AwaitCluster => match event {
                HealthEvent::ClusterChecked(Ok(st)) => {
                    self.stage = HealthStage::AwaitClusterEmit;
                    HealthAction::EmitCluster(st)
                },
                _ => {
                    self.stage = HealthStage::Sleeping;
                    HealthAction::Sleep(5)
                },
            },
            HealthStage::AwaitClusterEmit => {
                self.stage = HealthStage::Sleeping;
                HealthAction::Sleep(5)
            },
            HealthStage::Sleeping => {
                self.stage = HealthStage::AwaitActive;
                HealthAction::ReadActive
            },
        }
    }
}

} // verus!
