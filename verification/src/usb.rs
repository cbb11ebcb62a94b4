//! Decisions of the USB task: power state events and what to do with
//! pending reports.
use vstd::prelude::*;

verus! {

/// A change of the power state of the bus.
#[derive(Clone, Copy, Debug, PartialEq, Eq, Structural)]
pub enum UsbState {
    /// The bus was suspended.
    Suspend,
    /// The bus left the suspended state.
    Resume,
}

/// State of the device on the bus.
#[derive(Clone, Copy, Debug, PartialEq, Eq, Structural)]
pub enum UsbDeviceState {
    /// Attached, without an address.
    Default,
    /// Has an address.
    Addressed,
    /// Configured by the host.
    Configured,
    /// Suspended by the host.
    Suspend,
}

/// What to do with pending reports.
#[derive(Clone, Copy, Debug, PartialEq, Eq, Structural)]
pub enum UsbAction {
    /// Nothing.
    Idle,
    /// Wake the host.
    RemoteWakeup,
    /// Send the reports until all of them are gone.
    Commit,
}

/// What a run of the USB task decides.
#[derive(Clone, Copy, Debug, PartialEq, Eq, Structural)]
pub struct UsbOutcome {
    /// The change of power state to announce, if there was one.
    pub event: Option<UsbState>,
    /// What to do with pending reports.
    pub action: UsbAction,
}

/// The change of power state between two runs of the task.
pub open spec fn power_event(previous: UsbDeviceState, current: UsbDeviceState) -> Option<
    UsbState,
> {
    if previous == UsbDeviceState::Suspend && current != UsbDeviceState::Suspend {
        Some(UsbState::Resume)
    } else if previous != UsbDeviceState::Suspend && current == UsbDeviceState::Suspend {
        Some(UsbState::Suspend)
    } else {
        None
    }
}

/// What is done with pending reports: on a suspended bus the host is
/// woken if it allows that, on a configured bus they are sent, and in any
/// other state they wait.
pub open spec fn report_action(
    current: UsbDeviceState,
    reports_pending: bool,
    remote_wakeup_enabled: bool,
) -> UsbAction {
    if !reports_pending {
        UsbAction::Idle
    } else {
        match current {
            UsbDeviceState::Suspend => if remote_wakeup_enabled {
                UsbAction::RemoteWakeup
            } else {
                UsbAction::Idle
            },
            UsbDeviceState::Configured => UsbAction::Commit,
            _ => UsbAction::Idle,
        }
    }
}

/// One run of the USB task: compares the state of the device with the
/// state at the last run, decides what to do with pending reports, and
/// remembers the state.
pub fn usb_process_task(
    current: UsbDeviceState,
    reports_pending: bool,
    remote_wakeup_enabled: bool,
    state: &mut UsbDeviceState,
) -> (out: UsbOutcome)
    ensures
        *final(state) == current,
        out.event == power_event(*old(state), current),
        out.action == report_action(current, reports_pending, remote_wakeup_enabled),
{
    let previous = *state;
    let event = if previous == UsbDeviceState::Suspend && current != UsbDeviceState::Suspend {
        Some(UsbState::Resume)
    } else if previous != UsbDeviceState::Suspend && current == UsbDeviceState::Suspend {
        Some(UsbState::Suspend)
    } else {
        None
    };
    let action = if !reports_pending {
        UsbAction::Idle
    } else {
        match current {
            UsbDeviceState::Suspend => if remote_wakeup_enabled {
                UsbAction::RemoteWakeup
            } else {
                UsbAction::Idle
            },
            UsbDeviceState::Configured => UsbAction::Commit,
            _ => UsbAction::Idle,
        }
    };
    *state = current;
    UsbOutcome { event, action }
}

} // verus!
