//! Routing of the actions that the trigger engine produces.
//!
//! After every cycle of the matrix the trigger engine turns the events of
//! the cycle into capability actions. Keyboard actions go to the keyboard
//! queue and control actions to the control queue of the host transport.
//! A queue that cannot take an action is a sizing defect of the firmware:
//! the run is refused as a whole and says which queue was too small,
//! rather than drop an action in silence.
use vstd::prelude::*;

verus! {

/// The kinds of capability action.
#[derive(Clone, Copy, Debug, PartialEq, Eq, Structural)]
pub enum CapabilityKind {
    /// Does nothing.
    NoOp,
    /// A key of the keyboard page.
    HidKeyboard,
    /// The state of a key of the keyboard page.
    HidKeyboardState,
    /// Switches the HID protocol.
    HidProtocol,
    /// A consumer control.
    HidConsumerControl,
    /// A system control.
    HidSystemControl,
    /// Puts the controller into flash mode.
    McuFlashMode,
    /// Opens a URL on the host.
    HidioOpenUrl,
    /// Sends a string to the host.
    HidioUnicodeString,
    /// Holds characters on the host.
    HidioUnicodeState,
    /// Clears the layers.
    LayerClear,
    /// Rotates through the layers.
    LayerRotate,
    /// Changes the state of a layer.
    LayerState,
}

/// Where an action goes.
#[derive(Clone, Copy, Debug, PartialEq, Eq, Structural)]
pub enum Route {
    /// Nowhere: the action needs no output.
    Ignore,
    /// To the keyboard queue.
    Keyboard,
    /// To the control queue.
    Control,
}

/// Why a run of the macro task was refused.
#[derive(Clone, Copy, Debug, PartialEq, Eq, Structural)]
pub enum MacroError {
    /// The action at this position is not supported by the keyboard.
    Unsupported(usize),
    /// The keyboard queue cannot take the keyboard actions.
    KeyboardQueueFull,
    /// The control queue cannot take the control actions.
    ControlQueueFull,
}

/// Where an action of a kind goes; none for a kind that the keyboard
/// does not support.
pub open spec fn route_of(kind: CapabilityKind) -> Option<Route> {
    match kind {
        CapabilityKind::NoOp => Some(Route::Ignore),
        CapabilityKind::HidKeyboard => Some(Route::Keyboard),
        CapabilityKind::HidKeyboardState => Some(Route::Keyboard),
        CapabilityKind::HidProtocol => Some(Route::Ignore),
        CapabilityKind::HidConsumerControl => Some(Route::Control),
        CapabilityKind::HidSystemControl => Some(Route::Control),
        _ => None,
    }
}

/// Number of actions among the first `upto` that take `route`.
pub open spec fn routed(kinds: Seq<CapabilityKind>, route: Route, upto: nat) -> nat
    decreases upto,
{
    if upto == 0 {
        0
    } else {
        routed(kinds, route, (upto - 1) as nat) + (if route_of(kinds[upto - 1]) == Some(route) {
            1nat
        } else {
            0nat
        })
    }
}

/// Position of the first unsupported action among the first `upto`, or
/// `upto` if all of them are supported.
pub open spec fn first_unsupported(kinds: Seq<CapabilityKind>, upto: nat) -> nat
    decreases upto,
{
    if upto == 0 {
        0
    } else {
        let earlier = first_unsupported(kinds, (upto - 1) as nat);
        if earlier < upto - 1 || route_of(kinds[upto - 1]) is None {
            earlier
        } else {
            upto
        }
    }
}

/// Where an action of a kind goes.
pub fn route_capability(kind: CapabilityKind) -> (route: Option<Route>)
    ensures
        route == route_of(kind),
{
    match kind {
        CapabilityKind::NoOp => Some(Route::Ignore),
        CapabilityKind::HidKeyboard => Some(Route::Keyboard),
        CapabilityKind::HidKeyboardState => Some(Route::Keyboard),
        CapabilityKind::HidProtocol => Some(Route::Ignore),
        CapabilityKind::HidConsumerControl => Some(Route::Control),
        CapabilityKind::HidSystemControl => Some(Route::Control),
        _ => None,
    }
}

/// Routes the actions of one cycle.
///
/// The run succeeds when every action is supported and each queue has
/// room for the actions that go to it; the result then names the route of
/// each action, in order. Otherwise nothing must be sent: the error names
/// the first unsupported action, or else the queue that is too small, the
/// keyboard queue before the control queue.
pub fn macro_process_task(
    capabilities: &Vec<CapabilityKind>,
    keyboard_room: usize,
    control_room: usize,
) -> (out: Result<Vec<Route>, MacroError>)
    ensures
        ({
            let n = capabilities@.len();
            let bad = first_unsupported(capabilities@, n);
            match out {
                Ok(routes) => {
                    &&& bad == n
                    &&& routed(capabilities@, Route::Keyboard, n) <= keyboard_room
                    &&& routed(capabilities@, Route::Control, n) <= control_room
                    &&& routes@.len() == n
                    &&& forall|i: int|
                        0 <= i < n ==> Some(#[trigger] routes@[i]) == route_of(capabilities@[i])
                },
                Err(MacroError::Unsupported(at)) => bad < n && at == bad,
                Err(MacroError::KeyboardQueueFull) => bad == n && routed(
                    capabilities@,
                    Route::Keyboard,
                    n,
                ) > keyboard_room,
                Err(MacroError::ControlQueueFull) => {
                    &&& bad == n
                    &&& routed(capabilities@, Route::Keyboard, n) <= keyboard_room
                    &&& routed(capabilities@, Route::Control, n) > control_room
                },
            }
        }),
{
    let n: usize = capabilities.len();
    let mut routes: Vec<Route> = Vec::new();
    let mut keyboard: usize = 0;
    let mut control: usize = 0;
    let mut i: usize = 0;
    while i < n
        invariant
            i <= n,
            n == capabilities@.len(),
            first_unsupported(capabilities@, i as nat) == i,
            routes@.len() == i,
            forall|k: int| 0 <= k < i ==> Some(#[trigger] routes@[k]) == route_of(capabilities@[k]),
            keyboard == routed(capabilities@, Route::Keyboard, i as nat),
            control == routed(capabilities@, Route::Control, i as nat),
            keyboard <= i,
            control <= i,
        decreases n - i,
    {
        match route_capability(capabilities[i]) {
            Some(route) => {
                match route {
                    Route::Keyboard => {
                        keyboard = keyboard + 1;
                    },
                    Route::Control => {
                        control = control + 1;
                    },
                    Route::Ignore => {},
                }
                routes.push(route);
            },
            None => {
                proof {
                    lemma_first_unsupported_stays(capabilities@, i as nat, n as nat);
                }
                return Err(MacroError::Unsupported(i));
            },
        }
        i = i + 1;
    }
    if keyboard > keyboard_room {
        Err(MacroError::KeyboardQueueFull)
    } else if control > control_room {
        Err(MacroError::ControlQueueFull)
    } else {
        Ok(routes)
    }
}

/// Once an unsupported action has been found, it stays the first one
/// however many actions follow.
pub proof fn lemma_first_unsupported_stays(kinds: Seq<CapabilityKind>, at: nat, upto: nat)
    requires
        at < upto <= kinds.len(),
        first_unsupported(kinds, at) == at,
        route_of(kinds[at as int]) is None,
    ensures
        first_unsupported(kinds, upto) == at,
    decreases upto,
{
    if upto > at + 1 {
        lemma_first_unsupported_stays(kinds, at, (upto - 1) as nat);
    }
}

} // verus!
