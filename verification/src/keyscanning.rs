//! Scanning of a matrix of digital switches.
//!
//! On every tick of the scan timer the rows of the active column are
//! read and debounced; what comes out is, for each row, whether the switch
//! is on or off and for how many scan cycles it has been so. A switch that
//! has just changed gives a press or a release for the trigger engine.
//! Then the strobe moves on, and when it wraps to column 0 the macros of
//! the completed cycle are due.
use vstd::prelude::*;
use crate::hall_effect::remapped;
use crate::sensor::TriggerEvent;
use crate::strobe::next_strobe;
use crate::strobe::StrobeScheduler;

verus! {

/// The debounced state of a switch.
#[derive(Clone, Copy, Debug, PartialEq, Eq, Structural)]
pub enum KeyEvent {
    /// The switch is on.
    On {
        /// Scan cycles since the last change of state.
        cycles_since_state_change: u32,
    },
    /// The switch is off.
    Off {
        /// Whether the switch has been off for the idle time.
        idle: bool,
        /// Scan cycles since the last change of state.
        cycles_since_state_change: u32,
    },
}

/// The change of state that a debounced reading reports: a press or a
/// release in the scan cycle in which the state changed, and nothing in
/// any later cycle.
pub open spec fn key_change(event: KeyEvent) -> Option<bool> {
    match event {
        KeyEvent::On { cycles_since_state_change } => if cycles_since_state_change == 0 {
            Some(true)
        } else {
            None
        },
        KeyEvent::Off { idle, cycles_since_state_change } => if cycles_since_state_change == 0 {
            Some(false)
        } else {
            None
        },
    }
}

/// The events of the first `upto` rows of a column, in the order of the rows.
pub open spec fn column_events(
    remap: Seq<u8>,
    reading: Seq<KeyEvent>,
    strobe: nat,
    upto: nat,
) -> Seq<TriggerEvent>
    decreases upto,
{
    if upto == 0 {
        Seq::empty()
    } else {
        let earlier = column_events(remap, reading, strobe, (upto - 1) as nat);
        let cell = strobe * reading.len() + (upto - 1);
        match remapped(remap, cell as nat, key_change(reading[upto - 1])) {
            Some(event) => earlier.push(event),
            None => earlier,
        }
    }
}

/// The change of state that a debounced reading reports.
pub fn key_trigger(event: KeyEvent) -> (change: Option<bool>)
    ensures
        change == key_change(event),
{
    match event {
        KeyEvent::On { cycles_since_state_change } => if cycles_since_state_change == 0 {
            Some(true)
        } else {
            None
        },
        KeyEvent::Off { idle, cycles_since_state_change } => if cycles_since_state_change == 0 {
            Some(false)
        } else {
            None
        },
    }
}

/// Sets the scan of a digital matrix up: the first column is strobed,
/// and the scan timer runs with the scan period, given in nanoseconds.
pub fn init(columns: usize, scan_period_us: u32) -> (made: (StrobeScheduler, u64))
    requires
        columns > 0,
    ensures
        made.0.wf(),
        made.0.columns() == columns,
        made.0.current() == 0,
        made.1 == scan_period_us * 1000,
{
    let mut strobe = StrobeScheduler::new(columns);
    let _ = strobe.advance();
    (strobe, scan_period_us as u64 * 1000)
}

/// What a tick of the scan timer reports.
#[derive(Debug)]
pub struct TimerOutcome {
    /// Events for the trigger engine, in the order of the rows.
    pub events: Vec<TriggerEvent>,
    /// Whether all columns have been scanned and the macros are due.
    pub process_macros: bool,
}

/// Handles a tick of the scan timer.
///
/// Without a pending timer interrupt nothing happens. Otherwise the
/// debounced readings of the active column, if the scan delivered them,
/// give the events of the switches that have just changed: the switch in
/// row `i` of column `strobe` is cell `strobe * rows + i`, and a cell
/// without a switch gives no event. Then the strobe advances.
pub fn tc0_irq(
    timer_fired: bool,
    reading: Option<&Vec<KeyEvent>>,
    strobe: &mut StrobeScheduler,
    switch_remap: &Vec<u8>,
) -> (out: TimerOutcome)
    requires
        old(strobe).wf(),
    ensures
        final(strobe).wf(),
        final(strobe).columns() == old(strobe).columns(),
        !timer_fired ==> {
            &&& final(strobe).current() == old(strobe).current()
            &&& out.events@ == Seq::<TriggerEvent>::empty()
            &&& !out.process_macros
        },
        timer_fired ==> {
            &&& final(strobe).current() == next_strobe(
                old(strobe).columns(),
                old(strobe).current(),
            )
            &&& out.process_macros == (final(strobe).current() == 0)
            &&& out.events@ == (match reading {
                Some(rows) => column_events(
                    switch_remap@,
                    rows@,
                    old(strobe).current(),
                    rows@.len(),
                ),
                None => Seq::empty(),
            })
        },
{
    let mut events: Vec<TriggerEvent> = Vec::new();
    if !timer_fired {
        return TimerOutcome { events, process_macros: false };
    }
    let current: usize = strobe.strobe();
    match reading {
        Some(rows) => {
            let n: usize = rows.len();
            let entries: usize = switch_remap.len();
            let mut i: usize = 0;
            while i < n
                invariant
                    i <= n,
                    entries == switch_remap@.len(),
                    n == rows@.len(),
                    events@ == column_events(switch_remap@, rows@, current as nat, i as nat),
                decreases n - i,
            {
                let ghost cell_at = current as nat * rows@.len() + i as nat;
                let mut found: Option<TriggerEvent> = None;
                match key_trigger(rows[i]) {
                    Some(pressed) => {
                        let cell: Option<usize> = match current.checked_mul(n) {
                            Some(base) => base.checked_add(i),
                            None => None,
                        };
                        proof {
                            assert(current as nat * n as nat == current * n) by (nonlinear_arith);
                            assert(cell is None ==> cell_at > usize::MAX);
                        }
                        match cell {
                            Some(cell) => {
                                if cell < entries && switch_remap[cell] != 0 {
                                    found =
                                    Some(
                                        TriggerEvent {
                                            switch_index: switch_remap[cell] as usize,
                                            pressed,
                                        },
                                    );
                                }
                            },
                            None => {},
                        }
                    },
                    None => {},
                }
                match found {
                    Some(event) => {
                        events.push(event);
                    },
                    None => {},
                }
                i = i + 1;
            }
        },
        None => {},
    }
    let next: usize = strobe.advance();
    TimerOutcome { events, process_macros: next == 0 }
}

} // verus!
