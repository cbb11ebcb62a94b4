//! On/off states of the indicator LEDs.
use vstd::prelude::*;
use crate::issi_spi::IssiFunction;
use crate::issi_spi::IssiModel;
use crate::issi_spi::LedPipeline;

verus! {

/// The states of `NUM_LEDS` indicator LEDs.
pub struct IndicatorLeds<const NUM_LEDS: usize> {
    leds: [bool; NUM_LEDS],
}

impl<const NUM_LEDS: usize> IndicatorLeds<NUM_LEDS> {
    /// The states, by LED.
    pub closed spec fn states(&self) -> Seq<bool> {
        self.leds@
    }

    /// All LEDs off.
    pub fn new() -> (made: Self)
        ensures
            made.states() == Seq::new(NUM_LEDS as nat, |i: int| false),
    {
        let made = IndicatorLeds { leds: [false; NUM_LEDS] };
        proof {
            assert(made.states() =~= Seq::new(NUM_LEDS as nat, |i: int| false));
        }
        made
    }

    /// Switches one LED and leaves the others as they are.
    pub fn set(&mut self, index: usize, state: bool)
        requires
            index < NUM_LEDS,
        ensures
            final(self).states() == old(self).states().update(index as int, state),
    {
        self.leds[index] = state;
        proof {
            assert(self.states() =~= old(self).states().update(index as int, state));
        }
    }

    /// The state of one LED.
    pub fn get(&self, index: usize) -> (state: bool)
        requires
            index < NUM_LEDS,
        ensures
            state == self.states()[index as int],
    {
        self.leds[index]
    }

    /// Inverts one LED, as the liveness task does with the activity LED on
    /// each of its runs, and returns the state that it had.
    pub fn toggle(&mut self, index: usize) -> (was: bool)
        requires
            index < NUM_LEDS,
        ensures
            was == old(self).states()[index as int],
            final(self).states() == old(self).states().update(index as int, !was),
    {
        let was = self.get(index);
        self.set(index, !was);
        was
    }
}

/// Colour of the activity LED, as red, green and blue.
#[derive(Clone, Copy, Debug, PartialEq, Eq, Structural)]
pub struct LedMask {
    pub red: u8,
    pub green: u8,
    pub blue: u8,
}

/// What a run of the liveness task reports.
#[derive(Clone, Copy, Debug, PartialEq, Eq, Structural)]
pub struct LivenessOutcome {
    /// The colour that the activity LED takes.
    pub mask: LedMask,
    /// Whether an update of the LEDs was queued; it is not when the queue
    /// of the controllers is full, and the colour then shows with the next
    /// update.
    pub queued: bool,
}

/// The colour of the activity LED: dark after a run that found it on,
/// green after a run that found it off.
pub open spec fn activity_mask(was_on: bool) -> LedMask {
    if was_on {
        LedMask { red: 0, green: 0, blue: 0 }
    } else {
        LedMask { red: 0, green: 50, blue: 0 }
    }
}

/// One run of the liveness task: the activity indicator, which is
/// indicator 0, changes its state, the activity LED takes the colour of
/// the new state, and an update of the LEDs is queued. The caller feeds
/// the watchdog.
pub fn rtt<const NUM_LEDS: usize>(
    led_indicators: &mut IndicatorLeds<NUM_LEDS>,
    issi: &mut LedPipeline,
) -> (out: LivenessOutcome)
    requires
        NUM_LEDS > 0,
        old(issi).wf(),
    ensures
        final(issi).wf(),
        final(issi).in_flight() == old(issi).in_flight(),
        final(led_indicators).states() == old(led_indicators).states().update(
            0,
            !old(led_indicators).states()[0],
        ),
        out.mask == activity_mask(old(led_indicators).states()[0]),
        out.queued == (old(issi).room() >= 1),
        final(issi).model() == (IssiModel {
            queue: if out.queued {
                old(issi).model().queue.push(IssiFunction::Pwm)
            } else {
                old(issi).model().queue
            },
            ..old(issi).model()
        }),
{
    let was_on = led_indicators.toggle(0);
    let mask = if was_on {
        LedMask { red: 0, green: 0, blue: 0 }
    } else {
        LedMask { red: 0, green: 50, blue: 0 }
    };
    let queued = issi.request_pwm();
    LivenessOutcome { mask, queued }
}

impl<const NUM_LEDS: usize> Default for IndicatorLeds<NUM_LEDS> {
    fn default() -> (made: Self)
        ensures
            made.states() == Seq::new(NUM_LEDS as nat, |i: int| false),
    {
        Self::new()
    }
}

} // verus!
