//! Per-cell sensor state: calibration, thresholds with hysteresis and the
//! idle timeout.
//!
//! Every cell of the matrix starts uncalibrated. Its baseline is the level
//! on which its readings settle, or a level set by an explicit calibration.
//! From then on a reading is judged by its distance from the baseline: a
//! cell that is idle becomes active when the distance reaches the
//! activation distance, and a cell that is active becomes idle when the
//! distance falls to the deactivation distance. The activation distance is
//! the larger of the two, so a reading between them never changes the
//! state. A cell that stays active without fresh readings for the idle
//! limit is released.
use vstd::prelude::*;

verus! {

/// How the samples of a completed reading are reduced to one value.
#[derive(Clone, Copy, Debug, PartialEq, Eq, Structural)]
pub enum SamplePolicy {
    /// The mean of the samples, rounded down.
    Average,
    /// The sample that arrived last.
    Last,
}

/// Sum of a sequence of samples.
pub open spec fn sum_of(samples: Seq<u16>) -> nat
    decreases samples.len(),
{
    if samples.len() == 0 {
        0
    } else {
        sum_of(samples.drop_last()) + samples.last() as nat
    }
}

/// The value that `policy` makes of a non-empty group of samples.
pub open spec fn reduced(samples: Seq<u16>, policy: SamplePolicy) -> nat
    recommends
        samples.len() > 0,
{
    match policy {
        SamplePolicy::Average => sum_of(samples) / samples.len(),
        SamplePolicy::Last => samples.last() as nat,
    }
}

/// Reduces the samples of a completed reading to one value. An empty
/// group has no value.
pub fn reduce(samples: &Vec<u16>, policy: SamplePolicy) -> (value: Option<u16>)
    ensures
        value is Some <==> samples@.len() > 0,
        value is Some ==> value->0 == reduced(samples@, policy),
{
    let n: usize = samples.len();
    if n == 0 {
        return None;
    }
    match policy {
        SamplePolicy::Last => Some(samples[n - 1]),
        SamplePolicy::Average => {
            let mut sum: u128 = 0;
            let mut i: usize = 0;
            while i < n
                invariant
                    i <= n,
                    n == samples@.len(),
                    sum == sum_of(samples@.take(i as int)),
                    sum <= i * 65535,
                decreases n - i,
            {
                proof {
                    assert(samples@.take(i + 1).drop_last() =~= samples@.take(i as int));
                    assert(i * 65535 + 65535 == (i + 1) * 65535) by (nonlinear_arith);
                    assert((i + 1) * 65535 <= 0x1_0000_0000_0000_0000 * 65535) by (nonlinear_arith)
                        requires
                            i + 1 <= 0x1_0000_0000_0000_0000,
                    ;
                }
                sum = sum + samples[i] as u128;
                i = i + 1;
            }
            proof {
                assert(samples@.take(n as int) =~= samples@);
                assert(sum as int / n as int <= 65535) by (nonlinear_arith)
                    requires
                        sum <= n * 65535,
                        n > 0,
                ;
            }
            let mean: u128 = sum / (n as u128);
            Some(mean as u16)
        },
    }
}

/// A discrete key event: a switch was pressed or released.
#[derive(Clone, Copy, Debug, PartialEq, Eq, Structural)]
pub struct TriggerEvent {
    /// The switch that changed.
    pub switch_index: usize,
    /// `true` for a press, `false` for a release.
    pub pressed: bool,
}

/// Where a cell stands.
#[derive(Clone, Copy, Debug, PartialEq, Eq, Structural)]
pub enum CellPhase {
    /// No baseline yet.
    Uncalibrated,
    /// Calibrated and released.
    Idle,
    /// Calibrated and pressed.
    Active,
}

/// The state of one cell.
#[derive(Clone, Copy, Debug, PartialEq, Eq, Structural)]
pub struct SensorCell {
    /// Where the cell stands.
    pub phase: CellPhase,
    /// The level from which distances are measured, once calibrated; before
    /// that, the level on which the readings are settling.
    pub baseline: u16,
    /// While uncalibrated, the number of consecutive readings near `baseline`.
    pub settled: u32,
    /// The most recent reading, after clamping.
    pub last_raw: u16,
    /// Number of completed scan cycles without a fresh reading.
    pub idle_count: u32,
    /// Whether a fresh reading arrived in the scan cycle that is under way.
    pub sampled: bool,
}

/// Thresholds and limits shared by all cells.
#[derive(Clone, Copy, Debug, PartialEq, Eq, Structural)]
pub struct SensorConfig {
    /// Distance at which an idle cell becomes active.
    pub activation: i32,
    /// Distance at which an active cell becomes idle.
    pub deactivation: i32,
    /// Number of scan cycles without a fresh reading after which an active
    /// cell is released.
    pub idle_limit: u32,
    /// Smallest reading that the acquisition can deliver in the current mode.
    pub min_reading: u16,
    /// Largest reading that the acquisition can deliver in the current mode.
    pub max_reading: u16,
    /// How far a reading may lie from the settling level and still count
    /// as settled.
    pub settle_tolerance: u16,
    /// Number of consecutive settled readings that establish a baseline.
    pub settle_count: u32,
}

impl SensorConfig {
    /// The activation threshold lies strictly above the deactivation
    /// threshold, the range of readings is not empty, and the limits are
    /// not zero.
    pub open spec fn wf(self) -> bool {
        &&& self.deactivation < self.activation
        &&& self.min_reading <= self.max_reading
        &&& self.idle_limit > 0
        &&& self.settle_count > 0
    }

    /// A reading brought into the range of the current mode.
    pub open spec fn clamped(self, reading: u16) -> u16 {
        if reading < self.min_reading {
            self.min_reading
        } else if reading > self.max_reading {
            self.max_reading
        } else {
            reading
        }
    }

    /// Distance of a reading from a baseline, after clamping.
    pub open spec fn distance(self, baseline: u16, reading: u16) -> int {
        self.clamped(reading) as int - baseline as int
    }
}

/// Why the sensor engine refused a request.
#[derive(Clone, Copy, Debug, PartialEq, Eq, Structural)]
pub enum SensorError {
    /// The activation distance is not above the deactivation distance.
    InvalidThresholds,
    /// The smallest reading is above the largest.
    InvalidRange,
    /// The idle limit or the settle count is zero.
    InvalidLimit,
    /// No cell has this index.
    InvalidSensor(usize),
}

/// A cell and the event of its last step: `Some(true)` for a press,
/// `Some(false)` for a release.
pub struct CellStep {
    pub cell: SensorCell,
    pub event: Option<bool>,
}

/// A cell that has seen nothing.
pub open spec fn fresh_cell() -> SensorCell {
    SensorCell {
        phase: CellPhase::Uncalibrated,
        baseline: 0,
        settled: 0,
        last_raw: 0,
        idle_count: 0,
        sampled: false,
    }
}

/// Whether `value` lies within `tolerance` of `level`.
pub open spec fn near(level: u16, value: u16, tolerance: u16) -> bool {
    level as int - tolerance as int <= value as int <= level as int + tolerance as int
}

/// What a fresh reading makes of a cell.
pub open spec fn cell_update(config: SensorConfig, cell: SensorCell, reading: u16) -> CellStep {
    let value = config.clamped(reading);
    let distance = config.distance(cell.baseline, reading);
    match cell.phase {
        CellPhase::Uncalibrated => {
            let settled: u32 = if cell.settled > 0 && near(
                cell.baseline,
                value,
                config.settle_tolerance,
            ) {
                if cell.settled == u32::MAX {
                    cell.settled
                } else {
                    (cell.settled + 1) as u32
                }
            } else {
                1
            };
            let baseline = if settled == 1 {
                value
            } else {
                cell.baseline
            };
            let phase = if settled >= config.settle_count {
                CellPhase::Idle
            } else {
                CellPhase::Uncalibrated
            };
            CellStep {
                cell: SensorCell {
                    phase,
                    baseline,
                    settled,
                    last_raw: value,
                    idle_count: 0,
                    sampled: true,
                },
                event: None,
            }
        },
        CellPhase::Idle => if distance >= config.activation {
            CellStep {
                cell: SensorCell {
                    phase: CellPhase::Active,
                    baseline: cell.baseline,
                    settled: cell.settled,
                    last_raw: value,
                    idle_count: 0,
                    sampled: true,
                },
                event: Some(true),
            }
        } else {
            CellStep {
                cell: SensorCell {
                    phase: CellPhase::Idle,
                    baseline: cell.baseline,
                    settled: cell.settled,
                    last_raw: value,
                    idle_count: 0,
                    sampled: true,
                },
                event: None,
            }
        },
        CellPhase::Active => if distance <= config.deactivation {
            CellStep {
                cell: SensorCell {
                    phase: CellPhase::Idle,
                    baseline: cell.baseline,
                    settled: cell.settled,
                    last_raw: value,
                    idle_count: 0,
                    sampled: true,
                },
                event: Some(false),
            }
        } else {
            CellStep {
                cell: SensorCell {
                    phase: CellPhase::Active,
                    baseline: cell.baseline,
                    settled: cell.settled,
                    last_raw: value,
                    idle_count: 0,
                    sampled: true,
                },
                event: None,
            }
        },
    }
}

/// What the end of a scan cycle makes of a cell. A cycle in which the
/// cell received a fresh reading does not count. Any other cycle is
/// counted by an active cell, which is released when the count reaches the
/// idle limit. A cell that is not active is left as it is.
pub open spec fn cell_tick(config: SensorConfig, cell: SensorCell) -> CellStep {
    if cell.sampled {
        CellStep { cell: SensorCell { sampled: false, ..cell }, event: None }
    } else if cell.phase == CellPhase::Active {
        if cell.idle_count + 1 >= config.idle_limit {
            CellStep {
                cell: SensorCell { phase: CellPhase::Idle, idle_count: 0, ..cell },
                event: Some(false),
            }
        } else {
            CellStep {
                cell: SensorCell { idle_count: (cell.idle_count + 1) as u32, ..cell },
                event: None,
            }
        }
    } else {
        CellStep { cell, event: None }
    }
}

/// An active cell has not yet reached the idle limit.
pub open spec fn cell_wf(config: SensorConfig, cell: SensorCell) -> bool {
    cell.phase == CellPhase::Active ==> cell.idle_count < config.idle_limit
}

/// The cells after the end of a scan cycle.
pub open spec fn ticked_cells(config: SensorConfig, cells: Seq<SensorCell>) -> Seq<SensorCell> {
    Seq::new(cells.len(), |i: int| cell_tick(config, cells[i]).cell)
}

/// The releases at the end of a scan cycle over the first `upto` cells,
/// in the order of the cells.
pub open spec fn tick_events(config: SensorConfig, cells: Seq<SensorCell>, upto: nat) -> Seq<
    TriggerEvent,
>
    decreases upto,
{
    if upto == 0 {
        Seq::empty()
    } else {
        let earlier = tick_events(config, cells, (upto - 1) as nat);
        if cell_tick(config, cells[upto - 1]).event is Some {
            earlier.push(TriggerEvent { switch_index: (upto - 1) as usize, pressed: false })
        } else {
            earlier
        }
    }
}

/// A cell and the events of a run of steps, oldest first: `true` for a
/// press, `false` for a release.
pub struct CellRun {
    pub cell: SensorCell,
    pub events: Seq<bool>,
}

/// What a sequence of fresh readings makes of a cell.
pub open spec fn cell_updates(config: SensorConfig, cell: SensorCell, readings: Seq<u16>) -> CellRun
    decreases readings.len(),
{
    if readings.len() == 0 {
        CellRun { cell, events: Seq::empty() }
    } else {
        let before = cell_updates(config, cell, readings.drop_last());
        let step = cell_update(config, before.cell, readings.last());
        CellRun {
            cell: step.cell,
            events: match step.event {
                Some(pressed) => before.events.push(pressed),
                None => before.events,
            },
        }
    }
}

/// What the ends of `n` scan cycles without a fresh reading make of a cell.
pub open spec fn cell_ticks(config: SensorConfig, cell: SensorCell, n: nat) -> CellRun
    decreases n,
{
    if n == 0 {
        CellRun { cell, events: Seq::empty() }
    } else {
        let before = cell_ticks(config, cell, (n - 1) as nat);
        let step = cell_tick(config, before.cell);
        CellRun {
            cell: step.cell,
            events: match step.event {
                Some(pressed) => before.events.push(pressed),
                None => before.events,
            },
        }
    }
}

/// Presses and releases take turns, beginning with `first`.
pub open spec fn alternating(events: Seq<bool>, first: bool) -> bool {
    forall|i: int|
        0 <= i < events.len() ==> #[trigger] events[i] == (if i % 2 == 0 {
            first
        } else {
            !first
        })
}

/// Readings that hover between the two thresholds change nothing: a
/// calibrated cell whose readings all lie strictly between the
/// deactivation and the activation distance keeps its state and emits no
/// event, however many such readings arrive.
pub proof fn lemma_hysteresis_band_is_stable(
    config: SensorConfig,
    cell: SensorCell,
    readings: Seq<u16>,
)
    requires
        config.wf(),
        cell.phase != CellPhase::Uncalibrated,
        forall|i: int|
            0 <= i < readings.len() ==> config.deactivation < config.distance(
                cell.baseline,
                #[trigger] readings[i],
            ) < config.activation,
    ensures
        cell_updates(config, cell, readings).events == Seq::<bool>::empty(),
        cell_updates(config, cell, readings).cell.phase == cell.phase,
        cell_updates(config, cell, readings).cell.baseline == cell.baseline,
    decreases readings.len(),
{
    if readings.len() > 0 {
        lemma_hysteresis_band_is_stable(config, cell, readings.drop_last());
        assert(config.deactivation < config.distance(
            cell.baseline,
            readings[readings.len() - 1],
        ) < config.activation);
    }
}

/// A cell cannot be pressed twice without a release in between, nor
/// released twice without a press in between: the events of any run of
/// readings take turns. They begin with a press unless the cell was active,
/// and the cell is active afterwards exactly when the last event was a
/// press. A press needs a reading at or beyond the activation distance, a
/// release one at or below the deactivation distance, so an active cell
/// is pressed again only after a reading has crossed the deactivation
/// distance.
pub proof fn lemma_events_alternate(config: SensorConfig, cell: SensorCell, readings: Seq<u16>)
    requires
        config.wf(),
    ensures
        ({
            let run = cell_updates(config, cell, readings);
            &&& alternating(run.events, cell.phase != CellPhase::Active)
            &&& run.cell.phase == CellPhase::Active <==> (if run.events.len() == 0 {
                cell.phase == CellPhase::Active
            } else {
                run.events.last()
            })
        }),
    decreases readings.len(),
{
    if readings.len() > 0 {
        lemma_events_alternate(config, cell, readings.drop_last());
        let before = cell_updates(config, cell, readings.drop_last());
        let step = cell_update(config, before.cell, readings.last());
        let run = cell_updates(config, cell, readings);
        match step.event {
            Some(pressed) => {
                assert(run.events == before.events.push(pressed));
                assert forall|i: int| 0 <= i < run.events.len() implies #[trigger] run.events[i]
                    == (if i % 2 == 0 {
                    cell.phase != CellPhase::Active
                } else {
                    cell.phase == CellPhase::Active
                }) by {
                    if i < before.events.len() {
                        assert(run.events[i] == before.events[i]);
                    } else if before.events.len() > 0 {
                        assert(before.events[i - 1] == before.events.last());
                    }
                }
            },
            None => {},
        }
    }
}

/// The step of a fresh reading presses only at or beyond the activation
/// distance and releases only at or below the deactivation distance.
pub proof fn lemma_event_needs_crossing(config: SensorConfig, cell: SensorCell, reading: u16)
    ensures
        cell_update(config, cell, reading).event == Some(true) ==> cell.phase == CellPhase::Idle
            && config.distance(cell.baseline, reading) >= config.activation,
        cell_update(config, cell, reading).event == Some(false) ==> cell.phase
            == CellPhase::Active && config.distance(cell.baseline, reading) <= config.deactivation,
{
}

/// An active cell that receives no fresh reading is released exactly
/// once, at the end of the scan cycle that brings its idle count to the
/// idle limit: before that it is still active and nothing was emitted,
/// from then on it is idle and its one release stands alone. The cycle in
/// which its last reading arrived does not count, so after a fresh reading
/// the release comes when the idle limit of further cycles has passed.
pub proof fn lemma_idle_timeout_releases_once(config: SensorConfig, cell: SensorCell, n: nat)
    requires
        config.wf(),
        cell.phase == CellPhase::Active,
        cell_wf(config, cell),
    ensures
        ({
            let run = cell_ticks(config, cell, n);
            let due = config.idle_limit - cell.idle_count + (if cell.sampled {
                1int
            } else {
                0int
            });
            &&& n < due ==> {
                &&& run.cell.phase == CellPhase::Active
                &&& run.cell.idle_count < config.idle_limit
                &&& run.cell.sampled == (cell.sampled && n == 0)
                &&& run.cell.idle_count == (if cell.sampled && n > 0 {
                    cell.idle_count + n - 1
                } else if cell.sampled {
                    cell.idle_count as int
                } else {
                    cell.idle_count + n
                })
                &&& run.events == Seq::<bool>::empty()
            }
            &&& n >= due ==> {
                &&& run.cell.phase == CellPhase::Idle
                &&& run.events == seq![false]
            }
        }),
    decreases n,
{
    if n > 0 {
        lemma_idle_timeout_releases_once(config, cell, (n - 1) as nat);
        let before = cell_ticks(config, cell, (n - 1) as nat);
        let due = config.idle_limit - cell.idle_count + (if cell.sampled {
            1int
        } else {
            0int
        });
        if n == due {
            assert(before.events.push(false) =~= seq![false]);
        }
    }
}

/// A fresh reading starts the idle count of a cell over, so a cell that
/// was pressed by it is released by the idle timeout after exactly the
/// idle limit of scan cycles.
pub proof fn lemma_fresh_reading_restarts_idle_count(
    config: SensorConfig,
    cell: SensorCell,
    reading: u16,
)
    ensures
        cell_update(config, cell, reading).cell.idle_count == 0,
        cell_update(config, cell, reading).cell.sampled,
{
}

/// The sensor state of a whole matrix.
pub struct SensorEngine {
    config: SensorConfig,
    cells: Vec<SensorCell>,
}

impl SensorEngine {
    /// Thresholds and limits in force.
    pub closed spec fn config(&self) -> SensorConfig {
        self.config
    }

    /// The cells, by cell index.
    pub closed spec fn cells(&self) -> Seq<SensorCell> {
        self.cells@
    }

    /// The configuration is usable and every cell respects the idle limit.
    pub open spec fn wf(&self) -> bool {
        &&& self.config().wf()
        &&& forall|i: int|
            0 <= i < self.cells().len() ==> cell_wf(self.config(), #[trigger] self.cells()[i])
    }

    /// An engine of `cells` uncalibrated cells. The configuration is
    /// refused if its thresholds leave no hysteresis band, if its range of
    /// readings is empty, or if one of its limits is zero.
    pub fn new(cells: usize, config: SensorConfig) -> (made: Result<Self, SensorError>)
        ensures
            match made {
                Ok(engine) => {
                    &&& config.wf()
                    &&& engine.wf()
                    &&& engine.config() == config
                    &&& engine.cells().len() == cells
                    &&& forall|i: int| 0 <= i < cells ==> engine.cells()[i] == fresh_cell()
                },
                Err(e) => {
                    &&& !config.wf()
                    &&& e == (if config.deactivation >= config.activation {
                        SensorError::InvalidThresholds
                    } else if config.min_reading > config.max_reading {
                        SensorError::InvalidRange
                    } else {
                        SensorError::InvalidLimit
                    })
                },
            },
    {
        if config.deactivation >= config.activation {
            return Err(SensorError::InvalidThresholds);
        }
        if config.min_reading > config.max_reading {
            return Err(SensorError::InvalidRange);
        }
        if config.idle_limit == 0 || config.settle_count == 0 {
            return Err(SensorError::InvalidLimit);
        }
        let mut v: Vec<SensorCell> = Vec::new();
        let mut i: usize = 0;
        while i < cells
            invariant
                i <= cells,
                v@.len() == i,
                forall|k: int| 0 <= k < i ==> v@[k] == fresh_cell(),
            decreases cells - i,
        {
            v.push(
                SensorCell {
                    phase: CellPhase::Uncalibrated,
                    baseline: 0,
                    settled: 0,
                    last_raw: 0,
                    idle_count: 0,
                    sampled: false,
                },
            );
            i = i + 1;
        }
        Ok(SensorEngine { config, cells: v })
    }

    /// Number of cells.
    pub fn len(&self) -> (n: usize)
        ensures
            n == self.cells().len(),
    {
        self.cells.len()
    }

    /// The state of a cell, if there is such a cell.
    pub fn cell(&self, cell_index: usize) -> (cell: Option<SensorCell>)
        ensures
            cell == (if cell_index < self.cells().len() {
                Some(self.cells()[cell_index as int])
            } else {
                None
            }),
    {
        if cell_index < self.cells.len() {
            Some(self.cells[cell_index])
        } else {
            None
        }
    }

    /// Brings a reading into the range of the current mode.
    pub fn clamp(&self, reading: u16) -> (value: u16)
        ensures
            value == self.config().clamped(reading),
    {
        if reading < self.config.min_reading {
            self.config.min_reading
        } else if reading > self.config.max_reading {
            self.config.max_reading
        } else {
            reading
        }
    }

    /// Sets the range of readings of the analysis mode that is in force
    /// from now on. An empty range is refused and changes nothing.
    pub fn set_range(&mut self, min_reading: u16, max_reading: u16) -> (out: Result<
        (),
        SensorError,
    >)
        requires
            old(self).wf(),
        ensures
            final(self).wf(),
            final(self).cells() == old(self).cells(),
            min_reading > max_reading ==> {
                &&& out == Err::<(), SensorError>(SensorError::InvalidRange)
                &&& final(self).config() == old(self).config()
            },
            min_reading <= max_reading ==> {
                &&& out == Ok::<(), SensorError>(())
                &&& final(self).config() == (SensorConfig {
                    min_reading,
                    max_reading,
                    ..old(self).config()
                })
            },
    {
        if min_reading > max_reading {
            return Err(SensorError::InvalidRange);
        }
        self.config.min_reading = min_reading;
        self.config.max_reading = max_reading;
        proof {
            assert forall|i: int| 0 <= i < self.cells().len() implies cell_wf(
                self.config(),
                #[trigger] self.cells()[i],
            ) by {
                assert(cell_wf(old(self).config(), old(self).cells()[i]));
            }
        }
        Ok(())
    }

    /// Feeds a fresh reading to a cell and returns the event that it
    /// causes, if any: a press when an idle cell reaches the activation
    /// distance, a release when an active cell falls to the deactivation
    /// distance. A reading outside the range of the mode is clamped. An
    /// index that names no cell is refused and changes nothing.
    pub fn update(&mut self, cell_index: usize, reading: u16) -> (out: Result<
        Option<TriggerEvent>,
        SensorError,
    >)
        requires
            old(self).wf(),
        ensures
            final(self).wf(),
            final(self).config() == old(self).config(),
            final(self).cells().len() == old(self).cells().len(),
            cell_index >= old(self).cells().len() ==> {
                &&& out == Err::<Option<TriggerEvent>, SensorError>(
                    SensorError::InvalidSensor(cell_index),
                )
                &&& final(self).cells() == old(self).cells()
            },
            cell_index < old(self).cells().len() ==> {
                let step = cell_update(
                    old(self).config(),
                    old(self).cells()[cell_index as int],
                    reading,
                );
                &&& final(self).cells() == old(self).cells().update(cell_index as int, step.cell)
                &&& out == Ok::<Option<TriggerEvent>, SensorError>(
                    match step.event {
                        Some(pressed) => Some(TriggerEvent { switch_index: cell_index, pressed }),
                        None => None,
                    },
                )
            },
    {
        if cell_index >= self.cells.len() {
            return Err(SensorError::InvalidSensor(cell_index));
        }
        let cell = self.cells[cell_index];
        let value = self.clamp(reading);
        let distance: i32 = value as i32 - cell.baseline as i32;
        let mut next = cell;
        next.last_raw = value;
        next.idle_count = 0;
        next.sampled = true;
        let mut event: Option<TriggerEvent> = None;
        match cell.phase {
            CellPhase::Uncalibrated => {
                let lo: i32 = cell.baseline as i32 - self.config.settle_tolerance as i32;
                let hi: i32 = cell.baseline as i32 + self.config.settle_tolerance as i32;
                if cell.settled > 0 && lo <= value as i32 && value as i32 <= hi {
                    if cell.settled < u32::MAX {
                        next.settled = cell.settled + 1;
                    }
                } else {
                    next.settled = 1;
                    next.baseline = value;
                }
                if next.settled >= self.config.settle_count {
                    next.phase = CellPhase::Idle;
                }
            },
            CellPhase::Idle => {
                if distance >= self.config.activation {
                    next.phase = CellPhase::Active;
                    event = Some(TriggerEvent { switch_index: cell_index, pressed: true });
                }
            },
            CellPhase::Active => {
                if distance <= self.config.deactivation {
                    next.phase = CellPhase::Idle;
                    event = Some(TriggerEvent { switch_index: cell_index, pressed: false });
                }
            },
        }
        self.cells.set(cell_index, next);
        Ok(event)
    }

    /// Sets the baseline of a cell and makes it idle, whatever it was
    /// before. An index that names no cell is refused and changes nothing.
    pub fn calibrate(&mut self, cell_index: usize, baseline: u16) -> (out: Result<(), SensorError>)
        requires
            old(self).wf(),
        ensures
            final(self).wf(),
            final(self).config() == old(self).config(),
            cell_index >= old(self).cells().len() ==> {
                &&& out == Err::<(), SensorError>(SensorError::InvalidSensor(cell_index))
                &&& final(self).cells() == old(self).cells()
            },
            cell_index < old(self).cells().len() ==> {
                &&& out == Ok::<(), SensorError>(())
                &&& final(self).cells() == old(self).cells().update(
                    cell_index as int,
                    SensorCell {
                        phase: CellPhase::Idle,
                        baseline: old(self).config().clamped(baseline),
                        settled: old(self).cells()[cell_index as int].settled,
                        last_raw: old(self).cells()[cell_index as int].last_raw,
                        idle_count: 0,
                        sampled: old(self).cells()[cell_index as int].sampled,
                    },
                )
            },
    {
        if cell_index >= self.cells.len() {
            return Err(SensorError::InvalidSensor(cell_index));
        }
        let mut next = self.cells[cell_index];
        next.phase = CellPhase::Idle;
        next.baseline = self.clamp(baseline);
        next.idle_count = 0;
        self.cells.set(cell_index, next);
        Ok(())
    }

    /// Closes a scan cycle: every active cell that received no fresh
    /// reading in the cycle counts it, and those that reach the idle limit
    /// become idle. Returns their releases in cell order.
    pub fn tick(&mut self) -> (released: Vec<TriggerEvent>)
        requires
            old(self).wf(),
        ensures
            final(self).wf(),
            final(self).config() == old(self).config(),
            final(self).cells() == ticked_cells(old(self).config(), old(self).cells()),
            released@ == tick_events(
                old(self).config(),
                old(self).cells(),
                old(self).cells().len(),
            ),
    {
        let ghost before = self.cells();
        let ghost config = self.config;
        let mut released: Vec<TriggerEvent> = Vec::new();
        let n: usize = self.cells.len();
        let mut i: usize = 0;
        while i < n
            invariant
                i <= n,
                n == before.len(),
                self.config == config,
                config.wf(),
                self.cells@.len() == n,
                forall|k: int| 0 <= k < n ==> cell_wf(config, #[trigger] before[k]),
                forall|k: int| 0 <= k < i ==> self.cells@[k] == cell_tick(config, before[k]).cell,
                forall|k: int| i <= k < n ==> self.cells@[k] == before[k],
                released@ == tick_events(config, before, i as nat),
            decreases n - i,
        {
            let cell = self.cells[i];
            let mut next = cell;
            if cell.sampled {
                next.sampled = false;
            } else if cell.phase == CellPhase::Active {
                if cell.idle_count + 1 >= self.config.idle_limit {
                    next.phase = CellPhase::Idle;
                    next.idle_count = 0;
                    released.push(TriggerEvent { switch_index: i, pressed: false });
                } else {
                    next.idle_count = cell.idle_count + 1;
                }
            }
            self.cells.set(i, next);
            i = i + 1;
        }
        proof {
            assert(self.cells() =~= ticked_cells(config, before));
        }
        released
    }
}

} // verus!
