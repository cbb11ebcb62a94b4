//! Acquisition of a hall-effect matrix: converter settings for each
//! analysis mode and the handler of a completed sample transfer.
use vstd::prelude::*;
use crate::demux::record_all;
use crate::demux::readings_of;
use crate::demux::Accumulation;
use crate::demux::row_for_channel;
use crate::demux::CompletedReading;
use crate::demux::MatrixShape;
use crate::demux::Resolution;
use crate::demux::ReadingModel;
use crate::demux::SampleAccumulator;
use crate::diagnostics::collected;
use crate::diagnostics::empty_segment;
use crate::diagnostics::finished;
use crate::diagnostics::ManufacturingBuffer;
use crate::sensor::cell_update;
use crate::sensor::tick_events;
use crate::sensor::ticked_cells;
use crate::sensor::fresh_cell;
use crate::sensor::SensorError;
use crate::sensor::reduce;
use crate::sensor::reduced;
use crate::sensor::SamplePolicy;
use crate::sensor::SensorCell;
use crate::sensor::SensorConfig;
use crate::sensor::SensorEngine;
use crate::sensor::TriggerEvent;
use crate::strobe::next_strobe;
use crate::strobe::StrobeScheduler;

verus! {

/// Clock of the analog-to-digital converter. A faster clock shortens the
/// time that a strobe needs and may add noise to the readings.
#[derive(Clone, Copy, Debug, PartialEq, Eq, Structural)]
pub enum AdcClock {
    /// 12 MHz
    Mhz12,
    /// 20 MHz
    Mhz20,
    /// 30 MHz
    Mhz30,
}

/// How the readings of the matrix are analysed. The modes trade latency
/// against range.
#[derive(Clone, Copy, Debug, PartialEq, Eq, Structural)]
pub enum SensorMode {
    /// Lowest gain and slowest scan, with room for both polarities of the
    /// sensor signal.
    Test,
    /// Highest gain and fastest scan.
    LowLatency,
    /// Highest gain at a slower scan.
    Normal,
}

/// Gain of a single-ended converter input.
#[derive(Clone, Copy, Debug, PartialEq, Eq, Structural)]
pub enum Gain {
    /// Twofold.
    Gain2x,
    /// Fourfold.
    Gain4x,
}

/// Timing of the converter, in cycles of its clock.
#[derive(Clone, Copy, Debug, PartialEq, Eq, Structural)]
pub struct AdcTiming {
    /// Divider setting of the converter clock.
    pub prescaler: u8,
    /// Startup time.
    pub startup_cycles: u16,
    /// Tracking time.
    pub tracking_cycles: u8,
    /// Transfer time setting.
    pub transfer: u8,
    /// Settling time.
    pub settling_cycles: u8,
}

/// Everything that an analysis mode sets in the converter and the scan timer.
#[derive(Clone, Copy, Debug, PartialEq, Eq, Structural)]
pub struct AdcSettings {
    /// Timing of the converter.
    pub timing: AdcTiming,
    /// Gain of every sense input.
    pub gain: Gain,
    /// Whether the inputs are offset to centre the signal.
    pub offset: bool,
    /// Whether the converter calibrates itself after the change.
    pub autocalibration: bool,
    /// Period of the scan timer in microseconds.
    pub period_us: u32,
}

/// The timing that goes with a converter clock.
pub open spec fn timing_for(clock: AdcClock) -> AdcTiming {
    match clock {
        AdcClock::Mhz12 => AdcTiming {
            prescaler: 1,
            startup_cycles: 512,
            tracking_cycles: 2,
            transfer: 7,
            settling_cycles: 17,
        },
        AdcClock::Mhz20 => AdcTiming {
            prescaler: 2,
            startup_cycles: 512,
            tracking_cycles: 11,
            transfer: 7,
            settling_cycles: 17,
        },
        AdcClock::Mhz30 => AdcTiming {
            prescaler: 1,
            startup_cycles: 512,
            tracking_cycles: 16,
            transfer: 7,
            settling_cycles: 17,
        },
    }
}

/// Time in microseconds in which a mode scans the rows of one strobe.
pub open spec fn scan_budget_us(mode: SensorMode) -> nat {
    match mode {
        SensorMode::Test => 5000,
        SensorMode::LowLatency => 1000,
        SensorMode::Normal => 2000,
    }
}

/// The settings of an analysis mode for a matrix of `rows` rows.
pub open spec fn settings_for(mode: SensorMode, clock: AdcClock, rows: nat) -> AdcSettings {
    AdcSettings {
        timing: timing_for(clock),
        gain: match mode {
            SensorMode::Test => Gain::Gain2x,
            SensorMode::LowLatency => Gain::Gain4x,
            SensorMode::Normal => Gain::Gain4x,
        },
        offset: true,
        autocalibration: true,
        period_us: (scan_budget_us(mode) / rows) as u32,
    }
}

/// Converter timing for a 12 MHz clock.
pub fn adc_12mhz() -> (timing: AdcTiming)
    ensures
        timing == timing_for(AdcClock::Mhz12),
{
    AdcTiming {
        prescaler: 1,
        startup_cycles: 512,
        tracking_cycles: 2,
        transfer: 7,
        settling_cycles: 17,
    }
}

/// Converter timing for a 20 MHz clock.
pub fn adc_20mhz() -> (timing: AdcTiming)
    ensures
        timing == timing_for(AdcClock::Mhz20),
{
    AdcTiming {
        prescaler: 2,
        startup_cycles: 512,
        tracking_cycles: 11,
        transfer: 7,
        settling_cycles: 17,
    }
}

/// Converter timing for a 30 MHz clock, beyond the rated maximum of the
/// converter.
pub fn adc_30mhz() -> (timing: AdcTiming)
    ensures
        timing == timing_for(AdcClock::Mhz30),
{
    AdcTiming {
        prescaler: 1,
        startup_cycles: 512,
        tracking_cycles: 16,
        transfer: 7,
        settling_cycles: 17,
    }
}

/// Settings of the converter and the scan timer for an analysis mode.
/// The scan period is the budget of the mode divided by the number of rows.
pub fn set_analysis_mode(mode: SensorMode, adc_clock: AdcClock, rows: usize) -> (settings:
    AdcSettings)
    requires
        rows > 0,
    ensures
        settings == settings_for(mode, adc_clock, rows as nat),
{
    let timing = match adc_clock {
        AdcClock::Mhz12 => adc_12mhz(),
        AdcClock::Mhz20 => adc_20mhz(),
        AdcClock::Mhz30 => adc_30mhz(),
    };
    let (gain, budget): (Gain, usize) = match mode {
        SensorMode::Test => (Gain::Gain2x, 5000),
        SensorMode::LowLatency => (Gain::Gain4x, 1000),
        SensorMode::Normal => (Gain::Gain4x, 2000),
    };
    let period: usize = budget / rows;
    assert(period <= budget) by (nonlinear_arith)
        requires
            period == budget as int / rows as int,
            rows > 0,
            budget >= 0,
    ;
    AdcSettings { timing, gain, offset: true, autocalibration: true, period_us: period as u32 }
}

/// The order in which the converter samples its channels within a
/// strobe: the channel of each sense line is followed by channel 11, which
/// is connected to nothing and keeps the sense lines from talking to each
/// other.
pub open spec fn channel_sequence() -> Seq<u8> {
    seq![0u8, 11u8, 1u8, 11u8, 2u8, 11u8, 3u8, 11u8, 8u8, 11u8, 9u8, 11u8]
}

/// The order in which the converter samples its channels within a strobe.
pub fn adc_sequence() -> (sequence: Vec<u8>)
    ensures
        sequence@ == channel_sequence(),
{
    let sequence = vec![0u8, 11u8, 1u8, 11u8, 2u8, 11u8, 3u8, 11u8, 8u8, 11u8, 9u8, 11u8];
    proof {
        assert(sequence@ =~= channel_sequence());
    }
    sequence
}

/// The channel sequence visits the rows in order, and every sample of a
/// row is followed by one that is discarded.
pub proof fn lemma_sequence_interleaves_rows()
    ensures
        channel_sequence().len() == 12,
        forall|row: int|
            0 <= row < 6 ==> row_for_channel(#[trigger] channel_sequence()[2 * row] as nat)
                == Some(row as nat),
        forall|row: int|
            0 <= row < 6 ==> row_for_channel(#[trigger] channel_sequence()[2 * row + 1] as nat)
                is None,
{
    assert forall|row: int| 0 <= row < 6 implies row_for_channel(
        #[trigger] channel_sequence()[2 * row] as nat,
    ) == Some(row as nat) by {
        if row == 0 {
        } else if row == 1 {
        } else if row == 2 {
        } else if row == 3 {
        } else if row == 4 {
        } else {
        }
    }
    assert forall|row: int| 0 <= row < 6 implies row_for_channel(
        #[trigger] channel_sequence()[2 * row + 1] as nat,
    ) is None by {
        if row == 0 {
        } else if row == 1 {
        } else if row == 2 {
        } else if row == 3 {
        } else if row == 4 {
        } else {
        }
    }
}

/// Everything that scans a hall-effect matrix.
pub struct HallMatrix {
    /// The active column.
    pub strobe: StrobeScheduler,
    /// The samples of each cell that wait for completion.
    pub accumulator: SampleAccumulator,
    /// The sensor state of each cell.
    pub engine: SensorEngine,
    /// The settings of the converter and the scan timer.
    pub settings: AdcSettings,
    /// The order in which the converter samples its channels.
    pub sequence: Vec<u8>,
}

/// Sets a hall-effect matrix up: the first column is strobed, no cell
/// holds a sample or has a baseline, and the converter is set for the
/// analysis mode. A sensor configuration that is not usable is refused.
pub fn init(
    shape: MatrixShape,
    resolution: Resolution,
    config: SensorConfig,
    mode: SensorMode,
    adc_clock: AdcClock,
) -> (made: Result<HallMatrix, SensorError>)
    requires
        shape.wf(),
    ensures
        made is Ok <==> config.wf(),
        match made {
            Ok(matrix) => {
                &&& matrix.strobe.wf()
                &&& matrix.strobe.columns() == shape.columns
                &&& matrix.strobe.current() == 0
                &&& matrix.accumulator.wf()
                &&& matrix.accumulator.shape() == shape
                &&& matrix.accumulator.resolution() == resolution
                &&& forall|c: int|
                    0 <= c < shape.cells() ==> matrix.accumulator.pending()[c] == Seq::<
                        u16,
                    >::empty()
                &&& matrix.engine.wf()
                &&& matrix.engine.config() == config
                &&& matrix.engine.cells().len() == shape.cells()
                &&& forall|c: int|
                    0 <= c < shape.cells() ==> matrix.engine.cells()[c] == fresh_cell()
                &&& matrix.settings == settings_for(mode, adc_clock, shape.rows as nat)
                &&& matrix.sequence@ == channel_sequence()
            },
            Err(e) => e == (if config.deactivation >= config.activation {
                SensorError::InvalidThresholds
            } else if config.min_reading > config.max_reading {
                SensorError::InvalidRange
            } else {
                SensorError::InvalidLimit
            }),
        },
{
    let engine = match SensorEngine::new(shape.rows * shape.columns, config) {
        Ok(engine) => engine,
        Err(e) => {
            return Err(e);
        },
    };
    let mut strobe = StrobeScheduler::new(shape.columns);
    let _ = strobe.advance();
    let accumulator = SampleAccumulator::new(shape, resolution);
    let settings = set_analysis_mode(mode, adc_clock, shape.rows);
    Ok(HallMatrix { strobe, accumulator, engine, settings, sequence: adc_sequence() })
}

/// What the handling of completed readings works on: the sensor cells,
/// the bytes of the manufacturing buffer and the events emitted so far.
pub struct ScanModel {
    pub cells: Seq<SensorCell>,
    pub bytes: Seq<u8>,
    pub events: Seq<TriggerEvent>,
}

/// What stays the same while the readings of one strobe are handled.
pub struct ScanContext {
    pub config: SensorConfig,
    pub policy: SamplePolicy,
    pub columns: nat,
    pub strobe_tag: u8,
    pub report_rows: nat,
    pub report_segments: nat,
    pub remap: Seq<u8>,
}

/// The event of a cell as the trigger engine sees it: it carries the
/// logical switch of the cell, and there is none for a cell without a
/// switch, that is a cell beyond the table or with entry 0.
pub open spec fn remapped(remap: Seq<u8>, cell: nat, event: Option<bool>) -> Option<TriggerEvent> {
    match event {
        Some(pressed) => if cell < remap.len() && remap[cell as int] != 0 {
            Some(TriggerEvent { switch_index: remap[cell as int] as usize, pressed })
        } else {
            None
        },
        None => None,
    }
}

/// Handles one completed reading: its value goes to the manufacturing
/// buffer and to the sensor cell, and the cell's event, if it has one and
/// the cell has a switch, is emitted.
pub open spec fn scan_reading(ctx: ScanContext, state: ScanModel, reading: ReadingModel)
    -> ScanModel {
    if reading.samples.len() == 0 {
        state
    } else {
        let value = reduced(reading.samples, ctx.policy) as u16;
        let row = reading.cell / ctx.columns;
        let bytes = collected(
            state.bytes,
            ctx.report_rows,
            ctx.report_segments,
            ctx.strobe_tag,
            row,
            value,
        );
        if reading.cell < state.cells.len() {
            let step = cell_update(ctx.config, state.cells[reading.cell as int], value);
            ScanModel {
                cells: state.cells.update(reading.cell as int, step.cell),
                bytes,
                events: match remapped(ctx.remap, reading.cell, step.event) {
                    Some(event) => state.events.push(event),
                    None => state.events,
                },
            }
        } else {
            ScanModel { cells: state.cells, bytes, events: state.events }
        }
    }
}

/// Handles completed readings, first to last.
pub open spec fn scan_readings(ctx: ScanContext, state: ScanModel, readings: Seq<ReadingModel>)
    -> ScanModel
    decreases readings.len(),
{
    if readings.len() == 0 {
        state
    } else {
        scan_reading(ctx, scan_readings(ctx, state, readings.drop_last()), readings.last())
    }
}

/// What the handler of a completed transfer reports.
#[derive(Debug)]
pub struct AdcOutcome {
    /// Whether the transfer was complete and its samples were handled.
    pub processed: bool,
    /// The strobe whose samples the transfer held.
    pub strobe: usize,
    /// The strobe that is active now.
    pub next_strobe: usize,
    /// Whether the strobe wrapped to 0: a full cycle of the matrix is done.
    pub cycle_complete: bool,
    /// Events for the trigger engine, in the order in which they arose.
    pub events: Vec<TriggerEvent>,
    /// Settings to apply before the next transfer starts, if the mode changes.
    pub settings: Option<AdcSettings>,
}

/// The byte that stands for a strobe in the manufacturing buffer.
pub open spec fn strobe_tag(strobe: nat) -> u8 {
    (strobe % 256) as u8
}

/// Handles the completion of a sample transfer.
///
/// A transfer that is not complete yet is left alone: nothing changes and
/// the caller tries again at the next interrupt. Otherwise the samples
/// are recorded for the active strobe, each completed reading is reduced
/// to one value that goes to the manufacturing buffer, if that collects
/// this strobe, and to the sensor engine, whose events are passed on under
/// the logical switch of their cell. Then the strobe advances, and a
/// requested mode change is turned into the settings to apply before the
/// next transfer starts.
pub fn adc_irq(
    transfer_done: bool,
    samples: &Vec<u16>,
    sensor_mode: Option<SensorMode>,
    adc_clock: AdcClock,
    policy: SamplePolicy,
    strobe: &mut StrobeScheduler,
    accumulator: &mut SampleAccumulator,
    engine: &mut SensorEngine,
    manu_test_data: &mut ManufacturingBuffer,
    switch_remap: &Vec<u8>,
) -> (out: AdcOutcome)
    requires
        old(strobe).wf(),
        old(accumulator).wf(),
        old(engine).wf(),
        old(manu_test_data).wf(),
        old(strobe).columns() == old(accumulator).shape().columns,
    ensures
        final(strobe).wf(),
        final(accumulator).wf(),
        final(engine).wf(),
        final(manu_test_data).wf(),
        final(strobe).columns() == old(strobe).columns(),
        final(accumulator).shape() == old(accumulator).shape(),
        final(accumulator).resolution() == old(accumulator).resolution(),
        final(engine).config() == old(engine).config(),
        final(manu_test_data).rows() == old(manu_test_data).rows(),
        out.processed == transfer_done,
        out.strobe == old(strobe).current(),
        out.next_strobe == final(strobe).current(),
        out.cycle_complete == (transfer_done && final(strobe).current() == 0),
        !transfer_done ==> {
            &&& final(strobe).current() == old(strobe).current()
            &&& final(accumulator).pending() == old(accumulator).pending()
            &&& final(engine).cells() == old(engine).cells()
            &&& final(manu_test_data).bytes() == old(manu_test_data).bytes()
            &&& final(manu_test_data).segments() == old(manu_test_data).segments()
            &&& out.events@ == Seq::<TriggerEvent>::empty()
            &&& out.settings is None
        },
        transfer_done ==> {
            let tag = strobe_tag(old(strobe).current());
            let opened = old(manu_test_data).collects(tag) && old(manu_test_data).has_room();
            let recorded = record_all(
                Accumulation { pending: old(accumulator).pending(), completed: Seq::empty() },
                old(accumulator).shape(),
                old(accumulator).resolution(),
                old(strobe).current(),
                samples@,
            );
            let ctx = ScanContext {
                config: old(engine).config(),
                policy,
                columns: old(strobe).columns(),
                strobe_tag: tag,
                report_rows: old(manu_test_data).rows(),
                report_segments: final(manu_test_data).segments(),
                remap: switch_remap@,
            };
            let start = ScanModel {
                cells: old(engine).cells(),
                bytes: if opened {
                    old(manu_test_data).bytes() + empty_segment(tag, old(manu_test_data).rows())
                } else {
                    old(manu_test_data).bytes()
                },
                events: Seq::empty(),
            };
            let scanned = scan_readings(ctx, start, recorded.completed);
            &&& final(strobe).current() == next_strobe(
                old(strobe).columns(),
                old(strobe).current(),
            )
            &&& final(accumulator).pending() == recorded.pending
            &&& final(engine).cells() == scanned.cells
            &&& out.events@ == scanned.events
            &&& final(manu_test_data).segments() == old(manu_test_data).segments() + (if opened {
                1nat
            } else {
                0nat
            })
            &&& final(manu_test_data).bytes() == (if opened {
                finished(
                    scanned.bytes,
                    old(manu_test_data).rows(),
                    strobe_tag(final(strobe).current()),
                )
            } else {
                scanned.bytes
            })
            &&& out.settings == (match sensor_mode {
                Some(mode) => Some(
                    settings_for(mode, adc_clock, old(accumulator).shape().rows as nat),
                ),
                None => None,
            })
        },
{
    let current: usize = strobe.strobe();
    if !transfer_done {
        return AdcOutcome {
            processed: false,
            strobe: current,
            next_strobe: current,
            cycle_complete: false,
            events: Vec::new(),
            settings: None,
        };
    }
    let columns: usize = strobe.column_count();
    let tag: u8 = (current % 256) as u8;
    let opened: bool = manu_test_data.begin_strobe(tag);
    let completed: Vec<CompletedReading> = accumulator.record(current, samples);
    let ghost ctx = ScanContext {
        config: engine.config(),
        policy,
        columns: columns as nat,
        strobe_tag: tag,
        report_rows: manu_test_data.rows(),
        report_segments: manu_test_data.segments(),
        remap: switch_remap@,
    };
    let ghost start = ScanModel {
        cells: engine.cells(),
        bytes: manu_test_data.bytes(),
        events: Seq::empty(),
    };
    let ghost readings = readings_of(completed@);
    let mut events: Vec<TriggerEvent> = Vec::new();
    let mut i: usize = 0;
    while i < completed.len()
        invariant
            i <= completed.len(),
            engine.wf(),
            manu_test_data.wf(),
            columns > 0,
            readings == readings_of(completed@),
            engine.config() == ctx.config,
            manu_test_data.rows() == ctx.report_rows,
            manu_test_data.segments() == ctx.report_segments,
            ctx.policy == policy,
            ctx.columns == columns,
            ctx.strobe_tag == tag,
            ctx.remap == switch_remap@,
            ({
                let now = scan_readings(ctx, start, readings.take(i as int));
                &&& engine.cells() == now.cells
                &&& manu_test_data.bytes() == now.bytes
                &&& events@ == now.events
            }),
        decreases completed.len() - i,
    {
        let reading = &completed[i];
        proof {
            assert(readings.take(i + 1).drop_last() =~= readings.take(i as int));
            assert(readings.take(i + 1).last() == reading@);
        }
        match reduce(&reading.samples, policy) {
            Some(value) => {
                let cell: usize = reading.cell_index;
                let row: usize = cell / columns;
                let _ = manu_test_data.collect(tag, row, value);
                match engine.update(cell, value) {
                    Ok(Some(event)) => {
                        if cell < switch_remap.len() && switch_remap[cell] != 0 {
                            events.push(
                                TriggerEvent {
                                    switch_index: switch_remap[cell] as usize,
                                    pressed: event.pressed,
                                },
                            );
                        }
                    },
                    Ok(None) => {},
                    Err(_) => {},
                }
            },
            None => {},
        }
        i = i + 1;
    }
    proof {
        assert(readings.take(completed@.len() as int) =~= readings);
    }
    let next: usize = strobe.advance();
    if opened {
        manu_test_data.finish_strobe((next % 256) as u8);
    }
    let settings = match sensor_mode {
        Some(mode) => Some(set_analysis_mode(mode, adc_clock, accumulator.shape_rows())),
        None => None,
    };
    AdcOutcome {
        processed: true,
        strobe: current,
        next_strobe: next,
        cycle_complete: next == 0,
        events,
        settings,
    }
}

/// The events of cells as the trigger engine sees them, in their order:
/// each under the logical switch of its cell, and none for a cell
/// without a switch.
pub open spec fn remapped_all(remap: Seq<u8>, events: Seq<TriggerEvent>) -> Seq<TriggerEvent>
    decreases events.len(),
{
    if events.len() == 0 {
        Seq::empty()
    } else {
        let earlier = remapped_all(remap, events.drop_last());
        match remapped(remap, events.last().switch_index as nat, Some(events.last().pressed)) {
            Some(event) => earlier.push(event),
            None => earlier,
        }
    }
}

/// Closes a scan cycle of the matrix: the cells that were active and
/// have gone without a fresh reading for the idle limit are released, and
/// their releases are passed on under the logical switches of the cells.
pub fn release_idle_cells(engine: &mut SensorEngine, switch_remap: &Vec<u8>) -> (events: Vec<
    TriggerEvent,
>)
    requires
        old(engine).wf(),
    ensures
        final(engine).wf(),
        final(engine).config() == old(engine).config(),
        final(engine).cells() == ticked_cells(old(engine).config(), old(engine).cells()),
        events@ == remapped_all(
            switch_remap@,
            tick_events(old(engine).config(), old(engine).cells(), old(engine).cells().len()),
        ),
{
    let released = engine.tick();
    let entries: usize = switch_remap.len();
    let mut events: Vec<TriggerEvent> = Vec::new();
    let mut i: usize = 0;
    while i < released.len()
        invariant
            i <= released@.len(),
            entries == switch_remap@.len(),
            events@ == remapped_all(switch_remap@, released@.take(i as int)),
        decreases released@.len() - i,
    {
        proof {
            assert(released@.take(i + 1).drop_last() =~= released@.take(i as int));
        }
        let event = released[i];
        let cell: usize = event.switch_index;
        if cell < entries && switch_remap[cell] != 0 {
            events.push(
                TriggerEvent { switch_index: switch_remap[cell] as usize, pressed: event.pressed },
            );
        }
        i = i + 1;
    }
    proof {
        assert(released@.take(released@.len() as int) =~= released@);
    }
    events
}

/// Sends the collected level-check data on when the buffer is ready.
///
/// A buffer that is not ready is left alone. A ready buffer is flushed;
/// its contents are the report if the level check is enabled, and are
/// dropped if it is not.
pub fn hidio_send_irq(hall_level_check: bool, manu_test_data: &mut ManufacturingBuffer) -> (report:
    Option<Vec<u8>>)
    requires
        old(manu_test_data).wf(),
    ensures
        final(manu_test_data).wf(),
        final(manu_test_data).rows() == old(manu_test_data).rows(),
        report is Some <==> old(manu_test_data).ready() && hall_level_check,
        report is Some ==> report->0@ == old(manu_test_data).bytes(),
        old(manu_test_data).ready() ==> {
            &&& final(manu_test_data).bytes() == seq![0u8, 0u8]
            &&& final(manu_test_data).segments() == 0
        },
        !old(manu_test_data).ready() ==> {
            &&& final(manu_test_data).bytes() == old(manu_test_data).bytes()
            &&& final(manu_test_data).segments() == old(manu_test_data).segments()
        },
{
    match manu_test_data.try_flush() {
        Some(data) => if hall_level_check {
            Some(data)
        } else {
            None
        },
        None => None,
    }
}

} // verus!
