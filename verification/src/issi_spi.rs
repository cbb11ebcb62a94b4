//! LED output: frames and circuit tests queued for the LED controllers.
//!
//! The controller driver keeps a queue of pending functions. The function
//! at the head of the queue is the one whose transfer is prepared next; it
//! stays at the head while its transfer is in flight and leaves the queue
//! when the transfer completes. The transport is either parked or carries
//! exactly one transfer. It is parked when the queue runs empty and is
//! only armed again when work is queued and a frame is processed.
use vstd::prelude::*;
use crate::constants::ISSI_DETECT_LEN;
use crate::constants::ISSI_DRIVER_CHANNELS;
use crate::constants::ISSI_DRIVER_CHIPS;
use crate::constants::ISSI_DRIVER_QUEUE_ROOM;
use crate::constants::ISSI_DRIVER_QUEUE_SIZE;
use crate::constants::ISSI_RX_WORDS;
use crate::constants::ISSI_TX_WORDS;
use crate::diagnostics::buffer_bytes;
use crate::diagnostics::buffer_extend;
use crate::diagnostics::buffer_new;
use crate::diagnostics::buffer_push;
use crate::diagnostics::buffer_to_vec;
use crate::hidio::Control;
use crate::hidio::HidioInterface;
use crate::hidio::LedControl;
use crate::hidio::ManufacturingConfig;

verus! {

/// Self-test of the LED circuits. At most one test runs at a time.
#[derive(Clone, Copy, Debug, PartialEq, Eq, Structural)]
pub enum LedTest {
    /// No test is running.
    Disabled,
    /// The results were read; the controllers are reset next.
    Reset,
    /// The open-circuit test was set up; its results are requested next.
    OpenQuery,
    /// The results of the open-circuit test were requested; they are read next.
    OpenReady,
    /// The short-circuit test was set up; its results are requested next.
    ShortQuery,
    /// The results of the short-circuit test were requested; they are read next.
    ShortReady,
}

/// A function that waits in the controller driver's queue.
#[derive(Clone, Copy, Debug, PartialEq, Eq, Structural)]
pub enum IssiFunction {
    /// Read the open-circuit results.
    OpenCircuitDetectRead,
    /// Set the open-circuit test up.
    OpenCircuitDetectSetup,
    /// Send the intensity of every channel.
    Pwm,
    /// Reset and configure the controllers.
    Reset,
    /// Send the scaling of every channel.
    Scaling,
    /// Read the short-circuit results.
    ShortCircuitDetectRead,
    /// Set the short-circuit test up.
    ShortCircuitDetectSetup,
}

/// Lengths of a transfer in words.
#[derive(Clone, Copy, Debug, PartialEq, Eq, Structural)]
pub struct Transaction {
    /// Number of words to receive.
    pub rx_len: usize,
    /// Number of words to send.
    pub tx_len: usize,
}

/// The transfer that a function needs. `enabled` says whether the LEDs
/// are switched on, which adds one register write per controller to a reset.
pub open spec fn transfer_for(function: IssiFunction, enabled: bool) -> Transaction {
    match function {
        IssiFunction::Pwm => Transaction { rx_len: 0, tx_len: 400 },
        IssiFunction::Scaling => Transaction { rx_len: 0, tx_len: 400 },
        IssiFunction::Reset => Transaction {
            rx_len: 0,
            tx_len: if enabled {
                36
            } else {
                30
            },
        },
        IssiFunction::OpenCircuitDetectSetup => Transaction { rx_len: 0, tx_len: 24 },
        IssiFunction::ShortCircuitDetectSetup => Transaction { rx_len: 0, tx_len: 24 },
        IssiFunction::OpenCircuitDetectRead => Transaction { rx_len: 66, tx_len: 66 },
        IssiFunction::ShortCircuitDetectRead => Transaction { rx_len: 66, tx_len: 66 },
    }
}

/// `is31fl3743b::Is31fl3743bAtsam4Dma`, the driver of the LED controllers.
/// The contracts speak of it through `issi_model` and of nothing else.
#[verifier::external_type_specification]
#[verifier::external_body]
pub struct ExIs31fl3743bAtsam4Dma<const CHIPS: usize, const QUEUE_SIZE: usize>(
    is31fl3743b::Is31fl3743bAtsam4Dma<CHIPS, QUEUE_SIZE>,
);

/// The functions that wait in the driver's queue, head first.
pub uninterp spec fn issi_queue(
    d: is31fl3743b::Is31fl3743bAtsam4Dma<ISSI_DRIVER_CHIPS, ISSI_DRIVER_QUEUE_SIZE>,
) -> Seq<IssiFunction>;

/// The intensity page that the driver holds for each controller.
pub uninterp spec fn issi_pwm(
    d: is31fl3743b::Is31fl3743bAtsam4Dma<ISSI_DRIVER_CHIPS, ISSI_DRIVER_QUEUE_SIZE>,
) -> Seq<Seq<u8>>;

/// The scaling page that the driver holds for each controller.
pub uninterp spec fn issi_scaling_pages(
    d: is31fl3743b::Is31fl3743bAtsam4Dma<ISSI_DRIVER_CHIPS, ISSI_DRIVER_QUEUE_SIZE>,
) -> Seq<Seq<u8>>;

/// The short-circuit results of each controller, once they have been read.
pub uninterp spec fn issi_short(
    d: is31fl3743b::Is31fl3743bAtsam4Dma<ISSI_DRIVER_CHIPS, ISSI_DRIVER_QUEUE_SIZE>,
) -> Option<Seq<Seq<u8>>>;

/// The open-circuit results of each controller, once they have been read.
pub uninterp spec fn issi_open(
    d: is31fl3743b::Is31fl3743bAtsam4Dma<ISSI_DRIVER_CHIPS, ISSI_DRIVER_QUEUE_SIZE>,
) -> Option<Seq<Seq<u8>>>;

/// Whether the driver was made with the LEDs switched on.
pub uninterp spec fn issi_enabled(
    d: is31fl3743b::Is31fl3743bAtsam4Dma<ISSI_DRIVER_CHIPS, ISSI_DRIVER_QUEUE_SIZE>,
) -> bool;

/// What the contracts say of a driver.
pub struct IssiModel {
    pub queue: Seq<IssiFunction>,
    pub pwm: Seq<Seq<u8>>,
    pub scaling: Seq<Seq<u8>>,
    pub short: Option<Seq<Seq<u8>>>,
    pub open: Option<Seq<Seq<u8>>>,
    pub enabled: bool,
}

/// The model of a driver.
pub open spec fn issi_model(
    d: is31fl3743b::Is31fl3743bAtsam4Dma<ISSI_DRIVER_CHIPS, ISSI_DRIVER_QUEUE_SIZE>,
) -> IssiModel {
    IssiModel {
        queue: issi_queue(d),
        pwm: issi_pwm(d),
        scaling: issi_scaling_pages(d),
        short: issi_short(d),
        open: issi_open(d),
        enabled: issi_enabled(d),
    }
}

/// `functions` added to a queue as far as the queue has room.
pub open spec fn enqueued(queue: Seq<IssiFunction>, functions: Seq<IssiFunction>) -> Seq<
    IssiFunction,
> {
    let room = ISSI_DRIVER_QUEUE_ROOM - queue.len();
    if functions.len() <= room {
        queue + functions
    } else {
        queue + functions.take(room)
    }
}

/// Pages in which every channel but the first of each controller is at
/// its maximum.
pub open spec fn maxed(pwm: Seq<Seq<u8>>) -> Seq<Seq<u8>> {
    Seq::new(
        pwm.len(),
        |chip: int|
            Seq::new(
                pwm[chip].len(),
                |ch: int|
                    if ch >= 1 {
                        0xFFu8
                    } else {
                        pwm[chip][ch]
                    },
            ),
    )
}

/// Pages of `chips` controllers in which every channel is `value`.
pub open spec fn level(chips: nat, value: u8) -> Seq<Seq<u8>> {
    Seq::new(chips, |chip: int| Seq::new(ISSI_DRIVER_CHANNELS as nat, |ch: int| value))
}

/// Pages of `chips` controllers in which every channel is zero.
pub open spec fn dark(chips: nat) -> Seq<Seq<u8>> {
    level(chips, 0)
}

/// `Is31fl3743bAtsam4Dma::new`: the queue is empty, every page is zero and
/// no test results have been read.
#[verifier::external_body]
fn issi_new(cs0: u8, cs1: u8, brightness: u8, enable: bool) -> (d:
    is31fl3743b::Is31fl3743bAtsam4Dma<ISSI_DRIVER_CHIPS, ISSI_DRIVER_QUEUE_SIZE>)
    ensures
        issi_model(d) == (IssiModel {
            queue: Seq::empty(),
            pwm: dark(ISSI_DRIVER_CHIPS as nat),
            scaling: dark(ISSI_DRIVER_CHIPS as nat),
            short: None,
            open: None,
            enabled: enable,
        }),
{
    is31fl3743b::Is31fl3743bAtsam4Dma::new([cs0, cs1], brightness, enable)
}

/// `Is31fl3743bAtsam4Dma::reset`: queues a reset if the queue has room.
#[verifier::external_body]
fn issi_reset(
    d: &mut is31fl3743b::Is31fl3743bAtsam4Dma<ISSI_DRIVER_CHIPS, ISSI_DRIVER_QUEUE_SIZE>,
) -> (queued: bool)
    ensures
        queued == (issi_queue(*old(d)).len() < ISSI_DRIVER_QUEUE_ROOM),
        issi_model(*final(d)) == (IssiModel {
            queue: enqueued(issi_queue(*old(d)), seq![IssiFunction::Reset]),
            ..issi_model(*old(d))
        }),
{
    d.reset().is_ok()
}

/// `Is31fl3743bAtsam4Dma::scaling`: queues a scaling update if the queue
/// has room.
#[verifier::external_body]
fn issi_scaling(
    d: &mut is31fl3743b::Is31fl3743bAtsam4Dma<ISSI_DRIVER_CHIPS, ISSI_DRIVER_QUEUE_SIZE>,
) -> (queued: bool)
    ensures
        queued == (issi_queue(*old(d)).len() < ISSI_DRIVER_QUEUE_ROOM),
        issi_model(*final(d)) == (IssiModel {
            queue: enqueued(issi_queue(*old(d)), seq![IssiFunction::Scaling]),
            ..issi_model(*old(d))
        }),
{
    d.scaling().is_ok()
}

/// `Is31fl3743bAtsam4Dma::pwm`: queues an intensity update if the queue
/// has room.
#[verifier::external_body]
fn issi_pwm_update(
    d: &mut is31fl3743b::Is31fl3743bAtsam4Dma<ISSI_DRIVER_CHIPS, ISSI_DRIVER_QUEUE_SIZE>,
) -> (queued: bool)
    ensures
        queued == (issi_queue(*old(d)).len() < ISSI_DRIVER_QUEUE_ROOM),
        issi_model(*final(d)) == (IssiModel {
            queue: enqueued(issi_queue(*old(d)), seq![IssiFunction::Pwm]),
            ..issi_model(*old(d))
        }),
{
    d.pwm().is_ok()
}

/// `Is31fl3743bAtsam4Dma::short_circuit_detect_setup`: sets the pages to
/// their maximum and queues an intensity update, a scaling update and the
/// test setup, one after the other, as far as the queue has room. It
/// succeeds if all three were queued.
#[verifier::external_body]
fn issi_short_setup(
    d: &mut is31fl3743b::Is31fl3743bAtsam4Dma<ISSI_DRIVER_CHIPS, ISSI_DRIVER_QUEUE_SIZE>,
) -> (queued: bool)
    ensures
        queued == (issi_queue(*old(d)).len() + 3 <= ISSI_DRIVER_QUEUE_ROOM),
        issi_model(*final(d)) == (IssiModel {
            queue: enqueued(
                issi_queue(*old(d)),
                seq![
                    IssiFunction::Pwm,
                    IssiFunction::Scaling,
                    IssiFunction::ShortCircuitDetectSetup,
                ],
            ),
            pwm: maxed(issi_pwm(*old(d))),
            scaling: maxed(issi_scaling_pages(*old(d))),
            ..issi_model(*old(d))
        }),
{
    d.short_circuit_detect_setup().is_ok()
}

/// `Is31fl3743bAtsam4Dma::open_circuit_detect_setup`: as the setup of the
/// short-circuit test, with the setup of the open-circuit test.
#[verifier::external_body]
fn issi_open_setup(
    d: &mut is31fl3743b::Is31fl3743bAtsam4Dma<ISSI_DRIVER_CHIPS, ISSI_DRIVER_QUEUE_SIZE>,
) -> (queued: bool)
    ensures
        queued == (issi_queue(*old(d)).len() + 3 <= ISSI_DRIVER_QUEUE_ROOM),
        issi_model(*final(d)) == (IssiModel {
            queue: enqueued(
                issi_queue(*old(d)),
                seq![
                    IssiFunction::Pwm,
                    IssiFunction::Scaling,
                    IssiFunction::OpenCircuitDetectSetup,
                ],
            ),
            pwm: maxed(issi_pwm(*old(d))),
            scaling: maxed(issi_scaling_pages(*old(d))),
            ..issi_model(*old(d))
        }),
{
    d.open_circuit_detect_setup().is_ok()
}

/// `Is31fl3743bAtsam4Dma::short_circuit_detect_read`: forgets the results
/// read before and queues the read if the queue has room.
#[verifier::external_body]
fn issi_short_read(
    d: &mut is31fl3743b::Is31fl3743bAtsam4Dma<ISSI_DRIVER_CHIPS, ISSI_DRIVER_QUEUE_SIZE>,
)
    ensures
        issi_model(*final(d)) == (IssiModel {
            queue: enqueued(issi_queue(*old(d)), seq![IssiFunction::ShortCircuitDetectRead]),
            short: None,
            ..issi_model(*old(d))
        }),
{
    let _ = d.short_circuit_detect_read();
}

/// `Is31fl3743bAtsam4Dma::open_circuit_detect_read`: forgets the results
/// read before and queues the read if the queue has room.
#[verifier::external_body]
fn issi_open_read(
    d: &mut is31fl3743b::Is31fl3743bAtsam4Dma<ISSI_DRIVER_CHIPS, ISSI_DRIVER_QUEUE_SIZE>,
)
    ensures
        issi_model(*final(d)) == (IssiModel {
            queue: enqueued(issi_queue(*old(d)), seq![IssiFunction::OpenCircuitDetectRead]),
            open: None,
            ..issi_model(*old(d))
        }),
{
    let _ = d.open_circuit_detect_read();
}

/// `Is31fl3743bAtsam4Dma::tx_function`: fills the transmit buffer for the
/// function at the head of the queue and gives the lengths of its
/// transfer; the function stays in the queue. There is no transfer when
/// the queue is empty.
#[verifier::external_body]
fn issi_tx(
    d: &mut is31fl3743b::Is31fl3743bAtsam4Dma<ISSI_DRIVER_CHIPS, ISSI_DRIVER_QUEUE_SIZE>,
    tx_buf: &mut Vec<u32>,
) -> (lens: Option<(usize, usize)>)
    requires
        old(tx_buf).len() >= ISSI_TX_WORDS,
    ensures
        issi_model(*final(d)) == issi_model(*old(d)),
        final(tx_buf).len() == old(tx_buf).len(),
        lens == (if issi_queue(*old(d)).len() > 0 {
            Some(
                (
                    transfer_for(issi_queue(*old(d))[0], issi_enabled(*old(d))).rx_len,
                    transfer_for(issi_queue(*old(d))[0], issi_enabled(*old(d))).tx_len,
                ),
            )
        } else {
            None
        }),
{
    d.tx_function(&mut tx_buf[..]).ok()
}

/// `Is31fl3743bAtsam4Dma::rx_function`: takes the function at the head of
/// the queue out and hands it the received words. After a read of test
/// results those results are there. Nothing happens when the queue is empty.
#[verifier::external_body]
fn issi_rx(
    d: &mut is31fl3743b::Is31fl3743bAtsam4Dma<ISSI_DRIVER_CHIPS, ISSI_DRIVER_QUEUE_SIZE>,
    rx_buf: &Vec<u32>,
) -> (taken: bool)
    requires
        rx_buf.len() >= ISSI_RX_WORDS,
    ensures
        taken == (issi_queue(*old(d)).len() > 0),
        !taken ==> issi_model(*final(d)) == issi_model(*old(d)),
        taken ==> {
            let head = issi_queue(*old(d))[0];
            &&& issi_queue(*final(d)) == issi_queue(*old(d)).drop_first()
            &&& issi_pwm(*final(d)) == issi_pwm(*old(d))
            &&& issi_scaling_pages(*final(d)) == issi_scaling_pages(*old(d))
            &&& issi_enabled(*final(d)) == issi_enabled(*old(d))
            &&& if head == IssiFunction::ShortCircuitDetectRead {
                issi_short(*final(d)) is Some
            } else {
                issi_short(*final(d)) == issi_short(*old(d))
            }
            &&& if head == IssiFunction::OpenCircuitDetectRead {
                issi_open(*final(d)) is Some
            } else {
                issi_open(*final(d)) == issi_open(*old(d))
            }
        },
{
    d.rx_function(&rx_buf[..]).is_ok()
}

/// The bytes of each vector of a sequence.
pub open spec fn chips_of(raw: Seq<Vec<u8>>) -> Seq<Seq<u8>> {
    raw.map_values(|chip: Vec<u8>| chip@)
}

/// `Is31fl3743bAtsam4Dma::short_circuit_raw`: the short-circuit results,
/// 32 bytes for each controller, if they have been read.
#[verifier::external_body]
fn issi_short_raw(
    d: &is31fl3743b::Is31fl3743bAtsam4Dma<ISSI_DRIVER_CHIPS, ISSI_DRIVER_QUEUE_SIZE>,
) -> (raw: Option<Vec<Vec<u8>>>)
    ensures
        raw is Some <==> issi_short(*d) is Some,
        raw is Some ==> {
            &&& chips_of(raw->0@) == issi_short(*d)->0
            &&& raw->0@.len() == ISSI_DRIVER_CHIPS
            &&& forall|chip: int|
                0 <= chip < raw->0@.len() ==> (#[trigger] raw->0@[chip])@.len() == ISSI_DETECT_LEN
        },
{
    d.short_circuit_raw().ok().map(|raw| raw.iter().map(|chip| chip.to_vec()).collect())
}

/// `Is31fl3743bAtsam4Dma::open_circuit_raw`: the open-circuit results,
/// 32 bytes for each controller, if they have been read.
#[verifier::external_body]
fn issi_open_raw(
    d: &is31fl3743b::Is31fl3743bAtsam4Dma<ISSI_DRIVER_CHIPS, ISSI_DRIVER_QUEUE_SIZE>,
) -> (raw: Option<Vec<Vec<u8>>>)
    ensures
        raw is Some <==> issi_open(*d) is Some,
        raw is Some ==> {
            &&& chips_of(raw->0@) == issi_open(*d)->0
            &&& raw->0@.len() == ISSI_DRIVER_CHIPS
            &&& forall|chip: int|
                0 <= chip < raw->0@.len() ==> (#[trigger] raw->0@[chip])@.len() == ISSI_DETECT_LEN
        },
{
    d.open_circuit_raw().ok().map(|raw| raw.iter().map(|chip| chip.to_vec()).collect())
}

/// `Is31fl3743bAtsam4Dma::pwm_page_buf`, filled: every channel of the
/// intensity page of controller `chip` gets `value`.
#[verifier::external_body]
fn issi_fill_pwm(
    d: &mut is31fl3743b::Is31fl3743bAtsam4Dma<ISSI_DRIVER_CHIPS, ISSI_DRIVER_QUEUE_SIZE>,
    chip: usize,
    value: u8,
)
    requires
        chip < ISSI_DRIVER_CHIPS,
    ensures
        issi_model(*final(d)) == (IssiModel {
            pwm: issi_pwm(*old(d)).update(
                chip as int,
                Seq::new(ISSI_DRIVER_CHANNELS as nat, |ch: int| value),
            ),
            ..issi_model(*old(d))
        }),
{
    d.pwm_page_buf()[chip].fill(value);
}

/// `Is31fl3743bAtsam4Dma::scaling_page_buf`, filled: every channel of the
/// scaling page of controller `chip` gets `value`.
#[verifier::external_body]
fn issi_fill_scaling(
    d: &mut is31fl3743b::Is31fl3743bAtsam4Dma<ISSI_DRIVER_CHIPS, ISSI_DRIVER_QUEUE_SIZE>,
    chip: usize,
    value: u8,
)
    requires
        chip < ISSI_DRIVER_CHIPS,
    ensures
        issi_model(*final(d)) == (IssiModel {
            scaling: issi_scaling_pages(*old(d)).update(
                chip as int,
                Seq::new(ISSI_DRIVER_CHANNELS as nat, |ch: int| value),
            ),
            ..issi_model(*old(d))
        }),
{
    d.scaling_page_buf()[chip].fill(value);
}

/// `Is31fl3743bAtsam4Dma::pwm_page_buf`: the intensity page of controller
/// `chip` is replaced by the 198 bytes of `data` from `start` on.
#[verifier::external_body]
fn issi_load_page(
    d: &mut is31fl3743b::Is31fl3743bAtsam4Dma<ISSI_DRIVER_CHIPS, ISSI_DRIVER_QUEUE_SIZE>,
    chip: usize,
    data: &Vec<u8>,
    start: usize,
)
    requires
        chip < ISSI_DRIVER_CHIPS,
        start + ISSI_DRIVER_CHANNELS <= data.len(),
    ensures
        issi_model(*final(d)) == (IssiModel {
            pwm: issi_pwm(*old(d)).update(
                chip as int,
                data@.subrange(start as int, start + ISSI_DRIVER_CHANNELS),
            ),
            ..issi_model(*old(d))
        }),
{
    d.pwm_page_buf()[chip].copy_from_slice(&data[start..start + ISSI_DRIVER_CHANNELS]);
}

/// Which of the two circuit tests a report belongs to.
#[derive(Clone, Copy, Debug, PartialEq, Eq, Structural)]
pub enum LedTestKind {
    /// Short-circuit test.
    Short,
    /// Open-circuit test.
    Open,
}

/// Results of a circuit test, framed for the host.
#[derive(Debug)]
pub struct LedTestReport {
    /// The test that was run.
    pub kind: LedTestKind,
    /// One segment per controller: its number, the number of result
    /// bytes, and the result bytes.
    pub data: Vec<u8>,
}

/// What a run of the test task reports.
#[derive(Debug)]
pub struct LedTestOutcome {
    /// Whether the test task and the frame task are to run again.
    pub reschedule: bool,
    /// The report of a test whose results were read in this run.
    pub report: Option<LedTestReport>,
}

/// Test results framed for the host: for each controller its number,
/// the number of its result bytes, and the bytes.
pub open spec fn framed(chips: Seq<Seq<u8>>) -> Seq<u8>
    decreases chips.len(),
{
    if chips.len() == 0 {
        Seq::empty()
    } else {
        framed(chips.drop_last()) + seq![(chips.len() - 1) as u8, chips.last().len() as u8]
            + chips.last()
    }
}

/// The pages that a frame buffer fills: one run of channels per controller.
pub open spec fn pages_of(buffer: Seq<u8>) -> Seq<Seq<u8>> {
    Seq::new(
        ISSI_DRIVER_CHIPS as nat,
        |chip: int|
            buffer.subrange(chip * ISSI_DRIVER_CHANNELS, (chip + 1) * ISSI_DRIVER_CHANNELS),
    )
}

/// What the manufacturing step of a frame decides.
pub struct TestsStep {
    /// The test state afterwards.
    pub test: LedTest,
    /// The requested tests afterwards.
    pub config: ManufacturingConfig,
    /// The functions that are queued.
    pub added: Seq<IssiFunction>,
    /// Whether the intensity and scaling pages are set to their maximum.
    pub maxed: bool,
    /// Whether the frame goes on to regular processing.
    pub regular: bool,
    /// Whether the test task is to be started.
    pub spawn: bool,
}

/// The manufacturing step of a frame. A test is only begun while none is
/// running, the short-circuit test before the open-circuit test, and only
/// when the queue has room for its three functions; the request is then
/// taken back. After a test the controllers are reset as soon as the queue
/// has room. While a test runs, requests wait and frames are not processed.
pub open spec fn tests_step(test: LedTest, config: ManufacturingConfig, room: nat) -> TestsStep {
    match test {
        LedTest::Disabled => if config.led_short_test {
            if room >= 3 {
                TestsStep {
                    test: LedTest::ShortQuery,
                    config: ManufacturingConfig { led_short_test: false, ..config },
                    added: seq![
                        IssiFunction::Pwm,
                        IssiFunction::Scaling,
                        IssiFunction::ShortCircuitDetectSetup,
                    ],
                    maxed: true,
                    regular: false,
                    spawn: true,
                }
            } else {
                TestsStep {
                    test,
                    config,
                    added: Seq::empty(),
                    maxed: false,
                    regular: false,
                    spawn: false,
                }
            }
        } else if config.led_open_test {
            if room >= 3 {
                TestsStep {
                    test: LedTest::OpenQuery,
                    config: ManufacturingConfig { led_open_test: false, ..config },
                    added: seq![
                        IssiFunction::Pwm,
                        IssiFunction::Scaling,
                        IssiFunction::OpenCircuitDetectSetup,
                    ],
                    maxed: true,
                    regular: false,
                    spawn: true,
                }
            } else {
                TestsStep {
                    test,
                    config,
                    added: Seq::empty(),
                    maxed: false,
                    regular: false,
                    spawn: false,
                }
            }
        } else {
            TestsStep {
                test,
                config,
                added: Seq::empty(),
                maxed: false,
                regular: true,
                spawn: false,
            }
        },
        LedTest::Reset => if room >= 1 {
            TestsStep {
                test: LedTest::Disabled,
                config,
                added: seq![IssiFunction::Reset],
                maxed: false,
                regular: false,
                spawn: false,
            }
        } else {
            TestsStep {
                test,
                config,
                added: Seq::empty(),
                maxed: false,
                regular: false,
                spawn: false,
            }
        },
        _ => TestsStep {
            test,
            config,
            added: Seq::empty(),
            maxed: false,
            regular: false,
            spawn: false,
        },
    }
}

/// What the regular step of a frame decides.
pub struct FrameStep {
    /// The control state afterwards.
    pub control: LedControl,
    /// The functions that are queued.
    pub added: Seq<IssiFunction>,
    /// Whether the frame buffer is copied to the pages.
    pub load: bool,
}

/// The regular step of a frame. Nothing is done unless the host controls
/// the LEDs. A requested reset comes first: it queues a reset, a scaling
/// update and an intensity update when the queue has room for the three,
/// and the requests are then taken back. Otherwise a frame is due when the
/// host runs frames continuously or has asked for the next frame; it is
/// copied to the pages and queued as one intensity update when the queue
/// has room and the frame buffer has one byte per channel. A frame or a
/// reset that cannot be queued is skipped and its request stays.
pub open spec fn frame_step(control: LedControl, buffer: Seq<u8>, regular: bool, room: nat)
    -> FrameStep {
    let idle = FrameStep { control, added: Seq::empty(), load: false };
    if !regular || control.control == Control::Disable {
        idle
    } else if control.hard_reset || control.soft_reset {
        if room >= 3 {
            FrameStep {
                control: LedControl { soft_reset: false, hard_reset: false, ..control },
                added: seq![IssiFunction::Reset, IssiFunction::Scaling, IssiFunction::Pwm],
                load: false,
            }
        } else {
            idle
        }
    } else if (control.control == Control::EnablePause && control.next_frame) || control.control
        == Control::EnableStart {
        if room >= 1 && buffer.len() == ISSI_DRIVER_CHIPS * ISSI_DRIVER_CHANNELS {
            FrameStep {
                control: LedControl { next_frame: false, ..control },
                added: seq![IssiFunction::Pwm],
                load: true,
            }
        } else {
            idle
        }
    } else {
        idle
    }
}

/// The LED controllers with their queue of pending functions and the
/// state of the transport.
pub struct LedPipeline {
    issi: is31fl3743b::Is31fl3743bAtsam4Dma<ISSI_DRIVER_CHIPS, ISSI_DRIVER_QUEUE_SIZE>,
    queued: usize,
    in_flight: bool,
}

impl LedPipeline {
    /// Queue, pages and test results of the controller driver.
    pub closed spec fn model(&self) -> IssiModel {
        issi_model(self.issi)
    }

    /// Whether a transfer is in flight. The transport is parked otherwise.
    pub closed spec fn in_flight(&self) -> bool {
        self.in_flight
    }

    /// The count of queued functions that the pipeline keeps.
    pub closed spec fn queued(&self) -> nat {
        self.queued as nat
    }

    /// Number of functions that the queue can still take.
    pub open spec fn room(&self) -> nat {
        (ISSI_DRIVER_QUEUE_ROOM - self.model().queue.len()) as nat
    }

    /// The queue is within its capacity and counted rightly, a transfer in
    /// flight has its function at the head of the queue, and there is one
    /// intensity page of 198 channels and one scaling page for each
    /// controller.
    pub open spec fn wf(&self) -> bool {
        &&& self.queued() == self.model().queue.len()
        &&& self.model().queue.len() <= ISSI_DRIVER_QUEUE_ROOM
        &&& self.in_flight() ==> self.model().queue.len() > 0
        &&& self.model().pwm.len() == ISSI_DRIVER_CHIPS
        &&& self.model().scaling.len() == ISSI_DRIVER_CHIPS
        &&& forall|chip: int|
            0 <= chip < self.model().pwm.len() ==> (#[trigger] self.model().pwm[chip]).len()
                == ISSI_DRIVER_CHANNELS
    }

    /// A pipeline with an empty queue, dark pages and a parked transport,
    /// for two controllers on chip selects 0 and 1.
    pub fn new(brightness: u8, enable: bool) -> (made: Self)
        ensures
            made.wf(),
            !made.in_flight(),
            made.model() == (IssiModel {
                queue: Seq::empty(),
                pwm: dark(ISSI_DRIVER_CHIPS as nat),
                scaling: dark(ISSI_DRIVER_CHIPS as nat),
                short: None,
                open: None,
                enabled: enable,
            }),
    {
        LedPipeline { issi: issi_new(0, 1, brightness, enable), queued: 0, in_flight: false }
    }

    /// Whether a transfer is in flight.
    pub fn is_in_flight(&self) -> (busy: bool)
        ensures
            busy == self.in_flight(),
    {
        self.in_flight
    }

    /// Number of functions that wait in the queue, the one in flight included.
    pub fn pending(&self) -> (n: usize)
        requires
            self.wf(),
        ensures
            n == self.model().queue.len(),
    {
        self.queued
    }

    /// Sets every channel of every controller to one intensity and one
    /// scaling, and queues the scaling update and the intensity update that
    /// send them, if the queue has room for the two. Says whether it did;
    /// nothing changes if it did not.
    pub fn set_levels(&mut self, pwm: u8, scaling: u8) -> (queued: bool)
        requires
            old(self).wf(),
        ensures
            final(self).wf(),
            final(self).in_flight() == old(self).in_flight(),
            queued == (old(self).room() >= 2),
            queued ==> final(self).model() == (IssiModel {
                queue: old(self).model().queue + seq![IssiFunction::Scaling, IssiFunction::Pwm],
                pwm: level(ISSI_DRIVER_CHIPS as nat, pwm),
                scaling: level(ISSI_DRIVER_CHIPS as nat, scaling),
                ..old(self).model()
            }),
            !queued ==> final(self).model() == old(self).model(),
    {
        if self.queued + 2 > ISSI_DRIVER_QUEUE_ROOM {
            return false;
        }
        let ghost before = self.model();
        issi_fill_pwm(&mut self.issi, 0, pwm);
        issi_fill_pwm(&mut self.issi, 1, pwm);
        issi_fill_scaling(&mut self.issi, 0, scaling);
        issi_fill_scaling(&mut self.issi, 1, scaling);
        let _ = issi_scaling(&mut self.issi);
        let _ = issi_pwm_update(&mut self.issi);
        self.queued = self.queued + 2;
        proof {
            assert(self.model().queue =~= before.queue + seq![
                IssiFunction::Scaling,
                IssiFunction::Pwm,
            ]);
            assert(self.model().pwm =~= level(ISSI_DRIVER_CHIPS as nat, pwm));
            assert(self.model().scaling =~= level(ISSI_DRIVER_CHIPS as nat, scaling));
        }
        true
    }

    /// Queues an intensity update if the queue has room, and says whether
    /// it did. The pages are sent as they stand.
    pub fn request_pwm(&mut self) -> (queued: bool)
        requires
            old(self).wf(),
        ensures
            final(self).wf(),
            final(self).in_flight() == old(self).in_flight(),
            queued == (old(self).room() >= 1),
            final(self).model() == (IssiModel {
                queue: if queued {
                    old(self).model().queue.push(IssiFunction::Pwm)
                } else {
                    old(self).model().queue
                },
                ..old(self).model()
            }),
    {
        if self.queued >= ISSI_DRIVER_QUEUE_ROOM {
            return false;
        }
        let ghost before = self.model().queue;
        let _ = issi_pwm_update(&mut self.issi);
        self.queued = self.queued + 1;
        proof {
            assert(self.model().queue =~= before.push(IssiFunction::Pwm));
        }
        true
    }

    /// Prepares the transfer of the function at the head of the queue
    /// and marks it in flight, unless a transfer is in flight already. With
    /// nothing queued there is no transfer and the transport stays parked.
    pub fn compose_next_transaction(&mut self, tx_buf: &mut Vec<u32>) -> (next: Option<Transaction>)
        requires
            old(self).wf(),
            old(tx_buf).len() >= ISSI_TX_WORDS,
        ensures
            final(self).wf(),
            final(self).model() == old(self).model(),
            final(tx_buf).len() == old(tx_buf).len(),
            next == (if !old(self).in_flight() && old(self).model().queue.len() > 0 {
                Some(transfer_for(old(self).model().queue[0], old(self).model().enabled))
            } else {
                None
            }),
            final(self).in_flight() == (old(self).in_flight() || old(self).model().queue.len()
                > 0),
    {
        if self.in_flight {
            return None;
        }
        match issi_tx(&mut self.issi, tx_buf) {
            Some((rx_len, tx_len)) => {
                self.in_flight = true;
                Some(Transaction { rx_len, tx_len })
            },
            None => None,
        }
    }

    /// Closes the transfer in flight: its function leaves the queue and
    /// takes the received words, and the transfer of the next function, if
    /// there is one, is prepared and in flight at once. With nothing left
    /// the transport is parked. Without a transfer in flight nothing happens.
    pub fn on_transfer_complete(&mut self, rx_buf: &Vec<u32>, tx_buf: &mut Vec<u32>) -> (next:
        Option<Transaction>)
        requires
            old(self).wf(),
            rx_buf.len() >= ISSI_RX_WORDS,
            old(tx_buf).len() >= ISSI_TX_WORDS,
        ensures
            final(self).wf(),
            final(tx_buf).len() == old(tx_buf).len(),
            !old(self).in_flight() ==> {
                &&& final(self).model() == old(self).model()
                &&& !final(self).in_flight()
                &&& next is None
            },
            old(self).in_flight() ==> {
                let head = old(self).model().queue[0];
                let rest = old(self).model().queue.drop_first();
                &&& final(self).model().queue == rest
                &&& final(self).model().pwm == old(self).model().pwm
                &&& final(self).model().scaling == old(self).model().scaling
                &&& final(self).model().enabled == old(self).model().enabled
                &&& if head == IssiFunction::ShortCircuitDetectRead {
                    final(self).model().short is Some
                } else {
                    final(self).model().short == old(self).model().short
                }
                &&& if head == IssiFunction::OpenCircuitDetectRead {
                    final(self).model().open is Some
                } else {
                    final(self).model().open == old(self).model().open
                }
                &&& next == (if rest.len() > 0 {
                    Some(transfer_for(rest[0], old(self).model().enabled))
                } else {
                    None
                })
                &&& final(self).in_flight() == (rest.len() > 0)
            },
    {
        if !self.in_flight {
            return None;
        }
        let _ = issi_rx(&mut self.issi, rx_buf);
        self.queued = self.queued - 1;
        match issi_tx(&mut self.issi, tx_buf) {
            Some((rx_len, tx_len)) => Some(Transaction { rx_len, tx_len }),
            None => {
                self.in_flight = false;
                None
            },
        }
    }
}

/// Makes the pipeline and starts it with a reset of the controllers: the
/// reset is queued and its transfer prepared and in flight.
pub fn init(brightness: u8, enable: bool, tx_buf: &mut Vec<u32>) -> (made: (
    LedPipeline,
    Transaction,
))
    requires
        old(tx_buf).len() >= ISSI_TX_WORDS,
    ensures
        final(tx_buf).len() == old(tx_buf).len(),
        made.0.wf(),
        made.0.in_flight(),
        made.0.model() == (IssiModel {
            queue: seq![IssiFunction::Reset],
            pwm: dark(ISSI_DRIVER_CHIPS as nat),
            scaling: dark(ISSI_DRIVER_CHIPS as nat),
            short: None,
            open: None,
            enabled: enable,
        }),
        made.1 == transfer_for(IssiFunction::Reset, enable),
{
    let mut pipeline = LedPipeline::new(brightness, enable);
    let _ = issi_reset(&mut pipeline.issi);
    pipeline.queued = 1;
    proof {
        assert(pipeline.model().queue =~= seq![IssiFunction::Reset]);
    }
    match pipeline.compose_next_transaction(tx_buf) {
        Some(first) => (pipeline, first),
        None => (pipeline, Transaction { rx_len: 0, tx_len: 0 }),
    }
}

/// The manufacturing step of a frame: begins a requested circuit test
/// when none is running, and resets the controllers after a test. Returns
/// whether the frame goes on to regular processing and whether the test
/// task is to be started.
pub fn led_frame_process_manufacturing_tests_task(
    manufacturing_config: &mut ManufacturingConfig,
    issi: &mut LedPipeline,
    led_test: &mut LedTest,
) -> (next: (bool, bool))
    requires
        old(issi).wf(),
    ensures
        final(issi).wf(),
        ({
            let step = tests_step(*old(led_test), *old(manufacturing_config), old(issi).room());
            &&& *final(led_test) == step.test
            &&& *final(manufacturing_config) == step.config
            &&& next == (step.regular, step.spawn)
            &&& final(issi).in_flight() == old(issi).in_flight()
            &&& final(issi).model() == (IssiModel {
                queue: old(issi).model().queue + step.added,
                pwm: if step.maxed {
                    maxed(old(issi).model().pwm)
                } else {
                    old(issi).model().pwm
                },
                scaling: if step.maxed {
                    maxed(old(issi).model().scaling)
                } else {
                    old(issi).model().scaling
                },
                ..old(issi).model()
            })
        }),
{
    let room: usize = ISSI_DRIVER_QUEUE_ROOM - issi.queued;
    let ghost before = issi.model();
    proof {
        assert(before.queue + Seq::<IssiFunction>::empty() =~= before.queue);
    }
    match *led_test {
        LedTest::Disabled => {
            if manufacturing_config.led_short_test {
                if room >= 3 {
                    let _ = issi_short_setup(&mut issi.issi);
                    issi.queued = issi.queued + 3;
                    *led_test = LedTest::ShortQuery;
                    manufacturing_config.led_short_test = false;
                    proof {
                        lemma_maxed_keeps_shape(before.pwm);
                    }
                    (false, true)
                } else {
                    (false, false)
                }
            } else if manufacturing_config.led_open_test {
                if room >= 3 {
                    let _ = issi_open_setup(&mut issi.issi);
                    issi.queued = issi.queued + 3;
                    *led_test = LedTest::OpenQuery;
                    manufacturing_config.led_open_test = false;
                    proof {
                        lemma_maxed_keeps_shape(before.pwm);
                    }
                    (false, true)
                } else {
                    (false, false)
                }
            } else {
                (true, false)
            }
        },
        LedTest::Reset => {
            if room >= 1 {
                let _ = issi_reset(&mut issi.issi);
                issi.queued = issi.queued + 1;
                *led_test = LedTest::Disabled;
            }
            (false, false)
        },
        _ => (false, false),
    }
}

/// Pages set to their maximum are as many and as long as before.
pub proof fn lemma_maxed_keeps_shape(pwm: Seq<Seq<u8>>)
    ensures
        maxed(pwm).len() == pwm.len(),
        forall|chip: int|
            0 <= chip < pwm.len() ==> (#[trigger] maxed(pwm)[chip]).len() == pwm[chip].len(),
{
}

/// The regular step of a frame, followed by the arming of a parked
/// transport: a requested reset or a due frame is queued, and if no
/// transfer is in flight, the transfer of the function at the head of the
/// queue is prepared and in flight. With nothing queued the transport
/// stays parked.
pub fn led_frame_process_is31fl3743b_dma_task(
    led_control: &mut LedControl,
    led_buffer: &Vec<u8>,
    issi: &mut LedPipeline,
    tx_buf: &mut Vec<u32>,
    regular_processing: bool,
) -> (started: Option<Transaction>)
    requires
        old(issi).wf(),
        old(tx_buf).len() >= ISSI_TX_WORDS,
    ensures
        final(issi).wf(),
        final(tx_buf).len() == old(tx_buf).len(),
        ({
            let step = frame_step(
                *old(led_control),
                led_buffer@,
                regular_processing,
                old(issi).room(),
            );
            let queue = old(issi).model().queue + step.added;
            &&& *final(led_control) == step.control
            &&& final(issi).model() == (IssiModel {
                queue,
                pwm: if step.load {
                    pages_of(led_buffer@)
                } else {
                    old(issi).model().pwm
                },
                ..old(issi).model()
            })
            &&& started == (if !old(issi).in_flight() && queue.len() > 0 {
                Some(transfer_for(queue[0], old(issi).model().enabled))
            } else {
                None
            })
            &&& final(issi).in_flight() == (old(issi).in_flight() || queue.len() > 0)
        }),
{
    let room: usize = ISSI_DRIVER_QUEUE_ROOM - issi.queued;
    let ghost before = issi.model();
    proof {
        assert(before.queue + Seq::<IssiFunction>::empty() =~= before.queue);
    }
    if regular_processing && led_control.control != Control::Disable {
        if led_control.hard_reset || led_control.soft_reset {
            if room >= 3 {
                led_control.soft_reset = false;
                led_control.hard_reset = false;
                let _ = issi_reset(&mut issi.issi);
                let _ = issi_scaling(&mut issi.issi);
                let _ = issi_pwm_update(&mut issi.issi);
                issi.queued = issi.queued + 3;
                proof {
                    assert(issi.model().queue =~= before.queue + seq![
                        IssiFunction::Reset,
                        IssiFunction::Scaling,
                        IssiFunction::Pwm,
                    ]);
                }
            }
        } else if (led_control.control == Control::EnablePause && led_control.next_frame)
            || led_control.control == Control::EnableStart {
            if room >= 1 && led_buffer.len() == ISSI_DRIVER_CHIPS * ISSI_DRIVER_CHANNELS {
                led_control.next_frame = false;
                issi_load_page(&mut issi.issi, 0, led_buffer, 0);
                issi_load_page(&mut issi.issi, 1, led_buffer, ISSI_DRIVER_CHANNELS);
                let _ = issi_pwm_update(&mut issi.issi);
                issi.queued = issi.queued + 1;
                proof {
                    assert(issi.model().pwm =~= pages_of(led_buffer@));
                }
            }
        }
    }
    issi.compose_next_transaction(tx_buf)
}

/// What a run of the test task decides.
pub struct TestTaskStep {
    /// The test state afterwards.
    pub test: LedTest,
    /// The function that is queued, if one is.
    pub added: Seq<IssiFunction>,
    /// Whether the task runs again.
    pub reschedule: bool,
    /// The kind of the report, if one is made.
    pub report: Option<LedTestKind>,
}

/// One run of the test task. After the settle time of a test its results
/// are requested, as soon as the queue has room; once they have been read
/// from the controllers, they are reported and the test goes on to the
/// reset. Until then the task runs again.
pub open spec fn test_task_step(test: LedTest, issi: IssiModel) -> TestTaskStep {
    let room = ISSI_DRIVER_QUEUE_ROOM - issi.queue.len();
    match test {
        LedTest::ShortQuery => if room >= 1 {
            TestTaskStep {
                test: LedTest::ShortReady,
                added: seq![IssiFunction::ShortCircuitDetectRead],
                reschedule: true,
                report: None,
            }
        } else {
            TestTaskStep { test, added: Seq::empty(), reschedule: true, report: None }
        },
        LedTest::OpenQuery => if room >= 1 {
            TestTaskStep {
                test: LedTest::OpenReady,
                added: seq![IssiFunction::OpenCircuitDetectRead],
                reschedule: true,
                report: None,
            }
        } else {
            TestTaskStep { test, added: Seq::empty(), reschedule: true, report: None }
        },
        LedTest::ShortReady => if issi.short is Some {
            TestTaskStep {
                test: LedTest::Reset,
                added: Seq::empty(),
                reschedule: false,
                report: Some(LedTestKind::Short),
            }
        } else {
            TestTaskStep { test, added: Seq::empty(), reschedule: true, report: None }
        },
        LedTest::OpenReady => if issi.open is Some {
            TestTaskStep {
                test: LedTest::Reset,
                added: Seq::empty(),
                reschedule: false,
                report: Some(LedTestKind::Open),
            }
        } else {
            TestTaskStep { test, added: Seq::empty(), reschedule: true, report: None }
        },
        _ => TestTaskStep { test, added: Seq::empty(), reschedule: false, report: None },
    }
}

/// Frames the results of a circuit test for the host.
fn frame_results(raw: &Vec<Vec<u8>>) -> (data: Vec<u8>)
    requires
        raw@.len() == ISSI_DRIVER_CHIPS,
        forall|chip: int|
            0 <= chip < raw@.len() ==> (#[trigger] raw@[chip])@.len() == ISSI_DETECT_LEN,
    ensures
        data@ == framed(chips_of(raw@)),
{
    let ghost chips = chips_of(raw@);
    let mut buffer = buffer_new();
    let mut i: usize = 0;
    while i < raw.len()
        invariant
            i <= raw@.len(),
            raw@.len() == ISSI_DRIVER_CHIPS,
            chips == chips_of(raw@),
            forall|chip: int|
                0 <= chip < raw@.len() ==> (#[trigger] raw@[chip])@.len() == ISSI_DETECT_LEN,
            buffer_bytes(buffer) == framed(chips.take(i as int)),
            buffer_bytes(buffer).len() == i * 34,
        decreases raw@.len() - i,
    {
        let chip = &raw[i];
        proof {
            assert(chips.take(i + 1).drop_last() =~= chips.take(i as int));
            assert(chips.take(i + 1).last() == chip@);
        }
        let _ = buffer_push(&mut buffer, i as u8);
        let _ = buffer_push(&mut buffer, chip.len() as u8);
        let _ = buffer_extend(&mut buffer, chip.as_slice());
        proof {
            assert(buffer_bytes(buffer) =~= framed(chips.take(i as int)) + seq![
                i as u8,
                chip@.len() as u8,
            ] + chip@);
        }
        i = i + 1;
    }
    proof {
        assert(chips.take(raw@.len() as int) =~= chips);
    }
    buffer_to_vec(&buffer)
}

/// One run of the test task, which is scheduled after the settle time of
/// a circuit test: requests the results of the test, or reads and reports
/// them once they are there.
pub fn led_test_task(issi: &mut LedPipeline, led_test: &mut LedTest) -> (out: LedTestOutcome)
    requires
        old(issi).wf(),
    ensures
        final(issi).wf(),
        final(issi).in_flight() == old(issi).in_flight(),
        ({
            let step = test_task_step(*old(led_test), old(issi).model());
            &&& *final(led_test) == step.test
            &&& out.reschedule == step.reschedule
            &&& final(issi).model() == (IssiModel {
                queue: old(issi).model().queue + step.added,
                short: if step.added == seq![IssiFunction::ShortCircuitDetectRead] {
                    None
                } else {
                    old(issi).model().short
                },
                open: if step.added == seq![IssiFunction::OpenCircuitDetectRead] {
                    None
                } else {
                    old(issi).model().open
                },
                ..old(issi).model()
            })
            &&& match step.report {
                Some(kind) => {
                    &&& out.report is Some
                    &&& out.report->0.kind == kind
                    &&& out.report->0.data@ == framed(
                        if kind == LedTestKind::Short {
                            old(issi).model().short->0
                        } else {
                            old(issi).model().open->0
                        },
                    )
                },
                None => out.report is None,
            }
        }),
{
    let room: usize = ISSI_DRIVER_QUEUE_ROOM - issi.queued;
    let ghost before = issi.model();
    proof {
        assert(before.queue + Seq::<IssiFunction>::empty() =~= before.queue);
        let short_read = seq![IssiFunction::ShortCircuitDetectRead];
        let open_read = seq![IssiFunction::OpenCircuitDetectRead];
        assert(short_read[0] != open_read[0]);
        assert(Seq::<IssiFunction>::empty().len() != short_read.len());
        assert(Seq::<IssiFunction>::empty().len() != open_read.len());
    }
    match *led_test {
        LedTest::ShortQuery => {
            if room >= 1 {
                issi_short_read(&mut issi.issi);
                issi.queued = issi.queued + 1;
                *led_test = LedTest::ShortReady;
            }
            LedTestOutcome { reschedule: true, report: None }
        },
        LedTest::OpenQuery => {
            if room >= 1 {
                issi_open_read(&mut issi.issi);
                issi.queued = issi.queued + 1;
                *led_test = LedTest::OpenReady;
                proof {
                    assert(seq![IssiFunction::OpenCircuitDetectRead][0]
                        != IssiFunction::ShortCircuitDetectRead);
                }
            }
            LedTestOutcome { reschedule: true, report: None }
        },
        LedTest::ShortReady => {
            match issi_short_raw(&issi.issi) {
                Some(raw) => {
                    let data = frame_results(&raw);
                    *led_test = LedTest::Reset;
                    LedTestOutcome {
                        reschedule: false,
                        report: Some(LedTestReport { kind: LedTestKind::Short, data }),
                    }
                },
                None => LedTestOutcome { reschedule: true, report: None },
            }
        },
        LedTest::OpenReady => {
            match issi_open_raw(&issi.issi) {
                Some(raw) => {
                    let data = frame_results(&raw);
                    *led_test = LedTest::Reset;
                    LedTestOutcome {
                        reschedule: false,
                        report: Some(LedTestReport { kind: LedTestKind::Open, data }),
                    }
                },
                None => LedTestOutcome { reschedule: true, report: None },
            }
        },
        _ => LedTestOutcome { reschedule: false, report: None },
    }
}

/// Handles the completion of a transfer on the LED transport: see
/// `LedPipeline::on_transfer_complete`.
pub fn spi_irq(issi: &mut LedPipeline, rx_buf: &Vec<u32>, tx_buf: &mut Vec<u32>) -> (next: Option<
    Transaction,
>)
    requires
        old(issi).wf(),
        rx_buf.len() >= ISSI_RX_WORDS,
        old(tx_buf).len() >= ISSI_TX_WORDS,
    ensures
        final(issi).wf(),
        final(tx_buf).len() == old(tx_buf).len(),
        !old(issi).in_flight() ==> {
            &&& final(issi).model() == old(issi).model()
            &&& !final(issi).in_flight()
            &&& next is None
        },
        old(issi).in_flight() ==> {
            let head = old(issi).model().queue[0];
            let rest = old(issi).model().queue.drop_first();
            &&& final(issi).model().queue == rest
            &&& final(issi).model().pwm == old(issi).model().pwm
            &&& final(issi).model().scaling == old(issi).model().scaling
            &&& final(issi).model().enabled == old(issi).model().enabled
            &&& if head == IssiFunction::ShortCircuitDetectRead {
                final(issi).model().short is Some
            } else {
                final(issi).model().short == old(issi).model().short
            }
            &&& if head == IssiFunction::OpenCircuitDetectRead {
                final(issi).model().open is Some
            } else {
                final(issi).model().open == old(issi).model().open
            }
            &&& next == (if rest.len() > 0 {
                Some(transfer_for(rest[0], old(issi).model().enabled))
            } else {
                None
            })
            &&& final(issi).in_flight() == (rest.len() > 0)
        },
{
    issi.on_transfer_complete(rx_buf, tx_buf)
}

/// What the processing of a frame reports.
#[derive(Clone, Copy, Debug, PartialEq, Eq, Structural)]
pub struct FrameOutcome {
    /// Whether the test task is to be started.
    pub spawn_led_test: bool,
    /// The transfer that was prepared and is in flight now, if the
    /// transport was parked and there is work.
    pub started: Option<Transaction>,
}

/// Whether the host has work for the next frame: a reset that was asked
/// for, or a frame that is due.
pub open spec fn frame_work(control: LedControl) -> bool {
    control.control != Control::Disable && (control.hard_reset || control.soft_reset
        || control.control == Control::EnableStart || control.next_frame)
}

/// Processes one tick of the frame timer: the manufacturing step, then
/// the regular step and the arming of the transport.
///
/// When there is nothing to do, that is no test runs or is requested,
/// the host has no work for the frame, and nothing is queued, then nothing
/// is queued or started and the transport stays parked.
pub fn led_frame_process(
    hidio_intf: &mut HidioInterface,
    issi: &mut LedPipeline,
    led_test: &mut LedTest,
    tx_buf: &mut Vec<u32>,
) -> (out: FrameOutcome)
    requires
        old(issi).wf(),
        old(tx_buf).len() >= ISSI_TX_WORDS,
    ensures
        final(issi).wf(),
        final(tx_buf).len() == old(tx_buf).len(),
        final(hidio_intf).led_buffer == old(hidio_intf).led_buffer,
        final(hidio_intf).hall_effect == old(hidio_intf).hall_effect,
        final(hidio_intf).device == old(hidio_intf).device,
        final(hidio_intf).mcu == old(hidio_intf).mcu,
        final(hidio_intf).serial == old(hidio_intf).serial,
        ({
            let tests = tests_step(
                *old(led_test),
                old(hidio_intf).manufacturing_config,
                old(issi).room(),
            );
            let queued = old(issi).model().queue + tests.added;
            let frame = frame_step(
                old(hidio_intf).led_control,
                old(hidio_intf).led_buffer@,
                tests.regular,
                (ISSI_DRIVER_QUEUE_ROOM - queued.len()) as nat,
            );
            let queue = queued + frame.added;
            &&& *final(led_test) == tests.test
            &&& final(hidio_intf).manufacturing_config == tests.config
            &&& final(hidio_intf).led_control == frame.control
            &&& out.spawn_led_test == tests.spawn
            &&& final(issi).model() == (IssiModel {
                queue,
                pwm: if frame.load {
                    pages_of(old(hidio_intf).led_buffer@)
                } else if tests.maxed {
                    maxed(old(issi).model().pwm)
                } else {
                    old(issi).model().pwm
                },
                scaling: if tests.maxed {
                    maxed(old(issi).model().scaling)
                } else {
                    old(issi).model().scaling
                },
                ..old(issi).model()
            })
            &&& out.started == (if !old(issi).in_flight() && queue.len() > 0 {
                Some(transfer_for(queue[0], old(issi).model().enabled))
            } else {
                None
            })
            &&& final(issi).in_flight() == (old(issi).in_flight() || queue.len() > 0)
        }),
        (*old(led_test) == LedTest::Disabled && !old(hidio_intf).manufacturing_config.led_short_test
            && !old(hidio_intf).manufacturing_config.led_open_test && !frame_work(
            old(hidio_intf).led_control,
        ) && old(issi).model().queue.len() == 0 && !old(issi).in_flight()) ==> {
            &&& out.started is None
            &&& !out.spawn_led_test
            &&& !final(issi).in_flight()
            &&& final(issi).model() == old(issi).model()
            &&& *final(led_test) == LedTest::Disabled
            &&& final(hidio_intf).led_control == old(hidio_intf).led_control
            &&& final(hidio_intf).manufacturing_config == old(hidio_intf).manufacturing_config
        },
{
    let ghost before = issi.model();
    let (regular, spawn_led_test) = led_frame_process_manufacturing_tests_task(
        &mut hidio_intf.manufacturing_config,
        issi,
        led_test,
    );
    let ghost tests = tests_step(
        *old(led_test),
        old(hidio_intf).manufacturing_config,
        old(issi).room(),
    );
    let started = led_frame_process_is31fl3743b_dma_task(
        &mut hidio_intf.led_control,
        &hidio_intf.led_buffer,
        issi,
        tx_buf,
        regular,
    );
    proof {
        assert(before.queue + Seq::<IssiFunction>::empty() =~= before.queue);
        assert(tests.regular ==> tests.added.len() == 0 && !tests.maxed);
    }
    FrameOutcome { spawn_led_test, started }
}

/// The self-test moves through its states in one order only, and one test
/// at a time. A frame begins a test only while none runs, then takes the
/// request back and leaves every other request as it is; after the results
/// were read it resets the controllers and only then lets the next test
/// begin. The test task moves a test from its setup to the request of its
/// results and from there to the reset, never from one test to the other.
pub proof fn lemma_self_test_order(test: LedTest, config: ManufacturingConfig, issi: IssiModel)
    requires
        issi.queue.len() <= ISSI_DRIVER_QUEUE_ROOM,
    ensures
        ({
            let room = (ISSI_DRIVER_QUEUE_ROOM - issi.queue.len()) as nat;
            let frame = tests_step(test, config, room);
            let task = test_task_step(test, issi);
            &&& match test {
                LedTest::Disabled => {
                    &&& frame.test == LedTest::Disabled || frame.test == LedTest::ShortQuery
                        || frame.test == LedTest::OpenQuery
                    &&& task.test == LedTest::Disabled
                },
                LedTest::ShortQuery => {
                    &&& frame.test == LedTest::ShortQuery
                    &&& task.test == LedTest::ShortQuery || task.test == LedTest::ShortReady
                },
                LedTest::ShortReady => {
                    &&& frame.test == LedTest::ShortReady
                    &&& task.test == LedTest::ShortReady || task.test == LedTest::Reset
                },
                LedTest::OpenQuery => {
                    &&& frame.test == LedTest::OpenQuery
                    &&& task.test == LedTest::OpenQuery || task.test == LedTest::OpenReady
                },
                LedTest::OpenReady => {
                    &&& frame.test == LedTest::OpenReady
                    &&& task.test == LedTest::OpenReady || task.test == LedTest::Reset
                },
                LedTest::Reset => {
                    &&& frame.test == LedTest::Reset || frame.test == LedTest::Disabled
                    &&& task.test == LedTest::Reset
                },
            }
            &&& frame.spawn <==> (test == LedTest::Disabled && frame.test != LedTest::Disabled)
            &&& test != LedTest::Disabled ==> frame.config == config
            &&& frame.test == LedTest::ShortQuery && test == LedTest::Disabled ==> frame.config == (
            ManufacturingConfig { led_short_test: false, ..config })
            &&& frame.test == LedTest::OpenQuery && test == LedTest::Disabled ==> frame.config == (
            ManufacturingConfig { led_open_test: false, ..config })
            &&& task.report is Some ==> task.test == LedTest::Reset
        }),
{
}

} // verus!
