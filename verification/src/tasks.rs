//! Priorities of the tasks and arbitration of the state that they share.
//!
//! Every task has a fixed priority, and a task of higher priority preempts
//! one of lower priority. State that several tasks use is guarded by a
//! priority ceiling: the ceiling of a resource is the highest priority of
//! the tasks that use it, and a task that holds the resource runs at that
//! priority for as long as it holds it. So no task that uses a resource
//! can run while another holds it, and a task is held up by a task of
//! lower priority only for the length of one critical section.
use vstd::prelude::*;

verus! {

/// The interrupt handlers and deferred tasks of the controller.
#[derive(Clone, Copy, Debug, PartialEq, Eq, Structural)]
pub enum Task {
    /// Scan timer interrupt: starts the acquisition of the next strobe.
    ScanTimer,
    /// Acquisition interrupt: handles the samples of a strobe.
    Acquisition,
    /// Interrupt of the USB device.
    UsbDevice,
    /// Frame timer interrupt: schedules the LED frame.
    FrameTimer,
    /// Interrupt of the LED transport: a transfer has completed.
    Transport,
    /// Deferred: turns the events of a cycle into actions.
    MacroProcess,
    /// Deferred: sends the actions to the host.
    UsbProcess,
    /// Deferred: processes an LED frame.
    LedFrame,
    /// Deferred: follows up on a circuit test after its settle time.
    LedTest,
    /// Periodic: feeds the watchdog and blinks the activity LED.
    Liveness,
}

/// The state that tasks share.
#[derive(Clone, Copy, Debug, PartialEq, Eq, Structural)]
pub enum Resource {
    /// The sample transfer of the converter.
    Acquisition,
    /// The channel of the scan timer.
    ScanTimer,
    /// The interface to the host with its requests.
    HostInterface,
    /// The LED controller driver with its queue.
    LedDriver,
    /// The state of the trigger engine.
    LayerState,
    /// The masks of the lock LEDs.
    LedLockMask,
    /// The state of the circuit test.
    LedTest,
    /// The manufacturing buffer.
    ManufacturingData,
    /// The strobe and the sensor state of the matrix.
    Matrix,
    /// The LED transport, parked or in flight.
    Transport,
    /// The USB device.
    UsbDevice,
    /// The HID interfaces of the USB device.
    UsbHid,
}

/// Priority of a task; a larger number preempts a smaller one. The scan
/// timer comes first and the acquisition second, so that sampling is never
/// held up by processing; the deferred tasks come in the order in which
/// the data flows through them.
pub open spec fn priority_of(task: Task) -> u8 {
    match task {
        Task::ScanTimer => 15,
        Task::Acquisition => 14,
        Task::UsbDevice => 14,
        Task::FrameTimer => 13,
        Task::Transport => 12,
        Task::MacroProcess => 11,
        Task::UsbProcess => 10,
        Task::LedFrame => 8,
        Task::LedTest => 7,
        Task::Liveness => 1,
    }
}

/// Whether a task uses a resource.
pub open spec fn uses(task: Task, resource: Resource) -> bool {
    match task {
        Task::ScanTimer => resource == Resource::Acquisition || resource == Resource::ScanTimer,
        Task::Acquisition => resource == Resource::Acquisition || resource
            == Resource::HostInterface || resource == Resource::LayerState || resource
            == Resource::ManufacturingData || resource == Resource::Matrix || resource
            == Resource::ScanTimer,
        Task::UsbDevice => resource == Resource::HostInterface || resource == Resource::UsbDevice
            || resource == Resource::UsbHid,
        Task::FrameTimer => false,
        Task::Transport => resource == Resource::LedDriver || resource == Resource::Transport,
        Task::MacroProcess => resource == Resource::HostInterface || resource
            == Resource::LayerState || resource == Resource::Matrix,
        Task::UsbProcess => resource == Resource::UsbDevice || resource == Resource::UsbHid,
        Task::LedFrame => resource == Resource::HostInterface || resource == Resource::LedDriver
            || resource == Resource::LedLockMask || resource == Resource::LedTest || resource
            == Resource::Transport,
        Task::LedTest => resource == Resource::HostInterface || resource == Resource::LedDriver
            || resource == Resource::LedTest,
        Task::Liveness => resource == Resource::LedDriver || resource == Resource::LedLockMask,
    }
}

/// All tasks.
pub open spec fn all_tasks() -> Seq<Task> {
    seq![
        Task::ScanTimer,
        Task::Acquisition,
        Task::UsbDevice,
        Task::FrameTimer,
        Task::Transport,
        Task::MacroProcess,
        Task::UsbProcess,
        Task::LedFrame,
        Task::LedTest,
        Task::Liveness,
    ]
}

/// The highest priority among the first `upto` of `tasks` that use
/// `resource`; 0 if none of them does.
pub open spec fn ceiling_among(resource: Resource, tasks: Seq<Task>, upto: nat) -> u8
    decreases upto,
{
    if upto == 0 {
        0
    } else {
        let earlier = ceiling_among(resource, tasks, (upto - 1) as nat);
        let task = tasks[upto - 1];
        if uses(task, resource) && priority_of(task) > earlier {
            priority_of(task)
        } else {
            earlier
        }
    }
}

/// Priority ceiling of a resource: the highest priority of the tasks that
/// use it.
pub open spec fn ceiling_of(resource: Resource) -> u8 {
    ceiling_among(resource, all_tasks(), all_tasks().len())
}

/// The priority at which a task runs while it holds `held`: its own, or
/// the highest ceiling of what it holds where that is higher.
pub open spec fn effective_priority(task: Task, held: Seq<Resource>) -> u8
    decreases held.len(),
{
    if held.len() == 0 {
        priority_of(task)
    } else {
        let rest = effective_priority(task, held.drop_last());
        if ceiling_of(held.last()) > rest {
            ceiling_of(held.last())
        } else {
            rest
        }
    }
}

/// Whether `incoming` preempts `running` while that holds `held`.
pub open spec fn preempts(incoming: Task, running: Task, held: Seq<Resource>) -> bool {
    priority_of(incoming) > effective_priority(running, held)
}

/// The tasks that a task schedules when it has run. `flag` is what the
/// run found: for the acquisition, that the strobe wrapped to column 0; for
/// the LED frame, that a circuit test was begun; for the LED test, that the
/// test is not finished. Every tick of the frame timer schedules a frame,
/// and every run of the macros schedules the output to the host.
pub open spec fn scheduled_by(task: Task, flag: bool) -> Seq<Task> {
    match task {
        Task::Acquisition => if flag {
            seq![Task::MacroProcess]
        } else {
            Seq::empty()
        },
        Task::FrameTimer => seq![Task::LedFrame],
        Task::LedFrame => if flag {
            seq![Task::LedTest]
        } else {
            Seq::empty()
        },
        Task::LedTest => if flag {
            seq![Task::LedTest, Task::LedFrame]
        } else {
            Seq::empty()
        },
        Task::MacroProcess => seq![Task::UsbProcess],
        _ => Seq::empty(),
    }
}

/// Whether a task is deferred, that is scheduled by another task and not
/// bound to an interrupt.
pub open spec fn deferred(task: Task) -> bool {
    task == Task::MacroProcess || task == Task::UsbProcess || task == Task::LedFrame || task
        == Task::LedTest
}

/// The tasks that a task schedules when it has run.
pub fn follow_ups(task: Task, flag: bool) -> (next: Vec<Task>)
    ensures
        next@ == scheduled_by(task, flag),
{
    let mut next: Vec<Task> = Vec::new();
    match task {
        Task::Acquisition => {
            if flag {
                next.push(Task::MacroProcess);
            }
        },
        Task::FrameTimer => {
            next.push(Task::LedFrame);
        },
        Task::LedFrame => {
            if flag {
                next.push(Task::LedTest);
            }
        },
        Task::LedTest => {
            if flag {
                next.push(Task::LedTest);
                next.push(Task::LedFrame);
            }
        },
        Task::MacroProcess => {
            next.push(Task::UsbProcess);
        },
        _ => {},
    }
    proof {
        assert(next@ =~= scheduled_by(task, flag));
    }
    next
}

/// Processing never delays sampling: whatever a task schedules is a
/// deferred task, and every deferred task has a priority below that of
/// the acquisition and of the scan timer. The macros are scheduled by
/// nothing but an acquisition that completed a cycle of the matrix.
pub proof fn lemma_scheduled_tasks_yield_to_sampling(task: Task, flag: bool, at: int)
    requires
        0 <= at < scheduled_by(task, flag).len(),
    ensures
        deferred(scheduled_by(task, flag)[at]),
        priority_of(scheduled_by(task, flag)[at]) < priority_of(Task::Acquisition),
        priority_of(scheduled_by(task, flag)[at]) < priority_of(Task::ScanTimer),
        scheduled_by(task, flag)[at] == Task::MacroProcess ==> task == Task::Acquisition && flag,
{
}

/// Priority of a task.
pub fn priority(task: Task) -> (p: u8)
    ensures
        p == priority_of(task),
{
    match task {
        Task::ScanTimer => 15,
        Task::Acquisition => 14,
        Task::UsbDevice => 14,
        Task::FrameTimer => 13,
        Task::Transport => 12,
        Task::MacroProcess => 11,
        Task::UsbProcess => 10,
        Task::LedFrame => 8,
        Task::LedTest => 7,
        Task::Liveness => 1,
    }
}

/// Whether a task uses a resource.
pub fn task_uses(task: Task, resource: Resource) -> (used: bool)
    ensures
        used == uses(task, resource),
{
    match task {
        Task::ScanTimer => resource == Resource::Acquisition || resource == Resource::ScanTimer,
        Task::Acquisition => resource == Resource::Acquisition || resource
            == Resource::HostInterface || resource == Resource::LayerState || resource
            == Resource::ManufacturingData || resource == Resource::Matrix || resource
            == Resource::ScanTimer,
        Task::UsbDevice => resource == Resource::HostInterface || resource == Resource::UsbDevice
            || resource == Resource::UsbHid,
        Task::FrameTimer => false,
        Task::Transport => resource == Resource::LedDriver || resource == Resource::Transport,
        Task::MacroProcess => resource == Resource::HostInterface || resource
            == Resource::LayerState || resource == Resource::Matrix,
        Task::UsbProcess => resource == Resource::UsbDevice || resource == Resource::UsbHid,
        Task::LedFrame => resource == Resource::HostInterface || resource == Resource::LedDriver
            || resource == Resource::LedLockMask || resource == Resource::LedTest || resource
            == Resource::Transport,
        Task::LedTest => resource == Resource::HostInterface || resource == Resource::LedDriver
            || resource == Resource::LedTest,
        Task::Liveness => resource == Resource::LedDriver || resource == Resource::LedLockMask,
    }
}

/// All tasks, in the order of `all_tasks`.
pub fn tasks() -> (list: Vec<Task>)
    ensures
        list@ == all_tasks(),
{
    let list = vec![
        Task::ScanTimer,
        Task::Acquisition,
        Task::UsbDevice,
        Task::FrameTimer,
        Task::Transport,
        Task::MacroProcess,
        Task::UsbProcess,
        Task::LedFrame,
        Task::LedTest,
        Task::Liveness,
    ];
    proof {
        assert(list@ =~= all_tasks());
    }
    list
}

/// Priority ceiling of a resource.
pub fn ceiling(resource: Resource) -> (top: u8)
    ensures
        top == ceiling_of(resource),
{
    let list = tasks();
    let mut top: u8 = 0;
    let mut i: usize = 0;
    while i < list.len()
        invariant
            i <= list@.len(),
            list@ == all_tasks(),
            top == ceiling_among(resource, all_tasks(), i as nat),
        decreases list@.len() - i,
    {
        let task = list[i];
        if task_uses(task, resource) && priority(task) > top {
            top = priority(task);
        }
        i = i + 1;
    }
    top
}

/// The priority at which a task runs while it holds `held`.
pub fn running_priority(task: Task, held: &Vec<Resource>) -> (p: u8)
    ensures
        p == effective_priority(task, held@),
{
    let mut p: u8 = priority(task);
    let mut i: usize = 0;
    while i < held.len()
        invariant
            i <= held@.len(),
            p == effective_priority(task, held@.take(i as int)),
        decreases held@.len() - i,
    {
        proof {
            assert(held@.take(i + 1).drop_last() =~= held@.take(i as int));
        }
        let top = ceiling(held[i]);
        if top > p {
            p = top;
        }
        i = i + 1;
    }
    proof {
        assert(held@.take(held@.len() as int) =~= held@);
    }
    p
}

/// Whether `incoming` preempts `running` while that holds `held`.
pub fn may_preempt(incoming: Task, running: Task, held: &Vec<Resource>) -> (yes: bool)
    ensures
        yes == preempts(incoming, running, held@),
{
    priority(incoming) > running_priority(running, held)
}

/// No task that is among `tasks` and uses a resource has a priority above
/// what `ceiling_among` finds.
pub proof fn lemma_ceiling_among_bounds(resource: Resource, tasks: Seq<Task>, upto: nat, at: int)
    requires
        0 <= at < upto <= tasks.len(),
        uses(tasks[at], resource),
    ensures
        priority_of(tasks[at]) <= ceiling_among(resource, tasks, upto),
    decreases upto,
{
    if at < upto - 1 {
        lemma_ceiling_among_bounds(resource, tasks, (upto - 1) as nat, at);
    }
}

/// The ceiling of a resource is at least the priority of every task that
/// uses the resource.
pub proof fn lemma_ceiling_bounds_users(task: Task, resource: Resource)
    requires
        uses(task, resource),
    ensures
        priority_of(task) <= ceiling_of(resource),
{
    let at = choose|at: int| 0 <= at < all_tasks().len() && all_tasks()[at] == task;
    assert(all_tasks()[0] == Task::ScanTimer);
    assert(all_tasks()[1] == Task::Acquisition);
    assert(all_tasks()[2] == Task::UsbDevice);
    assert(all_tasks()[3] == Task::FrameTimer);
    assert(all_tasks()[4] == Task::Transport);
    assert(all_tasks()[5] == Task::MacroProcess);
    assert(all_tasks()[6] == Task::UsbProcess);
    assert(all_tasks()[7] == Task::LedFrame);
    assert(all_tasks()[8] == Task::LedTest);
    assert(all_tasks()[9] == Task::Liveness);
    lemma_ceiling_among_bounds(resource, all_tasks(), all_tasks().len(), at);
}

/// A task runs at least at its own priority and at least at the ceiling
/// of everything that it holds.
pub proof fn lemma_effective_priority_bounds(task: Task, held: Seq<Resource>, at: int)
    requires
        0 <= at < held.len(),
    ensures
        effective_priority(task, held) >= priority_of(task),
        effective_priority(task, held) >= ceiling_of(held[at]),
    decreases held.len(),
{
    lemma_effective_priority_floor(task, held);
    if at < held.len() - 1 {
        lemma_effective_priority_bounds(task, held.drop_last(), at);
    }
}

/// A task never runs below its own priority.
pub proof fn lemma_effective_priority_floor(task: Task, held: Seq<Resource>)
    ensures
        effective_priority(task, held) >= priority_of(task),
    decreases held.len(),
{
    if held.len() > 0 {
        lemma_effective_priority_floor(task, held.drop_last());
    }
}

/// Exclusion: while a task holds a resource, no task that uses the same
/// resource preempts it.
pub proof fn lemma_holder_is_not_preempted_by_user(
    incoming: Task,
    running: Task,
    held: Seq<Resource>,
    at: int,
)
    requires
        0 <= at < held.len(),
        uses(incoming, held[at]),
    ensures
        !preempts(incoming, running, held),
{
    lemma_ceiling_bounds_users(incoming, held[at]);
    lemma_effective_priority_bounds(running, held, at);
}

/// No waiting on lower priority outside critical sections: a task that
/// holds nothing is preempted by every task of higher priority, and a
/// task is never preempted by one of lower or equal priority.
pub proof fn lemma_priority_decides_outside_critical_sections(incoming: Task, running: Task)
    ensures
        preempts(incoming, running, Seq::empty()) <==> priority_of(incoming) > priority_of(running),
{
}

/// A task is never preempted by one whose priority is not above its own,
/// whatever it holds.
pub proof fn lemma_lower_priority_never_preempts(
    incoming: Task,
    running: Task,
    held: Seq<Resource>,
)
    requires
        priority_of(incoming) <= priority_of(running),
    ensures
        !preempts(incoming, running, held),
{
    lemma_effective_priority_floor(running, held);
}

/// Sampling is never held up: the scan timer preempts every other task,
/// whatever that holds, unless it holds what the scan timer itself uses.
pub proof fn lemma_scan_timer_comes_first(running: Task, held: Seq<Resource>)
    requires
        running != Task::ScanTimer,
        forall|i: int| 0 <= i < held.len() ==> !uses(Task::ScanTimer, #[trigger] held[i]),
    ensures
        preempts(Task::ScanTimer, running, held),
    decreases held.len(),
{
    if held.len() > 0 {
        lemma_scan_timer_comes_first(running, held.drop_last());
        let last = held.last();
        assert(!uses(Task::ScanTimer, held[held.len() - 1]));
        lemma_ceiling_without_scan_timer(last);
    }
}

/// The ceiling of a resource that the scan timer does not use is below
/// the priority of the scan timer.
pub proof fn lemma_ceiling_without_scan_timer(resource: Resource)
    requires
        !uses(Task::ScanTimer, resource),
    ensures
        ceiling_of(resource) < priority_of(Task::ScanTimer),
{
    reveal_with_fuel(ceiling_among, 11);
    assert(all_tasks().len() == 10);
}

} // verus!
