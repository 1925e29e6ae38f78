//! The local interrupt controller: bring-up protocol and the operations
//! interrupt handlers use afterwards.
//!
//! The controller is driven through a memory-mapped register view and, for
//! the legacy controller it supersedes, through I/O ports. This module never
//! performs an access itself: every operation returns the accesses to make,
//! in order, and takes as arguments whatever had to be read from hardware.

use vstd::prelude::*;

verus! {

/// One byte to write to an I/O port.
#[derive(Debug, Clone, Copy, PartialEq, Eq, Structural)]
pub struct PortWrite {
    pub port: u16,
    pub value: u8,
}

/// One 32-bit store at `offset` bytes into a controller's register view.
#[derive(Debug, Clone, Copy, PartialEq, Eq, Structural)]
pub struct RegisterWrite {
    pub offset: u32,
    pub value: u32,
}

/// Command and data ports of the two legacy controllers, and the port whose
/// only effect is a short delay.
pub const LEGACY_MASTER_COMMAND: u16 = 0x20;

pub const LEGACY_MASTER_DATA: u16 = 0x21;

pub const LEGACY_SLAVE_COMMAND: u16 = 0xa0;

pub const LEGACY_SLAVE_DATA: u16 = 0xa1;

pub const IO_DELAY: u16 = 0x80;

/// Register offsets within the local controller's view.
pub const REG_ID: u32 = 0x020;

pub const REG_VERSION: u32 = 0x030;

pub const REG_TASK_PRIORITY: u32 = 0x080;

pub const REG_END_OF_INTERRUPT: u32 = 0x0b0;

pub const REG_SPURIOUS: u32 = 0x0f0;

pub const REG_ERROR_STATUS: u32 = 0x280;

pub const REG_COMMAND_LOW: u32 = 0x300;

pub const REG_COMMAND_HIGH: u32 = 0x310;

pub const REG_TIMER: u32 = 0x320;

pub const REG_PERFORMANCE: u32 = 0x340;

pub const REG_LINT0: u32 = 0x350;

pub const REG_LINT1: u32 = 0x360;

pub const REG_ERROR: u32 = 0x370;

pub const REG_TIMER_INITIAL: u32 = 0x380;

pub const REG_TIMER_DIVIDE: u32 = 0x3e0;

/// Vector reported for spurious interrupts.
pub const SPURIOUS_VECTOR: u32 = 0xff;

/// Vector raised by the periodic timer.
pub const TIMER_VECTOR: u32 = 32;

/// Vector raised when the controller detects an internal error.
pub const ERROR_VECTOR: u32 = 51;

/// Spurious-vector register: the vector with the controller-enable bit
/// (bit 8) set.
pub const SPURIOUS_ENABLED: u32 = 0x1ff;

/// Spurious-vector register: the vector with the controller-enable bit clear.
pub const SPURIOUS_DISABLED: u32 = 0x0ff;

/// Timer divide configuration.
pub const TIMER_DIVIDE: u32 = 0xb;

/// Timer entry: periodic mode (bit 17), unmasked, on the timer vector.
pub const TIMER_PERIODIC: u32 = 0x2_0020;

/// Count the timer reloads on every expiry.
pub const TIMER_INITIAL_COUNT: u32 = 10_000_000;

/// Mask bit of a local vector table entry.
pub const LVT_MASKED: u32 = 0x1_0000;

/// Init-level-deassert, broadcast to every controller including this one.
pub const INIT_LEVEL_DEASSERT: u32 = 0x8_8500;

/// "Send pending" bit of the low command register.
pub const SEND_PENDING: u32 = 0x1000;

/// The performance-counter entry exists from this many table entries on.
pub const PERFORMANCE_MIN_ENTRIES: u32 = 4;

/// Reads of the command register after which bring-up is given up.
pub const MAX_DELIVERY_POLLS: u32 = 100_000;

/// Where bring-up of the controller stands.
#[derive(Debug, Clone, Copy, PartialEq, Eq, Structural)]
pub enum Phase {
    /// Nothing has been programmed.
    Uninitialized,
    /// The bring-up writes were handed out; `polls` reads of the command
    /// register have found the broadcast still pending.
    Synchronizing { polls: u32 },
    /// Bring-up is complete.
    Ready { enabled: bool },
    /// The broadcast never left the controller. Boot must stop.
    Failed,
}

/// What to do after one read of the command register.
#[derive(Debug, Clone, Copy, PartialEq, Eq, Structural)]
pub enum Synchronization {
    /// The controller is not waiting for anything.
    Idle,
    /// Still pending: read the register again.
    Retry,
    /// Delivered: perform this last write; the controller is then ready.
    Complete(RegisterWrite),
    /// Still pending after the last permitted read.
    TimedOut,
}

/// Everything `LApic::init` asks the caller to perform, ports first.
#[derive(Debug)]
pub struct InitProgram {
    pub ports: Vec<PortWrite>,
    pub registers: Vec<RegisterWrite>,
}

/// The writes that retire the legacy controller pair: start initialisation
/// on both halves, move their vectors to the top of the table (0xf8 and up),
/// wire the cascade, select 8086 mode, then mask all sixteen lines.
pub open spec fn legacy_disable_sequence() -> Seq<PortWrite> {
    seq![
        PortWrite { port: LEGACY_MASTER_COMMAND, value: 0x11 },
        PortWrite { port: LEGACY_SLAVE_COMMAND, value: 0x11 },
        PortWrite { port: IO_DELAY, value: 0 },
        PortWrite { port: LEGACY_MASTER_DATA, value: 0xf8 },
        PortWrite { port: LEGACY_SLAVE_DATA, value: 0xff },
        PortWrite { port: IO_DELAY, value: 0 },
        PortWrite { port: LEGACY_MASTER_DATA, value: 0x04 },
        PortWrite { port: IO_DELAY, value: 0 },
        PortWrite { port: LEGACY_SLAVE_DATA, value: 0x02 },
        PortWrite { port: IO_DELAY, value: 0 },
        PortWrite { port: LEGACY_MASTER_DATA, value: 0x01 },
        PortWrite { port: LEGACY_SLAVE_DATA, value: 0x01 },
        PortWrite { port: IO_DELAY, value: 0 },
        PortWrite { port: LEGACY_MASTER_DATA, value: 0xff },
        PortWrite { port: LEGACY_SLAVE_DATA, value: 0xff },
    ]
}

/// Number of local vector table entries minus one, as the version register
/// reports it.
pub open spec fn max_table_entry(version: u32) -> u32 {
    (version >> 16) & 0xff
}

/// Whether the controller has a performance-counter line.
pub open spec fn has_performance_line(version: u32) -> bool {
    max_table_entry(version) >= PERFORMANCE_MIN_ENTRIES
}

/// Destination identifier held in the top byte of the ID register.
pub open spec fn destination_id(id_register: u32) -> u8 {
    (id_register >> 24) as u8
}

/// Enable the controller and set the spurious vector.
pub open spec fn step_enable() -> Seq<RegisterWrite> {
    seq![RegisterWrite { offset: REG_SPURIOUS, value: SPURIOUS_ENABLED }]
}

/// Set the timer's divide ratio.
pub open spec fn step_timer_divide() -> Seq<RegisterWrite> {
    seq![RegisterWrite { offset: REG_TIMER_DIVIDE, value: TIMER_DIVIDE }]
}

/// Arm the timer: periodic on its vector, then the initial count.
pub open spec fn step_arm_timer() -> Seq<RegisterWrite> {
    seq![
        RegisterWrite { offset: REG_TIMER, value: TIMER_PERIODIC },
        RegisterWrite { offset: REG_TIMER_INITIAL, value: TIMER_INITIAL_COUNT },
    ]
}

/// Mask both local interrupt lines.
pub open spec fn step_mask_local_lines() -> Seq<RegisterWrite> {
    seq![
        RegisterWrite { offset: REG_LINT0, value: LVT_MASKED },
        RegisterWrite { offset: REG_LINT1, value: LVT_MASKED },
    ]
}

/// Mask the performance-counter line where the hardware has one.
pub open spec fn step_mask_performance(version: u32) -> Seq<RegisterWrite> {
    if has_performance_line(version) {
        seq![RegisterWrite { offset: REG_PERFORMANCE, value: LVT_MASKED }]
    } else {
        Seq::empty()
    }
}

/// Route internal errors, then clear the latched status; the status register
/// only clears on the second of two back-to-back writes.
pub open spec fn step_error() -> Seq<RegisterWrite> {
    seq![
        RegisterWrite { offset: REG_ERROR, value: ERROR_VECTOR },
        RegisterWrite { offset: REG_ERROR_STATUS, value: 0 },
        RegisterWrite { offset: REG_ERROR_STATUS, value: 0 },
    ]
}

/// Acknowledge anything outstanding and clear the command register's
/// destination.
pub open spec fn step_acknowledge() -> Seq<RegisterWrite> {
    seq![
        RegisterWrite { offset: REG_END_OF_INTERRUPT, value: 0 },
        RegisterWrite { offset: REG_COMMAND_HIGH, value: 0 },
    ]
}

/// Broadcast an init-level-deassert.
pub open spec fn step_broadcast() -> Seq<RegisterWrite> {
    seq![RegisterWrite { offset: REG_COMMAND_LOW, value: INIT_LEVEL_DEASSERT }]
}

/// Accept every vector.
pub open spec fn task_priority_write() -> RegisterWrite {
    RegisterWrite { offset: REG_TASK_PRIORITY, value: 0 }
}

/// The register writes of bring-up up to and including the broadcast, in the
/// order they must reach the hardware.
pub open spec fn init_sequence(version: u32) -> Seq<RegisterWrite> {
    step_enable() + step_timer_divide() + step_arm_timer() + step_mask_local_lines()
        + step_mask_performance(version) + step_error() + step_acknowledge() + step_broadcast()
}

/// The single write that signals end-of-interrupt.
pub open spec fn end_of_interrupt_write() -> RegisterWrite {
    RegisterWrite { offset: REG_END_OF_INTERRUPT, value: 0 }
}

/// Phase and answer after the command register was read as `status`.
pub open spec fn after_status(phase: Phase, status: u32) -> (Phase, Synchronization) {
    match phase {
        Phase::Synchronizing { polls } => {
            if status & SEND_PENDING == 0 {
                (Phase::Ready { enabled: true }, Synchronization::Complete(task_priority_write()))
            } else if polls + 1 >= MAX_DELIVERY_POLLS {
                (Phase::Failed, Synchronization::TimedOut)
            } else {
                (Phase::Synchronizing { polls: (polls + 1) as u32 }, Synchronization::Retry)
            }
        },
        _ => (phase, Synchronization::Idle),
    }
}

/// Phase after the command register was read as each of `statuses` in turn.
pub open spec fn after_statuses(phase: Phase, statuses: Seq<u32>) -> Phase
    decreases statuses.len(),
{
    if statuses.len() == 0 {
        phase
    } else {
        after_statuses(after_status(phase, statuses[0]).0, statuses.subrange(1, statuses.len() as int))
    }
}

/// The local interrupt controller of this core.
#[derive(Debug)]
pub struct LApic {
    base: u64,
    id: u8,
    phase: Phase,
}

impl LApic {
    /// Address of the register view.
    pub closed spec fn view_base(&self) -> u64 {
        self.base
    }

    /// Destination identifier recorded at bring-up.
    pub closed spec fn destination(&self) -> u8 {
        self.id
    }

    pub closed spec fn current(&self) -> Phase {
        self.phase
    }

    /// Whether bring-up has completed.
    pub open spec fn ready(&self) -> bool {
        self.current() is Ready
    }

    /// A controller nothing has been done to yet.
    pub fn new() -> (lapic: Self)
        ensures
            lapic.current() == Phase::Uninitialized,
            lapic.view_base() == 0,
            lapic.destination() == 0,
    {
        LApic { base: 0, id: 0, phase: Phase::Uninitialized }
    }

    pub fn phase(&self) -> (p: Phase)
        ensures
            p == self.current(),
    {
        self.phase
    }

    pub fn is_ready(&self) -> (r: bool)
        ensures
            r == self.ready(),
    {
        match self.phase {
            Phase::Ready { .. } => true,
            _ => false,
        }
    }

    pub fn base(&self) -> (b: u64)
        ensures
            b == self.view_base(),
    {
        self.base
    }

    /// Starts bring-up.
    ///
    /// `base` is the address the register view is mapped at; `id_register`
    /// and `version_register` are the contents of the controller's ID and
    /// version registers. The caller performs `ports`, then `registers`, each
    /// in order, and then feeds reads of the low command register to
    /// [`LApic::synchronize`] until it stops answering `Retry`.
    pub fn init(&mut self, base: u64, id_register: u32, version_register: u32) -> (program:
        InitProgram)
        ensures
            program.ports@ == legacy_disable_sequence(),
            program.registers@ == init_sequence(version_register),
            final(self).current() == (Phase::Synchronizing { polls: 0 }),
            final(self).view_base() == base,
            final(self).destination() == destination_id(id_register),
    {
        let ports = disable_legacy();
        let mut registers: Vec<RegisterWrite> = Vec::new();
        registers.push(RegisterWrite { offset: REG_SPURIOUS, value: SPURIOUS_ENABLED });
        registers.push(RegisterWrite { offset: REG_TIMER_DIVIDE, value: TIMER_DIVIDE });
        registers.push(RegisterWrite { offset: REG_TIMER, value: TIMER_PERIODIC });
        registers.push(RegisterWrite { offset: REG_TIMER_INITIAL, value: TIMER_INITIAL_COUNT });
        registers.push(RegisterWrite { offset: REG_LINT0, value: LVT_MASKED });
        registers.push(RegisterWrite { offset: REG_LINT1, value: LVT_MASKED });
        if (version_register >> 16) & 0xff >= PERFORMANCE_MIN_ENTRIES {
            registers.push(RegisterWrite { offset: REG_PERFORMANCE, value: LVT_MASKED });
        }
        registers.push(RegisterWrite { offset: REG_ERROR, value: ERROR_VECTOR });
        registers.push(RegisterWrite { offset: REG_ERROR_STATUS, value: 0 });
        registers.push(RegisterWrite { offset: REG_ERROR_STATUS, value: 0 });
        registers.push(RegisterWrite { offset: REG_END_OF_INTERRUPT, value: 0 });
        registers.push(RegisterWrite { offset: REG_COMMAND_HIGH, value: 0 });
        registers.push(RegisterWrite { offset: REG_COMMAND_LOW, value: INIT_LEVEL_DEASSERT });
        assert(registers@ =~= init_sequence(version_register));
        self.base = base;
        assert(id_register >> 24 <= 0xff) by (bit_vector);
        self.id = (id_register >> 24) as u8;
        self.phase = Phase::Synchronizing { polls: 0 };
        InitProgram { ports, registers }
    }

    /// Takes one read of the low command register during bring-up and says
    /// how to go on. Outside bring-up the answer is `Idle` and nothing
    /// changes.
    pub fn synchronize(&mut self, status: u32) -> (answer: Synchronization)
        ensures
            (final(self).current(), answer) == after_status(old(self).current(), status),
            final(self).view_base() == old(self).view_base(),
            final(self).destination() == old(self).destination(),
    {
        match self.phase {
            Phase::Synchronizing { polls } => {
                if status & SEND_PENDING == 0 {
                    self.phase = Phase::Ready { enabled: true };
                    Synchronization::Complete(
                        RegisterWrite { offset: REG_TASK_PRIORITY, value: 0 },
                    )
                } else if polls >= MAX_DELIVERY_POLLS - 1 {
                    self.phase = Phase::Failed;
                    Synchronization::TimedOut
                } else {
                    self.phase = Phase::Synchronizing { polls: polls + 1 };
                    Synchronization::Retry
                }
            },
            _ => Synchronization::Idle,
        }
    }

    /// Lets this core accept interrupts: the write that sets the controller's
    /// enable bit.
    pub fn enable(&mut self) -> (write: RegisterWrite)
        requires
            old(self).ready(),
        ensures
            write == (RegisterWrite { offset: REG_SPURIOUS, value: SPURIOUS_ENABLED }),
            final(self).current() == (Phase::Ready { enabled: true }),
            final(self).view_base() == old(self).view_base(),
            final(self).destination() == old(self).destination(),
    {
        self.phase = Phase::Ready { enabled: true };
        RegisterWrite { offset: REG_SPURIOUS, value: SPURIOUS_ENABLED }
    }

    /// Stops this core from accepting interrupts: the write that clears the
    /// controller's enable bit.
    pub fn disable(&mut self) -> (write: RegisterWrite)
        requires
            old(self).ready(),
        ensures
            write == (RegisterWrite { offset: REG_SPURIOUS, value: SPURIOUS_DISABLED }),
            final(self).current() == (Phase::Ready { enabled: false }),
            final(self).view_base() == old(self).view_base(),
            final(self).destination() == old(self).destination(),
    {
        self.phase = Phase::Ready { enabled: false };
        RegisterWrite { offset: REG_SPURIOUS, value: SPURIOUS_DISABLED }
    }

    /// The write a handler performs, once and last, to signal
    /// end-of-interrupt.
    pub fn end_inferrupts(&self) -> (write: RegisterWrite)
        requires
            self.ready(),
        ensures
            write == end_of_interrupt_write(),
    {
        RegisterWrite { offset: REG_END_OF_INTERRUPT, value: 0 }
    }

    /// This controller's destination identifier.
    pub fn id(&self) -> (id: u32)
        requires
            self.ready(),
        ensures
            id == self.destination(),
    {
        self.id as u32
    }
}

/// The register values written at bring-up, taken apart into their fields.
pub proof fn lemma_register_values()
    ensures
        SPURIOUS_ENABLED == (1u32 << 8) | SPURIOUS_VECTOR,
        SPURIOUS_DISABLED == SPURIOUS_VECTOR,
        SPURIOUS_DISABLED & (1u32 << 8) == 0,
        TIMER_PERIODIC == (1u32 << 17) | TIMER_VECTOR,
        TIMER_PERIODIC & LVT_MASKED == 0,
        LVT_MASKED == 1u32 << 16,
        INIT_LEVEL_DEASSERT == (1u32 << 19) | (1u32 << 15) | (5u32 << 8),
        INIT_LEVEL_DEASSERT & SEND_PENDING == 0,
        SEND_PENDING == 1u32 << 12,
{
    assert(0x1ffu32 == (1u32 << 8) | 0xffu32) by (bit_vector);
    assert(0xffu32 & (1u32 << 8) == 0) by (bit_vector);
    assert(0x2_0020u32 == (1u32 << 17) | 32u32) by (bit_vector);
    assert(0x2_0020u32 & 0x1_0000u32 == 0) by (bit_vector);
    assert(0x1_0000u32 == 1u32 << 16) by (bit_vector);
    assert(0x8_8500u32 == (1u32 << 19) | (1u32 << 15) | (5u32 << 8)) by (bit_vector);
    assert(0x8_8500u32 & 0x1000u32 == 0) by (bit_vector);
    assert(0x1000u32 == 1u32 << 12) by (bit_vector);
}

/// Whether a read of the command register shows the broadcast still
/// pending.
pub open spec fn pending(status: u32) -> bool {
    status & SEND_PENDING != 0
}

/// Outside bring-up, reads of the command register change nothing.
pub proof fn lemma_settled_stays(phase: Phase, statuses: Seq<u32>)
    requires
        !(phase is Synchronizing),
    ensures
        after_statuses(phase, statuses) == phase,
    decreases statuses.len(),
{
    if statuses.len() > 0 {
        lemma_settled_stays(phase, statuses.subrange(1, statuses.len() as int));
    }
}

/// The first read that finds the broadcast delivered completes bring-up,
/// provided it comes within the permitted number of reads; whatever is read
/// afterwards, the controller stays ready.
pub proof fn lemma_delivery_completes(polls: u32, statuses: Seq<u32>, first: int)
    requires
        0 <= first < statuses.len(),
        polls + first < MAX_DELIVERY_POLLS,
        !pending(statuses[first]),
        forall|i: int| 0 <= i < first ==> pending(#[trigger] statuses[i]),
    ensures
        after_statuses(Phase::Synchronizing { polls }, statuses) == (Phase::Ready { enabled: true }),
    decreases first,
{
    let rest = statuses.subrange(1, statuses.len() as int);
    if first == 0 {
        lemma_settled_stays(Phase::Ready { enabled: true }, rest);
    } else {
        assert(pending(statuses[0]));
        assert forall|i: int| 0 <= i < first - 1 implies pending(#[trigger] rest[i]) by {
            assert(rest[i] == statuses[i + 1]);
        }
        assert(rest[first - 1] == statuses[first]);
        lemma_delivery_completes((polls + 1) as u32, rest, first - 1);
    }
}

/// If every permitted read finds the broadcast pending, bring-up fails, and
/// it fails for good.
pub proof fn lemma_silence_times_out(polls: u32, statuses: Seq<u32>)
    requires
        polls < MAX_DELIVERY_POLLS,
        statuses.len() >= MAX_DELIVERY_POLLS - polls,
        forall|i: int| 0 <= i < MAX_DELIVERY_POLLS - polls ==> pending(#[trigger] statuses[i]),
    ensures
        after_statuses(Phase::Synchronizing { polls }, statuses) == Phase::Failed,
    decreases MAX_DELIVERY_POLLS - polls,
{
    let rest = statuses.subrange(1, statuses.len() as int);
    assert(pending(statuses[0]));
    if polls + 1 >= MAX_DELIVERY_POLLS {
        lemma_settled_stays(Phase::Failed, rest);
    } else {
        assert forall|i: int| 0 <= i < MAX_DELIVERY_POLLS - (polls + 1) implies pending(
            #[trigger] rest[i],
        ) by {
            assert(rest[i] == statuses[i + 1]);
        }
        lemma_silence_times_out((polls + 1) as u32, rest);
    }
}

/// Bring-up never waits for ever: after the permitted number of reads the
/// controller is ready or has failed, whatever was read.
pub proof fn lemma_synchronization_ends(statuses: Seq<u32>)
    requires
        statuses.len() >= MAX_DELIVERY_POLLS,
    ensures
        after_statuses(Phase::Synchronizing { polls: 0 }, statuses) == (Phase::Ready {
            enabled: true,
        }) || after_statuses(Phase::Synchronizing { polls: 0 }, statuses) == Phase::Failed,
{
    if forall|i: int| 0 <= i < MAX_DELIVERY_POLLS ==> pending(#[trigger] statuses[i]) {
        lemma_silence_times_out(0, statuses);
    } else {
        let first = choose_first_delivered(statuses, MAX_DELIVERY_POLLS as int);
        lemma_delivery_completes(0, statuses, first);
    }
}

/// The first of the leading `limit` reads that finds the broadcast
/// delivered.
proof fn choose_first_delivered(statuses: Seq<u32>, limit: int) -> (first: int)
    requires
        0 <= limit <= statuses.len(),
        exists|i: int| 0 <= i < limit && !pending(#[trigger] statuses[i]),
    ensures
        0 <= first < limit,
        !pending(statuses[first]),
        forall|i: int| 0 <= i < first ==> pending(#[trigger] statuses[i]),
    decreases limit,
{
    if exists|i: int| 0 <= i < limit - 1 && !pending(#[trigger] statuses[i]) {
        choose_first_delivered(statuses, limit - 1)
    } else {
        assert(!pending(statuses[limit - 1]));
        limit - 1
    }
}

/// The shape of the bring-up writes: the controller is enabled first and the
/// broadcast goes out last; the performance-counter line adds one write
/// where the hardware has it.
pub proof fn lemma_init_sequence_shape(version: u32)
    ensures
        init_sequence(version).len() == if has_performance_line(version) {
            13int
        } else {
            12int
        },
        init_sequence(version).first() == (RegisterWrite {
            offset: REG_SPURIOUS,
            value: SPURIOUS_ENABLED,
        }),
        init_sequence(version).last() == (RegisterWrite {
            offset: REG_COMMAND_LOW,
            value: INIT_LEVEL_DEASSERT,
        }),
{
}

/// Builds the writes that retire the legacy controller pair.
pub fn disable_legacy() -> (ports: Vec<PortWrite>)
    ensures
        ports@ == legacy_disable_sequence(),
{
    let mut ports: Vec<PortWrite> = Vec::new();
    ports.push(PortWrite { port: LEGACY_MASTER_COMMAND, value: 0x11 });
    ports.push(PortWrite { port: LEGACY_SLAVE_COMMAND, value: 0x11 });
    ports.push(PortWrite { port: IO_DELAY, value: 0 });
    ports.push(PortWrite { port: LEGACY_MASTER_DATA, value: 0xf8 });
    ports.push(PortWrite { port: LEGACY_SLAVE_DATA, value: 0xff });
    ports.push(PortWrite { port: IO_DELAY, value: 0 });
    ports.push(PortWrite { port: LEGACY_MASTER_DATA, value: 0x04 });
    ports.push(PortWrite { port: IO_DELAY, value: 0 });
    ports.push(PortWrite { port: LEGACY_SLAVE_DATA, value: 0x02 });
    ports.push(PortWrite { port: IO_DELAY, value: 0 });
    ports.push(PortWrite { port: LEGACY_MASTER_DATA, value: 0x01 });
    ports.push(PortWrite { port: LEGACY_SLAVE_DATA, value: 0x01 });
    ports.push(PortWrite { port: IO_DELAY, value: 0 });
    ports.push(PortWrite { port: LEGACY_MASTER_DATA, value: 0xff });
    ports.push(PortWrite { port: LEGACY_SLAVE_DATA, value: 0xff });
    assert(ports@ =~= legacy_disable_sequence());
    ports
}

} // verus!
