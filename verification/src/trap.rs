//! Trap decoding and the system-call interface of the kernel.
use vstd::prelude::*;
use crate::task::{
    SimpleScheduler, IpcOutcome, ReplyRecvOutcome, Task, TaskContext, TaskStatus, MAX_TASKS,
    send_spec, recv_spec, notify_spec, sys_ipc_send, sys_ipc_recv, sys_ipc_notify,
    sys_ipc_reply_recv, schedule_spec, ScheduleDecision,
};

verus! {

/// The registers saved on trap entry: x0 to x31, `sstatus` and `sepc`.
#[derive(Debug, Copy, Clone)]
pub struct TrapFrame {
    pub regs: [usize; 32],
    pub sstatus: usize,
    pub sepc: usize,
}

/// Timer ticks between two timer interrupts.
pub const TIMER_INTERVAL: u64 = 1_000_000;

/// The cause of a trap, from the `scause` register.
#[derive(Debug, Copy, Clone, PartialEq, Eq, Structural)]
pub enum TrapCause {
    /// Supervisor timer interrupt (interrupt code 5).
    TimerInterrupt,
    /// Supervisor external interrupt (interrupt code 9).
    ExternalInterrupt,
    /// Any other interrupt code.
    OtherInterrupt(usize),
    /// `ebreak` (exception code 3).
    Breakpoint,
    /// `ecall` from user mode (exception code 8).
    UserEcall,
    /// `ecall` from supervisor mode (exception code 9).
    SupervisorEcall,
    /// Illegal instruction (exception code 2).
    IllegalInstruction,
    /// Instruction, load or store page fault (exception codes 12, 13, 15).
    PageFault(usize),
    /// Any other exception code.
    Fatal(usize),
}

/// The interrupt flag of `scause` (bit 63).
pub open spec fn is_interrupt(scause: u64) -> bool {
    scause >> 63u64 != 0
}

/// The cause code of `scause`: every bit but the interrupt flag.
pub open spec fn cause_code(scause: u64) -> u64 {
    scause & !(1u64 << 63u64)
}

/// The trap cause that an interrupt flag and code stand for.
pub open spec fn cause_of(interrupt: bool, code: u64) -> TrapCause {
    if interrupt {
        if code == 5 {
            TrapCause::TimerInterrupt
        } else if code == 9 {
            TrapCause::ExternalInterrupt
        } else {
            TrapCause::OtherInterrupt(code as usize)
        }
    } else if code == 3 {
        TrapCause::Breakpoint
    } else if code == 8 {
        TrapCause::UserEcall
    } else if code == 9 {
        TrapCause::SupervisorEcall
    } else if code == 2 {
        TrapCause::IllegalInstruction
    } else if code == 12 || code == 13 || code == 15 {
        TrapCause::PageFault(code as usize)
    } else {
        TrapCause::Fatal(code as usize)
    }
}

/// Decodes the 64-bit `scause` register.
pub fn classify_trap(scause: u64) -> (r: TrapCause)
    ensures
        r == cause_of(is_interrupt(scause), cause_code(scause)),
{
    let interrupt = (scause >> 63) != 0;
    let code = scause & !(1u64 << 63);
    if interrupt {
        if code == 5 {
            TrapCause::TimerInterrupt
        } else if code == 9 {
            TrapCause::ExternalInterrupt
        } else {
            TrapCause::OtherInterrupt(code as usize)
        }
    } else if code == 3 {
        TrapCause::Breakpoint
    } else if code == 8 {
        TrapCause::UserEcall
    } else if code == 9 {
        TrapCause::SupervisorEcall
    } else if code == 2 {
        TrapCause::IllegalInstruction
    } else if code == 12 || code == 13 || code == 15 {
        TrapCause::PageFault(code as usize)
    } else {
        TrapCause::Fatal(code as usize)
    }
}

/// The length in bytes of the instruction whose first half-word is `inst`:
/// 4 when its two low bits are both set, 2 (compressed) otherwise.
pub fn instruction_length(inst: u16) -> (r: usize)
    ensures
        r == (if inst & 3 == 3 {
            4usize
        } else {
            2usize
        }),
{
    if (inst & 0x3) == 0x3 {
        4
    } else {
        2
    }
}

/// Steps `sepc` over the `ebreak` whose first half-word is `inst`.
pub fn skip_breakpoint(tf: &mut TrapFrame, inst: u16)
    requires
        old(tf).sepc + (if inst & 3 == 3 {
            4int
        } else {
            2int
        }) <= usize::MAX,
    ensures
        final(tf).sepc == old(tf).sepc + (if inst & 3 == 3 {
            4usize
        } else {
            2usize
        }),
        final(tf).regs == old(tf).regs,
        final(tf).sstatus == old(tf).sstatus,
{
    tf.sepc = tf.sepc + instruction_length(inst);
}

/// Whether a write to descriptor `fd` reaches the console at log level
/// `level`: standard output always, standard error from level 1, info from
/// level 2, debug from level 3, other descriptors never.
pub open spec fn write_visible_spec(fd: usize, level: u8) -> bool {
    ||| fd == 1
    ||| fd == 2 && level >= 1
    ||| fd == 3 && level >= 2
    ||| fd == 4 && level >= 3
}

/// Executable form of `write_visible_spec`.
pub fn write_visible(fd: usize, level: u8) -> (r: bool)
    ensures
        r == write_visible_spec(fd, level),
{
    match fd {
        1 => true,
        2 => level >= 1,
        3 => level >= 2,
        4 => level >= 3,
        _ => false,
    }
}

/// What the caller must do to complete a system call from user mode.
#[derive(Debug, Copy, Clone)]
pub enum SyscallAction {
    /// Print the byte in `c` on the console.
    Putchar { c: usize },
    /// Run the scheduler.
    Yield,
    /// End the current task (`SimpleScheduler::exit_current_task`).
    Exit,
    /// Print the `len` bytes at `ptr` if they are UTF-8 and `visible` holds.
    Write { fd: usize, ptr: usize, len: usize, visible: bool },
    /// Carry out the IPC action.
    Ipc { outcome: IpcOutcome },
    /// Carry out the reply's action; when it was `Block`, once the task runs
    /// again, complete the call with `resume_reply_recv(src, recv_ptr)`.
    /// Otherwise carry out the receive's action too.
    ReplyRecv { reply: ReplyRecvOutcome, src: usize, recv_ptr: usize },
    /// An unknown system call number.
    Unknown { id: usize },
}

/// The result code of a reply-and-receive as far as it is known at once.
pub open spec fn reply_recv_code(o: ReplyRecvOutcome) -> isize {
    if o.send.result != 0 {
        o.send.result
    } else {
        match o.recv {
            Some(r) => r.result,
            None => 0,
        }
    }
}

/// What `handle_user_ecall` does with the `ecall` of the current task
/// `cur` whose frame is `tf`, with the tasks `tasks0`: the frame `tf2`, the
/// tasks `tasks2` and the action `r` it leaves (see `handle_user_ecall`).
pub open spec fn user_ecall_done(
    tasks0: Seq<Task>,
    cur: usize,
    tf: TrapFrame,
    log_level: u8,
    tasks2: Seq<Task>,
    tf2: TrapFrame,
    r: SyscallAction,
) -> bool {
    &&& tf2.sepc == tf.sepc + 4
    &&& tf2.sstatus == tf.sstatus
    &&& ({
            let a = tf.regs;
            let id = a[17];
            let tasks = tasks0;
            if id == 1 {
                r == SyscallAction::Putchar { c: a[10] } && tf2.regs@ == a@.update(10, 0)
                    && tasks2 == tasks
            } else if id == 10 {
                r == SyscallAction::Yield && tf2.regs == a && tasks2 == tasks
            } else if id == 2 {
                r == SyscallAction::Exit && tf2.regs == a && tasks2 == tasks
            } else if id == 3 {
                r == SyscallAction::Write {
                    fd: a[10],
                    ptr: a[11],
                    len: a[12],
                    visible: write_visible_spec(a[10], log_level),
                } && tf2.regs@ == a@.update(10, 0) && tasks2 == tasks
            } else if id == 4 {
                let (t, o) = send_spec(tasks, cur, a[10], a[11]);
                r == SyscallAction::Ipc { outcome: o } && tasks2 == t
                    && tf2.regs@ == a@.update(10, o.result as usize)
            } else if id == 5 {
                let (t, o) = recv_spec(tasks, cur, a[10], a[11]);
                r == SyscallAction::Ipc { outcome: o } && tasks2 == t
                    && tf2.regs@ == a@.update(10, o.result as usize)
            } else if id == 6 {
                exists|o: ReplyRecvOutcome|
                    r == SyscallAction::ReplyRecv { reply: o, src: a[12], recv_ptr: a[13] }
                        && tf2.regs@ == a@.update(10, reply_recv_code(o) as usize) && {
                        let (t1, so) = send_spec(tasks, cur, a[10], a[11]);
                        &&& o.send == so
                        &&& if so.result != 0 || so.action is Block {
                            tasks2 == t1 && o.recv is None
                        } else {
                            let (t2, ro) = recv_spec(t1, cur, a[12], a[13]);
                            tasks2 == t2 && o.recv == Some(ro)
                        }
                    }
            } else if id == 7 {
                let (t, o) = notify_spec(tasks, a[10], a[11] as u32);
                r == SyscallAction::Ipc { outcome: o } && tasks2 == t
                    && tf2.regs@ == a@.update(10, o.result as usize)
            } else {
                r == SyscallAction::Unknown { id } && tf2.regs == a && tasks2
                    == tasks
            }
        })
}

/// A send system call (a7 = 4) takes the destination task from a0 and the
/// message address from a1: when a0 names another task that waits to
/// receive from the caller or from anyone, the call returns 0 in a0,
/// delivers the message at a1 into that task's buffer stamped with the
/// caller's id, and makes that task ready.
pub proof fn law_send_call_delivers(
    tasks: Seq<Task>,
    cur: usize,
    tf: TrapFrame,
    log_level: u8,
    tasks2: Seq<Task>,
    tf2: TrapFrame,
    r: SyscallAction,
)
    requires
        tasks.len() == MAX_TASKS,
        cur < MAX_TASKS,
        user_ecall_done(tasks, cur, tf, log_level, tasks2, tf2, r),
        tf.regs[17] == 4,
        tf.regs[10] < MAX_TASKS,
        tf.regs[10] != cur,
        tasks[tf.regs[10] as int].status == TaskStatus::BlockedRecv,
        tasks[tf.regs[10] as int].ipc_partner == cur || tasks[tf.regs[10] as int].ipc_partner
            == crate::task::IPC_WILDCARD,
    ensures
        tf2.regs[10] == 0,
        tf2.sepc == tf.sepc + 4,
        r matches SyscallAction::Ipc { outcome } && outcome.result == 0 && outcome.action == (
        crate::task::IpcAction::Deliver {
            from_ptr: tf.regs[11],
            to_ptr: tasks[tf.regs[10] as int].ipc_buffer_ptr,
            sender: cur as u32,
            wake_tf: tasks[tf.regs[10] as int].tf_addr,
        }),
        tasks2[tf.regs[10] as int].status == TaskStatus::Ready,
        tasks2[cur as int] == tasks[cur as int],
{
}

/// A receive system call (a7 = 5) takes the source from a0 and the buffer
/// address from a1: when task a0 is blocked sending to the caller, the call
/// returns 0 in a0, delivers that task's message into the buffer at a1
/// stamped with a0, and makes the sender ready.
pub proof fn law_recv_call_takes_sender(
    tasks: Seq<Task>,
    cur: usize,
    tf: TrapFrame,
    log_level: u8,
    tasks2: Seq<Task>,
    tf2: TrapFrame,
    r: SyscallAction,
)
    requires
        tasks.len() == MAX_TASKS,
        cur < MAX_TASKS,
        tasks[cur as int].last_sender < MAX_TASKS,
        user_ecall_done(tasks, cur, tf, log_level, tasks2, tf2, r),
        tf.regs[17] == 5,
        tf.regs[10] < MAX_TASKS,
        tasks[tf.regs[10] as int].status == TaskStatus::BlockedSend,
        tasks[tf.regs[10] as int].ipc_partner == cur,
    ensures
        tf2.regs[10] == 0,
        r matches SyscallAction::Ipc { outcome } && outcome.result == 0 && outcome.action == (
        crate::task::IpcAction::Deliver {
            from_ptr: tasks[tf.regs[10] as int].ipc_buffer_ptr,
            to_ptr: tf.regs[11],
            sender: tf.regs[10] as u32,
            wake_tf: tasks[tf.regs[10] as int].tf_addr,
        }),
        tasks2[tf.regs[10] as int].status == TaskStatus::Ready,
{
    let src = tf.regs[10];
    assert(crate::task::waiting_sender(tasks, cur, src, src as int));
    crate::task::lemma_first_waiting_finds(tasks, cur, src, (tasks[cur as int].last_sender + 1) % 16, src as int);
    let j = crate::task::first_waiting(tasks, cur, src, (tasks[cur as int].last_sender + 1) % 16, 0)->0;
    assert(crate::task::waiting_sender(tasks, cur, src, j));
    assert(j == src);
}

/// Handles an `ecall` from user mode whose frame is `tf`: the call number is
/// in a7 (x17) and the arguments in a0 to a3 (x10 to x13).  Every call steps
/// `sepc` over the `ecall`; putchar, write and the IPC calls put their result
/// code into a0 (IPC codes as a machine word).
pub fn handle_user_ecall(sched: &mut SimpleScheduler, tf: &mut TrapFrame, log_level: u8) -> (r:
    SyscallAction)
    requires
        old(sched).wf(),
        old(tf).sepc + 4 <= usize::MAX,
    ensures
        final(sched).wf(),
        final(sched).current_id == old(sched).current_id,
        user_ecall_done(
            old(sched).tasks@,
            old(sched).current_id,
            *old(tf),
            log_level,
            final(sched).tasks@,
            *final(tf),
            r,
        ),
{
    let id = tf.regs[17];
    let action = if id == 1 {
        let c = tf.regs[10];
        tf.regs[10] = 0;
        SyscallAction::Putchar { c }
    } else if id == 10 {
        SyscallAction::Yield
    } else if id == 2 {
        SyscallAction::Exit
    } else if id == 3 {
        let fd = tf.regs[10];
        let ptr = tf.regs[11];
        let len = tf.regs[12];
        tf.regs[10] = 0;
        SyscallAction::Write { fd, ptr, len, visible: write_visible(fd, log_level) }
    } else if id == 4 {
        let o = sys_ipc_send(sched, tf.regs[10], tf.regs[11]);
        tf.regs[10] = o.result as usize;
        SyscallAction::Ipc { outcome: o }
    } else if id == 5 {
        let o = sys_ipc_recv(sched, tf.regs[10], tf.regs[11]);
        tf.regs[10] = o.result as usize;
        SyscallAction::Ipc { outcome: o }
    } else if id == 6 {
        let src = tf.regs[12];
        let recv_ptr = tf.regs[13];
        let o = sys_ipc_reply_recv(sched, tf.regs[10], tf.regs[11], src, recv_ptr);
        let code: isize = if o.send.result != 0 {
            o.send.result
        } else {
            match o.recv {
                Some(rr) => rr.result,
                None => 0,
            }
        };
        tf.regs[10] = code as usize;
        SyscallAction::ReplyRecv { reply: o, src, recv_ptr }
    } else if id == 7 {
        let o = sys_ipc_notify(sched, tf.regs[10], tf.regs[11] as u32);
        tf.regs[10] = o.result as usize;
        SyscallAction::Ipc { outcome: o }
    } else {
        SyscallAction::Unknown { id }
    };
    tf.sepc = tf.sepc + 4;
    action
}

/// Completes a reply-and-receive whose reply blocked, once the task runs
/// again: receives from `src` into `recv_ptr` for the current task (see
/// `recv_spec`) and puts the receive's result code into a0 of its frame
/// `tf`, as the call's result.
pub fn resume_reply_recv(sched: &mut SimpleScheduler, tf: &mut TrapFrame, src: usize, recv_ptr: usize) -> (r:
    IpcOutcome)
    requires
        old(sched).wf(),
    ensures
        final(sched).wf(),
        final(sched).current_id == old(sched).current_id,
        (final(sched).tasks@, r) == recv_spec(old(sched).tasks@, old(sched).current_id, src, recv_ptr),
        final(tf).regs@ == old(tf).regs@.update(10, r.result as usize),
        final(tf).sepc == old(tf).sepc,
        final(tf).sstatus == old(tf).sstatus,
{
    let o = sys_ipc_recv(sched, src, recv_ptr);
    tf.regs[10] = o.result as usize;
    o
}

/// What the caller must do to complete an `ecall` from supervisor mode.
#[derive(Debug, Copy, Clone, PartialEq, Eq, Structural)]
pub enum SupervisorCall {
    /// Run the scheduler (call 1).
    Yield,
    /// End the current task (call 2).
    Exit,
    /// Any other call: only logged.
    Other,
}

/// What `handle_supervisor_ecall` does with the frame `tf`: the frame
/// `tf2` and the call `r` it leaves.
pub open spec fn supervisor_ecall_done(tf: TrapFrame, tf2: TrapFrame, r: SupervisorCall) -> bool {
    &&& tf2.regs == tf.regs
    &&& tf2.sstatus == tf.sstatus
    &&& tf.regs[17] == 1 ==> r == SupervisorCall::Yield && tf2.sepc == tf.sepc + 4
    &&& tf.regs[17] == 2 ==> r == SupervisorCall::Exit && tf2.sepc == tf.sepc
    &&& tf.regs[17] != 1 && tf.regs[17] != 2 ==> r == SupervisorCall::Other && tf2.sepc == tf.sepc
        + 4
}

/// Handles an `ecall` from supervisor mode: yield and other calls step
/// `sepc` over the instruction; exit leaves it, as the task does not resume.
pub fn handle_supervisor_ecall(tf: &mut TrapFrame) -> (r: SupervisorCall)
    requires
        old(tf).regs[17] != 2 ==> old(tf).sepc + 4 <= usize::MAX,
    ensures
        supervisor_ecall_done(*old(tf), *final(tf), r),
{
    let id = tf.regs[17];
    if id == 1 {
        tf.sepc = tf.sepc + 4;
        SupervisorCall::Yield
    } else if id == 2 {
        SupervisorCall::Exit
    } else {
        tf.sepc = tf.sepc + 4;
        SupervisorCall::Other
    }
}

/// The `sstatus` a new user task starts with, from the current `sstatus`:
/// SPP (bit 8) cleared to return to user mode, SPIE (bit 5) set to enable
/// interrupts there, SUM (bit 18) set so the kernel can reach user memory.
pub open spec fn user_sstatus_spec(sstatus: usize) -> usize {
    ((sstatus & !0x100usize) | 0x20usize) | 0x40000usize
}

/// Executable form of `user_sstatus_spec`.
pub fn user_sstatus(sstatus: usize) -> (r: usize)
    ensures
        r == user_sstatus_spec(sstatus),
        r & 0x100 == 0,
        r & 0x20 != 0,
        r & 0x40000 != 0,
{
    let r = ((sstatus & !(1usize << 8)) | (1usize << 5)) | (1usize << 18);
    assert(1usize << 8 == 0x100usize && 1usize << 5 == 0x20usize && 1usize << 18 == 0x40000usize)
        by (bit_vector);
    assert((((sstatus & !0x100usize) | 0x20usize) | 0x40000usize) & 0x100 == 0 && (((sstatus
        & !0x100usize) | 0x20usize) | 0x40000usize) & 0x20 != 0 && (((sstatus & !0x100usize)
        | 0x20usize) | 0x40000usize) & 0x40000 != 0) by (bit_vector);
    r
}

/// The trap frame a new user task starts from: all registers zero but the
/// stack pointer (x2), `sepc` at the entry point and the given `sstatus`.
pub fn initial_user_frame(entry: usize, ustack_top: usize, sstatus: usize) -> (r: TrapFrame)
    ensures
        r.sepc == entry,
        r.sstatus == sstatus,
        r.regs[2] == ustack_top,
        forall|i: int| 0 <= i < 32 && i != 2 ==> #[trigger] r.regs[i] == 0,
{
    let mut tf = TrapFrame { regs: [0usize; 32], sstatus, sepc: entry };
    tf.regs[2] = ustack_top;
    tf
}


/// Bytes a `TrapFrame` takes on the 64-bit target: 34 registers of 8 bytes.
pub const TRAP_FRAME_SIZE: usize = 272;

/// Makes slot `id` a user task that starts at `entry`: the initial trap
/// frame (`initial_user_frame`, with the stack at `ustack_top` and the
/// `sstatus` from `user_sstatus`) goes at the top of the task's kernel
/// stack, and the task's context resumes at `trap_return` with that frame
/// as its stack.  Returns the frame and the address it must be written to.
pub fn create_user_task(
    sched: &mut SimpleScheduler,
    id: usize,
    entry: usize,
    kstack_top: usize,
    ustack_top: usize,
    sstatus: usize,
    trap_return: usize,
) -> (r: (TrapFrame, usize))
    requires
        old(sched).wf(),
        id < MAX_TASKS,
        kstack_top >= TRAP_FRAME_SIZE,
    ensures
        final(sched).wf(),
        final(sched).current_id == old(sched).current_id,
        r.1 == kstack_top - TRAP_FRAME_SIZE,
        r.0.sepc == entry,
        r.0.sstatus == user_sstatus_spec(sstatus),
        r.0.regs[2] == ustack_top,
        forall|i: int| 0 <= i < 32 && i != 2 ==> #[trigger] r.0.regs[i] == 0,
        final(sched).tasks@ == old(sched).tasks@.update(
            id as int,
            Task {
                context: TaskContext { ra: trap_return, sp: r.1, ..old(sched).tasks@[id as int].context },
                status: TaskStatus::Ready,
                ..old(sched).tasks@[id as int]
            },
        ),
{
    let tf_addr = kstack_top - TRAP_FRAME_SIZE;
    let tf = initial_user_frame(entry, ustack_top, user_sstatus(sstatus));
    let old_context = sched.tasks[id].context;
    let context = TaskContext { ra: trap_return, sp: tf_addr, s: old_context.s };
    sched.create_task(id, context);
    (tf, tf_addr)
}


/// The task of the input server, which hears of keyboard interrupts.
pub const INPUT_SERVER_TASK: usize = 4;

/// What handling a claimed external interrupt leaves to do at the devices.
#[derive(Clone, Copy, Debug)]
pub enum ExternalIrq {
    /// No interrupt was pending (claim 0): nothing to do.
    Spurious,
    /// Acknowledge the input device at `device_base` (interrupt status
    /// register masked to its two low bits, written to the acknowledge
    /// register), carry out `notify` for the input server, then complete
    /// `irq` at the interrupt controller.
    Input { irq: u32, device_base: usize, notify: IpcOutcome },
    /// Complete `irq` at the interrupt controller.
    Other { irq: u32 },
}

/// Handles the external interrupt `irq` claimed from the interrupt
/// controller: interrupts 6 and 7 come from the VirtIO input devices in
/// slots 5 and 6, and notify the input server (bit 1); every interrupt but
/// 0 is completed.
pub fn handle_external_interrupt(sched: &mut SimpleScheduler, irq: u32) -> (r: ExternalIrq)
    requires
        old(sched).wf(),
    ensures
        final(sched).wf(),
        final(sched).current_id == old(sched).current_id,
        irq == 0 ==> r is Spurious && final(sched).tasks@ == old(sched).tasks@,
        irq == 6 || irq == 7 ==> (r matches ExternalIrq::Input { irq: i, device_base, notify } && i
            == irq && device_base == 0x10001000 + (irq - 1) * 0x1000 && (final(sched).tasks@, notify)
            == notify_spec(old(sched).tasks@, INPUT_SERVER_TASK, 1)),
        irq != 0 && irq != 6 && irq != 7 ==> (r matches ExternalIrq::Other { irq: i } && i == irq
            && final(sched).tasks@ == old(sched).tasks@),
{
    if irq == 0 {
        ExternalIrq::Spurious
    } else if irq == 6 || irq == 7 {
        let device_base = 0x10001000 + ((irq - 1) as usize) * 0x1000;
        let notify = sys_ipc_notify(sched, INPUT_SERVER_TASK, 1);
        ExternalIrq::Input { irq, device_base, notify }
    } else {
        ExternalIrq::Other { irq }
    }
}

/// Base of the interrupt controller's priority registers.
pub const PLIC_PRIORITY_BASE: usize = 0x0c00_0000;

/// Enable registers of the supervisor context of hart 0.
pub const PLIC_ENABLE_BASE: usize = 0x0c00_2080;

/// The registers that enable interrupt `irq` at the interrupt controller:
/// its priority register (set to 1), and the enable word with the bit to
/// set in it.
#[derive(Clone, Copy, Debug)]
pub struct PlicEnable {
    pub priority_addr: usize,
    pub enable_addr: usize,
    pub mask: u32,
}

/// Where and how interrupt `irq` is enabled (see `PlicEnable`): priority
/// word `irq`, enable word `irq / 32`, bit `irq % 32`.
pub fn plic_enable_irq(irq: u32) -> (r: PlicEnable)
    requires
        PLIC_PRIORITY_BASE + irq * 4 <= usize::MAX,
    ensures
        r.priority_addr == PLIC_PRIORITY_BASE + irq * 4,
        r.enable_addr == PLIC_ENABLE_BASE + (irq / 32) * 4,
        r.mask == 1u32 << (irq % 32),
{
    PlicEnable {
        priority_addr: PLIC_PRIORITY_BASE + (irq as usize) * 4,
        enable_addr: PLIC_ENABLE_BASE + ((irq as usize) / 32) * 4,
        mask: 1u32 << (irq % 32),
    }
}


/// The tasks after recording the frame address `tf_addr` of the current
/// task `cur` for a trap taken with `sstatus` (see
/// `SimpleScheduler::record_trap_frame`).
pub open spec fn recorded_tasks(tasks: Seq<Task>, cur: usize, sstatus: usize, tf_addr: usize) -> Seq<Task> {
    if (sstatus >> 8usize) & 1 == 0 {
        tasks.update(cur as int, Task { tf_addr, ..tasks[cur as int] })
    } else {
        tasks
    }
}

/// What the caller of `handle_trap` must do to complete the trap.
#[derive(Debug, Copy, Clone)]
pub enum TrapAction {
    /// Re-arm the timer, then carry out `decision` (the scheduler ran).
    Timer { decision: ScheduleDecision },
    /// Claim the pending interrupt at the controller and hand it to
    /// `handle_external_interrupt`.
    External,
    /// Log the interrupt with code `code`, which nothing handles.
    UnknownInterrupt { code: usize },
    /// Read the half-word at `sepc` and hand it to `skip_breakpoint`.
    Breakpoint,
    /// Complete the system call from user mode (see `SyscallAction`).
    Syscall { action: SyscallAction },
    /// Complete the call from supervisor mode (see `SupervisorCall`).
    Supervisor { call: SupervisorCall },
    /// Report the exception and stop the kernel: an illegal instruction, a
    /// page fault or any other exception.
    Halt { cause: TrapCause },
}

/// Handles a trap taken with cause `scause` while the current task's frame
/// `tf` lies at `tf_addr`: a trap from user mode first records the frame
/// address; then the cause decides (`classify_trap`): a timer interrupt
/// runs the scheduler, a user `ecall` is served by `handle_user_ecall`, a
/// supervisor `ecall` by `handle_supervisor_ecall`; an external interrupt,
/// a breakpoint and an unknown interrupt are left to the caller, and the
/// other exceptions stop the kernel.
pub fn handle_trap(
    sched: &mut SimpleScheduler,
    tf: &mut TrapFrame,
    tf_addr: usize,
    scause: u64,
    log_level: u8,
) -> (r: TrapAction)
    requires
        old(sched).wf(),
        cause_of(is_interrupt(scause), cause_code(scause)) == TrapCause::UserEcall ==> old(tf).sepc
            + 4 <= usize::MAX,
        cause_of(is_interrupt(scause), cause_code(scause)) == TrapCause::SupervisorEcall && old(
            tf,
        ).regs[17] != 2 ==> old(tf).sepc + 4 <= usize::MAX,
    ensures
        final(sched).wf(),
        ({
            let cur = old(sched).current_id;
            let t0 = recorded_tasks(old(sched).tasks@, cur, old(tf).sstatus, tf_addr);
            let cause = cause_of(is_interrupt(scause), cause_code(scause));
            if cause == TrapCause::TimerInterrupt {
                &&& *final(tf) == *old(tf)
                &&& r matches TrapAction::Timer { decision }
                &&& (final(sched).tasks@, final(sched).current_id, decision) == schedule_spec(t0, cur)
            } else if cause == TrapCause::UserEcall {
                &&& final(sched).current_id == cur
                &&& r matches TrapAction::Syscall { action }
                &&& user_ecall_done(t0, cur, *old(tf), log_level, final(sched).tasks@, *final(tf), action)
            } else if cause == TrapCause::SupervisorEcall {
                &&& final(sched).current_id == cur
                &&& final(sched).tasks@ == t0
                &&& r matches TrapAction::Supervisor { call }
                &&& supervisor_ecall_done(*old(tf), *final(tf), call)
            } else {
                &&& final(sched).current_id == cur
                &&& final(sched).tasks@ == t0
                &&& *final(tf) == *old(tf)
                &&& match cause {
                    TrapCause::ExternalInterrupt => r is External,
                    TrapCause::OtherInterrupt(code) => r matches TrapAction::UnknownInterrupt { code: c }
                        && c == code,
                    TrapCause::Breakpoint => r is Breakpoint,
                    _ => r matches TrapAction::Halt { cause: c } && c == cause,
                }
            }
        }),
{
    sched.record_trap_frame(tf.sstatus, tf_addr);
    let cause = classify_trap(scause);
    match cause {
        TrapCause::TimerInterrupt => TrapAction::Timer { decision: sched.schedule() },
        TrapCause::ExternalInterrupt => TrapAction::External,
        TrapCause::OtherInterrupt(code) => TrapAction::UnknownInterrupt { code },
        TrapCause::Breakpoint => TrapAction::Breakpoint,
        TrapCause::UserEcall => TrapAction::Syscall { action: handle_user_ecall(sched, tf, log_level) },
        TrapCause::SupervisorEcall => TrapAction::Supervisor { call: handle_supervisor_ecall(tf) },
        _ => TrapAction::Halt { cause },
    }
}

} // verus!
