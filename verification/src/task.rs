//! Tasks, the round-robin scheduler and synchronous rendezvous IPC.
//!
//! Each kernel operation here is a transition of the scheduler state that
//! also returns what the caller must do outside the state: copy a message
//! between user buffers, write a notification message, switch contexts.
use vstd::prelude::*;
use crate::ipc::{le_bytes_u32, put_u32};

verus! {

/// Number of task slots.
pub const MAX_TASKS: usize = 16;

/// Source id meaning "any sender" in a receive.
pub const IPC_WILDCARD: usize = usize::MAX;

/// Sender id carried by a notification message.
pub const IPC_SENDER_NOTIFICATION: u32 = 0xFFFFFFFF;

/// Message type carried by a notification message.
pub const IPC_MSG_NOTIFICATION: u32 = 0xFFFFFFFF;

/// A fixed-size IPC message: a 16-byte header and 32 bytes of payload.
#[derive(Clone, Copy, Debug)]
pub struct IpcMessage {
    pub sender: u32,
    pub msg_type: u32,
    pub length: u32,
    pub reserved: u32,
    pub payload: [u8; 32],
}

impl IpcMessage {
    /// A message of type `msg_type` and length `length` from sender 0 with a
    /// zeroed payload.
    pub fn new(msg_type: u32, length: u32) -> (r: IpcMessage)
        ensures
            r.sender == 0,
            r.msg_type == msg_type,
            r.length == length,
            r.reserved == 0,
            forall|i: int| 0 <= i < 32 ==> #[trigger] r.payload[i] == 0,
    {
        IpcMessage { sender: 0, msg_type, length, reserved: 0, payload: [0u8; 32] }
    }
}

/// The life-cycle state of a task slot.
#[derive(Copy, Clone, PartialEq, Eq, Debug, Structural)]
pub enum TaskStatus {
    Unused,
    Ready,
    Running,
    /// Waiting for the receiver to accept its message.
    BlockedSend,
    /// Waiting for a message.
    BlockedRecv,
    Exited,
}

/// The callee-saved registers a context switch preserves.
#[derive(Clone, Copy, Debug)]
pub struct TaskContext {
    pub ra: usize,
    pub sp: usize,
    pub s: [usize; 12],
}

impl TaskContext {
    /// The all-zero context.
    pub fn zero() -> (r: Self)
        ensures
            r.ra == 0,
            r.sp == 0,
            forall|i: int| 0 <= i < 12 ==> #[trigger] r.s[i] == 0,
    {
        Self { ra: 0, sp: 0, s: [0usize; 12] }
    }
}

/// One task slot.  The kernel and user stacks of a task are memory the
/// caller owns; the slot holds the addresses that refer to them.
#[derive(Clone, Copy, Debug)]
pub struct Task {
    pub id: usize,
    pub context: TaskContext,
    pub status: TaskStatus,
    /// Address of the trap frame saved on the task's kernel stack, 0 if none.
    pub tf_addr: usize,
    /// The task this one is sending to or receiving from.
    pub ipc_partner: usize,
    /// Address of the message buffer of a blocked send or receive.
    pub ipc_buffer_ptr: usize,
    /// Pending notification bits.
    pub ipc_notifications: u32,
    /// The task whose message this one took last; a receive from anyone
    /// looks at the tasks after it first.
    pub last_sender: usize,
}

impl Task {
    /// An unused slot with id `id` and everything else zero.
    pub fn new(id: usize) -> (r: Self)
        ensures
            r.id == id,
            r.context.ra == 0,
            r.context.sp == 0,
            forall|i: int| 0 <= i < 12 ==> #[trigger] r.context.s[i] == 0,
            r.status == TaskStatus::Unused,
            r.tf_addr == 0,
            r.ipc_partner == 0,
            r.ipc_buffer_ptr == 0,
            r.ipc_notifications == 0,
            r.last_sender == 0,
    {
        Self {
            id,
            context: TaskContext::zero(),
            status: TaskStatus::Unused,
            tf_addr: 0,
            ipc_partner: 0,
            ipc_buffer_ptr: 0,
            ipc_notifications: 0,
            last_sender: 0,
        }
    }
}

/// `t` with status `s`.
pub open spec fn with_status(t: Task, s: TaskStatus) -> Task {
    Task {
        id: t.id,
        context: t.context,
        status: s,
        tf_addr: t.tf_addr,
        ipc_partner: t.ipc_partner,
        ipc_buffer_ptr: t.ipc_buffer_ptr,
        ipc_notifications: t.ipc_notifications,
        last_sender: t.last_sender,
    }
}

/// `t` blocked in status `s` on `partner` with message buffer `ptr`.
pub open spec fn blocked_on(t: Task, s: TaskStatus, partner: usize, ptr: usize) -> Task {
    Task {
        id: t.id,
        context: t.context,
        status: s,
        tf_addr: t.tf_addr,
        ipc_partner: partner,
        ipc_buffer_ptr: ptr,
        ipc_notifications: t.ipc_notifications,
        last_sender: t.last_sender,
    }
}

/// `t` with pending notification bits `bits`.
pub open spec fn with_notifications(t: Task, bits: u32) -> Task {
    Task {
        id: t.id,
        context: t.context,
        status: t.status,
        tf_addr: t.tf_addr,
        ipc_partner: t.ipc_partner,
        ipc_buffer_ptr: t.ipc_buffer_ptr,
        ipc_notifications: bits,
        last_sender: t.last_sender,
    }
}

/// `t` having accepted a message from `sender`.
pub open spec fn with_last_sender(t: Task, sender: usize) -> Task {
    Task {
        id: t.id,
        context: t.context,
        status: t.status,
        tf_addr: t.tf_addr,
        ipc_partner: t.ipc_partner,
        ipc_buffer_ptr: t.ipc_buffer_ptr,
        ipc_notifications: t.ipc_notifications,
        last_sender: sender,
    }
}

/// What the caller of an IPC operation must carry out.
#[derive(Clone, Copy, Debug)]
pub enum IpcAction {
    /// Nothing.
    Nothing,
    /// Copy the message at `from_ptr` to `to_ptr`, set the copy's sender
    /// field to `sender`, and when `wake_tf` is not 0 write 0 into register
    /// a0 of the trap frame at `wake_tf`.
    Deliver { from_ptr: usize, to_ptr: usize, sender: u32, wake_tf: usize },
    /// Write the notification message for `bits` (see
    /// `write_notification`) to `to_ptr`, and when `wake_tf` is not 0
    /// write 0 into register a0 of the trap frame at `wake_tf`.
    Notify { to_ptr: usize, bits: u32, wake_tf: usize },
    /// The calling task blocked: run the scheduler.
    Block,
}

/// The return code of an IPC operation (0, or -1 / -2 for a bad or inactive
/// peer) and the action that completes it.
#[derive(Clone, Copy, Debug)]
pub struct IpcOutcome {
    pub result: isize,
    pub action: IpcAction,
}

/// The round-robin scheduler over the task slots.
pub struct SimpleScheduler {
    pub tasks: Vec<Task>,
    pub current_id: usize,
}

/// A task slot that takes part in IPC.
pub open spec fn is_active(s: TaskStatus) -> bool {
    s != TaskStatus::Unused && s != TaskStatus::Exited
}

/// Sending from `cur` to `dest` with the message at `msg_ptr`: refused for a
/// bad id (-1) or an inactive peer (-2); delivered at once when `dest` waits
/// to receive from `cur` or from anyone (the receiver becomes ready);
/// otherwise the sender blocks on `dest`.
pub open spec fn send_spec(tasks: Seq<Task>, cur: usize, dest: usize, msg_ptr: usize) -> (
    Seq<Task>,
    IpcOutcome,
) {
    if dest >= MAX_TASKS || dest == cur {
        (tasks, IpcOutcome { result: -1isize, action: IpcAction::Nothing })
    } else if !is_active(tasks[dest as int].status) {
        (tasks, IpcOutcome { result: -2isize, action: IpcAction::Nothing })
    } else if tasks[dest as int].status == TaskStatus::BlockedRecv && (tasks[dest as int].ipc_partner
        == cur || tasks[dest as int].ipc_partner == IPC_WILDCARD) {
        (
            tasks.update(dest as int, with_status(tasks[dest as int], TaskStatus::Ready)),
            IpcOutcome {
                result: 0,
                action: IpcAction::Deliver {
                    from_ptr: msg_ptr,
                    to_ptr: tasks[dest as int].ipc_buffer_ptr,
                    sender: cur as u32,
                    wake_tf: tasks[dest as int].tf_addr,
                },
            },
        )
    } else {
        (
            tasks.update(
                cur as int,
                blocked_on(tasks[cur as int], TaskStatus::BlockedSend, dest, msg_ptr),
            ),
            IpcOutcome { result: 0, action: IpcAction::Block },
        )
    }
}

/// Task `i` is blocked sending to `receiver` and the receive from `src`
/// accepts it.
pub open spec fn waiting_sender(tasks: Seq<Task>, receiver: usize, src: usize, i: int) -> bool {
    &&& tasks[i].status == TaskStatus::BlockedSend
    &&& tasks[i].ipc_partner == receiver
    &&& (src == IPC_WILDCARD || src == i)
}

/// The first accepted waiting sender among the slots `start + d`,
/// `start + d + 1`, ... up to offset 15 (taken modulo the slot count).
pub open spec fn first_waiting(tasks: Seq<Task>, receiver: usize, src: usize, start: int, d: int) -> Option<
    int,
>
    decreases 16 - d,
{
    if d < 0 || d >= 16 {
        None
    } else if waiting_sender(tasks, receiver, src, (start + d) % 16) {
        Some((start + d) % 16)
    } else {
        first_waiting(tasks, receiver, src, start, d + 1)
    }
}

/// Receiving into `msg_ptr` by `cur` from `src`: refused for a bad id (-1);
/// with a wildcard source and pending notification bits, the bits are
/// delivered as a notification message and cleared; otherwise the first
/// accepted waiting sender after the one accepted last (round robin) is
/// delivered and made ready; with none, the receiver blocks on `src`.
pub open spec fn recv_spec(tasks: Seq<Task>, cur: usize, src: usize, msg_ptr: usize) -> (
    Seq<Task>,
    IpcOutcome,
) {
    let me = tasks[cur as int];
    if src != IPC_WILDCARD && src >= MAX_TASKS {
        (tasks, IpcOutcome { result: -1isize, action: IpcAction::Nothing })
    } else if src == IPC_WILDCARD && me.ipc_notifications != 0 {
        (
            tasks.update(cur as int, with_notifications(me, 0)),
            IpcOutcome {
                result: 0,
                action: IpcAction::Notify { to_ptr: msg_ptr, bits: me.ipc_notifications, wake_tf: 0 },
            },
        )
    } else {
        match first_waiting(tasks, cur, src, (me.last_sender + 1) % 16, 0) {
            Some(i) => {
                let t1 = tasks.update(cur as int, with_last_sender(me, i as usize));
                (
                    t1.update(i, with_status(t1[i], TaskStatus::Ready)),
                    IpcOutcome {
                        result: 0,
                        action: IpcAction::Deliver {
                            from_ptr: t1[i].ipc_buffer_ptr,
                            to_ptr: msg_ptr,
                            sender: i as u32,
                            wake_tf: t1[i].tf_addr,
                        },
                    },
                )
            },
            None => (
                tasks.update(cur as int, blocked_on(me, TaskStatus::BlockedRecv, src, msg_ptr)),
                IpcOutcome { result: 0, action: IpcAction::Block },
            ),
        }
    }
}

/// Notifying `dest` with `bits`: refused for a bad id (-1) or an inactive
/// task (-2); otherwise the bits are added to the pending ones, and when
/// `dest` waits to receive from anyone, all pending bits are delivered to it
/// as a notification message, cleared, and `dest` becomes ready.
pub open spec fn notify_spec(tasks: Seq<Task>, dest: usize, bits: u32) -> (Seq<Task>, IpcOutcome) {
    if dest >= MAX_TASKS {
        (tasks, IpcOutcome { result: -1isize, action: IpcAction::Nothing })
    } else if !is_active(tasks[dest as int].status) {
        (tasks, IpcOutcome { result: -2isize, action: IpcAction::Nothing })
    } else {
        let d = tasks[dest as int];
        let pending = d.ipc_notifications | bits;
        if d.status == TaskStatus::BlockedRecv && d.ipc_partner == IPC_WILDCARD {
            (
                tasks.update(
                    dest as int,
                    with_status(with_notifications(d, 0), TaskStatus::Ready),
                ),
                IpcOutcome {
                    result: 0,
                    action: IpcAction::Notify {
                        to_ptr: d.ipc_buffer_ptr,
                        bits: pending,
                        wake_tf: d.tf_addr,
                    },
                },
            )
        } else {
            (
                tasks.update(dest as int, with_notifications(d, pending)),
                IpcOutcome { result: 0, action: IpcAction::Nothing },
            )
        }
    }
}

/// The first ready task among the slots `cur + d`, ..., `cur + 16` (taken
/// modulo the slot count, so the current slot comes last).
pub open spec fn first_ready(tasks: Seq<Task>, cur: int, d: int) -> Option<int>
    decreases 17 - d,
{
    if d < 1 || d > 16 {
        None
    } else if tasks[(cur + d) % 16].status == TaskStatus::Ready {
        Some((cur + d) % 16)
    } else {
        first_ready(tasks, cur, d + 1)
    }
}

/// What the caller of the scheduler must do next.
#[derive(Clone, Copy, Debug, PartialEq, Eq, Structural)]
pub enum ScheduleDecision {
    /// Re-arm the timer and switch from the context of task `from` to that of
    /// task `to`.
    Switch { from: usize, to: usize },
    /// Keep running the current task.
    Stay,
    /// No task can run: wait for an interrupt, re-arm the timer and ask again.
    Idle,
}

/// Scheduling from `cur`: the first ready task after it in cyclic order (it
/// itself last) becomes the running one and the current task, if it was
/// running, becomes ready; with no ready task the current one keeps running,
/// or the processor idles when it cannot.
pub open spec fn schedule_spec(tasks: Seq<Task>, cur: usize) -> (Seq<Task>, usize, ScheduleDecision) {
    match first_ready(tasks, cur as int, 1) {
        Some(n) => {
            let t1 = if tasks[cur as int].status == TaskStatus::Running {
                tasks.update(cur as int, with_status(tasks[cur as int], TaskStatus::Ready))
            } else {
                tasks
            };
            (
                t1.update(n, with_status(t1[n], TaskStatus::Running)),
                n as usize,
                ScheduleDecision::Switch { from: cur, to: n as usize },
            )
        },
        None => (
            tasks,
            cur,
            if tasks[cur as int].status == TaskStatus::Running {
                ScheduleDecision::Stay
            } else {
                ScheduleDecision::Idle
            },
        ),
    }
}

/// No task other than the current one is running.
pub open spec fn single_runner(tasks: Seq<Task>, cur: usize) -> bool {
    forall|i: int|
        0 <= i < tasks.len() && i != cur ==> #[trigger] tasks[i].status != TaskStatus::Running
}

impl SimpleScheduler {
    /// Sixteen slots, a valid current slot, and round-robin positions in
    /// range.
    pub open spec fn wf(&self) -> bool {
        &&& self.tasks@.len() == MAX_TASKS
        &&& self.current_id < MAX_TASKS
        &&& forall|i: int| 0 <= i < MAX_TASKS ==> #[trigger] self.tasks@[i].last_sender < MAX_TASKS
    }

    /// Sixteen unused slots with ids 0 to 15, except slot 0, which is the
    /// running current task.
    pub fn new() -> (r: Self)
        ensures
            r.wf(),
            r.current_id == 0,
            forall|i: int|
                0 <= i < MAX_TASKS ==> {
                    let t = #[trigger] r.tasks@[i];
                    &&& t.id == i
                    &&& t.status == (if i == 0 {
                        TaskStatus::Running
                    } else {
                        TaskStatus::Unused
                    })
                    &&& t.tf_addr == 0
                    &&& t.ipc_partner == 0
                    &&& t.ipc_buffer_ptr == 0
                    &&& t.ipc_notifications == 0
                    &&& t.last_sender == 0
                    &&& t.context.ra == 0
                    &&& t.context.sp == 0
                    &&& forall|j: int| 0 <= j < 12 ==> #[trigger] t.context.s[j] == 0
                },
            single_runner(r.tasks@, r.current_id),
    {
        let mut tasks: Vec<Task> = Vec::new();
        let mut i: usize = 0;
        while i < MAX_TASKS
            invariant
                i <= MAX_TASKS,
                tasks@.len() == i,
                forall|k: int|
                    0 <= k < i ==> {
                        let t = #[trigger] tasks@[k];
                        &&& t.id == k
                        &&& t.status == TaskStatus::Unused
                        &&& t.tf_addr == 0
                        &&& t.ipc_partner == 0
                        &&& t.ipc_buffer_ptr == 0
                        &&& t.ipc_notifications == 0
                        &&& t.last_sender == 0
                        &&& t.context.ra == 0
                        &&& t.context.sp == 0
                        &&& forall|j: int| 0 <= j < 12 ==> #[trigger] t.context.s[j] == 0
                    },
            decreases MAX_TASKS - i,
        {
            tasks.push(Task::new(i));
            i = i + 1;
        }
        tasks[0].status = TaskStatus::Running;
        SimpleScheduler { tasks, current_id: 0 }
    }

    /// Runs the round-robin choice: see `schedule_spec`.
    pub fn schedule(&mut self) -> (r: ScheduleDecision)
        requires
            old(self).wf(),
        ensures
            final(self).wf(),
            (final(self).tasks@, final(self).current_id, r) == schedule_spec(
                old(self).tasks@,
                old(self).current_id,
            ),
            single_runner(old(self).tasks@, old(self).current_id) ==> single_runner(
                final(self).tasks@,
                final(self).current_id,
            ),
    {
        let cur = self.current_id;
        let mut next = (cur + 1) % MAX_TASKS;
        let ghost mut d: int = 1;
        while next != cur && self.tasks[next].status != TaskStatus::Ready
            invariant
                self.wf(),
                cur == self.current_id,
                1 <= d <= 16,
                next == (cur + d) % 16,
                first_ready(self.tasks@, cur as int, 1) == first_ready(self.tasks@, cur as int, d),
            decreases 16 - d,
        {
            next = (next + 1) % MAX_TASKS;
            proof {
                d = d + 1;
            }
        }
        if self.tasks[next].status == TaskStatus::Ready {
            assert(first_ready(self.tasks@, cur as int, d) == Some(next as int));
            if self.tasks[cur].status == TaskStatus::Running {
                self.tasks[cur].status = TaskStatus::Ready;
            }
            self.tasks[next].status = TaskStatus::Running;
            self.current_id = next;
            ScheduleDecision::Switch { from: cur, to: next }
        } else {
            assert(d == 16);
            assert(first_ready(self.tasks@, cur as int, 17) == None::<int>);
            if self.tasks[cur].status == TaskStatus::Running {
                ScheduleDecision::Stay
            } else {
                ScheduleDecision::Idle
            }
        }
    }

    /// The current task has finished: it becomes exited and the scheduler
    /// picks the next one.
    pub fn exit_current_task(&mut self) -> (r: ScheduleDecision)
        requires
            old(self).wf(),
        ensures
            final(self).wf(),
            ({
                let cur = old(self).current_id;
                let exited = old(self).tasks@.update(
                    cur as int,
                    with_status(old(self).tasks@[cur as int], TaskStatus::Exited),
                );
                (final(self).tasks@, final(self).current_id, r) == schedule_spec(exited, cur)
            }),
            single_runner(old(self).tasks@, old(self).current_id) ==> single_runner(
                final(self).tasks@,
                final(self).current_id,
            ),
    {
        let cur = self.current_id;
        self.tasks[cur].status = TaskStatus::Exited;
        self.schedule()
    }

    /// Makes slot `id` a ready task that starts from `context`.
    pub fn create_task(&mut self, id: usize, context: TaskContext)
        requires
            old(self).wf(),
            id < MAX_TASKS,
        ensures
            final(self).wf(),
            final(self).current_id == old(self).current_id,
            final(self).tasks@ == old(self).tasks@.update(
                id as int,
                Task {
                    context,
                    status: TaskStatus::Ready,
                    ..old(self).tasks@[id as int]
                },
            ),
            single_runner(old(self).tasks@, old(self).current_id) ==> single_runner(
                final(self).tasks@,
                final(self).current_id,
            ),
    {
        self.tasks[id].status = TaskStatus::Ready;
        self.tasks[id].context = context;
    }

    /// Records where the current task's trap frame lies when the trap came
    /// from user mode (bit 8 of `sstatus`, SPP, is clear).
    pub fn record_trap_frame(&mut self, sstatus: usize, tf_addr: usize)
        requires
            old(self).wf(),
        ensures
            final(self).wf(),
            final(self).current_id == old(self).current_id,
            (sstatus >> 8usize) & 1 == 0 ==> final(self).tasks@ == old(self).tasks@.update(
                old(self).current_id as int,
                Task { tf_addr, ..old(self).tasks@[old(self).current_id as int] },
            ),
            (sstatus >> 8usize) & 1 != 0 ==> final(self).tasks@ == old(self).tasks@,
    {
        if (sstatus >> 8) & 1 == 0 {
            let cur = self.current_id;
            self.tasks[cur].tf_addr = tf_addr;
        }
    }

    /// Whether task `i` is a waiting sender the receive by `receiver` from
    /// `src` accepts.
    fn is_waiting_sender(&self, receiver: usize, src: usize, i: usize) -> (r: bool)
        requires
            self.wf(),
            i < MAX_TASKS,
        ensures
            r == waiting_sender(self.tasks@, receiver, src, i as int),
    {
        self.tasks[i].status == TaskStatus::BlockedSend && self.tasks[i].ipc_partner == receiver && (
        src == IPC_WILDCARD || src == i)
    }
}

/// Sends the message at `msg_ptr` from the current task to `dest_id`: see
/// `send_spec`.
pub fn sys_ipc_send(sched: &mut SimpleScheduler, dest_id: usize, msg_ptr: usize) -> (r: IpcOutcome)
    requires
        old(sched).wf(),
    ensures
        final(sched).wf(),
        final(sched).current_id == old(sched).current_id,
        (final(sched).tasks@, r) == send_spec(
            old(sched).tasks@,
            old(sched).current_id,
            dest_id,
            msg_ptr,
        ),
        single_runner(old(sched).tasks@, old(sched).current_id) ==> single_runner(
            final(sched).tasks@,
            final(sched).current_id,
        ),
{
    let sender_id = sched.current_id;
    if dest_id >= MAX_TASKS || dest_id == sender_id {
        return IpcOutcome { result: -1isize, action: IpcAction::Nothing };
    }
    let dest = sched.tasks[dest_id];
    if dest.status == TaskStatus::Unused || dest.status == TaskStatus::Exited {
        return IpcOutcome { result: -2isize, action: IpcAction::Nothing };
    }
    if dest.status == TaskStatus::BlockedRecv && (dest.ipc_partner == sender_id || dest.ipc_partner
        == IPC_WILDCARD) {
        sched.tasks[dest_id].status = TaskStatus::Ready;
        IpcOutcome {
            result: 0,
            action: IpcAction::Deliver {
                from_ptr: msg_ptr,
                to_ptr: dest.ipc_buffer_ptr,
                sender: sender_id as u32,
                wake_tf: dest.tf_addr,
            },
        }
    } else {
        sched.tasks[sender_id].status = TaskStatus::BlockedSend;
        sched.tasks[sender_id].ipc_partner = dest_id;
        sched.tasks[sender_id].ipc_buffer_ptr = msg_ptr;
        IpcOutcome { result: 0, action: IpcAction::Block }
    }
}

/// Receives into `msg_ptr` for the current task from `src_id`: see
/// `recv_spec`.
pub fn sys_ipc_recv(sched: &mut SimpleScheduler, src_id: usize, msg_ptr: usize) -> (r: IpcOutcome)
    requires
        old(sched).wf(),
    ensures
        final(sched).wf(),
        final(sched).current_id == old(sched).current_id,
        (final(sched).tasks@, r) == recv_spec(
            old(sched).tasks@,
            old(sched).current_id,
            src_id,
            msg_ptr,
        ),
        single_runner(old(sched).tasks@, old(sched).current_id) ==> single_runner(
            final(sched).tasks@,
            final(sched).current_id,
        ),
{
    let receiver_id = sched.current_id;
    if src_id != IPC_WILDCARD && src_id >= MAX_TASKS {
        return IpcOutcome { result: -1isize, action: IpcAction::Nothing };
    }
    let pending = sched.tasks[receiver_id].ipc_notifications;
    if src_id == IPC_WILDCARD && pending != 0 {
        sched.tasks[receiver_id].ipc_notifications = 0;
        return IpcOutcome {
            result: 0,
            action: IpcAction::Notify { to_ptr: msg_ptr, bits: pending, wake_tf: 0 },
        };
    }
    let start = (sched.tasks[receiver_id].last_sender + 1) % MAX_TASKS;
    let mut offset: usize = 0;
    while offset < MAX_TASKS && !sched.is_waiting_sender(
        receiver_id,
        src_id,
        (start + offset) % MAX_TASKS,
    )
        invariant
            sched.wf(),
            offset <= MAX_TASKS,
            start < MAX_TASKS,
            first_waiting(sched.tasks@, receiver_id, src_id, start as int, 0) == first_waiting(
                sched.tasks@,
                receiver_id,
                src_id,
                start as int,
                offset as int,
            ),
        decreases MAX_TASKS - offset,
    {
        offset = offset + 1;
    }
    if offset < MAX_TASKS {
        let sender_id = (start + offset) % MAX_TASKS;
        assert(first_waiting(sched.tasks@, receiver_id, src_id, start as int, offset as int) == Some(
            sender_id as int,
        ));
        sched.tasks[receiver_id].last_sender = sender_id;
        let sender = sched.tasks[sender_id];
        sched.tasks[sender_id].status = TaskStatus::Ready;
        IpcOutcome {
            result: 0,
            action: IpcAction::Deliver {
                from_ptr: sender.ipc_buffer_ptr,
                to_ptr: msg_ptr,
                sender: sender_id as u32,
                wake_tf: sender.tf_addr,
            },
        }
    } else {
        assert(first_waiting(sched.tasks@, receiver_id, src_id, start as int, 16) == None::<int>);
        sched.tasks[receiver_id].status = TaskStatus::BlockedRecv;
        sched.tasks[receiver_id].ipc_partner = src_id;
        sched.tasks[receiver_id].ipc_buffer_ptr = msg_ptr;
        IpcOutcome { result: 0, action: IpcAction::Block }
    }
}

/// Posts the notification bits `bits` to `dest_id`: see `notify_spec`.
pub fn sys_ipc_notify(sched: &mut SimpleScheduler, dest_id: usize, bits: u32) -> (r: IpcOutcome)
    requires
        old(sched).wf(),
    ensures
        final(sched).wf(),
        final(sched).current_id == old(sched).current_id,
        (final(sched).tasks@, r) == notify_spec(old(sched).tasks@, dest_id, bits),
        single_runner(old(sched).tasks@, old(sched).current_id) ==> single_runner(
            final(sched).tasks@,
            final(sched).current_id,
        ),
{
    if dest_id >= MAX_TASKS {
        return IpcOutcome { result: -1isize, action: IpcAction::Nothing };
    }
    let dest = sched.tasks[dest_id];
    if dest.status == TaskStatus::Unused || dest.status == TaskStatus::Exited {
        return IpcOutcome { result: -2isize, action: IpcAction::Nothing };
    }
    let pending = dest.ipc_notifications | bits;
    if dest.status == TaskStatus::BlockedRecv && dest.ipc_partner == IPC_WILDCARD {
        sched.tasks[dest_id].ipc_notifications = 0;
        sched.tasks[dest_id].status = TaskStatus::Ready;
        IpcOutcome {
            result: 0,
            action: IpcAction::Notify { to_ptr: dest.ipc_buffer_ptr, bits: pending, wake_tf: dest.tf_addr },
        }
    } else {
        sched.tasks[dest_id].ipc_notifications = pending;
        IpcOutcome { result: 0, action: IpcAction::Nothing }
    }
}
/// The two halves of a reply-and-receive: the outcome of the reply and, when
/// the reply neither failed nor blocked, the outcome of the receive that
/// followed it at once.  When the reply blocked, the receive is still to be
/// made (with `sys_ipc_recv`) once the task runs again.
#[derive(Clone, Copy, Debug)]
pub struct ReplyRecvOutcome {
    pub send: IpcOutcome,
    pub recv: Option<IpcOutcome>,
}

/// Replies to `dest_id` with the message at `reply_msg_ptr`, then receives
/// from `src_id` into `recv_msg_ptr`; a failed reply returns its error code
/// without receiving.
pub fn sys_ipc_reply_recv(
    sched: &mut SimpleScheduler,
    dest_id: usize,
    reply_msg_ptr: usize,
    src_id: usize,
    recv_msg_ptr: usize,
) -> (r: ReplyRecvOutcome)
    requires
        old(sched).wf(),
    ensures
        final(sched).wf(),
        final(sched).current_id == old(sched).current_id,
        ({
            let cur = old(sched).current_id;
            let (t1, so) = send_spec(old(sched).tasks@, cur, dest_id, reply_msg_ptr);
            &&& r.send == so
            &&& if so.result != 0 || so.action is Block {
                final(sched).tasks@ == t1 && r.recv is None
            } else {
                let (t2, ro) = recv_spec(t1, cur, src_id, recv_msg_ptr);
                final(sched).tasks@ == t2 && r.recv == Some(ro)
            }
        }),
        single_runner(old(sched).tasks@, old(sched).current_id) ==> single_runner(
            final(sched).tasks@,
            final(sched).current_id,
        ),
{
    let send = sys_ipc_send(sched, dest_id, reply_msg_ptr);
    if send.result != 0 {
        return ReplyRecvOutcome { send, recv: None };
    }
    if let IpcAction::Block = send.action {
        return ReplyRecvOutcome { send, recv: None };
    }
    let recv = sys_ipc_recv(sched, src_id, recv_msg_ptr);
    ReplyRecvOutcome { send, recv: Some(recv) }
}

/// Turns the message buffer at a receiver into the notification message for
/// `bits`: notification sender and type, length 4, the bits in payload bytes
/// 0..4; the other bytes and the reserved field stay as they were.
pub fn write_notification(msg: &mut IpcMessage, bits: u32)
    ensures
        final(msg).sender == IPC_SENDER_NOTIFICATION,
        final(msg).msg_type == IPC_MSG_NOTIFICATION,
        final(msg).length == 4,
        final(msg).reserved == old(msg).reserved,
        final(msg).payload@ == old(msg).payload@.update(0, le_bytes_u32(bits)[0]).update(
            1,
            le_bytes_u32(bits)[1],
        ).update(2, le_bytes_u32(bits)[2]).update(3, le_bytes_u32(bits)[3]),
{
    msg.sender = IPC_SENDER_NOTIFICATION;
    msg.msg_type = IPC_MSG_NOTIFICATION;
    msg.length = 4;
    put_u32(&mut msg.payload, 0, bits);
}

/// The copy of a delivered message as the receiver sees it: the sender's
/// message with the sender field set by the kernel.
pub fn stamp_sender(msg: IpcMessage, sender: u32) -> (r: IpcMessage)
    ensures
        r.sender == sender,
        r.msg_type == msg.msg_type,
        r.length == msg.length,
        r.reserved == msg.reserved,
        r.payload == msg.payload,
{
    IpcMessage { sender, ..msg }
}


/// Some accepted waiting sender sits at an offset from `d` on: the search
/// finds an accepted waiting sender.
proof fn lemma_first_waiting_from(tasks: Seq<Task>, receiver: usize, src: usize, start: int, d: int)
    requires
        0 <= d < 16,
        exists|k: int| d <= k < 16 && #[trigger] waiting_sender(tasks, receiver, src, (start + k) % 16),
    ensures
        first_waiting(tasks, receiver, src, start, d) matches Some(j) && 0 <= j < 16
            && waiting_sender(tasks, receiver, src, j),
    decreases 16 - d,
{
    if !waiting_sender(tasks, receiver, src, (start + d) % 16) {
        let k = choose|k: int| d <= k < 16 && #[trigger] waiting_sender(tasks, receiver, src, (start + k) % 16);
        assert(k != d);
        lemma_first_waiting_from(tasks, receiver, src, start, d + 1);
    } else {
        assert(0 <= (start + d) % 16 < 16);
    }
}

/// When some task waits to send to `receiver` and the receive from `src`
/// accepts it, the round-robin search finds an accepted waiting sender.
pub proof fn lemma_first_waiting_finds(tasks: Seq<Task>, receiver: usize, src: usize, start: int, i: int)
    requires
        0 <= start < 16,
        0 <= i < 16,
        waiting_sender(tasks, receiver, src, i),
    ensures
        first_waiting(tasks, receiver, src, start, 0) matches Some(j) && 0 <= j < 16
            && waiting_sender(tasks, receiver, src, j),
{
    let k = if i >= start {
        i - start
    } else {
        i - start + 16
    };
    assert((start + k) % 16 == i);
    assert(waiting_sender(tasks, receiver, src, (start + k) % 16));
    lemma_first_waiting_from(tasks, receiver, src, start, 0);
}

/// A receive never blocks while an accepted sender waits: when task `i`
/// waits to send to `cur` and the receive from `src` accepts it (and no
/// notification is pending for a receive from anyone), the receive delivers
/// a waiting sender's message at once and makes that sender ready.
pub proof fn law_recv_takes_waiting_sender(tasks: Seq<Task>, cur: usize, src: usize, msg_ptr: usize, i: int)
    requires
        tasks.len() == MAX_TASKS,
        cur < MAX_TASKS,
        tasks[cur as int].last_sender < MAX_TASKS,
        0 <= i < MAX_TASKS,
        waiting_sender(tasks, cur, src, i),
        src == IPC_WILDCARD ==> tasks[cur as int].ipc_notifications == 0,
    ensures
        ({
            let (t, o) = recv_spec(tasks, cur, src, msg_ptr);
            &&& o.result == 0
            &&& o.action matches IpcAction::Deliver { from_ptr, to_ptr, sender, .. } && to_ptr
                == msg_ptr && 0 <= sender < MAX_TASKS && waiting_sender(tasks, cur, src, sender as int)
                && from_ptr == tasks[sender as int].ipc_buffer_ptr && t[sender as int].status
                == TaskStatus::Ready
        }),
{
    if src != IPC_WILDCARD {
        assert(src == i);
    }
    lemma_first_waiting_finds(tasks, cur, src, (tasks[cur as int].last_sender + 1) % 16, i);
}

/// How many slots after `start` slot `i` comes, going round the 16 slots.
pub open spec fn rr_offset(start: int, i: int) -> int {
    (i - start + 16) % 16
}

/// The search from offset `d` finds the accepted waiting sender with the
/// smallest offset at or above `d`.
proof fn lemma_first_waiting_least(tasks: Seq<Task>, receiver: usize, src: usize, start: int, d: int)
    requires
        0 <= d,
        0 <= start < 16,
    ensures
        first_waiting(tasks, receiver, src, start, d) matches Some(j) ==> {
            &&& d <= rr_offset(start, j) < 16
            &&& (start + rr_offset(start, j)) % 16 == j
            &&& forall|k: int|
                d <= k < 16 && #[trigger] waiting_sender(tasks, receiver, src, (start + k) % 16)
                    ==> rr_offset(start, j) <= k
        },
    decreases 16 - d,
{
    if d < 16 {
        lemma_first_waiting_least(tasks, receiver, src, start, d + 1);
        if waiting_sender(tasks, receiver, src, (start + d) % 16) {
            let j = (start + d) % 16;
            assert(rr_offset(start, j) == d);
        }
    }
}

/// Receives serve waiting senders in turn: the sender a receive delivers is,
/// among the accepted waiting senders, the first in the slot order that
/// starts after the sender served last.  So a sender `i` that keeps waiting
/// is passed over by fewer receives each time: its distance from the next
/// starting point shrinks, and it is served within 16 receives.
#[verifier::spinoff_prover]
#[verifier::rlimit(30)]
pub proof fn law_recv_round_robin(tasks: Seq<Task>, cur: usize, src: usize, msg_ptr: usize, i: int)
    requires
        tasks.len() == MAX_TASKS,
        cur < MAX_TASKS,
        tasks[cur as int].last_sender < MAX_TASKS,
        0 <= i < MAX_TASKS,
        waiting_sender(tasks, cur, src, i),
        src == IPC_WILDCARD ==> tasks[cur as int].ipc_notifications == 0,
    ensures
        ({
            let start = (tasks[cur as int].last_sender + 1) % 16;
            let (t, o) = recv_spec(tasks, cur, src, msg_ptr);
            &&& o.action matches IpcAction::Deliver { sender, .. }
            &&& rr_offset(start, sender as int) <= rr_offset(start, i)
            &&& t[cur as int].last_sender == sender as usize
            &&& sender as int != i ==> rr_offset((sender as int + 1) % 16, i) < rr_offset(start, i)
        }),
{
    let start = (tasks[cur as int].last_sender + 1) % 16;
    if src != IPC_WILDCARD {
        assert(src == i);
    }
    lemma_first_waiting_finds(tasks, cur, src, start, i);
    lemma_first_waiting_least(tasks, cur, src, start, 0);
    let j = first_waiting(tasks, cur, src, start, 0)->0;
    let e = rr_offset(start, j);
    let ki = rr_offset(start, i);
    assert((start + ki) % 16 == i);
    assert(waiting_sender(tasks, cur, src, (start + ki) % 16));
    assert(e <= ki);
    if j != i {
        assert(e < ki);
        assert(rr_offset((j + 1) % 16, i) == ki - e - 1);
    }
}

/// The task the ready-search picks is ready and in range.
proof fn lemma_first_ready_is_ready(tasks: Seq<Task>, cur: int, d: int)
    requires
        0 <= cur < 16,
        tasks.len() == 16,
    ensures
        first_ready(tasks, cur, d) matches Some(n) ==> 0 <= n < 16 && tasks[n].status
            == TaskStatus::Ready,
    decreases 17 - d,
{
    if 1 <= d <= 16 && tasks[(cur + d) % 16].status != TaskStatus::Ready {
        lemma_first_ready_is_ready(tasks, cur, d + 1);
    }
}

/// Scheduling only moves the CPU: it changes no task but the one it picks,
/// which was ready and becomes running, and the current task, which goes
/// from running back to ready.  A task blocked in a send or a receive (or
/// unused, or exited) keeps its state, the current one included, so a
/// blocked receive is only ever ended by a delivery.
pub proof fn law_schedule_keeps_waiting_tasks(tasks: Seq<Task>, cur: usize)
    requires
        tasks.len() == MAX_TASKS,
        cur < MAX_TASKS,
    ensures
        ({
            let (t, next, d) = schedule_spec(tasks, cur);
            &&& t.len() == tasks.len()
            &&& forall|i: int|
                0 <= i < MAX_TASKS && tasks[i].status != TaskStatus::Running && tasks[i].status
                    != TaskStatus::Ready ==> #[trigger] t[i] == tasks[i]
            &&& forall|i: int|
                0 <= i < MAX_TASKS && i != next && i != cur ==> #[trigger] t[i] == tasks[i]
            &&& d matches ScheduleDecision::Switch { from, to } ==> {
                &&& from == cur
                &&& to == next
                &&& tasks[next as int].status == TaskStatus::Ready
                &&& t[next as int].status == TaskStatus::Running
                &&& (tasks[cur as int].status == TaskStatus::Running && next != cur) ==> t[cur as int].status
                    == TaskStatus::Ready
            }
        }),
{
    lemma_first_ready_is_ready(tasks, cur as int, 1);
}

/// Synchronous rendezvous: a message sent to a task that is not waiting
/// for it blocks the sender, and the receiver's next receive from that
/// sender delivers exactly that message (from the sender's buffer, stamped
/// with the sender's id) and makes the sender ready again.
pub proof fn law_send_then_recv(tasks: Seq<Task>, s: usize, r: usize, send_ptr: usize, recv_ptr: usize)
    requires
        tasks.len() == MAX_TASKS,
        s < MAX_TASKS,
        r < MAX_TASKS,
        s != r,
        tasks[r as int].last_sender < MAX_TASKS,
        is_active(tasks[r as int].status),
        !(tasks[r as int].status == TaskStatus::BlockedRecv && (tasks[r as int].ipc_partner == s
            || tasks[r as int].ipc_partner == IPC_WILDCARD)),
    ensures
        ({
            let (t1, o1) = send_spec(tasks, s, r, send_ptr);
            let (t2, o2) = recv_spec(t1, r, s, recv_ptr);
            &&& o1 == (IpcOutcome { result: 0, action: IpcAction::Block })
            &&& t1[s as int].status == TaskStatus::BlockedSend
            &&& o2.result == 0
            &&& o2.action == (IpcAction::Deliver {
                from_ptr: send_ptr,
                to_ptr: recv_ptr,
                sender: s as u32,
                wake_tf: tasks[s as int].tf_addr,
            })
            &&& t2[s as int].status == TaskStatus::Ready
        }),
{
    let (t1, o1) = send_spec(tasks, s, r, send_ptr);
    assert(waiting_sender(t1, r, s, s as int));
    lemma_first_waiting_finds(t1, r, s, (t1[r as int].last_sender + 1) % 16, s as int);
}

/// Reply-and-receive is a send followed by a receive, also when the reply
/// cannot be delivered at once: the reply blocks the replier (so
/// `sys_ipc_reply_recv` leaves the state of the blocked send and no receive
/// yet); the addressee's next receive from the replier takes exactly the
/// reply and makes the replier ready; the replier then completes the call
/// with `resume_reply_recv`, the receive from `src` in the state it finds,
/// and its result is the call's result.  When the reply is delivered at
/// once, the receive follows in the same call (`sys_ipc_reply_recv`).
pub proof fn law_reply_recv_blocked(
    tasks: Seq<Task>,
    cur: usize,
    dest: usize,
    reply_ptr: usize,
    src: usize,
    recv_ptr: usize,
    dest_ptr: usize,
)
    requires
        tasks.len() == MAX_TASKS,
        cur < MAX_TASKS,
        dest < MAX_TASKS,
        cur != dest,
        tasks[dest as int].last_sender < MAX_TASKS,
        is_active(tasks[dest as int].status),
        !(tasks[dest as int].status == TaskStatus::BlockedRecv && (tasks[dest as int].ipc_partner
            == cur || tasks[dest as int].ipc_partner == IPC_WILDCARD)),
    ensures
        ({
            let (t1, so) = send_spec(tasks, cur, dest, reply_ptr);
            let (t2, o2) = recv_spec(t1, dest, cur, dest_ptr);
            &&& so == (IpcOutcome { result: 0, action: IpcAction::Block })
            &&& t1[cur as int].status == TaskStatus::BlockedSend
            &&& o2.result == 0
            &&& o2.action == (IpcAction::Deliver {
                from_ptr: reply_ptr,
                to_ptr: dest_ptr,
                sender: cur as u32,
                wake_tf: tasks[cur as int].tf_addr,
            })
            &&& t2[cur as int].status == TaskStatus::Ready
        }),
{
    law_send_then_recv(tasks, cur, dest, reply_ptr, dest_ptr);
}

/// Notifications add up: two notifications to an active task that is not
/// waiting to receive from anyone leave it the union of all bits, and its
/// next receive from anyone delivers that union at once and clears it.
pub proof fn law_notifications_accumulate(tasks: Seq<Task>, d: usize, b1: u32, b2: u32, msg_ptr: usize)
    requires
        tasks.len() == MAX_TASKS,
        d < MAX_TASKS,
        is_active(tasks[d as int].status),
        !(tasks[d as int].status == TaskStatus::BlockedRecv && tasks[d as int].ipc_partner
            == IPC_WILDCARD),
        (tasks[d as int].ipc_notifications | b1) | b2 != 0,
    ensures
        ({
            let all = (tasks[d as int].ipc_notifications | b1) | b2;
            let (t1, o1) = notify_spec(tasks, d, b1);
            let (t2, o2) = notify_spec(t1, d, b2);
            let (t3, o3) = recv_spec(t2, d, IPC_WILDCARD, msg_ptr);
            &&& o1 == (IpcOutcome { result: 0, action: IpcAction::Nothing })
            &&& o2 == (IpcOutcome { result: 0, action: IpcAction::Nothing })
            &&& t2[d as int].ipc_notifications == all
            &&& o3 == (IpcOutcome {
                result: 0,
                action: IpcAction::Notify { to_ptr: msg_ptr, bits: all, wake_tf: 0 },
            })
            &&& t3[d as int].ipc_notifications == 0
        }),
{
}

} // verus!
