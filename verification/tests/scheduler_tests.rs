use lib::trap::{resume_reply_recv, TrapFrame};
use lib::task::{
    stamp_sender, sys_ipc_notify, sys_ipc_recv, sys_ipc_reply_recv, sys_ipc_send,
    write_notification, IpcAction, IpcMessage, ScheduleDecision, SimpleScheduler, Task,
    TaskContext, TaskStatus, IPC_MSG_NOTIFICATION, IPC_SENDER_NOTIFICATION, IPC_WILDCARD,
    MAX_TASKS,
};

fn ready(sched: &mut SimpleScheduler, id: usize) {
    sched.create_task(id, TaskContext::zero());
}

/// A scheduler where `cur` runs and the listed tasks are ready.
fn running(cur: usize, others: &[usize]) -> SimpleScheduler {
    let mut s = SimpleScheduler::new();
    for &o in others {
        ready(&mut s, o);
    }
    if cur != 0 {
        ready(&mut s, cur);
        s.tasks[cur].status = TaskStatus::Running;
        s.tasks[0].status = TaskStatus::Ready;
        s.current_id = cur;
    }
    s
}

#[test]
fn new_scheduler_runs_slot_zero() {
    let s = SimpleScheduler::new();
    assert_eq!(s.tasks.len(), MAX_TASKS);
    assert_eq!(s.current_id, 0);
    assert_eq!(s.tasks[0].status, TaskStatus::Running);
    for i in 1..MAX_TASKS {
        assert_eq!(s.tasks[i].status, TaskStatus::Unused);
        assert_eq!(s.tasks[i].id, i);
    }
}

#[test]
fn task_new_is_unused_and_zero() {
    let t = Task::new(7);
    assert_eq!(t.id, 7);
    assert_eq!(t.status, TaskStatus::Unused);
    assert_eq!(t.context.ra, 0);
    assert_eq!(t.context.sp, 0);
    assert_eq!(t.ipc_notifications, 0);
    let z = TaskContext::zero();
    assert!(z.s.iter().all(|&r| r == 0));
}

#[test]
fn create_task_makes_slot_ready_with_context() {
    let mut s = SimpleScheduler::new();
    let ctx = TaskContext { ra: 0x1234, sp: 0x8000, s: [0; 12] };
    s.create_task(3, ctx);
    assert_eq!(s.tasks[3].status, TaskStatus::Ready);
    assert_eq!(s.tasks[3].context.ra, 0x1234);
    assert_eq!(s.tasks[3].context.sp, 0x8000);
    assert_eq!(s.current_id, 0);
}

#[test]
fn schedule_goes_round_robin() {
    let mut s = SimpleScheduler::new();
    ready(&mut s, 2);
    ready(&mut s, 5);
    assert_eq!(s.schedule(), ScheduleDecision::Switch { from: 0, to: 2 });
    assert_eq!(s.tasks[0].status, TaskStatus::Ready);
    assert_eq!(s.tasks[2].status, TaskStatus::Running);
    assert_eq!(s.current_id, 2);
    assert_eq!(s.schedule(), ScheduleDecision::Switch { from: 2, to: 5 });
    assert_eq!(s.schedule(), ScheduleDecision::Switch { from: 5, to: 0 });
    assert_eq!(s.schedule(), ScheduleDecision::Switch { from: 0, to: 2 });
}

#[test]
fn schedule_stays_when_nobody_else_is_ready() {
    let mut s = SimpleScheduler::new();
    assert_eq!(s.schedule(), ScheduleDecision::Stay);
    assert_eq!(s.current_id, 0);
    assert_eq!(s.tasks[0].status, TaskStatus::Running);
}

#[test]
fn exit_with_nothing_ready_idles() {
    let mut s = SimpleScheduler::new();
    assert_eq!(s.exit_current_task(), ScheduleDecision::Idle);
    assert_eq!(s.tasks[0].status, TaskStatus::Exited);
}

#[test]
fn exit_switches_to_next_ready_task() {
    let mut s = SimpleScheduler::new();
    ready(&mut s, 4);
    assert_eq!(s.exit_current_task(), ScheduleDecision::Switch { from: 0, to: 4 });
    assert_eq!(s.tasks[0].status, TaskStatus::Exited);
    assert_eq!(s.tasks[4].status, TaskStatus::Running);
}

#[test]
fn record_trap_frame_only_from_user_mode() {
    let mut s = SimpleScheduler::new();
    s.record_trap_frame(0, 0x9000);
    assert_eq!(s.tasks[0].tf_addr, 0x9000);
    s.record_trap_frame(1 << 8, 0xA000);
    assert_eq!(s.tasks[0].tf_addr, 0x9000);
}

#[test]
fn send_then_receive_is_a_rendezvous() {
    let mut s = running(1, &[2]);
    s.tasks[1].tf_addr = 0x1_0000;
    let o = sys_ipc_send(&mut s, 2, 0xAAA0);
    assert_eq!(o.result, 0);
    assert!(matches!(o.action, IpcAction::Block));
    assert_eq!(s.tasks[1].status, TaskStatus::BlockedSend);
    assert_eq!(s.tasks[1].ipc_partner, 2);
    // The receiver runs next and asks for task 1's message.
    s.tasks[2].status = TaskStatus::Running;
    s.current_id = 2;
    let r = sys_ipc_recv(&mut s, 1, 0xBBB0);
    assert_eq!(r.result, 0);
    match r.action {
        IpcAction::Deliver { from_ptr, to_ptr, sender, wake_tf } => {
            assert_eq!(from_ptr, 0xAAA0);
            assert_eq!(to_ptr, 0xBBB0);
            assert_eq!(sender, 1);
            assert_eq!(wake_tf, 0x1_0000);
        }
        _ => panic!("expected a delivery"),
    }
    assert_eq!(s.tasks[1].status, TaskStatus::Ready);
    assert_eq!(s.tasks[2].last_sender, 1);
}

#[test]
fn send_to_waiting_receiver_delivers_at_once() {
    let mut s = running(2, &[1]);
    s.tasks[2].tf_addr = 0x2_0000;
    let r = sys_ipc_recv(&mut s, IPC_WILDCARD, 0xCCC0);
    assert!(matches!(r.action, IpcAction::Block));
    assert_eq!(s.tasks[2].status, TaskStatus::BlockedRecv);
    s.tasks[1].status = TaskStatus::Running;
    s.current_id = 1;
    let o = sys_ipc_send(&mut s, 2, 0xDDD0);
    assert_eq!(o.result, 0);
    match o.action {
        IpcAction::Deliver { from_ptr, to_ptr, sender, wake_tf } => {
            assert_eq!((from_ptr, to_ptr, sender, wake_tf), (0xDDD0, 0xCCC0, 1, 0x2_0000));
        }
        _ => panic!("expected a delivery"),
    }
    assert_eq!(s.tasks[2].status, TaskStatus::Ready);
}

#[test]
fn receive_skips_to_a_waiting_sender() {
    let mut s = running(3, &[5, 6]);
    s.tasks[6].status = TaskStatus::BlockedSend;
    s.tasks[6].ipc_partner = 3;
    s.tasks[6].ipc_buffer_ptr = 0x6660;
    let r = sys_ipc_recv(&mut s, IPC_WILDCARD, 0x3330);
    assert_eq!(r.result, 0);
    assert!(matches!(r.action, IpcAction::Deliver { from_ptr: 0x6660, to_ptr: 0x3330, sender: 6, .. }));
    assert_eq!(s.tasks[6].status, TaskStatus::Ready);
}

#[test]
fn receive_from_anyone_takes_senders_round_robin() {
    let mut s = running(3, &[4, 5]);
    for i in [4usize, 5] {
        s.tasks[i].status = TaskStatus::BlockedSend;
        s.tasks[i].ipc_partner = 3;
    }
    s.tasks[3].last_sender = 4;
    let r = sys_ipc_recv(&mut s, IPC_WILDCARD, 0x10);
    assert!(matches!(r.action, IpcAction::Deliver { sender: 5, .. }));
    let r = sys_ipc_recv(&mut s, IPC_WILDCARD, 0x10);
    assert!(matches!(r.action, IpcAction::Deliver { sender: 4, .. }));
}

#[test]
fn ipc_errors() {
    let mut s = running(1, &[]);
    assert_eq!(sys_ipc_send(&mut s, 1, 0).result, -1);
    assert_eq!(sys_ipc_send(&mut s, MAX_TASKS, 0).result, -1);
    assert_eq!(sys_ipc_send(&mut s, 9, 0).result, -2);
    assert_eq!(sys_ipc_recv(&mut s, MAX_TASKS, 0).result, -1);
    assert_eq!(sys_ipc_notify(&mut s, MAX_TASKS, 1).result, -1);
    assert_eq!(sys_ipc_notify(&mut s, 9, 1).result, -2);
}

#[test]
fn notifications_accumulate_until_received() {
    let mut s = running(4, &[1]);
    let n1 = sys_ipc_notify(&mut s, 4, 1);
    let n2 = sys_ipc_notify(&mut s, 4, 4);
    assert_eq!((n1.result, n2.result), (0, 0));
    assert!(matches!(n2.action, IpcAction::Nothing));
    assert_eq!(s.tasks[4].ipc_notifications, 5);
    let r = sys_ipc_recv(&mut s, IPC_WILDCARD, 0x40);
    assert_eq!(r.result, 0);
    assert!(matches!(r.action, IpcAction::Notify { to_ptr: 0x40, bits: 5, wake_tf: 0 }));
    assert_eq!(s.tasks[4].ipc_notifications, 0);
}

#[test]
fn notification_wakes_a_receiver_waiting_for_anyone() {
    let mut s = running(4, &[1]);
    s.tasks[4].tf_addr = 0x4_0000;
    let r = sys_ipc_recv(&mut s, IPC_WILDCARD, 0x44);
    assert!(matches!(r.action, IpcAction::Block));
    let n = sys_ipc_notify(&mut s, 4, 2);
    assert!(matches!(n.action, IpcAction::Notify { to_ptr: 0x44, bits: 2, wake_tf: 0x4_0000 }));
    assert_eq!(s.tasks[4].status, TaskStatus::Ready);
    assert_eq!(s.tasks[4].ipc_notifications, 0);
}

#[test]
fn reply_then_receive() {
    let mut s = running(3, &[6]);
    s.tasks[6].status = TaskStatus::BlockedRecv;
    s.tasks[6].ipc_partner = 3;
    s.tasks[6].ipc_buffer_ptr = 0x600;
    let o = sys_ipc_reply_recv(&mut s, 6, 0x300, IPC_WILDCARD, 0x310);
    assert_eq!(o.send.result, 0);
    assert!(matches!(o.send.action, IpcAction::Deliver { to_ptr: 0x600, .. }));
    let recv = o.recv.expect("receive ran");
    assert!(matches!(recv.action, IpcAction::Block));
    assert_eq!(s.tasks[3].status, TaskStatus::BlockedRecv);
    let bad = sys_ipc_reply_recv(&mut s, MAX_TASKS, 0, IPC_WILDCARD, 0);
    assert_eq!(bad.send.result, -1);
    assert!(bad.recv.is_none());
}

#[test]
fn notification_message_layout() {
    let mut m = IpcMessage::new(7, 9);
    m.reserved = 3;
    m.payload[10] = 0xEE;
    write_notification(&mut m, 0x0403_0201);
    assert_eq!(m.sender, IPC_SENDER_NOTIFICATION);
    assert_eq!(m.msg_type, IPC_MSG_NOTIFICATION);
    assert_eq!(m.length, 4);
    assert_eq!(m.reserved, 3);
    assert_eq!(&m.payload[0..4], &[1, 2, 3, 4]);
    assert_eq!(m.payload[10], 0xEE);
}

#[test]
fn delivered_copy_carries_the_senders_id() {
    let mut m = IpcMessage::new(42, 3);
    m.sender = 99;
    m.payload[0] = 8;
    let c = stamp_sender(m, 5);
    assert_eq!(c.sender, 5);
    assert_eq!(c.msg_type, 42);
    assert_eq!(c.length, 3);
    assert_eq!(c.payload[0], 8);
}

#[test]
fn blocked_reply_finishes_with_the_receive_later() {
    let mut s = running(3, &[6, 8]);
    let o = sys_ipc_reply_recv(&mut s, 6, 0x300, 8, 0x310);
    assert!(matches!(o.send.action, IpcAction::Block));
    assert!(o.recv.is_none());
    // Task 6 takes the reply; task 3 runs again.
    s.current_id = 6;
    let taken = sys_ipc_recv(&mut s, 3, 0x600);
    assert!(matches!(taken.action, IpcAction::Deliver { from_ptr: 0x300, sender: 3, .. }));
    s.current_id = 3;
    s.tasks[8].status = TaskStatus::BlockedSend;
    s.tasks[8].ipc_partner = 3;
    s.tasks[8].ipc_buffer_ptr = 0x800;
    let mut tf = TrapFrame { regs: [7; 32], sstatus: 0, sepc: 0x10 };
    let r = resume_reply_recv(&mut s, &mut tf, 8, 0x310);
    assert!(matches!(r.action, IpcAction::Deliver { from_ptr: 0x800, to_ptr: 0x310, sender: 8, .. }));
    assert_eq!(tf.regs[10], 0);
    assert_eq!(tf.regs[11], 7);
    assert_eq!(s.tasks[8].status, TaskStatus::Ready);
}

#[test]
fn receives_serve_senders_in_turn() {
    let mut s = running(2, &[5, 9]);
    for &t in &[5usize, 9] {
        s.tasks[t].status = TaskStatus::BlockedSend;
        s.tasks[t].ipc_partner = 2;
    }
    let first = sys_ipc_recv(&mut s, IPC_WILDCARD, 0x20);
    assert!(matches!(first.action, IpcAction::Deliver { sender: 5, .. }));
    s.tasks[5].status = TaskStatus::BlockedSend;
    let second = sys_ipc_recv(&mut s, IPC_WILDCARD, 0x20);
    assert!(matches!(second.action, IpcAction::Deliver { sender: 9, .. }));
}
