use lib::ipc::{
    ns_lookup, ns_register, ns_request, payload_from, put_u32, str_to_u8_16, u16_from_bytes,
    u32_from_bytes, u32_to_bytes, NS_CMD_LOOKUP, NS_RESP_ERROR, NS_RESP_SUCCESS,
};
use lib::task::{IpcAction, IpcMessage, SimpleScheduler, TaskStatus, MAX_TASKS};
use lib::text::{contains_bytes, hex_bytes};
use lib::trap::{
    classify_trap, create_user_task, handle_external_interrupt, handle_supervisor_ecall,
    handle_user_ecall, initial_user_frame, instruction_length, plic_enable_irq, skip_breakpoint,
    user_sstatus, write_visible, ExternalIrq, SupervisorCall, SyscallAction, TrapCause, TrapFrame,
    TRAP_FRAME_SIZE, handle_trap, TrapAction,
};

fn frame(call: usize, args: &[usize]) -> TrapFrame {
    let mut tf = TrapFrame { regs: [0; 32], sstatus: 0x22, sepc: 0x4020_0100 };
    tf.regs[17] = call;
    for (i, &a) in args.iter().enumerate() {
        tf.regs[10 + i] = a;
    }
    tf
}

#[test]
fn trap_causes_from_scause() {
    let irq = 1u64 << 63;
    assert_eq!(classify_trap(irq | 5), TrapCause::TimerInterrupt);
    assert_eq!(classify_trap(irq | 9), TrapCause::ExternalInterrupt);
    assert_eq!(classify_trap(irq | 1), TrapCause::OtherInterrupt(1));
    assert_eq!(classify_trap(3), TrapCause::Breakpoint);
    assert_eq!(classify_trap(8), TrapCause::UserEcall);
    assert_eq!(classify_trap(9), TrapCause::SupervisorEcall);
    assert_eq!(classify_trap(2), TrapCause::IllegalInstruction);
    assert_eq!(classify_trap(13), TrapCause::PageFault(13));
    assert_eq!(classify_trap(7), TrapCause::Fatal(7));
}

#[test]
fn breakpoints_are_stepped_over() {
    assert_eq!(instruction_length(0x0073), 4);
    assert_eq!(instruction_length(0x9002), 2);
    let mut tf = frame(0, &[]);
    skip_breakpoint(&mut tf, 0x9002);
    assert_eq!(tf.sepc, 0x4020_0102);
    skip_breakpoint(&mut tf, 0x0073);
    assert_eq!(tf.sepc, 0x4020_0106);
}

#[test]
fn writes_are_filtered_by_log_level() {
    assert!(write_visible(1, 0));
    assert!(!write_visible(2, 0));
    assert!(write_visible(2, 1));
    assert!(!write_visible(3, 1));
    assert!(write_visible(3, 2));
    assert!(!write_visible(4, 2));
    assert!(write_visible(4, 3));
    assert!(!write_visible(5, 3));
}

#[test]
fn user_calls_step_over_the_ecall() {
    let mut s = SimpleScheduler::new();
    let mut tf = frame(1, &[b'x' as usize]);
    assert!(matches!(handle_user_ecall(&mut s, &mut tf, 0), SyscallAction::Putchar { c: 120 }));
    assert_eq!(tf.sepc, 0x4020_0104);
    assert_eq!(tf.regs[10], 0);
    let mut tf = frame(3, &[3, 0x1000, 5]);
    match handle_user_ecall(&mut s, &mut tf, 1) {
        SyscallAction::Write { fd, ptr, len, visible } => {
            assert_eq!((fd, ptr, len, visible), (3, 0x1000, 5, false));
        }
        _ => panic!("a write"),
    }
    let mut tf = frame(10, &[]);
    assert!(matches!(handle_user_ecall(&mut s, &mut tf, 0), SyscallAction::Yield));
    let mut tf = frame(2, &[]);
    assert!(matches!(handle_user_ecall(&mut s, &mut tf, 0), SyscallAction::Exit));
    let mut tf = frame(99, &[]);
    assert!(matches!(handle_user_ecall(&mut s, &mut tf, 0), SyscallAction::Unknown { id: 99 }));
    assert_eq!(tf.sepc, 0x4020_0104);
}

#[test]
fn ipc_calls_put_their_code_in_a0() {
    let mut s = SimpleScheduler::new();
    let mut tf = frame(4, &[0, 0x100]);
    match handle_user_ecall(&mut s, &mut tf, 0) {
        SyscallAction::Ipc { outcome } => assert_eq!(outcome.result, -1),
        _ => panic!("an IPC call"),
    }
    assert_eq!(tf.regs[10], -1isize as usize);
    let mut tf = frame(7, &[5, 1]);
    handle_user_ecall(&mut s, &mut tf, 0);
    assert_eq!(tf.regs[10], -2isize as usize);
    let mut tf = frame(5, &[MAX_TASKS + 1, 0x200]);
    handle_user_ecall(&mut s, &mut tf, 0);
    assert_eq!(tf.regs[10], -1isize as usize);
    let mut tf = frame(6, &[0, 0x100, usize::MAX, 0x300]);
    match handle_user_ecall(&mut s, &mut tf, 0) {
        SyscallAction::ReplyRecv { reply, src, recv_ptr } => {
            assert_eq!(reply.send.result, -1);
            assert!(reply.recv.is_none());
            assert_eq!((src, recv_ptr), (usize::MAX, 0x300));
        }
        _ => panic!("a reply and receive"),
    }
}

#[test]
fn supervisor_calls() {
    let mut tf = frame(1, &[]);
    assert_eq!(handle_supervisor_ecall(&mut tf), SupervisorCall::Yield);
    assert_eq!(tf.sepc, 0x4020_0104);
    let mut tf = frame(2, &[]);
    assert_eq!(handle_supervisor_ecall(&mut tf), SupervisorCall::Exit);
    assert_eq!(tf.sepc, 0x4020_0100);
    let mut tf = frame(8, &[]);
    assert_eq!(handle_supervisor_ecall(&mut tf), SupervisorCall::Other);
    assert_eq!(tf.sepc, 0x4020_0104);
}

#[test]
fn user_tasks_start_in_user_mode() {
    assert_eq!(user_sstatus(0x122), 0x40022);
    assert_eq!(user_sstatus(0), 0x40020);
    let tf = initial_user_frame(0x4020_0000, 0x8100_0000, 0x40020);
    assert_eq!(tf.sepc, 0x4020_0000);
    assert_eq!(tf.regs[2], 0x8100_0000);
    assert_eq!(tf.regs[10], 0);
    let mut s = SimpleScheduler::new();
    let (tf, at) = create_user_task(&mut s, 5, 0x4020_0800, 0x8200_1000, 0x8300_1000, 0x100, 0x8020_0040);
    assert_eq!(at, 0x8200_1000 - TRAP_FRAME_SIZE);
    assert_eq!(tf.sstatus, 0x40020);
    assert_eq!(tf.sepc, 0x4020_0800);
    assert_eq!(tf.regs[2], 0x8300_1000);
    assert_eq!(s.tasks[5].status, TaskStatus::Ready);
    assert_eq!(s.tasks[5].context.ra, 0x8020_0040);
    assert_eq!(s.tasks[5].context.sp, at);
}

#[test]
fn keyboard_interrupt_notifies_the_input_server() {
    let mut s = SimpleScheduler::new();
    s.create_task(4, lib::task::TaskContext::zero());
    match handle_external_interrupt(&mut s, 7) {
        ExternalIrq::Input { irq, device_base, notify } => {
            assert_eq!((irq, device_base), (7, 0x1000_7000));
            assert_eq!(notify.result, 0);
            assert!(matches!(notify.action, IpcAction::Nothing));
        }
        _ => panic!("an input interrupt"),
    }
    assert_eq!(s.tasks[4].ipc_notifications, 1);
    assert!(matches!(handle_external_interrupt(&mut s, 0), ExternalIrq::Spurious));
    assert!(matches!(handle_external_interrupt(&mut s, 10), ExternalIrq::Other { irq: 10 }));
}

#[test]
fn plic_registers_of_an_interrupt() {
    let p = plic_enable_irq(7);
    assert_eq!((p.priority_addr, p.enable_addr, p.mask), (0x0c00_001c, 0x0c00_2080, 1 << 7));
    let p = plic_enable_irq(33);
    assert_eq!((p.enable_addr, p.mask), (0x0c00_2084, 2));
}

#[test]
fn hex_text_of_numbers() {
    assert_eq!(&hex_bytes(0), b"0x0000000000000000");
    assert_eq!(&hex_bytes(0x1234_abcd), b"0x000000001234abcd");
    assert_eq!(&hex_bytes(u64::MAX), b"0xffffffffffffffff");
}

#[test]
fn byte_search() {
    assert!(contains_bytes(b"console=ttyS0 quiet", b"quiet"));
    assert!(contains_bytes(b"abc", b""));
    assert!(!contains_bytes(b"ab", b"abc"));
    assert!(!contains_bytes(b"loglevel=1", b"loglevel=2"));
}

#[test]
fn little_endian_fields() {
    assert_eq!(u32_to_bytes(0x0a0b_0c0d), [0x0d, 0x0c, 0x0b, 0x0a]);
    let mut p = [0u8; 32];
    put_u32(&mut p, 4, 0xdead_beef);
    assert_eq!(u32_from_bytes(&p, 4), 0xdead_beef);
    assert_eq!(u16_from_bytes(&p, 4), 0xbeef);
    assert_eq!(&payload_from(&[1, 2, 3])[0..4], &[1, 2, 3, 0]);
    assert_eq!(payload_from(&[9u8; 40]), [9u8; 32]);
}

#[test]
fn name_server_messages() {
    assert_eq!(&str_to_u8_16("display"), b"display\0\0\0\0\0\0\0\0\0");
    assert_eq!(&str_to_u8_16("a-very-long-service-name"), b"a-very-long-serv");
    let m = ns_request(NS_CMD_LOOKUP, "vfs");
    assert_eq!((m.msg_type, m.length), (NS_CMD_LOOKUP, 16));
    assert_eq!(&m.payload[0..4], b"vfs\0");
    let mut reply = IpcMessage::new(NS_RESP_SUCCESS, 4);
    reply.payload[16..20].copy_from_slice(&7u32.to_le_bytes());
    assert_eq!(ns_lookup(0, 0, &reply), Some(7));
    assert_eq!(ns_lookup(0, -1, &reply), None);
    assert!(ns_register(0, 0, &reply));
    reply.msg_type = NS_RESP_ERROR;
    assert_eq!(ns_lookup(0, 0, &reply), None);
    assert!(!ns_register(0, 0, &reply));
}

#[test]
fn traps_are_dispatched_by_cause() {
    let irq = 1u64 << 63;
    let mut s = SimpleScheduler::new();
    create_user_task(&mut s, 1, 0x4020_0000, 0x8060_4000, 0x4070_4000, 0, 0x8020_0100);
    let mut tf = frame(1, &[b'x' as usize]);
    match handle_trap(&mut s, &mut tf, 0x8050_0000, 8, 2) {
        TrapAction::Syscall { action: SyscallAction::Putchar { c } } => assert_eq!(c, b'x' as usize),
        _ => panic!("a user ecall is a system call"),
    }
    assert_eq!(tf.sepc, 0x4020_0104);
    assert_eq!(s.tasks[0].tf_addr, 0x8050_0000);
    match handle_trap(&mut s, &mut tf, 0x8050_0000, irq | 5, 2) {
        TrapAction::Timer { decision } => assert!(matches!(decision, lib::task::ScheduleDecision::Switch { from: 0, to: 1 })),
        _ => panic!("the timer runs the scheduler"),
    }
    assert_eq!(s.current_id, 1);
    assert!(matches!(handle_trap(&mut s, &mut tf, 0, irq | 9, 2), TrapAction::External));
    assert!(matches!(handle_trap(&mut s, &mut tf, 0, 3, 2), TrapAction::Breakpoint));
    assert!(matches!(handle_trap(&mut s, &mut tf, 0, 13, 2), TrapAction::Halt { cause: TrapCause::PageFault(13) }));
    let mut sup = frame(1, &[]);
    sup.sstatus = 0x100;
    match handle_trap(&mut s, &mut sup, 0x9000, 9, 2) {
        TrapAction::Supervisor { call } => assert_eq!(call, SupervisorCall::Yield),
        _ => panic!("a supervisor ecall"),
    }
    assert_eq!(sup.sepc, 0x4020_0104);
    assert_ne!(s.tasks[1].tf_addr, 0x9000);
}
