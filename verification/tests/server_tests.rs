use lib::block_server::{get_simulated_chunk, handle_block_request};
use lib::drivers::gpu::{Framebuffer, SCREEN_PIXELS};
use lib::drivers::input::VirtioInputEvent;
use lib::gpu_server::{serve_display, GPU_RESP_OK, GPU_RESP_UNKNOWN};
use lib::input_server::{keycode_to_char, InputServer, KeyQueue};
use lib::ipc::{
    make_vfs_open_msg, make_vfs_read_resp, BLOCK_CMD_READ, BLOCK_CMD_WRITE, BLOCK_RESP_ERR,
    BLOCK_RESP_OK, INPUT_CMD_GET_KEY, INPUT_RESP_EMPTY, INPUT_RESP_KEY, NET_CMD_GET_HTTP,
    NET_CMD_STATUS, NET_RESP_ERR, NET_RESP_OK, NS_CMD_LOOKUP, NS_CMD_REGISTER, NS_RESP_ERROR,
    NS_RESP_SUCCESS, VFS_CMD_CLOSE, VFS_CMD_READ, VFS_RESP_ERR, VFS_RESP_OK,
};
use lib::nameserver::ServiceTable;
use lib::ipc::{NsAction, NsCall};
use lib::net_server::NetServer;
use lib::task::IpcMessage;
use lib::vfs_server::{
    block_read_request, finish_read, match_dir_entry, path_to_fat16, DirScan, ScanStep, VfsServer,
    VfsStep,
};

/// The colour of pixel (x, y) in the start-up test pattern.
fn pattern_pixel(x: u32, y: u32) -> u32 {
    let r = x * 255 / 640;
    let g = y * 255 / 480;
    let b = (x + y) * 255 / 1120;
    0xFF00_0000 | (r << 16) | (g << 8) | b
}

fn msg(msg_type: u32, sender: u32) -> IpcMessage {
    let mut m = IpcMessage::new(msg_type, 0);
    m.sender = sender;
    m
}

fn name16(s: &str) -> [u8; 16] {
    let mut n = [0u8; 16];
    n[..s.len()].copy_from_slice(s.as_bytes());
    n
}

#[test]
fn boot_sector_carries_signature() {
    let head = get_simulated_chunk(0, 0);
    assert_eq!(&head[0..3], &[0xEB, 0x3C, 0x90]);
    assert_eq!(&head[3..11], b"AETHERV ");
    assert_eq!(&head[11..16], &[0x00, 0x02, 0x01, 0x01, 0x00]);
    let tail = get_simulated_chunk(0, 15);
    assert_eq!((tail[30], tail[31]), (0x55, 0xAA));
    assert_eq!(get_simulated_chunk(0, 7), [0u8; 32]);
}

#[test]
fn root_directory_lists_three_files() {
    let e = get_simulated_chunk(1, 2);
    assert_eq!(&e[0..11], b"PERSIST DAT");
    assert_eq!(e[11], 0x20);
    assert_eq!((e[26], e[27]), (4, 0));
    assert_eq!(&e[28..32], &12u32.to_le_bytes());
    assert_eq!(&get_simulated_chunk(1, 0)[0..11], b"README  TXT");
    assert_eq!(&get_simulated_chunk(1, 1)[0..11], b"CONFIG  SYS");
    assert_eq!(get_simulated_chunk(1, 3), [0u8; 32]);
}

#[test]
fn file_data_sectors() {
    let d = get_simulated_chunk(4, 0);
    assert_eq!(&d[0..12], b"system_ok=1\n");
    assert!(d[12..].iter().all(|&b| b == 0));
    let c = get_simulated_chunk(3, 0);
    assert_eq!(&c[0..23], b"boot_device=virtio-blk\n");
    let r = get_simulated_chunk(2, 0);
    assert_eq!(&r[..], &b"AetherV OS - Persistent Block Dev\n"[..32]);
    assert_eq!(get_simulated_chunk(9, 0), [0u8; 32]);
}

#[test]
fn block_requests_and_errors() {
    let reply = handle_block_request(&block_read_request(4, 0));
    assert_eq!(reply.msg_type, BLOCK_RESP_OK);
    assert_eq!(reply.length, 32);
    assert_eq!(&reply.payload[0..11], b"system_ok=1");
    let w = handle_block_request(&msg(BLOCK_CMD_WRITE, 7));
    assert_eq!((w.msg_type, w.length), (BLOCK_RESP_OK, 0));
    let e = handle_block_request(&msg(77, 7));
    assert_eq!((e.msg_type, e.length), (BLOCK_RESP_ERR, 0));
}

#[test]
fn block_read_request_layout() {
    let m = block_read_request(0x0102_0304, 5);
    assert_eq!(m.msg_type, BLOCK_CMD_READ);
    assert_eq!(m.length, 8);
    assert_eq!(&m.payload[0..8], &[4, 3, 2, 1, 5, 0, 0, 0]);
}

#[test]
fn paths_become_fat16_names() {
    assert_eq!(&path_to_fat16(b"/readme.txt"), b"README  TXT");
    assert_eq!(&path_to_fat16(b"/persist.dat"), b"PERSIST DAT");
    assert_eq!(&path_to_fat16(b"config.sys"), b"CONFIG  SYS");
    assert_eq!(&path_to_fat16(b"/averyverylongname.text"), b"AVERYVERTEX");
    assert_eq!(&path_to_fat16(b"/noext"), b"NOEXT      ");
}

/// Runs the file server's open through the block server, as the serving
/// loop does.
fn open(vfs: &mut VfsServer, client: u32, path: &[u8]) -> IpcMessage {
    let mut req = make_vfs_open_msg(path);
    req.sender = client;
    match vfs.handle_request(&req) {
        VfsStep::ScanDirectory { target } => {
            let (mut scan, mut request) = DirScan::new(target);
            let found = loop {
                let reply = handle_block_request(&request);
                match scan.answer(0, 0, &reply) {
                    ScanStep::Ask { request: next } => request = next,
                    ScanStep::Done { found } => break found,
                }
            };
            vfs.finish_open(client as usize, found)
        }
        _ => panic!("an open scans the directory"),
    }
}

fn read(vfs: &mut VfsServer, client: u32) -> IpcMessage {
    match vfs.handle_request(&msg(VFS_CMD_READ, client)) {
        VfsStep::ReadData { request, file } => {
            let reply = handle_block_request(&request);
            finish_read(file, 0, 0, &reply)
        }
        VfsStep::Reply(m) => m,
        _ => panic!("unexpected step"),
    }
}

#[test]
fn cat_persist_dat_reads_system_ok() {
    let mut vfs = VfsServer::new();
    let opened = open(&mut vfs, 9, b"/persist.dat");
    assert_eq!(opened.msg_type, VFS_RESP_OK);
    assert_eq!(opened.length, 4);
    assert_eq!(&opened.payload[0..4], &12u32.to_le_bytes());
    let data = read(&mut vfs, 9);
    assert_eq!(data.msg_type, VFS_RESP_OK);
    assert_eq!(data.length, 12);
    assert_eq!(&data.payload[..12], b"system_ok=1\n");
}

#[test]
fn readme_read_is_cut_to_one_payload() {
    let mut vfs = VfsServer::new();
    assert_eq!(open(&mut vfs, 8, b"/readme.txt").msg_type, VFS_RESP_OK);
    let data = read(&mut vfs, 8);
    assert_eq!(data.length, 32);
    assert_eq!(&data.payload[..], &b"AetherV OS - Persistent Block Dev\n"[..32]);
}

#[test]
fn missing_file_and_read_without_open_fail() {
    let mut vfs = VfsServer::new();
    let r = open(&mut vfs, 9, b"/nothere.txt");
    assert_eq!((r.msg_type, r.length), (VFS_RESP_ERR, 0));
    let d = read(&mut vfs, 9);
    assert_eq!(d.msg_type, VFS_RESP_ERR);
}

#[test]
fn close_forgets_the_open_file() {
    let mut vfs = VfsServer::new();
    open(&mut vfs, 9, b"/config.sys");
    match vfs.handle_request(&msg(VFS_CMD_CLOSE, 9)) {
        VfsStep::Reply(m) => assert_eq!(m.msg_type, VFS_RESP_OK),
        _ => panic!("close answers at once"),
    }
    assert!(vfs.open_files[9].is_none());
    assert_eq!(read(&mut vfs, 9).msg_type, VFS_RESP_ERR);
}

#[test]
fn failed_block_exchange_fails_the_read() {
    let f = lib::vfs_server::OpenFile { cluster: 4, size: 12 };
    let reply = handle_block_request(&block_read_request(4, 0));
    let r = finish_read(f, -1, 0, &reply);
    assert_eq!((r.msg_type, r.length), (VFS_RESP_ERR, 0));
}

#[test]
fn vfs_messages_are_cut_to_payload() {
    let m = make_vfs_read_resp(&[7u8; 40]);
    assert_eq!(m.length, 32);
    assert_eq!(m.payload, [7u8; 32]);
    let o = make_vfs_open_msg(b"/a");
    assert_eq!(o.length, 2);
    assert_eq!(&o.payload[0..3], b"/a\0");
}

#[test]
fn register_then_lookup() {
    let mut ns = ServiceTable::new();
    let mut reg = msg(NS_CMD_REGISTER, 2);
    reg.payload[0..16].copy_from_slice(&name16("wm"));
    let (dest, reply) = ns.handle_request(&reg);
    assert_eq!(dest, 2);
    assert_eq!(reply.msg_type, NS_RESP_SUCCESS);
    assert_eq!(reply.sender, 3);
    let mut look = msg(NS_CMD_LOOKUP, 9);
    look.payload[0..16].copy_from_slice(&name16("wm"));
    let (dest, reply) = ns.handle_request(&look);
    assert_eq!(dest, 9);
    assert_eq!(reply.msg_type, NS_RESP_SUCCESS);
    assert_eq!(reply.length, 4);
    assert_eq!(&reply.payload[16..20], &2u32.to_le_bytes());
    look.payload[0..16].copy_from_slice(&name16("vfs"));
    assert_eq!(ns.handle_request(&look).1.msg_type, NS_RESP_ERROR);
    assert_eq!(ns.handle_request(&msg(5, 1)).1.msg_type, NS_RESP_ERROR);
}

#[test]
fn registering_again_replaces_the_task() {
    let mut ns = ServiceTable::new();
    assert!(ns.register(name16("net"), 10));
    assert!(ns.register(name16("net"), 12));
    assert_eq!(ns.lookup(&name16("net")), Some(12));
    assert_eq!(ns.lookup(&name16("ne")), None);
}

#[test]
fn table_of_eight_services_is_full() {
    let mut ns = ServiceTable::new();
    for i in 0..8 {
        assert!(ns.register(name16(&format!("svc{}", i)), i));
    }
    assert!(!ns.register(name16("ninth"), 9));
    assert_eq!(ns.lookup(&name16("svc7")), Some(7));
}

#[test]
fn key_codes_to_characters() {
    assert_eq!(keycode_to_char(30, false), Some('a'));
    assert_eq!(keycode_to_char(30, true), Some('A'));
    assert_eq!(keycode_to_char(2, true), Some('!'));
    assert_eq!(keycode_to_char(8, true), Some('/'));
    assert_eq!(keycode_to_char(28, false), Some('\n'));
    assert_eq!(keycode_to_char(57, false), Some(' '));
    assert_eq!(keycode_to_char(29, false), None);
    assert_eq!(keycode_to_char(58, false), None);
}

#[test]
fn key_queue_is_first_in_first_out() {
    let mut q = KeyQueue::new();
    assert_eq!(q.pop_key(), None);
    q.push_key('h');
    q.push_key('i');
    assert_eq!(q.pop_key(), Some('h'));
    assert_eq!(q.pop_key(), Some('i'));
    assert_eq!(q.pop_key(), None);
}

#[test]
fn key_queue_drops_keys_when_full() {
    let mut q = KeyQueue::new();
    for _ in 0..63 {
        q.push_key('x');
    }
    q.push_key('y');
    let mut n = 0;
    while let Some(c) = q.pop_key() {
        assert_eq!(c, 'x');
        n += 1;
    }
    assert_eq!(n, 63);
}

fn key(code: u16, value: u32) -> VirtioInputEvent {
    VirtioInputEvent { event_type: 1, code, value }
}

#[test]
fn input_server_queues_pressed_keys_with_shift() {
    let mut s = InputServer::new();
    s.handle_event(key(35, 1));
    s.handle_event(key(35, 0));
    s.handle_event(key(42, 1));
    s.handle_event(key(18, 1));
    s.handle_event(key(42, 0));
    s.handle_event(key(18, 2));
    s.handle_event(VirtioInputEvent { event_type: 0, code: 30, value: 1 });
    let req = msg(INPUT_CMD_GET_KEY, 9);
    let mut got = Vec::new();
    loop {
        let r = s.handle_request(&req);
        assert_eq!(r.sender, 4);
        if r.msg_type == INPUT_RESP_EMPTY {
            break;
        }
        assert_eq!(r.msg_type, INPUT_RESP_KEY);
        assert_eq!(r.length, 1);
        got.push(r.payload[0]);
    }
    assert_eq!(got, b"hEe".to_vec());
    assert_eq!(s.handle_request(&msg(1, 9)).msg_type, NS_RESP_ERROR);
}

#[test]
fn net_status_and_web_answers() {
    let mut net = NetServer::new(false);
    let st = net.handle_request(&msg(NET_CMD_STATUS, 9));
    assert_eq!((st.msg_type, st.length), (NET_RESP_OK, 32));
    assert_eq!(&st.payload[0..16], b"192.168.1.10\0\0\0\0");
    assert_eq!(&st.payload[16..20], &143u32.to_le_bytes());
    assert_eq!(&st.payload[20..24], &89u32.to_le_bytes());
    assert_eq!(st.payload[24], 0);
    let web = net.handle_request(&msg(NET_CMD_GET_HTTP, 9));
    assert_eq!(&web.payload[..], b"HTTP/1.1 200 OK\nSrv: AetherV-Web");
    assert_eq!((net.packets_rx, net.packets_tx), (144, 90));
    let err = net.handle_request(&msg(1, 9));
    assert_eq!((err.msg_type, err.length), (NET_RESP_ERR, 0));
    assert_eq!(net.packets_rx, 144);
    let mut real = NetServer::new(true);
    assert_eq!(real.handle_request(&msg(NET_CMD_STATUS, 9)).payload[24], 1);
}

#[test]
fn display_requests() {
    let mut fb = Framebuffer::new();
    let mut fill = msg(2, 2);
    fill.payload[0..3].copy_from_slice(&[0x12, 0x34, 0x56]);
    let r = serve_display(&mut fb, &fill);
    assert_eq!(r.reply.msg_type, GPU_RESP_OK);
    assert_eq!(r.reply.sender, 2);
    assert!(r.flush);
    assert_eq!(fb.pixels.len(), SCREEN_PIXELS);
    assert!(fb.pixels.iter().all(|&p| p == 0xFF12_3456));
    let r = serve_display(&mut fb, &msg(1, 2));
    assert!(r.flush);
    assert_eq!(fb.pixels[0], pattern_pixel(0, 0));
    assert_eq!(fb.pixels[479 * 640 + 639], pattern_pixel(639, 479));
    assert_eq!(fb.pixels[479 * 640 + 639], 0xFFFE_FEFE);
    assert_eq!(fb.pixels[100 * 640 + 320], pattern_pixel(320, 100));
    let r = serve_display(&mut fb, &msg(3, 2));
    assert!(r.flush);
    assert_eq!(r.reply.msg_type, GPU_RESP_OK);
    let r = serve_display(&mut fb, &msg(9, 2));
    assert!(!r.flush);
    assert_eq!(r.reply.msg_type, GPU_RESP_UNKNOWN);
}

#[test]
fn directory_scan_asks_chunk_by_chunk() {
    let (mut scan, first) = DirScan::new(*b"CONFIG  SYS");
    assert_eq!(first.msg_type, BLOCK_CMD_READ);
    assert_eq!(first.payload, block_read_request(1, 0).payload);
    let chunk0 = handle_block_request(&first);
    let second = match scan.answer(0, 0, &chunk0) {
        ScanStep::Ask { request } => request,
        ScanStep::Done { .. } => panic!("the first entry is the readme"),
    };
    assert_eq!(second.payload, block_read_request(1, 1).payload);
    match scan.answer(0, 0, &handle_block_request(&second)) {
        ScanStep::Done { found: Some(f) } => assert_eq!(f.cluster, match_dir_entry(0, 0, &handle_block_request(&second), b"CONFIG  SYS").unwrap().cluster),
        _ => panic!("the second entry is the config file"),
    }
}

#[test]
fn directory_scan_gives_up_after_four_chunks() {
    let (mut scan, mut request) = DirScan::new(*b"MISSING TXT");
    let mut asked = 1;
    loop {
        match scan.answer(0, 0, &handle_block_request(&request)) {
            ScanStep::Ask { request: next } => {
                request = next;
                asked += 1;
            }
            ScanStep::Done { found } => {
                assert!(found.is_none());
                break;
            }
        }
    }
    assert_eq!(asked, 4);
    let (mut failing, _) = DirScan::new(*b"README  TXT");
    let reply = handle_block_request(&block_read_request(1, 0));
    match failing.answer(-1, 0, &reply) {
        ScanStep::Ask { request } => assert_eq!(request.payload, block_read_request(1, 1).payload),
        ScanStep::Done { .. } => panic!("a failed exchange moves on"),
    }
}

fn run_name_call(table: &mut ServiceTable, client: u32, cmd: u32, service: &str, send_ok: bool) -> (Option<usize>, usize) {
    let mut call = NsCall::new(cmd, service);
    let (mut result, mut reply) = (0isize, msg(0, 0));
    let mut answer = msg(0, 0);
    let mut ipc_calls = 0;
    loop {
        match call.step(result, &reply) {
            NsAction::Send { dest, msg: m } => {
                assert_eq!(dest, 3);
                ipc_calls += 1;
                if send_ok {
                    let mut stamped = m;
                    stamped.sender = client;
                    answer = table.handle_request(&stamped).1;
                    result = 0;
                } else {
                    result = -2;
                }
            }
            NsAction::Receive { src } => {
                assert_eq!(src, 3);
                ipc_calls += 1;
                result = 0;
                reply = answer;
            }
            NsAction::Finished { outcome } => return (outcome, ipc_calls),
        }
    }
}

#[test]
fn name_call_receives_only_after_a_good_send() {
    let mut table = ServiceTable::new();
    assert_eq!(run_name_call(&mut table, 7, NS_CMD_REGISTER, "vfs", true).1, 2);
    assert_eq!(run_name_call(&mut table, 9, NS_CMD_LOOKUP, "vfs", true), (Some(7), 2));
    assert_eq!(run_name_call(&mut table, 9, NS_CMD_LOOKUP, "net", true), (None, 2));
    assert_eq!(run_name_call(&mut table, 9, NS_CMD_LOOKUP, "vfs", false), (None, 1));
}

#[test]
fn file_server_answers_any_sender_when_no_table_slot_is_used() {
    let mut vfs = VfsServer::new();
    match vfs.handle_request(&msg(999, 40)) {
        VfsStep::Reply(m) => assert_eq!(m.msg_type, VFS_RESP_ERR),
        _ => panic!("an unknown command is refused"),
    }
    let reply = vfs.finish_open(40, None);
    assert_eq!(reply.msg_type, VFS_RESP_ERR);
    assert_eq!(reply.length, 0);
}
