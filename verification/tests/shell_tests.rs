use lib::ipc::{
    INPUT_RESP_EMPTY, INPUT_RESP_KEY, NET_CMD_GET_HTTP, NET_CMD_STATUS, NET_RESP_ERR, VFS_CMD_CLOSE,
    VFS_CMD_READ, VFS_RESP_ERR, VFS_RESP_OK, WM_CMD_DRAW_TEXT, WM_CMD_KEY,
};
use lib::net_server::NetServer;
use lib::shell::{
    curl_text, fixed_text, key_notice, key_poll, net_request, netstat_text, not_found,
    output_msg, parse_command, read_text, vfs_ok, vfs_request, CommandKind, CommandRun,
    CommandStage, KeyPoll, Peer, Shell, ShellKey,
};
use lib::task::IpcMessage;

fn submit(shell: &mut Shell, line: &[u8]) -> Option<(CommandKind, Vec<u8>)> {
    for &c in line {
        shell.handle_key(c);
    }
    match shell.handle_key(b'\n') {
        ShellKey::Submit { command } => command.map(|c| (c.kind, c.arg)),
        _ => panic!("enter submits the line"),
    }
}

#[test]
fn commands_are_recognised() {
    assert_eq!(parse_command(b"help").kind, CommandKind::Help);
    assert_eq!(parse_command(b"ls").kind, CommandKind::Ls);
    assert_eq!(parse_command(b"clear").kind, CommandKind::Clear);
    assert_eq!(parse_command(b"info").kind, CommandKind::Info);
    assert_eq!(parse_command(b"netstat").kind, CommandKind::Netstat);
    assert_eq!(parse_command(b"curl").kind, CommandKind::Curl);
    assert_eq!(parse_command(b"help me").kind, CommandKind::Unknown);
    assert_eq!(parse_command(b"lsx").kind, CommandKind::Unknown);
    assert_eq!(parse_command(b"").kind, CommandKind::Unknown);
    let cat = parse_command(b"cat /persist.dat");
    assert_eq!(cat.kind, CommandKind::Cat);
    assert_eq!(cat.arg, b"/persist.dat".to_vec());
    assert_eq!(parse_command(b"cat ").arg, Vec::<u8>::new());
    assert!(parse_command(b"help").arg.is_empty());
}

#[test]
fn a_line_that_is_not_utf8_is_unknown() {
    let bad = parse_command(b"cat \xff");
    assert_eq!(bad.kind, CommandKind::Unknown);
    assert!(bad.arg.is_empty());
    let good = parse_command("cat /\u{e9}".as_bytes());
    assert_eq!(good.kind, CommandKind::Cat);
}

#[test]
fn fixed_outputs_of_the_commands() {
    assert_eq!(fixed_text(CommandKind::Help).unwrap(), b"Cmds: help, ls, cat <file>, clear, info".to_vec());
    assert_eq!(fixed_text(CommandKind::Ls).unwrap(), b"/readme.txt  /config.sys  /persist.dat".to_vec());
    assert_eq!(fixed_text(CommandKind::Info).unwrap(), b"AetherV OS v1.8 - RV64 Microkernel".to_vec());
    assert_eq!(fixed_text(CommandKind::Unknown).unwrap(), b"Unknown command".to_vec());
    assert_eq!(fixed_text(CommandKind::Clear).unwrap(), Vec::<u8>::new());
    assert!(fixed_text(CommandKind::Cat).is_none());
    assert!(fixed_text(CommandKind::Netstat).is_none());
    assert!(fixed_text(CommandKind::Curl).is_none());
    assert_eq!(not_found(), b"Err: File not found".to_vec());
}

#[test]
fn typed_line_is_submitted_on_enter() {
    let mut sh = Shell::new();
    assert_eq!(submit(&mut sh, b"cat /readme.txt"), Some((CommandKind::Cat, b"/readme.txt".to_vec())));
    assert_eq!(submit(&mut sh, b""), None);
    assert_eq!(submit(&mut sh, b"ls"), Some((CommandKind::Ls, Vec::new())));
}

#[test]
fn keys_echo_erase_and_stop_at_32() {
    let mut sh = Shell::new();
    assert!(matches!(sh.handle_key(8), ShellKey::Ignored));
    assert!(matches!(sh.handle_key(b'l'), ShellKey::Echo { c: b'l' }));
    assert!(matches!(sh.handle_key(b'x'), ShellKey::Echo { c: b'x' }));
    assert!(matches!(sh.handle_key(8), ShellKey::Erase));
    assert!(matches!(sh.handle_key(b's'), ShellKey::Echo { c: b's' }));
    match sh.handle_key(b'\r') {
        ShellKey::Submit { command: Some(c) } => assert_eq!(c.kind, CommandKind::Ls),
        _ => panic!("carriage return submits"),
    }
    for _ in 0..32 {
        assert!(matches!(sh.handle_key(b'a'), ShellKey::Echo { .. }));
    }
    assert!(matches!(sh.handle_key(b'a'), ShellKey::Ignored));
    match sh.handle_key(b'\n') {
        ShellKey::Submit { command: Some(c) } => assert_eq!(c.kind, CommandKind::Unknown),
        _ => panic!("enter submits"),
    }
}

#[test]
fn output_message_carries_twenty_bytes() {
    let m = output_msg(b"AetherV OS v1.8 - RV64 Microkernel");
    assert_eq!((m.msg_type, m.length), (WM_CMD_DRAW_TEXT, 26));
    assert_eq!(&m.payload[0..6], &[1, 8, 80, 255, 255, 255]);
    assert_eq!(&m.payload[6..26], b"AetherV OS v1.8 - RV");
    assert_eq!(&m.payload[26..32], &[0; 6]);
    let short = output_msg(b"ok");
    assert_eq!(&short.payload[6..10], b"ok\0\0");
}

#[test]
fn key_notice_and_requests() {
    let k = key_notice(b'q');
    assert_eq!((k.msg_type, k.length, k.payload[0]), (WM_CMD_KEY, 1, b'q'));
    assert_eq!(vfs_request(VFS_CMD_READ).msg_type, VFS_CMD_READ);
    assert_eq!(vfs_request(VFS_CMD_CLOSE).length, 0);
    assert_eq!(net_request(CommandKind::Netstat).msg_type, NET_CMD_STATUS);
    assert_eq!(net_request(CommandKind::Curl).msg_type, NET_CMD_GET_HTTP);
}

#[test]
fn key_poll_outcomes() {
    let mut r = IpcMessage::new(INPUT_RESP_KEY, 1);
    r.payload[0] = b'z';
    assert_eq!(key_poll(0, 0, &r), KeyPoll::Key { c: b'z' });
    assert_eq!(key_poll(-1, 0, &r), KeyPoll::Yield);
    assert_eq!(key_poll(0, -2, &r), KeyPoll::Yield);
    r.msg_type = INPUT_RESP_EMPTY;
    assert_eq!(key_poll(0, 0, &r), KeyPoll::Yield);
    r.msg_type = 1;
    assert_eq!(key_poll(0, 0, &r), KeyPoll::Retry);
}

#[test]
fn cat_shows_utf8_file_content() {
    let mut r = IpcMessage::new(VFS_RESP_OK, 12);
    r.payload[..12].copy_from_slice(b"system_ok=1\n");
    assert!(vfs_ok(0, 0, &r));
    assert_eq!(read_text(0, 0, &r), Some(b"system_ok=1\n".to_vec()));
    r.payload[0] = 0xC3;
    assert_eq!(read_text(0, 0, &r), None);
    assert_eq!(read_text(0, -1, &r), None);
    r.msg_type = VFS_RESP_ERR;
    assert!(!vfs_ok(0, 0, &r));
}

#[test]
fn netstat_reports_the_simulated_card() {
    let mut net = NetServer::new(false);
    let reply = net.handle_request(&net_request(CommandKind::Netstat));
    assert_eq!(netstat_text(0, 0, &reply), b"IP: 192.168.1.10 | RX/TX: Active | Dev: Simulated".to_vec());
    let mut real = NetServer::new(true);
    let reply = real.handle_request(&net_request(CommandKind::Netstat));
    assert_eq!(netstat_text(0, 0, &reply), b"IP: 192.168.1.10 | RX/TX: Active | Dev: VirtIO".to_vec());
    assert_eq!(netstat_text(-1, 0, &reply), b"Err: Net unavailable".to_vec());
    let err = IpcMessage::new(NET_RESP_ERR, 0);
    assert_eq!(netstat_text(0, 0, &err), b"Err: Net unavailable".to_vec());
}

#[test]
fn curl_prints_the_web_answer() {
    let mut net = NetServer::new(false);
    let reply = net.handle_request(&net_request(CommandKind::Curl));
    assert_eq!(curl_text(0, 0, &reply), b"HTTP/1.1 200 OK\nSrv: AetherV-Web".to_vec());
    assert_eq!(curl_text(0, -2, &reply), b"Err: Net unavailable".to_vec());
}

fn blank(msg_type: u32, length: u32) -> IpcMessage {
    IpcMessage { sender: 0, msg_type, length, reserved: 0, payload: [0u8; 32] }
}

#[test]
fn fixed_commands_finish_in_one_step() {
    let mut run = CommandRun::new(parse_command(b"info"));
    let a = run.step(0, 0, &blank(0, 0));
    assert_eq!(a.output.unwrap(), b"AetherV OS v1.8 - RV64 Microkernel".to_vec());
    assert!(a.send.is_none());
    assert_eq!(run.stage, CommandStage::Finished);
}

#[test]
fn cat_opens_reads_and_closes() {
    let mut run = CommandRun::new(parse_command(b"cat /readme.txt"));
    let a = run.step(0, 0, &blank(0, 0));
    assert!(a.output.is_none());
    match a.send {
        Some((Peer::Files, m)) => {
            assert_eq!(m.msg_type, lib::ipc::VFS_CMD_OPEN);
            assert_eq!(m.length, 11);
            assert_eq!(&m.payload[..11], b"/readme.txt");
        }
        _ => panic!("cat opens the file first"),
    }
    let a = run.step(0, 0, &blank(VFS_RESP_OK, 4));
    match a.send {
        Some((Peer::Files, m)) => assert_eq!(m.msg_type, VFS_CMD_READ),
        _ => panic!("then reads it"),
    }
    let mut data = blank(VFS_RESP_OK, 5);
    data.payload[..5].copy_from_slice(b"hello");
    let a = run.step(0, 0, &data);
    assert_eq!(a.output.unwrap(), b"hello".to_vec());
    match a.send {
        Some((Peer::Files, m)) => assert_eq!(m.msg_type, VFS_CMD_CLOSE),
        _ => panic!("then closes it"),
    }
    let a = run.step(0, 0, &blank(VFS_RESP_OK, 0));
    assert!(a.output.is_none() && a.send.is_none());
    assert_eq!(run.stage, CommandStage::Finished);
}

#[test]
fn cat_of_missing_file_says_not_found() {
    let mut run = CommandRun::new(parse_command(b"cat /nope"));
    run.step(0, 0, &blank(0, 0));
    let a = run.step(0, 0, &blank(VFS_RESP_ERR, 0));
    assert_eq!(a.output.unwrap(), b"Err: File not found".to_vec());
    assert!(a.send.is_none());
}

#[test]
fn cat_closes_even_when_the_read_fails() {
    let mut run = CommandRun::new(parse_command(b"cat /readme.txt"));
    run.step(0, 0, &blank(0, 0));
    run.step(0, 0, &blank(VFS_RESP_OK, 4));
    let a = run.step(0, 0, &blank(VFS_RESP_ERR, 0));
    assert!(a.output.is_none());
    match a.send {
        Some((Peer::Files, m)) => assert_eq!(m.msg_type, VFS_CMD_CLOSE),
        _ => panic!("the file is closed"),
    }
}

#[test]
fn netstat_asks_the_network_server() {
    let mut run = CommandRun::new(parse_command(b"netstat"));
    let a = run.step(0, 0, &blank(0, 0));
    let req = match a.send {
        Some((Peer::Net, m)) => m,
        _ => panic!("netstat asks the network server"),
    };
    assert_eq!(req.msg_type, NET_CMD_STATUS);
    let mut net = NetServer::new(false);
    let reply = net.handle_request(&req);
    let a = run.step(0, 0, &reply);
    assert_eq!(
        a.output.unwrap(),
        b"IP: 192.168.1.10 | RX/TX: Active | Dev: Simulated".to_vec()
    );
    assert!(a.send.is_none());
    let mut curl = CommandRun::new(parse_command(b"curl"));
    match curl.step(0, 0, &blank(0, 0)).send {
        Some((Peer::Net, m)) => assert_eq!(m.msg_type, NET_CMD_GET_HTTP),
        _ => panic!("curl asks the network server"),
    }
    assert_eq!(curl.step(-1, -1, &blank(0, 0)).output.unwrap(), b"Err: Net unavailable".to_vec());
}
