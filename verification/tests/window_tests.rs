use lib::clients::{
    counter_text, create_window_msg, draw_rect_msg, draw_text_msg, progress_bar, u32_to_str,
    update_msg, window_id_from_reply, BallClient, CounterClient,
};
use lib::drivers::gpu::{draw_rect, draw_string, draw_utf8, Framebuffer};
use lib::ipc::{
    WM_CMD_CREATE_WINDOW, WM_CMD_DRAW_RECT, WM_CMD_DRAW_TEXT, WM_CMD_KEY, WM_CMD_UPDATE,
    WM_RESP_ERROR, WM_RESP_SUCCESS,
};
use lib::task::{IpcMessage, SimpleScheduler, TaskContext};
use lib::wm::{rgb_exec, WindowManager, WmAction};

fn req(msg_type: u32, sender: u32, payload: &[u8]) -> IpcMessage {
    let mut m = IpcMessage::new(msg_type, payload.len() as u32);
    m.sender = sender;
    m.payload[..payload.len()].copy_from_slice(payload);
    m
}

fn type_line(wm: &mut WindowManager, line: &[u8]) {
    for &c in line {
        wm.handle_key(c);
    }
}

fn output(wm: &WindowManager) -> Vec<u8> {
    wm.shell_output[..wm.shell_output_len].to_vec()
}

#[test]
fn decimal_digits_of_numbers() {
    let mut buf = [b'#'; 12];
    assert_eq!(u32_to_str(0, &mut buf), 1);
    assert_eq!(&buf[..2], b"0#");
    assert_eq!(u32_to_str(4_294_967_295, &mut buf), 10);
    assert_eq!(&buf[..11], b"4294967295#");
    assert_eq!(u32_to_str(1200, &mut buf), 4);
    assert_eq!(&buf[..4], b"1200");
}

#[test]
fn counter_line_and_progress_bar() {
    assert_eq!(&counter_text(123), b"Counter: 123\0\0\0\0\0\0\0\0");
    assert_eq!(&progress_bar(0), b"[>              ]   ");
    assert_eq!(&progress_bar(17), b"[===>           ]   ");
    assert_eq!(&progress_bar(74), b"[==============>]   ");
    assert_eq!(&progress_bar(75), b"[>              ]   ");
}

#[test]
fn client_request_layouts() {
    let c = create_window_msg(b"Bouncing Ball\0\0\0", &[30, 240, 135, 95], &[30, 30, 46]);
    assert_eq!((c.msg_type, c.length), (WM_CMD_CREATE_WINDOW, 24));
    assert_eq!(&c.payload[16..23], &[30, 240, 135, 95, 30, 30, 46]);
    let r = draw_rect_msg(258, 1, 2, 3, 4, &[5, 6, 7]);
    assert_eq!((r.msg_type, r.length), (WM_CMD_DRAW_RECT, 8));
    assert_eq!(&r.payload[0..8], &[2, 1, 2, 3, 4, 5, 6, 7]);
    let t = draw_text_msg(3, 9, 8, &[1, 2, 3], b"hello\0\0\0\0\0\0\0\0\0\0\0\0\0\0\0");
    assert_eq!((t.msg_type, t.length), (WM_CMD_DRAW_TEXT, 26));
    assert_eq!(&t.payload[0..11], b"\x03\x09\x08\x01\x02\x03hello");
    let u = update_msg();
    assert_eq!((u.msg_type, u.length), (WM_CMD_UPDATE, 0));
}

#[test]
fn window_id_comes_from_a_successful_reply() {
    let mut ok = req(WM_RESP_SUCCESS, 2, &3u32.to_le_bytes());
    assert_eq!(window_id_from_reply(0, 0, &ok), 3);
    assert_eq!(window_id_from_reply(-1, 0, &ok), 0);
    ok.msg_type = WM_RESP_ERROR;
    assert_eq!(window_id_from_reply(0, 0, &ok), 0);
}

#[test]
fn ball_bounces_off_the_right_edge() {
    let mut b = BallClient::new(2);
    let f = b.frame();
    assert_eq!(&f[2].payload[0..7], &[2, 20, 30, 248, 196, 113, b'O']);
    for _ in 0..39 {
        b.step();
    }
    assert_eq!(b.frame()[2].payload[1], 254);
    // The next step reaches column 260 (drawn at 260 cut to a byte) and
    // turns; the one after comes back to 254.
    b.step();
    assert_eq!(b.frame()[2].payload[1], 4);
    b.step();
    let f = b.frame();
    assert_eq!(f[2].payload[1], 254);
    assert_eq!(&f[1].payload[6..25], b"Bouncing Ball Demo.");
    assert_eq!(f[3].msg_type, WM_CMD_UPDATE);
    let create = BallClient::create_request();
    assert_eq!(&create.payload[0..13], b"Bouncing Ball");
}

#[test]
fn counter_frame_shows_count_and_bar() {
    let mut c = CounterClient::new(3);
    for _ in 0..12 {
        c.step();
    }
    let f = c.frame();
    assert_eq!(&f[1].payload[6..17], b"Counter: 12");
    assert_eq!(&f[2].payload[6..26], b"[==>            ]   ");
    assert_eq!(&f[3].payload[6..24], b"System tick active");
    assert_eq!(&CounterClient::create_request().payload[0..11], b"Performance");
    let mut wrap = CounterClient { win_id: 3, counter: u32::MAX };
    wrap.step();
    assert_eq!(wrap.counter, 0);
}

#[test]
fn console_runs_its_built_in_commands() {
    let mut wm = WindowManager::new();
    type_line(&mut wm, b"help\n");
    assert_eq!(output(&wm), b"Cmds: help, ls, cat <file>, clear, info".to_vec());
    assert_eq!(wm.console_len, 0);
    type_line(&mut wm, b"lsx\r");
    assert_eq!(output(&wm), b"/readme.txt  /config.sys".to_vec());
    type_line(&mut wm, b"cat /x\n");
    assert_eq!(output(&wm), b"AetherV OS System File Content".to_vec());
    type_line(&mut wm, b"info\n");
    assert_eq!(output(&wm), b"AetherV OS v1.8 - RV64 Microkernel".to_vec());
    type_line(&mut wm, b"clear\n");
    assert_eq!(wm.shell_output_len, 0);
    type_line(&mut wm, b"foo\n");
    assert_eq!(output(&wm), b"Unknown command".to_vec());
}

#[test]
fn console_line_editing() {
    let mut wm = WindowManager::new();
    type_line(&mut wm, b"ab\x08c");
    assert_eq!(&wm.console[..wm.console_len], b"ac");
    wm.handle_key(8);
    wm.handle_key(8);
    wm.handle_key(8);
    assert_eq!(wm.console_len, 0);
    for _ in 0..40 {
        wm.handle_key(b'z');
    }
    assert_eq!(wm.console_len, 30);
}

#[test]
fn typing_moves_the_focus_to_the_console() {
    let mut wm = WindowManager::new();
    wm.handle_key(b'a');
    assert!(!wm.windows[0].unwrap().active);
    assert!(wm.windows[1].unwrap().active);
    match wm.handle_request(&req(WM_CMD_KEY, 9, b"b")) {
        WmAction::Redraw { redraw } => assert!(redraw),
        _ => panic!("a key only redraws"),
    }
    assert_eq!(&wm.console[..wm.console_len], b"ab");
}

#[test]
fn windows_open_in_the_two_free_slots() {
    let mut wm = WindowManager::new();
    let mut payload = [0u8; 23];
    payload[0..5].copy_from_slice(b"Hello");
    payload[20..23].copy_from_slice(&[1, 2, 3]);
    for (expected, slot_x) in [(2u32, 20usize), (3, 330)] {
        match wm.handle_request(&req(WM_CMD_CREATE_WINDOW, 5, &payload)) {
            WmAction::Reply { dest, reply, redraw } => {
                assert_eq!(dest, 5);
                assert!(redraw);
                assert_eq!(reply.msg_type, WM_RESP_SUCCESS);
                assert_eq!(reply.length, 4);
                assert_eq!(&reply.payload[0..4], &expected.to_le_bytes());
            }
            _ => panic!("a creation is answered"),
        }
        let w = wm.windows[expected as usize].unwrap();
        assert_eq!((w.x, w.y, w.w, w.h), (slot_x, 250, 290, 200));
        assert_eq!(w.bg_color, 0xFF01_0203);
        assert_eq!(&w.title[0..6], b"Hello\0");
    }
    match wm.handle_request(&req(WM_CMD_CREATE_WINDOW, 6, &payload)) {
        WmAction::Reply { reply, .. } => assert_eq!(reply.msg_type, WM_RESP_ERROR),
        _ => panic!("a creation is answered"),
    }
}

#[test]
fn drawing_requests_land_in_the_client_area() {
    let mut wm = WindowManager::new();
    match wm.handle_request(&req(WM_CMD_DRAW_RECT, 5, &[1, 10, 20, 255, 255, 9, 8, 7])) {
        WmAction::DrawRect { x, y, w, h, color, dest, reply } => {
            assert_eq!((x, y), (330 + 2 + 10, 35 + 20 + 20));
            assert_eq!((w, h), (255, 200 - 22 - 20));
            assert_eq!(color, 0xFF09_0807);
            assert_eq!(dest, 5);
            assert_eq!(reply.msg_type, WM_RESP_SUCCESS);
        }
        _ => panic!("expected a rectangle"),
    }
    let mut text = vec![0u8, 5, 6, 255, 0, 0];
    text.extend_from_slice(b"hi");
    match wm.handle_request(&req(WM_CMD_DRAW_TEXT, 5, &text)) {
        WmAction::DrawText { x, y, len, color, .. } => {
            assert_eq!((x, y, len), (20 + 2 + 5, 35 + 20 + 6, 2));
            assert_eq!(color, 0xFFFF_0000);
        }
        _ => panic!("expected text"),
    }
    match wm.handle_request(&req(WM_CMD_DRAW_RECT, 5, &[3, 0, 0, 1, 1, 0, 0, 0])) {
        WmAction::Reply { reply, redraw, .. } => {
            assert_eq!(reply.msg_type, WM_RESP_SUCCESS);
            assert!(!redraw);
        }
        _ => panic!("an empty slot draws nothing"),
    }
    match wm.handle_request(&req(WM_CMD_UPDATE, 5, &[])) {
        WmAction::Flush { dest, reply } => {
            assert_eq!(dest, 5);
            assert_eq!(reply.msg_type, WM_RESP_SUCCESS);
        }
        _ => panic!("an update flushes"),
    }
    match wm.handle_request(&req(1234, 5, &[])) {
        WmAction::Reply { reply, .. } => assert_eq!(reply.msg_type, WM_RESP_ERROR),
        _ => panic!("unknown requests fail"),
    }
}

#[test]
fn colours_are_opaque_rgb() {
    assert_eq!(rgb_exec(0x12, 0x34, 0x56), 0xFF12_3456);
    assert_eq!(rgb_exec(0, 0, 0), 0xFF00_0000);
}

#[test]
fn rectangles_are_clipped_to_the_screen() {
    let mut fb = Framebuffer::new();
    draw_rect(&mut fb, 630, 470, 50, 50, 7);
    assert_eq!(fb.pixels[470 * 640 + 630], 7);
    assert_eq!(fb.pixels[479 * 640 + 639], 7);
    assert_eq!(fb.pixels[469 * 640 + 639], 0);
    assert_eq!(fb.pixels[470 * 640 + 629], 0);
    assert_eq!(fb.pixels.iter().filter(|&&p| p == 7).count(), 100);
    draw_rect(&mut fb, 700, 0, 10, 10, 9);
    assert!(fb.pixels.iter().all(|&p| p != 9));
}

#[test]
fn text_draws_glyph_pixels() {
    let mut fb = Framebuffer::new();
    draw_string(&mut fb, 0, 0, "I", 5);
    let lit = fb.pixels.iter().filter(|&&p| p == 5).count();
    assert!(lit > 0);
    assert!((0..8).all(|y| fb.pixels[y * 640 + 8..y * 640 + 16].iter().all(|&p| p == 0)));
    let mut fb2 = Framebuffer::new();
    draw_utf8(&mut fb2, 0, 0, b"I", 5);
    assert_eq!(fb.pixels, fb2.pixels);
    let mut fb3 = Framebuffer::new();
    draw_utf8(&mut fb3, 0, 0, &[b'I', 0xFF], 5);
    assert!(fb3.pixels.iter().all(|&p| p == 0));
}

#[test]
fn newline_moves_to_the_next_text_line() {
    let mut a = Framebuffer::new();
    draw_string(&mut a, 16, 0, "A\nB", 1);
    let mut b = Framebuffer::new();
    draw_string(&mut b, 16, 0, "A", 1);
    draw_string(&mut b, 16, 8, "B", 1);
    assert_eq!(a.pixels, b.pixels);
}

#[test]
fn composite_draws_desktop_windows_and_monitor() {
    let wm = WindowManager::new();
    let mut sched = SimpleScheduler::new();
    sched.create_task(2, TaskContext::zero());
    let mut fb = Framebuffer::new();
    wm.composite(&mut fb, &sched);
    // Desktop below the top bar and outside the windows.
    assert_eq!(fb.pixels[300 * 640 + 5], 0xFF1A_1B26);
    // Top bar left of the caption.
    assert_eq!(fb.pixels[2 * 640 + 2], 0xFF16_161E);
    // Border of the monitor window (no focus) and of the console (focus).
    assert_eq!(fb.pixels[100 * 640 + 20], 0xFF56_5F89);
    assert_eq!(fb.pixels[100 * 640 + 330], 0xFF7A_A2F7);
    // Title bars.
    assert_eq!(fb.pixels[37 * 640 + 24], 0xFF24_283B);
    assert_eq!(fb.pixels[37 * 640 + 334], 0xFF3D_59A1);
    // Client area of the monitor below its rows.
    assert_eq!(fb.pixels[220 * 640 + 200], 0xFF1F_2335);
    // Shadow right of the monitor window.
    assert_eq!(fb.pixels[100 * 640 + 311], 0xFF0D_0E15);
    // Two monitor rows (slots 0 and 2) in their colour.
    let row = |y: usize| (28..300).any(|x| fb.pixels[y * 640 + x] == 0xFFC0_CAF5);
    assert!(row(35 + 26 + 24 + 3));
    assert!(row(35 + 26 + 36 + 3));
    assert!(!row(35 + 26 + 48 + 3));
}
