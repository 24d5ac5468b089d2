//! The window manager: four window slots, the keyboard console with its
//! built-in commands, and the drawing requests of client windows.
use vstd::prelude::*;
use crate::task::{IpcMessage, Task, TaskStatus, MAX_TASKS, SimpleScheduler};
use crate::drivers::gpu::{
    Framebuffer, SCREEN_WIDTH, SCREEN_HEIGHT, draw_rect, draw_string, draw_utf8, rect_pixels,
    text_pixels, utf8_text_pixels,
};
use crate::ipc::{
    WM_CMD_CREATE_WINDOW, WM_CMD_DRAW_RECT, WM_CMD_DRAW_TEXT, WM_CMD_UPDATE, WM_CMD_KEY,
    WM_RESP_SUCCESS, WM_RESP_ERROR, le_bytes_u32, put_u32,
};

verus! {

/// A window: its slot id, position and size on the screen, a title of up to
/// 16 bytes (zero-padded), its background colour and whether it has focus.
#[derive(Copy, Clone, Debug)]
pub struct Window {
    pub id: usize,
    pub x: usize,
    pub y: usize,
    pub w: usize,
    pub h: usize,
    pub title: [u8; 16],
    pub bg_color: u32,
    pub active: bool,
}

/// "help"
pub open spec fn help_cmd() -> Seq<u8> {
    seq![104u8, 101u8, 108u8, 112u8]
}

/// "ls"
pub open spec fn ls_cmd() -> Seq<u8> {
    seq![108u8, 115u8]
}

/// "cat "
pub open spec fn cat_cmd() -> Seq<u8> {
    seq![99u8, 97u8, 116u8, 32u8]
}

/// "clear"
pub open spec fn clear_cmd() -> Seq<u8> {
    seq![99u8, 108u8, 101u8, 97u8, 114u8]
}

/// "info"
pub open spec fn info_cmd() -> Seq<u8> {
    seq![105u8, 110u8, 102u8, 111u8]
}

/// "Cmds: help, ls, cat <file>, clear, info"
pub open spec fn resp_help() -> Seq<u8> {
    seq![67u8, 109u8, 100u8, 115u8, 58u8, 32u8, 104u8, 101u8, 108u8, 112u8, 44u8, 32u8, 108u8, 115u8,
        44u8, 32u8, 99u8, 97u8, 116u8, 32u8, 60u8, 102u8, 105u8, 108u8, 101u8, 62u8, 44u8, 32u8,
        99u8, 108u8, 101u8, 97u8, 114u8, 44u8, 32u8, 105u8, 110u8, 102u8, 111u8]
}

/// "/readme.txt  /config.sys"
pub open spec fn resp_ls() -> Seq<u8> {
    seq![47u8, 114u8, 101u8, 97u8, 100u8, 109u8, 101u8, 46u8, 116u8, 120u8, 116u8, 32u8, 32u8, 47u8,
        99u8, 111u8, 110u8, 102u8, 105u8, 103u8, 46u8, 115u8, 121u8, 115u8]
}

/// "AetherV OS System File Content"
pub open spec fn resp_cat() -> Seq<u8> {
    seq![65u8, 101u8, 116u8, 104u8, 101u8, 114u8, 86u8, 32u8, 79u8, 83u8, 32u8, 83u8, 121u8, 115u8,
        116u8, 101u8, 109u8, 32u8, 70u8, 105u8, 108u8, 101u8, 32u8, 67u8, 111u8, 110u8, 116u8, 101u8,
        110u8, 116u8]
}

/// "AetherV OS v1.8 - RV64 Microkernel"
pub open spec fn resp_info() -> Seq<u8> {
    seq![65u8, 101u8, 116u8, 104u8, 101u8, 114u8, 86u8, 32u8, 79u8, 83u8, 32u8, 118u8, 49u8, 46u8,
        56u8, 32u8, 45u8, 32u8, 82u8, 86u8, 54u8, 52u8, 32u8, 77u8, 105u8, 99u8, 114u8, 111u8, 107u8,
        101u8, 114u8, 110u8, 101u8, 108u8]
}

/// "Unknown command"
pub open spec fn resp_unknown() -> Seq<u8> {
    seq![85u8, 110u8, 107u8, 110u8, 111u8, 119u8, 110u8, 32u8, 99u8, 111u8, 109u8, 109u8, 97u8, 110u8,
        100u8]
}

/// `cmd` starts with `prefix`.
pub open spec fn starts_with(cmd: Seq<u8>, prefix: Seq<u8>) -> bool {
    cmd.len() >= prefix.len() && cmd.subrange(0, prefix.len() as int) == prefix
}

/// The console's answer to the command line `cmd`, judged by its prefix:
/// `None` for "clear" (the output is wiped), otherwise the text to show.
pub open spec fn console_response(cmd: Seq<u8>) -> Option<Seq<u8>> {
    if starts_with(cmd, help_cmd()) {
        Some(resp_help())
    } else if starts_with(cmd, ls_cmd()) {
        Some(resp_ls())
    } else if starts_with(cmd, cat_cmd()) {
        Some(resp_cat())
    } else if starts_with(cmd, clear_cmd()) {
        None
    } else if starts_with(cmd, info_cmd()) {
        Some(resp_info())
    } else {
        Some(resp_unknown())
    }
}

/// `old` with its first bytes replaced by `r`.
pub open spec fn overwrite(old: Seq<u8>, r: Seq<u8>) -> Seq<u8> {
    r + old.subrange(r.len() as int, old.len() as int)
}

/// Longest command line the console keeps.
pub const CONSOLE_MAX: usize = 30;

/// The window manager's state: the window slots, the console line being
/// typed and the last command output.
pub struct WindowManager {
    pub windows: [Option<Window>; 4],
    pub console: [u8; 128],
    pub console_len: usize,
    pub shell_output: [u8; 64],
    pub shell_output_len: usize,
}

/// A window whose geometry keeps every coordinate the manager computes in
/// range: at least 20 by 22 pixels and within 1024 pixels of the origin.
pub open spec fn window_ok(w: Window) -> bool {
    &&& 20 <= w.w <= 1024
    &&& 22 <= w.h <= 1024
    &&& w.x <= 1024
    &&& w.y <= 1024
}

/// A colour from its red, green and blue bytes, fully opaque.
pub open spec fn rgb(r: u8, g: u8, b: u8) -> u32 {
    0xFF000000u32 | ((r as u32) << 16u32) | ((g as u32) << 8u32) | (b as u32)
}

/// Executable form of `rgb`.
pub fn rgb_exec(r: u8, g: u8, b: u8) -> (c: u32)
    ensures
        c == rgb(r, g, b),
{
    0xFF000000u32 | ((r as u32) << 16) | ((g as u32) << 8) | (b as u32)
}

/// Copies `src` over the first bytes of `dst`.
fn copy_prefix(dst: &mut [u8; 64], src: &[u8])
    requires
        src@.len() <= 64,
    ensures
        final(dst)@ == overwrite(old(dst)@, src@),
{
    let mut i: usize = 0;
    while i < src.len()
        invariant
            i <= src@.len() <= 64,
            forall|k: int| 0 <= k < i ==> #[trigger] dst@[k] == src@[k],
            forall|k: int| i <= k < 64 ==> #[trigger] dst@[k] == old(dst)@[k],
        decreases src@.len() - i,
    {
        dst[i] = src[i];
        i = i + 1;
    }
    assert(dst@ =~= overwrite(old(dst)@, src@));
}

/// Whether `buf[0..prefix.len()]` equals `prefix`, for a line of `len`
/// bytes.
fn line_starts_with(buf: &[u8; 128], len: usize, prefix: &[u8]) -> (r: bool)
    requires
        len <= 128,
    ensures
        r == starts_with(buf@.subrange(0, len as int), prefix@),
{
    if len < prefix.len() {
        return false;
    }
    let mut i: usize = 0;
    while i < prefix.len()
        invariant
            prefix@.len() <= len <= 128,
            i <= prefix@.len(),
            forall|k: int| 0 <= k < i ==> buf@[k] == prefix@[k],
        decreases prefix@.len() - i,
    {
        if buf[i] != prefix[i] {
            assert(buf@.subrange(0, len as int).subrange(0, prefix@.len() as int)[i as int] != prefix@[i as int]);
            return false;
        }
        i = i + 1;
    }
    assert(buf@.subrange(0, len as int).subrange(0, prefix@.len() as int) =~= prefix@);
    true
}

/// "System Monitor"
pub open spec fn monitor_title() -> Seq<u8> {
    seq![83u8, 121u8, 115u8, 116u8, 101u8, 109u8, 32u8, 77u8, 111u8, 110u8, 105u8, 116u8, 111u8, 114u8]
}

/// "Keyboard Console"
pub open spec fn console_title() -> Seq<u8> {
    seq![75u8, 101u8, 121u8, 98u8, 111u8, 97u8, 114u8, 100u8, 32u8, 67u8, 111u8, 110u8, 115u8, 111u8,
        108u8, 101u8]
}

/// A 16-byte title holding `text` and zeros after it.
fn title_of(text: &[u8]) -> (r: [u8; 16])
    requires
        text@.len() <= 16,
    ensures
        r@ == text@ + Seq::new((16 - text@.len()) as nat, |i: int| 0u8),
{
    let mut t = [0u8; 16];
    let mut i: usize = 0;
    while i < text.len()
        invariant
            i <= text@.len() <= 16,
            forall|k: int| 0 <= k < i ==> #[trigger] t@[k] == text@[k],
            forall|k: int| i <= k < 16 ==> #[trigger] t@[k] == 0,
        decreases text@.len() - i,
    {
        t[i] = text[i];
        i = i + 1;
    }
    assert(t@ =~= text@ + Seq::new((16 - text@.len()) as nat, |i: int| 0u8));
    t
}

/// The effect of typing key `c` on the console (state `o` before, `f`
/// after): the console window takes the focus from the monitor window;
/// backspace (8) removes the last character; newline or carriage return runs
/// the line (see `console_response`) and empties it; any other byte is added
/// while the line is shorter than 30.
pub open spec fn key_step(o: WindowManager, f: WindowManager, c: u8) -> bool {
    &&& f.windows[0] == (match o.windows[0] {
        Some(w) => Some(Window { active: false, ..w }),
        None => None,
    })
    &&& f.windows[1] == (match o.windows[1] {
        Some(w) => Some(Window { active: true, ..w }),
        None => None,
    })
    &&& f.windows[2] == o.windows[2]
    &&& f.windows[3] == o.windows[3]
    &&& if c == 8 {
        &&& f.console == o.console
        &&& f.console_len == (if o.console_len > 0 {
            o.console_len - 1
        } else {
            0
        })
        &&& f.shell_output == o.shell_output
        &&& f.shell_output_len == o.shell_output_len
    } else if c == 10 || c == 13 {
        &&& f.console == o.console
        &&& f.console_len == 0
        &&& match console_response(o.console@.subrange(0, o.console_len as int)) {
            Some(text) => f.shell_output@ == overwrite(o.shell_output@, text)
                && f.shell_output_len == text.len(),
            None => f.shell_output == o.shell_output && f.shell_output_len == 0,
        }
    } else {
        &&& f.shell_output == o.shell_output
        &&& f.shell_output_len == o.shell_output_len
        &&& if o.console_len < 30 {
            f.console@ == o.console@.update(o.console_len as int, c) && f.console_len
                == o.console_len + 1
        } else {
            f.console == o.console && f.console_len == o.console_len
        }
    }
}

/// What the window manager does after a request.
#[derive(Clone, Copy, Debug)]
pub enum WmAction {
    /// Nothing more than redrawing the screen (`composite`) when `redraw`.
    Redraw { redraw: bool },
    /// Send `reply` to `dest`; then redraw the screen when `redraw`.
    Reply { dest: usize, reply: IpcMessage, redraw: bool },
    /// Fill the `w` by `h` rectangle at (`x`, `y`) with `color`, then send
    /// `reply` to `dest`.
    DrawRect { x: usize, y: usize, w: usize, h: usize, color: u32, dest: usize, reply: IpcMessage },
    /// Draw the first `len` bytes of `text` (when they are UTF-8) at (`x`,
    /// `y`) in `color`, then send `reply` to `dest`.
    DrawText {
        x: usize,
        y: usize,
        text: [u8; 20],
        len: usize,
        color: u32,
        dest: usize,
        reply: IpcMessage,
    },
    /// Send `reply` to `dest`, then ask the display server to flush the
    /// screen (message type 3) and wait for its answer.
    Flush { dest: usize, reply: IpcMessage },
}

/// The first zero byte of `t` at or after `k`, or its length.
pub open spec fn text_len(t: Seq<u8>, k: int) -> int
    decreases t.len() - k,
{
    if k < 0 || k >= t.len() || t[k] == 0 {
        k
    } else {
        text_len(t, k + 1)
    }
}

/// The width of a client rectangle clipped to the window's client area,
/// whose width is `max`: what fits from offset `r` on.
pub open spec fn clip(r: usize, len: usize, max: usize) -> usize {
    if r + len > max {
        if max >= r {
            (max - r) as usize
        } else {
            0
        }
    } else {
        len
    }
}

/// A reply with type `t`, sender 2 (the window manager) and nothing else.
pub open spec fn plain_reply(m: IpcMessage, t: u32) -> bool {
    &&& m.sender == 2
    &&& m.msg_type == t
    &&& m.length == 0
    &&& m.reserved == 0
    &&& m.payload@ == Seq::new(32, |i: int| 0u8)
}

/// Slot `idx` of `f` holds a client window at (`x`, 250), 290 by 200,
/// without focus, titled with payload bytes 0..16 and coloured with bytes
/// 20..23.
pub open spec fn client_window(f: Seq<Option<Window>>, idx: int, x: usize, payload: [u8; 32]) -> bool {
    f[idx] matches Some(w) && w.id == idx && w.x == x && w.y == 250 && w.w == 290 && w.h == 200
        && w.title@ == payload@.subrange(0, 16) && w.bg_color == rgb(payload[20], payload[21], payload[22])
        && !w.active
}

/// The window table `f` after a creation request with `payload` on the
/// table `o`: the first free slot of 2 and 3 gets the client window (at x 20
/// for slot 2, 330 for slot 3), every other slot stays; with neither free
/// nothing changes.
pub open spec fn window_created(o: Seq<Option<Window>>, f: Seq<Option<Window>>, payload: [u8; 32]) -> bool {
    if o[2] is None {
        f == o.update(2, f[2]) && client_window(f, 2, 20, payload)
    } else if o[3] is None {
        f == o.update(3, f[3]) && client_window(f, 3, 330, payload)
    } else {
        f == o
    }
}

impl WindowManager {
    /// Every window has a geometry `window_ok` accepts and the id of its
    /// slot; the console line and the output fit their buffers.
    pub open spec fn wf(&self) -> bool {
        &&& self.console_len <= CONSOLE_MAX
        &&& self.shell_output_len <= 64
        &&& forall|i: int|
            0 <= i < 4 ==> (#[trigger] self.windows@[i] matches Some(w) ==> window_ok(w) && w.id == i)
    }

    /// The two built-in windows: "System Monitor" at (20, 35) without focus
    /// and "Keyboard Console" at (330, 35) with focus, both 290 by 200; an
    /// empty console and no output.
    pub fn new() -> (r: Self)
        ensures
            r.wf(),
            r.console_len == 0,
            r.shell_output_len == 0,
            r.windows[0] matches Some(w) && w.id == 0 && w.x == 20 && w.y == 35 && w.w == 290 && w.h
                == 200 && w.bg_color == 0xFF1F2335 && !w.active,
            r.windows[1] matches Some(w) && w.id == 1 && w.x == 330 && w.y == 35 && w.w == 290 && w.h
                == 200 && w.bg_color == 0xFF1A1B26 && w.active,
            r.windows[0] matches Some(w) && w.title@ == monitor_title() + Seq::new(2, |i: int| 0u8),
            r.windows[1] matches Some(w) && w.title@ == console_title(),
            r.windows[2] is None,
            r.windows[3] is None,
    {
        let t0: [u8; 14] = [83, 121, 115, 116, 101, 109, 32, 77, 111, 110, 105, 116, 111, 114];
        let t1: [u8; 16] = [75, 101, 121, 98, 111, 97, 114, 100, 32, 67, 111, 110, 115, 111, 108, 101];
        assert(t0@ =~= monitor_title());
        assert(t1@ =~= console_title());
        assert(console_title() + Seq::new(0, |i: int| 0u8) =~= console_title());
        let w0 = Window {
            id: 0,
            x: 20,
            y: 35,
            w: 290,
            h: 200,
            title: title_of(&t0),
            bg_color: 0xFF1F2335,
            active: false,
        };
        let w1 = Window {
            id: 1,
            x: 330,
            y: 35,
            w: 290,
            h: 200,
            title: title_of(&t1),
            bg_color: 0xFF1A1B26,
            active: true,
        };
        WindowManager {
            windows: [Some(w0), Some(w1), None, None],
            console: [0u8; 128],
            console_len: 0,
            shell_output: [0u8; 64],
            shell_output_len: 0,
        }
    }

    /// A key `c` typed on the console: the console window takes the focus
    /// from the monitor window; backspace (8) removes the last character;
    /// newline or carriage return runs the line (see `console_response`) and
    /// empties it; any other byte is added while the line is shorter than 30.
    pub fn handle_key(&mut self, c: u8)
        requires
            old(self).wf(),
        ensures
            final(self).wf(),
            key_step(*old(self), *final(self), c),
    {
        if let Some(w) = self.windows[0] {
            self.windows[0] = Some(Window { active: false, ..w });
        }
        if let Some(w) = self.windows[1] {
            self.windows[1] = Some(Window { active: true, ..w });
        }
        if c == 8 {
            if self.console_len > 0 {
                self.console_len = self.console_len - 1;
            }
        } else if c == 10 || c == 13 {
            let len = self.console_len;
            let h: [u8; 4] = [104, 101, 108, 112];
            let l: [u8; 2] = [108, 115];
            let ct: [u8; 4] = [99, 97, 116, 32];
            let cl: [u8; 5] = [99, 108, 101, 97, 114];
            let inf: [u8; 4] = [105, 110, 102, 111];
            assert(h@ =~= help_cmd());
            assert(l@ =~= ls_cmd());
            assert(ct@ =~= cat_cmd());
            assert(cl@ =~= clear_cmd());
            assert(inf@ =~= info_cmd());
            if line_starts_with(&self.console, len, &h) {
                let r: [u8; 39] = [
                    67, 109, 100, 115, 58, 32, 104, 101, 108, 112, 44, 32, 108, 115, 44, 32, 99, 97,
                    116, 32, 60, 102, 105, 108, 101, 62, 44, 32, 99, 108, 101, 97, 114, 44, 32, 105,
                    110, 102, 111,
                ];
                assert(r@ =~= resp_help());
                copy_prefix(&mut self.shell_output, &r);
                self.shell_output_len = 39;
            } else if line_starts_with(&self.console, len, &l) {
                let r: [u8; 24] = [
                    47, 114, 101, 97, 100, 109, 101, 46, 116, 120, 116, 32, 32, 47, 99, 111, 110, 102,
                    105, 103, 46, 115, 121, 115,
                ];
                assert(r@ =~= resp_ls());
                copy_prefix(&mut self.shell_output, &r);
                self.shell_output_len = 24;
            } else if line_starts_with(&self.console, len, &ct) {
                let r: [u8; 30] = [
                    65, 101, 116, 104, 101, 114, 86, 32, 79, 83, 32, 83, 121, 115, 116, 101, 109, 32,
                    70, 105, 108, 101, 32, 67, 111, 110, 116, 101, 110, 116,
                ];
                assert(r@ =~= resp_cat());
                copy_prefix(&mut self.shell_output, &r);
                self.shell_output_len = 30;
            } else if line_starts_with(&self.console, len, &cl) {
                self.shell_output_len = 0;
            } else if line_starts_with(&self.console, len, &inf) {
                let r: [u8; 34] = [
                    65, 101, 116, 104, 101, 114, 86, 32, 79, 83, 32, 118, 49, 46, 56, 32, 45, 32, 82,
                    86, 54, 52, 32, 77, 105, 99, 114, 111, 107, 101, 114, 110, 101, 108,
                ];
                assert(r@ =~= resp_info());
                copy_prefix(&mut self.shell_output, &r);
                self.shell_output_len = 34;
            } else {
                let r: [u8; 15] = [85, 110, 107, 110, 111, 119, 110, 32, 99, 111, 109, 109, 97, 110, 100];
                assert(r@ =~= resp_unknown());
                copy_prefix(&mut self.shell_output, &r);
                self.shell_output_len = 15;
            }
            self.console_len = 0;
        } else {
            if self.console_len < CONSOLE_MAX {
                self.console[self.console_len] = c;
                self.console_len = self.console_len + 1;
            }
        }
    }

    /// Places a new client window in the first free slot of 2 and 3 (at (20,
    /// 250) or (330, 250), 290 by 200, without focus) with the title from
    /// payload bytes 0..16 and the colour from bytes 20..23; returns its slot.
    pub fn create_window(&mut self, payload: &[u8; 32]) -> (r: Option<usize>)
        requires
            old(self).wf(),
        ensures
            final(self).wf(),
            final(self).console == old(self).console,
            final(self).console_len == old(self).console_len,
            final(self).shell_output == old(self).shell_output,
            final(self).shell_output_len == old(self).shell_output_len,
            ({
                let w = |idx: usize, x: usize|
                    Window {
                        id: idx,
                        x,
                        y: 250,
                        w: 290,
                        h: 200,
                        title: final(self).windows[idx as int]->0.title,
                        bg_color: rgb(payload[20], payload[21], payload[22]),
                        active: false,
                    };
                if old(self).windows[2] is None {
                    &&& r == Some(2usize)
                    &&& final(self).windows@ == old(self).windows@.update(2, Some(w(2, 20)))
                    &&& final(self).windows[2]->0.title@ == payload@.subrange(0, 16)
                } else if old(self).windows[3] is None {
                    &&& r == Some(3usize)
                    &&& final(self).windows@ == old(self).windows@.update(3, Some(w(3, 330)))
                    &&& final(self).windows[3]->0.title@ == payload@.subrange(0, 16)
                } else {
                    &&& r is None
                    &&& final(self).windows == old(self).windows
                }
            }),
            window_created(old(self).windows@, final(self).windows@, *payload),
    {
        let mut title = [0u8; 16];
        let mut i: usize = 0;
        while i < 16
            invariant
                i <= 16,
                forall|k: int| 0 <= k < i ==> #[trigger] title@[k] == payload@[k],
            decreases 16 - i,
        {
            title[i] = payload[i];
            i = i + 1;
        }
        assert(title@ =~= payload@.subrange(0, 16));
        let bg_color = rgb_exec(payload[20], payload[21], payload[22]);
        if self.windows[2].is_none() {
            self.windows[2] = Some(Window { id: 2, x: 20, y: 250, w: 290, h: 200, title, bg_color, active: false });
            Some(2)
        } else if self.windows[3].is_none() {
            self.windows[3] = Some(Window { id: 3, x: 330, y: 250, w: 290, h: 200, title, bg_color, active: false });
            Some(3)
        } else {
            None
        }
    }

    /// Serves one request of the window-manager loop: see `WmAction`.  A key
    /// (type 2004) goes to `handle_key` and the screen is redrawn, with no
    /// reply.  A window creation answers success with the slot in payload
    /// bytes 0..4 (length 4) or error, then redraws.  A rectangle or text
    /// inside an existing window (slot in payload byte 0) is placed relative
    /// to the window's client area (2 pixels in, 20 down), a rectangle
    /// clipped to it; both answer success, as does an update, which also
    /// flushes the screen.  Anything else answers error.
    pub fn handle_request(&mut self, msg: &IpcMessage) -> (r: WmAction)
        requires
            old(self).wf(),
        ensures
            final(self).wf(),
            ({
                let p = msg.payload;
                let dest = msg.sender as usize;
                if msg.msg_type == WM_CMD_KEY {
                    r == WmAction::Redraw { redraw: true } && key_step(*old(self), *final(self), p[0])
                } else if msg.msg_type == WM_CMD_CREATE_WINDOW {
                    &&& window_created(old(self).windows@, final(self).windows@, p)
                    &&& r matches WmAction::Reply { dest: d, reply, redraw } && d == dest && redraw
                        && reply.sender == 2 && reply.length == 4 && reply.reserved == 0 && (
                    match (if old(self).windows[2] is None {
                        Some(2usize)
                    } else if old(self).windows[3] is None {
                        Some(3usize)
                    } else {
                        None
                    }) {
                        Some(idx) => reply.msg_type == WM_RESP_SUCCESS && reply.payload@ == Seq::new(
                            32,
                            |i: int| 0u8,
                        ).update(0, le_bytes_u32(idx as u32)[0]).update(
                            1,
                            le_bytes_u32(idx as u32)[1],
                        ).update(2, le_bytes_u32(idx as u32)[2]).update(
                            3,
                            le_bytes_u32(idx as u32)[3],
                        ),
                        None => reply.msg_type == WM_RESP_ERROR && reply.payload@ == Seq::new(
                            32,
                            |i: int| 0u8,
                        ),
                    })
                } else if msg.msg_type == WM_CMD_DRAW_RECT {
                    &&& final(self).windows == old(self).windows
                    &&& if (p[0] as int) < 4 && old(self).windows[p[0] as int] is Some {
                        let win = old(self).windows[p[0] as int]->0;
                        r matches WmAction::DrawRect { x, y, w, h, color, dest: d, reply } && x
                            == win.x + 2 + p[1] && y == win.y + 20 + p[2] && w == clip(
                            p[1] as usize,
                            p[3] as usize,
                            (win.w - 4) as usize,
                        ) && h == clip(p[2] as usize, p[4] as usize, (win.h - 22) as usize) && color
                            == rgb(p[5], p[6], p[7]) && d == dest && plain_reply(
                            reply,
                            WM_RESP_SUCCESS,
                        )
                    } else {
                        r matches WmAction::Reply { dest: d, reply, redraw } && d == dest && !redraw
                            && plain_reply(reply, WM_RESP_SUCCESS)
                    }
                } else if msg.msg_type == WM_CMD_DRAW_TEXT {
                    &&& final(self).windows == old(self).windows
                    &&& if (p[0] as int) < 4 && old(self).windows[p[0] as int] is Some {
                        let win = old(self).windows[p[0] as int]->0;
                        r matches WmAction::DrawText { x, y, text, len, color, dest: d, reply } && x
                            == win.x + 2 + p[1] && y == win.y + 20 + p[2] && text@ == p@.subrange(
                            6,
                            26,
                        ) && len == text_len(text@, 0) && color == rgb(p[3], p[4], p[5]) && d
                            == dest && plain_reply(reply, WM_RESP_SUCCESS)
                    } else {
                        r matches WmAction::Reply { dest: d, reply, redraw } && d == dest && !redraw
                            && plain_reply(reply, WM_RESP_SUCCESS)
                    }
                } else if msg.msg_type == WM_CMD_UPDATE {
                    &&& final(self).windows == old(self).windows
                    &&& r matches WmAction::Flush { dest: d, reply } && d == dest && plain_reply(
                        reply,
                        WM_RESP_SUCCESS,
                    )
                } else {
                    &&& final(self).windows == old(self).windows
                    &&& r matches WmAction::Reply { dest: d, reply, redraw } && d == dest && !redraw
                        && plain_reply(reply, WM_RESP_ERROR)
                }
            }),
            msg.msg_type != WM_CMD_KEY ==> final(self).console == old(self).console
                && final(self).console_len == old(self).console_len && final(self).shell_output == old(
                self,
            ).shell_output && final(self).shell_output_len == old(self).shell_output_len,
    {
        let dest = msg.sender as usize;
        let mut reply = IpcMessage { sender: 2, msg_type: WM_RESP_SUCCESS, length: 0, reserved: 0, payload: [0u8; 32] };
        assert(reply.payload@ =~= Seq::new(32, |i: int| 0u8));
        if msg.msg_type == WM_CMD_KEY {
            self.handle_key(msg.payload[0]);
            WmAction::Redraw { redraw: true }
        } else if msg.msg_type == WM_CMD_CREATE_WINDOW {
            reply.length = 4;
            match self.create_window(&msg.payload) {
                Some(idx) => {
                    put_u32(&mut reply.payload, 0, idx as u32);
                },
                None => {
                    reply.msg_type = WM_RESP_ERROR;
                },
            }
            WmAction::Reply { dest, reply, redraw: true }
        } else if msg.msg_type == WM_CMD_DRAW_RECT {
            let win_id = msg.payload[0] as usize;
            if win_id < 4 {
                if let Some(win) = self.windows[win_id] {
                    let rx = msg.payload[1] as usize;
                    let ry = msg.payload[2] as usize;
                    let rw = msg.payload[3] as usize;
                    let rh = msg.payload[4] as usize;
                    let color = rgb_exec(msg.payload[5], msg.payload[6], msg.payload[7]);
                    let px = win.x + 2 + rx;
                    let py = win.y + 20 + ry;
                    let max_w = win.w - 4;
                    let max_h = win.h - 22;
                    let draw_w = if rx + rw > max_w {
                        max_w.saturating_sub(rx)
                    } else {
                        rw
                    };
                    let draw_h = if ry + rh > max_h {
                        max_h.saturating_sub(ry)
                    } else {
                        rh
                    };
                    return WmAction::DrawRect { x: px, y: py, w: draw_w, h: draw_h, color, dest, reply };
                }
            }
            WmAction::Reply { dest, reply, redraw: false }
        } else if msg.msg_type == WM_CMD_DRAW_TEXT {
            let win_id = msg.payload[0] as usize;
            if win_id < 4 {
                if let Some(win) = self.windows[win_id] {
                    let tx = msg.payload[1] as usize;
                    let ty = msg.payload[2] as usize;
                    let color = rgb_exec(msg.payload[3], msg.payload[4], msg.payload[5]);
                    let mut text = [0u8; 20];
                    let mut i: usize = 0;
                    while i < 20
                        invariant
                            i <= 20,
                            forall|k: int| 0 <= k < i ==> #[trigger] text@[k] == msg.payload@[6 + k],
                        decreases 20 - i,
                    {
                        text[i] = msg.payload[6 + i];
                        i = i + 1;
                    }
                    assert(text@ =~= msg.payload@.subrange(6, 26));
                    let mut len: usize = 0;
                    while len < 20 && text[len] != 0
                        invariant
                            len <= 20,
                            text_len(text@, 0) == text_len(text@, len as int),
                        decreases 20 - len,
                    {
                        len = len + 1;
                    }
                    return WmAction::DrawText {
                        x: win.x + 2 + tx,
                        y: win.y + 20 + ty,
                        text,
                        len,
                        color,
                        dest,
                        reply,
                    };
                }
            }
            WmAction::Reply { dest, reply, redraw: false }
        } else if msg.msg_type == WM_CMD_UPDATE {
            WmAction::Flush { dest, reply }
        } else {
            reply.msg_type = WM_RESP_ERROR;
            WmAction::Reply { dest, reply, redraw: false }
        }
    }
}

/// The name the system monitor shows for task slot `i` (16 bytes).
pub open spec fn task_name(i: int) -> Seq<u8> {
    if i == 0 {
        seq![73u8, 100u8, 108u8, 101u8, 32u8, 47u8, 32u8, 83u8, 45u8, 77u8, 111u8, 100u8, 101u8, 32u8, 32u8, 32u8]
    } else if i == 1 {
        seq![103u8, 112u8, 117u8, 95u8, 100u8, 114u8, 105u8, 118u8, 101u8, 114u8, 95u8, 115u8, 114u8, 118u8, 32u8, 32u8]
    } else if i == 2 {
        seq![119u8, 105u8, 110u8, 100u8, 111u8, 119u8, 95u8, 109u8, 97u8, 110u8, 97u8, 103u8, 101u8, 114u8, 32u8, 32u8]
    } else if i == 3 {
        seq![110u8, 97u8, 109u8, 101u8, 115u8, 101u8, 114u8, 118u8, 101u8, 114u8, 32u8, 32u8, 32u8, 32u8, 32u8, 32u8]
    } else if i == 4 {
        seq![105u8, 110u8, 112u8, 117u8, 116u8, 95u8, 100u8, 114u8, 105u8, 118u8, 101u8, 114u8, 95u8, 115u8, 114u8, 118u8]
    } else if i == 5 {
        seq![119u8, 105u8, 110u8, 100u8, 111u8, 119u8, 95u8, 99u8, 108u8, 105u8, 101u8, 110u8, 116u8, 95u8, 49u8, 32u8]
    } else if i == 6 {
        seq![119u8, 105u8, 110u8, 100u8, 111u8, 119u8, 95u8, 99u8, 108u8, 105u8, 101u8, 110u8, 116u8, 95u8, 50u8, 32u8]
    } else if i == 7 {
        seq![118u8, 102u8, 115u8, 95u8, 115u8, 101u8, 114u8, 118u8, 101u8, 114u8, 32u8, 32u8, 32u8, 32u8, 32u8, 32u8]
    } else if i == 8 {
        seq![118u8, 102u8, 115u8, 95u8, 99u8, 108u8, 105u8, 101u8, 110u8, 116u8, 32u8, 32u8, 32u8, 32u8, 32u8, 32u8]
    } else if i == 9 {
        seq![115u8, 104u8, 101u8, 108u8, 108u8, 95u8, 116u8, 97u8, 115u8, 107u8, 32u8, 32u8, 32u8, 32u8, 32u8, 32u8]
    } else {
        seq![117u8, 110u8, 107u8, 110u8, 111u8, 119u8, 110u8, 95u8, 116u8, 97u8, 115u8, 107u8, 32u8, 32u8, 32u8, 32u8]
    }
}

/// The label the system monitor shows for a task status (11 bytes).
pub open spec fn status_label(s: TaskStatus) -> Seq<u8> {
    match s {
        TaskStatus::Unused => seq![85u8, 110u8, 117u8, 115u8, 101u8, 100u8, 32u8, 32u8, 32u8, 32u8, 32u8],
        TaskStatus::Ready => seq![82u8, 101u8, 97u8, 100u8, 121u8, 32u8, 32u8, 32u8, 32u8, 32u8, 32u8],
        TaskStatus::Running => seq![82u8, 117u8, 110u8, 110u8, 105u8, 110u8, 103u8, 32u8, 32u8, 32u8, 32u8],
        TaskStatus::BlockedSend => seq![66u8, 108u8, 111u8, 99u8, 107u8, 101u8, 100u8, 83u8, 101u8, 110u8, 100u8],
        TaskStatus::BlockedRecv => seq![66u8, 108u8, 111u8, 99u8, 107u8, 101u8, 100u8, 82u8, 101u8, 99u8, 118u8],
        TaskStatus::Exited => seq![69u8, 120u8, 105u8, 116u8, 101u8, 100u8, 32u8, 32u8, 32u8, 32u8, 32u8],
    }
}

fn task_name_bytes(i: usize) -> (r: [u8; 16])
    ensures
        r@ == task_name(i as int),
{
    if i == 0 {
        let r: [u8; 16] = [73, 100, 108, 101, 32, 47, 32, 83, 45, 77, 111, 100, 101, 32, 32, 32];
        assert(r@ =~= task_name(i as int));
        r
    } else if i == 1 {
        let r: [u8; 16] = [103, 112, 117, 95, 100, 114, 105, 118, 101, 114, 95, 115, 114, 118, 32, 32];
        assert(r@ =~= task_name(i as int));
        r
    } else if i == 2 {
        let r: [u8; 16] = [119, 105, 110, 100, 111, 119, 95, 109, 97, 110, 97, 103, 101, 114, 32, 32];
        assert(r@ =~= task_name(i as int));
        r
    } else if i == 3 {
        let r: [u8; 16] = [110, 97, 109, 101, 115, 101, 114, 118, 101, 114, 32, 32, 32, 32, 32, 32];
        assert(r@ =~= task_name(i as int));
        r
    } else if i == 4 {
        let r: [u8; 16] = [105, 110, 112, 117, 116, 95, 100, 114, 105, 118, 101, 114, 95, 115, 114, 118];
        assert(r@ =~= task_name(i as int));
        r
    } else if i == 5 {
        let r: [u8; 16] = [119, 105, 110, 100, 111, 119, 95, 99, 108, 105, 101, 110, 116, 95, 49, 32];
        assert(r@ =~= task_name(i as int));
        r
    } else if i == 6 {
        let r: [u8; 16] = [119, 105, 110, 100, 111, 119, 95, 99, 108, 105, 101, 110, 116, 95, 50, 32];
        assert(r@ =~= task_name(i as int));
        r
    } else if i == 7 {
        let r: [u8; 16] = [118, 102, 115, 95, 115, 101, 114, 118, 101, 114, 32, 32, 32, 32, 32, 32];
        assert(r@ =~= task_name(i as int));
        r
    } else if i == 8 {
        let r: [u8; 16] = [118, 102, 115, 95, 99, 108, 105, 101, 110, 116, 32, 32, 32, 32, 32, 32];
        assert(r@ =~= task_name(i as int));
        r
    } else if i == 9 {
        let r: [u8; 16] = [115, 104, 101, 108, 108, 95, 116, 97, 115, 107, 32, 32, 32, 32, 32, 32];
        assert(r@ =~= task_name(i as int));
        r
    } else {
        let r: [u8; 16] = [117, 110, 107, 110, 111, 119, 110, 95, 116, 97, 115, 107, 32, 32, 32, 32];
        assert(r@ =~= task_name(i as int));
        r
    }
}

fn status_label_bytes(s: TaskStatus) -> (r: [u8; 11])
    ensures
        r@ == status_label(s),
{
    match s {
        TaskStatus::Unused => {
            let r: [u8; 11] = [85, 110, 117, 115, 101, 100, 32, 32, 32, 32, 32];
            assert(r@ =~= status_label(s));
            r
        },
        TaskStatus::Ready => {
            let r: [u8; 11] = [82, 101, 97, 100, 121, 32, 32, 32, 32, 32, 32];
            assert(r@ =~= status_label(s));
            r
        },
        TaskStatus::Running => {
            let r: [u8; 11] = [82, 117, 110, 110, 105, 110, 103, 32, 32, 32, 32];
            assert(r@ =~= status_label(s));
            r
        },
        TaskStatus::BlockedSend => {
            let r: [u8; 11] = [66, 108, 111, 99, 107, 101, 100, 83, 101, 110, 100];
            assert(r@ =~= status_label(s));
            r
        },
        TaskStatus::BlockedRecv => {
            let r: [u8; 11] = [66, 108, 111, 99, 107, 101, 100, 82, 101, 99, 118];
            assert(r@ =~= status_label(s));
            r
        },
        TaskStatus::Exited => {
            let r: [u8; 11] = [69, 120, 105, 116, 101, 100, 32, 32, 32, 32, 32];
            assert(r@ =~= status_label(s));
            r
        },
    }
}

/// The row of the system monitor for task slot `i` with status `s`: the
/// slot digit, the task's name and its status, 32 bytes in all.
pub open spec fn monitor_line(i: int, s: TaskStatus) -> Seq<u8> {
    seq![(48 + i) as u8, 32u8, 32u8, 32u8] + task_name(i) + seq![32u8] + status_label(s)
}

/// `p` with the monitor rows of the used task slots from `i` on, one every
/// 12 pixels from row `y`.
pub open spec fn monitor_rows(p: Seq<u32>, x: usize, y: int, tasks: Seq<Task>, i: int) -> Seq<u32>
    decreases MAX_TASKS - i,
{
    if i < 0 || i >= MAX_TASKS {
        p
    } else if tasks[i].status == TaskStatus::Unused {
        monitor_rows(p, x, y, tasks, i + 1)
    } else {
        monitor_rows(
            utf8_text_pixels(p, x, y as usize, monitor_line(i, tasks[i].status), 0xFFC0CAF5u32),
            x,
            y + 12,
            tasks,
            i + 1,
        )
    }
}

/// The title of `w` up to its first zero byte.
pub open spec fn title_bytes(w: Window) -> Seq<u8> {
    w.title@.subrange(0, text_len(w.title@, 0))
}

/// `p` with the frame of `w` drawn: shadow, border, title bar, client area,
/// title and close mark.
pub open spec fn frame_pixels(p: Seq<u32>, w: Window) -> Seq<u32> {
    let border = if w.active {
        0xFF7AA2F7u32
    } else {
        0xFF565F89u32
    };
    let bar = if w.active {
        0xFF3D59A1u32
    } else {
        0xFF24283Bu32
    };
    let close_x = (w.x + w.w - 20) as usize;
    let p1 = rect_pixels(p, (w.x + 3) as usize, (w.y + 3) as usize, w.w, w.h, 0xFF0D0E15u32);
    let p2 = rect_pixels(p1, w.x, w.y, w.w, w.h, border);
    let p3 = rect_pixels(p2, (w.x + 2) as usize, (w.y + 2) as usize, (w.w - 4) as usize, 18, bar);
    let p4 = rect_pixels(
        p3,
        (w.x + 2) as usize,
        (w.y + 20) as usize,
        (w.w - 4) as usize,
        (w.h - 22) as usize,
        w.bg_color,
    );
    let p5 = utf8_text_pixels(p4, (w.x + 8) as usize, (w.y + 6) as usize, title_bytes(w), 0xFFFFFFFFu32);
    text_pixels(p5, close_x, close_x as int, w.y + 6, "x"@, 0xFFF7768Eu32)
}

/// `p` with the system monitor's table inside `w`: a header, a rule and a
/// row for each used task slot.
pub open spec fn monitor_pixels(p: Seq<u32>, w: Window, tasks: Seq<Task>) -> Seq<u32> {
    let x = (w.x + 8) as usize;
    let y = w.y + 26;
    let p1 = text_pixels(p, x, x as int, y, "PID  TASK NAME         STATUS"@, 0xFF9ECE6Au32);
    let p2 = text_pixels(p1, x, x as int, y + 12, "-----------------------------"@, 0xFF565F89u32);
    monitor_rows(p2, x, y + 24, tasks, 0)
}

/// The console's input line: "> ", the typed bytes and a cursor.
pub open spec fn prompt_line(typed: Seq<u8>) -> Seq<u8> {
    seq![62u8, 32u8] + typed + seq![95u8]
}

/// `p` with the keyboard console inside `w`: two lines of help, the input
/// line and the last command output, if any.
pub open spec fn console_pixels(p: Seq<u32>, w: Window, wm: WindowManager) -> Seq<u32> {
    let x = (w.x + 8) as usize;
    let y = w.y + 26;
    let p1 = text_pixels(p, x, x as int, y, "Interactive OS Shell (U-Mode)"@, 0xFF2AC3DEu32);
    let p2 = text_pixels(p1, x, x as int, y + 14, "Type command (e.g. help):"@, 0xFF565F89u32);
    let p3 = utf8_text_pixels(
        p2,
        x,
        (y + 28) as usize,
        prompt_line(wm.console@.subrange(0, wm.console_len as int)),
        0xFFFFFFFFu32,
    );
    if wm.shell_output_len > 0 {
        utf8_text_pixels(
            p3,
            x,
            (y + 44) as usize,
            wm.shell_output@.subrange(0, wm.shell_output_len as int),
            0xFFE0AF68u32,
        )
    } else {
        p3
    }
}

/// `p` with window `w` drawn: its frame, then the monitor's table in window
/// 0 or the console in window 1.
pub open spec fn window_pixels(p: Seq<u32>, w: Window, wm: WindowManager, tasks: Seq<Task>) -> Seq<u32> {
    let f = frame_pixels(p, w);
    if w.id == 0 {
        monitor_pixels(f, w, tasks)
    } else if w.id == 1 {
        console_pixels(f, w, wm)
    } else {
        f
    }
}

/// `p` with the windows of the slots from `i` on drawn in slot order.
pub open spec fn windows_pixels(p: Seq<u32>, wm: WindowManager, tasks: Seq<Task>, i: int) -> Seq<u32>
    decreases 4 - i,
{
    if i < 0 || i >= 4 {
        p
    } else {
        let q = match wm.windows[i] {
            Some(w) => window_pixels(p, w, wm, tasks),
            None => p,
        };
        windows_pixels(q, wm, tasks, i + 1)
    }
}

/// The whole screen composed over `p`: the desktop, the top bar with its
/// caption, then the windows.
pub open spec fn composite_pixels(p: Seq<u32>, wm: WindowManager, tasks: Seq<Task>) -> Seq<u32> {
    let b1 = rect_pixels(p, 0, 0, 640, 480, 0xFF1A1B26u32);
    let b2 = rect_pixels(b1, 0, 0, 640, 24, 0xFF16161Eu32);
    let b3 = text_pixels(
        b2,
        10,
        10,
        8,
        "AetherV OS  |  U-Mode Window Manager  |  Tasks: 7  |  Idle CPU: 0%"@,
        0xFFC0CAF5u32,
    );
    windows_pixels(b3, wm, tasks, 0)
}

fn monitor_line_bytes(i: usize, s: TaskStatus) -> (r: [u8; 32])
    requires
        i < MAX_TASKS,
    ensures
        r@ == monitor_line(i as int, s),
{
    let name = task_name_bytes(i);
    let label = status_label_bytes(s);
    let mut line = [32u8; 32];
    line[0] = 48 + i as u8;
    let mut j: usize = 0;
    while j < 16
        invariant
            j <= 16,
            line@.len() == 32,
            line@[0] == (48 + i) as u8,
            forall|k: int| 1 <= k < 4 ==> #[trigger] line@[k] == 32u8,
            forall|k: int| 4 <= k < 4 + j ==> #[trigger] line@[k] == name@[k - 4],
            forall|k: int| 4 + j <= k < 32 ==> #[trigger] line@[k] == 32u8,
        decreases 16 - j,
    {
        line[4 + j] = name[j];
        j = j + 1;
    }
    let mut j: usize = 0;
    while j < 11
        invariant
            j <= 11,
            line@.len() == 32,
            line@[0] == (48 + i) as u8,
            forall|k: int| 1 <= k < 4 ==> #[trigger] line@[k] == 32u8,
            forall|k: int| 4 <= k < 20 ==> #[trigger] line@[k] == name@[k - 4],
            line@[20] == 32u8,
            forall|k: int| 21 <= k < 21 + j ==> #[trigger] line@[k] == label@[k - 21],
            forall|k: int| 21 + j <= k < 32 ==> #[trigger] line@[k] == 32u8,
        decreases 11 - j,
    {
        line[21 + j] = label[j];
        j = j + 1;
    }
    assert(line@ =~= monitor_line(i as int, s));
    line
}

fn draw_frame(fb: &mut Framebuffer, w: Window)
    requires
        old(fb).wf(),
        window_ok(w),
    ensures
        final(fb).wf(),
        final(fb).pixels@ == frame_pixels(old(fb).pixels@, w),
{
    draw_rect(fb, w.x + 3, w.y + 3, w.w, w.h, 0xFF0D0E15);
    let border: u32 = if w.active {
        0xFF7AA2F7
    } else {
        0xFF565F89
    };
    draw_rect(fb, w.x, w.y, w.w, w.h, border);
    let bar: u32 = if w.active {
        0xFF3D59A1
    } else {
        0xFF24283B
    };
    draw_rect(fb, w.x + 2, w.y + 2, w.w - 4, 18, bar);
    draw_rect(fb, w.x + 2, w.y + 20, w.w - 4, w.h - 22, w.bg_color);
    let mut len: usize = 0;
    while len < 16 && w.title[len] != 0
        invariant
            len <= 16,
            text_len(w.title@, 0) == text_len(w.title@, len as int),
        decreases 16 - len,
    {
        len = len + 1;
    }
    let title = vstd::slice::slice_subrange(w.title.as_slice(), 0, len);
    draw_utf8(fb, w.x + 8, w.y + 6, title, 0xFFFFFFFF);
    draw_string(fb, w.x + w.w - 20, w.y + 6, "x", 0xFFF7768E);
}

fn draw_monitor(fb: &mut Framebuffer, w: Window, tasks: &Vec<Task>)
    requires
        old(fb).wf(),
        window_ok(w),
        tasks@.len() == MAX_TASKS,
    ensures
        final(fb).wf(),
        final(fb).pixels@ == monitor_pixels(old(fb).pixels@, w, tasks@),
{
    let x = w.x + 8;
    let y = w.y + 26;
    draw_string(fb, x, y, "PID  TASK NAME         STATUS", 0xFF9ECE6A);
    draw_string(fb, x, y + 12, "-----------------------------", 0xFF565F89);
    let ghost start = fb.pixels@;
    let mut row_y = y + 24;
    let mut i: usize = 0;
    while i < MAX_TASKS
        invariant
            fb.wf(),
            tasks@.len() == MAX_TASKS,
            i <= MAX_TASKS,
            x == w.x + 8,
            w.x <= 1024,
            y == w.y + 26,
            w.y <= 1024,
            row_y <= y + 24 + 12 * i,
            monitor_rows(fb.pixels@, x, row_y as int, tasks@, i as int) == monitor_rows(
                start,
                x,
                y + 24,
                tasks@,
                0,
            ),
        decreases MAX_TASKS - i,
    {
        let t = tasks[i];
        if t.status != TaskStatus::Unused {
            let line = monitor_line_bytes(i, t.status);
            draw_utf8(fb, x, row_y, line.as_slice(), 0xFFC0CAF5);
            row_y = row_y + 12;
        }
        i = i + 1;
    }
}

fn draw_console(fb: &mut Framebuffer, w: Window, wm: &WindowManager)
    requires
        old(fb).wf(),
        window_ok(w),
        wm.wf(),
    ensures
        final(fb).wf(),
        final(fb).pixels@ == console_pixels(old(fb).pixels@, w, *wm),
{
    let x = w.x + 8;
    let y = w.y + 26;
    draw_string(fb, x, y, "Interactive OS Shell (U-Mode)", 0xFF2AC3DE);
    draw_string(fb, x, y + 14, "Type command (e.g. help):", 0xFF565F89);
    let mut line = [32u8; 40];
    line[0] = 62;
    line[1] = 32;
    let len = wm.console_len;
    let mut j: usize = 0;
    while j < len
        invariant
            len == wm.console_len <= CONSOLE_MAX,
            j <= len,
            line@.len() == 40,
            line@[0] == 62u8,
            line@[1] == 32u8,
            forall|k: int| 2 <= k < 2 + j ==> #[trigger] line@[k] == wm.console@[k - 2],
        decreases len - j,
    {
        line[2 + j] = wm.console[j];
        j = j + 1;
    }
    line[2 + len] = 95;
    let typed = vstd::slice::slice_subrange(line.as_slice(), 0, 3 + len);
    assert(typed@ =~= prompt_line(wm.console@.subrange(0, wm.console_len as int)));
    draw_utf8(fb, x, y + 28, typed, 0xFFFFFFFF);
    if wm.shell_output_len > 0 {
        let out = vstd::slice::slice_subrange(wm.shell_output.as_slice(), 0, wm.shell_output_len);
        draw_utf8(fb, x, y + 44, out, 0xFFE0AF68);
    }
}

impl WindowManager {
    /// Draws the whole screen on `fb`, as `composite_pixels` describes: the
    /// desktop and top bar, then each window in slot order, the system
    /// monitor listing the used task slots of `sched`.
    pub fn composite(&self, fb: &mut Framebuffer, sched: &SimpleScheduler)
        requires
            self.wf(),
            old(fb).wf(),
            sched.wf(),
        ensures
            final(fb).wf(),
            final(fb).pixels@ == composite_pixels(old(fb).pixels@, *self, sched.tasks@),
    {
        draw_rect(fb, 0, 0, SCREEN_WIDTH, SCREEN_HEIGHT, 0xFF1A1B26);
        draw_rect(fb, 0, 0, SCREEN_WIDTH, 24, 0xFF16161E);
        draw_string(
            fb,
            10,
            8,
            "AetherV OS  |  U-Mode Window Manager  |  Tasks: 7  |  Idle CPU: 0%",
            0xFFC0CAF5,
        );
        let ghost start = fb.pixels@;
        let mut idx: usize = 0;
        while idx < 4
            invariant
                self.wf(),
                sched.wf(),
                fb.wf(),
                idx <= 4,
                windows_pixels(fb.pixels@, *self, sched.tasks@, idx as int) == windows_pixels(
                    start,
                    *self,
                    sched.tasks@,
                    0,
                ),
            decreases 4 - idx,
        {
            if let Some(w) = self.windows[idx] {
                assert(window_ok(w) && w.id == idx);
                draw_frame(fb, w);
                if w.id == 0 {
                    draw_monitor(fb, w, &sched.tasks);
                } else if w.id == 1 {
                    draw_console(fb, w, self);
                }
            }
            idx = idx + 1;
        }
    }
}

} // verus!
