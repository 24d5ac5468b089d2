//! The two demo clients of the window manager: a bouncing ball and a
//! counter with a progress bar; and the messages they draw with.
use vstd::prelude::*;
use crate::task::IpcMessage;
use crate::ipc::{
    WM_CMD_CREATE_WINDOW, WM_CMD_DRAW_RECT, WM_CMD_DRAW_TEXT, WM_CMD_UPDATE, WM_RESP_SUCCESS,
    u32_of_le, u32_from_bytes,
};

verus! {

/// 10 to the power `k`.
pub open spec fn pow10(k: nat) -> nat
    decreases k,
{
    if k == 0 {
        1
    } else {
        10 * pow10((k - 1) as nat)
    }
}

/// The number of decimal digits of `v` (1 for 0).
pub open spec fn num_digits(v: nat) -> nat
    decreases v,
{
    if v < 10 {
        1
    } else {
        1 + num_digits(v / 10)
    }
}

/// The decimal digits of `v`, most significant first, as ASCII.
pub open spec fn decimal(v: nat) -> Seq<u8> {
    Seq::new(num_digits(v), |i: int| (48 + (v / pow10((num_digits(v) - 1 - i) as nat)) % 10) as u8)
}

proof fn lemma_pow10_pos(k: nat)
    ensures
        pow10(k) >= 1,
    decreases k,
{
    if k > 0 {
        lemma_pow10_pos((k - 1) as nat);
    }
}

/// Dividing by 10 `k` times divides by 10 to the `k`.
proof fn lemma_div_pow10(v: nat, k: nat)
    ensures
        (v / pow10(k)) / 10 == v / pow10(k + 1),
{
    lemma_pow10_pos(k);
    vstd::arithmetic::div_mod::lemma_div_denominator(v as int, pow10(k) as int, 10);
    assert(pow10(k + 1) == 10 * pow10(k));
    vstd::arithmetic::mul::lemma_mul_is_commutative(pow10(k) as int, 10);
}

/// Writes the decimal digits of `val` at the start of `buf` and returns how
/// many there are.
pub fn u32_to_str(val: u32, buf: &mut [u8]) -> (r: usize)
    requires
        old(buf)@.len() >= num_digits(val as nat),
    ensures
        r == num_digits(val as nat),
        final(buf)@.len() == old(buf)@.len(),
        final(buf)@.subrange(0, r as int) == decimal(val as nat),
        final(buf)@.subrange(r as int, final(buf)@.len() as int) == old(buf)@.subrange(
            r as int,
            old(buf)@.len() as int,
        ),
{
    if val == 0 {
        buf[0] = 48;
        proof {
            assert(pow10(0) == 1);
            assert(buf@.subrange(0, 1) =~= decimal(0));
            assert(buf@.subrange(1, buf@.len() as int) =~= old(buf)@.subrange(1, old(buf)@.len() as int));
        }
        return 1;
    }
    let blen = buf.len();
    let mut len: usize = 0;
    let mut temp = val;
    while temp > 0
        invariant
            0 < val,
            len <= num_digits(val as nat),
            num_digits(val as nat) <= blen,
            temp > 0 ==> len + num_digits(temp as nat) == num_digits(val as nat),
            temp == 0 ==> len == num_digits(val as nat),
        decreases temp,
    {
        len = len + 1;
        temp = temp / 10;
    }
    let ghost n = len as nat;
    let mut temp = val;
    let mut i = len;
    proof {
        assert(pow10(0) == 1);
        vstd::arithmetic::div_mod::lemma_div_basics(val as int);
    }
    while i > 0
        invariant
            n == num_digits(val as nat),
            n == len,
            i <= len,
            len <= buf@.len(),
            buf@.len() == old(buf)@.len(),
            temp as nat == (val as nat) / pow10((len - i) as nat),
            forall|k: int| i <= k < len ==> #[trigger] buf@[k] == decimal(val as nat)[k],
            forall|k: int| len <= k < buf@.len() ==> #[trigger] buf@[k] == old(buf)@[k],
        decreases i,
    {
        i = i - 1;
        proof {
            lemma_div_pow10(val as nat, (len - 1 - i) as nat);
        }
        buf[i] = 48 + (temp % 10) as u8;
        temp = temp / 10;
    }
    assert(buf@.subrange(0, len as int) =~= decimal(val as nat));
    assert(buf@.subrange(len as int, buf@.len() as int) =~= old(buf)@.subrange(
        len as int,
        old(buf)@.len() as int,
    ));
    len
}

} // verus!

verus! {

/// A number below 10 to the `k` has at most `k` digits.
pub proof fn lemma_num_digits_bound(v: nat, k: nat)
    requires
        k >= 1,
        v < pow10(k),
    ensures
        num_digits(v) <= k,
    decreases v,
{
    if v >= 10 {
        assert(pow10(k) == 10 * pow10((k - 1) as nat));
        if k == 1 {
            assert(pow10(0) == 1);
        } else {
            assert(v / 10 < pow10((k - 1) as nat)) by (nonlinear_arith)
                requires
                    v < 10 * pow10((k - 1) as nat),
            ;
            lemma_num_digits_bound(v / 10, (k - 1) as nat);
        }
    }
}

/// A `u32` has at most ten decimal digits.
pub proof fn lemma_u32_digits(v: u32)
    ensures
        num_digits(v as nat) <= 10,
{
    reveal_with_fuel(pow10, 11);
    assert(pow10(10) == 10_000_000_000);
    lemma_num_digits_bound(v as nat, 10);
}

/// `m` is a window-creation request: the title in payload bytes 0..16, the
/// geometry hint in bytes 16..20, the background colour in bytes 20..23,
/// length 24.
pub open spec fn is_create_msg(m: IpcMessage, title: Seq<u8>, geometry: Seq<u8>, color: Seq<u8>) -> bool {
    &&& m.sender == 0
    &&& m.msg_type == WM_CMD_CREATE_WINDOW
    &&& m.length == 24
    &&& m.reserved == 0
    &&& m.payload@ == title + geometry + color + Seq::new(9, |i: int| 0u8)
}

/// `m` asks to fill the `w` by `h` rectangle at (`x`, `y`) of window `win`
/// with the colour `color` (red, green, blue).
pub open spec fn is_rect_msg(m: IpcMessage, win: u8, x: u8, y: u8, w: u8, h: u8, color: Seq<u8>) -> bool {
    &&& m.sender == 0
    &&& m.msg_type == WM_CMD_DRAW_RECT
    &&& m.length == 8
    &&& m.reserved == 0
    &&& m.payload@ == seq![win, x, y, w, h] + color + Seq::new(24, |i: int| 0u8)
}

/// `m` asks to draw the 20-byte zero-terminated `text` at (`x`, `y`) of
/// window `win` in the colour `color`.
pub open spec fn is_text_msg(m: IpcMessage, win: u8, x: u8, y: u8, color: Seq<u8>, text: Seq<u8>) -> bool {
    &&& m.sender == 0
    &&& m.msg_type == WM_CMD_DRAW_TEXT
    &&& m.length == 26
    &&& m.reserved == 0
    &&& m.payload@ == seq![win, x, y] + color + text + Seq::new(6, |i: int| 0u8)
}

/// `m` asks the window manager to put the screen on display.
pub open spec fn is_update_msg(m: IpcMessage) -> bool {
    &&& m.sender == 0
    &&& m.msg_type == WM_CMD_UPDATE
    &&& m.length == 0
    &&& m.reserved == 0
    &&& m.payload@ == Seq::new(32, |i: int| 0u8)
}

/// A window-creation request (see `is_create_msg`).
pub fn create_window_msg(title: &[u8; 16], geometry: &[u8; 4], color: &[u8; 3]) -> (r: IpcMessage)
    ensures
        is_create_msg(r, title@, geometry@, color@),
{
    let mut p = [0u8; 32];
    let mut i: usize = 0;
    while i < 16
        invariant
            i <= 16,
            forall|k: int| 0 <= k < i ==> #[trigger] p@[k] == title@[k],
            forall|k: int| 16 <= k < 32 ==> #[trigger] p@[k] == 0,
        decreases 16 - i,
    {
        p[i] = title[i];
        i = i + 1;
    }
    p[16] = geometry[0];
    p[17] = geometry[1];
    p[18] = geometry[2];
    p[19] = geometry[3];
    p[20] = color[0];
    p[21] = color[1];
    p[22] = color[2];
    let r = IpcMessage { sender: 0, msg_type: WM_CMD_CREATE_WINDOW, length: 24, reserved: 0, payload: p };
    assert(r.payload@ =~= title@ + geometry@ + color@ + Seq::new(9, |i: int| 0u8));
    r
}

/// A rectangle request (see `is_rect_msg`); the window id is cut to a byte.
pub fn draw_rect_msg(win: usize, x: u8, y: u8, w: u8, h: u8, color: &[u8; 3]) -> (r: IpcMessage)
    ensures
        is_rect_msg(r, win as u8, x, y, w, h, color@),
{
    let mut p = [0u8; 32];
    p[0] = win as u8;
    p[1] = x;
    p[2] = y;
    p[3] = w;
    p[4] = h;
    p[5] = color[0];
    p[6] = color[1];
    p[7] = color[2];
    let r = IpcMessage { sender: 0, msg_type: WM_CMD_DRAW_RECT, length: 8, reserved: 0, payload: p };
    assert(r.payload@ =~= seq![win as u8, x, y, w, h] + color@ + Seq::new(24, |i: int| 0u8));
    r
}

/// A text request (see `is_text_msg`); the window id is cut to a byte.
pub fn draw_text_msg(win: usize, x: u8, y: u8, color: &[u8; 3], text: &[u8; 20]) -> (r: IpcMessage)
    ensures
        is_text_msg(r, win as u8, x, y, color@, text@),
{
    let mut p = [0u8; 32];
    p[0] = win as u8;
    p[1] = x;
    p[2] = y;
    p[3] = color[0];
    p[4] = color[1];
    p[5] = color[2];
    let mut i: usize = 0;
    while i < 20
        invariant
            i <= 20,
            p@[0] == win as u8,
            p@[1] == x,
            p@[2] == y,
            p@[3] == color@[0],
            p@[4] == color@[1],
            p@[5] == color@[2],
            forall|k: int| 6 <= k < 6 + i ==> #[trigger] p@[k] == text@[k - 6],
            forall|k: int| 26 <= k < 32 ==> #[trigger] p@[k] == 0,
        decreases 20 - i,
    {
        p[6 + i] = text[i];
        i = i + 1;
    }
    let r = IpcMessage { sender: 0, msg_type: WM_CMD_DRAW_TEXT, length: 26, reserved: 0, payload: p };
    assert(r.payload@ =~= seq![win as u8, x, y] + color@ + text@ + Seq::new(6, |i: int| 0u8));
    r
}

/// A screen-update request (see `is_update_msg`).
pub fn update_msg() -> (r: IpcMessage)
    ensures
        is_update_msg(r),
{
    let r = IpcMessage { sender: 0, msg_type: WM_CMD_UPDATE, length: 0, reserved: 0, payload: [0u8; 32] };
    assert(r.payload@ =~= Seq::new(32, |i: int| 0u8));
    r
}

/// The window id a creation exchange yields: the `u32` in payload bytes
/// 0..4 of a successful reply, 0 when the exchange failed.
pub fn window_id_from_reply(send_result: isize, recv_result: isize, reply: &IpcMessage) -> (r: usize)
    ensures
        r == (if send_result == 0 && recv_result == 0 && reply.msg_type == WM_RESP_SUCCESS {
            u32_of_le(reply.payload[0], reply.payload[1], reply.payload[2], reply.payload[3]) as usize
        } else {
            0
        }),
{
    if send_result == 0 && recv_result == 0 && reply.msg_type == WM_RESP_SUCCESS {
        u32_from_bytes(&reply.payload, 0) as usize
    } else {
        0
    }
}

/// "Bouncing Ball" padded with zeros to 16 bytes.
pub open spec fn ball_title() -> Seq<u8> {
    seq![66u8, 111u8, 117u8, 110u8, 99u8, 105u8, 110u8, 103u8, 32u8, 66u8, 97u8, 108u8, 108u8, 0u8,
        0u8, 0u8]
}

/// "Bouncing Ball Demo." padded to 20 bytes.
pub open spec fn ball_caption() -> Seq<u8> {
    seq![66u8, 111u8, 117u8, 110u8, 99u8, 105u8, 110u8, 103u8, 32u8, 66u8, 97u8, 108u8, 108u8, 32u8,
        68u8, 101u8, 109u8, 111u8, 46u8, 0u8]
}

/// "O" padded to 20 bytes: the ball.
pub open spec fn ball_glyph() -> Seq<u8> {
    seq![79u8] + Seq::new(19, |i: int| 0u8)
}

/// The bouncing-ball client: its window and the ball's position and
/// velocity in window coordinates.
pub struct BallClient {
    win_id: usize,
    x: i32,
    y: i32,
    dx: i32,
    dy: i32,
}

impl BallClient {
    /// The window the ball is drawn in.
    pub closed spec fn window(&self) -> usize {
        self.win_id
    }

    /// The ball's position.
    pub closed spec fn pos(&self) -> (int, int) {
        (self.x as int, self.y as int)
    }

    /// The ball's velocity.
    pub closed spec fn velocity(&self) -> (int, int) {
        (self.dx as int, self.dy as int)
    }

    /// The states the ball reaches from its start: it moves 6 pixels a
    /// step horizontally between columns 2 and 260 and 4 pixels vertically
    /// between rows 2 and 162, turning at each edge.
    pub closed spec fn wf(&self) -> bool {
        &&& self.x % 6 == 2
        &&& 2 <= self.x <= 260
        &&& (self.dx == 6 && self.x <= 254) || (self.dx == -6 && self.x >= 8)
        &&& self.y % 4 == 2
        &&& 2 <= self.y <= 162
        &&& (self.dy == 4 && self.y <= 158) || (self.dy == -4 && self.y >= 6)
    }

    /// The ball stays inside its window: in every state `new` starts and
    /// `step` keeps (`wf`), the ball is drawn at a column from 2 to 260 and
    /// a row from 2 to 162 of the 266 by 168 client area.
    pub proof fn law_ball_stays_in_window(&self)
        requires
            self.wf(),
        ensures
            2 <= self.pos().0 <= 260,
            2 <= self.pos().1 <= 162,
    {
    }

    /// The request that opens the client's window.
    pub fn create_request() -> (r: IpcMessage)
        ensures
            is_create_msg(r, ball_title(), seq![30u8, 240u8, 135u8, 95u8], seq![30u8, 30u8, 46u8]),
    {
        let title: [u8; 16] = [66, 111, 117, 110, 99, 105, 110, 103, 32, 66, 97, 108, 108, 0, 0, 0];
        let geometry: [u8; 4] = [30, 240, 135, 95];
        let color: [u8; 3] = [30, 30, 46];
        assert(title@ =~= ball_title());
        assert(geometry@ =~= seq![30u8, 240u8, 135u8, 95u8]);
        assert(color@ =~= seq![30u8, 30u8, 46u8]);
        create_window_msg(&title, &geometry, &color)
    }

    /// The ball at (20, 30) moving by (6, 4) in window `win_id`.
    pub fn new(win_id: usize) -> (r: Self)
        ensures
            r.wf(),
            r.window() == win_id,
            r.pos() == (20int, 30int),
            r.velocity() == (6int, 4int),
    {
        BallClient { win_id, x: 20, y: 30, dx: 6, dy: 4 }
    }

    /// Moves the ball one step; a coordinate at or beyond an edge (4 or
    /// less, 258 or more across; 4 or less, 160 or more down) turns the
    /// velocity around.
    pub fn step(&mut self)
        requires
            old(self).wf(),
        ensures
            final(self).wf(),
            final(self).window() == old(self).window(),
            ({
                let nx = old(self).pos().0 + old(self).velocity().0;
                let ny = old(self).pos().1 + old(self).velocity().1;
                &&& final(self).pos() == (nx, ny)
                &&& final(self).velocity().0 == (if nx <= 4 || nx >= 258 {
                    -old(self).velocity().0
                } else {
                    old(self).velocity().0
                })
                &&& final(self).velocity().1 == (if ny <= 4 || ny >= 160 {
                    -old(self).velocity().1
                } else {
                    old(self).velocity().1
                })
            }),
    {
        self.x = self.x + self.dx;
        self.y = self.y + self.dy;
        if self.x <= 4 || self.x >= 258 {
            self.dx = -self.dx;
        }
        if self.y <= 4 || self.y >= 160 {
            self.dy = -self.dy;
        }
    }

    /// The four requests of one frame: clear the client area, draw the
    /// caption, draw the ball at its position, update the screen.
    pub fn frame(&self) -> (r: [IpcMessage; 4])
        requires
            self.wf(),
        ensures
            is_rect_msg(r[0], self.window() as u8, 0, 0, 255, 168, seq![30u8, 30u8, 46u8]),
            is_text_msg(r[1], self.window() as u8, 10, 10, seq![255u8, 255u8, 255u8], ball_caption()),
            is_text_msg(
                r[2],
                self.window() as u8,
                self.pos().0 as u8,
                self.pos().1 as u8,
                seq![248u8, 196u8, 113u8],
                ball_glyph(),
            ),
            is_update_msg(r[3]),
    {
        let bg: [u8; 3] = [30, 30, 46];
        let white: [u8; 3] = [255, 255, 255];
        let ball_color: [u8; 3] = [248, 196, 113];
        let caption: [u8; 20] = [66, 111, 117, 110, 99, 105, 110, 103, 32, 66, 97, 108, 108, 32, 68, 101, 109, 111, 46, 0];
        let glyph: [u8; 20] = [79, 0, 0, 0, 0, 0, 0, 0, 0, 0, 0, 0, 0, 0, 0, 0, 0, 0, 0, 0];
        assert(bg@ =~= seq![30u8, 30u8, 46u8]);
        assert(white@ =~= seq![255u8, 255u8, 255u8]);
        assert(ball_color@ =~= seq![248u8, 196u8, 113u8]);
        assert(caption@ =~= ball_caption());
        assert(glyph@ =~= ball_glyph());
        [
            draw_rect_msg(self.win_id, 0, 0, 255, 168, &bg),
            draw_text_msg(self.win_id, 10, 10, &white, &caption),
            draw_text_msg(self.win_id, self.x as u8, self.y as u8, &ball_color, &glyph),
            update_msg(),
        ]
    }
}

/// "Performance" padded with zeros to 16 bytes.
pub open spec fn counter_title() -> Seq<u8> {
    seq![80u8, 101u8, 114u8, 102u8, 111u8, 114u8, 109u8, 97u8, 110u8, 99u8, 101u8, 0u8, 0u8, 0u8, 0u8,
        0u8]
}

/// "Counter: "
pub open spec fn counter_label() -> Seq<u8> {
    seq![67u8, 111u8, 117u8, 110u8, 116u8, 101u8, 114u8, 58u8, 32u8]
}

/// "System tick active" padded to 20 bytes.
pub open spec fn tick_caption() -> Seq<u8> {
    seq![83u8, 121u8, 115u8, 116u8, 101u8, 109u8, 32u8, 116u8, 105u8, 99u8, 107u8, 32u8, 97u8, 99u8,
        116u8, 105u8, 118u8, 101u8, 0u8, 0u8]
}

/// "Counter: " and the decimal value of `counter`, padded to 20 bytes.
pub open spec fn counter_line(counter: u32) -> Seq<u8> {
    let t = counter_label() + decimal(counter as nat);
    t + Seq::new((20 - t.len()) as nat, |i: int| 0u8)
}

/// A 15-cell progress bar in brackets at step `progress`: '=' before it,
/// '>' at it, blanks after, then blanks to 20 bytes.
pub open spec fn progress_line(progress: int) -> Seq<u8> {
    Seq::new(
        20,
        |i: int|
            if i == 0 {
                91u8
            } else if 1 <= i <= 15 {
                if i - 1 < progress {
                    61u8
                } else if i - 1 == progress {
                    62u8
                } else {
                    32u8
                }
            } else if i == 16 {
                93u8
            } else {
                32u8
            },
    )
}

/// The text of the counter line (see `counter_line`).
pub fn counter_text(counter: u32) -> (r: [u8; 20])
    ensures
        r@ == counter_line(counter),
{
    proof {
        lemma_u32_digits(counter);
    }
    let mut t = [0u8; 20];
    t[0] = 67;
    t[1] = 111;
    t[2] = 117;
    t[3] = 110;
    t[4] = 116;
    t[5] = 101;
    t[6] = 114;
    t[7] = 58;
    t[8] = 32;
    let mut digits = [0u8; 10];
    let n = u32_to_str(counter, &mut digits);
    let mut i: usize = 0;
    while i < n
        invariant
            n == num_digits(counter as nat),
            n <= 10,
            i <= n,
            digits@.subrange(0, n as int) == decimal(counter as nat),
            forall|k: int| 0 <= k < 9 ==> #[trigger] t@[k] == counter_label()[k],
            forall|k: int| 9 <= k < 9 + i ==> #[trigger] t@[k] == decimal(counter as nat)[k - 9],
            forall|k: int| 9 + i <= k < 20 ==> #[trigger] t@[k] == 0,
        decreases n - i,
    {
        assert(digits@[i as int] == digits@.subrange(0, n as int)[i as int]);
        t[9 + i] = digits[i];
        i = i + 1;
    }
    assert(t@ =~= counter_line(counter));
    t
}

/// The progress bar for `counter`: step `(counter / 5) % 15`.
pub fn progress_bar(counter: u32) -> (r: [u8; 20])
    ensures
        r@ == progress_line(((counter / 5) % 15) as int),
{
    let progress = (counter / 5) % 15;
    let mut b = [32u8; 20];
    b[0] = 91;
    let mut i: usize = 0;
    while i < 15
        invariant
            i <= 15,
            progress < 15,
            b@[0] == 91u8,
            forall|k: int| 1 <= k < 1 + i ==> #[trigger] b@[k] == progress_line(progress as int)[k],
            forall|k: int| 1 + i <= k < 20 ==> #[trigger] b@[k] == 32u8,
        decreases 15 - i,
    {
        if (i as u32) < progress {
            b[1 + i] = 61;
        } else if (i as u32) == progress {
            b[1 + i] = 62;
        } else {
            b[1 + i] = 32;
        }
        i = i + 1;
    }
    b[16] = 93;
    assert(b@ =~= progress_line(progress as int));
    b
}

/// The counter client: its window and the tick count.
pub struct CounterClient {
    pub win_id: usize,
    pub counter: u32,
}

impl CounterClient {
    /// The request that opens the client's window.
    pub fn create_request() -> (r: IpcMessage)
        ensures
            is_create_msg(r, counter_title(), seq![165u8, 240u8, 140u8, 95u8], seq![26u8, 27u8, 38u8]),
    {
        let title: [u8; 16] = [80, 101, 114, 102, 111, 114, 109, 97, 110, 99, 101, 0, 0, 0, 0, 0];
        let geometry: [u8; 4] = [165, 240, 140, 95];
        let color: [u8; 3] = [26, 27, 38];
        assert(title@ =~= counter_title());
        assert(geometry@ =~= seq![165u8, 240u8, 140u8, 95u8]);
        assert(color@ =~= seq![26u8, 27u8, 38u8]);
        create_window_msg(&title, &geometry, &color)
    }

    /// The count at zero in window `win_id`.
    pub fn new(win_id: usize) -> (r: Self)
        ensures
            r.win_id == win_id,
            r.counter == 0,
    {
        CounterClient { win_id, counter: 0 }
    }

    /// One tick: the count grows by one, wrapping at 2^32.
    pub fn step(&mut self)
        ensures
            final(self).win_id == old(self).win_id,
            final(self).counter == (old(self).counter + 1) % 0x1_0000_0000,
    {
        self.counter = self.counter.wrapping_add(1);
    }

    /// The five requests of one frame: clear the client area, the counter
    /// line, the progress bar, the caption, and the screen update.
    pub fn frame(&self) -> (r: [IpcMessage; 5])
        ensures
            is_rect_msg(r[0], self.win_id as u8, 0, 0, 255, 168, seq![26u8, 27u8, 38u8]),
            is_text_msg(r[1], self.win_id as u8, 15, 20, seq![122u8, 162u8, 247u8], counter_line(self.counter)),
            is_text_msg(
                r[2],
                self.win_id as u8,
                15,
                45,
                seq![187u8, 154u8, 247u8],
                progress_line(((self.counter / 5) % 15) as int),
            ),
            is_text_msg(r[3], self.win_id as u8, 15, 80, seq![94u8, 211u8, 162u8], tick_caption()),
            is_update_msg(r[4]),
    {
        let bg: [u8; 3] = [26, 27, 38];
        let c1: [u8; 3] = [122, 162, 247];
        let c2: [u8; 3] = [187, 154, 247];
        let c3: [u8; 3] = [94, 211, 162];
        let caption: [u8; 20] = [83, 121, 115, 116, 101, 109, 32, 116, 105, 99, 107, 32, 97, 99, 116, 105, 118, 101, 0, 0];
        assert(bg@ =~= seq![26u8, 27u8, 38u8]);
        assert(c1@ =~= seq![122u8, 162u8, 247u8]);
        assert(c2@ =~= seq![187u8, 154u8, 247u8]);
        assert(c3@ =~= seq![94u8, 211u8, 162u8]);
        assert(caption@ =~= tick_caption());
        let line = counter_text(self.counter);
        let bar = progress_bar(self.counter);
        [
            draw_rect_msg(self.win_id, 0, 0, 255, 168, &bg),
            draw_text_msg(self.win_id, 15, 20, &c1, &line),
            draw_text_msg(self.win_id, 15, 45, &c2, &bar),
            draw_text_msg(self.win_id, 15, 80, &c3, &caption),
            update_msg(),
        ]
    }
}

} // verus!
