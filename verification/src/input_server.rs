//! The input server: turns keyboard events into characters, queues them, and
//! hands them out one by one.
use vstd::prelude::*;
use crate::task::IpcMessage;
use crate::drivers::input::VirtioInputEvent;
use crate::ipc::{INPUT_CMD_GET_KEY, INPUT_RESP_KEY, INPUT_RESP_EMPTY, NS_RESP_ERROR};

verus! {

/// The character of each key code below 58 without shift ('\0' for none).
pub open spec fn normal_map() -> Seq<char> {
    seq!['\0', '\0', '1', '2', '3', '4', '5', '6', '7', '8', '9', '0', '-', '=', '\x08', '\t', 'q',
        'w', 'e', 'r', 't', 'y', 'u', 'i', 'o', 'p', '[', ']', '\n', '\0', 'a', 's', 'd', 'f', 'g',
        'h', 'j', 'k', 'l', ';', '\'', '`', '\0', '\0', 'z', 'x', 'c', 'v', 'b', 'n', 'm', ',', '.',
        '/', '\0', '\0', '\0', ' ']
}

/// The character of each key code below 58 with shift ('\0' for none).
pub open spec fn shift_map() -> Seq<char> {
    seq!['\0', '\0', '!', '@', '#', '$', '%', '^', '/', '*', '(', '=', '_', '+', '\x08', '\t', 'Q',
        'W', 'E', 'R', 'T', 'Y', 'U', 'I', 'O', 'P', '{', '}', '\n', '\0', 'A', 'S', 'D', 'F', 'G',
        'H', 'J', 'K', 'L', ':', '"', '~', '\0', '\0', 'Z', 'X', 'C', 'V', 'B', 'N', 'M', '<', '>',
        '?', '\0', '\0', '\0', ' ']
}

/// The character of key `code` (shifted or not), or `None` for codes of 58
/// and above and for keys without one.
pub open spec fn key_char(code: u16, shift: bool) -> Option<char> {
    if code < 58 {
        let c = if shift {
            shift_map()[code as int]
        } else {
            normal_map()[code as int]
        };
        if c != '\0' {
            Some(c)
        } else {
            None
        }
    } else {
        None
    }
}

/// An upper-case ASCII letter.
pub open spec fn is_upper(c: char) -> bool {
    'A' <= c <= 'Z'
}

/// A lower-case ASCII letter.
pub open spec fn is_lower(c: char) -> bool {
    'a' <= c <= 'z'
}

/// The three letter rows of the US keyboard: "qwertyuiop" from key code
/// 16, "asdfghjkl" from 30, "zxcvbnm" from 44.
pub open spec fn top_row() -> Seq<char> {
    seq!['q', 'w', 'e', 'r', 't', 'y', 'u', 'i', 'o', 'p']
}

pub open spec fn home_row() -> Seq<char> {
    seq!['a', 's', 'd', 'f', 'g', 'h', 'j', 'k', 'l']
}

pub open spec fn bottom_row() -> Seq<char> {
    seq!['z', 'x', 'c', 'v', 'b', 'n', 'm']
}

/// Shift only changes the case of letters: a key that gives an upper-case
/// letter with shift gives the same letter in lower case (32 code points
/// further) without it, and the other way round.
pub proof fn law_shift_changes_letter_case(code: u16)
    ensures
        key_char(code, true) is Some && is_upper(key_char(code, true)->0) ==> key_char(code, false)
            is Some && key_char(code, false)->0 as u32 == key_char(code, true)->0 as u32 + 32,
        key_char(code, false) is Some && is_lower(key_char(code, false)->0) ==> key_char(code, true)
            is Some && key_char(code, false)->0 as u32 == key_char(code, true)->0 as u32 + 32,
{
    if code == 0 {
        assert(normal_map()[0] == '\0' && shift_map()[0] == '\0');
    } else if code == 1 {
        assert(normal_map()[1] == '\0' && shift_map()[1] == '\0');
    } else if code == 2 {
        assert(normal_map()[2] == '1' && shift_map()[2] == '!');
    } else if code == 3 {
        assert(normal_map()[3] == '2' && shift_map()[3] == '@');
    } else if code == 4 {
        assert(normal_map()[4] == '3' && shift_map()[4] == '#');
    } else if code == 5 {
        assert(normal_map()[5] == '4' && shift_map()[5] == '$');
    } else if code == 6 {
        assert(normal_map()[6] == '5' && shift_map()[6] == '%');
    } else if code == 7 {
        assert(normal_map()[7] == '6' && shift_map()[7] == '^');
    } else if code == 8 {
        assert(normal_map()[8] == '7' && shift_map()[8] == '/');
    } else if code == 9 {
        assert(normal_map()[9] == '8' && shift_map()[9] == '*');
    } else if code == 10 {
        assert(normal_map()[10] == '9' && shift_map()[10] == '(');
    } else if code == 11 {
        assert(normal_map()[11] == '0' && shift_map()[11] == '=');
    } else if code == 12 {
        assert(normal_map()[12] == '-' && shift_map()[12] == '_');
    } else if code == 13 {
        assert(normal_map()[13] == '=' && shift_map()[13] == '+');
    } else if code == 14 {
        assert(normal_map()[14] == '\x08' && shift_map()[14] == '\x08');
    } else if code == 15 {
        assert(normal_map()[15] == '\t' && shift_map()[15] == '\t');
    } else if code == 16 {
        assert(normal_map()[16] == 'q' && shift_map()[16] == 'Q');
    } else if code == 17 {
        assert(normal_map()[17] == 'w' && shift_map()[17] == 'W');
    } else if code == 18 {
        assert(normal_map()[18] == 'e' && shift_map()[18] == 'E');
    } else if code == 19 {
        assert(normal_map()[19] == 'r' && shift_map()[19] == 'R');
    } else if code == 20 {
        assert(normal_map()[20] == 't' && shift_map()[20] == 'T');
    } else if code == 21 {
        assert(normal_map()[21] == 'y' && shift_map()[21] == 'Y');
    } else if code == 22 {
        assert(normal_map()[22] == 'u' && shift_map()[22] == 'U');
    } else if code == 23 {
        assert(normal_map()[23] == 'i' && shift_map()[23] == 'I');
    } else if code == 24 {
        assert(normal_map()[24] == 'o' && shift_map()[24] == 'O');
    } else if code == 25 {
        assert(normal_map()[25] == 'p' && shift_map()[25] == 'P');
    } else if code == 26 {
        assert(normal_map()[26] == '[' && shift_map()[26] == '{');
    } else if code == 27 {
        assert(normal_map()[27] == ']' && shift_map()[27] == '}');
    } else if code == 28 {
        assert(normal_map()[28] == '\n' && shift_map()[28] == '\n');
    } else if code == 29 {
        assert(normal_map()[29] == '\0' && shift_map()[29] == '\0');
    } else if code == 30 {
        assert(normal_map()[30] == 'a' && shift_map()[30] == 'A');
    } else if code == 31 {
        assert(normal_map()[31] == 's' && shift_map()[31] == 'S');
    } else if code == 32 {
        assert(normal_map()[32] == 'd' && shift_map()[32] == 'D');
    } else if code == 33 {
        assert(normal_map()[33] == 'f' && shift_map()[33] == 'F');
    } else if code == 34 {
        assert(normal_map()[34] == 'g' && shift_map()[34] == 'G');
    } else if code == 35 {
        assert(normal_map()[35] == 'h' && shift_map()[35] == 'H');
    } else if code == 36 {
        assert(normal_map()[36] == 'j' && shift_map()[36] == 'J');
    } else if code == 37 {
        assert(normal_map()[37] == 'k' && shift_map()[37] == 'K');
    } else if code == 38 {
        assert(normal_map()[38] == 'l' && shift_map()[38] == 'L');
    } else if code == 39 {
        assert(normal_map()[39] == ';' && shift_map()[39] == ':');
    } else if code == 40 {
        assert(normal_map()[40] == '\'' && shift_map()[40] == '"');
    } else if code == 41 {
        assert(normal_map()[41] == '`' && shift_map()[41] == '~');
    } else if code == 42 {
        assert(normal_map()[42] == '\0' && shift_map()[42] == '\0');
    } else if code == 43 {
        assert(normal_map()[43] == '\0' && shift_map()[43] == '\0');
    } else if code == 44 {
        assert(normal_map()[44] == 'z' && shift_map()[44] == 'Z');
    } else if code == 45 {
        assert(normal_map()[45] == 'x' && shift_map()[45] == 'X');
    } else if code == 46 {
        assert(normal_map()[46] == 'c' && shift_map()[46] == 'C');
    } else if code == 47 {
        assert(normal_map()[47] == 'v' && shift_map()[47] == 'V');
    } else if code == 48 {
        assert(normal_map()[48] == 'b' && shift_map()[48] == 'B');
    } else if code == 49 {
        assert(normal_map()[49] == 'n' && shift_map()[49] == 'N');
    } else if code == 50 {
        assert(normal_map()[50] == 'm' && shift_map()[50] == 'M');
    } else if code == 51 {
        assert(normal_map()[51] == ',' && shift_map()[51] == '<');
    } else if code == 52 {
        assert(normal_map()[52] == '.' && shift_map()[52] == '>');
    } else if code == 53 {
        assert(normal_map()[53] == '/' && shift_map()[53] == '?');
    } else if code == 54 {
        assert(normal_map()[54] == '\0' && shift_map()[54] == '\0');
    } else if code == 55 {
        assert(normal_map()[55] == '\0' && shift_map()[55] == '\0');
    } else if code == 56 {
        assert(normal_map()[56] == '\0' && shift_map()[56] == '\0');
    } else if code == 57 {
        assert(normal_map()[57] == ' ' && shift_map()[57] == ' ');
    }
}

/// The letter keys follow the US layout: the codes from 16, 30 and 44 give
/// the letters of the top, home and bottom rows in order, and no other key
/// gives a lower-case letter; so each letter comes from exactly one key.
pub proof fn law_letters_follow_us_layout(code: u16)
    ensures
        16 <= code < 26 ==> key_char(code, false) == Some(top_row()[code - 16]),
        30 <= code < 39 ==> key_char(code, false) == Some(home_row()[code - 30]),
        44 <= code < 51 ==> key_char(code, false) == Some(bottom_row()[code - 44]),
        key_char(code, false) is Some && is_lower(key_char(code, false)->0) ==> (16 <= code < 26 || 30
            <= code < 39 || 44 <= code < 51),
{
    if code == 0 {
        assert(normal_map()[0] == '\0' && shift_map()[0] == '\0');
    } else if code == 1 {
        assert(normal_map()[1] == '\0' && shift_map()[1] == '\0');
    } else if code == 2 {
        assert(normal_map()[2] == '1' && shift_map()[2] == '!');
    } else if code == 3 {
        assert(normal_map()[3] == '2' && shift_map()[3] == '@');
    } else if code == 4 {
        assert(normal_map()[4] == '3' && shift_map()[4] == '#');
    } else if code == 5 {
        assert(normal_map()[5] == '4' && shift_map()[5] == '$');
    } else if code == 6 {
        assert(normal_map()[6] == '5' && shift_map()[6] == '%');
    } else if code == 7 {
        assert(normal_map()[7] == '6' && shift_map()[7] == '^');
    } else if code == 8 {
        assert(normal_map()[8] == '7' && shift_map()[8] == '/');
    } else if code == 9 {
        assert(normal_map()[9] == '8' && shift_map()[9] == '*');
    } else if code == 10 {
        assert(normal_map()[10] == '9' && shift_map()[10] == '(');
    } else if code == 11 {
        assert(normal_map()[11] == '0' && shift_map()[11] == '=');
    } else if code == 12 {
        assert(normal_map()[12] == '-' && shift_map()[12] == '_');
    } else if code == 13 {
        assert(normal_map()[13] == '=' && shift_map()[13] == '+');
    } else if code == 14 {
        assert(normal_map()[14] == '\x08' && shift_map()[14] == '\x08');
    } else if code == 15 {
        assert(normal_map()[15] == '\t' && shift_map()[15] == '\t');
    } else if code == 16 {
        assert(normal_map()[16] == 'q' && shift_map()[16] == 'Q');
    } else if code == 17 {
        assert(normal_map()[17] == 'w' && shift_map()[17] == 'W');
    } else if code == 18 {
        assert(normal_map()[18] == 'e' && shift_map()[18] == 'E');
    } else if code == 19 {
        assert(normal_map()[19] == 'r' && shift_map()[19] == 'R');
    } else if code == 20 {
        assert(normal_map()[20] == 't' && shift_map()[20] == 'T');
    } else if code == 21 {
        assert(normal_map()[21] == 'y' && shift_map()[21] == 'Y');
    } else if code == 22 {
        assert(normal_map()[22] == 'u' && shift_map()[22] == 'U');
    } else if code == 23 {
        assert(normal_map()[23] == 'i' && shift_map()[23] == 'I');
    } else if code == 24 {
        assert(normal_map()[24] == 'o' && shift_map()[24] == 'O');
    } else if code == 25 {
        assert(normal_map()[25] == 'p' && shift_map()[25] == 'P');
    } else if code == 26 {
        assert(normal_map()[26] == '[' && shift_map()[26] == '{');
    } else if code == 27 {
        assert(normal_map()[27] == ']' && shift_map()[27] == '}');
    } else if code == 28 {
        assert(normal_map()[28] == '\n' && shift_map()[28] == '\n');
    } else if code == 29 {
        assert(normal_map()[29] == '\0' && shift_map()[29] == '\0');
    } else if code == 30 {
        assert(normal_map()[30] == 'a' && shift_map()[30] == 'A');
    } else if code == 31 {
        assert(normal_map()[31] == 's' && shift_map()[31] == 'S');
    } else if code == 32 {
        assert(normal_map()[32] == 'd' && shift_map()[32] == 'D');
    } else if code == 33 {
        assert(normal_map()[33] == 'f' && shift_map()[33] == 'F');
    } else if code == 34 {
        assert(normal_map()[34] == 'g' && shift_map()[34] == 'G');
    } else if code == 35 {
        assert(normal_map()[35] == 'h' && shift_map()[35] == 'H');
    } else if code == 36 {
        assert(normal_map()[36] == 'j' && shift_map()[36] == 'J');
    } else if code == 37 {
        assert(normal_map()[37] == 'k' && shift_map()[37] == 'K');
    } else if code == 38 {
        assert(normal_map()[38] == 'l' && shift_map()[38] == 'L');
    } else if code == 39 {
        assert(normal_map()[39] == ';' && shift_map()[39] == ':');
    } else if code == 40 {
        assert(normal_map()[40] == '\'' && shift_map()[40] == '"');
    } else if code == 41 {
        assert(normal_map()[41] == '`' && shift_map()[41] == '~');
    } else if code == 42 {
        assert(normal_map()[42] == '\0' && shift_map()[42] == '\0');
    } else if code == 43 {
        assert(normal_map()[43] == '\0' && shift_map()[43] == '\0');
    } else if code == 44 {
        assert(normal_map()[44] == 'z' && shift_map()[44] == 'Z');
    } else if code == 45 {
        assert(normal_map()[45] == 'x' && shift_map()[45] == 'X');
    } else if code == 46 {
        assert(normal_map()[46] == 'c' && shift_map()[46] == 'C');
    } else if code == 47 {
        assert(normal_map()[47] == 'v' && shift_map()[47] == 'V');
    } else if code == 48 {
        assert(normal_map()[48] == 'b' && shift_map()[48] == 'B');
    } else if code == 49 {
        assert(normal_map()[49] == 'n' && shift_map()[49] == 'N');
    } else if code == 50 {
        assert(normal_map()[50] == 'm' && shift_map()[50] == 'M');
    } else if code == 51 {
        assert(normal_map()[51] == ',' && shift_map()[51] == '<');
    } else if code == 52 {
        assert(normal_map()[52] == '.' && shift_map()[52] == '>');
    } else if code == 53 {
        assert(normal_map()[53] == '/' && shift_map()[53] == '?');
    } else if code == 54 {
        assert(normal_map()[54] == '\0' && shift_map()[54] == '\0');
    } else if code == 55 {
        assert(normal_map()[55] == '\0' && shift_map()[55] == '\0');
    } else if code == 56 {
        assert(normal_map()[56] == '\0' && shift_map()[56] == '\0');
    } else if code == 57 {
        assert(normal_map()[57] == ' ' && shift_map()[57] == ' ');
    }
}

/// The character a key code stands for: see `key_char`.
pub fn keycode_to_char(code: u16, shift: bool) -> (r: Option<char>)
    ensures
        r == key_char(code, shift),
{
    let normal: [char; 58] = [
        '\0', '\0', '1', '2', '3', '4', '5', '6', '7', '8', '9', '0', '-', '=', '\x08', '\t', 'q',
        'w', 'e', 'r', 't', 'y', 'u', 'i', 'o', 'p', '[', ']', '\n', '\0', 'a', 's', 'd', 'f', 'g',
        'h', 'j', 'k', 'l', ';', '\'', '`', '\0', '\0', 'z', 'x', 'c', 'v', 'b', 'n', 'm', ',', '.',
        '/', '\0', '\0', '\0', ' ',
    ];
    let shifted: [char; 58] = [
        '\0', '\0', '!', '@', '#', '$', '%', '^', '/', '*', '(', '=', '_', '+', '\x08', '\t', 'Q',
        'W', 'E', 'R', 'T', 'Y', 'U', 'I', 'O', 'P', '{', '}', '\n', '\0', 'A', 'S', 'D', 'F', 'G',
        'H', 'J', 'K', 'L', ':', '"', '~', '\0', '\0', 'Z', 'X', 'C', 'V', 'B', 'N', 'M', '<', '>',
        '?', '\0', '\0', '\0', ' ',
    ];
    assert(normal@ =~= normal_map());
    assert(shifted@ =~= shift_map());
    let idx = code as usize;
    if idx < 58 {
        let c = if shift {
            shifted[idx]
        } else {
            normal[idx]
        };
        if c != '\0' {
            return Some(c);
        }
    }
    None
}

/// Number of slots of the key ring; one always stays empty, so it holds at
/// most 63 keys.
pub const KEY_RING_SIZE: usize = 64;

/// A ring buffer of typed characters: keys are added at `head` and taken at
/// `tail`.
pub struct KeyQueue {
    buf: [char; 64],
    head: usize,
    tail: usize,
}

impl KeyQueue {
    /// Both positions lie in the ring.
    pub closed spec fn wf(&self) -> bool {
        self.head < 64 && self.tail < 64
    }

    /// The queued keys, oldest first.
    pub closed spec fn contents(&self) -> Seq<char> {
        let len = (self.head + 64 - self.tail) % 64;
        Seq::new(len as nat, |i: int| self.buf@[(self.tail + i) % 64])
    }

    /// An empty queue.
    pub fn new() -> (r: Self)
        ensures
            r.wf(),
            r.contents() == Seq::<char>::empty(),
    {
        let r = KeyQueue { buf: ['\0'; 64], head: 0, tail: 0 };
        assert(r.contents() =~= Seq::<char>::empty());
        r
    }

    /// Adds `c` at the end unless 63 keys are queued already, in which case
    /// the key is dropped.
    pub fn push_key(&mut self, c: char)
        requires
            old(self).wf(),
        ensures
            final(self).wf(),
            old(self).contents().len() < 63 ==> final(self).contents() == old(self).contents().push(c),
            old(self).contents().len() >= 63 ==> final(self).contents() == old(self).contents(),
            final(self).contents() == queue_after_pushes(old(self).contents(), seq![c]),
    {
        proof {
            reveal_with_fuel(queue_after_pushes, 2);
            assert(seq![c].drop_first() =~= Seq::<char>::empty());
        }
        let next = (self.head + 1) % 64;
        if next != self.tail {
            let ghost old_contents = self.contents();
            self.buf[self.head] = c;
            self.head = next;
            assert(self.contents() =~= old_contents.push(c));
        }
    }

    /// Takes the oldest key, or `None` when the queue is empty.
    pub fn pop_key(&mut self) -> (r: Option<char>)
        requires
            old(self).wf(),
        ensures
            final(self).wf(),
            old(self).contents().len() == 0 ==> r is None && final(self).contents() == old(self).contents(),
            old(self).contents().len() > 0 ==> r == Some(old(self).contents()[0]) && final(self).contents() == old(self).contents().drop_first(),
            r == pops(old(self).contents(), 1)[0],
    {
        if self.tail == self.head {
            None
        } else {
            let ghost old_contents = self.contents();
            let c = self.buf[self.tail];
            self.tail = (self.tail + 1) % 64;
            assert(self.contents() =~= old_contents.drop_first());
            Some(c)
        }
    }
}

/// The input server's state: the key queue and whether a shift key is held.
pub struct InputServer {
    pub keys: KeyQueue,
    pub shift_pressed: bool,
}

/// Key event type.
pub const EV_KEY: u16 = 1;
/// Left shift key code.
pub const KEY_LEFTSHIFT: u16 = 42;
/// Right shift key code.
pub const KEY_RIGHTSHIFT: u16 = 54;

impl InputServer {
    /// No keys queued, shift released.
    pub fn new() -> (r: Self)
        ensures
            r.keys.wf(),
            r.keys.contents() == Seq::<char>::empty(),
            !r.shift_pressed,
    {
        InputServer { keys: KeyQueue::new(), shift_pressed: false }
    }

    /// Takes one device event: a key event (type 1) of a shift key sets the
    /// shift state to pressed on press (value 1) or repeat (value 2) and to
    /// released otherwise; a press or repeat of a key with a character
    /// (under the shift state after that update) queues the character.
    pub fn handle_event(&mut self, event: VirtioInputEvent)
        requires
            old(self).keys.wf(),
        ensures
            final(self).keys.wf(),
            ({
                let is_key = event.event_type == EV_KEY;
                let shift = if is_key && (event.code == KEY_LEFTSHIFT || event.code
                    == KEY_RIGHTSHIFT) {
                    event.value == 1 || event.value == 2
                } else {
                    old(self).shift_pressed
                };
                let pressed = is_key && (event.value == 1 || event.value == 2);
                &&& final(self).shift_pressed == shift
                &&& if pressed && key_char(event.code, shift) is Some {
                    if old(self).keys.contents().len() < 63 {
                        final(self).keys.contents() == old(self).keys.contents().push(
                            key_char(event.code, shift)->0,
                        )
                    } else {
                        final(self).keys.contents() == old(self).keys.contents()
                    }
                } else {
                    final(self).keys.contents() == old(self).keys.contents()
                }
            }),
    {
        if event.event_type == EV_KEY {
            if event.code == KEY_LEFTSHIFT || event.code == KEY_RIGHTSHIFT {
                self.shift_pressed = event.value == 1 || event.value == 2;
            }
            if event.value == 1 || event.value == 2 {
                if let Some(c) = keycode_to_char(event.code, self.shift_pressed) {
                    self.keys.push_key(c);
                }
            }
        }
    }

    /// Serves one request (not a notification) and returns the reply for its
    /// sender: a key request takes the oldest key (reply with the key as one
    /// byte, length 1) or answers that none is queued; any other command is
    /// an error.  The reply's sender field names the input server (4).
    pub fn handle_request(&mut self, msg: &IpcMessage) -> (r: IpcMessage)
        requires
            old(self).keys.wf(),
        ensures
            final(self).keys.wf(),
            final(self).shift_pressed == old(self).shift_pressed,
            r.sender == 4,
            r.reserved == 0,
            msg.msg_type == INPUT_CMD_GET_KEY && old(self).keys.contents().len() > 0 ==> {
                &&& final(self).keys.contents() == old(self).keys.contents().drop_first()
                &&& r.msg_type == INPUT_RESP_KEY
                &&& r.length == 1
                &&& r.payload@ == Seq::new(32, |i: int| 0u8).update(
                    0,
                    old(self).keys.contents()[0] as u8,
                )
            },
            msg.msg_type == INPUT_CMD_GET_KEY && old(self).keys.contents().len() == 0 ==> {
                &&& final(self).keys.contents() == old(self).keys.contents()
                &&& r.msg_type == INPUT_RESP_EMPTY
                &&& r.length == 0
                &&& r.payload@ == Seq::new(32, |i: int| 0u8)
            },
            msg.msg_type != INPUT_CMD_GET_KEY ==> {
                &&& final(self).keys.contents() == old(self).keys.contents()
                &&& r.msg_type == NS_RESP_ERROR
                &&& r.length == 0
                &&& r.payload@ == Seq::new(32, |i: int| 0u8)
            },
    {
        let mut reply = IpcMessage { sender: 4, msg_type: 0, length: 0, reserved: 0, payload: [0u8; 32] };
        assert(reply.payload@ =~= Seq::new(32, |i: int| 0u8));
        if msg.msg_type == INPUT_CMD_GET_KEY {
            match self.keys.pop_key() {
                Some(c) => {
                    reply.msg_type = INPUT_RESP_KEY;
                    reply.payload[0] = c as u8;
                    reply.length = 1;
                },
                None => {
                    reply.msg_type = INPUT_RESP_EMPTY;
                },
            }
        } else {
            reply.msg_type = NS_RESP_ERROR;
        }
        reply
    }
}

/// The keys queued after pushing `keys` in order onto a queue holding `q`
/// (see `KeyQueue::push_key`: a key is dropped while 63 are queued).
pub open spec fn queue_after_pushes(q: Seq<char>, keys: Seq<char>) -> Seq<char>
    decreases keys.len(),
{
    if keys.len() == 0 {
        q
    } else {
        queue_after_pushes(
            if q.len() < 63 {
                q.push(keys[0])
            } else {
                q
            },
            keys.drop_first(),
        )
    }
}

/// What `m` calls of `KeyQueue::pop_key` return, in order, on a queue
/// holding `q`.
pub open spec fn pops(q: Seq<char>, m: nat) -> Seq<Option<char>>
    decreases m,
{
    if m == 0 {
        Seq::empty()
    } else if q.len() == 0 {
        seq![None] + pops(q, (m - 1) as nat)
    } else {
        seq![Some(q[0])] + pops(q.drop_first(), (m - 1) as nat)
    }
}

proof fn lemma_pushes(q: Seq<char>, keys: Seq<char>)
    requires
        q.len() <= 63,
    ensures
        queue_after_pushes(q, keys) == (q + keys).take(
            if q.len() + keys.len() < 63 {
                (q.len() + keys.len()) as int
            } else {
                63
            },
        ),
    decreases keys.len(),
{
    if keys.len() == 0 {
        assert((q + keys).take(q.len() as int) =~= q);
    } else {
        let q1 = if q.len() < 63 {
            q.push(keys[0])
        } else {
            q
        };
        lemma_pushes(q1, keys.drop_first());
        if q.len() < 63 {
            assert(q1 + keys.drop_first() =~= q + keys);
        } else {
            assert((q + keys.drop_first()).take(63) =~= (q + keys).take(63));
        }
    }
}

proof fn lemma_pops(q: Seq<char>, m: nat)
    ensures
        pops(q, m).len() == m,
        forall|i: int|
            0 <= i < m ==> #[trigger] pops(q, m)[i] == (if i < q.len() {
                Some(q[i])
            } else {
                None
            }),
    decreases m,
{
    if m > 0 {
        if q.len() == 0 {
            lemma_pops(q, (m - 1) as nat);
            assert forall|i: int| 0 <= i < m implies #[trigger] pops(q, m)[i] == (if i < q.len() {
                Some(q[i])
            } else {
                None
            }) by {
                if i > 0 {
                    assert(pops(q, m)[i] == pops(q, (m - 1) as nat)[i - 1]);
                }
            }
        } else {
            lemma_pops(q.drop_first(), (m - 1) as nat);
            assert forall|i: int| 0 <= i < m implies #[trigger] pops(q, m)[i] == (if i < q.len() {
                Some(q[i])
            } else {
                None
            }) by {
                if i > 0 {
                    assert(pops(q, m)[i] == pops(q.drop_first(), (m - 1) as nat)[i - 1]);
                }
            }
        }
    }
}

/// Keys come out in the order they went in: after pushing `keys` onto an
/// empty queue, the queue holds the first of them, up to 63 (later keys are
/// dropped), and popping `m` times returns those keys in order, then `None`.
pub proof fn law_keys_first_in_first_out(keys: Seq<char>, m: nat)
    ensures
        ({
            let kept = if keys.len() < 63 {
                keys.len() as int
            } else {
                63
            };
            &&& queue_after_pushes(Seq::empty(), keys) == keys.take(kept)
            &&& forall|i: int|
                0 <= i < m ==> #[trigger] pops(queue_after_pushes(Seq::empty(), keys), m)[i] == (if i
                    < kept {
                    Some(keys[i])
                } else {
                    None
                })
        }),
{
    lemma_pushes(Seq::empty(), keys);
    assert(Seq::<char>::empty() + keys =~= keys);
    lemma_pops(queue_after_pushes(Seq::empty(), keys), m);
}

} // verus!
