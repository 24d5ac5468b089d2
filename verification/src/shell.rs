//! The interactive shell: the command line it edits from key presses, the
//! commands it knows and the messages it exchanges with the input server,
//! the window manager and the file server.
use vstd::prelude::*;
use vstd::utf8::valid_utf8;
use crate::task::IpcMessage;
use crate::ipc::{
    WM_CMD_DRAW_TEXT, WM_CMD_KEY, VFS_RESP_OK, INPUT_RESP_KEY, INPUT_RESP_EMPTY, NET_CMD_STATUS,
    NET_CMD_GET_HTTP, NET_RESP_OK, VFS_CMD_OPEN, VFS_CMD_READ, VFS_CMD_CLOSE, padded,
    make_vfs_open_msg,
};
use crate::wm::{
    help_cmd, ls_cmd, cat_cmd, clear_cmd, info_cmd, starts_with, resp_help, resp_info,
    resp_unknown, text_len,
};
use crate::text::{str_from_utf8, copy_bytes, same_bytes};

verus! {

/// Longest command line the shell keeps.
pub const SHELL_LINE_MAX: usize = 32;

/// The commands the shell tells apart.
#[derive(Clone, Copy, PartialEq, Eq, Debug, Structural)]
pub enum CommandKind {
    Help,
    Ls,
    Cat,
    Clear,
    Info,
    Netstat,
    Curl,
    Unknown,
}

/// "netstat"
pub open spec fn netstat_cmd() -> Seq<u8> {
    seq![110u8, 101u8, 116u8, 115u8, 116u8, 97u8, 116u8]
}

/// "curl"
pub open spec fn curl_cmd() -> Seq<u8> {
    seq![99u8, 117u8, 114u8, 108u8]
}

/// The command a line names: a line that is not UTF-8 reads as the empty
/// command; "help", "ls", "clear", "info", "netstat" and "curl" must match
/// the whole line, "cat " its start; anything else is unknown.
pub open spec fn command_kind(line: Seq<u8>) -> CommandKind {
    if !valid_utf8(line) {
        CommandKind::Unknown
    } else if line == help_cmd() {
        CommandKind::Help
    } else if line == ls_cmd() {
        CommandKind::Ls
    } else if starts_with(line, cat_cmd()) {
        CommandKind::Cat
    } else if line == clear_cmd() {
        CommandKind::Clear
    } else if line == info_cmd() {
        CommandKind::Info
    } else if line == netstat_cmd() {
        CommandKind::Netstat
    } else if line == curl_cmd() {
        CommandKind::Curl
    } else {
        CommandKind::Unknown
    }
}

/// A command line read by the shell: its kind and, for `cat`, the path
/// after "cat " (empty for the other kinds).
pub struct ShellCommand {
    pub kind: CommandKind,
    pub arg: Vec<u8>,
}

/// The path argument of `line`: what follows "cat " for a `cat` command,
/// nothing for the others.
pub open spec fn command_arg(line: Seq<u8>) -> Seq<u8> {
    if command_kind(line) == CommandKind::Cat {
        line.subrange(4, line.len() as int)
    } else {
        Seq::empty()
    }
}

/// "/readme.txt  /config.sys  /persist.dat": the files `ls` lists.
pub open spec fn file_list_text() -> Seq<u8> {
    seq![47u8, 114u8, 101u8, 97u8, 100u8, 109u8, 101u8, 46u8, 116u8, 120u8, 116u8, 32u8, 32u8, 47u8,
        99u8, 111u8, 110u8, 102u8, 105u8, 103u8, 46u8, 115u8, 121u8, 115u8, 32u8, 32u8, 47u8, 112u8,
        101u8, 114u8, 115u8, 105u8, 115u8, 116u8, 46u8, 100u8, 97u8, 116u8]
}

/// "Err: File not found"
pub open spec fn not_found_text() -> Seq<u8> {
    seq![69u8, 114u8, 114u8, 58u8, 32u8, 70u8, 105u8, 108u8, 101u8, 32u8, 110u8, 111u8, 116u8, 32u8,
        102u8, 111u8, 117u8, 110u8, 100u8]
}

/// The text a command prints, for the commands whose output is fixed
/// (`cat` depends on the file server, `netstat` and `curl` on the network
/// server, so they have none).
pub open spec fn command_text(kind: CommandKind) -> Option<Seq<u8>> {
    match kind {
        CommandKind::Help => Some(resp_help()),
        CommandKind::Ls => Some(file_list_text()),
        CommandKind::Cat => None,
        CommandKind::Clear => Some(Seq::empty()),
        CommandKind::Info => Some(resp_info()),
        CommandKind::Netstat => None,
        CommandKind::Curl => None,
        CommandKind::Unknown => Some(resp_unknown()),
    }
}

fn starts_with_bytes(a: &[u8], prefix: &[u8]) -> (r: bool)
    ensures
        r == starts_with(a@, prefix@),
{
    if a.len() < prefix.len() {
        return false;
    }
    let head = vstd::slice::slice_subrange(a, 0, prefix.len());
    same_bytes(head, prefix)
}

/// Reads a command line: see `command_kind` and `command_arg`.
pub fn parse_command(line: &[u8]) -> (r: ShellCommand)
    ensures
        r.kind == command_kind(line@),
        r.arg@ == command_arg(line@),
{
    let help: [u8; 4] = [104, 101, 108, 112];
    let ls: [u8; 2] = [108, 115];
    let cat: [u8; 4] = [99, 97, 116, 32];
    let clear: [u8; 5] = [99, 108, 101, 97, 114];
    let info: [u8; 4] = [105, 110, 102, 111];
    let netstat: [u8; 7] = [110, 101, 116, 115, 116, 97, 116];
    let curl: [u8; 4] = [99, 117, 114, 108];
    assert(netstat@ =~= netstat_cmd());
    assert(curl@ =~= curl_cmd());
    assert(help@ =~= help_cmd());
    assert(ls@ =~= ls_cmd());
    assert(cat@ =~= cat_cmd());
    assert(clear@ =~= clear_cmd());
    assert(info@ =~= info_cmd());
    let kind = if str_from_utf8(line).is_none() {
        CommandKind::Unknown
    } else if same_bytes(line, help.as_slice()) {
        CommandKind::Help
    } else if same_bytes(line, ls.as_slice()) {
        CommandKind::Ls
    } else if starts_with_bytes(line, cat.as_slice()) {
        CommandKind::Cat
    } else if same_bytes(line, clear.as_slice()) {
        CommandKind::Clear
    } else if same_bytes(line, info.as_slice()) {
        CommandKind::Info
    } else if same_bytes(line, netstat.as_slice()) {
        CommandKind::Netstat
    } else if same_bytes(line, curl.as_slice()) {
        CommandKind::Curl
    } else {
        CommandKind::Unknown
    };
    let arg = if kind == CommandKind::Cat {
        copy_bytes(vstd::slice::slice_subrange(line, 4, line.len()))
    } else {
        Vec::new()
    };
    ShellCommand { kind, arg }
}

/// The fixed text of a command (see `command_text`).
pub fn fixed_text(kind: CommandKind) -> (r: Option<Vec<u8>>)
    ensures
        match command_text(kind) {
            Some(t) => r matches Some(v) && v@ == t,
            None => r is None,
        },
{
    match kind {
        CommandKind::Help => {
            let t: [u8; 39] = [
                67, 109, 100, 115, 58, 32, 104, 101, 108, 112, 44, 32, 108, 115, 44, 32, 99, 97, 116,
                32, 60, 102, 105, 108, 101, 62, 44, 32, 99, 108, 101, 97, 114, 44, 32, 105, 110,
                102, 111,
            ];
            assert(t@ =~= resp_help());
            Some(copy_bytes(t.as_slice()))
        },
        CommandKind::Ls => {
            let t: [u8; 38] = [
                47, 114, 101, 97, 100, 109, 101, 46, 116, 120, 116, 32, 32, 47, 99, 111, 110, 102,
                105, 103, 46, 115, 121, 115, 32, 32, 47, 112, 101, 114, 115, 105, 115, 116, 46, 100,
                97, 116,
            ];
            assert(t@ =~= file_list_text());
            Some(copy_bytes(t.as_slice()))
        },
        CommandKind::Cat => None,
        CommandKind::Netstat => None,
        CommandKind::Curl => None,
        CommandKind::Clear => Some(Vec::new()),
        CommandKind::Info => {
            let t: [u8; 34] = [
                65, 101, 116, 104, 101, 114, 86, 32, 79, 83, 32, 118, 49, 46, 56, 32, 45, 32, 82, 86,
                54, 52, 32, 77, 105, 99, 114, 111, 107, 101, 114, 110, 101, 108,
            ];
            assert(t@ =~= resp_info());
            Some(copy_bytes(t.as_slice()))
        },
        CommandKind::Unknown => {
            let t: [u8; 15] = [85, 110, 107, 110, 111, 119, 110, 32, 99, 111, 109, 109, 97, 110, 100];
            assert(t@ =~= resp_unknown());
            Some(copy_bytes(t.as_slice()))
        },
    }
}

/// The text `cat` prints when the file cannot be opened.
pub fn not_found() -> (r: Vec<u8>)
    ensures
        r@ == not_found_text(),
{
    let t: [u8; 19] = [69, 114, 114, 58, 32, 70, 105, 108, 101, 32, 110, 111, 116, 32, 102, 111, 117, 110, 100];
    assert(t@ =~= not_found_text());
    copy_bytes(t.as_slice())
}

/// The payload of the console output message for `text`: window 1, at
/// (8, 80), white, then the first 20 bytes of `text`.
pub open spec fn output_payload(text: Seq<u8>) -> Seq<u8> {
    seq![1u8, 8u8, 80u8, 255u8, 255u8, 255u8] + padded(text, 20) + Seq::new(6, |i: int| 0u8)
}

/// The message that shows `text` in the console window: a text-drawing
/// request (length 26) for window 1 at (8, 80) in white, carrying the first
/// 20 bytes of `text`.
pub fn output_msg(text: &[u8]) -> (r: IpcMessage)
    ensures
        r.sender == 0,
        r.msg_type == WM_CMD_DRAW_TEXT,
        r.length == 26,
        r.reserved == 0,
        r.payload@ == output_payload(text@),
{
    let mut payload = [0u8; 32];
    payload[0] = 1;
    payload[1] = 8;
    payload[2] = 80;
    payload[3] = 255;
    payload[4] = 255;
    payload[5] = 255;
    let n = if text.len() < 20 {
        text.len()
    } else {
        20
    };
    let mut i: usize = 0;
    while i < n
        invariant
            n <= 20,
            n <= text@.len(),
            n == text@.len() || n == 20,
            i <= n,
            payload@.len() == 32,
            payload@.subrange(0, 6) == seq![1u8, 8u8, 80u8, 255u8, 255u8, 255u8],
            forall|k: int| 6 <= k < 6 + i ==> #[trigger] payload@[k] == text@[k - 6],
            forall|k: int| 6 + i <= k < 32 ==> #[trigger] payload@[k] == 0u8,
        decreases n - i,
    {
        payload[6 + i] = text[i];
        i = i + 1;
    }
    assert(payload@ =~= output_payload(text@));
    IpcMessage { sender: 0, msg_type: WM_CMD_DRAW_TEXT, length: 26, reserved: 0, payload }
}

/// The message that tells the window manager a key was typed: type 2004,
/// length 1, the key in payload byte 0.
pub fn key_notice(c: u8) -> (r: IpcMessage)
    ensures
        r.sender == 0,
        r.msg_type == WM_CMD_KEY,
        r.length == 1,
        r.reserved == 0,
        r.payload@ == Seq::new(32, |i: int| 0u8).update(0, c),
{
    let mut payload = [0u8; 32];
    payload[0] = c;
    assert(payload@ =~= Seq::new(32, |i: int| 0u8).update(0, c));
    IpcMessage { sender: 0, msg_type: WM_CMD_KEY, length: 1, reserved: 0, payload }
}

/// A request to the file server with no argument (`VFS_CMD_READ`,
/// `VFS_CMD_CLOSE`).
pub fn vfs_request(cmd: u32) -> (r: IpcMessage)
    ensures
        r.sender == 0,
        r.msg_type == cmd,
        r.length == 0,
        r.reserved == 0,
        r.payload@ == Seq::new(32, |i: int| 0u8),
{
    let r = IpcMessage { sender: 0, msg_type: cmd, length: 0, reserved: 0, payload: [0u8; 32] };
    assert(r.payload@ =~= Seq::new(32, |i: int| 0u8));
    r
}

/// Whether an exchange with the file server succeeded: the request was sent
/// (`send_result` 0), the answer received (`recv_result` 0) and it reports
/// success.
pub fn vfs_ok(send_result: isize, recv_result: isize, reply: &IpcMessage) -> (r: bool)
    ensures
        r == (send_result == 0 && recv_result == 0 && reply.msg_type == VFS_RESP_OK),
{
    send_result == 0 && recv_result == 0 && reply.msg_type == VFS_RESP_OK
}

/// What `cat` shows after its read request: the first `length` payload
/// bytes of a successful answer when they are UTF-8, nothing otherwise.
pub fn read_text(send_result: isize, recv_result: isize, reply: &IpcMessage) -> (r: Option<Vec<u8>>)
    requires
        send_result == 0 && recv_result == 0 && reply.msg_type == VFS_RESP_OK ==> reply.length
            <= 32,
    ensures
        r is Some <==> (send_result == 0 && recv_result == 0 && reply.msg_type == VFS_RESP_OK
            && valid_utf8(reply.payload@.subrange(0, reply.length as int))),
        r matches Some(t) ==> t@ == reply.payload@.subrange(0, reply.length as int),
{
    if !vfs_ok(send_result, recv_result, reply) {
        return None;
    }
    let len = reply.length as usize;
    let bytes = vstd::slice::slice_subrange(reply.payload.as_slice(), 0, len);
    if str_from_utf8(bytes).is_some() {
        Some(copy_bytes(bytes))
    } else {
        None
    }
}

/// "Err: Net unavailable"
pub open spec fn net_error_text() -> Seq<u8> {
    seq![69u8, 114u8, 114u8, 58u8, 32u8, 78u8, 101u8, 116u8, 32u8, 117u8, 110u8, 97u8, 118u8, 97u8,
        105u8, 108u8, 97u8, 98u8, 108u8, 101u8]
}

/// The line `netstat` prints for a status answer: "IP: ", the address (the
/// first 16 payload bytes up to a zero byte), " | RX/TX: Active | Dev: "
/// and "VirtIO" when the answer reports a card (payload byte 24 not zero),
/// "Simulated" otherwise.
pub open spec fn netstat_line(payload: Seq<u8>) -> Seq<u8> {
    let ip = payload.subrange(0, 16);
    seq![73u8, 80u8, 58u8, 32u8] + ip.subrange(0, text_len(ip, 0)) + seq![32u8, 124u8, 32u8, 82u8,
        88u8, 47u8, 84u8, 88u8, 58u8, 32u8, 65u8, 99u8, 116u8, 105u8, 118u8, 101u8, 32u8, 124u8, 32u8,
        68u8, 101u8, 118u8, 58u8, 32u8] + if payload[24] != 0 {
        seq![86u8, 105u8, 114u8, 116u8, 73u8, 79u8]
    } else {
        seq![83u8, 105u8, 109u8, 117u8, 108u8, 97u8, 116u8, 101u8, 100u8]
    }
}

/// A request to the network server with no argument (`NET_CMD_STATUS` for
/// `netstat`, `NET_CMD_GET_HTTP` for `curl`).
pub fn net_request(kind: CommandKind) -> (r: IpcMessage)
    requires
        kind == CommandKind::Netstat || kind == CommandKind::Curl,
    ensures
        r.sender == 0,
        r.msg_type == (if kind == CommandKind::Netstat {
            NET_CMD_STATUS
        } else {
            NET_CMD_GET_HTTP
        }),
        r.length == 0,
        r.reserved == 0,
        r.payload@ == Seq::new(32, |i: int| 0u8),
{
    let cmd = if kind == CommandKind::Netstat {
        NET_CMD_STATUS
    } else {
        NET_CMD_GET_HTTP
    };
    vfs_request(cmd)
}

fn append(v: &mut Vec<u8>, s: &[u8])
    ensures
        final(v)@ == old(v)@ + s@,
{
    let mut i: usize = 0;
    while i < s.len()
        invariant
            i <= s@.len(),
            v@ == old(v)@ + s@.subrange(0, i as int),
        decreases s@.len() - i,
    {
        v.push(s[i]);
        i = i + 1;
        assert(s@.subrange(0, i as int) =~= s@.subrange(0, i - 1) + seq![s@[i - 1]]);
    }
    assert(s@.subrange(0, s@.len() as int) =~= s@);
}

/// What `netstat` prints after its status request: `netstat_line` of a
/// successful answer, or "Err: Net unavailable" when the exchange failed.
pub open spec fn netstat_output(send_result: isize, recv_result: isize, reply: IpcMessage) -> Seq<u8> {
    if send_result == 0 && recv_result == 0 && reply.msg_type == NET_RESP_OK {
        netstat_line(reply.payload@)
    } else {
        net_error_text()
    }
}

/// What `curl` prints after its request: the first `length` payload bytes
/// (at most 32) of a successful answer, or "Err: Net unavailable" when the
/// exchange failed.
pub open spec fn curl_output(send_result: isize, recv_result: isize, reply: IpcMessage) -> Seq<u8> {
    if send_result == 0 && recv_result == 0 && reply.msg_type == NET_RESP_OK {
        reply.payload@.subrange(
            0,
            if reply.length < 32 {
                reply.length as int
            } else {
                32
            },
        )
    } else {
        net_error_text()
    }
}

/// The text `netstat` prints (see `netstat_output`).
pub fn netstat_text(send_result: isize, recv_result: isize, reply: &IpcMessage) -> (r: Vec<u8>)
    ensures
        r@ == netstat_output(send_result, recv_result, *reply),
{
    if !(send_result == 0 && recv_result == 0 && reply.msg_type == NET_RESP_OK) {
        let t: [u8; 20] = [69, 114, 114, 58, 32, 78, 101, 116, 32, 117, 110, 97, 118, 97, 105, 108, 97, 98, 108, 101];
        assert(t@ =~= net_error_text());
        return copy_bytes(t.as_slice());
    }
    let ghost ip = reply.payload@.subrange(0, 16);
    let mut n: usize = 0;
    while n < 16 && reply.payload[n] != 0
        invariant
            n <= 16,
            ip == reply.payload@.subrange(0, 16),
            text_len(ip, 0) == text_len(ip, n as int),
        decreases 16 - n,
    {
        n = n + 1;
    }
    let head: [u8; 4] = [73, 80, 58, 32];
    let mid: [u8; 24] = [32, 124, 32, 82, 88, 47, 84, 88, 58, 32, 65, 99, 116, 105, 118, 101, 32, 124, 32, 68, 101, 118, 58, 32];
    let mut out = copy_bytes(head.as_slice());
    append(&mut out, vstd::slice::slice_subrange(reply.payload.as_slice(), 0, n));
    append(&mut out, mid.as_slice());
    if reply.payload[24] != 0 {
        let dev: [u8; 6] = [86, 105, 114, 116, 73, 79];
        append(&mut out, dev.as_slice());
    } else {
        let dev: [u8; 9] = [83, 105, 109, 117, 108, 97, 116, 101, 100];
        append(&mut out, dev.as_slice());
    }
    assert(ip.subrange(0, n as int) =~= reply.payload@.subrange(0, n as int));
    assert(out@ =~= netstat_line(reply.payload@));
    out
}

/// The text `curl` prints (see `curl_output`).
pub fn curl_text(send_result: isize, recv_result: isize, reply: &IpcMessage) -> (r: Vec<u8>)
    ensures
        r@ == curl_output(send_result, recv_result, *reply),
{
    if !(send_result == 0 && recv_result == 0 && reply.msg_type == NET_RESP_OK) {
        let t: [u8; 20] = [69, 114, 114, 58, 32, 78, 101, 116, 32, 117, 110, 97, 118, 97, 105, 108, 97, 98, 108, 101];
        assert(t@ =~= net_error_text());
        return copy_bytes(t.as_slice());
    }
    let n: usize = if reply.length < 32 {
        reply.length as usize
    } else {
        32
    };
    copy_bytes(vstd::slice::slice_subrange(reply.payload.as_slice(), 0, n))
}

/// What the shell does after asking the input server for a key.
#[derive(Clone, Copy, PartialEq, Eq, Debug, Structural)]
pub enum KeyPoll {
    /// A key arrived.
    Key { c: u8 },
    /// No key (or no answer): give up the processor before asking again.
    Yield,
    /// An answer of another kind: ask again at once.
    Retry,
}

/// Reads the answer of the input server (see `KeyPoll`).
pub fn key_poll(send_result: isize, recv_result: isize, reply: &IpcMessage) -> (r: KeyPoll)
    ensures
        r == (if send_result != 0 || recv_result != 0 {
            KeyPoll::Yield
        } else if reply.msg_type == INPUT_RESP_KEY {
            KeyPoll::Key { c: reply.payload[0] }
        } else if reply.msg_type == INPUT_RESP_EMPTY {
            KeyPoll::Yield
        } else {
            KeyPoll::Retry
        }),
{
    if send_result != 0 || recv_result != 0 {
        KeyPoll::Yield
    } else if reply.msg_type == INPUT_RESP_KEY {
        KeyPoll::Key { c: reply.payload[0] }
    } else if reply.msg_type == INPUT_RESP_EMPTY {
        KeyPoll::Yield
    } else {
        KeyPoll::Retry
    }
}

/// What a key press asks of the shell's caller, besides forwarding the key
/// to the window manager (`key_notice`).
pub enum ShellKey {
    /// Nothing to print.
    Ignored,
    /// Print the character with code `c`.
    Echo { c: u8 },
    /// Erase the last character on the terminal (backspace, space,
    /// backspace).
    Erase,
    /// End of line: print a newline, run `command` if the line was not
    /// empty, then print the prompt again.
    Submit { command: Option<ShellCommand> },
}

/// The line after key `c` on `line`: newline or carriage return empties
/// it, backspace (8) drops its last byte, any other key is added while the
/// line is shorter than 32 bytes.
pub open spec fn line_after_key(line: Seq<u8>, c: u8) -> Seq<u8> {
    if c == 10 || c == 13 {
        Seq::empty()
    } else if c == 8 {
        if line.len() > 0 {
            line.drop_last()
        } else {
            line
        }
    } else if line.len() < SHELL_LINE_MAX {
        line.push(c)
    } else {
        line
    }
}

/// The line after the keys `keys`, in order, on `line`.
pub open spec fn line_after_keys(line: Seq<u8>, keys: Seq<u8>) -> Seq<u8>
    decreases keys.len(),
{
    if keys.len() == 0 {
        line
    } else {
        line_after_keys(line_after_key(line, keys[0]), keys.drop_first())
    }
}

/// A key that edits the line by adding itself: not newline, carriage
/// return or backspace.
pub open spec fn is_text_key(c: u8) -> bool {
    c != 8 && c != 10 && c != 13
}

/// Backspace undoes a typed key: on a line with room for it, a text key
/// followed by backspace leaves the line as it was.
pub proof fn law_backspace_undoes_key(line: Seq<u8>, c: u8)
    requires
        is_text_key(c),
        line.len() < SHELL_LINE_MAX,
    ensures
        line_after_key(line_after_key(line, c), 8) == line,
{
    assert(line.push(c).drop_last() =~= line);
}

/// Typed text keys are appended in order while they fit the 32-byte line.
pub proof fn law_keys_append(line: Seq<u8>, keys: Seq<u8>)
    requires
        forall|k: int| 0 <= k < keys.len() ==> is_text_key(#[trigger] keys[k]),
        line.len() + keys.len() <= SHELL_LINE_MAX,
    ensures
        line_after_keys(line, keys) == line + keys,
    decreases keys.len(),
{
    if keys.len() > 0 {
        assert(is_text_key(keys[0]));
        law_keys_append(line.push(keys[0]), keys.drop_first());
        assert(line.push(keys[0]) + keys.drop_first() =~= line + keys);
    }
}

/// The line never outgrows the 32-byte buffer: from a line that fits, any
/// sequence of keys leaves a line of at most 32 bytes.
pub proof fn law_line_stays_bounded(line: Seq<u8>, keys: Seq<u8>)
    requires
        line.len() <= SHELL_LINE_MAX,
    ensures
        line_after_keys(line, keys).len() <= SHELL_LINE_MAX,
    decreases keys.len(),
{
    if keys.len() > 0 {
        law_line_stays_bounded(line_after_key(line, keys[0]), keys.drop_first());
    }
}

/// The line the shell is editing.
pub struct Shell {
    buf: [u8; 32],
    len: usize,
}

impl Shell {
    /// The bytes typed so far.
    pub closed spec fn line(&self) -> Seq<u8> {
        self.buf@.subrange(0, self.len as int)
    }

    /// The line fits the 32-byte buffer.
    pub closed spec fn wf(&self) -> bool {
        self.len <= SHELL_LINE_MAX
    }

    /// An empty line.
    pub fn new() -> (r: Self)
        ensures
            r.wf(),
            r.line() == Seq::<u8>::empty(),
    {
        let r = Shell { buf: [0u8; 32], len: 0 };
        assert(r.line() =~= Seq::<u8>::empty());
        r
    }

    /// A key `c`: newline or carriage return submits the line (read with
    /// `parse_command` when not empty) and empties it; backspace (8) drops
    /// the last byte; any other key is added while the line is shorter than
    /// 32 bytes and echoed.
    pub fn handle_key(&mut self, c: u8) -> (r: ShellKey)
        requires
            old(self).wf(),
        ensures
            final(self).wf(),
            final(self).line() == line_after_key(old(self).line(), c),
            if c == 10 || c == 13 {
                &&& final(self).line() == Seq::<u8>::empty()
                &&& r matches ShellKey::Submit { command } && if old(self).line().len() > 0 {
                    command matches Some(cmd) && cmd.kind == command_kind(old(self).line())
                        && cmd.arg@ == command_arg(old(self).line())
                } else {
                    command is None
                }
            } else if c == 8 {
                if old(self).line().len() > 0 {
                    final(self).line() == old(self).line().drop_last() && r is Erase
                } else {
                    final(self).line() == old(self).line() && r is Ignored
                }
            } else if old(self).line().len() < SHELL_LINE_MAX {
                final(self).line() == old(self).line().push(c) && r == (ShellKey::Echo { c })
            } else {
                final(self).line() == old(self).line() && r is Ignored
            },
    {
        if c == 10 || c == 13 {
            let command = if self.len > 0 {
                let line = vstd::slice::slice_subrange(self.buf.as_slice(), 0, self.len);
                Some(parse_command(line))
            } else {
                None
            };
            self.len = 0;
            assert(self.line() =~= Seq::<u8>::empty());
            ShellKey::Submit { command }
        } else if c == 8 {
            if self.len > 0 {
                self.len = self.len - 1;
                assert(self.line() =~= old(self).line().drop_last());
                ShellKey::Erase
            } else {
                ShellKey::Ignored
            }
        } else if self.len < SHELL_LINE_MAX {
            self.buf[self.len] = c;
            self.len = self.len + 1;
            assert(self.line() =~= old(self).line().push(c));
            ShellKey::Echo { c }
        } else {
            ShellKey::Ignored
        }
    }
}


/// Where the run of a submitted command stands.
#[derive(Clone, Copy, PartialEq, Eq, Debug, Structural)]
pub enum CommandStage {
    /// Nothing done yet.
    Start,
    /// The open request of `cat` was sent.
    Opening,
    /// The read request of `cat` was sent.
    Reading,
    /// The close request of `cat` was sent.
    Closing,
    /// The request of `netstat` or `curl` was sent.
    Asking,
    /// The command is over.
    Finished,
}

/// The server a command talks to.
#[derive(Clone, Copy, PartialEq, Eq, Debug, Structural)]
pub enum Peer {
    Files,
    Net,
}

/// What one step of a command asks of the shell's caller: print `output`
/// and show it in the console window (`output_msg`) when there is one, then
/// send the request in `send` to its server and hand the results and the
/// answer to the next step; without a request the command is over.
pub struct CommandAction {
    pub output: Option<Vec<u8>>,
    pub send: Option<(Peer, IpcMessage)>,
}

/// The stage after a step from `stage` for a command of kind `kind`, where
/// `ok` tells whether the file server answered the last request with
/// success (see `vfs_ok`): `cat` opens, then reads when the open succeeded,
/// then closes; `netstat` and `curl` ask once; the others print their text
/// at once.
pub open spec fn next_stage(stage: CommandStage, kind: CommandKind, ok: bool) -> CommandStage {
    match stage {
        CommandStage::Start => if kind == CommandKind::Cat {
            CommandStage::Opening
        } else if kind == CommandKind::Netstat || kind == CommandKind::Curl {
            CommandStage::Asking
        } else {
            CommandStage::Finished
        },
        CommandStage::Opening => if ok {
            CommandStage::Reading
        } else {
            CommandStage::Finished
        },
        CommandStage::Reading => CommandStage::Closing,
        CommandStage::Closing => CommandStage::Finished,
        CommandStage::Asking => CommandStage::Finished,
        CommandStage::Finished => CommandStage::Finished,
    }
}

/// The stage after one step for each answer flag in `oks`, in order.
pub open spec fn stage_after(stage: CommandStage, kind: CommandKind, oks: Seq<bool>) -> CommandStage
    decreases oks.len(),
{
    if oks.len() == 0 {
        stage
    } else {
        stage_after(next_stage(stage, kind, oks[0]), kind, oks.drop_first())
    }
}

/// A request to the file server of type `cmd` with nothing else in it.
pub open spec fn is_file_request(m: IpcMessage, cmd: u32) -> bool {
    &&& m.sender == 0
    &&& m.msg_type == cmd
    &&& m.length == 0
    &&& m.reserved == 0
    &&& m.payload@ == Seq::new(32, |i: int| 0u8)
}

/// The request `cat` opens the file at `path` with (see
/// `make_vfs_open_msg`).
pub open spec fn is_open_request(m: IpcMessage, path: Seq<u8>) -> bool {
    &&& m.sender == 0
    &&& m.msg_type == VFS_CMD_OPEN
    &&& m.length == path.len() as u32
    &&& m.reserved == 0
    &&& m.payload@ == padded(path, 32)
}

/// The request `netstat` (status) or `curl` (web page) sends to the network
/// server.
pub open spec fn is_net_request(m: IpcMessage, kind: CommandKind) -> bool {
    &&& m.sender == 0
    &&& m.msg_type == (if kind == CommandKind::Netstat {
        NET_CMD_STATUS
    } else {
        NET_CMD_GET_HTTP
    })
    &&& m.length == 0
    &&& m.reserved == 0
    &&& m.payload@ == Seq::new(32, |i: int| 0u8)
}

/// A submitted command being run.
pub struct CommandRun {
    pub kind: CommandKind,
    pub arg: Vec<u8>,
    pub stage: CommandStage,
}

impl CommandRun {
    /// The run of `cmd`, not started.
    pub fn new(cmd: ShellCommand) -> (r: Self)
        ensures
            r.kind == cmd.kind,
            r.arg@ == cmd.arg@,
            r.stage == CommandStage::Start,
    {
        CommandRun { kind: cmd.kind, arg: cmd.arg, stage: CommandStage::Start }
    }

    /// One step of the command, given the results of the last request and
    /// its answer (ignored at the start):
    /// - at the start, a command with a fixed text prints it and ends;
    ///   `cat` sends the open request for its argument; `netstat` and
    ///   `curl` send their request to the network server;
    /// - after the open, a success sends the read request, anything else
    ///   prints "Err: File not found" and ends;
    /// - after the read, the file's text is printed when the read succeeded
    ///   and the text is UTF-8, and the close request is sent either way;
    /// - after the close the command ends;
    /// - after the network request, its text (`netstat_output`,
    ///   `curl_output`) is printed and the command ends.
    pub fn step(&mut self, send_result: isize, recv_result: isize, reply: &IpcMessage) -> (r: CommandAction)
        requires
            old(self).stage == CommandStage::Reading && send_result == 0 && recv_result == 0
                && reply.msg_type == VFS_RESP_OK ==> reply.length <= 32,
        ensures
            final(self).kind == old(self).kind,
            final(self).arg@ == old(self).arg@,
            final(self).stage == next_stage(
                old(self).stage,
                old(self).kind,
                send_result == 0 && recv_result == 0 && reply.msg_type == VFS_RESP_OK,
            ),
            (r.send is None) <==> (final(self).stage == CommandStage::Finished),
            match old(self).stage {
                CommandStage::Start => match command_text(old(self).kind) {
                    Some(t) => r.output matches Some(o) && o@ == t,
                    None => {
                        &&& r.output is None
                        &&& r.send matches Some((p, m))
                        &&& if old(self).kind == CommandKind::Cat {
                            p == Peer::Files && is_open_request(m, old(self).arg@)
                        } else {
                            p == Peer::Net && is_net_request(m, old(self).kind)
                        }
                    },
                },
                CommandStage::Opening => if send_result == 0 && recv_result == 0 && reply.msg_type
                    == VFS_RESP_OK {
                    &&& r.output is None
                    &&& r.send matches Some((p, m))
                    &&& p == Peer::Files
                    &&& is_file_request(m, VFS_CMD_READ)
                } else {
                    r.output matches Some(o) && o@ == not_found_text()
                },
                CommandStage::Reading => {
                    &&& r.send matches Some((p, m))
                    &&& p == Peer::Files
                    &&& is_file_request(m, VFS_CMD_CLOSE)
                    &&& r.output is Some <==> (send_result == 0 && recv_result == 0
                        && reply.msg_type == VFS_RESP_OK && valid_utf8(
                        reply.payload@.subrange(0, reply.length as int),
                    ))
                    &&& r.output matches Some(t) ==> t@ == reply.payload@.subrange(
                        0,
                        reply.length as int,
                    )
                },
                CommandStage::Asking => r.output matches Some(o) && o@ == (if old(self).kind
                    == CommandKind::Netstat {
                    netstat_output(send_result, recv_result, *reply)
                } else {
                    curl_output(send_result, recv_result, *reply)
                }),
                _ => r.output is None,
            },
    {
        let ok = vfs_ok(send_result, recv_result, reply);
        match self.stage {
            CommandStage::Start => {
                if let Some(t) = fixed_text(self.kind) {
                    self.stage = CommandStage::Finished;
                    CommandAction { output: Some(t), send: None }
                } else if self.kind == CommandKind::Cat {
                    self.stage = CommandStage::Opening;
                    let m = make_vfs_open_msg(self.arg.as_slice());
                    CommandAction { output: None, send: Some((Peer::Files, m)) }
                } else {
                    self.stage = CommandStage::Asking;
                    let m = net_request(self.kind);
                    CommandAction { output: None, send: Some((Peer::Net, m)) }
                }
            },
            CommandStage::Opening => {
                if ok {
                    self.stage = CommandStage::Reading;
                    CommandAction { output: None, send: Some((Peer::Files, vfs_request(VFS_CMD_READ))) }
                } else {
                    self.stage = CommandStage::Finished;
                    CommandAction { output: Some(not_found()), send: None }
                }
            },
            CommandStage::Reading => {
                let text = read_text(send_result, recv_result, reply);
                self.stage = CommandStage::Closing;
                CommandAction { output: text, send: Some((Peer::Files, vfs_request(VFS_CMD_CLOSE))) }
            },
            CommandStage::Closing => {
                self.stage = CommandStage::Finished;
                CommandAction { output: None, send: None }
            },
            CommandStage::Asking => {
                let text = if self.kind == CommandKind::Netstat {
                    netstat_text(send_result, recv_result, reply)
                } else {
                    curl_text(send_result, recv_result, reply)
                };
                self.stage = CommandStage::Finished;
                CommandAction { output: Some(text), send: None }
            },
            CommandStage::Finished => CommandAction { output: None, send: None },
        }
    }
}

/// Every command ends: whatever the servers answer, four steps from the
/// start bring any command to its end, and it stays there.
pub proof fn law_command_finishes(kind: CommandKind, oks: Seq<bool>)
    requires
        oks.len() >= 4,
    ensures
        stage_after(CommandStage::Start, kind, oks) == CommandStage::Finished,
{
    reveal_with_fuel(stage_after, 5);
    let rest = oks.subrange(4, oks.len() as int);
    lemma_stage_after_split(CommandStage::Start, kind, oks, 4);
    lemma_finished_stays(kind, rest);
}

/// A finished command stays finished.
proof fn lemma_finished_stays(kind: CommandKind, oks: Seq<bool>)
    ensures
        stage_after(CommandStage::Finished, kind, oks) == CommandStage::Finished,
    decreases oks.len(),
{
    if oks.len() > 0 {
        lemma_finished_stays(kind, oks.drop_first());
    }
}

/// Steps over `oks` are the steps over its first `n` flags, then over the
/// rest.
proof fn lemma_stage_after_split(stage: CommandStage, kind: CommandKind, oks: Seq<bool>, n: int)
    requires
        0 <= n <= oks.len(),
    ensures
        stage_after(stage, kind, oks) == stage_after(
            stage_after(stage, kind, oks.subrange(0, n)),
            kind,
            oks.subrange(n, oks.len() as int),
        ),
    decreases n,
{
    if n > 0 {
        lemma_stage_after_split(next_stage(stage, kind, oks[0]), kind, oks.drop_first(), n - 1);
        assert(oks.subrange(0, n).drop_first() =~= oks.drop_first().subrange(0, n - 1));
        assert(oks.drop_first().subrange(n - 1, oks.drop_first().len() as int) =~= oks.subrange(
            n,
            oks.len() as int,
        ));
    } else {
        assert(oks.subrange(0, 0) =~= Seq::<bool>::empty());
        assert(oks.subrange(0, oks.len() as int) =~= oks);
    }
}

/// A file `cat` opened is closed: once the open succeeded, the next two
/// steps send the read request and then the close request, whatever the
/// read answered, and the step after ends the command.
pub proof fn law_opened_file_is_closed(kind: CommandKind, read_ok: bool, close_ok: bool)
    ensures
        next_stage(CommandStage::Opening, kind, true) == CommandStage::Reading,
        next_stage(CommandStage::Reading, kind, read_ok) == CommandStage::Closing,
        next_stage(CommandStage::Closing, kind, close_ok) == CommandStage::Finished,
{
}

} // verus!
