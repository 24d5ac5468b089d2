//! The message protocol spoken between the user-mode servers: command and
//! reply codes, byte encodings, and the messages of the name server and the
//! file server.
use vstd::prelude::*;
use vstd::string::StringSliceAdditionalSpecFns;
use crate::task::IpcMessage;

verus! {

/// Register the sender under a service name.
pub const NS_CMD_REGISTER: u32 = 1001;
/// Look a service name up.
pub const NS_CMD_LOOKUP: u32 = 1002;
pub const NS_RESP_SUCCESS: u32 = 2000;
pub const NS_RESP_ERROR: u32 = 4000;

/// The task id of the name server.
pub const NAMESERVER_TASK: usize = 3;

/// Ask the input server for the next key.
pub const INPUT_CMD_GET_KEY: u32 = 2001;
pub const INPUT_RESP_KEY: u32 = 2002;
pub const INPUT_RESP_EMPTY: u32 = 2003;

pub const WM_CMD_CREATE_WINDOW: u32 = 3001;
pub const WM_CMD_DRAW_RECT: u32 = 3002;
pub const WM_CMD_DRAW_TEXT: u32 = 3003;
pub const WM_CMD_UPDATE: u32 = 3004;
/// A key typed on the console, forwarded by the shell to the window manager.
pub const WM_CMD_KEY: u32 = 2004;
pub const WM_RESP_SUCCESS: u32 = 2000;
pub const WM_RESP_ERROR: u32 = 4000;

pub const VFS_CMD_OPEN: u32 = 100;
pub const VFS_CMD_READ: u32 = 101;
pub const VFS_CMD_CLOSE: u32 = 102;
pub const VFS_CMD_LIST: u32 = 103;
pub const VFS_RESP_OK: u32 = 200;
pub const VFS_RESP_ERR: u32 = 400;

/// Read one 32-byte chunk of a sector.
pub const BLOCK_CMD_READ: u32 = 5001;
/// Write a chunk (accepted and dropped by the simulated disk).
pub const BLOCK_CMD_WRITE: u32 = 5002;
pub const BLOCK_RESP_OK: u32 = 2000;
pub const BLOCK_RESP_ERR: u32 = 4000;

/// Network status request.
pub const NET_CMD_STATUS: u32 = 4001;
/// Simulated HTTP request.
pub const NET_CMD_GET_HTTP: u32 = 4002;
pub const NET_RESP_OK: u32 = 2000;
pub const NET_RESP_ERR: u32 = 4000;

/// The four bytes of `v`, least significant first (the byte order of the
/// RISC-V target, which the servers use for every integer in a payload).
pub open spec fn le_bytes_u32(v: u32) -> Seq<u8> {
    seq![(v & 0xff) as u8, ((v >> 8) & 0xff) as u8, ((v >> 16) & 0xff) as u8, ((v >> 24) & 0xff) as u8]
}

/// The value of four bytes, least significant first.
pub open spec fn u32_of_le(b0: u8, b1: u8, b2: u8, b3: u8) -> u32 {
    (b0 as u32) | ((b1 as u32) << 8) | ((b2 as u32) << 16) | ((b3 as u32) << 24)
}

/// The value of two bytes, least significant first.
pub open spec fn u16_of_le(b0: u8, b1: u8) -> u16 {
    (b0 as u16) | ((b1 as u16) << 8)
}

/// Encoding then decoding four bytes gives the value back, and decoding then
/// encoding gives the bytes back.
pub proof fn lemma_le_u32_roundtrip(v: u32, b0: u8, b1: u8, b2: u8, b3: u8)
    ensures
        ({
            let b = le_bytes_u32(v);
            u32_of_le(b[0], b[1], b[2], b[3]) == v
        }),
        le_bytes_u32(u32_of_le(b0, b1, b2, b3)) == seq![b0, b1, b2, b3],
{
    let x0 = (v & 0xff) as u8;
    let x1 = ((v >> 8) & 0xff) as u8;
    let x2 = ((v >> 16) & 0xff) as u8;
    let x3 = ((v >> 24) & 0xff) as u8;
    assert((x0 as u32) | ((x1 as u32) << 8) | ((x2 as u32) << 16) | ((x3 as u32) << 24) == v)
        by (bit_vector)
        requires
            x0 == (v & 0xff) as u8,
            x1 == ((v >> 8) & 0xff) as u8,
            x2 == ((v >> 16) & 0xff) as u8,
            x3 == ((v >> 24) & 0xff) as u8,
    ;
    let w = u32_of_le(b0, b1, b2, b3);
    assert((w & 0xff) as u8 == b0 && ((w >> 8) & 0xff) as u8 == b1 && ((w >> 16) & 0xff) as u8
        == b2 && ((w >> 24) & 0xff) as u8 == b3) by (bit_vector)
        requires
            w == (b0 as u32) | ((b1 as u32) << 8) | ((b2 as u32) << 16) | ((b3 as u32) << 24),
    ;
    assert(le_bytes_u32(w) =~= seq![b0, b1, b2, b3]);
}

/// The four bytes of `v` in the target's byte order.
pub fn u32_to_bytes(v: u32) -> (r: [u8; 4])
    ensures
        r@ == le_bytes_u32(v),
{
    let r = [(v & 0xff) as u8, ((v >> 8) & 0xff) as u8, ((v >> 16) & 0xff) as u8, ((v >> 24) & 0xff) as u8];
    assert(r@ =~= le_bytes_u32(v));
    r
}

/// The `u32` stored at `bytes[at..at + 4]` in the target's byte order.
pub fn u32_from_bytes(bytes: &[u8], at: usize) -> (r: u32)
    requires
        at + 4 <= bytes@.len(),
    ensures
        r == u32_of_le(bytes@[at as int], bytes@[at + 1], bytes@[at + 2], bytes@[at + 3]),
{
    (bytes[at] as u32) | ((bytes[at + 1] as u32) << 8) | ((bytes[at + 2] as u32) << 16) | ((bytes[at
        + 3] as u32) << 24)
}

/// The `u16` stored little-endian at `bytes[at..at + 2]`.
pub fn u16_from_bytes(bytes: &[u8], at: usize) -> (r: u16)
    requires
        at + 2 <= bytes@.len(),
    ensures
        r == u16_of_le(bytes@[at as int], bytes@[at + 1]),
{
    (bytes[at] as u16) | ((bytes[at + 1] as u16) << 8)
}

/// Writes `v` into `payload[at..at + 4]` in the target's byte order.
pub fn put_u32(payload: &mut [u8; 32], at: usize, v: u32)
    requires
        at + 4 <= 32,
    ensures
        final(payload)@ == old(payload)@.update(at as int, le_bytes_u32(v)[0]).update(
            at + 1,
            le_bytes_u32(v)[1],
        ).update(at + 2, le_bytes_u32(v)[2]).update(at + 3, le_bytes_u32(v)[3]),
{
    let b = u32_to_bytes(v);
    payload[at] = b[0];
    payload[at + 1] = b[1];
    payload[at + 2] = b[2];
    payload[at + 3] = b[3];
}

/// `s` followed by zeros, or cut, to length `n`.
pub open spec fn padded(s: Seq<u8>, n: nat) -> Seq<u8> {
    Seq::new(n, |i: int| if i < s.len() { s[i] } else { 0u8 })
}

/// The first 16 bytes of `s`, padded with zeros: a service name as it
/// travels in a payload.
pub fn str_to_u8_16(s: &str) -> (r: [u8; 16])
    ensures
        r@ == padded(s.spec_bytes(), 16),
{
    let bytes = s.as_bytes();
    let mut arr = [0u8; 16];
    let len = if bytes.len() < 16 {
        bytes.len()
    } else {
        16
    };
    let mut i: usize = 0;
    while i < len
        invariant
            len <= 16,
            len <= bytes@.len(),
            len == (if bytes@.len() < 16 {
                bytes@.len()
            } else {
                16
            }),
            bytes@ == s.spec_bytes(),
            i <= len,
            forall|k: int| 0 <= k < i ==> #[trigger] arr@[k] == bytes@[k],
            forall|k: int| i <= k < 16 ==> #[trigger] arr@[k] == 0,
        decreases len - i,
    {
        arr[i] = bytes[i];
        i = i + 1;
    }
    assert(arr@ =~= padded(s.spec_bytes(), 16));
    arr
}

/// The payload holding the first 32 bytes of `data`, zero after them.
pub fn payload_from(data: &[u8]) -> (r: [u8; 32])
    ensures
        r@ == padded(data@, 32),
{
    let mut arr = [0u8; 32];
    let len = if data.len() < 32 {
        data.len()
    } else {
        32
    };
    let mut i: usize = 0;
    while i < len
        invariant
            len == (if data@.len() < 32 {
                data@.len()
            } else {
                32
            }),
            i <= len,
            forall|k: int| 0 <= k < i ==> #[trigger] arr@[k] == data@[k],
            forall|k: int| i <= k < 32 ==> #[trigger] arr@[k] == 0,
        decreases len - i,
    {
        arr[i] = data[i];
        i = i + 1;
    }
    assert(arr@ =~= padded(data@, 32));
    arr
}

/// A request to the file server to open the file at `path`: the length field
/// holds the full path length (cut to 32 bits), the payload its first 32
/// bytes.
pub fn make_vfs_open_msg(path: &[u8]) -> (r: IpcMessage)
    ensures
        r.sender == 0,
        r.msg_type == VFS_CMD_OPEN,
        r.length == path@.len() as u32,
        r.reserved == 0,
        r.payload@ == padded(path@, 32),
{
    IpcMessage {
        sender: 0,
        msg_type: VFS_CMD_OPEN,
        length: path.len() as u32,
        reserved: 0,
        payload: payload_from(path),
    }
}

/// The file server's answer to a read: the first 32 bytes of `data`, with
/// their count as the length.
pub fn make_vfs_read_resp(data: &[u8]) -> (r: IpcMessage)
    ensures
        r.sender == 0,
        r.msg_type == VFS_RESP_OK,
        r.length == (if data@.len() < 32 {
            data@.len()
        } else {
            32
        }),
        r.reserved == 0,
        r.payload@ == padded(data@, 32),
{
    let copy_len = if data.len() < 32 {
        data.len()
    } else {
        32
    };
    IpcMessage {
        sender: 0,
        msg_type: VFS_RESP_OK,
        length: copy_len as u32,
        reserved: 0,
        payload: payload_from(data),
    }
}

/// A name-server request: `cmd` with the service name in payload bytes
/// 0..16.
pub fn ns_request(cmd: u32, service: &str) -> (r: IpcMessage)
    ensures
        r.sender == 0,
        r.msg_type == cmd,
        r.length == 16,
        r.reserved == 0,
        r.payload@ == padded(service.spec_bytes(), 16) + Seq::new(16, |i: int| 0u8),
{
    let name = str_to_u8_16(service);
    let mut payload = [0u8; 32];
    let mut i: usize = 0;
    while i < 16
        invariant
            i <= 16,
            name@ == padded(service.spec_bytes(), 16),
            forall|k: int| 0 <= k < i ==> #[trigger] payload@[k] == name@[k],
            forall|k: int| i <= k < 32 ==> #[trigger] payload@[k] == 0,
        decreases 16 - i,
    {
        payload[i] = name[i];
        i = i + 1;
    }
    assert(payload@ =~= padded(service.spec_bytes(), 16) + Seq::new(16, |i: int| 0u8));
    IpcMessage { sender: 0, msg_type: cmd, length: 16, reserved: 0, payload }
}

/// The result of a lookup exchange with the name server: the id in payload
/// bytes 16..20 of the reply, when the request was sent (`send_result` 0),
/// the reply received (`recv_result` 0) and it reports success; `None`
/// otherwise.
pub fn ns_lookup(send_result: isize, recv_result: isize, reply: &IpcMessage) -> (r: Option<usize>)
    ensures
        r == (if send_result == 0 && recv_result == 0 && reply.msg_type == NS_RESP_SUCCESS {
            Some(
                u32_of_le(reply.payload[16], reply.payload[17], reply.payload[18], reply.payload[19])
                    as usize,
            )
        } else {
            None
        }),
{
    if send_result == 0 && recv_result == 0 && reply.msg_type == NS_RESP_SUCCESS {
        Some(u32_from_bytes(&reply.payload, 16) as usize)
    } else {
        None
    }
}

/// The result of a registration exchange with the name server: whether the
/// request was sent, the reply received, and the reply reports success.
pub fn ns_register(send_result: isize, recv_result: isize, reply: &IpcMessage) -> (r: bool)
    ensures
        r == (send_result == 0 && recv_result == 0 && reply.msg_type == NS_RESP_SUCCESS),
{
    send_result == 0 && recv_result == 0 && reply.msg_type == NS_RESP_SUCCESS
}


/// Where a client's exchange with the name server stands.
#[derive(Clone, Copy, PartialEq, Eq, Debug, Structural)]
pub enum NsStage {
    /// Nothing sent yet.
    Start,
    /// The request was handed to the send call.
    Sent,
    /// The send succeeded and the receive was asked for.
    Receiving,
    /// The exchange is over.
    Done,
}

/// What a client does next in its exchange with the name server.
#[derive(Clone, Copy, Debug)]
pub enum NsAction {
    /// Send `msg` to task `dest` and hand the send result to the next step.
    Send { dest: usize, msg: IpcMessage },
    /// Receive from task `src` and hand the receive result and the reply
    /// to the next step.
    Receive { src: usize },
    /// No more IPC: the task id the reply carries when the exchange
    /// succeeded (see `ns_lookup`), `None` otherwise.  A registration
    /// succeeded exactly when this is `Some`.
    Finished { outcome: Option<usize> },
}

/// The outcome of the receive that completes an exchange whose send
/// succeeded: the id in payload bytes 16..20 of a success reply.
pub open spec fn ns_outcome(recv_result: isize, reply: IpcMessage) -> Option<usize> {
    if recv_result == 0 && reply.msg_type == NS_RESP_SUCCESS {
        Some(u32_of_le(reply.payload[16], reply.payload[17], reply.payload[18], reply.payload[19]) as usize)
    } else {
        None
    }
}

/// One exchange with the name server: one send of `request` to task 3, and
/// one receive from task 3 only when that send succeeded.
pub struct NsCall {
    pub request: IpcMessage,
    pub stage: NsStage,
    pub outcome: Option<usize>,
}

impl NsCall {
    /// The exchange for command `cmd` (register or look up) on `service`,
    /// not started.
    pub fn new(cmd: u32, service: &str) -> (r: Self)
        ensures
            r.stage == NsStage::Start,
            r.outcome is None,
            r.request.sender == 0,
            r.request.msg_type == cmd,
            r.request.length == 16,
            r.request.reserved == 0,
            r.request.payload@ == padded(service.spec_bytes(), 16) + Seq::new(16, |i: int| 0u8),
    {
        NsCall { request: ns_request(cmd, service), stage: NsStage::Start, outcome: None }
    }

    /// One step, given the result of the last IPC call (and, after the
    /// receive, the reply): at the start the request is sent to the name
    /// server; a successful send is followed by a receive from it, a failed
    /// one ends the exchange without outcome; the receive ends it with
    /// `ns_outcome`; once over, nothing more is done.
    pub fn step(&mut self, result: isize, reply: &IpcMessage) -> (r: NsAction)
        ensures
            final(self).request == old(self).request,
            match old(self).stage {
                NsStage::Start => {
                    &&& final(self).stage == NsStage::Sent
                    &&& final(self).outcome == old(self).outcome
                    &&& r matches NsAction::Send { dest, msg }
                    &&& dest == NAMESERVER_TASK
                    &&& msg == old(self).request
                },
                NsStage::Sent => if result == 0 {
                    &&& final(self).stage == NsStage::Receiving
                    &&& final(self).outcome == old(self).outcome
                    &&& r matches NsAction::Receive { src }
                    &&& src == NAMESERVER_TASK
                } else {
                    &&& final(self).stage == NsStage::Done
                    &&& final(self).outcome is None
                    &&& r matches NsAction::Finished { outcome }
                    &&& outcome is None
                },
                NsStage::Receiving => {
                    &&& final(self).stage == NsStage::Done
                    &&& final(self).outcome == ns_outcome(result, *reply)
                    &&& r matches NsAction::Finished { outcome }
                    &&& outcome == ns_outcome(result, *reply)
                },
                NsStage::Done => {
                    &&& final(self).stage == NsStage::Done
                    &&& final(self).outcome == old(self).outcome
                    &&& r matches NsAction::Finished { outcome }
                    &&& outcome == old(self).outcome
                },
            },
    {
        match self.stage {
            NsStage::Start => {
                self.stage = NsStage::Sent;
                NsAction::Send { dest: NAMESERVER_TASK, msg: self.request }
            },
            NsStage::Sent => {
                if result == 0 {
                    self.stage = NsStage::Receiving;
                    NsAction::Receive { src: NAMESERVER_TASK }
                } else {
                    self.stage = NsStage::Done;
                    self.outcome = None;
                    NsAction::Finished { outcome: None }
                }
            },
            NsStage::Receiving => {
                let outcome = ns_lookup(0, result, reply);
                self.stage = NsStage::Done;
                self.outcome = outcome;
                NsAction::Finished { outcome }
            },
            NsStage::Done => NsAction::Finished { outcome: self.outcome },
        }
    }
}

} // verus!
