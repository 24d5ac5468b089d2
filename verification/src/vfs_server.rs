//! The file server: resolves paths to FAT16 directory entries read from the
//! block server and keeps one open file per client.
use vstd::prelude::*;
use crate::task::{IpcMessage, MAX_TASKS};
use crate::block_server::{simulated_chunk, persist_name, persist_text, lemma_small_le_bytes};
use crate::ipc::{
    VFS_CMD_OPEN, VFS_CMD_READ, VFS_CMD_CLOSE, VFS_RESP_OK, VFS_RESP_ERR, BLOCK_CMD_READ,
    BLOCK_RESP_OK, le_bytes_u32, u32_of_le, lemma_le_u32_roundtrip, u16_of_le, u32_from_bytes, u16_from_bytes, put_u32,
};

verus! {

/// An open file: its first cluster and its size in bytes.
#[derive(Clone, Copy, Debug)]
pub struct OpenFile {
    pub cluster: u16,
    pub size: u32,
}

/// The task id of the file server, written as the sender of its replies.
pub const VFS_TASK: u32 = 7;

/// ASCII lower-case letters become upper case; other bytes stay.
pub open spec fn ascii_upper(c: u8) -> u8 {
    if 97 <= c <= 122 {
        (c - 32) as u8
    } else {
        c
    }
}

/// Where the name starts: after a leading '/'.
pub open spec fn name_start(path: Seq<u8>) -> int {
    if path.len() > 0 && path[0] == 47 {
        1
    } else {
        0
    }
}

/// The first '.' at index `k` or above.
pub open spec fn first_dot(path: Seq<u8>, k: int) -> Option<int>
    decreases path.len() - k,
{
    if k < 0 || k >= path.len() {
        None
    } else if path[k] == 46 {
        Some(k)
    } else {
        first_dot(path, k + 1)
    }
}

/// The 11-byte FAT16 name of `path`: up to 8 characters of the name before
/// the first '.' (after a leading '/'), then up to 3 of what follows the dot,
/// upper-cased and padded with spaces.
pub open spec fn fat16_name(path: Seq<u8>) -> Seq<u8> {
    let start = name_start(path);
    let dot = first_dot(path, start);
    let name_end = match dot {
        Some(d) => d,
        None => path.len() as int,
    };
    Seq::new(
        11,
        |k: int|
            if k < 8 {
                if start + k < name_end {
                    ascii_upper(path[start + k])
                } else {
                    32u8
                }
            } else {
                match dot {
                    Some(d) => if d + 1 + (k - 8) < path.len() {
                        ascii_upper(path[d + 1 + (k - 8)])
                    } else {
                        32u8
                    },
                    None => 32u8,
                }
            },
    )
}

fn upper(c: u8) -> (r: u8)
    ensures
        r == ascii_upper(c),
{
    if c >= 97 && c <= 122 {
        c - 32
    } else {
        c
    }
}

/// The FAT16 name of `path`: see `fat16_name`.
pub fn path_to_fat16(path: &[u8]) -> (r: [u8; 11])
    ensures
        r@ == fat16_name(path@),
{
    let mut fatname = [32u8; 11];
    let start: usize = if path.len() > 0 && path[0] == 47 {
        1
    } else {
        0
    };
    let mut i = start;
    while i < path.len() && path[i] != 46
        invariant
            start == name_start(path@),
            start <= i <= path@.len(),
            first_dot(path@, start as int) == first_dot(path@, i as int),
        decreases path@.len() - i,
    {
        i = i + 1;
    }
    let dot_idx: Option<usize> = if i < path.len() {
        Some(i)
    } else {
        None
    };
    assert(match dot_idx {
        Some(d) => first_dot(path@, start as int) == Some(d as int),
        None => first_dot(path@, start as int) is None,
    });
    let name_end = match dot_idx {
        Some(d) => d,
        None => path.len(),
    };
    let mut dst: usize = 0;
    let mut src = start;
    while src < name_end
        invariant
            start == name_start(path@),
            start <= name_end <= path@.len(),
            start <= src <= name_end,
            dst == (if src - start <= 8 {
                src - start
            } else {
                8
            }),
            forall|k: int| 0 <= k < dst ==> #[trigger] fatname@[k] == ascii_upper(path@[start + k]),
            forall|k: int| dst <= k < 11 ==> #[trigger] fatname@[k] == 32u8,
        decreases name_end - src,
    {
        if dst < 8 {
            fatname[dst] = upper(path[src]);
            dst = dst + 1;
        }
        src = src + 1;
    }
    assert forall|k: int| 0 <= k < 8 implies #[trigger] fatname@[k] == (if start + k < name_end {
        ascii_upper(path@[start + k])
    } else {
        32u8
    }) by {}
    if let Some(dot) = dot_idx {
        let mut ext_dst: usize = 8;
        let mut src = dot + 1;
        while src < path.len()
            invariant
                dot < path@.len(),
                dot + 1 <= src <= path@.len(),
                ext_dst == (if src - (dot + 1) <= 3 {
                    8 + src - (dot + 1)
                } else {
                    11
                }),
                forall|k: int|
                    0 <= k < 8 ==> #[trigger] fatname@[k] == (if start + k < name_end {
                        ascii_upper(path@[start + k])
                    } else {
                        32u8
                    }),
                forall|k: int|
                    8 <= k < ext_dst ==> #[trigger] fatname@[k] == ascii_upper(
                        path@[dot + 1 + (k - 8)],
                    ),
                forall|k: int| ext_dst <= k < 11 ==> #[trigger] fatname@[k] == 32u8,
            decreases path@.len() - src,
        {
            if ext_dst < 11 {
                fatname[ext_dst] = upper(path[src]);
                ext_dst = ext_dst + 1;
            }
            src = src + 1;
        }
    }
    assert(fatname@ =~= fat16_name(path@));
    fatname
}

/// The bytes of a payload up to its first zero byte.
pub open spec fn until_nul(p: Seq<u8>, k: int) -> int
    decreases p.len() - k,
{
    if k < 0 || k >= p.len() || p[k] == 0 {
        k
    } else {
        until_nul(p, k + 1)
    }
}

/// A request to the block server for chunk `chunk` of sector `sector`.
pub fn block_read_request(sector: u32, chunk: u32) -> (r: IpcMessage)
    ensures
        r.sender == 0,
        r.msg_type == BLOCK_CMD_READ,
        r.length == 8,
        r.reserved == 0,
        r.payload@ == le_bytes_u32(sector) + le_bytes_u32(chunk) + Seq::new(24, |i: int| 0u8),
{
    let mut m = IpcMessage { sender: 0, msg_type: BLOCK_CMD_READ, length: 8, reserved: 0, payload: [0u8; 32] };
    put_u32(&mut m.payload, 0, sector);
    put_u32(&mut m.payload, 4, chunk);
    assert(m.payload@ =~= le_bytes_u32(sector) + le_bytes_u32(chunk) + Seq::new(24, |i: int| 0u8));
    m
}

/// The file a root-directory chunk read from the block server describes,
/// when the exchange succeeded (both results 0, reply of type
/// `BLOCK_RESP_OK`) and the entry's 11-byte name is `target`: its cluster
/// from bytes 26..28 and its size from bytes 28..32.
pub open spec fn dir_entry(send_result: isize, recv_result: isize, reply: IpcMessage, target: Seq<u8>) -> Option<
    OpenFile,
> {
    if send_result == 0 && recv_result == 0 && reply.msg_type == BLOCK_RESP_OK
        && reply.payload@.subrange(0, 11) == target {
        Some(
            OpenFile {
                cluster: u16_of_le(reply.payload[26], reply.payload[27]),
                size: u32_of_le(reply.payload[28], reply.payload[29], reply.payload[30], reply.payload[31]),
            },
        )
    } else {
        None
    }
}

/// Reads a root-directory chunk for `target` (see `dir_entry`).
pub fn match_dir_entry(send_result: isize, recv_result: isize, reply: &IpcMessage, target: &[u8; 11]) -> (r:
    Option<OpenFile>)
    ensures
        r == dir_entry(send_result, recv_result, *reply, target@),
{
    if !(send_result == 0 && recv_result == 0 && reply.msg_type == BLOCK_RESP_OK) {
        return None;
    }
    let mut i: usize = 0;
    while i < 11
        invariant
            i <= 11,
            forall|k: int| 0 <= k < i ==> reply.payload@[k] == target@[k],
        decreases 11 - i,
    {
        if reply.payload[i] != target[i] {
            assert(reply.payload@.subrange(0, 11)[i as int] != target@[i as int]);
            return None;
        }
        i = i + 1;
    }
    assert(reply.payload@.subrange(0, 11) =~= target@);
    Some(
        OpenFile {
            cluster: u16_from_bytes(&reply.payload, 26),
            size: u32_from_bytes(&reply.payload, 28),
        },
    )
}

/// What the file server does next with a request.
#[derive(Clone, Copy, Debug)]
pub enum VfsStep {
    /// Send this reply to the client.
    Reply(IpcMessage),
    /// Scan the root directory for `target` (`DirScan`), then call
    /// `finish_open` with what the scan found.
    ScanDirectory { target: [u8; 11] },
    /// Send `request` to the block server, receive its reply, then call
    /// `finish_read` with `file`.
    ReadData { request: IpcMessage, file: OpenFile },
}

/// The file server's state: the file each client has open.
pub struct VfsServer {
    pub open_files: [Option<OpenFile>; 16],
}

impl VfsServer {
    /// No open files.
    pub fn new() -> (r: Self)
        ensures
            forall|i: int| 0 <= i < 16 ==> #[trigger] r.open_files@[i] is None,
    {
        VfsServer { open_files: [None; 16] }
    }

    /// Decides on a request from `msg.sender`: an open scans the directory
    /// for the FAT16 name of the path in the payload (up to its first zero
    /// byte); a read of an open file reads chunk 0 of the sector numbered by
    /// the file's cluster; a read without an open file fails; a close forgets
    /// the client's file and succeeds; anything else fails.
    pub fn handle_request(&mut self, msg: &IpcMessage) -> (r: VfsStep)
        requires
            msg.msg_type == VFS_CMD_READ || msg.msg_type == VFS_CMD_CLOSE ==> (msg.sender as int)
                < MAX_TASKS,
        ensures
            ({
                let c = msg.sender as int;
                if msg.msg_type == VFS_CMD_OPEN {
                    let n = until_nul(msg.payload@, 0);
                    &&& final(self).open_files == old(self).open_files
                    &&& r matches VfsStep::ScanDirectory { target } && target@ == fat16_name(
                        msg.payload@.subrange(0, n),
                    )
                } else if msg.msg_type == VFS_CMD_READ {
                    &&& final(self).open_files == old(self).open_files
                    &&& match old(self).open_files@[c] {
                        Some(f) => r matches VfsStep::ReadData { request, file } && file == f
                            && request.msg_type == BLOCK_CMD_READ && request.length == 8
                            && request.payload@ == le_bytes_u32(f.cluster as u32) + le_bytes_u32(
                            0,
                        ) + Seq::new(24, |i: int| 0u8),
                        None => r matches VfsStep::Reply(m) && m.payload@ == Seq::new(32, |i: int| 0u8)
                            && m.sender == 7 && m.msg_type == VFS_RESP_ERR && m.length == 0,
                    }
                } else if msg.msg_type == VFS_CMD_CLOSE {
                    &&& final(self).open_files@ == old(self).open_files@.update(c, None)
                    &&& r matches VfsStep::Reply(m) && m.sender == 7 && m.msg_type == VFS_RESP_OK
                        && m.length == 0 && m.payload@ == Seq::new(32, |i: int| 0u8)
                } else {
                    &&& final(self).open_files == old(self).open_files
                    &&& r matches VfsStep::Reply(m) && m.payload@ == Seq::new(32, |i: int| 0u8) && m.sender
                        == 7 && m.msg_type == VFS_RESP_ERR && m.length == 0
                }
            }),
    {
        let client = msg.sender as usize;
        if msg.msg_type == VFS_CMD_OPEN {
            let mut path_len: usize = 0;
            while path_len < 32 && msg.payload[path_len] != 0
                invariant
                    path_len <= 32,
                    until_nul(msg.payload@, 0) == until_nul(msg.payload@, path_len as int),
                decreases 32 - path_len,
            {
                path_len = path_len + 1;
            }
            let path = slice_prefix(&msg.payload, path_len);
            let target = path_to_fat16(path.as_slice());
            VfsStep::ScanDirectory { target }
        } else if msg.msg_type == VFS_CMD_READ {
            match self.open_files[client] {
                Some(info) => {
                    let request = block_read_request(info.cluster as u32, 0);
                    VfsStep::ReadData { request, file: info }
                },
                None => VfsStep::Reply(
                    IpcMessage { sender: 7, msg_type: VFS_RESP_ERR, length: 0, reserved: 0, payload: [0u8; 32] },
                ),
            }
        } else if msg.msg_type == VFS_CMD_CLOSE {
            self.open_files[client] = None;
            VfsStep::Reply(
                IpcMessage { sender: 7, msg_type: VFS_RESP_OK, length: 0, reserved: 0, payload: [0u8; 32] },
            )
        } else {
            VfsStep::Reply(
                IpcMessage { sender: 7, msg_type: VFS_RESP_ERR, length: 0, reserved: 0, payload: [0u8; 32] },
            )
        }
    }

    /// Completes an open by `client` once the directory scan found `found`:
    /// the file becomes the client's open file and the reply carries its size
    /// (length 4); a failed scan answers an error.
    pub fn finish_open(&mut self, client: usize, found: Option<OpenFile>) -> (r: IpcMessage)
        requires
            found is Some ==> client < MAX_TASKS,
        ensures
            r.sender == 7,
            r.reserved == 0,
            match found {
                Some(f) => final(self).open_files@ == old(self).open_files@.update(
                    client as int,
                    Some(f),
                ) && r.msg_type == VFS_RESP_OK && r.length == 4 && r.payload@ == Seq::new(
                    32,
                    |i: int| 0u8,
                ).update(0, le_bytes_u32(f.size)[0]).update(1, le_bytes_u32(f.size)[1]).update(
                    2,
                    le_bytes_u32(f.size)[2],
                ).update(3, le_bytes_u32(f.size)[3]),
                None => final(self).open_files == old(self).open_files && r.msg_type
                    == VFS_RESP_ERR && r.length == 0 && r.payload@ == Seq::new(32, |i: int| 0u8),
            },
    {
        let mut reply = IpcMessage { sender: 7, msg_type: VFS_RESP_ERR, length: 0, reserved: 0, payload: [0u8; 32] };
        assert(reply.payload@ =~= Seq::new(32, |i: int| 0u8));
        if let Some(info) = found {
            self.open_files[client] = Some(info);
            reply.msg_type = VFS_RESP_OK;
            reply.length = 4;
            put_u32(&mut reply.payload, 0, info.size);
        }
        reply
    }
}

/// Completes a read of `file` once the block server answered: the chunk's 32
/// bytes with length `min(size, 32)` when the exchange succeeded, an error
/// otherwise.
pub fn finish_read(file: OpenFile, send_result: isize, recv_result: isize, block_reply: &IpcMessage) -> (r:
    IpcMessage)
    ensures
        r.sender == 7,
        r.reserved == 0,
        if send_result == 0 && recv_result == 0 && block_reply.msg_type == BLOCK_RESP_OK {
            &&& r.msg_type == VFS_RESP_OK
            &&& r.length == (if file.size < 32 {
                file.size
            } else {
                32
            })
            &&& r.payload == block_reply.payload
        } else {
            &&& r.msg_type == VFS_RESP_ERR
            &&& r.length == 0
            &&& r.payload@ == Seq::new(32, |i: int| 0u8)
        },
{
    if send_result == 0 && recv_result == 0 && block_reply.msg_type == BLOCK_RESP_OK {
        IpcMessage {
            sender: 7,
            msg_type: VFS_RESP_OK,
            length: if file.size < 32 {
                file.size
            } else {
                32
            },
            reserved: 0,
            payload: block_reply.payload,
        }
    } else {
        let r = IpcMessage { sender: 7, msg_type: VFS_RESP_ERR, length: 0, reserved: 0, payload: [0u8; 32] };
        assert(r.payload@ =~= Seq::new(32, |i: int| 0u8));
        r
    }
}

/// Number of root-directory chunks a scan reads.
pub const DIR_CHUNKS: u32 = 4;

/// What a directory scan asks next.
#[derive(Clone, Copy, Debug)]
pub enum ScanStep {
    /// Send `request` to the block server and hand its results and answer
    /// to `DirScan::answer`.
    Ask { request: IpcMessage },
    /// The scan is over with the file found, if any (for `finish_open`).
    Done { found: Option<OpenFile> },
}

/// A scan of the root directory (sector 1) for the entry named `target`,
/// waiting for the answer about chunk `chunk`.
pub struct DirScan {
    pub target: [u8; 11],
    pub chunk: u32,
}

impl DirScan {
    /// The scan for `target` and its first request, chunk 0 of sector 1.
    pub fn new(target: [u8; 11]) -> (r: (DirScan, IpcMessage))
        ensures
            r.0.target == target,
            r.0.chunk == 0,
            r.1.sender == 0,
            r.1.msg_type == BLOCK_CMD_READ,
            r.1.length == 8,
            r.1.reserved == 0,
            r.1.payload@ == le_bytes_u32(1) + le_bytes_u32(0) + Seq::new(24, |i: int| 0u8),
    {
        (DirScan { target, chunk: 0 }, block_read_request(1, 0))
    }

    /// Takes the answer about the current chunk: an entry named `target`
    /// ends the scan with its file; otherwise the next chunk is asked for,
    /// and after the last one the scan ends without a file.
    pub fn answer(&mut self, send_result: isize, recv_result: isize, reply: &IpcMessage) -> (r: ScanStep)
        requires
            old(self).chunk < DIR_CHUNKS,
        ensures
            final(self).target == old(self).target,
            match dir_entry(send_result, recv_result, *reply, old(self).target@) {
                Some(f) => r matches ScanStep::Done { found } && found == Some(f),
                None => if old(self).chunk + 1 < DIR_CHUNKS {
                    &&& final(self).chunk == old(self).chunk + 1
                    &&& r matches ScanStep::Ask { request }
                    &&& request.sender == 0
                    &&& request.msg_type == BLOCK_CMD_READ
                    &&& request.length == 8
                    &&& request.reserved == 0
                    &&& request.payload@ == le_bytes_u32(1) + le_bytes_u32(final(self).chunk)
                        + Seq::new(24, |i: int| 0u8)
                } else {
                    r matches ScanStep::Done { found } && found is None
                },
            },
            r is Ask ==> final(self).chunk < DIR_CHUNKS,
    {
        if let Some(f) = match_dir_entry(send_result, recv_result, reply, &self.target) {
            return ScanStep::Done { found: Some(f) };
        }
        if self.chunk + 1 < DIR_CHUNKS {
            self.chunk = self.chunk + 1;
            ScanStep::Ask { request: block_read_request(1, self.chunk) }
        } else {
            ScanStep::Done { found: None }
        }
    }
}

/// Opening then reading reads the file: once `finish_open` has recorded
/// file `f` for `client`, the client's read asks the block server (through
/// the request `handle_request` builds, `le_bytes_u32(cluster)`, then chunk
/// 0) for chunk 0 of the sector numbered by `f`'s cluster, which the block
/// server decodes back to exactly that sector and chunk; other clients'
/// files are untouched.
pub proof fn law_open_then_read(files: Seq<Option<OpenFile>>, client: int, f: OpenFile, other: int)
    requires
        0 <= client < files.len(),
        0 <= other < files.len(),
        other != client,
    ensures
        files.update(client, Some(f))[client] == Some(f),
        files.update(client, Some(f))[other] == files[other],
        ({
            let p = le_bytes_u32(f.cluster as u32) + le_bytes_u32(0) + Seq::new(24, |i: int| 0u8);
            &&& u32_of_le(p[0], p[1], p[2], p[3]) == f.cluster as u32
            &&& u32_of_le(p[4], p[5], p[6], p[7]) == 0
        }),
{
    lemma_le_u32_roundtrip(f.cluster as u32, 0, 0, 0, 0);
    lemma_le_u32_roundtrip(0, 0, 0, 0, 0);
    let a = le_bytes_u32(f.cluster as u32);
    let b = le_bytes_u32(0);
    let p = a + b + Seq::new(24, |i: int| 0u8);
    assert(p[0] == a[0] && p[1] == a[1] && p[2] == a[2] && p[3] == a[3]);
    assert(p[4] == b[0] && p[5] == b[1] && p[6] == b[2] && p[7] == b[3]);
}

/// "/persist.dat"
pub open spec fn persist_path() -> Seq<u8> {
    seq![47u8, 112u8, 101u8, 114u8, 115u8, 105u8, 115u8, 116u8, 46u8, 100u8, 97u8, 116u8]
}

/// Opening "/persist.dat" and reading it, with the block server answering
/// each read with the simulated disk's chunk: the path's FAT16 name is
/// "PERSIST DAT"; the directory scan passes over chunks 0 and 1 of the root
/// directory (README.TXT, CONFIG.SYS) and finds the file in chunk 2, at
/// cluster 4 with 12 bytes, so `finish_open` answers success with size 12;
/// the read then asks for chunk 0 of sector 4 (`law_open_then_read`), whose
/// first 12 bytes, all that `finish_read` answers with, are "system_ok=1\n".
pub proof fn law_persist_open_then_read(r0: IpcMessage, r1: IpcMessage, r2: IpcMessage, data: IpcMessage)
    requires
        r0.msg_type == BLOCK_RESP_OK && r0.payload@ == simulated_chunk(1, 0),
        r1.msg_type == BLOCK_RESP_OK && r1.payload@ == simulated_chunk(1, 1),
        r2.msg_type == BLOCK_RESP_OK && r2.payload@ == simulated_chunk(1, 2),
        data.msg_type == BLOCK_RESP_OK && data.payload@ == simulated_chunk(4, 0),
    ensures
        fat16_name(persist_path()) == persist_name(),
        dir_entry(0, 0, r0, persist_name()) is None,
        dir_entry(0, 0, r1, persist_name()) is None,
        dir_entry(0, 0, r2, persist_name()) == Some(OpenFile { cluster: 4, size: 12 }),
        data.payload@.subrange(0, 12) == persist_text(),
{
    let p = persist_path();
    assert(name_start(p) == 1);
    reveal_with_fuel(first_dot, 10);
    assert(first_dot(p, 1) == Some(8int));
    assert(fat16_name(p) =~= persist_name());
    lemma_small_le_bytes(12);
    lemma_small_le_bytes(23);
    lemma_small_le_bytes(37);
    assert(r0.payload@[0] == 82u8);
    assert(r0.payload@.subrange(0, 11)[0] != persist_name()[0]);
    assert(r1.payload@[0] == 67u8);
    assert(r1.payload@.subrange(0, 11)[0] != persist_name()[0]);
    assert(r2.payload@.subrange(0, 11) =~= persist_name());
    let b = r2.payload;
    assert(b[26] == 4u8 && b[27] == 0u8);
    assert(b[28] == 12u8 && b[29] == 0u8 && b[30] == 0u8 && b[31] == 0u8);
    assert(u16_of_le(4u8, 0u8) == 4u16) by (bit_vector);
    assert(u32_of_le(12u8, 0u8, 0u8, 0u8) == 12u32) by (bit_vector);
    assert(data.payload@.subrange(0, 12) =~= persist_text());
}

/// The first `n` bytes of a payload.
fn slice_prefix(p: &[u8; 32], n: usize) -> (r: Vec<u8>)
    requires
        n <= 32,
    ensures
        r@ == p@.subrange(0, n as int),
{
    let mut v: Vec<u8> = Vec::new();
    let mut i: usize = 0;
    while i < n
        invariant
            i <= n <= 32,
            v@ == p@.subrange(0, i as int),
        decreases n - i,
    {
        v.push(p[i]);
        i = i + 1;
    }
    v
}

} // verus!
