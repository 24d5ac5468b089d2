//! The block server and its simulated FAT16 disk: sectors of 512 bytes
//! served in 32-byte chunks.
use vstd::prelude::*;
use crate::task::IpcMessage;
use crate::ipc::{
    BLOCK_CMD_READ, BLOCK_CMD_WRITE, BLOCK_RESP_OK, BLOCK_RESP_ERR, le_bytes_u32, u32_of_le, u16_of_le,
    u32_from_bytes, padded,
};

verus! {

/// The start of the boot sector: jump instruction, OEM name "AETHERV ",
/// 512 bytes per sector, 1 sector per cluster, 1 reserved sector.
pub open spec fn boot_sector_head() -> Seq<u8> {
    seq![235u8, 60u8, 144u8, 65u8, 69u8, 84u8, 72u8, 69u8, 82u8, 86u8, 32u8, 0u8, 2u8, 1u8, 1u8, 0u8]
}

/// A FAT16 root-directory entry for the 11-byte name `name` (a plain file,
/// attribute 0x20) starting at cluster `cluster` with `size` bytes.
pub open spec fn fat_dir_entry(name: Seq<u8>, cluster: u8, size: u32) -> Seq<u8> {
    name + seq![0x20u8] + Seq::new(14, |i: int| 0u8) + seq![cluster, 0u8] + le_bytes_u32(size)
}

/// "README  TXT"
pub open spec fn readme_name() -> Seq<u8> {
    seq![82u8, 69u8, 65u8, 68u8, 77u8, 69u8, 32u8, 32u8, 84u8, 88u8, 84u8]
}

/// "CONFIG  SYS"
pub open spec fn config_name() -> Seq<u8> {
    seq![67u8, 79u8, 78u8, 70u8, 73u8, 71u8, 32u8, 32u8, 83u8, 89u8, 83u8]
}

/// "PERSIST DAT"
pub open spec fn persist_name() -> Seq<u8> {
    seq![80u8, 69u8, 82u8, 83u8, 73u8, 83u8, 84u8, 32u8, 68u8, 65u8, 84u8]
}

/// "AetherV OS - Persistent Block Dev\n", the content of README.TXT.
pub open spec fn readme_text() -> Seq<u8> {
    seq![65u8, 101u8, 116u8, 104u8, 101u8, 114u8, 86u8, 32u8, 79u8, 83u8, 32u8, 45u8, 32u8, 80u8,
        101u8, 114u8, 115u8, 105u8, 115u8, 116u8, 101u8, 110u8, 116u8, 32u8, 66u8, 108u8, 111u8, 99u8,
        107u8, 32u8, 68u8, 101u8, 118u8, 10u8]
}

/// "boot_device=virtio-blk\n", the content of CONFIG.SYS.
pub open spec fn config_text() -> Seq<u8> {
    seq![98u8, 111u8, 111u8, 116u8, 95u8, 100u8, 101u8, 118u8, 105u8, 99u8, 101u8, 61u8, 118u8,
        105u8, 114u8, 116u8, 105u8, 111u8, 45u8, 98u8, 108u8, 107u8, 10u8]
}

/// "system_ok=1\n", the content of PERSIST.DAT.
pub open spec fn persist_text() -> Seq<u8> {
    seq![115u8, 121u8, 115u8, 116u8, 101u8, 109u8, 95u8, 111u8, 107u8, 61u8, 49u8, 10u8]
}

/// The 32 bytes of chunk `chunk` of sector `sector` of the simulated disk:
/// the boot sector (its head in chunk 0, the signature 0x55 0xAA closing
/// chunk 15), the root directory in sector 1 (README.TXT, CONFIG.SYS,
/// PERSIST.DAT in chunks 0 to 2, at clusters 2 to 4), the files' data in
/// chunk 0 of sectors 2 to 4 (cut to 32 bytes), zeros everywhere else.
pub open spec fn simulated_chunk(sector: u32, chunk: u32) -> Seq<u8> {
    if sector == 0 && chunk == 0 {
        padded(boot_sector_head(), 32)
    } else if sector == 0 && chunk == 15 {
        Seq::new(
            32,
            |i: int|
                if i == 30 {
                    0x55u8
                } else if i == 31 {
                    0xAAu8
                } else {
                    0u8
                },
        )
    } else if sector == 1 && chunk == 0 {
        fat_dir_entry(readme_name(), 2, 37)
    } else if sector == 1 && chunk == 1 {
        fat_dir_entry(config_name(), 3, 23)
    } else if sector == 1 && chunk == 2 {
        fat_dir_entry(persist_name(), 4, 12)
    } else if sector == 2 && chunk == 0 {
        padded(readme_text(), 32)
    } else if sector == 3 && chunk == 0 {
        padded(config_text(), 32)
    } else if sector == 4 && chunk == 0 {
        padded(persist_text(), 32)
    } else {
        Seq::new(32, |i: int| 0u8)
    }
}

/// A value below 256 is one byte followed by three zeros.
pub proof fn lemma_small_le_bytes(v: u32)
    requires
        v < 256,
    ensures
        le_bytes_u32(v) == seq![v as u8, 0u8, 0u8, 0u8],
{
    assert((v & 0xff) as u8 == v as u8 && ((v >> 8) & 0xff) as u8 == 0 && ((v >> 16) & 0xff) as u8
        == 0 && ((v >> 24) & 0xff) as u8 == 0) by (bit_vector)
        requires
            v < 256,
    ;
    assert(le_bytes_u32(v) =~= seq![v as u8, 0u8, 0u8, 0u8]);
}

/// Root-directory entry `k` (chunk `k` of sector 1) is named `name`.
pub open spec fn entry_named(k: u32, name: Seq<u8>) -> bool {
    simulated_chunk(1, k).subrange(0, 11) == name
}

/// The cluster a root-directory entry starts at (bytes 26..28).
pub open spec fn entry_cluster(k: u32) -> u16 {
    let e = simulated_chunk(1, k);
    u16_of_le(e[26], e[27])
}

/// The size a root-directory entry records (bytes 28..32).
pub open spec fn entry_size(k: u32) -> u32 {
    let e = simulated_chunk(1, k);
    u32_of_le(e[28], e[29], e[30], e[31])
}

/// The first `min(len, 32)` bytes of `text`: what one chunk holds of it.
pub open spec fn first_chunk_of(text: Seq<u8>) -> Seq<u8> {
    text.subrange(0, if text.len() < 32 { text.len() as int } else { 32 })
}

/// Every directory entry points at its own file: whichever chunk of the
/// root directory holds the entry named "README  TXT", "CONFIG  SYS" or
/// "PERSIST DAT", chunk 0 of the sector its cluster names starts with that
/// file's text, and CONFIG.SYS and PERSIST.DAT record their text's length
/// as their size.
pub proof fn law_entries_point_at_their_files(k: u32)
    ensures
        entry_named(k, readme_name()) ==> simulated_chunk(entry_cluster(k) as u32, 0).subrange(
            0,
            first_chunk_of(readme_text()).len() as int,
        ) == first_chunk_of(readme_text()),
        entry_named(k, config_name()) ==> simulated_chunk(entry_cluster(k) as u32, 0).subrange(
            0,
            first_chunk_of(config_text()).len() as int,
        ) == first_chunk_of(config_text()) && entry_size(k) == config_text().len(),
        entry_named(k, persist_name()) ==> simulated_chunk(entry_cluster(k) as u32, 0).subrange(
            0,
            first_chunk_of(persist_text()).len() as int,
        ) == first_chunk_of(persist_text()) && entry_size(k) == persist_text().len(),
{
    lemma_small_le_bytes(37);
    lemma_small_le_bytes(23);
    lemma_small_le_bytes(12);
    assert(u16_of_le(2u8, 0u8) == 2u16) by (bit_vector);
    assert(u16_of_le(3u8, 0u8) == 3u16) by (bit_vector);
    assert(u16_of_le(4u8, 0u8) == 4u16) by (bit_vector);
    assert(u32_of_le(23u8, 0u8, 0u8, 0u8) == 23u32) by (bit_vector);
    assert(u32_of_le(12u8, 0u8, 0u8, 0u8) == 12u32) by (bit_vector);
    let e = simulated_chunk(1, k);
    if k == 0 {
        assert(e.subrange(0, 11) =~= readme_name());
        assert(e[0] != config_name()[0] && e[0] != persist_name()[0]);
        assert(e[26] == 2u8 && e[27] == 0u8);
        assert(simulated_chunk(2, 0).subrange(0, 32) =~= first_chunk_of(readme_text()));
    } else if k == 1 {
        assert(e.subrange(0, 11) =~= config_name());
        assert(e[0] != readme_name()[0] && e[0] != persist_name()[0]);
        assert(e[26] == 3u8 && e[27] == 0u8);
        assert(e[28] == 23u8 && e[29] == 0u8 && e[30] == 0u8 && e[31] == 0u8);
        assert(simulated_chunk(3, 0).subrange(0, 23) =~= first_chunk_of(config_text()));
    } else if k == 2 {
        assert(e.subrange(0, 11) =~= persist_name());
        assert(e[0] != readme_name()[0] && e[0] != config_name()[0]);
        assert(e[26] == 4u8 && e[27] == 0u8);
        assert(e[28] == 12u8 && e[29] == 0u8 && e[30] == 0u8 && e[31] == 0u8);
        assert(simulated_chunk(4, 0).subrange(0, 12) =~= first_chunk_of(persist_text()));
    } else {
        assert(e[0] == 0u8);
        assert(e.subrange(0, 11)[0] == 0u8);
    }
}

/// The content of chunk `chunk` of sector `sector` of the simulated disk.
pub fn get_simulated_chunk(sector: u32, chunk: u32) -> (r: [u8; 32])
    ensures
        r@ == simulated_chunk(sector, chunk),
{
    let r: [u8; 32] = if sector == 0 && chunk == 0 {
        [
            0xeb, 0x3c, 0x90, 0x41, 0x45, 0x54, 0x48, 0x45, 0x52, 0x56, 0x20, 0x00, 0x02, 0x01, 0x01,
            0x00, 0x00, 0x00, 0x00, 0x00, 0x00, 0x00, 0x00, 0x00, 0x00, 0x00, 0x00, 0x00, 0x00, 0x00,
            0x00, 0x00,
        ]
    } else if sector == 0 && chunk == 15 {
        [
            0x00, 0x00, 0x00, 0x00, 0x00, 0x00, 0x00, 0x00, 0x00, 0x00, 0x00, 0x00, 0x00, 0x00, 0x00,
            0x00, 0x00, 0x00, 0x00, 0x00, 0x00, 0x00, 0x00, 0x00, 0x00, 0x00, 0x00, 0x00, 0x00, 0x00,
            0x55, 0xaa,
        ]
    } else if sector == 1 && chunk == 0 {
        [
            0x52, 0x45, 0x41, 0x44, 0x4d, 0x45, 0x20, 0x20, 0x54, 0x58, 0x54, 0x20, 0x00, 0x00, 0x00,
            0x00, 0x00, 0x00, 0x00, 0x00, 0x00, 0x00, 0x00, 0x00, 0x00, 0x00, 0x02, 0x00, 0x25, 0x00,
            0x00, 0x00,
        ]
    } else if sector == 1 && chunk == 1 {
        [
            0x43, 0x4f, 0x4e, 0x46, 0x49, 0x47, 0x20, 0x20, 0x53, 0x59, 0x53, 0x20, 0x00, 0x00, 0x00,
            0x00, 0x00, 0x00, 0x00, 0x00, 0x00, 0x00, 0x00, 0x00, 0x00, 0x00, 0x03, 0x00, 0x17, 0x00,
            0x00, 0x00,
        ]
    } else if sector == 1 && chunk == 2 {
        [
            0x50, 0x45, 0x52, 0x53, 0x49, 0x53, 0x54, 0x20, 0x44, 0x41, 0x54, 0x20, 0x00, 0x00, 0x00,
            0x00, 0x00, 0x00, 0x00, 0x00, 0x00, 0x00, 0x00, 0x00, 0x00, 0x00, 0x04, 0x00, 0x0c, 0x00,
            0x00, 0x00,
        ]
    } else if sector == 2 && chunk == 0 {
        [
            0x41, 0x65, 0x74, 0x68, 0x65, 0x72, 0x56, 0x20, 0x4f, 0x53, 0x20, 0x2d, 0x20, 0x50, 0x65,
            0x72, 0x73, 0x69, 0x73, 0x74, 0x65, 0x6e, 0x74, 0x20, 0x42, 0x6c, 0x6f, 0x63, 0x6b, 0x20,
            0x44, 0x65,
        ]
    } else if sector == 3 && chunk == 0 {
        [
            0x62, 0x6f, 0x6f, 0x74, 0x5f, 0x64, 0x65, 0x76, 0x69, 0x63, 0x65, 0x3d, 0x76, 0x69, 0x72,
            0x74, 0x69, 0x6f, 0x2d, 0x62, 0x6c, 0x6b, 0x0a, 0x00, 0x00, 0x00, 0x00, 0x00, 0x00, 0x00,
            0x00, 0x00,
        ]
    } else if sector == 4 && chunk == 0 {
        [
            0x73, 0x79, 0x73, 0x74, 0x65, 0x6d, 0x5f, 0x6f, 0x6b, 0x3d, 0x31, 0x0a, 0x00, 0x00, 0x00,
            0x00, 0x00, 0x00, 0x00, 0x00, 0x00, 0x00, 0x00, 0x00, 0x00, 0x00, 0x00, 0x00, 0x00, 0x00,
            0x00, 0x00,
        ]
    } else {
        [0u8; 32]
    };
    proof {
        lemma_small_le_bytes(37);
        lemma_small_le_bytes(23);
        lemma_small_le_bytes(12);
        assert(r@ =~= simulated_chunk(sector, chunk));
    }
    r
}

/// Serves one request of the block-server loop and returns the reply, which
/// goes to the request's sender.  A read takes the sector from payload bytes
/// 0..4 and the chunk from bytes 4..8 and answers with the chunk (length 32);
/// a write is acknowledged with length 0 and stores nothing; any other
/// command is an error.
pub fn handle_block_request(msg: &IpcMessage) -> (r: IpcMessage)
    ensures
        r.sender == 0,
        r.reserved == 0,
        msg.msg_type == BLOCK_CMD_READ ==> r.msg_type == BLOCK_RESP_OK && r.length == 32
            && r.payload@ == simulated_chunk(
            u32_of_le(msg.payload[0], msg.payload[1], msg.payload[2], msg.payload[3]),
            u32_of_le(msg.payload[4], msg.payload[5], msg.payload[6], msg.payload[7]),
        ),
        msg.msg_type == BLOCK_CMD_WRITE ==> r.msg_type == BLOCK_RESP_OK && r.length == 0
            && r.payload@ == Seq::new(32, |i: int| 0u8),
        msg.msg_type != BLOCK_CMD_READ && msg.msg_type != BLOCK_CMD_WRITE ==> r.msg_type
            == BLOCK_RESP_ERR && r.length == 0 && r.payload@ == Seq::new(32, |i: int| 0u8),
{
    if msg.msg_type == BLOCK_CMD_READ {
        let sector = u32_from_bytes(&msg.payload, 0);
        let chunk = u32_from_bytes(&msg.payload, 4);
        let data = get_simulated_chunk(sector, chunk);
        IpcMessage { sender: 0, msg_type: BLOCK_RESP_OK, length: 32, reserved: 0, payload: data }
    } else {
        let r = IpcMessage {
            sender: 0,
            msg_type: if msg.msg_type == BLOCK_CMD_WRITE {
                BLOCK_RESP_OK
            } else {
                BLOCK_RESP_ERR
            },
            length: 0,
            reserved: 0,
            payload: [0u8; 32],
        };
        assert(r.payload@ =~= Seq::new(32, |i: int| 0u8));
        r
    }
}

} // verus!
