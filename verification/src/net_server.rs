//! The network service: it answers status and web requests from its own
//! packet counters (the card is only detected, not driven).
use vstd::prelude::*;
use crate::task::IpcMessage;
use crate::ipc::{NET_CMD_STATUS, NET_CMD_GET_HTTP, NET_RESP_OK, NET_RESP_ERR, le_bytes_u32, put_u32};

verus! {

/// "192.168.1.10" padded with zeros to 16 bytes.
pub open spec fn ip_text() -> Seq<u8> {
    seq![49u8, 57u8, 50u8, 46u8, 49u8, 54u8, 56u8, 46u8, 49u8, 46u8, 49u8, 48u8, 0u8, 0u8, 0u8, 0u8]
}

/// "HTTP/1.1 200 OK\nSrv: AetherV-Web" (32 bytes).
pub open spec fn http_text() -> Seq<u8> {
    seq![72u8, 84u8, 84u8, 80u8, 47u8, 49u8, 46u8, 49u8, 32u8, 50u8, 48u8, 48u8, 32u8, 79u8, 75u8,
        10u8, 83u8, 114u8, 118u8, 58u8, 32u8, 65u8, 101u8, 116u8, 104u8, 101u8, 114u8, 86u8, 45u8,
        87u8, 101u8, 98u8]
}

/// The payload of a status answer: the address, the received and sent
/// packet counts in the target's byte order, whether a card was found, and
/// zeros.
pub open spec fn status_payload(rx: u32, tx: u32, found: bool) -> Seq<u8> {
    ip_text() + le_bytes_u32(rx) + le_bytes_u32(tx) + seq![
        if found {
            1u8
        } else {
            0u8
        },
    ] + Seq::new(7, |i: int| 0u8)
}

/// The network service's state: its packet counters and whether a network
/// card was found at start-up.
pub struct NetServer {
    pub packets_rx: u32,
    pub packets_tx: u32,
    pub device_found: bool,
}

impl NetServer {
    /// The counters start at 142 received and 88 sent packets.
    pub fn new(device_found: bool) -> (r: Self)
        ensures
            r.packets_rx == 142,
            r.packets_tx == 88,
            r.device_found == device_found,
    {
        NetServer { packets_rx: 142, packets_tx: 88, device_found }
    }

    /// Answers a request.  A status request and a web request each count
    /// one packet received and one sent; the status answer (length 32)
    /// carries the address, both counters after the request and whether a
    /// card was found; the web answer (length 32) a fixed HTTP header.  Any
    /// other request gets an error of length 0.
    pub fn handle_request(&mut self, msg: &IpcMessage) -> (r: IpcMessage)
        requires
            msg.msg_type == NET_CMD_STATUS || msg.msg_type == NET_CMD_GET_HTTP ==> old(self).packets_rx
                < u32::MAX && old(self).packets_tx < u32::MAX,
        ensures
            final(self).device_found == old(self).device_found,
            r.sender == 0,
            r.reserved == 0,
            if msg.msg_type == NET_CMD_STATUS || msg.msg_type == NET_CMD_GET_HTTP {
                &&& final(self).packets_rx == old(self).packets_rx + 1
                &&& final(self).packets_tx == old(self).packets_tx + 1
                &&& r.msg_type == NET_RESP_OK
                &&& r.length == 32
                &&& r.payload@ == (if msg.msg_type == NET_CMD_STATUS {
                    status_payload(final(self).packets_rx, final(self).packets_tx, old(self).device_found)
                } else {
                    http_text()
                })
            } else {
                &&& final(self).packets_rx == old(self).packets_rx
                &&& final(self).packets_tx == old(self).packets_tx
                &&& r.msg_type == NET_RESP_ERR
                &&& r.length == 0
                &&& r.payload@ == Seq::new(32, |i: int| 0u8)
            },
    {
        if msg.msg_type == NET_CMD_STATUS {
            self.packets_rx = self.packets_rx + 1;
            self.packets_tx = self.packets_tx + 1;
            let mut payload = [0u8; 32];
            let ip: [u8; 12] = [49, 57, 50, 46, 49, 54, 56, 46, 49, 46, 49, 48];
            let mut i: usize = 0;
            while i < 12
                invariant
                    i <= 12,
                    forall|k: int| 0 <= k < i ==> #[trigger] payload@[k] == ip@[k],
                    forall|k: int| i <= k < 32 ==> #[trigger] payload@[k] == 0u8,
                decreases 12 - i,
            {
                payload[i] = ip[i];
                i = i + 1;
            }
            put_u32(&mut payload, 16, self.packets_rx);
            put_u32(&mut payload, 20, self.packets_tx);
            payload[24] = if self.device_found {
                1
            } else {
                0
            };
            assert(payload@ =~= status_payload(self.packets_rx, self.packets_tx, self.device_found));
            IpcMessage { sender: 0, msg_type: NET_RESP_OK, length: 32, reserved: 0, payload }
        } else if msg.msg_type == NET_CMD_GET_HTTP {
            self.packets_rx = self.packets_rx + 1;
            self.packets_tx = self.packets_tx + 1;
            let payload: [u8; 32] = [
                72, 84, 84, 80, 47, 49, 46, 49, 32, 50, 48, 48, 32, 79, 75, 10, 83, 114, 118, 58, 32,
                65, 101, 116, 104, 101, 114, 86, 45, 87, 101, 98,
            ];
            assert(payload@ =~= http_text());
            IpcMessage { sender: 0, msg_type: NET_RESP_OK, length: 32, reserved: 0, payload }
        } else {
            let r = IpcMessage { sender: 0, msg_type: NET_RESP_ERR, length: 0, reserved: 0, payload: [0u8; 32] };
            assert(r.payload@ =~= Seq::new(32, |i: int| 0u8));
            r
        }
    }
}

} // verus!
