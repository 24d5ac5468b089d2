//! The display service: it paints the framebuffer on request and asks for
//! the screen to be refreshed.
use vstd::prelude::*;
use crate::task::IpcMessage;
use crate::drivers::gpu::{Framebuffer, draw_pattern, fill_screen, pattern_color, px_of, py_of};
use crate::wm::{rgb, rgb_exec};

verus! {

/// Request: paint the test pattern.
pub const GPU_CMD_PATTERN: u32 = 1;

/// Request: paint the whole screen with the colour in payload bytes 0..3.
pub const GPU_CMD_FILL: u32 = 2;

/// Request: refresh the screen from the framebuffer.
pub const GPU_CMD_FLUSH: u32 = 3;

/// Answer: done.
pub const GPU_RESP_OK: u32 = 200;

/// Answer: unknown request.
pub const GPU_RESP_UNKNOWN: u32 = 404;

/// The answer to a display request, and whether the screen must be
/// refreshed from the framebuffer (before answering).
pub struct DisplayReply {
    pub reply: IpcMessage,
    pub flush: bool,
}

/// Serves a display request: the pattern request paints the test pattern,
/// the fill request paints the screen with the colour in payload bytes
/// 0..3; both and the flush request refresh the screen and answer done.
/// Anything else is answered unknown.  The answer is the request itself
/// with the answer type.
pub fn serve_display(fb: &mut Framebuffer, msg: &IpcMessage) -> (r: DisplayReply)
    requires
        old(fb).wf(),
    ensures
        final(fb).wf(),
        r.reply == (IpcMessage {
            msg_type: if msg.msg_type == GPU_CMD_PATTERN || msg.msg_type == GPU_CMD_FILL || msg.msg_type
                == GPU_CMD_FLUSH {
                GPU_RESP_OK
            } else {
                GPU_RESP_UNKNOWN
            },
            ..*msg
        }),
        r.flush == (msg.msg_type == GPU_CMD_PATTERN || msg.msg_type == GPU_CMD_FILL || msg.msg_type
            == GPU_CMD_FLUSH),
        msg.msg_type == GPU_CMD_PATTERN ==> forall|p: int|
            0 <= p < 307200 ==> #[trigger] final(fb).pixels@[p] == pattern_color(px_of(p), py_of(p)),
        msg.msg_type == GPU_CMD_FILL ==> final(fb).pixels@ == Seq::new(
            307200,
            |p: int| rgb(msg.payload[0], msg.payload[1], msg.payload[2]),
        ),
        msg.msg_type != GPU_CMD_PATTERN && msg.msg_type != GPU_CMD_FILL ==> final(fb).pixels@ == old(
            fb,
        ).pixels@,
{
    let mut reply = *msg;
    if msg.msg_type == GPU_CMD_PATTERN {
        draw_pattern(fb);
        reply.msg_type = GPU_RESP_OK;
        DisplayReply { reply, flush: true }
    } else if msg.msg_type == GPU_CMD_FILL {
        let color = rgb_exec(msg.payload[0], msg.payload[1], msg.payload[2]);
        fill_screen(fb, color);
        reply.msg_type = GPU_RESP_OK;
        DisplayReply { reply, flush: true }
    } else if msg.msg_type == GPU_CMD_FLUSH {
        reply.msg_type = GPU_RESP_OK;
        DisplayReply { reply, flush: true }
    } else {
        reply.msg_type = GPU_RESP_UNKNOWN;
        DisplayReply { reply, flush: false }
    }
}

} // verus!
