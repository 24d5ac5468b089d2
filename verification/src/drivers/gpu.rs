//! VirtIO GPU commands, the 640x480 framebuffer and the drawing primitives
//! the window manager composes the screen with.
use vstd::prelude::*;
use crate::drivers::virtio::to_physical_spec;
use crate::text::str_from_utf8;
use vstd::utf8::{valid_utf8, decode_utf8};

verus! {

pub const VIRTIO_GPU_CMD_RESOURCE_CREATE_2D: u32 = 0x0101;
pub const VIRTIO_GPU_CMD_RESOURCE_ATTACH_BACKING: u32 = 0x0106;
pub const VIRTIO_GPU_CMD_SET_SCANOUT: u32 = 0x0103;
pub const VIRTIO_GPU_CMD_TRANSFER_TO_HOST_2D: u32 = 0x0105;
pub const VIRTIO_GPU_CMD_RESOURCE_FLUSH: u32 = 0x0104;
/// The device's answer to a command that succeeded.
pub const VIRTIO_GPU_RESP_OK_NODATA: u32 = 0x1100;

/// Screen width in pixels.
pub const SCREEN_WIDTH: usize = 640;
/// Screen height in pixels.
pub const SCREEN_HEIGHT: usize = 480;
/// Pixels on the screen.
pub const SCREEN_PIXELS: usize = 307200;
/// Pages the framebuffer occupies, each attached to the device as one entry.
pub const FRAMEBUFFER_PAGES: usize = 300;

/// Header of every control command and response.
#[derive(Clone, Copy, Debug)]
pub struct VirtioGpuCtrlHdr {
    pub type_: u32,
    pub flags: u32,
    pub fence_id: u64,
    pub ctx_id: u32,
    pub padding: u32,
}

/// Create a 2D resource.
#[derive(Clone, Copy, Debug)]
pub struct VirtioGpuResourceCreate2d {
    pub hdr: VirtioGpuCtrlHdr,
    pub resource_id: u32,
    pub format: u32,
    pub width: u32,
    pub height: u32,
}

/// One guest memory range backing a resource.
#[derive(Clone, Copy, Debug)]
pub struct VirtioGpuMemEntry {
    pub addr: u64,
    pub len: u32,
    pub padding: u32,
}

/// Attach guest memory to a resource.
#[derive(Clone, Copy, Debug)]
pub struct VirtioGpuResourceAttachBacking {
    pub hdr: VirtioGpuCtrlHdr,
    pub resource_id: u32,
    pub nr_entries: u32,
    pub entries: [VirtioGpuMemEntry; 300],
}

/// A rectangle on the screen.
#[derive(Clone, Copy, Debug)]
pub struct VirtioGpuRect {
    pub x: u32,
    pub y: u32,
    pub width: u32,
    pub height: u32,
}

/// Show a resource on a scanout.
#[derive(Clone, Copy, Debug)]
pub struct VirtioGpuSetScanout {
    pub hdr: VirtioGpuCtrlHdr,
    pub r: VirtioGpuRect,
    pub scanout_id: u32,
    pub resource_id: u32,
}

/// Copy guest memory into a resource.
#[derive(Clone, Copy, Debug)]
pub struct VirtioGpuTransferToHost2d {
    pub hdr: VirtioGpuCtrlHdr,
    pub r: VirtioGpuRect,
    pub offset: u64,
    pub resource_id: u32,
    pub padding: u32,
}

/// Redraw a rectangle of a resource.
#[derive(Clone, Copy, Debug)]
pub struct VirtioGpuResourceFlush {
    pub hdr: VirtioGpuCtrlHdr,
    pub r: VirtioGpuRect,
    pub resource_id: u32,
    pub padding: u32,
}

/// The command buffers the driver hands to the device, and the response.
#[derive(Clone, Copy, Debug)]
pub struct GpuCommandChannel {
    pub req_create: VirtioGpuResourceCreate2d,
    pub req_attach: VirtioGpuResourceAttachBacking,
    pub req_scanout: VirtioGpuSetScanout,
    pub req_transfer: VirtioGpuTransferToHost2d,
    pub req_flush: VirtioGpuResourceFlush,
    pub resp: VirtioGpuCtrlHdr,
}

/// A header of type `t` with every other field zero.
pub fn ctrl_hdr(t: u32) -> (r: VirtioGpuCtrlHdr)
    ensures
        r == (VirtioGpuCtrlHdr { type_: t, flags: 0, fence_id: 0, ctx_id: 0, padding: 0 }),
{
    VirtioGpuCtrlHdr { type_: t, flags: 0, fence_id: 0, ctx_id: 0, padding: 0 }
}

/// The full-screen rectangle.
pub fn full_screen() -> (r: VirtioGpuRect)
    ensures
        r == (VirtioGpuRect { x: 0, y: 0, width: 640, height: 480 }),
{
    VirtioGpuRect { x: 0, y: 0, width: 640, height: 480 }
}

/// A header with every field zero.
pub open spec fn zero_hdr() -> VirtioGpuCtrlHdr {
    VirtioGpuCtrlHdr { type_: 0, flags: 0, fence_id: 0, ctx_id: 0, padding: 0 }
}

/// The empty rectangle at the origin.
pub open spec fn zero_rect() -> VirtioGpuRect {
    VirtioGpuRect { x: 0, y: 0, width: 0, height: 0 }
}

impl GpuCommandChannel {
    /// All buffers zeroed: every header, rectangle, id, size and memory
    /// entry is zero, the response included.
    pub fn new() -> (r: Self)
        ensures
            r.req_create == (VirtioGpuResourceCreate2d {
                hdr: zero_hdr(),
                resource_id: 0,
                format: 0,
                width: 0,
                height: 0,
            }),
            r.req_attach.hdr == zero_hdr(),
            r.req_attach.resource_id == 0,
            r.req_attach.nr_entries == 0,
            forall|i: int|
                0 <= i < 300 ==> #[trigger] r.req_attach.entries[i] == (VirtioGpuMemEntry {
                    addr: 0,
                    len: 0,
                    padding: 0,
                }),
            r.req_scanout == (VirtioGpuSetScanout {
                hdr: zero_hdr(),
                r: zero_rect(),
                scanout_id: 0,
                resource_id: 0,
            }),
            r.req_transfer == (VirtioGpuTransferToHost2d {
                hdr: zero_hdr(),
                r: zero_rect(),
                offset: 0,
                resource_id: 0,
                padding: 0,
            }),
            r.req_flush == (VirtioGpuResourceFlush {
                hdr: zero_hdr(),
                r: zero_rect(),
                resource_id: 0,
                padding: 0,
            }),
            r.resp == zero_hdr(),
    {
        let h = ctrl_hdr(0);
        let rect = VirtioGpuRect { x: 0, y: 0, width: 0, height: 0 };
        GpuCommandChannel {
            req_create: VirtioGpuResourceCreate2d { hdr: h, resource_id: 0, format: 0, width: 0, height: 0 },
            req_attach: VirtioGpuResourceAttachBacking {
                hdr: h,
                resource_id: 0,
                nr_entries: 0,
                entries: [VirtioGpuMemEntry { addr: 0, len: 0, padding: 0 }; 300],
            },
            req_scanout: VirtioGpuSetScanout { hdr: h, r: rect, scanout_id: 0, resource_id: 0 },
            req_transfer: VirtioGpuTransferToHost2d { hdr: h, r: rect, offset: 0, resource_id: 0, padding: 0 },
            req_flush: VirtioGpuResourceFlush { hdr: h, r: rect, resource_id: 0, padding: 0 },
            resp: h,
        }
    }

    /// Fills the create command: resource 1, format 1 (B8G8R8A8), 640x480;
    /// and clears the response type.
    pub fn prepare_create_2d(&mut self)
        ensures
            final(self).req_create.hdr.type_ == VIRTIO_GPU_CMD_RESOURCE_CREATE_2D,
            final(self).req_create.hdr.flags == old(self).req_create.hdr.flags,
            final(self).req_create.resource_id == 1,
            final(self).req_create.format == 1,
            final(self).req_create.width == 640,
            final(self).req_create.height == 480,
            final(self).resp.type_ == 0,
    {
        self.req_create.hdr.type_ = VIRTIO_GPU_CMD_RESOURCE_CREATE_2D;
        self.req_create.resource_id = 1;
        self.req_create.format = 1;
        self.req_create.width = 640;
        self.req_create.height = 480;
        self.resp.type_ = 0;
    }

    /// Fills the attach command for resource 1 with the 300 pages of the
    /// framebuffer at virtual address `fb_addr`, each 4096 bytes long at its
    /// physical address; and clears the response type.
    pub fn prepare_attach_backing(&mut self, fb_addr: usize)
        requires
            fb_addr + 0x4000_0000 + 300 * 4096 <= usize::MAX,
        ensures
            final(self).req_attach.hdr.type_ == VIRTIO_GPU_CMD_RESOURCE_ATTACH_BACKING,
            final(self).req_attach.resource_id == 1,
            final(self).req_attach.nr_entries == 300,
            forall|i: int|
                0 <= i < 300 ==> (#[trigger] final(self).req_attach.entries[i]).addr == to_physical_spec(
                    fb_addr,
                ) + i * 4096 && final(self).req_attach.entries[i].len == 4096
                    && final(self).req_attach.entries[i].padding == 0,
            final(self).resp.type_ == 0,
    {
        self.req_attach.hdr.type_ = VIRTIO_GPU_CMD_RESOURCE_ATTACH_BACKING;
        self.req_attach.resource_id = 1;
        self.req_attach.nr_entries = 300;
        let base = crate::drivers::virtio::to_physical(fb_addr) as u64;
        let mut i: usize = 0;
        while i < FRAMEBUFFER_PAGES
            invariant
                i <= 300,
                base == to_physical_spec(fb_addr),
                base + 300 * 4096 <= u64::MAX,
                self.req_attach.hdr.type_ == VIRTIO_GPU_CMD_RESOURCE_ATTACH_BACKING,
                self.req_attach.resource_id == 1,
                self.req_attach.nr_entries == 300,
                forall|k: int|
                    0 <= k < i ==> (#[trigger] self.req_attach.entries[k]).addr == base + k * 4096
                        && self.req_attach.entries[k].len == 4096
                        && self.req_attach.entries[k].padding == 0,
            decreases 300 - i,
        {
            self.req_attach.entries[i] = VirtioGpuMemEntry {
                addr: base + (i * 4096) as u64,
                len: 4096,
                padding: 0,
            };
            i = i + 1;
        }
        self.resp.type_ = 0;
    }

    /// Fills the scanout command: scanout 0 shows resource 1 over the full
    /// screen; and clears the response type.
    pub fn prepare_scanout(&mut self)
        ensures
            final(self).req_scanout.hdr.type_ == VIRTIO_GPU_CMD_SET_SCANOUT,
            final(self).req_scanout.scanout_id == 0,
            final(self).req_scanout.resource_id == 1,
            final(self).req_scanout.r == (VirtioGpuRect { x: 0, y: 0, width: 640, height: 480 }),
            final(self).resp.type_ == 0,
    {
        self.req_scanout.hdr.type_ = VIRTIO_GPU_CMD_SET_SCANOUT;
        self.req_scanout.scanout_id = 0;
        self.req_scanout.resource_id = 1;
        self.req_scanout.r = full_screen();
        self.resp.type_ = 0;
    }

    /// Fills the transfer and flush commands that put the whole framebuffer
    /// of resource 1 on the screen.
    pub fn prepare_flush(&mut self)
        ensures
            final(self).req_transfer.hdr.type_ == VIRTIO_GPU_CMD_TRANSFER_TO_HOST_2D,
            final(self).req_transfer.resource_id == 1,
            final(self).req_transfer.offset == 0,
            final(self).req_transfer.r == (VirtioGpuRect { x: 0, y: 0, width: 640, height: 480 }),
            final(self).req_flush.hdr.type_ == VIRTIO_GPU_CMD_RESOURCE_FLUSH,
            final(self).req_flush.resource_id == 1,
            final(self).req_flush.r == (VirtioGpuRect { x: 0, y: 0, width: 640, height: 480 }),
    {
        self.req_transfer.hdr.type_ = VIRTIO_GPU_CMD_TRANSFER_TO_HOST_2D;
        self.req_transfer.resource_id = 1;
        self.req_transfer.offset = 0;
        self.req_transfer.r = full_screen();
        self.req_flush.hdr.type_ = VIRTIO_GPU_CMD_RESOURCE_FLUSH;
        self.req_flush.resource_id = 1;
        self.req_flush.r = full_screen();
    }
}

/// The create command is filled in and the response cleared.
pub open spec fn create_ready(c: GpuCommandChannel) -> bool {
    &&& c.req_create.hdr.type_ == VIRTIO_GPU_CMD_RESOURCE_CREATE_2D
    &&& c.req_create.resource_id == 1
    &&& c.req_create.format == 1
    &&& c.req_create.width == 640
    &&& c.req_create.height == 480
    &&& c.resp.type_ == 0
}

/// The attach command lists the 300 pages of the framebuffer at `fb_addr`
/// and the response is cleared.
pub open spec fn attach_ready(c: GpuCommandChannel, fb_addr: usize) -> bool {
    &&& c.req_attach.hdr.type_ == VIRTIO_GPU_CMD_RESOURCE_ATTACH_BACKING
    &&& c.req_attach.resource_id == 1
    &&& c.req_attach.nr_entries == 300
    &&& forall|i: int|
        0 <= i < 300 ==> (#[trigger] c.req_attach.entries[i]).addr == to_physical_spec(fb_addr) + i
            * 4096 && c.req_attach.entries[i].len == 4096 && c.req_attach.entries[i].padding == 0
    &&& c.resp.type_ == 0
}

/// The scanout command is filled in and the response cleared.
pub open spec fn scanout_ready(c: GpuCommandChannel) -> bool {
    &&& c.req_scanout.hdr.type_ == VIRTIO_GPU_CMD_SET_SCANOUT
    &&& c.req_scanout.scanout_id == 0
    &&& c.req_scanout.resource_id == 1
    &&& c.req_scanout.r == (VirtioGpuRect { x: 0, y: 0, width: 640, height: 480 })
    &&& c.resp.type_ == 0
}

/// Where setting up the display stands once the device is up.
#[derive(Clone, Copy, PartialEq, Eq, Debug, Structural)]
pub enum GpuInitStage {
    /// Nothing sent yet.
    Idle,
    /// The create command is out.
    Creating,
    /// The attach command is out.
    Attaching,
    /// The scanout command is out.
    SettingScanout,
    /// The display is set up.
    Active,
    /// The device answered `response` to `command`.
    Failed { command: u32, response: u32 },
}

/// What the caller does next to set up the display.
#[derive(Clone, Copy, PartialEq, Eq, Debug, Structural)]
pub enum GpuInitAction {
    /// Send the command of type `command` from the channel (see
    /// `post_command`), wait for the device, then step again.
    Send { command: u32 },
    /// Paint the test pattern and refresh the screen: the display is up.
    PaintPattern,
    /// Nothing is left to do.
    Finished,
    /// The device refused `command` with `response`.
    Stopped { command: u32, response: u32 },
}

/// Setting up the display over the command channel: create a 640x480
/// resource, attach the framebuffer at `fb_addr` to it, show it on scanout
/// 0; each command must be answered OK.
pub struct GpuInit {
    pub stage: GpuInitStage,
    pub fb_addr: usize,
}

impl GpuInit {
    /// The framebuffer's pages and their physical alias fit the address
    /// space.
    pub open spec fn wf(&self) -> bool {
        self.fb_addr + 0x4000_0000 + 300 * 4096 <= usize::MAX
    }

    /// A set-up that has not started.
    pub fn new(fb_addr: usize) -> (r: Self)
        requires
            fb_addr + 0x4000_0000 + 300 * 4096 <= usize::MAX,
        ensures
            r.wf(),
            r.stage == GpuInitStage::Idle,
            r.fb_addr == fb_addr,
    {
        GpuInit { stage: GpuInitStage::Idle, fb_addr }
    }

    /// One step, reading the device's answer to the last command from
    /// `chan`: the commands go out in the order create, attach, scanout,
    /// each prepared in `chan`; an answer other than OK stops the set-up.
    pub fn step(&mut self, chan: &mut GpuCommandChannel) -> (r: GpuInitAction)
        requires
            old(self).wf(),
        ensures
            final(self).wf(),
            final(self).fb_addr == old(self).fb_addr,
            match old(self).stage {
                GpuInitStage::Idle => {
                    &&& final(self).stage == GpuInitStage::Creating
                    &&& create_ready(*final(chan))
                    &&& r == (GpuInitAction::Send { command: VIRTIO_GPU_CMD_RESOURCE_CREATE_2D })
                },
                GpuInitStage::Creating => if old(chan).resp.type_ == VIRTIO_GPU_RESP_OK_NODATA {
                    &&& final(self).stage == GpuInitStage::Attaching
                    &&& attach_ready(*final(chan), old(self).fb_addr)
                    &&& r == (GpuInitAction::Send { command: VIRTIO_GPU_CMD_RESOURCE_ATTACH_BACKING })
                } else {
                    let failed = GpuInitStage::Failed {
                        command: VIRTIO_GPU_CMD_RESOURCE_CREATE_2D,
                        response: old(chan).resp.type_,
                    };
                    &&& final(self).stage == failed
                    &&& *final(chan) == *old(chan)
                    &&& r == (GpuInitAction::Stopped {
                        command: VIRTIO_GPU_CMD_RESOURCE_CREATE_2D,
                        response: old(chan).resp.type_,
                    })
                },
                GpuInitStage::Attaching => if old(chan).resp.type_ == VIRTIO_GPU_RESP_OK_NODATA {
                    &&& final(self).stage == GpuInitStage::SettingScanout
                    &&& scanout_ready(*final(chan))
                    &&& r == (GpuInitAction::Send { command: VIRTIO_GPU_CMD_SET_SCANOUT })
                } else {
                    let failed = GpuInitStage::Failed {
                        command: VIRTIO_GPU_CMD_RESOURCE_ATTACH_BACKING,
                        response: old(chan).resp.type_,
                    };
                    &&& final(self).stage == failed
                    &&& *final(chan) == *old(chan)
                    &&& r == (GpuInitAction::Stopped {
                        command: VIRTIO_GPU_CMD_RESOURCE_ATTACH_BACKING,
                        response: old(chan).resp.type_,
                    })
                },
                GpuInitStage::SettingScanout => if old(chan).resp.type_ == VIRTIO_GPU_RESP_OK_NODATA {
                    &&& final(self).stage == GpuInitStage::Active
                    &&& *final(chan) == *old(chan)
                    &&& r == GpuInitAction::PaintPattern
                } else {
                    let failed = GpuInitStage::Failed {
                        command: VIRTIO_GPU_CMD_SET_SCANOUT,
                        response: old(chan).resp.type_,
                    };
                    &&& final(self).stage == failed
                    &&& *final(chan) == *old(chan)
                    &&& r == (GpuInitAction::Stopped {
                        command: VIRTIO_GPU_CMD_SET_SCANOUT,
                        response: old(chan).resp.type_,
                    })
                },
                GpuInitStage::Active => {
                    &&& final(self).stage == old(self).stage
                    &&& *final(chan) == *old(chan)
                    &&& r == GpuInitAction::Finished
                },
                GpuInitStage::Failed { command, response } => {
                    &&& final(self).stage == old(self).stage
                    &&& *final(chan) == *old(chan)
                    &&& r == (GpuInitAction::Stopped { command, response })
                },
            },
    {
        match self.stage {
            GpuInitStage::Idle => {
                chan.prepare_create_2d();
                self.stage = GpuInitStage::Creating;
                GpuInitAction::Send { command: VIRTIO_GPU_CMD_RESOURCE_CREATE_2D }
            },
            GpuInitStage::Creating => {
                let response = chan.resp.type_;
                if response != VIRTIO_GPU_RESP_OK_NODATA {
                    self.stage = GpuInitStage::Failed { command: VIRTIO_GPU_CMD_RESOURCE_CREATE_2D, response };
                    return GpuInitAction::Stopped { command: VIRTIO_GPU_CMD_RESOURCE_CREATE_2D, response };
                }
                chan.prepare_attach_backing(self.fb_addr);
                self.stage = GpuInitStage::Attaching;
                GpuInitAction::Send { command: VIRTIO_GPU_CMD_RESOURCE_ATTACH_BACKING }
            },
            GpuInitStage::Attaching => {
                let response = chan.resp.type_;
                if response != VIRTIO_GPU_RESP_OK_NODATA {
                    self.stage = GpuInitStage::Failed {
                        command: VIRTIO_GPU_CMD_RESOURCE_ATTACH_BACKING,
                        response,
                    };
                    return GpuInitAction::Stopped { command: VIRTIO_GPU_CMD_RESOURCE_ATTACH_BACKING, response };
                }
                chan.prepare_scanout();
                self.stage = GpuInitStage::SettingScanout;
                GpuInitAction::Send { command: VIRTIO_GPU_CMD_SET_SCANOUT }
            },
            GpuInitStage::SettingScanout => {
                let response = chan.resp.type_;
                if response != VIRTIO_GPU_RESP_OK_NODATA {
                    self.stage = GpuInitStage::Failed { command: VIRTIO_GPU_CMD_SET_SCANOUT, response };
                    return GpuInitAction::Stopped { command: VIRTIO_GPU_CMD_SET_SCANOUT, response };
                }
                self.stage = GpuInitStage::Active;
                GpuInitAction::PaintPattern
            },
            GpuInitStage::Active => GpuInitAction::Finished,
            GpuInitStage::Failed { command, response } => GpuInitAction::Stopped { command, response },
        }
    }
}

/// The 8x8 glyphs of the printable ASCII characters 32 to 126, eight row
/// bytes each, the leftmost pixel in the high bit.
pub open spec fn font_data() -> Seq<u8> {
    seq![
        0u8, 0u8, 0u8, 0u8, 0u8, 0u8, 0u8, 0u8, 24u8, 24u8, 24u8, 24u8, 0u8, 0u8, 24u8, 0u8,
        54u8, 54u8, 0u8, 0u8, 0u8, 0u8, 0u8, 0u8, 54u8, 54u8, 127u8, 54u8, 127u8, 54u8, 54u8, 0u8,
        24u8, 62u8, 96u8, 60u8, 6u8, 124u8, 24u8, 0u8, 0u8, 102u8, 102u8, 12u8, 24u8, 51u8, 51u8, 0u8,
        28u8, 54u8, 28u8, 58u8, 102u8, 63u8, 0u8, 0u8, 24u8, 24u8, 0u8, 0u8, 0u8, 0u8, 0u8, 0u8,
        12u8, 24u8, 48u8, 48u8, 48u8, 24u8, 12u8, 0u8, 48u8, 24u8, 12u8, 12u8, 12u8, 24u8, 48u8, 0u8,
        0u8, 102u8, 60u8, 255u8, 60u8, 102u8, 0u8, 0u8, 0u8, 24u8, 24u8, 126u8, 24u8, 24u8, 0u8, 0u8,
        0u8, 0u8, 0u8, 0u8, 0u8, 24u8, 24u8, 48u8, 0u8, 0u8, 0u8, 126u8, 0u8, 0u8, 0u8, 0u8,
        0u8, 0u8, 0u8, 0u8, 0u8, 24u8, 24u8, 0u8, 2u8, 4u8, 8u8, 24u8, 48u8, 64u8, 128u8, 0u8,
        60u8, 102u8, 110u8, 118u8, 102u8, 102u8, 60u8, 0u8, 24u8, 56u8, 24u8, 24u8, 24u8, 24u8, 126u8, 0u8,
        60u8, 102u8, 6u8, 30u8, 48u8, 96u8, 127u8, 0u8, 60u8, 102u8, 6u8, 28u8, 6u8, 102u8, 60u8, 0u8,
        6u8, 14u8, 30u8, 54u8, 127u8, 6u8, 6u8, 0u8, 127u8, 96u8, 124u8, 6u8, 6u8, 102u8, 60u8, 0u8,
        60u8, 96u8, 124u8, 102u8, 102u8, 102u8, 60u8, 0u8, 127u8, 6u8, 12u8, 24u8, 48u8, 48u8, 48u8, 0u8,
        60u8, 102u8, 102u8, 60u8, 102u8, 102u8, 60u8, 0u8, 60u8, 102u8, 102u8, 62u8, 6u8, 12u8, 56u8, 0u8,
        0u8, 24u8, 24u8, 0u8, 24u8, 24u8, 0u8, 0u8, 0u8, 24u8, 24u8, 0u8, 24u8, 24u8, 48u8, 0u8,
        12u8, 24u8, 48u8, 96u8, 48u8, 24u8, 12u8, 0u8, 0u8, 0u8, 126u8, 0u8, 126u8, 0u8, 0u8, 0u8,
        48u8, 24u8, 12u8, 6u8, 12u8, 24u8, 48u8, 0u8, 60u8, 102u8, 6u8, 12u8, 24u8, 0u8, 24u8, 0u8,
        62u8, 102u8, 111u8, 107u8, 111u8, 96u8, 62u8, 0u8, 24u8, 60u8, 102u8, 102u8, 126u8, 102u8, 102u8, 0u8,
        124u8, 102u8, 102u8, 124u8, 102u8, 102u8, 124u8, 0u8, 60u8, 102u8, 96u8, 96u8, 96u8, 102u8, 60u8, 0u8,
        120u8, 108u8, 102u8, 102u8, 102u8, 108u8, 120u8, 0u8, 127u8, 96u8, 96u8, 124u8, 96u8, 96u8, 127u8, 0u8,
        127u8, 96u8, 96u8, 124u8, 96u8, 96u8, 96u8, 0u8, 60u8, 102u8, 96u8, 110u8, 102u8, 102u8, 62u8, 0u8,
        102u8, 102u8, 102u8, 126u8, 102u8, 102u8, 102u8, 0u8, 62u8, 8u8, 8u8, 8u8, 8u8, 8u8, 62u8, 0u8,
        31u8, 4u8, 4u8, 4u8, 4u8, 36u8, 28u8, 0u8, 102u8, 108u8, 120u8, 112u8, 120u8, 108u8, 102u8, 0u8,
        96u8, 96u8, 96u8, 96u8, 96u8, 96u8, 127u8, 0u8, 99u8, 119u8, 127u8, 107u8, 99u8, 99u8, 99u8, 0u8,
        102u8, 118u8, 126u8, 118u8, 102u8, 102u8, 102u8, 0u8, 60u8, 102u8, 102u8, 102u8, 102u8, 102u8, 60u8, 0u8,
        124u8, 102u8, 102u8, 124u8, 96u8, 96u8, 96u8, 0u8, 60u8, 102u8, 102u8, 102u8, 106u8, 108u8, 62u8, 0u8,
        124u8, 102u8, 102u8, 124u8, 108u8, 102u8, 102u8, 0u8, 60u8, 102u8, 48u8, 28u8, 6u8, 102u8, 60u8, 0u8,
        126u8, 24u8, 24u8, 24u8, 24u8, 24u8, 24u8, 0u8, 102u8, 102u8, 102u8, 102u8, 102u8, 102u8, 60u8, 0u8,
        102u8, 102u8, 102u8, 102u8, 60u8, 36u8, 24u8, 0u8, 99u8, 99u8, 99u8, 107u8, 127u8, 119u8, 99u8, 0u8,
        102u8, 102u8, 60u8, 24u8, 60u8, 102u8, 102u8, 0u8, 102u8, 102u8, 102u8, 60u8, 24u8, 24u8, 24u8, 0u8,
        127u8, 6u8, 12u8, 24u8, 48u8, 96u8, 127u8, 0u8, 30u8, 24u8, 24u8, 24u8, 24u8, 24u8, 30u8, 0u8,
        64u8, 48u8, 24u8, 12u8, 6u8, 3u8, 1u8, 0u8, 60u8, 12u8, 12u8, 12u8, 12u8, 12u8, 60u8, 0u8,
        8u8, 28u8, 54u8, 99u8, 0u8, 0u8, 0u8, 0u8, 0u8, 0u8, 0u8, 0u8, 0u8, 0u8, 255u8, 0u8,
        24u8, 12u8, 6u8, 0u8, 0u8, 0u8, 0u8, 0u8, 0u8, 0u8, 60u8, 6u8, 62u8, 102u8, 59u8, 0u8,
        96u8, 96u8, 124u8, 102u8, 102u8, 102u8, 124u8, 0u8, 0u8, 0u8, 60u8, 96u8, 96u8, 102u8, 60u8, 0u8,
        6u8, 6u8, 62u8, 102u8, 102u8, 102u8, 61u8, 0u8, 0u8, 0u8, 60u8, 102u8, 126u8, 96u8, 60u8, 0u8,
        14u8, 24u8, 62u8, 24u8, 24u8, 24u8, 24u8, 0u8, 0u8, 0u8, 61u8, 102u8, 102u8, 62u8, 6u8, 60u8,
        96u8, 96u8, 124u8, 102u8, 102u8, 102u8, 102u8, 0u8, 24u8, 0u8, 56u8, 24u8, 24u8, 24u8, 60u8, 0u8,
        6u8, 0u8, 14u8, 6u8, 6u8, 6u8, 6u8, 60u8, 96u8, 96u8, 102u8, 108u8, 120u8, 108u8, 102u8, 0u8,
        56u8, 24u8, 24u8, 24u8, 24u8, 24u8, 60u8, 0u8, 0u8, 0u8, 124u8, 107u8, 107u8, 107u8, 107u8, 0u8,
        0u8, 0u8, 124u8, 102u8, 102u8, 102u8, 102u8, 0u8, 0u8, 0u8, 60u8, 102u8, 102u8, 102u8, 60u8, 0u8,
        0u8, 0u8, 124u8, 102u8, 102u8, 124u8, 96u8, 96u8, 0u8, 0u8, 62u8, 102u8, 102u8, 62u8, 6u8, 6u8,
        0u8, 0u8, 124u8, 102u8, 96u8, 96u8, 96u8, 0u8, 0u8, 0u8, 62u8, 96u8, 60u8, 6u8, 124u8, 0u8,
        24u8, 24u8, 126u8, 24u8, 24u8, 24u8, 14u8, 0u8, 0u8, 0u8, 102u8, 102u8, 102u8, 102u8, 59u8, 0u8,
        0u8, 0u8, 102u8, 102u8, 60u8, 36u8, 24u8, 0u8, 0u8, 0u8, 99u8, 107u8, 127u8, 62u8, 54u8, 0u8,
        0u8, 0u8, 102u8, 60u8, 24u8, 60u8, 102u8, 0u8, 0u8, 0u8, 102u8, 102u8, 62u8, 6u8, 12u8, 56u8,
        0u8, 0u8, 126u8, 12u8, 24u8, 48u8, 126u8, 0u8, 12u8, 24u8, 24u8, 48u8, 24u8, 24u8, 12u8, 0u8,
        24u8, 24u8, 24u8, 24u8, 24u8, 24u8, 24u8, 0u8, 48u8, 24u8, 24u8, 12u8, 24u8, 24u8, 48u8, 0u8,
        118u8, 89u8, 0u8, 0u8, 0u8, 0u8, 0u8, 0u8,
    ]
}

/// The column of pixel index `p`.
pub open spec fn px_of(p: int) -> int {
    p % 640
}

/// The row of pixel index `p`.
pub open spec fn py_of(p: int) -> int {
    p / 640
}

/// Pixel `p` lies in the `w` by `h` rectangle at (`x`, `y`).
pub open spec fn in_rect(x: usize, y: usize, w: usize, h: usize, p: int) -> bool {
    &&& x <= px_of(p) < x + w
    &&& y <= py_of(p) < y + h
}

/// Pixel `p` is set by the glyph of `c` drawn at (`x`, `y`): `c` is
/// printable ASCII, `p` lies in the 8x8 cell and the glyph's bit for it is
/// set.
pub open spec fn glyph_pixel(x: usize, y: usize, c: char, p: int) -> bool {
    let code = c as int;
    let row = py_of(p) - y;
    let col = px_of(p) - x;
    &&& 32 <= code <= 126
    &&& 0 <= row < 8
    &&& 0 <= col < 8
    &&& font_data()[(code - 32) * 8 + row] & (0x80u8 >> (col as u8)) != 0
}

/// The colour of pixel (`px`, `py`) in the start-up test pattern: red grows
/// to the right, green downwards, blue along the diagonal, fully opaque.
pub open spec fn pattern_color(px: int, py: int) -> u32 {
    let r = (px * 255 / 640) as u32;
    let g = (py * 255 / 480) as u32;
    let b = ((px + py) * 255 / 1120) as u32;
    0xFF000000u32 | (r << 16u32) | (g << 8u32) | b
}

/// The 640x480 screen, one 32-bit B8G8R8A8 pixel per entry, row by row.
pub struct Framebuffer {
    pub pixels: Vec<u32>,
}

/// Row and column arithmetic of pixel indices.
pub proof fn lemma_pixel_index(px: int, py: int)
    requires
        0 <= px < 640,
        0 <= py < 480,
    ensures
        px_of(py * 640 + px) == px,
        py_of(py * 640 + px) == py,
        0 <= py * 640 + px < 307200,
{
    assert(0 <= py * 640 + px < 307200) by (nonlinear_arith)
        requires
            0 <= px < 640,
            0 <= py < 480,
    ;
    vstd::arithmetic::div_mod::lemma_fundamental_div_mod_converse(py * 640 + px, 640, py, px);
}

impl Framebuffer {
    /// The screen has 640 * 480 pixels.
    pub open spec fn wf(&self) -> bool {
        self.pixels@.len() == SCREEN_PIXELS
    }

    /// A black screen.
    pub fn new() -> (r: Self)
        ensures
            r.wf(),
            forall|p: int| 0 <= p < 307200 ==> #[trigger] r.pixels@[p] == 0,
    {
        Framebuffer { pixels: vec![0u32; SCREEN_PIXELS] }
    }

}

/// `pixels` with the part of the `w` by `h` rectangle at (`x`, `y`) that
/// lies on the screen filled with `color`.
pub open spec fn rect_pixels(pixels: Seq<u32>, x: usize, y: usize, w: usize, h: usize, color: u32) -> Seq<u32> {
    Seq::new(
        pixels.len(),
        |p: int|
            if in_rect(x, y, w, h, p) {
                color
            } else {
                pixels[p]
            },
    )
}

/// Fills the part of the `w` by `h` rectangle at (`x`, `y`) that lies on
/// the screen with `color`.
pub fn draw_rect(fb: &mut Framebuffer, x: usize, y: usize, w: usize, h: usize, color: u32)
    requires
        old(fb).wf(),
    ensures
        final(fb).wf(),
        final(fb).pixels@ == rect_pixels(old(fb).pixels@, x, y, w, h, color),
        forall|p: int|
            0 <= p < 307200 ==> #[trigger] final(fb).pixels@[p] == (if in_rect(x, y, w, h, p) {
                color
            } else {
                old(fb).pixels@[p]
            }),
{
    let rows: usize = if y >= SCREEN_HEIGHT {
        0
    } else if h < SCREEN_HEIGHT - y {
        h
    } else {
        SCREEN_HEIGHT - y
    };
    let cols: usize = if x >= SCREEN_WIDTH {
        0
    } else if w < SCREEN_WIDTH - x {
        w
    } else {
        SCREEN_WIDTH - x
    };
    let mut dy: usize = 0;
    while dy < rows
        invariant
            fb.wf(),
            dy <= rows,
            rows == 0 || y + rows <= 480,
            rows <= h,
            y >= 480 ==> rows == 0,
            y < 480 && h >= 480 - y ==> rows == 480 - y,
            y < 480 && h < 480 - y ==> rows == h,
            cols <= w,
            cols == 0 || x + cols <= 640,
            x >= 640 ==> cols == 0,
            x < 640 && w >= 640 - x ==> cols == 640 - x,
            x < 640 && w < 640 - x ==> cols == w,
            forall|p: int|
                0 <= p < 307200 ==> #[trigger] fb.pixels@[p] == (if in_rect(x, y, w, dy as usize, p) {
                    color
                } else {
                    old(fb).pixels@[p]
                }),
        decreases rows - dy,
    {
        let py = y + dy;
        let mut dx: usize = 0;
        while dx < cols
            invariant
                fb.wf(),
                dy < rows,
                py == y + dy,
                py < 480,
                dx <= cols,
                cols <= w,
                cols == 0 || x + cols <= 640,
                x >= 640 ==> cols == 0,
                x < 640 && w >= 640 - x ==> cols == 640 - x,
                x < 640 && w < 640 - x ==> cols == w,
                forall|p: int|
                    0 <= p < 307200 ==> #[trigger] fb.pixels@[p] == (if in_rect(
                        x,
                        y,
                        w,
                        dy as usize,
                        p,
                    ) || (py_of(p) == py && x <= px_of(p) < x + dx) {
                        color
                    } else {
                        old(fb).pixels@[p]
                    }),
            decreases cols - dx,
        {
            let px = x + dx;
            proof {
                lemma_pixel_index(px as int, py as int);
            }
            fb.pixels.set(py * SCREEN_WIDTH + px, color);
            dx = dx + 1;
        }
        dy = dy + 1;
    }
    assert(fb.pixels@ =~= rect_pixels(old(fb).pixels@, x, y, w, h, color));
}

/// Draws the glyph of `c` with its top-left corner at (`x`, `y`): the
/// glyph's set pixels that lie on the screen get `color`; nothing is drawn
/// for characters outside printable ASCII.
pub fn draw_char(fb: &mut Framebuffer, x: usize, y: usize, c: char, color: u32)
    requires
        old(fb).wf(),
    ensures
        final(fb).wf(),
        forall|p: int|
            0 <= p < 307200 ==> #[trigger] final(fb).pixels@[p] == (if glyph_pixel(x, y, c, p) {
                color
            } else {
                old(fb).pixels@[p]
            }),
{
    let ascii = c as u32;
    if ascii < 32 || ascii > 126 {
        return;
    }
    let font = font_table();
    let base = ((ascii - 32) * 8) as usize;
    let rows: usize = if y >= SCREEN_HEIGHT {
        0
    } else if 8 < SCREEN_HEIGHT - y {
        8
    } else {
        SCREEN_HEIGHT - y
    };
    let cols: usize = if x >= SCREEN_WIDTH {
        0
    } else if 8 < SCREEN_WIDTH - x {
        8
    } else {
        SCREEN_WIDTH - x
    };
    let mut row: usize = 0;
    while row < rows
        invariant
            fb.wf(),
            font@ == font_data(),
            32 <= ascii <= 126,
            ascii == c as u32,
            base == (ascii - 32) * 8,
            row <= rows,
            y >= 480 ==> rows == 0,
            y < 480 ==> rows == (if 8 < 480 - y { 8 } else { 480 - y }),
            x >= 640 ==> cols == 0,
            x < 640 ==> cols == (if 8 < 640 - x { 8 } else { 640 - x }),
            forall|p: int|
                0 <= p < 307200 ==> #[trigger] fb.pixels@[p] == (if glyph_pixel(x, y, c, p) && py_of(p)
                    < y + row {
                    color
                } else {
                    old(fb).pixels@[p]
                }),
        decreases rows - row,
    {
        let py = y + row;
        let row_data = font[base + row];
        let mut col: usize = 0;
        while col < cols
            invariant
                fb.wf(),
                font@ == font_data(),
                32 <= ascii <= 126,
                ascii == c as u32,
                base == (ascii - 32) * 8,
                row < rows,
                rows <= 8,
                y < 480,
                py == y + row,
                py < 480,
                row_data == font_data()[base + row],
                col <= cols,
                x >= 640 ==> cols == 0,
                x < 640 ==> cols == (if 8 < 640 - x { 8 } else { 640 - x }),
                forall|p: int|
                    0 <= p < 307200 ==> #[trigger] fb.pixels@[p] == (if glyph_pixel(x, y, c, p) && (
                    py_of(p) < py || (py_of(p) == py && px_of(p) < x + col)) {
                        color
                    } else {
                        old(fb).pixels@[p]
                    }),
            decreases cols - col,
        {
            let px = x + col;
            proof {
                lemma_pixel_index(px as int, py as int);
            }
            if (row_data & (0x80u8 >> (col as u8))) != 0 {
                fb.pixels.set(py * SCREEN_WIDTH + px, color);
            }
            col = col + 1;
        }
        row = row + 1;
    }
}

/// Fills the screen with the test pattern of `pattern_color`.
pub fn draw_pattern(fb: &mut Framebuffer)
    requires
        old(fb).wf(),
    ensures
        final(fb).wf(),
        forall|p: int|
            0 <= p < 307200 ==> #[trigger] final(fb).pixels@[p] == pattern_color(px_of(p), py_of(p)),
{
    let mut y: usize = 0;
    while y < SCREEN_HEIGHT
        invariant
            fb.wf(),
            y <= 480,
            forall|p: int|
                0 <= p < y * 640 ==> #[trigger] fb.pixels@[p] == pattern_color(px_of(p), py_of(p)),
        decreases 480 - y,
    {
        let mut x: usize = 0;
        while x < SCREEN_WIDTH
            invariant
                fb.wf(),
                y < 480,
                x <= 640,
                forall|p: int|
                    0 <= p < y * 640 + x ==> #[trigger] fb.pixels@[p] == pattern_color(
                        px_of(p),
                        py_of(p),
                    ),
            decreases 640 - x,
        {
            proof {
                lemma_pixel_index(x as int, y as int);
            }
            let r = (x * 255 / 640) as u32;
            let g = (y * 255 / 480) as u32;
            let b = ((x + y) * 255 / (640 + 480)) as u32;
            fb.pixels.set(y * SCREEN_WIDTH + x, 0xFF000000u32 | (r << 16) | (g << 8) | b);
            x = x + 1;
        }
        y = y + 1;
    }
}


/// The glyph table as bytes, see `font_data`.
fn font_table() -> (r: [u8; 760])
    ensures
        r@ == font_data(),
{
    let t: [u8; 760] = [
        0x00, 0x00, 0x00, 0x00, 0x00, 0x00, 0x00, 0x00, 0x18, 0x18, 0x18, 0x18, 0x00, 0x00, 0x18, 0x00,
        0x36, 0x36, 0x00, 0x00, 0x00, 0x00, 0x00, 0x00, 0x36, 0x36, 0x7f, 0x36, 0x7f, 0x36, 0x36, 0x00,
        0x18, 0x3e, 0x60, 0x3c, 0x06, 0x7c, 0x18, 0x00, 0x00, 0x66, 0x66, 0x0c, 0x18, 0x33, 0x33, 0x00,
        0x1c, 0x36, 0x1c, 0x3a, 0x66, 0x3f, 0x00, 0x00, 0x18, 0x18, 0x00, 0x00, 0x00, 0x00, 0x00, 0x00,
        0x0c, 0x18, 0x30, 0x30, 0x30, 0x18, 0x0c, 0x00, 0x30, 0x18, 0x0c, 0x0c, 0x0c, 0x18, 0x30, 0x00,
        0x00, 0x66, 0x3c, 0xff, 0x3c, 0x66, 0x00, 0x00, 0x00, 0x18, 0x18, 0x7e, 0x18, 0x18, 0x00, 0x00,
        0x00, 0x00, 0x00, 0x00, 0x00, 0x18, 0x18, 0x30, 0x00, 0x00, 0x00, 0x7e, 0x00, 0x00, 0x00, 0x00,
        0x00, 0x00, 0x00, 0x00, 0x00, 0x18, 0x18, 0x00, 0x02, 0x04, 0x08, 0x18, 0x30, 0x40, 0x80, 0x00,
        0x3c, 0x66, 0x6e, 0x76, 0x66, 0x66, 0x3c, 0x00, 0x18, 0x38, 0x18, 0x18, 0x18, 0x18, 0x7e, 0x00,
        0x3c, 0x66, 0x06, 0x1e, 0x30, 0x60, 0x7f, 0x00, 0x3c, 0x66, 0x06, 0x1c, 0x06, 0x66, 0x3c, 0x00,
        0x06, 0x0e, 0x1e, 0x36, 0x7f, 0x06, 0x06, 0x00, 0x7f, 0x60, 0x7c, 0x06, 0x06, 0x66, 0x3c, 0x00,
        0x3c, 0x60, 0x7c, 0x66, 0x66, 0x66, 0x3c, 0x00, 0x7f, 0x06, 0x0c, 0x18, 0x30, 0x30, 0x30, 0x00,
        0x3c, 0x66, 0x66, 0x3c, 0x66, 0x66, 0x3c, 0x00, 0x3c, 0x66, 0x66, 0x3e, 0x06, 0x0c, 0x38, 0x00,
        0x00, 0x18, 0x18, 0x00, 0x18, 0x18, 0x00, 0x00, 0x00, 0x18, 0x18, 0x00, 0x18, 0x18, 0x30, 0x00,
        0x0c, 0x18, 0x30, 0x60, 0x30, 0x18, 0x0c, 0x00, 0x00, 0x00, 0x7e, 0x00, 0x7e, 0x00, 0x00, 0x00,
        0x30, 0x18, 0x0c, 0x06, 0x0c, 0x18, 0x30, 0x00, 0x3c, 0x66, 0x06, 0x0c, 0x18, 0x00, 0x18, 0x00,
        0x3e, 0x66, 0x6f, 0x6b, 0x6f, 0x60, 0x3e, 0x00, 0x18, 0x3c, 0x66, 0x66, 0x7e, 0x66, 0x66, 0x00,
        0x7c, 0x66, 0x66, 0x7c, 0x66, 0x66, 0x7c, 0x00, 0x3c, 0x66, 0x60, 0x60, 0x60, 0x66, 0x3c, 0x00,
        0x78, 0x6c, 0x66, 0x66, 0x66, 0x6c, 0x78, 0x00, 0x7f, 0x60, 0x60, 0x7c, 0x60, 0x60, 0x7f, 0x00,
        0x7f, 0x60, 0x60, 0x7c, 0x60, 0x60, 0x60, 0x00, 0x3c, 0x66, 0x60, 0x6e, 0x66, 0x66, 0x3e, 0x00,
        0x66, 0x66, 0x66, 0x7e, 0x66, 0x66, 0x66, 0x00, 0x3e, 0x08, 0x08, 0x08, 0x08, 0x08, 0x3e, 0x00,
        0x1f, 0x04, 0x04, 0x04, 0x04, 0x24, 0x1c, 0x00, 0x66, 0x6c, 0x78, 0x70, 0x78, 0x6c, 0x66, 0x00,
        0x60, 0x60, 0x60, 0x60, 0x60, 0x60, 0x7f, 0x00, 0x63, 0x77, 0x7f, 0x6b, 0x63, 0x63, 0x63, 0x00,
        0x66, 0x76, 0x7e, 0x76, 0x66, 0x66, 0x66, 0x00, 0x3c, 0x66, 0x66, 0x66, 0x66, 0x66, 0x3c, 0x00,
        0x7c, 0x66, 0x66, 0x7c, 0x60, 0x60, 0x60, 0x00, 0x3c, 0x66, 0x66, 0x66, 0x6a, 0x6c, 0x3e, 0x00,
        0x7c, 0x66, 0x66, 0x7c, 0x6c, 0x66, 0x66, 0x00, 0x3c, 0x66, 0x30, 0x1c, 0x06, 0x66, 0x3c, 0x00,
        0x7e, 0x18, 0x18, 0x18, 0x18, 0x18, 0x18, 0x00, 0x66, 0x66, 0x66, 0x66, 0x66, 0x66, 0x3c, 0x00,
        0x66, 0x66, 0x66, 0x66, 0x3c, 0x24, 0x18, 0x00, 0x63, 0x63, 0x63, 0x6b, 0x7f, 0x77, 0x63, 0x00,
        0x66, 0x66, 0x3c, 0x18, 0x3c, 0x66, 0x66, 0x00, 0x66, 0x66, 0x66, 0x3c, 0x18, 0x18, 0x18, 0x00,
        0x7f, 0x06, 0x0c, 0x18, 0x30, 0x60, 0x7f, 0x00, 0x1e, 0x18, 0x18, 0x18, 0x18, 0x18, 0x1e, 0x00,
        0x40, 0x30, 0x18, 0x0c, 0x06, 0x03, 0x01, 0x00, 0x3c, 0x0c, 0x0c, 0x0c, 0x0c, 0x0c, 0x3c, 0x00,
        0x08, 0x1c, 0x36, 0x63, 0x00, 0x00, 0x00, 0x00, 0x00, 0x00, 0x00, 0x00, 0x00, 0x00, 0xff, 0x00,
        0x18, 0x0c, 0x06, 0x00, 0x00, 0x00, 0x00, 0x00, 0x00, 0x00, 0x3c, 0x06, 0x3e, 0x66, 0x3b, 0x00,
        0x60, 0x60, 0x7c, 0x66, 0x66, 0x66, 0x7c, 0x00, 0x00, 0x00, 0x3c, 0x60, 0x60, 0x66, 0x3c, 0x00,
        0x06, 0x06, 0x3e, 0x66, 0x66, 0x66, 0x3d, 0x00, 0x00, 0x00, 0x3c, 0x66, 0x7e, 0x60, 0x3c, 0x00,
        0x0e, 0x18, 0x3e, 0x18, 0x18, 0x18, 0x18, 0x00, 0x00, 0x00, 0x3d, 0x66, 0x66, 0x3e, 0x06, 0x3c,
        0x60, 0x60, 0x7c, 0x66, 0x66, 0x66, 0x66, 0x00, 0x18, 0x00, 0x38, 0x18, 0x18, 0x18, 0x3c, 0x00,
        0x06, 0x00, 0x0e, 0x06, 0x06, 0x06, 0x06, 0x3c, 0x60, 0x60, 0x66, 0x6c, 0x78, 0x6c, 0x66, 0x00,
        0x38, 0x18, 0x18, 0x18, 0x18, 0x18, 0x3c, 0x00, 0x00, 0x00, 0x7c, 0x6b, 0x6b, 0x6b, 0x6b, 0x00,
        0x00, 0x00, 0x7c, 0x66, 0x66, 0x66, 0x66, 0x00, 0x00, 0x00, 0x3c, 0x66, 0x66, 0x66, 0x3c, 0x00,
        0x00, 0x00, 0x7c, 0x66, 0x66, 0x7c, 0x60, 0x60, 0x00, 0x00, 0x3e, 0x66, 0x66, 0x3e, 0x06, 0x06,
        0x00, 0x00, 0x7c, 0x66, 0x60, 0x60, 0x60, 0x00, 0x00, 0x00, 0x3e, 0x60, 0x3c, 0x06, 0x7c, 0x00,
        0x18, 0x18, 0x7e, 0x18, 0x18, 0x18, 0x0e, 0x00, 0x00, 0x00, 0x66, 0x66, 0x66, 0x66, 0x3b, 0x00,
        0x00, 0x00, 0x66, 0x66, 0x3c, 0x24, 0x18, 0x00, 0x00, 0x00, 0x63, 0x6b, 0x7f, 0x3e, 0x36, 0x00,
        0x00, 0x00, 0x66, 0x3c, 0x18, 0x3c, 0x66, 0x00, 0x00, 0x00, 0x66, 0x66, 0x3e, 0x06, 0x0c, 0x38,
        0x00, 0x00, 0x7e, 0x0c, 0x18, 0x30, 0x7e, 0x00, 0x0c, 0x18, 0x18, 0x30, 0x18, 0x18, 0x0c, 0x00,
        0x18, 0x18, 0x18, 0x18, 0x18, 0x18, 0x18, 0x00, 0x30, 0x18, 0x18, 0x0c, 0x18, 0x18, 0x30, 0x00,
        0x76, 0x59, 0x00, 0x00, 0x00, 0x00, 0x00, 0x00,
    ];
    assert(t@ =~= font_data());
    t
}

/// `pixels` with the glyph of `c` drawn at (`x`, `y`) in `color`.
pub open spec fn with_glyph(pixels: Seq<u32>, x: usize, y: usize, c: char, color: u32) -> Seq<u32> {
    Seq::new(
        pixels.len(),
        |p: int|
            if glyph_pixel(x, y, c, p) {
                color
            } else {
                pixels[p]
            },
    )
}

/// `pixels` after drawing the characters `chars` from the cursor (`cx`,
/// `cy`), with lines starting at column `x`: a newline moves the cursor to
/// the start of the next line (8 pixels down); any other character is drawn
/// and moves the cursor 8 pixels right, wrapping to the next line at the
/// right edge; drawing stops once the cursor moves below the screen.
pub open spec fn text_pixels(pixels: Seq<u32>, x: usize, cx: int, cy: int, chars: Seq<char>, color: u32) -> Seq<
    u32,
>
    decreases chars.len(),
{
    if chars.len() == 0 {
        pixels
    } else {
        let c = chars[0];
        let rest = chars.drop_first();
        if c == '\n' {
            if cy + 8 >= 480 {
                pixels
            } else {
                text_pixels(pixels, x, x as int, cy + 8, rest, color)
            }
        } else {
            let drawn = with_glyph(pixels, cx as usize, cy as usize, c, color);
            if cx + 8 >= 640 {
                if cy + 8 >= 480 {
                    drawn
                } else {
                    text_pixels(drawn, x, x as int, cy + 8, rest, color)
                }
            } else {
                text_pixels(drawn, x, cx + 8, cy, rest, color)
            }
        }
    }
}

/// Draws the string `s` on `fb` from (`x`, `y`): see `text_pixels`.
pub fn draw_string(fb: &mut Framebuffer, x: usize, y: usize, s: &str, color: u32)
    requires
        old(fb).wf(),
        x + 8 <= usize::MAX,
        y + 8 <= usize::MAX,
    ensures
        final(fb).wf(),
        final(fb).pixels@ == text_pixels(old(fb).pixels@, x, x as int, y as int, s@, color),
{
    broadcast use vstd::string::group_string_axioms;

    let mut cx = x;
    let mut cy = y;
    let mut it = s.chars();
    let ghost all = s@;
    let ghost mut done: int = 0;
    loop
        invariant
            fb.wf(),
            all == s@,
            0 <= done <= all.len(),
            x + 8 <= usize::MAX,
            y + 8 <= usize::MAX,
            cx == x || cx < 640,
            cy == y || cy < 488,
            vstd::std_specs::iter::IteratorSpec::obeys_prophetic_iter_laws(&it),
            vstd::std_specs::iter::IteratorSpec::remaining(&it) == all.subrange(done, all.len() as int),
            text_pixels(old(fb).pixels@, x, x as int, y as int, all, color) == text_pixels(
                fb.pixels@,
                x,
                cx as int,
                cy as int,
                all.subrange(done, all.len() as int),
                color,
            ),
        decreases all.len() - done,
    {
        let ghost rest = all.subrange(done, all.len() as int);
        match it.next() {
            Some(c) => {
                assert(rest[0] == c);
                assert(rest.drop_first() =~= all.subrange(done + 1, all.len() as int));
                proof {
                    done = done + 1;
                }
                if c == '\n' {
                    cx = x;
                    cy = cy + 8;
                    if cy >= SCREEN_HEIGHT {
                        return;
                    }
                } else {
                    let ghost before = fb.pixels@;
                    draw_char(fb, cx, cy, c, color);
                    assert(fb.pixels@ =~= with_glyph(before, cx, cy, c, color));
                    cx = cx + 8;
                    if cx >= SCREEN_WIDTH {
                        cx = x;
                        cy = cy + 8;
                        if cy >= SCREEN_HEIGHT {
                            return;
                        }
                    }
                }
            },
            None => {
                assert(rest.len() == 0);
                return;
            },
        }
    }
}

/// `pixels` with the text that `bytes` encodes drawn from (`x`, `y`) as
/// `draw_string` draws it, or unchanged when the bytes are not UTF-8.
pub open spec fn utf8_text_pixels(pixels: Seq<u32>, x: usize, y: usize, bytes: Seq<u8>, color: u32) -> Seq<
    u32,
> {
    if valid_utf8(bytes) {
        text_pixels(pixels, x, x as int, y as int, decode_utf8(bytes), color)
    } else {
        pixels
    }
}

/// Draws the text that `bytes` encodes from (`x`, `y`) when the bytes are
/// UTF-8, and nothing otherwise.
pub fn draw_utf8(fb: &mut Framebuffer, x: usize, y: usize, bytes: &[u8], color: u32)
    requires
        old(fb).wf(),
        x + 8 <= usize::MAX,
        y + 8 <= usize::MAX,
    ensures
        final(fb).wf(),
        final(fb).pixels@ == utf8_text_pixels(old(fb).pixels@, x, y, bytes@, color),
{
    if let Some(s) = str_from_utf8(bytes) {
        proof {
            vstd::utf8::encode_utf8_decode_utf8(s@);
            vstd::utf8::encode_utf8_valid_utf8(s@);
        }
        draw_string(fb, x, y, s, color);
    }
}


/// Paints every pixel of the screen `color`.
pub fn fill_screen(fb: &mut Framebuffer, color: u32)
    requires
        old(fb).wf(),
    ensures
        final(fb).wf(),
        final(fb).pixels@ == Seq::new(307200, |p: int| color),
{
    let mut i: usize = 0;
    while i < SCREEN_PIXELS
        invariant
            fb.wf(),
            i <= SCREEN_PIXELS,
            forall|p: int| 0 <= p < i ==> #[trigger] fb.pixels@[p] == color,
        decreases SCREEN_PIXELS - i,
    {
        fb.pixels.set(i, color);
        i = i + 1;
    }
    assert(fb.pixels@ =~= Seq::new(307200, |p: int| color));
}

} // verus!
