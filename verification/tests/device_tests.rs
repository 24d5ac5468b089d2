use lib::drivers::gpu::{
    GpuCommandChannel, GpuInit, GpuInitAction, GpuInitStage, VIRTIO_GPU_CMD_RESOURCE_ATTACH_BACKING,
    VIRTIO_GPU_CMD_RESOURCE_CREATE_2D, VIRTIO_GPU_CMD_SET_SCANOUT, VIRTIO_GPU_RESP_OK_NODATA,
};
use lib::drivers::input::{drain_events, find_keyboard_device, probe_is_keyboard, InputProbe, VirtioInputEvent};
use lib::drivers::virtio::{
    find_device, to_physical, SetupAction, SetupError, SetupStage, VirtioSetup, VirtqueueLayout,
    VIRTIO_MAGIC, VIRTQ_DESC_F_NEXT, VIRTQ_DESC_F_WRITE,
};

fn probe(device_id: u32, name: &[u8], size: u8) -> InputProbe {
    let mut n = [0u8; 32];
    n[..name.len()].copy_from_slice(name);
    InputProbe { magic: VIRTIO_MAGIC, device_id, name_size: size, name: n }
}

fn empty() -> InputProbe {
    InputProbe { magic: 0, device_id: 0, name_size: 0, name: [0; 32] }
}

/// Steps the bring-up, answering each register read from `reads`.
fn run_setup(setup: &mut VirtioSetup, reads: &[(usize, u32)]) -> (Vec<(usize, u32)>, Vec<String>) {
    let mut writes = Vec::new();
    let mut log = Vec::new();
    let mut value = 0u32;
    for _ in 0..12 {
        match setup.step(value) {
            SetupAction::Access { writes: w, read } => {
                writes.extend(w);
                if let Some(off) = read {
                    value = reads.iter().find(|(o, _)| *o == off).map(|(_, v)| *v).unwrap_or(0);
                    log.push(format!("read {:#x}", off));
                }
            }
            SetupAction::OfferBuffers => log.push("offer".to_string()),
            SetupAction::Ready => {
                log.push("ready".to_string());
                break;
            }
            SetupAction::Failed { error } => {
                log.push(format!("failed {:?}", error));
                break;
            }
        }
    }
    (writes, log)
}

#[test]
fn legacy_gpu_bring_up() {
    let mut s = VirtioSetup::new(0x4020_0000, false);
    let (writes, log) = run_setup(&mut s, &[(0x04, 1), (0x70, 0), (0x34, 64)]);
    assert_eq!(log, vec!["read 0x4", "read 0x70", "read 0x34", "ready"]);
    assert_eq!(
        writes,
        vec![
            (0x70, 0),
            (0x70, 1),
            (0x70, 3),
            (0x30, 0),
            (0x38, 32),
            (0x28, 4096),
            (0x3c, 4096),
            (0x40, 0x80200),
            (0x70, 7),
        ]
    );
    assert_eq!(s.stage, SetupStage::Done);
}

#[test]
fn modern_input_bring_up_offers_buffers_then_notifies() {
    let mut s = VirtioSetup::new(0x8030_0000, true);
    let (writes, log) = run_setup(&mut s, &[(0x04, 2), (0x70, 0x8), (0x34, 32)]);
    assert_eq!(log, vec!["read 0x4", "read 0x70", "read 0x70", "read 0x34", "offer", "ready"]);
    assert_eq!(
        writes,
        vec![
            (0x70, 0),
            (0x70, 9),
            (0x70, 11),
            (0x20, 0),
            (0x70, 11),
            (0x30, 0),
            (0x38, 32),
            (0x80, 0x8030_0000),
            (0x84, 0),
            (0x90, 0x8030_0200),
            (0x94, 0),
            (0xa0, 0x8030_1000),
            (0xa4, 0),
            (0x44, 1),
            (0x70, 15),
            (0x50, 0),
        ]
    );
}

#[test]
fn bring_up_failures() {
    let mut s = VirtioSetup::new(0x8030_0000, false);
    let (_, log) = run_setup(&mut s, &[(0x04, 2), (0x70, 0), (0x34, 32)]);
    assert_eq!(log.last().unwrap(), "failed FeaturesRejected");
    assert_eq!(s.stage, SetupStage::Failed { error: SetupError::FeaturesRejected });
    let mut s = VirtioSetup::new(0x8030_0000, false);
    let (_, log) = run_setup(&mut s, &[(0x04, 1), (0x70, 0), (0x34, 16)]);
    assert_eq!(log.last().unwrap(), "failed QueueTooSmall");
    assert!(matches!(s.step(0), SetupAction::Failed { error: SetupError::QueueTooSmall }));
}

#[test]
fn gpu_display_set_up_sequence() {
    let mut chan = GpuCommandChannel::new();
    let mut init = GpuInit::new(0x4100_0000);
    assert_eq!(init.step(&mut chan), GpuInitAction::Send { command: VIRTIO_GPU_CMD_RESOURCE_CREATE_2D });
    assert_eq!(chan.req_create.width, 640);
    chan.resp.type_ = VIRTIO_GPU_RESP_OK_NODATA;
    assert_eq!(init.step(&mut chan), GpuInitAction::Send { command: VIRTIO_GPU_CMD_RESOURCE_ATTACH_BACKING });
    assert_eq!(chan.req_attach.nr_entries, 300);
    assert_eq!(chan.req_attach.entries[1].addr, 0x8100_1000);
    assert_eq!(chan.resp.type_, 0);
    chan.resp.type_ = VIRTIO_GPU_RESP_OK_NODATA;
    assert_eq!(init.step(&mut chan), GpuInitAction::Send { command: VIRTIO_GPU_CMD_SET_SCANOUT });
    chan.resp.type_ = VIRTIO_GPU_RESP_OK_NODATA;
    assert_eq!(init.step(&mut chan), GpuInitAction::PaintPattern);
    assert_eq!(init.stage, GpuInitStage::Active);
    assert_eq!(init.step(&mut chan), GpuInitAction::Finished);
}

#[test]
fn gpu_set_up_stops_on_a_refusal() {
    let mut chan = GpuCommandChannel::new();
    let mut init = GpuInit::new(0x4100_0000);
    init.step(&mut chan);
    chan.resp.type_ = 0x1200;
    let stop = GpuInitAction::Stopped { command: VIRTIO_GPU_CMD_RESOURCE_CREATE_2D, response: 0x1200 };
    assert_eq!(init.step(&mut chan), stop);
    assert_eq!(init.step(&mut chan), stop);
}

#[test]
fn flush_commands_cover_the_screen() {
    let mut chan = GpuCommandChannel::new();
    chan.prepare_flush();
    assert_eq!(chan.req_transfer.resource_id, 1);
    assert_eq!(chan.req_transfer.r.width, 640);
    assert_eq!(chan.req_flush.r.height, 480);
}

#[test]
fn keyboard_is_found_by_name() {
    let mut probes = [empty(); 8];
    probes[2] = probe(18, b"QEMU Virtio Mouse", 17);
    probes[5] = probe(18, b"QEMU Virtio Keyboard", 20);
    probes[6] = probe(18, b"keyboard", 8);
    assert!(!probe_is_keyboard(&probes[2]));
    assert!(probe_is_keyboard(&probes[5]));
    assert_eq!(find_keyboard_device(&probes), Some(0x1000_6000));
    probes[5] = probe(18, b"QEMU Virtio Keyboard", 15);
    assert!(!probe_is_keyboard(&probes[5]));
    assert_eq!(find_keyboard_device(&probes), Some(0x1000_7000));
    probes[6] = probe(16, b"keyboard", 8);
    assert_eq!(find_keyboard_device(&probes), None);
}

#[test]
fn devices_are_found_by_id() {
    let mut ids = [(0u32, 0u32); 8];
    ids[7] = (VIRTIO_MAGIC, 16);
    ids[3] = (VIRTIO_MAGIC, 2);
    ids[1] = (0x1234, 16);
    assert_eq!(find_device(&ids, 16), Some(0x1000_8000));
    assert_eq!(find_device(&ids, 2), Some(0x1000_4000));
    assert_eq!(find_device(&ids, 1), None);
}

#[test]
fn user_alias_addresses_map_back_to_ram() {
    assert_eq!(to_physical(0x4020_0000), 0x8020_0000);
    assert_eq!(to_physical(0x8020_0000), 0x8020_0000);
    assert_eq!(to_physical(0x7FFF_FFFF), 0xBFFF_FFFF);
}

#[test]
fn commands_are_posted_as_two_descriptors() {
    let mut q = VirtqueueLayout::new();
    q.avail.idx = 65535;
    let target = q.post_command(0x4000_1000, 40, 0x8000_2000, 24);
    assert_eq!(target, 0);
    assert_eq!(q.avail.ring[31], 0);
    assert_eq!((q.descriptors[0].addr, q.descriptors[0].len), (0x8000_1000, 40));
    assert_eq!((q.descriptors[0].flags, q.descriptors[0].next), (VIRTQ_DESC_F_NEXT, 1));
    assert_eq!((q.descriptors[1].addr, q.descriptors[1].flags), (0x8000_2000, VIRTQ_DESC_F_WRITE));
}

fn event(code: u16) -> VirtioInputEvent {
    VirtioInputEvent { event_type: 1, code, value: 1 }
}

#[test]
fn used_ring_is_drained_in_order_and_recycled() {
    let mut q = VirtqueueLayout::new();
    q.offer_event_buffers(0x4030_0000, 8);
    assert_eq!(q.avail.idx, 32);
    assert_eq!(q.descriptors[3].addr, 0x8030_0018);
    let mut events = [VirtioInputEvent::default(); 32];
    events[4] = event(30);
    events[9] = event(31);
    q.used.ring[0].id = 4;
    q.used.ring[1].id = 9;
    let d = drain_events(&mut q, &events, 0, 2);
    assert_eq!(d.last_used, 2);
    assert_eq!(d.events.iter().map(|e| e.code).collect::<Vec<_>>(), vec![30, 31]);
    assert_eq!(q.avail.idx, 34);
    assert_eq!((q.avail.ring[0], q.avail.ring[1]), (4, 9));
    let none = drain_events(&mut q, &events, 2, 2);
    assert!(none.events.is_empty());
    assert_eq!(q.avail.idx, 34);
}

#[test]
fn drain_wraps_around_the_index() {
    let mut q = VirtqueueLayout::new();
    let mut events = [VirtioInputEvent::default(); 32];
    events[1] = event(2);
    events[2] = event(3);
    q.used.ring[31].id = 1;
    q.used.ring[0].id = 2;
    q.avail.idx = 65535;
    let d = drain_events(&mut q, &events, 65535, 1);
    assert_eq!(d.events.len(), 2);
    assert_eq!((d.events[0].code, d.events[1].code), (2, 3));
    assert_eq!(d.last_used, 1);
    assert_eq!(q.avail.idx, 1);
    assert_eq!((q.avail.ring[31], q.avail.ring[0]), (1, 2));
}
