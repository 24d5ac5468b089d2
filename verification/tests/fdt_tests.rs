use lib::fdt::{
    apply_bootargs_exec, parse_fdt, read_be32, read_be64, FdtEnd, FdtHeader, FdtItem, LogConfig,
    PropValue, FDT_MAGIC,
};

/// Builds a device tree blob: a header, the structure block and the
/// strings block.
struct Blob {
    structure: Vec<u8>,
    strings: Vec<u8>,
}

impl Blob {
    fn new() -> Self {
        Blob { structure: Vec::new(), strings: Vec::new() }
    }

    fn word(&mut self, w: u32) -> &mut Self {
        self.structure.extend_from_slice(&w.to_be_bytes());
        self
    }

    fn pad(&mut self) {
        while self.structure.len() % 4 != 0 {
            self.structure.push(0);
        }
    }

    fn begin(&mut self, name: &str) -> &mut Self {
        self.word(1);
        self.structure.extend_from_slice(name.as_bytes());
        self.structure.push(0);
        self.pad();
        self
    }

    fn end(&mut self) -> &mut Self {
        self.word(2)
    }

    fn prop(&mut self, name: &str, value: &[u8]) -> &mut Self {
        let off = self.strings.len() as u32;
        self.strings.extend_from_slice(name.as_bytes());
        self.strings.push(0);
        self.word(3).word(value.len() as u32).word(off);
        self.structure.extend_from_slice(value);
        self.pad();
        self
    }

    fn build(&self) -> Vec<u8> {
        let struct_off = 40u32;
        let strings_off = struct_off + self.structure.len() as u32;
        let total = strings_off + self.strings.len() as u32;
        let mut b = Vec::new();
        for w in [FDT_MAGIC, total, struct_off, strings_off, 0, 17, 16, 0, self.strings.len() as u32, self.structure.len() as u32] {
            b.extend_from_slice(&w.to_be_bytes());
        }
        b.extend_from_slice(&self.structure);
        b.extend_from_slice(&self.strings);
        b
    }
}

fn quiet() -> LogConfig {
    LogConfig::new()
}

#[test]
fn big_endian_reads() {
    let b = [0x01, 0x02, 0x03, 0x04, 0x05, 0x06, 0x07, 0x08, 0x09];
    assert_eq!(read_be32(&b, 0), 0x0102_0304);
    assert_eq!(read_be32(&b, 5), 0x0607_0809);
    assert_eq!(read_be64(&b, 1), 0x0203_0405_0607_0809);
}

#[test]
fn header_needs_the_magic_number() {
    let blob = Blob::new().build();
    let h = FdtHeader::from_bytes(&blob).expect("header");
    assert_eq!(h.magic, 0xd00d_feed);
    assert_eq!(h.off_dt_struct, 40);
    assert_eq!(h.version, 17);
    assert_eq!(h.last_comp_version, 16);
    let mut bad = blob.clone();
    bad[0] = 0;
    assert!(FdtHeader::from_bytes(&bad).is_none());
    assert!(FdtHeader::from_bytes(&blob[..39]).is_none());
    assert!(parse_fdt(&bad, quiet()).is_none());
}

#[test]
fn walk_lists_nodes_and_properties() {
    let mut t = Blob::new();
    t.begin("")
        .prop("compatible", b"riscv-virtio\0")
        .prop("#address-cells", &2u32.to_be_bytes())
        .begin("memory@80000000")
        .prop("reg", &[0, 0, 0, 0, 0x80, 0, 0, 0])
        .prop("empty", &[])
        .prop("blob", &[1, 2, 3])
        .end()
        .word(4)
        .end()
        .word(9);
    let blob = t.build();
    let rep = parse_fdt(&blob, quiet()).expect("a tree");
    assert_eq!(rep.end, FdtEnd::Finished);
    assert_eq!(rep.items.len(), 7);
    match rep.items[0] {
        FdtItem::Node { depth, name_len, .. } => assert_eq!((depth, name_len), (0, 0)),
        _ => panic!("root node first"),
    }
    match rep.items[1] {
        FdtItem::Prop { depth, name_start, name_len, value_start, value_len, value } => {
            assert_eq!(depth, 1);
            assert_eq!(&blob[name_start..name_start + name_len], b"compatible");
            assert_eq!(&blob[value_start..value_start + value_len], b"riscv-virtio\0");
            assert_eq!(value, PropValue::Text);
        }
        _ => panic!("a property"),
    }
    assert!(matches!(rep.items[2], FdtItem::Prop { value: PropValue::Word { word: 2 }, .. }));
    match rep.items[3] {
        FdtItem::Node { depth, name_start, name_len } => {
            assert_eq!(depth, 1);
            assert_eq!(&blob[name_start..name_start + name_len], b"memory@80000000");
        }
        _ => panic!("a node"),
    }
    assert!(matches!(rep.items[4], FdtItem::Prop { depth: 2, value: PropValue::Double { double: 0x8000_0000 }, .. }));
    assert!(matches!(rep.items[5], FdtItem::Prop { value: PropValue::Empty, value_len: 0, .. }));
    assert!(matches!(rep.items[6], FdtItem::Prop { value: PropValue::Binary, value_len: 3, .. }));
    assert_eq!(rep.log, quiet());
}

#[test]
fn text_needs_printable_bytes_and_a_final_zero() {
    let mut t = Blob::new();
    t.begin("").prop("a", b"x\0").prop("b", b"\0").prop("c", b"ab\x01\0").prop("d", b"abcd").word(9);
    let rep = parse_fdt(&t.build(), quiet()).unwrap();
    let values: Vec<PropValue> = rep
        .items
        .iter()
        .filter_map(|i| match i {
            FdtItem::Prop { value, .. } => Some(*value),
            _ => None,
        })
        .collect();
    assert_eq!(values, vec![PropValue::Text, PropValue::Binary, PropValue::Word { word: 0x6162_0100 }, PropValue::Word { word: 0x6162_6364 }]);
}

#[test]
fn unknown_token_and_truncation_stop_the_walk() {
    let mut t = Blob::new();
    t.begin("").word(7);
    let rep = parse_fdt(&t.build(), quiet()).unwrap();
    assert_eq!(rep.end, FdtEnd::BadToken { token: 7 });
    assert_eq!(rep.items.len(), 1);
    let mut t = Blob::new();
    t.begin("").begin("cpus");
    let rep = parse_fdt(&t.build(), quiet()).unwrap();
    assert_eq!(rep.end, FdtEnd::Truncated);
    assert_eq!(rep.items.len(), 2);
    let mut t = Blob::new();
    t.begin("").word(3).word(100).word(0);
    let rep = parse_fdt(&t.build(), quiet()).unwrap();
    assert_eq!(rep.end, FdtEnd::Truncated);
}

#[test]
fn end_node_never_goes_below_the_root() {
    let mut t = Blob::new();
    t.end().end().begin("x").word(9);
    let rep = parse_fdt(&t.build(), quiet()).unwrap();
    assert!(matches!(rep.items[0], FdtItem::Node { depth: 0, .. }));
}

fn bootargs_tree(args: &str) -> Vec<u8> {
    let mut v = args.as_bytes().to_vec();
    v.push(0);
    let mut t = Blob::new();
    t.begin("").begin("chosen").prop("bootargs", &v).end().end().word(9);
    t.build()
}

#[test]
fn bootargs_select_the_log_level() {
    let level = |args: &str| parse_fdt(&bootargs_tree(args), quiet()).unwrap().log;
    assert_eq!(level("console=ttyS0 loglevel=2"), LogConfig { level: 2, debug: false });
    assert_eq!(level("loglevel=1"), LogConfig { level: 1, debug: false });
    assert_eq!(level("loglevel=3"), LogConfig { level: 3, debug: true });
    assert_eq!(level("debug"), LogConfig { level: 3, debug: true });
    assert_eq!(level("quiet debug"), LogConfig { level: 0, debug: true });
    assert_eq!(level("loglevel=0 loglevel=3"), LogConfig { level: 0, debug: false });
    assert_eq!(level("console=ttyS0"), LogConfig { level: 0, debug: false });
    let start = LogConfig { level: 2, debug: false };
    assert_eq!(parse_fdt(&bootargs_tree("nothing"), start).unwrap().log, start);
}

#[test]
fn bootargs_rules_on_their_own() {
    let c = LogConfig { level: 1, debug: false };
    assert_eq!(apply_bootargs_exec(c, b"loglevel=2 debug"), LogConfig { level: 2, debug: true });
    assert_eq!(apply_bootargs_exec(c, b""), c);
    assert_eq!(apply_bootargs_exec(c, b"loglevel=9"), c);
}

#[test]
fn only_a_property_named_bootargs_counts() {
    let mut t = Blob::new();
    t.begin("").prop("bootargs2", b"loglevel=3\0").prop("stdout", b"debug\0").word(9);
    assert_eq!(parse_fdt(&t.build(), quiet()).unwrap().log, quiet());
}
