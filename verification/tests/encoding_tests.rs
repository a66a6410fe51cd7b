use ebpf_kit::data::{
    classify_os_error, EbpfError, MapCreateAttr, MapElemAttr, ObjAttr, ProgDeAttachAttr,
    ProgLoadAttr, RawOsError, EINVAL, ENOMEM, EPERM,
};
use ebpf_kit::diag::{binary_vec_repr, byte_bits, generate_binary_table};
use ebpf_kit::net::{
    bind_address, capture_protocol_arg, htons, raw_capture_description, ring_geometry_ok,
    rx_ring_request, PacketOption, SockType, SocketDescription,
};
use ebpf_kit::program::{build_load_request, trim_trailing_nul, ProgramData, SocketFilter};
use ebpf_kit::release::KernelRelease;

#[test]
fn map_create_attr_encodes_five_words() {
    let attr = MapCreateAttr {
        map_type: 1,
        key_size: 8,
        value_size: 8,
        max_entries: 0x01020304,
        map_flags: 0,
    };
    let bytes = attr.into_byte_vec();
    assert_eq!(
        bytes,
        vec![
            1, 0, 0, 0, // map_type
            8, 0, 0, 0, // key_size
            8, 0, 0, 0, // value_size
            4, 3, 2, 1, // max_entries, little endian
            0, 0, 0, 0, // map_flags
        ]
    );
}

#[test]
fn map_elem_attr_pads_to_the_aligned_layout() {
    let attr = MapElemAttr {
        map_fd: 5,
        key: 0x1122334455667788,
        value_or_next_key: 1,
        flags: 2,
    };
    let bytes = attr.into_byte_vec();
    assert_eq!(bytes.len(), 32);
    assert_eq!(&bytes[0..4], &[5, 0, 0, 0]);
    assert_eq!(&bytes[4..8], &[0, 0, 0, 0]); // alignment hole
    assert_eq!(&bytes[8..16], &[0x88, 0x77, 0x66, 0x55, 0x44, 0x33, 0x22, 0x11]);
    assert_eq!(&bytes[16..24], &[1, 0, 0, 0, 0, 0, 0, 0]);
    assert_eq!(&bytes[24..32], &[2, 0, 0, 0, 0, 0, 0, 0]);
}

#[test]
fn prog_load_attr_encodes_48_bytes() {
    let attr = ProgLoadAttr {
        prog_type: 1,
        insn_cnt: 2,
        insns: 0x10,
        license: 0x20,
        log_level: 1,
        log_size: 8192,
        log_buf: 0x30,
        kern_version: 0x040F02,
    };
    let bytes = attr.into_byte_vec();
    assert_eq!(bytes.len(), 48);
    assert_eq!(&bytes[0..4], &[1, 0, 0, 0]);
    assert_eq!(&bytes[4..8], &[2, 0, 0, 0]);
    assert_eq!(&bytes[8..16], &[0x10, 0, 0, 0, 0, 0, 0, 0]);
    assert_eq!(&bytes[16..24], &[0x20, 0, 0, 0, 0, 0, 0, 0]);
    assert_eq!(&bytes[24..28], &[1, 0, 0, 0]);
    assert_eq!(&bytes[28..32], &[0, 32, 0, 0]); // 8192 = 0x2000
    assert_eq!(&bytes[32..40], &[0x30, 0, 0, 0, 0, 0, 0, 0]);
    assert_eq!(&bytes[40..44], &[0x02, 0x0F, 0x04, 0]);
    assert_eq!(&bytes[44..48], &[0, 0, 0, 0]); // tail padding
}

#[test]
fn other_payloads_encode_their_fixed_layouts() {
    let obj = ObjAttr { pathname: 0x40, bpf_fd: 3 };
    let bytes = obj.into_byte_vec();
    assert_eq!(bytes.len(), 16);
    assert_eq!(&bytes[0..8], &[0x40, 0, 0, 0, 0, 0, 0, 0]);
    assert_eq!(&bytes[8..12], &[3, 0, 0, 0]);
    let att = ProgDeAttachAttr { target_fd: 1, attach_bpf_fd: 2, attach_type: 3, attach_flags: 4 };
    let bytes = att.into_byte_vec();
    assert_eq!(
        bytes,
        vec![1, 0, 0, 0, 2, 0, 0, 0, 3, 0, 0, 0, 4, 0, 0, 0]
    );
}

#[test]
fn error_classification_covers_each_variant() {
    assert_eq!(classify_os_error(RawOsError(EPERM)), EbpfError::NotPermitted);
    assert_eq!(classify_os_error(RawOsError(EINVAL)), EbpfError::InvalidArgument);
    assert_eq!(classify_os_error(RawOsError(ENOMEM)), EbpfError::OutOfMemory);
    assert_eq!(classify_os_error(RawOsError(99)), EbpfError::Unknown);
    assert!(RawOsError::new(2).is_not_found());
    assert!(!RawOsError::new(17).is_not_found());
}

#[test]
fn binary_rendering_matches_the_documented_shape() {
    assert_eq!(byte_bits(1), "00000001");
    assert_eq!(byte_bits(5), "00000101");
    assert_eq!(byte_bits(0x80), "10000000");
    let reprs = binary_vec_repr(&vec![1, 5]);
    assert_eq!(reprs, vec!["00000001".to_string(), "00000101".to_string()]);
    let table = generate_binary_table(&vec![1, 2, 3], 2);
    assert_eq!(table, "00000001 00000010\n00000011 ");
}

#[test]
fn binary_table_of_an_attr_reads_four_bytes_per_row() {
    let attr = MapCreateAttr { map_type: 1, key_size: 4, value_size: 8, max_entries: 2, map_flags: 0 };
    let table = attr.binary_table();
    let lines: Vec<&str> = table.split('\n').collect();
    assert_eq!(lines.len(), 6); // five rows, each closed by a newline
    assert_eq!(lines[0], "00000001 00000000 00000000 00000000");
    assert_eq!(lines[5], "");
}

#[test]
fn action_binary_table_renders_its_word() {
    let table = ebpf_kit::data::Action::MapUpdateElem.binary_table();
    assert_eq!(table, "00000010 00000000 00000000 00000000\n");
}

#[test]
fn mac_addresses_render_as_unpadded_hex_pairs() {
    let mac = ebpf_kit::net::MacAddress([0xde, 0xad, 0x0b, 0xee, 0x00, 0x01]);
    assert_eq!(mac.to_hex_string(), "DE:AD:B:EE:0:1");
    let mac = ebpf_kit::net::MacAddress([0xff, 0x10, 0x2a, 0x9f, 0x15, 0x16]);
    assert_eq!(mac.to_hex_string(), "FF:10:2A:9F:15:16");
}

#[test]
fn release_strings_parse_as_three_numbers() {
    assert_eq!(
        KernelRelease::from_string("4.15.2"),
        Some(KernelRelease { major: 4, minor: 15, patch: 2 })
    );
    assert_eq!(
        KernelRelease::from_string("+4.015.0"),
        Some(KernelRelease { major: 4, minor: 15, patch: 0 })
    );
    assert_eq!(KernelRelease::from_string("4.15"), None);
    assert_eq!(KernelRelease::from_string("4.15.2.1"), None);
    assert_eq!(KernelRelease::from_string("4.15."), None);
    assert_eq!(KernelRelease::from_string("4.15.2-generic"), None);
    assert_eq!(KernelRelease::from_string("256.0.0"), None);
    assert_eq!(KernelRelease::from_string(""), None);
}

#[test]
fn release_packs_into_the_kernel_version_word() {
    let kr = KernelRelease::new(4, 15, 2);
    assert_eq!(kr.pack(), (4 << 16) | (15 << 8) | 2);
}

#[test]
fn load_request_carries_count_level_and_version() {
    let pd = ProgramData { instructions: vec![0, 0, 0], license: b"GPL".to_vec() };
    let kr = KernelRelease::new(4, 15, 2);
    let attr = build_load_request(
        &pd,
        ebpf_kit::data::EbpfProgLoadLogLevel::Normal,
        &kr,
        0x1000,
        0x2000,
        0x3000,
        8192,
    );
    assert_eq!(attr.prog_type, 1);
    assert_eq!(attr.insn_cnt, 3);
    assert_eq!(attr.insns, 0x1000);
    assert_eq!(attr.license, 0x2000);
    assert_eq!(attr.log_level, 1);
    assert_eq!(attr.log_size, 8192);
    assert_eq!(attr.log_buf, 0x3000);
    assert_eq!(attr.kern_version, 0x040F02);
}

#[test]
fn verifier_log_keeps_its_text_and_drops_the_padding() {
    let mut buf = b"invalid argument".to_vec();
    buf.extend_from_slice(&[0u8; 32]);
    assert_eq!(trim_trailing_nul(&buf), b"invalid argument".to_vec());
    assert_eq!(trim_trailing_nul(&vec![0u8; 16]), Vec::<u8>::new());
    assert_eq!(trim_trailing_nul(&b"a\0b".to_vec()), b"a\0b".to_vec());
}

#[test]
fn failed_load_surfaces_the_partial_log() {
    let pd = ProgramData { instructions: vec![0], license: b"GPL".to_vec() };
    let kr = KernelRelease::new(4, 15, 2);
    let mut log = b"R1 pointer arithmetic".to_vec();
    log.extend_from_slice(&[0u8; 16]);
    let r = SocketFilter::complete_load(
        pd,
        ebpf_kit::data::EbpfProgLoadLogLevel::Normal,
        kr,
        -1,
        RawOsError(EINVAL),
        &log,
    );
    match r {
        Ok(_) => panic!("load cannot succeed on a negative result"),
        Err((e, partial)) => {
            assert_eq!(e, RawOsError(EINVAL));
            assert_eq!(partial, b"R1 pointer arithmetic".to_vec());
        },
    }
}

#[test]
fn successful_load_keeps_bytes_and_descriptor() {
    let pd = ProgramData { instructions: vec![7, 8], license: b"GPL".to_vec() };
    let kr = KernelRelease::new(4, 15, 2);
    let log = vec![0u8; 8];
    let sf = SocketFilter::complete_load(
        pd,
        ebpf_kit::data::EbpfProgLoadLogLevel::Off,
        kr,
        6,
        RawOsError(0),
        &log,
    )
    .unwrap_or_else(|_| panic!("load must succeed on a positive result"));
    assert_eq!(sf.file_descriptor().get_fd(), 6);
    assert_eq!(sf.instructions(), &vec![7u64, 8u64]);
    assert_eq!(sf.license(), &b"GPL".to_vec());
    assert_eq!(sf.log_output(), &Vec::<u8>::new());
    assert_eq!(SocketFilter::program_type(), ebpf_kit::data::ProgramType::SocketFilter);
}

#[test]
fn byte_order_conversion_is_explicit() {
    assert_eq!(htons(3), 0x0300);
    assert_eq!(htons(0x0800), 0x0008);
    assert_eq!(htons(0x1234), 0x3412);
    assert_eq!(capture_protocol_arg(), 768);
}

#[test]
fn capture_socket_description_folds_its_flags() {
    let d = raw_capture_description();
    assert_eq!(d.sock_type, SockType::Raw);
    assert!(d.nonblock);
    assert!(d.close_on_exec);
    assert_eq!(d.type_bits(), 3 + 0o4000 + 0o2000000);
    let plain = SocketDescription { sock_type: SockType::Stream, nonblock: false, close_on_exec: false };
    assert_eq!(plain.type_bits(), 1);
}

#[test]
fn bind_address_is_wire_ready() {
    let a = bind_address(7);
    assert_eq!(a.sll_family, 17);
    assert_eq!(a.sll_protocol, 0x0300); // network order on the wire
    assert_eq!(a.sll_ifindex, 7);
    assert_eq!(a.sll_hatype, 0);
    assert_eq!(a.sll_pkttype, 0);
    assert_eq!(a.sll_halen, 0);
    assert_eq!(a.sll_addr, [0; 8]);
}

#[test]
fn ring_request_mirrors_block_geometry() {
    let req = rx_ring_request(32768, 4, 1000);
    assert_eq!(req.tp_block_size, 32768);
    assert_eq!(req.tp_block_nr, 4);
    assert_eq!(req.tp_frame_size, 32768);
    assert_eq!(req.tp_frame_nr, 4);
    assert_eq!(req.tp_retire_blk_tov, 1000);
    assert_eq!(req.tp_sizeof_priv, 0);
    assert_eq!(req.tp_feature_req_word, 0);
    assert_eq!(PacketOption::RxRing.code(), 5);
    assert_eq!(PacketOption::Version.code(), 10);
}

#[test]
fn ring_geometry_checks_page_multiple_and_power_of_two() {
    assert!(ring_geometry_ok(32768, 4, 4096));
    assert!(ring_geometry_ok(4096, 1, 4096));
    assert!(!ring_geometry_ok(4096, 3, 4096));
    assert!(!ring_geometry_ok(4096, 0, 4096));
    assert!(!ring_geometry_ok(4000, 4, 4096));
    assert!(!ring_geometry_ok(0, 4, 4096));
}
