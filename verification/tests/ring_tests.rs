use ebpf_kit::ring::{
    block_is_ready, consume_block, ethernet_header, packets, read_block_header, ring_length,
    Block, PacketRing, RingCursor, RingError,
};

fn put_u32(buf: &mut [u8], off: usize, v: u32) {
    buf[off..off + 4].copy_from_slice(&v.to_le_bytes());
}

fn put_u16(buf: &mut [u8], off: usize, v: u16) {
    buf[off..off + 2].copy_from_slice(&v.to_le_bytes());
}

/// A simulated ready block: version one, nonzero status, three chained
/// packet headers starting at offset 48, each 32 bytes apart.
fn ready_block() -> Vec<u8> {
    let mut b = vec![0u8; 160];
    put_u32(&mut b, 0, 1); // version
    put_u32(&mut b, 8, 1); // block_status: ready
    put_u32(&mut b, 12, 3); // num_pkts
    put_u32(&mut b, 16, 48); // offset_to_first_pkt
    put_u32(&mut b, 20, 160); // blk_len
    for (i, base) in [48usize, 80, 112].into_iter().enumerate() {
        let next = if i < 2 { 32 } else { 0 };
        put_u32(&mut b, base, next); // tp_next_offset
        put_u32(&mut b, base + 4, 100 + i as u32); // tp_sec
        put_u32(&mut b, base + 8, 200 + i as u32); // tp_nsec
        put_u32(&mut b, base + 12, 60 + i as u32); // tp_snaplen
        put_u32(&mut b, base + 16, 60 + i as u32); // tp_len
        put_u32(&mut b, base + 20, 1); // tp_status
        put_u16(&mut b, base + 24, 28); // tp_mac
        put_u16(&mut b, base + 26, 42); // tp_net
    }
    b
}

#[test]
fn ready_block_yields_packets_in_chain_order_and_resets_status() {
    let mut block = ready_block();
    assert!(block_is_ready(&block));
    let pkts = consume_block(&mut block).unwrap();
    assert_eq!(pkts.len(), 3);
    assert_eq!(pkts[0].offset, 48);
    assert_eq!(pkts[1].offset, 80);
    assert_eq!(pkts[2].offset, 112);
    assert_eq!(pkts[0].tp_sec, 100);
    assert_eq!(pkts[1].tp_sec, 101);
    assert_eq!(pkts[2].tp_sec, 102);
    assert_eq!(pkts[2].tp_next_offset, 0);
    // Ownership went back to the kernel; nothing else moved.
    assert!(!block_is_ready(&block));
    let reread = read_block_header(&block).unwrap();
    assert_eq!(reread.block_status, 0);
    assert_eq!(reread.num_pkts, 3);
    assert_eq!(reread.offset_to_first_pkt, 48);
}

#[test]
fn timed_out_empty_block_is_an_ordinary_ready_block() {
    let mut block = vec![0u8; 64];
    put_u32(&mut block, 0, 1);
    put_u32(&mut block, 8, 1); // retired by timeout, no traffic
    put_u32(&mut block, 12, 0); // num_pkts
    put_u32(&mut block, 16, 48);
    let pkts = consume_block(&mut block).unwrap();
    assert_eq!(pkts.len(), 0);
    assert!(!block_is_ready(&block));
}

#[test]
fn unsupported_version_and_truncated_chains_are_errors() {
    let mut block = ready_block();
    put_u32(&mut block, 0, 2);
    assert_eq!(packets(&block), Err(RingError::UnsupportedVersion));
    let mut block = ready_block();
    put_u32(&mut block, 16, 150); // first packet header would run off the end
    assert_eq!(packets(&block), Err(RingError::OutOfBounds));
    let short = vec![0u8; 8];
    assert_eq!(packets(&short), Err(RingError::OutOfBounds));
}

#[test]
fn poll_round_waits_while_all_blocks_are_kernel_owned() {
    let blocks = vec![vec![0u8; 64], vec![0u8; 64]];
    let mut ring = PacketRing::from_blocks(blocks).unwrap();
    // Every status word is zero: no poll round may hand out a block.
    for _ in 0..3 {
        assert_eq!(ring.try_get_next(), None);
        assert_eq!(ring.index, 0);
    }
    // The polled block turns ready: the very next round returns it.
    put_u32(&mut ring.blocks[0], 8, 1);
    assert_eq!(ring.try_get_next(), Some(0));
    assert_eq!(ring.index, 1);
    // The round-robin position wraps at the end of the ring.
    put_u32(&mut ring.blocks[1], 8, 1);
    assert_eq!(ring.try_get_next(), Some(1));
    assert_eq!(ring.index, 0);
}

#[test]
fn consume_at_returns_ownership_of_one_block() {
    let blocks = vec![ready_block(), ready_block()];
    let mut ring = PacketRing::from_blocks(blocks).unwrap();
    let got = ring.try_get_next().unwrap();
    assert_eq!(got, 0);
    let pkts = ring.consume_at(got).unwrap();
    assert_eq!(pkts.len(), 3);
    assert!(!block_is_ready(&ring.blocks[0]));
    assert!(block_is_ready(&ring.blocks[1]));
}

#[test]
fn ring_rejects_empty_or_undersized_blocks() {
    assert_eq!(PacketRing::from_blocks(vec![]).err(), Some(RingError::OutOfBounds));
    assert_eq!(
        PacketRing::from_blocks(vec![vec![0u8; 8]]).err(),
        Some(RingError::OutOfBounds)
    );
}

#[test]
fn ethernet_header_is_read_at_the_mac_offset() {
    let mut block = ready_block();
    let base = 48 + 28; // first packet, tp_mac = 28
    let frame = [
        1, 2, 3, 4, 5, 6, // destination
        7, 8, 9, 10, 11, 12, // source
        0x08, 0x00, // protocol, network order
    ];
    block[base..base + 14].copy_from_slice(&frame);
    let h = ethernet_header(&block, 48, 28).unwrap();
    assert_eq!(h.h_dest.0, [1, 2, 3, 4, 5, 6]);
    assert_eq!(h.h_source.0, [7, 8, 9, 10, 11, 12]);
    assert_eq!(h.h_proto, 0x0800);
    assert_eq!(
        ethernet_header(&block, 150, 28).err(),
        Some(RingError::OutOfBounds)
    );
}

#[test]
fn block_handles_name_offsets_only() {
    let b = Block::new(3);
    assert_eq!(b.offset_in_ring(32768), 3 * 32768);
    assert_eq!(ring_length(32768, 4), 131072);
}

#[test]
fn cursor_advances_round_robin() {
    let mut c = RingCursor::new(3);
    assert_eq!(c.index, 0);
    c.advance();
    assert_eq!(c.index, 1);
    c.advance();
    assert_eq!(c.index, 2);
    c.advance();
    assert_eq!(c.index, 0);
}
