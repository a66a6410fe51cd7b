//! The block-ownership protocol of the shared-memory packet ring.
//!
//! Each ring partition is a byte arena whose header carries a status word:
//! zero means the kernel owns the block (filling or idle), nonzero means it
//! is ready for userspace.  A ready block names its packet count and the
//! offset of its first packet; each packet header carries the offset of the
//! one after it.  Reading is bounds-checked offset decoding that produces
//! owned values, never aliased memory; after the last packet the status
//! word is written back to zero, returning the block to the kernel.  A
//! timed-out block with zero packets is an ordinary ready block here, not
//! an error.  The ring assumes exactly one consumer: two consumers over the
//! same blocks would race on the status words.

use crate::net::MacAddress;
use vstd::bytes::{
    spec_u16_from_le_bytes,
    spec_u32_from_le_bytes,
    spec_u32_to_le_bytes,
    u16_from_le_bytes,
    u32_from_le_bytes,
    u32_to_le_bytes,
};
use vstd::prelude::*;
use vstd::slice::slice_subrange;

verus! {

/// Failure to read a ring block.
#[derive(Clone, Copy, Debug, PartialEq, Eq, Structural)]
pub enum RingError {
    /// The block header does not carry the expected format version.
    UnsupportedVersion,
    /// A header or a packet chain runs past the block's end.
    OutOfBounds,
}

/// The 16-bit little-endian word at `off` of a block.
pub open spec fn spec_ring_le16(b: Seq<u8>, off: int) -> u16 {
    spec_u16_from_le_bytes(b.subrange(off, off + 2))
}

/// The 32-bit little-endian word at `off` of a block.
pub open spec fn spec_ring_le32(b: Seq<u8>, off: int) -> u32 {
    spec_u32_from_le_bytes(b.subrange(off, off + 4))
}

/// The block-format version word.
pub open spec fn spec_block_version(b: Seq<u8>) -> u32 {
    spec_ring_le32(b, 0)
}

/// The block's status word: zero while the kernel owns the block, nonzero
/// once userspace does.
pub open spec fn spec_block_status(b: Seq<u8>) -> u32 {
    spec_ring_le32(b, 8)
}

/// How many packets the block holds.
pub open spec fn spec_num_pkts(b: Seq<u8>) -> u32 {
    spec_ring_le32(b, 12)
}

/// Offset of the first packet from the block's start.
pub open spec fn spec_offset_to_first_pkt(b: Seq<u8>) -> u32 {
    spec_ring_le32(b, 16)
}

/// Offset of packet `k` in the chain: the first packet's offset plus the
/// accumulated next-packet offsets before it.
pub open spec fn spec_chain_off(b: Seq<u8>, k: int) -> int
    decreases k,
{
    if k <= 0 {
        spec_offset_to_first_pkt(b) as int
    } else {
        spec_chain_off(b, k - 1) + spec_ring_le32(b, spec_chain_off(b, k - 1))
    }
}

/// The first `n` packet headers of the chain lie inside the block.
pub open spec fn spec_chain_ok(b: Seq<u8>, n: int) -> bool {
    forall|k: int| 0 <= k < n ==> #[trigger] spec_chain_off(b, k) + 28 <= b.len()
}

/// Number of bytes a block header occupies before its first useful packet
/// byte can appear.
pub const BLOCK_HEADER_LEN: usize = 24;

/// Number of bytes of a packet header that the consumer reads.
pub const PACKET_HEADER_LEN: usize = 28;

/// The block-header fields the consumer reads.
#[derive(Clone, Copy, Debug, PartialEq, Eq, Structural)]
pub struct BlockHeader {
    pub version: u32,
    pub offset_to_priv: u32,
    pub block_status: u32,
    pub num_pkts: u32,
    pub offset_to_first_pkt: u32,
    pub blk_len: u32,
}

/// One captured packet, decoded from its header in the ring block.
#[derive(Clone, Copy, Debug, PartialEq, Eq, Structural)]
pub struct CapturedPacket {
    /// Offset of this packet's header from the block's start.
    pub offset: usize,
    /// Offset of the following packet's header from this one.
    pub tp_next_offset: u32,
    pub tp_sec: u32,
    pub tp_nsec: u32,
    pub tp_snaplen: u32,
    pub tp_len: u32,
    pub tp_status: u32,
    /// Offset of the link-layer header from this packet's header.
    pub tp_mac: u16,
    pub tp_net: u16,
}

/// A link-layer header, copied out of a captured frame for inspection; no
/// validation of the frame's contents is implied.
#[derive(Clone, Copy, Debug, PartialEq, Eq)]
pub struct EthHdr {
    pub h_dest: MacAddress,
    pub h_source: MacAddress,
    /// The protocol number, read back into host order.
    pub h_proto: u16,
}

/// Reads the 32-bit little-endian word at `off` of a block.
fn ring_read_le32(block: &Vec<u8>, off: usize) -> (r: u32)
    requires
        off + 4 <= block@.len(),
    ensures
        r == spec_ring_le32(block@, off as int),
{
    let n = block.len();
    u32_from_le_bytes(slice_subrange(block.as_slice(), off, off + 4))
}

/// Reads the 16-bit little-endian word at `off` of a block.
fn ring_read_le16(block: &Vec<u8>, off: usize) -> (r: u16)
    requires
        off + 2 <= block@.len(),
    ensures
        r == spec_ring_le16(block@, off as int),
{
    let n = block.len();
    u16_from_le_bytes(slice_subrange(block.as_slice(), off, off + 2))
}

/// Is the block ready for userspace?  Ownership is read from the status
/// word alone.
pub fn block_is_ready(block: &Vec<u8>) -> (r: bool)
    requires
        block@.len() >= 12,
    ensures
        r == (spec_block_status(block@) != 0),
{
    ring_read_le32(block, 8) != 0
}

/// Decodes the block header; a block too short for one is out of bounds.
pub fn read_block_header(block: &Vec<u8>) -> (r: Result<BlockHeader, RingError>)
    ensures
        block@.len() >= BLOCK_HEADER_LEN ==> r == Ok::<BlockHeader, RingError>(
            BlockHeader {
                version: spec_block_version(block@),
                offset_to_priv: spec_ring_le32(block@, 4),
                block_status: spec_block_status(block@),
                num_pkts: spec_num_pkts(block@),
                offset_to_first_pkt: spec_offset_to_first_pkt(block@),
                blk_len: spec_ring_le32(block@, 20),
            },
        ),
        block@.len() < BLOCK_HEADER_LEN ==> r == Err::<BlockHeader, RingError>(
            RingError::OutOfBounds,
        ),
{
    if block.len() < BLOCK_HEADER_LEN {
        return Err(RingError::OutOfBounds);
    }
    Ok(
        BlockHeader {
            version: ring_read_le32(block, 0),
            offset_to_priv: ring_read_le32(block, 4),
            block_status: ring_read_le32(block, 8),
            num_pkts: ring_read_le32(block, 12),
            offset_to_first_pkt: ring_read_le32(block, 16),
            blk_len: ring_read_le32(block, 20),
        },
    )
}

/// The packet record decoded at offset `off` of the block.
pub open spec fn spec_packet_at(b: Seq<u8>, off: int) -> CapturedPacket {
    CapturedPacket {
        offset: off as usize,
        tp_next_offset: spec_ring_le32(b, off),
        tp_sec: spec_ring_le32(b, off + 4),
        tp_nsec: spec_ring_le32(b, off + 8),
        tp_snaplen: spec_ring_le32(b, off + 12),
        tp_len: spec_ring_le32(b, off + 16),
        tp_status: spec_ring_le32(b, off + 20),
        tp_mac: spec_ring_le16(b, off + 24),
        tp_net: spec_ring_le16(b, off + 26),
    }
}

/// Decodes the packet header at `off`.
fn read_packet(block: &Vec<u8>, off: usize) -> (r: CapturedPacket)
    requires
        off + PACKET_HEADER_LEN <= block@.len(),
    ensures
        r == spec_packet_at(block@, off as int),
{
    let n = block.len();
    CapturedPacket {
        offset: off,
        tp_next_offset: ring_read_le32(block, off),
        tp_sec: ring_read_le32(block, off + 4),
        tp_nsec: ring_read_le32(block, off + 8),
        tp_snaplen: ring_read_le32(block, off + 12),
        tp_len: ring_read_le32(block, off + 16),
        tp_status: ring_read_le32(block, off + 20),
        tp_mac: ring_read_le16(block, off + 24),
        tp_net: ring_read_le16(block, off + 26),
    }
}

/// Walks the packet chain of a ready block: `num_pkts` headers, each found
/// by adding the previous header's next-packet offset.  Success is owed
/// exactly when the block carries the supported format version and the
/// whole chain lies inside the block.
pub fn packets(block: &Vec<u8>) -> (r: Result<Vec<CapturedPacket>, RingError>)
    ensures
        match r {
            Ok(v) => {
                &&& block@.len() >= BLOCK_HEADER_LEN
                &&& spec_block_version(block@) == 1
                &&& spec_chain_ok(block@, spec_num_pkts(block@) as int)
                &&& v@.len() == spec_num_pkts(block@)
                &&& forall|k: int|
                    0 <= k < v@.len() ==> #[trigger] v@[k] == spec_packet_at(
                        block@,
                        spec_chain_off(block@, k),
                    )
            },
            Err(RingError::UnsupportedVersion) => block@.len() >= BLOCK_HEADER_LEN
                && spec_block_version(block@) != 1,
            Err(RingError::OutOfBounds) => block@.len() < BLOCK_HEADER_LEN || (spec_block_version(
                block@,
            ) == 1 && !spec_chain_ok(block@, spec_num_pkts(block@) as int)),
        },
{
    let header = match read_block_header(block) {
        Ok(h) => h,
        Err(e) => {
            return Err(e);
        },
    };
    if header.version != 1 {
        return Err(RingError::UnsupportedVersion);
    }
    let ghost bs = block@;
    let len = block.len();
    let num = header.num_pkts;
    let mut out: Vec<CapturedPacket> = Vec::new();
    let mut cur: u128 = header.offset_to_first_pkt as u128;
    let mut k: u32 = 0;
    while k < num
        invariant
            block@ == bs,
            bs.len() <= usize::MAX,
            len == bs.len(),
            bs.len() >= BLOCK_HEADER_LEN,
            spec_block_version(bs) == 1,
            num == spec_num_pkts(bs),
            k <= num,
            cur == spec_chain_off(bs, k as int),
            forall|t: int| 0 <= t < k ==> #[trigger] spec_chain_off(bs, t) + 28 <= bs.len(),
            out@.len() == k,
            forall|t: int|
                0 <= t < k ==> #[trigger] out@[t] == spec_packet_at(bs, spec_chain_off(bs, t)),
            cur <= bs.len() + 0x1_0000_0000,
        decreases num - k,
    {
        if cur + 28 > len as u128 {
            assert(spec_chain_off(bs, k as int) + 28 > bs.len());
            assert(!spec_chain_ok(bs, num as int));
            return Err(RingError::OutOfBounds);
        }
        let off = cur as usize;
        let pkt = read_packet(block, off);
        out.push(pkt);
        cur = cur + pkt.tp_next_offset as u128;
        k = k + 1;
    }
    Ok(out)
}

/// Writes the status word back to zero, returning block ownership to the
/// kernel; every other byte is left as it was.
pub fn release_block(block: &mut Vec<u8>)
    requires
        old(block)@.len() >= 12,
    ensures
        final(block)@.len() == old(block)@.len(),
        spec_block_status(final(block)@) == 0,
        forall|j: int|
            0 <= j < old(block)@.len() && !(8 <= j < 12) ==> final(block)@[j] == old(block)@[j],
{
    let zeros = u32_to_le_bytes(0);
    proof {
        vstd::bytes::lemma_auto_spec_u32_to_from_le_bytes();
    }
    block[8] = zeros[0];
    block[9] = zeros[1];
    block[10] = zeros[2];
    block[11] = zeros[3];
    proof {
        assert(block@.subrange(8, 12) =~= spec_u32_to_le_bytes(0));
    }
}

/// Reads a ready block's packets and hands the block back to the kernel:
/// the chain is decoded as in [`packets`], then the status word is reset to
/// zero.  On failure the block is left untouched.
pub fn consume_block(block: &mut Vec<u8>) -> (r: Result<Vec<CapturedPacket>, RingError>)
    ensures
        match r {
            Ok(v) => {
                &&& old(block)@.len() >= BLOCK_HEADER_LEN
                &&& spec_block_version(old(block)@) == 1
                &&& v@.len() == spec_num_pkts(old(block)@)
                &&& forall|k: int|
                    0 <= k < v@.len() ==> #[trigger] v@[k] == spec_packet_at(
                        old(block)@,
                        spec_chain_off(old(block)@, k),
                    )
                &&& spec_block_status(final(block)@) == 0
                &&& final(block)@.len() == old(block)@.len()
                &&& forall|j: int|
                    0 <= j < old(block)@.len() && !(8 <= j < 12) ==> final(block)@[j] == old(
                        block,
                    )@[j]
            },
            Err(e) => {
                &&& final(block)@ == old(block)@
                &&& (e == RingError::UnsupportedVersion ==> old(block)@.len() >= BLOCK_HEADER_LEN
                    && spec_block_version(old(block)@) != 1)
                &&& (e == RingError::OutOfBounds ==> old(block)@.len() < BLOCK_HEADER_LEN || (
                spec_block_version(old(block)@) == 1 && !spec_chain_ok(
                    old(block)@,
                    spec_num_pkts(old(block)@) as int,
                )))
            },
        },
{
    let pkts = match packets(block) {
        Ok(v) => v,
        Err(e) => {
            return Err(e);
        },
    };
    release_block(block);
    Ok(pkts)
}

/// Copies the link-layer header out of a captured frame: fourteen bytes at
/// the packet header's position plus its link-layer offset.  Nothing of the
/// frame is validated.
pub fn ethernet_header(block: &Vec<u8>, pkt_offset: usize, mac_offset: u16) -> (r: Result<
    EthHdr,
    RingError,
>)
    ensures
        ({
            let base = pkt_offset + mac_offset;
            match r {
                Ok(h) => {
                    &&& base + 14 <= block@.len()
                    &&& h.h_dest.0@ =~= block@.subrange(base, base + 6)
                    &&& h.h_source.0@ =~= block@.subrange(base + 6, base + 12)
                    &&& h.h_proto == block@[base + 12] * 256 + block@[base + 13]
                },
                Err(e) => e == RingError::OutOfBounds && base + 14 > block@.len(),
            }
        }),
{
    let len = block.len();
    if len < 14 || pkt_offset > len - 14 || (mac_offset as usize) > len - 14 - pkt_offset {
        return Err(RingError::OutOfBounds);
    }
    let base = pkt_offset + mac_offset as usize;
    let h_dest = MacAddress(
        [
            block[base],
            block[base + 1],
            block[base + 2],
            block[base + 3],
            block[base + 4],
            block[base + 5],
        ],
    );
    let h_source = MacAddress(
        [
            block[base + 6],
            block[base + 7],
            block[base + 8],
            block[base + 9],
            block[base + 10],
            block[base + 11],
        ],
    );
    let h_proto = (block[base + 12] as u16) * 256 + (block[base + 13] as u16);
    Ok(EthHdr { h_dest, h_source, h_proto })
}

/// Names one ring partition by its index; the handle owns no memory.
#[derive(Clone, Copy, Debug, PartialEq, Eq, Structural)]
pub struct Block {
    pub index: u32,
}

impl Block {
    /// Names the partition at `index`.
    pub fn new(index: u32) -> (r: Block)
        ensures
            r.index == index,
    {
        Block { index }
    }

    /// Byte offset of this partition inside the mapped ring.
    pub fn offset_in_ring(&self, block_size: u32) -> (r: u64)
        ensures
            r == self.index * block_size,
    {
        proof {
            assert(self.index * block_size < 0x10000000000000000) by (nonlinear_arith)
                requires
                    self.index < 0x100000000,
                    block_size < 0x100000000,
            ;
        }
        (self.index as u64) * (block_size as u64)
    }
}

/// Byte length of the ring mapping: all blocks laid out back to back.
pub fn ring_length(block_size: u32, block_number: u32) -> (r: u64)
    ensures
        r == block_size * block_number,
{
    proof {
        assert(block_size * block_number < 0x10000000000000000) by (nonlinear_arith)
            requires
                block_size < 0x100000000,
                block_number < 0x100000000,
        ;
    }
    (block_size as u64) * (block_number as u64)
}

/// The consumer's view of the mapped ring: one byte arena per partition and
/// the round-robin position.  Exactly one consumer may drive it.
pub struct PacketRing {
    pub blocks: Vec<Vec<u8>>,
    pub index: usize,
}

impl PacketRing {
    /// Well-formedness: at least one block, the cursor inside the ring, and
    /// every block large enough for its header.
    pub open spec fn wf(&self) -> bool {
        &&& self.blocks@.len() > 0
        &&& self.index < self.blocks@.len()
        &&& forall|i: int|
            0 <= i < self.blocks@.len() ==> (#[trigger] self.blocks@[i])@.len()
                >= BLOCK_HEADER_LEN
    }

    /// Builds a ring over the given block arenas, positioned on the first
    /// block; rejects an empty ring and blocks too short for a header.
    pub fn from_blocks(blocks: Vec<Vec<u8>>) -> (r: Result<PacketRing, RingError>)
        ensures
            match r {
                Ok(ring) => {
                    &&& ring.wf()
                    &&& ring.blocks@ == blocks@
                    &&& ring.index == 0
                },
                Err(e) => {
                    &&& e == RingError::OutOfBounds
                    &&& (blocks@.len() == 0 || exists|i: int|
                        0 <= i < blocks@.len() && (#[trigger] blocks@[i])@.len()
                            < BLOCK_HEADER_LEN)
                },
            },
    {
        if blocks.len() == 0 {
            return Err(RingError::OutOfBounds);
        }
        let mut i: usize = 0;
        while i < blocks.len()
            invariant
                i <= blocks@.len(),
                forall|j: int|
                    0 <= j < i ==> (#[trigger] blocks@[j])@.len() >= BLOCK_HEADER_LEN,
            decreases blocks@.len() - i,
        {
            if blocks[i].len() < BLOCK_HEADER_LEN {
                return Err(RingError::OutOfBounds);
            }
            i = i + 1;
        }
        Ok(PacketRing { blocks, index: 0 })
    }

    /// Is the block at the round-robin position ready for userspace?
    pub fn is_ready(&self) -> (r: bool)
        requires
            self.wf(),
        ensures
            r == (spec_block_status(self.blocks@[self.index as int]@) != 0),
    {
        block_is_ready(&self.blocks[self.index])
    }

    /// What one poll round yields: the polled block's index once its status
    /// word is nonzero, nothing while the kernel still owns it.
    pub open spec fn poll_spec(&self) -> Option<usize> {
        if spec_block_status(self.blocks@[self.index as int]@) != 0 {
            Some(self.index)
        } else {
            None
        }
    }

    /// One poll round of the blocking consumer loop: if the block at the
    /// round-robin position is ready its index is handed out and the
    /// position advances, wrapping at the end of the ring; while the
    /// kernel still owns that block, nothing changes and the caller is to
    /// wait out one poll interval before the next round.
    pub fn try_get_next(&mut self) -> (r: Option<usize>)
        requires
            old(self).wf(),
        ensures
            final(self).wf(),
            final(self).blocks@ == old(self).blocks@,
            r == old(self).poll_spec(),
            r is Some ==> final(self).index == (old(self).index + 1) % (
            old(self).blocks@.len() as int),
            r is None ==> *final(self) == *old(self),
    {
        if !self.is_ready() {
            return None;
        }
        let n = self.blocks.len();
        let i = self.index;
        if self.index + 1 == self.blocks.len() {
            proof {
                vstd::arithmetic::div_mod::lemma_mod_self_0(self.blocks@.len() as int);
            }
            self.index = 0;
        } else {
            proof {
                vstd::arithmetic::div_mod::lemma_small_mod(
                    (self.index + 1) as nat,
                    self.blocks@.len() as nat,
                );
            }
            self.index = self.index + 1;
        }
        Some(i)
    }

    /// Reads the packets of the block at `i` and returns it to the kernel.
    pub fn consume_at(&mut self, i: usize) -> (r: Result<Vec<CapturedPacket>, RingError>)
        requires
            old(self).wf(),
            i < old(self).blocks@.len(),
        ensures
            final(self).wf(),
            final(self).index == old(self).index,
            final(self).blocks@.len() == old(self).blocks@.len(),
            forall|j: int|
                0 <= j < old(self).blocks@.len() && j != i ==> final(self).blocks@[j] == old(
                    self,
                ).blocks@[j],
            match r {
                Ok(v) => {
                    &&& spec_block_version(old(self).blocks@[i as int]@) == 1
                    &&& v@.len() == spec_num_pkts(old(self).blocks@[i as int]@)
                    &&& forall|k: int|
                        0 <= k < v@.len() ==> #[trigger] v@[k] == spec_packet_at(
                            old(self).blocks@[i as int]@,
                            spec_chain_off(old(self).blocks@[i as int]@, k),
                        )
                    &&& spec_block_status(final(self).blocks@[i as int]@) == 0
                },
                Err(_) => final(self).blocks@[i as int]@ == old(self).blocks@[i as int]@,
            },
    {
        let block = &mut self.blocks[i];
        let r = consume_block(block);
        r
    }
}

/// The poll protocol makes no progress while the kernel owns every block,
/// and yields the polled block in the round that finds its status word
/// nonzero.
pub proof fn lemma_poll_round(ring: PacketRing)
    requires
        ring.wf(),
    ensures
        (forall|i: int|
            0 <= i < ring.blocks@.len() ==> spec_block_status(
                (#[trigger] ring.blocks@[i])@,
            ) == 0) ==> ring.poll_spec() is None,
        spec_block_status(ring.blocks@[ring.index as int]@) != 0 ==> ring.poll_spec() == Some(
            ring.index,
        ),
{
}


/// Round-robin cursor over the blocks of a ring that lives elsewhere, for a
/// consumer that polls the mapped memory itself and only needs the
/// positional bookkeeping.
pub struct RingCursor {
    /// Number of blocks in the ring; never zero.
    pub block_count: u32,
    /// Index of the block the consumer polls next.
    pub index: u32,
}

impl RingCursor {
    /// A cursor is well formed when it points inside the ring.
    pub open spec fn wf(&self) -> bool {
        self.block_count > 0 && self.index < self.block_count
    }

    /// Creates a cursor positioned on the first block.
    pub fn new(block_count: u32) -> (r: RingCursor)
        requires
            block_count > 0,
        ensures
            r.wf(),
            r.block_count == block_count,
            r.index == 0,
    {
        RingCursor { block_count, index: 0 }
    }

    /// Advances to the following block, wrapping at the end of the ring.
    pub fn advance(&mut self)
        requires
            old(self).wf(),
        ensures
            final(self).wf(),
            final(self).block_count == old(self).block_count,
            final(self).index == (old(self).index + 1) % (old(self).block_count as int),
    {
        if self.index + 1 == self.block_count {
            proof {
                vstd::arithmetic::div_mod::lemma_mod_self_0(self.block_count as int);
            }
            self.index = 0;
        } else {
            proof {
                vstd::arithmetic::div_mod::lemma_small_mod(
                    (self.index + 1) as nat,
                    self.block_count as nat,
                );
            }
            self.index = self.index + 1;
        }
    }
}

} // verus!
