//! Binary rendering of payload bytes, for inspecting what a syscall will
//! hand to the kernel.

use vstd::prelude::*;

verus! {

/// The character for bit `i` of `b`, counting bit 0 as the most significant:
/// `'1'` where the bit is set, `'0'` where it is clear.
pub open spec fn spec_bit_char(b: u8, i: int) -> char {
    if (b as int) / spec_bit_weight(i) % 2 == 1 {
        '1'
    } else {
        '0'
    }
}

/// The place value of bit `i`, counting bit 0 as the most significant of
/// eight.
pub open spec fn spec_bit_weight(i: int) -> int {
    if i == 0 {
        128
    } else if i == 1 {
        64
    } else if i == 2 {
        32
    } else if i == 3 {
        16
    } else if i == 4 {
        8
    } else if i == 5 {
        4
    } else if i == 6 {
        2
    } else {
        1
    }
}

/// The eight binary digits of a byte, most significant first.
pub open spec fn spec_byte_bits(b: u8) -> Seq<char> {
    Seq::new(8, |i: int| spec_bit_char(b, i))
}

/// The rendering produced by [`generate_binary_table`]: the binary digits of
/// each byte, a space between bytes, and a newline closing each row of
/// `width` bytes (every byte, if `width` is zero).
pub open spec fn spec_binary_table(bytes: Seq<u8>, width: int) -> Seq<char>
    decreases bytes.len(),
{
    if bytes.len() == 0 {
        Seq::empty()
    } else {
        let sep: char = if width < 1 || bytes.len() as int % width == 0 {
            '\n'
        } else {
            ' '
        };
        spec_binary_table(bytes.drop_last(), width) + spec_byte_bits(bytes.last()).push(sep)
    }
}

/// Renders one byte as eight binary digits, most significant first.
pub fn byte_bits(b: u8) -> (r: String)
    ensures
        r@ == spec_byte_bits(b),
{
    let mut s = String::new();
    let mut i: usize = 0;
    while i < 8
        invariant
            i <= 8,
            s@.len() == i,
            forall|j: int| 0 <= j < i ==> s@[j] == spec_bit_char(b, j),
        decreases 8 - i,
    {
        let weight: u8 = match i {
            0 => 128,
            1 => 64,
            2 => 32,
            3 => 16,
            4 => 8,
            5 => 4,
            6 => 2,
            _ => 1,
        };
        proof {
            reveal_strlit("0");
            reveal_strlit("1");
        }
        assert(weight == spec_bit_weight(i as int));
        if (b / weight) % 2 == 1 {
            s.append("1");
        } else {
            s.append("0");
        }
        i = i + 1;
    }
    assert(s@ =~= spec_byte_bits(b));
    s
}

/// Renders each byte as its eight binary digits; `[1, 5]` becomes
/// `["00000001", "00000101"]`.
pub fn binary_vec_repr(x: &Vec<u8>) -> (r: Vec<String>)
    ensures
        r@.len() == x@.len(),
        forall|i: int| 0 <= i < x@.len() ==> #[trigger] r@[i]@ == spec_byte_bits(x@[i]),
{
    let mut out: Vec<String> = Vec::new();
    let mut i: usize = 0;
    while i < x.len()
        invariant
            i <= x@.len(),
            out@.len() == i,
            forall|j: int| 0 <= j < i ==> #[trigger] out@[j]@ == spec_byte_bits(x@[j]),
        decreases x@.len() - i,
    {
        out.push(byte_bits(x[i]));
        i = i + 1;
    }
    out
}

/// Lays the binary digits of the bytes out as a table that reads left to
/// right, top to bottom, `width` bytes per row.
pub fn generate_binary_table(x: &Vec<u8>, width: usize) -> (r: String)
    ensures
        r@ == spec_binary_table(x@, width as int),
{
    let mut s = String::new();
    let mut counter: usize = 0;
    let mut i: usize = 0;
    while i < x.len()
        invariant
            i <= x@.len(),
            s@ == spec_binary_table(x@.take(i as int), width as int),
            counter == if width < 1 {
                0int
            } else {
                i as int % width as int
            },
        decreases x@.len() - i,
    {
        proof {
            reveal_strlit(" ");
            reveal_strlit("\n");
        }
        let bits = byte_bits(x[i]);
        s.append(bits.as_str());
        counter = counter + 1;
        if counter >= width {
            counter = 0;
            s.append("\n");
        } else {
            s.append(" ");
        }
        i = i + 1;
        proof {
            let w = width as int;
            let i0 = i as int - 1;
            if width == 1 {
                vstd::arithmetic::div_mod::lemma_mod_bound(i0, 1);
                vstd::arithmetic::div_mod::lemma_mod_bound(i0 + 1, 1);
            } else if width > 1 {
                vstd::arithmetic::div_mod::lemma_mod_bound(i0, w);
                vstd::arithmetic::div_mod::lemma_small_mod(1nat, width as nat);
                vstd::arithmetic::div_mod::lemma_add_mod_noop(i0, 1, w);
                if i0 % w + 1 == w {
                    vstd::arithmetic::div_mod::lemma_mod_self_0(w);
                } else {
                    vstd::arithmetic::div_mod::lemma_small_mod((i0 % w + 1) as nat, width as nat);
                }
            }
            assert(x@.take(i as int).drop_last() =~= x@.take(i as int - 1));
            assert(x@.take(i as int).last() == x@[i as int - 1]);
            assert(s@ =~= spec_binary_table(x@.take(i as int), w));
        }
    }
    proof {
        assert(x@.take(x@.len() as int) =~= x@);
    }
    s
}

} // verus!
