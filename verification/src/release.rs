//! The running kernel's identity: its release triple and the packed form the
//! program-load payload carries.

use vstd::prelude::*;
use vstd::string::StringSliceAdditionalSpecFns;

verus! {

/// Is `b` the code of a decimal digit?
pub open spec fn spec_is_digit(b: u8) -> bool {
    48 <= b <= 57
}

/// Every byte of `s` is a decimal digit.
pub open spec fn spec_all_digits(s: Seq<u8>) -> bool {
    forall|i: int| 0 <= i < s.len() ==> spec_is_digit(#[trigger] s[i])
}

/// The number the decimal digits of `s` spell, most significant first.
pub open spec fn spec_digits_value(s: Seq<u8>) -> int
    decreases s.len(),
{
    if s.len() == 0 {
        0
    } else {
        spec_digits_value(s.drop_last()) * 10 + (s.last() - 48)
    }
}

/// The digits of a numeric component, with an optional leading plus sign
/// stripped.
pub open spec fn spec_component_digits(s: Seq<u8>) -> Seq<u8> {
    if s.len() > 0 && s[0] == 43 {
        s.skip(1)
    } else {
        s
    }
}

/// The component parses as an 8-bit number: after the optional sign, at
/// least one byte, all digits, value below 256.
pub open spec fn spec_component_ok(s: Seq<u8>) -> bool {
    let d = spec_component_digits(s);
    &&& d.len() >= 1
    &&& spec_all_digits(d)
    &&& spec_digits_value(d) <= 255
}

/// The number a well-formed component spells.
pub open spec fn spec_component_value(s: Seq<u8>) -> int {
    spec_digits_value(spec_component_digits(s))
}

/// How many bytes of `s` are the separator dot.
pub open spec fn spec_dot_count(s: Seq<u8>) -> int
    decreases s.len(),
{
    if s.len() == 0 {
        0
    } else {
        spec_dot_count(s.drop_last()) + if s.last() == 46 {
            1int
        } else {
            0int
        }
    }
}

/// Index of the first separator dot.
pub open spec fn spec_first_dot(s: Seq<u8>) -> int
    decreases s.len(),
{
    if s.len() == 0 {
        0
    } else if s[0] == 46 {
        0
    } else {
        1 + spec_first_dot(s.skip(1))
    }
}

/// The three parts of `a.b.c`, split at the first two dots.
pub open spec fn spec_release_parts(s: Seq<u8>) -> (Seq<u8>, Seq<u8>, Seq<u8>) {
    let i = spec_first_dot(s);
    let rest = s.skip(i + 1);
    let j = spec_first_dot(rest);
    (s.take(i), rest.take(j), rest.skip(j + 1))
}

/// The byte string has the shape `a.b.c` with exactly two dots and three
/// numeric components.
pub open spec fn spec_release_ok(s: Seq<u8>) -> bool {
    let (a, b, c) = spec_release_parts(s);
    &&& spec_dot_count(s) == 2
    &&& spec_component_ok(a)
    &&& spec_component_ok(b)
    &&& spec_component_ok(c)
}

/// The value a digit string spells never shrinks as digits are appended.
proof fn lemma_digits_value_monotone(s: Seq<u8>, t: int)
    requires
        spec_all_digits(s),
        0 <= t <= s.len(),
    ensures
        spec_digits_value(s.take(t)) <= spec_digits_value(s),
        spec_digits_value(s) >= 0,
    decreases s.len(),
{
    if s.len() > 0 {
        assert(spec_all_digits(s.drop_last()));
        lemma_digits_value_monotone(s.drop_last(), if t <= s.len() - 1 {
            t
        } else {
            s.len() - 1
        });
        if t <= s.len() - 1 {
            assert(s.take(t) =~= s.drop_last().take(t));
        } else {
            assert(s.take(t) =~= s);
        }
    } else {
        assert(s.take(t) =~= s);
    }
}

/// A scan that stops at the first dot computes `spec_first_dot`.
proof fn lemma_first_dot_at(s: Seq<u8>, i: int)
    requires
        0 <= i < s.len(),
        s[i] == 46,
        forall|j: int| 0 <= j < i ==> s[j] != 46,
    ensures
        spec_first_dot(s) == i,
    decreases s.len(),
{
    if s[0] != 46 {
        assert(s.skip(1)[i - 1] == 46);
        assert forall|j: int| 0 <= j < i - 1 implies s.skip(1)[j] != 46 by {
            assert(s.skip(1)[j] == s[j + 1]);
        }
        lemma_first_dot_at(s.skip(1), i - 1);
    }
}

/// Release triple of the running kernel, as `uname` reports it.
#[derive(Clone, Copy, Debug, PartialEq, Eq, Structural)]
pub struct KernelRelease {
    pub major: u8,
    pub minor: u8,
    pub patch: u8,
}

/// Parses the digits of one numeric component of the release string.
fn parse_component(b: &Vec<u8>, lo: usize, hi: usize) -> (r: Option<u8>)
    requires
        lo <= hi <= b@.len(),
    ensures
        match r {
            Some(v) => spec_component_ok(b@.subrange(lo as int, hi as int)) && v
                == spec_component_value(b@.subrange(lo as int, hi as int)),
            None => !spec_component_ok(b@.subrange(lo as int, hi as int)),
        },
{
    let ghost sub = b@.subrange(lo as int, hi as int);
    let mut pos: usize = lo;
    if pos < hi && b[pos] == 43 {
        pos = pos + 1;
    }
    let ghost d = spec_component_digits(sub);
    proof {
        assert(d =~= b@.subrange(pos as int, hi as int));
    }
    if pos == hi {
        return None;
    }
    let mut value: u32 = 0;
    let mut t: usize = pos;
    while t < hi
        invariant
            lo <= pos <= t <= hi <= b@.len(),
            sub == b@.subrange(lo as int, hi as int),
            d == spec_component_digits(sub),
            d == b@.subrange(pos as int, hi as int),
            spec_all_digits(d.take(t - pos)),
            value == spec_digits_value(d.take(t - pos)),
            value <= 255,
        decreases hi - t,
    {
        let c = b[t];
        if c < 48 || c > 57 {
            assert(d[t - pos] == c);
            return None;
        }
        let digit = (c - 48) as u32;
        let next = value * 10 + digit;
        proof {
            assert(d.take(t + 1 - pos).drop_last() =~= d.take(t - pos));
            assert(d.take(t + 1 - pos).last() == c);
        }
        if next > 255 {
            proof {
                if spec_component_ok(sub) {
                    lemma_digits_value_monotone(d, t + 1 - pos);
                }
            }
            return None;
        }
        value = next;
        t = t + 1;
    }
    proof {
        assert(d.take(hi - pos as int) =~= d);
    }
    Some(value as u8)
}

impl KernelRelease {
    /// Builds the triple from its parts.
    pub fn new(major: u8, minor: u8, patch: u8) -> (r: KernelRelease)
        ensures
            r == (KernelRelease { major, minor, patch }),
    {
        KernelRelease { major, minor, patch }
    }

    /// Parses a release string of the shape `a.b.c`, each part an 8-bit
    /// decimal number with an optional plus sign; anything else is `None`.
    pub fn from_string(s: &str) -> (r: Option<KernelRelease>)
        ensures
            r is Some <==> spec_release_ok(s.spec_bytes()),
            (match r {
                Some(kr) => {
                    let (a, b, c) = spec_release_parts(s.spec_bytes());
                    &&& kr.major == spec_component_value(a)
                    &&& kr.minor == spec_component_value(b)
                    &&& kr.patch == spec_component_value(c)
                },
                None => true,
            }),
    {
        let bytes = crate::elf::str_to_bytes(s);
        let ghost bs = s.spec_bytes();
        let n = bytes.len();
        let mut d1: usize = 0;
        let mut d2: usize = 0;
        let mut cnt: usize = 0;
        let mut i: usize = 0;
        while i < n
            invariant
                bytes@ == bs,
                n == bs.len(),
                i <= n,
                cnt <= i,
                cnt == spec_dot_count(bs.take(i as int)),
                cnt >= 1 ==> d1 < i && bs[d1 as int] == 46 && (forall|j: int|
                    0 <= j < d1 ==> bs[j] != 46),
                cnt >= 2 ==> d1 < d2 < i && bs[d2 as int] == 46 && (forall|j: int|
                    d1 < j < d2 ==> bs[j] != 46),
                cnt == 0 ==> (forall|j: int| 0 <= j < i ==> bs[j] != 46),
                cnt == 1 ==> (forall|j: int| d1 < j < i ==> bs[j] != 46),
            decreases n - i,
        {
            proof {
                assert(bs.take(i + 1).drop_last() =~= bs.take(i as int));
                assert(bs.take(i + 1).last() == bs[i as int]);
            }
            if bytes[i] == 46 {
                if cnt == 0 {
                    d1 = i;
                } else if cnt == 1 {
                    d2 = i;
                }
                cnt = cnt + 1;
            }
            i = i + 1;
        }
        proof {
            assert(bs.take(n as int) =~= bs);
        }
        if cnt != 2 {
            return None;
        }
        proof {
            lemma_first_dot_at(bs, d1 as int);
            let rest = bs.skip(d1 + 1);
            assert(rest[d2 - d1 - 1] == 46);
            assert forall|j: int| 0 <= j < d2 - d1 - 1 implies rest[j] != 46 by {
                assert(rest[j] == bs[d1 + 1 + j]);
            }
            lemma_first_dot_at(rest, d2 - d1 - 1);
            let (a, b, c) = spec_release_parts(bs);
            assert(a =~= bs.subrange(0, d1 as int));
            assert(b =~= bs.subrange(d1 + 1, d2 as int));
            assert(c =~= bs.subrange(d2 + 1, n as int));
        }
        let major = match parse_component(&bytes, 0, d1) {
            Some(v) => v,
            None => {
                return None;
            },
        };
        let minor = match parse_component(&bytes, d1 + 1, d2) {
            Some(v) => v,
            None => {
                return None;
            },
        };
        let patch = match parse_component(&bytes, d2 + 1, n) {
            Some(v) => v,
            None => {
                return None;
            },
        };
        Some(KernelRelease { major, minor, patch })
    }

    /// Packs the triple as the kernel-version word of the program-load
    /// payload: `major` in bits 16 and up, `minor` in bits 8 to 15, `patch`
    /// in the low byte.
    pub fn pack(&self) -> (r: u32)
        ensures
            r == self.major * 0x10000 + self.minor * 0x100 + self.patch,
    {
        (self.major as u32) * 0x10000 + (self.minor as u32) * 0x100 + (self.patch as u32)
    }
}

/// What `uname` reports of the running kernel, with the release parsed.
#[derive(Clone, Debug)]
pub struct KernelInfo {
    pub sysname: String,
    pub nodename: String,
    pub release: KernelRelease,
    pub version: String,
    pub machine: String,
    pub domainname: String,
}

} // verus!
