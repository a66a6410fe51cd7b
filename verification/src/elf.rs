//! Extraction of eBPF bytecode and license text from an object file.
//!
//! The object file is treated as a byte arena: a 64-bit little-endian
//! section-table header is decoded with bounds checks, sections are located
//! by the caller-supplied names, and the program section's bytes are read as
//! 8-byte instruction words.  No relocation or symbol resolution is
//! attempted; a single self-contained bytecode section is assumed.

use crate::program::ProgramData;
use vstd::bytes::{
    spec_u16_from_le_bytes,
    spec_u32_from_le_bytes,
    spec_u64_from_le_bytes,
    u16_from_le_bytes,
    u32_from_le_bytes,
    u64_from_le_bytes,
};
use vstd::prelude::*;
use vstd::string::StringSliceAdditionalSpecFns;
use vstd::slice::slice_subrange;

verus! {

/// Failure to extract a program from an object file.
#[derive(Clone, Debug, PartialEq, Eq)]
pub enum LoadError {
    Unspec,
    Other(String),
    /// No section carries the given name.
    CantGetSection(Vec<u8>),
    /// The named section's data lies outside the file.
    CantGetSectionData(Vec<u8>),
    /// The file is not a little-endian 64-bit object with a readable
    /// section table.
    CantGetSectionBytes,
    /// The program section's byte length is not a multiple of the 8-byte
    /// instruction size.
    PartialInstruction,
}

/// The 16-bit little-endian word at `off`.
pub open spec fn spec_le16(b: Seq<u8>, off: int) -> u16 {
    spec_u16_from_le_bytes(b.subrange(off, off + 2))
}

/// The 32-bit little-endian word at `off`.
pub open spec fn spec_le32(b: Seq<u8>, off: int) -> u32 {
    spec_u32_from_le_bytes(b.subrange(off, off + 4))
}

/// The 64-bit little-endian word at `off`.
pub open spec fn spec_le64(b: Seq<u8>, off: int) -> u64 {
    spec_u64_from_le_bytes(b.subrange(off, off + 8))
}

/// The file starts with the object-file magic and declares a 64-bit
/// little-endian layout, and the fixed header fits.
pub open spec fn spec_header_ok(b: Seq<u8>) -> bool {
    &&& b.len() >= 64
    &&& b[0] == 0x7fu8
    &&& b[1] == 0x45u8
    &&& b[2] == 0x4cu8
    &&& b[3] == 0x46u8
    &&& b[4] == 2u8
    &&& b[5] == 1u8
}

/// Start of the section-header table.
pub open spec fn spec_shoff(b: Seq<u8>) -> int {
    spec_le64(b, 0x28) as int
}

/// Size of one section-header entry.
pub open spec fn spec_shentsize(b: Seq<u8>) -> int {
    spec_le16(b, 0x3a) as int
}

/// Number of section-header entries.
pub open spec fn spec_shnum(b: Seq<u8>) -> int {
    spec_le16(b, 0x3c) as int
}

/// Index of the section holding the section names.
pub open spec fn spec_shstrndx(b: Seq<u8>) -> int {
    spec_le16(b, 0x3e) as int
}

/// The whole section table can be read: plausible entry size, table inside
/// the file, name-table index inside the table.
pub open spec fn spec_table_ok(b: Seq<u8>) -> bool {
    &&& spec_header_ok(b)
    &&& spec_shentsize(b) >= 64
    &&& spec_shnum(b) * spec_shentsize(b) <= b.len()
    &&& spec_shoff(b) <= b.len() - spec_shnum(b) * spec_shentsize(b)
    &&& spec_shstrndx(b) < spec_shnum(b)
}

/// Offset of section-header entry `i`.
pub open spec fn spec_entry_off(b: Seq<u8>, i: int) -> int {
    spec_shoff(b) + i * spec_shentsize(b)
}

/// Name-table position of section `i`'s name.
pub open spec fn spec_sh_name(b: Seq<u8>, i: int) -> int {
    spec_le32(b, spec_entry_off(b, i)) as int
}

/// File offset of section `i`'s data.
pub open spec fn spec_sh_offset(b: Seq<u8>, i: int) -> int {
    spec_le64(b, spec_entry_off(b, i) + 24) as int
}

/// Byte length of section `i`'s data.
pub open spec fn spec_sh_size(b: Seq<u8>, i: int) -> int {
    spec_le64(b, spec_entry_off(b, i) + 32) as int
}

/// Section `i`'s data lies inside the file.
pub open spec fn spec_data_ok(b: Seq<u8>, i: int) -> bool {
    &&& spec_sh_size(b, i) <= b.len()
    &&& spec_sh_offset(b, i) <= b.len() - spec_sh_size(b, i)
}

/// Section `i`'s data, taken verbatim.
pub open spec fn spec_section_bytes(b: Seq<u8>, i: int) -> Seq<u8> {
    b.subrange(spec_sh_offset(b, i), spec_sh_offset(b, i) + spec_sh_size(b, i))
}

/// Section `i` carries the name `name`: the bytes at its name-table
/// position match and are closed by a zero byte, all inside the file.
pub open spec fn spec_name_matches(b: Seq<u8>, i: int, name: Seq<u8>) -> bool {
    let p = spec_sh_offset(b, spec_shstrndx(b)) + spec_sh_name(b, i);
    &&& p + name.len() + 1 <= b.len()
    &&& b.subrange(p, p + name.len() as int) == name
    &&& b[p + name.len() as int] == 0u8
}

/// First section at index `i` or later carrying `name`.
pub open spec fn spec_find_section_from(b: Seq<u8>, name: Seq<u8>, i: int) -> Option<int>
    decreases spec_shnum(b) - i,
{
    if i < 0 || i >= spec_shnum(b) {
        None
    } else if spec_name_matches(b, i, name) {
        Some(i)
    } else {
        spec_find_section_from(b, name, i + 1)
    }
}

/// First section carrying `name`.
pub open spec fn spec_find_section(b: Seq<u8>, name: Seq<u8>) -> Option<int> {
    spec_find_section_from(b, name, 0)
}

/// Index of the first section carrying `name`, where one exists.
pub open spec fn spec_section_index(b: Seq<u8>, name: Seq<u8>) -> int {
    spec_find_section(b, name)->Some_0
}

/// A scan that stops at the first matching index computes `spec_find_section`.
proof fn lemma_find_section_at(b: Seq<u8>, name: Seq<u8>, i: int)
    requires
        0 <= i < spec_shnum(b),
        spec_name_matches(b, i, name),
        forall|j: int| 0 <= j < i ==> !spec_name_matches(b, j, name),
    ensures
        spec_find_section(b, name) == Some(i),
{
    lemma_find_section_from_at(b, name, 0, i);
}

proof fn lemma_find_section_from_at(b: Seq<u8>, name: Seq<u8>, lo: int, i: int)
    requires
        0 <= lo <= i < spec_shnum(b),
        spec_name_matches(b, i, name),
        forall|j: int| lo <= j < i ==> !spec_name_matches(b, j, name),
    ensures
        spec_find_section_from(b, name, lo) == Some(i),
    decreases i - lo,
{
    if lo < i {
        lemma_find_section_from_at(b, name, lo + 1, i);
    }
}

/// A scan that matches nowhere computes `None`.
proof fn lemma_find_section_none(b: Seq<u8>, name: Seq<u8>)
    requires
        forall|j: int| 0 <= j < spec_shnum(b) ==> !spec_name_matches(b, j, name),
    ensures
        spec_find_section(b, name) is None,
{
    lemma_find_section_from_none(b, name, 0);
}

proof fn lemma_find_section_from_none(b: Seq<u8>, name: Seq<u8>, lo: int)
    requires
        0 <= lo,
        forall|j: int| lo <= j < spec_shnum(b) ==> !spec_name_matches(b, j, name),
    ensures
        spec_find_section_from(b, name, lo) is None,
    decreases spec_shnum(b) - lo,
{
    if lo < spec_shnum(b) {
        lemma_find_section_from_none(b, name, lo + 1);
    }
}

/// Reads the 16-bit little-endian word at `off`.
fn read_le16(file: &Vec<u8>, off: usize) -> (r: u16)
    requires
        off + 2 <= file@.len(),
    ensures
        r == spec_le16(file@, off as int),
{
    let n = file.len();
    u16_from_le_bytes(slice_subrange(file.as_slice(), off, off + 2))
}

/// Reads the 32-bit little-endian word at `off`.
fn read_le32(file: &Vec<u8>, off: usize) -> (r: u32)
    requires
        off + 4 <= file@.len(),
    ensures
        r == spec_le32(file@, off as int),
{
    let n = file.len();
    u32_from_le_bytes(slice_subrange(file.as_slice(), off, off + 4))
}

/// Reads the 64-bit little-endian word at `off`.
fn read_le64(file: &Vec<u8>, off: usize) -> (r: u64)
    requires
        off + 8 <= file@.len(),
    ensures
        r == spec_le64(file@, off as int),
{
    let n = file.len();
    u64_from_le_bytes(slice_subrange(file.as_slice(), off, off + 8))
}

/// Copies the bytes of a section out of the file, given the bounds its
/// header states; bounds outside the file fail.
pub fn extract_undefined_section(file: &Vec<u8>, offset: u64, size: u64) -> (r: Result<
    Vec<u8>,
    LoadError,
>)
    ensures
        match r {
            Ok(v) => size <= file@.len() && offset <= file@.len() - size && v@ == file@.subrange(
                offset as int,
                offset as int + size as int,
            ),
            Err(e) => e == LoadError::CantGetSectionBytes && !(size <= file@.len() && offset
                <= file@.len() - size),
        },
{
    let len = file.len();
    if size > len as u64 || offset > len as u64 - size {
        return Err(LoadError::CantGetSectionBytes);
    }
    let mut v: Vec<u8> = Vec::new();
    let mut j: usize = 0;
    while j < size as usize
        invariant
            file@.len() <= usize::MAX,
            offset + size <= file@.len(),
            j <= size,
            v@ =~= file@.subrange(offset as int, offset as int + j as int),
        decreases size - j,
    {
        v.push(file[offset as usize + j]);
        j = j + 1;
        assert(v@ =~= file@.subrange(offset as int, offset as int + j as int));
    }
    Ok(v)
}

/// An object file together with the names of the sections that carry the
/// license text and the program bytecode.
pub struct ProgramInfo {
    pub elf_file: Vec<u8>,
    pub license_classifier: Vec<u8>,
    pub program_classifier: Vec<u8>,
}

impl ProgramInfo {
    /// Bundles an object file with the two section names to extract.
    pub fn new(elf_file: Vec<u8>, license_classifier: &str, program_classifier: &str) -> (r:
        ProgramInfo)
        ensures
            r.elf_file@ == elf_file@,
            r.license_classifier@ == license_classifier.spec_bytes(),
            r.program_classifier@ == program_classifier.spec_bytes(),
    {
        ProgramInfo {
            elf_file,
            license_classifier: crate::elf::str_to_bytes(license_classifier),
            program_classifier: crate::elf::str_to_bytes(program_classifier),
        }
    }

    /// Does section `i` carry the name `name`?
    fn name_matches(&self, strtab_off: u64, i: usize, name: &Vec<u8>) -> (r: bool)
        requires
            spec_table_ok(self.elf_file@),
            i < spec_shnum(self.elf_file@),
            strtab_off == spec_sh_offset(self.elf_file@, spec_shstrndx(self.elf_file@)),
        ensures
            r == spec_name_matches(self.elf_file@, i as int, name@),
    {
        let b = &self.elf_file;
        let ghost bs = self.elf_file@;
        proof {
            lemma_entry_in_file(bs, i as int);
        }
        let entry: usize = self.entry_off(i);
        let sh_name: u32 = read_le32(b, entry);
        let p128: u128 = strtab_off as u128 + sh_name as u128;
        let end128: u128 = p128 + name.len() as u128 + 1;
        if end128 > b.len() as u128 {
            return false;
        }
        let p: usize = strtab_off as usize + sh_name as usize;
        if b[p + name.len()] != 0 {
            return false;
        }
        let mut j: usize = 0;
        while j < name.len()
            invariant
                spec_table_ok(bs),
                b@ == bs,
                self.elf_file@ == bs,
                bs.len() <= usize::MAX,
                p == spec_sh_offset(bs, spec_shstrndx(bs)) + spec_sh_name(bs, i as int),
                p + name@.len() + 1 <= bs.len(),
                j <= name@.len(),
                forall|t: int| 0 <= t < j ==> bs[p + t] == name@[t],
            decreases name@.len() - j,
        {
            if b[p + j] != name[j] {
                assert(bs.subrange(p as int, p + name@.len() as int)[j as int] != name@[j as int]);
                return false;
            }
            j = j + 1;
        }
        proof {
            assert(bs.subrange(p as int, p + name@.len() as int) =~= name@);
        }
        true
    }

    /// Offset of section-header entry `i`, as a checked machine word.
    fn entry_off(&self, i: usize) -> (r: usize)
        requires
            spec_table_ok(self.elf_file@),
            i < spec_shnum(self.elf_file@),
        ensures
            r == spec_entry_off(self.elf_file@, i as int),
            r + 64 <= self.elf_file@.len(),
    {
        proof {
            lemma_entry_in_file(self.elf_file@, i as int);
        }
        let flen = self.elf_file.len();
        let shoff = read_le64(&self.elf_file, 0x28) as usize;
        let shentsize = read_le16(&self.elf_file, 0x3a) as usize;
        shoff + i * shentsize
    }

    /// Index of the first section carrying `name`.
    fn find_section(&self, name: &Vec<u8>) -> (r: Option<usize>)
        requires
            spec_table_ok(self.elf_file@),
        ensures
            match r {
                Some(i) => spec_find_section(self.elf_file@, name@) == Some(i as int) && i
                    < spec_shnum(self.elf_file@),
                None => spec_find_section(self.elf_file@, name@) is None,
            },
    {
        let ghost bs = self.elf_file@;
        proof {
            lemma_entry_in_file(bs, spec_shstrndx(bs));
        }
        let flen = self.elf_file.len();
        let shnum = read_le16(&self.elf_file, 0x3c) as usize;
        let shstrndx = read_le16(&self.elf_file, 0x3e) as usize;
        let strtab_entry = self.entry_off(shstrndx);
        let strtab_off = read_le64(&self.elf_file, strtab_entry + 24);
        let mut i: usize = 0;
        while i < shnum
            invariant
                spec_table_ok(bs),
                self.elf_file@ == bs,
                shnum == spec_shnum(bs),
                strtab_off == spec_sh_offset(bs, spec_shstrndx(bs)),
                i <= shnum,
                forall|j: int| 0 <= j < i ==> !spec_name_matches(bs, j, name@),
            decreases shnum - i,
        {
            if self.name_matches(strtab_off, i, name) {
                proof {
                    lemma_find_section_at(bs, name@, i as int);
                }
                return Some(i);
            }
            i = i + 1;
        }
        proof {
            lemma_find_section_none(bs, name@);
        }
        None
    }

    /// Pulls the license bytes and the 8-byte instruction words out of the
    /// object file.  Success is owed exactly when the file has a readable
    /// section table, both named sections exist with their data inside the
    /// file, and the program section's length is a multiple of eight.
    pub fn attempt_load(&self) -> (r: Result<ProgramData, LoadError>)
        ensures
            ({
                let b = self.elf_file@;
                let ln = self.license_classifier@;
                let pn = self.program_classifier@;
                match r {
                    Ok(pd) => {
                        &&& spec_table_ok(b)
                        &&& spec_find_section(b, ln) matches Some(li) && spec_data_ok(b, li)
                            && pd.license@ == spec_section_bytes(b, li)
                        &&& spec_find_section(b, pn) matches Some(pi) && spec_data_ok(b, pi)
                            && spec_sh_size(b, pi) % 8 == 0 && pd.instructions@.len() * 8
                            == spec_sh_size(b, pi) && (forall|c: int|
                            0 <= c < pd.instructions@.len() ==> pd.instructions@[c] == spec_le64(
                                b,
                                spec_sh_offset(b, pi) + 8 * c,
                            ))
                    },
                    Err(e) => match e {
                        LoadError::CantGetSectionBytes => !spec_table_ok(b),
                        LoadError::CantGetSection(n) => spec_table_ok(b) && ((n@ == ln
                            && spec_find_section(b, ln) is None) || (n@ == pn && spec_find_section(
                            b,
                            ln,
                        ) is Some && spec_data_ok(b, spec_find_section(b, ln)->Some_0)
                            && spec_find_section(b, pn) is None)),
                        LoadError::CantGetSectionData(n) => spec_table_ok(b) && ((n@ == ln
                            && spec_find_section(b, ln) is Some && !spec_data_ok(
                            b,
                            spec_find_section(b, ln)->Some_0,
                        )) || (n@ == pn && spec_find_section(b, ln) is Some && spec_data_ok(
                            b,
                            spec_find_section(b, ln)->Some_0,
                        ) && spec_find_section(b, pn) is Some && !spec_data_ok(
                            b,
                            spec_find_section(b, pn)->Some_0,
                        ))),
                        LoadError::PartialInstruction => spec_table_ok(b) && spec_find_section(
                            b,
                            ln,
                        ) is Some && spec_data_ok(b, spec_find_section(b, ln)->Some_0)
                            && spec_find_section(b, pn) is Some && spec_data_ok(
                            b,
                            spec_find_section(b, pn)->Some_0,
                        ) && spec_sh_size(b, spec_section_index(b, pn)) % 8 != 0,
                        _ => false,
                    },
                }
            }),
    {
        let ghost bs = self.elf_file@;
        let flen = self.elf_file.len();
        if !self.table_ok() {
            return Err(LoadError::CantGetSectionBytes);
        }
        let li = match self.find_section(&self.license_classifier) {
            Some(i) => i,
            None => {
                return Err(LoadError::CantGetSection(clone_bytes(&self.license_classifier)));
            },
        };
        let l_entry = self.entry_off(li);
        let l_off = read_le64(&self.elf_file, l_entry + 24);
        let l_size = read_le64(&self.elf_file, l_entry + 32);
        let license = match extract_undefined_section(&self.elf_file, l_off, l_size) {
            Ok(v) => v,
            Err(_) => {
                return Err(LoadError::CantGetSectionData(clone_bytes(&self.license_classifier)));
            },
        };
        let pi = match self.find_section(&self.program_classifier) {
            Some(i) => i,
            None => {
                return Err(LoadError::CantGetSection(clone_bytes(&self.program_classifier)));
            },
        };
        let p_entry = self.entry_off(pi);
        let p_off = read_le64(&self.elf_file, p_entry + 24);
        let p_size = read_le64(&self.elf_file, p_entry + 32);
        let len = self.elf_file.len();
        if p_size > len as u64 || p_off > len as u64 - p_size {
            return Err(LoadError::CantGetSectionData(clone_bytes(&self.program_classifier)));
        }
        if p_size % 8 != 0 {
            return Err(LoadError::PartialInstruction);
        }
        proof {
            vstd::arithmetic::div_mod::lemma_fundamental_div_mod(p_size as int, 8);
        }
        let count = (p_size / 8) as usize;
        let mut instructions: Vec<u64> = Vec::new();
        let mut c: usize = 0;
        while c < count
            invariant
                self.elf_file@ == bs,
                bs.len() <= usize::MAX,
                p_off + p_size <= bs.len(),
                count * 8 == p_size,
                c <= count,
                p_off == spec_sh_offset(bs, spec_find_section(bs, self.program_classifier@)->Some_0),
                instructions@.len() == c,
                forall|t: int|
                    0 <= t < c ==> #[trigger] instructions@[t] == spec_le64(
                        bs,
                        p_off + 8 * t,
                    ),
            decreases count - c,
        {
            assert(8 * c + 8 <= p_size);
            let w = read_le64(&self.elf_file, p_off as usize + 8 * c);
            instructions.push(w);
            c = c + 1;
            assert(instructions@[c - 1] == spec_le64(bs, p_off + 8 * (c - 1)));
        }
        Ok(ProgramData { instructions, license })
    }

    /// Checks the fixed header and the section table's bounds.
    fn table_ok(&self) -> (r: bool)
        ensures
            r == spec_table_ok(self.elf_file@),
    {
        let b = &self.elf_file;
        let len = b.len();
        if len < 64 {
            return false;
        }
        if !(b[0] == 0x7f && b[1] == 0x45 && b[2] == 0x4c && b[3] == 0x46 && b[4] == 2 && b[5]
            == 1) {
            return false;
        }
        let shoff = read_le64(b, 0x28);
        let shentsize = read_le16(b, 0x3a) as u64;
        let shnum = read_le16(b, 0x3c) as u64;
        let shstrndx = read_le16(b, 0x3e) as u64;
        if shentsize < 64 {
            return false;
        }
        proof {
            assert(shnum * shentsize <= 0xffff * 0xffff) by (nonlinear_arith)
                requires
                    shnum <= 0xffff,
                    shentsize <= 0xffff,
            ;
        }
        if shnum * shentsize > len as u64 {
            return false;
        }
        if shoff > len as u64 - shnum * shentsize {
            return false;
        }
        if shstrndx >= shnum {
            return false;
        }
        true
    }
}

/// Every entry of a readable section table lies inside the file.
proof fn lemma_entry_in_file(b: Seq<u8>, i: int)
    requires
        spec_table_ok(b),
        0 <= i < spec_shnum(b),
    ensures
        spec_entry_off(b, i) + 64 <= b.len(),
        spec_entry_off(b, i) + spec_shentsize(b) <= b.len(),
{
    let e = spec_shentsize(b);
    let n = spec_shnum(b);
    assert((i + 1) * e <= n * e) by (nonlinear_arith)
        requires
            i + 1 <= n,
            e >= 64,
    ;
    assert(i * e + e == (i + 1) * e) by (nonlinear_arith);
}

/// Copies a byte string.
fn clone_bytes(v: &Vec<u8>) -> (r: Vec<u8>)
    ensures
        r@ == v@,
{
    let mut out: Vec<u8> = Vec::new();
    let mut i: usize = 0;
    while i < v.len()
        invariant
            i <= v@.len(),
            out@ =~= v@.take(i as int),
        decreases v@.len() - i,
    {
        out.push(v[i]);
        i = i + 1;
        assert(out@ =~= v@.take(i as int));
    }
    proof {
        assert(v@.take(v@.len() as int) =~= v@);
    }
    out
}

/// Copies the bytes of a string slice.
pub fn str_to_bytes(s: &str) -> (r: Vec<u8>)
    ensures
        r@ == s.spec_bytes(),
{
    let sl = s.as_bytes();
    let mut out: Vec<u8> = Vec::new();
    let mut i: usize = 0;
    while i < sl.len()
        invariant
            sl@ == s.spec_bytes(),
            i <= sl@.len(),
            out@ =~= sl@.take(i as int),
        decreases sl@.len() - i,
    {
        out.push(*vstd::slice::slice_index_get(sl, i));
        i = i + 1;
        assert(out@ =~= sl@.take(i as int));
    }
    proof {
        assert(sl@.take(sl@.len() as int) =~= sl@);
    }
    out
}

} // verus!
