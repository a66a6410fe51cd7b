use ebpf_kit::elf::{extract_undefined_section, LoadError, ProgramInfo};

fn put_u16(buf: &mut [u8], off: usize, v: u16) {
    buf[off..off + 2].copy_from_slice(&v.to_le_bytes());
}

fn put_u32(buf: &mut [u8], off: usize, v: u32) {
    buf[off..off + 4].copy_from_slice(&v.to_le_bytes());
}

fn put_u64(buf: &mut [u8], off: usize, v: u64) {
    buf[off..off + 8].copy_from_slice(&v.to_le_bytes());
}

/// Builds a minimal 64-bit little-endian object file holding the given
/// named sections, a null section and a section-name table.
fn build_object(sections: &[(&str, &[u8])]) -> Vec<u8> {
    // Name table: a leading zero byte, then each name with its terminator.
    let mut names: Vec<u8> = vec![0];
    let mut name_offsets = Vec::new();
    for (name, _) in sections {
        name_offsets.push(names.len() as u32);
        names.extend_from_slice(name.as_bytes());
        names.push(0);
    }

    // Layout: header, section data, name-table data, section headers.
    let mut data_offsets = Vec::new();
    let mut pos = 64usize;
    for (_, data) in sections {
        data_offsets.push(pos as u64);
        pos += data.len();
    }
    let names_offset = pos as u64;
    pos += names.len();
    let shoff = pos as u64;
    let shnum = (sections.len() + 2) as u16;
    let shstrndx = (sections.len() + 1) as u16;
    let total = pos + 64 * shnum as usize;

    let mut file = vec![0u8; total];
    file[0] = 0x7f;
    file[1] = b'E';
    file[2] = b'L';
    file[3] = b'F';
    file[4] = 2;
    file[5] = 1;
    put_u64(&mut file, 0x28, shoff);
    put_u16(&mut file, 0x3a, 64);
    put_u16(&mut file, 0x3c, shnum);
    put_u16(&mut file, 0x3e, shstrndx);

    for (i, (_, data)) in sections.iter().enumerate() {
        let start = data_offsets[i] as usize;
        file[start..start + data.len()].copy_from_slice(data);
        let entry = shoff as usize + 64 * (i + 1);
        put_u32(&mut file, entry, name_offsets[i]);
        put_u64(&mut file, entry + 24, data_offsets[i]);
        put_u64(&mut file, entry + 32, data.len() as u64);
    }
    let names_start = names_offset as usize;
    file[names_start..names_start + names.len()].copy_from_slice(&names);
    let strtab_entry = shoff as usize + 64 * (sections.len() + 1);
    put_u32(&mut file, strtab_entry, 0);
    put_u64(&mut file, strtab_entry + 24, names_offset);
    put_u64(&mut file, strtab_entry + 32, names.len() as u64);

    file
}

#[test]
fn extraction_yields_license_and_instruction_words() {
    let program: Vec<u8> = (0u8..16).collect();
    let file = build_object(&[("license", b"GPL"), ("classifier", &program)]);
    let info = ProgramInfo::new(file, "license", "classifier");
    let pd = info.attempt_load().unwrap();
    assert_eq!(pd.license, b"GPL".to_vec());
    assert_eq!(pd.instructions.len(), 2);
    assert_eq!(pd.instructions[0], u64::from_le_bytes([0, 1, 2, 3, 4, 5, 6, 7]));
    assert_eq!(pd.instructions[1], u64::from_le_bytes([8, 9, 10, 11, 12, 13, 14, 15]));
}

#[test]
fn misaligned_program_section_is_rejected() {
    let program = vec![0u8; 17];
    let file = build_object(&[("license", b"GPL"), ("classifier", &program)]);
    let info = ProgramInfo::new(file, "license", "classifier");
    assert_eq!(info.attempt_load(), Err(LoadError::PartialInstruction));
}

#[test]
fn missing_sections_are_reported_by_name() {
    let file = build_object(&[("license", b"GPL")]);
    let info = ProgramInfo::new(file.clone(), "license", "classifier");
    assert_eq!(
        info.attempt_load(),
        Err(LoadError::CantGetSection(b"classifier".to_vec()))
    );
    let info = ProgramInfo::new(file, "permit", "classifier");
    assert_eq!(
        info.attempt_load(),
        Err(LoadError::CantGetSection(b"permit".to_vec()))
    );
}

#[test]
fn truncated_file_is_rejected() {
    let info = ProgramInfo::new(vec![0x7f, b'E', b'L', b'F'], "license", "classifier");
    assert_eq!(info.attempt_load(), Err(LoadError::CantGetSectionBytes));
}

#[test]
fn big_endian_or_wrong_magic_is_rejected() {
    let program = vec![0u8; 8];
    let mut file = build_object(&[("license", b"GPL"), ("classifier", &program)]);
    file[5] = 2;
    let info = ProgramInfo::new(file.clone(), "license", "classifier");
    assert_eq!(info.attempt_load(), Err(LoadError::CantGetSectionBytes));
    file[5] = 1;
    file[0] = 0;
    let info = ProgramInfo::new(file, "license", "classifier");
    assert_eq!(info.attempt_load(), Err(LoadError::CantGetSectionBytes));
}

#[test]
fn section_data_outside_the_file_is_rejected() {
    let program = vec![0u8; 8];
    let mut file = build_object(&[("license", b"GPL"), ("classifier", &program)]);
    // Stretch the license section's recorded size past the end of the file.
    let shoff = u64::from_le_bytes(file[0x28..0x30].try_into().unwrap()) as usize;
    let entry = shoff + 64;
    let huge = (file.len() as u64 + 1).to_le_bytes();
    file[entry + 32..entry + 40].copy_from_slice(&huge);
    let info = ProgramInfo::new(file, "license", "classifier");
    assert_eq!(
        info.attempt_load(),
        Err(LoadError::CantGetSectionData(b"license".to_vec()))
    );
}

#[test]
fn raw_section_bytes_are_copied_verbatim() {
    let file: Vec<u8> = (0u8..32).collect();
    assert_eq!(extract_undefined_section(&file, 4, 3), Ok(vec![4, 5, 6]));
    assert_eq!(
        extract_undefined_section(&file, 30, 4),
        Err(LoadError::CantGetSectionBytes)
    );
}
