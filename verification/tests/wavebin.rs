use wavevm_console::wavebin::{load_wavevm_bin, LoadError, WaveVMBin};

fn file(mem_start: u8, code_start: u8, rest: &[u8]) -> Vec<u8> {
    let mut bytes = vec![b'M', b'W', b'v', b'm', 1, mem_start, code_start];
    bytes.extend_from_slice(rest);
    bytes
}

#[test]
fn regions_are_read_high_byte_first() {
    let bytes = file(7, 11, &[0x12, 0x34, 0xab, 0xcd, 0x00, 0x01, 0xff, 0xfe]);
    let bin = load_wavevm_bin(&bytes).unwrap();
    assert_eq!(bin, WaveVMBin { mem: vec![0x1234, 0xabcd], code: vec![0x0001, 0xfffe] });
}

#[test]
fn regions_may_be_empty() {
    let bytes = file(7, 7, &[]);
    let bin = load_wavevm_bin(&bytes).unwrap();
    assert_eq!(bin, WaveVMBin { mem: vec![], code: vec![] });
}

#[test]
fn memory_region_may_begin_behind_a_gap() {
    let bytes = file(9, 11, &[0xee, 0xee, 0x00, 0x02, 0x00, 0x03]);
    let bin = load_wavevm_bin(&bytes).unwrap();
    assert_eq!(bin.mem, vec![0x0002]);
    assert_eq!(bin.code, vec![0x0003]);
}

#[test]
fn wrong_magic_is_refused() {
    assert_eq!(load_wavevm_bin(b"MWvx\x01\x07\x07"), Err(LoadError::InvalidMagic));
    assert_eq!(load_wavevm_bin(b"mwvm\x01\x07\x07"), Err(LoadError::InvalidMagic));
    assert_eq!(load_wavevm_bin(b""), Err(LoadError::InvalidMagic));
    assert_eq!(load_wavevm_bin(b"MWv"), Err(LoadError::InvalidMagic));
}

#[test]
fn short_header_is_refused() {
    assert_eq!(load_wavevm_bin(b"MWvm"), Err(LoadError::Truncated));
    assert_eq!(load_wavevm_bin(b"MWvm\x01"), Err(LoadError::Truncated));
    assert_eq!(load_wavevm_bin(b"MWvm\x01\x07"), Err(LoadError::Truncated));
}

#[test]
fn other_versions_are_refused() {
    assert_eq!(load_wavevm_bin(b"MWvm\x00\x07\x07"), Err(LoadError::UnsupportedVersion));
    assert_eq!(load_wavevm_bin(b"MWvm\x02\x07\x07"), Err(LoadError::UnsupportedVersion));
    assert_eq!(load_wavevm_bin(b"MWvm\x02"), Err(LoadError::UnsupportedVersion));
}

#[test]
fn regions_out_of_order_are_refused() {
    assert_eq!(load_wavevm_bin(&file(9, 7, &[0, 0])), Err(LoadError::InvalidLayout));
    assert_eq!(load_wavevm_bin(&file(7, 12, &[0, 0])), Err(LoadError::InvalidLayout));
}

#[test]
fn odd_memory_region_is_refused() {
    let bytes = file(7, 10, &[0x12, 0x34, 0xab, 0x00, 0x01]);
    assert_eq!(load_wavevm_bin(&bytes), Err(LoadError::OddMemorySize));
}

#[test]
fn odd_code_region_is_refused() {
    let bytes = file(7, 9, &[0x12, 0x34, 0x00, 0x01, 0x02]);
    assert_eq!(load_wavevm_bin(&bytes), Err(LoadError::OddCodeSize));
}

#[test]
fn each_failure_has_its_words() {
    assert_eq!(LoadError::InvalidMagic.message(), "Invalid magic number");
    assert_eq!(LoadError::UnsupportedVersion.message(), "Unsupported version");
    assert_eq!(LoadError::Truncated.message(), "Incomplete header");
    assert_eq!(LoadError::InvalidLayout.message(), "Invalid region offsets");
    assert_eq!(LoadError::OddMemorySize.message(), "Memory size is not even");
    assert_eq!(LoadError::OddCodeSize.message(), "Code size is not even");
}
