//! The program binary: a header, a memory region and a code region.
//!
//! The file begins with the four bytes `MWvm` and a version byte. In version 1
//! the next two bytes give the offsets in the file at which the memory region
//! and the code region begin; the memory region ends where the code region
//! begins, and the code region ends with the file. Each region is a run of
//! 16-bit words, high byte first.

use vstd::prelude::*;
use vstd::slice::*;

verus! {

/// A program binary, as words.
#[derive(Debug, Clone, PartialEq, Eq)]
pub struct WaveVMBin {
    pub mem: Vec<u16>,
    pub code: Vec<u16>,
}

/// Why a file is no program binary.
#[derive(Debug, Clone, Copy, PartialEq, Eq, Structural)]
pub enum LoadError {
    /// The file does not begin with `MWvm`.
    InvalidMagic,
    /// The header ends before the version or the offsets that the version needs.
    Truncated,
    /// The version is not 1.
    UnsupportedVersion,
    /// The memory region begins behind the code region, or the code region
    /// behind the end of the file.
    InvalidLayout,
    /// The memory region has an odd number of bytes.
    OddMemorySize,
    /// The code region has an odd number of bytes.
    OddCodeSize,
}

/// The words that a run of bytes holds, high byte first. A last byte without
/// its partner holds none.
pub open spec fn be_words(bytes: Seq<u8>) -> Seq<u16> {
    Seq::new(bytes.len() / 2, |i: int| (bytes[2 * i] * 256 + bytes[2 * i + 1]) as u16)
}

/// Whether the file begins with `MWvm`.
pub open spec fn has_magic(file: Seq<u8>) -> bool {
    file.len() >= 4 && file[0] == 0x4d && file[1] == 0x57 && file[2] == 0x76 && file[3] == 0x6d
}

/// Why `file` is no program binary, if it is none.
pub open spec fn load_error(file: Seq<u8>) -> Option<LoadError> {
    if !has_magic(file) {
        Some(LoadError::InvalidMagic)
    } else if file.len() < 5 {
        Some(LoadError::Truncated)
    } else if file[4] != 1 {
        Some(LoadError::UnsupportedVersion)
    } else if file.len() < 7 {
        Some(LoadError::Truncated)
    } else if file[5] > file[6] || file[6] > file.len() {
        Some(LoadError::InvalidLayout)
    } else if (file[6] - file[5]) % 2 != 0 {
        Some(LoadError::OddMemorySize)
    } else if (file.len() - file[6]) % 2 != 0 {
        Some(LoadError::OddCodeSize)
    } else {
        None
    }
}

/// The words of the memory region of a program binary.
pub open spec fn memory_words(file: Seq<u8>) -> Seq<u16> {
    be_words(file.subrange(file[5] as int, file[6] as int))
}

/// The words of the code region of a program binary.
pub open spec fn code_words(file: Seq<u8>) -> Seq<u16> {
    be_words(file.subrange(file[6] as int, file.len() as int))
}

/// The words of the bytes from `from` up to `to`.
fn words_between(file: &[u8], from: usize, to: usize) -> (words: Vec<u16>)
    requires
        from <= to <= file@.len(),
        (to - from) % 2 == 0,
    ensures
        words@ == be_words(file@.subrange(from as int, to as int)),
{
    let ghost region = file@.subrange(from as int, to as int);
    let mut words: Vec<u16> = Vec::new();
    let mut at: usize = from;
    while at < to
        invariant
            from <= at <= to <= file@.len(),
            (at - from) % 2 == 0,
            (to - from) % 2 == 0,
            region == file@.subrange(from as int, to as int),
            words@.len() == (at - from) / 2,
            forall|i: int| 0 <= i < words@.len() ==> words@[i] == be_words(region)[i],
        decreases to - at,
    {
        let high: u16 = file[at] as u16;
        let low: u16 = file[at + 1] as u16;
        let ghost i = (at - from) / 2;
        assert(region[2 * i] == file@[at as int] && region[2 * i + 1] == file@[at + 1]);
        words.push(high * 256 + low);
        at += 2;
    }
    assert(words@ =~= be_words(region));
    words
}

/// Reads a program binary from the bytes of its file.
///
/// Fails exactly on the files that `load_error` names, with the reason it gives;
/// on every other file the result holds the words of the two regions.
pub fn load_wavevm_bin(file: &[u8]) -> (r: Result<WaveVMBin, LoadError>)
    ensures
        match r {
            Ok(bin) => load_error(file@) is None && bin.mem@ == memory_words(file@) && bin.code@
                == code_words(file@),
            Err(e) => load_error(file@) == Some(e),
        },
{
    let n = file.len();
    if n < 4 || file[0] != 0x4d || file[1] != 0x57 || file[2] != 0x76 || file[3] != 0x6d {
        return Err(LoadError::InvalidMagic);
    }
    if n < 5 {
        return Err(LoadError::Truncated);
    }
    if file[4] != 1 {
        return Err(LoadError::UnsupportedVersion);
    }
    if n < 7 {
        return Err(LoadError::Truncated);
    }
    let mem_start: usize = file[5] as usize;
    let code_start: usize = file[6] as usize;
    if mem_start > code_start || code_start > n {
        return Err(LoadError::InvalidLayout);
    }
    if (code_start - mem_start) % 2 != 0 {
        return Err(LoadError::OddMemorySize);
    }
    if (n - code_start) % 2 != 0 {
        return Err(LoadError::OddCodeSize);
    }
    let mem = words_between(file, mem_start, code_start);
    let code = words_between(file, code_start, n);
    Ok(WaveVMBin { mem, code })
}

impl LoadError {
    /// The words in which the failure is reported.
    pub open spec fn text(self) -> Seq<char> {
        match self {
            LoadError::InvalidMagic => "Invalid magic number"@,
            LoadError::Truncated => "Incomplete header"@,
            LoadError::UnsupportedVersion => "Unsupported version"@,
            LoadError::InvalidLayout => "Invalid region offsets"@,
            LoadError::OddMemorySize => "Memory size is not even"@,
            LoadError::OddCodeSize => "Code size is not even"@,
        }
    }

    /// The words in which the failure is reported.
    pub fn message(&self) -> (s: &'static str)
        ensures
            s@ == self.text(),
    {
        match self {
            LoadError::InvalidMagic => "Invalid magic number",
            LoadError::Truncated => "Incomplete header",
            LoadError::UnsupportedVersion => "Unsupported version",
            LoadError::InvalidLayout => "Invalid region offsets",
            LoadError::OddMemorySize => "Memory size is not even",
            LoadError::OddCodeSize => "Code size is not even",
        }
    }
}

} // verus!
