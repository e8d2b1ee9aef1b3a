//! Volume query layer: the data types handed back by the host's volume
//! primitives, the drive-letter bitmask decoder, and the fixed-size
//! UTF-16 buffer decoder.
//!
//! The blocking calls into the host themselves (enumerate mounted
//! volumes, query free space, query volume metadata) live outside this
//! library; everything here works on the plain values those calls hand
//! back.

use vstd::prelude::*;

verus! {

/// An error reported by a host volume primitive: the platform's
/// last-error code.
#[derive(Debug, Clone, Copy, PartialEq, Eq, Structural)]
pub struct OsError {
    pub code: u32,
}

/// A media-type code outside the documented range, reported instead of
/// terminating the process.
#[derive(Debug, Clone, Copy, PartialEq, Eq, Structural)]
pub struct InvalidDriveType {
    pub code: u32,
}

/// Coarse classification of the media behind a mounted volume.
#[derive(Debug, Clone, Copy, PartialEq, Eq, Structural)]
pub enum DriveType {
    DriveUnknown,
    DriveNoRootDir,
    DriveRemovable,
    DriveFixed,
    DriveRemote,
    DriveCDRom,
    DriveRamDisk,
}

impl DriveType {
    /// The integer code the platform uses for this classification.
    pub open spec fn spec_code(self) -> u32 {
        match self {
            DriveType::DriveUnknown => 0,
            DriveType::DriveNoRootDir => 1,
            DriveType::DriveRemovable => 2,
            DriveType::DriveFixed => 3,
            DriveType::DriveRemote => 4,
            DriveType::DriveCDRom => 5,
            DriveType::DriveRamDisk => 6,
        }
    }

    /// Converts the platform's media-type code to its classification.
    /// The platform documents the code as always lying in 0..=6; a code
    /// outside that range is reported as an invalid state rather than
    /// ending the process.
    pub fn from_code(code: u32) -> (r: Result<DriveType, InvalidDriveType>)
        ensures
            match r {
                Ok(t) => code <= 6 && t.spec_code() == code,
                Err(e) => code > 6 && e.code == code,
            },
    {
        match code {
            0 => Ok(DriveType::DriveUnknown),
            1 => Ok(DriveType::DriveNoRootDir),
            2 => Ok(DriveType::DriveRemovable),
            3 => Ok(DriveType::DriveFixed),
            4 => Ok(DriveType::DriveRemote),
            5 => Ok(DriveType::DriveCDRom),
            6 => Ok(DriveType::DriveRamDisk),
            _ => Err(InvalidDriveType { code }),
        }
    }
}

/// The drive letter at a bitmask position: position 0 is `'A'`,
/// position 25 is `'Z'`.
pub open spec fn drive_letter(index: int) -> char {
    (65 + index) as char
}

/// Whether the mounted-volumes bitmask has the bit at `index` set.
pub open spec fn mask_has_drive(mask: u32, index: int) -> bool {
    mask & (1u32 << (index as u32)) != 0
}

/// The letters of the set bits among the first `n` bitmask positions,
/// in ascending order.
pub open spec fn letters_up_to(mask: u32, n: int) -> Seq<char>
    decreases n,
{
    if n <= 0 {
        Seq::empty()
    } else if mask_has_drive(mask, n - 1) {
        letters_up_to(mask, n - 1) + seq![drive_letter(n - 1)]
    } else {
        letters_up_to(mask, n - 1)
    }
}

/// The mounted drive letters encoded in a bitmask: bit `n` set means
/// letter `'A' + n` is mounted; only bits 0 through 25 are decoded.
pub open spec fn mounted_letters(mask: u32) -> Seq<char> {
    letters_up_to(mask, 26)
}

proof fn lemma_letters_up_to_props(mask: u32, n: int)
    requires
        0 <= n <= 26,
    ensures
        letters_up_to(mask, n).len() <= n,
        forall|i: int| 0 <= i < letters_up_to(mask, n).len()
            ==> 65 <= ((#[trigger] letters_up_to(mask, n)[i]) as u32)
                && ((letters_up_to(mask, n)[i]) as u32) < 65 + n,
        forall|i: int, j: int| 0 <= i < j < letters_up_to(mask, n).len()
            ==> ((letters_up_to(mask, n)[i]) as u32) < ((letters_up_to(mask, n)[j]) as u32),
    decreases n,
{
    if n > 0 {
        lemma_letters_up_to_props(mask, n - 1);
    }
}

proof fn lemma_uppercase_range(c: char)
    requires
        65 <= c as u32,
        c as u32 <= 90,
    ensures
        'A' <= c && c <= 'Z',
{
}

/// Every mounted letter is one of the 26 uppercase ASCII letters, and
/// no letter appears twice in one enumeration.
pub proof fn lemma_mounted_letters_sound(mask: u32)
    ensures
        mounted_letters(mask).len() <= 26,
        forall|i: int| 0 <= i < mounted_letters(mask).len()
            ==> 'A' <= (#[trigger] mounted_letters(mask)[i]) <= 'Z',
        forall|i: int, j: int| 0 <= i < j < mounted_letters(mask).len()
            ==> mounted_letters(mask)[i] != mounted_letters(mask)[j],
{
    lemma_letters_up_to_props(mask, 26);
    assert forall|i: int| 0 <= i < mounted_letters(mask).len()
        implies 'A' <= (#[trigger] mounted_letters(mask)[i]) <= 'Z' by {
        let c = mounted_letters(mask)[i];
        assert(c == letters_up_to(mask, 26)[i]);
        assert(65 <= (c as u32) && (c as u32) < 65 + 26);
        lemma_uppercase_range(c);
    }
}

/// The text a UTF-16 code-unit sequence decodes to, with every
/// ill-formed part read as the replacement character.
pub uninterp spec fn utf16_lossy_of(units: Seq<u16>) -> Seq<char>;

/// Relies on String::from_utf16_lossy: it decodes the code units to
/// text, replacing ill-formed parts with the replacement character; its
/// result depends on the code units alone, and the empty input decodes
/// to the empty text.
#[verifier::external_body]
fn utf16_lossy_prefix(units: &Vec<u16>, len: usize) -> (r: String)
    requires
        len <= units@.len(),
    ensures
        r@ == utf16_lossy_of(units@.take(len as int)),
        len == 0 ==> r@ == Seq::<char>::empty(),
{
    String::from_utf16_lossy(&units[..len])
}

/// The number of code units before the first zero: the length of the
/// meaningful part of a fixed-size, zero-padded buffer.
pub open spec fn zero_terminated_len(units: Seq<u16>) -> int
    decreases units.len(),
{
    if units.len() == 0 {
        0
    } else if units[0] == 0 {
        0
    } else {
        1 + zero_terminated_len(units.drop_first())
    }
}

/// The part of a buffer before its first zero code unit holds no zero,
/// and ends at a zero or at the end of the buffer: trailing zero
/// padding never reaches the decoded output.
pub proof fn lemma_zero_terminated_len_props(units: Seq<u16>)
    ensures
        0 <= zero_terminated_len(units) <= units.len(),
        forall|j: int| 0 <= j < zero_terminated_len(units) ==> units[j] != 0,
        zero_terminated_len(units) < units.len() ==> units[zero_terminated_len(units)] == 0,
    decreases units.len(),
{
    if units.len() > 0 && units[0] != 0 {
        lemma_zero_terminated_len_props(units.drop_first());
        assert forall|j: int| 0 <= j < zero_terminated_len(units) implies units[j] != 0 by {
            if j > 0 {
                assert(units.drop_first()[j - 1] != 0);
            }
        }
    }
}

/// Any index that sits on a zero, or at the end, with no zero before
/// it, is the length of the zero-terminated prefix.
pub proof fn lemma_zero_terminated_len_unique(units: Seq<u16>, n: int)
    requires
        0 <= n <= units.len(),
        forall|j: int| 0 <= j < n ==> units[j] != 0,
        n < units.len() ==> units[n] == 0,
    ensures
        n == zero_terminated_len(units),
    decreases units.len(),
{
    if units.len() == 0 {
    } else if units[0] == 0 {
        assert(n == 0);
    } else {
        assert(n > 0);
        lemma_zero_terminated_len_unique(units.drop_first(), n - 1);
    }
}

/// Decodes a fixed-size UTF-16 buffer, truncated at its first zero code
/// unit, so that trailing zero padding never appears in the result.
pub fn vec_u16_to_string(vec: &Vec<u16>) -> (r: String)
    ensures
        r@ == utf16_lossy_of(vec@.take(zero_terminated_len(vec@))),
{
    let n = vec.len();
    let mut index: usize = 0;
    while index < n && vec[index] != 0
        invariant
            index <= n == vec@.len(),
            forall|j: int| 0 <= j < index ==> vec@[j] != 0,
        decreases n - index,
    {
        index = index + 1;
    }
    proof {
        lemma_zero_terminated_len_unique(vec@, index as int);
    }
    utf16_lossy_prefix(vec, index)
}

/// Decodes the mounted-volumes bitmask into the ascending list of
/// mounted drive letters, bit 0 standing for `'A'` through bit 25 for
/// `'Z'`; higher bits are ignored.
pub fn get_logical_drive(drive_mask: u32) -> (r: Vec<char>)
    ensures
        r@ == mounted_letters(drive_mask),
{
    let mut result: Vec<char> = Vec::new();
    for index in 0..26u32
        invariant
            result@ == letters_up_to(drive_mask, index as int),
    {
        if drive_mask & (1u32 << index) != 0 {
            let letter = (65u8 + index as u8) as char;
            result.push(letter);
        }
    }
    result
}

/// Free and total capacity of a volume, as the host reports it.
#[derive(Debug, Clone, Copy, PartialEq, Eq, Structural)]
pub struct SpaceInfo {
    /// Bytes available to the calling user.
    pub free_bytes_available: u64,
    /// Total capacity of the volume.
    pub total_bytes: u64,
    /// Total free bytes on the volume.
    pub total_free_bytes: u64,
}

/// Metadata of a volume: its label, filesystem name, and the raw
/// integer attributes the host reports beside them.
#[derive(Debug, Clone)]
pub struct VolumeRecord {
    /// Human-readable label, empty if unset.
    pub name: String,
    /// Name of the filesystem, empty if unset.
    pub file_system_name: String,
    /// Volume-identifying integer assigned at format time.
    pub serial_number: u32,
    /// Longest path segment the filesystem accepts.
    pub max_component_length: u32,
    /// Capability bitmask, passed through opaquely.
    pub file_system_flags: u32,
}

/// The mathematical content of a [`VolumeRecord`]: its texts as
/// character sequences.
pub struct VolumeRecordView {
    pub name: Seq<char>,
    pub file_system_name: Seq<char>,
    pub serial_number: u32,
    pub max_component_length: u32,
    pub file_system_flags: u32,
}

impl View for VolumeRecord {
    type V = VolumeRecordView;

    open spec fn view(&self) -> VolumeRecordView {
        VolumeRecordView {
            name: self.name@,
            file_system_name: self.file_system_name@,
            serial_number: self.serial_number,
            max_component_length: self.max_component_length,
            file_system_flags: self.file_system_flags,
        }
    }
}

/// Assembles a volume's metadata from the raw values the host hands
/// back: the label and filesystem-name buffers are each truncated at
/// their first zero code unit and decoded, the integer attributes pass
/// through unchanged.
pub fn get_volume_information(
    volume_name_buf: &Vec<u16>,
    file_system_name_buf: &Vec<u16>,
    serial_number: u32,
    max_component_length: u32,
    file_system_flags: u32,
) -> (r: VolumeRecord)
    ensures
        r@.name == utf16_lossy_of(
            volume_name_buf@.take(zero_terminated_len(volume_name_buf@)),
        ),
        r@.file_system_name == utf16_lossy_of(
            file_system_name_buf@.take(zero_terminated_len(file_system_name_buf@)),
        ),
        r@.serial_number == serial_number,
        r@.max_component_length == max_component_length,
        r@.file_system_flags == file_system_flags,
{
    VolumeRecord {
        name: vec_u16_to_string(volume_name_buf),
        file_system_name: vec_u16_to_string(file_system_name_buf),
        serial_number,
        max_component_length,
        file_system_flags,
    }
}

} // verus!

