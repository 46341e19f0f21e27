//! Parsing and building the DFU suffix: the trailing metadata block of a
//! firmware file that names the target device and carries an integrity
//! checksum.
//!
//! The whole 16-byte block is stored byte-reversed relative to its logical
//! field order, so logical offset `o` lives at file index `len - 1 - o`.

use vstd::prelude::*;

use crate::wire::{dword_be, read_dword_be, read_word_be, word_be};

verus! {

/// A 16-bit ID that may be unset. The raw field value 0xFFFF is the
/// wildcard sentinel meaning "applies to any device".
#[derive(Copy, Clone, Debug, PartialEq, Eq)]
pub struct OptionalId(pub Option<u16>);

impl OptionalId {
    /// Decoding of a raw 16-bit suffix field: 0xFFFF means unset.
    pub open spec fn spec_from_raw(val: u16) -> OptionalId {
        if val == 0xffff {
            OptionalId(None)
        } else {
            OptionalId(Some(val))
        }
    }

    /// An unset ID matches everything; a set one only its own value.
    pub open spec fn spec_matches(self, cmp: u16) -> bool {
        match self.0 {
            None => true,
            Some(id) => id == cmp,
        }
    }

    /// Wildcard matching: true for unset, else requires equality.
    pub fn matches(&self, cmp: u16) -> (r: bool)
        ensures
            r == self.spec_matches(cmp),
    {
        match self.0 {
            None => true,
            Some(id) => id == cmp,
        }
    }
}

/// Convert from an ID field in a DFU suffix.
impl From<u16> for OptionalId {
    fn from(val: u16) -> (r: Self)
        ensures
            r == OptionalId::spec_from_raw(val),
    {
        OptionalId(if val == 0xffff {
            None
        } else {
            Some(val)
        })
    }
}

impl vstd::std_specs::convert::FromSpecImpl<u16> for OptionalId {
    open spec fn obeys_from_spec() -> bool {
        true
    }

    open spec fn from_spec(val: u16) -> Self {
        OptionalId::spec_from_raw(val)
    }
}

/// An ID built from the wildcard sentinel matches every value; one built
/// from any other raw value matches exactly that value.
pub proof fn lemma_wildcard_matches(x: u16, y: u16)
    ensures
        x == 0xffff ==> OptionalId::spec_from_raw(x).spec_matches(y),
        x != 0xffff ==> OptionalId::spec_from_raw(x).spec_matches(y) == (x == y),
{
}

/// Metadata about a file containing a DFU suffix.
#[derive(Copy, Clone, Debug, PartialEq, Eq)]
pub struct SuffixInfo {
    pub vendor_id: OptionalId,
    pub product_id: OptionalId,
    pub release_number: OptionalId,
    pub expected_crc: u32,
    pub actual_crc: u32,
    pub payload_length: u64,
}

impl SuffixInfo {
    /// The file's computed checksum agrees with the one its suffix stores.
    pub open spec fn spec_has_valid_crc(self) -> bool {
        self.actual_crc == self.expected_crc
    }

    pub fn has_valid_crc(&self) -> (r: bool)
        ensures
            r == self.spec_has_valid_crc(),
    {
        self.actual_crc == self.expected_crc
    }

    /// Fails with [`SuffixError::BadCRC`], carrying both checksums, exactly
    /// when the stored and computed checksums disagree.
    pub fn ensure_valid_crc(&self) -> (r: Result<(), SuffixError>)
        ensures
            self.spec_has_valid_crc() ==> r == Ok::<(), SuffixError>(()),
            !self.spec_has_valid_crc() ==> r == Err::<(), SuffixError>(
                SuffixError::BadCRC { expected: self.expected_crc, actual: self.actual_crc },
            ),
    {
        match self.has_valid_crc() {
            true => Ok(()),
            false => Err(SuffixError::BadCRC {
                expected: self.expected_crc,
                actual: self.actual_crc,
            }),
        }
    }
}

/// Parse errors for a DFU suffix.
#[derive(Copy, Clone, Debug, PartialEq, Eq)]
#[non_exhaustive]
pub enum SuffixError {
    /// The "DFU" signature is not present.
    BadSignature,
    /// The DFU specification version is older than the minimum accepted.
    TooOld { minimum: u16, actual: u16 },
    /// The file is shorter than a DFU suffix.
    FileTooShort { minimum: u64 },
    /// The suffix declares a length under the allowed minimum.
    SuffixTooShort { minimum: u8, actual: u8 },
    /// The suffix declares a length longer than the whole file.
    SuffixTooLong { suffix_len: u8, file_len: u64 },
    /// The stored and computed CRC-32 values disagree.
    BadCRC { expected: u32, actual: u32 },
}

/// The IEEE CRC-32 of a byte sequence, as computed by `crc32fast`.
pub uninterp spec fn crc32_of(data: Seq<u8>) -> u32;

/// Relies on `crc32fast::hash`: the IEEE CRC-32 of the given bytes, a
/// function of those bytes alone.
#[verifier::external_body]
fn crc32_prefix(data: &Vec<u8>, len: usize) -> (r: u32)
    requires
        len <= data@.len(),
    ensures
        r == crc32_of(data@.take(len as int)),
{
    crc32fast::hash(&data[..len])
}

/// The CRC variant used by USB DFU 1.1: the IEEE CRC-32, bitwise-complemented.
pub open spec fn dfu_crc_of(data: Seq<u8>) -> u32 {
    !crc32_of(data)
}

/// Compute the CRC used by USB DFU 1.1 over the first `len` bytes of `data`.
/// Does not strip the CRC field from a suffix automatically.
pub fn compute_crc(data: &Vec<u8>, len: usize) -> (r: u32)
    requires
        len <= data@.len(),
    ensures
        r == dfu_crc_of(data@.take(len as int)),
{
    !crc32_prefix(data, len)
}

/// What [`parse`] returns on a whole firmware file, field by field. Logical
/// suffix offset `o` is file index `len - 1 - o`, because the suffix block
/// is stored byte-reversed.
pub open spec fn spec_parse(file: Seq<u8>) -> Result<SuffixInfo, SuffixError> {
    let n = file.len() as int;
    if n < 16 {
        Err(SuffixError::FileTooShort { minimum: 16 })
    } else if !(file[n - 6] == 0x44 && file[n - 7] == 0x46 && file[n - 8] == 0x55) {
        Err(SuffixError::BadSignature)
    } else if file[n - 5] < 16 {
        Err(SuffixError::SuffixTooShort { minimum: 16, actual: file[n - 5] })
    } else if file[n - 5] > n {
        Err(SuffixError::SuffixTooLong { suffix_len: file[n - 5], file_len: n as u64 })
    } else if word_be(file[n - 9], file[n - 10]) < 0x0100 {
        Err(SuffixError::TooOld { minimum: 0x0100, actual: word_be(file[n - 9], file[n - 10]) })
    } else {
        Ok(
            SuffixInfo {
                vendor_id: OptionalId::spec_from_raw(word_be(file[n - 11], file[n - 12])),
                product_id: OptionalId::spec_from_raw(word_be(file[n - 13], file[n - 14])),
                release_number: OptionalId::spec_from_raw(word_be(file[n - 15], file[n - 16])),
                expected_crc: dword_be(file[n - 1], file[n - 2], file[n - 3], file[n - 4]),
                actual_crc: dfu_crc_of(file.take(n - 4)),
                payload_length: (n - file[n - 5]) as u64,
            },
        )
    }
}

/// Parse the suffix of a DFU file held in memory and calculate the data's
/// real checksum, storing the results in a [`SuffixInfo`] struct. Validity
/// of the checksum is checked separately via
/// [`SuffixInfo::has_valid_crc`] / [`SuffixInfo::ensure_valid_crc`].
pub fn parse(data: &Vec<u8>) -> (r: Result<SuffixInfo, SuffixError>)
    ensures
        r == spec_parse(data@),
{
    let n = data.len();
    if n < 16 {
        return Err(SuffixError::FileTooShort { minimum: 16 });
    }

    if !(data[n - 6] == 0x44 && data[n - 7] == 0x46 && data[n - 8] == 0x55) {
        return Err(SuffixError::BadSignature);
    }

    let suffix_len = data[n - 5];
    if suffix_len < 16 {
        return Err(SuffixError::SuffixTooShort { minimum: 16, actual: suffix_len });
    }
    // Over 16 is permitted: extra vendor bytes are non-fatal.

    if suffix_len as usize > n {
        return Err(SuffixError::SuffixTooLong { suffix_len, file_len: n as u64 });
    }

    let bcd_dfu = read_word_be(data[n - 9], data[n - 10]);
    if bcd_dfu < 0x0100 {
        return Err(SuffixError::TooOld { minimum: 0x0100, actual: bcd_dfu });
    }

    // CRC is over all but the last 4 bytes, which hold the expected CRC.
    let actual_crc = compute_crc(data, n - 4);
    let expected_crc = read_dword_be(data[n - 1], data[n - 2], data[n - 3], data[n - 4]);

    Ok(
        SuffixInfo {
            vendor_id: OptionalId::from(read_word_be(data[n - 11], data[n - 12])),
            product_id: OptionalId::from(read_word_be(data[n - 13], data[n - 14])),
            release_number: OptionalId::from(read_word_be(data[n - 15], data[n - 16])),
            expected_crc,
            actual_crc,
            payload_length: (n - suffix_len as usize) as u64,
        },
    )
}

/// The first 12 raw bytes of a minimum-length suffix: the logical fields
/// after the CRC, in reversed byte order.
pub open spec fn spec_suffix_head(
    vendor_id: u16,
    product_id: u16,
    release_number: u16,
    bcd_dfu: u16,
) -> Seq<u8> {
    seq![
        crate::wire::lo_byte(release_number),
        crate::wire::hi_byte(release_number),
        crate::wire::lo_byte(product_id),
        crate::wire::hi_byte(product_id),
        crate::wire::lo_byte(vendor_id),
        crate::wire::hi_byte(vendor_id),
        crate::wire::lo_byte(bcd_dfu),
        crate::wire::hi_byte(bcd_dfu),
        0x55u8,
        0x46u8,
        0x44u8,
        16u8,
    ]
}

/// The last 4 raw bytes of a suffix: the logical big-endian CRC field,
/// reversed, i.e. the CRC's bytes from least to most significant.
pub open spec fn spec_crc_bytes(crc: u32) -> Seq<u8> {
    seq![
        (crc % 256) as u8,
        ((crc / 256) % 256) as u8,
        ((crc / 0x10000) % 256) as u8,
        ((crc / 0x1000000) % 256) as u8,
    ]
}

/// A whole firmware file: the payload followed by a minimum-length suffix
/// whose stored CRC is the correct one for everything before it.
pub open spec fn spec_build_file(
    payload: Seq<u8>,
    vendor_id: u16,
    product_id: u16,
    release_number: u16,
    bcd_dfu: u16,
) -> Seq<u8> {
    let body = payload + spec_suffix_head(vendor_id, product_id, release_number, bcd_dfu);
    body + spec_crc_bytes(dfu_crc_of(body))
}

/// Append a minimum-length DFU suffix with the given target IDs and DFU
/// version to a copy of `payload`, storing the correct checksum for the
/// bytes before the CRC field.
pub fn build_file(
    payload: &Vec<u8>,
    vendor_id: u16,
    product_id: u16,
    release_number: u16,
    bcd_dfu: u16,
) -> (r: Vec<u8>)
    requires
        payload@.len() + 16 <= usize::MAX,
    ensures
        r@ == spec_build_file(payload@, vendor_id, product_id, release_number, bcd_dfu),
{
    let mut out: Vec<u8> = Vec::new();
    let mut i: usize = 0;
    while i < payload.len()
        invariant
            0 <= i <= payload@.len(),
            out@ == payload@.take(i as int),
        decreases payload@.len() - i,
    {
        out.push(payload[i]);
        proof {
            assert(out@ =~= payload@.take(i + 1));
        }
        i = i + 1;
    }
    proof {
        assert(out@ =~= payload@);
    }

    out.push(crate::wire::split_lo(release_number));
    out.push(crate::wire::split_hi(release_number));
    out.push(crate::wire::split_lo(product_id));
    out.push(crate::wire::split_hi(product_id));
    out.push(crate::wire::split_lo(vendor_id));
    out.push(crate::wire::split_hi(vendor_id));
    out.push(crate::wire::split_lo(bcd_dfu));
    out.push(crate::wire::split_hi(bcd_dfu));
    out.push(0x55);
    out.push(0x46);
    out.push(0x44);
    out.push(16);
    proof {
        assert(out@ =~= payload@ + spec_suffix_head(
            vendor_id,
            product_id,
            release_number,
            bcd_dfu,
        ));
    }

    let crc = compute_crc(&out, out.len());
    proof {
        assert(out@.take(out@.len() as int) =~= out@);
    }
    out.push((crc % 256) as u8);
    out.push(((crc / 256) % 256) as u8);
    out.push(((crc / 0x10000) % 256) as u8);
    out.push(((crc / 0x1000000) % 256) as u8);
    proof {
        assert(out@ =~= spec_build_file(payload@, vendor_id, product_id, release_number, bcd_dfu));
    }
    out
}

/// Round trip: a file built with the correct CRC always parses, its
/// checksum always validates, and the parsed payload length and target IDs
/// are exactly what the suffix was built from.
pub proof fn lemma_build_parse_round_trip(
    payload: Seq<u8>,
    vendor_id: u16,
    product_id: u16,
    release_number: u16,
    bcd_dfu: u16,
)
    requires
        0x0100 <= bcd_dfu,
        payload.len() + 16 <= u64::MAX,
    ensures
        ({
            let parsed = spec_parse(
                spec_build_file(payload, vendor_id, product_id, release_number, bcd_dfu),
            );
            &&& parsed is Ok
            &&& parsed->Ok_0.spec_has_valid_crc()
            &&& parsed->Ok_0.payload_length == payload.len()
            &&& parsed->Ok_0.vendor_id == OptionalId::spec_from_raw(vendor_id)
            &&& parsed->Ok_0.product_id == OptionalId::spec_from_raw(product_id)
            &&& parsed->Ok_0.release_number == OptionalId::spec_from_raw(release_number)
        }),
{
    let head = spec_suffix_head(vendor_id, product_id, release_number, bcd_dfu);
    let body = payload + head;
    let crc = dfu_crc_of(body);
    let file = spec_build_file(payload, vendor_id, product_id, release_number, bcd_dfu);
    let n = file.len() as int;
    assert(n == payload.len() + 16);
    assert(forall|j: int| 0 <= j < 12 ==> file[payload.len() + j] == head[j]);
    assert(forall|j: int| 0 <= j < 4 ==> file[payload.len() + 12 + j] == spec_crc_bytes(crc)[j]);

    // The signature, declared length, and version fields read back as built.
    assert(file[n - 6] == 0x44 && file[n - 7] == 0x46 && file[n - 8] == 0x55);
    assert(file[n - 5] == 16);
    crate::wire::lemma_word_be_split(bcd_dfu);
    assert(word_be(file[n - 9], file[n - 10]) == bcd_dfu);
    crate::wire::lemma_word_be_split(vendor_id);
    crate::wire::lemma_word_be_split(product_id);
    crate::wire::lemma_word_be_split(release_number);

    // The stored CRC field reassembles to the checksum it was split from.
    assert(dword_be(file[n - 1], file[n - 2], file[n - 3], file[n - 4]) == ((crc / 0x1000000) % 256)
        * 0x1000000 + ((crc / 0x10000) % 256) * 0x10000 + ((crc / 256) % 256) * 0x100 + (crc
        % 256));
    assert(((crc / 0x1000000) % 256) * 0x1000000 + ((crc / 0x10000) % 256) * 0x10000 + ((crc / 256)
        % 256) * 0x100 + (crc % 256) == crc) by (bit_vector);

    // The checksum is computed over exactly the bytes it was stored for.
    assert(file.take(n - 4) =~= body);
}

/// Each class of malformed file is rejected with its own error: a file under
/// 16 bytes is too short; a 16-byte-or-longer file without the "DFU" marker
/// has a bad signature; one whose remaining checks pass but whose stored
/// DFU version is below 0x0100 is too old.
pub proof fn lemma_parse_rejects(file: Seq<u8>)
    ensures
        file.len() < 16 ==> spec_parse(file) == Err::<SuffixInfo, SuffixError>(
            SuffixError::FileTooShort { minimum: 16 },
        ),
        file.len() >= 16 && !(file[file.len() - 6] == 0x44 && file[file.len() - 7] == 0x46
            && file[file.len() - 8] == 0x55) ==> spec_parse(file) == Err::<SuffixInfo, SuffixError>(
            SuffixError::BadSignature,
        ),
        file.len() >= 16 && (file[file.len() - 6] == 0x44 && file[file.len() - 7] == 0x46
            && file[file.len() - 8] == 0x55) && 16 <= file[file.len() - 5] <= file.len() && word_be(
            file[file.len() - 9],
            file[file.len() - 10],
        ) < 0x0100 ==> spec_parse(file) == Err::<SuffixInfo, SuffixError>(
            SuffixError::TooOld {
                minimum: 0x0100,
                actual: word_be(file[file.len() - 9], file[file.len() - 10]),
            },
        ),
{
}

} // verus!
