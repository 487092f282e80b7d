//! The font header (`head`) table.

use vstd::prelude::*;

use crate::codec::Reader;
use crate::codec::be16v;
use crate::codec::be32v;
use crate::codec::be64v;
use crate::codec::sign16;
use crate::codec::sign32;
use crate::codec::sign64;
use crate::codec::uns16;
use crate::codec::uns32;
use crate::codec::uns64;
use crate::error::Error;
use crate::types::BBox;
use crate::types::Fixed;
use crate::types::LocationFormat;

verus! {

/// The fixed total size of the `head` table layout, in bytes.
pub const HEAD_SIZE: usize = 54;

/// The version sentinel that the leading field must equal exactly.
pub const HEAD_VERSION: i32 = 0x00010000;

/// A font header.
///
/// The `head` table contains global information about the font. A
/// record either does not exist or is fully valid: every field was
/// read from the source bytes and validated by `from_data`, and the
/// record borrows nothing from the source slice.
#[allow(non_camel_case_types)]
#[derive(Clone, Copy, Debug, Default, PartialEq, Eq, Structural)]
pub struct HEAD {
    pub version: Fixed,
    pub font_revision: Fixed,
    pub check_sum_adjustment: u32,
    pub magic_number: u32,
    pub flags: u16,
    pub units_per_em: u16,
    pub created: i64,
    pub modified: i64,
    pub x_min: i16,
    pub y_min: i16,
    pub x_max: i16,
    pub y_max: i16,
    pub mac_style: u16,
    pub lowest_rec_ppem: u16,
    pub font_direction_hint: i16,
    // The reference manual marks this field as `i16`, but it can hold
    // only 0 or 1, so it is stored unsigned.
    pub index_to_loc_format: u16,
    pub glyph_data_format: i16,
}

/// The record whose fields stand at their fixed layout positions in
/// `s`, starting at `off`.
pub open spec fn spec_head_at(s: Seq<u8>, off: int) -> HEAD {
    HEAD {
        version: Fixed(sign32(be32v(s, off)) as i32),
        font_revision: Fixed(sign32(be32v(s, off + 4)) as i32),
        check_sum_adjustment: be32v(s, off + 8) as u32,
        magic_number: be32v(s, off + 12) as u32,
        flags: be16v(s, off + 16) as u16,
        units_per_em: be16v(s, off + 18) as u16,
        created: sign64(be64v(s, off + 20)) as i64,
        modified: sign64(be64v(s, off + 28)) as i64,
        x_min: sign16(be16v(s, off + 36)) as i16,
        y_min: sign16(be16v(s, off + 38)) as i16,
        x_max: sign16(be16v(s, off + 40)) as i16,
        y_max: sign16(be16v(s, off + 42)) as i16,
        mac_style: be16v(s, off + 44) as u16,
        lowest_rec_ppem: be16v(s, off + 46) as u16,
        font_direction_hint: sign16(be16v(s, off + 48)) as i16,
        index_to_loc_format: be16v(s, off + 50) as u16,
        glyph_data_format: sign16(be16v(s, off + 52)) as i16,
    }
}

/// What decoding the bytes `s` at `off` yields.
///
/// The version gate comes first: an unsupported version is reported
/// even if later fields are missing or invalid. A region too short for
/// the full 54-byte layout is malformed, and that is reported before
/// the discriminant is validated.
pub open spec fn spec_decode(s: Seq<u8>, off: int) -> Result<HEAD, Error> {
    if off >= s.len() {
        Err(Error::Malformed)
    } else if s.len() < off + 4 {
        Err(Error::Malformed)
    } else if be32v(s, off) != HEAD_VERSION {
        Err(Error::HEADVersionIsNotSupported)
    } else if s.len() < off + HEAD_SIZE {
        Err(Error::Malformed)
    } else if be16v(s, off + 50) > 1 {
        Err(Error::UnknownLocationFormat)
    } else {
        Ok(spec_head_at(s, off))
    }
}

/// The bytes `e` are exactly the 54-byte encoding of the record `h`.
pub open spec fn encodes(e: Seq<u8>, h: HEAD) -> bool {
    &&& e.len() == HEAD_SIZE
    &&& be32v(e, 0) == uns32(h.version.0 as int)
    &&& be32v(e, 4) == uns32(h.font_revision.0 as int)
    &&& be32v(e, 8) == h.check_sum_adjustment
    &&& be32v(e, 12) == h.magic_number
    &&& be16v(e, 16) == h.flags
    &&& be16v(e, 18) == h.units_per_em
    &&& be64v(e, 20) == uns64(h.created as int)
    &&& be64v(e, 28) == uns64(h.modified as int)
    &&& be16v(e, 36) == uns16(h.x_min as int)
    &&& be16v(e, 38) == uns16(h.y_min as int)
    &&& be16v(e, 40) == uns16(h.x_max as int)
    &&& be16v(e, 42) == uns16(h.y_max as int)
    &&& be16v(e, 44) == h.mac_style
    &&& be16v(e, 46) == h.lowest_rec_ppem
    &&& be16v(e, 48) == uns16(h.font_direction_hint as int)
    &&& be16v(e, 50) == h.index_to_loc_format
    &&& be16v(e, 52) == uns16(h.glyph_data_format as int)
}

impl HEAD {
    /// A record that `from_data` could have returned: the version is
    /// the sentinel and the location-format discriminant is in range.
    pub open spec fn is_valid(self) -> bool {
        &&& self.version == Fixed(HEAD_VERSION)
        &&& self.index_to_loc_format <= 1
    }

    /// Returns the `head` font table.
    ///
    /// Attempts to read `data` starting from the `offset` position.
    ///
    /// # Errors
    /// Returns an error if there is not enough data to read, if the
    /// version of the `head` font table is not supported, or if the
    /// stored location-format discriminant is out of range.
    pub fn from_data(data: &[u8], offset: usize) -> (r: Result<HEAD, Error>)
        ensures
            r == spec_decode(data@, offset as int),
            r matches Ok(h) ==> h.is_valid(),
    {
        if offset >= data.len() {
            return Err(Error::Malformed);
        }
        let mut cursor = Reader::new(data, offset);
        let version: Fixed = match cursor.read_fixed() {
            Ok(v) => v,
            Err(e) => {
                return Err(e);
            },
        };
        if version != Fixed(HEAD_VERSION) {
            return Err(Error::HEADVersionIsNotSupported);
        }
        let font_revision: Fixed = match cursor.read_fixed() {
            Ok(v) => v,
            Err(e) => {
                return Err(e);
            },
        };
        let check_sum_adjustment: u32 = match cursor.read_u32() {
            Ok(v) => v,
            Err(e) => {
                return Err(e);
            },
        };
        let magic_number: u32 = match cursor.read_u32() {
            Ok(v) => v,
            Err(e) => {
                return Err(e);
            },
        };
        let flags: u16 = match cursor.read_u16() {
            Ok(v) => v,
            Err(e) => {
                return Err(e);
            },
        };
        let units_per_em: u16 = match cursor.read_u16() {
            Ok(v) => v,
            Err(e) => {
                return Err(e);
            },
        };
        let created: i64 = match cursor.read_i64() {
            Ok(v) => v,
            Err(e) => {
                return Err(e);
            },
        };
        let modified: i64 = match cursor.read_i64() {
            Ok(v) => v,
            Err(e) => {
                return Err(e);
            },
        };
        let x_min: i16 = match cursor.read_i16() {
            Ok(v) => v,
            Err(e) => {
                return Err(e);
            },
        };
        let y_min: i16 = match cursor.read_i16() {
            Ok(v) => v,
            Err(e) => {
                return Err(e);
            },
        };
        let x_max: i16 = match cursor.read_i16() {
            Ok(v) => v,
            Err(e) => {
                return Err(e);
            },
        };
        let y_max: i16 = match cursor.read_i16() {
            Ok(v) => v,
            Err(e) => {
                return Err(e);
            },
        };
        let mac_style: u16 = match cursor.read_u16() {
            Ok(v) => v,
            Err(e) => {
                return Err(e);
            },
        };
        let lowest_rec_ppem: u16 = match cursor.read_u16() {
            Ok(v) => v,
            Err(e) => {
                return Err(e);
            },
        };
        let font_direction_hint: i16 = match cursor.read_i16() {
            Ok(v) => v,
            Err(e) => {
                return Err(e);
            },
        };
        let index_to_loc_format: u16 = match cursor.read_u16() {
            Ok(v) => v,
            Err(e) => {
                return Err(e);
            },
        };
        let glyph_data_format: i16 = match cursor.read_i16() {
            Ok(v) => v,
            Err(e) => {
                return Err(e);
            },
        };
        if index_to_loc_format > 1 {
            return Err(Error::UnknownLocationFormat);
        }
        Ok(HEAD {
            version,
            font_revision,
            check_sum_adjustment,
            magic_number,
            flags,
            units_per_em,
            created,
            modified,
            x_min,
            y_min,
            x_max,
            y_max,
            mac_style,
            lowest_rec_ppem,
            font_direction_hint,
            index_to_loc_format,
            glyph_data_format,
        })
    }

    /// Encodes the record back into its 54-byte big-endian layout.
    ///
    /// Serialization exists to support round-trip testing; decoding
    /// the returned bytes at offset 0 yields this record again.
    pub fn bytes(&self) -> (r: Vec<u8>)
        ensures
            encodes(r@, *self),
    {
        let mut data: Vec<u8> = Vec::new();
        crate::codec::push_u32_be(&mut data, crate::codec::i32_image(self.version.0));
        crate::codec::push_u32_be(&mut data, crate::codec::i32_image(self.font_revision.0));
        crate::codec::push_u32_be(&mut data, self.check_sum_adjustment);
        crate::codec::push_u32_be(&mut data, self.magic_number);
        crate::codec::push_u16_be(&mut data, self.flags);
        crate::codec::push_u16_be(&mut data, self.units_per_em);
        crate::codec::push_u64_be(&mut data, crate::codec::i64_image(self.created));
        crate::codec::push_u64_be(&mut data, crate::codec::i64_image(self.modified));
        crate::codec::push_u16_be(&mut data, crate::codec::i16_image(self.x_min));
        crate::codec::push_u16_be(&mut data, crate::codec::i16_image(self.y_min));
        crate::codec::push_u16_be(&mut data, crate::codec::i16_image(self.x_max));
        crate::codec::push_u16_be(&mut data, crate::codec::i16_image(self.y_max));
        crate::codec::push_u16_be(&mut data, self.mac_style);
        crate::codec::push_u16_be(&mut data, self.lowest_rec_ppem);
        crate::codec::push_u16_be(&mut data, crate::codec::i16_image(self.font_direction_hint));
        crate::codec::push_u16_be(&mut data, self.index_to_loc_format);
        crate::codec::push_u16_be(&mut data, crate::codec::i16_image(self.glyph_data_format));
        data
    }

    /// Returns the stored number of units per em for the font.
    ///
    /// This value should be a power of 2; its range is from 64 through
    /// 16384. Scaling it to a floating value is the caller's concern.
    pub fn units_per_em(&self) -> (r: u16)
        ensures
            r == self.units_per_em,
    {
        self.units_per_em
    }

    /// Returns the bounding box around all possible characters, with
    /// each coordinate widened to 32 bits.
    pub fn bounding_box(&self) -> (r: BBox)
        ensures
            r.x0 == self.x_min as int,
            r.y0 == self.y_min as int,
            r.x1 == self.x_max as int,
            r.y1 == self.y_max as int,
    {
        BBox {
            x0: self.x_min as i32,
            y0: self.y_min as i32,
            x1: self.x_max as i32,
            y1: self.y_max as i32,
        }
    }

    /// Returns the offset format used in the index-to-location
    /// (`loca`) table.
    ///
    /// The discriminant was constrained to 0 or 1 during decoding, so
    /// this mapping is total on every record `from_data` returns.
    pub fn location_format(&self) -> (r: LocationFormat)
        requires
            self.index_to_loc_format <= 1,
        ensures
            self.index_to_loc_format == 0 ==> r == LocationFormat::Short,
            self.index_to_loc_format == 1 ==> r == LocationFormat::Long,
    {
        if self.index_to_loc_format == 0 {
            LocationFormat::Short
        } else {
            LocationFormat::Long
        }
    }
}

/// Decoding at an offset at or past the end of the data always fails
/// as malformed, before any field is read.
pub proof fn lemma_decode_out_of_bounds(s: Seq<u8>, off: int)
    requires
        off >= s.len(),
    ensures
        spec_decode(s, off) == Err::<HEAD, Error>(Error::Malformed),
{
}

/// Round trip: a record that decoded successfully from some byte
/// region re-encodes to bytes that decode to that same record.
pub proof fn lemma_round_trip(s: Seq<u8>, off: int, h: HEAD, e: Seq<u8>)
    requires
        spec_decode(s, off) == Ok::<HEAD, Error>(h),
        encodes(e, h),
    ensures
        spec_decode(e, 0) == Ok::<HEAD, Error>(h),
{
    assert(spec_head_at(e, 0) == h);
}

/// Version gate: the encoding of any record whose version field is not
/// the sentinel fails to decode with `HEADVersionIsNotSupported`,
/// never with a different variant, whatever the remaining fields hold.
pub proof fn lemma_version_gate(e: Seq<u8>, h: HEAD)
    requires
        encodes(e, h),
        h.version != Fixed(HEAD_VERSION),
    ensures
        spec_decode(e, 0) == Err::<HEAD, Error>(Error::HEADVersionIsNotSupported),
{
}

/// Validation order: the encoding of a record with a valid version but
/// an out-of-range location-format discriminant fails with
/// `UnknownLocationFormat`, not `Malformed`, because every fixed-width
/// field is present.
pub proof fn lemma_discriminant_validation_order(e: Seq<u8>, h: HEAD)
    requires
        encodes(e, h),
        h.version == Fixed(HEAD_VERSION),
        h.index_to_loc_format > 1,
    ensures
        spec_decode(e, 0) == Err::<HEAD, Error>(Error::UnknownLocationFormat),
{
}

/// Truncation: any strict prefix of a region that decodes successfully
/// at offset 0 is shorter than the fixed layout and fails as
/// malformed.
pub proof fn lemma_truncation(s: Seq<u8>, h: HEAD, n: int)
    requires
        spec_decode(s, 0) == Ok::<HEAD, Error>(h),
        0 <= n < HEAD_SIZE,
    ensures
        spec_decode(s.take(n), 0) == Err::<HEAD, Error>(Error::Malformed),
{
}

} // verus!
