use truetype::Error;
use truetype::tables::head::HEAD;
use truetype::types::BBox;
use truetype::types::Fixed;
use truetype::types::LocationFormat;

/// A well-formed 54-byte `head` table: version 0x00010000, units per
/// em 2048, index-to-location format 0, and a mix of positive and
/// negative coordinates.
fn valid_record_bytes() -> Vec<u8> {
    vec![
        0x00, 0x01, 0x00, 0x00, // version
        0x00, 0x01, 0x80, 0x00, // font revision
        0xAB, 0x12, 0xCD, 0x34, // checksum adjustment
        0x5F, 0x0F, 0x3C, 0xF5, // magic number
        0x00, 0x0B, // flags
        0x08, 0x00, // units per em
        0x00, 0x00, 0x00, 0x00, 0xD0, 0x8A, 0xF8, 0xBC, // created
        0x00, 0x00, 0x00, 0x00, 0xD0, 0x8B, 0x00, 0x01, // modified
        0xFF, 0x9C, // x min: -100
        0xFE, 0x0C, // y min: -500
        0x07, 0xD0, // x max: 2000
        0x03, 0xE8, // y max: 1000
        0x00, 0x01, // mac style
        0x00, 0x08, // lowest recommended ppem
        0x00, 0x02, // font direction hint
        0x00, 0x00, // index-to-loc format
        0x00, 0x00, // glyph data format
    ]
}

#[test]
fn decode_valid_record() {
    let data = valid_record_bytes();
    let head = HEAD::from_data(&data, 0).unwrap();
    assert_eq!(head.version, Fixed(0x00010000));
    assert_eq!(head.font_revision, Fixed(0x00018000));
    assert_eq!(head.check_sum_adjustment, 0xAB12CD34);
    assert_eq!(head.magic_number, 0x5F0F3CF5);
    assert_eq!(head.flags, 0x000B);
    assert_eq!(head.units_per_em, 2048);
    assert_eq!(head.created, 0x00000000D08AF8BC);
    assert_eq!(head.modified, 0x00000000D08B0001);
    assert_eq!(head.x_min, -100);
    assert_eq!(head.y_min, -500);
    assert_eq!(head.x_max, 2000);
    assert_eq!(head.y_max, 1000);
    assert_eq!(head.mac_style, 1);
    assert_eq!(head.lowest_rec_ppem, 8);
    assert_eq!(head.font_direction_hint, 2);
    assert_eq!(head.index_to_loc_format, 0);
    assert_eq!(head.glyph_data_format, 0);
}

#[test]
fn concrete_scenario_accessors_and_reencoding() {
    let data = valid_record_bytes();
    let head = HEAD::from_data(&data, 0).unwrap();
    assert_eq!(head.units_per_em() as f32, 2048.0);
    assert_eq!(head.location_format(), LocationFormat::Short);
    assert_eq!(
        head.bounding_box(),
        BBox { x0: -100, y0: -500, x1: 2000, y1: 1000 }
    );
    // Re-encoding reproduces the original 54 bytes exactly.
    assert_eq!(head.bytes(), data);
}

#[test]
fn round_trip_decode_encode_decode() {
    let data = valid_record_bytes();
    let head = HEAD::from_data(&data, 0).unwrap();
    let again = HEAD::from_data(&head.bytes(), 0).unwrap();
    assert_eq!(again, head);
}

#[test]
fn round_trip_with_long_location_format() {
    let mut head = HEAD::default();
    head.version = Fixed(0x00010000);
    head.index_to_loc_format = 1;
    head.created = -1;
    head.modified = i64::MIN;
    head.x_min = i16::MIN;
    head.y_max = i16::MAX;
    head.font_revision = Fixed(-0x00018000);
    head.glyph_data_format = -7;
    let encoded = head.bytes();
    assert_eq!(encoded.len(), 54);
    let again = HEAD::from_data(&encoded, 0).unwrap();
    assert_eq!(again, head);
    assert_eq!(again.location_format(), LocationFormat::Long);
}

#[test]
fn decode_at_nonzero_offset() {
    let mut data = vec![0xDE, 0xAD, 0xBE, 0xEF, 0x00];
    let offset = data.len();
    data.extend(valid_record_bytes());
    let head = HEAD::from_data(&data, offset).unwrap();
    assert_eq!(head.units_per_em, 2048);
    assert_eq!(head.bytes()[..], data[offset..offset + 54]);
}

#[test]
fn offset_at_or_past_end_is_malformed() {
    let data = valid_record_bytes();
    assert_eq!(HEAD::from_data(&data, data.len()), Err(Error::Malformed));
    assert_eq!(HEAD::from_data(&data, data.len() + 7), Err(Error::Malformed));
    assert_eq!(HEAD::from_data(&[], 0), Err(Error::Malformed));
}

#[test]
fn zeroed_record_fails_version_gate() {
    let head = HEAD::default();
    assert_eq!(
        HEAD::from_data(&head.bytes(), 0),
        Err(Error::HEADVersionIsNotSupported)
    );
}

#[test]
fn version_gate_preempts_short_buffer() {
    let head = HEAD::default();
    let encoded = head.bytes();
    // Even though the buffer is far too short for the full layout, the
    // version is readable and wrong, and that is what is reported.
    assert_eq!(
        HEAD::from_data(&encoded[..10], 0),
        Err(Error::HEADVersionIsNotSupported)
    );
}

#[test]
fn out_of_range_discriminant_fails_after_full_read() {
    let mut head = HEAD::default();
    head.version = Fixed(0x00010000);
    head.index_to_loc_format = 2;
    assert_eq!(
        HEAD::from_data(&head.bytes(), 0),
        Err(Error::UnknownLocationFormat)
    );
}

#[test]
fn truncated_buffer_is_malformed() {
    let data = valid_record_bytes();
    for n in [53, 52, 50, 20, 4, 3, 1, 0] {
        assert_eq!(
            HEAD::from_data(&data[..n], 0),
            Err(Error::Malformed),
            "length {}",
            n
        );
    }
}

#[test]
fn truncation_preempts_discriminant_validation() {
    let mut head = HEAD::default();
    head.version = Fixed(0x00010000);
    head.index_to_loc_format = 2;
    let encoded = head.bytes();
    // The discriminant bytes are present, but the layout is short, so
    // structural malformation wins over semantic validation.
    assert_eq!(
        HEAD::from_data(&encoded[..52], 0),
        Err(Error::Malformed)
    );
}

#[test]
fn error_descriptions() {
    assert_eq!(Error::Malformed.description(), "malformed data");
    assert_eq!(Error::MissingTable.description(), "missing table");
    assert_eq!(
        Error::HHEAVersionIsNotSupported.description(),
        "hhea version is not supported"
    );
    assert_eq!(
        Error::HEADVersionIsNotSupported.description(),
        "head version is not supported"
    );
    assert_eq!(
        Error::UnknownLocationFormat.description(),
        "unknown location format"
    );
}
