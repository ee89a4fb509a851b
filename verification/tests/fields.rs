use crx_dl::header::{magic_at, read_u32_le};
use crx_dl::{parse_header, FormatError, FormatVersion, HeaderDescriptor};

fn package(version: u32, rest: &[u32], tail: &[u8]) -> Vec<u8> {
    let mut crx = vec![0x43, 0x72, 0x32, 0x34];
    crx.extend_from_slice(&version.to_le_bytes());
    for field in rest {
        crx.extend_from_slice(&field.to_le_bytes());
    }
    crx.extend_from_slice(tail);
    crx
}

#[test]
fn magic_is_found_where_it_stands() {
    let bytes = [0, 0x43, 0x72, 0x32, 0x34, 0x43, 0x72, 0x32, 0x34, 0x43, 0x72];
    assert!(!magic_at(&bytes, 0));
    assert!(magic_at(&bytes, 1));
    assert!(!magic_at(&bytes, 2));
    assert!(magic_at(&bytes, 5));
    assert!(!magic_at(&bytes, 8));
    assert!(!magic_at(&bytes, 9));
    assert!(!magic_at(&bytes, 11));
    assert!(!magic_at(&bytes, usize::MAX));
    assert!(!magic_at(&[], 0));
    assert!(!magic_at(&[0x43, 0x72, 0x32], 0));
    assert!(magic_at(b"Cr24", 0));
    assert!(!magic_at(b"cr24", 0));
    assert!(!magic_at(b"Cr42", 0));
}

#[test]
fn number_is_read_least_significant_byte_first() {
    let bytes = [0x78, 0x56, 0x34, 0x12, 0xff, 0xff, 0xff, 0xff, 0x00];
    assert_eq!(read_u32_le(&bytes, 0), Some(0x1234_5678));
    assert_eq!(read_u32_le(&bytes, 1), Some(0xff12_3456));
    assert_eq!(read_u32_le(&bytes, 4), Some(u32::MAX));
    assert_eq!(read_u32_le(&bytes, 5), Some(0x00ff_ffff));
    assert_eq!(read_u32_le(&[1, 0, 0, 0], 0), Some(1));
    assert_eq!(read_u32_le(&[0, 1, 0, 0], 0), Some(256));
    assert_eq!(read_u32_le(&[0, 0, 1, 0], 0), Some(65536));
    assert_eq!(read_u32_le(&[0, 0, 0, 1], 0), Some(16777216));
}

#[test]
fn number_is_not_read_past_the_end() {
    let bytes = [0x78, 0x56, 0x34, 0x12, 0xff];
    assert_eq!(read_u32_le(&bytes, 2), None);
    assert_eq!(read_u32_le(&bytes, 5), None);
    assert_eq!(read_u32_le(&bytes, 6), None);
    assert_eq!(read_u32_le(&bytes, usize::MAX), None);
    assert_eq!(read_u32_le(&bytes, usize::MAX - 3), None);
    assert_eq!(read_u32_le(&[], 0), None);
    assert_eq!(read_u32_le(&[1, 2, 3], 0), None);
}

#[test]
fn version2_header_adds_both_lengths_to_sixteen() {
    assert_eq!(
        parse_header(&package(2, &[300, 70000], &[])),
        Ok(HeaderDescriptor {
            format_version: FormatVersion::V2,
            declared_section_length: 300,
            zip_payload_offset: 70316,
        })
    );
    assert_eq!(
        parse_header(&package(2, &[0, 0], &[1, 2, 3])),
        Ok(HeaderDescriptor {
            format_version: FormatVersion::V2,
            declared_section_length: 0,
            zip_payload_offset: 16,
        })
    );
}

#[test]
fn version3_header_adds_its_length_to_twelve() {
    assert_eq!(
        parse_header(&package(3, &[593], &[])),
        Ok(HeaderDescriptor {
            format_version: FormatVersion::V3,
            declared_section_length: 593,
            zip_payload_offset: 605,
        })
    );
    assert_eq!(
        parse_header(&package(3, &[0], &[0x43, 0x72, 0x32, 0x34])),
        Ok(HeaderDescriptor {
            format_version: FormatVersion::V3,
            declared_section_length: 0,
            zip_payload_offset: 12,
        })
    );
}

#[test]
fn offset_is_wide_enough_for_the_largest_lengths() {
    assert_eq!(
        parse_header(&package(2, &[u32::MAX, u32::MAX], &[])),
        Ok(HeaderDescriptor {
            format_version: FormatVersion::V2,
            declared_section_length: u32::MAX,
            zip_payload_offset: 8_589_934_606,
        })
    );
    assert_eq!(
        parse_header(&package(3, &[u32::MAX], &[])),
        Ok(HeaderDescriptor {
            format_version: FormatVersion::V3,
            declared_section_length: u32::MAX,
            zip_payload_offset: 4_294_967_307,
        })
    );
}

#[test]
fn header_faults_come_in_the_order_of_the_fields() {
    assert_eq!(parse_header(&[]), Err(FormatError::NotACrxContainer));
    assert_eq!(parse_header(b"Cr2"), Err(FormatError::NotACrxContainer));
    assert_eq!(parse_header(b"PK\x03\x04\x02\x00\x00\x00"), Err(FormatError::NotACrxContainer));
    assert_eq!(parse_header(b"Cr24"), Err(FormatError::MalformedHeader));
    assert_eq!(parse_header(b"Cr24\x02\x00\x00"), Err(FormatError::MalformedHeader));
    assert_eq!(parse_header(b"Cr24\x09\x00\x00\x00"), Err(FormatError::UnsupportedVersion(9)));
    assert_eq!(parse_header(b"Cr24\x03\x00\x00\x00"), Err(FormatError::MalformedHeader));
    assert_eq!(parse_header(b"Cr24\x03\x00\x00\x00\x00\x00\x00"), Err(FormatError::MalformedHeader));
    assert_eq!(parse_header(b"Cr24\x02\x00\x00\x00\x00\x00\x00\x00"), Err(FormatError::MalformedHeader));
    assert_eq!(
        parse_header(b"Cr24\x02\x00\x00\x00\x00\x00\x00\x00\x00\x00\x00"),
        Err(FormatError::MalformedHeader)
    );
    assert!(parse_header(b"Cr24\x02\x00\x00\x00\x00\x00\x00\x00\x00\x00\x00\x00").is_ok());
    assert!(parse_header(b"Cr24\x03\x00\x00\x00\x00\x00\x00\x00").is_ok());
}

#[test]
fn header_of_a_package_that_ends_early_is_still_read() {
    assert_eq!(
        parse_header(&package(3, &[50], &[1, 2, 3])),
        Ok(HeaderDescriptor {
            format_version: FormatVersion::V3,
            declared_section_length: 50,
            zip_payload_offset: 62,
        })
    );
}

#[test]
fn each_fault_has_its_message() {
    assert_eq!(FormatError::NotACrxContainer.message(), "input is not a crx file");
    assert_eq!(FormatError::UnsupportedVersion(1).message(), "invalid crx version");
    assert_eq!(FormatError::UnsupportedVersion(99).message(), "invalid crx version");
    assert_eq!(FormatError::TruncatedContainer.message(), "crx file ends before its zip data");
    assert_eq!(FormatError::MalformedHeader.message(), "crx file ends inside its header");
    assert_eq!(FormatError::NestingTooDeep.message(), "too many nested crx files");
}
