use risio::datatype::{DataType, ImageType, ZAxisEncodingCode};
use risio::error::Error;

#[test]
fn is_a_test() {
    assert!(true);
}

#[test]
fn datatype_codes_roundtrip() {
    let all = [
        DataType::U8,
        DataType::I8,
        DataType::U16,
        DataType::I16,
        DataType::U32,
        DataType::I32,
        DataType::U64,
        DataType::I64,
        DataType::F32,
        DataType::F64,
        DataType::C64,
        DataType::C128,
        DataType::F16,
    ];
    for (i, d) in all.iter().enumerate() {
        let code: u8 = u8::from(*d);
        assert_eq!(code as usize, i + 1);
        assert_eq!(DataType::try_from(code).unwrap(), *d);
    }
}

#[test]
fn datatype_into_code() {
    let code: u8 = DataType::F64.into();
    assert_eq!(code, 10);
}

#[test]
fn unsupported_datatype_codes() {
    assert!(matches!(DataType::try_from(0u8), Err(Error::UnsupportedDataType(0))));
    assert!(matches!(DataType::try_from(14u8), Err(Error::UnsupportedDataType(14))));
    assert!(matches!(DataType::try_from(255u8), Err(Error::UnsupportedDataType(255))));
}

#[test]
fn typesizes() {
    assert_eq!(DataType::U8.typesize(), 1);
    assert_eq!(DataType::I8.typesize(), 1);
    assert_eq!(DataType::U16.typesize(), 2);
    assert_eq!(DataType::I16.typesize(), 2);
    assert_eq!(DataType::U32.typesize(), 4);
    assert_eq!(DataType::I32.typesize(), 4);
    assert_eq!(DataType::U64.typesize(), 8);
    assert_eq!(DataType::I64.typesize(), 8);
    assert_eq!(DataType::F32.typesize(), 4);
    assert_eq!(DataType::F64.typesize(), 8);
    assert_eq!(DataType::C64.typesize(), 8);
    assert_eq!(DataType::C128.typesize(), 16);
    assert_eq!(DataType::F16.typesize(), 2);
}

#[test]
fn image_type_codes() {
    assert_eq!(u64::from(ImageType::image()), 0x2);
    assert_eq!(u64::from(ImageType::circular_buffer()), 0x23);
    let all_flags = ImageType {
        circular_buffer: true,
        vector_or_matrix: true,
        stream_from_other_computer: true,
        stream_for_other_computer: true,
        axis_encoding_code: ZAxisEncodingCode::MappingIndex,
    };
    assert_eq!(u64::from(all_flags), 0x4f);
    let remote = ImageType {
        circular_buffer: false,
        vector_or_matrix: false,
        stream_from_other_computer: true,
        stream_for_other_computer: false,
        axis_encoding_code: ZAxisEncodingCode::WavelengthCoordinate,
    };
    assert_eq!(u64::from(remote), 0x34);
    let spatial = ImageType {
        circular_buffer: false,
        vector_or_matrix: false,
        stream_from_other_computer: false,
        stream_for_other_computer: true,
        axis_encoding_code: ZAxisEncodingCode::SpatialCoordinate,
    };
    assert_eq!(u64::from(spatial), 0x18);
}

#[test]
fn image_type_constructors() {
    let im = ImageType::image();
    assert!(!im.circular_buffer && im.vector_or_matrix);
    assert_eq!(im.axis_encoding_code, ZAxisEncodingCode::Undefined);
    let cb = ImageType::circular_buffer();
    assert!(cb.circular_buffer && cb.vector_or_matrix);
    assert_eq!(cb.axis_encoding_code, ZAxisEncodingCode::TemporalCoordinate);
    assert_eq!(ZAxisEncodingCode::default(), ZAxisEncodingCode::Undefined);
}
