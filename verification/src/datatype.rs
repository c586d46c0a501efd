//! Element types and image types of an ImageStreamIO stream, and their codes.
use crate::error::Error;
use vstd::prelude::*;
use vstd::std_specs::convert::FromSpecImpl;
use vstd::std_specs::convert::TryFromSpecImpl;

verus! {

/// The element type of an image, as enumerated by ImageStreamIO.
#[derive(Debug, Clone, Copy, PartialEq, Eq, Structural)]
pub enum DataType {
    /// uint8_t
    U8,
    /// int8_t
    I8,
    /// uint16_t
    U16,
    /// int16_t
    I16,
    /// uint32_t
    U32,
    /// int32_t
    I32,
    /// uint64_t
    U64,
    /// int64_t
    I64,
    /// IEEE 754 binary32
    F32,
    /// IEEE 754 binary64
    F64,
    /// complex float
    C64,
    /// complex double
    C128,
    /// half precision float
    F16,
}

/// The ISIO code of a data type (1 to 13, in declaration order).
pub open spec fn spec_datatype_code(d: DataType) -> u8 {
    match d {
        DataType::U8 => 1,
        DataType::I8 => 2,
        DataType::U16 => 3,
        DataType::I16 => 4,
        DataType::U32 => 5,
        DataType::I32 => 6,
        DataType::U64 => 7,
        DataType::I64 => 8,
        DataType::F32 => 9,
        DataType::F64 => 10,
        DataType::C64 => 11,
        DataType::C128 => 12,
        DataType::F16 => 13,
    }
}

/// The size in bytes of one element of a data type.
pub open spec fn spec_typesize(d: DataType) -> usize {
    match d {
        DataType::U8 => 1,
        DataType::I8 => 1,
        DataType::U16 => 2,
        DataType::I16 => 2,
        DataType::U32 => 4,
        DataType::I32 => 4,
        DataType::U64 => 8,
        DataType::I64 => 8,
        DataType::F32 => 4,
        DataType::F64 => 8,
        DataType::C64 => 8,
        DataType::C128 => 16,
        DataType::F16 => 2,
    }
}

impl DataType {
    /// Size in bytes of one element of this type.
    pub fn typesize(&self) -> (r: usize)
        ensures
            r == spec_typesize(*self),
            r == 1 || r == 2 || r == 4 || r == 8 || r == 16,
    {
        match self {
            DataType::U8 => 1,
            DataType::I8 => 1,
            DataType::U16 => 2,
            DataType::I16 => 2,
            DataType::U32 => 4,
            DataType::I32 => 4,
            DataType::U64 => 8,
            DataType::I64 => 8,
            DataType::F32 => 4,
            DataType::F64 => 8,
            DataType::C64 => 8,
            DataType::C128 => 16,
            DataType::F16 => 2,
        }
    }
}

/// The data type with a given ISIO code, if the code names one.
pub open spec fn spec_datatype_from_code(x: u8) -> Option<DataType> {
    if x == 1 {
        Some(DataType::U8)
    } else if x == 2 {
        Some(DataType::I8)
    } else if x == 3 {
        Some(DataType::U16)
    } else if x == 4 {
        Some(DataType::I16)
    } else if x == 5 {
        Some(DataType::U32)
    } else if x == 6 {
        Some(DataType::I32)
    } else if x == 7 {
        Some(DataType::U64)
    } else if x == 8 {
        Some(DataType::I64)
    } else if x == 9 {
        Some(DataType::F32)
    } else if x == 10 {
        Some(DataType::F64)
    } else if x == 11 {
        Some(DataType::C64)
    } else if x == 12 {
        Some(DataType::C128)
    } else if x == 13 {
        Some(DataType::F16)
    } else {
        None
    }
}

/// Decoding a code: the data type it names, or `UnsupportedDataType` with
/// the code itself.
pub open spec fn spec_datatype_try_from(x: u8) -> Result<DataType, Error> {
    match spec_datatype_from_code(x) {
        Some(d) => Ok(d),
        None => Err(Error::UnsupportedDataType(x)),
    }
}

impl From<DataType> for u8 {
    /// The ISIO code of a data type.
    fn from(value: DataType) -> (r: u8) {
        match value {
            DataType::U8 => 1,
            DataType::I8 => 2,
            DataType::U16 => 3,
            DataType::I16 => 4,
            DataType::U32 => 5,
            DataType::I32 => 6,
            DataType::U64 => 7,
            DataType::I64 => 8,
            DataType::F32 => 9,
            DataType::F64 => 10,
            DataType::C64 => 11,
            DataType::C128 => 12,
            DataType::F16 => 13,
        }
    }
}

impl FromSpecImpl<DataType> for u8 {
    open spec fn obeys_from_spec() -> bool {
        true
    }

    open spec fn from_spec(v: DataType) -> u8 {
        spec_datatype_code(v)
    }
}

impl TryFrom<u8> for DataType {
    type Error = Error;

    /// The data type named by an ISIO code; codes outside 1..=13 give
    /// `Error::UnsupportedDataType`.
    fn try_from(value: u8) -> (r: Result<Self, Self::Error>) {
        let d = if value == 1 {
            DataType::U8
        } else if value == 2 {
            DataType::I8
        } else if value == 3 {
            DataType::U16
        } else if value == 4 {
            DataType::I16
        } else if value == 5 {
            DataType::U32
        } else if value == 6 {
            DataType::I32
        } else if value == 7 {
            DataType::U64
        } else if value == 8 {
            DataType::I64
        } else if value == 9 {
            DataType::F32
        } else if value == 10 {
            DataType::F64
        } else if value == 11 {
            DataType::C64
        } else if value == 12 {
            DataType::C128
        } else if value == 13 {
            DataType::F16
        } else {
            return Err(Error::UnsupportedDataType(value));
        };
        Ok(d)
    }
}

impl TryFromSpecImpl<u8> for DataType {
    open spec fn obeys_try_from_spec() -> bool {
        true
    }

    open spec fn try_from_spec(v: u8) -> Result<DataType, Error> {
        spec_datatype_try_from(v)
    }
}

/// Every data type survives the trip through its code: decoding the code of
/// `d` gives `d` back.
pub proof fn lemma_datatype_code_roundtrip(d: DataType)
    ensures
        spec_datatype_try_from(spec_datatype_code(d)) == Ok::<DataType, Error>(d),
        1 <= spec_datatype_code(d) <= 13,
{
}

/// A code that decodes to a data type is that data type's code, and the codes
/// that decode are exactly 1 to 13.
pub proof fn lemma_datatype_code_decode(x: u8)
    ensures
        spec_datatype_from_code(x) is Some <==> 1 <= x <= 13,
        spec_datatype_from_code(x) matches Some(d) ==> spec_datatype_code(d) == x,
{
}

/// The image-type flag of a circular buffer.
pub const CIRCULAR_BUFFER: u64 = 0x1;
/// The image-type flag of a vector or matrix.
pub const MATH_DATA: u64 = 0x2;
/// The image-type flag of a stream received from another computer.
pub const IMG_RECV: u64 = 0x4;
/// The image-type flag of a stream sent to another computer.
pub const IMG_SENT: u64 = 0x8;
/// Z-axis code: undefined.
pub const ZAXIS_UNDEF: u64 = 0x0;
/// Z-axis code: spatial coordinate.
pub const ZAXIS_SPACIAL: u64 = 0x10;
/// Z-axis code: temporal coordinate.
pub const ZAXIS_TEMPORAL: u64 = 0x20;
/// Z-axis code: wavelength coordinate.
pub const ZAXIS_WAVELENGTH: u64 = 0x30;
/// Z-axis code: mapping index.
pub const ZAXIS_MAPPING: u64 = 0x40;

/// The kind of an image: four flags and the meaning of its third axis.
#[derive(Debug, Clone, Copy, PartialEq, Eq, Structural)]
pub struct ImageType {
    pub circular_buffer: bool,
    pub vector_or_matrix: bool,
    pub stream_from_other_computer: bool,
    pub stream_for_other_computer: bool,
    pub axis_encoding_code: ZAxisEncodingCode,
}

/// What the third axis of an image stands for.
#[derive(Debug, Clone, Copy, PartialEq, Eq, Structural)]
pub enum ZAxisEncodingCode {
    Undefined,
    SpatialCoordinate,
    TemporalCoordinate,
    WavelengthCoordinate,
    MappingIndex,
}

impl Default for ZAxisEncodingCode {
    fn default() -> (r: Self)
        ensures
            r == ZAxisEncodingCode::Undefined,
    {
        ZAxisEncodingCode::Undefined
    }
}

/// The code of a z-axis meaning, as stored in an image type.
pub open spec fn spec_zaxis_code(z: ZAxisEncodingCode) -> u64 {
    match z {
        ZAxisEncodingCode::Undefined => ZAXIS_UNDEF,
        ZAxisEncodingCode::SpatialCoordinate => ZAXIS_SPACIAL,
        ZAxisEncodingCode::TemporalCoordinate => ZAXIS_TEMPORAL,
        ZAxisEncodingCode::WavelengthCoordinate => ZAXIS_WAVELENGTH,
        ZAxisEncodingCode::MappingIndex => ZAXIS_MAPPING,
    }
}

/// The code of an image type: the sum of the codes of its set flags and of its
/// z-axis meaning.
pub open spec fn spec_imagetype_code(t: ImageType) -> u64 {
    ((if t.circular_buffer { CIRCULAR_BUFFER } else { 0 }) + (if t.vector_or_matrix {
        MATH_DATA
    } else {
        0
    }) + (if t.stream_from_other_computer { IMG_RECV } else { 0 }) + (if t.stream_for_other_computer {
        IMG_SENT
    } else {
        0
    }) + spec_zaxis_code(t.axis_encoding_code)) as u64
}

impl From<ImageType> for u64 {
    /// The ISIO code of an image type.
    fn from(value: ImageType) -> (r: u64) {
        let mut result: u64 = 0;
        result += if value.circular_buffer { CIRCULAR_BUFFER } else { 0 };
        result += if value.vector_or_matrix { MATH_DATA } else { 0 };
        result += if value.stream_from_other_computer { IMG_RECV } else { 0 };
        result += if value.stream_for_other_computer { IMG_SENT } else { 0 };
        result += match value.axis_encoding_code {
            ZAxisEncodingCode::Undefined => ZAXIS_UNDEF,
            ZAxisEncodingCode::SpatialCoordinate => ZAXIS_SPACIAL,
            ZAxisEncodingCode::TemporalCoordinate => ZAXIS_TEMPORAL,
            ZAxisEncodingCode::WavelengthCoordinate => ZAXIS_WAVELENGTH,
            ZAxisEncodingCode::MappingIndex => ZAXIS_MAPPING,
        };
        result
    }
}

impl FromSpecImpl<ImageType> for u64 {
    open spec fn obeys_from_spec() -> bool {
        true
    }

    open spec fn from_spec(v: ImageType) -> u64 {
        spec_imagetype_code(v)
    }
}

/// Distinct image types have distinct codes: the code of an image type
/// determines every flag and the z-axis meaning.
pub proof fn lemma_imagetype_code_injective(a: ImageType, b: ImageType)
    requires
        spec_imagetype_code(a) == spec_imagetype_code(b),
    ensures
        a == b,
{
}

/// Every image-type code is below 0x80, and its low four bits are the flags.
pub proof fn lemma_imagetype_code_range(t: ImageType)
    ensures
        spec_imagetype_code(t) < 0x80,
        (spec_imagetype_code(t) % 2 == 1) == t.circular_buffer,
        (spec_imagetype_code(t) / 2 % 2 == 1) == t.vector_or_matrix,
        (spec_imagetype_code(t) / 4 % 2 == 1) == t.stream_from_other_computer,
        (spec_imagetype_code(t) / 8 % 2 == 1) == t.stream_for_other_computer,
{
}

impl ImageType {
    /// A plain image: a matrix, not a circular buffer, local, undefined z-axis.
    pub fn image() -> (r: Self)
        ensures
            r == (ImageType {
                circular_buffer: false,
                vector_or_matrix: true,
                stream_from_other_computer: false,
                stream_for_other_computer: false,
                axis_encoding_code: ZAxisEncodingCode::Undefined,
            }),
    {
        Self {
            circular_buffer: false,
            vector_or_matrix: true,
            stream_from_other_computer: false,
            stream_for_other_computer: false,
            axis_encoding_code: ZAxisEncodingCode::default(),
        }
    }

    /// A circular buffer of matrices along a temporal third axis.
    pub fn circular_buffer() -> (r: Self)
        ensures
            r == (ImageType {
                circular_buffer: true,
                vector_or_matrix: true,
                stream_from_other_computer: false,
                stream_for_other_computer: false,
                axis_encoding_code: ZAxisEncodingCode::TemporalCoordinate,
            }),
    {
        Self {
            circular_buffer: true,
            vector_or_matrix: true,
            stream_from_other_computer: false,
            stream_for_other_computer: false,
            axis_encoding_code: ZAxisEncodingCode::TemporalCoordinate,
        }
    }
}

} // verus!
