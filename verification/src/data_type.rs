//! Element data types of the interchange ABI: a base category code, a bit
//! width, and a lane count for vector types.

use vstd::prelude::*;

verus! {

/// Base categories of tensor element types. Each category has a fixed numeric
/// code on the wire, given by [`DataTypeCode::code`].
#[derive(Debug, Copy, Clone, PartialEq, Eq, Structural)]
pub enum DataTypeCode {
    /// Signed integer.
    Int,
    /// Unsigned integer.
    UInt,
    /// IEEE floating point.
    Float,
    /// Opaque handle type; both parties must agree on its meaning.
    OpaqueHandle,
    /// bfloat16.
    Bfloat,
    /// Complex number, stored as a compact struct per element.
    Complex,
    /// Boolean.
    Bool,
    Float8E3m4,
    Float8E4m3,
    Float8E4m3b11fnuz,
    Float8E4m3fn,
    Float8E4m3fnuz,
    Float8E5m2,
    Float8E5m2fnuz,
    Float8E8m0fnu,
    Float6E2m3fn,
    Float6E3m2fn,
    Float4E2m1fn,
}

impl DataTypeCode {
    /// Numeric code of this category on the wire.
    pub open spec fn spec_code(self) -> u8 {
        match self {
            DataTypeCode::Int => 0,
            DataTypeCode::UInt => 1,
            DataTypeCode::Float => 2,
            DataTypeCode::OpaqueHandle => 3,
            DataTypeCode::Bfloat => 4,
            DataTypeCode::Complex => 5,
            DataTypeCode::Bool => 6,
            DataTypeCode::Float8E3m4 => 7,
            DataTypeCode::Float8E4m3 => 8,
            DataTypeCode::Float8E4m3b11fnuz => 9,
            DataTypeCode::Float8E4m3fn => 10,
            DataTypeCode::Float8E4m3fnuz => 11,
            DataTypeCode::Float8E5m2 => 12,
            DataTypeCode::Float8E5m2fnuz => 13,
            DataTypeCode::Float8E8m0fnu => 14,
            DataTypeCode::Float6E2m3fn => 15,
            DataTypeCode::Float6E3m2fn => 16,
            DataTypeCode::Float4E2m1fn => 17,
        }
    }

    /// The category that a wire code denotes, if any.
    pub open spec fn spec_from_code(code: u8) -> Option<DataTypeCode> {
        if code == 0 {
            Some(DataTypeCode::Int)
        } else if code == 1 {
            Some(DataTypeCode::UInt)
        } else if code == 2 {
            Some(DataTypeCode::Float)
        } else if code == 3 {
            Some(DataTypeCode::OpaqueHandle)
        } else if code == 4 {
            Some(DataTypeCode::Bfloat)
        } else if code == 5 {
            Some(DataTypeCode::Complex)
        } else if code == 6 {
            Some(DataTypeCode::Bool)
        } else if code == 7 {
            Some(DataTypeCode::Float8E3m4)
        } else if code == 8 {
            Some(DataTypeCode::Float8E4m3)
        } else if code == 9 {
            Some(DataTypeCode::Float8E4m3b11fnuz)
        } else if code == 10 {
            Some(DataTypeCode::Float8E4m3fn)
        } else if code == 11 {
            Some(DataTypeCode::Float8E4m3fnuz)
        } else if code == 12 {
            Some(DataTypeCode::Float8E5m2)
        } else if code == 13 {
            Some(DataTypeCode::Float8E5m2fnuz)
        } else if code == 14 {
            Some(DataTypeCode::Float8E8m0fnu)
        } else if code == 15 {
            Some(DataTypeCode::Float6E2m3fn)
        } else if code == 16 {
            Some(DataTypeCode::Float6E3m2fn)
        } else if code == 17 {
            Some(DataTypeCode::Float4E2m1fn)
        } else {
            None
        }
    }

    /// Numeric code of this category on the wire.
    pub fn code(&self) -> (r: u8)
        ensures
            r == self.spec_code(),
    {
        match self {
            DataTypeCode::Int => 0,
            DataTypeCode::UInt => 1,
            DataTypeCode::Float => 2,
            DataTypeCode::OpaqueHandle => 3,
            DataTypeCode::Bfloat => 4,
            DataTypeCode::Complex => 5,
            DataTypeCode::Bool => 6,
            DataTypeCode::Float8E3m4 => 7,
            DataTypeCode::Float8E4m3 => 8,
            DataTypeCode::Float8E4m3b11fnuz => 9,
            DataTypeCode::Float8E4m3fn => 10,
            DataTypeCode::Float8E4m3fnuz => 11,
            DataTypeCode::Float8E5m2 => 12,
            DataTypeCode::Float8E5m2fnuz => 13,
            DataTypeCode::Float8E8m0fnu => 14,
            DataTypeCode::Float6E2m3fn => 15,
            DataTypeCode::Float6E3m2fn => 16,
            DataTypeCode::Float4E2m1fn => 17,
        }
    }

    /// Decode a wire code; codes outside the table are rejected.
    /// Decoding is the inverse of [`DataTypeCode::code`].
    pub fn from_code(code: u8) -> (r: Option<DataTypeCode>)
        ensures
            r == DataTypeCode::spec_from_code(code),
            r matches Some(c) ==> c.spec_code() == code,
            forall|c: DataTypeCode| c.spec_code() == code ==> r == Some(c),
    {
        let r = if code == 0 {
            Some(DataTypeCode::Int)
        } else if code == 1 {
            Some(DataTypeCode::UInt)
        } else if code == 2 {
            Some(DataTypeCode::Float)
        } else if code == 3 {
            Some(DataTypeCode::OpaqueHandle)
        } else if code == 4 {
            Some(DataTypeCode::Bfloat)
        } else if code == 5 {
            Some(DataTypeCode::Complex)
        } else if code == 6 {
            Some(DataTypeCode::Bool)
        } else if code == 7 {
            Some(DataTypeCode::Float8E3m4)
        } else if code == 8 {
            Some(DataTypeCode::Float8E4m3)
        } else if code == 9 {
            Some(DataTypeCode::Float8E4m3b11fnuz)
        } else if code == 10 {
            Some(DataTypeCode::Float8E4m3fn)
        } else if code == 11 {
            Some(DataTypeCode::Float8E4m3fnuz)
        } else if code == 12 {
            Some(DataTypeCode::Float8E5m2)
        } else if code == 13 {
            Some(DataTypeCode::Float8E5m2fnuz)
        } else if code == 14 {
            Some(DataTypeCode::Float8E8m0fnu)
        } else if code == 15 {
            Some(DataTypeCode::Float6E2m3fn)
        } else if code == 16 {
            Some(DataTypeCode::Float6E3m2fn)
        } else if code == 17 {
            Some(DataTypeCode::Float4E2m1fn)
        } else {
            None
        };
        r
    }
}

/// The element type a tensor holds: a base category, the number of bits of
/// one lane, and the number of lanes for vector types. A 32-bit float is
/// `{ code: Float, bits: 32, lanes: 1 }`.
#[derive(Debug, Copy, Clone, PartialEq, Eq, Structural)]
pub struct DataType {
    /// Base category of the element type.
    pub code: DataTypeCode,
    /// Bits of one lane; common choices are 8, 16, 32.
    pub bits: u8,
    /// Lanes in the type; more than one for vector types.
    pub lanes: u16,
}

impl DataType {
    /// Size of one element in bytes: `bits * lanes`, rounded up to whole
    /// bytes.
    pub open spec fn spec_size(self) -> int {
        (self.bits * self.lanes + 7) / 8
    }

    /// Assemble a data type from its three wire fields.
    pub fn new(code: DataTypeCode, bits: u8, lanes: u16) -> (r: Self)
        ensures
            r == (DataType { code, bits, lanes }),
    {
        DataType { code, bits, lanes }
    }

    /// Size of one element in bytes, computed as `bits * lanes` rounded up to
    /// whole bytes.
    pub fn size(&self) -> (r: usize)
        ensures
            r == self.spec_size(),
    {
        proof {
            assert((self.bits as int) * (self.lanes as int) <= 255 * 65535) by (nonlinear_arith)
                requires
                    self.bits <= 255,
                    self.lanes <= 65535,
            ;
        }
        (((self.bits as u32) * (self.lanes as u32) + 7) / 8) as usize
    }

    /// 32-bit float, the conventional default element type.
    pub fn float32() -> (r: Self)
        ensures
            r == (DataType { code: DataTypeCode::Float, bits: 32u8, lanes: 1u16 }),
    {
        DataType { code: DataTypeCode::Float, bits: 32, lanes: 1 }
    }

    /// 64-bit float.
    pub fn float64() -> (r: Self)
        ensures
            r == (DataType { code: DataTypeCode::Float, bits: 64u8, lanes: 1u16 }),
    {
        DataType { code: DataTypeCode::Float, bits: 64, lanes: 1 }
    }

    /// 16-bit float.
    pub fn float16() -> (r: Self)
        ensures
            r == (DataType { code: DataTypeCode::Float, bits: 16u8, lanes: 1u16 }),
    {
        DataType { code: DataTypeCode::Float, bits: 16, lanes: 1 }
    }

    /// bfloat16.
    pub fn bfloat16() -> (r: Self)
        ensures
            r == (DataType { code: DataTypeCode::Bfloat, bits: 16u8, lanes: 1u16 }),
    {
        DataType { code: DataTypeCode::Bfloat, bits: 16, lanes: 1 }
    }

    /// Boolean, stored in one byte.
    pub fn bool_() -> (r: Self)
        ensures
            r == (DataType { code: DataTypeCode::Bool, bits: 8u8, lanes: 1u16 }),
    {
        DataType { code: DataTypeCode::Bool, bits: 8, lanes: 1 }
    }

    /// Signed integer of the given bit width.
    pub fn signed(bits: u8) -> (r: Self)
        ensures
            r == (DataType { code: DataTypeCode::Int, bits, lanes: 1u16 }),
    {
        DataType { code: DataTypeCode::Int, bits, lanes: 1 }
    }

    /// Unsigned integer of the given bit width.
    pub fn unsigned(bits: u8) -> (r: Self)
        ensures
            r == (DataType { code: DataTypeCode::UInt, bits, lanes: 1u16 }),
    {
        DataType { code: DataTypeCode::UInt, bits, lanes: 1 }
    }
}

impl From<(DataTypeCode, u8, u16)> for DataType {
    /// Assemble a data type from the `(code, bits, lanes)` triple.
    fn from(value: (DataTypeCode, u8, u16)) -> (r: Self) {
        DataType { code: value.0, bits: value.1, lanes: value.2 }
    }
}

impl vstd::std_specs::convert::FromSpecImpl<(DataTypeCode, u8, u16)> for DataType {
    open spec fn obeys_from_spec() -> bool {
        true
    }

    open spec fn from_spec(v: (DataTypeCode, u8, u16)) -> Self {
        DataType { code: v.0, bits: v.1, lanes: v.2 }
    }
}

impl Default for DataType {
    /// Most frameworks create 32-bit float tensors by default.
    fn default() -> (r: Self)
        ensures
            r == (DataType { code: DataTypeCode::Float, bits: 32u8, lanes: 1u16 }),
    {
        DataType::float32()
    }
}

} // verus!
