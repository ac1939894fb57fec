//! The built-in data source managers: they accept every registration and
//! decode a payload of exactly eight bytes as one big-endian number.

use vstd::prelude::*;
use crate::server_plugin::{
    DataSourceManager,
    DataSourceManagerError,
    FloatBits,
    FloatDataSourceManager,
    IIntegerDataSourceManager,
    UIntegerDataSourceManager,
};

verus! {

/// The number of bytes of a payload.
pub const PAYLOAD_LEN: usize = 8;

/// The unsigned number that eight bytes spell, most significant byte first.
pub open spec fn be_unsigned(bytes: Seq<u8>) -> int
    recommends
        bytes.len() == 8,
{
    bytes[0] * 0x0100_0000_0000_0000 + bytes[1] * 0x0001_0000_0000_0000 + bytes[2]
        * 0x0000_0100_0000_0000 + bytes[3] * 0x0000_0001_0000_0000 + bytes[4] * 0x0000_0000_0100_0000
        + bytes[5] * 0x0000_0000_0001_0000 + bytes[6] * 0x0000_0000_0000_0100 + bytes[7]
}

/// The signed number that eight bytes spell in two's complement, most
/// significant byte first.
pub open spec fn be_signed(bytes: Seq<u8>) -> int
    recommends
        bytes.len() == 8,
{
    if be_unsigned(bytes) < 0x8000_0000_0000_0000 {
        be_unsigned(bytes)
    } else {
        be_unsigned(bytes) - 0x1_0000_0000_0000_0000
    }
}

/// What decoding `data` gives when it yields `value` for a well-sized
/// payload: the value for eight bytes, and `InvalidData` for any other
/// length.
pub open spec fn decodes_to<T>(data: Seq<u8>, value: T, r: Result<T, DataSourceManagerError>) -> bool {
    if data.len() == 8 {
        r == Ok::<T, DataSourceManagerError>(value)
    } else {
        r is Err && r->Err_0.detail() == "could not convert slice to array"@
    }
}

/// The error for a payload that is not eight bytes long.
fn wrong_length() -> (err: DataSourceManagerError)
    ensures
        err.detail() == "could not convert slice to array"@,
{
    DataSourceManagerError::InvalidData("could not convert slice to array".to_owned())
}

/// Decodes eight bytes as a big-endian unsigned integer.
pub fn decode_unsigned(data: &[u8]) -> (r: Result<u64, DataSourceManagerError>)
    ensures
        decodes_to(data@, be_unsigned(data@) as u64, r),
        data@.len() == 8 ==> 0 <= be_unsigned(data@) <= u64::MAX,
{
    if data.len() != PAYLOAD_LEN {
        return Err(wrong_length());
    }
    let b0: u64 = data[0] as u64;
    let b1: u64 = data[1] as u64;
    let b2: u64 = data[2] as u64;
    let b3: u64 = data[3] as u64;
    let b4: u64 = data[4] as u64;
    let b5: u64 = data[5] as u64;
    let b6: u64 = data[6] as u64;
    let b7: u64 = data[7] as u64;
    Ok(
        b0 * 0x0100_0000_0000_0000 + b1 * 0x0001_0000_0000_0000 + b2 * 0x0000_0100_0000_0000 + b3
            * 0x0000_0001_0000_0000 + b4 * 0x0000_0000_0100_0000 + b5 * 0x0000_0000_0001_0000 + b6
            * 0x0000_0000_0000_0100 + b7,
    )
}

/// Decodes eight bytes as a big-endian signed integer in two's complement.
pub fn decode_signed(data: &[u8]) -> (r: Result<i64, DataSourceManagerError>)
    ensures
        decodes_to(data@, be_signed(data@) as i64, r),
        data@.len() == 8 ==> i64::MIN <= be_signed(data@) <= i64::MAX,
{
    match decode_unsigned(data) {
        Err(err) => Err(err),
        Ok(bits) => if bits < 0x8000_0000_0000_0000 {
            Ok(bits as i64)
        } else {
            Ok(((bits - 0x8000_0000_0000_0000) as i64) + i64::MIN)
        },
    }
}

/// Decodes eight bytes as the big-endian bit pattern of a floating-point
/// number.
pub fn decode_float(data: &[u8]) -> (r: Result<FloatBits, DataSourceManagerError>)
    ensures
        decodes_to(data@, FloatBits(be_unsigned(data@) as u64), r),
{
    match decode_unsigned(data) {
        Err(err) => Err(err),
        Ok(bits) => Ok(FloatBits(bits)),
    }
}

/// The built-in manager of signed integer readings.
pub struct DefaultIIntegerDataManager;

impl DataSourceManager<i64> for DefaultIIntegerDataManager {
    open spec fn manager_id_result(&self, id: Seq<char>) -> bool {
        id == "FlorustDefaultIIntegerDataManager"@
    }

    open spec fn register_result(&self, id: Seq<char>, r: Result<(), DataSourceManagerError>) -> bool {
        r is Ok
    }

    open spec fn register_with_data_result(
        &self,
        id: Seq<char>,
        data: Seq<u8>,
        r: Result<(), DataSourceManagerError>,
    ) -> bool {
        r is Ok
    }

    open spec fn deregister_result(
        &self,
        id: Seq<char>,
        r: Result<(), DataSourceManagerError>,
    ) -> bool {
        r is Ok
    }

    open spec fn deregister_with_data_result(
        &self,
        id: Seq<char>,
        data: Seq<u8>,
        r: Result<(), DataSourceManagerError>,
    ) -> bool {
        r is Ok
    }

    open spec fn update_data_result(
        &self,
        id: Seq<char>,
        data: Seq<u8>,
        r: Result<i64, DataSourceManagerError>,
    ) -> bool {
        decodes_to(data, be_signed(data) as i64, r)
    }

    fn manager_id(&self) -> (id: &'static str) {
        "FlorustDefaultIIntegerDataManager"
    }

    fn register(&mut self, _id: String) -> (r: Result<(), DataSourceManagerError>) {
        Ok(())
    }

    fn register_with_data(&mut self, _id: String, _data: &[u8]) -> (r: Result<
        (),
        DataSourceManagerError,
    >) {
        Ok(())
    }

    fn deregister(&mut self, _id: &str) -> (r: Result<(), DataSourceManagerError>) {
        Ok(())
    }

    fn deregister_with_data(&mut self, _id: &str, _data: &[u8]) -> (r: Result<
        (),
        DataSourceManagerError,
    >) {
        Ok(())
    }

    fn update_data(&mut self, _id: &str, data: &[u8]) -> (r: Result<i64, DataSourceManagerError>) {
        decode_signed(data)
    }
}

impl IIntegerDataSourceManager for DefaultIIntegerDataManager {
}

/// The built-in manager of unsigned integer readings.
pub struct DefaultUIntegerDataManager;

impl DataSourceManager<u64> for DefaultUIntegerDataManager {
    open spec fn manager_id_result(&self, id: Seq<char>) -> bool {
        id == "FlorustDefaultUIntegerDataManager"@
    }

    open spec fn register_result(&self, id: Seq<char>, r: Result<(), DataSourceManagerError>) -> bool {
        r is Ok
    }

    open spec fn register_with_data_result(
        &self,
        id: Seq<char>,
        data: Seq<u8>,
        r: Result<(), DataSourceManagerError>,
    ) -> bool {
        r is Ok
    }

    open spec fn deregister_result(
        &self,
        id: Seq<char>,
        r: Result<(), DataSourceManagerError>,
    ) -> bool {
        r is Ok
    }

    open spec fn deregister_with_data_result(
        &self,
        id: Seq<char>,
        data: Seq<u8>,
        r: Result<(), DataSourceManagerError>,
    ) -> bool {
        r is Ok
    }

    open spec fn update_data_result(
        &self,
        id: Seq<char>,
        data: Seq<u8>,
        r: Result<u64, DataSourceManagerError>,
    ) -> bool {
        decodes_to(data, be_unsigned(data) as u64, r)
    }

    fn manager_id(&self) -> (id: &'static str) {
        "FlorustDefaultUIntegerDataManager"
    }

    fn register(&mut self, _id: String) -> (r: Result<(), DataSourceManagerError>) {
        Ok(())
    }

    fn register_with_data(&mut self, _id: String, _data: &[u8]) -> (r: Result<
        (),
        DataSourceManagerError,
    >) {
        Ok(())
    }

    fn deregister(&mut self, _id: &str) -> (r: Result<(), DataSourceManagerError>) {
        Ok(())
    }

    fn deregister_with_data(&mut self, _id: &str, _data: &[u8]) -> (r: Result<
        (),
        DataSourceManagerError,
    >) {
        Ok(())
    }

    fn update_data(&mut self, _id: &str, data: &[u8]) -> (r: Result<u64, DataSourceManagerError>) {
        decode_unsigned(data)
    }
}

impl UIntegerDataSourceManager for DefaultUIntegerDataManager {
}

/// The built-in manager of floating-point readings.
pub struct DefaultFloatDataManager;

impl DataSourceManager<FloatBits> for DefaultFloatDataManager {
    open spec fn manager_id_result(&self, id: Seq<char>) -> bool {
        id == "FlorustDefaultFloatDataManager"@
    }

    open spec fn register_result(&self, id: Seq<char>, r: Result<(), DataSourceManagerError>) -> bool {
        r is Ok
    }

    open spec fn register_with_data_result(
        &self,
        id: Seq<char>,
        data: Seq<u8>,
        r: Result<(), DataSourceManagerError>,
    ) -> bool {
        r is Ok
    }

    open spec fn deregister_result(
        &self,
        id: Seq<char>,
        r: Result<(), DataSourceManagerError>,
    ) -> bool {
        r is Ok
    }

    open spec fn deregister_with_data_result(
        &self,
        id: Seq<char>,
        data: Seq<u8>,
        r: Result<(), DataSourceManagerError>,
    ) -> bool {
        r is Ok
    }

    open spec fn update_data_result(
        &self,
        id: Seq<char>,
        data: Seq<u8>,
        r: Result<FloatBits, DataSourceManagerError>,
    ) -> bool {
        decodes_to(data, FloatBits(be_unsigned(data) as u64), r)
    }

    fn manager_id(&self) -> (id: &'static str) {
        "FlorustDefaultFloatDataManager"
    }

    fn register(&mut self, _id: String) -> (r: Result<(), DataSourceManagerError>) {
        Ok(())
    }

    fn register_with_data(&mut self, _id: String, _data: &[u8]) -> (r: Result<
        (),
        DataSourceManagerError,
    >) {
        Ok(())
    }

    fn deregister(&mut self, _id: &str) -> (r: Result<(), DataSourceManagerError>) {
        Ok(())
    }

    fn deregister_with_data(&mut self, _id: &str, _data: &[u8]) -> (r: Result<
        (),
        DataSourceManagerError,
    >) {
        Ok(())
    }

    fn update_data(&mut self, _id: &str, data: &[u8]) -> (r: Result<
        FloatBits,
        DataSourceManagerError,
    >) {
        decode_float(data)
    }
}

impl FloatDataSourceManager for DefaultFloatDataManager {
}

} // verus!
