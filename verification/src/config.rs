use vstd::prelude::*;
use vstd::string::StringSliceAdditionalSpecFns;
use vstd::string::StrSliceExecFns;

verus! {

/// 128-bit identifier of the advertised GATT service.
pub const SERVICE_UUID: u128 = 0x12345678_1234_1234_1234_123456789abc;

/// 128-bit identifier of the single characteristic within the service.
pub const CHARACTERISTIC_UUID: u128 = 0x87654321_4321_4321_4321_cba987654321;

/// The local name broadcast while advertising.
pub open spec fn default_local_name() -> Seq<char> {
    "RustBLE"@
}

/// The byte sequence the characteristic serves for its whole lifetime.
pub open spec fn default_initial_value() -> Seq<u8> {
    "Hello from Rust BLE Peripheral!".spec_bytes()
}

/// The configuration of one peripheral process: the two identifiers, the
/// advertised local name, and the initial (and, by design, permanent)
/// characteristic value.
pub struct Config {
    pub service_uuid: u128,
    pub characteristic_uuid: u128,
    pub local_name: String,
    pub initial_value: Vec<u8>,
}

impl Config {
    /// The built-in configuration: fixed identifiers, local name "RustBLE",
    /// and the fixed greeting as the characteristic value.
    pub fn standard() -> (c: Config)
        ensures
            c.service_uuid == SERVICE_UUID,
            c.characteristic_uuid == CHARACTERISTIC_UUID,
            c.local_name@ == default_local_name(),
            c.initial_value@ == default_initial_value(),
    {
        Config {
            service_uuid: SERVICE_UUID,
            characteristic_uuid: CHARACTERISTIC_UUID,
            local_name: "RustBLE".to_owned(),
            initial_value: "Hello from Rust BLE Peripheral!".as_bytes_vec(),
        }
    }
}

} // verus!
