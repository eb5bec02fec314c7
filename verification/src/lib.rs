//! Protected flash regions (CFPA field area, CMPA factory area and keystore) of
//! the NXP LPC55 family: their typed views, the bit-field words they are made
//! of, and the byte images in which the bootloader keeps them.

pub mod boot;
pub mod bytes;
pub mod customer;
pub mod debug;
pub mod digest;
pub mod factory;
pub mod field;
pub mod flash;
pub mod keystore;
pub mod security;
pub mod text;

pub use boot::{BootConfiguration, BootSpeed, IspMode, UsbId};
pub use bytes::ParseError;
pub use customer::{
    fill_returning_hash, CustomerDataBytes, FactoryAreaCustomerData, FactoryAreaVendorUsage,
    FieldAreaCustomerData, FieldAreaVendorUsage, RawCustomerData, RawVendorUsage, Sha256Hash,
    VendorUsageWord,
};
pub use debug::{DebugSecurityPolicies, DebugSecurityPolicy};
pub use factory::{parse_factory, FactoryArea};
pub use field::{
    parse_field_page, FactoryAreaProgInProgress, FieldArea, FieldAreaPage, Header,
    MonotonicCounter, PrinceIvCode,
};
pub use flash::{NxpArea, ProtectedFlash};
pub use keystore::{parse_keystore, ActivationCode, Keycode, Keystore, KeystoreHeader};
pub use security::{
    boolmulti, multibool, PrinceConfiguration, PrinceSubregion, RotKeyStatus, RotKeysStatus,
    SecureBootConfiguration, TrustzoneMode,
};
pub use text::format_bytes;
