//! The customer manufacturing programmable area (CMPA), also called the factory
//! area: its byte image and how it is read from bytes.
use crate::boot::{self, BootConfiguration, UsbId};
use crate::bytes::{
    self, copy_into, get_u32, put_bytes, put_u16, put_u32, put_zeros, ParseError,
};
use crate::customer::{
    fill_returning_hash, CustomerDataBytes, FactoryAreaCustomerData, FactoryAreaVendorUsage,
    RawCustomerData, RawVendorUsage, Sha256Hash, VendorUsageWord,
};
use crate::debug::{self, DebugSecurityPolicies};
use crate::digest;
use crate::security::{self, PrinceConfiguration, PrinceSubregion, SecureBootConfiguration};
use vstd::prelude::*;
use vstd::slice::slice_subrange;

verus! {

/// The factory area page.
#[derive(Clone, Copy, Debug, Default, PartialEq, Eq, Hash, PartialOrd, Ord)]
pub struct FactoryArea<CustomerData = RawCustomerData, VendorUsage = RawVendorUsage> where
    CustomerData: FactoryAreaCustomerData,
    VendorUsage: FactoryAreaVendorUsage,
 {
    pub boot_configuration: BootConfiguration,
    pub usb_id: UsbId,
    pub debug_settings: DebugSecurityPolicies,
    pub vendor_usage: VendorUsage,
    pub secure_boot_configuration: SecureBootConfiguration,
    pub prince_configuration: PrinceConfiguration,
    pub prince_subregions: [PrinceSubregion; 3],
    pub rot_keys_table_hash: Sha256Hash,
    pub customer_data: CustomerData,
    pub sha256_hash: Sha256Hash,
}

/// The first 480 bytes of the factory area's image: boot configuration, a zero
/// word (SPI flash configuration), USB vendor and product identifiers, a zero word
/// (SDIO configuration), the two debug words, vendor usage, secure boot and PRINCE
/// configuration, the three PRINCE sub-region words, 32 reserved bytes, the hash of
/// the root key table, 144 reserved bytes and the customer data.
#[verifier::opaque]
pub open spec fn factory_area_body<C: FactoryAreaCustomerData, V: FactoryAreaVendorUsage>(
    area: FactoryArea<C, V>,
) -> Seq<u8> {
    bytes::le_bytes(boot::boot_configuration_word(area.boot_configuration)) + bytes::zeros(4)
        + bytes::le_bytes16(area.usb_id.vid) + bytes::le_bytes16(area.usb_id.pid) + bytes::zeros(
        4,
    ) + bytes::le_bytes(debug::debug_fixed_word(area.debug_settings)) + bytes::le_bytes(
        debug::debug_enabled_word(area.debug_settings),
    ) + bytes::le_bytes(area.vendor_usage.word()) + bytes::le_bytes(
        security::secure_boot_configuration_word(area.secure_boot_configuration),
    ) + bytes::le_bytes(security::prince_configuration_word(area.prince_configuration))
        + bytes::le_bytes(area.prince_subregions[0]@) + bytes::le_bytes(area.prince_subregions[1]@)
        + bytes::le_bytes(area.prince_subregions[2]@) + bytes::zeros(32)
        + area.rot_keys_table_hash.0@ + bytes::zeros(144) + area.customer_data.data_bytes()
}

/// The factory area's image body does not depend on the hash the area holds, so
/// writing the area a second time gives the same image.
pub proof fn lemma_factory_area_body_ignores_hash<
    C: FactoryAreaCustomerData,
    V: FactoryAreaVendorUsage,
>(area: FactoryArea<C, V>, hash: Sha256Hash)
    ensures
        factory_area_body(FactoryArea { sha256_hash: hash, ..area }) == factory_area_body(area),
{
    reveal(factory_area_body);
}

/// Whether the words at offsets 4 (SPI flash configuration) and 12 (SDIO
/// configuration) are zero, as far as `b` reaches them.
pub open spec fn factory_reserved_words_clear(b: Seq<u8>) -> bool {
    &&& 8 <= b.len() ==> bytes::word_at(b, 4) == 0
    &&& 16 <= b.len() ==> bytes::word_at(b, 12) == 0
}

/// The factory area that `b` holds at its start: each field at its offset, the
/// debug policies taking their "fixed" bits from the pinned word at 16 and their
/// "set" bits from the default word at 20.
pub open spec fn factory_area_read_from<C: FactoryAreaCustomerData, V: FactoryAreaVendorUsage>(
    b: Seq<u8>,
    area: FactoryArea<C, V>,
) -> bool {
    &&& area.boot_configuration == boot::boot_configuration_of(bytes::word_at(b, 0))
    &&& area.usb_id == boot::usb_id_of(bytes::word_at(b, 8))
    &&& area.debug_settings == debug::debug_security_policies_of(
        bytes::word_at(b, 16),
        bytes::word_at(b, 20),
    )
    &&& area.vendor_usage.word() == bytes::word_at(b, 24)
    &&& area.secure_boot_configuration == security::secure_boot_configuration_of(
        bytes::word_at(b, 28),
    )
    &&& area.prince_configuration == security::prince_configuration_of(bytes::word_at(b, 32))
    &&& area.prince_subregions[0]@ == bytes::word_at(b, 36)
    &&& area.prince_subregions[1]@ == bytes::word_at(b, 40)
    &&& area.prince_subregions[2]@ == bytes::word_at(b, 44)
    &&& area.rot_keys_table_hash.0@ == b.subrange(80, 112)
    &&& area.customer_data.data_bytes() == b.subrange(256, 480)
    &&& area.sha256_hash.0@ == b.subrange(480, 512)
}

impl<CustomerData, VendorUsage> FactoryArea<CustomerData, VendorUsage> where
    CustomerData: FactoryAreaCustomerData,
    VendorUsage: FactoryAreaVendorUsage,
 {
    /// The 512-byte image of the factory area: the fields, then the SHA-256 hash of
    /// the first 480 bytes, which also becomes the area's hash.
    pub fn to_bytes(&mut self) -> (page: [u8; 512])
        requires
            old(self).customer_data.data_bytes().len() == 224,
        ensures
            final(self).sha256_hash.0@ == digest::sha256(factory_area_body(*old(self))),
            *final(self) == (FactoryArea { sha256_hash: final(self).sha256_hash, ..*old(self) }),
            page@ == factory_area_body(*old(self)) + final(self).sha256_hash.0@,
    {
        let mut cursor: Vec<u8> = Vec::new();
        put_u32(&mut cursor, u32::from(self.boot_configuration));
        assert(cursor@ =~= bytes::le_bytes(boot::boot_configuration_word(self.boot_configuration)));
        put_zeros(&mut cursor, 4);
        put_u16(&mut cursor, self.usb_id.vid);
        put_u16(&mut cursor, self.usb_id.pid);
        put_zeros(&mut cursor, 4);

        let debug_settings: [u32; 2] = self.debug_settings.into();
        put_u32(&mut cursor, debug_settings[0]);
        put_u32(&mut cursor, debug_settings[1]);

        put_u32(&mut cursor, self.vendor_usage.to_word());
        put_u32(&mut cursor, u32::from(self.secure_boot_configuration));
        put_u32(&mut cursor, u32::from(self.prince_configuration));
        put_u32(&mut cursor, self.prince_subregions[0].bits());
        put_u32(&mut cursor, self.prince_subregions[1].bits());
        put_u32(&mut cursor, self.prince_subregions[2].bits());
        put_zeros(&mut cursor, 32);
        put_bytes(&mut cursor, self.rot_keys_table_hash.0.as_slice());
        put_zeros(&mut cursor, 144);
        put_bytes(&mut cursor, self.customer_data.as_bytes());

        proof {
            reveal(factory_area_body);
        }
        let mut buf = [0u8; 512];
        self.sha256_hash = fill_returning_hash(&mut buf, cursor.as_slice());
        buf
    }
}

/// Reads the factory area from the first 512 bytes of `input`, giving the rest of
/// the input with it; fails when the input is shorter than a page. The SPI flash
/// and SDIO configuration words must be zero.
pub fn parse_factory<CustomerData: FactoryAreaCustomerData, VendorUsage: FactoryAreaVendorUsage>(
    input: &[u8],
) -> (r: Result<(&[u8], FactoryArea<CustomerData, VendorUsage>), ParseError>)
    requires
        factory_reserved_words_clear(input@),
    ensures
        match r {
            Ok((rest, area)) => {
                &&& 512 <= input@.len()
                &&& rest@ == input@.subrange(512, input@.len() as int)
                &&& factory_area_read_from(input@, area)
            },
            Err(e) => input@.len() < 512 && e == ParseError::UnexpectedEnd,
        },
{
    if input.len() < 512 {
        return Err(ParseError::UnexpectedEnd);
    }
    let boot_cfg = get_u32(input, 0);
    // SPI flash configuration (offset 4) and SDIO configuration (offset 12) are zero
    let usb_id = get_u32(input, 8);
    let cc_socu_pin = get_u32(input, 16);
    let cc_socu_default = get_u32(input, 20);

    let vendor_usage = get_u32(input, 24);
    let secure_boot_cfg = get_u32(input, 28);
    let prince_cfg = get_u32(input, 32);

    let prince_sr_0 = get_u32(input, 36);
    let prince_sr_1 = get_u32(input, 40);
    let prince_sr_2 = get_u32(input, 44);

    // reserved: bytes 48..80

    let mut rot_keys_table_hash = [0u8; 32];
    copy_into(&mut rot_keys_table_hash, input, 80);

    // reserved: bytes 112..256

    let mut customer_data = [0u8; 224];
    copy_into(&mut customer_data, input, 256);

    let mut sha256_hash = [0u8; 32];
    copy_into(&mut sha256_hash, input, 480);

    let factory = FactoryArea {
        boot_configuration: BootConfiguration::from(boot_cfg),
        usb_id: UsbId::from(usb_id),
        debug_settings: DebugSecurityPolicies::from([cc_socu_pin, cc_socu_default]),
        vendor_usage: VendorUsage::from_word(vendor_usage),
        secure_boot_configuration: SecureBootConfiguration::from(secure_boot_cfg),
        prince_configuration: PrinceConfiguration::from(prince_cfg),
        prince_subregions: [
            PrinceSubregion::from_bits_truncate(prince_sr_0),
            PrinceSubregion::from_bits_truncate(prince_sr_1),
            PrinceSubregion::from_bits_truncate(prince_sr_2),
        ],
        rot_keys_table_hash: Sha256Hash(rot_keys_table_hash),
        customer_data: CustomerData::from_bytes(customer_data),
        sha256_hash: Sha256Hash(sha256_hash),
    };

    Ok((slice_subrange(input, 512, input.len()), factory))
}

impl<CustomerData, VendorUsage> FactoryArea<CustomerData, VendorUsage> where
    CustomerData: FactoryAreaCustomerData,
    VendorUsage: FactoryAreaVendorUsage,
 {
    /// Reads the factory area from the first 512 bytes of `input`, which must hold
    /// it with zero SPI flash and SDIO configuration words.
    pub fn try_from(input: &[u8]) -> (r: Result<Self, ()>)
        requires
            512 <= input@.len(),
            factory_reserved_words_clear(input@),
        ensures
            match r {
                Ok(area) => factory_area_read_from(input@, area),
                Err(_) => false,
            },
    {
        let (_input, page) = parse_factory(input).unwrap();
        Ok(page)
    }
}

proof fn lemma_usb_id_of_halves(vid: u16, pid: u16)
    ensures
        boot::usb_id_of(bytes::le_word(bytes::le_bytes16(vid) + bytes::le_bytes16(pid))) == (UsbId {
            vid,
            pid,
        }),
{
    let b = bytes::le_bytes16(vid) + bytes::le_bytes16(pid);
    assert(b[0] == (vid & 0xff) as u8);
    assert(b[1] == ((vid >> 8) & 0xff) as u8);
    assert(b[2] == (pid & 0xff) as u8);
    assert(b[3] == ((pid >> 8) & 0xff) as u8);
    assert({
        let w = (((vid & 0xff) as u8) as u32) | ((((vid >> 8) & 0xff) as u8 as u32) << 8u32) | ((
        ((pid & 0xff) as u8) as u32) << 16u32) | ((((pid >> 8) & 0xff) as u8 as u32) << 24u32);
        w as u16 == vid && (w >> 16u32) as u16 == pid
    }) by (bit_vector);
}

#[verifier::rlimit(30)]
proof fn lemma_factory_body_words_a<C: FactoryAreaCustomerData, V: FactoryAreaVendorUsage>(
    area: FactoryArea<C, V>,
    hash: [u8; 32],
)
    requires
        area.customer_data.data_bytes().len() == 224,
    ensures
        ({
            let b = factory_area_body(area) + hash@;
            &&& b.subrange(0, 4) == bytes::le_bytes(
                boot::boot_configuration_word(area.boot_configuration),
            )
            &&& b.subrange(4, 8) == bytes::zeros(4)
            &&& b.subrange(8, 12) == bytes::le_bytes16(area.usb_id.vid) + bytes::le_bytes16(
                area.usb_id.pid,
            )
            &&& b.subrange(12, 16) == bytes::zeros(4)
        }),
{
    reveal(factory_area_body);
    let b = factory_area_body(area) + hash@;
    assert(b.subrange(0, 4) =~= bytes::le_bytes(
        boot::boot_configuration_word(area.boot_configuration),
    ));
    assert(b.subrange(4, 8) =~= bytes::zeros(4));
    assert(b.subrange(8, 12) =~= bytes::le_bytes16(area.usb_id.vid) + bytes::le_bytes16(
        area.usb_id.pid,
    ));
    assert(b.subrange(12, 16) =~= bytes::zeros(4));
}

#[verifier::rlimit(30)]
proof fn lemma_factory_body_words_b<C: FactoryAreaCustomerData, V: FactoryAreaVendorUsage>(
    area: FactoryArea<C, V>,
    hash: [u8; 32],
)
    requires
        area.customer_data.data_bytes().len() == 224,
    ensures
        ({
            let b = factory_area_body(area) + hash@;
            &&& b.subrange(16, 20) == bytes::le_bytes(debug::debug_fixed_word(area.debug_settings))
            &&& b.subrange(20, 24) == bytes::le_bytes(
                debug::debug_enabled_word(area.debug_settings),
            )
        }),
{
    reveal(factory_area_body);
    let b = factory_area_body(area) + hash@;
    assert(b.subrange(16, 20) =~= bytes::le_bytes(debug::debug_fixed_word(area.debug_settings)));
    assert(b.subrange(20, 24) =~= bytes::le_bytes(debug::debug_enabled_word(area.debug_settings)));
}

#[verifier::rlimit(30)]
proof fn lemma_factory_body_words_e<C: FactoryAreaCustomerData, V: FactoryAreaVendorUsage>(
    area: FactoryArea<C, V>,
    hash: [u8; 32],
)
    requires
        area.customer_data.data_bytes().len() == 224,
    ensures
        ({
            let b = factory_area_body(area) + hash@;
            &&& b.subrange(24, 28) == bytes::le_bytes(area.vendor_usage.word())
            &&& b.subrange(28, 32) == bytes::le_bytes(
                security::secure_boot_configuration_word(area.secure_boot_configuration),
            )
        }),
{
    reveal(factory_area_body);
    let b = factory_area_body(area) + hash@;
    assert(b.subrange(24, 28) =~= bytes::le_bytes(area.vendor_usage.word()));
    assert(b.subrange(28, 32) =~= bytes::le_bytes(
        security::secure_boot_configuration_word(area.secure_boot_configuration),
    ));
}

#[verifier::rlimit(30)]
proof fn lemma_factory_body_words_c<C: FactoryAreaCustomerData, V: FactoryAreaVendorUsage>(
    area: FactoryArea<C, V>,
    hash: [u8; 32],
)
    requires
        area.customer_data.data_bytes().len() == 224,
    ensures
        ({
            let b = factory_area_body(area) + hash@;
            &&& b.subrange(32, 36) == bytes::le_bytes(
                security::prince_configuration_word(area.prince_configuration),
            )
            &&& b.subrange(36, 40) == bytes::le_bytes(area.prince_subregions[0]@)
        }),
{
    reveal(factory_area_body);
    let b = factory_area_body(area) + hash@;
    assert(b.subrange(32, 36) =~= bytes::le_bytes(
        security::prince_configuration_word(area.prince_configuration),
    ));
    assert(b.subrange(36, 40) =~= bytes::le_bytes(area.prince_subregions[0]@));
}

#[verifier::rlimit(30)]
proof fn lemma_factory_body_words_d<C: FactoryAreaCustomerData, V: FactoryAreaVendorUsage>(
    area: FactoryArea<C, V>,
    hash: [u8; 32],
)
    requires
        area.customer_data.data_bytes().len() == 224,
    ensures
        ({
            let b = factory_area_body(area) + hash@;
            &&& b.subrange(40, 44) == bytes::le_bytes(area.prince_subregions[1]@)
            &&& b.subrange(44, 48) == bytes::le_bytes(area.prince_subregions[2]@)
        }),
{
    reveal(factory_area_body);
    let b = factory_area_body(area) + hash@;
    assert(b.subrange(40, 44) =~= bytes::le_bytes(area.prince_subregions[1]@));
    assert(b.subrange(44, 48) =~= bytes::le_bytes(area.prince_subregions[2]@));
}

#[verifier::rlimit(30)]
proof fn lemma_factory_body_tail<C: FactoryAreaCustomerData, V: FactoryAreaVendorUsage>(
    area: FactoryArea<C, V>,
    hash: [u8; 32],
)
    requires
        area.customer_data.data_bytes().len() == 224,
    ensures
        ({
            let b = factory_area_body(area) + hash@;
            &&& b.len() == 512
            &&& b.subrange(80, 112) == area.rot_keys_table_hash.0@
            &&& b.subrange(256, 480) == area.customer_data.data_bytes()
            &&& b.subrange(480, 512) == hash@
        }),
{
    reveal(factory_area_body);
    let b = factory_area_body(area) + hash@;
    assert(b.subrange(80, 112) =~= area.rot_keys_table_hash.0@);
    assert(b.subrange(256, 480) =~= area.customer_data.data_bytes());
    assert(b.subrange(480, 512) =~= hash@);
}

#[verifier::rlimit(30)]
proof fn lemma_factory_body_reserved<C: FactoryAreaCustomerData, V: FactoryAreaVendorUsage>(
    area: FactoryArea<C, V>,
    hash: [u8; 32],
)
    requires
        area.customer_data.data_bytes().len() == 224,
    ensures
        ({
            let b = factory_area_body(area) + hash@;
            &&& b.subrange(48, 80) == bytes::zeros(32)
            &&& b.subrange(112, 256) == bytes::zeros(144)
        }),
{
    reveal(factory_area_body);
    let b = factory_area_body(area) + hash@;
    assert(b.subrange(48, 80) =~= bytes::zeros(32));
    assert(b.subrange(112, 256) =~= bytes::zeros(144));
}

proof fn lemma_factory_image_words<C: FactoryAreaCustomerData, V: FactoryAreaVendorUsage>(
    area: FactoryArea<C, V>,
    hash: [u8; 32],
)
    requires
        area.customer_data.data_bytes().len() == 224,
    ensures
        ({
            let b = factory_area_body(area) + hash@;
            &&& bytes::word_at(b, 0) == boot::boot_configuration_word(area.boot_configuration)
            &&& boot::usb_id_of(bytes::word_at(b, 8)) == area.usb_id
            &&& bytes::word_at(b, 16) == debug::debug_fixed_word(area.debug_settings)
            &&& bytes::word_at(b, 20) == debug::debug_enabled_word(area.debug_settings)
            &&& bytes::word_at(b, 24) == area.vendor_usage.word()
            &&& bytes::word_at(b, 28) == security::secure_boot_configuration_word(
                area.secure_boot_configuration,
            )
            &&& bytes::word_at(b, 32) == security::prince_configuration_word(
                area.prince_configuration,
            )
            &&& bytes::word_at(b, 36) == area.prince_subregions[0]@
            &&& bytes::word_at(b, 40) == area.prince_subregions[1]@
            &&& bytes::word_at(b, 44) == area.prince_subregions[2]@
            &&& b.subrange(80, 112) == area.rot_keys_table_hash.0@
            &&& b.subrange(256, 480) == area.customer_data.data_bytes()
            &&& b.subrange(480, 512) == hash@
        }),
{
    lemma_factory_body_words_a(area, hash);
    lemma_factory_body_words_b(area, hash);
    lemma_factory_body_words_e(area, hash);
    lemma_factory_body_words_c(area, hash);
    lemma_factory_body_words_d(area, hash);
    lemma_factory_body_tail(area, hash);
    bytes::lemma_le_word_of_le_bytes(boot::boot_configuration_word(area.boot_configuration));
    lemma_usb_id_of_halves(area.usb_id.vid, area.usb_id.pid);
    bytes::lemma_le_word_of_le_bytes(debug::debug_fixed_word(area.debug_settings));
    bytes::lemma_le_word_of_le_bytes(debug::debug_enabled_word(area.debug_settings));
    bytes::lemma_le_word_of_le_bytes(area.vendor_usage.word());
    bytes::lemma_le_word_of_le_bytes(
        security::secure_boot_configuration_word(area.secure_boot_configuration),
    );
    bytes::lemma_le_word_of_le_bytes(security::prince_configuration_word(area.prince_configuration));
    bytes::lemma_le_word_of_le_bytes(area.prince_subregions[0]@);
    bytes::lemma_le_word_of_le_bytes(area.prince_subregions[1]@);
    bytes::lemma_le_word_of_le_bytes(area.prince_subregions[2]@);
}

/// The image of a factory area has zero SPI flash and SDIO configuration words, and
/// reading it back gives back the area, but for two fields: the boot
/// configuration and the PRINCE configuration come back as their words read back
/// (see `lemma_boot_configuration_read_back` and
/// `lemma_prince_configuration_read_back`); the hash comes back as the one
/// written after the body.
#[verifier::rlimit(30)]
pub proof fn lemma_factory_area_read_back<C: FactoryAreaCustomerData, V: FactoryAreaVendorUsage>(
    area: FactoryArea<C, V>,
    hash: [u8; 32],
    read: FactoryArea<C, V>,
)
    requires
        area.customer_data.data_bytes().len() == 224,
        factory_area_read_from(factory_area_body(area) + hash@, read),
    ensures
        factory_reserved_words_clear(factory_area_body(area) + hash@),
        read.boot_configuration == boot::boot_configuration_of(
            boot::boot_configuration_word(area.boot_configuration),
        ),
        read.usb_id == area.usb_id,
        read.debug_settings == area.debug_settings,
        read.vendor_usage.word() == area.vendor_usage.word(),
        read.secure_boot_configuration == area.secure_boot_configuration,
        read.prince_configuration == security::prince_configuration_of(
            security::prince_configuration_word(area.prince_configuration),
        ),
        read.prince_subregions == area.prince_subregions,
        read.rot_keys_table_hash == area.rot_keys_table_hash,
        read.customer_data.data_bytes() == area.customer_data.data_bytes(),
        read.sha256_hash == Sha256Hash(hash),
{
    lemma_factory_reserved_words_clear(area, hash);
    lemma_factory_image_words(area, hash);
    security::lemma_secure_boot_configuration_read_back(area.secure_boot_configuration);
    debug::lemma_debug_policies_read_back(area.debug_settings);
    security::lemma_prince_subregion_eq(read.prince_subregions[0], area.prince_subregions[0]);
    security::lemma_prince_subregion_eq(read.prince_subregions[1], area.prince_subregions[1]);
    security::lemma_prince_subregion_eq(read.prince_subregions[2], area.prince_subregions[2]);
    assert(read.prince_subregions =~= area.prince_subregions);
    assert(read.rot_keys_table_hash.0 =~= area.rot_keys_table_hash.0);
    assert(read.sha256_hash.0 =~= hash);
}

proof fn lemma_factory_reserved_words_clear<C: FactoryAreaCustomerData, V: FactoryAreaVendorUsage>(
    area: FactoryArea<C, V>,
    hash: [u8; 32],
)
    requires
        area.customer_data.data_bytes().len() == 224,
    ensures
        factory_reserved_words_clear(factory_area_body(area) + hash@),
{
    lemma_factory_body_words_a(area, hash);
    lemma_factory_body_tail(area, hash);
    assert(bytes::le_word(bytes::zeros(4)) == 0) by {
        assert(0u8 as u32 | ((0u8 as u32) << 8u32) | ((0u8 as u32) << 16u32) | ((0u8 as u32)
            << 24u32) == 0) by (bit_vector);
    }
}

/// With raw customer data and vendor usage, reading back the factory area's image
/// gives back the customer data and the vendor usage themselves.
pub proof fn lemma_raw_factory_area_read_back(area: FactoryArea, hash: [u8; 32], read: FactoryArea)
    requires
        factory_area_read_from(factory_area_body(area) + hash@, read),
    ensures
        read.customer_data == area.customer_data,
        read.vendor_usage == area.vendor_usage,
{
    crate::customer::lemma_raw_customer_data_len(area.customer_data);
    lemma_factory_area_read_back(area, hash, read);
    crate::customer::lemma_raw_customer_data_view_eq(read.customer_data, area.customer_data);
    crate::customer::lemma_raw_vendor_usage_view_eq(read.vendor_usage, area.vendor_usage);
}

/// Every factory area image is 512 bytes: the boot configuration word at 0, zero
/// bytes at 4..8 and 12..16 (SPI flash and SDIO configuration), the USB vendor
/// identifier in the low and the product identifier in the high half of the word
/// at 8, the pinned and default debug words at 16 and 20, vendor usage at 24, the
/// secure boot and PRINCE words at 28 and 32, the three sub-region words at 36 to
/// 44, zero bytes at 48..80, the root key table hash at 80..112, zero bytes at
/// 112..256, the customer data at 256..480 and the hash after it.
pub proof fn lemma_factory_area_image_layout<C: FactoryAreaCustomerData, V: FactoryAreaVendorUsage>(
    area: FactoryArea<C, V>,
    hash: [u8; 32],
)
    requires
        area.customer_data.data_bytes().len() == 224,
    ensures
        ({
            let b = factory_area_body(area) + hash@;
            &&& b.len() == 512
            &&& bytes::word_at(b, 0) == boot::boot_configuration_word(area.boot_configuration)
            &&& forall|i: int| 4 <= i < 8 ==> b[i] == 0
            &&& bytes::word_at(b, 8) & 0xFFFF == area.usb_id.vid as u32
            &&& bytes::word_at(b, 8) >> 16u32 == area.usb_id.pid as u32
            &&& forall|i: int| 12 <= i < 16 ==> b[i] == 0
            &&& bytes::word_at(b, 16) == debug::debug_fixed_word(area.debug_settings)
            &&& bytes::word_at(b, 20) == debug::debug_enabled_word(area.debug_settings)
            &&& bytes::word_at(b, 24) == area.vendor_usage.word()
            &&& bytes::word_at(b, 28) == security::secure_boot_configuration_word(
                area.secure_boot_configuration,
            )
            &&& bytes::word_at(b, 32) == security::prince_configuration_word(
                area.prince_configuration,
            )
            &&& bytes::word_at(b, 36) == area.prince_subregions[0]@
            &&& bytes::word_at(b, 40) == area.prince_subregions[1]@
            &&& bytes::word_at(b, 44) == area.prince_subregions[2]@
            &&& forall|i: int| 48 <= i < 80 ==> b[i] == 0
            &&& b.subrange(80, 112) == area.rot_keys_table_hash.0@
            &&& forall|i: int| 112 <= i < 256 ==> b[i] == 0
            &&& b.subrange(256, 480) == area.customer_data.data_bytes()
            &&& b.subrange(480, 512) == hash@
        }),
{
    let b = factory_area_body(area) + hash@;
    lemma_factory_image_words(area, hash);
    lemma_factory_body_words_a(area, hash);
    lemma_factory_body_reserved(area, hash);
    lemma_factory_body_tail(area, hash);
    boot::lemma_usb_id_decode(bytes::word_at(b, 8));
    assert forall|i: int| 4 <= i < 8 implies b[i] == 0 by {
        assert(b[i] == b.subrange(4, 8)[i - 4]);
        assert(bytes::zeros(4)[i - 4] == 0);
    }
    assert forall|i: int| 12 <= i < 16 implies b[i] == 0 by {
        assert(b[i] == b.subrange(12, 16)[i - 12]);
        assert(bytes::zeros(4)[i - 12] == 0);
    }
    assert forall|i: int| 48 <= i < 80 implies b[i] == 0 by {
        assert(b[i] == b.subrange(48, 80)[i - 48]);
        assert(bytes::zeros(32)[i - 48] == 0);
    }
    assert forall|i: int| 112 <= i < 256 implies b[i] == 0 by {
        assert(b[i] == b.subrange(112, 256)[i - 112]);
        assert(bytes::zeros(144)[i - 112] == 0);
    }
}

/// Reading the factory area takes vendor usage and the three sub-region sets as the
/// little-endian numbers their four bytes make, the USB identifiers from the two
/// halves of the word at 8, the debug policies' pinned bits from the word at 16
/// and the default bits from the word at 20, and copies the byte fields from their
/// offsets.
pub proof fn lemma_factory_area_read_values<C: FactoryAreaCustomerData, V: FactoryAreaVendorUsage>(
    b: Seq<u8>,
    area: FactoryArea<C, V>,
)
    requires
        512 <= b.len(),
        factory_area_read_from(b, area),
    ensures
        area.vendor_usage.word() as int == b[24] + b[25] * 256 + b[26] * 65536 + b[27] * 16777216,
        area.usb_id.vid as int == b[8] + b[9] * 256,
        area.usb_id.pid as int == b[10] + b[11] * 256,
        area.prince_subregions[0]@ as int == b[36] + b[37] * 256 + b[38] * 65536 + b[39]
            * 16777216,
        area.prince_subregions[1]@ as int == b[40] + b[41] * 256 + b[42] * 65536 + b[43]
            * 16777216,
        area.prince_subregions[2]@ as int == b[44] + b[45] * 256 + b[46] * 65536 + b[47]
            * 16777216,
        area.debug_settings == debug::debug_security_policies_of(
            bytes::word_at(b, 16),
            bytes::word_at(b, 20),
        ),
        area.rot_keys_table_hash.0@ == b.subrange(80, 112),
        area.customer_data.data_bytes() == b.subrange(256, 480),
        area.sha256_hash.0@ == b.subrange(480, 512),
{
    bytes::lemma_word_at_value(b, 24);
    bytes::lemma_word_at_value(b, 36);
    bytes::lemma_word_at_value(b, 40);
    bytes::lemma_word_at_value(b, 44);
    let w = bytes::word_at(b, 8);
    boot::lemma_usb_id_decode(w);
    let b0 = b[8];
    let b1 = b[9];
    let b2 = b[10];
    let b3 = b[11];
    assert(w == (b0 as u32) | ((b1 as u32) << 8) | ((b2 as u32) << 16) | ((b3 as u32) << 24));
    assert(({
        let x = (b0 as u32) | ((b1 as u32) << 8) | ((b2 as u32) << 16) | ((b3 as u32) << 24);
        &&& (x & 0xFFFF) as int == b0 + b1 * 256
        &&& (x >> 16u32) as int == b2 + b3 * 256
    })) by (bit_vector);
}

} // verus!
