//! The customer field programmable area (CFPA): its pages, their byte images and
//! how they are read from bytes.
use crate::bytes::{self, copy_into, get_u32, put_bytes, put_u32, put_zeros, ParseError};
use crate::customer::{
    fill_returning_hash, CustomerDataBytes, FieldAreaCustomerData, FieldAreaVendorUsage,
    RawCustomerData, RawVendorUsage, Sha256Hash, VendorUsageWord,
};
use crate::debug::{self, DebugSecurityPolicies};
use crate::digest;
use crate::security::{self, RotKeysStatus};
use crate::text;
use vstd::prelude::*;
use vstd::slice::slice_subrange;

verus! {

/// Page header word.
#[derive(Clone, Copy, Debug, Default, PartialEq, Eq, Hash, PartialOrd, Ord)]
pub struct Header(u32);

impl View for Header {
    type V = u32;

    closed spec fn view(&self) -> u32 {
        self.0
    }
}

impl From<u32> for Header {
    fn from(word: u32) -> (r: Self)
        ensures
            r@ == word,
    {
        Header(word)
    }
}

impl vstd::std_specs::convert::FromSpecImpl<u32> for Header {
    open spec fn obeys_from_spec() -> bool {
        true
    }

    closed spec fn from_spec(word: u32) -> Header {
        Header(word)
    }
}

impl From<Header> for u32 {
    fn from(header: Header) -> (r: u32) {
        header.0
    }
}

impl vstd::std_specs::convert::FromSpecImpl<Header> for u32 {
    open spec fn obeys_from_spec() -> bool {
        true
    }

    open spec fn from_spec(header: Header) -> u32 {
        header@
    }
}

/// A counter that only counts up.
#[derive(Clone, Copy, Debug, Default, PartialEq, Eq, Hash, PartialOrd, Ord)]
pub struct MonotonicCounter(u32);

impl View for MonotonicCounter {
    type V = u32;

    closed spec fn view(&self) -> u32 {
        self.0
    }
}

impl From<u32> for MonotonicCounter {
    fn from(value: u32) -> (r: Self)
        ensures
            r@ == value,
    {
        MonotonicCounter(value)
    }
}

impl vstd::std_specs::convert::FromSpecImpl<u32> for MonotonicCounter {
    open spec fn obeys_from_spec() -> bool {
        true
    }

    closed spec fn from_spec(value: u32) -> MonotonicCounter {
        MonotonicCounter(value)
    }
}

impl From<MonotonicCounter> for u32 {
    fn from(value: MonotonicCounter) -> (r: u32) {
        value.0
    }
}

impl vstd::std_specs::convert::FromSpecImpl<MonotonicCounter> for u32 {
    open spec fn obeys_from_spec() -> bool {
        true
    }

    open spec fn from_spec(value: MonotonicCounter) -> u32 {
        value@
    }
}

impl MonotonicCounter {
    /// Counts one up; a counter at `u32::MAX` cannot count further.
    pub fn increment(&mut self)
        requires
            old(self)@ < u32::MAX,
        ensures
            final(self)@ == old(self)@ + 1,
    {
        self.0 = self.0 + 1;
    }
}

/// CMPA Page programming on going. This field shall be set to 0x5CC55AA5 in the
/// active CFPA page each time CMPA page programming is going on. It shall always
/// be set to 0x00000000 in the CFPA scratch area.
#[derive(Clone, Copy, Debug, Default, PartialEq, Eq, Hash, PartialOrd, Ord)]
pub struct FactoryAreaProgInProgress(u32);

impl View for FactoryAreaProgInProgress {
    type V = u32;

    closed spec fn view(&self) -> u32 {
        self.0
    }
}

impl From<u32> for FactoryAreaProgInProgress {
    fn from(value: u32) -> (r: Self)
        ensures
            r@ == value,
    {
        FactoryAreaProgInProgress(value)
    }
}

impl vstd::std_specs::convert::FromSpecImpl<u32> for FactoryAreaProgInProgress {
    open spec fn obeys_from_spec() -> bool {
        true
    }

    closed spec fn from_spec(value: u32) -> FactoryAreaProgInProgress {
        FactoryAreaProgInProgress(value)
    }
}

impl From<FactoryAreaProgInProgress> for u32 {
    fn from(value: FactoryAreaProgInProgress) -> (r: u32) {
        value.0
    }
}

impl vstd::std_specs::convert::FromSpecImpl<FactoryAreaProgInProgress> for u32 {
    open spec fn obeys_from_spec() -> bool {
        true
    }

    open spec fn from_spec(value: FactoryAreaProgInProgress) -> u32 {
        value@
    }
}

/// How the CMPA programming flag reads: empty, programming ongoing, or an unknown
/// value in hexadecimal.
pub open spec fn prog_in_progress_text(value: u32) -> Seq<char> {
    if value == 0 {
        "empty (0x0)"@
    } else if value == 0x5CC5_5AA5 {
        "CMPA page programming ongoing"@
    } else {
        "unknown value "@ + text::hex_lower(value)
    }
}

impl FactoryAreaProgInProgress {
    /// How the flag reads when printed for debugging.
    pub fn description(&self) -> (r: String)
        ensures
            r@ == prog_in_progress_text(self@),
    {
        match self.0 {
            0x0000_0000 => String::from_str("empty (0x0)"),
            0x5CC5_5AA5 => String::from_str("CMPA page programming ongoing"),
            value => {
                let mut r = String::from_str("unknown value ");
                text::push_hex_lower(&mut r, value);
                r
            },
        }
    }
}

/// Generated and used only by bootloader.
///
/// Not to be modified by user.
#[derive(Clone, Copy, Debug, PartialEq, Eq, Hash, PartialOrd, Ord)]
pub struct PrinceIvCode([u8; 56]);

impl View for PrinceIvCode {
    type V = Seq<u8>;

    closed spec fn view(&self) -> Seq<u8> {
        self.0@
    }
}

impl Default for PrinceIvCode {
    fn default() -> (r: Self)
        ensures
            r@ == bytes::zeros(56),
    {
        let r = PrinceIvCode([0u8; 56]);
        assert(r@ =~= bytes::zeros(56));
        r
    }
}

impl From<[u8; 56]> for PrinceIvCode {
    fn from(value: [u8; 56]) -> (r: Self)
        ensures
            r@ == value@,
    {
        PrinceIvCode(value)
    }
}

impl vstd::std_specs::convert::FromSpecImpl<[u8; 56]> for PrinceIvCode {
    open spec fn obeys_from_spec() -> bool {
        true
    }

    closed spec fn from_spec(value: [u8; 56]) -> PrinceIvCode {
        PrinceIvCode(value)
    }
}

impl AsRef<[u8]> for PrinceIvCode {
    fn as_ref(&self) -> (r: &[u8])
        ensures
            r@ == self@,
    {
        self.0.as_slice()
    }
}

/// Headers with the same word are the same header.
pub proof fn lemma_header_view_eq(a: Header, b: Header)
    requires
        a@ == b@,
    ensures
        a == b,
{
}

/// Counters with the same value are the same counter.
pub proof fn lemma_monotonic_counter_view_eq(a: MonotonicCounter, b: MonotonicCounter)
    requires
        a@ == b@,
    ensures
        a == b,
{
}

/// Flags with the same word are the same flag.
pub proof fn lemma_factory_area_prog_in_progress_view_eq(
    a: FactoryAreaProgInProgress,
    b: FactoryAreaProgInProgress,
)
    requires
        a@ == b@,
    ensures
        a == b,
{
}

/// IV codes with the same bytes are the same code.
pub proof fn lemma_prince_iv_code_view_eq(a: PrinceIvCode, b: PrinceIvCode)
    requires
        a@ == b@,
    ensures
        a == b,
{
    assert(a.0 =~= b.0);
}

/// The bytes of a `PrinceIvCode` are always 56 long.
pub proof fn lemma_prince_iv_code_len(code: PrinceIvCode)
    ensures
        code@.len() == 56,
{
}

/// One 512-byte page of the field area.
#[derive(Clone, Copy, Debug, Default, PartialEq, Eq, Hash, PartialOrd, Ord)]
pub struct FieldAreaPage<CustomerData = RawCustomerData, VendorUsage = RawVendorUsage> where
    CustomerData: FieldAreaCustomerData,
    VendorUsage: FieldAreaVendorUsage,
 {
    pub header: Header,
    /// monotonic counter
    pub version: MonotonicCounter,
    /// monotonic counter
    pub secure_firmware_version: MonotonicCounter,
    /// monotonic counter
    pub nonsecure_firmware_version: MonotonicCounter,
    pub image_key_revocation_id: MonotonicCounter,
    // following three have "upper16 bits are inverse of lower16 bits"
    pub vendor_usage: VendorUsage,
    pub rot_keys_status: RotKeysStatus,
    // UM 11126
    // 51.7.1: DCFG_CC = device configuration for credential constraints
    // 51.7.7: SOCU = System-on-Chip Usage
    // PIN = "pinned" or fixed
    pub debug_settings: DebugSecurityPolicies,
    pub enable_fault_analysis_mode: bool,
    pub factory_prog_in_progress: FactoryAreaProgInProgress,
    pub prince_ivs: [PrinceIvCode; 3],
    pub customer_data: CustomerData,
    pub sha256_hash: Sha256Hash,
}

/// The word that turns fault analysis mode on.
pub open spec fn fault_analysis_word(enabled: bool) -> u32 {
    if enabled {
        0xC33C_A55Au32
    } else {
        0u32
    }
}

/// The first 480 bytes of a page's image, with `fa_word` as the fault analysis
/// word: header, four counters, a reserved word, key states, vendor usage, the two
/// debug words, the fault analysis word, a zero word where CMPA programming is
/// flagged, three PRINCE IV codes, 40 reserved bytes and the customer data.
pub open spec fn field_page_body_with<C: FieldAreaCustomerData, V: FieldAreaVendorUsage>(
    page: FieldAreaPage<C, V>,
    fa_word: u32,
) -> Seq<u8> {
    bytes::le_bytes(page.header@) + bytes::le_bytes(page.version@) + bytes::le_bytes(
        page.secure_firmware_version@,
    ) + bytes::le_bytes(page.nonsecure_firmware_version@) + bytes::le_bytes(
        page.image_key_revocation_id@,
    ) + bytes::zeros(4) + bytes::le_bytes(security::rot_keys_word(page.rot_keys_status))
        + bytes::le_bytes(page.vendor_usage.word()) + bytes::le_bytes(
        debug::debug_fixed_word(page.debug_settings),
    ) + bytes::le_bytes(debug::debug_enabled_word(page.debug_settings)) + bytes::le_bytes(fa_word)
        + bytes::zeros(4) + page.prince_ivs[0]@ + page.prince_ivs[1]@ + page.prince_ivs[2]@
        + bytes::zeros(40) + page.customer_data.data_bytes()
}

/// The first 480 bytes of a page's image: everything but the hash.
pub open spec fn field_page_body<C: FieldAreaCustomerData, V: FieldAreaVendorUsage>(
    page: FieldAreaPage<C, V>,
) -> Seq<u8> {
    field_page_body_with(page, fault_analysis_word(page.enable_fault_analysis_mode))
}

/// A page's image body does not depend on the hash the page holds, so writing a
/// page a second time gives the same image.
pub proof fn lemma_field_page_body_ignores_hash<C: FieldAreaCustomerData, V: FieldAreaVendorUsage>(
    page: FieldAreaPage<C, V>,
    hash: Sha256Hash,
)
    ensures
        field_page_body(FieldAreaPage { sha256_hash: hash, ..page }) == field_page_body(page),
{
}

/// The page that `b` holds at its start: each field at its offset, the debug
/// policies taking their "fixed" bits from the pinned word at 32 and their "set"
/// bits from the default word at 36.
pub open spec fn field_page_read_from<C: FieldAreaCustomerData, V: FieldAreaVendorUsage>(
    b: Seq<u8>,
    page: FieldAreaPage<C, V>,
) -> bool {
    &&& page.header@ == bytes::word_at(b, 0)
    &&& page.version@ == bytes::word_at(b, 4)
    &&& page.secure_firmware_version@ == bytes::word_at(b, 8)
    &&& page.nonsecure_firmware_version@ == bytes::word_at(b, 12)
    &&& page.image_key_revocation_id@ == bytes::word_at(b, 16)
    &&& page.rot_keys_status == security::rot_keys_status_of(bytes::word_at(b, 24))
    &&& page.vendor_usage.word() == bytes::word_at(b, 28)
    &&& page.debug_settings == debug::debug_security_policies_of(
        bytes::word_at(b, 32),
        bytes::word_at(b, 36),
    )
    &&& page.enable_fault_analysis_mode == (bytes::word_at(b, 40) != 0)
    &&& page.factory_prog_in_progress@ == bytes::word_at(b, 44)
    &&& page.prince_ivs[0]@ == b.subrange(48, 104)
    &&& page.prince_ivs[1]@ == b.subrange(104, 160)
    &&& page.prince_ivs[2]@ == b.subrange(160, 216)
    &&& page.customer_data.data_bytes() == b.subrange(256, 480)
    &&& page.sha256_hash.0@ == b.subrange(480, 512)
}

impl<CustomerData, VendorUsage> FieldAreaPage<CustomerData, VendorUsage> where
    CustomerData: FieldAreaCustomerData,
    VendorUsage: FieldAreaVendorUsage,
 {
    fn put_body(&self, out: &mut Vec<u8>, fa_word: u32)
        requires
            old(out)@.len() == 0,
            self.customer_data.data_bytes().len() == 224,
        ensures
            final(out)@ == field_page_body_with(*self, fa_word),
            final(out)@.len() == 480,
    {
        put_u32(out, self.header.0);
        assert(out@ =~= bytes::le_bytes(self.header@));
        put_u32(out, self.version.0);
        put_u32(out, self.secure_firmware_version.0);
        put_u32(out, self.nonsecure_firmware_version.0);
        put_u32(out, self.image_key_revocation_id.0);

        // reserved
        put_zeros(out, 4);

        put_u32(out, u32::from(self.rot_keys_status));
        put_u32(out, self.vendor_usage.to_word());

        let debug_settings: [u32; 2] = self.debug_settings.into();
        put_u32(out, debug_settings[0]);
        put_u32(out, debug_settings[1]);

        put_u32(out, fa_word);

        // factory_prog
        // "CMPA Page programming on going. This field shall be set to 0x5CC55AA5 in the active
        // CFPA page each time CMPA page programming is going on. It shall always be set to
        // 0x00000000 in the CFPA scratch area."
        put_zeros(out, 4);

        put_bytes(out, self.prince_ivs[0].0.as_slice());
        put_bytes(out, self.prince_ivs[1].0.as_slice());
        put_bytes(out, self.prince_ivs[2].0.as_slice());

        // reserved
        put_zeros(out, 40);

        put_bytes(out, self.customer_data.as_bytes());
    }

    /// The 512-byte image of the page: the fields, then the SHA-256 hash of the
    /// first 480 bytes, which also becomes the page's hash.
    pub fn to_bytes(&mut self) -> (page: [u8; 512])
        requires
            old(self).customer_data.data_bytes().len() == 224,
        ensures
            final(self).sha256_hash.0@ == digest::sha256(field_page_body(*old(self))),
            *final(self) == (FieldAreaPage { sha256_hash: final(self).sha256_hash, ..*old(self) }),
            page@ == field_page_body(*old(self)) + final(self).sha256_hash.0@,
    {
        let mut body: Vec<u8> = Vec::new();
        let enable_fa_mode: u32 = match self.enable_fault_analysis_mode {
            true => 0xC33C_A55A,
            false => 0,
        };
        self.put_body(&mut body, enable_fa_mode);
        let mut buf = [0u8; 512];
        self.sha256_hash = fill_returning_hash(&mut buf, body.as_slice());
        buf
    }

    /// The 512-byte image of the page as an older layout wrote it: as
    /// [`Self::to_bytes`], but with the fault analysis word 1 when the mode is on.
    pub fn to_bytes_old(&mut self) -> (page: [u8; 512])
        requires
            old(self).customer_data.data_bytes().len() == 224,
        ensures
            final(self).sha256_hash.0@ == digest::sha256(
                field_page_body_with(
                    *old(self),
                    if old(self).enable_fault_analysis_mode {
                        1u32
                    } else {
                        0u32
                    },
                ),
            ),
            *final(self) == (FieldAreaPage { sha256_hash: final(self).sha256_hash, ..*old(self) }),
            page@ == field_page_body_with(
                *old(self),
                if old(self).enable_fault_analysis_mode {
                    1u32
                } else {
                    0u32
                },
            ) + final(self).sha256_hash.0@,
    {
        let mut body: Vec<u8> = Vec::new();
        let enable_fa_mode: u32 = if self.enable_fault_analysis_mode {
            1
        } else {
            0
        };
        self.put_body(&mut body, enable_fa_mode);
        let mut buf = [0u8; 512];
        self.sha256_hash = fill_returning_hash(&mut buf, body.as_slice());
        buf
    }
}

/// Reads a field area page from the first 512 bytes of `input`, giving the rest
/// of the input with it; fails when the input is shorter than a page.
pub fn parse_field_page<CustomerData: FieldAreaCustomerData, VendorUsage: FieldAreaVendorUsage>(
    input: &[u8],
) -> (r: Result<(&[u8], FieldAreaPage<CustomerData, VendorUsage>), ParseError>)
    ensures
        match r {
            Ok((rest, page)) => {
                &&& 512 <= input@.len()
                &&& rest@ == input@.subrange(512, input@.len() as int)
                &&& field_page_read_from(input@, page)
            },
            Err(e) => input@.len() < 512 && e == ParseError::UnexpectedEnd,
        },
{
    if input.len() < 512 {
        return Err(ParseError::UnexpectedEnd);
    }
    let header = get_u32(input, 0);
    let version = get_u32(input, 4);
    let secure_firmware_version = get_u32(input, 8);
    let nonsecure_firmware_version = get_u32(input, 12);
    let image_key_revocation_id = get_u32(input, 16);

    // reserved: bytes 20..24

    let rot_keys_status = get_u32(input, 24);
    let vendor_usage = get_u32(input, 28);
    let dcfg_cc_socu_ns_pin = get_u32(input, 32);
    let dcfg_cc_socu_ns_default = get_u32(input, 36);
    let enable_fa = get_u32(input, 40);
    let factory_prog_in_progress = get_u32(input, 44);

    let mut prince_iv_code0 = [0u8; 56];
    copy_into(&mut prince_iv_code0, input, 48);
    let mut prince_iv_code1 = [0u8; 56];
    copy_into(&mut prince_iv_code1, input, 104);
    let mut prince_iv_code2 = [0u8; 56];
    copy_into(&mut prince_iv_code2, input, 160);

    // reserved: bytes 216..256

    let mut customer_data = [0u8; 224];
    copy_into(&mut customer_data, input, 256);

    let mut sha256_hash = [0u8; 32];
    copy_into(&mut sha256_hash, input, 480);

    let page = FieldAreaPage {
        header: Header(header),
        version: MonotonicCounter::from(version),
        secure_firmware_version: MonotonicCounter::from(secure_firmware_version),
        nonsecure_firmware_version: MonotonicCounter::from(nonsecure_firmware_version),
        image_key_revocation_id: MonotonicCounter::from(image_key_revocation_id),
        vendor_usage: VendorUsage::from_word(vendor_usage),
        rot_keys_status: RotKeysStatus::from(rot_keys_status),
        debug_settings: DebugSecurityPolicies::from([dcfg_cc_socu_ns_pin, dcfg_cc_socu_ns_default]),
        enable_fault_analysis_mode: enable_fa != 0,
        factory_prog_in_progress: FactoryAreaProgInProgress(factory_prog_in_progress),
        prince_ivs: [
            PrinceIvCode(prince_iv_code0),
            PrinceIvCode(prince_iv_code1),
            PrinceIvCode(prince_iv_code2),
        ],
        customer_data: CustomerData::from_bytes(customer_data),
        sha256_hash: Sha256Hash(sha256_hash),
    };
    Ok((slice_subrange(input, 512, input.len()), page))
}

impl<CustomerData, VendorUsage> FieldAreaPage<CustomerData, VendorUsage> where
    CustomerData: FieldAreaCustomerData,
    VendorUsage: FieldAreaVendorUsage,
 {
    /// Reads a page from the first 512 bytes of `input`, which must hold a page.
    pub fn try_from(input: &[u8]) -> (r: Result<Self, ()>)
        requires
            512 <= input@.len(),
        ensures
            match r {
                Ok(page) => field_page_read_from(input@, page),
                Err(_) => false,
            },
    {
        let (_input, page) = parse_field_page(input).unwrap();
        Ok(page)
    }
}

/// The field area: a scratch page and the two pages that alternate as the
/// active one.
#[derive(Clone, Copy, Debug, Default, PartialEq, Eq, Hash, PartialOrd, Ord)]
pub struct FieldArea<CustomerData = RawCustomerData, VendorUsage = RawVendorUsage> where
    CustomerData: FieldAreaCustomerData,
    VendorUsage: FieldAreaVendorUsage,
 {
    pub scratch: FieldAreaPage<CustomerData, VendorUsage>,
    pub ping: FieldAreaPage<CustomerData, VendorUsage>,
    pub pong: FieldAreaPage<CustomerData, VendorUsage>,
}

/// The field area that `b` holds at its start: scratch, ping and pong pages one
/// after the other.
pub open spec fn field_area_read_from<C: FieldAreaCustomerData, V: FieldAreaVendorUsage>(
    b: Seq<u8>,
    field: FieldArea<C, V>,
) -> bool {
    &&& field_page_read_from(b.subrange(0, 512), field.scratch)
    &&& field_page_read_from(b.subrange(512, 1024), field.ping)
    &&& field_page_read_from(b.subrange(1024, 1536), field.pong)
}

impl FieldArea {
    /// Reads the field area from the first three pages of `input`, which must hold
    /// them.
    pub fn try_from(input: &[u8]) -> (r: Result<Self, ()>)
        requires
            3 * 512 <= input@.len(),
        ensures
            match r {
                Ok(field) => field_area_read_from(input@, field),
                Err(_) => false,
            },
    {
        let scratch = FieldAreaPage::try_from(slice_subrange(input, 0, 512)).unwrap();
        let ping = FieldAreaPage::try_from(slice_subrange(input, 512, 2 * 512)).unwrap();
        let pong = FieldAreaPage::try_from(slice_subrange(input, 2 * 512, 3 * 512)).unwrap();

        let field = FieldArea { scratch, ping, pong };

        Ok(field)
    }
}

#[verifier::rlimit(30)]
proof fn lemma_field_body_words_a<C: FieldAreaCustomerData, V: FieldAreaVendorUsage>(
    page: FieldAreaPage<C, V>,
    hash: [u8; 32],
)
    requires
        page.customer_data.data_bytes().len() == 224,
    ensures
        ({
            let b = field_page_body(page) + hash@;
            &&& b.subrange(0, 4) == bytes::le_bytes(page.header@)
            &&& b.subrange(4, 8) == bytes::le_bytes(page.version@)
            &&& b.subrange(8, 12) == bytes::le_bytes(page.secure_firmware_version@)
            &&& b.subrange(12, 16) == bytes::le_bytes(page.nonsecure_firmware_version@)
        }),
{
    let b = field_page_body(page) + hash@;
    assert(b.subrange(0, 4) =~= bytes::le_bytes(page.header@));
    assert(b.subrange(4, 8) =~= bytes::le_bytes(page.version@));
    assert(b.subrange(8, 12) =~= bytes::le_bytes(page.secure_firmware_version@));
    assert(b.subrange(12, 16) =~= bytes::le_bytes(page.nonsecure_firmware_version@));
}

#[verifier::rlimit(30)]
proof fn lemma_field_body_words_b<C: FieldAreaCustomerData, V: FieldAreaVendorUsage>(
    page: FieldAreaPage<C, V>,
    hash: [u8; 32],
)
    requires
        page.customer_data.data_bytes().len() == 224,
    ensures
        ({
            let b = field_page_body(page) + hash@;
            &&& b.subrange(16, 20) == bytes::le_bytes(page.image_key_revocation_id@)
            &&& b.subrange(24, 28) == bytes::le_bytes(security::rot_keys_word(page.rot_keys_status))
            &&& b.subrange(28, 32) == bytes::le_bytes(page.vendor_usage.word())
            &&& b.subrange(32, 36) == bytes::le_bytes(debug::debug_fixed_word(page.debug_settings))
        }),
{
    let b = field_page_body(page) + hash@;
    assert(b.subrange(16, 20) =~= bytes::le_bytes(page.image_key_revocation_id@));
    assert(b.subrange(24, 28) =~= bytes::le_bytes(security::rot_keys_word(page.rot_keys_status)));
    assert(b.subrange(28, 32) =~= bytes::le_bytes(page.vendor_usage.word()));
    assert(b.subrange(32, 36) =~= bytes::le_bytes(debug::debug_fixed_word(page.debug_settings)));
}

#[verifier::rlimit(30)]
proof fn lemma_field_body_words_c<C: FieldAreaCustomerData, V: FieldAreaVendorUsage>(
    page: FieldAreaPage<C, V>,
    hash: [u8; 32],
)
    requires
        page.customer_data.data_bytes().len() == 224,
    ensures
        ({
            let b = field_page_body(page) + hash@;
            &&& b.subrange(36, 40) == bytes::le_bytes(debug::debug_enabled_word(page.debug_settings))
            &&& b.subrange(40, 44) == bytes::le_bytes(
                fault_analysis_word(page.enable_fault_analysis_mode),
            )
            &&& b.subrange(44, 48) == bytes::zeros(4)
        }),
{
    let b = field_page_body(page) + hash@;
    assert(b.subrange(36, 40) =~= bytes::le_bytes(debug::debug_enabled_word(page.debug_settings)));
    assert(b.subrange(40, 44) =~= bytes::le_bytes(
        fault_analysis_word(page.enable_fault_analysis_mode),
    ));
    assert(b.subrange(44, 48) =~= bytes::zeros(4));
}

#[verifier::rlimit(30)]
proof fn lemma_field_body_tail<C: FieldAreaCustomerData, V: FieldAreaVendorUsage>(
    page: FieldAreaPage<C, V>,
    hash: [u8; 32],
)
    requires
        page.customer_data.data_bytes().len() == 224,
    ensures
        ({
            let b = field_page_body(page) + hash@;
            &&& b.subrange(48, 104) == page.prince_ivs[0]@
            &&& b.subrange(104, 160) == page.prince_ivs[1]@
            &&& b.subrange(160, 216) == page.prince_ivs[2]@
            &&& b.subrange(256, 480) == page.customer_data.data_bytes()
            &&& b.subrange(480, 512) == hash@
        }),
{
    let b = field_page_body(page) + hash@;
    assert(b.subrange(48, 104) =~= page.prince_ivs[0]@);
    assert(b.subrange(104, 160) =~= page.prince_ivs[1]@);
    assert(b.subrange(160, 216) =~= page.prince_ivs[2]@);
    assert(b.subrange(256, 480) =~= page.customer_data.data_bytes());
    assert(b.subrange(480, 512) =~= hash@);
}

#[verifier::rlimit(30)]
proof fn lemma_field_body_reserved<C: FieldAreaCustomerData, V: FieldAreaVendorUsage>(
    page: FieldAreaPage<C, V>,
    hash: [u8; 32],
)
    requires
        page.customer_data.data_bytes().len() == 224,
    ensures
        ({
            let b = field_page_body(page) + hash@;
            &&& b.subrange(20, 24) == bytes::zeros(4)
            &&& b.subrange(216, 256) == bytes::zeros(40)
        }),
{
    let b = field_page_body(page) + hash@;
    assert(b.subrange(20, 24) =~= bytes::zeros(4));
    assert(b.subrange(216, 256) =~= bytes::zeros(40));
}

/// Every page image is 512 bytes: header and counters in the words at 0 to 16,
/// zero reserved bytes at 20..24, 44..48 and 216..256, the key states word at 24,
/// vendor usage at 28, the pinned and default debug words at 32 and 36, the fault
/// analysis word at 40 (`5A A5 3C C3` with the mode on, zero with it off), the
/// three IV codes from 48, the customer data at 256..480 and the hash after it.
pub proof fn lemma_field_page_image_layout<C: FieldAreaCustomerData, V: FieldAreaVendorUsage>(
    page: FieldAreaPage<C, V>,
    hash: [u8; 32],
)
    requires
        page.customer_data.data_bytes().len() == 224,
    ensures
        ({
            let b = field_page_body(page) + hash@;
            &&& b.len() == 512
            &&& bytes::word_at(b, 0) == page.header@
            &&& bytes::word_at(b, 4) == page.version@
            &&& bytes::word_at(b, 8) == page.secure_firmware_version@
            &&& bytes::word_at(b, 12) == page.nonsecure_firmware_version@
            &&& bytes::word_at(b, 16) == page.image_key_revocation_id@
            &&& forall|i: int| 20 <= i < 24 ==> b[i] == 0
            &&& bytes::word_at(b, 24) == security::rot_keys_word(page.rot_keys_status)
            &&& bytes::word_at(b, 28) == page.vendor_usage.word()
            &&& bytes::word_at(b, 32) == debug::debug_fixed_word(page.debug_settings)
            &&& bytes::word_at(b, 36) == debug::debug_enabled_word(page.debug_settings)
            &&& b.subrange(40, 44) == (if page.enable_fault_analysis_mode {
                seq![0x5Au8, 0xA5u8, 0x3Cu8, 0xC3u8]
            } else {
                seq![0u8, 0u8, 0u8, 0u8]
            })
            &&& forall|i: int| 44 <= i < 48 ==> b[i] == 0
            &&& b.subrange(48, 104) == page.prince_ivs[0]@
            &&& b.subrange(104, 160) == page.prince_ivs[1]@
            &&& b.subrange(160, 216) == page.prince_ivs[2]@
            &&& forall|i: int| 216 <= i < 256 ==> b[i] == 0
            &&& b.subrange(256, 480) == page.customer_data.data_bytes()
            &&& b.subrange(480, 512) == hash@
        }),
{
    let b = field_page_body(page) + hash@;
    lemma_field_body_words_a(page, hash);
    lemma_field_body_words_b(page, hash);
    lemma_field_body_words_c(page, hash);
    lemma_field_body_tail(page, hash);
    lemma_field_body_reserved(page, hash);
    bytes::lemma_le_word_of_le_bytes(page.header@);
    bytes::lemma_le_word_of_le_bytes(page.version@);
    bytes::lemma_le_word_of_le_bytes(page.secure_firmware_version@);
    bytes::lemma_le_word_of_le_bytes(page.nonsecure_firmware_version@);
    bytes::lemma_le_word_of_le_bytes(page.image_key_revocation_id@);
    bytes::lemma_le_word_of_le_bytes(security::rot_keys_word(page.rot_keys_status));
    bytes::lemma_le_word_of_le_bytes(page.vendor_usage.word());
    bytes::lemma_le_word_of_le_bytes(debug::debug_fixed_word(page.debug_settings));
    bytes::lemma_le_word_of_le_bytes(debug::debug_enabled_word(page.debug_settings));
    assert(b.subrange(20, 24)[0] == b[20] && b.subrange(20, 24)[3] == b[23]);
    assert(forall|i: int| 20 <= i < 24 ==> b[i] == #[trigger] b.subrange(20, 24)[i - 20]);
    assert(forall|i: int| 44 <= i < 48 ==> b[i] == #[trigger] b.subrange(44, 48)[i - 44]);
    assert(forall|i: int| 216 <= i < 256 ==> b[i] == #[trigger] b.subrange(216, 256)[i - 216]);
    assert((0xC33C_A55Au32 & 0xff) as u8 == 0x5Au8 && ((0xC33C_A55Au32 >> 8) & 0xff) as u8
        == 0xA5u8 && ((0xC33C_A55Au32 >> 16) & 0xff) as u8 == 0x3Cu8 && ((0xC33C_A55Au32 >> 24)
        & 0xff) as u8 == 0xC3u8 && (0u32 & 0xff) as u8 == 0u8 && ((0u32 >> 8) & 0xff) as u8 == 0u8
        && ((0u32 >> 16) & 0xff) as u8 == 0u8 && ((0u32 >> 24) & 0xff) as u8 == 0u8)
        by (bit_vector);
    assert(bytes::le_bytes(0xC33C_A55Au32) =~= seq![0x5Au8, 0xA5u8, 0x3Cu8, 0xC3u8]);
    assert(bytes::le_bytes(0u32) =~= seq![0u8, 0u8, 0u8, 0u8]);
}

/// Reading a page takes each word field as the little-endian number its four bytes
/// make, turns fault analysis mode on for any word at 40 other than zero, reads
/// the key slot states from the low byte of the word at 24 (a slot holding 2 or 3
/// is revoked), takes the debug policies' pinned bits from the word at 32 and the
/// default bits from the word at 36, and copies the byte fields from their offsets.
pub proof fn lemma_field_page_read_values<C: FieldAreaCustomerData, V: FieldAreaVendorUsage>(
    b: Seq<u8>,
    page: FieldAreaPage<C, V>,
)
    requires
        512 <= b.len(),
        field_page_read_from(b, page),
    ensures
        page.header@ as int == b[0] + b[1] * 256 + b[2] * 65536 + b[3] * 16777216,
        page.version@ as int == b[4] + b[5] * 256 + b[6] * 65536 + b[7] * 16777216,
        page.secure_firmware_version@ as int == b[8] + b[9] * 256 + b[10] * 65536 + b[11]
            * 16777216,
        page.nonsecure_firmware_version@ as int == b[12] + b[13] * 256 + b[14] * 65536 + b[15]
            * 16777216,
        page.image_key_revocation_id@ as int == b[16] + b[17] * 256 + b[18] * 65536 + b[19]
            * 16777216,
        page.vendor_usage.word() as int == b[28] + b[29] * 256 + b[30] * 65536 + b[31] * 16777216,
        page.enable_fault_analysis_mode == !(b[40] == 0 && b[41] == 0 && b[42] == 0 && b[43] == 0),
        page.factory_prog_in_progress@ as int == b[44] + b[45] * 256 + b[46] * 65536 + b[47]
            * 16777216,
        b[24] & 0x3 == 0 ==> page.rot_keys_status@[0] == security::RotKeyStatus::Invalid,
        b[24] & 0x3 == 0x1 ==> page.rot_keys_status@[0] == security::RotKeyStatus::Enabled,
        b[24] & 0x3 >= 0x2 ==> page.rot_keys_status@[0] == security::RotKeyStatus::Revoked,
        b[24] & 0xC == 0 ==> page.rot_keys_status@[1] == security::RotKeyStatus::Invalid,
        b[24] & 0xC == 0x4 ==> page.rot_keys_status@[1] == security::RotKeyStatus::Enabled,
        b[24] & 0xC >= 0x8 ==> page.rot_keys_status@[1] == security::RotKeyStatus::Revoked,
        b[24] & 0x30 == 0 ==> page.rot_keys_status@[2] == security::RotKeyStatus::Invalid,
        b[24] & 0x30 == 0x10 ==> page.rot_keys_status@[2] == security::RotKeyStatus::Enabled,
        b[24] & 0x30 >= 0x20 ==> page.rot_keys_status@[2] == security::RotKeyStatus::Revoked,
        b[24] & 0xC0 == 0 ==> page.rot_keys_status@[3] == security::RotKeyStatus::Invalid,
        b[24] & 0xC0 == 0x40 ==> page.rot_keys_status@[3] == security::RotKeyStatus::Enabled,
        b[24] & 0xC0 >= 0x80 ==> page.rot_keys_status@[3] == security::RotKeyStatus::Revoked,
        page.debug_settings == debug::debug_security_policies_of(
            bytes::word_at(b, 32),
            bytes::word_at(b, 36),
        ),
        page.prince_ivs[0]@ == b.subrange(48, 104),
        page.prince_ivs[1]@ == b.subrange(104, 160),
        page.prince_ivs[2]@ == b.subrange(160, 216),
        page.customer_data.data_bytes() == b.subrange(256, 480),
        page.sha256_hash.0@ == b.subrange(480, 512),
{
    bytes::lemma_word_at_value(b, 0);
    bytes::lemma_word_at_value(b, 4);
    bytes::lemma_word_at_value(b, 8);
    bytes::lemma_word_at_value(b, 12);
    bytes::lemma_word_at_value(b, 16);
    bytes::lemma_word_at_value(b, 28);
    bytes::lemma_word_at_value(b, 40);
    bytes::lemma_word_at_value(b, 44);
    let w = bytes::word_at(b, 24);
    security::lemma_rot_keys_status_decode(w);
    let b0 = b[24];
    let b1 = b[25];
    let b2 = b[26];
    let b3 = b[27];
    assert(w == (b0 as u32) | ((b1 as u32) << 8) | ((b2 as u32) << 16) | ((b3 as u32) << 24));
    assert(({
        let x = (b0 as u32) | ((b1 as u32) << 8) | ((b2 as u32) << 16) | ((b3 as u32) << 24);
        &&& x & 0x3 == (b0 & 0x3) as u32
        &&& x & 0xC == (b0 & 0xC) as u32
        &&& x & 0x30 == (b0 & 0x30) as u32
        &&& x & 0xC0 == (b0 & 0xC0) as u32
    })) by (bit_vector);
}

/// Reading back a page's image gives back the page, but for two fields: the CMPA
/// programming flag comes back as zero (a zero word is written in its place), and
/// the hash comes back as the one written after the body.
#[verifier::rlimit(30)]
pub proof fn lemma_field_page_read_back<C: FieldAreaCustomerData, V: FieldAreaVendorUsage>(
    page: FieldAreaPage<C, V>,
    hash: [u8; 32],
    read: FieldAreaPage<C, V>,
)
    requires
        page.customer_data.data_bytes().len() == 224,
        field_page_read_from(field_page_body(page) + hash@, read),
    ensures
        read.header == page.header,
        read.version == page.version,
        read.secure_firmware_version == page.secure_firmware_version,
        read.nonsecure_firmware_version == page.nonsecure_firmware_version,
        read.image_key_revocation_id == page.image_key_revocation_id,
        read.vendor_usage.word() == page.vendor_usage.word(),
        read.rot_keys_status == page.rot_keys_status,
        read.debug_settings == page.debug_settings,
        read.enable_fault_analysis_mode == page.enable_fault_analysis_mode,
        read.factory_prog_in_progress@ == 0,
        read.prince_ivs == page.prince_ivs,
        read.customer_data.data_bytes() == page.customer_data.data_bytes(),
        read.sha256_hash == Sha256Hash(hash),
{
    let body = field_page_body(page);
    let b = body + hash@;
    let fixed = debug::debug_fixed_word(page.debug_settings);
    let enabled = debug::debug_enabled_word(page.debug_settings);
    let fa = fault_analysis_word(page.enable_fault_analysis_mode);
    let rks = security::rot_keys_word(page.rot_keys_status);
    lemma_field_body_words_a(page, hash);
    lemma_field_body_words_b(page, hash);
    lemma_field_body_words_c(page, hash);
    lemma_field_body_tail(page, hash);
    bytes::lemma_le_word_of_le_bytes(page.header@);
    bytes::lemma_le_word_of_le_bytes(page.version@);
    bytes::lemma_le_word_of_le_bytes(page.secure_firmware_version@);
    bytes::lemma_le_word_of_le_bytes(page.nonsecure_firmware_version@);
    bytes::lemma_le_word_of_le_bytes(page.image_key_revocation_id@);
    bytes::lemma_le_word_of_le_bytes(rks);
    bytes::lemma_le_word_of_le_bytes(page.vendor_usage.word());
    bytes::lemma_le_word_of_le_bytes(fixed);
    bytes::lemma_le_word_of_le_bytes(enabled);
    bytes::lemma_le_word_of_le_bytes(fa);
    security::lemma_rot_keys_status_read_back(page.rot_keys_status);
    debug::lemma_debug_policies_read_back(page.debug_settings);
    assert(bytes::le_word(bytes::zeros(4)) == 0) by {
        assert(0u8 as u32 | ((0u8 as u32) << 8u32) | ((0u8 as u32) << 16u32) | ((0u8 as u32)
            << 24u32) == 0) by (bit_vector);
    }
    assert(read.prince_ivs[0].0 =~= page.prince_ivs[0].0);
    assert(read.prince_ivs[1].0 =~= page.prince_ivs[1].0);
    assert(read.prince_ivs[2].0 =~= page.prince_ivs[2].0);
    assert(read.prince_ivs =~= page.prince_ivs);
    assert(read.sha256_hash.0 =~= hash);
}

/// With raw customer data and vendor usage, reading back a page's image gives back
/// the customer data and the vendor usage themselves.
pub proof fn lemma_raw_field_page_read_back(page: FieldAreaPage, hash: [u8; 32], read: FieldAreaPage)
    requires
        field_page_read_from(field_page_body(page) + hash@, read),
    ensures
        read.customer_data == page.customer_data,
        read.vendor_usage == page.vendor_usage,
{
    crate::customer::lemma_raw_customer_data_len(page.customer_data);
    lemma_field_page_read_back(page, hash, read);
    crate::customer::lemma_raw_customer_data_view_eq(read.customer_data, page.customer_data);
    crate::customer::lemma_raw_vendor_usage_view_eq(read.vendor_usage, page.vendor_usage);
}

} // verus!
