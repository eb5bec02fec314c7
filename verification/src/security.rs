//! Secure boot, PRINCE and root-of-trust key words, and the two-bit booleans
//! they are made of.
use crate::bytes;
use vstd::prelude::*;

verus! {

/// The truth of a two-bit boolean field: any set bit means true.
pub open spec fn multibool_of(bits: u32) -> bool {
    bits != 0
}

/// The two-bit field a boolean is written as: both bits set for true.
pub open spec fn boolmulti_of(value: bool) -> u32 {
    if value {
        0b11u32
    } else {
        0u32
    }
}

/// Reads a two-bit boolean field.
pub fn multibool(bits: u32) -> (r: bool)
    requires
        bits <= 0b11,
    ensures
        r == multibool_of(bits),
{
    match bits {
        0b00 => false,
        _ => true,
    }
}

/// Writes a boolean as a two-bit field.
pub fn boolmulti(value: bool) -> (r: u32)
    ensures
        r == boolmulti_of(value),
{
    match value {
        false => 0,
        true => 0b11,
    }
}

/// A boolean written as a two-bit field reads back as itself.
pub proof fn lemma_multibool_of_boolmulti(value: bool)
    ensures
        boolmulti_of(value) <= 0b11,
        multibool_of(boolmulti_of(value)) == value,
{
}

proof fn lemma_two_bits(word: u32, shift: u32)
    requires
        shift < 32,
    ensures
        (word >> shift) & 0b11 <= 0b11,
{
    assert((word >> shift) & 0b11 <= 0b11) by (bit_vector);
}

/// How TrustZone is configured at boot.
#[derive(Clone, Copy, Debug, PartialEq, Eq, Hash, PartialOrd, Ord)]
pub enum TrustzoneMode {
    FromImageHeader,
    DisabledBootToNonsecure,
    EnabledBootToSecure,
    PresetTrustzoneCheckerFromImageHeader,
}

impl Default for TrustzoneMode {
    fn default() -> (r: Self)
        ensures
            r == TrustzoneMode::FromImageHeader,
    {
        TrustzoneMode::FromImageHeader
    }
}

/// The mode that a two-bit field selects.
pub open spec fn trustzone_mode_of(value: u32) -> TrustzoneMode {
    if value == 0 {
        TrustzoneMode::FromImageHeader
    } else if value == 1 {
        TrustzoneMode::DisabledBootToNonsecure
    } else if value == 2 {
        TrustzoneMode::EnabledBootToSecure
    } else {
        TrustzoneMode::PresetTrustzoneCheckerFromImageHeader
    }
}

/// The two-bit code of a mode.
pub open spec fn trustzone_mode_code(mode: TrustzoneMode) -> u8 {
    match mode {
        TrustzoneMode::FromImageHeader => 0u8,
        TrustzoneMode::DisabledBootToNonsecure => 1u8,
        TrustzoneMode::EnabledBootToSecure => 2u8,
        TrustzoneMode::PresetTrustzoneCheckerFromImageHeader => 3u8,
    }
}

impl TrustzoneMode {
    /// The mode that a two-bit field selects; values above 3 are not modes.
    pub fn from(value: u32) -> (r: Self)
        requires
            value <= 0b11,
        ensures
            r == trustzone_mode_of(value),
    {
        match value {
            0b00 => TrustzoneMode::FromImageHeader,
            0b01 => TrustzoneMode::DisabledBootToNonsecure,
            0b10 => TrustzoneMode::EnabledBootToSecure,
            _ => TrustzoneMode::PresetTrustzoneCheckerFromImageHeader,
        }
    }
}

fn trustzone_code(mode: TrustzoneMode) -> (code: u8)
    ensures
        code == trustzone_mode_code(mode),
{
    match mode {
        TrustzoneMode::FromImageHeader => 0,
        TrustzoneMode::DisabledBootToNonsecure => 1,
        TrustzoneMode::EnabledBootToSecure => 2,
        TrustzoneMode::PresetTrustzoneCheckerFromImageHeader => 3,
    }
}

/// A mode's code selects the mode again.
pub proof fn lemma_trustzone_mode_of_code(mode: TrustzoneMode)
    ensures
        trustzone_mode_code(mode) <= 3,
        trustzone_mode_of(trustzone_mode_code(mode) as u32) == mode,
{
}

/// Secure boot configuration word (`SECURE_BOOT_CFG`) of the factory area.
#[derive(Clone, Copy, Debug, Default, PartialEq, Eq, Hash, PartialOrd, Ord)]
pub struct SecureBootConfiguration {
    pub secure_boot_enabled: bool,
    pub puf_enrollment_disabled: bool,
    pub puf_keycode_generation_disabled: bool,
    pub trustzone_mode: TrustzoneMode,
    pub dice_computation_disabled: bool,
    pub include_factory_area_in_dice_computation: bool,
    pub include_nxp_area_in_dice_computation: bool,
    pub include_security_epoch_area_in_dice_computation: bool,
    pub use_rsa4096_keys: bool,
}

/// The configuration a word holds, one two-bit field per setting.
pub open spec fn secure_boot_configuration_of(word: u32) -> SecureBootConfiguration {
    SecureBootConfiguration {
        secure_boot_enabled: multibool_of((word >> 30u32) & 0b11),
        puf_enrollment_disabled: multibool_of((word >> 12u32) & 0b11),
        puf_keycode_generation_disabled: multibool_of((word >> 10u32) & 0b11),
        trustzone_mode: trustzone_mode_of((word >> 8u32) & 0b11),
        dice_computation_disabled: multibool_of((word >> 6u32) & 0b11),
        include_security_epoch_area_in_dice_computation: multibool_of((word >> 14u32) & 0b11),
        include_factory_area_in_dice_computation: multibool_of((word >> 4u32) & 0b11),
        include_nxp_area_in_dice_computation: multibool_of((word >> 2u32) & 0b11),
        use_rsa4096_keys: multibool_of(word & 0b11),
    }
}

/// The word a configuration is written as.
pub open spec fn secure_boot_configuration_word(cfg: SecureBootConfiguration) -> u32 {
    (boolmulti_of(cfg.secure_boot_enabled) << 30u32) | (boolmulti_of(cfg.puf_enrollment_disabled)
        << 12u32) | (boolmulti_of(cfg.puf_keycode_generation_disabled) << 10u32) | ((
    trustzone_mode_code(cfg.trustzone_mode) as u32) << 8u32) | (boolmulti_of(
        cfg.dice_computation_disabled,
    ) << 6u32) | (boolmulti_of(cfg.include_security_epoch_area_in_dice_computation) << 14u32) | (
    boolmulti_of(cfg.include_factory_area_in_dice_computation) << 4u32) | (boolmulti_of(
        cfg.include_nxp_area_in_dice_computation,
    ) << 2u32) | boolmulti_of(cfg.use_rsa4096_keys)
}

impl From<u32> for SecureBootConfiguration {
    fn from(word: u32) -> (r: Self) {
        proof {
            lemma_two_bits(word, 30);
            lemma_two_bits(word, 12);
            lemma_two_bits(word, 10);
            lemma_two_bits(word, 8);
            lemma_two_bits(word, 6);
            lemma_two_bits(word, 14);
            lemma_two_bits(word, 4);
            lemma_two_bits(word, 2);
            assert(word & 0b11 <= 0b11) by (bit_vector);
        }
        SecureBootConfiguration {
            secure_boot_enabled: multibool((word >> 30) & 0b11),
            puf_enrollment_disabled: multibool((word >> 12) & 0b11),
            puf_keycode_generation_disabled: multibool((word >> 10) & 0b11),
            trustzone_mode: TrustzoneMode::from((word >> 8) & 0b11),
            dice_computation_disabled: multibool((word >> 6) & 0b11),
            include_security_epoch_area_in_dice_computation: multibool((word >> 14) & 0b11),
            include_factory_area_in_dice_computation: multibool((word >> 4) & 0b11),
            include_nxp_area_in_dice_computation: multibool((word >> 2) & 0b11),
            use_rsa4096_keys: multibool(word & 0b11),
        }
    }
}

impl vstd::std_specs::convert::FromSpecImpl<u32> for SecureBootConfiguration {
    open spec fn obeys_from_spec() -> bool {
        true
    }

    open spec fn from_spec(word: u32) -> SecureBootConfiguration {
        secure_boot_configuration_of(word)
    }
}

impl From<SecureBootConfiguration> for u32 {
    fn from(cfg: SecureBootConfiguration) -> (r: u32) {
        (boolmulti(cfg.secure_boot_enabled) << 30u32) | (boolmulti(cfg.puf_enrollment_disabled)
            << 12u32) | (boolmulti(cfg.puf_keycode_generation_disabled) << 10u32) | ((
        trustzone_code(cfg.trustzone_mode) as u32) << 8u32) | (boolmulti(
            cfg.dice_computation_disabled,
        ) << 6u32) | (boolmulti(cfg.include_security_epoch_area_in_dice_computation) << 14u32) | (
        boolmulti(cfg.include_factory_area_in_dice_computation) << 4u32) | (boolmulti(
            cfg.include_nxp_area_in_dice_computation,
        ) << 2u32) | boolmulti(cfg.use_rsa4096_keys)
    }
}

impl vstd::std_specs::convert::FromSpecImpl<SecureBootConfiguration> for u32 {
    open spec fn obeys_from_spec() -> bool {
        true
    }

    open spec fn from_spec(cfg: SecureBootConfiguration) -> u32 {
        secure_boot_configuration_word(cfg)
    }
}

proof fn lemma_secure_boot_fields(a: u32, b: u32, c: u32, t: u32, d: u32, e: u32, f: u32, g: u32, h: u32)
    requires
        a <= 3,
        b <= 3,
        c <= 3,
        t <= 3,
        d <= 3,
        e <= 3,
        f <= 3,
        g <= 3,
        h <= 3,
    ensures
        ({
            let w = (a << 30u32) | (b << 12u32) | (c << 10u32) | (t << 8u32) | (d << 6u32) | (e
                << 14u32) | (f << 4u32) | (g << 2u32) | h;
            &&& (w >> 30u32) & 0b11 == a
            &&& (w >> 12u32) & 0b11 == b
            &&& (w >> 10u32) & 0b11 == c
            &&& (w >> 8u32) & 0b11 == t
            &&& (w >> 6u32) & 0b11 == d
            &&& (w >> 14u32) & 0b11 == e
            &&& (w >> 4u32) & 0b11 == f
            &&& (w >> 2u32) & 0b11 == g
            &&& w & 0b11 == h
        }),
{
    assert({
        let w = (a << 30u32) | (b << 12u32) | (c << 10u32) | (t << 8u32) | (d << 6u32) | (e
            << 14u32) | (f << 4u32) | (g << 2u32) | h;
        &&& (w >> 30u32) & 0b11 == a
        &&& (w >> 12u32) & 0b11 == b
        &&& (w >> 10u32) & 0b11 == c
        &&& (w >> 8u32) & 0b11 == t
        &&& (w >> 6u32) & 0b11 == d
        &&& (w >> 14u32) & 0b11 == e
        &&& (w >> 4u32) & 0b11 == f
        &&& (w >> 2u32) & 0b11 == g
        &&& w & 0b11 == h
    }) by (bit_vector)
        requires
            a <= 3,
            b <= 3,
            c <= 3,
            t <= 3,
            d <= 3,
            e <= 3,
            f <= 3,
            g <= 3,
            h <= 3,
    ;
}

/// A secure boot configuration written as a word reads back as itself.
pub proof fn lemma_secure_boot_configuration_read_back(cfg: SecureBootConfiguration)
    ensures
        secure_boot_configuration_of(secure_boot_configuration_word(cfg)) == cfg,
{
    lemma_secure_boot_fields(
        boolmulti_of(cfg.secure_boot_enabled),
        boolmulti_of(cfg.puf_enrollment_disabled),
        boolmulti_of(cfg.puf_keycode_generation_disabled),
        trustzone_mode_code(cfg.trustzone_mode) as u32,
        boolmulti_of(cfg.dice_computation_disabled),
        boolmulti_of(cfg.include_security_epoch_area_in_dice_computation),
        boolmulti_of(cfg.include_factory_area_in_dice_computation),
        boolmulti_of(cfg.include_nxp_area_in_dice_computation),
        boolmulti_of(cfg.use_rsa4096_keys),
    );
}

/// A two-bit field as it is written back after being read: both bits when any bit
/// was set, none otherwise.
pub open spec fn two_bit_normalized(bits: u32) -> u32 {
    boolmulti_of(multibool_of(bits))
}

/// Whether a two-bit field already has the form it is written in.
pub open spec fn two_bit_clean(bits: u32) -> bool {
    bits == 0 || bits == 0b11
}

proof fn lemma_secure_boot_word_mask(
    w: u32,
    a: u32,
    b: u32,
    c: u32,
    t: u32,
    d: u32,
    e: u32,
    f: u32,
    g: u32,
    h: u32,
)
    requires
        a <= 3,
        b <= 3,
        c <= 3,
        t <= 3,
        d <= 3,
        e <= 3,
        f <= 3,
        g <= 3,
        h <= 3,
    ensures
        ({
            let n = (a << 30u32) | (b << 12u32) | (c << 10u32) | (t << 8u32) | (d << 6u32) | (e
                << 14u32) | (f << 4u32) | (g << 2u32) | h;
            &&& n & 0x3FFF_0000 == 0
            &&& (n == w) <==> (w & 0x3FFF_0000 == 0 && (w >> 30u32) & 0b11 == a && (w >> 12u32)
                & 0b11 == b && (w >> 10u32) & 0b11 == c && (w >> 8u32) & 0b11 == t && (w >> 6u32)
                & 0b11 == d && (w >> 14u32) & 0b11 == e && (w >> 4u32) & 0b11 == f && (w >> 2u32)
                & 0b11 == g && w & 0b11 == h)
        }),
{
    assert({
        let n = (a << 30u32) | (b << 12u32) | (c << 10u32) | (t << 8u32) | (d << 6u32) | (e
            << 14u32) | (f << 4u32) | (g << 2u32) | h;
        &&& n & 0x3FFF_0000 == 0
        &&& (n == w) <==> (w & 0x3FFF_0000 == 0 && (w >> 30u32) & 0b11 == a && (w >> 12u32)
            & 0b11 == b && (w >> 10u32) & 0b11 == c && (w >> 8u32) & 0b11 == t && (w >> 6u32)
            & 0b11 == d && (w >> 14u32) & 0b11 == e && (w >> 4u32) & 0b11 == f && (w >> 2u32)
            & 0b11 == g && w & 0b11 == h)
    }) by (bit_vector)
        requires
            a <= 3,
            b <= 3,
            c <= 3,
            t <= 3,
            d <= 3,
            e <= 3,
            f <= 3,
            g <= 3,
            h <= 3,
    ;
}

/// Converting a word to a secure boot configuration and back keeps the TrustZone
/// field (bits 8 and 9), writes every other two-bit field as both bits when any
/// of its bits was set and as zero otherwise, and clears bits 16 to 29; so the
/// word comes back unchanged exactly when bits 16 to 29 are clear and each of
/// those two-bit fields is 0 or 3.
pub proof fn lemma_secure_boot_word_read_back(word: u32)
    ensures
        ({
            let n = secure_boot_configuration_word(secure_boot_configuration_of(word));
            &&& n & 0x3FFF_0000 == 0
            &&& (n >> 30u32) & 0b11 == two_bit_normalized((word >> 30u32) & 0b11)
            &&& (n >> 14u32) & 0b11 == two_bit_normalized((word >> 14u32) & 0b11)
            &&& (n >> 12u32) & 0b11 == two_bit_normalized((word >> 12u32) & 0b11)
            &&& (n >> 10u32) & 0b11 == two_bit_normalized((word >> 10u32) & 0b11)
            &&& (n >> 8u32) & 0b11 == (word >> 8u32) & 0b11
            &&& (n >> 6u32) & 0b11 == two_bit_normalized((word >> 6u32) & 0b11)
            &&& (n >> 4u32) & 0b11 == two_bit_normalized((word >> 4u32) & 0b11)
            &&& (n >> 2u32) & 0b11 == two_bit_normalized((word >> 2u32) & 0b11)
            &&& n & 0b11 == two_bit_normalized(word & 0b11)
            &&& (n == word) <==> (word & 0x3FFF_0000 == 0 && two_bit_clean((word >> 30u32) & 0b11)
                && two_bit_clean((word >> 14u32) & 0b11) && two_bit_clean((word >> 12u32) & 0b11)
                && two_bit_clean((word >> 10u32) & 0b11) && two_bit_clean((word >> 6u32) & 0b11)
                && two_bit_clean((word >> 4u32) & 0b11) && two_bit_clean((word >> 2u32) & 0b11)
                && two_bit_clean(word & 0b11))
        }),
{
    let cfg = secure_boot_configuration_of(word);
    lemma_two_bits(word, 30);
    lemma_two_bits(word, 14);
    lemma_two_bits(word, 12);
    lemma_two_bits(word, 10);
    lemma_two_bits(word, 8);
    lemma_two_bits(word, 6);
    lemma_two_bits(word, 4);
    lemma_two_bits(word, 2);
    assert(word & 0b11 <= 0b11) by (bit_vector);
    let t = (word >> 8u32) & 0b11;
    assert(trustzone_mode_code(trustzone_mode_of(t)) as u32 == t);
    let a = boolmulti_of(cfg.secure_boot_enabled);
    let b = boolmulti_of(cfg.puf_enrollment_disabled);
    let c = boolmulti_of(cfg.puf_keycode_generation_disabled);
    let d = boolmulti_of(cfg.dice_computation_disabled);
    let e = boolmulti_of(cfg.include_security_epoch_area_in_dice_computation);
    let f = boolmulti_of(cfg.include_factory_area_in_dice_computation);
    let g = boolmulti_of(cfg.include_nxp_area_in_dice_computation);
    let h = boolmulti_of(cfg.use_rsa4096_keys);
    lemma_secure_boot_fields(a, b, c, t, d, e, f, g, h);
    lemma_secure_boot_word_mask(word, a, b, c, t, d, e, f, g, h);
}

/// PRINCE configuration word (`PRINCE_BASE_ADDR` with its erase-check and lock
/// fields) of the factory area.
#[derive(Clone, Copy, Debug, Default, PartialEq, Eq, Hash, PartialOrd, Ord)]
pub struct PrinceConfiguration {
    pub erase_checks: [bool; 3],
    pub locked: [bool; 3],
    pub addresses: [u8; 3],
}

/// The configuration a word holds: erase checks in bits 24..30, locks in bits
/// 16..22 (two bits per region, region 0 highest) and a four-bit base address per
/// region in bits 0..12 (region 0 highest).
pub open spec fn prince_configuration_of(word: u32) -> PrinceConfiguration {
    PrinceConfiguration {
        erase_checks: [
            multibool_of((word >> 28u32) & 0b11),
            multibool_of((word >> 26u32) & 0b11),
            multibool_of((word >> 24u32) & 0b11),
        ],
        locked: [
            multibool_of((word >> 20u32) & 0b11),
            multibool_of((word >> 18u32) & 0b11),
            multibool_of((word >> 16u32) & 0b11),
        ],
        addresses: [
            ((word >> 8u32) & 0xF) as u8,
            ((word >> 4u32) & 0xF) as u8,
            (word & 0xF) as u8,
        ],
    }
}

/// The word a configuration is written as. Only the erase check and the lock of
/// region 0 are written, each into the fields of all three regions, and the
/// addresses are written whole at bits 8, 4 and 0.
pub open spec fn prince_configuration_word(cfg: PrinceConfiguration) -> u32 {
    (boolmulti_of(cfg.erase_checks[0]) << 28u32) | (boolmulti_of(cfg.erase_checks[0]) << 26u32) | (
    boolmulti_of(cfg.erase_checks[0]) << 24u32) | (boolmulti_of(cfg.locked[0]) << 20u32) | (
    boolmulti_of(cfg.locked[0]) << 18u32) | (boolmulti_of(cfg.locked[0]) << 16u32) | ((
    cfg.addresses[0] as u32) << 8u32) | ((cfg.addresses[1] as u32) << 4u32) | (
    cfg.addresses[2] as u32)
}

impl From<u32> for PrinceConfiguration {
    fn from(word: u32) -> (r: Self) {
        proof {
            lemma_two_bits(word, 28);
            lemma_two_bits(word, 26);
            lemma_two_bits(word, 24);
            lemma_two_bits(word, 20);
            lemma_two_bits(word, 18);
            lemma_two_bits(word, 16);
        }
        PrinceConfiguration {
            erase_checks: [
                multibool((word >> 28) & 0b11),
                multibool((word >> 26) & 0b11),
                multibool((word >> 24) & 0b11),
            ],
            locked: [
                multibool((word >> 20) & 0b11),
                multibool((word >> 18) & 0b11),
                multibool((word >> 16) & 0b11),
            ],
            addresses: [((word >> 8) & 0xF) as u8, ((word >> 4) & 0xF) as u8, (word & 0xF) as u8],
        }
    }
}

impl vstd::std_specs::convert::FromSpecImpl<u32> for PrinceConfiguration {
    open spec fn obeys_from_spec() -> bool {
        true
    }

    open spec fn from_spec(word: u32) -> PrinceConfiguration {
        prince_configuration_of(word)
    }
}

impl From<PrinceConfiguration> for u32 {
    fn from(cfg: PrinceConfiguration) -> (r: u32) {
        (boolmulti(cfg.erase_checks[0]) << 28u32) | (boolmulti(cfg.erase_checks[0]) << 26u32) | (
        boolmulti(cfg.erase_checks[0]) << 24u32) | (boolmulti(cfg.locked[0]) << 20u32) | (
        boolmulti(cfg.locked[0]) << 18u32) | (boolmulti(cfg.locked[0]) << 16u32) | ((
        cfg.addresses[0] as u32) << 8u32) | ((cfg.addresses[1] as u32) << 4u32) | (
        cfg.addresses[2] as u32)
    }
}

impl vstd::std_specs::convert::FromSpecImpl<PrinceConfiguration> for u32 {
    open spec fn obeys_from_spec() -> bool {
        true
    }

    open spec fn from_spec(cfg: PrinceConfiguration) -> u32 {
        prince_configuration_word(cfg)
    }
}

proof fn lemma_prince_fields(x: u32, y: u32, a0: u8, a1: u8, a2: u8)
    requires
        x <= 3,
        y <= 3,
    ensures
        ({
            let w = (x << 28u32) | (x << 26u32) | (x << 24u32) | (y << 20u32) | (y << 18u32) | (y
                << 16u32) | ((a0 as u32) << 8u32) | ((a1 as u32) << 4u32) | (a2 as u32);
            &&& (w >> 28u32) & 0b11 == x
            &&& (w >> 26u32) & 0b11 == x
            &&& (w >> 24u32) & 0b11 == x
            &&& (w >> 20u32) & 0b11 == y
            &&& (w >> 18u32) & 0b11 == y
            &&& (w >> 16u32) & 0b11 == y
            &&& ((w >> 8u32) & 0xF) as u8 == (a0 | (a1 >> 4u8)) & 0xF
            &&& ((w >> 4u32) & 0xF) as u8 == (a1 | (a2 >> 4u8)) & 0xF
            &&& (w & 0xF) as u8 == a2 & 0xF
        }),
{
    assert({
        let w = (x << 28u32) | (x << 26u32) | (x << 24u32) | (y << 20u32) | (y << 18u32) | (y
            << 16u32) | ((a0 as u32) << 8u32) | ((a1 as u32) << 4u32) | (a2 as u32);
        &&& (w >> 28u32) & 0b11 == x
        &&& (w >> 26u32) & 0b11 == x
        &&& (w >> 24u32) & 0b11 == x
        &&& (w >> 20u32) & 0b11 == y
        &&& (w >> 18u32) & 0b11 == y
        &&& (w >> 16u32) & 0b11 == y
        &&& ((w >> 8u32) & 0xF) as u8 == (a0 | (a1 >> 4u8)) & 0xF
        &&& ((w >> 4u32) & 0xF) as u8 == (a1 | (a2 >> 4u8)) & 0xF
        &&& (w & 0xF) as u8 == a2 & 0xF
    }) by (bit_vector)
        requires
            x <= 3,
            y <= 3,
    ;
}

/// Reading back a written PRINCE configuration gives the erase check and the lock
/// of region 0 for all three regions, and as each address the low four bits of
/// that address combined with the high four bits of the next region's address.
pub proof fn lemma_prince_configuration_read_back(cfg: PrinceConfiguration)
    ensures
        prince_configuration_of(prince_configuration_word(cfg)) == (PrinceConfiguration {
            erase_checks: [cfg.erase_checks[0], cfg.erase_checks[0], cfg.erase_checks[0]],
            locked: [cfg.locked[0], cfg.locked[0], cfg.locked[0]],
            addresses: [
                (cfg.addresses[0] | (cfg.addresses[1] >> 4u8)) & 0xF,
                (cfg.addresses[1] | (cfg.addresses[2] >> 4u8)) & 0xF,
                cfg.addresses[2] & 0xF,
            ],
        }),
{
    lemma_prince_fields(
        boolmulti_of(cfg.erase_checks[0]),
        boolmulti_of(cfg.locked[0]),
        cfg.addresses[0],
        cfg.addresses[1],
        cfg.addresses[2],
    );
}

/// Sub-regions of a PRINCE region whose contents are encrypted: bit `n` enables
/// the 8 kB sub-region `n`. Every one of the 32 bits names a sub-region.
#[derive(Clone, Copy, Debug, Default, PartialEq, Eq, Hash, PartialOrd, Ord)]
pub struct PrinceSubregion {
    bits: u32,
}

impl View for PrinceSubregion {
    type V = u32;

    closed spec fn view(&self) -> u32 {
        self.bits
    }
}

impl PrinceSubregion {
    /// The set of sub-regions whose bits are set in `bits`; since every bit names a
    /// sub-region, nothing is dropped.
    pub fn from_bits_truncate(bits: u32) -> (r: Self)
        ensures
            r@ == bits,
    {
        PrinceSubregion { bits }
    }

    /// The word of the set.
    pub fn bits(&self) -> (r: u32)
        ensures
            r == self@,
    {
        self.bits
    }

    /// Whether every sub-region of `other` is in this set.
    pub fn contains(&self, other: Self) -> (r: bool)
        ensures
            r == ((self@ & other@) == other@),
    {
        (self.bits & other.bits) == other.bits
    }

    /// Adds the sub-regions of `other` to this set.
    pub fn insert(&mut self, other: Self)
        ensures
            final(self)@ == old(self)@ | other@,
    {
        self.bits = self.bits | other.bits;
    }
}

/// Sets of sub-regions with the same bits are the same set.
pub proof fn lemma_prince_subregion_eq(a: PrinceSubregion, b: PrinceSubregion)
    requires
        a@ == b@,
    ensures
        a == b,
{
}

/// State of one root-of-trust key slot.
#[derive(Clone, Copy, Debug, PartialEq, Eq, Hash, PartialOrd, Ord)]
pub enum RotKeyStatus {
    Invalid,
    Enabled,
    Revoked,
}

impl Default for RotKeyStatus {
    fn default() -> (r: Self)
        ensures
            r == RotKeyStatus::Invalid,
    {
        RotKeyStatus::Invalid
    }
}

/// The state a two-bit field holds: 1 is enabled, 2 and 3 revoked, anything else
/// invalid.
pub open spec fn rot_key_status_of(value: u8) -> RotKeyStatus {
    if value == 1 {
        RotKeyStatus::Enabled
    } else if value == 2 || value == 3 {
        RotKeyStatus::Revoked
    } else {
        RotKeyStatus::Invalid
    }
}

/// The code a state is written as.
pub open spec fn rot_key_status_code(status: RotKeyStatus) -> u8 {
    match status {
        RotKeyStatus::Invalid => 0u8,
        RotKeyStatus::Enabled => 1u8,
        RotKeyStatus::Revoked => 3u8,
    }
}

impl From<u8> for RotKeyStatus {
    fn from(value: u8) -> (r: Self) {
        match value {
            0b00 => RotKeyStatus::Invalid,
            0b01 => RotKeyStatus::Enabled,
            0b10 | 0b11 => RotKeyStatus::Revoked,
            _ => RotKeyStatus::Invalid,
        }
    }
}

impl vstd::std_specs::convert::FromSpecImpl<u8> for RotKeyStatus {
    open spec fn obeys_from_spec() -> bool {
        true
    }

    open spec fn from_spec(value: u8) -> RotKeyStatus {
        rot_key_status_of(value)
    }
}

/// A state's code reads back as the state.
pub proof fn lemma_rot_key_status_of_code(status: RotKeyStatus)
    ensures
        rot_key_status_code(status) <= 3,
        rot_key_status_of(rot_key_status_code(status)) == status,
{
}

/// A slot holding 1 is enabled, one holding 2 or 3 is revoked, and any other value
/// is invalid.
pub proof fn lemma_rot_key_status_of_values(value: u8)
    ensures
        (rot_key_status_of(value) == RotKeyStatus::Enabled) == (value == 1),
        (rot_key_status_of(value) == RotKeyStatus::Revoked) == (value == 2 || value == 3),
        (rot_key_status_of(value) == RotKeyStatus::Invalid) == (value == 0 || value >= 4),
{
}

fn rot_key_code(status: RotKeyStatus) -> (code: u8)
    ensures
        code == rot_key_status_code(status),
{
    match status {
        RotKeyStatus::Invalid => 0,
        RotKeyStatus::Enabled => 1,
        RotKeyStatus::Revoked => 3,
    }
}

/// The state of each of the four root-of-trust key slots.
#[derive(Clone, Copy, Debug, Default, PartialEq, Eq, Hash, PartialOrd, Ord)]
pub struct RotKeysStatus([RotKeyStatus; 4]);

impl View for RotKeysStatus {
    type V = Seq<RotKeyStatus>;

    closed spec fn view(&self) -> Seq<RotKeyStatus> {
        self.0@
    }
}

impl From<[RotKeyStatus; 4]> for RotKeysStatus {
    fn from(statuses: [RotKeyStatus; 4]) -> (r: Self)
        ensures
            r@ == statuses@,
    {
        RotKeysStatus(statuses)
    }
}

impl vstd::std_specs::convert::FromSpecImpl<[RotKeyStatus; 4]> for RotKeysStatus {
    open spec fn obeys_from_spec() -> bool {
        true
    }

    closed spec fn from_spec(statuses: [RotKeyStatus; 4]) -> RotKeysStatus {
        RotKeysStatus(statuses)
    }
}

impl From<RotKeysStatus> for [RotKeyStatus; 4] {
    fn from(statuses: RotKeysStatus) -> (r: [RotKeyStatus; 4])
        ensures
            r@ == statuses@,
    {
        statuses.0
    }
}

impl vstd::std_specs::convert::FromSpecImpl<RotKeysStatus> for [RotKeyStatus; 4] {
    open spec fn obeys_from_spec() -> bool {
        true
    }

    closed spec fn from_spec(statuses: RotKeysStatus) -> [RotKeyStatus; 4] {
        statuses.0
    }
}

/// Slot states that agree slot by slot are the same value.
pub proof fn lemma_rot_keys_status_view_eq(a: RotKeysStatus, b: RotKeysStatus)
    requires
        a@ == b@,
    ensures
        a == b,
{
    assert(a.0 =~= b.0);
}

/// The slot states a word holds: slot `k` in bits `2k` and `2k + 1` of its low byte.
pub open spec fn rot_key_statuses_of(value: u32) -> Seq<RotKeyStatus> {
    let v = value as u8;
    seq![
        rot_key_status_of(v & 0b11),
        rot_key_status_of((v >> 2u8) & 0b11),
        rot_key_status_of((v >> 4u8) & 0b11),
        rot_key_status_of((v >> 6u8) & 0b11),
    ]
}

/// The slot states that a word holds, as a value.
pub closed spec fn rot_keys_status_of(value: u32) -> RotKeysStatus {
    let v = value as u8;
    RotKeysStatus(
        [
            rot_key_status_of(v & 0b11),
            rot_key_status_of((v >> 2u8) & 0b11),
            rot_key_status_of((v >> 4u8) & 0b11),
            rot_key_status_of((v >> 6u8) & 0b11),
        ],
    )
}

/// The low half of the word the slot states are written as: the code of slot `k`
/// times `4^k`.
pub open spec fn rot_keys_low(statuses: RotKeysStatus) -> u32 {
    (rot_key_status_code(statuses@[0]) + rot_key_status_code(statuses@[1]) * 4
        + rot_key_status_code(statuses@[2]) * 16 + rot_key_status_code(statuses@[3]) * 64) as u32
}

/// The word the slot states are written as: the slot codes in the low half, their
/// inverse in the high half.
pub open spec fn rot_keys_word(statuses: RotKeysStatus) -> u32 {
    bytes::with_inverse_high_half(rot_keys_low(statuses))
}

/// The slot states of a value built from a word are those the word holds.
pub proof fn lemma_rot_keys_status_view(value: u32)
    ensures
        rot_keys_status_of(value)@ == rot_key_statuses_of(value),
{
    assert(rot_keys_status_of(value)@ =~= rot_key_statuses_of(value));
}

/// A value of slot states always has four slots.
pub proof fn lemma_rot_keys_status_len(statuses: RotKeysStatus)
    ensures
        statuses@.len() == 4,
{
}

impl From<u32> for RotKeysStatus {
    fn from(value: u32) -> (r: Self)
        ensures
            r@ == rot_key_statuses_of(value),
    {
        let value = value as u8;
        let key_0_status = RotKeyStatus::from(value & 0b11);
        let key_1_status = RotKeyStatus::from((value >> 2) & 0b11);
        let key_2_status = RotKeyStatus::from((value >> 4) & 0b11);
        let key_3_status = RotKeyStatus::from((value >> 6) & 0b11);
        let r = RotKeysStatus([key_0_status, key_1_status, key_2_status, key_3_status]);
        assert(r@ =~= rot_key_statuses_of(value as u32));
        r
    }
}

impl vstd::std_specs::convert::FromSpecImpl<u32> for RotKeysStatus {
    open spec fn obeys_from_spec() -> bool {
        true
    }

    open spec fn from_spec(value: u32) -> RotKeysStatus {
        rot_keys_status_of(value)
    }
}

impl From<RotKeysStatus> for u32 {
    fn from(statuses: RotKeysStatus) -> (r: u32) {
        let c0 = rot_key_code(statuses.0[0]) as u32;
        let c1 = rot_key_code(statuses.0[1]) as u32;
        let c2 = rot_key_code(statuses.0[2]) as u32;
        let c3 = rot_key_code(statuses.0[3]) as u32;
        let low = c0 + c1 * 4 + c2 * 16 + c3 * 64;
        low | ((!low & 0xFFFF) << 16u32)
    }
}

impl vstd::std_specs::convert::FromSpecImpl<RotKeysStatus> for u32 {
    open spec fn obeys_from_spec() -> bool {
        true
    }

    open spec fn from_spec(statuses: RotKeysStatus) -> u32 {
        rot_keys_word(statuses)
    }
}

proof fn lemma_rot_key_fields(c0: u8, c1: u8, c2: u8, c3: u8)
    requires
        c0 <= 3,
        c1 <= 3,
        c2 <= 3,
        c3 <= 3,
    ensures
        ({
            let low = (c0 + c1 * 4 + c2 * 16 + c3 * 64) as u32;
            let v = (low | ((!low & 0xFFFF) << 16u32)) as u8;
            &&& v & 0b11 == c0
            &&& (v >> 2u8) & 0b11 == c1
            &&& (v >> 4u8) & 0b11 == c2
            &&& (v >> 6u8) & 0b11 == c3
        }),
{
    assert({
        let low = (c0 + c1 * 4 + c2 * 16 + c3 * 64) as u32;
        let v = (low | ((!low & 0xFFFF) << 16u32)) as u8;
        &&& v & 0b11 == c0
        &&& (v >> 2u8) & 0b11 == c1
        &&& (v >> 4u8) & 0b11 == c2
        &&& (v >> 6u8) & 0b11 == c3
    }) by (bit_vector)
        requires
            c0 <= 3,
            c1 <= 3,
            c2 <= 3,
            c3 <= 3,
    ;
}

/// Key slot states written as a word read back as themselves.
pub proof fn lemma_rot_keys_status_read_back(statuses: RotKeysStatus)
    ensures
        rot_keys_status_of(rot_keys_word(statuses)) == statuses,
{
    lemma_rot_key_fields(
        rot_key_status_code(statuses.0[0]),
        rot_key_status_code(statuses.0[1]),
        rot_key_status_code(statuses.0[2]),
        rot_key_status_code(statuses.0[3]),
    );
    assert(rot_keys_status_of(rot_keys_word(statuses)).0 =~= statuses.0);
}

/// Each key slot `k` holds bits `2k` and `2k + 1` of the word: 0 is invalid, 1
/// enabled, and 2 and 3 both revoked.
pub proof fn lemma_rot_keys_status_decode(word: u32)
    ensures
        ({
            let s = rot_keys_status_of(word)@;
            &&& s.len() == 4
            &&& (word & 0x3 == 0 ==> s[0] == RotKeyStatus::Invalid)
            &&& (word & 0x3 == 0x1 ==> s[0] == RotKeyStatus::Enabled)
            &&& (word & 0x3 >= 0x2 ==> s[0] == RotKeyStatus::Revoked)
            &&& (word & 0xC == 0 ==> s[1] == RotKeyStatus::Invalid)
            &&& (word & 0xC == 0x4 ==> s[1] == RotKeyStatus::Enabled)
            &&& (word & 0xC >= 0x8 ==> s[1] == RotKeyStatus::Revoked)
            &&& (word & 0x30 == 0 ==> s[2] == RotKeyStatus::Invalid)
            &&& (word & 0x30 == 0x10 ==> s[2] == RotKeyStatus::Enabled)
            &&& (word & 0x30 >= 0x20 ==> s[2] == RotKeyStatus::Revoked)
            &&& (word & 0xC0 == 0 ==> s[3] == RotKeyStatus::Invalid)
            &&& (word & 0xC0 == 0x40 ==> s[3] == RotKeyStatus::Enabled)
            &&& (word & 0xC0 >= 0x80 ==> s[3] == RotKeyStatus::Revoked)
        }),
{
    lemma_rot_keys_status_view(word);
    let v = word as u8;
    assert(((v & 0b11) as u32 == word & 0x3) && (((v >> 2u8) & 0b11) as u32 * 4 == word & 0xC)
        && (((v >> 4u8) & 0b11) as u32 * 16 == word & 0x30) && (((v >> 6u8) & 0b11) as u32 * 64
        == word & 0xC0) && word & 0x3 <= 0x3 && word & 0xC <= 0xC && word & 0x30 <= 0x30 && word
        & 0xC0 <= 0xC0) by (bit_vector)
        requires
            v == word as u8,
    ;
}

/// Each erase-check and lock field of the PRINCE word counts as set when either of
/// its two bits is set, and each address is its own four bits of the word.
pub proof fn lemma_prince_configuration_decode(word: u32)
    ensures
        ({
            let cfg = prince_configuration_of(word);
            &&& cfg.erase_checks[0] == (word & 0x3000_0000 != 0)
            &&& cfg.erase_checks[1] == (word & 0x0C00_0000 != 0)
            &&& cfg.erase_checks[2] == (word & 0x0300_0000 != 0)
            &&& cfg.locked[0] == (word & 0x0030_0000 != 0)
            &&& cfg.locked[1] == (word & 0x000C_0000 != 0)
            &&& cfg.locked[2] == (word & 0x0003_0000 != 0)
            &&& cfg.addresses[0] as u32 == (word & 0xF00) >> 8u32
            &&& cfg.addresses[1] as u32 == (word & 0xF0) >> 4u32
            &&& cfg.addresses[2] as u32 == word & 0xF
        }),
{
    assert((((word >> 28u32) & 0b11) != 0) == (word & 0x3000_0000 != 0) && (((word >> 26u32)
        & 0b11) != 0) == (word & 0x0C00_0000 != 0) && (((word >> 24u32) & 0b11) != 0) == (word
        & 0x0300_0000 != 0) && (((word >> 20u32) & 0b11) != 0) == (word & 0x0030_0000 != 0) && (((
    word >> 18u32) & 0b11) != 0) == (word & 0x000C_0000 != 0) && (((word >> 16u32) & 0b11) != 0)
        == (word & 0x0003_0000 != 0) && ((word >> 8u32) & 0xF) as u8 as u32 == (word & 0xF00)
        >> 8u32 && ((word >> 4u32) & 0xF) as u8 as u32 == (word & 0xF0) >> 4u32 && (word & 0xF) as u8
        as u32 == word & 0xF) by (bit_vector);
}

/// Each setting of the secure boot word counts as set when either bit of its
/// two-bit field is set, and the TrustZone mode is selected by bits 8 and 9.
pub proof fn lemma_secure_boot_configuration_decode(word: u32)
    ensures
        ({
            let cfg = secure_boot_configuration_of(word);
            &&& cfg.secure_boot_enabled == (word & 0xC000_0000 != 0)
            &&& cfg.puf_enrollment_disabled == (word & 0x3000 != 0)
            &&& cfg.puf_keycode_generation_disabled == (word & 0x0C00 != 0)
            &&& cfg.dice_computation_disabled == (word & 0xC0 != 0)
            &&& cfg.include_security_epoch_area_in_dice_computation == (word & 0xC000 != 0)
            &&& cfg.include_factory_area_in_dice_computation == (word & 0x30 != 0)
            &&& cfg.include_nxp_area_in_dice_computation == (word & 0x0C != 0)
            &&& cfg.use_rsa4096_keys == (word & 0x3 != 0)
            &&& (word & 0x300 == 0 ==> cfg.trustzone_mode == TrustzoneMode::FromImageHeader)
            &&& (word & 0x300 == 0x100 ==> cfg.trustzone_mode
                == TrustzoneMode::DisabledBootToNonsecure)
            &&& (word & 0x300 == 0x200 ==> cfg.trustzone_mode == TrustzoneMode::EnabledBootToSecure)
            &&& (word & 0x300 == 0x300 ==> cfg.trustzone_mode
                == TrustzoneMode::PresetTrustzoneCheckerFromImageHeader)
        }),
{
    assert((((word >> 30u32) & 0b11) != 0) == (word & 0xC000_0000 != 0) && (((word >> 12u32)
        & 0b11) != 0) == (word & 0x3000 != 0) && (((word >> 10u32) & 0b11) != 0) == (word
        & 0x0C00 != 0) && (((word >> 6u32) & 0b11) != 0) == (word & 0xC0 != 0) && (((word >> 14u32)
        & 0b11) != 0) == (word & 0xC000 != 0) && (((word >> 4u32) & 0b11) != 0) == (word & 0x30
        != 0) && (((word >> 2u32) & 0b11) != 0) == (word & 0x0C != 0) && ((word & 0b11) != 0)
        == (word & 0x3 != 0) && ((word >> 8u32) & 0b11) * 0x100 == word & 0x300)
        by (bit_vector);
}

} // verus!
