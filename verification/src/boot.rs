//! The boot configuration word and the USB identifier word of the factory area.
use vstd::prelude::*;

verus! {

/// Core clock speed the boot ROM runs at.
#[derive(Clone, Copy, Debug, PartialEq, Eq, Hash, PartialOrd, Ord)]
pub enum BootSpeed {
    Nxp,
    Fro48,
    Fro96,
    Reserved,
}

impl Default for BootSpeed {
    fn default() -> (r: Self)
        ensures
            r == BootSpeed::Nxp,
    {
        BootSpeed::Nxp
    }
}

/// The speed that a two-bit field selects; every other value selects `Reserved`.
pub open spec fn boot_speed_of(value: u8) -> BootSpeed {
    if value == 0 {
        BootSpeed::Nxp
    } else if value == 1 {
        BootSpeed::Fro48
    } else if value == 2 {
        BootSpeed::Fro96
    } else {
        BootSpeed::Reserved
    }
}

/// The two-bit code of a speed.
pub open spec fn boot_speed_code(speed: BootSpeed) -> u8 {
    match speed {
        BootSpeed::Nxp => 0u8,
        BootSpeed::Fro48 => 1u8,
        BootSpeed::Fro96 => 2u8,
        BootSpeed::Reserved => 3u8,
    }
}

impl From<u8> for BootSpeed {
    fn from(value: u8) -> (r: Self) {
        match value {
            0 => BootSpeed::Nxp,
            1 => BootSpeed::Fro48,
            2 => BootSpeed::Fro96,
            _ => BootSpeed::Reserved,
        }
    }
}

impl vstd::std_specs::convert::FromSpecImpl<u8> for BootSpeed {
    open spec fn obeys_from_spec() -> bool {
        true
    }

    open spec fn from_spec(value: u8) -> BootSpeed {
        boot_speed_of(value)
    }
}

/// A speed's code selects the speed again.
pub proof fn lemma_boot_speed_of_code(speed: BootSpeed)
    ensures
        boot_speed_code(speed) <= 3,
        boot_speed_of(boot_speed_code(speed)) == speed,
{
}

/// 0, 1 and 2 select the named speeds; every value from 3 up selects `Reserved`.
pub proof fn lemma_boot_speed_of_values(value: u8)
    ensures
        (boot_speed_of(value) == BootSpeed::Nxp) == (value == 0),
        (boot_speed_of(value) == BootSpeed::Fro48) == (value == 1),
        (boot_speed_of(value) == BootSpeed::Fro96) == (value == 2),
        (boot_speed_of(value) == BootSpeed::Reserved) == (value >= 3),
{
}

fn speed_code(speed: BootSpeed) -> (code: u8)
    ensures
        code == boot_speed_code(speed),
{
    match speed {
        BootSpeed::Nxp => 0,
        BootSpeed::Fro48 => 1,
        BootSpeed::Fro96 => 2,
        BootSpeed::Reserved => 3,
    }
}

/// In-system programming mode the boot ROM falls back to.
#[derive(Clone, Copy, Debug, PartialEq, Eq, Hash, PartialOrd, Ord)]
pub enum IspMode {
    Auto,
    Usb,
    Uart,
    Spi,
    I2c,
    FallthroughDisabled,
    Reserved(u8),
}

impl Default for IspMode {
    fn default() -> (r: Self)
        ensures
            r == IspMode::Auto,
    {
        IspMode::Auto
    }
}

/// The mode that a field value selects.
pub open spec fn isp_mode_of(value: u8) -> IspMode {
    if value == 0 {
        IspMode::Auto
    } else if value == 1 {
        IspMode::Usb
    } else if value == 2 {
        IspMode::Uart
    } else if value == 3 {
        IspMode::Spi
    } else if value == 4 {
        IspMode::I2c
    } else if value == 7 {
        IspMode::FallthroughDisabled
    } else {
        IspMode::Reserved(value)
    }
}

/// The number a mode is converted to.
pub open spec fn isp_mode_code(mode: IspMode) -> u8 {
    match mode {
        IspMode::Auto => 0u8,
        IspMode::Usb => 1u8,
        IspMode::Uart => 2u8,
        IspMode::Spi => 3u8,
        IspMode::I2c => 4u8,
        IspMode::FallthroughDisabled => 5u8,
        IspMode::Reserved(value) => value,
    }
}

impl From<u8> for IspMode {
    fn from(value: u8) -> (r: Self) {
        match value {
            0 => IspMode::Auto,
            1 => IspMode::Usb,
            2 => IspMode::Uart,
            3 => IspMode::Spi,
            4 => IspMode::I2c,
            7 => IspMode::FallthroughDisabled,
            value => IspMode::Reserved(value),
        }
    }
}

impl vstd::std_specs::convert::FromSpecImpl<u8> for IspMode {
    open spec fn obeys_from_spec() -> bool {
        true
    }

    open spec fn from_spec(value: u8) -> IspMode {
        isp_mode_of(value)
    }
}

impl From<IspMode> for u8 {
    fn from(mode: IspMode) -> (r: u8) {
        match mode {
            IspMode::Auto => 0,
            IspMode::Usb => 1,
            IspMode::Uart => 2,
            IspMode::Spi => 3,
            IspMode::I2c => 4,
            IspMode::FallthroughDisabled => 5,
            IspMode::Reserved(value) => value,
        }
    }
}

impl vstd::std_specs::convert::FromSpecImpl<IspMode> for u8 {
    open spec fn obeys_from_spec() -> bool {
        true
    }

    open spec fn from_spec(mode: IspMode) -> u8 {
        isp_mode_code(mode)
    }
}

/// Converting a number to a mode and back gives the number, for every number but 7
/// (`FallthroughDisabled` is read from 7 and converted to 5).
pub proof fn lemma_isp_mode_code_of_mode(value: u8)
    requires
        value != 7,
    ensures
        isp_mode_code(isp_mode_of(value)) == value,
{
}

/// Converting a mode to its number and back gives the mode, for every mode but
/// `FallthroughDisabled` and `Reserved` with a number that names another mode.
pub proof fn lemma_isp_mode_of_code(mode: IspMode)
    requires
        mode != IspMode::FallthroughDisabled,
        mode matches IspMode::Reserved(v) ==> v > 4 && v != 7,
    ensures
        isp_mode_of(isp_mode_code(mode)) == mode,
{
}

/// Boot configuration word (`BOOT_CFG`) of the factory area.
#[derive(Clone, Copy, Debug, Default, PartialEq, Eq, Hash, PartialOrd, Ord)]
pub struct BootConfiguration {
    pub failure_port: u8,
    pub failure_pin: u8,
    pub speed: BootSpeed,
    pub mode: IspMode,
}

/// The configuration that a word holds: failure port in bits 24..26, failure pin in
/// bits 26..31, speed in bits 7..9 and mode in bits 4..7.
pub open spec fn boot_configuration_of(word: u32) -> BootConfiguration {
    BootConfiguration {
        failure_port: ((word >> 24) & 0b11) as u8,
        failure_pin: ((word >> 26) & 0b11111) as u8,
        speed: boot_speed_of(((word >> 7) & 0b11) as u8),
        mode: isp_mode_of(((word >> 4) & 0b111) as u8),
    }
}

/// The word a configuration is written as: failure port at bit 24, failure pin at
/// bit 26, speed code at bit 7 and mode number at bit 3.
pub open spec fn boot_configuration_word(cfg: BootConfiguration) -> u32 {
    (((cfg.failure_port & 0b11) as u32) << 24u32) | (((cfg.failure_pin & 0b11111) as u32) << 26u32)
        | ((boot_speed_code(cfg.speed) as u32) << 7u32) | ((isp_mode_code(cfg.mode) as u32) << 3u32)
}

impl From<u32> for BootConfiguration {
    fn from(word: u32) -> (r: Self) {
        BootConfiguration {
            failure_port: ((word >> 24) & 0b11) as u8,
            failure_pin: ((word >> 26) & 0b11111) as u8,
            speed: BootSpeed::from(((word >> 7) & 0b11) as u8),
            mode: IspMode::from(((word >> 4) & 0b111) as u8),
        }
    }
}

impl vstd::std_specs::convert::FromSpecImpl<u32> for BootConfiguration {
    open spec fn obeys_from_spec() -> bool {
        true
    }

    open spec fn from_spec(word: u32) -> BootConfiguration {
        boot_configuration_of(word)
    }
}

impl From<BootConfiguration> for u32 {
    fn from(cfg: BootConfiguration) -> (r: u32) {
        let port = ((cfg.failure_port & 0b11) as u32) << 24u32;
        let pin = ((cfg.failure_pin & 0b11111) as u32) << 26u32;
        let speed = (speed_code(cfg.speed) as u32) << 7u32;
        let mode = (u8::from(cfg.mode) as u32) << 3u32;
        port | pin | speed | mode
    }
}

impl vstd::std_specs::convert::FromSpecImpl<BootConfiguration> for u32 {
    open spec fn obeys_from_spec() -> bool {
        true
    }

    open spec fn from_spec(cfg: BootConfiguration) -> u32 {
        boot_configuration_word(cfg)
    }
}

proof fn lemma_boot_word_fields(port: u8, pin: u8, speed: u8, mode: u8)
    requires
        speed <= 3,
    ensures
        ({
            let w = (((port & 0b11) as u32) << 24u32) | (((pin & 0b11111) as u32) << 26u32) | ((
            speed as u32) << 7u32) | ((mode as u32) << 3u32);
            &&& ((w >> 24) & 0b11) as u8 == port & 0b11
            &&& ((w >> 26) & 0b11111) as u8 == pin & 0b11111
            &&& ((w >> 7) & 0b11) as u8 == (speed | (mode >> 4u8)) & 0b11
            &&& ((w >> 4) & 0b111) as u8 == (mode >> 1u8) & 0b111
        }),
{
    assert({
        let w = (((port & 0b11) as u32) << 24u32) | (((pin & 0b11111) as u32) << 26u32) | ((
        speed as u32) << 7u32) | ((mode as u32) << 3u32);
        &&& ((w >> 24) & 0b11) as u8 == port & 0b11
        &&& ((w >> 26) & 0b11111) as u8 == pin & 0b11111
        &&& ((w >> 7) & 0b11) as u8 == (speed | (mode >> 4u8)) & 0b11
        &&& ((w >> 4) & 0b111) as u8 == (mode >> 1u8) & 0b111
    }) by (bit_vector)
        requires
            speed <= 3,
    ;
}

/// Reading back a written boot configuration gives its failure port and pin cut to
/// their field widths; the speed field also receives bits 4 and 5 of the mode
/// number, and the mode is read from bits 1 to 3 of the mode number, since the
/// mode is written one bit lower than it is read.
pub proof fn lemma_boot_configuration_read_back(cfg: BootConfiguration)
    ensures
        boot_configuration_of(boot_configuration_word(cfg)) == (BootConfiguration {
            failure_port: cfg.failure_port & 0b11,
            failure_pin: cfg.failure_pin & 0b11111,
            speed: boot_speed_of((boot_speed_code(cfg.speed) | (isp_mode_code(cfg.mode) >> 4u8))
                & 0b11),
            mode: isp_mode_of((isp_mode_code(cfg.mode) >> 1u8) & 0b111),
        }),
{
    lemma_boot_word_fields(
        cfg.failure_port,
        cfg.failure_pin,
        boot_speed_code(cfg.speed),
        isp_mode_code(cfg.mode),
    );
}

/// USB vendor and product identifiers.
#[derive(Clone, Copy, Debug, Default, PartialEq, Eq, Hash, PartialOrd, Ord)]
pub struct UsbId {
    pub vid: u16,
    pub pid: u16,
}

/// The identifiers a word holds: vendor in the low half, product in the high half.
pub open spec fn usb_id_of(word: u32) -> UsbId {
    UsbId { vid: word as u16, pid: (word >> 16) as u16 }
}

impl From<u32> for UsbId {
    fn from(word: u32) -> (r: Self) {
        UsbId { vid: word as u16, pid: (word >> 16) as u16 }
    }
}

impl vstd::std_specs::convert::FromSpecImpl<u32> for UsbId {
    open spec fn obeys_from_spec() -> bool {
        true
    }

    open spec fn from_spec(word: u32) -> UsbId {
        usb_id_of(word)
    }
}

/// The failure port is bits 24 and 25 of the boot word, the failure pin bits 26 to
/// 30, the speed bits 7 and 8 and the mode bits 4 to 6.
pub proof fn lemma_boot_configuration_decode(word: u32)
    ensures
        ({
            let cfg = boot_configuration_of(word);
            &&& cfg.failure_port as u32 == (word & 0x0300_0000) >> 24u32
            &&& cfg.failure_pin as u32 == (word & 0x7C00_0000) >> 26u32
            &&& (word & 0x180 == 0 ==> cfg.speed == BootSpeed::Nxp)
            &&& (word & 0x180 == 0x80 ==> cfg.speed == BootSpeed::Fro48)
            &&& (word & 0x180 == 0x100 ==> cfg.speed == BootSpeed::Fro96)
            &&& (word & 0x180 == 0x180 ==> cfg.speed == BootSpeed::Reserved)
            &&& (word & 0x70 == 0 ==> cfg.mode == IspMode::Auto)
            &&& (word & 0x70 == 0x10 ==> cfg.mode == IspMode::Usb)
            &&& (word & 0x70 == 0x20 ==> cfg.mode == IspMode::Uart)
            &&& (word & 0x70 == 0x30 ==> cfg.mode == IspMode::Spi)
            &&& (word & 0x70 == 0x40 ==> cfg.mode == IspMode::I2c)
            &&& (word & 0x70 == 0x50 ==> cfg.mode == IspMode::Reserved(5))
            &&& (word & 0x70 == 0x60 ==> cfg.mode == IspMode::Reserved(6))
            &&& (word & 0x70 == 0x70 ==> cfg.mode == IspMode::FallthroughDisabled)
        }),
{
    assert(((word >> 24) & 0b11) as u8 as u32 == (word & 0x0300_0000) >> 24u32 && ((word >> 26)
        & 0b11111) as u8 as u32 == (word & 0x7C00_0000) >> 26u32 && ((word >> 7) & 0b11) as u8
        as u32 * 0x80 == word & 0x180 && ((word >> 4) & 0b111) as u8 as u32 * 0x10 == word & 0x70)
        by (bit_vector);
}

/// The vendor identifier is the low half of the USB word, the product identifier
/// the high half.
pub proof fn lemma_usb_id_decode(word: u32)
    ensures
        usb_id_of(word).vid as u32 == word & 0xFFFF,
        usb_id_of(word).pid as u32 == word >> 16u32,
{
    assert(word as u16 as u32 == word & 0xFFFF && (word >> 16) as u16 as u32 == word >> 16u32)
        by (bit_vector);
}

} // verus!
