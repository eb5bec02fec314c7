use lpc55_pfr::{
    boolmulti, multibool, BootConfiguration, BootSpeed, DebugSecurityPolicies,
    DebugSecurityPolicy, IspMode, PrinceConfiguration, PrinceSubregion, RotKeyStatus,
    RotKeysStatus, SecureBootConfiguration, TrustzoneMode, UsbId,
};

#[test]
fn boot_speed_from_two_bits() {
    assert_eq!(BootSpeed::from(0u8), BootSpeed::Nxp);
    assert_eq!(BootSpeed::from(1u8), BootSpeed::Fro48);
    assert_eq!(BootSpeed::from(2u8), BootSpeed::Fro96);
    assert_eq!(BootSpeed::from(3u8), BootSpeed::Reserved);
    assert_eq!(BootSpeed::from(200u8), BootSpeed::Reserved);
    assert_eq!(BootSpeed::default(), BootSpeed::Nxp);
}

#[test]
fn isp_mode_numbers() {
    assert_eq!(IspMode::from(0u8), IspMode::Auto);
    assert_eq!(IspMode::from(4u8), IspMode::I2c);
    assert_eq!(IspMode::from(7u8), IspMode::FallthroughDisabled);
    assert_eq!(IspMode::from(5u8), IspMode::Reserved(5));
    assert_eq!(u8::from(IspMode::Spi), 3);
    assert_eq!(u8::from(IspMode::Reserved(9)), 9);
    // FallthroughDisabled is read from 7 but converted to 5
    assert_eq!(u8::from(IspMode::FallthroughDisabled), 5);
    assert_eq!(IspMode::from(u8::from(IspMode::FallthroughDisabled)), IspMode::Reserved(5));
    for v in 0u8..=255 {
        if v != 7 {
            assert_eq!(u8::from(IspMode::from(v)), v);
        }
    }
}

#[test]
fn boot_configuration_word() {
    let cfg = BootConfiguration::from(0x0500_0090u32);
    assert_eq!(
        cfg,
        BootConfiguration {
            failure_port: 1,
            failure_pin: 1,
            speed: BootSpeed::Fro48,
            mode: IspMode::Usb,
        }
    );
    assert_eq!(u32::from(cfg), 0x0500_0088);
    // the mode is written one bit lower than it is read
    let back = BootConfiguration::from(u32::from(cfg));
    assert_eq!(back.failure_port, 1);
    assert_eq!(back.failure_pin, 1);
    assert_eq!(back.speed, BootSpeed::Fro48);
    assert_eq!(back.mode, IspMode::Auto);
    // the failure port and pin are cut to their widths
    let wide = BootConfiguration {
        failure_port: 0xFF,
        failure_pin: 0xFF,
        speed: BootSpeed::Nxp,
        mode: IspMode::Auto,
    };
    assert_eq!(u32::from(wide), (0b11 << 24) | (0b11111 << 26));
}

#[test]
fn usb_id_halves() {
    assert_eq!(UsbId::from(0x0021_1FC9u32), UsbId { vid: 0x1FC9, pid: 0x0021 });
}

#[test]
fn two_bit_booleans() {
    assert!(!multibool(0));
    assert!(multibool(1));
    assert!(multibool(2));
    assert!(multibool(3));
    assert_eq!(boolmulti(true), 3);
    assert_eq!(boolmulti(false), 0);
    assert!(multibool(boolmulti(true)));
    assert!(!multibool(boolmulti(false)));
}

#[test]
fn trustzone_modes() {
    assert_eq!(TrustzoneMode::from(0), TrustzoneMode::FromImageHeader);
    assert_eq!(TrustzoneMode::from(1), TrustzoneMode::DisabledBootToNonsecure);
    assert_eq!(TrustzoneMode::from(2), TrustzoneMode::EnabledBootToSecure);
    assert_eq!(TrustzoneMode::from(3), TrustzoneMode::PresetTrustzoneCheckerFromImageHeader);
    assert_eq!(TrustzoneMode::default(), TrustzoneMode::FromImageHeader);
}

#[test]
fn secure_boot_configuration_word() {
    let cfg = SecureBootConfiguration::from(0xC000_0000u32);
    assert!(cfg.secure_boot_enabled);
    assert!(!cfg.puf_enrollment_disabled);
    assert_eq!(cfg.trustzone_mode, TrustzoneMode::FromImageHeader);
    assert_eq!(u32::from(cfg), 0xC000_0000);

    let cfg = SecureBootConfiguration::from(0x4000_4211u32);
    assert!(cfg.secure_boot_enabled);
    assert!(cfg.include_security_epoch_area_in_dice_computation);
    assert_eq!(cfg.trustzone_mode, TrustzoneMode::EnabledBootToSecure);
    assert!(cfg.include_factory_area_in_dice_computation);
    assert!(cfg.use_rsa4096_keys);
    assert!(!cfg.dice_computation_disabled);
    // every two-bit field is written with both bits
    assert_eq!(u32::from(cfg), 0xC000_C233);
    assert_eq!(SecureBootConfiguration::from(u32::from(cfg)), cfg);
}

#[test]
fn prince_configuration_word() {
    let cfg = PrinceConfiguration::from(0x3207_0A53u32);
    assert_eq!(cfg.erase_checks, [true, false, true]);
    assert_eq!(cfg.locked, [false, true, true]);
    assert_eq!(cfg.addresses, [0xA, 0x5, 0x3]);
    // only region 0's erase check and lock are written, into all three regions
    assert_eq!(u32::from(cfg), 0x3F00_0A53);
    let back = PrinceConfiguration::from(u32::from(cfg));
    assert_eq!(back.erase_checks, [true, true, true]);
    assert_eq!(back.locked, [false, false, false]);
    assert_eq!(back.addresses, [0xA, 0x5, 0x3]);
    // wide addresses spill into the next field
    let wide = PrinceConfiguration {
        erase_checks: [false; 3],
        locked: [false; 3],
        addresses: [0x01, 0x23, 0x45],
    };
    assert_eq!(PrinceConfiguration::from(u32::from(wide)).addresses, [0x3, 0x7, 0x5]);
}

#[test]
fn prince_subregion_bits() {
    assert_eq!(PrinceSubregion::from_bits_truncate(0x8000_0001).bits(), 0x8000_0001);
    assert_eq!(PrinceSubregion::default().bits(), 0);
}

#[test]
fn prince_subregion_contains_and_insert() {
    let mut set = PrinceSubregion::from_bits_truncate(0b0101);
    assert!(set.contains(PrinceSubregion::from_bits_truncate(0b0100)));
    assert!(set.contains(PrinceSubregion::default()));
    assert!(!set.contains(PrinceSubregion::from_bits_truncate(0b0110)));
    set.insert(PrinceSubregion::from_bits_truncate(0b0010));
    assert_eq!(set.bits(), 0b0111);
    assert!(set.contains(PrinceSubregion::from_bits_truncate(0b0110)));
}

#[test]
fn rot_key_statuses() {
    assert_eq!(RotKeyStatus::from(0u8), RotKeyStatus::Invalid);
    assert_eq!(RotKeyStatus::from(1u8), RotKeyStatus::Enabled);
    assert_eq!(RotKeyStatus::from(2u8), RotKeyStatus::Revoked);
    assert_eq!(RotKeyStatus::from(3u8), RotKeyStatus::Revoked);
    assert_eq!(RotKeyStatus::from(9u8), RotKeyStatus::Invalid);
    let statuses = RotKeysStatus::from(0xFFFF_FFE4u32);
    // Revoked is written as 3, the high half holds the inverse of the low half
    assert_eq!(u32::from(statuses), 0xFF0B_00F4);
    assert_eq!(RotKeysStatus::from(u32::from(statuses)), statuses);
    assert_eq!(u32::from(RotKeysStatus::default()), 0xFFFF_0000);
}

#[test]
fn debug_policy_bits() {
    assert_eq!(DebugSecurityPolicy::from([false, true]), DebugSecurityPolicy::EnableWithDap);
    assert_eq!(DebugSecurityPolicy::from([true, false]), DebugSecurityPolicy::Disabled);
    assert_eq!(DebugSecurityPolicy::from([true, true]), DebugSecurityPolicy::Enabled);
    assert_eq!(DebugSecurityPolicy::default(), DebugSecurityPolicy::EnableWithDap);
}

#[test]
fn debug_policies_words() {
    let p = DebugSecurityPolicies::from([0x0000_8203u32, 0x0000_0001u32]);
    assert_eq!(p.nonsecure_noninvasive, DebugSecurityPolicy::Enabled);
    assert_eq!(p.nonsecure_invasive, DebugSecurityPolicy::Disabled);
    assert_eq!(p.secure_noninvasive, DebugSecurityPolicy::EnableWithDap);
    assert_eq!(p.cm33_noninvasive, DebugSecurityPolicy::Disabled);
    assert!(p.check_uuid);

    let words: [u32; 2] = DebugSecurityPolicies::default().into();
    assert_eq!(words, [0xFFFF_0000, 0xFFFF_0000]);
    let words: [u32; 2] = p.into();
    assert_eq!(words, [0x7DFC_8203, 0xFFFE_0001]);
}

#[test]
fn debug_policies_read_back() {
    let p = DebugSecurityPolicies::from([0x0000_8203u32, 0x0000_0001u32]);
    let words: [u32; 2] = p.into();
    assert_eq!(DebugSecurityPolicies::from(words), p);
    let words: [u32; 2] = DebugSecurityPolicies::default().into();
    assert_eq!(DebugSecurityPolicies::from(words), DebugSecurityPolicies::default());
}

#[test]
fn secure_boot_word_normalized() {
    // bits 16..30 are dropped, a field holding 1 comes back as 3
    let w = 0x4ABC_0201u32;
    assert_eq!(u32::from(SecureBootConfiguration::from(w)), 0xC000_0203);
    let clean = 0xC000_F3CFu32;
    assert_eq!(u32::from(SecureBootConfiguration::from(clean)), clean);
}
