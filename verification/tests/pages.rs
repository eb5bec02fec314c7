use lpc55_pfr::{
    format_bytes, parse_factory, parse_field_page, parse_keystore, BootConfiguration, BootSpeed,
    DebugSecurityPolicies, DebugSecurityPolicy, FactoryArea, FactoryAreaProgInProgress, FieldArea,
    FieldAreaPage, IspMode, Keystore, KeystoreHeader, ParseError, PrinceConfiguration,
    PrinceSubregion, ProtectedFlash, RawCustomerData, RawVendorUsage, RotKeysStatus,
    SecureBootConfiguration, Sha256Hash, UsbId,
};
use sha2::Digest;

fn sha256(data: &[u8]) -> [u8; 32] {
    let mut out = [0u8; 32];
    out.copy_from_slice(&sha2::Sha256::digest(data));
    out
}

fn customer_pattern() -> [u8; 224] {
    let mut data = [0u8; 224];
    for (i, b) in data.iter_mut().enumerate() {
        *b = i as u8;
    }
    data
}

fn sample_field_page() -> FieldAreaPage {
    let mut page = FieldAreaPage::default();
    page.version.increment();
    page.version.increment();
    page.secure_firmware_version.increment();
    page.vendor_usage = RawVendorUsage::from(0x1234u32);
    page.rot_keys_status = RotKeysStatus::from(0x0000_0005u32);
    page.enable_fault_analysis_mode = true;
    page.customer_data = RawCustomerData::from(customer_pattern());
    page
}

#[test]
fn field_page_image_layout() {
    let mut page = sample_field_page();
    let bytes = page.to_bytes();
    assert_eq!(&bytes[0..4], &[0, 0, 0, 0]);
    assert_eq!(&bytes[4..8], &[2, 0, 0, 0]);
    assert_eq!(&bytes[8..12], &[1, 0, 0, 0]);
    assert_eq!(&bytes[20..24], &[0, 0, 0, 0]);
    assert_eq!(&bytes[24..28], &[5, 0, 0xFA, 0xFF]);
    assert_eq!(&bytes[28..32], &[0x34, 0x12, 0, 0]);
    // each debug word: the low half, then its inverse
    assert_eq!(&bytes[32..36], &[0, 0, 0xFF, 0xFF]);
    assert_eq!(&bytes[36..40], &[0, 0, 0xFF, 0xFF]);
    assert_eq!(&bytes[40..44], &[0x5A, 0xA5, 0x3C, 0xC3]);
    assert_eq!(&bytes[44..48], &[0, 0, 0, 0]);
    assert!(bytes[48..256].iter().all(|&b| b == 0));
    assert_eq!(&bytes[256..480], &customer_pattern()[..]);
}

#[test]
fn field_page_hash_closes_the_image() {
    let mut page = sample_field_page();
    let bytes = page.to_bytes();
    let hash = sha256(&bytes[..480]);
    assert_eq!(&bytes[480..], &hash[..]);
    assert_eq!(page.sha256_hash, Sha256Hash(hash));
    assert_ne!(&bytes[480..], &bytes[..32]);
    // writing again gives the same image
    assert_eq!(page.to_bytes(), bytes);
}

#[test]
fn field_page_old_layout() {
    let mut page = sample_field_page();
    let bytes = page.to_bytes_old();
    assert_eq!(&bytes[40..44], &[1, 0, 0, 0]);
    assert_eq!(&bytes[480..], &sha256(&bytes[..480])[..]);
    let mut new_page = sample_field_page();
    assert_ne!(new_page.to_bytes(), bytes);
}

#[test]
fn field_page_read_back() {
    let mut page = sample_field_page();
    let bytes = page.to_bytes();
    let read: FieldAreaPage = FieldAreaPage::try_from(&bytes[..]).unwrap();
    assert_eq!(read.header, page.header);
    assert_eq!(read.version, page.version);
    assert_eq!(read.secure_firmware_version, page.secure_firmware_version);
    assert_eq!(read.vendor_usage, page.vendor_usage);
    assert_eq!(read.rot_keys_status, page.rot_keys_status);
    assert_eq!(read.enable_fault_analysis_mode, true);
    assert_eq!(read.customer_data, page.customer_data);
    assert_eq!(read.prince_ivs, page.prince_ivs);
    assert_eq!(read.sha256_hash, page.sha256_hash);
    assert_eq!(read.debug_settings, page.debug_settings);
    assert_eq!(read.debug_settings, DebugSecurityPolicies::default());
}

#[test]
fn field_page_debug_words_pinned_first() {
    let mut page = sample_field_page();
    page.debug_settings.jtag_tap = DebugSecurityPolicy::Disabled;
    page.debug_settings.secure_invasive = DebugSecurityPolicy::Enabled;
    page.debug_settings.check_uuid = true;
    let bytes = page.to_bytes();
    // pinned ("fixed") word at 32, default ("set") word at 36
    assert_eq!(&bytes[32..36], &0x7FE7_8018u32.to_le_bytes());
    assert_eq!(&bytes[36..40], &0xFFF7_0008u32.to_le_bytes());
    let read: FieldAreaPage = FieldAreaPage::try_from(&bytes[..]).unwrap();
    assert_eq!(read.debug_settings, page.debug_settings);
    let mut input = [0u8; 512];
    input[32..36].copy_from_slice(&1u32.to_le_bytes());
    let read: FieldAreaPage = FieldAreaPage::try_from(&input[..]).unwrap();
    assert_eq!(read.debug_settings.nonsecure_noninvasive, DebugSecurityPolicy::Disabled);
}

#[test]
fn field_page_parse_rest_and_short_input() {
    let mut page = sample_field_page();
    let mut input = page.to_bytes().to_vec();
    input.extend_from_slice(&[7, 8, 9]);
    let (rest, read) = parse_field_page::<RawCustomerData, RawVendorUsage>(&input).unwrap();
    assert_eq!(rest, &[7, 8, 9]);
    assert_eq!(read.version, page.version);
    let short = parse_field_page::<RawCustomerData, RawVendorUsage>(&input[..511]);
    assert_eq!(short.err(), Some(ParseError::UnexpectedEnd));
}

#[test]
fn cmpa_programming_flag_descriptions() {
    assert_eq!(FactoryAreaProgInProgress::default().description(), "empty (0x0)");
    let mut page = sample_field_page();
    let mut bytes = page.to_bytes();
    bytes[44..48].copy_from_slice(&0x5CC5_5AA5u32.to_le_bytes());
    let read: FieldAreaPage = FieldAreaPage::try_from(&bytes[..]).unwrap();
    assert_eq!(read.factory_prog_in_progress.description(), "CMPA page programming ongoing");
    bytes[44..48].copy_from_slice(&0x0BADu32.to_le_bytes());
    let read: FieldAreaPage = FieldAreaPage::try_from(&bytes[..]).unwrap();
    assert_eq!(read.factory_prog_in_progress.description(), "unknown value bad");
}

#[test]
fn byte_field_text() {
    assert_eq!(format_bytes(&[0, 0, 0]), "\u{2205}");
    assert_eq!(format_bytes(&[]), "\u{2205}");
    assert_eq!(format_bytes(&[0x0A, 0xFF, 0x00]), "0A FF 00 ");
}

fn sample_factory_area() -> FactoryArea {
    let mut area = FactoryArea::default();
    area.boot_configuration = BootConfiguration {
        failure_port: 1,
        failure_pin: 3,
        speed: BootSpeed::Fro96,
        mode: IspMode::Auto,
    };
    area.usb_id = UsbId { vid: 0x1FC9, pid: 0x0021 };
    area.debug_settings.isp_boot_command = DebugSecurityPolicy::Disabled;
    area.vendor_usage = RawVendorUsage::from(0xCAFE_0000u32);
    area.secure_boot_configuration = SecureBootConfiguration::from(0xC000_0000u32);
    area.prince_configuration = PrinceConfiguration::from(0x0000_0123u32);
    area.prince_subregions = [
        PrinceSubregion::from_bits_truncate(1),
        PrinceSubregion::from_bits_truncate(0x8000_0000),
        PrinceSubregion::from_bits_truncate(0xFFFF_FFFF),
    ];
    area.rot_keys_table_hash = Sha256Hash([0xAB; 32]);
    area.customer_data = RawCustomerData::from(customer_pattern());
    area
}

#[test]
fn factory_area_image_layout() {
    let mut area = sample_factory_area();
    let bytes = area.to_bytes();
    assert_eq!(&bytes[0..4], &0x0D00_0100u32.to_le_bytes());
    assert_eq!(&bytes[4..8], &[0, 0, 0, 0]);
    assert_eq!(&bytes[8..12], &[0xC9, 0x1F, 0x21, 0x00]);
    assert_eq!(&bytes[12..16], &[0, 0, 0, 0]);
    assert_eq!(&bytes[16..20], &[0x40, 0x00, 0xBF, 0xFF]);
    assert_eq!(&bytes[20..24], &[0, 0, 0xFF, 0xFF]);
    assert_eq!(&bytes[24..28], &0xCAFE_0000u32.to_le_bytes());
    assert_eq!(&bytes[28..32], &0xC000_0000u32.to_le_bytes());
    assert_eq!(&bytes[32..36], &0x0000_0123u32.to_le_bytes());
    assert_eq!(&bytes[36..40], &1u32.to_le_bytes());
    assert_eq!(&bytes[40..44], &0x8000_0000u32.to_le_bytes());
    assert_eq!(&bytes[44..48], &0xFFFF_FFFFu32.to_le_bytes());
    assert!(bytes[48..80].iter().all(|&b| b == 0));
    assert_eq!(&bytes[80..112], &[0xAB; 32]);
    assert!(bytes[112..256].iter().all(|&b| b == 0));
    assert_eq!(&bytes[256..480], &customer_pattern()[..]);
    assert_eq!(&bytes[480..], &sha256(&bytes[..480])[..]);
    assert_eq!(area.sha256_hash.0, sha256(&bytes[..480]));
}

#[test]
fn factory_area_read_back() {
    let mut area = sample_factory_area();
    let bytes = area.to_bytes();
    let read: FactoryArea = FactoryArea::try_from(&bytes[..]).unwrap();
    assert_eq!(read.boot_configuration, area.boot_configuration);
    assert_eq!(read.usb_id, area.usb_id);
    assert_eq!(read.vendor_usage, area.vendor_usage);
    assert_eq!(read.secure_boot_configuration, area.secure_boot_configuration);
    assert_eq!(read.prince_configuration, area.prince_configuration);
    assert_eq!(read.prince_subregions, area.prince_subregions);
    assert_eq!(read.rot_keys_table_hash, area.rot_keys_table_hash);
    assert_eq!(read.customer_data, area.customer_data);
    assert_eq!(read.sha256_hash, area.sha256_hash);
    assert_eq!(read.debug_settings, area.debug_settings);
    let (rest, _) = parse_factory::<RawCustomerData, RawVendorUsage>(&bytes).unwrap();
    assert!(rest.is_empty());
    assert_eq!(
        parse_factory::<RawCustomerData, RawVendorUsage>(&bytes[..100]).err(),
        Some(ParseError::UnexpectedEnd)
    );
}

fn keystore_image() -> Vec<u8> {
    let mut image = Vec::new();
    image.extend_from_slice(&0x1234_5678u32.to_le_bytes());
    image.extend_from_slice(&250u32.to_le_bytes());
    for i in 0..1192 {
        image.push((i % 251) as u8);
    }
    for k in 0..6u8 {
        image.extend_from_slice(&[0x10 + k; 56]);
    }
    image
}

#[test]
fn keystore_read_and_write() {
    let image = keystore_image();
    assert_eq!(image.len(), 1536);
    let keystore = Keystore::try_from(&image[..]).unwrap();
    assert_eq!(keystore.header, KeystoreHeader(0x1234_5678));
    assert_eq!(keystore.puf_discharge_time_milliseconds, 250);
    assert_eq!(keystore.activation_code.as_ref(), &image[8..1200]);
    assert_eq!(keystore.secure_boot_kek.as_ref(), &[0x10; 56]);
    assert_eq!(keystore.prince_region_2.as_ref(), &[0x15; 56]);
    // a page holds only the start of the keystore
    let page = keystore.to_bytes();
    assert_eq!(&page[..], &image[..512]);
    let (rest, again) = parse_keystore(&image).unwrap();
    assert!(rest.is_empty());
    assert_eq!(again, keystore);
    assert_eq!(parse_keystore(&image[..1535]).err(), Some(ParseError::UnexpectedEnd));
}

#[test]
fn protected_flash_from_seven_pages() {
    let mut scratch: FieldAreaPage = FieldAreaPage::default();
    let mut ping = sample_field_page();
    let mut pong = sample_field_page();
    pong.version.increment();
    let mut factory = sample_factory_area();
    let mut input = Vec::new();
    input.extend_from_slice(&scratch.to_bytes());
    input.extend_from_slice(&ping.to_bytes());
    input.extend_from_slice(&pong.to_bytes());
    input.extend_from_slice(&factory.to_bytes());
    input.extend_from_slice(&keystore_image());
    assert_eq!(input.len(), 3584);
    let pfr = ProtectedFlash::try_from(&input[..]).unwrap();
    assert_eq!(pfr.field.scratch.version, scratch.version);
    assert_eq!(pfr.field.ping.version, ping.version);
    assert_eq!(pfr.field.pong.version, pong.version);
    assert_eq!(pfr.factory.usb_id, factory.usb_id);
    assert_eq!(pfr.keystore.puf_discharge_time_milliseconds, 250);
    let field = FieldArea::try_from(&input[..1536]).unwrap();
    assert_eq!(field, pfr.field);
}
