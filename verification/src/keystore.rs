//! The keystore: PUF activation code and the key codes of the device keys.
use crate::bytes::{self, copy_into, first_512, get_u32, put_bytes, put_u32, ParseError};
use vstd::prelude::*;
use vstd::slice::slice_subrange;

verus! {

/// Keystore header word.
#[derive(Clone, Copy, Debug, Default, PartialEq, Eq, Hash, PartialOrd, Ord)]
pub struct KeystoreHeader(pub u32);

/// A PUF key code.
#[derive(Clone, Copy, Debug, PartialEq, Eq, Hash, PartialOrd, Ord)]
pub struct Keycode([u8; 56]);

impl View for Keycode {
    type V = Seq<u8>;

    closed spec fn view(&self) -> Seq<u8> {
        self.0@
    }
}

impl Default for Keycode {
    fn default() -> (r: Self)
        ensures
            r@ == bytes::zeros(56),
    {
        let r = Keycode([0u8; 56]);
        assert(r@ =~= bytes::zeros(56));
        r
    }
}

impl AsRef<[u8]> for Keycode {
    fn as_ref(&self) -> (r: &[u8])
        ensures
            r@ == self@,
    {
        self.0.as_slice()
    }
}

impl From<[u8; 56]> for Keycode {
    fn from(value: [u8; 56]) -> (r: Self)
        ensures
            r@ == value@,
    {
        Keycode(value)
    }
}

impl vstd::std_specs::convert::FromSpecImpl<[u8; 56]> for Keycode {
    open spec fn obeys_from_spec() -> bool {
        true
    }

    closed spec fn from_spec(value: [u8; 56]) -> Keycode {
        Keycode(value)
    }
}

/// The PUF activation code.
#[derive(Clone, Copy, Debug, PartialEq, Eq, Hash, PartialOrd, Ord)]
pub struct ActivationCode([u8; 1192]);

impl View for ActivationCode {
    type V = Seq<u8>;

    closed spec fn view(&self) -> Seq<u8> {
        self.0@
    }
}

impl Default for ActivationCode {
    fn default() -> (r: Self)
        ensures
            r@ == bytes::zeros(1192),
    {
        let r = ActivationCode([0u8; 1192]);
        assert(r@ =~= bytes::zeros(1192));
        r
    }
}

impl AsRef<[u8]> for ActivationCode {
    fn as_ref(&self) -> (r: &[u8])
        ensures
            r@ == self@,
    {
        self.0.as_slice()
    }
}

impl From<[u8; 1192]> for ActivationCode {
    fn from(value: [u8; 1192]) -> (r: Self)
        ensures
            r@ == value@,
    {
        ActivationCode(value)
    }
}

impl vstd::std_specs::convert::FromSpecImpl<[u8; 1192]> for ActivationCode {
    open spec fn obeys_from_spec() -> bool {
        true
    }

    closed spec fn from_spec(value: [u8; 1192]) -> ActivationCode {
        ActivationCode(value)
    }
}

/// Key codes with the same bytes are the same key code.
pub proof fn lemma_keycode_view_eq(a: Keycode, b: Keycode)
    requires
        a@ == b@,
    ensures
        a == b,
{
    assert(a.0 =~= b.0);
}

/// The bytes of a `Keycode` are always 56 long.
pub proof fn lemma_keycode_len(code: Keycode)
    ensures
        code@.len() == 56,
{
}

/// Activation codes with the same bytes are the same code.
pub proof fn lemma_activation_code_view_eq(a: ActivationCode, b: ActivationCode)
    requires
        a@ == b@,
    ensures
        a == b,
{
    assert(a.0 =~= b.0);
}

/// The bytes of a `ActivationCode` are always 1192 long.
pub proof fn lemma_activation_code_len(code: ActivationCode)
    ensures
        code@.len() == 1192,
{
}

/// All the keys :)
#[derive(Clone, Copy, Debug, Default, PartialEq, Eq, Hash, PartialOrd, Ord)]
pub struct Keystore {
    pub header: KeystoreHeader,
    pub puf_discharge_time_milliseconds: u32,
    pub activation_code: ActivationCode,
    pub secure_boot_kek: Keycode,
    pub firmware_update_kek: Keycode,
    pub unique_device_secret: Keycode,
    pub prince_region_0: Keycode,
    pub prince_region_1: Keycode,
    pub prince_region_2: Keycode,
}

/// The keystore's full 1536-byte image: header, PUF discharge time, activation
/// code and the six key codes, in this order.
pub open spec fn keystore_image(keystore: Keystore) -> Seq<u8> {
    bytes::le_bytes(keystore.header.0) + bytes::le_bytes(keystore.puf_discharge_time_milliseconds)
        + keystore.activation_code@ + keystore.secure_boot_kek@ + keystore.firmware_update_kek@
        + keystore.unique_device_secret@ + keystore.prince_region_0@ + keystore.prince_region_1@
        + keystore.prince_region_2@
}

/// The keystore that `b` holds at its start.
pub open spec fn keystore_read_from(b: Seq<u8>, keystore: Keystore) -> bool {
    &&& keystore.header.0 == bytes::word_at(b, 0)
    &&& keystore.puf_discharge_time_milliseconds == bytes::word_at(b, 4)
    &&& keystore.activation_code@ == b.subrange(8, 1200)
    &&& keystore.secure_boot_kek@ == b.subrange(1200, 1256)
    &&& keystore.firmware_update_kek@ == b.subrange(1256, 1312)
    &&& keystore.unique_device_secret@ == b.subrange(1312, 1368)
    &&& keystore.prince_region_0@ == b.subrange(1368, 1424)
    &&& keystore.prince_region_1@ == b.subrange(1424, 1480)
    &&& keystore.prince_region_2@ == b.subrange(1480, 1536)
}

impl Keystore {
    /// The first 512 bytes of the keystore's image (a single page holds no more:
    /// header, PUF discharge time and the start of the activation code).
    pub fn to_bytes(&self) -> (page: [u8; 512])
        ensures
            page@ == keystore_image(*self).subrange(0, 512),
    {
        let mut cursor: Vec<u8> = Vec::new();
        put_u32(&mut cursor, self.header.0);
        assert(cursor@ =~= bytes::le_bytes(self.header.0));
        put_u32(&mut cursor, self.puf_discharge_time_milliseconds);
        put_bytes(&mut cursor, self.activation_code.0.as_slice());
        put_bytes(&mut cursor, self.secure_boot_kek.0.as_slice());
        put_bytes(&mut cursor, self.firmware_update_kek.0.as_slice());
        put_bytes(&mut cursor, self.unique_device_secret.0.as_slice());
        put_bytes(&mut cursor, self.prince_region_0.0.as_slice());
        put_bytes(&mut cursor, self.prince_region_1.0.as_slice());
        put_bytes(&mut cursor, self.prince_region_2.0.as_slice());
        first_512(cursor.as_slice())
    }
}

/// Reads a keystore from the first 1536 bytes of `input`, giving the rest of the
/// input with it; fails when the input is shorter than that.
pub fn parse_keystore(input: &[u8]) -> (r: Result<(&[u8], Keystore), ParseError>)
    ensures
        match r {
            Ok((rest, keystore)) => {
                &&& 1536 <= input@.len()
                &&& rest@ == input@.subrange(1536, input@.len() as int)
                &&& keystore_read_from(input@, keystore)
            },
            Err(e) => input@.len() < 1536 && e == ParseError::UnexpectedEnd,
        },
{
    if input.len() < 1536 {
        return Err(ParseError::UnexpectedEnd);
    }
    let header = get_u32(input, 0);
    let puf_discharge_time_milliseconds = get_u32(input, 4);
    let mut activation_code = [0u8; 1192];
    copy_into(&mut activation_code, input, 8);
    let mut secure_boot_kek = [0u8; 56];
    copy_into(&mut secure_boot_kek, input, 1200);
    let mut firmware_update_kek = [0u8; 56];
    copy_into(&mut firmware_update_kek, input, 1256);
    let mut unique_device_secret = [0u8; 56];
    copy_into(&mut unique_device_secret, input, 1312);
    let mut prince_region_0 = [0u8; 56];
    copy_into(&mut prince_region_0, input, 1368);
    let mut prince_region_1 = [0u8; 56];
    copy_into(&mut prince_region_1, input, 1424);
    let mut prince_region_2 = [0u8; 56];
    copy_into(&mut prince_region_2, input, 1480);

    let keystore = Keystore {
        header: KeystoreHeader(header),
        puf_discharge_time_milliseconds,
        activation_code: ActivationCode(activation_code),
        secure_boot_kek: Keycode(secure_boot_kek),
        firmware_update_kek: Keycode(firmware_update_kek),
        unique_device_secret: Keycode(unique_device_secret),
        prince_region_0: Keycode(prince_region_0),
        prince_region_1: Keycode(prince_region_1),
        prince_region_2: Keycode(prince_region_2),
    };

    Ok((slice_subrange(input, 1536, input.len()), keystore))
}

impl Keystore {
    /// Reads a keystore from the first 1536 bytes of `input`, which must hold it.
    pub fn try_from(input: &[u8]) -> (r: Result<Self, ()>)
        requires
            1536 <= input@.len(),
        ensures
            match r {
                Ok(keystore) => keystore_read_from(input@, keystore),
                Err(_) => false,
            },
    {
        let (_input, keystore) = parse_keystore(input).unwrap();
        Ok(keystore)
    }
}

/// Reading back a keystore's full image gives back the keystore.
pub proof fn lemma_keystore_read_back(keystore: Keystore, read: Keystore)
    requires
        keystore_read_from(keystore_image(keystore), read),
    ensures
        read == keystore,
{
    let b = keystore_image(keystore);
    assert(b.subrange(0, 4) =~= bytes::le_bytes(keystore.header.0));
    assert(b.subrange(4, 8) =~= bytes::le_bytes(keystore.puf_discharge_time_milliseconds));
    bytes::lemma_le_word_of_le_bytes(keystore.header.0);
    bytes::lemma_le_word_of_le_bytes(keystore.puf_discharge_time_milliseconds);
    assert(read.activation_code.0 =~= keystore.activation_code.0);
    assert(read.secure_boot_kek.0 =~= keystore.secure_boot_kek.0);
    assert(read.firmware_update_kek.0 =~= keystore.firmware_update_kek.0);
    assert(read.unique_device_secret.0 =~= keystore.unique_device_secret.0);
    assert(read.prince_region_0.0 =~= keystore.prince_region_0.0);
    assert(read.prince_region_1.0 =~= keystore.prince_region_1.0);
    assert(read.prince_region_2.0 =~= keystore.prince_region_2.0);
}

/// The keystore's image is 1536 bytes: the header word at 0, the PUF discharge time
/// at 4, the activation code at 8..1200, then the six key codes of 56 bytes each.
pub proof fn lemma_keystore_image_layout(keystore: Keystore)
    ensures
        ({
            let b = keystore_image(keystore);
            &&& b.len() == 1536
            &&& bytes::word_at(b, 0) == keystore.header.0
            &&& bytes::word_at(b, 4) == keystore.puf_discharge_time_milliseconds
            &&& b.subrange(8, 1200) == keystore.activation_code@
            &&& b.subrange(1200, 1256) == keystore.secure_boot_kek@
            &&& b.subrange(1256, 1312) == keystore.firmware_update_kek@
            &&& b.subrange(1312, 1368) == keystore.unique_device_secret@
            &&& b.subrange(1368, 1424) == keystore.prince_region_0@
            &&& b.subrange(1424, 1480) == keystore.prince_region_1@
            &&& b.subrange(1480, 1536) == keystore.prince_region_2@
        }),
{
    let b = keystore_image(keystore);
    assert(b.subrange(0, 4) =~= bytes::le_bytes(keystore.header.0));
    assert(b.subrange(4, 8) =~= bytes::le_bytes(keystore.puf_discharge_time_milliseconds));
    bytes::lemma_le_word_of_le_bytes(keystore.header.0);
    bytes::lemma_le_word_of_le_bytes(keystore.puf_discharge_time_milliseconds);
    assert(b.subrange(8, 1200) =~= keystore.activation_code@);
    assert(b.subrange(1200, 1256) =~= keystore.secure_boot_kek@);
    assert(b.subrange(1256, 1312) =~= keystore.firmware_update_kek@);
    assert(b.subrange(1312, 1368) =~= keystore.unique_device_secret@);
    assert(b.subrange(1368, 1424) =~= keystore.prince_region_0@);
    assert(b.subrange(1424, 1480) =~= keystore.prince_region_1@);
    assert(b.subrange(1480, 1536) =~= keystore.prince_region_2@);
}

/// Reading a keystore takes the header and the PUF discharge time as the
/// little-endian numbers their four bytes make.
pub proof fn lemma_keystore_read_values(b: Seq<u8>, keystore: Keystore)
    requires
        1536 <= b.len(),
        keystore_read_from(b, keystore),
    ensures
        keystore.header.0 as int == b[0] + b[1] * 256 + b[2] * 65536 + b[3] * 16777216,
        keystore.puf_discharge_time_milliseconds as int == b[4] + b[5] * 256 + b[6] * 65536 + b[7]
            * 16777216,
{
    bytes::lemma_word_at_value(b, 0);
    bytes::lemma_word_at_value(b, 4);
}

} // verus!
