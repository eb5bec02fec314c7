//! What a user type may stand for in the field and factory areas (customer data
//! and vendor usage), their raw forms, and the SHA-256 hash that closes a page.
use crate::bytes::{self, write_at};
use crate::digest::{self, sha256_digest};
use vstd::prelude::*;

verus! {

/// Customer data as stored in a page.
pub trait CustomerDataBytes: Sized {
    /// The bytes this customer data is stored as.
    spec fn data_bytes(&self) -> Seq<u8>;

    /// The bytes this customer data is stored as.
    fn as_bytes(&self) -> (bytes: &[u8])
        ensures
            bytes@ == self.data_bytes(),
    ;

    /// The customer data stored as `bytes`.
    fn from_bytes(bytes: [u8; 224]) -> (data: Self)
        ensures
            data.data_bytes() == bytes@,
    ;
}

/// Customer data of a field area page.
pub trait FieldAreaCustomerData: CustomerDataBytes {

}

/// Customer data of the factory area.
pub trait FactoryAreaCustomerData: CustomerDataBytes {

}

/// Vendor usage as stored in a page: one word.
pub trait VendorUsageWord: Sized + Copy {
    /// The word this vendor usage is stored as.
    spec fn word(&self) -> u32;

    /// The word this vendor usage is stored as.
    fn to_word(&self) -> (word: u32)
        ensures
            word == self.word(),
    ;

    /// The vendor usage stored as `word`.
    fn from_word(word: u32) -> (usage: Self)
        ensures
            usage.word() == word,
    ;
}

/// Vendor usage of a field area page.
pub trait FieldAreaVendorUsage: VendorUsageWord {

}

/// Vendor usage of the factory area.
pub trait FactoryAreaVendorUsage: VendorUsageWord {

}

/// Customer data kept as its 224 bytes.
#[derive(Clone, Copy, Debug, PartialEq, Eq, Hash, PartialOrd, Ord)]
pub struct RawCustomerData([u8; 224]);

impl View for RawCustomerData {
    type V = Seq<u8>;

    closed spec fn view(&self) -> Seq<u8> {
        self.0@
    }
}

impl Default for RawCustomerData {
    fn default() -> (r: Self)
        ensures
            r@ == bytes::zeros(224),
    {
        let r = RawCustomerData([0u8; 224]);
        assert(r@ =~= bytes::zeros(224));
        r
    }
}

impl AsRef<[u8]> for RawCustomerData {
    fn as_ref(&self) -> (r: &[u8])
        ensures
            r@ == self@,
    {
        self.0.as_slice()
    }
}

/// The raw customer data holding `bytes`.
pub closed spec fn raw_customer_data_of(bytes: [u8; 224]) -> RawCustomerData {
    RawCustomerData(bytes)
}

impl From<[u8; 224]> for RawCustomerData {
    fn from(bytes: [u8; 224]) -> (r: Self)
        ensures
            r@ == bytes@,
    {
        RawCustomerData(bytes)
    }
}

impl vstd::std_specs::convert::FromSpecImpl<[u8; 224]> for RawCustomerData {
    open spec fn obeys_from_spec() -> bool {
        true
    }

    open spec fn from_spec(bytes: [u8; 224]) -> RawCustomerData {
        raw_customer_data_of(bytes)
    }
}

impl CustomerDataBytes for RawCustomerData {
    open spec fn data_bytes(&self) -> Seq<u8> {
        self@
    }

    fn as_bytes(&self) -> (bytes: &[u8]) {
        self.0.as_slice()
    }

    fn from_bytes(bytes: [u8; 224]) -> (data: Self) {
        RawCustomerData(bytes)
    }
}

impl FieldAreaCustomerData for RawCustomerData {

}

impl FactoryAreaCustomerData for RawCustomerData {

}

/// Raw customer data is always 224 bytes long.
pub proof fn lemma_raw_customer_data_len(data: RawCustomerData)
    ensures
        data@.len() == 224,
{
}

/// Vendor usage kept as its word.
#[derive(Clone, Copy, Debug, Default, PartialEq, Eq, Hash, PartialOrd, Ord)]
pub struct RawVendorUsage(u32);

impl View for RawVendorUsage {
    type V = u32;

    closed spec fn view(&self) -> u32 {
        self.0
    }
}

impl From<RawVendorUsage> for u32 {
    fn from(usage: RawVendorUsage) -> (r: u32) {
        usage.0
    }
}

impl vstd::std_specs::convert::FromSpecImpl<RawVendorUsage> for u32 {
    open spec fn obeys_from_spec() -> bool {
        true
    }

    open spec fn from_spec(usage: RawVendorUsage) -> u32 {
        usage@
    }
}

/// The raw vendor usage holding `word`.
pub closed spec fn raw_vendor_usage_of(word: u32) -> RawVendorUsage {
    RawVendorUsage(word)
}

impl From<u32> for RawVendorUsage {
    fn from(word: u32) -> (r: Self)
        ensures
            r@ == word,
    {
        RawVendorUsage(word)
    }
}

impl vstd::std_specs::convert::FromSpecImpl<u32> for RawVendorUsage {
    open spec fn obeys_from_spec() -> bool {
        true
    }

    open spec fn from_spec(word: u32) -> RawVendorUsage {
        raw_vendor_usage_of(word)
    }
}

impl VendorUsageWord for RawVendorUsage {
    open spec fn word(&self) -> u32 {
        self@
    }

    fn to_word(&self) -> (word: u32) {
        self.0
    }

    fn from_word(word: u32) -> (usage: Self) {
        RawVendorUsage(word)
    }
}

impl FieldAreaVendorUsage for RawVendorUsage {

}

impl FactoryAreaVendorUsage for RawVendorUsage {

}

/// Raw customer data with the same bytes is the same data.
pub proof fn lemma_raw_customer_data_view_eq(a: RawCustomerData, b: RawCustomerData)
    requires
        a@ == b@,
    ensures
        a == b,
{
    assert(a.0 =~= b.0);
}

/// Raw vendor usages with the same word are the same usage.
pub proof fn lemma_raw_vendor_usage_view_eq(a: RawVendorUsage, b: RawVendorUsage)
    requires
        a@ == b@,
    ensures
        a == b,
{
}

/// A SHA-256 hash.
#[derive(Clone, Copy, Debug, Default, PartialEq, Eq, Hash, PartialOrd, Ord)]
pub struct Sha256Hash(pub [u8; 32]);

impl AsRef<[u8]> for Sha256Hash {
    fn as_ref(&self) -> (r: &[u8])
        ensures
            r@ == self.0@,
    {
        self.0.as_slice()
    }
}

/// Puts the 480-byte `body` of a page at its start and the SHA-256 hash of the
/// body after it, filling the page, and gives that hash.
pub fn fill_returning_hash(buf: &mut [u8; 512], body: &[u8]) -> (hash: Sha256Hash)
    requires
        body@.len() == 480,
    ensures
        hash.0@ == digest::sha256(body@),
        final(buf)@ == body@ + hash.0@,
{
    write_at(buf, 0, body);
    let digest = sha256_digest(body);
    write_at(buf, 480, digest.as_slice());
    assert(buf@ =~= body@ + digest@);
    Sha256Hash(digest)
}

} // verus!
