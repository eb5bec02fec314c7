//! The whole protected flash region: field area, factory area and keystore.
use crate::factory::{self, FactoryArea};
use crate::field::{self, FieldArea};
use crate::keystore::{self, Keystore};
use vstd::prelude::*;
use vstd::slice::slice_subrange;

verus! {

/// The protected flash region: three field area pages, the factory area page
/// and three keystore pages, 3584 bytes in all.
#[derive(Clone, Copy, Debug, PartialEq, Eq, Hash, PartialOrd, Ord)]
pub struct ProtectedFlash {
    pub field: FieldArea,
    pub factory: FactoryArea,
    pub keystore: Keystore,
}

/// This is incorrect. There's more in the NMPA spreadsheet section!
#[derive(Clone, Copy, Debug, PartialEq, Eq, Hash, PartialOrd, Ord)]
pub struct NxpArea {
    uuid: u128,
}

/// The protected flash region that `b` holds at its start: the field area in its
/// first three pages, the factory area in the fourth, the keystore in the last
/// three.
pub open spec fn protected_flash_read_from(b: Seq<u8>, pfr: ProtectedFlash) -> bool {
    &&& field::field_area_read_from(b.subrange(0, 1536), pfr.field)
    &&& factory::factory_area_read_from(b.subrange(1536, 2048), pfr.factory)
    &&& keystore::keystore_read_from(b.subrange(2048, 3584), pfr.keystore)
}

impl ProtectedFlash {
    /// Reads the protected flash region from the first 3584 bytes of `input`, which
    /// must hold it with zero SPI flash and SDIO configuration words in the factory
    /// area.
    pub fn try_from(input: &[u8]) -> (r: Result<Self, ()>)
        requires
            7 * 512 <= input@.len(),
            factory::factory_reserved_words_clear(input@.subrange(1536, 2048)),
        ensures
            match r {
                Ok(pfr) => protected_flash_read_from(input@, pfr),
                Err(_) => false,
            },
    {
        let field = FieldArea::try_from(slice_subrange(input, 0, 3 * 512)).unwrap();
        let factory = FactoryArea::try_from(slice_subrange(input, 3 * 512, 4 * 512)).unwrap();
        let keystore = Keystore::try_from(slice_subrange(input, 4 * 512, 7 * 512)).unwrap();

        let pfr = ProtectedFlash { field, factory, keystore };

        Ok(pfr)
    }
}

} // verus!
