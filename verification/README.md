# lpc55_pfr

Typed views of the protected flash regions of NXP LPC55 microcontrollers (the
customer field programmable area, the customer manufacturing area and the
keystore), the bit-field words they are made of, and the byte images the boot
ROM keeps them in, verified with Verus.

Layout:

- `src/bytes.rs`: little-endian words and byte-level reading and writing.
- `src/boot.rs`, `src/security.rs`, `src/debug.rs`: the configuration words
  (boot, USB, secure boot, TrustZone, PRINCE, root key states, debug
  policies) with their conversions and read-back laws.
- `src/customer.rs`: the traits for customer data and vendor usage, their raw
  forms, the page hash.
- `src/field.rs`, `src/factory.rs`, `src/keystore.rs`, `src/flash.rs`: the
  pages and areas, their images, their parsers and read-back laws.
- `src/digest.rs`: SHA-256 from the `sha2` crate (trusted).
- `src/text.rs`: debug renderings of byte fields and flags.
- `app/lib.rs`: serde-enabled copies of the types, converting to and from the
  library's types.
