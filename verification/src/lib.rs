//! Block-cipher building blocks and the small byte-level tools around them:
//! AES with its key schedule, ECB and CBC chaining and PKCS#7 padding, hex and
//! base64 codecs, and XOR helpers. Every executable function carries a
//! contract that Verus proves.
pub mod aes;
pub mod common;
pub mod hex;
pub mod naivebase64;
pub mod set1;
pub mod xor;
