//! The AES block cipher for keys of 128, 192 and 256 bits, with ECB and CBC
//! chaining and PKCS#7 padding.
use vstd::prelude::*;
use cipher::AesCipher;
use modes::{CbcMode, EcbMode};
use padding::PKCS7Padding;

pub mod cipher;
pub mod modes;
pub mod padding;
pub mod sbox;
pub mod tables;
pub mod utils;

pub use modes::Modes;

verus! {

/// AES-128 in ECB mode with PKCS#7 padding.
pub type Aes128 = EcbMode<AesCipher<128>, 16, PKCS7Padding>;

/// AES-192 in ECB mode with PKCS#7 padding.
pub type Aes192 = EcbMode<AesCipher<192>, 16, PKCS7Padding>;

/// AES-256 in ECB mode with PKCS#7 padding.
pub type Aes256 = EcbMode<AesCipher<256>, 16, PKCS7Padding>;

/// AES-128 in CBC mode with PKCS#7 padding.
pub type Aes128CBC = CbcMode<AesCipher<128>, 16, PKCS7Padding>;

/// AES-192 in CBC mode with PKCS#7 padding.
pub type Aes192CBC = CbcMode<AesCipher<192>, 16, PKCS7Padding>;

/// AES-256 in CBC mode with PKCS#7 padding.
pub type Aes256CBC = CbcMode<AesCipher<256>, 16, PKCS7Padding>;

} // verus!
