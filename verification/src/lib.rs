//! A signing and verification library with two schemes behind one interface:
//! a keyed-hash (symmetric) scheme and an ed25519 (asymmetric) scheme, with
//! base64 text transport for signatures and key generation for both schemes.

pub mod codec;
pub mod ed25519;
pub mod error;
pub mod keyed_hash;
pub mod password;
pub mod options;
pub mod text_sign;

pub use codec::{decode_base64, encode_base64, Base64DecodeError, Base64FormatType};
pub use options::{
    parse_csv_format_value, parse_text_sign_format, verify_base64_format, Base64DecodeOptions,
    Base64EncodeOptions, Base64SubCommand, Cli, CsvFormatType, CsvOptions, GenPassOptions,
    HttpServeOption, HttpSubCommand, RCliCommand, TextGenerateOption, TextSignOption,
    TextSubCommand, TextVerifyOption,
};
pub use ed25519::{Ed25519Signer, Ed25519Verifier};
pub use error::SignError;
pub use keyed_hash::Blake3;
pub use password::gen_pass;
pub use text_sign::{
    generate_key, sign_text, verify_text, KeyGenerator, KeyLoader, TextSign, TextSignFormatType,
    TextVerify,
};
