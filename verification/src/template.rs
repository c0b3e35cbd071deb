//! The template of the key that a box creates inside the device.

use vstd::prelude::*;

verus! {

/// Hash algorithm by which the device computes the name of an object.
#[derive(Clone, Copy, Debug, PartialEq, Eq)]
pub enum HashAlgorithm {
    Sha1,
    Sha256,
    Sha384,
    Sha512,
}

/// Size of an AES key.
#[derive(Clone, Copy, Debug, PartialEq, Eq)]
pub enum AesKeyBits {
    Aes128,
    Aes192,
    Aes256,
}

/// Mode of operation of a block cipher.
#[derive(Clone, Copy, Debug, PartialEq, Eq)]
pub enum CipherMode {
    Ctr,
    Ofb,
    Cbc,
    Cfb,
    Ecb,
}

/// The attributes of a key object that a box decides on. Every attribute
/// that is not listed here stays clear.
#[derive(Clone, Copy, Debug, PartialEq, Eq)]
pub struct KeyAttributes {
    /// The key cannot be duplicated to another device.
    pub fixed_tpm: bool,
    /// The key cannot be moved to another parent.
    pub fixed_parent: bool,
    /// The device itself generated the key material.
    pub sensitive_data_origin: bool,
    /// The holder of the authorization value may use the key.
    pub user_with_auth: bool,
    /// The key may decrypt.
    pub decrypt: bool,
    /// The key may encrypt.
    pub sign_encrypt: bool,
    /// The key may only be used on data that the device itself structured.
    pub restricted: bool,
}

/// Template of an AES key object.
#[derive(Debug, PartialEq, Eq)]
pub struct KeyTemplate {
    pub attributes: KeyAttributes,
    pub name_hash: HashAlgorithm,
    pub key_bits: AesKeyBits,
    pub mode: CipherMode,
    /// The unique identifier of the object. It is empty for a key that the
    /// device generates.
    pub unique: Vec<u8>,
}

/// Mathematical value of a [`KeyTemplate`].
pub struct KeyTemplateView {
    pub attributes: KeyAttributes,
    pub name_hash: HashAlgorithm,
    pub key_bits: AesKeyBits,
    pub mode: CipherMode,
    pub unique: Seq<u8>,
}

impl View for KeyTemplate {
    type V = KeyTemplateView;

    open spec fn view(&self) -> KeyTemplateView {
        KeyTemplateView {
            attributes: self.attributes,
            name_hash: self.name_hash,
            key_bits: self.key_bits,
            mode: self.mode,
            unique: self.unique@,
        }
    }
}

impl KeyTemplateView {
    /// The template of a box's key: an AES-256 key for CFB mode that the
    /// device generates and that never leaves it, open to whoever presents
    /// its authorization value, for both directions, and unrestricted.
    pub open spec fn symmetric() -> KeyTemplateView {
        KeyTemplateView {
            attributes: KeyAttributes {
                fixed_tpm: true,
                fixed_parent: true,
                sensitive_data_origin: true,
                user_with_auth: true,
                decrypt: true,
                sign_encrypt: true,
                restricted: false,
            },
            name_hash: HashAlgorithm::Sha256,
            key_bits: AesKeyBits::Aes256,
            mode: CipherMode::Cfb,
            unique: Seq::empty(),
        }
    }
}

impl KeyTemplate {
    /// Builds the template of a box's key.
    pub fn symmetric() -> (template: KeyTemplate)
        ensures
            template@ == KeyTemplateView::symmetric(),
    {
        KeyTemplate {
            attributes: KeyAttributes {
                fixed_tpm: true,
                fixed_parent: true,
                sensitive_data_origin: true,
                user_with_auth: true,
                decrypt: true,
                sign_encrypt: true,
                restricted: false,
            },
            name_hash: HashAlgorithm::Sha256,
            key_bits: AesKeyBits::Aes256,
            mode: CipherMode::Cfb,
            unique: Vec::new(),
        }
    }
}

} // verus!
