//! Instance identity: the validated instance secret, the key broker that
//! binds a name to it, and the fixed development-mode fallbacks.

use vstd::prelude::*;
use crate::text::{decode_hex, hex_byte, hex_digit_value, is_hex_digit};
use vstd::string::StrSliceExecFns;

verus! {

/// Length, in hexadecimal characters, of a well-formed instance secret string.
pub const SECRET_HEX_LEN: usize = 64;

/// A secret string is valid when it consists of exactly 64 hexadecimal
/// digits (the encoding of 32 secret bytes).
pub open spec fn is_valid_secret(s: Seq<char>) -> bool {
    s.len() == 64 && (forall|i: int| 0 <= i < s.len() ==> is_hex_digit(#[trigger] s[i]))
}

/// Why a secret string failed validation.
#[derive(Clone, Copy, Debug, PartialEq, Eq, Structural)]
pub enum SecretError {
    /// The string is not exactly 64 characters long.
    WrongLength,
    /// The string contains a character that is not a hexadecimal digit.
    NotHex,
}

/// An error produced while deriving the runtime configuration.
#[derive(Clone, Copy, Debug, PartialEq, Eq, Structural)]
pub enum ConfigError {
    /// The instance secret string failed validation; carries the reason.
    InvalidSecret(SecretError),
}

/// The error that secret validation reports for an invalid string `s`.
pub open spec fn secret_error(s: Seq<char>) -> ConfigError {
    if s.len() != 64 {
        ConfigError::InvalidSecret(SecretError::WrongLength)
    } else {
        ConfigError::InvalidSecret(SecretError::NotHex)
    }
}

/// A validated instance secret: the 32 bytes decoded from a 64-digit
/// hexadecimal secret string.
pub struct InstanceSecret {
    bytes: Vec<u8>,
}

impl View for InstanceSecret {
    type V = Seq<u8>;

    closed spec fn view(&self) -> Seq<u8> {
        self.bytes@
    }
}

impl InstanceSecret {
    /// Parse a secret string: succeeds exactly on 64 hexadecimal digits and
    /// yields the 32 decoded bytes.
    pub fn try_from(s: &str) -> (r: Result<InstanceSecret, ConfigError>)
        ensures
            r is Ok <==> is_valid_secret(s@),
            r matches Ok(sec) ==> sec@ == decode_hex(s@) && sec@.len() == 32,
            r matches Err(e) ==> e == secret_error(s@),
    {
        let n = s.unicode_len();
        if n != SECRET_HEX_LEN {
            return Err(ConfigError::InvalidSecret(SecretError::WrongLength));
        }
        let mut bytes: Vec<u8> = Vec::new();
        let mut i: usize = 0;
        while i < 32
            invariant
                s@.len() == 64,
                0 <= i <= 32,
                bytes@.len() == i,
                forall|j: int| 0 <= j < 2 * i ==> is_hex_digit(#[trigger] s@[j]),
                forall|j: int| 0 <= j < i ==> bytes@[j] == hex_byte(s@[2 * j], s@[2 * j + 1]),
            decreases 32 - i,
        {
            let hi = s.get_char(2 * i);
            let lo = s.get_char(2 * i + 1);
            let hv = match hex_digit_value(hi) {
                Some(v) => v,
                None => {
                    proof {
                        assert(!is_hex_digit(s@[2 * i as int]));
                    }
                    return Err(ConfigError::InvalidSecret(SecretError::NotHex));
                },
            };
            let lv = match hex_digit_value(lo) {
                Some(v) => v,
                None => {
                    proof {
                        assert(!is_hex_digit(s@[2 * i as int + 1]));
                    }
                    return Err(ConfigError::InvalidSecret(SecretError::NotHex));
                },
            };
            let b: u8 = hv * 16 + lv;
            bytes.push(b);
            i = i + 1;
        }
        proof {
            assert(bytes@ =~= decode_hex(s@));
        }
        Ok(InstanceSecret { bytes })
    }

    /// The decoded secret bytes.
    pub fn bytes(&self) -> (r: &Vec<u8>)
        ensures
            r@ == self@,
    {
        &self.bytes
    }
}

/// The fixed development-mode instance name, as a character sequence.
pub open spec fn dev_instance_name_chars() -> Seq<char> {
    "carnitas"@
}

/// The fixed development-mode instance name.
pub fn dev_instance_name() -> (r: &'static str)
    ensures
        r@ == dev_instance_name_chars(),
{
    "carnitas"
}

/// The fixed development-mode secret string, as a character sequence.
pub open spec fn dev_secret_chars() -> Seq<char> {
    "4361726e697461732c206c69746572616c6c79206d65616e696e6720226c6974"@
}

/// The fixed development-mode secret string.
pub fn dev_secret() -> (r: &'static str)
    ensures
        r@ == dev_secret_chars(),
{
    "4361726e697461732c206c69746572616c6c79206d65616e696e6720226c6974"
}

/// Law: the development-mode secret string is itself a valid secret, so a
/// configuration that falls back to it always validates.
pub proof fn lemma_dev_secret_valid()
    ensures
        is_valid_secret(dev_secret_chars()),
{
    reveal_strlit("4361726e697461732c206c69746572616c6c79206d65616e696e6720226c6974");
}

/// The identity object: an instance name bound to its validated secret,
/// used by the rest of the system for authorization.
pub struct KeyBroker {
    pub name: String,
    pub secret: InstanceSecret,
}

impl KeyBroker {
    /// Bind an instance name to a validated secret.
    pub fn new(name: String, secret: InstanceSecret) -> (r: KeyBroker)
        ensures
            r.name == name,
            r.secret == secret,
    {
        KeyBroker { name, secret }
    }
}

} // verus!
