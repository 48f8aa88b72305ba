use std::string::String;
use std::vec::Vec;
use vstd::prelude::*;

verus! {

/// A 32-byte public key: the identifier of an account, a program or a record.
#[derive(Clone, Copy, Debug, Eq)]
pub struct Pubkey(pub [u8; 32]);

impl View for Pubkey {
    type V = Seq<u8>;

    open spec fn view(&self) -> Seq<u8> {
        self.0@
    }
}

impl PartialEq for Pubkey {
    fn eq(&self, other: &Self) -> (same: bool) {
        let mut i: usize = 0;
        while i < 32
            invariant
                i <= 32,
                forall|k: int| 0 <= k < i ==> self.0@[k] == other.0@[k],
            decreases 32 - i,
        {
            if self.0[i] != other.0[i] {
                return false;
            }
            i += 1;
        }
        assert(self.0@ =~= other.0@);
        true
    }
}

impl vstd::std_specs::cmp::PartialEqSpecImpl for Pubkey {
    open spec fn obeys_eq_spec() -> bool {
        true
    }

    open spec fn eq_spec(&self, other: &Self) -> bool {
        self@ == other@
    }
}

/// Why a text does not spell a public key.
#[derive(Clone, Copy, Debug, PartialEq, Eq, Structural)]
pub enum PubkeyTextError {
    /// The text is not Base58.
    InvalidBase58,
    /// The text is Base58 for some other number of bytes than 32.
    WrongLength,
}

/// The Base58 text of a byte string, in the Bitcoin alphabet.
pub uninterp spec fn base58_encoding(bytes: Seq<u8>) -> Seq<char>;

/// The bytes that a Base58 text stands for, where it stands for any.
pub uninterp spec fn base58_decoding(text: Seq<char>) -> Option<Seq<u8>>;

#[verifier::external_type_specification]
#[verifier::external_body]
pub struct ExBase58DecodeError(bs58::decode::Error);

/// Calls `bs58::encode` on the bytes and `into_string` on its builder, which
/// is left at the default alphabet. The text depends on the bytes alone.
#[verifier::external_body]
fn base58_text(bytes: &[u8]) -> (text: String)
    ensures
        text@ == base58_encoding(bytes@),
{
    bs58::encode(bytes).into_string()
}

/// Calls `bs58::decode` on the text and `into_vec` on its builder, which is
/// left at the default alphabet. Whether it decodes, and to which bytes,
/// depends on the text alone.
#[verifier::external_body]
fn base58_bytes(text: &str) -> (decoded: Result<Vec<u8>, bs58::decode::Error>)
    ensures
        match decoded {
            Ok(bytes) => base58_decoding(text@) == Some(bytes@),
            Err(_) => base58_decoding(text@) is None,
        },
{
    bs58::decode(text).into_vec()
}

/// The key that a byte string holds, where it holds 32 bytes.
pub open spec fn pubkey_of_bytes(bytes: Seq<u8>) -> Result<Seq<u8>, PubkeyTextError> {
    if bytes.len() == 32 {
        Ok(bytes)
    } else {
        Err(PubkeyTextError::WrongLength)
    }
}

/// The key that a text spells, where it spells one.
pub open spec fn pubkey_of_text(text: Seq<char>) -> Result<Seq<u8>, PubkeyTextError> {
    match base58_decoding(text) {
        Some(bytes) => pubkey_of_bytes(bytes),
        None => Err(PubkeyTextError::InvalidBase58),
    }
}

/// What `result` holds, with a key taken by its view.
pub open spec fn pubkey_result_view(result: Result<Pubkey, PubkeyTextError>) -> Result<
    Seq<u8>,
    PubkeyTextError,
> {
    match result {
        Ok(key) => Ok(key@),
        Err(e) => Err(e),
    }
}

impl Pubkey {
    /// The key made of exactly 32 bytes.
    pub fn from_bytes(bytes: &[u8]) -> (r: Result<Pubkey, PubkeyTextError>)
        ensures
            pubkey_result_view(r) == pubkey_of_bytes(bytes@),
    {
        if bytes.len() != 32 {
            return Err(PubkeyTextError::WrongLength);
        }
        let mut key: [u8; 32] = [0u8; 32];
        let mut i: usize = 0;
        while i < 32
            invariant
                i <= 32,
                bytes@.len() == 32,
                forall|k: int| 0 <= k < i ==> key@[k] == bytes@[k],
            decreases 32 - i,
        {
            key[i] = bytes[i];
            i += 1;
        }
        assert(key@ =~= bytes@);
        Ok(Pubkey(key))
    }
}

/// Writes a key as Base58 text.
pub fn serialize(value: &Pubkey) -> (text: String)
    ensures
        text@ == base58_encoding(value@),
{
    base58_text(value.0.as_slice())
}

/// Reads a key from Base58 text.
pub fn deserialize(text: &str) -> (r: Result<Pubkey, PubkeyTextError>)
    ensures
        pubkey_result_view(r) == pubkey_of_text(text@),
{
    match base58_bytes(text) {
        Ok(bytes) => Pubkey::from_bytes(bytes.as_slice()),
        Err(_) => Err(PubkeyTextError::InvalidBase58),
    }
}

} // verus!
