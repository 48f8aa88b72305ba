use crate::error::ErrorCode;
use crate::hashing::{keccak256, keccak256_digest};
use crate::pubkey::{base58_encoding, serialize, Pubkey};
use std::string::String;
use std::vec::Vec;
use vstd::prelude::*;
use vstd::slice::slice_subrange;
use vstd::string::StringExecFns;

verus! {

/// The tag in front of an encoded record, which tells its type.
pub const STATE_DISCRIMINATOR: [u8; 8] = [216, 146, 107, 94, 104, 75, 182, 177];

/// Length of the tag.
pub const DISCRIMINATOR_SIZE: usize = 8;

/// Length of an encoded record without its tag.
pub const STATE_SIZE: usize = 64;

/// A record: its identifier and the key of its owner.
#[derive(Clone, Copy, Debug)]
pub struct State {
    pub asset_id: Pubkey,
    pub owner: Pubkey,
}

/// What a record holds, as byte strings.
pub ghost struct StateView {
    pub asset_id: Seq<u8>,
    pub owner: Seq<u8>,
}

impl View for State {
    type V = StateView;

    open spec fn view(&self) -> StateView {
        StateView { asset_id: self.asset_id@, owner: self.owner@ }
    }
}

/// The canonical encoding of a record: the identifier, then the owner.
pub open spec fn state_encoding(state: StateView) -> Seq<u8> {
    state.asset_id + state.owner
}

/// The record that 64 bytes encode.
pub open spec fn state_decoding(bytes: Seq<u8>) -> Option<StateView> {
    if bytes.len() == STATE_SIZE {
        Some(StateView { asset_id: bytes.subrange(0, 32), owner: bytes.subrange(32, 64) })
    } else {
        None
    }
}

/// The tagged encoding of a record, as events carry it.
pub open spec fn state_payload(state: StateView) -> Seq<u8> {
    STATE_DISCRIMINATOR@ + state_encoding(state)
}

/// The leaf that stands for a record in the tree: the digest of its tagged
/// encoding.
pub open spec fn state_leaf(state: StateView) -> Seq<u8> {
    keccak256_digest(state_payload(state))
}

/// Whether a blob begins with the tag of a record.
pub open spec fn is_tagged_state(data: Seq<u8>) -> bool {
    data.len() >= DISCRIMINATOR_SIZE && data.subrange(0, DISCRIMINATOR_SIZE as int)
        == STATE_DISCRIMINATOR@
}

/// The text of a JSON string that spells `text`.
pub uninterp spec fn json_string_literal(text: Seq<char>) -> Seq<char>;

/// Calls `serde_json::to_string` on a string slice, which gives the slice as a
/// quoted and escaped JSON string and does not fail on one.
#[verifier::external_body]
fn json_quoted(text: &str) -> (quoted: String)
    ensures
        quoted@ == json_string_literal(text@),
{
    match serde_json::to_string(text) {
        Ok(quoted) => quoted,
        Err(_) => String::new(),
    }
}

/// The JSON object that shows a record, each key in Base58.
pub open spec fn state_json(state: StateView) -> Seq<char> {
    "{\"asset_id\":"@ + json_string_literal(base58_encoding(state.asset_id)) + ",\"owner\":"@
        + json_string_literal(base58_encoding(state.owner)) + "}"@
}

/// What a query of a blob answers: the JSON of the record that it holds, the
/// empty text where it is not tagged as a record, and an error where it is
/// tagged as one and holds none.
pub open spec fn asset_data_text(data: Seq<u8>) -> Result<Seq<char>, ErrorCode> {
    if is_tagged_state(data) {
        match state_decoding(data.subrange(DISCRIMINATOR_SIZE as int, data.len() as int)) {
            Some(state) => Ok(state_json(state)),
            None => Err(ErrorCode::DecodeError),
        }
    } else {
        Ok(Seq::<char>::empty())
    }
}

/// What `answer` holds, with a text taken by its view.
pub open spec fn text_result_view(answer: Result<String, ErrorCode>) -> Result<
    Seq<char>,
    ErrorCode,
> {
    match answer {
        Ok(text) => Ok(text@),
        Err(e) => Err(e),
    }
}

impl State {
    /// Encodes the record without its tag.
    pub fn to_bytes(&self) -> (bytes: Vec<u8>)
        ensures
            bytes@ == state_encoding(self@),
    {
        let mut bytes: Vec<u8> = Vec::new();
        append_bytes(&mut bytes, self.asset_id.0.as_slice());
        append_bytes(&mut bytes, self.owner.0.as_slice());
        bytes
    }

    /// Decodes a record from its encoding without the tag.
    pub fn from_bytes(bytes: &[u8]) -> (r: Result<State, ErrorCode>)
        ensures
            match r {
                Ok(state) => state_decoding(bytes@) == Some(state@),
                Err(e) => e == ErrorCode::DecodeError && state_decoding(bytes@) is None,
            },
    {
        if bytes.len() != STATE_SIZE {
            return Err(ErrorCode::DecodeError);
        }
        let asset_id = match Pubkey::from_bytes(slice_subrange(bytes, 0, 32)) {
            Ok(key) => key,
            Err(_) => {
                return Err(ErrorCode::DecodeError);
            },
        };
        let owner = match Pubkey::from_bytes(slice_subrange(bytes, 32, 64)) {
            Ok(key) => key,
            Err(_) => {
                return Err(ErrorCode::DecodeError);
            },
        };
        Ok(State { asset_id, owner })
    }

    /// Shows the record as a JSON object.
    pub fn to_json(&self) -> (text: String)
        ensures
            text@ == state_json(self@),
    {
        let asset_id = json_quoted(serialize(&self.asset_id).as_str());
        let owner = json_quoted(serialize(&self.owner).as_str());
        let mut text = String::from_str("{\"asset_id\":");
        text.append(asset_id.as_str());
        text.append(",\"owner\":");
        text.append(owner.as_str());
        text.append("}");
        text
    }
}

/// Appends the bytes of `tail` to `bytes`.
pub fn append_bytes(bytes: &mut Vec<u8>, tail: &[u8])
    ensures
        final(bytes)@ == old(bytes)@ + tail@,
{
    let mut i: usize = 0;
    while i < tail.len()
        invariant
            i <= tail@.len(),
            bytes@ == old(bytes)@ + tail@.subrange(0, i as int),
        decreases tail@.len() - i,
    {
        bytes.push(tail[i]);
        i += 1;
        assert(bytes@ =~= old(bytes)@ + tail@.subrange(0, i as int));
    }
    assert(tail@.subrange(0, tail@.len() as int) =~= tail@);
}

/// Encodes a record with its tag in front, so that records of other types can
/// share the tree later.
pub fn emittable_bytes(state: &State) -> (r: Result<Vec<u8>, ErrorCode>)
    ensures
        r is Ok,
        r.unwrap()@ == state_payload(state@),
{
    let mut bytes: Vec<u8> = Vec::new();
    append_bytes(&mut bytes, STATE_DISCRIMINATOR.as_slice());
    let state_bytes = state.to_bytes();
    append_bytes(&mut bytes, state_bytes.as_slice());
    Ok(bytes)
}

/// Computes the leaf that stands for a record in the tree.
pub fn hash_state(state: &State) -> (r: Result<[u8; 32], ErrorCode>)
    ensures
        r is Ok,
        r.unwrap()@ == state_leaf(state@),
{
    match emittable_bytes(state) {
        Ok(payload) => Ok(keccak256(payload.as_slice())),
        Err(e) => Err(e),
    }
}

/// Tells whether a blob begins with the tag of a record.
pub fn has_state_discriminator(data: &[u8]) -> (tagged: bool)
    ensures
        tagged == is_tagged_state(data@),
{
    if data.len() < DISCRIMINATOR_SIZE {
        return false;
    }
    let mut i: usize = 0;
    while i < DISCRIMINATOR_SIZE
        invariant
            i <= DISCRIMINATOR_SIZE,
            data@.len() >= DISCRIMINATOR_SIZE,
            forall|k: int| 0 <= k < i ==> data@[k] == STATE_DISCRIMINATOR@[k],
        decreases DISCRIMINATOR_SIZE - i,
    {
        if data[i] != STATE_DISCRIMINATOR[i] {
            assert(data@.subrange(0, DISCRIMINATOR_SIZE as int)[i as int] == data@[i as int]);
            return false;
        }
        i += 1;
    }
    assert(data@.subrange(0, DISCRIMINATOR_SIZE as int) =~= STATE_DISCRIMINATOR@);
    true
}

/// Answers a query of a tagged blob: the JSON of the record in it, or the
/// empty text where the blob is of another type.
pub fn get_asset_data(data: &[u8]) -> (r: Result<String, ErrorCode>)
    ensures
        text_result_view(r) == asset_data_text(data@),
{
    if has_state_discriminator(data) {
        match State::from_bytes(slice_subrange(data, DISCRIMINATOR_SIZE, data.len())) {
            Ok(state) => Ok(state.to_json()),
            Err(e) => Err(e),
        }
    } else {
        Ok(String::new())
    }
}

/// Two answers to a query of the same blob are the same answer.
pub proof fn lemma_query_is_idempotent(
    data: Seq<u8>,
    first: Result<String, ErrorCode>,
    second: Result<String, ErrorCode>,
)
    requires
        text_result_view(first) == asset_data_text(data),
        text_result_view(second) == asset_data_text(data),
    ensures
        text_result_view(first) == text_result_view(second),
{
}

/// A tagged encoding holds the record it was made of: the record decodes from
/// its encoding, and a query of its tagged encoding shows it.
pub proof fn lemma_encoding_round_trips(state: StateView)
    requires
        state.asset_id.len() == 32,
        state.owner.len() == 32,
    ensures
        state_encoding(state).len() == STATE_SIZE,
        state_decoding(state_encoding(state)) == Some(state),
        is_tagged_state(state_payload(state)),
        asset_data_text(state_payload(state)) == Ok::<Seq<char>, ErrorCode>(state_json(state)),
{
    let encoding = state_encoding(state);
    let payload = state_payload(state);
    assert(encoding.subrange(0, 32) =~= state.asset_id);
    assert(encoding.subrange(32, 64) =~= state.owner);
    assert(payload.subrange(0, DISCRIMINATOR_SIZE as int) =~= STATE_DISCRIMINATOR@);
    assert(payload.subrange(DISCRIMINATOR_SIZE as int, payload.len() as int) =~= encoding);
}

} // verus!
