use crate::address::{derive_asset_id, derived_asset_id};
use crate::compression::{account_rightmost_index, get_rightmost_proof_index_from_account};
use crate::error::ErrorCode;
use crate::pubkey::Pubkey;
use crate::state::{emittable_bytes, hash_state, state_leaf, state_payload, State, StateView};
use std::vec::Vec;
use vstd::prelude::*;

verus! {

/// What a creation reads of its accounts: who signs, and the tree's key and
/// bytes.
#[derive(Debug)]
pub struct CreateNewState {
    pub owner: Pubkey,
    pub tree: Pubkey,
    pub tree_data: Vec<u8>,
}

/// What a replacement or a deletion reads of its accounts: who signs, and the
/// tree's bytes.
#[derive(Debug)]
pub struct ChangeState {
    pub owner: Pubkey,
    pub tree_data: Vec<u8>,
}

/// Tells observers that a record was created, and what it holds.
#[derive(Debug)]
pub struct CrudCreate {
    pub authority: Pubkey,
    pub asset_id: Pubkey,
    pub pubkeys: Vec<Pubkey>,
    pub data: Vec<u8>,
}

/// Tells observers what a record holds from now on.
#[derive(Debug)]
pub struct CrudUpdateBytes {
    pub asset_id: Pubkey,
    pub data: Vec<u8>,
}

/// Tells observers that a record is gone.
#[derive(Clone, Copy, Debug)]
pub struct CrudDelete {
    pub asset_id: Pubkey,
}

/// Asks the accumulator to append a leaf.
#[derive(Clone, Copy, Debug)]
pub struct Append {
    pub leaf: [u8; 32],
}

/// Asks the accumulator to put `new_leaf` in the place `index`, if under
/// `root` that place holds `previous_leaf`.
#[derive(Clone, Copy, Debug)]
pub struct ReplaceLeaf {
    pub root: [u8; 32],
    pub previous_leaf: [u8; 32],
    pub new_leaf: [u8; 32],
    pub index: u32,
}

/// The leaf of a place whose record was deleted.
pub open spec fn deleted_leaf() -> Seq<u8> {
    Seq::new(32, |i: int| 0u8)
}

/// The event and the request that a successful creation hands out.
pub open spec fn is_creation(
    event: CrudCreate,
    request: Append,
    owner: Seq<u8>,
    asset_id: Seq<u8>,
) -> bool {
    let state = StateView { asset_id, owner };
    &&& event.authority@ == owner
    &&& event.asset_id@ == asset_id
    &&& event.pubkeys@.len() == 0
    &&& event.data@ == state_payload(state)
    &&& request.leaf@ == state_leaf(state)
}

/// What a creation with the given accounts comes to.
pub open spec fn creation_outcome(
    ctx: CreateNewState,
    r: Result<(CrudCreate, Append), ErrorCode>,
) -> bool {
    match account_rightmost_index(ctx.tree_data@) {
        Err(e) => r matches Err(code) && code == ErrorCode::LayoutReadError(e),
        Ok(index) => match derived_asset_id(ctx.tree@, index) {
            None => r matches Err(code) && code == ErrorCode::AddressNotFound,
            Some(asset_id) => r matches Ok((event, request)) && is_creation(
                event,
                request,
                ctx.owner@,
                asset_id,
            ),
        },
    }
}

/// The error that refuses a deletion, if one does.
pub open spec fn deletion_refusal(caller: Seq<u8>, state: StateView) -> Option<ErrorCode> {
    if caller != state.owner {
        Some(ErrorCode::InvalidOwner)
    } else {
        None
    }
}

/// The event and the request that a successful deletion hands out.
pub open spec fn is_deletion(
    event: CrudDelete,
    request: ReplaceLeaf,
    state: StateView,
    root: Seq<u8>,
    leaf_index: u32,
) -> bool {
    &&& event.asset_id@ == state.asset_id
    &&& request.root@ == root
    &&& request.previous_leaf@ == state_leaf(state)
    &&& request.new_leaf@ == deleted_leaf()
    &&& request.index == leaf_index
}

/// The error that refuses a replacement, if one does: the owner is looked at
/// first, then the identifier, then the tree's account.
pub open spec fn replacement_refusal(
    caller: Seq<u8>,
    tree_data: Seq<u8>,
    new_state: StateView,
    old_state: StateView,
) -> Option<ErrorCode> {
    if caller != old_state.owner {
        Some(ErrorCode::InvalidOwner)
    } else if new_state.asset_id != old_state.asset_id {
        Some(ErrorCode::InvalidAssetId)
    } else {
        match account_rightmost_index(tree_data) {
            Err(e) => Some(ErrorCode::LayoutReadError(e)),
            Ok(_) => None,
        }
    }
}

/// The event and the request that a successful replacement hands out.
pub open spec fn is_replacement(
    event: CrudUpdateBytes,
    request: ReplaceLeaf,
    new_state: StateView,
    old_state: StateView,
    root: Seq<u8>,
    leaf_index: u32,
) -> bool {
    &&& event.asset_id@ == old_state.asset_id
    &&& event.data@ == state_payload(new_state)
    &&& request.root@ == root
    &&& request.previous_leaf@ == state_leaf(old_state)
    &&& request.new_leaf@ == state_leaf(new_state)
    &&& request.index == leaf_index
}

/// Builds the record that `owner` holds under the identifier `asset_id`, with
/// the event that announces it and the request that appends its leaf.
pub fn create_with_id(owner: Pubkey, asset_id: Pubkey) -> (r: Result<
    (CrudCreate, Append),
    ErrorCode,
>)
    ensures
        r matches Ok((event, request)) && is_creation(event, request, owner@, asset_id@),
{
    let new_state = State { asset_id, owner };
    let data = match emittable_bytes(&new_state) {
        Ok(data) => data,
        Err(e) => {
            return Err(e);
        },
    };
    let event = CrudCreate { authority: owner, asset_id, pubkeys: Vec::new(), data };
    let leaf = match hash_state(&new_state) {
        Ok(leaf) => leaf,
        Err(e) => {
            return Err(e);
        },
    };
    Ok((event, Append { leaf }))
}

/// Creates the record that takes the place `index` of the tree: its
/// identifier is derived from the tree's key and that place.
pub fn create_at_index(ctx: &CreateNewState, index: u32) -> (r: Result<
    (CrudCreate, Append),
    ErrorCode,
>)
    ensures
        match derived_asset_id(ctx.tree@, index) {
            None => r matches Err(code) && code == ErrorCode::AddressNotFound,
            Some(asset_id) => r matches Ok((event, request)) && is_creation(
                event,
                request,
                ctx.owner@,
                asset_id,
            ),
        },
{
    match derive_asset_id(&ctx.tree, index) {
        Some(asset_id) => create_with_id(ctx.owner, asset_id),
        None => Err(ErrorCode::AddressNotFound),
    }
}

/// Creates a record owned by the signer in the next free place of the tree.
/// The caller emits the event, then sends the request to the accumulator.
pub fn create_new_state(ctx: &CreateNewState) -> (r: Result<(CrudCreate, Append), ErrorCode>)
    ensures
        creation_outcome(*ctx, r),
{
    let rmp_index = match get_rightmost_proof_index_from_account(ctx.tree_data.as_slice()) {
        Ok(index) => index,
        Err(e) => {
            return Err(ErrorCode::LayoutReadError(e));
        },
    };
    create_at_index(ctx, rmp_index)
}

/// Deletes a record: its leaf gives way to the all-zero leaf. Only the owner
/// may do so. The caller emits the event, then sends the request to the
/// accumulator.
pub fn delete(ctx: &ChangeState, state: State, root: Pubkey, leaf_index: u32) -> (r: Result<
    (CrudDelete, ReplaceLeaf),
    ErrorCode,
>)
    ensures
        match deletion_refusal(ctx.owner@, state@) {
            Some(refusal) => r matches Err(code) && code == refusal,
            None => r matches Ok((event, request)) && is_deletion(
                event,
                request,
                state@,
                root@,
                leaf_index,
            ),
        },
{
    if ctx.owner != state.owner {
        return Err(ErrorCode::InvalidOwner);
    }
    let event = CrudDelete { asset_id: state.asset_id };
    let previous_leaf = match hash_state(&state) {
        Ok(leaf) => leaf,
        Err(e) => {
            return Err(e);
        },
    };
    let new_leaf: [u8; 32] = [0u8; 32];
    assert(new_leaf@ =~= deleted_leaf());
    Ok((event, ReplaceLeaf { root: root.0, previous_leaf, new_leaf, index: leaf_index }))
}

/// Replaces what a record holds: the leaf of the old record gives way to the
/// leaf of the new one. Only the owner may do so, and the identifier stays.
/// The caller emits the event, then sends the request to the accumulator.
pub fn replace(
    ctx: &ChangeState,
    new_state: State,
    old_state: State,
    root: Pubkey,
    leaf_index: u32,
) -> (r: Result<(CrudUpdateBytes, ReplaceLeaf), ErrorCode>)
    ensures
        match replacement_refusal(ctx.owner@, ctx.tree_data@, new_state@, old_state@) {
            Some(refusal) => r matches Err(code) && code == refusal,
            None => r matches Ok((event, request)) && is_replacement(
                event,
                request,
                new_state@,
                old_state@,
                root@,
                leaf_index,
            ),
        },
{
    if ctx.owner != old_state.owner {
        return Err(ErrorCode::InvalidOwner);
    }
    if new_state.asset_id != old_state.asset_id {
        return Err(ErrorCode::InvalidAssetId);
    }
    match get_rightmost_proof_index_from_account(ctx.tree_data.as_slice()) {
        Ok(_) => {},
        Err(e) => {
            return Err(ErrorCode::LayoutReadError(e));
        },
    }
    let data = match emittable_bytes(&new_state) {
        Ok(data) => data,
        Err(e) => {
            return Err(e);
        },
    };
    let event = CrudUpdateBytes { asset_id: old_state.asset_id, data };
    let new_leaf = match hash_state(&new_state) {
        Ok(leaf) => leaf,
        Err(e) => {
            return Err(e);
        },
    };
    let previous_leaf = match hash_state(&old_state) {
        Ok(leaf) => leaf,
        Err(e) => {
            return Err(e);
        },
    };
    Ok((event, ReplaceLeaf { root: root.0, previous_leaf, new_leaf, index: leaf_index }))
}

/// Whoever is not the owner of a record can neither replace nor delete it:
/// both are refused with `InvalidOwner`, whatever else holds, so no event and
/// no request comes out.
pub proof fn lemma_only_the_owner_changes(
    caller: Seq<u8>,
    tree_data: Seq<u8>,
    new_state: StateView,
    old_state: StateView,
)
    requires
        caller != old_state.owner,
    ensures
        replacement_refusal(caller, tree_data, new_state, old_state) == Some(
            ErrorCode::InvalidOwner,
        ),
        deletion_refusal(caller, old_state) == Some(ErrorCode::InvalidOwner),
{
}

/// The owner cannot give a record another identifier: such a replacement is
/// refused with `InvalidAssetId` before the tree is looked at, so no event and
/// no request comes out.
pub proof fn lemma_identifier_stays(
    caller: Seq<u8>,
    tree_data: Seq<u8>,
    new_state: StateView,
    old_state: StateView,
)
    requires
        caller == old_state.owner,
        new_state.asset_id != old_state.asset_id,
    ensures
        replacement_refusal(caller, tree_data, new_state, old_state) == Some(
            ErrorCode::InvalidAssetId,
        ),
{
}

} // verus!
