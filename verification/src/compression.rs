use anchor_lang::AnchorDeserialize;
use vstd::prelude::*;
use vstd::slice::slice_subrange;

verus! {

/// Size in bytes of the header that precedes the tree in a Merkle tree account.
pub const HEADER_SIZE: usize = 56;

/// Why the rightmost index could not be read from a buffer.
#[derive(Clone, Copy, Debug, PartialEq, Eq, Structural)]
pub enum LayoutError {
    /// The header region is incomplete, does not decode, or names a tree shape
    /// that the accumulator does not support.
    HeaderParseError,
    /// The buffer ends before the last byte of the rightmost index.
    MalformedLayout,
}

/// The two capacity parameters that a tree was initialised with.
#[derive(Clone, Copy, Debug, PartialEq, Eq, Structural)]
pub struct TreeHeader {
    pub max_depth: u32,
    pub max_buffer_size: u32,
}

/// The number that four bytes spell in little-endian order.
pub open spec fn u32_from_le(bytes: Seq<u8>) -> int
    recommends
        bytes.len() == 4,
{
    bytes[0] + 0x100 * bytes[1] + 0x1_0000 * bytes[2] + 0x100_0000 * bytes[3]
}

/// The four bytes that spell `value` in little-endian order.
pub open spec fn u32_to_le(value: u32) -> Seq<u8> {
    seq![
        (value % 0x100) as u8,
        (value / 0x100 % 0x100) as u8,
        (value / 0x1_0000 % 0x100) as u8,
        (value / 0x100_0000) as u8,
    ]
}

/// Bytes of one change log entry: a root, `max_depth` path nodes, an index and
/// its padding.
pub open spec fn changelog_size(max_depth: u32) -> int {
    32 + 32 * max_depth + 4 + 4
}

/// Offset of the rightmost path inside the tree: behind the three counters and
/// the change log.
pub open spec fn path_start(max_depth: u32, max_buffer_size: u32) -> int {
    8 + 8 + 8 + changelog_size(max_depth) * max_buffer_size
}

/// Offset of the rightmost index inside the tree: behind the proof nodes and
/// the leaf of the rightmost path.
pub open spec fn index_offset(max_depth: u32, max_buffer_size: u32) -> int {
    path_start(max_depth, max_buffer_size) + 32 * max_depth + 32
}

/// Bytes of a whole tree: the rightmost index and its padding end it.
pub open spec fn tree_size(max_depth: u32, max_buffer_size: u32) -> int {
    index_offset(max_depth, max_buffer_size) + 4 + 4
}

/// The pairs of depth and buffer size for which the accumulator has a tree.
pub open spec fn supported_tree_shape(max_depth: u32, max_buffer_size: u32) -> bool {
    let d = max_depth;
    let b = max_buffer_size;
    ||| (d == 3 || d == 5) && b == 8
    ||| (d == 14 || d == 20) && (b == 64 || b == 256 || b == 1024 || b == 2048)
    ||| 15 <= d <= 19 && b == 64
    ||| d == 24 && (b == 64 || b == 256 || b == 512 || b == 1024 || b == 2048)
    ||| (d == 26 || d == 30) && (b == 512 || b == 1024 || b == 2048)
}

/// What a header region decodes to: an account type (0 or 1), a version tag
/// (0), the buffer size and the depth, then authority, creation slot and
/// padding, which fill the rest of the 56 bytes.
pub open spec fn header_of(region: Seq<u8>) -> Option<TreeHeader> {
    if region.len() == HEADER_SIZE && region[0] <= 1 && region[1] == 0 {
        Some(
            TreeHeader {
                max_buffer_size: u32_from_le(region.subrange(2, 6)) as u32,
                max_depth: u32_from_le(region.subrange(6, 10)) as u32,
            },
        )
    } else {
        None
    }
}

/// The size of the tree that a header region announces, where it decodes and
/// names a supported shape.
pub open spec fn announced_tree_size(region: Seq<u8>) -> Option<usize> {
    match header_of(region) {
        Some(header) => if supported_tree_shape(header.max_depth, header.max_buffer_size) {
            Some(tree_size(header.max_depth, header.max_buffer_size) as usize)
        } else {
            None
        },
        None => None,
    }
}

/// The rightmost index stored in the bytes of a tree with the given
/// parameters.
pub open spec fn rightmost_index(tree: Seq<u8>, max_depth: u32, max_buffer_size: u32) -> Result<
    u32,
    LayoutError,
> {
    let at = index_offset(max_depth, max_buffer_size);
    if tree.len() < at + 4 {
        Err(LayoutError::MalformedLayout)
    } else {
        Ok(u32_from_le(tree.subrange(at, at + 4)) as u32)
    }
}

/// The rightmost index stored in the bytes of a Merkle tree account: a header,
/// the tree, and possibly a canopy behind it.
pub open spec fn account_rightmost_index(data: Seq<u8>) -> Result<u32, LayoutError> {
    if data.len() < HEADER_SIZE {
        Err(LayoutError::HeaderParseError)
    } else {
        match header_of(data.subrange(0, HEADER_SIZE as int)) {
            Some(header) => if supported_tree_shape(header.max_depth, header.max_buffer_size) {
                rightmost_index(
                    data.subrange(HEADER_SIZE as int, data.len() as int),
                    header.max_depth,
                    header.max_buffer_size,
                )
            } else {
                Err(LayoutError::HeaderParseError)
            },
            None => Err(LayoutError::HeaderParseError),
        }
    }
}

/// Decodes a header region with
/// `spl_account_compression::state::ConcurrentMerkleTreeHeader::try_from_slice`
/// and reads its two parameters with `get_max_depth` and `get_max_buffer_size`.
/// The decoder wants exactly the header's bytes, an account type of 0 or 1 and
/// the version tag 0; the two parameters are little-endian at offsets 2 and 6.
#[verifier::external_body]
fn parse_header(region: &[u8]) -> (header: Option<TreeHeader>)
    ensures
        header == header_of(region@),
{
    match spl_account_compression::state::ConcurrentMerkleTreeHeader::try_from_slice(region) {
        Ok(h) => Some(
            TreeHeader { max_depth: h.get_max_depth(), max_buffer_size: h.get_max_buffer_size() },
        ),
        Err(_) => None,
    }
}

/// Asks `spl_account_compression::state::merkle_tree_get_size` for the size of
/// the tree that a header region announces. It knows the supported shapes
/// only, and answers with the size of the tree's in-memory form, which has no
/// padding between its fields.
#[verifier::external_body]
fn merkle_tree_size(region: &[u8]) -> (size: Option<usize>)
    ensures
        size == announced_tree_size(region@),
{
    match spl_account_compression::state::ConcurrentMerkleTreeHeader::try_from_slice(region) {
        Ok(h) => spl_account_compression::state::merkle_tree_get_size(&h).ok(),
        Err(_) => None,
    }
}

/// The number that a field of exactly four bytes holds.
pub open spec fn u32_field(bytes: Seq<u8>) -> Result<u32, LayoutError> {
    if bytes.len() == 4 {
        Ok(u32_from_le(bytes) as u32)
    } else {
        Err(LayoutError::MalformedLayout)
    }
}

/// Reads a field of four bytes as a little-endian number.
pub fn read_u32_le(bytes: &[u8]) -> (r: Result<u32, LayoutError>)
    ensures
        r == u32_field(bytes@),
{
    if bytes.len() != 4 {
        return Err(LayoutError::MalformedLayout);
    }
    let b0: u32 = bytes[0] as u32;
    let b1: u32 = bytes[1] as u32;
    let b2: u32 = bytes[2] as u32;
    let b3: u32 = bytes[3] as u32;
    Ok(b0 + 0x100 * b1 + 0x1_0000 * b2 + 0x100_0000 * b3)
}

/// Reads the rightmost index from the bytes of a tree, whose parameters the
/// caller has from the header.
pub fn get_rightmost_proof_index(tree_bytes: &[u8], max_depth: u32, max_buffer_size: u32) -> (r:
    Result<u32, LayoutError>)
    ensures
        r == rightmost_index(tree_bytes@, max_depth, max_buffer_size),
{
    let changelog: u128 = 32 + 32 * (max_depth as u128) + 4 + 4;
    assert(changelog * (max_buffer_size as u128) <= 0x40_0000_0000 * 0x1_0000_0000)
        by (nonlinear_arith)
        requires
            changelog <= 0x40_0000_0000,
            max_buffer_size <= 0x1_0000_0000,
    ;
    let path: u128 = 8 + 8 + 8 + changelog * (max_buffer_size as u128);
    let index_start: u128 = path + 32 * (max_depth as u128) + 32;
    assert(index_start == index_offset(max_depth, max_buffer_size));
    if (tree_bytes.len() as u128) < index_start + 4 {
        return Err(LayoutError::MalformedLayout);
    }
    let at: usize = index_start as usize;
    let index_bytes = slice_subrange(tree_bytes, at, at + 4);
    read_u32_le(index_bytes)
}

/// Reads the rightmost index from the bytes of a Merkle tree account.
pub fn get_rightmost_proof_index_from_account(data: &[u8]) -> (r: Result<u32, LayoutError>)
    ensures
        r == account_rightmost_index(data@),
{
    if data.len() < HEADER_SIZE {
        return Err(LayoutError::HeaderParseError);
    }
    let header_bytes = slice_subrange(data, 0, HEADER_SIZE);
    let rest = slice_subrange(data, HEADER_SIZE, data.len());
    let header = match parse_header(header_bytes) {
        Some(header) => header,
        None => {
            return Err(LayoutError::HeaderParseError);
        },
    };
    let size = match merkle_tree_size(header_bytes) {
        Some(size) => size,
        None => {
            return Err(LayoutError::HeaderParseError);
        },
    };
    // What follows the tree is the canopy.
    let tree_len = if size <= rest.len() {
        size
    } else {
        rest.len()
    };
    let tree_bytes = slice_subrange(rest, 0, tree_len);
    proof {
        let at = index_offset(header.max_depth, header.max_buffer_size);
        lemma_supported_size_fits(header.max_depth, header.max_buffer_size);
        if rest@.len() >= at + 4 {
            assert(tree_bytes@.subrange(at, at + 4) =~= rest@.subrange(at, at + 4));
        }
    }
    get_rightmost_proof_index(tree_bytes, header.max_depth, header.max_buffer_size)
}

/// The tree of every supported shape has at most 2,049,024 bytes.
pub proof fn lemma_supported_size_fits(max_depth: u32, max_buffer_size: u32)
    requires
        supported_tree_shape(max_depth, max_buffer_size),
    ensures
        0 < tree_size(max_depth, max_buffer_size) <= 2_049_024,
{
    assert(changelog_size(max_depth) * max_buffer_size <= 1000 * 2048) by (nonlinear_arith)
        requires
            0 <= changelog_size(max_depth) <= 1000,
            max_buffer_size <= 2048,
    ;
    assert(0 <= changelog_size(max_depth) * max_buffer_size) by (nonlinear_arith)
        requires
            0 <= changelog_size(max_depth),
    ;
}

/// The bytes of `tree` with `index` written, little-endian, at the place of the
/// rightmost index.
pub open spec fn with_rightmost_index(
    tree: Seq<u8>,
    max_depth: u32,
    max_buffer_size: u32,
    index: u32,
) -> Seq<u8> {
    let at = index_offset(max_depth, max_buffer_size);
    tree.subrange(0, at) + u32_to_le(index) + tree.subrange(at + 4, tree.len() as int)
}

/// Four little-endian bytes spell the number they were made from.
pub proof fn lemma_le_round_trip(value: u32)
    ensures
        u32_to_le(value).len() == 4,
        u32_from_le(u32_to_le(value)) == value,
{
}

/// The offset of the rightmost index lies behind the three counters.
pub proof fn lemma_index_offset_positive(max_depth: u32, max_buffer_size: u32)
    ensures
        index_offset(max_depth, max_buffer_size) >= 56,
{
    assert(0 <= changelog_size(max_depth) * max_buffer_size) by (nonlinear_arith)
        requires
            0 <= changelog_size(max_depth),
    ;
}

/// An index written at its offset into a tree that has room for it is the
/// index that is read back, whatever the other bytes of the tree hold.
pub proof fn lemma_written_index_is_read(
    tree: Seq<u8>,
    max_depth: u32,
    max_buffer_size: u32,
    index: u32,
)
    requires
        tree.len() >= index_offset(max_depth, max_buffer_size) + 4,
    ensures
        with_rightmost_index(tree, max_depth, max_buffer_size, index).len() == tree.len(),
        rightmost_index(
            with_rightmost_index(tree, max_depth, max_buffer_size, index),
            max_depth,
            max_buffer_size,
        ) == Ok::<u32, LayoutError>(index),
{
    let at = index_offset(max_depth, max_buffer_size);
    let written = with_rightmost_index(tree, max_depth, max_buffer_size, index);
    lemma_index_offset_positive(max_depth, max_buffer_size);
    lemma_le_round_trip(index);
    assert(written.subrange(at, at + 4) =~= u32_to_le(index));
}

/// The same holds of a whole account: behind a header that decodes to a
/// supported shape, the index written into the tree is the index read.
pub proof fn lemma_written_index_is_read_from_account(
    header: Seq<u8>,
    tree: Seq<u8>,
    index: u32,
)
    requires
        announced_tree_size(header) is Some,
        tree.len() >= announced_tree_size(header).unwrap(),
    ensures
        ({
            let shape = header_of(header).unwrap();
            account_rightmost_index(
                header + with_rightmost_index(
                    tree,
                    shape.max_depth,
                    shape.max_buffer_size,
                    index,
                ),
            ) == Ok::<u32, LayoutError>(index)
        }),
{
    let shape = header_of(header).unwrap();
    let written = with_rightmost_index(tree, shape.max_depth, shape.max_buffer_size, index);
    let data = header + written;
    lemma_supported_size_fits(shape.max_depth, shape.max_buffer_size);
    lemma_written_index_is_read(tree, shape.max_depth, shape.max_buffer_size, index);
    assert(data.subrange(0, HEADER_SIZE as int) =~= header);
    assert(data.subrange(HEADER_SIZE as int, data.len() as int) =~= written);
}

} // verus!
