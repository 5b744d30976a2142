use vstd::prelude::*;
use vstd::string::*;

use crate::release::{FetchError, ReleaseAsset};
use crate::text::same_text;

verus! {

/// The 32 bytes of the BLAKE3 hash of `data`.
pub uninterp spec fn blake3_digest(data: Seq<u8>) -> Seq<u8>;

/// Calls `blake3::hash` and returns the bytes of the hash. The hash depends on
/// `data` alone, so its bytes are named `blake3_digest(data)`; the BLAKE3 hash
/// is 32 bytes long, as the array type says.
#[verifier::external_body]
fn blake3_hash(data: &[u8]) -> (digest: [u8; 32])
    ensures
        digest@ == blake3_digest(data@),
{
    *blake3::hash(data).as_bytes()
}

/// The lowercase hexadecimal digit of `d`, for `d < 16`.
pub open spec fn hex_char(d: int) -> char {
    "0123456789abcdef"@[d]
}

/// Lowercase hexadecimal notation of `bytes`: two digits per byte, high half first.
pub open spec fn hex_lower(bytes: Seq<u8>) -> Seq<char>
    decreases bytes.len(),
{
    if bytes.len() == 0 {
        seq![]
    } else {
        seq![hex_char((bytes[0] / 16) as int), hex_char((bytes[0] % 16) as int)] + hex_lower(bytes.drop_first())
    }
}

fn push_hex_digit(out: &mut String, d: u8)
    requires
        d < 16,
    ensures
        final(out)@ == old(out)@.push(hex_char(d as int)),
{
    let table = "0123456789abcdef";
    proof {
        reveal_strlit("0123456789abcdef");
    }
    let digit = table.substring_char(d as usize, d as usize + 1);
    out.append(digit);
    assert(final(out)@ =~= old(out)@.push(hex_char(d as int)));
}

/// Whether `c` is a lowercase hexadecimal digit.
pub open spec fn is_lower_hex_digit(c: char) -> bool {
    "0123456789abcdef"@.contains(c)
}

/// The BLAKE3 hash of a file's contents, in lowercase hexadecimal: 64 digits.
pub fn file_blake3(contents: &[u8]) -> (r: String)
    ensures
        r@ == hex_lower(blake3_digest(contents@)),
        r@.len() == 64,
        forall|i: int| 0 <= i < r@.len() ==> is_lower_hex_digit(#[trigger] r@[i]),
{
    let digest = blake3_hash(contents);
    let ghost bytes = digest@;
    let mut out = String::new();
    let mut i: usize = 0;
    assert(bytes.skip(0) =~= bytes);
    while i < 32
        invariant
            bytes == digest@,
            bytes.len() == 32,
            i <= 32,
            hex_lower(bytes) == out@ + hex_lower(bytes.skip(i as int)),
            out@.len() == 2 * i,
            forall|j: int| 0 <= j < out@.len() ==> is_lower_hex_digit(#[trigger] out@[j]),
        decreases 32 - i,
    {
        let b = digest[i];
        let ghost before = out@;
        push_hex_digit(&mut out, b / 16);
        push_hex_digit(&mut out, b % 16);
        proof {
            let rest = bytes.skip(i as int);
            assert(rest[0] == b);
            assert(rest.drop_first() =~= bytes.skip(i + 1));
            assert(out@ =~= before + seq![hex_char((b / 16) as int), hex_char((b % 16) as int)]);
            assert(hex_lower(rest) == seq![hex_char((rest[0] / 16) as int), hex_char((rest[0] % 16) as int)]
                + hex_lower(rest.drop_first()));
            assert(before + hex_lower(rest) =~= out@ + hex_lower(bytes.skip(i + 1)));
            reveal_strlit("0123456789abcdef");
            assert(is_lower_hex_digit(hex_char((b / 16) as int)));
            assert(is_lower_hex_digit(hex_char((b % 16) as int)));
            assert forall|j: int| 0 <= j < out@.len() implies is_lower_hex_digit(#[trigger] out@[j]) by {
                if j < before.len() {
                    assert(out@[j] == before[j]);
                }
            }
        }
        i = i + 1;
    }
    assert(bytes.skip(32) =~= Seq::<u8>::empty());
    assert(out@ + hex_lower(Seq::<u8>::empty()) =~= out@);
    out
}

/// Whether a file of `size` bytes whose BLAKE3 hash reads `blake3_hex` is the
/// file that `asset` announces.
pub open spec fn asset_matches(asset: ReleaseAsset, size: u64, blake3_hex: Seq<char>) -> bool {
    size == asset.size && blake3_hex == asset.blake3@
}

/// Checks a file of `actual_size` bytes, whose BLAKE3 hash reads `actual_blake3`,
/// against the size and hash that `asset` announces; a mismatch reports the
/// asset's name and what the file has.
pub fn check_release_asset(asset: &ReleaseAsset, actual_size: u64, actual_blake3: &str) -> (r:
    Result<(), FetchError>)
    ensures
        r is Ok <==> asset_matches(*asset, actual_size, actual_blake3@),
        r is Ok <==> (actual_size == asset.size && actual_blake3@ == asset.blake3@),
        r matches Err(e) ==> e matches FetchError::AssetMismatch { name, size, blake3 } && name@
            == asset.name@ && size == actual_size && blake3@ == actual_blake3@,
{
    if actual_size != asset.size || !same_text(actual_blake3, asset.blake3.as_str()) {
        return Err(
            FetchError::AssetMismatch {
                name: asset.name.clone(),
                size: actual_size,
                blake3: actual_blake3.to_owned(),
            },
        );
    }
    Ok(())
}

/// Checks a file against `asset`, given its size as the file system reports it
/// and its contents.
pub fn verify_release_asset(asset: &ReleaseAsset, actual_size: u64, contents: &[u8]) -> (r: Result<
    (),
    FetchError,
>)
    ensures
        r is Ok <==> asset_matches(*asset, actual_size, hex_lower(blake3_digest(contents@))),
        r is Ok <==> (actual_size == asset.size && hex_lower(blake3_digest(contents@))
            == asset.blake3@),
        r matches Err(e) ==> e matches FetchError::AssetMismatch { name, size, blake3 } && name@
            == asset.name@ && size == actual_size && blake3@ == hex_lower(
            blake3_digest(contents@),
        ),
{
    let actual_blake3 = file_blake3(contents);
    check_release_asset(asset, actual_size, actual_blake3.as_str())
}

/// A file passes the check against an asset exactly when it has the asset's
/// size and its lowercase hexadecimal BLAKE3 hash is the asset's hash; a file
/// of any other size, or with any other hash, is refused.
pub proof fn lemma_asset_check_needs_size_and_hash(asset: ReleaseAsset, size: u64, blake3_hex: Seq<char>)
    ensures
        asset_matches(asset, size, blake3_hex) <==> (size == asset.size && blake3_hex == asset.blake3@),
        size != asset.size ==> !asset_matches(asset, size, blake3_hex),
{
}

} // verus!
