//! The Internet checksums of RFC 1071, computed by pnet's packet utilities when a layer is
//! finalised.
use vstd::prelude::*;

verus! {

/// Sum of the first `n` big-endian 16-bit words of `data`, the word at index `skip` left out.
pub open spec fn words(data: Seq<u8>, n: nat, skip: int) -> nat
    decreases n,
{
    if n == 0 {
        0
    } else {
        words(data, (n - 1) as nat, skip) + if n - 1 == skip {
            0
        } else {
            (data[2 * (n - 1)] as nat) * 256 + data[2 * (n - 1) + 1] as nat
        }
    }
}

/// Sum of the big-endian 16-bit words of `data`, a last odd byte counting as the high half of
/// a word, the word at index `skip` left out.
pub open spec fn word_sum(data: Seq<u8>, skip: int) -> nat {
    let n = data.len() / 2;
    words(data, n, skip) + if data.len() % 2 == 1 && n != skip {
        (data[data.len() - 1] as nat) * 256
    } else {
        0
    }
}

/// One fold of the carries above 16 bits back into the low 16 bits.
pub open spec fn fold_once(s: nat) -> nat {
    s / 65536 + s % 65536
}

/// The ones'-complement of a sum below 2^32 with its carries folded in (two folds suffice).
pub open spec fn complement(s: nat) -> u16 {
    (65535 - fold_once(fold_once(s))) as u16
}

/// The Internet checksum of `data` with the word at index `skipword` counted as zero; 0 for
/// no data.
#[verifier::opaque]
pub open spec fn internet_checksum(data: Seq<u8>, skipword: usize) -> u16 {
    if data.len() == 0 {
        0
    } else {
        complement(word_sum(data, skipword as int))
    }
}

/// The transport checksum of `data` over the IPv4 pseudo-header of `src`, `dst`, the protocol
/// number and the length of `data`, the word at index `skipword` counted as zero.
#[verifier::opaque]
pub open spec fn ipv4_pseudo_checksum(
    data: Seq<u8>,
    skipword: usize,
    src: Seq<u8>,
    dst: Seq<u8>,
    proto: u8,
) -> u16 {
    complement(words(src, 2, -1) + words(dst, 2, -1) + proto as nat + data.len() + word_sum(data, skipword as int))
}

/// The transport checksum of `data` over the IPv6 pseudo-header of `src`, `dst`, the
/// next-header number and the length of `data`, the word at index `skipword` counted as zero.
#[verifier::opaque]
pub open spec fn ipv6_pseudo_checksum(
    data: Seq<u8>,
    skipword: usize,
    src: Seq<u8>,
    dst: Seq<u8>,
    proto: u8,
) -> u16 {
    complement(words(src, 8, -1) + words(dst, 8, -1) + proto as nat + data.len() + word_sum(data, skipword as int))
}

/// Relies on `pnet::packet::util::checksum`: sums the 16-bit words of `data` but the one at
/// `skipword` (an odd last byte as a high half), folds the carries and complements; 0 for no
/// data. Its running sum is a `u32`, so the length is bounded to keep it from overflowing.
#[verifier::external_body]
pub(crate) fn checksum(data: &[u8], skipword: usize) -> (r: u16)
    requires
        data@.len() <= 65535,
    ensures
        r == internet_checksum(data@, skipword),
{
    pnet::packet::util::checksum(data, skipword)
}

/// Relies on `pnet::packet::util::ipv4_checksum`: adds the words of both addresses, the
/// protocol number and the length of `data` to the word sum of `data`, then folds and
/// complements as above.
#[verifier::external_body]
pub(crate) fn ipv4_checksum(
    data: &[u8],
    skipword: usize,
    src: &[u8; 4],
    dst: &[u8; 4],
    proto: u8,
) -> (r: u16)
    requires
        data@.len() <= 65535,
    ensures
        r == ipv4_pseudo_checksum(data@, skipword, src@, dst@, proto),
{
    pnet::packet::util::ipv4_checksum(
        data,
        skipword,
        &[],
        &(*src).into(),
        &(*dst).into(),
        pnet::packet::ip::IpNextHeaderProtocol(proto),
    )
}

/// Relies on `pnet::packet::util::ipv6_checksum`: adds the eight words of each address, the
/// next-header number and the length of `data` to the word sum of `data`, then folds and
/// complements as above.
#[verifier::external_body]
pub(crate) fn ipv6_checksum(
    data: &[u8],
    skipword: usize,
    src: &[u8; 16],
    dst: &[u8; 16],
    proto: u8,
) -> (r: u16)
    requires
        data@.len() <= 65535,
    ensures
        r == ipv6_pseudo_checksum(data@, skipword, src@, dst@, proto),
{
    pnet::packet::util::ipv6_checksum(
        data,
        skipword,
        &[],
        &(*src).into(),
        &(*dst).into(),
        pnet::packet::ip::IpNextHeaderProtocol(proto),
    )
}

} // verus!
