use vstd::prelude::*;
use crate::addr::Ipv4Addr;
use crate::wire::{be16, push_all, push_be16, u16_at, zeroed_at};

verus! {

/// The `k`-th 16-bit word of `data`, the most significant byte first; a last odd byte counts
/// as the high byte of a word whose low byte is zero.
pub open spec fn word_at(data: Seq<u8>, k: int) -> nat {
    let hi = data[2 * k] as nat;
    let lo = if 2 * k + 1 < data.len() {
        data[2 * k + 1] as nat
    } else {
        0
    };
    hi * 256 + lo
}

/// The number of 16-bit words that `data` fills, the last perhaps only half.
pub open spec fn word_count(data: Seq<u8>) -> nat {
    ((data.len() + 1) / 2) as nat
}

/// The sum of the first `n` words of `data`.
pub open spec fn sum_words(data: Seq<u8>, n: nat) -> nat
    decreases n,
{
    if n == 0 {
        0
    } else {
        sum_words(data, (n - 1) as nat) + word_at(data, n - 1)
    }
}

/// `x` with every carry above 16 bits added back in at the bottom.
pub open spec fn fold(x: nat) -> nat
    decreases x,
{
    if x < 0x10000 {
        x
    } else {
        fold(x / 0x10000 + x % 0x10000)
    }
}

/// The one's-complement sum of the words of `data`: a number below `0x10000`.
pub open spec fn ones_sum(data: Seq<u8>) -> nat {
    fold(sum_words(data, word_count(data)))
}

/// The Internet checksum of `data`: the complement of the one's-complement sum of its words.
pub open spec fn internet_checksum(data: Seq<u8>) -> u16 {
    (0xffff - ones_sum(data)) as u16
}

/// The checksum of an ICMPv4 message: that of all its bytes, with the checksum field,
/// the two bytes at offset 2, taken as zero.
pub open spec fn icmp_checksum(message: Seq<u8>) -> u16 {
    internet_checksum(zeroed_at(message, 2))
}

/// The pseudo-header that precedes a UDP message of `length` bytes in its checksum.
pub open spec fn udp_pseudo_header(src: Ipv4Addr, dest: Ipv4Addr, length: u16) -> Seq<u8> {
    src.bytes() + dest.bytes() + seq![0u8, 17u8] + be16(length)
}

/// The checksum of a UDP message sent from `src` to `dest`: that of the pseudo-header followed
/// by the message, with the checksum field, the two bytes at offset 6, taken as zero.
pub open spec fn udp_checksum(message: Seq<u8>, src: Ipv4Addr, dest: Ipv4Addr) -> u16 {
    internet_checksum(
        udp_pseudo_header(src, dest, message.len() as u16) + zeroed_at(message, 6),
    )
}

/// Folding keeps a sum's remainder by `0xffff`, and gives zero only for zero.
pub proof fn lemma_fold_remainder(x: nat)
    ensures
        fold(x) % 0xffff == x % 0xffff,
        x > 0 ==> fold(x) > 0,
        fold(x) <= 0xffff,
    decreases x,
{
    if x >= 0x10000 {
        let q = x / 0x10000;
        let r = x % 0x10000;
        lemma_fold_remainder(q + r);
        assert(x == q * 0x10000 + r);
        assert((q * 0xffff + (q + r)) % 0xffff == (q + r) % 0xffff) by (nonlinear_arith);
    }
}

/// A sum made up by the complement of its folding folds to `0xffff`.
pub proof fn lemma_fold_with_complement(x: nat)
    ensures
        fold(x) <= 0xffff,
        fold((x + (0xffff - fold(x))) as nat) == 0xffff,
{
    lemma_fold_remainder(x);
    let y = (x + (0xffff - fold(x))) as nat;
    lemma_fold_remainder(y);
    let k = x / 0xffff;
    let f = fold(x) / 0xffff;
    assert(x == 0xffff * k + x % 0xffff);
    assert(fold(x) == 0xffff * f + fold(x) % 0xffff);
    assert(y == 0xffff * (k + 1 - f)) by (nonlinear_arith)
        requires
            y == x + 0xffff - fold(x),
            x == 0xffff * k + x % 0xffff,
            fold(x) == 0xffff * f + fold(x) % 0xffff,
            fold(x) % 0xffff == x % 0xffff,
    ;
    assert(y % 0xffff == 0) by (nonlinear_arith)
        requires
            y == 0xffff * (k + 1 - f),
    ;
    assert(y > 0);
}

/// The words of `data` add up to those of `data` with the two bytes at the even offset `at`
/// taken as zero, and the number that these two bytes spell.
pub proof fn lemma_sum_with_field(data: Seq<u8>, at: int, n: nat)
    requires
        0 <= at,
        at % 2 == 0,
        at + 1 < data.len(),
        n <= word_count(data),
    ensures
        sum_words(data, n) == sum_words(zeroed_at(data, at), n) + if at / 2 < n {
            u16_at(data, at) as nat
        } else {
            0
        },
    decreases n,
{
    if n > 0 {
        lemma_sum_with_field(data, at, (n - 1) as nat);
        let k = n - 1;
        if k == at / 2 {
            assert(word_at(zeroed_at(data, at), k) == 0);
            assert(word_at(data, k) == u16_at(data, at));
        } else {
            assert(word_at(zeroed_at(data, at), k) == word_at(data, k));
        }
    }
}

/// A message that carries its own checksum adds up: where the two bytes at the even offset
/// `at` hold the checksum of `data` taken with these bytes as zero, the one's-complement sum
/// of all of `data` is `0xffff`, which is how a receiver tests it.
pub proof fn lemma_checksum_verifies(data: Seq<u8>, at: int)
    requires
        0 <= at,
        at % 2 == 0,
        at + 1 < data.len(),
        u16_at(data, at) == internet_checksum(zeroed_at(data, at)),
    ensures
        ones_sum(data) == 0xffff,
{
    let zeroed = zeroed_at(data, at);
    let n = word_count(data);
    assert(word_count(zeroed) == n);
    lemma_sum_with_field(data, at, n);
    lemma_fold_with_complement(sum_words(zeroed, n));
}

/// Computes the Internet checksum of `data`.
pub fn checksum(data: &[u8]) -> (r: u16)
    ensures
        r == internet_checksum(data@),
{
    let n = data.len();
    let mut sum: u128 = 0;
    let mut i: usize = 0;
    while i + 1 < n
        invariant
            n == data@.len(),
            i <= n,
            i % 2 == 0,
            sum == sum_words(data@, (i / 2) as nat),
            sum <= (i / 2) * 0xffff,
        decreases n - i,
    {
        let hi: u128 = data[i] as u128;
        let lo: u128 = data[i + 1] as u128;
        assert(word_at(data@, (i / 2) as int) == hi * 256 + lo);
        assert(((i + 2) / 2) as nat - 1 == (i / 2) as nat);
        sum = sum + (hi * 256 + lo);
        i = i + 2;
    }
    if i < n {
        let hi: u128 = data[i] as u128;
        assert(word_at(data@, (i / 2) as int) == hi * 256);
        assert(word_count(data@) - 1 == (i / 2) as nat);
        sum = sum + hi * 256;
    }
    assert(sum == sum_words(data@, word_count(data@)));
    let ghost total = sum as nat;
    while sum >= 0x10000
        invariant
            fold(sum as nat) == fold(total),
        decreases sum,
    {
        sum = sum / 0x10000 + sum % 0x10000;
    }
    (0xffff - sum) as u16
}

/// Computes the Internet checksum of `data` with the two bytes at `at` taken as zero.
pub fn checksum_without_field(data: &[u8], at: usize) -> (r: u16)
    ensures
        r == internet_checksum(zeroed_at(data@, at as int)),
{
    let mut copy: Vec<u8> = Vec::new();
    push_all(&mut copy, data);
    if at < copy.len() {
        copy.set(at, 0);
        if at + 1 < copy.len() {
            copy.set(at + 1, 0);
        }
    }
    assert(copy@ =~= zeroed_at(data@, at as int));
    checksum(copy.as_slice())
}

/// Computes the checksum of an ICMPv4 message, whatever its checksum field holds.
pub fn icmp_ipv4_checksum(message: &[u8]) -> (r: u16)
    ensures
        r == icmp_checksum(message@),
{
    checksum_without_field(message, 2)
}

/// Computes the checksum of a UDP message sent from `src` to `dest`, whatever its checksum
/// field holds.
pub fn udp_ipv4_checksum(message: &[u8], src: Ipv4Addr, dest: Ipv4Addr) -> (r: u16)
    requires
        message@.len() <= 0xffff,
    ensures
        r == udp_checksum(message@, src, dest),
{
    let mut all: Vec<u8> = Vec::new();
    all.push(src.a);
    all.push(src.b);
    all.push(src.c);
    all.push(src.d);
    all.push(dest.a);
    all.push(dest.b);
    all.push(dest.c);
    all.push(dest.d);
    all.push(0);
    all.push(17);
    push_be16(&mut all, message.len() as u16);
    assert(all@ =~= udp_pseudo_header(src, dest, message@.len() as u16));
    push_all(&mut all, message);
    if all.len() > 18 {
        all.set(18, 0);
    }
    if all.len() > 19 {
        all.set(19, 0);
    }
    assert(all@ =~= udp_pseudo_header(src, dest, message@.len() as u16) + zeroed_at(
        message@,
        6,
    ));
    checksum(all.as_slice())
}

} // verus!
