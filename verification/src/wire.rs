use vstd::prelude::*;

verus! {

/// The two bytes of `v`, the most significant first.
pub open spec fn be16(v: u16) -> Seq<u8> {
    seq![(v / 256) as u8, (v % 256) as u8]
}

/// The number that the two bytes of `s` at `i` spell, the most significant first.
pub open spec fn u16_at(s: Seq<u8>, i: int) -> u16 {
    (s[i] as int * 256 + s[i + 1] as int) as u16
}

/// `n` bytes that all equal `pattern`.
pub open spec fn filled(pattern: u8, n: usize) -> Seq<u8> {
    Seq::new(n as nat, |i: int| pattern)
}

/// `s` with the two bytes at `i` set to zero, as far as it has them.
pub open spec fn zeroed_at(s: Seq<u8>, i: int) -> Seq<u8> {
    Seq::new(
        s.len(),
        |k: int|
            if k == i || k == i + 1 {
                0u8
            } else {
                s[k]
            },
    )
}

/// `s` made up to `n` bytes with zeros at its end, or `s` itself where it has `n` or more.
pub open spec fn zero_padded(s: Seq<u8>, n: nat) -> Seq<u8> {
    if s.len() < n {
        s + Seq::new((n - s.len()) as nat, |i: int| 0u8)
    } else {
        s
    }
}

/// `s` with the two bytes at `i` set to those of `v`, the most significant first.
pub open spec fn with_u16_at(s: Seq<u8>, i: int, v: u16) -> Seq<u8> {
    s.update(i, (v / 256) as u8).update(i + 1, (v % 256) as u8)
}

/// `s` with the bytes from `i` on set to `bytes`, as many as these are.
pub open spec fn with_bytes_at(s: Seq<u8>, i: int, bytes: Seq<u8>) -> Seq<u8> {
    s.take(i) + bytes + s.skip(i + bytes.len())
}

/// Reading back two bytes written in network order gives the number written.
pub proof fn lemma_be16_read_back(v: u16)
    ensures
        be16(v).len() == 2,
        u16_at(be16(v), 0) == v,
{
}

/// Appends the two bytes of `v` to `buf`, the most significant first.
pub fn push_be16(buf: &mut Vec<u8>, v: u16)
    ensures
        final(buf)@ == old(buf)@ + be16(v),
{
    buf.push((v / 256) as u8);
    buf.push((v % 256) as u8);
    assert(buf@ =~= old(buf)@ + be16(v));
}

/// Reads the number that the two bytes of `buf` at `i` spell, the most significant first.
pub fn read_be16(buf: &[u8], i: usize) -> (r: u16)
    requires
        i + 1 < buf@.len(),
    ensures
        r == u16_at(buf@, i as int),
{
    let hi: u16 = buf[i] as u16;
    let lo: u16 = buf[i + 1] as u16;
    hi * 256 + lo
}

/// Writes the two bytes of `v` into `buf` at `i`, the most significant first.
pub fn write_be16(buf: &mut Vec<u8>, i: usize, v: u16)
    requires
        i + 1 < old(buf)@.len(),
    ensures
        final(buf)@ == with_u16_at(old(buf)@, i as int, v),
{
    assert(buf@.len() == buf.len());
    buf.set(i, (v / 256) as u8);
    buf.set(i + 1, (v % 256) as u8);
}

/// Writes the bytes of `src` into `buf` from `i` on.
pub fn write_all(buf: &mut Vec<u8>, i: usize, src: &[u8])
    requires
        i + src@.len() <= old(buf)@.len(),
    ensures
        final(buf)@ == with_bytes_at(old(buf)@, i as int, src@),
{
    let mut k: usize = 0;
    assert(buf@.len() == buf.len());
    while k < src.len()
        invariant
            k <= src@.len(),
            i + src@.len() <= buf@.len(),
            buf@.len() <= usize::MAX,
            buf@.len() == old(buf)@.len(),
            forall|j: int| 0 <= j < i ==> buf@[j] == old(buf)@[j],
            forall|j: int| i <= j < i + k ==> buf@[j] == src@[j - i],
            forall|j: int| i + k <= j < buf@.len() ==> buf@[j] == old(buf)@[j],
        decreases src@.len() - k,
    {
        buf.set(i + k, src[k]);
        k += 1;
    }
    assert(buf@ =~= with_bytes_at(old(buf)@, i as int, src@));
}

/// A buffer of `n` zero bytes.
pub fn zeros(n: usize) -> (buf: Vec<u8>)
    ensures
        buf@ == filled(0, n),
{
    let mut buf: Vec<u8> = Vec::new();
    push_filled(&mut buf, 0, n);
    assert(buf@ =~= filled(0, n));
    buf
}

/// Appends `n` bytes that all equal `pattern` to `buf`.
pub fn push_filled(buf: &mut Vec<u8>, pattern: u8, n: usize)
    ensures
        final(buf)@ == old(buf)@ + filled(pattern, n),
{
    let mut i: usize = 0;
    while i < n
        invariant
            i <= n,
            buf@ == old(buf)@ + filled(pattern, i),
        decreases n - i,
    {
        buf.push(pattern);
        i += 1;
        assert(buf@ =~= old(buf)@ + filled(pattern, i));
    }
}

/// Appends the bytes of `src` to `buf`.
pub fn push_all(buf: &mut Vec<u8>, src: &[u8])
    ensures
        final(buf)@ == old(buf)@ + src@,
{
    let mut i: usize = 0;
    while i < src.len()
        invariant
            i <= src@.len(),
            buf@ == old(buf)@ + src@.take(i as int),
        decreases src@.len() - i,
    {
        buf.push(src[i]);
        i += 1;
        assert(buf@ =~= old(buf)@ + src@.take(i as int));
    }
    assert(src@.take(src@.len() as int) =~= src@);
}

} // verus!
