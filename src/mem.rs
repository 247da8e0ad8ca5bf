//! Memory: a byte buffer read and written little-endian, with bounds checks.
use crate::error::Error;
use vstd::prelude::*;

verus! {

/// The `n` bytes from `offset` lie inside a buffer of `len` bytes.
pub open spec fn in_bounds(len: nat, offset: int, n: nat) -> bool {
    0 <= offset && offset + n <= len
}

/// The number that the `n` bytes of `s` from `offset` encode, least significant first.
pub open spec fn le_value(s: Seq<u8>, offset: int, n: nat) -> nat
    decreases n,
{
    if n == 0 {
        0
    } else {
        s[offset] as nat + 0x100 * le_value(s, offset + 1, (n - 1) as nat)
    }
}

/// The low `n` bytes of `v`, least significant first.
pub open spec fn le_bytes(v: nat, n: nat) -> Seq<u8>
    decreases n,
{
    if n == 0 {
        Seq::empty()
    } else {
        seq![(v % 0x100) as u8] + le_bytes(v / 0x100, (n - 1) as nat)
    }
}

/// `s` with the bytes from `offset` on replaced by `bytes`.
pub open spec fn splice(s: Seq<u8>, offset: int, bytes: Seq<u8>) -> Seq<u8> {
    s.subrange(0, offset) + bytes + s.subrange(offset + bytes.len(), s.len() as int)
}

/// Copies `src` into `dest` from `addr` on; fails, writing nothing, when it does not fit.
pub fn memw(src: &[u8], dest: &mut [u8], addr: usize) -> (r: Result<(), Error>)
    ensures
        in_bounds(old(dest)@.len(), addr as int, src@.len()) <==> r is Ok,
        r is Ok ==> final(dest)@ == splice(old(dest)@, addr as int, src@),
        r is Err ==> r == Err::<(), Error>(Error::MemoryOutOfBounds) && final(dest)@ == old(dest)@,
{
    if addr > dest.len() || src.len() > dest.len() - addr {
        return Err(Error::MemoryOutOfBounds);
    }
    let len = dest.len();
    let mut i: usize = 0;
    while i < src.len()
        invariant
            i <= src@.len(),
            len == dest@.len(),
            addr + src@.len() <= dest@.len(),
            dest@.len() == old(dest)@.len(),
            forall|j: int| 0 <= j < addr ==> dest@[j] == old(dest)@[j],
            forall|j: int| addr <= j < addr + i ==> dest@[j] == src@[j - addr],
            forall|j: int| addr + src@.len() <= j < dest@.len() ==> dest@[j] == old(dest)@[j],
        decreases src@.len() - i,
    {
        dest[addr + i] = src[i];
        i = i + 1;
    }
    assert(dest@ =~= splice(old(dest)@, addr as int, src@));
    Ok(())
}

/// The `amount` bytes from `addr` on.
pub fn memr(src: &[u8], addr: usize, amount: usize) -> (r: Result<&[u8], Error>)
    ensures
        in_bounds(src@.len(), addr as int, amount as nat) <==> r is Ok,
        r matches Ok(s) ==> s@ == src@.subrange(addr as int, addr + amount),
        r is Err ==> r == Err::<&[u8], Error>(Error::MemoryOutOfBounds),
{
    if addr > src.len() || amount > src.len() - addr {
        return Err(Error::MemoryOutOfBounds);
    }
    Ok(&src[addr..addr + amount])
}

/// The four bytes from `addr` on.
pub fn memr32(src: &[u8], addr: usize) -> (r: Result<[u8; 4], Error>)
    ensures
        in_bounds(src@.len(), addr as int, 4) <==> r is Ok,
        r matches Ok(b) ==> b@ == src@.subrange(addr as int, addr + 4),
        r is Err ==> r == Err::<[u8; 4], Error>(Error::MemoryOutOfBounds),
{
    if addr > src.len() || 4 > src.len() - addr {
        return Err(Error::MemoryOutOfBounds);
    }
    let b = [src[addr], src[addr + 1], src[addr + 2], src[addr + 3]];
    assert(b@ =~= src@.subrange(addr as int, addr + 4));
    Ok(b)
}

/// The two bytes from `addr` on.
pub fn memr16(src: &[u8], addr: usize) -> (r: Result<[u8; 2], Error>)
    ensures
        in_bounds(src@.len(), addr as int, 2) <==> r is Ok,
        r matches Ok(b) ==> b@ == src@.subrange(addr as int, addr + 2),
        r is Err ==> r == Err::<[u8; 2], Error>(Error::MemoryOutOfBounds),
{
    if addr > src.len() || 2 > src.len() - addr {
        return Err(Error::MemoryOutOfBounds);
    }
    let b = [src[addr], src[addr + 1]];
    assert(b@ =~= src@.subrange(addr as int, addr + 2));
    Ok(b)
}

/// The byte at `addr`.
pub fn memr8(src: &[u8], addr: usize) -> (r: Result<u8, Error>)
    ensures
        in_bounds(src@.len(), addr as int, 1) <==> r is Ok,
        r matches Ok(b) ==> b == src@[addr as int],
        r is Err ==> r == Err::<u8, Error>(Error::MemoryOutOfBounds),
{
    if addr >= src.len() {
        return Err(Error::MemoryOutOfBounds);
    }
    Ok(src[addr])
}

/// Reads a byte.
pub fn read_u8(mem: &[u8], offset: usize) -> (r: Result<u8, Error>)
    ensures
        in_bounds(mem@.len(), offset as int, 1) ==> (r matches Ok(v) && v == le_value(mem@, offset as int, 1)),
        !in_bounds(mem@.len(), offset as int, 1) ==> r == Err::<u8, Error>(Error::MemoryOutOfBounds),
{
    if offset >= mem.len() {
        return Err(Error::MemoryOutOfBounds);
    }
    proof {
        reveal_with_fuel(le_value, 2);
    }
    Ok(mem[offset])
}

/// Reads a little-endian half word.
pub fn read_u16(mem: &[u8], offset: usize) -> (r: Result<u16, Error>)
    ensures
        in_bounds(mem@.len(), offset as int, 2) ==> (r matches Ok(v) && v == le_value(mem@, offset as int, 2)),
        !in_bounds(mem@.len(), offset as int, 2) ==> r == Err::<u16, Error>(Error::MemoryOutOfBounds),
{
    if offset > mem.len() || 2 > mem.len() - offset {
        return Err(Error::MemoryOutOfBounds);
    }
    proof {
        reveal_with_fuel(le_value, 3);
    }
    Ok(mem[offset] as u16 + 0x100 * mem[offset + 1] as u16)
}

/// Reads a little-endian word of 32 bits.
pub fn read_u32(mem: &[u8], offset: usize) -> (r: Result<u32, Error>)
    ensures
        in_bounds(mem@.len(), offset as int, 4) ==> (r matches Ok(v) && v == le_value(mem@, offset as int, 4)),
        !in_bounds(mem@.len(), offset as int, 4) ==> r == Err::<u32, Error>(Error::MemoryOutOfBounds),
{
    if offset > mem.len() || 4 > mem.len() - offset {
        return Err(Error::MemoryOutOfBounds);
    }
    proof {
        reveal_with_fuel(le_value, 5);
    }
    Ok(mem[offset] as u32 + 0x100 * mem[offset + 1] as u32 + 0x1_0000 * mem[offset + 2] as u32
        + 0x100_0000 * mem[offset + 3] as u32)
}

/// Reads a little-endian double word.
pub fn read_u64(mem: &[u8], offset: usize) -> (r: Result<u64, Error>)
    ensures
        in_bounds(mem@.len(), offset as int, 8) ==> (r matches Ok(v) && v == le_value(mem@, offset as int, 8)),
        !in_bounds(mem@.len(), offset as int, 8) ==> r == Err::<u64, Error>(Error::MemoryOutOfBounds),
{
    if offset > mem.len() || 8 > mem.len() - offset {
        return Err(Error::MemoryOutOfBounds);
    }
    let lo = read_u32(mem, offset);
    let hi = read_u32(mem, offset + 4);
    match (lo, hi) {
        (Ok(lo), Ok(hi)) => {
            proof {
                lemma_le_value_split(mem@, offset as int);
            }
            Ok(lo as u64 + 0x1_0000_0000 * hi as u64)
        },
        _ => Err(Error::MemoryOutOfBounds),
    }
}

/// `le_bytes` gives as many bytes as asked for.
pub proof fn lemma_le_bytes_len(v: nat, n: nat)
    ensures
        le_bytes(v, n).len() == n,
    decreases n,
{
    if n > 0 {
        lemma_le_bytes_len(v / 0x100, (n - 1) as nat);
    }
}

/// Eight bytes encode the number that their two halves of four encode.
proof fn lemma_le_value_split(s: Seq<u8>, offset: int)
    ensures
        le_value(s, offset, 8) == le_value(s, offset, 4) + 0x1_0000_0000 * le_value(s, offset + 4, 4),
        le_value(s, offset, 4) < 0x1_0000_0000,
        le_value(s, offset + 4, 4) < 0x1_0000_0000,
{
    reveal_with_fuel(le_value, 9);
}

/// Writes a byte, least significant byte first.
pub fn write_u8(mem: &mut [u8], offset: usize, value: u8) -> (r: Result<(), Error>)
    ensures
        in_bounds(old(mem)@.len(), offset as int, 1) <==> r is Ok,
        r is Ok ==> final(mem)@ == splice(old(mem)@, offset as int, le_bytes(value as nat, 1)),
        r is Err ==> r == Err::<(), Error>(Error::MemoryOutOfBounds) && final(mem)@ == old(mem)@,
{
    if offset > mem.len() || 1 > mem.len() - offset {
        return Err(Error::MemoryOutOfBounds);
    }
    mem[offset] = value;
    proof {
        reveal_with_fuel(le_bytes, 2);
        assert(mem@ =~= splice(old(mem)@, offset as int, le_bytes(value as nat, 1)));
    }
    Ok(())
}

/// Writes a half word, least significant byte first.
pub fn write_u16(mem: &mut [u8], offset: usize, value: u16) -> (r: Result<(), Error>)
    ensures
        in_bounds(old(mem)@.len(), offset as int, 2) <==> r is Ok,
        r is Ok ==> final(mem)@ == splice(old(mem)@, offset as int, le_bytes(value as nat, 2)),
        r is Err ==> r == Err::<(), Error>(Error::MemoryOutOfBounds) && final(mem)@ == old(mem)@,
{
    if offset > mem.len() || 2 > mem.len() - offset {
        return Err(Error::MemoryOutOfBounds);
    }
    mem[offset] = (value % 0x100) as u8;
    mem[offset + 1] = ((value / 0x100) % 0x100) as u8;
    proof {
        reveal_with_fuel(le_bytes, 3);
        assert(mem@ =~= splice(old(mem)@, offset as int, le_bytes(value as nat, 2)));
    }
    Ok(())
}

/// Writes a word of 32 bits, least significant byte first.
pub fn write_u32(mem: &mut [u8], offset: usize, value: u32) -> (r: Result<(), Error>)
    ensures
        in_bounds(old(mem)@.len(), offset as int, 4) <==> r is Ok,
        r is Ok ==> final(mem)@ == splice(old(mem)@, offset as int, le_bytes(value as nat, 4)),
        r is Err ==> r == Err::<(), Error>(Error::MemoryOutOfBounds) && final(mem)@ == old(mem)@,
{
    if offset > mem.len() || 4 > mem.len() - offset {
        return Err(Error::MemoryOutOfBounds);
    }
    mem[offset] = (value % 0x100) as u8;
    mem[offset + 1] = ((value / 0x100) % 0x100) as u8;
    mem[offset + 2] = ((value / 0x10000) % 0x100) as u8;
    mem[offset + 3] = ((value / 0x1000000) % 0x100) as u8;
    proof {
        reveal_with_fuel(le_bytes, 5);
        assert(mem@ =~= splice(old(mem)@, offset as int, le_bytes(value as nat, 4)));
    }
    Ok(())
}

/// Writes a double word, least significant byte first.
pub fn write_u64(mem: &mut [u8], offset: usize, value: u64) -> (r: Result<(), Error>)
    ensures
        in_bounds(old(mem)@.len(), offset as int, 8) <==> r is Ok,
        r is Ok ==> final(mem)@ == splice(old(mem)@, offset as int, le_bytes(value as nat, 8)),
        r is Err ==> r == Err::<(), Error>(Error::MemoryOutOfBounds) && final(mem)@ == old(mem)@,
{
    if offset > mem.len() || 8 > mem.len() - offset {
        return Err(Error::MemoryOutOfBounds);
    }
    mem[offset] = (value % 0x100) as u8;
    mem[offset + 1] = ((value / 0x100) % 0x100) as u8;
    mem[offset + 2] = ((value / 0x10000) % 0x100) as u8;
    mem[offset + 3] = ((value / 0x1000000) % 0x100) as u8;
    mem[offset + 4] = ((value / 0x100000000) % 0x100) as u8;
    mem[offset + 5] = ((value / 0x10000000000) % 0x100) as u8;
    mem[offset + 6] = ((value / 0x1000000000000) % 0x100) as u8;
    mem[offset + 7] = ((value / 0x100000000000000) % 0x100) as u8;
    proof {
        reveal_with_fuel(le_bytes, 9);
        assert(mem@ =~= splice(old(mem)@, offset as int, le_bytes(value as nat, 8)));
    }
    Ok(())
}

/// `256^n`.
pub open spec fn pow256(n: nat) -> nat
    decreases n,
{
    if n == 0 {
        1
    } else {
        0x100 * pow256((n - 1) as nat)
    }
}

/// The number that `n` bytes encode depends on those bytes only.
proof fn lemma_le_value_frame(s: Seq<u8>, t: Seq<u8>, offset: int, n: nat)
    requires
        forall|i: int| offset <= i < offset + n ==> s[i] == t[i],
    ensures
        le_value(s, offset, n) == le_value(t, offset, n),
    decreases n,
{
    if n > 0 {
        lemma_le_value_frame(s, t, offset + 1, (n - 1) as nat);
    }
}

/// What a store of `n` bytes writes, a load of `n` bytes from the same place
/// reads back: the low `n` bytes of the stored value.
pub proof fn lemma_store_load(mem: Seq<u8>, offset: int, v: nat, n: nat)
    requires
        in_bounds(mem.len(), offset, n),
    ensures
        le_value(splice(mem, offset, le_bytes(v, n)), offset, n) == v % pow256(n),
    decreases n,
{
    if n == 0 {
        assert(v % 1 == 0);
    } else {
        let m = (n - 1) as nat;
        let s = splice(mem, offset, le_bytes(v, n));
        let t = splice(mem, offset + 1, le_bytes(v / 0x100, m));
        lemma_le_bytes_len(v, n);
        lemma_le_bytes_len(v / 0x100, m);
        assert(le_bytes(v, n) == seq![(v % 0x100) as u8] + le_bytes(v / 0x100, m));
        assert forall|i: int| offset + 1 <= i < offset + 1 + m implies s[i] == t[i] by {
            assert(s[i] == le_bytes(v, n)[i - offset]);
            assert(t[i] == le_bytes(v / 0x100, m)[i - offset - 1]);
        }
        lemma_le_value_frame(s, t, offset + 1, m);
        lemma_store_load(mem, offset + 1, v / 0x100, m);
        assert(s[offset] == (v % 0x100) as u8);
        lemma_pow256_positive(m);
        vstd::arithmetic::div_mod::lemma_mod_breakdown(v as int, 0x100, pow256(m) as int);
    }
}

/// `256^n` is positive.
proof fn lemma_pow256_positive(n: nat)
    ensures
        pow256(n) > 0,
    decreases n,
{
    if n > 0 {
        lemma_pow256_positive((n - 1) as nat);
    }
}

} // verus!
