//! The pointer-chain resolver and its mathematical model.
//!
//! A chain of offsets is walked from a starting address: every hop but the
//! last reads a pointer-sized (8-byte) word and follows it, the last hop
//! reads a 4-byte scalar.  The target process is little-endian; the memory
//! reader reverses every buffer once before returning it, so the resolver
//! decodes big-endian.  The model below states the walk directly over the
//! raw little-endian bytes, and the resolver is proved to agree with it.

use vstd::prelude::*;

use crate::game_scanner::ScanError;
use crate::memory_scanner::read_memory;

verus! {

/// The value of `bytes` read as a little-endian unsigned integer.
pub open spec fn le_bytes_value(bytes: Seq<u8>) -> nat
    decreases bytes.len(),
{
    if bytes.len() == 0 {
        0
    } else {
        (bytes[0] + 256 * le_bytes_value(bytes.drop_first())) as nat
    }
}

/// The value of `bytes` read as a big-endian unsigned integer.
pub open spec fn be_bytes_value(bytes: Seq<u8>) -> nat
    decreases bytes.len(),
{
    if bytes.len() == 0 {
        0
    } else {
        (256 * be_bytes_value(bytes.drop_last()) + bytes.last()) as nat
    }
}

/// 256 to the power `n`: the number of values `n` bytes can hold.
pub open spec fn pow256(n: nat) -> nat
    decreases n,
{
    if n == 0 {
        1
    } else {
        256 * pow256((n - 1) as nat)
    }
}

/// A big-endian value fits in as many bytes as it was read from.
pub proof fn lemma_be_bytes_value_bound(bytes: Seq<u8>)
    ensures
        be_bytes_value(bytes) < pow256(bytes.len()),
    decreases bytes.len(),
{
    if bytes.len() > 0 {
        lemma_be_bytes_value_bound(bytes.drop_last());
    }
}

/// Reversing a buffer turns a little-endian read into a big-endian one:
/// decoding the reversed buffer big-endian yields exactly the value the
/// original buffer holds little-endian.  This is the single byte-order
/// conversion point the whole design rests on.
pub proof fn lemma_reverse_then_be_is_le(bytes: Seq<u8>)
    ensures
        be_bytes_value(bytes.reverse()) == le_bytes_value(bytes),
    decreases bytes.len(),
{
    if bytes.len() > 0 {
        assert(bytes.reverse().drop_last() =~= bytes.drop_first().reverse());
        assert(bytes.reverse().last() == bytes[0]);
        lemma_reverse_then_be_is_le(bytes.drop_first());
    }
}

/// A copy of `bytes` in reverse order.
pub fn reversed(bytes: &Vec<u8>) -> (r: Vec<u8>)
    ensures
        r@ == bytes@.reverse(),
{
    let mut r: Vec<u8> = Vec::new();
    let mut i: usize = bytes.len();
    while i > 0
        invariant
            i <= bytes@.len(),
            r@.len() == bytes@.len() - i,
            forall|j: int| 0 <= j < r@.len() ==> r@[j] == bytes@[bytes@.len() - 1 - j],
        decreases i,
    {
        i = i - 1;
        r.push(bytes[i]);
    }
    proof {
        assert(r@ =~= bytes@.reverse());
    }
    r
}

/// Decode a reversed (big-endian) 4-byte buffer as a `u32`.
pub fn decode_be_u32(bytes: &Vec<u8>) -> (value: u32)
    requires
        bytes@.len() == 4,
    ensures
        value == be_bytes_value(bytes@),
{
    proof {
        let s = bytes@;
        reveal_with_fuel(be_bytes_value, 5);
        assert(s.drop_last() =~= s.subrange(0, 3));
        assert(s.subrange(0, 3).drop_last() =~= s.subrange(0, 2));
        assert(s.subrange(0, 2).drop_last() =~= s.subrange(0, 1));
        assert(s.subrange(0, 1).drop_last() =~= s.subrange(0, 0));
    }
    let v0 = bytes[0] as u32;
    let v1 = v0 * 256 + bytes[1] as u32;
    let v2 = v1 * 256 + bytes[2] as u32;
    v2 * 256 + bytes[3] as u32
}

/// Decode a reversed (big-endian) 8-byte buffer as a `u64`.
pub fn decode_be_u64(bytes: &Vec<u8>) -> (value: u64)
    requires
        bytes@.len() == 8,
    ensures
        value == be_bytes_value(bytes@),
{
    proof {
        let s = bytes@;
        reveal_with_fuel(be_bytes_value, 9);
        assert(s.drop_last() =~= s.subrange(0, 7));
        assert(s.subrange(0, 7).drop_last() =~= s.subrange(0, 6));
        assert(s.subrange(0, 6).drop_last() =~= s.subrange(0, 5));
        assert(s.subrange(0, 5).drop_last() =~= s.subrange(0, 4));
        assert(s.subrange(0, 4).drop_last() =~= s.subrange(0, 3));
        assert(s.subrange(0, 3).drop_last() =~= s.subrange(0, 2));
        assert(s.subrange(0, 2).drop_last() =~= s.subrange(0, 1));
        assert(s.subrange(0, 1).drop_last() =~= s.subrange(0, 0));
    }
    let mut value: u64 = bytes[0] as u64;
    value = value * 256 + bytes[1] as u64;
    value = value * 256 + bytes[2] as u64;
    value = value * 256 + bytes[3] as u64;
    value = value * 256 + bytes[4] as u64;
    value = value * 256 + bytes[5] as u64;
    value = value * 256 + bytes[6] as u64;
    value = value * 256 + bytes[7] as u64;
    value
}

/// One step of an offset chain: the byte offset to add to the current
/// address, and how many bytes to read there (8 for a pointer-sized
/// intermediate hop, 4 for the final scalar).
#[derive(Clone, Copy, Debug, PartialEq, Eq, Structural)]
pub struct Hop {
    pub offset: u64,
    pub read_size: usize,
}

/// An ordered chain of offsets ending in a 4-byte scalar read.
/// Configuration data, fixed at scanner construction.
pub struct OffsetChain {
    pub hops: Vec<Hop>,
}

impl OffsetChain {
    /// Every hop but the last follows a pointer-sized word; the last reads
    /// the 4-byte scalar.
    pub open spec fn wf(self) -> bool {
        &&& self.hops@.len() >= 1
        &&& self.hops@.last().read_size == 4
        &&& forall|i: int| 0 <= i < self.hops@.len() - 1 ==> self.hops@[i].read_size == 8
    }

    /// The chain that reads one scalar at `offset` from the starting address.
    pub fn single(offset: u64) -> (c: OffsetChain)
        ensures
            c.wf(),
            c.hops@.len() == 1,
            c.hops@[0].offset == offset,
            c.hops@[0].read_size == 4,
    {
        let mut hops: Vec<Hop> = Vec::new();
        hops.push(Hop { offset, read_size: 4 });
        OffsetChain { hops }
    }
}

/// A contiguous snapshot of target-process memory, in the process's own
/// little-endian byte order: `bytes[0]` lives at address `start`.  Stands in
/// for the target process when resolving chains against a known image.
pub struct MemoryImage {
    pub start: u64,
    pub bytes: Vec<u8>,
}

impl MemoryImage {
    /// Whether `size` bytes at `addr` lie inside the image.
    pub open spec fn contains_range(self, addr: int, size: int) -> bool {
        self.start <= addr && addr + size <= self.start + self.bytes@.len()
    }

    /// The raw little-endian bytes of the image at `addr`.
    pub open spec fn bytes_at(self, addr: int, size: int) -> Seq<u8> {
        self.bytes@.subrange(addr - self.start, addr - self.start + size)
    }

    /// Read `size` bytes at `address`, reversed — exactly the memory
    /// reader's contract, with the image in place of the live process:
    /// the raw buffer is little-endian and is reversed once here, so
    /// callers decode big-endian.
    pub fn read(&self, address: u64, size: usize) -> (r: Result<Vec<u8>, ScanError>)
        ensures
            self.contains_range(address as int, size as int) ==> (r matches Ok(b)
                && b@ == self.bytes_at(address as int, size as int).reverse()),
            !self.contains_range(address as int, size as int) ==> r == Err::<Vec<u8>, ScanError>(
                ScanError::MemoryReadError,
            ),
    {
        if address < self.start {
            return Err(ScanError::MemoryReadError);
        }
        let offset = address - self.start;
        if offset > self.bytes.len() as u64 || size as u64 > self.bytes.len() as u64 - offset {
            return Err(ScanError::MemoryReadError);
        }
        let base = offset as usize;
        let n = self.bytes.len();
        let mut region: Vec<u8> = Vec::new();
        let mut i: usize = 0;
        while i < size
            invariant
                i <= size,
                base == address - self.start,
                n == self.bytes@.len(),
                base + size <= n,
                region@.len() == i,
                forall|j: int| 0 <= j < i ==> region@[j] == self.bytes@[base + j],
            decreases size - i,
        {
            region.push(self.bytes[base + i]);
            i = i + 1;
        }
        proof {
            assert(region@ =~= self.bytes_at(address as int, size as int));
        }
        Ok(reversed(&region))
    }
}

/// The value one hop yields when dereferenced by hand: the little-endian
/// word of the raw image bytes at `addr + hop.offset`, or a read error when
/// the address overflows or the range lies outside the image.
pub open spec fn spec_hop_value(img: MemoryImage, addr: nat, hop: Hop) -> Result<nat, ScanError> {
    if addr + hop.offset > u64::MAX {
        Err(ScanError::MemoryReadError)
    } else if !img.contains_range(addr + hop.offset, hop.read_size as int) {
        Err(ScanError::MemoryReadError)
    } else {
        Ok(le_bytes_value(img.bytes_at(addr + hop.offset, hop.read_size as int)))
    }
}

/// The address an all-pointer chain reaches, dereferencing each hop by
/// hand; any failing hop aborts the walk with its error.
pub open spec fn spec_resolve_address(img: MemoryImage, addr: nat, hops: Seq<Hop>) -> Result<
    nat,
    ScanError,
>
    decreases hops.len(),
{
    if hops.len() == 0 {
        Ok(addr)
    } else {
        match spec_hop_value(img, addr, hops[0]) {
            Ok(next) => spec_resolve_address(img, next, hops.drop_first()),
            Err(e) => Err(e),
        }
    }
}

/// The scalar a full chain yields: follow every hop but the last as a
/// pointer, then read the final 4-byte scalar.
pub open spec fn spec_resolve_scalar(img: MemoryImage, addr: nat, hops: Seq<Hop>) -> Result<
    u32,
    ScanError,
> {
    match spec_resolve_address(img, addr, hops.drop_last()) {
        Ok(a) => match spec_hop_value(img, a, hops.last()) {
            Ok(v) => Ok(v as u32),
            Err(e) => Err(e),
        },
        Err(e) => Err(e),
    }
}

/// Walk an all-pointer chain through the image, producing exactly the
/// address that dereferencing the chain by hand produces.
pub fn resolve_address(img: &MemoryImage, start_address: u64, hops: &Vec<Hop>) -> (r: Result<
    u64,
    ScanError,
>)
    requires
        forall|i: int| 0 <= i < hops@.len() ==> hops@[i].read_size == 8,
    ensures
        (match spec_resolve_address(*img, start_address as nat, hops@) {
            Ok(a) => r matches Ok(x) && x == a,
            Err(e) => r matches Err(e2) && e2 == e,
        }),
{
    let ghost full = spec_resolve_address(*img, start_address as nat, hops@);
    let mut address = start_address;
    let mut i: usize = 0;
    proof {
        assert(hops@.skip(0) =~= hops@);
    }
    while i < hops.len()
        invariant
            i <= hops@.len(),
            forall|k: int| 0 <= k < hops@.len() ==> hops@[k].read_size == 8,
            full == spec_resolve_address(*img, start_address as nat, hops@),
            full == spec_resolve_address(*img, address as nat, hops@.skip(i as int)),
        decreases hops@.len() - i,
    {
        proof {
            assert(hops@.skip(i as int)[0] == hops@[i as int]);
            assert(hops@.skip(i as int).drop_first() =~= hops@.skip(i as int + 1));
        }
        let hop = hops[i];
        let target = match address.checked_add(hop.offset) {
            Some(t) => t,
            None => {
                return Err(ScanError::MemoryReadError);
            },
        };
        let bytes = match img.read(target, hop.read_size) {
            Ok(b) => b,
            Err(e) => {
                return Err(e);
            },
        };
        proof {
            lemma_reverse_then_be_is_le(img.bytes_at(target as int, 8));
        }
        address = decode_be_u64(&bytes);
        i = i + 1;
    }
    proof {
        assert(hops@.skip(i as int) =~= Seq::<Hop>::empty());
    }
    Ok(address)
}

/// Walk a full chain through the image, producing exactly the scalar that
/// dereferencing the chain by hand produces.
pub fn resolve_scalar(img: &MemoryImage, start_address: u64, chain: &OffsetChain) -> (r: Result<
    u32,
    ScanError,
>)
    requires
        chain.wf(),
    ensures
        (match spec_resolve_scalar(*img, start_address as nat, chain.hops@) {
            Ok(v) => r matches Ok(x) && x == v,
            Err(e) => r matches Err(e2) && e2 == e,
        }),
{
    let ghost prefix = chain.hops@.drop_last();
    let mut address = start_address;
    let mut i: usize = 0;
    let last = chain.hops.len() - 1;
    proof {
        assert(prefix.skip(0) =~= prefix);
    }
    while i < last
        invariant
            chain.wf(),
            last == chain.hops@.len() - 1,
            i <= last,
            prefix == chain.hops@.drop_last(),
            spec_resolve_address(*img, start_address as nat, prefix) == spec_resolve_address(
                *img,
                address as nat,
                prefix.skip(i as int),
            ),
        decreases last - i,
    {
        proof {
            assert(prefix.skip(i as int)[0] == chain.hops@[i as int]);
            assert(prefix.skip(i as int).drop_first() =~= prefix.skip(i as int + 1));
        }
        let hop = chain.hops[i];
        let target = match address.checked_add(hop.offset) {
            Some(t) => t,
            None => {
                return Err(ScanError::MemoryReadError);
            },
        };
        let bytes = match img.read(target, hop.read_size) {
            Ok(b) => b,
            Err(e) => {
                return Err(e);
            },
        };
        proof {
            lemma_reverse_then_be_is_le(img.bytes_at(target as int, 8));
        }
        address = decode_be_u64(&bytes);
        i = i + 1;
    }
    proof {
        assert(prefix.skip(i as int) =~= Seq::<Hop>::empty());
    }
    let hop = chain.hops[last];
    let target = match address.checked_add(hop.offset) {
        Some(t) => t,
        None => {
            return Err(ScanError::MemoryReadError);
        },
    };
    let bytes = match img.read(target, hop.read_size) {
        Ok(b) => b,
        Err(e) => {
            return Err(e);
        },
    };
    proof {
        lemma_reverse_then_be_is_le(img.bytes_at(target as int, 4));
        lemma_be_bytes_value_bound(bytes@);
        reveal_with_fuel(pow256, 5);
    }
    Ok(decode_be_u32(&bytes))
}

/// Walk an all-pointer chain through a live process.  What each hop yields
/// depends on the target process's memory at that instant; whatever comes
/// back, a failure is one of the memory reader's two errors, and any hop's
/// failure aborts the whole walk with no partial result.
pub fn resolve_address_live(process_id: u32, start_address: u64, hops: &Vec<Hop>) -> (r: Result<
    u64,
    ScanError,
>)
    requires
        forall|i: int| 0 <= i < hops@.len() ==> hops@[i].read_size == 8,
    ensures
        r matches Err(e) ==> (e is HandleConversionError || e is MemoryReadError),
{
    let mut address = start_address;
    let mut i: usize = 0;
    while i < hops.len()
        invariant
            i <= hops@.len(),
            forall|k: int| 0 <= k < hops@.len() ==> hops@[k].read_size == 8,
        decreases hops@.len() - i,
    {
        let hop = hops[i];
        let target = match address.checked_add(hop.offset) {
            Some(t) => t,
            None => {
                return Err(ScanError::MemoryReadError);
            },
        };
        let bytes = match read_memory(process_id, target, hop.read_size) {
            Ok(b) => b,
            Err(e) => {
                return Err(e);
            },
        };
        address = decode_be_u64(&bytes);
        i = i + 1;
    }
    Ok(address)
}

/// Walk a full chain through a live process: follow every hop but the last
/// as a pointer, then read and decode the final 4-byte scalar.  A failure
/// is one of the memory reader's two errors; no partial result is returned.
pub fn resolve_scalar_live(process_id: u32, start_address: u64, chain: &OffsetChain) -> (r: Result<
    u32,
    ScanError,
>)
    requires
        chain.wf(),
    ensures
        r matches Err(e) ==> (e is HandleConversionError || e is MemoryReadError),
{
    let mut address = start_address;
    let mut i: usize = 0;
    let last = chain.hops.len() - 1;
    while i < last
        invariant
            chain.wf(),
            last == chain.hops@.len() - 1,
            i <= last,
        decreases last - i,
    {
        let hop = chain.hops[i];
        let target = match address.checked_add(hop.offset) {
            Some(t) => t,
            None => {
                return Err(ScanError::MemoryReadError);
            },
        };
        let bytes = match read_memory(process_id, target, hop.read_size) {
            Ok(b) => b,
            Err(e) => {
                return Err(e);
            },
        };
        address = decode_be_u64(&bytes);
        i = i + 1;
    }
    let hop = chain.hops[last];
    let target = match address.checked_add(hop.offset) {
        Some(t) => t,
        None => {
            return Err(ScanError::MemoryReadError);
        },
    };
    let bytes = match read_memory(process_id, target, hop.read_size) {
        Ok(b) => b,
        Err(e) => {
            return Err(e);
        },
    };
    Ok(decode_be_u32(&bytes))
}

} // verus!
