use vstd::prelude::*;

verus! {

/// A 32-byte identity: an account address, a program identifier, an emitter
/// on another chain, or the hash of an attested message.
pub type Address = [u8; 32];

/// The two bytes of `n`, most significant first.
pub open spec fn u16_be(n: u16) -> Seq<u8> {
    seq![(n / 256) as u8, (n % 256) as u8]
}

/// The number whose big-endian bytes are `hi`, `lo`.
pub open spec fn u16_from_be(hi: u8, lo: u8) -> u16 {
    (hi * 256 + lo) as u16
}

/// The eight bytes of `n`, most significant first.
pub open spec fn u64_be(n: u64) -> Seq<u8> {
    seq![
        (n / 0x100_0000_0000_0000) as u8,
        (n / 0x1_0000_0000_0000 % 256) as u8,
        (n / 0x100_0000_0000 % 256) as u8,
        (n / 0x1_0000_0000 % 256) as u8,
        (n / 0x100_0000 % 256) as u8,
        (n / 0x1_0000 % 256) as u8,
        (n / 0x100 % 256) as u8,
        (n % 256) as u8,
    ]
}

/// Whether every byte of `a` is zero.
pub open spec fn all_zero(a: Address) -> bool {
    forall|i: int| 0 <= i < 32 ==> a[i] == 0
}

/// Two numbers with the same big-endian bytes are the same number.
pub proof fn lemma_u64_be_injective(a: u64, b: u64)
    requires
        u64_be(a) == u64_be(b),
    ensures
        a == b,
{
    let x = u64_be(a);
    let y = u64_be(b);
    assert(x[0] == y[0] && x[1] == y[1] && x[2] == y[2] && x[3] == y[3]);
    assert(x[4] == y[4] && x[5] == y[5] && x[6] == y[6] && x[7] == y[7]);
    assert(a / 0x100_0000_0000_0000 < 256 && b / 0x100_0000_0000_0000 < 256) by (bit_vector);
    assert(a == b) by (bit_vector)
        requires
            a / 0x100_0000_0000_0000 == b / 0x100_0000_0000_0000,
            a / 0x1_0000_0000_0000 % 256 == b / 0x1_0000_0000_0000 % 256,
            a / 0x100_0000_0000 % 256 == b / 0x100_0000_0000 % 256,
            a / 0x1_0000_0000 % 256 == b / 0x1_0000_0000 % 256,
            a / 0x100_0000 % 256 == b / 0x100_0000 % 256,
            a / 0x1_0000 % 256 == b / 0x1_0000 % 256,
            a / 0x100 % 256 == b / 0x100 % 256,
            a % 256 == b % 256,
    ;
}

/// The big-endian bytes of a 16-bit number.
pub fn u16_to_be_bytes(n: u16) -> (bytes: [u8; 2])
    ensures
        bytes@ == u16_be(n),
{
    let bytes = [(n / 256) as u8, (n % 256) as u8];
    assert(bytes@ =~= u16_be(n));
    bytes
}

/// The 16-bit number with the big-endian bytes `hi`, `lo`.
pub fn u16_from_be_bytes(hi: u8, lo: u8) -> (n: u16)
    ensures
        n == u16_from_be(hi, lo),
{
    (hi as u16) * 256 + (lo as u16)
}

/// The big-endian bytes of a 64-bit number.
pub fn u64_to_be_bytes(n: u64) -> (bytes: [u8; 8])
    ensures
        bytes@ == u64_be(n),
{
    let bytes = [
        (n / 0x100_0000_0000_0000) as u8,
        (n / 0x1_0000_0000_0000 % 256) as u8,
        (n / 0x100_0000_0000 % 256) as u8,
        (n / 0x1_0000_0000 % 256) as u8,
        (n / 0x100_0000 % 256) as u8,
        (n / 0x1_0000 % 256) as u8,
        (n / 0x100 % 256) as u8,
        (n % 256) as u8,
    ];
    assert(bytes@ =~= u64_be(n));
    bytes
}

/// Whether two addresses agree in every byte.
pub fn address_eq(a: &Address, b: &Address) -> (same: bool)
    ensures
        same == (*a == *b),
{
    let mut i: usize = 0;
    while i < 32
        invariant
            i <= 32,
            forall|j: int| 0 <= j < i ==> a[j] == b[j],
        decreases 32 - i,
    {
        if a[i] != b[i] {
            return false;
        }
        i += 1;
    }
    assert(*a =~= *b);
    true
}

/// Whether an address is the all-zero address.
pub fn is_zero_address(a: &Address) -> (zero: bool)
    ensures
        zero == all_zero(*a),
{
    let mut i: usize = 0;
    while i < 32
        invariant
            i <= 32,
            forall|j: int| 0 <= j < i ==> a[j] == 0,
        decreases 32 - i,
    {
        if a[i] != 0 {
            return false;
        }
        i += 1;
    }
    true
}

/// A copy of the bytes of `bytes` from index `from` up to, not including, `to`.
pub fn copy_range(bytes: &[u8], from: usize, to: usize) -> (out: Vec<u8>)
    requires
        from <= to <= bytes.len(),
    ensures
        out@ == bytes@.subrange(from as int, to as int),
{
    let mut out: Vec<u8> = Vec::new();
    let mut i: usize = from;
    while i < to
        invariant
            from <= i <= to <= bytes.len(),
            out@ == bytes@.subrange(from as int, i as int),
        decreases to - i,
    {
        out.push(bytes[i]);
        assert(out@ =~= bytes@.subrange(from as int, i + 1));
        i += 1;
    }
    out
}

/// The address held in the 32 bytes of `bytes` that start at index `at`.
pub fn read_address(bytes: &[u8], at: usize) -> (address: Address)
    requires
        at + 32 <= bytes.len(),
    ensures
        address@ == bytes@.subrange(at as int, at + 32),
{
    let mut address: Address = [0u8; 32];
    let mut i: usize = 0;
    while i < 32
        invariant
            i <= 32,
            at + 32 <= bytes.len(),
            forall|j: int| 0 <= j < i ==> address[j] == bytes[at + j],
        decreases 32 - i,
    {
        address[i] = bytes[at + i];
        i += 1;
    }
    assert(address@ =~= bytes@.subrange(at as int, at + 32));
    address
}

/// Appends every byte of `bytes` to `out`.
pub fn extend(out: &mut Vec<u8>, bytes: &[u8])
    ensures
        final(out)@ == old(out)@ + bytes@,
{
    let mut i: usize = 0;
    while i < bytes.len()
        invariant
            i <= bytes.len(),
            out@ == old(out)@ + bytes@.subrange(0, i as int),
        decreases bytes.len() - i,
    {
        out.push(bytes[i]);
        assert(out@ =~= old(out)@ + bytes@.subrange(0, i + 1));
        i += 1;
    }
    assert(bytes@.subrange(0, bytes.len() as int) =~= bytes@);
}

} // verus!
