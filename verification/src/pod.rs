//! Storage for format documents, and the anchors that keep streams alive.

use vstd::prelude::*;

verus! {

/// Alignment that a format document needs, in bytes.
pub const POD_ALIGN: usize = 8;

/// Holds the streams and their listeners for as long as they must live.
pub struct AppState<S1, L1, S2, L2> {
    /// The capture stream.
    pub capture_stream: S1,
    /// Its listener.
    pub capture_listener: L1,
    /// The playback stream.
    pub playback_stream: S2,
    /// Its listener.
    pub playback_listener: L2,
}

/// A byte buffer in which a format document is built. The empty field gives it
/// the alignment of a 64-bit number.
#[derive(Debug, Clone, Copy)]
pub struct SpaPodStorage<const N: usize> {
    align: [u64; 0],
    bytes: [u8; N],
}

impl<const N: usize> View for SpaPodStorage<N> {
    type V = Seq<u8>;

    closed spec fn view(&self) -> Seq<u8> {
        self.bytes@
    }
}

impl<const N: usize> SpaPodStorage<N> {
    /// A buffer of zeros.
    pub fn new() -> (r: Self)
        ensures
            r@ == Seq::new(N as nat, |i: int| 0u8),
    {
        let r = SpaPodStorage { align: [], bytes: [0u8; N] };
        assert(r@ =~= Seq::new(N as nat, |i: int| 0u8));
        r
    }

    /// The bytes, for writing.
    pub fn as_mut_slice(&mut self) -> (r: &mut [u8])
        ensures
            r@ == old(self)@,
            final(self)@ == final(r)@,
    {
        &mut self.bytes
    }

    /// The bytes.
    pub fn as_slice(&self) -> (r: &[u8])
        ensures
            r@ == self@,
    {
        &self.bytes
    }
}

impl<const N: usize> Default for SpaPodStorage<N> {
    fn default() -> (r: Self)
        ensures
            r@ == Seq::new(N as nat, |i: int| 0u8),
    {
        SpaPodStorage::new()
    }
}

/// Where in a buffer of `len` bytes at `base` a document at `address` begins:
/// nowhere unless the address is that of an aligned byte in the buffer or of
/// its end.
pub fn pod_offset(base: usize, len: usize, address: usize) -> (r: Option<usize>)
    ensures
        r == (if address != 0 && address % 8 == 0 && base <= address <= base + len {
            Some((address - base) as usize)
        } else {
            None
        }),
{
    if address == 0 || address % POD_ALIGN != 0 {
        return None;
    }
    match address.checked_sub(base) {
        Some(offset) => {
            if offset <= len {
                Some(offset)
            } else {
                None
            }
        },
        None => None,
    }
}

/// Bytes of a document's header.
pub const POD_HEADER: usize = 8;

/// The number that four bytes from `at` write, least significant first.
pub open spec fn number_at(bytes: Seq<u8>, at: int) -> int {
    bytes[at] + 0x100 * bytes[at + 1] + 0x1_0000 * bytes[at + 2] + 0x100_0000 * bytes[at + 3]
}

/// Bytes of a document whose body has so many, with its header and with the
/// padding behind the body.
pub open spec fn pod_extent(body: int) -> int {
    POD_HEADER + (body + 7) / 8 * 8
}

/// Finds the document at `address` in a storage whose first byte is at `base`.
/// Returns where it begins and how many bytes it takes; nothing unless the
/// address is aligned and in the storage, and the header, the body that the
/// header announces and the padding all lie in it.
pub fn validate_built_pod<const N: usize>(
    storage: &SpaPodStorage<N>,
    base: usize,
    address: usize,
) -> (r: Option<(usize, usize)>)
    ensures
        ({
            let at = address - base;
            let extent = pod_extent(number_at(storage@, at));
            r == (if address != 0 && address % 8 == 0 && at >= 0 && at + POD_HEADER
                <= storage@.len() && at + extent <= storage@.len() {
                Some((at as usize, extent as usize))
            } else {
                None
            })
        }),
{
    let bytes = storage.as_slice();
    let len: usize = bytes.len();
    let at: usize = match pod_offset(base, len, address) {
        Some(at) => at,
        None => {
            return None;
        },
    };
    if len - at < POD_HEADER {
        return None;
    }
    let body: u64 = bytes[at] as u64 + 0x100 * bytes[at + 1] as u64 + 0x1_0000 * bytes[at
        + 2] as u64 + 0x100_0000 * bytes[at + 3] as u64;
    let extent: u64 = POD_HEADER as u64 + (body + 7) / 8 * 8;
    if extent <= (len - at) as u64 {
        Some((at, extent as usize))
    } else {
        None
    }
}

/// A document's extent is its header, its body and less than eight bytes of
/// padding, and ends at a multiple of eight.
pub proof fn extent_holds_header_and_body(body: int)
    requires
        body >= 0,
    ensures
        body + 8 <= pod_extent(body) < body + 16,
        pod_extent(body) % 8 == 0,
{
}

/// Four bytes write one number each way: two runs of bytes that differ write
/// different numbers, and the first byte counts ones.
pub proof fn four_bytes_write_one_number(a: Seq<u8>, b: Seq<u8>)
    requires
        a.len() == 4,
        b.len() == 4,
    ensures
        0 <= number_at(a, 0) <= u32::MAX,
        number_at(a, 0) == number_at(b, 0) ==> a =~= b,
        number_at(a, 0) % 0x100 == a[0],
        number_at(a, 0) / 0x100_0000 == a[3],
{
}

} // verus!
