use vstd::prelude::*;

verus! {

/// Width in bits of the command number field of an ioctl request.
pub const IOC_NRBITS: u32 = 8;

/// Width in bits of the type (driver letter) field of an ioctl request.
pub const IOC_TYPEBITS: u32 = 8;

/// Width in bits of the argument size field of an ioctl request.
pub const IOC_SIZEBITS: u32 = 14;

pub const IOC_NRSHIFT: u32 = 0;

pub const IOC_TYPESHIFT: u32 = IOC_NRSHIFT + IOC_NRBITS;

pub const IOC_SIZESHIFT: u32 = IOC_TYPESHIFT + IOC_TYPEBITS;

pub const IOC_DIRSHIFT: u32 = IOC_SIZESHIFT + IOC_SIZEBITS;

/// Direction of a request that passes no data.
pub const IOC_NONE: u32 = 0;

/// Direction of a request that passes data to the kernel.
pub const IOC_WRITE: u32 = 1;

/// The layout of an ioctl request number as the kernel defines it, as
/// one integer: direction, argument size, type and number, from the
/// highest field down.
pub open spec fn request_number(direction: int, kind: int, number: int, size: int) -> int {
    direction * 0x4000_0000 + size * 0x1_0000 + kind * 0x100 + number
}

/// The request number as the bits are combined, for any inputs: fields
/// that do not fit their width spill into (and are OR-ed with) the next.
pub open spec fn request_bits(direction: u32, kind: u8, number: u8, size: usize) -> u64 {
    ((direction as u64) << 30u64) | ((kind as u64) << 8u64) | (number as u64) | ((
    size as u64) << 16u64)
}

/// Combines the four fields of an ioctl request.
pub fn ioc(direction: u32, kind: u8, number: u8, size: usize) -> (r: u64)
    ensures
        r == request_bits(direction, kind, number, size),
        direction < 4 && size < 0x4000 ==> r == request_number(
            direction as int,
            kind as int,
            number as int,
            size as int,
        ),
{
    let d = direction as u64;
    let k = kind as u64;
    let n = number as u64;
    let s = size as u64;
    let r = (d << 30u64) | (k << 8u64) | n | (s << 16u64);
    proof {
        if direction < 4 && size < 0x4000 {
            assert(d < 4 && s < 0x4000 && k < 256 && n < 256 ==> (d << 30u64) | (k << 8u64) | n | (
            s << 16u64) == d * 0x4000_0000 + s * 0x1_0000 + k * 0x100 + n) by (bit_vector);
        }
    }
    r
}

/// A request that passes no argument.
pub fn io(kind: u8, number: u8) -> (r: u64)
    ensures
        r == request_bits(IOC_NONE, kind, number, 0),
        r == request_number(IOC_NONE as int, kind as int, number as int, 0),
{
    ioc(IOC_NONE, kind, number, 0)
}

/// A request that passes `size` bytes to the kernel.
pub fn iow(kind: u8, number: u8, size: usize) -> (r: u64)
    ensures
        r == request_bits(IOC_WRITE, kind, number, size),
        size < 0x4000 ==> r == request_number(IOC_WRITE as int, kind as int, number as int, size as int),
{
    ioc(IOC_WRITE, kind, number, size)
}

/// Every field of a request number can be read back from it, when each
/// field fits its width.
pub proof fn lemma_request_fields(direction: u32, kind: u8, number: u8, size: usize)
    requires
        direction < 4,
        size < 0x4000,
    ensures
        request_bits(direction, kind, number, size) >> 30u64 == direction,
        (request_bits(direction, kind, number, size) >> 16u64) & 0x3fff == size,
        (request_bits(direction, kind, number, size) >> 8u64) & 0xff == kind,
        request_bits(direction, kind, number, size) & 0xff == number,
{
    let d = direction as u64;
    let k = kind as u64;
    let n = number as u64;
    let s = size as u64;
    assert(d < 4 && s < 0x4000 && k < 256 && n < 256 ==> {
        let r = (d << 30u64) | (k << 8u64) | n | (s << 16u64);
        &&& r >> 30u64 == d
        &&& (r >> 16u64) & 0x3fff == s
        &&& (r >> 8u64) & 0xff == k
        &&& r & 0xff == n
    }) by (bit_vector);
}

} // verus!
