//! Device numbers, made of a major and a minor number.

use vstd::prelude::*;

verus! {

pub open spec fn spec_makedev(major: u32, minor: u32) -> u64 {
    ((major as u64 & 0xfff) << 8) | ((major as u64 & 0xffff_f000) << 32) | (minor as u64 & 0xff) | ((
    minor as u64 & 0xffff_ff00) << 12)
}

pub open spec fn spec_major(dev: u64) -> u64 {
    ((dev >> 32) & 0xffff_f000) | ((dev >> 8) & 0xfff)
}

pub open spec fn spec_minor(dev: u64) -> u64 {
    ((dev >> 12) & 0xffff_ff00) | (dev & 0xff)
}

/// `libc::makedev`: the low and high bits of both numbers, each at its place.
#[verifier::external_body]
pub(crate) fn makedev(major: u32, minor: u32) -> (dev: u64)
    ensures
        dev == spec_makedev(major, minor),
{
    libc::makedev(major, minor)
}

/// `nix::sys::stat::major`: the major number of a device number.
pub assume_specification[ nix::sys::stat::major ](dev: u64) -> (major: u64)
    ensures
        major == spec_major(dev),
;

/// `nix::sys::stat::minor`: the minor number of a device number.
pub assume_specification[ nix::sys::stat::minor ](dev: u64) -> (minor: u64)
    ensures
        minor == spec_minor(dev),
;

/// The two numbers come back out of a device number, and differ for different devices.
pub proof fn device_number_round_trip(major: u32, minor: u32)
    ensures
        spec_major(spec_makedev(major, minor)) == major,
        spec_minor(spec_makedev(major, minor)) == minor,
{
    let (a, b) = (major as u64, minor as u64);
    assert(a <= 0xffff_ffff && b <= 0xffff_ffff ==> {
        let dev = ((a & 0xfff) << 8) | ((a & 0xffff_f000) << 32) | (b & 0xff) | ((b & 0xffff_ff00)
            << 12);
        &&& ((dev >> 32) & 0xffff_f000) | ((dev >> 8) & 0xfff) == a
        &&& ((dev >> 12) & 0xffff_ff00) | (dev & 0xff) == b
    }) by (bit_vector);
}

} // verus!
