//! Wrapping 8/16-bit arithmetic, single-bit access, and the F-register
//! flag encoding shared by the CPU core and the bus.

use vstd::prelude::*;

verus! {

/// `x` reduced to a 16-bit word (two's-complement wrap-around).
pub open spec fn w16(x: int) -> u16 {
    (x % 0x10000) as u16
}

/// `x` reduced to an 8-bit byte (two's-complement wrap-around).
pub open spec fn w8(x: int) -> u8 {
    (x % 0x100) as u8
}

/// The signed value of byte `v` reinterpreted as two's complement.
pub open spec fn signed8(v: u8) -> int {
    if v < 0x80 {
        v as int
    } else {
        v - 0x100
    }
}

/// A machine-cycle counter advanced by `k`, saturating at 255. One
/// instruction consumes at most six machine cycles, so the saturation is
/// never reached when the counter is cleared at each instruction boundary.
pub open spec fn cyc(c: u8, k: int) -> u8 {
    if c + k <= 255 {
        (c + k) as u8
    } else {
        255u8
    }
}

/// `2^k` for a bit index `k < 8`.
pub open spec fn bit_weight(k: u8) -> u8 {
    if k == 0 {
        1
    } else if k == 1 {
        2
    } else if k == 2 {
        4
    } else if k == 3 {
        8
    } else if k == 4 {
        0x10
    } else if k == 5 {
        0x20
    } else if k == 6 {
        0x40
    } else {
        0x80
    }
}

/// Bit `k` of `v`.
pub open spec fn get_bit8(v: u8, k: u8) -> bool {
    (v / bit_weight(k)) % 2 == 1
}

/// `v` with bit `k` cleared.
pub open spec fn clear_bit8(v: u8, k: u8) -> u8 {
    if get_bit8(v, k) {
        (v - bit_weight(k)) as u8
    } else {
        v
    }
}

/// `v` with bit `k` set.
pub open spec fn set_bit8(v: u8, k: u8) -> u8 {
    if get_bit8(v, k) {
        v
    } else {
        (v + bit_weight(k)) as u8
    }
}

/// `v` with bit `k` forced to `b`.
pub open spec fn put_bit8(v: u8, k: u8, b: bool) -> u8 {
    if b {
        set_bit8(v, k)
    } else {
        clear_bit8(v, k)
    }
}

/// The F register built from the four flags; its low nibble is zero.
/// Z is bit 7, N bit 6, H bit 5, C bit 4.
pub open spec fn flags(z: bool, n: bool, h: bool, c: bool) -> u8 {
    ((if z {
        0x80int
    } else {
        0int
    }) + (if n {
        0x40int
    } else {
        0int
    }) + (if h {
        0x20int
    } else {
        0int
    }) + (if c {
        0x10int
    } else {
        0int
    })) as u8
}

pub open spec fn z_flag(f: u8) -> bool {
    get_bit8(f, 7)
}

pub open spec fn n_flag(f: u8) -> bool {
    get_bit8(f, 6)
}

pub open spec fn h_flag(f: u8) -> bool {
    get_bit8(f, 5)
}

pub open spec fn c_flag(f: u8) -> bool {
    get_bit8(f, 4)
}

/// A byte vector of length `n`, all zero.
pub fn zero_bytes(n: usize) -> (v: Vec<u8>)
    ensures
        v@ =~= Seq::new(n as nat, |i: int| 0u8),
{
    let mut v: Vec<u8> = Vec::new();
    let mut k: usize = 0;
    while k < n
        invariant
            k <= n,
            v@ =~= Seq::new(k as nat, |i: int| 0u8),
        decreases n - k,
    {
        v.push(0);
        k = k + 1;
    }
    v
}

} // verus!
