//! Integers as text.
//!
//! An integer renders as its decimal numeral, which is markup already: digits
//! and a sign need no escaping.

use crate::{Bytes, Encoding, Render, Renderer};
use vstd::prelude::*;

verus! {

/// The ASCII digit for a value below ten.
pub open spec fn digit(d: nat) -> u8 {
    (48 + d) as u8
}

/// The decimal numeral of a natural number, without leading zeros.
pub open spec fn decimal(n: nat) -> Bytes
    decreases n,
{
    if n < 10 {
        seq![digit(n)]
    } else {
        decimal(n / 10).push(digit(n % 10))
    }
}

/// The decimal numeral of an integer: a minus sign before the numeral of a
/// negative number's magnitude.
pub open spec fn signed_decimal(i: int) -> Bytes {
    if i < 0 {
        seq![45u8] + decimal((-i) as nat)
    } else {
        decimal(i as nat)
    }
}

/// Appends the decimal numeral of `n` to `out`.
pub fn push_decimal(n: u64, out: &mut Vec<u8>)
    ensures
        final(out)@ == old(out)@ + decimal(n as nat),
    decreases n,
{
    if n >= 10 {
        push_decimal(n / 10, out);
    }
    let d: u8 = (n % 10) as u8;
    out.push(48 + d);
}

/// The decimal numeral of an unsigned integer.
pub fn unsigned_text(n: u64) -> (out: Vec<u8>)
    ensures
        out@ == decimal(n as nat),
{
    let mut out: Vec<u8> = Vec::new();
    push_decimal(n, &mut out);
    out
}

/// The decimal numeral of a signed integer.
pub fn signed_text(n: i64) -> (out: Vec<u8>)
    ensures
        out@ == signed_decimal(n as int),
{
    let mut out: Vec<u8> = Vec::new();
    if n < 0 {
        out.push(45);
        let magnitude: u64 = (-(n + 1)) as u64 + 1;
        push_decimal(magnitude, &mut out);
    } else {
        push_decimal(n as u64, &mut out);
    }
    out
}

impl Render for u64 {
    open spec fn markup(&self, enc: Encoding) -> Bytes {
        decimal(*self as nat)
    }

    fn render<R: Renderer>(&self, r: &mut R) -> (res: Result<(), std::io::Error>) {
        r.write_raw(unsigned_text(*self).as_slice())
    }
}

impl Render for u32 {
    open spec fn markup(&self, enc: Encoding) -> Bytes {
        decimal(*self as nat)
    }

    fn render<R: Renderer>(&self, r: &mut R) -> (res: Result<(), std::io::Error>) {
        r.write_raw(unsigned_text(*self as u64).as_slice())
    }
}

impl Render for usize {
    open spec fn markup(&self, enc: Encoding) -> Bytes {
        decimal(*self as nat)
    }

    fn render<R: Renderer>(&self, r: &mut R) -> (res: Result<(), std::io::Error>) {
        r.write_raw(unsigned_text(*self as u64).as_slice())
    }
}

impl Render for i64 {
    open spec fn markup(&self, enc: Encoding) -> Bytes {
        signed_decimal(*self as int)
    }

    fn render<R: Renderer>(&self, r: &mut R) -> (res: Result<(), std::io::Error>) {
        r.write_raw(signed_text(*self).as_slice())
    }
}

impl Render for i32 {
    open spec fn markup(&self, enc: Encoding) -> Bytes {
        signed_decimal(*self as int)
    }

    fn render<R: Renderer>(&self, r: &mut R) -> (res: Result<(), std::io::Error>) {
        r.write_raw(signed_text(*self as i64).as_slice())
    }
}

impl Render for isize {
    open spec fn markup(&self, enc: Encoding) -> Bytes {
        signed_decimal(*self as int)
    }

    fn render<R: Renderer>(&self, r: &mut R) -> (res: Result<(), std::io::Error>) {
        r.write_raw(signed_text(*self as i64).as_slice())
    }
}

} // verus!
