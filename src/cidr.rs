use vstd::prelude::*;

verus! {

/// An IPv4 address with a prefix length, as in `10.8.0.2/16`.
#[derive(Clone, Copy, Debug, PartialEq, Eq, Structural)]
pub struct Cidr {
    pub addr: u32,
    pub prefix: u8,
}

/// The 32-bit value of the dotted address `a.b.c.d`.
pub open spec fn ipv4_value(a: u8, b: u8, c: u8, d: u8) -> int {
    a as int * 16777216 + b as int * 65536 + c as int * 256 + d as int
}

/// Builds the 32-bit value of the dotted address `a.b.c.d`.
pub fn ipv4(a: u8, b: u8, c: u8, d: u8) -> (r: u32)
    ensures
        r as int == ipv4_value(a, b, c, d),
{
    assert(a as int * 16777216 <= 255 * 16777216) by (nonlinear_arith)
        requires a <= 255;
    assert(b as int * 65536 <= 255 * 65536) by (nonlinear_arith)
        requires b <= 255;
    assert(c as int * 256 <= 255 * 256) by (nonlinear_arith)
        requires c <= 255;
    (a as u32) * 16777216 + (b as u32) * 65536 + (c as u32) * 256 + (d as u32)
}

impl Cidr {
    /// A prefix length of at most 32 bits.
    pub open spec fn valid(self) -> bool {
        self.prefix <= 32
    }

    /// `a` shares the first `prefix` bits of this block's address.
    pub open spec fn holds(self, a: u32) -> bool {
        self.prefix == 0 || (a >> ((32 - self.prefix) as u32)) == (self.addr >> ((32 - self.prefix) as u32))
    }

    /// The block `addr/prefix`; `None` when the prefix is longer than 32 bits.
    pub fn new(addr: u32, prefix: u8) -> (r: Option<Cidr>)
        ensures
            prefix <= 32 <==> r is Some,
            r matches Some(c) ==> c.addr == addr && c.prefix == prefix,
    {
        if prefix <= 32 {
            Some(Cidr { addr, prefix })
        } else {
            None
        }
    }

    /// Whether `a` lies in this block.
    pub fn contains(&self, a: u32) -> (r: bool)
        requires
            self.valid(),
        ensures
            r == self.holds(a),
    {
        if self.prefix == 0 {
            true
        } else {
            let shift: u32 = (32 - self.prefix) as u32;
            (a >> shift) == (self.addr >> shift)
        }
    }
}

} // verus!
