use vstd::prelude::*;
use vstd::string::StringExecFns;

verus! {

/// Whether bit `k` of `byte`, counted from the most significant, is set.
pub open spec fn bit_from_top(byte: u8, k: int) -> bool {
    byte & (0x80u8 >> (k as u8)) != 0
}

/// The terminal cell for one bit: `*` when it is set, a space otherwise.
pub open spec fn cell(on: bool) -> char {
    if on {
        '*'
    } else {
        ' '
    }
}

/// Renders the four high bits of `byte` as four terminal cells, most significant
/// bit first: `*` for a set bit, a space for a clear one.
pub fn from_byte(byte: u8) -> (r: String)
    ensures
        r@ == Seq::new(4, |k: int| cell(bit_from_top(byte, k))),
{
    let mut s = String::new();
    let mut k: u8 = 0;
    while k < 4
        invariant
            k <= 4,
            s@ == Seq::new(k as nat, |j: int| cell(bit_from_top(byte, j))),
        decreases 4 - k,
    {
        let mask: u8 = 0x80 >> k;
        proof {
            reveal_strlit("*");
            reveal_strlit(" ");
        }
        if byte & mask != 0 {
            s.append("*");
        } else {
            s.append(" ");
        }
        assert(s@ =~= Seq::new((k + 1) as nat, |j: int| cell(bit_from_top(byte, j))));
        k = k + 1;
    }
    s
}

} // verus!
