//! The text form of a transaction identifier: its 32 bytes in reverse order,
//! two lowercase hexadecimal digits each.
use vstd::prelude::*;

verus! {

pub open spec fn hex_digits() -> Seq<char> {
    seq!['0', '1', '2', '3', '4', '5', '6', '7', '8', '9', 'a', 'b', 'c', 'd', 'e', 'f']
}

/// The two digits of one byte, high nibble first.
pub open spec fn byte_hex(b: u8) -> Seq<char> {
    seq![hex_digits()[(b / 16) as int], hex_digits()[(b % 16) as int]]
}

/// The digits of `b` read from its last byte to its first.
pub open spec fn reversed_hex(b: Seq<u8>) -> Seq<char>
    decreases b.len(),
{
    if b.len() == 0 {
        seq![]
    } else {
        reversed_hex(b.drop_first()) + byte_hex(b[0])
    }
}

fn append_digit(s: &mut String, d: u8)
    requires
        d < 16,
    ensures
        final(s)@ == old(s)@.push(hex_digits()[d as int]),
{
    let digits: &str = "0123456789abcdef";
    proof {
        reveal_strlit("0123456789abcdef");
    }
    let piece = digits.substring_char(d as usize, d as usize + 1);
    s.append(piece);
    assert(piece@ =~= seq![hex_digits()[d as int]]);
}

/// The identifier as it is displayed and as providers index it.
pub fn txid_hex(id: &[u8; 32]) -> (r: String)
    ensures
        r@ == reversed_hex(id@),
        r@.len() == 64,
{
    let mut s = String::new();
    let mut k: usize = 32;
    while k > 0
        invariant
            k <= 32,
            id@.len() == 32,
            s@ == reversed_hex(id@.subrange(k as int, 32)),
            s@.len() == 2 * (32 - k),
        decreases k,
    {
        let b = id[k - 1];
        append_digit(&mut s, b / 16);
        append_digit(&mut s, b % 16);
        proof {
            let tail = id@.subrange(k - 1, 32);
            assert(tail.drop_first() =~= id@.subrange(k as int, 32));
            assert(tail[0] == b);
        }
        k = k - 1;
    }
    assert(id@.subrange(0, 32) =~= id@);
    s
}

} // verus!
