use vstd::prelude::*;

verus! {

/// The decimal digits of `n` as ASCII bytes, most significant first, with no
/// sign and no leading zero (`0` itself is the single byte `48`).
pub open spec fn spec_decimal(n: nat) -> Seq<u8>
    decreases n,
{
    if n < 10 {
        seq![(48 + n) as u8]
    } else {
        spec_decimal(n / 10) + seq![(48 + n % 10) as u8]
    }
}

/// Every byte of the decimal rendering is an ASCII digit, so the rendering
/// is in particular valid UTF-8.
pub proof fn lemma_decimal_is_digits(n: nat)
    ensures
        spec_decimal(n).len() >= 1,
        forall|i: int|
            0 <= i < spec_decimal(n).len() ==> 48 <= #[trigger] spec_decimal(n)[i] <= 57,
    decreases n,
{
    if n >= 10 {
        lemma_decimal_is_digits(n / 10);
    }
}

/// Renders `n` in decimal: the byte length of the serialized input is handed
/// to the guest in this form, as its one positional argument, so the guest
/// can pre-size its receive buffer before the handshake begins.
pub fn decimal_digits(n: usize) -> (r: Vec<u8>)
    ensures
        r@ == spec_decimal(n as nat),
    decreases n,
{
    if n < 10 {
        let mut r: Vec<u8> = Vec::new();
        r.push(48 + (n as u8));
        proof {
            assert(r@ =~= spec_decimal(n as nat));
        }
        r
    } else {
        let mut r = decimal_digits(n / 10);
        r.push(48 + ((n % 10) as u8));
        proof {
            assert(r@ =~= spec_decimal(n as nat));
        }
        r
    }
}

} // verus!
