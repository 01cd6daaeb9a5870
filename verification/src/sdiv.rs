//! Matrix-by-scalar division.

use vstd::prelude::*;

use crate::model::sdiv_seq;
use crate::model::zero_seq;
use crate::scalar::Scalar;

verus! {

/// The element-wise scalar quotient `a / s`.  When `s` is the additive
/// identity, every element of the result is the additive identity: the
/// quotient matrix of a zero divisor is the zero matrix, not an error.
pub fn sdiv<'a, T: Scalar>(out: &'a mut [T; 16], a: &[T; 16], s: T) -> (r: &'a mut [T; 16])
    ensures
        r@ == sdiv_seq(a@, s),
        s.spec_is_zero() ==> r@ == zero_seq::<T>(),
        final(out)@ == final(r)@,
{
    let not_zero = !s.is_zero();
    let z: T = T::zero();
    out[0] = if not_zero { a[0].div(s) } else { z };
    out[1] = if not_zero { a[1].div(s) } else { z };
    out[2] = if not_zero { a[2].div(s) } else { z };
    out[3] = if not_zero { a[3].div(s) } else { z };
    out[4] = if not_zero { a[4].div(s) } else { z };
    out[5] = if not_zero { a[5].div(s) } else { z };
    out[6] = if not_zero { a[6].div(s) } else { z };
    out[7] = if not_zero { a[7].div(s) } else { z };
    out[8] = if not_zero { a[8].div(s) } else { z };
    out[9] = if not_zero { a[9].div(s) } else { z };
    out[10] = if not_zero { a[10].div(s) } else { z };
    out[11] = if not_zero { a[11].div(s) } else { z };
    out[12] = if not_zero { a[12].div(s) } else { z };
    out[13] = if not_zero { a[13].div(s) } else { z };
    out[14] = if not_zero { a[14].div(s) } else { z };
    out[15] = if not_zero { a[15].div(s) } else { z };
    proof {
        assert(out@ =~= sdiv_seq(a@, s));
        if s.spec_is_zero() {
            assert(out@ =~= zero_seq::<T>());
        }
    }
    out
}

} // verus!
