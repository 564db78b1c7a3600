use vstd::prelude::*;

verus! {

/// A board coordinate that wraps around both axes.
#[derive(PartialEq, Eq, Structural, Debug, Copy, Clone)]
pub struct Position(pub i8, pub i8);

/// Euclidean remainder of `a` by a positive modulus `m`, computed without
/// signed remainder operations.
fn wrap_coord(a: i8, m: i8) -> (r: i8)
    requires
        m > 0,
    ensures
        r == a as int % m as int,
{
    let ai: i32 = a as i32;
    let mi: i32 = m as i32;
    if ai >= 0 {
        (ai % mi) as i8
    } else {
        let k: i32 = (-ai - 1) % mi;
        proof {
            let q: int = (-ai - 1) as int / mi as int;
            vstd::arithmetic::div_mod::lemma_fundamental_div_mod((-ai - 1) as int, mi as int);
            vstd::arithmetic::div_mod::lemma_mod_bound((-ai - 1) as int, mi as int);
            assert(ai as int == (-q - 1) * mi as int + (mi as int - 1 - k as int)) by (nonlinear_arith)
                requires
                    (-ai - 1) as int == q * mi as int + k as int,
            ;
            vstd::arithmetic::div_mod::lemma_fundamental_div_mod_converse(
                ai as int,
                mi as int,
                -q - 1,
                mi as int - 1 - k as int,
            );
        }
        (mi - 1 - k) as i8
    }
}

impl Position {
    /// Wraps both coordinates into `[0, xmax) x [0, ymax)`.
    pub fn wrap(&self, xmax: i8, ymax: i8) -> (r: Position)
        requires
            xmax > 0,
            ymax > 0,
        ensures
            r.0 == self.0 as int % xmax as int,
            r.1 == self.1 as int % ymax as int,
    {
        Position(wrap_coord(self.0, xmax), wrap_coord(self.1, ymax))
    }
}

} // verus!
