//! Arithmetic on the machine's 32-bit signed words.
//!
//! Every operation is total except division and remainder by zero. Sums,
//! differences and products that leave the 32-bit range wrap around in two's
//! complement; quotients round towards zero.

use vstd::prelude::*;

verus! {

/// The 32-bit signed word that is congruent to `x` modulo 2^32.
pub open spec fn wrap(x: int) -> i32 {
    let r = x % 0x1_0000_0000;
    if r > i32::MAX {
        (r - 0x1_0000_0000) as i32
    } else {
        r as i32
    }
}

/// Quotient of `a` by `b`, rounded towards zero.
pub open spec fn trunc_div(a: int, b: int) -> int
    recommends
        b != 0,
{
    if a >= 0 && b > 0 {
        a / b
    } else if a < 0 && b < 0 {
        (-a) / (-b)
    } else if a < 0 {
        -((-a) / b)
    } else {
        -(a / (-b))
    }
}

/// Remainder that goes with `trunc_div`: it takes the sign of `a`.
pub open spec fn trunc_rem(a: int, b: int) -> int
    recommends
        b != 0,
{
    if a >= 0 && b > 0 {
        a % b
    } else if a < 0 && b < 0 {
        -((-a) % (-b))
    } else if a < 0 {
        -((-a) % b)
    } else {
        a % (-b)
    }
}

/// The word that stands for a truth value: 1 for true, 0 for false.
pub open spec fn truth(b: bool) -> i32 {
    if b {
        1
    } else {
        0
    }
}

/// The distance by which a shift moves bits: the operand reduced modulo 32.
pub open spec fn shift_distance(b: i32) -> u32 {
    (b % 32) as u32
}

/// Operations that take two operands from the stack and leave one result.
#[derive(Clone, Copy, Debug, PartialEq, Eq, Structural)]
pub enum BinaryOp {
    Add,
    Sub,
    Mul,
    Div,
    Rem,
    Eq,
    Ne,
    Le,
    Ge,
    Lt,
    Gt,
    And,
    Or,
    Xor,
    Shl,
    Shr,
}

/// Operations that replace the top of the stack by a function of it.
#[derive(Clone, Copy, Debug, PartialEq, Eq, Structural)]
pub enum UnaryOp {
    Neg,
    Inc,
    Dec,
    Not,
    Bool,
}

impl BinaryOp {
    /// The result of the operation on left operand `a` and right operand `b`,
    /// or `None` where it has none: division and remainder by zero.
    pub open spec fn result(self, a: i32, b: i32) -> Option<i32> {
        match self {
            BinaryOp::Add => Some(wrap(a + b)),
            BinaryOp::Sub => Some(wrap(a - b)),
            BinaryOp::Mul => Some(wrap(a * b)),
            BinaryOp::Div => if b == 0 {
                None
            } else {
                Some(wrap(trunc_div(a as int, b as int)))
            },
            BinaryOp::Rem => if b == 0 {
                None
            } else {
                Some(wrap(trunc_rem(a as int, b as int)))
            },
            BinaryOp::Eq => Some(truth(a == b)),
            BinaryOp::Ne => Some(truth(a != b)),
            BinaryOp::Le => Some(truth(a <= b)),
            BinaryOp::Ge => Some(truth(a >= b)),
            BinaryOp::Lt => Some(truth(a < b)),
            BinaryOp::Gt => Some(truth(a > b)),
            BinaryOp::And => Some(a & b),
            BinaryOp::Or => Some(a | b),
            BinaryOp::Xor => Some(a ^ b),
            BinaryOp::Shl => Some(a << shift_distance(b)),
            BinaryOp::Shr => Some(a >> shift_distance(b)),
        }
    }

    /// Whether the operation is one of the six comparisons.
    pub open spec fn is_comparison(self) -> bool {
        self == BinaryOp::Eq || self == BinaryOp::Ne || self == BinaryOp::Le || self
            == BinaryOp::Ge || self == BinaryOp::Lt || self == BinaryOp::Gt
    }

    /// Computes the operation on left operand `a` and right operand `b`.
    pub fn apply(self, a: i32, b: i32) -> (r: Option<i32>)
        ensures
            r == self.result(a, b),
    {
        match self {
            BinaryOp::Add => Some(a.wrapping_add(b)),
            BinaryOp::Sub => Some(a.wrapping_sub(b)),
            BinaryOp::Mul => Some(a.wrapping_mul(b)),
            BinaryOp::Div => {
                if b == 0 {
                    None
                } else {
                    // The one quotient out of range, MIN / -1, wraps to MIN.
                    match a.checked_div(b) {
                        Some(q) => Some(q),
                        None => Some(i32::MIN),
                    }
                }
            },
            BinaryOp::Rem => {
                if b == 0 {
                    None
                } else {
                    match a.checked_rem(b) {
                        Some(q) => Some(q),
                        None => Some(0),
                    }
                }
            },
            BinaryOp::Eq => Some(flag(a == b)),
            BinaryOp::Ne => Some(flag(a != b)),
            BinaryOp::Le => Some(flag(a <= b)),
            BinaryOp::Ge => Some(flag(a >= b)),
            BinaryOp::Lt => Some(flag(a < b)),
            BinaryOp::Gt => Some(flag(a > b)),
            BinaryOp::And => Some(a & b),
            BinaryOp::Or => Some(a | b),
            BinaryOp::Xor => Some(a ^ b),
            BinaryOp::Shl => {
                let r: i32 = a.wrapping_shl(distance(b));
                Some(r)
            },
            BinaryOp::Shr => {
                let r: i32 = a.wrapping_shr(distance(b));
                assert(r == a >> shift_distance(b));
                Some(r)
            },
        }
    }
}

impl UnaryOp {
    /// The result of the operation on operand `a`.
    pub open spec fn result(self, a: i32) -> i32 {
        match self {
            UnaryOp::Neg => wrap(-a),
            UnaryOp::Inc => wrap(a + 1),
            UnaryOp::Dec => wrap(a - 1),
            UnaryOp::Not => !a,
            UnaryOp::Bool => truth(a != 0),
        }
    }

    /// Computes the operation on operand `a`.
    pub fn apply(self, a: i32) -> (r: i32)
        ensures
            r == self.result(a),
    {
        match self {
            UnaryOp::Neg => 0i32.wrapping_sub(a),
            UnaryOp::Inc => a.wrapping_add(1),
            UnaryOp::Dec => a.wrapping_sub(1),
            UnaryOp::Not => !a,
            UnaryOp::Bool => flag(a != 0),
        }
    }
}

fn flag(b: bool) -> (r: i32)
    ensures
        r == truth(b),
{
    if b {
        1
    } else {
        0
    }
}

fn distance(b: i32) -> (r: u32)
    ensures
        r == shift_distance(b),
        r < 32,
{
    match b.checked_rem_euclid(32) {
        Some(m) => m as u32,
        None => 0,
    }
}

/// A comparison leaves 1 where the relation holds between the operands and 0
/// where it does not.
pub proof fn lemma_comparison_is_boolean(op: BinaryOp, a: i32, b: i32)
    requires
        op.is_comparison(),
    ensures
        op.result(a, b) == Some(1i32) || op.result(a, b) == Some(0i32),
        op == BinaryOp::Eq ==> (op.result(a, b) == Some(1i32) <==> a == b),
        op == BinaryOp::Ne ==> (op.result(a, b) == Some(1i32) <==> a != b),
        op == BinaryOp::Le ==> (op.result(a, b) == Some(1i32) <==> a <= b),
        op == BinaryOp::Ge ==> (op.result(a, b) == Some(1i32) <==> a >= b),
        op == BinaryOp::Lt ==> (op.result(a, b) == Some(1i32) <==> a < b),
        op == BinaryOp::Gt ==> (op.result(a, b) == Some(1i32) <==> a > b),
{
}

/// A result that fits in a word is not changed by wrapping.
pub proof fn lemma_wrap_in_range(x: int)
    requires
        i32::MIN <= x <= i32::MAX,
    ensures
        wrap(x) == x,
{
}

/// Negation undoes itself, and `Inc` and `Dec` undo each other, also where
/// they wrap around.
pub proof fn lemma_unary_inverses(a: i32)
    ensures
        UnaryOp::Neg.result(UnaryOp::Neg.result(a)) == a,
        UnaryOp::Dec.result(UnaryOp::Inc.result(a)) == a,
        UnaryOp::Inc.result(UnaryOp::Dec.result(a)) == a,
{
}

/// Quotient and remainder take the dividend apart: `a == b * q + r`, where
/// the remainder is smaller than the divisor in magnitude and has the sign of
/// the dividend.
pub proof fn lemma_division_identity(a: int, b: int)
    requires
        b != 0,
    ensures
        a == b * trunc_div(a, b) + trunc_rem(a, b),
        a >= 0 ==> 0 <= trunc_rem(a, b),
        a <= 0 ==> trunc_rem(a, b) <= 0,
        b > 0 ==> -b < trunc_rem(a, b) < b,
        b < 0 ==> b < trunc_rem(a, b) < -b,
{
    let x: int = if a < 0 { -a } else { a };
    let d: int = if b < 0 { -b } else { b };
    vstd::arithmetic::div_mod::lemma_fundamental_div_mod(x, d);
    vstd::arithmetic::div_mod::lemma_mod_bound(x, d);
    let q: int = x / d;
    let r: int = x % d;
    if a >= 0 && b > 0 {
    } else if a < 0 && b < 0 {
        assert(a == b * q + (-r)) by (nonlinear_arith)
            requires
                x == d * q + r,
                x == -a,
                d == -b,
        ;
    } else if a < 0 {
        assert(a == b * (-q) + (-r)) by (nonlinear_arith)
            requires
                x == d * q + r,
                x == -a,
                d == b,
        ;
    } else {
        assert(a == b * (-q) + r) by (nonlinear_arith)
            requires
                x == d * q + r,
                x == a,
                d == -b,
        ;
    }
}

} // verus!
