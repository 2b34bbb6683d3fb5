//! Plain values that execution results and errors carry.

use vstd::prelude::*;

verus! {

/// The address of an account.
#[derive(Debug, Clone, Copy, PartialEq, Eq, Hash)]
pub struct Address(pub [u8; 20]);

/// A word of 32 bytes, such as a hash or the topic of a log.
#[derive(Debug, Clone, Copy, PartialEq, Eq, Hash)]
pub struct B256(pub [u8; 32]);

/// A string of bytes.
#[derive(Debug, Clone, PartialEq, Eq, Hash)]
pub struct Bytes(pub Vec<u8>);

impl View for Bytes {
    type V = Seq<u8>;

    open spec fn view(&self) -> Seq<u8> {
        self.0@
    }
}

/// A log that a contract has emitted.
#[derive(Debug, Clone, PartialEq, Eq, Hash)]
pub struct Log {
    /// The contract that emitted the log.
    pub address: Address,
    /// The topics by which the log can be found.
    pub topics: Vec<B256>,
    /// The data that goes with the topics.
    pub data: Bytes,
}

/// An unsigned integer of 256 bits.
///
/// It is held in four limbs of 64 bits, the least significant one first.
#[derive(Debug, Clone, Copy, PartialEq, Eq, Hash)]
pub struct U256 {
    pub limbs: [u64; 4],
}

/// The integer that four limbs stand for, the least significant limb first.
pub open spec fn limbs_value(limbs: Seq<u64>) -> nat
    recommends
        limbs.len() == 4,
{
    (limbs[0] + limbs[1] * 0x1_0000_0000_0000_0000
        + limbs[2] * 0x1_0000_0000_0000_0000_0000_0000_0000_0000
        + limbs[3] * 0x1_0000_0000_0000_0000_0000_0000_0000_0000_0000_0000_0000_0000) as nat
}

impl View for U256 {
    type V = nat;

    open spec fn view(&self) -> nat {
        limbs_value(self.limbs@)
    }
}

/// One step of a long division by ten: the quotient and the remainder of the
/// two-limb number whose upper limb is `carry` and whose lower limb is `limb`.
fn div_rem_ten_limb(carry: u64, limb: u64) -> (r: (u64, u64))
    requires
        carry < 10,
    ensures
        carry * 0x1_0000_0000_0000_0000 + limb == r.0 * 10 + r.1,
        r.1 < 10,
{
    let wide: u128 = carry as u128 * 0x1_0000_0000_0000_0000u128 + limb as u128;
    let quotient: u128 = wide / 10;
    let remainder: u128 = wide % 10;
    (quotient as u64, remainder as u64)
}

impl U256 {
    /// A `u64`, widened.
    pub fn from_u64(value: u64) -> (r: U256)
        ensures
            r@ == value,
    {
        U256 { limbs: [value, 0, 0, 0] }
    }

    /// Whether the number is zero.
    pub fn is_zero(&self) -> (r: bool)
        ensures
            r == (self@ == 0),
    {
        self.limbs[0] == 0 && self.limbs[1] == 0 && self.limbs[2] == 0 && self.limbs[3] == 0
    }

    /// Quotient and remainder of a division by ten.
    pub fn div_rem_ten(&self) -> (r: (U256, u64))
        ensures
            r.0@ == self@ / 10,
            r.1 == self@ % 10,
    {
        let (q3, r3) = div_rem_ten_limb(0, self.limbs[3]);
        let (q2, r2) = div_rem_ten_limb(r3, self.limbs[2]);
        let (q1, r1) = div_rem_ten_limb(r2, self.limbs[1]);
        let (q0, r0) = div_rem_ten_limb(r1, self.limbs[0]);
        let quotient = U256 { limbs: [q0, q1, q2, q3] };
        assert(self@ == quotient@ * 10 + r0);
        (quotient, r0)
    }
}

/// No two numbers have the same value.
pub proof fn law_u256_value_is_unique(a: U256, b: U256)
    requires
        a@ == b@,
    ensures
        a == b,
{
    assert(a.limbs@[0] == b.limbs@[0] && a.limbs@[1] == b.limbs@[1] && a.limbs@[2] == b.limbs@[2]
        && a.limbs@[3] == b.limbs@[3]);
    assert(a.limbs =~= b.limbs);
}

/// The limbs of a number are its digits to the base of two to the power of 64,
/// the least significant one first.
pub proof fn law_limbs_are_digits(number: U256)
    ensures
        number@ % 0x1_0000_0000_0000_0000nat == number.limbs@[0],
        (number@ / 0x1_0000_0000_0000_0000nat) % 0x1_0000_0000_0000_0000nat == number.limbs@[1],
        (number@ / 0x1_0000_0000_0000_0000_0000_0000_0000_0000nat) % 0x1_0000_0000_0000_0000nat
            == number.limbs@[2],
        number@ / 0x1_0000_0000_0000_0000_0000_0000_0000_0000_0000_0000_0000_0000nat
            == number.limbs@[3],
{
}

/// What is asked of a number is answered by its value: a `u64` keeps its value
/// when it is widened, only zero is zero, and a division by ten gives the
/// quotient and the remainder.
pub proof fn law_arithmetic_goes_by_value(
    value: u64,
    wide: U256,
    number: U256,
    zero: bool,
    quotient: U256,
    remainder: u64,
)
    ensures
        call_ensures(U256::from_u64, (value,), wide) ==> wide@ == value,
        call_ensures(U256::is_zero, (&number,), zero) ==> (zero <==> number@ == 0),
        call_ensures(U256::div_rem_ten, (&number,), (quotient, remainder)) ==> {
            &&& number@ == 10 * quotient@ + remainder
            &&& remainder < 10
        },
{
}

} // verus!
