use vstd::prelude::*;

verus! {

/// Pushes the number 1.
pub const OP_PUSHNUM_1: u8 = 0x51;

/// Pops two numbers and pushes their sum.
pub const OP_ADD: u8 = 0x93;

/// Pushes the number 3.
pub const OP_PUSHNUM_3: u8 = 0x53;

/// Pops two items and pushes whether they are equal.
pub const OP_EQUAL: u8 = 0x87;

/// The witness item that satisfies the leaf script: the number 2, since
/// 2 + 1 == 3.
pub const SATISFYING_WITNESS: u8 = 0x02;

/// The leaf script: add 1 to the operand the witness supplies and require
/// the sum to equal 3.
pub open spec fn leaf_script_bytes() -> Seq<u8> {
    seq![OP_PUSHNUM_1, OP_ADD, OP_PUSHNUM_3, OP_EQUAL]
}

/// Builds the leaf script; every call gives the same bytes.
pub fn locking_script() -> (r: Vec<u8>)
    ensures
        r@ == leaf_script_bytes(),
{
    let mut r: Vec<u8> = Vec::new();
    r.push(OP_PUSHNUM_1);
    r.push(OP_ADD);
    r.push(OP_PUSHNUM_3);
    r.push(OP_EQUAL);
    assert(r@ =~= leaf_script_bytes());
    r
}

} // verus!
