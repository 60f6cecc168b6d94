use vstd::prelude::*;

verus! {

/// An optional signed integer: a sum type that is either absent (no payload)
/// or present with exactly one payload. Exactly one variant is active at a
/// time, and a value is consumed by whoever receives it.
#[derive(Clone, Copy, Debug, PartialEq, Eq, Structural)]
pub enum OptionalInt {
    Absent,
    Present(i32),
}

/// Given an optional integer, produce a new optional integer whose payload,
/// if any, is the input's payload plus one. An absent input always yields an
/// absent output. Overflow is left out of the inputs: the payload must be
/// below `i32::MAX`.
pub fn plus_one(v: OptionalInt) -> (r: OptionalInt)
    requires
        v matches OptionalInt::Present(i) ==> i < i32::MAX,
    ensures
        v is Absent ==> r is Absent,
        v matches OptionalInt::Present(i) ==> r == OptionalInt::Present((i + 1) as i32),
{
    match v {
        OptionalInt::Absent => OptionalInt::Absent,
        OptionalInt::Present(i) => OptionalInt::Present(i + 1),
    }
}

/// A lexical block whose trailing line is an expression evaluates to the
/// value of that expression: here the product of the two locals, 6.
pub fn block_expression_value() -> (r: i32)
    ensures
        r == 6,
{
    let v: i32 = {
        let y: i32 = 2;
        let z: i32 = 3;
        y * z
    };
    v
}

/// A lexical block whose trailing line is terminated as a statement yields no
/// value: its result is the unit value, which no integer result can equal,
/// the product having been computed and discarded inside the block.
pub fn block_statement_value() -> (r: ())
    ensures
        r == (),
{
    let v: () = {
        let x: i32 = 2;
        let z: i32 = 3;
        let _product: i32 = x * z;
    };
    v
}

} // verus!
