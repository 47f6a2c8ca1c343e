//! The calculator's operations: how they are printed and how a client draws
//! one at random.

use rand::Rng;
use vstd::prelude::*;

verus! {

/// Arithmetic operation of the calculator service.
#[derive(Clone, Copy, Debug, PartialEq, Eq, Structural)]
pub enum Operation {
    Unspecified,
    Add,
    Subtract,
    Multiply,
    Divide,
}

/// The sign of each operation; a question mark for none.
pub open spec fn spec_operation_symbol(operation: Operation) -> Seq<char> {
    match operation {
        Operation::Add => "+"@,
        Operation::Subtract => "-"@,
        Operation::Multiply => "*"@,
        Operation::Divide => "/"@,
        Operation::Unspecified => "?"@,
    }
}

/// The sign under which an operation is printed.
pub fn operation_symbol(operation: Operation) -> (symbol: &'static str)
    ensures
        symbol@ == spec_operation_symbol(operation),
{
    match operation {
        Operation::Add => "+",
        Operation::Subtract => "-",
        Operation::Multiply => "*",
        Operation::Divide => "/",
        Operation::Unspecified => "?",
    }
}

/// The operation that a draw selects: 1 adds, 2 subtracts, 3 multiplies, and
/// every other number divides.
pub open spec fn spec_operation_for_draw(draw: i32) -> Operation {
    if draw == 1 {
        Operation::Add
    } else if draw == 2 {
        Operation::Subtract
    } else if draw == 3 {
        Operation::Multiply
    } else {
        Operation::Divide
    }
}

/// The operation that a draw selects.
pub fn operation_for_draw(draw: i32) -> (operation: Operation)
    ensures
        operation == spec_operation_for_draw(draw),
        operation != Operation::Unspecified,
{
    match draw {
        1 => Operation::Add,
        2 => Operation::Subtract,
        3 => Operation::Multiply,
        _ => Operation::Divide,
    }
}

/// Calls `rand::thread_rng` and `Rng::gen_range` with the range from `low`
/// to `high`, both ends included. Which number comes is left open; it lies
/// in the range. An empty range is left out: the call panics on it.
#[verifier::external_body]
fn draw_between(low: i32, high: i32) -> (draw: i32)
    requires
        low <= high,
    ensures
        low <= draw <= high,
{
    rand::thread_rng().gen_range(low..=high)
}

/// Draws one of the four arithmetic operations at random.
pub fn random_operation() -> (operation: Operation)
    ensures
        operation != Operation::Unspecified,
        exists|draw: i32| 1 <= draw <= 4 && operation == #[trigger] spec_operation_for_draw(draw),
{
    let draw = draw_between(1, 4);
    operation_for_draw(draw)
}

} // verus!
