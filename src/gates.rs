use vstd::prelude::*;

verus! {

/// A two-input logic gate; `Not` reads only its first input.
#[derive(Debug)]
pub enum LogicGate {
    And,
    Or,
    Xor,
    Not,
}

/// The output of `gate` on the inputs `(a, b)`.
pub open spec fn gate_output(gate: LogicGate, a: bool, b: bool) -> bool {
    match gate {
        LogicGate::And => a && b,
        LogicGate::Or => a || b,
        LogicGate::Xor => a != b,
        LogicGate::Not => !a,
    }
}

/// Simulates `gate` on a pair of inputs.
pub fn solve(gate: LogicGate, input: (bool, bool)) -> (r: bool)
    ensures
        r == gate_output(gate, input.0, input.1),
{
    match gate {
        LogicGate::And => input.0 && input.1,
        LogicGate::Or => input.0 || input.1,
        LogicGate::Xor => input.0 != input.1,
        LogicGate::Not => !input.0,
    }
}

} // verus!
