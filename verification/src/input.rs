//! What the player asks for in a frame.

use vstd::prelude::*;

verus! {

/// One thing the player asks for. A turn comes with its rate, a length of
/// the caller's kind.
#[derive(Debug, Clone, Copy)]
pub enum Operation<S> {
    Left(S),
    Right(S),
    Forward,
    Back,
    StrafeLeft,
    StrafeRight,
    Shoot,
}

impl<S> Operation<S> {
    /// What is asked for, whatever the rate: two operations of one kind are
    /// the same wish.
    pub open spec fn kind(self) -> int {
        match self {
            Operation::Left(_) => 0,
            Operation::Right(_) => 1,
            Operation::Forward => 2,
            Operation::Back => 3,
            Operation::StrafeLeft => 4,
            Operation::StrafeRight => 5,
            Operation::Shoot => 6,
        }
    }

    pub fn same_kind(&self, other: &Self) -> (same: bool)
        ensures
            same == (self.kind() == other.kind()),
    {
        match (self, other) {
            (Operation::Left(_), Operation::Left(_)) => true,
            (Operation::Right(_), Operation::Right(_)) => true,
            (Operation::Forward, Operation::Forward) => true,
            (Operation::Back, Operation::Back) => true,
            (Operation::StrafeLeft, Operation::StrafeLeft) => true,
            (Operation::StrafeRight, Operation::StrafeRight) => true,
            (Operation::Shoot, Operation::Shoot) => true,
            _ => false,
        }
    }
}

/// Some operation of the list is of the kind `kind`.
pub open spec fn asks_for<S>(operations: Seq<Operation<S>>, kind: int) -> bool {
    exists|i: int| 0 <= i < operations.len() && (#[trigger] operations[i]).kind() == kind
}

/// The wishes of a frame, each once: of the operations of one kind the first
/// stays, and those that stay keep their order.
pub open spec fn unique_input<S>(input: Seq<Operation<S>>) -> Seq<Operation<S>>
    decreases input.len(),
{
    if input.len() == 0 {
        Seq::empty()
    } else {
        let before = unique_input(input.drop_last());
        if asks_for(before, input.last().kind()) {
            before
        } else {
            before.push(input.last())
        }
    }
}

/// Nothing is lost and nothing made up: what the list of wishes asks for is
/// just what the input asks for.
pub proof fn unique_input_asks_the_same<S>(input: Seq<Operation<S>>, kind: int)
    ensures
        asks_for(unique_input(input), kind) == asks_for(input, kind),
    decreases input.len(),
{
    if input.len() > 0 {
        let front = input.drop_last();
        let before = unique_input(front);
        unique_input_asks_the_same(front, kind);
        unique_input_asks_the_same(front, input.last().kind());
        if asks_for(input, kind) {
            let i = choose|i: int| 0 <= i < input.len() && (#[trigger] input[i]).kind() == kind;
            if i < input.len() - 1 {
                assert(front[i].kind() == kind);
                let j = choose|j: int|
                    0 <= j < before.len() && (#[trigger] before[j]).kind() == kind;
                assert(unique_input(input)[j].kind() == kind);
            } else if !asks_for(before, kind) {
                assert(unique_input(input)[before.len() as int].kind() == kind);
            }
        }
        if asks_for(unique_input(input), kind) {
            let j = choose|j: int|
                0 <= j < unique_input(input).len() && (#[trigger] unique_input(input)[j]).kind()
                    == kind;
            if j < before.len() {
                assert(before[j].kind() == kind);
            } else {
                assert(input[input.len() - 1].kind() == kind);
            }
        }
    }
}

/// No wish is listed twice.
pub proof fn unique_input_is_unique<S>(input: Seq<Operation<S>>, i: int, j: int)
    requires
        0 <= i < j < unique_input(input).len(),
    ensures
        unique_input(input)[i].kind() != unique_input(input)[j].kind(),
    decreases input.len(),
{
    if input.len() > 0 {
        let before = unique_input(input.drop_last());
        if j < before.len() {
            unique_input_is_unique(input.drop_last(), i, j);
        } else {
            assert(!asks_for(before, input.last().kind()));
        }
    }
}

fn is_asked_for<S>(operations: &Vec<Operation<S>>, operation: &Operation<S>) -> (asked: bool)
    ensures
        asked == asks_for(operations@, operation.kind()),
{
    let mut i: usize = 0;
    while i < operations.len()
        invariant
            i <= operations.len(),
            forall|k: int| 0 <= k < i ==> (#[trigger] operations@[k]).kind() != operation.kind(),
        decreases operations.len() - i,
    {
        if operations[i].same_kind(operation) {
            return true;
        }
        i += 1;
    }
    false
}

/// Lists each wish of the input once.
pub fn get_unique_input<S: Copy>(input: Vec<Operation<S>>) -> (operations: Vec<Operation<S>>)
    ensures
        operations@ == unique_input(input@),
{
    let mut operations: Vec<Operation<S>> = Vec::new();
    let mut i: usize = 0;
    while i < input.len()
        invariant
            i <= input.len(),
            operations@ == unique_input(input@.take(i as int)),
        decreases input.len() - i,
    {
        assert(input@.take(i as int + 1).drop_last() =~= input@.take(i as int));
        if !is_asked_for(&operations, &input[i]) {
            operations.push(input[i]);
        }
        i += 1;
    }
    assert(input@.take(i as int) =~= input@);
    operations
}

} // verus!
