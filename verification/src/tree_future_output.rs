//! The output contract: the types a stored computation may produce.

use vstd::prelude::*;

verus! {

/// Marks a type as a legitimate result of a stored computation and gives it
/// a placeholder value.
///
/// The placeholder is a courtesy to callers who want a fallback when an
/// outcome is absent; the container never asks for it. It is kept apart from
/// `Default` on purpose, so that it cannot collide with a default of the
/// caller's own.
pub trait TreeFutureOutput: Sized {
    /// Whether `self` is the placeholder of its type.
    spec fn is_default(&self) -> bool;

    /// The placeholder of the type: the same value on every call.
    fn return_default() -> (value: Self)
        ensures
            value.is_default(),
    ;
}

impl TreeFutureOutput for u8 {
    open spec fn is_default(&self) -> bool {
        *self == 0
    }

    fn return_default() -> Self {
        0
    }
}

impl TreeFutureOutput for i8 {
    open spec fn is_default(&self) -> bool {
        *self == 0
    }

    fn return_default() -> Self {
        0
    }
}

impl TreeFutureOutput for i16 {
    open spec fn is_default(&self) -> bool {
        *self == 0
    }

    fn return_default() -> Self {
        0
    }
}

impl TreeFutureOutput for i32 {
    open spec fn is_default(&self) -> bool {
        *self == 0
    }

    fn return_default() -> Self {
        0
    }
}

impl TreeFutureOutput for i64 {
    open spec fn is_default(&self) -> bool {
        *self == 0
    }

    fn return_default() -> Self {
        0
    }
}

impl TreeFutureOutput for i128 {
    open spec fn is_default(&self) -> bool {
        *self == 0
    }

    fn return_default() -> Self {
        0
    }
}

impl TreeFutureOutput for isize {
    open spec fn is_default(&self) -> bool {
        *self == 0
    }

    fn return_default() -> Self {
        0
    }
}

impl TreeFutureOutput for u16 {
    open spec fn is_default(&self) -> bool {
        *self == 0
    }

    fn return_default() -> Self {
        0
    }
}

impl TreeFutureOutput for u32 {
    open spec fn is_default(&self) -> bool {
        *self == 0
    }

    fn return_default() -> Self {
        0
    }
}

impl TreeFutureOutput for u64 {
    open spec fn is_default(&self) -> bool {
        *self == 0
    }

    fn return_default() -> Self {
        0
    }
}

impl TreeFutureOutput for u128 {
    open spec fn is_default(&self) -> bool {
        *self == 0
    }

    fn return_default() -> Self {
        0
    }
}

impl TreeFutureOutput for usize {
    open spec fn is_default(&self) -> bool {
        *self == 0
    }

    fn return_default() -> Self {
        0
    }
}

impl TreeFutureOutput for String {
    open spec fn is_default(&self) -> bool {
        self@ == Seq::<char>::empty()
    }

    fn return_default() -> Self {
        String::new()
    }
}

impl TreeFutureOutput for &str {
    open spec fn is_default(&self) -> bool {
        self@ == Seq::<char>::empty()
    }

    fn return_default() -> Self {
        let empty = "";
        proof {
            reveal_strlit("");
            assert(empty@ =~= Seq::<char>::empty());
        }
        empty
    }
}

} // verus!
