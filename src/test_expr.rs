use vstd::prelude::*;

use crate::text::{int_of_text, parse_i64, same_text};

verus! {

/// The comparisons of a binary `test`.
#[derive(Debug, Clone, Copy, PartialEq, Eq, Structural)]
pub enum BinaryTest {
    Eq,
    Neq,
    Gt,
    GtEq,
    Lt,
    LtEq,
}

/// The comparison that a binary `test` operator names.
pub open spec fn binary_test_named(op: Seq<char>) -> Option<BinaryTest> {
    if op == "="@ || op == "-eq"@ {
        Some(BinaryTest::Eq)
    } else if op == "!="@ || op == "-ne"@ {
        Some(BinaryTest::Neq)
    } else if op == "-gt"@ {
        Some(BinaryTest::Gt)
    } else if op == "-lt"@ {
        Some(BinaryTest::Lt)
    } else if op == "-ge"@ {
        Some(BinaryTest::GtEq)
    } else if op == "-le"@ {
        Some(BinaryTest::LtEq)
    } else {
        None
    }
}

impl BinaryTest {
    /// Whether the comparison holds of two numbers.
    pub open spec fn holds(self, a: int, b: int) -> bool {
        match self {
            BinaryTest::Eq => a == b,
            BinaryTest::Neq => a != b,
            BinaryTest::Gt => a > b,
            BinaryTest::GtEq => a >= b,
            BinaryTest::Lt => a < b,
            BinaryTest::LtEq => a <= b,
        }
    }

    /// The exit status of `test left OP right`: 2 when an operand is not a
    /// 64-bit integer, else 0 when the comparison holds and 1 when not.
    pub open spec fn status(self, left: Seq<char>, right: Seq<char>) -> i32 {
        match (int_of_text(left), int_of_text(right)) {
            (Some(a), Some(b)) => if self.holds(a, b) {
                0
            } else {
                1
            },
            _ => 2,
        }
    }

    /// The comparison named by operator `op`, if any.
    pub fn from_op(op: &str) -> (r: Option<Self>)
        ensures
            r == binary_test_named(op@),
    {
        if same_text(op, "=") || same_text(op, "-eq") {
            Some(BinaryTest::Eq)
        } else if same_text(op, "!=") || same_text(op, "-ne") {
            Some(BinaryTest::Neq)
        } else if same_text(op, "-gt") {
            Some(BinaryTest::Gt)
        } else if same_text(op, "-lt") {
            Some(BinaryTest::Lt)
        } else if same_text(op, "-ge") {
            Some(BinaryTest::GtEq)
        } else if same_text(op, "-le") {
            Some(BinaryTest::LtEq)
        } else {
            None
        }
    }

    /// Compares two operands read as 64-bit integers.
    pub fn compare(&self, left: &str, right: &str) -> (r: i32)
        ensures
            r == self.status(left@, right@),
    {
        let a = match parse_i64(left) {
            Some(a) => a,
            None => {
                return 2;
            },
        };
        let b = match parse_i64(right) {
            Some(b) => b,
            None => {
                return 2;
            },
        };
        let holds = match self {
            BinaryTest::Eq => a == b,
            BinaryTest::Neq => a != b,
            BinaryTest::Gt => a > b,
            BinaryTest::GtEq => a >= b,
            BinaryTest::Lt => a < b,
            BinaryTest::LtEq => a <= b,
        };
        if holds {
            0
        } else {
            1
        }
    }
}

/// The predicates of a unary `test`.
#[derive(Debug, Clone, Copy, PartialEq, Eq, Structural)]
pub enum UnaryTest {
    /// `-f`: names a regular file
    IsFile,
    /// `-d`: names a directory
    IsDir,
    /// `-e`: names something that exists
    Exists,
    /// `-n`: is not empty
    NonEmpty,
    /// `-z`: is empty
    Empty,
}

/// The predicate that a unary `test` operator names.
pub open spec fn unary_test_named(op: Seq<char>) -> Option<UnaryTest> {
    if op == "-f"@ {
        Some(UnaryTest::IsFile)
    } else if op == "-d"@ {
        Some(UnaryTest::IsDir)
    } else if op == "-e"@ {
        Some(UnaryTest::Exists)
    } else if op == "-n"@ {
        Some(UnaryTest::NonEmpty)
    } else if op == "-z"@ {
        Some(UnaryTest::Empty)
    } else {
        None
    }
}

impl UnaryTest {
    /// Whether the predicate asks about the file system.
    pub open spec fn on_files(self) -> bool {
        self is IsFile || self is IsDir || self is Exists
    }

    pub fn from_op(op: &str) -> (r: Option<Self>)
        ensures
            r == unary_test_named(op@),
    {
        if same_text(op, "-f") {
            Some(UnaryTest::IsFile)
        } else if same_text(op, "-d") {
            Some(UnaryTest::IsDir)
        } else if same_text(op, "-e") {
            Some(UnaryTest::Exists)
        } else if same_text(op, "-n") {
            Some(UnaryTest::NonEmpty)
        } else if same_text(op, "-z") {
            Some(UnaryTest::Empty)
        } else {
            None
        }
    }

    /// Whether the predicate asks about the file system.
    pub fn is_on_files(&self) -> (r: bool)
        ensures
            r == self.on_files(),
    {
        match self {
            UnaryTest::IsFile | UnaryTest::IsDir | UnaryTest::Exists => true,
            _ => false,
        }
    }
}

/// The exit status for a predicate's truth: 0 when it holds, 1 when not.
pub open spec fn status_of(b: bool) -> i32 {
    if b {
        0
    } else {
        1
    }
}

} // verus!
