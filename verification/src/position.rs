use vstd::prelude::*;

verus! {

/// A line/column/source-name triple that tags every token and every
/// diagnostic. Lines and columns are zero-based counters; `source_name`
/// identifies the source unit the position belongs to.
#[derive(Debug, Clone)]
pub struct Position {
    pub line: i64,
    pub column: i64,
    pub source_name: String,
}

/// Mathematical model of a `Position`: unbounded integers and the
/// source name as a character sequence.
pub ghost struct PositionModel {
    pub line: int,
    pub column: int,
    pub source_name: Seq<char>,
}

impl View for Position {
    type V = PositionModel;

    open spec fn view(&self) -> PositionModel {
        PositionModel {
            line: self.line as int,
            column: self.column as int,
            source_name: self.source_name@,
        }
    }
}

impl Position {
    /// A fresh copy of this position with the same line, column and
    /// source name.
    pub fn duplicate(&self) -> (r: Position)
        ensures
            r@ == self@,
    {
        Position {
            line: self.line,
            column: self.column,
            source_name: self.source_name.clone(),
        }
    }
}

} // verus!
