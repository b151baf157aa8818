//! The endless stream of intensities that a finite list of columns stands
//! for: the columns from left to right, each from top to bottom, then one
//! blank column, then the same again.

use vstd::prelude::*;
use vstd::arithmetic::div_mod::lemma_fundamental_div_mod_converse;
use crate::error::{DrawError, InputFault};

verus! {

/// One horizontal pixel of the image: seven intensities, top to bottom.
pub type Column = [u8; 7];

/// How many values one pass over `columns` yields: the columns and the blank
/// column after them.
pub open spec fn period(columns: Seq<Column>) -> int {
    7 * (columns.len() as int + 1)
}

/// The value at place `offset` of one pass, `0 <= offset < period(columns)`.
pub open spec fn pass_value(columns: Seq<Column>, offset: int) -> u8 {
    if offset < 7 * columns.len() {
        columns[offset / 7]@[offset % 7]
    } else {
        0
    }
}

/// The intensity of the `index`-th value of the stream, counted from 0.
pub open spec fn intensity(columns: Seq<Column>, index: int) -> u8 {
    pass_value(columns, index % period(columns))
}

/// The sum of the first `count` values of the stream.
pub open spec fn total_intensity(columns: Seq<Column>, count: nat) -> nat
    decreases count,
{
    if count == 0 {
        0
    } else {
        total_intensity(columns, (count - 1) as nat) + intensity(columns, count - 1) as nat
    }
}

/// The stream repeats after one pass, and within a pass it shows each column
/// in turn and then seven zeros.
pub proof fn lemma_stream_tiles(columns: Seq<Column>, pass: nat, column: int, row: int)
    requires
        0 <= column <= columns.len(),
        0 <= row < 7,
    ensures
        intensity(columns, pass * period(columns) + 7 * column + row) == if column
            < columns.len() {
            columns[column]@[row]
        } else {
            0u8
        },
{
    let m = period(columns);
    let offset = 7 * column + row;
    lemma_fundamental_div_mod_converse(pass * m + offset, m, pass as int, offset);
}

/// Shifting the stream by one pass changes nothing.
pub proof fn lemma_stream_periodic(columns: Seq<Column>, index: nat)
    ensures
        intensity(columns, index + period(columns)) == intensity(columns, index as int),
{
    let m = period(columns);
    let q = index as int / m;
    let r = index as int % m;
    vstd::arithmetic::div_mod::lemma_fundamental_div_mod(index as int, m);
    assert((q + 1) * m + r == index + m) by (nonlinear_arith)
        requires
            index == m * q + r,
    ;
    vstd::arithmetic::div_mod::lemma_mod_bound(index as int, m);
    lemma_fundamental_div_mod_converse(index + m, m, q + 1, r);
}

/// The sum of the stream grows with the number of values that are summed.
pub proof fn lemma_total_grows(columns: Seq<Column>, fewer: nat, more: nat)
    requires
        fewer <= more,
    ensures
        total_intensity(columns, fewer) <= total_intensity(columns, more),
    decreases more,
{
    if fewer < more {
        lemma_total_grows(columns, fewer, (more - 1) as nat);
    }
}

/// Columns that are blank throughout give a stream of zeros, which adds up
/// to nothing.
pub proof fn lemma_blank_stream(columns: Seq<Column>, count: nat)
    requires
        forall|x: int, y: int|
            0 <= x < columns.len() && 0 <= y < 7 ==> (#[trigger] columns[x]@[y]) == 0,
    ensures
        forall|i: int| 0 <= i < count ==> intensity(columns, i) == 0,
        total_intensity(columns, count) == 0,
    decreases count,
{
    if count > 0 {
        lemma_blank_stream(columns, (count - 1) as nat);
        assert forall|i: int| 0 <= i < count implies intensity(columns, i) == 0 by {
            let offset = i % period(columns);
            vstd::arithmetic::div_mod::lemma_mod_bound(i, period(columns));
            if offset < 7 * columns.len() {
                assert(columns[offset / 7]@[offset % 7] == 0);
            }
        }
    }
}

/// A cursor into the stream of a list of columns. It borrows the columns,
/// keeps two indices into them, and yields the stream value by value without
/// end.
pub struct PatternTiler<'a> {
    columns: &'a [Column],
    column: usize,
    row: usize,
    passes: Ghost<nat>,
}

impl<'a> PatternTiler<'a> {
    #[verifier::type_invariant]
    spec fn well_formed(self) -> bool {
        &&& self.columns@.len() >= 1
        &&& self.column <= self.columns@.len()
        &&& self.row < 7
    }

    /// The columns that the stream repeats.
    pub closed spec fn columns(self) -> Seq<Column> {
        self.columns@
    }

    /// How many values have been taken from the stream.
    pub closed spec fn position(self) -> nat {
        (self.passes@ * period(self.columns@) + 7 * self.column + self.row) as nat
    }

    /// The stream of `columns`, at its beginning. A stream needs at least one
    /// column.
    pub fn new(columns: &'a [Column]) -> (r: Result<PatternTiler<'a>, DrawError>)
        ensures
            match r {
                Ok(tiler) => columns@.len() > 0 && tiler.columns() == columns@ && tiler.position()
                    == 0,
                Err(e) => columns@.len() == 0 && e == DrawError::InvalidInput(InputFault::NoColumns),
            },
    {
        if columns.len() == 0 {
            Err(DrawError::InvalidInput(InputFault::NoColumns))
        } else {
            Ok(PatternTiler { columns, column: 0, row: 0, passes: Ghost(0) })
        }
    }

    /// The next value of the stream, which stays where it is.
    pub fn peek(&self) -> (r: u8)
        ensures
            r == intensity(self.columns(), self.position() as int),
    {
        proof {
            use_type_invariant(self);
            lemma_stream_tiles(self.columns@, self.passes@, self.column as int, self.row as int);
        }
        if self.column < self.columns.len() {
            self.columns[self.column][self.row]
        } else {
            0
        }
    }

    /// Takes the next value from the stream.
    pub fn next(&mut self) -> (r: u8)
        ensures
            r == intensity(old(self).columns(), old(self).position() as int),
            final(self).columns() == old(self).columns(),
            final(self).position() == old(self).position() + 1,
    {
        proof {
            use_type_invariant(&*self);
            lemma_stream_tiles(self.columns@, self.passes@, self.column as int, self.row as int);
        }
        let value: u8 = if self.column < self.columns.len() {
            self.columns[self.column][self.row]
        } else {
            0
        };
        let ghost before = self.passes@ * period(self.columns@) + 7 * self.column + self.row;
        if self.row + 1 < 7 {
            self.row = self.row + 1;
        } else if self.column < self.columns.len() {
            self.row = 0;
            self.column = self.column + 1;
        } else {
            proof {
                assert((self.passes@ + 1) * period(self.columns@) == self.passes@ * period(
                    self.columns@,
                ) + period(self.columns@)) by (nonlinear_arith);
            }
            self.row = 0;
            self.column = 0;
            self.passes = Ghost((self.passes@ + 1) as nat);
        }
        assert(self.passes@ * period(self.columns@) + 7 * self.column + self.row == before + 1);
        value
    }

    /// Goes back to the beginning of the stream.
    pub fn restart(&mut self)
        ensures
            final(self).columns() == old(self).columns(),
            final(self).position() == 0,
    {
        proof {
            use_type_invariant(&*self);
        }
        self.row = 0;
        self.column = 0;
        self.passes = Ghost(0);
    }

    /// The number of columns that the stream repeats.
    pub fn width(&self) -> (r: usize)
        ensures
            r == self.columns().len(),
            r >= 1,
    {
        proof {
            use_type_invariant(self);
        }
        self.columns.len()
    }
}

/// The first `count` values of the stream of `columns`.
pub fn stream_prefix(columns: &[Column], count: usize) -> (r: Result<Vec<u8>, DrawError>)
    ensures
        match r {
            Ok(values) => {
                &&& columns@.len() > 0
                &&& values@.len() == count
                &&& forall|i: int| 0 <= i < count ==> values@[i] == intensity(columns@, i)
            },
            Err(e) => columns@.len() == 0 && e == DrawError::InvalidInput(InputFault::NoColumns),
        },
{
    let ghost source = columns@;
    let mut tiler = match PatternTiler::new(columns) {
        Ok(t) => t,
        Err(e) => {
            return Err(e);
        },
    };
    let mut values: Vec<u8> = Vec::new();
    while values.len() < count
        invariant
            tiler.columns() == source,
            tiler.position() == values@.len(),
            values@.len() <= count,
            forall|i: int| 0 <= i < values@.len() ==> values@[i] == intensity(source, i),
        decreases count - values@.len(),
    {
        let value = tiler.next();
        values.push(value);
    }
    Ok(values)
}

} // verus!
