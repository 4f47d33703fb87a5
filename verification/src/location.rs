//! The identity of a call site: where in the source a plot is requested.

use vstd::prelude::*;
use vstd::std_specs::cmp::PartialEqSpecImpl;
use crate::text::str_equal;

verus! {

/// A call site: source file, line and column.
#[derive(Clone, Copy, Debug, Eq, Hash)]
pub struct Location {
    pub file: &'static str,
    pub line: u32,
    pub column: u32,
}

/// What a location is made of: the characters of the file's path, the line
/// and the column.
pub struct LocationView {
    pub file: Seq<char>,
    pub line: u32,
    pub column: u32,
}

impl View for Location {
    type V = LocationView;

    open spec fn view(&self) -> LocationView {
        LocationView { file: self.file@, line: self.line, column: self.column }
    }
}

/// The decimal digit for `d`.
pub open spec fn digit(d: nat) -> char
    recommends
        d < 10,
{
    ((48 + d) as u8) as char
}

/// The decimal numeral of `n`, without leading zeros.
pub open spec fn decimal(n: nat) -> Seq<char>
    decreases n,
{
    if n < 10 {
        seq![digit(n)]
    } else {
        decimal(n / 10).push(digit(n % 10))
    }
}

impl LocationView {
    /// The text of a location: file, line and column with colons between.
    pub open spec fn text(self) -> Seq<char> {
        self.file + seq![':'] + decimal(self.line as nat) + seq![':'] + decimal(self.column as nat)
    }
}

/// Appends the decimal numeral of `n` to `out`.
pub fn push_decimal(out: &mut String, n: u32)
    ensures
        final(out)@ == old(out)@ + decimal(n as nat),
    decreases n,
{
    if n >= 10 {
        push_decimal(out, n / 10);
    }
    let d: u8 = (n % 10) as u8;
    let c: char = (48u8 + d) as char;
    assert(c == digit((n % 10) as nat));
    out.push(c);
    assert(n < 10 ==> old(out)@.push(c) == old(out)@ + seq![c]);
    assert(n >= 10 ==> (old(out)@ + decimal((n / 10) as nat)).push(c) == old(out)@ + decimal(
        (n / 10) as nat,
    ).push(c));
}

impl Location {
    /// The text of the location, which is also the caption of a plot that was
    /// given none: `file:line:column`.
    pub fn to_string(&self) -> (r: String)
        ensures
            r@ == self@.text(),
    {
        let mut out = String::from_str(self.file);
        out.push(':');
        push_decimal(&mut out, self.line);
        out.push(':');
        push_decimal(&mut out, self.column);
        assert(out@ == self@.text());
        out
    }
}

impl PartialEq for Location {
    fn eq(&self, other: &Location) -> (r: bool) {
        str_equal(self.file, other.file) && self.line == other.line && self.column == other.column
    }
}

impl PartialEqSpecImpl for Location {
    open spec fn obeys_eq_spec() -> bool {
        true
    }

    open spec fn eq_spec(&self, other: &Location) -> bool {
        self@ == other@
    }
}

} // verus!
