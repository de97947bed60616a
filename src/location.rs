use vstd::prelude::*;
use vstd::string::StringExecFns;

verus! {

/// The ten decimal digits, in order.
pub open spec fn digit_chars() -> Seq<char> {
    seq!['0', '1', '2', '3', '4', '5', '6', '7', '8', '9']
}

/// The decimal rendering of `n`, without leading zeros.
pub open spec fn decimal(n: nat) -> Seq<char>
    decreases n,
{
    if n < 10 {
        seq![digit_chars()[n as int]]
    } else {
        decimal(n / 10).push(digit_chars()[(n % 10) as int])
    }
}

fn digit_str(d: u64) -> (r: &'static str)
    requires
        d < 10,
    ensures
        r@ == seq![digit_chars()[d as int]],
{
    proof {
        reveal_strlit("0");
        reveal_strlit("1");
        reveal_strlit("2");
        reveal_strlit("3");
        reveal_strlit("4");
        reveal_strlit("5");
        reveal_strlit("6");
        reveal_strlit("7");
        reveal_strlit("8");
        reveal_strlit("9");
    }
    match d {
        0 => "0",
        1 => "1",
        2 => "2",
        3 => "3",
        4 => "4",
        5 => "5",
        6 => "6",
        7 => "7",
        8 => "8",
        _ => "9",
    }
}

/// Appends the decimal rendering of `n` to `out`.
pub fn push_decimal(out: &mut String, n: u64)
    ensures
        final(out)@ == old(out)@ + decimal(n as nat),
    decreases n,
{
    if n >= 10 {
        push_decimal(out, n / 10);
    }
    out.append(digit_str(n % 10));
    proof {
        if n >= 10 {
            assert(final(out)@ =~= old(out)@ + decimal(n as nat));
        } else {
            assert(final(out)@ =~= old(out)@ + decimal(n as nat));
        }
    }
}

/// A position in a source file.
pub struct ErrorLocation {
    /// The file that caused the error.
    pub file: String,
    /// The line in the file that caused the error.
    pub line: u64,
    /// The column in the file that caused the error.
    pub col: u64,
}

impl View for ErrorLocation {
    type V = (Seq<char>, u64, u64);

    open spec fn view(&self) -> (Seq<char>, u64, u64) {
        (self.file@, self.line, self.col)
    }
}

/// The display form of a location: `file:line:column`.
pub open spec fn location_text(l: (Seq<char>, u64, u64)) -> Seq<char> {
    l.0 + seq![':'] + decimal(l.1 as nat) + seq![':'] + decimal(l.2 as nat)
}

impl ErrorLocation {
    /// Creates a location.
    pub fn new(file: String, line: u64, col: u64) -> (r: ErrorLocation)
        ensures
            r@ == (file@, line, col),
    {
        ErrorLocation { file, line, col }
    }

    /// Returns a copy of this location.
    pub fn duplicate(&self) -> (r: ErrorLocation)
        ensures
            r@ == self@,
    {
        ErrorLocation { file: self.file.clone(), line: self.line, col: self.col }
    }

    /// Renders the location as `file:line:column`.
    pub fn display(&self) -> (r: String)
        ensures
            r@ == location_text(self@),
    {
        let mut out = self.file.clone();
        out.append(":");
        push_decimal(&mut out, self.line);
        out.append(":");
        push_decimal(&mut out, self.col);
        proof {
            reveal_strlit(":");
            assert(out@ =~= location_text(self@));
        }
        out
    }
}

impl PartialEq for ErrorLocation {
    fn eq(&self, other: &ErrorLocation) -> (r: bool) {
        self.line == other.line && self.col == other.col && self.file == other.file
    }
}

impl vstd::std_specs::cmp::PartialEqSpecImpl for ErrorLocation {
    open spec fn obeys_eq_spec() -> bool {
        true
    }

    open spec fn eq_spec(&self, other: &ErrorLocation) -> bool {
        self@ == other@
    }
}

} // verus!
