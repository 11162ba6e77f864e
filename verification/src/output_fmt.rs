use vstd::prelude::*;

verus! {

/// How the live list renders each site: one colored full-width line, or a
/// colored bullet in front of plain text.
#[derive(Copy, Clone, PartialEq, Eq, Structural, Debug)]
pub enum OutputFmt {
    Line,
    Bullet,
}

impl Default for OutputFmt {
    /// The format used when none is selected on the command line.
    fn default() -> (r: OutputFmt)
        ensures
            r == OutputFmt::Line,
    {
        OutputFmt::Line
    }
}

impl OutputFmt {
    /// The name under which the format is selected on the command line.
    pub fn name(self) -> (r: String)
        ensures
            self == OutputFmt::Line ==> r@ == "line"@,
            self == OutputFmt::Bullet ==> r@ == "bullet"@,
    {
        match self {
            OutputFmt::Line => "line".to_owned(),
            OutputFmt::Bullet => "bullet".to_owned(),
        }
    }
}

} // verus!
