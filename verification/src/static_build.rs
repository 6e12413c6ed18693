//! Building the static site: the style sheets, each tidied outside the
//! library, bundled into one.

use vstd::prelude::*;
use vstd::string::*;

verus! {

/// The stage at which a style sheet was refused.
#[derive(Debug, Clone, Copy, PartialEq, Eq, Structural)]
pub enum CssFault {
    /// It could not be parsed.
    Parse,
    /// It could not be minified.
    Minify,
    /// It could not be printed.
    Print,
}

/// A style sheet of a bundle that was refused: its position and the stage.
#[derive(Debug, Clone, Copy, PartialEq, Eq, Structural)]
pub struct Refused {
    pub position: usize,
    pub fault: CssFault,
}

/// Adds one tidied style sheet, the one at `position`, to a bundle: its code
/// goes behind what the bundle holds; a sheet that was refused ends the
/// bundling and is reported with its position.
pub fn add_to_bundle(bundle: String, position: usize, part: Result<String, CssFault>) -> (grown:
    Result<String, Refused>)
    ensures
        match part {
            Ok(code) => grown matches Ok(longer) && longer@ == bundle@ + code@,
            Err(fault) => grown == Err::<String, Refused>(Refused { position, fault }),
        },
{
    match part {
        Ok(code) => {
            let mut longer = bundle;
            longer.append(code.as_str());
            Ok(longer)
        },
        Err(fault) => Err(Refused { position, fault }),
    }
}

} // verus!
