//! The escape codes that a message is decorated with.

use vstd::prelude::*;

verus! {

/// The codes that switch the terminal's foreground color. Each is written
/// into a message as it stands, so a set of empty codes gives plain text.
#[derive(Clone, Copy, Debug, PartialEq, Eq)]
pub struct Colors {
    /// Starts the error tag.
    pub red: &'static str,
    /// Starts a hint or an address.
    pub green: &'static str,
    /// Starts a command that the user may type.
    pub magenta: &'static str,
    /// Ends whatever color was started.
    pub reset: &'static str,
}

/// The text of each code of a [`Colors`].
pub ghost struct ColorsView {
    pub red: Seq<char>,
    pub green: Seq<char>,
    pub magenta: Seq<char>,
    pub reset: Seq<char>,
}

impl ColorsView {
    /// No code holds any text.
    pub open spec fn is_plain(self) -> bool {
        &&& self.red.len() == 0
        &&& self.green.len() == 0
        &&& self.magenta.len() == 0
        &&& self.reset.len() == 0
    }

    /// The codes of a terminal that takes ANSI escape sequences: the bright
    /// red, green and magenta of the 256-color palette, and the code that
    /// gives the foreground its own color back.
    pub open spec fn ansi() -> ColorsView {
        ColorsView {
            red: "\u{1b}[38;5;9m"@,
            green: "\u{1b}[38;5;10m"@,
            magenta: "\u{1b}[38;5;13m"@,
            reset: "\u{1b}[39m"@,
        }
    }
}

impl View for Colors {
    type V = ColorsView;

    open spec fn view(&self) -> ColorsView {
        ColorsView {
            red: self.red@,
            green: self.green@,
            magenta: self.magenta@,
            reset: self.reset@,
        }
    }
}

impl Colors {
    /// The colors for an output that is no terminal: every code is empty.
    pub fn plain() -> (colors: Colors)
        ensures
            colors@.is_plain(),
    {
        proof {
            reveal_strlit("");
        }
        Colors { red: "", green: "", magenta: "", reset: "" }
    }

    /// The colors for a terminal that takes ANSI escape sequences.
    pub fn ansi() -> (colors: Colors)
        ensures
            colors@ == ColorsView::ansi(),
    {
        Colors {
            red: "\u{1b}[38;5;9m",
            green: "\u{1b}[38;5;10m",
            magenta: "\u{1b}[38;5;13m",
            reset: "\u{1b}[39m",
        }
    }
}

} // verus!
