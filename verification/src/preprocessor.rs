//! The preprocessor's identity: its registered name, which renderer it
//! supports, and the info-string prefix that marks a fenced block as one
//! of ours.

use vstd::prelude::*;

use crate::text::str_eq;
use vstd::string::StringExecFns;

verus! {

/// The document preprocessor. The chapter traversal itself lives with
/// the host; what is decided here is the preprocessor's name and which
/// renderer it accepts.
pub struct DiscordComponentsPreprocessor;

impl DiscordComponentsPreprocessor {
    /// The name the preprocessor registers under.
    pub fn name(&self) -> (r: &'static str)
        ensures
            r@ == "mdbook-discord-components"@,
    {
        "mdbook-discord-components"
    }

    /// Only the HTML renderer is supported.
    pub fn supports_renderer(&self, renderer: &str) -> (r: bool)
        ensures
            r == (renderer@ == "html"@),
    {
        str_eq(renderer, "html")
    }
}

/// The info-string name of the fenced blocks this pipeline consumes: the
/// fixed base word followed by the parser's own name.
pub struct BlockName {
    current: String,
}

impl BlockName {
    /// The parser-name part of the block name.
    pub closed spec fn spec_current(&self) -> Seq<char> {
        self.current@
    }

    /// A block name with an empty parser part.
    pub fn new() -> (r: BlockName)
        ensures
            r.spec_current() == Seq::<char>::empty(),
    {
        BlockName { current: String::new() }
    }

    /// Sets the parser part and returns the full block name.
    pub fn set(&mut self, new: &str) -> (r: String)
        ensures
            final(self).spec_current() == new@,
            r@ == "discord "@ + new@,
    {
        self.current = new.to_owned();
        self.string()
    }

    /// The full block name: the fixed base word, a space, and the parser
    /// part.
    pub fn string(&self) -> (r: String)
        ensures
            r@ == "discord "@ + self.spec_current(),
    {
        let mut s = String::new();
        s.append("discord ");
        s.append(self.current.as_str());
        s
    }
}

} // verus!
