//! The code-generation tools that a request can name.
//!
//! Every name that belongs to a provider follows from its canonical name.
//! The short name is the canonical name's first word; a request may use
//! either. The tool's program is the short name in lower case, and messages
//! call the tool by the short name with all but its first letter in lower
//! case. [`lemma_provider_names`] spells the names out.

use vstd::prelude::*;
use vstd::string::StringExecFns;
use crate::text::{
    ascii_lower, ascii_lowercase, concat2, first_word, first_word_of, lemma_word_end,
    lower_after_first, lowered_after_first, same_text, uppercase, uppercase_of,
};

verus! {

/// A supported code-generation tool.
#[derive(Debug, Clone, Copy, PartialEq, Eq, Structural)]
pub enum Provider {
    Cursor,
    ClaudeCode,
}

/// The provider that an identifier in upper case names: the one whose
/// canonical or short name it is.
pub open spec fn provider_named(upper: Seq<char>) -> Option<Provider> {
    if upper == Provider::Cursor.canonical_text() || upper == Provider::Cursor.short_text() {
        Some(Provider::Cursor)
    } else if upper == Provider::ClaudeCode.canonical_text() || upper
        == Provider::ClaudeCode.short_text() {
        Some(Provider::ClaudeCode)
    } else {
        None
    }
}

/// The provider that an identifier names, whatever its case.
pub open spec fn provider_of(id: Seq<char>) -> Option<Provider> {
    provider_named(uppercase_of(id))
}

impl Provider {
    /// The provider's canonical name.
    pub open spec fn canonical_text(self) -> Seq<char> {
        match self {
            Provider::Cursor => "CURSOR"@,
            Provider::ClaudeCode => "CLAUDE_CODE"@,
        }
    }

    /// The provider's short name: the first word of the canonical name.
    pub open spec fn short_text(self) -> Seq<char> {
        first_word_of(self.canonical_text())
    }

    /// The name of the tool's program: the short name in lower case.
    pub open spec fn program_text(self) -> Seq<char> {
        ascii_lower(self.short_text())
    }

    /// The name by which messages call the tool.
    pub open spec fn display_text(self) -> Seq<char> {
        lowered_after_first(self.short_text())
    }

    /// The environment variable through which the tool takes its credential.
    pub open spec fn key_variable_text(self) -> Seq<char> {
        match self {
            Provider::Cursor => "CURSOR_API_KEY"@,
            Provider::ClaudeCode => "ANTHROPIC_API_KEY"@,
        }
    }

    /// How the message starts when the tool could not be started.
    pub open spec fn spawn_failure_prefix(self) -> Seq<char> {
        "Failed to execute "@ + self.program_text() + " CLI: "@
    }

    /// How the message starts when the tool ended with a failure status.
    pub open spec fn exit_failure_prefix(self) -> Seq<char> {
        self.display_text() + " CLI failed: "@
    }

    /// The provider's canonical name.
    pub fn canonical_name(&self) -> (r: String)
        ensures
            r@ == self.canonical_text(),
    {
        match self {
            Provider::Cursor => String::from_str("CURSOR"),
            Provider::ClaudeCode => String::from_str("CLAUDE_CODE"),
        }
    }

    /// The provider's short name: the first word of the canonical name.
    pub fn short_name(&self) -> (r: String)
        ensures
            r@ == self.short_text(),
    {
        first_word(self.canonical_name().as_str())
    }

    /// The name of the tool's program: the short name in lower case.
    pub fn program_name(&self) -> (r: String)
        ensures
            r@ == self.program_text(),
    {
        ascii_lowercase(self.short_name().as_str())
    }

    /// The name by which messages call the tool.
    pub fn display_name(&self) -> (r: String)
        ensures
            r@ == self.display_text(),
    {
        lower_after_first(self.short_name().as_str())
    }

    /// The environment variable through which the tool takes its credential.
    pub fn key_variable(&self) -> (r: String)
        ensures
            r@ == self.key_variable_text(),
    {
        match self {
            Provider::Cursor => String::from_str("CURSOR_API_KEY"),
            Provider::ClaudeCode => String::from_str("ANTHROPIC_API_KEY"),
        }
    }

    /// The message for a tool that could not be started for `reason`.
    pub fn spawn_failure(&self, reason: &str) -> (r: String)
        ensures
            r@ == self.spawn_failure_prefix() + reason@,
    {
        let mut message = concat2("Failed to execute ", self.program_name().as_str());
        message.append(" CLI: ");
        message.append(reason);
        message
    }

    /// The message for a tool that ended with a failure status and left
    /// `diagnostics` on its standard error.
    pub fn exit_failure(&self, diagnostics: &str) -> (r: String)
        ensures
            r@ == self.exit_failure_prefix() + diagnostics@,
    {
        let mut message = concat2(self.display_name().as_str(), " CLI failed: ");
        message.append(diagnostics);
        message
    }

    /// Whether `upper` is the provider's canonical or short name.
    pub fn is_named(&self, upper: &str) -> (r: bool)
        ensures
            r == (upper@ == self.canonical_text() || upper@ == self.short_text()),
    {
        same_text(upper, self.canonical_name().as_str()) || same_text(
            upper,
            self.short_name().as_str(),
        )
    }

    /// Reads a provider from an identifier that is already in upper case.
    pub fn from_normalized(upper: &str) -> (r: Option<Provider>)
        ensures
            r == provider_named(upper@),
    {
        if Provider::Cursor.is_named(upper) {
            Some(Provider::Cursor)
        } else if Provider::ClaudeCode.is_named(upper) {
            Some(Provider::ClaudeCode)
        } else {
            None
        }
    }

    /// Reads a provider from an identifier, ignoring case.
    pub fn parse(id: &str) -> (r: Option<Provider>)
        ensures
            r == provider_of(id@),
    {
        let upper = uppercase(id);
        Provider::from_normalized(upper.as_str())
    }
}

/// The names of the providers, spelled out. The short name, the program and
/// the display name of `Cursor` are `CURSOR`, `cursor` and `Cursor`. Those of
/// `ClaudeCode` are the first words of `CLAUDE_CODE`, `claude_code` and
/// `Claude_Code`.
pub proof fn lemma_provider_names()
    ensures
        Provider::Cursor.short_text() == "CURSOR"@,
        Provider::Cursor.program_text() == "cursor"@,
        Provider::Cursor.display_text() == "Cursor"@,
        Provider::ClaudeCode.short_text() + "_CODE"@ == "CLAUDE_CODE"@,
        Provider::ClaudeCode.program_text() + "_code"@ == "claude_code"@,
        Provider::ClaudeCode.display_text() + "_Code"@ == "Claude_Code"@,
{
    reveal_strlit("CURSOR");
    reveal_strlit("cursor");
    reveal_strlit("Cursor");
    reveal_strlit("CLAUDE_CODE");
    reveal_strlit("claude_code");
    reveal_strlit("Claude_Code");
    reveal_strlit("_CODE");
    reveal_strlit("_code");
    reveal_strlit("_Code");
    lemma_word_end("CURSOR"@, 6);
    lemma_word_end("CLAUDE_CODE"@, 6);
}

} // verus!
