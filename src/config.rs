//! Configuration of the NDJSON parser: how lines without content are treated and whether an
//! unterminated rest is parsed at the end of the input.

use vstd::prelude::*;

verus! {

/// Controls how the parser deals with lines that contain no JSON values.
#[derive(Clone, Copy, Debug, Eq, Hash, PartialEq, Structural)]
pub enum EmptyLineHandling {
    /// Parse every line, i.e. every segment between `\n` characters, even if it is empty. This
    /// results in errors for empty lines.
    ParseAlways,
    /// Ignore lines which are empty, i.e. contain no bytes. For compatibility with `\r\n`-style
    /// line breaks, this also ignores lines which consist of a single `\r` character.
    IgnoreEmpty,
    /// Ignore lines which are valid UTF-8 and contain only whitespace characters.
    IgnoreBlank,
}

impl Default for EmptyLineHandling {
    fn default() -> (r: EmptyLineHandling)
        ensures
            r == EmptyLineHandling::ParseAlways,
    {
        EmptyLineHandling::ParseAlways
    }
}

/// Configuration for the NDJSON parser which controls its behavior in various situations.
///
/// By default, the parser attempts to parse every line, even if it is empty, and ignores the
/// rest after the last newline character.
#[derive(Clone, Copy, Debug, Eq, Hash, PartialEq, Structural)]
pub struct NdjsonConfig {
    pub(crate) empty_line_handling: EmptyLineHandling,
    pub(crate) parse_rest: bool,
}

impl Default for NdjsonConfig {
    fn default() -> (r: NdjsonConfig)
        ensures
            r == NdjsonConfig::default_config(),
            r.handling() == EmptyLineHandling::ParseAlways,
            !r.parses_rest(),
    {
        NdjsonConfig { empty_line_handling: EmptyLineHandling::ParseAlways, parse_rest: false }
    }
}

impl NdjsonConfig {
    /// The default config: every line is parsed and the rest is ignored.
    pub closed spec fn default_config() -> NdjsonConfig {
        NdjsonConfig { empty_line_handling: EmptyLineHandling::ParseAlways, parse_rest: false }
    }

    /// The policy for lines without content.
    pub closed spec fn handling(self) -> EmptyLineHandling {
        self.empty_line_handling
    }

    /// Whether the rest after the last newline is parsed at the end of the input.
    pub closed spec fn parses_rest(self) -> bool {
        self.parse_rest
    }

    /// The policy for lines without content.
    pub(crate) fn empty_line_handling(&self) -> (r: EmptyLineHandling)
        ensures
            r == self.handling(),
    {
        self.empty_line_handling
    }

    /// Whether the rest after the last newline is parsed at the end of the input.
    pub(crate) fn parse_rest(&self) -> (r: bool)
        ensures
            r == self.parses_rest(),
    {
        self.parse_rest
    }

    /// Creates a new config from this config which has a different handling for lines that
    /// contain no JSON values. See [EmptyLineHandling] for more details.
    pub fn with_empty_line_handling(self, empty_line_handling: EmptyLineHandling) -> (r:
        NdjsonConfig)
        ensures
            r.handling() == empty_line_handling,
            r.parses_rest() == self.parses_rest(),
    {
        NdjsonConfig { empty_line_handling, ..self }
    }

    /// Creates a new config from this config which has the given setting on whether to parse the
    /// rest, i.e. the part after the last newline character, when the input ends. If set to
    /// `false`, the rest is always ignored; if set to `true`, it is parsed like an ordinary line
    /// unless it is empty or, under [EmptyLineHandling::IgnoreBlank], blank.
    pub fn with_parse_rest(self, parse_rest: bool) -> (r: NdjsonConfig)
        ensures
            r.parses_rest() == parse_rest,
            r.handling() == self.handling(),
    {
        NdjsonConfig { parse_rest, ..self }
    }
}

} // verus!
