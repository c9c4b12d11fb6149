//! Engine configuration. The process shell reads raw configuration text
//! from the environment and hands it in; parsing and defaulting are done
//! here.

use vstd::prelude::*;
use vstd::string::StrSliceExecFns;

verus! {

/// `s` spells the true value: `true` in any letter case, or `1`.
pub open spec fn is_true_literal(s: Seq<char>) -> bool {
    ||| (s.len() == 4 && (s[0] == 't' || s[0] == 'T') && (s[1] == 'r' || s[1] == 'R') && (s[2]
        == 'u' || s[2] == 'U') && (s[3] == 'e' || s[3] == 'E'))
    ||| (s.len() == 1 && s[0] == '1')
}

/// `s` spells the false value: `false` in any letter case, or `0`.
pub open spec fn is_false_literal(s: Seq<char>) -> bool {
    ||| (s.len() == 5 && (s[0] == 'f' || s[0] == 'F') && (s[1] == 'a' || s[1] == 'A') && (s[2]
        == 'l' || s[2] == 'L') && (s[3] == 's' || s[3] == 'S') && (s[4] == 'e' || s[4] == 'E'))
    ||| (s.len() == 1 && s[0] == '0')
}

/// Parse a boolean configuration value; letter case is ignored. Any other
/// text is rejected by contract.
pub fn parse_bool(raw: &str) -> (r: bool)
    requires
        is_true_literal(raw@) || is_false_literal(raw@),
    ensures
        r == is_true_literal(raw@),
{
    let n: usize = raw.unicode_len();
    if n == 1 {
        raw.get_char(0) == '1'
    } else {
        n == 4
    }
}

/// Interpret an optional raw configuration value, falling back to the
/// default where no value was given. A missing default with a missing
/// value is rejected by contract.
fn get_bool(raw: Option<&str>, default: Option<bool>) -> (r: bool)
    requires
        raw matches Some(s) ==> is_true_literal(s@) || is_false_literal(s@),
        raw is None ==> default is Some,
    ensures
        raw matches Some(s) ==> r == is_true_literal(s@),
        raw is None ==> (default matches Some(d) && r == d),
{
    match raw {
        Some(s) => parse_bool(s),
        None => default.unwrap(),
    }
}

/// Engine configuration flags.
pub struct Config {
    pub developer_mode: bool,
}

impl Config {
    /// Build the configuration from the raw text of the developer-mode
    /// setting, if one was given; it defaults to off.
    pub fn new(developer_mode_raw: Option<&str>) -> (c: Config)
        requires
            developer_mode_raw matches Some(s) ==> is_true_literal(s@) || is_false_literal(s@),
        ensures
            developer_mode_raw matches Some(s) ==> c.developer_mode == is_true_literal(s@),
            developer_mode_raw is None ==> !c.developer_mode,
    {
        Config { developer_mode: get_bool(developer_mode_raw, Some(false)) }
    }

    /// Whether the developer overlay (frame statistics) is drawn.
    pub fn developer_mode(&self) -> (r: bool)
        ensures
            r == self.developer_mode,
    {
        self.developer_mode
    }
}

} // verus!
