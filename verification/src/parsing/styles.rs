//! Style construction: hex color literals and rule keys become styling
//! rules. The shell reads the style source and hands the rules in as
//! plain key/value text.

use vstd::prelude::*;
use vstd::string::{StrSliceExecFns, StringExecFns};

use crate::ui::style::{Color, Style, StyleRule};

verus! {

/// `c` is a hexadecimal digit.
pub open spec fn is_hex_digit(c: char) -> bool {
    ||| ('0' as u32) <= (c as u32) <= ('9' as u32)
    ||| ('a' as u32) <= (c as u32) <= ('f' as u32)
    ||| ('A' as u32) <= (c as u32) <= ('F' as u32)
}

/// The value of the hexadecimal digit `c`.
pub open spec fn hex_val(c: char) -> int {
    if ('0' as u32) <= (c as u32) <= ('9' as u32) {
        (c as u32) - ('0' as u32)
    } else if ('a' as u32) <= (c as u32) <= ('f' as u32) {
        (c as u32) - ('a' as u32) + 10
    } else {
        (c as u32) - ('A' as u32) + 10
    }
}

/// A color literal with an optional leading `#` stripped.
pub open spec fn hex_body(s: Seq<char>) -> Seq<char> {
    if s.len() > 0 && s[0] == '#' {
        s.skip(1)
    } else {
        s
    }
}

/// `s` is a parsable color literal: after the optional `#`, at least six
/// hexadecimal digits (anything beyond them is ignored).
pub open spec fn hex_color_ok(s: Seq<char>) -> bool {
    &&& hex_body(s).len() >= 6
    &&& forall|i: int| 0 <= i < 6 ==> is_hex_digit(#[trigger] hex_body(s)[i])
}

/// The color a literal denotes: three channel bytes read as pairs of
/// hexadecimal digits, with full opacity.
pub open spec fn spec_hex_color(s: Seq<char>) -> Color {
    let t = hex_body(s);
    Color {
        r: (16 * hex_val(t[0]) + hex_val(t[1])) as u8,
        g: (16 * hex_val(t[2]) + hex_val(t[3])) as u8,
        b: (16 * hex_val(t[4]) + hex_val(t[5])) as u8,
        a: 255,
    }
}

/// The rule a key/value pair denotes.
pub open spec fn spec_rule(key: Seq<char>, value: Seq<char>) -> StyleRule {
    if key == "background_color"@ {
        StyleRule::BackgroundColor(spec_hex_color(value))
    } else {
        StyleRule::TextColor(spec_hex_color(value))
    }
}

/// The value of one hexadecimal digit.
pub fn hex(digit: Option<char>) -> (r: u8)
    requires
        digit matches Some(c) ==> is_hex_digit(c),
    ensures
        digit matches Some(c) ==> r == hex_val(c) && r <= 15,
{
    match digit {
        Some(c) => {
            let u: u32 = c as u32;
            if u >= 48 && u <= 57 {
                (u - 48) as u8
            } else if u >= 97 && u <= 102 {
                (u - 87) as u8
            } else {
                (u - 55) as u8
            }
        },
        None => 0,
    }
}

/// Parse a `#RRGGBB` color literal (the `#` may be omitted; trailing
/// text is ignored) into its color.
pub fn parse_hex_color(color: &str) -> (r: Color)
    requires
        hex_color_ok(color@),
    ensures
        r == spec_hex_color(color@),
{
    let n: usize = color.unicode_len();
    let offset: usize = if n > 0 && color.get_char(0) == '#' {
        1
    } else {
        0
    };
    proof {
        let s = color@;
        let t = hex_body(s);
        assert(t.len() >= 6);
        assert(is_hex_digit(t[0]) && is_hex_digit(t[1]) && is_hex_digit(t[2]) && is_hex_digit(
            t[3],
        ) && is_hex_digit(t[4]) && is_hex_digit(t[5]));
        if s.len() > 0 && s[0] == '#' {
            assert(t == s.skip(1));
            assert(t[0] == s[1] && t[1] == s[2] && t[2] == s[3] && t[3] == s[4] && t[4] == s[5]
                && t[5] == s[6]);
        }
    }
    let red: u8 = 16 * hex(Some(color.get_char(offset))) + hex(Some(color.get_char(offset + 1)));
    let green: u8 = 16 * hex(Some(color.get_char(offset + 2))) + hex(
        Some(color.get_char(offset + 3)),
    );
    let blue: u8 = 16 * hex(Some(color.get_char(offset + 4))) + hex(
        Some(color.get_char(offset + 5)),
    );
    Color { r: red, g: green, b: blue, a: 255 }
}

/// Build the rule a key/value pair declares. Only the background and
/// text color keys exist; any other key is rejected by contract.
pub fn create_rule(key: &str, value: String) -> (r: StyleRule)
    requires
        key@ == "background_color"@ || key@ == "color"@,
        hex_color_ok(value@),
    ensures
        r == spec_rule(key@, value@),
{
    let k: String = key.to_owned();
    let bg: String = String::from_str("background_color");
    let color: Color = parse_hex_color(value.as_str());
    if k == bg {
        StyleRule::BackgroundColor(color)
    } else {
        StyleRule::TextColor(color)
    }
}

/// Every pair of `rules` is a parsable rule declaration.
pub open spec fn rules_ok(rules: Seq<(String, String)>) -> bool {
    forall|i: int| 0 <= i < rules.len() ==> {
        &&& ((#[trigger] rules[i]).0@ == "background_color"@ || rules[i].0@ == "color"@)
        &&& hex_color_ok(rules[i].1@)
    }
}

/// Build one style from its rule declarations, in declaration order.
pub fn create_style(rules: &Vec<(String, String)>) -> (r: Style)
    requires
        rules_ok(rules@),
    ensures
        r.rules@.len() == rules@.len(),
        forall|i: int| 0 <= i < rules@.len() ==> #[trigger] r.rules@[i] == spec_rule(
            rules@[i].0@,
            rules@[i].1@,
        ),
{
    let mut out: Vec<StyleRule> = Vec::new();
    let mut i: usize = 0;
    while i < rules.len()
        invariant
            i <= rules@.len(),
            rules_ok(rules@),
            out@.len() == i,
            forall|k: int| 0 <= k < i ==> #[trigger] out@[k] == spec_rule(
                rules@[k].0@,
                rules@[k].1@,
            ),
        decreases rules@.len() - i,
    {
        let key: &String = &rules[i].0;
        let value: String = rules[i].1.clone();
        out.push(create_rule(key.as_str(), value));
        i = i + 1;
    }
    Style { rules: out }
}

/// Every named style's rules are parsable.
pub open spec fn styles_ok(entries: Seq<(String, Seq<(String, String)>)>) -> bool {
    forall|i: int| 0 <= i < entries.len() ==> rules_ok((#[trigger] entries[i]).1)
}

/// Build the named styles of a style sheet, in declaration order.
pub fn create_styles(entries: &Vec<(String, Vec<(String, String)>)>) -> (r: Vec<(String, Style)>)
    requires
        forall|i: int| 0 <= i < entries@.len() ==> rules_ok((#[trigger] entries@[i]).1@),
    ensures
        r@.len() == entries@.len(),
        forall|i: int| 0 <= i < entries@.len() ==> {
            &&& (#[trigger] r@[i]).0@ == entries@[i].0@
            &&& r@[i].1.rules@.len() == entries@[i].1@.len()
            &&& forall|k: int| 0 <= k < entries@[i].1@.len() ==> #[trigger] r@[i].1.rules@[k]
                == spec_rule(entries@[i].1@[k].0@, entries@[i].1@[k].1@)
        },
{
    let mut out: Vec<(String, Style)> = Vec::new();
    let mut i: usize = 0;
    while i < entries.len()
        invariant
            i <= entries@.len(),
            forall|k: int| 0 <= k < entries@.len() ==> rules_ok((#[trigger] entries@[k]).1@),
            out@.len() == i,
            forall|k: int| 0 <= k < i ==> {
                &&& (#[trigger] out@[k]).0@ == entries@[k].0@
                &&& out@[k].1.rules@.len() == entries@[k].1@.len()
                &&& forall|m: int| 0 <= m < entries@[k].1@.len() ==> #[trigger] out@[k].1.rules@[m]
                    == spec_rule(entries@[k].1@[m].0@, entries@[k].1@[m].1@)
            },
        decreases entries@.len() - i,
    {
        let name: String = entries[i].0.clone();
        let style: Style = create_style(&entries[i].1);
        out.push((name, style));
        i = i + 1;
    }
    out
}

} // verus!
