//! The model of the engine's parsing of stylesheet source.
//!
//! The engine consumes raw bytes and produces rules. The façade's
//! observable contract needs only the shape of that outcome, so the model
//! fixes a small, exactly specified rule grammar: a stylesheet is a
//! sequence of rules, each a comma-separated list of element-name
//! selectors followed by a braced color declaration, with a color given
//! as a basic color name or a three- or six-digit hex value. Parsing is
//! total and deterministic over the byte sequence: the same bytes always
//! give the same rules, whatever chunking they arrived in.

use vstd::prelude::*;

verus! {

use crate::types::spec_strings_view;
use crate::types::CssColor;
use crate::types::LwcStringRef;

/// One parsed rule: the element names it selects and the color its
/// declaration assigns.
pub struct CssRule {
    pub selectors: Vec<LwcStringRef>,
    pub color: CssColor,
}

/// Spec-level shape of a rule.
pub struct CssRuleView {
    pub selectors: Seq<Seq<u8>>,
    pub color: CssColor,
}

impl View for CssRule {
    type V = CssRuleView;

    open spec fn view(&self) -> CssRuleView {
        CssRuleView {
            selectors: Seq::new(self.selectors@.len(), |i: int| self.selectors@[i]@),
            color: self.color,
        }
    }
}

pub const B_TAB: u8 = 9;
pub const B_NL: u8 = 10;
pub const B_CR: u8 = 13;
pub const B_SPACE: u8 = 32;
pub const B_HASH: u8 = 35;
pub const B_COMMA: u8 = 44;
pub const B_COLON: u8 = 58;
pub const B_SEMI: u8 = 59;
pub const B_LBRACE: u8 = 123;
pub const B_RBRACE: u8 = 125;

/// Whitespace bytes the grammar skips between tokens.
pub open spec fn spec_is_ws(b: u8) -> bool {
    b == B_SPACE || b == B_TAB || b == B_NL || b == B_CR
}

/// Bytes that can stand in an identifier: anything that is neither
/// whitespace nor one of the grammar's delimiters.
pub open spec fn spec_is_ident(b: u8) -> bool {
    !spec_is_ws(b) && b != B_COMMA && b != B_COLON && b != B_SEMI && b != B_LBRACE && b != B_RBRACE
        && b != B_HASH
}

/// Hexadecimal digit bytes.
pub open spec fn spec_is_hex(b: u8) -> bool {
    (48 <= b <= 57) || (97 <= b <= 102) || (65 <= b <= 70)
}

/// Value of a hexadecimal digit byte.
pub open spec fn spec_hex_val(b: u8) -> u8 {
    if 48 <= b <= 57 {
        (b - 48) as u8
    } else if 97 <= b <= 102 {
        (b - 87) as u8
    } else {
        (b - 55) as u8
    }
}

/// First position at or after `i` that does not hold whitespace.
pub open spec fn spec_skip_ws(s: Seq<u8>, i: int) -> int
    decreases s.len() - i,
{
    if 0 <= i < s.len() && spec_is_ws(s[i]) {
        spec_skip_ws(s, i + 1)
    } else {
        i
    }
}

/// First position at or after `i` that does not hold an identifier byte.
pub open spec fn spec_ident_end(s: Seq<u8>, i: int) -> int
    decreases s.len() - i,
{
    if 0 <= i < s.len() && spec_is_ident(s[i]) {
        spec_ident_end(s, i + 1)
    } else {
        i
    }
}

/// Whether every byte of `s` is a hexadecimal digit.
pub open spec fn spec_all_hex(s: Seq<u8>) -> bool {
    forall|j: int| 0 <= j < s.len() ==> spec_is_hex(#[trigger] s[j])
}

/// The color a three-digit hex value names: each digit doubles into a
/// full channel byte.
pub open spec fn spec_color_of_hex3(d: Seq<u8>) -> CssColor {
    CssColor {
        r: (spec_hex_val(d[0]) * 17) as u8,
        g: (spec_hex_val(d[1]) * 17) as u8,
        b: (spec_hex_val(d[2]) * 17) as u8,
        a: 255,
    }
}

/// The color a six-digit hex value names.
pub open spec fn spec_color_of_hex6(d: Seq<u8>) -> CssColor {
    CssColor {
        r: (spec_hex_val(d[0]) * 16 + spec_hex_val(d[1])) as u8,
        g: (spec_hex_val(d[2]) * 16 + spec_hex_val(d[3])) as u8,
        b: (spec_hex_val(d[4]) * 16 + spec_hex_val(d[5])) as u8,
        a: 255,
    }
}

pub open spec fn spec_name_red() -> Seq<u8> {
    seq![114u8, 101u8, 100u8]
}

pub open spec fn spec_name_green() -> Seq<u8> {
    seq![103u8, 114u8, 101u8, 101u8, 110u8]
}

pub open spec fn spec_name_blue() -> Seq<u8> {
    seq![98u8, 108u8, 117u8, 101u8]
}

pub open spec fn spec_name_black() -> Seq<u8> {
    seq![98u8, 108u8, 97u8, 99u8, 107u8]
}

pub open spec fn spec_name_white() -> Seq<u8> {
    seq![119u8, 104u8, 105u8, 116u8, 101u8]
}

pub open spec fn spec_name_color_kw() -> Seq<u8> {
    seq![99u8, 111u8, 108u8, 111u8, 114u8]
}

/// The color a basic color name denotes, if the name is one the model
/// resolves.
pub open spec fn spec_named_color(name: Seq<u8>) -> Option<CssColor> {
    if name == spec_name_red() {
        Option::Some(CssColor { r: 255, g: 0, b: 0, a: 255 })
    } else if name == spec_name_green() {
        Option::Some(CssColor { r: 0, g: 128, b: 0, a: 255 })
    } else if name == spec_name_blue() {
        Option::Some(CssColor { r: 0, g: 0, b: 255, a: 255 })
    } else if name == spec_name_black() {
        Option::Some(CssColor { r: 0, g: 0, b: 0, a: 255 })
    } else if name == spec_name_white() {
        Option::Some(CssColor { r: 255, g: 255, b: 255, a: 255 })
    } else {
        Option::None
    }
}

/// Parses a color value at `i`: a `#` followed by three or six hex
/// digits, or a known color name. Gives the color and the position just
/// past the value.
pub open spec fn spec_parse_value(s: Seq<u8>, i: int) -> Option<(CssColor, int)> {
    let i0 = spec_skip_ws(s, i);
    if i0 < s.len() && s[i0] == B_HASH {
        let j = spec_ident_end(s, i0 + 1);
        let digits = s.subrange(i0 + 1, j);
        if spec_all_hex(digits) && digits.len() == 3 {
            Option::Some((spec_color_of_hex3(digits), j))
        } else if spec_all_hex(digits) && digits.len() == 6 {
            Option::Some((spec_color_of_hex6(digits), j))
        } else {
            Option::None
        }
    } else {
        let j = spec_ident_end(s, i0);
        match spec_named_color(s.subrange(i0, j)) {
            Option::Some(c) => Option::Some((c, j)),
            Option::None => Option::None,
        }
    }
}

/// Parses the single declaration of a rule body at `i`: the `color`
/// keyword, a colon, a value and an optional trailing semicolon. Gives
/// the color and the position of the byte that should close the body.
pub open spec fn spec_parse_decl(s: Seq<u8>, i: int) -> Option<(CssColor, int)> {
    let i0 = spec_skip_ws(s, i);
    let j = spec_ident_end(s, i0);
    if s.subrange(i0, j) != spec_name_color_kw() {
        Option::None
    } else {
        let k = spec_skip_ws(s, j);
        if !(k < s.len() && s[k] == B_COLON) {
            Option::None
        } else {
            match spec_parse_value(s, k + 1) {
                Option::None => Option::None,
                Option::Some((c, m)) => {
                    let m1 = spec_skip_ws(s, m);
                    if m1 < s.len() && s[m1] == B_SEMI {
                        Option::Some((c, spec_skip_ws(s, m1 + 1)))
                    } else {
                        Option::Some((c, m1))
                    }
                },
            }
        }
    }
}

/// Parses a comma-separated selector list at `i`. Gives the selector
/// names and the position of the byte that should open the rule body.
pub open spec fn spec_parse_selectors(s: Seq<u8>, i: int) -> Option<(Seq<Seq<u8>>, int)>
    decreases s.len() - i,
{
    let i0 = spec_skip_ws(s, i);
    let j = spec_ident_end(s, i0);
    if j == i0 {
        Option::None
    } else {
        let name = s.subrange(i0, j);
        let k = spec_skip_ws(s, j);
        if k < s.len() && s[k] == B_COMMA {
            if i < k + 1 && k + 1 <= s.len() {
                match spec_parse_selectors(s, k + 1) {
                    Option::Some((rest, end)) => Option::Some((seq![name] + rest, end)),
                    Option::None => Option::None,
                }
            } else {
                Option::None
            }
        } else {
            Option::Some((seq![name], k))
        }
    }
}

/// Parses one rule at `i`: a selector list, an opening brace, the body's
/// declaration and a closing brace. Gives the rule and the position just
/// past it.
pub open spec fn spec_parse_rule(s: Seq<u8>, i: int) -> Option<(CssRuleView, int)> {
    match spec_parse_selectors(s, i) {
        Option::None => Option::None,
        Option::Some((sels, j)) => {
            if j < s.len() && s[j] == B_LBRACE {
                match spec_parse_decl(s, j + 1) {
                    Option::None => Option::None,
                    Option::Some((c, k)) => {
                        if k < s.len() && s[k] == B_RBRACE {
                            Option::Some((CssRuleView { selectors: sels, color: c }, k + 1))
                        } else {
                            Option::None
                        }
                    },
                }
            } else {
                Option::None
            }
        },
    }
}

/// Parses every rule from `i` to the end of the input.
pub open spec fn spec_parse_rules_from(s: Seq<u8>, i: int) -> Option<Seq<CssRuleView>>
    decreases s.len() - i,
{
    let i0 = spec_skip_ws(s, i);
    if i0 >= s.len() {
        Option::Some(Seq::empty())
    } else {
        match spec_parse_rule(s, i0) {
            Option::None => Option::None,
            Option::Some((r, j)) => {
                if i < j && j <= s.len() {
                    match spec_parse_rules_from(s, j) {
                        Option::Some(rest) => Option::Some(seq![r] + rest),
                        Option::None => Option::None,
                    }
                } else {
                    Option::None
                }
            },
        }
    }
}

/// The rules a byte sequence parses to, when it fits the grammar.
pub open spec fn spec_parse_rules(s: Seq<u8>) -> Option<Seq<CssRuleView>> {
    spec_parse_rules_from(s, 0)
}

/// Spec-level shape of a sequence of parsed rules.
pub open spec fn spec_rules_view(v: Seq<CssRule>) -> Seq<CssRuleView> {
    Seq::new(v.len(), |i: int| v[i]@)
}

fn is_ws(b: u8) -> (r: bool)
    ensures
        r == spec_is_ws(b),
{
    b == B_SPACE || b == B_TAB || b == B_NL || b == B_CR
}

fn is_ident(b: u8) -> (r: bool)
    ensures
        r == spec_is_ident(b),
{
    !is_ws(b) && b != B_COMMA && b != B_COLON && b != B_SEMI && b != B_LBRACE && b != B_RBRACE && b
        != B_HASH
}

fn is_hex(b: u8) -> (r: bool)
    ensures
        r == spec_is_hex(b),
{
    (48 <= b && b <= 57) || (97 <= b && b <= 102) || (65 <= b && b <= 70)
}

fn hex_val(b: u8) -> (r: u8)
    requires
        spec_is_hex(b),
    ensures
        r == spec_hex_val(b),
        r <= 15,
{
    if 48 <= b && b <= 57 {
        b - 48
    } else if 97 <= b && b <= 102 {
        b - 87
    } else {
        b - 55
    }
}

fn skip_ws(s: &[u8], i: usize) -> (r: usize)
    requires
        i <= s@.len(),
    ensures
        r == spec_skip_ws(s@, i as int),
        i <= r <= s@.len(),
{
    let mut j = i;
    while j < s.len() && is_ws(s[j])
        invariant
            i <= j <= s@.len(),
            spec_skip_ws(s@, i as int) == spec_skip_ws(s@, j as int),
        decreases s@.len() - j,
    {
        j = j + 1;
    }
    j
}

fn ident_end(s: &[u8], i: usize) -> (r: usize)
    requires
        i <= s@.len(),
    ensures
        r == spec_ident_end(s@, i as int),
        i <= r <= s@.len(),
{
    let mut j = i;
    while j < s.len() && is_ident(s[j])
        invariant
            i <= j <= s@.len(),
            spec_ident_end(s@, i as int) == spec_ident_end(s@, j as int),
        decreases s@.len() - j,
    {
        j = j + 1;
    }
    j
}

/// Copies the byte range `[a, b)` out of a slice.
fn extract(s: &[u8], a: usize, b: usize) -> (r: Vec<u8>)
    requires
        a <= b <= s@.len(),
    ensures
        r@ == s@.subrange(a as int, b as int),
{
    let mut out: Vec<u8> = Vec::new();
    let mut k = a;
    while k < b
        invariant
            a <= k <= b <= s@.len(),
            out@.len() == k - a,
            forall|j: int| 0 <= j < out@.len() ==> out@[j] == s@[a + j],
        decreases b - k,
    {
        out.push(s[k]);
        k = k + 1;
    }
    proof {
        assert(out@ =~= s@.subrange(a as int, b as int));
    }
    out
}

fn named_color(name: &[u8]) -> (r: Option<CssColor>)
    ensures
        r == spec_named_color(name@),
{
    if name.len() == 3 && name[0] == 114 && name[1] == 101 && name[2] == 100 {
        proof {
            assert(name@ =~= spec_name_red());
        }
        Some(CssColor { r: 255, g: 0, b: 0, a: 255 })
    } else if name.len() == 5 && name[0] == 103 && name[1] == 114 && name[2] == 101 && name[3]
        == 101 && name[4] == 110 {
        proof {
            assert(name@ =~= spec_name_green());
        }
        Some(CssColor { r: 0, g: 128, b: 0, a: 255 })
    } else if name.len() == 4 && name[0] == 98 && name[1] == 108 && name[2] == 117 && name[3]
        == 101 {
        proof {
            assert(name@ =~= spec_name_blue());
        }
        Some(CssColor { r: 0, g: 0, b: 255, a: 255 })
    } else if name.len() == 5 && name[0] == 98 && name[1] == 108 && name[2] == 97 && name[3] == 99
        && name[4] == 107 {
        proof {
            assert(name@ =~= spec_name_black());
        }
        Some(CssColor { r: 0, g: 0, b: 0, a: 255 })
    } else if name.len() == 5 && name[0] == 119 && name[1] == 104 && name[2] == 105 && name[3]
        == 116 && name[4] == 101 {
        proof {
            assert(name@ =~= spec_name_white());
        }
        Some(CssColor { r: 255, g: 255, b: 255, a: 255 })
    } else {
        proof {
            assert(name@ != spec_name_red());
            assert(name@ != spec_name_green());
            assert(name@ != spec_name_blue());
            assert(name@ != spec_name_black());
            assert(name@ != spec_name_white());
        }
        None
    }
}

fn parse_value(s: &[u8], i: usize) -> (r: Option<(CssColor, usize)>)
    requires
        i <= s@.len(),
    ensures
        match spec_parse_value(s@, i as int) {
            Option::Some((c, e)) => r matches Option::Some(p) && p.0 == c && p.1 == e && i <= e
                <= s@.len(),
            Option::None => r is None,
        },
{
    let i0 = skip_ws(s, i);
    if i0 < s.len() && s[i0] == B_HASH {
        let j = ident_end(s, i0 + 1);
        let digits = extract(s, i0 + 1, j);
        let n = digits.len();
        let mut k: usize = 0;
        let mut ok = true;
        while k < n
            invariant
                k <= n,
                n == digits@.len(),
                ok <==> (forall|q: int| 0 <= q < k ==> spec_is_hex(#[trigger] digits@[q])),
            decreases n - k,
        {
            if !is_hex(digits[k]) {
                ok = false;
            }
            k = k + 1;
        }
        if ok && n == 3 {
            let c = CssColor {
                r: hex_val(digits[0]) * 17,
                g: hex_val(digits[1]) * 17,
                b: hex_val(digits[2]) * 17,
                a: 255,
            };
            Some((c, j))
        } else if ok && n == 6 {
            let c = CssColor {
                r: hex_val(digits[0]) * 16 + hex_val(digits[1]),
                g: hex_val(digits[2]) * 16 + hex_val(digits[3]),
                b: hex_val(digits[4]) * 16 + hex_val(digits[5]),
                a: 255,
            };
            Some((c, j))
        } else {
            None
        }
    } else {
        let j = ident_end(s, i0);
        let name = extract(s, i0, j);
        match named_color(name.as_slice()) {
            Some(c) => Some((c, j)),
            None => None,
        }
    }
}

fn parse_decl(s: &[u8], i: usize) -> (r: Option<(CssColor, usize)>)
    requires
        i <= s@.len(),
    ensures
        match spec_parse_decl(s@, i as int) {
            Option::Some((c, e)) => r matches Option::Some(p) && p.0 == c && p.1 == e && i <= e
                <= s@.len(),
            Option::None => r is None,
        },
{
    let i0 = skip_ws(s, i);
    let j = ident_end(s, i0);
    let kw = extract(s, i0, j);
    let is_color_kw = kw.len() == 5 && kw[0] == 99 && kw[1] == 111 && kw[2] == 108 && kw[3] == 111
        && kw[4] == 114;
    proof {
        if is_color_kw {
            assert(kw@ =~= spec_name_color_kw());
        } else {
            assert(kw@ != spec_name_color_kw());
        }
    }
    if !is_color_kw {
        return None;
    }
    let k = skip_ws(s, j);
    if !(k < s.len() && s[k] == B_COLON) {
        return None;
    }
    match parse_value(s, k + 1) {
        None => None,
        Some((c, m)) => {
            let m1 = skip_ws(s, m);
            if m1 < s.len() && s[m1] == B_SEMI {
                Some((c, skip_ws(s, m1 + 1)))
            } else {
                Some((c, m1))
            }
        },
    }
}

fn parse_selectors(s: &[u8], i: usize) -> (r: Option<(Vec<LwcStringRef>, usize)>)
    requires
        i <= s@.len(),
    ensures
        match spec_parse_selectors(s@, i as int) {
            Option::Some((sels, e)) => r matches Option::Some(p) && spec_strings_view(p.0@) == sels
                && p.1 == e && i < e <= s@.len(),
            Option::None => r is None,
        },
    decreases s@.len() - i,
{
    let i0 = skip_ws(s, i);
    let j = ident_end(s, i0);
    if j == i0 {
        return None;
    }
    let name = LwcStringRef::from_bytes(extract(s, i0, j));
    let k = skip_ws(s, j);
    if k < s.len() && s[k] == B_COMMA {
        match parse_selectors(s, k + 1) {
            Some((rest, end)) => {
                let mut sels = rest;
                sels.insert(0, name);
                proof {
                    let spec_rest = spec_parse_selectors(s@, k as int + 1)->Some_0.0;
                    assert(spec_strings_view(sels@) =~= seq![s@.subrange(i0 as int, j as int)]
                        + spec_rest);
                }
                Some((sels, end))
            },
            None => None,
        }
    } else {
        let sels = vec![name];
        proof {
            assert(spec_strings_view(sels@) =~= seq![s@.subrange(i0 as int, j as int)]);
        }
        Some((sels, k))
    }
}

fn parse_rule(s: &[u8], i: usize) -> (r: Option<(CssRule, usize)>)
    requires
        i <= s@.len(),
    ensures
        match spec_parse_rule(s@, i as int) {
            Option::Some((rv, e)) => r matches Option::Some(p) && p.0@ == rv && p.1 == e && i < e
                <= s@.len(),
            Option::None => r is None,
        },
{
    match parse_selectors(s, i) {
        None => None,
        Some((sels, j)) => {
            if j < s.len() && s[j] == B_LBRACE {
                match parse_decl(s, j + 1) {
                    None => None,
                    Some((c, k)) => {
                        if k < s.len() && s[k] == B_RBRACE {
                            let rule = CssRule { selectors: sels, color: c };
                            Some((rule, k + 1))
                        } else {
                            None
                        }
                    },
                }
            } else {
                None
            }
        },
    }
}

fn parse_rules_from(s: &[u8], i: usize) -> (r: Option<Vec<CssRule>>)
    requires
        i <= s@.len(),
    ensures
        match spec_parse_rules_from(s@, i as int) {
            Option::Some(rules) => r matches Option::Some(v) && spec_rules_view(v@) == rules,
            Option::None => r is None,
        },
    decreases s@.len() - i,
{
    let i0 = skip_ws(s, i);
    if i0 >= s.len() {
        let out: Vec<CssRule> = Vec::new();
        proof {
            assert(spec_rules_view(out@) =~= Seq::<CssRuleView>::empty());
        }
        return Some(out);
    }
    match parse_rule(s, i0) {
        None => None,
        Some((rule, j)) => {
            match parse_rules_from(s, j) {
                Some(rest) => {
                    let mut out = rest;
                    out.insert(0, rule);
                    proof {
                        let spec_rest = spec_parse_rules_from(s@, j as int)->Some_0;
                        assert(spec_rules_view(out@) =~= seq![rule@] + spec_rest);
                    }
                    Some(out)
                },
                None => None,
            }
        },
    }
}

/// Parses a complete stylesheet source: the parsed rules when the bytes
/// fit the grammar, and nothing otherwise.
pub fn parse_rules(s: &[u8]) -> (r: Option<Vec<CssRule>>)
    ensures
        match spec_parse_rules(s@) {
            Option::Some(rules) => r matches Option::Some(v) && spec_rules_view(v@) == rules,
            Option::None => r is None,
        },
{
    parse_rules_from(s, 0)
}

} // verus!
