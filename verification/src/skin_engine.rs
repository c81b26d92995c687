//! CLI skins: the built-in themes, ANSI colours from hex codes, and the
//! coloured texts and banners made with a skin. Reading user skins from
//! disk happens at the caller.

use vstd::prelude::*;
use crate::strmap::StringMap;
use crate::text::{
    byte_prefix, chars_of, decimal, is_byte_boundary, owned, push_str, str_eq, string_of, take_bytes,
    trim_start_char, utf8_len,
};

verus! {

/// A skin.
pub struct SkinConfig {
    pub name: String,
    pub description: String,
    pub colors: SkinColors,
    pub spinner: SkinSpinner,
    pub branding: SkinBranding,
    pub tool_prefix: String,
    pub tool_emojis: StringMap,
}

/// The colours of a skin, as hex codes.
pub struct SkinColors {
    pub banner_border: String,
    pub banner_title: String,
    pub banner_accent: String,
    pub banner_dim: String,
    pub banner_text: String,
    pub response_border: String,
    pub response_label: String,
    pub error: String,
    pub warning: String,
    pub success: String,
    pub info: String,
    pub prompt_symbol: String,
}

/// The spinner of a skin.
pub struct SkinSpinner {
    pub waiting_faces: Vec<String>,
    pub thinking_faces: Vec<String>,
    pub thinking_verbs: Vec<String>,
    pub wings: Option<Vec<Vec<String>>>,
}

/// The names a skin shows.
pub struct SkinBranding {
    pub agent_name: String,
    pub welcome: String,
    pub response_label: String,
    pub prompt_symbol: String,
}

/// Names of the built-in skins, in order.
pub open spec fn builtin_skin_names() -> Seq<Seq<char>> {
    seq!["default"@, "ares"@, "mono"@, "slate"@]
}

/// Descriptions of the built-in skins, in order.
pub open spec fn builtin_skin_descriptions() -> Seq<Seq<char>> {
    seq![
        "Classic Hermes gold/kawaii theme"@,
        "Crimson/bronze war-god theme with custom spinner wings"@,
        "Clean grayscale monochrome theme"@,
        "Cool blue developer-focused theme"@,
    ]
}

/// The colours of a skin, in field order.
pub open spec fn color_list(c: SkinColors) -> Seq<Seq<char>> {
    seq![
        c.banner_border@, c.banner_title@, c.banner_accent@, c.banner_dim@, c.banner_text@, c.response_border@, c.response_label@, c.error@, c.warning@, c.success@, c.info@, c.prompt_symbol@,
    ]
}

/// The colours of the built-in skins, in order.
pub open spec fn builtin_skin_colors() -> Seq<Seq<Seq<char>>> {
    seq![
        seq!["#FFD700"@, "#FFD700"@, "#FFA500"@, "#888888"@, "#FFFFFF"@, "#FFD700"@, "#FFD700"@, "#FF4444"@, "#FFA500"@, "#44FF44"@, "#44AAFF"@, "☤"@],
        seq!["#8B0000"@, "#CD5C5C"@, "#B8860B"@, "#666666"@, "#F5F5DC"@, "#8B0000"@, "#CD5C5C"@, "#FF6347"@, "#DAA520"@, "#9ACD32"@, "#87CEEB"@, "⛨"@],
        seq!["#666666"@, "#FFFFFF"@, "#AAAAAA"@, "#555555"@, "#CCCCCC"@, "#444444"@, "#888888"@, "#FF6666"@, "#FFCC00"@, "#66FF66"@, "#66CCFF"@, "$"@],
        seq!["#1E3A5F"@, "#5DADE2"@, "#3498DB"@, "#566573"@, "#EAECEE"@, "#1E3A5F"@, "#85C1E9"@, "#E74C3C"@, "#F39C12"@, "#2ECC71"@, "#3498DB"@, ">"@],
    ]
}

/// The names a skin shows, in field order.
pub open spec fn branding_list(b: SkinBranding) -> Seq<Seq<char>> {
    seq![b.agent_name@, b.welcome@, b.response_label@, b.prompt_symbol@]
}

/// The branding of the built-in skins, in order.
pub open spec fn builtin_skin_brandings() -> Seq<Seq<Seq<char>>> {
    seq![
        seq!["Code Buddy"@, "Hello! I'm Code Buddy, your AI coding assistant."@, " Code Buddy "@, "☤"@],
        seq!["ARES"@, "I am ARES. State your purpose."@, " ARES "@, "⛨"@],
        seq!["code-buddy"@, "code-buddy v2.1.89"@, " output "@, "$"@],
        seq!["code-buddy"@, "Ready to code."@, " output "@, ">"@],
    ]
}

/// The spinner wings as values.
pub open spec fn wings_view(w: Option<Vec<Vec<String>>>) -> Option<Seq<Seq<Seq<char>>>> {
    match w {
        Some(v) => Some(v@.map_values(|x: Vec<String>| crate::text::views(x@))),
        None => None,
    }
}

/// A spinner as values: waiting faces, thinking faces, thinking verbs and
/// wings.
pub open spec fn spinner_view(sp: SkinSpinner) -> (Seq<Seq<char>>, Seq<Seq<char>>, Seq<Seq<char>>, Option<Seq<Seq<Seq<char>>>>) {
    (crate::text::views(sp.waiting_faces@), crate::text::views(sp.thinking_faces@), crate::text::views(sp.thinking_verbs@), wings_view(sp.wings))
}

/// The spinners of the built-in skins, in order.
pub open spec fn builtin_skin_spinners() -> Seq<(Seq<Seq<char>>, Seq<Seq<char>>, Seq<Seq<char>>, Option<Seq<Seq<Seq<char>>>>)> {
    seq![
        (seq!["(・ω・)"@, "(・´∇・)"@, "(´・ω・`)"@], seq!["(｀・ω・´)"@, "( ´ω`)"@, "(´・∀・`)"@], seq!["thinking"@, "processing"@, "analyzing"@, "consulting"@, "researching"@, "reasoning"@], Some(seq![seq!["⟨✧"@, "✧⟩"@]])),
        (seq!["[°◇°]"@, "[◇°◇]"@], seq!["[°▽°]"@, "[◇°ω°]"@], seq!["strategizing"@, "forging"@, "preparing"@], Some(seq![seq!["⟨⚔"@, "⚔⟩"@], seq!["⟨☠"@, "☠⟩"@]])),
        (seq!["[   ]"@, "[.  ]"@, "[.. ]"@, "[...]"@], seq!["[*  ]"@, "[** ]"@, "[***]"@], seq!["processing"@, "loading"@, "ready"@], None),
        (seq!["[○   ]"@, "[ ○  ]"@, "[  ○ ]"@, "[   ○]"@], seq!["[●   ]"@, "[ ●  ]"@, "[  ● ]"@], seq!["compiling"@, "debugging"@, "deploying"@, "linting"@, "testing"@, "building"@], Some(seq![seq!["["@, "]"@]])),
    ]
}

/// The tool prefixes of the built-in skins, in order.
pub open spec fn builtin_skin_tool_prefixes() -> Seq<Seq<char>> {
    seq!["⚡"@, "⚔"@, ">"@, "│"@]
}

/// `s` is built-in skin number `i`.
pub open spec fn is_builtin_skin(s: SkinConfig, i: int) -> bool {
    &&& s.name@ == builtin_skin_names()[i]
    &&& s.description@ == builtin_skin_descriptions()[i]
    &&& color_list(s.colors) == builtin_skin_colors()[i]
    &&& branding_list(s.branding) == builtin_skin_brandings()[i]
    &&& spinner_view(s.spinner) == builtin_skin_spinners()[i]
    &&& s.tool_prefix@ == builtin_skin_tool_prefixes()[i]
    &&& s.tool_emojis.entries_spec().len() == 0
}

fn skin_default() -> (s: SkinConfig)
    ensures
        is_builtin_skin(s, 0),
{
    let s = SkinConfig {
        name: owned("default"),
        description: owned("Classic Hermes gold/kawaii theme"),
        colors: SkinColors {
            banner_border: owned("#FFD700"),
            banner_title: owned("#FFD700"),
            banner_accent: owned("#FFA500"),
            banner_dim: owned("#888888"),
            banner_text: owned("#FFFFFF"),
            response_border: owned("#FFD700"),
            response_label: owned("#FFD700"),
            error: owned("#FF4444"),
            warning: owned("#FFA500"),
            success: owned("#44FF44"),
            info: owned("#44AAFF"),
            prompt_symbol: owned("☤"),
        },
        spinner: SkinSpinner {
            waiting_faces: vec![owned("(・ω・)"), owned("(・´∇・)"), owned("(´・ω・`)")],
            thinking_faces: vec![owned("(｀・ω・´)"), owned("( ´ω`)"), owned("(´・∀・`)")],
            thinking_verbs: vec![
                owned("thinking"), owned("processing"), owned("analyzing"),
                owned("consulting"), owned("researching"), owned("reasoning"),
            ],
            wings: Some(vec![vec![owned("⟨✧"), owned("✧⟩")]]),
        },
        branding: SkinBranding {
            agent_name: owned("Code Buddy"),
            welcome: owned("Hello! I'm Code Buddy, your AI coding assistant."),
            response_label: owned(" Code Buddy "),
            prompt_symbol: owned("☤"),
        },
        tool_prefix: owned("⚡"),
        tool_emojis: StringMap::new(),
    };
    proof {
        assert(color_list(s.colors) =~= builtin_skin_colors()[0]);
        assert(branding_list(s.branding) =~= builtin_skin_brandings()[0]);
        assert(crate::text::views(s.spinner.waiting_faces@) =~= builtin_skin_spinners()[0].0);
        assert(crate::text::views(s.spinner.thinking_faces@) =~= builtin_skin_spinners()[0].1);
        assert(crate::text::views(s.spinner.thinking_verbs@) =~= builtin_skin_spinners()[0].2);
        assert(wings_view(s.spinner.wings) =~~= builtin_skin_spinners()[0].3);
    }
    s
}

fn skin_ares() -> (s: SkinConfig)
    ensures
        is_builtin_skin(s, 1),
{
    let s = SkinConfig {
        name: owned("ares"),
        description: owned("Crimson/bronze war-god theme with custom spinner wings"),
        colors: SkinColors {
            banner_border: owned("#8B0000"),
            banner_title: owned("#CD5C5C"),
            banner_accent: owned("#B8860B"),
            banner_dim: owned("#666666"),
            banner_text: owned("#F5F5DC"),
            response_border: owned("#8B0000"),
            response_label: owned("#CD5C5C"),
            error: owned("#FF6347"),
            warning: owned("#DAA520"),
            success: owned("#9ACD32"),
            info: owned("#87CEEB"),
            prompt_symbol: owned("⛨"),
        },
        spinner: SkinSpinner {
            waiting_faces: vec![owned("[°◇°]"), owned("[◇°◇]")],
            thinking_faces: vec![owned("[°▽°]"), owned("[◇°ω°]")],
            thinking_verbs: vec![
                owned("strategizing"), owned("forging"), owned("preparing"),
            ],
            wings: Some(vec![
                vec![owned("⟨⚔"), owned("⚔⟩")],
                vec![owned("⟨☠"), owned("☠⟩")],
            ]),
        },
        branding: SkinBranding {
            agent_name: owned("ARES"),
            welcome: owned("I am ARES. State your purpose."),
            response_label: owned(" ARES "),
            prompt_symbol: owned("⛨"),
        },
        tool_prefix: owned("⚔"),
        tool_emojis: StringMap::new(),
    };
    proof {
        assert(color_list(s.colors) =~= builtin_skin_colors()[1]);
        assert(branding_list(s.branding) =~= builtin_skin_brandings()[1]);
        assert(crate::text::views(s.spinner.waiting_faces@) =~= builtin_skin_spinners()[1].0);
        assert(crate::text::views(s.spinner.thinking_faces@) =~= builtin_skin_spinners()[1].1);
        assert(crate::text::views(s.spinner.thinking_verbs@) =~= builtin_skin_spinners()[1].2);
        assert(wings_view(s.spinner.wings) =~~= builtin_skin_spinners()[1].3);
    }
    s
}

fn skin_mono() -> (s: SkinConfig)
    ensures
        is_builtin_skin(s, 2),
{
    let s = SkinConfig {
        name: owned("mono"),
        description: owned("Clean grayscale monochrome theme"),
        colors: SkinColors {
            banner_border: owned("#666666"),
            banner_title: owned("#FFFFFF"),
            banner_accent: owned("#AAAAAA"),
            banner_dim: owned("#555555"),
            banner_text: owned("#CCCCCC"),
            response_border: owned("#444444"),
            response_label: owned("#888888"),
            error: owned("#FF6666"),
            warning: owned("#FFCC00"),
            success: owned("#66FF66"),
            info: owned("#66CCFF"),
            prompt_symbol: owned("$"),
        },
        spinner: SkinSpinner {
            waiting_faces: vec![owned("[   ]"), owned("[.  ]"), owned("[.. ]"), owned("[...]")],
            thinking_faces: vec![owned("[*  ]"), owned("[** ]"), owned("[***]")],
            thinking_verbs: vec![
                owned("processing"), owned("loading"), owned("ready"),
            ],
            wings: None,
        },
        branding: SkinBranding {
            agent_name: owned("code-buddy"),
            welcome: owned("code-buddy v2.1.89"),
            response_label: owned(" output "),
            prompt_symbol: owned("$"),
        },
        tool_prefix: owned(">"),
        tool_emojis: StringMap::new(),
    };
    proof {
        assert(color_list(s.colors) =~= builtin_skin_colors()[2]);
        assert(branding_list(s.branding) =~= builtin_skin_brandings()[2]);
        assert(crate::text::views(s.spinner.waiting_faces@) =~= builtin_skin_spinners()[2].0);
        assert(crate::text::views(s.spinner.thinking_faces@) =~= builtin_skin_spinners()[2].1);
        assert(crate::text::views(s.spinner.thinking_verbs@) =~= builtin_skin_spinners()[2].2);
        assert(wings_view(s.spinner.wings) =~~= builtin_skin_spinners()[2].3);
    }
    s
}

fn skin_slate() -> (s: SkinConfig)
    ensures
        is_builtin_skin(s, 3),
{
    let s = SkinConfig {
        name: owned("slate"),
        description: owned("Cool blue developer-focused theme"),
        colors: SkinColors {
            banner_border: owned("#1E3A5F"),
            banner_title: owned("#5DADE2"),
            banner_accent: owned("#3498DB"),
            banner_dim: owned("#566573"),
            banner_text: owned("#EAECEE"),
            response_border: owned("#1E3A5F"),
            response_label: owned("#85C1E9"),
            error: owned("#E74C3C"),
            warning: owned("#F39C12"),
            success: owned("#2ECC71"),
            info: owned("#3498DB"),
            prompt_symbol: owned(">"),
        },
        spinner: SkinSpinner {
            waiting_faces: vec![owned("[○   ]"), owned("[ ○  ]"), owned("[  ○ ]"), owned("[   ○]")],
            thinking_faces: vec![owned("[●   ]"), owned("[ ●  ]"), owned("[  ● ]")],
            thinking_verbs: vec![
                owned("compiling"), owned("debugging"), owned("deploying"),
                owned("linting"), owned("testing"), owned("building"),
            ],
            wings: Some(vec![vec![owned("["), owned("]")]]),
        },
        branding: SkinBranding {
            agent_name: owned("code-buddy"),
            welcome: owned("Ready to code."),
            response_label: owned(" output "),
            prompt_symbol: owned(">"),
        },
        tool_prefix: owned("│"),
        tool_emojis: StringMap::new(),
    };
    proof {
        assert(color_list(s.colors) =~= builtin_skin_colors()[3]);
        assert(branding_list(s.branding) =~= builtin_skin_brandings()[3]);
        assert(crate::text::views(s.spinner.waiting_faces@) =~= builtin_skin_spinners()[3].0);
        assert(crate::text::views(s.spinner.thinking_faces@) =~= builtin_skin_spinners()[3].1);
        assert(crate::text::views(s.spinner.thinking_verbs@) =~= builtin_skin_spinners()[3].2);
        assert(wings_view(s.spinner.wings) =~~= builtin_skin_spinners()[3].3);
    }
    s
}

/// The built-in skins: default, ares, mono and slate.
pub fn built_in_skins() -> (r: Vec<SkinConfig>)
    ensures
        r@.len() == 4,
        forall|i: int| 0 <= i < 4 ==> is_builtin_skin(#[trigger] r@[i], i),
{
    let mut v: Vec<SkinConfig> = Vec::new();
    v.push(skin_default());
    v.push(skin_ares());
    v.push(skin_mono());
    v.push(skin_slate());
    v
}


/// `s` without its leading copies of `c`.
pub fn strip_leading(s: &str, c: char) -> (r: String)
    ensures
        r@ == trim_start_char(s@, c),
{
    let v = chars_of(s);
    let mut i: usize = 0;
    assert(v@.subrange(0, v@.len() as int) =~= v@);
    while i < v.len() && v[i] == c
        invariant
            i <= v@.len(),
            v@ == s@,
            trim_start_char(s@, c) == trim_start_char(v@.subrange(i as int, v@.len() as int), c),
        decreases v.len() - i,
    {
        proof {
            let t = v@.subrange(i as int, v@.len() as int);
            assert(t.drop_first() =~= v@.subrange(i + 1, v@.len() as int));
        }
        i = i + 1;
    }
    proof {
        let t = v@.subrange(i as int, v@.len() as int);
        if t.len() > 0 {
            assert(t[0] == v@[i as int]);
        }
    }
    let mut out: Vec<char> = Vec::new();
    let mut j = i;
    while j < v.len()
        invariant
            i <= j <= v@.len(),
            out@ == v@.subrange(i as int, j as int),
        decreases v.len() - j,
    {
        out.push(v[j]);
        j = j + 1;
    }
    string_of(out.as_slice())
}

/// Value of a hex digit.
pub open spec fn hex_digit(c: char) -> Option<nat> {
    if '0' <= c <= '9' {
        Some((c as nat - 48) as nat)
    } else if 'a' <= c <= 'f' {
        Some((c as nat - 87) as nat)
    } else if 'A' <= c <= 'F' {
        Some((c as nat - 55) as nat)
    } else {
        None
    }
}

/// Value of a string of hex digits, if it is one.
pub open spec fn hex_digits_value(d: Seq<char>) -> Option<nat>
    decreases d.len(),
{
    if d.len() == 0 {
        Some(0)
    } else {
        match (hex_digits_value(d.drop_last()), hex_digit(d.last())) {
            (Some(v), Some(x)) => Some(v * 16 + x),
            _ => None,
        }
    }
}

/// What `u8::from_str_radix(p, 16).unwrap_or(0)` gives: an optional `+`
/// and at least one hex digit, at most 255, else 0.
pub open spec fn hex_byte(p: Seq<char>) -> nat {
    hex_digits_byte(
        if p.len() > 0 && p[0] == '+' {
            p.drop_first()
        } else {
            p
        },
    )
}

/// The value of hex digits as a byte: 0 when empty, not digits, or past 255.
pub open spec fn hex_digits_byte(d: Seq<char>) -> nat {
    if d.len() == 0 {
        0
    } else {
        match hex_digits_value(d) {
            Some(v) => if v <= 255 {
                v
            } else {
                0
            },
            None => 0,
        }
    }
}

/// The characters of `s` that lie in its bytes `a..b`.
pub open spec fn byte_slice(s: Seq<char>, a: int, b: int) -> Seq<char> {
    s.subrange(byte_prefix(s, a).len() as int, byte_prefix(s, b).len() as int)
}

/// The colour code of a hex colour: `#` signs stripped, six bytes read as
/// three two-byte hex numbers (0 where one does not parse); empty when the
/// rest is not six bytes long.
pub open spec fn ansi_of_hex(hex: Seq<char>) -> Seq<char> {
    let h = trim_start_char(hex, '#');
    if utf8_len(h) != 6 {
        Seq::empty()
    } else {
        "\x1b[38;2;"@ + decimal(hex_byte(byte_slice(h, 0, 2))) + ";"@ + decimal(
            hex_byte(byte_slice(h, 2, 4)),
        ) + ";"@ + decimal(hex_byte(byte_slice(h, 4, 6))) + "m"@
    }
}

/// The hex colour's six bytes split at character boundaries.
pub open spec fn hex_cuts_cleanly(hex: Seq<char>) -> bool {
    let h = trim_start_char(hex, '#');
    utf8_len(h) == 6 ==> is_byte_boundary(h, 2) && is_byte_boundary(h, 4)
}

proof fn lemma_byte_prefix_mono(s: Seq<char>, a: int, b: int)
    requires
        a <= b,
    ensures
        byte_prefix(s, a).len() <= byte_prefix(s, b).len(),
    decreases s.len(),
{
    if s.len() > 0 && a >= crate::text::char_utf8_len(s[0]) {
        let w = crate::text::char_utf8_len(s[0]) as int;
        lemma_byte_prefix_mono(s.drop_first(), a - w, b - w);
    }
}

proof fn lemma_byte_prefix_bound(s: Seq<char>, a: int)
    ensures
        byte_prefix(s, a).len() <= s.len(),
    decreases s.len(),
{
    if s.len() > 0 && a >= crate::text::char_utf8_len(s[0]) {
        lemma_byte_prefix_bound(s.drop_first(), a - crate::text::char_utf8_len(s[0]));
    }
}

fn hex_byte_of(p: &Vec<char>, a: usize, b: usize) -> (r: u8)
    requires
        a <= b <= p@.len(),
    ensures
        r == hex_byte(p@.subrange(a as int, b as int)),
{
    let ghost q = p@.subrange(a as int, b as int);
    let mut start = a;
    if a < b && p[a] == '+' {
        start = a + 1;
    }
    let ghost d = p@.subrange(start as int, b as int);
    proof {
        if a < b {
            assert(q[0] == p@[a as int]);
        }
        if a < b && q[0] == '+' {
            assert(q.drop_first() =~= d);
        } else {
            assert(q =~= d);
        }
    }
    if start == b {
        return 0;
    }
    let mut v: u64 = 0;
    let mut i = start;
    while i < b
        invariant
            start <= i <= b <= p@.len(),
            d == p@.subrange(start as int, b as int),
            d.len() > 0,
            hex_byte(p@.subrange(a as int, b as int)) == hex_digits_byte(d),
            hex_digits_value(p@.subrange(start as int, i as int)) == Some(v as nat),
            v <= 255,
        decreases b - i,
    {
        let c = p[i];
        let x: u64 = if '0' <= c && c <= '9' {
            (c as u32 - 48) as u64
        } else if 'a' <= c && c <= 'f' {
            (c as u32 - 87) as u64
        } else if 'A' <= c && c <= 'F' {
            (c as u32 - 55) as u64
        } else {
            proof {
                assert(d[i - start] == c);
                lemma_hex_invalid_stays(d, i - start, b - start);
            }
            return 0;
        };
        proof {
            let pre = p@.subrange(start as int, i + 1);
            assert(pre.drop_last() =~= p@.subrange(start as int, i as int));
            assert(pre.last() == c);
        }
        if v * 16 + x > 255 {
            proof {
                assert(p@.subrange(start as int, i + 1) =~= d.subrange(0, i - start + 1));
                assert(hex_digits_value(d.subrange(0, i - start + 1)) == Some((v * 16 + x) as nat));
                lemma_hex_big_stays(d, i - start + 1, b - start);
            }
            return 0;
        }
        v = v * 16 + x;
        i = i + 1;
    }
    assert(d =~= p@.subrange(start as int, i as int));
    v as u8
}

/// Once a digit fails, the whole string fails.
proof fn lemma_hex_invalid_stays(d: Seq<char>, k: int, n: int)
    requires
        0 <= k < n == d.len(),
        hex_digit(d[k]) is None,
    ensures
        hex_digits_value(d) is None,
    decreases n - k,
{
    lemma_hex_invalid_prefix(d, k, n);
    assert(d.subrange(0, n) =~= d);
}

proof fn lemma_hex_invalid_prefix(d: Seq<char>, k: int, m: int)
    requires
        0 <= k < m <= d.len(),
        hex_digit(d[k]) is None,
    ensures
        hex_digits_value(d.subrange(0, m)) is None,
    decreases m - k,
{
    let pre = d.subrange(0, m);
    assert(pre.drop_last() =~= d.subrange(0, m - 1));
    if m - 1 > k {
        lemma_hex_invalid_prefix(d, k, m - 1);
    }
}

/// Once the value passes 255, the whole string's value does too, or fails.
proof fn lemma_hex_big_stays(d: Seq<char>, k: int, n: int)
    requires
        0 < k <= n == d.len(),
        hex_digits_value(d.subrange(0, k)) matches Some(v) && v > 255,
    ensures
        !(hex_digits_value(d) matches Some(v) && v <= 255),
    decreases n - k,
{
    if k < n {
        let pre = d.subrange(0, k + 1);
        assert(pre.drop_last() =~= d.subrange(0, k));
        match hex_digits_value(pre) {
            Some(w) => {
                lemma_hex_big_stays(d, k + 1, n);
            },
            None => {
                lemma_hex_none_stays(d, k + 1, n);
            },
        }
    } else {
        assert(d.subrange(0, k) =~= d);
    }
}

proof fn lemma_hex_none_stays(d: Seq<char>, k: int, n: int)
    requires
        0 < k <= n == d.len(),
        hex_digits_value(d.subrange(0, k)) is None,
    ensures
        hex_digits_value(d) is None,
    decreases n - k,
{
    if k < n {
        let pre = d.subrange(0, k + 1);
        assert(pre.drop_last() =~= d.subrange(0, k));
        lemma_hex_none_stays(d, k + 1, n);
    } else {
        assert(d.subrange(0, k) =~= d);
    }
}

/// The ANSI colour code of a hex colour such as `#FF0000`.
pub fn hex_to_ansi(hex: &str) -> (r: String)
    requires
        hex_cuts_cleanly(hex@),
    ensures
        r@ == ansi_of_hex(hex@),
{
    let h = strip_leading(hex, '#');
    if crate::text::byte_len(h.as_str()) != 6 {
        return String::new();
    }
    let v = chars_of(h.as_str());
    let (p2, _) = take_bytes(h.as_str(), 2);
    let (p4, _) = take_bytes(h.as_str(), 4);
    let (p6, _) = take_bytes(h.as_str(), 6);
    let a = crate::text::chars_of(p2.as_str()).len();
    let b = crate::text::chars_of(p4.as_str()).len();
    let c = crate::text::chars_of(p6.as_str()).len();
    proof {
        lemma_byte_prefix_mono(h@, 0, 2);
        lemma_byte_prefix_mono(h@, 2, 4);
        lemma_byte_prefix_mono(h@, 4, 6);
        lemma_byte_prefix_bound(h@, 6);
        assert(byte_prefix(h@, 0).len() == 0);
    }
    let r = hex_byte_of(&v, 0, a);
    let g = hex_byte_of(&v, a, b);
    let bl = hex_byte_of(&v, b, c);
    let mut out = owned("\x1b[38;2;");
    let rs = crate::text::u64_to_decimal(r as u64);
    push_str(&mut out, rs.as_str());
    push_str(&mut out, ";");
    let gs = crate::text::u64_to_decimal(g as u64);
    push_str(&mut out, gs.as_str());
    push_str(&mut out, ";");
    let bs = crate::text::u64_to_decimal(bl as u64);
    push_str(&mut out, bs.as_str());
    push_str(&mut out, "m");
    out
}

/// The code that resets colours.
pub fn ansi_reset() -> (r: String)
    ensures
        r@ == "\x1b[0m"@,
{
    owned("\x1b[0m")
}


/// Every colour of the skin splits cleanly as a hex colour.
pub open spec fn colors_clean(c: SkinColors) -> bool {
    forall|i: int| 0 <= i < 12 ==> hex_cuts_cleanly(#[trigger] color_list(c)[i])
}

/// The colour that a colour kind names: one of the banner colours, error,
/// warning, success or info; any other kind takes the banner text colour.
pub open spec fn color_for(c: SkinColors, kind: Seq<char>) -> Seq<char> {
    if kind == "banner_border"@ {
        c.banner_border@
    } else if kind == "banner_title"@ {
        c.banner_title@
    } else if kind == "banner_accent"@ {
        c.banner_accent@
    } else if kind == "banner_dim"@ {
        c.banner_dim@
    } else if kind == "error"@ {
        c.error@
    } else if kind == "warning"@ {
        c.warning@
    } else if kind == "success"@ {
        c.success@
    } else if kind == "info"@ {
        c.info@
    } else {
        c.banner_text@
    }
}

/// Text in a colour of the skin, with the reset code after it.
pub open spec fn colored(c: SkinColors, text: Seq<char>, kind: Seq<char>) -> Seq<char> {
    ansi_of_hex(color_for(c, kind)) + text + "\x1b[0m"@
}

fn color_ref<'a>(c: &'a SkinColors, kind: &str) -> (r: &'a String)
    ensures
        r@ == color_for(*c, kind@),
        colors_clean(*c) ==> hex_cuts_cleanly(r@),
{
    proof {
        if colors_clean(*c) {
            assert(hex_cuts_cleanly(color_list(*c)[0]));
            assert(hex_cuts_cleanly(color_list(*c)[1]));
            assert(hex_cuts_cleanly(color_list(*c)[2]));
            assert(hex_cuts_cleanly(color_list(*c)[3]));
            assert(hex_cuts_cleanly(color_list(*c)[4]));
            assert(hex_cuts_cleanly(color_list(*c)[7]));
            assert(hex_cuts_cleanly(color_list(*c)[8]));
            assert(hex_cuts_cleanly(color_list(*c)[9]));
            assert(hex_cuts_cleanly(color_list(*c)[10]));
        }
    }
    if str_eq(kind, "banner_border") {
        &c.banner_border
    } else if str_eq(kind, "banner_title") {
        &c.banner_title
    } else if str_eq(kind, "banner_accent") {
        &c.banner_accent
    } else if str_eq(kind, "banner_dim") {
        &c.banner_dim
    } else if str_eq(kind, "error") {
        &c.error
    } else if str_eq(kind, "warning") {
        &c.warning
    } else if str_eq(kind, "success") {
        &c.success
    } else if str_eq(kind, "info") {
        &c.info
    } else {
        &c.banner_text
    }
}

/// Text in a colour of the skin.
pub fn format_with_skin(skin: &SkinConfig, text: &str, color_type: &str) -> (r: String)
    requires
        colors_clean(skin.colors),
    ensures
        r@ == colored(skin.colors, text@, color_type@),
{
    let color = color_ref(&skin.colors, color_type);
    let mut out = hex_to_ansi(color.as_str());
    push_str(&mut out, text);
    push_str(&mut out, "\x1b[0m");
    out
}

/// `n` copies of `s`.
pub open spec fn repeat_seq(s: Seq<char>, n: nat) -> Seq<char>
    decreases n,
{
    if n == 0 {
        Seq::empty()
    } else {
        repeat_seq(s, (n - 1) as nat) + s
    }
}

fn repeat_str(s: &str, n: usize) -> (r: String)
    ensures
        r@ == repeat_seq(s@, n as nat),
{
    let mut out = String::new();
    let mut i: usize = 0;
    while i < n
        invariant
            i <= n,
            out@ == repeat_seq(s@, i as nat),
        decreases n - i,
    {
        push_str(&mut out, s);
        i = i + 1;
    }
    out
}

/// `s` centred in `w` characters with spaces (more on the right when the
/// padding is odd); `s` itself when it is not shorter.
pub open spec fn centered(s: Seq<char>, w: nat) -> Seq<char> {
    if s.len() >= w {
        s
    } else {
        let pad = (w - s.len()) as nat;
        repeat_seq(" "@, pad / 2) + s + repeat_seq(" "@, (pad - pad / 2) as nat)
    }
}

/// `s` padded on the right with spaces to `w` characters.
pub open spec fn left_aligned(s: Seq<char>, w: nat) -> Seq<char> {
    if s.len() >= w {
        s
    } else {
        s + repeat_seq(" "@, (w - s.len()) as nat)
    }
}

fn center_str(s: &str, w: usize) -> (r: String)
    ensures
        r@ == centered(s@, w as nat),
{
    let n = chars_of(s).len();
    if n >= w {
        return owned(s);
    }
    let pad = w - n;
    let mut out = repeat_str(" ", pad / 2);
    push_str(&mut out, s);
    let right = repeat_str(" ", pad - pad / 2);
    push_str(&mut out, right.as_str());
    out
}

fn left_str(s: &str, w: usize) -> (r: String)
    ensures
        r@ == left_aligned(s@, w as nat),
{
    let n = chars_of(s).len();
    if n >= w {
        return owned(s);
    }
    let mut out = owned(s);
    let right = repeat_str(" ", w - n);
    push_str(&mut out, right.as_str());
    out
}

/// One banner line: the border colour, `║`, the text, the reset code.
pub open spec fn banner_row(border: Seq<char>, body: Seq<char>) -> Seq<char> {
    ansi_of_hex(border) + "║"@ + body + "\x1b[0m"@ + "\n"@
}

/// A horizontal banner edge between `l` and `r`.
pub open spec fn banner_edge(border: Seq<char>, l: Seq<char>, r: Seq<char>) -> Seq<char> {
    ansi_of_hex(border) + l + repeat_seq("─"@, 60) + r + "\x1b[0m"@ + "\n"@
}

/// The lines of a banner body, each in the text colour, padded to 60.
pub open spec fn banner_body(c: SkinColors, lines: Seq<Seq<char>>) -> Seq<char>
    decreases lines.len(),
{
    if lines.len() == 0 {
        Seq::empty()
    } else {
        banner_body(c, lines.drop_last()) + banner_row(
            c.banner_border@,
            left_aligned(colored(c, lines.last(), "banner_text"@), 60),
        )
    }
}

/// The banner of a skin: a framed title and lines, 60 characters wide.
pub open spec fn banner_of(c: SkinColors, title: Seq<char>, lines: Seq<Seq<char>>) -> Seq<char> {
    ansi_of_hex(c.banner_border@) + "\n"@ + banner_edge(c.banner_border@, "╔"@, "╗"@) + banner_row(
        c.banner_border@,
        centered(colored(c, title, "banner_title"@), 60),
    ) + banner_edge(c.banner_border@, "╠"@, "╣"@) + banner_body(c, lines) + banner_edge(
        c.banner_border@,
        "╚"@,
        "╝"@,
    )
}

fn push_edge(out: &mut String, skin: &SkinConfig, l: &str, r: &str)
    requires
        colors_clean(skin.colors),
    ensures
        final(out)@ == old(out)@ + banner_edge(skin.colors.banner_border@, l@, r@),
{
    proof {
        assert(hex_cuts_cleanly(color_list(skin.colors)[0]));
    }
    let b = hex_to_ansi(skin.colors.banner_border.as_str());
    push_str(out, b.as_str());
    push_str(out, l);
    let line = repeat_str("─", 60);
    push_str(out, line.as_str());
    push_str(out, r);
    push_str(out, "\x1b[0m");
    push_str(out, "\n");
    assert(out@ =~= old(out)@ + banner_edge(skin.colors.banner_border@, l@, r@));
}

fn push_row(out: &mut String, skin: &SkinConfig, body: &str)
    requires
        colors_clean(skin.colors),
    ensures
        final(out)@ == old(out)@ + banner_row(skin.colors.banner_border@, body@),
{
    proof {
        assert(hex_cuts_cleanly(color_list(skin.colors)[0]));
    }
    let b = hex_to_ansi(skin.colors.banner_border.as_str());
    push_str(out, b.as_str());
    push_str(out, "║");
    push_str(out, body);
    push_str(out, "\x1b[0m");
    push_str(out, "\n");
    assert(out@ =~= old(out)@ + banner_row(skin.colors.banner_border@, body@));
}

/// A banner in the skin's colours: the title centred, then the lines.
pub fn format_banner(skin: &SkinConfig, title: &str, lines: Vec<&str>) -> (r: String)
    requires
        colors_clean(skin.colors),
    ensures
        r@ == banner_of(skin.colors, title@, crate::skills::str_views(lines@)),
{
    proof {
        assert(hex_cuts_cleanly(color_list(skin.colors)[0]));
    }
    let mut result = hex_to_ansi(skin.colors.banner_border.as_str());
    push_str(&mut result, "\n");
    push_edge(&mut result, skin, "╔", "╗");
    let t = format_with_skin(skin, title, "banner_title");
    let tc = center_str(t.as_str(), 60);
    push_row(&mut result, skin, tc.as_str());
    push_edge(&mut result, skin, "╠", "╣");
    let ghost start = result@;
    let mut i: usize = 0;
    while i < lines.len()
        invariant
            i <= lines@.len(),
            colors_clean(skin.colors),
            result@ == start + banner_body(skin.colors, crate::skills::str_views(lines@).subrange(0, i as int)),
        decreases lines.len() - i,
    {
        proof {
            let pre = crate::skills::str_views(lines@).subrange(0, i + 1);
            assert(pre.drop_last() =~= crate::skills::str_views(lines@).subrange(0, i as int));
            assert(pre.last() == lines@[i as int]@);
        }
        let t = format_with_skin(skin, lines[i], "banner_text");
        let tl = left_str(t.as_str(), 60);
        push_row(&mut result, skin, tl.as_str());
        i = i + 1;
    }
    proof {
        assert(crate::skills::str_views(lines@).subrange(0, lines@.len() as int) =~= crate::skills::str_views(lines@));
    }
    push_edge(&mut result, skin, "╚", "╝");
    result
}


impl Default for SkinConfig {
    /// The built-in default skin.
    fn default() -> (r: Self)
        ensures
            is_builtin_skin(r, 0),
    {
        skin_default()
    }
}

/// The built-in skin named `name`.
pub fn builtin_skin(name: &str) -> (r: Option<SkinConfig>)
    ensures
        match r {
            Some(s) => exists|i: int| 0 <= i < 4 && builtin_skin_names()[i] == name@ && is_builtin_skin(s, i),
            None => forall|i: int| 0 <= i < 4 ==> builtin_skin_names()[i] != name@,
        },
{
    let mut skins = built_in_skins();
    let mut i: usize = 0;
    while i < skins.len()
        invariant
            skins@.len() == 4,
            i <= 4,
            forall|k: int| 0 <= k < 4 ==> is_builtin_skin(#[trigger] skins@[k], k),
            forall|k: int| 0 <= k < i ==> builtin_skin_names()[k] != name@,
        decreases skins.len() - i,
    {
        if str_eq(skins[i].name.as_str(), name) {
            let ghost all = skins@;
            let s = skins.remove(i);
            assert(is_builtin_skin(all[i as int], i as int));
            return Some(s);
        }
        assert(skins@[i as int].name@ == builtin_skin_names()[i as int]);
        i = i + 1;
    }
    None
}

/// The skin named `name`: the user's skin of that name where one was read
/// (`user_skin`), else the built-in skin of that name, else the default.
pub fn load_skin(name: &str, user_skin: Option<SkinConfig>) -> (r: SkinConfig)
    ensures
        match user_skin {
            Some(u) => r == u,
            None => (exists|i: int| 0 <= i < 4 && builtin_skin_names()[i] == name@ && is_builtin_skin(r, i)) || (
            (forall|i: int| 0 <= i < 4 ==> builtin_skin_names()[i] != name@) && is_builtin_skin(r, 0)),
        },
{
    match user_skin {
        Some(u) => u,
        None => skin_or_default(name),
    }
}

/// The built-in skin named `name`, else the default skin (what loading a
/// skin gives when no user skin of that name is found).
pub fn skin_or_default(name: &str) -> (r: SkinConfig)
    ensures
        (exists|i: int| 0 <= i < 4 && builtin_skin_names()[i] == name@ && is_builtin_skin(r, i)) || (
        (forall|i: int| 0 <= i < 4 ==> builtin_skin_names()[i] != name@) && is_builtin_skin(r, 0)),
{
    match builtin_skin(name) {
        Some(s) => s,
        None => SkinConfig::default(),
    }
}

/// The listing lines of the built-in skins, the first `n` of them.
pub open spec fn builtin_lines(n: int) -> Seq<char>
    decreases n,
{
    if n <= 0 {
        Seq::empty()
    } else {
        builtin_lines(n - 1) + "- **"@ + builtin_skin_names()[n - 1] + "** - "@ + builtin_skin_descriptions()[n
            - 1] + "\n"@
    }
}

/// The listing lines of user skins.
pub open spec fn user_lines(names: Seq<Seq<char>>) -> Seq<char>
    decreases names.len(),
{
    if names.len() == 0 {
        Seq::empty()
    } else {
        user_lines(names.drop_last()) + "- **"@ + names.last() + "** (user-installed)\n"@
    }
}

/// The Markdown listing of the skins: the built-in ones, then the user
/// skins found (if any).
pub open spec fn skins_listing(user: Seq<Seq<char>>) -> Seq<char> {
    "# Available Skins\n\n"@ + "## Built-in Skins\n\n"@ + builtin_lines(4) + (if user.len() > 0 {
        "\n## User Skins\n\n"@ + user_lines(user)
    } else {
        Seq::empty()
    }) + "\nUse `/skin <name>` to switch skins.\n"@
}

/// Lists the skins, with the names of the user skins found on disk.
pub fn list_skins(user_skins: &[String]) -> (r: String)
    ensures
        r@ == skins_listing(crate::text::views(user_skins@)),
{
    let mut md = owned("# Available Skins\n\n");
    push_str(&mut md, "## Built-in Skins\n\n");
    let skins = built_in_skins();
    let ghost start = md@;
    let mut i: usize = 0;
    while i < skins.len()
        invariant
            i <= 4,
            skins@.len() == 4,
            forall|k: int| 0 <= k < 4 ==> is_builtin_skin(#[trigger] skins@[k], k),
            md@ == start + builtin_lines(i as int),
        decreases skins.len() - i,
    {
        assert(is_builtin_skin(skins@[i as int], i as int));
        push_str(&mut md, "- **");
        push_str(&mut md, skins[i].name.as_str());
        push_str(&mut md, "** - ");
        push_str(&mut md, skins[i].description.as_str());
        push_str(&mut md, "\n");
        assert(md@ =~= start + builtin_lines(i + 1));
        i = i + 1;
    }
    let ghost mid = md@;
    if user_skins.len() > 0 {
        push_str(&mut md, "\n## User Skins\n\n");
        let ghost ustart = md@;
        let mut j: usize = 0;
        while j < user_skins.len()
            invariant
                j <= user_skins@.len(),
                md@ == ustart + user_lines(crate::text::views(user_skins@).subrange(0, j as int)),
            decreases user_skins.len() - j,
        {
            proof {
                let pre = crate::text::views(user_skins@).subrange(0, j + 1);
                assert(pre.drop_last() =~= crate::text::views(user_skins@).subrange(0, j as int));
                assert(pre.last() == user_skins@[j as int]@);
            }
            push_str(&mut md, "- **");
            push_str(&mut md, user_skins[j].as_str());
            push_str(&mut md, "** (user-installed)\n");
            j = j + 1;
        }
        assert(crate::text::views(user_skins@).subrange(0, user_skins@.len() as int) =~= crate::text::views(user_skins@));
    }
    push_str(&mut md, "\nUse `/skin <name>` to switch skins.\n");
    md
}

} // verus!
