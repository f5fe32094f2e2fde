//! White-label branding: the platform's display names and styling.
//!
//! The configuration is a plain value; loading it from a product file or
//! from the process environment is the surrounding service's concern,
//! which hands the loaded value to these functions.
use crate::sys::current_year;
use crate::text::dec_seq;
use crate::text::find_char;
use crate::text::is_space_char;
use crate::text::find_idx;
use crate::text::is_space;
use crate::text::strip;
use crate::text::trim_matching;
use crate::text::trim_str;
use crate::text::u64_string;
use vstd::prelude::*;

verus! {

/// The platform's branding: names, contact points and styling.
#[derive(Debug, Clone)]
pub struct BrandingConfig {
    pub name: String,
    pub short_name: String,
    pub company: Option<String>,
    pub domain: Option<String>,
    pub support_email: Option<String>,
    pub logo_url: Option<String>,
    pub favicon_url: Option<String>,
    pub primary_color: Option<String>,
    pub secondary_color: Option<String>,
    pub footer_text: Option<String>,
    pub copyright: Option<String>,
    pub custom_css: Option<String>,
    pub terms_url: Option<String>,
    pub privacy_url: Option<String>,
    pub docs_url: Option<String>,
    pub is_white_label: bool,
}

/// The default copyright line for a given year.
pub open spec fn copyright_line(year: nat) -> Seq<char> {
    "© "@ + dec_seq(year) + " pragmatismo.com.br. All rights reserved."@
}

impl Default for BrandingConfig {
    /// The stock branding, with the copyright year taken from the clock.
    fn default() -> (r: Self)
        ensures
            r.name@ == "General Bots"@,
            r.short_name@ == "GB"@,
            r.company matches Some(c) && c@ == "pragmatismo.com.br"@,
            r.domain matches Some(d) && d@ == "generalbots.com"@,
            r.support_email matches Some(e) && e@ == "support@generalbots.com"@,
            r.logo_url is None,
            r.favicon_url is None,
            r.primary_color matches Some(p) && p@ == "#25d366"@,
            r.secondary_color matches Some(sc) && sc@ == "#075e54"@,
            r.footer_text is None,
            r.copyright matches Some(c) && exists|y: nat| c@ == #[trigger] copyright_line(y),
            r.custom_css is None,
            r.terms_url is None,
            r.privacy_url is None,
            r.docs_url matches Some(d) && d@ == "https://docs.generalbots.com"@,
            r.is_white_label == false,
    {
        let year = current_year();
        let year_u: u64 = if year < 0 {
            0
        } else {
            year as u64
        };
        let mut copyright = String::from_str("© ");
        let digits = u64_string(year_u);
        copyright.append(digits.as_str());
        copyright.append(" pragmatismo.com.br. All rights reserved.");
        proof {
            assert(copyright@ == copyright_line(year_u as nat));
        }
        BrandingConfig {
            name: String::from_str("General Bots"),
            short_name: String::from_str("GB"),
            company: Some(String::from_str("pragmatismo.com.br")),
            domain: Some(String::from_str("generalbots.com")),
            support_email: Some(String::from_str("support@generalbots.com")),
            logo_url: None,
            favicon_url: None,
            primary_color: Some(String::from_str("#25d366")),
            secondary_color: Some(String::from_str("#075e54")),
            footer_text: None,
            copyright: Some(copyright),
            custom_css: None,
            terms_url: None,
            privacy_url: None,
            docs_url: Some(String::from_str("https://docs.generalbots.com")),
            is_white_label: false,
        }
    }
}

/// The platform's display name.
pub fn platform_name(config: &BrandingConfig) -> (r: &String)
    ensures
        r == &config.name,
{
    &config.name
}

/// The platform's short name.
pub fn platform_short(config: &BrandingConfig) -> (r: &String)
    ensures
        r == &config.short_name,
{
    &config.short_name
}

/// Whether the platform runs under a white label.
pub fn is_white_label(config: &BrandingConfig) -> (r: bool)
    ensures
        r == config.is_white_label,
{
    config.is_white_label
}

/// The configured footer text, or "Powered by" the platform name.
pub fn footer_text(config: &BrandingConfig) -> (r: String)
    ensures
        config.footer_text matches Some(t) ==> r == t,
        config.footer_text is None ==> r@ == "Powered by "@ + config.name@,
{
    match &config.footer_text {
        Some(t) => t.clone(),
        None => {
            let mut s = String::from_str("Powered by ");
            s.append(config.name.as_str());
            s
        },
    }
}

/// The fallback copyright line for a year and an owner.
pub open spec fn copyright_fallback(year: nat, owner: Seq<char>) -> Seq<char> {
    "© "@ + dec_seq(year) + " "@ + owner
}

/// The configured copyright line, or one built from the current year
/// and the company (or, failing that, the platform) name.
pub fn copyright_text(config: &BrandingConfig) -> (r: String)
    ensures
        config.copyright matches Some(c) ==> r == c,
        config.copyright is None && config.company is Some ==> (exists|y: nat|
            r@ == #[trigger] copyright_fallback(y, (config.company->0)@)),
        config.copyright is None && config.company is None ==> (exists|y: nat|
            r@ == #[trigger] copyright_fallback(y, config.name@)),
{
    match &config.copyright {
        Some(c) => c.clone(),
        None => {
            let year = current_year();
            let year_u: u64 = if year < 0 {
                0
            } else {
                year as u64
            };
            let mut s = String::from_str("© ");
            let digits = u64_string(year_u);
            s.append(digits.as_str());
            s.append(" ");
            match &config.company {
                Some(co) => s.append(co.as_str()),
                None => s.append(config.name.as_str()),
            }
            proof {
                assert(config.company is Some ==> s@ == copyright_fallback(
                    year_u as nat,
                    (config.company->0)@,
                ));
                assert(config.company is None ==> s@ == copyright_fallback(
                    year_u as nat,
                    config.name@,
                ));
            }
            s
        },
    }
}

/// The platform's short name in brackets, for log lines.
pub fn log_prefix(config: &BrandingConfig) -> (r: String)
    ensures
        r@ == "["@ + config.short_name@ + "]"@,
{
    let mut s = String::from_str("[");
    s.append(config.short_name.as_str());
    s.append("]");
    s
}

/// The ASCII-lowercase form of a character.
pub open spec fn lower_char(c: char) -> char {
    if c == 'A' {
        'a'
    } else if c == 'B' {
        'b'
    } else if c == 'C' {
        'c'
    } else if c == 'D' {
        'd'
    } else if c == 'E' {
        'e'
    } else if c == 'F' {
        'f'
    } else if c == 'G' {
        'g'
    } else if c == 'H' {
        'h'
    } else if c == 'I' {
        'i'
    } else if c == 'J' {
        'j'
    } else if c == 'K' {
        'k'
    } else if c == 'L' {
        'l'
    } else if c == 'M' {
        'm'
    } else if c == 'N' {
        'n'
    } else if c == 'O' {
        'o'
    } else if c == 'P' {
        'p'
    } else if c == 'Q' {
        'q'
    } else if c == 'R' {
        'r'
    } else if c == 'S' {
        's'
    } else if c == 'T' {
        't'
    } else if c == 'U' {
        'u'
    } else if c == 'V' {
        'v'
    } else if c == 'W' {
        'w'
    } else if c == 'X' {
        'x'
    } else if c == 'Y' {
        'y'
    } else if c == 'Z' {
        'z'
    } else {
        c
    }
}

/// The ASCII-lowercase form of a character sequence.
pub open spec fn lower_seq(s: Seq<char>) -> Seq<char> {
    s.map_values(|c: char| lower_char(c))
}

/// The ASCII-lowercase form of one character.
fn lower_char_exec(c: char) -> (r: char)
    ensures
        r == lower_char(c),
{
    match c {
        'A' => 'a',
        'B' => 'b',
        'C' => 'c',
        'D' => 'd',
        'E' => 'e',
        'F' => 'f',
        'G' => 'g',
        'H' => 'h',
        'I' => 'i',
        'J' => 'j',
        'K' => 'k',
        'L' => 'l',
        'M' => 'm',
        'N' => 'n',
        'O' => 'o',
        'P' => 'p',
        'Q' => 'q',
        'R' => 'r',
        'S' => 's',
        'T' => 't',
        'U' => 'u',
        'V' => 'v',
        'W' => 'w',
        'X' => 'x',
        'Y' => 'y',
        'Z' => 'z',
        _ => c,
    }
}

/// Whether `key`, lowered to ASCII lowercase, equals `alias`.
fn key_matches(key: &str, alias: &str) -> (r: bool)
    ensures
        r == (lower_seq(key@) == alias@),
{
    let kl = key.unicode_len();
    let al = alias.unicode_len();
    if kl != al {
        return false;
    }
    let mut i: usize = 0;
    while i < kl
        invariant
            kl == key@.len(),
            kl == alias@.len(),
            i <= kl,
            forall|j: int| 0 <= j < i ==> lower_char(#[trigger] key@[j]) == alias@[j],
        decreases kl - i,
    {
        if lower_char_exec(key.get_char(i)) != alias.get_char(i) {
            proof {
                assert(lower_seq(key@)[i as int] != alias@[i as int]);
            }
            return false;
        }
        i = i + 1;
    }
    proof {
        assert(lower_seq(key@) =~= alias@);
    }
    true
}

/// Which branding field a product-file key, in any ASCII case and under
/// any of its accepted aliases, names.
pub enum ProductKey {
    Name,
    ShortName,
    Company,
    Domain,
    SupportEmail,
    LogoUrl,
    FaviconUrl,
    PrimaryColor,
    SecondaryColor,
    FooterText,
    Copyright,
    CustomCss,
    TermsUrl,
    PrivacyUrl,
    DocsUrl,
}

/// The field a key names, if it names one.
pub open spec fn product_key_of(k: Seq<char>) -> Option<ProductKey> {
    let lk = lower_seq(k);
    if lk == "name"@ || lk == "platform_name"@ {
        Some(ProductKey::Name)
    } else if lk == "short_name"@ || lk == "short"@ {
        Some(ProductKey::ShortName)
    } else if lk == "company"@ || lk == "organization"@ {
        Some(ProductKey::Company)
    } else if lk == "domain"@ {
        Some(ProductKey::Domain)
    } else if lk == "support_email"@ || lk == "email"@ {
        Some(ProductKey::SupportEmail)
    } else if lk == "logo_url"@ || lk == "logo"@ {
        Some(ProductKey::LogoUrl)
    } else if lk == "favicon_url"@ || lk == "favicon"@ {
        Some(ProductKey::FaviconUrl)
    } else if lk == "primary_color"@ || lk == "color"@ {
        Some(ProductKey::PrimaryColor)
    } else if lk == "secondary_color"@ {
        Some(ProductKey::SecondaryColor)
    } else if lk == "footer_text"@ || lk == "footer"@ {
        Some(ProductKey::FooterText)
    } else if lk == "copyright"@ {
        Some(ProductKey::Copyright)
    } else if lk == "custom_css"@ || lk == "css"@ {
        Some(ProductKey::CustomCss)
    } else if lk == "terms_url"@ || lk == "terms"@ {
        Some(ProductKey::TermsUrl)
    } else if lk == "privacy_url"@ || lk == "privacy"@ {
        Some(ProductKey::PrivacyUrl)
    } else if lk == "docs_url"@ || lk == "docs"@ {
        Some(ProductKey::DocsUrl)
    } else {
        None
    }
}

/// A product-file value with surrounding whitespace, then double
/// quotes, then single quotes stripped.
pub open spec fn strip_value(v: Seq<char>) -> Seq<char> {
    strip(
        strip(strip(v, |c: char| is_space(c)), |c: char| c == '"'),
        |c: char| c == (39 as u8) as char,
    )
}

/// The key and raw value of one product-file line: comments (starting
/// with `#` or `;`) and blank lines carry nothing, and everything else
/// splits at the first `=` (a line without one carries nothing).
pub open spec fn parse_product_line(line: Seq<char>) -> Option<(Seq<char>, Seq<char>)> {
    let t = strip(line, |c: char| is_space(c));
    if t.len() == 0 || t[0] == '#' || t[0] == ';' {
        None
    } else {
        let i = find_idx(t, '=');
        if i < 0 {
            None
        } else {
            Some(
                (
                    strip(t.subrange(0, i), |c: char| is_space(c)),
                    strip_value(t.subrange(i + 1, t.len() as int)),
                ),
            )
        }
    }
}

/// How one applied line relates the old and new configuration: the
/// named field holds the value, everything else is untouched.
pub open spec fn line_applied(
    a: BrandingConfig,
    b: BrandingConfig,
    f: ProductKey,
    v: Seq<char>,
) -> bool {
    match f {
        ProductKey::Name => b.name@ == v && b == (BrandingConfig { name: b.name, ..a }),
        ProductKey::ShortName => b.short_name@ == v && b == (BrandingConfig {
            short_name: b.short_name,
            ..a
        }),
        ProductKey::Company => (b.company matches Some(c) && c@ == v) && b == (BrandingConfig {
            company: b.company,
            ..a
        }),
        ProductKey::Domain => (b.domain matches Some(c) && c@ == v) && b == (BrandingConfig {
            domain: b.domain,
            ..a
        }),
        ProductKey::SupportEmail => (b.support_email matches Some(c) && c@ == v) && b == (
        BrandingConfig { support_email: b.support_email, ..a }),
        ProductKey::LogoUrl => (b.logo_url matches Some(c) && c@ == v) && b == (BrandingConfig {
            logo_url: b.logo_url,
            ..a
        }),
        ProductKey::FaviconUrl => (b.favicon_url matches Some(c) && c@ == v) && b == (
        BrandingConfig { favicon_url: b.favicon_url, ..a }),
        ProductKey::PrimaryColor => (b.primary_color matches Some(c) && c@ == v) && b == (
        BrandingConfig { primary_color: b.primary_color, ..a }),
        ProductKey::SecondaryColor => (b.secondary_color matches Some(c) && c@ == v) && b == (
        BrandingConfig { secondary_color: b.secondary_color, ..a }),
        ProductKey::FooterText => (b.footer_text matches Some(c) && c@ == v) && b == (
        BrandingConfig { footer_text: b.footer_text, ..a }),
        ProductKey::Copyright => (b.copyright matches Some(c) && c@ == v) && b == (BrandingConfig {
            copyright: b.copyright,
            ..a
        }),
        ProductKey::CustomCss => (b.custom_css matches Some(c) && c@ == v) && b == (BrandingConfig {
            custom_css: b.custom_css,
            ..a
        }),
        ProductKey::TermsUrl => (b.terms_url matches Some(c) && c@ == v) && b == (BrandingConfig {
            terms_url: b.terms_url,
            ..a
        }),
        ProductKey::PrivacyUrl => (b.privacy_url matches Some(c) && c@ == v) && b == (
        BrandingConfig { privacy_url: b.privacy_url, ..a }),
        ProductKey::DocsUrl => (b.docs_url matches Some(c) && c@ == v) && b == (BrandingConfig {
            docs_url: b.docs_url,
            ..a
        }),
    }
}

/// Applies one line of a product file to the configuration: comment and
/// blank lines do nothing, `key = value` lines (keys case-insensitive,
/// values unquoted) set the named field, unknown keys do nothing.
pub fn apply_product_line(config: &mut BrandingConfig, line: &str)
    ensures
        ({
            match parse_product_line(line@) {
                None => *final(config) == *old(config),
                Some(kv) => match product_key_of(kv.0) {
                    None => *final(config) == *old(config),
                    Some(f) => line_applied(*old(config), *final(config), f, kv.1),
                },
            }
        }),
{
    let t = trim_str(line);
    let tl = t.unicode_len();
    if tl == 0 {
        return;
    }
    let c0 = t.get_char(0);
    if c0 == '#' || c0 == ';' {
        return;
    }
    let eq: usize = match find_char(t, '=') {
        Some(i) => i,
        None => {
            return;
        },
    };
    proof {
        crate::text::lemma_find_idx(t@, '=');
    }
    let raw_key = t.substring_char(0, eq);
    let raw_value = t.substring_char(eq + 1, tl);
    let key = trim_str(raw_key);
    let v1 = trim_str(raw_value);
    let v2 = trim_matching(v1, '"');
    let value = trim_matching(v2, (39 as u8) as char);
    if key_matches(key, "name") || key_matches(key, "platform_name") {
        config.name = value.to_owned();
    } else if key_matches(key, "short_name") || key_matches(key, "short") {
        config.short_name = value.to_owned();
    } else if key_matches(key, "company") || key_matches(key, "organization") {
        config.company = Some(value.to_owned());
    } else if key_matches(key, "domain") {
        config.domain = Some(value.to_owned());
    } else if key_matches(key, "support_email") || key_matches(key, "email") {
        config.support_email = Some(value.to_owned());
    } else if key_matches(key, "logo_url") || key_matches(key, "logo") {
        config.logo_url = Some(value.to_owned());
    } else if key_matches(key, "favicon_url") || key_matches(key, "favicon") {
        config.favicon_url = Some(value.to_owned());
    } else if key_matches(key, "primary_color") || key_matches(key, "color") {
        config.primary_color = Some(value.to_owned());
    } else if key_matches(key, "secondary_color") {
        config.secondary_color = Some(value.to_owned());
    } else if key_matches(key, "footer_text") || key_matches(key, "footer") {
        config.footer_text = Some(value.to_owned());
    } else if key_matches(key, "copyright") {
        config.copyright = Some(value.to_owned());
    } else if key_matches(key, "custom_css") || key_matches(key, "css") {
        config.custom_css = Some(value.to_owned());
    } else if key_matches(key, "terms_url") || key_matches(key, "terms") {
        config.terms_url = Some(value.to_owned());
    } else if key_matches(key, "privacy_url") || key_matches(key, "privacy") {
        config.privacy_url = Some(value.to_owned());
    } else if key_matches(key, "docs_url") || key_matches(key, "docs") {
        config.docs_url = Some(value.to_owned());
    }
}

/// The ASCII-uppercase form of a character.
pub open spec fn upper_char(c: char) -> char {
    if c == 'a' {
        'A'
    } else if c == 'b' {
        'B'
    } else if c == 'c' {
        'C'
    } else if c == 'd' {
        'D'
    } else if c == 'e' {
        'E'
    } else if c == 'f' {
        'F'
    } else if c == 'g' {
        'G'
    } else if c == 'h' {
        'H'
    } else if c == 'i' {
        'I'
    } else if c == 'j' {
        'J'
    } else if c == 'k' {
        'K'
    } else if c == 'l' {
        'L'
    } else if c == 'm' {
        'M'
    } else if c == 'n' {
        'N'
    } else if c == 'o' {
        'O'
    } else if c == 'p' {
        'P'
    } else if c == 'q' {
        'Q'
    } else if c == 'r' {
        'R'
    } else if c == 's' {
        'S'
    } else if c == 't' {
        'T'
    } else if c == 'u' {
        'U'
    } else if c == 'v' {
        'V'
    } else if c == 'w' {
        'W'
    } else if c == 'x' {
        'X'
    } else if c == 'y' {
        'Y'
    } else if c == 'z' {
        'Z'
    } else {
        c
    }
}

/// The uppercased first characters of the whitespace-separated words of
/// `s`; `in_word` says whether `s` starts in the middle of a word.
pub open spec fn word_initials(s: Seq<char>, in_word: bool) -> Seq<char>
    decreases s.len(),
{
    if s.len() == 0 {
        Seq::empty()
    } else if is_space(s[0]) {
        word_initials(s.drop_first(), false)
    } else if in_word {
        word_initials(s.drop_first(), true)
    } else {
        seq![upper_char(s[0])] + word_initials(s.drop_first(), true)
    }
}

/// The single-character uppercase string for a lowercase ASCII letter,
/// and nothing for a character that is its own uppercase form here.
fn ascii_upper_str(c: char) -> (r: Option<&'static str>)
    ensures
        r matches Some(u) ==> u@ == seq![upper_char(c)],
        r is None ==> upper_char(c) == c,
{
    let r: Option<&'static str> = match c {
        'a' => Some("A"),
        'b' => Some("B"),
        'c' => Some("C"),
        'd' => Some("D"),
        'e' => Some("E"),
        'f' => Some("F"),
        'g' => Some("G"),
        'h' => Some("H"),
        'i' => Some("I"),
        'j' => Some("J"),
        'k' => Some("K"),
        'l' => Some("L"),
        'm' => Some("M"),
        'n' => Some("N"),
        'o' => Some("O"),
        'p' => Some("P"),
        'q' => Some("Q"),
        'r' => Some("R"),
        's' => Some("S"),
        't' => Some("T"),
        'u' => Some("U"),
        'v' => Some("V"),
        'w' => Some("W"),
        'x' => Some("X"),
        'y' => Some("Y"),
        'z' => Some("Z"),
        _ => None,
    };
    proof {
        if c == 'a' {
            reveal_strlit("A");
            assert("A"@ =~= seq![upper_char(c)]);
        } else if c == 'b' {
            reveal_strlit("B");
            assert("B"@ =~= seq![upper_char(c)]);
        } else if c == 'c' {
            reveal_strlit("C");
            assert("C"@ =~= seq![upper_char(c)]);
        } else if c == 'd' {
            reveal_strlit("D");
            assert("D"@ =~= seq![upper_char(c)]);
        } else if c == 'e' {
            reveal_strlit("E");
            assert("E"@ =~= seq![upper_char(c)]);
        } else if c == 'f' {
            reveal_strlit("F");
            assert("F"@ =~= seq![upper_char(c)]);
        } else if c == 'g' {
            reveal_strlit("G");
            assert("G"@ =~= seq![upper_char(c)]);
        } else if c == 'h' {
            reveal_strlit("H");
            assert("H"@ =~= seq![upper_char(c)]);
        } else if c == 'i' {
            reveal_strlit("I");
            assert("I"@ =~= seq![upper_char(c)]);
        } else if c == 'j' {
            reveal_strlit("J");
            assert("J"@ =~= seq![upper_char(c)]);
        } else if c == 'k' {
            reveal_strlit("K");
            assert("K"@ =~= seq![upper_char(c)]);
        } else if c == 'l' {
            reveal_strlit("L");
            assert("L"@ =~= seq![upper_char(c)]);
        } else if c == 'm' {
            reveal_strlit("M");
            assert("M"@ =~= seq![upper_char(c)]);
        } else if c == 'n' {
            reveal_strlit("N");
            assert("N"@ =~= seq![upper_char(c)]);
        } else if c == 'o' {
            reveal_strlit("O");
            assert("O"@ =~= seq![upper_char(c)]);
        } else if c == 'p' {
            reveal_strlit("P");
            assert("P"@ =~= seq![upper_char(c)]);
        } else if c == 'q' {
            reveal_strlit("Q");
            assert("Q"@ =~= seq![upper_char(c)]);
        } else if c == 'r' {
            reveal_strlit("R");
            assert("R"@ =~= seq![upper_char(c)]);
        } else if c == 's' {
            reveal_strlit("S");
            assert("S"@ =~= seq![upper_char(c)]);
        } else if c == 't' {
            reveal_strlit("T");
            assert("T"@ =~= seq![upper_char(c)]);
        } else if c == 'u' {
            reveal_strlit("U");
            assert("U"@ =~= seq![upper_char(c)]);
        } else if c == 'v' {
            reveal_strlit("V");
            assert("V"@ =~= seq![upper_char(c)]);
        } else if c == 'w' {
            reveal_strlit("W");
            assert("W"@ =~= seq![upper_char(c)]);
        } else if c == 'x' {
            reveal_strlit("X");
            assert("X"@ =~= seq![upper_char(c)]);
        } else if c == 'y' {
            reveal_strlit("Y");
            assert("Y"@ =~= seq![upper_char(c)]);
        } else if c == 'z' {
            reveal_strlit("Z");
            assert("Z"@ =~= seq![upper_char(c)]);
        }
    }
    r
}

/// A short name derived from a platform name: the first character of
/// each whitespace-separated word, in ASCII uppercase.
pub fn derive_short_name(name: &str) -> (r: String)
    ensures
        r@ == word_initials(name@, false),
{
    let len = name.unicode_len();
    let mut out = String::new();
    let mut in_word = false;
    let mut i: usize = 0;
    proof {
        assert(name@.skip(0) =~= name@);
        assert(out@ + word_initials(name@.skip(0), false) =~= word_initials(name@, false));
    }
    while i < len
        invariant
            len == name@.len(),
            i <= len,
            out@ + word_initials(name@.skip(i as int), in_word) == word_initials(name@, false),
        decreases len - i,
    {
        let ghost rest = name@.skip(i as int);
        proof {
            assert(rest[0] == name@[i as int]);
            assert(rest.drop_first() =~= name@.skip(i + 1));
        }
        let c = name.get_char(i);
        if is_space_char(c) {
            in_word = false;
        } else if in_word {
        } else {
            let ghost out0 = out@;
            match ascii_upper_str(c) {
                Some(u) => out.append(u),
                None => {
                    let one = name.substring_char(i, i + 1);
                    proof {
                        assert(one@ =~= seq![upper_char(c)]);
                    }
                    out.append(one);
                },
            }
            proof {
                assert(out@ =~= out0 + seq![upper_char(c)]);
                assert(out@ + word_initials(name@.skip(i + 1), true) =~= out0 + word_initials(
                    rest,
                    false,
                ));
            }
            in_word = true;
        }
        i = i + 1;
    }
    proof {
        assert(name@.skip(len as int) =~= Seq::<char>::empty());
        assert(out@ =~= word_initials(name@, false));
    }
    out
}

} // verus!
