//! The argument interpreter: turns the ordered list of command-line tokens
//! into a validated `Request` or a terminal directive.
//!
//! Flags repeat with last-writer-wins semantics; a dash-prefixed numeric
//! token selects a level, validated against whichever mode is active at that
//! point in the token stream (not the final mode); the first two bare tokens
//! name the input and output paths; a third is a hard parse error.

use vstd::prelude::*;
use vstd::string::StrSliceExecFns;
use vstd::string::StringExecFns;

verus! {

/// Whether an invocation compresses or reconstructs text.
#[derive(Clone, Copy, PartialEq, Eq, Structural, Debug)]
pub enum Mode {
    Compress,
    Decompress,
}

/// The level ranges are asymmetric by design: five compression levels,
/// only four decompression levels.
pub open spec fn level_in_range(mode: Mode, level: nat) -> bool {
    1 <= level <= max_level(mode)
}

/// The highest level each mode accepts.
pub open spec fn max_level(mode: Mode) -> nat {
    match mode {
        Mode::Compress => 5,
        Mode::Decompress => 4,
    }
}

/// An ASCII decimal digit.
pub open spec fn is_digit_char(c: char) -> bool {
    48 <= c as u32 <= 57
}

/// The numeric value of an ASCII decimal digit.
pub open spec fn digit_value(c: char) -> nat
    recommends
        is_digit_char(c),
{
    (c as u32 - 48) as nat
}

/// Every character of `s` is an ASCII decimal digit.
pub open spec fn all_digits(s: Seq<char>) -> bool {
    forall|i: int| 0 <= i < s.len() ==> is_digit_char(#[trigger] s[i])
}

/// The digit run of a non-negative integer token: an optional leading `+`
/// followed by one or more decimal digits. `None` when `s` is not of that
/// shape.
pub open spec fn numeric_body(s: Seq<char>) -> Option<Seq<char>> {
    let digits = if s.len() > 0 && s[0] == '+' {
        s.drop_first()
    } else {
        s
    };
    if digits.len() > 0 && all_digits(digits) {
        Some(digits)
    } else {
        None
    }
}

/// Drops every leading `'0'`.
pub open spec fn strip_zeros(s: Seq<char>) -> Seq<char>
    decreases s.len(),
{
    if s.len() > 0 && s[0] == '0' {
        strip_zeros(s.drop_first())
    } else {
        s
    }
}

/// The canonical decimal spelling of the value a digit run denotes:
/// leading zeros dropped, except that an all-zero run denotes `"0"`.
pub open spec fn canonical_digits(s: Seq<char>) -> Seq<char> {
    if strip_zeros(s).len() == 0 {
        seq!['0']
    } else {
        strip_zeros(s)
    }
}

/// A canonical digit run denotes a value in `[1, hi]` exactly when it is a
/// single digit in that range (`hi` is at most 9 here).
pub open spec fn canonical_in_range(canon: Seq<char>, hi: nat) -> bool {
    canon.len() == 1 && 1 <= digit_value(canon[0]) <= hi
}

/// The mathematical form of a validated `Request`.
pub ghost struct SpecRequest {
    pub mode: Mode,
    pub level: nat,
    pub input: Option<Seq<char>>,
    pub output: Option<Seq<char>>,
}

/// The mathematical form of a `ParseError`.
pub ghost enum SpecParseError {
    /// The dash-prefixed token that is neither a known flag nor numeric.
    InvalidOption(Seq<char>),
    /// The canonical spelling of a level outside `[1, 5]` while compressing.
    InvalidCompressionLevel(Seq<char>),
    /// The canonical spelling of a level outside `[1, 4]` while decompressing.
    InvalidDecompressionLevel(Seq<char>),
    /// A third bare token, when input and output are already claimed.
    TooManyArguments,
}

/// The mathematical form of a `Directive`.
pub ghost enum SpecDirective {
    Help,
    Version,
    Fail(SpecParseError),
    Run(SpecRequest),
}

/// One step of the interpreter, left to right from token `i`, carrying the
/// mode, level, input and output accumulated so far. The first terminal
/// token (help, version, or any parse error) wins; an exhausted list yields
/// the accumulated request.
pub open spec fn interpret_from(
    tokens: Seq<Seq<char>>,
    i: int,
    mode: Mode,
    level: nat,
    input: Option<Seq<char>>,
    output: Option<Seq<char>>,
) -> SpecDirective
    decreases tokens.len() - i,
{
    if i < 0 || i >= tokens.len() {
        SpecDirective::Run(SpecRequest { mode, level, input, output })
    } else {
        let t = tokens[i];
        if t == "-h"@ || t == "--help"@ {
            SpecDirective::Help
        } else if t == "-v"@ || t == "--version"@ {
            SpecDirective::Version
        } else if t == "-c"@ || t == "--compress"@ {
            interpret_from(tokens, i + 1, Mode::Compress, level, input, output)
        } else if t == "-d"@ || t == "--decompress"@ {
            interpret_from(tokens, i + 1, Mode::Decompress, level, input, output)
        } else if t.len() > 0 && t[0] == '-' {
            match numeric_body(t.drop_first()) {
                None => SpecDirective::Fail(SpecParseError::InvalidOption(t)),
                Some(digits) => {
                    let canon = canonical_digits(digits);
                    if canonical_in_range(canon, max_level(mode)) {
                        interpret_from(tokens, i + 1, mode, digit_value(canon[0]), input, output)
                    } else {
                        SpecDirective::Fail(
                            match mode {
                                Mode::Compress => SpecParseError::InvalidCompressionLevel(canon),
                                Mode::Decompress => SpecParseError::InvalidDecompressionLevel(
                                    canon,
                                ),
                            },
                        )
                    }
                },
            }
        } else if input is None {
            interpret_from(tokens, i + 1, mode, level, Some(t), output)
        } else if output is None {
            interpret_from(tokens, i + 1, mode, level, input, Some(t))
        } else {
            SpecDirective::Fail(SpecParseError::TooManyArguments)
        }
    }
}

/// What the full token list means: an empty list asks for help; otherwise
/// interpretation starts with mode Compress and level 3, no input, no
/// output.
pub open spec fn interpret_tokens(tokens: Seq<Seq<char>>) -> SpecDirective {
    if tokens.len() == 0 {
        SpecDirective::Help
    } else {
        interpret_from(tokens, 0, Mode::Compress, 3, None, None)
    }
}

/// The fully validated description of one invocation. `None` for input or
/// output selects the standard stream. The level was checked against the
/// mode that was active when its flag appeared, so after a later mode flag
/// it can sit outside the final mode's range.
#[derive(Clone, PartialEq, Eq, Debug)]
pub struct Request {
    pub mode: Mode,
    pub level: u8,
    pub input: Option<String>,
    pub output: Option<String>,
}

impl View for Request {
    type V = SpecRequest;

    open spec fn view(&self) -> SpecRequest {
        SpecRequest {
            mode: self.mode,
            level: self.level as nat,
            input: self.input.deep_view(),
            output: self.output.deep_view(),
        }
    }
}

impl Request {
    /// The stored level lies in the range of the stored mode.
    pub open spec fn valid(&self) -> bool {
        level_in_range(self.mode, self.level as nat)
    }

    /// Decides `valid` at run time.
    pub fn is_valid(&self) -> (r: bool)
        ensures
            r == self.valid(),
    {
        let hi: u8 = match self.mode {
            Mode::Compress => 5,
            Mode::Decompress => 4,
        };
        1 <= self.level && self.level <= hi
    }
}

/// A rejected argument list, carrying what the diagnostic line echoes.
#[derive(Clone, PartialEq, Eq, Debug)]
pub enum ParseError {
    /// The dash-prefixed token that is neither a known flag nor numeric.
    InvalidOption(String),
    /// The canonical spelling of a level outside `[1, 5]` while compressing.
    InvalidCompressionLevel(String),
    /// The canonical spelling of a level outside `[1, 4]` while decompressing.
    InvalidDecompressionLevel(String),
    /// A third bare token, when input and output are already claimed.
    TooManyArguments,
}

impl SpecParseError {
    /// The one-line diagnostic a rejected argument list produces. Level
    /// rejections echo the canonical spelling of the literal level value.
    pub open spec fn message(&self) -> Seq<char> {
        match self {
            SpecParseError::InvalidOption(t) => "invalid option: "@ + *t,
            SpecParseError::InvalidCompressionLevel(d) => "invalid compression level: "@ + *d,
            SpecParseError::InvalidDecompressionLevel(d) => "invalid decompression level: "@ + *d,
            SpecParseError::TooManyArguments => "too many arguments"@,
        }
    }
}

impl ParseError {
    /// Renders the one-line diagnostic for this error.
    pub fn message(&self) -> (r: String)
        ensures
            r@ == self@.message(),
    {
        match self {
            ParseError::InvalidOption(t) => String::from_str("invalid option: ").concat(
                t.as_str(),
            ),
            ParseError::InvalidCompressionLevel(d) => String::from_str(
                "invalid compression level: ",
            ).concat(d.as_str()),
            ParseError::InvalidDecompressionLevel(d) => String::from_str(
                "invalid decompression level: ",
            ).concat(d.as_str()),
            ParseError::TooManyArguments => String::from_str("too many arguments"),
        }
    }
}

impl View for ParseError {
    type V = SpecParseError;

    open spec fn view(&self) -> SpecParseError {
        match self {
            ParseError::InvalidOption(t) => SpecParseError::InvalidOption(t@),
            ParseError::InvalidCompressionLevel(d) => SpecParseError::InvalidCompressionLevel(d@),
            ParseError::InvalidDecompressionLevel(d) => SpecParseError::InvalidDecompressionLevel(
                d@,
            ),
            ParseError::TooManyArguments => SpecParseError::TooManyArguments,
        }
    }
}

/// What an argument list asks the tool to do.
#[derive(Clone, PartialEq, Eq, Debug)]
pub enum Directive {
    /// Render the usage text and stop, successfully.
    Help,
    /// Render the version line and stop, successfully.
    Version,
    /// Render the diagnostic and stop with a non-success indication.
    Fail(ParseError),
    /// Transform text as the request describes.
    Run(Request),
}

impl View for Directive {
    type V = SpecDirective;

    open spec fn view(&self) -> SpecDirective {
        match self {
            Directive::Help => SpecDirective::Help,
            Directive::Version => SpecDirective::Version,
            Directive::Fail(e) => SpecDirective::Fail(e@),
            Directive::Run(r) => SpecDirective::Run(r@),
        }
    }
}

/// `strip_zeros` keeps exactly the suffix that starts at the first
/// character that is not `'0'`.
proof fn lemma_strip_zeros_at(s: Seq<char>, k: int)
    requires
        0 <= k <= s.len(),
        forall|i: int| 0 <= i < k ==> s[i] == '0',
        k == s.len() || s[k] != '0',
    ensures
        strip_zeros(s) == s.subrange(k, s.len() as int),
    decreases k,
{
    if k == 0 {
        assert(s.subrange(0, s.len() as int) =~= s);
    } else {
        let s1 = s.drop_first();
        lemma_strip_zeros_at(s1, k - 1);
        assert(s1.subrange(k - 1, s1.len() as int) =~= s.subrange(k, s.len() as int));
    }
}

/// What a dash-prefixed token's remainder scans to.
enum Scanned {
    /// The remainder is not a non-negative integer.
    NotNumeric,
    /// The remainder denotes a single-digit value; the string is its
    /// canonical spelling, one digit.
    Single(u8, String),
    /// The remainder denotes a value of ten or more; the string is its
    /// canonical spelling, two or more digits.
    Multi(String),
}

/// Scans the remainder of a dash-prefixed token for a non-negative integer
/// and canonicalizes its spelling.
fn scan_numeric(t: &String) -> (r: Scanned)
    requires
        t@.len() >= 1,
    ensures
        r is NotNumeric <==> numeric_body(t@.drop_first()) is None,
        r matches Scanned::Single(v, s) ==> {
            &&& numeric_body(t@.drop_first()) matches Some(d) && canonical_digits(d) == s@
            &&& s@.len() == 1
            &&& is_digit_char(s@[0])
            &&& digit_value(s@[0]) == v as nat
            &&& v <= 9
        },
        r matches Scanned::Multi(s) ==> {
            &&& numeric_body(t@.drop_first()) matches Some(d) && canonical_digits(d) == s@
            &&& s@.len() >= 2
        },
{
    let s = t.as_str();
    let n = s.unicode_len();
    let ghost body = t@.drop_first();
    let has_plus = n >= 2 && s.get_char(1) == '+';
    let start: usize = if has_plus {
        2
    } else {
        1
    };
    let ghost digits = t@.subrange(start as int, n as int);
    proof {
        if has_plus {
            assert(body.drop_first() =~= digits);
        } else {
            assert(body =~= digits);
        }
    }
    if start >= n {
        assert(digits.len() == 0);
        return Scanned::NotNumeric;
    }
    proof {
        assert(numeric_body(body) == (if all_digits(digits) {
            Some(digits)
        } else {
            Option::<Seq<char>>::None
        }));
    }
    let mut j: usize = start;
    let mut z: usize = start;
    while j < n
        invariant
            s@ == t@,
            n == t@.len(),
            1 <= start < n,
            digits == t@.subrange(start as int, n as int),
            numeric_body(t@.drop_first()) == (if all_digits(digits) {
                Some(digits)
            } else {
                Option::<Seq<char>>::None
            }),
            start <= z <= j <= n,
            forall|k: int| start <= k < j ==> is_digit_char(#[trigger] t@[k]),
            forall|k: int| start <= k < z ==> t@[k] == '0',
            z < j ==> t@[z as int] != '0',
        decreases n - j,
    {
        let c = s.get_char(j);
        let u = c as u32;
        if u < 48 || u > 57 {
            assert(digits[j - start] == t@[j as int]);
            assert(!all_digits(digits));
            return Scanned::NotNumeric;
        }
        if z == j && c == '0' {
            z = j + 1;
        }
        j += 1;
    }
    proof {
        assert forall|i: int| 0 <= i < digits.len() implies is_digit_char(#[trigger] digits[i]) by {
            assert(digits[i] == t@[start + i]);
        }
        assert(numeric_body(body) == Some(digits));
        lemma_strip_zeros_at(digits, z as int - start as int);
        assert(strip_zeros(digits) =~= t@.subrange(z as int, n as int));
    }
    if z == n {
        let echo = String::from_str(s.substring_char(n - 1, n));
        proof {
            assert(strip_zeros(digits).len() == 0);
            assert(t@[n - 1] == '0');
            assert(echo@ =~= seq!['0']);
            assert(canonical_digits(digits) == seq!['0']);
        }
        return Scanned::Single(0, echo);
    }
    let echo = String::from_str(s.substring_char(z, n));
    proof {
        assert(strip_zeros(digits).len() > 0);
        assert(canonical_digits(digits) == echo@);
    }
    if n - z == 1 {
        let c = s.get_char(z);
        assert(is_digit_char(t@[z as int]));
        let v: u8 = ((c as u32) - 48) as u8;
        proof {
            assert(echo@[0] == t@[z as int]);
        }
        return Scanned::Single(v, echo);
    }
    Scanned::Multi(echo)
}

/// Decides whether a token is exactly the given flag spelling.
fn token_is(t: &String, lit: &str) -> (r: bool)
    ensures
        r == (t@ == lit@),
{
    let l = String::from_str(lit);
    *t == l
}

/// Interprets the full ordered list of command-line tokens (the program name
/// excluded), left to right. Flags repeat with last-writer-wins semantics; a
/// level flag is validated against the mode active at that moment; the first
/// two bare tokens become input and output. The result is exactly
/// `interpret_tokens` applied to the token views.
pub fn interpret(tokens: &Vec<String>) -> (d: Directive)
    ensures
        d@ == interpret_tokens(tokens.deep_view()),
{
    let ghost tv = tokens.deep_view();
    if tokens.len() == 0 {
        return Directive::Help;
    }
    let mut mode = Mode::Compress;
    let mut level: u8 = 3;
    let mut input: Option<String> = None;
    let mut output: Option<String> = None;
    let mut i: usize = 0;
    while i < tokens.len()
        invariant
            tv == tokens.deep_view(),
            tv.len() == tokens@.len(),
            0 <= i <= tokens@.len(),
            tv.len() > 0,
            1 <= level <= 5,
            interpret_from(
                tv,
                i as int,
                mode,
                level as nat,
                input.deep_view(),
                output.deep_view(),
            ) == interpret_tokens(tv),
        decreases tokens@.len() - i,
    {
        let t = &tokens[i];
        proof {
            assert(tv[i as int] == tokens@[i as int]@);
        }
        if token_is(t, "-h") || token_is(t, "--help") {
            return Directive::Help;
        } else if token_is(t, "-v") || token_is(t, "--version") {
            return Directive::Version;
        } else if token_is(t, "-c") || token_is(t, "--compress") {
            mode = Mode::Compress;
        } else if token_is(t, "-d") || token_is(t, "--decompress") {
            mode = Mode::Decompress;
        } else {
            let n = t.as_str().unicode_len();
            if n > 0 && t.as_str().get_char(0) == '-' {
                let hi: u8 = match mode {
                    Mode::Compress => 5,
                    Mode::Decompress => 4,
                };
                match scan_numeric(t) {
                    Scanned::NotNumeric => {
                        return Directive::Fail(ParseError::InvalidOption(t.clone()));
                    },
                    Scanned::Single(v, echo) => {
                        if 1 <= v && v <= hi {
                            level = v;
                        } else {
                            return Directive::Fail(
                                match mode {
                                    Mode::Compress => ParseError::InvalidCompressionLevel(echo),
                                    Mode::Decompress => ParseError::InvalidDecompressionLevel(
                                        echo,
                                    ),
                                },
                            );
                        }
                    },
                    Scanned::Multi(echo) => {
                        return Directive::Fail(
                            match mode {
                                Mode::Compress => ParseError::InvalidCompressionLevel(echo),
                                Mode::Decompress => ParseError::InvalidDecompressionLevel(echo),
                            },
                        );
                    },
                }
            } else if input.is_none() {
                input = Some(t.clone());
            } else if output.is_none() {
                output = Some(t.clone());
            } else {
                return Directive::Fail(ParseError::TooManyArguments);
            }
        }
        i = i + 1;
    }
    Directive::Run(Request { mode, level, input, output })
}

} // verus!
