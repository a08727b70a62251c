//! Laws of the argument interpreter, proved against the interpretation
//! function itself.

use crate::args::Mode;
use crate::args::SpecDirective;
use crate::args::SpecParseError;
use crate::args::SpecRequest;
use crate::args::canonical_digits;
use crate::args::canonical_in_range;
use crate::args::digit_value;
use crate::args::interpret_from;
use crate::args::interpret_tokens;
use crate::args::max_level;
use crate::args::numeric_body;
use vstd::prelude::*;

verus! {

/// A token the interpreter takes as a positional path: empty, or not
/// dash-prefixed.
pub open spec fn is_bare_token(t: Seq<char>) -> bool {
    t.len() == 0 || t[0] != '-'
}

/// A token that selects a mode.
pub open spec fn is_mode_flag(t: Seq<char>) -> bool {
    t == "-c"@ || t == "--compress"@ || t == "-d"@ || t == "--decompress"@
}

/// The mode a mode flag selects.
pub open spec fn flag_mode(t: Seq<char>) -> Mode
    recommends
        is_mode_flag(t),
{
    if t == "-c"@ || t == "--compress"@ {
        Mode::Compress
    } else {
        Mode::Decompress
    }
}

/// The characters of every flag spelling the interpreter knows.
proof fn lemma_flag_chars()
    ensures
        "-h"@.len() == 2 && "-h"@[0] == '-' && "-h"@[1] == 'h',
        "--help"@.len() == 6 && "--help"@[0] == '-',
        "-v"@.len() == 2 && "-v"@[0] == '-' && "-v"@[1] == 'v',
        "--version"@.len() == 9 && "--version"@[0] == '-',
        "-c"@.len() == 2 && "-c"@[0] == '-' && "-c"@[1] == 'c',
        "--compress"@.len() == 10 && "--compress"@[0] == '-' && "--compress"@[2] == 'c',
        "-d"@.len() == 2 && "-d"@[0] == '-' && "-d"@[1] == 'd',
        "--decompress"@.len() == 12 && "--decompress"@[0] == '-' && "--decompress"@[2] == 'd',
{
    reveal_strlit("-h");
    reveal_strlit("--help");
    reveal_strlit("-v");
    reveal_strlit("--version");
    reveal_strlit("-c");
    reveal_strlit("--compress");
    reveal_strlit("-d");
    reveal_strlit("--decompress");
}

/// An empty argument list asks for help — it is not an error, and the plan
/// it maps to touches no stream.
pub proof fn lemma_empty_args_help()
    ensures
        interpret_tokens(Seq::<Seq<char>>::empty()) == SpecDirective::Help,
{
}

/// Flags repeat with last-writer-wins semantics: a mode flag appended to an
/// argument list that yields a request forces that request's mode, and
/// leaves its level, input and output untouched — even where the level is
/// out of range for the new mode, since a level is validated only against
/// the mode active when its flag appears.
pub proof fn lemma_mode_flag_last_writer_wins(
    tokens: Seq<Seq<char>>,
    flag: Seq<char>,
    req: SpecRequest,
)
    requires
        is_mode_flag(flag),
        interpret_tokens(tokens) == SpecDirective::Run(req),
    ensures
        interpret_tokens(tokens.push(flag)) == SpecDirective::Run(
            SpecRequest {
                mode: flag_mode(flag),
                level: req.level,
                input: req.input,
                output: req.output,
            },
        ),
{
    assert(tokens.len() > 0);
    assert(tokens.push(flag).len() > 0);
    lemma_push_mode_flag_from(tokens, 0, Mode::Compress, 3, None, None, flag, req);
}

/// The inductive core of `lemma_mode_flag_last_writer_wins`: pushing a mode
/// flag onto the tail of the token list turns any accumulated run into the
/// same run with the flag's mode.
proof fn lemma_push_mode_flag_from(
    tokens: Seq<Seq<char>>,
    i: int,
    mode: Mode,
    level: nat,
    input: Option<Seq<char>>,
    output: Option<Seq<char>>,
    flag: Seq<char>,
    req: SpecRequest,
)
    requires
        0 <= i <= tokens.len(),
        is_mode_flag(flag),
        interpret_from(tokens, i, mode, level, input, output) == SpecDirective::Run(req),
    ensures
        interpret_from(tokens.push(flag), i, mode, level, input, output) == SpecDirective::Run(
            SpecRequest {
                mode: flag_mode(flag),
                level: req.level,
                input: req.input,
                output: req.output,
            },
        ),
    decreases tokens.len() - i,
{
    lemma_flag_chars();
    let ts = tokens.push(flag);
    if i == tokens.len() {
        assert(ts[i] == flag);
        assert(interpret_from(ts, i, mode, level, input, output) == interpret_from(
            ts,
            i + 1,
            flag_mode(flag),
            level,
            input,
            output,
        ));
    } else {
        assert(ts[i] == tokens[i]);
        let t = tokens[i];
        if t == "-h"@ || t == "--help"@ || t == "-v"@ || t == "--version"@ {
            assert(false);
        } else if t == "-c"@ || t == "--compress"@ {
            lemma_push_mode_flag_from(tokens, i + 1, Mode::Compress, level, input, output, flag, req);
        } else if t == "-d"@ || t == "--decompress"@ {
            lemma_push_mode_flag_from(
                tokens,
                i + 1,
                Mode::Decompress,
                level,
                input,
                output,
                flag,
                req,
            );
        } else if t.len() > 0 && t[0] == '-' {
            match numeric_body(t.drop_first()) {
                None => {
                    assert(false);
                },
                Some(digits) => {
                    let canon = canonical_digits(digits);
                    if canonical_in_range(canon, max_level(mode)) {
                        lemma_push_mode_flag_from(
                            tokens,
                            i + 1,
                            mode,
                            digit_value(canon[0]),
                            input,
                            output,
                            flag,
                            req,
                        );
                    } else {
                        assert(false);
                    }
                },
            }
        } else if input is None {
            lemma_push_mode_flag_from(tokens, i + 1, mode, level, Some(t), output, flag, req);
        } else if output is None {
            lemma_push_mode_flag_from(tokens, i + 1, mode, level, input, Some(t), flag, req);
        } else {
            assert(false);
        }
    }
}

/// Positional overflow: any three bare tokens are one too many — the first
/// two claim input and output, the third is a hard parse error.
pub proof fn lemma_positional_overflow(a: Seq<char>, b: Seq<char>, c: Seq<char>)
    ensures
        is_bare_token(a) && is_bare_token(b) && is_bare_token(c) ==> interpret_tokens(
            seq![a, b, c],
        ) == SpecDirective::Fail(SpecParseError::TooManyArguments),
{
    if is_bare_token(a) && is_bare_token(b) && is_bare_token(c) {
        lemma_flag_chars();
        let ts = seq![a, b, c];
        assert(ts.len() == 3);
        assert(ts[0] == a && ts[1] == b && ts[2] == c);
        assert(interpret_from(ts, 0, Mode::Compress, 3, None, None) == interpret_from(
            ts,
            1,
            Mode::Compress,
            3,
            Some(a),
            None,
        ));
        assert(interpret_from(ts, 1, Mode::Compress, 3, Some(a), None) == interpret_from(
            ts,
            2,
            Mode::Compress,
            3,
            Some(a),
            Some(b),
        ));
        assert(interpret_from(ts, 2, Mode::Compress, 3, Some(a), Some(b)) == SpecDirective::Fail(
            SpecParseError::TooManyArguments,
        ));
    }
}

} // verus!
