//! Command-line configuration of the desktop frontend: flag parsing, the
//! language-name check and the help text.

use vstd::prelude::*;
use crate::language::{
    Language, LanguageCode, code, all_codes, all_languages, lookup, supported_codes,
    SUPPORTED_LANGUAGES, lemma_lookup_code, lemma_lookup_misses,
};
use crate::text::{lower, join, str_eq, lower_eq, join_strs};

verus! {

/// Command-line configuration.
#[derive(Debug, Clone, Copy, PartialEq, Eq, Structural)]
pub struct Args {
    /// Use the real-time pipeline backend instead of the mock.
    pub realtime: bool,
    pub source: LanguageCode,
    pub target: LanguageCode,
    /// Worker budget (seconds); 0 means "use the default".
    pub budget_secs: u64,
}

/// The configuration when no flag is given: mock backend, English to
/// Chinese, default budget.
pub open spec fn default_args() -> Args {
    Args { realtime: false, source: Language::En, target: Language::Zh, budget_secs: 0 }
}

impl Default for Args {
    fn default() -> (r: Self)
        ensures
            r == default_args(),
    {
        Args { realtime: false, source: Language::En, target: Language::Zh, budget_secs: 0 }
    }
}

/// What [`parse_lang`] gives: the language whose code is the ASCII
/// lower-casing of `s` (no trimming), or the rejection message listing every
/// supported code.
pub open spec fn parse_lang_spec(s: Seq<char>) -> Result<Language, Seq<char>> {
    match lookup(lower(s)) {
        Some(l) => Ok(l),
        None => Err(
            "unsupported language '"@ + s + "' (supported: "@ + join(all_codes(), ", "@) + ")"@,
        ),
    }
}

/// A language named on the command line (case-insensitive).
pub fn parse_lang(s: &str) -> (r: Result<LanguageCode, String>)
    ensures
        match parse_lang_spec(s@) {
            Ok(l) => r == Ok::<Language, String>(l),
            Err(m) => r matches Err(e) && e@ == m,
        },
{
    let mut i: usize = 0;
    assert(SUPPORTED_LANGUAGES@ == all_languages());
    while i < 13
        invariant
            i <= 13,
            SUPPORTED_LANGUAGES@ == all_languages(),
            forall|k: int| 0 <= k < i ==> lower(s@) != code(#[trigger] all_languages()[k]),
        decreases 13 - i,
    {
        let l = SUPPORTED_LANGUAGES[i];
        assert(l == all_languages()[i as int]);
        if lower_eq(s, l.as_str()) {
            proof {
                lemma_lookup_code(l);
            }
            return Ok(l);
        }
        i = i + 1;
    }
    proof {
        lemma_lookup_misses(lower(s@));
    }
    let list = supported_codes();
    let joined = join_strs(&list, ", ");
    Err(
        String::from_str("unsupported language '").concat(s).concat("' (supported: ").concat(
            joined.as_str(),
        ).concat(")"),
    )
}

/// Reading back a canonical code on the command line gives its language.
pub proof fn lemma_parse_lang_code_roundtrip(l: Language)
    ensures
        parse_lang_spec(code(l)) == Ok::<Language, Seq<char>>(l),
{
    lemma_lookup_code(l);
    crate::language::lemma_parse_code_roundtrip(l);
    reveal_strlit("zh");
    reveal_strlit("en");
    reveal_strlit("ja");
    reveal_strlit("ko");
    reveal_strlit("fr");
    reveal_strlit("de");
    reveal_strlit("es");
    reveal_strlit("pt");
    reveal_strlit("ru");
    reveal_strlit("it");
    reveal_strlit("ar");
    reveal_strlit("th");
    reveal_strlit("tr");
    crate::text::lemma_lower_of_lowercase(code(l));
}

/// Why a decimal number could not be read.
#[derive(Debug, Clone, Copy, PartialEq, Eq, Structural)]
pub enum NumberError {
    /// The text is empty.
    Empty,
    /// A character is not a decimal digit.
    InvalidDigit,
    /// The value exceeds `u64::MAX`.
    PosOverflow,
}

/// The message `u64::from_str` gives for each error kind.
pub open spec fn number_error_message(e: NumberError) -> Seq<char> {
    match e {
        NumberError::Empty => "cannot parse integer from empty string"@,
        NumberError::InvalidDigit => "invalid digit found in string"@,
        NumberError::PosOverflow => "number too large to fit in target type"@,
    }
}

pub open spec fn is_digit(c: char) -> bool {
    '0' <= c && c <= '9'
}

pub open spec fn digit_value(c: char) -> nat {
    ((c as u32) - ('0' as u32)) as nat
}

/// Reads the digits left to right onto `acc`: the first character that is
/// not a digit, or the first digit that takes the value past `u64::MAX`,
/// decides the error.
pub open spec fn scan_digits(d: Seq<char>, acc: nat) -> Result<nat, NumberError>
    decreases d.len(),
{
    if d.len() == 0 {
        Ok(acc)
    } else if !is_digit(d[0]) {
        Err(NumberError::InvalidDigit)
    } else if acc * 10 + digit_value(d[0]) > u64::MAX {
        Err(NumberError::PosOverflow)
    } else {
        scan_digits(d.drop_first(), acc * 10 + digit_value(d[0]))
    }
}

/// What `u64::from_str` gives: an optional leading `+`, then decimal digits.
pub open spec fn parse_u64_spec(s: Seq<char>) -> Result<nat, NumberError> {
    if s.len() == 0 {
        Err(NumberError::Empty)
    } else if s.len() == 1 && (s[0] == '+' || s[0] == '-') {
        Err(NumberError::InvalidDigit)
    } else if s[0] == '+' {
        scan_digits(s.drop_first(), 0)
    } else {
        scan_digits(s, 0)
    }
}

proof fn lemma_scan_step(s: Seq<char>, i: int, acc: nat)
    requires
        0 <= i < s.len(),
        is_digit(s[i]),
        acc * 10 + digit_value(s[i]) <= u64::MAX,
    ensures
        scan_digits(s.subrange(i, s.len() as int), acc) == scan_digits(
            s.subrange(i + 1, s.len() as int),
            acc * 10 + digit_value(s[i]),
        ),
{
    assert(s.subrange(i, s.len() as int).drop_first() =~= s.subrange(i + 1, s.len() as int));
}

/// A decimal `u64`, read as `u64::from_str` reads it.
pub fn parse_u64(s: &str) -> (r: Result<u64, NumberError>)
    ensures
        match parse_u64_spec(s@) {
            Ok(v) => r == Ok::<u64, NumberError>(v as u64),
            Err(e) => r == Err::<u64, NumberError>(e),
        },
        r is Ok ==> parse_u64_spec(s@) is Ok,
{
    let n = s.unicode_len();
    if n == 0 {
        return Err(NumberError::Empty);
    }
    let first = s.get_char(0);
    if n == 1 && (first == '+' || first == '-') {
        return Err(NumberError::InvalidDigit);
    }
    let mut i: usize = if first == '+' { 1 } else { 0 };
    let ghost digits = if first == '+' { s@.drop_first() } else { s@ };
    assert(digits =~= s@.subrange(i as int, n as int));
    let mut acc: u64 = 0;
    while i < n
        invariant
            i <= n,
            n == s@.len(),
            parse_u64_spec(s@) == scan_digits(s@.subrange(i as int, n as int), acc as nat),
        decreases n - i,
    {
        let c = s.get_char(i);
        if !('0' <= c && c <= '9') {
            return Err(NumberError::InvalidDigit);
        }
        let d: u64 = (c as u32 - '0' as u32) as u64;
        if acc > 1844674407370955161 || (acc == 1844674407370955161 && d > 5) {
            return Err(NumberError::PosOverflow);
        }
        proof {
            lemma_scan_step(s@, i as int, acc as nat);
        }
        acc = acc * 10 + d;
        i = i + 1;
    }
    Ok(acc)
}

/// What the command line asks for.
#[derive(Debug, Clone, Copy, PartialEq, Eq, Structural)]
pub enum CliCommand {
    /// Run the frontend with this configuration.
    Run(Args),
    /// Print the help text and exit successfully.
    Help,
}

/// The views of the command-line words.
pub open spec fn arg_views(args: Seq<String>) -> Seq<Seq<char>> {
    args.map_values(|a: String| a@)
}

/// Reads the words from position `i` on, onto the configuration `acc`.
/// Flags are taken in order; the first error stops the reading, and `-h` /
/// `--help` asks for the help text at once. At the end, source and target
/// must differ.
pub open spec fn parse_from(args: Seq<Seq<char>>, i: nat, acc: Args) -> Result<CliCommand, Seq<char>>
    decreases args.len() - i,
{
    if i >= args.len() {
        if acc.source == acc.target {
            Err("source and target must differ (both are '"@ + code(acc.source) + "')"@)
        } else {
            Ok(CliCommand::Run(acc))
        }
    } else {
        let flag = args[i as int];
        if flag == "--realtime"@ {
            parse_from(args, i + 1, Args { realtime: true, ..acc })
        } else if flag == "--mock"@ {
            parse_from(args, i + 1, Args { realtime: false, ..acc })
        } else if flag == "--source"@ {
            if i + 1 >= args.len() {
                Err("--source needs a value"@)
            } else {
                match parse_lang_spec(args[i + 1 as int]) {
                    Ok(l) => parse_from(args, i + 2, Args { source: l, ..acc }),
                    Err(m) => Err(m),
                }
            }
        } else if flag == "--target"@ {
            if i + 1 >= args.len() {
                Err("--target needs a value"@)
            } else {
                match parse_lang_spec(args[i + 1 as int]) {
                    Ok(l) => parse_from(args, i + 2, Args { target: l, ..acc }),
                    Err(m) => Err(m),
                }
            }
        } else if flag == "--budget"@ {
            if i + 1 >= args.len() {
                Err("--budget needs a value in seconds"@)
            } else {
                match parse_u64_spec(args[i + 1 as int]) {
                    Ok(v) => parse_from(args, i + 2, Args { budget_secs: v as u64, ..acc }),
                    Err(e) => Err("invalid --budget: "@ + number_error_message(e)),
                }
            }
        } else if flag == "-h"@ || flag == "--help"@ {
            Ok(CliCommand::Help)
        } else {
            Err("unknown flag: "@ + flag)
        }
    }
}

/// The views of a parse outcome.
pub open spec fn outcome_view(r: Result<CliCommand, String>) -> Result<CliCommand, Seq<char>> {
    match r {
        Ok(c) => Ok(c),
        Err(m) => Err(m@),
    }
}

fn number_error_text(e: NumberError) -> (r: &'static str)
    ensures
        r@ == number_error_message(e),
{
    match e {
        NumberError::Empty => "cannot parse integer from empty string",
        NumberError::InvalidDigit => "invalid digit found in string",
        NumberError::PosOverflow => "number too large to fit in target type",
    }
}

/// Parse the command-line words that follow the program name.
pub fn parse_args(args: &Vec<String>) -> (r: Result<CliCommand, String>)
    ensures
        outcome_view(r) == parse_from(arg_views(args@), 0, default_args()),
{
    let ghost views = arg_views(args@);
    let mut acc = Args::default();
    let mut i: usize = 0;
    while i < args.len()
        invariant
            i <= args.len(),
            views == arg_views(args@),
            parse_from(views, 0, default_args()) == parse_from(views, i as nat, acc),
        decreases args.len() - i,
    {
        let flag = args[i].as_str();
        assert(views[i as int] == flag@);
        if str_eq(flag, "--realtime") {
            acc.realtime = true;
            i = i + 1;
        } else if str_eq(flag, "--mock") {
            acc.realtime = false;
            i = i + 1;
        } else if str_eq(flag, "--source") {
            if i + 1 >= args.len() {
                return Err(String::from_str("--source needs a value"));
            }
            assert(views[i + 1] == args[i + 1]@);
            match parse_lang(args[i + 1].as_str()) {
                Ok(l) => {
                    acc.source = l;
                    i = i + 2;
                },
                Err(m) => {
                    return Err(m);
                },
            }
        } else if str_eq(flag, "--target") {
            if i + 1 >= args.len() {
                return Err(String::from_str("--target needs a value"));
            }
            assert(views[i + 1] == args[i + 1]@);
            match parse_lang(args[i + 1].as_str()) {
                Ok(l) => {
                    acc.target = l;
                    i = i + 2;
                },
                Err(m) => {
                    return Err(m);
                },
            }
        } else if str_eq(flag, "--budget") {
            if i + 1 >= args.len() {
                return Err(String::from_str("--budget needs a value in seconds"));
            }
            assert(views[i + 1] == args[i + 1]@);
            match parse_u64(args[i + 1].as_str()) {
                Ok(v) => {
                    acc.budget_secs = v;
                    i = i + 2;
                },
                Err(e) => {
                    return Err(
                        String::from_str("invalid --budget: ").concat(number_error_text(e)),
                    );
                },
            }
        } else if str_eq(flag, "-h") || str_eq(flag, "--help") {
            return Ok(CliCommand::Help);
        } else {
            return Err(String::from_str("unknown flag: ").concat(flag));
        }
    }
    if acc.source == acc.target {
        return Err(
            String::from_str("source and target must differ (both are '").concat(
                acc.source.as_str(),
            ).concat("')"),
        );
    }
    Ok(CliCommand::Run(acc))
}

/// The fixed part of the help text, up to the list of languages.
pub open spec fn help_head() -> Seq<char> {
    "voice-translator-gui — eframe frontend for real-time voice translation\n\nUSAGE:\n    voice-translator-gui [FLAGS]\n\nFLAGS:\n    --mock              Use the mock backend (default, no microphone needed).\n    --realtime          Use the real-time pipeline backend.\n    --source LANG       Source language (default: en).\n    --target LANG       Target language (default: zh).\n    --budget SECONDS    Worker budget in seconds (0 = default 30s).\n    -h, --help          Print this help and exit.\n\nSUPPORTED LANGUAGES: "@
}

/// The help text: usage, flags, and the supported languages.
pub fn help_text() -> (r: String)
    ensures
        r@ == help_head() + join(all_codes(), ", "@) + "\n"@,
{
    let list = supported_codes();
    let joined = join_strs(&list, ", ");
    String::from_str(
        "voice-translator-gui — eframe frontend for real-time voice translation\n\nUSAGE:\n    voice-translator-gui [FLAGS]\n\nFLAGS:\n    --mock              Use the mock backend (default, no microphone needed).\n    --realtime          Use the real-time pipeline backend.\n    --source LANG       Source language (default: en).\n    --target LANG       Target language (default: zh).\n    --budget SECONDS    Worker budget in seconds (0 = default 30s).\n    -h, --help          Print this help and exit.\n\nSUPPORTED LANGUAGES: ",
    ).concat(joined.as_str()).concat("\n")
}

} // verus!
