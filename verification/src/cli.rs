//! The command-line grammar of the supervisor.
//!
//! Options may be written `--name value` or `--name=value`; the first token
//! that is no known option starts the supervised command, which then takes
//! every remaining token, hyphens included.  A later option overrides an
//! earlier one.

use vstd::prelude::*;
use vstd::string::StrSliceExecFns;

verus! {

/// The parsed command line.
#[derive(Clone, Debug)]
pub struct Args {
    /// The command to run.
    pub command: Vec<String>,
    /// Log output to this file while displaying it.
    pub log: Option<String>,
    /// Configuration file path.
    pub config: Option<String>,
    /// Sidebar width.
    pub sidebar_width: u16,
    /// Maximum number of output lines kept in memory.
    pub max_output_lines: usize,
    /// Maximum number of lines shown for the command.
    pub max_command_lines: usize,
    /// Whether the animation is enabled.
    pub animation: bool,
    /// A request to disable the animation.
    pub no_animate: bool,
}

/// The parsed command line, at the spec level.
pub struct ArgsModel {
    /// The command to run.
    pub command: Seq<Seq<char>>,
    /// Log file path.
    pub log: Option<Seq<char>>,
    /// Configuration file path.
    pub config: Option<Seq<char>>,
    /// Sidebar width.
    pub sidebar_width: u16,
    /// Maximum number of output lines kept in memory.
    pub max_output_lines: usize,
    /// Maximum number of lines shown for the command.
    pub max_command_lines: usize,
    /// Whether the animation is enabled.
    pub animation: bool,
    /// A request to disable the animation.
    pub no_animate: bool,
}

/// Why a command line is rejected.
#[derive(Clone, Copy, Debug, PartialEq, Eq, Structural)]
pub enum ArgsError {
    /// An option stood last with no value after it.
    MissingValue,
    /// An option's value does not parse, or is out of its range.
    InvalidValue,
}

/// An option value at the spec level.
pub open spec fn opt_chars(o: Option<String>) -> Option<Seq<char>> {
    match o {
        Some(s) => Some(s@),
        None => None,
    }
}

impl View for Args {
    type V = ArgsModel;

    open spec fn view(&self) -> ArgsModel {
        ArgsModel {
            command: self.command.deep_view(),
            log: opt_chars(self.log),
            config: opt_chars(self.config),
            sidebar_width: self.sidebar_width,
            max_output_lines: self.max_output_lines,
            max_command_lines: self.max_command_lines,
            animation: self.animation,
            no_animate: self.no_animate,
        }
    }
}

/// The defaults before any option is read.
pub open spec fn default_args_model() -> ArgsModel {
    ArgsModel {
        command: Seq::empty(),
        log: None,
        config: None,
        sidebar_width: 30,
        max_output_lines: 1000,
        max_command_lines: 3,
        animation: true,
        no_animate: false,
    }
}

/// Whether every character is a decimal digit, and there is at least one.
pub open spec fn is_digits(s: Seq<char>) -> bool {
    s.len() > 0 && forall|i: int| 0 <= i < s.len() ==> '0' <= #[trigger] s[i] <= '9'
}

/// The value of a digit string.
pub open spec fn digits_val(s: Seq<char>) -> int
    decreases s.len(),
{
    if s.len() == 0 {
        0
    } else {
        digits_val(s.drop_last()) * 10 + (s.last() as int - '0' as int)
    }
}

/// Whether the token is `name=value` for the given option name.
pub open spec fn is_eq_form(t: Seq<char>, name: Seq<char>) -> bool {
    t.len() > name.len() && t.take(name.len() as int) == name && t[name.len() as int] == '='
}

/// The value part of a `name=value` token.
pub open spec fn eq_value(t: Seq<char>, name: Seq<char>) -> Seq<char> {
    t.skip(name.len() as int + 1)
}

/// The boolean a token names, if it names one.
pub open spec fn is_spec_bool(s: Seq<char>) -> Option<bool> {
    if s == "true"@ {
        Some(true)
    } else if s == "false"@ {
        Some(false)
    } else {
        None
    }
}

/// One step of the grammar: how the remaining tokens and the options read
/// so far become the parsed command line.
pub open spec fn parse_tokens(tokens: Seq<Seq<char>>, acc: ArgsModel) -> Result<ArgsModel, ArgsError>
    decreases tokens.len(),
{
    if tokens.len() == 0 {
        Ok(acc)
    } else {
        let t = tokens.first();
        let rest = tokens.drop_first();
        if t == "--log"@ {
            if rest.len() == 0 {
                Err(ArgsError::MissingValue)
            } else {
                parse_tokens(rest.drop_first(), ArgsModel { log: Some(rest.first()), ..acc })
            }
        } else if is_eq_form(t, "--log"@) {
            parse_tokens(rest, ArgsModel { log: Some(eq_value(t, "--log"@)), ..acc })
        } else if t == "--config"@ {
            if rest.len() == 0 {
                Err(ArgsError::MissingValue)
            } else {
                parse_tokens(rest.drop_first(), ArgsModel { config: Some(rest.first()), ..acc })
            }
        } else if is_eq_form(t, "--config"@) {
            parse_tokens(rest, ArgsModel { config: Some(eq_value(t, "--config"@)), ..acc })
        } else if t == "--sidebar-width"@ {
            if rest.len() == 0 {
                Err(ArgsError::MissingValue)
            } else if is_digits(rest.first()) && digits_val(rest.first()) <= u16::MAX {
                parse_tokens(
                    rest.drop_first(),
                    ArgsModel { sidebar_width: digits_val(rest.first()) as u16, ..acc },
                )
            } else {
                Err(ArgsError::InvalidValue)
            }
        } else if is_eq_form(t, "--sidebar-width"@) {
            if is_digits(eq_value(t, "--sidebar-width"@))
                && digits_val(eq_value(t, "--sidebar-width"@)) <= u16::MAX {
                parse_tokens(
                    rest,
                    ArgsModel {
                        sidebar_width: digits_val(eq_value(t, "--sidebar-width"@)) as u16,
                        ..acc
                    },
                )
            } else {
                Err(ArgsError::InvalidValue)
            }
        } else if t == "--max-output-lines"@ {
            if rest.len() == 0 {
                Err(ArgsError::MissingValue)
            } else if is_digits(rest.first()) && digits_val(rest.first()) <= usize::MAX {
                parse_tokens(
                    rest.drop_first(),
                    ArgsModel { max_output_lines: digits_val(rest.first()) as usize, ..acc },
                )
            } else {
                Err(ArgsError::InvalidValue)
            }
        } else if is_eq_form(t, "--max-output-lines"@) {
            if is_digits(eq_value(t, "--max-output-lines"@))
                && digits_val(eq_value(t, "--max-output-lines"@)) <= usize::MAX {
                parse_tokens(
                    rest,
                    ArgsModel {
                        max_output_lines: digits_val(eq_value(t, "--max-output-lines"@)) as usize,
                        ..acc
                    },
                )
            } else {
                Err(ArgsError::InvalidValue)
            }
        } else if t == "--max-command-lines"@ {
            if rest.len() == 0 {
                Err(ArgsError::MissingValue)
            } else if is_digits(rest.first()) && digits_val(rest.first()) <= usize::MAX {
                parse_tokens(
                    rest.drop_first(),
                    ArgsModel { max_command_lines: digits_val(rest.first()) as usize, ..acc },
                )
            } else {
                Err(ArgsError::InvalidValue)
            }
        } else if is_eq_form(t, "--max-command-lines"@) {
            if is_digits(eq_value(t, "--max-command-lines"@))
                && digits_val(eq_value(t, "--max-command-lines"@)) <= usize::MAX {
                parse_tokens(
                    rest,
                    ArgsModel {
                        max_command_lines: digits_val(eq_value(t, "--max-command-lines"@)) as usize,
                        ..acc
                    },
                )
            } else {
                Err(ArgsError::InvalidValue)
            }
        } else if t == "--animation"@ {
            if rest.len() == 0 {
                Err(ArgsError::MissingValue)
            } else {
                match is_spec_bool(rest.first()) {
                    Some(b) => parse_tokens(rest.drop_first(), ArgsModel { animation: b, ..acc }),
                    None => Err(ArgsError::InvalidValue),
                }
            }
        } else if is_eq_form(t, "--animation"@) {
            match is_spec_bool(eq_value(t, "--animation"@)) {
                Some(b) => parse_tokens(rest, ArgsModel { animation: b, ..acc }),
                None => Err(ArgsError::InvalidValue),
            }
        } else if t == "--no-animate"@ {
            parse_tokens(rest, ArgsModel { no_animate: true, ..acc })
        } else {
            Ok(ArgsModel { command: tokens, ..acc })
        }
    }
}

/// The parsed command line for a whole argument list, whose first element
/// is the program name.
pub open spec fn parsed_args(args: Seq<Seq<char>>) -> Result<ArgsModel, ArgsError> {
    parse_tokens(args.skip(1), default_args_model())
}

impl Args {
    /// Parse a full argument list, program name first.  Options may repeat,
    /// the last occurrence winning; the first unrecognized token starts
    /// the command and swallows the rest.
    pub fn parse_from(args: &[&str]) -> (r: Result<Args, ArgsError>)
        requires
            args@.len() >= 1,
        ensures
            match (r, parsed_args(args.deep_view())) {
                (Ok(a), Ok(m)) => a@ == m,
                (Err(e), Err(m)) => e == m,
                _ => false,
            },
    {
        let ghost all = args.deep_view();
        let n = args.len();
        let mut log: Option<String> = None;
        let mut config: Option<String> = None;
        let mut sidebar_width: u16 = 30;
        let mut max_output_lines: usize = 1000;
        let mut max_command_lines: usize = 3;
        let mut animation: bool = true;
        let mut no_animate: bool = false;
        let mut command: Vec<String> = Vec::new();

        let ghost model0 = default_args_model();
        let mut i: usize = 1;
        proof {
            assert(all.skip(1).skip(0) =~= all.skip(1));
        }
        while i < n
            invariant
                1 <= i <= n,
                n == all.len(),
                all == args.deep_view(),
                command@.len() == 0,
                parse_tokens(all.skip(i as int), ArgsModel {
                    command: Seq::empty(),
                    log: opt_chars(log),
                    config: opt_chars(config),
                    sidebar_width,
                    max_output_lines,
                    max_command_lines,
                    animation,
                    no_animate,
                }) == parsed_args(all),
            decreases n - i,
        {
            let ghost tokens = all.skip(i as int);
            let ghost acc = ArgsModel {
                command: Seq::empty(),
                log: opt_chars(log),
                config: opt_chars(config),
                sidebar_width,
                max_output_lines,
                max_command_lines,
                animation,
                no_animate,
            };
            proof {
                assert(tokens.first() == all[i as int]);
                assert(tokens.drop_first() =~= all.skip(i + 1));
                if i + 1 < n {
                    assert(tokens.drop_first().first() == all[i + 1]);
                    assert(tokens.drop_first().drop_first() =~= all.skip(i + 2));
                }
            }
            let tok: &str = args[i];
            if str_eq(tok, "--log") {
                if i + 1 < n {
                    log = Some(args[i + 1].to_owned());
                    i = i + 2;
                } else {
                    return Err(ArgsError::MissingValue);
                }
            } else if let Some(v) = eq_split(tok, "--log") {
                log = Some(v);
                i = i + 1;
            } else if str_eq(tok, "--config") {
                if i + 1 < n {
                    config = Some(args[i + 1].to_owned());
                    i = i + 2;
                } else {
                    return Err(ArgsError::MissingValue);
                }
            } else if let Some(v) = eq_split(tok, "--config") {
                config = Some(v);
                i = i + 1;
            } else if str_eq(tok, "--sidebar-width") {
                if i + 1 < n {
                    match parse_u64_digits(args[i + 1]) {
                        Some(v) if v <= u16::MAX as u64 => {
                            sidebar_width = v as u16;
                            i = i + 2;
                        },
                        _ => {
                            return Err(ArgsError::InvalidValue);
                        },
                    }
                } else {
                    return Err(ArgsError::MissingValue);
                }
            } else if let Some(v) = eq_split(tok, "--sidebar-width") {
                match parse_u64_digits(v.as_str()) {
                    Some(v2) if v2 <= u16::MAX as u64 => {
                        sidebar_width = v2 as u16;
                        i = i + 1;
                    },
                    _ => {
                        return Err(ArgsError::InvalidValue);
                    },
                }
            } else if str_eq(tok, "--max-output-lines") {
                if i + 1 < n {
                    match parse_u64_digits(args[i + 1]) {
                        Some(v) if v <= usize::MAX as u64 => {
                            max_output_lines = v as usize;
                            i = i + 2;
                        },
                        _ => {
                            return Err(ArgsError::InvalidValue);
                        },
                    }
                } else {
                    return Err(ArgsError::MissingValue);
                }
            } else if let Some(v) = eq_split(tok, "--max-output-lines") {
                match parse_u64_digits(v.as_str()) {
                    Some(v2) if v2 <= usize::MAX as u64 => {
                        max_output_lines = v2 as usize;
                        i = i + 1;
                    },
                    _ => {
                        return Err(ArgsError::InvalidValue);
                    },
                }
            } else if str_eq(tok, "--max-command-lines") {
                if i + 1 < n {
                    match parse_u64_digits(args[i + 1]) {
                        Some(v) if v <= usize::MAX as u64 => {
                            max_command_lines = v as usize;
                            i = i + 2;
                        },
                        _ => {
                            return Err(ArgsError::InvalidValue);
                        },
                    }
                } else {
                    return Err(ArgsError::MissingValue);
                }
            } else if let Some(v) = eq_split(tok, "--max-command-lines") {
                match parse_u64_digits(v.as_str()) {
                    Some(v2) if v2 <= usize::MAX as u64 => {
                        max_command_lines = v2 as usize;
                        i = i + 1;
                    },
                    _ => {
                        return Err(ArgsError::InvalidValue);
                    },
                }
            } else if str_eq(tok, "--animation") {
                if i + 1 < n {
                    match parse_bool(args[i + 1]) {
                        Some(b) => {
                            animation = b;
                            i = i + 2;
                        },
                        None => {
                            return Err(ArgsError::InvalidValue);
                        },
                    }
                } else {
                    return Err(ArgsError::MissingValue);
                }
            } else if let Some(v) = eq_split(tok, "--animation") {
                match parse_bool(v.as_str()) {
                    Some(b) => {
                        animation = b;
                        i = i + 1;
                    },
                    None => {
                        return Err(ArgsError::InvalidValue);
                    },
                }
            } else if str_eq(tok, "--no-animate") {
                no_animate = true;
                i = i + 1;
            } else {
                command = collect_strings(args, i);
                let a = Args {
                    command,
                    log,
                    config,
                    sidebar_width,
                    max_output_lines,
                    max_command_lines,
                    animation,
                    no_animate,
                };
                proof {
                    assert(a@ == ArgsModel { command: tokens, ..acc });
                }
                return Ok(a);
            }
        }
        proof {
            assert(all.skip(n as int) =~= Seq::<Seq<char>>::empty());
        }
        let a = Args {
            command,
            log,
            config,
            sidebar_width,
            max_output_lines,
            max_command_lines,
            animation,
            no_animate,
        };
        proof {
            assert(a.command.deep_view() =~= Seq::<Seq<char>>::empty());
        }
        Ok(a)
    }
}

/// Whether the two string slices hold the same characters.
fn str_eq(a: &str, b: &str) -> (r: bool)
    ensures
        r == (a@ == b@),
{
    let na = a.unicode_len();
    let nb = b.unicode_len();
    if na != nb {
        return false;
    }
    let mut i: usize = 0;
    while i < na
        invariant
            i <= na,
            na == a@.len(),
            na == b@.len(),
            forall|j: int| 0 <= j < i ==> a@[j] == b@[j],
        decreases na - i,
    {
        if a.get_char(i) != b.get_char(i) {
            return false;
        }
        i = i + 1;
    }
    proof {
        assert(a@ =~= b@);
    }
    true
}

/// The value part when the token is `name=value`; `None` otherwise.
fn eq_split(tok: &str, name: &str) -> (r: Option<String>)
    ensures
        r.is_some() <==> is_eq_form(tok@, name@),
        r matches Some(v) ==> v@ == eq_value(tok@, name@),
{
    let nt = tok.unicode_len();
    let nn = name.unicode_len();
    if nt <= nn {
        return None;
    }
    let mut i: usize = 0;
    while i < nn
        invariant
            i <= nn,
            nn == name@.len(),
            nn < nt == tok@.len(),
            forall|j: int| 0 <= j < i ==> tok@[j] == name@[j],
        decreases nn - i,
    {
        if tok.get_char(i) != name.get_char(i) {
            proof {
                assert(tok@.take(nn as int)[i as int] != name@[i as int]);
            }
            return None;
        }
        i = i + 1;
    }
    if tok.get_char(nn) != '=' {
        return None;
    }
    proof {
        assert(tok@.take(nn as int) =~= name@);
    }
    let v = tok.substring_char(nn + 1, nt);
    proof {
        assert(v@ =~= eq_value(tok@, name@));
    }
    Some(v.to_owned())
}

/// The value of a digit-only string, when it is one and fits in the
/// machine word.
fn parse_u64_digits(s: &str) -> (r: Option<u64>)
    ensures
        r.is_some() <==> is_digits(s@) && digits_val(s@) <= u64::MAX,
        r matches Some(v) ==> v == digits_val(s@),
{
    let n = s.unicode_len();
    if n == 0 {
        return None;
    }
    let mut acc: u64 = 0;
    let mut i: usize = 0;
    while i < n
        invariant
            i <= n,
            n == s@.len(),
            forall|j: int| 0 <= j < i ==> '0' <= #[trigger] s@[j] <= '9',
            acc == digits_val(s@.take(i as int)),
        decreases n - i,
    {
        let c = s.get_char(i);
        if !('0' <= c && c <= '9') {
            return None;
        }
        let d = (c as u8 - '0' as u8) as u64;
        proof {
            assert(s@.take(i + 1).drop_last() =~= s@.take(i as int));
            assert(s@.take(i + 1).last() == s@[i as int]);
        }
        if acc > (u64::MAX - d) / 10 {
            proof {
                vstd::arithmetic::div_mod::lemma_fundamental_div_mod(u64::MAX - d, 10);
                assert(digits_val(s@.take(i + 1)) > u64::MAX);
                if is_digits(s@) {
                    lemma_digits_val_monotonic(s@, i + 1);
                }
            }
            return None;
        }
        acc = acc * 10 + d;
        i = i + 1;
    }
    proof {
        assert(s@.take(n as int) =~= s@);
    }
    Some(acc)
}

/// Extending a digit string never shrinks its value.
proof fn lemma_digits_val_monotonic(s: Seq<char>, i: int)
    requires
        0 <= i <= s.len(),
        forall|j: int| 0 <= j < s.len() ==> '0' <= #[trigger] s[j] <= '9',
    ensures
        digits_val(s) >= digits_val(s.take(i)),
        digits_val(s) >= 0,
    decreases s.len() - i,
{
    lemma_digits_val_nonneg(s.take(i));
    if i == s.len() {
        assert(s.take(i) =~= s);
    } else {
        lemma_digits_val_monotonic(s, i + 1);
        assert(s.take(i + 1).drop_last() =~= s.take(i));
        lemma_digits_val_nonneg(s.take(i));
        assert(digits_val(s.take(i + 1)) >= digits_val(s.take(i)));
    }
}

/// A digit string's value is never negative.
proof fn lemma_digits_val_nonneg(s: Seq<char>)
    requires
        forall|j: int| 0 <= j < s.len() ==> '0' <= #[trigger] s[j] <= '9',
    ensures
        digits_val(s) >= 0,
    decreases s.len(),
{
    if s.len() > 0 {
        assert(forall|j: int| 0 <= j < s.drop_last().len() ==> '0' <= #[trigger] s.drop_last()[j] <= '9');
        lemma_digits_val_nonneg(s.drop_last());
    }
}

/// The boolean a token names, when it names one.
fn parse_bool(s: &str) -> (r: Option<bool>)
    ensures
        r == is_spec_bool(s@),
{
    if str_eq(s, "true") {
        Some(true)
    } else if str_eq(s, "false") {
        Some(false)
    } else {
        None
    }
}

/// The tokens from `from` on, as owned strings.
fn collect_strings(args: &[&str], from: usize) -> (out: Vec<String>)
    requires
        from <= args@.len(),
    ensures
        out.deep_view() == args.deep_view().skip(from as int),
{
    let n = args.len();
    let mut out: Vec<String> = Vec::new();
    let mut i: usize = from;
    while i < n
        invariant
            from <= i <= n,
            n == args@.len(),
            out.deep_view() =~= args.deep_view().subrange(from as int, i as int),
        decreases n - i,
    {
        let ghost pre = out.deep_view();
        out.push(args[i].to_owned());
        proof {
            assert(out.deep_view() =~~= pre.push(args.deep_view()[i as int]));
            assert(out.deep_view() =~~= args.deep_view().subrange(from as int, i + 1));
        }
        i = i + 1;
    }
    proof {
        assert(args.deep_view().subrange(from as int, n as int) =~~= args.deep_view().skip(from as int));
    }
    out
}

} // verus!
