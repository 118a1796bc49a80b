//! The command-line grammar: the `run` command with `--timeout`,
//! `--interval` and `--region` options (short forms `-t`, `-i`, `-r`),
//! their defaults, and a plain decimal parser for the numeric values.
//!
//! When an option is given more than once the last occurrence wins; a
//! numeric value is a non-empty string of decimal digits that fits in 64
//! bits.

use vstd::prelude::*;

verus! {

/// The resolved options of a `run` invocation.
#[derive(PartialEq, Eq, Debug)]
pub struct RunOptions {
    /// Total run time in seconds; zero means unbounded.
    pub timeout: u64,
    /// Seconds between polls.
    pub interval: u64,
    /// Display name of the carbon-intensity region.
    pub region_name: String,
}

/// Why a command line was rejected.
#[derive(Clone, Copy, PartialEq, Eq, Structural, Debug)]
pub enum CliError {
    /// No command word was given.
    MissingCommand,
    /// The command word was not `run`.
    UnknownCommand,
    /// An argument was not one of the known options.
    UnknownFlag,
    /// An option came last, with no value after it.
    MissingValue,
    /// An option's value was not an unsigned 64-bit decimal number.
    InvalidNumber,
}

pub open spec fn is_digit(c: char) -> bool {
    '0' <= c && c <= '9'
}

pub open spec fn digit_value(c: char) -> int {
    c as u32 - '0' as u32
}

/// The number a digit string denotes, most significant digit first;
/// `None` if the string is empty or holds a non-digit.
pub open spec fn denoted_number(s: Seq<char>) -> Option<int>
    decreases s.len(),
{
    if s.len() == 0 {
        None
    } else if !is_digit(s.last()) {
        None
    } else if s.len() == 1 {
        Some(digit_value(s.last()))
    } else {
        match denoted_number(s.drop_last()) {
            Some(v) => Some(10 * v + digit_value(s.last())),
            None => None,
        }
    }
}

/// The value a numeric option accepts: the denoted number, if it fits in
/// an unsigned 64-bit word.
pub open spec fn parsed_u64(s: Seq<char>) -> Option<int> {
    match denoted_number(s) {
        Some(v) => if v <= u64::MAX {
            Some(v)
        } else {
            None
        },
        None => None,
    }
}

proof fn lemma_denoted_none_if_nondigit(s: Seq<char>, j: int)
    requires
        0 <= j < s.len(),
        !is_digit(s[j]),
    ensures
        denoted_number(s) is None,
    decreases s.len(),
{
    if s.len() > 0 && is_digit(s.last()) && s.len() > 1 {
        lemma_denoted_none_if_nondigit(s.drop_last(), j);
    }
}

proof fn lemma_denoted_prefix_le(s: Seq<char>, i: int)
    requires
        1 <= i <= s.len(),
        forall|j: int| 0 <= j < s.len() ==> is_digit(#[trigger] s[j]),
    ensures
        denoted_number(s) is Some,
        denoted_number(s.take(i)) is Some,
        0 <= denoted_number(s.take(i))->Some_0 <= denoted_number(s)->Some_0,
    decreases s.len(),
{
    if i == s.len() {
        assert(s.take(i) =~= s);
        if s.len() > 1 {
            lemma_denoted_prefix_le(s.drop_last(), s.len() - 1);
            assert(s.drop_last().take(s.len() - 1) =~= s.drop_last());
        }
    } else {
        assert(s.drop_last().take(i) =~= s.take(i));
        lemma_denoted_prefix_le(s.drop_last(), i);
    }
}

/// Parses a non-empty all-digit decimal string into a 64-bit number;
/// `None` on an empty string, a non-digit, or overflow.
pub fn parse_u64_str(s: &str) -> (r: Option<u64>)
    ensures
        r is Some <==> parsed_u64(s@) is Some,
        r is Some ==> r->Some_0 as int == parsed_u64(s@)->Some_0,
{
    let n = s.unicode_len();
    if n == 0 {
        return None;
    }
    let mut i: usize = 0;
    while i < n
        invariant
            n == s@.len(),
            0 <= i <= n,
            forall|j: int| 0 <= j < i ==> is_digit(#[trigger] s@[j]),
        decreases n - i,
    {
        let c = s.get_char(i);
        if !(c >= '0' && c <= '9') {
            proof {
                lemma_denoted_none_if_nondigit(s@, i as int);
            }
            return None;
        }
        i = i + 1;
    }
    let mut value: u128 = 0;
    let mut i: usize = 0;
    while i < n
        invariant
            n == s@.len(),
            0 <= i <= n,
            forall|j: int| 0 <= j < n ==> is_digit(#[trigger] s@[j]),
            i == 0 ==> value == 0,
            i > 0 ==> denoted_number(s@.take(i as int)) == Some(value as int),
            value <= u64::MAX,
        decreases n - i,
    {
        let c = s.get_char(i);
        assert(is_digit(s@[i as int]));
        let d: u32 = (c as u32) - 48;
        let next: u128 = 10 * value + d as u128;
        proof {
            assert(s@.take(i as int + 1).drop_last() =~= s@.take(i as int));
            assert(s@.take(i as int + 1).last() == s@[i as int]);
        }
        if next > u64::MAX as u128 {
            proof {
                lemma_denoted_prefix_le(s@, i as int + 1);
            }
            return None;
        }
        value = next;
        i = i + 1;
    }
    proof {
        assert(s@.take(n as int) =~= s@);
    }
    Some(value as u64)
}

/// Folds the option list from position `i` over the options gathered so
/// far, returned as (timeout, interval, region name).
pub open spec fn folded_flags(args: Seq<Seq<char>>, i: int, acc: (int, int, Seq<char>)) -> Result<
    (int, int, Seq<char>),
    CliError,
>
    decreases args.len() - i,
{
    if i >= args.len() {
        Ok(acc)
    } else {
        let a = args[i];
        if a == "--timeout"@ || a == "-t"@ {
            if i + 1 >= args.len() {
                Err(CliError::MissingValue)
            } else {
                match parsed_u64(args[i + 1]) {
                    Some(v) => folded_flags(args, i + 2, (v, acc.1, acc.2)),
                    None => Err(CliError::InvalidNumber),
                }
            }
        } else if a == "--interval"@ || a == "-i"@ {
            if i + 1 >= args.len() {
                Err(CliError::MissingValue)
            } else {
                match parsed_u64(args[i + 1]) {
                    Some(v) => folded_flags(args, i + 2, (acc.0, v, acc.2)),
                    None => Err(CliError::InvalidNumber),
                }
            }
        } else if a == "--region"@ || a == "-r"@ {
            if i + 1 >= args.len() {
                Err(CliError::MissingValue)
            } else {
                folded_flags(args, i + 2, (acc.0, acc.1, args[i + 1]))
            }
        } else {
            Err(CliError::UnknownFlag)
        }
    }
}

/// What a whole command line (program name first) resolves to: the `run`
/// command's options folded over the defaults of 0 seconds timeout,
/// 1800 seconds interval and the `England` region.
pub open spec fn parsed_cli(args: Seq<Seq<char>>) -> Result<(int, int, Seq<char>), CliError> {
    if args.len() < 2 {
        Err(CliError::MissingCommand)
    } else if args[1] != "run"@ {
        Err(CliError::UnknownCommand)
    } else {
        folded_flags(args, 2, (0, 1800, "England"@))
    }
}

/// Parses a command line into the options of a `run` invocation.
pub fn parse_cli(args: &Vec<String>) -> (r: Result<RunOptions, CliError>)
    ensures
        r is Ok <==> parsed_cli(args.deep_view()) is Ok,
        r is Ok ==> {
            let p = parsed_cli(args.deep_view())->Ok_0;
            &&& r->Ok_0.timeout as int == p.0
            &&& r->Ok_0.interval as int == p.1
            &&& r->Ok_0.region_name@ == p.2
        },
        r is Err ==> r->Err_0 == parsed_cli(args.deep_view())->Err_0,
{
    let ghost av = args.deep_view();
    if args.len() < 2 {
        return Err(CliError::MissingCommand);
    }
    if !(args[1] == "run".to_owned()) {
        proof {
            assert(av[1] == args@[1]@);
        }
        return Err(CliError::UnknownCommand);
    }
    proof {
        assert(av[1] == args@[1]@);
        assert(parsed_cli(av) == folded_flags(av, 2, (0int, 1800int, "England"@)));
    }
    let mut timeout: u64 = 0;
    let mut interval: u64 = 1800;
    let mut region_name: String = "England".to_owned();
    let mut i: usize = 2;
    while i < args.len()
        invariant
            av == args.deep_view(),
            2 <= i,
            parsed_cli(av) == folded_flags(av, 2, (0, 1800, "England"@)),
            folded_flags(av, i as int, (timeout as int, interval as int, region_name@))
                == folded_flags(av, 2, (0, 1800, "England"@)),
        decreases args@.len() - i,
    {
        proof {
            assert(av[i as int] == args@[i as int]@);
        }
        let a = &args[i];
        let ghost acc = (timeout as int, interval as int, region_name@);
        if *a == "--timeout".to_owned() || *a == "-t".to_owned() {
            if i + 1 >= args.len() {
                proof {
                    assert(folded_flags(av, i as int, acc) == Err::<
                        (int, int, Seq<char>),
                        CliError,
                    >(CliError::MissingValue));
                }
                return Err(CliError::MissingValue);
            }
            proof {
                assert(av[i as int + 1] == args@[i as int + 1]@);
            }
            match parse_u64_str(args[i + 1].as_str()) {
                Some(v) => {
                    timeout = v;
                },
                None => {
                    proof {
                        assert(folded_flags(av, i as int, acc) == Err::<
                            (int, int, Seq<char>),
                            CliError,
                        >(CliError::InvalidNumber));
                    }
                    return Err(CliError::InvalidNumber);
                },
            }
        } else if *a == "--interval".to_owned() || *a == "-i".to_owned() {
            if i + 1 >= args.len() {
                proof {
                    assert(folded_flags(av, i as int, acc) == Err::<
                        (int, int, Seq<char>),
                        CliError,
                    >(CliError::MissingValue));
                }
                return Err(CliError::MissingValue);
            }
            proof {
                assert(av[i as int + 1] == args@[i as int + 1]@);
            }
            match parse_u64_str(args[i + 1].as_str()) {
                Some(v) => {
                    interval = v;
                },
                None => {
                    proof {
                        assert(folded_flags(av, i as int, acc) == Err::<
                            (int, int, Seq<char>),
                            CliError,
                        >(CliError::InvalidNumber));
                    }
                    return Err(CliError::InvalidNumber);
                },
            }
        } else if *a == "--region".to_owned() || *a == "-r".to_owned() {
            if i + 1 >= args.len() {
                proof {
                    assert(folded_flags(av, i as int, acc) == Err::<
                        (int, int, Seq<char>),
                        CliError,
                    >(CliError::MissingValue));
                }
                return Err(CliError::MissingValue);
            }
            proof {
                assert(av[i as int + 1] == args@[i as int + 1]@);
            }
            region_name = args[i + 1].clone();
        } else {
            proof {
                assert(folded_flags(av, i as int, acc) == Err::<
                    (int, int, Seq<char>),
                    CliError,
                >(CliError::UnknownFlag));
            }
            return Err(CliError::UnknownFlag);
        }
        i = i + 2;
    }
    Ok(RunOptions { timeout, interval, region_name })
}

/// A short usage banner for the command line.
pub fn usage_text() -> (r: String)
    ensures
        r@ == "usage: run [--timeout SECONDS] [--interval SECONDS] [--region NAME]"@,
        r@.len() > 0,
{
    let s: String =
        "usage: run [--timeout SECONDS] [--interval SECONDS] [--region NAME]".to_owned();
    proof {
        reveal_strlit("usage: run [--timeout SECONDS] [--interval SECONDS] [--region NAME]");
    }
    s
}

} // verus!
