//! Command-line handling: the flag parser the program runs on, the
//! older positional parser it grew out of, and the usage text.

use vstd::prelude::*;
use crate::errors::HelpMessage;
use crate::os::{spec_eq_ignore_ascii_case, str_eq_ignore_ascii_case};
use crate::text::str_eq;

verus! {

/// What the flag parser hands back: the raw `-o` value, the `-x`, `-d`
/// and `-m` switches, and the source and destination paths.
pub struct ParsedArgs {
    pub os_target: String,
    pub executable: bool,
    pub d_flag: bool,
    pub m_flag: bool,
    pub source_path: String,
    pub destination: String,
}

/// The mathematical shape of a [`ParsedArgs`].
pub struct ParsedArgsModel {
    pub os_target: Seq<char>,
    pub executable: bool,
    pub d_flag: bool,
    pub m_flag: bool,
    pub source_path: Seq<char>,
    pub destination: Seq<char>,
}

impl View for ParsedArgs {
    type V = ParsedArgsModel;

    open spec fn view(&self) -> ParsedArgsModel {
        ParsedArgsModel {
            os_target: self.os_target@,
            executable: self.executable,
            d_flag: self.d_flag,
            m_flag: self.m_flag,
            source_path: self.source_path@,
            destination: self.destination@,
        }
    }
}

/// The parser's starting state: no flags set, every text empty.
pub open spec fn spec_initial_args() -> ParsedArgsModel {
    ParsedArgsModel {
        os_target: Seq::<char>::empty(),
        executable: false,
        d_flag: false,
        m_flag: false,
        source_path: Seq::<char>::empty(),
        destination: Seq::<char>::empty(),
    }
}

/// One step of the flag parser per remaining argument, `acc` carrying
/// what earlier arguments established and `got_source` whether a bare
/// argument already filled the source path.  `-o` takes the next
/// argument as the target dialect; `-x` switches on execution; `-d` and
/// `-m` each take a source and a destination and end the parse at once,
/// refusing to combine with one another; any other argument fills the
/// source path first and the destination after that.
pub open spec fn spec_parse_loop(
    args: Seq<Seq<char>>,
    i: int,
    acc: ParsedArgsModel,
    got_source: bool,
) -> Result<ParsedArgsModel, HelpMessage>
    decreases args.len() - i,
{
    if i < 0 || i >= args.len() {
        Ok(acc)
    } else if args[i] == "-o"@ {
        if i + 1 < args.len() {
            spec_parse_loop(args, i + 2, ParsedArgsModel { os_target: args[i + 1], ..acc }, got_source)
        } else {
            Err(HelpMessage::MissingFlagO)
        }
    } else if args[i] == "-x"@ {
        spec_parse_loop(args, i + 1, ParsedArgsModel { executable: true, ..acc }, got_source)
    } else if args[i] == "-d"@ {
        if i + 1 < args.len() {
            if acc.m_flag {
                Err(HelpMessage::CannotCombineFlagsMF)
            } else if i + 2 < args.len() {
                Ok(
                    ParsedArgsModel {
                        d_flag: true,
                        source_path: args[i + 1],
                        destination: args[i + 2],
                        ..acc
                    },
                )
            } else {
                Err(HelpMessage::NoDestinationSpecified)
            }
        } else {
            Err(HelpMessage::NoValueForFlagD)
        }
    } else if args[i] == "-m"@ {
        if i + 1 < args.len() {
            if acc.d_flag {
                Err(HelpMessage::CannotCombineFlagsMF)
            } else if i + 2 < args.len() {
                Ok(
                    ParsedArgsModel {
                        m_flag: true,
                        source_path: args[i + 1],
                        destination: args[i + 2],
                        ..acc
                    },
                )
            } else {
                Err(HelpMessage::NoDestinationSpecified)
            }
        } else {
            Err(HelpMessage::NoValueForFlagM)
        }
    } else {
        if got_source {
            spec_parse_loop(args, i + 1, ParsedArgsModel { destination: args[i], ..acc }, got_source)
        } else {
            spec_parse_loop(args, i + 1, ParsedArgsModel { source_path: args[i], ..acc }, true)
        }
    }
}

/// The whole flag parse: fewer than three arguments (the program name
/// included) are refused outright, and the rest are read left to right
/// starting after the program name.
pub open spec fn spec_parse_args_advanced(args: Seq<Seq<char>>) -> Result<
    ParsedArgsModel,
    HelpMessage,
> {
    if args.len() < 3 {
        Err(HelpMessage::NotEnoughArgs)
    } else {
        spec_parse_loop(args, 1, spec_initial_args(), false)
    }
}

fn parse_loop(args: &Vec<String>, i: usize, acc: ParsedArgs, got_source: bool) -> (r: Result<
    ParsedArgs,
    HelpMessage,
>)
    ensures
        ({
            let s = spec_parse_loop(args.deep_view(), i as int, acc@, got_source);
            match r {
                Ok(p) => s == Ok::<ParsedArgsModel, HelpMessage>(p@),
                Err(e) => s == Err::<ParsedArgsModel, HelpMessage>(e),
            }
        }),
    decreases args.len() - i,
{
    if i >= args.len() {
        return Ok(acc);
    }
    proof {
        assert(args.deep_view()[i as int] == args[i as int]@);
        if i + 1 < args.len() {
            assert(args.deep_view()[i + 1 as int] == args[i + 1 as int]@);
        }
        if i + 2 < args.len() {
            assert(args.deep_view()[i + 2 as int] == args[i + 2 as int]@);
        }
    }
    if str_eq(args[i].as_str(), "-o") {
        if i + 1 < args.len() {
            let mut acc2 = acc;
            acc2.os_target = args[i + 1].clone();
            parse_loop(args, i + 2, acc2, got_source)
        } else {
            Err(HelpMessage::MissingFlagO)
        }
    } else if str_eq(args[i].as_str(), "-x") {
        let mut acc2 = acc;
        acc2.executable = true;
        parse_loop(args, i + 1, acc2, got_source)
    } else if str_eq(args[i].as_str(), "-d") {
        if i + 1 < args.len() {
            if acc.m_flag {
                Err(HelpMessage::CannotCombineFlagsMF)
            } else if i + 2 < args.len() {
                let mut acc2 = acc;
                acc2.d_flag = true;
                acc2.source_path = args[i + 1].clone();
                acc2.destination = args[i + 2].clone();
                Ok(acc2)
            } else {
                Err(HelpMessage::NoDestinationSpecified)
            }
        } else {
            Err(HelpMessage::NoValueForFlagD)
        }
    } else if str_eq(args[i].as_str(), "-m") {
        if i + 1 < args.len() {
            if acc.d_flag {
                Err(HelpMessage::CannotCombineFlagsMF)
            } else if i + 2 < args.len() {
                let mut acc2 = acc;
                acc2.m_flag = true;
                acc2.source_path = args[i + 1].clone();
                acc2.destination = args[i + 2].clone();
                Ok(acc2)
            } else {
                Err(HelpMessage::NoDestinationSpecified)
            }
        } else {
            Err(HelpMessage::NoValueForFlagM)
        }
    } else {
        let mut acc2 = acc;
        if got_source {
            acc2.destination = args[i].clone();
            parse_loop(args, i + 1, acc2, got_source)
        } else {
            acc2.source_path = args[i].clone();
            parse_loop(args, i + 1, acc2, true)
        }
    }
}

/// Reads the program's arguments, the program name first among them,
/// and hands back what they establish, or the first complaint they give
/// rise to.  File-system checks on the named paths are the caller's
/// business.
pub fn parse_args_advanced(args: &Vec<String>) -> (r: Result<ParsedArgs, HelpMessage>)
    ensures
        ({
            let s = spec_parse_args_advanced(args.deep_view());
            match r {
                Ok(p) => s == Ok::<ParsedArgsModel, HelpMessage>(p@),
                Err(e) => s == Err::<ParsedArgsModel, HelpMessage>(e),
            }
        }),
{
    if args.len() < 3 {
        return Err(HelpMessage::NotEnoughArgs);
    }
    let acc = ParsedArgs {
        os_target: String::new(),
        executable: false,
        d_flag: false,
        m_flag: false,
        source_path: String::new(),
        destination: String::new(),
    };
    parse_loop(args, 1, acc, false)
}

/// What the older positional parser makes of the arguments: with two
/// arguments after the program name the target defaults to Windows;
/// with four, `-o` must come first and name a dialect, in any ASCII
/// case; every other shape earns the matching complaint.
pub open spec fn spec_parse_args(args: Seq<Seq<char>>) -> Result<
    (Seq<char>, Seq<char>, Seq<char>),
    Seq<char>,
> {
    if args.len() <= 2 {
        Err("Need minimum 2 arguments, see above instructions."@)
    } else if args.len() == 3 {
        Ok(("windows"@, args[1], args[2]))
    } else if args.len() == 4 {
        Err("3 arguments not possible, see above instructions."@)
    } else if args.len() == 5 {
        if args[1] == "-o"@ {
            if !spec_eq_ignore_ascii_case(args[2], "windows"@) && !spec_eq_ignore_ascii_case(
                args[2],
                "unix"@,
            ) {
                Err("OS type for -o not recongnized. Only 'Unix' & 'Windows' are valid. Case insensitive."@)
            } else {
                Ok((args[2], args[3], args[4]))
            }
        } else {
            Err("Illegal arguments, check usage above."@)
        }
    } else {
        Err("Too many arguments, see above instructions."@)
    }
}

/// The older positional parse: target dialect, source file and
/// destination file, or a complaint for the caller to show beside the
/// usage text.
pub fn parse_args(args: &Vec<String>) -> (r: Result<(String, String, String), String>)
    ensures
        ({
            let s = spec_parse_args(args.deep_view());
            match r {
                Ok(t) => s == Ok::<(Seq<char>, Seq<char>, Seq<char>), Seq<char>>(
                    (t.0@, t.1@, t.2@),
                ),
                Err(e) => s == Err::<(Seq<char>, Seq<char>, Seq<char>), Seq<char>>(e@),
            }
        }),
{
    proof {
        let dv = args.deep_view();
        assert forall|j: int| 0 <= j < args.len() implies dv[j] == args[j]@ by {}
    }
    if args.len() <= 2 {
        Err(String::from_str("Need minimum 2 arguments, see above instructions."))
    } else if args.len() == 3 {
        Ok((String::from_str("windows"), args[1].clone(), args[2].clone()))
    } else if args.len() == 4 {
        Err(String::from_str("3 arguments not possible, see above instructions."))
    } else if args.len() == 5 {
        if str_eq(args[1].as_str(), "-o") {
            if !str_eq_ignore_ascii_case(args[2].as_str(), "windows") && !str_eq_ignore_ascii_case(
                args[2].as_str(),
                "unix",
            ) {
                Err(
                    String::from_str(
                        "OS type for -o not recongnized. Only 'Unix' & 'Windows' are valid. Case insensitive.",
                    ),
                )
            } else {
                Ok((args[2].clone(), args[3].clone(), args[4].clone()))
            }
        } else {
            Err(String::from_str("Illegal arguments, check usage above."))
        }
    } else {
        Err(String::from_str("Too many arguments, see above instructions."))
    }
}

/// The usage text, line by line, as the program shows it beside any
/// complaint about the arguments.
pub open spec fn spec_usage_lines() -> Seq<Seq<char>> {
    seq![
        "USAGE: busb [source_file] [destination_file]"@,
        "Possible Flags:"@,
        "  -o Selects the OS type for the command to target. If you are running on linux use 'Unix'. Default: 'Windows'"@,
        "  -h Prints this help message."@,
        "example:"@,
        "  busb my_test.sh my_new_file.txt"@,
        "example with OS selection:"@,
        "  busb -o Unix my_test.sh my_new_file.txt"@,
    ]
}

/// Hands back the usage text for the caller to print.
pub fn usage_lines() -> (r: Vec<String>)
    ensures
        r.deep_view() == spec_usage_lines(),
{
    let mut out: Vec<String> = Vec::new();
    out.push(String::from_str("USAGE: busb [source_file] [destination_file]"));
    out.push(String::from_str("Possible Flags:"));
    out.push(
        String::from_str(
            "  -o Selects the OS type for the command to target. If you are running on linux use 'Unix'. Default: 'Windows'",
        ),
    );
    out.push(String::from_str("  -h Prints this help message."));
    out.push(String::from_str("example:"));
    out.push(String::from_str("  busb my_test.sh my_new_file.txt"));
    out.push(String::from_str("example with OS selection:"));
    out.push(String::from_str("  busb -o Unix my_test.sh my_new_file.txt"));
    proof {
        assert(out.deep_view() =~= spec_usage_lines());
    }
    out
}

} // verus!
