//! Single macro lines read into an action name and a wait in seconds.
use vstd::prelude::*;
use crate::cli::macros::{
    ACTION_PATTERN, compile_pattern, groups_view, pattern_groups, regex_compiles, regex_groups,
};
use crate::text::{chars_of, parse_unsigned, parse_unsigned_chars, push_str};

verus! {

/// What a macro line reads as, from what the pattern found in `line`: the
/// action's name and the wait (3 where none is given), or the message that
/// the line does not read.
pub open spec fn groups_macro_line(line: Seq<char>, groups: Option<(Seq<char>, Option<Seq<char>>)>) -> Result<
    (Seq<char>, nat),
    Seq<char>,
> {
    match groups {
        None => Err("Unable to parse line: "@ + line),
        Some((name, None)) => Ok((name, 3)),
        Some((name, Some(w))) => Ok((name, parse_unsigned(w, u32::MAX as nat)->Some_0)),
    }
}

/// Whether the wait found (if any) is a number.
pub open spec fn groups_wait_reads(groups: Option<(Seq<char>, Option<Seq<char>>)>) -> bool {
    match groups {
        Some((_, Some(w))) => parse_unsigned(w, u32::MAX as nat) is Some,
        _ => true,
    }
}

/// Whether `line` can be read without failing: the pattern compiles and any
/// wait it finds is a number.
pub open spec fn macro_line_readable(line: Seq<char>) -> bool {
    regex_compiles(ACTION_PATTERN@) && groups_wait_reads(regex_groups(ACTION_PATTERN@, line))
}

/// The action and wait read from what the pattern found in `line`.
pub fn macro_line_from_groups<'a>(line: &str, groups: Option<(&'a str, Option<&'a str>)>) -> (r: Result<
    (&'a str, u32),
    String,
>)
    requires
        groups_wait_reads(groups_view(groups)),
    ensures
        match r {
            Ok((name, wait)) => groups_macro_line(line@, groups_view(groups)) == Ok::<
                (Seq<char>, nat),
                Seq<char>,
            >((name@, wait as nat)),
            Err(msg) => groups_macro_line(line@, groups_view(groups)) == Err::<(Seq<char>, nat), Seq<char>>(
                msg@,
            ),
        },
{
    match groups {
        None => {
            let mut msg = "Unable to parse line: ".to_string();
            push_str(&mut msg, line);
            Err(msg)
        },
        Some((name, None)) => Ok((name, 3)),
        Some((name, Some(w))) => {
            let digits = chars_of(w);
            match parse_unsigned_chars(&digits, 0xffff_ffff) {
                Some(n) => Ok((name, n as u32)),
                None => Err(String::new()),
            }
        },
    }
}

/// Extracts the action and wait of a macro line: `/ac`, the action's name
/// (quoted or not) and an optional `<wait.N>`; a wait of 3 where none is
/// given. A line that does not match gives the message
/// `Unable to parse line: ` and the line.
pub fn parse_macro_line(line: &str) -> (r: Result<(&str, u32), String>)
    requires
        macro_line_readable(line@),
    ensures
        match r {
            Ok((name, wait)) => groups_macro_line(line@, regex_groups(ACTION_PATTERN@, line@)) == Ok::<
                (Seq<char>, nat),
                Seq<char>,
            >((name@, wait as nat)),
            Err(msg) => groups_macro_line(line@, regex_groups(ACTION_PATTERN@, line@)) == Err::<
                (Seq<char>, nat),
                Seq<char>,
            >(msg@),
        },
{
    let p = match compile_pattern(ACTION_PATTERN) {
        Ok(p) => p,
        Err(_) => {
            return Err(String::new());
        },
    };
    let groups = pattern_groups(&p, line);
    macro_line_from_groups(line, groups)
}

/// Reads a macro line where that cannot fail (see [`parse_macro_line`]);
/// `None` where the pattern does not compile or the wait found is not a
/// number.
pub fn try_parse_macro_line(line: &str) -> (r: Option<Result<(&str, u32), String>>)
    ensures
        r is Some <==> macro_line_readable(line@),
        r matches Some(Ok((name, wait))) ==> groups_macro_line(line@, regex_groups(ACTION_PATTERN@, line@))
            == Ok::<(Seq<char>, nat), Seq<char>>((name@, wait as nat)),
        r matches Some(Err(msg)) ==> groups_macro_line(line@, regex_groups(ACTION_PATTERN@, line@)) == Err::<
            (Seq<char>, nat),
            Seq<char>,
        >(msg@),
{
    let p = match compile_pattern(ACTION_PATTERN) {
        Ok(p) => p,
        Err(_) => {
            return None;
        },
    };
    let groups = pattern_groups(&p, line);
    let wait_reads = match groups {
        Some((_, Some(w))) => {
            let digits = chars_of(w);
            parse_unsigned_chars(&digits, 0xffff_ffff).is_some()
        },
        _ => true,
    };
    if wait_reads {
        Some(parse_macro_line(line))
    } else {
        None
    }
}

} // verus!
