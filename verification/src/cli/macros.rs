//! Macro lines of the command-line tool, read with a regular expression:
//! `/ac "Action Name" <wait.N>`, the quotes and the wait being optional.
use vstd::prelude::*;
use regex::Regex;
use crate::text::{
    digits_in_base, push_digits, push_str,
    chars_of, lines, lines_of, parse_unsigned, parse_unsigned_chars, pieces_view, string_of,
    trim, trim_chars,
};

verus! {

/// The compiled regular expression of the `regex` crate, declared so that
/// it can stand in a field; it is opaque to the proofs.
#[verifier::external_type_specification]
#[verifier::external_body]
pub struct ExRegex(Regex);

/// The error of `Regex::new`, declared so that it can stand in a signature.
#[verifier::external_type_specification]
#[verifier::external_body]
pub struct ExRegexError(regex::Error);

/// The pattern of a macro line: the action name is the first group, the
/// wait the second.
pub const ACTION_PATTERN: &'static str = r#"/ac ["]?([a-zA-Z' ]+[a-zA-Z])["]?(?: <wait.([0-9])>)?"#;

/// Whether `regex` accepts `pattern` (`Regex::new` succeeds).
pub uninterp spec fn regex_compiles(pattern: Seq<char>) -> bool;

/// What `Regex::captures` finds of `pattern` in `text`: `None` where there
/// is no match, else the text of the first group (empty where it took no
/// part) and the text of the second group where it took part.
pub uninterp spec fn regex_groups(pattern: Seq<char>, text: Seq<char>) -> Option<
    (Seq<char>, Option<Seq<char>>),
>;

/// A compiled pattern, with the text it was compiled from.
pub struct CompiledPattern {
    pub(crate) re: Regex,
    pub source: Ghost<Seq<char>>,
}

/// `Regex::new`: compiles `pattern`. The contract claims that whether it
/// succeeds depends on the pattern alone, and that the compiled pattern is
/// the one given.
#[verifier::external_body]
pub(crate) fn compile_pattern(pattern: &str) -> (r: Result<CompiledPattern, regex::Error>)
    ensures
        r is Ok <==> regex_compiles(pattern@),
        r matches Ok(p) ==> p.source@ == pattern@,
{
    match Regex::new(pattern) {
        Ok(re) => Ok(CompiledPattern { re, source: Ghost(pattern@) }),
        Err(e) => Err(e),
    }
}

/// `Regex::captures` with its first two groups read (`Captures::get`,
/// `Match::as_str`). The contract claims that the texts found are a function
/// of the pattern and the text alone.
#[verifier::external_body]
pub(crate) fn pattern_groups<'t>(p: &CompiledPattern, text: &'t str) -> (r: Option<(&'t str, Option<&'t str>)>)
    ensures
        groups_view(r) == regex_groups(p.source@, text@),
{
    match p.re.captures(text) {
        None => None,
        Some(c) => Some((c.get(1).map_or("", |m| m.as_str()), c.get(2).map(|m| m.as_str()))),
    }
}

/// One action of a macro and the wait after it, in seconds.
#[derive(Debug, PartialEq)]
pub struct Action {
    pub name: String,
    pub wait: u64,
}

impl Action {
    /// The action as shown: `Action ( action: {name}, wait: {wait})`.
    pub fn describe(&self) -> (r: String)
        ensures
            r@ == "Action ( action: "@ + self.name@ + ", wait: "@ + digits_in_base(self.wait as nat, 10) + ")"@,
    {
        let mut r = "Action ( action: ".to_string();
        push_str(&mut r, self.name.as_str());
        push_str(&mut r, ", wait: ");
        push_digits(&mut r, self.wait, 10);
        push_str(&mut r, ")");
        r
    }
}

/// Why a macro line was refused.
#[derive(Debug, PartialEq)]
pub enum LineError {
    /// The line pattern did not compile.
    Pattern,
    /// The line does not match the pattern.
    Unparsable(String),
    /// The wait is not a number.
    BadWait(String),
}

impl LineError {
    /// The message that tells what is wrong.
    pub fn message(&self) -> (r: String)
        ensures
            r@ == match self@ {
                LineFault::Pattern => "error compiling regex"@,
                LineFault::Unparsable(l) => "Unable to parse line: "@ + l,
                LineFault::BadWait(w) => "failed to parse as number: "@ + w,
            },
    {
        match self {
            LineError::Pattern => "error compiling regex".to_string(),
            LineError::Unparsable(l) => {
                let mut r = "Unable to parse line: ".to_string();
                push_str(&mut r, l.as_str());
                r
            },
            LineError::BadWait(w) => {
                let mut r = "failed to parse as number: ".to_string();
                push_str(&mut r, w.as_str());
                r
            },
        }
    }
}

/// The content of a [`LineError`].
pub enum LineFault {
    Pattern,
    Unparsable(Seq<char>),
    BadWait(Seq<char>),
}

impl View for LineError {
    type V = LineFault;

    open spec fn view(&self) -> LineFault {
        match self {
            LineError::Pattern => LineFault::Pattern,
            LineError::Unparsable(s) => LineFault::Unparsable(s@),
            LineError::BadWait(s) => LineFault::BadWait(s@),
        }
    }
}

/// The action and wait (in seconds, 3 where none is given) read from what
/// the pattern found in `line`, as plain values.
pub open spec fn groups_action(line: Seq<char>, groups: Option<(Seq<char>, Option<Seq<char>>)>) -> Result<
    (Seq<char>, nat),
    LineFault,
> {
    match groups {
        None => Err(LineFault::Unparsable(line)),
        Some((name, None)) => Ok((name, 3)),
        Some((name, Some(w))) => match parse_unsigned(w, u64::MAX as nat) {
            Some(n) => Ok((name, n)),
            None => Err(LineFault::BadWait(w)),
        },
    }
}

/// The action a macro line names and its wait in seconds (3 where the line
/// gives none), as plain values.
pub open spec fn line_action(line: Seq<char>) -> Result<(Seq<char>, nat), LineFault> {
    if !regex_compiles(ACTION_PATTERN@) {
        Err(LineFault::Pattern)
    } else {
        groups_action(line, regex_groups(ACTION_PATTERN@, line))
    }
}

/// Groups found by the pattern, as plain values.
pub open spec fn groups_view(g: Option<(&str, Option<&str>)>) -> Option<(Seq<char>, Option<Seq<char>>)> {
    match g {
        None => None,
        Some((a, b)) => Some(
            (
                a@,
                match b {
                    Some(w) => Some(w@),
                    None => None::<Seq<char>>,
                },
            ),
        ),
    }
}

/// An action as plain values.
pub open spec fn action_view(a: Action) -> (Seq<char>, nat) {
    (a.name@, a.wait as nat)
}

/// The action read from what the pattern found in `line` (`groups`: the
/// first group, and the second where it took part).
pub fn action_from_groups(line: &str, groups: Option<(&str, Option<&str>)>) -> (r: Result<Action, LineError>)
    ensures
        match r {
            Ok(a) => groups_action(line@, groups_view(groups)) == Ok::<(Seq<char>, nat), LineFault>(
                action_view(a),
            ),
            Err(e) => groups_action(line@, groups_view(groups)) == Err::<(Seq<char>, nat), LineFault>(e@),
        },
{
    match groups {
        None => Err(LineError::Unparsable(line.to_string())),
        Some((name, None)) => Ok(Action { name: name.to_string(), wait: 3 }),
        Some((name, Some(w))) => {
            let digits = chars_of(w);
            match parse_unsigned_chars(&digits, u64::MAX) {
                Some(n) => Ok(Action { name: name.to_string(), wait: n }),
                None => Err(LineError::BadWait(w.to_string())),
            }
        },
    }
}

/// Reads the action and wait of one macro line.
pub fn parse_line(line: &str) -> (r: Result<Action, LineError>)
    ensures
        match r {
            Ok(a) => line_action(line@) == Ok::<(Seq<char>, nat), LineFault>(action_view(a)),
            Err(e) => line_action(line@) == Err::<(Seq<char>, nat), LineFault>(e@),
        },
{
    let p = match compile_pattern(ACTION_PATTERN) {
        Ok(p) => p,
        Err(_) => {
            return Err(LineError::Pattern);
        },
    };
    let groups = pattern_groups(&p, line);
    action_from_groups(line, groups)
}

/// The actions of a macro buffer, one per line, as plain values, where every
/// line reads.
pub open spec fn lines_ok(ls: Seq<Seq<char>>) -> bool {
    forall|i: int| 0 <= i < ls.len() ==> (#[trigger] line_action(trim(ls[i]))) is Ok
}

/// The actions of the lines `ls`, as plain values.
pub open spec fn lines_actions(ls: Seq<Seq<char>>) -> Seq<(Seq<char>, nat)> {
    Seq::new(ls.len(), |i: int| line_action(trim(ls[i]))->Ok_0)
}

/// The actions of a sequence of actions as plain values.
pub open spec fn actions_view(v: Seq<Action>) -> Seq<(Seq<char>, nat)> {
    Seq::new(v.len(), |i: int| action_view(v[i]))
}

/// Reads the lines `ls`, stopping at the first that does not read.
fn read_lines(ls: &Vec<Vec<char>>) -> (r: Option<Vec<Action>>)
    ensures
        r is Some <==> lines_ok(pieces_view(ls@)),
        r matches Some(v) ==> actions_view(v@) == lines_actions(pieces_view(ls@)),
{
    let ghost all = pieces_view(ls@);
    let mut parsed: Vec<Action> = Vec::new();
    let mut i: usize = 0;
    while i < ls.len()
        invariant
            i <= ls.len(),
            all == pieces_view(ls@),
            forall|j: int| 0 <= j < i ==> (#[trigger] line_action(trim(all[j]))) is Ok,
            actions_view(parsed@) == lines_actions(all).take(i as int),
        decreases ls.len() - i,
    {
        let t = trim_chars(&ls[i]);
        assert(ls@[i as int]@ == all[i as int]);
        let text = string_of(&t);
        match parse_line(text.as_str()) {
            Ok(a) => {
                assert(text@ == trim(all[i as int]));
                assert(lines_actions(all)[i as int] == action_view(a));
                let ghost before = parsed@;
                parsed.push(a);
                assert(actions_view(parsed@) =~= actions_view(before).push(action_view(a)));
                assert(actions_view(parsed@) =~= lines_actions(all).take(i + 1));
            },
            Err(_) => {
                return None;
            },
        }
        i += 1;
    }
    assert(lines_actions(all).take(ls.len() as int) =~= lines_actions(all));
    Some(parsed)
}

/// The actions of a macro buffer, one per line of the trimmed buffer, where
/// every line reads (`None` otherwise).
pub fn try_parse_buffer(buffer: &str) -> (r: Option<Vec<Action>>)
    ensures
        r is Some <==> lines_ok(lines(trim(buffer@))),
        r matches Some(v) ==> actions_view(v@) == lines_actions(lines(trim(buffer@))),
{
    let all = chars_of(buffer);
    let trimmed = trim_chars(&all);
    let ls = lines_of(&trimmed);
    read_lines(&ls)
}

/// The actions of a macro buffer, one per line of the trimmed buffer.
pub fn parse_buffer(buffer: &str) -> (r: Vec<Action>)
    requires
        lines_ok(lines(trim(buffer@))),
    ensures
        actions_view(r@) == lines_actions(lines(trim(buffer@))),
{
    match try_parse_buffer(buffer) {
        Some(v) => v,
        None => Vec::new(),
    }
}

} // verus!
