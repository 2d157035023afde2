//! Crafting macros: parsing the in-game macro text into actions, and picking
//! the macro that suits a recipe best.
use vstd::prelude::*;
use crate::talan::action::{Action, action_entry, lookup_action};
use crate::talan::recipe::Recipe;
use crate::text::{push_char, push_str, alphanumeric, lines_of, pieces_view, lines, char_is_alphanumeric, char_is_whitespace, chars_of, is_white_space, lower_text, lowercase_chars, all_ascii, ascii_lower, lemma_trim_ignores_case, string_of, trim, trim_chars};

verus! {

/// Why a macro line was refused.
#[derive(Debug)]
pub enum MacroError {
    /// The line does not start with `/ac `.
    Invalid(String),
    /// The action name holds a character that no action name can hold.
    BadChar(char),
    /// The action name is not one the game knows.
    UnknownAction(String),
}

/// The content of a [`MacroError`].
pub enum MacroFault {
    Invalid(Seq<char>),
    BadChar(char),
    UnknownAction(Seq<char>),
}

impl View for MacroError {
    type V = MacroFault;

    open spec fn view(&self) -> MacroFault {
        match self {
            MacroError::Invalid(s) => MacroFault::Invalid(s@),
            MacroError::BadChar(c) => MacroFault::BadChar(*c),
            MacroError::UnknownAction(s) => MacroFault::UnknownAction(s@),
        }
    }
}

impl MacroError {
    /// The message that tells what is wrong.
    pub fn message(&self) -> (r: String)
        ensures
            r@ == match self@ {
                MacroFault::Invalid(l) => "Macro is invalid: \""@ + l + "\""@,
                MacroFault::BadChar(c) => "Error at character '"@ + seq![c] + "'"@,
                MacroFault::UnknownAction(a) => "Unknown action name \""@ + a + "\""@,
            },
    {
        let mut r = String::new();
        match self {
            MacroError::Invalid(l) => {
                push_str(&mut r, "Macro is invalid: \"");
                push_str(&mut r, l.as_str());
                push_str(&mut r, "\"");
            },
            MacroError::BadChar(c) => {
                push_str(&mut r, "Error at character '");
                push_char(&mut r, *c);
                push_str(&mut r, "'");
            },
            MacroError::UnknownAction(a) => {
                push_str(&mut r, "Unknown action name \"");
                push_str(&mut r, a.as_str());
                push_str(&mut r, "\"");
            },
        }
        r
    }
}

/// A macro as the crafting engine uses it.
#[derive(Clone, Debug)]
pub struct Macro {
    pub name: String,
    pub gui_name: String,
    pub durability: Vec<u32>,
    pub max_rlvl: Option<u32>,
    pub min_rlvl: Option<u32>,
    pub difficulty: Option<u32>,
    pub specialist: bool,
    pub actions: Vec<Action>,
}

/// One macro as the macro file describes it.
#[derive(Debug)]
pub struct MacroToml {
    pub name: String,
    pub durability: Vec<u32>,
    pub max_rlvl: Option<u32>,
    pub min_rlvl: Option<u32>,
    pub difficulty: Option<u32>,
    pub specialist: Option<bool>,
    pub actions: String,
}

/// The contents of a macro file.
#[derive(Debug)]
pub struct MacroFileToml {
    pub xiv_macro: Vec<MacroToml>,
}

/// Whether `c` may stand in an action name.
pub open spec fn is_name_char(c: char) -> bool {
    alphanumeric(c) || is_white_space(c) || c == '\''
}

/// The action name that `body`, the text after `/ac `, spells: its name
/// characters up to a `<` or a closing quote, with one opening quote left
/// out; or the first character that may not stand there.
pub open spec fn action_text(body: Seq<char>, quoted: bool) -> Result<Seq<char>, char>
    decreases body.len(),
{
    if body.len() == 0 {
        Ok(Seq::empty())
    } else {
        let c = body[0];
        if is_name_char(c) {
            match action_text(body.drop_first(), quoted) {
                Ok(t) => Ok(seq![c] + t),
                Err(e) => Err(e),
            }
        } else if c == '"' {
            if quoted {
                Ok(Seq::empty())
            } else {
                action_text(body.drop_first(), true)
            }
        } else if c == '<' {
            Ok(Seq::empty())
        } else {
            Err(c)
        }
    }
}

/// Whether `line` starts with `/ac `.
pub open spec fn has_action_prefix(line: Seq<char>) -> bool {
    &&& line.len() >= 4
    &&& line[0] == '/'
    &&& line[1] == 'a'
    &&& line[2] == 'c'
    &&& line[3] == ' '
}

/// What a macro line stands for: the known action its name spells, compared
/// without case and surrounding whitespace.
pub open spec fn line_action(line: Seq<char>) -> Result<Action, MacroFault> {
    if !has_action_prefix(line) {
        Err(MacroFault::Invalid(line))
    } else {
        match action_text(line.skip(4), false) {
            Err(c) => Err(MacroFault::BadChar(c)),
            Ok(t) => match action_entry(lower_text(trim(t))) {
                Some(a) => Ok(a),
                None => Err(MacroFault::UnknownAction(t)),
            },
        }
    }
}

/// Whether every character of `n` may stand in an action name.
pub open spec fn all_name_chars(n: Seq<char>) -> bool {
    forall|i: int| 0 <= i < n.len() ==> is_name_char(#[trigger] n[i])
}

proof fn lemma_text_of_name(n: Seq<char>, rest: Seq<char>, quoted: bool)
    requires
        all_name_chars(n),
    ensures
        action_text(n + rest, quoted) == prepend_text(n, action_text(rest, quoted)),
    decreases n.len(),
{
    if n.len() == 0 {
        assert(n + rest =~= rest);
        assert(prepend_text(n, action_text(rest, quoted)) == action_text(rest, quoted)) by {
            match action_text(rest, quoted) {
                Ok(t) => {
                    assert(n + t =~= t);
                },
                Err(_) => {},
            }
        }
    } else {
        let tail = n.drop_first();
        assert forall|i: int| 0 <= i < tail.len() implies is_name_char(#[trigger] tail[i]) by {
            assert(tail[i] == n[i + 1]);
        }
        lemma_text_of_name(tail, rest, quoted);
        assert((n + rest).drop_first() =~= tail + rest);
        assert((n + rest)[0] == n[0]);
        assert(is_name_char(n[0]));
        match action_text(rest, quoted) {
            Ok(t) => {
                assert(seq![n[0]] + (tail + t) =~= n + t);
            },
            Err(_) => {},
        }
    }
}

/// The four spellings of a macro line for the same action name, quoted or
/// not, with a wait or without, read alike: as the known action the name
/// spells, or as no action at all.
pub proof fn lemma_spellings_agree(name: Seq<char>, d: char)
    requires
        all_name_chars(name),
    ensures
        ({
            let plain = "/ac "@ + name;
            let quoted = "/ac \""@ + name + "\""@;
            let waited = "/ac "@ + name + " <wait."@ + seq![d] + ">"@;
            let quoted_waited = "/ac \""@ + name + "\" <wait."@ + seq![d] + ">"@;
            match action_entry(lower_text(trim(name))) {
                Some(a) => {
                    &&& line_action(plain) == Ok::<Action, MacroFault>(a)
                    &&& line_action(quoted) == Ok::<Action, MacroFault>(a)
                    &&& line_action(waited) == Ok::<Action, MacroFault>(a)
                    &&& line_action(quoted_waited) == Ok::<Action, MacroFault>(a)
                },
                None => {
                    &&& line_action(plain) is Err
                    &&& line_action(quoted) is Err
                    &&& line_action(waited) is Err
                    &&& line_action(quoted_waited) is Err
                },
            }
        }),
{
    reveal_strlit("/ac ");
    reveal_strlit("/ac \"");
    reveal_strlit("\"");
    reveal_strlit(" <wait.");
    reveal_strlit(">");
    reveal_strlit("\" <wait.");
    reveal_strlit("<wait.");
    let plain = "/ac "@ + name;
    let quoted = "/ac \""@ + name + "\""@;
    let waited = "/ac "@ + name + " <wait."@ + seq![d] + ">"@;
    let quoted_waited = "/ac \""@ + name + "\" <wait."@ + seq![d] + ">"@;
    let wait_tail = "<wait."@ + seq![d] + ">"@;
    // The body after `/ac ` of each spelling.
    assert(plain.skip(4) =~= name + Seq::<char>::empty());
    assert(quoted.skip(4) =~= seq!['"'] + (name + seq!['"']));
    assert(waited.skip(4) =~= name + (seq![' '] + wait_tail));
    assert(quoted_waited.skip(4) =~= seq!['"'] + (name + (seq!['"'] + (seq![' '] + wait_tail))));
    assert(has_action_prefix(plain));
    assert(has_action_prefix(quoted));
    assert(has_action_prefix(waited));
    assert(has_action_prefix(quoted_waited));

    lemma_text_of_name(name, Seq::<char>::empty(), false);
    assert(action_text(Seq::<char>::empty(), false) == Ok::<Seq<char>, char>(Seq::empty()));
    assert(name + Seq::<char>::empty() =~= name);
    assert(action_text(plain.skip(4), false) == Ok::<Seq<char>, char>(name));

    lemma_text_of_name(name, seq!['"'], true);
    assert(seq!['"'].drop_first() =~= Seq::<char>::empty());
    assert(action_text(seq!['"'], true) == Ok::<Seq<char>, char>(Seq::empty()));
    assert((seq!['"'] + (name + seq!['"'])).drop_first() =~= name + seq!['"']);
    assert(action_text(quoted.skip(4), false) == Ok::<Seq<char>, char>(name));

    lemma_text_of_name(name, seq![' '] + wait_tail, false);
    assert(wait_tail[0] == '<');
    assert((seq![' '] + wait_tail)[0] == ' ');
    assert((seq![' '] + wait_tail).drop_first() =~= wait_tail);
    assert(is_white_space(' '));
    assert(!is_name_char('<'));
    assert(action_text(wait_tail, false) == Ok::<Seq<char>, char>(Seq::empty()));
    assert(seq![' '] + Seq::<char>::empty() =~= seq![' ']);
    assert(action_text(seq![' '] + wait_tail, false) == Ok::<Seq<char>, char>(seq![' ']));
    assert(action_text(waited.skip(4), false) == Ok::<Seq<char>, char>(name + seq![' ']));
    crate::text::lemma_trim_trailing_space(name);

    let qt = seq!['"'] + (seq![' '] + wait_tail);
    lemma_text_of_name(name, qt, true);
    assert(qt[0] == '"');
    assert(action_text(qt, true) == Ok::<Seq<char>, char>(Seq::empty()));
    assert((seq!['"'] + (name + qt)).drop_first() =~= name + qt);
    assert(action_text(quoted_waited.skip(4), false) == Ok::<Seq<char>, char>(name));
}

/// `r` with `acc` in front of the text it holds.
pub open spec fn prepend_text(acc: Seq<char>, r: Result<Seq<char>, char>) -> Result<Seq<char>, char> {
    match r {
        Ok(t) => Ok(acc + t),
        Err(c) => Err(c),
    }
}

/// The macro line for an action name: `k` picks `/ac name`, `/ac "name"`,
/// `/ac name <wait.d>` or `/ac "name" <wait.d>`.
pub open spec fn spelling(name: Seq<char>, d: char, k: int) -> Seq<char> {
    if k == 0 {
        "/ac "@ + name
    } else if k == 1 {
        "/ac \""@ + name + "\""@
    } else if k == 2 {
        "/ac "@ + name + " <wait."@ + seq![d] + ">"@
    } else {
        "/ac \""@ + name + "\" <wait."@ + seq![d] + ">"@
    }
}

/// Whether two macro lines read as the same action, or both as none.
pub open spec fn read_alike(a: Seq<char>, b: Seq<char>) -> bool {
    match (line_action(a), line_action(b)) {
        (Ok(x), Ok(y)) => x == y,
        (Err(_), Err(_)) => true,
        _ => false,
    }
}

/// Letter case, quoting and a wait never change what a macro line reads as:
/// for two names that differ only in the case of their ASCII letters, any
/// spelling of the one (quoted or not, with a wait or without) reads as the
/// same action as any spelling of the other, or neither reads as an action.
pub proof fn lemma_case_and_spelling_ignored(name: Seq<char>, other: Seq<char>, d1: char, d2: char, k1: int, k2: int)
    requires
        all_name_chars(name),
        all_name_chars(other),
        all_ascii(name),
        all_ascii(other),
        ascii_lower(name) == ascii_lower(other),
        0 <= k1 < 4,
        0 <= k2 < 4,
    ensures
        read_alike(spelling(name, d1, k1), spelling(other, d2, k2)),
{
    lemma_spellings_agree(name, d1);
    lemma_spellings_agree(other, d2);
    lemma_trim_ignores_case(name, other);
}

/// Extracts the action of one macro line.
pub fn parse_line(line: &str) -> (r: Result<Action, MacroError>)
    ensures
        match r {
            Ok(a) => line_action(line@) == Ok::<Action, MacroFault>(a),
            Err(e) => line_action(line@) == Err::<Action, MacroFault>(e@),
        },
{
    let chars = chars_of(line);
    if chars.len() < 4 || chars[0] != '/' || chars[1] != 'a' || chars[2] != 'c' || chars[3] != ' ' {
        return Err(MacroError::Invalid(line.to_string()));
    }
    let mut has_quote = false;
    let mut action_string: Vec<char> = Vec::new();
    let mut pos: usize = 4;
    assert(chars@.skip(4) == line@.skip(4));
    assert(has_action_prefix(line@));
    while pos < chars.len()
        invariant_except_break
            4 <= pos <= chars.len(),
            chars@ == line@,
            has_action_prefix(line@),
            action_text(line@.skip(4), false) == prepend_text(
                action_string@,
                action_text(chars@.skip(pos as int), has_quote),
            ),
        ensures
            4 <= pos <= chars.len(),
            chars@ == line@,
            has_action_prefix(line@),
            action_text(line@.skip(4), false) == Ok::<Seq<char>, char>(action_string@),
        decreases chars.len() - pos,
    {
        let c = chars[pos];
        let ghost rest = chars@.skip(pos as int);
        assert(rest[0] == c);
        assert(rest.drop_first() == chars@.skip(pos + 1));
        if char_is_alphanumeric(c) || char_is_whitespace(c) || c == '\'' {
            let ghost before = action_string@;
            action_string.push(c);
            assert(before + (seq![c] + Seq::<char>::empty()) == action_string@ + Seq::<char>::empty());
            assert(forall|t: Seq<char>| before + (seq![c] + t) == action_string@ + t);
        } else if c == '"' {
            if !has_quote {
                has_quote = true;
            } else {
                assert(action_string@ + Seq::<char>::empty() == action_string@);
                break;
            }
        } else if c == '<' {
            assert(action_string@ + Seq::<char>::empty() == action_string@);
            break;
        } else {
            assert(!is_name_char(c));
            assert(action_text(rest, has_quote) == Err::<Seq<char>, char>(c));
            assert(has_action_prefix(line@));
            return Err(MacroError::BadChar(c));
        }
        pos += 1;
    }
    proof {
        if pos == chars.len() {
            assert(chars@.skip(pos as int).len() == 0);
            assert(action_string@ + Seq::<char>::empty() == action_string@);
        }
    }
    let trimmed = trim_chars(&action_string);
    let key = lowercase_chars(&trimmed);
    match lookup_action(&key) {
        Some(action) => Ok(action),
        None => Err(MacroError::UnknownAction(string_of(&action_string))),
    }
}

/// The lines of a macro's action text.
pub open spec fn buffer_lines(buffer: Seq<char>) -> Seq<Seq<char>> {
    lines(trim(buffer))
}

/// Whether `line`, once trimmed, is a comment.
pub open spec fn is_comment(line: Seq<char>) -> bool {
    trim(line).len() > 0 && trim(line)[0] == '#'
}

/// `r` with `acc` in front of the actions it holds.
pub open spec fn prepend_actions(acc: Seq<Action>, r: Result<Seq<Action>, MacroFault>) -> Result<
    Seq<Action>,
    MacroFault,
> {
    match r {
        Ok(t) => Ok(acc + t),
        Err(e) => Err(e),
    }
}

/// The actions of a sequence of macro lines, comments left out, or the fault
/// of the first line that is no action.
pub open spec fn lines_actions(ls: Seq<Seq<char>>) -> Result<Seq<Action>, MacroFault>
    decreases ls.len(),
{
    if ls.len() == 0 {
        Ok(Seq::empty())
    } else if trim(ls[0]).len() == 0 || is_comment(ls[0]) {
        lines_actions(ls.drop_first())
    } else {
        match line_action(trim(ls[0])) {
            Err(e) => Err(e),
            Ok(a) => prepend_actions(seq![a], lines_actions(ls.drop_first())),
        }
    }
}

/// Whether reading `ls` line by line comes to a blank line before it comes to
/// a line that is no action.
pub open spec fn reaches_blank(ls: Seq<Seq<char>>) -> bool
    decreases ls.len(),
{
    if ls.len() == 0 {
        false
    } else if trim(ls[0]).len() == 0 {
        true
    } else if is_comment(ls[0]) {
        reaches_blank(ls.drop_first())
    } else {
        match line_action(trim(ls[0])) {
            Err(_) => false,
            Ok(_) => reaches_blank(ls.drop_first()),
        }
    }
}

/// Reads macro lines in order, stopping at the first line that is no action,
/// or at a blank line (`None`).
fn scan_lines(ls: &Vec<Vec<char>>) -> (r: Option<Result<Vec<Action>, MacroError>>)
    ensures
        r is None <==> reaches_blank(pieces_view(ls@)),
        r matches Some(Ok(v)) ==> lines_actions(pieces_view(ls@)) == Ok::<Seq<Action>, MacroFault>(v@),
        r matches Some(Err(e)) ==> lines_actions(pieces_view(ls@)) == Err::<Seq<Action>, MacroFault>(e@),
{
    let ghost all = pieces_view(ls@);
    let mut acc: Vec<Action> = Vec::new();
    let mut i: usize = 0;
    assert(all.skip(0) == all);
    assert(Seq::<Action>::empty() + Seq::<Action>::empty() == Seq::<Action>::empty());
    assert(forall|t: Seq<Action>| Seq::<Action>::empty() + t == t);
    while i < ls.len()
        invariant
            i <= ls.len(),
            all == pieces_view(ls@),
            lines_actions(all) == prepend_actions(acc@, lines_actions(all.skip(i as int))),
            reaches_blank(all) == reaches_blank(all.skip(i as int)),
        decreases ls.len() - i,
    {
        let ghost rest = all.skip(i as int);
        assert(rest[0] == ls@[i as int]@);
        assert(rest.drop_first() == all.skip(i + 1));
        let line = trim_chars(&ls[i]);
        if line.len() == 0 {
            return None;
        }
        if line[0] == '#' {
            i += 1;
            continue;
        }
        let text = string_of(&line);
        match parse_line(text.as_str()) {
            Err(e) => {
                return Some(Err(e));
            },
            Ok(a) => {
                let ghost before = acc@;
                acc.push(a);
                assert(forall|t: Seq<Action>| before + (seq![a] + t) == acc@ + t);
            },
        }
        i += 1;
    }
    assert(all.skip(i as int).len() == 0);
    assert(acc@ + Seq::<Action>::empty() == acc@);
    Some(Ok(acc))
}

/// Whether reading a macro's action text line by line comes to a blank line
/// before it comes to a line that is no action.
pub fn buffer_reaches_blank(buffer: &str) -> (r: bool)
    ensures
        r == reaches_blank(buffer_lines(buffer@)),
{
    let all = chars_of(buffer);
    let trimmed = trim_chars(&all);
    let ls = lines_of(&trimmed);
    scan_lines(&ls).is_none()
}

/// The actions of a macro's action text, in order, with commented lines left
/// out; or the fault of its first line that is no action.
pub fn parse_buffer(buffer: &str) -> (r: Result<Vec<Action>, MacroError>)
    requires
        !reaches_blank(buffer_lines(buffer@)),
    ensures
        match r {
            Ok(v) => lines_actions(buffer_lines(buffer@)) == Ok::<Seq<Action>, MacroFault>(v@),
            Err(e) => lines_actions(buffer_lines(buffer@)) == Err::<Seq<Action>, MacroFault>(e@),
        },
{
    let all = chars_of(buffer);
    let trimmed = trim_chars(&all);
    let ls = lines_of(&trimmed);
    match scan_lines(&ls) {
        Some(r) => r,
        None => Ok(Vec::new()),
    }
}

/// The actions of a macro's action text, or `None` where reading it line by
/// line comes to a blank line first.
pub fn try_parse_buffer(buffer: &str) -> (r: Option<Result<Vec<Action>, MacroError>>)
    ensures
        r is None <==> reaches_blank(buffer_lines(buffer@)),
        r matches Some(Ok(v)) ==> lines_actions(buffer_lines(buffer@)) == Ok::<Seq<Action>, MacroFault>(v@),
        r matches Some(Err(e)) ==> lines_actions(buffer_lines(buffer@)) == Err::<Seq<Action>, MacroFault>(e@),
{
    if buffer_reaches_blank(buffer) {
        None
    } else {
        Some(parse_buffer(buffer))
    }
}

/// Whether reading the action text of `t` fails.
pub open spec fn toml_fails(t: MacroToml) -> bool {
    lines_actions(buffer_lines(t.actions@)) is Err
}

/// Whether `m` is the macro that the file entry `t` describes.
pub open spec fn macro_from_toml(m: Macro, t: MacroToml) -> bool {
    &&& m.name@ == t.name@
    &&& m.gui_name@ == t.name@
    &&& m.durability@ == t.durability@
    &&& m.max_rlvl == t.max_rlvl
    &&& m.min_rlvl == t.min_rlvl
    &&& m.difficulty == t.difficulty
    &&& m.specialist == (t.specialist == Some(true))
    &&& lines_actions(buffer_lines(t.actions@)) == Ok::<Seq<Action>, MacroFault>(m.actions@)
}

/// Whether reading the entries of `ms` in order never comes to a blank
/// action line: any entry whose text is read is free of one.
pub open spec fn tomls_readable(ms: Seq<MacroToml>) -> bool {
    forall|i: int|
        0 <= i < ms.len() && (forall|j: int| 0 <= j < i ==> !toml_fails(#[trigger] ms[j]))
            ==> !reaches_blank(buffer_lines((#[trigger] ms[i]).actions@))
}

/// A copy of a list of numbers.
fn copy_u32s(v: &Vec<u32>) -> (r: Vec<u32>)
    ensures
        r@ == v@,
{
    let mut r: Vec<u32> = Vec::new();
    let mut i: usize = 0;
    while i < v.len()
        invariant
            i <= v.len(),
            r@ == v@.take(i as int),
        decreases v.len() - i,
    {
        r.push(v[i]);
        assert(v@.take(i + 1) == v@.take(i as int).push(v@[i as int]));
        i += 1;
    }
    assert(v@.take(v.len() as int) == v@);
    r
}

/// Appends to `out_vec` the macros that the entries of a macro file describe,
/// in order, up to the first entry whose action text fails to read; that
/// failure is returned.
pub fn read_macros_from_toml(des: &MacroFileToml, out_vec: &mut Vec<Macro>) -> (r: Result<(), MacroError>)
    requires
        tomls_readable(des.xiv_macro@),
    ensures
        ({
            let ms = des.xiv_macro@;
            let n = final(out_vec)@.len() - old(out_vec)@.len();
            &&& 0 <= n <= ms.len()
            &&& final(out_vec)@.take(old(out_vec)@.len() as int) == old(out_vec)@
            &&& forall|j: int| 0 <= j < n ==> !toml_fails(#[trigger] ms[j])
            &&& forall|j: int| 0 <= j < n ==> macro_from_toml(
                #[trigger] final(out_vec)@[old(out_vec)@.len() + j],
                ms[j],
            )
            &&& match r {
                Ok(_) => n == ms.len(),
                Err(e) => n < ms.len() && lines_actions(buffer_lines(ms[n].actions@)) == Err::<
                    Seq<Action>,
                    MacroFault,
                >(e@),
            }
        }),
{
    let ghost ms = des.xiv_macro@;
    let ghost start = out_vec@.len();
    let mut i: usize = 0;
    while i < des.xiv_macro.len()
        invariant
            ms == des.xiv_macro@,
            tomls_readable(ms),
            i <= ms.len(),
            out_vec@.len() == start + i,
            start == old(out_vec)@.len(),
            out_vec@.take(start as int) == old(out_vec)@,
            forall|j: int| 0 <= j < i ==> !toml_fails(#[trigger] ms[j]),
            forall|j: int| 0 <= j < i ==> macro_from_toml(#[trigger] out_vec@[start + j], ms[j]),
        decreases ms.len() - i,
    {
        let t = &des.xiv_macro[i];
        assert(t == ms[i as int]);
        assert(!reaches_blank(buffer_lines(t.actions@)));
        let actions = match parse_buffer(t.actions.as_str()) {
            Ok(a) => a,
            Err(e) => {
                return Err(e);
            },
        };
        let specialist = if let Some(spec) = t.specialist {
            spec
        } else {
            false
        };
        let m = Macro {
            name: t.name.clone(),
            gui_name: t.name.clone(),
            durability: copy_u32s(&t.durability),
            max_rlvl: t.max_rlvl,
            min_rlvl: t.min_rlvl,
            difficulty: t.difficulty,
            specialist,
            actions,
        };
        let ghost before = out_vec@;
        out_vec.push(m);
        assert(out_vec@.take(start as int) == before.take(start as int));
        assert(forall|j: int| 0 <= j < i ==> #[trigger] out_vec@[start + j] == before[start + j]);
        i += 1;
    }
    Ok(())
}

/// How well macro `m` fits a recipe, or `None` where it does not apply: it
/// applies when the recipe level lies within the macro's level bounds, the
/// difficulty matches where the macro names one, a specialist macro is only
/// used by a specialist, and the macro lists the recipe's durability. The
/// score counts the parameters the macro specifies, the durability included.
pub open spec fn macro_score(m: Macro, recipe: Recipe, specialist: bool) -> Option<nat> {
    if m.min_rlvl matches Some(x) && x > recipe.level {
        None
    } else if m.max_rlvl matches Some(x) && x < recipe.level {
        None
    } else if m.difficulty matches Some(d) && d != recipe.difficulty {
        None
    } else if m.specialist && !specialist {
        None
    } else if !m.durability@.contains(recipe.durability) {
        None
    } else {
        Some(
            (1 + (if m.min_rlvl is Some { 1nat } else { 0nat }) + (if m.max_rlvl is Some {
                1nat
            } else {
                0nat
            }) + (if m.difficulty is Some { 1nat } else { 0nat }) + (if m.specialist {
                1nat
            } else {
                0nat
            })) as nat,
        )
    }
}

/// A macro applies to a recipe exactly when it meets every condition it
/// sets: the recipe's level lies within its level bounds, its difficulty
/// (where set) is the recipe's, a specialist macro is only for a specialist,
/// and its durabilities hold the recipe's. One that applies scores at least
/// one, and one more for each bound, difficulty or specialist mark it sets.
pub proof fn lemma_macro_applies(m: Macro, recipe: Recipe, specialist: bool)
    ensures
        macro_score(m, recipe, specialist) is Some <==> {
            &&& (m.min_rlvl matches Some(x) ==> x <= recipe.level)
            &&& (m.max_rlvl matches Some(x) ==> recipe.level <= x)
            &&& (m.difficulty matches Some(d) ==> d == recipe.difficulty)
            &&& (m.specialist ==> specialist)
            &&& m.durability@.contains(recipe.durability)
        },
        macro_score(m, recipe, specialist) matches Some(s) ==> {
            &&& s >= 1
            &&& (m.min_rlvl is Some ==> s >= 2)
            &&& (m.max_rlvl is Some ==> s >= 2)
            &&& (m.difficulty is Some ==> s >= 2)
            &&& (m.specialist ==> s >= 2)
            &&& s <= 5
        },
{
}

/// The macro picked for a recipe, where any applies, meets every condition
/// it sets: in particular the recipe's level is never above its maximum
/// level nor below its minimum.
pub proof fn lemma_picked_macro_fits(macros: Seq<Macro>, recipe: Recipe, specialist: bool, r: int)
    requires
        0 <= r < macros.len(),
        macro_score(macros[r], recipe, specialist) is Some,
    ensures
        macros[r].min_rlvl matches Some(x) ==> x <= recipe.level,
        macros[r].max_rlvl matches Some(x) ==> recipe.level <= x,
        macros[r].difficulty matches Some(d) ==> d == recipe.difficulty,
        macros[r].specialist ==> specialist,
        macros[r].durability@.contains(recipe.durability),
{
    lemma_macro_applies(macros[r], recipe, specialist);
}

/// Whether `v` holds `x`.
fn contains_u32(v: &Vec<u32>, x: u32) -> (r: bool)
    ensures
        r == v@.contains(x),
{
    let mut i: usize = 0;
    while i < v.len()
        invariant
            i <= v.len(),
            forall|j: int| 0 <= j < i ==> v@[j] != x,
        decreases v.len() - i,
    {
        if v[i] == x {
            assert(v@[i as int] == x);
            return true;
        }
        i += 1;
    }
    false
}

/// The score of `m` for `recipe`, computed.
fn score_of(m: &Macro, recipe: &Recipe, specialist: bool) -> (r: Option<u32>)
    ensures
        match r {
            Some(s) => macro_score(*m, *recipe, specialist) == Some(s as nat),
            None => macro_score(*m, *recipe, specialist) is None,
        },
{
    let mut match_cnt: u32 = 0;
    if let Some(min_rlvl) = m.min_rlvl {
        if min_rlvl > recipe.level {
            return None;
        }
        match_cnt += 1;
    }
    if let Some(max_rlvl) = m.max_rlvl {
        if max_rlvl < recipe.level {
            return None;
        }
        match_cnt += 1;
    }
    if let Some(difficulty) = m.difficulty {
        if difficulty != recipe.difficulty {
            return None;
        }
        match_cnt += 1;
    }
    if m.specialist {
        if m.specialist != specialist {
            return None;
        }
        match_cnt += 1;
    }
    if !contains_u32(&m.durability, recipe.durability) {
        return None;
    }
    match_cnt += 1;
    Some(match_cnt)
}

/// Picks the macro for a recipe: of the macros that apply, the first one
/// with the highest score; where none applies, the first macro (index 0).
pub fn get_macro_for_recipe(macros: &[Macro], recipe: &Recipe, specialist: bool) -> (r: usize)
    ensures
        (exists|i: int| 0 <= i < macros@.len() && (#[trigger] macro_score(macros@[i], *recipe, specialist)) is Some) ==> {
            &&& r < macros@.len()
            &&& macro_score(macros@[r as int], *recipe, specialist) is Some
            &&& forall|j: int|
                0 <= j < macros@.len() && (#[trigger] macro_score(macros@[j], *recipe, specialist)) is Some
                    ==> macro_score(macros@[j], *recipe, specialist)->0 <= macro_score(
                    macros@[r as int],
                    *recipe,
                    specialist,
                )->0
            &&& forall|j: int|
                0 <= j < r && (#[trigger] macro_score(macros@[j], *recipe, specialist)) is Some
                    ==> macro_score(macros@[j], *recipe, specialist)->0 < macro_score(
                    macros@[r as int],
                    *recipe,
                    specialist,
                )->0
        },
        (forall|i: int| 0 <= i < macros@.len() ==> (#[trigger] macro_score(macros@[i], *recipe, specialist)) is None) ==> r == 0,
        macros@.len() > 0 ==> r < macros@.len(),
{
    let mut best_pick: Option<usize> = None;
    let mut best_match_cnt: u32 = 0;
    let mut i: usize = 0;
    while i < macros.len()
        invariant
            i <= macros@.len(),
            best_pick is None ==> best_match_cnt == 0 && forall|j: int|
                0 <= j < i ==> (#[trigger] macro_score(macros@[j], *recipe, specialist)) is None,
            best_pick matches Some(b) ==> {
                &&& b < i
                &&& macro_score(macros@[b as int], *recipe, specialist) == Some(best_match_cnt as nat)
                &&& forall|j: int|
                    0 <= j < i && (#[trigger] macro_score(macros@[j], *recipe, specialist)) is Some
                        ==> macro_score(macros@[j], *recipe, specialist)->0 <= best_match_cnt
                &&& forall|j: int|
                    0 <= j < b && (#[trigger] macro_score(macros@[j], *recipe, specialist)) is Some
                        ==> macro_score(macros@[j], *recipe, specialist)->0 < best_match_cnt
            },
        decreases macros@.len() - i,
    {
        match score_of(&macros[i], recipe, specialist) {
            Some(match_cnt) => {
                if match_cnt > best_match_cnt {
                    best_match_cnt = match_cnt;
                    best_pick = Some(i);
                }
            },
            None => {},
        }
        i += 1;
    }
    match best_pick {
        Some(b) => b,
        None => 0,
    }
}

/// Whether reading the entries of a macro file in order never comes to a
/// blank action line.
pub fn macro_file_readable(des: &MacroFileToml) -> (r: bool)
    ensures
        r == tomls_readable(des.xiv_macro@),
{
    let ghost ms = des.xiv_macro@;
    let mut i: usize = 0;
    while i < des.xiv_macro.len()
        invariant
            ms == des.xiv_macro@,
            i <= ms.len(),
            forall|j: int| 0 <= j < i ==> !toml_fails(#[trigger] ms[j]),
            forall|j: int| 0 <= j < i ==> !reaches_blank(buffer_lines((#[trigger] ms[j]).actions@)),
        decreases ms.len() - i,
    {
        let t = &des.xiv_macro[i];
        assert(t == ms[i as int]);
        if buffer_reaches_blank(t.actions.as_str()) {
            return false;
        }
        if parse_buffer(t.actions.as_str()).is_err() {
            assert forall|k: int|
                0 <= k < ms.len() && (forall|j: int| 0 <= j < k ==> !toml_fails(#[trigger] ms[j]))
                    implies !reaches_blank(buffer_lines((#[trigger] ms[k]).actions@)) by {
                if k > i {
                    assert(toml_fails(ms[i as int]));
                }
            }
            return true;
        }
        i += 1;
    }
    true
}

/// Appends the macros of a macro file as [`read_macros_from_toml`] does, or
/// leaves `out_vec` as it is and returns `None` where reading the file would
/// come to a blank action line.
pub fn try_read_macros_from_toml(des: &MacroFileToml, out_vec: &mut Vec<Macro>) -> (r: Option<
    Result<(), MacroError>,
>)
    ensures
        r is None <==> !tomls_readable(des.xiv_macro@),
        r is None ==> final(out_vec)@ == old(out_vec)@,
        r matches Some(res) ==> ({
            let ms = des.xiv_macro@;
            let n = final(out_vec)@.len() - old(out_vec)@.len();
            &&& 0 <= n <= ms.len()
            &&& final(out_vec)@.take(old(out_vec)@.len() as int) == old(out_vec)@
            &&& forall|j: int| 0 <= j < n ==> !toml_fails(#[trigger] ms[j])
            &&& forall|j: int| 0 <= j < n ==> macro_from_toml(
                #[trigger] final(out_vec)@[old(out_vec)@.len() + j],
                ms[j],
            )
            &&& match res {
                Ok(_) => n == ms.len(),
                Err(e) => n < ms.len() && lines_actions(buffer_lines(ms[n].actions@)) == Err::<
                    Seq<Action>,
                    MacroFault,
                >(e@),
            }
        }),
{
    if macro_file_readable(des) {
        Some(read_macros_from_toml(des, out_vec))
    } else {
        None
    }
}

} // verus!
