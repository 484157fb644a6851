use vstd::prelude::*;
use vstd::std_specs::iter::IteratorSpec;

verus! {

broadcast use vstd::string::group_string_axioms;

/// A decimal digit.
pub open spec fn is_digit(c: char) -> bool {
    '0' <= c <= '9'
}

/// A hexadecimal digit, in either case.
pub open spec fn is_hex_digit(c: char) -> bool {
    is_digit(c) || 'a' <= c <= 'f' || 'A' <= c <= 'F'
}

/// What a hexadecimal digit counts for.
pub open spec fn hex_digit_value(c: char) -> int {
    if is_digit(c) {
        c as int - '0' as int
    } else if 'a' <= c <= 'f' {
        c as int - 'a' as int + 10
    } else {
        c as int - 'A' as int + 10
    }
}

/// A character that a rule's name can hold.
pub open spec fn is_identifier_char(c: char) -> bool {
    c == '_' || is_digit(c) || 'a' <= c <= 'z' || 'A' <= c <= 'Z'
}

/// A letter or an underscore: what a rule's name can begin with.
pub open spec fn is_name_start(c: char) -> bool {
    c == '_' || 'a' <= c <= 'z' || 'A' <= c <= 'Z'
}

/// What a place in grammar source belongs to.
#[derive(Clone, Copy, Debug, PartialEq, Eq, Structural)]
pub enum Mode {
    /// Rules.
    Code,
    /// Rules, behind a slash that may open a comment.
    Slash,
    /// A comment that the line's end closes.
    Line,
    /// A block comment inside so many others.
    Block(usize),
    /// A block comment, behind a star that may close it.
    BlockStar(usize),
    /// A block comment, behind a slash that may open another inside it.
    BlockSlash(usize),
    /// A string.
    Text,
    /// A string, behind the backslash of an escape.
    TextEscape,
    /// A character literal.
    Letter,
    /// A character literal, behind the backslash of an escape.
    LetterEscape,
}

/// The mode behind the character `c`, read in the mode `mode`.
pub open spec fn stepped(mode: Mode, c: char) -> Mode {
    match mode {
        Mode::Code => if c == '/' {
            Mode::Slash
        } else if c == '"' {
            Mode::Text
        } else if c == '\'' {
            Mode::Letter
        } else {
            Mode::Code
        },
        Mode::Slash => if c == '/' {
            Mode::Line
        } else if c == '*' {
            Mode::Block(0)
        } else if c == '"' {
            Mode::Text
        } else if c == '\'' {
            Mode::Letter
        } else {
            Mode::Code
        },
        Mode::Line => if c == '\n' {
            Mode::Code
        } else {
            Mode::Line
        },
        Mode::Block(depth) => if c == '*' {
            Mode::BlockStar(depth)
        } else if c == '/' {
            Mode::BlockSlash(depth)
        } else {
            Mode::Block(depth)
        },
        Mode::BlockStar(depth) => if c == '/' {
            if depth == 0 {
                Mode::Code
            } else {
                Mode::Block((depth - 1) as usize)
            }
        } else if c == '*' {
            Mode::BlockStar(depth)
        } else {
            Mode::Block(depth)
        },
        Mode::BlockSlash(depth) => if c == '*' {
            Mode::Block((depth + 1) as usize)
        } else if c == '/' {
            Mode::BlockSlash(depth)
        } else {
            Mode::Block(depth)
        },
        Mode::Text => if c == '\\' {
            Mode::TextEscape
        } else if c == '"' {
            Mode::Code
        } else {
            Mode::Text
        },
        Mode::TextEscape => Mode::Text,
        Mode::Letter => if c == '\\' {
            Mode::LetterEscape
        } else if c == '\'' {
            Mode::Code
        } else {
            Mode::Letter
        },
        Mode::LetterEscape => Mode::Letter,
    }
}

/// The mode that the place `at` of `source` is read in: rules from the
/// start, and from there on as each character before `at` leaves it.
pub open spec fn mode_at(source: Seq<char>, at: int) -> Mode
    decreases at,
{
    if at <= 0 || at > source.len() {
        Mode::Code
    } else {
        stepped(mode_at(source, at - 1), source[at - 1])
    }
}

/// How deep inside block comments a mode is.
pub open spec fn depth_of(mode: Mode) -> int {
    match mode {
        Mode::Block(depth) => depth as int,
        Mode::BlockStar(depth) => depth as int,
        Mode::BlockSlash(depth) => depth as int,
        _ => 0,
    }
}

/// Whether a mode reads rules.
pub open spec fn in_code(mode: Mode) -> bool {
    mode == Mode::Code || mode == Mode::Slash
}

/// Whether a mode reads a string or a character literal, and no escape.
pub open spec fn in_text(mode: Mode) -> bool {
    mode == Mode::Text || mode == Mode::Letter
}

/// The word `PEEK` stands at `at`, and no identifier goes on behind it.
pub open spec fn peek_at(source: Seq<char>, at: int) -> bool {
    &&& 0 <= at && at + 4 <= source.len()
    &&& source[at] == 'P' && source[at + 1] == 'E' && source[at + 2] == 'E' && source[at + 3]
        == 'K'
    &&& (at + 4 == source.len() || !is_identifier_char(source[at + 4]))
}

/// The word `POP` stands at `at`, and no identifier goes on behind it.
pub open spec fn pop_at(source: Seq<char>, at: int) -> bool {
    &&& 0 <= at && at + 3 <= source.len()
    &&& source[at] == 'P' && source[at + 1] == 'O' && source[at + 2] == 'P'
    &&& (at + 3 == source.len() || !is_identifier_char(source[at + 3]))
}

/// The number that the hexadecimal digits from `from` on spell, read from
/// the left and no further than `left` digits, on top of `value`.
pub open spec fn hex_run(source: Seq<char>, from: int, left: nat, value: int) -> int
    decreases left,
{
    if left == 0 || from < 0 || from >= source.len() || !is_hex_digit(source[from]) {
        value
    } else {
        hex_run(source, from + 1, (left - 1) as nat, value * 16 + hex_digit_value(source[from]))
    }
}

/// Whether `value` is a Unicode scalar value: a code point that is no
/// surrogate.
pub open spec fn is_scalar(value: int) -> bool {
    0 <= value < 0xD800 || 0xE000 <= value <= 0x10FFFF
}

/// A Unicode escape opens at `at`, and what its digits spell is no scalar
/// value.
pub open spec fn wrong_escape_at(source: Seq<char>, at: int) -> bool {
    &&& 0 <= at && at + 3 <= source.len()
    &&& source[at] == '\\' && source[at + 1] == 'u' && source[at + 2] == '{'
    &&& !is_scalar(hex_run(source, at + 3, 6, 0))
}

/// How many decimal digits stand directly before `at`.
pub open spec fn digits_before(source: Seq<char>, at: int) -> nat
    decreases at,
{
    if at <= 0 || at > source.len() || !is_digit(source[at - 1]) {
        0
    } else {
        1 + digits_before(source, at - 1)
    }
}

/// A number of more than two digits ends at `at`, and it is no part of a
/// name.
pub open spec fn long_number_before(source: Seq<char>, at: int) -> bool {
    &&& 0 <= at <= source.len()
    &&& digits_before(source, at) > 2
    &&& (at == source.len() || !is_digit(source[at]))
    &&& !(at - digits_before(source, at) > 0 && is_name_start(
        source[at - digits_before(source, at) - 1],
    ))
}

/// A caret stands at `at`, and no string opens directly behind it.
pub open spec fn loose_caret_at(source: Seq<char>, at: int) -> bool {
    &&& 0 <= at < source.len()
    &&& source[at] == '^'
    &&& (at + 1 == source.len() || source[at + 1] != '"')
}

/// Something stands at `at` that the grammar compiler or its engine cannot
/// be trusted with: among the rules the word `PEEK` or `POP`, a long
/// number or a loose caret, and in a string or a character literal a wrong
/// escape.
pub open spec fn offends(source: Seq<char>, at: int) -> bool {
    ||| in_code(mode_at(source, at)) && (peek_at(source, at) || pop_at(source, at)
        || long_number_before(source, at) || loose_caret_at(source, at))
    ||| in_text(mode_at(source, at)) && wrong_escape_at(source, at)
}

/// Whether `source` is grammar source that the compiler and the engine can
/// be trusted with. Left out are sources whose rules name `PEEK` or `POP`,
/// since either panics in the engine where nothing was pushed; a Unicode
/// escape that spells no scalar value, a repetition count of more than two
/// digits, and a caret that is parted from its string, since each can
/// panic in the compiler. A count is unrolled into as many levels of the
/// rule, so that one of some hundreds takes the stack that a thread has,
/// long before the longest ones overflow. Comments are passed over, and
/// strings are looked at for escapes alone.
pub open spec fn supported(source: Seq<char>) -> bool {
    forall|at: int| 0 <= at <= source.len() ==> !#[trigger] offends(source, at)
}

/// The characters of `text`, one by one.
pub fn characters(text: &str) -> (list: Vec<char>)
    ensures
        list@ == text@,
{
    let mut list: Vec<char> = Vec::new();
    let mut rest = text.chars();
    let ghost mut done: int = 0;
    loop
        invariant
            0 <= done <= text@.len(),
            rest.obeys_prophetic_iter_laws(),
            rest.remaining() == text@.skip(done),
            rest.decrease() is Some,
            list@ == text@.take(done),
        ensures
            list@ == text@,
        decreases rest.decrease()->0,
    {
        match rest.next() {
            None => {
                assert(text@.take(done) == text@);
                break ;
            },
            Some(character) => {
                assert(character == text@[done]);
                assert(text@.take(done + 1) == text@.take(done).push(character));
                assert(text@.skip(done).drop_first() == text@.skip(done + 1));
                list.push(character);
                proof {
                    done = done + 1;
                }
            },
        }
    }
    list
}

fn digit(c: char) -> (yes: bool)
    ensures
        yes == is_digit(c),
{
    '0' <= c && c <= '9'
}

fn hex_digit(c: char) -> (yes: bool)
    ensures
        yes == is_hex_digit(c),
{
    digit(c) || ('a' <= c && c <= 'f') || ('A' <= c && c <= 'F')
}

fn identifier_char(c: char) -> (yes: bool)
    ensures
        yes == is_identifier_char(c),
{
    c == '_' || digit(c) || ('a' <= c && c <= 'z') || ('A' <= c && c <= 'Z')
}

fn name_start(c: char) -> (yes: bool)
    ensures
        yes == is_name_start(c),
{
    c == '_' || ('a' <= c && c <= 'z') || ('A' <= c && c <= 'Z')
}

/// The mode behind the character `c`, read in the mode `mode`.
fn step(mode: Mode, c: char) -> (next: Mode)
    requires
        depth_of(mode) < usize::MAX,
    ensures
        next == stepped(mode, c),
        depth_of(next) <= depth_of(mode) + 1,
{
    match mode {
        Mode::Code => if c == '/' {
            Mode::Slash
        } else if c == '"' {
            Mode::Text
        } else if c == '\'' {
            Mode::Letter
        } else {
            Mode::Code
        },
        Mode::Slash => if c == '/' {
            Mode::Line
        } else if c == '*' {
            Mode::Block(0)
        } else if c == '"' {
            Mode::Text
        } else if c == '\'' {
            Mode::Letter
        } else {
            Mode::Code
        },
        Mode::Line => if c == '\n' {
            Mode::Code
        } else {
            Mode::Line
        },
        Mode::Block(depth) => if c == '*' {
            Mode::BlockStar(depth)
        } else if c == '/' {
            Mode::BlockSlash(depth)
        } else {
            Mode::Block(depth)
        },
        Mode::BlockStar(depth) => if c == '/' {
            if depth == 0 {
                Mode::Code
            } else {
                Mode::Block(depth - 1)
            }
        } else if c == '*' {
            Mode::BlockStar(depth)
        } else {
            Mode::Block(depth)
        },
        Mode::BlockSlash(depth) => if c == '*' {
            Mode::Block(depth + 1)
        } else if c == '/' {
            Mode::BlockSlash(depth)
        } else {
            Mode::Block(depth)
        },
        Mode::Text => if c == '\\' {
            Mode::TextEscape
        } else if c == '"' {
            Mode::Code
        } else {
            Mode::Text
        },
        Mode::TextEscape => Mode::Text,
        Mode::Letter => if c == '\\' {
            Mode::LetterEscape
        } else if c == '\'' {
            Mode::Code
        } else {
            Mode::Letter
        },
        Mode::LetterEscape => Mode::Letter,
    }
}

fn hex_value(c: char) -> (value: u32)
    requires
        is_hex_digit(c),
    ensures
        value == hex_digit_value(c),
        value < 16,
{
    if digit(c) {
        c as u32 - '0' as u32
    } else if 'a' <= c && c <= 'f' {
        c as u32 - 'a' as u32 + 10
    } else {
        c as u32 - 'A' as u32 + 10
    }
}

/// The largest number that the digits read so far can spell, by how many
/// may still be read.
spec fn reach(left: nat) -> int {
    if left >= 6 {
        1
    } else if left == 5 {
        0x10
    } else if left == 4 {
        0x100
    } else if left == 3 {
        0x1000
    } else if left == 2 {
        0x10000
    } else if left == 1 {
        0x100000
    } else {
        0x1000000
    }
}

/// Whether the Unicode escape that opens at `at` spells a scalar value.
fn escape_is_scalar(source: &Vec<char>, at: usize) -> (yes: bool)
    requires
        at + 3 <= source.len(),
    ensures
        yes == is_scalar(hex_run(source@, at + 3, 6, 0)),
{
    let mut value: u32 = 0;
    let mut from: usize = at + 3;
    let mut left: usize = 6;
    while left > 0 && from < source.len() && hex_digit(source[from])
        invariant
            at + 3 <= from <= source.len(),
            left <= 6,
            0 <= value < reach(left as nat),
            hex_run(source@, at + 3, 6, 0) == hex_run(source@, from as int, left as nat, value as int),
        decreases left,
    {
        value = value * 16 + hex_value(source[from]);
        from += 1;
        left -= 1;
    }
    value < 0xD800 || (0xE000 <= value && value <= 0x10FFFF)
}

/// Whether something at `at` offends, given the mode that the place is
/// read in and how many digits stand before it.
fn offends_at(source: &Vec<char>, at: usize, mode: Mode, digits: usize) -> (yes: bool)
    requires
        at <= source.len(),
        mode == mode_at(source@, at as int),
        digits == digits_before(source@, at as int),
        digits <= at,
    ensures
        yes == offends(source@, at as int),
{
    let len = source.len();
    match mode {
        Mode::Code | Mode::Slash => {
            if digits > 2 && (at == len || !digit(source[at])) && !(at - digits > 0 && name_start(
                source[at - digits - 1],
            )) {
                return true;
            }
            if at == len {
                return false;
            }
            let c = source[at];
            if c == '^' {
                return at + 1 == len || source[at + 1] != '"';
            }
            if c == 'P' {
                if len - at >= 4 && source[at + 1] == 'E' && source[at + 2] == 'E' && source[at
                    + 3] == 'K' && (at + 4 == len || !identifier_char(source[at + 4])) {
                    return true;
                }
                return len - at >= 3 && source[at + 1] == 'O' && source[at + 2] == 'P' && (at
                    + 3 == len || !identifier_char(source[at + 3]));
            }
            false
        },
        Mode::Text | Mode::Letter => {
            len - at >= 3 && source[at] == '\\' && source[at + 1] == 'u' && source[at + 2]
                == '{' && !escape_is_scalar(source, at)
        },
        _ => false,
    }
}

/// Tests whether `source` is grammar source that the compiler and the
/// engine can be trusted with.
pub fn is_supported(source: &str) -> (yes: bool)
    ensures
        yes == supported(source@),
{
    let list = characters(source);
    let mut at: usize = 0;
    let mut mode = Mode::Code;
    let mut digits: usize = 0;
    loop
        invariant
            at <= list.len(),
            list@ == source@,
            digits <= at,
            digits == digits_before(list@, at as int),
            mode == mode_at(list@, at as int),
            depth_of(mode) <= at,
            forall|before: int| 0 <= before < at ==> !#[trigger] offends(list@, before),
        decreases list.len() - at,
    {
        if offends_at(&list, at, mode, digits) {
            return false;
        }
        if at == list.len() {
            return true;
        }
        if digit(list[at]) {
            digits += 1;
        } else {
            digits = 0;
        }
        mode = step(mode, list[at]);
        at += 1;
    }
}

} // verus!
