use vstd::prelude::*;
use vstd::string::StringExecFns;

verus! {

/// The sequence that saves the cursor's place.
pub open spec fn save_code() -> Seq<char> {
    "\u{1b}[s"@
}

/// The sequence that puts the cursor back where it was saved.
pub open spec fn restore_code() -> Seq<char> {
    "\u{1b}[u"@
}

/// The sequence that moves the cursor one line down.
pub open spec fn down_code() -> Seq<char> {
    "\u{1b}[1B"@
}

/// The sequence that turns bold text on.
pub open spec fn bold_code() -> Seq<char> {
    "\u{1b}[1m"@
}

/// The sequence that turns every text style off.
pub open spec fn reset_code() -> Seq<char> {
    "\u{1b}[m"@
}

/// The sequence that clears the line that the cursor is on.
pub open spec fn clear_line_code() -> Seq<char> {
    "\u{1b}[2K"@
}

/// The sequence that makes the background white.
pub open spec fn white_background_code() -> Seq<char> {
    "\u{1b}[48;5;7m"@
}

/// The sequence that makes the text black.
pub open spec fn black_foreground_code() -> Seq<char> {
    "\u{1b}[38;5;0m"@
}

/// Formats `termion::cursor::Save`, whose `Display` writes the control
/// sequence introducer and `s`.
#[verifier::external_body]
pub(crate) fn save() -> (code: String)
    ensures
        code@ == save_code(),
{
    format!("{}", termion::cursor::Save)
}

/// Formats `termion::cursor::Restore`, whose `Display` writes the control
/// sequence introducer and `u`.
#[verifier::external_body]
pub(crate) fn restore() -> (code: String)
    ensures
        code@ == restore_code(),
{
    format!("{}", termion::cursor::Restore)
}

/// Formats `termion::cursor::Down` of one line, whose `Display` writes the
/// control sequence introducer, the number of lines and `B`.
#[verifier::external_body]
pub(crate) fn down(lines: u16) -> (code: String)
    requires
        lines == 1,
    ensures
        code@ == down_code(),
{
    format!("{}", termion::cursor::Down(lines))
}

/// Formats `termion::style::Bold`, whose `Display` writes the control
/// sequence introducer and `1m`.
#[verifier::external_body]
pub(crate) fn bold() -> (code: String)
    ensures
        code@ == bold_code(),
{
    format!("{}", termion::style::Bold)
}

/// Formats `termion::style::Reset`, whose `Display` writes the control
/// sequence introducer and `m`.
#[verifier::external_body]
pub(crate) fn reset() -> (code: String)
    ensures
        code@ == reset_code(),
{
    format!("{}", termion::style::Reset)
}

/// Formats `termion::clear::CurrentLine`, whose `Display` writes the
/// control sequence introducer and `2K`.
#[verifier::external_body]
pub(crate) fn clear_line() -> (code: String)
    ensures
        code@ == clear_line_code(),
{
    format!("{}", termion::clear::CurrentLine)
}

/// Formats `termion::color::Bg` of `termion::color::White`, whose `Display`
/// writes the control sequence introducer and `48;5;7m`, or nothing where
/// the process runs with `NO_COLOR` set.
#[verifier::external_body]
pub(crate) fn white_background() -> (code: String)
    ensures
        code@ == white_background_code() || code@.len() == 0,
{
    format!("{}", termion::color::Bg(termion::color::White))
}

/// Formats `termion::color::Fg` of `termion::color::Black`, whose `Display`
/// writes the control sequence introducer and `38;5;0m`, or nothing where
/// the process runs with `NO_COLOR` set.
#[verifier::external_body]
pub(crate) fn black_foreground() -> (code: String)
    ensures
        code@ == black_foreground_code() || code@.len() == 0,
{
    format!("{}", termion::color::Fg(termion::color::Black))
}

/// Calls `String::push`, which appends `character` to the end of `text`.
#[verifier::external_body]
pub(crate) fn push(text: &mut String, character: char)
    ensures
        final(text)@ == old(text)@.push(character),
{
    text.push(character);
}

/// `times` copies of two spaces.
pub open spec fn indentation(times: nat) -> Seq<char>
    decreases times,
{
    if times == 0 {
        Seq::empty()
    } else {
        indentation((times - 1) as nat) + "  "@
    }
}

/// Appends `times` copies of two spaces to `text`.
pub(crate) fn indent(text: &mut String, times: usize)
    ensures
        final(text)@ == old(text)@ + indentation(times as nat),
{
    let mut done: usize = 0;
    while done < times
        invariant
            done <= times,
            text@ == old(text)@ + indentation(done as nat),
        decreases times - done,
    {
        text.append("  ");
        done += 1;
        assert(text@ == old(text)@ + indentation(done as nat));
    }
}

} // verus!
