use crate::terminal::{
    bold, bold_code, down, down_code, indent, indentation, push, reset, reset_code, restore,
    restore_code, save, save_code,
};
use vstd::prelude::*;
use vstd::std_specs::iter::IteratorSpec;
use vstd::string::StringExecFns;

verus! {

broadcast use vstd::string::group_string_axioms;

/// Whether the text of the closures that a card asks for is shown or kept
/// back.
#[derive(Clone, Copy, Debug, PartialEq, Eq, Structural)]
pub enum DisplayCardStatus {
    Show,
    Hide,
}

/// One piece of a line of a card.
#[derive(Debug)]
pub enum Content {
    /// Plain text.
    Text(String),
    /// A closure: text that can be kept back. `asked` says whether it
    /// belongs to the group that the card asks for, and `label` names its
    /// group.
    Closure { asked: bool, label: String, text: String },
}

/// What stands between two lines of a text at `depth`: the cursor goes back
/// to the start of the card's line, one line down, and in by one step more
/// than the card's line.
pub open spec fn continuation(depth: nat) -> Seq<char> {
    restore_code() + down_code() + save_code() + indentation(depth + 1)
}

/// A text as it is put on the screen at `depth`: every line feed is
/// replaced by the continuation for that depth.
pub open spec fn shown_text(text: Seq<char>, depth: nat) -> Seq<char>
    decreases text.len(),
{
    if text.len() == 0 {
        Seq::empty()
    } else if text.last() == '\n' {
        shown_text(text.drop_last(), depth) + continuation(depth)
    } else {
        shown_text(text.drop_last(), depth).push(text.last())
    }
}

/// A piece of a line as it is put on the screen at `depth`. A closure that
/// is asked for stands in bold, behind its label and in square brackets:
/// its text where the status is to show it, and three dots where it is kept
/// back. Everything else is shown as its text.
pub open spec fn shown_content(content: Content, depth: nat, status: DisplayCardStatus) -> Seq<
    char,
> {
    match content {
        Content::Text(text) => shown_text(text@, depth),
        Content::Closure { asked, label, text } => if !asked {
            shown_text(text@, depth)
        } else {
            match status {
                DisplayCardStatus::Show => bold_code() + "("@ + label@ + ")["@ + shown_text(
                    text@,
                    depth,
                ) + "]"@ + reset_code(),
                DisplayCardStatus::Hide => bold_code() + "("@ + label@ + ")[...]"@ + reset_code(),
            }
        },
    }
}

/// The pieces of a line as they are put on the screen, one after the other.
pub open spec fn shown_contents(
    contents: Seq<Content>,
    depth: nat,
    status: DisplayCardStatus,
) -> Seq<char>
    decreases contents.len(),
{
    if contents.len() == 0 {
        Seq::empty()
    } else {
        shown_contents(contents.drop_last(), depth, status) + shown_content(
            contents.last(),
            depth,
            status,
        )
    }
}

/// A line of a card as it is put on the screen: the cursor's place is
/// saved, and the line's pieces follow its indentation.
pub open spec fn shown_line(line: (usize, Vec<Content>), status: DisplayCardStatus) -> Seq<char> {
    save_code() + indentation(line.0 as nat) + shown_contents(line.1@, line.0 as nat, status)
}

/// A card as it is put on the screen: its lines, and between every two of
/// them the cursor goes back to the start of the line above and one line
/// down.
pub open spec fn shown_card(card: Seq<(usize, Vec<Content>)>, status: DisplayCardStatus) -> Seq<
    char,
>
    decreases card.len(),
{
    if card.len() == 0 {
        Seq::empty()
    } else if card.len() == 1 {
        shown_line(card[0], status)
    } else {
        shown_card(card.drop_last(), status) + restore_code() + down_code() + shown_line(
            card.last(),
            status,
        )
    }
}

/// The control sequences that a card is drawn with.
struct Codes {
    save: String,
    restore: String,
    down: String,
    bold: String,
    reset: String,
}

impl Codes {
    /// Each sequence is the one that its name says.
    spec fn valid(&self) -> bool {
        &&& self.save@ == save_code()
        &&& self.restore@ == restore_code()
        &&& self.down@ == down_code()
        &&& self.bold@ == bold_code()
        &&& self.reset@ == reset_code()
    }

    fn new() -> (codes: Self)
        ensures
            codes.valid(),
    {
        Codes { save: save(), restore: restore(), down: down(1), bold: bold(), reset: reset() }
    }
}

/// Appends `text`, as it is shown at `depth`, to `screen`.
fn put_text(screen: &mut String, codes: &Codes, text: &str, depth: usize)
    requires
        codes.valid(),
    ensures
        final(screen)@ == old(screen)@ + shown_text(text@, depth as nat),
{
    let mut characters = text.chars();
    let ghost mut done: int = 0;
    loop
        invariant
            codes.valid(),
            0 <= done <= text@.len(),
            characters.obeys_prophetic_iter_laws(),
            characters.remaining() == text@.skip(done),
            characters.decrease() is Some,
            screen@ == old(screen)@ + shown_text(text@.take(done), depth as nat),
        ensures
            screen@ == old(screen)@ + shown_text(text@, depth as nat),
        decreases characters.decrease()->0,
    {
        let ghost before = screen@;
        match characters.next() {
            None => {
                assert(text@.take(done) == text@);
                break ;
            },
            Some(character) => {
                assert(character == text@[done]);
                assert(text@.take(done + 1).drop_last() == text@.take(done));
                assert(text@.skip(done).drop_first() == text@.skip(done + 1));
                if character == '\n' {
                    screen.append(codes.restore.as_str());
                    screen.append(codes.down.as_str());
                    screen.append(codes.save.as_str());
                    indent(screen, depth);
                    screen.append("  ");
                    assert(indentation((depth + 1) as nat) == indentation(depth as nat) + "  "@);
                    assert(screen@ == before + continuation(depth as nat));
                } else {
                    push(screen, character);
                }
                proof {
                    done = done + 1;
                }
            },
        }
    }
}

/// Appends `content`, as it is shown at `depth`, to `screen`.
fn put_content(
    screen: &mut String,
    codes: &Codes,
    content: &Content,
    depth: usize,
    status: DisplayCardStatus,
)
    requires
        codes.valid(),
    ensures
        final(screen)@ == old(screen)@ + shown_content(*content, depth as nat, status),
{
    match content {
        Content::Text(text) => put_text(screen, codes, text.as_str(), depth),
        Content::Closure { asked, label, text } => {
            if !*asked {
                put_text(screen, codes, text.as_str(), depth);
            } else {
                screen.append(codes.bold.as_str());
                screen.append("(");
                screen.append(label.as_str());
                match status {
                    DisplayCardStatus::Show => {
                        screen.append(")[");
                        put_text(screen, codes, text.as_str(), depth);
                        screen.append("]");
                    },
                    DisplayCardStatus::Hide => {
                        screen.append(")[...]");
                    },
                }
                screen.append(codes.reset.as_str());
            }
        },
    }
}

/// Appends `line`, as it is shown, to `screen`.
fn put_line(
    screen: &mut String,
    codes: &Codes,
    line: &(usize, Vec<Content>),
    status: DisplayCardStatus,
)
    requires
        codes.valid(),
    ensures
        final(screen)@ == old(screen)@ + shown_line(*line, status),
{
    screen.append(codes.save.as_str());
    indent(screen, line.0);
    let ghost start = screen@;
    let mut index: usize = 0;
    while index < line.1.len()
        invariant
            codes.valid(),
            index <= line.1.len(),
            start == old(screen)@ + save_code() + indentation(line.0 as nat),
            screen@ == start + shown_contents(line.1@.take(index as int), line.0 as nat, status),
        decreases line.1.len() - index,
    {
        assert(line.1@.take(index + 1).drop_last() == line.1@.take(index as int));
        put_content(screen, codes, &line.1[index], line.0, status);
        index += 1;
    }
    assert(line.1@.take(index as int) == line.1@);
}

/// A card as it is put on the screen: its lines, the group of closures that
/// it asks for marked in them, and whether their text is shown.
pub struct DisplayCard {
    card: Vec<(usize, Vec<Content>)>,
    status: DisplayCardStatus,
}

impl DisplayCard {
    /// The lines of the card: each with its depth and its pieces.
    pub closed spec fn lines(&self) -> Seq<(usize, Vec<Content>)> {
        self.card@
    }

    /// Whether the text of the closures that are asked for is shown.
    pub closed spec fn status(&self) -> DisplayCardStatus {
        self.status
    }

    /// A display of the card with the lines `card`, which keeps back the
    /// text that is asked for.
    pub fn new(card: Vec<(usize, Vec<Content>)>) -> (display: Self)
        ensures
            display.lines() == card@,
            display.status() == DisplayCardStatus::Hide,
    {
        Self { card, status: DisplayCardStatus::Hide }
    }

    /// Shows the text that is asked for from now on.
    pub fn show(&mut self)
        ensures
            final(self).status() == DisplayCardStatus::Show,
            final(self).lines() == old(self).lines(),
    {
        self.status = DisplayCardStatus::Show;
    }

    /// Keeps the text that is asked for back from now on.
    pub fn conceal(&mut self)
        ensures
            final(self).status() == DisplayCardStatus::Hide,
            final(self).lines() == old(self).lines(),
    {
        self.status = DisplayCardStatus::Hide;
    }

    /// The card as text for the terminal.
    pub fn render(&self) -> (screen: String)
        ensures
            screen@ == shown_card(self.lines(), self.status()),
    {
        let codes = Codes::new();
        let mut screen = String::new();
        let mut index: usize = 0;
        while index < self.card.len()
            invariant
                codes.valid(),
                index <= self.card.len(),
                screen@ == shown_card(self.card@.take(index as int), self.status),
            decreases self.card.len() - index,
        {
            assert(self.card@.take(index + 1).drop_last() == self.card@.take(index as int));
            if index > 0 {
                screen.append(codes.restore.as_str());
                screen.append(codes.down.as_str());
            }
            put_line(&mut screen, &codes, &self.card[index], self.status);
            index += 1;
        }
        assert(self.card@.take(index as int) == self.card@);
        screen
    }
}

} // verus!
