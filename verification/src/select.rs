use crate::terminal::{
    black_foreground, black_foreground_code, clear_line, clear_line_code, reset, reset_code,
    restore, restore_code, save, save_code, white_background, white_background_code,
};
use std::fmt::Display;
use vstd::prelude::*;
use vstd::string::{to_string_from_display_ensures, StringExecFns};

verus! {

/// A key press, as far as a selection tells keys apart.
#[derive(Clone, Copy, Debug, PartialEq, Eq, Structural)]
pub enum Key {
    Left,
    Right,
    Enter,
    Other,
}

/// What a key press came to.
#[derive(Clone, Copy, Debug, PartialEq, Eq, Structural)]
pub enum Pressed {
    /// The marked choice was chosen.
    Chosen,
    /// The mark went to another choice: the row has to be drawn anew.
    Moved,
    /// Nothing changed.
    Stayed,
}

/// Where the mark stands after `key` was pressed with the mark on `marked`
/// of `count` choices: one to the left or to the right, and never off
/// either end.
pub open spec fn moved(marked: int, count: int, key: Key) -> int {
    match key {
        Key::Left => if marked > 0 {
            marked - 1
        } else {
            marked
        },
        Key::Right => if marked < count - 1 {
            marked + 1
        } else {
            marked
        },
        _ => marked,
    }
}

/// A row of choices as it is put on the screen, each under its label: the
/// labels stand one after the other with a bar between every two of them,
/// the marked one behind `highlight`, and each is followed by the sequence
/// that turns every style off.
pub open spec fn shown_row(labels: Seq<Seq<char>>, marked: int, highlight: Seq<char>) -> Seq<char>
    decreases labels.len(),
{
    if labels.len() == 0 {
        Seq::empty()
    } else {
        let before = shown_row(labels.drop_last(), marked, highlight);
        let bar = if labels.len() > 1 {
            " | "@
        } else {
            Seq::empty()
        };
        let mark = if labels.len() - 1 == marked {
            highlight
        } else {
            Seq::empty()
        };
        before + bar + mark + labels.last() + reset_code()
    }
}

/// The text of each label.
pub open spec fn texts(labels: Seq<String>) -> Seq<Seq<char>> {
    Seq::new(labels.len(), |i: int| labels[i]@)
}

/// Whether `highlight` is one of the sequences that mark a choice: white
/// background and black text, each of which a terminal without colours
/// leaves out.
pub open spec fn marks(highlight: Seq<char>) -> bool {
    ||| highlight == white_background_code() + black_foreground_code()
    ||| highlight == white_background_code()
    ||| highlight == black_foreground_code()
    ||| highlight.len() == 0
}

/// A row as it is drawn over the line that the cursor is on: the line is
/// cleared, and the cursor is put back to where the row began.
pub open spec fn shown_frame(row: Seq<char>) -> Seq<char> {
    clear_line_code() + save_code() + row + restore_code()
}

/// The row of the choices with the labels `labels`, of which the one at
/// `marked` stands behind `highlight`.
pub fn row(labels: &Vec<String>, marked: usize, highlight: &str) -> (screen: String)
    ensures
        screen@ == shown_row(texts(labels@), marked as int, highlight@),
{
    let reset = reset();
    let mut screen = String::new();
    let mut index: usize = 0;
    while index < labels.len()
        invariant
            index <= labels.len(),
            reset@ == reset_code(),
            screen@ == shown_row(texts(labels@).take(index as int), marked as int, highlight@),
        decreases labels.len() - index,
    {
        assert(texts(labels@).take(index + 1).drop_last() == texts(labels@).take(index as int));
        assert(texts(labels@).take(index + 1).last() == labels[index as int]@);
        if index > 0 {
            screen.append(" | ");
        }
        if index == marked {
            screen.append(highlight);
        }
        screen.append(labels[index].as_str());
        screen.append(reset.as_str());
        index += 1;
    }
    assert(texts(labels@).take(index as int) == texts(labels@));
    screen
}

/// Draws `row` over the line that the cursor is on.
pub fn frame(row: &str) -> (screen: String)
    ensures
        screen@ == shown_frame(row@),
{
    let mut screen = clear_line();
    screen.append(save().as_str());
    screen.append(row);
    screen.append(restore().as_str());
    screen
}

/// A row of choices, one of which is marked.
pub struct Select<E> {
    selected: usize,
    selection: Vec<E>,
}

impl<E> Select<E> {
    /// The choices, in the order in which they are shown.
    pub closed spec fn choices(&self) -> Seq<E> {
        self.selection@
    }

    /// The index of the marked choice.
    pub closed spec fn marked(&self) -> int {
        self.selected as int
    }

    /// The mark is on one of the choices.
    pub open spec fn well_formed(&self) -> bool {
        0 <= self.marked() < self.choices().len()
    }

    /// A selection over `selection` with the mark on the choice at
    /// `selected`.
    pub fn new(selection: Vec<E>, selected: usize) -> (select: Self)
        requires
            selected < selection.len(),
        ensures
            select.well_formed(),
            select.choices() == selection@,
            select.marked() == selected,
    {
        Select { selected, selection }
    }

    /// The index of the marked choice.
    pub fn selected(&self) -> (index: usize)
        ensures
            index == self.marked(),
    {
        self.selected
    }

    /// Takes a key press: the arrows move the mark, and Enter chooses.
    pub fn press(&mut self, key: Key) -> (pressed: Pressed)
        requires
            old(self).well_formed(),
        ensures
            final(self).well_formed(),
            final(self).choices() == old(self).choices(),
            final(self).marked() == moved(
                old(self).marked(),
                old(self).choices().len() as int,
                key,
            ),
            pressed == if key == Key::Enter {
                Pressed::Chosen
            } else if final(self).marked() != old(self).marked() {
                Pressed::Moved
            } else {
                Pressed::Stayed
            },
    {
        match key {
            Key::Left => {
                if self.selected > 0 {
                    self.selected = self.selected - 1;
                    Pressed::Moved
                } else {
                    Pressed::Stayed
                }
            },
            Key::Right => {
                if self.selected < self.selection.len() - 1 {
                    self.selected = self.selected + 1;
                    Pressed::Moved
                } else {
                    Pressed::Stayed
                }
            },
            Key::Enter => Pressed::Chosen,
            Key::Other => Pressed::Stayed,
        }
    }

    /// The marked choice.
    pub fn chosen(&self) -> (choice: &E)
        requires
            self.well_formed(),
        ensures
            *choice == self.choices()[self.marked()],
    {
        &self.selection[self.selected]
    }
}

impl<E: Display> Select<E> {
    /// Whether `labels` are the choices as their `Display` writes them.
    pub open spec fn labelled(&self, labels: Seq<String>) -> bool {
        &&& labels.len() == self.choices().len()
        &&& forall|i: int|
            0 <= i < labels.len() ==> #[trigger] to_string_from_display_ensures::<E>(
                &self.choices()[i],
                labels[i],
            )
    }

    /// The row of the choices as text for the terminal, each choice as its
    /// `Display` writes it.
    pub fn render(&self) -> (screen: String)
        ensures
            exists|labels: Seq<String>, highlight: Seq<char>|
                {
                    &&& self.labelled(labels)
                    &&& marks(highlight)
                    &&& screen@ == #[trigger] shown_row(texts(labels), self.marked(), highlight)
                },
    {
        let mut labels: Vec<String> = Vec::new();
        let mut index: usize = 0;
        while index < self.selection.len()
            invariant
                index <= self.selection.len(),
                labels.len() == index,
                forall|i: int|
                    0 <= i < index ==> #[trigger] to_string_from_display_ensures::<E>(
                        &self.selection@[i],
                        labels@[i],
                    ),
            decreases self.selection.len() - index,
        {
            labels.push(self.selection[index].to_string());
            index += 1;
        }
        let mut highlight = white_background();
        highlight.append(black_foreground().as_str());
        assert(marks(highlight@));
        let screen = row(&labels, self.selected, highlight.as_str());
        assert(self.labelled(labels@));
        assert(screen@ == shown_row(texts(labels@), self.marked(), highlight@));
        screen
    }
}

} // verus!
