//! Self-describing message payloads.
//!
//! Anything carried over a channel or stored in a shared cell is just a
//! value; the types here are ready-made payloads that can describe
//! themselves as text. A [`Summary`] item states in spec what its summary
//! says, and [`notify`] turns an item into the message that a channel
//! would carry or a task would report.

use vstd::prelude::*;
use vstd::string::StringExecFns;

verus! {

/// A value that can describe itself in one line of text. The spec function
/// pins the text down; `summarize` is proved to produce exactly it.
pub trait Summary {
    /// The text this item describes itself with.
    spec fn summary(&self) -> Seq<char>;

    /// Produces the description, exactly as `summary` states it.
    fn summarize(&self) -> (text: String)
        ensures
            text@ == self.summary(),
    ;
}

/// The character of one decimal digit.
pub open spec fn digit_char(digit: nat) -> char {
    if digit == 0 {
        '0'
    } else if digit == 1 {
        '1'
    } else if digit == 2 {
        '2'
    } else if digit == 3 {
        '3'
    } else if digit == 4 {
        '4'
    } else if digit == 5 {
        '5'
    } else if digit == 6 {
        '6'
    } else if digit == 7 {
        '7'
    } else if digit == 8 {
        '8'
    } else {
        '9'
    }
}

/// The decimal text of `value`: most significant digit first, no leading
/// zeroes, the single digit `0` for zero.
pub open spec fn decimal_digits(value: nat) -> Seq<char>
    decreases value,
{
    if value < 10 {
        seq![digit_char(value)]
    } else {
        decimal_digits(value / 10).push(digit_char(value % 10))
    }
}

/// The one-character text of `digit`.
fn digit_str(digit: u32) -> (text: &'static str)
    requires
        digit < 10,
    ensures
        text@ == seq![digit_char(digit as nat)],
{
    let text = match digit {
        0 => "0",
        1 => "1",
        2 => "2",
        3 => "3",
        4 => "4",
        5 => "5",
        6 => "6",
        7 => "7",
        8 => "8",
        _ => "9",
    };
    proof {
        reveal_strlit("0");
        reveal_strlit("1");
        reveal_strlit("2");
        reveal_strlit("3");
        reveal_strlit("4");
        reveal_strlit("5");
        reveal_strlit("6");
        reveal_strlit("7");
        reveal_strlit("8");
        reveal_strlit("9");
        assert(text@ =~= seq![digit_char(digit as nat)]);
    }
    text
}

/// Appends the decimal text of `value` to `text`.
fn push_decimal(value: u32, text: &mut String)
    ensures
        final(text)@ == old(text)@ + decimal_digits(value as nat),
    decreases value,
{
    if value >= 10 {
        push_decimal(value / 10, text);
        text.append(digit_str(value % 10));
        proof {
            assert(text@ =~= old(text)@ + decimal_digits(value as nat));
        }
    } else {
        text.append(digit_str(value));
        proof {
            assert(text@ =~= old(text)@ + decimal_digits(value as nat));
        }
    }
}

/// A newspaper issue: a title, its editor, and a numeric issue id.
pub struct Newspaper {
    pub title: String,
    pub editor: String,
    pub id: u32,
}

/// A sports team: its name, its captain, and whether it holds the title.
pub struct Team {
    pub name: String,
    pub captain: String,
    pub champion: bool,
}

impl Summary for Newspaper {
    open spec fn summary(&self) -> Seq<char> {
        "title: "@ + self.title@ + ", editor: "@ + self.editor@ + ", id: "@ + decimal_digits(
            self.id as nat,
        )
    }

    fn summarize(&self) -> (text: String) {
        let mut text = String::from_str("title: ");
        text.append(self.title.as_str());
        text.append(", editor: ");
        text.append(self.editor.as_str());
        text.append(", id: ");
        push_decimal(self.id, &mut text);
        proof {
            assert(text@ =~= self.summary());
        }
        text
    }
}

impl Summary for Team {
    open spec fn summary(&self) -> Seq<char> {
        "name: "@ + self.name@ + ", captain "@ + self.captain@ + ", champion "@ + (if self.champion {
            "true"@
        } else {
            "false"@
        })
    }

    fn summarize(&self) -> (text: String) {
        let mut text = String::from_str("name: ");
        text.append(self.name.as_str());
        text.append(", captain ");
        text.append(self.captain.as_str());
        text.append(", champion ");
        text.append(if self.champion { "true" } else { "false" });
        proof {
            assert(text@ =~= self.summary());
        }
        text
    }
}

/// The notification message for `item`: what a caller would send over a
/// channel, or print, to announce it.
pub fn notify<T: Summary>(item: &T) -> (message: String)
    ensures
        message@ == item.summary(),
{
    item.summarize()
}

} // verus!
