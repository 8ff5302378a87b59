//! Texts shown to people.
//!
//! A text is either spelled out or a reference into the message catalogue: a
//! key with named arguments, which are texts themselves. The catalogue lives
//! outside; equality of two texts is equality of what they refer to.
use vstd::prelude::*;
#[allow(unused_imports)]
use vstd::string::*;

use crate::text;
use crate::usd::Usd;

verus! {

/// A text, spelled out or still to be looked up in the catalogue.
#[derive(Debug, PartialEq, Eq)]
pub enum Text {
    /// Text that came from outside.
    Plain(String),
    /// Text of the library's own.
    Fixed(&'static str),
    /// A count, in decimal.
    Number(u64),
    /// An amount of money.
    Dollars(Usd),
    /// An amount as a bare number, in as many digits as it takes.
    Bare(Usd),
    /// A catalogue entry with its arguments.
    Message(&'static str, Box<Args>),
    /// A text without white space at its ends.
    Trimmed(Box<Text>),
    /// Texts with a separator between them.
    Joined(&'static str, Box<Texts>),
}

/// Named arguments of a catalogue entry, in order.
#[derive(Debug, PartialEq, Eq)]
pub enum Args {
    End,
    Arg(&'static str, Text, Box<Args>),
}

/// A list of texts.
#[derive(Debug, PartialEq, Eq)]
pub enum Texts {
    End,
    Item(Text, Box<Texts>),
}

/// The catalogue entry `key` without arguments.
pub open spec fn label(key: &'static str) -> Text {
    Text::Message(key, Box::new(Args::End))
}

pub open spec fn message1(key: &'static str, n1: &'static str, v1: Text) -> Text {
    Text::Message(key, Box::new(Args::Arg(n1, v1, Box::new(Args::End))))
}

pub open spec fn message2(key: &'static str, n1: &'static str, v1: Text, n2: &'static str, v2: Text) -> Text {
    Text::Message(key, Box::new(Args::Arg(n1, v1, Box::new(Args::Arg(n2, v2, Box::new(Args::End))))))
}

pub open spec fn message3(
    key: &'static str,
    n1: &'static str,
    v1: Text,
    n2: &'static str,
    v2: Text,
    n3: &'static str,
    v3: Text,
) -> Text {
    Text::Message(
        key,
        Box::new(Args::Arg(n1, v1, Box::new(Args::Arg(n2, v2, Box::new(Args::Arg(n3, v3, Box::new(Args::End))))))),
    )
}

pub open spec fn message4(
    key: &'static str,
    n1: &'static str,
    v1: Text,
    n2: &'static str,
    v2: Text,
    n3: &'static str,
    v3: Text,
    n4: &'static str,
    v4: Text,
) -> Text {
    Text::Message(
        key,
        Box::new(
            Args::Arg(
                n1,
                v1,
                Box::new(
                    Args::Arg(
                        n2,
                        v2,
                        Box::new(Args::Arg(n3, v3, Box::new(Args::Arg(n4, v4, Box::new(Args::End))))),
                    ),
                ),
            ),
        ),
    )
}

/// The characters of a text, where neither the catalogue nor the way that
/// amounts are written has a say in them.
pub open spec fn spelled_out(t: Text) -> Option<Seq<char>>
    decreases t,
{
    match t {
        Text::Plain(s) => Some(s@),
        Text::Fixed(s) => Some(s@),
        Text::Number(n) => Some(text::decimal_text(n as nat)),
        Text::Trimmed(inner) => match spelled_out(*inner) {
            Some(s) => Some(text::trimmed(s)),
            None => None,
        },
        Text::Joined(separator, items) => items_spelled_out(separator@, *items),
        Text::Dollars(_) | Text::Bare(_) | Text::Message(_, _) => None,
    }
}

/// The characters of a list of texts with a separator between them.
pub open spec fn items_spelled_out(separator: Seq<char>, items: Texts) -> Option<Seq<char>>
    decreases items,
{
    match items {
        Texts::End => Some(Seq::empty()),
        Texts::Item(first, rest) => match (spelled_out(first), items_spelled_out(separator, *rest)) {
            (Some(head), Some(tail)) => Some(
                if *rest is End {
                    head
                } else {
                    head + separator + tail
                },
            ),
            _ => None,
        },
    }
}

/// A text with nothing to show: spelled out, and only white space.
pub open spec fn blank_text(t: Text) -> bool {
    match spelled_out(t) {
        Some(s) => text::blank(s),
        None => false,
    }
}

/// Looks `key` up without arguments.
pub fn msg(key: &'static str) -> (r: Text)
    ensures
        r == label(key),
{
    Text::Message(key, Box::new(Args::End))
}

pub fn msg1(key: &'static str, n1: &'static str, v1: Text) -> (r: Text)
    ensures
        r == message1(key, n1, v1),
{
    Text::Message(key, Box::new(Args::Arg(n1, v1, Box::new(Args::End))))
}

pub fn msg2(key: &'static str, n1: &'static str, v1: Text, n2: &'static str, v2: Text) -> (r: Text)
    ensures
        r == message2(key, n1, v1, n2, v2),
{
    Text::Message(key, Box::new(Args::Arg(n1, v1, Box::new(Args::Arg(n2, v2, Box::new(Args::End))))))
}

pub fn msg3(
    key: &'static str,
    n1: &'static str,
    v1: Text,
    n2: &'static str,
    v2: Text,
    n3: &'static str,
    v3: Text,
) -> (r: Text)
    ensures
        r == message3(key, n1, v1, n2, v2, n3, v3),
{
    Text::Message(
        key,
        Box::new(Args::Arg(n1, v1, Box::new(Args::Arg(n2, v2, Box::new(Args::Arg(n3, v3, Box::new(Args::End))))))),
    )
}

pub fn msg4(
    key: &'static str,
    n1: &'static str,
    v1: Text,
    n2: &'static str,
    v2: Text,
    n3: &'static str,
    v3: Text,
    n4: &'static str,
    v4: Text,
) -> (r: Text)
    ensures
        r == message4(key, n1, v1, n2, v2, n3, v3, n4, v4),
{
    Text::Message(
        key,
        Box::new(
            Args::Arg(
                n1,
                v1,
                Box::new(
                    Args::Arg(
                        n2,
                        v2,
                        Box::new(Args::Arg(n3, v3, Box::new(Args::Arg(n4, v4, Box::new(Args::End))))),
                    ),
                ),
            ),
        ),
    )
}

impl Text {
    /// The same text again.
    pub fn copy(&self) -> (r: Text)
        ensures
            r == *self,
        decreases self,
    {
        match self {
            Text::Plain(s) => Text::Plain(s.clone()),
            Text::Fixed(s) => Text::Fixed(s),
            Text::Number(n) => Text::Number(*n),
            Text::Dollars(d) => Text::Dollars(*d),
            Text::Bare(d) => Text::Bare(*d),
            Text::Message(key, args) => Text::Message(key, Box::new(args.copy())),
            Text::Trimmed(text) => Text::Trimmed(Box::new(text.copy())),
            Text::Joined(separator, texts) => Text::Joined(separator, Box::new(texts.copy())),
        }
    }

    /// The characters of the text, where it is spelled out.
    pub fn spell(&self) -> (r: Option<String>)
        ensures
            text::opt_view(r) == spelled_out(*self),
        decreases self,
    {
        match self {
            Text::Plain(s) => Some(s.clone()),
            Text::Fixed(s) => Some((*s).to_owned()),
            Text::Number(n) => Some(text::write_u64(*n)),
            Text::Trimmed(inner) => match inner.spell() {
                Some(s) => Some(text::trim(s.as_str()).to_owned()),
                None => None,
            },
            Text::Joined(separator, items) => items.spell(separator),
            Text::Dollars(_) => None,
            Text::Bare(_) => None,
            Text::Message(_, _) => None,
        }
    }

    /// Whether there is nothing to show.
    pub fn is_blank(&self) -> (r: bool)
        ensures
            r == blank_text(*self),
    {
        match self.spell() {
            Some(s) => text::is_blank(s.as_str()),
            None => false,
        }
    }
}

impl Args {
    pub fn copy(&self) -> (r: Args)
        ensures
            r == *self,
        decreases self,
    {
        match self {
            Args::End => Args::End,
            Args::Arg(name, value, rest) => Args::Arg(name, value.copy(), Box::new(rest.copy())),
        }
    }
}

impl Texts {
    /// The characters of the texts with a separator between them, where they
    /// are spelled out.
    pub fn spell(&self, separator: &str) -> (r: Option<String>)
        ensures
            text::opt_view(r) == items_spelled_out(separator@, *self),
        decreases self,
    {
        match self {
            Texts::End => Some(String::new()),
            Texts::Item(first, rest) => {
                let head = match first.spell() {
                    Some(s) => s,
                    None => {
                        return None;
                    },
                };
                let tail = match rest.spell(separator) {
                    Some(s) => s,
                    None => {
                        return None;
                    },
                };
                match **rest {
                    Texts::End => Some(head),
                    Texts::Item(_, _) => {
                        let mut whole = head;
                        whole.append(separator);
                        whole.append(tail.as_str());
                        Some(whole)
                    },
                }
            },
        }
    }

    pub fn copy(&self) -> (r: Texts)
        ensures
            r == *self,
        decreases self,
    {
        match self {
            Texts::End => Texts::End,
            Texts::Item(text, rest) => Texts::Item(text.copy(), Box::new(rest.copy())),
        }
    }
}

/// The same optional text again.
pub fn copy_opt(o: &Option<Text>) -> (r: Option<Text>)
    ensures
        r == *o,
{
    match o {
        Some(t) => Some(t.copy()),
        None => None,
    }
}

/// A text from outside.
pub fn plain(s: &str) -> (r: Text)
    ensures
        r matches Text::Plain(t) && t@ == s@,
{
    Text::Plain(s.to_owned())
}

} // verus!
