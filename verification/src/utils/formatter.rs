//! Messages for the terminal: an indent, a prefix that may be coloured,
//! and a text.
use colored::Colorize;
use vstd::prelude::*;
use vstd::string::StringExecFns;

verus! {

/// The colours that messages are printed in.
#[derive(Clone, Copy, Debug, PartialEq, Eq)]
pub enum Color {
    Black,
    Red,
    Green,
    Yellow,
    Blue,
    Magenta,
    Cyan,
    White,
}

#[derive(Clone, Debug, PartialEq, Eq)]
pub struct Formatter {
    pub indent: Option<String>,
    pub prefix: Option<String>,
    pub text: Option<String>,
    pub color: Option<Color>,
}

/// `colored`'s `Colorize::color`, written out: the text as the terminal
/// shows it in the colour. Whether colour codes are put around the text
/// at all depends on the environment, so nothing is said of the result.
#[verifier::external_body]
fn paint(text: &str, color: Color) -> (painted: String) {
    let color = match color {
        Color::Black => colored::Color::Black,
        Color::Red => colored::Color::Red,
        Color::Green => colored::Color::Green,
        Color::Yellow => colored::Color::Yellow,
        Color::Blue => colored::Color::Blue,
        Color::Magenta => colored::Color::Magenta,
        Color::Cyan => colored::Color::Cyan,
        Color::White => colored::Color::White,
    };
    text.color(color).to_string()
}

pub open spec fn text_or_empty(text: Option<String>) -> Seq<char> {
    match text {
        Some(t) => t@,
        None => Seq::empty(),
    }
}

impl Formatter {
    /// The part of the message that is printed in colour: the prefix, or
    /// the text where there is no prefix; `None` without a colour.
    pub open spec fn coloured_part(&self) -> Option<Seq<char>> {
        if self.color is None {
            None
        } else if text_or_empty(self.prefix).len() == 0 {
            Some(text_or_empty(self.text))
        } else {
            Some(text_or_empty(self.prefix))
        }
    }

    /// The message, with `painted` in place of the part that is printed
    /// in colour: the indent, then the text alone, or the prefix, a space
    /// and the text.
    pub open spec fn rendered(&self, painted: Seq<char>) -> Seq<char> {
        let indent = text_or_empty(self.indent);
        let prefix = text_or_empty(self.prefix);
        let text = text_or_empty(self.text);
        if prefix.len() == 0 {
            if self.color is Some {
                indent + painted
            } else {
                indent + text
            }
        } else {
            if self.color is Some {
                (indent + painted).push(' ') + text
            } else {
                (indent + prefix).push(' ') + text
            }
        }
    }

    pub fn new() -> (f: Formatter)
        ensures
            f == (Formatter { indent: None, prefix: None, text: None, color: None }),
    {
        Formatter { indent: None, prefix: None, text: None, color: None }
    }

    pub fn indent(self, indent: &str) -> (f: Formatter)
        ensures
            f.indent matches Some(i) && i@ == indent@,
            f.prefix == self.prefix,
            f.text == self.text,
            f.color == self.color,
    {
        let mut f = self;
        f.indent = Some(String::from_str(indent));
        f
    }

    pub fn prefix(self, prefix: &str) -> (f: Formatter)
        ensures
            f.prefix matches Some(p) && p@ == prefix@,
            f.indent == self.indent,
            f.text == self.text,
            f.color == self.color,
    {
        let mut f = self;
        f.prefix = Some(String::from_str(prefix));
        f
    }

    pub fn text(self, text: &str) -> (f: Formatter)
        ensures
            f.text matches Some(t) && t@ == text@,
            f.indent == self.indent,
            f.prefix == self.prefix,
            f.color == self.color,
    {
        let mut f = self;
        f.text = Some(String::from_str(text));
        f
    }

    pub fn color(self, color: Color) -> (f: Formatter)
        ensures
            f.color == Some(color),
            f.indent == self.indent,
            f.prefix == self.prefix,
            f.text == self.text,
    {
        let mut f = self;
        f.color = Some(color);
        f
    }

    /// The prefix `==>`.
    pub fn arrow(self) -> (f: Formatter)
        ensures
            f.prefix matches Some(p) && p@ == "==>"@,
            f.indent == self.indent,
            f.text == self.text,
            f.color == self.color,
    {
        self.prefix("==>")
    }

    /// An arrow and the text.
    pub fn headline(self, text: &str) -> (f: Formatter)
        ensures
            f.prefix matches Some(p) && p@ == "==>"@,
            f.text matches Some(t) && t@ == text@,
            f.indent == self.indent,
            f.color == self.color,
    {
        self.arrow().text(text)
    }

    /// The prefix `label` and a colon.
    pub fn label(self, label: &str) -> (f: Formatter)
        ensures
            f.prefix matches Some(p) && p@ == label@.push(':'),
            f.indent == self.indent,
            f.text == self.text,
            f.color == self.color,
    {
        let mut prefix = String::from_str(label);
        prefix.push(':');
        self.prefix(prefix.as_str())
    }

    pub fn success(self, label: &str) -> (f: Formatter)
        ensures
            f.prefix matches Some(p) && p@ == label@.push(':'),
            f.color == Some(Color::Green),
            f.indent == self.indent,
            f.text == self.text,
    {
        self.label(label).color(Color::Green)
    }

    pub fn warning(self, label: &str) -> (f: Formatter)
        ensures
            f.prefix matches Some(p) && p@ == label@.push(':'),
            f.color == Some(Color::Yellow),
            f.indent == self.indent,
            f.text == self.text,
    {
        self.label(label).color(Color::Yellow)
    }

    pub fn error(self, label: &str) -> (f: Formatter)
        ensures
            f.prefix matches Some(p) && p@ == label@.push(':'),
            f.color == Some(Color::Red),
            f.indent == self.indent,
            f.text == self.text,
    {
        self.label(label).color(Color::Red)
    }

    /// Puts the message together, with `painted` for the part that is
    /// printed in colour.
    pub fn render_with(&self, painted: &str) -> (line: String)
        ensures
            line@ == self.rendered(painted@),
    {
        let mut line = String::new();
        match &self.indent {
            Some(indent) => {
                line.append(indent.as_str());
            },
            None => {},
        }
        let coloured = self.color.is_some();
        let no_prefix = match &self.prefix {
            Some(prefix) => prefix.as_str().is_empty(),
            None => true,
        };
        if no_prefix {
            if coloured {
                line.append(painted);
            } else {
                match &self.text {
                    Some(text) => {
                        line.append(text.as_str());
                    },
                    None => {},
                }
            }
        } else {
            if coloured {
                line.append(painted);
            } else {
                match &self.prefix {
                    Some(prefix) => {
                        line.append(prefix.as_str());
                    },
                    None => {},
                }
            }
            line.push(' ');
            match &self.text {
                Some(text) => {
                    line.append(text.as_str());
                },
                None => {},
            }
        }
        assert(line@ =~= self.rendered(painted@));
        line
    }

    /// The message as it is printed. Without a colour it is fully
    /// determined; with one, the coloured part is what the terminal
    /// library makes of it.
    pub fn render(&self) -> (line: String)
        ensures
            self.color is None ==> line@ == self.rendered(Seq::empty()),
            exists|painted: Seq<char>| line@ == self.rendered(painted),
    {
        match self.color {
            Some(color) => {
                let no_prefix = match &self.prefix {
                    Some(prefix) => prefix.as_str().is_empty(),
                    None => true,
                };
                let painted = if no_prefix {
                    match &self.text {
                        Some(text) => paint(text.as_str(), color),
                        None => paint("", color),
                    }
                } else {
                    match &self.prefix {
                        Some(prefix) => paint(prefix.as_str(), color),
                        None => paint("", color),
                    }
                };
                self.render_with(painted.as_str())
            },
            None => {
                proof {
                    reveal_strlit("");
                }
                assert(""@ =~= Seq::<char>::empty());
                self.render_with("")
            },
        }
    }
}

} // verus!
