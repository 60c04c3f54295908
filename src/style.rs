//! The style composer: a styled value pairs an escape prefix with a
//! renderable payload, and renders as the prefix, the payload and the reset
//! sequence, so that no attribute outlives the value.
use vstd::prelude::*;

use crate::control::csi;
use crate::render::Render;

verus! {

/// The named text styles.
#[derive(Clone, Copy, Debug, PartialEq, Eq, Structural)]
pub enum Style {
    /// Red foreground.
    Red,
    /// Bold red foreground.
    RedBold,
    /// Green foreground.
    Green,
    /// Bold green foreground.
    GreenBold,
    /// Blue foreground.
    Blue,
    /// Bold blue foreground.
    BlueBold,
    /// Yellow foreground.
    Yellow,
    /// Bold yellow foreground.
    YellowBold,
    /// Bright black (grey) foreground.
    Grey,
    /// Bold grey foreground.
    GreyBold,
    /// Underlined text.
    Underline,
    /// Red background.
    BgRed,
    /// Yellow background.
    BgYellow,
    /// Green background.
    BgGreen,
    /// Cyan background.
    BgCyan,
    /// Grey (white) background.
    BgGrey,
}

/// The parameters and final `m` of the select-graphic-rendition sequence of
/// a style.
pub open spec fn style_params(s: Style) -> Seq<char> {
    match s {
        Style::Red => seq!['0', ';', '3', '1', 'm'],
        Style::RedBold => seq!['1', ';', '3', '1', 'm'],
        Style::Green => seq!['0', ';', '3', '2', 'm'],
        Style::GreenBold => seq!['1', ';', '3', '2', 'm'],
        Style::Blue => seq!['3', '4', 'm'],
        Style::BlueBold => seq!['1', ';', '3', '4', 'm'],
        Style::Yellow => seq!['0', ';', '3', '3', 'm'],
        Style::YellowBold => seq!['1', ';', '3', '3', 'm'],
        Style::Grey => seq!['9', '0', 'm'],
        Style::GreyBold => seq!['1', ';', '9', '0', 'm'],
        Style::Underline => seq!['4', 'm'],
        Style::BgRed => seq!['4', '1', 'm'],
        Style::BgYellow => seq!['4', '3', 'm'],
        Style::BgGreen => seq!['4', '2', 'm'],
        Style::BgCyan => seq!['4', '6', 'm'],
        Style::BgGrey => seq!['4', '7', 'm'],
    }
}

/// The escape prefix that switches a style on.
pub open spec fn style_prefix(s: Style) -> Seq<char> {
    csi() + style_params(s)
}

/// The sequence that switches every attribute off.
pub open spec fn reset_seq() -> Seq<char> {
    csi() + seq!['0', 'm']
}

/// The text of a payload rendered under the escape prefix `attr`.
pub open spec fn styled_text(attr: Seq<char>, payload: Seq<char>) -> Seq<char> {
    attr + payload + reset_seq()
}

/// The escape prefix of a style.
pub fn escape_prefix(s: Style) -> (r: String)
    ensures
        r@ == style_prefix(s),
{
    let lit = match s {
        Style::Red => {
            proof {
                reveal_strlit("\x1b[0;31m");
            }
            "\x1b[0;31m"
        },
        Style::RedBold => {
            proof {
                reveal_strlit("\x1b[1;31m");
            }
            "\x1b[1;31m"
        },
        Style::Green => {
            proof {
                reveal_strlit("\x1b[0;32m");
            }
            "\x1b[0;32m"
        },
        Style::GreenBold => {
            proof {
                reveal_strlit("\x1b[1;32m");
            }
            "\x1b[1;32m"
        },
        Style::Blue => {
            proof {
                reveal_strlit("\x1b[34m");
            }
            "\x1b[34m"
        },
        Style::BlueBold => {
            proof {
                reveal_strlit("\x1b[1;34m");
            }
            "\x1b[1;34m"
        },
        Style::Yellow => {
            proof {
                reveal_strlit("\x1b[0;33m");
            }
            "\x1b[0;33m"
        },
        Style::YellowBold => {
            proof {
                reveal_strlit("\x1b[1;33m");
            }
            "\x1b[1;33m"
        },
        Style::Grey => {
            proof {
                reveal_strlit("\x1b[90m");
            }
            "\x1b[90m"
        },
        Style::GreyBold => {
            proof {
                reveal_strlit("\x1b[1;90m");
            }
            "\x1b[1;90m"
        },
        Style::Underline => {
            proof {
                reveal_strlit("\x1b[4m");
            }
            "\x1b[4m"
        },
        Style::BgRed => {
            proof {
                reveal_strlit("\x1b[41m");
            }
            "\x1b[41m"
        },
        Style::BgYellow => {
            proof {
                reveal_strlit("\x1b[43m");
            }
            "\x1b[43m"
        },
        Style::BgGreen => {
            proof {
                reveal_strlit("\x1b[42m");
            }
            "\x1b[42m"
        },
        Style::BgCyan => {
            proof {
                reveal_strlit("\x1b[46m");
            }
            "\x1b[46m"
        },
        Style::BgGrey => {
            proof {
                reveal_strlit("\x1b[47m");
            }
            "\x1b[47m"
        },
    };
    let r = String::from_str(lit);
    assert(r@ =~= style_prefix(s));
    r
}

/// The style whose escape prefix is `p`, read from its length and the
/// characters that tell the prefixes apart.
pub open spec fn style_of_prefix(p: Seq<char>) -> Style {
    if p.len() == 4 {
        Style::Underline
    } else if p.len() == 5 {
        if p[2] == '3' {
            Style::Blue
        } else if p[2] == '9' {
            Style::Grey
        } else if p[3] == '1' {
            Style::BgRed
        } else if p[3] == '3' {
            Style::BgYellow
        } else if p[3] == '2' {
            Style::BgGreen
        } else if p[3] == '6' {
            Style::BgCyan
        } else {
            Style::BgGrey
        }
    } else if p[2] == '0' {
        if p[5] == '1' {
            Style::Red
        } else if p[5] == '2' {
            Style::Green
        } else {
            Style::Yellow
        }
    } else if p[4] == '9' {
        Style::GreyBold
    } else if p[5] == '1' {
        Style::RedBold
    } else if p[5] == '2' {
        Style::GreenBold
    } else if p[5] == '3' {
        Style::YellowBold
    } else {
        Style::BlueBold
    }
}

/// A style can be read back from its escape prefix.
pub proof fn lemma_style_of_prefix(s: Style)
    ensures
        style_of_prefix(style_prefix(s)) == s,
{
}

/// Distinct styles have distinct escape prefixes.
pub proof fn lemma_prefixes_distinct(a: Style, b: Style)
    requires
        a != b,
    ensures
        style_prefix(a) != style_prefix(b),
{
    lemma_style_of_prefix(a);
    lemma_style_of_prefix(b);
}

/// Rendering `v` styled with `s` gives the escape prefix of `s`, then
/// exactly the text of `v`, then the reset sequence, and nothing more.
pub proof fn lemma_styled_layout<T: Render>(s: Style, v: T)
    ensures
        ({
            let r = styled_text(style_prefix(s), v.text());
            let p = style_prefix(s).len() as int;
            let n = v.text().len() as int;
            &&& r.len() == p + n + reset_seq().len()
            &&& r.subrange(0, p) == style_prefix(s)
            &&& r.subrange(p, p + n) == v.text()
            &&& r.subrange(p + n, r.len() as int) == reset_seq()
        }),
{
    let r = styled_text(style_prefix(s), v.text());
    let p = style_prefix(s).len() as int;
    let n = v.text().len() as int;
    assert(r.subrange(0, p) =~= style_prefix(s));
    assert(r.subrange(p, p + n) =~= v.text());
    assert(r.subrange(p + n, r.len() as int) =~= reset_seq());
}

/// Two values built by styling the same payload with the same style render
/// to the same text: rendering depends on nothing else.
pub proof fn lemma_render_repeatable<T: Render>(
    s: Style,
    v: T,
    a: TerminalAttribute<T>,
    b: TerminalAttribute<T>,
)
    requires
        a.attr@ == style_prefix(s),
        a.val == v,
        b.attr@ == style_prefix(s),
        b.val == v,
    ensures
        a.text() == b.text(),
        a.text() == styled_text(style_prefix(s), v.text()),
{
}

/// A payload together with the escape prefix it is rendered under.
pub struct TerminalAttribute<T> {
    pub attr: String,
    pub val: T,
}

impl<T: Render> TerminalAttribute<T> {
    /// The prefix, the payload's text and the reset sequence.
    pub fn to_string(&self) -> (r: String)
        ensures
            r@ == styled_text(self.attr@, self.val.text()),
    {
        let mut r = String::new();
        self.render_into(&mut r);
        assert(r@ =~= styled_text(self.attr@, self.val.text()));
        r
    }

    /// The sequence that ends every styled value.
    pub fn reset_attr() -> (r: String)
        ensures
            r@ == reset_seq(),
    {
        proof {
            reveal_strlit("\x1b[0m");
        }
        let r = String::from_str("\x1b[0m");
        assert(r@ =~= reset_seq());
        r
    }
}

impl<T: Render> Render for TerminalAttribute<T> {
    open spec fn text(&self) -> Seq<char> {
        styled_text(self.attr@, self.val.text())
    }

    fn render_into(&self, out: &mut String) {
        proof {
            reveal_strlit("\x1b[0m");
        }
        out.append(self.attr.as_str());
        self.val.render_into(out);
        out.append("\x1b[0m");
        assert(out@ =~= old(out)@ + self.text());
    }
}

/// Styles `v` with `s`.
pub fn style<T>(s: Style, v: T) -> (r: TerminalAttribute<T>)
    ensures
        r.attr@ == style_prefix(s),
        r.val == v,
{
    TerminalAttribute { attr: escape_prefix(s), val: v }
}

/// Style methods for every renderable value.
pub trait StyleAttributes {
    /// Pairs `v` with the escape prefix `attr`.
    fn set_attr<T>(attr: &str, v: T) -> (r: TerminalAttribute<T>)
        ensures
            r.attr@ == attr@,
            r.val == v,
    {
        TerminalAttribute { attr: String::from_str(attr), val: v }
    }


    /// The value under [`Style::Red`].
    fn red(&self) -> (r: TerminalAttribute<&Self>)
        ensures
            r.attr@ == style_prefix(Style::Red),
            r.val == self,
    {
        style(Style::Red, self)
    }

    /// The value under [`Style::RedBold`].
    fn red_bold(&self) -> (r: TerminalAttribute<&Self>)
        ensures
            r.attr@ == style_prefix(Style::RedBold),
            r.val == self,
    {
        style(Style::RedBold, self)
    }

    /// The value under [`Style::Green`].
    fn green(&self) -> (r: TerminalAttribute<&Self>)
        ensures
            r.attr@ == style_prefix(Style::Green),
            r.val == self,
    {
        style(Style::Green, self)
    }

    /// The value under [`Style::GreenBold`].
    fn green_bold(&self) -> (r: TerminalAttribute<&Self>)
        ensures
            r.attr@ == style_prefix(Style::GreenBold),
            r.val == self,
    {
        style(Style::GreenBold, self)
    }

    /// The value under [`Style::Blue`].
    fn blue(&self) -> (r: TerminalAttribute<&Self>)
        ensures
            r.attr@ == style_prefix(Style::Blue),
            r.val == self,
    {
        style(Style::Blue, self)
    }

    /// The value under [`Style::BlueBold`].
    fn blue_bold(&self) -> (r: TerminalAttribute<&Self>)
        ensures
            r.attr@ == style_prefix(Style::BlueBold),
            r.val == self,
    {
        style(Style::BlueBold, self)
    }

    /// The value under [`Style::Yellow`].
    fn yellow(&self) -> (r: TerminalAttribute<&Self>)
        ensures
            r.attr@ == style_prefix(Style::Yellow),
            r.val == self,
    {
        style(Style::Yellow, self)
    }

    /// The value under [`Style::YellowBold`].
    fn yellow_bold(&self) -> (r: TerminalAttribute<&Self>)
        ensures
            r.attr@ == style_prefix(Style::YellowBold),
            r.val == self,
    {
        style(Style::YellowBold, self)
    }

    /// The value under [`Style::Grey`].
    fn grey(&self) -> (r: TerminalAttribute<&Self>)
        ensures
            r.attr@ == style_prefix(Style::Grey),
            r.val == self,
    {
        style(Style::Grey, self)
    }

    /// The value under [`Style::GreyBold`].
    fn grey_bold(&self) -> (r: TerminalAttribute<&Self>)
        ensures
            r.attr@ == style_prefix(Style::GreyBold),
            r.val == self,
    {
        style(Style::GreyBold, self)
    }

    /// The value under [`Style::Underline`].
    fn underline(&self) -> (r: TerminalAttribute<&Self>)
        ensures
            r.attr@ == style_prefix(Style::Underline),
            r.val == self,
    {
        style(Style::Underline, self)
    }

    /// The value under [`Style::BgRed`].
    fn bg_red(&self) -> (r: TerminalAttribute<&Self>)
        ensures
            r.attr@ == style_prefix(Style::BgRed),
            r.val == self,
    {
        style(Style::BgRed, self)
    }

    /// The value under [`Style::BgYellow`].
    fn bg_yellow(&self) -> (r: TerminalAttribute<&Self>)
        ensures
            r.attr@ == style_prefix(Style::BgYellow),
            r.val == self,
    {
        style(Style::BgYellow, self)
    }

    /// The value under [`Style::BgGreen`].
    fn bg_green(&self) -> (r: TerminalAttribute<&Self>)
        ensures
            r.attr@ == style_prefix(Style::BgGreen),
            r.val == self,
    {
        style(Style::BgGreen, self)
    }

    /// The value under [`Style::BgCyan`].
    fn bg_cyan(&self) -> (r: TerminalAttribute<&Self>)
        ensures
            r.attr@ == style_prefix(Style::BgCyan),
            r.val == self,
    {
        style(Style::BgCyan, self)
    }

    /// The value under [`Style::BgGrey`].
    fn bg_grey(&self) -> (r: TerminalAttribute<&Self>)
        ensures
            r.attr@ == style_prefix(Style::BgGrey),
            r.val == self,
    {
        style(Style::BgGrey, self)
    }
}

impl<T: Render> StyleAttributes for T {

}

} // verus!
