//! Global attributes of MathML elements, and the text that each one stands
//! for in an opening tag.

use vstd::prelude::*;
use crate::text::{
    decimal, joined, lemma_joined_take, open_tag, push_decimal, push_signed_decimal,
    signed_decimal,
};

verus! {

/// Direction for [`Attribute::Dir`].
#[derive(Debug, Clone, Copy, PartialEq, Eq, PartialOrd, Ord)]
pub enum Dir {
    /// `rtl` direction.
    RightToLeft,
    /// `ltr` direction.
    LeftToRight,
}

/// ScriptLevel for [`Attribute::ScriptLevel`].
#[derive(Debug, Clone, Copy, PartialEq, Eq, PartialOrd, Ord)]
pub enum ScriptLevel {
    /// A positive number.
    Add(usize),
    /// A negative number.
    Sub(usize),
    /// A (positive) number.
    Num(usize),
}

/// MathVariant for [`Attribute::MathVariant`].
#[derive(Debug, Clone, Copy, PartialEq, Eq, PartialOrd, Ord)]
pub enum MathVariant {
    /// Normal variant.
    Normal,
    /// Bold variant.
    Bold,
    /// Italic variant.
    Italic,
    /// Bold italic variant.
    BoldItalic,
    /// Double struck variant.
    DoubleStruck,
    /// Bold fraktur variant.
    BoldFraktur,
    /// Script variant.
    Script,
    /// Bold script variant.
    BoldScript,
    /// Fraktur variant.
    Fraktur,
    /// Sans serif variant.
    SansSerif,
    /// Bold sans serif variant.
    BoldSansSerif,
    /// Sans serif italic variant.
    SansSerifItalic,
    /// Sans serif bold italic variant.
    SansSerifBoldItalic,
    /// Monospace variant.
    Monospace,
    /// Initial variant.
    Initial,
    /// Tailed variant.
    Tailed,
    /// Looped variant.
    Looped,
    /// Stretched variant.
    Stretched,
}

impl MathVariant {
    /// The value of the `mathvariant` attribute: the variant's name in lower
    /// case, its words joined by hyphens.
    pub open spec fn name(self) -> Seq<char> {
        match self {
            MathVariant::Normal => "normal"@,
            MathVariant::Bold => "bold"@,
            MathVariant::Italic => "italic"@,
            MathVariant::BoldItalic => "bold-italic"@,
            MathVariant::DoubleStruck => "double-struck"@,
            MathVariant::BoldFraktur => "bold-fraktur"@,
            MathVariant::Script => "script"@,
            MathVariant::BoldScript => "bold-script"@,
            MathVariant::Fraktur => "fraktur"@,
            MathVariant::SansSerif => "sans-serif"@,
            MathVariant::BoldSansSerif => "bold-sans-serif"@,
            MathVariant::SansSerifItalic => "sans-serif-italic"@,
            MathVariant::SansSerifBoldItalic => "sans-serif-bold-italic"@,
            MathVariant::Monospace => "monospace"@,
            MathVariant::Initial => "initial"@,
            MathVariant::Tailed => "tailed"@,
            MathVariant::Looped => "looped"@,
            MathVariant::Stretched => "stretched"@,
        }
    }

    /// The variant's name as it is written in markup.
    pub fn as_str(&self) -> (s: &'static str)
        ensures
            s@ == self.name(),
    {
        match self {
            MathVariant::Normal => "normal",
            MathVariant::Bold => "bold",
            MathVariant::Italic => "italic",
            MathVariant::BoldItalic => "bold-italic",
            MathVariant::DoubleStruck => "double-struck",
            MathVariant::BoldFraktur => "bold-fraktur",
            MathVariant::Script => "script",
            MathVariant::BoldScript => "bold-script",
            MathVariant::Fraktur => "fraktur",
            MathVariant::SansSerif => "sans-serif",
            MathVariant::BoldSansSerif => "bold-sans-serif",
            MathVariant::SansSerifItalic => "sans-serif-italic",
            MathVariant::SansSerifBoldItalic => "sans-serif-bold-italic",
            MathVariant::Monospace => "monospace",
            MathVariant::Initial => "initial",
            MathVariant::Tailed => "tailed",
            MathVariant::Looped => "looped",
            MathVariant::Stretched => "stretched",
        }
    }
}

/// Attribute of a MathML element.
#[derive(Debug, PartialEq, Eq, PartialOrd, Ord)]
pub enum Attribute {
    /// Class of the element, same as in HTML.
    Class(String),
    /// Data attribute with custom name and value (e.g. `data-name="value"`).
    Data {
        /// Name of the data attribute, the part after the `data-` prefix.
        name: String,
        /// The value of the data attribute.
        value: String,
    },
    /// Direction of the math element, `rtl` or `ltr`.
    Dir(Dir),
    /// Display style of the element, `true` maps to `normal` and `false` to `compact`.
    DisplayStyle(bool),
    /// Id of the element, same as in HTML.
    Id(String),
    /// Presentational hint for the background color of the element.
    MathBackground(String),
    /// Presentational hint for the color of the element.
    MathColor(String),
    /// Presentational hint for the font size of the element.
    MathSize(String),
    /// The `mathvariant` attribute, written with the variant's name.
    MathVariant(MathVariant),
    /// The `nonce` attribute, same as in HTML.
    Nonce(String),
    /// Presentational hint for the element's math-depth: `+<U>`, `-<U>` or `<U>`.
    ScriptLevel(ScriptLevel),
    /// The `style` attribute of the element, same as in HTML.
    Style(String),
    /// The `tabindex` attribute, same as in HTML.
    TabIndex(i16),
    /// Event handler function, e.g. `onclick="..."`.
    OnHandler {
        /// Name of the event.
        name: String,
        /// Handler function for the event.
        handler: String,
    },
}

impl Clone for Attribute {
    fn clone(&self) -> (r: Self)
        ensures
            r == *self,
    {
        match self {
            Attribute::Class(c) => Attribute::Class(c.clone()),
            Attribute::Data { name, value } => Attribute::Data {
                name: name.clone(),
                value: value.clone(),
            },
            Attribute::Dir(dir) => Attribute::Dir(*dir),
            Attribute::DisplayStyle(d) => Attribute::DisplayStyle(*d),
            Attribute::Id(id) => Attribute::Id(id.clone()),
            Attribute::MathBackground(c) => Attribute::MathBackground(c.clone()),
            Attribute::MathColor(c) => Attribute::MathColor(c.clone()),
            Attribute::MathSize(s) => Attribute::MathSize(s.clone()),
            Attribute::MathVariant(v) => Attribute::MathVariant(*v),
            Attribute::Nonce(n) => Attribute::Nonce(n.clone()),
            Attribute::ScriptLevel(sl) => Attribute::ScriptLevel(*sl),
            Attribute::Style(st) => Attribute::Style(st.clone()),
            Attribute::TabIndex(ti) => Attribute::TabIndex(*ti),
            Attribute::OnHandler { name, handler } => Attribute::OnHandler {
                name: name.clone(),
                handler: handler.clone(),
            },
        }
    }
}

/// A value that stands for one attribute in an opening tag.
pub trait TagAttribute {
    /// The attribute's text, `name="value"`. The value is taken as it is:
    /// nothing in it is escaped.
    spec fn markup(&self) -> Seq<char>;

    /// Appends the attribute's text to `buf`.
    fn write_into(&self, buf: &mut String)
        ensures
            final(buf)@ == old(buf)@ + self.markup(),
    ;
}

impl TagAttribute for Attribute {
    open spec fn markup(&self) -> Seq<char> {
        match *self {
            Attribute::Class(c) => "class=\""@ + c@ + "\""@,
            Attribute::Data { name, value } => "data-"@ + name@ + "=\""@ + value@ + "\""@,
            Attribute::Dir(Dir::RightToLeft) => "dir=\"rtl\""@,
            Attribute::Dir(Dir::LeftToRight) => "dir=\"ltr\""@,
            Attribute::DisplayStyle(true) => "display=\"normal\""@,
            Attribute::DisplayStyle(false) => "display=\"compact\""@,
            Attribute::Id(id) => "id=\""@ + id@ + "\""@,
            Attribute::MathBackground(c) => "mathbackground=\""@ + c@ + "\""@,
            Attribute::MathColor(c) => "mathcolor=\""@ + c@ + "\""@,
            Attribute::MathSize(s) => "mathsize=\""@ + s@ + "\""@,
            Attribute::MathVariant(v) => "mathvariant=\""@ + v.name() + "\""@,
            Attribute::Nonce(n) => "nonce=\""@ + n@ + "\""@,
            Attribute::ScriptLevel(ScriptLevel::Add(n)) => "scriptlevel=\"+"@ + decimal(n as nat)
                + "\""@,
            Attribute::ScriptLevel(ScriptLevel::Sub(n)) => "scriptlevel=\"-"@ + decimal(n as nat)
                + "\""@,
            Attribute::ScriptLevel(ScriptLevel::Num(n)) => "scriptlevel=\""@ + decimal(n as nat)
                + "\""@,
            Attribute::Style(st) => "style=\""@ + st@ + "\""@,
            Attribute::TabIndex(ti) => "tabindex=\""@ + signed_decimal(ti as int) + "\""@,
            Attribute::OnHandler { name, handler } => "on"@ + name@ + "=\""@ + handler@ + "\""@,
        }
    }

    fn write_into(&self, buf: &mut String) {
        match self {
            Attribute::Class(c) => push_quoted(buf, "class=\"", c.as_str()),
            Attribute::Data { name, value } => {
                buf.append("data-");
                buf.append(name.as_str());
                push_quoted(buf, "=\"", value.as_str());
            },
            Attribute::Dir(dir) => match dir {
                Dir::RightToLeft => buf.append("dir=\"rtl\""),
                Dir::LeftToRight => buf.append("dir=\"ltr\""),
            },
            Attribute::DisplayStyle(d) => {
                if *d {
                    buf.append("display=\"normal\"")
                } else {
                    buf.append("display=\"compact\"")
                }
            },
            Attribute::Id(id) => push_quoted(buf, "id=\"", id.as_str()),
            Attribute::MathBackground(c) => push_quoted(buf, "mathbackground=\"", c.as_str()),
            Attribute::MathColor(c) => push_quoted(buf, "mathcolor=\"", c.as_str()),
            Attribute::MathSize(s) => push_quoted(buf, "mathsize=\"", s.as_str()),
            Attribute::MathVariant(v) => push_quoted(buf, "mathvariant=\"", v.as_str()),
            Attribute::Nonce(n) => push_quoted(buf, "nonce=\"", n.as_str()),
            Attribute::ScriptLevel(sl) => {
                match sl {
                    ScriptLevel::Add(n) => {
                        buf.append("scriptlevel=\"+");
                        push_decimal(buf, *n as u128);
                    },
                    ScriptLevel::Sub(n) => {
                        buf.append("scriptlevel=\"-");
                        push_decimal(buf, *n as u128);
                    },
                    ScriptLevel::Num(n) => {
                        buf.append("scriptlevel=\"");
                        push_decimal(buf, *n as u128);
                    },
                }
                buf.append("\"");
            },
            Attribute::Style(st) => push_quoted(buf, "style=\"", st.as_str()),
            Attribute::TabIndex(ti) => {
                buf.append("tabindex=\"");
                push_signed_decimal(buf, *ti as i128);
                buf.append("\"");
            },
            Attribute::OnHandler { name, handler } => {
                buf.append("on");
                buf.append(name.as_str());
                push_quoted(buf, "=\"", handler.as_str());
            },
        }
        assert(buf@ =~= old(buf)@ + self.markup());
    }
}

/// Appends `lead`, the value and a closing double quote: `lead` ends with the
/// opening quote.
pub fn push_quoted(buf: &mut String, lead: &str, value: &str)
    ensures
        final(buf)@ == old(buf)@ + lead@ + value@ + "\""@,
{
    buf.append(lead);
    buf.append(value);
    buf.append("\"");
}

/// The texts of the attributes of one element, in their order.
pub open spec fn attr_texts<A: TagAttribute>(attrs: Seq<A>) -> Seq<Seq<char>> {
    Seq::new(attrs.len(), |i: int| attrs[i].markup())
}

/// Appends the opening of a tag, up to and without its closing `>` or `/>`.
pub fn push_open_tag<A: TagAttribute>(buf: &mut String, name: &str, attrs: &[A], pad: bool)
    ensures
        final(buf)@ == old(buf)@ + open_tag(name@, attr_texts(attrs@), pad),
{
    let ghost texts = attr_texts(attrs@);
    buf.append("<");
    buf.append(name);
    if pad || attrs.len() > 0 {
        buf.append(" ");
    }
    let ghost head = buf@;
    assert(texts.take(0) =~= Seq::<Seq<char>>::empty());
    assert(head + joined(texts.take(0)) =~= head);
    let mut i: usize = 0;
    while i < attrs.len()
        invariant
            i <= attrs.len(),
            texts == attr_texts(attrs@),
            buf@ == head + joined(texts.take(i as int)),
        decreases attrs.len() - i,
    {
        if i > 0 {
            buf.append(" ");
        }
        attrs[i].write_into(buf);
        proof {
            lemma_joined_take(texts, i as int);
            assert(buf@ =~= head + joined(texts.take(i + 1)));
        }
        i += 1;
    }
    assert(texts.take(attrs.len() as int) =~= texts);
    assert(buf@ =~= old(buf)@ + open_tag(name@, texts, pad));
}

} // verus!
