//! Library for type-safe building of MathML (core) markup.
//!
//! What the markup of a value is stands in [`markup`] as a specification, and
//! the writer and the renderer of this crate are proved to produce it.

use vstd::prelude::*;

mod buf_writer;
mod default_renderer;
mod to_mathml;

pub mod attributes;
pub mod elements;
pub mod lists;
pub mod markers;
pub mod markup;
pub mod numeral;
pub mod same;
pub mod text;

pub use attributes::Attribute;
pub use buf_writer::BufMathMlWriter;
pub use default_renderer::MathMlFormatter;
pub use elements::{Element, Elements};
pub use to_mathml::{lemma_one_ok, outcome, passes_through, Renderer, Writer};

use to_mathml::call_on;

use attributes::{attr_texts, push_open_tag, push_quoted, TagAttribute};
use elements::IntoElements;
use lists::IntoList;
use markup::{container, elements_markup, lemma_container_written, push_close_tag, push_elements};

verus! {

/// Specifies how the enclosed MathML markup should be rendered.
#[derive(Debug, Clone, Copy, PartialEq, Eq, PartialOrd, Ord)]
pub enum DisplayAttr {
    /// `block` display attribute. The element will be displayed in its own block outside the
    /// current span of text and with math-style set to normal.
    Block,
    /// `inline` display attribute. The element will be displayed inside the current span of text
    /// and with math-style set to compact.
    Inline,
}

/// Attributes of the `math` ([`MathMl`]) element.
#[derive(Debug, PartialEq, Eq, PartialOrd, Ord)]
pub enum MathMlAttr {
    /// This enumerated attribute specifies how the enclosed MathML markup should be rendered:
    /// as a block of its own, or inside the current span of text.
    ///
    /// If not present, its default value is `inline`.
    Display(DisplayAttr),
    /// The alttext attribute may be used as alternative text by some legacy systems that do not
    /// implement math layout.
    AltText(String),
    /// One of the global [`Attribute`]s.
    Global(Attribute),
}

impl Clone for MathMlAttr {
    fn clone(&self) -> (r: Self)
        ensures
            r == *self,
    {
        match self {
            MathMlAttr::Display(d) => MathMlAttr::Display(*d),
            MathMlAttr::AltText(text) => MathMlAttr::AltText(text.clone()),
            MathMlAttr::Global(a) => MathMlAttr::Global(a.clone()),
        }
    }
}

impl TagAttribute for MathMlAttr {
    open spec fn markup(&self) -> Seq<char> {
        match *self {
            MathMlAttr::Display(DisplayAttr::Block) => "display=\"block\""@,
            MathMlAttr::Display(DisplayAttr::Inline) => "display=\"inline\""@,
            MathMlAttr::AltText(text) => "alttext=\""@ + text@ + "\""@,
            MathMlAttr::Global(a) => a.markup(),
        }
    }

    fn write_into(&self, buf: &mut String) {
        match self {
            MathMlAttr::Display(d) => match d {
                DisplayAttr::Block => buf.append("display=\"block\""),
                DisplayAttr::Inline => buf.append("display=\"inline\""),
            },
            MathMlAttr::AltText(text) => push_quoted(buf, "alttext=\"", text.as_str()),
            MathMlAttr::Global(a) => a.write_into(buf),
        }
        assert(buf@ =~= old(buf)@ + self.markup());
    }
}

/// The `MathMl` is the `math` - the top-level MathML element, used to write a single mathematical
/// formula. It can be placed in HTML content where flow content is permitted.
#[derive(Debug, PartialEq, Eq, PartialOrd, Ord)]
pub struct MathMl {
    /// Inner content of the `math` element.
    pub content: Elements,
    /// Attributes of the `math` element.
    pub attr: Vec<MathMlAttr>,
}

impl Default for MathMl {
    fn default() -> (r: Self)
        ensures
            r.content@ == Seq::<Element>::empty(),
            r.attr@ == Seq::<MathMlAttr>::empty(),
    {
        MathMl { content: Elements(Vec::new()), attr: Vec::new() }
    }
}

impl MathMl {
    /// The markup of the `math` element: its tag around the markup of its
    /// content.
    pub open spec fn markup(self, pad: bool) -> Seq<char> {
        container("math"@, attr_texts(self.attr@), pad, elements_markup(self.content@, pad))
    }

    /// Appends the markup of the `math` element.
    pub fn push_markup(&self, buf: &mut String, pad: bool)
        ensures
            final(buf)@ == old(buf)@ + self.markup(pad),
    {
        push_open_tag(buf, "math", self.attr.as_slice(), pad);
        buf.append(">");
        push_elements(buf, self.content.as_slice(), pad);
        push_close_tag(buf, "math");
        proof {
            lemma_container_written(
                old(buf)@,
                "math"@,
                attr_texts(self.attr@),
                pad,
                elements_markup(self.content@, pad),
            );
        }
    }

    /// Get a reference to the inner content of the `math` element.
    pub fn content(&self) -> (r: &Elements)
        ensures
            *r == self.content,
    {
        &self.content
    }

    /// Map the content contained in [`MathMl`]: the new content is what `f`
    /// makes of the old. The attributes stay.
    ///
    /// Useful, for example, when wrapping the content in a row is desired.
    pub fn map<T: IntoElements, F: FnOnce(Elements) -> T>(self, f: F) -> (r: MathMl)
        requires
            f.requires((self.content,)),
        ensures
            exists|t: T| #[trigger] f.ensures((self.content,), t) && r.content@ == t.elements(),
            r.attr == self.attr,
    {
        let made = f(self.content);
        MathMl { content: made.into_elements(), attr: self.attr }
    }

    /// Get a reference to all attributes of the `math` element.
    pub fn attributes(&self) -> (r: &[MathMlAttr])
        ensures
            r@ == self.attr@,
    {
        self.attr.as_slice()
    }

    /// Create a new `math` element with the given content.
    pub fn with_content(content: impl IntoElements) -> (r: MathMl)
        ensures
            r.content@ == content.elements(),
            r.attr@ == Seq::<MathMlAttr>::empty(),
    {
        MathMl { content: content.into_elements(), attr: Vec::new() }
    }

    /// Append more content to this `math` element, behind what it has.
    pub fn append_content(&mut self, content: impl IntoElements)
        ensures
            final(self).content@ == old(self).content@ + content.elements(),
            final(self).attr == old(self).attr,
    {
        let mut more = content.into_elements();
        self.content.append(&mut more);
    }

    /// Add a single attribute to this `math` element, behind those that it has.
    pub fn add_attr(&mut self, attr: MathMlAttr)
        ensures
            final(self).attr@ == old(self).attr@.push(attr),
            final(self).content == old(self).content,
    {
        self.attr.push(attr);
    }

    /// Create new instance of `MathMl` with additional attributes, behind
    /// those that it has.
    pub fn with_attr(self, attr: impl IntoList<MathMlAttr>) -> (r: MathMl)
        ensures
            r.attr@ == self.attr@ + attr.items(),
            r.content == self.content,
    {
        let mut r = self;
        let mut more = attr.into_list();
        r.attr.append(&mut more);
        r
    }

    /// Extend the attributes of this `math` element.
    pub fn extend_attr(&mut self, attr: impl IntoList<MathMlAttr>)
        ensures
            final(self).attr@ == old(self).attr@ + attr.items(),
            final(self).content == old(self).content,
    {
        let mut more = attr.into_list();
        self.attr.append(&mut more);
    }

    /// Return the number of elements this `math` element contains.
    pub fn len(&self) -> (n: usize)
        ensures
            n == self.content@.len(),
    {
        self.content.len()
    }

    /// Check whether this `math` element contains no elements.
    pub fn is_empty(&self) -> (b: bool)
        ensures
            b == (self.content@.len() == 0),
    {
        self.content.is_empty()
    }

    /// Render this `math` element and its children using the given renderer:
    /// the result is what the renderer's own `render_mathml` gives.
    pub fn render_with<R: Renderer>(&self, renderer: &mut R) -> (out: Result<R::Output, R::Error>)
        ensures
            old(renderer).renders_mathml(self, final(renderer), &out),
    {
        renderer.render_mathml(self)
    }

    /// Write this `math` element and its children using the given writer:
    /// the result and what becomes of the writer are those of the writer's
    /// own `write_mathml`. Where that succeeds, the writer is handed back;
    /// where it fails, its error is.
    pub fn write<'writer, W: Writer>(&self, writer: &'writer mut W) -> (r: Result<
        &'writer mut W,
        W::Error,
    >)
        ensures
            r matches Ok(w) ==> *final(w) == *final(writer),
            r matches Ok(w) ==> exists|a: &mut W|
                *a == *old(writer) && *final(a) == *w && #[trigger] call_ensures(
                    W::write_mathml,
                    (a, self),
                    outcome(r),
                ),
            r is Err ==> exists|a: &mut W|
                *a == *old(writer) && *final(a) == *final(writer) && #[trigger] call_ensures(
                    W::write_mathml,
                    (a, self),
                    outcome(r),
                ),
    {
        let res = call_on(W::write_mathml, writer, self);
        proof {
            if res is Ok {
                lemma_one_ok(res);
            }
        }
        match res {
            Ok(()) => Ok(writer),
            Err(e) => Err(e),
        }
    }

    /// Render this `math` element and its children using the default writer,
    /// [`BufMathMlWriter`].
    pub fn render(&self) -> (out: Result<String, std::fmt::Error>)
        ensures
            out is Ok,
            out->Ok_0@ == self.markup(false),
    {
        let mut writer = BufMathMlWriter::default();
        let _ = writer.write_mathml(self);
        let s = writer.finish();
        assert(s@ =~= self.markup(false));
        Ok(s)
    }
}

} // verus!
