//! The writer that ships with the crate.

use vstd::prelude::*;
use crate::attributes::{Attribute, TagAttribute};
use crate::elements::grouping::{Action, Error, Phantom, Prescripts, Row, Style};
use crate::elements::radicals::Radical;
use crate::elements::scripted::{Multiscripts, SubSup, UnderOver};
use crate::elements::{
    Annotation, Element, Frac, Ident, Num, Operator, Padded, Semantics, Space, StrLiteral, Table,
    Text,
};
use crate::markup::{
    element_markup, elements_markup, push_action, push_annotation, push_element, push_elements,
    push_error, push_frac, push_ident, push_multiscripts, push_num, push_operator, push_padded,
    push_phantom, push_prescripts, push_radical, push_row, push_semantics, push_space,
    push_str_literal, push_style, push_subsup, push_table, push_text, push_underover,
};
use crate::to_mathml::{Renderer, Writer};
use crate::MathMl;

verus! {

/// The error of writing into a `String`. Nothing in this crate makes one:
/// the writer's methods say that they return `Ok`.
#[verifier::external_type_specification]
#[verifier::external_body]
pub struct ExFmtError(std::fmt::Error);

/// Default implementation of MathMl [`Writer`]. It appends markup to a
/// text of its own: a space follows the name in an opening tag only where
/// attributes follow (and in `munder`, `mover` and `munderover`).
#[derive(Debug, PartialEq, Eq, PartialOrd, Ord)]
pub struct BufMathMlWriter {
    buf: String,
}

impl Clone for BufMathMlWriter {
    fn clone(&self) -> (w: Self)
        ensures
            w@ == self@,
    {
        BufMathMlWriter { buf: self.buf.clone() }
    }
}

impl View for BufMathMlWriter {
    type V = Seq<char>;

    /// What has been written and not yet taken out.
    closed spec fn view(&self) -> Seq<char> {
        self.buf@
    }
}

impl Default for BufMathMlWriter {
    fn default() -> (w: Self)
        ensures
            w@ == Seq::<char>::empty(),
    {
        BufMathMlWriter { buf: String::new() }
    }
}

impl BufMathMlWriter {
    /// Write the elements, one after the other.
    pub fn write_elements(&mut self, elements: &[Element]) -> (r: Result<(), std::fmt::Error>)
        ensures
            r is Ok,
            final(self)@ == old(self)@ + elements_markup(elements@, false),
    {
        push_elements(&mut self.buf, elements, false);
        Ok(())
    }

    /// Append a piece of text as it is.
    pub fn write_str(&mut self, s: &str) -> (r: Result<(), std::fmt::Error>)
        ensures
            r is Ok,
            final(self)@ == old(self)@ + s@,
    {
        self.buf.append(s);
        Ok(())
    }
}

impl std::fmt::Write for BufMathMlWriter {
    fn write_str(&mut self, s: &str) -> (r: std::fmt::Result)
        ensures
            r is Ok,
            final(self)@ == old(self)@ + s@,
    {
        self.buf.append(s);
        Ok(())
    }
}

impl Writer for BufMathMlWriter {
    type Buffer = String;

    type Error = std::fmt::Error;

    fn write_action(&mut self, action: &Action) -> (r: Result<(), Self::Error>)
        ensures
            r is Ok,
            final(self)@ == old(self)@ + element_markup(Element::Action(*action), false),
    {
        push_action(&mut self.buf, action, false);
        Ok(())
    }

    fn write_annotation(&mut self, annotation: &Annotation) -> (r: Result<(), Self::Error>)
        ensures
            r is Ok,
            final(self)@ == old(self)@ + element_markup(Element::Annotation(*annotation), false),
    {
        push_annotation(&mut self.buf, annotation, false);
        Ok(())
    }

    fn write_error(&mut self, error: &Error) -> (r: Result<(), Self::Error>)
        ensures
            r is Ok,
            final(self)@ == old(self)@ + element_markup(Element::Error(*error), false),
    {
        push_error(&mut self.buf, error, false);
        Ok(())
    }

    fn write_frac(&mut self, frac: &Frac) -> (r: Result<(), Self::Error>)
        ensures
            r is Ok,
            final(self)@ == old(self)@ + element_markup(Element::Frac(*frac), false),
    {
        push_frac(&mut self.buf, frac, false);
        Ok(())
    }

    fn write_ident(&mut self, ident: &Ident) -> (r: Result<(), Self::Error>)
        ensures
            r is Ok,
            final(self)@ == old(self)@ + element_markup(Element::Ident(*ident), false),
    {
        push_ident(&mut self.buf, ident, false);
        Ok(())
    }

    fn write_multiscripts(&mut self, multiscripts: &Multiscripts) -> (r: Result<(), Self::Error>)
        ensures
            r is Ok,
            final(self)@ == old(self)@ + element_markup(
                Element::Multiscripts(*multiscripts),
                false,
            ),
    {
        push_multiscripts(&mut self.buf, multiscripts, false);
        Ok(())
    }

    fn write_prescripts(&mut self, prescripts: &Prescripts) -> (r: Result<(), Self::Error>)
        ensures
            r is Ok,
            final(self)@ == old(self)@ + element_markup(Element::Prescripts(*prescripts), false),
    {
        push_prescripts(&mut self.buf, prescripts, false);
        Ok(())
    }

    fn write_num(&mut self, num: &Num) -> (r: Result<(), Self::Error>)
        ensures
            r is Ok,
            final(self)@ == old(self)@ + element_markup(Element::Num(*num), false),
    {
        push_num(&mut self.buf, num, false);
        Ok(())
    }

    fn write_operator(&mut self, operator: &Operator) -> (r: Result<(), Self::Error>)
        ensures
            r is Ok,
            final(self)@ == old(self)@ + element_markup(Element::Operator(*operator), false),
    {
        push_operator(&mut self.buf, operator, false);
        Ok(())
    }

    fn write_padded(&mut self, padded: &Padded) -> (r: Result<(), Self::Error>)
        ensures
            r is Ok,
            final(self)@ == old(self)@ + element_markup(Element::Padded(*padded), false),
    {
        push_padded(&mut self.buf, padded, false);
        Ok(())
    }

    fn write_phantom(&mut self, phantom: &Phantom) -> (r: Result<(), Self::Error>)
        ensures
            r is Ok,
            final(self)@ == old(self)@ + element_markup(Element::Phantom(*phantom), false),
    {
        push_phantom(&mut self.buf, phantom, false);
        Ok(())
    }

    fn write_radical(&mut self, radical: &Radical) -> (r: Result<(), Self::Error>)
        ensures
            r is Ok,
            final(self)@ == old(self)@ + element_markup(Element::Radical(*radical), false),
    {
        push_radical(&mut self.buf, radical, false);
        Ok(())
    }

    fn write_row(&mut self, row: &Row) -> (r: Result<(), Self::Error>)
        ensures
            r is Ok,
            final(self)@ == old(self)@ + element_markup(Element::Row(*row), false),
    {
        push_row(&mut self.buf, row, false);
        Ok(())
    }

    fn write_semantics(&mut self, semantics: &Semantics) -> (r: Result<(), Self::Error>)
        ensures
            r is Ok,
            final(self)@ == old(self)@ + element_markup(Element::Semantics(*semantics), false),
    {
        push_semantics(&mut self.buf, semantics, false);
        Ok(())
    }

    fn write_space(&mut self, space: &Space) -> (r: Result<(), Self::Error>)
        ensures
            r is Ok,
            final(self)@ == old(self)@ + element_markup(Element::Space(*space), false),
    {
        push_space(&mut self.buf, space, false);
        Ok(())
    }

    fn write_str_literal(&mut self, str_literal: &StrLiteral) -> (r: Result<(), Self::Error>)
        ensures
            r is Ok,
            final(self)@ == old(self)@ + element_markup(Element::StrLiteral(*str_literal), false),
    {
        push_str_literal(&mut self.buf, str_literal, false);
        Ok(())
    }

    fn write_style(&mut self, style: &Style) -> (r: Result<(), Self::Error>)
        ensures
            r is Ok,
            final(self)@ == old(self)@ + element_markup(Element::Style(*style), false),
    {
        push_style(&mut self.buf, style, false);
        Ok(())
    }

    fn write_subsup(&mut self, sub_sup: &SubSup) -> (r: Result<(), Self::Error>)
        ensures
            r is Ok,
            final(self)@ == old(self)@ + element_markup(Element::SubSup(*sub_sup), false),
    {
        push_subsup(&mut self.buf, sub_sup, false);
        Ok(())
    }

    fn write_table(&mut self, table: &Table) -> (r: Result<(), Self::Error>)
        ensures
            r is Ok,
            final(self)@ == old(self)@ + element_markup(Element::Table(*table), false),
    {
        push_table(&mut self.buf, table, false);
        Ok(())
    }

    fn write_text(&mut self, text: &Text) -> (r: Result<(), Self::Error>)
        ensures
            r is Ok,
            final(self)@ == old(self)@ + element_markup(Element::Text(*text), false),
    {
        push_text(&mut self.buf, text, false);
        Ok(())
    }

    fn write_underover(&mut self, under_over: &UnderOver) -> (r: Result<(), Self::Error>)
        ensures
            r is Ok,
            final(self)@ == old(self)@ + element_markup(Element::UnderOver(*under_over), false),
    {
        push_underover(&mut self.buf, under_over, false);
        Ok(())
    }

    fn write_attr(&mut self, attr: &Attribute) -> (r: Result<(), Self::Error>)
        ensures
            r is Ok,
            final(self)@ == old(self)@ + attr.markup(),
    {
        attr.write_into(&mut self.buf);
        Ok(())
    }

    fn write_element(&mut self, tag: &Element) -> (r: Result<(), Self::Error>)
        ensures
            r is Ok,
            final(self)@ == old(self)@ + element_markup(*tag, false),
    {
        push_element(&mut self.buf, tag, false);
        Ok(())
    }

    fn write_mathml(&mut self, mathml: &MathMl) -> (r: Result<(), Self::Error>)
        ensures
            r is Ok,
            final(self)@ == old(self)@ + mathml.markup(false),
    {
        mathml.push_markup(&mut self.buf, false);
        Ok(())
    }

    fn buffer(&self) -> (r: &Self::Buffer)
        ensures
            r@ == self@,
    {
        &self.buf
    }

    fn into_inner(self) -> (r: Self::Buffer)
        ensures
            r@ == self@,
    {
        self.buf
    }

    fn finish(&mut self) -> (r: Self::Buffer)
        ensures
            r@ == old(self)@,
            final(self)@ == Seq::<char>::empty(),
    {
        let mut out = String::new();
        std::mem::swap(&mut self.buf, &mut out);
        out
    }
}

impl Renderer for BufMathMlWriter {
    type Output = String;

    type Error = std::fmt::Error;

    /// The element's markup is returned, and what has been written stays.
    open spec fn renders(
        &self,
        element: &Element,
        after: &Self,
        out: &Result<Self::Output, Self::Error>,
    ) -> bool {
        &&& *out is Ok
        &&& out->Ok_0@ == element_markup(*element, false)
        &&& after@ == self@
    }

    /// The attribute's text is returned, and what has been written stays.
    open spec fn renders_attr(
        &self,
        attr: &Attribute,
        after: &Self,
        out: &Result<Self::Output, Self::Error>,
    ) -> bool {
        &&& *out is Ok
        &&& out->Ok_0@ == attr.markup()
        &&& after@ == self@
    }

    /// The `math` element is written behind what has been written, all of it
    /// is returned, and nothing stays.
    open spec fn renders_mathml(
        &self,
        mathml: &MathMl,
        after: &Self,
        out: &Result<Self::Output, Self::Error>,
    ) -> bool {
        &&& *out is Ok
        &&& out->Ok_0@ == self@ + mathml.markup(false)
        &&& after@ == Seq::<char>::empty()
    }

    fn render_mathml(&mut self, mathml: &MathMl) -> (out: Result<Self::Output, Self::Error>) {
        mathml.push_markup(&mut self.buf, false);
        let mut s = String::new();
        std::mem::swap(&mut self.buf, &mut s);
        Ok(s)
    }

    fn render_action(&mut self, action: &Action) -> (out: Result<Self::Output, Self::Error>) {
        let mut s = String::new();
        push_action(&mut s, action, false);
        assert(s@ =~= element_markup(Element::Action(*action), false));
        Ok(s)
    }

    fn render_annotation(
        &mut self,
        annotation: &Annotation,
    ) -> (out: Result<Self::Output, Self::Error>) {
        let mut s = String::new();
        push_annotation(&mut s, annotation, false);
        assert(s@ =~= element_markup(Element::Annotation(*annotation), false));
        Ok(s)
    }

    fn render_error(&mut self, error: &Error) -> (out: Result<Self::Output, Self::Error>) {
        let mut s = String::new();
        push_error(&mut s, error, false);
        assert(s@ =~= element_markup(Element::Error(*error), false));
        Ok(s)
    }

    fn render_frac(&mut self, frac: &Frac) -> (out: Result<Self::Output, Self::Error>) {
        let mut s = String::new();
        push_frac(&mut s, frac, false);
        assert(s@ =~= element_markup(Element::Frac(*frac), false));
        Ok(s)
    }

    fn render_ident(&mut self, ident: &Ident) -> (out: Result<Self::Output, Self::Error>) {
        let mut s = String::new();
        push_ident(&mut s, ident, false);
        assert(s@ =~= element_markup(Element::Ident(*ident), false));
        Ok(s)
    }

    fn render_multiscripts(
        &mut self,
        multiscripts: &Multiscripts,
    ) -> (out: Result<Self::Output, Self::Error>) {
        let mut s = String::new();
        push_multiscripts(&mut s, multiscripts, false);
        assert(s@ =~= element_markup(Element::Multiscripts(*multiscripts), false));
        Ok(s)
    }

    fn render_prescripts(
        &mut self,
        prescripts: &Prescripts,
    ) -> (out: Result<Self::Output, Self::Error>) {
        let mut s = String::new();
        push_prescripts(&mut s, prescripts, false);
        assert(s@ =~= element_markup(Element::Prescripts(*prescripts), false));
        Ok(s)
    }

    fn render_num(&mut self, num: &Num) -> (out: Result<Self::Output, Self::Error>) {
        let mut s = String::new();
        push_num(&mut s, num, false);
        assert(s@ =~= element_markup(Element::Num(*num), false));
        Ok(s)
    }

    fn render_operator(&mut self, operator: &Operator) -> (out: Result<Self::Output, Self::Error>) {
        let mut s = String::new();
        push_operator(&mut s, operator, false);
        assert(s@ =~= element_markup(Element::Operator(*operator), false));
        Ok(s)
    }

    fn render_padded(&mut self, padded: &Padded) -> (out: Result<Self::Output, Self::Error>) {
        let mut s = String::new();
        push_padded(&mut s, padded, false);
        assert(s@ =~= element_markup(Element::Padded(*padded), false));
        Ok(s)
    }

    fn render_phantom(&mut self, phantom: &Phantom) -> (out: Result<Self::Output, Self::Error>) {
        let mut s = String::new();
        push_phantom(&mut s, phantom, false);
        assert(s@ =~= element_markup(Element::Phantom(*phantom), false));
        Ok(s)
    }

    fn render_radical(&mut self, radical: &Radical) -> (out: Result<Self::Output, Self::Error>) {
        let mut s = String::new();
        push_radical(&mut s, radical, false);
        assert(s@ =~= element_markup(Element::Radical(*radical), false));
        Ok(s)
    }

    fn render_row(&mut self, row: &Row) -> (out: Result<Self::Output, Self::Error>) {
        let mut s = String::new();
        push_row(&mut s, row, false);
        assert(s@ =~= element_markup(Element::Row(*row), false));
        Ok(s)
    }

    fn render_semantics(
        &mut self,
        semantics: &Semantics,
    ) -> (out: Result<Self::Output, Self::Error>) {
        let mut s = String::new();
        push_semantics(&mut s, semantics, false);
        assert(s@ =~= element_markup(Element::Semantics(*semantics), false));
        Ok(s)
    }

    fn render_space(&mut self, space: &Space) -> (out: Result<Self::Output, Self::Error>) {
        let mut s = String::new();
        push_space(&mut s, space, false);
        assert(s@ =~= element_markup(Element::Space(*space), false));
        Ok(s)
    }

    fn render_str_literal(
        &mut self,
        str_literal: &StrLiteral,
    ) -> (out: Result<Self::Output, Self::Error>) {
        let mut s = String::new();
        push_str_literal(&mut s, str_literal, false);
        assert(s@ =~= element_markup(Element::StrLiteral(*str_literal), false));
        Ok(s)
    }

    fn render_style(&mut self, style: &Style) -> (out: Result<Self::Output, Self::Error>) {
        let mut s = String::new();
        push_style(&mut s, style, false);
        assert(s@ =~= element_markup(Element::Style(*style), false));
        Ok(s)
    }

    fn render_subsup(&mut self, sub_sup: &SubSup) -> (out: Result<Self::Output, Self::Error>) {
        let mut s = String::new();
        push_subsup(&mut s, sub_sup, false);
        assert(s@ =~= element_markup(Element::SubSup(*sub_sup), false));
        Ok(s)
    }

    fn render_table(&mut self, table: &Table) -> (out: Result<Self::Output, Self::Error>) {
        let mut s = String::new();
        push_table(&mut s, table, false);
        assert(s@ =~= element_markup(Element::Table(*table), false));
        Ok(s)
    }

    fn render_text(&mut self, text: &Text) -> (out: Result<Self::Output, Self::Error>) {
        let mut s = String::new();
        push_text(&mut s, text, false);
        assert(s@ =~= element_markup(Element::Text(*text), false));
        Ok(s)
    }

    fn render_underover(
        &mut self,
        under_over: &UnderOver,
    ) -> (out: Result<Self::Output, Self::Error>) {
        let mut s = String::new();
        push_underover(&mut s, under_over, false);
        assert(s@ =~= element_markup(Element::UnderOver(*under_over), false));
        Ok(s)
    }

    fn render_attr(&mut self, attr: &Attribute) -> (out: Result<Self::Output, Self::Error>) {
        let mut s = String::new();
        attr.write_into(&mut s);
        assert(s@ =~= attr.markup());
        Ok(s)
    }

    fn render_element(&mut self, element: &Element) -> (out: Result<Self::Output, Self::Error>) {
        let mut s = String::new();
        push_element(&mut s, element, false);
        assert(s@ =~= element_markup(*element, false));
        Ok(s)
    }
}

} // verus!
