//! The renderer that ships with the crate.

use std::convert::Infallible;
use vstd::prelude::*;
use crate::attributes::{Attribute, TagAttribute};
use crate::elements::grouping::{Action, Error, Phantom, Prescripts, Row, Style};
use crate::elements::radicals::Radical;
use crate::elements::scripted::{Multiscripts, SubSup, UnderOver};
use crate::elements::{
    Annotation, Element, Frac, Ident, Num, Operator, Padded, Semantics, Space, StrLiteral, Table,
    Text,
};
use crate::markup::{
    element_markup, elements_markup, push_action, push_annotation, push_element, push_elements,
    push_error, push_frac, push_ident, push_multiscripts, push_num, push_operator, push_padded,
    push_phantom, push_prescripts, push_radical, push_row, push_semantics, push_space,
    push_str_literal, push_style, push_subsup, push_table, push_text, push_underover,
};
use crate::to_mathml::Renderer;
use crate::MathMl;

verus! {

/// Default implementation of MathMl [`Renderer`]. Each call returns the
/// markup of what it was given, with a space behind the name in every opening
/// tag. It cannot fail.
#[derive(Debug, Copy, Clone, PartialEq, Eq, PartialOrd, Ord)]
pub struct MathMlFormatter;

impl MathMlFormatter {
    /// Render the elements, one after the other.
    pub fn render_elements(&mut self, elements: &[Element]) -> (out: Result<String, Infallible>)
        ensures
            out is Ok,
            out->Ok_0@ == elements_markup(elements@, true),
    {
        let mut s = String::new();
        push_elements(&mut s, elements, true);
        assert(s@ =~= elements_markup(elements@, true));
        Ok(s)
    }
}

impl Renderer for MathMlFormatter {
    type Output = String;

    type Error = Infallible;

    /// The element's markup is returned.
    open spec fn renders(
        &self,
        element: &Element,
        after: &Self,
        out: &Result<Self::Output, Self::Error>,
    ) -> bool {
        &&& *out is Ok
        &&& out->Ok_0@ == element_markup(*element, true)
    }

    /// The attribute's text is returned.
    open spec fn renders_attr(
        &self,
        attr: &Attribute,
        after: &Self,
        out: &Result<Self::Output, Self::Error>,
    ) -> bool {
        &&& *out is Ok
        &&& out->Ok_0@ == attr.markup()
    }

    /// The markup of the `math` element is returned.
    open spec fn renders_mathml(
        &self,
        mathml: &MathMl,
        after: &Self,
        out: &Result<Self::Output, Self::Error>,
    ) -> bool {
        &&& *out is Ok
        &&& out->Ok_0@ == mathml.markup(true)
    }

    fn render_action(&mut self, action: &Action) -> (out: Result<Self::Output, Self::Error>) {
        let mut s = String::new();
        push_action(&mut s, action, true);
        assert(s@ =~= element_markup(Element::Action(*action), true));
        Ok(s)
    }

    fn render_annotation(
        &mut self,
        annotation: &Annotation,
    ) -> (out: Result<Self::Output, Self::Error>) {
        let mut s = String::new();
        push_annotation(&mut s, annotation, true);
        assert(s@ =~= element_markup(Element::Annotation(*annotation), true));
        Ok(s)
    }

    fn render_error(&mut self, error: &Error) -> (out: Result<Self::Output, Self::Error>) {
        let mut s = String::new();
        push_error(&mut s, error, true);
        assert(s@ =~= element_markup(Element::Error(*error), true));
        Ok(s)
    }

    fn render_frac(&mut self, frac: &Frac) -> (out: Result<Self::Output, Self::Error>) {
        let mut s = String::new();
        push_frac(&mut s, frac, true);
        assert(s@ =~= element_markup(Element::Frac(*frac), true));
        Ok(s)
    }

    fn render_ident(&mut self, ident: &Ident) -> (out: Result<Self::Output, Self::Error>) {
        let mut s = String::new();
        push_ident(&mut s, ident, true);
        assert(s@ =~= element_markup(Element::Ident(*ident), true));
        Ok(s)
    }

    fn render_multiscripts(
        &mut self,
        multiscripts: &Multiscripts,
    ) -> (out: Result<Self::Output, Self::Error>) {
        let mut s = String::new();
        push_multiscripts(&mut s, multiscripts, true);
        assert(s@ =~= element_markup(Element::Multiscripts(*multiscripts), true));
        Ok(s)
    }

    fn render_prescripts(
        &mut self,
        prescripts: &Prescripts,
    ) -> (out: Result<Self::Output, Self::Error>) {
        let mut s = String::new();
        push_prescripts(&mut s, prescripts, true);
        assert(s@ =~= element_markup(Element::Prescripts(*prescripts), true));
        Ok(s)
    }

    fn render_num(&mut self, num: &Num) -> (out: Result<Self::Output, Self::Error>) {
        let mut s = String::new();
        push_num(&mut s, num, true);
        assert(s@ =~= element_markup(Element::Num(*num), true));
        Ok(s)
    }

    fn render_operator(&mut self, operator: &Operator) -> (out: Result<Self::Output, Self::Error>) {
        let mut s = String::new();
        push_operator(&mut s, operator, true);
        assert(s@ =~= element_markup(Element::Operator(*operator), true));
        Ok(s)
    }

    fn render_padded(&mut self, padded: &Padded) -> (out: Result<Self::Output, Self::Error>) {
        let mut s = String::new();
        push_padded(&mut s, padded, true);
        assert(s@ =~= element_markup(Element::Padded(*padded), true));
        Ok(s)
    }

    fn render_phantom(&mut self, phantom: &Phantom) -> (out: Result<Self::Output, Self::Error>) {
        let mut s = String::new();
        push_phantom(&mut s, phantom, true);
        assert(s@ =~= element_markup(Element::Phantom(*phantom), true));
        Ok(s)
    }

    fn render_radical(&mut self, radical: &Radical) -> (out: Result<Self::Output, Self::Error>) {
        let mut s = String::new();
        push_radical(&mut s, radical, true);
        assert(s@ =~= element_markup(Element::Radical(*radical), true));
        Ok(s)
    }

    fn render_row(&mut self, row: &Row) -> (out: Result<Self::Output, Self::Error>) {
        let mut s = String::new();
        push_row(&mut s, row, true);
        assert(s@ =~= element_markup(Element::Row(*row), true));
        Ok(s)
    }

    fn render_semantics(
        &mut self,
        semantics: &Semantics,
    ) -> (out: Result<Self::Output, Self::Error>) {
        let mut s = String::new();
        push_semantics(&mut s, semantics, true);
        assert(s@ =~= element_markup(Element::Semantics(*semantics), true));
        Ok(s)
    }

    fn render_space(&mut self, space: &Space) -> (out: Result<Self::Output, Self::Error>) {
        let mut s = String::new();
        push_space(&mut s, space, true);
        assert(s@ =~= element_markup(Element::Space(*space), true));
        Ok(s)
    }

    fn render_str_literal(
        &mut self,
        str_literal: &StrLiteral,
    ) -> (out: Result<Self::Output, Self::Error>) {
        let mut s = String::new();
        push_str_literal(&mut s, str_literal, true);
        assert(s@ =~= element_markup(Element::StrLiteral(*str_literal), true));
        Ok(s)
    }

    fn render_style(&mut self, style: &Style) -> (out: Result<Self::Output, Self::Error>) {
        let mut s = String::new();
        push_style(&mut s, style, true);
        assert(s@ =~= element_markup(Element::Style(*style), true));
        Ok(s)
    }

    fn render_subsup(&mut self, sub_sup: &SubSup) -> (out: Result<Self::Output, Self::Error>) {
        let mut s = String::new();
        push_subsup(&mut s, sub_sup, true);
        assert(s@ =~= element_markup(Element::SubSup(*sub_sup), true));
        Ok(s)
    }

    fn render_table(&mut self, table: &Table) -> (out: Result<Self::Output, Self::Error>) {
        let mut s = String::new();
        push_table(&mut s, table, true);
        assert(s@ =~= element_markup(Element::Table(*table), true));
        Ok(s)
    }

    fn render_text(&mut self, text: &Text) -> (out: Result<Self::Output, Self::Error>) {
        let mut s = String::new();
        push_text(&mut s, text, true);
        assert(s@ =~= element_markup(Element::Text(*text), true));
        Ok(s)
    }

    fn render_underover(
        &mut self,
        under_over: &UnderOver,
    ) -> (out: Result<Self::Output, Self::Error>) {
        let mut s = String::new();
        push_underover(&mut s, under_over, true);
        assert(s@ =~= element_markup(Element::UnderOver(*under_over), true));
        Ok(s)
    }

    fn render_attr(&mut self, attr: &Attribute) -> (out: Result<Self::Output, Self::Error>) {
        let mut s = String::new();
        attr.write_into(&mut s);
        assert(s@ =~= attr.markup());
        Ok(s)
    }

    fn render_element(&mut self, element: &Element) -> (out: Result<Self::Output, Self::Error>) {
        let mut s = String::new();
        push_element(&mut s, element, true);
        assert(s@ =~= element_markup(*element, true));
        Ok(s)
    }

    fn render_mathml(&mut self, mathml: &MathMl) -> (out: Result<Self::Output, Self::Error>) {
        let mut s = String::new();
        mathml.push_markup(&mut s, true);
        assert(s@ =~= mathml.markup(true));
        Ok(s)
    }
}

} // verus!
