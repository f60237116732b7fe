//! This module provides traits for rendering MathML elements.

use vstd::prelude::*;
use crate::attributes::Attribute;
use crate::elements::grouping::{Action, Error, Phantom, Prescripts, Row, Style};
use crate::elements::radicals::Radical;
use crate::elements::scripted::{Multiscripts, SubSup, UnderOver};
use crate::elements::{
    Annotation, Element, Frac, Ident, Num, Operator, Padded, Semantics, Space, StrLiteral, Table,
    Text,
};
use crate::MathMl;

verus! {

/// Whether `states` and `results` are what something passes through on its
/// way from `pre` to `post` while it does a step for each of `count` items,
/// one after the other, and ends at the first step that fails: the state
/// before the first step and the state after each step that was done, and the
/// result of each step that was done. Where the whole has succeeded, all
/// steps are done, the last of them with success; where it has failed, the
/// last step done has failed, and `r` is its result.
pub open spec fn passes_through<S, E>(
    states: Seq<S>,
    results: Seq<Result<(), E>>,
    pre: S,
    post: S,
    count: nat,
    r: Result<(), E>,
) -> bool {
    &&& results.len() <= count
    &&& states.len() == results.len() + 1
    &&& states[0] == pre
    &&& states.last() == post
    &&& r is Ok ==> results.len() == count && (results.len() > 0 ==> results.last() is Ok)
    &&& r is Err ==> results.len() > 0 && results.last() == r
}

/// The result without what it holds where nothing failed: `Ok` for `Ok`, and
/// the error for an error.
pub open spec fn outcome<T, E>(r: Result<T, E>) -> Result<(), E> {
    match r {
        Ok(_) => Ok(()),
        Err(e) => Err(e),
    }
}

/// There is one result that says that nothing failed.
pub proof fn lemma_one_ok<E>(r: Result<(), E>)
    requires
        r is Ok,
    ensures
        r == Ok::<(), E>(()),
{
    let unit = r->Ok_0;
    assert(unit == ());
}

/// Calls a method of a writer, given as a function, on the writer and an
/// item. The result and what becomes of the writer are what the method
/// ensures of a reference that holds the writer as it was before the call
/// and, in the end, as it is after it.
pub(crate) fn call_on<S, T, R, F: FnOnce(&mut S, &T) -> R>(f: F, s: &mut S, x: &T) -> (r: R)
    requires
        forall|a: &mut S| call_requires(f, (a, x)),
    ensures
        exists|a: &mut S|
            *a == *old(s) && *final(a) == *final(s) && #[trigger] call_ensures(f, (a, x), r),
{
    f(s, x)
}

/// Trait for rendering MathML elements: each method returns what it has
/// rendered.
///
/// What a renderer returns is its own affair. It says it in the three
/// relations below, which stand in the contract of every method: of a renderer
/// in this crate they say which markup comes back, and what is proved of code
/// that is generic over renderers holds of every renderer's own relations.
/// Every method has to be written: were a new kind of element added,
/// a renderer without a method for it would not compile.
pub trait Renderer: Sized {
    /// The `Output` type of the renderer that will be returned by `render_*` methods.
    type Output;

    /// The `Error` type of the renderer that will be returned by `render_*` methods in cases where
    /// rendering can fail. Use [`Infallible`] for renderers that cannot fail.
    ///
    /// [`Infallible`]: std::convert::Infallible
    type Error;

    /// Whether rendering `element` may take the renderer from `self` to
    /// `after` and return `out`.
    spec fn renders(
        &self,
        element: &Element,
        after: &Self,
        out: &Result<Self::Output, Self::Error>,
    ) -> bool;

    /// Whether rendering `attr` may take the renderer from `self` to `after`
    /// and return `out`.
    spec fn renders_attr(
        &self,
        attr: &Attribute,
        after: &Self,
        out: &Result<Self::Output, Self::Error>,
    ) -> bool;

    /// Whether rendering `mathml` may take the renderer from `self` to
    /// `after` and return `out`.
    spec fn renders_mathml(
        &self,
        mathml: &MathMl,
        after: &Self,
        out: &Result<Self::Output, Self::Error>,
    ) -> bool;

    /// Render an [`Action`] element.
    fn render_action(&mut self, action: &Action) -> (out: Result<Self::Output, Self::Error>)
        ensures
            old(self).renders(&Element::Action(*action), final(self), &out),
    ;

    /// Render an [`Annotation`] element.
    fn render_annotation(
        &mut self,
        annotation: &Annotation,
    ) -> (out: Result<Self::Output, Self::Error>)
        ensures
            old(self).renders(&Element::Annotation(*annotation), final(self), &out),
    ;

    /// Render an [`Error`] element.
    fn render_error(&mut self, error: &Error) -> (out: Result<Self::Output, Self::Error>)
        ensures
            old(self).renders(&Element::Error(*error), final(self), &out),
    ;

    /// Render a [`Frac`] element.
    fn render_frac(&mut self, frac: &Frac) -> (out: Result<Self::Output, Self::Error>)
        ensures
            old(self).renders(&Element::Frac(*frac), final(self), &out),
    ;

    /// Render an [`Ident`] element.
    fn render_ident(&mut self, ident: &Ident) -> (out: Result<Self::Output, Self::Error>)
        ensures
            old(self).renders(&Element::Ident(*ident), final(self), &out),
    ;

    /// Render a [`Multiscripts`] element.
    fn render_multiscripts(
        &mut self,
        multiscripts: &Multiscripts,
    ) -> (out: Result<Self::Output, Self::Error>)
        ensures
            old(self).renders(&Element::Multiscripts(*multiscripts), final(self), &out),
    ;

    /// Render a [`Prescripts`] element.
    fn render_prescripts(
        &mut self,
        prescripts: &Prescripts,
    ) -> (out: Result<Self::Output, Self::Error>)
        ensures
            old(self).renders(&Element::Prescripts(*prescripts), final(self), &out),
    ;

    /// Render a [`Num`] element.
    fn render_num(&mut self, num: &Num) -> (out: Result<Self::Output, Self::Error>)
        ensures
            old(self).renders(&Element::Num(*num), final(self), &out),
    ;

    /// Render an [`Operator`] element.
    fn render_operator(&mut self, operator: &Operator) -> (out: Result<Self::Output, Self::Error>)
        ensures
            old(self).renders(&Element::Operator(*operator), final(self), &out),
    ;

    /// Render a [`Padded`] element.
    fn render_padded(&mut self, padded: &Padded) -> (out: Result<Self::Output, Self::Error>)
        ensures
            old(self).renders(&Element::Padded(*padded), final(self), &out),
    ;

    /// Render a [`Phantom`] element.
    fn render_phantom(&mut self, phantom: &Phantom) -> (out: Result<Self::Output, Self::Error>)
        ensures
            old(self).renders(&Element::Phantom(*phantom), final(self), &out),
    ;

    /// Render a [`Radical`] element.
    fn render_radical(&mut self, radical: &Radical) -> (out: Result<Self::Output, Self::Error>)
        ensures
            old(self).renders(&Element::Radical(*radical), final(self), &out),
    ;

    /// Render a [`Row`] element.
    fn render_row(&mut self, row: &Row) -> (out: Result<Self::Output, Self::Error>)
        ensures
            old(self).renders(&Element::Row(*row), final(self), &out),
    ;

    /// Render a [`Semantics`] element.
    fn render_semantics(
        &mut self,
        semantics: &Semantics,
    ) -> (out: Result<Self::Output, Self::Error>)
        ensures
            old(self).renders(&Element::Semantics(*semantics), final(self), &out),
    ;

    /// Render a [`Space`] element.
    fn render_space(&mut self, space: &Space) -> (out: Result<Self::Output, Self::Error>)
        ensures
            old(self).renders(&Element::Space(*space), final(self), &out),
    ;

    /// Render a [`StrLiteral`] element.
    fn render_str_literal(
        &mut self,
        str_literal: &StrLiteral,
    ) -> (out: Result<Self::Output, Self::Error>)
        ensures
            old(self).renders(&Element::StrLiteral(*str_literal), final(self), &out),
    ;

    /// Render a [`Style`] element.
    fn render_style(&mut self, style: &Style) -> (out: Result<Self::Output, Self::Error>)
        ensures
            old(self).renders(&Element::Style(*style), final(self), &out),
    ;

    /// Render a [`SubSup`] element.
    fn render_subsup(&mut self, sub_sup: &SubSup) -> (out: Result<Self::Output, Self::Error>)
        ensures
            old(self).renders(&Element::SubSup(*sub_sup), final(self), &out),
    ;

    /// Render a [`Table`] element.
    fn render_table(&mut self, table: &Table) -> (out: Result<Self::Output, Self::Error>)
        ensures
            old(self).renders(&Element::Table(*table), final(self), &out),
    ;

    /// Render a [`Text`] element.
    fn render_text(&mut self, text: &Text) -> (out: Result<Self::Output, Self::Error>)
        ensures
            old(self).renders(&Element::Text(*text), final(self), &out),
    ;

    /// Render an [`UnderOver`] element.
    fn render_underover(
        &mut self,
        under_over: &UnderOver,
    ) -> (out: Result<Self::Output, Self::Error>)
        ensures
            old(self).renders(&Element::UnderOver(*under_over), final(self), &out),
    ;

    /// Render an [`Attribute`].
    fn render_attr(&mut self, attr: &Attribute) -> (out: Result<Self::Output, Self::Error>)
        ensures
            old(self).renders_attr(attr, final(self), &out),
    ;

    /// Render an [`Element`]: by the method for the kind of element that it is.
    fn render_element(&mut self, element: &Element) -> (out: Result<Self::Output, Self::Error>)
        ensures
            old(self).renders(element, final(self), &out),
    {
        match element {
            Element::Action(action) => self.render_action(action),
            Element::Annotation(annotation) => self.render_annotation(annotation),
            Element::Error(error) => self.render_error(error),
            Element::Frac(frac) => self.render_frac(frac),
            Element::Ident(ident) => self.render_ident(ident),
            Element::Multiscripts(multiscripts) => self.render_multiscripts(multiscripts),
            Element::Prescripts(prescripts) => self.render_prescripts(prescripts),
            Element::Num(num) => self.render_num(num),
            Element::Operator(operator) => self.render_operator(operator),
            Element::Padded(padded) => self.render_padded(padded),
            Element::Phantom(phantom) => self.render_phantom(phantom),
            Element::Radical(radical) => self.render_radical(radical),
            Element::Row(row) => self.render_row(row),
            Element::Semantics(semantics) => self.render_semantics(semantics),
            Element::Space(space) => self.render_space(space),
            Element::StrLiteral(str_literal) => self.render_str_literal(str_literal),
            Element::Style(style) => self.render_style(style),
            Element::SubSup(sub_sup) => self.render_subsup(sub_sup),
            Element::Table(table) => self.render_table(table),
            Element::Text(text) => self.render_text(text),
            Element::UnderOver(under_over) => self.render_underover(under_over),
        }
    }

    /// Render a [`MathMl`] element.
    fn render_mathml(&mut self, mathml: &MathMl) -> (out: Result<Self::Output, Self::Error>)
        ensures
            old(self).renders_mathml(mathml, final(self), &out),
    ;
}

/// Trait for writing MathML elements.
///
/// In contrast with [`Renderer`] trait, implementors of this trait are meant to write the rendered
/// representation into a buffer instead of returning the rendered output from each function.
/// This enables buffered rendering, where instead of allocating many [`String`]s (for example),
/// one [`String`] is allocated and written into.
///
/// Each method for a kind of element has a default implementation that corresponds to a no-op.
/// This makes it possible to potentially introduce new elements without breaking existing
/// writers.
/// This also means that any new elements introduced will be omitted in the final render, as long
/// as the corresponding methods are not implemented.
///
/// `write_element` and `write_mathml` call other methods of the writer. What
/// they do is stated through what those methods ensure, be they the writer's
/// own or the defaults.
pub trait Writer: Sized {
    /// The type of the buffer that this writer writes into.
    type Buffer;

    /// The `Error` type of the writer that will be returned by `write_*` methods in cases where
    /// writing can fail. Use [`Infallible`] for writers that cannot fail.
    ///
    /// [`Infallible`]: std::convert::Infallible
    type Error;

    /// Write an [`Action`] element. Unless a writer has its own method, nothing is
    /// written and the writer is left as it was.
    fn write_action(&mut self, _action: &Action) -> (r: Result<(), Self::Error>)
        default_ensures
            r is Ok,
            *final(self) == *old(self),
    {
        Ok(())
    }

    /// Write an [`Annotation`] element. Unless a writer has its own method, nothing is
    /// written and the writer is left as it was.
    fn write_annotation(&mut self, _annotation: &Annotation) -> (r: Result<(), Self::Error>)
        default_ensures
            r is Ok,
            *final(self) == *old(self),
    {
        Ok(())
    }

    /// Write an [`Error`] element. Unless a writer has its own method, nothing is
    /// written and the writer is left as it was.
    fn write_error(&mut self, _error: &Error) -> (r: Result<(), Self::Error>)
        default_ensures
            r is Ok,
            *final(self) == *old(self),
    {
        Ok(())
    }

    /// Write a [`Frac`] element. Unless a writer has its own method, nothing is
    /// written and the writer is left as it was.
    fn write_frac(&mut self, _frac: &Frac) -> (r: Result<(), Self::Error>)
        default_ensures
            r is Ok,
            *final(self) == *old(self),
    {
        Ok(())
    }

    /// Write an [`Ident`] element. Unless a writer has its own method, nothing is
    /// written and the writer is left as it was.
    fn write_ident(&mut self, _ident: &Ident) -> (r: Result<(), Self::Error>)
        default_ensures
            r is Ok,
            *final(self) == *old(self),
    {
        Ok(())
    }

    /// Write a [`Multiscripts`] element. Unless a writer has its own method, nothing is
    /// written and the writer is left as it was.
    fn write_multiscripts(&mut self, _multiscripts: &Multiscripts) -> (r: Result<(), Self::Error>)
        default_ensures
            r is Ok,
            *final(self) == *old(self),
    {
        Ok(())
    }

    /// Write a [`Prescripts`] element. Unless a writer has its own method, nothing is
    /// written and the writer is left as it was.
    fn write_prescripts(&mut self, _prescripts: &Prescripts) -> (r: Result<(), Self::Error>)
        default_ensures
            r is Ok,
            *final(self) == *old(self),
    {
        Ok(())
    }

    /// Write a [`Num`] element. Unless a writer has its own method, nothing is
    /// written and the writer is left as it was.
    fn write_num(&mut self, _num: &Num) -> (r: Result<(), Self::Error>)
        default_ensures
            r is Ok,
            *final(self) == *old(self),
    {
        Ok(())
    }

    /// Write an [`Operator`] element. Unless a writer has its own method, nothing is
    /// written and the writer is left as it was.
    fn write_operator(&mut self, _operator: &Operator) -> (r: Result<(), Self::Error>)
        default_ensures
            r is Ok,
            *final(self) == *old(self),
    {
        Ok(())
    }

    /// Write a [`Padded`] element. Unless a writer has its own method, nothing is
    /// written and the writer is left as it was.
    fn write_padded(&mut self, _padded: &Padded) -> (r: Result<(), Self::Error>)
        default_ensures
            r is Ok,
            *final(self) == *old(self),
    {
        Ok(())
    }

    /// Write a [`Phantom`] element. Unless a writer has its own method, nothing is
    /// written and the writer is left as it was.
    fn write_phantom(&mut self, _phantom: &Phantom) -> (r: Result<(), Self::Error>)
        default_ensures
            r is Ok,
            *final(self) == *old(self),
    {
        Ok(())
    }

    /// Write a [`Radical`] element. Unless a writer has its own method, nothing is
    /// written and the writer is left as it was.
    fn write_radical(&mut self, _radical: &Radical) -> (r: Result<(), Self::Error>)
        default_ensures
            r is Ok,
            *final(self) == *old(self),
    {
        Ok(())
    }

    /// Write a [`Row`] element. Unless a writer has its own method, nothing is
    /// written and the writer is left as it was.
    fn write_row(&mut self, _row: &Row) -> (r: Result<(), Self::Error>)
        default_ensures
            r is Ok,
            *final(self) == *old(self),
    {
        Ok(())
    }

    /// Write a [`Semantics`] element. Unless a writer has its own method, nothing is
    /// written and the writer is left as it was.
    fn write_semantics(&mut self, _semantics: &Semantics) -> (r: Result<(), Self::Error>)
        default_ensures
            r is Ok,
            *final(self) == *old(self),
    {
        Ok(())
    }

    /// Write a [`Space`] element. Unless a writer has its own method, nothing is
    /// written and the writer is left as it was.
    fn write_space(&mut self, _space: &Space) -> (r: Result<(), Self::Error>)
        default_ensures
            r is Ok,
            *final(self) == *old(self),
    {
        Ok(())
    }

    /// Write a [`StrLiteral`] element. Unless a writer has its own method, nothing is
    /// written and the writer is left as it was.
    fn write_str_literal(&mut self, _str_literal: &StrLiteral) -> (r: Result<(), Self::Error>)
        default_ensures
            r is Ok,
            *final(self) == *old(self),
    {
        Ok(())
    }

    /// Write a [`Style`] element. Unless a writer has its own method, nothing is
    /// written and the writer is left as it was.
    fn write_style(&mut self, _style: &Style) -> (r: Result<(), Self::Error>)
        default_ensures
            r is Ok,
            *final(self) == *old(self),
    {
        Ok(())
    }

    /// Write a [`SubSup`] element. Unless a writer has its own method, nothing is
    /// written and the writer is left as it was.
    fn write_subsup(&mut self, _sub_sup: &SubSup) -> (r: Result<(), Self::Error>)
        default_ensures
            r is Ok,
            *final(self) == *old(self),
    {
        Ok(())
    }

    /// Write a [`Table`] element. Unless a writer has its own method, nothing is
    /// written and the writer is left as it was.
    fn write_table(&mut self, _table: &Table) -> (r: Result<(), Self::Error>)
        default_ensures
            r is Ok,
            *final(self) == *old(self),
    {
        Ok(())
    }

    /// Write a [`Text`] element. Unless a writer has its own method, nothing is
    /// written and the writer is left as it was.
    fn write_text(&mut self, _text: &Text) -> (r: Result<(), Self::Error>)
        default_ensures
            r is Ok,
            *final(self) == *old(self),
    {
        Ok(())
    }

    /// Write an [`UnderOver`] element. Unless a writer has its own method, nothing is
    /// written and the writer is left as it was.
    fn write_underover(&mut self, _under_over: &UnderOver) -> (r: Result<(), Self::Error>)
        default_ensures
            r is Ok,
            *final(self) == *old(self),
    {
        Ok(())
    }

    /// Write an [`Attribute`]. Unless a writer has its own method, nothing is
    /// written and the writer is left as it was.
    fn write_attr(&mut self, _attr: &Attribute) -> (r: Result<(), Self::Error>)
        default_ensures
            r is Ok,
            *final(self) == *old(self),
    {
        Ok(())
    }

    /// Write an [`Element`] into the `Self::Buffer`: by the method for the
    /// kind of element that it is. Unless a writer has its own method, the
    /// result is what that method returns, and the writer becomes what that
    /// method makes of it.
    fn write_element(&mut self, tag: &Element) -> (r: Result<(), Self::Error>)
        default_ensures
            match *tag {
                Element::Action(x) => exists|a: &mut Self|
                    *a == *old(self) && *final(a) == *final(self) && #[trigger] call_ensures(
                        Self::write_action,
                        (a, &x),
                        r,
                    ),
                Element::Annotation(x) => exists|a: &mut Self|
                    *a == *old(self) && *final(a) == *final(self) && #[trigger] call_ensures(
                        Self::write_annotation,
                        (a, &x),
                        r,
                    ),
                Element::Error(x) => exists|a: &mut Self|
                    *a == *old(self) && *final(a) == *final(self) && #[trigger] call_ensures(
                        Self::write_error,
                        (a, &x),
                        r,
                    ),
                Element::Frac(x) => exists|a: &mut Self|
                    *a == *old(self) && *final(a) == *final(self) && #[trigger] call_ensures(
                        Self::write_frac,
                        (a, &x),
                        r,
                    ),
                Element::Ident(x) => exists|a: &mut Self|
                    *a == *old(self) && *final(a) == *final(self) && #[trigger] call_ensures(
                        Self::write_ident,
                        (a, &x),
                        r,
                    ),
                Element::Multiscripts(x) => exists|a: &mut Self|
                    *a == *old(self) && *final(a) == *final(self) && #[trigger] call_ensures(
                        Self::write_multiscripts,
                        (a, &x),
                        r,
                    ),
                Element::Prescripts(x) => exists|a: &mut Self|
                    *a == *old(self) && *final(a) == *final(self) && #[trigger] call_ensures(
                        Self::write_prescripts,
                        (a, &x),
                        r,
                    ),
                Element::Num(x) => exists|a: &mut Self|
                    *a == *old(self) && *final(a) == *final(self) && #[trigger] call_ensures(
                        Self::write_num,
                        (a, &x),
                        r,
                    ),
                Element::Operator(x) => exists|a: &mut Self|
                    *a == *old(self) && *final(a) == *final(self) && #[trigger] call_ensures(
                        Self::write_operator,
                        (a, &x),
                        r,
                    ),
                Element::Padded(x) => exists|a: &mut Self|
                    *a == *old(self) && *final(a) == *final(self) && #[trigger] call_ensures(
                        Self::write_padded,
                        (a, &x),
                        r,
                    ),
                Element::Phantom(x) => exists|a: &mut Self|
                    *a == *old(self) && *final(a) == *final(self) && #[trigger] call_ensures(
                        Self::write_phantom,
                        (a, &x),
                        r,
                    ),
                Element::Radical(x) => exists|a: &mut Self|
                    *a == *old(self) && *final(a) == *final(self) && #[trigger] call_ensures(
                        Self::write_radical,
                        (a, &x),
                        r,
                    ),
                Element::Row(x) => exists|a: &mut Self|
                    *a == *old(self) && *final(a) == *final(self) && #[trigger] call_ensures(
                        Self::write_row,
                        (a, &x),
                        r,
                    ),
                Element::Semantics(x) => exists|a: &mut Self|
                    *a == *old(self) && *final(a) == *final(self) && #[trigger] call_ensures(
                        Self::write_semantics,
                        (a, &x),
                        r,
                    ),
                Element::Space(x) => exists|a: &mut Self|
                    *a == *old(self) && *final(a) == *final(self) && #[trigger] call_ensures(
                        Self::write_space,
                        (a, &x),
                        r,
                    ),
                Element::StrLiteral(x) => exists|a: &mut Self|
                    *a == *old(self) && *final(a) == *final(self) && #[trigger] call_ensures(
                        Self::write_str_literal,
                        (a, &x),
                        r,
                    ),
                Element::Style(x) => exists|a: &mut Self|
                    *a == *old(self) && *final(a) == *final(self) && #[trigger] call_ensures(
                        Self::write_style,
                        (a, &x),
                        r,
                    ),
                Element::SubSup(x) => exists|a: &mut Self|
                    *a == *old(self) && *final(a) == *final(self) && #[trigger] call_ensures(
                        Self::write_subsup,
                        (a, &x),
                        r,
                    ),
                Element::Table(x) => exists|a: &mut Self|
                    *a == *old(self) && *final(a) == *final(self) && #[trigger] call_ensures(
                        Self::write_table,
                        (a, &x),
                        r,
                    ),
                Element::Text(x) => exists|a: &mut Self|
                    *a == *old(self) && *final(a) == *final(self) && #[trigger] call_ensures(
                        Self::write_text,
                        (a, &x),
                        r,
                    ),
                Element::UnderOver(x) => exists|a: &mut Self|
                    *a == *old(self) && *final(a) == *final(self) && #[trigger] call_ensures(
                        Self::write_underover,
                        (a, &x),
                        r,
                    ),
            },
    {
        match tag {
            Element::Action(action) => call_on(Self::write_action, self, action),
            Element::Annotation(annotation) => call_on(Self::write_annotation, self, annotation),
            Element::Error(error) => call_on(Self::write_error, self, error),
            Element::Frac(frac) => call_on(Self::write_frac, self, frac),
            Element::Ident(ident) => call_on(Self::write_ident, self, ident),
            Element::Multiscripts(multiscripts) => call_on(
                Self::write_multiscripts,
                self,
                multiscripts,
            ),
            Element::Prescripts(prescripts) => call_on(Self::write_prescripts, self, prescripts),
            Element::Num(num) => call_on(Self::write_num, self, num),
            Element::Operator(operator) => call_on(Self::write_operator, self, operator),
            Element::Padded(padded) => call_on(Self::write_padded, self, padded),
            Element::Phantom(phantom) => call_on(Self::write_phantom, self, phantom),
            Element::Radical(radical) => call_on(Self::write_radical, self, radical),
            Element::Row(row) => call_on(Self::write_row, self, row),
            Element::Semantics(semantics) => call_on(Self::write_semantics, self, semantics),
            Element::Space(space) => call_on(Self::write_space, self, space),
            Element::StrLiteral(str_literal) => call_on(Self::write_str_literal, self, str_literal),
            Element::Style(style) => call_on(Self::write_style, self, style),
            Element::SubSup(sub_sup) => call_on(Self::write_subsup, self, sub_sup),
            Element::Table(table) => call_on(Self::write_table, self, table),
            Element::Text(text) => call_on(Self::write_text, self, text),
            Element::UnderOver(under_over) => call_on(Self::write_underover, self, under_over),
        }
    }

    /// Write a [`MathMl`] element. Unless a writer has its own method, the
    /// elements of the content are written by `write_element`, one after the
    /// other in their order, up to the first that fails, whose error is
    /// returned; if none fails, the result is `Ok`. The `states` are those
    /// that the writer passes through, and the `results` those of the calls
    /// of `write_element`.
    fn write_mathml(&mut self, mathml: &MathMl) -> (r: Result<(), Self::Error>)
        default_ensures
            exists|states: Seq<Self>, results: Seq<Result<(), Self::Error>>|
                {
                    &&& #[trigger] passes_through(
                        states,
                        results,
                        *old(self),
                        *final(self),
                        mathml.content@.len(),
                        r,
                    )
                    &&& forall|i: int|
                        #![trigger results[i]]
                        0 <= i < results.len() ==> {
                            &&& i < results.len() - 1 ==> results[i] is Ok
                            &&& exists|a: &mut Self|
                                *a == states[i] && *final(a) == states[i + 1]
                                    && #[trigger] call_ensures(
                                    Self::write_element,
                                    (a, &mathml.content@[i]),
                                    results[i],
                                )
                        }
                },
    {
        let ghost start = *self;
        let ghost mut states: Seq<Self> = seq![start];
        let ghost mut results: Seq<Result<(), Self::Error>> = Seq::empty();
        let elements = mathml.content.as_slice();
        let mut i: usize = 0;
        while i < elements.len()
            invariant
                i <= elements.len(),
                elements@ == mathml.content@,
                start == *old(self),
                results.len() == i,
                states.len() == i + 1,
                states[0] == start,
                states.last() == *self,
                forall|j: int|
                    #![trigger results[j]]
                    0 <= j < i ==> {
                        &&& results[j] is Ok
                        &&& exists|a: &mut Self|
                            *a == states[j] && *final(a) == states[j + 1]
                                && #[trigger] call_ensures(
                                Self::write_element,
                                (a, &elements@[j]),
                                results[j],
                            )
                    },
            decreases elements.len() - i,
        {
            let ghost before = *self;
            let ghost passed = states;
            let ghost had = results;
            let res = call_on(Self::write_element, self, &elements[i]);
            proof {
                states = passed.push(*self);
                results = had.push(res);
                assert(states[i as int] == before);
                assert(states[i + 1] == *self);
                assert(results[i as int] == res);
                assert forall|j: int|
                    #![trigger results[j]]
                    0 <= j < i + 1 implies {
                    &&& j < i ==> results[j] is Ok
                    &&& exists|a: &mut Self|
                        *a == states[j] && *final(a) == states[j + 1] && #[trigger] call_ensures(
                            Self::write_element,
                            (a, &elements@[j]),
                            results[j],
                        )
                } by {
                    if j < i {
                        assert(states[j] == passed[j] && states[j + 1] == passed[j + 1]);
                        assert(results[j] == had[j]);
                    }
                }
            }
            match res {
                Ok(()) => {},
                Err(e) => {
                    proof {
                        assert(res == Err::<(), Self::Error>(e));
                        assert(passes_through(
                            states,
                            results,
                            start,
                            *self,
                            mathml.content@.len(),
                            res,
                        ));
                    }
                    return Err(e);
                },
            }
            i += 1;
        }
        proof {
            let r: Result<(), Self::Error> = Ok(());
            assert(passes_through(states, results, start, *self, mathml.content@.len(), r));
        }
        Ok(())
    }

    /// Return a reference to the buffer.
    fn buffer(&self) -> &Self::Buffer;

    /// Produce a rendered representation of the [`MathMl`] content written into the [`Writer`].
    fn finish(&mut self) -> Self::Buffer;

    /// Consume the [`Writer`] and return the inner buffer.
    fn into_inner(self) -> Self::Buffer;
}

} // verus!
