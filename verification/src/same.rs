//! Copies of elements.
//!
//! A copy of an element lies in vectors of its own, so it is not the
//! element: it is the same as the element in all that the markup is made of.
//! This module says what that means, gives every kind of element its
//! `clone`, and proves that a copy has the markup of what it was made from.

use vstd::prelude::*;
use crate::attributes::{attr_texts, TagAttribute};
use crate::elements::grouping::{Action, Error, Phantom, Row, Style};
use crate::elements::math::Math;
use crate::elements::radicals::Radical;
use crate::elements::scripted::{Multiscripts, SubSup, SubSupInner, UnderOver, UnderOverInner};
use crate::elements::{
    Annotation, AnnotationContent, Element, Elements, Frac, Padded, Semantics, Table, TableAttr,
    TableCell, TableRow,
};
use crate::markup::{
    cell_markup, cells_markup, element_markup, elements_markup, row_markup, rows_markup,
};
use crate::MathMl;

verus! {

/// Whether two elements are of the same kind, with the same texts, the same
/// attributes in the same order, and children that are, one by one, the same
/// in this sense.
pub open spec fn same_element(a: Element, b: Element) -> bool
    decreases a,
{
    match a {
        Element::Action(x) => {
            &&& b is Action
            &&& x.attributes@ == b->Action_0.attributes@
            &&& same_elements(x.content@, b->Action_0.content@)
        },
        Element::Error(x) => {
            &&& b is Error
            &&& x.attributes@ == b->Error_0.attributes@
            &&& same_elements(x.content@, b->Error_0.content@)
        },
        Element::Multiscripts(x) => {
            &&& b is Multiscripts
            &&& x.attributes@ == b->Multiscripts_0.attributes@
            &&& same_elements(x.content@, b->Multiscripts_0.content@)
        },
        Element::Padded(x) => {
            &&& b is Padded
            &&& x.attributes@ == b->Padded_0.attributes@
            &&& same_elements(x.children@, b->Padded_0.children@)
        },
        Element::Phantom(x) => {
            &&& b is Phantom
            &&& x.attributes@ == b->Phantom_0.attributes@
            &&& same_elements(x.children@, b->Phantom_0.children@)
        },
        Element::Row(x) => {
            &&& b is Row
            &&& x.attr@ == b->Row_0.attr@
            &&& same_elements(x.children@, b->Row_0.children@)
        },
        Element::Semantics(x) => {
            &&& b is Semantics
            &&& x.attr@ == b->Semantics_0.attr@
            &&& same_elements(x.children@, b->Semantics_0.children@)
        },
        Element::Style(x) => {
            &&& b is Style
            &&& x.attr@ == b->Style_0.attr@
            &&& same_elements(x.children@, b->Style_0.children@)
        },
        Element::Ident(x) => {
            &&& b is Ident
            &&& x.ident == b->Ident_0.ident
            &&& x.attributes@ == b->Ident_0.attributes@
        },
        Element::Num(x) => {
            &&& b is Num
            &&& x.num == b->Num_0.num
            &&& x.attributes@ == b->Num_0.attributes@
        },
        Element::Operator(x) => {
            &&& b is Operator
            &&& x.op == b->Operator_0.op
            &&& x.attributes@ == b->Operator_0.attributes@
        },
        Element::StrLiteral(x) => {
            &&& b is StrLiteral
            &&& x.literal == b->StrLiteral_0.literal
            &&& x.attr@ == b->StrLiteral_0.attr@
        },
        Element::Text(x) => {
            &&& b is Text
            &&& x.text == b->Text_0.text
            &&& x.attr@ == b->Text_0.attr@
        },
        Element::Prescripts(x) => {
            &&& b is Prescripts
            &&& x.attr@ == b->Prescripts_0.attr@
        },
        Element::Space(x) => {
            &&& b is Space
            &&& x.attr@ == b->Space_0.attr@
        },
        Element::Annotation(x) => {
            &&& b is Annotation
            &&& x.attributes@ == b->Annotation_0.attributes@
            &&& same_content(x.content, b->Annotation_0.content)
        },
        Element::Frac(x) => {
            &&& b is Frac
            &&& x.attributes@ == b->Frac_0.attributes@
            &&& same_elements(x.num@, b->Frac_0.num@)
            &&& same_elements(x.denom@, b->Frac_0.denom@)
        },
        Element::Radical(x) => {
            &&& b is Radical
            &&& x.attributes@ == b->Radical_0.attributes@
            &&& same_elements(x.index@, b->Radical_0.index@)
            &&& same_elements(x.content@, b->Radical_0.content@)
        },
        Element::SubSup(x) => {
            &&& b is SubSup
            &&& x.attributes@ == b->SubSup_0.attributes@
            &&& same_elements(x.base@, b->SubSup_0.base@)
            &&& same_sub_sup(x.inner, b->SubSup_0.inner)
        },
        Element::UnderOver(x) => {
            &&& b is UnderOver
            &&& x.attributes@ == b->UnderOver_0.attributes@
            &&& same_elements(x.expr@, b->UnderOver_0.expr@)
            &&& same_under_over(x.inner, b->UnderOver_0.inner)
        },
        Element::Table(x) => {
            &&& b is Table
            &&& same_table_attrs(x.attributes@, b->Table_0.attributes@)
            &&& same_rows(x.rows@, b->Table_0.rows@)
        },
    }
}

/// Whether two lists hold as many elements, one by one the same.
pub open spec fn same_elements(a: Seq<Element>, b: Seq<Element>) -> bool
    decreases a,
{
    &&& a.len() == b.len()
    &&& forall|i: int| 0 <= i < a.len() ==> same_element(a[i], #[trigger] b[i])
}

/// Whether two values that may be missing are both missing, or are lists of
/// elements that are the same.
pub open spec fn same_held(a: Option<Seq<Element>>, b: Option<Seq<Element>>) -> bool {
    match a {
        Some(x) => b matches Some(y) && same_elements(x, y),
        None => b is None,
    }
}

/// Whether two contents of an annotation are the same text, or elements
/// that are the same.
pub open spec fn same_content(a: AnnotationContent, b: AnnotationContent) -> bool
    decreases a,
{
    match a {
        AnnotationContent::Text(s) => b is Text && s == b->Text_0,
        AnnotationContent::Nested(s) => b is Nested && same_elements(s@, b->Nested_0@),
    }
}

/// Whether two values hold scripts of the same kind that are the same.
pub open spec fn same_sub_sup(a: SubSupInner, b: SubSupInner) -> bool
    decreases a,
{
    match a {
        SubSupInner::Sub(s) => b is Sub && same_elements(s@, b->Sub_0@),
        SubSupInner::Sup(s) => b is Sup && same_elements(s@, b->Sup_0@),
        SubSupInner::SubSup { sub, sup } => {
            &&& b is SubSup
            &&& same_elements(sub@, b->SubSup_sub@)
            &&& same_elements(sup@, b->SubSup_sup@)
        },
    }
}

/// Whether two values hold scripts of the same kind that are the same.
pub open spec fn same_under_over(a: UnderOverInner, b: UnderOverInner) -> bool
    decreases a,
{
    match a {
        UnderOverInner::Under(s) => b is Under && same_elements(s@, b->Under_0@),
        UnderOverInner::Over(s) => b is Over && same_elements(s@, b->Over_0@),
        UnderOverInner::UnderOver { under, over } => {
            &&& b is UnderOver
            &&& same_elements(under@, b->UnderOver_under@)
            &&& same_elements(over@, b->UnderOver_over@)
        },
    }
}

/// Whether two contents that may be missing are both missing, or are the
/// same.
pub open spec fn same_held_content(
    a: Option<AnnotationContent>,
    b: Option<AnnotationContent>,
) -> bool {
    match a {
        Some(x) => b matches Some(y) && same_content(x, y),
        None => b is None,
    }
}

/// Whether two documents have the same attributes and content that is the
/// same.
pub open spec fn same_document(a: MathMl, b: MathMl) -> bool {
    a.attr@ == b.attr@ && same_elements(a.content@, b.content@)
}

/// Whether two documents that may be missing are both missing, or are the
/// same.
pub open spec fn same_held_document(a: Option<MathMl>, b: Option<MathMl>) -> bool {
    match a {
        Some(x) => b matches Some(y) && same_document(x, y),
        None => b is None,
    }
}

/// Whether two lists hold as many attributes of a table, one by one the same.
pub open spec fn same_table_attrs(a: Seq<TableAttr>, b: Seq<TableAttr>) -> bool {
    &&& a.len() == b.len()
    &&& forall|i: int| 0 <= i < a.len() ==> a[i].same(#[trigger] b[i])
}

/// Whether two lists hold as many rows, one by one the same.
pub open spec fn same_rows(a: Seq<TableRow>, b: Seq<TableRow>) -> bool
    decreases a,
{
    &&& a.len() == b.len()
    &&& forall|i: int| 0 <= i < a.len() ==> same_row(a[i], #[trigger] b[i])
}

/// Whether two rows have the same attributes and cells that are, one by one,
/// the same.
pub open spec fn same_row(a: TableRow, b: TableRow) -> bool
    decreases a,
{
    a.attr@ == b.attr@ && same_cells(a.cells@, b.cells@)
}

/// Whether two lists hold as many cells, one by one the same.
pub open spec fn same_cells(a: Seq<TableCell>, b: Seq<TableCell>) -> bool
    decreases a,
{
    &&& a.len() == b.len()
    &&& forall|i: int| 0 <= i < a.len() ==> same_cell(a[i], #[trigger] b[i])
}

/// Whether two cells have the same attributes and children that are, one by
/// one, the same.
pub open spec fn same_cell(a: TableCell, b: TableCell) -> bool
    decreases a,
{
    a.attr@ == b.attr@ && same_elements(a.children@, b.children@)
}

impl Clone for Element {
    fn clone(&self) -> (r: Self)
        ensures
            same_element(*self, r),
        decreases self,
    {
        match self {
            Element::Action(x) => Element::Action(x.clone()),
            Element::Annotation(x) => Element::Annotation(x.clone()),
            Element::Error(x) => Element::Error(x.clone()),
            Element::Frac(x) => Element::Frac(x.clone()),
            Element::Ident(x) => Element::Ident(x.clone()),
            Element::Multiscripts(x) => Element::Multiscripts(x.clone()),
            Element::Prescripts(x) => Element::Prescripts(x.clone()),
            Element::Num(x) => Element::Num(x.clone()),
            Element::Operator(x) => Element::Operator(x.clone()),
            Element::Padded(x) => Element::Padded(x.clone()),
            Element::Phantom(x) => Element::Phantom(x.clone()),
            Element::Radical(x) => Element::Radical(x.clone()),
            Element::Row(x) => Element::Row(x.clone()),
            Element::Semantics(x) => Element::Semantics(x.clone()),
            Element::Space(x) => Element::Space(x.clone()),
            Element::StrLiteral(x) => Element::StrLiteral(x.clone()),
            Element::Style(x) => Element::Style(x.clone()),
            Element::SubSup(x) => Element::SubSup(x.clone()),
            Element::Table(x) => Element::Table(x.clone()),
            Element::Text(x) => Element::Text(x.clone()),
            Element::UnderOver(x) => Element::UnderOver(x.clone()),
        }
    }
}

impl Clone for Elements {
    fn clone(&self) -> (r: Self)
        ensures
            same_elements(self@, r@),
        decreases self,
    {
        let mut copies: Vec<Element> = Vec::new();
        let mut i: usize = 0;
        while i < self.0.len()
            invariant
                i <= self.0.len(),
                copies@.len() == i,
                forall|j: int| 0 <= j < i ==> same_element(self.0@[j], #[trigger] copies@[j]),
            decreases self.0.len() - i,
        {
            let copy = self.0[i].clone();
            copies.push(copy);
            i += 1;
        }
        Elements(copies)
    }
}

impl Clone for Action {
    fn clone(&self) -> (r: Self)
        ensures
            same_element(Element::Action(*self), Element::Action(r)),
        decreases self,
    {
        let r = Action { content: self.content.clone(), attributes: self.attributes.clone() };
        assert(r.attributes@ =~= self.attributes@);
        r
    }
}

impl Clone for Error {
    fn clone(&self) -> (r: Self)
        ensures
            same_element(Element::Error(*self), Element::Error(r)),
        decreases self,
    {
        let r = Error { content: self.content.clone(), attributes: self.attributes.clone() };
        assert(r.attributes@ =~= self.attributes@);
        r
    }
}

impl Clone for Multiscripts {
    fn clone(&self) -> (r: Self)
        ensures
            same_element(Element::Multiscripts(*self), Element::Multiscripts(r)),
        decreases self,
    {
        let r = Multiscripts { content: self.content.clone(), attributes: self.attributes.clone() };
        assert(r.attributes@ =~= self.attributes@);
        r
    }
}

impl Clone for Padded {
    fn clone(&self) -> (r: Self)
        ensures
            same_element(Element::Padded(*self), Element::Padded(r)),
        decreases self,
    {
        let r = Padded { children: self.children.clone(), attributes: self.attributes.clone() };
        assert(r.attributes@ =~= self.attributes@);
        r
    }
}

impl Clone for Phantom {
    fn clone(&self) -> (r: Self)
        ensures
            same_element(Element::Phantom(*self), Element::Phantom(r)),
        decreases self,
    {
        let r = Phantom { children: self.children.clone(), attributes: self.attributes.clone() };
        assert(r.attributes@ =~= self.attributes@);
        r
    }
}

impl Clone for Row {
    fn clone(&self) -> (r: Self)
        ensures
            same_element(Element::Row(*self), Element::Row(r)),
        decreases self,
    {
        let r = Row { children: self.children.clone(), attr: self.attr.clone() };
        assert(r.attr@ =~= self.attr@);
        r
    }
}

impl Clone for Semantics {
    fn clone(&self) -> (r: Self)
        ensures
            same_element(Element::Semantics(*self), Element::Semantics(r)),
        decreases self,
    {
        let r = Semantics { children: self.children.clone(), attr: self.attr.clone() };
        assert(r.attr@ =~= self.attr@);
        r
    }
}

impl Clone for Style {
    fn clone(&self) -> (r: Self)
        ensures
            same_element(Element::Style(*self), Element::Style(r)),
        decreases self,
    {
        let r = Style { children: self.children.clone(), attr: self.attr.clone() };
        assert(r.attr@ =~= self.attr@);
        r
    }
}

impl Clone for AnnotationContent {
    fn clone(&self) -> (r: Self)
        ensures
            same_content(*self, r),
        decreases self,
    {
        match self {
            AnnotationContent::Text(s) => AnnotationContent::Text(s.clone()),
            AnnotationContent::Nested(s) => AnnotationContent::Nested(s.clone()),
        }
    }
}

impl Clone for Annotation {
    fn clone(&self) -> (r: Self)
        ensures
            same_element(Element::Annotation(*self), Element::Annotation(r)),
        decreases self,
    {
        let r = Annotation { content: self.content.clone(), attributes: self.attributes.clone() };
        assert(r.attributes@ =~= self.attributes@);
        r
    }
}

impl Clone for Frac {
    fn clone(&self) -> (r: Self)
        ensures
            same_element(Element::Frac(*self), Element::Frac(r)),
        decreases self,
    {
        let r = Frac {
            num: self.num.clone(),
            denom: self.denom.clone(),
            attributes: self.attributes.clone(),
        };
        assert(r.attributes@ =~= self.attributes@);
        r
    }
}

impl Clone for Radical {
    fn clone(&self) -> (r: Self)
        ensures
            same_element(Element::Radical(*self), Element::Radical(r)),
        decreases self,
    {
        let r = Radical {
            index: self.index.clone(),
            content: self.content.clone(),
            attributes: self.attributes.clone(),
        };
        assert(r.attributes@ =~= self.attributes@);
        r
    }
}

impl Clone for SubSupInner {
    fn clone(&self) -> (r: Self)
        ensures
            same_sub_sup(*self, r),
        decreases self,
    {
        match self {
            SubSupInner::Sub(s) => SubSupInner::Sub(s.clone()),
            SubSupInner::Sup(s) => SubSupInner::Sup(s.clone()),
            SubSupInner::SubSup { sub, sup } => SubSupInner::SubSup {
                sub: sub.clone(),
                sup: sup.clone(),
            },
        }
    }
}

impl Clone for SubSup {
    fn clone(&self) -> (r: Self)
        ensures
            same_element(Element::SubSup(*self), Element::SubSup(r)),
        decreases self,
    {
        let r = SubSup {
            base: self.base.clone(),
            inner: self.inner.clone(),
            attributes: self.attributes.clone(),
        };
        assert(r.attributes@ =~= self.attributes@);
        r
    }
}

impl Clone for UnderOverInner {
    fn clone(&self) -> (r: Self)
        ensures
            same_under_over(*self, r),
        decreases self,
    {
        match self {
            UnderOverInner::Under(s) => UnderOverInner::Under(s.clone()),
            UnderOverInner::Over(s) => UnderOverInner::Over(s.clone()),
            UnderOverInner::UnderOver { under, over } => UnderOverInner::UnderOver {
                under: under.clone(),
                over: over.clone(),
            },
        }
    }
}

impl Clone for UnderOver {
    fn clone(&self) -> (r: Self)
        ensures
            same_element(Element::UnderOver(*self), Element::UnderOver(r)),
        decreases self,
    {
        let r = UnderOver {
            expr: self.expr.clone(),
            inner: self.inner.clone(),
            attributes: self.attributes.clone(),
        };
        assert(r.attributes@ =~= self.attributes@);
        r
    }
}

impl Clone for TableCell {
    fn clone(&self) -> (r: Self)
        ensures
            same_cell(*self, r),
        decreases self,
    {
        let r = TableCell { children: self.children.clone(), attr: self.attr.clone() };
        assert(r.attr@ =~= self.attr@);
        r
    }
}

impl Clone for TableRow {
    fn clone(&self) -> (r: Self)
        ensures
            same_row(*self, r),
        decreases self,
    {
        let mut cells: Vec<TableCell> = Vec::new();
        let mut i: usize = 0;
        while i < self.cells.len()
            invariant
                i <= self.cells.len(),
                cells@.len() == i,
                forall|j: int| 0 <= j < i ==> same_cell(self.cells@[j], #[trigger] cells@[j]),
            decreases self.cells.len() - i,
        {
            let copy = self.cells[i].clone();
            cells.push(copy);
            i += 1;
        }
        let r = TableRow { cells, attr: self.attr.clone() };
        assert(r.attr@ =~= self.attr@);
        r
    }
}

impl Clone for Table {
    fn clone(&self) -> (r: Self)
        ensures
            same_element(Element::Table(*self), Element::Table(r)),
        decreases self,
    {
        let mut rows: Vec<TableRow> = Vec::new();
        let mut i: usize = 0;
        while i < self.rows.len()
            invariant
                i <= self.rows.len(),
                rows@.len() == i,
                forall|j: int| 0 <= j < i ==> same_row(self.rows@[j], #[trigger] rows@[j]),
            decreases self.rows.len() - i,
        {
            let copy = self.rows[i].clone();
            rows.push(copy);
            i += 1;
        }
        Table { rows, attributes: self.attributes.clone() }
    }
}

impl Clone for MathMl {
    fn clone(&self) -> (r: Self)
        ensures
            same_document(*self, r),
    {
        let r = MathMl { content: self.content.clone(), attr: self.attr.clone() };
        assert(r.attr@ =~= self.attr@);
        r
    }
}

impl Clone for Math {
    fn clone(&self) -> (r: Self)
        ensures
            same_document(self.content, r.content),
            r.attributes@ == self.attributes@,
    {
        let r = Math { content: self.content.clone(), attributes: self.attributes.clone() };
        assert(r.attributes@ =~= self.attributes@);
        r
    }
}

/// Attributes of a table that are the same have the same texts.
pub proof fn lemma_same_table_attrs(a: Seq<TableAttr>, b: Seq<TableAttr>)
    requires
        same_table_attrs(a, b),
    ensures
        attr_texts(a) == attr_texts(b),
{
    assert forall|i: int| 0 <= i < a.len() implies a[i].markup() == b[i].markup() by {
        assert(a[i].same(b[i]));
    }
    assert(attr_texts(a) =~= attr_texts(b));
}

/// A copy has the markup of what it was made from: elements that are the
/// same have the same markup, in either layout.
pub proof fn lemma_same_markup(a: Element, b: Element, pad: bool)
    requires
        same_element(a, b),
    ensures
        element_markup(a, pad) == element_markup(b, pad),
    decreases a,
{
    match a {
        Element::Action(x) => {
            let y = b->Action_0;
            lemma_same_elements_markup(x.content@, y.content@, pad);
        },
        Element::Error(x) => {
            let y = b->Error_0;
            lemma_same_elements_markup(x.content@, y.content@, pad);
        },
        Element::Multiscripts(x) => {
            let y = b->Multiscripts_0;
            lemma_same_elements_markup(x.content@, y.content@, pad);
        },
        Element::Padded(x) => {
            let y = b->Padded_0;
            lemma_same_elements_markup(x.children@, y.children@, pad);
        },
        Element::Phantom(x) => {
            let y = b->Phantom_0;
            lemma_same_elements_markup(x.children@, y.children@, pad);
        },
        Element::Row(x) => {
            let y = b->Row_0;
            lemma_same_elements_markup(x.children@, y.children@, pad);
        },
        Element::Semantics(x) => {
            let y = b->Semantics_0;
            lemma_same_elements_markup(x.children@, y.children@, pad);
        },
        Element::Style(x) => {
            let y = b->Style_0;
            lemma_same_elements_markup(x.children@, y.children@, pad);
        },
        Element::Ident(x) => {},
        Element::Num(x) => {},
        Element::Operator(x) => {},
        Element::StrLiteral(x) => {},
        Element::Text(x) => {},
        Element::Prescripts(x) => {},
        Element::Space(x) => {},
        Element::Annotation(x) => {
            let y = b->Annotation_0;
            match x.content {
                AnnotationContent::Text(s) => {},
                AnnotationContent::Nested(s) => {
                    lemma_same_elements_markup(s@, y.content->Nested_0@, pad);
                },
            }
        },
        Element::Frac(x) => {
            let y = b->Frac_0;
            lemma_same_elements_markup(x.num@, y.num@, pad);
            lemma_same_elements_markup(x.denom@, y.denom@, pad);
        },
        Element::Radical(x) => {
            let y = b->Radical_0;
            lemma_same_elements_markup(x.index@, y.index@, pad);
            lemma_same_elements_markup(x.content@, y.content@, pad);
            if x.index@.len() == 1 {
                assert(same_element(x.index@[0], y.index@[0]));
            }
            assert(x.square() == y.square());
        },
        Element::SubSup(x) => {
            let y = b->SubSup_0;
            lemma_same_elements_markup(x.base@, y.base@, pad);
            match x.inner {
                SubSupInner::Sub(s) => {
                    lemma_same_elements_markup(s@, y.inner->Sub_0@, pad);
                },
                SubSupInner::Sup(s) => {
                    lemma_same_elements_markup(s@, y.inner->Sup_0@, pad);
                },
                SubSupInner::SubSup { sub, sup } => {
                    lemma_same_elements_markup(sub@, y.inner->SubSup_sub@, pad);
                    lemma_same_elements_markup(sup@, y.inner->SubSup_sup@, pad);
                },
            }
            assert(x.tag() == y.tag());
        },
        Element::UnderOver(x) => {
            let y = b->UnderOver_0;
            lemma_same_elements_markup(x.expr@, y.expr@, pad);
            match x.inner {
                UnderOverInner::Under(s) => {
                    lemma_same_elements_markup(s@, y.inner->Under_0@, pad);
                },
                UnderOverInner::Over(s) => {
                    lemma_same_elements_markup(s@, y.inner->Over_0@, pad);
                },
                UnderOverInner::UnderOver { under, over } => {
                    lemma_same_elements_markup(under@, y.inner->UnderOver_under@, pad);
                    lemma_same_elements_markup(over@, y.inner->UnderOver_over@, pad);
                },
            }
            assert(x.tag() == y.tag());
        },
        Element::Table(x) => {
            let y = b->Table_0;
            lemma_same_table_attrs(x.attributes@, y.attributes@);
            lemma_same_rows_markup(x.rows@, y.rows@, pad);
        },
    }
}

/// Lists of elements that are the same have the same markup, in either
/// layout.
pub proof fn lemma_same_elements_markup(a: Seq<Element>, b: Seq<Element>, pad: bool)
    requires
        same_elements(a, b),
    ensures
        elements_markup(a, pad) == elements_markup(b, pad),
    decreases a,
{
    if a.len() > 0 {
        assert forall|i: int| 0 <= i < a.drop_last().len() implies same_element(
            a.drop_last()[i],
            #[trigger] b.drop_last()[i],
        ) by {
            assert(same_element(a[i], b[i]));
        }
        lemma_same_elements_markup(a.drop_last(), b.drop_last(), pad);
        assert(same_element(a[a.len() - 1], b[a.len() - 1]));
        lemma_same_markup(a.last(), b.last(), pad);
    }
}

/// Rows that are the same have the same markup, in either layout.
pub proof fn lemma_same_rows_markup(a: Seq<TableRow>, b: Seq<TableRow>, pad: bool)
    requires
        same_rows(a, b),
    ensures
        rows_markup(a, pad) == rows_markup(b, pad),
    decreases a,
{
    if a.len() > 0 {
        assert forall|i: int| 0 <= i < a.drop_last().len() implies same_row(
            a.drop_last()[i],
            #[trigger] b.drop_last()[i],
        ) by {
            assert(same_row(a[i], b[i]));
        }
        lemma_same_rows_markup(a.drop_last(), b.drop_last(), pad);
        assert(same_row(a[a.len() - 1], b[a.len() - 1]));
        lemma_same_cells_markup(a.last().cells@, b.last().cells@, pad);
        assert(row_markup(a.last(), pad) == row_markup(b.last(), pad));
    } else {
        assert(b.len() == 0);
    }
}

/// Cells that are the same have the same markup, in either layout.
pub proof fn lemma_same_cells_markup(a: Seq<TableCell>, b: Seq<TableCell>, pad: bool)
    requires
        same_cells(a, b),
    ensures
        cells_markup(a, pad) == cells_markup(b, pad),
    decreases a,
{
    if a.len() > 0 {
        assert forall|i: int| 0 <= i < a.drop_last().len() implies same_cell(
            a.drop_last()[i],
            #[trigger] b.drop_last()[i],
        ) by {
            assert(same_cell(a[i], b[i]));
        }
        lemma_same_cells_markup(a.drop_last(), b.drop_last(), pad);
        assert(same_cell(a[a.len() - 1], b[a.len() - 1]));
        lemma_same_elements_markup(a.last().children@, b.last().children@, pad);
        assert(cell_markup(a.last(), pad) == cell_markup(b.last(), pad));
    } else {
        assert(b.len() == 0);
    }
}

/// A copy of a document has the markup of the document.
pub proof fn lemma_same_document(a: MathMl, b: MathMl, pad: bool)
    requires
        same_document(a, b),
    ensures
        a.markup(pad) == b.markup(pad),
{
    lemma_same_elements_markup(a.content@, b.content@, pad);
}

} // verus!
