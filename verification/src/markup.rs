//! The markup of every element: what it is, as a specification, and the
//! functions that write it.
//!
//! The markup comes in two layouts, which differ in one place: with `pad`, a
//! space follows the name in every opening tag; without it, only where
//! attributes follow. (`munder`, `mover` and `munderover` have the space in
//! both layouts.)

use vstd::prelude::*;
use crate::attributes::{attr_texts, push_open_tag, TagAttribute};
use crate::elements::grouping::{Action, Error, Phantom, Prescripts, Row, Style};
use crate::elements::radicals::Radical;
use crate::elements::scripted::{Multiscripts, SubSup, SubSupInner, UnderOver, UnderOverInner};
use crate::elements::{
    Annotation, AnnotationContent, Element, Frac, Ident, Num, Operator, Padded, Semantics, Space,
    StrLiteral, Table, TableCell, TableRow, Text,
};
use crate::elements::{fills_slot, line_tokens, ColumnLine};
use crate::text::{close_tag, concat, joined, open_tag};

verus! {

/// An element with content: the opening tag, the content, the closing tag.
pub open spec fn container(
    name: Seq<char>,
    attrs: Seq<Seq<char>>,
    pad: bool,
    content: Seq<char>,
) -> Seq<char> {
    open_tag(name, attrs, pad) + ">"@ + content + close_tag(name)
}

/// An element without content: a single tag that closes itself.
pub open spec fn empty_element(name: Seq<char>, attrs: Seq<Seq<char>>, pad: bool) -> Seq<char> {
    open_tag(name, attrs, pad) + "/>"@
}

/// The markup of one element. Text is written as it is: nothing is escaped.
pub open spec fn element_markup(e: Element, pad: bool) -> Seq<char>
    decreases e,
{
    match e {
        Element::Action(a) => container(
            "maction"@,
            attr_texts(a.attributes@),
            pad,
            elements_markup(a.content@, pad),
        ),
        Element::Annotation(a) => match a.content {
            AnnotationContent::Text(t) => container(
                "annotation"@,
                attr_texts(a.attributes@),
                pad,
                t@,
            ),
            AnnotationContent::Nested(es) => container(
                "annotation-xml"@,
                attr_texts(a.attributes@),
                pad,
                elements_markup(es@, pad),
            ),
        },
        Element::Error(x) => container(
            "merror"@,
            attr_texts(x.attributes@),
            pad,
            elements_markup(x.content@, pad),
        ),
        Element::Frac(f) => container(
            "mfrac"@,
            attr_texts(f.attributes@),
            pad,
            elements_markup(f.num@, pad) + elements_markup(f.denom@, pad),
        ),
        Element::Ident(i) => container("mi"@, attr_texts(i.attributes@), pad, i.ident@),
        Element::Multiscripts(m) => container(
            "mmultiscripts"@,
            attr_texts(m.attributes@),
            pad,
            elements_markup(m.content@, pad),
        ),
        Element::Prescripts(p) => empty_element("mprescripts"@, attr_texts(p.attr@), pad),
        Element::Num(n) => container("mn"@, attr_texts(n.attributes@), pad, n.num@),
        Element::Operator(o) => container("mo"@, attr_texts(o.attributes@), pad, o.op@),
        Element::Padded(p) => container(
            "mpadded"@,
            attr_texts(p.attributes@),
            pad,
            elements_markup(p.children@, pad),
        ),
        Element::Phantom(p) => container(
            "mphantom"@,
            attr_texts(p.attributes@),
            pad,
            elements_markup(p.children@, pad),
        ),
        Element::Radical(r) => if r.square() {
            container("msqrt"@, attr_texts(r.attributes@), pad, elements_markup(r.content@, pad))
        } else {
            container(
                "mroot"@,
                attr_texts(r.attributes@),
                pad,
                elements_markup(r.content@, pad) + elements_markup(r.index@, pad),
            )
        },
        Element::Row(r) => container(
            "mrow"@,
            attr_texts(r.attr@),
            pad,
            elements_markup(r.children@, pad),
        ),
        Element::Semantics(s) => container(
            "semantics"@,
            attr_texts(s.attr@),
            pad,
            elements_markup(s.children@, pad),
        ),
        Element::Space(s) => empty_element("mspace"@, attr_texts(s.attr@), pad),
        Element::StrLiteral(s) => container("ms"@, attr_texts(s.attr@), pad, s.literal@),
        Element::Style(s) => container(
            "mstyle"@,
            attr_texts(s.attr@),
            pad,
            elements_markup(s.children@, pad),
        ),
        Element::SubSup(s) => container(
            s.tag(),
            attr_texts(s.attributes@),
            pad,
            elements_markup(s.base@, pad) + (match s.inner {
                SubSupInner::Sub(sub) => elements_markup(sub@, pad),
                SubSupInner::Sup(sup) => elements_markup(sup@, pad),
                SubSupInner::SubSup { sub, sup } => elements_markup(sub@, pad) + elements_markup(
                    sup@,
                    pad,
                ),
            }),
        ),
        Element::Table(t) => container(
            "mtable"@,
            attr_texts(t.attributes@),
            pad,
            rows_markup(t.rows@, pad),
        ),
        Element::Text(t) => container("mtext"@, attr_texts(t.attr@), pad, t.text@),
        Element::UnderOver(u) => container(
            u.tag(),
            attr_texts(u.attributes@),
            true,
            elements_markup(u.expr@, pad) + (match u.inner {
                UnderOverInner::Under(under) => elements_markup(under@, pad),
                UnderOverInner::Over(over) => elements_markup(over@, pad),
                UnderOverInner::UnderOver { under, over } => elements_markup(under@, pad)
                    + elements_markup(over@, pad),
            }),
        ),
    }
}

/// The markup of a list of elements: that of each, in the list's order, with
/// nothing between them.
pub open spec fn elements_markup(es: Seq<Element>, pad: bool) -> Seq<char>
    decreases es,
{
    if es.len() == 0 {
        Seq::empty()
    } else {
        elements_markup(es.drop_last(), pad) + element_markup(es.last(), pad)
    }
}

/// The markup of a table's rows: one `mtr` for each, in their order.
pub open spec fn rows_markup(rows: Seq<TableRow>, pad: bool) -> Seq<char>
    decreases rows,
{
    if rows.len() == 0 {
        Seq::empty()
    } else {
        rows_markup(rows.drop_last(), pad) + row_markup(rows.last(), pad)
    }
}

/// The markup of one row of a table: an `mtr` around its cells.
pub open spec fn row_markup(row: TableRow, pad: bool) -> Seq<char>
    decreases row, 0int,
{
    container("mtr"@, attr_texts(row.attr@), pad, cells_markup(row.cells@, pad))
}

/// The markup of a row's cells: one `mtd` for each, in their order.
pub open spec fn cells_markup(cells: Seq<TableCell>, pad: bool) -> Seq<char>
    decreases cells,
{
    if cells.len() == 0 {
        Seq::empty()
    } else {
        cells_markup(cells.drop_last(), pad) + cell_markup(cells.last(), pad)
    }
}

/// The markup of one cell of a table: an `mtd` around its children.
pub open spec fn cell_markup(cell: TableCell, pad: bool) -> Seq<char>
    decreases cell, 0int,
{
    container("mtd"@, attr_texts(cell.attr@), pad, elements_markup(cell.children@, pad))
}

/// The markup of the first `i + 1` elements is that of the first `i`, then
/// that of the next.
pub proof fn lemma_elements_take(es: Seq<Element>, i: int, pad: bool)
    requires
        0 <= i < es.len(),
    ensures
        elements_markup(es.take(i + 1), pad) == elements_markup(es.take(i), pad) + element_markup(
            es[i],
            pad,
        ),
{
    assert(es.take(i + 1).drop_last() =~= es.take(i));
    assert(es.take(i + 1).last() == es[i]);
}

/// The markup of the first `i + 1` rows is that of the first `i`, then that
/// of the next.
pub proof fn lemma_rows_take(rows: Seq<TableRow>, i: int, pad: bool)
    requires
        0 <= i < rows.len(),
    ensures
        rows_markup(rows.take(i + 1), pad) == rows_markup(rows.take(i), pad) + row_markup(
            rows[i],
            pad,
        ),
{
    assert(rows.take(i + 1).drop_last() =~= rows.take(i));
    assert(rows.take(i + 1).last() == rows[i]);
}

/// The markup of the first `i + 1` cells is that of the first `i`, then that
/// of the next.
pub proof fn lemma_cells_take(cells: Seq<TableCell>, i: int, pad: bool)
    requires
        0 <= i < cells.len(),
    ensures
        cells_markup(cells.take(i + 1), pad) == cells_markup(cells.take(i), pad) + cell_markup(
            cells[i],
            pad,
        ),
{
    assert(cells.take(i + 1).drop_last() =~= cells.take(i));
    assert(cells.take(i + 1).last() == cells[i]);
}

/// What is written for an element with content, piece by piece, is the
/// element's markup behind what stood there before.
pub proof fn lemma_container_written(
    start: Seq<char>,
    name: Seq<char>,
    attrs: Seq<Seq<char>>,
    pad: bool,
    content: Seq<char>,
)
    ensures
        start + open_tag(name, attrs, pad) + ">"@ + content + close_tag(name) == start + container(
            name,
            attrs,
            pad,
            content,
        ),
{
    assert(start + open_tag(name, attrs, pad) + ">"@ + content + close_tag(name) =~= start
        + container(name, attrs, pad, content));
}

/// The markup of each element of a list, in the list's order.
pub open spec fn each_element_markup(es: Seq<Element>, pad: bool) -> Seq<Seq<char>> {
    Seq::new(es.len(), |i: int| element_markup(es[i], pad))
}

/// The markup of each row of a table, in the rows' order.
pub open spec fn each_row_markup(rows: Seq<TableRow>, pad: bool) -> Seq<Seq<char>> {
    Seq::new(rows.len(), |i: int| row_markup(rows[i], pad))
}

/// The markup of each cell of a row, in the cells' order.
pub open spec fn each_cell_markup(cells: Seq<TableCell>, pad: bool) -> Seq<Seq<char>> {
    Seq::new(cells.len(), |i: int| cell_markup(cells[i], pad))
}

/// Order is kept: the markup of a list of elements is the markup of its
/// first element, then that of its second, and so on to the last. Each
/// element is written once for each time that it stands in the list, equal
/// elements too.
pub proof fn lemma_elements_in_order(es: Seq<Element>, pad: bool)
    ensures
        elements_markup(es, pad) == concat(each_element_markup(es, pad)),
    decreases es.len(),
{
    if es.len() > 0 {
        lemma_elements_in_order(es.drop_last(), pad);
        assert(each_element_markup(es, pad).drop_last() =~= each_element_markup(
            es.drop_last(),
            pad,
        ));
    }
}

/// The markup of one list of elements behind another is the markup of the
/// one behind the markup of the other.
pub proof fn lemma_elements_concat(a: Seq<Element>, b: Seq<Element>, pad: bool)
    ensures
        elements_markup(a + b, pad) == elements_markup(a, pad) + elements_markup(b, pad),
    decreases b.len(),
{
    if b.len() == 0 {
        assert(a + b =~= a);
        assert(elements_markup(a, pad) + elements_markup(b, pad) =~= elements_markup(a, pad));
    } else {
        lemma_elements_concat(a, b.drop_last(), pad);
        assert((a + b).drop_last() =~= a + b.drop_last());
        assert((a + b).last() == b.last());
        assert(elements_markup(a + b, pad) =~= elements_markup(a, pad) + elements_markup(b, pad));
    }
}

/// The markup of a single element as a list is the element's markup.
pub proof fn lemma_elements_single(e: Element, pad: bool)
    ensures
        elements_markup(seq![e], pad) == element_markup(e, pad),
{
    assert(seq![e].drop_last() =~= Seq::<Element>::empty());
    assert(seq![e].last() == e);
    assert(elements_markup(Seq::<Element>::empty(), pad) =~= Seq::<char>::empty());
    assert(elements_markup(seq![e], pad) =~= element_markup(e, pad));
}

/// A table's shape is kept: its markup holds one `mtr` for each of its rows,
/// in the rows' order, and nothing else between its tags.
pub proof fn lemma_rows_in_order(rows: Seq<TableRow>, pad: bool)
    ensures
        rows_markup(rows, pad) == concat(each_row_markup(rows, pad)),
    decreases rows.len(),
{
    if rows.len() > 0 {
        lemma_rows_in_order(rows.drop_last(), pad);
        assert(each_row_markup(rows, pad).drop_last() =~= each_row_markup(rows.drop_last(), pad));
    }
}

/// A row's shape is kept: its markup holds one `mtd` for each of its cells,
/// in the cells' order, and nothing else between its tags.
pub proof fn lemma_cells_in_order(cells: Seq<TableCell>, pad: bool)
    ensures
        cells_markup(cells, pad) == concat(each_cell_markup(cells, pad)),
    decreases cells.len(),
{
    if cells.len() > 0 {
        lemma_cells_in_order(cells.drop_last(), pad);
        assert(each_cell_markup(cells, pad).drop_last() =~= each_cell_markup(
            cells.drop_last(),
            pad,
        ));
    }
}

/// A table made of a grid of `M` lines of `N` cells has `M` rows of `N`
/// cells each, the cells of each line in their order.
pub proof fn lemma_grid_shape<const N: usize>(rows: Seq<TableRow>, grid: Seq<[TableCell; N]>)
    requires
        crate::elements::rows_of_grid(rows, grid),
    ensures
        rows.len() == grid.len(),
        forall|i: int| 0 <= i < rows.len() ==> (#[trigger] rows[i]).cells@.len() == N,
        forall|i: int, j: int|
            0 <= i < rows.len() && 0 <= j < N ==> (#[trigger] rows[i].cells@[j]) == grid[i]@[j],
{
    assert forall|i: int| 0 <= i < rows.len() implies (#[trigger] rows[i]).cells@.len() == N by {
        assert(rows[i].cells@ == grid[i]@);
    }
}

/// The `columnlines` attribute of as many lines holds as many words, each of
/// them `none`, `solid` or `dashed`, with single spaces between them.
pub proof fn lemma_column_lines(lines: Vec<ColumnLine>)
    ensures
        crate::elements::TableAttr::ColumnLines(lines).markup() == "columnlines=\""@ + joined(
            line_tokens(lines@),
        ) + "\""@,
        line_tokens(lines@).len() == lines@.len(),
        forall|i: int|
            0 <= i < lines@.len() ==> {
                let word = #[trigger] line_tokens(lines@)[i];
                word == "none"@ || word == "solid"@ || word == "dashed"@
            },
{
}

/// The tag of the subscript and superscript elements goes by the scripts
/// that there are: `msub` exactly where there is no superscript, `msup`
/// exactly where there is no subscript, `msubsup` exactly where there are
/// both. The markup is that tag around the base and the scripts.
pub proof fn lemma_subsup_tag(s: SubSup, pad: bool)
    ensures
        s.tag() == "msub"@ <==> s.sup_elements() is None,
        s.tag() == "msup"@ <==> s.sub_elements() is None,
        s.tag() == "msubsup"@ <==> s.sub_elements() is Some && s.sup_elements() is Some,
        s.sub_elements() is Some || s.sup_elements() is Some,
        exists|content: Seq<char>|
            element_markup(Element::SubSup(s), pad) == #[trigger] container(
                s.tag(),
                attr_texts(s.attributes@),
                pad,
                content,
            ),
{
    reveal_strlit("msub");
    reveal_strlit("msup");
    reveal_strlit("msubsup");
    assert("msub"@.len() == 4 && "msubsup"@.len() == 7);
    assert("msub"@[3] == 'b' && "msup"@[3] == 'p');
    let content = elements_markup(s.base@, pad) + (match s.inner {
        SubSupInner::Sub(sub) => elements_markup(sub@, pad),
        SubSupInner::Sup(sup) => elements_markup(sup@, pad),
        SubSupInner::SubSup { sub, sup } => elements_markup(sub@, pad) + elements_markup(sup@, pad),
    });
    assert(element_markup(Element::SubSup(s), pad) == container(
        s.tag(),
        attr_texts(s.attributes@),
        pad,
        content,
    ));
}

/// The tag of the under and over script elements goes by the scripts that
/// there are: `munder` exactly where there is no over script, `mover`
/// exactly where there is no under script, `munderover` exactly where there
/// are both. The markup is that tag around the expression and the scripts.
pub proof fn lemma_underover_tag(u: UnderOver, pad: bool)
    ensures
        u.tag() == "munder"@ <==> u.over_elements() is None,
        u.tag() == "mover"@ <==> u.under_elements() is None,
        u.tag() == "munderover"@ <==> u.under_elements() is Some && u.over_elements() is Some,
        u.under_elements() is Some || u.over_elements() is Some,
        exists|content: Seq<char>|
            element_markup(Element::UnderOver(u), pad) == #[trigger] container(
                u.tag(),
                attr_texts(u.attributes@),
                true,
                content,
            ),
{
    reveal_strlit("munder");
    reveal_strlit("mover");
    reveal_strlit("munderover");
    assert("munder"@.len() == 6 && "mover"@.len() == 5 && "munderover"@.len() == 10);
    let content = elements_markup(u.expr@, pad) + (match u.inner {
        UnderOverInner::Under(under) => elements_markup(under@, pad),
        UnderOverInner::Over(over) => elements_markup(over@, pad),
        UnderOverInner::UnderOver { under, over } => elements_markup(under@, pad)
            + elements_markup(over@, pad),
    });
    assert(element_markup(Element::UnderOver(u), pad) == container(
        u.tag(),
        attr_texts(u.attributes@),
        true,
        content,
    ));
}

/// A radical whose index is a single number that stands for two is written
/// as `msqrt` around the content, and the index is not written. Any other
/// radical is written as `mroot` around the content and then the index.
pub proof fn lemma_radical_markup(r: Radical, pad: bool)
    ensures
        r.square() ==> element_markup(Element::Radical(r), pad) == container(
            "msqrt"@,
            attr_texts(r.attributes@),
            pad,
            elements_markup(r.content@, pad),
        ),
        !r.square() ==> element_markup(Element::Radical(r), pad) == container(
            "mroot"@,
            attr_texts(r.attributes@),
            pad,
            elements_markup(r.content@, pad) + elements_markup(r.index@, pad),
        ),
        r.index@.len() == 1 ==> elements_markup(r.index@, pad) == element_markup(r.index@[0], pad),
{
    if r.index@.len() == 1 {
        assert(r.index@ =~= seq![r.index@[0]]);
        lemma_elements_single(r.index@[0], pad);
    }
}

/// Without attributes and without padding, a square root is
/// `<msqrt>`, the content and `</msqrt>`, and a radical whose index is a
/// single number that does not stand for two is `<mroot>`, the content, the
/// index as `<mn>`, its numeral and `</mn>`, and `</mroot>`.
pub proof fn lemma_radical_plain(r: Radical, index: Num)
    requires
        r.index@ == seq![Element::Num(index)],
        r.attributes@.len() == 0,
        index.attributes@.len() == 0,
    ensures
        r.square() <==> crate::numeral::denotes_two(index.num@),
        r.square() ==> element_markup(Element::Radical(r), false) == "<msqrt>"@ + elements_markup(
            r.content@,
            false,
        ) + "</msqrt>"@,
        !r.square() ==> element_markup(Element::Radical(r), false) == "<mroot>"@ + elements_markup(
            r.content@,
            false,
        ) + "<mn>"@ + index.num@ + "</mn>"@ + "</mroot>"@,
{
    reveal_strlit("<");
    reveal_strlit(">");
    reveal_strlit("</");
    reveal_strlit("msqrt");
    reveal_strlit("mroot");
    reveal_strlit("mn");
    reveal_strlit("<msqrt>");
    reveal_strlit("</msqrt>");
    reveal_strlit("<mroot>");
    reveal_strlit("</mroot>");
    reveal_strlit("<mn>");
    reveal_strlit("</mn>");
    lemma_radical_markup(r, false);
    let content = elements_markup(r.content@, false);
    assert(attr_texts(r.attributes@) =~= Seq::<Seq<char>>::empty());
    assert(attr_texts(index.attributes@) =~= Seq::<Seq<char>>::empty());
    assert(joined(Seq::<Seq<char>>::empty()) =~= Seq::<char>::empty());
    if r.square() {
        assert(container("msqrt"@, Seq::<Seq<char>>::empty(), false, content) =~= "<msqrt>"@
            + content + "</msqrt>"@);
    } else {
        let num = container("mn"@, Seq::<Seq<char>>::empty(), false, index.num@);
        assert(num =~= "<mn>"@ + index.num@ + "</mn>"@);
        assert(element_markup(Element::Num(index), false) == num);
        assert(container("mroot"@, Seq::<Seq<char>>::empty(), false, content + num) =~= "<mroot>"@
            + content + "<mn>"@ + index.num@ + "</mn>"@ + "</mroot>"@);
    }
}

/// A radical whose index is a single number made from an integer is a square
/// root exactly where the integer is two.
pub proof fn lemma_integer_index(r: Radical, index: Num, n: int)
    requires
        r.index@ == seq![Element::Num(index)],
        index.num@ == crate::text::signed_decimal(n),
    ensures
        r.square() <==> n == 2,
{
    crate::numeral::lemma_decimal_is_two(n);
}

/// What a slot for a single child holds is written as one `mrow` without
/// attributes around what was given, where more than one element was given,
/// and as what was given, where one element or none was: a single element, a
/// row too, is never wrapped.
pub proof fn lemma_slot_markup(held: Seq<Element>, given: Seq<Element>, pad: bool)
    requires
        fills_slot(held, given),
    ensures
        given.len() > 1 ==> elements_markup(held, pad) == container(
            "mrow"@,
            Seq::<Seq<char>>::empty(),
            pad,
            elements_markup(given, pad),
        ),
        given.len() <= 1 ==> held == given,
        held.len() <= 1,
{
    if given.len() > 1 {
        let row = held[0]->Row_0;
        assert(held =~= seq![Element::Row(row)]);
        lemma_elements_single(Element::Row(row), pad);
        assert(attr_texts(row.attr@) =~= Seq::<Seq<char>>::empty());
    }
}

/// Appends the closing tag `</name>`.
pub fn push_close_tag(buf: &mut String, name: &str)
    ensures
        final(buf)@ == old(buf)@ + close_tag(name@),
{
    buf.append("</");
    buf.append(name);
    buf.append(">");
    assert(buf@ =~= old(buf)@ + close_tag(name@));
}

/// Appends an element whose content is text.
pub fn push_text_element<A: TagAttribute>(
    buf: &mut String,
    name: &str,
    attrs: &[A],
    pad: bool,
    text: &str,
)
    ensures
        final(buf)@ == old(buf)@ + container(name@, attr_texts(attrs@), pad, text@),
{
    push_open_tag(buf, name, attrs, pad);
    buf.append(">");
    buf.append(text);
    push_close_tag(buf, name);
    proof {
        lemma_container_written(old(buf)@, name@, attr_texts(attrs@), pad, text@);
    }
}

/// Appends an element without content.
pub fn push_empty_element<A: TagAttribute>(buf: &mut String, name: &str, attrs: &[A], pad: bool)
    ensures
        final(buf)@ == old(buf)@ + empty_element(name@, attr_texts(attrs@), pad),
{
    push_open_tag(buf, name, attrs, pad);
    buf.append("/>");
    assert(buf@ =~= old(buf)@ + empty_element(name@, attr_texts(attrs@), pad));
}

/// Appends an element whose content is a list of elements.
pub fn push_container<A: TagAttribute>(
    buf: &mut String,
    name: &str,
    attrs: &[A],
    pad: bool,
    children: &[Element],
)
    ensures
        final(buf)@ == old(buf)@ + container(
            name@,
            attr_texts(attrs@),
            pad,
            elements_markup(children@, pad),
        ),
    decreases children@, 1int,
{
    push_open_tag(buf, name, attrs, pad);
    buf.append(">");
    push_elements(buf, children, pad);
    push_close_tag(buf, name);
    proof {
        lemma_container_written(
            old(buf)@,
            name@,
            attr_texts(attrs@),
            pad,
            elements_markup(children@, pad),
        );
    }
}

/// Appends the markup of the elements, in their order.
pub fn push_elements(buf: &mut String, elements: &[Element], pad: bool)
    ensures
        final(buf)@ == old(buf)@ + elements_markup(elements@, pad),
    decreases elements@, 0int,
{
    let ghost start = buf@;
    assert(elements@.take(0) =~= Seq::<Element>::empty());
    assert(start + elements_markup(elements@.take(0), pad) =~= start);
    let mut i: usize = 0;
    while i < elements.len()
        invariant
            i <= elements.len(),
            buf@ == start + elements_markup(elements@.take(i as int), pad),
        decreases elements.len() - i,
    {
        push_element(buf, &elements[i], pad);
        proof {
            lemma_elements_take(elements@, i as int, pad);
            assert(buf@ =~= start + elements_markup(elements@.take(i + 1), pad));
        }
        i += 1;
    }
    assert(elements@.take(elements.len() as int) =~= elements@);
}

/// Appends the markup of one element.
pub fn push_element(buf: &mut String, element: &Element, pad: bool)
    ensures
        final(buf)@ == old(buf)@ + element_markup(*element, pad),
    decreases element, 0int,
{
    match element {
        Element::Action(action) => push_action(buf, action, pad),
        Element::Annotation(annotation) => push_annotation(buf, annotation, pad),
        Element::Error(error) => push_error(buf, error, pad),
        Element::Frac(frac) => push_frac(buf, frac, pad),
        Element::Ident(ident) => push_ident(buf, ident, pad),
        Element::Multiscripts(multiscripts) => push_multiscripts(buf, multiscripts, pad),
        Element::Prescripts(prescripts) => push_prescripts(buf, prescripts, pad),
        Element::Num(num) => push_num(buf, num, pad),
        Element::Operator(operator) => push_operator(buf, operator, pad),
        Element::Padded(padded) => push_padded(buf, padded, pad),
        Element::Phantom(phantom) => push_phantom(buf, phantom, pad),
        Element::Radical(radical) => push_radical(buf, radical, pad),
        Element::Row(row) => push_row(buf, row, pad),
        Element::Semantics(semantics) => push_semantics(buf, semantics, pad),
        Element::Space(space) => push_space(buf, space, pad),
        Element::StrLiteral(str_literal) => push_str_literal(buf, str_literal, pad),
        Element::Style(style) => push_style(buf, style, pad),
        Element::SubSup(sub_sup) => push_subsup(buf, sub_sup, pad),
        Element::Table(table) => push_table(buf, table, pad),
        Element::Text(text) => push_text(buf, text, pad),
        Element::UnderOver(under_over) => push_underover(buf, under_over, pad),
    }
}

/// Appends an `maction` element.
pub fn push_action(buf: &mut String, action: &Action, pad: bool)
    ensures
        final(buf)@ == old(buf)@ + element_markup(Element::Action(*action), pad),
    decreases action, 0int,
{
    push_container(buf, "maction", action.attributes.as_slice(), pad, action.content.as_slice());
}

/// Appends an `annotation` element, where the content is text, or an
/// `annotation-xml` element, where it is elements.
pub fn push_annotation(buf: &mut String, annotation: &Annotation, pad: bool)
    ensures
        final(buf)@ == old(buf)@ + element_markup(Element::Annotation(*annotation), pad),
    decreases annotation, 0int,
{
    match &annotation.content {
        AnnotationContent::Text(text) => push_text_element(
            buf,
            "annotation",
            annotation.attributes.as_slice(),
            pad,
            text.as_str(),
        ),
        AnnotationContent::Nested(elements) => push_container(
            buf,
            "annotation-xml",
            annotation.attributes.as_slice(),
            pad,
            elements.as_slice(),
        ),
    }
}

/// Appends an `merror` element.
pub fn push_error(buf: &mut String, error: &Error, pad: bool)
    ensures
        final(buf)@ == old(buf)@ + element_markup(Element::Error(*error), pad),
    decreases error, 0int,
{
    push_container(buf, "merror", error.attributes.as_slice(), pad, error.content.as_slice());
}

/// Appends an `mfrac` element: the numerator, then the denominator.
pub fn push_frac(buf: &mut String, frac: &Frac, pad: bool)
    ensures
        final(buf)@ == old(buf)@ + element_markup(Element::Frac(*frac), pad),
    decreases frac, 0int,
{
    push_open_tag(buf, "mfrac", frac.attributes.as_slice(), pad);
    buf.append(">");
    let ghost head = buf@;
    push_elements(buf, frac.num.as_slice(), pad);
    push_elements(buf, frac.denom.as_slice(), pad);
    let ghost content = elements_markup(frac.num@, pad) + elements_markup(frac.denom@, pad);
    assert(buf@ =~= head + content);
    push_close_tag(buf, "mfrac");
    proof {
        lemma_container_written(old(buf)@, "mfrac"@, attr_texts(frac.attributes@), pad, content);
    }
}

/// Appends an `mi` element.
pub fn push_ident(buf: &mut String, ident: &Ident, pad: bool)
    ensures
        final(buf)@ == old(buf)@ + element_markup(Element::Ident(*ident), pad),
{
    push_text_element(buf, "mi", ident.attributes.as_slice(), pad, ident.ident.as_str());
}

/// Appends an `mmultiscripts` element.
pub fn push_multiscripts(buf: &mut String, multiscripts: &Multiscripts, pad: bool)
    ensures
        final(buf)@ == old(buf)@ + element_markup(Element::Multiscripts(*multiscripts), pad),
    decreases multiscripts, 0int,
{
    push_container(
        buf,
        "mmultiscripts",
        multiscripts.attributes.as_slice(),
        pad,
        multiscripts.content.as_slice(),
    );
}

/// Appends an `mprescripts` element.
pub fn push_prescripts(buf: &mut String, prescripts: &Prescripts, pad: bool)
    ensures
        final(buf)@ == old(buf)@ + element_markup(Element::Prescripts(*prescripts), pad),
{
    push_empty_element(buf, "mprescripts", prescripts.attr.as_slice(), pad);
}

/// Appends an `mn` element.
pub fn push_num(buf: &mut String, num: &Num, pad: bool)
    ensures
        final(buf)@ == old(buf)@ + element_markup(Element::Num(*num), pad),
{
    push_text_element(buf, "mn", num.attributes.as_slice(), pad, num.num.as_str());
}

/// Appends an `mo` element.
pub fn push_operator(buf: &mut String, operator: &Operator, pad: bool)
    ensures
        final(buf)@ == old(buf)@ + element_markup(Element::Operator(*operator), pad),
{
    push_text_element(buf, "mo", operator.attributes.as_slice(), pad, operator.op.as_str());
}

/// Appends an `mpadded` element.
pub fn push_padded(buf: &mut String, padded: &Padded, pad: bool)
    ensures
        final(buf)@ == old(buf)@ + element_markup(Element::Padded(*padded), pad),
    decreases padded, 0int,
{
    push_container(buf, "mpadded", padded.attributes.as_slice(), pad, padded.children.as_slice());
}

/// Appends an `mphantom` element.
pub fn push_phantom(buf: &mut String, phantom: &Phantom, pad: bool)
    ensures
        final(buf)@ == old(buf)@ + element_markup(Element::Phantom(*phantom), pad),
    decreases phantom, 0int,
{
    push_container(
        buf,
        "mphantom",
        phantom.attributes.as_slice(),
        pad,
        phantom.children.as_slice(),
    );
}

/// Appends an `msqrt` element with the content, where the radical is a
/// square root, and else an `mroot` element with the content and then the
/// index.
pub fn push_radical(buf: &mut String, radical: &Radical, pad: bool)
    ensures
        final(buf)@ == old(buf)@ + element_markup(Element::Radical(*radical), pad),
    decreases radical, 0int,
{
    if radical.is_square() {
        push_container(
            buf,
            "msqrt",
            radical.attributes.as_slice(),
            pad,
            radical.content.as_slice(),
        );
    } else {
        push_open_tag(buf, "mroot", radical.attributes.as_slice(), pad);
        buf.append(">");
        let ghost head = buf@;
        push_elements(buf, radical.content.as_slice(), pad);
        push_elements(buf, radical.index.as_slice(), pad);
        let ghost content = elements_markup(radical.content@, pad) + elements_markup(
            radical.index@,
            pad,
        );
        assert(buf@ =~= head + content);
        push_close_tag(buf, "mroot");
        proof {
            lemma_container_written(
                old(buf)@,
                "mroot"@,
                attr_texts(radical.attributes@),
                pad,
                content,
            );
        }
    }
}

/// Appends an `mrow` element.
pub fn push_row(buf: &mut String, row: &Row, pad: bool)
    ensures
        final(buf)@ == old(buf)@ + element_markup(Element::Row(*row), pad),
    decreases row, 0int,
{
    push_container(buf, "mrow", row.attr.as_slice(), pad, row.children.as_slice());
}

/// Appends a `semantics` element.
pub fn push_semantics(buf: &mut String, semantics: &Semantics, pad: bool)
    ensures
        final(buf)@ == old(buf)@ + element_markup(Element::Semantics(*semantics), pad),
    decreases semantics, 0int,
{
    push_container(buf, "semantics", semantics.attr.as_slice(), pad, semantics.children.as_slice());
}

/// Appends an `mspace` element.
pub fn push_space(buf: &mut String, space: &Space, pad: bool)
    ensures
        final(buf)@ == old(buf)@ + element_markup(Element::Space(*space), pad),
{
    push_empty_element(buf, "mspace", space.attr.as_slice(), pad);
}

/// Appends an `ms` element.
pub fn push_str_literal(buf: &mut String, str_literal: &StrLiteral, pad: bool)
    ensures
        final(buf)@ == old(buf)@ + element_markup(Element::StrLiteral(*str_literal), pad),
{
    push_text_element(
        buf,
        "ms",
        str_literal.attr.as_slice(),
        pad,
        str_literal.literal.as_str(),
    );
}

/// Appends an `mstyle` element.
pub fn push_style(buf: &mut String, style: &Style, pad: bool)
    ensures
        final(buf)@ == old(buf)@ + element_markup(Element::Style(*style), pad),
    decreases style, 0int,
{
    push_container(buf, "mstyle", style.attr.as_slice(), pad, style.children.as_slice());
}

/// Appends an `msub`, `msup` or `msubsup` element, as the scripts are that
/// the element has: the base, then the subscript, then the superscript.
pub fn push_subsup(buf: &mut String, sub_sup: &SubSup, pad: bool)
    ensures
        final(buf)@ == old(buf)@ + element_markup(Element::SubSup(*sub_sup), pad),
    decreases sub_sup, 0int,
{
    let name = sub_sup.tag_name();
    push_open_tag(buf, name, sub_sup.attributes.as_slice(), pad);
    buf.append(">");
    let ghost head = buf@;
    push_elements(buf, sub_sup.base.as_slice(), pad);
    let ghost based = buf@;
    match &sub_sup.inner {
        SubSupInner::Sub(sub) => {
            push_elements(buf, sub.as_slice(), pad);
        },
        SubSupInner::Sup(sup) => {
            push_elements(buf, sup.as_slice(), pad);
        },
        SubSupInner::SubSup { sub, sup } => {
            push_elements(buf, sub.as_slice(), pad);
            push_elements(buf, sup.as_slice(), pad);
        },
    }
    let ghost scripts = match &sub_sup.inner {
        SubSupInner::Sub(sub) => elements_markup(sub@, pad),
        SubSupInner::Sup(sup) => elements_markup(sup@, pad),
        SubSupInner::SubSup { sub, sup } => elements_markup(sub@, pad) + elements_markup(
            sup@,
            pad,
        ),
    };
    assert(buf@ =~= based + scripts);
    let ghost content = elements_markup(sub_sup.base@, pad) + scripts;
    assert(buf@ =~= head + content);
    push_close_tag(buf, name);
    proof {
        lemma_container_written(
            old(buf)@,
            name@,
            attr_texts(sub_sup.attributes@),
            pad,
            content,
        );
    }
}

/// Appends an `mtable` element: an `mtr` for each row, and in it an `mtd`
/// for each of the row's cells.
pub fn push_table(buf: &mut String, table: &Table, pad: bool)
    ensures
        final(buf)@ == old(buf)@ + element_markup(Element::Table(*table), pad),
    decreases table, 0int,
{
    push_open_tag(buf, "mtable", table.attributes.as_slice(), pad);
    buf.append(">");
    let ghost start = buf@;
    assert(table.rows@.take(0) =~= Seq::<TableRow>::empty());
    assert(start + rows_markup(table.rows@.take(0), pad) =~= start);
    let mut i: usize = 0;
    while i < table.rows.len()
        invariant
            i <= table.rows.len(),
            buf@ == start + rows_markup(table.rows@.take(i as int), pad),
        decreases table.rows.len() - i,
    {
        push_table_row(buf, &table.rows[i], pad);
        proof {
            lemma_rows_take(table.rows@, i as int, pad);
            assert(buf@ =~= start + rows_markup(table.rows@.take(i + 1), pad));
        }
        i += 1;
    }
    assert(table.rows@.take(table.rows.len() as int) =~= table.rows@);
    push_close_tag(buf, "mtable");
    proof {
        lemma_container_written(
            old(buf)@,
            "mtable"@,
            attr_texts(table.attributes@),
            pad,
            rows_markup(table.rows@, pad),
        );
    }
}

/// Appends an `mtr` element: an `mtd` for each of the row's cells.
pub fn push_table_row(buf: &mut String, row: &TableRow, pad: bool)
    ensures
        final(buf)@ == old(buf)@ + row_markup(*row, pad),
    decreases row, 0int,
{
    push_open_tag(buf, "mtr", row.attr.as_slice(), pad);
    buf.append(">");
    let ghost start = buf@;
    assert(row.cells@.take(0) =~= Seq::<TableCell>::empty());
    assert(start + cells_markup(row.cells@.take(0), pad) =~= start);
    let mut i: usize = 0;
    while i < row.cells.len()
        invariant
            i <= row.cells.len(),
            buf@ == start + cells_markup(row.cells@.take(i as int), pad),
        decreases row.cells.len() - i,
    {
        push_table_cell(buf, &row.cells[i], pad);
        proof {
            lemma_cells_take(row.cells@, i as int, pad);
            assert(buf@ =~= start + cells_markup(row.cells@.take(i + 1), pad));
        }
        i += 1;
    }
    assert(row.cells@.take(row.cells.len() as int) =~= row.cells@);
    push_close_tag(buf, "mtr");
    proof {
        lemma_container_written(
            old(buf)@,
            "mtr"@,
            attr_texts(row.attr@),
            pad,
            cells_markup(row.cells@, pad),
        );
    }
}

/// Appends an `mtd` element.
pub fn push_table_cell(buf: &mut String, cell: &TableCell, pad: bool)
    ensures
        final(buf)@ == old(buf)@ + cell_markup(*cell, pad),
    decreases cell, 0int,
{
    push_container(buf, "mtd", cell.attr.as_slice(), pad, cell.children.as_slice());
}

/// Appends an `mtext` element.
pub fn push_text(buf: &mut String, text: &Text, pad: bool)
    ensures
        final(buf)@ == old(buf)@ + element_markup(Element::Text(*text), pad),
{
    push_text_element(buf, "mtext", text.attr.as_slice(), pad, text.text.as_str());
}

/// Appends an `munder`, `mover` or `munderover` element, as the scripts are
/// that the element has: the expression, then the under script, then the
/// over script. A space follows the tag's name in either layout.
pub fn push_underover(buf: &mut String, under_over: &UnderOver, pad: bool)
    ensures
        final(buf)@ == old(buf)@ + element_markup(Element::UnderOver(*under_over), pad),
    decreases under_over, 0int,
{
    let name = under_over.tag_name();
    push_open_tag(buf, name, under_over.attributes.as_slice(), true);
    buf.append(">");
    let ghost head = buf@;
    push_elements(buf, under_over.expr.as_slice(), pad);
    let ghost based = buf@;
    match &under_over.inner {
        UnderOverInner::Under(under) => {
            push_elements(buf, under.as_slice(), pad);
        },
        UnderOverInner::Over(over) => {
            push_elements(buf, over.as_slice(), pad);
        },
        UnderOverInner::UnderOver { under, over } => {
            push_elements(buf, under.as_slice(), pad);
            push_elements(buf, over.as_slice(), pad);
        },
    }
    let ghost scripts = match &under_over.inner {
        UnderOverInner::Under(under) => elements_markup(under@, pad),
        UnderOverInner::Over(over) => elements_markup(over@, pad),
        UnderOverInner::UnderOver { under, over } => elements_markup(under@, pad) + elements_markup(
            over@,
            pad,
        ),
    };
    assert(buf@ =~= based + scripts);
    let ghost content = elements_markup(under_over.expr@, pad) + scripts;
    assert(buf@ =~= head + content);
    push_close_tag(buf, name);
    proof {
        lemma_container_written(
            old(buf)@,
            name@,
            attr_texts(under_over.attributes@),
            true,
            content,
        );
    }
}

} // verus!
