use alemat::attributes::Attribute;
use alemat::elements::grouping::{Action, Error, Phantom, Prescripts, Row, Style};
use alemat::elements::radicals::Radical;
use alemat::elements::scripted::{Multiscripts, SubSup, UnderOver};
use alemat::elements::{
    Annotation, AnnotationContent, Element, Elements, Frac, Ident, IntoElements, Num, Operator,
    Padded, PaddedAttr, Semantics, Space, SpaceAttr, StrLiteral, Text,
};
use alemat::{BufMathMlWriter, MathMl, MathMlFormatter, Renderer, Writer};

fn compact(element: Element) -> String {
    let mut writer = BufMathMlWriter::default();
    writer.write_element(&element).unwrap();
    writer.finish()
}

fn padded(element: Element) -> String {
    MathMlFormatter.render_element(&element).unwrap()
}

fn x() -> Element {
    Element::from(Ident::from("x"))
}

fn y() -> Element {
    Element::from(Ident::from("y"))
}

#[test]
fn more_than_one_child_of_a_fraction_is_wrapped_in_one_row() {
    let frac = Frac::builder().num([x(), y()]).denom([y(), x(), y()]).build();
    assert_eq!(frac.num().len(), 1);
    assert_eq!(frac.denom().len(), 1);
    assert!(matches!(&frac.num()[0], Element::Row(row) if row.children().len() == 2));
    assert!(matches!(&frac.denom()[0], Element::Row(row) if row.children().len() == 3));
    assert_eq!(
        compact(Element::from(frac)),
        "<mfrac><mrow><mi>x</mi><mi>y</mi></mrow><mrow><mi>y</mi><mi>x</mi><mi>y</mi></mrow>\
         </mfrac>"
    );
}

#[test]
fn a_single_child_is_never_wrapped() {
    let frac = Frac::builder().num(x()).denom([y()]).build();
    assert!(matches!(&frac.num()[0], Element::Ident(_)));
    assert!(matches!(&frac.denom()[0], Element::Ident(_)));
    assert_eq!(
        compact(Element::from(frac)),
        "<mfrac><mi>x</mi><mi>y</mi></mfrac>"
    );
}

#[test]
fn a_row_is_never_wrapped_again() {
    let row = Row::from([x(), y()]).with_attr(vec![Attribute::Id("r".into())]);
    let frac = Frac::builder().num(row).denom(y()).build();
    assert_eq!(
        compact(Element::from(frac)),
        "<mfrac><mrow id=\"r\"><mi>x</mi><mi>y</mi></mrow><mi>y</mi></mfrac>"
    );
}

#[test]
fn no_child_at_all_is_kept_as_it_is() {
    let frac = Frac::builder()
        .num(Vec::<Element>::new())
        .denom(Elements::default())
        .build();
    assert!(frac.num().is_empty());
    assert!(frac.denom().is_empty());
    assert_eq!(compact(Element::from(frac)), "<mfrac></mfrac>");
}

#[test]
fn a_later_value_replaces_an_earlier_one() {
    let frac = Frac::builder().num(x()).denom(x()).num(y()).build();
    assert_eq!(
        compact(Element::from(frac)),
        "<mfrac><mi>y</mi><mi>x</mi></mfrac>"
    );
}

#[test]
fn a_fraction_from_a_pair_is_not_wrapped() {
    let frac = Frac::from(([x(), y()], y()));
    assert_eq!(frac.num().len(), 2);
    assert_eq!(frac.denom().len(), 1);
    assert!(frac.attributes().is_empty());
}

#[test]
fn the_scripts_choose_the_tag_of_sub_and_sup() {
    let sub = SubSup::builder().base(x()).subscript(y()).build();
    assert!(sub.sub().is_some() && sub.sup().is_none());
    assert_eq!(sub.tag_name(), "msub");
    let sup = SubSup::builder().base(x()).supscript(y()).build();
    assert!(sup.sub().is_none() && sup.sup().is_some());
    assert_eq!(sup.tag_name(), "msup");
    let both = SubSup::builder().supscript(y()).base(x()).subscript(x()).build();
    assert!(both.sub().is_some() && both.sup().is_some());
    assert_eq!(both.tag_name(), "msubsup");
    assert_eq!(compact(Element::from(sub)), "<msub><mi>x</mi><mi>y</mi></msub>");
    assert_eq!(compact(Element::from(sup)), "<msup><mi>x</mi><mi>y</mi></msup>");
    assert_eq!(
        compact(Element::from(both)),
        "<msubsup><mi>x</mi><mi>x</mi><mi>y</mi></msubsup>"
    );
}

#[test]
fn the_scripts_choose_the_tag_of_under_and_over() {
    let under = UnderOver::builder().expr(x()).under(y()).build();
    assert!(under.under().is_some() && under.over().is_none());
    let over = UnderOver::builder().over(y()).expr(x()).build();
    assert!(over.under().is_none() && over.over().is_some());
    let both = UnderOver::builder().over(y()).under(x()).expr(x()).build();
    assert_eq!(both.expr().len(), 1);
    assert_eq!(padded(Element::from(under)), "<munder ><mi >x</mi><mi >y</mi></munder>");
    assert_eq!(padded(Element::from(over)), "<mover ><mi >x</mi><mi >y</mi></mover>");
    assert_eq!(
        padded(Element::from(both)),
        "<munderover ><mi >x</mi><mi >x</mi><mi >y</mi></munderover>"
    );
}

#[test]
fn the_base_and_the_scripts_are_wrapped_like_other_slots() {
    let sub_sup = SubSup::builder()
        .base([x(), y()])
        .subscript([x(), x()])
        .supscript([y(), y()])
        .attr(vec![Attribute::Id("s".into())])
        .build();
    assert_eq!(sub_sup.base().len(), 1);
    assert_eq!(sub_sup.attributes().len(), 1);
    assert_eq!(
        compact(Element::from(sub_sup)),
        "<msubsup id=\"s\"><mrow><mi>x</mi><mi>y</mi></mrow><mrow><mi>x</mi><mi>x</mi></mrow>\
         <mrow><mi>y</mi><mi>y</mi></mrow></msubsup>"
    );
}

#[test]
fn a_square_root_keeps_its_content_and_drops_its_index() {
    let radical = Radical::builder()
        .content([x(), y()])
        .index(Num::from(2))
        .build();
    assert_eq!(radical.content().len(), 2);
    assert_eq!(
        compact(Element::from(radical)),
        "<msqrt><mi>x</mi><mi>y</mi></msqrt>"
    );
}

#[test]
fn any_other_root_has_one_child_and_then_its_index() {
    let cube = Radical::builder()
        .index(Num::from(3))
        .content(x())
        .attr(vec![Attribute::Id("r".into())])
        .build();
    assert_eq!(cube.attributes().len(), 1);
    assert_eq!(
        compact(Element::from(cube)),
        "<mroot id=\"r\"><mi>x</mi><mn>3</mn></mroot>"
    );
    let wrapped = Radical::builder().index(Ident::from("n")).content([x(), y()]).build();
    assert_eq!(wrapped.content().len(), 1);
    assert_eq!(
        padded(Element::from(wrapped)),
        "<mroot ><mrow ><mi >x</mi><mi >y</mi></mrow><mi >n</mi></mroot>"
    );
}

#[test]
fn elements_keep_their_order_and_their_repetitions() {
    let a = || Element::from(Ident::from("a"));
    let b = || Element::from(Num::from(1));
    let c = || Element::from(Operator::plus());
    let mut writer = BufMathMlWriter::default();
    writer.write_elements(&[a(), b(), c()]).unwrap();
    assert_eq!(writer.finish(), "<mi>a</mi><mn>1</mn><mo>+</mo>");
    writer.write_elements(&[c(), b(), a()]).unwrap();
    assert_eq!(writer.finish(), "<mo>+</mo><mn>1</mn><mi>a</mi>");
    writer.write_elements(&[a(), a()]).unwrap();
    assert_eq!(writer.finish(), "<mi>a</mi><mi>a</mi>");
    writer.write_elements(&[]).unwrap();
    assert_eq!(writer.finish(), "");
    assert_eq!(
        MathMlFormatter.render_elements(&[a(), a(), b()]).unwrap(),
        "<mi >a</mi><mi >a</mi><mn >1</mn>"
    );
}

#[test]
fn a_fraction_in_a_document() {
    let math = MathMl::with_content(Frac::builder().num(x()).denom(y()).build());
    assert_eq!(
        math.render().unwrap(),
        "<math><mfrac><mi>x</mi><mi>y</mi></mfrac></math>"
    );
    assert_eq!(
        math.render_with(&mut MathMlFormatter).unwrap(),
        "<math ><mfrac ><mi >x</mi><mi >y</mi></mfrac></math>"
    );
}

#[test]
fn plus_is_a_single_operator_with_a_plus_sign() {
    let plus = Operator::plus();
    assert_eq!(plus.op(), "\u{002B}");
    assert_eq!(plus.op().chars().count(), 1);
    assert!(plus.attributes().is_empty());
    assert_eq!(compact(Element::from(plus)), "<mo>+</mo>");
}

#[test]
fn the_grouping_elements() {
    assert_eq!(
        compact(Element::from(Action::with_mathml([x(), y()]))),
        "<maction><mi>x</mi><mi>y</mi></maction>"
    );
    assert_eq!(
        compact(Element::from(Action::from(Elements(vec![x()])))),
        "<maction><mi>x</mi></maction>"
    );
    assert_eq!(
        compact(Element::from(Error::with_mathml(x()))),
        "<merror><mi>x</mi></merror>"
    );
    assert_eq!(compact(Element::from(Error::from(x()))), "<merror><mi>x</mi></merror>");
    assert_eq!(
        compact(Element::from(Error::from(Elements(vec![x(), y()])))),
        "<merror><mi>x</mi><mi>y</mi></merror>"
    );
    let mut phantom = Phantom::from([x()]);
    phantom.add_attr(vec![Attribute::Id("p".into())]);
    assert_eq!(phantom.children().len(), 1);
    assert_eq!(phantom.attributes().len(), 1);
    assert_eq!(
        compact(Element::from(phantom)),
        "<mphantom id=\"p\"><mi>x</mi></mphantom>"
    );
    let mut style = Style::from(Elements(vec![x()]));
    style.add_attr(vec![Attribute::MathSize("2em".into())]);
    assert_eq!(style.children().len(), 1);
    assert_eq!(style.attributes().len(), 1);
    assert_eq!(
        compact(Element::from(style)),
        "<mstyle mathsize=\"2em\"><mi>x</mi></mstyle>"
    );
    let mut row = Row::default();
    assert!(row.children().is_empty() && row.attributes().is_empty());
    row.add_attr(vec![Attribute::Id("r".into())]);
    assert_eq!(compact(Element::from(row)), "<mrow id=\"r\"></mrow>");
    let mut pad = Padded::from(Elements(vec![x()]));
    pad.add_attr(vec![PaddedAttr::from(Attribute::Id("d".into()))]);
    assert_eq!(pad.children().len(), 1);
    assert_eq!(pad.attributes().len(), 1);
    assert_eq!(
        compact(Element::from(pad)),
        "<mpadded id=\"d\"><mi>x</mi></mpadded>"
    );
}

#[test]
fn the_elements_without_content() {
    assert_eq!(compact(Element::from(Space::default())), "<mspace/>");
    assert_eq!(padded(Element::from(Space::default())), "<mspace />");
    let mut space = Space::default();
    space.add_attr(vec![
        SpaceAttr::Width("1em".into()),
        SpaceAttr::from(Attribute::Id("s".into())),
    ]);
    assert_eq!(space.attributes().len(), 2);
    assert_eq!(
        compact(Element::from(space)),
        "<mspace width=\"1em\" id=\"s\"/>"
    );
    assert_eq!(compact(Element::from(Prescripts::default())), "<mprescripts/>");
    let prescripts = Prescripts::with_attr(vec![Attribute::Id("p".into())]);
    assert_eq!(prescripts.attributes().len(), 1);
    assert_eq!(
        padded(Element::from(prescripts)),
        "<mprescripts id=\"p\"/>"
    );
}

#[test]
fn the_elements_with_text() {
    let mut text = Text::from(String::from("a b"));
    text.add_attr(vec![Attribute::Id("t".into())]);
    assert_eq!(text.text(), "a b");
    assert_eq!(text.attributes().len(), 1);
    assert_eq!(compact(Element::from(text)), "<mtext id=\"t\">a b</mtext>");
    let literal =
        StrLiteral::from(String::from("s")).with_attr(vec![Attribute::Id("l".into())]);
    assert_eq!(literal.content(), "s");
    assert_eq!(literal.attributes().len(), 1);
    assert_eq!(compact(Element::from(literal)), "<ms id=\"l\">s</ms>");
    let mut num = Num::from(12).with_attr(vec![Attribute::Id("n".into())]);
    num.add_attr(vec![Attribute::Class("c".into())]);
    assert_eq!(
        compact(Element::from(num)),
        "<mn id=\"n\" class=\"c\">12</mn>"
    );
    let ident = Ident::from(String::from("v"));
    assert_eq!(ident.ident(), "v");
    assert!(ident.attributes().is_empty());
    let operator = Operator::from(String::from("-"));
    assert_eq!(operator.op(), "-");
}

#[test]
fn the_annotated_elements() {
    let text = Annotation::builder()
        .content(AnnotationContent::from(String::from("x")))
        .build();
    assert!(matches!(text.content(), AnnotationContent::Text(t) if t == "x"));
    assert!(text.attributes().is_empty());
    let nested = Annotation::builder()
        .content(AnnotationContent::from(x()))
        .build();
    assert!(matches!(nested.content(), AnnotationContent::Nested(e) if e.len() == 1));
    let semantics = Semantics::builder()
        .content([x(), Element::from(text), Element::from(nested)])
        .attr(vec![Attribute::Id("s".into())])
        .build();
    assert_eq!(semantics.children().len(), 3);
    assert_eq!(semantics.attributes().len(), 1);
    assert_eq!(
        compact(Element::from(semantics)),
        "<semantics id=\"s\"><mi>x</mi><annotation>x</annotation><annotation-xml><mi>x</mi>\
         </annotation-xml></semantics>"
    );
}

#[test]
fn multiscripts_keep_what_they_are_given() {
    let scripts = Multiscripts::builder()
        .content([x(), y(), Element::from(Prescripts::default()), y()])
        .attr(vec![Attribute::Id("m".into())])
        .build();
    assert_eq!(scripts.content().len(), 4);
    assert_eq!(scripts.attributes().len(), 1);
    assert_eq!(
        compact(Element::from(scripts)),
        "<mmultiscripts id=\"m\"><mi>x</mi><mi>y</mi><mprescripts/><mi>y</mi></mmultiscripts>"
    );
    let plain = Multiscripts::from(Elements(vec![x()]));
    assert!(plain.attributes().is_empty());
}

#[test]
fn conversions_into_elements() {
    assert_eq!(x().into_elements().len(), 1);
    assert_eq!(Ident::from("x").into_elements().len(), 1);
    assert_eq!([x(), y()].into_elements().len(), 2);
    assert_eq!(vec![x(), y(), x()].into_elements().len(), 3);
    assert!(Elements::default().into_elements().is_empty());
    let mut elements = Elements::one(x());
    elements.push(y());
    let mut more = Elements(vec![x()]);
    elements.append(&mut more);
    assert!(more.is_empty());
    assert_eq!(elements.as_slice().len(), 3);
    let inner = elements.into_inner();
    assert!(matches!(&inner[1], Element::Ident(i) if i.ident() == "y"));
}

#[test]
fn the_document() {
    let mut math = MathMl::default();
    assert!(math.is_empty());
    assert_eq!(math.len(), 0);
    assert_eq!(math.render().unwrap(), "<math></math>");
    assert_eq!(math.render_with(&mut MathMlFormatter).unwrap(), "<math ></math>");
    math.append_content(x());
    math.append_content([y(), x()]);
    assert_eq!(math.len(), 3);
    assert!(!math.is_empty());
    assert_eq!(math.content().len(), 3);
    assert_eq!(
        math.render().unwrap(),
        "<math><mi>x</mi><mi>y</mi><mi>x</mi></math>"
    );
    let kept = math.map(|elements| elements);
    assert_eq!(kept.len(), 3);
    let dropped = kept.map(|_| Elements::default());
    assert!(dropped.is_empty());
}

#[test]
fn the_writer_keeps_what_it_has_written_until_it_is_taken() {
    let mut writer = BufMathMlWriter::default();
    assert_eq!(writer.buffer(), "");
    std::fmt::Write::write_str(&mut writer, "").unwrap();
    writer.write_str("a").unwrap();
    writer.write_num(&Num::from(1)).unwrap();
    assert_eq!(writer.buffer(), "a<mn>1</mn>");
    let rendered = writer.render_num(&Num::from(2)).unwrap();
    assert_eq!(rendered, "<mn>2</mn>");
    assert_eq!(writer.buffer(), "a<mn>1</mn>");
    assert_eq!(
        writer.render_attr(&Attribute::Id("i".into())).unwrap(),
        "id=\"i\""
    );
    assert_eq!(writer.render_element(&x()).unwrap(), "<mi>x</mi>");
    assert_eq!(writer.buffer(), "a<mn>1</mn>");
    let math = MathMl::with_content(x());
    assert_eq!(
        writer.render_mathml(&math).unwrap(),
        "a<mn>1</mn><math><mi>x</mi></math>"
    );
    assert_eq!(writer.buffer(), "");
    math.write(&mut writer).unwrap().write_str("!").unwrap();
    assert_eq!(writer.finish(), "<math><mi>x</mi></math>!");
    assert_eq!(writer.finish(), "");
    writer.write_mathml(&math).unwrap();
    assert_eq!(writer.into_inner(), "<math><mi>x</mi></math>");
}

struct Silent {
    calls: usize,
}

impl Writer for Silent {
    type Buffer = usize;
    type Error = ();

    fn write_ident(&mut self, _ident: &Ident) -> Result<(), ()> {
        self.calls += 1;
        Ok(())
    }

    fn write_num(&mut self, _num: &Num) -> Result<(), ()> {
        Err(())
    }

    fn buffer(&self) -> &usize {
        &self.calls
    }

    fn finish(&mut self) -> usize {
        std::mem::take(&mut self.calls)
    }

    fn into_inner(self) -> usize {
        self.calls
    }
}

#[test]
fn a_writer_writes_nothing_for_the_kinds_that_it_has_no_method_for() {
    let mut silent = Silent { calls: 0 };
    let math = MathMl::with_content([x(), Element::from(Operator::plus()), y()]);
    assert!(math.write(&mut silent).is_ok());
    assert_eq!(*silent.buffer(), 2);
    assert!(silent.write_operator(&Operator::plus()).is_ok());
    assert!(silent.write_attr(&Attribute::Id("i".into())).is_ok());
    assert_eq!(silent.finish(), 2);
}

#[test]
fn a_writer_stops_at_the_first_element_that_fails() {
    let mut silent = Silent { calls: 0 };
    let math = MathMl::with_content([x(), Element::from(Num::from(1)), y()]);
    assert!(math.write(&mut silent).is_err());
    assert_eq!(silent.into_inner(), 1);
}

#[test]
fn a_list_of_elements_can_be_used_as_the_vector_that_it_holds() {
    let mut elements = Elements::default();
    elements.extend([x(), y()]);
    elements.insert(0, Element::from(Num::from(0)));
    assert_eq!(elements.iter().count(), 3);
    assert!(matches!(elements.first(), Some(Element::Num(_))));
    assert!(matches!(elements.last(), Some(Element::Ident(i)) if i.ident() == "y"));
    assert_eq!(
        MathMl::with_content(elements).render().unwrap(),
        "<math><mn>0</mn><mi>x</mi><mi>y</mi></math>"
    );
}
