use alemat::attributes::{Attribute, Dir, MathVariant, ScriptLevel};
use alemat::elements::grouping::Row;
use alemat::elements::radicals::Radical;
use alemat::elements::scripted::{SubSup, UnderOver};
use alemat::elements::{
    Annotation, AnnotationContent, ColumnLine, Element, Elements, Frac, Ident, Num, Operator,
    Table, TableAttr, TableCell,
};
use alemat::{BufMathMlWriter, DisplayAttr, MathMl, MathMlAttr, MathMlFormatter, Writer};

fn everything() -> MathMl {
    MathMl::with_content([
        Element::from(
            Frac::builder()
                .num([
                    Element::from(Ident::from("x")),
                    Element::from(Operator::plus()),
                ])
                .denom(
                    Radical::builder()
                        .index(Num::from(2))
                        .content(Ident::from("y"))
                        .build(),
                )
                .build(),
        ),
        Element::from(
            SubSup::builder()
                .base(Ident::from("a"))
                .supscript(Num::from(2))
                .attr(vec![Attribute::Dir(Dir::RightToLeft)])
                .build(),
        ),
        Element::from(
            UnderOver::builder()
                .expr(Operator::sum())
                .under(Num::from(0))
                .over(Ident::infinity())
                .build(),
        ),
        Element::from(
            Table::from([[TableCell::from(Num::from(1))], [TableCell::default()]]).with_attr(
                vec![
                    TableAttr::ColumnLines(vec![ColumnLine::Solid, ColumnLine::Dashed]),
                    TableAttr::Global(Attribute::ScriptLevel(ScriptLevel::Add(1))),
                ],
            ),
        ),
        Element::from(
            Annotation::builder()
                .content(AnnotationContent::from(Row::default()))
                .build(),
        ),
    ])
    .with_attr(vec![
        MathMlAttr::Display(DisplayAttr::Block),
        MathMlAttr::Global(Attribute::MathVariant(MathVariant::Bold)),
    ])
}

#[test]
fn a_copy_is_equal_and_has_the_same_markup() {
    let math = everything();
    let copy = math.clone();
    assert_eq!(copy, math);
    assert_eq!(copy.render().unwrap(), math.render().unwrap());
    assert_eq!(
        copy.render_with(&mut MathMlFormatter).unwrap(),
        math.render_with(&mut MathMlFormatter).unwrap()
    );
    assert_eq!(
        copy.render().unwrap(),
        "<math display=\"block\" mathvariant=\"bold\"><mfrac><mrow><mi>x</mi><mo>+</mo></mrow>\
         <msqrt><mi>y</mi></msqrt></mfrac><msup dir=\"rtl\"><mi>a</mi><mn>2</mn></msup>\
         <munderover ><mo>\u{2211}</mo><mn>0</mn><mi>\u{221E}</mi></munderover>\
         <mtable columnlines=\"solid dashed\" scriptlevel=\"+1\"><mtr><mtd><mn>1</mn></mtd></mtr>\
         <mtr><mtd></mtd></mtr></mtable><annotation-xml><mrow></mrow></annotation-xml></math>"
    );
}

#[test]
fn a_copy_does_not_change_with_what_it_was_made_from() {
    let mut elements = Elements::one(Element::from(Ident::from("x")));
    let copy = elements.clone();
    elements.push(Element::from(Ident::from("y")));
    assert_eq!(copy.len(), 1);
    assert_eq!(elements.len(), 2);
    let mut num = Num::from(1);
    let kept = num.clone();
    num.add_attr(vec![Attribute::Id("n".into())]);
    assert!(kept.attributes().is_empty());
    assert_ne!(kept, num);
}

#[test]
fn a_copy_of_a_writer_has_what_was_written() {
    let mut writer = BufMathMlWriter::default();
    writer.write_str("abc").unwrap();
    let mut copy = writer.clone();
    writer.write_str("d").unwrap();
    assert_eq!(copy.finish(), "abc");
    assert_eq!(writer.finish(), "abcd");
}

#[test]
fn a_copy_of_a_builder_builds_the_same() {
    let half = Frac::builder()
        .num(Num::from(1))
        .attr(vec![alemat::elements::FracAttr::LineThickness("2px".into())]);
    let other = half.clone();
    let a = half.denom(Num::from(2)).build();
    let b = other.denom(Num::from(3)).build();
    assert_eq!(a.num(), b.num());
    assert_eq!(a.attributes(), b.attributes());
    assert_ne!(a, b);
    let scripts = SubSup::builder().subscript(Num::from(1));
    let copy = scripts.clone();
    assert_eq!(
        copy.base(Ident::from("x")).build(),
        scripts.base(Ident::from("x")).build()
    );
}

#[test]
fn a_builder_begins_empty() {
    let built = alemat::elements::FracBuilder::default()
        .num(Ident::from("a"))
        .denom(Ident::from("b"))
        .build();
    assert_eq!(
        built,
        Frac::builder()
            .num(Ident::from("a"))
            .denom(Ident::from("b"))
            .build()
    );
    assert!(built.attributes().is_empty());
    let ident = alemat::elements::IdentBuilder::default().ident("x").build();
    assert_eq!(ident, Ident::from("x"));
}
