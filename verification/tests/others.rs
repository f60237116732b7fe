use alemat::attributes::Attribute;
use alemat::elements::grouping::Row;
use alemat::elements::{
    Annotation, AnnotationContent, ColumnLine, Element, Frac, Ident, Num, Operator, Padded,
    PaddedAttr, Space, SpaceAttr, StrLiteral, Table, TableAttr, TableCell, Text,
};
use alemat::{MathMl, MathMlFormatter};

#[test]
fn annotation() {
    let out = MathMl::with_content(
        Annotation::builder()
            .content(AnnotationContent::from(String::from(
                "This is an annotation",
            )))
            .build(),
    )
    .render();

    assert_eq!(
        out.unwrap(),
        "<math><annotation>This is an annotation</annotation></math>"
    );
}

#[test]
fn annotation_xml() {
    let out = MathMl::with_content(
        Annotation::builder()
            .content(AnnotationContent::from([
                Element::from(Ident::from("x")),
                Element::from(Operator::plus()),
                Element::from(Ident::from("y")),
            ]))
            .build(),
    )
    .render();

    assert_eq!(
        out.unwrap(),
        "<math><annotation-xml><mi>x</mi><mo>+</mo><mi>y</mi></annotation-xml></math>"
    );
}

#[test]
fn map_in_row() {
    let out = MathMl::with_content(
        Frac::builder()
            .num(Ident::from("x"))
            .denom(Ident::from("y"))
            .build(),
    )
    .map(Row::from)
    .render();

    assert_eq!(
        out.unwrap(),
        "<math><mrow><mfrac><mi>x</mi><mi>y</mi></mfrac></mrow></math>"
    );
}

#[test]
fn frac() {
    let out = MathMl::with_content(
        Frac::builder()
            .num(Ident::from("x"))
            .denom(Ident::from("y"))
            .build(),
    )
    .render();

    assert_eq!(
        out.unwrap(),
        "<math><mfrac><mi>x</mi><mi>y</mi></mfrac></math>"
    );
}

#[test]
fn ident() {
    let out = MathMl::with_content(Ident::big_psi()).render_with(&mut MathMlFormatter);

    assert_eq!(out.unwrap(), "<math ><mi >\u{03A8}</mi></math>");
}

#[test]
fn number() {
    let out = MathMl::with_content(Num::from(1)).render();

    assert_eq!(out.unwrap(), "<math><mn>1</mn></math>");
}

#[test]
fn operator_product() {
    let out = MathMl::with_content(Operator::prod()).render();

    assert_eq!(out.unwrap(), "<math><mo>\u{220F}</mo></math>");
}

#[test]
fn operator_iff() {
    let out = MathMl::with_content(Operator::iff()).render();

    assert_eq!(out.unwrap(), "<math><mo>\u{21D4}</mo></math>");
}

#[test]
fn padded() {
    let out = MathMl::with_content(
        Padded::from([Element::from(
            Frac::builder()
                .num(Num::from(23456))
                .denom(Num::from(78))
                .build(),
        )])
        .with_attr([
            PaddedAttr::LeftSpace("2em".into()),
            PaddedAttr::VerticalOffset("-1em".into()),
            PaddedAttr::Height("1em".into()),
            PaddedAttr::Depth("3em".into()),
            PaddedAttr::Width("7em".into()),
            PaddedAttr::Global(Attribute::Style("background: lightblue;".into())),
        ]),
    )
    .render_with(&mut MathMlFormatter);

    assert_eq!(
        out.unwrap(),
        "<math ><mpadded lspace=\"2em\" voffset=\"-1em\" height=\"1em\" depth=\"3em\" \
         width=\"7em\" style=\"background: lightblue;\"><mfrac ><mn >23456</mn><mn >78</mn>\
         </mfrac></mpadded></math>"
    );
}

#[test]
fn str_lit() {
    let out =
        MathMl::with_content(StrLiteral::from("Hello there")).render_with(&mut MathMlFormatter);

    assert_eq!(out.unwrap(), "<math ><ms >Hello there</ms></math>");
}

#[test]
fn mspace() {
    let out = MathMl::with_content([
        Element::from(Num::from(1)),
        Element::from(Space::default().with_attr([
            SpaceAttr::Width("1em".into()),
            SpaceAttr::Global(Attribute::Style("border-top: 1px solid blue".into())),
        ])),
        Element::from(
            Frac::builder()
                .num(Row::from([
                    Element::from(Num::from(2)),
                    Element::from(Space::default().with_attr([
                        SpaceAttr::Depth("1em".into()),
                        SpaceAttr::Global(Attribute::Style(
                            "border-left: 1px solid blue".into(),
                        )),
                    ])),
                ]))
                .denom(Row::from([
                    Element::from(Num::from(3)),
                    Element::from(Space::default().with_attr([
                        SpaceAttr::Height("2em".into()),
                        SpaceAttr::Global(Attribute::Style(
                            "border-left: 1px solid blue".into(),
                        )),
                    ])),
                ]))
                .build(),
        ),
    ])
    .render();

    assert_eq!(
        out.unwrap(),
        "<math><mn>1</mn><mspace width=\"1em\" style=\"border-top: 1px solid blue\"/><mfrac>\
         <mrow><mn>2</mn><mspace depth=\"1em\" style=\"border-left: 1px solid blue\"/></mrow>\
         <mrow><mn>3</mn><mspace height=\"2em\" style=\"border-left: 1px solid blue\"/></mrow>\
         </mfrac></math>"
    );
}

fn three_by_three() -> Table {
    Table::from([
        [
            TableCell::from(Num::from(1)),
            TableCell::from(Num::from(2)),
            TableCell::from(Num::from(3)),
        ],
        [
            TableCell::from(Num::from(4)),
            TableCell::from(Num::from(5)),
            TableCell::from(Num::from(6)),
        ],
        [
            TableCell::from(Num::from(7)),
            TableCell::from(Num::from(8)),
            TableCell::from(Num::from(9)),
        ],
    ])
}

fn a_half_is(left: Operator, table: Table, right: Operator) -> MathMl {
    MathMl::with_content([
        Element::from(
            Frac::builder()
                .num(Ident::from("A"))
                .denom(Num::from(2))
                .build(),
        ),
        Element::from(Operator::eq()),
        Element::from(Row::from([
            Element::from(left),
            Element::from(table),
            Element::from(right),
        ])),
    ])
}

const ROWS: &str = "<mtr ><mtd ><mn >1</mn></mtd><mtd ><mn >2</mn></mtd><mtd ><mn >3</mn></mtd>\
                    </mtr><mtr ><mtd ><mn >4</mn></mtd><mtd ><mn >5</mn></mtd><mtd ><mn >6</mn>\
                    </mtd></mtr><mtr ><mtd ><mn >7</mn></mtd><mtd ><mn >8</mn></mtd><mtd >\
                    <mn >9</mn></mtd></mtr>";

#[test]
fn matrix() {
    let out = a_half_is(Operator::lparens(), three_by_three(), Operator::rparens())
        .render_with(&mut MathMlFormatter);

    assert_eq!(
        out.unwrap(),
        format!(
            "<math ><mfrac ><mi >A</mi><mn >2</mn></mfrac><mo >=</mo><mrow ><mo >(</mo>\
             <mtable >{}</mtable><mo >)</mo></mrow></math>",
            ROWS
        )
    );
}

#[test]
fn matrix_augmented() {
    let out = a_half_is(
        Operator::lparens(),
        three_by_three().with_attr([TableAttr::ColumnLines(vec![
            ColumnLine::NoLine,
            ColumnLine::Solid,
            ColumnLine::NoLine,
        ])]),
        Operator::rparens(),
    )
    .render_with(&mut MathMlFormatter);

    assert_eq!(
        out.unwrap(),
        format!(
            "<math ><mfrac ><mi >A</mi><mn >2</mn></mfrac><mo >=</mo><mrow ><mo >(</mo>\
             <mtable columnlines=\"none solid none\">{}</mtable><mo >)</mo></mrow></math>",
            ROWS
        )
    );
}

#[test]
fn matrix_square() {
    let out = a_half_is(Operator::lbracket(), three_by_three(), Operator::rbracket())
        .render_with(&mut MathMlFormatter);

    assert_eq!(
        out.unwrap(),
        format!(
            "<math ><mfrac ><mi >A</mi><mn >2</mn></mfrac><mo >=</mo><mrow ><mo >[</mo>\
             <mtable >{}</mtable><mo >]</mo></mrow></math>",
            ROWS
        )
    );
}

#[test]
fn text() {
    let out = MathMl::with_content(Text::from("Hello world")).render_with(&mut MathMlFormatter);

    assert_eq!(out.unwrap(), "<math ><mtext >Hello world</mtext></math>");
}
