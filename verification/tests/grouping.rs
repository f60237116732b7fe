use alemat::attributes::Attribute;
use alemat::elements::grouping::{Action, ActionAttr, Error, Phantom, Prescripts, Row, Style};
use alemat::elements::scripted::{Multiscripts, SubSup};
use alemat::elements::{Element, Frac, Ident, Num, OpForm, Operator, OperatorAttr};
use alemat::{MathMl, MathMlFormatter};

#[test]
fn action() {
    let output = MathMl::with_content(
        Action::builder()
            .content(Ident::from("x"))
            .attr([ActionAttr::Global(Attribute::Id(String::from(
                "action-id",
            )))])
            .build(),
    )
    .render_with(&mut MathMlFormatter);

    assert_eq!(
        output.unwrap(),
        "<math ><maction id=\"action-id\"><mi >x</mi></maction></math>"
    );
}

#[test]
fn merror() {
    let output = MathMl::with_content(
        Error::builder()
            .content(Row::from([
                Element::from(Ident::from("x")),
                Element::from(Operator::from("+")),
                Element::from(Ident::from("y")),
            ]))
            .build(),
    )
    .render_with(&mut MathMlFormatter);

    assert_eq!(
        output.unwrap(),
        "<math ><merror ><mrow ><mi >x</mi><mo >+</mo><mi >y</mi></mrow></merror></math>"
    );
}

#[test]
fn mmultiscripts() {
    let output = MathMl::with_content(
        Multiscripts::builder()
            .content([
                Element::from(Num::from(1)),
                Element::from(Num::from(2)),
                Element::from(Num::from(3)),
                Element::from(Row::default()),
                Element::from(Num::from(5)),
                Element::from(Prescripts::default()),
                Element::from(Num::from(6)),
                Element::from(Row::default()),
                Element::from(Num::from(8)),
                Element::from(Num::from(9)),
            ])
            .build(),
    )
    .render_with(&mut MathMlFormatter);

    assert_eq!(
        output.unwrap(),
        "<math ><mmultiscripts ><mn >1</mn><mn >2</mn><mn >3</mn><mrow ></mrow><mn >5</mn>\
         <mprescripts /><mn >6</mn><mrow ></mrow><mn >8</mn><mn >9</mn></mmultiscripts></math>"
    );
}

#[test]
fn mphantom() {
    let output = MathMl::with_content(
        Frac::builder()
            .num(Row::from([
                Element::from(Ident::from("x")),
                Element::from(Operator::from("+")),
                Element::from(Ident::from("y")),
                Element::from(Operator::from("+")),
                Element::from(Ident::from("z")),
            ]))
            .denom(Row::from([
                Element::from(Ident::from("x")),
                Element::from(Phantom::from([
                    Element::from(
                        Operator::builder()
                            .op("+")
                            .attr([OperatorAttr::Form(OpForm::Infix)])
                            .build(),
                    ),
                    Element::from(Ident::from("y")),
                ])),
                Element::from(Operator::from("+")),
                Element::from(Ident::from("z")),
            ]))
            .build(),
    )
    .render_with(&mut MathMlFormatter);

    assert_eq!(
        output.unwrap(),
        "<math ><mfrac ><mrow ><mi >x</mi><mo >+</mo><mi >y</mi><mo >+</mo><mi >z</mi></mrow>\
         <mrow ><mi >x</mi><mphantom ><mo form=\"infix\">+</mo><mi >y</mi></mphantom><mo >+</mo>\
         <mi >z</mi></mrow></mfrac></math>"
    );
}

#[test]
fn mrow() {
    let output = MathMl::with_content(Row::from([
        Element::from(Ident::from("x")),
        Element::from(Operator::from("+")),
        Element::from(Num::from(42)),
    ]))
    .render_with(&mut MathMlFormatter);

    assert_eq!(
        output.unwrap(),
        "<math ><mrow ><mi >x</mi><mo >+</mo><mn >42</mn></mrow></math>"
    );
}

#[test]
fn mstyle() {
    let output = MathMl::with_content(
        Style::from([Element::from(
            SubSup::builder()
                .base(Ident::from("x"))
                .subscript(Ident::from("i"))
                .build(),
        )])
        .with_attr([Attribute::MathColor(String::from("red"))]),
    )
    .render_with(&mut MathMlFormatter);

    assert_eq!(
        output.unwrap(),
        "<math ><mstyle mathcolor=\"red\"><msub ><mi >x</mi><mi >i</mi></msub></mstyle></math>"
    );
}
