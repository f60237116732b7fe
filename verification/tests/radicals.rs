use alemat::elements::radicals::Radical;
use alemat::elements::scripted::SubSup;
use alemat::elements::{Element, Ident, Num, Operator};
use alemat::MathMl;

fn one_plus_n() -> [Element; 3] {
    [
        Element::from(Num::from(1)),
        Element::from(Operator::from("+")),
        Element::from(
            SubSup::builder()
                .base(Ident::from("n"))
                .subscript(Num::from(2))
                .supscript(Num::from(3))
                .build(),
        ),
    ]
}

const ONE_PLUS_N: &str =
    "<mn>1</mn><mo>+</mo><msubsup><mi>n</mi><mn>2</mn><mn>3</mn></msubsup>";

#[test]
fn sqrt() {
    let output = MathMl::with_content(
        Radical::builder()
            .index(Num::from(2))
            .content(one_plus_n())
            .build(),
    )
    .render();

    assert_eq!(
        output.unwrap(),
        format!("<math><msqrt>{}</msqrt></math>", ONE_PLUS_N)
    );
}

#[test]
fn root() {
    let output = MathMl::with_content(
        Radical::builder()
            .index(Num::from(3))
            .content(one_plus_n())
            .build(),
    )
    .render();

    assert_eq!(
        output.unwrap(),
        format!(
            "<math><mroot><mrow>{}</mrow><mn>3</mn></mroot></math>",
            ONE_PLUS_N
        )
    );
}

#[test]
fn root_expr() {
    let output = MathMl::with_content(
        Radical::builder()
            .index([
                Element::from(Ident::from("n")),
                Element::from(Operator::plus()),
                Element::from(Num::from(1)),
            ])
            .content(one_plus_n())
            .build(),
    )
    .render();

    assert_eq!(
        output.unwrap(),
        format!(
            "<math><mroot><mrow>{}</mrow><mrow><mi>n</mi><mo>+</mo><mn>1</mn></mrow></mroot>\
             </math>",
            ONE_PLUS_N
        )
    );
}
