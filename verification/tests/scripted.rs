use alemat::elements::grouping::Row;
use alemat::elements::scripted::{SubSup, UnderOver};
use alemat::elements::{Element, Ident, Num, Operator, Text};
use alemat::{DisplayAttr, MathMl, MathMlAttr, MathMlFormatter};

fn i_is_zero() -> Row {
    Row::from([
        Element::from(Ident::from("i")),
        Element::from(Operator::eq()),
        Element::from(Num::from(0)),
    ])
}

fn n_is_zero_in_parens() -> [Element; 5] {
    [
        Element::from(Operator::lparens()),
        Element::from(Ident::from("n")),
        Element::from(Operator::eq()),
        Element::from(Num::from(0)),
        Element::from(Operator::rparens()),
    ]
}

fn k_plus_one() -> [Element; 3] {
    [
        Element::from(Ident::from("k")),
        Element::from(Operator::plus()),
        Element::from(Num::from(1)),
    ]
}

fn one_plus_two() -> [Element; 3] {
    [
        Element::from(Num::from(1)),
        Element::from(Operator::plus()),
        Element::from(Num::from(2)),
    ]
}

fn two_to_the_i() -> SubSup {
    SubSup::builder()
        .base(Num::from(2))
        .supscript(Ident::from("i"))
        .build()
}

#[test]
fn subsup() {
    let out = MathMl::with_content(
        SubSup::builder()
            .subscript(Ident::from("0"))
            .supscript(Ident::from("1"))
            .base(Ident::from("x"))
            .build(),
    )
    .render();

    assert_eq!(
        out.unwrap(),
        "<math><msubsup><mi>x</mi><mi>0</mi><mi>1</mi></msubsup></math>"
    );
}

#[test]
fn subsup_many() {
    let out = MathMl::with_content([Element::from(
        SubSup::builder()
            .base(Operator::integral())
            .subscript(n_is_zero_in_parens())
            .supscript(k_plus_one())
            .build(),
    )])
    .render();

    assert_eq!(
        out.unwrap(),
        "<math><msubsup><mo>\u{222B}</mo><mrow><mo>(</mo><mi>n</mi><mo>=</mo><mn>0</mn><mo>)</mo>\
         </mrow><mrow><mi>k</mi><mo>+</mo><mn>1</mn></mrow></msubsup></math>"
    );
}

#[test]
fn subsup_integral() {
    let out = MathMl::with_content([
        Element::from(
            SubSup::builder()
                .base(Operator::integral())
                .subscript(Ident::from("0"))
                .supscript(Ident::from("1"))
                .build(),
        ),
        Element::from(Ident::from("x")),
        Element::from(Ident::from("dx")),
    ])
    .with_attr([MathMlAttr::Display(DisplayAttr::Block)])
    .render();

    assert_eq!(
        out.unwrap(),
        "<math display=\"block\"><msubsup><mo>\u{222B}</mo><mi>0</mi><mi>1</mi></msubsup>\
         <mi>x</mi><mi>dx</mi></math>"
    );
}

#[test]
fn subsup_summation() {
    let out = MathMl::with_content([
        Element::from(
            SubSup::builder()
                .base(Operator::sum())
                .subscript(i_is_zero())
                .supscript(Ident::from("k"))
                .build(),
        ),
        Element::from(two_to_the_i()),
    ])
    .with_attr([MathMlAttr::Display(DisplayAttr::Block)])
    .render();

    assert_eq!(
        out.unwrap(),
        "<math display=\"block\"><msubsup><mo>\u{2211}</mo><mrow><mi>i</mi><mo>=</mo><mn>0</mn>\
         </mrow><mi>k</mi></msubsup><msup><mn>2</mn><mi>i</mi></msup></math>"
    );
}

#[test]
fn underover() {
    let out = MathMl::with_content(
        UnderOver::builder()
            .under(Ident::from("0"))
            .over(Ident::from("1"))
            .expr(Ident::from("x"))
            .build(),
    )
    .render();

    assert_eq!(
        out.unwrap(),
        "<math><munderover ><mi>x</mi><mi>0</mi><mi>1</mi></munderover></math>"
    );
}

#[test]
fn underover_many() {
    let out = MathMl::with_content([Element::from(
        UnderOver::builder()
            .expr(Operator::sum())
            .under(n_is_zero_in_parens())
            .over(k_plus_one())
            .build(),
    )])
    .render();

    assert_eq!(
        out.unwrap(),
        "<math><munderover ><mo>\u{2211}</mo><mrow><mo>(</mo><mi>n</mi><mo>=</mo><mn>0</mn>\
         <mo>)</mo></mrow><mrow><mi>k</mi><mo>+</mo><mn>1</mn></mrow></munderover></math>"
    );
}

#[test]
fn underover_integral() {
    let out = MathMl::with_content([
        Element::from(
            UnderOver::builder()
                .expr(Operator::integral())
                .under(Ident::from("0"))
                .over(Ident::from("1"))
                .build(),
        ),
        Element::from(Ident::from("x")),
        Element::from(Ident::from("dx")),
    ])
    .with_attr([MathMlAttr::Display(DisplayAttr::Block)])
    .render();

    assert_eq!(
        out.unwrap(),
        "<math display=\"block\"><munderover ><mo>\u{222B}</mo><mi>0</mi><mi>1</mi>\
         </munderover><mi>x</mi><mi>dx</mi></math>"
    );
}

#[test]
fn underover_summation() {
    let out = MathMl::with_content([
        Element::from(
            UnderOver::builder()
                .expr(Operator::sum())
                .under(i_is_zero())
                .over(Ident::from("k"))
                .build(),
        ),
        Element::from(two_to_the_i()),
    ])
    .with_attr([MathMlAttr::Display(DisplayAttr::Block)])
    .render();

    assert_eq!(
        out.unwrap(),
        "<math display=\"block\"><munderover ><mo>\u{2211}</mo><mrow><mi>i</mi><mo>=</mo>\
         <mn>0</mn></mrow><mi>k</mi></munderover><msup><mn>2</mn><mi>i</mi></msup></math>"
    );
}

#[test]
fn under_brace() {
    let out = MathMl::with_content([Element::from(
        UnderOver::builder()
            .expr(one_plus_two())
            .under(
                UnderOver::builder()
                    .expr(Operator::ubrace())
                    .under(Text::from("Some expression"))
                    .build(),
            )
            .build(),
    )])
    .render();

    assert_eq!(
        out.unwrap(),
        "<math><munder ><mrow><mn>1</mn><mo>+</mo><mn>2</mn></mrow><munder ><mo>\u{23DF}</mo>\
         <mtext>Some expression</mtext></munder></munder></math>"
    );
}

#[test]
fn over_brace() {
    let out = MathMl::with_content([Element::from(
        UnderOver::builder()
            .expr(one_plus_two())
            .over(
                UnderOver::builder()
                    .expr(Operator::obrace())
                    .over(Text::from("Some expression"))
                    .build(),
            )
            .build(),
    )])
    .render();

    assert_eq!(
        out.unwrap(),
        "<math><mover ><mrow><mn>1</mn><mo>+</mo><mn>2</mn></mrow><mover ><mo>\u{23DE}</mo>\
         <mtext>Some expression</mtext></mover></mover></math>"
    );
}

#[test]
fn mod_subsup() {
    let out = MathMl::with_content(
        SubSup::builder()
            .subscript(Ident::from("0"))
            .supscript(Ident::from("1"))
            .base(Ident::from("x"))
            .build(),
    )
    .render_with(&mut MathMlFormatter);

    assert_eq!(
        out.unwrap(),
        "<math ><msubsup ><mi >x</mi><mi >0</mi><mi >1</mi></msubsup></math>"
    );
}

#[test]
fn integral() {
    let out = MathMl::with_content([
        Element::from(
            SubSup::builder()
                .base(Operator::integral())
                .subscript(Ident::from("0"))
                .supscript(Ident::from("1"))
                .build(),
        ),
        Element::from(Ident::from("x")),
        Element::from(Ident::from("dx")),
    ])
    .with_attr([MathMlAttr::Display(DisplayAttr::Block)])
    .render_with(&mut MathMlFormatter);

    assert_eq!(
        out.unwrap(),
        "<math display=\"block\"><msubsup ><mo >\u{222B}</mo><mi >0</mi><mi >1</mi></msubsup>\
         <mi >x</mi><mi >dx</mi></math>"
    );
}

#[test]
fn summation() {
    let out = MathMl::with_content([
        Element::from(
            SubSup::builder()
                .base(Operator::sum())
                .subscript(i_is_zero())
                .supscript(Ident::from("k"))
                .build(),
        ),
        Element::from(two_to_the_i()),
    ])
    .with_attr([MathMlAttr::Display(DisplayAttr::Block)])
    .render_with(&mut MathMlFormatter);

    assert_eq!(
        out.unwrap(),
        "<math display=\"block\"><msubsup ><mo >\u{2211}</mo><mrow ><mi >i</mi><mo >=</mo>\
         <mn >0</mn></mrow><mi >k</mi></msubsup><msup ><mn >2</mn><mi >i</mi></msup></math>"
    );
}

#[test]
fn mod_underover() {
    let out = MathMl::with_content(
        UnderOver::builder()
            .under(Ident::from("0"))
            .over(Ident::from("1"))
            .expr(Ident::from("x"))
            .build(),
    )
    .render_with(&mut MathMlFormatter);

    assert_eq!(
        out.unwrap(),
        "<math ><munderover ><mi >x</mi><mi >0</mi><mi >1</mi></munderover></math>"
    );
}

#[test]
fn mod_integral() {
    let out = MathMl::with_content([
        Element::from(
            UnderOver::builder()
                .expr(Operator::integral())
                .under(Ident::from("0"))
                .over(Ident::from("1"))
                .build(),
        ),
        Element::from(Ident::from("x")),
        Element::from(Ident::from("dx")),
    ])
    .with_attr([MathMlAttr::Display(DisplayAttr::Block)])
    .render_with(&mut MathMlFormatter);

    assert_eq!(
        out.unwrap(),
        "<math display=\"block\"><munderover ><mo >\u{222B}</mo><mi >0</mi><mi >1</mi>\
         </munderover><mi >x</mi><mi >dx</mi></math>"
    );
}

#[test]
fn mod_summation() {
    let out = MathMl::with_content([
        Element::from(
            UnderOver::builder()
                .expr(Operator::sum())
                .under(i_is_zero())
                .over(Ident::from("k"))
                .build(),
        ),
        Element::from(two_to_the_i()),
    ])
    .with_attr([MathMlAttr::Display(DisplayAttr::Block)])
    .render_with(&mut MathMlFormatter);

    assert_eq!(
        out.unwrap(),
        "<math display=\"block\"><munderover ><mo >\u{2211}</mo><mrow ><mi >i</mi><mo >=</mo>\
         <mn >0</mn></mrow><mi >k</mi></munderover><msup ><mn >2</mn><mi >i</mi></msup></math>"
    );
}
