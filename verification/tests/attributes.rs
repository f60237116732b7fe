use alemat::attributes::{Attribute, Dir, MathVariant, ScriptLevel};
use alemat::elements::grouping::{Action, ActionAttr};
use alemat::elements::scripted::{UnderOver, UnderOverAttr};
use alemat::elements::{
    Annotation, AnnotationAttr, AnnotationContent, ColumnLine, Element, Frac, FracAttr, Ident,
    Num, OpForm, Operator, OperatorAttr, Table, TableAttr, TableCell, TableCellAttr, TableRow,
};
use alemat::{
    BufMathMlWriter, DisplayAttr, MathMl, MathMlAttr, MathMlFormatter, Renderer, Writer,
};

fn written(attr: Attribute) -> String {
    let mut writer = BufMathMlWriter::default();
    writer.write_attr(&attr).unwrap();
    let by_writer = writer.finish();
    let by_formatter = MathMlFormatter.render_attr(&attr).unwrap();
    assert_eq!(by_writer, by_formatter);
    by_writer
}

#[test]
fn class_attribute() {
    assert_eq!(written(Attribute::Class("a b".into())), "class=\"a b\"");
}

#[test]
fn data_attribute() {
    assert_eq!(
        written(Attribute::Data {
            name: "abc".into(),
            value: "2".into()
        }),
        "data-abc=\"2\""
    );
}

#[test]
fn dir_attribute() {
    assert_eq!(written(Attribute::Dir(Dir::RightToLeft)), "dir=\"rtl\"");
    assert_eq!(written(Attribute::Dir(Dir::LeftToRight)), "dir=\"ltr\"");
}

#[test]
fn display_style_attribute_is_well_formed_in_both_cases() {
    assert_eq!(written(Attribute::DisplayStyle(true)), "display=\"normal\"");
    assert_eq!(written(Attribute::DisplayStyle(false)), "display=\"compact\"");
}

#[test]
fn id_attribute() {
    assert_eq!(written(Attribute::Id("x1".into())), "id=\"x1\"");
}

#[test]
fn math_presentation_attributes() {
    assert_eq!(
        written(Attribute::MathBackground("#fff".into())),
        "mathbackground=\"#fff\""
    );
    assert_eq!(written(Attribute::MathColor("red".into())), "mathcolor=\"red\"");
    assert_eq!(written(Attribute::MathSize("2em".into())), "mathsize=\"2em\"");
}

#[test]
fn math_variant_attribute_has_the_name_of_every_variant() {
    let names = [
        (MathVariant::Normal, "normal"),
        (MathVariant::Bold, "bold"),
        (MathVariant::Italic, "italic"),
        (MathVariant::BoldItalic, "bold-italic"),
        (MathVariant::DoubleStruck, "double-struck"),
        (MathVariant::BoldFraktur, "bold-fraktur"),
        (MathVariant::Script, "script"),
        (MathVariant::BoldScript, "bold-script"),
        (MathVariant::Fraktur, "fraktur"),
        (MathVariant::SansSerif, "sans-serif"),
        (MathVariant::BoldSansSerif, "bold-sans-serif"),
        (MathVariant::SansSerifItalic, "sans-serif-italic"),
        (MathVariant::SansSerifBoldItalic, "sans-serif-bold-italic"),
        (MathVariant::Monospace, "monospace"),
        (MathVariant::Initial, "initial"),
        (MathVariant::Tailed, "tailed"),
        (MathVariant::Looped, "looped"),
        (MathVariant::Stretched, "stretched"),
    ];
    for (variant, name) in names {
        assert_eq!(variant.as_str(), name);
        assert_eq!(
            written(Attribute::MathVariant(variant)),
            format!("mathvariant=\"{}\"", name)
        );
    }
}

#[test]
fn nonce_and_style_attributes() {
    assert_eq!(written(Attribute::Nonce("n0".into())), "nonce=\"n0\"");
    assert_eq!(
        written(Attribute::Style("color: red".into())),
        "style=\"color: red\""
    );
}

#[test]
fn script_level_attribute() {
    assert_eq!(
        written(Attribute::ScriptLevel(ScriptLevel::Add(2))),
        "scriptlevel=\"+2\""
    );
    assert_eq!(
        written(Attribute::ScriptLevel(ScriptLevel::Sub(13))),
        "scriptlevel=\"-13\""
    );
    assert_eq!(
        written(Attribute::ScriptLevel(ScriptLevel::Num(0))),
        "scriptlevel=\"0\""
    );
    assert_eq!(
        written(Attribute::ScriptLevel(ScriptLevel::Num(usize::MAX))),
        format!("scriptlevel=\"{}\"", usize::MAX)
    );
}

#[test]
fn tab_index_attribute() {
    assert_eq!(written(Attribute::TabIndex(-1)), "tabindex=\"-1\"");
    assert_eq!(written(Attribute::TabIndex(0)), "tabindex=\"0\"");
    assert_eq!(written(Attribute::TabIndex(i16::MIN)), "tabindex=\"-32768\"");
    assert_eq!(written(Attribute::TabIndex(i16::MAX)), "tabindex=\"32767\"");
}

#[test]
fn on_handler_attribute() {
    assert_eq!(
        written(Attribute::OnHandler {
            name: "click".to_string(),
            handler: "console.log('Clicked!')".to_string(),
        }),
        "onclick=\"console.log('Clicked!')\""
    );
}

#[test]
fn values_are_written_as_they_are() {
    assert_eq!(
        written(Attribute::Id("a\"b<c>&".into())),
        "id=\"a\"b<c>&\""
    );
    let out = MathMl::with_content(Ident::from("<&>")).render().unwrap();
    assert_eq!(out, "<math><mi><&></mi></math>");
}

#[test]
fn attributes_are_joined_by_single_spaces_in_their_order() {
    let ident = Ident::builder()
        .ident("x")
        .attr(vec![
            Attribute::Id("a".into()),
            Attribute::Class("b".into()),
        ])
        .attr(vec![Attribute::Dir(Dir::LeftToRight)])
        .build();
    let mut writer = BufMathMlWriter::default();
    writer.write_ident(&ident).unwrap();
    assert_eq!(
        writer.finish(),
        "<mi id=\"a\" class=\"b\" dir=\"ltr\">x</mi>"
    );
    assert_eq!(
        MathMlFormatter.render_ident(&ident).unwrap(),
        "<mi id=\"a\" class=\"b\" dir=\"ltr\">x</mi>"
    );
}

#[test]
fn the_two_layouts_differ_only_without_attributes() {
    let bare = Num::from(7u8);
    let mut writer = BufMathMlWriter::default();
    writer.write_num(&bare).unwrap();
    assert_eq!(writer.finish(), "<mn>7</mn>");
    assert_eq!(MathMlFormatter.render_num(&bare).unwrap(), "<mn >7</mn>");
}

#[test]
fn action_attributes() {
    let action = Action::builder()
        .content(Ident::from("x"))
        .attr(vec![
            ActionAttr::ActionType("toggle".into()),
            ActionAttr::Selection("2".into()),
            ActionAttr::Global(Attribute::Id("a".into())),
        ])
        .build();
    assert_eq!(
        MathMlFormatter.render_action(&action).unwrap(),
        "<maction actiontype=\"toggle\" selection=\"2\" id=\"a\"><mi >x</mi></maction>"
    );
}

#[test]
fn annotation_attributes() {
    let annotation = Annotation::builder()
        .content(AnnotationContent::Text("x+y".into()))
        .attr(vec![
            AnnotationAttr::Encoding("application/x-tex".into()),
            AnnotationAttr::from(Attribute::Id("t".into())),
        ])
        .build();
    let mut writer = BufMathMlWriter::default();
    writer.write_annotation(&annotation).unwrap();
    assert_eq!(
        writer.finish(),
        "<annotation encoding=\"application/x-tex\" id=\"t\">x+y</annotation>"
    );
}

#[test]
fn frac_attributes() {
    let frac = Frac::builder()
        .num(Num::from(1))
        .denom(Num::from(2))
        .attr(vec![
            FracAttr::LineThickness("0".into()),
            FracAttr::Global(Attribute::Class("f".into())),
        ])
        .build();
    let mut writer = BufMathMlWriter::default();
    writer.write_frac(&frac).unwrap();
    assert_eq!(
        writer.finish(),
        "<mfrac linethickness=\"0\" class=\"f\"><mn>1</mn><mn>2</mn></mfrac>"
    );
}

#[test]
fn operator_attributes() {
    let operator = Operator::builder()
        .op("(")
        .attr(vec![
            OperatorAttr::Form(OpForm::Prefix),
            OperatorAttr::Fence,
            OperatorAttr::Separator,
            OperatorAttr::LeftSpace("1em".into()),
            OperatorAttr::RightSpace("2em".into()),
            OperatorAttr::MaxSize("3em".into()),
            OperatorAttr::MinSize("4em".into()),
            OperatorAttr::Stretchy,
            OperatorAttr::Symmetric,
            OperatorAttr::LargeOp,
            OperatorAttr::MovableLimits,
            OperatorAttr::from(Attribute::Id("o".into())),
        ])
        .build();
    let expected = "<mo form=\"prefix\" fence=\"true\" separator=\"true\" lspace=\"1em\" \
                    rspace=\"2em\" maxsize=\"3em\" minsize=\"4em\" stretchy=\"true\" \
                    symmetric=\"true\" largeop=\"true\" movablelimits=\"true\" id=\"o\">(</mo>";
    let mut writer = BufMathMlWriter::default();
    writer.write_operator(&operator).unwrap();
    assert_eq!(writer.finish(), expected);
    assert_eq!(MathMlFormatter.render_operator(&operator).unwrap(), expected);
    assert_eq!(OpForm::Infix.as_str(), "infix");
    assert_eq!(OpForm::Postfix.as_str(), "postfix");
}

#[test]
fn under_over_attributes_are_spaced_like_all_others() {
    let under_over = UnderOver::builder()
        .expr(Ident::from("x"))
        .over(Operator::from("^"))
        .attr(vec![
            UnderOverAttr::AccentOver,
            UnderOverAttr::AccentUnder,
            UnderOverAttr::Global(Attribute::Id("u".into())),
        ])
        .build();
    let mut writer = BufMathMlWriter::default();
    writer.write_underover(&under_over).unwrap();
    assert_eq!(
        writer.finish(),
        "<mover accent=\"true\" accentunder=\"true\" id=\"u\"><mi>x</mi><mo>^</mo></mover>"
    );
}

#[test]
fn table_attributes() {
    let mut cell = TableCell::with_content(Num::from(1));
    cell.add_attr(vec![
        TableCellAttr::ColumnSpan("2".into()),
        TableCellAttr::RowSpan("3".into()),
        TableCellAttr::from(Attribute::Id("c".into())),
    ]);
    let mut row = TableRow::from(vec![cell]);
    row.add_attr(vec![Attribute::Id("r".into())]);
    let table = Table::from(vec![row]).with_attr(vec![
        TableAttr::ColumnLines(vec![
            ColumnLine::Dashed,
            ColumnLine::NoLine,
            ColumnLine::Solid,
        ]),
        TableAttr::Global(Attribute::Id("t".into())),
    ]);
    let mut writer = BufMathMlWriter::default();
    writer.write_table(&table).unwrap();
    assert_eq!(
        writer.finish(),
        "<mtable columnlines=\"dashed none solid\" id=\"t\"><mtr id=\"r\">\
         <mtd columnspan=\"2\" rowspan=\"3\" id=\"c\"><mn>1</mn></mtd></mtr></mtable>"
    );
}

#[test]
fn column_lines_of_any_length() {
    let lines = |n: usize| {
        let table = Table::default().with_attr(vec![TableAttr::ColumnLines(
            (0..n).map(|_| ColumnLine::Solid).collect(),
        )]);
        MathMlFormatter.render_table(&table).unwrap()
    };
    assert_eq!(lines(0), "<mtable columnlines=\"\"></mtable>");
    assert_eq!(lines(1), "<mtable columnlines=\"solid\"></mtable>");
    assert_eq!(lines(2), "<mtable columnlines=\"solid solid\"></mtable>");
    assert_eq!(ColumnLine::NoLine.as_str(), "none");
    assert_eq!(ColumnLine::Dashed.as_str(), "dashed");
}

#[test]
fn math_attributes() {
    let mut math = MathMl::with_content(Element::from(Num::from(1)));
    math.add_attr(MathMlAttr::Display(DisplayAttr::Inline));
    math.extend_attr(vec![
        MathMlAttr::AltText("one".into()),
        MathMlAttr::Global(Attribute::Id("m".into())),
    ]);
    assert_eq!(math.attributes().len(), 3);
    assert_eq!(
        math.render().unwrap(),
        "<math display=\"inline\" alttext=\"one\" id=\"m\"><mn>1</mn></math>"
    );
    assert_eq!(
        math.render_with(&mut MathMlFormatter).unwrap(),
        "<math display=\"inline\" alttext=\"one\" id=\"m\"><mn >1</mn></math>"
    );
}
