use alemat::attributes::Attribute;
use alemat::elements::{
    ColumnLine, Element, Ident, Num, Table, TableCell, TableCellAttr, TableRow,
};
use alemat::{BufMathMlWriter, MathMlFormatter, Renderer, Writer};

fn compact(table: &Table) -> String {
    let mut writer = BufMathMlWriter::default();
    writer.write_table(table).unwrap();
    writer.finish()
}

fn cell(n: u32) -> TableCell {
    TableCell::from(Num::from(n))
}

#[test]
fn two_rows_of_two_cells_in_row_major_order() {
    let table = Table::from([[cell(1), cell(2)], [cell(3), cell(4)]]);
    assert_eq!(table.rows().len(), 2);
    assert_eq!(table.rows()[0].cells().len(), 2);
    assert_eq!(table.rows()[1].cells().len(), 2);
    assert!(table.attributes().is_empty());
    assert_eq!(
        compact(&table),
        "<mtable><mtr><mtd><mn>1</mn></mtd><mtd><mn>2</mn></mtd></mtr>\
         <mtr><mtd><mn>3</mn></mtd><mtd><mn>4</mn></mtd></mtr></mtable>"
    );
    assert_eq!(
        MathMlFormatter.render_table(&table).unwrap(),
        "<mtable ><mtr ><mtd ><mn >1</mn></mtd><mtd ><mn >2</mn></mtd></mtr>\
         <mtr ><mtd ><mn >3</mn></mtd><mtd ><mn >4</mn></mtd></mtr></mtable>"
    );
}

#[test]
fn a_table_has_as_many_rows_and_cells_as_its_grid() {
    let table = Table::from([
        [cell(1), cell(2), cell(3)],
        [cell(4), cell(5), cell(6)],
        [cell(7), cell(8), cell(9)],
        [cell(10), cell(11), cell(12)],
    ]);
    let markup = compact(&table);
    assert_eq!(markup.matches("<mtr>").count(), 4);
    assert_eq!(markup.matches("</mtr>").count(), 4);
    assert_eq!(markup.matches("<mtd>").count(), 12);
    for row in markup.split("</mtr>").take(4) {
        assert_eq!(row.matches("<mtd>").count(), 3);
    }
    let numbers: Vec<usize> = (1..=12)
        .map(|n| markup.find(&format!("<mn>{}</mn>", n)).unwrap())
        .collect();
    assert!(numbers.windows(2).all(|pair| pair[0] < pair[1]));
}

#[test]
fn the_shapes_at_the_edge() {
    assert_eq!(compact(&Table::default()), "<mtable></mtable>");
    let no_rows: [[TableCell; 3]; 0] = [];
    assert_eq!(compact(&Table::from(no_rows)), "<mtable></mtable>");
    let no_cells: [[TableCell; 0]; 2] = [[], []];
    assert_eq!(
        compact(&Table::from(no_cells)),
        "<mtable><mtr></mtr><mtr></mtr></mtable>"
    );
    assert_eq!(
        compact(&Table::from([[TableCell::default()]])),
        "<mtable><mtr><mtd></mtd></mtr></mtable>"
    );
}

#[test]
fn rows_and_cells_are_added_behind_those_that_are_there() {
    let mut table = Table::default();
    table.add_row(TableRow::from([cell(1)]));
    table.add_rows(vec![TableRow::from(vec![cell(2)]), TableRow::default()]);
    let table = table
        .with_row(TableRow::default().with_cell(cell(3)))
        .with_rows(vec![TableRow::default().with_cells(vec![cell(4), cell(5)])]);
    assert_eq!(table.rows().len(), 5);
    let mut last = TableRow::default();
    last.add_cell(cell(6));
    last.add_cells(vec![cell(7)]);
    assert_eq!(last.cells().len(), 2);
    assert!(last.attributes().is_empty());
    let table = table.with_row(last);
    assert_eq!(
        compact(&table),
        "<mtable><mtr><mtd><mn>1</mn></mtd></mtr><mtr><mtd><mn>2</mn></mtd></mtr><mtr></mtr>\
         <mtr><mtd><mn>3</mn></mtd></mtr><mtr><mtd><mn>4</mn></mtd><mtd><mn>5</mn></mtd></mtr>\
         <mtr><mtd><mn>6</mn></mtd><mtd><mn>7</mn></mtd></mtr></mtable>"
    );
}

#[test]
fn a_cell_holds_what_it_is_given() {
    let one = TableCell::from(Ident::from("x"));
    assert_eq!(one.children().len(), 1);
    assert!(one.attributes().is_empty());
    let many = TableCell::from([
        Element::from(Ident::from("x")),
        Element::from(Ident::from("y")),
    ])
    .with_attr(vec![
        TableCellAttr::ColumnSpan("2".into()),
        TableCellAttr::Global(Attribute::Id("c".into())),
    ]);
    assert_eq!(many.children().len(), 2);
    assert_eq!(many.attributes().len(), 2);
    let table = Table::from(vec![TableRow::from(vec![one, many])]);
    assert_eq!(
        compact(&table),
        "<mtable><mtr><mtd><mi>x</mi></mtd><mtd columnspan=\"2\" id=\"c\"><mi>x</mi><mi>y</mi>\
         </mtd></mtr></mtable>"
    );
}

#[test]
fn a_column_line_is_its_word() {
    let words: Vec<&str> = [ColumnLine::NoLine, ColumnLine::Solid, ColumnLine::Dashed]
        .iter()
        .map(AsRef::as_ref)
        .collect();
    assert_eq!(words, ["none", "solid", "dashed"]);
}
