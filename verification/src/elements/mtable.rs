//! The `mtable`, `mtr` and `mtd` elements.

use vstd::prelude::*;
use vstd::std_specs::convert::FromSpecImpl;
use crate::lists::IntoList;
use crate::attributes::{push_quoted, Attribute, TagAttribute};
use crate::elements::{Element, Elements, IntoElements};
use crate::lists::array_into_vec;
use crate::text::{joined, lemma_joined_take};

verus! {

/// One of the values for `columnlines` attribute.
#[derive(Debug, Clone, Copy, PartialEq, Eq, PartialOrd, Ord)]
pub enum ColumnLine {
    /// No line is drawn.
    NoLine,
    /// A solid line is drawn.
    Solid,
    /// A dashed line is drawn.
    Dashed,
}

impl ColumnLine {
    /// The word that stands for the line in the `columnlines` attribute.
    pub open spec fn token(self) -> Seq<char> {
        match self {
            ColumnLine::NoLine => "none"@,
            ColumnLine::Solid => "solid"@,
            ColumnLine::Dashed => "dashed"@,
        }
    }

    /// The line as it is written in markup.
    pub fn as_str(&self) -> (s: &'static str)
        ensures
            s@ == self.token(),
    {
        match self {
            ColumnLine::NoLine => "none",
            ColumnLine::Solid => "solid",
            ColumnLine::Dashed => "dashed",
        }
    }
}

impl AsRef<str> for ColumnLine {
    fn as_ref(&self) -> (s: &str)
        ensures
            s@ == self.token(),
    {
        self.as_str()
    }
}

/// The words of the lines, in their order.
pub open spec fn line_tokens(lines: Seq<ColumnLine>) -> Seq<Seq<char>> {
    Seq::new(lines.len(), |i: int| lines[i].token())
}

/// The `mtable` accepts the global [`Attribute`]s as well as `columnlines` that can be used to
/// render augmented matrix.
#[derive(Debug, PartialEq, Eq, PartialOrd, Ord)]
pub enum TableAttr {
    /// The `columnlines` attribute is a space-separated list of values, one for each column.
    ColumnLines(Vec<ColumnLine>),
    /// One of the global [`Attribute`]s.
    Global(Attribute),
}

impl TableAttr {
    /// Whether two attributes are the same but for where their vectors lie:
    /// the same lines in the same order, or the same global attribute.
    pub open spec fn same(self, other: TableAttr) -> bool {
        match (self, other) {
            (TableAttr::ColumnLines(a), TableAttr::ColumnLines(b)) => a@ == b@,
            (TableAttr::Global(a), TableAttr::Global(b)) => a == b,
            _ => false,
        }
    }
}

impl Clone for TableAttr {
    fn clone(&self) -> (r: Self)
        ensures
            self.same(r),
    {
        match self {
            TableAttr::ColumnLines(lines) => {
                let copy = lines.clone();
                assert(copy@ =~= lines@);
                TableAttr::ColumnLines(copy)
            },
            TableAttr::Global(a) => TableAttr::Global(a.clone()),
        }
    }
}

impl TagAttribute for TableAttr {
    open spec fn markup(&self) -> Seq<char> {
        match *self {
            TableAttr::ColumnLines(lines) => "columnlines=\""@ + joined(line_tokens(lines@))
                + "\""@,
            TableAttr::Global(a) => a.markup(),
        }
    }

    fn write_into(&self, buf: &mut String) {
        match self {
            TableAttr::ColumnLines(lines) => {
                let ghost tokens = line_tokens(lines@);
                buf.append("columnlines=\"");
                let ghost head = buf@;
                assert(tokens.take(0) =~= Seq::<Seq<char>>::empty());
                assert(head + joined(tokens.take(0)) =~= head);
                let mut i: usize = 0;
                while i < lines.len()
                    invariant
                        i <= lines.len(),
                        tokens == line_tokens(lines@),
                        buf@ == head + joined(tokens.take(i as int)),
                    decreases lines.len() - i,
                {
                    if i > 0 {
                        buf.append(" ");
                    }
                    buf.append(lines[i].as_str());
                    proof {
                        lemma_joined_take(tokens, i as int);
                        assert(buf@ =~= head + joined(tokens.take(i + 1)));
                    }
                    i += 1;
                }
                assert(tokens.take(lines.len() as int) =~= tokens);
                buf.append("\"");
            },
            TableAttr::Global(a) => a.write_into(buf),
        }
        assert(buf@ =~= old(buf)@ + self.markup());
    }
}

/// The `mtable` is laid out as an inline-table and sets displaystyle to false.
///
/// The `mtable` accepts the global [`Attribute`]s.
#[derive(Debug, PartialEq, Eq, PartialOrd, Ord)]
pub struct Table {
    /// The rows, from the top.
    pub rows: Vec<TableRow>,
    /// The attributes of the `mtable` element.
    pub attributes: Vec<TableAttr>,
}

impl Default for Table {
    fn default() -> (r: Self)
        ensures
            r.rows@ == Seq::<TableRow>::empty(),
            r.attributes@ == Seq::<TableAttr>::empty(),
    {
        Table { rows: Vec::new(), attributes: Vec::new() }
    }
}

impl Table {
    /// Get a reference to the [`Table`]s rows.
    pub fn rows(&self) -> (r: &[TableRow])
        ensures
            r@ == self.rows@,
    {
        self.rows.as_slice()
    }

    /// Add a [`TableRow`] to the [`Table`], behind those that it has.
    pub fn add_row(&mut self, row: TableRow)
        ensures
            final(self).rows@ == old(self).rows@.push(row),
            final(self).attributes == old(self).attributes,
    {
        self.rows.push(row);
    }

    /// Add multiple [`TableRow`]s to the [`Table`], behind those that it has.
    pub fn add_rows(&mut self, rows: impl IntoList<TableRow>)
        ensures
            final(self).rows@ == old(self).rows@ + rows.items(),
            final(self).attributes == old(self).attributes,
    {
        let mut more = rows.into_list();
        self.rows.append(&mut more);
    }

    /// Create a new instance of [`Table`] extended with the given [`TableRow`].
    pub fn with_row(self, row: TableRow) -> (r: Table)
        ensures
            r.rows@ == self.rows@.push(row),
            r.attributes == self.attributes,
    {
        let mut r = self;
        r.rows.push(row);
        r
    }

    /// Create a new instance of [`Table`] extended with given [`TableRow`]s.
    pub fn with_rows(self, rows: impl IntoList<TableRow>) -> (r: Table)
        ensures
            r.rows@ == self.rows@ + rows.items(),
            r.attributes == self.attributes,
    {
        let mut r = self;
        let mut more = rows.into_list();
        r.rows.append(&mut more);
        r
    }

    /// Get a reference to the attributes of the [`Table`] element.
    pub fn attributes(&self) -> (r: &[TableAttr])
        ensures
            r@ == self.attributes@,
    {
        self.attributes.as_slice()
    }

    /// Add attributes, behind those that the element has.
    pub fn add_attr(&mut self, attr: impl IntoList<TableAttr>)
        ensures
            final(self).attributes@ == old(self).attributes@ + attr.items(),
            final(self).rows == old(self).rows,
    {
        let mut more = attr.into_list();
        self.attributes.append(&mut more);
    }

    /// Create a new instance of [`Table`] with additional attributes, behind
    /// those that the element has.
    pub fn with_attr(self, attr: impl IntoList<TableAttr>) -> (r: Table)
        ensures
            r.attributes@ == self.attributes@ + attr.items(),
            r.rows == self.rows,
    {
        let mut r = self;
        let mut more = attr.into_list();
        r.attributes.append(&mut more);
        r
    }
}

impl From<Table> for Element {
    fn from(value: Table) -> (r: Element) {
        Element::Table(value)
    }
}

impl FromSpecImpl<Table> for Element {
    open spec fn obeys_from_spec() -> bool {
        true
    }

    open spec fn from_spec(v: Table) -> Element {
        Element::Table(v)
    }
}

impl IntoElements for Table {
    open spec fn elements(self) -> Seq<Element> {
        seq![Element::Table(self)]
    }

    fn into_elements(self) -> (r: Elements) {
        Elements::one(Element::Table(self))
    }
}

impl From<Vec<TableRow>> for Table {
    fn from(value: Vec<TableRow>) -> (r: Table)
        ensures
            r.rows == value,
            r.attributes@ == Seq::<TableAttr>::empty(),
    {
        Table { rows: value, attributes: Vec::new() }
    }
}

/// No expression of a specification builds a vector, so none gives the value
/// that `from` returns: what it returns is stated in its `ensures`.
impl FromSpecImpl<Vec<TableRow>> for Table {
    open spec fn obeys_from_spec() -> bool {
        false
    }

    open spec fn from_spec(v: Vec<TableRow>) -> Table {
        arbitrary()
    }
}

/// Whether `rows` are the rows made of `grid`: as many, in the same order,
/// each with the cells of its line of the grid and without attributes.
pub open spec fn rows_of_grid<const N: usize>(
    rows: Seq<TableRow>,
    grid: Seq<[TableCell; N]>,
) -> bool {
    &&& rows.len() == grid.len()
    &&& forall|i: int|
        0 <= i < rows.len() ==> (#[trigger] rows[i]).cells@ == grid[i]@ && rows[i].attr@
            == Seq::<Attribute>::empty()
}

impl<const N: usize, const M: usize> From<[[TableCell; N]; M]> for Table {
    fn from(value: [[TableCell; N]; M]) -> (r: Table)
        ensures
            rows_of_grid(r.rows@, value@),
            r.attributes@ == Seq::<TableAttr>::empty(),
    {
        let mut lines = array_into_vec(value);
        let mut upside_down: Vec<TableRow> = Vec::new();
        // The rows are taken from the end, so they come out last row first.
        while lines.len() > 0
            invariant
                lines@.len() + upside_down@.len() == value@.len(),
                lines@ == value@.take(lines@.len() as int),
                forall|i: int|
                    0 <= i < upside_down@.len() ==> (#[trigger] upside_down@[i]).cells@
                        == value@[value@.len() - 1 - i]@ && upside_down@[i].attr@
                        == Seq::<Attribute>::empty(),
            decreases lines.len(),
        {
            let ghost before = lines@;
            let line = lines.pop().unwrap();
            assert(line == value@[before.len() - 1]);
            assert(lines@ =~= value@.take(lines@.len() as int));
            upside_down.push(TableRow::from(line));
        }
        let mut rows: Vec<TableRow> = Vec::new();
        while upside_down.len() > 0
            invariant
                rows@.len() + upside_down@.len() == value@.len(),
                forall|i: int|
                    0 <= i < upside_down@.len() ==> (#[trigger] upside_down@[i]).cells@
                        == value@[value@.len() - 1 - i]@ && upside_down@[i].attr@
                        == Seq::<Attribute>::empty(),
                forall|i: int|
                    0 <= i < rows@.len() ==> (#[trigger] rows@[i]).cells@ == value@[i]@
                        && rows@[i].attr@ == Seq::<Attribute>::empty(),
            decreases upside_down.len(),
        {
            let row = upside_down.pop().unwrap();
            rows.push(row);
        }
        Table { rows, attributes: Vec::new() }
    }
}

/// No expression of a specification builds a vector, so none gives the value
/// that `from` returns: what it returns is stated in its `ensures`.
impl<const N: usize, const M: usize> FromSpecImpl<[[TableCell; N]; M]> for Table {
    open spec fn obeys_from_spec() -> bool {
        false
    }

    open spec fn from_spec(v: [[TableCell; N]; M]) -> Table {
        arbitrary()
    }
}

/// The `mtr` is laid out as `table-row`.
#[derive(Debug, PartialEq, Eq, PartialOrd, Ord)]
pub struct TableRow {
    /// Table cells (`mtd`) of this table row.
    pub cells: Vec<TableCell>,
    /// The `mtr` accepts the global [`Attribute`]s.
    pub attr: Vec<Attribute>,
}

impl Default for TableRow {
    fn default() -> (r: Self)
        ensures
            r.cells@ == Seq::<TableCell>::empty(),
            r.attr@ == Seq::<Attribute>::empty(),
    {
        TableRow { cells: Vec::new(), attr: Vec::new() }
    }
}

impl TableRow {
    /// Add attributes, behind those that the row has.
    pub fn add_attr(&mut self, attr: impl IntoList<Attribute>)
        ensures
            final(self).attr@ == old(self).attr@ + attr.items(),
            final(self).cells == old(self).cells,
    {
        let mut more = attr.into_list();
        self.attr.append(&mut more);
    }

    /// Add a [`TableCell`] to the [`TableRow`], behind those that it has.
    pub fn add_cell(&mut self, cell: TableCell)
        ensures
            final(self).cells@ == old(self).cells@.push(cell),
            final(self).attr == old(self).attr,
    {
        self.cells.push(cell);
    }

    /// Add multiple [`TableCell`]s to the [`TableRow`], behind those that it has.
    pub fn add_cells(&mut self, cells: impl IntoList<TableCell>)
        ensures
            final(self).cells@ == old(self).cells@ + cells.items(),
            final(self).attr == old(self).attr,
    {
        let mut more = cells.into_list();
        self.cells.append(&mut more);
    }

    /// Create a new instance of [`TableRow`] extended with the given [`TableCell`].
    pub fn with_cell(self, cell: TableCell) -> (r: TableRow)
        ensures
            r.cells@ == self.cells@.push(cell),
            r.attr == self.attr,
    {
        let mut r = self;
        r.cells.push(cell);
        r
    }

    /// Create a new instance of [`TableRow`] extended with given [`TableCell`]s.
    pub fn with_cells(self, cells: impl IntoList<TableCell>) -> (r: TableRow)
        ensures
            r.cells@ == self.cells@ + cells.items(),
            r.attr == self.attr,
    {
        let mut r = self;
        let mut more = cells.into_list();
        r.cells.append(&mut more);
        r
    }

    /// Get a reference to the cells of the [`TableRow`] element.
    pub fn cells(&self) -> (r: &[TableCell])
        ensures
            r@ == self.cells@,
    {
        self.cells.as_slice()
    }

    /// Get a reference to all attributes of the [`TableRow`] element.
    pub fn attributes(&self) -> (r: &[Attribute])
        ensures
            r@ == self.attr@,
    {
        self.attr.as_slice()
    }
}

impl From<Vec<TableCell>> for TableRow {
    fn from(value: Vec<TableCell>) -> (r: TableRow)
        ensures
            r.cells == value,
            r.attr@ == Seq::<Attribute>::empty(),
    {
        TableRow { cells: value, attr: Vec::new() }
    }
}

/// No expression of a specification builds a vector, so none gives the value
/// that `from` returns: what it returns is stated in its `ensures`.
impl FromSpecImpl<Vec<TableCell>> for TableRow {
    open spec fn obeys_from_spec() -> bool {
        false
    }

    open spec fn from_spec(v: Vec<TableCell>) -> TableRow {
        arbitrary()
    }
}

impl<const N: usize> From<[TableCell; N]> for TableRow {
    fn from(value: [TableCell; N]) -> (r: TableRow)
        ensures
            r.cells@ == value@,
            r.attr@ == Seq::<Attribute>::empty(),
    {
        TableRow { cells: array_into_vec(value), attr: Vec::new() }
    }
}

/// No expression of a specification builds a vector, so none gives the value
/// that `from` returns: what it returns is stated in its `ensures`.
impl<const N: usize> FromSpecImpl<[TableCell; N]> for TableRow {
    open spec fn obeys_from_spec() -> bool {
        false
    }

    open spec fn from_spec(v: [TableCell; N]) -> TableRow {
        arbitrary()
    }
}

/// The `mtd` accepts the global [`Attribute`]s as well as `columnspan` and `rowspan`.
/// 
/// The `columnspan` (respectively `rowspan`) attribute has the same syntax and semantics as the
/// colspan (respectively rowspan) attribute on the `<td>` element from HTML.
#[derive(Debug, PartialEq, Eq, PartialOrd, Ord)]
pub enum TableCellAttr {
    /// Has the same syntax and semantics as the `colspan` attribute on the `<td>` element from
    /// HTML.
    ColumnSpan(String),
    /// Has the same syntax and semantics as the `rowspan` attribute on the `<td>` element from
    /// HTML.
    RowSpan(String),
    /// One of the global [`Attribute`]s.
    Global(Attribute),
}

impl Clone for TableCellAttr {
    fn clone(&self) -> (r: Self)
        ensures
            r == *self,
    {
        match self {
            TableCellAttr::ColumnSpan(v) => TableCellAttr::ColumnSpan(v.clone()),
            TableCellAttr::RowSpan(v) => TableCellAttr::RowSpan(v.clone()),
            TableCellAttr::Global(v) => TableCellAttr::Global(v.clone()),
        }
    }
}

impl TagAttribute for TableCellAttr {
    open spec fn markup(&self) -> Seq<char> {
        match *self {
            TableCellAttr::ColumnSpan(v) => "columnspan=\""@ + v@ + "\""@,
            TableCellAttr::RowSpan(v) => "rowspan=\""@ + v@ + "\""@,
            TableCellAttr::Global(a) => a.markup(),
        }
    }

    fn write_into(&self, buf: &mut String) {
        match self {
            TableCellAttr::ColumnSpan(v) => push_quoted(buf, "columnspan=\"", v.as_str()),
            TableCellAttr::RowSpan(v) => push_quoted(buf, "rowspan=\"", v.as_str()),
            TableCellAttr::Global(a) => a.write_into(buf),
        }
        assert(buf@ =~= old(buf)@ + self.markup());
    }
}

impl From<Attribute> for TableCellAttr {
    fn from(value: Attribute) -> (r: TableCellAttr) {
        TableCellAttr::Global(value)
    }
}

impl FromSpecImpl<Attribute> for TableCellAttr {
    open spec fn obeys_from_spec() -> bool {
        true
    }

    open spec fn from_spec(v: Attribute) -> TableCellAttr {
        TableCellAttr::Global(v)
    }
}

/// The `mtd` is laid out as a `table-cell` with content centered in the cell and a default
/// padding.
#[derive(Debug, PartialEq, Eq, PartialOrd, Ord)]
pub struct TableCell {
    /// The children of the `mtd` element.
    pub children: Elements,
    /// The attributes of the `mtd` element.
    pub attr: Vec<TableCellAttr>,
}

impl Default for TableCell {
    fn default() -> (r: Self)
        ensures
            r.children@ == Seq::<Element>::empty(),
            r.attr@ == Seq::<TableCellAttr>::empty(),
    {
        TableCell { children: Elements(Vec::new()), attr: Vec::new() }
    }
}

impl<T: IntoElements> From<T> for TableCell {
    fn from(value: T) -> (r: TableCell)
        ensures
            r.children@ == value.elements(),
            r.attr@ == Seq::<TableCellAttr>::empty(),
    {
        TableCell { children: value.into_elements(), attr: Vec::new() }
    }
}

/// No expression of a specification builds a vector, so none gives the value
/// that `from` returns: what it returns is stated in its `ensures`.
impl<T: IntoElements> FromSpecImpl<T> for TableCell {
    open spec fn obeys_from_spec() -> bool {
        false
    }

    open spec fn from_spec(v: T) -> TableCell {
        arbitrary()
    }
}

impl TableCell {
    /// Get a reference to the children of the [`TableCell`] element.
    pub fn children(&self) -> (r: &[Element])
        ensures
            r@ == self.children@,
    {
        self.children.as_slice()
    }

    /// Get a reference to all attributes of the [`TableCell`] element.
    pub fn attributes(&self) -> (r: &[TableCellAttr])
        ensures
            r@ == self.attr@,
    {
        self.attr.as_slice()
    }

    /// Create a [`TableCell`] with the given content.
    pub fn with_content(content: impl IntoElements) -> (r: TableCell)
        ensures
            r.children@ == content.elements(),
            r.attr@ == Seq::<TableCellAttr>::empty(),
    {
        TableCell { children: content.into_elements(), attr: Vec::new() }
    }

    /// Add attributes, behind those that the cell has.
    pub fn add_attr(&mut self, attr: impl IntoList<TableCellAttr>)
        ensures
            final(self).attr@ == old(self).attr@ + attr.items(),
            final(self).children == old(self).children,
    {
        let mut more = attr.into_list();
        self.attr.append(&mut more);
    }

    /// Create a new instance of [`TableCell`] with additional attributes, behind
    /// those that the cell has.
    pub fn with_attr(self, attr: impl IntoList<TableCellAttr>) -> (r: TableCell)
        ensures
            r.attr@ == self.attr@ + attr.items(),
            r.children == self.children,
    {
        let mut r = self;
        let mut more = attr.into_list();
        r.attr.append(&mut more);
        r
    }
}

} // verus!
