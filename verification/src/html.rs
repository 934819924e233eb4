//! The HTML builders of the `build_html` crate: what they hold, and the calls
//! that fill them.

use build_html::{
    Container, ContainerType, HtmlContainer, HtmlElement, HtmlTag, Table, TableCell, TableCellType,
    TableRow,
};
use vstd::prelude::*;

verus! {

/// The element type of `build_html`.
#[verifier::external_type_specification]
#[verifier::external_body]
pub struct ExHtmlElement(HtmlElement);

/// The container type of `build_html`.
#[verifier::external_type_specification]
#[verifier::external_body]
pub struct ExContainer(Container);

/// The table type of `build_html`.
#[verifier::external_type_specification]
#[verifier::external_body]
pub struct ExTable(Table);

/// The table row type of `build_html`.
#[verifier::external_type_specification]
#[verifier::external_body]
pub struct ExTableRow(TableRow);

/// The table cell type of `build_html`.
#[verifier::external_type_specification]
#[verifier::external_body]
pub struct ExTableCell(TableCell);

/// An element: its tag, its attributes, and the text of its children.
#[verifier::ext_equal]
pub struct ElementView {
    pub tag: Seq<char>,
    pub attributes: Seq<(Seq<char>, Seq<char>)>,
    pub children: Seq<Seq<char>>,
}

/// A table: the element itself, and its parts.
#[verifier::ext_equal]
pub struct TableView {
    pub table: ElementView,
    pub head: ElementView,
    pub body: ElementView,
    pub foot: ElementView,
    pub caption: Option<ElementView>,
}

/// What an element holds.
pub uninterp spec fn element_view(element: HtmlElement) -> ElementView;

/// What a container holds.
pub uninterp spec fn container_view(container: Container) -> ElementView;

/// What a table holds.
pub uninterp spec fn table_view(table: Table) -> TableView;

/// What a row of a table holds.
pub uninterp spec fn row_view(row: TableRow) -> ElementView;

/// What a cell of a table holds.
pub uninterp spec fn cell_view(cell: TableCell) -> ElementView;

/// An element without attributes and children.
pub open spec fn bare(tag: Seq<char>) -> ElementView {
    ElementView { tag, attributes: Seq::empty(), children: Seq::empty() }
}

impl ElementView {
    /// The element with one more child.
    pub open spec fn with_child(self, child: Seq<char>) -> ElementView {
        ElementView { children: self.children.push(child), ..self }
    }

    /// The element with one more attribute.
    pub open spec fn with_attribute(self, key: Seq<char>, value: Seq<char>) -> ElementView {
        ElementView { attributes: self.attributes.push((key, value)), ..self }
    }
}

/// The texts one behind the other.
pub open spec fn joined(texts: Seq<Seq<char>>) -> Seq<char>
    decreases texts.len(),
{
    if texts.len() == 0 {
        Seq::empty()
    } else {
        joined(texts.drop_last()) + texts.last()
    }
}

/// The text of attributes.
pub open spec fn attributes_text(attributes: Seq<(Seq<char>, Seq<char>)>) -> Seq<char>
    decreases attributes.len(),
{
    if attributes.len() == 0 {
        Seq::empty()
    } else {
        attributes_text(attributes.drop_last()) + " "@ + attributes.last().0 + "=\""@
            + attributes.last().1 + "\""@
    }
}

/// The text of an element.
pub open spec fn element_html(element: ElementView) -> Seq<char> {
    let opened = "<"@ + element.tag + attributes_text(element.attributes);
    if element.children.len() == 0 {
        opened + "/>"@
    } else {
        opened + ">"@ + joined(element.children) + "</"@ + element.tag + ">"@
    }
}

/// The text of a table: head and body, the foot where there is something in it,
/// and the caption where there is one.
pub open spec fn table_html(table: TableView) -> Seq<char> {
    let filled = table.table.with_child(element_html(table.head)).with_child(
        element_html(table.body),
    );
    let footed = if table.foot.children.len() == 0 && table.foot.attributes.len() == 0 {
        filled
    } else {
        filled.with_child(element_html(table.foot))
    };
    element_html(
        match table.caption {
            Some(caption) => footed.with_child(element_html(caption)),
            None => footed,
        },
    )
}

/// A new table.
pub open spec fn bare_table() -> TableView {
    TableView {
        table: bare("table"@),
        head: bare("thead"@),
        body: bare("tbody"@),
        foot: bare("tfoot"@),
        caption: None,
    }
}

/// A paragraph.
pub open spec fn paragraph(text: Seq<char>) -> ElementView {
    bare("p"@).with_child(text)
}

/// The two kinds of table cells.
#[derive(Clone, Copy, PartialEq, Eq, Structural)]
pub enum CellKind {
    Data,
    Header,
}

/// The tag of a cell.
pub open spec fn cell_tag(kind: CellKind) -> Seq<char> {
    match kind {
        CellKind::Data => "td"@,
        CellKind::Header => "th"@,
    }
}

/// Calls `build_html::TableCell::new`: the cell has the tag of its kind, and
/// nothing in it.
#[verifier::external_body]
pub(crate) fn new_cell(kind: CellKind) -> (cell: TableCell)
    ensures
        cell_view(cell) == bare(cell_tag(kind)),
{
    TableCell::new(
        match kind {
            CellKind::Data => TableCellType::Data,
            CellKind::Header => TableCellType::Header,
        },
    )
}

/// Calls `build_html::HtmlContainer::with_raw` of a cell: the text becomes the
/// cell's last child as it is.
#[verifier::external_body]
pub(crate) fn cell_with_raw(cell: TableCell, text: &str) -> (filled: TableCell)
    ensures
        cell_view(filled) == cell_view(cell).with_child(text@),
{
    cell.with_raw(text)
}

/// Calls `build_html::TableRow::new`: the row has no cells.
#[verifier::external_body]
pub(crate) fn new_row() -> (row: TableRow)
    ensures
        row_view(row) == bare("tr"@),
{
    TableRow::new()
}

/// Calls `build_html::TableRow::with_cell`: the cell becomes the row's last
/// child.
#[verifier::external_body]
pub(crate) fn row_with_cell(row: TableRow, cell: TableCell) -> (filled: TableRow)
    ensures
        row_view(filled) == row_view(row).with_child(element_html(cell_view(cell))),
{
    row.with_cell(cell)
}

/// Calls `build_html::Table::new`: head and body are empty, and there is neither
/// foot nor caption.
#[verifier::external_body]
pub(crate) fn new_table() -> (table: Table)
    ensures
        table_view(table) == bare_table(),
{
    Table::new()
}

/// Calls `build_html::Table::with_attributes` with one attribute, which becomes
/// the table's last.
#[verifier::external_body]
pub(crate) fn table_with_attribute(table: Table, key: &str, value: &str) -> (changed: Table)
    ensures
        table_view(changed) == (TableView {
            table: table_view(table).table.with_attribute(key@, value@),
            ..table_view(table)
        }),
{
    table.with_attributes([(key, value)])
}

/// Calls `build_html::Table::with_thead_attributes` with one attribute, which
/// becomes the last of the table's head.
#[verifier::external_body]
pub(crate) fn table_with_head_attribute(table: Table, key: &str, value: &str) -> (changed: Table)
    ensures
        table_view(changed) == (TableView {
            head: table_view(table).head.with_attribute(key@, value@),
            ..table_view(table)
        }),
{
    table.with_thead_attributes([(key, value)])
}

/// Calls `build_html::Table::with_custom_header_row`: the row becomes the last
/// child of the table's head.
#[verifier::external_body]
pub(crate) fn table_with_header_row(table: Table, row: TableRow) -> (changed: Table)
    ensures
        table_view(changed) == (TableView {
            head: table_view(table).head.with_child(element_html(row_view(row))),
            ..table_view(table)
        }),
{
    table.with_custom_header_row(row)
}

/// Calls `build_html::Table::with_custom_body_row`: the row becomes the last
/// child of the table's body.
#[verifier::external_body]
pub(crate) fn table_with_body_row(table: Table, row: TableRow) -> (changed: Table)
    ensures
        table_view(changed) == (TableView {
            body: table_view(table).body.with_child(element_html(row_view(row))),
            ..table_view(table)
        }),
{
    table.with_custom_body_row(row)
}

/// Calls `build_html::Container::new` for a section: it is empty.
#[verifier::external_body]
pub(crate) fn new_section() -> (section: Container)
    ensures
        container_view(section) == bare("section"@),
{
    Container::new(ContainerType::Section)
}

/// Calls `build_html::HtmlContainer::with_paragraph_attr` of a section, with one
/// attribute: a paragraph that has the attribute and the text becomes the
/// section's last child.
#[verifier::external_body]
pub(crate) fn section_with_paragraph_attr(
    section: Container,
    text: &str,
    key: &str,
    value: &str,
) -> (filled: Container)
    requires
        container_view(section).tag == "section"@,
    ensures
        container_view(filled) == container_view(section).with_child(
            element_html(paragraph(text@).with_attribute(key@, value@)),
        ),
{
    section.with_paragraph_attr(text, [(key, value)])
}

/// Calls `build_html::HtmlContainer::with_paragraph` of a section: a paragraph
/// with the text becomes the section's last child.
#[verifier::external_body]
pub(crate) fn section_with_paragraph(section: Container, text: &str) -> (filled: Container)
    requires
        container_view(section).tag == "section"@,
    ensures
        container_view(filled) == container_view(section).with_child(
            element_html(paragraph(text@)),
        ),
{
    section.with_paragraph(text)
}

/// Calls `build_html::HtmlContainer::with_table` of a section: the table becomes
/// the section's last child.
#[verifier::external_body]
pub(crate) fn section_with_table(section: Container, table: Table) -> (filled: Container)
    requires
        container_view(section).tag == "section"@,
    ensures
        container_view(filled) == container_view(section).with_child(
            table_html(table_view(table)),
        ),
{
    section.with_table(table)
}

/// Calls `build_html::HtmlElement::new` for a `div`: it is empty.
#[verifier::external_body]
pub(crate) fn new_div() -> (div: HtmlElement)
    ensures
        element_view(div) == bare("div"@),
{
    HtmlElement::new(HtmlTag::Div)
}

/// Calls `build_html::HtmlContainer::with_raw` of an element: the text becomes
/// the element's last child as it is.
#[verifier::external_body]
pub(crate) fn element_with_raw(element: HtmlElement, text: &str) -> (filled: HtmlElement)
    ensures
        element_view(filled) == element_view(element).with_child(text@),
{
    element.with_raw(text)
}

/// Calls `build_html::HtmlContainer::with_container` of an element: the
/// container becomes the element's last child.
#[verifier::external_body]
pub(crate) fn element_with_container(
    element: HtmlElement,
    container: Container,
) -> (filled: HtmlElement)
    ensures
        element_view(filled) == element_view(element).with_child(
            element_html(container_view(container)),
        ),
{
    element.with_container(container)
}

} // verus!
