//! The tabs of the status page.

use crate::html;
use crate::html::{
    cell_with_raw, element_with_container, element_with_raw, new_cell, new_div, new_row,
    new_section, new_table, row_with_cell, section_with_paragraph, section_with_paragraph_attr,
    section_with_table, table_with_attribute, table_with_body_row, table_with_head_attribute,
    table_with_header_row, CellKind, ElementView, TableView,
};
use crate::text;
use build_html::{Container, HtmlElement, TableRow};
use vstd::prelude::*;

verus! {

/// The time over which the first throughput of a stream is taken.
pub const SHORT_WINDOW_IN_SECS: u64 = 10;

/// The time over which the second throughput of a stream is taken.
pub const MIDDLE_WINDOW_IN_SECS: u64 = 60;

/// The time over which the third throughput of a stream is taken.
pub const LONG_WINDOW_IN_SECS: u64 = 600;

/// The times over which the throughputs of a stream are taken, in the order of
/// their columns.
pub fn throughput_windows() -> (windows: Vec<u64>)
    ensures
        windows@ == seq![10u64, 60u64, 600u64],
{
    vec![SHORT_WINDOW_IN_SECS, MIDDLE_WINDOW_IN_SECS, LONG_WINDOW_IN_SECS]
}

/// A sample of a stream's progress: the version that it had reached.
#[derive(Clone, Copy, Debug, PartialEq, Eq, Structural)]
pub struct Sample {
    pub version: u64,
}

/// A stream that is being served. The throughputs are those over the three
/// windows of [`throughput_windows`], as text.
pub struct ActiveStream {
    pub id: String,
    pub end_version: Option<u64>,
    pub progress: Option<Vec<Sample>>,
    pub short_throughput: String,
    pub middle_throughput: String,
    pub long_throughput: String,
}

/// What a connection manager knows.
pub struct ConnectionManagerInfo {
    pub known_latest_version: u64,
    pub active_streams: Vec<ActiveStream>,
}

/// A tab of the page.
pub struct Tab {
    pub name: String,
    pub content: HtmlElement,
}

/// What a [`Tab`] shows.
pub struct TabView {
    pub name: Seq<char>,
    pub content: ElementView,
}

impl View for Tab {
    type V = TabView;

    open spec fn view(&self) -> TabView {
        TabView { name: self.name@, content: html::element_view(self.content) }
    }
}

/// A cell with a text.
pub open spec fn text_cell(kind: CellKind, text: Seq<char>) -> Seq<char> {
    html::element_html(html::bare(html::cell_tag(kind)).with_child(text))
}

/// A row of cells.
pub open spec fn text_row(kind: CellKind, texts: Seq<Seq<char>>) -> ElementView {
    ElementView {
        children: texts.map_values(|text: Seq<char>| text_cell(kind, text)),
        ..html::bare("tr"@)
    }
}

/// The titles of the columns of the streams' table.
pub open spec fn column_titles() -> Seq<Seq<char>> {
    seq![
        "Id"@,
        "Current Version"@,
        "End Version"@,
        "Past 10s throughput"@,
        "Past 60s throughput"@,
        "Past 10min throughput"@,
    ]
}

/// The version of the last sample, where there is one.
pub open spec fn current_version(progress: Option<Vec<Sample>>) -> Option<u64> {
    match progress {
        Some(samples) => if samples@.len() == 0 {
            None
        } else {
            Some(samples@.last().version)
        },
        None => None,
    }
}

/// The last version of a stream; a stream without one shows zero.
pub open spec fn shown_end_version(end_version: Option<u64>) -> u64 {
    match end_version {
        Some(version) => version,
        None => 0,
    }
}

/// The columns of a stream.
pub open spec fn stream_columns(stream: ActiveStream) -> Seq<Seq<char>> {
    seq![
        stream.id@,
        text::debug_optional(current_version(stream.progress)),
        text::decimal(shown_end_version(stream.end_version) as nat),
        stream.short_throughput@,
        stream.middle_throughput@,
        stream.long_throughput@,
    ]
}

/// The table of the streams.
pub open spec fn streams_table(streams: Seq<ActiveStream>) -> TableView {
    TableView {
        table: html::bare("table"@).with_attribute(
            "style"@,
            "width: 100%; border: 5px solid black;"@,
        ),
        head: html::bare("thead"@).with_attribute(
            "style"@,
            "background-color: lightcoral; color: white;"@,
        ).with_child(html::element_html(text_row(CellKind::Header, column_titles()))),
        body: ElementView {
            children: streams.map_values(
                |stream: ActiveStream|
                    html::element_html(text_row(CellKind::Data, stream_columns(stream))),
            ),
            ..html::bare("tbody"@)
        },
        ..html::bare_table()
    }
}

/// A title of the page.
pub open spec fn title(text: Seq<char>, style: Seq<char>) -> Seq<char> {
    html::element_html(html::paragraph(text).with_attribute("style"@, style))
}

/// The style of the titles of sections.
pub const SECTION_TITLE_STYLE: &'static str = "font-size: 24px; font-weight: bold;";

/// The style of the titles inside of sections.
pub const SUBTITLE_STYLE: &'static str = "font-size: 16px; font-weight: bold;";

/// A section with nothing but a title.
pub open spec fn titled_section(text: Seq<char>) -> ElementView {
    html::bare("section"@).with_child(title(text, SECTION_TITLE_STYLE@))
}

/// The section of a connection manager.
pub open spec fn connection_manager_section(info: ConnectionManagerInfo) -> ElementView {
    titled_section("Connection Manager"@).with_child(
        html::element_html(
            html::paragraph(
                "Known latest version: "@ + text::decimal(info.known_latest_version as nat) + "."@,
            ),
        ),
    ).with_child(title("Active Streams"@, SUBTITLE_STYLE@)).with_child(
        html::table_html(streams_table(info.active_streams@)),
    )
}

/// The tab that everybody sees.
pub open spec fn overview_tab() -> TabView {
    TabView { name: "Overview"@, content: html::bare("div"@).with_child("Welcome!"@) }
}

/// The tab of a service: its connection manager, and where its data is.
pub open spec fn service_tab(
    name: Seq<char>,
    info: ConnectionManagerInfo,
    storage: Seq<char>,
) -> TabView {
    TabView {
        name,
        content: html::bare("div"@).with_child(
            html::element_html(connection_manager_section(info)),
        ).with_child(html::element_html(titled_section(storage))),
    }
}

/// The tabs of the page: those of services that do not run are missing.
pub open spec fn page_tabs(
    live: Option<ConnectionManagerInfo>,
    historical: Option<ConnectionManagerInfo>,
) -> Seq<TabView> {
    seq![overview_tab()] + (match live {
        Some(info) => seq![service_tab("LiveDataService"@, info, "In Memory Cache"@)],
        None => Seq::empty(),
    }) + (match historical {
        Some(info) => seq![service_tab("HistoricalDataService"@, info, "File Store"@)],
        None => Seq::empty(),
    })
}

/// What tabs show.
pub open spec fn tab_views(tabs: Seq<Tab>) -> Seq<TabView> {
    tabs.map_values(|tab: Tab| tab@)
}

fn row_with_text(row: TableRow, kind: CellKind, text: &str) -> (filled: TableRow)
    ensures
        html::row_view(filled) == html::row_view(row).with_child(text_cell(kind, text@)),
{
    row_with_cell(row, cell_with_raw(new_cell(kind), text))
}

/// The row of the table's head.
fn header_row() -> (row: TableRow)
    ensures
        html::row_view(row) == text_row(CellKind::Header, column_titles()),
{
    let row = new_row();
    let row = row_with_text(row, CellKind::Header, "Id");
    let row = row_with_text(row, CellKind::Header, "Current Version");
    let row = row_with_text(row, CellKind::Header, "End Version");
    let row = row_with_text(row, CellKind::Header, "Past 10s throughput");
    let row = row_with_text(row, CellKind::Header, "Past 60s throughput");
    let row = row_with_text(row, CellKind::Header, "Past 10min throughput");
    assert(html::row_view(row) =~= text_row(CellKind::Header, column_titles()));
    row
}

/// The row of a stream.
fn stream_row(stream: &ActiveStream) -> (row: TableRow)
    ensures
        html::row_view(row) == text_row(CellKind::Data, stream_columns(*stream)),
{
    let current = match &stream.progress {
        Some(samples) => if samples.len() == 0 {
            None
        } else {
            Some(samples[samples.len() - 1].version)
        },
        None => None,
    };
    let end: u64 = match stream.end_version {
        Some(version) => version,
        None => 0,
    };
    let row = new_row();
    let row = row_with_text(row, CellKind::Data, stream.id.as_str());
    let row = row_with_text(row, CellKind::Data, text::debug_optional_string(current).as_str());
    let row = row_with_text(row, CellKind::Data, text::decimal_string(end).as_str());
    let row = row_with_text(row, CellKind::Data, stream.short_throughput.as_str());
    let row = row_with_text(row, CellKind::Data, stream.middle_throughput.as_str());
    let row = row_with_text(row, CellKind::Data, stream.long_throughput.as_str());
    assert(html::row_view(row) =~= text_row(CellKind::Data, stream_columns(*stream)));
    row
}

/// Shows what a connection manager knows.
pub fn render_connection_manager_info(info: &ConnectionManagerInfo) -> (section: Container)
    ensures
        html::container_view(section) == connection_manager_section(*info),
{
    let table = new_table();
    let table = table_with_attribute(table, "style", "width: 100%; border: 5px solid black;");
    let table = table_with_head_attribute(
        table,
        "style",
        "background-color: lightcoral; color: white;",
    );
    let mut table = table_with_header_row(table, header_row());
    let streams = &info.active_streams;
    let mut i: usize = 0;
    assert(html::table_view(table) =~= streams_table(streams@.take(0)));
    while i < streams.len()
        invariant
            i <= streams.len(),
            html::table_view(table) == streams_table(streams@.take(i as int)),
        decreases streams.len() - i,
    {
        table = table_with_body_row(table, stream_row(&streams[i]));
        i += 1;
        proof {
            let shown = streams@.take(i as int);
            assert(shown =~= streams@.take(i - 1).push(streams@[i - 1]));
            assert(html::table_view(table) =~= streams_table(shown));
        }
    }
    assert(streams@.take(i as int) =~= streams@);

    let mut latest = String::from_str("Known latest version: ");
    latest.append(text::decimal_string(info.known_latest_version).as_str());
    latest.append(".");
    let section = new_section();
    let section = section_with_paragraph_attr(
        section,
        "Connection Manager",
        "style",
        SECTION_TITLE_STYLE,
    );
    let section = section_with_paragraph(section, latest.as_str());
    let section = section_with_paragraph_attr(section, "Active Streams", "style", SUBTITLE_STYLE);
    section_with_table(section, table)
}

/// Shows the cache of the live data service.
pub fn render_cache_info() -> (section: Container)
    ensures
        html::container_view(section) == titled_section("In Memory Cache"@),
{
    section_with_paragraph_attr(new_section(), "In Memory Cache", "style", SECTION_TITLE_STYLE)
}

/// Shows the file store of the historical data service.
pub fn render_file_store_info() -> (section: Container)
    ensures
        html::container_view(section) == titled_section("File Store"@),
{
    section_with_paragraph_attr(new_section(), "File Store", "style", SECTION_TITLE_STYLE)
}

/// The tabs of the page, given what the services that run know.
pub fn status_tabs(
    live: &Option<ConnectionManagerInfo>,
    historical: &Option<ConnectionManagerInfo>,
) -> (tabs: Vec<Tab>)
    ensures
        tab_views(tabs@) == page_tabs(*live, *historical),
{
    let mut tabs: Vec<Tab> = Vec::new();
    tabs.push(
        Tab {
            name: String::from_str("Overview"),
            content: element_with_raw(new_div(), "Welcome!"),
        },
    );
    if let Some(info) = live {
        let content = element_with_container(new_div(), render_connection_manager_info(info));
        let content = element_with_container(content, render_cache_info());
        tabs.push(Tab { name: String::from_str("LiveDataService"), content });
    }
    if let Some(info) = historical {
        let content = element_with_container(new_div(), render_connection_manager_info(info));
        let content = element_with_container(content, render_file_store_info());
        tabs.push(Tab { name: String::from_str("HistoricalDataService"), content });
    }
    assert(tab_views(tabs@) =~= page_tabs(*live, *historical));
    tabs
}

/// There is one tab to every service that runs, besides the one that everybody
/// sees, and it stands first.
pub proof fn law_one_tab_per_service(
    live: Option<ConnectionManagerInfo>,
    historical: Option<ConnectionManagerInfo>,
)
    ensures
        page_tabs(live, historical)[0] == overview_tab(),
        page_tabs(live, historical).len() == 1 + if live is Some {
            1int
        } else {
            0
        } + if historical is Some {
            1int
        } else {
            0
        },
{
}

/// Every stream has its own row in the table, in the order of the streams.
pub proof fn law_one_row_per_stream(streams: Seq<ActiveStream>, i: int)
    requires
        0 <= i < streams.len(),
    ensures
        streams_table(streams).body.children.len() == streams.len(),
        streams_table(streams).body.children[i] == html::element_html(
            text_row(CellKind::Data, stream_columns(streams[i])),
        ),
        stream_columns(streams[i]).len() == column_titles().len(),
{
}

/// The throughputs stand under the titles of their windows.
pub proof fn law_throughputs_stand_under_their_windows(stream: ActiveStream)
    ensures
        column_titles()[3] == "Past 10s throughput"@,
        stream_columns(stream)[3] == stream.short_throughput@,
        column_titles()[4] == "Past 60s throughput"@,
        stream_columns(stream)[4] == stream.middle_throughput@,
        column_titles()[5] == "Past 10min throughput"@,
        stream_columns(stream)[5] == stream.long_throughput@,
        SHORT_WINDOW_IN_SECS == 10,
        MIDDLE_WINDOW_IN_SECS == 60,
        LONG_WINDOW_IN_SECS == 10 * 60,
{
}

} // verus!
