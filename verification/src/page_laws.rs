//! What stands where on the status page.

use crate::html;
use crate::html::CellKind;
use crate::status_page;
use crate::status_page::{ActiveStream, ConnectionManagerInfo, Sample, Tab};
use crate::text;
use vstd::prelude::*;

verus! {

/// Every stream shows its name, the version that it has reached, which is that of
/// its last sample, if it has one, and the version that it ends at, or zero. These
/// stand under their titles.
pub proof fn law_versions_stand_under_their_titles(stream: ActiveStream)
    ensures
        status_page::column_titles().len() == 6,
        status_page::stream_columns(stream).len() == 6,
        status_page::column_titles()[0] == "Id"@,
        status_page::stream_columns(stream)[0] == stream.id@,
        status_page::column_titles()[1] == "Current Version"@,
        status_page::stream_columns(stream)[1] == match stream.progress {
            Some(samples) => if samples@.len() > 0 {
                "Some("@ + text::decimal(samples@[samples@.len() - 1].version as nat) + ")"@
            } else {
                "None"@
            },
            None => "None"@,
        },
        status_page::column_titles()[2] == "End Version"@,
        stream.end_version matches Some(version) ==> status_page::stream_columns(stream)[2]
            == text::decimal(version as nat),
        stream.end_version is None ==> status_page::stream_columns(stream)[2] == text::decimal(0),
{
}

/// Only the last sample of a stream counts.
pub proof fn law_last_sample_counts(samples: Vec<Sample>, fewer: Vec<Sample>)
    requires
        samples@.len() > 0,
    ensures
        status_page::current_version(Some(samples)) == Some(samples@.last().version),
        fewer@.len() == 0 ==> status_page::current_version(Some(fewer)) is None,
        fewer@.len() > 0 && fewer@.last() == samples@.last() ==> status_page::current_version(
            Some(fewer),
        ) == status_page::current_version(Some(samples)),
        status_page::current_version(None) is None,
{
}

/// A row has a cell to every text, in their order, with the text in it as it is.
pub proof fn law_rows_show_their_texts(texts: Seq<Seq<char>>, i: int)
    requires
        0 <= i < texts.len(),
    ensures
        ({
            let titles = status_page::text_row(CellKind::Header, texts);
            let values = status_page::text_row(CellKind::Data, texts);
            &&& titles.tag == "tr"@ && values.tag == "tr"@
            &&& titles.attributes.len() == 0 && values.attributes.len() == 0
            &&& titles.children.len() == texts.len() && values.children.len() == texts.len()
            &&& titles.children[i] == "<"@ + "th"@ + ">"@ + texts[i] + "</"@ + "th"@ + ">"@
            &&& values.children[i] == "<"@ + "td"@ + ">"@ + texts[i] + "</"@ + "td"@ + ">"@
        }),
{
    let children = seq![texts[i]];
    assert(children.drop_last() =~= Seq::empty());
    assert(html::joined(children.drop_last()) =~= Seq::empty());
    assert(html::joined(children) =~= texts[i]);
    let header = html::bare("th"@).with_child(texts[i]);
    assert(header.children =~= children);
    assert(html::attributes_text(header.attributes) =~= Seq::empty());
    assert(html::element_html(header) =~= "<"@ + "th"@ + ">"@ + texts[i] + "</"@ + "th"@ + ">"@);
    let data = html::bare("td"@).with_child(texts[i]);
    assert(data.children =~= children);
    assert(html::attributes_text(data.attributes) =~= Seq::empty());
    assert(html::element_html(data) =~= "<"@ + "td"@ + ">"@ + texts[i] + "</"@ + "td"@ + ">"@);
}

/// The table has the titles in its head, and nothing in it but head and body.
pub proof fn law_table_has_one_head(streams: Seq<ActiveStream>)
    ensures
        ({
            let table = status_page::streams_table(streams);
            &&& table.head.children == seq![
                html::element_html(
                    status_page::text_row(CellKind::Header, status_page::column_titles()),
                ),
            ]
            &&& table.table.children.len() == 0
            &&& table.foot.children.len() == 0 && table.foot.attributes.len() == 0
            &&& table.caption is None
            &&& table.table.tag == "table"@ && table.head.tag == "thead"@ && table.body.tag
                == "tbody"@
            &&& table.table.attributes == seq![
                ("style"@, "width: 100%; border: 5px solid black;"@),
            ]
            &&& table.head.attributes == seq![
                ("style"@, "background-color: lightcoral; color: white;"@),
            ]
            &&& table.body.attributes.len() == 0
        }),
{
    let table = status_page::streams_table(streams);
    assert(table.head.children =~= seq![
        html::element_html(
            status_page::text_row(CellKind::Header, status_page::column_titles()),
        ),
    ]);
    assert(table.table.attributes =~= seq![("style"@, "width: 100%; border: 5px solid black;"@)]);
    assert(table.head.attributes =~= seq![
        ("style"@, "background-color: lightcoral; color: white;"@),
    ]);
}

/// The section of a connection manager shows, below its title, the latest version
/// that it knows, and the table of all its streams, below a title of their own.
pub proof fn law_section_shows_the_manager(info: ConnectionManagerInfo)
    ensures
        ({
            let section = status_page::connection_manager_section(info);
            &&& section.tag == "section"@
            &&& section.attributes.len() == 0
            &&& section.children.len() == 4
            &&& section.children[0] == html::element_html(
                html::paragraph("Connection Manager"@).with_attribute(
                    "style"@,
                    "font-size: 24px; font-weight: bold;"@,
                ),
            )
            &&& section.children[1] == html::element_html(
                html::paragraph(
                    "Known latest version: "@ + text::decimal(info.known_latest_version as nat)
                        + "."@,
                ),
            )
            &&& section.children[2] == html::element_html(
                html::paragraph("Active Streams"@).with_attribute(
                    "style"@,
                    "font-size: 16px; font-weight: bold;"@,
                ),
            )
            &&& section.children[3] == html::table_html(
                status_page::streams_table(info.active_streams@),
            )
        }),
{
}

/// The tab of a service shows its connection manager, and below it where its data
/// is: that of the live one in memory, that of the historical one in files. The
/// live tab comes first.
pub proof fn law_tabs_show_their_services(
    live: Option<ConnectionManagerInfo>,
    historical: Option<ConnectionManagerInfo>,
)
    ensures
        ({
            let tabs = status_page::page_tabs(live, historical);
            &&& tabs[0].name == "Overview"@
            &&& tabs[0].content.tag == "div"@
            &&& tabs[0].content.children == seq!["Welcome!"@]
            &&& live matches Some(info) ==> shows(
                tabs[1],
                "LiveDataService"@,
                info,
                "In Memory Cache"@,
            )
            &&& historical matches Some(info) ==> shows(
                tabs[tabs.len() - 1],
                "HistoricalDataService"@,
                info,
                "File Store"@,
            )
        }),
{
    let tabs = status_page::page_tabs(live, historical);
    assert(tabs[0].content.children =~= seq!["Welcome!"@]);
    if let Some(info) = live {
        lemma_service_tab("LiveDataService"@, info, "In Memory Cache"@);
    }
    if let Some(info) = historical {
        lemma_service_tab("HistoricalDataService"@, info, "File Store"@);
    }
}

/// The tab has the name, and shows the connection manager and then the storage.
pub open spec fn shows(
    tab: status_page::TabView,
    name: Seq<char>,
    info: ConnectionManagerInfo,
    storage: Seq<char>,
) -> bool {
    let title = html::paragraph(storage).with_attribute(
        "style"@,
        "font-size: 24px; font-weight: bold;"@,
    );
    &&& tab.name == name
    &&& tab.content.tag == "div"@
    &&& tab.content.attributes.len() == 0
    &&& tab.content.children == seq![
        html::element_html(status_page::connection_manager_section(info)),
        html::element_html(html::bare("section"@).with_child(html::element_html(title))),
    ]
}

proof fn lemma_service_tab(name: Seq<char>, info: ConnectionManagerInfo, storage: Seq<char>)
    ensures
        shows(status_page::service_tab(name, info, storage), name, info, storage),
{
    let title = html::paragraph(storage).with_attribute(
        "style"@,
        "font-size: 24px; font-weight: bold;"@,
    );
    assert(status_page::service_tab(name, info, storage).content.children =~= seq![
        html::element_html(status_page::connection_manager_section(info)),
        html::element_html(html::bare("section"@).with_child(html::element_html(title))),
    ]);
}

/// The section of a storage has its title in it and nothing else.
pub proof fn law_storage_sections_have_a_title(storage: Seq<char>)
    ensures
        ({
            let section = status_page::titled_section(storage);
            &&& section.tag == "section"@
            &&& section.attributes.len() == 0
            &&& section.children == seq![
                html::element_html(
                    html::paragraph(storage).with_attribute(
                        "style"@,
                        "font-size: 24px; font-weight: bold;"@,
                    ),
                ),
            ]
        }),
{
    assert(status_page::titled_section(storage).children =~= seq![
        html::element_html(
            html::paragraph(storage).with_attribute(
                "style"@,
                "font-size: 24px; font-weight: bold;"@,
            ),
        ),
    ]);
}

/// Tabs show their names and their contents, in their order.
pub proof fn law_tabs_show_all(tabs: Seq<Tab>, i: int)
    requires
        0 <= i < tabs.len(),
    ensures
        status_page::tab_views(tabs).len() == tabs.len(),
        status_page::tab_views(tabs)[i].name == tabs[i].name@,
        status_page::tab_views(tabs)[i].content == html::element_view(tabs[i].content),
{
}

} // verus!
