use aptos_toolkit::config::{
    HistoricalDataServiceConfig, IndexerGrpcDataServiceConfig, LiveDataServiceConfig,
    ServiceConfig, TlsConfig,
};
use aptos_toolkit::status_page::{
    render_cache_info, render_connection_manager_info, render_file_store_info, throughput_windows,
    ActiveStream, ConnectionManagerInfo, Sample,
};
use build_html::Html;

fn config(live: bool, historical: bool, tls: bool) -> IndexerGrpcDataServiceConfig<String> {
    IndexerGrpcDataServiceConfig {
        chain_id: 4,
        service_config: ServiceConfig {
            listen_address: "127.0.0.1:50051".to_string(),
            tls_config: if tls {
                Some(TlsConfig {
                    cert_path: "cert.pem".to_string(),
                    key_path: "key.pem".to_string(),
                })
            } else {
                None
            },
        },
        live_data_service_config: LiveDataServiceConfig {
            enabled: live,
            num_slots: LiveDataServiceConfig::default_num_slots(),
            size_limit_bytes: LiveDataServiceConfig::default_size_limit_bytes(),
        },
        historical_data_service_config: HistoricalDataServiceConfig {
            enabled: historical,
            file_store_config: "bucket".to_string(),
        },
        grpc_manager_addresses: vec!["a:1".to_string(), "b:2".to_string()],
        self_advertised_address: "me:3".to_string(),
        data_service_response_channel_size: 8,
    }
}

#[test]
fn defaults_of_the_configuration() {
    assert_eq!(LiveDataServiceConfig::default_num_slots(), 5_000_000);
    assert_eq!(
        LiveDataServiceConfig::default_size_limit_bytes(),
        10_000_000_000
    );
    assert_eq!(
        IndexerGrpcDataServiceConfig::<String>::default_data_service_response_channel_size(),
        5
    );
    assert_eq!(
        config(true, true, false).get_server_name(),
        "indexer_grpc_data_service_v2"
    );
}

#[test]
fn services_are_created_where_enabled() {
    let config = config(true, false, false);
    assert!(config.create_historical_data_service().is_none());
    let live = config.create_live_data_service().unwrap();
    assert_eq!(live.chain_id, 4);
    assert_eq!(live.grpc_manager_addresses, vec!["a:1", "b:2"]);
    assert_eq!(live.self_advertised_address, "me:3");
    assert!(live.is_live_data_service);
    assert_eq!(live.handler_channel_size, 10);
    assert_eq!(live.response_channel_size, 8);
    assert!(live.file_store_config.is_none());
    let cache = live.cache.unwrap();
    assert_eq!(cache.num_slots, 5_000_000);
    assert_eq!(cache.size_limit_bytes, 10_000_000_000);
}

#[test]
fn historical_service_is_not_live() {
    let config = config(false, true, false);
    assert!(config.create_live_data_service().is_none());
    let historical = config.create_historical_data_service().unwrap();
    assert!(!historical.is_live_data_service);
    assert!(historical.cache.is_none());
    assert_eq!(historical.file_store_config.unwrap(), "bucket");
    assert_eq!(historical.grpc_manager_addresses.len(), 2);
}

#[test]
fn server_to_run() {
    let both = config(true, true, true);
    let server = both.run();
    assert!(server.live_data_service.is_some());
    assert!(server.historical_data_service.is_some());
    assert_eq!(server.listen_address, "127.0.0.1:50051");
    let tls = server.tls_config.unwrap();
    assert_eq!(tls.cert_path, "cert.pem");
    assert_eq!(tls.key_path, "key.pem");
    assert_eq!(server.http2_keepalive_interval_secs, 60);
    assert_eq!(server.http2_keepalive_timeout_secs, 10);
    assert_eq!(server.max_message_size, 256 * (1 << 20));
    assert_eq!(server.num_tasks, 5);

    let one = config(false, true, false);
    let server = one.run();
    assert!(server.live_data_service.is_none());
    assert!(server.tls_config.is_none());
    assert_eq!(server.num_tasks, 3);
    assert_eq!(config(false, false, false).run().num_tasks, 1);
}

fn stream(id: &str, end_version: Option<u64>, progress: Option<Vec<Sample>>) -> ActiveStream {
    ActiveStream {
        id: id.to_string(),
        end_version,
        progress,
        short_throughput: "1 tps".to_string(),
        middle_throughput: "2 tps".to_string(),
        long_throughput: "3 tps".to_string(),
    }
}

const HEAD: &str = "<table style=\"width: 100%; border: 5px solid black;\">\
    <thead style=\"background-color: lightcoral; color: white;\"><tr><th>Id</th>\
    <th>Current Version</th><th>End Version</th><th>Past 10s throughput</th>\
    <th>Past 60s throughput</th><th>Past 10min throughput</th></tr></thead>";

fn manager_html(latest: u64, body: &str) -> String {
    format!(
        "<section><p style=\"font-size: 24px; font-weight: bold;\">Connection Manager</p>\
         <p>Known latest version: {}.</p>\
         <p style=\"font-size: 16px; font-weight: bold;\">Active Streams</p>{}{}</table></section>",
        latest, HEAD, body
    )
}

#[test]
fn connection_manager_without_streams() {
    let info = ConnectionManagerInfo {
        known_latest_version: 0,
        active_streams: vec![],
    };
    assert_eq!(
        render_connection_manager_info(&info).to_html_string(),
        manager_html(0, "<tbody/>")
    );
}

#[test]
fn connection_manager_with_streams() {
    let info = ConnectionManagerInfo {
        known_latest_version: 1234,
        active_streams: vec![
            stream(
                "one",
                Some(99),
                Some(vec![Sample { version: 5 }, Sample { version: 17 }]),
            ),
            stream("two", None, Some(vec![])),
            stream("three", Some(1), None),
        ],
    };
    let rest = "<td>1 tps</td><td>2 tps</td><td>3 tps</td></tr>";
    let body = format!(
        "<tbody><tr><td>one</td><td>Some(17)</td><td>99</td>{}\
         <tr><td>two</td><td>None</td><td>0</td>{}\
         <tr><td>three</td><td>None</td><td>1</td>{}</tbody>",
        rest, rest, rest
    );
    assert_eq!(
        render_connection_manager_info(&info).to_html_string(),
        manager_html(1234, &body)
    );
}

#[test]
fn sections_with_a_title() {
    assert_eq!(
        render_cache_info().to_html_string(),
        "<section><p style=\"font-size: 24px; font-weight: bold;\">In Memory Cache</p></section>"
    );
    assert_eq!(
        render_file_store_info().to_html_string(),
        "<section><p style=\"font-size: 24px; font-weight: bold;\">File Store</p></section>"
    );
}

#[test]
fn tabs_of_the_status_page() {
    let info = || {
        Some(ConnectionManagerInfo {
            known_latest_version: 7,
            active_streams: vec![],
        })
    };
    let config = config(true, true, false);
    let tabs = config.status_page(&None, &None);
    assert_eq!(tabs.len(), 1);
    assert_eq!(tabs[0].name, "Overview");
    assert_eq!(tabs[0].content.to_html_string(), "<div>Welcome!</div>");

    let tabs = config.status_page(&info(), &info());
    let names: Vec<&str> = tabs.iter().map(|tab| tab.name.as_str()).collect();
    assert_eq!(
        names,
        vec!["Overview", "LiveDataService", "HistoricalDataService"]
    );
    assert_eq!(
        tabs[1].content.to_html_string(),
        format!(
            "<div>{}{}</div>",
            manager_html(7, "<tbody/>"),
            render_cache_info().to_html_string()
        )
    );
    assert_eq!(
        tabs[2].content.to_html_string(),
        format!(
            "<div>{}{}</div>",
            manager_html(7, "<tbody/>"),
            render_file_store_info().to_html_string()
        )
    );
    let tabs = config.status_page(&None, &info());
    assert_eq!(tabs.len(), 2);
    assert_eq!(tabs[1].name, "HistoricalDataService");
}

#[test]
fn windows_of_the_throughputs() {
    assert_eq!(throughput_windows(), vec![10, 60, 600]);
}
