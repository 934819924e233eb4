//! The configuration of the data service, and what follows from it for the
//! services to create and the server to run.

use crate::status_page;
use crate::status_page::{status_tabs, ConnectionManagerInfo, Tab};
use vstd::prelude::*;

verus! {

/// The largest message that is sent or accepted.
pub const MAX_MESSAGE_SIZE: usize = 268_435_456;

/// How often a client is pinged. Together with the timeout this lets the server
/// drop connections that are dead.
pub const HTTP2_PING_INTERVAL_IN_SECS: u64 = 60;

/// How long a client may take to answer a ping.
pub const HTTP2_PING_TIMEOUT_IN_SECS: u64 = 10;

/// How many responses wait for a client where nothing else is set.
pub const DEFAULT_MAX_RESPONSE_CHANNEL_SIZE: usize = 5;

/// How many requests wait for a service.
pub const HANDLER_CHANNEL_SIZE: usize = 10;

/// The background tasks of a service: its connections, and the service itself.
pub const TASKS_PER_SERVICE: usize = 2;

/// Where the certificate and the key of the server are.
#[derive(Clone, Debug, PartialEq, Eq)]
pub struct TlsConfig {
    pub cert_path: String,
    pub key_path: String,
}

/// Where and how the server listens.
#[derive(Clone, Debug, PartialEq, Eq)]
pub struct ServiceConfig {
    /// The address to listen on.
    pub listen_address: String,
    pub tls_config: Option<TlsConfig>,
}

/// The settings of the live data service.
#[derive(Clone, Copy, Debug, PartialEq, Eq)]
pub struct LiveDataServiceConfig {
    pub enabled: bool,
    pub num_slots: usize,
    pub size_limit_bytes: u64,
}

impl LiveDataServiceConfig {
    /// How many transactions are kept where nothing else is set.
    pub fn default_num_slots() -> (num_slots: usize)
        ensures
            num_slots == 5_000_000,
    {
        5_000_000
    }

    /// How many bytes are kept where nothing else is set.
    pub fn default_size_limit_bytes() -> (size_limit_bytes: u64)
        ensures
            size_limit_bytes == 10_000_000_000,
    {
        10_000_000_000
    }
}

/// The settings of the historical data service, with those of its file store,
/// which are handed on as they are.
#[derive(Clone, Copy, Debug, PartialEq, Eq)]
pub struct HistoricalDataServiceConfig<F> {
    pub enabled: bool,
    pub file_store_config: F,
}

/// The settings of the whole data service.
pub struct IndexerGrpcDataServiceConfig<F> {
    pub chain_id: u64,
    pub service_config: ServiceConfig,
    pub live_data_service_config: LiveDataServiceConfig,
    pub historical_data_service_config: HistoricalDataServiceConfig<F>,
    pub grpc_manager_addresses: Vec<String>,
    pub self_advertised_address: String,
    pub data_service_response_channel_size: usize,
}

/// What a live data service keeps in memory.
#[derive(Clone, Copy, Debug, PartialEq, Eq, Structural)]
pub struct CacheSettings {
    pub num_slots: usize,
    pub size_limit_bytes: u64,
}

/// A service to create: what its connections need to know, the sizes of its
/// channels, what a live data service keeps in memory, and the file store of a
/// historical one.
pub struct DataService<'a, F> {
    pub chain_id: u64,
    pub grpc_manager_addresses: Vec<String>,
    pub self_advertised_address: String,
    pub is_live_data_service: bool,
    pub handler_channel_size: usize,
    pub response_channel_size: usize,
    pub cache: Option<CacheSettings>,
    pub file_store_config: Option<&'a F>,
}

/// What a [`DataService`] says.
#[verifier::ext_equal]
pub struct DataServiceView<F> {
    pub chain_id: u64,
    pub grpc_manager_addresses: Seq<Seq<char>>,
    pub self_advertised_address: Seq<char>,
    pub is_live_data_service: bool,
    pub handler_channel_size: usize,
    pub response_channel_size: usize,
    pub cache: Option<CacheSettings>,
    pub file_store_config: Option<F>,
}

/// The texts of strings.
pub open spec fn texts(strings: Seq<String>) -> Seq<Seq<char>> {
    strings.map_values(|string: String| string@)
}

impl<'a, F> View for DataService<'a, F> {
    type V = DataServiceView<F>;

    open spec fn view(&self) -> DataServiceView<F> {
        DataServiceView {
            chain_id: self.chain_id,
            grpc_manager_addresses: texts(self.grpc_manager_addresses@),
            self_advertised_address: self.self_advertised_address@,
            is_live_data_service: self.is_live_data_service,
            handler_channel_size: self.handler_channel_size,
            response_channel_size: self.response_channel_size,
            cache: self.cache,
            file_store_config: match self.file_store_config {
                Some(config) => Some(*config),
                None => None,
            },
        }
    }
}

/// What an optional service says.
pub open spec fn service_view<'a, F>(service: Option<DataService<'a, F>>) -> Option<
    DataServiceView<F>,
> {
    match service {
        Some(service) => Some(service@),
        None => None,
    }
}

/// The server to run.
pub struct DataServer<'a, F> {
    pub live_data_service: Option<DataService<'a, F>>,
    pub historical_data_service: Option<DataService<'a, F>>,
    pub listen_address: String,
    pub tls_config: Option<TlsConfig>,
    pub http2_keepalive_interval_secs: u64,
    pub http2_keepalive_timeout_secs: u64,
    pub max_message_size: usize,
    /// How many background tasks there are, the server itself included.
    pub num_tasks: usize,
}

/// The paths of a TLS configuration.
pub open spec fn tls_paths(config: Option<TlsConfig>) -> Option<(Seq<char>, Seq<char>)> {
    match config {
        Some(config) => Some((config.cert_path@, config.key_path@)),
        None => None,
    }
}

fn copied(strings: &Vec<String>) -> (copy: Vec<String>)
    ensures
        texts(copy@) == texts(strings@),
{
    let mut copy: Vec<String> = Vec::new();
    let mut i: usize = 0;
    assert(texts(copy@) =~= texts(strings@.take(0)));
    while i < strings.len()
        invariant
            i <= strings.len(),
            texts(copy@) == texts(strings@.take(i as int)),
        decreases strings.len() - i,
    {
        let ghost before = copy@;
        copy.push(strings[i].clone());
        i += 1;
        proof {
            assert(texts(copy@) =~= texts(before).push(strings@[i - 1]@));
            assert(texts(strings@.take(i as int)) =~= texts(strings@.take(i - 1)).push(
                strings@[i - 1]@,
            ));
        }
    }
    assert(strings@.take(i as int) =~= strings@);
    copy
}

impl<F> IndexerGrpcDataServiceConfig<F> {
    /// What the live data service keeps in memory.
    pub open spec fn live_cache(self) -> CacheSettings {
        CacheSettings {
            num_slots: self.live_data_service_config.num_slots,
            size_limit_bytes: self.live_data_service_config.size_limit_bytes,
        }
    }

    /// The service of one kind.
    pub open spec fn service(self, is_live_data_service: bool) -> DataServiceView<F> {
        DataServiceView {
            chain_id: self.chain_id,
            grpc_manager_addresses: texts(self.grpc_manager_addresses@),
            self_advertised_address: self.self_advertised_address@,
            is_live_data_service,
            handler_channel_size: HANDLER_CHANNEL_SIZE,
            response_channel_size: self.data_service_response_channel_size,
            cache: if is_live_data_service {
                Some(self.live_cache())
            } else {
                None
            },
            file_store_config: if is_live_data_service {
                None
            } else {
                Some(self.historical_data_service_config.file_store_config)
            },
        }
    }

    /// The live data service, where it is enabled.
    pub open spec fn live_service(self) -> Option<DataServiceView<F>> {
        if self.live_data_service_config.enabled {
            Some(self.service(true))
        } else {
            None
        }
    }

    /// The historical data service, where it is enabled.
    pub open spec fn historical_service(self) -> Option<DataServiceView<F>> {
        if self.historical_data_service_config.enabled {
            Some(self.service(false))
        } else {
            None
        }
    }

    /// How many responses wait for a client where nothing else is set.
    pub fn default_data_service_response_channel_size() -> (size: usize)
        ensures
            size == DEFAULT_MAX_RESPONSE_CHANNEL_SIZE,
    {
        DEFAULT_MAX_RESPONSE_CHANNEL_SIZE
    }

    fn create_service(&self, is_live_data_service: bool) -> (service: DataService<'_, F>)
        ensures
            service@ == self.service(is_live_data_service),
    {
        DataService {
            chain_id: self.chain_id,
            grpc_manager_addresses: copied(&self.grpc_manager_addresses),
            self_advertised_address: self.self_advertised_address.clone(),
            is_live_data_service,
            handler_channel_size: HANDLER_CHANNEL_SIZE,
            response_channel_size: self.data_service_response_channel_size,
            cache: if is_live_data_service {
                Some(
                    CacheSettings {
                        num_slots: self.live_data_service_config.num_slots,
                        size_limit_bytes: self.live_data_service_config.size_limit_bytes,
                    },
                )
            } else {
                None
            },
            file_store_config: if is_live_data_service {
                None
            } else {
                Some(&self.historical_data_service_config.file_store_config)
            },
        }
    }

    /// The live data service to create, if it is enabled.
    pub fn create_live_data_service(&self) -> (service: Option<DataService<'_, F>>)
        ensures
            service_view(service) == self.live_service(),
    {
        if !self.live_data_service_config.enabled {
            return None;
        }
        Some(self.create_service(true))
    }

    /// The historical data service to create, if it is enabled.
    pub fn create_historical_data_service(&self) -> (service: Option<DataService<'_, F>>)
        ensures
            service_view(service) == self.historical_service(),
    {
        if !self.historical_data_service_config.enabled {
            return None;
        }
        Some(self.create_service(false))
    }

    /// The server to run.
    pub fn run(&self) -> (server: DataServer<'_, F>)
        ensures
            service_view(server.live_data_service) == self.live_service(),
            service_view(server.historical_data_service) == self.historical_service(),
            server.listen_address@ == self.service_config.listen_address@,
            tls_paths(server.tls_config) == tls_paths(self.service_config.tls_config),
            server.http2_keepalive_interval_secs == HTTP2_PING_INTERVAL_IN_SECS,
            server.http2_keepalive_timeout_secs == HTTP2_PING_TIMEOUT_IN_SECS,
            server.max_message_size == MAX_MESSAGE_SIZE,
            server.num_tasks == 1 + if self.live_data_service_config.enabled {
                TASKS_PER_SERVICE
            } else {
                0
            } + if self.historical_data_service_config.enabled {
                TASKS_PER_SERVICE
            } else {
                0
            },
    {
        let live_data_service = self.create_live_data_service();
        let historical_data_service = self.create_historical_data_service();
        let mut num_tasks: usize = 1;
        if live_data_service.is_some() {
            num_tasks += TASKS_PER_SERVICE;
        }
        if historical_data_service.is_some() {
            num_tasks += TASKS_PER_SERVICE;
        }
        let tls_config = match &self.service_config.tls_config {
            Some(config) => Some(
                TlsConfig {
                    cert_path: config.cert_path.clone(),
                    key_path: config.key_path.clone(),
                },
            ),
            None => None,
        };
        DataServer {
            live_data_service,
            historical_data_service,
            listen_address: self.service_config.listen_address.clone(),
            tls_config,
            http2_keepalive_interval_secs: HTTP2_PING_INTERVAL_IN_SECS,
            http2_keepalive_timeout_secs: HTTP2_PING_TIMEOUT_IN_SECS,
            max_message_size: MAX_MESSAGE_SIZE,
            num_tasks,
        }
    }

    /// The name that the server goes by.
    pub fn get_server_name(&self) -> (name: String)
        ensures
            name@ == "indexer_grpc_data_service_v2"@,
    {
        String::from_str("indexer_grpc_data_service_v2")
    }

    /// The tabs of the status page, given what the services that run know.
    pub fn status_page(
        &self,
        live: &Option<ConnectionManagerInfo>,
        historical: &Option<ConnectionManagerInfo>,
    ) -> (tabs: Vec<Tab>)
        ensures
            status_page::tab_views(tabs@) == status_page::page_tabs(*live, *historical),
    {
        status_tabs(live, historical)
    }
}

/// A service is created exactly when it is enabled. The live one is given its
/// settings for the memory, the historical one those of its file store; but for
/// these and their kind the two are the same.
pub proof fn law_services_differ_in_kind<F>(config: IndexerGrpcDataServiceConfig<F>)
    ensures
        config.live_service() is Some <==> config.live_data_service_config.enabled,
        config.historical_service() is Some <==> config.historical_data_service_config.enabled,
        config.live_service() is Some ==> config.live_service()->0.is_live_data_service
            && config.live_service()->0.cache == Some(config.live_cache())
            && config.live_service()->0.file_store_config is None,
        config.historical_service() is Some
            ==> !config.historical_service()->0.is_live_data_service
            && config.historical_service()->0.cache is None
            && config.historical_service()->0.file_store_config == Some(
            config.historical_data_service_config.file_store_config,
        ),
        config.live_service() is Some && config.historical_service() is Some ==> (
        DataServiceView {
            is_live_data_service: false,
            cache: None,
            file_store_config: Some(config.historical_data_service_config.file_store_config),
            ..config.live_service()->0
        }) == config.historical_service()->0,
{
}

} // verus!
