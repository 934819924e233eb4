//! What the settings of the data service become.

use crate::config;
use crate::config::{
    CacheSettings, DataService, DataServiceView, IndexerGrpcDataServiceConfig, TlsConfig,
};
use vstd::prelude::*;

verus! {

/// The service has all that both kinds of services have from the settings.
pub open spec fn as_configured<F>(
    config: IndexerGrpcDataServiceConfig<F>,
    service: DataServiceView<F>,
) -> bool {
    &&& service.chain_id == config.chain_id
    &&& service.grpc_manager_addresses.len() == config.grpc_manager_addresses@.len()
    &&& forall|i: int|
        0 <= i < config.grpc_manager_addresses@.len() ==> config.grpc_manager_addresses@[i]@
            == #[trigger] service.grpc_manager_addresses[i]
    &&& service.self_advertised_address == config.self_advertised_address@
    &&& service.response_channel_size == config.data_service_response_channel_size
    &&& service.handler_channel_size == 10
}

/// Where it is enabled, the live data service has what is set for all services, and
/// keeps as many transactions and bytes in memory as are set for it. It needs no
/// file store.
pub proof fn law_live_service_is_as_configured<F>(config: IndexerGrpcDataServiceConfig<F>)
    ensures
        match config.live_service() {
            Some(service) => {
                &&& config.live_data_service_config.enabled
                &&& as_configured(config, service)
                &&& service.is_live_data_service
                &&& service.cache == Some(
                    CacheSettings {
                        num_slots: config.live_data_service_config.num_slots,
                        size_limit_bytes: config.live_data_service_config.size_limit_bytes,
                    },
                )
                &&& service.file_store_config is None
            },
            None => !config.live_data_service_config.enabled,
        },
{
}

/// Where it is enabled, the historical data service has what is set for all
/// services, and the file store that is set for it. It keeps nothing in memory.
pub proof fn law_historical_service_is_as_configured<F>(config: IndexerGrpcDataServiceConfig<F>)
    ensures
        match config.historical_service() {
            Some(service) => {
                &&& config.historical_data_service_config.enabled
                &&& as_configured(config, service)
                &&& !service.is_live_data_service
                &&& service.cache is None
                &&& service.file_store_config == Some(
                    config.historical_data_service_config.file_store_config,
                )
            },
            None => !config.historical_data_service_config.enabled,
        },
{
}

/// Neither service depends on whether the other one is enabled, or on its settings.
pub proof fn law_services_are_independent<F>(
    one: IndexerGrpcDataServiceConfig<F>,
    other: IndexerGrpcDataServiceConfig<F>,
)
    requires
        one.chain_id == other.chain_id,
        one.grpc_manager_addresses == other.grpc_manager_addresses,
        one.self_advertised_address == other.self_advertised_address,
        one.data_service_response_channel_size == other.data_service_response_channel_size,
    ensures
        one.live_data_service_config == other.live_data_service_config ==> one.live_service()
            == other.live_service(),
        one.historical_data_service_config == other.historical_data_service_config
            ==> one.historical_service() == other.historical_service(),
{
}

/// Clients are pinged once a minute and have ten seconds to answer; messages may
/// have 256 mebibytes, and a service has two background tasks.
pub proof fn law_server_settings()
    ensures
        config::HTTP2_PING_INTERVAL_IN_SECS == 60,
        config::HTTP2_PING_TIMEOUT_IN_SECS == 10,
        config::MAX_MESSAGE_SIZE == 256 * 1024 * 1024,
        config::DEFAULT_MAX_RESPONSE_CHANNEL_SIZE == 5,
        config::TASKS_PER_SERVICE == 2,
{
}

/// The certificate and the key are read from where the settings say, and only
/// where they say so.
pub proof fn law_tls_paths_are_those_set(tls: TlsConfig)
    ensures
        config::tls_paths(Some(tls)) == Some((tls.cert_path@, tls.key_path@)),
        config::tls_paths(None) is None,
{
}

/// A service shows all that it says.
pub proof fn law_services_show_all<'a, F>(service: DataService<'a, F>, i: int)
    ensures
        service@.chain_id == service.chain_id,
        service@.grpc_manager_addresses.len() == service.grpc_manager_addresses@.len(),
        0 <= i < service.grpc_manager_addresses@.len() ==> service@.grpc_manager_addresses[i]
            == service.grpc_manager_addresses@[i]@,
        service@.self_advertised_address == service.self_advertised_address@,
        service@.is_live_data_service == service.is_live_data_service,
        service@.handler_channel_size == service.handler_channel_size,
        service@.response_channel_size == service.response_channel_size,
        service@.cache == service.cache,
        service.file_store_config matches Some(store) ==> service@.file_store_config == Some(
            *store,
        ),
        service.file_store_config is None ==> service@.file_store_config is None,
        config::service_view(Some(service)) == Some(service@),
        config::service_view::<F>(None) is None,
{
}

} // verus!
