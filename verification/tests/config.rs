use rbuilder_operator::flashbots_config::{
    bid_value_source_plan, block_processor_client_plan, builder, clickhouse_settings,
    key_registration_body, key_registration_plan, live_builders, tbv_pusher_plan,
    BlockProcessorClientPlan, BuilderConfig, ClickhouseConfigError, ClickhouseSettings,
    ConfigError, TbvPushRedisSettings, TbvPusherPlan, key_registration_request,
    key_registration_request_to, key_registration_outcome, KeyRegistrationRequest,
};
use rbuilder_operator::build_info::version_from_build_info;
use rbuilder_operator::metrics::{
    inc_blocks_api_errors, inc_non_0_competition_bids, set_bidding_service_version, MetricsError,
    OperatorMetrics,
};

fn s(v: &str) -> Option<String> {
    Some(v.to_string())
}

#[test]
fn key_registration_requires_blocks_processor() {
    assert_eq!(key_registration_plan(&None, &None), Ok(None));
    assert_eq!(key_registration_plan(&s("http://k"), &s("http://bp")), Ok(s("http://k")));
    assert_eq!(key_registration_plan(&s("http://k"), &None), Err(ConfigError::BlocksProcessorUrlNotSet));
}

#[test]
fn block_processor_client_choice() {
    assert_eq!(block_processor_client_plan(&None, false), Ok(BlockProcessorClientPlan::Null));
    assert_eq!(block_processor_client_plan(&None, true), Err(ConfigError::BlocksProcessorUrlNotSet));
    assert_eq!(block_processor_client_plan(&s("u"), false), Ok(BlockProcessorClientPlan::Unsigned("u".to_string())));
    assert_eq!(block_processor_client_plan(&s("u"), true), Ok(BlockProcessorClientPlan::Signed("u".to_string())));
}

#[test]
fn tbv_pusher_choice() {
    let redis = Some(TbvPushRedisSettings { url: s("redis://r"), channel: "c".to_string() });
    assert_eq!(tbv_pusher_plan(true, &s("bp"), &redis), Ok(TbvPusherPlan::BlockProcessor("bp".to_string())));
    assert_eq!(tbv_pusher_plan(true, &None, &redis), Err(ConfigError::BlocksProcessorUrlNotSet));
    assert_eq!(
        tbv_pusher_plan(false, &s("bp"), &redis),
        Ok(TbvPusherPlan::Redis { url: "redis://r".to_string(), channel: "c".to_string() })
    );
    let no_url = Some(TbvPushRedisSettings { url: None, channel: "c".to_string() });
    assert_eq!(tbv_pusher_plan(false, &None, &no_url), Err(ConfigError::MissingTbvPushRedisUrl));
    assert_eq!(tbv_pusher_plan(false, &None, &None), Ok(TbvPusherPlan::Unwrapped));
}

#[test]
fn bid_value_source_needs_url_and_auth() {
    assert_eq!(bid_value_source_plan(&s("ws"), &s("auth")), Some(("ws".to_string(), "auth".to_string())));
    assert_eq!(bid_value_source_plan(&s("ws"), &None), None);
    assert_eq!(bid_value_source_plan(&None, &s("auth")), None);
}

fn builders() -> Vec<BuilderConfig<u32>> {
    vec![
        BuilderConfig { name: "ordering".to_string(), builder: 1 },
        BuilderConfig { name: "merging".to_string(), builder: 2 },
        BuilderConfig { name: "ordering".to_string(), builder: 3 },
    ]
}

#[test]
fn builder_lookup_takes_first_match() {
    let b = builders();
    assert_eq!(builder(&b, "ordering").unwrap().builder, 1);
    assert_eq!(builder(&b, "merging").unwrap().builder, 2);
    assert_eq!(builder(&b, "parallel").unwrap_err(), ConfigError::BuilderNotFound("parallel".to_string()));
}

#[test]
fn live_builders_in_order() {
    let b = builders();
    let live = vec!["merging".to_string(), "ordering".to_string()];
    let v = live_builders(&b, &live).unwrap();
    assert_eq!(v.iter().map(|c| c.builder).collect::<Vec<_>>(), vec![2, 1]);
    let bad = vec!["merging".to_string(), "x".to_string(), "y".to_string()];
    assert_eq!(live_builders(&b, &bad).unwrap_err(), ConfigError::BuilderNotFound("x".to_string()));
    assert!(live_builders(&b, &vec![]).unwrap().is_empty());
}

#[test]
fn clickhouse_settings_order_of_checks() {
    let ok = |v: &str| Some(Ok::<String, String>(v.to_string()));
    assert_eq!(clickhouse_settings::<String>(None, None, None), Ok(None));
    assert_eq!(
        clickhouse_settings(ok("h"), ok("u"), ok("p")),
        Ok(Some(ClickhouseSettings { host_url: "h".to_string(), user: "u".to_string(), password: "p".to_string() }))
    );
    assert_eq!(clickhouse_settings(ok("h"), None, ok("p")), Err(ClickhouseConfigError::UserNotFound));
    assert_eq!(clickhouse_settings(ok("h"), ok("u"), None), Err(ClickhouseConfigError::PasswordNotFound));
    assert_eq!(
        clickhouse_settings(Some(Err("env".to_string())), None, None),
        Err(ClickhouseConfigError::Setting("env".to_string()))
    );
    assert_eq!(
        clickhouse_settings(ok("h"), ok("u"), Some(Err("pw".to_string()))),
        Err(ClickhouseConfigError::Setting("pw".to_string()))
    );
}

#[test]
fn key_registration_body_json() {
    assert_eq!(
        key_registration_body("0xabc"),
        "{ \"ecdsa_pubkey_address\": \"0xabc\" }"
    );
}

#[test]
fn key_registration_request_replaces_the_path() {
    let req = key_registration_request("https://reg.example.com/some/path?x=1", "0xabc").unwrap();
    assert_eq!(
        req.url,
        "https://reg.example.com/api/l1-builder/v1/register_credentials/rbuilder?x=1"
    );
    assert_eq!(req.body, "{ \"ecdsa_pubkey_address\": \"0xabc\" }");
    let req = key_registration_request("http://127.0.0.1:8080", "0x1").unwrap();
    assert_eq!(
        req.url,
        "http://127.0.0.1:8080/api/l1-builder/v1/register_credentials/rbuilder"
    );
}

#[test]
fn key_registration_request_refuses_a_non_url() {
    assert_eq!(
        key_registration_request("not a url", "0xabc"),
        Err(ConfigError::InvalidKeyRegistrationUrl(url::ParseError::RelativeUrlWithoutBase))
    );
    assert_eq!(
        key_registration_request("", "0xabc"),
        Err(ConfigError::InvalidKeyRegistrationUrl(url::ParseError::RelativeUrlWithoutBase))
    );
}

#[test]
fn key_registration_request_to_endpoint() {
    assert_eq!(
        key_registration_request_to(Ok("http://a/b".to_string()), "0x2"),
        Ok(KeyRegistrationRequest {
            url: "http://a/b".to_string(),
            body: "{ \"ecdsa_pubkey_address\": \"0x2\" }".to_string(),
        })
    );
    assert_eq!(
        key_registration_request_to(Err(url::ParseError::EmptyHost), "0x2"),
        Err(ConfigError::InvalidKeyRegistrationUrl(url::ParseError::EmptyHost))
    );
}

#[test]
fn metrics_count_and_register() {
    let metrics = OperatorMetrics::new().unwrap();
    inc_blocks_api_errors(&metrics);
    inc_non_0_competition_bids(&metrics);
    inc_non_0_competition_bids(&metrics);
    set_bidding_service_version(&metrics, &version_from_build_info(Some("c1"), Some("main"), "now"));
    let registry = prometheus::Registry::new();
    assert_eq!(metrics.register(&registry), Ok(()));
    let families = registry.gather();
    let value = |name: &str| {
        families
            .iter()
            .find(|f| f.get_name() == name)
            .map(|f| f.get_metric()[0].get_counter().get_value())
            .unwrap()
    };
    let help = |name: &str| families.iter().find(|f| f.get_name() == name).unwrap().get_help().to_string();
    assert_eq!(help("block_api_errors"), "counter of the block processor errors");
    assert_eq!(help("non_0_competition_bids"), "Counter of non 0 bids seen on SCP stream");
    assert_eq!(help("bidding_service_version"), "Version of the bidding service");
    assert_eq!(value("block_api_errors"), 1.0);
    assert_eq!(value("non_0_competition_bids"), 2.0);
    let version = families.iter().find(|f| f.get_name() == "bidding_service_version").unwrap();
    let metric = &version.get_metric()[0];
    assert_eq!(metric.get_gauge().get_value(), 1.0);
    let labels: Vec<(String, String)> = metric
        .get_label()
        .iter()
        .map(|l| (l.get_name().to_string(), l.get_value().to_string()))
        .collect();
    assert!(labels.contains(&("git".to_string(), "c1".to_string())));
    assert!(labels.contains(&("git_ref".to_string(), "main".to_string())));
    assert!(labels.contains(&("build_time_utc".to_string(), "now".to_string())));
    // A second registration of the same counters is refused.
    assert_eq!(metrics.register(&registry), Err(MetricsError::Registration));
}

#[test]
fn key_registration_outcome_by_status() {
    assert_eq!(key_registration_outcome("signer", 200), Ok("signer"));
    assert_eq!(key_registration_outcome("signer", 204), Ok("signer"));
    assert_eq!(key_registration_outcome("signer", 299), Ok("signer"));
    assert_eq!(key_registration_outcome("signer", 199), Err(199));
    assert_eq!(key_registration_outcome("signer", 300), Err(300));
    assert_eq!(key_registration_outcome("signer", 401), Err(401));
    assert_eq!(key_registration_outcome("signer", 500), Err(500));
}

#[test]
fn block_api_errors_is_exported_after_the_first_error() {
    let metrics = OperatorMetrics::new().unwrap();
    let registry = prometheus::Registry::new();
    assert_eq!(metrics.register(&registry), Ok(()));
    let names = |registry: &prometheus::Registry| -> Vec<String> {
        registry.gather().iter().map(|f| f.get_name().to_string()).collect()
    };
    assert!(!names(&registry).contains(&"block_api_errors".to_string()));
    assert!(names(&registry).contains(&"non_0_competition_bids".to_string()));
    inc_blocks_api_errors(&metrics);
    assert!(names(&registry).contains(&"block_api_errors".to_string()));
}
