use spice_runtime::databricks::resolve_table_uri;
use spice_runtime::databricks::storage_options;
use spice_runtime::databricks::table_request;
use spice_runtime::databricks::Databricks;
use spice_runtime::params::find;
use spice_runtime::params::lookup;
use spice_runtime::params::Param;
use spice_runtime::spicepod::SpicepodKind;
use spice_runtime::spicepod::SpicepodVersion;
use spice_runtime::sql::supports_filters_pushdown;
use spice_runtime::sql::Error;
use spice_runtime::sql::FilterPushDown;
use spice_runtime::sql::RenderedFilter;
use spice_runtime::sql::SqlExec;
use spice_runtime::timing::do_action_measurement;
use spice_runtime::timing::get_catalogs_measurement;
use spice_runtime::timing::list_actions_measurement;
use spice_runtime::timing::TimeMeasurement;
use spice_runtime::timing::EXCHANGE_FRAMES_SENT;
use spice_runtime::tpch_extension::ExtensionManifest;
use spice_runtime::tpch_extension::TpchExtension;
use spice_runtime::tpch_extension::TpchExtensionFactory;
use spice_runtime::actions::ActionType;

fn param(key: &str, value: &str) -> Param {
    Param { key: key.to_string(), value: value.to_string() }
}

fn pairs(params: Vec<Param>) -> Vec<(String, String)> {
    params.into_iter().map(|p| (p.key, p.value)).collect()
}

fn scan(columns: &[&str], filters: Vec<RenderedFilter>, limit: Option<usize>) -> SqlExec {
    SqlExec {
        columns: columns.iter().map(|c| c.to_string()).collect(),
        table_reference: "test".to_string(),
        filters,
        limit,
    }
}

#[test]
fn a_scan_without_filters_and_limit() {
    assert_eq!(scan(&["a", "b"], vec![], None).sql().unwrap(), "SELECT \"a\", \"b\" FROM test  ");
    assert_eq!(scan(&[], vec![], None).sql().unwrap(), "SELECT  FROM test  ");
}

#[test]
fn a_scan_with_filters_and_limit() {
    let filters = vec![
        RenderedFilter::Sql("a > 1".to_string()),
        RenderedFilter::Sql("b = 'bar'".to_string()),
    ];
    assert_eq!(
        scan(&["a", "b"], filters, Some(1)).sql().unwrap(),
        "SELECT \"a\", \"b\" FROM test WHERE a > 1 AND b = 'bar' LIMIT 1"
    );
    assert_eq!(
        scan(&["a"], vec![RenderedFilter::Sql("a > 1".to_string())], None).sql().unwrap(),
        "SELECT \"a\" FROM test WHERE a > 1 "
    );
    assert_eq!(scan(&["a"], vec![], Some(250)).sql().unwrap(), "SELECT \"a\" FROM test  LIMIT 250");
}

#[test]
fn a_scan_fails_on_its_first_filter_without_sql() {
    let filters = vec![
        RenderedFilter::Sql("a > 1".to_string()),
        RenderedFilter::Failed("no sql for x".to_string()),
        RenderedFilter::Failed("no sql for y".to_string()),
    ];
    match scan(&["a"], filters, None).sql() {
        Err(Error::UnableToGenerateSQL { source }) => assert_eq!(source, "no sql for x"),
        _ => panic!("generated sql"),
    }
}

#[test]
fn filters_with_sql_are_pushed_down_exactly() {
    let filters = vec![
        RenderedFilter::Sql("a > 1".to_string()),
        RenderedFilter::Failed("no".to_string()),
        RenderedFilter::Sql("b = 2".to_string()),
    ];
    assert_eq!(
        supports_filters_pushdown(&filters),
        vec![FilterPushDown::Exact, FilterPushDown::Unsupported, FilterPushDown::Exact]
    );
    assert!(supports_filters_pushdown(&vec![]).is_empty());
}

#[test]
fn the_request_for_a_databricks_table() {
    let request = table_request(
        Some(Some("https://dbc.example.com//".to_string())),
        "main.sales.orders",
        Some("s3cr3t".to_string()),
    )
    .unwrap();
    assert_eq!(
        request.url,
        "https://dbc.example.com/api/2.1/unity-catalog/tables/main.sales.orders"
    );
    assert_eq!(request.token, "s3cr3t");
    let request = table_request(Some(Some("https://dbc".to_string())), "t", None).unwrap();
    assert_eq!(request.url, "https://dbc/api/2.1/unity-catalog/tables/t");
    assert_eq!(request.token, "Token not found in auth provider");
    assert_eq!(table_request(None, "t", None).unwrap_err(), "Dataset params not found");
    assert_eq!(
        table_request(Some(None), "t", None).unwrap_err(),
        "Endpoint not specified in dataset params"
    );
}

#[test]
fn the_answer_of_the_table_catalogue() {
    assert_eq!(resolve_table_uri(true, "200 OK", "s3://bucket/t".to_string()).unwrap(), "s3://bucket/t");
    assert_eq!(
        resolve_table_uri(false, "404 Not Found", String::new()).unwrap_err(),
        "Failed to retrieve databricks table URI. Status: 404 Not Found"
    );
}

#[test]
fn storage_options_leave_the_token_out() {
    let secret = vec![param("token", "t"), param("key", "k"), param("token", "u"), param("region", "r")];
    let expected = vec![
        ("key".to_string(), "k".to_string()),
        ("region".to_string(), "r".to_string()),
        ("AWS_S3_ALLOW_UNSAFE_RENAME".to_string(), "true".to_string()),
    ];
    assert_eq!(pairs(storage_options(&secret)), expected);
    let connector = Databricks::new(Some(secret));
    assert_eq!(pairs(connector.storage_options()), expected);
    assert_eq!(connector.token(), Some("t".to_string()));
    assert_eq!(connector.name(), "Databricks");
    assert!(connector.has_table_provider());
    let bare = Databricks::new(None);
    assert_eq!(bare.token(), None);
    assert_eq!(
        pairs(bare.storage_options()),
        vec![("AWS_S3_ALLOW_UNSAFE_RENAME".to_string(), "true".to_string())]
    );
}

#[test]
fn parameters_are_found_by_their_first_key() {
    let params = vec![param("a", "1"), param("b", "2"), param("a", "3")];
    assert_eq!(find(&params, "a"), Some("1".to_string()));
    assert_eq!(find(&params, "b"), Some("2".to_string()));
    assert_eq!(find(&params, "c"), None);
    assert_eq!(lookup(&params, "c", "dflt"), "dflt");
    assert_eq!(lookup(&params, "b", "dflt"), "2");
}

#[test]
fn the_tpch_extension_plans_its_start() {
    assert!(TpchExtension::default().initialize().is_none());
    assert_eq!(TpchExtension::default().name(), "tpch");
    let on = TpchExtension::new(ExtensionManifest { enabled: true, params: vec![] });
    let plan = on.initialize().unwrap();
    assert_eq!(plan.path, ".spice/data/tpch.db");
    assert_eq!(
        plan.query,
        "\n            INSTALL tpch;\n            LOAD tpch;\n            CALL dbgen(sf = 1);"
    );
    let factory = TpchExtensionFactory::new(ExtensionManifest {
        enabled: true,
        params: vec![param("scale_factor", "0.1"), param("path", "/tmp/t.db")],
    });
    let plan = factory.create().initialize().unwrap();
    assert_eq!(plan.path, "/tmp/t.db");
    assert!(plan.query.ends_with("CALL dbgen(sf = 0.1);"));
    let off = TpchExtensionFactory::new(ExtensionManifest { enabled: false, params: vec![param("path", "p")] });
    assert!(off.create().initialize().is_none());
}

#[test]
fn pod_headers_are_written_as_in_the_file() {
    assert_eq!(SpicepodVersion::V1Beta1.as_str(), "v1beta1");
    assert_eq!(SpicepodVersion::parse("v1beta1"), Some(SpicepodVersion::V1Beta1));
    assert_eq!(SpicepodVersion::parse("V1Beta1"), None);
    assert_eq!(SpicepodKind::Spicepod.as_str(), "Spicepod");
    assert_eq!(SpicepodKind::parse("Spicepod"), Some(SpicepodKind::Spicepod));
    assert_eq!(SpicepodKind::parse("spicepod"), None);
}

#[test]
fn measurements_name_their_metric() {
    let m = list_actions_measurement(5);
    assert_eq!(m.metric_name, "flight_list_actions_duration_ms");
    assert!(m.labels.is_empty());
    assert_eq!(m.elapsed_ms(12), 7);
    assert_eq!(m.elapsed_ms(3), 0);
    let m = do_action_measurement(ActionType::Unknown, 0);
    assert_eq!(m.metric_name, "flight_do_action_duration_ms");
    assert_eq!(pairs(m.labels), vec![("action_type".to_string(), "Unknown".to_string())]);
    let m = get_catalogs_measurement(1);
    assert_eq!(m.metric_name, "flight_do_get_get_catalogs_duration_ms");
    let m = TimeMeasurement::new("x", vec![param("a", "b")], u64::MAX);
    assert_eq!(m.elapsed_ms(u64::MAX), 0);
    assert_eq!(EXCHANGE_FRAMES_SENT, "flight_do_exchange_data_updates_sent");
}
