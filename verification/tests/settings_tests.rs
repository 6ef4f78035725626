use node_metrics::report::{
    default_8086, default_localhost, influx_url, InfluxConfig, Reporter, ReporterType,
};
use node_metrics::settings::{enabled_modules, log_level, vec_to_set, LogLevel};

#[test]
fn log_level_names() {
    assert_eq!(log_level(Some("trace")), LogLevel::Trace);
    assert_eq!(log_level(Some("debug")), LogLevel::Debug);
    assert_eq!(log_level(Some("info")), LogLevel::Info);
    assert_eq!(log_level(Some("warn")), LogLevel::Warn);
    assert_eq!(log_level(Some("error")), LogLevel::Error);
}

#[test]
fn log_level_defaults_to_info() {
    assert_eq!(log_level(None), LogLevel::Info);
    assert_eq!(log_level(Some("TRACE")), LogLevel::Info);
    assert_eq!(log_level(Some("verbose")), LogLevel::Info);
    assert_eq!(log_level(Some("")), LogLevel::Info);
}

#[test]
fn vec_to_set_holds_each_string() {
    let set = vec_to_set(vec!["docker".to_string(), "host".to_string(), "docker".to_string()]);
    assert_eq!(set.len(), 2);
    assert!(set.contains("docker"));
    assert!(set.contains("host"));
    assert!(!set.contains("disk"));
    assert!(vec_to_set(vec![]).is_empty());
}

#[test]
fn enabled_modules_split_on_commas() {
    let modules = enabled_modules(Some("docker,host"));
    assert!(modules.contains("docker"));
    assert!(modules.contains("host"));
    assert_eq!(modules.len(), 2);
    assert!(!enabled_modules(Some("dockerd")).contains("docker"));
    assert!(!enabled_modules(Some(" docker")).contains("docker"));
}

#[test]
fn no_modules_setting_enables_nothing() {
    let modules = enabled_modules(None);
    assert!(!modules.contains("docker"));
    assert_eq!(modules.len(), 1);
    assert!(modules.contains(""));
}

#[test]
fn defaults_of_influx_config() {
    assert_eq!(default_localhost(), "localhost");
    assert_eq!(default_8086(), 8086);
}

#[test]
fn influx_url_joins_host_and_port() {
    let config = InfluxConfig { reporter_influx_host: "influx.local".to_string(), reporter_influx_port: 8086 };
    assert_eq!(influx_url(&config), "http://influx.local:8086");
    let config = InfluxConfig { reporter_influx_host: default_localhost(), reporter_influx_port: -5 };
    assert_eq!(influx_url(&config), "http://localhost:-5");
}

#[test]
fn reporter_type_from_setting() {
    assert_eq!(ReporterType::from_setting(Some("influx")), ReporterType::Influx);
    assert_eq!(ReporterType::from_setting(Some("log")), ReporterType::Log);
    assert_eq!(ReporterType::from_setting(Some("Influx")), ReporterType::Log);
    assert_eq!(ReporterType::from_setting(None), ReporterType::Log);
}

#[test]
fn reporters_carry_a_client_only_for_influx() {
    let log = Reporter::to_log();
    assert_eq!(log.reporter_type, ReporterType::Log);
    assert!(log.influxdb_client.is_none());
    let config = InfluxConfig { reporter_influx_host: "db".to_string(), reporter_influx_port: 9999 };
    let influx = Reporter::to_influx(&config);
    assert_eq!(influx.reporter_type, ReporterType::Influx);
    let client = influx.influxdb().client();
    assert_eq!(client.database_url(), "http://db:9999");
    assert_eq!(client.database_name(), "telegraf");
}
