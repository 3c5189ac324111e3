use bench_server::config::{resolve_config, ConfigInput, SettingSource};
use bench_server::decimal::push_decimal;
use bench_server::startup::{listen_address, plan_startup, Step};

fn input(https: Option<&str>, workers: Option<&str>, conns: Option<&str>) -> ConfigInput {
    let s = |v: Option<&str>| SettingSource { flag: v.map(|x| x.to_string()), env: None };
    ConfigInput {
        key_file: s(Some("k.pem")),
        cert_file: s(Some("c.pem")),
        server_ip: s(Some("127.0.0.1")),
        http_port: s(Some("8080")),
        https_port: s(https),
        workers: s(workers),
        max_connections: s(conns),
    }
}

#[test]
fn no_tls_steps_without_https_port() {
    for https in [None, Some("0")] {
        let plan = plan_startup(&resolve_config(&input(https, None, None)).unwrap());
        assert_eq!(plan.steps.len(), 2);
        assert!(matches!(&plan.steps[0], Step::BindPlain { address } if address == "127.0.0.1:8080"));
        assert!(matches!(plan.steps[1], Step::Run));
    }
}

#[test]
fn tls_loaded_before_listeners_are_bound() {
    let plan = plan_startup(&resolve_config(&input(Some("8443"), None, None)).unwrap());
    assert_eq!(plan.steps.len(), 4);
    assert!(matches!(&plan.steps[0], Step::LoadTls { cert_file, key_file } if cert_file == "c.pem" && key_file == "k.pem"));
    assert!(matches!(&plan.steps[1], Step::BindPlain { address } if address == "127.0.0.1:8080"));
    assert!(matches!(&plan.steps[2], Step::BindTls { address } if address == "127.0.0.1:8443"));
    assert!(matches!(plan.steps[3], Step::Run));
}

#[test]
fn zero_capacities_are_not_passed_on() {
    let plan = plan_startup(&resolve_config(&input(None, Some("0"), Some("0"))).unwrap());
    assert_eq!(plan.workers, None);
    assert_eq!(plan.max_connections, None);
    let plan = plan_startup(&resolve_config(&input(None, Some("3"), Some("10"))).unwrap());
    assert_eq!(plan.workers, Some(3));
    assert_eq!(plan.max_connections, Some(10));
    let plan = plan_startup(&resolve_config(&input(None, None, None)).unwrap());
    assert_eq!(plan.workers, None);
    assert_eq!(plan.max_connections, Some(25600));
}

#[test]
fn addresses_are_written_in_decimal() {
    assert_eq!(listen_address(&"0.0.0.0".to_string(), 3000), "0.0.0.0:3000");
    assert_eq!(listen_address(&"h".to_string(), 0), "h:0");
    assert_eq!(listen_address(&"h".to_string(), 65535), "h:65535");
    let mut s = "x".to_string();
    push_decimal(&mut s, 907);
    assert_eq!(s, "x907");
}
