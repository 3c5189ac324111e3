use bench_server::config::{
    resolve_config, resolve_number, resolve_text, ConfigInput, Setting, SettingSource,
    DEFAULT_CONNECTIONS,
};
use bench_server::decimal::parse_unsigned;

fn unset() -> SettingSource {
    SettingSource { flag: None, env: None }
}

fn flag(v: &str) -> SettingSource {
    SettingSource { flag: Some(v.to_string()), env: None }
}

fn env(v: &str) -> SettingSource {
    SettingSource { flag: None, env: Some(v.to_string()) }
}

fn both(f: &str, e: &str) -> SettingSource {
    SettingSource { flag: Some(f.to_string()), env: Some(e.to_string()) }
}

fn empty_input() -> ConfigInput {
    ConfigInput {
        key_file: unset(),
        cert_file: unset(),
        server_ip: unset(),
        http_port: unset(),
        https_port: unset(),
        workers: unset(),
        max_connections: unset(),
    }
}

#[test]
fn defaults_when_nothing_given() {
    let c = resolve_config(&empty_input()).unwrap();
    assert_eq!(c.key_file, "key.pem");
    assert_eq!(c.cert_file, "cert.pem");
    assert_eq!(c.server_ip, "0.0.0.0");
    assert_eq!(c.http_port, 3000);
    assert_eq!(c.https_port, 0);
    assert_eq!(c.workers, 0);
    assert_eq!(c.max_connections, 25600);
    assert_eq!(DEFAULT_CONNECTIONS, 25 * 1024);
}

#[test]
fn flag_wins_over_env_and_env_over_default() {
    let mut input = empty_input();
    input.server_ip = both("127.0.0.1", "10.0.0.1");
    input.key_file = env("/etc/k.pem");
    input.http_port = both("8080", "9090");
    input.https_port = env("8443");
    input.workers = flag("4");
    input.max_connections = env("100");
    let c = resolve_config(&input).unwrap();
    assert_eq!(c.server_ip, "127.0.0.1");
    assert_eq!(c.key_file, "/etc/k.pem");
    assert_eq!(c.cert_file, "cert.pem");
    assert_eq!(c.http_port, 8080);
    assert_eq!(c.https_port, 8443);
    assert_eq!(c.workers, 4);
    assert_eq!(c.max_connections, 100);
}

#[test]
fn fields_resolve_independently() {
    let mut a = empty_input();
    a.http_port = flag("81");
    let mut b = empty_input();
    b.http_port = flag("81");
    b.server_ip = flag("::1");
    b.workers = env("2");
    let ca = resolve_config(&a).unwrap();
    let cb = resolve_config(&b).unwrap();
    assert_eq!(ca.http_port, cb.http_port);
    assert_eq!(ca.server_ip, "0.0.0.0");
    assert_eq!(cb.server_ip, "::1");
}

#[test]
fn bad_flag_is_an_error_even_with_a_good_env() {
    let mut input = empty_input();
    input.http_port = both("eighty", "80");
    let e = resolve_config(&input).unwrap_err();
    assert_eq!(e.setting, Setting::HttpPort);
    assert_eq!(e.value, "eighty");
}

#[test]
fn port_out_of_range_is_an_error() {
    let mut input = empty_input();
    input.https_port = env("65536");
    let e = resolve_config(&input).unwrap_err();
    assert_eq!(e.setting, Setting::HttpsPort);
    assert_eq!(e.value, "65536");
    input.https_port = env("65535");
    assert_eq!(resolve_config(&input).unwrap().https_port, 65535);
}

#[test]
fn first_bad_number_is_reported() {
    let mut input = empty_input();
    input.workers = flag("-1");
    input.max_connections = flag("x");
    let e = resolve_config(&input).unwrap_err();
    assert_eq!(e.setting, Setting::Workers);
    assert_eq!(e.value, "-1");
    input.workers = unset();
    let e = resolve_config(&input).unwrap_err();
    assert_eq!(e.setting, Setting::MaxConnections);
}

#[test]
fn resolve_helpers() {
    assert_eq!(resolve_text(&unset(), "d"), "d");
    assert_eq!(resolve_text(&env("e"), "d"), "e");
    assert_eq!(resolve_text(&both("f", "e"), "d"), "f");
    assert_eq!(resolve_number(&unset(), Setting::Workers, 7, 10).unwrap(), 7);
    assert_eq!(resolve_number(&env("10"), Setting::Workers, 7, 10).unwrap(), 10);
    let e = resolve_number(&env("11"), Setting::Workers, 7, 10).unwrap_err();
    assert_eq!(e.setting, Setting::Workers);
    assert_eq!(e.value, "11");
}

#[test]
fn setting_names() {
    assert_eq!(Setting::KeyFile.flag(), 'k');
    assert_eq!(Setting::CertFile.flag(), 'c');
    assert_eq!(Setting::ServerIp.flag(), 'i');
    assert_eq!(Setting::HttpPort.flag(), 'p');
    assert_eq!(Setting::HttpsPort.flag(), 's');
    assert_eq!(Setting::Workers.flag(), 'w');
    assert_eq!(Setting::MaxConnections.flag(), 'm');
    assert_eq!(Setting::KeyFile.env_key(), "KEY_FILE");
    assert_eq!(Setting::CertFile.env_key(), "CERT_FILE");
    assert_eq!(Setting::ServerIp.env_key(), "SERVER_IP");
    assert_eq!(Setting::HttpPort.env_key(), "HTTP_PORT");
    assert_eq!(Setting::HttpsPort.env_key(), "HTTPS_PORT");
    assert_eq!(Setting::Workers.env_key(), "WORKERS");
    assert_eq!(Setting::MaxConnections.env_key(), "CONNECTIONS");
}

#[test]
fn unsigned_parsing_follows_std() {
    let cases = ["", "+", "-", "0", "+7", "-7", "007", " 7", "7 ", "65535", "65536", "1a", "\u{663}"];
    for s in cases {
        assert_eq!(parse_unsigned(s, 65535), s.parse::<u16>().ok().map(|v| v as usize), "{:?}", s);
    }
    assert_eq!(parse_unsigned("18446744073709551615", usize::MAX), "18446744073709551615".parse::<usize>().ok());
    assert_eq!(parse_unsigned("99999999999999999999", usize::MAX), None);
}
