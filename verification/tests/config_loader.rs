use failsafe::config::Config;
use failsafe::errors::ErrorKind;

#[test]
fn load_well_formed() {
    let cfg = Config::from_text("debug=true\nport=3000\nhost=0.0.0.0").unwrap();
    assert_eq!(
        cfg,
        Config { debug: true, port: 3000, host: "0.0.0.0".to_string() }
    );
}

#[test]
fn load_skips_malformed_lines() {
    let cfg = Config::from_text("debug=true\ngarbage-line\nport=3000").unwrap();
    assert_eq!(
        cfg,
        Config { debug: true, port: 3000, host: "localhost".to_string() }
    );
}

#[test]
fn load_hard_fails_on_bad_port() {
    let err = Config::from_text("port=notanumber").unwrap_err();
    assert_eq!(err, ErrorKind::Parse("notanumber".to_string()));
}

#[test]
fn load_defaults_bad_debug() {
    let cfg = Config::from_text("debug=notabool\nport=3000").unwrap();
    assert_eq!(
        cfg,
        Config { debug: false, port: 3000, host: "localhost".to_string() }
    );
}

#[test]
fn load_twice_yields_equal_configs() {
    let text = "debug=true\nport=3000\nhost=0.0.0.0";
    let first = Config::from_text(text).unwrap();
    let second = Config::from_text(text).unwrap();
    assert_eq!(first, second);
}

#[test]
fn load_empty_text_yields_defaults() {
    let cfg = Config::from_text("").unwrap();
    assert_eq!(cfg, Config::with_defaults());
}

#[test]
fn defaults_hold_documented_values() {
    let cfg = Config::with_defaults();
    assert_eq!(
        cfg,
        Config { debug: false, port: 8080, host: "localhost".to_string() }
    );
}

#[test]
fn load_trims_whitespace_around_key_and_value() {
    let cfg = Config::from_text(" port = 123 \n host = example.com ").unwrap();
    assert_eq!(cfg.port, 123);
    assert_eq!(cfg.host, "example.com");
    assert_eq!(cfg.debug, false);
}

#[test]
fn load_ignores_unknown_keys() {
    let cfg = Config::from_text("colour=green\nport=9000").unwrap();
    assert_eq!(
        cfg,
        Config { debug: false, port: 9000, host: "localhost".to_string() }
    );
}

#[test]
fn load_skips_line_with_two_separators() {
    let cfg = Config::from_text("port=1=2\nhost=h").unwrap();
    assert_eq!(cfg.port, 8080);
    assert_eq!(cfg.host, "h");
}

#[test]
fn load_hard_fails_on_empty_port_value() {
    let err = Config::from_text("port=").unwrap_err();
    assert_eq!(err, ErrorKind::Parse("".to_string()));
}

#[test]
fn load_hard_fails_on_port_overflow() {
    let err = Config::from_text("port=65536").unwrap_err();
    assert_eq!(err, ErrorKind::Parse("65536".to_string()));
}

#[test]
fn load_accepts_signed_port() {
    let cfg = Config::from_text("port=+1234").unwrap();
    assert_eq!(cfg.port, 1234);
}

#[test]
fn load_accepts_explicit_false_debug() {
    let cfg = Config::from_text("debug=false\ndebug=true\ndebug=false").unwrap();
    assert_eq!(cfg.debug, false);
}

#[test]
fn load_later_line_overrides_earlier() {
    let cfg = Config::from_text("port=1000\nport=2000").unwrap();
    assert_eq!(cfg.port, 2000);
}

#[test]
fn load_crlf_line_endings() {
    let cfg = Config::from_text("debug=true\r\nport=4000\r\n").unwrap();
    assert_eq!(cfg.debug, true);
    assert_eq!(cfg.port, 4000);
    assert_eq!(cfg.host, "localhost");
}
