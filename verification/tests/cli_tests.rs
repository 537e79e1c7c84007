use strobmock::cli::{bind_address, log_file_location, Args, LogLevel, DEFAULT_HOST, DEFAULT_LOG_FILE_NAME};

#[test]
fn test_default_args() {
    let args = Args::default();
    assert_eq!(args.port, 8080);
    assert_eq!(args.host, "0.0.0.0");
    assert_eq!(DEFAULT_HOST, "0.0.0.0");
    assert_eq!(args.verbose, 0);
    assert!(!args.quiet);
    assert_eq!(args.log_file, None);
    assert!(!args.grpc);
    assert_eq!(args.grpc_port, 50051);
}

#[test]
fn test_bind_addresses() {
    let mut args = Args::default();
    assert_eq!(args.http_address(), "0.0.0.0:8080");
    assert_eq!(args.grpc_address(), "0.0.0.0:50051");
    args.host = "127.0.0.1".to_string();
    args.port = 3000;
    assert_eq!(args.http_address(), "127.0.0.1:3000");
}

#[test]
fn test_bind_address_port_edges() {
    assert_eq!(bind_address("h", 0), "h:0");
    assert_eq!(bind_address("h", 9), "h:9");
    assert_eq!(bind_address("h", 10), "h:10");
    assert_eq!(bind_address("::1", 65535), "::1:65535");
}

#[test]
fn test_log_levels() {
    let mut args = Args::default();
    assert_eq!(args.log_level(), LogLevel::Info);
    args.verbose = 1;
    assert_eq!(args.log_level(), LogLevel::Debug);
    args.verbose = 2;
    assert_eq!(args.log_level(), LogLevel::Trace);
    args.verbose = 255;
    assert_eq!(args.log_level(), LogLevel::Trace);
    args.quiet = true;
    assert_eq!(args.log_level(), LogLevel::Warn);
}

#[test]
fn test_log_file_location_defaults() {
    assert_eq!(
        log_file_location(Some("a.log".to_string()), Some("logs".to_string())),
        ("logs".to_string(), "a.log".to_string())
    );
    assert_eq!(
        log_file_location(Some("a.log".to_string()), Some(String::new())),
        (".".to_string(), "a.log".to_string())
    );
    assert_eq!(log_file_location(None, None), (".".to_string(), DEFAULT_LOG_FILE_NAME.to_string()));
}

#[test]
fn test_log_file_target() {
    let mut args = Args::default();
    assert_eq!(args.log_file_target(), None);
    args.log_file = Some("./strobmock.log".to_string());
    assert_eq!(args.log_file_target(), Some((".".to_string(), "strobmock.log".to_string())));
    args.log_file = Some("app.log".to_string());
    assert_eq!(args.log_file_target(), Some((".".to_string(), "app.log".to_string())));
    args.log_file = Some("/var/log/mock/out.log".to_string());
    assert_eq!(
        args.log_file_target(),
        Some(("/var/log/mock".to_string(), "out.log".to_string()))
    );
    args.log_file = Some("mock.log".to_string());
    assert_eq!(args.log_file_target(), Some((".".to_string(), "mock.log".to_string())));
    args.log_file = Some("logs/app.log".to_string());
    assert_eq!(args.log_file_target(), Some(("logs".to_string(), "app.log".to_string())));
    args.log_file = Some("/".to_string());
    assert_eq!(args.log_file_target(), Some((".".to_string(), "strobmock.log".to_string())));
    args.log_file = Some("./strobmock.log".to_string());
    assert_eq!(args.log_file_target(), Some((".".to_string(), "strobmock.log".to_string())));
    args.log_file = Some("/out.log".to_string());
    assert_eq!(args.log_file_target(), Some(("/".to_string(), "out.log".to_string())));
    args.log_file = Some("x/./out.log".to_string());
    assert_eq!(args.log_file_target(), Some(("x".to_string(), "out.log".to_string())));
    args.log_file = Some("logs/..".to_string());
    assert_eq!(args.log_file_target(), Some(("logs".to_string(), "strobmock.log".to_string())));
}
