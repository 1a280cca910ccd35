use dori::config::config_file;
use dori::config::parse_arg_config;
use dori::config::ClientConfiguration;
use dori::config::HostConfig;
use dori::install::program_path;
use dori::install::Platform;
use dori::install::ProgramPath;
use dori::install::CLIENT_EXECUTABLE;
use dori::keygen::generate_key;
use dori::keygen::key_from_bytes;
use dori::keygen::random_key_bytes;
use dori::keygen::KEY_BYTES;

fn args(items: &[&str]) -> Vec<String> {
    items.iter().map(|s| s.to_string()).collect()
}

// ----- the host's configuration ----------------------------------------------

#[test]
fn host_config_defaults() {
    let config = HostConfig::default();
    assert_eq!(config.bind_address(), "127.0.0.1:12700");
    assert_eq!(config.client_name(), "my-client");
    assert_eq!(config.key(), "<- Enter cipher key here ->");
}

#[test]
fn host_config_getters() {
    let config = HostConfig::new("0.0.0.0:9".to_string(), "agentA".to_string(), "K1".to_string());
    assert_eq!(config.bind_address(), "0.0.0.0:9");
    assert_eq!(config.client_name(), "agentA");
    assert_eq!(config.key(), "K1");
}

#[test]
fn config_file_lies_under_config() {
    assert_eq!(config_file("alice"), "config/alice.toml");
    assert_eq!(config_file(""), "config/.toml");
    assert_eq!(config_file("a b"), "config/a b.toml");
}

// ----- the client's configuration ----------------------------------------------

#[test]
fn client_configuration_getters() {
    let config = ClientConfiguration::new(
        "agentA".to_string(),
        "updater".to_string(),
        "10.0.0.1:12700".to_string(),
        "K1".to_string(),
    );
    assert_eq!(config.client_name(), "agentA");
    assert_eq!(config.program_name(), "updater");
    assert_eq!(config.host_address(), "10.0.0.1:12700");
    assert_eq!(config.key(), "K1");
}

#[test]
fn to_args_lists_the_fields_in_reading_order() {
    let config = ClientConfiguration::new(
        "agentA".to_string(),
        "updater".to_string(),
        "10.0.0.1:12700".to_string(),
        "K1".to_string(),
    );
    let listed = config.to_args();
    assert_eq!(
        listed,
        ["agentA".to_string(), "updater".to_string(), "10.0.0.1:12700".to_string(), "K1".to_string()]
    );
    assert_eq!(parse_arg_config(&listed.to_vec(), true), Ok(config));
}

#[test]
fn arguments_are_read_in_order() {
    let config = parse_arg_config(&args(&["n", "p", "1.2.3.4:5", "k"]), true).unwrap();
    assert_eq!(config.client_name(), "n");
    assert_eq!(config.program_name(), "p");
    assert_eq!(config.host_address(), "1.2.3.4:5");
    assert_eq!(config.key(), "k");
    let config = parse_arg_config(&args(&["n", "p", "1.2.3.4:5", "k", "extra"]), true).unwrap();
    assert_eq!(config.key(), "k");
}

#[test]
fn the_first_thing_wrong_with_the_arguments_is_reported() {
    assert_eq!(parse_arg_config(&args(&[]), true), Err("Missing client name"));
    assert_eq!(parse_arg_config(&args(&[]), false), Err("Missing client name"));
    assert_eq!(parse_arg_config(&args(&["n"]), true), Err("Missing program name"));
    assert_eq!(parse_arg_config(&args(&["n", "p"]), false), Err("Missing host address"));
    assert_eq!(parse_arg_config(&args(&["n", "p", "x"]), false), Err("Invalid host address"));
    assert_eq!(parse_arg_config(&args(&["n", "p", "x", "k"]), false), Err("Invalid host address"));
    assert_eq!(parse_arg_config(&args(&["n", "p", "1.2.3.4:5"]), true), Err("Missing key"));
}

// ----- keys ------------------------------------------------------------------------

#[test]
fn key_bytes_are_sixty_four_in_range() {
    assert_eq!(KEY_BYTES, 64);
    let mut seen_above_one = false;
    for _ in 0..50 {
        let bytes = random_key_bytes();
        assert_eq!(bytes.len(), 64);
        assert!(bytes.iter().all(|b| 1 <= *b && *b < 255));
        seen_above_one = seen_above_one || bytes.iter().any(|b| *b > 1);
    }
    assert!(seen_above_one);
}

#[test]
fn key_from_bytes_reads_utf8() {
    assert_eq!(key_from_bytes(b"plain ascii".to_vec()), Some("plain ascii".to_string()));
    assert_eq!(key_from_bytes(vec![0xc3, 0xa9]), Some("\u{e9}".to_string()));
    assert_eq!(key_from_bytes(Vec::new()), Some(String::new()));
    assert_eq!(key_from_bytes(vec![0xff]), None);
    assert_eq!(key_from_bytes(vec![0xc3]), None);
    assert_eq!(key_from_bytes(vec![b'a', 0x80]), None);
}

#[test]
fn a_generated_key_has_sixty_four_bytes() {
    for _ in 0..20 {
        if let Some(key) = generate_key() {
            assert_eq!(key.len(), 64);
            assert!(key.bytes().all(|b| 1 <= b && b < 255));
        }
    }
}

// ----- where the program goes ----------------------------------------------------------

#[test]
fn client_executable_name() {
    assert_eq!(CLIENT_EXECUTABLE, "dori-client.exe");
}

#[test]
fn program_path_on_windows() {
    assert_eq!(
        program_path(Platform::Windows, "updater"),
        Some(ProgramPath {
            directory: "AppData\\Local\\updater".to_string(),
            executable: "updater.exe".to_string(),
        })
    );
}

#[test]
fn program_path_on_unix() {
    assert_eq!(
        program_path(Platform::Unix, "updater"),
        Some(ProgramPath {
            directory: "/opt/updater/updater".to_string(),
            executable: "updater".to_string(),
        })
    );
}

#[test]
fn program_path_elsewhere() {
    assert_eq!(program_path(Platform::Other, "updater"), None);
}
