use ord_options::bytes::{Bytes, MIB, TIB};
use ord_options::chain::Chain;
use ord_options::options::Options;

#[test]
fn max_index_size_defaults() {
    assert_eq!(Options::default().max_index_size(), Bytes(TIB));

    assert_eq!(
        Options { chain: Chain::Mainnet, ..Default::default() }.max_index_size(),
        Bytes(TIB)
    );

    assert_eq!(
        Options { chain: Chain::Signet, ..Default::default() }.max_index_size(),
        Bytes(TIB)
    );

    assert_eq!(
        Options { chain: Chain::Testnet, ..Default::default() }.max_index_size(),
        Bytes(TIB)
    );

    assert_eq!(
        Options { chain: Chain::Regtest, ..Default::default() }.max_index_size(),
        Bytes(MIB * 10)
    );
}

#[test]
fn max_index_size_override() {
    assert_eq!(
        Options { max_index_size: Some(Bytes(1)), ..Default::default() }.max_index_size(),
        Bytes(1),
    );
}

#[test]
fn rpc_url_overrides_network() {
    assert_eq!(
        Options {
            rpc_url: Some("127.0.0.1:1234".to_string()),
            chain: Chain::Signet,
            ..Default::default()
        }
        .rpc_url(),
        "127.0.0.1:1234"
    );
}

#[test]
fn cookie_file_overrides_network() {
    assert_eq!(
        Options {
            cookie_file: Some("/foo/bar".to_string()),
            chain: Chain::Signet,
            ..Default::default()
        }
        .cookie_file()
        .unwrap(),
        "/foo/bar"
    );
}

#[test]
fn use_default_network() {
    let options = Options::default();

    assert_eq!(options.rpc_url(), "127.0.0.1:8332");

    assert!(options.cookie_file().unwrap().ends_with(".cookie"));
}

#[test]
fn uses_network_defaults() {
    let options = Options { chain: Chain::Signet, ..Default::default() };

    assert_eq!(options.rpc_url(), "127.0.0.1:38332");

    assert!(options.cookie_file().unwrap().ends_with("/signet/.cookie"))
}

#[test]
fn mainnet_cookie_file_path() {
    let cookie_file = Options::default().cookie_file().unwrap();

    assert!(
        cookie_file.ends_with("/.bitcoin/.cookie") || cookie_file.ends_with("/Bitcoin/.cookie")
    );
}

#[test]
fn othernet_cookie_file_path() {
    let cookie_file = Options { chain: Chain::Signet, ..Default::default() }
        .cookie_file()
        .unwrap();

    assert!(
        cookie_file.ends_with("/.bitcoin/signet/.cookie")
            || cookie_file.ends_with("/Bitcoin/signet/.cookie")
    );
}

#[test]
fn cookie_file_defaults_to_bitcoin_data_dir() {
    let cookie_file = Options {
        bitcoin_data_dir: Some("foo".to_string()),
        chain: Chain::Signet,
        ..Default::default()
    }
    .cookie_file()
    .unwrap();

    assert!(cookie_file.ends_with("foo/signet/.cookie"));
}

#[test]
fn mainnet_data_dir() {
    let data_dir = Options::default().data_dir().unwrap();

    assert!(data_dir.ends_with("/ord"));
}

#[test]
fn othernet_data_dir() {
    let data_dir = Options { chain: Chain::Signet, ..Default::default() }
        .data_dir()
        .unwrap();

    assert!(data_dir.ends_with("/ord/signet"));
}

#[test]
fn network_accepts_aliases() {
    let cases: [(Chain, &str); 6] = [
        (Chain::Main, "ord"),
        (Chain::Mainnet, "ord"),
        (Chain::Regtest, "ord/regtest"),
        (Chain::Signet, "ord/signet"),
        (Chain::Test, "ord/testnet"),
        (Chain::Testnet, "ord/testnet"),
    ];

    for (chain, suffix) in cases {
        let data_dir = Options { chain, ..Default::default() }.data_dir().unwrap();

        assert!(data_dir.ends_with(suffix), "{data_dir}");
    }
}
