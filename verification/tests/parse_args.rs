use liana_gui::args::{parse_args, Arg, ParseError};
use liana_gui::network::Network;

#[test]
fn test_parse_args() {
    assert!(parse_args(vec!["--meth".into()]).is_err());
    assert!(parse_args(vec!["--datadir".into()]).is_err());
    assert!(parse_args(vec!["--conf".into()]).is_err());
    assert_eq!(
        Some(vec![
            Arg::DatadirPath(".".to_string()),
            Arg::ConfigPath("hello.toml".to_string()),
        ]),
        parse_args(
            "--datadir . --conf hello.toml"
                .split(' ')
                .map(|a| a.to_string())
                .collect()
        )
        .ok()
    );
    assert_eq!(
        Some(vec![Arg::Network(Network::Regtest)]),
        parse_args(vec!["--regtest".into()]).ok()
    );
    assert_eq!(
        Some(vec![
            Arg::DatadirPath("hello".to_string()),
            Arg::Network(Network::Testnet)
        ]),
        parse_args(
            "--datadir hello --testnet"
                .split(' ')
                .map(|a| a.to_string())
                .collect()
        )
        .ok()
    );
    assert_eq!(
        Some(vec![
            Arg::Network(Network::Testnet),
            Arg::DatadirPath("hello".to_string())
        ]),
        parse_args(
            "--testnet --datadir hello"
                .split(' ')
                .map(|a| a.to_string())
                .collect()
        )
        .ok()
    );
}

#[test]
fn unknown_flag_fails_with_unknown_network() {
    assert_eq!(
        Err(ParseError::UnknownNetwork),
        parse_args(vec!["--bogus".to_string()])
    );
}

#[test]
fn missing_values_are_reported_per_flag() {
    assert_eq!(
        Err(ParseError::MissingConfValue),
        parse_args(vec!["--signet".to_string(), "--conf".to_string()])
    );
    assert_eq!(
        Err(ParseError::MissingDatadirValue),
        parse_args(vec!["--datadir".to_string()])
    );
}

#[test]
fn bare_tokens_are_rejected() {
    // Any argument that is no flag and not the value of one is a fatal
    // parse error.
    assert_eq!(
        Err(ParseError::UnexpectedArgument),
        parse_args(vec!["hello".to_string()])
    );
    assert_eq!(
        Err(ParseError::UnexpectedArgument),
        parse_args(vec!["--signet".to_string(), "extra".to_string()])
    );
    // A bare token standing as a flag's value is consumed, not rejected.
    assert_eq!(
        Some(vec![
            Arg::DatadirPath("wallet".to_string()),
            Arg::Network(Network::Signet)
        ]),
        parse_args(vec![
            "--datadir".to_string(),
            "wallet".to_string(),
            "--signet".to_string(),
        ])
        .ok()
    );
}

#[test]
fn each_network_flag_parses() {
    for (flag, network) in [
        ("--bitcoin", Network::Bitcoin),
        ("--testnet", Network::Testnet),
        ("--signet", Network::Signet),
        ("--regtest", Network::Regtest),
    ] {
        assert_eq!(
            Some(vec![Arg::Network(network)]),
            parse_args(vec![flag.to_string()]).ok()
        );
    }
}

#[test]
fn double_dash_anywhere_in_token_must_name_a_network() {
    assert_eq!(
        Err(ParseError::UnknownNetwork),
        parse_args(vec!["x--y".to_string()])
    );
    // Leading `--` pairs are stripped repeatedly before the name is read.
    assert_eq!(
        Some(vec![Arg::Network(Network::Regtest)]),
        parse_args(vec!["----regtest".to_string()]).ok()
    );
}
