use solana_bench_tps_rate::args::{
    check_compute_unit_price, check_num_keypairs, check_rate, check_threads, parse_args, ArgError, ClientKind, Commitment, RawArgs, Settings, LAMPORTS_PER_SOL,
};

/// A command line without any argument.
fn bare() -> RawArgs {
    RawArgs {
        authority_given: false,
        authority_read: false,
        rate: None,
        duration: None,
        tx_count: None,
        threads: None,
        use_rpc_client: false,
        tpu_disable_quic: false,
        tpu_connection_pool_size: None,
        compute_unit_price: None,
        num_keypairs: None,
        num_lamports_per_account: None,
        confirmation_timeout: None,
        commitment_config: None,
        faucet_resolved: None,
        bind_address_resolved: None,
        client_node_id_read: None,
        warmup: None,
    }
}

fn text(value: &str) -> Option<String> {
    Some(value.to_string())
}

#[test]
fn defaults() {
    assert_eq!(parse_args(&bare()), Ok(Settings::default()));
    let settings = Settings::default();
    assert_eq!(settings.target_tps, 100);
    assert_eq!(settings.duration_secs, Some(60));
    assert_eq!(settings.tx_count, None);
    assert_eq!(settings.num_keypairs, 100);
    assert_eq!(settings.num_threads, 1);
    assert_eq!(settings.tpu_connection_pool_size, 4);
    assert_eq!(settings.commitment, Commitment::Confirmed);
    assert_eq!(settings.warmup_secs, 0);
    assert_eq!(LAMPORTS_PER_SOL, solana_sdk::native_token::LAMPORTS_PER_SOL);
}

#[test]
fn every_argument_is_taken_over() {
    let args = RawArgs {
        authority_given: true,
        authority_read: true,
        rate: text("+2500"),
        duration: text("15"),
        threads: text("4"),
        use_rpc_client: true,
        tpu_disable_quic: true,
        tpu_connection_pool_size: text("8"),
        compute_unit_price: text("0"),
        num_keypairs: text("64"),
        num_lamports_per_account: text("007"),
        confirmation_timeout: text("90"),
        commitment_config: text("finalized"),
        faucet_resolved: Some(true),
        bind_address_resolved: Some(true),
        client_node_id_read: Some(true),
        warmup: text("18446744073709551615"),
        tx_count: None,
    };
    assert_eq!(
        parse_args(&args),
        Ok(Settings {
            target_tps: 2500,
            duration_secs: Some(15),
            tx_count: None,
            use_tpu_client: false,
            use_quic: false,
            compute_unit_price: Some(0),
            commitment: Commitment::Finalized,
            num_keypairs: 64,
            confirmation_timeout_secs: 90,
            tpu_connection_pool_size: 8,
            num_lamports_per_account: 7,
            num_threads: 4,
            warmup_secs: u64::MAX,
        })
    );
}

#[test]
fn tx_count_overrides_duration() {
    let args = RawArgs { duration: text("15"), tx_count: text("1000"), ..bare() };
    let settings = parse_args(&args).unwrap();
    assert_eq!(settings.tx_count, Some(1000));
    assert_eq!(settings.duration_secs, None);
}

#[test]
fn commitment_levels() {
    let level = |name: &str| {
        parse_args(&RawArgs { commitment_config: text(name), ..bare() }).map(|s| s.commitment)
    };
    assert_eq!(level("processed"), Ok(Commitment::Processed));
    assert_eq!(level("confirmed"), Ok(Commitment::Confirmed));
    assert_eq!(level("finalized"), Ok(Commitment::Finalized));
    assert_eq!(level("Confirmed"), Err(ArgError::CommitmentConfig));
    assert_eq!(level(""), Err(ArgError::CommitmentConfig));
}

#[test]
fn numbers_that_are_none() {
    for bad in ["", "+", "-1", "1 ", "1_000", "0x10", "18446744073709551616"] {
        let args = RawArgs { rate: text(bad), ..bare() };
        assert_eq!(parse_args(&args), Err(ArgError::Rate), "{}", bad);
        let args = RawArgs { threads: text(bad), ..bare() };
        assert_eq!(parse_args(&args), Err(ArgError::Threads), "{}", bad);
    }
}

#[test]
fn each_error_has_its_message() {
    let bad = || text("x");
    let cases = [
        (
            RawArgs { authority_given: true, ..bare() },
            "could not parse authority keypair path",
        ),
        (RawArgs { rate: bad(), ..bare() }, "can't parse rate"),
        (RawArgs { duration: bad(), ..bare() }, "can't parse duration"),
        (RawArgs { tx_count: bad(), ..bare() }, "can't parse tx-count"),
        (RawArgs { threads: bad(), ..bare() }, "can't parse threads"),
        (
            RawArgs { tpu_connection_pool_size: bad(), ..bare() },
            "can't parse tpu-connection-pool-size",
        ),
        (
            RawArgs { compute_unit_price: bad(), ..bare() },
            "can't parse compute-unit-price",
        ),
        (RawArgs { num_keypairs: bad(), ..bare() }, "can't parse num-keypairs"),
        (
            RawArgs { num_lamports_per_account: bad(), ..bare() },
            "can't parse num-lamports-per-account",
        ),
        (
            RawArgs { confirmation_timeout: bad(), ..bare() },
            "can't parse confirmation-timeout",
        ),
        (RawArgs { commitment_config: bad(), ..bare() }, "invalid commitment config"),
        (
            RawArgs { faucet_resolved: Some(false), ..bare() },
            "can't parse faucet address",
        ),
        (
            RawArgs { bind_address_resolved: Some(false), ..bare() },
            "Failed to parse bind-address",
        ),
        (
            RawArgs { client_node_id_read: Some(false), ..bare() },
            "can't parse client-node-id",
        ),
        (RawArgs { warmup: bad(), ..bare() }, "can't parse warmup"),
    ];
    for (args, message) in cases {
        assert_eq!(parse_args(&args).unwrap_err().message(), message);
    }
}

#[test]
fn first_error_wins() {
    let args = RawArgs {
        warmup: text("x"),
        commitment_config: text("x"),
        faucet_resolved: Some(false),
        ..bare()
    };
    assert_eq!(parse_args(&args), Err(ArgError::CommitmentConfig));
}

#[test]
fn client_kinds() {
    let kind = |use_tpu_client: bool, use_quic: bool, has_id: bool| {
        Settings { use_tpu_client, use_quic, ..Settings::default() }.client_kind(has_id)
    };
    assert_eq!(kind(false, true, true), ClientKind::Rpc);
    assert_eq!(kind(true, false, true), ClientKind::TpuUdp);
    assert_eq!(kind(true, true, false), ClientKind::TpuQuic);
    assert_eq!(kind(true, true, true), ClientKind::TpuQuicStaked);
}

#[test]
fn numbers_are_checked_as_written() {
    let word = |text: &str| text.to_string();
    assert_eq!(check_rate(word("1")), Ok(()));
    assert_eq!(check_rate(word("+1")), Ok(()));
    assert!(check_rate(word("0")).is_err());
    assert_eq!(check_threads(word("1")), Ok(()));
    assert!(check_threads(word("0")).is_err());
    assert_eq!(check_compute_unit_price(word("0")), Ok(()));
    assert!(check_compute_unit_price(word("-1")).is_err());
    assert_eq!(check_num_keypairs(word("2")), Ok(()));
    assert_eq!(
        check_num_keypairs(word("1")),
        Err(word("input '1' out of range 2.."))
    );
    assert_eq!(
        check_num_keypairs(word("two")),
        Err(word("error parsing 'two': invalid digit found in string"))
    );
}
