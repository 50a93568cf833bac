//! The settings of a run, from the words of the command line.
//!
//! The caller takes the command line apart, reads key pair files and resolves
//! addresses; this module checks and combines what it found.
use crate::number::{
    lemma_numbers_are_not_negative, number_at_least, parse_u64, parse_usize, parsed_number,
    range_complaint, within_range,
};
use vstd::prelude::*;

verus! {

/// Lamports in one SOL.
pub const LAMPORTS_PER_SOL: u64 = 1_000_000_000;

/// Duration of a run that is given neither a duration nor a number of
/// transactions, in seconds.
pub const DEFAULT_DURATION_SECS: u64 = 60;

/// Smallest target rate.
pub const MIN_RATE: usize = 1;

/// Smallest number of sender threads.
pub const MIN_THREADS: usize = 1;

/// Smallest priority fee.
pub const MIN_COMPUTE_UNIT_PRICE: usize = 0;

/// Smallest number of key pairs.
pub const MIN_KEYPAIRS: usize = 2;

/// The level at which a transaction count or a balance is read.
#[derive(Debug, Clone, Copy, PartialEq, Eq, Structural)]
pub enum Commitment {
    /// The most recent block that the node has processed.
    Processed,
    /// The most recent block that a supermajority has voted for.
    Confirmed,
    /// The most recent block that is final.
    Finalized,
}

/// How transactions are submitted.
#[derive(Debug, Clone, Copy, PartialEq, Eq, Structural)]
pub enum ClientKind {
    /// Through the RPC node.
    Rpc,
    /// To the leaders, over UDP.
    TpuUdp,
    /// To the leaders, over QUIC.
    TpuQuic,
    /// To the leaders, over QUIC with the identity of a staked node.
    TpuQuicStaked,
}

/// What the command line holds, each value as it was written, and how the reading
/// of files and the resolution of names went.
#[derive(Debug, Clone)]
pub struct RawArgs {
    /// Whether the authority's key pair was named on the command line.
    pub authority_given: bool,
    /// Whether the authority's key pair could be read.
    pub authority_read: bool,
    /// Target transactions per second.
    pub rate: Option<String>,
    /// Test duration in seconds.
    pub duration: Option<String>,
    /// Total number of transactions to send.
    pub tx_count: Option<String>,
    /// Number of sender threads.
    pub threads: Option<String>,
    /// Whether to submit through the RPC node.
    pub use_rpc_client: bool,
    /// Whether not to use QUIC.
    pub tpu_disable_quic: bool,
    /// Connections per remote address.
    pub tpu_connection_pool_size: Option<String>,
    /// Priority fee in micro-lamports per compute unit.
    pub compute_unit_price: Option<String>,
    /// Number of key pairs.
    pub num_keypairs: Option<String>,
    /// Number of lamports per account.
    pub num_lamports_per_account: Option<String>,
    /// Seconds after which a transaction counts as dropped.
    pub confirmation_timeout: Option<String>,
    /// Commitment level.
    pub commitment_config: Option<String>,
    /// Whether the faucet's address could be resolved, if one was given.
    pub faucet_resolved: Option<bool>,
    /// Whether the bind address could be resolved, if one was given.
    pub bind_address_resolved: Option<bool>,
    /// Whether the client node's key pair could be read, if one was named.
    pub client_node_id_read: Option<bool>,
    /// Warmup period in seconds.
    pub warmup: Option<String>,
}

/// Why a command line is refused.
#[derive(Debug, Clone, Copy, PartialEq, Eq, Structural)]
pub enum ArgError {
    /// The authority's key pair could not be read.
    Authority,
    /// The rate is not a number.
    Rate,
    /// The duration is not a number.
    Duration,
    /// The number of transactions is not a number.
    TxCount,
    /// The number of threads is not a number.
    Threads,
    /// The connection pool size is not a number.
    TpuConnectionPoolSize,
    /// The compute unit price is not a number.
    ComputeUnitPrice,
    /// The number of key pairs is not a number.
    NumKeypairs,
    /// The number of lamports per account is not a number.
    NumLamportsPerAccount,
    /// The confirmation timeout is not a number.
    ConfirmationTimeout,
    /// There is no such commitment level.
    CommitmentConfig,
    /// The faucet's address could not be resolved.
    Faucet,
    /// The bind address could not be resolved.
    BindAddress,
    /// The client node's key pair could not be read.
    ClientNodeId,
    /// The warmup is not a number.
    Warmup,
}

/// The settings of a run.
#[derive(Debug, Clone, Copy, PartialEq, Eq, Structural)]
pub struct Settings {
    /// Target transactions per second.
    pub target_tps: u64,
    /// Measurement time in seconds.
    pub duration_secs: Option<u64>,
    /// Number of transactions after which to stop.
    pub tx_count: Option<u64>,
    /// Whether to submit to the leaders directly.
    pub use_tpu_client: bool,
    /// Whether to use QUIC.
    pub use_quic: bool,
    /// Priority fee in micro-lamports per compute unit.
    pub compute_unit_price: Option<u64>,
    /// Commitment level.
    pub commitment: Commitment,
    /// Number of key pairs to generate.
    pub num_keypairs: usize,
    /// Seconds after which a transaction counts as dropped.
    pub confirmation_timeout_secs: u64,
    /// Connections per remote address.
    pub tpu_connection_pool_size: usize,
    /// Lamports that each account can spend.
    pub num_lamports_per_account: u64,
    /// Number of sender threads.
    pub num_threads: usize,
    /// Warmup period in seconds (transactions sent but not measured).
    pub warmup_secs: u64,
}

/// The settings without any argument.
pub open spec fn default_settings() -> Settings {
    Settings {
        target_tps: 100,
        duration_secs: Some(DEFAULT_DURATION_SECS),
        tx_count: None,
        use_tpu_client: true,
        use_quic: true,
        compute_unit_price: None,
        commitment: Commitment::Confirmed,
        num_keypairs: 100,
        confirmation_timeout_secs: 60,
        tpu_connection_pool_size: 4,
        num_lamports_per_account: LAMPORTS_PER_SOL,
        num_threads: 1,
        warmup_secs: 0,
    }
}

impl Default for Settings {
    fn default() -> (settings: Self)
        ensures
            settings == default_settings(),
    {
        Settings {
            target_tps: 100,
            duration_secs: Some(DEFAULT_DURATION_SECS),
            tx_count: None,
            use_tpu_client: true,
            use_quic: true,
            compute_unit_price: None,
            commitment: Commitment::Confirmed,
            num_keypairs: 100,
            confirmation_timeout_secs: 60,
            tpu_connection_pool_size: 4,
            num_lamports_per_account: LAMPORTS_PER_SOL,
            num_threads: 1,
            warmup_secs: 0,
        }
    }
}

/// Whether an argument is given but is not a number up to `max`.
pub open spec fn bad_number(arg: Option<String>, max: int) -> bool {
    arg matches Some(text) && parsed_number(text@, max) is None
}

/// The number that an argument gives, or the default if it is not given.
pub open spec fn number_or(arg: Option<String>, max: int, default: int) -> int {
    match arg {
        Some(text) => parsed_number(text@, max)->0,
        None => default,
    }
}

/// The number that an argument gives, if it is given.
pub open spec fn number_if_given(arg: Option<String>) -> Option<u64> {
    match arg {
        Some(text) => Some(parsed_number(text@, u64::MAX as int)->0 as u64),
        None => None,
    }
}

/// The commitment level of a name; an argument that is not given names the
/// default.
pub open spec fn commitment_of(arg: Option<String>) -> Option<Commitment> {
    match arg {
        None => Some(Commitment::Confirmed),
        Some(name) => {
            if name@ == "processed"@ {
                Some(Commitment::Processed)
            } else if name@ == "confirmed"@ {
                Some(Commitment::Confirmed)
            } else if name@ == "finalized"@ {
                Some(Commitment::Finalized)
            } else {
                None
            }
        },
    }
}

impl RawArgs {
    /// The first thing that is wrong with a command line, if anything is.
    pub open spec fn first_error(self) -> Option<ArgError> {
        if self.authority_given && !self.authority_read {
            Some(ArgError::Authority)
        } else if bad_number(self.rate, u64::MAX as int) {
            Some(ArgError::Rate)
        } else if bad_number(self.duration, u64::MAX as int) {
            Some(ArgError::Duration)
        } else if bad_number(self.tx_count, u64::MAX as int) {
            Some(ArgError::TxCount)
        } else if bad_number(self.threads, usize::MAX as int) {
            Some(ArgError::Threads)
        } else if bad_number(self.tpu_connection_pool_size, usize::MAX as int) {
            Some(ArgError::TpuConnectionPoolSize)
        } else if bad_number(self.compute_unit_price, u64::MAX as int) {
            Some(ArgError::ComputeUnitPrice)
        } else if bad_number(self.num_keypairs, usize::MAX as int) {
            Some(ArgError::NumKeypairs)
        } else if bad_number(self.num_lamports_per_account, u64::MAX as int) {
            Some(ArgError::NumLamportsPerAccount)
        } else if bad_number(self.confirmation_timeout, u64::MAX as int) {
            Some(ArgError::ConfirmationTimeout)
        } else if commitment_of(self.commitment_config) is None {
            Some(ArgError::CommitmentConfig)
        } else if self.faucet_resolved == Some(false) {
            Some(ArgError::Faucet)
        } else if self.bind_address_resolved == Some(false) {
            Some(ArgError::BindAddress)
        } else if self.client_node_id_read == Some(false) {
            Some(ArgError::ClientNodeId)
        } else if bad_number(self.warmup, u64::MAX as int) {
            Some(ArgError::Warmup)
        } else {
            None
        }
    }

    /// The settings of a command line with which nothing is wrong.
    pub open spec fn settings(self) -> Settings {
        let default = default_settings();
        Settings {
            target_tps: number_or(self.rate, u64::MAX as int, default.target_tps as int) as u64,
            // A number of transactions takes precedence over a duration.
            duration_secs: if self.tx_count is Some {
                None
            } else if self.duration is Some {
                number_if_given(self.duration)
            } else {
                default.duration_secs
            },
            tx_count: number_if_given(self.tx_count),
            use_tpu_client: !self.use_rpc_client,
            use_quic: !self.tpu_disable_quic,
            compute_unit_price: number_if_given(self.compute_unit_price),
            commitment: commitment_of(self.commitment_config)->0,
            num_keypairs: number_or(
                self.num_keypairs,
                usize::MAX as int,
                default.num_keypairs as int,
            ) as usize,
            confirmation_timeout_secs: number_or(
                self.confirmation_timeout,
                u64::MAX as int,
                default.confirmation_timeout_secs as int,
            ) as u64,
            tpu_connection_pool_size: number_or(
                self.tpu_connection_pool_size,
                usize::MAX as int,
                default.tpu_connection_pool_size as int,
            ) as usize,
            num_lamports_per_account: number_or(
                self.num_lamports_per_account,
                u64::MAX as int,
                default.num_lamports_per_account as int,
            ) as u64,
            num_threads: number_or(
                self.threads,
                usize::MAX as int,
                default.num_threads as int,
            ) as usize,
            warmup_secs: number_or(self.warmup, u64::MAX as int, default.warmup_secs as int) as u64,
        }
    }
}

/// Check the target rate as it was written.
pub fn check_rate(text: String) -> (checked: Result<(), String>)
    ensures
        checked is Ok <==> number_at_least(text@, MIN_RATE),
        checked matches Err(complaint) ==> complaint@ == range_complaint(text@, MIN_RATE),
{
    within_range(text, MIN_RATE)
}

/// Check the number of threads as it was written.
pub fn check_threads(text: String) -> (checked: Result<(), String>)
    ensures
        checked is Ok <==> number_at_least(text@, MIN_THREADS),
        checked matches Err(complaint) ==> complaint@ == range_complaint(text@, MIN_THREADS),
{
    within_range(text, MIN_THREADS)
}

/// Check the compute unit price as it was written.
pub fn check_compute_unit_price(text: String) -> (checked: Result<(), String>)
    ensures
        checked is Ok <==> number_at_least(text@, MIN_COMPUTE_UNIT_PRICE),
        checked matches Err(complaint) ==> complaint@ == range_complaint(text@, MIN_COMPUTE_UNIT_PRICE),
{
    within_range(text, MIN_COMPUTE_UNIT_PRICE)
}

/// Check the number of key pairs as it was written.
pub fn check_num_keypairs(text: String) -> (checked: Result<(), String>)
    ensures
        checked is Ok <==> number_at_least(text@, MIN_KEYPAIRS),
        checked matches Err(complaint) ==> complaint@ == range_complaint(text@, MIN_KEYPAIRS),
{
    within_range(text, MIN_KEYPAIRS)
}

/// Read an optional number.
fn number_arg(arg: &Option<String>) -> (number: Result<Option<u64>, ()>)
    ensures
        number is Err <==> bad_number(*arg, u64::MAX as int),
        number matches Ok(value) ==> value == number_if_given(*arg),
        number matches Ok(Some(value)) ==> forall|default: int|
            value == #[trigger] number_or(*arg, u64::MAX as int, default),
        number matches Ok(None) ==> *arg is None,
{
    match arg {
        Some(text) => match parse_u64(text.as_str()) {
            Some(value) => Ok(Some(value)),
            None => Err(()),
        },
        None => Ok(None),
    }
}

/// Read an optional number, or take the default.
fn number_arg_or(arg: &Option<String>, default: u64) -> (number: Result<u64, ()>)
    ensures
        number is Err <==> bad_number(*arg, u64::MAX as int),
        number matches Ok(value) ==> value == number_or(*arg, u64::MAX as int, default as int),
{
    match number_arg(arg) {
        Ok(Some(value)) => Ok(value),
        Ok(None) => Ok(default),
        Err(_) => Err(()),
    }
}

/// Read an optional size, or take the default.
fn size_arg_or(arg: &Option<String>, default: usize) -> (number: Result<usize, ()>)
    ensures
        number is Err <==> bad_number(*arg, usize::MAX as int),
        number matches Ok(value) ==> value == number_or(*arg, usize::MAX as int, default as int),
{
    match arg {
        Some(text) => match parse_usize(text.as_str()) {
            Some(value) => Ok(value),
            None => Err(()),
        },
        None => Ok(default),
    }
}

/// Read an optional commitment level.
fn commitment_arg(arg: &Option<String>) -> (commitment: Option<Commitment>)
    ensures
        commitment == commitment_of(*arg),
{
    match arg {
        None => Some(Commitment::Confirmed),
        Some(name) => {
            if *name == "processed".to_string() {
                Some(Commitment::Processed)
            } else if *name == "confirmed".to_string() {
                Some(Commitment::Confirmed)
            } else if *name == "finalized".to_string() {
                Some(Commitment::Finalized)
            } else {
                None
            }
        },
    }
}

/// Whether something was tried and failed.
fn failed(outcome: Option<bool>) -> (failed: bool)
    ensures
        failed == (outcome == Some(false)),
{
    match outcome {
        Some(success) => !success,
        None => false,
    }
}

/// Check the command line and combine it into the settings of a run; a command
/// line with several errors is refused for the first.
pub fn parse_args(args: &RawArgs) -> (settings: Result<Settings, ArgError>)
    ensures
        settings == (match args.first_error() {
            Some(error) => Err(error),
            None => Ok(args.settings()),
        }),
{
    let mut settings = Settings::default();

    if args.authority_given && !args.authority_read {
        return Err(ArgError::Authority);
    }
    match number_arg_or(&args.rate, settings.target_tps) {
        Ok(rate) => settings.target_tps = rate,
        Err(_) => return Err(ArgError::Rate),
    }
    match number_arg(&args.duration) {
        Ok(Some(secs)) => settings.duration_secs = Some(secs),
        Ok(None) => {},
        Err(_) => return Err(ArgError::Duration),
    }
    match number_arg(&args.tx_count) {
        Ok(count) => settings.tx_count = count,
        Err(_) => return Err(ArgError::TxCount),
    }
    // If tx_count is set, it takes precedence over duration
    if settings.tx_count.is_some() {
        settings.duration_secs = None;
    }
    match size_arg_or(&args.threads, settings.num_threads) {
        Ok(threads) => settings.num_threads = threads,
        Err(_) => return Err(ArgError::Threads),
    }
    if args.use_rpc_client {
        settings.use_tpu_client = false;
    }
    if args.tpu_disable_quic {
        settings.use_quic = false;
    }
    match size_arg_or(&args.tpu_connection_pool_size, settings.tpu_connection_pool_size) {
        Ok(size) => settings.tpu_connection_pool_size = size,
        Err(_) => return Err(ArgError::TpuConnectionPoolSize),
    }
    match number_arg(&args.compute_unit_price) {
        Ok(price) => settings.compute_unit_price = price,
        Err(_) => return Err(ArgError::ComputeUnitPrice),
    }
    match size_arg_or(&args.num_keypairs, settings.num_keypairs) {
        Ok(count) => settings.num_keypairs = count,
        Err(_) => return Err(ArgError::NumKeypairs),
    }
    match number_arg_or(&args.num_lamports_per_account, settings.num_lamports_per_account) {
        Ok(lamports) => settings.num_lamports_per_account = lamports,
        Err(_) => return Err(ArgError::NumLamportsPerAccount),
    }
    match number_arg_or(&args.confirmation_timeout, settings.confirmation_timeout_secs) {
        Ok(secs) => settings.confirmation_timeout_secs = secs,
        Err(_) => return Err(ArgError::ConfirmationTimeout),
    }
    match commitment_arg(&args.commitment_config) {
        Some(commitment) => settings.commitment = commitment,
        None => return Err(ArgError::CommitmentConfig),
    }
    if failed(args.faucet_resolved) {
        return Err(ArgError::Faucet);
    }
    if failed(args.bind_address_resolved) {
        return Err(ArgError::BindAddress);
    }
    if failed(args.client_node_id_read) {
        return Err(ArgError::ClientNodeId);
    }
    match number_arg_or(&args.warmup, settings.warmup_secs) {
        Ok(secs) => settings.warmup_secs = secs,
        Err(_) => return Err(ArgError::Warmup),
    }
    Ok(settings)
}

/// A run has either a duration or a number of transactions, and a number of
/// transactions takes precedence over a duration.
pub proof fn law_count_takes_precedence_over_duration(args: RawArgs)
    ensures
        args.settings().tx_count is Some <==> args.tx_count is Some,
        args.settings().tx_count is Some <==> args.settings().duration_secs is None,
{
}

/// Whether an argument is not given or is a number from `min` on.
pub open spec fn absent_or_at_least(arg: Option<String>, min: usize) -> bool {
    arg matches Some(text) ==> number_at_least(text@, min)
}

impl RawArgs {
    /// Whether the rate is given and the arguments that are checked as they were
    /// written pass.
    pub open spec fn checked(self) -> bool {
        &&& self.rate is Some
        &&& absent_or_at_least(self.rate, MIN_RATE)
        &&& absent_or_at_least(self.threads, MIN_THREADS)
        &&& absent_or_at_least(self.compute_unit_price, MIN_COMPUTE_UNIT_PRICE)
        &&& absent_or_at_least(self.num_keypairs, MIN_KEYPAIRS)
    }
}

/// Arguments that pass the checks give settings with which a run can begin: a
/// rate, at least one thread and at least two key pairs; and none of them is then
/// refused for one of these numbers.
pub proof fn law_checked_arguments_give_usable_settings(args: RawArgs)
    requires
        args.checked(),
    ensures
        args.settings().target_tps >= MIN_RATE,
        args.settings().num_threads >= MIN_THREADS,
        args.settings().num_keypairs >= MIN_KEYPAIRS,
        args.first_error() matches Some(error) ==> {
            &&& error != ArgError::Rate
            &&& error != ArgError::Threads
            &&& error != ArgError::ComputeUnitPrice
            &&& error != ArgError::NumKeypairs
        },
{
}

impl ArgError {
    /// What the user is told.
    pub open spec fn text(self) -> Seq<char> {
        match self {
            ArgError::Authority => "could not parse authority keypair path"@,
            ArgError::Rate => "can't parse rate"@,
            ArgError::Duration => "can't parse duration"@,
            ArgError::TxCount => "can't parse tx-count"@,
            ArgError::Threads => "can't parse threads"@,
            ArgError::TpuConnectionPoolSize => "can't parse tpu-connection-pool-size"@,
            ArgError::ComputeUnitPrice => "can't parse compute-unit-price"@,
            ArgError::NumKeypairs => "can't parse num-keypairs"@,
            ArgError::NumLamportsPerAccount => "can't parse num-lamports-per-account"@,
            ArgError::ConfirmationTimeout => "can't parse confirmation-timeout"@,
            ArgError::CommitmentConfig => "invalid commitment config"@,
            ArgError::Faucet => "can't parse faucet address"@,
            ArgError::BindAddress => "Failed to parse bind-address"@,
            ArgError::ClientNodeId => "can't parse client-node-id"@,
            ArgError::Warmup => "can't parse warmup"@,
        }
    }

    /// The message for the user.
    pub fn message(&self) -> (message: &'static str)
        ensures
            message@ == self.text(),
    {
        match self {
            ArgError::Authority => "could not parse authority keypair path",
            ArgError::Rate => "can't parse rate",
            ArgError::Duration => "can't parse duration",
            ArgError::TxCount => "can't parse tx-count",
            ArgError::Threads => "can't parse threads",
            ArgError::TpuConnectionPoolSize => "can't parse tpu-connection-pool-size",
            ArgError::ComputeUnitPrice => "can't parse compute-unit-price",
            ArgError::NumKeypairs => "can't parse num-keypairs",
            ArgError::NumLamportsPerAccount => "can't parse num-lamports-per-account",
            ArgError::ConfirmationTimeout => "can't parse confirmation-timeout",
            ArgError::CommitmentConfig => "invalid commitment config",
            ArgError::Faucet => "can't parse faucet address",
            ArgError::BindAddress => "Failed to parse bind-address",
            ArgError::ClientNodeId => "can't parse client-node-id",
            ArgError::Warmup => "can't parse warmup",
        }
    }
}

impl Settings {
    /// How to submit transactions.
    pub open spec fn kind_of(self, has_client_node_id: bool) -> ClientKind {
        if !self.use_tpu_client {
            ClientKind::Rpc
        } else if !self.use_quic {
            ClientKind::TpuUdp
        } else if has_client_node_id {
            ClientKind::TpuQuicStaked
        } else {
            ClientKind::TpuQuic
        }
    }

    /// How to submit transactions, with or without the identity of a staked
    /// node.
    pub fn client_kind(&self, has_client_node_id: bool) -> (kind: ClientKind)
        ensures
            kind == self.kind_of(has_client_node_id),
            kind == (if !self.use_tpu_client {
                ClientKind::Rpc
            } else if !self.use_quic {
                ClientKind::TpuUdp
            } else if has_client_node_id {
                ClientKind::TpuQuicStaked
            } else {
                ClientKind::TpuQuic
            }),
    {
        if self.use_tpu_client {
            if self.use_quic {
                if has_client_node_id {
                    ClientKind::TpuQuicStaked
                } else {
                    ClientKind::TpuQuic
                }
            } else {
                ClientKind::TpuUdp
            }
        } else {
            ClientKind::Rpc
        }
    }
}

impl RawArgs {
    /// Whether a command line is wrong in one respect.
    pub open spec fn wrong(self, error: ArgError) -> bool {
        let big = 0xffff_ffff_ffff_ffffint;
        let size = usize::MAX as int;
        match error {
            ArgError::Authority => self.authority_given && !self.authority_read,
            ArgError::Rate => self.rate is Some && parsed_number(self.rate->0@, big) is None,
            ArgError::Duration => self.duration is Some && parsed_number(self.duration->0@, big)
                is None,
            ArgError::TxCount => self.tx_count is Some && parsed_number(self.tx_count->0@, big)
                is None,
            ArgError::Threads => self.threads is Some && parsed_number(self.threads->0@, size)
                is None,
            ArgError::TpuConnectionPoolSize => self.tpu_connection_pool_size is Some
                && parsed_number(self.tpu_connection_pool_size->0@, size) is None,
            ArgError::ComputeUnitPrice => self.compute_unit_price is Some && parsed_number(
                self.compute_unit_price->0@,
                big,
            ) is None,
            ArgError::NumKeypairs => self.num_keypairs is Some && parsed_number(
                self.num_keypairs->0@,
                size,
            ) is None,
            ArgError::NumLamportsPerAccount => self.num_lamports_per_account is Some
                && parsed_number(self.num_lamports_per_account->0@, big) is None,
            ArgError::ConfirmationTimeout => self.confirmation_timeout is Some && parsed_number(
                self.confirmation_timeout->0@,
                big,
            ) is None,
            ArgError::CommitmentConfig => self.commitment_config is Some
                && self.commitment_config->0@ != "processed"@ && self.commitment_config->0@
                != "confirmed"@ && self.commitment_config->0@ != "finalized"@,
            ArgError::Faucet => self.faucet_resolved == Some(false),
            ArgError::BindAddress => self.bind_address_resolved == Some(false),
            ArgError::ClientNodeId => self.client_node_id_read == Some(false),
            ArgError::Warmup => self.warmup is Some && parsed_number(self.warmup->0@, big) is None,
        }
    }
}

/// The place of an error in the order in which a command line is checked.
pub open spec fn place(error: ArgError) -> int {
    match error {
        ArgError::Authority => 0,
        ArgError::Rate => 1,
        ArgError::Duration => 2,
        ArgError::TxCount => 3,
        ArgError::Threads => 4,
        ArgError::TpuConnectionPoolSize => 5,
        ArgError::ComputeUnitPrice => 6,
        ArgError::NumKeypairs => 7,
        ArgError::NumLamportsPerAccount => 8,
        ArgError::ConfirmationTimeout => 9,
        ArgError::CommitmentConfig => 10,
        ArgError::Faucet => 11,
        ArgError::BindAddress => 12,
        ArgError::ClientNodeId => 13,
        ArgError::Warmup => 14,
    }
}

/// A command line is accepted exactly if it is wrong in no respect, and refused for
/// the first respect in which it is wrong.
pub proof fn law_a_command_line_is_refused_for_its_first_error(args: RawArgs, error: ArgError)
    ensures
        args.first_error() is None ==> !args.wrong(error),
        args.first_error() is Some ==> args.wrong(args.first_error()->0),
        args.wrong(error) ==> args.first_error() is Some && place(args.first_error()->0) <= place(
            error,
        ),
{
}

/// Each number on the command line is the setting it names, and none other: a setting
/// whose argument is not given keeps its default.
pub proof fn law_each_argument_sets_its_own_setting(args: RawArgs)
    requires
        args.first_error() is None,
    ensures
        ({
            let settings = args.settings();
            let big = 0xffff_ffff_ffff_ffffint;
            let size = usize::MAX as int;
            &&& settings.target_tps == match args.rate {
                Some(text) => parsed_number(text@, big)->0,
                None => 100,
            }
            &&& settings.tx_count is Some <==> args.tx_count is Some
            &&& args.tx_count is Some ==> settings.tx_count->0 == parsed_number(
                args.tx_count->0@,
                big,
            )->0
            &&& settings.duration_secs is Some <==> args.tx_count is None
            &&& args.tx_count is None ==> settings.duration_secs->0 == match args.duration {
                Some(text) => parsed_number(text@, big)->0,
                None => 60,
            }
            &&& settings.use_tpu_client != args.use_rpc_client
            &&& settings.use_quic != args.tpu_disable_quic
            &&& settings.compute_unit_price is Some <==> args.compute_unit_price is Some
            &&& args.compute_unit_price is Some ==> settings.compute_unit_price->0 == parsed_number(
                args.compute_unit_price->0@,
                big,
            )->0
            &&& settings.num_keypairs == match args.num_keypairs {
                Some(text) => parsed_number(text@, size)->0,
                None => 100,
            }
            &&& settings.confirmation_timeout_secs == match args.confirmation_timeout {
                Some(text) => parsed_number(text@, big)->0,
                None => 60,
            }
            &&& settings.tpu_connection_pool_size == match args.tpu_connection_pool_size {
                Some(text) => parsed_number(text@, size)->0,
                None => 4,
            }
            &&& settings.num_lamports_per_account == match args.num_lamports_per_account {
                Some(text) => parsed_number(text@, big)->0,
                None => 1_000_000_000,
            }
            &&& settings.num_threads == match args.threads {
                Some(text) => parsed_number(text@, size)->0,
                None => 1,
            }
            &&& settings.warmup_secs == match args.warmup {
                Some(text) => parsed_number(text@, big)->0,
                None => 0,
            }
        }),
{
    assert forall|text: Seq<char>, max: int|
        (#[trigger] parsed_number(text, max)) is Some implies parsed_number(text, max)->0 >= 0 by {
        lemma_numbers_are_not_negative(text, max);
    }
}

/// The commitment level is the one that is named, and the middle one without a name.
pub proof fn law_the_commitment_is_the_one_named(args: RawArgs)
    requires
        args.first_error() is None,
    ensures
        ({
            let level = args.settings().commitment;
            let name = args.commitment_config;
            &&& name is None ==> level is Confirmed
            &&& name is Some && name->0@ == "processed"@ ==> level is Processed
            &&& name is Some && name->0@ == "confirmed"@ ==> level is Confirmed
            &&& name is Some && name->0@ == "finalized"@ ==> level is Finalized
        }),
{
    reveal_strlit("processed");
    reveal_strlit("confirmed");
    reveal_strlit("finalized");
    assert("processed"@[0] == 'p');
    assert("confirmed"@[0] == 'c');
    assert("finalized"@[0] == 'f');
}

/// The settings without any argument.
pub proof fn law_the_default_settings()
    ensures
        ({
            let settings = default_settings();
            &&& settings.target_tps == 100
            &&& settings.duration_secs == Some(60u64)
            &&& settings.tx_count is None
            &&& settings.use_tpu_client
            &&& settings.use_quic
            &&& settings.compute_unit_price is None
            &&& settings.commitment is Confirmed
            &&& settings.num_keypairs == 100
            &&& settings.confirmation_timeout_secs == 60
            &&& settings.tpu_connection_pool_size == 4
            &&& settings.num_lamports_per_account == 1_000_000_000
            &&& settings.num_threads == 1
            &&& settings.warmup_secs == 0
        }),
{
}

/// Transactions go through the RPC node exactly if the leaders are not to be reached
/// directly, over UDP exactly if they are but QUIC is not to be used, and a staked
/// identity is used exactly if there is one and QUIC is used.
pub proof fn law_how_transactions_are_submitted(settings: Settings, has_client_node_id: bool)
    ensures
        ({
            let kind = settings.kind_of(has_client_node_id);
            let quic = settings.use_tpu_client && settings.use_quic;
            &&& kind is Rpc <==> !settings.use_tpu_client
            &&& kind is TpuUdp <==> settings.use_tpu_client && !settings.use_quic
            &&& kind is TpuQuic <==> quic && !has_client_node_id
            &&& kind is TpuQuicStaked <==> quic && has_client_node_id
        }),
{
}

} // verus!
