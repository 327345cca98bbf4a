//! The overrides for EVM execution settings that a command line supplies,
//! and the overlay they form on top of a base configuration.

use crate::dict::{
    dict_entries, dict_insert, empty_dict, flag_value, no_entries, number_value, string_of,
    text_value, Dict, Setting,
};
use crate::hex::{fixed_hex, fixed_text, quantity_hex, quantity_text};
use vstd::prelude::*;

verus! {

/// The overrides of the executor environment. A field that is `None` leaves
/// the base configuration's value in place.
#[derive(Debug, Clone)]
pub struct EnvArgs {
    /// The block gas limit.
    pub gas_limit: Option<u64>,
    /// The contract code size limit in bytes.
    pub code_size_limit: Option<usize>,
    /// The chain id.
    pub chain_id: Option<u64>,
    /// The gas price.
    pub gas_price: Option<u64>,
    /// The base fee in a block.
    pub block_base_fee_per_gas: Option<u64>,
    /// The transaction origin.
    pub tx_origin: Option<[u8; 20]>,
    /// The coinbase of the block.
    pub block_coinbase: Option<[u8; 20]>,
    /// The timestamp of the block.
    pub block_timestamp: Option<u64>,
    /// The block number.
    pub block_number: Option<u64>,
    /// The block difficulty.
    pub block_difficulty: Option<u64>,
    /// The block prevrandao value.
    pub block_prevrandao: Option<[u8; 32]>,
    /// The block gas limit.
    pub block_gas_limit: Option<u64>,
    /// The memory limit of the EVM in bytes.
    pub memory_limit: Option<u64>,
}

/// The overrides of the EVM settings. Nothing here has a default of its own:
/// what is unset is left to the base configuration.
#[derive(Debug, Clone)]
pub struct EvmArgs {
    /// The remote endpoint to fetch state from.
    pub fork_url: Option<String>,
    /// The block number to fetch state from.
    pub fork_block_number: Option<u64>,
    /// The initial retry backoff on errors.
    pub fork_retry_backoff: Option<u64>,
    /// Whether caching of remote state is switched off.
    pub no_storage_caching: bool,
    /// The initial balance of deployed test contracts, as a big-endian number.
    pub initial_balance: Option<[u8; 32]>,
    /// The address which executes tests.
    pub sender: Option<[u8; 20]>,
    /// Whether the FFI cheatcode is enabled.
    pub ffi: bool,
    /// How often the verbosity flag was given.
    pub verbosity: u8,
    /// The overrides of the executor environment.
    pub env: EnvArgs,
    /// The number of assumed available compute units per second.
    pub compute_units_per_second: Option<u64>,
    /// Whether rate limiting is switched off.
    pub no_rpc_rate_limit: bool,
}

/// Why a request on the overrides failed.
#[derive(Debug, Clone, Copy, PartialEq, Eq, Structural)]
pub enum ArgsError {
    /// No fork URL was given.
    MissingForkUrl,
}

impl ArgsError {
    /// The message for the user, which names the missing flag.
    pub fn message(&self) -> (text: &'static str)
        ensures
            text@ == "Missing `--fork-url` field."@,
    {
        "Missing `--fork-url` field."
    }
}

/// The setting of an optional number, if it is set.
pub open spec fn number(value: Option<u64>) -> Option<Setting> {
    match value {
        Some(n) => Some(Setting::Number(n as nat)),
        None => None,
    }
}

/// The setting of an optional size, if it is set.
pub open spec fn size(value: Option<usize>) -> Option<Setting> {
    match value {
        Some(n) => Some(Setting::Number(n as nat)),
        None => None,
    }
}

/// The setting of a switch: present only when the switch is on.
pub open spec fn raised(flag: bool) -> Option<Setting> {
    if flag {
        Some(Setting::Flag(true))
    } else {
        None
    }
}

/// The setting of a counter: present only above zero.
pub open spec fn counted(count: u8) -> Option<Setting> {
    if count > 0 {
        Some(Setting::Number(count as nat))
    } else {
        None
    }
}

/// The setting of an optional text, if it is set.
pub open spec fn text(value: Option<String>) -> Option<Setting> {
    match value {
        Some(s) => Some(Setting::Text(s@)),
        None => None,
    }
}

/// The setting of an optional address or hash, if it is set: its fixed-width
/// hexadecimal text.
pub open spec fn fixed<const N: usize>(value: Option<[u8; N]>) -> Option<Setting> {
    match value {
        Some(bytes) => Some(Setting::Text(fixed_text(bytes@))),
        None => None,
    }
}

/// The setting of an optional quantity, if it is set: its shortest
/// hexadecimal text.
pub open spec fn quantity(value: Option<[u8; 32]>) -> Option<Setting> {
    match value {
        Some(bytes) => Some(Setting::Text(quantity_text(bytes@))),
        None => None,
    }
}

/// Whether `after` is `before` with `setting` written under `key`: the key
/// holds the setting where there is one, and nothing else has changed.
pub open spec fn written(
    before: Map<Seq<char>, Setting>,
    after: Map<Seq<char>, Setting>,
    key: Seq<char>,
    setting: Option<Setting>,
) -> bool {
    &&& forall|other: Seq<char>|
        other != key ==> #[trigger] after.contains_key(other) == before.contains_key(other)
    &&& forall|other: Seq<char>| other != key ==> #[trigger] after[other] == before[other]
    &&& after.contains_key(key) == (before.contains_key(key) || setting is Some)
    &&& setting is Some ==> after[key] == setting.unwrap()
    &&& setting is None ==> after[key] == before[key]
}

/// The result of laying `overlay` over `base`: the overlay's entry wins
/// wherever it has one, and the base's entry stays everywhere else.
pub open spec fn merged(
    base: Map<Seq<char>, Setting>,
    overlay: Map<Seq<char>, Setting>,
) -> Map<Seq<char>, Setting> {
    base.union_prefer_right(overlay)
}

/// Writes an optional number under `key`.
fn put_number(dict: &mut Dict, key: &str, value: Option<u64>)
    ensures
        written(dict_entries(*old(dict)), dict_entries(*final(dict)), key@, number(value)),
{
    if let Some(n) = value {
        dict_insert(dict, key, number_value(n));
    }
}

/// Writes a switch under `key`, if it is on.
fn put_raised(dict: &mut Dict, key: &str, flag: bool)
    ensures
        written(dict_entries(*old(dict)), dict_entries(*final(dict)), key@, raised(flag)),
{
    if flag {
        dict_insert(dict, key, flag_value(flag));
    }
}

/// Writes an optional address or hash under `key`, as fixed-width text.
fn put_fixed<const N: usize>(dict: &mut Dict, key: &str, value: &Option<[u8; N]>)
    requires
        N <= 32,
    ensures
        written(dict_entries(*old(dict)), dict_entries(*final(dict)), key@, fixed(*value)),
{
    if let Some(bytes) = value {
        let chars = fixed_hex(bytes.as_slice());
        let shown = string_of(&chars);
        dict_insert(dict, key, text_value(shown.as_str()));
    }
}

/// Writes an optional size under `key`.
fn put_size(dict: &mut Dict, key: &str, value: Option<usize>)
    ensures
        written(dict_entries(*old(dict)), dict_entries(*final(dict)), key@, size(value)),
{
    if let Some(n) = value {
        dict_insert(dict, key, number_value(n as u64));
    }
}

/// Writes a counter under `key`, if it is above zero.
fn put_counted(dict: &mut Dict, key: &str, count: u8)
    ensures
        written(dict_entries(*old(dict)), dict_entries(*final(dict)), key@, counted(count)),
{
    if count > 0 {
        dict_insert(dict, key, number_value(count as u64));
    }
}

/// Writes an optional text under `key`.
fn put_text(dict: &mut Dict, key: &str, value: &Option<String>)
    ensures
        written(dict_entries(*old(dict)), dict_entries(*final(dict)), key@, text(*value)),
{
    if let Some(s) = value {
        dict_insert(dict, key, text_value(s.as_str()));
    }
}

/// Writes an optional quantity under `key`, as its shortest text.
fn put_quantity(dict: &mut Dict, key: &str, value: &Option<[u8; 32]>)
    ensures
        written(dict_entries(*old(dict)), dict_entries(*final(dict)), key@, quantity(*value)),
{
    if let Some(bytes) = value {
        let chars = quantity_hex(bytes.as_slice());
        let shown = string_of(&chars);
        dict_insert(dict, key, text_value(shown.as_str()));
    }
}

/// The length of every key, and the characters that tell keys of one length
/// apart: no two keys are the same text.
proof fn keys_differ()
    ensures
        "gas_limit"@.len() == 9,
        "gas_limit"@[0] == 'g',
        "gas_limit"@[4] == 'l',
        "code_size_limit"@.len() == 15,
        "code_size_limit"@[0] == 'c',
        "chain_id"@.len() == 8,
        "chain_id"@[0] == 'c',
        "gas_price"@.len() == 9,
        "gas_price"@[0] == 'g',
        "gas_price"@[4] == 'p',
        "block_base_fee_per_gas"@.len() == 22,
        "block_base_fee_per_gas"@[0] == 'b',
        "tx_origin"@.len() == 9,
        "tx_origin"@[0] == 't',
        "block_coinbase"@.len() == 14,
        "block_coinbase"@[0] == 'b',
        "block_timestamp"@.len() == 15,
        "block_timestamp"@[0] == 'b',
        "block_timestamp"@[6] == 't',
        "block_number"@.len() == 12,
        "block_number"@[0] == 'b',
        "block_difficulty"@.len() == 16,
        "block_difficulty"@[0] == 'b',
        "block_difficulty"@[6] == 'd',
        "block_prevrandao"@.len() == 16,
        "block_prevrandao"@[0] == 'b',
        "block_prevrandao"@[6] == 'p',
        "block_gas_limit"@.len() == 15,
        "block_gas_limit"@[0] == 'b',
        "block_gas_limit"@[6] == 'g',
        "memory_limit"@.len() == 12,
        "memory_limit"@[0] == 'm',
        "eth_rpc_url"@.len() == 11,
        "eth_rpc_url"@[0] == 'e',
        "fork_block_number"@.len() == 17,
        "fork_block_number"@[0] == 'f',
        "fork_retry_backoff"@.len() == 18,
        "fork_retry_backoff"@[0] == 'f',
        "no_storage_caching"@.len() == 18,
        "no_storage_caching"@[0] == 'n',
        "initial_balance"@.len() == 15,
        "initial_balance"@[0] == 'i',
        "sender"@.len() == 6,
        "sender"@[0] == 's',
        "ffi"@.len() == 3,
        "ffi"@[0] == 'f',
        "verbosity"@.len() == 9,
        "verbosity"@[0] == 'v',
        "compute_units_per_second"@.len() == 24,
        "compute_units_per_second"@[0] == 'c',
        "no_rpc_rate_limit"@.len() == 17,
        "no_rpc_rate_limit"@[0] == 'n',
{
    reveal_strlit("gas_limit");
    reveal_strlit("code_size_limit");
    reveal_strlit("chain_id");
    reveal_strlit("gas_price");
    reveal_strlit("block_base_fee_per_gas");
    reveal_strlit("tx_origin");
    reveal_strlit("block_coinbase");
    reveal_strlit("block_timestamp");
    reveal_strlit("block_number");
    reveal_strlit("block_difficulty");
    reveal_strlit("block_prevrandao");
    reveal_strlit("block_gas_limit");
    reveal_strlit("memory_limit");
    reveal_strlit("eth_rpc_url");
    reveal_strlit("fork_block_number");
    reveal_strlit("fork_retry_backoff");
    reveal_strlit("no_storage_caching");
    reveal_strlit("initial_balance");
    reveal_strlit("sender");
    reveal_strlit("ffi");
    reveal_strlit("verbosity");
    reveal_strlit("compute_units_per_second");
    reveal_strlit("no_rpc_rate_limit");
}

impl EnvArgs {
    /// What these overrides set of the block's context under `key`, if
    /// anything.
    pub open spec fn block_setting(&self, key: Seq<char>) -> Option<Setting> {
        if key == "block_base_fee_per_gas"@ {
            number(self.block_base_fee_per_gas)
        } else if key == "block_coinbase"@ {
            fixed(self.block_coinbase)
        } else if key == "block_timestamp"@ {
            number(self.block_timestamp)
        } else if key == "block_number"@ {
            number(self.block_number)
        } else if key == "block_difficulty"@ {
            number(self.block_difficulty)
        } else if key == "block_prevrandao"@ {
            fixed(self.block_prevrandao)
        } else if key == "block_gas_limit"@ {
            number(self.block_gas_limit)
        } else {
            None
        }
    }

    /// What these overrides set under `key`, if anything.
    pub open spec fn setting(&self, key: Seq<char>) -> Option<Setting> {
        if key == "gas_limit"@ {
            number(self.gas_limit)
        } else if key == "code_size_limit"@ {
            size(self.code_size_limit)
        } else if key == "chain_id"@ {
            number(self.chain_id)
        } else if key == "gas_price"@ {
            number(self.gas_price)
        } else if key == "tx_origin"@ {
            fixed(self.tx_origin)
        } else if key == "memory_limit"@ {
            number(self.memory_limit)
        } else {
            self.block_setting(key)
        }
    }

    /// The overlay of the block's context: one entry for every field of it
    /// that is set.
    pub open spec fn block_overlay(&self) -> Map<Seq<char>, Setting> {
        Map::new(
            |key: Seq<char>| self.block_setting(key) is Some,
            |key: Seq<char>| self.block_setting(key).unwrap(),
        )
    }

    /// The overlay of these overrides: one entry for every field that is set.
    pub open spec fn overlay(&self) -> Map<Seq<char>, Setting> {
        Map::new(|key: Seq<char>| self.setting(key) is Some, |key: Seq<char>| self.setting(key).unwrap())
    }

    /// Overrides with nothing set.
    pub fn new() -> (args: EnvArgs)
        ensures
            args.overlay() == no_entries(),
            forall|key: Seq<char>| args.setting(key) is None,
    {
        let args = EnvArgs {
            gas_limit: None,
            code_size_limit: None,
            chain_id: None,
            gas_price: None,
            block_base_fee_per_gas: None,
            tx_origin: None,
            block_coinbase: None,
            block_timestamp: None,
            block_number: None,
            block_difficulty: None,
            block_prevrandao: None,
            block_gas_limit: None,
            memory_limit: None,
        };
        assert(args.overlay() =~= no_entries());
        args
    }

    /// Writes the overrides of the block's context over the entries of `dict`.
    fn fill_block(&self, dict: &mut Dict)
        ensures
            dict_entries(*final(dict)) == merged(dict_entries(*old(dict)), self.block_overlay()),
    {
        put_number(dict, "block_base_fee_per_gas", self.block_base_fee_per_gas);
        put_fixed(dict, "block_coinbase", &self.block_coinbase);
        put_number(dict, "block_timestamp", self.block_timestamp);
        put_number(dict, "block_number", self.block_number);
        put_number(dict, "block_difficulty", self.block_difficulty);
        put_fixed(dict, "block_prevrandao", &self.block_prevrandao);
        put_number(dict, "block_gas_limit", self.block_gas_limit);
        proof {
            keys_differ();
            assert(dict_entries(*dict) =~= merged(dict_entries(*old(dict)), self.block_overlay()));
        }
    }

    /// Writes these overrides over the entries of `dict`.
    pub fn fill(&self, dict: &mut Dict)
        ensures
            dict_entries(*final(dict)) == merged(dict_entries(*old(dict)), self.overlay()),
    {
        self.fill_block(dict);
        put_number(dict, "gas_limit", self.gas_limit);
        put_size(dict, "code_size_limit", self.code_size_limit);
        put_number(dict, "chain_id", self.chain_id);
        put_number(dict, "gas_price", self.gas_price);
        put_fixed(dict, "tx_origin", &self.tx_origin);
        put_number(dict, "memory_limit", self.memory_limit);
        proof {
            keys_differ();
            assert(dict_entries(*dict) =~= merged(dict_entries(*old(dict)), self.overlay()));
        }
    }
}

impl EvmArgs {
    /// What these overrides set under `key`, if anything. The fork URL goes
    /// under the key of the endpoint; a switch or the verbosity counter has an
    /// entry only when it is on or above zero.
    pub open spec fn setting(&self, key: Seq<char>) -> Option<Setting> {
        if key == "eth_rpc_url"@ {
            text(self.fork_url)
        } else if key == "fork_block_number"@ {
            number(self.fork_block_number)
        } else if key == "fork_retry_backoff"@ {
            number(self.fork_retry_backoff)
        } else if key == "no_storage_caching"@ {
            raised(self.no_storage_caching)
        } else if key == "initial_balance"@ {
            quantity(self.initial_balance)
        } else if key == "sender"@ {
            fixed(self.sender)
        } else if key == "ffi"@ {
            raised(self.ffi)
        } else if key == "verbosity"@ {
            counted(self.verbosity)
        } else if key == "compute_units_per_second"@ {
            number(self.compute_units_per_second)
        } else if key == "no_rpc_rate_limit"@ {
            raised(self.no_rpc_rate_limit)
        } else {
            self.env.setting(key)
        }
    }

    /// The overlay of these overrides: one entry for every key that they set.
    pub open spec fn overlay(&self) -> Map<Seq<char>, Setting> {
        Map::new(|key: Seq<char>| self.setting(key) is Some, |key: Seq<char>| self.setting(key).unwrap())
    }

    /// Overrides with nothing set.
    pub fn new() -> (args: EvmArgs)
        ensures
            args.overlay() == no_entries(),
            forall|key: Seq<char>| args.setting(key) is None,
    {
        let args = EvmArgs {
            fork_url: None,
            fork_block_number: None,
            fork_retry_backoff: None,
            no_storage_caching: false,
            initial_balance: None,
            sender: None,
            ffi: false,
            verbosity: 0,
            env: EnvArgs::new(),
            compute_units_per_second: None,
            no_rpc_rate_limit: false,
        };
        assert(args.overlay() =~= no_entries());
        args
    }

    /// The name under which these overrides appear as a source of
    /// configuration.
    pub fn metadata(&self) -> (name: &'static str)
        ensures
            name@ == "Evm Opts Provider"@,
    {
        "Evm Opts Provider"
    }

    /// The fork URL, or the error that says it is missing.
    pub fn ensure_fork_url(&self) -> (found: Result<&String, ArgsError>)
        ensures
            match self.fork_url {
                Some(url) => found is Ok && *found->Ok_0 == url,
                None => found == Err::<&String, ArgsError>(ArgsError::MissingForkUrl),
            },
    {
        match &self.fork_url {
            Some(url) => Ok(url),
            None => Err(ArgsError::MissingForkUrl),
        }
    }

    /// The dictionary to lay over a base configuration: exactly the entries
    /// of the overlay.
    pub fn data(&self) -> (dict: Dict)
        ensures
            dict_entries(dict) == self.overlay(),
    {
        let mut dict = empty_dict();
        self.env.fill(&mut dict);
        put_number(&mut dict, "fork_block_number", self.fork_block_number);
        put_number(&mut dict, "fork_retry_backoff", self.fork_retry_backoff);
        put_quantity(&mut dict, "initial_balance", &self.initial_balance);
        put_fixed(&mut dict, "sender", &self.sender);
        put_number(&mut dict, "compute_units_per_second", self.compute_units_per_second);
        put_counted(&mut dict, "verbosity", self.verbosity);
        put_raised(&mut dict, "ffi", self.ffi);
        put_raised(&mut dict, "no_storage_caching", self.no_storage_caching);
        put_raised(&mut dict, "no_rpc_rate_limit", self.no_rpc_rate_limit);
        put_text(&mut dict, "eth_rpc_url", &self.fork_url);
        proof {
            keys_differ();
            assert(dict_entries(dict) =~= self.overlay());
        }
        dict
    }
}

impl Default for EnvArgs {
    /// Overrides with nothing set.
    fn default() -> (args: EnvArgs)
        ensures
            args.overlay() == no_entries(),
    {
        EnvArgs::new()
    }
}

impl Default for EvmArgs {
    /// Overrides with nothing set.
    fn default() -> (args: EvmArgs)
        ensures
            args.overlay() == no_entries(),
    {
        EvmArgs::new()
    }
}

/// An override of the chain id wins: whatever the base configuration holds,
/// the merged configuration has the overlay's chain id.
pub proof fn chain_id_overrides_base(args: EvmArgs, base: Map<Seq<char>, Setting>, id: u64)
    requires
        args.env.chain_id == Some(id),
    ensures
        merged(base, args.overlay()).contains_key("chain_id"@),
        merged(base, args.overlay())["chain_id"@] == Setting::Number(id as nat),
{
    keys_differ();
}

/// A key that the overrides do not set is left to the base configuration:
/// the merged configuration has the base's entry there, or none.
pub proof fn unset_key_keeps_base(args: EvmArgs, base: Map<Seq<char>, Setting>, key: Seq<char>)
    requires
        args.setting(key) is None,
    ensures
        merged(base, args.overlay()).contains_key(key) == base.contains_key(key),
        base.contains_key(key) ==> merged(base, args.overlay())[key] == base[key],
{
}

/// With the memory limit unset, the merged configuration keeps the base's
/// memory limit.
pub proof fn unset_memory_limit_keeps_base(args: EvmArgs, base: Map<Seq<char>, Setting>)
    requires
        args.env.memory_limit is None,
    ensures
        !args.overlay().contains_key("memory_limit"@),
        merged(base, args.overlay()).contains_key("memory_limit"@) == base.contains_key(
            "memory_limit"@,
        ),
        base.contains_key("memory_limit"@) ==> merged(base, args.overlay())["memory_limit"@]
            == base["memory_limit"@],
{
    keys_differ();
}

/// The overlay has a verbosity entry exactly when the counter is above zero,
/// and the entry is the counter.
pub proof fn verbosity_entry(args: EvmArgs)
    ensures
        args.overlay().contains_key("verbosity"@) == (args.verbosity > 0),
        args.verbosity > 0 ==> args.overlay()["verbosity"@] == Setting::Number(
            args.verbosity as nat,
        ),
{
    keys_differ();
}

/// The overlay has an FFI entry exactly when the switch is on, and the entry
/// is `true`.
pub proof fn ffi_entry(args: EvmArgs)
    ensures
        args.overlay().contains_key("ffi"@) == args.ffi,
        args.ffi ==> args.overlay()["ffi"@] == Setting::Flag(true),
{
    keys_differ();
}

/// The two switches of the fork have an entry exactly when they are on, and
/// the fork URL has one, under the endpoint's key, exactly when it is set.
pub proof fn fork_entries(args: EvmArgs)
    ensures
        args.overlay().contains_key("no_storage_caching"@) == args.no_storage_caching,
        args.overlay().contains_key("no_rpc_rate_limit"@) == args.no_rpc_rate_limit,
        args.overlay().contains_key("eth_rpc_url"@) == (args.fork_url is Some),
        args.fork_url is Some ==> args.overlay()["eth_rpc_url"@] == Setting::Text(
            args.fork_url.unwrap()@,
        ),
{
    keys_differ();
}

} // verus!
