//! Client configuration, read from `KEY=VALUE` property text.
//!
//! The format is line oriented. Blank lines and lines that start with `#` are
//! skipped, a line without `=` is ignored, and of two lines with the same key
//! the later one wins. Keys and values are trimmed. A key that is absent
//! leaves the field at its default.

use crate::number::{parse_unsigned, read_unsigned, decimal, push_decimal};
use crate::text::{
    eq_ignore_ascii_case, find, optional_text, position, rows, same_ignoring_ascii_case, slice,
    split, split_on, texts, to_chars, to_text, trim, trimmed,
};
use vstd::hash_map::StringHashMap;
use vstd::prelude::*;
use vstd::string::StringExecFns;

verus! {

/// `std::io::Error`, carried through as it is.
#[verifier::external_type_specification]
#[verifier::external_body]
pub struct ExIoError(std::io::Error);

/// What went wrong while configuration was loaded.
#[derive(Debug)]
pub enum ConfigError {
    /// The file could not be read.
    IoError(std::io::Error),
    /// The value of property `key` is not of the form that the field needs.
    ParseError { key: String, reason: String },
}

/// The key and the reason of a property that could not be parsed.
pub struct Complaint {
    pub key: Seq<char>,
    pub reason: Seq<char>,
}

/// The text that `std::io::Error` shows for itself, through its `Display`
/// impl. Nothing is claimed of it.
#[verifier::external_body]
fn io_error_text(e: &std::io::Error) -> (out: String) {
    format!("{}", e)
}

impl ConfigError {
    /// The complaint that a parse error carries.
    pub open spec fn complaint(self) -> Option<Complaint> {
        match self {
            ConfigError::ParseError { key, reason } => Some(
                Complaint { key: key@, reason: reason@ },
            ),
            ConfigError::IoError(_) => None,
        }
    }

    /// The error as one line of text.
    pub fn message(&self) -> (out: String)
        ensures
            self.complaint() matches Some(c) ==> out@ == "Failed to parse property '"@ + c.key
                + "': "@ + c.reason,
            self.complaint() is None ==> "Failed to read config file: "@.is_prefix_of(out@),
    {
        match self {
            ConfigError::IoError(e) => {
                let mut out = String::from_str("Failed to read config file: ");
                let detail = io_error_text(e);
                out.append(detail.as_str());
                out
            },
            ConfigError::ParseError { key, reason } => {
                let mut out = String::from_str("Failed to parse property '");
                out.append(key.as_str());
                out.append("': ");
                out.append(reason.as_str());
                out
            },
        }
    }
}

/// The settings of one benchmark client.
#[derive(Debug, Clone, PartialEq)]
pub struct Config {
    pub coin_pairs: Vec<String>,
    pub host: String,
    pub websocket_port: u16,
    pub api_token: u32,
    pub test_size: usize,
    pub exchange_client_count: usize,
    pub warmup_count: usize,
    pub use_ssl: bool,
    pub key_store_path: Option<String>,
    pub key_store_password: Option<String>,
    pub ciphers: Vec<String>,
    pub ping_interval: u64,
    pub histogram_significant_figures: u8,
    pub payload_sizes: Vec<usize>,
}

/// A configuration as mathematical data.
pub struct ConfigView {
    pub coin_pairs: Seq<Seq<char>>,
    pub host: Seq<char>,
    pub websocket_port: u16,
    pub api_token: u32,
    pub test_size: usize,
    pub exchange_client_count: usize,
    pub warmup_count: usize,
    pub use_ssl: bool,
    pub key_store_path: Option<Seq<char>>,
    pub key_store_password: Option<Seq<char>>,
    pub ciphers: Seq<Seq<char>>,
    pub ping_interval: u64,
    pub histogram_significant_figures: u8,
    pub payload_sizes: Seq<usize>,
}

impl View for Config {
    type V = ConfigView;

    open spec fn view(&self) -> ConfigView {
        ConfigView {
            coin_pairs: texts(self.coin_pairs@),
            host: self.host@,
            websocket_port: self.websocket_port,
            api_token: self.api_token,
            test_size: self.test_size,
            exchange_client_count: self.exchange_client_count,
            warmup_count: self.warmup_count,
            use_ssl: self.use_ssl,
            key_store_path: optional_text(self.key_store_path),
            key_store_password: optional_text(self.key_store_password),
            ciphers: texts(self.ciphers@),
            ping_interval: self.ping_interval,
            histogram_significant_figures: self.histogram_significant_figures,
            payload_sizes: self.payload_sizes@,
        }
    }
}

// ---------------------------------------------------------------------------
// The format, as spec functions
// ---------------------------------------------------------------------------

/// Properties as a map from key to value.
pub type Properties = Map<Seq<char>, Seq<char>>;

/// The key and value that one line defines, if it defines any.
pub open spec fn line_entry(line: Seq<char>) -> Option<(Seq<char>, Seq<char>)> {
    let t = trim(line);
    let i = position(t, '=');
    if t.len() == 0 || t[0] == '#' || i >= t.len() {
        None
    } else {
        Some((trim(t.take(i)), trim(t.skip(i + 1))))
    }
}

/// The properties that a run of lines defines: a later line overrides an
/// earlier one with the same key.
pub open spec fn properties_of_lines(lines: Seq<Seq<char>>) -> Properties
    decreases lines.len(),
{
    if lines.len() == 0 {
        Map::empty()
    } else {
        let before = properties_of_lines(lines.drop_last());
        match line_entry(lines.last()) {
            Some((key, value)) => before.insert(key, value),
            None => before,
        }
    }
}

/// The properties that a property text defines.
pub open spec fn properties(content: Seq<char>) -> Properties {
    properties_of_lines(split(content, '\n'))
}

/// The default configuration.
pub open spec fn default_config() -> ConfigView {
    ConfigView {
        coin_pairs: seq!["BTC_USDT"@, "BTC_CHF"@, "BTC_EUR"@, "BTC_USDC"@],
        host: "localhost"@,
        websocket_port: 8888,
        api_token: 3001,
        test_size: 10,
        exchange_client_count: 1,
        warmup_count: 1,
        use_ssl: false,
        key_store_path: None,
        key_store_password: None,
        ciphers: seq![
            "ECDHE-RSA-AES128-GCM-SHA256"@,
            "ECDHE-RSA-AES256-GCM-SHA384"@,
            "TLS_AES_128_GCM_SHA256"@,
            "TLS_AES_256_GCM_SHA384"@,
        ],
        ping_interval: 5000,
        histogram_significant_figures: 5,
        payload_sizes: seq![0usize, 64usize, 256usize, 512usize, 1024usize, 1400usize, 2048usize],
    }
}

/// A comma-separated list: its items, each trimmed.
pub open spec fn list_items(value: Seq<char>) -> Seq<Seq<char>> {
    let pieces = split(value, ',');
    Seq::new(pieces.len(), |i: int| trim(pieces[i]))
}

pub open spec fn text_field(p: Properties, key: Seq<char>, default: Seq<char>) -> Seq<char> {
    if p.contains_key(key) {
        p[key]
    } else {
        default
    }
}

pub open spec fn optional_field(p: Properties, key: Seq<char>, default: Option<Seq<char>>) -> Option<
    Seq<char>,
> {
    if p.contains_key(key) {
        Some(p[key])
    } else {
        default
    }
}

pub open spec fn list_field(p: Properties, key: Seq<char>, default: Seq<Seq<char>>) -> Seq<
    Seq<char>,
> {
    if p.contains_key(key) {
        list_items(p[key])
    } else {
        default
    }
}

/// A flag is set by the word `true`, in any mix of capital and small
/// letters; any other value clears it.
pub open spec fn flag_field(p: Properties, key: Seq<char>, default: bool) -> bool {
    if p.contains_key(key) {
        eq_ignore_ascii_case(p[key], "true"@)
    } else {
        default
    }
}

/// A number of at most `max`. A value that is not such a number is
/// answered with a complaint whose reason is `blame` followed by the value.
pub open spec fn number_field(
    p: Properties,
    key: Seq<char>,
    blame: Seq<char>,
    max: nat,
    default: nat,
) -> Result<nat, Complaint> {
    if p.contains_key(key) {
        match parse_unsigned(p[key], max) {
            Some(n) => Ok(n),
            None => Err(Complaint { key, reason: blame + p[key] }),
        }
    } else {
        Ok(default)
    }
}

/// The numbers that the items denote, or the first item, from the left, that
/// is not a number of at most `usize::MAX`.
pub open spec fn sizes_of_items(items: Seq<Seq<char>>) -> Result<Seq<usize>, Seq<char>>
    decreases items.len(),
{
    if items.len() == 0 {
        Ok(Seq::empty())
    } else {
        match sizes_of_items(items.drop_last()) {
            Err(bad) => Err(bad),
            Ok(sizes) => match parse_unsigned(items.last(), usize::MAX as nat) {
                Some(n) => Ok(sizes.push(n as usize)),
                None => Err(items.last()),
            },
        }
    }
}

pub open spec fn sizes_field(p: Properties, key: Seq<char>, blame: Seq<char>, default: Seq<usize>) -> Result<
    Seq<usize>,
    Complaint,
> {
    if p.contains_key(key) {
        match sizes_of_items(list_items(p[key])) {
            Ok(sizes) => Ok(sizes),
            Err(bad) => Err(Complaint { key, reason: blame + bad }),
        }
    } else {
        Ok(default)
    }
}

pub open spec fn port_field(p: Properties) -> Result<nat, Complaint> {
    number_field(p, "WEBSOCKET_PORT"@, "invalid u16: "@, u16::MAX as nat, 8888)
}

pub open spec fn token_field(p: Properties) -> Result<nat, Complaint> {
    number_field(p, "API_TOKEN"@, "invalid u32: "@, u32::MAX as nat, 3001)
}

pub open spec fn test_size_field(p: Properties) -> Result<nat, Complaint> {
    number_field(p, "TEST_SIZE"@, "invalid usize: "@, usize::MAX as nat, 10)
}

pub open spec fn client_count_field(p: Properties) -> Result<nat, Complaint> {
    number_field(p, "EXCHANGE_CLIENT_COUNT"@, "invalid usize: "@, usize::MAX as nat, 1)
}

pub open spec fn warmup_field(p: Properties) -> Result<nat, Complaint> {
    number_field(p, "WARMUP_COUNT"@, "invalid usize: "@, usize::MAX as nat, 1)
}

pub open spec fn ping_field(p: Properties) -> Result<nat, Complaint> {
    number_field(p, "PING_INTERVAL"@, "invalid u64: "@, u64::MAX as nat, 5000)
}

pub open spec fn figures_field(p: Properties) -> Result<nat, Complaint> {
    number_field(p, "HISTOGRAM_SIGNIFICANT_FIGURES"@, "invalid u8: "@, u8::MAX as nat, 5)
}

pub open spec fn payload_field(p: Properties) -> Result<Seq<usize>, Complaint> {
    sizes_field(
        p,
        "PAYLOAD_SIZES"@,
        "invalid usize in list: "@,
        default_config().payload_sizes,
    )
}

/// The complaint about the first property, in the order of the fields, whose
/// value cannot be parsed.
pub open spec fn first_complaint(p: Properties) -> Option<Complaint> {
    if port_field(p) is Err {
        Some(port_field(p)->Err_0)
    } else if token_field(p) is Err {
        Some(token_field(p)->Err_0)
    } else if test_size_field(p) is Err {
        Some(test_size_field(p)->Err_0)
    } else if client_count_field(p) is Err {
        Some(client_count_field(p)->Err_0)
    } else if warmup_field(p) is Err {
        Some(warmup_field(p)->Err_0)
    } else if ping_field(p) is Err {
        Some(ping_field(p)->Err_0)
    } else if figures_field(p) is Err {
        Some(figures_field(p)->Err_0)
    } else if payload_field(p) is Err {
        Some(payload_field(p)->Err_0)
    } else {
        None
    }
}

/// The configuration that the properties give where every value can be
/// parsed.
pub open spec fn config_of(p: Properties) -> ConfigView {
    let d = default_config();
    ConfigView {
        coin_pairs: list_field(p, "COINPAIRS"@, d.coin_pairs),
        host: text_field(p, "HOST"@, d.host),
        websocket_port: port_field(p)->Ok_0 as u16,
        api_token: token_field(p)->Ok_0 as u32,
        test_size: test_size_field(p)->Ok_0 as usize,
        exchange_client_count: client_count_field(p)->Ok_0 as usize,
        warmup_count: warmup_field(p)->Ok_0 as usize,
        use_ssl: flag_field(p, "USE_SSL"@, d.use_ssl),
        key_store_path: optional_field(p, "KEY_STORE_PATH"@, d.key_store_path),
        key_store_password: optional_field(p, "KEY_STORE_PASSWORD"@, d.key_store_password),
        ciphers: list_field(p, "CIPHERS"@, d.ciphers),
        ping_interval: ping_field(p)->Ok_0 as u64,
        histogram_significant_figures: figures_field(p)->Ok_0 as u8,
        payload_sizes: payload_field(p)->Ok_0,
    }
}

/// What parsing a property text gives: a configuration, or the complaint
/// about the first value that cannot be parsed.
pub open spec fn parse_config(content: Seq<char>) -> Result<ConfigView, Complaint> {
    let p = properties(content);
    match first_complaint(p) {
        Some(c) => Err(c),
        None => Ok(config_of(p)),
    }
}

/// The first of the candidate texts that is present and parses, as a
/// configuration; the default configuration if there is none.
pub open spec fn first_valid(candidates: Seq<Option<Seq<char>>>) -> ConfigView
    decreases candidates.len(),
{
    if candidates.len() == 0 {
        default_config()
    } else {
        match candidates[0] {
            Some(content) if parse_config(content) is Ok => parse_config(content)->Ok_0,
            _ => first_valid(candidates.drop_first()),
        }
    }
}

/// The address of the server's WebSocket endpoint.
pub open spec fn websocket_url_of(c: ConfigView) -> Seq<char> {
    (if c.use_ssl {
        "wss"@
    } else {
        "ws"@
    }) + "://"@ + c.host + ":"@ + decimal(c.websocket_port as nat)
}

/// A string as its `Debug` impl shows it: between double quotes, with
/// escapes.
pub uninterp spec fn debug_quoted(s: Seq<char>) -> Seq<char>;

/// The items, separated by a comma and a space.
pub open spec fn joined(items: Seq<Seq<char>>) -> Seq<char>
    decreases items.len(),
{
    if items.len() == 0 {
        Seq::empty()
    } else if items.len() == 1 {
        items[0]
    } else {
        joined(items.drop_last()) + ", "@ + items.last()
    }
}

/// A list as it is shown for debugging: between square brackets.
pub open spec fn shown_list(items: Seq<Seq<char>>) -> Seq<char> {
    "["@ + joined(items) + "]"@
}

pub open spec fn shown_texts(items: Seq<Seq<char>>) -> Seq<char> {
    shown_list(Seq::new(items.len(), |i: int| debug_quoted(items[i])))
}

pub open spec fn shown_sizes(items: Seq<usize>) -> Seq<char> {
    shown_list(Seq::new(items.len(), |i: int| decimal(items[i] as nat)))
}

pub open spec fn shown_optional(item: Option<Seq<char>>) -> Seq<char> {
    match item {
        Some(text) => "Some("@ + debug_quoted(text) + ")"@,
        None => "None"@,
    }
}

pub open spec fn shown_flag(flag: bool) -> Seq<char> {
    if flag {
        "true"@
    } else {
        "false"@
    }
}

/// The settings, one to a line, as they are logged. The key store's
/// password is left out.
pub open spec fn config_lines(c: ConfigView) -> Seq<Seq<char>> {
    seq![
        "Configuration:"@,
        "  coin_pairs: "@ + shown_texts(c.coin_pairs),
        "  host: "@ + c.host,
        "  websocket_port: "@ + decimal(c.websocket_port as nat),
        "  api_token: "@ + decimal(c.api_token as nat),
        "  test_size: "@ + decimal(c.test_size as nat),
        "  exchange_client_count: "@ + decimal(c.exchange_client_count as nat),
        "  warmup_count: "@ + decimal(c.warmup_count as nat),
        "  use_ssl: "@ + shown_flag(c.use_ssl),
        "  key_store_path: "@ + shown_optional(c.key_store_path),
        "  ciphers: "@ + shown_texts(c.ciphers),
        "  ping_interval: "@ + decimal(c.ping_interval as nat) + " ms"@,
        "  histogram_significant_figures: "@ + decimal(c.histogram_significant_figures as nat),
        "  payload_sizes: "@ + shown_sizes(c.payload_sizes),
    ]
}

/// The values of a property table, as text.
pub open spec fn table(m: Map<Seq<char>, String>) -> Properties {
    Map::new(|k: Seq<char>| m.contains_key(k), |k: Seq<char>| m[k]@)
}

pub open spec fn candidate_texts(v: Seq<Option<String>>) -> Seq<Option<Seq<char>>> {
    Seq::new(v.len(), |i: int| optional_text(v[i]))
}

// ---------------------------------------------------------------------------
// Reading single properties
// ---------------------------------------------------------------------------

fn text_property(props: &StringHashMap<String>, key: &str, default: String) -> (out: String)
    ensures
        out@ == text_field(table(props@), key@, default@),
{
    match props.get(key) {
        Some(v) => v.clone(),
        None => default,
    }
}

fn optional_property(props: &StringHashMap<String>, key: &str, default: Option<String>) -> (out:
    Option<String>)
    ensures
        optional_text(out) == optional_field(table(props@), key@, optional_text(default)),
{
    match props.get(key) {
        Some(v) => Some(v.clone()),
        None => default,
    }
}

/// The items of a comma-separated list, each trimmed.
fn read_list(value: &str) -> (out: Vec<String>)
    ensures
        texts(out@) == list_items(value@),
{
    let chars = to_chars(value);
    let pieces = split_on(&chars, ',');
    let mut out: Vec<String> = Vec::new();
    let mut i: usize = 0;
    while i < pieces.len()
        invariant
            i <= pieces.len(),
            rows(pieces@) == split(value@, ','),
            out.len() == i,
            forall|j: int| 0 <= j < i ==> (#[trigger] out@[j])@ == trim(split(value@, ',')[j]),
        decreases pieces.len() - i,
    {
        assert(rows(pieces@)[i as int] == pieces@[i as int]@);
        let item = trimmed(&pieces[i]);
        out.push(to_text(&item));
        i += 1;
    }
    assert(rows(pieces@).len() == pieces.len());
    assert(texts(out@) =~= list_items(value@));
    out
}

fn list_property(props: &StringHashMap<String>, key: &str, default: Vec<String>) -> (out: Vec<
    String,
>)
    ensures
        texts(out@) == list_field(table(props@), key@, texts(default@)),
{
    match props.get(key) {
        Some(v) => read_list(v.as_str()),
        None => default,
    }
}

fn flag_property(props: &StringHashMap<String>, key: &str, default: bool) -> (out: bool)
    ensures
        out == flag_field(table(props@), key@, default),
{
    match props.get(key) {
        Some(v) => {
            let value = to_chars(v.as_str());
            let word = to_chars("true");
            same_ignoring_ascii_case(&value, &word)
        },
        None => default,
    }
}

fn number_property(
    props: &StringHashMap<String>,
    key: &str,
    blame: &str,
    max: u64,
    default: u64,
) -> (out: Result<u64, ConfigError>)
    requires
        default <= max,
    ensures
        match out {
            Ok(n) => n <= max && number_field(table(props@), key@, blame@, max as nat, default as nat)
                == Ok::<nat, Complaint>(n as nat),
            Err(e) => e.complaint() matches Some(c) && number_field(
                table(props@),
                key@,
                blame@,
                max as nat,
                default as nat,
            ) == Err::<nat, Complaint>(c),
        },
{
    match props.get(key) {
        Some(v) => {
            let value = to_chars(v.as_str());
            match read_unsigned(&value, max) {
                Some(n) => Ok(n),
                None => {
                    let mut reason = String::from_str(blame);
                    reason.append(v.as_str());
                    Err(ConfigError::ParseError { key: String::from_str(key), reason })
                },
            }
        },
        None => Ok(default),
    }
}

/// The sizes that a comma-separated list denotes, or its first item that is
/// not a size.
fn read_sizes(value: &str) -> (out: Result<Vec<usize>, String>)
    ensures
        match out {
            Ok(sizes) => sizes_of_items(list_items(value@)) == Ok::<Seq<usize>, Seq<char>>(sizes@),
            Err(bad) => sizes_of_items(list_items(value@)) == Err::<Seq<usize>, Seq<char>>(bad@),
        },
{
    let chars = to_chars(value);
    let pieces = split_on(&chars, ',');
    let ghost items = list_items(value@);
    let mut sizes: Vec<usize> = Vec::new();
    let mut i: usize = 0;
    assert(rows(pieces@).len() == pieces.len());
    assert(items.take(0) == Seq::<Seq<char>>::empty());
    while i < pieces.len()
        invariant
            i <= pieces.len() == items.len(),
            rows(pieces@) == split(value@, ','),
            items == list_items(value@),
            sizes_of_items(items.take(i as int)) == Ok::<Seq<usize>, Seq<char>>(sizes@),
        decreases pieces.len() - i,
    {
        assert(rows(pieces@)[i as int] == pieces@[i as int]@);
        let item = trimmed(&pieces[i]);
        assert(item@ == items[i as int]);
        assert(items.take(i + 1).drop_last() == items.take(i as int));
        assert(items.take(i + 1).last() == item@);
        match read_unsigned(&item, usize::MAX as u64) {
            Some(n) => {
                sizes.push(n as usize);
            },
            None => {
                proof {
                    lemma_sizes_fail_early(items, i + 1);
                }
                return Err(to_text(&item));
            },
        }
        i += 1;
    }
    assert(items.take(i as int) == items);
    Ok(sizes)
}

/// Once a prefix of the items has failed, the whole list fails on the same
/// item.
proof fn lemma_sizes_fail_early(items: Seq<Seq<char>>, k: int)
    requires
        0 <= k <= items.len(),
        sizes_of_items(items.take(k)) is Err,
    ensures
        sizes_of_items(items) == sizes_of_items(items.take(k)),
    decreases items.len() - k,
{
    if k == items.len() {
        assert(items.take(k) == items);
    } else {
        assert(items.drop_last().take(k) == items.take(k));
        lemma_sizes_fail_early(items.drop_last(), k);
    }
}

fn sizes_property(props: &StringHashMap<String>, key: &str, blame: &str, default: Vec<usize>) -> (out:
    Result<Vec<usize>, ConfigError>)
    ensures
        match out {
            Ok(sizes) => sizes_field(table(props@), key@, blame@, default@) == Ok::<
                Seq<usize>,
                Complaint,
            >(sizes@),
            Err(e) => e.complaint() matches Some(c) && sizes_field(
                table(props@),
                key@,
                blame@,
                default@,
            ) == Err::<Seq<usize>, Complaint>(c),
        },
{
    match props.get(key) {
        Some(v) => match read_sizes(v.as_str()) {
            Ok(sizes) => Ok(sizes),
            Err(bad) => {
                let mut reason = String::from_str(blame);
                reason.append(bad.as_str());
                Err(ConfigError::ParseError { key: String::from_str(key), reason })
            },
        },
        None => Ok(default),
    }
}

// ---------------------------------------------------------------------------
// Showing the configuration
// ---------------------------------------------------------------------------

/// `format!("{:?}", s)` for a string slice: the string as its `Debug` impl
/// shows it, which depends on the string alone.
#[verifier::external_body]
fn debug_text(s: &str) -> (out: String)
    ensures
        out@ == debug_quoted(s@),
{
    format!("{:?}", s)
}

/// Appends `item` to a list that holds `count` items so far.
fn push_item(list: &mut String, count: usize, item: &str)
    ensures
        final(list)@ == if count == 0 {
            old(list)@ + item@
        } else {
            old(list)@ + ", "@ + item@
        },
{
    if count > 0 {
        list.append(", ");
    }
    list.append(item);
}

fn show_texts(label: &str, items: &Vec<String>) -> (out: String)
    ensures
        out@ == label@ + shown_texts(texts(items@)),
{
    let ghost shown = Seq::new(items@.len(), |i: int| debug_quoted(items@[i]@));
    assert(shown =~= Seq::new(texts(items@).len(), |i: int| debug_quoted(texts(items@)[i])));
    let mut list = String::new();
    let mut i: usize = 0;
    assert(shown.take(0) == Seq::<Seq<char>>::empty());
    while i < items.len()
        invariant
            i <= items.len(),
            shown == Seq::new(items@.len(), |i: int| debug_quoted(items@[i]@)),
            list@ == joined(shown.take(i as int)),
        decreases items.len() - i,
    {
        assert(shown.take(i + 1).drop_last() == shown.take(i as int));
        assert(shown.take(i + 1).last() == debug_quoted(items@[i as int]@));
        if i == 1 {
            assert(shown.take(1)[0] == shown[0]);
        }
        let item = debug_text(items[i].as_str());
        push_item(&mut list, i, item.as_str());
        i += 1;
    }
    assert(shown.take(i as int) == shown);
    let mut out = String::from_str(label);
    out.append("[");
    out.append(list.as_str());
    out.append("]");
    out
}

fn show_sizes(label: &str, items: &Vec<usize>) -> (out: String)
    ensures
        out@ == label@ + shown_sizes(items@),
{
    let ghost shown = Seq::new(items@.len(), |i: int| decimal(items@[i] as nat));
    let mut list = String::new();
    let mut i: usize = 0;
    assert(shown.take(0) == Seq::<Seq<char>>::empty());
    while i < items.len()
        invariant
            i <= items.len(),
            shown == Seq::new(items@.len(), |i: int| decimal(items@[i] as nat)),
            list@ == joined(shown.take(i as int)),
        decreases items.len() - i,
    {
        assert(shown.take(i + 1).drop_last() == shown.take(i as int));
        assert(shown.take(i + 1).last() == decimal(items@[i as int] as nat));
        if i == 1 {
            assert(shown.take(1)[0] == shown[0]);
        }
        let mut item = String::new();
        push_decimal(&mut item, items[i] as u64);
        assert(item@ == decimal(items@[i as int] as nat));
        push_item(&mut list, i, item.as_str());
        i += 1;
    }
    assert(shown.take(i as int) == shown);
    let mut out = String::from_str(label);
    out.append("[");
    out.append(list.as_str());
    out.append("]");
    out
}

fn show_number(label: &str, n: u64) -> (out: String)
    ensures
        out@ == label@ + decimal(n as nat),
{
    let mut out = String::from_str(label);
    push_decimal(&mut out, n);
    out
}

// ---------------------------------------------------------------------------
// The configuration
// ---------------------------------------------------------------------------

impl Default for Config {
    fn default() -> (out: Self)
        ensures
            out@ == default_config(),
    {
        let mut coin_pairs: Vec<String> = Vec::new();
        coin_pairs.push(String::from_str("BTC_USDT"));
        coin_pairs.push(String::from_str("BTC_CHF"));
        coin_pairs.push(String::from_str("BTC_EUR"));
        coin_pairs.push(String::from_str("BTC_USDC"));
        let mut ciphers: Vec<String> = Vec::new();
        ciphers.push(String::from_str("ECDHE-RSA-AES128-GCM-SHA256"));
        ciphers.push(String::from_str("ECDHE-RSA-AES256-GCM-SHA384"));
        ciphers.push(String::from_str("TLS_AES_128_GCM_SHA256"));
        ciphers.push(String::from_str("TLS_AES_256_GCM_SHA384"));
        let mut payload_sizes: Vec<usize> = Vec::new();
        payload_sizes.push(0);
        payload_sizes.push(64);
        payload_sizes.push(256);
        payload_sizes.push(512);
        payload_sizes.push(1024);
        payload_sizes.push(1400);
        payload_sizes.push(2048);
        assert(texts(coin_pairs@) =~= default_config().coin_pairs);
        assert(texts(ciphers@) =~= default_config().ciphers);
        assert(payload_sizes@ =~= default_config().payload_sizes);
        Config {
            coin_pairs,
            host: String::from_str("localhost"),
            websocket_port: 8888,
            api_token: 3001,
            test_size: 10,
            exchange_client_count: 1,
            warmup_count: 1,
            use_ssl: false,
            key_store_path: None,
            key_store_password: None,
            ciphers,
            ping_interval: 5000,
            histogram_significant_figures: 5,
            payload_sizes,
        }
    }
}

impl Config {
    /// Reads the properties that `content` defines.
    pub fn parse_properties(content: &str) -> (props: StringHashMap<String>)
        ensures
            table(props@) == properties(content@),
    {
        let chars = to_chars(content);
        let lines = split_on(&chars, '\n');
        let mut props: StringHashMap<String> = StringHashMap::new();
        let mut i: usize = 0;
        assert(rows(lines@).take(0) == Seq::<Seq<char>>::empty());
        assert(table(props@) =~= Map::<Seq<char>, Seq<char>>::empty());
        while i < lines.len()
            invariant
                i <= lines.len(),
                rows(lines@) == split(content@, '\n'),
                table(props@) == properties_of_lines(rows(lines@).take(i as int)),
            decreases lines.len() - i,
        {
            let ghost before = props@;
            let ghost seen = rows(lines@).take(i + 1);
            assert(seen.drop_last() == rows(lines@).take(i as int));
            assert(seen.last() == lines@[i as int]@);
            let line = trimmed(&lines[i]);
            if line.len() > 0 && line[0] != '#' {
                match find(&line, '=') {
                    Some(at) => {
                        let key = trimmed(&slice(&line, 0, at));
                        let value = trimmed(&slice(&line, at + 1, line.len()));
                        assert(line@.take(at as int) == line@.subrange(0, at as int));
                        assert(line@.skip(at + 1) == line@.subrange(at + 1, line.len() as int));
                        props.insert(to_text(&key), to_text(&value));
                        assert(table(props@) =~= table(before).insert(key@, value@));
                    },
                    None => {},
                }
            }
            i += 1;
        }
        assert(rows(lines@).take(lines.len() as int) == rows(lines@));
        props
    }

    /// Parses a configuration from property text. Fields whose key is absent
    /// keep their defaults. The first value, in the order of the fields, that
    /// cannot be parsed is reported with its key.
    pub fn from_properties_str(content: &str) -> (out: Result<Config, ConfigError>)
        ensures
            match out {
                Ok(config) => parse_config(content@) == Ok::<ConfigView, Complaint>(config@),
                Err(e) => e.complaint() matches Some(c) && parse_config(content@) == Err::<
                    ConfigView,
                    Complaint,
                >(c),
            },
    {
        let props = Config::parse_properties(content);
        let defaults = Config::default();
        let coin_pairs = list_property(&props, "COINPAIRS", defaults.coin_pairs);
        let host = text_property(&props, "HOST", defaults.host);
        let websocket_port = match number_property(
            &props,
            "WEBSOCKET_PORT",
            "invalid u16: ",
            u16::MAX as u64,
            8888,
        ) {
            Ok(n) => n as u16,
            Err(e) => {
                return Err(e);
            },
        };
        let api_token = match number_property(
            &props,
            "API_TOKEN",
            "invalid u32: ",
            u32::MAX as u64,
            3001,
        ) {
            Ok(n) => n as u32,
            Err(e) => {
                return Err(e);
            },
        };
        let test_size = match number_property(
            &props,
            "TEST_SIZE",
            "invalid usize: ",
            usize::MAX as u64,
            10,
        ) {
            Ok(n) => n as usize,
            Err(e) => {
                return Err(e);
            },
        };
        let exchange_client_count = match number_property(
            &props,
            "EXCHANGE_CLIENT_COUNT",
            "invalid usize: ",
            usize::MAX as u64,
            1,
        ) {
            Ok(n) => n as usize,
            Err(e) => {
                return Err(e);
            },
        };
        let warmup_count = match number_property(
            &props,
            "WARMUP_COUNT",
            "invalid usize: ",
            usize::MAX as u64,
            1,
        ) {
            Ok(n) => n as usize,
            Err(e) => {
                return Err(e);
            },
        };
        let use_ssl = flag_property(&props, "USE_SSL", defaults.use_ssl);
        let key_store_path = optional_property(&props, "KEY_STORE_PATH", defaults.key_store_path);
        let key_store_password = optional_property(
            &props,
            "KEY_STORE_PASSWORD",
            defaults.key_store_password,
        );
        let ciphers = list_property(&props, "CIPHERS", defaults.ciphers);
        let ping_interval = match number_property(
            &props,
            "PING_INTERVAL",
            "invalid u64: ",
            u64::MAX,
            5000,
        ) {
            Ok(n) => n,
            Err(e) => {
                return Err(e);
            },
        };
        let histogram_significant_figures = match number_property(
            &props,
            "HISTOGRAM_SIGNIFICANT_FIGURES",
            "invalid u8: ",
            u8::MAX as u64,
            5,
        ) {
            Ok(n) => n as u8,
            Err(e) => {
                return Err(e);
            },
        };
        let payload_sizes = match sizes_property(
            &props,
            "PAYLOAD_SIZES",
            "invalid usize in list: ",
            defaults.payload_sizes,
        ) {
            Ok(sizes) => sizes,
            Err(e) => {
                return Err(e);
            },
        };
        Ok(
            Config {
                coin_pairs,
                host,
                websocket_port,
                api_token,
                test_size,
                exchange_client_count,
                warmup_count,
                use_ssl,
                key_store_path,
                key_store_password,
                ciphers,
                ping_interval,
                histogram_significant_figures,
                payload_sizes,
            },
        )
    }

    /// The places where a configuration file is looked for, in the order in
    /// which they are tried.
    pub fn search_paths() -> (out: Vec<String>)
        ensures
            texts(out@) == seq![
                "config.properties"@,
                "../java_client/src/main/resources/config.properties"@,
            ],
    {
        let mut out: Vec<String> = Vec::new();
        out.push(String::from_str("config.properties"));
        out.push(String::from_str("../java_client/src/main/resources/config.properties"));
        assert(texts(out@) =~= seq![
            "config.properties"@,
            "../java_client/src/main/resources/config.properties"@,
        ]);
        out
    }

    /// Chooses the configuration among the texts found at the search paths.
    /// `candidates` holds, for each path in order, the text of the file there,
    /// or `None` where there is no readable file. The first text that parses
    /// is used; without one the defaults are.
    pub fn load_or_default(candidates: &Vec<Option<String>>) -> (out: Config)
        ensures
            out@ == first_valid(candidate_texts(candidates@)),
    {
        let ghost all = candidate_texts(candidates@);
        let mut i: usize = 0;
        assert(all.skip(0) == all);
        while i < candidates.len()
            invariant
                i <= candidates.len(),
                all == candidate_texts(candidates@),
                first_valid(all) == first_valid(all.skip(i as int)),
            decreases candidates.len() - i,
        {
            assert(all.skip(i as int).drop_first() == all.skip(i + 1));
            assert(all.skip(i as int)[0] == optional_text(candidates@[i as int]));
            match &candidates[i] {
                Some(content) => match Config::from_properties_str(content.as_str()) {
                    Ok(config) => {
                        return config;
                    },
                    Err(_) => {},
                },
                None => {},
            }
            i += 1;
        }
        Config::default()
    }

    /// The settings, one to a line, for the log. The key store's password
    /// is left out.
    pub fn log_config(&self) -> (lines: Vec<String>)
        ensures
            texts(lines@) == config_lines(self@),
    {
        let mut lines: Vec<String> = Vec::new();
        lines.push(String::from_str("Configuration:"));
        lines.push(show_texts("  coin_pairs: ", &self.coin_pairs));
        let mut host = String::from_str("  host: ");
        host.append(self.host.as_str());
        lines.push(host);
        lines.push(show_number("  websocket_port: ", self.websocket_port as u64));
        lines.push(show_number("  api_token: ", self.api_token as u64));
        lines.push(show_number("  test_size: ", self.test_size as u64));
        lines.push(show_number("  exchange_client_count: ", self.exchange_client_count as u64));
        lines.push(show_number("  warmup_count: ", self.warmup_count as u64));
        let mut use_ssl = String::from_str("  use_ssl: ");
        use_ssl.append(
            if self.use_ssl {
                "true"
            } else {
                "false"
            },
        );
        assert(use_ssl@ == "  use_ssl: "@ + shown_flag(self.use_ssl));
        lines.push(use_ssl);
        let mut key_store_path = String::from_str("  key_store_path: ");
        match &self.key_store_path {
            Some(path) => {
                key_store_path.append("Some(");
                let quoted = debug_text(path.as_str());
                key_store_path.append(quoted.as_str());
                key_store_path.append(")");
            },
            None => {
                key_store_path.append("None");
            },
        }
        assert(key_store_path@ =~= "  key_store_path: "@ + shown_optional(self@.key_store_path));
        lines.push(key_store_path);
        lines.push(show_texts("  ciphers: ", &self.ciphers));
        let mut ping_interval = show_number("  ping_interval: ", self.ping_interval);
        ping_interval.append(" ms");
        lines.push(ping_interval);
        lines.push(
            show_number(
                "  histogram_significant_figures: ",
                self.histogram_significant_figures as u64,
            ),
        );
        lines.push(show_sizes("  payload_sizes: ", &self.payload_sizes));
        assert(texts(lines@) =~= config_lines(self@));
        lines
    }

    /// The address of the server's WebSocket endpoint: `wss` with TLS, `ws`
    /// without, then host and port.
    pub fn websocket_url(&self) -> (out: String)
        ensures
            out@ == websocket_url_of(self@),
    {
        let mut out = if self.use_ssl {
            String::from_str("wss")
        } else {
            String::from_str("ws")
        };
        out.append("://");
        out.append(self.host.as_str());
        out.append(":");
        push_decimal(&mut out, self.websocket_port as u64);
        out
    }
}

} // verus!
