use config_resolver::address::{hex_or_base58_to_h256, parse_key, AddressError, H256};
use config_resolver::chain::{ChainConf, DeprecatedRawChainConf, PrometheusMiddlewareConf};
use config_resolver::checkpoint::{
    CheckpointSyncerConf, CheckpointSyncerStep, DeprecatedRawCheckpointSyncerConf, PathKind,
};
use config_resolver::coerce::{parse_decimal, StrOrInt};
use config_resolver::connection::{
    ChainConnectionConf, DeprecatedRawChainConnectionConf, HyperlaneDomainProtocol, RawConnectionConf,
};
use config_resolver::contracts::{CoreContractAddresses, DeprecatedRawCoreContractAddresses};
use config_resolver::error::{ConfigErrorKind, ConfigParsingError};
use config_resolver::index::{DeprecatedRawIndexSettings, IndexMode, IndexSettings};
use config_resolver::path::ConfigPath;
use config_resolver::resolve::FromRawConf;
use config_resolver::settings::{DeprecatedRawSettings, Level, Settings, Style, TracingConfig};
use config_resolver::signer::{DeprecatedRawSignerConf, SignerConf, SignerKind};
use config_resolver::text::{contains_name, is_text};

fn text(s: &str) -> Option<String> {
    Some(s.to_string())
}

fn hex_address(byte: u8) -> String {
    let mut s = String::from("0x");
    for _ in 0..32 {
        s.push_str(&format!("{:02x}", byte));
    }
    s
}

fn raw_addresses() -> DeprecatedRawCoreContractAddresses {
    DeprecatedRawCoreContractAddresses {
        mailbox: Some(hex_address(0x11)),
        interchain_gas_paymaster: Some(hex_address(0x22)),
        validator_announce: Some(hex_address(0x33)),
    }
}

fn raw_chain(name: &str, domain: i64) -> DeprecatedRawChainConf {
    DeprecatedRawChainConf {
        name: text(name),
        domain: Some(StrOrInt::Int(domain)),
        signer: None,
        finality_blocks: None,
        addresses: Some(raw_addresses()),
        connection: Some(DeprecatedRawChainConnectionConf::Ethereum(RawConnectionConf {
            url: text("http://localhost:8545"),
        })),
        metrics_conf: None,
        index: None,
    }
}

fn raw_signer(kind: Option<&str>, key: Option<&str>, id: Option<&str>, region: Option<&str>) -> DeprecatedRawSignerConf {
    DeprecatedRawSignerConf {
        signer_type: kind.map(String::from),
        key: key.map(String::from),
        id: id.map(String::from),
        region: region.map(String::from),
    }
}

fn raw_settings(chains: Vec<(String, DeprecatedRawChainConf)>) -> DeprecatedRawSettings {
    DeprecatedRawSettings { chains: Some(chains), defaultsigner: None, metrics: None, tracing: None }
}

fn root() -> ConfigPath {
    ConfigPath::new()
}

fn reported(e: &ConfigParsingError) -> Vec<(String, ConfigErrorKind, String)> {
    e.errors.iter().map(|d| (d.path.to_dotted(), d.kind, d.message.clone())).collect()
}

fn has(e: &ConfigParsingError, path: &str, kind: ConfigErrorKind) -> bool {
    e.errors.iter().any(|d| d.path.to_dotted() == path && d.kind == kind)
}

fn keys(s: &Settings) -> Vec<String> {
    s.chains.iter().map(|(k, _)| k.clone()).collect()
}

const KEY: &str = "0x0123456789abcdef0123456789abcdef0123456789abcdef0123456789abcdef";

fn key_bytes() -> [u8; 32] {
    let unit = [0x01u8, 0x23, 0x45, 0x67, 0x89, 0xab, 0xcd, 0xef];
    let mut b = [0u8; 32];
    for i in 0..32 {
        b[i] = unit[i % 8];
    }
    b
}

#[test]
fn path_joins_and_prints_with_dots() {
    let p = root().join("chains").join("foo").join("addresses").join("mailbox");
    assert_eq!(p.len(), 4);
    assert_eq!(p.to_dotted(), "chains.foo.addresses.mailbox");
    assert_eq!(root().to_dotted(), "");
    assert_eq!(root().join("metrics").to_dotted(), "metrics");
    let q = p.clone();
    assert_eq!(q.segments, p.segments);
}

#[test]
fn collection_finalizes_to_the_value_only_when_empty() {
    let empty = ConfigParsingError::new();
    assert!(empty.is_empty());
    assert_eq!(empty.into_result(7u32).unwrap(), 7);

    let mut one = ConfigParsingError::new();
    one.report(&root().join("a"), "b", ConfigErrorKind::InvalidValue, "bad");
    assert_eq!(one.len(), 1);
    let failed = one.into_result(7u32).unwrap_err();
    assert_eq!(reported(&failed), vec![("a.b".to_string(), ConfigErrorKind::InvalidValue, "bad".to_string())]);
}

#[test]
fn merge_keeps_every_defect_with_its_location() {
    let mut first = ConfigParsingError::single(root().join("x"), ConfigErrorKind::MissingField, "one".to_string());
    let mut second = ConfigParsingError::new();
    second.push(root().join("y"), ConfigErrorKind::UnknownVariant, "two".to_string());
    second.push(root().join("z"), ConfigErrorKind::FilesystemError, "three".to_string());
    first.merge(second);
    assert_eq!(
        reported(&first),
        vec![
            ("x".to_string(), ConfigErrorKind::MissingField, "one".to_string()),
            ("y".to_string(), ConfigErrorKind::UnknownVariant, "two".to_string()),
            ("z".to_string(), ConfigErrorKind::FilesystemError, "three".to_string()),
        ]
    );
}

#[test]
fn require_and_take_config_err_record_and_go_on() {
    let mut err = ConfigParsingError::new();
    assert_eq!(err.require(Some(3u8), &root(), "a", "Missing a"), Some(3));
    assert!(err.is_empty());
    assert_eq!(err.require(None::<u8>, &root(), "b", "Missing b"), None);
    assert_eq!(reported(&err), vec![("b".to_string(), ConfigErrorKind::MissingField, "Missing b".to_string())]);
    let sub = ConfigParsingError::single(root().join("c"), ConfigErrorKind::InvalidValue, "bad c".to_string());
    assert_eq!(err.take_config_err(Err::<u8, ConfigParsingError>(sub)), None);
    assert_eq!(err.take_config_err(Ok::<u8, ConfigParsingError>(9)), Some(9));
    assert_eq!(err.len(), 2);
    assert!(has(&err, "c", ConfigErrorKind::InvalidValue));
}

#[test]
fn text_and_integer_coerce_to_the_same_number() {
    assert_eq!(StrOrInt::Str("42".to_string()).to_u32(), Some(42));
    assert_eq!(StrOrInt::Int(42).to_u32(), Some(42));
    assert_eq!(StrOrInt::Str("42".to_string()).to_u16(), Some(42));
    assert_eq!(StrOrInt::Int(42).to_u16(), Some(42));
}

#[test]
fn coercion_follows_the_decimal_notation() {
    assert_eq!(StrOrInt::Str("+7".to_string()).to_u32(), Some(7));
    assert_eq!(StrOrInt::Str("007".to_string()).to_u32(), Some(7));
    assert_eq!(StrOrInt::Str("0".to_string()).to_u32(), Some(0));
    assert_eq!(StrOrInt::Str("4294967295".to_string()).to_u32(), Some(u32::MAX));
    assert_eq!(StrOrInt::Str("65535".to_string()).to_u16(), Some(u16::MAX));
    for bad in ["", "+", "-1", "4x", " 4", "4 ", "1_000", "0x10", "4294967296", "٣"] {
        assert_eq!(StrOrInt::Str(bad.to_string()).to_u32(), None, "{:?}", bad);
    }
    for bad in ["", "65536", "-0", "port"] {
        assert_eq!(StrOrInt::Str(bad.to_string()).to_u16(), None, "{:?}", bad);
    }
}

#[test]
fn coercion_rejects_integers_out_of_range() {
    assert_eq!(StrOrInt::Int(-1).to_u32(), None);
    assert_eq!(StrOrInt::Int(4294967296).to_u32(), None);
    assert_eq!(StrOrInt::Int(4294967295).to_u32(), Some(u32::MAX));
    assert_eq!(StrOrInt::Int(65536).to_u16(), None);
    assert_eq!(StrOrInt::Int(65535).to_u16(), Some(u16::MAX));
    assert_eq!(StrOrInt::Int(i64::MIN).to_u16(), None);
}

#[test]
fn long_hex_address_is_read_byte_by_byte() {
    let h = hex_or_base58_to_h256(KEY).unwrap();
    assert_eq!(h.bytes, key_bytes());
    let upper = "0x0123456789ABCDEF0123456789abcdef0123456789ABCDEF0123456789abcdef";
    assert_eq!(hex_or_base58_to_h256(upper).unwrap().bytes, key_bytes());
}

#[test]
fn short_hex_address_is_widened_with_zeros() {
    let s = "0x00112233445566778899aabbccddeeff01020304";
    let h = hex_or_base58_to_h256(s).unwrap();
    let mut expected = [0u8; 32];
    let tail = [
        0x00u8, 0x11, 0x22, 0x33, 0x44, 0x55, 0x66, 0x77, 0x88, 0x99, 0xaa, 0xbb, 0xcc, 0xdd, 0xee, 0xff, 0x01, 0x02,
        0x03, 0x04,
    ];
    expected[12..].copy_from_slice(&tail);
    assert_eq!(h.bytes, expected);
    assert_eq!(H256::from_short(&tail).bytes, expected);
}

#[test]
fn base58_address_is_decoded() {
    let mut bytes = [0u8; 32];
    for i in 0..32 {
        bytes[i] = (i as u8).wrapping_mul(7).wrapping_add(3);
    }
    let encoded = bs58::encode(bytes).into_string();
    assert_ne!(encoded.as_bytes(), &bytes[..]);
    assert_eq!(hex_or_base58_to_h256(&encoded).unwrap().bytes, bytes);
    let zeros = "11111111111111111111111111111111";
    assert_eq!(hex_or_base58_to_h256(zeros).unwrap(), H256::zero());
}

#[test]
fn each_address_error_has_its_input() {
    assert_eq!(hex_or_base58_to_h256("0x1234"), Err(AddressError::InvalidHexLength));
    assert_eq!(hex_or_base58_to_h256("0x"), Err(AddressError::InvalidHexLength));
    let bad_digit = format!("0x{}", "g".repeat(64));
    assert_eq!(hex_or_base58_to_h256(&bad_digit), Err(AddressError::InvalidHexDigits));
    let with_blank = format!("0x{} ", "a".repeat(63));
    assert_eq!(hex_or_base58_to_h256(&with_blank), Err(AddressError::InvalidHexDigits));
    let bad_short = format!("0x{}", "z".repeat(40));
    assert_eq!(hex_or_base58_to_h256(&bad_short), Err(AddressError::InvalidHexDigits));
    assert_eq!(hex_or_base58_to_h256("not base 58!"), Err(AddressError::InvalidBase58));
    assert_eq!(hex_or_base58_to_h256("0OIl"), Err(AddressError::InvalidBase58));
    assert_eq!(hex_or_base58_to_h256("he11owor1d"), Err(AddressError::InvalidBase58Length));
    assert_eq!(hex_or_base58_to_h256(""), Err(AddressError::InvalidBase58Length));
    assert_eq!(AddressError::InvalidHexLength.message(), "Invalid hex string");
    assert_eq!(AddressError::InvalidHexDigits.message(), "Invalid hex digits");
    assert_eq!(AddressError::InvalidBase58.message(), "Invalid base58 string");
    assert_eq!(AddressError::InvalidBase58Length.message(), "Invalid length of base58 string");
}

#[test]
fn decoded_bytes_must_be_thirty_two() {
    assert_eq!(H256::from_decoded(None), Err(AddressError::InvalidBase58));
    assert_eq!(H256::from_decoded(Some(vec![1u8; 31])), Err(AddressError::InvalidBase58Length));
    assert_eq!(H256::from_decoded(Some(vec![1u8; 33])), Err(AddressError::InvalidBase58Length));
    assert_eq!(H256::from_decoded(Some(vec![5u8; 32])).unwrap().bytes, [5u8; 32]);
}

#[test]
fn key_is_read_with_or_without_prefix_and_blanks() {
    assert_eq!(parse_key(KEY).unwrap().bytes, key_bytes());
    assert_eq!(parse_key(&KEY[2..]).unwrap().bytes, key_bytes());
    let spaced = format!("0x{} {}\n", &KEY[2..34], &KEY[34..]);
    assert_eq!(parse_key(&spaced).unwrap().bytes, key_bytes());
    assert_eq!(parse_key(""), None);
    assert_eq!(parse_key("0x"), None);
    assert_eq!(parse_key(&KEY[..65]), None);
    assert_eq!(parse_key(&format!("{}0", KEY)), None);
    assert_eq!(parse_key(&format!("0x{}", KEY)), None);
    assert_eq!(parse_key(&format!("0X{}", &KEY[2..])), None);
    assert_eq!(parse_key(&format!("{}g", &KEY[..65])), None);
}

#[test]
fn text_helpers_compare_exactly() {
    assert!(is_text(&"aws".to_string(), "aws"));
    assert!(!is_text(&"Aws".to_string(), "aws"));
    let names = vec!["a".to_string(), "c".to_string()];
    assert!(contains_name(&names, &"c".to_string()));
    assert!(!contains_name(&names, &"C".to_string()));
    assert!(!contains_name(&Vec::new(), &"a".to_string()));
}

#[test]
fn signer_with_key_and_no_type_is_hex_key() {
    let raw = raw_signer(None, Some(KEY), None, None);
    assert_eq!(raw.kind(), SignerKind::HexKey);
    match SignerConf::from_config_filtered(raw, &root(), ()).unwrap() {
        SignerConf::HexKey { key } => assert_eq!(key.bytes, key_bytes()),
        other => panic!("{:?}", other),
    }
}

#[test]
fn signer_with_id_and_region_and_no_type_is_aws() {
    let raw = raw_signer(None, None, Some("k1"), Some("us-east-1"));
    assert_eq!(raw.kind(), SignerKind::Aws);
    match SignerConf::from_config_filtered(raw, &root(), ()).unwrap() {
        SignerConf::Aws { id, region } => {
            assert_eq!(id, "k1");
            assert_eq!(region, "us-east-1");
        }
        other => panic!("{:?}", other),
    }
}

#[test]
fn empty_signer_is_node() {
    let raw = DeprecatedRawSignerConf::default();
    assert_eq!(raw.kind(), SignerKind::Node);
    assert!(matches!(SignerConf::from_config_filtered(raw, &root(), ()), Ok(SignerConf::Node)));
}

#[test]
fn bogus_signer_type_is_an_unknown_variant() {
    let raw = raw_signer(Some("bogus"), Some(KEY), Some("k1"), Some("us-east-1"));
    assert_eq!(raw.kind(), SignerKind::Unknown);
    let e = SignerConf::from_config_filtered(raw, &root().join("signer"), ()).unwrap_err();
    assert_eq!(
        reported(&e),
        vec![("signer.type".to_string(), ConfigErrorKind::UnknownVariant, "Unknown signer type `bogus`".to_string())]
    );
}

#[test]
fn explicit_signer_type_wins_over_the_fields() {
    let raw = raw_signer(Some("aws"), Some(KEY), Some("k1"), Some("eu-west-1"));
    assert!(matches!(SignerConf::from_config_filtered(raw, &root(), ()), Ok(SignerConf::Aws { .. })));
    let raw = raw_signer(Some("hexKey"), Some(KEY), Some("k1"), None);
    assert!(matches!(SignerConf::from_config_filtered(raw, &root(), ()), Ok(SignerConf::HexKey { .. })));
    let raw = raw_signer(None, Some(KEY), Some("k1"), Some("eu-west-1"));
    assert!(matches!(SignerConf::from_config_filtered(raw, &root(), ()), Ok(SignerConf::HexKey { .. })));
}

#[test]
fn hex_key_signer_needs_a_good_key() {
    let e = SignerConf::from_config_filtered(raw_signer(Some("hexKey"), None, None, None), &root(), ()).unwrap_err();
    assert_eq!(
        reported(&e),
        vec![("key".to_string(), ConfigErrorKind::MissingField, "Missing `key` for HexKey signer".to_string())]
    );
    let e = SignerConf::from_config_filtered(raw_signer(None, Some("0xabc"), None, None), &root(), ()).unwrap_err();
    assert_eq!(e.len(), 1);
    assert!(has(&e, "key", ConfigErrorKind::InvalidValue));
}

#[test]
fn aws_signer_reports_each_missing_field() {
    let e = SignerConf::from_config_filtered(raw_signer(Some("aws"), None, None, None), &root(), ()).unwrap_err();
    assert_eq!(
        reported(&e),
        vec![
            ("id".to_string(), ConfigErrorKind::MissingField, "Missing `id` for Aws signer".to_string()),
            ("region".to_string(), ConfigErrorKind::MissingField, "Missing `region` for Aws signer".to_string()),
        ]
    );
    let e = SignerConf::from_config_filtered(raw_signer(None, None, Some("k1"), None), &root(), ()).unwrap_err();
    assert_eq!(e.len(), 1);
    assert!(has(&e, "region", ConfigErrorKind::MissingField));
    let e = SignerConf::from_config_filtered(raw_signer(None, None, None, Some("r")), &root(), ()).unwrap_err();
    assert_eq!(e.len(), 1);
    assert!(has(&e, "id", ConfigErrorKind::MissingField));
}

#[test]
fn signer_clone_is_the_same_signer() {
    let s = SignerConf::Aws { id: "k1".to_string(), region: "r".to_string() };
    match s.clone() {
        SignerConf::Aws { id, region } => {
            assert_eq!(id, "k1");
            assert_eq!(region, "r");
        }
        other => panic!("{:?}", other),
    }
}

#[test]
fn absent_index_fields_take_their_defaults() {
    let raw = DeprecatedRawIndexSettings { from: None, chunk: None, mode: None };
    let s = IndexSettings::from_config_filtered(raw, &root(), ()).unwrap();
    assert_eq!(s, IndexSettings { from: 0, chunk_size: 1999, mode: IndexMode::Block });
    assert_eq!(IndexSettings::default(), s);
}

#[test]
fn index_fields_are_coerced() {
    let raw = DeprecatedRawIndexSettings {
        from: Some(StrOrInt::Str("100".to_string())),
        chunk: Some(StrOrInt::Int(50)),
        mode: text("sequence"),
    };
    let s = IndexSettings::from_config_filtered(raw, &root(), ()).unwrap();
    assert_eq!(s, IndexSettings { from: 100, chunk_size: 50, mode: IndexMode::Sequence });
    assert_eq!(IndexMode::parse(&"block".to_string()), Some(IndexMode::Block));
    assert_eq!(IndexMode::parse(&"Block".to_string()), None);
}

#[test]
fn every_bad_index_field_is_reported() {
    let raw = DeprecatedRawIndexSettings {
        from: Some(StrOrInt::Str("x".to_string())),
        chunk: Some(StrOrInt::Int(-5)),
        mode: text("random"),
    };
    let e = IndexSettings::from_config_filtered(raw, &root().join("index"), ()).unwrap_err();
    assert_eq!(
        reported(&e),
        vec![
            ("index.from".to_string(), ConfigErrorKind::InvalidValue, "Invalid `from`, expected integer".to_string()),
            ("index.chunk".to_string(), ConfigErrorKind::InvalidValue, "Invalid `chunk`, expected integer".to_string()),
            ("index.mode".to_string(), ConfigErrorKind::InvalidValue, "Invalid mode".to_string()),
        ]
    );
}

#[test]
fn connection_is_resolved_by_its_protocol() {
    let raw = DeprecatedRawChainConnectionConf::Fuel(RawConnectionConf { url: text("http://fuel") });
    let c = ChainConnectionConf::from_config_filtered(raw, &root(), ()).unwrap();
    assert_eq!(c.protocol(), HyperlaneDomainProtocol::Fuel);
    match c {
        ChainConnectionConf::Fuel(p) => assert_eq!(p.url, "http://fuel"),
        other => panic!("{:?}", other),
    }
    let raw = DeprecatedRawChainConnectionConf::Sealevel(RawConnectionConf { url: text("http://sol") });
    let c = ChainConnectionConf::from_config_filtered(raw, &root(), ()).unwrap();
    assert_eq!(c.protocol(), HyperlaneDomainProtocol::Sealevel);
    let raw = DeprecatedRawChainConnectionConf::Ethereum(RawConnectionConf { url: None });
    let e = ChainConnectionConf::from_config_filtered(raw, &root().join("c"), ()).unwrap_err();
    assert_eq!(
        reported(&e),
        vec![("c.connection.url".to_string(), ConfigErrorKind::MissingField, "Missing `url` for connection".to_string())]
    );
}

#[test]
fn unknown_protocol_is_an_unknown_variant() {
    let e = ChainConnectionConf::from_config_filtered(DeprecatedRawChainConnectionConf::Unknown, &root().join("c"), ())
        .unwrap_err();
    assert_eq!(
        reported(&e),
        vec![("c.protocol".to_string(), ConfigErrorKind::UnknownVariant, "Unknown chain protocol".to_string())]
    );
}

#[test]
fn addresses_resolve_together() {
    let a = CoreContractAddresses::from_config_filtered(raw_addresses(), &root(), ()).unwrap();
    assert_eq!(a.mailbox.bytes, [0x11u8; 32]);
    assert_eq!(a.interchain_gas_paymaster.bytes, [0x22u8; 32]);
    assert_eq!(a.validator_announce.bytes, [0x33u8; 32]);
}

#[test]
fn every_bad_address_is_reported() {
    let raw = DeprecatedRawCoreContractAddresses {
        mailbox: None,
        interchain_gas_paymaster: text("0x12"),
        validator_announce: None,
    };
    let e = CoreContractAddresses::from_config_filtered(raw, &root().join("chains").join("foo").join("addresses"), ())
        .unwrap_err();
    assert_eq!(
        reported(&e),
        vec![
            (
                "chains.foo.addresses.mailbox".to_string(),
                ConfigErrorKind::MissingField,
                "Missing mailbox core contract address".to_string()
            ),
            (
                "chains.foo.addresses.interchain_gas_paymaster".to_string(),
                ConfigErrorKind::InvalidValue,
                "Invalid hex string".to_string()
            ),
            (
                "chains.foo.addresses.validator_announce".to_string(),
                ConfigErrorKind::MissingField,
                "Missing validator announce core contract address".to_string()
            ),
        ]
    );
}

#[test]
fn chain_resolves_with_defaults() {
    let c = ChainConf::from_config_filtered(raw_chain("Foo", 7), &root(), ()).unwrap();
    assert_eq!(c.domain.id, 7);
    assert_eq!(c.domain.name, "Foo");
    assert_eq!(c.domain.protocol, HyperlaneDomainProtocol::Ethereum);
    assert_eq!(c.finality_blocks, 0);
    assert_eq!(c.index, IndexSettings { from: 0, chunk_size: 1999, mode: IndexMode::Block });
    assert!(c.signer.is_none());
    assert!(c.metrics_conf.chain.is_none());
    assert_eq!(c.addresses.mailbox.bytes, [0x11u8; 32]);
    assert_eq!(c.connection.protocol(), HyperlaneDomainProtocol::Ethereum);
}

#[test]
fn chain_takes_what_the_document_gives() {
    let mut raw = raw_chain("bar", 1);
    raw.domain = Some(StrOrInt::Str("42".to_string()));
    raw.finality_blocks = Some(StrOrInt::Str("12".to_string()));
    raw.signer = Some(raw_signer(None, None, Some("k1"), Some("r")));
    raw.metrics_conf = Some(PrometheusMiddlewareConf { chain: text("bar-metrics") });
    raw.index = Some(DeprecatedRawIndexSettings { from: Some(StrOrInt::Int(5)), chunk: None, mode: None });
    raw.connection = Some(DeprecatedRawChainConnectionConf::Sealevel(RawConnectionConf { url: text("u") }));
    let c = ChainConf::from_config_filtered(raw, &root(), ()).unwrap();
    assert_eq!(c.domain.id, 42);
    assert_eq!(c.domain.protocol, HyperlaneDomainProtocol::Sealevel);
    assert_eq!(c.finality_blocks, 12);
    assert!(matches!(c.signer, Some(SignerConf::Aws { .. })));
    assert_eq!(c.metrics_conf.chain.as_deref(), Some("bar-metrics"));
    assert_eq!(c.index, IndexSettings { from: 5, chunk_size: 1999, mode: IndexMode::Block });
}

#[test]
fn domain_as_text_and_as_integer_give_the_same_id() {
    let mut a = raw_chain("x", 0);
    a.domain = Some(StrOrInt::Str("42".to_string()));
    let mut b = raw_chain("x", 0);
    b.domain = Some(StrOrInt::Int(42));
    let a = ChainConf::from_config_filtered(a, &root(), ()).unwrap();
    let b = ChainConf::from_config_filtered(b, &root(), ()).unwrap();
    assert_eq!(a.domain.id, 42);
    assert_eq!(a.domain.id, b.domain.id);
}

#[test]
fn two_unrelated_missing_fields_are_both_reported() {
    let mut raw = raw_chain("x", 1);
    raw.name = None;
    raw.addresses = None;
    let e = ChainConf::from_config_filtered(raw, &root().join("chains").join("x"), ()).unwrap_err();
    assert_eq!(
        reported(&e),
        vec![
            (
                "chains.x.name".to_string(),
                ConfigErrorKind::MissingField,
                "Missing domain `name` configuration".to_string()
            ),
            (
                "chains.x.addresses".to_string(),
                ConfigErrorKind::MissingField,
                "Missing `addresses` configuration for core contracts".to_string()
            ),
        ]
    );
}

#[test]
fn chain_reports_everything_at_once() {
    let raw = DeprecatedRawChainConf {
        name: None,
        domain: Some(StrOrInt::Str("seven".to_string())),
        signer: Some(raw_signer(Some("bogus"), None, None, None)),
        finality_blocks: Some(StrOrInt::Int(-1)),
        addresses: Some(DeprecatedRawCoreContractAddresses {
            mailbox: None,
            interchain_gas_paymaster: Some(hex_address(1)),
            validator_announce: Some(hex_address(2)),
        }),
        connection: None,
        metrics_conf: None,
        index: Some(DeprecatedRawIndexSettings { from: None, chunk: None, mode: text("nope") }),
    };
    let e = ChainConf::from_config_filtered(raw, &root().join("c"), ()).unwrap_err();
    let got: Vec<(String, ConfigErrorKind)> = reported(&e).into_iter().map(|(p, k, _)| (p, k)).collect();
    assert_eq!(
        got,
        vec![
            ("c.connection".to_string(), ConfigErrorKind::UnknownVariant),
            ("c.domain".to_string(), ConfigErrorKind::InvalidValue),
            ("c.name".to_string(), ConfigErrorKind::MissingField),
            ("c.addresses.mailbox".to_string(), ConfigErrorKind::MissingField),
            ("c.signer.type".to_string(), ConfigErrorKind::UnknownVariant),
            ("c.finality_blocks".to_string(), ConfigErrorKind::InvalidValue),
            ("c.index.mode".to_string(), ConfigErrorKind::InvalidValue),
        ]
    );
}

#[test]
fn missing_domain_is_reported_once() {
    let mut raw = raw_chain("x", 1);
    raw.domain = None;
    let e = ChainConf::from_config_filtered(raw, &root(), ()).unwrap_err();
    assert_eq!(
        reported(&e),
        vec![("domain".to_string(), ConfigErrorKind::MissingField, "Missing `domain` configuration".to_string())]
    );
}

#[test]
fn settings_default_metrics_and_tracing() {
    let s = Settings::from_config_filtered(raw_settings(vec![]), &root(), None).unwrap();
    assert_eq!(s.metrics_port, 9090);
    assert_eq!(s.tracing, TracingConfig { fmt: Style::Pretty, level: Level::Info });
    assert_eq!(TracingConfig::default(), s.tracing);
    assert!(s.chains.is_empty());
    let none = DeprecatedRawSettings { chains: None, defaultsigner: None, metrics: None, tracing: None };
    let s = Settings::from_config_filtered(none, &root(), None).unwrap();
    assert!(s.chains.is_empty());
}

#[test]
fn settings_take_metrics_and_tracing_from_the_document() {
    let mut raw = raw_settings(vec![]);
    raw.metrics = Some(StrOrInt::Str("8080".to_string()));
    raw.tracing = Some(TracingConfig { fmt: Style::Json, level: Level::Debug });
    let s = Settings::from_config_filtered(raw, &root(), None).unwrap();
    assert_eq!(s.metrics_port, 8080);
    assert_eq!(s.tracing, TracingConfig { fmt: Style::Json, level: Level::Debug });
    let mut raw = raw_settings(vec![]);
    raw.metrics = Some(StrOrInt::Int(70000));
    let e = Settings::from_config_filtered(raw, &root(), None).unwrap_err();
    assert_eq!(
        reported(&e),
        vec![(
            "metrics".to_string(),
            ConfigErrorKind::InvalidValue,
            "Invalid `metrics` port, expected integer".to_string()
        )]
    );
}

#[test]
fn chains_are_keyed_in_lower_case() {
    let raw = raw_settings(vec![("FooBar".to_string(), raw_chain("foobar", 1)), ("ÉTÉ".to_string(), raw_chain("e", 2))]);
    let s = Settings::from_config_filtered(raw, &root(), None).unwrap();
    assert_eq!(keys(&s), vec!["foobar".to_string(), "ÉtÉ".to_string()]);
    assert_eq!(s.chain("foobar").unwrap().domain.id, 1);
    assert!(s.chain("FooBar").is_none());
}

#[test]
fn later_entry_replaces_the_earlier_under_the_same_key() {
    let raw = raw_settings(vec![
        ("Foo".to_string(), raw_chain("foo", 1)),
        ("bar".to_string(), raw_chain("bar", 2)),
        ("foo".to_string(), raw_chain("foo", 3)),
    ]);
    let s = Settings::from_config_filtered(raw, &root(), None).unwrap();
    assert_eq!(keys(&s), vec!["foo".to_string(), "bar".to_string()]);
    assert_eq!(s.chain("foo").unwrap().domain.id, 3);
    assert_eq!(s.chain("bar").unwrap().domain.id, 2);
}

#[test]
fn filter_keeps_only_the_named_chains() {
    let mut broken = raw_chain("b", 2);
    broken.addresses = None;
    broken.connection = None;
    let raw = raw_settings(vec![
        ("a".to_string(), raw_chain("a", 1)),
        ("b".to_string(), broken),
        ("c".to_string(), raw_chain("c", 3)),
    ]);
    let filter = vec!["a".to_string(), "c".to_string()];
    let s = Settings::from_config_filtered(raw, &root(), Some(&filter)).unwrap();
    assert_eq!(keys(&s), vec!["a".to_string(), "c".to_string()]);
}

#[test]
fn filter_compares_names_as_the_document_writes_them() {
    let raw = raw_settings(vec![("Alpha".to_string(), raw_chain("alpha", 1))]);
    let filter = vec!["alpha".to_string()];
    let s = Settings::from_config_filtered(raw, &root(), Some(&filter)).unwrap();
    assert!(s.chains.is_empty());
    let raw = raw_settings(vec![("Alpha".to_string(), raw_chain("alpha", 1))]);
    let filter = vec!["Alpha".to_string()];
    let s = Settings::from_config_filtered(raw, &root(), Some(&filter)).unwrap();
    assert_eq!(keys(&s), vec!["alpha".to_string()]);
}

#[test]
fn default_signer_goes_to_chains_without_one() {
    let mut own = raw_chain("own", 2);
    own.signer = Some(raw_signer(None, Some(KEY), None, None));
    let mut raw = raw_settings(vec![("plain".to_string(), raw_chain("plain", 1)), ("own".to_string(), own)]);
    raw.defaultsigner = Some(raw_signer(None, None, Some("k1"), Some("us-east-1")));
    let s = Settings::from_config_filtered(raw, &root(), None).unwrap();
    match &s.chain("plain").unwrap().signer {
        Some(SignerConf::Aws { id, region }) => {
            assert_eq!(id, "k1");
            assert_eq!(region, "us-east-1");
        }
        other => panic!("{:?}", other),
    }
    match &s.chain("own").unwrap().signer {
        Some(SignerConf::HexKey { key }) => assert_eq!(key.bytes, key_bytes()),
        other => panic!("{:?}", other),
    }
}

#[test]
fn without_default_signer_a_chain_keeps_none() {
    let raw = raw_settings(vec![("plain".to_string(), raw_chain("plain", 1))]);
    let s = Settings::from_config_filtered(raw, &root(), None).unwrap();
    assert!(s.chain("plain").unwrap().signer.is_none());
}

#[test]
fn bad_default_signer_does_not_stop_the_chains() {
    let mut broken = raw_chain("b", 2);
    broken.name = None;
    let mut raw = raw_settings(vec![("b".to_string(), broken)]);
    raw.defaultsigner = Some(raw_signer(Some("bogus"), None, None, None));
    raw.metrics = Some(StrOrInt::Str("port".to_string()));
    let e = Settings::from_config_filtered(raw, &root(), None).unwrap_err();
    let got: Vec<(String, ConfigErrorKind)> = reported(&e).into_iter().map(|(p, k, _)| (p, k)).collect();
    assert_eq!(
        got,
        vec![
            ("defaultsigner.type".to_string(), ConfigErrorKind::UnknownVariant),
            ("chains.b.name".to_string(), ConfigErrorKind::MissingField),
            ("metrics".to_string(), ConfigErrorKind::InvalidValue),
        ]
    );
}

#[test]
fn chain_with_unknown_protocol_is_left_out_and_the_others_resolve() {
    let mut unknown = raw_chain("b", 2);
    unknown.connection = Some(DeprecatedRawChainConnectionConf::Unknown);
    let mut untagged = raw_chain("d", 4);
    untagged.connection = None;
    let entries = vec![
        ("a".to_string(), raw_chain("a", 1)),
        ("b".to_string(), unknown),
        ("c".to_string(), raw_chain("c", 3)),
        ("d".to_string(), untagged),
    ];
    let (chains, errors) =
        config_resolver::settings::resolve_chains(entries, &root().join("chains"), None, &None);
    let names: Vec<&str> = chains.iter().map(|(k, _)| k.as_str()).collect();
    assert_eq!(names, vec!["a", "c"]);
    assert_eq!(
        reported(&errors),
        vec![
            ("chains.b.protocol".to_string(), ConfigErrorKind::UnknownVariant, "Unknown chain protocol".to_string()),
            ("chains.d.connection".to_string(), ConfigErrorKind::UnknownVariant, "Unknown chain protocol".to_string()),
        ]
    );
}

#[test]
fn defects_of_every_chain_reach_the_document() {
    let mut one = raw_chain("one", 1);
    one.domain = None;
    let mut two = raw_chain("two", 2);
    two.addresses = None;
    let raw = raw_settings(vec![("one".to_string(), one), ("two".to_string(), two)]);
    let e = Settings::from_config_filtered(raw, &root(), None).unwrap_err();
    assert!(has(&e, "chains.one.domain", ConfigErrorKind::MissingField));
    assert!(has(&e, "chains.two.addresses", ConfigErrorKind::MissingField));
    assert_eq!(e.len(), 2);
}

#[test]
fn reversed_turns_a_list_round() {
    assert_eq!(config_resolver::settings::reversed(vec![1, 2, 3]), vec![3, 2, 1]);
    assert_eq!(config_resolver::settings::reversed(Vec::<u8>::new()), Vec::<u8>::new());
}

#[test]
fn local_store_with_missing_directory_is_created() {
    let raw = DeprecatedRawCheckpointSyncerConf::LocalStorage { path: text("/tmp/checkpoints/a") };
    let cwp = root().join("checkpointSyncer");
    let path = match CheckpointSyncerConf::from_config_filtered(raw, &cwp, ()) {
        CheckpointSyncerStep::Inspect { path } => path,
        other => panic!("{:?}", other),
    };
    assert_eq!(path, "/tmp/checkpoints/a");
    let path = match CheckpointSyncerConf::after_inspection(path, PathKind::Missing, &cwp) {
        CheckpointSyncerStep::CreateDir { path } => path,
        other => panic!("{:?}", other),
    };
    match CheckpointSyncerConf::after_creation(path, None, &cwp).unwrap() {
        CheckpointSyncerConf::LocalStorage { path } => assert_eq!(path, "/tmp/checkpoints/a"),
        other => panic!("{:?}", other),
    }
}

#[test]
fn local_store_with_directory_is_accepted() {
    match CheckpointSyncerConf::after_inspection("/data".to_string(), PathKind::Directory, &root()) {
        CheckpointSyncerStep::Done(Ok(CheckpointSyncerConf::LocalStorage { path })) => assert_eq!(path, "/data"),
        other => panic!("{:?}", other),
    }
}

#[test]
fn local_store_on_a_regular_file_is_a_filesystem_error() {
    let cwp = root().join("checkpointSyncer");
    match CheckpointSyncerConf::after_inspection("/etc/hosts".to_string(), PathKind::Other, &cwp) {
        CheckpointSyncerStep::Done(Err(e)) => assert_eq!(
            reported(&e),
            vec![(
                "checkpointSyncer.path".to_string(),
                ConfigErrorKind::FilesystemError,
                "LocalStorage checkpoint syncer path is not a directory".to_string()
            )]
        ),
        other => panic!("{:?}", other),
    }
}

#[test]
fn failed_creation_is_reported_with_its_cause() {
    let cwp = root().join("checkpointSyncer");
    let e = CheckpointSyncerConf::after_creation("/root/x".to_string(), text("permission denied"), &cwp).unwrap_err();
    assert_eq!(
        reported(&e),
        vec![(
            "checkpointSyncer.path".to_string(),
            ConfigErrorKind::FilesystemError,
            "Failed to create local checkpoint syncer storage directory at /root/x: permission denied".to_string()
        )]
    );
}

#[test]
fn local_store_needs_a_path() {
    let raw = DeprecatedRawCheckpointSyncerConf::LocalStorage { path: None };
    match CheckpointSyncerConf::from_config_filtered(raw, &root(), ()) {
        CheckpointSyncerStep::Done(Err(e)) => assert_eq!(
            reported(&e),
            vec![(
                "path".to_string(),
                ConfigErrorKind::MissingField,
                "Missing `path` for LocalStorage checkpoint syncer".to_string()
            )]
        ),
        other => panic!("{:?}", other),
    }
}

#[test]
fn remote_store_needs_bucket_and_region() {
    let raw = DeprecatedRawCheckpointSyncerConf::S3 { bucket: text("b"), region: text("r"), folder: text("f") };
    match CheckpointSyncerConf::from_config_filtered(raw, &root(), ()) {
        CheckpointSyncerStep::Done(Ok(CheckpointSyncerConf::S3 { bucket, folder, region })) => {
            assert_eq!(bucket, "b");
            assert_eq!(region, "r");
            assert_eq!(folder.as_deref(), Some("f"));
        }
        other => panic!("{:?}", other),
    }
    let raw = DeprecatedRawCheckpointSyncerConf::S3 { bucket: None, region: None, folder: None };
    match CheckpointSyncerConf::from_config_filtered(raw, &root(), ()) {
        CheckpointSyncerStep::Done(Err(e)) => assert_eq!(
            reported(&e),
            vec![
                (
                    "bucket".to_string(),
                    ConfigErrorKind::MissingField,
                    "Missing `bucket` for S3 checkpoint syncer".to_string()
                ),
                (
                    "region".to_string(),
                    ConfigErrorKind::MissingField,
                    "Missing `region` for S3 checkpoint syncer".to_string()
                ),
            ]
        ),
        other => panic!("{:?}", other),
    }
}

#[test]
fn unknown_store_type_is_an_unknown_variant() {
    match CheckpointSyncerConf::from_config_filtered(DeprecatedRawCheckpointSyncerConf::Unknown, &root(), ()) {
        CheckpointSyncerStep::Done(Err(e)) => assert_eq!(
            reported(&e),
            vec![(
                "type".to_string(),
                ConfigErrorKind::UnknownVariant,
                "Missing `type` for checkpoint syncer".to_string()
            )]
        ),
        other => panic!("{:?}", other),
    }
}

#[test]
fn empty_chain_reports_connection_domain_name_and_addresses() {
    let raw = DeprecatedRawChainConf {
        name: None,
        domain: None,
        signer: None,
        finality_blocks: None,
        addresses: None,
        connection: None,
        metrics_conf: None,
        index: None,
    };
    let e = ChainConf::from_config_filtered(raw, &root(), ()).unwrap_err();
    assert_eq!(
        reported(&e),
        vec![
            ("connection".to_string(), ConfigErrorKind::UnknownVariant, "Unknown chain protocol".to_string()),
            ("domain".to_string(), ConfigErrorKind::MissingField, "Missing `domain` configuration".to_string()),
            ("name".to_string(), ConfigErrorKind::MissingField, "Missing domain `name` configuration".to_string()),
            (
                "addresses".to_string(),
                ConfigErrorKind::MissingField,
                "Missing `addresses` configuration for core contracts".to_string()
            ),
        ]
    );
}

#[test]
fn chain_without_protocol_tag_fails_at_its_connection() {
    let mut raw = raw_chain("x", 1);
    raw.connection = None;
    let e = ChainConf::from_config_filtered(raw, &root().join("chains").join("x"), ()).unwrap_err();
    assert_eq!(
        reported(&e),
        vec![(
            "chains.x.connection".to_string(),
            ConfigErrorKind::UnknownVariant,
            "Unknown chain protocol".to_string()
        )]
    );
    let mut raw = raw_chain("x", 1);
    raw.connection = Some(DeprecatedRawChainConnectionConf::Unknown);
    let e = ChainConf::from_config_filtered(raw, &root().join("chains").join("x"), ()).unwrap_err();
    assert_eq!(
        reported(&e),
        vec![(
            "chains.x.protocol".to_string(),
            ConfigErrorKind::UnknownVariant,
            "Unknown chain protocol".to_string()
        )]
    );
}

#[test]
fn default_signer_reaches_a_chain_at_any_place() {
    let mut own = raw_chain("own", 2);
    own.signer = Some(DeprecatedRawSignerConf::default());
    let mut raw = raw_settings(vec![
        ("first".to_string(), raw_chain("first", 1)),
        ("own".to_string(), own),
        ("Middle".to_string(), raw_chain("middle", 3)),
        ("last".to_string(), raw_chain("last", 4)),
    ]);
    raw.defaultsigner = Some(raw_signer(None, Some(KEY), None, None));
    let s = Settings::from_config_filtered(raw, &root(), None).unwrap();
    for name in ["first", "middle", "last"] {
        match &s.chain(name).unwrap().signer {
            Some(SignerConf::HexKey { key }) => assert_eq!(key.bytes, key_bytes()),
            other => panic!("{}: {:?}", name, other),
        }
    }
    assert!(matches!(s.chain("own").unwrap().signer, Some(SignerConf::Node)));
}

#[test]
fn nothing_is_reported_under_a_dropped_chain() {
    let mut dropped = raw_chain("b", 2);
    dropped.addresses = None;
    dropped.domain = None;
    let mut kept = raw_chain("c", 3);
    kept.name = None;
    let raw = raw_settings(vec![
        ("a".to_string(), raw_chain("a", 1)),
        ("b".to_string(), dropped),
        ("c".to_string(), kept),
    ]);
    let filter = vec!["a".to_string(), "c".to_string()];
    let e = Settings::from_config_filtered(raw, &root(), Some(&filter)).unwrap_err();
    assert_eq!(
        reported(&e),
        vec![(
            "chains.c.name".to_string(),
            ConfigErrorKind::MissingField,
            "Missing domain `name` configuration".to_string()
        )]
    );
    assert!(e.errors.iter().all(|d| !d.path.to_dotted().starts_with("chains.b")));
}

#[test]
fn decimal_is_read_up_to_its_bound() {
    assert_eq!(parse_decimal("0", 0), Some(0));
    assert_eq!(parse_decimal("1", 0), None);
    assert_eq!(parse_decimal("+12", 12), Some(12));
    assert_eq!(parse_decimal("13", 12), None);
    assert_eq!(parse_decimal("1999", u32::MAX), Some(1999));
    assert_eq!(parse_decimal("4294967295", u32::MAX), Some(4294967295));
    assert_eq!(parse_decimal("4294967296", u32::MAX), None);
    assert_eq!(parse_decimal("99999999999999999999999999", u32::MAX), None);
    assert_eq!(parse_decimal("0000000000000000000000042", u32::MAX), Some(42));
    assert_eq!(parse_decimal("++1", u32::MAX), None);
    assert_eq!(parse_decimal("1+", u32::MAX), None);
    assert_eq!(parse_decimal("12a", u32::MAX), None);
    assert_eq!(parse_decimal("1２", u32::MAX), None);
    assert_eq!(parse_decimal("é", u32::MAX), None);
}

#[test]
fn decimal_agrees_with_the_standard_reading() {
    let texts = [
        "", "+", "-", "0", "+0", "-0", "7", "+7", "42", "042", "65535", "65536", "4294967295", "4294967296", "1e3",
        "0x1", " 1", "1 ", "1_0", "١", "+-1", "12345678901234567890",
    ];
    for t in texts {
        assert_eq!(StrOrInt::Str(t.to_string()).to_u32(), t.parse::<u32>().ok(), "{:?}", t);
        assert_eq!(StrOrInt::Str(t.to_string()).to_u16(), t.parse::<u16>().ok(), "{:?}", t);
    }
}
