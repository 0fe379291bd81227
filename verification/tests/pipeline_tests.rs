use jit_maker::BulkOrderParams;
use jit_maker::accounts::AccountError;
use jit_maker::accounts::AccountHandle;
use jit_maker::accounts::keys_equal;
use jit_maker::accounts::resolve;
use jit_maker::codec::DecodeError;
use jit_maker::codec::decode;
use jit_maker::codec::encode;
use jit_maker::order::MarketType;
use jit_maker::order::OrderDescriptor;
use jit_maker::order::build;
use jit_maker::order::encode_descriptor;
use jit_maker::pipeline::Entrypoint;
use jit_maker::pipeline::PipelineError;
use jit_maker::pipeline::prepare;

fn acct(key: u8, owner: u8, is_signer: bool, is_writable: bool) -> AccountHandle {
    AccountHandle { key: vec![key; 32], owner: vec![owner; 32], is_signer, is_writable }
}

/// A correctly ordered, correctly flagged account list: `state`, `user`,
/// `authority`, `taker`, `taker_stats`, `user_stats`, `external_program`.
fn full_list() -> Vec<AccountHandle> {
    vec![
        acct(10, 99, false, false),
        acct(11, 99, false, true),
        acct(12, 7, true, false),
        acct(13, 7, false, true),
        acct(14, 99, false, true),
        acct(15, 99, false, true),
        acct(99, 7, false, false),
    ]
}

fn sample_request() -> BulkOrderParams {
    BulkOrderParams {
        market_index: 3,
        order_type: 1,
        direction: 0,
        base_asset_amount: 250_000,
        price: 41_999,
    }
}

#[test]
fn it_works() {
    let result = jit_maker::add(2, 2);
    assert_eq!(result, 4);
}

#[test]
fn encode_writes_fixed_width_little_endian() {
    let q = BulkOrderParams {
        market_index: 1,
        order_type: 2,
        direction: 3,
        base_asset_amount: 4,
        price: 0x0102,
    };
    let bytes = encode(&q);
    let expected: Vec<u8> = vec![
        1, 0, 0, 0, 0, 0, 0, 0, // market_index
        2, // order_type
        3, // direction
        4, 0, 0, 0, 0, 0, 0, 0, // base_asset_amount
        0x02, 0x01, 0, 0, 0, 0, 0, 0, // price
    ];
    assert_eq!(bytes, expected);
}

#[test]
fn decode_reconstructs_all_five_fields() {
    let q = BulkOrderParams {
        market_index: u64::MAX,
        order_type: 255,
        direction: 1,
        base_asset_amount: 0x1122334455667788,
        price: 12,
    };
    let bytes = encode(&q);
    assert_eq!(bytes.len(), 26);
    let back = decode(&bytes).unwrap();
    assert_eq!(back.market_index, u64::MAX);
    assert_eq!(back.order_type, 255);
    assert_eq!(back.direction, 1);
    assert_eq!(back.base_asset_amount, 0x1122334455667788);
    assert_eq!(back.price, 12);
}

#[test]
fn decode_rejects_short_payload() {
    let payload: Vec<u8> = vec![0; 25];
    assert_eq!(decode(&payload), Err(DecodeError::Malformed));
}

#[test]
fn decode_rejects_long_payload() {
    let payload: Vec<u8> = vec![0; 27];
    assert_eq!(decode(&payload), Err(DecodeError::Malformed));
}

#[test]
fn decode_rejects_empty_payload() {
    let payload: Vec<u8> = Vec::new();
    assert_eq!(decode(&payload), Err(DecodeError::Malformed));
}

#[test]
fn build_applies_fixed_policy() {
    let d = build(&sample_request());
    assert!(d.immediate_or_cancel);
    assert!(!d.reduce_only);
    assert!(!d.post_only);
    assert_eq!(d.market_type, MarketType::Perp);
    assert_eq!(d.user_order_id, 0);
    assert_eq!(d.max_ts, None);
    assert_eq!(d.trigger_price, None);
    assert_eq!(d.trigger_condition, None);
    assert_eq!(d.oracle_price_offset, None);
    assert_eq!(d.auction_duration, None);
    assert_eq!(d.auction_start_price, None);
    assert_eq!(d.auction_end_price, None);
}

#[test]
fn build_passes_request_fields_through() {
    let q = sample_request();
    let d = build(&q);
    assert_eq!(d.market_index, q.market_index);
    assert_eq!(d.order_type, q.order_type);
    assert_eq!(d.direction, q.direction);
    assert_eq!(d.base_asset_amount, q.base_asset_amount);
    assert_eq!(d.price, q.price);
}

#[test]
fn keys_equal_compares_byte_for_byte() {
    let a: Vec<u8> = vec![1, 2, 3];
    let b: Vec<u8> = vec![1, 2, 3];
    let c: Vec<u8> = vec![1, 2, 4];
    let d: Vec<u8> = vec![1, 2];
    assert!(keys_equal(&a, &b));
    assert!(!keys_equal(&a, &c));
    assert!(!keys_equal(&a, &d));
}

#[test]
fn resolve_rejects_empty_list() {
    assert_eq!(resolve(Vec::new()).unwrap_err(), AccountError::MissingAccount);
}

#[test]
fn resolve_rejects_short_list() {
    let mut accounts = full_list();
    accounts.pop();
    assert_eq!(resolve(accounts).unwrap_err(), AccountError::MissingAccount);
}

#[test]
fn resolve_rejects_unsigned_authority() {
    let mut accounts = full_list();
    accounts[2].is_signer = false;
    assert_eq!(resolve(accounts).unwrap_err(), AccountError::MissingSigner);
}

#[test]
fn resolve_rejects_foreign_owner() {
    let mut accounts = full_list();
    accounts[0].owner = vec![98; 32];
    assert_eq!(resolve(accounts).unwrap_err(), AccountError::InvalidOwner);
}

#[test]
fn resolve_rejects_read_only_mutated_account() {
    let mut accounts = full_list();
    accounts[3].is_writable = false;
    assert_eq!(resolve(accounts).unwrap_err(), AccountError::NotWritable);
}

#[test]
fn resolve_binds_roles_by_position_and_keeps_tail() {
    let mut accounts = full_list();
    accounts.push(acct(50, 7, false, false));
    accounts.push(acct(51, 7, false, true));
    let ctx = resolve(accounts).unwrap();
    assert_eq!(ctx.state.key, vec![10; 32]);
    assert_eq!(ctx.user.key, vec![11; 32]);
    assert_eq!(ctx.authority.key, vec![12; 32]);
    assert_eq!(ctx.taker.key, vec![13; 32]);
    assert_eq!(ctx.taker_stats.key, vec![14; 32]);
    assert_eq!(ctx.user_stats.key, vec![15; 32]);
    assert_eq!(ctx.external_program.key, vec![99; 32]);
    assert_eq!(ctx.remaining_accounts.len(), 2);
    assert_eq!(ctx.remaining_accounts[0].key, vec![50; 32]);
    assert_eq!(ctx.remaining_accounts[1].key, vec![51; 32]);
}

#[test]
fn scenario_complete_list_places_perp_order() {
    let payload = encode(&BulkOrderParams {
        market_index: 0,
        order_type: 0,
        direction: 0,
        base_asset_amount: 1_000_000,
        price: 0,
    });
    let mut accounts = full_list();
    accounts.push(acct(60, 7, false, false));
    let plan = prepare(&payload, accounts).unwrap();
    assert_eq!(plan.entrypoint, Entrypoint::PlaceAndMakePerpOrder);
    assert_eq!(plan.descriptor.base_asset_amount, 1_000_000);
    assert_eq!(plan.descriptor.price, 0);
    assert!(plan.descriptor.immediate_or_cancel);
    assert_eq!(plan.accounts.len(), 8);
    assert_eq!(plan.accounts[0].key, vec![10; 32]); // state
    assert_eq!(plan.accounts[1].key, vec![11; 32]); // user
    assert_eq!(plan.accounts[2].key, vec![15; 32]); // user_stats
    assert_eq!(plan.accounts[3].key, vec![12; 32]); // authority
    assert_eq!(plan.accounts[4].key, vec![13; 32]); // taker
    assert_eq!(plan.accounts[5].key, vec![14; 32]); // taker_stats
    assert_eq!(plan.accounts[6].key, vec![99; 32]); // external program
    assert_eq!(plan.accounts[7].key, vec![60; 32]); // tail, unchanged
}

#[test]
fn scenario_missing_authority_stops_before_any_call() {
    let payload = encode(&BulkOrderParams {
        market_index: 0,
        order_type: 0,
        direction: 0,
        base_asset_amount: 1_000_000,
        price: 0,
    });
    // same list, with the authority account left out
    let mut accounts = full_list();
    accounts.remove(2);
    let r = prepare(&payload, accounts);
    assert!(matches!(r, Err(PipelineError::Account(AccountError::MissingAccount))));
}

#[test]
fn scenario_unknown_order_type_code_passes_through_unchanged() {
    // the pipeline defers domain validation to the downstream protocol, but
    // must never recategorize the code on the way
    let payload = encode(&BulkOrderParams {
        market_index: 2,
        order_type: 255,
        direction: 0,
        base_asset_amount: 10,
        price: 1,
    });
    let plan = prepare(&payload, full_list()).unwrap();
    assert_eq!(plan.descriptor.order_type, 255);
    assert_eq!(plan.descriptor.market_type, MarketType::Perp);
    assert_eq!(plan.entrypoint, Entrypoint::PlaceAndMakePerpOrder);
}

#[test]
fn prepare_reports_malformed_payload_first() {
    let payload: Vec<u8> = vec![1, 2, 3];
    let r = prepare(&payload, Vec::new());
    assert!(matches!(r, Err(PipelineError::Decode(DecodeError::Malformed))));
}

#[test]
fn descriptor_bytes_match_declared_layout() {
    let d = build(&BulkOrderParams {
        market_index: 6,
        order_type: 4,
        direction: 1,
        base_asset_amount: 5,
        price: 0x0304,
    });
    let bytes = encode_descriptor(&d);
    let expected: Vec<u8> = vec![
        4, // order_type
        0, // market_type: perp
        1, // direction
        0, // user_order_id
        5, 0, 0, 0, 0, 0, 0, 0, // base_asset_amount
        0x04, 0x03, 0, 0, 0, 0, 0, 0, // price
        6, 0, 0, 0, 0, 0, 0, 0, // market_index
        0, // reduce_only
        0, // post_only
        1, // immediate_or_cancel
        0, 0, 0, 0, 0, 0, 0, // seven absent optional fields
    ];
    assert_eq!(bytes, expected);
}

#[test]
fn descriptor_bytes_carry_present_optional_fields() {
    let mut d: OrderDescriptor = build(&sample_request());
    d.max_ts = Some(-1);
    d.trigger_condition = Some(2);
    d.oracle_price_offset = Some(-2);
    let bytes = encode_descriptor(&d);
    // the three present fields sit after the three policy flags
    let tail: &[u8] = &bytes[31..];
    let expected_tail: Vec<u8> = vec![
        1, 0xFF, 0xFF, 0xFF, 0xFF, 0xFF, 0xFF, 0xFF, 0xFF, // max_ts = -1
        0, // trigger_price absent
        1, 2, // trigger_condition = 2
        1, 0xFE, 0xFF, 0xFF, 0xFF, // oracle_price_offset = -2
        0, // auction_duration absent
        0, // auction_start_price absent
        0, // auction_end_price absent
    ];
    assert_eq!(tail, expected_tail.as_slice());
}
