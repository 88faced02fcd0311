use spot_sbe::BoolEnum;
use spot_sbe::ExecutionReportEventDecoder;
use spot_sbe::ExecutionReportEventEncoder;
use spot_sbe::ExecutionType;
use spot_sbe::Floor;
use spot_sbe::MatchType;
use spot_sbe::MessageHeaderDecoder;
use spot_sbe::OrderCapacity;
use spot_sbe::OrderSide;
use spot_sbe::OrderStatus;
use spot_sbe::OrderType;
use spot_sbe::ReadBuf;
use spot_sbe::SelfTradePreventionMode;
use spot_sbe::TimeInForce;
use spot_sbe::WriteBuf;

#[test]
fn execution_report_round_trip() {
    let buf = WriteBuf::new(vec![0u8; 512]);
    let enc = ExecutionReportEventEncoder::default().wrap(buf, 8).unwrap();
    let mut header = enc.header(0).unwrap();
    let mut enc = header.parent().unwrap();
    enc.event_time(1);
    enc.transact_time(2);
    enc.price_exponent(-8);
    enc.qty_exponent(-3);
    enc.commission_exponent(-2);
    enc.order_creation_time(3);
    enc.working_time(4);
    enc.order_id(5);
    enc.order_list_id(i64::MIN); // absent
    enc.orig_qty(6);
    enc.price(7);
    enc.orig_quote_order_qty(8);
    enc.iceberg_qty(9);
    enc.stop_price(10);
    enc.order_type(OrderType::Limit);
    enc.side(OrderSide::Buy);
    enc.time_in_force(TimeInForce::Gtc);
    enc.execution_type(ExecutionType::Trade);
    enc.order_status(OrderStatus::Filled);
    enc.trade_id(11);
    enc.execution_id(12);
    enc.executed_qty(13);
    enc.cummulative_quote_qty(14);
    enc.last_qty(15);
    enc.last_price(16);
    enc.quote_qty(17);
    enc.commission(18);
    enc.is_working(BoolEnum::True);
    enc.is_maker(BoolEnum::False);
    enc.is_best_match(BoolEnum::True);
    enc.match_type(MatchType::AutoMatch);
    enc.self_trade_prevention_mode(SelfTradePreventionMode::ExpireTaker);
    enc.order_capacity(OrderCapacity::Principal);
    enc.working_floor(Floor::Exchange);
    enc.used_sor(BoolEnum::False);
    enc.alloc_id(19);
    enc.trailing_delta(u64::MAX); // absent
    enc.trailing_time(20);
    enc.trade_group_id(21);
    enc.prevented_qty(22);
    enc.last_prevented_qty(23);
    enc.prevented_match_id(24);
    enc.prevented_execution_qty(25);
    enc.prevented_execution_price(26);
    enc.prevented_execution_quote_qty(27);
    enc.strategy_type(i32::MIN); // absent
    enc.strategy_id(28);
    enc.counter_order_id(29);
    enc.symbol(b"BTCUSDT").unwrap();
    enc.client_order_id(b"client-1").unwrap();
    enc.orig_client_order_id(b"").unwrap();
    enc.commission_asset(b"BNB").unwrap();
    enc.reject_reason(b"none").unwrap();
    enc.counter_symbol(b"ETHBTC").unwrap();
    let bytes = enc.into_writebuf().into_inner();

    assert_eq!(&bytes[0..8], &[12, 1, 91, 2, 2, 0, 1, 0]); // 268 = 0x10c, 603 = 0x25b
    let buf = ReadBuf::new(&bytes);
    let header = MessageHeaderDecoder::default().wrap(buf, 0).unwrap();
    let mut dec = ExecutionReportEventDecoder::default().header(header).unwrap();
    assert_eq!(dec.event_time().unwrap(), 1);
    assert_eq!(dec.transact_time().unwrap(), 2);
    assert_eq!(dec.price_exponent().unwrap(), -8);
    assert_eq!(dec.qty_exponent().unwrap(), -3);
    assert_eq!(dec.commission_exponent().unwrap(), -2);
    assert_eq!(dec.order_creation_time().unwrap(), 3);
    assert_eq!(dec.working_time().unwrap(), Some(4));
    assert_eq!(dec.order_id().unwrap(), 5);
    assert_eq!(dec.order_list_id().unwrap(), None);
    assert_eq!(dec.orig_qty().unwrap(), 6);
    assert_eq!(dec.price().unwrap(), 7);
    assert_eq!(dec.orig_quote_order_qty().unwrap(), 8);
    assert_eq!(dec.iceberg_qty().unwrap(), 9);
    assert_eq!(dec.stop_price().unwrap(), 10);
    assert_eq!(dec.order_type().unwrap(), OrderType::Limit);
    assert_eq!(dec.side().unwrap(), OrderSide::Buy);
    assert_eq!(dec.time_in_force().unwrap(), TimeInForce::Gtc);
    assert_eq!(dec.execution_type().unwrap(), ExecutionType::Trade);
    assert_eq!(dec.order_status().unwrap(), OrderStatus::Filled);
    assert_eq!(dec.trade_id().unwrap(), Some(11));
    assert_eq!(dec.execution_id().unwrap(), 12);
    assert_eq!(dec.executed_qty().unwrap(), 13);
    assert_eq!(dec.cummulative_quote_qty().unwrap(), 14);
    assert_eq!(dec.last_qty().unwrap(), 15);
    assert_eq!(dec.last_price().unwrap(), 16);
    assert_eq!(dec.quote_qty().unwrap(), 17);
    assert_eq!(dec.commission().unwrap(), 18);
    assert_eq!(dec.is_working().unwrap(), BoolEnum::True);
    assert_eq!(dec.is_maker().unwrap(), BoolEnum::False);
    assert_eq!(dec.is_best_match().unwrap(), BoolEnum::True);
    assert_eq!(dec.match_type().unwrap(), MatchType::AutoMatch);
    assert_eq!(
        dec.self_trade_prevention_mode().unwrap(),
        SelfTradePreventionMode::ExpireTaker
    );
    assert_eq!(dec.order_capacity().unwrap(), OrderCapacity::Principal);
    assert_eq!(dec.working_floor().unwrap(), Floor::Exchange);
    assert_eq!(dec.used_sor().unwrap(), BoolEnum::False);
    assert_eq!(dec.alloc_id().unwrap(), Some(19));
    assert_eq!(dec.trailing_delta().unwrap(), None);
    assert_eq!(dec.trailing_time().unwrap(), Some(20));
    assert_eq!(dec.trade_group_id().unwrap(), Some(21));
    assert_eq!(dec.prevented_qty().unwrap(), Some(22));
    assert_eq!(dec.last_prevented_qty().unwrap(), Some(23));
    assert_eq!(dec.prevented_match_id().unwrap(), Some(24));
    assert_eq!(dec.prevented_execution_qty().unwrap(), Some(25));
    assert_eq!(dec.prevented_execution_price().unwrap(), Some(26));
    assert_eq!(dec.prevented_execution_quote_qty().unwrap(), Some(27));
    assert_eq!(dec.strategy_type().unwrap(), None);
    assert_eq!(dec.strategy_id().unwrap(), Some(28));
    assert_eq!(dec.counter_order_id().unwrap(), Some(29));
    let c = dec.symbol_decoder().unwrap();
    assert_eq!(dec.symbol_slice(c), &b"BTCUSDT"[..]);
    let c = dec.client_order_id_decoder().unwrap();
    assert_eq!(dec.client_order_id_slice(c), &b"client-1"[..]);
    let c = dec.orig_client_order_id_decoder().unwrap();
    assert_eq!(dec.orig_client_order_id_slice(c), &b""[..]);
    let c = dec.commission_asset_decoder().unwrap();
    assert_eq!(dec.commission_asset_slice(c), &b"BNB"[..]);
    let c = dec.reject_reason_decoder().unwrap();
    assert_eq!(dec.reject_reason_slice(c), &b"none"[..]);
    let c = dec.counter_symbol_decoder().unwrap();
    assert_eq!(dec.counter_symbol_slice(c), &b"ETHBTC"[..]);
}

#[test]
fn optional_null_sentinels_decode_to_absent() {
    let buf = WriteBuf::new(vec![0u8; 512]);
    let mut enc = ExecutionReportEventEncoder::default().wrap(buf, 8).unwrap();
    enc.working_time(i64::MIN);
    enc.trailing_delta(u64::MAX);
    enc.strategy_type(i32::MIN);
    // values one off from the sentinels stay present
    enc.trade_id(i64::MIN + 1);
    enc.alloc_id(i64::MAX);
    let bytes = enc.into_writebuf().into_inner();

    let buf = ReadBuf::new(&bytes);
    let dec = ExecutionReportEventDecoder::default().wrap(buf, 8, 268, 1).unwrap();
    assert_eq!(dec.working_time().unwrap(), None);
    assert_eq!(dec.trailing_delta().unwrap(), None);
    assert_eq!(dec.strategy_type().unwrap(), None);
    assert_eq!(dec.trade_id().unwrap(), Some(i64::MIN + 1));
    assert_eq!(dec.alloc_id().unwrap(), Some(i64::MAX));
}

#[test]
fn old_payload_yields_default_for_gated_field() {
    // a version-0 payload: the decoder must hand back the documented
    // null value for the field introduced at version 1 without touching
    // the buffer
    let mut bytes = vec![0u8; 8 + 268];
    bytes[0] = 12;
    bytes[1] = 1; // block length 268
    bytes[2] = 91;
    bytes[3] = 2; // template id 603
    bytes[4] = 2; // schema id
    bytes[6] = 0; // acting version 0
    bytes[8 + 94] = 4; // the byte would say "trade" if it were read
    bytes[8 + 104] = 7; // the bytes would say 7 if they were read
    let buf = ReadBuf::new(&bytes);
    let header = MessageHeaderDecoder::default().wrap(buf, 0).unwrap();
    let dec = ExecutionReportEventDecoder::default().header(header).unwrap();
    assert_eq!(dec.acting_version, 0);
    assert_eq!(dec.execution_type().unwrap(), ExecutionType::NullVal);
    assert_eq!(dec.execution_id().unwrap(), i64::MIN);
    // with the current version the same bytes are read
    let buf2 = ReadBuf::new(&bytes);
    let dec2 = ExecutionReportEventDecoder::default().wrap(buf2, 8, 268, 1).unwrap();
    assert_eq!(dec2.execution_type().unwrap(), ExecutionType::Trade);
    assert_eq!(dec2.execution_id().unwrap(), 7);
}

#[test]
fn old_short_payload_never_reads_out_of_bounds() {
    // a version-0 payload that is also shorter than today's block: the
    // gated field still comes back as the default, and a field that
    // lies beyond the declared block reports a bounds error
    let mut bytes = vec![0u8; 8 + 94];
    bytes[0] = 94; // block length 94
    bytes[2] = 91;
    bytes[3] = 2;
    bytes[4] = 2;
    bytes[6] = 0; // acting version 0
    let buf = ReadBuf::new(&bytes);
    let header = MessageHeaderDecoder::default().wrap(buf, 0).unwrap();
    let dec = ExecutionReportEventDecoder::default().header(header).unwrap();
    assert_eq!(dec.execution_type().unwrap(), ExecutionType::NullVal);
    assert_eq!(dec.execution_id().unwrap(), i64::MIN);
    assert_eq!(dec.event_time().unwrap(), 0);
    assert!(dec.order_status().is_err());
}

#[test]
fn unknown_enum_bytes_decode_to_null_forward_compatibly() {
    let mut bytes = vec![0u8; 8 + 268];
    bytes[0] = 12;
    bytes[1] = 1;
    bytes[2] = 91;
    bytes[3] = 2;
    bytes[4] = 2;
    bytes[6] = 1;
    bytes[8 + 91] = 0xee; // unknown order type byte
    bytes[8 + 94] = 0xfe; // the reserved "unknown" execution type byte
    let buf = ReadBuf::new(&bytes);
    let dec = ExecutionReportEventDecoder::default()
        .header(MessageHeaderDecoder::default().wrap(buf, 0).unwrap())
        .unwrap();
    assert_eq!(dec.order_type().unwrap(), OrderType::NullVal);
    assert_eq!(dec.execution_type().unwrap(), ExecutionType::Unknown);
}
