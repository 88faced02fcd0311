use spot_sbe::list_status_event_codec::OrdersDecoder;
use spot_sbe::list_status_event_codec::OrdersEncoder;
use spot_sbe::klines_response_codec::KlinesDecoder;
use spot_sbe::klines_response_codec::KlinesEncoder;
use spot_sbe::ContingencyType;
use spot_sbe::KlinesResponseDecoder;
use spot_sbe::KlinesResponseEncoder;
use spot_sbe::ListOrderStatus;
use spot_sbe::ListStatusEventDecoder;
use spot_sbe::ListStatusEventEncoder;
use spot_sbe::ListStatusType;
use spot_sbe::MessageHeaderDecoder;
use spot_sbe::ReadBuf;
use spot_sbe::SbeErr;
use spot_sbe::WriteBuf;

#[test]
fn group_advance_visits_exactly_count_elements() {
    let buf = WriteBuf::new(vec![0u8; 1024]);
    let enc = KlinesResponseEncoder::default().wrap(buf, 8).unwrap();
    let mut header = enc.header(0).unwrap();
    let enc = header.parent().unwrap();
    let mut klines = enc.klines_encoder(3, KlinesEncoder::default()).unwrap();
    assert_eq!(klines.advance().unwrap(), Some(0));
    klines.open_time(100).unwrap();
    assert_eq!(klines.advance().unwrap(), Some(1));
    klines.open_time(200).unwrap();
    assert_eq!(klines.advance().unwrap(), Some(2));
    klines.open_time(300).unwrap();
    // the (count + 1)-th call reports done, and stays done
    assert_eq!(klines.advance().unwrap(), None);
    assert_eq!(klines.advance().unwrap(), None);
    let enc = klines.parent().unwrap();
    let bytes = enc.into_writebuf().into_inner();

    let buf = ReadBuf::new(&bytes);
    let header = MessageHeaderDecoder::default().wrap(buf, 0).unwrap();
    let dec = KlinesResponseDecoder::default().header(header).unwrap();
    let mut klines = dec.klines_decoder().unwrap();
    assert_eq!(klines.count(), 3);
    assert_eq!(klines.advance().unwrap(), Some(0));
    assert_eq!(klines.open_time().unwrap(), 100);
    assert_eq!(klines.advance().unwrap(), Some(1));
    assert_eq!(klines.open_time().unwrap(), 200);
    assert_eq!(klines.advance().unwrap(), Some(2));
    assert_eq!(klines.open_time().unwrap(), 300);
    assert_eq!(klines.advance().unwrap(), None);
    assert_eq!(klines.advance().unwrap(), None);
    let _ = klines.parent().unwrap();
}

#[test]
fn group_with_count_zero_is_valid() {
    let buf = WriteBuf::new(vec![0u8; 64]);
    let enc = KlinesResponseEncoder::default().wrap(buf, 8).unwrap();
    let mut klines = enc.klines_encoder(0, KlinesEncoder::default()).unwrap();
    assert_eq!(klines.advance().unwrap(), None);
    let enc = klines.parent().unwrap();
    let bytes = enc.into_writebuf().into_inner();

    let buf = ReadBuf::new(&bytes);
    let dec = KlinesResponseDecoder::default()
        .wrap(buf, 8, 2, 1)
        .unwrap();
    let mut klines = dec.klines_decoder().unwrap();
    assert_eq!(klines.count(), 0);
    // zero advances, then parent(): never reads past the dimension header
    assert_eq!(klines.advance().unwrap(), None);
    let _ = klines.parent().unwrap();
}

#[test]
fn group_methods_after_parent_release_are_reported() {
    let buf = WriteBuf::new(vec![0u8; 256]);
    let enc = KlinesResponseEncoder::default().wrap(buf, 8).unwrap();
    let mut klines = enc.klines_encoder(2, KlinesEncoder::default()).unwrap();
    klines.advance().unwrap();
    let _enc = klines.parent().unwrap();
    // the group no longer owns a parent: everything reports that
    assert_eq!(klines.advance().err().unwrap(), SbeErr::ParentNotSet);
    assert_eq!(klines.open_time(5).err().unwrap(), SbeErr::ParentNotSet);
    assert_eq!(klines.parent().err().unwrap(), SbeErr::ParentNotSet);
}

#[test]
fn group_advance_past_buffer_end_is_reported() {
    // a dimension header that promises more elements than the buffer holds
    let mut bytes = vec![0u8; 8 + 2 + 6 + 120];
    bytes[0] = 2; // block length
    bytes[2] = 203; // template id 203
    bytes[4] = 2;
    bytes[6] = 1;
    bytes[10] = 120; // element block length
    bytes[12] = 9; // count = 9, but room for barely one element
    let buf = ReadBuf::new(&bytes);
    let header = MessageHeaderDecoder::default().wrap(buf, 0).unwrap();
    let dec = KlinesResponseDecoder::default().header(header).unwrap();
    let mut klines = dec.klines_decoder().unwrap();
    assert_eq!(klines.count(), 9);
    assert_eq!(klines.advance().unwrap(), Some(0));
    assert_eq!(klines.advance().err().unwrap(), SbeErr::BufferOverrun);
}

#[test]
fn list_status_scenario_two_orders_and_var_data() {
    // one u16-count group with two elements holding 10 and -10, then a
    // trailing variable-length field "abc"
    let buf = WriteBuf::new(vec![0u8; 256]);
    let enc = ListStatusEventEncoder::default().wrap(buf, 8).unwrap();
    let mut header = enc.header(0).unwrap();
    let mut enc = header.parent().unwrap();
    enc.event_time(111);
    enc.transact_time(222);
    enc.order_list_id(333);
    enc.contingency_type(ContingencyType::Oco);
    enc.list_status_type(ListStatusType::ExecStarted);
    enc.list_order_status(ListOrderStatus::Executing);
    let mut orders = enc.orders_encoder(2, OrdersEncoder::default()).unwrap();
    assert_eq!(orders.advance().unwrap(), Some(0));
    orders.order_id(10).unwrap();
    orders.symbol(b"AA").unwrap();
    orders.client_order_id(b"c1").unwrap();
    assert_eq!(orders.advance().unwrap(), Some(1));
    orders.order_id(-10).unwrap();
    orders.symbol(b"BB").unwrap();
    orders.client_order_id(b"c2").unwrap();
    assert_eq!(orders.advance().unwrap(), None);
    let mut enc = orders.parent().unwrap();
    enc.symbol(b"abc").unwrap();
    enc.list_client_order_id(b"").unwrap();
    enc.reject_reason(b"why").unwrap();
    let bytes = enc.into_writebuf().into_inner();

    let buf = ReadBuf::new(&bytes);
    let header = MessageHeaderDecoder::default().wrap(buf, 0).unwrap();
    let dec = ListStatusEventDecoder::default().header(header).unwrap();
    assert_eq!(dec.event_time().unwrap(), 111);
    assert_eq!(dec.transact_time().unwrap(), 222);
    assert_eq!(dec.order_list_id().unwrap(), 333);
    assert_eq!(dec.contingency_type().unwrap(), ContingencyType::Oco);
    assert_eq!(dec.list_status_type().unwrap(), ListStatusType::ExecStarted);
    assert_eq!(dec.list_order_status().unwrap(), ListOrderStatus::Executing);
    let mut orders = dec.orders_decoder().unwrap();
    assert_eq!(orders.count(), 2);
    assert_eq!(orders.advance().unwrap(), Some(0));
    assert_eq!(orders.order_id().unwrap(), 10);
    let c = orders.symbol_decoder().unwrap();
    assert_eq!(orders.symbol_slice(c).unwrap(), &b"AA"[..]);
    let c = orders.client_order_id_decoder().unwrap();
    assert_eq!(orders.client_order_id_slice(c).unwrap(), &b"c1"[..]);
    assert_eq!(orders.advance().unwrap(), Some(1));
    assert_eq!(orders.order_id().unwrap(), -10);
    let c = orders.symbol_decoder().unwrap();
    assert_eq!(orders.symbol_slice(c).unwrap(), &b"BB"[..]);
    let c = orders.client_order_id_decoder().unwrap();
    assert_eq!(orders.client_order_id_slice(c).unwrap(), &b"c2"[..]);
    assert_eq!(orders.advance().unwrap(), None);
    let mut dec = orders.parent().unwrap();
    let c = dec.symbol_decoder().unwrap();
    // the payload starts right past the group's two elements (each an
    // 8-byte block plus two 3-byte variable fields) and the length byte
    assert_eq!(c.0, 8 + 27 + 4 + 2 * (8 + 3 + 3) + 1);
    assert_eq!(c.1, 3);
    assert_eq!(dec.symbol_slice(c), &b"abc"[..]);
    let c = dec.list_client_order_id_decoder().unwrap();
    assert_eq!(c.1, 0);
    assert_eq!(dec.list_client_order_id_slice(c), &b""[..]);
    let c = dec.reject_reason_decoder().unwrap();
    assert_eq!(dec.reject_reason_slice(c), &b"why"[..]);
}

#[test]
fn var_data_sits_at_the_trailing_offset() {
    // encode a minimal list status event without groups and check the
    // variable field lands right after the fixed block, length first
    let buf = WriteBuf::new(vec![0u8; 128]);
    let mut enc = ListStatusEventEncoder::default().wrap(buf, 8).unwrap();
    enc.symbol(b"abc").unwrap();
    let bytes = enc.into_writebuf().into_inner();
    assert_eq!(bytes[8 + 27], 3);
    assert_eq!(&bytes[8 + 28..8 + 31], b"abc");
}

#[test]
fn ordering_var_data_before_group_release_reads_inside_the_group() {
    // decode: wrapping a two-element group, consuming only one element
    // and then reading message-level var data addresses the bytes of the
    // second, unconsumed element: the cursor discipline is violated and
    // the coordinates provably point inside the group region
    let buf = WriteBuf::new(vec![0u8; 256]);
    let enc = ListStatusEventEncoder::default().wrap(buf, 8).unwrap();
    let mut orders = enc.orders_encoder(2, OrdersEncoder::default()).unwrap();
    orders.advance().unwrap();
    orders.order_id(7).unwrap();
    orders.advance().unwrap();
    orders.order_id(9).unwrap();
    let mut enc = orders.parent().unwrap();
    enc.symbol(b"xy").unwrap();
    let bytes = enc.into_writebuf().into_inner();

    let buf = ReadBuf::new(&bytes);
    let dec = ListStatusEventDecoder::default().wrap(buf, 8, 27, 1).unwrap();
    let mut orders = dec.orders_decoder().unwrap();
    orders.advance().unwrap();
    let mut dec = orders.parent().unwrap();
    // limit now sits at the start of the second element's block, so the
    // "var data" read lands inside the group, not at the message tail
    let second_element_start = 8 + 27 + 4 + 8;
    let c = dec.symbol_decoder().unwrap();
    assert_eq!(c.0, second_element_start + 1);
    // the byte it took for a length prefix is the low byte of 9
    assert_eq!(c.1, 9);
}

#[test]
fn nested_groups_round_trip() {
    // a two-level group-of-groups: 2 outer elements, each carrying 3
    // inner elements, built from the same group codec nested in itself
    let buf = WriteBuf::new(vec![0u8; 512]);
    let enc = ListStatusEventEncoder::default().wrap(buf, 8).unwrap();
    let mut outer = enc.orders_encoder(2, OrdersEncoder::default()).unwrap();
    let mut expected: i64 = 1;
    for _o in 0..2 {
        outer.advance().unwrap().unwrap();
        outer.order_id(1000 + expected).unwrap();
        let mut inner = OrdersEncoder::default().wrap(outer, 3).unwrap();
        for _i in 0..3 {
            inner.advance().unwrap().unwrap();
            inner.order_id(expected).unwrap();
            expected += 1;
        }
        assert_eq!(inner.advance().unwrap(), None);
        outer = inner.parent().unwrap();
    }
    assert_eq!(outer.advance().unwrap(), None);
    let enc = outer.parent().unwrap();
    let bytes = enc.into_writebuf().into_inner();

    // absolute layout: fixed block ends at 35; outer dim header 4 bytes;
    // each outer element: 8-byte block, then inner dim (4) + 3 * 8
    let outer_dim = 8 + 27;
    assert_eq!(bytes[outer_dim], 8); // outer element block length
    assert_eq!(bytes[outer_dim + 2], 2); // outer count
    let elem0 = outer_dim + 4;
    assert_eq!(bytes[elem0], 0xe9); // 1001 = 0x3e9
    assert_eq!(bytes[elem0 + 1], 0x03);
    let inner0_dim = elem0 + 8;
    assert_eq!(bytes[inner0_dim], 8); // inner element block length
    assert_eq!(bytes[inner0_dim + 2], 3); // inner count
    assert_eq!(bytes[inner0_dim + 4], 1); // first inner order id
    assert_eq!(bytes[inner0_dim + 12], 2);
    assert_eq!(bytes[inner0_dim + 20], 3);
    let elem1 = inner0_dim + 4 + 24;
    assert_eq!(bytes[elem1], 0xec); // 1004 = 0x3ec

    let buf = ReadBuf::new(&bytes);
    let dec = ListStatusEventDecoder::default().wrap(buf, 8, 27, 1).unwrap();
    let mut outer = dec.orders_decoder().unwrap();
    assert_eq!(outer.count(), 2);
    let mut seen: i64 = 1;
    for o in 0..2 {
        assert_eq!(outer.advance().unwrap(), Some(o));
        assert_eq!(outer.order_id().unwrap(), 1000 + seen);
        let mut inner = OrdersDecoder::default().wrap(outer).unwrap();
        assert_eq!(inner.count(), 3);
        for i in 0..3 {
            assert_eq!(inner.advance().unwrap(), Some(i));
            assert_eq!(inner.order_id().unwrap(), seen);
            seen += 1;
        }
        assert_eq!(inner.advance().unwrap(), None);
        outer = inner.parent().unwrap();
    }
    assert_eq!(outer.advance().unwrap(), None);
}

#[test]
fn klines_full_element_round_trip() {
    let buf = WriteBuf::new(vec![0u8; 512]);
    let enc = KlinesResponseEncoder::default().wrap(buf, 8).unwrap();
    let mut header = enc.header(0).unwrap();
    let mut enc = header.parent().unwrap();
    enc.price_exponent(-8);
    enc.qty_exponent(2);
    let mut klines = enc.klines_encoder(1, KlinesEncoder::default()).unwrap();
    assert_eq!(KlinesEncoder::<KlinesResponseEncoder>::block_length(), 120);
    klines.advance().unwrap();
    klines.open_time(1_600_000_000_000).unwrap();
    klines.open_price(100).unwrap();
    klines.high_price(110).unwrap();
    klines.low_price(90).unwrap();
    klines.close_price(105).unwrap();
    klines.volume(*b"0123456789abcdef").unwrap();
    klines.close_time(1_600_000_060_000).unwrap();
    klines.quote_volume([7u8; 16]).unwrap();
    klines.num_trades(42).unwrap();
    klines.taker_buy_base_volume([1u8; 16]).unwrap();
    klines.taker_buy_quote_volume([2u8; 16]).unwrap();
    let enc = klines.parent().unwrap();
    let bytes = enc.into_writebuf().into_inner();

    let buf = ReadBuf::new(&bytes);
    let header = MessageHeaderDecoder::default().wrap(buf, 0).unwrap();
    let dec = KlinesResponseDecoder::default().header(header).unwrap();
    assert_eq!(dec.price_exponent().unwrap(), -8);
    assert_eq!(dec.qty_exponent().unwrap(), 2);
    let mut klines = dec.klines_decoder().unwrap();
    assert_eq!(klines.count(), 1);
    klines.advance().unwrap();
    assert_eq!(klines.open_time().unwrap(), 1_600_000_000_000);
    assert_eq!(klines.open_price().unwrap(), 100);
    assert_eq!(klines.high_price().unwrap(), 110);
    assert_eq!(klines.low_price().unwrap(), 90);
    assert_eq!(klines.close_price().unwrap(), 105);
    assert_eq!(&klines.volume().unwrap(), b"0123456789abcdef");
    assert_eq!(klines.close_time().unwrap(), 1_600_000_060_000);
    assert_eq!(klines.quote_volume().unwrap(), [7u8; 16]);
    assert_eq!(klines.num_trades().unwrap(), 42);
    assert_eq!(klines.taker_buy_base_volume().unwrap(), [1u8; 16]);
    assert_eq!(klines.taker_buy_quote_volume().unwrap(), [2u8; 16]);
    let _ = klines.parent().unwrap();
}

#[test]
fn klines_decoder_wrap_via_default() {
    // the group decoder shell can also be built and wrapped by hand
    let buf = WriteBuf::new(vec![0u8; 256]);
    let enc = KlinesResponseEncoder::default().wrap(buf, 8).unwrap();
    let mut klines = enc.klines_encoder(0, KlinesEncoder::default()).unwrap();
    let enc = klines.parent().unwrap();
    let bytes = enc.into_writebuf().into_inner();

    let buf = ReadBuf::new(&bytes);
    let dec = KlinesResponseDecoder::default().wrap(buf, 8, 2, 1).unwrap();
    let klines: KlinesDecoder<KlinesResponseDecoder> =
        KlinesDecoder::default().wrap(dec).unwrap();
    assert_eq!(klines.count(), 0);
}

#[test]
fn encode_group_header_without_room_is_reported() {
    // the fixed block just fits, but the group's dimension header does not
    let buf = WriteBuf::new(vec![0u8; 8 + 2 + 3]);
    let enc = KlinesResponseEncoder::default().wrap(buf, 8).unwrap();
    let r = enc.klines_encoder(1, KlinesEncoder::default());
    assert_eq!(r.err().unwrap(), SbeErr::BufferOverrun);
}

#[test]
fn encode_advance_without_room_is_reported() {
    // room for the dimension header and one element only
    let buf = WriteBuf::new(vec![0u8; 8 + 2 + 6 + 120]);
    let enc = KlinesResponseEncoder::default().wrap(buf, 8).unwrap();
    let mut klines = enc.klines_encoder(2, KlinesEncoder::default()).unwrap();
    assert_eq!(klines.advance().unwrap(), Some(0));
    assert_eq!(klines.advance().err().unwrap(), SbeErr::BufferOverrun);
}

#[test]
fn advance_after_release_reports_even_when_exhausted() {
    // once the parent is released, advance reports the missing parent
    // even on a group whose elements were all consumed
    let buf = WriteBuf::new(vec![0u8; 256]);
    let enc = KlinesResponseEncoder::default().wrap(buf, 8).unwrap();
    let mut klines = enc.klines_encoder(1, KlinesEncoder::default()).unwrap();
    assert_eq!(klines.advance().unwrap(), Some(0));
    assert_eq!(klines.advance().unwrap(), None);
    let enc = klines.parent().unwrap();
    assert_eq!(klines.advance().err().unwrap(), SbeErr::ParentNotSet);
    let bytes = enc.into_writebuf().into_inner();

    let buf = ReadBuf::new(&bytes);
    let dec = KlinesResponseDecoder::default().wrap(buf, 8, 2, 1).unwrap();
    let mut klines = dec.klines_decoder().unwrap();
    assert_eq!(klines.advance().unwrap(), Some(0));
    assert_eq!(klines.advance().unwrap(), None);
    let _dec = klines.parent().unwrap();
    assert_eq!(klines.advance().err().unwrap(), SbeErr::ParentNotSet);
}

