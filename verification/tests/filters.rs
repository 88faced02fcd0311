use spot_sbe::min_notional_filter_codec;
use spot_sbe::notional_filter_codec;
use spot_sbe::BoolEnum;
use spot_sbe::FilterType;
use spot_sbe::MessageHeaderDecoder;
use spot_sbe::MinNotionalFilterDecoder;
use spot_sbe::MinNotionalFilterEncoder;
use spot_sbe::NotionalFilterDecoder;
use spot_sbe::NotionalFilterEncoder;
use spot_sbe::ReadBuf;
use spot_sbe::SbeErr;
use spot_sbe::WriteBuf;

fn encode_min_notional(pe: i8, mn: i64, am: BoolEnum, apm: i32) -> Vec<u8> {
    let buf = WriteBuf::new(vec![0u8; 64]);
    let enc = MinNotionalFilterEncoder::default().wrap(buf, 8).unwrap();
    let mut header = enc.header(0).unwrap();
    let mut enc = header.parent().unwrap();
    enc.price_exponent(pe);
    enc.min_notional(mn);
    enc.apply_to_market(am);
    enc.avg_price_mins(apm);
    enc.into_writebuf().into_inner()
}

fn decode_min_notional(bytes: &[u8]) -> MinNotionalFilterDecoder<'_> {
    let buf = ReadBuf::new(bytes);
    let header = MessageHeaderDecoder::default().wrap(buf, 0).unwrap();
    MinNotionalFilterDecoder::default().header(header).unwrap()
}

#[test]
fn min_notional_round_trip() {
    let bytes = encode_min_notional(-8, 1_000_000, BoolEnum::True, 5);
    let dec = decode_min_notional(&bytes);
    assert_eq!(dec.acting_block_length, 14);
    assert_eq!(dec.acting_version, 1);
    assert_eq!(dec.filter_type(), FilterType::MinNotional);
    assert_eq!(dec.price_exponent().unwrap(), -8);
    assert_eq!(dec.min_notional().unwrap(), 1_000_000);
    assert_eq!(dec.apply_to_market().unwrap(), BoolEnum::True);
    assert_eq!(dec.avg_price_mins().unwrap(), 5);
}

#[test]
fn min_notional_boundary_values() {
    for &(pe, mn, apm) in &[
        (i8::MIN, i64::MIN, i32::MIN),
        (i8::MAX, i64::MAX, i32::MAX),
        (0i8, 0i64, 0i32),
        (-1i8, -1i64, -1i32),
    ] {
        let bytes = encode_min_notional(pe, mn, BoolEnum::False, apm);
        let dec = decode_min_notional(&bytes);
        assert_eq!(dec.price_exponent().unwrap(), pe);
        assert_eq!(dec.min_notional().unwrap(), mn);
        assert_eq!(dec.avg_price_mins().unwrap(), apm);
    }
}

#[test]
fn min_notional_exact_wire_bytes() {
    let bytes = encode_min_notional(1, 0x0102030405060708, BoolEnum::True, 2);
    // envelope: block length 14, template 5, schema 2, version 1
    assert_eq!(&bytes[0..8], &[14, 0, 5, 0, 2, 0, 1, 0]);
    // priceExponent at offset 0 of the block
    assert_eq!(bytes[8], 1);
    // minNotional little-endian at offsets 1..9
    assert_eq!(&bytes[9..17], &[8, 7, 6, 5, 4, 3, 2, 1]);
    // applyToMarket byte
    assert_eq!(bytes[17], 1);
    // avgPriceMins little-endian at offsets 10..14
    assert_eq!(&bytes[18..22], &[2, 0, 0, 0]);
}

#[test]
fn min_notional_wrong_template_is_reported() {
    let bytes = encode_min_notional(0, 0, BoolEnum::False, 0);
    let buf = ReadBuf::new(&bytes);
    let header = MessageHeaderDecoder::default().wrap(buf, 0).unwrap();
    let r = NotionalFilterDecoder::default().header(header);
    assert!(r.is_err());
    assert_eq!(r.err().unwrap(), SbeErr::UnexpectedTemplate);
}

#[test]
fn min_notional_truncated_buffer_is_reported() {
    let bytes = encode_min_notional(0, 0, BoolEnum::False, 0);
    // keep the envelope but cut the body short
    let short = &bytes[0..10];
    let buf = ReadBuf::new(short);
    let header = MessageHeaderDecoder::default().wrap(buf, 0).unwrap();
    let r = MinNotionalFilterDecoder::default().header(header);
    assert_eq!(r.err().unwrap(), SbeErr::BufferOverrun);
}

#[test]
fn min_notional_short_declared_block_is_reported() {
    // a handcrafted payload whose envelope declares a 9-byte block:
    // fields beyond it must report a bounds error, not read on
    let mut bytes = vec![0u8; 8 + 9];
    bytes[0] = 9; // block length
    bytes[2] = 5; // template id
    bytes[4] = 2; // schema id
    bytes[6] = 1; // version
    let buf = ReadBuf::new(&bytes);
    let header = MessageHeaderDecoder::default().wrap(buf, 0).unwrap();
    let dec = MinNotionalFilterDecoder::default().header(header).unwrap();
    assert_eq!(dec.price_exponent().unwrap(), 0);
    assert_eq!(dec.min_notional().unwrap(), 0);
    assert_eq!(dec.apply_to_market().err().unwrap(), SbeErr::BufferOverrun);
    assert_eq!(dec.avg_price_mins().err().unwrap(), SbeErr::BufferOverrun);
}

#[test]
fn min_notional_unknown_enum_byte_decodes_to_null() {
    let mut bytes = encode_min_notional(0, 0, BoolEnum::True, 0);
    bytes[17] = 0x7f; // not a known BoolEnum byte
    let dec = decode_min_notional(&bytes);
    assert_eq!(dec.apply_to_market().unwrap(), BoolEnum::NullVal);
}

#[test]
fn min_notional_encode_wrap_too_small_is_reported() {
    let buf = WriteBuf::new(vec![0u8; 10]);
    let r = MinNotionalFilterEncoder::default().wrap(buf, 8);
    assert_eq!(r.err().unwrap(), SbeErr::BufferOverrun);
}

#[test]
fn notional_round_trip() {
    let buf = WriteBuf::new(vec![0u8; 64]);
    let enc = NotionalFilterEncoder::default().wrap(buf, 8).unwrap();
    let mut header = enc.header(0).unwrap();
    let mut enc = header.parent().unwrap();
    enc.price_exponent(-2);
    enc.min_notional(77);
    enc.apply_min_to_market(BoolEnum::True);
    enc.max_notional(i64::MAX);
    enc.apply_max_to_market(BoolEnum::False);
    enc.avg_price_mins(-4);
    let bytes = enc.into_writebuf().into_inner();

    assert_eq!(&bytes[0..8], &[23, 0, 6, 0, 2, 0, 1, 0]);
    let buf = ReadBuf::new(&bytes);
    let header = MessageHeaderDecoder::default().wrap(buf, 0).unwrap();
    let dec = NotionalFilterDecoder::default().header(header).unwrap();
    assert_eq!(dec.filter_type(), FilterType::Notional);
    assert_eq!(dec.price_exponent().unwrap(), -2);
    assert_eq!(dec.min_notional().unwrap(), 77);
    assert_eq!(dec.apply_min_to_market().unwrap(), BoolEnum::True);
    assert_eq!(dec.max_notional().unwrap(), i64::MAX);
    assert_eq!(dec.apply_max_to_market().unwrap(), BoolEnum::False);
    assert_eq!(dec.avg_price_mins().unwrap(), -4);
}

#[test]
fn header_codec_round_trip() {
    let bytes = encode_min_notional(3, 9, BoolEnum::False, 1);
    let buf = ReadBuf::new(&bytes);
    let header = MessageHeaderDecoder::default().wrap(buf, 0).unwrap();
    assert_eq!(
        header.block_length().unwrap(),
        min_notional_filter_codec::SBE_BLOCK_LENGTH
    );
    assert_eq!(
        header.template_id().unwrap(),
        min_notional_filter_codec::SBE_TEMPLATE_ID
    );
    assert_eq!(
        header.schema_id().unwrap(),
        min_notional_filter_codec::SBE_SCHEMA_ID
    );
    assert_eq!(
        header.version().unwrap(),
        min_notional_filter_codec::SBE_SCHEMA_VERSION
    );
    assert_eq!(notional_filter_codec::SBE_TEMPLATE_ID, 6);
}

#[test]
fn header_too_short_buffer_is_reported() {
    let bytes = [0u8; 4];
    let buf = ReadBuf::new(&bytes);
    let r = MessageHeaderDecoder::default().wrap(buf, 0);
    assert_eq!(r.err().unwrap(), SbeErr::BufferOverrun);
}

#[test]
fn encode_header_without_room_is_reported() {
    // the block fits at offset 8 but there is no room for the envelope
    let buf = WriteBuf::new(vec![0u8; 22]);
    let enc = MinNotionalFilterEncoder::default().wrap(buf, 8).unwrap();
    let r = enc.header(15);
    assert_eq!(r.err().unwrap(), SbeErr::BufferOverrun);
}

