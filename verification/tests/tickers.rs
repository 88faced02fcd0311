use spot_sbe::ticker_full_response_codec::TickersDecoder;
use spot_sbe::ticker_full_response_codec::TickersEncoder;
use spot_sbe::MessageHeaderDecoder;
use spot_sbe::ReadBuf;
use spot_sbe::SbeErr;
use spot_sbe::Ticker24hSymbolMiniResponseDecoder;
use spot_sbe::Ticker24hSymbolMiniResponseEncoder;
use spot_sbe::TickerFullResponseDecoder;
use spot_sbe::TickerFullResponseEncoder;
use spot_sbe::WriteBuf;

#[test]
fn ticker_mini_round_trip() {
    let buf = WriteBuf::new(vec![0u8; 256]);
    let enc = Ticker24hSymbolMiniResponseEncoder::default().wrap(buf, 8).unwrap();
    let mut header = enc.header(0).unwrap();
    let mut enc = header.parent().unwrap();
    enc.price_exponent(-8);
    enc.qty_exponent(-2);
    enc.open_price(100);
    enc.high_price(i64::MAX);
    enc.low_price(i64::MIN); // the null sentinel: reads back as absent
    enc.last_price(104);
    enc.volume([9u8; 16]);
    enc.quote_volume([8u8; 16]);
    enc.open_time(1);
    enc.close_time(2);
    enc.first_id(10);
    enc.last_id(20);
    enc.num_trades(11);
    enc.symbol(b"BTCUSDT").unwrap();
    let bytes = enc.into_writebuf().into_inner();

    assert_eq!(&bytes[0..8], &[106, 0, 207, 0, 2, 0, 1, 0]);
    let buf = ReadBuf::new(&bytes);
    let header = MessageHeaderDecoder::default().wrap(buf, 0).unwrap();
    let mut dec = Ticker24hSymbolMiniResponseDecoder::default().header(header).unwrap();
    assert_eq!(dec.price_exponent().unwrap(), -8);
    assert_eq!(dec.qty_exponent().unwrap(), -2);
    assert_eq!(dec.open_price().unwrap(), Some(100));
    assert_eq!(dec.high_price().unwrap(), Some(i64::MAX));
    assert_eq!(dec.low_price().unwrap(), None);
    assert_eq!(dec.last_price().unwrap(), Some(104));
    assert_eq!(dec.volume().unwrap(), [9u8; 16]);
    assert_eq!(dec.quote_volume().unwrap(), [8u8; 16]);
    assert_eq!(dec.open_time().unwrap(), 1);
    assert_eq!(dec.close_time().unwrap(), 2);
    assert_eq!(dec.first_id().unwrap(), Some(10));
    assert_eq!(dec.last_id().unwrap(), Some(20));
    assert_eq!(dec.num_trades().unwrap(), 11);
    let c = dec.symbol_decoder().unwrap();
    assert_eq!(c, (8 + 106 + 1, 7));
    assert_eq!(dec.symbol_slice(c), &b"BTCUSDT"[..]);
}

#[test]
fn ticker_full_round_trip_with_float_bits() {
    let buf = WriteBuf::new(vec![0u8; 512]);
    let enc = TickerFullResponseEncoder::default().wrap(buf, 8).unwrap();
    let mut header = enc.header(0).unwrap();
    let enc = header.parent().unwrap();
    let mut tickers = enc.tickers_encoder(2, TickersEncoder::default()).unwrap();

    tickers.advance().unwrap();
    tickers.price_exponent(-8).unwrap();
    tickers.qty_exponent(0).unwrap();
    tickers.price_change(12).unwrap();
    tickers.price_change_percent_bits(1.5f32.to_bits()).unwrap();
    tickers.weighted_avg_price(34).unwrap();
    tickers.open_price(1).unwrap();
    tickers.high_price(2).unwrap();
    tickers.low_price(3).unwrap();
    tickers.last_price(4).unwrap();
    tickers.volume([3u8; 16]).unwrap();
    tickers.quote_volume([4u8; 16]).unwrap();
    tickers.open_time(5).unwrap();
    tickers.close_time(6).unwrap();
    tickers.first_id(7).unwrap();
    tickers.last_id(8).unwrap();
    tickers.num_trades(9).unwrap();
    tickers.symbol(b"ABCUSDT").unwrap();

    tickers.advance().unwrap();
    tickers.price_exponent(0).unwrap();
    tickers.price_change(i64::MIN).unwrap(); // absent
    tickers.price_change_percent_bits(f32::NAN.to_bits()).unwrap(); // absent
    tickers.symbol(b"XYZBTC").unwrap();

    let enc = tickers.parent().unwrap();
    let bytes = enc.into_writebuf().into_inner();

    let buf = ReadBuf::new(&bytes);
    let header = MessageHeaderDecoder::default().wrap(buf, 0).unwrap();
    let dec = TickerFullResponseDecoder::default().header(header).unwrap();
    let mut tickers = dec.tickers_decoder().unwrap();
    assert_eq!(tickers.count(), 2);

    tickers.advance().unwrap();
    assert_eq!(tickers.price_exponent().unwrap(), -8);
    assert_eq!(tickers.price_change().unwrap(), Some(12));
    let bits = tickers.price_change_percent_bits().unwrap().unwrap();
    assert_eq!(f32::from_bits(bits), 1.5f32);
    assert_eq!(tickers.weighted_avg_price().unwrap(), Some(34));
    assert_eq!(tickers.open_price().unwrap(), Some(1));
    assert_eq!(tickers.volume().unwrap(), [3u8; 16]);
    assert_eq!(tickers.num_trades().unwrap(), 9);
    let c = tickers.symbol_decoder().unwrap();
    assert_eq!(tickers.symbol_slice(c).unwrap(), &b"ABCUSDT"[..]);

    tickers.advance().unwrap();
    assert_eq!(tickers.price_change().unwrap(), None);
    assert_eq!(tickers.price_change_percent_bits().unwrap(), None);
    let c = tickers.symbol_decoder().unwrap();
    assert_eq!(tickers.symbol_slice(c).unwrap(), &b"XYZBTC"[..]);

    assert_eq!(tickers.advance().unwrap(), None);
    let _ = tickers.parent().unwrap();
}

#[test]
fn ticker_full_short_group_block_is_reported() {
    // a wire image whose group declares 8-byte elements: fields beyond
    // that width must report a bounds error
    let mut bytes = vec![0u8; 8 + 0 + 6 + 8];
    bytes[2] = 214; // template id low byte
    bytes[6] = 1; // version
    bytes[8] = 8; // element block length: only 8 bytes
    bytes[10] = 1; // count
    let buf = ReadBuf::new(&bytes);
    let header = MessageHeaderDecoder::default().wrap(buf, 0).unwrap();
    let dec = TickerFullResponseDecoder::default().header(header).unwrap();
    let mut tickers = dec.tickers_decoder().unwrap();
    assert_eq!(tickers.count(), 1);
    tickers.advance().unwrap();
    assert_eq!(tickers.price_exponent().unwrap(), 0);
    assert_eq!(tickers.price_change().err().unwrap(), SbeErr::BufferOverrun);
    assert_eq!(tickers.open_time().err().unwrap(), SbeErr::BufferOverrun);
}

#[test]
fn var_data_truncated_payload_is_reported() {
    // length prefix promises five bytes, the buffer holds two
    let mut bytes = vec![0u8; 8 + 106 + 3];
    bytes[0] = 106;
    bytes[2] = 207;
    bytes[6] = 1;
    bytes[8 + 106] = 5;
    let buf = ReadBuf::new(&bytes);
    let header = MessageHeaderDecoder::default().wrap(buf, 0).unwrap();
    let mut dec = Ticker24hSymbolMiniResponseDecoder::default().header(header).unwrap();
    assert_eq!(dec.symbol_decoder().err().unwrap(), SbeErr::BufferOverrun);
}

#[test]
fn var_data_missing_length_byte_is_reported() {
    let mut bytes = vec![0u8; 8 + 106];
    bytes[0] = 106;
    bytes[2] = 207;
    bytes[6] = 1;
    let buf = ReadBuf::new(&bytes);
    let header = MessageHeaderDecoder::default().wrap(buf, 0).unwrap();
    let mut dec = Ticker24hSymbolMiniResponseDecoder::default().header(header).unwrap();
    assert_eq!(dec.symbol_decoder().err().unwrap(), SbeErr::BufferOverrun);
}

#[test]
fn var_data_too_long_for_prefix_is_reported() {
    let buf = WriteBuf::new(vec![0u8; 1024]);
    let mut enc = Ticker24hSymbolMiniResponseEncoder::default().wrap(buf, 8).unwrap();
    let long = vec![b'x'; 256];
    assert_eq!(enc.symbol(&long).err().unwrap(), SbeErr::BufferOverrun);
    // at 255 bytes the prefix still holds the length, but here the
    // buffer is large enough, so the write goes through
    let ok = vec![b'y'; 255];
    assert!(enc.symbol(&ok).is_ok());
}
