//! Flyweight codecs for a little-endian binary message format: typed field
//! accessors laid over a raw byte buffer, with fixed blocks, repeating
//! groups and length-prefixed variable-length data.

pub mod buffer;
pub mod contingency_type;
pub mod enums;
pub mod execution_report_event_codec;
pub mod execution_type;
pub mod codec;
pub mod klines_response_codec;
pub mod laws;
pub mod list_status_event_codec;
pub mod message_header_codec;
pub mod min_notional_filter_codec;
pub mod notional_filter_codec;
pub mod ticker_24_hs_ymbol_mini_response_codec;
pub mod ticker_full_response_codec;
pub mod wire;

pub use contingency_type::ContingencyType;
pub use execution_type::ExecutionType;
pub use enums::BoolEnum;
pub use enums::FilterType;
pub use enums::Floor;
pub use enums::ListOrderStatus;
pub use enums::ListStatusType;
pub use enums::MatchType;
pub use enums::OrderCapacity;
pub use enums::OrderSide;
pub use enums::OrderStatus;
pub use enums::OrderType;
pub use enums::SelfTradePreventionMode;
pub use enums::TimeInForce;
pub use buffer::ReadBuf;
pub use buffer::WriteBuf;
pub use codec::Decoder;
pub use codec::Encoder;
pub use codec::Reader;
pub use execution_report_event_codec::ExecutionReportEventDecoder;
pub use execution_report_event_codec::ExecutionReportEventEncoder;
pub use klines_response_codec::KlinesResponseDecoder;
pub use klines_response_codec::KlinesResponseEncoder;
pub use list_status_event_codec::ListStatusEventDecoder;
pub use list_status_event_codec::ListStatusEventEncoder;
pub use message_header_codec::MessageHeaderDecoder;
pub use message_header_codec::MessageHeaderEncoder;
pub use min_notional_filter_codec::MinNotionalFilterDecoder;
pub use min_notional_filter_codec::MinNotionalFilterEncoder;
pub use notional_filter_codec::NotionalFilterDecoder;
pub use notional_filter_codec::NotionalFilterEncoder;
pub use ticker_24_hs_ymbol_mini_response_codec::Ticker24hSymbolMiniResponseDecoder;
pub use ticker_24_hs_ymbol_mini_response_codec::Ticker24hSymbolMiniResponseEncoder;
pub use ticker_full_response_codec::TickerFullResponseDecoder;
pub use ticker_full_response_codec::TickerFullResponseEncoder;

use vstd::prelude::*;

verus! {

/// Errors reported by the codecs: usage-order violations, reads or writes
/// that would leave the wrapped byte region, and template mismatches.
#[derive(Clone, Copy, Debug, PartialEq, Eq, Structural)]
pub enum SbeErr {
    /// A group or header accessor was called before `wrap`, or after the
    /// parent codec had already been released.
    ParentNotSet,
    /// A read or write would fall outside the wrapped buffer or outside the
    /// block declared for the data being decoded.
    BufferOverrun,
    /// The header names a template other than the one this decoder expects.
    UnexpectedTemplate,
}

pub type SbeResult<T> = core::result::Result<T, SbeErr>;

} // verus!
