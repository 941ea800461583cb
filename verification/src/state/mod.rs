pub mod enums;
pub mod error;
pub mod inflight_order;
pub mod layout;
pub mod markets;
pub mod matching_engine_response;
pub mod trader_state;

pub use enums::Side;
pub use enums::SelfTradeBehavior;
pub use enums::BID_SEQUENCE_BIT;
pub use inflight_order::InflightOrder;
pub use markets::FIFOOrderId;
pub use markets::FIFORestingOrder;
pub use markets::OrderId;
pub use markets::RestingOrder;
pub use matching_engine_response::MatchingEngineResponse;
pub use trader_state::TraderState;
pub use error::MarketError;
pub use markets::Book;
pub use markets::FIFOMarket;
pub use markets::Market;
pub use markets::MarketView;
pub use markets::TraderTable;
