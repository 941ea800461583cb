pub mod book;
pub mod exposure;
pub mod fifo;
pub mod market;
pub mod market_traits;
pub mod market_view;
pub mod ordered_index;
pub mod trader_table;

pub use book::Book;
pub use fifo::FIFOOrderId;
pub use fifo::FIFORestingOrder;
pub use market::FIFOMarket;
pub use market_traits::Market;
pub use market_traits::OrderId;
pub use market_traits::RestingOrder;
pub use market_view::MarketView;
pub use trader_table::TraderTable;
