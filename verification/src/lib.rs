//! Turns the stock transactions that legislators disclose into brokerage
//! orders. Ingestion reads a chamber's report into trade intents; order
//! synthesis sizes each intent against the account's cash and positions.

pub mod batch;
pub mod extract;
pub mod feed;
pub mod intent;
pub mod market;
pub mod orders;
pub mod record;
pub mod report;
pub mod sizing;
pub mod text;
