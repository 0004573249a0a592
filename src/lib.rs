//! Order records with a cache-aside repository over a relational store.
//!
//! The library holds the decisions of the repository: when the in-memory
//! cache answers, what is written to or read from the store, and how rows of
//! the store are turned into order aggregates and back. Talking to the store
//! is left to the caller, which runs the statements that the library hands out
//! and hands the rows back.
mod cache;
mod laws;
mod model;
mod repository;
mod row;

pub use cache::{inserted, lookup, OrderCache};
pub use laws::{
    add_then_get_is_cached, fetched_order_is_cached, full_cache_evicts_least_recent,
    insert_without_overflow_keeps_entries, item_row_round_trip, listing_round_trip,
    order_round_trip, order_round_trip_any_item_order, order_row_round_trip,
    removed_is_not_cached, second_add_writes_nothing,
};
pub use model::{Delivery, Item, Order, OrderView, Payment};
pub use repository::{
    add_writes, assemble_order, assemble_orders, assembled, decode_items, AddStep, GetStep,
    Repository, CACHE_CAPACITY,
};
pub use row::{
    decode_item, decode_order, item_params, order_params, Cell, DecodeError, Row, DELETE_ORDER_SQL,
    INSERT_ITEM_SQL, INSERT_ORDER_SQL, SELECT_ITEMS_SQL, SELECT_ORDERS_SQL, SELECT_ORDER_SQL,
};
