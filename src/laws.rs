use crate::cache::{evicts, inserted, lookup, OrderCache};
use crate::model::{Item, OrderView};
use crate::repository::{add_writes, assembled, items_of_rows, listed_valid, rows_valid};
use crate::row::{
    item_columns, item_of_row, item_row_valid, item_value_cells, order_columns, order_of_row,
    order_param_cells, order_row_valid, row_holds, Cell, Row,
};
use vstd::prelude::*;

verus! {

/// The least recently used key of a non-empty, well-formed cache is cached,
/// so it differs from any key that is not.
proof fn least_recent_is_cached(cache: OrderCache)
    requires
        cache.wf(),
        cache@.len() > 0,
    ensures
        cache@.contains_key(cache.recency().last()),
{
    let recency = cache.recency();
    assert(recency[recency.len() - 1] == recency.last());
    assert(recency.contains(recency.last()));
}

/// An add followed by a get of the same `order_uid` is answered by the cache,
/// with the order that was added, and the store is not asked. The cache stays
/// within its capacity.
pub proof fn add_then_get_is_cached(before: OrderCache, after: OrderCache, order: OrderView)
    requires
        before.wf(),
        inserted(before, after, order.key(), order),
    ensures
        lookup(after@, order.key()) == Some(order),
        after@.len() <= after.capacity(),
{
}

/// An order read from the store on a cache miss is cached under the key that
/// was asked for: the next get of that key is answered by the cache.
pub proof fn fetched_order_is_cached(
    before: OrderCache,
    after: OrderCache,
    key: Seq<char>,
    order_row: Row,
    item_rows: Seq<Row>,
)
    requires
        before.wf(),
        rows_valid(order_row, item_rows),
        inserted(before, after, key, assembled(order_row, item_rows)),
    ensures
        lookup(after@, key) == Some(assembled(order_row, item_rows)),
        after@.len() <= after.capacity(),
{
}

/// Of two adds of one order in a row, the second never writes to the store.
pub proof fn second_add_writes_nothing(first: OrderCache, second: OrderCache, order: OrderView)
    requires
        first.wf(),
        inserted(first, second, order.key(), order),
    ensures
        !add_writes(second@, order),
{
}

/// After a remove, the cache no longer holds the `order_uid`, whether it held
/// it before or not.
pub proof fn removed_is_not_cached(cache: Map<Seq<char>, OrderView>, order_uid: Seq<char>)
    ensures
        lookup(cache.remove(order_uid), order_uid) is None,
{
}

/// Storing a new key in a full cache evicts exactly its least recently used
/// entry: every other entry stays as it was, and the size stays.
pub proof fn full_cache_evicts_least_recent(
    before: OrderCache,
    after: OrderCache,
    key: Seq<char>,
    value: OrderView,
)
    requires
        before.wf(),
        inserted(before, after, key, value),
        evicts(before@, before.capacity(), key),
    ensures
        !after@.contains_key(before.recency().last()),
        after@.len() == before@.len(),
        forall|k: Seq<char>| #[trigger] before@.contains_key(k) && k != before.recency().last()
            ==> after@.contains_key(k) && after@[k] == before@[k],
{
    least_recent_is_cached(before);
    let last = before.recency().last();
    assert(before@.remove(last).len() == before@.len() - 1);
}

/// Storing in a cache that does not overflow evicts nothing.
pub proof fn insert_without_overflow_keeps_entries(
    before: OrderCache,
    after: OrderCache,
    key: Seq<char>,
    value: OrderView,
)
    requires
        before.wf(),
        inserted(before, after, key, value),
        !evicts(before@, before.capacity(), key),
    ensures
        forall|k: Seq<char>| #[trigger] before@.contains_key(k) && k != key
            ==> after@.contains_key(k) && after@[k] == before@[k],
{
}

/// A row that holds what `order_params` wrote reads back as the same order,
/// without its items.
pub proof fn order_row_round_trip(order: OrderView, c: Seq<(String, Cell)>)
    requires
        row_holds(c, order_columns(), order_param_cells(order)),
    ensures
        order_row_valid(c),
        order_of_row(c) == (OrderView { items: Seq::empty(), ..order }),
{
    assert(order_columns()[0] == "order_uid"@);
    assert(order_columns()[1] == "track_number"@);
    assert(order_columns()[2] == "entry"@);
    assert(order_columns()[3] == "delivery_name"@);
    assert(order_columns()[4] == "delivery_phone"@);
    assert(order_columns()[5] == "delivery_zip"@);
    assert(order_columns()[6] == "delivery_city"@);
    assert(order_columns()[7] == "delivery_address"@);
    assert(order_columns()[8] == "delivery_region"@);
    assert(order_columns()[9] == "delivery_email"@);
    assert(order_columns()[10] == "payment_transaction"@);
    assert(order_columns()[11] == "payment_request_id"@);
    assert(order_columns()[12] == "payment_currency"@);
    assert(order_columns()[13] == "payment_provider"@);
    assert(order_columns()[14] == "payment_amount"@);
    assert(order_columns()[15] == "payment_payment_dt"@);
    assert(order_columns()[16] == "payment_bank"@);
    assert(order_columns()[17] == "payment_delivery_cost"@);
    assert(order_columns()[18] == "payment_goods_total"@);
    assert(order_columns()[19] == "payment_custom_fee"@);
    assert(order_columns()[20] == "locale"@);
    assert(order_columns()[21] == "internal_signature"@);
    assert(order_columns()[22] == "customer_id"@);
    assert(order_columns()[23] == "delivery_service"@);
    assert(order_columns()[24] == "shardkey"@);
    assert(order_columns()[25] == "sm_id"@);
    assert(order_columns()[26] == "date_created"@);
    assert(order_columns()[27] == "oof_shard"@);
}

/// A row of `SELECT_ITEMS_SQL` that holds what `item_params` wrote for an
/// item reads back as the same item.
pub proof fn item_row_round_trip(item: Item, c: Seq<(String, Cell)>)
    requires
        row_holds(c, item_columns(), item_value_cells(item)),
    ensures
        item_row_valid(c),
        item_of_row(c) == item,
{
    assert(item_columns()[0] == "chrt_id"@);
    assert(item_columns()[1] == "track_number"@);
    assert(item_columns()[2] == "price"@);
    assert(item_columns()[3] == "rid"@);
    assert(item_columns()[4] == "name"@);
    assert(item_columns()[5] == "sale"@);
    assert(item_columns()[6] == "size"@);
    assert(item_columns()[7] == "total_price"@);
    assert(item_columns()[8] == "nm_id"@);
    assert(item_columns()[9] == "brand"@);
    assert(item_columns()[10] == "status"@);
}

/// The rows of `o` as the store hands them back: its order row, and a row of
/// `SELECT_ITEMS_SQL` for each item, in the order of the items.
pub open spec fn holds_order(order: OrderView, order_row: Row, item_rows: Seq<Row>) -> bool {
    &&& row_holds(order_row.columns@, order_columns(), order_param_cells(order))
    &&& item_rows.len() == order.items.len()
    &&& forall|i: int| 0 <= i < item_rows.len() ==> row_holds(
        #[trigger] item_rows[i].columns@,
        item_columns(),
        item_value_cells(order.items[i]),
    )
}

/// An order added to the store reads back, with the rows of its items in the
/// order they were written, as the same order: no field and no item is lost or
/// duplicated.
pub proof fn order_round_trip(order: OrderView, order_row: Row, item_rows: Seq<Row>)
    requires
        holds_order(order, order_row, item_rows),
    ensures
        rows_valid(order_row, item_rows),
        assembled(order_row, item_rows) == order,
{
    order_row_round_trip(order, order_row.columns@);
    assert forall|i: int| 0 <= i < item_rows.len() implies item_row_valid(
        #[trigger] item_rows[i].columns@,
    ) && item_of_row(item_rows[i].columns@) == order.items[i] by {
        item_row_round_trip(order.items[i], item_rows[i].columns@);
    }
    assert(items_of_rows(item_rows) =~= order.items);
}

/// The store may hand the item rows back in any order: read back, the order
/// has each of its items exactly once, in the order of the rows. `perm` says
/// which item each row was written for; no two rows were written for the same
/// item.
pub proof fn order_round_trip_any_item_order(
    order: OrderView,
    order_row: Row,
    item_rows: Seq<Row>,
    perm: Seq<int>,
)
    requires
        row_holds(order_row.columns@, order_columns(), order_param_cells(order)),
        item_rows.len() == order.items.len(),
        perm.len() == item_rows.len(),
        forall|i: int| 0 <= i < perm.len() ==> 0 <= #[trigger] perm[i] < order.items.len(),
        forall|i: int, j: int| 0 <= i < j < perm.len() ==> perm[i] != perm[j],
        forall|i: int| 0 <= i < item_rows.len() ==> row_holds(
            #[trigger] item_rows[i].columns@,
            item_columns(),
            item_value_cells(order.items[perm[i]]),
        ),
    ensures
        rows_valid(order_row, item_rows),
        assembled(order_row, item_rows) == (OrderView {
            items: Seq::new(item_rows.len(), |i: int| order.items[perm[i]]),
            ..order
        }),
{
    order_row_round_trip(order, order_row.columns@);
    assert forall|i: int| 0 <= i < item_rows.len() implies item_row_valid(
        #[trigger] item_rows[i].columns@,
    ) && item_of_row(item_rows[i].columns@) == order.items[perm[i]] by {
        item_row_round_trip(order.items[perm[i]], item_rows[i].columns@);
    }
    assert(items_of_rows(item_rows) =~= Seq::new(item_rows.len(), |i: int| order.items[perm[i]]));
}

/// A listing of stored orders reads back as those orders, each once, with
/// its items.
pub proof fn listing_round_trip(orders: Seq<OrderView>, listed: Seq<(Row, Vec<Row>)>)
    requires
        listed.len() == orders.len(),
        forall|j: int| 0 <= j < listed.len() ==> holds_order(
            #[trigger] orders[j],
            listed[j].0,
            listed[j].1@,
        ),
    ensures
        listed_valid(listed),
        forall|j: int| 0 <= j < listed.len() ==> #[trigger] assembled(listed[j].0, listed[j].1@)
            == orders[j],
{
    assert forall|j: int| 0 <= j < listed.len() implies rows_valid(#[trigger] listed[j].0, listed[j].1@)
        && assembled(listed[j].0, listed[j].1@) == orders[j] by {
        order_round_trip(orders[j], listed[j].0, listed[j].1@);
    }
}

} // verus!
