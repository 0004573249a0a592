use crate::cache::{inserted, lookup, no_keys, no_orders, touch, without_key, OrderCache};
use crate::model::{Item, Order, OrderView};
use crate::row::{
    decode_item, decode_order, item_of_row, item_param_cells, item_params, item_row_valid,
    order_of_row, order_param_cells, order_params, order_row_valid, Cell, DecodeError, Row,
};
use vstd::prelude::*;

verus! {

/// What `add` asks of the store.
pub enum AddStep {
    /// An order under this `order_uid` is cached already: the store is not
    /// touched, and the add has succeeded.
    AlreadyKnown,
    /// Run `INSERT_ORDER_SQL` with `order_row`, then `INSERT_ITEM_SQL` with
    /// each of `item_rows` in turn; the add has succeeded once all have run.
    Write { order_row: Vec<Cell>, item_rows: Vec<Vec<Cell>> },
}

/// What `get` asks of the store.
pub enum GetStep {
    /// The cache holds the order: the store is not touched.
    Cached(Order),
    /// Run `SELECT_ORDER_SQL`, and if a row comes back `SELECT_ITEMS_SQL`,
    /// with the `order_uid`; hand the rows to `finish_get`.
    Fetch,
}

/// The cache-aside policy over an order cache. The store itself is driven by
/// the caller: each operation returns what to run against it, and the rows that
/// come back are handed to the repository again. Store errors are the caller's
/// to report unchanged; nothing here retries.
///
/// An add whose store writes fail leaves the order cached with no row behind
/// it, and a later add of the same `order_uid` is then taken as known: this
/// is not healed.
pub struct Repository {
    pub cache: OrderCache,
}

/// `add` writes to the store exactly when no order under the key is cached.
pub open spec fn add_writes(cache: Map<Seq<char>, OrderView>, order: OrderView) -> bool {
    !cache.contains_key(order.key())
}

/// `step` is the write of `order`: its own row, then one row per item, in order.
pub open spec fn writes_order(step: AddStep, order: OrderView) -> bool {
    match step {
        AddStep::Write { order_row, item_rows } => {
            &&& order_row@ == order_param_cells(order)
            &&& item_rows@.len() == order.items.len()
            &&& forall|i: int| 0 <= i < item_rows@.len()
                ==> #[trigger] item_rows@[i]@ == item_param_cells(order.order_uid, order.items[i])
        },
        AddStep::AlreadyKnown => false,
    }
}

/// Every row of `rows` is a valid item row.
pub open spec fn item_rows_valid(rows: Seq<Row>) -> bool {
    forall|i: int| 0 <= i < rows.len() ==> item_row_valid(#[trigger] rows[i].columns@)
}

/// The items that valid item rows hold, in the order of the rows.
pub open spec fn items_of_rows(rows: Seq<Row>) -> Seq<Item> {
    Seq::new(rows.len(), |i: int| item_of_row(rows[i].columns@))
}

/// The order that an order row and the rows of its items make up.
pub open spec fn assembled(order_row: Row, item_rows: Seq<Row>) -> OrderView {
    OrderView { items: items_of_rows(item_rows), ..order_of_row(order_row.columns@) }
}

/// The rows can be read as an order with its items.
pub open spec fn rows_valid(order_row: Row, item_rows: Seq<Row>) -> bool {
    order_row_valid(order_row.columns@) && item_rows_valid(item_rows)
}

/// `e` describes one of the rows.
pub open spec fn describes_some_row(e: DecodeError, order_row: Row, item_rows: Seq<Row>) -> bool {
    e.describes(order_row.columns@) || exists|i: int|
        0 <= i < item_rows.len() && e.describes(#[trigger] item_rows[i].columns@)
}

/// Reads the item rows of an order, in their order. Fails exactly when one of
/// them cannot be read.
pub fn decode_items(rows: &Vec<Row>) -> (r: Result<Vec<Item>, DecodeError>)
    ensures
        r is Ok <==> item_rows_valid(rows@),
        match r {
            Ok(items) => items@ == items_of_rows(rows@),
            Err(e) => exists|i: int| 0 <= i < rows@.len() && e.describes(#[trigger] rows@[i].columns@),
        },
{
    let mut items: Vec<Item> = Vec::new();
    let mut i: usize = 0;
    while i < rows.len()
        invariant
            i <= rows@.len(),
            items@ == items_of_rows(rows@.subrange(0, i as int)),
            item_rows_valid(rows@.subrange(0, i as int)),
        decreases rows@.len() - i,
    {
        match decode_item(&rows[i]) {
            Ok(item) => {
                items.push(item);
                assert(rows@.subrange(0, i + 1).drop_last() =~= rows@.subrange(0, i as int));
                assert(items@ =~= items_of_rows(rows@.subrange(0, i + 1)));
                assert(item_rows_valid(rows@.subrange(0, i + 1))) by {
                    assert forall|j: int| 0 <= j < i + 1 implies item_row_valid(
                        #[trigger] rows@.subrange(0, i + 1)[j].columns@,
                    ) by {
                        if j < i {
                            assert(rows@.subrange(0, i + 1)[j] == rows@.subrange(0, i as int)[j]);
                        }
                    }
                }
            },
            Err(e) => {
                return Err(e);
            },
        }
        i = i + 1;
    }
    assert(rows@.subrange(0, i as int) =~= rows@);
    Ok(items)
}

/// Reads an order row and the rows of its items as one order. Fails exactly
/// when one of the rows cannot be read.
pub fn assemble_order(order_row: &Row, item_rows: &Vec<Row>) -> (r: Result<Order, DecodeError>)
    ensures
        r is Ok <==> rows_valid(*order_row, item_rows@),
        match r {
            Ok(o) => o@ == assembled(*order_row, item_rows@),
            Err(e) => describes_some_row(e, *order_row, item_rows@),
        },
{
    let order = match decode_order(order_row) {
        Ok(o) => o,
        Err(e) => {
            return Err(e);
        },
    };
    let items = match decode_items(item_rows) {
        Ok(items) => items,
        Err(e) => {
            return Err(e);
        },
    };
    Ok(Order { items, ..order })
}

/// The order rows of a listing, each with the rows of its items.
pub open spec fn listed_valid(listed: Seq<(Row, Vec<Row>)>) -> bool {
    forall|i: int| 0 <= i < listed.len() ==> rows_valid(#[trigger] listed[i].0, listed[i].1@)
}

/// Reads a listing: each order row with the rows of its items, as orders in
/// the order of the rows. Fails exactly when one of the rows cannot be read.
/// The cache takes no part in listing.
pub fn assemble_orders(listed: &Vec<(Row, Vec<Row>)>) -> (r: Result<Vec<Order>, DecodeError>)
    ensures
        r is Ok <==> listed_valid(listed@),
        match r {
            Ok(orders) => orders@.len() == listed@.len() && forall|i: int| 0 <= i < listed@.len()
                ==> #[trigger] orders@[i]@ == assembled(listed@[i].0, listed@[i].1@),
            Err(e) => exists|i: int| 0 <= i < listed@.len()
                && describes_some_row(e, #[trigger] listed@[i].0, listed@[i].1@),
        },
{
    let mut orders: Vec<Order> = Vec::new();
    let mut i: usize = 0;
    while i < listed.len()
        invariant
            i <= listed@.len(),
            orders@.len() == i,
            forall|j: int| 0 <= j < i ==> rows_valid(#[trigger] listed@[j].0, listed@[j].1@),
            forall|j: int| 0 <= j < i ==> #[trigger] orders@[j]@ == assembled(listed@[j].0, listed@[j].1@),
        decreases listed@.len() - i,
    {
        match assemble_order(&listed[i].0, &listed[i].1) {
            Ok(o) => {
                orders.push(o);
            },
            Err(e) => {
                return Err(e);
            },
        }
        i = i + 1;
    }
    Ok(orders)
}

/// How many orders the cache of a repository made by `init` holds.
pub const CACHE_CAPACITY: usize = 10;

impl Repository {
    /// The cache is consistent and within its capacity.
    pub open spec fn wf(&self) -> bool {
        self.cache.wf()
    }

    /// A repository over an empty cache of `CACHE_CAPACITY` orders.
    pub fn init() -> (r: Repository)
        ensures
            r.wf(),
            r.cache@ == no_orders(),
            r.cache.recency() == no_keys(),
            r.cache.capacity() == CACHE_CAPACITY,
    {
        Repository::new(CACHE_CAPACITY)
    }

    /// A repository over an empty cache of at most `capacity` orders.
    pub fn new(capacity: usize) -> (r: Repository)
        requires
            capacity > 0,
        ensures
            r.wf(),
            r.cache@ == no_orders(),
            r.cache.recency() == no_keys(),
            r.cache.capacity() == capacity,
    {
        Repository { cache: OrderCache::new(capacity) }
    }

    /// Adds an order. It is cached first under its `order_uid`, replacing an
    /// entry there; if an entry was there the store is not touched, else the
    /// order's rows are handed back to be written.
    pub fn add(&mut self, order: Order) -> (r: AddStep)
        requires
            old(self).wf(),
        ensures
            inserted(old(self).cache, final(self).cache, order@.key(), order@),
            add_writes(old(self).cache@, order@) ==> writes_order(r, order@),
            !add_writes(old(self).cache@, order@) ==> r is AlreadyKnown,
    {
        let order_row = order_params(&order);
        let mut item_rows: Vec<Vec<Cell>> = Vec::new();
        let mut i: usize = 0;
        while i < order.items.len()
            invariant
                i <= order.items@.len(),
                item_rows@.len() == i,
                forall|j: int| 0 <= j < i
                    ==> #[trigger] item_rows@[j]@ == item_param_cells(order.order_uid, order.items@[j]),
            decreases order.items@.len() - i,
        {
            item_rows.push(item_params(&order.order_uid, &order.items[i]));
            i = i + 1;
        }
        let step = AddStep::Write { order_row, item_rows };
        assert(writes_order(step, order@));
        let key = order.order_uid.clone();
        if self.cache.insert(key, order) {
            AddStep::AlreadyKnown
        } else {
            step
        }
    }

    /// Looks an order up in the cache; a hit makes it the most recently used.
    /// On a miss the store is to be asked.
    pub fn get(&mut self, order_uid: &str) -> (r: GetStep)
        requires
            old(self).wf(),
        ensures
            final(self).wf(),
            final(self).cache@ == old(self).cache@,
            final(self).cache.capacity() == old(self).cache.capacity(),
            match r {
                GetStep::Cached(o) => lookup(old(self).cache@, order_uid@) == Some(o@)
                    && final(self).cache.recency() == touch(old(self).cache.recency(), order_uid@),
                GetStep::Fetch => lookup(old(self).cache@, order_uid@) is None
                    && final(self).cache.recency() == old(self).cache.recency(),
            },
    {
        match self.cache.peek_or_fetch(order_uid) {
            Some(o) => GetStep::Cached(o),
            None => GetStep::Fetch,
        }
    }

    /// Finishes a `get` of `order_uid` that missed the cache, with the order
    /// row that the store returned, if any, and the rows of its items. An
    /// absent row is "not found" and nothing is cached; rows that cannot be
    /// read are an error and nothing is cached; else the order is cached under
    /// `order_uid` and returned.
    pub fn finish_get(&mut self, order_uid: &str, order_row: Option<Row>, item_rows: Vec<Row>) -> (r:
        Result<Option<Order>, DecodeError>)
        requires
            old(self).wf(),
        ensures
            match order_row {
                None => r matches Ok(None) && final(self).cache == old(self).cache,
                Some(row) => match r {
                    Ok(Some(o)) => rows_valid(row, item_rows@) && o@ == assembled(row, item_rows@)
                        && inserted(old(self).cache, final(self).cache, order_uid@, o@),
                    Ok(None) => false,
                    Err(e) => !rows_valid(row, item_rows@) && describes_some_row(e, row, item_rows@)
                        && final(self).cache == old(self).cache,
                },
            },
    {
        match order_row {
            None => Ok(None),
            Some(row) => match assemble_order(&row, &item_rows) {
                Ok(o) => {
                    let cached = o.clone();
                    let _ = self.cache.insert(order_uid.to_owned(), cached);
                    Ok(Some(o))
                },
                Err(e) => Err(e),
            },
        }
    }

    /// Drops the order from the cache, whether it was there or not; the store
    /// is then to run `DELETE_ORDER_SQL` with the `order_uid`. Removing an
    /// order that does not exist is no error.
    pub fn remove(&mut self, order_uid: &str)
        requires
            old(self).wf(),
        ensures
            final(self).wf(),
            final(self).cache@ == old(self).cache@.remove(order_uid@),
            final(self).cache.recency() == without_key(old(self).cache.recency(), order_uid@),
            final(self).cache.capacity() == old(self).cache.capacity(),
    {
        self.cache.remove(order_uid);
    }
}

} // verus!
