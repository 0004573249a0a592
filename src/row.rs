use crate::model::{Delivery, Item, Order, OrderView, Payment};
use vstd::prelude::*;

verus! {

/// One value of a row of the store.
#[derive(Debug, PartialEq)]
pub enum Cell {
    Text(String),
    Int(i32),
    BigInt(i64),
    Null,
}

/// A row of the store: named columns, each with its value. Where a name
/// occurs twice, the first occurrence counts.
#[derive(Debug, PartialEq)]
pub struct Row {
    pub columns: Vec<(String, Cell)>,
}

/// Why a row could not be read as an order or an item.
#[derive(Debug, PartialEq)]
pub enum DecodeError {
    /// The row has no column of this name.
    MissingColumn(String),
    /// The column of this name holds a value of another type, or null.
    WrongType(String),
}

/// The value under `name` in `c`: the first column of that name.
pub open spec fn cell_of(c: Seq<(String, Cell)>, name: Seq<char>) -> Option<Cell>
    decreases c.len(),
{
    if c.len() == 0 {
        None
    } else if c[0].0@ == name {
        Some(c[0].1)
    } else {
        cell_of(c.drop_first(), name)
    }
}

/// The value under `name` is text.
pub open spec fn has_text(c: Seq<(String, Cell)>, name: Seq<char>) -> bool {
    cell_of(c, name) matches Some(Cell::Text(_))
}

/// The value under `name` is a 32-bit integer.
pub open spec fn has_int(c: Seq<(String, Cell)>, name: Seq<char>) -> bool {
    cell_of(c, name) matches Some(Cell::Int(_))
}

/// The value under `name` is a 64-bit integer.
pub open spec fn has_bigint(c: Seq<(String, Cell)>, name: Seq<char>) -> bool {
    cell_of(c, name) matches Some(Cell::BigInt(_))
}

/// The text under `name`, where `has_text` holds.
pub open spec fn text_at(c: Seq<(String, Cell)>, name: Seq<char>) -> String {
    match cell_of(c, name) {
        Some(Cell::Text(s)) => s,
        _ => arbitrary(),
    }
}

/// The 32-bit integer under `name`, where `has_int` holds.
pub open spec fn int_at(c: Seq<(String, Cell)>, name: Seq<char>) -> i32 {
    match cell_of(c, name) {
        Some(Cell::Int(v)) => v,
        _ => arbitrary(),
    }
}

/// The 64-bit integer under `name`, where `has_bigint` holds.
pub open spec fn bigint_at(c: Seq<(String, Cell)>, name: Seq<char>) -> i64 {
    match cell_of(c, name) {
        Some(Cell::BigInt(v)) => v,
        _ => arbitrary(),
    }
}

impl DecodeError {
    /// The column the error is about.
    pub fn column(&self) -> (r: &String)
        ensures
            *r == self.column_spec(),
    {
        match self {
            DecodeError::MissingColumn(n) => n,
            DecodeError::WrongType(n) => n,
        }
    }

    /// The column the error is about.
    pub open spec fn column_spec(&self) -> String {
        match *self {
            DecodeError::MissingColumn(n) => n,
            DecodeError::WrongType(n) => n,
        }
    }

    /// The error describes `c`: a missing column is missing there, a column of
    /// the wrong type is present there.
    pub open spec fn describes(&self, c: Seq<(String, Cell)>) -> bool {
        match *self {
            DecodeError::MissingColumn(n) => cell_of(c, n@) is None,
            DecodeError::WrongType(n) => cell_of(c, n@) is Some,
        }
    }
}

/// Every column of an order row is there with the type of its field.
pub open spec fn order_row_valid(c: Seq<(String, Cell)>) -> bool {
    &&& has_text(c, "order_uid"@)
    &&& has_text(c, "track_number"@)
    &&& has_text(c, "entry"@)
    &&& has_text(c, "delivery_name"@)
    &&& has_text(c, "delivery_phone"@)
    &&& has_text(c, "delivery_zip"@)
    &&& has_text(c, "delivery_city"@)
    &&& has_text(c, "delivery_address"@)
    &&& has_text(c, "delivery_region"@)
    &&& has_text(c, "delivery_email"@)
    &&& has_text(c, "payment_transaction"@)
    &&& has_text(c, "payment_request_id"@)
    &&& has_text(c, "payment_currency"@)
    &&& has_text(c, "payment_provider"@)
    &&& has_int(c, "payment_amount"@)
    &&& has_bigint(c, "payment_payment_dt"@)
    &&& has_text(c, "payment_bank"@)
    &&& has_int(c, "payment_delivery_cost"@)
    &&& has_int(c, "payment_goods_total"@)
    &&& has_int(c, "payment_custom_fee"@)
    &&& has_text(c, "locale"@)
    &&& has_text(c, "internal_signature"@)
    &&& has_text(c, "customer_id"@)
    &&& has_text(c, "delivery_service"@)
    &&& has_text(c, "shardkey"@)
    &&& has_int(c, "sm_id"@)
    &&& has_text(c, "date_created"@)
    &&& has_text(c, "oof_shard"@)
}

/// Every column of an item row is there with the type of its field.
pub open spec fn item_row_valid(c: Seq<(String, Cell)>) -> bool {
    &&& has_int(c, "chrt_id"@)
    &&& has_text(c, "track_number"@)
    &&& has_int(c, "price"@)
    &&& has_text(c, "rid"@)
    &&& has_text(c, "name"@)
    &&& has_int(c, "sale"@)
    &&& has_text(c, "size"@)
    &&& has_int(c, "total_price"@)
    &&& has_int(c, "nm_id"@)
    &&& has_text(c, "brand"@)
    &&& has_int(c, "status"@)
}

/// The order that a valid order row holds; it has no items, which come from
/// rows of their own.
pub open spec fn order_of_row(c: Seq<(String, Cell)>) -> OrderView {
    OrderView {
        order_uid: text_at(c, "order_uid"@),
        track_number: text_at(c, "track_number"@),
        entry: text_at(c, "entry"@),
        delivery: Delivery {
            name: text_at(c, "delivery_name"@),
            phone: text_at(c, "delivery_phone"@),
            zip: text_at(c, "delivery_zip"@),
            city: text_at(c, "delivery_city"@),
            address: text_at(c, "delivery_address"@),
            region: text_at(c, "delivery_region"@),
            email: text_at(c, "delivery_email"@),
        },
        payment: Payment {
            transaction: text_at(c, "payment_transaction"@),
            request_id: text_at(c, "payment_request_id"@),
            currency: text_at(c, "payment_currency"@),
            provider: text_at(c, "payment_provider"@),
            amount: int_at(c, "payment_amount"@),
            payment_dt: bigint_at(c, "payment_payment_dt"@),
            bank: text_at(c, "payment_bank"@),
            delivery_cost: int_at(c, "payment_delivery_cost"@),
            goods_total: int_at(c, "payment_goods_total"@),
            custom_fee: int_at(c, "payment_custom_fee"@),
        },
        items: Seq::empty(),
        locale: text_at(c, "locale"@),
        internal_signature: text_at(c, "internal_signature"@),
        customer_id: text_at(c, "customer_id"@),
        delivery_service: text_at(c, "delivery_service"@),
        shardkey: text_at(c, "shardkey"@),
        sm_id: int_at(c, "sm_id"@),
        date_created: text_at(c, "date_created"@),
        oof_shard: text_at(c, "oof_shard"@),
    }
}

/// The item that a valid item row holds.
pub open spec fn item_of_row(c: Seq<(String, Cell)>) -> Item {
    Item {
        chrt_id: int_at(c, "chrt_id"@),
        track_number: text_at(c, "track_number"@),
        price: int_at(c, "price"@),
        rid: text_at(c, "rid"@),
        name: text_at(c, "name"@),
        sale: int_at(c, "sale"@),
        size: text_at(c, "size"@),
        total_price: int_at(c, "total_price"@),
        nm_id: int_at(c, "nm_id"@),
        brand: text_at(c, "brand"@),
        status: int_at(c, "status"@),
    }
}

/// The columns of `INSERT_ORDER_SQL`, in the order of its parameters.
pub open spec fn order_columns() -> Seq<Seq<char>> {
    seq![
        "order_uid"@,
        "track_number"@,
        "entry"@,
        "delivery_name"@,
        "delivery_phone"@,
        "delivery_zip"@,
        "delivery_city"@,
        "delivery_address"@,
        "delivery_region"@,
        "delivery_email"@,
        "payment_transaction"@,
        "payment_request_id"@,
        "payment_currency"@,
        "payment_provider"@,
        "payment_amount"@,
        "payment_payment_dt"@,
        "payment_bank"@,
        "payment_delivery_cost"@,
        "payment_goods_total"@,
        "payment_custom_fee"@,
        "locale"@,
        "internal_signature"@,
        "customer_id"@,
        "delivery_service"@,
        "shardkey"@,
        "sm_id"@,
        "date_created"@,
        "oof_shard"@,
    ]
}

/// The columns that `SELECT_ITEMS_SQL` returns, in the order of
/// `item_value_cells`.
pub open spec fn item_columns() -> Seq<Seq<char>> {
    seq![
        "chrt_id"@,
        "track_number"@,
        "price"@,
        "rid"@,
        "name"@,
        "sale"@,
        "size"@,
        "total_price"@,
        "nm_id"@,
        "brand"@,
        "status"@,
    ]
}

/// `c` is a row in which each named column holds the value bound to it: what
/// the store hands back for a row written with these parameters.
pub open spec fn row_holds(c: Seq<(String, Cell)>, names: Seq<Seq<char>>, params: Seq<Cell>) -> bool {
    forall|j: int| 0 <= j < names.len() && j < params.len()
        ==> cell_of(c, #[trigger] names[j]) == Some(params[j])
}

/// Statement that inserts an order row; its parameters are `order_params`.
pub const INSERT_ORDER_SQL: &'static str = "insert into orders (order_uid, track_number, entry, delivery_name, delivery_phone, delivery_zip, delivery_city, delivery_address, delivery_region, delivery_email, payment_transaction, payment_request_id, payment_currency, payment_provider, payment_amount, payment_payment_dt, payment_bank, payment_delivery_cost, payment_goods_total, payment_custom_fee, locale, internal_signature, customer_id, delivery_service, shardkey, sm_id, date_created, oof_shard) values ($1, $2, $3, $4, $5, $6, $7, $8, $9, $10, $11, $12, $13, $14, $15, $16, $17, $18, $19, $20, $21, $22, $23, $24, $25, $26, $27, $28);";

/// Statement that inserts an item row; its parameters are `item_params`.
pub const INSERT_ITEM_SQL: &'static str = "insert into orders_items (order_uid, chrt_id, track_number, price, rid, name, sale, size, total_price, nm_id, brand, status) values ($1, $2, $3, $4, $5, $6, $7, $8, $9, $10, $11, $12);";

/// Statement that selects the order row of the `order_uid` given as `$1`.
pub const SELECT_ORDER_SQL: &'static str = "select order_uid, track_number, entry, delivery_name, delivery_phone, delivery_zip, delivery_city, delivery_address, delivery_region, delivery_email, payment_transaction, payment_request_id, payment_currency, payment_provider, payment_amount, payment_payment_dt, payment_bank, payment_delivery_cost, payment_goods_total, payment_custom_fee, locale, internal_signature, customer_id, delivery_service, shardkey, sm_id, date_created, oof_shard from orders where order_uid = $1;";

/// Statement that selects every order row.
pub const SELECT_ORDERS_SQL: &'static str = "select order_uid, track_number, entry, delivery_name, delivery_phone, delivery_zip, delivery_city, delivery_address, delivery_region, delivery_email, payment_transaction, payment_request_id, payment_currency, payment_provider, payment_amount, payment_payment_dt, payment_bank, payment_delivery_cost, payment_goods_total, payment_custom_fee, locale, internal_signature, customer_id, delivery_service, shardkey, sm_id, date_created, oof_shard from orders;";

/// Statement that selects the item rows of the `order_uid` given as `$1`.
pub const SELECT_ITEMS_SQL: &'static str = "select chrt_id, track_number, price, rid, name, sale, size, total_price, nm_id, brand, status from orders_items where order_uid = $1;";

/// Statement that deletes the order row of the `order_uid` given as `$1`.
pub const DELETE_ORDER_SQL: &'static str = "delete from orders where order_uid = $1;";

/// The parameters of `INSERT_ORDER_SQL` for an order, in the order of its
/// column list.
pub open spec fn order_param_cells(o: OrderView) -> Seq<Cell> {
    seq![
        Cell::Text(o.order_uid),
        Cell::Text(o.track_number),
        Cell::Text(o.entry),
        Cell::Text(o.delivery.name),
        Cell::Text(o.delivery.phone),
        Cell::Text(o.delivery.zip),
        Cell::Text(o.delivery.city),
        Cell::Text(o.delivery.address),
        Cell::Text(o.delivery.region),
        Cell::Text(o.delivery.email),
        Cell::Text(o.payment.transaction),
        Cell::Text(o.payment.request_id),
        Cell::Text(o.payment.currency),
        Cell::Text(o.payment.provider),
        Cell::Int(o.payment.amount),
        Cell::BigInt(o.payment.payment_dt),
        Cell::Text(o.payment.bank),
        Cell::Int(o.payment.delivery_cost),
        Cell::Int(o.payment.goods_total),
        Cell::Int(o.payment.custom_fee),
        Cell::Text(o.locale),
        Cell::Text(o.internal_signature),
        Cell::Text(o.customer_id),
        Cell::Text(o.delivery_service),
        Cell::Text(o.shardkey),
        Cell::Int(o.sm_id),
        Cell::Text(o.date_created),
        Cell::Text(o.oof_shard),
    ]
}

/// The values of an item's own columns, in the order of `item_columns`.
pub open spec fn item_value_cells(i: Item) -> Seq<Cell> {
    seq![
        Cell::Int(i.chrt_id),
        Cell::Text(i.track_number),
        Cell::Int(i.price),
        Cell::Text(i.rid),
        Cell::Text(i.name),
        Cell::Int(i.sale),
        Cell::Text(i.size),
        Cell::Int(i.total_price),
        Cell::Int(i.nm_id),
        Cell::Text(i.brand),
        Cell::Int(i.status),
    ]
}

/// The parameters of `INSERT_ITEM_SQL` for an item of the order `uid`.
pub open spec fn item_param_cells(uid: String, i: Item) -> Seq<Cell> {
    seq![Cell::Text(uid)] + item_value_cells(i)
}

/// The parameters that write `o`'s own row.
pub fn order_params(o: &Order) -> (r: Vec<Cell>)
    ensures
        r@ == order_param_cells(o@),
{
        vec![
            Cell::Text(o.order_uid.clone()),
            Cell::Text(o.track_number.clone()),
            Cell::Text(o.entry.clone()),
            Cell::Text(o.delivery.name.clone()),
            Cell::Text(o.delivery.phone.clone()),
            Cell::Text(o.delivery.zip.clone()),
            Cell::Text(o.delivery.city.clone()),
            Cell::Text(o.delivery.address.clone()),
            Cell::Text(o.delivery.region.clone()),
            Cell::Text(o.delivery.email.clone()),
            Cell::Text(o.payment.transaction.clone()),
            Cell::Text(o.payment.request_id.clone()),
            Cell::Text(o.payment.currency.clone()),
            Cell::Text(o.payment.provider.clone()),
            Cell::Int(o.payment.amount),
            Cell::BigInt(o.payment.payment_dt),
            Cell::Text(o.payment.bank.clone()),
            Cell::Int(o.payment.delivery_cost),
            Cell::Int(o.payment.goods_total),
            Cell::Int(o.payment.custom_fee),
            Cell::Text(o.locale.clone()),
            Cell::Text(o.internal_signature.clone()),
            Cell::Text(o.customer_id.clone()),
            Cell::Text(o.delivery_service.clone()),
            Cell::Text(o.shardkey.clone()),
            Cell::Int(o.sm_id),
            Cell::Text(o.date_created.clone()),
            Cell::Text(o.oof_shard.clone()),
        ]
}

/// The parameters that write the row of item `i` of the order `order_uid`.
pub fn item_params(order_uid: &String, i: &Item) -> (r: Vec<Cell>)
    ensures
        r@ == item_param_cells(*order_uid, *i),
{
    let r = vec![
        Cell::Text(order_uid.clone()),
        Cell::Int(i.chrt_id),
        Cell::Text(i.track_number.clone()),
        Cell::Int(i.price),
        Cell::Text(i.rid.clone()),
        Cell::Text(i.name.clone()),
        Cell::Int(i.sale),
        Cell::Text(i.size.clone()),
        Cell::Int(i.total_price),
        Cell::Int(i.nm_id),
        Cell::Text(i.brand.clone()),
        Cell::Int(i.status),
    ];
    assert(r@ =~= item_param_cells(*order_uid, *i));
    r
}

impl Row {
    /// The value under `name`, from the first column of that name.
    pub fn cell(&self, name: &str) -> (r: Option<&Cell>)
        ensures
            match r {
                Some(v) => cell_of(self.columns@, name@) == Some(*v),
                None => cell_of(self.columns@, name@) is None,
            },
    {
        let wanted = name.to_owned();
        let n = self.columns.len();
        let mut i: usize = 0;
        assert(self.columns@.subrange(0, n as int) =~= self.columns@);
        while i < n
            invariant
                n == self.columns@.len(),
                i <= n,
                wanted@ == name@,
                cell_of(self.columns@, name@) == cell_of(self.columns@.subrange(i as int, n as int), name@),
            decreases n - i,
        {
            let rest = Ghost(self.columns@.subrange(i as int, n as int));
            assert(rest@.drop_first() =~= self.columns@.subrange(i + 1, n as int));
            if self.columns[i].0 == wanted {
                return Some(&self.columns[i].1);
            }
            i = i + 1;
        }
        assert(self.columns@.subrange(i as int, n as int).len() == 0);
        None
    }

    /// The text under `name`.
    pub fn text(&self, name: &str) -> (r: Result<String, DecodeError>)
        ensures
            match r {
                Ok(s) => cell_of(self.columns@, name@) == Some(Cell::Text(s)),
                Err(e) => !has_text(self.columns@, name@) && e.column_spec()@ == name@
                    && e.describes(self.columns@),
            },
    {
        match self.cell(name) {
            Some(Cell::Text(s)) => Ok(s.clone()),
            Some(_) => Err(DecodeError::WrongType(name.to_owned())),
            None => Err(DecodeError::MissingColumn(name.to_owned())),
        }
    }

    /// The 32-bit integer under `name`.
    pub fn int4(&self, name: &str) -> (r: Result<i32, DecodeError>)
        ensures
            match r {
                Ok(v) => cell_of(self.columns@, name@) == Some(Cell::Int(v)),
                Err(e) => !has_int(self.columns@, name@) && e.column_spec()@ == name@
                    && e.describes(self.columns@),
            },
    {
        match self.cell(name) {
            Some(Cell::Int(v)) => Ok(*v),
            Some(_) => Err(DecodeError::WrongType(name.to_owned())),
            None => Err(DecodeError::MissingColumn(name.to_owned())),
        }
    }

    /// The 64-bit integer under `name`.
    pub fn int8(&self, name: &str) -> (r: Result<i64, DecodeError>)
        ensures
            match r {
                Ok(v) => cell_of(self.columns@, name@) == Some(Cell::BigInt(v)),
                Err(e) => !has_bigint(self.columns@, name@) && e.column_spec()@ == name@
                    && e.describes(self.columns@),
            },
    {
        match self.cell(name) {
            Some(Cell::BigInt(v)) => Ok(*v),
            Some(_) => Err(DecodeError::WrongType(name.to_owned())),
            None => Err(DecodeError::MissingColumn(name.to_owned())),
        }
    }
}

/// Reads an order row. The order comes without items: they are read from rows
/// of their own and added by the caller. Fails, naming a column, exactly when a
/// column is missing or holds another type; no field is ever defaulted.
pub fn decode_order(row: &Row) -> (r: Result<Order, DecodeError>)
    ensures
        r is Ok <==> order_row_valid(row.columns@),
        match r {
            Ok(o) => o@ == order_of_row(row.columns@),
            Err(e) => e.describes(row.columns@),
        },
{
        Ok(Order {
            order_uid: row.text("order_uid")?,
            track_number: row.text("track_number")?,
            entry: row.text("entry")?,
            delivery: Delivery {
                name: row.text("delivery_name")?,
                phone: row.text("delivery_phone")?,
                zip: row.text("delivery_zip")?,
                city: row.text("delivery_city")?,
                address: row.text("delivery_address")?,
                region: row.text("delivery_region")?,
                email: row.text("delivery_email")?,
            },
            payment: Payment {
                transaction: row.text("payment_transaction")?,
                request_id: row.text("payment_request_id")?,
                currency: row.text("payment_currency")?,
                provider: row.text("payment_provider")?,
                amount: row.int4("payment_amount")?,
                payment_dt: row.int8("payment_payment_dt")?,
                bank: row.text("payment_bank")?,
                delivery_cost: row.int4("payment_delivery_cost")?,
                goods_total: row.int4("payment_goods_total")?,
                custom_fee: row.int4("payment_custom_fee")?,
            },
            items: Vec::new(),
            locale: row.text("locale")?,
            internal_signature: row.text("internal_signature")?,
            customer_id: row.text("customer_id")?,
            delivery_service: row.text("delivery_service")?,
            shardkey: row.text("shardkey")?,
            sm_id: row.int4("sm_id")?,
            date_created: row.text("date_created")?,
            oof_shard: row.text("oof_shard")?,
        })
}

/// Reads an item row. Fails, naming a column, exactly when a column is missing
/// or holds another type.
pub fn decode_item(row: &Row) -> (r: Result<Item, DecodeError>)
    ensures
        r is Ok <==> item_row_valid(row.columns@),
        match r {
            Ok(i) => i == item_of_row(row.columns@),
            Err(e) => e.describes(row.columns@),
        },
{
        Ok(Item {
            chrt_id: row.int4("chrt_id")?,
            track_number: row.text("track_number")?,
            price: row.int4("price")?,
            rid: row.text("rid")?,
            name: row.text("name")?,
            sale: row.int4("sale")?,
            size: row.text("size")?,
            total_price: row.int4("total_price")?,
            nm_id: row.int4("nm_id")?,
            brand: row.text("brand")?,
            status: row.int4("status")?,
        })
}

} // verus!
