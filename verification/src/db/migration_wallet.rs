//! The one-time wallet migration: paid orders with a client are replayed
//! into the ledger as `migration` entries, each order at most once.

use vstd::prelude::*;

use crate::domain::wallet::{LedgerEntryType, WalletLedgerEntry};
use crate::text::{concat2, str_eq, string_of};

verus! {

/// A paid order with a client, as read for the migration.
#[derive(Debug, Clone)]
pub struct MigrationOrder {
    pub order_id: String,
    pub client_id: String,
    pub total: i64,
}

/// The view of a migration order: (order id, client id, total).
pub open spec fn order_key(o: MigrationOrder) -> (Seq<char>, Seq<char>, i64) {
    (o.order_id@, o.client_id@, o.total)
}

/// Whether the migration runs: the orders table must exist, no migration
/// entry may exist yet, and the ledger table must exist.
pub fn migration_should_run(orders_table: bool, already_migrated: bool, ledger_table: bool) -> (r: bool)
    ensures
        r == (orders_table && !already_migrated && ledger_table),
{
    orders_table && !already_migrated && ledger_table
}

/// The orders still to replay, in order: those whose id is not already the
/// reference of a migration entry (`refs`).
pub open spec fn pending_orders(orders: Seq<(Seq<char>, Seq<char>, i64)>, refs: Seq<Seq<char>>) -> Seq<(Seq<char>, Seq<char>, i64)>
    decreases orders.len(),
{
    if orders.len() == 0 {
        Seq::empty()
    } else if refs.contains(orders.last().0) {
        pending_orders(orders.drop_last(), refs)
    } else {
        pending_orders(orders.drop_last(), refs).push(orders.last())
    }
}

fn is_referenced(refs: &Vec<String>, id: &str) -> (r: bool)
    ensures
        r == refs@.map_values(|s: String| s@).contains(id@),
{
    let ghost views = refs@.map_values(|s: String| s@);
    let mut i: usize = 0;
    while i < refs.len()
        invariant
            i <= refs.len(),
            views == refs@.map_values(|s: String| s@),
            forall|j: int| 0 <= j < i ==> views[j] != id@,
        decreases refs.len() - i,
    {
        if str_eq(refs[i].as_str(), id) {
            assert(views[i as int] == id@);
            return true;
        }
        i = i + 1;
    }
    false
}

/// The orders the migration replays (see `pending_orders`), given the
/// references of the migration entries already in the ledger.
pub fn plan_migration(orders: &Vec<MigrationOrder>, existing: &Vec<String>) -> (r: Vec<MigrationOrder>)
    ensures
        r@.map_values(|o: MigrationOrder| order_key(o)) == pending_orders(
            orders@.map_values(|o: MigrationOrder| order_key(o)),
            existing@.map_values(|s: String| s@),
        ),
{
    let ghost keys = orders@.map_values(|o: MigrationOrder| order_key(o));
    let ghost refs = existing@.map_values(|s: String| s@);
    let mut out: Vec<MigrationOrder> = Vec::new();
    let mut i: usize = 0;
    while i < orders.len()
        invariant
            i <= orders.len(),
            keys == orders@.map_values(|o: MigrationOrder| order_key(o)),
            refs == existing@.map_values(|s: String| s@),
            out@.map_values(|o: MigrationOrder| order_key(o)) == pending_orders(keys.take(i as int), refs),
        decreases orders.len() - i,
    {
        let o = &orders[i];
        assert(keys.take(i + 1).drop_last() =~= keys.take(i as int));
        assert(keys.take(i + 1).last() == order_key(orders@[i as int]));
        if !is_referenced(existing, o.order_id.as_str()) {
            let c = MigrationOrder { order_id: o.order_id.clone(), client_id: o.client_id.clone(), total: o.total };
            let ghost before = out@;
            out.push(c);
            assert(out@.map_values(|o: MigrationOrder| order_key(o)) =~= before.map_values(|o: MigrationOrder| order_key(o)).push(order_key(c)));
        }
        i = i + 1;
    }
    assert(keys.take(orders@.len() as int) =~= keys);
    out
}

/// The phone of the placeholder client created for an order whose client has
/// no wallet: `CLI-` and the first eight characters of the client id (the
/// whole id when it is shorter).
pub fn placeholder_phone(client_id: &str) -> (r: String)
    ensures
        r@ == "CLI-"@ + client_id@.take(if client_id@.len() < 8 { client_id@.len() as int } else { 8 }),
{
    let n = client_id.unicode_len();
    let k: usize = if n < 8 { n } else { 8 };
    let head = client_id.substring_char(0, k);
    concat2("CLI-", head)
}

/// The ledger entry that replays a paid order: a `migration` entry of the
/// order's total, referencing the order.
pub fn migration_entry(id: String, order: &MigrationOrder, now: String) -> (r: WalletLedgerEntry)
    ensures
        r.id@ == id@,
        r.client_id@ == order.client_id@,
        r.entry_type == LedgerEntryType::Migration,
        r.amount == order.total,
        r.reference matches Some(x) && x@ == order.order_id@,
        r.description matches Some(d) && d@ == "Migration commande anterieure"@,
        r.created_at@ == now@,
{
    WalletLedgerEntry {
        id,
        client_id: order.client_id.clone(),
        entry_type: LedgerEntryType::Migration,
        amount: order.total,
        reference: Some(order.order_id.clone()),
        description: Some(string_of("Migration commande anterieure")),
        created_at: now,
    }
}

proof fn lemma_pending_covers(orders: Seq<(Seq<char>, Seq<char>, i64)>, refs: Seq<Seq<char>>, k: int)
    requires
        0 <= k < orders.len(),
    ensures
        refs.contains(orders[k].0) || pending_orders(orders, refs).contains(orders[k]),
    decreases orders.len(),
{
    let p = pending_orders(orders.drop_last(), refs);
    if k < orders.len() - 1 {
        lemma_pending_covers(orders.drop_last(), refs, k);
        assert(orders.drop_last()[k] == orders[k]);
        if p.contains(orders[k]) {
            let j = choose|j: int| 0 <= j < p.len() && p[j] == orders[k];
            if !refs.contains(orders.last().0) {
                assert(p.push(orders.last())[j] == orders[k]);
            }
        }
    } else if !refs.contains(orders.last().0) {
        assert(p.push(orders.last())[p.len() as int] == orders[k]);
    }
}

proof fn lemma_nothing_pending(orders: Seq<(Seq<char>, Seq<char>, i64)>, refs: Seq<Seq<char>>)
    requires
        forall|k: int| 0 <= k < orders.len() ==> refs.contains(#[trigger] orders[k].0),
    ensures
        pending_orders(orders, refs).len() == 0,
    decreases orders.len(),
{
    if orders.len() > 0 {
        assert(refs.contains(orders[orders.len() - 1].0));
        assert forall|k: int| 0 <= k < orders.drop_last().len() implies refs.contains(#[trigger] orders.drop_last()[k].0) by {
            assert(orders.drop_last()[k] == orders[k]);
        }
        lemma_nothing_pending(orders.drop_last(), refs);
    }
}

/// The migration is idempotent: once the planned orders have been replayed
/// (their ids added to the references of the ledger's migration entries), a
/// second plan replays nothing.
pub proof fn lemma_migration_idempotent(orders: Seq<(Seq<char>, Seq<char>, i64)>, refs: Seq<Seq<char>>)
    ensures
        pending_orders(
            orders,
            refs + pending_orders(orders, refs).map_values(|o: (Seq<char>, Seq<char>, i64)| o.0),
        ).len() == 0,
{
    let done = pending_orders(orders, refs);
    let after = refs + done.map_values(|o: (Seq<char>, Seq<char>, i64)| o.0);
    assert forall|k: int| 0 <= k < orders.len() implies after.contains(#[trigger] orders[k].0) by {
        lemma_pending_covers(orders, refs, k);
        if refs.contains(orders[k].0) {
            let j = choose|j: int| 0 <= j < refs.len() && refs[j] == orders[k].0;
            assert(after[j] == orders[k].0);
        } else {
            let j = choose|j: int| 0 <= j < done.len() && done[j] == orders[k];
            assert(after[refs.len() + j] == orders[k].0);
        }
    }
    lemma_nothing_pending(orders, after);
}

} // verus!
