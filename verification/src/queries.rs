//! The SQL statements the bot sends to its database.
use vstd::prelude::*;
use crate::inventory::Item;
use crate::passive::Passive;
use crate::text::{decimal, decimal_int, push_decimal, push_int, push_str};

verus! {

/// The tables the bot keeps: users with their experience, Leaves and
/// cooldowns; the items each user owns, one row per item, quality and
/// modifier; and the passives on each user with when they run out. Each
/// statement leaves a table that is already there as it is.
pub fn create_table_statements() -> (r: Vec<&'static str>)
    ensures
        r@.len() == 3,
        r@[0]@ == "
        CREATE TABLE IF NOT EXISTS user (
            id         INTEGER PRIMARY KEY,
            exp        INTEGER NOT NULL DEFAULT 0,
            leaves     INTEGER NOT NULL DEFAULT 0,
            last_raked INTEGER NOT NULL DEFAULT 0,
            last_daily INTEGER NOT NULL DEFAULT 0
        )"@,
        r@[1]@ == "
        CREATE TABLE IF NOT EXISTS item (
            user_id  INTEGER NOT NULL,
            item_id  INTEGER NOT NULL,
            quantity INTEGER NOT NULL DEFAULT 0,
            quality  INTEGER NOT NULL DEFAULT 0,
            modifier INTEGER NOT NULL DEFAULT 0,
            PRIMARY KEY (user_id, item_id, quality, modifier),
            FOREIGN KEY (user_id) REFERENCES user(id)
        )"@,
        r@[2]@ == "
        CREATE TABLE IF NOT EXISTS passive (
            user_id    INTEGER NOT NULL,
            passive_id INTEGER NOT NULL,
            expires_at INTEGER NOT NULL DEFAULT 0,
            PRIMARY KEY (user_id, passive_id),
            FOREIGN KEY (user_id) REFERENCES user(id)
        )"@,
{
    let mut r: Vec<&'static str> = Vec::new();
    r.push("
        CREATE TABLE IF NOT EXISTS user (
            id         INTEGER PRIMARY KEY,
            exp        INTEGER NOT NULL DEFAULT 0,
            leaves     INTEGER NOT NULL DEFAULT 0,
            last_raked INTEGER NOT NULL DEFAULT 0,
            last_daily INTEGER NOT NULL DEFAULT 0
        )");
    r.push("
        CREATE TABLE IF NOT EXISTS item (
            user_id  INTEGER NOT NULL,
            item_id  INTEGER NOT NULL,
            quantity INTEGER NOT NULL DEFAULT 0,
            quality  INTEGER NOT NULL DEFAULT 0,
            modifier INTEGER NOT NULL DEFAULT 0,
            PRIMARY KEY (user_id, item_id, quality, modifier),
            FOREIGN KEY (user_id) REFERENCES user(id)
        )");
    r.push("
        CREATE TABLE IF NOT EXISTS passive (
            user_id    INTEGER NOT NULL,
            passive_id INTEGER NOT NULL,
            expires_at INTEGER NOT NULL DEFAULT 0,
            PRIMARY KEY (user_id, passive_id),
            FOREIGN KEY (user_id) REFERENCES user(id)
        )");
    r
}

/// Registers a user, unless already there.
pub open spec fn register_spec(user_id: int) -> Seq<char> {
    "INSERT OR IGNORE INTO user (id) VALUES ("@ + decimal_int(user_id) + ")"@
}

pub fn register_query(user_id: i64) -> (r: String)
    ensures
        r@ == register_spec(user_id as int),
{
    let mut q = String::new();
    push_str(&mut q, "INSERT OR IGNORE INTO user (id) VALUES (");
    push_int(&mut q, user_id);
    push_str(&mut q, ")");
    assert(q@ =~= register_spec(user_id as int));
    q
}

/// Reads one column of a user's row.
pub open spec fn user_field_spec(field: Seq<char>, user_id: int) -> Seq<char> {
    "SELECT "@ + field + " FROM user WHERE id = "@ + decimal_int(user_id)
}

pub fn user_field_query(field: &str, user_id: i64) -> (r: String)
    ensures
        r@ == user_field_spec(field@, user_id as int),
{
    let mut q = String::new();
    push_str(&mut q, "SELECT ");
    push_str(&mut q, field);
    push_str(&mut q, " FROM user WHERE id = ");
    push_int(&mut q, user_id);
    assert(q@ =~= user_field_spec(field@, user_id as int));
    q
}

/// Reads the passives of a user that outlast `time`.
pub open spec fn passives_spec(user_id: int, time: int) -> Seq<char> {
    "SELECT passive_id, expires_at FROM passive WHERE user_id = "@ + decimal_int(user_id) + " AND expires_at > "@
        + decimal_int(time)
}

pub fn passives_query(user_id: i64, time: i64) -> (r: String)
    ensures
        r@ == passives_spec(user_id as int, time as int),
{
    let mut q = String::new();
    push_str(&mut q, "SELECT passive_id, expires_at FROM passive WHERE user_id = ");
    push_int(&mut q, user_id);
    push_str(&mut q, " AND expires_at > ");
    push_int(&mut q, time);
    assert(q@ =~= passives_spec(user_id as int, time as int));
    q
}

/// Reads how many of one item, quality and modifier a user owns, if any.
pub open spec fn item_spec(user_id: int, item_id: nat, quality: nat, modifier: nat) -> Seq<char> {
    "SELECT quantity FROM item WHERE user_id = "@ + decimal_int(user_id) + " AND item_id = "@ + decimal(item_id)
        + " AND quality = "@ + decimal(quality) + " AND modifier = "@ + decimal(modifier) + " AND quantity > 0"@
}

pub fn item_query(user_id: i64, item_id: u32, quality: u8, modifier: u8) -> (r: String)
    ensures
        r@ == item_spec(user_id as int, item_id as nat, quality as nat, modifier as nat),
{
    let mut q = String::new();
    push_str(&mut q, "SELECT quantity FROM item WHERE user_id = ");
    push_int(&mut q, user_id);
    push_str(&mut q, " AND item_id = ");
    push_decimal(&mut q, item_id as u64);
    push_str(&mut q, " AND quality = ");
    push_decimal(&mut q, quality as u64);
    push_str(&mut q, " AND modifier = ");
    push_decimal(&mut q, modifier as u64);
    push_str(&mut q, " AND quantity > 0");
    assert(q@ =~= item_spec(user_id as int, item_id as nat, quality as nat, modifier as nat));
    q
}

/// Reads every item a user owns.
pub open spec fn items_spec(user_id: int) -> Seq<char> {
    "SELECT item_id, quantity, quality, modifier FROM item WHERE user_id = "@ + decimal_int(user_id)
        + " AND quantity > 0"@
}

pub fn items_query(user_id: i64) -> (r: String)
    ensures
        r@ == items_spec(user_id as int),
{
    let mut q = String::new();
    push_str(&mut q, "SELECT item_id, quantity, quality, modifier FROM item WHERE user_id = ");
    push_int(&mut q, user_id);
    push_str(&mut q, " AND quantity > 0");
    assert(q@ =~= items_spec(user_id as int));
    q
}

/// The ids, comma-separated.
pub open spec fn id_list(ids: Seq<u64>) -> Seq<char>
    decreases ids.len(),
{
    if ids.len() == 0 {
        Seq::empty()
    } else if ids.len() == 1 {
        decimal(ids[0] as nat)
    } else {
        id_list(ids.drop_last()) + seq![','] + decimal(ids.last() as nat)
    }
}

/// Reads users by experience, then Leaves, best first; only the given users
/// when there are any, and at most `limit` of them when there is one.
pub open spec fn leaderboard_spec(server_ids: Seq<u64>, limit: Option<u8>) -> Seq<char> {
    "SELECT id, exp FROM user "@ + (if server_ids.len() == 0 {
        Seq::empty()
    } else {
        "WHERE id IN ("@ + id_list(server_ids) + ")"@
    }) + " ORDER BY exp DESC, leaves DESC "@ + match limit {
        Some(lim) => "LIMIT "@ + decimal(lim as nat),
        None => Seq::empty(),
    }
}

pub fn leaderboard_query(server_ids: &Vec<u64>, limit: Option<u8>) -> (r: String)
    ensures
        r@ == leaderboard_spec(server_ids@, limit),
{
    let mut q = String::new();
    push_str(&mut q, "SELECT id, exp FROM user ");
    let ghost head = q@;
    if server_ids.len() > 0 {
        push_str(&mut q, "WHERE id IN (");
        let ghost open = q@;
        let mut i: usize = 0;
        while i < server_ids.len()
            invariant
                i <= server_ids@.len(),
                q@ == open + id_list(server_ids@.take(i as int)),
            decreases server_ids.len() - i,
        {
            if i > 0 {
                push_str(&mut q, ",");
            }
            push_decimal(&mut q, server_ids[i]);
            proof {
                reveal_strlit(",");
                assert(server_ids@.take(i + 1).drop_last() =~= server_ids@.take(i as int));
                if i == 0 {
                    assert(server_ids@.take(0) =~= Seq::<u64>::empty());
                }
            }
            i = i + 1;
            assert(q@ =~= open + id_list(server_ids@.take(i as int)));
        }
        assert(server_ids@.take(server_ids@.len() as int) =~= server_ids@);
        push_str(&mut q, ")");
    }
    push_str(&mut q, " ORDER BY exp DESC, leaves DESC ");
    match limit {
        Some(lim) => {
            push_str(&mut q, "LIMIT ");
            push_decimal(&mut q, lim as u64);
        },
        None => {},
    }
    assert(q@ =~= leaderboard_spec(server_ids@, limit));
    q
}

/// Adds experience and Leaves to a user and records when it raked.
pub open spec fn update_raking_spec(user_id: int, exp: int, leaves: int, field: Seq<char>, last_raked: int) -> Seq<
    char,
> {
    "UPDATE user SET exp = exp + "@ + decimal_int(exp) + ", leaves = leaves + "@ + decimal_int(leaves) + ", "@
        + field + " = "@ + decimal_int(last_raked) + " WHERE id = "@ + decimal_int(user_id)
}

pub fn update_raking_query(user_id: i64, exp: i32, leaves: i32, field: &str, last_raked: i64) -> (r: String)
    ensures
        r@ == update_raking_spec(user_id as int, exp as int, leaves as int, field@, last_raked as int),
{
    let mut q = String::new();
    push_str(&mut q, "UPDATE user SET exp = exp + ");
    push_int(&mut q, exp as i64);
    push_str(&mut q, ", leaves = leaves + ");
    push_int(&mut q, leaves as i64);
    push_str(&mut q, ", ");
    push_str(&mut q, field);
    push_str(&mut q, " = ");
    push_int(&mut q, last_raked);
    push_str(&mut q, " WHERE id = ");
    push_int(&mut q, user_id);
    assert(q@ =~= update_raking_spec(user_id as int, exp as int, leaves as int, field@, last_raked as int));
    q
}

/// Gives one more of an item to a user: a row for it if there is none, then one more.
pub open spec fn add_item_spec(user_id: int, item: Item) -> (Seq<char>, Seq<char>) {
    (
        "INSERT OR IGNORE INTO item (user_id, item_id, quantity) VALUES ("@ + decimal_int(user_id) + ", "@
            + decimal(item.base.spec_repr() as nat) + ", 0)"@,
        "UPDATE item SET quantity = quantity + 1 WHERE user_id = "@ + decimal_int(user_id) + " AND item_id = "@
            + decimal(item.base.spec_repr() as nat),
    )
}

pub fn add_item_queries(user_id: i64, item: &Item) -> (r: (String, String))
    ensures
        (r.0@, r.1@) == add_item_spec(user_id as int, *item),
{
    let item_id = item.base.repr();
    let mut a = String::new();
    push_str(&mut a, "INSERT OR IGNORE INTO item (user_id, item_id, quantity) VALUES (");
    push_int(&mut a, user_id);
    push_str(&mut a, ", ");
    push_decimal(&mut a, item_id as u64);
    push_str(&mut a, ", 0)");
    let mut b = String::new();
    push_str(&mut b, "UPDATE item SET quantity = quantity + 1 WHERE user_id = ");
    push_int(&mut b, user_id);
    push_str(&mut b, " AND item_id = ");
    push_decimal(&mut b, item_id as u64);
    assert(a@ =~= add_item_spec(user_id as int, *item).0);
    assert(b@ =~= add_item_spec(user_id as int, *item).1);
    (a, b)
}

/// Lets a passive act on a user until `expires_at`: a row for it if there is
/// none, then the new expiry.
pub open spec fn add_passive_spec(user_id: int, expires_at: int, passive: Passive) -> (Seq<char>, Seq<char>) {
    (
        "INSERT OR IGNORE INTO passive (user_id, passive_id, expires_at) VALUES ("@ + decimal_int(user_id)
            + ", "@ + decimal(passive.spec_repr() as nat) + ", 0)"@,
        "UPDATE passive SET expires_at = "@ + decimal_int(expires_at) + " WHERE user_id = "@ + decimal_int(user_id)
            + " AND passive_id = "@ + decimal(passive.spec_repr() as nat),
    )
}

pub fn add_passive_queries(user_id: i64, expires_at: i64, passive: Passive) -> (r: (String, String))
    ensures
        (r.0@, r.1@) == add_passive_spec(user_id as int, expires_at as int, passive),
{
    let passive_id = passive.repr();
    let mut a = String::new();
    push_str(&mut a, "INSERT OR IGNORE INTO passive (user_id, passive_id, expires_at) VALUES (");
    push_int(&mut a, user_id);
    push_str(&mut a, ", ");
    push_decimal(&mut a, passive_id as u64);
    push_str(&mut a, ", 0)");
    let mut b = String::new();
    push_str(&mut b, "UPDATE passive SET expires_at = ");
    push_int(&mut b, expires_at);
    push_str(&mut b, " WHERE user_id = ");
    push_int(&mut b, user_id);
    push_str(&mut b, " AND passive_id = ");
    push_decimal(&mut b, passive_id as u64);
    assert(a@ =~= add_passive_spec(user_id as int, expires_at as int, passive).0);
    assert(b@ =~= add_passive_spec(user_id as int, expires_at as int, passive).1);
    (a, b)
}

/// Sells `amount` of an item: fewer of it, and its selling price times
/// `amount` more Leaves.
pub open spec fn sell_item_spec(user_id: int, amount: int, item: Item) -> (Seq<char>, Seq<char>) {
    (
        "UPDATE item SET quantity = quantity - "@ + decimal_int(amount) + " WHERE user_id = "@ + decimal_int(
            user_id,
        ) + " AND item_id = "@ + decimal(item.base.spec_repr() as nat),
        "UPDATE user SET leaves = leaves + "@ + decimal_int(amount * item.base.spec_selling_price())
            + " WHERE id = "@ + decimal_int(user_id),
    )
}

pub fn sell_item_queries(user_id: i64, amount: i32, item: &Item) -> (r: (String, String))
    requires
        i32::MIN <= amount * item.base.spec_selling_price() <= i32::MAX,
    ensures
        (r.0@, r.1@) == sell_item_spec(user_id as int, amount as int, *item),
{
    let item_id = item.base.repr();
    let mut a = String::new();
    push_str(&mut a, "UPDATE item SET quantity = quantity - ");
    push_int(&mut a, amount as i64);
    push_str(&mut a, " WHERE user_id = ");
    push_int(&mut a, user_id);
    push_str(&mut a, " AND item_id = ");
    push_decimal(&mut a, item_id as u64);
    let gain: i32 = amount * item.base.selling_price();
    let mut b = String::new();
    push_str(&mut b, "UPDATE user SET leaves = leaves + ");
    push_int(&mut b, gain as i64);
    push_str(&mut b, " WHERE id = ");
    push_int(&mut b, user_id);
    assert(a@ =~= sell_item_spec(user_id as int, amount as int, *item).0);
    assert(b@ =~= sell_item_spec(user_id as int, amount as int, *item).1);
    (a, b)
}

} // verus!
