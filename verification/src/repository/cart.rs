use vstd::prelude::*;
use std::sync::Arc;
use sea_orm::DatabaseConnection;
use crate::error::DbError;

verus! {

/// Stores the products users put into their carts.
#[derive(Clone)]
pub struct CartRepository {
    pub db_pool: Arc<DatabaseConnection>,
}

/// A row of the cart table: a product put into a user's cart, locked for an
/// order once `order_request_id` is set.
#[derive(Debug, Clone)]
pub struct CartItem {
    pub id: i32,
    pub user_id: i32,
    pub product_id: i32,
    pub order_request_id: Option<String>,
}

/// The products of the given cart rows, in row order.
pub fn product_ids(items: &Vec<CartItem>) -> (ids: Vec<i32>)
    ensures
        ids@.len() == items@.len(),
        forall|k: int| 0 <= k < items@.len() ==> ids@[k] == #[trigger] items@[k].product_id,
{
    let mut ids: Vec<i32> = Vec::new();
    let mut k: usize = 0;
    while k < items.len()
        invariant
            k <= items@.len(),
            ids@.len() == k,
            forall|j: int| 0 <= j < k ==> ids@[j] == #[trigger] items@[j].product_id,
        decreases items@.len() - k,
    {
        ids.push(items[k].product_id);
        k = k + 1;
    }
    ids
}

/// `s` is a UUID in its hyphenated form: 36 chars, dashes at 8, 13, 18 and
/// 23, lowercase hexadecimal digits elsewhere.
pub open spec fn is_hyphenated_uuid(s: Seq<char>) -> bool {
    &&& s.len() == 36
    &&& forall|k: int| 0 <= k < 36 ==> {
        let c = #[trigger] s[k];
        if k == 8 || k == 13 || k == 18 || k == 23 {
            c == '-'
        } else {
            ('0' <= c <= '9') || ('a' <= c <= 'f')
        }
    }
}

/// `s` is a random (version 4) UUID in its hyphenated form: the version
/// digit '4' at 14, and the variant digit, one of '8', '9', 'a', 'b', at 19.
pub open spec fn is_v4_uuid(s: Seq<char>) -> bool {
    &&& is_hyphenated_uuid(s)
    &&& s[14] == '4'
    &&& (s[19] == '8' || s[19] == '9' || s[19] == 'a' || s[19] == 'b')
}

/// The lowercase hexadecimal digit of a value below 16.
pub open spec fn hex_digit(n: u8) -> char {
    if n < 10 {
        (n + 48) as char
    } else {
        (n + 87) as char
    }
}

/// Each byte as two lowercase hexadecimal digits, high nibble first.
pub open spec fn hex_text(s: Seq<u8>) -> Seq<char>
    decreases s.len(),
{
    if s.len() == 0 {
        Seq::empty()
    } else {
        seq![hex_digit(s[0] / 16), hex_digit(s[0] % 16)] + hex_text(s.drop_first())
    }
}

/// The hyphenated text of a UUID's 16 bytes: groups of 4, 2, 2, 2 and 6
/// bytes in hexadecimal, joined by dashes.
pub open spec fn uuid_text(b: Seq<u8>) -> Seq<char> {
    hex_text(b.subrange(0, 4)) + "-"@ + hex_text(b.subrange(4, 6)) + "-"@ + hex_text(b.subrange(6, 8)) + "-"@
        + hex_text(b.subrange(8, 10)) + "-"@ + hex_text(b.subrange(10, 16))
}

/// Random bytes made into a version 4 UUID: the high nibble of byte 6 set to
/// the version 4, the two high bits of byte 8 to the variant `10`.
pub open spec fn v4_bytes(b: Seq<u8>) -> Seq<u8> {
    b.update(6, (b[6] & 0x0f) | 0x40).update(8, (b[8] & 0x3f) | 0x80)
}

/// Calls `getrandom::fill` on 16 bytes. Trusted: nothing is stated of the
/// bytes, which are random; `None` when the system's random source fails.
#[verifier::external_body]
fn random_bytes() -> (res: Option<[u8; 16]>) {
    let mut bytes = [0u8; 16];
    getrandom::fill(&mut bytes).ok().map(|_| bytes)
}

/// Calls `uuid::Builder::from_random_bytes` and the `Display` of the UUID.
/// Trusted: the crate's source masks in the version and variant bits as
/// `v4_bytes` states, and writes the lowercase hyphenated form.
#[verifier::external_body]
fn v4_uuid_text(bytes: [u8; 16]) -> (id: String)
    ensures
        id@ == uuid_text(v4_bytes(bytes@)),
{
    uuid::Builder::from_random_bytes(bytes).into_uuid().to_string()
}

proof fn lemma_hex_digit(n: u8)
    requires
        0 <= n < 16,
    ensures
        ('0' <= hex_digit(n) <= '9') || ('a' <= hex_digit(n) <= 'f'),
{
}

proof fn lemma_hex_text(s: Seq<u8>)
    ensures
        hex_text(s).len() == 2 * s.len(),
        forall|k: int| 0 <= k < s.len() ==> {
            &&& #[trigger] hex_text(s)[2 * k] == hex_digit(s[k] / 16)
            &&& hex_text(s)[2 * k + 1] == hex_digit(s[k] % 16)
        },
    decreases s.len(),
{
    if s.len() > 0 {
        lemma_hex_text(s.drop_first());
        let t = hex_text(s);
        assert forall|k: int| 0 <= k < s.len() implies {
            &&& #[trigger] t[2 * k] == hex_digit(s[k] / 16)
            &&& t[2 * k + 1] == hex_digit(s[k] % 16)
        } by {
            if k > 0 {
                assert(s.drop_first()[k - 1] == s[k]);
                assert(t[2 * k] == hex_text(s.drop_first())[2 * (k - 1)]);
                assert(t[2 * k + 1] == hex_text(s.drop_first())[2 * (k - 1) + 1]);
            }
        }
    }
}

proof fn lemma_hex_text_digits(s: Seq<u8>)
    ensures
        forall|k: int| 0 <= k < hex_text(s).len() ==> {
            let c = #[trigger] hex_text(s)[k];
            ('0' <= c <= '9') || ('a' <= c <= 'f')
        },
{
    lemma_hex_text(s);
    assert forall|k: int| 0 <= k < hex_text(s).len() implies {
        let c = #[trigger] hex_text(s)[k];
        ('0' <= c <= '9') || ('a' <= c <= 'f')
    } by {
        let j = k / 2;
        assert(0 <= j < s.len());
        assert(hex_text(s)[2 * j] == hex_digit(s[j] / 16));
        if k % 2 == 0 {
            assert(k == 2 * j);
            lemma_hex_digit(s[j] / 16);
        } else {
            assert(k == 2 * j + 1);
            lemma_hex_digit(s[j] % 16);
        }
    }
}

/// The text of 16 random bytes made into a version 4 UUID is a version 4
/// UUID in hyphenated form.
proof fn lemma_v4_text(b: Seq<u8>)
    requires
        b.len() == 16,
    ensures
        is_v4_uuid(uuid_text(v4_bytes(b))),
{
    let v = v4_bytes(b);
    let g0 = hex_text(v.subrange(0, 4));
    let g1 = hex_text(v.subrange(4, 6));
    let g2 = hex_text(v.subrange(6, 8));
    let g3 = hex_text(v.subrange(8, 10));
    let g4 = hex_text(v.subrange(10, 16));
    lemma_hex_text(v.subrange(0, 4));
    lemma_hex_text(v.subrange(4, 6));
    lemma_hex_text(v.subrange(6, 8));
    lemma_hex_text(v.subrange(8, 10));
    lemma_hex_text(v.subrange(10, 16));
    lemma_hex_text_digits(v.subrange(0, 4));
    lemma_hex_text_digits(v.subrange(4, 6));
    lemma_hex_text_digits(v.subrange(6, 8));
    lemma_hex_text_digits(v.subrange(8, 10));
    lemma_hex_text_digits(v.subrange(10, 16));
    reveal_strlit("-");
    let t = uuid_text(v);
    assert(t.len() == 36);
    assert forall|k: int| 0 <= k < 36 implies {
        let c = #[trigger] t[k];
        if k == 8 || k == 13 || k == 18 || k == 23 {
            c == '-'
        } else {
            ('0' <= c <= '9') || ('a' <= c <= 'f')
        }
    } by {
        if k < 8 {
            assert(t[k] == g0[k]);
        } else if k == 8 {
        } else if k < 13 {
            assert(t[k] == g1[k - 9]);
        } else if k == 13 {
        } else if k < 18 {
            assert(t[k] == g2[k - 14]);
        } else if k == 18 {
        } else if k < 23 {
            assert(t[k] == g3[k - 19]);
        } else if k == 23 {
        } else {
            assert(t[k] == g4[k - 24]);
        }
    }
    let x6 = b[6];
    let x8 = b[8];
    assert(((x6 & 0x0f) | 0x40) / 16 == 4) by (bit_vector);
    assert(8 <= ((x8 & 0x3f) | 0x80) / 16 <= 11) by (bit_vector);
    assert(v.subrange(6, 8)[0] == v[6]);
    assert(v.subrange(8, 10)[0] == v[8]);
    assert(t[14] == g2[0]);
    assert(t[19] == g3[0]);
}

/// The order request a checkout locks the caller's open cart rows under.
#[derive(Debug, Clone)]
pub struct CartLock {
    pub order_request_id: String,
}

/// The text of the failure when no random bytes can be drawn for an order
/// request id.
pub open spec fn no_random_source_detail() -> Seq<char> {
    "Cannot draw random bytes for the order request id"@
}

/// The text of the failure when a checkout finds no open cart rows.
pub open spec fn nothing_to_lock_detail() -> Seq<char> {
    "No cart items to update"@
}

impl CartLock {
    /// The lock whose order request id is the version 4 UUID made from the
    /// given 16 bytes.
    pub fn from_bytes(bytes: [u8; 16]) -> (lock: CartLock)
        ensures
            lock.order_request_id@ == uuid_text(v4_bytes(bytes@)),
            is_v4_uuid(lock.order_request_id@),
    {
        let id = v4_uuid_text(bytes);
        proof {
            lemma_v4_text(bytes@);
        }
        CartLock { order_request_id: id }
    }

    /// A fresh, random order request id: a version 4 UUID made from random
    /// bytes; a custom failure when the system's random source fails.
    pub fn new() -> (res: Result<CartLock, DbError>)
        ensures
            res matches Ok(lock) ==> is_v4_uuid(lock.order_request_id@) && exists|b: Seq<u8>|
                b.len() == 16 && lock.order_request_id@ == #[trigger] uuid_text(v4_bytes(b)),
            res matches Err(e) ==> (e matches DbError::Custom(d) && d@ == no_random_source_detail()),
    {
        match random_bytes() {
            Some(bytes) => Ok(CartLock::from_bytes(bytes)),
            None => Err(DbError::Custom(String::from_str("Cannot draw random bytes for the order request id"))),
        }
    }

    /// The outcome of setting the order request id on the caller's open
    /// cart rows: the id when some row was updated, an execution failure
    /// when none was.
    pub fn outcome(self, rows_affected: u64) -> (res: Result<String, DbError>)
        ensures
            rows_affected == 0 ==> (res matches Err(DbError::Exec(d)) && d@ == nothing_to_lock_detail()),
            rows_affected != 0 ==> (res matches Ok(id) && id@ == self.order_request_id@),
    {
        if rows_affected == 0 {
            return Err(DbError::Exec(String::from_str("No cart items to update")));
        }
        Ok(self.order_request_id)
    }
}

} // verus!
