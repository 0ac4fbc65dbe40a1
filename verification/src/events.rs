use vstd::prelude::*;
use vstd::utf8::encode_utf8;
use borsh::BorshSerialize;

verus! {

/// Announces that a user's cart was locked for a new order.
#[derive(Debug, Clone)]
pub struct CreateOrderEvent {
    pub user_id: i32,
    pub order_request_id: String,
}

/// The abstract form of a [`CreateOrderEvent`].
pub struct EventView {
    pub user_id: i32,
    pub order_request_id: Seq<char>,
}

impl View for CreateOrderEvent {
    type V = EventView;

    open spec fn view(&self) -> EventView {
        EventView { user_id: self.user_id, order_request_id: self.order_request_id@ }
    }
}

/// The four little-endian bytes of a 32-bit word.
pub open spec fn le_bytes(x: u32) -> Seq<u8> {
    seq![(x % 256) as u8, ((x / 256) % 256) as u8, ((x / 65536) % 256) as u8, (x / 16777216) as u8]
}

/// The Borsh form of an `i32`: its two's-complement bits, little-endian.
pub open spec fn borsh_i32(v: i32) -> Seq<u8> {
    le_bytes(v as u32)
}

/// The Borsh form of a text: the byte length as a little-endian `u32`, then
/// the UTF-8 bytes.
pub open spec fn borsh_str(s: Seq<char>) -> Seq<u8> {
    le_bytes(encode_utf8(s).len() as u32) + encode_utf8(s)
}

/// The Borsh form of an `i32`, as borsh writes it: `to_le_bytes`.
fn serialize_i32(v: i32) -> (bytes: Vec<u8>)
    ensures
        bytes@ == borsh_i32(v),
{
    let x: u32 = v as u32;
    let mut bytes: Vec<u8> = Vec::new();
    bytes.push((x % 256) as u8);
    bytes.push(((x / 256) % 256) as u8);
    bytes.push(((x / 65536) % 256) as u8);
    bytes.push((x / 16777216) as u8);
    assert(bytes@ =~= le_bytes(x));
    bytes
}

/// Calls `BorshSerialize::try_to_vec` on a `str`. Trusted: the crate writes
/// the byte length as a little-endian `u32` and then the bytes, and fails
/// exactly when the length does not fit in a `u32`.
#[verifier::external_body]
fn serialize_str(s: &str) -> (bytes: Option<Vec<u8>>)
    ensures
        bytes is Some <==> encode_utf8(s@).len() <= u32::MAX,
        bytes matches Some(b) ==> b@ == borsh_str(s@),
{
    s.try_to_vec().ok()
}

/// The Borsh form of the event: its fields in declaration order.
pub open spec fn event_bytes(user_id: i32, order_request_id: Seq<char>) -> Seq<u8> {
    borsh_i32(user_id) + borsh_str(order_request_id)
}

impl CreateOrderEvent {
    /// The Borsh encoding of the event, or `None` when the order request id
    /// is too long to encode.
    pub fn serialize(&self) -> (bytes: Option<Vec<u8>>)
        ensures
            bytes is Some <==> encode_utf8(self.order_request_id@).len() <= u32::MAX,
            bytes matches Some(b) ==> b@ == event_bytes(self.user_id, self.order_request_id@),
    {
        let mut out = serialize_i32(self.user_id);
        match serialize_str(self.order_request_id.as_str()) {
            Some(tail) => {
                let mut tail = tail;
                out.append(&mut tail);
                Some(out)
            },
            None => None,
        }
    }
}

/// Index at which the last segment starts when `s` is split on "::" from
/// the left, the scan being at `i` and the current segment starting at
/// `start`.
pub open spec fn segment_start(s: Seq<char>, i: int, start: int) -> int
    decreases s.len() - i,
{
    if i < 0 || i + 1 >= s.len() {
        start
    } else if s[i] == ':' && s[i + 1] == ':' {
        segment_start(s, i + 2, i + 2)
    } else {
        segment_start(s, i + 1, start)
    }
}

/// The last piece of `s` split on "::" (the whole text when it holds no
/// "::").
pub open spec fn last_segment(s: Seq<char>) -> Seq<char> {
    s.skip(segment_start(s, 0, 0))
}

/// `s` holds "::" somewhere.
pub open spec fn has_path_separator(s: Seq<char>) -> bool {
    exists|k: int| 0 <= k && k + 1 < s.len() && #[trigger] s[k] == ':' && s[k + 1] == ':'
}

proof fn lemma_segment_start_bounds(s: Seq<char>, i: int, start: int)
    requires
        0 <= start <= i <= s.len(),
    ensures
        start <= segment_start(s, i, start) <= s.len(),
        forall|k: int|
            segment_start(s, i, start) <= k && k + 1 < s.len() && k >= i ==> !(#[trigger] s[k] == ':' && s[k + 1] == ':'),
    decreases s.len() - i,
{
    if i + 1 >= s.len() {
    } else if s[i] == ':' && s[i + 1] == ':' {
        lemma_segment_start_bounds(s, i + 2, i + 2);
    } else {
        lemma_segment_start_bounds(s, i + 1, start);
    }
}

/// The last piece of a "::"-separated path holds no "::", and a text without
/// "::" is its own last piece.
pub proof fn lemma_last_segment(s: Seq<char>)
    ensures
        !has_path_separator(last_segment(s)),
        !has_path_separator(s) ==> last_segment(s) == s,
{
    lemma_segment_start_bounds(s, 0, 0);
    let st = segment_start(s, 0, 0);
    let t = last_segment(s);
    assert forall|k: int| 0 <= k && k + 1 < t.len() implies !(#[trigger] t[k] == ':' && t[k + 1] == ':') by {
        assert(t[k] == s[st + k]);
        assert(t[k + 1] == s[st + k + 1]);
    }
    if !has_path_separator(s) {
        lemma_no_separator_start(s, 0, 0);
        assert(t =~= s);
    }
}

proof fn lemma_no_separator_start(s: Seq<char>, i: int, start: int)
    requires
        !has_path_separator(s),
        0 <= i,
    ensures
        segment_start(s, i, start) == start,
    decreases s.len() - i,
{
    if i + 1 >= s.len() {
    } else {
        assert(!(s[i] == ':' && s[i + 1] == ':'));
        lemma_no_separator_start(s, i + 1, start);
    }
}

/// The last piece of `full` split on "::", as the bus names an event after
/// its type.
pub fn last_path_segment(full: &str) -> (name: String)
    ensures
        name@ == last_segment(full@),
{
    let n = full.unicode_len();
    let mut i: usize = 0;
    let mut start: usize = 0;
    while i < n && n - i > 1
        invariant
            n == full@.len(),
            start <= i <= n,
            segment_start(full@, i as int, start as int) == segment_start(full@, 0, 0),
        decreases n - i,
    {
        if full.get_char(i) == ':' && full.get_char(i + 1) == ':' {
            i = i + 2;
            start = i;
        } else {
            i = i + 1;
        }
    }
    let piece = full.substring_char(start, n);
    assert(piece@ =~= full@.skip(start as int));
    String::from_str(piece)
}

/// The name of the exchange and routing key for events whose type has the
/// path `full_type_name`: the last piece of that path.
pub fn get_event_name(full_type_name: &str) -> (name: String)
    ensures
        name@ == last_segment(full_type_name@),
        !has_path_separator(name@),
{
    let name = last_path_segment(full_type_name);
    proof {
        lemma_last_segment(full_type_name@);
    }
    name
}

/// A message ready for the bus: where it goes and its bytes.
#[derive(Debug, Clone)]
pub struct Publication {
    pub exchange: String,
    pub routing_key: String,
    pub payload: Vec<u8>,
}

/// Prepares the publication of an order event whose type has the path
/// `full_type_name`: exchange and routing key are the event's name, the
/// payload its Borsh encoding; `None` when the event cannot be encoded.
pub fn publication_of(message: &CreateOrderEvent, full_type_name: &str) -> (res: Option<Publication>)
    ensures
        res is Some <==> encode_utf8(message.order_request_id@).len() <= u32::MAX,
        res matches Some(p) ==> {
            &&& p.exchange@ == last_segment(full_type_name@)
            &&& p.routing_key@ == last_segment(full_type_name@)
            &&& !has_path_separator(p.exchange@)
            &&& p.payload@ == event_bytes(message.user_id, message.order_request_id@)
        },
{
    let event_name = get_event_name(full_type_name);
    match message.serialize() {
        Some(payload) => Some(Publication { exchange: event_name.clone(), routing_key: event_name, payload }),
        None => None,
    }
}

} // verus!
