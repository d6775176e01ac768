//! Messages from the developers, and which of them the user has already seen.

use vstd::prelude::*;

use crate::limits::DeveloperMessage;

verus! {

/// A message as shown to the front-end.
#[derive(Debug, Clone)]
pub struct ApiMessage {
    /// Message identifier
    pub id: Option<u64>,
    /// Message title
    pub title: String,
    /// Message content
    pub body: String,
    /// Link for further information
    pub url: Option<String>,
}

/// The message shown for a developer message.
pub open spec fn message_from(d: DeveloperMessage) -> ApiMessage {
    ApiMessage { id: Some(d.id), title: d.title, body: d.body, url: d.url }
}

impl ApiMessage {
    /// The front-end form of a developer message.
    pub fn from_developer(other: DeveloperMessage) -> (r: Self)
        ensures
            r == message_from(other),
    {
        ApiMessage { id: Some(other.id), title: other.title, body: other.body, url: other.url }
    }
}

/// The front-end form of developer messages, in order.
pub fn api_messages(messages: Vec<DeveloperMessage>) -> (r: Vec<ApiMessage>)
    ensures
        r@ == messages@.map_values(|d: DeveloperMessage| message_from(d)),
{
    let ghost m = messages@;
    let mut rest = messages;
    let n = rest.len();
    let mut reversed: Vec<ApiMessage> = Vec::with_capacity(n);
    while rest.len() > 0
        invariant
            n == m.len(),
            rest@ == m.take(rest@.len() as int),
            rest@.len() + reversed@.len() == n,
            forall|j: int| 0 <= j < reversed@.len() ==> #[trigger] reversed@[j] == message_from(m[n - 1 - j]),
        decreases rest@.len(),
    {
        let k = rest.len() - 1;
        let msg = rest.pop().unwrap();
        assert(msg == m[k as int]);
        assert(rest@ =~= m.take(k as int));
        reversed.push(ApiMessage::from_developer(msg));
    }
    let mut out: Vec<ApiMessage> = Vec::with_capacity(n);
    while reversed.len() > 0
        invariant
            n == m.len(),
            reversed@.len() + out@.len() == n,
            forall|j: int| 0 <= j < reversed@.len() ==> #[trigger] reversed@[j] == message_from(m[n - 1 - j]),
            forall|j: int| 0 <= j < out@.len() ==> #[trigger] out@[j] == message_from(m[j]),
        decreases reversed@.len(),
    {
        let msg = reversed.pop().unwrap();
        out.push(msg);
    }
    assert(out@ =~= m.map_values(|d: DeveloperMessage| message_from(d)));
    out
}

/// Whether a message is one the user has already seen: no id, or an id up to `id`.
pub open spec fn seen_by(msg: ApiMessage, id: u64) -> bool {
    match msg.id {
        Some(m) => m <= id,
        None => true,
    }
}

/// How many messages at the front have been seen.
pub open spec fn seen_prefix(messages: Seq<ApiMessage>, id: u64) -> int
    decreases messages.len(),
{
    if messages.len() == 0 || !seen_by(messages[0], id) {
        0
    } else {
        1 + seen_prefix(messages.drop_first(), id)
    }
}

/// The little-endian value of eight bytes.
pub open spec fn le_u64(b: Seq<u8>) -> int {
    b[0] + 0x100 * (b[1] + 0x100 * (b[2] + 0x100 * (b[3] + 0x100 * (b[4] + 0x100 * (b[5]
        + 0x100 * (b[6] + 0x100 * b[7]))))))
}

/// The id of the last dismissed message, from the contents of the seen-message file (`None`
/// when it could not be read): its first eight bytes are the little-endian id; a shorter file
/// marks every message as seen, a missing one none.
pub open spec fn seen_from_file(file: Option<Seq<u8>>) -> int {
    match file {
        Some(b) => if b.len() >= 8 { le_u64(b) } else { u64::MAX as int },
        None => 0,
    }
}

/// Tracks the id of the last developer message the user dismissed.
#[derive(Debug, Clone, Copy)]
pub struct MessageHandler {
    pub seen: u64,
}

impl MessageHandler {
    /// The handler for the contents of the seen-message file (see `seen_from_file`).
    pub fn new(seen_file: Option<Vec<u8>>) -> (r: Self)
        ensures
            r.seen == seen_from_file(match seen_file { Some(b) => Some(b@), None => None }),
    {
        let seen = match seen_file {
            Some(b) => if b.len() >= 8 {
                let mut v: u64 = b[7] as u64;
                v = v * 0x100 + b[6] as u64;
                v = v * 0x100 + b[5] as u64;
                v = v * 0x100 + b[4] as u64;
                v = v * 0x100 + b[3] as u64;
                v = v * 0x100 + b[2] as u64;
                v = v * 0x100 + b[1] as u64;
                v = v * 0x100 + b[0] as u64;
                v
            } else {
                u64::MAX
            },
            None => 0,
        };
        MessageHandler { seen }
    }

    /// Record that the user dismissed the messages up to `id`; gives the bytes to write to the
    /// seen-message file, from which the same id is read back.
    pub fn dismiss(&mut self, id: u64) -> (r: Vec<u8>)
        ensures
            final(self).seen == id,
            r@.len() == 8,
            seen_from_file(Some(r@)) == id,
    {
        self.seen = id;
        assert((id & 0xff) <= 0xff && ((id >> 8u64) & 0xff) <= 0xff && ((id >> 16u64) & 0xff) <= 0xff
            && ((id >> 24u64) & 0xff) <= 0xff && ((id >> 32u64) & 0xff) <= 0xff && ((id >> 40u64) & 0xff) <= 0xff
            && ((id >> 48u64) & 0xff) <= 0xff && ((id >> 56u64) & 0xff) <= 0xff) by (bit_vector);
        let b0 = (id & 0xff) as u8;
        let b1 = ((id >> 8u64) & 0xff) as u8;
        let b2 = ((id >> 16u64) & 0xff) as u8;
        let b3 = ((id >> 24u64) & 0xff) as u8;
        let b4 = ((id >> 32u64) & 0xff) as u8;
        let b5 = ((id >> 40u64) & 0xff) as u8;
        let b6 = ((id >> 48u64) & 0xff) as u8;
        let b7 = ((id >> 56u64) & 0xff) as u8;
        assert(id == (id & 0xff) + 0x100 * (((id >> 8u64) & 0xff) + 0x100 * (((id >> 16u64) & 0xff)
            + 0x100 * (((id >> 24u64) & 0xff) + 0x100 * (((id >> 32u64) & 0xff) + 0x100 * (((id >> 40u64) & 0xff)
            + 0x100 * (((id >> 48u64) & 0xff) + 0x100 * ((id >> 56u64) & 0xff)))))))) by (bit_vector);
        let bytes = vec![b0, b1, b2, b3, b4, b5, b6, b7];
        bytes
    }
}

fn is_seen(msg: &ApiMessage, id: u64) -> (r: bool)
    ensures
        r == seen_by(*msg, id),
{
    match msg.id {
        Some(m) => m <= id,
        None => true,
    }
}

/// The messages from the first one the user has not seen on.
pub fn remove_before_id(id: u64, messages: Vec<ApiMessage>) -> (r: Vec<ApiMessage>)
    ensures
        r@ == messages@.skip(seen_prefix(messages@, id)),
{
    let n = messages.len();
    let mut k: usize = 0;
    assert(messages@.skip(0) =~= messages@);
    while k < n && is_seen(&messages[k], id)
        invariant
            n == messages@.len(),
            k <= n,
            seen_prefix(messages@, id) == k + seen_prefix(messages@.skip(k as int), id),
        decreases n - k,
    {
        assert(messages@.skip(k as int).drop_first() =~= messages@.skip(k as int + 1));
        k = k + 1;
    }
    assert(seen_prefix(messages@.skip(k as int), id) == 0);
    let mut out: Vec<ApiMessage> = Vec::with_capacity(n - k);
    let mut i = k;
    while i < n
        invariant
            n == messages@.len(),
            k <= i <= n,
            out@ == messages@.subrange(k as int, i as int),
        decreases n - i,
    {
        out.push(messages[i].clone_message());
        assert(messages@.subrange(k as int, i as int + 1) =~= messages@.subrange(k as int, i as int).push(messages@[i as int]));
        i = i + 1;
    }
    assert(messages@.skip(k as int) =~= messages@.subrange(k as int, n as int));
    out
}

fn clone_opt_string(o: &Option<String>) -> (r: Option<String>)
    ensures
        r == *o,
{
    match o {
        Some(s) => Some(s.clone()),
        None => None,
    }
}

impl ApiMessage {
    /// A copy of the message.
    pub fn clone_message(&self) -> (r: Self)
        ensures
            r == *self,
    {
        ApiMessage { id: self.id, title: self.title.clone(), body: self.body.clone(), url: clone_opt_string(&self.url) }
    }
}

/// What `remove_before_id` drops is exactly the run of messages at the front that carry no id
/// or an id up to the last dismissed one (that one included); what it keeps starts with the
/// first message whose id is above it. So when every message has an id up to the dismissed one,
/// nothing is kept.
pub proof fn dismissed_messages_dropped(messages: Seq<ApiMessage>, id: u64)
    ensures
        0 <= seen_prefix(messages, id) <= messages.len(),
        forall|j: int| 0 <= j < seen_prefix(messages, id) ==>
            ((#[trigger] messages[j]).id matches Some(x) ==> x <= id),
        seen_prefix(messages, id) < messages.len() ==>
            (messages[seen_prefix(messages, id)].id matches Some(x) && x > id),
        (forall|j: int| 0 <= j < messages.len() ==> ((#[trigger] messages[j]).id matches Some(x) ==> x <= id))
            ==> seen_prefix(messages, id) == messages.len(),
    decreases messages.len(),
{
    if messages.len() > 0 && seen_by(messages[0], id) {
        let rest = messages.drop_first();
        dismissed_messages_dropped(rest, id);
        assert forall|j: int| 0 <= j < seen_prefix(messages, id) implies
            ((#[trigger] messages[j]).id matches Some(x) ==> x <= id) by {
            if j > 0 {
                assert(messages[j] == rest[j - 1]);
            }
        }
        if seen_prefix(messages, id) < messages.len() {
            assert(messages[seen_prefix(messages, id)] == rest[seen_prefix(rest, id)]);
        }
        if forall|j: int| 0 <= j < messages.len() ==> ((#[trigger] messages[j]).id matches Some(x) ==> x <= id) {
            assert forall|j: int| 0 <= j < rest.len() implies ((#[trigger] rest[j]).id matches Some(x) ==> x <= id) by {
                assert(rest[j] == messages[j + 1]);
            }
        }
    }
}

} // verus!
