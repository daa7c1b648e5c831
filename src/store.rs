use vstd::prelude::*;

use crate::har::Har;
use crate::ring::BoundedQueue;
use crate::text::{hex_digit, push_char};

verus! {

/// Seconds between two size probes of the compactor.
pub const COMPACTION_INTERVAL_SECS: u64 = 60;

/// Captures the queue between the live path and the writer holds before
/// the oldest is dropped.
pub const CAPTURE_QUEUE_CAPACITY: usize = 256;

/// Captures the writer commits in one statement at most.
pub const WRITER_BATCH: usize = 64;

/// The queue from the live path to the store writer: 256 captures, the
/// oldest dropped and counted on overflow, so that the live path never
/// waits.
pub fn capture_queue() -> (r: BoundedQueue<Har>)
    ensures
        r.wf(),
        r.items() == Seq::<Har>::empty(),
        r.capacity_spec() == 256,
        r.dropped_spec() == 0,
{
    BoundedQueue::new(CAPTURE_QUEUE_CAPACITY)
}

/// Whether a size probe calls for a compaction: only a probe that
/// succeeded and saw more than `max_size` bytes does.
pub fn compaction_due(size: Option<u64>, max_size: u64) -> (r: bool)
    ensures
        r == match size {
            Some(s) => s > max_size,
            None => false,
        },
{
    match size {
        Some(s) => s > max_size,
        None => false,
    }
}

/// Relies on `uuid::Uuid::now_v7`, read as a big-endian integer by
/// `Uuid::as_u128`: a version 7 identifier, whose version field is 7.
#[verifier::external_body]
fn fresh_uuid_v7() -> (r: u128)
    ensures
        (r >> 76u128) & 0xfu128 == 7,
{
    uuid::Uuid::now_v7().as_u128()
}

/// Hands out capture identifiers that strictly increase in the order they
/// are handed out.
pub struct IdSequence {
    last: Option<u128>,
}

/// The identifier handed out after `last` when the clock proposes
/// `candidate`: the candidate where it is greater, else the next integer.
pub open spec fn next_id(last: Option<u128>, candidate: u128) -> Option<u128> {
    match last {
        None => Some(candidate),
        Some(l) => if candidate > l {
            Some(candidate)
        } else if l < u128::MAX {
            Some((l + 1) as u128)
        } else {
            None
        },
    }
}

impl IdSequence {
    /// The last identifier handed out.
    pub closed spec fn last_spec(&self) -> Option<u128> {
        self.last
    }

    pub fn new() -> (r: IdSequence)
        ensures
            r.last_spec() is None,
    {
        IdSequence { last: None }
    }

    /// Hands out the identifier that follows the last one given a proposed
    /// `candidate`; `None` only once `u128::MAX` has been handed out.
    pub fn next_after(&mut self, candidate: u128) -> (r: Option<u128>)
        ensures
            r == next_id(old(self).last_spec(), candidate),
            final(self).last_spec() == match r {
                Some(id) => Some(id),
                None => old(self).last_spec(),
            },
    {
        let r = match self.last {
            None => Some(candidate),
            Some(l) => {
                if candidate > l {
                    Some(candidate)
                } else if l < u128::MAX {
                    Some(l + 1)
                } else {
                    None
                }
            },
        };
        if let Some(id) = r {
            self.last = Some(id);
        }
        r
    }

    /// Hands out a fresh identifier, taken from the clock where that keeps
    /// the order.
    pub fn next(&mut self) -> (r: Option<u128>)
        ensures
            match r {
                Some(id) => final(self).last_spec() == Some(id) && match old(self).last_spec() {
                    Some(l) => l < id,
                    None => true,
                },
                None => final(self).last_spec() == old(self).last_spec() && old(self).last_spec()
                    == Some(u128::MAX),
            },
    {
        let candidate = fresh_uuid_v7();
        self.next_after(candidate)
    }
}

/// `n` lowercase hexadecimal digits of `v`, most significant first.
pub open spec fn hex_fixed(v: nat, n: nat) -> Seq<char>
    decreases n,
{
    if n == 0 {
        Seq::empty()
    } else {
        hex_fixed(v / 16, (n - 1) as nat).push(hex_digit(v % 16))
    }
}

/// The text under which an identifier is stored: 32 lowercase hexadecimal
/// digits.
pub open spec fn id_text_of(id: u128) -> Seq<char> {
    hex_fixed(id as nat, 32)
}

fn hex_char(d: u8) -> (c: char)
    requires
        d < 16,
    ensures
        c == hex_digit(d as nat),
{
    if d < 10 {
        (('0' as u8) + d) as char
    } else {
        (('a' as u8) + (d - 10)) as char
    }
}

/// Writes an identifier as it is stored.
pub fn id_text(id: u128) -> (r: String)
    ensures
        r@ == id_text_of(id),
{
    let mut digits: Vec<char> = Vec::new();
    let mut v: u128 = id;
    let mut k: usize = 0;
    while k < 32
        invariant
            k <= 32,
            digits@.len() == k,
            hex_fixed(id as nat, 32) == hex_fixed(v as nat, (32 - k) as nat) + digits@.reverse(),
        decreases 32 - k,
    {
        let d = (v % 16) as u8;
        let c = hex_char(d);
        proof {
            assert(hex_fixed(v as nat, (32 - k) as nat) == hex_fixed((v / 16) as nat, (32 - k - 1) as nat).push(c));
            assert(digits@.push(c).reverse() =~= seq![c] + digits@.reverse());
            assert(hex_fixed((v / 16) as nat, (32 - k - 1) as nat).push(c) + digits@.reverse()
                =~= hex_fixed((v / 16) as nat, (32 - k - 1) as nat) + digits@.push(c).reverse());
        }
        digits.push(c);
        v = v / 16;
        k = k + 1;
    }
    assert(hex_fixed(v as nat, 0) =~= Seq::<char>::empty());
    let mut r = String::new();
    let mut i: usize = 32;
    while i > 0
        invariant
            i <= 32,
            digits@.len() == 32,
            hex_fixed(id as nat, 32) == digits@.reverse(),
            r@ == digits@.subrange(i as int, 32).reverse(),
        decreases i,
    {
        i = i - 1;
        push_char(&mut r, digits[i]);
        proof {
            assert(digits@.subrange(i as int, 32).reverse() =~= digits@.subrange(i + 1, 32).reverse().push(
                digits@[i as int],
            ));
        }
    }
    assert(digits@.subrange(0, 32) =~= digits@);
    r
}

/// `a` sorts before `b` in the byte order of their characters, as a
/// `TEXT` key does: equal lengths, and at the first difference `a` has
/// the smaller character.
pub open spec fn text_before(a: Seq<char>, b: Seq<char>) -> bool {
    a.len() == b.len() && exists|k: int|
        0 <= k < a.len() && a.subrange(0, k) == b.subrange(0, k) && (#[trigger] a[k] as u32) < (
        b[k] as u32)
}

pub open spec fn pow16(n: nat) -> nat
    decreases n,
{
    if n == 0 {
        1
    } else {
        16 * pow16((n - 1) as nat)
    }
}

proof fn lemma_hex_fixed_len(v: nat, n: nat)
    ensures
        hex_fixed(v, n).len() == n,
    decreases n,
{
    if n > 0 {
        lemma_hex_fixed_len(v / 16, (n - 1) as nat);
    }
}

proof fn lemma_hex_digit_order(d1: nat, d2: nat)
    requires
        d1 < d2 < 16,
    ensures
        (hex_digit(d1) as u32) < (hex_digit(d2) as u32),
{
}

proof fn lemma_hex_fixed_order(v1: nat, v2: nat, n: nat)
    requires
        v1 < v2 < pow16(n),
    ensures
        text_before(hex_fixed(v1, n), hex_fixed(v2, n)),
    decreases n,
{
    assert(n > 0);
    let q1 = v1 / 16;
    let q2 = v2 / 16;
    let m = (n - 1) as nat;
    let a = hex_fixed(q1, m);
    let b = hex_fixed(q2, m);
    lemma_hex_fixed_len(q1, m);
    lemma_hex_fixed_len(q2, m);
    let a2 = a.push(hex_digit(v1 % 16));
    let b2 = b.push(hex_digit(v2 % 16));
    assert(q2 < pow16(m)) by (nonlinear_arith)
        requires
            q2 == v2 / 16,
            v2 < pow16(n),
            pow16(n) == 16 * pow16(m),
    ;
    assert(q1 <= q2) by (nonlinear_arith)
        requires
            q1 == v1 / 16,
            q2 == v2 / 16,
            v1 < v2,
    ;
    if q1 < q2 {
        lemma_hex_fixed_order(q1, q2, m);
        let k = choose|k: int|
            0 <= k < a.len() && a.subrange(0, k) == b.subrange(0, k) && (#[trigger] a[k] as u32) < (
            b[k] as u32);
        assert(a2.subrange(0, k) =~= a.subrange(0, k));
        assert(b2.subrange(0, k) =~= b.subrange(0, k));
        assert(a2[k] == a[k] && b2[k] == b[k]);
        assert(0 <= k < a2.len() && a2.subrange(0, k) == b2.subrange(0, k) && (a2[k] as u32) < (
        b2[k] as u32));
    } else {
        assert(v1 % 16 < v2 % 16) by (nonlinear_arith)
            requires
                v1 / 16 == v2 / 16,
                v1 < v2,
        ;
        lemma_hex_digit_order(v1 % 16, v2 % 16);
        let k = m as int;
        assert(a2.subrange(0, k) =~= a);
        assert(b2.subrange(0, k) =~= b);
        assert(a2[k] == hex_digit(v1 % 16) && b2[k] == hex_digit(v2 % 16));
        assert(0 <= k < a2.len() && a2.subrange(0, k) == b2.subrange(0, k) && (a2[k] as u32) < (
        b2[k] as u32));
    }
    assert(hex_fixed(v1, n) == a2);
    assert(hex_fixed(v2, n) == b2);
}

/// Identifiers sort as their stored texts do: a smaller identifier has a
/// text that sorts first, so the greatest text is the latest capture.
pub proof fn lemma_id_text_order(a: u128, b: u128)
    requires
        a < b,
    ensures
        text_before(id_text_of(a), id_text_of(b)),
{
    reveal_with_fuel(pow16, 33);
    assert(pow16(32) == 0x1_0000_0000_0000_0000_0000_0000_0000_0000nat);
    lemma_hex_fixed_order(a as nat, b as nat, 32);
}

/// Of two identifiers handed out one after the other, whatever the clock
/// proposed, the second is greater and its stored text sorts after the
/// first one's: the capture committed last is the one read as latest.
pub proof fn lemma_commit_order(last: Option<u128>, proposed1: u128, proposed2: u128)
    requires
        next_id(last, proposed1) is Some,
        next_id(next_id(last, proposed1), proposed2) is Some,
    ensures
        next_id(last, proposed1)->0 < next_id(next_id(last, proposed1), proposed2)->0,
        text_before(
            id_text_of(next_id(last, proposed1)->0),
            id_text_of(next_id(next_id(last, proposed1), proposed2)->0),
        ),
{
    lemma_id_text_order(
        next_id(last, proposed1)->0,
        next_id(next_id(last, proposed1), proposed2)->0,
    );
}

} // verus!
