//! Counters that hand out session, transfer and request ids.
use vstd::prelude::*;

verus! {

/// A source of ids: 1, 2, 3, ... wrapping around after `u32::MAX`.
#[derive(Debug)]
pub struct IdCounter {
    next: u32,
}

/// The id handed out `i` calls after a counter stood at `start`.
pub open spec fn id_after(start: u32, i: nat) -> u32 {
    ((start as nat + i) % 0x1_0000_0000) as u32
}

impl View for IdCounter {
    type V = u32;

    /// The id the next call hands out.
    closed spec fn view(&self) -> u32 {
        self.next
    }
}

impl IdCounter {
    /// A counter whose first id is 1.
    pub fn new() -> (r: IdCounter)
        ensures
            r@ == 1,
    {
        IdCounter { next: 1 }
    }

    /// The id the next call hands out.
    pub fn peek(&self) -> (r: u32)
        ensures
            r == self@,
    {
        self.next
    }

    /// Hands out the current id and moves to the next one, wrapping around after
    /// `u32::MAX`.
    pub fn fetch_next(&mut self) -> (id: u32)
        ensures
            id == old(self)@,
            final(self)@ == id_after(old(self)@, 1),
    {
        let id = self.next;
        self.next = self.next.wrapping_add(1);
        id
    }
}

/// A new tunnel session id.
pub fn generate_session_id(counter: &mut IdCounter) -> (id: u32)
    ensures
        id == old(counter)@,
        final(counter)@ == id_after(old(counter)@, 1),
{
    counter.fetch_next()
}

/// A new SFTP transfer id.
pub fn generate_id(counter: &mut IdCounter) -> (id: u32)
    ensures
        id == old(counter)@,
        final(counter)@ == id_after(old(counter)@, 1),
{
    counter.fetch_next()
}

/// A new upload id.
pub fn generate_upload_id(counter: &mut IdCounter) -> (id: u32)
    ensures
        id == old(counter)@,
        final(counter)@ == id_after(old(counter)@, 1),
{
    counter.fetch_next()
}

/// A new download id.
pub fn generate_download_id(counter: &mut IdCounter) -> (id: u32)
    ensures
        id == old(counter)@,
        final(counter)@ == id_after(old(counter)@, 1),
{
    counter.fetch_next()
}

/// Stepping a counter twice is stepping it by the sum.
pub proof fn lemma_id_after_add(start: u32, i: nat, j: nat)
    ensures
        id_after(id_after(start, i), j) == id_after(start, i + j),
{
    let m: int = 0x1_0000_0000;
    let a = start as int + i as int;
    assert(id_after(start, i) as int == a % m);
    vstd::arithmetic::div_mod::lemma_add_mod_noop(a, j as int, m);
    vstd::arithmetic::div_mod::lemma_mod_twice(a, m);
}

/// A counter hands out no id twice within `2^32` calls.
pub proof fn lemma_ids_distinct(start: u32, i: nat, j: nat)
    requires
        i < j < 0x1_0000_0000,
    ensures
        id_after(start, i) != id_after(start, j),
{
    let m: int = 0x1_0000_0000;
    let a = start as int + i as int;
    let b = start as int + j as int;
    if a % m == b % m {
        vstd::arithmetic::div_mod::lemma_fundamental_div_mod(a, m);
        vstd::arithmetic::div_mod::lemma_fundamental_div_mod(b, m);
        assert(b - a == m * (b / m) - m * (a / m));
        vstd::arithmetic::mul::lemma_mul_is_distributive_sub(m, b / m, a / m);
        assert(b - a == m * (b / m - a / m));
        assert(0 < b - a < m);
        if b / m - a / m >= 1 {
            vstd::arithmetic::mul::lemma_mul_inequality(1, b / m - a / m, m);
        } else {
            vstd::arithmetic::mul::lemma_mul_inequality(b / m - a / m, 0, m);
        }
    }
}

/// A new counter hands out 1, 2, 3, ... : the id of call `i` (counting from 0) is `i + 1`,
/// for the first `2^32 - 1` calls.
pub proof fn lemma_ids_from_one(i: nat)
    requires
        i < 0xFFFF_FFFF,
    ensures
        id_after(1, i) == i + 1,
{
}

} // verus!
