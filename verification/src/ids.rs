//! Identifiers.
use vstd::prelude::*;

verus! {

/// Conversation in Chatwoot.
pub type ConversationId = i64;

/// Account in Chatwoot.
pub type AccountId = i64;

/// Contact in Chatwoot.
pub type ContactId = i64;

/// Inbox in Chatwoot.
pub type InboxId = i64;

/// One run of the agent: the 128 bits of a UUID.
#[derive(Debug, Clone, Copy, PartialEq, Eq, Hash, Structural)]
pub struct RunId(pub u128);

/// The lower-case hexadecimal digit of `d`.
pub open spec fn hex_digit(d: int) -> char {
    if d < 10 {
        ((48 + d) as u8) as char
    } else {
        ((87 + d) as u8) as char
    }
}

/// `16^k`.
pub open spec fn pow16(k: nat) -> int
    decreases k,
{
    if k == 0 {
        1
    } else {
        16 * pow16((k - 1) as nat)
    }
}

/// The `k`-th hexadecimal digit of `n`, counted from the right.
pub open spec fn nibble(n: int, k: nat) -> int {
    (n / pow16(k)) % 16
}

/// The hyphenated form of a UUID: thirty-two lower-case hexadecimal digits in
/// groups of 8, 4, 4, 4 and 12.
pub open spec fn hyphenated(n: int) -> Seq<char> {
    Seq::new(
        36,
        |i: int|
            if i == 8 || i == 13 || i == 18 || i == 23 {
                '-'
            } else {
                let hyphens: int = if i < 8 {
                    0
                } else if i < 13 {
                    1
                } else if i < 18 {
                    2
                } else if i < 23 {
                    3
                } else {
                    4
                };
                hex_digit(nibble(n, (31 - (i - hyphens)) as nat))
            },
    )
}

/// `uuid::Uuid::new_v4`: a random UUID, by its 128 bits. Only the version digit
/// (4) and the variant digit (8, 9, a or b) are the same for every outcome.
#[verifier::external_body]
fn random_uuid() -> (r: u128)
    ensures
        nibble(r as int, 19) == 4,
        8 <= nibble(r as int, 15) <= 11,
{
    uuid::Uuid::new_v4().as_u128()
}

/// `uuid::Uuid::now_v7`: a time-ordered UUID, by its 128 bits. Only the version
/// digit (7) and the variant digit (8, 9, a or b) are the same for every
/// outcome.
#[verifier::external_body]
fn ordered_uuid() -> (r: u128)
    ensures
        nibble(r as int, 19) == 7,
        8 <= nibble(r as int, 15) <= 11,
{
    uuid::Uuid::now_v7().as_u128()
}

/// `<uuid::Uuid as Display>`: the hyphenated lower-case form.
#[verifier::external_body]
fn uuid_text(n: u128) -> (r: String)
    ensures
        r@ == hyphenated(n as int),
{
    uuid::Uuid::from_u128(n).to_string()
}

impl RunId {
    /// A fresh random id (UUID version 4).
    pub fn new() -> (r: Self)
        ensures
            nibble(r.0 as int, 19) == 4,
            8 <= nibble(r.0 as int, 15) <= 11,
    {
        RunId(random_uuid())
    }

    /// The 128 bits of the id.
    pub fn as_uuid(&self) -> (r: u128)
        ensures
            r == self.0,
    {
        self.0
    }

    /// The hyphenated form of the id.
    pub fn to_string(&self) -> (r: String)
        ensures
            r@ == hyphenated(self.0 as int),
    {
        uuid_text(self.0)
    }
}

impl Default for RunId {
    fn default() -> (r: Self)
        ensures
            nibble(r.0 as int, 19) == 4,
            8 <= nibble(r.0 as int, 15) <= 11,
    {
        RunId::new()
    }
}

/// A fresh token for a lock: the hyphenated form of a UUID version 7.
pub fn fresh_token() -> (r: String)
    ensures
        r@.len() == 36,
        r@[14] == '7',
        exists|n: u128| r@ == hyphenated(n as int),
{
    let n = ordered_uuid();
    let r = uuid_text(n);
    assert(r@[14] == hex_digit(7));
    assert(hex_digit(7) == '7') by {
        assert((48 + 7) as u8 as char == '7');
    }
    r
}

// ---------------------------------------------------------------------------
// Laws
// ---------------------------------------------------------------------------

/// Two digits that are written alike are the same.
pub proof fn lemma_hex_digits_differ(a: int, b: int)
    requires
        0 <= a < 16,
        0 <= b < 16,
        hex_digit(a) == hex_digit(b),
    ensures
        a == b,
{
    assert(forall|d: int| 0 <= d < 10 ==> #[trigger] hex_digit(d) as int == 48 + d);
    assert(forall|d: int| 10 <= d < 16 ==> #[trigger] hex_digit(d) as int == 87 + d);
}

/// Digits are the numerals and the small letters from `a` to `f`, in their order.
pub proof fn law_hexadecimal_digits(d: int)
    requires
        0 <= d < 16,
    ensures
        d < 10 ==> hex_digit(d) as int == '0' as int + d,
        d >= 10 ==> hex_digit(d) as int == 'a' as int + d - 10,
{
}

proof fn lemma_pow16_positive(k: nat)
    ensures
        pow16(k) > 0,
    decreases k,
{
    if k > 0 {
        lemma_pow16_positive((k - 1) as nat);
    }
}

proof fn lemma_same_nibbles(a: int, b: int, k: nat)
    requires
        a >= 0,
        b >= 0,
        forall|j: nat| j < k ==> #[trigger] nibble(a, j) == nibble(b, j),
    ensures
        a % pow16(k) == b % pow16(k),
    decreases k,
{
    if k > 0 {
        let m = (k - 1) as nat;
        let p = pow16(m);
        lemma_same_nibbles(a, b, m);
        lemma_pow16_positive(m);
        vstd::arithmetic::div_mod::lemma_mod_breakdown(a, p, 16);
        vstd::arithmetic::div_mod::lemma_mod_breakdown(b, p, 16);
        assert(nibble(a, m) == nibble(b, m));
        assert(p * 16 == pow16(k));
    }
}

/// Two runs that are written alike are the same run.
pub proof fn law_runs_are_told_apart(a: RunId, b: RunId, x: String, y: String)
    requires
        call_ensures(RunId::to_string, (&a,), x),
        call_ensures(RunId::to_string, (&b,), y),
        x@ == y@,
    ensures
        a == b,
{
    let m = a.0 as int;
    let n = b.0 as int;
    assert forall|j: nat| j < 32 implies #[trigger] nibble(m, j) == nibble(n, j) by {
        let d = 31 - j;
        let i = if d < 8 {
            d
        } else if d < 12 {
            d + 1
        } else if d < 16 {
            d + 2
        } else if d < 20 {
            d + 3
        } else {
            d + 4
        };
        assert(hyphenated(m)[i] == hex_digit(nibble(m, j)));
        assert(hyphenated(n)[i] == hex_digit(nibble(n, j)));
        lemma_hex_digits_differ(nibble(m, j), nibble(n, j));
    }
    lemma_same_nibbles(m, n, 32);
    assert(pow16(32) == 0x100000000000000000000000000000000) by {
        reveal_with_fuel(pow16, 33);
    }
}

/// An id is written in thirty-six characters, with hyphens after the eighth, the
/// twelfth, the sixteenth and the twentieth digit, and digits everywhere else.
pub proof fn law_ids_as_written(a: RunId, x: String, i: int)
    requires
        call_ensures(RunId::to_string, (&a,), x),
        0 <= i < 36,
    ensures
        x@.len() == 36,
        x@[i] == '-' <==> i == 8 || i == 13 || i == 18 || i == 23,
{
    let n = a.0 as int;
    if !(i == 8 || i == 13 || i == 18 || i == 23) {
        let d = choose|d: int| 0 <= d < 16 && x@[i] == #[trigger] hex_digit(d);
        let k = (31 - (i - if i < 8 {
            0int
        } else if i < 13 {
            1
        } else if i < 18 {
            2
        } else if i < 23 {
            3
        } else {
            4
        })) as nat;
        assert(x@[i] == hex_digit(nibble(n, k)));
        law_hexadecimal_digits(nibble(n, k));
    }
}

/// An id is its 128 bits, and a fresh one is of version four.
pub proof fn law_ids_are_their_bits(a: RunId, b: RunId, x: u128, y: u128)
    requires
        call_ensures(RunId::as_uuid, (&a,), x),
        call_ensures(RunId::as_uuid, (&b,), y),
    ensures
        x == y <==> a == b,
        x == a.0,
{
}

/// A fresh id says what it is: its text shows version four, and the token of a
/// lock shows version seven.
pub proof fn law_fresh_ids_show_their_version(
    a: RunId,
    b: RunId,
    x: String,
    y: String,
    token: String,
)
    requires
        call_ensures(RunId::new, (), a),
        call_ensures(RunId::default, (), b),
        call_ensures(RunId::to_string, (&a,), x),
        call_ensures(RunId::to_string, (&b,), y),
        call_ensures(fresh_token, (), token),
    ensures
        x@[14] == '4' && y@[14] == '4' && token@[14] == '7',
        x@.len() == 36 && y@.len() == 36 && token@.len() == 36,
{
    assert(x@[14] == hex_digit(4) && y@[14] == hex_digit(4));
    assert((48 + 4) as u8 as char == '4');
}

} // verus!
