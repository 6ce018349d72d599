//! Display names of entry tokens: a fixed prefix followed by the entry's
//! index in decimal, e.g. `Token Lottery Ticket #7`.
use vstd::prelude::*;
use vstd::string::*;

verus! {

/// The prefix of every entry name and the name of each round's collection.
pub const NAME: &'static str = "Token Lottery Ticket #";

/// Symbol stamped on entries and collections.
pub const SYMBOL: &'static str = "TLT";

/// Metadata document of entries and collections.
pub const URI: &'static str = "https://raw.githubusercontent.com/Emman442/Quiz-application-with-leaderboard-feature/main/mpl.json";

pub open spec fn digit_char(d: nat) -> char {
    seq!['0', '1', '2', '3', '4', '5', '6', '7', '8', '9'][d as int]
}

/// `n` written in decimal, without leading zeros.
pub open spec fn decimal(n: nat) -> Seq<char>
    decreases n,
{
    if n < 10 {
        seq![digit_char(n)]
    } else {
        decimal(n / 10).push(digit_char(n % 10))
    }
}

/// The name that entry `index` carries.
pub open spec fn ticket_name_of(index: u64) -> Seq<char> {
    NAME@ + decimal(index as nat)
}

/// A stored name with its NUL padding removed.
pub open spec fn strip_nul(s: Seq<char>) -> Seq<char> {
    s.filter(|c: char| c != '\0')
}

fn digit_str(d: u64) -> (r: &'static str)
    requires
        d < 10,
    ensures
        r@ == seq![digit_char(d as nat)],
{
    proof {
        reveal_strlit("0");
        reveal_strlit("1");
        reveal_strlit("2");
        reveal_strlit("3");
        reveal_strlit("4");
        reveal_strlit("5");
        reveal_strlit("6");
        reveal_strlit("7");
        reveal_strlit("8");
        reveal_strlit("9");
    }
    let r = if d == 0 {
        "0"
    } else if d == 1 {
        "1"
    } else if d == 2 {
        "2"
    } else if d == 3 {
        "3"
    } else if d == 4 {
        "4"
    } else if d == 5 {
        "5"
    } else if d == 6 {
        "6"
    } else if d == 7 {
        "7"
    } else if d == 8 {
        "8"
    } else {
        "9"
    };
    assert(r@ =~= seq![digit_char(d as nat)]);
    r
}

/// `n` in decimal.
pub fn decimal_string(n: u64) -> (r: String)
    ensures
        r@ == decimal(n as nat),
    decreases n,
{
    if n < 10 {
        String::from_str(digit_str(n))
    } else {
        let mut s = decimal_string(n / 10);
        s.append(digit_str(n % 10));
        s
    }
}

/// The name of entry `index`: the prefix, then the index in decimal.
pub fn ticket_name(index: u64) -> (r: String)
    ensures
        r@ == ticket_name_of(index),
{
    let digits = decimal_string(index);
    let prefix = String::from_str(NAME);
    prefix.concat(digits.as_str())
}

/// The characters of `s` other than NUL, in order.
pub fn strip_nul_chars(s: &str) -> (r: Vec<char>)
    ensures
        r@ == strip_nul(s@),
{
    let n = s.unicode_len();
    let mut r: Vec<char> = Vec::new();
    let mut i: usize = 0;
    while i < n
        invariant
            n == s@.len(),
            0 <= i <= n,
            r@ == strip_nul(s@.subrange(0, i as int)),
        decreases n - i,
    {
        let c = s.get_char(i);
        proof {
            let pre = s@.subrange(0, i as int + 1);
            assert(pre.drop_last() =~= s@.subrange(0, i as int));
            assert(pre.last() == c);
            reveal(Seq::filter);
        }
        if c != '\0' {
            r.push(c);
        }
        i = i + 1;
    }
    assert(s@.subrange(0, n as int) =~= s@);
    r
}

/// Whether `a` holds exactly the characters of `b`.
fn same_chars(a: &Vec<char>, b: &str) -> (r: bool)
    ensures
        r == (a@ == b@),
{
    let n = b.unicode_len();
    if a.len() != n {
        return false;
    }
    let mut i: usize = 0;
    while i < n
        invariant
            n == b@.len(),
            n == a@.len(),
            0 <= i <= n,
            forall|j: int| 0 <= j < i ==> a@[j] == b@[j],
        decreases n - i,
    {
        if a[i] != b.get_char(i) {
            return false;
        }
        i = i + 1;
    }
    assert(a@ =~= b@);
    true
}

/// Whether a stored entry name, NUL padding removed, is the name of entry `index`.
pub fn names_ticket(stored: &str, index: u64) -> (r: bool)
    ensures
        r == (strip_nul(stored@) == ticket_name_of(index)),
{
    let stripped = strip_nul_chars(stored);
    let expected = ticket_name(index);
    same_chars(&stripped, expected.as_str())
}

} // verus!
