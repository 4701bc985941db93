//! Rendering of the unique identifiers handed out by `generate` replies: a
//! node identity, a dash, and the decimal form of a clock reading in
//! microseconds.  Distinct clock readings give distinct identifiers.

use vstd::prelude::*;

verus! {

/// The character for one decimal digit.
pub open spec fn digit_char(d: nat) -> char
    recommends
        d < 10,
{
    if d == 0 {
        '0'
    } else if d == 1 {
        '1'
    } else if d == 2 {
        '2'
    } else if d == 3 {
        '3'
    } else if d == 4 {
        '4'
    } else if d == 5 {
        '5'
    } else if d == 6 {
        '6'
    } else if d == 7 {
        '7'
    } else if d == 8 {
        '8'
    } else {
        '9'
    }
}

/// The decimal form of a number, without leading zeroes (except for the
/// number zero itself, written as one digit).
pub open spec fn dec_rep(n: nat) -> Seq<char>
    decreases n,
{
    if n < 10 {
        seq![digit_char(n)]
    } else {
        dec_rep(n / 10).push(digit_char(n % 10))
    }
}

/// The identifier minted by a `generate` reply: the node identity, `-`, and
/// the decimal form of the clock reading.
pub open spec fn gen_id(node_id: Seq<char>, micros: u64) -> Seq<char> {
    node_id + seq!['-'] + dec_rep(micros as nat)
}

/// The string for one decimal digit.
fn digit_str(d: u64) -> (r: &'static str)
    requires
        d < 10,
    ensures
        r@ == seq![digit_char(d as nat)],
{
    let r: &'static str = if d == 0 {
        "0"
    } else if d == 1 {
        "1"
    } else if d == 2 {
        "2"
    } else if d == 3 {
        "3"
    } else if d == 4 {
        "4"
    } else if d == 5 {
        "5"
    } else if d == 6 {
        "6"
    } else if d == 7 {
        "7"
    } else if d == 8 {
        "8"
    } else {
        "9"
    };
    proof {
        reveal_strlit("0");
        reveal_strlit("1");
        reveal_strlit("2");
        reveal_strlit("3");
        reveal_strlit("4");
        reveal_strlit("5");
        reveal_strlit("6");
        reveal_strlit("7");
        reveal_strlit("8");
        reveal_strlit("9");
        assert(r@ =~= seq![digit_char(d as nat)]);
    }
    r
}

/// Render a number in decimal.
pub fn u64_to_dec(n: u64) -> (r: String)
    ensures
        r@ == dec_rep(n as nat),
    decreases n,
{
    if n < 10 {
        String::from_str(digit_str(n))
    } else {
        let mut r = u64_to_dec(n / 10);
        r.append(digit_str(n % 10));
        proof {
            assert(r@ =~= dec_rep(n as nat));
        }
        r
    }
}

/// Render the identifier for a `generate` reply from the node identity and a
/// clock reading.
pub fn render_gen_id(node_id: &String, micros: u64) -> (r: String)
    ensures
        r@ == gen_id(node_id@, micros),
{
    let dec = u64_to_dec(micros);
    let r = node_id.clone().concat("-").concat(dec.as_str());
    proof {
        reveal_strlit("-");
        assert(r@ =~= gen_id(node_id@, micros));
    }
    r
}

/// The decimal form is never empty, and has at least two digits from ten up.
proof fn lemma_dec_rep_len(n: nat)
    ensures
        dec_rep(n).len() >= 1,
        n >= 10 ==> dec_rep(n).len() >= 2,
    decreases n,
{
    if n >= 10 {
        lemma_dec_rep_len(n / 10);
    }
}

/// Distinct digits have distinct characters.
proof fn lemma_digit_char_injective(a: nat, b: nat)
    requires
        a < 10,
        b < 10,
        digit_char(a) == digit_char(b),
    ensures
        a == b,
{
}

/// Two numbers with the same decimal form are the same number.
pub proof fn lemma_dec_rep_injective(a: nat, b: nat)
    requires
        dec_rep(a) == dec_rep(b),
    ensures
        a == b,
    decreases a,
{
    if a < 10 && b < 10 {
        assert(seq![digit_char(a)][0] == digit_char(a));
        assert(seq![digit_char(b)][0] == digit_char(b));
        assert(dec_rep(a)[0] == dec_rep(b)[0]);
        lemma_digit_char_injective(a, b);
    } else if a < 10 {
        lemma_dec_rep_len(b / 10);
        assert(dec_rep(b).len() >= 2);
        assert(dec_rep(a).len() == 1);
    } else if b < 10 {
        lemma_dec_rep_len(a / 10);
        assert(dec_rep(a).len() >= 2);
        assert(dec_rep(b).len() == 1);
    } else {
        let ra = dec_rep(a / 10);
        let rb = dec_rep(b / 10);
        assert(ra.push(digit_char(a % 10)).last() == digit_char(a % 10));
        assert(rb.push(digit_char(b % 10)).last() == digit_char(b % 10));
        lemma_digit_char_injective(a % 10, b % 10);
        assert(ra =~= ra.push(digit_char(a % 10)).drop_last());
        assert(rb =~= rb.push(digit_char(b % 10)).drop_last());
        lemma_dec_rep_injective(a / 10, b / 10);
        assert(a == (a / 10) * 10 + a % 10) by {
            vstd::arithmetic::div_mod::lemma_fundamental_div_mod(a as int, 10);
        }
        assert(b == (b / 10) * 10 + b % 10) by {
            vstd::arithmetic::div_mod::lemma_fundamental_div_mod(b as int, 10);
        }
    }
}

/// Appending different suffixes to one prefix gives different sequences.
proof fn lemma_concat_cancels_prefix(p: Seq<char>, s1: Seq<char>, s2: Seq<char>)
    requires
        p + s1 == p + s2,
    ensures
        s1 == s2,
{
    assert(s1 =~= (p + s1).subrange(p.len() as int, (p + s1).len() as int));
    assert(s2 =~= (p + s2).subrange(p.len() as int, (p + s2).len() as int));
}

/// Identifiers generated by one node from distinct clock readings are
/// pairwise distinct.
pub proof fn lemma_gen_id_injective(node_id: Seq<char>, t1: u64, t2: u64)
    requires
        t1 != t2,
    ensures
        gen_id(node_id, t1) != gen_id(node_id, t2),
{
    if gen_id(node_id, t1) == gen_id(node_id, t2) {
        lemma_concat_cancels_prefix(
            node_id + seq!['-'],
            dec_rep(t1 as nat),
            dec_rep(t2 as nat),
        );
        lemma_dec_rep_injective(t1 as nat, t2 as nat);
    }
}

} // verus!
