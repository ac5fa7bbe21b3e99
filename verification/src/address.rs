//! IPv4 addresses in dotted-decimal text.
//!
//! An address is accepted exactly when the text is four decimal octets
//! (0 to 255, written without leading zeros) separated by dots: the same texts
//! that the standard library's `Ipv4Addr` parser accepts.
use vstd::prelude::*;

verus! {

/// The value of a decimal digit character (`'0'` is 48).
pub open spec fn digit_value(c: char) -> int {
    c as int - 48
}

/// Whether `c` is one of `'0'` to `'9'`.
pub open spec fn is_digit(c: char) -> bool {
    '0' <= c && c <= '9'
}

/// The digit character of `d`, for `0 <= d < 10`.
pub open spec fn digit_char(d: int) -> char {
    seq!['0', '1', '2', '3', '4', '5', '6', '7', '8', '9'][d]
}

/// The decimal text of `n`, without leading zeros.
pub open spec fn decimal_text(n: nat) -> Seq<char>
    decreases n,
{
    if n < 10 {
        seq![digit_char(n as int)]
    } else {
        decimal_text(n / 10).push(digit_char((n % 10) as int))
    }
}

/// The dotted-decimal text of the address whose four octets are `o`.
pub open spec fn ipv4_text(o: Seq<u8>) -> Seq<char> {
    decimal_text(o[0] as nat) + seq!['.'] + decimal_text(o[1] as nat) + seq!['.']
        + decimal_text(o[2] as nat) + seq!['.'] + decimal_text(o[3] as nat)
}

/// Whether `text` is the dotted-decimal text of some address.
pub open spec fn is_ipv4_text(text: Seq<char>) -> bool {
    exists|a: [u8; 4]| text == #[trigger] ipv4_text(a@)
}

/// Where a left-to-right reading of an address text stands.
pub enum Scan {
    Failed,
    /// `done` holds the octets already closed by a dot; `value` is the octet
    /// being read, of which `digits` digits were seen.
    Reading { done: Seq<u8>, value: nat, digits: nat },
}

/// The reading before any character.
pub open spec fn scan_start() -> Scan {
    Scan::Reading { done: Seq::empty(), value: 0, digits: 0 }
}

/// One character of the reading.
pub open spec fn scan_step(st: Scan, c: char) -> Scan {
    match st {
        Scan::Failed => Scan::Failed,
        Scan::Reading { done, value, digits } => {
            if is_digit(c) {
                if digits > 0 && value == 0 {
                    Scan::Failed
                } else if digits >= 3 {
                    Scan::Failed
                } else if value * 10 + digit_value(c) > 255 {
                    Scan::Failed
                } else {
                    Scan::Reading {
                        done,
                        value: (value * 10 + digit_value(c)) as nat,
                        digits: digits + 1,
                    }
                }
            } else if c == '.' {
                if digits == 0 || done.len() >= 3 {
                    Scan::Failed
                } else {
                    Scan::Reading { done: done.push(value as u8), value: 0, digits: 0 }
                }
            } else {
                Scan::Failed
            }
        },
    }
}

/// The reading of `s` from the state `st`.
pub open spec fn scan_from(st: Scan, s: Seq<char>) -> Scan
    decreases s.len(),
{
    if s.len() == 0 {
        st
    } else {
        scan_step(scan_from(st, s.drop_last()), s.last())
    }
}

/// The address that a finished reading gives, if any.
pub open spec fn scan_result(st: Scan) -> Option<Seq<u8>> {
    match st {
        Scan::Failed => None,
        Scan::Reading { done, value, digits } => {
            if done.len() == 3 && digits > 0 {
                Some(done.push(value as u8))
            } else {
                None
            }
        },
    }
}

/// The text of octets closed by dots: each one's decimal text and a dot.
pub open spec fn closed_text(done: Seq<u8>) -> Seq<char>
    decreases done.len(),
{
    if done.len() == 0 {
        Seq::empty()
    } else {
        closed_text(done.drop_last()) + decimal_text(done.last() as nat) + seq!['.']
    }
}

proof fn lemma_digit_char(d: int)
    requires
        0 <= d < 10,
    ensures
        is_digit(digit_char(d)),
        digit_value(digit_char(d)) == d,
        digit_char(d) != '.',
{
}

proof fn lemma_decimal_text_len(n: nat)
    ensures
        1 <= decimal_text(n).len(),
        n < 10 ==> decimal_text(n).len() == 1,
        10 <= n < 100 ==> decimal_text(n).len() == 2,
        100 <= n < 1000 ==> decimal_text(n).len() == 3,
    decreases n,
{
    if n >= 10 {
        lemma_decimal_text_len(n / 10);
    }
}

proof fn lemma_decimal_text_push(v: nat, d: int)
    requires
        v > 0,
        0 <= d < 10,
    ensures
        decimal_text((v * 10 + d) as nat) == decimal_text(v).push(digit_char(d)),
{
    let n = (v * 10 + d) as nat;
    assert(n / 10 == v);
    assert(n % 10 == d);
}

proof fn lemma_scan_failed(s: Seq<char>)
    ensures
        scan_from(Scan::Failed, s) == Scan::Failed,
    decreases s.len(),
{
    if s.len() > 0 {
        lemma_scan_failed(s.drop_last());
    }
}

/// Reading `p + q` is reading `p`, then `q`.
proof fn lemma_scan_concat(st: Scan, p: Seq<char>, q: Seq<char>)
    ensures
        scan_from(st, p + q) == scan_from(scan_from(st, p), q),
    decreases q.len(),
{
    if q.len() == 0 {
        assert(p + q =~= p);
    } else {
        assert((p + q).drop_last() =~= p + q.drop_last());
        lemma_scan_concat(st, p, q.drop_last());
    }
}

/// What a reading that has not failed has seen.
proof fn lemma_scan_sound(s: Seq<char>)
    ensures
        scan_from(scan_start(), s) matches Scan::Reading { done, value, digits } ==> {
            &&& done.len() <= 3
            &&& value <= 255
            &&& digits <= 3
            &&& (digits == 0 ==> value == 0 && s == closed_text(done))
            &&& (digits > 0 ==> s == closed_text(done) + decimal_text(value) && digits
                == decimal_text(value).len())
        },
    decreases s.len(),
{
    if s.len() > 0 {
        let p = s.drop_last();
        let c = s.last();
        lemma_scan_sound(p);
        assert(s =~= p.push(c));
        match scan_from(scan_start(), p) {
            Scan::Failed => {},
            Scan::Reading { done, value, digits } => {
                if is_digit(c) {
                    let d = digit_value(c);
                    if !(digits > 0 && value == 0) && digits < 3 && value * 10 + d <= 255 {
                        let n = (value * 10 + d) as nat;
                        if digits == 0 {
                            assert(digit_char(d) == c);
                            assert(decimal_text(n) =~= seq![c]);
                            assert(s =~= closed_text(done) + decimal_text(n));
                            lemma_decimal_text_len(n);
                        } else {
                            lemma_decimal_text_push(value, d);
                            assert(digit_char(d) == c);
                            assert(s =~= closed_text(done) + decimal_text(n));
                            lemma_decimal_text_len(value);
                            lemma_decimal_text_len(n);
                        }
                    }
                } else if c == '.' {
                    if !(digits == 0 || done.len() >= 3) {
                        let nd = done.push(value as u8);
                        assert(nd.drop_last() =~= done);
                        assert(s =~= closed_text(nd));
                    }
                }
            },
        }
    }
}

proof fn lemma_scan_one(st: Scan, c: char)
    ensures
        scan_from(st, seq![c]) == scan_step(st, c),
{
    let s = seq![c];
    assert(s.drop_last() =~= Seq::<char>::empty());
    assert(scan_from(st, Seq::<char>::empty()) == st);
    assert(scan_from(st, s) == scan_step(scan_from(st, s.drop_last()), s.last()));
}

/// Reading the decimal text of an octet from the start of a field.
proof fn lemma_scan_decimal(done: Seq<u8>, n: nat)
    requires
        n <= 255,
    ensures
        scan_from(Scan::Reading { done, value: 0, digits: 0 }, decimal_text(n))
            == (Scan::Reading { done, value: n, digits: decimal_text(n).len() }),
    decreases n,
{
    let st = Scan::Reading { done, value: 0, digits: 0 };
    lemma_decimal_text_len(n);
    if n < 10 {
        lemma_digit_char(n as int);
        lemma_scan_one(st, digit_char(n as int));
        assert(decimal_text(n) == seq![digit_char(n as int)]);
    } else {
        lemma_scan_decimal(done, n / 10);
        lemma_decimal_text_len(n / 10);
        lemma_digit_char((n % 10) as int);
        let t = decimal_text(n);
        assert(t == decimal_text(n / 10).push(digit_char((n % 10) as int)));
        assert(t.drop_last() =~= decimal_text(n / 10));
        assert(t.last() == digit_char((n % 10) as int));
        assert((n / 10) * 10 + n % 10 == n);
        assert(scan_from(st, t) == scan_step(scan_from(st, t.drop_last()), t.last()));
    }
}

/// Reading the text of an address gives that address back.
proof fn lemma_scan_complete(o: Seq<u8>)
    requires
        o.len() == 4,
    ensures
        scan_result(scan_from(scan_start(), ipv4_text(o))) == Some(o),
{
    let d0 = decimal_text(o[0] as nat);
    let d1 = decimal_text(o[1] as nat);
    let d2 = decimal_text(o[2] as nat);
    let d3 = decimal_text(o[3] as nat);
    let dot = seq!['.'];
    let e = Seq::<u8>::empty();
    let s0 = scan_start();
    lemma_scan_decimal(e, o[0] as nat);
    let s1 = Scan::Reading { done: e.push(o[0]), value: 0, digits: 0 };
    lemma_decimal_text_len(o[0] as nat);
    lemma_scan_concat(s0, d0, dot);
    lemma_scan_one(Scan::Reading { done: e, value: o[0] as nat, digits: d0.len() }, '.');
    assert(scan_from(s0, d0 + dot) == s1);
    lemma_scan_decimal(e.push(o[0]), o[1] as nat);
    lemma_decimal_text_len(o[1] as nat);
    lemma_scan_concat(s0, d0 + dot, d1);
    lemma_scan_concat(s0, d0 + dot + d1, dot);
    lemma_scan_one(Scan::Reading { done: e.push(o[0]), value: o[1] as nat, digits: d1.len() }, '.');
    let s2 = Scan::Reading { done: e.push(o[0]).push(o[1]), value: 0, digits: 0 };
    assert(scan_from(s0, d0 + dot + d1 + dot) == s2);
    lemma_scan_decimal(e.push(o[0]).push(o[1]), o[2] as nat);
    lemma_decimal_text_len(o[2] as nat);
    lemma_scan_concat(s0, d0 + dot + d1 + dot, d2);
    lemma_scan_concat(s0, d0 + dot + d1 + dot + d2, dot);
    lemma_scan_one(
        Scan::Reading { done: e.push(o[0]).push(o[1]), value: o[2] as nat, digits: d2.len() },
        '.',
    );
    let s3 = Scan::Reading { done: e.push(o[0]).push(o[1]).push(o[2]), value: 0, digits: 0 };
    assert(scan_from(s0, d0 + dot + d1 + dot + d2 + dot) == s3);
    lemma_scan_decimal(e.push(o[0]).push(o[1]).push(o[2]), o[3] as nat);
    lemma_decimal_text_len(o[3] as nat);
    lemma_scan_concat(s0, d0 + dot + d1 + dot + d2 + dot, d3);
    assert(e.push(o[0]).push(o[1]).push(o[2]).push(o[3]) =~= o);
}

/// A successful reading of `s` shows that `s` is the text of what it gives.
proof fn lemma_scan_result_text(s: Seq<char>)
    ensures
        scan_result(scan_from(scan_start(), s)) matches Some(o) ==> o.len() == 4 && s
            == ipv4_text(o),
{
    lemma_scan_sound(s);
    if let Scan::Reading { done, value, digits } = scan_from(scan_start(), s) {
        if done.len() == 3 && digits > 0 {
            let o = done.push(value as u8);
            let dd = done.drop_last();
            let ddd = dd.drop_last();
            assert(ddd.drop_last() =~= Seq::<u8>::empty());
            assert(closed_text(ddd.drop_last()) =~= Seq::<char>::empty());
            assert(closed_text(ddd) == decimal_text(done[0] as nat) + seq!['.']);
            assert(closed_text(dd) == closed_text(ddd) + decimal_text(done[1] as nat) + seq!['.']);
            assert(closed_text(done) == closed_text(dd) + decimal_text(done[2] as nat) + seq!['.']);
            assert(o[3] as nat == value);
            assert(s =~= ipv4_text(o));
        }
    }
}

/// The number that a text of decimal digits denotes.
pub open spec fn decimal_value(s: Seq<char>) -> int
    decreases s.len(),
{
    if s.len() == 0 {
        0
    } else {
        decimal_value(s.drop_last()) * 10 + digit_value(s.last())
    }
}

/// `decimal_text(n)` is the decimal notation of `n`: one or more digits,
/// denoting `n`, with no leading zero.
pub proof fn lemma_decimal_text_is_decimal(n: nat)
    ensures
        decimal_text(n).len() >= 1,
        forall|i: int| 0 <= i < decimal_text(n).len() ==> is_digit(#[trigger] decimal_text(n)[i]),
        decimal_value(decimal_text(n)) == n,
        decimal_text(n).len() > 1 ==> decimal_text(n)[0] != '0',
        n > 0 ==> decimal_text(n)[0] != '0',
    decreases n,
{
    let t = decimal_text(n);
    if n < 10 {
        lemma_digit_char(n as int);
        assert(t.drop_last() =~= Seq::<char>::empty());
        assert(decimal_value(t.drop_last()) == 0);
        assert(t.last() == digit_char(n as int));
        assert(decimal_value(t) == decimal_value(t.drop_last()) * 10 + digit_value(t.last()));
        if n > 0 {
            lemma_digit_char(0);
        }
    } else {
        let m = n / 10;
        lemma_decimal_text_is_decimal(m);
        lemma_digit_char((n % 10) as int);
        assert(t.drop_last() =~= decimal_text(m));
        assert(t.last() == digit_char((n % 10) as int));
        assert(decimal_value(t) == decimal_value(t.drop_last()) * 10 + digit_value(t.last()));
        assert(t[0] == decimal_text(m)[0]);
        assert(m * 10 + n % 10 == n);
        assert forall|i: int| 0 <= i < t.len() implies is_digit(#[trigger] t[i]) by {
            if i < t.len() - 1 {
                assert(t[i] == decimal_text(m)[i]);
            }
        }
    }
}

/// Different addresses have different texts: the text of an address tells
/// which address it is.
pub proof fn lemma_ipv4_text_injective(a: [u8; 4], b: [u8; 4])
    requires
        ipv4_text(a@) == ipv4_text(b@),
    ensures
        a@ == b@,
{
    lemma_scan_complete(a@);
    lemma_scan_complete(b@);
}

/// Reads `text` as an IPv4 address in dotted-decimal notation.
///
/// Gives the four octets when `text` is the dotted-decimal text of an
/// address, and `None` for every other text.
pub fn parse_ipv4(text: &str) -> (r: Option<[u8; 4]>)
    ensures
        match r {
            Some(a) => text@ == ipv4_text(a@),
            None => !is_ipv4_text(text@),
        },
{
    let n = text.unicode_len();
    let mut done: [u8; 3] = [0, 0, 0];
    let mut count: usize = 0;
    let mut value: u32 = 0;
    let mut digits: u32 = 0;
    let mut i: usize = 0;
    proof {
        assert(text@.take(0) =~= Seq::<char>::empty());
        assert(done@.take(0) =~= Seq::<u8>::empty());
    }
    while i < n
        invariant
            n == text@.len(),
            0 <= i <= n,
            count <= 3,
            value <= 255,
            digits <= 3,
            scan_from(scan_start(), text@.take(i as int)) == (Scan::Reading {
                done: done@.take(count as int),
                value: value as nat,
                digits: digits as nat,
            }),
        decreases n - i,
    {
        let c = text.get_char(i);
        proof {
            assert(text@.take(i + 1).drop_last() =~= text@.take(i as int));
            assert(text@.take(i + 1).last() == c);
        }
        if '0' <= c && c <= '9' {
            let d = (c as u32) - 48;
            if digits > 0 && value == 0 {
                proof {
                    lemma_failed_prefix_rules_out(text@, i + 1);
                }
                return None;
            }
            if digits >= 3 || value * 10 + d > 255 {
                proof {
                    lemma_failed_prefix_rules_out(text@, i + 1);
                }
                return None;
            }
            value = value * 10 + d;
            digits = digits + 1;
        } else if c == '.' {
            if digits == 0 || count >= 3 {
                proof {
                    lemma_failed_prefix_rules_out(text@, i + 1);
                }
                return None;
            }
            let ghost old_done = done@.take(count as int);
            done[count] = value as u8;
            proof {
                assert(done@.take(count + 1) =~= old_done.push(value as u8));
            }
            count = count + 1;
            value = 0;
            digits = 0;
        } else {
            proof {
                lemma_failed_prefix_rules_out(text@, i + 1);
            }
            return None;
        }
        i = i + 1;
    }
    proof {
        assert(text@.take(n as int) =~= text@);
        lemma_scan_result_text(text@);
        lemma_scan_complete_rules_out(text@);
    }
    if count == 3 && digits > 0 {
        let a: [u8; 4] = [done[0], done[1], done[2], value as u8];
        proof {
            assert(a@ =~= done@.take(3).push(value as u8));
        }
        Some(a)
    } else {
        None
    }
}

/// When the reading of a prefix of `s` has failed, `s` is the text of no address.
proof fn lemma_failed_prefix_rules_out(s: Seq<char>, i: int)
    requires
        0 <= i <= s.len(),
        scan_from(scan_start(), s.take(i)) == Scan::Failed,
    ensures
        !is_ipv4_text(s),
{
    lemma_scan_failed(s.skip(i));
    lemma_scan_concat(scan_start(), s.take(i), s.skip(i));
    assert(s.take(i) + s.skip(i) =~= s);
    lemma_scan_complete_rules_out(s);
}

/// When the reading of `s` gives no address, `s` is the text of none.
proof fn lemma_scan_complete_rules_out(s: Seq<char>)
    ensures
        scan_result(scan_from(scan_start(), s)) is None ==> !is_ipv4_text(s),
{
    if scan_result(scan_from(scan_start(), s)) is None {
        assert forall|a: [u8; 4]| s != #[trigger] ipv4_text(a@) by {
            if s == ipv4_text(a@) {
                lemma_scan_complete(a@);
            }
        }
    }
}

} // verus!
