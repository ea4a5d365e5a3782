use vstd::prelude::*;

verus! {

/// Appends one character to a string (std's `String::push`).
#[verifier::external_body]
pub(crate) fn push_char(s: &mut String, c: char)
    ensures
        final(s)@ == old(s)@.push(c),
{
    s.push(c);
}

/// The characters of `s`, in order.
pub fn chars_of(s: &str) -> (v: Vec<char>)
    ensures
        v@ == s@,
{
    let mut v: Vec<char> = Vec::new();
    for c in it: s.chars()
        invariant
            v@ == it.seq().take(it.index() as int),
    {
        v.push(c);
    }
    v
}

} // verus!

verus! {

pub open spec fn is_ascii_digit(c: char) -> bool {
    '0' <= c && c <= '9'
}

/// The number that a string of decimal digits spells.
pub open spec fn digits_value(d: Seq<char>) -> nat
    decreases d.len(),
{
    if d.len() == 0 {
        0
    } else {
        digits_value(d.drop_last()) * 10 + ((d.last() as int - '0' as int) as nat)
    }
}

pub open spec fn all_digits(d: Seq<char>) -> bool {
    forall|i: int| 0 <= i < d.len() ==> is_ascii_digit(#[trigger] d[i])
}

/// The digits that std's unsigned parsing reads: one leading `+` is skipped.
pub open spec fn unsigned_digits(s: Seq<char>) -> Seq<char> {
    if s.len() > 0 && s[0] == '+' {
        s.drop_first()
    } else {
        s
    }
}

/// What std's `u64::from_str` gives for `s`: an optional `+`, then at least
/// one ASCII digit and nothing else, and a value that fits in 64 bits.
pub open spec fn parsed_u64(s: Seq<char>) -> Option<u64> {
    let d = unsigned_digits(s);
    if d.len() > 0 && all_digits(d) && digits_value(d) <= u64::MAX {
        Some(digits_value(d) as u64)
    } else {
        None
    }
}

proof fn lemma_digits_value_grows(d: Seq<char>, k: int)
    requires
        0 <= k <= d.len(),
        all_digits(d),
    ensures
        digits_value(d.take(k)) <= digits_value(d),
    decreases d.len() - k,
{
    if k < d.len() {
        lemma_digits_value_grows(d, k + 1);
        assert(d.take(k + 1).drop_last() =~= d.take(k));
        assert(is_ascii_digit(d[k]));
    } else {
        assert(d.take(k) =~= d);
    }
}

/// Parses `s` as std's `u64::from_str` does.
pub fn parse_u64(s: &str) -> (r: Option<u64>)
    ensures
        r == parsed_u64(s@),
{
    let cs = chars_of(s);
    let n = cs.len();
    let start: usize = if n > 0 && cs[0] == '+' { 1 } else { 0 };
    let ghost d = unsigned_digits(s@);
    assert(d =~= cs@.skip(start as int));
    if start == n {
        return None;
    }
    let mut value: u64 = 0;
    let mut i: usize = start;
    while i < n
        invariant
            start <= i <= n,
            n == cs@.len(),
            d == cs@.skip(start as int),
            d == unsigned_digits(s@),
            all_digits(d.take(i - start)),
            value as nat == digits_value(d.take(i - start)),
        decreases n - i,
    {
        let c = cs[i];
        if !('0' <= c && c <= '9') {
            assert(d[i - start] == cs@[i as int]);
            assert(!is_ascii_digit(d[i - start]));
            assert(!all_digits(d));
            return None;
        }
        let digit = (c as u32 - '0' as u32) as u64;
        proof {
            assert(d.take(i - start + 1).drop_last() =~= d.take(i - start));
            assert(d.take(i - start + 1).last() == c);
        }
        if value > (u64::MAX - digit) / 10 {
            proof {
                assert(value * 10 + digit > u64::MAX) by (nonlinear_arith)
                    requires
                        value > (u64::MAX - digit) / 10,
                        digit <= 9,
                ;
                if all_digits(d) {
                    lemma_digits_value_grows(d, i - start + 1);
                    assert(d.take(i - start + 1).last() as int - '0' as int == digit);
                    assert(digits_value(d.take(i - start + 1)) == value * 10 + digit);
                }
            }
            return None;
        }
        value = value * 10 + digit;
        i = i + 1;
        assert(all_digits(d.take(i - start))) by {
            assert forall|j: int| 0 <= j < i - start implies is_ascii_digit(
                #[trigger] d.take(i - start)[j],
            ) by {
                if j < i - start - 1 {
                    assert(d.take(i - start)[j] == d.take(i - start - 1)[j]);
                }
            }
        }
    }
    assert(d.take(n - start) =~= d);
    Some(value)
}

/// `s` with every occurrence of `pat` removed, scanning from the left as
/// std's `str::replace` does with an empty replacement.
pub open spec fn remove_all(s: Seq<char>, pat: Seq<char>) -> Seq<char>
    recommends
        pat.len() > 0,
    decreases s.len(),
{
    if s.len() == 0 || pat.len() == 0 {
        s
    } else if s.len() >= pat.len() && s.take(pat.len() as int) == pat {
        remove_all(s.skip(pat.len() as int), pat)
    } else {
        seq![s[0]] + remove_all(s.drop_first(), pat)
    }
}

/// The prefix `\\?\` that marks a Windows verbatim path.
pub open spec fn verbatim_marker() -> Seq<char> {
    seq!['\\', '\\', '?', '\\']
}

/// The path with every verbatim marker `\\?\` taken out.
pub fn strip_verbatim_marker(path: &str) -> (r: String)
    ensures
        r@ == remove_all(path@, verbatim_marker()),
{
    let cs = chars_of(path);
    let ghost s = path@;
    let ghost pat = verbatim_marker();
    let n = cs.len();
    let mut out = String::new();
    let mut i: usize = 0;
    assert(s.skip(0) =~= s);
    assert(out@ + remove_all(s, pat) =~= remove_all(s, pat));
    while i < n
        invariant
            i <= n,
            n == cs@.len(),
            cs@ == s,
            pat == verbatim_marker(),
            out@ + remove_all(s.skip(i as int), pat) == remove_all(s, pat),
        decreases n - i,
    {
        let ghost t = s.skip(i as int);
        if n - i >= 4 && cs[i] == '\\' && cs[i + 1] == '\\' && cs[i + 2] == '?' && cs[i + 3] == '\\' {
            proof {
                assert(t.take(4) =~= pat);
                assert(t.skip(4) =~= s.skip(i as int + 4));
            }
            i = i + 4;
        } else {
            proof {
                if t.len() >= 4 {
                    if t.take(4) == pat {
                        assert(t.take(4)[0] == cs@[i as int]);
                        assert(t.take(4)[1] == cs@[i + 1]);
                        assert(t.take(4)[2] == cs@[i + 2]);
                        assert(t.take(4)[3] == cs@[i + 3]);
                    }
                }
                assert(t.drop_first() =~= s.skip(i as int + 1));
                assert(t[0] == cs@[i as int]);
            }
            let ghost before = out@;
            push_char(&mut out, cs[i]);
            proof {
                assert(out@ + remove_all(s.skip(i as int + 1), pat) =~= before + remove_all(t, pat));
            }
            i = i + 1;
        }
    }
    assert(s.skip(n as int) =~= Seq::<char>::empty());
    assert(out@ + remove_all(s.skip(n as int), pat) =~= out@);
    out
}

} // verus!
