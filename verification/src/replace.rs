use vstd::prelude::*;
use vstd::string::StrSliceExecFns;
use vstd::string::StringExecFns;

verus! {

/// The text `s` with every non-overlapping occurrence of `from` replaced by
/// `to`, scanning left to right; `s` itself when `from` is empty.
pub open spec fn replace_seq(s: Seq<char>, from: Seq<char>, to: Seq<char>) -> Seq<char>
    decreases s.len(),
{
    if from.len() == 0 || s.len() < from.len() {
        s
    } else if s.subrange(0, from.len() as int) == from {
        to + replace_seq(s.subrange(from.len() as int, s.len() as int), from, to)
    } else {
        seq![s[0]] + replace_seq(s.subrange(1, s.len() as int), from, to)
    }
}

/// When the text does not begin with the pattern, replacement keeps the first
/// character and continues in the rest.
proof fn lemma_replace_shift(s: Seq<char>, from: Seq<char>, to: Seq<char>)
    requires
        s.len() > 0,
        from.len() > 0,
        s.len() < from.len() || s.subrange(0, from.len() as int) != from,
    ensures
        replace_seq(s, from, to) == seq![s[0]] + replace_seq(
            s.subrange(1, s.len() as int),
            from,
            to,
        ),
{
    if s.len() < from.len() {
        let tail = s.subrange(1, s.len() as int);
        assert(tail.len() < from.len());
        assert(replace_seq(s, from, to) == s);
        assert(replace_seq(tail, from, to) == tail);
        assert(s =~= seq![s[0]] + tail);
    }
}

/// Whether the characters of `pat` stand in `s` at position `i`.
fn matches_at(s: &Vec<char>, i: usize, pat: &Vec<char>) -> (r: bool)
    requires
        i + pat@.len() <= s@.len(),
    ensures
        r <==> s@.subrange(i as int, i as int + pat@.len() as int) == pat@,
{
    let n = pat.len();
    let sn = s.len();
    let mut j: usize = 0;
    while j < n
        invariant
            n == pat@.len(),
            sn == s@.len(),
            i + n <= sn,
            j <= n,
            forall|k: int| 0 <= k < j ==> s@[i + k] == pat@[k],
        decreases n - j,
    {
        if s[i + j] != pat[j] {
            assert(s@.subrange(i as int, i as int + pat@.len() as int)[j as int] != pat@[j as int]);
            return false;
        }
        j += 1;
    }
    assert(s@.subrange(i as int, i as int + pat@.len() as int) =~= pat@);
    true
}

/// The characters of `s`, in order.
fn str_chars(s: &str) -> (r: Vec<char>)
    ensures
        r@ == s@,
{
    let n = s.unicode_len();
    let mut r: Vec<char> = Vec::new();
    let mut i: usize = 0;
    while i < n
        invariant
            n as nat == s@.len(),
            i <= n,
            r@ == s@.subrange(0, i as int),
        decreases n - i,
    {
        let c = s.get_char(i);
        r.push(c);
        proof {
            assert(r@ =~= s@.subrange(0, i as int + 1));
        }
        i += 1;
    }
    proof {
        assert(r@ =~= s@);
    }
    r
}

/// Relies on `String`'s `FromIterator<char>`: collecting characters yields
/// the string of exactly those characters in order.
#[verifier::external_body]
fn chars_to_string(v: &Vec<char>) -> (r: String)
    ensures
        r@ == v@,
{
    v.iter().collect()
}

/// The character vector `s` with every non-overlapping occurrence of `from`
/// replaced by `to`, scanning left to right.
fn replace_chars(s: &Vec<char>, from: &Vec<char>, to: &Vec<char>) -> (r: Vec<char>)
    requires
        from@.len() > 0,
    ensures
        r@ == replace_seq(s@, from@, to@),
{
    let n = s.len();
    let m = from.len();
    let mut out: Vec<char> = Vec::new();
    let mut i: usize = 0;
    proof {
        assert(s@.subrange(0, n as int) =~= s@);
        assert(Seq::<char>::empty() + replace_seq(s@, from@, to@) =~= replace_seq(s@, from@, to@));
    }
    while i < n
        invariant
            n == s@.len(),
            m == from@.len(),
            m > 0,
            i <= n,
            replace_seq(s@, from@, to@) == out@ + replace_seq(
                s@.subrange(i as int, n as int),
                from@,
                to@,
            ),
        decreases n - i,
    {
        let ghost suf = s@.subrange(i as int, n as int);
        if m <= n - i && matches_at(s, i, from) {
            proof {
                assert(suf.subrange(0, m as int) =~= s@.subrange(i as int, i as int + m as int));
                assert(suf.subrange(m as int, suf.len() as int) =~= s@.subrange(
                    i as int + m as int,
                    n as int,
                ));
                assert(replace_seq(suf, from@, to@) == to@ + replace_seq(
                    s@.subrange(i as int + m as int, n as int),
                    from@,
                    to@,
                ));
            }
            let ghost out0 = out@;
            let tn = to.len();
            let mut k: usize = 0;
            while k < tn
                invariant
                    tn == to@.len(),
                    k <= tn,
                    out@ == out0 + to@.subrange(0, k as int),
                decreases tn - k,
            {
                out.push(to[k]);
                proof {
                    assert(out@ =~= out0 + to@.subrange(0, k as int + 1));
                }
                k += 1;
            }
            proof {
                assert(out@ =~= out0 + to@);
                assert((out0 + to@) + replace_seq(s@.subrange(i as int + m as int, n as int), from@, to@)
                    =~= out0 + (to@ + replace_seq(s@.subrange(i as int + m as int, n as int), from@, to@)));
            }
            i += m;
        } else {
            proof {
                if m <= n - i {
                    assert(suf.subrange(0, m as int) =~= s@.subrange(i as int, i as int + m as int));
                } else {
                    assert(suf.len() < m);
                }
                lemma_replace_shift(suf, from@, to@);
                assert(suf[0] == s@[i as int]);
                assert(suf.subrange(1, suf.len() as int) =~= s@.subrange(i as int + 1, n as int));
            }
            let ghost out0 = out@;
            out.push(s[i]);
            proof {
                assert(out@ =~= out0 + seq![s@[i as int]]);
                assert((out0 + seq![s@[i as int]]) + replace_seq(
                    s@.subrange(i as int + 1, n as int),
                    from@,
                    to@,
                ) =~= out0 + (seq![s@[i as int]] + replace_seq(
                    s@.subrange(i as int + 1, n as int),
                    from@,
                    to@,
                )));
            }
            i += 1;
        }
    }
    proof {
        assert(s@.subrange(n as int, n as int) =~= Seq::<char>::empty());
        assert(replace_seq(s@.subrange(n as int, n as int), from@, to@) =~= Seq::<char>::empty());
        assert(out@ + Seq::<char>::empty() =~= out@);
    }
    out
}

/// The text `s` with every non-overlapping occurrence of `from` replaced by
/// `to`, scanning left to right; `s` unchanged when `from` is empty.
pub fn replace_str(s: &str, from: &str, to: &str) -> (r: String)
    ensures
        r@ == replace_seq(s@, from@, to@),
{
    let fv = str_chars(from);
    if fv.len() == 0 {
        return String::from_str(s);
    }
    let sv = str_chars(s);
    let tv = str_chars(to);
    let rv = replace_chars(&sv, &fv, &tv);
    chars_to_string(&rv)
}

} // verus!
