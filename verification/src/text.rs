//! Small verified string helpers shared by the view builders.
use vstd::prelude::*;

verus! {

/// Compares two string slices character by character.
pub fn str_equal(a: &str, b: &str) -> (r: bool)
    ensures
        r == (a@ == b@),
{
    let n = a.unicode_len();
    if n != b.unicode_len() {
        return false;
    }
    let mut i: usize = 0;
    while i < n
        invariant
            n == a@.len(),
            n == b@.len(),
            i <= n,
            forall|j: int| 0 <= j < i ==> a@[j] == b@[j],
        decreases n - i,
    {
        if a.get_char(i) != b.get_char(i) {
            return false;
        }
        i = i + 1;
    }
    assert(a@ =~= b@);
    true
}

/// The text `a` followed by `b`.
pub fn cat2(a: &str, b: &str) -> (r: String)
    ensures
        r@ == a@ + b@,
{
    String::from_str(a).concat(b)
}

/// The text `a`, then `b`, then `c`.
pub fn cat3(a: &str, b: &str, c: &str) -> (r: String)
    ensures
        r@ == a@ + b@ + c@,
{
    String::from_str(a).concat(b).concat(c)
}

/// The text `a`, then `b`, then `c`, then `d`, then `e`.
pub fn cat5(a: &str, b: &str, c: &str, d: &str, e: &str) -> (r: String)
    ensures
        r@ == a@ + b@ + c@ + d@ + e@,
{
    String::from_str(a).concat(b).concat(c).concat(d).concat(e)
}

/// Mapping a prefix one element longer adds the image of that element.
pub proof fn lemma_map_take_push<A, B>(s: Seq<A>, f: spec_fn(A) -> B, i: int)
    requires
        0 <= i < s.len(),
    ensures
        s.take(i + 1).map_values(f) =~= s.take(i).map_values(f).push(f(s[i])),
{
    assert(s.take(i + 1) =~= s.take(i).push(s[i]));
}

/// The decimal digit of a number below ten.
pub open spec fn digit_char(d: nat) -> char {
    if d == 0 { '0' } else if d == 1 { '1' } else if d == 2 { '2' } else if d == 3 { '3' } else if d == 4 {
        '4'
    } else if d == 5 { '5' } else if d == 6 { '6' } else if d == 7 { '7' } else if d == 8 { '8' } else { '9' }
}

/// The decimal digits of a natural number, without leading zeros.
pub open spec fn digits_text(n: nat) -> Seq<char>
    decreases n,
{
    if n < 10 {
        seq![digit_char(n)]
    } else {
        digits_text(n / 10) + seq![digit_char(n % 10)]
    }
}

/// The decimal text of an integer, with a leading minus sign when it is negative.
pub open spec fn decimal_text(v: int) -> Seq<char> {
    if v < 0 {
        seq!['-'] + digits_text((-v) as nat)
    } else {
        digits_text(v as nat)
    }
}

fn digit_str(d: u64) -> (r: &'static str)
    requires
        d < 10,
    ensures
        r@ == seq![digit_char(d as nat)],
{
    let r = if d == 0 { "0" } else if d == 1 { "1" } else if d == 2 { "2" } else if d == 3 { "3" } else if d == 4 {
        "4"
    } else if d == 5 { "5" } else if d == 6 { "6" } else if d == 7 { "7" } else if d == 8 { "8" } else { "9" };
    proof {
        reveal_strlit("0");
        reveal_strlit("1");
        reveal_strlit("2");
        reveal_strlit("3");
        reveal_strlit("4");
        reveal_strlit("5");
        reveal_strlit("6");
        reveal_strlit("7");
        reveal_strlit("8");
        reveal_strlit("9");
        assert(r@ =~= seq![digit_char(d as nat)]);
    }
    r
}

fn digits_string(n: u64) -> (r: String)
    ensures
        r@ == digits_text(n as nat),
    decreases n,
{
    if n < 10 {
        String::from_str(digit_str(n))
    } else {
        digits_string(n / 10).concat(digit_str(n % 10))
    }
}

/// The decimal text of an integer.
pub fn decimal_string(v: i64) -> (r: String)
    ensures
        r@ == decimal_text(v as int),
{
    if v < 0 {
        let magnitude: u64 = if v == i64::MIN {
            9_223_372_036_854_775_808u64
        } else {
            (-v) as u64
        };
        let digits = digits_string(magnitude);
        proof {
            reveal_strlit("-");
            assert("-"@ =~= seq!['-']);
        }
        String::from_str("-").concat(digits.as_str())
    } else {
        digits_string(v as u64)
    }
}

/// The texts of `list` joined with `sep` between neighbours.
pub open spec fn seq_join(list: Seq<Seq<char>>, sep: Seq<char>) -> Seq<char>
    decreases list.len(),
{
    if list.len() == 0 {
        Seq::empty()
    } else if list.len() == 1 {
        list[0]
    } else {
        seq_join(list.drop_last(), sep) + sep + list.last()
    }
}

/// The total length of the texts of a list.
pub open spec fn total_len(list: Seq<Seq<char>>) -> int
    decreases list.len(),
{
    if list.len() == 0 {
        0
    } else {
        total_len(list.drop_last()) + list.last().len()
    }
}

/// Where the `i`-th text of a list starts in the list joined with `sep`.
pub open spec fn join_offset(list: Seq<Seq<char>>, sep: Seq<char>, i: int) -> int {
    total_len(list.take(i)) + i * sep.len()
}

/// Joining nothing gives the empty text, joining one text gives that text, and
/// joining one more text appends the separator and that text.
pub proof fn lemma_seq_join_steps(list: Seq<Seq<char>>, sep: Seq<char>, x: Seq<char>)
    ensures
        seq_join(Seq::empty(), sep) == Seq::<char>::empty(),
        seq_join(seq![x], sep) == x,
        list.len() > 0 ==> seq_join(list.push(x), sep) == seq_join(list, sep) + sep + x,
{
    assert(list.push(x).drop_last() =~= list);
}

/// A longer prefix of a list never has fewer characters.
pub proof fn lemma_total_len_prefix(list: Seq<Seq<char>>, j: int, k: int)
    requires
        0 <= j <= k <= list.len(),
    ensures
        0 <= total_len(list.take(j)) <= total_len(list.take(k)),
    decreases k,
{
    if j == k {
        lemma_total_len_nonneg(list.take(j));
    } else {
        lemma_total_len_prefix(list, j, k - 1);
        assert(list.take(k).drop_last() =~= list.take(k - 1));
    }
}

/// The total length of texts is never negative.
pub proof fn lemma_total_len_nonneg(list: Seq<Seq<char>>)
    ensures
        total_len(list) >= 0,
    decreases list.len(),
{
    if list.len() > 0 {
        lemma_total_len_nonneg(list.drop_last());
    }
}

/// A joined list is as long as its texts together plus one separator between each
/// two neighbours, and it holds each text, in order, at its offset.
pub proof fn lemma_seq_join_layout(list: Seq<Seq<char>>, sep: Seq<char>)
    requires
        list.len() > 0,
    ensures
        seq_join(list, sep).len() == total_len(list) + (list.len() - 1) * sep.len(),
        forall|i: int|
            0 <= i < list.len() ==> 0 <= #[trigger] join_offset(list, sep, i) && join_offset(list, sep, i)
                + list[i].len() <= seq_join(list, sep).len(),
        forall|i: int|
            0 <= i < list.len() ==> #[trigger] seq_join(list, sep).subrange(
                join_offset(list, sep, i),
                join_offset(list, sep, i) + list[i].len(),
            ) == list[i],
        forall|i: int|
            0 <= i < list.len() - 1 ==> #[trigger] seq_join(list, sep).subrange(
                join_offset(list, sep, i) + list[i].len(),
                join_offset(list, sep, i + 1),
            ) == sep,
    decreases list.len(),
{
    let n = list.len() as int;
    let j = seq_join(list, sep);
    if n == 1 {
        assert(list.take(0) =~= Seq::<Seq<char>>::empty());
        assert(list.drop_last() =~= Seq::<Seq<char>>::empty());
        assert(j.subrange(0, list[0].len() as int) =~= list[0]);
        assert(total_len(list.drop_last()) == 0);
        assert(list.last() == list[0]);
        assert(total_len(list) == list[0].len());
        assert((list.len() - 1) * sep.len() == 0);
        assert(join_offset(list, sep, 0) == 0);
    } else {
        let d = list.drop_last();
        let jd = seq_join(d, sep);
        lemma_seq_join_layout(d, sep);
        assert(j == jd + sep + list.last());
        assert(total_len(list) == total_len(d) + list.last().len());
        assert(d.len() == n - 1);
        assert((n - 1) * sep.len() == (n - 2) * sep.len() + sep.len()) by (nonlinear_arith);
        assert forall|i: int| 0 <= i < n implies 0 <= #[trigger] join_offset(list, sep, i) && join_offset(list, sep, i)
            + list[i].len() <= j.len() by {
            lemma_total_len_nonneg(list.take(i));
            assert(0 <= i * sep.len()) by (nonlinear_arith)
                requires
                    0 <= i,
                    sep.len() >= 0,
            ;
            if i < n - 1 {
                assert(list.take(i) =~= d.take(i));
                assert(d[i] == list[i]);
                assert(d.take(i + 1).drop_last() =~= d.take(i));
                assert(total_len(d.take(i + 1)) == total_len(d.take(i)) + d[i].len());
                lemma_total_len_prefix(d, i + 1, n - 1);
                assert(d.take(n - 1) =~= d);
                assert(i * sep.len() <= (n - 2) * sep.len()) by (nonlinear_arith)
                    requires
                        i <= n - 2,
                        sep.len() >= 0,
                ;
            } else {
                assert(list.take(i) =~= d);
                assert(i * sep.len() == (n - 2) * sep.len() + sep.len()) by (nonlinear_arith)
                    requires
                        i == n - 1,
                ;
            }
        }
        assert forall|i: int| 0 <= i < n implies #[trigger] j.subrange(
            join_offset(list, sep, i),
            join_offset(list, sep, i) + list[i].len(),
        ) == list[i] by {
            assert(list.take(i) =~= d.take(i)) by {
                if i < n - 1 {
                    assert(list.take(i) =~= d.take(i));
                } else {
                    assert(list.take(i) =~= d);
                    assert(d.take(i) =~= d);
                }
            }
            if i < n - 1 {
                assert(d[i] == list[i]);
                lemma_total_len_prefix(d, i + 1, n - 1);
                assert(d.take(i + 1).drop_last() =~= d.take(i));
                assert(d.take(n - 1) =~= d);
                assert(i * sep.len() <= (n - 2) * sep.len()) by (nonlinear_arith)
                    requires
                        i <= n - 2,
                        sep.len() >= 0,
                ;
                assert(total_len(d.take(i + 1)) == total_len(d.take(i)) + d[i].len());
                lemma_total_len_nonneg(d.take(i));
                assert(0 <= i * sep.len()) by (nonlinear_arith)
                    requires
                        0 <= i,
                        sep.len() >= 0,
                ;
                assert(join_offset(list, sep, i) == join_offset(d, sep, i));
                assert(join_offset(d, sep, i) + d[i].len() <= jd.len());
                assert(j.subrange(join_offset(list, sep, i), join_offset(list, sep, i) + list[i].len())
                    =~= jd.subrange(join_offset(d, sep, i), join_offset(d, sep, i) + d[i].len()));
            } else {
                assert(d.take(i) =~= d);
                assert(i * sep.len() == (n - 2) * sep.len() + sep.len()) by (nonlinear_arith)
                    requires
                        i == n - 1,
                ;
                assert(j.subrange(join_offset(list, sep, i), join_offset(list, sep, i) + list[i].len())
                    =~= list.last());
            }
        }
        assert forall|i: int| 0 <= i < n - 1 implies #[trigger] j.subrange(
            join_offset(list, sep, i) + list[i].len(),
            join_offset(list, sep, i + 1),
        ) == sep by {
            assert(list.take(i) =~= d.take(i));
            assert(d[i] == list[i]);
            assert((i + 1) * sep.len() == i * sep.len() + sep.len()) by (nonlinear_arith);
            if i < n - 2 {
                assert(list.take(i + 1) =~= d.take(i + 1));
                lemma_total_len_prefix(d, i + 2, n - 1);
                assert(d.take(n - 1) =~= d);
                assert(d.take(i + 2).drop_last() =~= d.take(i + 1));
                assert((i + 1) * sep.len() <= (n - 2) * sep.len()) by (nonlinear_arith)
                    requires
                        i + 1 <= n - 2,
                        sep.len() >= 0,
                ;
                assert(total_len(d.take(i + 2)) == total_len(d.take(i + 1)) + d[i + 1].len());
                assert(d.take(i + 1).drop_last() =~= d.take(i));
                assert(total_len(d.take(i + 1)) == total_len(d.take(i)) + d[i].len());
                lemma_total_len_nonneg(d.take(i));
                assert(0 <= i * sep.len()) by (nonlinear_arith)
                    requires
                        0 <= i,
                        sep.len() >= 0,
                ;
                assert(join_offset(list, sep, i) == join_offset(d, sep, i));
                assert(join_offset(list, sep, i + 1) == join_offset(d, sep, i + 1));
                assert(join_offset(d, sep, i + 1) <= jd.len());
                assert(j.subrange(join_offset(list, sep, i) + list[i].len(), join_offset(list, sep, i + 1))
                    =~= jd.subrange(join_offset(d, sep, i) + d[i].len(), join_offset(d, sep, i + 1)));
            } else {
                assert(list.take(i + 1) =~= d);
                assert(d.take(i + 1) =~= d);
                assert(d.take(i + 1).drop_last() =~= d.take(i));
                assert(i * sep.len() == (n - 2) * sep.len()) by (nonlinear_arith)
                    requires
                        i == n - 2,
                ;
                assert(j.subrange(join_offset(list, sep, i) + list[i].len(), join_offset(list, sep, i + 1))
                    =~= sep);
            }
        }
    }
}

/// The texts of a list of strings.
pub open spec fn strings_view(list: Seq<String>) -> Seq<Seq<char>> {
    list.map_values(|s: String| s@)
}

/// Joins the strings of `list` with `sep` between neighbours.
pub fn join_strings(list: &Vec<String>, sep: &str) -> (r: String)
    ensures
        r@ == seq_join(strings_view(list@), sep@),
{
    let mut res = String::new();
    let ghost all = strings_view(list@);
    let n = list.len();
    let mut i: usize = 0;
    while i < n
        invariant
            n == list@.len(),
            all == strings_view(list@),
            i <= n,
            res@ == seq_join(all.take(i as int), sep@),
        decreases n - i,
    {
        assert(all.take((i + 1) as int).drop_last() =~= all.take(i as int));
        assert(all.take((i + 1) as int).last() == list@[i as int]@);
        if i != 0 {
            res.append(sep);
        }
        res.append(list[i].as_str());
        i = i + 1;
    }
    assert(all.take(n as int) =~= all);
    res
}

/// Whether `i` is the first position in `list` that holds `key`.
pub open spec fn is_first_position(list: Seq<Seq<char>>, key: Seq<char>, i: int) -> bool {
    &&& 0 <= i < list.len()
    &&& list[i] == key
    &&& forall|j: int| 0 <= j < i ==> list[j] != key
}

/// The first position in `list` that holds `key`, if any does.
pub open spec fn first_position(list: Seq<Seq<char>>, key: Seq<char>) -> Option<int> {
    if exists|i: int| is_first_position(list, key, i) {
        Some(choose|i: int| is_first_position(list, key, i))
    } else {
        None
    }
}

/// At most one position is the first that holds a key.
pub proof fn lemma_first_position_unique(list: Seq<Seq<char>>, key: Seq<char>, i: int, k: int)
    requires
        is_first_position(list, key, i),
        is_first_position(list, key, k),
    ensures
        i == k,
{
}

/// A key that occurs in a list has a first position.
pub proof fn lemma_first_position_exists(list: Seq<Seq<char>>, key: Seq<char>, i: int)
    requires
        0 <= i < list.len(),
        list[i] == key,
    ensures
        first_position(list, key) is Some,
    decreases i,
{
    if forall|j: int| 0 <= j < i ==> list[j] != key {
        assert(is_first_position(list, key, i));
    } else {
        let j = choose|j: int| 0 <= j < i && list[j] == key;
        lemma_first_position_exists(list, key, j);
    }
}

/// Finds the first position of `key` in `list`.
pub fn position_of(list: &Vec<String>, key: &str) -> (r: Option<usize>)
    ensures
        match first_position(strings_view(list@), key@) {
            Some(i) => r == Some(i as usize),
            None => r is None,
        },
{
    let ghost all = strings_view(list@);
    let n = list.len();
    let mut i: usize = 0;
    while i < n
        invariant
            n == list@.len(),
            all == strings_view(list@),
            i <= n,
            forall|j: int| 0 <= j < i ==> all[j] != key@,
        decreases n - i,
    {
        if str_equal(list[i].as_str(), key) {
            proof {
                assert(is_first_position(all, key@, i as int));
                let k = choose|k: int| is_first_position(all, key@, k);
                lemma_first_position_unique(all, key@, i as int, k);
            }
            return Some(i);
        }
        i = i + 1;
    }
    proof {
        if exists|k: int| is_first_position(all, key@, k) {
            let k = choose|k: int| is_first_position(all, key@, k);
            assert(all[k] == key@);
        }
    }
    None
}

/// Whether a character has the Unicode White_Space property, as `char::is_whitespace` decides.
pub open spec fn is_white_space(c: char) -> bool {
    ||| '\t' <= c <= '\r'
    ||| c == ' '
    ||| c == '\u{85}'
    ||| c == '\u{A0}'
    ||| c == '\u{1680}'
    ||| '\u{2000}' <= c <= '\u{200A}'
    ||| c == '\u{2028}'
    ||| c == '\u{2029}'
    ||| c == '\u{202F}'
    ||| c == '\u{205F}'
    ||| c == '\u{3000}'
}

/// Whether a character has the Unicode White_Space property.
pub fn char_is_white_space(c: char) -> (r: bool)
    ensures
        r == is_white_space(c),
{
    ('\t' <= c && c <= '\r') || c == ' ' || c == '\u{85}' || c == '\u{A0}' || c == '\u{1680}' || ('\u{2000}'
        <= c && c <= '\u{200A}') || c == '\u{2028}' || c == '\u{2029}' || c == '\u{202F}' || c == '\u{205F}'
        || c == '\u{3000}'
}

/// The text without its leading white space.
pub open spec fn trim_start(s: Seq<char>) -> Seq<char>
    decreases s.len(),
{
    if s.len() > 0 && is_white_space(s[0]) {
        trim_start(s.drop_first())
    } else {
        s
    }
}

/// The text without its trailing white space.
pub open spec fn trim_end(s: Seq<char>) -> Seq<char>
    decreases s.len(),
{
    if s.len() > 0 && is_white_space(s.last()) {
        trim_end(s.drop_last())
    } else {
        s
    }
}

/// The text without its leading and trailing white space, as `str::trim` gives it.
pub open spec fn trimmed(s: Seq<char>) -> Seq<char> {
    trim_end(trim_start(s))
}

/// Leading white space in front of a text is dropped by `trim_start`.
pub proof fn lemma_trim_start_skips_white_space(p: Seq<char>, t: Seq<char>)
    requires
        forall|i: int| 0 <= i < p.len() ==> is_white_space(#[trigger] p[i]),
    ensures
        trim_start(p + t) == trim_start(t),
    decreases p.len(),
{
    if p.len() > 0 {
        assert((p + t).drop_first() =~= p.drop_first() + t);
        lemma_trim_start_skips_white_space(p.drop_first(), t);
    } else {
        assert(p + t =~= t);
    }
}

/// Trailing white space after a text is dropped by `trim_end`.
pub proof fn lemma_trim_end_skips_white_space(t: Seq<char>, q: Seq<char>)
    requires
        forall|i: int| 0 <= i < q.len() ==> is_white_space(#[trigger] q[i]),
    ensures
        trim_end(t + q) == trim_end(t),
    decreases q.len(),
{
    if q.len() > 0 {
        assert((t + q).drop_last() =~= t + q.drop_last());
        lemma_trim_end_skips_white_space(t, q.drop_last());
    } else {
        assert(t + q =~= t);
    }
}

/// Trimming a text that starts and ends with other characters than white space,
/// surrounded by white space, gives that text.
pub proof fn lemma_trimmed_surrounded(p: Seq<char>, t: Seq<char>, q: Seq<char>)
    requires
        t.len() > 0,
        !is_white_space(t[0]),
        !is_white_space(t.last()),
        forall|i: int| 0 <= i < p.len() ==> is_white_space(#[trigger] p[i]),
        forall|i: int| 0 <= i < q.len() ==> is_white_space(#[trigger] q[i]),
    ensures
        trimmed(p + t + q) == t,
{
    assert(p + t + q =~= p + (t + q));
    lemma_trim_start_skips_white_space(p, t + q);
    assert((t + q)[0] == t[0]);
    lemma_trim_end_skips_white_space(t, q);
}

/// `trim_start` drops exactly the leading run of white space.
pub proof fn lemma_trim_start_index(s: Seq<char>) -> (a: int)
    ensures
        0 <= a <= s.len(),
        trim_start(s) == s.subrange(a, s.len() as int),
        forall|i: int| 0 <= i < a ==> is_white_space(#[trigger] s[i]),
        a < s.len() ==> !is_white_space(s[a]),
    decreases s.len(),
{
    if s.len() > 0 && is_white_space(s[0]) {
        let a1 = lemma_trim_start_index(s.drop_first());
        assert(s.drop_first().subrange(a1, s.drop_first().len() as int) =~= s.subrange(a1 + 1, s.len() as int));
        assert forall|i: int| 0 <= i < a1 + 1 implies is_white_space(#[trigger] s[i]) by {
            if i > 0 {
                assert(s[i] == s.drop_first()[i - 1]);
            }
        }
        a1 + 1
    } else {
        assert(s.subrange(0, s.len() as int) =~= s);
        0
    }
}

/// `trim_end` drops exactly the trailing run of white space.
pub proof fn lemma_trim_end_index(s: Seq<char>) -> (b: int)
    ensures
        0 <= b <= s.len(),
        trim_end(s) == s.subrange(0, b),
        forall|i: int| b <= i < s.len() ==> is_white_space(#[trigger] s[i]),
        b > 0 ==> !is_white_space(s[b - 1]),
    decreases s.len(),
{
    if s.len() > 0 && is_white_space(s.last()) {
        let b1 = lemma_trim_end_index(s.drop_last());
        assert(s.drop_last().subrange(0, b1) =~= s.subrange(0, b1));
        assert forall|i: int| b1 <= i < s.len() implies is_white_space(#[trigger] s[i]) by {
            if i < s.len() - 1 {
                assert(s[i] == s.drop_last()[i]);
            }
        }
        b1
    } else {
        assert(s.subrange(0, s.len() as int) =~= s);
        s.len() as int
    }
}

/// Trimming keeps one contiguous part of the text: everything dropped before and
/// after it is white space, and the part kept starts and ends with other characters
/// (or is empty, when the text is all white space).
pub proof fn lemma_trimmed_shape(s: Seq<char>)
    ensures
        exists|a: int, b: int|
            0 <= a <= b <= s.len() && trimmed(s) == s.subrange(a, b) && (forall|i: int|
                0 <= i < a ==> is_white_space(#[trigger] s[i])) && (forall|i: int|
                b <= i < s.len() ==> is_white_space(#[trigger] s[i])) && (a < b ==> !is_white_space(s[a])
                && !is_white_space(s[b - 1])) && (a == b ==> forall|i: int|
                0 <= i < s.len() ==> is_white_space(#[trigger] s[i])),
{
    let a = lemma_trim_start_index(s);
    let t = s.subrange(a, s.len() as int);
    let b0 = lemma_trim_end_index(t);
    let b = a + b0;
    assert(t.subrange(0, b0) =~= s.subrange(a, b));
    assert forall|i: int| b <= i < s.len() implies is_white_space(#[trigger] s[i]) by {
        assert(s[i] == t[i - a]);
    }
    if a < b {
        assert(t[0] == s[a]);
        assert(t[b0 - 1] == s[b - 1]);
    }
    if a == b {
        assert forall|i: int| 0 <= i < s.len() implies is_white_space(#[trigger] s[i]) by {
            if i >= a {
                assert(s[i] == t[i - a]);
            }
        }
    }
}

/// Removes leading and trailing white space.
pub fn trim_white_space(s: &str) -> (r: &str)
    ensures
        r@ == trimmed(s@),
{
    let n = s.unicode_len();
    let mut i: usize = 0;
    assert(s@.subrange(0, n as int) =~= s@);
    while i < n && char_is_white_space(s.get_char(i))
        invariant
            n == s@.len(),
            i <= n,
            trim_start(s@) == trim_start(s@.subrange(i as int, n as int)),
        decreases n - i,
    {
        assert(s@.subrange(i as int, n as int).drop_first() =~= s@.subrange(i + 1, n as int));
        i = i + 1;
    }
    assert(trim_start(s@) == s@.subrange(i as int, n as int));
    let mut j: usize = n;
    while j > i && char_is_white_space(s.get_char(j - 1))
        invariant
            n == s@.len(),
            i <= j <= n,
            trimmed(s@) == trim_end(s@.subrange(i as int, j as int)),
        decreases j - i,
    {
        assert(s@.subrange(i as int, j as int).drop_last() =~= s@.subrange(i as int, j - 1));
        j = j - 1;
    }
    s.substring_char(i, j)
}

} // verus!
