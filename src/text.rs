//! Characters, words and owned text.
use vstd::prelude::*;
use vstd::string::*;

verus! {

/// The characters that `char::is_whitespace` accepts (Unicode `White_Space`).
pub open spec fn is_space(c: char) -> bool {
    let u = c as u32;
    ||| 0x09 <= u <= 0x0d
    ||| u == 0x20
    ||| u == 0x85
    ||| u == 0xa0
    ||| u == 0x1680
    ||| 0x2000 <= u <= 0x200a
    ||| u == 0x2028
    ||| u == 0x2029
    ||| u == 0x202f
    ||| u == 0x205f
    ||| u == 0x3000
}

pub fn is_space_char(c: char) -> (r: bool)
    ensures
        r == is_space(c),
{
    let u = c as u32;
    (0x09 <= u && u <= 0x0d) || u == 0x20 || u == 0x85 || u == 0xa0 || u == 0x1680 || (0x2000
        <= u && u <= 0x200a) || u == 0x2028 || u == 0x2029 || u == 0x202f || u == 0x205f || u
        == 0x3000
}

/// Length of the run of non-space characters at the start of `s`.
pub open spec fn word_len(s: Seq<char>) -> nat
    decreases s.len(),
{
    if s.len() == 0 || is_space(s[0]) {
        0
    } else {
        1 + word_len(s.skip(1))
    }
}

pub proof fn lemma_word_len(s: Seq<char>)
    ensures
        word_len(s) <= s.len(),
        s.len() > 0 && !is_space(s[0]) ==> word_len(s) >= 1,
    decreases s.len(),
{
    if s.len() > 0 && !is_space(s[0]) {
        lemma_word_len(s.skip(1));
    }
}

/// The words of `s`: its maximal runs of non-space characters, in order.
pub open spec fn words(s: Seq<char>) -> Seq<Seq<char>>
    decreases s.len(),
{
    if s.len() == 0 {
        seq![]
    } else if is_space(s[0]) {
        words(s.skip(1))
    } else {
        proof {
            lemma_word_len(s);
        }
        seq![s.take(word_len(s) as int)] + words(s.skip(word_len(s) as int))
    }
}

pub open spec fn text_of(o: Option<String>) -> Option<Seq<char>> {
    match o {
        Some(s) => Some(s@),
        None => None,
    }
}

/// End of the word that starts at `i` in `t`.
pub fn word_end(t: &Vec<char>, i: usize) -> (e: usize)
    requires
        i < t.len(),
        !is_space(t@[i as int]),
    ensures
        i < e <= t.len(),
        e - i == word_len(t@.skip(i as int)),
        e < t.len() ==> is_space(t@[e as int]),
{
    let mut e = i + 1;
    proof {
        assert(t@.skip(i as int).skip(1) =~= t@.skip(i + 1));
    }
    while e < t.len() && !is_space_char(t[e])
        invariant
            i < e <= t.len(),
            word_len(t@.skip(i as int)) == (e - i) + word_len(t@.skip(e as int)),
        decreases t.len() - e,
    {
        assert(t@.skip(e as int).skip(1) =~= t@.skip(e + 1));
        assert(t@.skip(e as int)[0] == t@[e as int]);
        e = e + 1;
    }
    proof {
        if e < t.len() {
            assert(t@.skip(e as int)[0] == t@[e as int]);
        } else {
            assert(t@.skip(e as int).len() == 0);
        }
    }
    e
}

/// The characters of `s`, one by one.
pub fn chars_of(s: &str) -> (r: Vec<char>)
    ensures
        r@ == s@,
{
    let n = s.unicode_len();
    let mut r: Vec<char> = Vec::new();
    let mut i: usize = 0;
    while i < n
        invariant
            n == s@.len(),
            i <= n,
            r@ == s@.take(i as int),
        decreases n - i,
    {
        r.push(s.get_char(i));
        i = i + 1;
        assert(r@ =~= s@.take(i as int));
    }
    assert(r@ =~= s@);
    r
}

/// An owned copy of `s`.
pub fn owned(s: &str) -> (r: String)
    ensures
        r@ == s@,
{
    String::from_str(s)
}

/// An owned copy of an optional text.
pub fn copy_text(o: &Option<String>) -> (r: Option<String>)
    ensures
        r == *o,
{
    match o {
        Some(s) => Some(s.clone()),
        None => None,
    }
}

/// `prefix` followed by `rest`.
pub fn joined(prefix: &str, rest: &str) -> (r: String)
    ensures
        r@ == prefix@ + rest@,
{
    let mut r = String::from_str(prefix);
    r.append(rest);
    r
}

/// Whether `a` and `b` hold the same characters.
pub fn str_eq(a: &str, b: &str) -> (r: bool)
    ensures
        r == (a@ == b@),
{
    let ac = chars_of(a);
    let bc = chars_of(b);
    if ac.len() != bc.len() {
        return false;
    }
    let mut i: usize = 0;
    while i < ac.len()
        invariant
            ac@ == a@,
            bc@ == b@,
            ac.len() == bc.len(),
            i <= ac.len(),
            forall|j: int| 0 <= j < i ==> ac@[j] == bc@[j],
        decreases ac.len() - i,
    {
        if ac[i] != bc[i] {
            return false;
        }
        i = i + 1;
    }
    assert(ac@ =~= bc@);
    true
}

pub open spec fn occurs_at(s: Seq<char>, k: Seq<char>, i: int) -> bool {
    0 <= i && i + k.len() <= s.len() && s.subrange(i, i + k.len()) == k
}

/// Index of the first occurrence of `k` in `s`.
pub open spec fn find_text(s: Seq<char>, k: Seq<char>) -> Option<int> {
    if exists|i: int| occurs_at(s, k, i) {
        Some(
            choose|i: int|
                occurs_at(s, k, i) && forall|j: int| 0 <= j < i ==> !occurs_at(s, k, j),
        )
    } else {
        None
    }
}

fn occurs_at_exec(t: &Vec<char>, k: &Vec<char>, i: usize) -> (r: bool)
    requires
        i + k.len() <= t.len(),
    ensures
        r == occurs_at(t@, k@, i as int),
{
    let mut j: usize = 0;
    while j < k.len()
        invariant
            i + k.len() <= t.len(),
            j <= k.len(),
            forall|m: int| 0 <= m < j ==> t@[i + m] == k@[m],
        decreases k.len() - j,
    {
        if t[i + j] != k[j] {
            assert(t@.subrange(i as int, i + k.len())[j as int] == t@[i + j]);
            return false;
        }
        j = j + 1;
    }
    assert(t@.subrange(i as int, i + k.len()) =~= k@);
    true
}

/// Index of the first occurrence of `key` in `t`.
pub fn find_key(t: &Vec<char>, key: &str) -> (r: Option<usize>)
    ensures
        r matches Some(i) ==> find_text(t@, key@) == Some(i as int) && i + key@.len() <= t@.len(),
        r is None ==> find_text(t@, key@) is None,
{
    let k = chars_of(key);
    if k.len() > t.len() {
        return None;
    }
    if k.len() == 0 {
        assert(occurs_at(t@, k@, 0)) by {
            assert(t@.subrange(0, 0) =~= k@);
        }
        let ghost c = choose|m: int|
            occurs_at(t@, k@, m) && forall|j: int| 0 <= j < m ==> !occurs_at(t@, k@, j);
        assert(c == 0) by {
            if c > 0 {
                assert(!occurs_at(t@, k@, 0));
            }
        }
        return Some(0);
    }
    let last = t.len() - k.len();
    let mut i: usize = 0;
    while i <= last
        invariant
            k@ == key@,
            k.len() >= 1,
            last == t.len() - k.len(),
            i <= last + 1,
            forall|j: int| 0 <= j < i ==> !occurs_at(t@, k@, j),
        decreases last + 1 - i,
    {
        if occurs_at_exec(t, &k, i) {
            proof {
                assert(occurs_at(t@, k@, i as int));
                let c = choose|m: int|
                    occurs_at(t@, k@, m) && forall|j: int| 0 <= j < m ==> !occurs_at(t@, k@, j);
                assert(c == i) by {
                    if c > i {
                        assert(!occurs_at(t@, k@, i as int));
                    }
                }
            }
            return Some(i);
        }
        i = i + 1;
    }
    None
}

} // verus!
