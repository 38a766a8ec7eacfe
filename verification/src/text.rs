//! Small string utilities on character sequences: decimal numbers, equality,
//! searching and splitting.
use vstd::prelude::*;
use vstd::string::*;

verus! {

/// The character of a decimal digit.
pub open spec fn digit_char(d: nat) -> char {
    if d == 0 {
        '0'
    } else if d == 1 {
        '1'
    } else if d == 2 {
        '2'
    } else if d == 3 {
        '3'
    } else if d == 4 {
        '4'
    } else if d == 5 {
        '5'
    } else if d == 6 {
        '6'
    } else if d == 7 {
        '7'
    } else if d == 8 {
        '8'
    } else {
        '9'
    }
}

/// The decimal digits of `n`, without leading zeros.
pub open spec fn decimal(n: nat) -> Seq<char>
    decreases n,
{
    if n < 10 {
        seq![digit_char(n)]
    } else {
        decimal(n / 10) + seq![digit_char(n % 10)]
    }
}

/// `n` in decimal, with a leading zero when it has a single digit.
pub open spec fn two_digits(n: nat) -> Seq<char> {
    if n < 10 {
        seq!['0', digit_char(n)]
    } else {
        decimal(n)
    }
}

/// A signed number in decimal, with a minus sign when negative.
pub open spec fn signed_decimal(n: int) -> Seq<char> {
    if n < 0 {
        seq!['-'] + decimal((-n) as nat)
    } else {
        decimal(n as nat)
    }
}

/// The one-character string of a digit.
fn digit_str(d: u64) -> (res: &'static str)
    requires
        d < 10,
    ensures
        res@ == seq![digit_char(d as nat)],
{
    proof {
        reveal_strlit("0");
        reveal_strlit("1");
        reveal_strlit("2");
        reveal_strlit("3");
        reveal_strlit("4");
        reveal_strlit("5");
        reveal_strlit("6");
        reveal_strlit("7");
        reveal_strlit("8");
        reveal_strlit("9");
    }
    if d == 0 {
        "0"
    } else if d == 1 {
        "1"
    } else if d == 2 {
        "2"
    } else if d == 3 {
        "3"
    } else if d == 4 {
        "4"
    } else if d == 5 {
        "5"
    } else if d == 6 {
        "6"
    } else if d == 7 {
        "7"
    } else if d == 8 {
        "8"
    } else {
        "9"
    }
}

/// Appends the decimal digits of `n` to `out`.
pub fn push_decimal(out: &mut String, n: u64)
    ensures
        final(out)@ == old(out)@ + decimal(n as nat),
    decreases n,
{
    if n < 10 {
        out.append(digit_str(n));
    } else {
        push_decimal(out, n / 10);
        out.append(digit_str(n % 10));
        proof {
            assert(decimal(n as nat) == decimal((n / 10) as nat) + seq![digit_char((n % 10) as nat)]);
        }
    }
}

/// `n` in decimal.
pub fn u64_to_string(n: u64) -> (res: String)
    ensures
        res@ == decimal(n as nat),
{
    let mut s = String::new();
    push_decimal(&mut s, n);
    proof {
        assert(s@ =~= decimal(n as nat));
    }
    s
}

/// Appends `n` in decimal with at least two digits.
pub fn push_two_digits(out: &mut String, n: u64)
    ensures
        final(out)@ == old(out)@ + two_digits(n as nat),
{
    if n < 10 {
        out.append(digit_str(0));
        out.append(digit_str(n));
        proof {
            assert(seq!['0'] + seq![digit_char(n as nat)] =~= two_digits(n as nat));
        }
        assert(final(out)@ =~= old(out)@ + two_digits(n as nat));
    } else {
        push_decimal(out, n);
    }
}

/// A signed 8-bit number in decimal.
pub fn i8_to_string(n: i8) -> (res: String)
    ensures
        res@ == signed_decimal(n as int),
{
    let mut s = String::new();
    if n < 0 {
        proof {
            reveal_strlit("-");
        }
        s.append("-");
        let m: i16 = -(n as i16);
        push_decimal(&mut s, m as u64);
    } else {
        push_decimal(&mut s, n as u64);
    }
    proof {
        assert(s@ =~= signed_decimal(n as int));
    }
    s
}

/// Whether two strings hold the same characters.
pub fn str_eq(a: &str, b: &str) -> (res: bool)
    ensures
        res == (a@ == b@),
{
    let n = a.unicode_len();
    if n != b.unicode_len() {
        return false;
    }
    let mut i: usize = 0;
    while i < n
        invariant
            n == a@.len(),
            n == b@.len(),
            i <= n,
            a@.subrange(0, i as int) == b@.subrange(0, i as int),
        decreases n - i,
    {
        if a.get_char(i) != b.get_char(i) {
            return false;
        }
        proof {
            assert(a@.subrange(0, i + 1) =~= a@.subrange(0, i as int).push(a@[i as int]));
            assert(b@.subrange(0, i + 1) =~= b@.subrange(0, i as int).push(b@[i as int]));
        }
        i = i + 1;
    }
    assert(a@ =~= a@.subrange(0, n as int));
    assert(b@ =~= b@.subrange(0, n as int));
    true
}

/// `needle` occurs in `hay` starting at position `i`.
pub open spec fn occurs_at(hay: Seq<char>, needle: Seq<char>, i: int) -> bool {
    0 <= i && i + needle.len() <= hay.len() && hay.subrange(i, i + needle.len()) == needle
}

/// `needle` occurs somewhere in `hay`.
pub open spec fn seq_contains(hay: Seq<char>, needle: Seq<char>) -> bool {
    exists|i: int| occurs_at(hay, needle, i)
}

/// Whether `needle` occurs at position `i` of `hay`.
fn matches_at(hay: &str, needle: &str, i: usize, hay_len: usize, needle_len: usize) -> (res: bool)
    requires
        hay_len == hay@.len(),
        needle_len == needle@.len(),
        i + needle_len <= hay_len,
    ensures
        res == occurs_at(hay@, needle@, i as int),
{
    let mut j: usize = 0;
    while j < needle_len
        invariant
            hay_len == hay@.len(),
            needle_len == needle@.len(),
            i + needle_len <= hay_len,
            j <= needle_len,
            forall|k: int| 0 <= k < j ==> hay@[i + k] == needle@[k],
        decreases needle_len - j,
    {
        if hay.get_char(i + j) != needle.get_char(j) {
            assert(hay@.subrange(i as int, i + needle_len)[j as int] != needle@[j as int]);
            return false;
        }
        j = j + 1;
    }
    assert(hay@.subrange(i as int, i + needle_len) =~= needle@);
    true
}

/// Whether `needle` occurs in `hay`.
pub fn contains_str(hay: &str, needle: &str) -> (res: bool)
    ensures
        res == seq_contains(hay@, needle@),
{
    let hay_len = hay.unicode_len();
    let needle_len = needle.unicode_len();
    if needle_len > hay_len {
        return false;
    }
    if needle_len == 0 {
        assert(hay@.subrange(0, 0) =~= needle@);
        assert(occurs_at(hay@, needle@, 0));
        return true;
    }
    let mut i: usize = 0;
    while i <= hay_len - needle_len
        invariant
            hay_len == hay@.len(),
            needle_len == needle@.len(),
            needle_len <= hay_len,
            0 < needle_len,
            i <= hay_len - needle_len + 1,
            forall|k: int| 0 <= k < i ==> !occurs_at(hay@, needle@, k),
        decreases hay_len - needle_len + 1 - i,
    {
        if matches_at(hay, needle, i, hay_len, needle_len) {
            return true;
        }
        i = i + 1;
    }
    false
}

/// Finds the first occurrence of `c` in `s`.
pub fn find_char(s: &str, c: char) -> (res: Option<usize>)
    ensures
        match res {
            Some(i) => i < s@.len() && s@[i as int] == c && forall|j: int|
                0 <= j < i ==> s@[j] != c,
            None => forall|j: int| 0 <= j < s@.len() ==> s@[j] != c,
        },
{
    let n = s.unicode_len();
    let mut i: usize = 0;
    while i < n
        invariant
            n == s@.len(),
            i <= n,
            forall|j: int| 0 <= j < i ==> s@[j] != c,
        decreases n - i,
    {
        if s.get_char(i) == c {
            return Some(i);
        }
        i = i + 1;
    }
    None
}

/// The position of the last occurrence of `c` in `s`, if any.
pub fn rfind_char(s: &str, c: char) -> (res: Option<usize>)
    ensures
        match res {
            Some(i) => i < s@.len() && s@[i as int] == c && forall|j: int|
                i < j < s@.len() ==> s@[j] != c,
            None => forall|j: int| 0 <= j < s@.len() ==> s@[j] != c,
        },
{
    let n = s.unicode_len();
    let mut i: usize = n;
    while i > 0
        invariant
            n == s@.len(),
            i <= n,
            forall|j: int| i <= j < n ==> s@[j] != c,
        decreases i,
    {
        if s.get_char(i - 1) == c {
            return Some(i - 1);
        }
        i = i - 1;
    }
    None
}

/// The pieces of `s` between the occurrences of `sep`, in order (as `split`
/// gives them: an empty string gives one empty piece).
pub open spec fn split_on(s: Seq<char>, sep: char) -> Seq<Seq<char>>
    decreases s.len(),
{
    if s.len() == 0 {
        seq![Seq::empty()]
    } else {
        let prev = split_on(s.drop_last(), sep);
        if s.last() == sep {
            prev.push(Seq::empty())
        } else {
            prev.update(prev.len() - 1, prev.last().push(s.last()))
        }
    }
}

/// The pieces joined back with `sep` between them.
pub open spec fn join_with(pieces: Seq<Seq<char>>, sep: Seq<char>) -> Seq<char>
    decreases pieces.len(),
{
    if pieces.len() == 0 {
        Seq::empty()
    } else if pieces.len() == 1 {
        pieces[0]
    } else {
        join_with(pieces.drop_last(), sep) + sep + pieces.last()
    }
}

/// The views of a list of strings.
pub open spec fn views(v: Seq<String>) -> Seq<Seq<char>> {
    v.map_values(|x: String| x@)
}

/// The pieces of `text` between the occurrences of `sep`.
pub fn split_char(text: &str, sep: char) -> (res: Vec<String>)
    ensures
        views(res@) == split_on(text@, sep),
{
    let n = text.unicode_len();
    let mut done: Vec<String> = Vec::new();
    let mut cur = String::new();
    let mut i: usize = 0;
    while i < n
        invariant
            n == text@.len(),
            i <= n,
            views(done@).push(cur@) == split_on(text@.subrange(0, i as int), sep),
        decreases n - i,
    {
        let c = text.get_char(i);
        let ghost before = text@.subrange(0, i as int);
        proof {
            assert(text@.subrange(0, i + 1).drop_last() =~= before);
        }
        let ghost old_done = done@;
        if c == sep {
            let finished = cur;
            done.push(finished);
            cur = String::new();
            proof {
                assert(views(done@) =~= views(old_done).push(finished@));
                assert(views(done@).push(cur@) =~= views(old_done).push(finished@).push(
                    Seq::empty(),
                ));
            }
        } else {
            let piece = text.substring_char(i, i + 1);
            let ghost old_cur = cur@;
            cur.append(piece);
            proof {
                assert(piece@ =~= seq![c]);
                assert(cur@ =~= old_cur.push(c));
                assert(views(done@).push(cur@) =~= views(old_done).push(old_cur).update(
                    views(old_done).len() as int,
                    old_cur.push(c),
                ));
            }
        }
        i = i + 1;
    }
    done.push(cur);
    proof {
        assert(text@.subrange(0, n as int) =~= text@);
    }
    done
}

/// The value of a digit character.
pub open spec fn digit_value(c: char) -> int {
    c as int - '0' as int
}

/// The number that a run of digit characters writes, most significant first.
pub open spec fn digits_value(s: Seq<char>) -> int
    decreases s.len(),
{
    if s.len() == 0 {
        0
    } else {
        digits_value(s.drop_last()) * 10 + digit_value(s.last())
    }
}

/// The digit character of a digit has that value.
proof fn lemma_digit_char_value(d: nat)
    requires
        d < 10,
    ensures
        digit_value(digit_char(d)) == d,
{
}

/// A number in decimal reads back as itself: its characters are digits, the
/// first is not a zero unless the number is zero, and together they write
/// the number.
pub proof fn lemma_decimal_reads_back(n: nat)
    ensures
        decimal(n).len() >= 1,
        forall|i: int| 0 <= i < decimal(n).len() ==> 0 <= #[trigger] digit_value(decimal(n)[i]) <= 9,
        n > 0 ==> decimal(n)[0] != '0',
        digits_value(decimal(n)) == n,
    decreases n,
{
    lemma_digit_char_value(n % 10);
    if n < 10 {
        let d = decimal(n);
        assert(d.drop_last() =~= Seq::<char>::empty());
        assert(digits_value(d.drop_last()) == 0);
        assert(d.last() == digit_char(n));
        assert(digits_value(d) == digit_value(digit_char(n)));
    } else {
        lemma_decimal_reads_back(n / 10);
        let d = decimal(n);
        let head = decimal(n / 10);
        assert(d.drop_last() =~= head);
        assert(d.last() == digit_char(n % 10));
        assert(digits_value(d) == digits_value(head) * 10 + digit_value(digit_char(n % 10)));
        assert(n == (n / 10) * 10 + n % 10);
        assert(d[0] == head[0]);
        assert forall|i: int| 0 <= i < d.len() implies 0 <= #[trigger] digit_value(d[i]) <= 9 by {
            if i < head.len() {
                assert(d[i] == head[i]);
            }
        }
    }
}

} // verus!
