//! How the album grid and the folder and playlist lists order their items by
//! an optional text or date: items without the key go first or last as the
//! settings say, whatever the direction; the others are ordered ascending or
//! descending, with texts compared by character, optionally ignoring case.
use vstd::prelude::*;
use crate::meta::CalendarDate;

verus! {

/// How two items compare in a sort.
#[derive(Debug, Clone, Copy, PartialEq, Eq, Structural)]
pub enum SortOrder {
    Smaller,
    Equal,
    Larger,
}

/// The opposite order.
pub open spec fn flipped(o: SortOrder) -> SortOrder {
    match o {
        SortOrder::Smaller => SortOrder::Larger,
        SortOrder::Equal => SortOrder::Equal,
        SortOrder::Larger => SortOrder::Smaller,
    }
}

/// The order of two numbers.
pub open spec fn int_order(a: int, b: int) -> SortOrder {
    if a < b {
        SortOrder::Smaller
    } else if a == b {
        SortOrder::Equal
    } else {
        SortOrder::Larger
    }
}

/// Texts in lexicographic order of their characters' code points: a proper
/// prefix comes first.
pub open spec fn text_order(a: Seq<char>, b: Seq<char>) -> SortOrder
    decreases a.len(),
{
    if a.len() == 0 {
        if b.len() == 0 {
            SortOrder::Equal
        } else {
            SortOrder::Smaller
        }
    } else if b.len() == 0 {
        SortOrder::Larger
    } else if a[0] != b[0] {
        int_order(a[0] as int, b[0] as int)
    } else {
        text_order(a.drop_first(), b.drop_first())
    }
}

/// Dates in order of year, then month, then day.
pub open spec fn date_order(a: CalendarDate, b: CalendarDate) -> SortOrder {
    if a.year != b.year {
        int_order(a.year as int, b.year as int)
    } else if a.month != b.month {
        int_order(a.month as int, b.month as int)
    } else {
        int_order(a.day as int, b.day as int)
    }
}

/// The order of two optional keys, given the order of present keys: two
/// missing keys are equal; a missing key comes before a present one when
/// nulls go first and after it otherwise, in either direction; present keys
/// are ordered ascending or, when not `asc`, descending.
pub open spec fn option_order<T>(
    a: Option<T>,
    b: Option<T>,
    nulls_first: bool,
    asc: bool,
    order: spec_fn(T, T) -> SortOrder,
) -> SortOrder {
    match (a, b) {
        (None, None) => SortOrder::Equal,
        (None, Some(_)) => if nulls_first {
            SortOrder::Smaller
        } else {
            SortOrder::Larger
        },
        (Some(_), None) => if nulls_first {
            SortOrder::Larger
        } else {
            SortOrder::Smaller
        },
        (Some(x), Some(y)) => if asc {
            order(x, y)
        } else {
            order(y, x)
        },
    }
}

/// What `str::to_lowercase` gives for a text: the Unicode lowercase mapping,
/// which depends on the text alone. The contract only names the result.
pub uninterp spec fn lowercased(s: Seq<char>) -> Seq<char>;

/// Lowercases a text with `str::to_lowercase`.
#[verifier::external_body]
pub(crate) fn to_lowercase(s: &str) -> (res: String)
    ensures
        res@ == lowercased(s@),
{
    s.to_lowercase()
}

/// The key a text is compared by: itself, or its lowercase form when case
/// is ignored.
pub open spec fn text_key(s: Seq<char>, case_sensitive: bool) -> Seq<char> {
    if case_sensitive {
        s
    } else {
        lowercased(s)
    }
}

/// The key of an optional text.
pub open spec fn opt_text_key(s: Option<&str>, case_sensitive: bool) -> Option<Seq<char>> {
    match s {
        Some(t) => Some(text_key(t@, case_sensitive)),
        None => None,
    }
}

/// An optional date by value.
pub open spec fn opt_date(d: Option<&CalendarDate>) -> Option<CalendarDate> {
    match d {
        Some(x) => Some(*x),
        None => None,
    }
}

/// The order of two numbers, for the exec code.
fn order_u32(a: u32, b: u32) -> (res: SortOrder)
    ensures
        res == int_order(a as int, b as int),
{
    if a < b {
        SortOrder::Smaller
    } else if a == b {
        SortOrder::Equal
    } else {
        SortOrder::Larger
    }
}

/// Compares two texts character by character.
pub fn text_compare(a: &str, b: &str) -> (res: SortOrder)
    ensures
        res == text_order(a@, b@),
{
    let n = a.unicode_len();
    let m = b.unicode_len();
    let mut i: usize = 0;
    proof {
        assert(a@.skip(0) =~= a@);
        assert(b@.skip(0) =~= b@);
    }
    while i < n && i < m
        invariant
            n == a@.len(),
            m == b@.len(),
            i <= n,
            i <= m,
            text_order(a@, b@) == text_order(a@.skip(i as int), b@.skip(i as int)),
        decreases n - i,
    {
        let c = a.get_char(i);
        let d = b.get_char(i);
        proof {
            assert(a@.skip(i as int)[0] == c);
            assert(b@.skip(i as int)[0] == d);
            assert(a@.skip(i as int).drop_first() =~= a@.skip(i + 1));
            assert(b@.skip(i as int).drop_first() =~= b@.skip(i + 1));
        }
        if c != d {
            return order_u32(c as u32, d as u32);
        }
        i = i + 1;
    }
    proof {
        assert(a@.skip(i as int).len() == n - i);
        assert(b@.skip(i as int).len() == m - i);
    }
    if i == n {
        if i == m {
            SortOrder::Equal
        } else {
            SortOrder::Smaller
        }
    } else {
        SortOrder::Larger
    }
}

/// Compares two dates by year, month and day.
pub fn date_compare(a: &CalendarDate, b: &CalendarDate) -> (res: SortOrder)
    ensures
        res == date_order(*a, *b),
{
    if a.year != b.year {
        if a.year < b.year {
            SortOrder::Smaller
        } else {
            SortOrder::Larger
        }
    } else if a.month != b.month {
        order_u32(a.month as u32, b.month as u32)
    } else {
        order_u32(a.day as u32, b.day as u32)
    }
}

/// The order of two optional texts (see `option_order` and `text_key`).
pub fn g_cmp_str_options(
    a: Option<&str>,
    b: Option<&str>,
    nulls_first: bool,
    asc: bool,
    case_sensitive: bool,
) -> (res: SortOrder)
    ensures
        res == option_order(
            opt_text_key(a, case_sensitive),
            opt_text_key(b, case_sensitive),
            nulls_first,
            asc,
            |x: Seq<char>, y: Seq<char>| text_order(x, y),
        ),
{
    match (a, b) {
        (None, None) => SortOrder::Equal,
        (None, Some(_)) => if nulls_first {
            SortOrder::Smaller
        } else {
            SortOrder::Larger
        },
        (Some(_), None) => if nulls_first {
            SortOrder::Larger
        } else {
            SortOrder::Smaller
        },
        (Some(x), Some(y)) => {
            let (first, second) = if asc {
                (x, y)
            } else {
                (y, x)
            };
            if case_sensitive {
                text_compare(first, second)
            } else {
                let lf = to_lowercase(first);
                let ls = to_lowercase(second);
                text_compare(lf.as_str(), ls.as_str())
            }
        },
    }
}

/// The order of two optional dates (see `option_order`).
pub fn g_cmp_options(
    a: Option<&CalendarDate>,
    b: Option<&CalendarDate>,
    nulls_first: bool,
    asc: bool,
) -> (res: SortOrder)
    ensures
        res == option_order(
            opt_date(a),
            opt_date(b),
            nulls_first,
            asc,
            |x: CalendarDate, y: CalendarDate| date_order(x, y),
        ),
{
    match (a, b) {
        (None, None) => SortOrder::Equal,
        (None, Some(_)) => if nulls_first {
            SortOrder::Smaller
        } else {
            SortOrder::Larger
        },
        (Some(_), None) => if nulls_first {
            SortOrder::Larger
        } else {
            SortOrder::Smaller
        },
        (Some(x), Some(y)) => if asc {
            date_compare(x, y)
        } else {
            date_compare(y, x)
        },
    }
}

/// Swapping two texts flips their order.
pub proof fn lemma_text_order_flips(a: Seq<char>, b: Seq<char>)
    ensures
        text_order(b, a) == flipped(text_order(a, b)),
    decreases a.len(),
{
    if a.len() > 0 && b.len() > 0 && a[0] == b[0] {
        lemma_text_order_flips(a.drop_first(), b.drop_first());
    }
}

/// Texts are equal in the order exactly when they are the same text.
pub proof fn lemma_text_order_equal(a: Seq<char>, b: Seq<char>)
    ensures
        (text_order(a, b) == SortOrder::Equal) == (a == b),
    decreases a.len(),
{
    if a.len() > 0 && b.len() > 0 {
        if a[0] == b[0] {
            lemma_text_order_equal(a.drop_first(), b.drop_first());
            if a.drop_first() == b.drop_first() {
                assert(a =~= seq![a[0]] + a.drop_first());
                assert(b =~= seq![b[0]] + b.drop_first());
            }
            if a == b {
                assert(a.drop_first() =~= b.drop_first());
            }
        }
    } else if a.len() == 0 && b.len() == 0 {
        assert(a =~= b);
    }
}

/// Swapping two dates flips their order.
pub proof fn lemma_date_order_flips(a: CalendarDate, b: CalendarDate)
    ensures
        date_order(b, a) == flipped(date_order(a, b)),
{
}

/// The sort laws of the grid, for texts: turning the direction round
/// reverses the order of any two items that have the key and leaves the
/// place of items without it unchanged; swapping two items flips their
/// order; and an item without the key comes first exactly when nulls go
/// first.
pub proof fn lemma_text_sort_laws(
    a: Option<Seq<char>>,
    b: Option<Seq<char>>,
    nulls_first: bool,
    asc: bool,
)
    ensures
        ({
            let order = |x: Seq<char>, y: Seq<char>| text_order(x, y);
            &&& a is Some && b is Some ==> option_order(a, b, nulls_first, !asc, order) == flipped(
                option_order(a, b, nulls_first, asc, order),
            )
            &&& !(a is Some && b is Some) ==> option_order(a, b, nulls_first, !asc, order)
                == option_order(a, b, nulls_first, asc, order)
            &&& option_order(b, a, nulls_first, asc, order) == flipped(
                option_order(a, b, nulls_first, asc, order),
            )
            &&& a is None && b is Some ==> (option_order(a, b, nulls_first, asc, order)
                == SortOrder::Smaller) == nulls_first
        }),
{
    if a is Some && b is Some {
        lemma_text_order_flips(a->0, b->0);
    }
}

/// The same laws for dates.
pub proof fn lemma_date_sort_laws(
    a: Option<CalendarDate>,
    b: Option<CalendarDate>,
    nulls_first: bool,
    asc: bool,
)
    ensures
        ({
            let order = |x: CalendarDate, y: CalendarDate| date_order(x, y);
            &&& a is Some && b is Some ==> option_order(a, b, nulls_first, !asc, order) == flipped(
                option_order(a, b, nulls_first, asc, order),
            )
            &&& !(a is Some && b is Some) ==> option_order(a, b, nulls_first, !asc, order)
                == option_order(a, b, nulls_first, asc, order)
            &&& option_order(b, a, nulls_first, asc, order) == flipped(
                option_order(a, b, nulls_first, asc, order),
            )
            &&& a is None && b is Some ==> (option_order(a, b, nulls_first, asc, order)
                == SortOrder::Smaller) == nulls_first
        }),
{
    if a is Some && b is Some {
        lemma_date_order_flips(a->0, b->0);
    }
}

/// The chronological key of a date: later dates have larger keys (months
/// and days each fit below 256).
pub open spec fn date_key(d: CalendarDate) -> int {
    d.year as int * 65536 + d.month as int * 256 + d.day as int
}

/// Dates are ordered chronologically: by year, then within a year by month
/// whatever the days, then by day. In particular, of two dates in the same
/// year, the one in the earlier month comes first.
pub proof fn lemma_date_order_chronological(a: CalendarDate, b: CalendarDate)
    ensures
        date_order(a, b) == int_order(date_key(a), date_key(b)),
        a.year == b.year && a.month < b.month ==> date_order(a, b) == SortOrder::Smaller,
        a.year < b.year ==> date_order(a, b) == SortOrder::Smaller,
        a.year == b.year && a.month == b.month && a.day < b.day ==> date_order(a, b)
            == SortOrder::Smaller,
{
}

/// Texts are ordered by their first differing character, and a text comes
/// before any longer text that it begins: two texts that agree on a common
/// beginning and then differ are ordered as the characters where they
/// differ, whatever follows.
pub proof fn lemma_text_order_first_difference(
    p: Seq<char>,
    x: char,
    y: char,
    r1: Seq<char>,
    r2: Seq<char>,
)
    ensures
        x != y ==> text_order(p + seq![x] + r1, p + seq![y] + r2) == int_order(x as int, y as int),
        text_order(p, p + seq![x] + r1) == SortOrder::Smaller,
        text_order(p, p) == SortOrder::Equal,
    decreases p.len(),
{
    if p.len() > 0 {
        lemma_text_order_first_difference(p.drop_first(), x, y, r1, r2);
        assert((p + seq![x] + r1).drop_first() =~= p.drop_first() + seq![x] + r1);
        assert((p + seq![y] + r2).drop_first() =~= p.drop_first() + seq![y] + r2);
        assert(p.drop_first() =~= p.drop_first());
    } else {
        assert(p + seq![x] + r1 =~= seq![x] + r1);
        assert(p + seq![y] + r2 =~= seq![y] + r2);
    }
}

} // verus!
