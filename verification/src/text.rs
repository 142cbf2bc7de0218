//! Text: comparing, trimming and writing numbers.
use vstd::prelude::*;

verus! {

/// The decimal digit with the value `d`.
pub open spec fn digit(d: nat) -> char {
    (('0' as nat) + d) as char
}

/// `n` in decimal, without leading zeros; zero is `0`.
pub open spec fn decimal(n: nat) -> Seq<char>
    decreases n,
{
    if n < 10 {
        seq![digit(n)]
    } else {
        decimal(n / 10).push(digit(n % 10))
    }
}

/// `s` without the slashes at its end.
pub open spec fn without_trailing_slashes(s: Seq<char>) -> Seq<char>
    decreases s.len(),
{
    if s.len() > 0 && s.last() == '/' {
        without_trailing_slashes(s.drop_last())
    } else {
        s
    }
}

/// What `str`'s `Debug` implementation writes for `s`: `s` between double quotes, escaped.
pub uninterp spec fn debug_text(s: Seq<char>) -> Seq<char>;

/// Calls `format!` with `{:?}` on a `str`, that is `<str as std::fmt::Debug>::fmt`. All that is
/// claimed of the text is that it depends on `s` alone: which characters are escaped follows
/// Unicode tables and is left unsaid.
#[verifier::external_body]
pub(crate) fn quoted(s: &str) -> (r: String)
    ensures
        r@ == debug_text(s@),
{
    format!("{s:?}")
}

/// The text inside an optional string.
pub open spec fn optional_text(s: Option<String>) -> Option<Seq<char>> {
    match s {
        Some(s) => Some(s@),
        None => None,
    }
}

fn digit_text(d: u64) -> (r: String)
    requires
        d < 10,
    ensures
        r@ == seq![digit(d as nat)],
{
    proof {
        reveal_strlit("0123456789");
    }
    let digits = "0123456789";
    let start: usize = d as usize;
    let one = digits.substring_char(start, start + 1);
    proof {
        assert(one@ =~= seq![digit(d as nat)]);
    }
    one.to_owned()
}

/// Writes `n` in decimal.
pub fn decimal_text(n: u64) -> (r: String)
    ensures
        r@ == decimal(n as nat),
    decreases n,
{
    if n < 10 {
        digit_text(n)
    } else {
        let head = decimal_text(n / 10);
        let tail = digit_text(n % 10);
        let r = head.concat(tail.as_str());
        proof {
            assert(r@ =~= decimal(n as nat));
        }
        r
    }
}

/// Whether `a` and `b` are the same text.
pub fn text_eq(a: &str, b: &str) -> (r: bool)
    ensures
        r == (a@ == b@),
{
    let left: String = a.to_owned();
    let right: String = b.to_owned();
    left == right
}

/// Cuts the slashes off the end of `s`.
pub fn trim_trailing_slashes(s: &str) -> (r: String)
    ensures
        r@ == without_trailing_slashes(s@),
{
    let mut end: usize = s.unicode_len();
    proof {
        assert(s@.subrange(0, end as int) =~= s@);
    }
    while end > 0 && s.get_char(end - 1) == '/'
        invariant
            end <= s@.len(),
            without_trailing_slashes(s@.subrange(0, end as int)) == without_trailing_slashes(s@),
        ensures
            end <= s@.len(),
            without_trailing_slashes(s@.subrange(0, end as int)) == without_trailing_slashes(s@),
            end == 0 || s@[end - 1] != '/',
        decreases end,
    {
        proof {
            let cur = s@.subrange(0, end as int);
            assert(cur.drop_last() =~= s@.subrange(0, end - 1));
        }
        end = end - 1;
    }
    proof {
        let cur = s@.subrange(0, end as int);
        assert(end > 0 ==> cur.last() == s@[end - 1]);
    }
    s.substring_char(0, end).to_owned()
}

proof fn lemma_slashes(s: Seq<char>, slashes: Seq<char>)
    requires
        forall|i: int| 0 <= i < slashes.len() ==> #[trigger] slashes[i] == '/',
    ensures
        without_trailing_slashes(s + slashes) == without_trailing_slashes(s),
    decreases slashes.len(),
{
    if slashes.len() == 0 {
        assert(s + slashes =~= s);
    } else {
        assert((s + slashes).last() == slashes[slashes.len() - 1]);
        assert((s + slashes).drop_last() =~= s + slashes.drop_last());
        lemma_slashes(s, slashes.drop_last());
    }
}

/// Slashes at the end do not matter, and none is left there; what is cut off is slashes only.
pub proof fn law_trailing_slashes_do_not_matter(s: Seq<char>, slashes: Seq<char>)
    requires
        forall|i: int| 0 <= i < slashes.len() ==> #[trigger] slashes[i] == '/',
    ensures
        without_trailing_slashes(s + slashes) == without_trailing_slashes(s),
        ({
            let cut = without_trailing_slashes(s);
            &&& cut.len() == 0 || cut.last() != '/'
            &&& cut.is_prefix_of(s)
            &&& forall|i: int| cut.len() <= i < s.len() ==> #[trigger] s[i] == '/'
        }),
{
    lemma_slashes(s, slashes);
    lemma_cut(s);
}

proof fn lemma_cut(s: Seq<char>)
    ensures
        ({
            let cut = without_trailing_slashes(s);
            &&& cut.len() == 0 || cut.last() != '/'
            &&& cut.is_prefix_of(s)
            &&& forall|i: int| cut.len() <= i < s.len() ==> #[trigger] s[i] == '/'
        }),
    decreases s.len(),
{
    if s.len() > 0 && s.last() == '/' {
        let shorter = s.drop_last();
        lemma_cut(shorter);
        assert forall|i: int|
            without_trailing_slashes(s).len() <= i < s.len() implies #[trigger] s[i] == '/' by {
            if i < shorter.len() {
                assert(shorter[i] == '/');
            }
        }
    }
}

/// Whether every character is a decimal digit.
pub open spec fn all_digits(s: Seq<char>) -> bool {
    forall|i: int| 0 <= i < s.len() ==> '0' <= #[trigger] s[i] <= '9'
}

/// The number that a row of decimal digits stands for.
pub open spec fn number(digits: Seq<char>) -> int
    decreases digits.len(),
{
    if digits.len() == 0 {
        0
    } else {
        10 * number(digits.drop_last()) + (digits.last() as int - '0' as int)
    }
}

/// A number in decimal reads back as that number. It is digits only, and has no zero in front but
/// for zero itself.
pub proof fn law_decimal_reads_back(n: nat)
    ensures
        number(decimal(n)) == n,
        all_digits(decimal(n)),
        decimal(n).len() > 0,
        decimal(n)[0] == '0' ==> decimal(n).len() == 1,
    decreases n,
{
    if n < 10 {
        reveal_with_fuel(number, 2);
        assert(decimal(n).drop_last() =~= Seq::<char>::empty());
    } else {
        law_decimal_reads_back(n / 10);
        let head = decimal(n / 10);
        assert(decimal(n).drop_last() =~= head);
        assert(decimal(n)[0] == head[0]);
        if head.len() == 1 && head[0] == '0' {
            reveal_with_fuel(number, 2);
            assert(head.drop_last() =~= Seq::<char>::empty());
            assert(number(head) == 0);
        }
    }
}

/// An optional string is seen whole: there is a text exactly where there is a string, and it is that
/// string's.
pub proof fn law_optional_text_is_seen_whole(s: Option<String>)
    ensures
        optional_text(s) is Some <==> s is Some,
        s matches Some(s) ==> optional_text(Some(s))->0 == s@,
{
}

} // verus!
