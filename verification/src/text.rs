//! Text helpers: decimal numerals and trailing slashes.
use vstd::prelude::*;

verus! {

/// The character of a single decimal digit.
pub open spec fn digit(d: nat) -> char {
    if d == 0 {
        '0'
    } else if d == 1 {
        '1'
    } else if d == 2 {
        '2'
    } else if d == 3 {
        '3'
    } else if d == 4 {
        '4'
    } else if d == 5 {
        '5'
    } else if d == 6 {
        '6'
    } else if d == 7 {
        '7'
    } else if d == 8 {
        '8'
    } else {
        '9'
    }
}

/// The decimal numeral of `n`, without leading zeros.
pub open spec fn decimal(n: nat) -> Seq<char>
    decreases n,
{
    if n < 10 {
        seq![digit(n)]
    } else {
        decimal(n / 10) + seq![digit(n % 10)]
    }
}

/// `s` without the slashes it ends with.
pub open spec fn without_trailing_slashes(s: Seq<char>) -> Seq<char>
    decreases s.len(),
{
    if s.len() > 0 && s.last() == '/' {
        without_trailing_slashes(s.drop_last())
    } else {
        s
    }
}

/// Whether `part` stands somewhere in `s`.
pub open spec fn mentions(s: Seq<char>, part: Seq<char>) -> bool {
    exists|i: int| #[trigger] mentions_at(s, part, i)
}

/// Whether `part` stands in `s` at this position.
pub open spec fn mentions_at(s: Seq<char>, part: Seq<char>, i: int) -> bool {
    &&& 0 <= i
    &&& i + part.len() <= s.len()
    &&& s.subrange(i, i + part.len()) == part
}

/// A text that is put together from three parts mentions what the second begins with.
pub proof fn middle_is_mentioned(
    before: Seq<char>,
    middle: Seq<char>,
    after: Seq<char>,
    part: Seq<char>,
)
    requires
        part.is_prefix_of(middle),
    ensures
        mentions(before + middle + after, part),
{
    let s = before + middle + after;
    let i = before.len() as int;
    assert(s.subrange(i, i + part.len()) =~= part) by {
        assert forall|k: int| 0 <= k < part.len() implies s.subrange(i, i + part.len())[k]
            == part[k] by {
            assert(middle[k] == part[k]);
        }
    }
    assert(mentions_at(s, part, i));
}

/// A text that is put together from three parts mentions what the second mentions.
pub proof fn longer_text_mentions_as_much(
    before: Seq<char>,
    middle: Seq<char>,
    after: Seq<char>,
    part: Seq<char>,
)
    requires
        mentions(middle, part),
    ensures
        mentions(before + middle + after, part),
{
    let s = before + middle + after;
    let i = choose|i: int| #[trigger] mentions_at(middle, part, i);
    let j = before.len() + i;
    assert forall|k: int| 0 <= k < part.len() implies s.subrange(j, j + part.len())[k]
        == part[k] by {
        assert(middle.subrange(i, i + part.len())[k] == part[k]);
    }
    assert(s.subrange(j, j + part.len()) =~= part);
    assert(mentions_at(s, part, j));
}

/// What begins with a numeral and a space begins with the numeral.
pub proof fn numeral_comes_first(n: nat, s: Seq<char>)
    requires
        (decimal(n) + " "@).is_prefix_of(s),
    ensures
        decimal(n).is_prefix_of(s),
{
    let longer = decimal(n) + " "@;
    assert(decimal(n) =~= s.take(decimal(n).len() as int)) by {
        assert forall|k: int| 0 <= k < decimal(n).len() implies decimal(n)[k] == s[k] by {
            assert(longer[k] == decimal(n)[k]);
            assert(longer[k] == s[k]);
        }
    }
}

fn digit_text(d: u64) -> (text: &'static str)
    requires
        d < 10,
    ensures
        text@ == seq![digit(d as nat)],
{
    proof {
        reveal_strlit("0");
        reveal_strlit("1");
        reveal_strlit("2");
        reveal_strlit("3");
        reveal_strlit("4");
        reveal_strlit("5");
        reveal_strlit("6");
        reveal_strlit("7");
        reveal_strlit("8");
        reveal_strlit("9");
    }
    if d == 0 {
        "0"
    } else if d == 1 {
        "1"
    } else if d == 2 {
        "2"
    } else if d == 3 {
        "3"
    } else if d == 4 {
        "4"
    } else if d == 5 {
        "5"
    } else if d == 6 {
        "6"
    } else if d == 7 {
        "7"
    } else if d == 8 {
        "8"
    } else {
        "9"
    }
}

/// The decimal numeral of `n`.
pub fn decimal_text(n: u64) -> (text: String)
    ensures
        text@ == decimal(n as nat),
    decreases n,
{
    if n < 10 {
        digit_text(n).to_string()
    } else {
        decimal_text(n / 10).concat(digit_text(n % 10))
    }
}

/// `s` without the slashes it ends with.
pub fn trim_trailing_slashes(s: &str) -> (trimmed: String)
    ensures
        trimmed@ == without_trailing_slashes(s@),
{
    let mut end: usize = s.unicode_len();
    assert(s@.take(end as int) =~= s@);
    while end > 0 && s.get_char(end - 1) == '/'
        invariant
            end <= s@.len(),
            without_trailing_slashes(s@) == without_trailing_slashes(s@.take(end as int)),
        decreases end,
    {
        assert(s@.take(end as int).drop_last() =~= s@.take(end - 1));
        end = end - 1;
    }
    assert(s@.take(end as int) =~= s@.subrange(0, end as int));
    s.substring_char(0, end).to_string()
}

/// Trimming leaves no slash at the end, drops nothing but slashes, and trimming again
/// changes nothing.
pub proof fn trimming_drops_only_slashes(s: Seq<char>)
    ensures
        ({
            let t = without_trailing_slashes(s);
            &&& t.len() > 0 ==> t.last() != '/'
            &&& t.is_prefix_of(s)
            &&& forall|i: int| t.len() <= i < s.len() ==> s[i] == '/'
            &&& without_trailing_slashes(t) == t
        }),
    decreases s.len(),
{
    if s.len() > 0 && s.last() == '/' {
        trimming_drops_only_slashes(s.drop_last());
        let t = without_trailing_slashes(s);
        assert forall|i: int| t.len() <= i < s.len() implies s[i] == '/' by {
            if i < s.len() - 1 {
                assert(s.drop_last()[i] == s[i]);
            }
        }
    }
}

/// Two texts that differ only in the slashes they end with are trimmed to the same text.
pub proof fn trimming_forgets_slashes(s: Seq<char>, slashes: Seq<char>)
    requires
        forall|i: int| 0 <= i < slashes.len() ==> slashes[i] == '/',
    ensures
        without_trailing_slashes(s + slashes) == without_trailing_slashes(s),
    decreases slashes.len(),
{
    if slashes.len() == 0 {
        assert(s + slashes =~= s);
    } else {
        assert((s + slashes).drop_last() =~= s + slashes.drop_last());
        assert((s + slashes).last() == slashes.last());
        trimming_forgets_slashes(s, slashes.drop_last());
    }
}

} // verus!
