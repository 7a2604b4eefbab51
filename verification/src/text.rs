//! Character-level helpers: decimal rendering, substring search, control
//! characters, and the few `String` operations vstd does not specify.

use vstd::prelude::*;

verus! {

/// What `str::to_lowercase` returns for a string with these characters.
pub uninterp spec fn lowercase(s: Seq<char>) -> Seq<char>;

/// Calls `str::to_lowercase`. The contract claims that the result is a
/// function of the argument's characters (Unicode's lowercase mapping, which
/// does not depend on a locale), and that it is empty exactly when the
/// argument is (every character maps to at least one); the mapping itself
/// is left unsaid.
#[verifier::external_body]
pub(crate) fn to_lowercase(s: &str) -> (r: String)
    ensures
        r@ == lowercase(s@),
        (r@.len() == 0) == (s@.len() == 0),
{
    s.to_lowercase()
}

/// Calls `String::push`: the character is appended at the end.
#[verifier::external_body]
pub(crate) fn push_char(s: &mut String, c: char)
    ensures
        final(s)@ == old(s)@.push(c),
{
    s.push(c)
}

/// Calls `String::pop`: removes and returns the last character, or returns
/// `None` and leaves an empty string as it is.
#[verifier::external_body]
pub(crate) fn pop_char(s: &mut String) -> (r: Option<char>)
    ensures
        old(s)@.len() == 0 ==> r is None && final(s)@ == old(s)@,
        old(s)@.len() > 0 ==> r == Some(old(s)@.last()) && final(s)@ == old(s)@.drop_last(),
{
    s.pop()
}

/// The characters of a string, in order.
pub fn chars_of(s: &str) -> (r: Vec<char>)
    ensures
        r@ == s@,
{
    let mut v: Vec<char> = Vec::new();
    for c in it: s.chars()
        invariant
            v@ == it.seq().take(it.index() as int),
            it.seq() == s@,
    {
        v.push(c);
    }
    v
}

/// Unicode general category `Cc`: U+0000..U+001F and U+007F..U+009F.
pub open spec fn is_control_spec(c: char) -> bool {
    (c as u32) <= 0x1f || (0x7f <= (c as u32) && (c as u32) <= 0x9f)
}

/// `char::is_control`: whether `c` is a control character (category `Cc`).
pub fn is_control(c: char) -> (r: bool)
    ensures
        r == is_control_spec(c),
{
    let n = c as u32;
    n <= 0x1f || (0x7f <= n && n <= 0x9f)
}

/// The characters of `s` that are not control characters, in order.
pub open spec fn strip_controls(s: Seq<char>) -> Seq<char>
    decreases s.len(),
{
    if s.len() == 0 {
        s
    } else if is_control_spec(s.last()) {
        strip_controls(s.drop_last())
    } else {
        strip_controls(s.drop_last()).push(s.last())
    }
}

/// Whether `needle` occurs as a contiguous run of characters in `hay`.
pub open spec fn seq_contains(hay: Seq<char>, needle: Seq<char>) -> bool {
    exists|i: int|
        0 <= i && i + needle.len() <= hay.len() && #[trigger] hay.subrange(i, i + needle.len())
            == needle
}

/// Whether `needle` occurs in `hay` starting at position `i`.
pub open spec fn occurs_at(hay: Seq<char>, needle: Seq<char>, i: int) -> bool {
    0 <= i && i + needle.len() <= hay.len() && hay.subrange(i, i + needle.len()) == needle
}

/// `str::contains` with a string pattern, on character sequences.
pub fn contains(hay: &Vec<char>, needle: &Vec<char>) -> (r: bool)
    ensures
        r == seq_contains(hay@, needle@),
{
    let n = needle.len();
    if n > hay.len() {
        proof {
            assert forall|i: int|
                0 <= i && i + n <= hay@.len() implies #[trigger] hay@.subrange(i, i + n)
                != needle@ by {}
        }
        return false;
    }
    let hl = hay.len();
    let last = hl - n;
    let mut i: usize = 0;
    loop
        invariant
            n == needle@.len(),
            hl == hay@.len(),
            last + n == hl,
            i <= last,
            forall|k: int| 0 <= k < i ==> #[trigger] hay@.subrange(k, k + n) != needle@,
        decreases last - i,
    {
        let mut j: usize = 0;
        let mut same = true;
        while j < n
            invariant
                n == needle@.len(),
                hl == hay@.len(),
                last + n == hl,
                i <= last,
                j <= n,
                same == (forall|m: int| 0 <= m < j ==> hay@[i + m] == needle@[m]),
            decreases n - j,
        {
            if hay[i + j] != needle[j] {
                same = false;
            }
            j = j + 1;
        }
        if same {
            assert(hay@.subrange(i as int, i + n) =~= needle@);
            return true;
        }
        proof {
            let m = choose|m: int| 0 <= m < n && hay@[i + m] != needle@[m];
            assert(hay@.subrange(i as int, i + n)[m] != needle@[m]);
        }
        if i == last {
            return false;
        }
        i = i + 1;
    }
}

/// The decimal digit character for `d` (which is below ten).
pub open spec fn digit(d: nat) -> char {
    (48 + d) as char
}

/// The decimal representation of `n`, without leading zeros.
pub open spec fn decimal(n: nat) -> Seq<char>
    decreases n,
{
    if n < 10 {
        seq![digit(n)]
    } else {
        decimal(n / 10).push(digit(n % 10))
    }
}

/// `decimal(n)` with zeros in front, up to `width` characters.
pub open spec fn zero_padded(n: nat, width: nat) -> Seq<char> {
    let d = decimal(n);
    if d.len() >= width {
        d
    } else {
        Seq::new((width - d.len()) as nat, |_i: int| '0') + d
    }
}

/// Appends the decimal representation of `n`.
pub fn push_decimal(s: &mut String, n: u64)
    ensures
        final(s)@ == old(s)@ + decimal(n as nat),
    decreases n,
{
    if n >= 10 {
        push_decimal(s, n / 10);
    }
    let d = (n % 10) as u8;
    let c = (48u8 + d) as char;
    assert(c == digit((n % 10) as nat));
    push_char(s, c);
    proof {
        if n < 10 {
            assert(old(s)@ + decimal(n as nat) =~= old(s)@.push(c));
        } else {
            assert(decimal(n as nat) == decimal((n / 10) as nat).push(c));
            assert((old(s)@ + decimal((n / 10) as nat)).push(c) =~= old(s)@ + decimal(
                n as nat,
            ));
        }
    }
}

/// The decimal representation of `n` is never empty, and has one digit
/// below ten.
pub proof fn lemma_decimal_len(n: nat)
    ensures
        decimal(n).len() >= 1,
        n < 10 ==> decimal(n).len() == 1,
        10 <= n < 100 ==> decimal(n).len() == 2,
        100 <= n < 1000 ==> decimal(n).len() == 3,
    decreases n,
{
    if n >= 10 {
        lemma_decimal_len(n / 10);
    }
}

/// From a thousand on, the decimal representation has at least four digits.
proof fn lemma_decimal_len_grows(n: nat)
    requires
        n >= 1000,
    ensures
        decimal(n).len() >= 4,
    decreases n,
{
    if n / 10 >= 1000 {
        lemma_decimal_len_grows(n / 10);
    } else {
        lemma_decimal_len(n / 10);
    }
}

/// Appends `decimal(n)` padded with zeros to three characters, as
/// `format!("{n:03}")` does.
pub fn push_decimal_03(s: &mut String, n: u64)
    ensures
        final(s)@ == old(s)@ + zero_padded(n as nat, 3),
{
    proof {
        lemma_decimal_len(n as nat);
    }
    let ghost d = decimal(n as nat);
    if n < 10 {
        push_char(s, '0');
        push_char(s, '0');
        assert(Seq::new(2, |_i: int| '0') =~= seq!['0', '0']);
    } else if n < 100 {
        push_char(s, '0');
        assert(Seq::new(1, |_i: int| '0') =~= seq!['0']);
    }
    let ghost mid = s@;
    push_decimal(s, n);
    proof {
        if n < 10 {
            assert(mid =~= old(s)@ + seq!['0', '0']);
        } else if n < 100 {
            assert(mid =~= old(s)@ + seq!['0']);
        } else {
            assert(mid =~= old(s)@);
        }
        if n < 10 {
            assert(zero_padded(n as nat, 3) =~= seq!['0', '0'] + d);
        } else if n < 100 {
            assert(zero_padded(n as nat, 3) =~= seq!['0'] + d);
        } else if n < 1000 {
            assert(zero_padded(n as nat, 3) =~= d);
        } else {
            assert(decimal(n as nat).len() >= 3) by {
                lemma_decimal_len_grows(n as nat);
            }
            assert(zero_padded(n as nat, 3) =~= d);
        }
        assert(final(s)@ =~= old(s)@ + zero_padded(n as nat, 3));
    }
}

} // verus!
