//! Text helpers shared by the rest of the library: white space, trimming,
//! joining and the few conversions that the standard library has to perform.

use vstd::prelude::*;

verus! {

/// Whether `c` carries the Unicode `White_Space` property, as
/// `char::is_whitespace` decides it.
pub uninterp spec fn is_whitespace(c: char) -> bool;

/// The lower-case form of a text, as `str::to_lowercase` computes it.
pub uninterp spec fn lowercase(s: Seq<char>) -> Seq<char>;

/// The text that `String::from_utf8_lossy` reads out of a run of bytes.
pub uninterp spec fn utf8_lossy(bytes: Seq<u8>) -> Seq<char>;

/// Calls `char::is_whitespace`. The answer depends on the character alone, so
/// it is given the name [`is_whitespace`]; nothing more is claimed of it.
#[verifier::external_body]
pub(crate) fn char_is_whitespace(c: char) -> (b: bool)
    ensures
        b == is_whitespace(c),
{
    c.is_whitespace()
}

/// Calls `str::to_lowercase`. The result depends on the text alone, so it is
/// given the name [`lowercase`]; nothing more is claimed of it.
#[verifier::external_body]
pub(crate) fn to_lowercase(s: &str) -> (lowered: String)
    ensures
        lowered@ == lowercase(s@),
{
    s.to_lowercase()
}

/// Calls `String::from_utf8_lossy`, which decodes UTF-8 and replaces what is
/// not valid by U+FFFD. The result depends on the bytes alone, so it is given
/// the name [`utf8_lossy`]; nothing more is claimed of it.
#[verifier::external_body]
pub(crate) fn decode_lossy(bytes: &[u8]) -> (decoded: String)
    ensures
        decoded@ == utf8_lossy(bytes@),
{
    String::from_utf8_lossy(bytes).into_owned()
}

/// A text is blank when every character of it is white space.
pub open spec fn is_blank(s: Seq<char>) -> bool {
    forall|i: int| 0 <= i < s.len() ==> is_whitespace(#[trigger] s[i])
}

/// For each character of a text, whether it is white space.
pub open spec fn whitespace_flags_spec(s: Seq<char>) -> Seq<bool> {
    Seq::new(s.len(), |i: int| is_whitespace(s[i]))
}

/// How many set flags stand at the start, before the first that is not set.
pub open spec fn leading_run(flags: Seq<bool>) -> nat
    decreases flags.len(),
{
    if flags.len() > 0 && flags.first() {
        1 + leading_run(flags.drop_first())
    } else {
        0
    }
}

/// How many flags are left when the set flags at the end are taken away.
pub open spec fn without_trailing_run(flags: Seq<bool>) -> nat
    decreases flags.len(),
{
    if flags.len() > 0 && flags.last() {
        without_trailing_run(flags.drop_last())
    } else {
        flags.len()
    }
}

/// `s` without the white space at its end.
pub open spec fn trim_end_spec(s: Seq<char>) -> Seq<char>
    decreases s.len(),
{
    if s.len() > 0 && is_whitespace(s.last()) {
        trim_end_spec(s.drop_last())
    } else {
        s
    }
}

/// `s` without the white space at its start.
pub open spec fn trim_start_spec(s: Seq<char>) -> Seq<char>
    decreases s.len(),
{
    if s.len() > 0 && is_whitespace(s.first()) {
        trim_start_spec(s.drop_first())
    } else {
        s
    }
}

/// `s` without the white space at either end.
pub open spec fn trim_spec(s: Seq<char>) -> Seq<char> {
    trim_start_spec(trim_end_spec(s))
}

/// `s` without the run of `c` at its start.
pub open spec fn strip_leading_spec(s: Seq<char>, c: char) -> Seq<char>
    decreases s.len(),
{
    if s.len() > 0 && s.first() == c {
        strip_leading_spec(s.drop_first(), c)
    } else {
        s
    }
}

/// The texts of `parts` in order, with `sep` between each two neighbours.
pub open spec fn join_spec(parts: Seq<Seq<char>>, sep: Seq<char>) -> Seq<char>
    decreases parts.len(),
{
    if parts.len() == 0 {
        Seq::empty()
    } else if parts.len() == 1 {
        parts[0]
    } else {
        join_spec(parts.drop_last(), sep) + sep + parts.last()
    }
}

/// Trimming the end keeps as many characters as are left when the white
/// space flags at the end are taken away.
pub proof fn lemma_trim_end_len(s: Seq<char>)
    ensures
        without_trailing_run(whitespace_flags_spec(s)) <= s.len(),
        trim_end_spec(s) == s.subrange(0, without_trailing_run(whitespace_flags_spec(s)) as int),
        without_trailing_run(whitespace_flags_spec(s)) > 0 ==> !is_whitespace(
            s[without_trailing_run(whitespace_flags_spec(s)) - 1],
        ),
        forall|j: int|
            without_trailing_run(whitespace_flags_spec(s)) <= j < s.len() ==> is_whitespace(
                #[trigger] s[j],
            ),
    decreases s.len(),
{
    let flags = whitespace_flags_spec(s);
    if s.len() > 0 && is_whitespace(s.last()) {
        let shorter = s.drop_last();
        lemma_trim_end_len(shorter);
        assert(whitespace_flags_spec(shorter) =~= flags.drop_last());
        let kept = without_trailing_run(flags);
        assert(shorter.subrange(0, kept as int) =~= s.subrange(0, kept as int));
        assert forall|j: int| kept <= j < s.len() implies is_whitespace(#[trigger] s[j]) by {
            if j < shorter.len() {
                assert(shorter[j] == s[j]);
            }
        }
    } else {
        assert(s.subrange(0, s.len() as int) =~= s);
    }
}

/// Trimming the start drops as many characters as white space flags stand at
/// the start.
pub proof fn lemma_trim_start_len(s: Seq<char>)
    ensures
        leading_run(whitespace_flags_spec(s)) <= s.len(),
        trim_start_spec(s) == s.subrange(
            leading_run(whitespace_flags_spec(s)) as int,
            s.len() as int,
        ),
    decreases s.len(),
{
    let flags = whitespace_flags_spec(s);
    if s.len() > 0 && is_whitespace(s.first()) {
        let shorter = s.drop_first();
        lemma_trim_start_len(shorter);
        assert(whitespace_flags_spec(shorter) =~= flags.drop_first());
        let dropped = leading_run(whitespace_flags_spec(shorter));
        assert(shorter.subrange(dropped as int, shorter.len() as int) =~= s.subrange(
            dropped as int + 1,
            s.len() as int,
        ));
    } else {
        assert(s.subrange(0, s.len() as int) =~= s);
    }
}

/// Cutting at `start` is stripping the leading run of `c`, when `start` is the
/// place of the first character that differs from `c`.
proof fn lemma_strip_leading_cut(s: Seq<char>, c: char, start: int)
    requires
        0 <= start <= s.len(),
        start < s.len() ==> s[start] != c,
        forall|j: int| 0 <= j < start ==> #[trigger] s[j] == c,
    ensures
        strip_leading_spec(s, c) == s.subrange(start, s.len() as int),
    decreases start,
{
    if start == 0 {
        assert(s.subrange(0, s.len() as int) =~= s);
    } else {
        let shorter = s.drop_first();
        assert(s[0] == c);
        assert forall|j: int| 0 <= j < start - 1 implies #[trigger] shorter[j] == c by {
            assert(shorter[j] == s[j + 1]);
        }
        lemma_strip_leading_cut(shorter, c, start - 1);
        assert(shorter.subrange(start - 1, shorter.len() as int) =~= s.subrange(
            start,
            s.len() as int,
        ));
    }
}

/// Characterises the leading run: it ends at the first flag that is not set.
proof fn lemma_leading_run(flags: Seq<bool>, n: int)
    requires
        0 <= n <= flags.len(),
        n < flags.len() ==> !flags[n],
        forall|j: int| 0 <= j < n ==> #[trigger] flags[j],
    ensures
        leading_run(flags) == n,
    decreases n,
{
    if n > 0 {
        let rest = flags.drop_first();
        assert(flags[0]);
        assert forall|j: int| 0 <= j < n - 1 implies #[trigger] rest[j] by {
            assert(rest[j] == flags[j + 1]);
        }
        lemma_leading_run(rest, n - 1);
    }
}

/// Characterises the trailing run: it starts right behind the last flag that
/// is not set.
proof fn lemma_trailing_run(flags: Seq<bool>, n: int)
    requires
        0 <= n <= flags.len(),
        n > 0 ==> !flags[n - 1],
        forall|j: int| n <= j < flags.len() ==> #[trigger] flags[j],
    ensures
        without_trailing_run(flags) == n,
    decreases flags.len() - n,
{
    if n < flags.len() {
        let rest = flags.drop_last();
        assert(flags[flags.len() - 1]);
        lemma_trailing_run(rest, n);
    }
}

/// For each character of a text, whether it is white space.
pub fn whitespace_flags(s: &str) -> (flags: Vec<bool>)
    ensures
        flags@ == whitespace_flags_spec(s@),
{
    let mut flags: Vec<bool> = Vec::new();
    for c in it: s.chars()
        invariant
            it.seq() == s@,
            flags@.len() == it.index(),
            forall|j: int| 0 <= j < flags@.len() ==> flags@[j] == is_whitespace(s@[j]),
    {
        flags.push(char_is_whitespace(c));
    }
    proof {
        assert(flags@ =~= whitespace_flags_spec(s@));
    }
    flags
}

/// How many set flags stand at the start, before the first that is not set.
pub fn count_leading(flags: &Vec<bool>) -> (n: usize)
    ensures
        n == leading_run(flags@),
{
    let mut n: usize = 0;
    while n < flags.len() && flags[n]
        invariant
            n <= flags.len(),
            forall|j: int| 0 <= j < n ==> #[trigger] flags@[j],
        decreases flags.len() - n,
    {
        n = n + 1;
    }
    proof {
        lemma_leading_run(flags@, n as int);
    }
    n
}

/// How many flags are left when the set flags at the end are taken away.
pub fn count_without_trailing(flags: &Vec<bool>) -> (n: usize)
    ensures
        n == without_trailing_run(flags@),
{
    let mut n: usize = flags.len();
    while n > 0 && flags[n - 1]
        invariant
            n <= flags.len(),
            forall|j: int| n <= j < flags.len() ==> #[trigger] flags@[j],
        decreases n,
    {
        n = n - 1;
    }
    proof {
        lemma_trailing_run(flags@, n as int);
    }
    n
}

/// Decides whether a text holds nothing but white space.
pub fn blank(s: &str) -> (b: bool)
    ensures
        b == is_blank(s@),
{
    let flags = whitespace_flags(s);
    let kept = count_without_trailing(&flags);
    proof {
        lemma_trim_end_len(s@);
        if kept == 0 {
            assert forall|i: int| 0 <= i < s@.len() implies is_whitespace(#[trigger] s@[i]) by {
                assert(flags@[i]);
            }
        } else {
            assert(!flags@[kept - 1]);
            assert(!is_whitespace(s@[kept - 1]));
        }
    }
    kept == 0
}

/// The text without the white space at its end.
pub fn trim_end(s: &str) -> (trimmed: &str)
    ensures
        trimmed@ == trim_end_spec(s@),
{
    let flags = whitespace_flags(s);
    let end = count_without_trailing(&flags);
    proof {
        lemma_trim_end_len(s@);
    }
    s.substring_char(0, end)
}

/// The text without the white space at its start.
pub fn trim_start(s: &str) -> (trimmed: &str)
    ensures
        trimmed@ == trim_start_spec(s@),
{
    let flags = whitespace_flags(s);
    let start = count_leading(&flags);
    proof {
        lemma_trim_start_len(s@);
    }
    s.substring_char(start, flags.len())
}

/// The text without the white space at either end.
pub fn trim(s: &str) -> (trimmed: &str)
    ensures
        trimmed@ == trim_spec(s@),
{
    trim_start(trim_end(s))
}

/// The text without the run of `c` at its start.
pub fn strip_leading(s: &str, c: char) -> (stripped: &str)
    ensures
        stripped@ == strip_leading_spec(s@, c),
{
    let len = s.unicode_len();
    let mut start: usize = 0;
    for d in it: s.chars()
        invariant
            it.seq() == s@,
            len == s@.len(),
            start == it.index(),
            start <= len,
            forall|j: int| 0 <= j < start ==> #[trigger] s@[j] == c,
    {
        if d != c {
            proof {
                lemma_strip_leading_cut(s@, c, start as int);
            }
            return s.substring_char(start, len);
        }
        start = start + 1;
    }
    proof {
        lemma_strip_leading_cut(s@, c, start as int);
    }
    s.substring_char(start, len)
}

/// Joins the texts of `parts`, in order, with `sep` between each two
/// neighbours.
pub fn join(parts: &Vec<String>, sep: &str) -> (joined: String)
    ensures
        joined@ == join_spec(parts.deep_view(), sep@),
{
    let mut joined = String::new();
    let mut i: usize = 0;
    while i < parts.len()
        invariant
            i <= parts.len(),
            joined@ == join_spec(parts.deep_view().take(i as int), sep@),
        decreases parts.len() - i,
    {
        let ghost before = parts.deep_view().take(i as int);
        let ghost after = parts.deep_view().take(i + 1);
        proof {
            assert(after.drop_last() =~= before);
            assert(after.last() == parts[i as int]@);
        }
        if i > 0 {
            joined.append(sep);
        } else {
            proof {
                assert(joined@ + parts[i as int]@ =~= parts[i as int]@);
            }
        }
        joined.append(parts[i].as_str());
        i = i + 1;
    }
    proof {
        assert(parts.deep_view().take(parts.len() as int) =~= parts.deep_view());
    }
    joined
}

} // verus!
