//! Character-level text helpers: truncation for narrow columns,
//! trimming, case folding and substring search.
use vstd::prelude::*;

verus! {

/// What `char::is_alphanumeric` answers for a character.
pub uninterp spec fn alphanumeric(c: char) -> bool;

/// What `char::to_lowercase` yields for a character.
pub uninterp spec fn lowercase_char(c: char) -> Seq<char>;

/// What `str::to_lowercase` returns for a string.
pub uninterp spec fn lowercase_str(s: Seq<char>) -> Seq<char>;

/// The character has Unicode's White_Space property, as
/// `char::is_whitespace` asks: the controls from tab to carriage return,
/// space, next line, no-break space, ogham space mark, the spaces from en
/// quad to hair space, the line and paragraph separators, narrow no-break
/// space, medium mathematical space and ideographic space.
pub open spec fn whitespace(c: char) -> bool {
    let n = c as int;
    ||| 0x09 <= n <= 0x0D
    ||| n == 0x20
    ||| n == 0x85
    ||| n == 0xA0
    ||| n == 0x1680
    ||| 0x2000 <= n <= 0x200A
    ||| n == 0x2028
    ||| n == 0x2029
    ||| n == 0x202F
    ||| n == 0x205F
    ||| n == 0x3000
}

/// Calls `char::is_alphanumeric`; the answer is the named one.
#[verifier::external_body]
fn is_alphanumeric(c: char) -> (r: bool)
    ensures
        r == alphanumeric(c),
{
    c.is_alphanumeric()
}

/// Whether the character has Unicode's White_Space property.
fn is_whitespace(c: char) -> (r: bool)
    ensures
        r == whitespace(c),
{
    let n = c as u32;
    (0x09 <= n && n <= 0x0D) || n == 0x20 || n == 0x85 || n == 0xA0 || n == 0x1680 || (0x2000 <= n
        && n <= 0x200A) || n == 0x2028 || n == 0x2029 || n == 0x202F || n == 0x205F || n == 0x3000
}

/// Calls `char::to_lowercase` and collects what it yields.
#[verifier::external_body]
fn char_to_lowercase(c: char) -> (r: Vec<char>)
    ensures
        r@ == lowercase_char(c),
{
    c.to_lowercase().collect()
}

/// Calls `str::to_lowercase`; the result is the named one.
#[verifier::external_body]
pub(crate) fn str_to_lowercase(s: &str) -> (r: String)
    ensures
        r@ == lowercase_str(s@),
{
    s.to_lowercase()
}

/// Calls `String::push`, which appends one character.
#[verifier::external_body]
pub(crate) fn push_char(s: &mut String, c: char)
    ensures
        final(s)@ == old(s)@.push(c),
{
    s.push(c)
}

/// Calls `String::pop`, which removes the last character, if any.
#[verifier::external_body]
pub(crate) fn pop_char(s: &mut String)
    ensures
        final(s)@ == if old(s)@.len() == 0 {
            old(s)@
        } else {
            old(s)@.drop_last()
        },
{
    s.pop();
}

/// The decimal digits of `n`, most significant first, with no leading
/// zero.
pub open spec fn decimal_digits(n: nat) -> Seq<char>
    decreases n,
{
    if n < 10 {
        seq![(('0' as int) + n) as char]
    } else {
        decimal_digits(n / 10).push((('0' as int) + n % 10) as char)
    }
}

/// The digit character of `d`, below ten.
fn digit_char(d: u64) -> (c: char)
    requires
        d < 10,
    ensures
        c == (('0' as int) + d) as char,
{
    match d {
        0 => '0',
        1 => '1',
        2 => '2',
        3 => '3',
        4 => '4',
        5 => '5',
        6 => '6',
        7 => '7',
        8 => '8',
        _ => '9',
    }
}

/// Appends the decimal digits of `n` to `out`.
fn push_decimal(n: u64, out: &mut String)
    ensures
        final(out)@ == old(out)@ + decimal_digits(n as nat),
    decreases n,
{
    if n >= 10 {
        push_decimal(n / 10, out);
    }
    push_char(out, digit_char(n % 10));
    assert(n < 10 ==> decimal_digits(n as nat) =~= seq![(('0' as int) + n) as char]);
}

/// `n` written in decimal.
pub(crate) fn decimal(n: u64) -> (r: String)
    ensures
        r@ == decimal_digits(n as nat),
{
    let mut out = String::new();
    push_decimal(n, &mut out);
    assert(out@ =~= decimal_digits(n as nat));
    out
}


/// `value` preceded by spaces up to `width` characters.
pub open spec fn padded_left(value: Seq<char>, width: nat) -> Seq<char> {
    if value.len() >= width {
        value
    } else {
        Seq::new((width - value.len()) as nat, |i: int| ' ') + value
    }
}

/// `value` preceded by spaces up to `width` characters, as `{:>width}`
/// formats it.
pub fn pad_left(value: &str, width: usize) -> (r: String)
    ensures
        r@ == padded_left(value@, width as nat),
{
    let n = value.unicode_len();
    let mut out = String::new();
    if n < width {
        let mut i: usize = 0;
        while i < width - n
            invariant
                n < width,
                i <= width - n,
                out@ == Seq::new(i as nat, |k: int| ' '),
            decreases width - n - i,
        {
            push_char(&mut out, ' ');
            i = i + 1;
            assert(out@ =~= Seq::new(i as nat, |k: int| ' '));
        }
    }
    out.append(value);
    out
}

/// `value` followed by spaces up to `width` characters, as `{:<width}`
/// formats it.
pub open spec fn padded_right(value: Seq<char>, width: nat) -> Seq<char> {
    if value.len() >= width {
        value
    } else {
        value + Seq::new((width - value.len()) as nat, |i: int| ' ')
    }
}

/// `value` followed by spaces up to `width` characters.
pub fn pad_right(value: &str, width: usize) -> (r: String)
    ensures
        r@ == padded_right(value@, width as nat),
{
    let n = value.unicode_len();
    let mut out = String::from_str(value);
    if n < width {
        let mut i: usize = 0;
        while i < width - n
            invariant
                n < width,
                i <= width - n,
                out@ == value@ + Seq::new(i as nat, |k: int| ' '),
            decreases width - n - i,
        {
            push_char(&mut out, ' ');
            i = i + 1;
            assert(out@ =~= value@ + Seq::new(i as nat, |k: int| ' '));
        }
    }
    out
}

/// The characters of `s`, in order.
pub fn chars_of(s: &str) -> (r: Vec<char>)
    ensures
        r@ == s@,
{
    let n = s.unicode_len();
    let mut out: Vec<char> = Vec::new();
    let mut i: usize = 0;
    while i < n
        invariant
            n == s@.len(),
            i <= n,
            out@ == s@.subrange(0, i as int),
        decreases n - i,
    {
        let c = s.get_char(i);
        out.push(c);
        i = i + 1;
        assert(out@ =~= s@.subrange(0, i as int));
    }
    assert(s@.subrange(0, n as int) =~= s@);
    out
}

/// Appends the characters of `chars` to `s`.
pub fn append_chars(s: &mut String, chars: &Vec<char>)
    ensures
        final(s)@ == old(s)@ + chars@,
{
    let ghost start = s@;
    let mut i: usize = 0;
    while i < chars.len()
        invariant
            i <= chars.len(),
            s@ == start + chars@.subrange(0, i as int),
        decreases chars.len() - i,
    {
        push_char(s, chars[i]);
        i = i + 1;
        assert(s@ =~= start + chars@.subrange(0, i as int));
    }
    assert(chars@.subrange(0, chars.len() as int) =~= chars@);
}

/// A string holding exactly `chars`.
pub fn string_of(chars: &Vec<char>) -> (r: String)
    ensures
        r@ == chars@,
{
    let mut s = String::new();
    append_chars(&mut s, chars);
    assert(s@ =~= chars@);
    s
}

/// `value` cut to at most `max` characters, an ellipsis marking the cut.
pub open spec fn truncated(value: Seq<char>, max: nat) -> Seq<char> {
    if value.len() <= max {
        value
    } else if max == 0 {
        Seq::<char>::empty()
    } else if max == 1 {
        seq!['…']
    } else {
        value.take(max - 1).push('…')
    }
}

/// Cuts `value` to at most `max` characters; a cut string ends in "…".
pub fn truncate_chars(value: &str, max: usize) -> (r: String)
    ensures
        r@ == truncated(value@, max as nat),
        r@.len() <= max,
{
    proof {
        reveal_strlit("…");
    }
    let count = value.unicode_len();
    if count <= max {
        return String::from_str(value);
    }
    if max == 0 {
        return String::new();
    }
    if max == 1 {
        let r = String::from_str("…");
        assert(r@ =~= seq!['…']);
        return r;
    }
    let mut result = String::from_str(value.substring_char(0, max - 1));
    result.append("…");
    assert(result@ =~= value@.take(max - 1).push('…'));
    result
}

/// `value` cut to at most `max` characters, "..." marking the cut.
pub open spec fn shortened(value: Seq<char>, max: nat) -> Seq<char> {
    if value.len() <= max {
        value
    } else if max <= 3 {
        Seq::new(max, |i: int| '.')
    } else {
        value.take(max - 3) + seq!['.', '.', '.']
    }
}

/// Cuts a source path or URL to at most `max_chars` characters, on
/// A shortened path never exceeds `max` characters; when it had to be
/// cut it is exactly `max` long, keeps the start of the path whole
/// characters at a time, and ends in "..." (given room for it).
pub proof fn lemma_shortened_fits(value: Seq<char>, max: nat)
    ensures
        value.len() <= max ==> shortened(value, max) == value,
        value.len() > max ==> shortened(value, max).len() == max,
        value.len() > max && max > 3 ==> shortened(value, max).take(max - 3) == value.take(max - 3)
            && shortened(value, max).subrange(max - 3, max as int) == seq!['.', '.', '.'],
{
    if value.len() > max && max > 3 {
        assert(shortened(value, max).take(max - 3) =~= value.take(max - 3));
        assert(shortened(value, max).subrange(max - 3, max as int) =~= seq!['.', '.', '.']);
    }
}

/// character boundaries; a cut string ends in "...".
pub fn shorten_source(value: &str, max_chars: usize) -> (r: String)
    ensures
        r@ == shortened(value@, max_chars as nat),
{
    proof {
        reveal_strlit("...");
        reveal_strlit(".");
    }
    let count = value.unicode_len();
    if count <= max_chars {
        return String::from_str(value);
    }
    if max_chars <= 3 {
        let mut dots = String::new();
        let mut i: usize = 0;
        while i < max_chars
            invariant
                i <= max_chars,
                dots@ == Seq::new(i as nat, |k: int| '.'),
            decreases max_chars - i,
        {
            proof {
                reveal_strlit(".");
            }
            dots.append(".");
            i = i + 1;
            assert(dots@ =~= Seq::new(i as nat, |k: int| '.'));
        }
        return dots;
    }
    let visible_chars = max_chars - 3;
    let mut result = String::from_str(value.substring_char(0, visible_chars));
    result.append("...");
    assert(result@ =~= value@.take(visible_chars as int) + seq!['.', '.', '.']);
    result
}

/// The on/off word shown for a setting.
pub open spec fn enabled_word(value: bool) -> Seq<char> {
    if value {
        seq!['开', '启']
    } else {
        seq!['关', '闭']
    }
}

/// "开启" when `value` holds, "关闭" otherwise.
pub fn enabled(value: bool) -> (r: &'static str)
    ensures
        r@ == enabled_word(value),
{
    proof {
        reveal_strlit("开启");
        reveal_strlit("关闭");
    }
    if value {
        "开启"
    } else {
        "关闭"
    }
}

/// `value` with every non-alphanumeric character dropped and the rest
/// lower-cased character by character.
pub open spec fn normalized(value: Seq<char>) -> Seq<char>
    decreases value.len(),
{
    if value.len() == 0 {
        Seq::<char>::empty()
    } else {
        let rest = normalized(value.drop_last());
        if alphanumeric(value.last()) {
            rest + lowercase_char(value.last())
        } else {
            rest
        }
    }
}

/// Keeps the alphanumeric characters of `value`, lower-cased.
pub fn normalize(value: &str) -> (r: String)
    ensures
        r@ == normalized(value@),
{
    let n = value.unicode_len();
    let mut out = String::new();
    let mut i: usize = 0;
    while i < n
        invariant
            n == value@.len(),
            i <= n,
            out@ == normalized(value@.take(i as int)),
        decreases n - i,
    {
        let c = value.get_char(i);
        assert(value@.take(i + 1).drop_last() =~= value@.take(i as int));
        if is_alphanumeric(c) {
            let lower = char_to_lowercase(c);
            append_chars(&mut out, &lower);
        }
        i = i + 1;
    }
    assert(value@.take(n as int) =~= value@);
    out
}

/// `needle` occurs in `hay` as a run of consecutive characters.
pub open spec fn has_infix(hay: Seq<char>, needle: Seq<char>) -> bool {
    exists|i: int|
        0 <= i && i + needle.len() <= hay.len() && #[trigger] hay.subrange(i, i + needle.len())
            == needle
}

/// Whether `needle` occurs in `hay` at `start`.
fn matches_at(hay: &Vec<char>, needle: &Vec<char>, start: usize) -> (r: bool)
    requires
        start + needle.len() <= hay.len(),
    ensures
        r == (hay@.subrange(start as int, start + needle.len()) == needle@),
{
    let mut j: usize = 0;
    while j < needle.len()
        invariant
            start + needle.len() <= hay.len(),
            j <= needle.len(),
            forall|k: int| 0 <= k < j ==> hay@[start + k] == needle@[k],
        decreases needle.len() - j,
    {
        if hay[start + j] != needle[j] {
            assert(hay@.subrange(start as int, start + needle.len())[j as int] != needle@[j as int]);
            return false;
        }
        j = j + 1;
    }
    assert(hay@.subrange(start as int, start + needle.len()) =~= needle@);
    true
}

/// Whether `needle` occurs in `hay`.
pub fn contains_chars(hay: &Vec<char>, needle: &Vec<char>) -> (r: bool)
    ensures
        r == has_infix(hay@, needle@),
{
    if needle.len() == 0 {
        assert(hay@.subrange(0int, 0int + needle@.len()) =~= needle@);
        return true;
    }
    if needle.len() > hay.len() {
        return false;
    }
    let last = hay.len() - needle.len();
    let mut i: usize = 0;
    while i <= last
        invariant
            last == hay.len() - needle.len(),
            0 < needle.len() <= hay.len(),
            i <= last + 1,
            forall|k: int|
                0 <= k < i ==> #[trigger] hay@.subrange(k, k + needle.len()) != needle@,
        decreases last + 1 - i,
    {
        if matches_at(hay, needle, i) {
            return true;
        }
        i = i + 1;
    }
    false
}

/// Whether the string `needle` occurs in the string `hay`.
pub fn contains_str(hay: &str, needle: &str) -> (r: bool)
    ensures
        r == has_infix(hay@, needle@),
{
    let h = chars_of(hay);
    let n = chars_of(needle);
    contains_chars(&h, &n)
}

/// Drops leading whitespace.
pub open spec fn trim_start(value: Seq<char>) -> Seq<char>
    decreases value.len(),
{
    if value.len() > 0 && whitespace(value[0]) {
        trim_start(value.drop_first())
    } else {
        value
    }
}

/// Drops trailing whitespace.
pub open spec fn trim_end(value: Seq<char>) -> Seq<char>
    decreases value.len(),
{
    if value.len() > 0 && whitespace(value.last()) {
        trim_end(value.drop_last())
    } else {
        value
    }
}

/// `value` without leading and trailing whitespace.
pub open spec fn trimmed(value: Seq<char>) -> Seq<char> {
    trim_end(trim_start(value))
}

proof fn lemma_trim_start_suffix(value: Seq<char>, i: int)
    requires
        0 <= i <= value.len(),
        forall|k: int| 0 <= k < i ==> whitespace(#[trigger] value[k]),
    ensures
        trim_start(value) == trim_start(value.subrange(i, value.len() as int)),
    decreases i,
{
    if i > 0 {
        lemma_trim_start_suffix(value.drop_first(), i - 1);
        assert(value.drop_first().subrange(i - 1, value.len() - 1) =~= value.subrange(
            i,
            value.len() as int,
        ));
    } else {
        assert(value.subrange(0, value.len() as int) =~= value);
    }
}

proof fn lemma_trim_end_prefix(value: Seq<char>, j: int)
    requires
        0 <= j <= value.len(),
        forall|k: int| j <= k < value.len() ==> whitespace(#[trigger] value[k]),
    ensures
        trim_end(value) == trim_end(value.subrange(0, j)),
    decreases value.len() - j,
{
    if j < value.len() {
        lemma_trim_end_prefix(value.drop_last(), j);
        assert(value.drop_last().subrange(0, j) =~= value.subrange(0, j));
    } else {
        assert(value.subrange(0, j) =~= value);
    }
}

/// `value` without leading and trailing whitespace.
pub fn trim(value: &str) -> (r: String)
    ensures
        r@ == trimmed(value@),
{
    let chars = chars_of(value);
    let n = chars.len();
    let mut i: usize = 0;
    while i < n && is_whitespace(chars[i])
        invariant
            n == chars@.len(),
            chars@ == value@,
            i <= n,
            forall|k: int| 0 <= k < i ==> whitespace(#[trigger] chars@[k]),
        decreases n - i,
    {
        i = i + 1;
    }
    proof {
        lemma_trim_start_suffix(value@, i as int);
    }
    let ghost rest = value@.subrange(i as int, n as int);
    assert(rest.len() == 0 || !whitespace(rest[0]));
    assert(trim_start(rest) == rest);
    let mut j: usize = n;
    while j > i && is_whitespace(chars[j - 1])
        invariant
            n == chars@.len(),
            chars@ == value@,
            i <= j <= n,
            forall|k: int| j <= k < n ==> whitespace(#[trigger] chars@[k]),
        decreases j,
    {
        j = j - 1;
    }
    proof {
        lemma_trim_end_prefix(rest, j - i);
        assert(rest.subrange(0, j - i) =~= value@.subrange(i as int, j as int));
        let kept = value@.subrange(i as int, j as int);
        assert(kept.len() == 0 || !whitespace(kept.last()));
        assert(trim_end(kept) == kept);
    }
    let mut out = String::new();
    let mut k: usize = i;
    while k < j
        invariant
            n == chars@.len(),
            chars@ == value@,
            i <= k <= j <= n,
            out@ == value@.subrange(i as int, k as int),
        decreases j - k,
    {
        push_char(&mut out, chars[k]);
        k = k + 1;
        assert(out@ =~= value@.subrange(i as int, k as int));
    }
    out
}

} // verus!
