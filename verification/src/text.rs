//! Text primitives: white space, ASCII case, decimal numbers and ordering, all
//! stated over the characters of a string.

use vstd::prelude::*;
use vstd::string::*;
use vstd::utf8::{decode_utf8, valid_utf8};

verus! {

/// The characters with the Unicode `White_Space` property.
pub open spec fn is_white_space(c: char) -> bool {
    let v = c as u32;
    ||| 0x9 <= v <= 0xd
    ||| v == 0x20
    ||| v == 0x85
    ||| v == 0xa0
    ||| v == 0x1680
    ||| 0x2000 <= v <= 0x200a
    ||| v == 0x2028
    ||| v == 0x2029
    ||| v == 0x202f
    ||| v == 0x205f
    ||| v == 0x3000
}

/// `s` without its leading white space.
pub open spec fn trimmed_start(s: Seq<char>) -> Seq<char>
    decreases s.len(),
{
    if s.len() > 0 && is_white_space(s[0]) {
        trimmed_start(s.skip(1))
    } else {
        s
    }
}

/// `s` without its trailing white space.
pub open spec fn trimmed_end(s: Seq<char>) -> Seq<char>
    decreases s.len(),
{
    if s.len() > 0 && is_white_space(s.last()) {
        trimmed_end(s.drop_last())
    } else {
        s
    }
}

/// `s` without leading and trailing white space.
pub open spec fn trimmed(s: Seq<char>) -> Seq<char> {
    trimmed_end(trimmed_start(s))
}

/// Every character of `s` is white space (the empty text included).
pub open spec fn blank(s: Seq<char>) -> bool {
    forall|i: int| 0 <= i < s.len() ==> is_white_space(#[trigger] s[i])
}

/// `str::trim` removes leading and trailing white space, where white space is
/// the Unicode property `White_Space`.
pub assume_specification[ str::trim ](s: &str) -> (r: &str)
    ensures
        r@ == trimmed(s@),
;

/// `String::push` appends one character.
pub assume_specification[ String::push ](s: &mut String, c: char)
    ensures
        final(s)@ == old(s)@.push(c),
;

/// A text is blank exactly when trimming leaves nothing of it.
pub proof fn lemma_blank_iff_trimmed_empty(s: Seq<char>)
    ensures
        blank(s) <==> trimmed(s).len() == 0,
{
    lemma_trimmed_start(s);
    lemma_trimmed_end(trimmed_start(s));
    if blank(s) {
        assert(trimmed_start(s).len() == 0);
    } else {
        let t = trimmed_start(s);
        assert(t.len() > 0);
        assert(!is_white_space(t[0]));
    }
}

proof fn lemma_trimmed_start(s: Seq<char>)
    ensures
        blank(s) <==> trimmed_start(s).len() == 0,
        trimmed_start(s).len() > 0 ==> !is_white_space(trimmed_start(s)[0]),
    decreases s.len(),
{
    if s.len() > 0 && is_white_space(s[0]) {
        lemma_trimmed_start(s.skip(1));
        assert(blank(s) <==> blank(s.skip(1))) by {
            if blank(s.skip(1)) {
                assert forall|i: int| 0 <= i < s.len() implies is_white_space(#[trigger] s[i]) by {
                    if i > 0 {
                        assert(s[i] == s.skip(1)[i - 1]);
                    }
                }
            }
        }
    } else if s.len() > 0 {
        assert(!is_white_space(s[0]));
    }
}

proof fn lemma_trimmed_end(s: Seq<char>)
    ensures
        s.len() > 0 && !is_white_space(s[0]) ==> trimmed_end(s).len() > 0,
        s.len() == 0 ==> trimmed_end(s).len() == 0,
    decreases s.len(),
{
    if s.len() > 0 && is_white_space(s.last()) {
        lemma_trimmed_end(s.drop_last());
        if !is_white_space(s[0]) {
            assert(s.len() > 1);
        }
    }
}

/// Whether `text` holds nothing but white space.
pub fn is_blank(text: &str) -> (r: bool)
    ensures
        r == blank(text@),
{
    proof {
        lemma_blank_iff_trimmed_empty(text@);
    }
    text.trim().is_empty()
}

/// Whether two texts hold the same characters.
pub fn same_text(a: &str, b: &str) -> (r: bool)
    ensures
        r == (a@ == b@),
{
    a.to_owned() == b.to_owned()
}

/// The text of an optional string, absent counting as empty.
pub open spec fn text_or_empty(value: Option<String>) -> Seq<char> {
    match value {
        Some(v) => v@,
        None => Seq::empty(),
    }
}

/// The characters of an optional string.
pub open spec fn optional_view(value: Option<String>) -> Option<Seq<char>> {
    match value {
        Some(text) => Some(text@),
        None => None,
    }
}

/// The characters of an optional borrowed text.
pub open spec fn borrowed_view(value: Option<&str>) -> Option<Seq<char>> {
    match value {
        Some(text) => Some(text@),
        None => None,
    }
}

/// A copy of an optional string.
pub fn copied_text(value: &Option<String>) -> (r: Option<String>)
    ensures
        r == *value,
{
    match value {
        Some(text) => Some(text.clone()),
        None => None,
    }
}

/// Borrows an optional string.
pub fn borrowed(value: &Option<String>) -> (r: Option<&str>)
    ensures
        borrowed_view(r) == optional_view(*value),
{
    match value {
        Some(text) => Some(text.as_str()),
        None => None,
    }
}

/// Borrows an optional string, an absent one as the empty text.
pub fn borrowed_or_empty(value: &Option<String>) -> (r: &str)
    ensures
        r@ == text_or_empty(*value),
{
    match value {
        Some(v) => v.as_str(),
        None => {
            proof {
                reveal_strlit("");
            }
            ""
        },
    }
}

/// The characters of a text, in order.
pub fn characters(text: &str) -> (r: Vec<char>)
    ensures
        r@ == text@,
{
    let mut out: Vec<char> = Vec::new();
    for c in it: text.chars()
        invariant
            out@ == it.seq().take(it.index() as int),
            it.seq() == text@,
    {
        out.push(c);
        proof {
            assert(it.seq().take(it.index() as int + 1) == it.seq().take(
                it.index() as int,
            ).push(c));
        }
    }
    assert(text@.take(text@.len() as int) == text@);
    out
}

/// The text made of the characters `chars[from..to]`.
pub fn text_of(chars: &Vec<char>, from: usize, to: usize) -> (r: String)
    requires
        from <= to <= chars@.len(),
    ensures
        r@ == chars@.subrange(from as int, to as int),
{
    let mut out = String::new();
    let mut i: usize = from;
    while i < to
        invariant
            from <= i <= to <= chars@.len(),
            out@ == chars@.subrange(from as int, i as int),
        decreases to - i,
    {
        out.push(chars[i]);
        proof {
            assert(chars@.subrange(from as int, i as int + 1) == chars@.subrange(
                from as int,
                i as int,
            ).push(chars@[i as int]));
        }
        i += 1;
    }
    out
}

/// Two texts, one after the other.
pub fn joined(first: &str, second: &str) -> (r: String)
    ensures
        r@ == first@ + second@,
{
    first.to_owned().concat(second)
}

/// `s` without the `c` characters at its end.
pub open spec fn without_trailing(s: Seq<char>, c: char) -> Seq<char>
    decreases s.len(),
{
    if s.len() > 0 && s.last() == c {
        without_trailing(s.drop_last(), c)
    } else {
        s
    }
}

/// Removes every `c` at the end of `text`.
pub fn strip_trailing(text: &str, c: char) -> (r: String)
    ensures
        r@ == without_trailing(text@, c),
{
    let chars = characters(text);
    let mut end: usize = chars.len();
    proof {
        assert(chars@.take(end as int) == text@);
    }
    while end > 0 && chars[end - 1] == c
        invariant
            end <= chars@.len(),
            without_trailing(chars@.take(end as int), c) == without_trailing(text@, c),
        decreases end,
    {
        proof {
            assert(chars@.take(end as int).drop_last() == chars@.take(end as int - 1));
        }
        end -= 1;
    }
    proof {
        assert(chars@.subrange(0, end as int) == chars@.take(end as int));
        if end > 0 {
            assert(chars@.take(end as int).last() == chars@[end as int - 1]);
        }
    }
    text_of(&chars, 0, end)
}

/// `s` begins with `prefix`.
pub open spec fn starts_with(s: Seq<char>, prefix: Seq<char>) -> bool {
    prefix.len() <= s.len() && s.take(prefix.len() as int) == prefix
}

/// What follows `prefix` in `text`, where `text` begins with it.
pub fn after_prefix(text: &str, prefix: &str) -> (r: Option<String>)
    ensures
        r is Some <==> starts_with(text@, prefix@),
        r matches Some(rest) ==> rest@ == text@.skip(prefix@.len() as int),
{
    let chars = characters(text);
    let wanted = characters(prefix);
    if wanted.len() > chars.len() {
        return None;
    }
    let head = text_of(&chars, 0, wanted.len());
    proof {
        assert(chars@.subrange(0, wanted@.len() as int) == text@.take(prefix@.len() as int));
    }
    if same_text(head.as_str(), prefix) {
        let rest = text_of(&chars, wanted.len(), chars.len());
        proof {
            assert(rest@ == text@.skip(prefix@.len() as int));
        }
        Some(rest)
    } else {
        None
    }
}

/// Whether `c` occurs in `text`.
pub fn has_char(text: &str, c: char) -> (r: bool)
    ensures
        r == text@.contains(c),
{
    let chars = characters(text);
    let mut i: usize = 0;
    while i < chars.len()
        invariant
            chars@ == text@,
            i <= chars@.len(),
            forall|j: int| 0 <= j < i ==> chars@[j] != c,
        decreases chars@.len() - i,
    {
        if chars[i] == c {
            proof {
                assert(text@[i as int] == c);
            }
            return true;
        }
        i += 1;
    }
    false
}

/// The lower-case form of an ASCII letter; any other character as it is.
pub open spec fn ascii_lower(c: char) -> char {
    if 'A' <= c <= 'Z' {
        ((c as u32 + 32) as u32) as char
    } else {
        c
    }
}

/// `s` with every ASCII letter in lower case.
pub open spec fn lowercased(s: Seq<char>) -> Seq<char> {
    Seq::new(s.len(), |i: int| ascii_lower(s[i]))
}

/// The lower-case form of one character.
pub fn lower_char(c: char) -> (r: char)
    ensures
        r == ascii_lower(c),
{
    if 'A' <= c && c <= 'Z' {
        ((c as u8) + 32) as char
    } else {
        c
    }
}

/// `text` with its ASCII letters in lower case.
pub fn lowercase(text: &str) -> (r: String)
    ensures
        r@ == lowercased(text@),
{
    let chars = characters(text);
    let mut out = String::new();
    let mut i: usize = 0;
    while i < chars.len()
        invariant
            chars@ == text@,
            i <= chars@.len(),
            out@ == lowercased(text@).take(i as int),
        decreases chars@.len() - i,
    {
        out.push(lower_char(chars[i]));
        proof {
            assert(lowercased(text@).take(i as int + 1) == lowercased(text@).take(i as int).push(
                lowercased(text@)[i as int],
            ));
        }
        i += 1;
    }
    proof {
        assert(lowercased(text@).take(text@.len() as int) == lowercased(text@));
    }
    out
}

/// The character of a decimal digit.
pub open spec fn digit_char(d: nat) -> char {
    ((48 + d) as u32) as char
}

/// The text that bytes stand for, where those that are no text are replaced.
pub uninterp spec fn lossy_text(bytes: Seq<u8>) -> Seq<char>;

/// `String::from_utf8_lossy` reads bytes as UTF-8. Of bytes that are UTF-8 throughout the
/// text is what they encode; in others it puts the replacement character where they are
/// not.
#[verifier::external_body]
pub(crate) fn decode_lossy(bytes: &[u8]) -> (text: String)
    ensures
        text@ == lossy_text(bytes@),
        valid_utf8(bytes@) ==> text@ == decode_utf8(bytes@),
{
    String::from_utf8_lossy(bytes).into_owned()
}

/// The decimal notation of `n`, without leading zeros.
pub open spec fn decimal(n: nat) -> Seq<char>
    decreases n,
{
    if n < 10 {
        seq![digit_char(n)]
    } else {
        decimal(n / 10).push(digit_char(n % 10))
    }
}

/// The decimal notation of an integer, a minus sign before a negative one.
pub open spec fn signed_decimal(n: int) -> Seq<char> {
    if n < 0 {
        seq!['-'] + decimal((-n) as nat)
    } else {
        decimal(n as nat)
    }
}

/// Writes `n` in decimal.
pub fn decimal_text(n: u128) -> (r: String)
    ensures
        r@ == decimal(n as nat),
    decreases n,
{
    let digit: u8 = (n % 10) as u8;
    let c: char = (48 + digit) as char;
    if n < 10 {
        let mut out = String::new();
        out.push(c);
        proof {
            assert(out@ =~= seq![digit_char(n as nat)]);
        }
        out
    } else {
        let mut out = decimal_text(n / 10);
        out.push(c);
        out
    }
}

/// Writes a signed number in decimal.
pub fn signed_decimal_text(n: i64) -> (r: String)
    ensures
        r@ == signed_decimal(n as int),
{
    if n < 0 {
        let magnitude: u128 = (-(n as i128)) as u128;
        let mut out = String::new();
        out.push('-');
        let digits = decimal_text(magnitude);
        proof {
            assert(out@ =~= seq!['-']);
        }
        out.concat(digits.as_str())
    } else {
        decimal_text(n as u128)
    }
}

/// `c` is one of the ten decimal digits.
pub open spec fn is_digit(c: char) -> bool {
    '0' <= c <= '9'
}

/// The number that a run of decimal digits denotes.
pub open spec fn digits_value(s: Seq<char>) -> nat
    decreases s.len(),
{
    if s.len() == 0 {
        0
    } else {
        (digits_value(s.drop_last()) * 10 + (s.last() as u32 - 48)) as nat
    }
}

/// `s` is one or more decimal digits.
pub open spec fn all_digits(s: Seq<char>) -> bool {
    s.len() > 0 && forall|i: int| 0 <= i < s.len() ==> is_digit(#[trigger] s[i])
}

/// What `s` denotes as an unsigned 64-bit number: digits, with at most one plus
/// sign before them, and no value beyond the type's range.
pub open spec fn unsigned_value(s: Seq<char>) -> Option<u64> {
    let digits = if s.len() > 0 && s[0] == '+' {
        s.skip(1)
    } else {
        s
    };
    if all_digits(digits) && digits_value(digits) <= u64::MAX {
        Some(digits_value(digits) as u64)
    } else {
        None
    }
}

proof fn lemma_digits_value_grows(s: Seq<char>, k: int)
    requires
        0 <= k <= s.len(),
        forall|i: int| 0 <= i < s.len() ==> is_digit(#[trigger] s[i]),
    ensures
        digits_value(s.take(k)) <= digits_value(s),
    decreases s.len() - k,
{
    if k == s.len() {
        assert(s.take(k) == s);
    } else {
        lemma_digits_value_grows(s, k + 1);
        assert(s.take(k + 1).drop_last() == s.take(k));
        assert(s.take(k + 1).last() == s[k]);
        assert(is_digit(s[k]));
    }
}

/// Reads an unsigned 64-bit number in decimal notation.
pub fn parse_unsigned(text: &str) -> (r: Option<u64>)
    ensures
        r == unsigned_value(text@),
{
    let chars = characters(text);
    let start: usize = if chars.len() > 0 && chars[0] == '+' {
        1
    } else {
        0
    };
    let ghost digits = text@.skip(start as int);
    proof {
        assert(start == 0 ==> digits == text@);
    }
    if start >= chars.len() {
        return None;
    }
    let mut value: u64 = 0;
    let mut i: usize = start;
    proof {
        assert(digits.take(0) == Seq::<char>::empty());
    }
    while i < chars.len()
        invariant
            chars@ == text@,
            start <= i <= chars@.len(),
            start < chars@.len(),
            digits == text@.skip(start as int),
            start == 1 <==> text@[0] == '+',
            start <= 1,
            start == 0 ==> digits == text@,
            forall|j: int| 0 <= j < i - start ==> is_digit(#[trigger] digits[j]),
            value == digits_value(digits.take(i - start)),
        decreases chars@.len() - i,
    {
        let c = chars[i];
        proof {
            assert(digits[i - start] == c);
            assert(digits.take(i - start + 1).drop_last() == digits.take(i - start));
            assert(digits.take(i - start + 1).last() == c);
        }
        if !('0' <= c && c <= '9') {
            proof {
                assert(!is_digit(digits[i - start]));
            }
            return None;
        }
        let d: u64 = ((c as u8) - 48) as u64;
        if value > 1844674407370955161 || (value == 1844674407370955161 && d > 5) {
            proof {
                if all_digits(digits) {
                    lemma_digits_value_grows(digits, i - start + 1);
                }
            }
            return None;
        }
        value = value * 10 + d;
        i += 1;
    }
    proof {
        assert(digits.take(digits.len() as int) == digits);
    }
    Some(value)
}

/// `a` comes before `b` in the order of their characters, a proper prefix
/// before what it begins.
pub open spec fn precedes(a: Seq<char>, b: Seq<char>) -> bool
    decreases a.len(),
{
    if b.len() == 0 {
        false
    } else if a.len() == 0 {
        true
    } else if a[0] != b[0] {
        a[0] < b[0]
    } else {
        precedes(a.skip(1), b.skip(1))
    }
}

/// Whether `a` comes before `b`.
pub fn text_precedes(a: &str, b: &str) -> (r: bool)
    ensures
        r == precedes(a@, b@),
{
    let x = characters(a);
    let y = characters(b);
    let mut i: usize = 0;
    proof {
        assert(x@.skip(0) == a@);
        assert(y@.skip(0) == b@);
    }
    while i < x.len() && i < y.len() && x[i] == y[i]
        invariant
            i <= x@.len(),
            i <= y@.len(),
            precedes(a@, b@) == precedes(x@.skip(i as int), y@.skip(i as int)),
        decreases x@.len() - i,
    {
        proof {
            assert(x@.skip(i as int).skip(1) == x@.skip(i as int + 1));
            assert(y@.skip(i as int).skip(1) == y@.skip(i as int + 1));
        }
        i += 1;
    }
    if i >= y.len() {
        false
    } else if i >= x.len() {
        true
    } else {
        x[i] < y[i]
    }
}

/// The order of texts is strict: nothing precedes itself, and of two texts at
/// most one precedes the other.
pub proof fn lemma_precedes_strict(a: Seq<char>, b: Seq<char>)
    ensures
        !precedes(a, a),
        !(precedes(a, b) && precedes(b, a)),
    decreases a.len(),
{
    if a.len() > 0 {
        if b.len() > 0 {
            lemma_precedes_strict(a.skip(1), b.skip(1));
        } else {
            lemma_precedes_strict(a.skip(1), b);
        }
    }
}

/// Of two different texts one precedes the other.
pub proof fn lemma_precedes_total(a: Seq<char>, b: Seq<char>)
    ensures
        a == b || precedes(a, b) || precedes(b, a),
    decreases a.len(),
{
    if a.len() > 0 && b.len() > 0 && a[0] == b[0] {
        lemma_precedes_total(a.skip(1), b.skip(1));
        if a.skip(1) == b.skip(1) {
            assert(a == seq![a[0]] + a.skip(1));
            assert(b == seq![b[0]] + b.skip(1));
        }
    } else if a.len() == 0 && b.len() == 0 {
        assert(a == b);
    }
}

/// The order of texts is transitive.
pub proof fn lemma_precedes_transitive(a: Seq<char>, b: Seq<char>, c: Seq<char>)
    requires
        precedes(a, b),
        precedes(b, c),
    ensures
        precedes(a, c),
    decreases a.len(),
{
    if a.len() > 0 && a[0] == b[0] && b[0] == c[0] {
        lemma_precedes_transitive(a.skip(1), b.skip(1), c.skip(1));
    }
}

/// Trimming takes white space off both ends, all of it and nothing else: what is left begins
/// and ends with something else, and what was taken off is blank.
pub proof fn law_trimming_takes_off_white_space_only(s: Seq<char>) -> (ends: (int, int))
    ensures
        0 <= ends.0 <= ends.1 <= s.len(),
        trimmed(s) == s.subrange(ends.0, ends.1),
        forall|i: int| 0 <= i < ends.0 ==> is_white_space(#[trigger] s[i]),
        forall|i: int| ends.1 <= i < s.len() ==> is_white_space(#[trigger] s[i]),
        ends.0 < ends.1 ==> !is_white_space(s[ends.0]) && !is_white_space(s[ends.1 - 1]),
{
    let from = lemma_trimmed_start_is_suffix(s);
    let t = trimmed_start(s);
    let to = lemma_trimmed_end_is_prefix(t);
    lemma_trimmed_start(s);
    assert(trimmed(s) =~= s.subrange(from, from + to));
    assert forall|i: int| from + to <= i < s.len() implies is_white_space(#[trigger] s[i]) by {
        assert(s[i] == t[i - from]);
    }
    if to > 0 {
        assert(s[from] == t[0]);
        assert(s[from + to - 1] == t[to - 1]);
    }
    (from, from + to)
}

proof fn lemma_trimmed_start_is_suffix(s: Seq<char>) -> (from: int)
    ensures
        0 <= from <= s.len(),
        trimmed_start(s) == s.skip(from),
        forall|i: int| 0 <= i < from ==> is_white_space(#[trigger] s[i]),
    decreases s.len(),
{
    if s.len() > 0 && is_white_space(s[0]) {
        let rest = lemma_trimmed_start_is_suffix(s.skip(1));
        assert(s.skip(1).skip(rest) =~= s.skip(rest + 1));
        assert forall|i: int| 0 <= i < rest + 1 implies is_white_space(#[trigger] s[i]) by {
            if i > 0 {
                assert(s[i] == s.skip(1)[i - 1]);
            }
        }
        rest + 1
    } else {
        assert(s.skip(0) =~= s);
        0
    }
}

proof fn lemma_trimmed_end_is_prefix(s: Seq<char>) -> (to: int)
    ensures
        0 <= to <= s.len(),
        trimmed_end(s) == s.take(to),
        to > 0 ==> !is_white_space(s[to - 1]),
        forall|i: int| to <= i < s.len() ==> is_white_space(#[trigger] s[i]),
    decreases s.len(),
{
    if s.len() > 0 && is_white_space(s.last()) {
        let to = lemma_trimmed_end_is_prefix(s.drop_last());
        assert(s.drop_last().take(to) =~= s.take(to));
        assert forall|i: int| to <= i < s.len() implies is_white_space(#[trigger] s[i]) by {
            if i < s.len() - 1 {
                assert(s[i] == s.drop_last()[i]);
            }
        }
        to
    } else {
        assert(s.take(s.len() as int) =~= s);
        s.len() as int
    }
}

/// An optional text is seen as it is, and an absent one as the empty text where one is needed.
pub proof fn law_optional_texts_are_seen_as_they_are(value: Option<String>, lent: Option<&str>)
    ensures
        value matches Some(text) ==> text_or_empty(value) == text@ && optional_view(value) == Some(
            text@,
        ),
        value is None ==> text_or_empty(value).len() == 0 && optional_view(value) is None,
        lent matches Some(text) ==> borrowed_view(lent) == Some(text@),
        lent is None ==> borrowed_view(lent) is None,
{
}

/// Taking a character off the end of a text takes off all of them there and nothing else.
pub proof fn law_only_trailing_characters_are_taken_off(s: Seq<char>, c: char) -> (kept: int)
    ensures
        0 <= kept <= s.len(),
        without_trailing(s, c) == s.take(kept),
        kept > 0 ==> s[kept - 1] != c,
        forall|i: int| kept <= i < s.len() ==> #[trigger] s[i] == c,
    decreases s.len(),
{
    if s.len() > 0 && s.last() == c {
        let kept = law_only_trailing_characters_are_taken_off(s.drop_last(), c);
        assert(s.drop_last().take(kept) =~= s.take(kept));
        assert forall|i: int| kept <= i < s.len() implies #[trigger] s[i] == c by {
            if i < s.len() - 1 {
                assert(s[i] == s.drop_last()[i]);
            }
        }
        kept
    } else {
        assert(s.take(s.len() as int) =~= s);
        s.len() as int
    }
}

/// A text begins with a prefix exactly where it is that prefix and something more, and what
/// is found behind the prefix is that.
pub proof fn law_prefix_and_rest_make_the_text(text: &str, prefix: &str, r: Option<String>)
    requires
        call_ensures(after_prefix, (text, prefix), r),
    ensures
        r matches Some(rest) ==> text@ == prefix@ + rest@,
        forall|rest: Seq<char>| text@ == #[trigger] (prefix@ + rest) ==> r is Some,
        starts_with(text@, prefix@) <==> r is Some,
{
    if let Some(rest) = r {
        assert(text@ =~= text@.take(prefix@.len() as int) + text@.skip(prefix@.len() as int));
    }
    assert forall|rest: Seq<char>| text@ == #[trigger] (prefix@ + rest) implies r is Some by {
        assert(text@.take(prefix@.len() as int) =~= prefix@);
    }
}

/// Lower case changes the letters from A to Z into those from a to z, each by the same
/// distance, and leaves every other character as it is.
pub proof fn law_lower_case_changes_capitals_only(s: Seq<char>, i: int)
    requires
        0 <= i < s.len(),
    ensures
        lowercased(s).len() == s.len(),
        65 <= s[i] as u32 <= 90 ==> lowercased(s)[i] as u32 == s[i] as u32 + 32,
        !(65 <= s[i] as u32 <= 90) ==> lowercased(s)[i] == s[i],
        lowercased(lowercased(s)) == lowercased(s),
{
    assert(lowercased(lowercased(s)) =~= lowercased(s));
}

/// The decimal notation of a number ends in its last digit, and before that comes the
/// notation of its tenth part, where there is any. Read again, it is the number.
pub proof fn law_decimal_notation_is_read_back(n: nat)
    ensures
        decimal(n).len() > 0,
        decimal(n).last() as u32 == 48 + n % 10,
        n >= 10 ==> decimal(n).drop_last() == decimal(n / 10),
        n < 10 ==> decimal(n).len() == 1,
        forall|i: int| 0 <= i < decimal(n).len() ==> 48 <= #[trigger] decimal(n)[i] as u32 <= 57,
        n >= 10 ==> decimal(n)[0] != '0',
        n <= u64::MAX ==> unsigned_value(decimal(n)) == Some(n as u64),
    decreases n,
{
    lemma_digits_of_decimal(n);
    assert(decimal(n)[0] != '+');
    if n >= 10 {
        law_decimal_notation_is_read_back(n / 10);
        assert(decimal(n).drop_last() =~= decimal(n / 10));
        if n / 10 < 10 {
            assert(decimal(n)[0] == decimal(n / 10)[0]);
            assert(decimal(n / 10)[0] as u32 == 48 + n / 10);
        } else {
            assert(decimal(n)[0] == decimal(n / 10)[0]);
        }
    }
}

proof fn lemma_digits_of_decimal(n: nat)
    ensures
        decimal(n).len() > 0,
        all_digits(decimal(n)),
        digits_value(decimal(n)) == n,
    decreases n,
{
    if n >= 10 {
        lemma_digits_of_decimal(n / 10);
        let front = decimal(n / 10);
        assert(decimal(n).drop_last() =~= front);
        assert forall|i: int| 0 <= i < decimal(n).len() implies is_digit(
            #[trigger] decimal(n)[i],
        ) by {
            if i < front.len() {
                assert(decimal(n)[i] == front[i]);
            }
        }
    } else {
        assert(decimal(n).drop_last() =~= Seq::<char>::empty());
        assert(digits_value(Seq::<char>::empty()) == 0);
    }
}

/// One more digit behind a number that was read makes ten times that number and the digit,
/// where that is in range; anything else behind it makes it no number.
pub proof fn law_each_digit_counts_ten_times_the_next(
    front: &str,
    text: &str,
    c: char,
    value: u64,
    r: Option<u64>,
)
    requires
        call_ensures(parse_unsigned, (front,), Some(value)),
        call_ensures(parse_unsigned, (text,), r),
        text@ == front@.push(c),
    ensures
        48 <= c as u32 <= 57 && 10 * value + (c as u32 - 48) <= u64::MAX ==> r == Some(
            (10 * value + (c as u32 - 48)) as u64,
        ),
        48 <= c as u32 <= 57 && 10 * value + (c as u32 - 48) > u64::MAX ==> r is None,
        !(48 <= c as u32 <= 57) ==> r is None,
{
    let digits = |s: Seq<char>|
        if s.len() > 0 && s[0] == '+' {
            s.skip(1)
        } else {
            s
        };
    let short = digits(front@);
    let long = digits(text@);
    assert(text@[0] == front@[0]);
    assert(long =~= short.push(c));
    assert(long.drop_last() =~= short);
    assert(long.last() == c);
    if 48 <= c as u32 <= 57 {
        assert forall|i: int| 0 <= i < long.len() implies is_digit(#[trigger] long[i]) by {
            if i < short.len() {
                assert(long[i] == short[i]);
            }
        }
    } else {
        assert(!is_digit(long[long.len() - 1]));
    }
}

/// A single digit is read as its value.
pub proof fn law_single_digit_is_its_value(text: &str, c: char, r: Option<u64>)
    requires
        call_ensures(parse_unsigned, (text,), r),
        text@ == seq![c],
    ensures
        48 <= c as u32 <= 57 ==> r == Some((c as u32 - 48) as u64),
        !(48 <= c as u32 <= 57) ==> r is None,
{
    assert(text@.drop_last() =~= Seq::<char>::empty());
    assert(digits_value(text@.drop_last()) == 0);
    assert(text@.last() == c);
    if !(48 <= c as u32 <= 57) {
        assert(!is_digit(text@[0]));
        assert(text@.skip(1).len() == 0);
    }
}

/// One text comes before another where, behind what they have in common, it ends first or
/// goes on with the smaller character.
pub proof fn law_order_is_by_the_first_difference(a: Seq<char>, b: Seq<char>, common: int)
    requires
        0 <= common <= a.len(),
        common <= b.len(),
        a.take(common) == b.take(common),
        common == a.len() || common == b.len() || a[common] != b[common],
    ensures
        precedes(a, b) <==> (common < b.len() && (common == a.len() || a[common]
            < b[common])),
    decreases common,
{
    if common > 0 {
        assert(a[0] == a.take(common)[0]);
        assert(b[0] == b.take(common)[0]);
        assert(a.skip(1).take(common - 1) =~= a.take(common).skip(1));
        assert(b.skip(1).take(common - 1) =~= b.take(common).skip(1));
        if common < a.len() {
            assert(a.skip(1)[common - 1] == a[common]);
        }
        if common < b.len() {
            assert(b.skip(1)[common - 1] == b[common]);
        }
        law_order_is_by_the_first_difference(a.skip(1), b.skip(1), common - 1);
        assert(precedes(a, b) == precedes(a.skip(1), b.skip(1)));
    }
}

/// What is no number does not become one by a character behind it, but for nothing at all and
/// for a plus sign alone. Nothing at all and a plus sign alone are no numbers.
pub proof fn law_no_number_goes_on_as_none(
    front: &str,
    text: &str,
    c: char,
    short: Option<u64>,
    r: Option<u64>,
)
    requires
        call_ensures(parse_unsigned, (front,), short),
        call_ensures(parse_unsigned, (text,), r),
        text@ == front@.push(c),
    ensures
        front@.len() == 0 ==> short is None,
        front@ == seq!['+'] ==> short is None,
        front@.len() > 0 && front@ != seq!['+'] && short is None ==> r is None,
{
    if front@ == seq!['+'] {
        assert(front@.skip(1).len() == 0);
    }
    if front@.len() > 0 && front@ != seq!['+'] {
        assert(text@[0] == front@[0]);
        let before = if front@[0] == '+' {
            front@.skip(1)
        } else {
            front@
        };
        let after = if text@[0] == '+' {
            text@.skip(1)
        } else {
            text@
        };
        assert(after =~= before.push(c));
        if before.len() == 0 {
            assert(front@ =~= seq!['+']);
        }
        if all_digits(after) {
            assert forall|i: int| 0 <= i < before.len() implies is_digit(#[trigger] before[i]) by {
                assert(before[i] == after[i]);
            }
            lemma_digits_value_grows(after, before.len() as int);
            assert(after.take(before.len() as int) =~= before);
        }
    }
}

/// One plus sign before a number changes nothing, and a second one makes it no number.
pub proof fn law_plus_sign_changes_nothing(
    rest: &str,
    text: &str,
    plain: Option<u64>,
    r: Option<u64>,
)
    requires
        call_ensures(parse_unsigned, (rest,), plain),
        call_ensures(parse_unsigned, (text,), r),
        text@ == seq!['+'] + rest@,
    ensures
        rest@.len() > 0 && rest@[0] == '+' ==> r is None,
        !(rest@.len() > 0 && rest@[0] == '+') ==> r == plain,
{
    assert(text@.skip(1) =~= rest@);
    if rest@.len() > 0 && rest@[0] == '+' {
        assert(!is_digit(rest@[0]));
    }
}

/// A negative number is written as a minus sign and the number without it.
pub proof fn law_negative_numbers_have_a_minus_sign(n: i64, r: String)
    requires
        call_ensures(signed_decimal_text, (n,), r),
    ensures
        n >= 0 ==> r@ == decimal(n as nat),
        n < 0 ==> r@ == seq!['-'] + decimal((-n) as nat),
{
}

} // verus!
