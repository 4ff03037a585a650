use vstd::prelude::*;
use vstd::string::StrSliceExecFns;

verus! {

/// The lowercase hex digest that the `md5` crate computes for a string's
/// bytes. The digest itself is far too complex to state; only facts that the
/// crate documents (32 lowercase hex characters) are stated at the wrapper.
pub uninterp spec fn md5_hex_of(s: Seq<char>) -> Seq<char>;

pub open spec fn is_lower_hex_digit(c: char) -> bool {
    ('0' <= c && c <= '9') || ('a' <= c && c <= 'f')
}

/// Relies on md5::compute and lowercase hex formatting: the digest of a
/// string's bytes is 16 bytes, printed as 32 lowercase hex characters, and
/// depends on the input characters alone.
#[verifier::external_body]
pub fn md5_hex(data: &str) -> (r: String)
    ensures
        r@ == md5_hex_of(data@),
        r@.len() == 32,
        forall|i: int| 0 <= i < r@.len() ==> is_lower_hex_digit(#[trigger] r@[i]),
{
    format!("{:x}", md5::compute(data))
}

/// Relies on String::push: appends one character.
#[verifier::external_body]
pub fn push_char(s: &mut String, c: char)
    ensures
        final(s)@ == old(s)@.push(c),
{
    s.push(c);
}

/// Collects the characters of a string slice into a vector.
pub fn chars_of(s: &str) -> (v: Vec<char>)
    ensures
        v@ == s@,
{
    let n = s.unicode_len();
    let mut v: Vec<char> = Vec::new();
    let mut i: usize = 0;
    while i < n
        invariant
            n == s@.len(),
            i <= n,
            v@ == s@.subrange(0, i as int),
        decreases n - i,
    {
        v.push(s.get_char(i));
        i += 1;
        assert(v@ =~= s@.subrange(0, i as int));
    }
    assert(v@ =~= s@);
    v
}

/// Builds a string from a vector of characters.
pub fn string_from_chars(v: &Vec<char>) -> (s: String)
    ensures
        s@ == v@,
{
    let mut s = String::new();
    let mut i: usize = 0;
    while i < v.len()
        invariant
            i <= v@.len(),
            s@ == v@.subrange(0, i as int),
        decreases v@.len() - i,
    {
        push_char(&mut s, v[i]);
        i += 1;
        assert(s@ =~= v@.subrange(0, i as int));
    }
    assert(s@ =~= v@);
    s
}


/// Copies a vector of strings, keeping every element's text.
pub fn clone_string_vec(v: &Vec<String>) -> (r: Vec<String>)
    ensures
        r@ == v@,
{
    let mut r: Vec<String> = Vec::new();
    let n = v.len();
    let mut i: usize = 0;
    while i < n
        invariant
            n == v@.len(),
            i <= n,
            r@ == v@.subrange(0, i as int),
        decreases n - i,
    {
        r.push(v[i].clone());
        i += 1;
        assert(r@ =~= v@.subrange(0, i as int));
    }
    assert(r@ =~= v@);
    r
}

pub open spec fn dec_digit_char(d: nat) -> char
    recommends
        d < 10,
{
    ((48 + d) as u8) as char
}

/// The decimal representation of a natural number, most significant digit
/// first, as written by ordinary formatting.
pub open spec fn spec_dec_chars(n: nat) -> Seq<char>
    decreases n,
{
    if n < 10 {
        seq![dec_digit_char(n)]
    } else {
        spec_dec_chars(n / 10).push(dec_digit_char(n % 10))
    }
}

/// Writes a number in decimal, most significant digit first.
pub fn u64_to_dec_chars(n: u64) -> (v: Vec<char>)
    ensures
        v@ == spec_dec_chars(n as nat),
    decreases n,
{
    if n < 10 {
        let d: u8 = (48 + n as u8);
        let mut v: Vec<char> = Vec::new();
        v.push(d as char);
        assert(v@ =~= seq![dec_digit_char(n as nat)]);
        v
    } else {
        let mut v = u64_to_dec_chars(n / 10);
        let d: u8 = 48 + (n % 10) as u8;
        v.push(d as char);
        v
    }
}

/// The decimal representation of a number as a string.
pub fn u64_to_dec_string(n: u64) -> (s: String)
    ensures
        s@ == spec_dec_chars(n as nat),
{
    let v = u64_to_dec_chars(n);
    string_from_chars(&v)
}

/// The decimal representation of a signed number: a minus sign before the
/// digits when it is negative.
pub open spec fn spec_i64_dec_chars(n: int) -> Seq<char> {
    if n < 0 {
        seq!['-'] + spec_dec_chars((-n) as nat)
    } else {
        spec_dec_chars(n as nat)
    }
}

/// The decimal representation of a signed number as a string.
pub fn i64_to_dec_string(n: i64) -> (s: String)
    ensures
        s@ == spec_i64_dec_chars(n as int),
{
    if n >= 0 {
        u64_to_dec_string(n as u64)
    } else {
        let mag: u64 = ((-(n + 1)) as u64) + 1;
        let mut v: Vec<char> = Vec::new();
        v.push('-');
        let mut digits = u64_to_dec_chars(mag);
        v.append(&mut digits);
        proof {
            assert(v@ =~= spec_i64_dec_chars(n as int));
        }
        string_from_chars(&v)
    }
}

/// The pieces laid end to end with the separator between each two.
pub open spec fn spec_join(items: Seq<Seq<char>>, sep: Seq<char>) -> Seq<char>
    decreases items.len(),
{
    if items.len() == 0 {
        Seq::empty()
    } else if items.len() == 1 {
        items[0]
    } else {
        spec_join(items.drop_last(), sep) + sep + items.last()
    }
}

/// Joins strings with a separator between each two.
pub fn join_strings(items: &Vec<String>, sep: &str) -> (r: String)
    ensures
        r@ == spec_join(items@.map_values(|s: String| s@), sep@),
{
    let ghost views = items@.map_values(|s: String| s@);
    let mut v: Vec<char> = Vec::new();
    let mut i: usize = 0;
    while i < items.len()
        invariant
            views == items@.map_values(|s: String| s@),
            i <= items@.len(),
            v@ == spec_join(views.take(i as int), sep@),
        decreases items@.len() - i,
    {
        if i > 0 {
            let mut sep_chars = chars_of(sep);
            v.append(&mut sep_chars);
        }
        let mut item_chars = chars_of(items[i].as_str());
        v.append(&mut item_chars);
        proof {
            assert(views.take(i + 1).drop_last() =~= views.take(i as int));
            assert(views.take(i + 1).last() == views[i as int]);
            if i == 0 {
                assert(v@ =~= spec_join(views.take(1), sep@));
            } else {
                assert(v@ =~= spec_join(views.take(i + 1), sep@));
            }
        }
        i += 1;
    }
    assert(views.take(items@.len() as int) =~= views);
    string_from_chars(&v)
}

pub open spec fn is_dec_digit(c: char) -> bool {
    48 <= c as u32 && c as u32 <= 57
}

pub open spec fn dec_digit_val(c: char) -> int {
    c as u32 - 48
}

/// The number written by a run of decimal digits, most significant first.
pub open spec fn spec_dec_value(s: Seq<char>) -> int
    decreases s.len(),
{
    if s.len() == 0 {
        0
    } else {
        spec_dec_value(s.drop_last()) * 10 + dec_digit_val(s.last())
    }
}

/// The run of characters after an optional leading sign.
pub open spec fn spec_sign_digits(s: Seq<char>) -> Seq<char> {
    if s.len() > 0 && (s[0] == '+' || s[0] == '-') {
        s.drop_first()
    } else {
        s
    }
}

pub open spec fn spec_is_negative(s: Seq<char>) -> bool {
    s.len() > 0 && s[0] == '-'
}

pub open spec fn all_dec_digits(s: Seq<char>) -> bool {
    forall|i: int| 0 <= i < s.len() ==> is_dec_digit(#[trigger] s[i])
}

/// How a signed 64-bit integer is read from text: an optional sign, then at
/// least one decimal digit and nothing else, rejecting values out of range.
pub open spec fn spec_parse_i64(s: Seq<char>) -> Option<i64> {
    let digits = spec_sign_digits(s);
    if digits.len() == 0 || !all_dec_digits(digits) {
        None
    } else {
        let v = if spec_is_negative(s) {
            -spec_dec_value(digits)
        } else {
            spec_dec_value(digits)
        };
        if i64::MIN <= v <= i64::MAX {
            Some(v as i64)
        } else {
            None
        }
    }
}

proof fn lemma_dec_value_nonneg(s: Seq<char>)
    requires
        forall|i: int| 0 <= i < s.len() ==> is_dec_digit(#[trigger] s[i]),
    ensures
        spec_dec_value(s) >= 0,
    decreases s.len(),
{
    if s.len() > 0 {
        lemma_dec_value_nonneg(s.drop_last());
    }
}

/// A digit run's value only grows as more digits follow.
proof fn lemma_dec_value_extends(s: Seq<char>, k: int)
    requires
        0 <= k <= s.len(),
        forall|i: int| 0 <= i < s.len() ==> is_dec_digit(#[trigger] s[i]),
    ensures
        spec_dec_value(s) >= spec_dec_value(s.take(k)),
    decreases s.len() - k,
{
    if k == s.len() {
        assert(s.take(k) =~= s);
    } else {
        let b = s.drop_last();
        assert(forall|i: int| 0 <= i < b.len() ==> is_dec_digit(#[trigger] b[i]));
        assert(b.take(k) =~= s.take(k));
        lemma_dec_value_extends(b, k);
        lemma_dec_value_nonneg(b);
    }
}

/// Reads a signed 64-bit integer from text, exactly as ordinary integer
/// parsing does: an optional sign, then only decimal digits, within range.
pub fn parse_i64(s: &str) -> (r: Option<i64>)
    ensures
        r == spec_parse_i64(s@),
{
    let chars = chars_of(s);
    let n = chars.len();
    let mut start: usize = 0;
    let mut negative = false;
    if n > 0 && (chars[0] == '+' || chars[0] == '-') {
        negative = chars[0] == '-';
        start = 1;
    }
    let ghost digits = spec_sign_digits(s@);
    assert(digits =~= chars@.skip(start as int));
    if start == n {
        return None;
    }
    let limit: u64 = if negative {
        9223372036854775808
    } else {
        9223372036854775807
    };
    let mut mag: u64 = 0;
    let mut j: usize = start;
    while j < n
        invariant
            n == chars@.len(),
            digits == chars@.skip(start as int),
            digits == spec_sign_digits(s@),
            start <= j <= n,
            mag as int == spec_dec_value(digits.take(j - start)),
            forall|i: int| 0 <= i < j - start ==> is_dec_digit(#[trigger] digits[i]),
        decreases n - j,
    {
        let cv = chars[j] as u32;
        assert(digits[j - start] == chars@[j as int]);
        if cv < 48 || cv > 57 {
            proof {
                assert(!is_dec_digit(digits[j - start]));
                assert(!all_dec_digits(digits));
            }
            return None;
        }
        let d = (cv - 48) as u64;
        let ghost taken = digits.take(j + 1 - start);
        assert(taken.drop_last() =~= digits.take(j - start));
        assert(taken.last() == digits[j - start]);
        let next = match mag.checked_mul(10) {
            Some(m) => m.checked_add(d),
            None => None,
        };
        match next {
            Some(m) => {
                mag = m;
            },
            None => {
                // the value scanned so far exceeds any 64-bit integer, and
                // further digits cannot shrink it; a later non-digit also
                // rejects the text
                assert(spec_dec_value(taken) > 9223372036854775808);
                if digits_all_dec(&chars, j + 1, n) {
                    proof {
                        assert(all_dec_digits(digits)) by {
                            assert(forall|i: int|
                                j + 1 - start <= i < digits.len() ==> digits[i] == chars@[i
                                + start as int] && is_dec_digit(#[trigger] digits[i]));
                        }
                        lemma_dec_value_extends(digits, j + 1 - start);
                    }
                    return None;
                } else {
                    proof {
                        assert(!all_dec_digits(digits)) by {
                            if all_dec_digits(digits) {
                                assert(forall|i: int|
                                    j + 1 <= i < n ==> is_dec_digit(#[trigger] chars@[i])) by {
                                    assert(forall|i: int|
                                        j + 1 <= i < n ==> chars@[i] == digits[i - start as int]
                                            && is_dec_digit(#[trigger] chars@[i]));
                                }
                            }
                        }
                    }
                    return None;
                }
            },
        }
        j += 1;
    }
    assert(digits.take(n - start as int) =~= digits);
    if mag > limit {
        proof {
            lemma_dec_value_nonneg(digits);
        }
        return None;
    }
    if negative {
        if mag == 9223372036854775808 {
            Some(i64::MIN)
        } else {
            Some(-(mag as i64))
        }
    } else {
        Some(mag as i64)
    }
}

/// True when every character in `v[from..to]` is a decimal digit.
fn digits_all_dec(v: &Vec<char>, from: usize, to: usize) -> (r: bool)
    requires
        from <= to <= v@.len(),
    ensures
        r == forall|i: int| from <= i < to ==> is_dec_digit(#[trigger] v@[i]),
{
    let mut i: usize = from;
    while i < to
        invariant
            from <= i <= to <= v@.len(),
            forall|k: int| from <= k < i ==> is_dec_digit(#[trigger] v@[k]),
        decreases to - i,
    {
        let cv = v[i] as u32;
        if cv < 48 || cv > 57 {
            return false;
        }
        i += 1;
    }
    true
}

/// How one character of a title is rewritten so that it is safe inside a
/// file name: separators and newlines become spaces, the other reserved
/// characters become full-width or look-alike stand-ins.
pub open spec fn map_filename_char(c: char) -> char {
    if c == '\\' || c == '/' || c == '\n' {
        ' '
    } else if c == ':' {
        '：'
    } else if c == '*' {
        '⭐'
    } else if c == '?' {
        '？'
    } else if c == '"' {
        '\''
    } else if c == '<' {
        '《'
    } else if c == '>' {
        '》'
    } else if c == '|' {
        '丨'
    } else {
        c
    }
}

pub open spec fn is_trim_space(c: char) -> bool {
    c == ' ' || c == '\t' || c == '\n' || c == '\r'
}

pub open spec fn trim_start_spaces(s: Seq<char>) -> Seq<char>
    decreases s.len(),
{
    if s.len() > 0 && is_trim_space(s.first()) {
        trim_start_spaces(s.drop_first())
    } else {
        s
    }
}

pub open spec fn trim_end_spaces(s: Seq<char>) -> Seq<char>
    decreases s.len(),
{
    if s.len() > 0 && is_trim_space(s.last()) {
        trim_end_spaces(s.drop_last())
    } else {
        s
    }
}

pub open spec fn trim_end_dots(s: Seq<char>) -> Seq<char>
    decreases s.len(),
{
    if s.len() > 0 && s.last() == '.' {
        trim_end_dots(s.drop_last())
    } else {
        s
    }
}

pub open spec fn trim_spaces(s: Seq<char>) -> Seq<char> {
    trim_start_spaces(trim_end_spaces(s))
}

/// What `filename_filter` returns: every character rewritten by
/// `map_filename_char`, then surrounding spaces, trailing dots, and any
/// spaces newly exposed by the dots are trimmed away.
pub open spec fn spec_filename_filter(s: Seq<char>) -> Seq<char> {
    trim_spaces(trim_end_dots(trim_spaces(s.map_values(|c: char| map_filename_char(c)))))
}

fn trim_end_spaces_vec(v: &mut Vec<char>)
    ensures
        final(v)@ == trim_end_spaces(old(v)@),
{
    loop
        invariant
            trim_end_spaces(v@) == trim_end_spaces(old(v)@),
        ensures
            v@.len() == 0 || !is_trim_space(v@.last()),
        decreases v@.len(),
    {
        if v.len() > 0 {
            let c = v[v.len() - 1];
            if c == ' ' || c == '\t' || c == '\n' || c == '\r' {
                let ghost pre = v@;
                v.pop();
                assert(v@ =~= pre.drop_last());
                continue;
            }
        }
        break;
    }
}

fn trim_end_dots_vec(v: &mut Vec<char>)
    ensures
        final(v)@ == trim_end_dots(old(v)@),
{
    loop
        invariant
            trim_end_dots(v@) == trim_end_dots(old(v)@),
        ensures
            v@.len() == 0 || v@.last() != '.',
        decreases v@.len(),
    {
        if v.len() > 0 && v[v.len() - 1] == '.' {
            let ghost pre = v@;
            v.pop();
            assert(v@ =~= pre.drop_last());
        } else {
            break;
        }
    }
}

fn trim_start_spaces_vec(v: &mut Vec<char>)
    ensures
        final(v)@ == trim_start_spaces(old(v)@),
{
    loop
        invariant
            trim_start_spaces(v@) == trim_start_spaces(old(v)@),
        ensures
            v@.len() == 0 || !is_trim_space(v@.first()),
        decreases v@.len(),
    {
        if v.len() > 0 {
            let c = v[0];
            if c == ' ' || c == '\t' || c == '\n' || c == '\r' {
                let ghost pre = v@;
                v.remove(0);
                assert(v@ =~= pre.drop_first());
                continue;
            }
        }
        break;
    }
}

/// Rewrites a title so that it can stand as a file or directory name:
/// reserved characters are replaced and surrounding spaces and trailing
/// dots are trimmed.
pub fn filename_filter(s: &str) -> (r: String)
    ensures
        r@ == spec_filename_filter(s@),
{
    let chars = chars_of(s);
    let mut v: Vec<char> = Vec::new();
    let mut i: usize = 0;
    while i < chars.len()
        invariant
            i <= chars@.len(),
            v@.len() == i,
            forall|k: int| 0 <= k < i ==> v@[k] == map_filename_char(#[trigger] chars@[k]),
        decreases chars@.len() - i,
    {
        let c = chars[i];
        let mapped: char = if c == '\\' || c == '/' || c == '\n' {
            ' '
        } else if c == ':' {
            '：'
        } else if c == '*' {
            '⭐'
        } else if c == '?' {
            '？'
        } else if c == '"' {
            '\''
        } else if c == '<' {
            '《'
        } else if c == '>' {
            '》'
        } else if c == '|' {
            '丨'
        } else {
            c
        };
        v.push(mapped);
        i += 1;
    }
    assert(v@ =~= s@.map_values(|c: char| map_filename_char(c)));
    trim_end_spaces_vec(&mut v);
    trim_start_spaces_vec(&mut v);
    trim_end_dots_vec(&mut v);
    trim_end_spaces_vec(&mut v);
    trim_start_spaces_vec(&mut v);
    string_from_chars(&v)
}

} // verus!
