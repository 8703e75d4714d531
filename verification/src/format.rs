//! Shaping the values of a forecast for display.
use vstd::prelude::*;

verus! {

/// The position of the last `c` in `s`, or -1 where `s` holds none.
pub open spec fn last_index_of(s: Seq<char>, c: char) -> int
    decreases s.len(),
{
    if s.len() == 0 {
        -1
    } else if s.last() == c {
        s.len() - 1
    } else {
        last_index_of(s.drop_last(), c)
    }
}

/// What follows the last `T` of a timestamp, or the whole of it where it holds no `T`.
pub open spec fn time_part(s: Seq<char>) -> Seq<char> {
    s.subrange(last_index_of(s, 'T') + 1, s.len() as int)
}

/// A timestamp with each `T` replaced by a space.
pub open spec fn spaced(s: Seq<char>) -> Seq<char> {
    s.map_values(|c: char| if c == 'T' { ' ' } else { c })
}

/// Text wrapped in the terminal escape sequence that selects the graphic rendition
/// `code`, and the one that resets it; the text alone when colours are off.
pub open spec fn painted(text: Seq<char>, code: Seq<char>, enabled: bool) -> Seq<char> {
    if enabled {
        "\x1b["@ + code + "m"@ + text + "\x1b[0m"@
    } else {
        text
    }
}

/// The message given when a daily series of the forecast is empty.
pub open spec fn missing_message(name: Seq<char>) -> Seq<char> {
    "weather response had no "@ + name
}

proof fn lemma_last_index_bounds(s: Seq<char>, c: char)
    ensures
        -1 <= last_index_of(s, c) < s.len(),
        last_index_of(s, c) >= 0 ==> s[last_index_of(s, c)] == c,
        forall|k: int| last_index_of(s, c) < k < s.len() ==> s[k] != c,
    decreases s.len(),
{
    if s.len() > 0 && s.last() != c {
        let t = s.drop_last();
        lemma_last_index_bounds(t, c);
        assert forall|k: int| last_index_of(s, c) < k < s.len() implies s[k] != c by {
            if k < t.len() {
                assert(t[k] == s[k]);
            }
        }
    }
}

proof fn lemma_last_index_is(s: Seq<char>, c: char, i: int)
    requires
        -1 <= i < s.len(),
        i >= 0 ==> s[i] == c,
        forall|k: int| i < k < s.len() ==> s[k] != c,
    ensures
        last_index_of(s, c) == i,
    decreases s.len(),
{
    if s.len() > 0 && s.last() != c {
        lemma_last_index_is(s.drop_last(), c, i);
    }
}

/// The time of day in a timestamp such as `2025-06-01T05:12`: what follows its
/// last `T`, or the whole timestamp where it holds no `T`.
pub fn short_time(value: &str) -> (r: &str)
    ensures
        r@ == time_part(value@),
{
    let n = value.unicode_len();
    let mut i: usize = n;
    while i > 0
        invariant
            n == value@.len(),
            i <= n,
            forall|k: int| i <= k < n ==> value@[k] != 'T',
        decreases i,
    {
        if value.get_char(i - 1) == 'T' {
            proof {
                lemma_last_index_is(value@, 'T', i - 1);
            }
            return value.substring_char(i, n);
        }
        i = i - 1;
    }
    proof {
        lemma_last_index_is(value@, 'T', -1);
        assert(value@.subrange(0, n as int) =~= value@);
    }
    value
}

/// A timestamp with each `T` replaced by a space, as in `2025-06-01 05:12`.
pub fn short_datetime(value: &str) -> (r: String)
    ensures
        r@ == spaced(value@),
{
    let ghost all = spaced(value@);
    let n = value.unicode_len();
    let mut res = String::new();
    let mut start: usize = 0;
    let mut i: usize = 0;
    while i < n
        invariant
            n == value@.len(),
            all == spaced(value@),
            start <= i <= n,
            res@ == all.subrange(0, start as int),
            forall|k: int| start <= k < i ==> value@[k] != 'T',
        decreases n - i,
    {
        if value.get_char(i) == 'T' {
            res.append(value.substring_char(start, i));
            res.append(" ");
            proof {
                reveal_strlit(" ");
                assert(all.subrange(0, i + 1) =~= all.subrange(0, start as int)
                    + value@.subrange(start as int, i as int) + " "@);
            }
            start = i + 1;
        }
        i = i + 1;
    }
    res.append(value.substring_char(start, n));
    assert(all =~= all.subrange(0, start as int) + value@.subrange(start as int, n as int));
    res
}

/// Wraps `text` in the escape sequences of the graphic rendition `code` when
/// colours are on.
pub fn paint(text: &str, code: &str, enabled: bool) -> (r: String)
    ensures
        r@ == painted(text@, code@, enabled),
{
    if enabled {
        let mut s = String::from_str("\x1b[");
        s.append(code);
        s.append("m");
        s.append(text);
        s.append("\x1b[0m");
        s
    } else {
        text.to_owned()
    }
}

/// The first value of a daily series, or the message that names the missing series.
pub fn first<T: Copy>(values: &[T], name: &str) -> (r: Result<T, String>)
    ensures
        values@.len() > 0 ==> r == Ok::<T, String>(values@[0]),
        values@.len() == 0 ==> (r matches Err(e) && e@ == missing_message(name@)),
{
    if values.len() == 0 {
        let mut e = String::from_str("weather response had no ");
        e.append(name);
        Err(e)
    } else {
        Ok(values[0])
    }
}

/// The first text of a daily series, or the message that names the missing series.
pub fn first_str<'a>(values: &'a [String], name: &str) -> (r: Result<&'a str, String>)
    ensures
        values@.len() > 0 ==> (r matches Ok(s) && s@ == values@[0]@),
        values@.len() == 0 ==> (r matches Err(e) && e@ == missing_message(name@)),
{
    if values.len() == 0 {
        let mut e = String::from_str("weather response had no ");
        e.append(name);
        Err(e)
    } else {
        Ok(values[0].as_str())
    }
}

/// The message for a missing series ends with the series' name, after the same
/// prefix whatever the name.
pub proof fn lemma_missing_message(name: Seq<char>, other: Seq<char>)
    ensures
        missing_message(name).len() == 24 + name.len(),
        missing_message(name).skip(24) == name,
        missing_message(name).take(24) == missing_message(other).take(24),
{
    reveal_strlit("weather response had no ");
    assert(missing_message(name).skip(24) =~= name);
    assert(missing_message(name).take(24) =~= missing_message(other).take(24));
}

/// The time part of a timestamp ends the timestamp, holds no `T`, and is the
/// whole timestamp where that holds no `T`.
pub proof fn lemma_time_part(s: Seq<char>)
    ensures
        time_part(s).len() <= s.len(),
        time_part(s) == s.subrange(s.len() - time_part(s).len(), s.len() as int),
        forall|k: int| 0 <= k < time_part(s).len() ==> time_part(s)[k] != 'T',
        (forall|k: int| 0 <= k < s.len() ==> s[k] != 'T') ==> time_part(s) == s,
{
    lemma_last_index_bounds(s, 'T');
    if forall|k: int| 0 <= k < s.len() ==> s[k] != 'T' {
        lemma_last_index_is(s, 'T', -1);
        assert(s.subrange(0, s.len() as int) =~= s);
    }
}

/// Replacing `T` by a space keeps the length, leaves no `T`, changes nothing
/// else, and a second replacement changes nothing more.
pub proof fn lemma_spaced(s: Seq<char>)
    ensures
        spaced(s).len() == s.len(),
        forall|k: int| 0 <= k < s.len() ==> spaced(s)[k] != 'T',
        forall|k: int| 0 <= k < s.len() && s[k] != 'T' ==> spaced(s)[k] == s[k],
        forall|k: int| 0 <= k < s.len() && s[k] == 'T' ==> spaced(s)[k] == ' ',
        spaced(spaced(s)) == spaced(s),
{
    assert(spaced(spaced(s)) =~= spaced(s));
}

/// With colours off the text is left as it is; with colours on it stands whole
/// between the two escape sequences.
pub proof fn lemma_painted(text: Seq<char>, code: Seq<char>)
    ensures
        painted(text, code, false) == text,
        painted(text, code, true).len() == text.len() + code.len() + 7,
        painted(text, code, true).subrange(code.len() + 3int, code.len() + 3int + text.len()) == text,
        painted(text, code, true) == seq!['\x1b', '['] + code + seq!['m'] + text + seq![
            '\x1b',
            '[',
            '0',
            'm',
        ],
{
    reveal_strlit("\x1b[");
    reveal_strlit("m");
    reveal_strlit("\x1b[0m");
    assert(painted(text, code, true).subrange(code.len() + 3int, code.len() + 3int + text.len()) =~= text);
    assert("\x1b["@ =~= seq!['\x1b', '[']);
    assert("m"@ =~= seq!['m']);
    assert("\x1b[0m"@ =~= seq!['\x1b', '[', '0', 'm']);
}

} // verus!
