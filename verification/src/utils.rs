//! Identifiers, time formatting, string helpers and a stopwatch.
use vstd::prelude::*;

use crate::text::{
    cat, dec, dec_padded, push_char, str_chars, string_of_range, u128_to_text, u64_to_text,
    u64_to_text_padded,
};
use crate::time::{elapsed_since, instant_now, unix_time_now, Duration};
use vstd::string::StringSliceAdditionalSpecFns;

verus! {

/// A lowercase hexadecimal digit.
pub open spec fn is_lower_hex(c: char) -> bool {
    ('0' <= c && c <= '9') || ('a' <= c && c <= 'f')
}

/// The hyphenated text of a UUID: 36 characters, hyphens at positions 8, 13,
/// 18 and 23, lowercase hexadecimal digits everywhere else.
pub open spec fn is_hyphenated_uuid(s: Seq<char>) -> bool {
    &&& s.len() == 36
    &&& forall|i: int|
        0 <= i < 36 ==> if i == 8 || i == 13 || i == 18 || i == 23 {
            s[i] == '-'
        } else {
            is_lower_hex(#[trigger] s[i])
        }
}

/// `uuid::Uuid::new_v4` rendered with `to_string`: a random UUID in its
/// hyphenated lowercase form (uuid's `Display` writes `as_hyphenated`). Which
/// UUID comes back is chance; only its shape is stated.
#[verifier::external_body]
pub(crate) fn new_uuid_v4_text() -> (r: String)
    ensures
        is_hyphenated_uuid(r@),
{
    uuid::Uuid::new_v4().to_string()
}

/// A new random UUID (v4) in hyphenated form.
pub fn generate_uuid() -> (r: String)
    ensures
        is_hyphenated_uuid(r@),
{
    new_uuid_v4_text()
}

/// The first eight characters of a new random UUID.
pub fn generate_short_uuid() -> (r: String)
    ensures
        r@.len() == 8,
        forall|i: int| 0 <= i < 8 ==> is_lower_hex(#[trigger] r@[i]),
{
    let u = new_uuid_v4_text();
    let cs = str_chars(u.as_str());
    let r = string_of_range(&cs, 0, 8);
    assert forall|i: int| 0 <= i < 8 implies is_lower_hex(#[trigger] r@[i]) by {
        assert(r@[i] == u@[i]);
    }
    r
}

/// The sequential ID for a counter value: the prefix, a hyphen and the value
/// zero-padded to eight digits.
pub fn format_sequential_id(prefix: &str, seq: u64) -> (r: String)
    ensures
        r@ == prefix@ + "-"@ + dec_padded(seq as nat, 8),
{
    let a = cat(prefix, "-");
    a.concat(u64_to_text_padded(seq, 8).as_str())
}

/// A timestamp-based ID: the prefix, a hyphen and the microseconds since the
/// UNIX epoch (zero when the clock reads earlier than the epoch).
pub fn generate_timestamp_id(prefix: &str) -> (r: String)
    ensures
        exists|n: nat| r@ == prefix@ + "-"@ + dec(n),
{
    let micros = unix_time_now().as_micros();
    let a = cat(prefix, "-");
    let r = a.concat(u128_to_text(micros).as_str());
    assert(r@ == prefix@ + "-"@ + dec(micros as nat));
    r
}

/// Milliseconds since the UNIX epoch, truncated to 64 bits.
pub fn current_timestamp_ms() -> u64 {
    let ms = unix_time_now().as_millis();
    #[verifier::truncate]
    (ms as u64)
}

/// Microseconds since the UNIX epoch, truncated to 64 bits.
pub fn current_timestamp_us() -> u64 {
    let us = unix_time_now().as_micros();
    #[verifier::truncate]
    (us as u64)
}

/// Nanoseconds since the UNIX epoch.
pub fn current_timestamp_ns() -> u128 {
    unix_time_now().as_nanos()
}

/// Human-readable rendering of a duration: hours and minutes from an hour on,
/// minutes and seconds from a minute on, seconds with three decimals from a
/// second on, else milliseconds, else microseconds.
pub open spec fn spec_format_duration(d: Duration) -> Seq<char> {
    let secs = d.spec_secs() as nat;
    let millis = (d@ % 1_000_000_000) / 1_000_000;
    if secs >= 3600 {
        dec(secs / 3600) + "h "@ + dec((secs % 3600) / 60) + "m"@
    } else if secs >= 60 {
        dec(secs / 60) + "m "@ + dec(secs % 60) + "s"@
    } else if secs > 0 {
        dec(secs) + "."@ + dec_padded(millis, 3) + "s"@
    } else if millis > 0 {
        dec(millis) + "ms"@
    } else {
        dec(d@ / 1000) + "µs"@
    }
}

/// Formats a duration as text (see [`spec_format_duration`]).
pub fn format_duration(duration: Duration) -> (r: String)
    ensures
        r@ == spec_format_duration(duration),
{
    let secs = duration.as_secs();
    let millis = duration.subsec_millis();
    if secs >= 3600 {
        let hours = secs / 3600;
        let mins = (secs % 3600) / 60;
        cat(u64_to_text(hours).as_str(), "h ").concat(u64_to_text(mins).as_str()).concat("m")
    } else if secs >= 60 {
        let mins = secs / 60;
        let s = secs % 60;
        cat(u64_to_text(mins).as_str(), "m ").concat(u64_to_text(s).as_str()).concat("s")
    } else if secs > 0 {
        cat(u64_to_text(secs).as_str(), ".").concat(
            u64_to_text_padded(millis as u64, 3).as_str(),
        ).concat("s")
    } else if millis > 0 {
        cat(u64_to_text(millis as u64).as_str(), "ms")
    } else {
        cat(u128_to_text(duration.as_micros()).as_str(), "µs")
    }
}

/// Simple stopwatch for measuring elapsed time.
#[derive(Debug)]
pub struct Stopwatch {
    start: std::time::Instant,
    laps: Vec<(String, Duration)>,
}

impl Stopwatch {
    /// The recorded laps: their names and elapsed times, in order.
    pub closed spec fn spec_laps(&self) -> Seq<(Seq<char>, Duration)> {
        self.laps@.map_values(|e: (String, Duration)| (e.0@, e.1))
    }

    /// A running stopwatch with no laps.
    pub fn start() -> (r: Self)
        ensures
            r.spec_laps() == Seq::<(Seq<char>, Duration)>::empty(),
    {
        let r = Stopwatch { start: instant_now(), laps: Vec::new() };
        assert(r.spec_laps() =~= Seq::<(Seq<char>, Duration)>::empty());
        r
    }

    /// Time elapsed since the start; it depends on the clock.
    pub fn elapsed(&self) -> Duration {
        elapsed_since(&self.start)
    }

    /// Records a lap under a name, with the time elapsed so far.
    pub fn lap(&mut self, name: &str)
        ensures
            final(self).spec_laps().len() == old(self).spec_laps().len() + 1,
            final(self).spec_laps().drop_last() == old(self).spec_laps(),
            final(self).spec_laps().last().0 == name@,
    {
        let d = self.elapsed();
        self.laps.push((name.to_owned(), d));
        assert(self.spec_laps().drop_last() =~= old(self).spec_laps());
    }

    /// All laps, in order.
    pub fn laps(&self) -> (r: &[(String, Duration)])
        ensures
            r@.map_values(|e: (String, Duration)| (e.0@, e.1)) == self.spec_laps(),
    {
        self.laps.as_slice()
    }

    /// Restarts the stopwatch and forgets the laps.
    pub fn reset(&mut self)
        ensures
            final(self).spec_laps() == Seq::<(Seq<char>, Duration)>::empty(),
    {
        self.start = instant_now();
        self.laps.clear();
        assert(self.spec_laps() =~= Seq::<(Seq<char>, Duration)>::empty());
    }

    /// Elapsed whole milliseconds, truncated to 64 bits.
    pub fn elapsed_ms(&self) -> u64 {
        let ms = self.elapsed().as_millis();
        #[verifier::truncate]
        (ms as u64)
    }

    /// Elapsed whole microseconds, truncated to 64 bits.
    pub fn elapsed_us(&self) -> u64 {
        let us = self.elapsed().as_micros();
        #[verifier::truncate]
        (us as u64)
    }
}

impl Default for Stopwatch {
    fn default() -> (r: Self)
        ensures
            r.spec_laps() == Seq::<(Seq<char>, Duration)>::empty(),
    {
        Stopwatch::start()
    }
}

/// The text cut to at most `max_len` bytes: unchanged when it fits; else, for
/// a limit of at least three bytes, its first `max_len - 3` bytes followed by
/// `...`; for a smaller limit, that many dots.
pub open spec fn spec_truncate(s: &str, max_len: usize) -> Seq<char> {
    if (s.spec_bytes().len() as usize) <= max_len {
        s@
    } else if max_len >= 3 {
        vstd::utf8::decode_utf8(s.spec_bytes().subrange(0, cut_point(max_len) as int)) + "..."@
    } else {
        Seq::new(max_len as nat, |i: int| '.')
    }
}

/// Where a too-long text is cut: three bytes before the limit, or at zero.
pub open spec fn cut_point(max_len: usize) -> usize {
    if max_len >= 3 { (max_len - 3) as usize } else { 0 }
}

/// The UTF-8 encoding of joined texts is the joined encodings.
proof fn lemma_encode_concat(x: Seq<char>, y: Seq<char>)
    ensures
        vstd::utf8::encode_utf8(x + y) == vstd::utf8::encode_utf8(x) + vstd::utf8::encode_utf8(y),
    decreases x.len(),
{
    if x.len() == 0 {
        assert(x + y =~= y);
        assert(vstd::utf8::encode_utf8(x) =~= Seq::<u8>::empty());
        assert(vstd::utf8::encode_utf8(x) + vstd::utf8::encode_utf8(y) =~= vstd::utf8::encode_utf8(y));
    } else {
        assert((x + y).drop_first() =~= x.drop_first() + y);
        assert((x + y)[0] == x[0]);
        lemma_encode_concat(x.drop_first(), y);
        assert(vstd::utf8::encode_utf8(x + y) =~= vstd::utf8::encode_utf8(x) + vstd::utf8::encode_utf8(y));
    }
}

/// Truncates a string to at most `max_len` bytes, marking a cut with `...`
/// (with fewer dots when the limit is below three bytes). The cut must fall on
/// a character boundary, as slicing a `str` demands.
pub fn truncate_string(s: &str, max_len: usize) -> (r: String)
    requires
        (s.spec_bytes().len() as usize) > max_len ==> vstd::utf8::is_char_boundary(
            s.spec_bytes(),
            cut_point(max_len) as int,
        ),
    ensures
        r@ == spec_truncate(s, max_len),
        vstd::utf8::encode_utf8(r@).len() <= max_len,
{
    let n = s.as_bytes().len();
    if n <= max_len {
        let r = s.to_owned();
        assert(vstd::utf8::encode_utf8(r@) == s.spec_bytes());
        r
    } else if max_len >= 3 {
        let k = max_len - 3;
        let (a, _) = s.split_at(k);
        proof {
            vstd::utf8::encode_utf8_decode_utf8(a@);
            assert(a.spec_bytes() =~= s.spec_bytes().subrange(0, k as int));
            assert(k == cut_point(max_len));
            assert(vstd::utf8::decode_utf8(s.spec_bytes().subrange(0, k as int)) == a@);
        }
        let r = cat(a, "...");
        proof {
            reveal_strlit("...");
            lemma_encode_concat(a@, "..."@);
            assert(vstd::utf8::is_ascii_chars("..."@));
            vstd::utf8::is_ascii_chars_encode_utf8("..."@);
            assert(vstd::utf8::encode_utf8(a@) == a.spec_bytes());
            assert(a.spec_bytes().len() == k);
            assert(vstd::utf8::encode_utf8(r@).len() == k + 3);
            assert(r@ == spec_truncate(s, max_len));
        }
        r
    } else {
        let mut r = String::new();
        let mut i: usize = 0;
        while i < max_len
            invariant
                i <= max_len,
                r@ == Seq::new(i as nat, |j: int| '.'),
            decreases max_len - i,
        {
            push_char(&mut r, '.');
            i = i + 1;
            assert(r@ =~= Seq::new(i as nat, |j: int| '.'));
        }
        proof {
            assert(vstd::utf8::is_ascii_chars(r@));
            vstd::utf8::is_ascii_chars_encode_utf8(r@);
        }
        r
    }
}

/// What `char::is_alphanumeric` returns: whether the character is alphabetic
/// or numeric in Unicode's sense.
pub uninterp spec fn unicode_alphanumeric(c: char) -> bool;

/// An ASCII letter or digit.
pub open spec fn ascii_alphanumeric(c: char) -> bool {
    ('a' <= c && c <= 'z') || ('A' <= c && c <= 'Z') || ('0' <= c && c <= '9')
}

/// `char::is_alphanumeric`: Unicode's alphabetic or numeric property. Among
/// ASCII characters those are exactly the letters and the digits; for other
/// characters only the name `unicode_alphanumeric` is stated.
#[verifier::external_body]
fn char_is_alphanumeric(c: char) -> (r: bool)
    ensures
        r == unicode_alphanumeric(c),
        (c as u32) < 128 ==> (r <==> ascii_alphanumeric(c)),
{
    c.is_alphanumeric()
}

/// The identifier character a character becomes: alphanumerics, `_` and `-`
/// stay, everything else becomes `_`.
pub open spec fn sanitize_char(c: char) -> char {
    if unicode_alphanumeric(c) || c == '_' || c == '-' {
        c
    } else {
        '_'
    }
}

/// The identifier character an ASCII character becomes: letters, digits, `_`
/// and `-` stay, everything else becomes `_`.
pub open spec fn sanitize_ascii_char(c: char) -> char {
    if ascii_alphanumeric(c) || c == '_' || c == '-' {
        c
    } else {
        '_'
    }
}

/// Replaces every character that is not alphanumeric, `_` or `-` with `_`;
/// on ASCII characters, alphanumeric means a letter or a digit.
pub fn sanitize_identifier(s: &str) -> (r: String)
    ensures
        r@ == s@.map_values(|c: char| sanitize_char(c)),
        forall|i: int|
            0 <= i < s@.len() && (s@[i] as u32) < 128 ==> #[trigger] r@[i] == sanitize_ascii_char(s@[i]),
{
    let cs = str_chars(s);
    let mut r = String::new();
    let mut i: usize = 0;
    while i < cs.len()
        invariant
            i <= cs@.len(),
            cs@ == s@,
            r@ == s@.subrange(0, i as int).map_values(|c: char| sanitize_char(c)),
            forall|j: int|
                0 <= j < i && (s@[j] as u32) < 128 ==> (unicode_alphanumeric(s@[j])
                    <==> ascii_alphanumeric(s@[j])),
        decreases cs@.len() - i,
    {
        let c = cs[i];
        let keep = char_is_alphanumeric(c) || c == '_' || c == '-';
        push_char(&mut r, if keep { c } else { '_' });
        i = i + 1;
        assert(r@ =~= s@.subrange(0, i as int).map_values(|c: char| sanitize_char(c)));
    }
    assert(s@.subrange(0, s@.len() as int) =~= s@);
    assert forall|i: int| 0 <= i < s@.len() && (s@[i] as u32) < 128 implies #[trigger] r@[i]
        == sanitize_ascii_char(s@[i]) by {
        assert(r@[i] == sanitize_char(s@[i]));
    }
    r
}

} // verus!
