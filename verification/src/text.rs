//! Verified text handling: splitting the store's comma-joined genre column,
//! scanning genres for the excluded category token, parsing the retry-after
//! header, and choosing the request title from a record's name variants.

use vstd::prelude::*;

use crate::types::AnimeMetadata;
use crate::types::Title;

verus! {

/// Splitting a character sequence at every comma: the empty text is one empty
/// piece, a leading comma opens a new empty piece, and any other character
/// extends the first piece of the rest's split.
pub open spec fn split_commas_spec(s: Seq<char>) -> Seq<Seq<char>>
    decreases s.len(),
{
    if s.len() == 0 {
        seq![Seq::<char>::empty()]
    } else if s[0] == ',' {
        seq![Seq::<char>::empty()] + split_commas_spec(s.drop_first())
    } else {
        let rest = split_commas_spec(s.drop_first());
        seq![seq![s[0]] + rest[0]] + rest.drop_first()
    }
}

/// A split always has at least the one piece being built.
pub proof fn lemma_split_nonempty(s: Seq<char>)
    ensures
        split_commas_spec(s).len() >= 1,
    decreases s.len(),
{
    if s.len() > 0 {
        lemma_split_nonempty(s.drop_first());
    }
}

/// The piece built so far, glued onto the front of the rest's split.
pub open spec fn glue(prefix: Seq<char>, pieces: Seq<Seq<char>>) -> Seq<Seq<char>>
    recommends
        pieces.len() >= 1,
{
    seq![prefix + pieces[0]] + pieces.drop_first()
}

/// Walking one character moves it from the unsplit rest into the glued
/// prefix; walking a comma closes the piece built so far.
proof fn lemma_split_step(prefix: Seq<char>, s: Seq<char>)
    requires
        s.len() > 0,
    ensures
        s[0] != ',' ==> glue(prefix, split_commas_spec(s)) == glue(
            prefix.push(s[0]),
            split_commas_spec(s.drop_first()),
        ),
        s[0] == ',' ==> glue(prefix, split_commas_spec(s)) == seq![prefix] + glue(
            Seq::<char>::empty(),
            split_commas_spec(s.drop_first()),
        ),
{
    lemma_split_nonempty(s.drop_first());
    let rest = split_commas_spec(s.drop_first());
    if s[0] != ',' {
        assert(glue(prefix, split_commas_spec(s)) =~~= glue(prefix.push(s[0]), rest));
    } else {
        assert(glue(prefix, split_commas_spec(s)) =~~= seq![prefix] + glue(
            Seq::<char>::empty(),
            rest,
        ));
    }
}

/// Splits a string at every comma, as the store's comma-joined columns ask.
pub fn split_commas(s: &str) -> (r: Vec<String>)
    ensures
        r.deep_view() == split_commas_spec(s@),
{
    let n: usize = s.unicode_len();
    let mut out: Vec<String> = Vec::new();
    let mut start: usize = 0;
    let mut i: usize = 0;
    proof {
        assert(s@.skip(0) =~= s@);
        assert(s@.subrange(0, 0) =~= Seq::<char>::empty());
        lemma_split_nonempty(s@);
        assert(out.deep_view() + glue(s@.subrange(0, 0), split_commas_spec(s@.skip(0))) =~~=
            split_commas_spec(s@));
    }
    while i < n
        invariant
            n == s@.len(),
            0 <= start <= i <= n,
            split_commas_spec(s@.skip(i as int)).len() >= 1,
            out.deep_view() + glue(
                s@.subrange(start as int, i as int),
                split_commas_spec(s@.skip(i as int)),
            ) == split_commas_spec(s@),
        decreases n - i,
    {
        let ghost rest = s@.skip(i as int);
        let ghost piece = s@.subrange(start as int, i as int);
        proof {
            assert(rest.len() > 0);
            assert(rest[0] == s@[i as int]);
            assert(rest.drop_first() =~= s@.skip(i as int + 1));
            lemma_split_step(piece, rest);
            lemma_split_nonempty(s@.skip(i as int + 1));
        }
        let c = s.get_char(i);
        if c == ',' {
            let sub = s.substring_char(start, i);
            let piece_string = sub.to_owned();
            let ghost prev = out.deep_view();
            out.push(piece_string);
            proof {
                assert(out.deep_view() =~~= prev.push(piece));
                assert(s@.subrange(i as int + 1, i as int + 1) =~= Seq::<char>::empty());
                assert(out.deep_view() + glue(
                    s@.subrange(i as int + 1, i as int + 1),
                    split_commas_spec(s@.skip(i as int + 1)),
                ) =~~= split_commas_spec(s@));
            }
            start = i + 1;
        } else {
            proof {
                assert(s@.subrange(start as int, i as int + 1) =~= piece.push(s@[i as int]));
            }
        }
        i = i + 1;
    }
    let sub = s.substring_char(start, n);
    let last_piece = sub.to_owned();
    let ghost piece = s@.subrange(start as int, n as int);
    let ghost prev = out.deep_view();
    out.push(last_piece);
    proof {
        assert(s@.skip(n as int) =~= Seq::<char>::empty());
        assert(out.deep_view() =~~= prev.push(piece));
        assert(glue(piece, split_commas_spec(s@.skip(n as int))) =~~= seq![piece]);
        assert(out.deep_view() =~~= split_commas_spec(s@));
    }
    out
}

/// The excluded category token, lowercased, at one position.
pub open spec fn excluded_token_at(s: Seq<char>, i: int) -> bool {
    &&& 0 <= i
    &&& i + 3 <= s.len()
    &&& (s[i] == 'h' || s[i] == 'H')
    &&& (s[i + 1] == 'e' || s[i + 1] == 'E')
    &&& (s[i + 2] == 'n' || s[i + 2] == 'N')
}

/// Whether the text holds the excluded category token anywhere, in any case —
/// what the source's exclusion filter asks of a genre.
pub open spec fn contains_excluded_token(s: Seq<char>) -> bool {
    exists|i: int| excluded_token_at(s, i)
}

/// Scans a genre for the excluded category token, case-insensitively.
pub fn has_excluded_token(s: &str) -> (r: bool)
    ensures
        r == contains_excluded_token(s@),
{
    let n: usize = s.unicode_len();
    if n < 3 {
        proof {
            assert(forall|i: int| !excluded_token_at(s@, i));
        }
        return false;
    }
    let mut i: usize = 0;
    while i <= n - 3
        invariant
            3 <= n == s@.len(),
            i <= n - 2,
            forall|j: int| 0 <= j < i ==> !excluded_token_at(s@, j),
        decreases n - i,
    {
        let a = s.get_char(i);
        let b = s.get_char(i + 1);
        let c = s.get_char(i + 2);
        if (a == 'h' || a == 'H') && (b == 'e' || b == 'E') && (c == 'n' || c == 'N') {
            proof {
                assert(excluded_token_at(s@, i as int));
            }
            return true;
        }
        i = i + 1;
    }
    proof {
        assert(forall|j: int| !excluded_token_at(s@, j));
    }
    false
}

/// A decimal digit.
pub open spec fn is_digit(c: char) -> bool {
    '0' <= c && c <= '9'
}

/// The numeric value of a digit string, most significant first.
pub open spec fn decimal_value(s: Seq<char>) -> int
    decreases s.len(),
{
    if s.len() == 0 {
        0
    } else {
        decimal_value(s.drop_last()) * 10 + (s.last() as int - '0' as int)
    }
}

/// A digit string's value never shrinks as digits are appended.
proof fn lemma_decimal_value_nonneg(s: Seq<char>)
    requires
        forall|i: int| 0 <= i < s.len() ==> is_digit(#[trigger] s[i]),
    ensures
        decimal_value(s) >= 0,
    decreases s.len(),
{
    if s.len() > 0 {
        lemma_decimal_value_nonneg(s.drop_last());
    }
}

/// What the retry-after header parses to: the header's decimal seconds when
/// it is all digits, non-empty and fits the machine's range, and nothing
/// otherwise.
pub open spec fn parse_seconds_spec(s: Seq<char>) -> Option<u64> {
    if s.len() > 0 && (forall|i: int| 0 <= i < s.len() ==> is_digit(#[trigger] s[i]))
        && decimal_value(s) <= u64::MAX {
        Some(decimal_value(s) as u64)
    } else {
        None
    }
}

/// Parses a retry-after header value: decimal seconds, or nothing when the
/// text is empty, has a non-digit, or overflows.
pub fn parse_seconds(s: &str) -> (r: Option<u64>)
    ensures
        r == parse_seconds_spec(s@),
{
    let n: usize = s.unicode_len();
    if n == 0 {
        return None;
    }
    let mut value: u64 = 0;
    let mut i: usize = 0;
    while i < n
        invariant
            n == s@.len(),
            i <= n,
            forall|j: int| 0 <= j < i ==> is_digit(#[trigger] s@[j]),
            value == decimal_value(s@.take(i as int)),
        decreases n - i,
    {
        let c = s.get_char(i);
        if !('0' <= c && c <= '9') {
            return None;
        }
        let d: u64 = (c as u32 as u64) - ('0' as u32 as u64);
        proof {
            assert(s@.take(i as int + 1).drop_last() =~= s@.take(i as int));
        }
        let scaled = match value.checked_mul(10) {
            Some(v) => v,
            None => {
                proof {
                    lemma_decimal_overflow(s@, i as int);
                }
                return None;
            },
        };
        let next = match scaled.checked_add(d) {
            Some(v) => v,
            None => {
                proof {
                    lemma_decimal_overflow(s@, i as int);
                }
                return None;
            },
        };
        value = next;
        i = i + 1;
    }
    proof {
        assert(s@.take(n as int) =~= s@);
    }
    Some(value)
}

/// Once a digit prefix overflows, the whole digit string's value is out of
/// range (appending digits never shrinks the value).
proof fn lemma_decimal_prefix_monotone(s: Seq<char>, i: int)
    requires
        0 <= i <= s.len(),
        forall|j: int| 0 <= j < s.len() ==> is_digit(#[trigger] s[j]),
    ensures
        decimal_value(s.take(i)) <= decimal_value(s),
    decreases s.len() - i,
{
    if i < s.len() {
        assert(s.take(i + 1).drop_last() =~= s.take(i));
        assert(forall|j: int| 0 <= j < s.take(i + 1).len() ==> is_digit(#[trigger] s.take(i + 1)[j]));
        lemma_decimal_value_nonneg(s.take(i));
        assert(decimal_value(s.take(i + 1)) == decimal_value(s.take(i)) * 10 + (s[i] as int
            - '0' as int));
        lemma_decimal_prefix_monotone(s, i + 1);
    } else {
        assert(s.take(i) =~= s);
    }
}

/// If one more digit would push the running value past the range, the whole
/// string's value is past it too.
proof fn lemma_decimal_overflow(s: Seq<char>, i: int)
    requires
        0 <= i < s.len(),
        forall|j: int| 0 <= j <= i ==> is_digit(#[trigger] s[j]),
        decimal_value(s.take(i)) * 10 + (s[i] as int - '0' as int) > u64::MAX,
    ensures
        !(forall|j: int| 0 <= j < s.len() ==> is_digit(#[trigger] s[j])) || decimal_value(s)
            > u64::MAX,
{
    if forall|j: int| 0 <= j < s.len() ==> is_digit(#[trigger] s[j]) {
        assert(s.take(i + 1).drop_last() =~= s.take(i));
        assert(decimal_value(s.take(i + 1)) == decimal_value(s.take(i)) * 10 + (s[i] as int
            - '0' as int));
        lemma_decimal_prefix_monotone(s, i + 1);
    }
}

/// The text the request carries as the record's title: the english name when
/// there is one, else the romaji name, else nothing.
pub open spec fn request_title_spec(t: Title) -> Seq<char> {
    match t.english {
        Some(e) => e@,
        None => match t.romaji {
            Some(r) => r@,
            None => Seq::empty(),
        },
    }
}

/// Chooses the title text for the enrichment request.
pub fn request_title(m: &AnimeMetadata) -> (r: String)
    ensures
        r@ == request_title_spec(m.title),
{
    match &m.title.english {
        Some(e) => e.clone(),
        None => match &m.title.romaji {
            Some(r) => r.clone(),
            None => String::new(),
        },
    }
}

/// The text the request carries as the record's description: the description
/// when there is one, else nothing.
pub open spec fn request_description_spec(d: Option<String>) -> Seq<char> {
    match d {
        Some(t) => t@,
        None => Seq::empty(),
    }
}

/// Chooses the description text for the enrichment request.
pub fn request_description(m: &AnimeMetadata) -> (r: String)
    ensures
        r@ == request_description_spec(m.description),
{
    match &m.description {
        Some(d) => d.clone(),
        None => String::new(),
    }
}

} // verus!
