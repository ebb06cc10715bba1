//! Byte patterns with wildcards, and the search for one in a module image.
//!
//! A pattern is written as text: bytes in hexadecimal, two digits each,
//! separated by white space, with `??` for a place where any byte will do.

use vstd::prelude::*;
use vstd::string::*;

verus! {

/// One place of a pattern: the byte that has to stand there, or `None` where
/// any byte will do.
pub type Place = Option<u8>;

/// The byte of the character `?`.
pub const QUESTION_MARK: u8 = 63;

/// Whether a byte is white space: a blank, a tab, a line feed, a form feed
/// or a carriage return.
pub open spec fn is_space(b: u8) -> bool {
    b == 32 || b == 9 || b == 10 || b == 12 || b == 13
}

/// The value of a hexadecimal digit, in either case.
pub open spec fn hex_value(b: u8) -> Option<u8> {
    if 48 <= b <= 57 {
        Some((b - 48) as u8)
    } else if 65 <= b <= 70 {
        Some((b - 55) as u8)
    } else if 97 <= b <= 102 {
        Some((b - 87) as u8)
    } else {
        None
    }
}

/// The place that a token writes: two question marks for any byte, two
/// hexadecimal digits for that byte. Nothing else is a token.
pub open spec fn place_of(token: Seq<u8>) -> Option<Place> {
    if token.len() != 2 {
        None
    } else if token[0] == QUESTION_MARK && token[1] == QUESTION_MARK {
        Some(None)
    } else if hex_value(token[0]) is Some && hex_value(token[1]) is Some {
        Some(Some((hex_value(token[0])->0 * 16 + hex_value(token[1])->0) as u8))
    } else {
        None
    }
}

/// The tokens of `text`, given that `open` has been read of a token that is
/// not closed yet: the runs of bytes between white space, in order.
pub open spec fn tokens_from(text: Seq<u8>, open: Seq<u8>) -> Seq<Seq<u8>>
    decreases text.len(),
{
    if text.len() == 0 {
        closed_token(open)
    } else if is_space(text[0]) {
        closed_token(open) + tokens_from(text.skip(1), Seq::empty())
    } else {
        tokens_from(text.skip(1), open.push(text[0]))
    }
}

/// The token that white space or the end of the text closes: what has been
/// read of it, if anything.
pub open spec fn closed_token(open: Seq<u8>) -> Seq<Seq<u8>> {
    if open.len() > 0 {
        seq![open]
    } else {
        Seq::empty()
    }
}

/// The tokens of `text`.
pub open spec fn tokens(text: Seq<u8>) -> Seq<Seq<u8>> {
    tokens_from(text, Seq::empty())
}

/// Whether every one of the tokens writes a place.
pub open spec fn all_places(tokens: Seq<Seq<u8>>) -> bool {
    forall|i: int| 0 <= i < tokens.len() ==> place_of(#[trigger] tokens[i]) is Some
}

/// The places that a run of tokens writes.
pub open spec fn places_of(tokens: Seq<Seq<u8>>) -> Seq<Place> {
    tokens.map_values(|token: Seq<u8>| place_of(token)->0)
}

/// The pattern that `text` writes, if it writes one.
pub open spec fn pattern_of(text: Seq<u8>) -> Option<Seq<Place>> {
    if all_places(tokens(text)) {
        Some(places_of(tokens(text)))
    } else {
        None
    }
}

/// Whether `pattern` stands in `image` at offset `at`.
pub open spec fn matches_at(image: Seq<u8>, pattern: Seq<Place>, at: int) -> bool {
    &&& 0 <= at
    &&& at + pattern.len() <= image.len()
    &&& forall|k: int|
        0 <= k < pattern.len() ==> (#[trigger] pattern[k] is None || pattern[k] == Some(
            image[at + k],
        ))
}

/// Whether `at` is the lowest offset at which `pattern` stands in `image`.
pub open spec fn is_first_match(image: Seq<u8>, pattern: Seq<Place>, at: int) -> bool {
    &&& matches_at(image, pattern, at)
    &&& forall|before: int| 0 <= before < at ==> !matches_at(image, pattern, before)
}

/// The lowest offset at which `pattern` stands in `image`, if it stands
/// there at all.
pub open spec fn first_match(image: Seq<u8>, pattern: Seq<Place>) -> Option<int> {
    if exists|at: int| matches_at(image, pattern, at) {
        Some(choose|at: int| is_first_match(image, pattern, at))
    } else {
        None
    }
}

/// There is one lowest offset at most.
pub proof fn lemma_first_match_is_unique(image: Seq<u8>, pattern: Seq<Place>, at: int)
    requires
        is_first_match(image, pattern, at),
    ensures
        first_match(image, pattern) == Some(at),
{
    let chosen = choose|c: int| is_first_match(image, pattern, c);
    if chosen < at {
        assert(!matches_at(image, pattern, chosen));
    }
    if at < chosen {
        assert(!matches_at(image, pattern, at));
    }
}

fn hex_digit(b: u8) -> (r: Option<u8>)
    ensures
        r == hex_value(b),
        r matches Some(v) ==> v < 16,
{
    if 48 <= b && b <= 57 {
        Some(b - 48)
    } else if 65 <= b && b <= 70 {
        Some(b - 55)
    } else if 97 <= b && b <= 102 {
        Some(b - 87)
    } else {
        None
    }
}

/// Reads the place that a token of two bytes writes.
fn read_place(first: u8, second: u8) -> (r: Option<Place>)
    ensures
        r == place_of(seq![first, second]),
{
    if first == QUESTION_MARK && second == QUESTION_MARK {
        return Some(None);
    }
    match hex_digit(first) {
        Some(high) => match hex_digit(second) {
            Some(low) => Some(Some(high * 16 + low)),
            None => None,
        },
        None => None,
    }
}

/// Closing one more token: all tokens write places exactly when those
/// before did and the new one does, and the places are then those before
/// and the new one.
proof fn lemma_token_closed(before: Seq<Seq<u8>>, token: Seq<u8>)
    ensures
        all_places(before.push(token)) == (all_places(before) && place_of(token) is Some),
        places_of(before.push(token)) == places_of(before).push(place_of(token)->0),
{
    let closed = before.push(token);
    if all_places(before) && place_of(token) is Some {
        assert forall|k: int| 0 <= k < closed.len() implies place_of(#[trigger] closed[k])
            is Some by {
            if k < before.len() {
                assert(closed[k] == before[k]);
            }
        }
    }
    if all_places(closed) {
        assert(place_of(closed[before.len() as int]) is Some);
        assert forall|k: int| 0 <= k < before.len() implies place_of(#[trigger] before[k])
            is Some by {
            assert(closed[k] == before[k]);
        }
    }
    assert(places_of(closed) =~= places_of(before).push(place_of(token)->0));
}

/// Whether `text` from position `from` on is written as plainly as can be:
/// tokens of two bytes that each write a place, with one byte of white
/// space between one token and the next.
pub open spec fn well_spaced(text: Seq<u8>, from: int) -> bool
    decreases text.len() - from,
{
    if from >= text.len() {
        from == text.len()
    } else {
        &&& from + 2 <= text.len()
        &&& place_of(seq![text[from], text[from + 1]]) is Some
        &&& (from + 2 == text.len() || (is_space(text[from + 2]) && well_spaced(text, from + 3)))
    }
}

/// Text that is written plainly writes a pattern.
pub proof fn lemma_well_spaced_is_pattern(text: Seq<u8>, from: int)
    requires
        0 <= from <= text.len(),
        well_spaced(text, from),
    ensures
        all_places(tokens_from(text.skip(from), Seq::empty())),
        from == 0 ==> pattern_of(text) is Some,
    decreases text.len() - from,
{
    let rest = text.skip(from);
    if from < text.len() {
        let token = seq![text[from], text[from + 1]];
        assert(!is_space(text[from]) && !is_space(text[from + 1]));
        assert(rest[0] == text[from] && rest.skip(1)[0] == text[from + 1]);
        assert(Seq::<u8>::empty().push(rest[0]).push(rest.skip(1)[0]) =~= token);
        let one = Seq::<u8>::empty().push(rest[0]);
        assert(rest.len() >= 2 && rest.skip(1).len() >= 1);
        assert(tokens_from(rest, Seq::empty()) == tokens_from(rest.skip(1), one));
        assert(tokens_from(rest.skip(1), one) == tokens_from(
            rest.skip(1).skip(1),
            one.push(rest.skip(1)[0]),
        ));
        assert(tokens_from(rest, Seq::empty()) == tokens_from(rest.skip(1).skip(1), token));
        if from + 2 == text.len() {
            assert(rest.skip(1).skip(1).len() == 0);
            assert(tokens_from(rest, Seq::empty()) =~= seq![token]);
        } else {
            let after = rest.skip(1).skip(1);
            assert(after[0] == text[from + 2]);
            assert(after.skip(1) =~= text.skip(from + 3));
            lemma_well_spaced_is_pattern(text, from + 3);
            let tail = tokens_from(text.skip(from + 3), Seq::empty());
            assert(tokens_from(rest, Seq::empty()) =~= seq![token] + tail);
            assert forall|k: int| 0 <= k < (seq![token] + tail).len() implies place_of(
                #[trigger] (seq![token] + tail)[k],
            ) is Some by {
                if k > 0 {
                    assert((seq![token] + tail)[k] == tail[k - 1]);
                }
            }
        }
    }
    if from == 0 {
        assert(text.skip(0) =~= text);
    }
}

/// Reads a pattern from its text. The answer is `None` where some token is
/// neither two hexadecimal digits nor `??`.
pub fn parse_pattern(text: &str) -> (r: Option<Vec<Place>>)
    ensures
        match r {
            Some(pattern) => pattern_of(text.spec_bytes()) == Some(pattern@),
            None => pattern_of(text.spec_bytes()) is None,
        },
{
    let bytes = text.as_bytes();
    let mut out: Vec<Place> = Vec::new();
    let mut ok: bool = true;
    let mut open_len: usize = 0;
    let mut first: u8 = 0;
    let mut second: u8 = 0;
    let ghost mut closed: Seq<Seq<u8>> = Seq::empty();
    let ghost mut open: Seq<u8> = Seq::empty();
    let mut i: usize = 0;
    assert(bytes@.skip(0) =~= bytes@);
    while i < bytes.len()
        invariant
            i <= bytes@.len(),
            tokens(bytes@) == closed + tokens_from(bytes@.skip(i as int), open),
            open.len() == open_len,
            open_len <= i,
            open_len >= 1 ==> open[0] == first,
            open_len >= 2 ==> open[1] == second,
            ok == all_places(closed),
            ok ==> out@ == places_of(closed),
        decreases bytes@.len() - i,
    {
        let b: u8 = bytes[i];
        let ghost rest = bytes@.skip(i as int);
        assert(rest[0] == b);
        assert(rest.skip(1) =~= bytes@.skip(i + 1));
        if b == 32 || b == 9 || b == 10 || b == 12 || b == 13 {
            if open_len > 0 {
                let place = if open_len == 2 {
                    assert(open =~= seq![first, second]);
                    read_place(first, second)
                } else {
                    None
                };
                proof {
                    lemma_token_closed(closed, open);
                    let before = closed;
                    closed = closed.push(open);
                    assert(closed + tokens_from(rest.skip(1), Seq::empty()) =~= before
                        + tokens_from(rest, open));
                }
                match place {
                    Some(p) => {
                        out.push(p);
                    },
                    None => {
                        ok = false;
                    },
                }
                open_len = 0;
                proof {
                    open = Seq::empty();
                }
            } else {
                assert(open =~= Seq::<u8>::empty());
                assert(closed + tokens_from(rest.skip(1), open) =~= closed + tokens_from(
                    rest,
                    open,
                ));
            }
        } else {
            if open_len == 0 {
                first = b;
            } else if open_len == 1 {
                second = b;
            }
            open_len = open_len + 1;
            proof {
                assert(tokens_from(rest, open) == tokens_from(rest.skip(1), open.push(b)));
                open = open.push(b);
            }
        }
        i += 1;
    }
    assert(bytes@.skip(i as int).len() == 0);
    if open_len > 0 {
        let place = if open_len == 2 {
            assert(open =~= seq![first, second]);
            read_place(first, second)
        } else {
            None
        };
        proof {
            lemma_token_closed(closed, open);
            let before = closed;
            closed = closed.push(open);
            assert(tokens(bytes@) =~= closed);
        }
        match place {
            Some(p) => {
                out.push(p);
            },
            None => {
                ok = false;
            },
        }
    } else {
        assert(tokens(bytes@) =~= closed);
    }
    if ok {
        Some(out)
    } else {
        None
    }
}

/// Whether `pattern` stands in `image` at offset `at`.
fn stands_at(image: &[u8], pattern: &[Place], at: usize) -> (r: bool)
    requires
        at + pattern@.len() <= image@.len(),
    ensures
        r == matches_at(image@, pattern@, at as int),
{
    let size: usize = image.len();
    let mut k: usize = 0;
    while k < pattern.len()
        invariant
            k <= pattern@.len(),
            size == image@.len(),
            at + pattern@.len() <= image@.len(),
            forall|j: int|
                0 <= j < k ==> (#[trigger] pattern@[j] is None || pattern@[j] == Some(
                    image@[at + j],
                )),
        decreases pattern@.len() - k,
    {
        match pattern[k] {
            Some(byte) => {
                if image[at + k] != byte {
                    assert(!(pattern@[k as int] is None || pattern@[k as int] == Some(
                        image@[at + k],
                    )));
                    return false;
                }
            },
            None => {},
        }
        k += 1;
    }
    true
}

/// Searches `image` for `pattern` and answers the lowest offset at which it
/// stands.
pub fn find(image: &[u8], pattern: &[Place]) -> (r: Option<usize>)
    ensures
        match r {
            Some(at) => is_first_match(image@, pattern@, at as int),
            None => forall|at: int| !matches_at(image@, pattern@, at),
        },
        r is Some ==> first_match(image@, pattern@) == Some(r->0 as int),
        r is None ==> first_match(image@, pattern@) is None,
{
    if pattern.len() > image.len() {
        return None;
    }
    let last: usize = image.len() - pattern.len();
    let mut at: usize = 0;
    loop
        invariant
            last == image@.len() - pattern@.len(),
            at <= last,
            forall|before: int| 0 <= before < at ==> !matches_at(image@, pattern@, before),
        decreases last - at,
    {
        if stands_at(image, pattern, at) {
            proof {
                lemma_first_match_is_unique(image@, pattern@, at as int);
            }
            return Some(at);
        }
        if at == last {
            return None;
        }
        at += 1;
    }
}

/// What a search for a written pattern came to.
#[derive(Clone, Copy, Debug, PartialEq, Eq, Structural)]
pub enum ScanError {
    /// The text does not write a pattern.
    Malformed,
}

/// The address at which the pattern that `signature` writes first stands in
/// a module whose image is `image` and begins at `base`.
pub open spec fn scan_result(image: Seq<u8>, base: u64, signature: Seq<u8>) -> Result<
    Option<u64>,
    ScanError,
> {
    match pattern_of(signature) {
        None => Err(ScanError::Malformed),
        Some(pattern) => match first_match(image, pattern) {
            None => Ok(None),
            Some(at) => Ok(Some((base + at) as u64)),
        },
    }
}

/// Searches a module for a written pattern and answers the address of its
/// first occurrence. `image` is the module as read from memory and `base`
/// the address of its first byte; the module has to lie within the address
/// space.
pub fn pattern_scan(image: &[u8], base: u64, signature: &str) -> (r: Result<Option<u64>, ScanError>)
    requires
        base + image@.len() <= u64::MAX,
    ensures
        r == scan_result(image@, base, signature.spec_bytes()),
{
    match parse_pattern(signature) {
        None => Err(ScanError::Malformed),
        Some(pattern) => match find(image, pattern.as_slice()) {
            None => Ok(None),
            Some(at) => Ok(Some(base + at as u64)),
        },
    }
}

} // verus!
