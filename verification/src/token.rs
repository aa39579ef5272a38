//! The outer shape of an attestation token: three segments joined by dots,
//! the first of which holds the header.

use crate::encoding::base64url_decoding;
use crate::json::{json_parsing, Json};
use vstd::prelude::*;

verus! {

/// The separator between the segments of a token.
pub open spec fn separator() -> char {
    '.'
}

/// How many separators a text holds.
pub open spec fn separator_count(text: Seq<char>) -> nat
    decreases text.len(),
{
    if text.len() == 0 {
        0
    } else {
        separator_count(text.drop_last()) + if text.last() == separator() {
            1nat
        } else {
            0nat
        }
    }
}

/// `first` and `second` are the places of the only two separators of `text`.
pub open spec fn splits_at(text: Seq<char>, first: int, second: int) -> bool {
    &&& 0 <= first < second < text.len()
    &&& forall|k: int| 0 <= k < text.len() ==> (text[k] == separator() <==> (k == first || k == second))
}

/// `text` holds no separator.
pub open spec fn unsplit(text: Seq<char>) -> bool {
    forall|k: int| 0 <= k < text.len() ==> text[k] != separator()
}

/// The three segments of a token, as texts.
pub struct SegmentsView {
    pub header: Seq<char>,
    pub payload: Seq<char>,
    pub signature: Seq<char>,
}

impl SegmentsView {
    /// No segment holds a separator.
    pub open spec fn unsplit(self) -> bool {
        unsplit(self.header) && unsplit(self.payload) && unsplit(self.signature)
    }

    /// The segments joined by separators.
    pub open spec fn joined(self) -> Seq<char> {
        self.header + seq![separator()] + self.payload + seq![separator()] + self.signature
    }
}

/// The segments of a text that holds exactly two separators; `None` for any
/// other text.
pub open spec fn segments(text: Seq<char>) -> Option<SegmentsView> {
    if exists|first: int, second: int| splits_at(text, first, second) {
        let (first, second) = choose|first: int, second: int| splits_at(text, first, second);
        Some(
            SegmentsView {
                header: text.subrange(0, first),
                payload: text.subrange(first + 1, second),
                signature: text.subrange(second + 1, text.len() as int),
            },
        )
    } else {
        None
    }
}

/// The header of a token as a document: the first of its three segments,
/// decoded and parsed. `None` for a token of another shape, for a segment
/// that is not base64url, and for bytes that are not JSON.
pub open spec fn header_document(token: Seq<char>) -> Option<Json> {
    match segments(token) {
        Some(parts) => match base64url_decoding(parts.header) {
            Some(bytes) => json_parsing(bytes),
            None => None,
        },
        None => None,
    }
}

/// The payload of a token as a document: the second of its three segments,
/// decoded and parsed. `None` wherever [`header_document`] would be for the
/// first.
pub open spec fn payload_document(token: Seq<char>) -> Option<Json> {
    match segments(token) {
        Some(parts) => match base64url_decoding(parts.payload) {
            Some(bytes) => json_parsing(bytes),
            None => None,
        },
        None => None,
    }
}

/// The header claim that declares the signature algorithm.
pub open spec fn algorithm_claim() -> Seq<char> {
    "alg"@
}

/// The signature algorithm that the header of a token declares, `None`
/// where the header is no document or declares none as a string.
pub open spec fn declared_algorithm(token: Seq<char>) -> Option<Seq<char>> {
    match header_document(token) {
        Some(header) => match header.member(algorithm_claim()) {
            Some(Json::String(name)) => Some(name),
            _ => None,
        },
        None => None,
    }
}

/// The three segments of a token, borrowed from it.
pub struct Segments<'a> {
    pub header: &'a str,
    pub payload: &'a str,
    pub signature: &'a str,
}

impl<'a> View for Segments<'a> {
    type V = SegmentsView;

    open spec fn view(&self) -> SegmentsView {
        SegmentsView { header: self.header@, payload: self.payload@, signature: self.signature@ }
    }
}

/// Two pairs of separator places of one text are the same pair.
pub proof fn splits_at_unique(text: Seq<char>, a: int, b: int, c: int, d: int)
    requires
        splits_at(text, a, b),
        splits_at(text, c, d),
    ensures
        a == c,
        b == d,
{
    assert(text[a] == separator());
    assert(text[b] == separator());
    assert(text[c] == separator());
    assert(text[d] == separator());
}

/// `place` is the place of the only separator of `text`.
spec fn splits_once_at(text: Seq<char>, place: int) -> bool {
    &&& 0 <= place < text.len()
    &&& forall|k: int| 0 <= k < text.len() ==> (text[k] == separator() <==> k == place)
}

proof fn count_of_unsplit(text: Seq<char>)
    ensures
        unsplit(text) <==> separator_count(text) == 0,
    decreases text.len(),
{
    if text.len() > 0 {
        let front = text.drop_last();
        count_of_unsplit(front);
        assert(forall|k: int| 0 <= k < front.len() ==> front[k] == text[k]);
        if unsplit(front) && text.last() != separator() {
            assert(unsplit(text));
        }
        if unsplit(text) {
            assert(text[text.len() - 1] != separator());
            assert(unsplit(front));
        }
    }
}

proof fn count_of_split_once(text: Seq<char>)
    ensures
        (exists|place: int| splits_once_at(text, place)) <==> separator_count(text) == 1,
    decreases text.len(),
{
    if text.len() > 0 {
        let front = text.drop_last();
        let end = text.len() - 1;
        count_of_unsplit(front);
        count_of_split_once(front);
        assert(forall|k: int| 0 <= k < front.len() ==> front[k] == text[k]);
        if separator_count(text) == 1 {
            if text.last() == separator() {
                assert(unsplit(front));
                assert(splits_once_at(text, end));
            } else {
                let place = choose|place: int| splits_once_at(front, place);
                assert(splits_once_at(text, place));
            }
        }
        if exists|place: int| splits_once_at(text, place) {
            let place = choose|place: int| splits_once_at(text, place);
            if place == end {
                assert(unsplit(front));
            } else {
                assert(text[end] != separator());
                assert(splits_once_at(front, place));
            }
        }
    }
}

/// Cutting undoes joining: the segments of a text are the three texts
/// without separators that, joined by separators, make it up.
pub proof fn segments_iff_joined(text: Seq<char>, parts: SegmentsView)
    ensures
        segments(text) == Some(parts) <==> (parts.unsplit() && parts.joined() == text),
{
    if segments(text) == Some(parts) {
        let (first, second) = choose|first: int, second: int| splits_at(text, first, second);
        assert(parts.joined() =~= text);
        assert(parts.unsplit());
    }
    if parts.unsplit() && parts.joined() == text {
        let first = parts.header.len() as int;
        let second = first + 1 + parts.payload.len();
        assert forall|k: int| 0 <= k < text.len() implies (text[k] == separator() <==> (k == first
            || k == second)) by {
            if k < first {
                assert(text[k] == parts.header[k]);
            } else if first < k < second {
                assert(text[k] == parts.payload[k - first - 1]);
            } else if second < k {
                assert(text[k] == parts.signature[k - second - 1]);
            }
        }
        assert(splits_at(text, first, second));
        let (a, b) = choose|a: int, b: int| splits_at(text, a, b);
        splits_at_unique(text, a, b, first, second);
        assert(text.subrange(0, first) =~= parts.header);
        assert(text.subrange(first + 1, second) =~= parts.payload);
        assert(text.subrange(second + 1, text.len() as int) =~= parts.signature);
    }
}

/// A text has three segments exactly when it holds two separators.
pub proof fn segments_iff_two_separators(text: Seq<char>)
    ensures
        segments(text) is Some <==> separator_count(text) == 2,
    decreases text.len(),
{
    if text.len() > 0 {
        let front = text.drop_last();
        let end = text.len() - 1;
        count_of_split_once(front);
        segments_iff_two_separators(front);
        assert(forall|k: int| 0 <= k < front.len() ==> front[k] == text[k]);
        if separator_count(text) == 2 {
            if text.last() == separator() {
                let place = choose|place: int| splits_once_at(front, place);
                assert(splits_at(text, place, end));
            } else {
                let (first, second) = choose|first: int, second: int| splits_at(front, first, second);
                assert(splits_at(text, first, second));
            }
        }
        if exists|first: int, second: int| splits_at(text, first, second) {
            let (first, second) = choose|first: int, second: int| splits_at(text, first, second);
            if second == end {
                assert(splits_once_at(front, first));
            } else {
                assert(text[end] != separator());
                assert(splits_at(front, first, second));
            }
        }
    }
}

/// Cuts a token at its separators.
///
/// Gives the three segments of a token that holds exactly two dots, and
/// `None` for a token with fewer or more.
pub fn split_segments<'a>(token: &'a str) -> (parts: Option<Segments<'a>>)
    ensures
        match parts {
            Some(found) => segments(token@) == Some(found@) && found@.unsplit() && found@.joined()
                == token@,
            None => segments(token@) is None,
        },
        parts is Some <==> separator_count(token@) == 2,
{
    proof {
        segments_iff_two_separators(token@);
    }
    let length = token.unicode_len();
    let mut first: usize = 0;
    let mut second: usize = 0;
    let mut seen: usize = 0;
    let mut at: usize = 0;
    for c in walk: token.chars()
        invariant
            segments(token@) is Some <==> separator_count(token@) == 2,
            walk.seq() == token@,
            length == token@.len(),
            at == walk.index(),
            seen <= 2,
            seen == 0 ==> forall|k: int| 0 <= k < at ==> token@[k] != separator(),
            seen == 1 ==> first < at && forall|k: int|
                0 <= k < at ==> (token@[k] == separator() <==> k == first),
            seen == 2 ==> first < second < at && forall|k: int|
                0 <= k < at ==> (token@[k] == separator() <==> (k == first || k == second)),
    {
        if c == '.' {
            if seen == 0 {
                first = at;
            } else if seen == 1 {
                second = at;
            } else {
                proof {
                    assert forall|a: int, b: int| !splits_at(token@, a, b) by {
                        if splits_at(token@, a, b) {
                            assert(token@[first as int] == separator());
                            assert(token@[second as int] == separator());
                            assert(token@[at as int] == separator());
                        }
                    }
                }
                return None;
            }
            seen = seen + 1;
        }
        at = at + 1;
    }
    if seen != 2 {
        proof {
            assert forall|a: int, b: int| !splits_at(token@, a, b) by {
                if splits_at(token@, a, b) {
                    assert(token@[a] == separator());
                    assert(token@[b] == separator());
                }
            }
        }
        return None;
    }
    proof {
        assert(splits_at(token@, first as int, second as int));
        let (a, b) = choose|a: int, b: int| splits_at(token@, a, b);
        splits_at_unique(token@, a, b, first as int, second as int);
    }
    let header = token.substring_char(0, first);
    let payload = token.substring_char(first + 1, second);
    let signature = token.substring_char(second + 1, length);
    let found = Segments { header, payload, signature };
    proof {
        segments_iff_joined(token@, found@);
    }
    Some(found)
}

} // verus!
