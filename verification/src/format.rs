//! Response formats, the media types that name them, and the choice of a
//! format from a client's accept list.

use crate::text::{chars_of, lowercase, lowercase_chars};
use vstd::prelude::*;

verus! {

/// The media type of comma-separated values.
pub const CONTENT_TYPE_CSV: &'static str = "text/csv";

/// The media type of JSON, the default.
pub const CONTENT_TYPE_JSON: &'static str = "application/json";

/// The media type of the Arrow IPC stream.
pub const CONTENT_TYPE_ARROW: &'static str = "application/vnd.apache.arrow.stream";

/// The wildcard: any media type will do.
pub const CONTENT_TYPE_ANY: &'static str = "*/*";

/// The encodings a result set can be streamed in.
#[derive(Clone, Copy, Debug, PartialEq, Eq, Structural)]
pub enum QueryResponseFormat {
    CSV,
    JSON,
    ARROW,
}

impl QueryResponseFormat {
    /// The canonical media type of the format.
    pub open spec fn media_type(self) -> Seq<char> {
        match self {
            QueryResponseFormat::CSV => CONTENT_TYPE_CSV@,
            QueryResponseFormat::JSON => CONTENT_TYPE_JSON@,
            QueryResponseFormat::ARROW => CONTENT_TYPE_ARROW@,
        }
    }

    /// The canonical media type, as sent in `Content-Type` and accepted in
    /// `Accept`.
    pub fn to_string(&self) -> (r: String)
        ensures
            r@ == self.media_type(),
    {
        match self {
            QueryResponseFormat::CSV => String::from_str(CONTENT_TYPE_CSV),
            QueryResponseFormat::JSON => String::from_str(CONTENT_TYPE_JSON),
            QueryResponseFormat::ARROW => String::from_str(CONTENT_TYPE_ARROW),
        }
    }
}

/// The format that one entry of an accept list asks for. The wildcard asks
/// for JSON; an entry that names no supported media type asks for nothing.
pub open spec fn format_of(entry: Seq<char>) -> Option<QueryResponseFormat> {
    if entry == CONTENT_TYPE_JSON@ || entry == CONTENT_TYPE_ANY@ {
        Some(QueryResponseFormat::JSON)
    } else if entry == CONTENT_TYPE_CSV@ {
        Some(QueryResponseFormat::CSV)
    } else if entry == CONTENT_TYPE_ARROW@ {
        Some(QueryResponseFormat::ARROW)
    } else {
        None
    }
}

/// The position of the first comma of `s`, or the length of `s` when it has
/// none.
pub open spec fn first_comma(s: Seq<char>) -> int
    decreases s.len(),
{
    if s.len() == 0 || s[0] == ',' {
        0
    } else {
        1 + first_comma(s.drop_first())
    }
}

/// The entries of a comma-separated list, in order. Nothing is trimmed, and a
/// text without a comma is a list of one entry, the empty text included.
pub open spec fn entries(s: Seq<char>) -> Seq<Seq<char>>
    decreases s.len(),
    via entries_decreases
{
    let k = first_comma(s);
    if k >= s.len() {
        seq![s]
    } else {
        seq![s.take(k)] + entries(s.skip(k + 1))
    }
}

#[via_fn]
proof fn entries_decreases(s: Seq<char>) {
    lemma_first_comma_bounds(s);
}

/// The format of the first entry, from the left, that asks for one.
pub open spec fn first_compatible(list: Seq<Seq<char>>) -> Option<QueryResponseFormat>
    decreases list.len(),
{
    if list.len() == 0 {
        None
    } else {
        match format_of(list[0]) {
            Some(f) => Some(f),
            None => first_compatible(list.drop_first()),
        }
    }
}

/// The format negotiated for an `Accept` header value: none when the header
/// is absent, else the first compatible entry of the value read without
/// regard to case.
pub open spec fn negotiated(accept: Option<Seq<char>>) -> Option<QueryResponseFormat> {
    match accept {
        None => None,
        Some(value) => first_compatible(entries(lowercase(value))),
    }
}

/// The text of an optional string slice.
pub open spec fn text_of(accept: Option<&str>) -> Option<Seq<char>> {
    match accept {
        None => None,
        Some(value) => Some(value@),
    }
}

/// The first comma lies within the text or at its end, holds a comma where it
/// lies within, and has none before it.
pub proof fn lemma_first_comma_bounds(s: Seq<char>)
    ensures
        0 <= first_comma(s) <= s.len(),
        first_comma(s) < s.len() ==> s[first_comma(s)] == ',',
        forall|j: int| 0 <= j < first_comma(s) ==> s[j] != ',',
    decreases s.len(),
{
    if s.len() == 0 || s[0] == ',' {
    } else {
        let t = s.drop_first();
        lemma_first_comma_bounds(t);
        assert forall|j: int| 0 <= j < first_comma(s) implies s[j] != ',' by {
            if j > 0 {
                assert(s[j] == t[j - 1]);
            }
        }
    }
}

/// A position that holds a comma, or is the end, with no comma before it, is
/// the first comma.
pub proof fn lemma_first_comma_is(s: Seq<char>, k: int)
    requires
        0 <= k <= s.len(),
        k < s.len() ==> s[k] == ',',
        forall|j: int| 0 <= j < k ==> s[j] != ',',
    ensures
        first_comma(s) == k,
{
    lemma_first_comma_bounds(s);
    let f = first_comma(s);
    if f < k {
        assert(s[f] == ',');
    } else if f > k {
        assert(s[k] != ',');
    }
}

/// A list read back as one text, its entries joined by commas.
pub open spec fn joined(list: Seq<Seq<char>>) -> Seq<char>
    decreases list.len(),
{
    if list.len() == 0 {
        Seq::empty()
    } else if list.len() == 1 {
        list[0]
    } else {
        list[0] + seq![','] + joined(list.drop_first())
    }
}

/// The entries of a text are the pieces between its commas: none of them
/// holds a comma, there is at least one, and joined by commas they are the
/// text again.
pub proof fn law_entries_split_at_commas(s: Seq<char>)
    ensures
        entries(s).len() >= 1,
        forall|i: int, j: int|
            0 <= i < entries(s).len() && 0 <= j < entries(s)[i].len() ==> entries(s)[i][j] != ',',
        joined(entries(s)) == s,
    decreases s.len(),
{
    lemma_first_comma_bounds(s);
    let k = first_comma(s);
    if k >= s.len() {
        assert(entries(s) =~= seq![s]);
    } else {
        let head = s.take(k);
        let rest = s.skip(k + 1);
        law_entries_split_at_commas(rest);
        let list = entries(s);
        assert(list == seq![head] + entries(rest));
        assert(list[0] == head);
        assert(list.drop_first() =~= entries(rest));
        assert forall|i: int, j: int| 0 <= i < list.len() && 0 <= j < list[i].len() implies list[i][j]
            != ',' by {
            if i == 0 {
                assert(head[j] == s[j]);
            } else {
                assert(list[i] == entries(rest)[i - 1]);
            }
        }
        assert(joined(list) == head + seq![','] + rest);
        assert(head + seq![','] + rest =~= s);
    }
}

/// The negotiated format is that of the leftmost entry that asks for one:
/// where entry `i` asks for a format and no entry before it does, that
/// format is chosen, whatever follows.
pub proof fn law_leftmost_entry_wins(list: Seq<Seq<char>>, i: int)
    requires
        0 <= i < list.len(),
        format_of(list[i]) is Some,
        forall|j: int| 0 <= j < i ==> format_of(#[trigger] list[j]) is None,
    ensures
        first_compatible(list) == format_of(list[i]),
    decreases i,
{
    if i > 0 {
        let rest = list.drop_first();
        assert(format_of(list[0]) is None);
        assert(rest[i - 1] == list[i]);
        assert forall|j: int| 0 <= j < i - 1 implies format_of(#[trigger] rest[j]) is None by {
            assert(rest[j] == list[j + 1]);
        }
        law_leftmost_entry_wins(rest, i - 1);
    }
}

/// Nothing is negotiated exactly when no entry asks for a supported format.
pub proof fn law_none_when_no_entry_qualifies(list: Seq<Seq<char>>)
    ensures
        first_compatible(list) is None <==> forall|j: int|
            0 <= j < list.len() ==> format_of(#[trigger] list[j]) is None,
    decreases list.len(),
{
    if list.len() > 0 {
        let rest = list.drop_first();
        law_none_when_no_entry_qualifies(rest);
        if first_compatible(list) is None {
            assert forall|j: int| 0 <= j < list.len() implies format_of(#[trigger] list[j])
                is None by {
                if j > 0 {
                    assert(list[j] == rest[j - 1]);
                }
            }
        }
        if forall|j: int| 0 <= j < list.len() ==> format_of(#[trigger] list[j]) is None {
            assert(format_of(list[0]) is None);
            assert forall|j: int| 0 <= j < rest.len() implies format_of(#[trigger] rest[j])
                is None by {
                assert(rest[j] == list[j + 1]);
            }
        }
    }
}

/// Whether the characters of `chars` from `start` up to `end` are those of
/// `word`.
fn slice_is(chars: &Vec<char>, start: usize, end: usize, word: &Vec<char>) -> (r: bool)
    requires
        start <= end <= chars.len(),
    ensures
        r == (chars@.subrange(start as int, end as int) == word@),
{
    if end - start != word.len() {
        return false;
    }
    let ghost entry = chars@.subrange(start as int, end as int);
    let mut j: usize = 0;
    while j < word.len()
        invariant
            start <= end <= chars.len(),
            end - start == word.len(),
            j <= word.len(),
            entry == chars@.subrange(start as int, end as int),
            forall|k: int| 0 <= k < j ==> entry[k] == word@[k],
        decreases word.len() - j,
    {
        if chars[start + j] != word[j] {
            assert(entry[j as int] != word@[j as int]);
            return false;
        }
        j += 1;
    }
    assert(entry =~= word@);
    true
}

/// The media types an entry is held against, as characters.
struct MediaTypes {
    json: Vec<char>,
    any: Vec<char>,
    csv: Vec<char>,
    arrow: Vec<char>,
}

impl MediaTypes {
    spec fn wf(&self) -> bool {
        &&& self.json@ == CONTENT_TYPE_JSON@
        &&& self.any@ == CONTENT_TYPE_ANY@
        &&& self.csv@ == CONTENT_TYPE_CSV@
        &&& self.arrow@ == CONTENT_TYPE_ARROW@
    }

    fn new() -> (r: MediaTypes)
        ensures
            r.wf(),
    {
        MediaTypes {
            json: chars_of(CONTENT_TYPE_JSON),
            any: chars_of(CONTENT_TYPE_ANY),
            csv: chars_of(CONTENT_TYPE_CSV),
            arrow: chars_of(CONTENT_TYPE_ARROW),
        }
    }

    /// The format asked for by the entry of `chars` from `start` up to `end`.
    fn classify(&self, chars: &Vec<char>, start: usize, end: usize) -> (r: Option<
        QueryResponseFormat,
    >)
        requires
            self.wf(),
            start <= end <= chars.len(),
        ensures
            r == format_of(chars@.subrange(start as int, end as int)),
    {
        if slice_is(chars, start, end, &self.json) || slice_is(chars, start, end, &self.any) {
            Some(QueryResponseFormat::JSON)
        } else if slice_is(chars, start, end, &self.csv) {
            Some(QueryResponseFormat::CSV)
        } else if slice_is(chars, start, end, &self.arrow) {
            Some(QueryResponseFormat::ARROW)
        } else {
            None
        }
    }
}

/// The format of the entry of `s` from `start` up to `end` if it asks for
/// one, else what is negotiated behind the comma at `end`, if there is one.
spec fn entry_or_rest(s: Seq<char>, start: int, end: int) -> Option<QueryResponseFormat> {
    match format_of(s.subrange(start, end)) {
        Some(f) => Some(f),
        None => if end < s.len() {
            first_compatible(entries(s.skip(end + 1)))
        } else {
            None
        },
    }
}

/// What [`first_compatible`] makes of a list that begins at `start` in `s`
/// and whose first entry ends at `end`.
proof fn lemma_scan_step(s: Seq<char>, start: int, end: int)
    requires
        0 <= start <= end <= s.len(),
        end < s.len() ==> s[end] == ',',
        forall|j: int| start <= j < end ==> s[j] != ',',
    ensures
        first_compatible(entries(s.skip(start))) == entry_or_rest(s, start, end),
{
    let rest = s.skip(start);
    let k = end - start;
    assert forall|j: int| 0 <= j < k implies rest[j] != ',' by {
        assert(rest[j] == s[start + j]);
    }
    lemma_first_comma_is(rest, k);
    assert(rest.take(k) =~= s.subrange(start, end));
    if end < s.len() {
        assert(rest.skip(k + 1) =~= s.skip(end + 1));
        let list = entries(rest);
        assert(list == seq![rest.take(k)] + entries(rest.skip(k + 1)));
        assert(list[0] == rest.take(k));
        assert(list.drop_first() =~= entries(rest.skip(k + 1)));
    } else {
        assert(rest.take(k) =~= rest);
        let list = entries(rest);
        assert(list == seq![rest]);
        assert(list[0] == rest);
        assert(first_compatible(list.drop_first()) is None);
    }
}

/// Chooses the response format for the value of an `Accept` header: the
/// first entry of the comma-separated list, read without regard to case, that
/// names a supported media type or the wildcard. An absent header, and a list
/// with no such entry, choose nothing.
pub fn get_first_compatible_format(accept: Option<&str>) -> (r: Option<QueryResponseFormat>)
    ensures
        r == negotiated(text_of(accept)),
{
    let value = match accept {
        Some(value) => value,
        None => {
            return None;
        },
    };
    let chars = lowercase_chars(value);
    let media = MediaTypes::new();
    let mut start: usize = 0;
    let mut i: usize = 0;
    assert(chars@.skip(0) =~= chars@);
    while i < chars.len()
        invariant
            media.wf(),
            start <= i <= chars.len(),
            chars@ == lowercase(value@),
            forall|j: int| start <= j < i ==> chars@[j] != ',',
            negotiated(text_of(accept)) == first_compatible(entries(chars@.skip(start as int))),
        decreases chars.len() - i,
    {
        if chars[i] == ',' {
            proof {
                lemma_scan_step(chars@, start as int, i as int);
            }
            let found = media.classify(&chars, start, i);
            if found.is_some() {
                return found;
            }
            start = i + 1;
        }
        i += 1;
    }
    proof {
        lemma_scan_step(chars@, start as int, chars.len() as int);
    }
    media.classify(&chars, start, chars.len())
}

} // verus!
