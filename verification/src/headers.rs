//! Parsing of the raw header bytes that a collector captured.
//!
//! The engine delivers one physical header line per callback, the status
//! line included. The collector only accumulates them; this module turns the
//! accumulated bytes into fields and the fields into a header map, after the
//! transfer is over.
use http::{HeaderMap, HeaderName, HeaderValue};
use vstd::prelude::*;
use vstd::slice::slice_subrange;
use vstd::string::StringSliceAdditionalSpecFns;
use vstd::utf8::valid_utf8;

verus! {

/// Line feed, which ends a header line.
pub const LINE_FEED: u8 = 10;

/// Carriage return, which may stand before the line feed.
pub const CARRIAGE_RETURN: u8 = 13;

/// The colon of the separator between a header's name and its value.
pub const COLON: u8 = 58;

/// The space of the separator between a header's name and its value.
pub const SPACE: u8 = 32;

/// Horizontal tab, the one control byte that a header value may hold.
pub const TAB: u8 = 9;

/// Delete, a byte that no header value may hold.
pub const DELETE: u8 = 127;

/// A header line split at its first separator, both parts unchecked.
#[derive(Clone, Debug, PartialEq, Eq)]
pub struct HeaderField {
    /// The bytes before the separator.
    pub name: Vec<u8>,
    /// The bytes after the separator.
    pub value: Vec<u8>,
}

impl View for HeaderField {
    type V = (Seq<u8>, Seq<u8>);

    open spec fn view(&self) -> (Seq<u8>, Seq<u8>) {
        (self.name@, self.value@)
    }
}

/// The views of a sequence of fields, in order.
pub open spec fn field_views(fields: Seq<HeaderField>) -> Seq<(Seq<u8>, Seq<u8>)> {
    fields.map_values(|f: HeaderField| f@)
}

/// The position of the first line feed at or after `from`, or the length of
/// `raw` where there is none.
pub open spec fn line_end(raw: Seq<u8>, from: int) -> int
    decreases raw.len() - from,
{
    if from < 0 || from >= raw.len() {
        raw.len() as int
    } else if raw[from] == LINE_FEED {
        from
    } else {
        line_end(raw, from + 1)
    }
}

/// The line that starts at `from`: the bytes up to the next line feed,
/// without the carriage return before that line feed. A last line that no
/// line feed ends keeps a trailing carriage return.
pub open spec fn line_at(raw: Seq<u8>, from: int) -> Seq<u8> {
    let end = line_end(raw, from);
    let line = raw.subrange(from, end);
    if end < raw.len() && line.len() > 0 && line.last() == CARRIAGE_RETURN {
        line.drop_last()
    } else {
        line
    }
}

/// Where the line after the one that starts at `from` starts: one past the
/// end of this line.
pub open spec fn next_line_start(raw: Seq<u8>, from: int) -> int {
    line_end(raw, from) + 1
}

/// Whether the two bytes at `i` are a colon and a space.
pub open spec fn separator_at(line: Seq<u8>, i: int) -> bool {
    0 <= i && i + 1 < line.len() && line[i] == COLON && line[i + 1] == SPACE
}

/// Whether `i` is the first place in `line` where the separator stands.
pub open spec fn first_separator(line: Seq<u8>, i: int) -> bool {
    separator_at(line, i) && forall|j: int| 0 <= j < i ==> !separator_at(line, j)
}

/// A line split at its first separator, or `None` for a line without one.
pub open spec fn split_field(line: Seq<u8>) -> Option<(Seq<u8>, Seq<u8>)> {
    if exists|i: int| separator_at(line, i) {
        let i = choose|i: int| first_separator(line, i);
        Some((line.take(i), line.skip(i + 2)))
    } else {
        None
    }
}

/// The fields of the lines of `raw` that start at `from` or later, in order.
/// Lines without a separator give no field.
pub open spec fn fields_from(raw: Seq<u8>, from: int) -> Seq<(Seq<u8>, Seq<u8>)>
    decreases raw.len() - from,
{
    if from < 0 || from >= raw.len() {
        Seq::empty()
    } else {
        let end = line_end(raw, from);
        let rest = if from <= end < raw.len() {
            fields_from(raw, end + 1)
        } else {
            Seq::empty()
        };
        match split_field(line_at(raw, from)) {
            Some(field) => seq![field] + rest,
            None => rest,
        }
    }
}

/// The fields of all lines of `raw`, in order.
pub open spec fn header_fields(raw: Seq<u8>) -> Seq<(Seq<u8>, Seq<u8>)> {
    fields_from(raw, 0)
}

/// The end of a line lies between its start and the end of the input, and
/// no line feed stands before it.
pub proof fn lemma_line_end_bounds(raw: Seq<u8>, from: int)
    requires
        0 <= from <= raw.len(),
    ensures
        from <= line_end(raw, from) <= raw.len(),
        line_end(raw, from) < raw.len() ==> raw[line_end(raw, from)] == LINE_FEED,
        forall|k: int| from <= k < line_end(raw, from) ==> raw[k] != LINE_FEED,
    decreases raw.len() - from,
{
    if from < raw.len() && raw[from] != LINE_FEED {
        lemma_line_end_bounds(raw, from + 1);
    }
}

/// A line that holds no separator contributes no field: the fields found
/// from its start are the fields found after it.
pub proof fn lemma_line_without_separator_is_skipped(raw: Seq<u8>, from: int)
    requires
        0 <= from < raw.len(),
        forall|i: int| !separator_at(line_at(raw, from), i),
    ensures
        fields_from(raw, from) == fields_from(raw, next_line_start(raw, from)),
{
    lemma_line_end_bounds(raw, from);
}

/// A line that holds a separator contributes exactly one field, made of
/// the bytes before its first separator and the bytes after it.
pub proof fn lemma_line_with_separator_is_split(raw: Seq<u8>, from: int, i: int)
    requires
        0 <= from < raw.len(),
        first_separator(line_at(raw, from), i),
    ensures
        fields_from(raw, from) == seq![
            (line_at(raw, from).take(i), line_at(raw, from).skip(i + 2)),
        ] + fields_from(raw, next_line_start(raw, from)),
{
    lemma_line_end_bounds(raw, from);
    lemma_first_separator_is_unique(line_at(raw, from), i);
}

/// A line has at most one first separator, and `split_field` splits there.
pub proof fn lemma_first_separator_is_unique(line: Seq<u8>, i: int)
    requires
        first_separator(line, i),
    ensures
        split_field(line) == Some((line.take(i), line.skip(i + 2))),
{
    assert(separator_at(line, i));
    let c = choose|c: int| first_separator(line, c);
    assert(first_separator(line, c));
    if c < i {
        assert(!separator_at(line, c));
    }
    if i < c {
        assert(!separator_at(line, i));
    }
}

/// Bytes that follow a line do not change where the line ends.
pub proof fn lemma_line_end_ignores_what_follows(a: Seq<u8>, b: Seq<u8>, from: int)
    requires
        0 <= from <= a.len(),
        line_end(a, from) < a.len(),
    ensures
        line_end(a + b, from) == line_end(a, from),
    decreases a.len() - from,
{
    if from < a.len() {
        assert((a + b)[from] == a[from]);
        if a[from] != LINE_FEED {
            lemma_line_end_ignores_what_follows(a, b, from + 1);
        }
    }
}

/// Bytes that stand before a line move the end of the line by their
/// number.
pub proof fn lemma_line_end_moves_with_what_precedes(a: Seq<u8>, b: Seq<u8>, k: int)
    requires
        0 <= k <= b.len(),
    ensures
        line_end(a + b, a.len() + k) == a.len() + line_end(b, k),
    decreases b.len() - k,
{
    if k < b.len() {
        assert((a + b)[a.len() + k] == b[k]);
        if b[k] != LINE_FEED {
            lemma_line_end_moves_with_what_precedes(a, b, k + 1);
        }
    }
}

/// The fields of what follows some bytes are found behind those bytes as
/// they are found in it alone.
pub proof fn lemma_fields_after_prefix(a: Seq<u8>, b: Seq<u8>, k: int)
    requires
        0 <= k <= b.len(),
    ensures
        fields_from(a + b, a.len() + k) == fields_from(b, k),
    decreases b.len() - k,
{
    if k < b.len() {
        lemma_line_end_moves_with_what_precedes(a, b, k);
        lemma_line_end_bounds(b, k);
        let end = line_end(b, k);
        assert((a + b).subrange(a.len() + k, a.len() + end) == b.subrange(k, end));
        assert(line_at(a + b, a.len() + k) == line_at(b, k));
        if end < b.len() {
            lemma_fields_after_prefix(a, b, end + 1);
        }
    }
}

/// The fields of complete lines followed by more bytes are the fields of
/// the lines followed by the fields of the rest.
pub proof fn lemma_fields_before_suffix(a: Seq<u8>, b: Seq<u8>, from: int)
    requires
        0 <= from <= a.len(),
        a.len() == 0 || a.last() == LINE_FEED,
        from == 0 || a[from - 1] == LINE_FEED,
    ensures
        fields_from(a + b, from) == fields_from(a, from) + fields_from(b, 0),
    decreases a.len() - from,
{
    if from == a.len() {
        lemma_fields_after_prefix(a, b, 0);
        assert(fields_from(a, from) + fields_from(b, 0) == fields_from(b, 0));
    } else {
        lemma_line_end_bounds(a, from);
        let end = line_end(a, from);
        assert(end < a.len()) by {
            if end == a.len() {
                assert(a[a.len() - 1] != LINE_FEED);
            }
        }
        lemma_line_end_ignores_what_follows(a, b, from);
        assert((a + b).subrange(from, end) == a.subrange(from, end));
        assert(line_at(a + b, from) == line_at(a, from));
        lemma_fields_before_suffix(a, b, end + 1);
        let rest = fields_from(a, end + 1);
        match split_field(line_at(a, from)) {
            Some(field) => {
                assert(seq![field] + (rest + fields_from(b, 0)) == (seq![field] + rest)
                    + fields_from(b, 0));
            },
            None => {},
        }
    }
}

/// Header bytes that arrive in pieces give the fields of the pieces, one
/// after the other, as long as each piece ends its last line: the fields
/// of complete lines followed by more bytes are the fields of the lines
/// followed by the fields of the rest.
pub proof fn lemma_fields_of_pieces(a: Seq<u8>, b: Seq<u8>)
    requires
        a.len() == 0 || a.last() == LINE_FEED,
    ensures
        header_fields(a + b) == header_fields(a) + header_fields(b),
{
    lemma_fields_before_suffix(a, b, 0);
}

/// Finds where the line that starts at `from` ends.
pub fn find_line_end(raw: &[u8], from: usize) -> (end: usize)
    requires
        from <= raw@.len(),
    ensures
        end == line_end(raw@, from as int),
        from <= end <= raw@.len(),
{
    let mut end: usize = from;
    while end < raw.len() && raw[end] != LINE_FEED
        invariant
            from <= end <= raw@.len(),
            line_end(raw@, from as int) == line_end(raw@, end as int),
        decreases raw@.len() - end,
    {
        end = end + 1;
    }
    proof {
        lemma_line_end_bounds(raw@, from as int);
    }
    end
}

/// Finds the first separator of a line.
pub fn find_separator(line: &[u8]) -> (found: Option<usize>)
    ensures
        match found {
            Some(i) => first_separator(line@, i as int),
            None => forall|j: int| !separator_at(line@, j),
        },
{
    if line.len() < 2 {
        return None;
    }
    let last: usize = line.len() - 1;
    let mut i: usize = 0;
    while i < last
        invariant
            last + 1 == line@.len(),
            i <= last,
            forall|j: int| 0 <= j < i ==> !separator_at(line@, j),
        decreases last - i,
    {
        if line[i] == COLON && line[i + 1] == SPACE {
            return Some(i);
        }
        i = i + 1;
    }
    None
}

/// Splits a line at its first separator.
pub fn split_header_line(line: &[u8]) -> (field: Option<HeaderField>)
    ensures
        match field {
            Some(f) => split_field(line@) == Some(f@),
            None => split_field(line@) is None,
        },
{
    let len = line.len();
    match find_separator(line) {
        Some(i) => {
            proof {
                assert(separator_at(line@, i as int));
                lemma_first_separator_is_unique(line@, i as int);
            }
            let name = copy_bytes(slice_subrange(line, 0, i));
            let value = copy_bytes(slice_subrange(line, i + 2, len));
            Some(HeaderField { name, value })
        },
        None => None,
    }
}

/// Appends a slice of bytes to a buffer.
pub fn append_bytes(buffer: &mut Vec<u8>, bytes: &[u8])
    ensures
        final(buffer)@ == old(buffer)@ + bytes@,
{
    buffer.extend_from_slice(bytes);
    assert(buffer@ =~= old(buffer)@ + bytes@);
}

/// Copies a slice of bytes into a vector of its own.
pub fn copy_bytes(bytes: &[u8]) -> (copy: Vec<u8>)
    ensures
        copy@ == bytes@,
{
    let mut copy: Vec<u8> = Vec::new();
    append_bytes(&mut copy, bytes);
    copy
}

/// Splits the accumulated header bytes into lines and each line at its
/// first separator. Lines without a separator, the status line and the
/// empty line at the end among them, are left out.
pub fn parse_header_fields(raw: &[u8]) -> (fields: Vec<HeaderField>)
    ensures
        field_views(fields@) == header_fields(raw@),
{
    let mut fields: Vec<HeaderField> = Vec::new();
    let mut pos: usize = 0;
    while pos < raw.len()
        invariant
            pos <= raw@.len(),
            header_fields(raw@) == field_views(fields@) + fields_from(raw@, pos as int),
        decreases raw@.len() - pos,
    {
        let end = find_line_end(raw, pos);
        let terminated = end < raw.len();
        let stop = if terminated && end > pos && raw[end - 1] == CARRIAGE_RETURN {
            end - 1
        } else {
            end
        };
        let line = slice_subrange(raw, pos, stop);
        assert(line@ == line_at(raw@, pos as int));
        let ghost before = field_views(fields@);
        let ghost rest = fields_from(raw@, next_line_start(raw@, pos as int));
        match split_header_line(line) {
            Some(field) => {
                let ghost shown = field@;
                fields.push(field);
                assert(field_views(fields@) == before + seq![shown]);
                assert(before + (seq![shown] + rest) == (before + seq![shown]) + rest);
            },
            None => {},
        }
        pos = if terminated {
            end + 1
        } else {
            end
        };
    }
    assert(fields_from(raw@, pos as int) == Seq::<(Seq<u8>, Seq<u8>)>::empty());
    fields
}

/// The longest header name, in bytes.
pub const MAX_NAME_LENGTH: usize = 65535;

/// A header map never refuses an entry while it holds fewer names than
/// this.
pub const HEADER_MAP_ROOM: usize = 6554;

/// Whether a header name may hold this byte: a letter, a digit, or one of
/// the signs ``!#$%&'*+-.^_`|~``.
pub open spec fn is_name_byte(b: u8) -> bool {
    ||| 48 <= b <= 57
    ||| 65 <= b <= 90
    ||| 94 <= b <= 122
    ||| b == 33
    ||| 35 <= b <= 39
    ||| b == 42
    ||| b == 43
    ||| b == 45
    ||| b == 46
    ||| b == 124
    ||| b == 126
}

/// A byte with an upper-case letter turned into its lower-case letter.
pub open spec fn lower_case(b: u8) -> u8 {
    if 65 <= b <= 90 {
        (b + 32) as u8
    } else {
        b
    }
}

/// Whether every byte of `bytes` may stand in a header name.
pub open spec fn all_name_bytes(bytes: Seq<u8>) -> bool {
    forall|i: int| 0 <= i < bytes.len() ==> is_name_byte(#[trigger] bytes[i])
}

/// What `HeaderName::from_bytes` makes of a header name: the name in lower
/// case, where it is 1 to 65535 bytes long and holds only bytes that a
/// header name may hold, and `None` otherwise.
pub open spec fn header_name_of(bytes: Seq<u8>) -> Option<Seq<u8>> {
    if 1 <= bytes.len() <= MAX_NAME_LENGTH && all_name_bytes(bytes) {
        Some(bytes.map_values(|b: u8| lower_case(b)))
    } else {
        None
    }
}

/// What a header map holds: for each name in it, in lower case, the bytes
/// of the value stored under that name.
pub uninterp spec fn header_map_entries(map: HeaderMap<HeaderValue>) -> Map<Seq<u8>, Seq<u8>>;

/// Whether a header value may hold this byte: any byte from the space on
/// except delete, and the horizontal tab.
pub open spec fn is_value_byte(b: u8) -> bool {
    (b >= SPACE && b != DELETE) || b == TAB
}

/// Whether every byte of `bytes` may stand in a header value.
pub open spec fn all_value_bytes(bytes: Seq<u8>) -> bool {
    forall|i: int| 0 <= i < bytes.len() ==> is_value_byte(#[trigger] bytes[i])
}

/// Whether `bytes` are accepted as a header value: they are valid UTF-8 and
/// hold no byte that a header value may not hold.
pub open spec fn is_header_value(bytes: Seq<u8>) -> bool {
    valid_utf8(bytes) && all_value_bytes(bytes)
}

/// Whether a field is accepted into a header map.
pub open spec fn is_accepted_field(field: (Seq<u8>, Seq<u8>)) -> bool {
    header_name_of(field.0) is Some && is_header_value(field.1)
}

/// The entries after one more field: an accepted field replaces what was
/// stored under its name, any other field changes nothing.
pub open spec fn apply_field(entries: Map<Seq<u8>, Seq<u8>>, field: (Seq<u8>, Seq<u8>)) -> Map<
    Seq<u8>,
    Seq<u8>,
> {
    if is_accepted_field(field) {
        entries.insert(header_name_of(field.0)->0, field.1)
    } else {
        entries
    }
}

/// The entries of a header map that holds nothing.
pub open spec fn no_entries() -> Map<Seq<u8>, Seq<u8>> {
    Map::empty()
}

/// The entries that a sequence of fields gives, applied in order.
pub open spec fn entries_of(fields: Seq<(Seq<u8>, Seq<u8>)>) -> Map<Seq<u8>, Seq<u8>>
    decreases fields.len(),
{
    if fields.len() == 0 {
        no_entries()
    } else {
        apply_field(entries_of(fields.drop_last()), fields.last())
    }
}

/// The header map of the `http` crate. What it holds is spoken of through
/// `header_map_entries`.
#[verifier::external_type_specification]
#[verifier::external_body]
#[verifier::reject_recursive_types(T)]
pub struct ExHeaderMap<T>(HeaderMap<T>);

/// The header value of the `http` crate. Nothing inside it is visible
/// here.
#[verifier::external_type_specification]
#[verifier::external_body]
pub struct ExHeaderValue(HeaderValue);

/// The error of `core::str::from_utf8`. Nothing inside it is visible here.
#[verifier::external_type_specification]
#[verifier::external_body]
pub struct ExUtf8Error(core::str::Utf8Error);

/// `core::str::from_utf8` accepts exactly the byte sequences that are valid
/// UTF-8, and the string it returns holds the bytes it was given.
pub assume_specification[ core::str::from_utf8 ](v: &[u8]) -> (r: Result<
    &str,
    core::str::Utf8Error,
>)
    ensures
        r is Ok <==> valid_utf8(v@),
        r matches Ok(s) ==> s.spec_bytes() == v@,
;

/// Calls `HeaderMap::new`, which gives a map without entries.
#[verifier::external_body]
pub(crate) fn empty_header_map() -> (headers: HeaderMap<HeaderValue>)
    ensures
        header_map_entries(headers) == no_entries(),
{
    HeaderMap::new()
}

/// Calls `HeaderName::from_bytes` and hands back the text of the name it
/// made, or `None` where the name was refused. A name is refused where it
/// is empty, longer than 65535 bytes, or holds a byte that the table of
/// header name bytes maps to nothing; the name that is made holds each
/// byte as that table maps it, which turns upper case into lower case and
/// leaves every other byte as it is.
#[verifier::external_body]
pub(crate) fn canonical_header_name(bytes: &[u8]) -> (name: Option<Vec<u8>>)
    ensures
        match name {
            Some(n) => header_name_of(bytes@) == Some(n@),
            None => header_name_of(bytes@) is None,
        },
{
    match HeaderName::from_bytes(bytes) {
        Ok(name) => Some(name.as_str().as_bytes().to_vec()),
        Err(_) => None,
    }
}

/// Decides whether every byte may stand in a header value.
pub fn holds_value_bytes(bytes: &[u8]) -> (ok: bool)
    ensures
        ok == all_value_bytes(bytes@),
{
    let mut i: usize = 0;
    while i < bytes.len()
        invariant
            i <= bytes@.len(),
            forall|j: int| 0 <= j < i ==> is_value_byte(#[trigger] bytes@[j]),
        decreases bytes@.len() - i,
    {
        let b = bytes[i];
        if !((b >= SPACE && b != DELETE) || b == TAB) {
            return false;
        }
        i = i + 1;
    }
    true
}

/// Calls `HeaderMap::try_insert` with the name that `HeaderName::from_bytes`
/// makes of `name` and the value that `HeaderValue::from_bytes` makes of
/// `value`; both are asked to be acceptable, so both conversions succeed.
/// Where the map takes the entry, it replaces what was stored under the
/// name; where the map refuses because it has grown to its limit, it holds
/// what it held before. The map refuses only where it holds 32768 names,
/// or where its table of 32768 slots would have to grow, which is asked
/// for only once the names are a fifth of the slots: so a map that holds
/// fewer than `HEADER_MAP_ROOM` names takes the entry.
#[verifier::external_body]
pub(crate) fn store_header(map: &mut HeaderMap<HeaderValue>, name: &[u8], value: &[u8]) -> (stored:
    bool)
    requires
        header_name_of(name@) is Some,
        all_value_bytes(value@),
    ensures
        stored ==> header_map_entries(*final(map)) == header_map_entries(*old(map)).insert(
            header_name_of(name@)->0,
            value@,
        ),
        !stored ==> header_map_entries(*final(map)) == header_map_entries(*old(map)),
        header_map_entries(*old(map)).dom().finite() && header_map_entries(*old(map)).dom().len()
            < HEADER_MAP_ROOM ==> stored,
{
    match (HeaderName::from_bytes(name), HeaderValue::from_bytes(value)) {
        (Ok(name), Ok(value)) => map.try_insert(name, value).is_ok(),
        _ => false,
    }
}

/// Decides whether the bytes are accepted as a header value.
pub fn accepts_value(bytes: &[u8]) -> (ok: bool)
    ensures
        ok == is_header_value(bytes@),
{
    match core::str::from_utf8(bytes) {
        Ok(_) => holds_value_bytes(bytes),
        Err(_) => false,
    }
}

/// Decides whether a field is accepted into a header map: its name must be
/// a header name and its value valid UTF-8 made of value bytes.
pub fn accepts_field(field: &HeaderField) -> (ok: bool)
    ensures
        ok == is_accepted_field(field@),
{
    match canonical_header_name(field.name.as_slice()) {
        Some(_) => accepts_value(field.value.as_slice()),
        None => false,
    }
}

/// The entries that fields give are finite, and no more than the fields.
pub proof fn lemma_entries_are_few(fields: Seq<(Seq<u8>, Seq<u8>)>)
    ensures
        entries_of(fields).dom().finite(),
        entries_of(fields).dom().len() <= fields.len(),
    decreases fields.len(),
{
    if fields.len() > 0 {
        lemma_entries_are_few(fields.drop_last());
        let before = entries_of(fields.drop_last());
        if is_accepted_field(fields.last()) {
            let name = header_name_of(fields.last().0)->0;
            assert(entries_of(fields).dom() == before.dom().insert(name));
            if before.dom().contains(name) {
                assert(before.dom().insert(name) == before.dom());
            }
        }
    }
}

/// There are no more fields than bytes.
pub proof fn lemma_fields_are_few(raw: Seq<u8>, from: int)
    requires
        0 <= from <= raw.len(),
    ensures
        fields_from(raw, from).len() <= raw.len() - from,
    decreases raw.len() - from,
{
    if from < raw.len() {
        lemma_line_end_bounds(raw, from);
        let end = line_end(raw, from);
        if end < raw.len() {
            lemma_fields_are_few(raw, end + 1);
        }
    }
}

/// Fills a header map with the accepted fields, in order, a later field
/// replacing an earlier one of the same name. The second result is the
/// number of fields that were handled. That is all of them where there are
/// fewer than `HEADER_MAP_ROOM`; beyond that the map may reach a limit of
/// its own and refuse a field, and the filling stops before that field,
/// with at least `HEADER_MAP_ROOM` names in the map.
pub fn header_map_from_fields(fields: &Vec<HeaderField>) -> (filled: (HeaderMap<HeaderValue>, usize))
    ensures
        filled.1 <= fields@.len(),
        header_map_entries(filled.0) == entries_of(field_views(fields@).take(filled.1 as int)),
        filled.1 < fields@.len() ==> is_accepted_field(fields@[filled.1 as int]@),
        filled.1 < fields@.len() ==> header_map_entries(filled.0).dom().len() >= HEADER_MAP_ROOM,
        fields@.len() < HEADER_MAP_ROOM ==> filled.1 == fields@.len(),
        fields@.len() < HEADER_MAP_ROOM ==> header_map_entries(filled.0) == entries_of(
            field_views(fields@),
        ),
{
    let mut map = empty_header_map();
    let mut done: usize = 0;
    let ghost views = field_views(fields@);
    assert(views.take(0) == Seq::<(Seq<u8>, Seq<u8>)>::empty());
    while done < fields.len()
        invariant
            done <= fields@.len(),
            views == field_views(fields@),
            header_map_entries(map) == entries_of(views.take(done as int)),
        decreases fields@.len() - done,
    {
        let field = &fields[done];
        proof {
            let next = views.take(done as int + 1);
            assert(next.drop_last() == views.take(done as int));
            assert(next.last() == field@);
            lemma_entries_are_few(views.take(done as int));
        }
        if accepts_field(field) {
            let stored = store_header(&mut map, field.name.as_slice(), field.value.as_slice());
            if !stored {
                return (map, done);
            }
        }
        done = done + 1;
    }
    assert(views.take(done as int) == views);
    (map, done)
}

/// Parses the accumulated header bytes into a header map: the entries of
/// the fields of all lines, a later field replacing an earlier one of the
/// same name. The second result is the number of fields that were handled.
/// That is all of them where there are fewer than `HEADER_MAP_ROOM`, and so
/// wherever the input is shorter than that; beyond that the map may reach
/// a limit of its own, and the parsing stops before the field it refuses.
pub fn parse_headers(raw: &[u8]) -> (filled: (HeaderMap<HeaderValue>, usize))
    ensures
        filled.1 <= header_fields(raw@).len(),
        header_map_entries(filled.0) == entries_of(header_fields(raw@).take(filled.1 as int)),
        filled.1 < header_fields(raw@).len() ==> is_accepted_field(
            header_fields(raw@)[filled.1 as int],
        ),
        filled.1 < header_fields(raw@).len() ==> header_map_entries(filled.0).dom().len()
            >= HEADER_MAP_ROOM,
        header_fields(raw@).len() < HEADER_MAP_ROOM ==> filled.1 == header_fields(raw@).len(),
        header_fields(raw@).len() < HEADER_MAP_ROOM ==> header_map_entries(filled.0) == entries_of(
            header_fields(raw@),
        ),
        raw@.len() < HEADER_MAP_ROOM ==> header_map_entries(filled.0) == entries_of(
            header_fields(raw@),
        ),
{
    let fields = parse_header_fields(raw);
    proof {
        lemma_fields_are_few(raw@, 0);
    }
    header_map_from_fields(&fields)
}

} // verus!
