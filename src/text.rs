//! The text that spans and events carry to the backend: zone names, event messages, and their
//! truncation to the lengths that the backend accepts.
use crate::cache::StrCacheGuard;
use vstd::prelude::*;
use vstd::string::StrSliceExecFns;
use vstd::string::StringSliceAdditionalSpecFns;
use vstd::utf8::is_char_boundary;

verus! {

broadcast use vstd::utf8::group_utf8_lib;

/// The longest message, or text attached to a zone, that the backend accepts, in bytes.
pub const MESSAGE_LIMIT: usize = 65534;

/// The room for a zone's source location (name, function and file) before the lengths of the
/// function and file are taken off, in bytes.
pub const SOURCE_LOCATION_ROOM: usize = 65523;

/// The field of an event that asks for a frame mark instead of being shown.
pub const FRAME_MARK_FIELD: &'static str = "tracy.frame_mark";

/// What was cut, reported through the backend's message channel.
#[derive(Clone, Copy, Debug, PartialEq, Eq, Structural)]
pub enum TruncationNotice {
    EventMessage,
    SpanInformation,
    SpanFieldValues,
}

impl TruncationNotice {
    /// The text of the message that reports the cut.
    pub fn message(&self) -> (r: &'static str)
        ensures
            *self == TruncationNotice::EventMessage ==> r@ == (
            "event message is too long and was truncated")@,
            *self == TruncationNotice::SpanInformation ==> r@ == (
            "span information is too long and was truncated")@,
            *self == TruncationNotice::SpanFieldValues ==> r@ == (
            "span field values are too long and were truncated")@,
    {
        match self {
            TruncationNotice::EventMessage => "event message is too long and was truncated",
            TruncationNotice::SpanInformation => "span information is too long and was truncated",
            TruncationNotice::SpanFieldValues => "span field values are too long and were truncated",
        }
    }
}

/// `k` is the largest character boundary of `bytes` that is at most `max`.
pub open spec fn last_boundary_within(bytes: Seq<u8>, max: int, k: int) -> bool {
    &&& 0 <= k <= max
    &&& is_char_boundary(bytes, k)
    &&& forall|j: int| k < j <= max ==> !is_char_boundary(bytes, j)
}

/// Cuts `data` when it is `max_len` bytes or longer: to its longest prefix that ends on a
/// character boundary and has at most `max_len` bytes. The flag says whether it was cut (and a
/// notice is due); a text of exactly `max_len` bytes counts as cut.
pub fn truncate_to_length(max_len: usize, data: &str) -> (r: (&str, bool))
    ensures
        r.1 == (data.len() >= max_len),
        !r.1 ==> r.0@ == data@,
        r.1 ==> last_boundary_within(
            data.spec_bytes(),
            max_len as int,
            r.0.spec_bytes().len() as int,
        ),
        r.1 ==> r.0.spec_bytes() == data.spec_bytes().subrange(0, r.0.spec_bytes().len() as int),
{
    if data.len() >= max_len {
        let mut k = max_len;
        proof {
            vstd::utf8::encode_utf8_valid_utf8(data@);
            vstd::utf8::is_char_boundary_start_end_of_seq(data.spec_bytes());
        }
        while !data.is_char_boundary(k)
            invariant
                k <= max_len,
                k <= data.spec_bytes().len(),
                vstd::utf8::valid_utf8(data.spec_bytes()),
                is_char_boundary(data.spec_bytes(), 0),
                forall|j: int| k < j <= max_len ==> !is_char_boundary(data.spec_bytes(), j),
            decreases k,
        {
            k = k - 1;
        }
        let (head, _) = data.split_at(k);
        (head, true)
    } else {
        (data, false)
    }
}

/// The room left for a zone's name once its function and file are accounted for.
pub fn span_name_limit(file: &str, function: &str) -> (r: usize)
    requires
        file.spec_bytes().len() + function.spec_bytes().len() <= SOURCE_LOCATION_ROOM,
    ensures
        r == SOURCE_LOCATION_ROOM - function.spec_bytes().len() - file.spec_bytes().len(),
{
    SOURCE_LOCATION_ROOM - function.len() - file.len()
}

/// Cuts a zone's name to the room that its source location leaves (see `truncate_to_length`).
pub fn truncate_span_to_length<'a>(data: &'a str, file: &str, function: &str) -> (r: (&'a str, bool))
    requires
        file.spec_bytes().len() + function.spec_bytes().len() <= SOURCE_LOCATION_ROOM,
    ensures
        ({
            let max = SOURCE_LOCATION_ROOM - function.spec_bytes().len() - file.spec_bytes().len();
            &&& r.1 == (data.len() >= max)
            &&& !r.1 ==> r.0@ == data@
            &&& r.1 ==> last_boundary_within(data.spec_bytes(), max, r.0.spec_bytes().len() as int)
            &&& r.1 ==> r.0.spec_bytes() == data.spec_bytes().subrange(
                0,
                r.0.spec_bytes().len() as int,
            )
        }),
{
    truncate_to_length(span_name_limit(file, function), data)
}

/// Whether two strings hold the same characters.
pub fn same_text(a: &str, b: &str) -> (r: bool)
    ensures
        r == (a@ == b@),
{
    let n = a.unicode_len();
    if n != b.unicode_len() {
        return false;
    }
    let mut i: usize = 0;
    while i < n
        invariant
            n == a@.len(),
            n == b@.len(),
            i <= n,
            forall|j: int| 0 <= j < i ==> a@[j] == b@[j],
        decreases n - i,
    {
        if a.get_char(i) != b.get_char(i) {
            return false;
        }
        i = i + 1;
    }
    assert(a@ =~= b@);
    true
}

/// One recorded field as it shows in an event's message: `name = value`.
pub open spec fn field_text(name: Seq<char>, value: Seq<char>) -> Seq<char> {
    name + " = "@ + value
}

/// The fields of an event written out as its message, separated by `, `, while it also notes
/// whether a frame mark was asked for.
pub struct EventText {
    dest: StrCacheGuard,
    first: bool,
    frame_mark: bool,
}

impl EventText {
    /// The message so far.
    pub closed spec fn text(&self) -> Seq<char> {
        self.dest@
    }

    /// Whether no field has been written yet.
    pub closed spec fn is_first(&self) -> bool {
        self.first
    }

    /// Whether the last frame-mark field asked for a frame mark.
    pub closed spec fn wants_frame_mark(&self) -> bool {
        self.frame_mark
    }

    /// Starts a message in a buffer, which should be empty.
    pub fn new(dest: StrCacheGuard) -> (r: Self)
        ensures
            r.text() == dest@,
            r.is_first(),
            !r.wants_frame_mark(),
    {
        EventText { dest, first: true, frame_mark: false }
    }

    /// Writes a text field.
    pub fn record_str(&mut self, name: &str, value: &str)
        ensures
            final(self).text() == old(self).text() + (if old(self).is_first() {
                Seq::<char>::empty()
            } else {
                ", "@
            }) + field_text(name@, value@),
            !final(self).is_first(),
            final(self).wants_frame_mark() == old(self).wants_frame_mark(),
    {
        proof {
            reveal_strlit(", ");
            reveal_strlit(" = ");
        }
        if self.first {
            self.first = false;
        } else {
            self.dest.push_str(", ");
        }
        self.dest.push_str(name);
        self.dest.push_str(" = ");
        self.dest.push_str(value);
        assert(self.dest@ =~= old(self).text() + (if old(self).is_first() {
            Seq::<char>::empty()
        } else {
            ", "@
        }) + field_text(name@, value@));
    }

    /// Records a boolean field: the frame-mark field sets the request and is not shown; any
    /// other shows as `true` or `false`.
    pub fn record_bool(&mut self, name: &str, value: bool)
        ensures
            name@ == FRAME_MARK_FIELD@ ==> final(self).text() == old(self).text() && final(self).is_first()
                == old(self).is_first() && final(self).wants_frame_mark() == value,
            name@ != FRAME_MARK_FIELD@ ==> final(self).text() == old(self).text() + (if old(self).is_first() {
                Seq::<char>::empty()
            } else {
                ", "@
            }) + field_text(name@, if value { "true"@ } else { "false"@ }) && !final(self).is_first()
                && final(self).wants_frame_mark() == old(self).wants_frame_mark(),
    {
        if same_text(name, FRAME_MARK_FIELD) {
            self.frame_mark = value;
        } else if value {
            self.record_str(name, "true");
        } else {
            self.record_str(name, "false");
        }
    }

    /// Ends the message: the buffer, whether any field was written (and a message is due), and
    /// whether a frame mark is due.
    pub fn finish(self) -> (r: (StrCacheGuard, bool, bool))
        ensures
            r.0@ == self.text(),
            r.1 == !self.is_first(),
            r.2 == self.wants_frame_mark(),
    {
        (self.dest, !self.first, self.frame_mark)
    }
}

/// How a zone is named from its span's name and formatted fields.
#[derive(Clone, Copy, Debug, PartialEq, Eq, Structural)]
pub enum ZoneNaming {
    /// The span's name alone.
    Name,
    /// The span's name followed by its fields in braces.
    NameWithFields,
    /// The span's name, with the fields attached to the zone as text.
    NameThenFieldsText,
}

/// The naming of a zone: by name alone when there are no fields.
pub open spec fn zone_naming_spec(fields: Option<Seq<char>>, fields_in_name: bool) -> ZoneNaming {
    match fields {
        None => ZoneNaming::Name,
        Some(f) => if f.len() == 0 {
            ZoneNaming::Name
        } else if fields_in_name {
            ZoneNaming::NameWithFields
        } else {
            ZoneNaming::NameThenFieldsText
        },
    }
}

/// Decides how a zone is named.
pub fn zone_naming(fields: Option<&str>, fields_in_name: bool) -> (r: ZoneNaming)
    ensures
        r == zone_naming_spec(
            match fields {
                Some(f) => Some(f@),
                None => None,
            },
            fields_in_name,
        ),
{
    match fields {
        None => ZoneNaming::Name,
        Some(f) => {
            if f.unicode_len() == 0 {
                ZoneNaming::Name
            } else if fields_in_name {
                ZoneNaming::NameWithFields
            } else {
                ZoneNaming::NameThenFieldsText
            }
        },
    }
}

/// Writes `name{fields}` into a buffer.
pub fn compose_zone_name(buf: &mut StrCacheGuard, name: &str, fields: &str)
    ensures
        final(buf)@ == old(buf)@ + name@ + "{"@ + fields@ + "}"@,
{
    buf.push_str(name);
    buf.push_str("{");
    buf.push_str(fields);
    buf.push_str("}");
}

} // verus!
