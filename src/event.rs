use vstd::prelude::*;
use vstd::string::*;

verus! {

/// The object operations that leave an audit event.
#[derive(Debug, Clone, Copy, PartialEq, Eq, Structural)]
pub enum EventKind {
    Upload,
    Download,
    Delete,
}

/// The name an event kind is recorded under.
pub open spec fn kind_name(k: EventKind) -> Seq<char> {
    match k {
        EventKind::Upload => "upload"@,
        EventKind::Download => "download"@,
        EventKind::Delete => "delete"@,
    }
}

impl EventKind {
    pub fn name(&self) -> (r: &'static str)
        ensures
            r@ == kind_name(*self),
    {
        match self {
            EventKind::Upload => "upload",
            EventKind::Download => "download",
            EventKind::Delete => "delete",
        }
    }
}

/// One audit record: who did what to which object, with the object's type and
/// size as the store reported them.
#[derive(Debug)]
pub struct Event {
    pub key_id: String,
    pub event_type: String,
    pub bucket_name: String,
    pub file_name: String,
    pub file_type: String,
    pub file_size: String,
}

/// The mathematical value of an audit record.
pub struct EventModel {
    pub key_id: Seq<char>,
    pub event_type: Seq<char>,
    pub bucket_name: Seq<char>,
    pub file_name: Seq<char>,
    pub file_type: Seq<char>,
    pub file_size: Seq<char>,
}

impl View for Event {
    type V = EventModel;

    open spec fn view(&self) -> EventModel {
        EventModel {
            key_id: self.key_id@,
            event_type: self.event_type@,
            bucket_name: self.bucket_name@,
            file_name: self.file_name@,
            file_type: self.file_type@,
            file_size: self.file_size@,
        }
    }
}

/// The record of an operation of kind `k` on object `file_name`.
pub open spec fn event_of(
    k: EventKind,
    key_id: Seq<char>,
    bucket_name: Seq<char>,
    file_name: Seq<char>,
    file_type: Seq<char>,
    size: nat,
) -> EventModel {
    EventModel {
        key_id,
        event_type: kind_name(k),
        bucket_name,
        file_name,
        file_type,
        file_size: size_label(size),
    }
}

impl Event {
    pub fn new(
        kind: EventKind,
        key_id: &str,
        bucket_name: &str,
        file_name: &str,
        file_type: &str,
        size: u64,
    ) -> (r: Event)
        ensures
            r@ == event_of(kind, key_id@, bucket_name@, file_name@, file_type@, size as nat),
    {
        Event {
            key_id: String::from_str(key_id),
            event_type: String::from_str(kind.name()),
            bucket_name: String::from_str(bucket_name),
            file_name: String::from_str(file_name),
            file_type: String::from_str(file_type),
            file_size: format_size(size),
        }
    }
}

pub open spec fn digit_char(d: nat) -> char {
    if d == 0 {
        '0'
    } else if d == 1 {
        '1'
    } else if d == 2 {
        '2'
    } else if d == 3 {
        '3'
    } else if d == 4 {
        '4'
    } else if d == 5 {
        '5'
    } else if d == 6 {
        '6'
    } else if d == 7 {
        '7'
    } else if d == 8 {
        '8'
    } else {
        '9'
    }
}

/// The decimal digits of `n`, most significant first, with no leading zero.
pub open spec fn decimal(n: nat) -> Seq<char>
    decreases n,
{
    if n < 10 {
        seq![digit_char(n)]
    } else {
        decimal(n / 10).push(digit_char(n % 10))
    }
}

/// A size as it is shown and recorded: its decimal digits and the unit.
pub open spec fn size_label(n: nat) -> Seq<char> {
    decimal(n) + " Bytes"@
}

fn digit_text(d: u64) -> (r: &'static str)
    requires
        d < 10,
    ensures
        r@ == seq![digit_char(d as nat)],
{
    proof {
        reveal_strlit("0");
        reveal_strlit("1");
        reveal_strlit("2");
        reveal_strlit("3");
        reveal_strlit("4");
        reveal_strlit("5");
        reveal_strlit("6");
        reveal_strlit("7");
        reveal_strlit("8");
        reveal_strlit("9");
    }
    let r = if d == 0 {
        "0"
    } else if d == 1 {
        "1"
    } else if d == 2 {
        "2"
    } else if d == 3 {
        "3"
    } else if d == 4 {
        "4"
    } else if d == 5 {
        "5"
    } else if d == 6 {
        "6"
    } else if d == 7 {
        "7"
    } else if d == 8 {
        "8"
    } else {
        "9"
    };
    assert(r@ =~= seq![digit_char(d as nat)]);
    r
}

fn push_decimal(s: &mut String, n: u64)
    ensures
        final(s)@ == old(s)@ + decimal(n as nat),
    decreases n,
{
    if n >= 10 {
        push_decimal(s, n / 10);
    }
    s.append(digit_text(n % 10));
    assert(final(s)@ =~= old(s)@ + decimal(n as nat));
}

/// The label of a size in bytes: `"2 Bytes"` for two bytes.
pub fn format_size(n: u64) -> (r: String)
    ensures
        r@ == size_label(n as nat),
{
    let mut r = String::new();
    push_decimal(&mut r, n);
    r.append(" Bytes");
    assert(r@ =~= size_label(n as nat));
    r
}

/// The size to record for a length header: the length when the store gave a
/// non-negative one, else zero.
pub fn reported_length(content_length: Option<i64>) -> (r: u64)
    ensures
        r as int == match content_length {
            Some(n) => if n >= 0 { n as int } else { 0 },
            None => 0,
        },
{
    match content_length {
        Some(n) => if n >= 0 { n as u64 } else { 0 },
        None => 0,
    }
}

/// The content type to show and record: the stored one, or the empty string
/// when the store gave none.
pub fn content_type_or_empty(content_type: Option<String>) -> (r: String)
    ensures
        r@ == match content_type {
            Some(t) => t@,
            None => Seq::<char>::empty(),
        },
{
    match content_type {
        Some(t) => t,
        None => String::new(),
    }
}

} // verus!
