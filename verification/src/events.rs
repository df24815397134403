//! Events.
//!
//! An event is sent as
//! `_e{<title bytes>,<text bytes>}:<title>|<text>` followed by one suffix for
//! each optional field that is set, always in this order:
//! `|d:<timestamp>`, `|h:<hostname>`, `|k:<aggregation key>`,
//! `|p:<priority>`, `|s:<source type name>`, `|t:<alert type>`, `|#<tags>`.
use vstd::prelude::*;
use vstd::string::*;
use vstd::utf8::{char_is_scalar, encode_scalar, encode_utf8, is_ascii_chars};
use crate::buffer::{add_len, buffer};
use crate::decimal::{decimal_text, push_decimal};
use crate::tags::{render_tags, tag_pairs, tags_text};
use crate::DatagramFormat;

verus! {

/// How urgent an event is.
#[derive(Clone, Copy, PartialEq, Eq, Debug)]
pub enum Priority {
    Low,
    Normal,
}

/// What kind of news an event is.
#[derive(Clone, Copy, PartialEq, Eq, Debug)]
pub enum AlertType {
    Error,
    Info,
    Success,
    Warning,
}

/// The host that an event came from.
#[derive(Clone, Debug)]
pub struct Hostname(String);

/// The key by which events are grouped.
#[derive(Clone, Debug)]
pub struct AggKey(String);

/// The kind of source that an event came from.
#[derive(Clone, Debug)]
pub struct SourceTypeName(String);

/// The time of an event, in whole seconds since the Unix epoch. A time before
/// the epoch has no such number: it is kept as that, and an event that holds
/// it is sent with the time at which it is formatted.
#[derive(Clone, Copy, Debug)]
pub struct EventTime(Option<u64>);

impl View for Hostname {
    type V = Seq<char>;

    closed spec fn view(&self) -> Seq<char> {
        self.0@
    }
}

impl View for AggKey {
    type V = Seq<char>;

    closed spec fn view(&self) -> Seq<char> {
        self.0@
    }
}

impl View for SourceTypeName {
    type V = Seq<char>;

    closed spec fn view(&self) -> Seq<char> {
        self.0@
    }
}

impl View for EventTime {
    /// The seconds since the epoch, or nothing for a time before it.
    type V = Option<u64>;

    closed spec fn view(&self) -> Option<u64> {
        self.0
    }
}

/// The suffix of a timestamp.
pub open spec fn timestamp_text(seconds: u64) -> Seq<char> {
    "|d:"@ + decimal_text(seconds as nat)
}

/// The suffix of a hostname.
pub open spec fn hostname_text(hostname: Seq<char>) -> Seq<char> {
    "|h:"@ + hostname
}

/// The suffix of an aggregation key.
pub open spec fn agg_key_text(agg_key: Seq<char>) -> Seq<char> {
    "|k:"@ + agg_key
}

/// The suffix of a priority.
pub open spec fn priority_text(priority: Priority) -> Seq<char> {
    match priority {
        Priority::Low => "|p:low"@,
        Priority::Normal => "|p:normal"@,
    }
}

/// The suffix of a source type name.
pub open spec fn source_type_name_text(name: Seq<char>) -> Seq<char> {
    "|s:"@ + name
}

/// The suffix of an alert type.
pub open spec fn alert_type_text(alert_type: AlertType) -> Seq<char> {
    match alert_type {
        AlertType::Error => "|t:error"@,
        AlertType::Info => "|t:info"@,
        AlertType::Success => "|t:success"@,
        AlertType::Warning => "|t:warning"@,
    }
}

impl Hostname {
    /// The hostname with the given text.
    pub fn new(hostname: &str) -> (h: Hostname)
        ensures
            h@ == hostname@,
    {
        Hostname(hostname.to_owned())
    }
}

impl AggKey {
    /// The aggregation key with the given text.
    pub fn new(agg_key: &str) -> (k: AggKey)
        ensures
            k@ == agg_key@,
    {
        AggKey(agg_key.to_owned())
    }
}

impl SourceTypeName {
    /// The source type name with the given text.
    pub fn new(name: &str) -> (s: SourceTypeName)
        ensures
            s@ == name@,
    {
        SourceTypeName(name.to_owned())
    }
}

/// The whole seconds from the Unix epoch to now by the system clock, through
/// `SystemTime::elapsed` and `Duration::as_secs` of std, or nothing where the
/// clock stands before the epoch. The number depends on when it is asked:
/// nothing is claimed of it.
#[verifier::external_body]
fn seconds_since_epoch() -> (now: Option<u64>) {
    match std::time::SystemTime::UNIX_EPOCH.elapsed() {
        Ok(elapsed) => Some(elapsed.as_secs()),
        Err(_) => None,
    }
}

impl EventTime {
    /// The time that lies `seconds` after the Unix epoch.
    pub fn from_unix_seconds(seconds: u64) -> (t: EventTime)
        ensures
            t@ == Some(seconds),
    {
        EventTime(Some(seconds))
    }

    /// A time before the Unix epoch.
    pub fn before_epoch() -> (t: EventTime)
        ensures
            t@ == None::<u64>,
    {
        EventTime(None)
    }

    /// The seconds that are sent for this time when the clock reads `now`
    /// seconds since the epoch: its own, or `now` for a time before the epoch.
    pub open spec fn seconds_at(&self, now: u64) -> u64 {
        match self@ {
            Some(seconds) => seconds,
            None => now,
        }
    }

    /// The timestamp suffix for this time when the clock reads `now` seconds
    /// since the epoch.
    pub fn format_at(&self, now: u64) -> (text: String)
        ensures
            text@ == timestamp_text(self.seconds_at(now)),
    {
        let seconds = match self.0 {
            Some(seconds) => seconds,
            None => now,
        };
        let mut text = "|d:".to_owned();
        push_decimal(&mut text, seconds as u128);
        text
    }

    /// What the clock reads, where this time needs it. A time that has its
    /// own seconds needs no clock: none is asked, and the reading is 0. A
    /// time before the epoch gets what the system clock gives just then.
    fn clock(&self) -> (now: u64)
        ensures
            self@ is Some ==> now == 0,
    {
        match self.0 {
            Some(_) => 0,
            None => clock_reading(seconds_since_epoch()),
        }
    }
}

/// The seconds that count as the reading of a clock: those that it gave, or
/// 0 where it gave none because it stands before the epoch itself.
pub open spec fn reading_of(clock: Option<u64>) -> u64 {
    match clock {
        Some(seconds) => seconds,
        None => 0,
    }
}

/// The reading of a clock, from what the clock gave.
pub fn clock_reading(clock: Option<u64>) -> (now: u64)
    ensures
        now == reading_of(clock),
{
    match clock {
        Some(seconds) => seconds,
        None => 0,
    }
}

/// A time is sent as its timestamp suffix, a time before the Unix epoch with
/// what the clock reads.
impl DatagramFormat for EventTime {
    open spec fn formats_as(&self, text: Seq<char>) -> bool {
        exists|now: u64| text == timestamp_text(#[trigger] self.seconds_at(now))
    }

    fn format(&self) -> (text: String) {
        let now = self.clock();
        self.format_at(now)
    }
}

impl DatagramFormat for Hostname {
    open spec fn formats_as(&self, text: Seq<char>) -> bool {
        text == hostname_text(self@)
    }

    fn format(&self) -> (text: String) {
        let mut text = "|h:".to_owned();
        text.append(self.0.as_str());
        text
    }
}

impl DatagramFormat for AggKey {
    open spec fn formats_as(&self, text: Seq<char>) -> bool {
        text == agg_key_text(self@)
    }

    fn format(&self) -> (text: String) {
        let mut text = "|k:".to_owned();
        text.append(self.0.as_str());
        text
    }
}

impl DatagramFormat for SourceTypeName {
    open spec fn formats_as(&self, text: Seq<char>) -> bool {
        text == source_type_name_text(self@)
    }

    fn format(&self) -> (text: String) {
        let mut text = "|s:".to_owned();
        text.append(self.0.as_str());
        text
    }
}

impl DatagramFormat for Priority {
    open spec fn formats_as(&self, text: Seq<char>) -> bool {
        text == priority_text(*self)
    }

    fn format(&self) -> (text: String) {
        match self {
            Priority::Low => "|p:low".to_owned(),
            Priority::Normal => "|p:normal".to_owned(),
        }
    }
}

impl DatagramFormat for AlertType {
    open spec fn formats_as(&self, text: Seq<char>) -> bool {
        text == alert_type_text(*self)
    }

    fn format(&self) -> (text: String) {
        match self {
            AlertType::Error => "|t:error".to_owned(),
            AlertType::Info => "|t:info".to_owned(),
            AlertType::Success => "|t:success".to_owned(),
            AlertType::Warning => "|t:warning".to_owned(),
        }
    }
}

/// An event, by what is sent of it.
pub struct EventView {
    pub title: Seq<char>,
    pub text: Seq<char>,
    pub timestamp: Option<EventTime>,
    pub hostname: Option<Seq<char>>,
    pub agg_key: Option<Seq<char>>,
    pub priority: Option<Priority>,
    pub source_type_name: Option<Seq<char>>,
    pub alert_type: Option<AlertType>,
    pub tags: Option<Seq<(Seq<char>, Seq<char>)>>,
}

/// The event with an empty title, an empty text and no optional field set.
pub open spec fn empty_event() -> EventView {
    EventView {
        title: Seq::empty(),
        text: Seq::empty(),
        timestamp: None,
        hostname: None,
        agg_key: None,
        priority: None,
        source_type_name: None,
        alert_type: None,
        tags: None,
    }
}

/// The head of an event: the lengths of title and text in bytes of UTF-8,
/// then the two themselves.
pub open spec fn event_head(title: Seq<char>, text: Seq<char>) -> Seq<char> {
    "_e{"@ + decimal_text(encode_utf8(title).len()) + ","@ + decimal_text(encode_utf8(text).len())
        + "}:"@ + title + "|"@ + text
}

/// The text of an optional part: nothing where the part is absent.
pub open spec fn optional_text(part: Option<Seq<char>>) -> Seq<char> {
    match part {
        Some(text) => text,
        None => Seq::empty(),
    }
}

/// The timestamp suffix of an event when the clock reads `now` seconds since
/// the epoch; nothing where no time is set.
pub open spec fn timestamp_suffix(e: EventView, now: u64) -> Seq<char> {
    optional_text(
        match e.timestamp {
            Some(time) => Some(timestamp_text(time.seconds_at(now))),
            None => None,
        },
    )
}

/// The hostname suffix of an event; nothing where no hostname is set.
pub open spec fn hostname_suffix(e: EventView) -> Seq<char> {
    optional_text(
        match e.hostname {
            Some(hostname) => Some(hostname_text(hostname)),
            None => None,
        },
    )
}

/// The aggregation key suffix of an event; nothing where no key is set.
pub open spec fn agg_key_suffix(e: EventView) -> Seq<char> {
    optional_text(
        match e.agg_key {
            Some(agg_key) => Some(agg_key_text(agg_key)),
            None => None,
        },
    )
}

/// The priority suffix of an event; nothing where no priority is set.
pub open spec fn priority_suffix(e: EventView) -> Seq<char> {
    optional_text(
        match e.priority {
            Some(priority) => Some(priority_text(priority)),
            None => None,
        },
    )
}

/// The source type name suffix of an event; nothing where no name is set.
pub open spec fn source_type_name_suffix(e: EventView) -> Seq<char> {
    optional_text(
        match e.source_type_name {
            Some(name) => Some(source_type_name_text(name)),
            None => None,
        },
    )
}

/// The alert type suffix of an event; nothing where no alert type is set.
pub open spec fn alert_type_suffix(e: EventView) -> Seq<char> {
    optional_text(
        match e.alert_type {
            Some(alert_type) => Some(alert_type_text(alert_type)),
            None => None,
        },
    )
}

/// The tag suffix of an event; nothing where no tags are set, or none.
pub open spec fn tags_suffix(e: EventView) -> Seq<char> {
    optional_text(
        match e.tags {
            Some(tags) => Some(tags_text(tags)),
            None => None,
        },
    )
}

/// The text of an event when the clock reads `now` seconds since the epoch:
/// the head, then the suffixes of the optional fields that are set, in the
/// order of the wire format. The clock matters only to an event whose time
/// lies before the epoch.
pub open spec fn event_text(e: EventView, now: u64) -> Seq<char> {
    event_head(e.title, e.text) + timestamp_suffix(e, now) + hostname_suffix(e) + agg_key_suffix(e)
        + priority_suffix(e) + source_type_name_suffix(e) + alert_type_suffix(e) + tags_suffix(e)
}

/// An event. It is built from `Event::new()` by the setters, each of which
/// takes the event and gives it back with one field set, and sent as
/// `format` renders it.
pub struct Event {
    title: String,
    text: String,
    timestamp: Option<EventTime>,
    hostname: Option<Hostname>,
    agg_key: Option<AggKey>,
    priority: Option<Priority>,
    source_type_name: Option<SourceTypeName>,
    alert_type: Option<AlertType>,
    tags: Option<Vec<(String, String)>>,
}

impl View for Event {
    type V = EventView;

    closed spec fn view(&self) -> EventView {
        EventView {
            title: self.title@,
            text: self.text@,
            timestamp: self.timestamp,
            hostname: match self.hostname {
                Some(hostname) => Some(hostname@),
                None => None,
            },
            agg_key: match self.agg_key {
                Some(agg_key) => Some(agg_key@),
                None => None,
            },
            priority: self.priority,
            source_type_name: match self.source_type_name {
                Some(name) => Some(name@),
                None => None,
            },
            alert_type: self.alert_type,
            tags: match self.tags {
                Some(tags) => Some(tag_pairs(tags@)),
                None => None,
            },
        }
    }
}

impl Default for Event {
    fn default() -> (e: Event)
        ensures
            e@ == empty_event(),
    {
        Event {
            title: String::new(),
            text: String::new(),
            timestamp: None,
            hostname: None,
            agg_key: None,
            priority: None,
            source_type_name: None,
            alert_type: None,
            tags: None,
        }
    }
}

impl Event {
    /// An event with an empty title, an empty text and no optional field
    /// set: no timestamp either.
    pub fn new() -> (e: Event)
        ensures
            e@ == empty_event(),
    {
        Event::default()
    }

    /// Sets the title.
    pub fn title(self, title: &str) -> (e: Event)
        ensures
            e@ == (EventView { title: title@, ..self@ }),
    {
        Event { title: title.to_owned(), ..self }
    }

    /// Sets the text. It is sent as it stands: a line break in it is not
    /// escaped.
    pub fn text(self, text: &str) -> (e: Event)
        ensures
            e@ == (EventView { text: text@, ..self@ }),
    {
        Event { text: text.to_owned(), ..self }
    }

    /// Sets the time of the event.
    pub fn timestamp(self, ts: EventTime) -> (e: Event)
        ensures
            e@ == (EventView { timestamp: Some(ts), ..self@ }),
    {
        Event { timestamp: Some(ts), ..self }
    }

    /// Sets the hostname.
    pub fn hostname(self, host: &str) -> (e: Event)
        ensures
            e@ == (EventView { hostname: Some(host@), ..self@ }),
    {
        Event { hostname: Some(Hostname::new(host)), ..self }
    }

    /// Sets the aggregation key.
    pub fn agg_key(self, agg_key: &str) -> (e: Event)
        ensures
            e@ == (EventView { agg_key: Some(agg_key@), ..self@ }),
    {
        Event { agg_key: Some(AggKey::new(agg_key)), ..self }
    }

    /// Sets the priority.
    pub fn priority(self, priority: Priority) -> (e: Event)
        ensures
            e@ == (EventView { priority: Some(priority), ..self@ }),
    {
        Event { priority: Some(priority), ..self }
    }

    /// Sets the source type name.
    pub fn source_type_name(self, name: &str) -> (e: Event)
        ensures
            e@ == (EventView { source_type_name: Some(name@), ..self@ }),
    {
        Event { source_type_name: Some(SourceTypeName::new(name)), ..self }
    }

    /// Sets the alert type.
    pub fn alert_type(self, alert_type: AlertType) -> (e: Event)
        ensures
            e@ == (EventView { alert_type: Some(alert_type), ..self@ }),
    {
        Event { alert_type: Some(alert_type), ..self }
    }

    /// Sets the tags, which are sent in the order given.
    pub fn tags(self, tags: Vec<(String, String)>) -> (e: Event)
        ensures
            e@ == (EventView { tags: Some(tag_pairs(tags@)), ..self@ }),
    {
        Event { tags: Some(tags), ..self }
    }
}

/// A copy of `name`, with its length in bytes of UTF-8.
pub fn convert_len(name: &str) -> (r: (String, usize))
    ensures
        r.0@ == name@,
        r.1 == encode_utf8(name@).len(),
{
    (name.to_owned(), name.as_bytes().len())
}

/// The text of an optional part of a datagram, with its length in bytes of
/// UTF-8: the empty text and 0 for an absent part.
pub fn convert_len_from_opt<T: DatagramFormat>(opt: Option<T>) -> (r: (String, usize))
    ensures
        opt.formats_as(r.0@),
        r.1 == encode_utf8(r.0@).len(),
{
    let text = opt.format();
    let len = text.as_str().as_bytes().len();
    (text, len)
}

impl Event {
    /// Whether the text of the event depends on when it is formatted: it
    /// does where the time of the event lies before the Unix epoch.
    pub open spec fn needs_clock(&self) -> bool {
        match self@.timestamp {
            Some(time) => time@ is None,
            None => false,
        }
    }

    /// The event as it is sent when the clock reads `now` seconds since the
    /// epoch.
    pub fn format_at(&self, now: u64) -> (text: String)
        ensures
            text@ == event_text(self@, now),
    {
        let (title, title_len) = convert_len(self.title.as_str());
        let (text, text_len) = convert_len(self.text.as_str());
        let ts = match &self.timestamp {
            Some(time) => time.format_at(now),
            None => String::new(),
        };
        let (hn, hn_len) = convert_len_from_opt(self.hostname.as_ref());
        let (ak, ak_len) = convert_len_from_opt(self.agg_key.as_ref());
        let (ap, ap_len) = convert_len_from_opt(self.priority.as_ref());
        let (st, st_len) = convert_len_from_opt(self.source_type_name.as_ref());
        let (at, at_len) = convert_len_from_opt(self.alert_type.as_ref());
        let tags = match &self.tags {
            Some(tags) => render_tags(tags.as_slice()),
            None => String::new(),
        };
        let mut capacity = add_len(Some(title_len), text_len);
        capacity = add_len(capacity, ts.as_str().as_bytes().len());
        capacity = add_len(capacity, hn_len);
        capacity = add_len(capacity, ak_len);
        capacity = add_len(capacity, ap_len);
        capacity = add_len(capacity, st_len);
        capacity = add_len(capacity, at_len);
        capacity = add_len(capacity, tags.as_str().as_bytes().len());
        let mut msg = buffer(capacity);
        msg.append("_e{");
        push_decimal(&mut msg, title_len as u128);
        msg.append(",");
        push_decimal(&mut msg, text_len as u128);
        msg.append("}:");
        msg.append(title.as_str());
        msg.append("|");
        msg.append(text.as_str());
        msg.append(ts.as_str());
        msg.append(hn.as_str());
        msg.append(ak.as_str());
        msg.append(ap.as_str());
        msg.append(st.as_str());
        msg.append(at.as_str());
        msg.append(tags.as_str());
        msg
    }
}

/// An event is sent as `event_text` says. The clock is read only for an
/// event whose time lies before the Unix epoch; where the clock itself
/// stands before the epoch, it counts as reading 0.
impl DatagramFormat for Event {
    open spec fn formats_as(&self, text: Seq<char>) -> bool {
        if self.needs_clock() {
            exists|now: u64| text == #[trigger] event_text(self@, now)
        } else {
            text == event_text(self@, 0)
        }
    }

    fn format(&self) -> (text: String) {
        let now = match &self.timestamp {
            Some(time) => time.clock(),
            None => 0,
        };
        self.format_at(now)
    }
}

/// A character takes one to four bytes of UTF-8, and one exactly where it is
/// ASCII.
proof fn lemma_char_width(c: char)
    ensures
        1 <= encode_scalar(c as u32).len() <= 4,
        encode_scalar(c as u32).len() == 1 <==> '\0' <= c <= '\u{7f}',
{
    char_is_scalar(c);
}

/// The lengths in the head of an event count bytes, not characters: a text
/// has as many bytes of UTF-8 as characters where all of them are ASCII, and
/// more, up to four times as many, where one is not.
pub proof fn lemma_byte_length(text: Seq<char>)
    ensures
        text.len() <= encode_utf8(text).len() <= 4 * text.len(),
        encode_utf8(text).len() == text.len() <==> is_ascii_chars(text),
    decreases text.len(),
{
    if text.len() > 0 {
        let first = text[0];
        let rest = text.drop_first();
        lemma_byte_length(rest);
        lemma_char_width(first);
        if is_ascii_chars(text) {
            assert forall|i: int| 0 <= i < rest.len() implies '\0' <= #[trigger] rest[i]
                <= '\u{7f}' by {
                assert(rest[i] == text[i + 1]);
            }
        }
        if '\0' <= first <= '\u{7f}' && is_ascii_chars(rest) {
            assert forall|i: int| 0 <= i < text.len() implies '\0' <= #[trigger] text[i]
                <= '\u{7f}' by {
                if i > 0 {
                    assert(text[i] == rest[i - 1]);
                }
            }
        }
    }
}

/// Formatting one event twice gives the same text, and so the same bytes,
/// unless its time lies before the Unix epoch: such an event is sent with the
/// time of the clock, which moves on between the two.
pub proof fn lemma_event_format_twice(event: &Event, first: String, second: String)
    requires
        !event.needs_clock(),
        call_ensures(<Event as DatagramFormat>::format, (event,), first),
        call_ensures(<Event as DatagramFormat>::format, (event,), second),
    ensures
        first@ == second@,
        encode_utf8(first@) == encode_utf8(second@),
{
}

/// An event whose time does not lie before the Unix epoch is sent as the
/// same text whatever the clock reads.
pub proof fn lemma_event_text_without_clock(event: Event, now: u64, later: u64)
    requires
        !event.needs_clock(),
    ensures
        event_text(event@, now) == event_text(event@, later),
{
}

} // verus!
