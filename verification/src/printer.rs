//! The normalized print job and its encoding into the receipt printer's
//! binary control protocol.
//!
//! `encode` is a pure function of the job's fields. The layout: device
//! initialize and style setup, the title in doubled characters, a style
//! reset, then optional subtitle (underlined by a dash rule), optional
//! whitespace-normalized message body, and a rendered creation timestamp.
//! The job-independent closing trailer (paper feed, cut, form feed) is not
//! part of the encoding; the dispatcher appends it after every job.

use vstd::prelude::*;
use vstd::string::StrSliceExecFns;
use vstd::utf8::encode_scalar;
use vstd::utf8::encode_utf8;
use vstd::utf8::leading_byte_width_1;
use crate::bytebuf::push_bytes;
use crate::timestamp::Timestamp;
use crate::timestamp::push_stamp;
use crate::timestamp::stamp_bytes;

verus! {

/// Escape control byte of the printer protocol.
pub const ESC: u8 = 0x1B;

/// Group-separator control byte of the printer protocol.
pub const GS: u8 = 0x1D;

/// Line feed: prints the buffered line.
pub const LF: u8 = 0x0A;

/// A normalized unit of print work, derived from one external notification
/// event. Never mutated after creation; consumed exactly once when encoded.
pub struct PrintData {
    pub title: String,
    pub subtitle: Option<String>,
    pub message: Option<String>,
    pub timestamp: Timestamp,
}

/// The mathematical content of a print job.
pub ghost struct PrintDataView {
    pub title: Seq<char>,
    pub subtitle: Option<Seq<char>>,
    pub message: Option<Seq<char>>,
    pub timestamp: Timestamp,
}

/// The view of an optional owned string.
pub open spec fn opt_view(s: Option<String>) -> Option<Seq<char>> {
    match s {
        Some(x) => Some(x@),
        None => None,
    }
}

impl View for PrintData {
    type V = PrintDataView;

    open spec fn view(&self) -> PrintDataView {
        PrintDataView {
            title: self.title@,
            subtitle: opt_view(self.subtitle),
            message: opt_view(self.message),
            timestamp: self.timestamp,
        }
    }
}

impl PrintDataView {
    /// The job invariant: a title is always present, and the timestamp has
    /// real calendar field ranges.
    pub open spec fn wf(self) -> bool {
        self.title.len() > 0 && self.timestamp.wf()
    }
}

/// Anything that can be turned into printer protocol bytes.
pub trait Printable: Sized {
    /// The bytes this value prints as.
    spec fn print_view(&self) -> Seq<u8>;

    /// Serialize `self` into printer protocol bytes.
    fn into_print_data(self) -> (out: Vec<u8>)
        ensures
            out@ == self.print_view(),
    ;
}

/// The `White_Space` character set of Unicode, the set the message
/// normalization treats as whitespace.
pub open spec fn is_space_char(c: char) -> bool {
    let u = c as u32;
    ||| u == 0x20
    ||| (0x09 <= u && u <= 0x0D)
    ||| u == 0x85
    ||| u == 0xA0
    ||| u == 0x1680
    ||| (0x2000 <= u && u <= 0x200A)
    ||| u == 0x2028
    ||| u == 0x2029
    ||| u == 0x202F
    ||| u == 0x205F
    ||| u == 0x3000
}

/// Decide `is_space_char`.
pub fn is_space(c: char) -> (r: bool)
    ensures
        r == is_space_char(c),
{
    let u = c as u32;
    u == 0x20 || (0x09 <= u && u <= 0x0D) || u == 0x85 || u == 0xA0 || u == 0x1680 || (0x2000 <= u
        && u <= 0x200A) || u == 0x2028 || u == 0x2029 || u == 0x202F || u == 0x205F || u == 0x3000
}

/// The character a message character prints as: whitespace other than a
/// plain space becomes a line break; every other character is kept.
pub open spec fn message_char(c: char) -> char {
    if is_space_char(c) && c != ' ' {
        '\n'
    } else {
        c
    }
}

/// `s` with leading whitespace removed.
pub open spec fn trim_start_rec(s: Seq<char>) -> Seq<char>
    decreases s.len(),
{
    if s.len() > 0 && is_space_char(s[0]) {
        trim_start_rec(s.drop_first())
    } else {
        s
    }
}

/// `s` with trailing whitespace removed.
pub open spec fn trim_end_rec(s: Seq<char>) -> Seq<char>
    decreases s.len(),
{
    if s.len() > 0 && is_space_char(s[s.len() - 1]) {
        trim_end_rec(s.drop_last())
    } else {
        s
    }
}

/// `s` with both leading and trailing whitespace removed.
pub open spec fn trimmed(s: Seq<char>) -> Seq<char> {
    trim_end_rec(trim_start_rec(s))
}

/// The whitespace-normalized characters of a message body: the body is
/// trimmed, then every character is mapped through `message_char`.
pub open spec fn normalized_chars(s: Seq<char>) -> Seq<char> {
    trimmed(s).map_values(|c: char| message_char(c))
}

/// The whitespace-normalized bytes of a message body: the normalized
/// characters, UTF-8 encoded, like every other text of the encoding.
pub open spec fn normalized_message(s: Seq<char>) -> Seq<u8> {
    encode_utf8(normalized_chars(s))
}

proof fn lemma_trim_start_at(s: Seq<char>, a: int)
    requires
        0 <= a <= s.len(),
        forall|k: int| 0 <= k < a ==> is_space_char(s[k]),
        a < s.len() ==> !is_space_char(s[a]),
    ensures
        trim_start_rec(s) == s.subrange(a, s.len() as int),
    decreases a,
{
    if a == 0 {
        if s.len() == 0 || !is_space_char(s[0]) {
            assert(trim_start_rec(s) == s);
            assert(s.subrange(0, s.len() as int) =~= s);
        }
    } else {
        assert(is_space_char(s[0]));
        let d = s.drop_first();
        lemma_trim_start_at(d, a - 1);
        assert(d.subrange(a - 1, d.len() as int) =~= s.subrange(a, s.len() as int));
    }
}

proof fn lemma_trim_end_at(s: Seq<char>, b: int)
    requires
        0 <= b <= s.len(),
        forall|k: int| b <= k < s.len() ==> is_space_char(s[k]),
        b > 0 ==> !is_space_char(s[b - 1]),
    ensures
        trim_end_rec(s) == s.subrange(0, b),
    decreases s.len() - b,
{
    if b == s.len() {
        if s.len() == 0 || !is_space_char(s[s.len() - 1]) {
            assert(trim_end_rec(s) == s);
            assert(s.subrange(0, s.len() as int) =~= s);
        }
    } else {
        assert(is_space_char(s[s.len() - 1]));
        let d = s.drop_last();
        lemma_trim_end_at(d, b);
        assert(d.subrange(0, b) =~= s.subrange(0, b));
    }
}

proof fn lemma_trimmed_is_subrange(s: Seq<char>, a: int, b: int)
    requires
        0 <= a <= b <= s.len(),
        forall|k: int| 0 <= k < a ==> is_space_char(s[k]),
        forall|k: int| b <= k < s.len() ==> is_space_char(s[k]),
        a < b ==> !is_space_char(s[a]) && !is_space_char(s[b - 1]),
        a == b ==> a == s.len(),
    ensures
        trimmed(s) == s.subrange(a, b),
    {
    lemma_trim_start_at(s, a);
    let t = s.subrange(a, s.len() as int);
    lemma_trim_end_at(t, b - a);
    assert(t.subrange(0, b - a) =~= s.subrange(a, b));
}

proof fn lemma_encode_utf8_push(s: Seq<char>, c: char)
    ensures
        encode_utf8(s.push(c)) == encode_utf8(s) + encode_scalar(c as u32),
    decreases s.len(),
{
    if s.len() == 0 {
        assert(s.push(c).drop_first() =~= s);
        assert(encode_utf8(s.push(c)) =~= encode_utf8(s) + encode_scalar(c as u32));
    } else {
        lemma_encode_utf8_push(s.drop_first(), c);
        assert(s.push(c).drop_first() =~= s.drop_first().push(c));
        assert(encode_utf8(s.push(c)) =~= encode_utf8(s) + encode_scalar(c as u32));
    }
}

/// Append the UTF-8 encoding of one character to `out`.
fn push_char_utf8(out: &mut Vec<u8>, c: char)
    ensures
        final(out)@ == old(out)@ + encode_scalar(c as u32),
{
    let u = c as u32;
    if u <= 0x7F {
        out.push((u & 0x7F) as u8);
    } else if u <= 0x7FF {
        out.push(0xC0 | ((u >> 6) & 0x1F) as u8);
        out.push(0x80 | (u & 0x3F) as u8);
    } else if u <= 0xFFFF {
        out.push(0xE0 | ((u >> 12) & 0x0F) as u8);
        out.push(0x80 | ((u >> 6) & 0x3F) as u8);
        out.push(0x80 | (u & 0x3F) as u8);
    } else {
        out.push(0xF0 | ((u >> 18) & 0x7) as u8);
        out.push(0x80 | ((u >> 12) & 0x3F) as u8);
        out.push(0x80 | ((u >> 6) & 0x3F) as u8);
        out.push(0x80 | (u & 0x3F) as u8);
    }
    proof {
        assert(out@ =~= old(out)@ + encode_scalar(c as u32));
    }
}

/// Trim the message body and map every character through `message_char`,
/// emitting the mapped characters' UTF-8 bytes.
pub fn normalize_message(msg: &str) -> (out: Vec<u8>)
    ensures
        out@ == normalized_message(msg@),
{
    let n = msg.unicode_len();
    let mut start: usize = 0;
    while start < n && is_space(msg.get_char(start))
        invariant
            start <= n,
            n == msg@.len(),
            forall|k: int| 0 <= k < start ==> is_space_char(msg@[k]),
        decreases n - start,
    {
        start = start + 1;
    }
    let mut end: usize = n;
    while end > start && is_space(msg.get_char(end - 1))
        invariant
            start <= end <= n,
            n == msg@.len(),
            forall|k: int| end <= k < n ==> is_space_char(msg@[k]),
            forall|k: int| 0 <= k < start ==> is_space_char(msg@[k]),
            start < n ==> !is_space_char(msg@[start as int]),
        decreases end,
    {
        end = end - 1;
    }
    proof {
        lemma_trimmed_is_subrange(msg@, start as int, end as int);
    }
    let ghost kept = msg@.subrange(start as int, end as int);
    let mut out: Vec<u8> = Vec::new();
    let mut i: usize = start;
    while i < end
        invariant
            start <= i <= end <= n,
            n == msg@.len(),
            kept == msg@.subrange(start as int, end as int),
            out@ == encode_utf8(kept.subrange(0, i - start).map_values(|c: char| message_char(c))),
        decreases end - i,
    {
        let c = msg.get_char(i);
        let mc: char = if is_space(c) && c != ' ' {
            '\n'
        } else {
            c
        };
        push_char_utf8(&mut out, mc);
        i = i + 1;
        proof {
            let prev = kept.subrange(0, i - 1 - start).map_values(|c: char| message_char(c));
            assert(kept.subrange(0, i - start) =~= kept.subrange(0, i - 1 - start).push(
                kept[i - 1 - start]));
            assert(kept.subrange(0, i - start).map_values(|c: char| message_char(c)) =~= prev.push(
                message_char(kept[i - 1 - start])));
            lemma_encode_utf8_push(prev, message_char(kept[i - 1 - start]));
            assert(out@ =~= encode_utf8(
                kept.subrange(0, i - start).map_values(|c: char| message_char(c)),
            ));
        }
    }
    proof {
        assert(kept.subrange(0, end - start) =~= kept);
        assert(out@ =~= normalized_message(msg@));
    }
    out
}

/// The device-initialize and title style prologue: initialize, enable font
/// smoothing, select the condensed font, center justification, and doubled
/// character size.
pub open spec fn init_seg() -> Seq<u8> {
    seq![ESC, 0x40u8, GS, 0x62u8, 0x01u8, ESC, 0x4Du8, 0x01u8, ESC, 0x61u8, 0x01u8, GS, 0x21u8, 0x11u8]
}

/// The style reset after the title: feed one line, restore the default
/// font, normal character size, left justification.
pub open spec fn title_reset_seg() -> Seq<u8> {
    seq![ESC, 0x64u8, 0x00u8, ESC, 0x4Du8, 0x00u8, GS, 0x21u8, 0x00u8, ESC, 0x61u8, 0x00u8]
}

/// The subtitle segment: a line feed command, the subtitle, a printed line,
/// then a rule of exactly 48 dashes and its line feed. Empty when no
/// subtitle is present.
pub open spec fn subtitle_seg(sub: Option<Seq<char>>) -> Seq<u8> {
    match sub {
        Some(s) => seq![ESC, 0x64u8, 0x00u8] + encode_utf8(s) + seq![LF] + Seq::new(
            48,
            |i: int| 0x2Du8,
        ) + seq![LF],
        None => Seq::empty(),
    }
}

/// The message segment: a two-line feed command, the whitespace-normalized
/// body, and a closing line feed. Empty when no message is present.
pub open spec fn message_seg(msg: Option<Seq<char>>) -> Seq<u8> {
    match msg {
        Some(m) => seq![ESC, 0x64u8, 0x01u8] + normalized_message(m) + seq![LF],
        None => Seq::empty(),
    }
}

/// The timestamp segment: a two-line feed command, the `Timestamp: ` label,
/// the rendered creation time, and a line feed.
pub open spec fn stamp_seg(ts: Timestamp) -> Seq<u8> {
    seq![ESC, 0x64u8, 0x01u8] + encode_utf8("Timestamp: "@) + stamp_bytes(ts) + seq![LF]
}

/// Everything of the encoding that precedes the message segment.
pub open spec fn encode_prefix(j: PrintDataView) -> Seq<u8> {
    init_seg() + encode_utf8(j.title) + seq![LF] + title_reset_seg() + subtitle_seg(j.subtitle)
}

/// The full encoding of a job: prologue and title, subtitle segment,
/// message segment, timestamp segment.
pub open spec fn encode_spec(j: PrintDataView) -> Seq<u8> {
    encode_prefix(j) + message_seg(j.message) + stamp_seg(j.timestamp)
}

/// Append two bytes.
fn push2(out: &mut Vec<u8>, a: u8, b: u8)
    ensures
        final(out)@ == old(out)@ + seq![a, b],
{
    out.push(a);
    out.push(b);
    proof {
        assert(out@ =~= old(out)@ + seq![a, b]);
    }
}

/// Append a three-byte printer command.
fn push3(out: &mut Vec<u8>, a: u8, b: u8, c: u8)
    ensures
        final(out)@ == old(out)@ + seq![a, b, c],
{
    out.push(a);
    out.push(b);
    out.push(c);
    proof {
        assert(out@ =~= old(out)@ + seq![a, b, c]);
    }
}

/// Append the 48-dash separator rule.
fn push_dashes(out: &mut Vec<u8>)
    ensures
        final(out)@ == old(out)@ + Seq::new(48, |i: int| 0x2Du8),
{
    let mut k: usize = 0;
    while k < 48
        invariant
            k <= 48,
            out@ == old(out)@ + Seq::new(k as nat, |i: int| 0x2Du8),
        decreases 48 - k,
    {
        out.push(0x2D);
        k = k + 1;
        proof {
            assert(out@ =~= old(out)@ + Seq::new(k as nat, |i: int| 0x2Du8));
        }
    }
    proof {
        assert(Seq::new(48nat, |i: int| 0x2Du8) =~= Seq::new(48, |i: int| 0x2Du8));
    }
}

/// Encode a print job into printer protocol bytes: a pure function of the
/// job's fields, so identical jobs always encode to byte-identical output.
pub fn encode(job: &PrintData) -> (out: Vec<u8>)
    ensures
        out@ == encode_spec(job@),
{
    let mut out: Vec<u8> = Vec::new();
    push2(&mut out, ESC, 0x40);
    push3(&mut out, GS, 0x62, 0x01);
    push3(&mut out, ESC, 0x4D, 0x01);
    push3(&mut out, ESC, 0x61, 0x01);
    push3(&mut out, GS, 0x21, 0x11);
    assert(out@ =~= init_seg());
    push_bytes(&mut out, job.title.as_str().as_bytes());
    out.push(LF);
    push3(&mut out, ESC, 0x64, 0x00);
    push3(&mut out, ESC, 0x4D, 0x00);
    push3(&mut out, GS, 0x21, 0x00);
    push3(&mut out, ESC, 0x61, 0x00);
    assert(out@ =~= init_seg() + encode_utf8(job@.title) + seq![LF] + title_reset_seg());
    if let Some(sub) = &job.subtitle {
        push3(&mut out, ESC, 0x64, 0x00);
        push_bytes(&mut out, sub.as_str().as_bytes());
        out.push(LF);
        push_dashes(&mut out);
        out.push(LF);
    }
    assert(out@ =~= encode_prefix(job@));
    if let Some(msg) = &job.message {
        push3(&mut out, ESC, 0x64, 0x01);
        let mut body = normalize_message(msg.as_str());
        out.append(&mut body);
        out.push(LF);
    }
    assert(out@ =~= encode_prefix(job@) + message_seg(job@.message));
    push3(&mut out, ESC, 0x64, 0x01);
    push_bytes(&mut out, "Timestamp: ".as_bytes());
    push_stamp(&mut out, &job.timestamp);
    out.push(LF);
    assert(out@ =~= encode_spec(job@));
    out
}

impl Printable for PrintData {
    open spec fn print_view(&self) -> Seq<u8> {
        encode_spec((*self)@)
    }

    fn into_print_data(self) -> (out: Vec<u8>) {
        encode(&self)
    }
}

/// Encoder purity: the encoding is a function of the job's mathematical
/// content alone, so any two identical jobs yield byte-identical output.
pub proof fn lemma_encode_deterministic(j1: PrintDataView, j2: PrintDataView)
    requires
        j1 == j2,
    ensures
        encode_spec(j1) == encode_spec(j2),
{
}

/// Message isolation: two jobs that differ at most in the message body
/// encode to the same prefix and the same timestamp suffix, with only the
/// message-bearing segment in between differing.
pub proof fn lemma_encode_isolates_message(j1: PrintDataView, j2: PrintDataView)
    requires
        j1.title == j2.title,
        j1.subtitle == j2.subtitle,
        j1.timestamp == j2.timestamp,
    ensures
        encode_spec(j1) == encode_prefix(j1) + message_seg(j1.message) + stamp_seg(j1.timestamp),
        encode_spec(j2) == encode_prefix(j1) + message_seg(j2.message) + stamp_seg(j1.timestamp),
{
}

proof fn lemma_trim_start_head(s: Seq<char>)
    ensures
        trim_start_rec(s).len() > 0 ==> !is_space_char(trim_start_rec(s)[0]),
    decreases s.len(),
{
    if s.len() > 0 && is_space_char(s[0]) {
        lemma_trim_start_head(s.drop_first());
    }
}

proof fn lemma_trim_end_last(s: Seq<char>)
    ensures
        trim_end_rec(s).len() > 0 ==> !is_space_char(trim_end_rec(s)[trim_end_rec(s).len() - 1]),
    decreases s.len(),
{
    if s.len() > 0 && is_space_char(s[s.len() - 1]) {
        lemma_trim_end_last(s.drop_last());
    }
}

proof fn lemma_trim_end_head(s: Seq<char>)
    ensures
        trim_end_rec(s).len() > 0 ==> s.len() > 0 && trim_end_rec(s)[0] == s[0],
    decreases s.len(),
{
    if s.len() > 0 && is_space_char(s[s.len() - 1]) {
        lemma_trim_end_head(s.drop_last());
    }
}

/// Trimming is complete: whenever anything is left of the message body,
/// its first and last characters are not whitespace.
pub proof fn lemma_trimmed_no_outer_whitespace(m: Seq<char>)
    ensures
        trimmed(m).len() > 0 ==> !is_space_char(trimmed(m)[0]) && !is_space_char(
            trimmed(m)[trimmed(m).len() - 1],
        ),
{
    let started = trim_start_rec(m);
    lemma_trim_start_head(m);
    lemma_trim_end_last(started);
    lemma_trim_end_head(started);
}

/// Whitespace law: the message bytes are the UTF-8 encoding of the trimmed
/// body with every whitespace character other than a plain space replaced
/// by a line break — so such characters print as exactly one line-break
/// byte, plain spaces stay plain spaces, and every other character keeps
/// its own UTF-8 bytes.
pub proof fn lemma_whitespace_law(m: Seq<char>)
    ensures
        normalized_message(m) == encode_utf8(normalized_chars(m)),
        normalized_chars(m).len() == trimmed(m).len(),
        forall|i: int|
            0 <= i < trimmed(m).len() && is_space_char(trimmed(m)[i]) && trimmed(m)[i] != ' '
                ==> #[trigger] normalized_chars(m)[i] == '\n',
        forall|i: int|
            0 <= i < trimmed(m).len() && !(is_space_char(trimmed(m)[i]) && trimmed(m)[i] != ' ')
                ==> #[trigger] normalized_chars(m)[i] == trimmed(m)[i],
        encode_utf8(seq!['\n']) == seq![LF],
{
    assert(10u32 & 0x7F == 10u32) by (bit_vector);
    assert('\n' as u32 == 10);
    assert(leading_byte_width_1(10) == 10u8);
    assert(encode_scalar('\n' as u32) =~= seq![LF]);
    assert(seq!['\n'].drop_first() =~= Seq::<char>::empty());
    assert(seq!['\n'][0] == '\n');
    assert(encode_utf8(seq!['\n']) =~= encode_scalar('\n' as u32) + encode_utf8(
        Seq::<char>::empty(),
    ));
    assert(encode_utf8(seq!['\n']) =~= seq![LF]);
}

} // verus!
