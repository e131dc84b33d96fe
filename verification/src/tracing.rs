//! X-Ray trace headers and W3C trace context.
//!
//! Parses AWS X-Ray trace headers and turns them into W3C trace context.
use crate::text;
use crate::text::{all_hex_str, equal, len_bytes, split_once_str, split_str, trim_str};
use vstd::prelude::*;
use vstd::string::*;

verus! {

/// Parsed X-Ray trace header components.
#[derive(Debug, Clone, PartialEq, Eq)]
pub struct XRayTraceHeader {
    /// The X-Ray Root trace ID (e.g., "1-5759e988-bd862e3fe1be46a994272793").
    pub root: String,
    /// The parent segment ID (e.g., "53995c3f42cd8ad8").
    pub parent: Option<String>,
    /// Whether sampling is enabled (1) or disabled (0).
    pub sampled: Option<bool>,
}

/// A trace header, as the contracts see it.
pub struct HeaderView {
    /// The Root trace ID.
    pub root: Seq<char>,
    /// The parent segment ID.
    pub parent: Option<Seq<char>>,
    /// Whether sampling is enabled or disabled.
    pub sampled: Option<bool>,
}

/// The components that the parts of a header have given so far.
pub struct HeaderParts {
    /// The last Root.
    pub root: Option<Seq<char>>,
    /// The last Parent.
    pub parent: Option<Seq<char>>,
    /// The last Sampled.
    pub sampled: Option<bool>,
}

/// The components after one more part of a header. The last value of a key
/// counts; a value of Sampled other than 0 and 1 leaves it open, and other keys
/// are ignored.
pub open spec fn with_part(parts: HeaderParts, part: Seq<char>) -> HeaderParts {
    match text::split_once(text::trim(part), '=') {
        Some(kv) => if kv.0 == "Root"@ {
            HeaderParts { root: Some(kv.1), ..parts }
        } else if kv.0 == "Parent"@ {
            HeaderParts { parent: Some(kv.1), ..parts }
        } else if kv.0 == "Sampled"@ {
            HeaderParts {
                sampled: if kv.1 == "1"@ {
                    Some(true)
                } else if kv.1 == "0"@ {
                    Some(false)
                } else {
                    None
                },
                ..parts
            }
        } else {
            parts
        },
        None => parts,
    }
}

/// The components that a list of parts gives.
pub open spec fn header_parts(parts: Seq<Seq<char>>) -> HeaderParts
    decreases parts.len(),
{
    if parts.len() == 0 {
        HeaderParts { root: None, parent: None, sampled: None }
    } else {
        with_part(header_parts(parts.drop_last()), parts.last())
    }
}

/// The header that a string stands for, where it names a Root.
pub open spec fn parse_header(s: Seq<char>) -> Option<HeaderView> {
    let parts = header_parts(text::split(s, ';'));
    match parts.root {
        Some(root) => Some(
            HeaderView { root, parent: parts.parent, sampled: parts.sampled },
        ),
        None => None,
    }
}

/// A component with a separator in front, or nothing where there is no component.
pub open spec fn optional_part(key: Seq<char>, value: Option<Seq<char>>) -> Seq<char> {
    match value {
        Some(v) => seq![';'] + key + v,
        None => Seq::empty(),
    }
}

/// The value of Sampled in a header.
pub open spec fn sampled_digit(sampled: Option<bool>) -> Option<Seq<char>> {
    match sampled {
        Some(true) => Some("1"@),
        Some(false) => Some("0"@),
        None => None,
    }
}

/// The string that stands for a header.
pub open spec fn header_string(h: HeaderView) -> Seq<char> {
    "Root="@ + h.root + optional_part("Parent="@, h.parent) + optional_part(
        "Sampled="@,
        sampled_digit(h.sampled),
    )
}

/// The W3C trace ID of an X-Ray Root: its time and its random part, where these
/// are 8 and 24 hexadecimal digits and the version is 1.
pub open spec fn root_trace_id(root: Seq<char>) -> Option<Seq<char>> {
    let parts = text::split(root, '-');
    if parts.len() == 3 && parts[0] == "1"@ && text::byte_len(parts[1]) == 8 && text::all_hex(
        parts[1],
    ) && text::byte_len(parts[2]) == 24 && text::all_hex(parts[2]) {
        Some(parts[1] + parts[2])
    } else {
        None
    }
}

/// A W3C trace context, as the contracts see it.
pub struct ContextView {
    /// The trace ID.
    pub trace_id: Seq<char>,
    /// The span ID.
    pub span_id: Seq<char>,
    /// Whether the trace is sampled.
    pub sampled: bool,
}

/// The trace context of a header: there is one where the header has a parent of
/// 16 hexadecimal digits and its Root gives a trace ID.
pub open spec fn w3c_context(h: HeaderView) -> Option<ContextView> {
    match (h.parent, root_trace_id(h.root)) {
        (Some(parent), Some(trace_id)) => if text::byte_len(parent) == 16 && text::all_hex(
            parent,
        ) {
            Some(
                ContextView { trace_id, span_id: parent, sampled: h.sampled == Some(true) },
            )
        } else {
            None
        },
        _ => None,
    }
}

/// The flags of a traceparent.
pub open spec fn flags_text(sampled: bool) -> Seq<char> {
    if sampled {
        "01"@
    } else {
        "00"@
    }
}

/// The traceparent of a trace ID, a span ID and the flags.
pub open spec fn traceparent(trace_id: Seq<char>, span_id: Seq<char>, sampled: bool) -> Seq<char> {
    "00-"@ + trace_id + "-"@ + span_id + "-"@ + flags_text(sampled)
}

/// The number that a hexadecimal digit stands for.
pub open spec fn nibble(b: u8) -> Option<u8> {
    if 48 <= b <= 57 {
        Some((b - 48) as u8)
    } else if 97 <= b <= 102 {
        Some((b - 87) as u8)
    } else if 65 <= b <= 70 {
        Some((b - 55) as u8)
    } else {
        None
    }
}

/// Whether every byte is a hexadecimal digit.
pub open spec fn all_nibbles(b: Seq<u8>) -> bool {
    forall|i: int| 0 <= i < b.len() ==> nibble(#[trigger] b[i]) is Some
}

/// The bytes that pairs of hexadecimal digits stand for, where there are only
/// such.
pub open spec fn hex_bytes(b: Seq<u8>) -> Option<Seq<u8>> {
    if b.len() % 2 == 0 && all_nibbles(b) {
        Some(
            Seq::new(
                b.len() / 2,
                |i: int| (16 * nibble(b[2 * i])->0 + nibble(b[2 * i + 1])->0) as u8,
            ),
        )
    } else {
        None
    }
}

/// `hex::decode`: the bytes that pairs of hexadecimal digits, in either case,
/// stand for; nothing where the length is odd or a character is no such digit.
#[verifier::external_body]
fn hex_decode(s: &str) -> (r: Option<Vec<u8>>)
    ensures
        match r {
            Some(bytes) => hex_bytes(s.spec_bytes()) == Some(bytes@),
            None => hex_bytes(s.spec_bytes()) is None,
        },
{
    hex::decode(s).ok()
}

impl View for XRayTraceHeader {
    type V = HeaderView;

    open spec fn view(&self) -> HeaderView {
        HeaderView {
            root: self.root@,
            parent: text::opt_view(self.parent),
            sampled: self.sampled,
        }
    }
}

impl XRayTraceHeader {
    /// Parses an X-Ray trace header string.
    ///
    /// The format is: `Root=1-{timestamp}-{random};Parent={parent_id};Sampled={0|1}`
    pub fn parse(header: &str) -> (r: Option<Self>)
        ensures
            match r {
                Some(h) => parse_header(header@) == Some(h@),
                None => parse_header(header@) is None,
            },
    {
        let parts = split_str(header, ';');
        let ghost all = text::views(parts@);
        let mut root: Option<String> = None;
        let mut parent: Option<String> = None;
        let mut sampled: Option<bool> = None;
        let mut i: usize = 0;
        assert(all.take(0) =~= Seq::<Seq<char>>::empty());
        while i < parts.len()
            invariant
                i <= parts.len(),
                all == text::views(parts@),
                header_parts(all.take(i as int)) == (HeaderParts {
                    root: text::opt_view(root),
                    parent: text::opt_view(parent),
                    sampled,
                }),
            decreases parts.len() - i,
        {
            proof {
                assert(all.take(i + 1).drop_last() =~= all.take(i as int));
                assert(all.take(i + 1).last() == parts@[i as int]@);
            }
            let part = trim_str(parts[i]);
            if let Some((key, value)) = split_once_str(part, '=') {
                if equal(key, "Root") {
                    root = Some(value.to_owned());
                } else if equal(key, "Parent") {
                    parent = Some(value.to_owned());
                } else if equal(key, "Sampled") {
                    sampled = if equal(value, "1") {
                        Some(true)
                    } else if equal(value, "0") {
                        Some(false)
                    } else {
                        None
                    };
                }
            }
            i = i + 1;
        }
        assert(all.take(i as int) =~= all);
        match root {
            Some(root) => Some(XRayTraceHeader { root, parent, sampled }),
            None => None,
        }
    }

    /// Converts the X-Ray trace header to W3C trace context format.
    ///
    /// Returns `None` if the parent is not present or conversion fails.
    pub fn to_w3c(&self) -> (r: Option<W3CTraceContext>)
        ensures
            match r {
                Some(w) => w3c_context(self@) == Some(w@),
                None => w3c_context(self@) is None,
            },
    {
        let parent = match &self.parent {
            Some(parent) => parent,
            None => {
                return None;
            },
        };
        let trace_id = match self.xray_root_to_trace_id() {
            Some(id) => id,
            None => {
                return None;
            },
        };
        if len_bytes(parent.as_str()) != 16 || !all_hex_str(parent.as_str()) {
            return None;
        }
        Some(
            W3CTraceContext {
                trace_id,
                span_id: parent.clone(),
                sampled: match self.sampled {
                    Some(sampled) => sampled,
                    None => false,
                },
            },
        )
    }

    /// Converts X-Ray Root ID to W3C trace ID.
    ///
    /// X-Ray Root format: `1-{8 hex chars timestamp}-{24 hex chars random}`
    pub fn xray_root_to_trace_id(&self) -> (r: Option<String>)
        ensures
            text::opt_view(r) == root_trace_id(self.root@),
    {
        let parts = split_str(self.root.as_str(), '-');
        proof {
            assert(text::views(parts@).len() == parts@.len());
        }
        if parts.len() != 3 {
            return None;
        }
        proof {
            assert(text::views(parts@)[0] == parts@[0]@);
            assert(text::views(parts@)[1] == parts@[1]@);
            assert(text::views(parts@)[2] == parts@[2]@);
        }
        if !equal(parts[0], "1") {
            return None;
        }
        if len_bytes(parts[1]) != 8 || !all_hex_str(parts[1]) {
            return None;
        }
        if len_bytes(parts[2]) != 24 || !all_hex_str(parts[2]) {
            return None;
        }
        let mut id = parts[1].to_owned();
        id.append(parts[2]);
        Some(id)
    }

    /// Returns the raw X-Ray trace header string.
    pub fn to_header_string(&self) -> (s: String)
        ensures
            s@ == header_string(self@),
    {
        let mut s = "Root=".to_owned();
        s.append(self.root.as_str());
        let ghost begun = s@;
        if let Some(parent) = &self.parent {
            s.push(';');
            s.append("Parent=");
            s.append(parent.as_str());
        }
        proof {
            assert(s@ =~= begun + optional_part("Parent="@, self@.parent));
        }
        let ghost longer = s@;
        if let Some(sampled) = self.sampled {
            s.push(';');
            s.append("Sampled=");
            s.append(
                if sampled {
                    "1"
                } else {
                    "0"
                },
            );
        }
        proof {
            assert(s@ =~= longer + optional_part("Sampled="@, sampled_digit(self@.sampled)));
        }
        s
    }
}

/// W3C trace context components.
#[derive(Debug, Clone, PartialEq, Eq)]
pub struct W3CTraceContext {
    /// 32-character hex trace ID (16 bytes).
    pub trace_id: String,
    /// 16-character hex span ID (8 bytes).
    pub span_id: String,
    /// Whether the trace is sampled.
    pub sampled: bool,
}

impl View for W3CTraceContext {
    type V = ContextView;

    open spec fn view(&self) -> ContextView {
        ContextView { trace_id: self.trace_id@, span_id: self.span_id@, sampled: self.sampled }
    }
}

/// The bytes of a hexadecimal ID, where it has as many as asked for.
pub open spec fn id_bytes(id: Seq<char>, len: nat) -> Option<Seq<u8>> {
    match hex_bytes(vstd::utf8::encode_utf8(id)) {
        Some(bytes) => if bytes.len() == len {
            Some(bytes)
        } else {
            None
        },
        None => None,
    }
}

impl W3CTraceContext {
    /// Converts trace ID to bytes.
    pub fn trace_id_bytes(&self) -> (r: Option<[u8; 16]>)
        ensures
            match r {
                Some(bytes) => id_bytes(self@.trace_id, 16) == Some(bytes@),
                None => id_bytes(self@.trace_id, 16) is None,
            },
    {
        let bytes = match hex_decode(self.trace_id.as_str()) {
            Some(bytes) => bytes,
            None => {
                return None;
            },
        };
        if bytes.len() != 16 {
            return None;
        }
        let mut arr: [u8; 16] = [0u8;16];
        let mut i: usize = 0;
        while i < 16
            invariant
                i <= 16,
                bytes@.len() == 16,
                forall|j: int| 0 <= j < i ==> arr@[j] == bytes@[j],
            decreases 16 - i,
        {
            arr[i] = bytes[i];
            i = i + 1;
        }
        assert(arr@ =~= bytes@);
        Some(arr)
    }

    /// Converts span ID to bytes.
    pub fn span_id_bytes(&self) -> (r: Option<[u8; 8]>)
        ensures
            match r {
                Some(bytes) => id_bytes(self@.span_id, 8) == Some(bytes@),
                None => id_bytes(self@.span_id, 8) is None,
            },
    {
        let bytes = match hex_decode(self.span_id.as_str()) {
            Some(bytes) => bytes,
            None => {
                return None;
            },
        };
        if bytes.len() != 8 {
            return None;
        }
        let mut arr: [u8; 8] = [0u8;8];
        let mut i: usize = 0;
        while i < 8
            invariant
                i <= 8,
                bytes@.len() == 8,
                forall|j: int| 0 <= j < i ==> arr@[j] == bytes@[j],
            decreases 8 - i,
        {
            arr[i] = bytes[i];
            i = i + 1;
        }
        assert(arr@ =~= bytes@);
        Some(arr)
    }

    /// Returns the W3C traceparent header string.
    ///
    /// Format: `{version}-{trace-id}-{parent-id}-{trace-flags}`
    pub fn to_traceparent(&self) -> (s: String)
        ensures
            s@ == traceparent(self@.trace_id, self@.span_id, self@.sampled),
    {
        traceparent_string(self.trace_id.as_str(), self.span_id.as_str(), self.sampled)
    }
}

/// Writes a traceparent.
pub fn traceparent_string(trace_id: &str, span_id: &str, sampled: bool) -> (s: String)
    ensures
        s@ == traceparent(trace_id@, span_id@, sampled),
{
    let mut s = "00-".to_owned();
    s.append(trace_id);
    s.append("-");
    s.append(span_id);
    s.append("-");
    s.append(
        if sampled {
            "01"
        } else {
            "00"
        },
    );
    s
}

/// Whether a component survives in a header: no separator stands in it, and no
/// white space at its end.
pub open spec fn clean(v: Seq<char>) -> bool {
    text::free_of(v, ';') && (v.len() > 0 ==> !text::is_white_space(v.last()))
}

/// A part `key=value` of a header splits into the two.
proof fn lemma_part(key: Seq<char>, value: Seq<char>)
    requires
        key.len() > 0,
        !text::is_white_space(key[0]),
        text::free_of(key, '='),
        text::free_of(key, ';'),
        clean(value),
    ensures
        text::free_of(key.push('=') + value, ';'),
        text::split_once(text::trim(key.push('=') + value), '=') == Some((key, value)),
{
    let part = key.push('=') + value;
    assert(part[0] == key[0]);
    assert(part.last() == if value.len() > 0 {
        value.last()
    } else {
        '='
    });
    text::lemma_trim_none(part);
    text::lemma_split_join(key, '=', value);
    assert forall|i: int| 0 <= i < part.len() implies #[trigger] part[i] != ';' by {
        if i < key.len() {
            assert(part[i] == key[i]);
        } else if i > key.len() {
            assert(part[i] == value[i - key.len() - 1]);
        }
    }
}

/// The parts of the string that stands for a header.
pub open spec fn pieces(h: HeaderView) -> Seq<Seq<char>> {
    let a = seq!["Root="@ + h.root];
    let b = match h.parent {
        Some(parent) => a.push("Parent="@ + parent),
        None => a,
    };
    match sampled_digit(h.sampled) {
        Some(digit) => b.push("Sampled="@ + digit),
        None => b,
    }
}

/// The string that stands for a header splits into its parts.
pub proof fn lemma_pieces(h: HeaderView)
    requires
        clean(h.root),
        h.parent is Some ==> clean(h.parent->0),
    ensures
        text::split(header_string(h), ';') == pieces(h),
{
    reveal_strlit("Root");
    reveal_strlit("Root=");
    reveal_strlit("Parent");
    reveal_strlit("Parent=");
    reveal_strlit("Sampled");
    reveal_strlit("Sampled=");
    reveal_strlit("0");
    reveal_strlit("1");
    let a = "Root="@ + h.root;
    assert(a =~= "Root"@.push('=') + h.root);
    lemma_part("Root"@, h.root);
    let b = "Parent="@ + h.parent->0;
    if h.parent is Some {
        assert(b =~= "Parent"@.push('=') + h.parent->0);
        lemma_part("Parent"@, h.parent->0);
    }
    let d = sampled_digit(h.sampled)->0;
    let c = "Sampled="@ + d;
    if h.sampled is Some {
        assert(c =~= "Sampled"@.push('=') + d);
        lemma_part("Sampled"@, d);
    }
    let s = header_string(h);
    if h.parent is None && h.sampled is None {
        assert(s =~= a);
        text::lemma_split_single(a, ';');
    } else if h.parent is Some && h.sampled is None {
        assert(s =~= a.push(';') + b);
        text::lemma_split_join(a, ';', b);
        text::lemma_split_single(b, ';');
    } else if h.parent is None {
        assert(s =~= a.push(';') + c);
        text::lemma_split_join(a, ';', c);
        text::lemma_split_single(c, ';');
    } else {
        assert(s =~= a.push(';') + (b.push(';') + c));
        text::lemma_split_join(a, ';', b.push(';') + c);
        text::lemma_split_join(b, ';', c);
        text::lemma_split_single(c, ';');
    }
    assert(text::split(s, ';') =~= pieces(h));
}

/// Parsing brings back what was written: a header whose components hold no
/// separator and end in no white space is the one that its string stands for.
pub proof fn law_parse_brings_back_the_header(h: HeaderView)
    requires
        clean(h.root),
        h.parent is Some ==> clean(h.parent->0),
    ensures
        parse_header(header_string(h)) == Some(h),
{
    reveal_strlit("Root");
    reveal_strlit("Root=");
    reveal_strlit("Parent");
    reveal_strlit("Parent=");
    reveal_strlit("Sampled");
    reveal_strlit("Sampled=");
    reveal_strlit("0");
    reveal_strlit("1");
    lemma_pieces(h);
    let none = HeaderParts { root: None, parent: None, sampled: None };
    let a = "Root="@ + h.root;
    assert(a =~= "Root"@.push('=') + h.root);
    lemma_part("Root"@, h.root);
    let with_a = HeaderParts { root: Some(h.root), ..none };
    assert(with_part(none, a) == with_a);
    assert(header_parts(Seq::empty()) == none);
    assert(seq![a].drop_last() =~= Seq::empty());
    assert(header_parts(seq![a]) == with_a);
    let with_b = HeaderParts { parent: h.parent, ..with_a };
    let b = "Parent="@ + h.parent->0;
    if h.parent is Some {
        assert(b =~= "Parent"@.push('=') + h.parent->0);
        lemma_part("Parent"@, h.parent->0);
        assert("Parent"@.len() != "Root"@.len());
        assert(with_part(with_a, b) == with_b);
        assert(seq![a].push(b).drop_last() =~= seq![a]);
        assert(header_parts(seq![a].push(b)) == with_b);
    }
    let d = sampled_digit(h.sampled)->0;
    let c = "Sampled="@ + d;
    if h.sampled is Some {
        assert(c =~= "Sampled"@.push('=') + d);
        lemma_part("Sampled"@, d);
        assert("Sampled"@.len() != "Root"@.len() && "Sampled"@.len() != "Parent"@.len());
        assert("1"@[0] != "0"@[0]);
        assert(with_part(with_b, c) == HeaderParts { sampled: h.sampled, ..with_b });
        let before = pieces(HeaderView { sampled: None, ..h });
        assert(pieces(h).drop_last() =~= before);
        assert(pieces(h).last() == c);
    }
}

/// Conversion gives valid IDs: 32 and 16 hexadecimal digits, the span ID being
/// the parent of the header, and both stand for bytes.
pub proof fn law_w3c_ids_are_valid(h: HeaderView)
    requires
        w3c_context(h) is Some,
    ensures
        ({
            let w = w3c_context(h)->0;
            &&& w.trace_id.len() == 32
            &&& text::all_hex(w.trace_id)
            &&& w.span_id.len() == 16
            &&& text::all_hex(w.span_id)
            &&& h.parent == Some(w.span_id)
            &&& id_bytes(w.trace_id, 16) is Some
            &&& id_bytes(w.span_id, 8) is Some
        }),
{
    let w = w3c_context(h)->0;
    let parts = text::split(h.root, '-');
    text::lemma_hex_bytes_of_chars(parts[1]);
    text::lemma_hex_bytes_of_chars(parts[2]);
    assert forall|i: int| 0 <= i < w.trace_id.len() implies text::is_hex_digit(
        #[trigger] w.trace_id[i],
    ) by {
        if i < parts[1].len() {
            assert(w.trace_id[i] == parts[1][i]);
        } else {
            assert(w.trace_id[i] == parts[2][i - parts[1].len()]);
        }
    }
    text::lemma_hex_bytes_of_chars(w.span_id);
    lemma_hex_id(w.trace_id);
    lemma_hex_id(w.span_id);
}

/// A string of hexadecimal digits in pairs stands for bytes, half as many.
proof fn lemma_hex_id(id: Seq<char>)
    requires
        text::all_hex(id),
        id.len() % 2 == 0,
    ensures
        hex_bytes(vstd::utf8::encode_utf8(id)) is Some,
        hex_bytes(vstd::utf8::encode_utf8(id))->0.len() == id.len() / 2,
{
    text::lemma_hex_bytes_of_chars(id);
    let b = vstd::utf8::encode_utf8(id);
    assert forall|i: int| 0 <= i < b.len() implies nibble(#[trigger] b[i]) is Some by {
        assert(text::is_hex_digit(id[i]));
    }
}

/// The hexadecimal digit of a number below 16, in lower case.
pub open spec fn hex_char(n: u8) -> char {
    if n < 10 {
        (48 + n) as u8 as char
    } else {
        (87 + n) as u8 as char
    }
}

/// Bytes in hexadecimal, in lower case.
pub open spec fn hex_text(bytes: Seq<u8>) -> Seq<char> {
    Seq::new(
        2 * bytes.len(),
        |i: int|
            if i % 2 == 0 {
                hex_char(bytes[i / 2] / 16)
            } else {
                hex_char(bytes[i / 2] % 16)
            },
    )
}

/// The bytes of an ID, written in hexadecimal again, are the ID in lower case.
pub proof fn law_id_bytes_bring_back_the_id(id: Seq<char>, len: nat)
    requires
        text::all_hex(id),
        id_bytes(id, len) is Some,
    ensures
        hex_text(id_bytes(id, len)->0) == text::ascii_lower_all(id),
{
    text::lemma_hex_bytes_of_chars(id);
    let b = vstd::utf8::encode_utf8(id);
    let bytes = id_bytes(id, len)->0;
    let back = hex_text(bytes);
    assert forall|i: int| 0 <= i < id.len() implies #[trigger] back[i]
        == text::ascii_lower_all(id)[i] by {
        let k = i / 2;
        assert(text::is_hex_digit(id[2 * k]));
        assert(text::is_hex_digit(id[2 * k + 1]));
        assert(b[2 * k] == id[2 * k] as u8 && b[2 * k + 1] == id[2 * k + 1] as u8);
        let hi = nibble(b[2 * k])->0;
        let lo = nibble(b[2 * k + 1])->0;
        assert(hi < 16 && lo < 16);
        assert(bytes[k] == 16 * hi + lo);
        assert(bytes[k] / 16 == hi);
        assert(bytes[k] % 16 == lo);
        assert(i == 2 * k || i == 2 * k + 1);
    }
    assert(back =~= text::ascii_lower_all(id));
}

/// A header of a sampled or unsampled trace converts: the trace ID is made of the two parts
/// of its root, the span ID is its parent, and it is sampled where it says so.
pub proof fn law_a_header_converts_to_its_ids(
    epoch: Seq<char>,
    unique: Seq<char>,
    parent: Seq<char>,
    sampled: Option<bool>,
)
    requires
        epoch.len() == 8,
        unique.len() == 24,
        parent.len() == 16,
        text::all_hex(epoch),
        text::all_hex(unique),
        text::all_hex(parent),
    ensures
        ({
            let root = "1-"@ + epoch + "-"@ + unique;
            let h = HeaderView { root, parent: Some(parent), sampled };
            let w = w3c_context(h);
            &&& w is Some
            &&& w->0.trace_id == epoch + unique
            &&& w->0.span_id == parent
            &&& w->0.sampled <==> sampled == Some(true)
            &&& parse_header(header_string(h)) == Some(h)
            &&& sampled == Some(true) ==> header_string(h) == "Root="@ + root + ";Parent="@ + parent
                + ";Sampled=1"@
            &&& sampled == Some(false) ==> header_string(h) == "Root="@ + root + ";Parent="@
                + parent + ";Sampled=0"@
            &&& sampled is None ==> header_string(h) == "Root="@ + root + ";Parent="@ + parent
        }),
{
    reveal_strlit("1-");
    reveal_strlit("1");
    reveal_strlit("0");
    reveal_strlit("-");
    reveal_strlit("Parent=");
    reveal_strlit(";Parent=");
    reveal_strlit("Sampled=");
    reveal_strlit(";Sampled=1");
    reveal_strlit(";Sampled=0");
    let root = "1-"@ + epoch + "-"@ + unique;
    let h = HeaderView { root, parent: Some(parent), sampled };
    assert forall|i: int| 0 <= i < epoch.len() implies epoch[i] != '-' && epoch[i] != ';' by {
        assert(text::is_hex_digit(epoch[i]));
    }
    assert forall|i: int| 0 <= i < unique.len() implies unique[i] != '-' && unique[i] != ';' by {
        assert(text::is_hex_digit(unique[i]));
    }
    assert forall|i: int| 0 <= i < parent.len() implies parent[i] != ';' by {
        assert(text::is_hex_digit(parent[i]));
    }
    assert(text::free_of(epoch, '-'));
    assert(text::free_of(unique, '-'));
    assert(root =~= "1"@.push('-') + (epoch.push('-') + unique));
    text::lemma_split_join("1"@, '-', epoch.push('-') + unique);
    text::lemma_split_join(epoch, '-', unique);
    text::lemma_split_single(unique, '-');
    text::lemma_hex_bytes_of_chars(epoch);
    text::lemma_hex_bytes_of_chars(unique);
    text::lemma_hex_bytes_of_chars(parent);
    assert(text::split(root, '-') =~= seq!["1"@, epoch, unique]);
    assert(clean(root)) by {
        assert forall|i: int| 0 <= i < root.len() implies root[i] != ';' by {
            if 2 <= i < 10 {
                assert(root[i] == epoch[i - 2]);
            } else if i > 10 {
                assert(root[i] == unique[i - 11]);
            }
        }
        assert(root.last() == unique.last());
        assert(text::is_hex_digit(unique.last()));
    }
    assert(clean(parent)) by {
        assert(text::is_hex_digit(parent.last()));
    }
    law_parse_brings_back_the_header(h);
    let head = "Root="@ + root;
    assert(seq![';'] + "Parent="@ + parent =~= ";Parent="@ + parent);
    assert(head + (seq![';'] + "Parent="@ + parent) =~= head + ";Parent="@ + parent);
    let both = head + ";Parent="@ + parent;
    assert(both + (seq![';'] + "Sampled="@ + "1"@) =~= both + ";Sampled=1"@);
    assert(both + (seq![';'] + "Sampled="@ + "0"@) =~= both + ";Sampled=0"@);
    assert(both + Seq::<char>::empty() =~= both);
}

/// A header without a parent, or whose root is not of version 1 with 8 and 24 hexadecimal
/// digits, converts to nothing; neither does one whose parent has other than 16.
pub proof fn law_other_headers_do_not_convert(h: HeaderView)
    requires
        w3c_context(h) is Some,
    ensures
        h.parent is Some,
        h.parent->0.len() == 16,
        text::all_hex(h.parent->0),
        text::split(h.root, '-').len() == 3,
        text::split(h.root, '-')[0] == "1"@,
        text::split(h.root, '-')[1].len() == 8,
        text::split(h.root, '-')[2].len() == 24,
        text::all_hex(text::split(h.root, '-')[1]),
        text::all_hex(text::split(h.root, '-')[2]),
{
    text::lemma_hex_bytes_of_chars(h.parent->0);
    text::lemma_hex_bytes_of_chars(text::split(h.root, '-')[1]);
    text::lemma_hex_bytes_of_chars(text::split(h.root, '-')[2]);
}

/// Each part of a header sets the component that it names, to its own value, and no other;
/// a part with another name sets none. Of two parts with one name the later counts.
pub proof fn law_a_part_sets_what_it_names(
    parts: HeaderParts,
    value: Seq<char>,
    later: Seq<char>,
    name: Seq<char>,
)
    requires
        clean(value),
        clean(later),
        name.len() > 0,
        !text::is_white_space(name[0]),
        text::free_of(name, '='),
        text::free_of(name, ';'),
        name != "Root"@,
        name != "Parent"@,
        name != "Sampled"@,
    ensures
        with_part(parts, "Root="@ + value) == (HeaderParts { root: Some(value), ..parts }),
        with_part(parts, "Parent="@ + value) == (HeaderParts { parent: Some(value), ..parts }),
        with_part(parts, "Sampled=1"@) == (HeaderParts { sampled: Some(true), ..parts }),
        with_part(parts, "Sampled=0"@) == (HeaderParts { sampled: Some(false), ..parts }),
        value != "1"@ && value != "0"@ ==> with_part(parts, "Sampled="@ + value) == (HeaderParts {
            sampled: None,
            ..parts
        }),
        with_part(parts, name.push('=') + value) == parts,
        with_part(with_part(parts, "Root="@ + value), "Root="@ + later) == with_part(
            parts,
            "Root="@ + later,
        ),
{
    reveal_strlit("Root");
    reveal_strlit("Root=");
    reveal_strlit("Parent");
    reveal_strlit("Parent=");
    reveal_strlit("Sampled");
    reveal_strlit("Sampled=");
    reveal_strlit("Sampled=0");
    reveal_strlit("Sampled=1");
    reveal_strlit("0");
    reveal_strlit("1");
    assert("Root="@ + value =~= "Root"@.push('=') + value);
    assert("Root="@ + later =~= "Root"@.push('=') + later);
    assert("Parent="@ + value =~= "Parent"@.push('=') + value);
    assert("Sampled="@ + value =~= "Sampled"@.push('=') + value);
    assert("Sampled=0"@ =~= "Sampled"@.push('=') + "0"@);
    assert("Sampled=1"@ =~= "Sampled"@.push('=') + "1"@);
    lemma_part("Root"@, value);
    lemma_part("Root"@, later);
    lemma_part("Parent"@, value);
    lemma_part("Sampled"@, value);
    lemma_part("Sampled"@, "0"@);
    lemma_part("Sampled"@, "1"@);
    lemma_part(name, value);
    assert("Root"@.len() == 4 && "Parent"@.len() == 6 && "Sampled"@.len() == 7);
    assert("1"@[0] != "0"@[0]);
}

/// A header that names no root is none; one that does is told with all its components.
pub proof fn law_a_header_needs_a_root(s: Seq<char>)
    ensures
        ({
            let parts = header_parts(text::split(s, ';'));
            &&& parse_header(s) is Some <==> parts.root is Some
            &&& parse_header(s) is Some ==> parse_header(s)->0.root == parts.root->0
                && parse_header(s)->0.parent == parts.parent && parse_header(s)->0.sampled
                == parts.sampled
        }),
{
}

/// A traceparent has its version, the trace ID, the span ID and the flags, which say
/// whether the trace is sampled.
pub proof fn law_a_traceparent_is_made_of_its_ids(
    trace_id: Seq<char>,
    span_id: Seq<char>,
    sampled: bool,
)
    ensures
        sampled ==> traceparent(trace_id, span_id, sampled) == "00-"@ + trace_id + "-"@ + span_id
            + "-01"@,
        !sampled ==> traceparent(trace_id, span_id, sampled) == "00-"@ + trace_id + "-"@ + span_id
            + "-00"@,
        trace_id.len() == 32 && span_id.len() == 16 ==> traceparent(
            trace_id,
            span_id,
            sampled,
        ).len() == 55,
{
    reveal_strlit("-");
    reveal_strlit("00-");
    reveal_strlit("01");
    reveal_strlit("00");
    reveal_strlit("-01");
    reveal_strlit("-00");
    let head = "00-"@ + trace_id + "-"@ + span_id;
    assert(head + "-"@ + "01"@ =~= head + "-01"@);
    assert(head + "-"@ + "00"@ =~= head + "-00"@);
}

/// An ID has bytes where it is made of two hexadecimal digits for each of them, and nowhere
/// else.
pub proof fn law_an_id_has_two_digits_for_each_byte(id: Seq<char>, len: nat)
    requires
        text::all_hex(id),
    ensures
        id_bytes(id, len) is Some <==> id.len() == 2 * len,
        id_bytes(id, len) is Some ==> id_bytes(id, len)->0.len() == len,
{
    text::lemma_hex_bytes_of_chars(id);
    if id.len() % 2 == 0 {
        lemma_hex_id(id);
    }
}

/// What is parsed from a written header is the header, and it converts to the IDs that it
/// was written with.
pub proof fn law_parsing_a_written_header(
    h: XRayTraceHeader,
    text: String,
    header: &str,
    parsed: Option<XRayTraceHeader>,
    w: Option<W3CTraceContext>,
)
    requires
        call_ensures(XRayTraceHeader::to_header_string, (&h,), text),
        header@ == text@,
        call_ensures(XRayTraceHeader::parse, (header,), parsed),
        call_ensures(XRayTraceHeader::to_w3c, (&h,), w),
        clean(h@.root),
        h@.parent is Some ==> clean(h@.parent->0),
    ensures
        parsed is Some,
        parsed->0@ == h@,
        w is Some ==> Some(w->0@.span_id) == h@.parent && w->0@.sampled == (h@.sampled == Some(
            true,
        )) && w->0@.trace_id.len() == 32,
        w is None <==> w3c_context(h@) is None,
{
    law_parse_brings_back_the_header(h@);
    if w is Some {
        law_w3c_ids_are_valid(h@);
    }
}

/// A trace context is written as its traceparent, and its IDs are told in bytes.
pub proof fn law_a_trace_context_is_written(
    w: W3CTraceContext,
    s: String,
    trace_id: Option<[u8; 16]>,
    span_id: Option<[u8; 8]>,
)
    requires
        call_ensures(W3CTraceContext::to_traceparent, (&w,), s),
        call_ensures(W3CTraceContext::trace_id_bytes, (&w,), trace_id),
        call_ensures(W3CTraceContext::span_id_bytes, (&w,), span_id),
        text::all_hex(w@.trace_id),
        text::all_hex(w@.span_id),
    ensures
        w@.sampled ==> s@ == "00-"@ + w@.trace_id + "-"@ + w@.span_id + "-01"@,
        !w@.sampled ==> s@ == "00-"@ + w@.trace_id + "-"@ + w@.span_id + "-00"@,
        trace_id is Some <==> w@.trace_id.len() == 32,
        span_id is Some <==> w@.span_id.len() == 16,
        trace_id is Some ==> hex_text(trace_id->0@) == text::ascii_lower_all(w@.trace_id),
        span_id is Some ==> hex_text(span_id->0@) == text::ascii_lower_all(w@.span_id),
{
    law_a_traceparent_is_made_of_its_ids(w@.trace_id, w@.span_id, w@.sampled);
    law_an_id_has_two_digits_for_each_byte(w@.trace_id, 16);
    law_an_id_has_two_digits_for_each_byte(w@.span_id, 8);
    if trace_id is Some {
        law_id_bytes_bring_back_the_id(w@.trace_id, 16);
    }
    if span_id is Some {
        law_id_bytes_bring_back_the_id(w@.span_id, 8);
    }
}

} // verus!
