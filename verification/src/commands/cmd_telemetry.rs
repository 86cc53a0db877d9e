//! `wally telemetry emit|blast`: telemetry through the real control-plane
//! pipeline, without a model.
//!
//! The engine batches and posts the events. What is decided here: which events
//! are tracked, how each response of the backend is accounted for, and when a
//! run has failed: when a POST failed or a tracked event never arrived.

use crate::cli;
use crate::cli::{Action, App, Command, CommandView, Opt, Validator, ValidatorView, ValueType};
use crate::engine;
use crate::output;
use crate::output::{JsonWriter, Printed, Report, ReportView, Table};
use crate::text;
use vstd::prelude::*;

verus! {

/// A modality of the telemetry pipeline, with a terminal event and the identity
/// that probes carry.
#[derive(Clone, Copy, Debug)]
pub struct ModalitySpec {
    pub name: &'static str,
    pub default_event_type: &'static str,
    pub probe_model_id: &'static str,
    pub probe_framework: &'static str,
}

/// A modality as a value.
pub type ModalityView = (Seq<char>, Seq<char>, Seq<char>, Seq<char>);

impl View for ModalitySpec {
    type V = ModalityView;

    open spec fn view(&self) -> ModalityView {
        (self.name@, self.default_event_type@, self.probe_model_id@, self.probe_framework@)
    }
}

/// The modalities that the pipeline has an endpoint for.
pub open spec fn modality_table() -> Seq<ModalityView> {
    seq![
        ("llm"@, "llm.generation.completed"@, "probe-llm-qwen2.5-0.5b"@, "llamacpp"@),
        ("stt"@, "stt.transcription.completed"@, "probe-stt-whisper-tiny"@, "sherpa"@),
        ("tts"@, "tts.synthesis.completed"@, "probe-tts-piper"@, "sherpa"@),
        ("vlm"@, "vlm.process.completed"@, "probe-vlm-llava-1.5"@, "llamacpp"@),
        ("rag"@, "rag.query.completed"@, "probe-rag-minilm"@, "llamacpp"@),
        ("imagegen"@, "imagegen.generate.completed"@, "probe-imagegen-sd-turbo"@, "coreml"@),
        ("embeddings"@, "embeddings.embed.completed"@, "probe-embed-minilm"@, "onnx"@),
        ("vad"@, "vad.stopped"@, "probe-vad-silero"@, "onnx"@),
        ("voice"@, "voice.turn.metrics"@, "probe-voice-pipeline"@, "llamacpp"@),
        ("lora"@, "lora.attach.completed"@, "probe-lora-base"@, "llamacpp"@),
        ("model"@, "model.download.completed"@, "probe-model-qwen2.5-0.5b"@, "llamacpp"@),
        ("system"@, "sdk.init.completed"@, "probe-sdk-system"@, "llamacpp"@),
    ]
}

pub open spec fn specs_view(specs: Seq<ModalitySpec>) -> Seq<ModalityView> {
    Seq::new(specs.len(), |i: int| specs[i]@)
}

fn spec_of(
    name: &'static str,
    default_event_type: &'static str,
    probe_model_id: &'static str,
    probe_framework: &'static str,
) -> (r: ModalitySpec)
    ensures
        r@ == (name@, default_event_type@, probe_model_id@, probe_framework@),
{
    ModalitySpec { name, default_event_type, probe_model_id, probe_framework }
}

/// See [`modality_table`].
pub fn modalities() -> (r: Vec<ModalitySpec>)
    ensures
        specs_view(r@) == modality_table(),
        r@.len() == 12,
{
    let r = vec![
        spec_of("llm", "llm.generation.completed", "probe-llm-qwen2.5-0.5b", "llamacpp"),
        spec_of("stt", "stt.transcription.completed", "probe-stt-whisper-tiny", "sherpa"),
        spec_of("tts", "tts.synthesis.completed", "probe-tts-piper", "sherpa"),
        spec_of("vlm", "vlm.process.completed", "probe-vlm-llava-1.5", "llamacpp"),
        spec_of("rag", "rag.query.completed", "probe-rag-minilm", "llamacpp"),
        spec_of("imagegen", "imagegen.generate.completed", "probe-imagegen-sd-turbo", "coreml"),
        spec_of("embeddings", "embeddings.embed.completed", "probe-embed-minilm", "onnx"),
        spec_of("vad", "vad.stopped", "probe-vad-silero", "onnx"),
        spec_of("voice", "voice.turn.metrics", "probe-voice-pipeline", "llamacpp"),
        spec_of("lora", "lora.attach.completed", "probe-lora-base", "llamacpp"),
        spec_of("model", "model.download.completed", "probe-model-qwen2.5-0.5b", "llamacpp"),
        spec_of("system", "sdk.init.completed", "probe-sdk-system", "llamacpp"),
    ];
    assert(specs_view(r@) =~= modality_table());
    r
}

/// The first modality of that name.
pub open spec fn named_modality(table: Seq<ModalityView>, name: Seq<char>) -> Option<ModalityView>
    decreases table.len(),
{
    if table.len() == 0 {
        None
    } else if table[0].0 == name {
        Some(table[0])
    } else {
        named_modality(table.skip(1), name)
    }
}

/// The modality of that name, if there is one.
pub fn find_modality(name: &str) -> (r: Option<ModalitySpec>)
    ensures
        match named_modality(modality_table(), name@) {
            Some(m) => r is Some && r->0@ == m,
            None => r is None,
        },
{
    let all = modalities();
    let ghost table = specs_view(all@);
    let mut i: usize = 0;
    assert(table.skip(0) =~= table);
    while i < all.len()
        invariant
            i <= all@.len(),
            table == specs_view(all@),
            table == modality_table(),
            named_modality(table, name@) == named_modality(table.skip(i as int), name@),
        decreases all@.len() - i,
    {
        assert(table.skip(i as int)[0] == all@[i as int]@);
        if text::str_eq(all[i].name, name) {
            return Some(all[i]);
        }
        assert(table.skip(i as int).skip(1) =~= table.skip(i + 1));
        i = i + 1;
    }
    None
}

/// The names of the modalities, in order.
pub fn modality_names() -> (r: Vec<String>)
    ensures
        output::strings_view(r@) == Seq::new(modality_table().len(), |i: int| modality_table()[i].0),
{
    let all = modalities();
    let mut r: Vec<String> = Vec::new();
    let mut i: usize = 0;
    while i < all.len()
        invariant
            i <= all@.len(),
            specs_view(all@) == modality_table(),
            r@.len() == i,
            forall|k: int| 0 <= k < i ==> (#[trigger] r@[k])@ == modality_table()[k].0,
        decreases all@.len() - i,
    {
        assert(specs_view(all@)[i as int] == all@[i as int]@);
        r.push(text::owned(all[i].name));
        i = i + 1;
    }
    assert(output::strings_view(r@) =~= Seq::new(modality_table().len(), |i: int| modality_table()[i].0));
    r
}

/// The hexadecimal digit of `n`, in lower case.
pub open spec fn hex_digit(n: int) -> char {
    if n < 10 {
        ('0' as int + n) as char
    } else {
        ('a' as int + (n - 10)) as char
    }
}

pub open spec fn hex_byte(b: u8) -> Seq<char> {
    seq![hex_digit(b as int / 16), hex_digit(b as int % 16)]
}

/// The hexadecimal digits of `bytes[from..to]`.
pub open spec fn hex_bytes(bytes: Seq<u8>, from: int, to: int) -> Seq<char>
    decreases to - from,
{
    if from >= to {
        Seq::empty()
    } else {
        hex_bytes(bytes, from, to - 1) + hex_byte(bytes[to - 1])
    }
}

/// Sixteen bytes with the marks of a random UUID: version 4 and the RFC 4122
/// variant.
pub open spec fn uuid_bytes(bytes: Seq<u8>) -> Seq<u8> {
    bytes.update(6, (64 + bytes[6] % 16) as u8).update(8, (128 + bytes[8] % 64) as u8)
}

/// The text of a random UUID made of sixteen bytes.
pub open spec fn uuid_text(bytes: Seq<u8>) -> Seq<char> {
    let b = uuid_bytes(bytes);
    hex_bytes(b, 0, 4) + "-"@ + hex_bytes(b, 4, 6) + "-"@ + hex_bytes(b, 6, 8) + "-"@ + hex_bytes(b, 8, 10) + "-"@
        + hex_bytes(b, 10, 16)
}

fn hex_digit_exec(n: u8) -> (c: char)
    requires
        n < 16,
    ensures
        c == hex_digit(n as int),
{
    if n < 10 {
        (48u8 + n) as char
    } else {
        (87u8 + n) as char
    }
}

fn hex_bytes_exec(bytes: &Vec<u8>, from: usize, to: usize) -> (r: String)
    requires
        from <= to <= bytes@.len(),
    ensures
        r@ == hex_bytes(bytes@, from as int, to as int),
{
    let mut r = String::new();
    let mut i: usize = from;
    while i < to
        invariant
            from <= i <= to <= bytes@.len(),
            r@ == hex_bytes(bytes@, from as int, i as int),
        decreases to - i,
    {
        r.push(hex_digit_exec(bytes[i] / 16));
        r.push(hex_digit_exec(bytes[i] % 16));
        i = i + 1;
        assert(r@ =~= hex_bytes(bytes@, from as int, i as int));
    }
    r
}

/// The random UUID that sixteen bytes make.
pub fn uuid_from_bytes(bytes: &[u8]) -> (r: String)
    requires
        bytes@.len() == 16,
    ensures
        r@ == uuid_text(bytes@),
{
    let mut b: Vec<u8> = Vec::new();
    let mut i: usize = 0;
    while i < 16
        invariant
            i <= 16,
            bytes@.len() == 16,
            b@ == bytes@.take(i as int),
        decreases 16 - i,
    {
        b.push(bytes[i]);
        i = i + 1;
        assert(b@ =~= bytes@.take(i as int));
    }
    assert(b@ =~= bytes@);
    let version: u8 = 64 + b[6] % 16;
    let variant: u8 = 128 + b[8] % 64;
    b.set(6, version);
    b.set(8, variant);
    assert(b@ =~= uuid_bytes(bytes@));
    let mut r = hex_bytes_exec(&b, 0, 4);
    r.append("-");
    r.append(hex_bytes_exec(&b, 4, 6).as_str());
    r.append("-");
    r.append(hex_bytes_exec(&b, 6, 8).as_str());
    r.append("-");
    r.append(hex_bytes_exec(&b, 8, 10).as_str());
    r.append("-");
    r.append(hex_bytes_exec(&b, 10, 16).as_str());
    r
}

/// Sixteen bytes from `getrandom::fill`, the system's source of randomness.
/// Nothing is known of them; when the source fails they are whatever the buffer
/// then holds.
#[verifier::external_body]
fn random_bytes() -> (r: [u8; 16])
{
    let mut bytes = [0u8; 16];
    let _ = getrandom::fill(&mut bytes);
    bytes
}

/// A fresh random UUID.
pub fn uuid4() -> (r: String)
    ensures
        exists|bytes: Seq<u8>| bytes.len() == 16 && r@ == #[trigger] uuid_text(bytes),
{
    let bytes = random_bytes();
    uuid_from_bytes(&bytes)
}

proof fn hex_bytes_len(bytes: Seq<u8>, from: int, to: int)
    requires
        from <= to,
    ensures
        hex_bytes(bytes, from, to).len() == 2 * (to - from),
    decreases to - from,
{
    if from < to {
        hex_bytes_len(bytes, from, to - 1);
    }
}

/// Every random UUID has 36 characters, dashes at the four standard places, and
/// says that it is of version 4.
pub proof fn a_uuid_is_of_version_four(bytes: Seq<u8>)
    requires
        bytes.len() == 16,
    ensures
        uuid_text(bytes).len() == 36,
        uuid_text(bytes)[8] == '-',
        uuid_text(bytes)[13] == '-',
        uuid_text(bytes)[18] == '-',
        uuid_text(bytes)[23] == '-',
        uuid_text(bytes)[14] == '4',
        uuid_text(bytes)[19] == '8' || uuid_text(bytes)[19] == '9' || uuid_text(bytes)[19] == 'a' || uuid_text(
            bytes,
        )[19] == 'b',
{
    let b = uuid_bytes(bytes);
    reveal_strlit("-");
    hex_bytes_len(b, 0, 4);
    hex_bytes_len(b, 4, 6);
    hex_bytes_len(b, 6, 8);
    hex_bytes_len(b, 8, 10);
    hex_bytes_len(b, 10, 16);
    hex_bytes_len(b, 6, 7);
    hex_bytes_len(b, 8, 9);
    hex_bytes_len(b, 6, 6);
    hex_bytes_len(b, 8, 8);
    assert(hex_bytes(b, 6, 7) =~= hex_byte(b[6]));
    assert(hex_bytes(b, 8, 9) =~= hex_byte(b[8]));
    assert(hex_bytes(b, 6, 8)[0] == hex_digit(b[6] as int / 16));
    assert(hex_bytes(b, 8, 10)[0] == hex_digit(b[8] as int / 16));
    let t = uuid_text(bytes);
    assert(t[14] == hex_bytes(b, 6, 8)[0]);
    assert(t[19] == hex_bytes(b, 8, 10)[0]);
}

/// The blanks of C's `isspace` in the "C" locale: the vertical tab is one.
pub open spec fn is_c_space(b: u8) -> bool {
    b == 0x20 || (0x09 <= b && b <= 0x0D)
}

/// See [`is_c_space`].
pub fn is_c_isspace(byte: u8) -> (r: bool)
    ensures
        r == is_c_space(byte),
{
    byte == 0x20 || byte == 0x09 || byte == 0x0A || byte == 0x0B || byte == 0x0C || byte == 0x0D
}

/// The first place from `at` on where `needle` stands in `hay`.
pub open spec fn first_match(hay: Seq<u8>, needle: Seq<u8>, at: int) -> Option<int>
    decreases hay.len() + 1 - at,
{
    if at + needle.len() > hay.len() {
        None
    } else if hay.subrange(at, at + needle.len()) == needle {
        Some(at)
    } else {
        first_match(hay, needle, at + 1)
    }
}

/// The first place from `i` on that holds no blank.
pub open spec fn past_blanks(json: Seq<u8>, i: int) -> int
    decreases json.len() - i,
{
    if i < json.len() && is_c_space(json[i]) {
        past_blanks(json, i + 1)
    } else {
        i
    }
}

/// The bytes of a key as it stands before its value: quoted, with a colon.
pub open spec fn key_bytes(key: Seq<char>) -> Seq<u8> {
    vstd::utf8::encode_utf8("\""@ + key + "\":"@)
}

/// Where the value of the first such key starts.
pub open spec fn value_offset(json: Seq<u8>, key: Seq<char>) -> Option<int> {
    match first_match(json, key_bytes(key), 0) {
        Some(at) => Some(past_blanks(json, at + key_bytes(key).len())),
        None => None,
    }
}

fn matches_at(hay: &[u8], needle: &[u8], at: usize) -> (r: bool)
    requires
        at + needle@.len() <= hay@.len(),
    ensures
        r == (hay@.subrange(at as int, at + needle@.len()) == needle@),
{
    let mut i: usize = 0;
    let total: usize = hay.len();
    while i < needle.len()
        invariant
            i <= needle@.len(),
            at + needle@.len() <= hay@.len(),
            hay@.len() == total,
            forall|k: int| 0 <= k < i ==> hay@[at + k] == needle@[k],
        decreases needle@.len() - i,
    {
        if hay[at + i] != needle[i] {
            assert(hay@.subrange(at as int, at + needle@.len())[i as int] != needle@[i as int]);
            return false;
        }
        i = i + 1;
    }
    assert(hay@.subrange(at as int, at + needle@.len()) =~= needle@);
    true
}

/// Where the value of a key starts in a JSON text: after the first `"key":` and
/// the blanks behind it.
pub fn value_offset_after_key(json: &[u8], key: &str) -> (r: Option<usize>)
    ensures
        match value_offset(json@, key@) {
            Some(at) => r is Some && r->0 == at && 0 <= at <= json@.len(),
            None => r is None,
        },
{
    let quoted = text::cat3("\"", key, "\":");
    let needle = quoted.as_str().as_bytes();
    assert(needle@ =~= key_bytes(key@));
    if needle.len() > json.len() {
        return None;
    }
    let total: usize = json.len();
    let last: usize = total - needle.len();
    let mut at: usize = 0;
    loop
        invariant
            at <= last,
            total == json@.len(),
            last + needle@.len() == total,
            needle@ == key_bytes(key@),
            first_match(json@, needle@, 0) == first_match(json@, needle@, at as int),
        decreases last - at,
    {
        if matches_at(json, needle, at) {
            let mut i: usize = at + needle.len();
            while i < json.len() && is_c_isspace(json[i])
                invariant
                    at + needle@.len() <= i <= json@.len(),
                    past_blanks(json@, at + needle@.len()) == past_blanks(json@, i as int),
                decreases json@.len() - i,
            {
                i = i + 1;
            }
            return Some(i);
        }
        if at == last {
            assert(first_match(json@, needle@, at + 1) is None);
            return None;
        }
        at = at + 1;
    }
}

/// The blanks that a number may start behind; the vertical tab is none.
pub open spec fn is_ascii_blank(b: u8) -> bool {
    b == 0x20 || b == 0x09 || b == 0x0A || b == 0x0C || b == 0x0D
}

pub open spec fn is_ascii_digit(b: u8) -> bool {
    0x30 <= b && b <= 0x39
}

pub open spec fn past_ascii_blanks(bytes: Seq<u8>, i: int) -> int
    decreases bytes.len() - i,
{
    if i < bytes.len() && is_ascii_blank(bytes[i]) {
        past_ascii_blanks(bytes, i + 1)
    } else {
        i
    }
}

/// The number that `value` and the digits from `i` on write.
pub open spec fn digits_value(bytes: Seq<u8>, i: int, value: int) -> int
    decreases bytes.len() - i,
{
    if i < bytes.len() && is_ascii_digit(bytes[i]) {
        digits_value(bytes, i + 1, value * 10 + (bytes[i] - 0x30))
    } else {
        value
    }
}

pub open spec fn clamp_i32(n: int) -> int {
    if n < i32::MIN {
        i32::MIN as int
    } else if n > i32::MAX {
        i32::MAX as int
    } else {
        n
    }
}

/// The number at `at`: blanks, an optional sign, then digits up to the first
/// other byte, held within the range of an `i32`.
pub open spec fn int_at(bytes: Seq<u8>, at: int) -> int {
    let i = past_ascii_blanks(bytes, at);
    let negative = i < bytes.len() && bytes[i] == 0x2D;
    let signed = i < bytes.len() && (bytes[i] == 0x2B || bytes[i] == 0x2D);
    let n = digits_value(bytes, if signed { i + 1 } else { i }, 0);
    clamp_i32(if negative { -n } else { n })
}

proof fn digits_value_grows(bytes: Seq<u8>, i: int, value: int)
    requires
        0 <= value,
    ensures
        digits_value(bytes, i, value) >= value,
    decreases bytes.len() - i,
{
    if i < bytes.len() && is_ascii_digit(bytes[i]) {
        digits_value_grows(bytes, i + 1, value * 10 + (bytes[i] - 0x30));
    }
}

/// A number as C's `atoi` reads it at `at`.
pub fn atoi(bytes: &[u8], at: usize) -> (r: i32)
    requires
        at <= bytes@.len(),
    ensures
        r == int_at(bytes@, at as int),
{
    let mut i: usize = at;
    while i < bytes.len() && (bytes[i] == 0x20 || bytes[i] == 0x09 || bytes[i] == 0x0A || bytes[i] == 0x0C || bytes[i]
        == 0x0D)
        invariant
            at <= i <= bytes@.len(),
            past_ascii_blanks(bytes@, at as int) == past_ascii_blanks(bytes@, i as int),
        decreases bytes@.len() - i,
    {
        i = i + 1;
    }
    let negative = i < bytes.len() && bytes[i] == 0x2D;
    if i < bytes.len() && (bytes[i] == 0x2B || bytes[i] == 0x2D) {
        i = i + 1;
    }
    let ghost start = i as int;
    let mut value: i64 = 0;
    while i < bytes.len() && 0x30 <= bytes[i] && bytes[i] <= 0x39
        invariant
            i <= bytes@.len(),
            0 <= value <= 0x8000_0000,
            digits_value(bytes@, start, 0) == digits_value(bytes@, i as int, value as int) || (value == 0x8000_0000
                && digits_value(bytes@, start, 0) >= 0x8000_0000),
        decreases bytes@.len() - i,
    {
        let next: i64 = value * 10 + (bytes[i] - 0x30) as i64;
        proof {
            digits_value_grows(bytes@, i + 1, next as int);
        }
        value = if next > 0x8000_0000 { 0x8000_0000 } else { next };
        i = i + 1;
    }
    proof {
        digits_value_grows(bytes@, i as int, value as int);
    }
    let signed: i64 = if negative { -value } else { value };
    if signed > 0x7FFF_FFFF {
        i32::MAX
    } else {
        signed as i32
    }
}

/// The number under a key, or -1 where the key is missing.
pub open spec fn int_field(json: Seq<char>, key: Seq<char>) -> int {
    let bytes = vstd::utf8::encode_utf8(json);
    match value_offset(bytes, key) {
        Some(at) => int_at(bytes, at),
        None => -1,
    }
}

/// Whether the value under a key starts with `true`.
pub open spec fn bool_field(json: Seq<char>, key: Seq<char>) -> bool {
    let bytes = vstd::utf8::encode_utf8(json);
    match value_offset(bytes, key) {
        Some(at) => at + 4 <= bytes.len() && bytes[at] == 0x74 && bytes[at + 1] == 0x72 && bytes[at + 2] == 0x75
            && bytes[at + 3] == 0x65,
        None => false,
    }
}

/// See [`int_field`].
pub fn extract_int_field(json: &str, key: &str) -> (r: i32)
    ensures
        r == int_field(json@, key@),
{
    let bytes = json.as_bytes();
    match value_offset_after_key(bytes, key) {
        Some(at) => atoi(bytes, at),
        None => -1,
    }
}

/// See [`bool_field`].
pub fn extract_bool_field(json: &str, key: &str) -> (r: bool)
    ensures
        r == bool_field(json@, key@),
{
    let bytes = json.as_bytes();
    match value_offset_after_key(bytes, key) {
        Some(at) => bytes.len() - at >= 4 && bytes[at] == 0x74 && bytes[at + 1] == 0x72 && bytes[at + 2] == 0x75
            && bytes[at + 3] == 0x65,
        None => false,
    }
}

/// The accounting of one endpoint.
#[derive(Clone, Debug)]
pub struct EndpointStats {
    pub posts: i32,
    pub failures: i32,
    pub last_status: i32,
    pub received: i32,
    pub stored: i32,
    pub skipped: i32,
    pub last_error: String,
}

impl Default for EndpointStats {
    fn default() -> (r: EndpointStats)
        ensures
            r.posts == 0,
            r.failures == 0,
            r.last_status == 0,
            r.received == 0,
            r.stored == 0,
            r.skipped == 0,
            r.last_error@.len() == 0,
    {
        EndpointStats {
            posts: 0,
            failures: 0,
            last_status: 0,
            received: 0,
            stored: 0,
            skipped: 0,
            last_error: String::new(),
        }
    }
}

/// One exchange with the control plane: whether it went through, the status, a
/// description for when it did not, and the body of the response.
#[derive(Clone, Debug)]
pub struct HttpResult {
    pub ok: bool,
    pub status: i32,
    pub described: String,
    pub body: String,
}

/// A sum of counters, held at the largest count.
pub open spec fn counted(a: i32, b: int) -> int {
    clamp_i32(
        a + if b > 0 {
            b
        } else {
            0
        },
    )
}

fn count_up(a: i32, b: i32) -> (r: i32)
    ensures
        r == counted(a, b as int),
{
    let more: i32 = if b > 0 { b } else { 0 };
    let sum: i64 = a as i64 + more as i64;
    if sum > 0x7FFF_FFFF {
        i32::MAX
    } else {
        sum as i32
    }
}

/// How one exchange changes the accounting. What the backend took is read from
/// the body of the response, and a response that reports no success is a
/// failure.
pub open spec fn is_recorded(before: EndpointStats, result: HttpResult, after: EndpointStats) -> bool {
    let success = bool_field(result.body@, "success"@);
    &&& after.posts == counted(before.posts, 1)
    &&& after.last_status == result.status
    &&& after.failures == if result.ok && success {
        before.failures as int
    } else {
        counted(before.failures, 1)
    }
    &&& after.last_error@ == if !result.ok {
        result.described@
    } else if !success {
        "backend reported success=false: "@ + result.body@
    } else {
        before.last_error@
    }
    &&& after.received == if result.ok {
        counted(before.received, int_field(result.body@, "events_received"@))
    } else {
        before.received as int
    }
    &&& after.stored == if result.ok {
        counted(before.stored, int_field(result.body@, "events_stored"@))
    } else {
        before.stored as int
    }
    &&& after.skipped == if result.ok {
        counted(before.skipped, int_field(result.body@, "events_skipped"@))
    } else {
        before.skipped as int
    }
}

/// Accounts for one exchange; see [`is_recorded`].
pub fn record_http_result(stats: &mut EndpointStats, result: &HttpResult)
    ensures
        is_recorded(*old(stats), *result, *final(stats)),
{
    stats.posts = count_up(stats.posts, 1);
    stats.last_status = result.status;
    if !result.ok {
        stats.failures = count_up(stats.failures, 1);
        stats.last_error = text::owned(result.described.as_str());
        return;
    }
    if !extract_bool_field(result.body.as_str(), "success") {
        stats.failures = count_up(stats.failures, 1);
        stats.last_error = text::cat2("backend reported success=false: ", result.body.as_str());
    }
    stats.received = count_up(stats.received, extract_int_field(result.body.as_str(), "events_received"));
    stats.stored = count_up(stats.stored, extract_int_field(result.body.as_str(), "events_stored"));
    stats.skipped = count_up(stats.skipped, extract_int_field(result.body.as_str(), "events_skipped"));
}

/// An endpoint and its accounting.
#[derive(Clone, Debug)]
pub struct Endpoint {
    pub path: String,
    pub stats: EndpointStats,
}

/// The accounting of a session, by endpoint in the order of their paths.
#[derive(Clone, Debug)]
pub struct TelemetryHttpContext {
    pub endpoints: Vec<Endpoint>,
}

/// Whether every path comes before the ones behind it.
pub open spec fn paths_ordered(endpoints: Seq<Endpoint>) -> bool {
    forall|a: int, b: int|
        0 <= a < b < endpoints.len() ==> text::text_less(
            (#[trigger] endpoints[a]).path@,
            (#[trigger] endpoints[b]).path@,
        )
}

/// Accounting before the first exchange.
pub open spec fn is_fresh(stats: EndpointStats) -> bool {
    stats.posts == 0 && stats.failures == 0 && stats.last_status == 0 && stats.received == 0 && stats.stored == 0
        && stats.skipped == 0 && stats.last_error@.len() == 0
}

impl TelemetryHttpContext {
    pub open spec fn wf(self) -> bool {
        paths_ordered(self.endpoints@)
    }

    pub fn new() -> (r: TelemetryHttpContext)
        ensures
            r.wf(),
            r.endpoints@.len() == 0,
    {
        TelemetryHttpContext { endpoints: Vec::new() }
    }

    /// The first endpoint whose path does not come before `path`.
    fn slot(&self, path: &str) -> (i: usize)
        requires
            self.wf(),
        ensures
            i <= self.endpoints@.len(),
            forall|k: int| 0 <= k < i ==> text::text_less((#[trigger] self.endpoints@[k]).path@, path@),
            i < self.endpoints@.len() ==> !text::text_less(self.endpoints@[i as int].path@, path@),
    {
        let mut i: usize = 0;
        while i < self.endpoints.len()
            invariant
                i <= self.endpoints@.len(),
                forall|k: int| 0 <= k < i ==> text::text_less((#[trigger] self.endpoints@[k]).path@, path@),
            decreases self.endpoints@.len() - i,
        {
            if !text::text_less_exec(self.endpoints[i].path.as_str(), path) {
                return i;
            }
            i = i + 1;
        }
        i
    }

    /// Accounts for one exchange with an endpoint: its entry changes, or appears
    /// in its place, and all the others stay as they are.
    pub fn record(&mut self, path: &str, result: &HttpResult)
        requires
            old(self).wf(),
        ensures
            final(self).wf(),
            exists|i: int|
                0 <= i < final(self).endpoints@.len() && #[trigger] final(self).endpoints@[i].path@ == path@ && ({
                    let before = old(self).endpoints@;
                    let after = final(self).endpoints@;
                    ||| i < before.len() && before[i].path@ == path@ && is_recorded(
                        before[i].stats,
                        *result,
                        after[i].stats,
                    ) && after == before.update(i, after[i])
                    ||| (forall|k: int| 0 <= k < before.len() ==> (#[trigger] before[k]).path@ != path@)
                        && after == before.insert(i, after[i]) && exists|fresh: EndpointStats|
                        is_fresh(fresh) && #[trigger] is_recorded(fresh, *result, after[i].stats)
                }),
    {
        let i: usize = self.slot(path);
        let ghost before = self.endpoints@;
        if i < self.endpoints.len() && text::str_eq(self.endpoints[i].path.as_str(), path) {
            let mut entry = self.endpoints.remove(i);
            record_http_result(&mut entry.stats, result);
            self.endpoints.insert(i, entry);
            assert(self.endpoints@ =~= before.update(i as int, self.endpoints@[i as int]));
            assert(self.endpoints@[i as int].path@ == path@);
            return;
        }
        let mut stats = EndpointStats::default();
        let ghost fresh = stats;
        record_http_result(&mut stats, result);
        let entry = Endpoint { path: text::owned(path), stats };
        self.endpoints.insert(i, entry);
        proof {
            let after = self.endpoints@;
            assert(is_fresh(fresh) && is_recorded(fresh, *result, after[i as int].stats));
            assert(after =~= before.insert(i as int, after[i as int]));
            if i < before.len() {
                text::text_less_total(before[i as int].path@, path@);
            }
            assert forall|k: int| i <= k < before.len() implies text::text_less(path@, (#[trigger] before[k]).path@) by {
                if k > i {
                    text::text_less_transitive(path@, before[i as int].path@, before[k].path@);
                }
            }
            assert forall|k: int| 0 <= k < before.len() implies (#[trigger] before[k]).path@ != path@ by {
                text::text_less_total(before[k].path@, path@);
            }
            assert forall|a: int, b: int| 0 <= a < b < after.len() implies text::text_less(
                (#[trigger] after[a]).path@,
                (#[trigger] after[b]).path@,
            ) by {
                let x = if a < i {
                    a
                } else {
                    a - 1
                };
                let y = if b < i {
                    b
                } else {
                    b - 1
                };
                if a != i && b != i {
                    assert(after[a] == before[x] && after[b] == before[y]);
                } else if a == i {
                    assert(after[b] == before[b - 1]);
                } else {
                    assert(after[a] == before[a]);
                }
            }
            assert(after[i as int].path@ == path@);
        }
    }

    /// The accounting of an endpoint, if anything was posted to it.
    pub fn find(&self, path: &str) -> (r: Option<&EndpointStats>)
        requires
            self.wf(),
        ensures
            match r {
                Some(stats) => exists|i: int|
                    0 <= i < self.endpoints@.len() && (#[trigger] self.endpoints@[i]).path@ == path@ && *stats
                        == self.endpoints@[i].stats,
                None => forall|i: int| 0 <= i < self.endpoints@.len() ==> (#[trigger] self.endpoints@[i]).path@ != path@,
            },
            match r {
                Some(stats) => stats_of(self.endpoints@, path@) == Some(*stats),
                None => stats_of(self.endpoints@, path@) is None,
            },
    {
        let mut i: usize = 0;
        assert(self.endpoints@.skip(0) =~= self.endpoints@);
        while i < self.endpoints.len()
            invariant
                i <= self.endpoints@.len(),
                forall|k: int| 0 <= k < i ==> (#[trigger] self.endpoints@[k]).path@ != path@,
                stats_of(self.endpoints@, path@) == stats_of(self.endpoints@.skip(i as int), path@),
            decreases self.endpoints@.len() - i,
        {
            assert(self.endpoints@.skip(i as int)[0] == self.endpoints@[i as int]);
            if text::str_eq(self.endpoints[i].path.as_str(), path) {
                return Some(&self.endpoints[i].stats);
            }
            assert(self.endpoints@.skip(i as int).skip(1) =~= self.endpoints@.skip(i + 1));
            i = i + 1;
        }
        None
    }
}

/// The accounting of the first endpoint with that path.
pub open spec fn stats_of(endpoints: Seq<Endpoint>, path: Seq<char>) -> Option<EndpointStats>
    decreases endpoints.len(),
{
    if endpoints.len() == 0 {
        None
    } else if endpoints[0].path@ == path {
        Some(endpoints[0].stats)
    } else {
        stats_of(endpoints.skip(1), path)
    }
}

/// What a session did: the accounting and how many events it tracked.
#[derive(Clone, Debug)]
pub struct FlushReport {
    pub context: TelemetryHttpContext,
    pub events: i32,
}

/// How many events the first `n` endpoints took.
pub open spec fn received_total(endpoints: Seq<Endpoint>, n: int) -> int
    decreases n,
{
    if n <= 0 {
        0
    } else {
        received_total(endpoints, n - 1) + endpoints[n - 1].stats.received
    }
}

/// How many events the backend took in all.
pub fn total_received(report: &FlushReport) -> (r: i128)
    ensures
        r == received_total(report.context.endpoints@, report.context.endpoints@.len() as int),
{
    let mut sum: i128 = 0;
    let mut i: usize = 0;
    while i < report.context.endpoints.len()
        invariant
            i <= report.context.endpoints@.len(),
            sum == received_total(report.context.endpoints@, i as int),
            -0x8000_0000 * i <= sum <= 0x8000_0000 * i,
        decreases report.context.endpoints@.len() - i,
    {
        sum = sum + report.context.endpoints[i].stats.received as i128;
        i = i + 1;
    }
    sum
}

/// Whether a run failed: nothing was posted, a POST failed, or a tracked event
/// never arrived.
pub open spec fn has_failed(report: FlushReport) -> bool {
    let all = report.context.endpoints@;
    all.len() == 0 || (exists|i: int| 0 <= i < all.len() && (#[trigger] all[i]).stats.failures > 0) || received_total(
        all,
        all.len() as int,
    ) != report.events
}

/// See [`has_failed`].
pub fn report_failed(report: &FlushReport) -> (r: bool)
    ensures
        r == has_failed(*report),
{
    if report.context.endpoints.len() == 0 {
        return true;
    }
    let mut i: usize = 0;
    while i < report.context.endpoints.len()
        invariant
            i <= report.context.endpoints@.len(),
            forall|k: int| 0 <= k < i ==> (#[trigger] report.context.endpoints@[k]).stats.failures <= 0,
        decreases report.context.endpoints@.len() - i,
    {
        if report.context.endpoints[i].stats.failures > 0 {
            return true;
        }
        i = i + 1;
    }
    total_received(report) != report.events as i128
}

/// The writes for one endpoint.
pub open spec fn endpoint_json(e: Endpoint) -> Seq<output::JsonOpView> {
    seq![
        output::begin_array_object(),
        output::field_str("endpoint"@, e.path@),
        output::field_i64("posts"@, e.stats.posts as int),
        output::field_i64("http_status"@, e.stats.last_status as int),
        output::field_i64("events_received"@, e.stats.received as int),
        output::field_i64("events_stored"@, e.stats.stored as int),
        output::field_i64("events_skipped"@, e.stats.skipped as int),
    ] + (if e.stats.last_error@.len() > 0 {
        seq![output::field_str("error"@, e.stats.last_error@)]
    } else {
        Seq::empty()
    }) + seq![output::end_object()]
}

pub open spec fn endpoints_json(all: Seq<Endpoint>, n: int) -> Seq<output::JsonOpView>
    decreases n,
{
    if n <= 0 {
        Seq::empty()
    } else {
        endpoints_json(all, n - 1) + endpoint_json(all[n - 1])
    }
}

fn put_endpoint(json: &mut JsonWriter, e: &Endpoint)
    ensures
        final(json)@ == old(json)@ + endpoint_json(*e),
{
    json.begin_array_object();
    json.field_str("endpoint", e.path.as_str());
    json.field_i64("posts", e.stats.posts as i64);
    json.field_i64("http_status", e.stats.last_status as i64);
    json.field_i64("events_received", e.stats.received as i64);
    json.field_i64("events_stored", e.stats.stored as i64);
    json.field_i64("events_skipped", e.stats.skipped as i64);
    if !e.stats.last_error.as_str().is_empty() {
        json.field_str("error", e.stats.last_error.as_str());
    }
    json.end_object();
    assert(json@ =~= old(json)@ + endpoint_json(*e));
}

/// The writes for the results of a session.
pub open spec fn results_json(report: FlushReport) -> Seq<output::JsonOpView> {
    seq![
        output::begin_object(),
        output::field_i64("tracked"@, report.events as int),
        output::field_bool("success"@, !has_failed(report)),
        output::begin_array("endpoints"@),
    ] + endpoints_json(report.context.endpoints@, report.context.endpoints@.len() as int) + seq![
        output::end_array(),
        output::end_object(),
    ]
}

/// The results of a session as one JSON document.
pub fn endpoint_results_json(report: &FlushReport) -> (json: JsonWriter)
    ensures
        json@ == results_json(*report),
{
    let mut json = JsonWriter::new();
    json.begin_object();
    json.field_i64("tracked", report.events as i64);
    json.field_bool("success", !report_failed(report));
    json.begin_array("endpoints");
    let ghost head = json@;
    let ghost all = report.context.endpoints@;
    assert(head =~= seq![
        output::begin_object(),
        output::field_i64("tracked"@, report.events as int),
        output::field_bool("success"@, !has_failed(*report)),
        output::begin_array("endpoints"@),
    ]);
    assert(head + endpoints_json(all, 0) =~= head);
    let mut i: usize = 0;
    while i < report.context.endpoints.len()
        invariant
            i <= report.context.endpoints@.len(),
            all == report.context.endpoints@,
            json@ == head + endpoints_json(all, i as int),
        decreases report.context.endpoints@.len() - i,
    {
        put_endpoint(&mut json, &report.context.endpoints[i]);
        i = i + 1;
        assert(json@ =~= head + endpoints_json(all, i as int));
    }
    json.end_array();
    json.end_object();
    assert(json@ =~= head + endpoints_json(all, all.len() as int) + seq![output::end_array(), output::end_object()]);
    json
}

/// The line of one endpoint.
pub open spec fn endpoint_line(e: Endpoint) -> Seq<char> {
    e.path@ + "  HTTP "@ + text::dec(e.stats.last_status as int) + "  received="@ + text::dec(e.stats.received as int)
        + " stored="@ + text::dec(e.stats.stored as int) + " skipped="@ + text::dec(e.stats.skipped as int) + (
    if e.stats.last_error@.len() > 0 {
        "  error: "@ + e.stats.last_error@
    } else {
        Seq::empty()
    })
}

fn endpoint_line_exec(e: &Endpoint) -> (r: String)
    ensures
        r@ == endpoint_line(*e),
{
    let mut r = text::cat4(
        e.path.as_str(),
        "  HTTP ",
        text::dec_i64(e.stats.last_status as i64).as_str(),
        "  received=",
    );
    r.append(text::dec_i64(e.stats.received as i64).as_str());
    r.append(" stored=");
    r.append(text::dec_i64(e.stats.stored as i64).as_str());
    r.append(" skipped=");
    r.append(text::dec_i64(e.stats.skipped as i64).as_str());
    if !e.stats.last_error.as_str().is_empty() {
        r.append(text::cat2("  error: ", e.stats.last_error.as_str()).as_str());
    }
    assert(r@ =~= endpoint_line(*e));
    r
}

/// The lines for the results of a session.
pub open spec fn results_lines(report: FlushReport) -> Seq<(output::Channel, Seq<char>)> {
    let all = report.context.endpoints@;
    if all.len() == 0 {
        seq![output::error("no telemetry batch was sent (flush deferred?)"@)]
    } else {
        Seq::new(all.len(), |i: int| output::result(endpoint_line(all[i])))
    }
}

/// The results of a session as lines.
pub fn render_endpoint_results(report: &FlushReport) -> (out: Printed)
    ensures
        out@ == results_lines(*report),
{
    let mut out = Printed::new();
    if report.context.endpoints.len() == 0 {
        return output::only_error(text::owned("no telemetry batch was sent (flush deferred?)"));
    }
    let ghost all = report.context.endpoints@;
    let ghost wanted = Seq::new(all.len(), |i: int| output::result(endpoint_line(all[i])));
    let mut i: usize = 0;
    assert(out@ =~= wanted.take(0));
    while i < report.context.endpoints.len()
        invariant
            i <= all.len(),
            all == report.context.endpoints@,
            wanted == Seq::new(all.len(), |i: int| output::result(endpoint_line(all[i]))),
            out@ == wanted.take(i as int),
        decreases all.len() - i,
    {
        out.result(endpoint_line_exec(&report.context.endpoints[i]));
        i = i + 1;
        assert(out@ =~= wanted.take(i as int));
    }
    assert(wanted.take(all.len() as int) =~= wanted);
    out
}

/// Metrics a caller may attach to every event; a negative one is unset. The two
/// durations are the bits of a double.
#[derive(Clone, Copy, Debug, PartialEq, Eq, Structural)]
pub struct MetricOptions {
    pub processing_ms: u64,
    pub input_tokens: i32,
    pub output_tokens: i32,
    pub audio_duration_ms: u64,
}

/// The bits of minus one, a double.
pub const UNSET: u64 = 0xBFF0_0000_0000_0000;

impl Default for MetricOptions {
    fn default() -> (r: MetricOptions)
        ensures
            r.processing_ms == UNSET,
            r.input_tokens == -1,
            r.output_tokens == -1,
            r.audio_duration_ms == UNSET,
    {
        MetricOptions { processing_ms: UNSET, input_tokens: -1, output_tokens: -1, audio_duration_ms: UNSET }
    }
}

/// The token counts of an event; what the caller did not supply stays absent.
#[derive(Clone, Copy, Debug, PartialEq, Eq, Structural)]
pub struct TokenCounts {
    pub input: Option<i32>,
    pub output: Option<i32>,
    pub total: Option<i64>,
}

/// The token counts of an event: the total goes with the output, and a missing
/// input counts as none.
pub open spec fn are_token_counts(metrics: MetricOptions, r: TokenCounts) -> bool {
    &&& r.input == if metrics.input_tokens >= 0 {
        Some(metrics.input_tokens)
    } else {
        None
    }
    &&& r.output == if metrics.output_tokens >= 0 {
        Some(metrics.output_tokens)
    } else {
        None
    }
    &&& match r.total {
        Some(total) => metrics.output_tokens >= 0 && total == metrics.output_tokens + (if metrics.input_tokens > 0 {
            metrics.input_tokens as int
        } else {
            0
        }),
        None => metrics.output_tokens < 0,
    }
}

/// See [`are_token_counts`].
pub fn token_counts(metrics: MetricOptions) -> (r: TokenCounts)
    ensures
        are_token_counts(metrics, r),
{
    let input: i64 = if metrics.input_tokens > 0 { metrics.input_tokens as i64 } else { 0 };
    TokenCounts {
        input: if metrics.input_tokens >= 0 { Some(metrics.input_tokens) } else { None },
        output: if metrics.output_tokens >= 0 { Some(metrics.output_tokens) } else { None },
        total: if metrics.output_tokens >= 0 { Some(input + metrics.output_tokens as i64) } else { None },
    }
}

/// A duration that was supplied.
pub open spec fn supplied(bits: u64) -> Option<u64> {
    if engine::is_nonnegative_double(bits) {
        Some(bits)
    } else {
        None
    }
}

fn supplied_exec(bits: u64) -> (r: Option<u64>)
    ensures
        r == supplied(bits),
{
    if bits <= 0x7FF0_0000_0000_0000 || bits == 0x8000_0000_0000_0000 {
        Some(bits)
    } else {
        None
    }
}

/// One event as it is tracked. The two durations are the bits of a double.
#[derive(Debug)]
pub struct TelemetryPayload {
    pub id: String,
    pub event_type: String,
    pub modality: &'static str,
    pub session_id: String,
    pub model_id: &'static str,
    pub model_name: &'static str,
    pub framework: &'static str,
    pub timestamp_ms: i64,
    pub created_at_ms: i64,
    pub success: bool,
    pub processing_time_ms: Option<u64>,
    pub tokens: TokenCounts,
    pub audio_duration_ms: Option<u64>,
}

/// The event that is tracked: a success of the probe model of its modality, with
/// the metrics that the caller supplied and no others. `id` is fresh and
/// `now_ms` is the time.
pub fn telemetry_payload(
    id: String,
    spec: ModalitySpec,
    event_type: &str,
    session_id: &str,
    now_ms: i64,
    metrics: MetricOptions,
) -> (r: TelemetryPayload)
    ensures
        r.id == id,
        r.event_type@ == text::c_form(event_type@),
        r.session_id@ == text::c_form(session_id@),
        r.modality == spec.name,
        r.model_id == spec.probe_model_id,
        r.model_name == spec.probe_model_id,
        r.framework == spec.probe_framework,
        r.timestamp_ms == now_ms,
        r.created_at_ms == now_ms,
        r.success,
        r.processing_time_ms == supplied(metrics.processing_ms),
        r.audio_duration_ms == supplied(metrics.audio_duration_ms),
        are_token_counts(metrics, r.tokens),
{
    TelemetryPayload {
        id,
        event_type: text::c_text(event_type),
        modality: spec.name,
        session_id: text::c_text(session_id),
        model_id: spec.probe_model_id,
        model_name: spec.probe_model_id,
        framework: spec.probe_framework,
        timestamp_ms: now_ms,
        created_at_ms: now_ms,
        success: true,
        processing_time_ms: supplied_exec(metrics.processing_ms),
        tokens: token_counts(metrics),
        audio_duration_ms: supplied_exec(metrics.audio_duration_ms),
    }
}

/// What `emit` sends: a modality, the event type and a session, or the refusal
/// of a modality that does not exist. `fresh` is a session id to fall back on.
#[derive(Debug)]
pub struct EmitPlan {
    pub spec: ModalitySpec,
    pub event_type: String,
    pub session: String,
    pub count: i32,
}

/// How many events a `--count` asks for; one where it is not given.
pub open spec fn count_asked(given: Option<i32>) -> i32 {
    match given {
        Some(n) => n,
        None => 1,
    }
}

/// See [`count_asked`].
pub fn event_count(given: Option<i32>) -> (r: i32)
    ensures
        r == count_asked(given),
{
    match given {
        Some(n) => n,
        None => 1,
    }
}

/// The session and the count of a blast: a session of its own where none is
/// named.
pub fn plan_blast(count: Option<i32>, session_id: &str, fresh: String) -> (r: (i32, String))
    ensures
        r.0 == count_asked(count),
        r.1@ == if session_id@.len() == 0 {
            fresh@
        } else {
            session_id@
        },
{
    (event_count(count), if session_id.is_empty() { fresh } else { text::owned(session_id) })
}

/// See [`EmitPlan`]; an unknown modality is refused, with the exit code.
pub fn plan_emit(modality: &str, event_type: &str, session_id: &str, count: Option<i32>, fresh: String) -> (r: Result<
    EmitPlan,
    (String, i32),
>)
    ensures
        match named_modality(modality_table(), modality@) {
            None => r is Err && (r->Err_0).0@ == "unknown modality '"@ + modality@ + "'"@ && (r->Err_0).1 == 2,
            Some(m) => r is Ok && r->Ok_0.spec@ == m && r->Ok_0.count == count_asked(count) && r->Ok_0.event_type@ == (if event_type@.len() == 0 {
                m.1
            } else {
                event_type@
            }) && r->Ok_0.session@ == (if session_id@.len() == 0 {
                fresh@
            } else {
                session_id@
            }),
        },
{
    match find_modality(modality) {
        None => Err((text::cat3("unknown modality '", modality, "'"), 2)),
        Some(spec) => Ok(
            EmitPlan {
                spec,
                event_type: if event_type.is_empty() {
                    text::owned(spec.default_event_type)
                } else {
                    text::owned(event_type)
                },
                session: if session_id.is_empty() { fresh } else { text::owned(session_id) },
                count: event_count(count),
            },
        ),
    }
}

/// The status line after an emit.
pub open spec fn emitted(plan: EmitPlan) -> Seq<char> {
    "emitted "@ + text::dec(plan.count as int) + " × "@ + plan.event_type@ + " (modality "@ + plan.spec.name@
        + ", session "@ + plan.session@ + ")"@
}

/// See [`emitted`].
pub fn emitted_line(plan: &EmitPlan) -> (r: String)
    ensures
        r@ == emitted(*plan),
{
    let mut r = text::cat4("emitted ", text::dec_i64(plan.count as i64).as_str(), " × ", plan.event_type.as_str());
    r.append(" (modality ");
    r.append(plan.spec.name);
    r.append(", session ");
    r.append(plan.session.as_str());
    r.append(")");
    r
}

/// What an emit shows and its exit code.
pub fn run_telemetry_emit(plan: &EmitPlan, report: &FlushReport, json: bool) -> (r: (Report, i32))
    ensures
        r.0@ == (if json {
            ReportView::Document(results_json(*report))
        } else {
            ReportView::Lines(seq![output::status(emitted(*plan))] + results_lines(*report))
        }),
        r.1 == if has_failed(*report) {
            1i32
        } else {
            0
        },
{
    let code: i32 = if report_failed(report) { 1 } else { 0 };
    if json {
        return (Report::Document(endpoint_results_json(report)), code);
    }
    let mut printed = Printed::new();
    printed.status(emitted_line(plan));
    printed.extend(render_endpoint_results(report));
    assert(printed@ =~= seq![output::status(emitted(*plan))] + results_lines(*report));
    (Report::Lines(printed), code)
}

/// One row of a blast: a modality and whether its events arrived.
#[derive(Debug)]
pub struct BlastRow {
    pub modality: &'static str,
    pub ok: bool,
    pub status: String,
    pub received: i32,
    pub stored: i32,
    pub skipped: i32,
}

/// A row as a value: modality, ok, status, received, stored, skipped.
pub type BlastRowView = (Seq<char>, bool, Seq<char>, int, int, int);

impl View for BlastRow {
    type V = BlastRowView;

    open spec fn view(&self) -> BlastRowView {
        (self.modality@, self.ok, self.status@, self.received as int, self.stored as int, self.skipped as int)
    }
}

pub open spec fn blast_rows_view(rows: Seq<BlastRow>) -> Seq<BlastRowView> {
    Seq::new(rows.len(), |i: int| rows[i]@)
}

/// The endpoint of a modality.
pub open spec fn modality_endpoint(name: Seq<char>) -> Seq<char> {
    "/api/v2/sdk/telemetry/"@ + name
}

/// Whether the events of a modality arrived: no failure, an OK status, and as
/// many events received and stored as were sent.
pub open spec fn all_arrived(stats: EndpointStats, count: i32) -> bool {
    stats.failures == 0 && stats.last_status == 200 && stats.received >= count && stats.stored >= count
}

/// The row of a modality.
pub open spec fn blast_row(name: Seq<char>, endpoints: Seq<Endpoint>, count: i32) -> BlastRowView {
    match stats_of(endpoints, modality_endpoint(name)) {
        None => (name, false, "NO POST"@, 0, 0, 0),
        Some(stats) => (
            name,
            all_arrived(stats, count),
            if all_arrived(stats, count) || stats.last_error@.len() == 0 {
                "HTTP "@ + text::dec(stats.last_status as int)
            } else {
                stats.last_error@
            },
            stats.received as int,
            stats.stored as int,
            stats.skipped as int,
        ),
    }
}

fn blast_row_exec(name: &'static str, context: &TelemetryHttpContext, count: i32) -> (r: BlastRow)
    requires
        context.wf(),
    ensures
        r@ == blast_row(name@, context.endpoints@, count),
{
    let endpoint = text::cat2("/api/v2/sdk/telemetry/", name);
    match context.find(endpoint.as_str()) {
        None => BlastRow {
            modality: name,
            ok: false,
            status: text::owned("NO POST"),
            received: 0,
            stored: 0,
            skipped: 0,
        },
        Some(stats) => {
            let ok = stats.failures == 0 && stats.last_status == 200 && stats.received >= count && stats.stored >= count;
            let status = if ok || stats.last_error.as_str().is_empty() {
                text::cat2("HTTP ", text::dec_i64(stats.last_status as i64).as_str())
            } else {
                text::owned(stats.last_error.as_str())
            };
            BlastRow {
                modality: name,
                ok,
                status,
                received: stats.received,
                stored: stats.stored,
                skipped: stats.skipped,
            }
        },
    }
}

/// The rows of a blast, one per modality.
pub open spec fn blast_table(endpoints: Seq<Endpoint>, count: i32) -> Seq<BlastRowView> {
    Seq::new(modality_table().len(), |i: int| blast_row(modality_table()[i].0, endpoints, count))
}

/// The rows of a blast and whether every one of them is fine.
pub fn blast_results(context: &TelemetryHttpContext, count: i32) -> (r: (Vec<BlastRow>, bool))
    requires
        context.wf(),
    ensures
        blast_rows_view(r.0@) == blast_table(context.endpoints@, count),
        r.1 == (forall|i: int| 0 <= i < r.0@.len() ==> (#[trigger] r.0@[i]).ok),
{
    let all = modalities();
    let mut rows: Vec<BlastRow> = Vec::new();
    let mut all_ok = true;
    let mut i: usize = 0;
    let ghost wanted = blast_table(context.endpoints@, count);
    assert(blast_rows_view(rows@) =~= wanted.take(0));
    while i < all.len()
        invariant
            i <= all@.len(),
            context.wf(),
            all@.len() == 12,
            specs_view(all@) == modality_table(),
            wanted == blast_table(context.endpoints@, count),
            blast_rows_view(rows@) == wanted.take(i as int),
            rows@.len() == i,
            all_ok == (forall|k: int| 0 <= k < rows@.len() ==> (#[trigger] rows@[k]).ok),
        decreases all@.len() - i,
    {
        assert(specs_view(all@)[i as int] == all@[i as int]@);
        let row = blast_row_exec(all[i].name, context, count);
        let ghost before = rows@;
        let row_ok = row.ok;
        rows.push(row);
        proof {
            assert(blast_rows_view(rows@) =~= wanted.take(i + 1));
            assert forall|k: int| 0 <= k < before.len() implies rows@[k] == before[k] by {}
            if all_ok && row_ok {
                assert forall|k: int| 0 <= k < rows@.len() implies (#[trigger] rows@[k]).ok by {
                    if k < before.len() {
                        assert(before[k].ok);
                    }
                }
            } else if !row_ok {
                assert(!rows@[i as int].ok);
            } else {
                let k = choose|k: int| 0 <= k < before.len() && !(#[trigger] before[k]).ok;
                assert(!rows@[k].ok);
            }
        }
        all_ok = all_ok && row_ok;
        i = i + 1;
    }
    assert(wanted.take(12) =~= wanted);
    (rows, all_ok)
}

/// The writes for one row of a blast.
pub open spec fn blast_row_json(row: BlastRowView) -> Seq<output::JsonOpView> {
    seq![
        output::begin_array_object(),
        output::field_str("modality"@, row.0),
        output::field_bool("ok"@, row.1),
        output::field_str("status"@, row.2),
        output::field_i64("events_received"@, row.3),
        output::field_i64("events_stored"@, row.4),
        output::field_i64("events_skipped"@, row.5),
        output::end_object(),
    ]
}

pub open spec fn blast_rows_json(rows: Seq<BlastRowView>, n: int) -> Seq<output::JsonOpView>
    decreases n,
{
    if n <= 0 {
        Seq::empty()
    } else {
        blast_rows_json(rows, n - 1) + blast_row_json(rows[n - 1])
    }
}

fn put_blast_row(json: &mut JsonWriter, row: &BlastRow)
    ensures
        final(json)@ == old(json)@ + blast_row_json(row@),
{
    json.begin_array_object();
    json.field_str("modality", row.modality);
    json.field_bool("ok", row.ok);
    json.field_str("status", row.status.as_str());
    json.field_i64("events_received", row.received as i64);
    json.field_i64("events_stored", row.stored as i64);
    json.field_i64("events_skipped", row.skipped as i64);
    json.end_object();
    assert(json@ =~= old(json)@ + blast_row_json(row@));
}

/// The writes for a blast.
pub open spec fn blast_document(events: i32, all_ok: bool, session: Seq<char>, rows: Seq<BlastRowView>) -> Seq<
    output::JsonOpView,
> {
    seq![
        output::begin_object(),
        output::field_i64("tracked"@, events as int),
        output::field_bool("success"@, all_ok),
        output::field_str("session_id"@, session),
        output::begin_array("modalities"@),
    ] + blast_rows_json(rows, rows.len() as int) + seq![output::end_array(), output::end_object()]
}

/// A blast as one JSON document.
pub fn blast_json(events: i32, all_ok: bool, session: &str, rows: &Vec<BlastRow>) -> (json: JsonWriter)
    ensures
        json@ == blast_document(events, all_ok, session@, blast_rows_view(rows@)),
{
    let mut json = JsonWriter::new();
    json.begin_object();
    json.field_i64("tracked", events as i64);
    json.field_bool("success", all_ok);
    json.field_str("session_id", session);
    json.begin_array("modalities");
    let ghost head = json@;
    let ghost all = blast_rows_view(rows@);
    assert(head =~= seq![
        output::begin_object(),
        output::field_i64("tracked"@, events as int),
        output::field_bool("success"@, all_ok),
        output::field_str("session_id"@, session@),
        output::begin_array("modalities"@),
    ]);
    assert(head + blast_rows_json(all, 0) =~= head);
    let mut i: usize = 0;
    while i < rows.len()
        invariant
            i <= rows@.len(),
            all == blast_rows_view(rows@),
            json@ == head + blast_rows_json(all, i as int),
        decreases rows@.len() - i,
    {
        put_blast_row(&mut json, &rows[i]);
        i = i + 1;
        assert(json@ =~= head + blast_rows_json(all, i as int));
    }
    json.end_array();
    json.end_object();
    assert(json@ =~= head + blast_rows_json(all, all.len() as int) + seq![output::end_array(), output::end_object()]);
    json
}

/// The status line above the table of a blast.
pub open spec fn blast_said(session: Seq<char>, events: i32) -> Seq<char> {
    "blast session "@ + session + " — "@ + text::dec(events as int) + " event(s) across 12 modalities"@
}

/// See [`blast_said`].
pub fn blast_line(session: &str, events: i32) -> (r: String)
    ensures
        r@ == blast_said(session@, events),
{
    text::cat5(
        "blast session ",
        session,
        " — ",
        text::dec_i64(events as i64).as_str(),
        " event(s) across 12 modalities",
    )
}

/// The cells of one row of a blast.
pub open spec fn blast_row_cells(row: BlastRowView) -> Seq<Seq<char>> {
    seq![
        row.0,
        if row.1 {
            "ok"@
        } else {
            "FAILED"@
        },
        row.2,
        text::dec(row.3),
        text::dec(row.4),
        text::dec(row.5),
    ]
}

/// See [`blast_row_cells`].
pub fn blast_cells(row: &BlastRow) -> (cells: Vec<String>)
    ensures
        output::strings_view(cells@) == blast_row_cells(row@),
{
    let cells = vec![
        text::owned(row.modality),
        text::owned(if row.ok { "ok" } else { "FAILED" }),
        text::owned(row.status.as_str()),
        text::dec_i64(row.received as i64),
        text::dec_i64(row.stored as i64),
        text::dec_i64(row.skipped as i64),
    ];
    assert(output::strings_view(cells@) =~= blast_row_cells(row@));
    cells
}

/// The header of the table of a blast.
pub open spec fn blast_header() -> Seq<Seq<char>> {
    seq!["MODALITY"@, "RESULT"@, "STATUS"@, "RECEIVED"@, "STORED"@, "SKIPPED"@]
}

/// The table of a blast.
fn blast_shown(rows: &Vec<BlastRow>) -> (r: Table)
    ensures
        output::strings_view(r.header@) == blast_header(),
        output::rows_view(r.rows@) == Seq::new(rows@.len(), |i: int| blast_row_cells(rows@[i]@)),
{
    let header = vec![
        text::owned("MODALITY"),
        text::owned("RESULT"),
        text::owned("STATUS"),
        text::owned("RECEIVED"),
        text::owned("STORED"),
        text::owned("SKIPPED"),
    ];
    assert(output::strings_view(header@) =~= blast_header());
    let mut cells: Vec<Vec<String>> = Vec::new();
    let ghost wanted = Seq::new(rows@.len(), |i: int| blast_row_cells(rows@[i]@));
    let mut i: usize = 0;
    assert(output::rows_view(cells@) =~= wanted.take(0));
    while i < rows.len()
        invariant
            i <= rows@.len(),
            wanted == Seq::new(rows@.len(), |i: int| blast_row_cells(rows@[i]@)),
            output::rows_view(cells@) == wanted.take(i as int),
        decreases rows@.len() - i,
    {
        let ghost before = output::rows_view(cells@);
        let row = blast_cells(&rows[i]);
        cells.push(row);
        i = i + 1;
        assert(output::rows_view(cells@) =~= before.push(output::strings_view(row@)));
        assert(output::rows_view(cells@) =~= wanted.take(i as int));
    }
    assert(wanted.take(rows@.len() as int) =~= wanted);
    Table { header, rows: cells }
}

/// Whether the events of every modality arrived.
pub open spec fn blast_succeeded(endpoints: Seq<Endpoint>, count: i32) -> bool {
    forall|i: int| 0 <= i < modality_table().len() ==> (#[trigger] blast_table(endpoints, count)[i]).1
}

/// What a blast shows and its exit code. `report.events` is how many events were
/// tracked.
pub fn run_telemetry_blast(report: &FlushReport, count: i32, session: &str, json: bool) -> (r: (Report, i32))
    requires
        report.context.wf(),
    ensures
        ({
            let rows = blast_table(report.context.endpoints@, count);
            let all_ok = blast_succeeded(report.context.endpoints@, count);
            &&& r.0@ == (if json {
                ReportView::Document(blast_document(report.events, all_ok, session@, rows))
            } else {
                ReportView::Table(
                    seq![output::status(blast_said(session@, report.events))],
                    blast_header(),
                    Seq::new(rows.len(), |i: int| blast_row_cells(rows[i])),
                    Seq::empty(),
                )
            })
            &&& r.1 == if all_ok {
                0i32
            } else {
                1
            }
        }),
{
    let (rows, all_ok) = blast_results(&report.context, count);
    let ghost table = blast_table(report.context.endpoints@, count);
    proof {
        assert(table.len() == modality_table().len());
        assert(blast_rows_view(rows@).len() == rows@.len());
        assert forall|i: int| 0 <= i < rows@.len() implies table[i] == (#[trigger] rows@[i])@ by {
            assert(blast_rows_view(rows@)[i] == rows@[i]@);
        }
        if all_ok {
            assert forall|i: int| 0 <= i < modality_table().len() implies (#[trigger] table[i]).1 by {
                assert(rows@[i].ok);
            }
        } else {
            let i = choose|i: int| 0 <= i < rows@.len() && !(#[trigger] rows@[i]).ok;
            assert(!table[i].1);
        }
        assert(all_ok == blast_succeeded(report.context.endpoints@, count));
    }
    let code: i32 = if all_ok { 0 } else { 1 };
    if json {
        return (Report::Document(blast_json(report.events, all_ok, session, &rows)), code);
    }
    let mut above = Printed::new();
    above.status(blast_line(session, report.events));
    let shown = blast_shown(&rows);
    assert(above@ =~= seq![output::status(blast_said(session@, report.events))]);
    assert(output::rows_view(shown.rows@) =~= Seq::new(table.len(), |i: int| blast_row_cells(table[i])));
    (Report::Table(above, shown, Printed::new()), code)
}

/// How many events a blast of `count` per modality tracks.
pub fn blast_events(count: i32) -> (r: i32)
    requires
        0 <= count <= 178_956_970,
    ensures
        r == count * modality_table().len(),
{
    count * 12
}

/// Where a session stands, that is, what is done next.
#[derive(Clone, Copy, Debug, PartialEq, Eq, Structural)]
pub enum SessionStage {
    /// The engine is started.
    Start,
    /// The device signs in.
    SignIn,
    /// The telemetry manager is created.
    Create,
    /// The manager learns about the device.
    Describe,
    /// Its exchanges are routed here.
    Hook,
    /// The events are tracked.
    Track,
    Flush,
    /// The exchanges are no longer routed here.
    Unhook,
    /// The manager is destroyed.
    Destroy,
    /// It is over, and whether it ran.
    Ended(bool),
}

/// What comes after a step: a sign-in only where the environment expects one,
/// and nothing after what has failed. What a flush answers does not count.
pub open spec fn session_after(stage: SessionStage, ok: bool, auth_expected: bool) -> SessionStage {
    match stage {
        SessionStage::Start => if !ok {
            SessionStage::Ended(false)
        } else if auth_expected {
            SessionStage::SignIn
        } else {
            SessionStage::Create
        },
        SessionStage::SignIn => if ok {
            SessionStage::Create
        } else {
            SessionStage::Ended(false)
        },
        SessionStage::Create => if ok {
            SessionStage::Describe
        } else {
            SessionStage::Ended(false)
        },
        SessionStage::Describe => SessionStage::Hook,
        SessionStage::Hook => SessionStage::Track,
        SessionStage::Track => SessionStage::Flush,
        SessionStage::Flush => SessionStage::Unhook,
        SessionStage::Unhook => SessionStage::Destroy,
        SessionStage::Destroy => SessionStage::Ended(true),
        SessionStage::Ended(ran) => SessionStage::Ended(ran),
    }
}

/// See [`session_after`].
pub fn run_telemetry_session(stage: SessionStage, ok: bool, auth_expected: bool) -> (r: SessionStage)
    ensures
        r == session_after(stage, ok, auth_expected),
{
    match stage {
        SessionStage::Start => if !ok {
            SessionStage::Ended(false)
        } else if auth_expected {
            SessionStage::SignIn
        } else {
            SessionStage::Create
        },
        SessionStage::SignIn => if ok {
            SessionStage::Create
        } else {
            SessionStage::Ended(false)
        },
        SessionStage::Create => if ok {
            SessionStage::Describe
        } else {
            SessionStage::Ended(false)
        },
        SessionStage::Describe => SessionStage::Hook,
        SessionStage::Hook => SessionStage::Track,
        SessionStage::Track => SessionStage::Flush,
        SessionStage::Flush => SessionStage::Unhook,
        SessionStage::Unhook => SessionStage::Destroy,
        SessionStage::Destroy => SessionStage::Ended(true),
        SessionStage::Ended(ran) => SessionStage::Ended(ran),
    }
}

/// What is said when a step fails; the start of the engine says it itself.
pub fn session_failure(stage: SessionStage, message: &str) -> (r: Option<String>)
    ensures
        match stage {
            SessionStage::SignIn => r is Some && r->0@ == message@,
            SessionStage::Create => r is Some && r->0@ == "telemetry manager creation failed"@,
            _ => r is None,
        },
{
    match stage {
        SessionStage::SignIn => Some(text::owned(message)),
        SessionStage::Create => Some(text::owned("telemetry manager creation failed")),
        _ => None,
    }
}

/// Whether there is a manager.
pub open spec fn manager_lives(stage: SessionStage) -> bool {
    stage is Describe || stage is Hook || stage is Track || stage is Flush || stage is Unhook || stage is Destroy
}

/// Whether exchanges are routed here.
pub open spec fn is_hooked(stage: SessionStage) -> bool {
    stage is Track || stage is Flush || stage is Unhook
}

/// How many steps are left at most.
pub open spec fn session_steps_left(stage: SessionStage) -> nat {
    match stage {
        SessionStage::Start => 9,
        SessionStage::SignIn => 8,
        SessionStage::Create => 7,
        SessionStage::Describe => 6,
        SessionStage::Hook => 5,
        SessionStage::Track => 4,
        SessionStage::Flush => 3,
        SessionStage::Unhook => 2,
        SessionStage::Destroy => 1,
        SessionStage::Ended(_) => 0,
    }
}

/// Every step brings a session nearer to its end. A manager that was created
/// lives until it is destroyed, and by then nothing is routed here any more; a
/// session that ran has tracked its events and flushed them.
pub proof fn a_manager_is_always_destroyed(stage: SessionStage, ok: bool, auth_expected: bool)
    ensures
        ({
            let next = session_after(stage, ok, auth_expected);
            &&& !(stage is Ended) ==> session_steps_left(next) < session_steps_left(stage)
            &&& manager_lives(stage) && !(stage is Destroy) ==> manager_lives(next)
            &&& is_hooked(stage) && !(stage is Unhook) ==> is_hooked(next)
            &&& stage is Destroy ==> !is_hooked(stage) && next == SessionStage::Ended(true)
            &&& next == SessionStage::Ended(true) ==> stage is Destroy || stage is Ended
            &&& next is Flush ==> stage is Track
        }),
{
}

/// A batch that was sent counts as one more, and what the backend says it took in,
/// kept and passed over is added to what it said before, each to its own. One that
/// was refused, or not acknowledged, is a failure with a reason.
pub proof fn a_batch_is_counted_once(before: EndpointStats, result: HttpResult, after: EndpointStats)
    requires
        is_recorded(before, result, after),
        0 <= before.posts < i32::MAX && 0 <= before.failures < i32::MAX,
        0 <= before.received < 0x4000_0000 && 0 <= before.stored < 0x4000_0000 && 0 <= before.skipped < 0x4000_0000,
    ensures
        after.posts == before.posts + 1,
        after.last_status == result.status,
        result.ok && bool_field(result.body@, "success"@) ==> after.failures == before.failures && after.last_error@
            == before.last_error@,
        !(result.ok && bool_field(result.body@, "success"@)) ==> after.failures == before.failures + 1,
        !result.ok ==> after.last_error@ == result.described@ && after.received == before.received && after.stored
            == before.stored && after.skipped == before.skipped,
        ({
            let n = int_field(result.body@, "events_received"@);
            &&& result.ok && 0 <= n < 0x4000_0000 ==> after.received == before.received + n
            &&& n < 0 ==> after.received == before.received
        }),
        ({
            let n = int_field(result.body@, "events_stored"@);
            &&& result.ok && 0 <= n < 0x4000_0000 ==> after.stored == before.stored + n
            &&& n < 0 ==> after.stored == before.stored
        }),
        ({
            let n = int_field(result.body@, "events_skipped"@);
            &&& result.ok && 0 <= n < 0x4000_0000 ==> after.skipped == before.skipped + n
            &&& n < 0 ==> after.skipped == before.skipped
        }),
{
}

/// A run went well where something was sent, no batch failed, and the backend took
/// in as many events as were tracked.
pub proof fn a_run_went_well_when_all_was_received(report: FlushReport)
    ensures
        ({
            let all = report.context.endpoints@;
            &&& all.len() == 0 ==> has_failed(report)
            &&& forall|i: int| 0 <= i < all.len() && (#[trigger] all[i]).stats.failures > 0 ==> has_failed(report)
            &&& all.len() == 1 && all[0].stats.failures <= 0 ==> has_failed(report) == (all[0].stats.received
                != report.events)
            &&& !has_failed(report) ==> received_total(all, all.len() as int) == report.events
        }),
{
    reveal_with_fuel(received_total, 3);
}

/// The backend took in, over all the endpoints, what it took in at each of them.
pub proof fn each_endpoint_adds_what_it_received(all: Seq<Endpoint>, more: Endpoint)
    ensures
        ({
            let longer = all.push(more);
            received_total(longer, longer.len() as int) == received_total(all, all.len() as int) + more.stats.received
        }),
{
    received_before(all, more, all.len() as int);
    assert(all.push(more)[all.len() as int] == more);
}

proof fn received_before(all: Seq<Endpoint>, path: Endpoint, n: int)
    requires
        0 <= n <= all.len(),
    ensures
        received_total(all.push(path), n) == received_total(all, n),
    decreases n,
{
    if n > 0 {
        received_before(all, path, n - 1);
        assert(all.push(path)[n - 1] == all[n - 1]);
    }
}

proof fn its_own_stats_are_found(endpoints: Seq<Endpoint>, path: Seq<char>, i: int)
    requires
        0 <= i < endpoints.len(),
        endpoints[i].path@ == path,
        forall|j: int| 0 <= j < i ==> (#[trigger] endpoints[j]).path@ != path,
    ensures
        stats_of(endpoints, path) == Some(endpoints[i].stats),
    decreases endpoints.len(),
{
    if i > 0 {
        assert(endpoints[0].path@ != path);
        let rest = endpoints.skip(1);
        assert(rest[i - 1] == endpoints[i]);
        assert forall|j: int| 0 <= j < i - 1 implies (#[trigger] rest[j]).path@ != path by {
            assert(rest[j] == endpoints[j + 1]);
        }
        its_own_stats_are_found(rest, path, i - 1);
    }
}

proof fn no_stats_are_made_up(endpoints: Seq<Endpoint>, path: Seq<char>)
    requires
        forall|j: int| 0 <= j < endpoints.len() ==> (#[trigger] endpoints[j]).path@ != path,
    ensures
        stats_of(endpoints, path) is None,
    decreases endpoints.len(),
{
    if endpoints.len() > 0 {
        assert(endpoints[0].path@ != path);
        let rest = endpoints.skip(1);
        assert forall|j: int| 0 <= j < rest.len() implies (#[trigger] rest[j]).path@ != path by {
            assert(rest[j] == endpoints[j + 1]);
        }
        no_stats_are_made_up(rest, path);
    }
}

/// The row of a modality tells what became of the batches to its own endpoint: it
/// is fine only where none failed, the last was accepted, and at least as many
/// events as were sent were taken in and kept. One without an endpoint is not.
pub proof fn a_row_tells_of_its_own_endpoint(name: Seq<char>, endpoints: Seq<Endpoint>, count: i32, i: int)
    requires
        paths_ordered(endpoints),
    ensures
        0 <= i < endpoints.len() && endpoints[i].path@ == "/api/v2/sdk/telemetry/"@ + name ==> {
            let stats = endpoints[i].stats;
            let row = blast_row(name, endpoints, count);
            &&& row.0 == name
            &&& row.1 <==> stats.failures == 0 && stats.last_status == 200 && stats.received >= count && stats.stored
                >= count
            &&& row.1 || stats.last_error@.len() == 0 ==> row.2 == "HTTP "@ + text::dec(stats.last_status as int)
            &&& !row.1 && stats.last_error@.len() > 0 ==> row.2 == stats.last_error@
            &&& row.3 == stats.received && row.4 == stats.stored && row.5 == stats.skipped
        },
        (forall|j: int| 0 <= j < endpoints.len() ==> (#[trigger] endpoints[j]).path@ != "/api/v2/sdk/telemetry/"@ + name)
            ==> !blast_row(name, endpoints, count).1,
{
    let path = "/api/v2/sdk/telemetry/"@ + name;
    if 0 <= i < endpoints.len() && endpoints[i].path@ == path {
        assert forall|j: int| 0 <= j < i implies (#[trigger] endpoints[j]).path@ != path by {
            assert(text::text_less(endpoints[j].path@, endpoints[i].path@));
            text::text_less_total(path, path);
        }
        its_own_stats_are_found(endpoints, path, i);
    }
    if forall|j: int| 0 <= j < endpoints.len() ==> (#[trigger] endpoints[j]).path@ != path {
        no_stats_are_made_up(endpoints, path);
    }
}

/// The first place where something stands is one where it stands, and before it
/// there is none; nothing is found only where it stands nowhere.
pub proof fn the_first_match_is_the_first(hay: Seq<u8>, needle: Seq<u8>, at: int)
    requires
        0 <= at,
    ensures
        match first_match(hay, needle, at) {
            Some(p) => at <= p && p + needle.len() <= hay.len() && hay.subrange(p, p + needle.len()) == needle && (
            forall|q: int| at <= q < p ==> #[trigger] hay.subrange(q, q + needle.len()) != needle),
            None => forall|q: int|
                at <= q && q + needle.len() <= hay.len() ==> #[trigger] hay.subrange(q, q + needle.len()) != needle,
        },
    decreases hay.len() + 1 - at,
{
    if at + needle.len() <= hay.len() && hay.subrange(at, at + needle.len()) != needle {
        the_first_match_is_the_first(hay, needle, at + 1);
    }
}

/// Where digits stand, up to something that is none, they are read as the number
/// they write, behind any blanks; a number too large for its kind becomes the
/// largest.
pub proof fn a_number_is_read_where_it_stands(bytes: Seq<u8>, at: int, blanks: int, digits: Seq<char>, negative: bool)
    requires
        0 <= at,
        0 <= blanks,
        text::all_digits(digits),
        digits.len() > 0,
        at + blanks + digits.len() + (if negative {
            1int
        } else {
            0
        }) <= bytes.len(),
        forall|i: int| at <= i < at + blanks ==> #[trigger] bytes[i] == 0x20,
        negative ==> bytes[at + blanks] == 0x2D,
        ({
            let from = at + blanks + (if negative {
                1int
            } else {
                0
            });
            &&& forall|i: int| 0 <= i < digits.len() ==> bytes[from + i] as int == #[trigger] digits[i] as int
            &&& from + digits.len() < bytes.len() ==> bytes[from + digits.len()] < 0x30 || bytes[from + digits.len()]
                > 0x39
        }),
    ensures
        ({
            let n = text::digits_value(digits);
            &&& !negative && n <= i32::MAX ==> int_at(bytes, at) == n
            &&& negative && n <= i32::MAX ==> int_at(bytes, at) == -n
            &&& !negative && n > i32::MAX ==> int_at(bytes, at) == i32::MAX
        }),
{
    let start = at + blanks;
    let from = start + (if negative {
        1int
    } else {
        0
    });
    assert(bytes[from] as int == digits[0] as int);
    assert('0' <= digits[0] && digits[0] <= '9');
    blanks_are_passed(bytes, at, blanks);
    text::digits_are_not_negative(digits);
    digits_are_summed(bytes, from, digits, 0);
    assert(digits.take(0) =~= Seq::empty());
}

proof fn blanks_are_passed(bytes: Seq<u8>, at: int, blanks: int)
    requires
        0 <= at,
        0 <= blanks,
        at + blanks < bytes.len(),
        forall|i: int| at <= i < at + blanks ==> #[trigger] bytes[i] == 0x20,
        !is_ascii_blank(bytes[at + blanks]),
    ensures
        past_ascii_blanks(bytes, at) == at + blanks,
    decreases blanks,
{
    if blanks > 0 {
        assert(bytes[at] == 0x20);
        blanks_are_passed(bytes, at + 1, blanks - 1);
    }
}

proof fn digits_are_summed(bytes: Seq<u8>, from: int, digits: Seq<char>, k: int)
    requires
        0 <= from,
        0 <= k <= digits.len(),
        from + digits.len() <= bytes.len(),
        text::all_digits(digits),
        forall|i: int| 0 <= i < digits.len() ==> bytes[from + i] as int == #[trigger] digits[i] as int,
        from + digits.len() < bytes.len() ==> bytes[from + digits.len()] < 0x30 || bytes[from + digits.len()] > 0x39,
    ensures
        digits_value(bytes, from + k, text::digits_value(digits.take(k))) == text::digits_value(digits),
    decreases digits.len() - k,
{
    if k < digits.len() {
        assert('0' <= digits[k] && digits[k] <= '9');
        assert(bytes[from + k] as int == digits[k] as int);
        assert(digits.take(k + 1).drop_last() =~= digits.take(k));
        assert(digits.take(k + 1).last() == digits[k]);
        reveal_with_fuel(text::digits_value, 2);
        digits_are_summed(bytes, from, digits, k + 1);
    } else {
        assert(digits.take(k) =~= digits);
    }
}

proof fn bytes_are_written_in_hex(bytes: Seq<u8>, from: int, to: int)
    requires
        0 <= from <= to <= bytes.len(),
    ensures
        hex_bytes(bytes, from, to).len() == 2 * (to - from),
        forall|i: int|
            from <= i < to ==> hex_bytes(bytes, from, to)[2 * (i - from)] == hex_digit(#[trigger] bytes[i] as int / 16)
                && hex_bytes(bytes, from, to)[2 * (i - from) + 1] == hex_digit(bytes[i] as int % 16),
    decreases to - from,
{
    if from < to {
        bytes_are_written_in_hex(bytes, from, to - 1);
    }
}

/// A fresh id has thirty-six characters, with dashes at four places. It spells the
/// bytes it was made of, but for the bits that say what it is.
pub proof fn a_uuid_spells_its_bytes(bytes: Seq<u8>)
    requires
        bytes.len() == 16,
    ensures
        uuid_text(bytes).len() == 36,
        uuid_text(bytes)[8] == '-' && uuid_text(bytes)[13] == '-' && uuid_text(bytes)[18] == '-' && uuid_text(bytes)[23]
            == '-',
        forall|i: int|
            0 <= i < 4 ==> uuid_text(bytes)[2 * i] == hex_digit(#[trigger] bytes[i] as int / 16) && uuid_text(bytes)[2 * i
                + 1] == hex_digit(bytes[i] as int % 16),
        forall|i: int|
            10 <= i < 16 ==> uuid_text(bytes)[2 * i + 4] == hex_digit(#[trigger] bytes[i] as int / 16) && uuid_text(
                bytes,
            )[2 * i + 5] == hex_digit(bytes[i] as int % 16),
        uuid_bytes(bytes)[6] % 16 == bytes[6] % 16,
        uuid_bytes(bytes)[8] % 64 == bytes[8] % 64,
        forall|i: int| 0 <= i < 16 && i != 6 && i != 8 ==> #[trigger] uuid_bytes(bytes)[i] == bytes[i],
        forall|d: int, e: int| 0 <= d < e < 16 ==> #[trigger] hex_digit(d) != #[trigger] hex_digit(e),
{
    reveal_strlit("-");
    let b = uuid_bytes(bytes);
    bytes_are_written_in_hex(b, 0, 4);
    bytes_are_written_in_hex(b, 4, 6);
    bytes_are_written_in_hex(b, 6, 8);
    bytes_are_written_in_hex(b, 8, 10);
    bytes_are_written_in_hex(b, 10, 16);
    let u = uuid_text(bytes);
    assert forall|i: int| 0 <= i < 4 implies u[2 * i] == hex_digit(#[trigger] bytes[i] as int / 16) && u[2 * i + 1]
        == hex_digit(bytes[i] as int % 16) by {
        assert(b[i] == bytes[i]);
        assert(u[2 * i] == hex_bytes(b, 0, 4)[2 * i]);
        assert(u[2 * i + 1] == hex_bytes(b, 0, 4)[2 * i + 1]);
    }
    assert forall|i: int| 10 <= i < 16 implies u[2 * i + 4] == hex_digit(#[trigger] bytes[i] as int / 16) && u[2 * i
        + 5] == hex_digit(bytes[i] as int % 16) by {
        assert(b[i] == bytes[i]);
        assert(u[2 * i + 4] == hex_bytes(b, 10, 16)[2 * (i - 10)]);
        assert(u[2 * i + 5] == hex_bytes(b, 10, 16)[2 * (i - 10) + 1]);
    }
}

/// The tokens of an event are those in and those out, where each is known, and
/// together they make the total.
pub proof fn tokens_add_up(metrics: MetricOptions, r: TokenCounts)
    requires
        are_token_counts(metrics, r),
    ensures
        metrics.input_tokens >= 0 ==> r.input == Some(metrics.input_tokens),
        metrics.output_tokens >= 0 ==> r.output == Some(metrics.output_tokens),
        metrics.input_tokens < 0 ==> r.input is None,
        metrics.output_tokens < 0 ==> r.output is None && r.total is None,
        r.input is Some && r.output is Some ==> r.total is Some && r.total->0 == r.input->0 + r.output->0,
        r.input is None && r.output is Some ==> r.total is Some && r.total->0 == r.output->0,
{
}

/// What is found under a name is called so, and is the first that is.
pub proof fn a_modality_is_found_by_its_name(table: Seq<ModalityView>, name: Seq<char>)
    ensures
        match named_modality(table, name) {
            Some(m) => m.0 == name && table.contains(m),
            None => forall|i: int| 0 <= i < table.len() ==> (#[trigger] table[i]).0 != name,
        },
    decreases table.len(),
{
    if table.len() > 0 {
        let rest = table.skip(1);
        a_modality_is_found_by_its_name(rest, name);
        if table[0].0 == name {
            assert(table[0] == named_modality(table, name)->0);
        } else {
            match named_modality(rest, name) {
                Some(m) => {
                    let k = choose|k: int| 0 <= k < rest.len() && rest[k] == m;
                    assert(table[k + 1] == m);
                },
                None => {
                    assert forall|i: int| 0 <= i < table.len() implies (#[trigger] table[i]).0 != name by {
                        if i > 0 {
                            assert(rest[i - 1] == table[i]);
                        }
                    }
                },
            }
        }
    }
}

/// What is told of an endpoint is told under its own names, in the document and in
/// the line.
pub proof fn an_endpoint_is_told_under_its_names(e: Endpoint, row: BlastRowView)
    ensures
        ({
            let ops = endpoint_json(e);
            &&& ops.contains(output::field_str("endpoint"@, e.path@))
            &&& ops.contains(output::field_i64("posts"@, e.stats.posts as int))
            &&& ops.contains(output::field_i64("http_status"@, e.stats.last_status as int))
            &&& ops.contains(output::field_i64("events_received"@, e.stats.received as int))
            &&& ops.contains(output::field_i64("events_stored"@, e.stats.stored as int))
            &&& ops.contains(output::field_i64("events_skipped"@, e.stats.skipped as int))
            &&& e.stats.last_error@.len() > 0 ==> ops.contains(output::field_str("error"@, e.stats.last_error@))
            &&& e.stats.last_error@.len() == 0 ==> ops.len() == 8
        }),
        ({
            let ops = blast_row_json(row);
            &&& ops.contains(output::field_str("modality"@, row.0))
            &&& ops.contains(output::field_bool("ok"@, row.1))
            &&& ops.contains(output::field_str("status"@, row.2))
            &&& ops.contains(output::field_i64("events_received"@, row.3))
            &&& ops.contains(output::field_i64("events_stored"@, row.4))
            &&& ops.contains(output::field_i64("events_skipped"@, row.5))
        }),
        ({
            let (head, cells) = (blast_header(), blast_row_cells(row));
            &&& head.len() == 6 && cells.len() == 6
            &&& head[0] == "MODALITY"@ && cells[0] == row.0
            &&& head[1] == "RESULT"@ && (row.1 ==> cells[1] == "ok"@) && (!row.1 ==> cells[1] == "FAILED"@)
            &&& head[2] == "STATUS"@ && cells[2] == row.2
            &&& head[3] == "RECEIVED"@ && cells[3] == text::dec(row.3)
            &&& head[4] == "STORED"@ && cells[4] == text::dec(row.4)
            &&& head[5] == "SKIPPED"@ && cells[5] == text::dec(row.5)
        }),
        e.stats.last_error@.len() == 0 ==> endpoint_line(e) == e.path@ + "  HTTP "@ + text::dec(
            e.stats.last_status as int,
        ) + "  received="@ + text::dec(e.stats.received as int) + " stored="@ + text::dec(e.stats.stored as int)
            + " skipped="@ + text::dec(e.stats.skipped as int),
{
    let ops = endpoint_json(e);
    assert(ops[1] == output::field_str("endpoint"@, e.path@));
    assert(ops[2] == output::field_i64("posts"@, e.stats.posts as int));
    assert(ops[3] == output::field_i64("http_status"@, e.stats.last_status as int));
    assert(ops[4] == output::field_i64("events_received"@, e.stats.received as int));
    assert(ops[5] == output::field_i64("events_stored"@, e.stats.stored as int));
    assert(ops[6] == output::field_i64("events_skipped"@, e.stats.skipped as int));
    assert(e.stats.last_error@.len() > 0 ==> ops[7] == output::field_str("error"@, e.stats.last_error@));
    let rops = blast_row_json(row);
    assert(rops[1] == output::field_str("modality"@, row.0));
    assert(rops[2] == output::field_bool("ok"@, row.1));
    assert(rops[3] == output::field_str("status"@, row.2));
    assert(rops[4] == output::field_i64("events_received"@, row.3));
    assert(rops[5] == output::field_i64("events_stored"@, row.4));
    assert(rops[6] == output::field_i64("events_skipped"@, row.5));
    let plain = e.path@ + "  HTTP "@ + text::dec(e.stats.last_status as int) + "  received="@ + text::dec(
        e.stats.received as int,
    ) + " stored="@ + text::dec(e.stats.stored as int) + " skipped="@ + text::dec(e.stats.skipped as int);
    assert(plain + Seq::<char>::empty() =~= plain);
}

/// A session signs in first where that is expected, and only then; it tracks and
/// flushes once it is set up, and it ran exactly where it got there.
pub proof fn a_session_signs_in_where_expected(ok: bool, auth_expected: bool)
    ensures
        session_after(SessionStage::Start, true, true) == SessionStage::SignIn,
        session_after(SessionStage::Start, true, false) == SessionStage::Create,
        session_after(SessionStage::Start, false, auth_expected) == SessionStage::Ended(false),
        session_after(SessionStage::SignIn, true, auth_expected) == SessionStage::Create,
        session_after(SessionStage::SignIn, false, auth_expected) == SessionStage::Ended(false),
        session_after(SessionStage::Create, false, auth_expected) == SessionStage::Ended(false),
        ({
            let described = session_after(SessionStage::Create, true, auth_expected);
            let hooked = session_after(session_after(described, ok, auth_expected), ok, auth_expected);
            let flushed = session_after(hooked, ok, auth_expected);
            let unhooked = session_after(flushed, ok, auth_expected);
            &&& hooked == SessionStage::Track
            &&& flushed == SessionStage::Flush
            &&& session_after(session_after(unhooked, ok, auth_expected), ok, auth_expected) == SessionStage::Ended(true)
        }),
{
}

/// An event that is emitted is of the modality that was named, of the type, in the
/// session and as often as was asked; where they were left out, of its usual type,
/// in a fresh session, once.
pub proof fn an_event_is_emitted_as_asked(
    modality: &str,
    event_type: &str,
    session_id: &str,
    count: Option<i32>,
    fresh: String,
    r: Result<EmitPlan, (String, i32)>,
)
    requires
        call_ensures(plan_emit, (modality, event_type, session_id, count, fresh), r),
    ensures
        r is Ok ==> {
            let plan = r->Ok_0;
            &&& plan.spec.name@ == modality@
            &&& event_type@.len() > 0 ==> plan.event_type@ == event_type@
            &&& event_type@.len() == 0 ==> plan.event_type@ == plan.spec.default_event_type@
            &&& session_id@.len() > 0 ==> plan.session@ == session_id@
            &&& session_id@.len() == 0 ==> plan.session@ == fresh@
            &&& count is Some ==> plan.count == count->0
            &&& count is None ==> plan.count == 1
        },
        r is Err ==> (r->Err_0).1 == 2 && forall|i: int|
            0 <= i < modality_table().len() ==> (#[trigger] modality_table()[i]).0 != modality@,
{
    a_modality_is_found_by_its_name(modality_table(), modality@);
}

/// An event carries what it was made of: its own id, session and time, and the
/// model and engine of its modality.
pub proof fn an_event_carries_what_it_was_made_of(
    id: String,
    spec: ModalitySpec,
    event_type: &str,
    session_id: &str,
    now_ms: i64,
    metrics: MetricOptions,
    r: TelemetryPayload,
)
    requires
        call_ensures(telemetry_payload, (id, spec, event_type, session_id, now_ms, metrics), r),
    ensures
        r.id == id,
        text::has_no_nul(event_type@) ==> r.event_type@ == event_type@,
        text::has_no_nul(session_id@) ==> r.session_id@ == session_id@,
        r.modality == spec.name,
        r.model_id == spec.probe_model_id,
        r.framework == spec.probe_framework,
        r.timestamp_ms == now_ms && r.created_at_ms == now_ms,
        r.success,
        metrics.processing_ms <= 0x7FF0_0000_0000_0000 ==> r.processing_time_ms == Some(metrics.processing_ms),
        metrics.audio_duration_ms <= 0x7FF0_0000_0000_0000 ==> r.audio_duration_ms == Some(metrics.audio_duration_ms),
{
}

/// The report on a run names how many events were tracked and whether it went well,
/// and every endpoint in order; without one it is an error that nothing was sent.
pub proof fn a_run_is_told_as_it_went(report: FlushReport, plan: EmitPlan, i: int)
    ensures
        ({
            let ops = results_json(report);
            &&& ops[1] == output::field_i64("tracked"@, report.events as int)
            &&& ops[2] == output::field_bool("success"@, !has_failed(report))
        }),
        report.context.endpoints@.len() == 0 ==> results_lines(report).len() == 1 && results_lines(report)[0].0
            == output::Channel::Error,
        report.context.endpoints@.len() > 0 ==> results_lines(report).len() == report.context.endpoints@.len(),
        0 <= i < report.context.endpoints@.len() ==> results_lines(report)[i] == (
            output::Channel::Result,
            endpoint_line(report.context.endpoints@[i]),
        ),
        emitted(plan) == "emitted "@ + text::dec(plan.count as int) + " × "@ + plan.event_type@ + " (modality "@
            + plan.spec.name@ + ", session "@ + plan.session@ + ")"@,
{
}

/// Endpoints are written one behind the other.
pub proof fn endpoints_are_written_in_order(all: Seq<Endpoint>, n: int, i: int)
    requires
        0 <= i < n <= all.len(),
    ensures
        ({
            let at = endpoints_json(all, i).len() as int;
            let one = endpoint_json(all[i]);
            &&& at + one.len() <= endpoints_json(all, n).len()
            &&& endpoints_json(all, n).subrange(at, at + one.len()) == one
        }),
    decreases n,
{
    let at = endpoints_json(all, i).len() as int;
    let one = endpoint_json(all[i]);
    let whole = endpoints_json(all, n);
    if i < n - 1 {
        endpoints_are_written_in_order(all, n - 1, i);
        let before = endpoints_json(all, n - 1);
        assert(whole.subrange(at, at + one.len()) =~= before.subrange(at, at + one.len()));
    } else {
        assert(whole.subrange(at, at + one.len()) =~= one);
    }
}

/// A blast has a row for every modality, in the order of the table, and succeeded
/// where every row did.
pub proof fn a_blast_has_a_row_for_every_modality(endpoints: Seq<Endpoint>, count: i32, session: Seq<char>, events: i32, i: int)
    requires
        0 <= i < modality_table().len(),
    ensures
        ({
            let rows = blast_table(endpoints, count);
            let ok = blast_succeeded(endpoints, count);
            let ops = blast_document(events, ok, session, rows);
            &&& rows.len() == 12 && modality_table().len() == 12
            &&& rows[i] == blast_row(modality_table()[i].0, endpoints, count)
            &&& !rows[i].1 ==> !ok
            &&& (forall|j: int| 0 <= j < 12 ==> (#[trigger] rows[j]).1) ==> ok
            &&& ops[1] == output::field_i64("tracked"@, events as int)
            &&& ops[2] == output::field_bool("success"@, ok)
            &&& ops[3] == output::field_str("session_id"@, session)
            &&& ops.len() == 7 + blast_rows_json(rows, 12).len()
            &&& ops.skip(5).take(blast_rows_json(rows, 12).len() as int) == blast_rows_json(rows, 12)
            &&& blast_said(session, events) == "blast session "@ + session + " — "@ + text::dec(events as int)
                + " event(s) across 12 modalities"@
        }),
{
    let rows = blast_table(endpoints, count);
    let ops = blast_document(events, blast_succeeded(endpoints, count), session, rows);
    assert(rows.len() == 12);
    assert(ops.skip(5).take(blast_rows_json(rows, 12).len() as int) =~= blast_rows_json(rows, 12));
}

/// The rows of a blast are written one behind the other.
pub proof fn blast_rows_are_written_in_order(rows: Seq<BlastRowView>, n: int, i: int)
    requires
        0 <= i < n <= rows.len(),
    ensures
        blast_rows_json(rows, n).len() == 8 * n,
        blast_rows_json(rows, n).subrange(8 * i, 8 * i + 8) == blast_row_json(rows[i]),
    decreases n,
{
    let all = blast_rows_json(rows, n);
    if n > 1 {
        blast_rows_are_written_in_order(
            rows,
            n - 1,
            if i < n - 1 {
                i
            } else {
                n - 2
            },
        );
        let before = blast_rows_json(rows, n - 1);
        if i < n - 1 {
            assert(all.subrange(8 * i, 8 * i + 8) =~= before.subrange(8 * i, 8 * i + 8));
        } else {
            assert(all.subrange(8 * i, 8 * i + 8) =~= blast_row_json(rows[i]));
        }
    } else {
        assert(blast_rows_json(rows, 0) =~= Seq::empty());
        assert(all.subrange(8 * i, 8 * i + 8) =~= blast_row_json(rows[i]));
    }
}

/// The `telemetry` namespace.
pub open spec fn telemetry_command() -> CommandView {
    cli::top("telemetry"@, "Emit model-free telemetry through the real control-plane pipeline"@)
        .require_subcommand(1, 1)
}

/// The `telemetry emit` command.
pub open spec fn telemetry_emit_command() -> CommandView {
    cli::command("telemetry"@, "emit"@, "Track N events of one modality, flush to /api/v2/sdk/telemetry/{modality} and report the backend's accounting. Production runs the auth handshake first; development is keyless. Exits non-zero when any POST fails."@)
        .option(
            cli::opt(
                "--modality"@,
                ValueType::Text,
                "Telemetry modality"@,
            ).required().check(ValidatorView::IsMember(Seq::new(modality_table().len(), |i: int| modality_table()[i].0))),
        )
        .option(
            cli::opt(
                "--event-type"@,
                ValueType::Text,
                "Event type string (default: the modality's terminal event, e.g. llm.generation.completed)"@,
            ),
        )
        .option(
            cli::opt(
                "--count"@,
                ValueType::Int,
                "Number of events to emit (default 1)"@,
            ).check(ValidatorView::PositiveNumber),
        )
        .option(
            cli::opt(
                "--session-id"@,
                ValueType::Text,
                "Session id attached to every event (default: fresh UUID)"@,
            ),
        )
        .option(cli::opt("--processing-ms"@, ValueType::Double, "processing_time_ms metric for every event"@))
        .option(cli::opt("--input-tokens"@, ValueType::Int, "input_tokens metric (llm/vlm modalities)"@))
        .option(cli::opt("--output-tokens"@, ValueType::Int, "output_tokens metric (llm/vlm modalities)"@))
        .option(cli::opt("--audio-duration-ms"@, ValueType::Double, "audio_duration_ms metric (stt modality)"@))
        .action(Action::TelemetryEmit)
}

/// The `telemetry blast` command.
pub open spec fn telemetry_blast_command() -> CommandView {
    cli::command("telemetry"@, "blast"@, "Emit --count events of EVERY modality (all 12) in one run, flush, and print a per-modality result table parsed from the backend's batch responses. Emits one event of every modality."@)
        .option(
            cli::opt(
                "--count"@,
                ValueType::Int,
                "Events per modality (default 1)"@,
            ).check(ValidatorView::PositiveNumber),
        )
        .option(
            cli::opt(
                "--session-id"@,
                ValueType::Text,
                "Session id attached to every event (default: fresh UUID)"@,
            ),
        )
        .option(cli::opt("--processing-ms"@, ValueType::Double, "processing_time_ms metric for every event"@))
        .option(cli::opt("--input-tokens"@, ValueType::Int, "input_tokens metric (llm/vlm modalities)"@))
        .option(cli::opt("--output-tokens"@, ValueType::Int, "output_tokens metric (llm/vlm modalities)"@))
        .action(Action::TelemetryBlast)
}

/// Registers `telemetry` and its verbs.
pub fn register_telemetry(app: &mut App)
    ensures
        final(app)@ == old(app)@.push(telemetry_command()).push(telemetry_emit_command()).push(telemetry_blast_command()),
{
    let mut cmd = Command::top("telemetry", "Emit model-free telemetry through the real control-plane pipeline");
    cmd.require_subcommand(1, 1);
    app.add(cmd);
    let mut emit_cmd = Command::new("telemetry", "emit", "Track N events of one modality, flush to /api/v2/sdk/telemetry/{modality} and report the backend's accounting. Production runs the auth handshake first; development is keyless. Exits non-zero when any POST fails.");
    emit_cmd.add_option(
        Opt::value(
            "--modality",
            ValueType::Text,
            "Telemetry modality",
        ).required().check(Validator::IsMember(modality_names())),
    );
    emit_cmd.add_option(
        Opt::value(
            "--event-type",
            ValueType::Text,
            "Event type string (default: the modality's terminal event, e.g. llm.generation.completed)",
        ),
    );
    emit_cmd.add_option(
        Opt::value(
            "--count",
            ValueType::Int,
            "Number of events to emit (default 1)",
        ).check(Validator::PositiveNumber),
    );
    emit_cmd.add_option(
        Opt::value("--session-id", ValueType::Text, "Session id attached to every event (default: fresh UUID)"),
    );
    emit_cmd.add_option(
        Opt::value("--processing-ms", ValueType::Double, "processing_time_ms metric for every event"),
    );
    emit_cmd.add_option(
        Opt::value("--input-tokens", ValueType::Int, "input_tokens metric (llm/vlm modalities)"),
    );
    emit_cmd.add_option(
        Opt::value("--output-tokens", ValueType::Int, "output_tokens metric (llm/vlm modalities)"),
    );
    emit_cmd.add_option(
        Opt::value("--audio-duration-ms", ValueType::Double, "audio_duration_ms metric (stt modality)"),
    );
    emit_cmd.callback(Action::TelemetryEmit);
    app.add(emit_cmd);
    let mut blast_cmd = Command::new("telemetry", "blast", "Emit --count events of EVERY modality (all 12) in one run, flush, and print a per-modality result table parsed from the backend's batch responses. Emits one event of every modality.");
    blast_cmd.add_option(
        Opt::value(
            "--count",
            ValueType::Int,
            "Events per modality (default 1)",
        ).check(Validator::PositiveNumber),
    );
    blast_cmd.add_option(
        Opt::value("--session-id", ValueType::Text, "Session id attached to every event (default: fresh UUID)"),
    );
    blast_cmd.add_option(
        Opt::value("--processing-ms", ValueType::Double, "processing_time_ms metric for every event"),
    );
    blast_cmd.add_option(
        Opt::value("--input-tokens", ValueType::Int, "input_tokens metric (llm/vlm modalities)"),
    );
    blast_cmd.add_option(
        Opt::value("--output-tokens", ValueType::Int, "output_tokens metric (llm/vlm modalities)"),
    );
    blast_cmd.callback(Action::TelemetryBlast);
    app.add(blast_cmd);
}

} // verus!
