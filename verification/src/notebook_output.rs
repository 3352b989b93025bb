//! Read-only rendering rules for a notebook code cell's saved outputs.
//!
//! This is a display-only projection: what is shown can be truncated, omitted
//! or reformatted without changing the notebook that is written back on save.
//! Supported outputs: `stream` text and `text/plain` results (preformatted
//! text), `error` tracebacks (text with ANSI escape codes stripped), and
//! `image/png` / `image/jpeg` payloads (decoded bytes, or a short placeholder
//! when the payload is invalid or too large). Everything else is skipped.
use vstd::prelude::*;
use vstd::utf8::encode_utf8;
use base64::prelude::BASE64_STANDARD;
use base64::Engine;
use crate::json::{as_str, get, str_eq, value_as_str, value_get, JsonValue};
use crate::text::{chars_of, decimal, decimal_string, is_whitespace_char, is_whitespace_exec, push_char, string_from_chars};

verus! {

/// The escape character that starts an ANSI escape sequence.
pub open spec fn esc() -> char {
    '\u{1b}'
}

/// Index just past the final byte (0x40..=0x7e) of a CSI sequence whose
/// parameters start at `i`, or the end of `s` when there is none.
pub open spec fn csi_end(s: Seq<char>, i: int) -> int
    decreases s.len() - i,
{
    if i >= s.len() {
        s.len() as int
    } else if 0x40 <= (s[i] as u32) <= 0x7e {
        i + 1
    } else {
        csi_end(s, i + 1)
    }
}

/// Index just past the terminator of an OSC sequence whose payload starts at
/// `i`: BEL, or ESC optionally followed by `\`; the end of `s` when there is none.
pub open spec fn osc_end(s: Seq<char>, i: int) -> int
    decreases s.len() - i,
{
    if i >= s.len() {
        s.len() as int
    } else if s[i] == '\u{07}' {
        i + 1
    } else if s[i] == esc() {
        if i + 1 < s.len() && s[i + 1] == '\\' {
            i + 2
        } else {
            i + 1
        }
    } else {
        osc_end(s, i + 1)
    }
}

/// `s` with ANSI escape sequences removed: CSI (`ESC [` ... final byte), OSC
/// (`ESC ]` ... BEL or `ESC \`), and any other `ESC` with the character after it.
pub open spec fn strip_ansi_chars(s: Seq<char>) -> Seq<char>
    decreases s.len(),
{
    if s.len() == 0 {
        Seq::empty()
    } else if s[0] != esc() {
        seq![s[0]] + strip_ansi_chars(s.drop_first())
    } else if s.len() == 1 {
        Seq::empty()
    } else if s[1] == '[' {
        proof {
            lemma_csi_end_bounds(s, 2);
        }
        strip_ansi_chars(s.skip(csi_end(s, 2)))
    } else if s[1] == ']' {
        proof {
            lemma_osc_end_bounds(s, 2);
        }
        strip_ansi_chars(s.skip(osc_end(s, 2)))
    } else {
        strip_ansi_chars(s.skip(2))
    }
}

pub proof fn lemma_csi_end_bounds(s: Seq<char>, i: int)
    requires
        0 <= i <= s.len(),
    ensures
        i <= csi_end(s, i) <= s.len(),
        csi_end(s, i) >= i + 1 || csi_end(s, i) == s.len(),
    decreases s.len() - i,
{
    if i < s.len() && !(0x40 <= (s[i] as u32) <= 0x7e) {
        lemma_csi_end_bounds(s, i + 1);
    }
}

pub proof fn lemma_osc_end_bounds(s: Seq<char>, i: int)
    requires
        0 <= i <= s.len(),
    ensures
        i <= osc_end(s, i) <= s.len(),
    decreases s.len() - i,
{
    if i < s.len() && s[i] != '\u{07}' && s[i] != esc() {
        lemma_osc_end_bounds(s, i + 1);
    }
}

fn csi_end_exec(s: &Vec<char>, i: usize) -> (end: usize)
    requires
        i <= s@.len(),
    ensures
        end as int == csi_end(s@, i as int),
{
    let n = s.len();
    let mut j = i;
    while j < n
        invariant
            n == s@.len(),
            i <= j <= n,
            csi_end(s@, i as int) == csi_end(s@, j as int),
        decreases n - j,
    {
        let c = s[j] as u32;
        if 0x40 <= c && c <= 0x7e {
            return j + 1;
        }
        j = j + 1;
    }
    j
}

fn osc_end_exec(s: &Vec<char>, i: usize) -> (end: usize)
    requires
        i <= s@.len(),
    ensures
        end as int == osc_end(s@, i as int),
{
    let n = s.len();
    let mut j = i;
    while j < n
        invariant
            n == s@.len(),
            i <= j <= n,
            osc_end(s@, i as int) == osc_end(s@, j as int),
        decreases n - j,
    {
        if s[j] == '\u{07}' {
            return j + 1;
        }
        if s[j] == '\u{1b}' {
            if j + 1 < n && s[j + 1] == '\\' {
                return j + 2;
            }
            return j + 1;
        }
        j = j + 1;
    }
    j
}

/// Removes ANSI escape sequences (used by tracebacks for color) from `input`,
/// leaving only the visible text; the result is a subsequence of `input`.
pub fn strip_ansi(input: &str) -> (out: String)
    ensures
        out@ == strip_ansi_chars(input@),
        is_subsequence(out@, input@),
        out@.len() <= input@.len(),
{
    proof {
        lemma_strip_ansi_is_subsequence(input@);
    }
    let s = chars_of(input);
    let n = s.len();
    let mut out: Vec<char> = Vec::new();
    let mut i: usize = 0;
    assert(s@.skip(0) =~= s@);
    while i < n
        invariant
            n == s@.len(),
            s@ == input@,
            i <= n,
            strip_ansi_chars(s@) == out@ + strip_ansi_chars(s@.skip(i as int)),
        decreases n - i,
    {
        let ghost rest = s@.skip(i as int);
        let c = s[i];
        if c != '\u{1b}' {
            out.push(c);
            assert(rest.drop_first() =~= s@.skip(i + 1));
            assert(out@ + strip_ansi_chars(s@.skip(i + 1)) =~= (out@.drop_last() + seq![c]) + strip_ansi_chars(rest.drop_first()));
            i = i + 1;
        } else if i + 1 == n {
            assert(rest.len() == 1);
            assert(s@.skip(n as int) =~= Seq::<char>::empty());
            i = n;
        } else if s[i + 1] == '[' {
            let end = csi_end_exec(&s, i + 2);
            proof {
                lemma_csi_shift(s@, i as int, 2);
                lemma_csi_end_bounds(s@, i + 2);
                assert(rest.skip(csi_end(rest, 2)) =~= s@.skip(end as int));
            }
            i = end;
        } else if s[i + 1] == ']' {
            let end = osc_end_exec(&s, i + 2);
            proof {
                lemma_osc_shift(s@, i as int, 2);
                lemma_osc_end_bounds(s@, i + 2);
                assert(rest.skip(osc_end(rest, 2)) =~= s@.skip(end as int));
            }
            i = end;
        } else {
            assert(rest.skip(2) =~= s@.skip(i + 2));
            i = i + 2;
        }
    }
    assert(s@.skip(n as int) =~= Seq::<char>::empty());
    assert(out@ + Seq::<char>::empty() =~= out@);
    string_from_chars(&out)
}

proof fn lemma_csi_shift(s: Seq<char>, i: int, k: int)
    requires
        0 <= i,
        0 <= k,
        i + k <= s.len(),
    ensures
        csi_end(s.skip(i), k) + i == csi_end(s, i + k),
    decreases s.len() - i - k,
{
    if i + k < s.len() && !(0x40 <= (s[i + k] as u32) <= 0x7e) {
        lemma_csi_shift(s, i, k + 1);
    }
}

proof fn lemma_osc_shift(s: Seq<char>, i: int, k: int)
    requires
        0 <= i,
        0 <= k,
        i + k <= s.len(),
    ensures
        osc_end(s.skip(i), k) + i == osc_end(s, i + k),
    decreases s.len() - i - k,
{
    if i + k < s.len() && s[i + k] != '\u{07}' && s[i + k] != esc() {
        lemma_osc_shift(s, i, k + 1);
    }
}

/// Text without an escape character is left untouched.
pub proof fn lemma_strip_ansi_plain_text_unchanged(s: Seq<char>)
    requires
        !s.contains(esc()),
    ensures
        strip_ansi_chars(s) == s,
    decreases s.len(),
{
    if s.len() > 0 {
        assert(!s.drop_first().contains(esc())) by {
            if s.drop_first().contains(esc()) {
                let k = choose|k: int| 0 <= k < s.drop_first().len() && s.drop_first()[k] == esc();
                assert(s[k + 1] == esc());
            }
        }
        assert(s[0] != esc()) by {
            if s[0] == esc() {
                assert(s.contains(esc()));
            }
        }
        lemma_strip_ansi_plain_text_unchanged(s.drop_first());
        assert(s =~= seq![s[0]] + s.drop_first());
    }
}

/// Stripped text never contains an escape character.
pub proof fn lemma_strip_ansi_removes_every_escape(s: Seq<char>)
    ensures
        !strip_ansi_chars(s).contains(esc()),
    decreases s.len(),
{
    if s.len() == 0 {
    } else if s[0] != esc() {
        lemma_strip_ansi_removes_every_escape(s.drop_first());
        let r = strip_ansi_chars(s.drop_first());
        assert forall|k: int| 0 <= k < (seq![s[0]] + r).len() implies (seq![s[0]] + r)[k] != esc() by {
            if k > 0 {
                assert((seq![s[0]] + r)[k] == r[k - 1]);
                assert(!r.contains(esc()));
            }
        }
    } else if s.len() == 1 {
    } else if s[1] == '[' {
        lemma_csi_end_bounds(s, 2);
        lemma_strip_ansi_removes_every_escape(s.skip(csi_end(s, 2)));
    } else if s[1] == ']' {
        lemma_osc_end_bounds(s, 2);
        lemma_strip_ansi_removes_every_escape(s.skip(osc_end(s, 2)));
    } else {
        lemma_strip_ansi_removes_every_escape(s.skip(2));
    }
}

/// `a` is a subsequence of `b`: `a` is what remains of `b` after some of
/// its characters are left out, the rest kept in order.
pub open spec fn is_subsequence(a: Seq<char>, b: Seq<char>) -> bool
    decreases b.len(),
{
    if b.len() == 0 {
        a.len() == 0
    } else {
        ||| is_subsequence(a, b.drop_first())
        ||| (a.len() > 0 && a[0] == b[0] && is_subsequence(a.drop_first(), b.drop_first()))
    }
}

/// A subsequence is no longer than the sequence it is taken from.
pub proof fn lemma_subsequence_len(a: Seq<char>, b: Seq<char>)
    requires
        is_subsequence(a, b),
    ensures
        a.len() <= b.len(),
    decreases b.len(),
{
    if b.len() > 0 {
        if is_subsequence(a, b.drop_first()) {
            lemma_subsequence_len(a, b.drop_first());
        } else {
            lemma_subsequence_len(a.drop_first(), b.drop_first());
        }
    }
}

proof fn lemma_empty_subsequence(b: Seq<char>)
    ensures
        is_subsequence(Seq::<char>::empty(), b),
    decreases b.len(),
{
    if b.len() > 0 {
        lemma_empty_subsequence(b.drop_first());
    }
}

proof fn lemma_subsequence_of_suffix(a: Seq<char>, b: Seq<char>, k: int)
    requires
        0 <= k <= b.len(),
        is_subsequence(a, b.skip(k)),
    ensures
        is_subsequence(a, b),
    decreases k,
{
    if k == 0 {
        assert(b.skip(0) =~= b);
    } else {
        assert(b.drop_first().skip(k - 1) =~= b.skip(k));
        lemma_subsequence_of_suffix(a, b.drop_first(), k - 1);
    }
}

/// Stripping only leaves characters out: the stripped text is a
/// subsequence of the input, so it is never longer.
pub proof fn lemma_strip_ansi_is_subsequence(s: Seq<char>)
    ensures
        is_subsequence(strip_ansi_chars(s), s),
        strip_ansi_chars(s).len() <= s.len(),
    decreases s.len(),
{
    if s.len() == 0 {
    } else if s[0] != esc() {
        lemma_strip_ansi_is_subsequence(s.drop_first());
        let out = strip_ansi_chars(s);
        assert(out == seq![s[0]] + strip_ansi_chars(s.drop_first()));
        assert(out.drop_first() =~= strip_ansi_chars(s.drop_first()));
        assert(out[0] == s[0]);
    } else if s.len() == 1 {
        lemma_empty_subsequence(s);
    } else if s[1] == '[' {
        lemma_csi_end_bounds(s, 2);
        lemma_strip_ansi_is_subsequence(s.skip(csi_end(s, 2)));
        lemma_subsequence_of_suffix(strip_ansi_chars(s), s, csi_end(s, 2));
    } else if s[1] == ']' {
        lemma_osc_end_bounds(s, 2);
        lemma_strip_ansi_is_subsequence(s.skip(osc_end(s, 2)));
        lemma_subsequence_of_suffix(strip_ansi_chars(s), s, osc_end(s, 2));
    } else {
        lemma_strip_ansi_is_subsequence(s.skip(2));
        lemma_subsequence_of_suffix(strip_ansi_chars(s), s, 2);
    }
    lemma_subsequence_len(strip_ansi_chars(s), s);
}

/// Stripping twice is the same as stripping once.
pub proof fn lemma_strip_ansi_idempotent(s: Seq<char>)
    ensures
        strip_ansi_chars(strip_ansi_chars(s)) == strip_ansi_chars(s),
{
    lemma_strip_ansi_removes_every_escape(s);
    lemma_strip_ansi_plain_text_unchanged(strip_ansi_chars(s));
}

// ---------------------------------------------------------------------------
// Output items
// ---------------------------------------------------------------------------

/// Maximum number of bytes of a single text output that is displayed.
pub const MAX_TEXT_OUTPUT_BYTES: usize = 100_000;

/// Maximum number of decoded image bytes that are displayed inline.
pub const MAX_IMAGE_BYTES: usize = 8_388_608;

/// A single displayable output derived from one entry of a cell's `outputs`.
#[derive(Debug, Clone, PartialEq, Eq)]
pub enum OutputItem {
    /// Preformatted text (stream, `text/plain` or an error traceback).
    Text(String),
    /// A decoded raster image (`image/png` or `image/jpeg`).
    Image(Vec<u8>),
    /// A short message shown in place of an image that is not displayed.
    Placeholder(String),
}

/// The plain value of an [`OutputItem`].
pub enum OutputSpec {
    Text(Seq<char>),
    Image(Seq<u8>),
    Placeholder(Seq<char>),
}

impl View for OutputItem {
    type V = OutputSpec;

    open spec fn view(&self) -> OutputSpec {
        match self {
            OutputItem::Text(t) => OutputSpec::Text(t@),
            OutputItem::Image(b) => OutputSpec::Image(b@),
            OutputItem::Placeholder(t) => OutputSpec::Placeholder(t@),
        }
    }
}

/// The plain values of a sequence of output items.
pub open spec fn output_views(items: Seq<OutputItem>) -> Seq<OutputSpec> {
    items.map_values(|o: OutputItem| o@)
}

/// Concatenation of the string elements of `items`, other elements skipped.
pub open spec fn strings_concat(items: Seq<JsonValue>) -> Seq<char>
    decreases items.len(),
{
    if items.len() == 0 {
        Seq::empty()
    } else {
        strings_concat(items.drop_last()) + match items.last() {
            JsonValue::String(s) => s@,
            _ => Seq::empty(),
        }
    }
}

/// An nbformat string-or-list field collapsed into one text: a string as is,
/// a list as the concatenation of its strings; `None` for anything else.
pub open spec fn string_or_array(value: Option<JsonValue>) -> Option<Seq<char>> {
    match value {
        Some(JsonValue::String(s)) => Some(s@),
        Some(JsonValue::Array(items)) => Some(strings_concat(items@)),
        _ => None,
    }
}

/// A string field of an object, or the empty text when absent or not a string.
pub open spec fn str_field_or_empty(obj: JsonValue, key: Seq<char>) -> Seq<char> {
    match value_as_str(value_get(obj, key)) {
        Some(s) => s,
        None => Seq::empty(),
    }
}

/// One-line summary of an `error` output without a traceback: `ename: evalue`,
/// or whichever of the two is non-empty.
pub open spec fn error_summary(obj: JsonValue) -> Seq<char> {
    let ename = str_field_or_empty(obj, "ename"@);
    let evalue = str_field_or_empty(obj, "evalue"@);
    if ename.len() == 0 && evalue.len() == 0 {
        Seq::empty()
    } else if evalue.len() == 0 {
        ename
    } else if ename.len() == 0 {
        evalue
    } else {
        ename + ": "@ + evalue
    }
}

/// Number of bytes in the UTF-8 encoding of `c`.
pub open spec fn char_utf8_len(c: char) -> nat {
    let v = c as u32;
    if v <= 0x7f {
        1
    } else if v <= 0x7ff {
        2
    } else if v <= 0xffff {
        3
    } else {
        4
    }
}

/// Number of leading characters of `t` whose UTF-8 encoding fits in `budget` bytes.
pub open spec fn chars_within(t: Seq<char>, budget: int) -> nat
    decreases t.len(),
{
    if t.len() == 0 {
        0
    } else if char_utf8_len(t[0]) <= budget {
        1 + chars_within(t.drop_first(), budget - char_utf8_len(t[0]))
    } else {
        0
    }
}

/// The marker appended to text cut for display.
pub open spec fn truncation_marker() -> Seq<char> {
    "\n… [output truncated for display]"@
}

/// Text capped at [`MAX_TEXT_OUTPUT_BYTES`] bytes: unchanged when it fits,
/// otherwise its longest prefix of whole characters that fits, followed by
/// the truncation marker.
pub open spec fn truncated_for_display(t: Seq<char>) -> Seq<char> {
    let k = chars_within(t, MAX_TEXT_OUTPUT_BYTES as int);
    if k == t.len() {
        t
    } else {
        t.take(k as int) + truncation_marker()
    }
}

/// `s` with every white-space character removed.
pub open spec fn without_whitespace(s: Seq<char>) -> Seq<char>
    decreases s.len(),
{
    if s.len() == 0 {
        Seq::empty()
    } else if is_whitespace_char(s.last()) {
        without_whitespace(s.drop_last())
    } else {
        without_whitespace(s.drop_last()).push(s.last())
    }
}

/// The placeholder shown for an image omitted because of its size.
pub open spec fn omitted_image_message(kb: nat) -> Seq<char> {
    "[image output omitted for display: "@ + decimal(kb) + " KB]"@
}

/// The result of standard-alphabet, padded base64 decoding of `input`
/// (`None` when the input is not valid base64).
pub uninterp spec fn base64_standard_decode(input: Seq<u8>) -> Option<Seq<u8>>;

/// Decodes `input` with the `base64` crate's `BASE64_STANDARD` engine
/// (`Engine::decode`): its result, or `None` on a decode error. Named, not
/// spelled out: the contract says only that the result is that function of the input.
#[verifier::external_body]
fn decode_base64_standard(input: &[u8]) -> (decoded: Option<Vec<u8>>)
    ensures
        match decoded {
            Some(bytes) => base64_standard_decode(input@) == Some(bytes@),
            None => base64_standard_decode(input@) is None,
        },
{
    BASE64_STANDARD.decode(input).ok()
}

/// The placeholder shown for an image omitted because of its size.
fn omitted_image_message_exec(kb: usize) -> (message: String)
    ensures
        message@ == omitted_image_message(kb as nat),
{
    let mut message = str_owned("[image output omitted for display: ");
    let digits = decimal_string(kb as u64);
    message.append(digits.as_str());
    message.append(" KB]");
    message
}

/// The item shown for a decoded image payload: the bytes when they fit the
/// display cap, a size placeholder when they do not, and a short message when
/// the payload was not valid base64.
pub open spec fn decoded_image_item(decoded: Option<Seq<u8>>) -> OutputSpec {
    match decoded {
        Some(bytes) => if bytes.len() > MAX_IMAGE_BYTES {
            OutputSpec::Placeholder(omitted_image_message(bytes.len() / 1024))
        } else {
            OutputSpec::Image(bytes)
        },
        None => OutputSpec::Placeholder("invalid image data"@),
    }
}

/// The length in bytes of the UTF-8 text `s`, as `str::len` reports it.
pub open spec fn byte_len(s: Seq<char>) -> usize {
    encode_utf8(s).len() as usize
}

/// The byte size estimated for the decoded form of a base64 text: three
/// bytes for every four bytes of text.
pub open spec fn estimated_decoded_size(encoded: Seq<char>) -> nat {
    (byte_len(encoded) / 4 * 3) as nat
}

/// The item shown for a base64 image payload. A payload whose estimated
/// decoded size exceeds the cap is replaced by a placeholder without being
/// decoded; otherwise white space is removed and the rest decoded.
pub open spec fn encoded_image_item(encoded: Seq<char>) -> OutputSpec {
    let estimate = estimated_decoded_size(encoded);
    if estimate > MAX_IMAGE_BYTES {
        OutputSpec::Placeholder(omitted_image_message(estimate / 1024))
    } else {
        decoded_image_item(base64_standard_decode(encode_utf8(without_whitespace(encoded))))
    }
}

/// The item for the first image MIME type (`image/png`, then `image/jpeg`)
/// whose payload is a string or list in the `data` object.
pub open spec fn image_item(data: JsonValue) -> Option<OutputSpec> {
    match string_or_array(value_get(data, "image/png"@)) {
        Some(e) => Some(encoded_image_item(e)),
        None => match string_or_array(value_get(data, "image/jpeg"@)) {
            Some(e) => Some(encoded_image_item(e)),
            None => None,
        },
    }
}

/// The items one saved output contributes.
pub open spec fn classify_output(output: JsonValue) -> Seq<OutputSpec> {
    let ty = value_as_str(value_get(output, "output_type"@));
    if !(output is Object) {
        Seq::empty()
    } else if ty == Some("stream"@) {
        match string_or_array(value_get(output, "text"@)) {
            Some(t) => seq![OutputSpec::Text(truncated_for_display(t))],
            None => Seq::empty(),
        }
    } else if ty == Some("error"@) {
        let traceback = match string_or_array(value_get(output, "traceback"@)) {
            Some(t) => t,
            None => error_summary(output),
        };
        seq![OutputSpec::Text(truncated_for_display(strip_ansi_chars(traceback)))]
    } else if ty == Some("execute_result"@) || ty == Some("display_data"@) {
        match value_get(output, "data"@) {
            Some(data) => if data is Object {
                match image_item(data) {
                    Some(item) => seq![item],
                    None => match string_or_array(value_get(data, "text/plain"@)) {
                        Some(t) => seq![OutputSpec::Text(truncated_for_display(t))],
                        None => Seq::empty(),
                    },
                }
            } else {
                Seq::empty()
            },
            None => Seq::empty(),
        }
    } else {
        Seq::empty()
    }
}

/// A `display_data` output whose data has no PNG or JPEG image but has a
/// `text/plain` representation renders as exactly that text, truncated for
/// display, the same single item an `execute_result` with that data gives.
pub proof fn lemma_display_data_falls_back_to_text_plain(output: JsonValue, result: JsonValue, data: JsonValue, text: Seq<char>)
    requires
        output is Object,
        result is Object,
        value_as_str(value_get(output, "output_type"@)) == Some("display_data"@),
        value_as_str(value_get(result, "output_type"@)) == Some("execute_result"@),
        value_get(output, "data"@) == Some(data),
        value_get(result, "data"@) == Some(data),
        data is Object,
        string_or_array(value_get(data, "image/png"@)) is None,
        string_or_array(value_get(data, "image/jpeg"@)) is None,
        string_or_array(value_get(data, "text/plain"@)) == Some(text),
    ensures
        classify_output(output) == seq![OutputSpec::Text(truncated_for_display(text))],
        classify_output(result) == seq![OutputSpec::Text(truncated_for_display(text))],
{
    reveal_strlit("display_data");
    reveal_strlit("execute_result");
    reveal_strlit("stream");
    reveal_strlit("error");
    assert("display_data"@[0] == 'd' && "execute_result"@[0] == 'e' && "stream"@[0] == 's');
    assert("display_data"@.len() != "error"@.len() && "execute_result"@.len() != "error"@.len());
    assert("display_data"@ != "stream"@ && "display_data"@ != "error"@);
    assert("execute_result"@ != "stream"@ && "execute_result"@ != "error"@);
}

/// The items a cell's saved outputs render as, in order.
pub open spec fn classify_all(outputs: Seq<JsonValue>) -> Seq<OutputSpec>
    decreases outputs.len(),
{
    if outputs.len() == 0 {
        Seq::empty()
    } else {
        classify_all(outputs.drop_last()) + classify_output(outputs.last())
    }
}

fn str_owned(s: &str) -> (out: String)
    ensures
        out@ == s@,
{
    s.to_owned()
}

/// Collapses an nbformat string-or-list field into one `String`.
fn string_or_array_exec(value: Option<&JsonValue>) -> (text: Option<String>)
    ensures
        match text {
            Some(t) => string_or_array(match value { Some(v) => Some(*v), None => None }) == Some(t@),
            None => string_or_array(match value { Some(v) => Some(*v), None => None }) is None,
        },
{
    match value {
        Some(JsonValue::String(s)) => Some(s.clone()),
        Some(JsonValue::Array(items)) => {
            let mut out = String::new();
            let n = items.len();
            let mut i: usize = 0;
            while i < n
                invariant
                    n == items@.len(),
                    i <= n,
                    out@ == strings_concat(items@.take(i as int)),
                decreases n - i,
            {
                assert(items@.take(i + 1).drop_last() =~= items@.take(i as int));
                if let JsonValue::String(s) = &items[i] {
                    out.append(s.as_str());
                } else {
                    assert(out@ =~= out@ + Seq::<char>::empty());
                }
                i = i + 1;
            }
            assert(items@.take(n as int) =~= items@);
            Some(out)
        },
        _ => None,
    }
}

/// A string field of an object, or the empty string.
fn str_field_or_empty_exec(obj: &JsonValue, key: &str) -> (text: String)
    ensures
        text@ == str_field_or_empty(*obj, key@),
{
    match as_str(get(obj, key)) {
        Some(s) => str_owned(s),
        None => String::new(),
    }
}

/// Fallback one-line summary for an `error` output without a traceback.
fn error_summary_exec(obj: &JsonValue) -> (summary: String)
    ensures
        summary@ == error_summary(*obj),
{
    let ename = str_field_or_empty_exec(obj, "ename");
    let evalue = str_field_or_empty_exec(obj, "evalue");
    let ename_empty = ename.as_str().unicode_len() == 0;
    let evalue_empty = evalue.as_str().unicode_len() == 0;
    if ename_empty && evalue_empty {
        String::new()
    } else if evalue_empty {
        ename
    } else if ename_empty {
        evalue
    } else {
        let mut out = ename;
        out.append(": ");
        out.append(evalue.as_str());
        out
    }
}

/// Number of bytes in the UTF-8 encoding of `c`.
fn char_utf8_len_exec(c: char) -> (len: usize)
    ensures
        len as nat == char_utf8_len(c),
{
    let v = c as u32;
    if v <= 0x7f {
        1
    } else if v <= 0x7ff {
        2
    } else if v <= 0xffff {
        3
    } else {
        4
    }
}

/// Visually caps a text output at [`MAX_TEXT_OUTPUT_BYTES`] bytes, cutting at a
/// character boundary and appending a marker when it had to be cut.
pub fn truncate_for_display(text: String) -> (shown: String)
    ensures
        shown@ == truncated_for_display(text@),
{
    let chars = chars_of(text.as_str());
    let n = chars.len();
    let mut budget: usize = MAX_TEXT_OUTPUT_BYTES;
    let mut k: usize = 0;
    assert(chars@.skip(0) =~= chars@);
    while k < n && char_utf8_len_exec(chars[k]) <= budget
        invariant
            n == chars@.len(),
            chars@ == text@,
            k <= n,
            chars_within(text@, MAX_TEXT_OUTPUT_BYTES as int) == k + chars_within(chars@.skip(k as int), budget as int),
        decreases n - k,
    {
        let len = char_utf8_len_exec(chars[k]);
        assert(chars@.skip(k as int).drop_first() =~= chars@.skip(k + 1));
        budget = budget - len;
        k = k + 1;
    }
    proof {
        if k < n {
            assert(chars@.skip(k as int)[0] == chars@[k as int]);
        } else {
            assert(chars@.skip(n as int).len() == 0);
        }
    }
    if k == n {
        return text;
    }
    let mut prefix: Vec<char> = Vec::new();
    let mut i: usize = 0;
    while i < k
        invariant
            k <= n,
            n == chars@.len(),
            i <= k,
            prefix@ == chars@.take(i as int),
        decreases k - i,
    {
        prefix.push(chars[i]);
        assert(chars@.take(i + 1) =~= chars@.take(i as int).push(chars@[i as int]));
        i = i + 1;
    }
    let mut shown = string_from_chars(&prefix);
    shown.append("\n… [output truncated for display]");
    shown
}

/// `s` with every white-space character removed.
fn remove_whitespace(s: &str) -> (out: String)
    ensures
        out@ == without_whitespace(s@),
{
    let chars = chars_of(s);
    let n = chars.len();
    let mut out = String::new();
    let mut i: usize = 0;
    while i < n
        invariant
            n == chars@.len(),
            chars@ == s@,
            i <= n,
            out@ == without_whitespace(chars@.take(i as int)),
        decreases n - i,
    {
        assert(chars@.take(i + 1).drop_last() =~= chars@.take(i as int));
        if !is_whitespace_exec(chars[i]) {
            push_char(&mut out, chars[i]);
        }
        i = i + 1;
    }
    assert(chars@.take(n as int) =~= chars@);
    out
}

/// The item shown for a decoded image payload (`None`: not valid base64).
pub fn image_item_from_decoded(decoded: Option<Vec<u8>>) -> (item: OutputItem)
    ensures
        item@ == decoded_image_item(match decoded { Some(b) => Some(b@), None => None }),
{
    match decoded {
        Some(bytes) => {
            if bytes.len() > MAX_IMAGE_BYTES {
                OutputItem::Placeholder(omitted_image_message_exec(bytes.len() / 1024))
            } else {
                OutputItem::Image(bytes)
            }
        },
        None => OutputItem::Placeholder(str_owned("invalid image data")),
    }
}

/// The item shown for a base64 image payload.
fn encoded_image_item_exec(encoded: &String) -> (item: OutputItem)
    ensures
        item@ == encoded_image_item(encoded@),
{
    let estimate = encoded.as_str().len() / 4 * 3;
    if estimate > MAX_IMAGE_BYTES {
        return OutputItem::Placeholder(omitted_image_message_exec(estimate / 1024));
    }
    let cleaned = remove_whitespace(encoded.as_str());
    let decoded = decode_base64_standard(cleaned.as_str().as_bytes());
    image_item_from_decoded(decoded)
}

/// The item for the first supported image MIME type in a `data` object.
fn image_item_exec(data: &JsonValue) -> (item: Option<OutputItem>)
    ensures
        match item {
            Some(i) => image_item(*data) == Some(i@),
            None => image_item(*data) is None,
        },
{
    if let Some(encoded) = string_or_array_exec(get(data, "image/png")) {
        return Some(encoded_image_item_exec(&encoded));
    }
    if let Some(encoded) = string_or_array_exec(get(data, "image/jpeg")) {
        return Some(encoded_image_item_exec(&encoded));
    }
    None
}

/// Whether the optional text equals `expected`.
fn is_some_str(text: Option<&str>, expected: &str) -> (eq: bool)
    ensures
        eq == (match text { Some(t) => Some(t@), None => None::<Seq<char>> } == Some(expected@)),
{
    match text {
        Some(t) => str_eq(t, expected),
        None => false,
    }
}

/// Classifies a code cell's saved `outputs` into the read-only items the view
/// renders. Entries of other types (HTML, LaTeX, widgets, unknown output
/// types) are skipped here; the notebook model keeps them for saving.
pub fn classify_outputs(outputs: &[JsonValue]) -> (items: Vec<OutputItem>)
    ensures
        output_views(items@) == classify_all(outputs@),
{
    let mut items: Vec<OutputItem> = Vec::new();
    let n = outputs.len();
    let mut i: usize = 0;
    while i < n
        invariant
            n == outputs@.len(),
            i <= n,
            output_views(items@) == classify_all(outputs@.take(i as int)),
        decreases n - i,
    {
        let output = &outputs[i];
        let ghost before = output_views(items@);
        assert(outputs@.take(i + 1).drop_last() =~= outputs@.take(i as int));
        assert(outputs@.take(i + 1).last() == *output);
        if let JsonValue::Object(_) = output {
            let ty = as_str(get(output, "output_type"));
            if is_some_str(ty, "stream") {
                if let Some(text) = string_or_array_exec(get(output, "text")) {
                    items.push(OutputItem::Text(truncate_for_display(text)));
                    assert(output_views(items@) =~= before + classify_output(*output));
                } else {
                    assert(output_views(items@) =~= before + classify_output(*output));
                }
            } else if is_some_str(ty, "error") {
                let traceback = match string_or_array_exec(get(output, "traceback")) {
                    Some(t) => t,
                    None => error_summary_exec(output),
                };
                items.push(OutputItem::Text(truncate_for_display(strip_ansi(traceback.as_str()))));
                assert(output_views(items@) =~= before + classify_output(*output));
            } else if is_some_str(ty, "execute_result") || is_some_str(ty, "display_data") {
                match get(output, "data") {
                    Some(data) => {
                        if let JsonValue::Object(_) = data {
                            match image_item_exec(data) {
                                Some(item) => {
                                    items.push(item);
                                },
                                None => {
                                    if let Some(text) = string_or_array_exec(get(data, "text/plain")) {
                                        items.push(OutputItem::Text(truncate_for_display(text)));
                                    }
                                },
                            }
                        }
                    },
                    None => {},
                }
                assert(output_views(items@) =~= before + classify_output(*output));
            } else {
                assert(output_views(items@) =~= before + classify_output(*output));
            }
        } else {
            assert(output_views(items@) =~= before + classify_output(*output));
        }
        i = i + 1;
    }
    assert(outputs@.take(n as int) =~= outputs@);
    items
}

} // verus!
