//! Character encoding shenanigans: turn byte buffers of unknown, possibly
//! mislabeled legacy encodings into valid Unicode text, never failing.
//!
//! The pipeline is a three-stage fallback chain. An empty buffer decodes to
//! the empty string at once. Otherwise a statistical detector guesses a
//! charset; a guess below the confidence threshold is discarded for the
//! default legacy Western codepage, whose single-byte decoder cannot fail.
//! Buffers the detector cannot be consulted on at all (escape-coded plain
//! ASCII, which aborts its state machine) skip detection and take the
//! default codepage directly, keeping the pipeline total.
//! The chosen charset is resolved to a concrete decoder which substitutes a
//! replacement marker for invalid sequences; if resolution or decoding fails
//! anyway, the bytes are read as UTF-8 with lossy replacement, which is total.
use vstd::prelude::*;

verus! {

use vstd::utf8::valid_utf8;
use vstd::utf8::decode_utf8;

/// The detector's confidence lies in [0.0, 1.0]. A guess below 0.75 is
/// discarded: on short or mixed buffers a wrong multi-byte guess does more
/// damage than assuming the single most common legacy codepage. Confidence
/// is handled as the IEEE-754 bit pattern of the score; for non-negative
/// finite values the bit patterns order exactly as the values do, so this
/// constant, the bit pattern of 0.75, gates the same guesses the score would.
pub const CONFIDENCE_THRESHOLD_BITS: u32 = 0x3F40_0000;

/// The charset name and confidence bit pattern the statistical detector
/// assigns to a buffer. It depends on the bytes alone.
pub uninterp spec fn detection_of(bytes: Seq<u8>) -> (Seq<char>, u32);

/// The WHATWG encoding label a detector charset name translates to: three
/// detector-specific names are rewritten; every other name is its own label.
pub open spec fn whatwg_label_of(charset: Seq<char>) -> Seq<char> {
    if charset == "CP932"@ {
        "windows-31j"@
    } else if charset == "CP949"@ {
        "windows-949"@
    } else if charset == "MacCyrillic"@ {
        "x-mac-cyrillic"@
    } else {
        charset
    }
}

/// The text a buffer decodes to under the encoding a WHATWG label names,
/// with invalid sequences replaced by a marker, or `None` when the label
/// names no supported encoding or the decode fails outright.
pub uninterp spec fn replace_decoding_of(label: Seq<char>, bytes: Seq<u8>) -> Option<Seq<char>>;

/// The text a buffer yields when read as UTF-8 with every invalid sequence
/// replaced by the replacement character.
pub uninterp spec fn lossy_utf8_of(bytes: Seq<u8>) -> Seq<char>;

/// The charset assumed for a buffer the detector is unsure about: the legacy
/// single-byte Western codepage, which decodes every byte value and so can
/// never itself fail.
pub open spec fn default_charset() -> Seq<char> {
    "iso-8859-1"@
}

/// Whether the detector can be consulted on a buffer. On a buffer that holds
/// the escape byte 0x1B but no byte at or above 0x80 other than 0xA0 — plain
/// ASCII text with terminal escape codes, say — the detector's escape-coded
/// branch can abort instead of returning a guess, so such buffers are kept
/// away from it and decoded under the default charset directly.
pub open spec fn detectable(bytes: Seq<u8>) -> bool {
    (forall|j: int| 0 <= j < bytes.len() ==> bytes[j] != 0x1b) || (exists|j: int|
        0 <= j < bytes.len() && bytes[j] >= 0x80 && bytes[j] != 0xa0)
}

/// The charset the pipeline decodes under: the detector's guess when the
/// detector can run and is confident; otherwise the default.
pub open spec fn chosen_charset(bytes: Seq<u8>) -> Seq<char> {
    if detectable(bytes) && detection_of(bytes).1 >= CONFIDENCE_THRESHOLD_BITS {
        detection_of(bytes).0
    } else {
        default_charset()
    }
}

/// The text the whole pipeline produces for a buffer: empty for empty input;
/// otherwise the replacing decode under the chosen charset, or, where that
/// charset resolves to no decoder or the decode fails, the lossy UTF-8 read.
pub open spec fn decoded(bytes: Seq<u8>) -> Seq<char> {
    if bytes.len() == 0 {
        Seq::empty()
    } else {
        match replace_decoding_of(whatwg_label_of(chosen_charset(bytes)), bytes) {
            Some(text) => text,
            None => lossy_utf8_of(bytes),
        }
    }
}

/// A C-string buffer with its single trailing terminator byte removed; a
/// buffer not ending in the terminator is kept as it is. Interior
/// terminators are not scanned for.
pub open spec fn stripped(bytes: Seq<u8>) -> Seq<u8> {
    if bytes.len() > 0 && bytes.last() == 0 {
        bytes.drop_last()
    } else {
        bytes
    }
}

/// Relies on `chardet::detect`: the guessed charset name and the confidence
/// score are computed from the bytes alone. The score, in [0.0, 1.0], is
/// returned as its IEEE-754 bit pattern (see `CONFIDENCE_THRESHOLD_BITS`).
/// On a buffer that is not `detectable` — escape-coded plain ASCII whose
/// escape sequences no prober fully recognizes — the detector's closing step
/// aborts the process instead of returning, so those buffers are excluded.
#[verifier::external_body]
fn detect_charset(bytes: &Vec<u8>) -> (r: (String, u32))
    requires
        detectable(bytes@),
    ensures
        (r.0@, r.1) == detection_of(bytes@),
{
    let (charset, confidence, _language) = chardet::detect(bytes.as_slice());
    (charset, confidence.to_bits())
}

/// Relies on `chardet::charset2encoding`: it rewrites exactly the three
/// detector-specific charset names to their WHATWG equivalents and returns
/// every other name unchanged, as `whatwg_label_of` states in full.
#[verifier::external_body]
fn charset_to_whatwg_label(charset: &String) -> (r: String)
    ensures
        r@ == whatwg_label_of(charset@),
{
    String::from_str(chardet::charset2encoding(charset))
}

/// Relies on `encoding::label::encoding_from_whatwg_label` and
/// `encoding::types::Encoding::decode` with the replacing error trap: an
/// unrecognized label yields `None`; a recognized one decodes the whole
/// buffer, substituting a marker for invalid sequences. The label
/// "iso-8859-1" names the windows-1252 single-byte codec, whose decoder maps
/// every byte to exactly one character, never fails, and maps ASCII bytes and
/// bytes 0xA0 through 0xFF to the character of the same code point.
#[verifier::external_body]
fn decode_with_label(label: &String, bytes: &Vec<u8>) -> (r: Option<String>)
    ensures
        r is Some <==> replace_decoding_of(label@, bytes@) is Some,
        r is Some ==> r->0@ == replace_decoding_of(label@, bytes@)->0,
        label@ == default_charset() ==> r is Some,
        label@ == default_charset() ==> r->0@.len() == bytes@.len(),
        label@ == default_charset() ==> forall|i: int|
            0 <= i < bytes@.len() && (bytes@[i] <= 0x7f || bytes@[i] >= 0xa0)
                ==> #[trigger] r->0@[i] as u32 == bytes@[i] as u32,
{
    match encoding::label::encoding_from_whatwg_label(label) {
        Some(coder) => match coder.decode(bytes, encoding::DecoderTrap::Replace) {
            Ok(text) => Some(text),
            Err(_) => None,
        },
        None => None,
    }
}

/// Relies on `String::from_utf8_lossy`: a buffer of valid UTF-8 decodes to
/// exactly the text it encodes; elsewhere invalid sequences are replaced by
/// the replacement character, so the call is total.
#[verifier::external_body]
fn bytes_to_utf8_lossy(bytes: &Vec<u8>) -> (r: String)
    ensures
        r@ == lossy_utf8_of(bytes@),
        valid_utf8(bytes@) ==> r@ == decode_utf8(bytes@),
{
    String::from_utf8_lossy(bytes).into_owned()
}

/// The default charset name is none of the names the label translation
/// rewrites, so it is its own WHATWG label.
pub proof fn lemma_default_charset_label()
    ensures
        whatwg_label_of(default_charset()) == default_charset(),
{
    reveal_strlit("iso-8859-1");
    reveal_strlit("CP932");
    reveal_strlit("CP949");
    reveal_strlit("MacCyrillic");
}

/// Get a valid Rust representation of this Windows codepage string data by
/// hook or by crook. Total: every buffer, however malformed, yields valid
/// Unicode text. Whenever the default codepage is chosen — the detector
/// could not run, or was not confident — the result is exactly its replacing
/// decode, which always exists, keeps one character per byte, and reads
/// ASCII and upper-range bytes as the characters of the same code points.
pub fn convert_to_utf8(bytes: Vec<u8>) -> (r: String)
    ensures
        r@ == decoded(bytes@),
        bytes@.len() == 0 ==> r@.len() == 0,
        bytes@.len() > 0 && chosen_charset(bytes@) == default_charset() ==> {
            &&& replace_decoding_of(default_charset(), bytes@) is Some
            &&& r@ == replace_decoding_of(default_charset(), bytes@)->0
            &&& r@.len() == bytes@.len()
            &&& forall|i: int|
                0 <= i < bytes@.len() && (bytes@[i] <= 0x7f || bytes@[i] >= 0xa0)
                    ==> #[trigger] r@[i] as u32 == bytes@[i] as u32
        },
        valid_utf8(bytes@) && replace_decoding_of(
            whatwg_label_of(chosen_charset(bytes@)),
            bytes@,
        ) is None ==> r@ == decode_utf8(bytes@),
{
    if bytes.is_empty() {
        return String::new();
    }

    let mut has_escape = false;
    let mut has_high = false;
    let mut i: usize = 0;
    while i < bytes.len()
        invariant
            i <= bytes@.len(),
            has_escape == exists|j: int| 0 <= j < i && bytes@[j] == 0x1b,
            has_high == exists|j: int| 0 <= j < i && bytes@[j] >= 0x80 && bytes@[j] != 0xa0,
        decreases bytes@.len() - i,
    {
        let b = bytes[i];
        if b == 0x1b {
            has_escape = true;
        }
        if b >= 0x80 && b != 0xa0 {
            has_high = true;
        }
        i += 1;
    }
    let can_detect = !has_escape || has_high;

    proof {
        lemma_default_charset_label();
    }
    let charset = if can_detect {
        let detected = detect_charset(&bytes);
        if detected.1 < CONFIDENCE_THRESHOLD_BITS {
            String::from_str("iso-8859-1")
        } else {
            detected.0
        }
    } else {
        String::from_str("iso-8859-1")
    };
    let label = charset_to_whatwg_label(&charset);
    match decode_with_label(&label, &bytes) {
        Some(text) => text,
        None => bytes_to_utf8_lossy(&bytes),
    }
}

/// Decode a raw byte buffer. The standard-string half of the external
/// boundary hands its bytes here untouched.
pub fn string_to_utf8(bytes: Vec<u8>) -> (r: String)
    ensures
        r@ == decoded(bytes@),
        bytes@.len() == 0 ==> r@.len() == 0,
{
    convert_to_utf8(bytes)
}

/// Decode a null-terminated C string buffer: a single trailing terminator
/// byte is stripped first so it does not decode into a visible artifact,
/// then the buffer goes through the same pipeline as a raw buffer.
pub fn cstr_to_utf8(bytes: Vec<u8>) -> (r: String)
    ensures
        r@ == decoded(stripped(bytes@)),
        bytes@.len() == 0 ==> r@.len() == 0,
{
    let mut buffer = bytes;
    if buffer.len() > 0 && buffer[buffer.len() - 1] == 0 {
        let chopped = buffer.len() - 1;
        buffer.truncate(chopped);
    }
    convert_to_utf8(buffer)
}

/// Decoding a C-string buffer agrees with decoding the raw buffer: with a
/// trailing terminator it equals the raw decode of the buffer less its last
/// byte, and without one it equals the raw decode of the buffer itself.
pub proof fn lemma_cstring_agrees_with_raw(bytes: Seq<u8>)
    ensures
        bytes.len() > 0 && bytes.last() == 0 ==> decoded(stripped(bytes)) == decoded(
            bytes.drop_last(),
        ),
        !(bytes.len() > 0 && bytes.last() == 0) ==> decoded(stripped(bytes)) == decoded(bytes),
{
}

/// Decoding an empty buffer yields the empty text, with or without
/// terminator stripping.
pub proof fn lemma_empty_input(bytes: Seq<u8>)
    requires
        bytes.len() == 0,
    ensures
        decoded(bytes) == Seq::<char>::empty(),
        decoded(stripped(bytes)) == Seq::<char>::empty(),
{
}

/// A buffer the detector labels with confidence below the threshold — or
/// one the detector cannot be consulted on — is decoded under the default
/// charset, not under a low-confidence guess.
pub proof fn lemma_low_confidence_uses_default(bytes: Seq<u8>)
    requires
        bytes.len() > 0,
    ensures
        detection_of(bytes).1 < CONFIDENCE_THRESHOLD_BITS || !detectable(bytes)
            ==> chosen_charset(bytes) == default_charset(),
        detection_of(bytes).1 < CONFIDENCE_THRESHOLD_BITS || !detectable(bytes) ==> decoded(bytes)
            == (match replace_decoding_of(default_charset(), bytes) {
            Some(text) => text,
            None => lossy_utf8_of(bytes),
        }),
{
    lemma_default_charset_label();
}

} // verus!
