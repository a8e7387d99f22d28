//! Binary payloads carried by a template as base64 text (raw records, font
//! type information, embedded OLE data): decoding with the field's error
//! message, encoding, and the OLE tag record that goes with OLE data.

use super::objects::{
    i32_of_bits, le32_bytes, ole_tag_bin_data_id, ole_tag_bin_data_id_spec, ole_tag_bytes,
    ole_tag_extent_spec, ole_tag_extents, patch_ole_tag_bin_data_id, reinterpret_u32,
    template_ole_tag_data,
};
use crate::text::{dec_seq, push_decimal, push_str, string_of};
use base64::Engine;
use vstd::prelude::*;

verus! {

#[verifier::external_type_specification]
#[verifier::external_body]
pub struct ExDecodeError(base64::DecodeError);

/// What the standard base64 engine (padded, canonical) decodes `text` to;
/// `None` when it refuses the text.
pub uninterp spec fn base64_decoded(text: Seq<char>) -> Option<Seq<u8>>;

/// What the standard base64 engine encodes `bytes` as.
pub uninterp spec fn base64_encoded(bytes: Seq<u8>) -> Seq<char>;

/// `base64::engine::general_purpose::STANDARD.decode`. The decoded bytes are
/// named, not described: the contract says only that they (or the refusal)
/// are what `base64_decoded` gives for this text.
#[verifier::external_body]
fn base64_decode(text: &str) -> (r: Result<Vec<u8>, base64::DecodeError>)
    ensures
        match r {
            Ok(v) => base64_decoded(text@) == Some(v@),
            Err(_) => base64_decoded(text@) is None,
        },
{
    base64::engine::general_purpose::STANDARD.decode(text)
}

/// `base64::engine::general_purpose::STANDARD.encode`. The text is named;
/// the contract also claims what the crate's documentation and source show
/// of the standard engine: the output is padded to a multiple of four
/// characters (four per started group of three bytes), and the engine
/// decodes its own canonical output back to the same bytes. The crate
/// panics when the output length overflows `usize`, which `requires` rules
/// out.
#[verifier::external_body]
fn base64_encode(bytes: &[u8]) -> (r: String)
    requires
        bytes@.len() <= usize::MAX / 4 * 3,
    ensures
        r@ == base64_encoded(bytes@),
        r@.len() == 4 * ((bytes@.len() + 2) / 3),
        base64_decoded(r@) == Some(bytes@),
{
    base64::engine::general_purpose::STANDARD.encode(bytes)
}

/// The message of a base64 decoding error (its `Display` text). Nothing is
/// claimed of the text.
#[verifier::external_body]
fn decode_error_text(e: &base64::DecodeError) -> (r: String) {
    e.to_string()
}

/// What a base64 field holds: nothing when it is empty, else the decoded
/// bytes; `None` when the text is refused.
pub open spec fn field_payload(text: Seq<char>) -> Option<Option<Seq<u8>>> {
    if text.len() == 0 {
        Some(None)
    } else {
        match base64_decoded(text) {
            Some(v) => Some(Some(v)),
            None => None,
        }
    }
}

pub open spec fn opt_bytes_view(v: Option<Vec<u8>>) -> Option<Seq<u8>> {
    match v {
        Some(b) => Some(b@),
        None => None,
    }
}

/// Decodes an optional base64 field (an empty text means no payload). A
/// refused text gives `invalid <what>: ` and the decoder's message.
pub fn decode_base64_field(text: &str, what: &str) -> (r: Result<Option<Vec<u8>>, String>)
    ensures
        match r {
            Ok(v) => field_payload(text@) == Some(opt_bytes_view(v)),
            Err(e) => field_payload(text@) is None && e@.len() >= 8 + what@.len() + 2
                && e@.subrange(0, 8 + what@.len() + 2 as int) == "invalid "@ + what@ + ": "@,
        },
{
    if text.is_empty() {
        return Ok(None);
    }
    match base64_decode(text) {
        Ok(bytes) => Ok(Some(bytes)),
        Err(e) => {
            let mut msg = string_of("invalid ");
            push_str(&mut msg, what);
            push_str(&mut msg, ": ");
            let ghost head = msg@;
            proof {
                reveal_strlit("invalid ");
                reveal_strlit(": ");
            }
            push_str(&mut msg, decode_error_text(&e).as_str());
            assert(msg@.subrange(0, head.len() as int) =~= head);
            Err(msg)
        },
    }
}

/// The base64 text of an optional payload (empty when there is none).
pub open spec fn field_text(raw: Option<Seq<u8>>) -> Seq<char> {
    match raw {
        Some(b) => base64_encoded(b),
        None => Seq::empty(),
    }
}

/// Encodes an optional payload as a base64 field (empty when there is none).
pub fn encode_base64_field(raw: &Option<Vec<u8>>) -> (r: String)
    requires
        raw matches Some(b) ==> b@.len() <= usize::MAX / 4 * 3,
    ensures
        r@ == field_text(opt_bytes_view(*raw)),
        (raw matches Some(b) ==> b@.len() > 0) ==> field_payload(r@) == Some(opt_bytes_view(*raw)),
{
    match raw {
        Some(bytes) => base64_encode(bytes.as_slice()),
        None => String::new(),
    }
}

// ---------------------------------------------------------------------------
// Font type information
// ---------------------------------------------------------------------------

/// The message for font type information of the wrong size.
pub open spec fn type_info_size_message(lang_idx: nat, font_idx: nat, got: nat) -> Seq<char> {
    "type_info_base64 for font face "@ + dec_seq(lang_idx) + "/"@ + dec_seq(font_idx)
        + " must decode to 10 bytes, got "@ + dec_seq(got)
}

/// Appends `<lang_idx>/<font_idx>`.
fn push_font_face(msg: &mut String, lang_idx: usize, font_idx: usize)
    ensures
        final(msg)@ == old(msg)@ + dec_seq(lang_idx as nat) + "/"@ + dec_seq(font_idx as nat),
{
    push_decimal(msg, lang_idx as u64);
    push_str(msg, "/");
    push_decimal(msg, font_idx as u64);
}

/// The ten bytes of a font's type information, from its base64 field
/// (empty means none). A refused text, or one that does not decode to ten
/// bytes, is an error that names the font face.
pub fn decode_font_type_info(text: &str, lang_idx: usize, font_idx: usize) -> (r: Result<
    Option<[u8; 10]>,
    String,
>)
    ensures
        match r {
            Ok(None) => text@.len() == 0,
            Ok(Some(a)) => text@.len() > 0 && base64_decoded(text@) == Some(a@),
            Err(e) => text@.len() > 0 && match base64_decoded(text@) {
                Some(v) => v.len() != 10 && e@ == type_info_size_message(
                    lang_idx as nat,
                    font_idx as nat,
                    v.len(),
                ),
                None => true,
            },
        },
{
    if text.is_empty() {
        return Ok(None);
    }
    match base64_decode(text) {
        Err(e) => {
            let mut msg = string_of("invalid type_info_base64 for font face ");
            push_font_face(&mut msg, lang_idx, font_idx);
            push_str(&mut msg, ": ");
            push_str(&mut msg, decode_error_text(&e).as_str());
            Err(msg)
        },
        Ok(bytes) => {
            if bytes.len() != 10 {
                let mut msg = string_of("type_info_base64 for font face ");
                push_font_face(&mut msg, lang_idx, font_idx);
                push_str(&mut msg, " must decode to 10 bytes, got ");
                push_decimal(&mut msg, bytes.len() as u64);
                Err(msg)
            } else {
                let a: [u8; 10] = [
                    bytes[0],
                    bytes[1],
                    bytes[2],
                    bytes[3],
                    bytes[4],
                    bytes[5],
                    bytes[6],
                    bytes[7],
                    bytes[8],
                    bytes[9],
                ];
                assert(a@ =~= bytes@);
                Ok(Some(a))
            }
        },
    }
}

// ---------------------------------------------------------------------------
// OLE objects
// ---------------------------------------------------------------------------

/// The OLE payload of an object: its tag record, and its binary data when
/// there is any.
pub open spec fn ole_payload_spec(raw_tag_base64: Seq<char>, ole_bin_data_base64: Seq<char>) -> Option<
    (Seq<u8>, Option<Seq<u8>>),
> {
    match base64_decoded(raw_tag_base64) {
        None => None,
        Some(tag) => if ole_bin_data_base64.len() == 0 {
            Some((tag, None))
        } else {
            match base64_decoded(ole_bin_data_base64) {
                None => None,
                Some(data) => Some((tag, if data.len() == 0 {
                    None
                } else {
                    Some(data)
                })),
            }
        },
    }
}

/// Decodes the OLE tag record and (when given and not empty) the OLE binary
/// data of an object.
pub fn decode_ole_payload(raw_tag_base64: &str, ole_bin_data_base64: &str) -> (r: Result<
    (Vec<u8>, Option<Vec<u8>>),
    String,
>)
    ensures
        match r {
            Ok((tag, data)) => ole_payload_spec(raw_tag_base64@, ole_bin_data_base64@) == Some(
                (tag@, opt_bytes_view(data)),
            ),
            Err(_) => ole_payload_spec(raw_tag_base64@, ole_bin_data_base64@) is None,
        },
{
    let tag = match base64_decode(raw_tag_base64) {
        Ok(t) => t,
        Err(e) => {
            let mut msg = string_of("invalid raw_hwp_ole_tag_base64: ");
            push_str(&mut msg, decode_error_text(&e).as_str());
            return Err(msg);
        },
    };
    if ole_bin_data_base64.is_empty() {
        return Ok((tag, None));
    }
    match base64_decode(ole_bin_data_base64) {
        Ok(data) => {
            if data.len() == 0 {
                Ok((tag, None))
            } else {
                Ok((tag, Some(data)))
            }
        },
        Err(e) => {
            let mut msg = string_of("invalid ole_bin_data_base64: ");
            push_str(&mut msg, decode_error_text(&e).as_str());
            Err(msg)
        },
    }
}

/// A record with its binary-data id replaced (when it is long enough).
pub open spec fn patched_ole_tag(data: Seq<u8>, bin_data_id: int) -> Seq<u8> {
    if data.len() >= 16 {
        data.subrange(0, 12) + le32_bytes(bin_data_id) + data.subrange(16, data.len() as int)
    } else {
        data
    }
}

/// The tag record an OLE object ends with: the decoded one, pointing at the
/// newly stored binary data when there is some, or a fresh record of the
/// object's size when the decoded one is empty.
pub open spec fn finished_ole_tag(raw_tag: Seq<u8>, new_bin_data_id: Option<u32>, width: u32, height: u32) -> Seq<u8> {
    let id = match new_bin_data_id {
        Some(i) => i as int,
        None => ole_tag_bin_data_id_spec(raw_tag),
    };
    let patched = match new_bin_data_id {
        Some(i) => patched_ole_tag(raw_tag, i as int),
        None => raw_tag,
    };
    if patched.len() == 0 {
        ole_tag_bytes(i32_of_bits(width as int), i32_of_bits(height as int), id)
    } else {
        patched
    }
}

/// Completes an OLE object's tag record once its binary data is stored
/// (`new_bin_data_id` is the id it was stored under, if any), and reads its
/// extents.
pub fn finish_ole_tag(raw_tag: Vec<u8>, new_bin_data_id: Option<u32>, width: u32, height: u32) -> (r: (
    Vec<u8>,
    i32,
    i32,
))
    ensures
        r.0@ == finished_ole_tag(raw_tag@, new_bin_data_id, width, height),
        r.1 == ole_tag_extent_spec(r.0@, 4, width as int),
        r.2 == ole_tag_extent_spec(r.0@, 8, height as int),
{
    let mut tag = raw_tag;
    let mut bin_data_id = ole_tag_bin_data_id(tag.as_slice());
    match new_bin_data_id {
        Some(id) => {
            bin_data_id = id;
            patch_ole_tag_bin_data_id(&mut tag, id);
        },
        None => {},
    }
    if tag.len() == 0 {
        tag = template_ole_tag_data(reinterpret_u32(width), reinterpret_u32(height), bin_data_id);
    }
    let (extent_x, extent_y) = ole_tag_extents(tag.as_slice(), width, height);
    (tag, extent_x, extent_y)
}

} // verus!
