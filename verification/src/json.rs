//! JSON documents as the runtime sees them: byte strings that participants
//! produce and consume. The runtime never interprets a payload beyond
//! picking a member out of an object, so a document is held as its bytes and
//! every question about it goes to `serde_json`.

use vstd::prelude::*;

verus! {

/// The compact rendering of the JSON value that the bytes `doc` encode, or
/// `None` where `doc` is not a JSON text.
pub uninterp spec fn json_canonical(doc: Seq<u8>) -> Option<Seq<u8>>;

/// The compact rendering of the member called `field` of the object that
/// `doc` encodes; `None` where `doc` is not a JSON text, is not an object,
/// or has no such member.
pub uninterp spec fn json_member(doc: Seq<u8>, field: Seq<char>) -> Option<Seq<u8>>;

/// The text of the JSON string that `doc` encodes; `None` where `doc` is not
/// a JSON text or encodes something other than a string.
pub uninterp spec fn json_text(doc: Seq<u8>) -> Option<Seq<char>>;

/// The compact renderings of the elements of the JSON array that `doc`
/// encodes, in order; `None` where `doc` is not a JSON text or encodes
/// something other than an array.
pub uninterp spec fn json_elements(doc: Seq<u8>) -> Option<Seq<Seq<u8>>>;

/// The JSON string that stands for `text`: the text between quotes, with
/// what must be escaped escaped.
pub uninterp spec fn json_quoted(text: Seq<char>) -> Seq<u8>;

/// The bytes that `text` stands for in URL-safe base64 without padding, or
/// `None` where `text` is not such an encoding.
pub uninterp spec fn base64_url_decoded(text: Seq<char>) -> Option<Seq<u8>>;

/// The bytes behind an optional buffer.
pub open spec fn opt_bytes(r: Option<Vec<u8>>) -> Option<Seq<u8>> {
    match r {
        Some(buffer) => Some(buffer@),
        None => None,
    }
}

/// The characters behind an optional string.
pub open spec fn opt_text(r: Option<String>) -> Option<Seq<char>> {
    match r {
        Some(text) => Some(text@),
        None => None,
    }
}

/// The characters behind an optional list of strings.
pub open spec fn opt_texts(r: Option<Vec<String>>) -> Option<Seq<Seq<char>>> {
    match r {
        Some(list) => Some(list.deep_view()),
        None => None,
    }
}

/// The bytes behind an optional list of buffers.
pub open spec fn opt_docs(r: Option<Vec<Vec<u8>>>) -> Option<Seq<Seq<u8>>> {
    match r {
        Some(list) => Some(list@.map_values(|buffer: Vec<u8>| buffer@)),
        None => None,
    }
}

/// Calls `serde_json::from_slice` for a `serde_json::Value` and renders what
/// it parsed with `serde_json::to_vec`. A parse error gives `None`. The
/// result depends on the bytes alone and is named [`json_canonical`].
#[verifier::external_body]
pub(crate) fn canonical(doc: &[u8]) -> (r: Option<Vec<u8>>)
    ensures
        opt_bytes(r) == json_canonical(doc@),
{
    let value: serde_json::Value = serde_json::from_slice(doc).ok()?;
    serde_json::to_vec(&value).ok()
}

/// Calls `serde_json::Value::get` with a string index on the value parsed
/// from `doc`, and renders the member it found. `get` answers `None` for
/// anything but an object that has the member. Named [`json_member`].
#[verifier::external_body]
pub(crate) fn member(doc: &[u8], field: &str) -> (r: Option<Vec<u8>>)
    ensures
        opt_bytes(r) == json_member(doc@, field@),
{
    let value: serde_json::Value = serde_json::from_slice(doc).ok()?;
    serde_json::to_vec(value.get(field)?).ok()
}

/// Calls `serde_json::Value::as_str` on the value parsed from `doc` and
/// copies the text. `as_str` answers `None` for anything but a JSON string.
/// Named [`json_text`].
#[verifier::external_body]
pub(crate) fn as_text(doc: &[u8]) -> (r: Option<String>)
    ensures
        opt_text(r) == json_text(doc@),
{
    let value: serde_json::Value = serde_json::from_slice(doc).ok()?;
    value.as_str().map(|text| text.to_string())
}

/// Calls `serde_json::Value::as_array` on the value parsed from `doc` and
/// renders each element. `as_array` answers `None` for anything but a JSON
/// array. Named [`json_elements`].
#[verifier::external_body]
pub(crate) fn elements(doc: &[u8]) -> (r: Option<Vec<Vec<u8>>>)
    ensures
        opt_docs(r) == json_elements(doc@),
{
    let value: serde_json::Value = serde_json::from_slice(doc).ok()?;
    value.as_array()?.iter().map(|item| serde_json::to_vec(item).ok()).collect()
}

/// Calls `serde_json::to_vec` on a string slice, which writes the text as a
/// JSON string. Writing a string cannot fail. Named [`json_quoted`].
#[verifier::external_body]
pub(crate) fn quote(text: &str) -> (r: Vec<u8>)
    ensures
        r@ == json_quoted(text@),
{
    serde_json::to_vec(text).unwrap_or_default()
}

/// Calls `Engine::decode` on `base64::engine::general_purpose::URL_SAFE_NO_PAD`.
/// A decode error gives `None`. Named [`base64_url_decoded`].
#[verifier::external_body]
pub(crate) fn decode_base64_url(text: &str) -> (r: Option<Vec<u8>>)
    ensures
        opt_bytes(r) == base64_url_decoded(text@),
{
    base64::Engine::decode(&base64::engine::general_purpose::URL_SAFE_NO_PAD, text).ok()
}

/// The bytes of a text.
pub open spec fn utf8(text: Seq<char>) -> Seq<u8> {
    vstd::utf8::encode_utf8(text)
}

/// Appends `more` to `buffer`.
pub fn append_bytes(buffer: &mut Vec<u8>, more: &[u8])
    ensures
        final(buffer)@ == old(buffer)@ + more@,
{
    buffer.extend_from_slice(more);
    assert(buffer@ =~= old(buffer)@ + more@);
}

/// The text of the string member `field` of the object `doc`.
pub open spec fn member_text(doc: Seq<u8>, field: Seq<char>) -> Option<Seq<char>> {
    match json_member(doc, field) {
        Some(value) => json_text(value),
        None => None,
    }
}

/// The texts of all of `docs`, if each of them is a JSON string.
pub open spec fn all_texts(docs: Seq<Seq<u8>>) -> Option<Seq<Seq<char>>>
    decreases docs.len(),
{
    if docs.len() == 0 {
        Some(Seq::empty())
    } else {
        match (all_texts(docs.drop_last()), json_text(docs.last())) {
            (Some(head), Some(text)) => Some(head.push(text)),
            _ => None,
        }
    }
}

/// The texts held by the member `field` of the object `doc`, where that
/// member is an array of strings.
pub open spec fn member_texts(doc: Seq<u8>, field: Seq<char>) -> Option<Seq<Seq<char>>> {
    match json_member(doc, field) {
        Some(value) => match json_elements(value) {
            Some(items) => all_texts(items),
            None => None,
        },
        None => None,
    }
}

/// Reads the string member `field` of the JSON object `doc`.
pub fn string_member(doc: &[u8], field: &str) -> (r: Option<String>)
    ensures
        opt_text(r) == member_text(doc@, field@),
{
    match member(doc, field) {
        Some(value) => as_text(value.as_slice()),
        None => None,
    }
}

/// Reads the member `field` of the JSON object `doc` as a list of strings.
/// One element that is not a string makes the whole list unreadable.
pub fn string_list_member(doc: &[u8], field: &str) -> (r: Option<Vec<String>>)
    ensures
        opt_texts(r) == member_texts(doc@, field@),
{
    let value = match member(doc, field) {
        Some(value) => value,
        None => { return None; },
    };
    let items = match elements(value.as_slice()) {
        Some(items) => items,
        None => { return None; },
    };
    let ghost docs = items@.map_values(|buffer: Vec<u8>| buffer@);
    let mut out: Vec<String> = Vec::new();
    let mut i: usize = 0;
    assert(docs.take(0) =~= Seq::<Seq<u8>>::empty());
    assert(out.deep_view() =~= Seq::<Seq<char>>::empty());
    while i < items.len()
        invariant
            i <= items.len(),
            docs == items@.map_values(|buffer: Vec<u8>| buffer@),
            member_texts(doc@, field@) == all_texts(docs),
            all_texts(docs.take(i as int)) == Some(out.deep_view()),
        decreases items.len() - i,
    {
        proof {
            let next = docs.take(i + 1);
            assert(next.drop_last() =~= docs.take(i as int));
            assert(next.last() == items[i as int]@);
        }
        match as_text(items[i].as_slice()) {
            Some(text) => {
                let ghost before = out.deep_view();
                out.push(text);
                assert(out.deep_view() =~= before.push(text@));
            },
            None => {
                proof {
                    all_texts_fails_from(docs, i + 1);
                }
                return None;
            },
        }
        i = i + 1;
    }
    assert(docs.take(i as int) =~= docs);
    Some(out)
}

/// Once a prefix of `docs` holds an element that is not a string, no longer
/// prefix can be read as texts.
pub proof fn all_texts_fails_from(docs: Seq<Seq<u8>>, n: int)
    requires
        0 <= n <= docs.len(),
        all_texts(docs.take(n)) is None,
    ensures
        all_texts(docs) is None,
    decreases docs.len() - n,
{
    if n < docs.len() {
        assert(docs.take(n + 1).drop_last() =~= docs.take(n));
        all_texts_fails_from(docs, n + 1);
    } else {
        assert(docs.take(n) =~= docs);
    }
}

} // verus!
