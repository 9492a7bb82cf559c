//! The calls into other crates.
//!
//! Verus does not read the bodies in this file and takes each contract on trust. The doc
//! comment of each item names the function that is called and says what is claimed of it.

use vstd::prelude::*;

verus! {

/// A fresh identifier in its canonical text form, from `uuid::Uuid::new_v4` and the
/// `Display` of the value. It is random, so nothing is stated of it.
#[verifier::external_body]
pub(crate) fn fresh_token() -> (token: String) {
    uuid::Uuid::new_v4().to_string()
}

/// The present moment, moved to the UTC offset of the given whole hours and written in the
/// given layout, from `time::OffsetDateTime::now_utc`, `checked_to_offset` and `format`, with
/// `time::UtcOffset::from_hms` and `time::format_description::parse_owned` for the two
/// arguments. `None` when the time crate rejects the offset, the layout or the moment. It
/// depends on the clock, so nothing is stated of the text.
#[verifier::external_body]
pub(crate) fn format_now(offset_hours: i8, layout: &str) -> (text: Option<String>) {
    let offset = time::UtcOffset::from_hms(offset_hours, 0, 0).ok()?;
    let items = time::format_description::parse_owned::<2>(layout).ok()?;
    let moment = time::OffsetDateTime::now_utc().checked_to_offset(offset)?;
    moment.format(&items).ok()
}

/// What `serde_json::from_str` makes of `text` as a JSON document, followed by
/// `Value::get(key)` and `Value::as_str`: `Ok(Some(s))` when the document is an object whose
/// member `key` is the string `s`, `Ok(None)` when it is well-formed JSON without such a
/// member, and `Err` with the parser's message when it is not well-formed JSON.
pub uninterp spec fn json_string_member(text: Seq<char>, key: Seq<char>) -> Result<
    Option<Seq<char>>,
    Seq<char>,
>;

/// Reads one string member out of a JSON document with `serde_json::from_str`,
/// `serde_json::Value::get` and `serde_json::Value::as_str`; a parse error is given as the
/// text that its `Display` writes. The result is `json_string_member` of the two arguments.
#[verifier::external_body]
pub(crate) fn read_json_string_member(text: &str, key: &str) -> (member: Result<
    Option<String>,
    String,
>)
    ensures
        match member {
            Ok(Some(found)) => json_string_member(text@, key@) == Ok::<
                Option<Seq<char>>,
                Seq<char>,
            >(Some(found@)),
            Ok(None) => json_string_member(text@, key@) == Ok::<Option<Seq<char>>, Seq<char>>(
                None,
            ),
            Err(message) => json_string_member(text@, key@) == Err::<
                Option<Seq<char>>,
                Seq<char>,
            >(message@),
        },
{
    match serde_json::from_str::<serde_json::Value>(text) {
        Ok(document) => Ok(document.get(key).and_then(|member| member.as_str()).map(String::from)),
        Err(problem) => Err(problem.to_string()),
    }
}

/// The bytes that the standard base64 alphabet with padding encodes as `text`, or the
/// decoder's message when `text` is no such encoding.
pub uninterp spec fn base64_decoded(text: Seq<char>) -> Result<Seq<u8>, Seq<char>>;

/// Decodes with `base64::Engine::decode` on `base64::prelude::BASE64_STANDARD`; a failure is
/// given as the text that the error's `Display` writes. The result is `base64_decoded` of the
/// argument.
#[verifier::external_body]
pub(crate) fn decode_base64(text: &str) -> (bytes: Result<Vec<u8>, String>)
    ensures
        match bytes {
            Ok(data) => base64_decoded(text@) == Ok::<Seq<u8>, Seq<char>>(data@),
            Err(message) => base64_decoded(text@) == Err::<Seq<u8>, Seq<char>>(message@),
        },
{
    base64::Engine::decode(&base64::prelude::BASE64_STANDARD, text).map_err(
        |problem| problem.to_string(),
    )
}

/// The highlighting themes that ship with the syntect crate.
pub open spec fn bundled_theme(theme: Seq<char>) -> bool {
    ||| theme == "base16-ocean.dark"@
    ||| theme == "base16-eighties.dark"@
    ||| theme == "base16-mocha.dark"@
    ||| theme == "base16-ocean.light"@
    ||| theme == "InspiredGitHub"@
    ||| theme == "Solarized (dark)"@
    ||| theme == "Solarized (light)"@
}

/// The HTML that comrak writes for the markdown `source` under its default options, with
/// fenced code highlighted by syntect in the colours of `theme`.
pub uninterp spec fn markdown_html(source: Seq<char>, theme: Seq<char>) -> Seq<char>;

/// Renders markdown with `comrak::markdown_to_html_with_plugins`, default `comrak::Options`,
/// and a `comrak::plugins::syntect::SyntectAdapter` for `theme` as the code fence
/// highlighter. The adapter looks the theme up by indexing, which panics on an unknown name,
/// so the theme must be one that syntect bundles. The result is `markdown_html` of the two
/// arguments.
#[verifier::external_body]
pub(crate) fn render_markdown(source: &str, theme: &str) -> (html: String)
    requires
        bundled_theme(theme@),
    ensures
        html@ == markdown_html(source@, theme@),
{
    let adapter = comrak::plugins::syntect::SyntectAdapter::new(Some(theme));
    let options = comrak::Options::default();
    let mut plugins = comrak::options::Plugins::default();
    plugins.render.codefence_syntax_highlighter = Some(&adapter);
    comrak::markdown_to_html_with_plugins(source, &options, &plugins)
}

/// `dashmap::DashMap`, a concurrent hash map. Nothing of its inside is visible here: what a
/// map of sessions holds is told by `session_slots`.
#[verifier::external_type_specification]
#[verifier::external_body]
#[verifier::reject_recursive_types(K)]
#[verifier::reject_recursive_types(V)]
#[verifier::reject_recursive_types(S)]
pub struct ExDashMap<K, V, S>(dashmap::DashMap<K, V, S>);

/// The entries of a session index: for each session identifier the slot it is bound to.
pub uninterp spec fn session_slots(index: dashmap::DashMap<String, usize>) -> Map<Seq<char>, usize>;

/// The index that binds no session.
pub open spec fn no_slots() -> Map<Seq<char>, usize> {
    Map::empty()
}

/// An empty index, from `dashmap::DashMap::new`.
#[verifier::external_body]
pub(crate) fn new_index() -> (created: dashmap::DashMap<String, usize>)
    ensures
        session_slots(created) == no_slots(),
{
    dashmap::DashMap::new()
}

/// The slot bound to `session`, from `dashmap::DashMap::get`: the entry's value when the key
/// is present, `None` when it is not.
#[verifier::external_body]
pub(crate) fn find_slot(index: &dashmap::DashMap<String, usize>, session: &str) -> (slot: Option<
    usize,
>)
    ensures
        slot == if session_slots(*index).dom().contains(session@) {
            Some(session_slots(*index)[session@])
        } else {
            None
        },
{
    index.get(session).map(|entry| *entry)
}

/// Binds `session` to `slot` with `dashmap::DashMap::insert`, which adds the entry or
/// replaces the value of an existing key and leaves every other entry as it was.
#[verifier::external_body]
pub(crate) fn bind_slot(index: &mut dashmap::DashMap<String, usize>, session: String, slot: usize)
    ensures
        session_slots(*final(index)) == session_slots(*old(index)).insert(session@, slot),
{
    index.insert(session, slot);
}

} // verus!
