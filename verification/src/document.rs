use vstd::prelude::*;
use crate::errors::Error;
use toml_edit::DocumentMut;
use toml_edit::TomlError;

verus! {

#[verifier::external_type_specification]
#[verifier::external_body]
pub struct ExDocumentMut(DocumentMut);

#[verifier::external_type_specification]
#[verifier::external_body]
pub struct ExTomlError(TomlError);

/// A place inside a document where a version string may stand: the
/// dependency-group name, the package name, and — for an entry that is an
/// inline table rather than a bare string — the key inside that table.
pub type DepKey = (Seq<char>, Seq<char>, Option<Seq<char>>);

/// The editable string fields a parsed document holds, as a map from their
/// place to the string stored there.  An entry `(group, package, None)` is
/// present exactly when the top-level table `group` holds `package` as a
/// bare string; an entry `(group, package, Some(key))` is present exactly
/// when `package` is an inline table holding a string under `key`.
pub uninterp spec fn doc_deps(d: DocumentMut) -> Map<DepKey, Seq<char>>;

/// The text the document prints as.
pub uninterp spec fn doc_text(d: DocumentMut) -> Seq<char>;

/// The text each dependency-entry value prints as, keyed like `doc_deps`
/// but covering values of every shape: `(group, package, None)` is the
/// whole entry value of `package` under the top-level table `group`, and
/// `(group, package, Some(k))` is the value under `k` when that entry is
/// an inline table.  Unlike `doc_deps`, an entry or key stands in this
/// map whatever the type of its value, so the map pins arrays, booleans
/// and every other attribute a mutation must leave alone.
pub uninterp spec fn doc_item_texts(d: DocumentMut) -> Map<DepKey, Seq<char>>;

/// Whether toml_edit accepts a text as a TOML document.  Parsing is
/// deterministic: acceptance is a function of the text alone.
pub uninterp spec fn toml_accepts(text: Seq<char>) -> bool;

/// The text that the document parsed from `text` prints back as.  For
/// most texts this is the text itself, but toml_edit does not keep a
/// missing final newline or the relative order of dotted keys, so the
/// two are compared rather than assumed equal.
pub uninterp spec fn rendered_of(text: Seq<char>) -> Seq<char>;

pub open spec fn simple_key(group: Seq<char>, package: Seq<char>) -> DepKey {
    (group, package, None)
}

pub open spec fn nested_key(group: Seq<char>, package: Seq<char>, key: Seq<char>) -> DepKey {
    (group, package, Some(key))
}

/// Relies on toml_edit's `DocumentMut::from_str`: whether a text parses,
/// and what the parsed document prints back as, are functions of the
/// text alone.
#[verifier::external_body]
fn toml_parse(text: &str) -> (r: Result<DocumentMut, TomlError>)
    ensures
        r is Ok <==> toml_accepts(text@),
        r matches Ok(d) ==> doc_text(d) == rendered_of(text@),
{
    text.parse::<DocumentMut>()
}

/// Relies on `Display for DocumentMut`, which prints the document's text.
#[verifier::external_body]
fn toml_render(doc: &DocumentMut) -> (r: String)
    ensures
        r@ == doc_text(*doc),
{
    doc.to_string()
}

/// Relies on `Display for TomlError` to describe a parse failure.
#[verifier::external_body]
fn toml_error_message(e: &TomlError) -> (r: String) {
    format!("{}", e)
}

/// Relies on toml_edit's `get`, `Item::as_table`, `Table::get` and
/// `Item::as_str`: reads the string stored as the whole entry of `package`
/// under the top-level table `group`, if the entry has that shape.
#[verifier::external_body]
fn toml_get_str(doc: &DocumentMut, group: &str, package: &str) -> (r: Option<String>)
    ensures
        match r {
            Some(s) => doc_deps(*doc).contains_key(simple_key(group@, package@))
                && s@ == doc_deps(*doc)[simple_key(group@, package@)],
            None => !doc_deps(*doc).contains_key(simple_key(group@, package@)),
        },
{
    let item = match doc.get(group) { Some(i) => i, None => return None };
    let table = match item.as_table() { Some(t) => t, None => return None };
    let entry = match table.get(package) { Some(i) => i, None => return None };
    entry.as_str().map(|s| s.to_owned())
}

/// Relies on toml_edit's `get`, `Item::as_table`, `Table::get`,
/// `Item::as_inline_table`, `InlineTable::get` and `Value::as_str`: reads
/// the string stored under `key` when the entry of `package` under the
/// top-level table `group` is an inline table.
#[verifier::external_body]
fn toml_get_nested_str(doc: &DocumentMut, group: &str, package: &str, key: &str) -> (r: Option<
    String,
>)
    ensures
        match r {
            Some(s) => doc_deps(*doc).contains_key(nested_key(group@, package@, key@))
                && s@ == doc_deps(*doc)[nested_key(group@, package@, key@)],
            None => !doc_deps(*doc).contains_key(nested_key(group@, package@, key@)),
        },
{
    let item = match doc.get(group) { Some(i) => i, None => return None };
    let table = match item.as_table() { Some(t) => t, None => return None };
    let entry = match table.get(package) { Some(i) => i, None => return None };
    let inline = match entry.as_inline_table() { Some(t) => t, None => return None };
    let value = match inline.get(key) { Some(v) => v, None => return None };
    value.as_str().map(|s| s.to_owned())
}

/// Relies on toml_edit's `IndexMut` and `value`: replaces the bare-string
/// entry of `package` under `group` with `version`, leaving every other
/// part of the document as it is — in particular, every other entry and
/// inline-table value keeps the text it prints as.
#[verifier::external_body]
fn toml_set_str(doc: &mut DocumentMut, group: &str, package: &str, version: &str)
    requires
        doc_deps(*old(doc)).contains_key(simple_key(group@, package@)),
    ensures
        doc_deps(*final(doc)) == doc_deps(*old(doc)).insert(
            simple_key(group@, package@),
            version@,
        ),
        doc_item_texts(*final(doc)).remove(simple_key(group@, package@)) == doc_item_texts(
            *old(doc),
        ).remove(simple_key(group@, package@)),
{
    doc[group][package] = toml_edit::value(version.to_owned());
}

/// Relies on toml_edit's `IndexMut` and `value`: replaces the string under
/// `key` inside the inline-table entry of `package` under `group` with
/// `version`, leaving every other part of the document as it is.  Only
/// the value under `key`, and with it the text of the whole entry it sits
/// in, print differently afterwards; every other value of that inline
/// table, and of every other entry, keeps the text it prints as.
#[verifier::external_body]
fn toml_set_nested_str(doc: &mut DocumentMut, group: &str, package: &str, key: &str, version: &str)
    requires
        doc_deps(*old(doc)).contains_key(nested_key(group@, package@, key@)),
    ensures
        doc_deps(*final(doc)) == doc_deps(*old(doc)).insert(
            nested_key(group@, package@, key@),
            version@,
        ),
        doc_item_texts(*final(doc)).remove(simple_key(group@, package@)).remove(
            nested_key(group@, package@, key@),
        ) == doc_item_texts(*old(doc)).remove(simple_key(group@, package@)).remove(
            nested_key(group@, package@, key@),
        ),
{
    doc[group][package][key] = toml_edit::value(version.to_owned());
}

/// The place of the version string recorded for `package` under `group`,
/// if the entry has an editable shape: a bare string is the entry itself,
/// an inline table with a string under `version` is that field, and any
/// other shape — or an absent group or package — has no place.
pub open spec fn version_slot(m: Map<DepKey, Seq<char>>, group: Seq<char>, package: Seq<char>) -> Option<
    DepKey,
> {
    if m.contains_key(simple_key(group, package)) {
        Some(simple_key(group, package))
    } else if m.contains_key(nested_key(group, package, "version"@)) {
        Some(nested_key(group, package, "version"@))
    } else {
        None
    }
}

/// The places where a package's version may stand under a group: the
/// whole entry, and the `version` key of an inline-table entry.
pub open spec fn version_places(group: Seq<char>, package: Seq<char>) -> Set<DepKey> {
    set![simple_key(group, package), nested_key(group, package, "version"@)]
}

/// Replaces the version recorded for `package` under the top-level table
/// `group` with `version` and returns the version that was recorded
/// before.  When the group is absent, the package is absent from it, or
/// the entry is neither a bare string nor an inline table with a string
/// `version` key, nothing is touched and `None` comes back.  Either way,
/// every value outside the package's version places — other packages,
/// and the other attributes of the edited entry — keeps the text it
/// prints as.
pub fn edit_version(doc: &mut DocumentMut, group: &str, package: &str, version: &str) -> (r: Option<
    String,
>)
    ensures
        match version_slot(doc_deps(*old(doc)), group@, package@) {
            Some(slot) => ({
                &&& r matches Some(prev) && prev@ == doc_deps(*old(doc))[slot]
                &&& doc_deps(*final(doc)) == doc_deps(*old(doc)).insert(slot, version@)
            }),
            None => r is None && *final(doc) == *old(doc),
        },
        doc_item_texts(*final(doc)).remove_keys(version_places(group@, package@))
            == doc_item_texts(*old(doc)).remove_keys(version_places(group@, package@)),
{
    proof {
        let a = simple_key(group@, package@);
        let b = nested_key(group@, package@, "version"@);
        assert(doc_item_texts(*doc).remove_keys(version_places(group@, package@)) =~= doc_item_texts(
            *doc,
        ).remove(a).remove(b));
    }
    if let Some(prev) = toml_get_str(doc, group, package) {
        toml_set_str(doc, group, package, version);
        proof {
            let a = simple_key(group@, package@);
            let b = nested_key(group@, package@, "version"@);
            assert(doc_item_texts(*doc).remove_keys(version_places(group@, package@))
                =~= doc_item_texts(*doc).remove(a).remove(b));
        }
        Some(prev)
    } else if let Some(prev) = toml_get_nested_str(doc, group, package, "version") {
        toml_set_nested_str(doc, group, package, "version", version);
        proof {
            let a = simple_key(group@, package@);
            let b = nested_key(group@, package@, "version"@);
            assert(doc_item_texts(*doc).remove_keys(version_places(group@, package@))
                =~= doc_item_texts(*doc).remove(a).remove(b));
        }
        Some(prev)
    } else {
        None
    }
}

/// Parses manifest text into an editable document.  A text is accepted
/// exactly when toml_edit parses it and the parsed document prints back
/// as the very text it came from, so an accepted document is known to
/// round-trip byte for byte; the few parseable texts toml_edit would
/// reformat — a file without a final newline, dotted keys it reorders —
/// are refused like unparseable ones.  Refusals carry the tool's
/// parse-failure error.
pub fn parse_document(text: &str) -> (r: Result<DocumentMut, Error>)
    ensures
        r matches Ok(d) ==> doc_text(d) == text@,
        r is Ok <==> toml_accepts(text@) && rendered_of(text@) == text@,
        r matches Err(e) ==> e is TomlError,
{
    match toml_parse(text) {
        Ok(d) => {
            let rendered = toml_render(&d);
            if rendered == text.to_owned() {
                Ok(d)
            } else {
                Err(Error::TomlError("document text is not preserved by the parser".to_owned()))
            }
        },
        Err(e) => Err(Error::TomlError(toml_error_message(&e))),
    }
}

/// Prints the document back as manifest text.
pub fn serialize_document(doc: &DocumentMut) -> (r: String)
    ensures
        r@ == doc_text(*doc),
{
    toml_render(doc)
}

} // verus!
