use vstd::prelude::*;

use crate::error::WgError;
use crate::members::names;

verus! {

#[verifier::external_type_specification]
#[verifier::external_body]
pub struct ExDocumentMut(toml_edit::DocumentMut);

/// Whether `toml_edit` accepts the text as a document.
pub uninterp spec fn toml_parses(text: Seq<char>) -> bool;

/// The document that `toml_edit` parses from the text.
pub uninterp spec fn parsed(text: Seq<char>) -> toml_edit::DocumentMut;

/// The report, with its location, that `toml_edit` gives for text it refuses.
pub uninterp spec fn parse_report(text: Seq<char>) -> Seq<char>;

/// Each key of the document's root table, with the text of its item.
pub uninterp spec fn root_items(d: toml_edit::DocumentMut) -> Map<Seq<char>, Seq<char>>;

/// Whether the root item under `table` is a (non-inline) table.
pub uninterp spec fn is_table_at(d: toml_edit::DocumentMut, table: Seq<char>) -> bool;

/// Each key of the table under `table`, with the text of its item.
pub uninterp spec fn table_items(d: toml_edit::DocumentMut, table: Seq<char>) -> Map<
    Seq<char>,
    Seq<char>,
>;

/// The keys of the table under `table` whose item is a string, with the string.
pub uninterp spec fn table_strings(d: toml_edit::DocumentMut, table: Seq<char>) -> Map<
    Seq<char>,
    Seq<char>,
>;

/// The keys of the table under `table` whose item is an array of strings, with
/// the strings in order.
pub uninterp spec fn table_lists(d: toml_edit::DocumentMut, table: Seq<char>) -> Map<
    Seq<char>,
    Seq<Seq<char>>,
>;

/// The text that `toml_edit` writes out for the document.
pub uninterp spec fn rendered(d: toml_edit::DocumentMut) -> Seq<char>;

/// The root table has an entry under `table`.
pub open spec fn present(d: toml_edit::DocumentMut, table: Seq<char>) -> bool {
    root_items(d).contains_key(table)
}

/// Relies on `toml_edit::DocumentMut::new`: a document with an empty root table.
#[verifier::external_body]
fn new_document() -> (r: toml_edit::DocumentMut)
    ensures
        root_items(r).dom() == Set::<Seq<char>>::empty(),
{
    toml_edit::DocumentMut::new()
}

/// Relies on `<toml_edit::DocumentMut as FromStr>::from_str`, and on `Display`
/// of `toml_edit::TomlError` for the report of a refusal.
#[verifier::external_body]
fn parse_document(text: &str) -> (r: Result<toml_edit::DocumentMut, String>)
    ensures
        r is Ok <==> toml_parses(text@),
        r matches Ok(d) ==> d == parsed(text@),
        r matches Err(m) ==> m@ == parse_report(text@),
{
    text.parse::<toml_edit::DocumentMut>().map_err(|e| e.to_string())
}

/// Relies on `toml_edit::Table::entry` and `toml_edit::Entry::or_insert`: an
/// empty table is put under `table` when the root has no such key, and an
/// entry that is there is left alone. Tells whether the entry is a table.
#[verifier::external_body]
fn insert_table_if_absent(doc: &mut toml_edit::DocumentMut, table: &str) -> (r: bool)
    ensures
        r || present(*old(doc), table@),
        !present(*old(doc), table@) ==> present(*final(doc), table@) && is_table_at(*final(doc), table@),
        !present(*old(doc), table@) ==> root_items(*final(doc)).remove(table@) == root_items(*old(doc)),
        !present(*old(doc), table@) ==> table_items(*final(doc), table@).dom() == Set::<Seq<char>>::empty(),
        !present(*old(doc), table@) ==> table_strings(*final(doc), table@).dom() == Set::<Seq<char>>::empty(),
        !present(*old(doc), table@) ==> table_lists(*final(doc), table@).dom() == Set::<Seq<char>>::empty(),
        present(*old(doc), table@) ==> *final(doc) == *old(doc),
        present(*old(doc), table@) ==> r == is_table_at(*old(doc), table@),
{
    doc.entry(table).or_insert(toml_edit::Item::Table(toml_edit::Table::default())).is_table()
}

/// Relies on `IndexMut` of `toml_edit::DocumentMut` and `toml_edit::Table`:
/// `key` of the table under `table` now holds the string `v`, in place of
/// whatever it held; nothing else changes.
#[verifier::external_body]
fn set_table_string(doc: &mut toml_edit::DocumentMut, table: &str, key: &str, v: &str)
    requires
        present(*old(doc), table@),
        is_table_at(*old(doc), table@),
    ensures
        present(*final(doc), table@),
        is_table_at(*final(doc), table@),
        root_items(*final(doc)).remove(table@) == root_items(*old(doc)).remove(table@),
        table_items(*final(doc), table@).contains_key(key@),
        table_items(*final(doc), table@).remove(key@) == table_items(*old(doc), table@).remove(key@),
        table_strings(*final(doc), table@) == table_strings(*old(doc), table@).insert(key@, v@),
        table_lists(*final(doc), table@) == table_lists(*old(doc), table@).remove(key@),
{
    doc[table][key] = toml_edit::value(v);
}

/// Relies on `IndexMut` of `toml_edit::DocumentMut` and `toml_edit::Table`, and
/// on `FromIterator` of `toml_edit::Array`: `key` of the table under `table`
/// now holds the array of `items`, in their order, in place of whatever it
/// held; nothing else changes.
#[verifier::external_body]
fn set_table_list(doc: &mut toml_edit::DocumentMut, table: &str, key: &str, items: &[String])
    requires
        present(*old(doc), table@),
        is_table_at(*old(doc), table@),
    ensures
        present(*final(doc), table@),
        is_table_at(*final(doc), table@),
        root_items(*final(doc)).remove(table@) == root_items(*old(doc)).remove(table@),
        table_items(*final(doc), table@).contains_key(key@),
        table_items(*final(doc), table@).remove(key@) == table_items(*old(doc), table@).remove(key@),
        table_strings(*final(doc), table@) == table_strings(*old(doc), table@).remove(key@),
        table_lists(*final(doc), table@) == table_lists(*old(doc), table@).insert(key@, names(items@)),
{
    doc[table][key] = toml_edit::Item::Value(toml_edit::Array::from_iter(items.iter()).into());
}

/// Relies on `Display` of `toml_edit::DocumentMut`: the document as text.
#[verifier::external_body]
fn render(doc: &toml_edit::DocumentMut) -> (r: String)
    ensures
        r@ == rendered(*doc),
{
    doc.to_string()
}

/// The section that the merge edits.
pub open spec fn ws() -> Seq<char> {
    "workspace"@
}

/// An entry of the workspace table before the merge (none when it is absent).
pub open spec fn prior_items(d: toml_edit::DocumentMut) -> Map<Seq<char>, Seq<char>> {
    if present(d, ws()) {
        table_items(d, ws())
    } else {
        Map::empty()
    }
}

/// The workspace strings of a document before the merge.
pub open spec fn prior_strings(d: toml_edit::DocumentMut) -> Map<Seq<char>, Seq<char>> {
    if present(d, ws()) {
        table_strings(d, ws())
    } else {
        Map::empty()
    }
}

/// The workspace string arrays of a document before the merge.
pub open spec fn prior_lists(d: toml_edit::DocumentMut) -> Map<Seq<char>, Seq<Seq<char>>> {
    if present(d, ws()) {
        table_lists(d, ws())
    } else {
        Map::empty()
    }
}

/// `after` is `before` with a workspace table whose resolver is "3" and whose
/// members are `members`. Every other section keeps its text, and so does
/// every other entry of the workspace table.
pub open spec fn merged(
    before: toml_edit::DocumentMut,
    after: toml_edit::DocumentMut,
    members: Seq<Seq<char>>,
) -> bool {
    &&& present(after, ws())
    &&& is_table_at(after, ws())
    &&& root_items(after).remove(ws()) == root_items(before).remove(ws())
    &&& table_items(after, ws()).contains_key("resolver"@)
    &&& table_items(after, ws()).contains_key("members"@)
    &&& table_items(after, ws()).remove("resolver"@).remove("members"@) == prior_items(
        before,
    ).remove("resolver"@).remove("members"@)
    &&& table_strings(after, ws()) == prior_strings(before).insert("resolver"@, "3"@).remove(
        "members"@,
    )
    &&& table_lists(after, ws()) == prior_lists(before).remove("resolver"@).insert(
        "members"@,
        members,
    )
}

/// The two keys that the merge writes are distinct.
proof fn lemma_keys_differ()
    ensures
        "resolver"@ != "members"@,
{
    reveal_strlit("resolver");
    reveal_strlit("members");
    assert("resolver"@[0] != "members"@[0]);
}

/// After a merge, the workspace's resolver is "3" and its members are exactly
/// the requested names, in their order.
pub proof fn lemma_merged_fields(
    before: toml_edit::DocumentMut,
    after: toml_edit::DocumentMut,
    members: Seq<Seq<char>>,
)
    requires
        merged(before, after, members),
    ensures
        table_strings(after, ws()).contains_key("resolver"@),
        table_strings(after, ws())["resolver"@] == "3"@,
        table_lists(after, ws()).contains_key("members"@),
        table_lists(after, ws())["members"@] == members,
        !table_strings(after, ws()).contains_key("members"@),
        !table_lists(after, ws()).contains_key("resolver"@),
{
    lemma_keys_differ();
}

/// Merging `m1` and then `m2` gives what merging `m2` alone gives: the same
/// other sections, the same other workspace entries, the same resolver and
/// the members `m2`, nothing of `m1` kept. With `m1 == m2` this is the
/// repeated merge.
pub proof fn lemma_merge_again(
    before: toml_edit::DocumentMut,
    once: toml_edit::DocumentMut,
    twice: toml_edit::DocumentMut,
    direct: toml_edit::DocumentMut,
    m1: Seq<Seq<char>>,
    m2: Seq<Seq<char>>,
)
    requires
        merged(before, once, m1),
        merged(once, twice, m2),
        merged(before, direct, m2),
    ensures
        root_items(twice).remove(ws()) == root_items(direct).remove(ws()),
        table_items(twice, ws()).remove("resolver"@).remove("members"@) == table_items(
            direct,
            ws(),
        ).remove("resolver"@).remove("members"@),
        table_strings(twice, ws()) == table_strings(direct, ws()),
        table_lists(twice, ws()) == table_lists(direct, ws()),
        table_lists(twice, ws())["members"@] == m2,
{
    lemma_keys_differ();
    let r = "resolver"@;
    let m = "members"@;
    assert(prior_items(once).remove(r).remove(m) =~= prior_items(before).remove(r).remove(m));
    assert(prior_strings(once).insert(r, "3"@).remove(m) =~= prior_strings(before).insert(
        r,
        "3"@,
    ).remove(m));
    assert(prior_lists(once).remove(r).insert(m, m2) =~= prior_lists(before).remove(r).insert(
        m,
        m2,
    ));
}

/// A `workspace` key is there and holds no table.
pub open spec fn shape_refused(d: toml_edit::DocumentMut) -> bool {
    present(d, ws()) && !is_table_at(d, ws())
}

/// Makes sure the document has a workspace table, pins its resolver to "3"
/// and replaces its members with `members`. Fails exactly when `workspace`
/// holds something other than a table.
pub fn merge_into_document(doc: toml_edit::DocumentMut, members: &[String]) -> (r: Result<
    toml_edit::DocumentMut,
    WgError,
>)
    ensures
        shape_refused(doc) ==> r == Err::<toml_edit::DocumentMut, WgError>(WgError::ManifestShape),
        !shape_refused(doc) ==> (r matches Ok(d) && merged(doc, d, names(members@))),
{
    let mut doc = doc;
    let ghost before = doc;
    if !insert_table_if_absent(&mut doc, "workspace") {
        return Err(WgError::ManifestShape);
    }
    let ghost d1 = doc;
    set_table_string(&mut doc, "workspace", "resolver", "3");
    let ghost d2 = doc;
    set_table_list(&mut doc, "workspace", "members", members);
    proof {
        lemma_keys_differ();
        assert(table_items(d1, ws()) =~= prior_items(before));
        assert(table_strings(d1, ws()) =~= prior_strings(before));
        assert(table_lists(d1, ws()) =~= prior_lists(before));
        assert(root_items(doc).remove(ws()) =~= root_items(before).remove(ws()));
        let r = "resolver"@;
        let m = "members"@;
        assert(table_items(d2, ws()).contains_key(r));
        assert(table_items(doc, ws()).remove(m).contains_key(r));
        assert(table_items(doc, ws()).remove(r).remove(m) =~= table_items(doc, ws()).remove(
            m,
        ).remove(r));
        assert(table_items(d2, ws()).remove(m).remove(r) =~= table_items(d2, ws()).remove(
            r,
        ).remove(m));
        assert(table_items(doc, ws()).remove(r).remove(m) =~= prior_items(before).remove(
            r,
        ).remove(m));
    }
    Ok(doc)
}

/// The new text of the workspace manifest at `path`: the existing text, if
/// any, parsed and merged with `members`, else a fresh document that holds
/// only the workspace table with its resolver and members. Fails when the
/// existing text is no document, with the parser's report and the path, or
/// when its `workspace` is no table.
pub fn workspace_manifest_text(path: &str, existing: Option<&str>, members: &[String]) -> (r:
    Result<String, WgError>)
    ensures
        existing is None ==> (r matches Ok(text) && exists|d: toml_edit::DocumentMut|
            #![trigger rendered(d)]
            text@ == rendered(d) && root_items(d).dom() == set![ws()]
                && table_items(d, ws()).dom() == set!["resolver"@, "members"@] && table_strings(
                d,
                ws(),
            ) == map!["resolver"@ => "3"@] && table_lists(d, ws()) == map![
                "members"@ => names(members@),
            ]),
        existing is Some && !toml_parses(existing->Some_0@) ==> (r matches Err(
            WgError::ManifestParse(p, m),
        ) && p@ == path@ && m@ == parse_report(existing->Some_0@)),
        existing is Some && toml_parses(existing->Some_0@) && shape_refused(parsed(existing->Some_0@)) ==> r == Err::<
            String,
            WgError,
        >(WgError::ManifestShape),
        existing is Some && toml_parses(existing->Some_0@) && !shape_refused(parsed(existing->Some_0@)) ==> (r matches Ok(
            text,
        ) && exists|d: toml_edit::DocumentMut|
            #![trigger rendered(d)]
            text@ == rendered(d) && merged(parsed(existing->Some_0@), d, names(members@))),
{
    let doc = match existing {
        None => new_document(),
        Some(t) => match parse_document(t) {
            Ok(d) => d,
            Err(report) => {
                return Err(WgError::ManifestParse(String::from_str(path), report));
            },
        },
    };
    let ghost before = doc;
    match merge_into_document(doc, members) {
        Ok(d) => {
            let text = render(&d);
            proof {
                lemma_keys_differ();
                if existing.is_none() {
                    assert(root_items(before).dom() =~= Set::<Seq<char>>::empty());
                    assert(root_items(d).remove(ws()).dom() =~= Set::<Seq<char>>::empty());
                    assert(root_items(d).dom() =~= set![ws()]);
                    let r = "resolver"@;
                    let m = "members"@;
                    assert(prior_items(before) =~= Map::<Seq<char>, Seq<char>>::empty());
                    assert(table_items(d, ws()).remove(r).remove(m).dom() =~= Set::<
                        Seq<char>,
                    >::empty());
                    assert(table_items(d, ws()).dom() =~= set![r, m]);
                    assert(table_strings(d, ws()) =~= map!["resolver"@ => "3"@]);
                    assert(table_lists(d, ws()) =~= map!["members"@ => names(members@)]);
                }
            }
            Ok(text)
        },
        Err(e) => Err(e),
    }
}

} // verus!
