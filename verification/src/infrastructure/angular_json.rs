use vstd::prelude::*;

use crate::error::AngularJsonError;
use crate::error::SeedError;
use crate::text::texts;

verus! {

// ---------------------------------------------------------------------------
// JSON documents as plain data
// ---------------------------------------------------------------------------

#[verifier::external_type_specification]
#[verifier::external_body]
pub struct ExJsonValue(serde_json::Value);

#[verifier::external_type_specification]
#[verifier::external_body]
pub struct ExJsonNumber(serde_json::Number);

/// A JSON value. Numbers are carried through as serde_json holds them;
/// the members of an object keep the order serde_json's map gives them.
#[derive(Debug)]
pub enum JsonValue {
    Null,
    Bool(bool),
    Number(serde_json::Number),
    Text(String),
    Array(Vec<JsonValue>),
    Object(Vec<(String, JsonValue)>),
}

/// The mathematical form of a [`JsonValue`].
pub enum JsonView {
    Null,
    Bool(bool),
    Number(serde_json::Number),
    Text(Seq<char>),
    Array(Seq<JsonView>),
    Object(Seq<(Seq<char>, JsonView)>),
}

pub open spec fn json_view(value: JsonValue) -> JsonView
    decreases value,
{
    match value {
        JsonValue::Null => JsonView::Null,
        JsonValue::Bool(b) => JsonView::Bool(b),
        JsonValue::Number(n) => JsonView::Number(n),
        JsonValue::Text(t) => JsonView::Text(t@),
        JsonValue::Array(items) => JsonView::Array(json_views(items@)),
        JsonValue::Object(members) => JsonView::Object(member_views(members@)),
    }
}

pub open spec fn json_views(items: Seq<JsonValue>) -> Seq<JsonView>
    decreases items,
{
    if items.len() == 0 {
        Seq::empty()
    } else {
        json_views(items.drop_last()).push(json_view(items.last()))
    }
}

pub open spec fn member_views(members: Seq<(String, JsonValue)>) -> Seq<(Seq<char>, JsonView)>
    decreases members,
{
    if members.len() == 0 {
        Seq::empty()
    } else {
        member_views(members.drop_last()).push((members.last().0@, json_view(members.last().1)))
    }
}

impl View for JsonValue {
    type V = JsonView;

    open spec fn view(&self) -> JsonView {
        json_view(*self)
    }
}

pub proof fn lemma_json_views(items: Seq<JsonValue>)
    ensures
        json_views(items).len() == items.len(),
        forall|i: int| 0 <= i < items.len() ==> #[trigger] json_views(items)[i] == json_view(items[i]),
    decreases items.len(),
{
    if items.len() > 0 {
        lemma_json_views(items.drop_last());
    }
}

pub proof fn lemma_member_views(members: Seq<(String, JsonValue)>)
    ensures
        member_views(members).len() == members.len(),
        forall|i: int| 0 <= i < members.len()
            ==> #[trigger] member_views(members)[i] == (members[i].0@, json_view(members[i].1)),
    decreases members.len(),
{
    if members.len() > 0 {
        lemma_member_views(members.drop_last());
    }
}

/// The position of the first member named `key`.
pub open spec fn index_of(members: Seq<(Seq<char>, JsonView)>, key: Seq<char>) -> Option<int>
    decreases members.len(),
{
    if members.len() == 0 {
        None
    } else if members[0].0 == key {
        Some(0)
    } else {
        match index_of(members.drop_first(), key) {
            Some(i) => Some(i + 1),
            None => None,
        }
    }
}

/// The value reached from `value` through members named by `path`, one
/// object after the other.
pub open spec fn at_path(value: JsonView, path: Seq<Seq<char>>) -> Option<JsonView>
    decreases path.len(),
{
    if path.len() == 0 {
        Some(value)
    } else {
        match value {
            JsonView::Object(members) => match index_of(members, path[0]) {
                Some(i) => at_path(members[i].1, path.drop_first()),
                None => None,
            },
            _ => None,
        }
    }
}

/// `value` with `added` appended to the array that `path` leads to; nothing
/// changes where `path` does not lead to an array.
pub open spec fn append_at_path(value: JsonView, path: Seq<Seq<char>>, added: Seq<JsonView>) -> JsonView
    decreases path.len(),
{
    if path.len() == 0 {
        match value {
            JsonView::Array(items) => JsonView::Array(items + added),
            _ => value,
        }
    } else {
        match value {
            JsonView::Object(members) => match index_of(members, path[0]) {
                Some(i) => JsonView::Object(
                    members.update(i, (members[i].0, append_at_path(members[i].1, path.drop_first(), added))),
                ),
                None => value,
            },
            _ => value,
        }
    }
}

proof fn lemma_index_of(members: Seq<(Seq<char>, JsonView)>, key: Seq<char>)
    ensures
        match index_of(members, key) {
            Some(i) => 0 <= i < members.len() && members[i].0 == key
                && forall|j: int| 0 <= j < i ==> members[j].0 != key,
            None => forall|j: int| 0 <= j < members.len() ==> members[j].0 != key,
        },
    decreases members.len(),
{
    if members.len() > 0 && members[0].0 != key {
        lemma_index_of(members.drop_first(), key);
        assert forall|j: int| 0 < j < members.len() implies members[j] == members.drop_first()[j - 1] by {}
    }
}

proof fn lemma_index_of_first(members: Seq<(Seq<char>, JsonView)>, key: Seq<char>, i: int)
    requires
        0 <= i < members.len(),
        members[i].0 == key,
        forall|j: int| 0 <= j < i ==> members[j].0 != key,
    ensures
        index_of(members, key) == Some(i),
{
    lemma_index_of(members, key);
}

proof fn lemma_index_of_same_keys(a: Seq<(Seq<char>, JsonView)>, b: Seq<(Seq<char>, JsonView)>, key: Seq<char>)
    requires
        a.len() == b.len(),
        forall|j: int| 0 <= j < a.len() ==> a[j].0 == b[j].0,
    ensures
        index_of(a, key) == index_of(b, key),
{
    lemma_index_of(a, key);
    lemma_index_of(b, key);
    match index_of(a, key) {
        Some(i) => lemma_index_of_first(b, key, i),
        None => {
            match index_of(b, key) {
                Some(i) => lemma_index_of_first(a, key, i),
                None => {},
            }
        },
    }
}

// ---------------------------------------------------------------------------
// serde_json
// ---------------------------------------------------------------------------

/// What `serde_json::from_str::<serde_json::Value>` reads from `text`, as a
/// [`JsonView`]; nothing when it rejects the text.
pub uninterp spec fn json_document(text: Seq<char>) -> Option<JsonView>;

/// What `serde_json::to_string_pretty` writes for `value`; nothing when it
/// fails.
pub uninterp spec fn json_pretty(value: JsonView) -> Option<Seq<char>>;

/// The value serde_json read, converted variant by variant.
#[verifier::external_body]
fn json_from_serde(value: serde_json::Value) -> JsonValue {
    match value {
        serde_json::Value::Null => JsonValue::Null,
        serde_json::Value::Bool(b) => JsonValue::Bool(b),
        serde_json::Value::Number(n) => JsonValue::Number(n),
        serde_json::Value::String(s) => JsonValue::Text(s),
        serde_json::Value::Array(items) => JsonValue::Array(items.into_iter().map(json_from_serde).collect()),
        serde_json::Value::Object(map) => JsonValue::Object(map.into_iter().map(|(k, v)| (k, json_from_serde(v))).collect()),
    }
}

/// The value as serde_json holds it, converted variant by variant.
#[verifier::external_body]
fn json_to_serde(value: &JsonValue) -> serde_json::Value {
    match value {
        JsonValue::Null => serde_json::Value::Null,
        JsonValue::Bool(b) => serde_json::Value::Bool(*b),
        JsonValue::Number(n) => serde_json::Value::Number(n.clone()),
        JsonValue::Text(s) => serde_json::Value::String(s.clone()),
        JsonValue::Array(items) => serde_json::Value::Array(items.iter().map(json_to_serde).collect()),
        JsonValue::Object(members) => serde_json::Value::Object(members.iter().map(|(k, v)| (k.clone(), json_to_serde(v))).collect()),
    }
}

/// `serde_json::from_str::<serde_json::Value>`: reads a JSON document.
/// Claimed: the document read is `json_document` of the text, and the text
/// is rejected exactly when that is nothing; the rejection carries
/// serde_json's message, of which nothing is claimed.
#[verifier::external_body]
fn parse_json_document(text: &str) -> (parsed: Result<JsonValue, String>)
    ensures
        match parsed {
            Ok(document) => json_document(text@) == Some(document@),
            Err(_) => json_document(text@) is None,
        },
{
    serde_json::from_str::<serde_json::Value>(text).map(json_from_serde).map_err(|e| e.to_string())
}

/// `serde_json::to_string_pretty`: writes a JSON document indented.
/// Claimed: the text is `json_pretty` of the document, and it fails exactly
/// when that is nothing; the failure carries serde_json's message, of which
/// nothing is claimed.
#[verifier::external_body]
fn render_json_pretty(document: &JsonValue) -> (rendered: Result<String, String>)
    ensures
        match rendered {
            Ok(text) => json_pretty(document@) == Some(text@),
            Err(_) => json_pretty(document@) is None,
        },
{
    serde_json::to_string_pretty(&json_to_serde(document)).map_err(|e| e.to_string())
}

// ---------------------------------------------------------------------------
// The styles of `angular.json`
// ---------------------------------------------------------------------------

/// The text of each entry of a JSON array that is a string, `None` for each
/// that is not.
pub open spec fn entries_view(entries: Seq<Option<String>>) -> Seq<Option<Seq<char>>> {
    entries.map_values(|entry: Option<String>|
        match entry {
            Some(text) => Some(text@),
            None => None,
        }
    )
}

/// The styles to append to an array with these entries so that it holds each
/// of `wanted`: those of `wanted`, in order, that are neither a string entry
/// already nor appended before.
pub open spec fn styles_to_append(existing: Seq<Option<Seq<char>>>, wanted: Seq<Seq<char>>) -> Seq<Seq<char>>
    decreases wanted.len(),
{
    if wanted.len() == 0 {
        Seq::empty()
    } else {
        let earlier = styles_to_append(existing, wanted.drop_last());
        let style = wanted.last();
        if existing.contains(Some(style)) || earlier.contains(style) {
            earlier
        } else {
            earlier.push(style)
        }
    }
}

fn contains_entry(existing: &Vec<Option<String>>, style: &String) -> (found: bool)
    ensures
        found == entries_view(existing@).contains(Some(style@)),
{
    let ghost view = entries_view(existing@);
    let n = existing.len();
    for i in 0..n
        invariant
            n == existing@.len(),
            view == entries_view(existing@),
            forall|j: int| 0 <= j < i ==> view[j] != Some(style@),
    {
        match &existing[i] {
            Some(text) => {
                assert(view[i as int] == Some(text@));
                if text.eq(style) {
                    assert(view[i as int] == Some(style@));
                    return true;
                }
            },
            None => {},
        }
    }
    false
}

fn contains_text(texts_so_far: &Vec<String>, style: &String) -> (found: bool)
    ensures
        found == texts(texts_so_far@).contains(style@),
{
    let ghost view = texts(texts_so_far@);
    let n = texts_so_far.len();
    for i in 0..n
        invariant
            n == texts_so_far@.len(),
            view == texts(texts_so_far@),
            forall|j: int| 0 <= j < i ==> view[j] != style@,
    {
        assert(view[i as int] == texts_so_far@[i as int]@);
        if texts_so_far[i].eq(style) {
            assert(view[i as int] == style@);
            return true;
        }
    }
    false
}

/// The styles to append to an array with entries `existing` so that it holds
/// each of `wanted`.
pub fn missing_styles(existing: &Vec<Option<String>>, wanted: &[String]) -> (added: Vec<String>)
    ensures
        texts(added@) == styles_to_append(entries_view(existing@), texts(wanted@)),
{
    let ghost present = entries_view(existing@);
    let ghost all = texts(wanted@);
    let mut added: Vec<String> = Vec::new();
    let n = wanted.len();
    for i in 0..n
        invariant
            n == wanted@.len(),
            present == entries_view(existing@),
            all == texts(wanted@),
            texts(added@) == styles_to_append(present, all.take(i as int)),
    {
        let style = &wanted[i];
        assert(all.take(i + 1).drop_last() =~= all.take(i as int));
        assert(all.take(i + 1).last() == style@);
        if !contains_entry(existing, style) && !contains_text(&added, style) {
            let ghost before = added@;
            added.push(style.clone());
            assert(texts(added@) =~= texts(before).push(style@));
        }
    }
    assert(all.take(n as int) =~= all);
    added
}

/// The entries of an array as [`styles_to_append`] reads them: the text of
/// each string, `None` for each other value.
pub open spec fn text_entries(items: Seq<JsonView>) -> Seq<Option<Seq<char>>> {
    items.map_values(|item: JsonView|
        match item {
            JsonView::Text(text) => Some(text),
            _ => None,
        }
    )
}

/// Texts as JSON strings.
pub open spec fn text_values(strings: Seq<Seq<char>>) -> Seq<JsonView> {
    strings.map_values(|text: Seq<char>| JsonView::Text(text))
}

/// The path to the global styles of the build of project `key`.
pub open spec fn styles_path(key: Seq<char>) -> Seq<Seq<char>> {
    seq!["projects"@, key, "architect"@, "build"@, "options"@, "styles"@]
}

/// The document with `wanted` added to the global styles of its first
/// project's build: the document needs a `projects` object, that object a
/// first project, and that project a `/architect/build/options/styles`
/// array, which keeps its entries and gains [`styles_to_append`] of them.
pub open spec fn styles_update(document: JsonView, wanted: Seq<Seq<char>>) -> Result<JsonView, AngularJsonError> {
    match at_path(document, seq!["projects"@]) {
        Some(JsonView::Object(projects)) => if projects.len() == 0 {
            Err(AngularJsonError::NoProjects)
        } else {
            let path = styles_path(projects[0].0);
            match at_path(document, path) {
                Some(JsonView::Array(items)) => Ok(
                    append_at_path(document, path, text_values(styles_to_append(text_entries(items), wanted))),
                ),
                _ => Err(AngularJsonError::MissingStyles),
            }
        },
        _ => Err(AngularJsonError::MissingProjects),
    }
}

/// The new text of `angular.json`: the document read from `text`, with
/// `wanted` added by [`styles_update`], written indented, with a final
/// newline.
pub open spec fn angular_json_update(text: Seq<char>, wanted: Seq<Seq<char>>) -> Result<Seq<char>, AngularJsonError> {
    match json_document(text) {
        None => Err(AngularJsonError::InvalidJson),
        Some(document) => match styles_update(document, wanted) {
            Err(kind) => Err(kind),
            Ok(updated) => match json_pretty(updated) {
                Some(rendered) => Ok(rendered + "\n"@),
                None => Err(AngularJsonError::RenderFailed),
            },
        },
    }
}

pub open spec fn found_view(found: Option<&JsonValue>) -> Option<JsonView> {
    match found {
        Some(value) => Some(value@),
        None => None,
    }
}

/// The position of the first member named `key`.
fn find_member(members: &Vec<(String, JsonValue)>, key: &str) -> (found: Option<usize>)
    ensures
        match found {
            Some(i) => i < members@.len() && index_of(member_views(members@), key@) == Some(i as int),
            None => index_of(member_views(members@), key@) is None,
        },
{
    let ghost views = member_views(members@);
    proof {
        lemma_member_views(members@);
        lemma_index_of(views, key@);
    }
    let wanted = owned(key);
    let n = members.len();
    for i in 0..n
        invariant
            n == members@.len(),
            wanted@ == key@,
            views == member_views(members@),
            views.len() == n,
            forall|j: int| 0 <= j < n ==> #[trigger] views[j] == (members@[j].0@, json_view(members@[j].1)),
            forall|j: int| 0 <= j < i ==> views[j].0 != key@,
    {
        if members[i].0.eq(&wanted) {
            proof {
                lemma_index_of_first(views, key@, i as int);
            }
            return Some(i);
        }
    }
    proof {
        lemma_index_of(views, key@);
        if index_of(views, key@) is Some {
            let i = index_of(views, key@).unwrap();
            assert(views[i].0 == key@);
        }
    }
    None
}

/// The value that the members named by `path`, from position `from` on,
/// lead to.
fn lookup<'a>(value: &'a JsonValue, path: &Vec<String>, from: usize) -> (found: Option<&'a JsonValue>)
    requires
        from <= path@.len(),
    ensures
        found_view(found) == at_path(value@, texts(path@).skip(from as int)),
    decreases path@.len() - from,
{
    let ghost rest = texts(path@).skip(from as int);
    if from == path.len() {
        return Some(value);
    }
    assert(rest[0] == path@[from as int]@);
    assert(rest.drop_first() =~= texts(path@).skip(from + 1));
    match value {
        JsonValue::Object(members) => match find_member(members, path[from].as_str()) {
            Some(i) => {
                proof {
                    lemma_member_views(members@);
                    assert(value@ == JsonView::Object(member_views(members@)));
                    assert(member_views(members@)[i as int].1 == members@[i as int].1@);
                }
                lookup(&members[i].1, path, from + 1)
            },
            None => {
                assert(value@ == JsonView::Object(member_views(members@)));
                None
            },
        },
        _ => None,
    }
}

/// `value` with `added` appended to the array that `path`, from position
/// `from` on, leads to.
fn appended_at(value: JsonValue, path: &Vec<String>, from: usize, added: Vec<JsonValue>) -> (result: JsonValue)
    requires
        from <= path@.len(),
    ensures
        result@ == append_at_path(value@, texts(path@).skip(from as int), json_views(added@)),
    decreases path@.len() - from,
{
    let ghost rest = texts(path@).skip(from as int);
    let ghost before = value@;
    if from == path.len() {
        return match value {
            JsonValue::Array(items) => {
                let mut items = items;
                let mut added = added;
                let ghost old_items = items@;
                let ghost new_items = added@;
                items.append(&mut added);
                proof {
                    lemma_json_views(old_items);
                    lemma_json_views(new_items);
                    lemma_json_views(items@);
                    assert(json_views(items@) =~= json_views(old_items) + json_views(new_items));
                }
                JsonValue::Array(items)
            },
            other => other,
        };
    }
    assert(rest[0] == path@[from as int]@);
    assert(rest.drop_first() =~= texts(path@).skip(from + 1));
    match value {
        JsonValue::Object(members) => {
            let mut members = members;
            match find_member(&members, path[from].as_str()) {
                Some(i) => {
                    let ghost old_members = members@;
                    proof {
                        lemma_member_views(old_members);
                    }
                    let (key, child) = members.remove(i);
                    let new_child = appended_at(child, path, from + 1, added);
                    members.insert(i, (key, new_child));
                    proof {
                        assert(members@ =~= old_members.update(i as int, (key, new_child)));
                        lemma_member_views(members@);
                        assert(member_views(members@) =~= member_views(old_members).update(
                            i as int,
                            (member_views(old_members)[i as int].0, json_view(new_child)),
                        ));
                    }
                    JsonValue::Object(members)
                },
                None => JsonValue::Object(members),
            }
        },
        other => other,
    }
}

/// The entries of an array as [`missing_styles`] reads them.
fn text_entries_of(items: &Vec<JsonValue>) -> (entries: Vec<Option<String>>)
    ensures
        entries_view(entries@) == text_entries(json_views(items@)),
{
    proof {
        lemma_json_views(items@);
    }
    let mut entries: Vec<Option<String>> = Vec::new();
    let n = items.len();
    for i in 0..n
        invariant
            n == items@.len(),
            json_views(items@).len() == n,
            forall|j: int| 0 <= j < n ==> #[trigger] json_views(items@)[j] == json_view(items@[j]),
            entries_view(entries@) == text_entries(json_views(items@).take(i as int)),
    {
        let entry = match &items[i] {
            JsonValue::Text(text) => Some(text.clone()),
            _ => None,
        };
        let ghost prev = entries@;
        entries.push(entry);
        assert(entries_view(entries@) =~= entries_view(prev).push(text_entries(json_views(items@))[i as int]));
        assert(json_views(items@).take(i + 1) =~= json_views(items@).take(i as int).push(json_views(items@)[i as int]));
        assert(text_entries(json_views(items@).take(i + 1)) =~= text_entries(json_views(items@).take(i as int)).push(
            text_entries(json_views(items@))[i as int],
        ));
    }
    assert(json_views(items@).take(n as int) =~= json_views(items@));
    entries
}

/// Styles as JSON strings.
fn text_values_of(styles: &Vec<String>) -> (values: Vec<JsonValue>)
    ensures
        json_views(values@) == text_values(texts(styles@)),
{
    let mut values: Vec<JsonValue> = Vec::new();
    let n = styles.len();
    for i in 0..n
        invariant
            n == styles@.len(),
            json_views(values@) == text_values(texts(styles@).take(i as int)),
    {
        let ghost prev = values@;
        let text = styles[i].clone();
        let value = JsonValue::Text(text);
        assert(value@ == JsonView::Text(styles@[i as int]@));
        values.push(value);
        assert(values@.drop_last() =~= prev);
        assert(json_views(values@) == json_views(prev).push(JsonView::Text(styles@[i as int]@)));
        assert(texts(styles@).take(i + 1) =~= texts(styles@).take(i as int).push(styles@[i as int]@));
        assert(text_values(texts(styles@).take(i + 1)) =~= text_values(texts(styles@).take(i as int)).push(
            JsonView::Text(styles@[i as int]@),
        ));
    }
    assert(texts(styles@).take(n as int) =~= texts(styles@));
    values
}

fn owned(text: &str) -> (s: String)
    ensures
        s@ == text@,
{
    String::from_str(text)
}

/// The path to the global styles of the build of project `key`.
fn styles_path_for(key: &String) -> (path: Vec<String>)
    ensures
        texts(path@) == styles_path(key@),
{
    let mut path: Vec<String> = Vec::new();
    path.push(owned("projects"));
    path.push(key.clone());
    path.push(owned("architect"));
    path.push(owned("build"));
    path.push(owned("options"));
    path.push(owned("styles"));
    assert(texts(path@) =~= styles_path(key@));
    path
}

/// The document with `styles` added by [`styles_update`].
pub fn updated_document(document: JsonValue, styles: &[String]) -> (result: Result<JsonValue, AngularJsonError>)
    ensures
        match result {
            Ok(updated) => styles_update(document@, texts(styles@)) == Ok::<JsonView, AngularJsonError>(updated@),
            Err(kind) => styles_update(document@, texts(styles@)) == Err::<JsonView, AngularJsonError>(kind),
        },
{
    let mut projects_path: Vec<String> = Vec::new();
    projects_path.push(owned("projects"));
    assert(texts(projects_path@).skip(0) =~= seq!["projects"@]);
    let first_key = match lookup(&document, &projects_path, 0) {
        Some(JsonValue::Object(projects)) => {
            proof {
                lemma_member_views(projects@);
            }
            if projects.len() == 0 {
                return Err(AngularJsonError::NoProjects);
            }
            projects[0].0.clone()
        },
        _ => return Err(AngularJsonError::MissingProjects),
    };
    let path = styles_path_for(&first_key);
    assert(texts(path@).skip(0) =~= texts(path@));
    let existing = match lookup(&document, &path, 0) {
        Some(JsonValue::Array(items)) => text_entries_of(items),
        _ => return Err(AngularJsonError::MissingStyles),
    };
    let added = missing_styles(&existing, styles);
    let values = text_values_of(&added);
    Ok(appended_at(document, &path, 0, values))
}

/// The text of `angular.json` with `styles` added to the global styles of
/// its first project's build, each that is not there already, in order,
/// written out indented, with a final newline: [`angular_json_update`].
/// A document that does not parse or cannot be written carries serde_json's
/// message as the error's cause.
pub fn updated_angular_json(text: &str, styles: &[String]) -> (result: Result<String, SeedError>)
    ensures
        match result {
            Ok(updated) => angular_json_update(text@, texts(styles@)) == Ok::<Seq<char>, AngularJsonError>(updated@),
            Err(SeedError::AngularJson(kind, cause)) => {
                &&& angular_json_update(text@, texts(styles@)) == Err::<Seq<char>, AngularJsonError>(kind)
                &&& cause is Some <==> (kind == AngularJsonError::InvalidJson || kind == AngularJsonError::RenderFailed)
            },
            Err(_) => false,
        },
{
    let document = match parse_json_document(text) {
        Ok(document) => document,
        Err(cause) => return Err(SeedError::AngularJson(AngularJsonError::InvalidJson, Some(cause))),
    };
    let updated = match updated_document(document, styles) {
        Ok(updated) => updated,
        Err(kind) => return Err(SeedError::AngularJson(kind, None)),
    };
    match render_json_pretty(&updated) {
        Ok(rendered) => {
            let mut result = rendered;
            result.append("\n");
            Ok(result)
        },
        Err(cause) => Err(SeedError::AngularJson(AngularJsonError::RenderFailed, Some(cause))),
    }
}

// ---------------------------------------------------------------------------
// Laws of the styles update
// ---------------------------------------------------------------------------

/// The appended styles as array entries.
pub open spec fn as_entries(styles: Seq<Seq<char>>) -> Seq<Option<Seq<char>>> {
    styles.map_values(|style: Seq<char>| Some(style))
}

/// Law: after the update every wanted style is in the array, no style is
/// appended twice, and none that was there already.
pub proof fn law_styles_present_once(existing: Seq<Option<Seq<char>>>, wanted: Seq<Seq<char>>)
    ensures
        forall|i: int| 0 <= i < wanted.len() ==> existing.contains(Some(#[trigger] wanted[i]))
            || styles_to_append(existing, wanted).contains(wanted[i]),
        forall|i: int, j: int| 0 <= i < j < styles_to_append(existing, wanted).len()
            ==> styles_to_append(existing, wanted)[i] != styles_to_append(existing, wanted)[j],
        forall|i: int| 0 <= i < styles_to_append(existing, wanted).len()
            ==> !existing.contains(Some(#[trigger] styles_to_append(existing, wanted)[i])),
    decreases wanted.len(),
{
    if wanted.len() > 0 {
        let rest = wanted.drop_last();
        law_styles_present_once(existing, rest);
        let earlier = styles_to_append(existing, rest);
        let added = styles_to_append(existing, wanted);
        assert forall|i: int| 0 <= i < wanted.len() implies existing.contains(Some(#[trigger] wanted[i]))
            || added.contains(wanted[i]) by {
            if i < wanted.len() - 1 {
                assert(wanted[i] == rest[i]);
                if earlier.contains(rest[i]) {
                    let k = choose|k: int| 0 <= k < earlier.len() && earlier[k] == rest[i];
                    assert(added[k] == earlier[k]);
                }
            } else if !existing.contains(Some(wanted[i])) && !earlier.contains(wanted[i]) {
                assert(added[added.len() - 1] == wanted[i]);
            }
        }
    }
}

proof fn lemma_nothing_to_append(existing: Seq<Option<Seq<char>>>, wanted: Seq<Seq<char>>)
    requires
        forall|i: int| 0 <= i < wanted.len() ==> existing.contains(Some(#[trigger] wanted[i])),
    ensures
        styles_to_append(existing, wanted) == Seq::<Seq<char>>::empty(),
    decreases wanted.len(),
{
    if wanted.len() > 0 {
        let rest = wanted.drop_last();
        assert forall|i: int| 0 <= i < rest.len() implies existing.contains(Some(#[trigger] rest[i])) by {
            assert(rest[i] == wanted[i]);
        }
        lemma_nothing_to_append(existing, rest);
        assert(existing.contains(Some(wanted[wanted.len() - 1])));
    }
}

/// Law: adding the same styles a second time appends nothing.
pub proof fn law_styles_update_is_idempotent(existing: Seq<Option<Seq<char>>>, wanted: Seq<Seq<char>>)
    ensures
        styles_to_append(existing + as_entries(styles_to_append(existing, wanted)), wanted)
            == Seq::<Seq<char>>::empty(),
{
    let added = styles_to_append(existing, wanted);
    let after = existing + as_entries(added);
    law_styles_present_once(existing, wanted);
    assert forall|i: int| 0 <= i < wanted.len() implies after.contains(Some(#[trigger] wanted[i])) by {
        if existing.contains(Some(wanted[i])) {
            let k = choose|k: int| 0 <= k < existing.len() && existing[k] == Some(wanted[i]);
            assert(after[k] == existing[k]);
        } else {
            let k = choose|k: int| 0 <= k < added.len() && added[k] == wanted[i];
            assert(after[existing.len() + k] == as_entries(added)[k]);
        }
    }
    lemma_nothing_to_append(after, wanted);
}

// ---------------------------------------------------------------------------
// Laws of the document update
// ---------------------------------------------------------------------------

proof fn lemma_update_keeps_keys(members: Seq<(Seq<char>, JsonView)>, i: int, value: JsonView, key: Seq<char>)
    requires
        0 <= i < members.len(),
    ensures
        index_of(members.update(i, (members[i].0, value)), key) == index_of(members, key),
{
    lemma_index_of_same_keys(members.update(i, (members[i].0, value)), members, key);
}

/// Appending nothing changes nothing.
pub proof fn lemma_append_nothing(value: JsonView, path: Seq<Seq<char>>)
    ensures
        append_at_path(value, path, Seq::<JsonView>::empty()) == value,
    decreases path.len(),
{
    if path.len() == 0 {
        if let JsonView::Array(items) = value {
            assert(items + Seq::<JsonView>::empty() =~= items);
        }
    } else if let JsonView::Object(members) = value {
        lemma_index_of(members, path[0]);
        if let Some(i) = index_of(members, path[0]) {
            lemma_append_nothing(members[i].1, path.drop_first());
            assert(members.update(i, (members[i].0, members[i].1)) =~= members);
        }
    }
}

/// After the append, the path leads to the array with the added values at
/// its end.
pub proof fn lemma_append_reaches_array(value: JsonView, path: Seq<Seq<char>>, added: Seq<JsonView>)
    requires
        at_path(value, path) matches Some(JsonView::Array(_)),
    ensures
        at_path(append_at_path(value, path, added), path) == Some(
            JsonView::Array(at_path(value, path).unwrap()->Array_0 + added),
        ),
    decreases path.len(),
{
    if path.len() > 0 {
        if let JsonView::Object(members) = value {
            lemma_index_of(members, path[0]);
            let i = index_of(members, path[0]).unwrap();
            let child = append_at_path(members[i].1, path.drop_first(), added);
            lemma_update_keeps_keys(members, i, child, path[0]);
            lemma_append_reaches_array(members[i].1, path.drop_first(), added);
        }
    }
}

/// Whether `other` leaves `path` somewhere: at position `k` it names another
/// member, after agreeing on all before.
pub open spec fn diverges_at(path: Seq<Seq<char>>, other: Seq<Seq<char>>, k: int) -> bool {
    &&& 0 <= k < path.len()
    &&& k < other.len()
    &&& other[k] != path[k]
    &&& forall|j: int| 0 <= j < k ==> other[j] == path[j]
}

/// The append changes nothing that a path leaving its own reaches.
pub proof fn lemma_append_elsewhere(
    value: JsonView,
    path: Seq<Seq<char>>,
    added: Seq<JsonView>,
    other: Seq<Seq<char>>,
    k: int,
)
    requires
        diverges_at(path, other, k),
    ensures
        at_path(append_at_path(value, path, added), other) == at_path(value, other),
    decreases k,
{
    if let JsonView::Object(members) = value {
        lemma_index_of(members, path[0]);
        if let Some(i) = index_of(members, path[0]) {
            let child = append_at_path(members[i].1, path.drop_first(), added);
            let updated = members.update(i, (members[i].0, child));
            lemma_update_keeps_keys(members, i, child, other[0]);
            lemma_index_of(members, other[0]);
            if k == 0 {
                if let Some(j) = index_of(members, other[0]) {
                    assert(j != i);
                    assert(updated[j] == members[j]);
                }
            } else {
                assert(other[0] == path[0]);
                assert(diverges_at(path.drop_first(), other.drop_first(), k - 1)) by {
                    assert forall|j: int| 0 <= j < k - 1 implies other.drop_first()[j] == path.drop_first()[j] by {
                        assert(other[j + 1] == path[j + 1]);
                    }
                }
                lemma_append_elsewhere(members[i].1, path.drop_first(), added, other.drop_first(), k - 1);
            }
        }
    }
}

/// Before the end of the path, the objects passed through keep their
/// members' names, in order.
proof fn lemma_append_keeps_names(value: JsonView, path: Seq<Seq<char>>, added: Seq<JsonView>, m: int)
    requires
        0 <= m < path.len(),
        at_path(value, path) is Some,
        at_path(value, path.take(m)) matches Some(JsonView::Object(_)),
    ensures
        at_path(append_at_path(value, path, added), path.take(m)) matches Some(JsonView::Object(after))
            && after.len() == at_path(value, path.take(m)).unwrap()->Object_0.len()
            && forall|j: int| 0 <= j < after.len()
                ==> #[trigger] after[j].0 == at_path(value, path.take(m)).unwrap()->Object_0[j].0,
    decreases m,
{
    if let JsonView::Object(members) = value {
        lemma_index_of(members, path[0]);
        let i = index_of(members, path[0]).unwrap();
        let child = append_at_path(members[i].1, path.drop_first(), added);
        let updated = members.update(i, (members[i].0, child));
        lemma_update_keeps_keys(members, i, child, path[0]);
        if m == 0 {
            assert(path.take(0) =~= Seq::<Seq<char>>::empty());
        } else {
            assert(path.take(m).drop_first() =~= path.drop_first().take(m - 1));
            assert(path.take(m)[0] == path[0]);
            lemma_append_keeps_names(members[i].1, path.drop_first(), added, m - 1);
        }
    }
}

/// Law: a successful update puts into the styles array of the first project
/// its old entries followed by the styles to append, and changes nothing
/// that a path leaving that array reaches (other members, other projects).
pub proof fn law_update_places_styles(document: JsonView, wanted: Seq<Seq<char>>, other: Seq<Seq<char>>, k: int)
    requires
        styles_update(document, wanted) is Ok,
    ensures
        ({
            let key = at_path(document, seq!["projects"@]).unwrap()->Object_0[0].0;
            let path = styles_path(key);
            let items = at_path(document, path).unwrap()->Array_0;
            let updated = styles_update(document, wanted).unwrap();
            &&& at_path(updated, path) == Some(JsonView::Array(
                items + text_values(styles_to_append(text_entries(items), wanted)),
            ))
            &&& diverges_at(path, other, k) ==> at_path(updated, other) == at_path(document, other)
        }),
{
    let key = at_path(document, seq!["projects"@]).unwrap()->Object_0[0].0;
    let path = styles_path(key);
    let added = text_values(styles_to_append(text_entries(at_path(document, path).unwrap()->Array_0), wanted));
    lemma_append_reaches_array(document, path, added);
    if diverges_at(path, other, k) {
        lemma_append_elsewhere(document, path, added, other, k);
    }
}

/// Law: updating the updated document with the same styles gives it back
/// unchanged.
pub proof fn law_second_update_changes_nothing(document: JsonView, wanted: Seq<Seq<char>>)
    requires
        styles_update(document, wanted) is Ok,
    ensures
        styles_update(styles_update(document, wanted).unwrap(), wanted) == styles_update(document, wanted),
{
    let projects = at_path(document, seq!["projects"@]).unwrap()->Object_0;
    let key = projects[0].0;
    let path = styles_path(key);
    let items = at_path(document, path).unwrap()->Array_0;
    let added = styles_to_append(text_entries(items), wanted);
    let updated = append_at_path(document, path, text_values(added));
    assert(path.take(1) =~= seq!["projects"@]);
    lemma_append_keeps_names(document, path, text_values(added), 1);
    lemma_append_reaches_array(document, path, text_values(added));
    let after = at_path(updated, seq!["projects"@]).unwrap()->Object_0;
    assert(after[0].0 == key);
    assert(text_entries(items + text_values(added)) =~= text_entries(items) + as_entries(added));
    law_styles_update_is_idempotent(text_entries(items), wanted);
    assert(text_values(Seq::<Seq<char>>::empty()) =~= Seq::<JsonView>::empty());
    lemma_append_nothing(updated, path);
}

} // verus!
