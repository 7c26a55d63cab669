//! The two configuration files: substitution rules and width exclusions.

use crate::json::{
    json_document, lemma_list_view, lemma_object_view, parse_json, Field, Json, JsonValue,
};
use crate::rules::{rules_of, Replacement, Rule};
use vstd::prelude::*;
use vstd::string::StringExecFns;

verus! {

/// File name of the substitution rules inside the configuration directory.
pub const REPLACEMENTS_FILE_NAME: &'static str = "replacements.json";

/// File name of the width exclusions inside the configuration directory.
pub const EXCLUSIONS_FILE_NAME: &'static str = "exclusions.json";

/// Why a configuration file gave no configuration.
#[derive(Debug, Clone, Copy, PartialEq, Eq, Structural)]
pub enum ConfigError {
    /// The file is missing or could not be read.
    Read,
    /// The file holds no JSON document, or one of another shape.
    Parse,
}

/// The value of the first field called `name`.
pub open spec fn field_value(fields: Seq<(Seq<char>, JsonValue)>, name: Seq<char>) -> Option<
    JsonValue,
>
    decreases fields.len(),
{
    if fields.len() == 0 {
        None
    } else if fields[0].0 == name {
        Some(fields[0].1)
    } else {
        field_value(fields.skip(1), name)
    }
}

/// The text of the first field called `name`, if that field holds a text.
pub open spec fn text_field(item: JsonValue, name: Seq<char>) -> Option<Seq<char>> {
    match item {
        JsonValue::Object(fields) => match field_value(fields, name) {
            Some(JsonValue::Text(text)) => Some(text),
            _ => None,
        },
        _ => None,
    }
}

/// The rule that an object with the texts `original` and `replacement` stands
/// for. Other fields are ignored.
pub open spec fn rule_of_json(item: JsonValue) -> Option<Rule> {
    match (text_field(item, "original"@), text_field(item, "replacement"@)) {
        (Some(original), Some(replacement)) => Some(Rule { original, replacement }),
        _ => None,
    }
}

/// The rules that a list of rule objects stands for, in list order.
pub open spec fn rules_of_json(doc: JsonValue) -> Option<Seq<Rule>> {
    match doc {
        JsonValue::List(items) => if forall|i: int|
            0 <= i < items.len() ==> (#[trigger] rule_of_json(items[i])) is Some {
            Some(Seq::new(items.len(), |i: int| rule_of_json(items[i]).unwrap()))
        } else {
            None
        },
        _ => None,
    }
}

/// The character that a text of exactly one character stands for.
pub open spec fn char_of_json(item: JsonValue) -> Option<char> {
    match item {
        JsonValue::Text(text) => if text.len() == 1 {
            Some(text[0])
        } else {
            None
        },
        _ => None,
    }
}

/// The characters that an object stands for whose field `exclude` is a list
/// of single-character texts, in list order.
pub open spec fn exclusions_of_json(doc: JsonValue) -> Option<Seq<char>> {
    match doc {
        JsonValue::Object(fields) => match field_value(fields, "exclude"@) {
            Some(JsonValue::List(items)) => if forall|i: int|
                0 <= i < items.len() ==> (#[trigger] char_of_json(items[i])) is Some {
                Some(Seq::new(items.len(), |i: int| char_of_json(items[i]).unwrap()))
            } else {
                None
            },
            _ => None,
        },
        _ => None,
    }
}

/// What the rules file gives: the rules of its document, an error where it
/// was not read, holds no document, or one of another shape.
pub open spec fn loaded_rules(read: Result<Seq<char>, Seq<char>>) -> Result<Seq<Rule>, ConfigError> {
    match read {
        Err(_) => Err(ConfigError::Read),
        Ok(text) => match json_document(text) {
            None => Err(ConfigError::Parse),
            Some(doc) => match rules_of_json(doc) {
                None => Err(ConfigError::Parse),
                Some(rules) => Ok(rules),
            },
        },
    }
}

/// What the exclusions file gives: the characters of its document, an error
/// where it was not read, holds no document, or one of another shape.
pub open spec fn loaded_exclusions(read: Result<Seq<char>, Seq<char>>) -> Result<
    Seq<char>,
    ConfigError,
> {
    match read {
        Err(_) => Err(ConfigError::Read),
        Ok(text) => match json_document(text) {
            None => Err(ConfigError::Parse),
            Some(doc) => match exclusions_of_json(doc) {
                None => Err(ConfigError::Parse),
                Some(chars) => Ok(chars),
            },
        },
    }
}

/// The outcome of reading a file, as a model value: the text that was read,
/// or the reason why none was.
pub open spec fn read_view(read: Result<&str, &str>) -> Result<Seq<char>, Seq<char>> {
    match read {
        Ok(text) => Ok(text@),
        Err(reason) => Err(reason@),
    }
}

/// The first field of `fields` that is called `name`.
fn find_field<'a>(fields: &'a Vec<Field>, name: &str) -> (found: Option<&'a Json>)
    ensures
        match found {
            Some(value) => field_value(Json::Object(*fields)@->Object_0, name@) == Some(value@),
            None => field_value(Json::Object(*fields)@->Object_0, name@) is None,
        },
{
    let wanted = String::from_str(name);
    let ghost all = Json::Object(*fields)@->Object_0;
    let mut i: usize = 0;
    proof {
        lemma_object_view(*fields);
        assert(all.skip(0) =~= all);
    }
    while i < fields.len()
        invariant
            i <= fields.len(),
            wanted@ == name@,
            all == Json::Object(*fields)@->Object_0,
            all.len() == fields.len(),
            forall|j: int|
                0 <= j < fields.len() ==> (#[trigger] all[j]) == (
                    fields@[j].name@,
                    fields@[j].value@,
                ),
            field_value(all.skip(i as int), name@) == field_value(all, name@),
        decreases fields.len() - i,
    {
        let ghost rest = all.skip(i as int);
        assert(rest.len() > 0);
        assert(rest[0] == all[i as int]);
        assert(rest.skip(1) =~= all.skip(i + 1));
        if fields[i].name == wanted {
            assert(field_value(rest, name@) == Some(fields@[i as int].value@));
            return Some(&fields[i].value);
        }
        i = i + 1;
    }
    None
}

/// The text of the first field of `item` called `name`.
fn find_text(item: &Json, name: &str) -> (found: Option<String>)
    ensures
        match found {
            Some(text) => text_field(item@, name@) == Some(text@),
            None => text_field(item@, name@) is None,
        },
{
    match item {
        Json::Object(fields) => match find_field(fields, name) {
            Some(Json::Text(text)) => Some(text.clone()),
            _ => None,
        },
        _ => None,
    }
}

/// The rule that `item` stands for: an object whose fields `original` and
/// `replacement` hold texts.
pub fn rule_from_json(item: &Json) -> (r: Option<Replacement>)
    ensures
        match r {
            Some(rule) => rule_of_json(item@) == Some(rule@),
            None => rule_of_json(item@) is None,
        },
{
    let original = find_text(item, "original");
    let replacement = find_text(item, "replacement");
    match (original, replacement) {
        (Some(original), Some(replacement)) => Some(Replacement { original, replacement }),
        _ => None,
    }
}

/// The rules that `doc` stands for: a list of rule objects. Any other
/// document is a parse error.
pub fn rules_from_json(doc: &Json) -> (r: Result<Vec<Replacement>, ConfigError>)
    ensures
        match r {
            Ok(rules) => rules_of_json(doc@) == Some(rules_of(rules@)),
            Err(e) => e == ConfigError::Parse && rules_of_json(doc@) is None,
        },
{
    match doc {
        Json::List(items) => {
            let ghost all = doc@->List_0;
            let mut rules: Vec<Replacement> = Vec::new();
            let mut i: usize = 0;
            proof {
                lemma_list_view(*items);
            }
            while i < items.len()
                invariant
                    i <= items.len(),
                    rules.len() == i,
                    doc@ is List,
                    all == doc@->List_0,
                    all.len() == items.len(),
                    forall|j: int| 0 <= j < items.len() ==> all[j] == (#[trigger] items@[j])@,
                    forall|j: int|
                        0 <= j < i ==> rule_of_json(all[j]) == Some((#[trigger] rules@[j])@),
                decreases items.len() - i,
            {
                match rule_from_json(&items[i]) {
                    Some(rule) => {
                        rules.push(rule);
                    },
                    None => {
                        assert(rule_of_json(all[i as int]) is None);
                        return Err(ConfigError::Parse);
                    },
                }
                i = i + 1;
            }
            proof {
                assert forall|j: int| 0 <= j < all.len() implies (#[trigger] rule_of_json(
                    all[j],
                )) == Some(rules@[j]@) by {
                    assert(rules@[j]@ == rules@[j]@);
                }
                assert(rules_of_json(doc@) is Some);
                assert(rules_of_json(doc@).unwrap() =~= rules_of(rules@));
            }
            Ok(rules)
        },
        _ => Err(ConfigError::Parse),
    }
}

/// The character that `item` stands for: a text of exactly one character.
pub fn char_from_json(item: &Json) -> (r: Option<char>)
    ensures
        r == char_of_json(item@),
{
    match item {
        Json::Text(text) => {
            if text.as_str().unicode_len() == 1 {
                Some(text.as_str().get_char(0))
            } else {
                None
            }
        },
        _ => None,
    }
}

/// The exclusions that `doc` stands for: an object whose field `exclude` is a
/// list of single-character texts. Any other document is a parse error.
pub fn exclusions_from_json(doc: &Json) -> (r: Result<Vec<char>, ConfigError>)
    ensures
        match r {
            Ok(chars) => exclusions_of_json(doc@) == Some(chars@),
            Err(e) => e == ConfigError::Parse && exclusions_of_json(doc@) is None,
        },
{
    match doc {
        Json::Object(fields) => match find_field(fields, "exclude") {
            Some(Json::List(items)) => {
                let ghost all = Json::List(*items)@->List_0;
                let mut chars: Vec<char> = Vec::new();
                let mut i: usize = 0;
                proof {
                    lemma_list_view(*items);
                    lemma_object_view(*fields);
                }
                while i < items.len()
                    invariant
                        i <= items.len(),
                        chars.len() == i,
                        exclusions_of_json(doc@) == if forall|k: int|
                            0 <= k < all.len() ==> (#[trigger] char_of_json(all[k])) is Some {
                            Some(Seq::new(all.len(), |k: int| char_of_json(all[k]).unwrap()))
                        } else {
                            None
                        },
                        all.len() == items.len(),
                        forall|j: int| 0 <= j < items.len() ==> all[j] == (#[trigger] items@[j])@,
                        forall|j: int|
                            0 <= j < i ==> char_of_json(all[j]) == Some(#[trigger] chars@[j]),
                    decreases items.len() - i,
                {
                    match char_from_json(&items[i]) {
                        Some(c) => {
                            chars.push(c);
                        },
                        None => {
                            assert(char_of_json(all[i as int]) is None);
                            return Err(ConfigError::Parse);
                        },
                    }
                    i = i + 1;
                }
                proof {
                    assert forall|j: int| 0 <= j < all.len() implies (#[trigger] char_of_json(
                        all[j],
                    )) == Some(chars@[j]) by {
                        assert(chars@[j] == chars@[j]);
                    }
                    assert(exclusions_of_json(doc@) is Some);
                    assert(exclusions_of_json(doc@).unwrap() =~= chars@);
                }
                Ok(chars)
            },
            _ => Err(ConfigError::Parse),
        },
        _ => Err(ConfigError::Parse),
    }
}

/// Decodes the substitution rules from the outcome of reading their file:
/// `Ok` with the text that was read, `Err` with the reason why none was.
pub fn load_replacements(read: Result<&str, &str>) -> (r: Result<Vec<Replacement>, ConfigError>)
    ensures
        match r {
            Ok(rules) => loaded_rules(read_view(read)) == Ok::<Seq<Rule>, ConfigError>(
                rules_of(rules@),
            ),
            Err(e) => loaded_rules(read_view(read)) == Err::<Seq<Rule>, ConfigError>(e),
        },
{
    match read {
        Err(_) => Err(ConfigError::Read),
        Ok(text) => match parse_json(text) {
            Err(_) => Err(ConfigError::Parse),
            Ok(doc) => rules_from_json(&doc),
        },
    }
}

/// Decodes the width exclusions from the outcome of reading their file: `Ok`
/// with the text that was read, `Err` with the reason why none was.
pub fn load_exclusion_list(read: Result<&str, &str>) -> (r: Result<Vec<char>, ConfigError>)
    ensures
        match r {
            Ok(chars) => loaded_exclusions(read_view(read)) == Ok::<Seq<char>, ConfigError>(chars@),
            Err(e) => loaded_exclusions(read_view(read)) == Err::<Seq<char>, ConfigError>(e),
        },
{
    match read {
        Err(_) => Err(ConfigError::Read),
        Ok(text) => match parse_json(text) {
            Err(_) => Err(ConfigError::Parse),
            Ok(doc) => exclusions_from_json(&doc),
        },
    }
}

} // verus!
