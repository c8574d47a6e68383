use vstd::prelude::*;

verus! {

/// A JSON document as the completion service answers it, held as plain values.
///
/// Numbers keep their decimal text; an object keeps its members in order.
#[derive(Debug, PartialEq)]
pub enum JsonValue {
    Null,
    Bool(bool),
    Number(String),
    Str(String),
    Array(Vec<JsonValue>),
    Object(Vec<(String, JsonValue)>),
}

/// The value of the last member named `key`, if any (a later member of the same
/// name replaces an earlier one, as when `serde_json` reads an object).
pub open spec fn entry_lookup(entries: Seq<(String, JsonValue)>, key: Seq<char>) -> Option<JsonValue>
    decreases entries.len(),
{
    if entries.len() == 0 {
        None
    } else if entries.last().0@ == key {
        Some(entries.last().1)
    } else {
        entry_lookup(entries.drop_last(), key)
    }
}

/// `value[key]` for an object; nothing for any other value.
pub open spec fn spec_member(value: JsonValue, key: Seq<char>) -> Option<JsonValue> {
    match value {
        JsonValue::Object(entries) => entry_lookup(entries@, key),
        _ => None,
    }
}

/// `value[index]` for an array; nothing for any other value or an index out of range.
pub open spec fn spec_element(value: JsonValue, index: int) -> Option<JsonValue> {
    match value {
        JsonValue::Array(items) => if 0 <= index < items@.len() {
            Some(items@[index])
        } else {
            None
        },
        _ => None,
    }
}

/// The text of a JSON string; nothing for any other value.
pub open spec fn spec_text(value: JsonValue) -> Option<Seq<char>> {
    match value {
        JsonValue::Str(s) => Some(s@),
        _ => None,
    }
}

pub open spec fn member_of(value: Option<JsonValue>, key: Seq<char>) -> Option<JsonValue> {
    match value {
        Some(v) => spec_member(v, key),
        None => None,
    }
}

pub open spec fn text_of(value: Option<JsonValue>) -> Option<Seq<char>> {
    match value {
        Some(v) => spec_text(v),
        None => None,
    }
}

/// `choices[0].message.content` of a chat completion, when it is a string.
pub open spec fn spec_completion_text(reply: JsonValue) -> Option<Seq<char>> {
    let first = match spec_member(reply, "choices"@) {
        Some(choices) => spec_element(choices, 0),
        None => None,
    };
    text_of(member_of(member_of(first, "message"@), "content"@))
}

/// `text` of a transcription, when it is a string.
pub open spec fn spec_transcript_text(reply: JsonValue) -> Option<Seq<char>> {
    text_of(spec_member(reply, "text"@))
}

impl JsonValue {
    /// The member named `key` of an object (the last one, should the name repeat).
    pub fn member(&self, key: &String) -> (res: Option<&JsonValue>)
        ensures
            match res {
                Some(r) => spec_member(*self, key@) == Some(*r),
                None => spec_member(*self, key@) is None,
            },
    {
        match self {
            JsonValue::Object(entries) => {
                let mut i: usize = entries.len();
                assert(entries@.take(i as int) =~= entries@);
                while i > 0
                    invariant
                        i <= entries@.len(),
                        spec_member(*self, key@) == entry_lookup(entries@, key@),
                        entry_lookup(entries@, key@) == entry_lookup(entries@.take(i as int), key@),
                    decreases i,
                {
                    assert(entries@.take(i as int).drop_last() =~= entries@.take(i - 1));
                    assert(entries@.take(i as int).last() == entries@[i - 1]);
                    if entries[i - 1].0 == *key {
                        return Some(&entries[i - 1].1);
                    }
                    i = i - 1;
                }
                None
            },
            _ => None,
        }
    }

    /// The element at `index` of an array.
    pub fn element(&self, index: usize) -> (res: Option<&JsonValue>)
        ensures
            match res {
                Some(r) => spec_element(*self, index as int) == Some(*r),
                None => spec_element(*self, index as int) is None,
            },
    {
        match self {
            JsonValue::Array(items) => {
                if index < items.len() {
                    Some(&items[index])
                } else {
                    None
                }
            },
            _ => None,
        }
    }

    /// The text of a string value.
    pub fn text(&self) -> (res: Option<String>)
        ensures
            match res {
                Some(s) => spec_text(*self) == Some(s@),
                None => spec_text(*self) is None,
            },
    {
        match self {
            JsonValue::Str(s) => Some(s.clone()),
            _ => None,
        }
    }
}

} // verus!
