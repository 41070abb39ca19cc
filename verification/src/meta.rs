//! Upstream post metadata: a typed tree in place of dynamic JSON, and the
//! field-validated extraction of the card's required text inputs.
//!
//! The card needs a title, a community name, and a community label from
//! the upstream response, and optionally the address of a community icon.
//! Extraction fails with a missing-field error before any drawing begins
//! when a required field is absent or has the wrong shape.

use vstd::prelude::*;

verus! {

/// One field of a metadata object: a name and a value.
pub struct Field {
    /// The field's name.
    pub name: String,
    /// The field's value.
    pub value: Meta,
}

/// A tree of upstream metadata values.
pub enum Meta {
    /// An explicit null.
    Null,
    /// A boolean.
    Bool(bool),
    /// A number; the card consumes no numeric fields.
    Number,
    /// A string.
    Str(String),
    /// An ordered list of values.
    List(Vec<Meta>),
    /// An object: named fields in order, looked up by first match.
    Object(Vec<Field>),
}

impl Meta {
    /// First-match lookup of `key` among `fields`, starting at index `i`.
    pub open spec fn lookup_from(fields: Seq<Field>, key: Seq<char>, i: int) -> Option<Meta>
        decreases fields.len() - i,
    {
        if i < 0 || i >= fields.len() {
            None
        } else if fields[i].name@ == key {
            Some(fields[i].value)
        } else {
            Self::lookup_from(fields, key, i + 1)
        }
    }

    /// The value of the first field named `key`, when this is an object.
    pub open spec fn field_spec(self, key: Seq<char>) -> Option<Meta> {
        match self {
            Meta::Object(fields) => Self::lookup_from(fields@, key, 0),
            _ => None,
        }
    }

    /// The element at index `i`, when this is a list.
    pub open spec fn item_spec(self, i: int) -> Option<Meta> {
        match self {
            Meta::List(items) => if 0 <= i < items@.len() {
                Some(items@[i])
            } else {
                None
            },
            _ => None,
        }
    }

    /// The payload, when this is a string.
    pub open spec fn str_spec(self) -> Option<Seq<char>> {
        match self {
            Meta::Str(s) => Some(s@),
            _ => None,
        }
    }

    /// Looks up the first field named `key`, when this is an object.
    #[verifier::loop_isolation(false)]
    pub fn get_field<'a>(&'a self, key: &String) -> (r: Option<&'a Meta>)
        ensures
            match r {
                Some(v) => self.field_spec(key@) == Some(*v),
                None => self.field_spec(key@) is None,
            },
    {
        match self {
            Meta::Object(fields) => {
                let n = fields.len();
                let mut idx: usize = 0;
                while idx < n
                    invariant
                        idx <= n,
                        n == fields@.len(),
                        Self::lookup_from(fields@, key@, 0)
                            == Self::lookup_from(fields@, key@, idx as int),
                    decreases n - idx,
                {
                    let f: &Field = &fields[idx];
                    if f.name == *key {
                        return Some(&f.value);
                    }
                    idx = idx + 1;
                }
                None
            },
            _ => None,
        }
    }

    /// Looks up the element at index `i`, when this is a list.
    pub fn get_item(&self, i: usize) -> (r: Option<&Meta>)
        ensures
            match r {
                Some(v) => self.item_spec(i as int) == Some(*v),
                None => self.item_spec(i as int) is None,
            },
    {
        match self {
            Meta::List(items) => {
                if i < items.len() {
                    Some(&items[i])
                } else {
                    None
                }
            },
            _ => None,
        }
    }

    /// Reads the payload, when this is a string.
    pub fn str_value(&self) -> (r: Option<&String>)
        ensures
            match r {
                Some(s) => self.str_spec() == Some(s@),
                None => self.str_spec() is None,
            },
    {
        match self {
            Meta::Str(s) => Some(s),
            _ => None,
        }
    }
}

/// The card's required text inputs, validated out of the upstream
/// metadata.
#[derive(Debug)]
pub struct PostInfo {
    /// The post's title.
    pub title: String,
    /// The community's name, used to look up the community's icon.
    pub subreddit: String,
    /// The community's display label, drawn on the card.
    pub subreddit_name_prefixed: String,
}

/// A failure of one render.
#[derive(Clone, Copy, PartialEq, Eq, Structural, Debug)]
pub enum CardError {
    /// The upstream metadata lacks a required field, or a required field
    /// has the wrong shape.
    MissingField,
    /// The icon's pixel data does not form a well-formed image.
    BadIcon,
}

/// Chained field lookup on an optional value.
pub open spec fn opt_field(o: Option<Meta>, key: Seq<char>) -> Option<Meta> {
    match o {
        Some(m) => m.field_spec(key),
        None => None,
    }
}

/// Chained list indexing on an optional value.
pub open spec fn opt_item(o: Option<Meta>, i: int) -> Option<Meta> {
    match o {
        Some(m) => m.item_spec(i),
        None => None,
    }
}

/// The string payload of a field of an optional value.
pub open spec fn opt_str_field(o: Option<Meta>, key: Seq<char>) -> Option<Seq<char>> {
    match opt_field(o, key) {
        Some(m) => m.str_spec(),
        None => None,
    }
}

/// The payload object that holds the post's fields: the upstream response
/// is a list whose first element's `data` object has a `children` list
/// whose first element's `data` object describes the post.
pub open spec fn post_data_spec(m: Meta) -> Option<Meta> {
    opt_field(
        opt_item(
            opt_field(opt_field(opt_item(Some(m), 0), "data"@), "children"@),
            0,
        ),
        "data"@,
    )
}

/// Validates the upstream post metadata into the card's required text
/// inputs: succeeds exactly when the payload object is present and holds
/// string fields `title`, `subreddit` and `subreddit_name_prefixed`; any
/// missing or wrongly shaped field is a missing-field failure.
pub fn extract_post_info(m: &Meta) -> (r: Result<PostInfo, CardError>)
    ensures
        match r {
            Ok(p) => {
                &&& opt_str_field(post_data_spec(*m), "title"@) == Some(p.title@)
                &&& opt_str_field(post_data_spec(*m), "subreddit"@) == Some(p.subreddit@)
                &&& opt_str_field(post_data_spec(*m), "subreddit_name_prefixed"@)
                    == Some(p.subreddit_name_prefixed@)
            },
            Err(e) => {
                &&& e == CardError::MissingField
                &&& (opt_str_field(post_data_spec(*m), "title"@) is None
                    || opt_str_field(post_data_spec(*m), "subreddit"@) is None
                    || opt_str_field(post_data_spec(*m), "subreddit_name_prefixed"@) is None)
            },
        },
{
    let key_data = "data".to_string();
    let a1 = match m.get_item(0) {
        Some(v) => v,
        None => {
            return Err(CardError::MissingField);
        },
    };
    let a2 = match a1.get_field(&key_data) {
        Some(v) => v,
        None => {
            return Err(CardError::MissingField);
        },
    };
    let a3 = match a2.get_field(&"children".to_string()) {
        Some(v) => v,
        None => {
            return Err(CardError::MissingField);
        },
    };
    let a4 = match a3.get_item(0) {
        Some(v) => v,
        None => {
            return Err(CardError::MissingField);
        },
    };
    let post = match a4.get_field(&key_data) {
        Some(v) => v,
        None => {
            return Err(CardError::MissingField);
        },
    };
    let title = match post.get_field(&"title".to_string()) {
        Some(v) => match v.str_value() {
            Some(s) => s.clone(),
            None => {
                return Err(CardError::MissingField);
            },
        },
        None => {
            return Err(CardError::MissingField);
        },
    };
    let subreddit = match post.get_field(&"subreddit".to_string()) {
        Some(v) => match v.str_value() {
            Some(s) => s.clone(),
            None => {
                return Err(CardError::MissingField);
            },
        },
        None => {
            return Err(CardError::MissingField);
        },
    };
    let subreddit_name_prefixed = match post.get_field(&"subreddit_name_prefixed".to_string()) {
        Some(v) => match v.str_value() {
            Some(s) => s.clone(),
            None => {
                return Err(CardError::MissingField);
            },
        },
        None => {
            return Err(CardError::MissingField);
        },
    };
    Ok(PostInfo { title, subreddit, subreddit_name_prefixed })
}

/// The address of the community's icon in the community metadata, when
/// one is configured.
pub open spec fn icon_url_spec(m: Meta) -> Option<Meta> {
    opt_field(opt_field(Some(m), "data"@), "icon_img"@)
}

/// Reads the community icon's address out of the community metadata.
/// A missing field means no custom icon; an empty address likewise; a
/// field of the wrong shape is a missing-field failure.
pub fn extract_icon_url(m: &Meta) -> (r: Result<Option<String>, CardError>)
    ensures
        match icon_url_spec(*m) {
            None => r == Ok::<Option<String>, CardError>(None),
            Some(v) => match v.str_spec() {
                None => r == Err::<Option<String>, CardError>(CardError::MissingField),
                Some(s) => {
                    &&& s.len() == 0 ==> r == Ok::<Option<String>, CardError>(None)
                    &&& s.len() > 0 ==> match r {
                        Ok(o) => match o {
                            Some(url) => url@ == s,
                            None => false,
                        },
                        Err(_) => false,
                    }
                },
            },
        },
{
    let d = match m.get_field(&"data".to_string()) {
        Some(v) => v,
        None => {
            return Ok(None);
        },
    };
    let f = match d.get_field(&"icon_img".to_string()) {
        Some(v) => v,
        None => {
            return Ok(None);
        },
    };
    match f.str_value() {
        Some(s) => {
            if s.as_str().is_empty() {
                Ok(None)
            } else {
                Ok(Some(s.clone()))
            }
        },
        None => Err(CardError::MissingField),
    }
}

} // verus!
