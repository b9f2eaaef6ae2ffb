//! The parameters of a request and their form encoding.

use vstd::prelude::*;
use crate::text::{decimal, integer_text};

verus! {

/// One field of a request: its name and its value as text.
pub struct Param {
    pub key: String,
    pub value: String,
}

/// The fields of a request, in the order in which they were added.
pub struct Params {
    items: Vec<Param>,
}

/// One exchange that is to be made: a POST of the form-encoded `body` to
/// `url`.
#[derive(Debug, PartialEq)]
pub struct Request {
    pub url: String,
    pub body: String,
}

/// One field as it stands in the body: name, `=`, value.
pub open spec fn field_text(field: (Seq<char>, Seq<char>)) -> Seq<char> {
    field.0 + seq!['='] + field.1
}

/// The body of a request: its fields, each as name, `=`, value, in order and
/// joined by `&`. Names and values stand as they are.
pub open spec fn form_encode(fields: Seq<(Seq<char>, Seq<char>)>) -> Seq<char>
    decreases fields.len(),
{
    if fields.len() == 0 {
        Seq::empty()
    } else if fields.len() == 1 {
        field_text(fields[0])
    } else {
        form_encode(fields.drop_last()) + seq!['&'] + field_text(fields.last())
    }
}

/// The fields with an integer field added at the end.
pub open spec fn with_integer(
    fields: Seq<(Seq<char>, Seq<char>)>,
    key: Seq<char>,
    value: int,
) -> Seq<(Seq<char>, Seq<char>)> {
    fields.push((key, decimal(value)))
}

/// The fields with an integer field added at the end if there is a value.
pub open spec fn with_optional(
    fields: Seq<(Seq<char>, Seq<char>)>,
    key: Seq<char>,
    value: Option<i64>,
) -> Seq<(Seq<char>, Seq<char>)> {
    match value {
        Some(v) => with_integer(fields, key, v as int),
        None => fields,
    }
}

/// The fields with a text field added at the end.
pub open spec fn with_text(
    fields: Seq<(Seq<char>, Seq<char>)>,
    key: Seq<char>,
    value: Seq<char>,
) -> Seq<(Seq<char>, Seq<char>)> {
    fields.push((key, value))
}

/// The fields with a text field added at the end if there is a value.
pub open spec fn with_optional_text(
    fields: Seq<(Seq<char>, Seq<char>)>,
    key: Seq<char>,
    value: Option<String>,
) -> Seq<(Seq<char>, Seq<char>)> {
    match value {
        Some(v) => with_text(fields, key, v@),
        None => fields,
    }
}

/// How a truth value is written.
pub open spec fn bool_text(value: bool) -> Seq<char> {
    if value {
        "true"@
    } else {
        "false"@
    }
}

/// The fields with a truth value added at the end if there is one.
pub open spec fn with_optional_bool(
    fields: Seq<(Seq<char>, Seq<char>)>,
    key: Seq<char>,
    value: Option<bool>,
) -> Seq<(Seq<char>, Seq<char>)> {
    match value {
        Some(v) => with_text(fields, key, bool_text(v)),
        None => fields,
    }
}

/// The fields of a fetch of events, as the listener sends them.
pub open spec fn fetch_fields(offset: i64, timeout: Option<i64>, limit: Option<i64>) -> Seq<
    (Seq<char>, Seq<char>),
> {
    with_optional(
        with_optional(with_integer(Seq::empty(), "offset"@, offset as int), "timeout"@, timeout),
        "limit"@,
        limit,
    )
}

impl Params {
    /// The fields as pairs of name and value.
    pub closed spec fn view(&self) -> Seq<(Seq<char>, Seq<char>)> {
        Seq::new(self.items@.len(), |i: int| (self.items@[i].key@, self.items@[i].value@))
    }

    /// No fields.
    pub fn new() -> (r: Params)
        ensures
            r@ == Seq::<(Seq<char>, Seq<char>)>::empty(),
    {
        let r = Params { items: Vec::new() };
        assert(r@ =~= Seq::<(Seq<char>, Seq<char>)>::empty());
        r
    }

    /// Adds a field whose value is the given text.
    pub fn add_get_text(&mut self, key: &str, value: String)
        ensures
            final(self)@ == with_text(old(self)@, key@, value@),
    {
        self.items.push(Param { key: key.to_owned(), value });
        assert(self@ =~= old(self)@.push((key@, value@)));
    }

    /// Adds a text field if there is a value, else nothing.
    pub fn add_get_text_opt(&mut self, key: &str, value: Option<String>)
        ensures
            final(self)@ == with_optional_text(old(self)@, key@, value),
    {
        match value {
            Some(v) => self.add_get_text(key, v),
            None => {},
        }
    }

    /// Adds a truth value, written `true` or `false`, if there is one.
    pub fn add_get_bool_opt(&mut self, key: &str, value: Option<bool>)
        ensures
            final(self)@ == with_optional_bool(old(self)@, key@, value),
    {
        match value {
            Some(true) => self.add_get_text(key, "true".to_owned()),
            Some(false) => self.add_get_text(key, "false".to_owned()),
            None => {},
        }
    }

    /// Adds a field whose value is the integer in decimal.
    pub fn add_get(&mut self, key: &str, value: i64)
        ensures
            final(self)@ == with_integer(old(self)@, key@, value as int),
    {
        self.add_get_text(key, integer_text(value));
    }

    /// Adds an integer field if there is a value, else nothing.
    pub fn add_get_opt(&mut self, key: &str, value: Option<i64>)
        ensures
            final(self)@ == with_optional(old(self)@, key@, value),
    {
        match value {
            Some(v) => self.add_get(key, v),
            None => {},
        }
    }

    /// The number of fields.
    pub fn len(&self) -> (r: usize)
        ensures
            r == self@.len(),
    {
        self.items.len()
    }

    /// The body that carries these fields.
    pub fn encode(&self) -> (r: String)
        ensures
            r@ == form_encode(self@),
    {
        let mut out = String::new();
        let mut i: usize = 0;
        while i < self.items.len()
            invariant
                i <= self.items.len(),
                out@ == form_encode(self@.take(i as int)),
            decreases self.items.len() - i,
        {
            let ghost before = out@;
            if i > 0 {
                out.push('&');
            }
            out.push_str(self.items[i].key.as_str());
            out.push('=');
            out.push_str(self.items[i].value.as_str());
            proof {
                let upto = self@.take(i + 1);
                assert(upto.drop_last() =~= self@.take(i as int));
                assert(upto.last() == (self.items@[i as int].key@, self.items@[i as int].value@));
                if i > 0 {
                    assert(out@ =~= before + seq!['&'] + field_text(upto.last()));
                } else {
                    assert(before =~= Seq::<char>::empty());
                    assert(out@ =~= field_text(upto[0]));
                }
            }
            i = i + 1;
        }
        assert(self@.take(i as int) =~= self@);
        out
    }
}

} // verus!
