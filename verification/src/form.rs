//! Request parameters as an ordered list of text fields, and their
//! `application/x-www-form-urlencoded` encoding.

use crate::text::{
    decimal, decimal_string, signed_decimal, signed_decimal_string, truth_string, truth_word,
};
use vstd::prelude::*;

verus! {

/// An ordered list of fields, each a key and a value.
pub type Fields = Seq<(Seq<char>, Seq<char>)>;

/// The text that `serde_urlencoded::to_string` produces for a list of
/// string pairs.
pub uninterp spec fn form_urlencoded(fields: Seq<(Seq<char>, Seq<char>)>) -> Seq<char>;

/// The error of `serde_urlencoded`'s serializer. Nothing is said of what
/// it holds.
#[verifier::external_type_specification]
#[verifier::external_body]
pub struct ExSerializeError(serde_urlencoded::ser::Error);

/// `serde_urlencoded::to_string` on a list of string pairs. The serializer
/// accepts a sequence of two-element tuples whose parts are strings, and
/// none of the branches it takes for such an input reports an error, so the
/// call succeeds; the text is a function of the pairs alone.
#[verifier::external_body]
fn to_form_string(params: &Params) -> (r: Result<String, serde_urlencoded::ser::Error>)
    ensures
        r is Ok,
        r->Ok_0@ == form_urlencoded(params@),
{
    serde_urlencoded::to_string(&params.entries)
}

/// The fields that a list of string pairs stands for.
pub open spec fn fields_of(entries: Seq<(String, String)>) -> Fields {
    Seq::new(entries.len(), |i: int| (entries[i].0@, entries[i].1@))
}

/// The key of the field `name` inside the structure whose own key is
/// `prefix`; at the top level, where `prefix` is empty, the name itself.
pub open spec fn key_under(prefix: Seq<char>, name: Seq<char>) -> Seq<char> {
    if prefix.len() == 0 {
        name
    } else {
        prefix + seq!['['] + name + seq![']']
    }
}

/// A field that is present only when its value is.
pub open spec fn optional(key: Seq<char>, value: Option<Seq<char>>) -> Fields {
    match value {
        Some(v) => seq![(key, v)],
        None => Seq::empty(),
    }
}

/// A field whose value is set is sent, be the value empty; a field whose
/// value is absent is not sent at all. So "set to nothing" and "leave as it
/// is" are told apart.
pub proof fn lemma_absent_and_empty_differ(key: Seq<char>, name: Seq<char>, value: &str)
    ensures
        opt_text(key, name, Some(value)) == seq![(key_under(key, name), value@)],
        opt_text(key, name, None) == Fields::empty(),
        opt_text(key, name, Some(value)) != opt_text(key, name, None),
{
    assert(opt_text(key, name, Some(value)).len() == 1);
}

/// Appending lists of fields is associative.
pub broadcast proof fn lemma_append_associative(a: Fields, b: Fields, c: Fields)
    ensures
        #[trigger] ((a + b) + c) == a + (b + c),
{
    assert(((a + b) + c) =~= a + (b + c));
}

/// An ordered mapping from keys to values, as a request carries it in its
/// query string or its body.
#[derive(Debug)]
pub struct Params {
    pub entries: Vec<(String, String)>,
}

impl View for Params {
    type V = Fields;

    open spec fn view(&self) -> Fields {
        fields_of(self.entries@)
    }
}

/// The key of the field `name` under `prefix`.
pub fn make_key(prefix: &str, name: &str) -> (key: String)
    ensures
        key@ == key_under(prefix@, name@),
{
    if prefix.is_empty() {
        String::from_str(name)
    } else {
        let mut key = String::from_str(prefix);
        key.push('[');
        key.append(name);
        key.push(']');
        key
    }
}

/// The one field `name` of the structure at `key`, with a text value.
pub open spec fn text(key: Seq<char>, name: Seq<char>, value: Seq<char>) -> Fields {
    seq![(key_under(key, name), value)]
}

/// The field `name` of the structure at `key`, where it has a text value.
pub open spec fn opt_text(key: Seq<char>, name: Seq<char>, value: Option<&str>) -> Fields {
    match value {
        Some(v) => text(key, name, v@),
        None => Seq::empty(),
    }
}

/// The field `name` of the structure at `key`, where it has a text value.
pub open spec fn opt_string(key: Seq<char>, name: Seq<char>, value: Option<String>) -> Fields {
    match value {
        Some(v) => text(key, name, v@),
        None => Seq::empty(),
    }
}

/// The field `name` of the structure at `key`, where it has an unsigned
/// number, which is written in decimal.
pub open spec fn opt_unsigned(key: Seq<char>, name: Seq<char>, value: Option<u64>) -> Fields {
    match value {
        Some(v) => text(key, name, decimal(v as nat)),
        None => Seq::empty(),
    }
}

/// The field `name` of the structure at `key`, where it has a signed
/// number, which is written in decimal.
pub open spec fn opt_signed(key: Seq<char>, name: Seq<char>, value: Option<i64>) -> Fields {
    match value {
        Some(v) => text(key, name, signed_decimal(v as int)),
        None => Seq::empty(),
    }
}

/// The field `name` of the structure at `key`, where it has a truth value,
/// which is written as `true` or `false`.
pub open spec fn opt_flag(key: Seq<char>, name: Seq<char>, value: Option<bool>) -> Fields {
    match value {
        Some(v) => text(key, name, truth_word(v)),
        None => Seq::empty(),
    }
}

/// A structure that is sent as fields of a request.
pub trait FormFields {
    /// The fields of the structure when it stands at `key`. At the top
    /// level of a request `key` is empty, and each member goes by its own
    /// name; inside another structure the members go by `key[name]`.
    spec fn fields(&self, key: Seq<char>) -> Fields;

    /// Appends the fields of the structure, standing at `key`, to `out`.
    fn append_to(&self, out: &mut Params, key: &str)
        ensures
            final(out)@ == old(out)@ + self.fields(key@),
    ;
}

/// The member `name` of the structure at `key`, itself a structure.
pub open spec fn nested<T: FormFields>(key: Seq<char>, name: Seq<char>, value: T) -> Fields {
    value.fields(key_under(key, name))
}

/// The member `name` of the structure at `key`, itself a structure, where
/// it is there.
pub open spec fn opt_nested<T: FormFields>(
    key: Seq<char>,
    name: Seq<char>,
    value: Option<T>,
) -> Fields {
    match value {
        Some(v) => nested(key, name, v),
        None => Seq::empty(),
    }
}

/// Appends the member `name` of the structure at `key`, itself a
/// structure, to `out`.
pub fn put_nested<T: FormFields>(out: &mut Params, key: &str, name: &str, value: &T)
    ensures
        final(out)@ == old(out)@ + nested(key@, name@, *value),
{
    value.append_to(out, make_key(key, name).as_str());
}

/// Appends the member `name` of the structure at `key`, itself a
/// structure, to `out`, if it is there.
pub fn put_opt_nested<T: FormFields>(out: &mut Params, key: &str, name: &str, value: &Option<T>)
    ensures
        final(out)@ == old(out)@ + opt_nested(key@, name@, *value),
{
    if let Some(v) = value {
        put_nested(out, key, name, v);
    }
}

/// The fields of a request whose parameters are `value`.
pub fn to_params<T: FormFields>(value: &T) -> (params: Params)
    ensures
        params@ == value.fields(Seq::empty()),
{
    proof {
        reveal_strlit("");
        assert(""@ == Seq::<char>::empty());
    }
    let mut params = Params::new();
    value.append_to(&mut params, "");
    proof {
        assert(Fields::empty() + value.fields(Seq::empty()) == value.fields(Seq::empty()));
    }
    params
}

impl Params {
    /// The empty list.
    pub fn new() -> (p: Params)
        ensures
            p@ == Fields::empty(),
    {
        Params { entries: Vec::new() }
    }

    /// The number of fields.
    pub fn len(&self) -> (n: usize)
        ensures
            n == self@.len(),
    {
        self.entries.len()
    }

    /// Appends one field.
    pub fn push(&mut self, key: String, value: String)
        ensures
            final(self)@ == old(self)@.push((key@, value@)),
            final(self)@ == old(self)@ + seq![(key@, value@)],
    {
        self.entries.push((key, value));
    }

    /// Appends the field `name` of the structure at `key`.
    pub fn put_str(&mut self, key: &str, name: &str, value: &str)
        ensures
            final(self)@ == old(self)@ + text(key@, name@, value@),
    {
        self.push(make_key(key, name), String::from_str(value));
    }

    /// Appends the field `name` of the structure at `key`, a number in
    /// decimal.
    pub fn put_u64(&mut self, key: &str, name: &str, value: u64)
        ensures
            final(self)@ == old(self)@ + text(key@, name@, decimal(value as nat)),
    {
        self.push(make_key(key, name), decimal_string(value));
    }

    /// Appends the field `name` of the structure at `key`, if it has a
    /// value.
    pub fn put_opt_str(&mut self, key: &str, name: &str, value: Option<&str>)
        ensures
            final(self)@ == old(self)@ + opt_text(key@, name@, value),
    {
        if let Some(v) = value {
            self.put_str(key, name, v);
        }
    }

    /// Appends the field `name` of the structure at `key`, if it has a
    /// value.
    pub fn put_opt_string(&mut self, key: &str, name: &str, value: &Option<String>)
        ensures
            final(self)@ == old(self)@ + opt_string(key@, name@, *value),
    {
        if let Some(v) = value {
            self.put_str(key, name, v.as_str());
        }
    }

    /// Appends the field `name` of the structure at `key`, if it has a
    /// value.
    pub fn put_opt_u64(&mut self, key: &str, name: &str, value: Option<u64>)
        ensures
            final(self)@ == old(self)@ + opt_unsigned(key@, name@, value),
    {
        if let Some(v) = value {
            self.put_u64(key, name, v);
        }
    }

    /// Appends the field `name` of the structure at `key`, if it has a
    /// value.
    pub fn put_opt_i64(&mut self, key: &str, name: &str, value: Option<i64>)
        ensures
            final(self)@ == old(self)@ + opt_signed(key@, name@, value),
    {
        if let Some(v) = value {
            self.push(make_key(key, name), signed_decimal_string(v));
        }
    }

    /// Appends the field `name` of the structure at `key`, if it has a
    /// value.
    pub fn put_opt_bool(&mut self, key: &str, name: &str, value: Option<bool>)
        ensures
            final(self)@ == old(self)@ + opt_flag(key@, name@, value),
    {
        if let Some(v) = value {
            self.push(make_key(key, name), truth_string(v));
        }
    }

    /// The form encoding of the fields, in their order.
    pub fn encode(&self) -> (encoded: String)
        ensures
            encoded@ == form_urlencoded(self@),
    {
        match to_form_string(self) {
            Ok(encoded) => encoded,
            Err(_) => unreached(),
        }
    }
}

} // verus!
