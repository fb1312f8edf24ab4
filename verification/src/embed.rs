//! The embed author record and its wire encoding.
//!
//! Unlike the button, every attribute of this record is emitted on encode:
//! an absent attribute is written as an explicit null. Decoding accepts an
//! absent key, a null, or a string for each attribute.

use vstd::prelude::*;
use vstd::string::StringExecFns;
use crate::value::{
    DecodeError, Field, Value, fields_view, find_field, lemma_lookup_found, lookup, opt_string_of,
    opt_string_ok,
};

verus! {

/// Author block of a message embed.
#[derive(Clone, Debug, Eq, Hash, PartialEq)]
pub struct EmbedAuthor {
    /// URL of the author's icon.
    pub icon_url: Option<String>,
    /// Name of the author.
    pub name: Option<String>,
    /// Proxied URL of the author's icon.
    pub proxy_icon_url: Option<String>,
    /// URL of the author.
    pub url: Option<String>,
}

/// Identity of an embed author attribute, for decode errors.
#[derive(Clone, Copy, Debug, Eq, PartialEq)]
pub enum AuthorField {
    IconUrl,
    Name,
    ProxyIconUrl,
    Url,
}

/// The value an optional string attribute is emitted as: an explicit null
/// when absent.
pub open spec fn opt_string_value(o: Option<String>) -> Value {
    match o {
        Some(s) => Value::Str(s),
        None => Value::Null,
    }
}

/// The exact encoding of an embed author: all four keys, always, in declared
/// order.
pub open spec fn author_encoding(a: EmbedAuthor) -> Seq<(Seq<char>, Value)> {
    seq![
        ("icon_url"@, opt_string_value(a.icon_url)),
        ("name"@, opt_string_value(a.name)),
        ("proxy_icon_url"@, opt_string_value(a.proxy_icon_url)),
        ("url"@, opt_string_value(a.url)),
    ]
}

/// The exact result of decoding an embed author: the first attribute bound
/// to a value that is neither a string nor a null names the error; absent
/// keys and nulls decode to absence.
pub open spec fn author_decoded(enc: Seq<(Seq<char>, Value)>) -> Result<
    EmbedAuthor,
    DecodeError<AuthorField>,
> {
    if !opt_string_ok(lookup(enc, "icon_url"@)) {
        Err(DecodeError::WrongType(AuthorField::IconUrl))
    } else if !opt_string_ok(lookup(enc, "name"@)) {
        Err(DecodeError::WrongType(AuthorField::Name))
    } else if !opt_string_ok(lookup(enc, "proxy_icon_url"@)) {
        Err(DecodeError::WrongType(AuthorField::ProxyIconUrl))
    } else if !opt_string_ok(lookup(enc, "url"@)) {
        Err(DecodeError::WrongType(AuthorField::Url))
    } else {
        Ok(
            EmbedAuthor {
                icon_url: opt_string_of(lookup(enc, "icon_url"@)),
                name: opt_string_of(lookup(enc, "name"@)),
                proxy_icon_url: opt_string_of(lookup(enc, "proxy_icon_url"@)),
                url: opt_string_of(lookup(enc, "url"@)),
            },
        )
    }
}

/// Law: encoding an embed author and decoding the result yields the same
/// author again, for every author.
pub proof fn lemma_author_round_trip(a: EmbedAuthor)
    ensures
        author_decoded(author_encoding(a)) == Ok::<EmbedAuthor, DecodeError<AuthorField>>(a),
{
    let enc = author_encoding(a);
    reveal_strlit("icon_url");
    reveal_strlit("name");
    reveal_strlit("proxy_icon_url");
    reveal_strlit("url");
    assert("icon_url"@.len() == 8);
    assert("name"@.len() == 4);
    assert("proxy_icon_url"@.len() == 14);
    assert("url"@.len() == 3);
    lemma_lookup_found(enc, "icon_url"@, 0);
    lemma_lookup_found(enc, "name"@, 1);
    lemma_lookup_found(enc, "proxy_icon_url"@, 2);
    lemma_lookup_found(enc, "url"@, 3);
}

impl EmbedAuthor {
    /// Encode this embed author as an ordered object, exactly as
    /// [`author_encoding`] describes. Encoding never fails.
    pub fn encode(&self) -> (out: Vec<Field>)
        ensures
            fields_view(out@) == author_encoding(*self),
    {
        let mut out: Vec<Field> = Vec::new();
        out.push(Field {
            key: String::from_str("icon_url"),
            value: Self::encode_opt_string(&self.icon_url),
        });
        out.push(Field {
            key: String::from_str("name"),
            value: Self::encode_opt_string(&self.name),
        });
        out.push(Field {
            key: String::from_str("proxy_icon_url"),
            value: Self::encode_opt_string(&self.proxy_icon_url),
        });
        out.push(Field {
            key: String::from_str("url"),
            value: Self::encode_opt_string(&self.url),
        });
        proof {
            assert(fields_view(out@) =~= author_encoding(*self));
        }
        out
    }

    /// Emit one optional string attribute, null when absent.
    fn encode_opt_string(o: &Option<String>) -> (v: Value)
        ensures
            v == opt_string_value(*o),
    {
        match o {
            Some(s) => Value::Str(s.clone()),
            None => Value::Null,
        }
    }

    /// Decode an embed author from an ordered object, exactly as
    /// [`author_decoded`] describes.
    pub fn decode(fields: &Vec<Field>) -> (r: Result<EmbedAuthor, DecodeError<AuthorField>>)
        ensures
            r == author_decoded(fields_view(fields@)),
    {
        let icon_url: Option<String> = match Self::decode_opt_string(fields, "icon_url") {
            Ok(v) => v,
            Err(()) => {
                return Err(DecodeError::WrongType(AuthorField::IconUrl));
            },
        };
        let name: Option<String> = match Self::decode_opt_string(fields, "name") {
            Ok(v) => v,
            Err(()) => {
                return Err(DecodeError::WrongType(AuthorField::Name));
            },
        };
        let proxy_icon_url: Option<String> = match Self::decode_opt_string(fields, "proxy_icon_url") {
            Ok(v) => v,
            Err(()) => {
                return Err(DecodeError::WrongType(AuthorField::ProxyIconUrl));
            },
        };
        let url: Option<String> = match Self::decode_opt_string(fields, "url") {
            Ok(v) => v,
            Err(()) => {
                return Err(DecodeError::WrongType(AuthorField::Url));
            },
        };
        Ok(EmbedAuthor { icon_url, name, proxy_icon_url, url })
    }

    /// Read one optional string attribute: absent or null decode to absence,
    /// anything but a string is refused.
    fn decode_opt_string(fields: &Vec<Field>, key: &str) -> (r: Result<Option<String>, ()>)
        ensures
            r matches Ok(v) ==> opt_string_ok(lookup(fields_view(fields@), key@)) && v
                == opt_string_of(lookup(fields_view(fields@), key@)),
            r is Err <==> !opt_string_ok(lookup(fields_view(fields@), key@)),
    {
        match find_field(fields, &String::from_str(key)) {
            None => Ok(None),
            Some(Value::Null) => Ok(None),
            Some(Value::Str(s)) => Ok(Some(s.clone())),
            Some(_) => Err(()),
        }
    }
}

} // verus!
