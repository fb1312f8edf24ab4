//! The button component: its style codec and its wire encoding.
//!
//! A button's style is an extensible enumeration: every integer code decodes
//! to a variant (unrecognized codes to a catch-all that preserves the code),
//! and every variant encodes back to its code. The button record itself is
//! encoded with a fixed key order, optional attributes emitted only when
//! present, and decoded tolerantly: a missing `disabled` key means `false`,
//! missing optional keys mean absence.

use vstd::prelude::*;
use vstd::pervasive::arbitrary;
use vstd::string::StringExecFns;
use crate::value::{
    DecodeError, Field, Value, fields_view, find_field, lemma_lookup_absent, lemma_lookup_found,
    lookup, opt_string_of, opt_string_ok,
};

verus! {

/// Integer code identifying a button among the platform's component kinds.
pub const BUTTON_COMPONENT_TYPE: u8 = 2;

/// Style of a [`Button`].
///
/// The platform may introduce styles this crate does not know; such codes
/// decode to [`ButtonStyle::Unknown`] and re-encode unchanged.
#[derive(Clone, Copy, Debug, Eq, Hash, PartialEq, PartialOrd)]
pub enum ButtonStyle {
    /// Button indicates a primary action.
    Primary,
    /// Button indicates a secondary action.
    Secondary,
    /// Button indicates a successful action.
    Success,
    /// Button indicates a dangerous action.
    Danger,
    /// Button indicates an action with a link.
    Link,
    /// Button has a style not known to this crate; the original code is kept.
    Unknown(u8),
}

/// The style any integer code decodes to. Total: no code is an error.
pub open spec fn style_of_code(code: u8) -> ButtonStyle {
    if code == 1 {
        ButtonStyle::Primary
    } else if code == 2 {
        ButtonStyle::Secondary
    } else if code == 3 {
        ButtonStyle::Success
    } else if code == 4 {
        ButtonStyle::Danger
    } else if code == 5 {
        ButtonStyle::Link
    } else {
        ButtonStyle::Unknown(code)
    }
}

/// The integer code a style encodes to; the catch-all re-emits its code.
pub open spec fn code_of_style(style: ButtonStyle) -> u8 {
    match style {
        ButtonStyle::Primary => 1,
        ButtonStyle::Secondary => 2,
        ButtonStyle::Success => 3,
        ButtonStyle::Danger => 4,
        ButtonStyle::Link => 5,
        ButtonStyle::Unknown(code) => code,
    }
}

/// Law: decoding any code and encoding the result yields the code again.
pub proof fn lemma_style_code_round_trip(code: u8)
    ensures
        code_of_style(style_of_code(code)) == code,
{
}

impl From<u8> for ButtonStyle {
    fn from(value: u8) -> (r: Self) {
        match value {
            1 => ButtonStyle::Primary,
            2 => ButtonStyle::Secondary,
            3 => ButtonStyle::Success,
            4 => ButtonStyle::Danger,
            5 => ButtonStyle::Link,
            unknown => ButtonStyle::Unknown(unknown),
        }
    }
}

impl vstd::std_specs::convert::FromSpecImpl<u8> for ButtonStyle {
    open spec fn obeys_from_spec() -> bool {
        true
    }

    open spec fn from_spec(v: u8) -> Self {
        style_of_code(v)
    }
}

impl From<ButtonStyle> for u8 {
    fn from(value: ButtonStyle) -> (r: Self) {
        match value {
            ButtonStyle::Primary => 1,
            ButtonStyle::Secondary => 2,
            ButtonStyle::Success => 3,
            ButtonStyle::Danger => 4,
            ButtonStyle::Link => 5,
            ButtonStyle::Unknown(unknown) => unknown,
        }
    }
}

impl vstd::std_specs::convert::FromSpecImpl<ButtonStyle> for u8 {
    open spec fn obeys_from_spec() -> bool {
        true
    }

    open spec fn from_spec(v: ButtonStyle) -> Self {
        code_of_style(v)
    }
}

/// Visual emoji for clients to display with a button.
#[derive(Clone, Debug, Eq, Hash, PartialEq)]
pub enum ReactionType {
    /// A standard emoji, identified by its character sequence.
    Unicode { name: String },
}

/// Clickable interactive component that renders on a message.
///
/// The platform requires `custom_id` for the four action styles and `url`
/// for the link style; that coupling is the constructing caller's contract
/// with the platform and is deliberately not checked here, so that payloads
/// with future styles are never rejected client-side.
#[derive(Clone, Debug, Eq, Hash, PartialEq)]
pub struct Button {
    /// User defined identifier for the button.
    pub custom_id: Option<String>,
    /// Whether the button is disabled. Defaults to `false` when absent from
    /// a payload.
    pub disabled: bool,
    /// Visual emoji for clients to display with the button.
    pub emoji: Option<ReactionType>,
    /// Text appearing on the button.
    pub label: Option<String>,
    /// Style variant of the button.
    pub style: ButtonStyle,
    /// URL the button opens, for the link style.
    pub url: Option<String>,
}

/// Encoding of an emoji: a single-field object holding its name.
pub open spec fn reaction_encoding(r: ReactionType) -> Seq<(Seq<char>, Value)> {
    seq![("name"@, Value::Str(r->name))]
}

/// Whether `v` is the encoded form of the emoji `r`.
pub open spec fn value_is_reaction(v: Value, r: ReactionType) -> bool {
    v matches Value::Object(fs) && fields_view(fs@) == reaction_encoding(r)
}

/// The exact encoding of a button: key order is `custom_id?`, `disabled`,
/// `emoji?`, `label?`, `style`, `type`, `url?`, where optional keys are
/// emitted only when present, and the field count is the three
/// always-present keys plus one for each present optional attribute.
pub open spec fn button_encoded(b: Button, enc: Seq<(Seq<char>, Value)>) -> bool {
    let n_cid: int = if b.custom_id is Some { 1 } else { 0 };
    let n_emoji: int = if b.emoji is Some { 1 } else { 0 };
    let n_label: int = if b.label is Some { 1 } else { 0 };
    let n_url: int = if b.url is Some { 1 } else { 0 };
    &&& enc.len() == 3 + n_cid + n_emoji + n_label + n_url
    &&& (b.custom_id matches Some(s) ==> enc[0] == ("custom_id"@, Value::Str(s)))
    &&& enc[n_cid] == ("disabled"@, Value::Bool(b.disabled))
    &&& (b.emoji matches Some(e) ==> enc[n_cid + 1].0 == "emoji"@ && value_is_reaction(
        enc[n_cid + 1].1,
        e,
    ))
    &&& (b.label matches Some(s) ==> enc[n_cid + n_emoji + 1] == ("label"@, Value::Str(s)))
    &&& enc[n_cid + n_emoji + n_label + 1] == (
        "style"@,
        Value::UInt(code_of_style(b.style) as u64),
    )
    &&& enc[n_cid + n_emoji + n_label + 2] == (
        "type"@,
        Value::UInt(BUTTON_COMPONENT_TYPE as u64),
    )
    &&& (b.url matches Some(s) ==> enc[n_cid + n_emoji + n_label + 3] == ("url"@, Value::Str(s)))
}

impl Button {
    /// Encode this button as an ordered object, exactly as
    /// [`button_encoded`] describes. Encoding never fails: every always
    /// present attribute is a mandatory field of the record.
    pub fn encode(&self) -> (out: Vec<Field>)
        ensures
            button_encoded(*self, fields_view(out@)),
    {
        let mut out: Vec<Field> = Vec::new();
        if let Some(custom_id) = &self.custom_id {
            out.push(Field {
                key: String::from_str("custom_id"),
                value: Value::Str(custom_id.clone()),
            });
        }
        out.push(Field { key: String::from_str("disabled"), value: Value::Bool(self.disabled) });
        if let Some(emoji) = &self.emoji {
            let ReactionType::Unicode { name } = emoji;
            let mut inner: Vec<Field> = Vec::new();
            inner.push(Field { key: String::from_str("name"), value: Value::Str(name.clone()) });
            proof {
                assert(fields_view(inner@) =~= reaction_encoding(*emoji));
            }
            out.push(Field { key: String::from_str("emoji"), value: Value::Object(inner) });
        }
        if let Some(label) = &self.label {
            out.push(Field { key: String::from_str("label"), value: Value::Str(label.clone()) });
        }
        let style_code: u8 = u8::from(self.style);
        out.push(Field { key: String::from_str("style"), value: Value::UInt(style_code as u64) });
        out.push(Field {
            key: String::from_str("type"),
            value: Value::UInt(BUTTON_COMPONENT_TYPE as u64),
        });
        if let Some(url) = &self.url {
            out.push(Field { key: String::from_str("url"), value: Value::Str(url.clone()) });
        }
        out
    }

    /// Decode a button from an ordered object, exactly as [`button_decoded`]
    /// describes: presence-tolerant on optional keys, defaulting `disabled`,
    /// total over style codes, and failing only on a structurally
    /// non-conforming payload.
    pub fn decode(fields: &Vec<Field>) -> (r: Result<Button, DecodeError<ButtonField>>)
        ensures
            r == button_decoded(fields_view(fields@)),
    {
        let custom_id: Option<String> = match find_field(fields, &String::from_str("custom_id")) {
            None => None,
            Some(Value::Null) => None,
            Some(Value::Str(s)) => Some(s.clone()),
            Some(_) => {
                return Err(DecodeError::WrongType(ButtonField::CustomId));
            },
        };
        let disabled: bool = match find_field(fields, &String::from_str("disabled")) {
            None => false,
            Some(Value::Bool(v)) => *v,
            Some(_) => {
                return Err(DecodeError::WrongType(ButtonField::Disabled));
            },
        };
        let emoji: Option<ReactionType> = match find_field(fields, &String::from_str("emoji")) {
            None => None,
            Some(Value::Null) => None,
            Some(Value::Object(fs)) => match find_field(fs, &String::from_str("name")) {
                Some(Value::Str(name)) => Some(ReactionType::Unicode { name: name.clone() }),
                _ => {
                    return Err(DecodeError::WrongType(ButtonField::Emoji));
                },
            },
            Some(_) => {
                return Err(DecodeError::WrongType(ButtonField::Emoji));
            },
        };
        let label: Option<String> = match find_field(fields, &String::from_str("label")) {
            None => None,
            Some(Value::Null) => None,
            Some(Value::Str(s)) => Some(s.clone()),
            Some(_) => {
                return Err(DecodeError::WrongType(ButtonField::Label));
            },
        };
        let style: ButtonStyle = match find_field(fields, &String::from_str("style")) {
            None => {
                return Err(DecodeError::Missing(ButtonField::Style));
            },
            Some(Value::UInt(code)) => {
                if *code <= u8::MAX as u64 {
                    ButtonStyle::from(*code as u8)
                } else {
                    return Err(DecodeError::WrongType(ButtonField::Style));
                }
            },
            Some(_) => {
                return Err(DecodeError::WrongType(ButtonField::Style));
            },
        };
        let url: Option<String> = match find_field(fields, &String::from_str("url")) {
            None => None,
            Some(Value::Null) => None,
            Some(Value::Str(s)) => Some(s.clone()),
            Some(_) => {
                return Err(DecodeError::WrongType(ButtonField::Url));
            },
        };
        Ok(Button { custom_id, disabled, emoji, label, style, url })
    }
}

/// Identity of a button attribute, for decode errors.
#[derive(Clone, Copy, Debug, Eq, PartialEq)]
pub enum ButtonField {
    CustomId,
    Disabled,
    Emoji,
    Label,
    Style,
    Url,
}

/// The `disabled` key accepts an absent key or a boolean.
pub open spec fn disabled_ok(v: Option<Value>) -> bool {
    match v {
        None => true,
        Some(Value::Bool(_)) => true,
        _ => false,
    }
}

/// The decoded `disabled` flag: `false` when the key is absent.
pub open spec fn disabled_of(v: Option<Value>) -> bool {
    match v {
        Some(Value::Bool(x)) => x,
        _ => false,
    }
}

/// An encoded emoji is an object binding `name` to a string.
pub open spec fn reaction_ok(enc: Seq<(Seq<char>, Value)>) -> bool {
    lookup(enc, "name"@) matches Some(Value::Str(_))
}

/// The emoji an encoded object decodes to.
pub open spec fn reaction_of(enc: Seq<(Seq<char>, Value)>) -> ReactionType {
    match lookup(enc, "name"@) {
        Some(Value::Str(s)) => ReactionType::Unicode { name: s },
        _ => arbitrary(),
    }
}

/// The `emoji` key accepts an absent key, a null, or an encoded emoji.
pub open spec fn emoji_ok(v: Option<Value>) -> bool {
    match v {
        None => true,
        Some(Value::Null) => true,
        Some(Value::Object(fs)) => reaction_ok(fields_view(fs@)),
        _ => false,
    }
}

/// The decoded emoji: absent unless an encoded emoji is present.
pub open spec fn emoji_of(v: Option<Value>) -> Option<ReactionType> {
    match v {
        Some(Value::Object(fs)) => Some(reaction_of(fields_view(fs@))),
        _ => None,
    }
}

/// The `style` key must hold an integer that fits the code's width; every
/// such integer is accepted, known to this crate or not.
pub open spec fn style_ok(v: Option<Value>) -> bool {
    match v {
        Some(Value::UInt(n)) => n <= u8::MAX,
        _ => false,
    }
}

/// The decoded style.
pub open spec fn style_of(v: Option<Value>) -> ButtonStyle {
    match v {
        Some(Value::UInt(n)) => style_of_code(n as u8),
        _ => arbitrary(),
    }
}

/// The exact result of decoding a button from an ordered object: the first
/// non-conforming attribute, in the record's declared order, names the
/// error; otherwise every attribute decodes as its spec above says.
pub open spec fn button_decoded(enc: Seq<(Seq<char>, Value)>) -> Result<
    Button,
    DecodeError<ButtonField>,
> {
    if !opt_string_ok(lookup(enc, "custom_id"@)) {
        Err(DecodeError::WrongType(ButtonField::CustomId))
    } else if !disabled_ok(lookup(enc, "disabled"@)) {
        Err(DecodeError::WrongType(ButtonField::Disabled))
    } else if !emoji_ok(lookup(enc, "emoji"@)) {
        Err(DecodeError::WrongType(ButtonField::Emoji))
    } else if !opt_string_ok(lookup(enc, "label"@)) {
        Err(DecodeError::WrongType(ButtonField::Label))
    } else if lookup(enc, "style"@) is None {
        Err(DecodeError::Missing(ButtonField::Style))
    } else if !style_ok(lookup(enc, "style"@)) {
        Err(DecodeError::WrongType(ButtonField::Style))
    } else if !opt_string_ok(lookup(enc, "url"@)) {
        Err(DecodeError::WrongType(ButtonField::Url))
    } else {
        Ok(
            Button {
                custom_id: opt_string_of(lookup(enc, "custom_id"@)),
                disabled: disabled_of(lookup(enc, "disabled"@)),
                emoji: emoji_of(lookup(enc, "emoji"@)),
                label: opt_string_of(lookup(enc, "label"@)),
                style: style_of(lookup(enc, "style"@)),
                url: opt_string_of(lookup(enc, "url"@)),
            },
        )
    }
}

/// A style is canonical when its catch-all code, if any, is not one of the
/// known codes: exactly the styles that decoding can produce.
pub open spec fn canonical_style(style: ButtonStyle) -> bool {
    style matches ButtonStyle::Unknown(code) ==> !(1 <= code <= 5)
}

/// Law: encoding a button and decoding the result yields the button again,
/// whenever the button's style could itself have come from decoding. (A
/// catch-all style that shadows a known code re-encodes to that code, which
/// decodes to the known style; such styles are the one exclusion.)
pub proof fn lemma_button_round_trip(b: Button, enc: Seq<(Seq<char>, Value)>)
    requires
        button_encoded(b, enc),
        canonical_style(b.style),
    ensures
        button_decoded(enc) == Ok::<Button, DecodeError<ButtonField>>(b),
{
    let n_cid: int = if b.custom_id is Some { 1 } else { 0 };
    let n_emoji: int = if b.emoji is Some { 1 } else { 0 };
    let n_label: int = if b.label is Some { 1 } else { 0 };
    reveal_strlit("custom_id");
    reveal_strlit("disabled");
    reveal_strlit("emoji");
    reveal_strlit("label");
    reveal_strlit("style");
    reveal_strlit("type");
    reveal_strlit("url");
    reveal_strlit("name");
    assert("custom_id"@.len() == 9);
    assert("disabled"@.len() == 8);
    assert("emoji"@.len() == 5);
    assert("label"@.len() == 5);
    assert("style"@.len() == 5);
    assert("type"@.len() == 4);
    assert("url"@.len() == 3);
    assert("emoji"@[0] == 'e' && "label"@[0] == 'l' && "style"@[0] == 's');
    if b.custom_id is Some {
        lemma_lookup_found(enc, "custom_id"@, 0);
    } else {
        lemma_lookup_absent(enc, "custom_id"@);
    }
    lemma_lookup_found(enc, "disabled"@, n_cid);
    if b.emoji is Some {
        lemma_lookup_found(enc, "emoji"@, n_cid + 1);
        lemma_lookup_found(reaction_encoding(b.emoji->0), "name"@, 0);
    } else {
        lemma_lookup_absent(enc, "emoji"@);
    }
    if b.label is Some {
        lemma_lookup_found(enc, "label"@, n_cid + n_emoji + 1);
    } else {
        lemma_lookup_absent(enc, "label"@);
    }
    lemma_lookup_found(enc, "style"@, n_cid + n_emoji + n_label + 1);
    if b.url is Some {
        lemma_lookup_found(enc, "url"@, n_cid + n_emoji + n_label + 3);
    } else {
        lemma_lookup_absent(enc, "url"@);
    }
}

/// Law: a payload without a `disabled` key decodes, when it decodes at all,
/// to a button that is not disabled.
pub proof fn lemma_decode_disabled_defaults(enc: Seq<(Seq<char>, Value)>)
    requires
        lookup(enc, "disabled"@) is None,
    ensures
        button_decoded(enc) matches Ok(b) ==> !b.disabled,
{
}

} // verus!
