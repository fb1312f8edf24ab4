use interaction_model::embed::{AuthorField, EmbedAuthor};
use interaction_model::value::{DecodeError, Field, Value};

fn field(key: &str, value: Value) -> Field {
    Field { key: key.to_string(), value }
}

#[test]
fn test_embed_author() {
    let value = EmbedAuthor {
        icon_url: Some("https://example.com/1.png".to_owned()),
        name: Some("test".to_owned()),
        proxy_icon_url: None,
        url: Some("https://example.com".to_owned()),
    };

    let encoded = value.encode();
    let expected = vec![
        field("icon_url", Value::Str("https://example.com/1.png".to_owned())),
        field("name", Value::Str("test".to_owned())),
        field("proxy_icon_url", Value::Null),
        field("url", Value::Str("https://example.com".to_owned())),
    ];
    assert_eq!(encoded, expected);

    let decoded = EmbedAuthor::decode(&encoded).expect("a conforming payload decodes");
    assert_eq!(decoded, value);
}

#[test]
fn embed_author_decode_missing_keys_are_absent() {
    let encoded = vec![field("name", Value::Str("test".to_owned()))];
    let decoded = EmbedAuthor::decode(&encoded).expect("missing optional keys are not an error");
    assert_eq!(
        decoded,
        EmbedAuthor {
            icon_url: None,
            name: Some("test".to_owned()),
            proxy_icon_url: None,
            url: None,
        }
    );
}

#[test]
fn embed_author_decode_wrong_type() {
    let encoded = vec![field("icon_url", Value::Bool(true))];
    assert_eq!(
        EmbedAuthor::decode(&encoded),
        Err(DecodeError::WrongType(AuthorField::IconUrl))
    );

    let encoded = vec![field("proxy_icon_url", Value::UInt(1))];
    assert_eq!(
        EmbedAuthor::decode(&encoded),
        Err(DecodeError::WrongType(AuthorField::ProxyIconUrl))
    );
}
