use twilight::embed::{Embed, EmbedAuthor, EmbedField, EmbedFooter};
use twilight::embed_validation::{
    embed, EmbedValidationErrorType, AUTHOR_NAME_LENGTH, EMBED_TOTAL_LENGTH, FIELD_COUNT,
};

fn base_embed() -> Embed {
    Embed {
        author: None,
        color: None,
        description: None,
        fields: Vec::new(),
        footer: None,
        image: None,
        kind: "rich".to_owned(),
        provider: None,
        thumbnail: None,
        timestamp: None,
        title: None,
        url: None,
        video: None,
    }
}

#[test]
fn test_embed_base() {
    let embed_value = base_embed();

    assert!(embed(&embed_value).is_ok());
}

#[test]
fn test_embed_normal() {
    let mut embed_value = base_embed();
    embed_value.author.replace(EmbedAuthor {
        icon_url: None,
        name: "twilight".to_owned(),
        proxy_icon_url: None,
        url: None,
    });
    embed_value.color.replace(0xff_00_00);
    embed_value.description.replace("a".repeat(100));
    embed_value.fields.push(EmbedField {
        inline: true,
        name: "b".repeat(25),
        value: "c".repeat(200),
    });
    embed_value.title.replace("this is a normal title".to_owned());

    assert!(embed(&embed_value).is_ok());
}

#[test]
fn test_embed_author_name_limit() {
    let mut embed_value = base_embed();
    embed_value.author.replace(EmbedAuthor {
        icon_url: None,
        name: str::repeat("a", 256),
        proxy_icon_url: None,
        url: None,
    });
    assert!(embed(&embed_value).is_ok());

    embed_value.author.replace(EmbedAuthor {
        icon_url: None,
        name: str::repeat("a", 257),
        proxy_icon_url: None,
        url: None,
    });
    assert!(matches!(
        embed(&embed_value).unwrap_err().kind(),
        EmbedValidationErrorType::AuthorNameTooLarge { chars: 257 }
    ));
}

#[test]
fn test_embed_description_limit() {
    let mut embed_value = base_embed();
    embed_value.description.replace(str::repeat("a", 2048));
    assert!(embed(&embed_value).is_ok());

    embed_value.description.replace(str::repeat("a", 4096));
    assert!(embed(&embed_value).is_ok());

    embed_value.description.replace(str::repeat("a", 4097));
    assert!(matches!(
        embed(&embed_value).unwrap_err().kind(),
        EmbedValidationErrorType::DescriptionTooLarge { chars: 4097 }
    ));
}

#[test]
fn test_embed_field_count_limit() {
    let mut embed_value = base_embed();

    for _ in 0..26 {
        embed_value.fields.push(EmbedField {
            inline: true,
            name: "a".to_owned(),
            value: "a".to_owned(),
        });
    }

    assert!(matches!(
        embed(&embed_value).unwrap_err().kind(),
        EmbedValidationErrorType::TooManyFields { amount: 26 }
    ));
}

#[test]
fn test_embed_field_name_limit() {
    let mut embed_value = base_embed();
    embed_value.fields.push(EmbedField {
        inline: true,
        name: str::repeat("a", 256),
        value: "a".to_owned(),
    });
    assert!(embed(&embed_value).is_ok());

    embed_value.fields.push(EmbedField {
        inline: true,
        name: str::repeat("a", 257),
        value: "a".to_owned(),
    });
    assert!(matches!(
        embed(&embed_value).unwrap_err().kind(),
        EmbedValidationErrorType::FieldNameTooLarge { chars: 257 }
    ));
}

#[test]
fn test_embed_field_value_limit() {
    let mut embed_value = base_embed();
    embed_value.fields.push(EmbedField {
        inline: true,
        name: "a".to_owned(),
        value: str::repeat("a", 1024),
    });
    assert!(embed(&embed_value).is_ok());

    embed_value.fields.push(EmbedField {
        inline: true,
        name: "a".to_owned(),
        value: str::repeat("a", 1025),
    });
    assert!(matches!(
        embed(&embed_value).unwrap_err().kind(),
        EmbedValidationErrorType::FieldValueTooLarge { chars: 1025 }
    ));
}

#[test]
fn test_embed_footer_text_limit() {
    let mut embed_value = base_embed();
    embed_value.footer.replace(EmbedFooter {
        icon_url: None,
        proxy_icon_url: None,
        text: str::repeat("a", 2048),
    });
    assert!(embed(&embed_value).is_ok());

    embed_value.footer.replace(EmbedFooter {
        icon_url: None,
        proxy_icon_url: None,
        text: str::repeat("a", 2049),
    });
    assert!(matches!(
        embed(&embed_value).unwrap_err().kind(),
        EmbedValidationErrorType::FooterTextTooLarge { chars: 2049 }
    ));
}

#[test]
fn test_embed_title_limit() {
    let mut embed_value = base_embed();
    embed_value.title.replace(str::repeat("a", 256));
    assert!(embed(&embed_value).is_ok());

    embed_value.title.replace(str::repeat("a", 257));
    assert!(matches!(
        embed(&embed_value).unwrap_err().kind(),
        EmbedValidationErrorType::TitleTooLarge { chars: 257 }
    ));
}

#[test]
fn test_embed_combined_limit() {
    let mut embed_value = base_embed();
    embed_value.description.replace(str::repeat("a", 2048));
    embed_value.title.replace(str::repeat("a", 256));

    for _ in 0..5 {
        embed_value.fields.push(EmbedField {
            inline: true,
            name: str::repeat("a", 100),
            value: str::repeat("a", 500),
        });
    }

    // we're at 5304 characters now
    assert!(embed(&embed_value).is_ok());

    embed_value.footer.replace(EmbedFooter {
        icon_url: None,
        proxy_icon_url: None,
        text: str::repeat("a", 1000),
    });

    assert!(matches!(
        embed(&embed_value).unwrap_err().kind(),
        EmbedValidationErrorType::EmbedTooLarge { chars: 6304 }
    ));
}

#[test]
fn embed_counts_codepoints_not_bytes() {
    let mut embed_value = base_embed();
    // 256 three-byte characters are 256 codepoints
    embed_value.title.replace("é".repeat(256));
    assert!(embed(&embed_value).is_ok());
    embed_value.title.replace("黑".repeat(257));
    assert!(matches!(
        embed(&embed_value).unwrap_err().kind(),
        EmbedValidationErrorType::TitleTooLarge { chars: 257 }
    ));
}

#[test]
fn embed_field_name_checked_before_value() {
    let mut embed_value = base_embed();
    embed_value.fields.push(EmbedField {
        inline: false,
        name: "n".repeat(300),
        value: "v".repeat(2000),
    });
    assert!(matches!(
        embed(&embed_value).unwrap_err().kind(),
        EmbedValidationErrorType::FieldNameTooLarge { chars: 300 }
    ));
}

#[test]
fn embed_field_count_checked_first() {
    let mut embed_value = base_embed();
    embed_value.title.replace("t".repeat(1000));
    for _ in 0..(FIELD_COUNT + 1) {
        embed_value.fields.push(EmbedField {
            inline: true,
            name: "a".to_owned(),
            value: "a".to_owned(),
        });
    }
    assert!(matches!(
        embed(&embed_value).unwrap_err().kind(),
        EmbedValidationErrorType::TooManyFields { amount: 26 }
    ));
}

#[test]
fn embed_exactly_at_total_limit() {
    let mut embed_value = base_embed();
    embed_value.description.replace("a".repeat(4096));
    embed_value.footer.replace(EmbedFooter {
        icon_url: None,
        proxy_icon_url: None,
        text: "a".repeat(1904),
    });
    assert_eq!(4096 + 1904, EMBED_TOTAL_LENGTH);
    assert!(embed(&embed_value).is_ok());
    embed_value.title.replace("a".to_owned());
    assert!(matches!(
        embed(&embed_value).unwrap_err().kind(),
        EmbedValidationErrorType::EmbedTooLarge { chars: 6001 }
    ));
}

#[test]
fn embed_error_parts_and_message() {
    let mut embed_value = base_embed();
    embed_value.author.replace(EmbedAuthor {
        icon_url: None,
        name: "a".repeat(AUTHOR_NAME_LENGTH + 1),
        proxy_icon_url: None,
        url: None,
    });
    let error = embed(&embed_value).unwrap_err();
    assert_eq!(
        error.message(),
        "the author name is 257 characters long, but the max is 256"
    );
    let (kind, source) = error.into_parts();
    assert_eq!(kind, EmbedValidationErrorType::AuthorNameTooLarge { chars: 257 });
    assert!(source.is_none());
}

#[test]
fn embed_error_messages_of_each_type() {
    let cases = [
        (
            EmbedValidationErrorType::DescriptionTooLarge { chars: 4097 },
            "the description is 4097 characters long, but the max is 4096",
        ),
        (
            EmbedValidationErrorType::EmbedTooLarge { chars: 6304 },
            "the combined total length of the embed is 6304 characters long, but the max is 6000",
        ),
        (
            EmbedValidationErrorType::FieldNameTooLarge { chars: 257 },
            "a field name is 257 characters long, but the max is 256",
        ),
        (
            EmbedValidationErrorType::FieldValueTooLarge { chars: 1025 },
            "a field value is 1025 characters long, but the max is 1024",
        ),
        (
            EmbedValidationErrorType::FooterTextTooLarge { chars: 2049 },
            "the footer's text is 2049 characters long, but the max is 2048",
        ),
        (
            EmbedValidationErrorType::TitleTooLarge { chars: 10 },
            "the title's length is 10 characters long, but the max is 256",
        ),
        (
            EmbedValidationErrorType::TooManyFields { amount: 0 },
            "there are 0 fields, but the maximum amount is 25",
        ),
    ];
    for (kind, text) in cases {
        let error = twilight::embed_validation::EmbedValidationError::new(kind);
        assert_eq!(error.message(), text);
        assert!(error.into_source().is_none());
    }
}
