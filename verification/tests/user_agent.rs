use pinecone_sdk::utils::user_agent::normalize_lowercase_tag;
use pinecone_sdk::config::Config;
use pinecone_sdk::utils::user_agent::{build_source_tag, get_user_agent};

#[test]
fn test_build_source_tag() {
    let source_tag = "    Hello   World!! ".to_string();
    assert_eq!(build_source_tag(&source_tag), "hello_world");
}

#[test]
fn test_build_source_tag_special_chars() {
    let source_tag = " Hello   World__:_!@#@#   ".to_string();
    assert_eq!(build_source_tag(&source_tag), "hello_world__:_");
}

#[test]
fn test_no_source_tag() {
    let config = Config::new("api".to_string(), None);
    assert_eq!(get_user_agent(config.source_tag.as_deref()), "lang=rust; pinecone-rust-client=0.1.0");
}

#[test]
fn test_with_source_tag() {
    let config = Config::new("api".to_string(), Some("Tag".to_string()));
    assert_eq!(
        get_user_agent(config.source_tag.as_deref()),
        "lang=rust; pinecone-rust-client=0.1.0; source_tag=tag"
    );
}

#[test]
fn source_tag_normal_form_is_kept() {
    let tag = build_source_tag("my_app:v2");
    assert_eq!(tag, "my_app:v2");
    assert_eq!(build_source_tag(&tag), tag);
}

#[test]
fn source_tag_of_only_forbidden_chars_is_empty() {
    assert_eq!(build_source_tag("!!! ### "), "");
    assert_eq!(build_source_tag(""), "");
}

#[test]
fn source_tag_lowercases_non_ascii() {
    // 'É' lowercases to 'é', which is not a tag character and is dropped
    assert_eq!(build_source_tag("ÉCOLE Tag"), "cole_tag");
}

#[test]
fn normalizing_a_lowercased_tag() {
    assert_eq!(normalize_lowercase_tag("  a  b:c  "), "a_b:c");
    // uppercase letters are not tag characters: lowercasing comes first
    assert_eq!(normalize_lowercase_tag("AbC"), "b");
}
