use ffwebapps::link::{encode_component, Link};

fn link(text: &str) -> Link {
    match Link::parse(text) {
        Ok(link) => link,
        Err(error) => panic!("{}", error.message),
    }
}

#[test]
fn a_url_is_kept_in_its_serialization() {
    let url = link("HTTPS://Example.org:443/a/../b?q#f");
    assert_eq!(url.as_str(), "https://example.org/b?q#f");
    assert_eq!(url.scheme(), "https");
    let copy = url.clone();
    assert_eq!(copy.as_str(), url.as_str());
    assert_eq!(copy.scheme(), "https");
}

#[test]
fn schemes_without_an_authority_are_known_too() {
    assert_eq!(link("data:application/json,{}").scheme(), "data");
    assert_eq!(link("web+Mail:x").scheme(), "web+mail");
    assert_eq!(link("mailto:a@b").as_str(), "mailto:a@b");
}

#[test]
fn what_is_no_url_is_refused_with_the_parsers_words() {
    match Link::parse("not a url") {
        Ok(_) => panic!("accepted"),
        Err(error) => assert_eq!(error.message, "relative URL without a base"),
    }
}

#[test]
fn a_reference_is_resolved_against_its_base() {
    let joined = link("https://example.org/app/app.webmanifest").join(".");
    match joined {
        Ok(url) => assert_eq!(url.as_str(), "https://example.org/app/"),
        Err(error) => panic!("{}", error.message),
    }
}

#[test]
fn a_base_that_takes_no_reference_is_refused() {
    match link("data:application/json,{}").join(".") {
        Ok(_) => panic!("accepted"),
        Err(error) => assert_eq!(error.message, "relative URL with a cannot-be-a-base base"),
    }
}

#[test]
fn everything_that_means_something_in_a_url_is_encoded() {
    assert_eq!(
        encode_component("web+mail:a b/ü?x=1&y=%"),
        "web%2Bmail%3Aa%20b%2F%C3%BC%3Fx%3D1%26y%3D%25"
    );
    assert_eq!(encode_component("AZaz09-_.~"), "AZaz09-_.~");
    assert_eq!(encode_component(""), "");
}

#[test]
fn an_encoded_text_is_one_component() {
    let encoded = encode_component("https://a.b/c?d=e#f g\u{1F600}");
    for c in encoded.chars() {
        assert!(c.is_ascii_alphanumeric() || "-_.~%".contains(c), "{c}");
    }
}
