//! URLs as the library holds them, and the percent-encoding of a text that goes into one.

use vstd::prelude::*;

verus! {

/// What `url::Url::parse` makes of a text: the serialization of the absolute URL in it, or else the
/// message of its error.
pub uninterp spec fn url_parsed(input: Seq<char>) -> Result<Seq<char>, Seq<char>>;

/// What `url::Url::join` makes of a relative reference, with the URL written in `base` as the base:
/// the serialization of a URL, or else the message of the error, which may be one about `base`.
pub uninterp spec fn url_joined(base: Seq<char>, input: Seq<char>) -> Result<Seq<char>, Seq<char>>;

/// What stands before the first `:`.
pub open spec fn scheme_of(text: Seq<char>) -> Seq<char>
    decreases text.len(),
{
    if text.len() == 0 || text[0] == ':' {
        Seq::empty()
    } else {
        seq![text[0]] + scheme_of(text.skip(1))
    }
}

/// A URL: its serialization, with the scheme at hand.
pub struct Link {
    scheme: String,
    text: String,
}

impl View for Link {
    type V = Seq<char>;

    /// The serialization.
    closed spec fn view(&self) -> Seq<char> {
        self.text@
    }
}

impl DeepView for Link {
    type V = Seq<char>;

    open spec fn deep_view(&self) -> Seq<char> {
        self@
    }
}

/// Why no URL could be made of a text.
pub struct LinkError {
    pub message: String,
}

/// `url::Url::parse`, with the scheme and the serialization of the result, or the message of the
/// error. What is claimed: the outcome is a function of the text, and the scheme is what stands
/// before the first `:` of the serialization.
#[verifier::external_body]
fn parse_url(input: &str) -> (r: Result<(String, String), String>)
    ensures
        match r {
            Ok((scheme, text)) => url_parsed(input@) == Ok::<Seq<char>, Seq<char>>(text@) && scheme@
                == scheme_of(text@),
            Err(message) => url_parsed(input@) == Err::<Seq<char>, Seq<char>>(message@),
        },
{
    let parsed = url::Url::parse(input).map_err(|e| e.to_string())?;
    Ok((parsed.scheme().to_string(), parsed.as_str().to_string()))
}

/// `url::Url::join`, on the URL that `base` is the serialization of, or the message of the error.
/// What is claimed: the outcome is a function of the two texts, and the scheme is what stands
/// before the first `:` of the serialization.
#[verifier::external_body]
fn join_url(base: &str, input: &str) -> (r: Result<(String, String), String>)
    ensures
        match r {
            Ok((scheme, text)) => url_joined(base@, input@) == Ok::<Seq<char>, Seq<char>>(text@)
                && scheme@ == scheme_of(text@),
            Err(message) => url_joined(base@, input@) == Err::<Seq<char>, Seq<char>>(message@),
        },
{
    let joined = url::Url::parse(base).and_then(|b| b.join(input)).map_err(|e| e.to_string())?;
    Ok((joined.scheme().to_string(), joined.as_str().to_string()))
}

impl Link {
    #[verifier::type_invariant]
    spec fn scheme_is_at_hand(self) -> bool {
        self.scheme@ == scheme_of(self.text@)
    }

    /// The URL in a text: what the parser makes of it, or the error where it makes nothing of it.
    pub fn parse(input: &str) -> (r: Result<Link, LinkError>)
        ensures
            match r {
                Ok(link) => url_parsed(input@) == Ok::<Seq<char>, Seq<char>>(link@),
                Err(error) => url_parsed(input@) == Err::<Seq<char>, Seq<char>>(error.message@),
            },
    {
        match parse_url(input) {
            Ok((scheme, text)) => Ok(Link { scheme, text }),
            Err(message) => Err(LinkError { message }),
        }
    }

    /// The URL that a reference means, read relative to this one.
    pub fn join(&self, input: &str) -> (r: Result<Link, LinkError>)
        ensures
            match r {
                Ok(link) => url_joined(self@, input@) == Ok::<Seq<char>, Seq<char>>(link@),
                Err(error) => url_joined(self@, input@) == Err::<Seq<char>, Seq<char>>(error.message@),
            },
    {
        match join_url(self.text.as_str(), input) {
            Ok((scheme, text)) => Ok(Link { scheme, text }),
            Err(message) => Err(LinkError { message }),
        }
    }

    /// The scheme, without the `:`.
    pub fn scheme(&self) -> (r: &str)
        ensures
            r@ == scheme_of(self@),
    {
        proof {
            use_type_invariant(&*self);
        }
        self.scheme.as_str()
    }

    /// The serialization.
    pub fn as_str(&self) -> (r: &str)
        ensures
            r@ == self@,
    {
        self.text.as_str()
    }
}

impl Clone for Link {
    fn clone(&self) -> (r: Self)
        ensures
            r == *self,
    {
        proof {
            use_type_invariant(&*self);
        }
        Link { scheme: self.scheme.clone(), text: self.text.clone() }
    }
}

/// The bytes that percent-encoding leaves as they are: letters, digits, `-`, `.`, `_` and `~`.
pub open spec fn unreserved(b: u8) -> bool {
    ||| 0x30 <= b <= 0x39
    ||| 0x41 <= b <= 0x5a
    ||| 0x61 <= b <= 0x7a
    ||| b == 0x2d
    ||| b == 0x2e
    ||| b == 0x5f
    ||| b == 0x7e
}

/// The upper-case hexadecimal digit of a number below sixteen.
pub open spec fn hex_digit(d: int) -> char {
    if d < 10 {
        ('0' as int + d) as char
    } else {
        ('A' as int + d - 10) as char
    }
}

/// A byte as percent-encoding writes it.
pub open spec fn encoded_byte(b: u8) -> Seq<char> {
    if unreserved(b) {
        seq![b as char]
    } else {
        seq!['%', hex_digit(b as int / 16), hex_digit(b as int % 16)]
    }
}

/// Bytes as percent-encoding writes them, one after the other.
pub open spec fn percent_encoded(bytes: Seq<u8>) -> Seq<char>
    decreases bytes.len(),
{
    if bytes.len() == 0 {
        Seq::empty()
    } else {
        percent_encoded(bytes.drop_last()) + encoded_byte(bytes.last())
    }
}

/// `urlencoding::encode`. What is claimed: every byte of the UTF-8 encoding is written as `%` and
/// two upper-case hexadecimal digits, except letters, digits, `-`, `.`, `_` and `~`, which stand
/// for themselves.
#[verifier::external_body]
fn encode_url(data: &str) -> (r: String)
    ensures
        r@ == percent_encoded(vstd::utf8::encode_utf8(data@)),
{
    urlencoding::encode(data).into_owned()
}

/// A text with everything percent-encoded that means something in a URL.
pub fn encode_component(data: &str) -> (r: String)
    ensures
        r@ == percent_encoded(vstd::utf8::encode_utf8(data@)),
{
    encode_url(data)
}

/// An upper-case hexadecimal digit.
pub open spec fn is_hex_digit(c: char) -> bool {
    '0' <= c <= '9' || 'A' <= c <= 'F'
}

/// The character at `i` is unreserved, or a `%` that two hexadecimal digits follow, or one of
/// those digits.
pub open spec fn encoded_at(text: Seq<char>, i: int) -> bool {
    if text[i] == '%' {
        i + 2 < text.len() && is_hex_digit(text[i + 1]) && is_hex_digit(text[i + 2])
    } else {
        (text[i] as int) < 0x80 && unreserved(text[i] as u8)
    }
}

/// Percent-encoding leaves only unreserved characters and escapes: every character is unreserved
/// or a `%`, and two hexadecimal digits follow each `%`. So an encoded text neither ends the
/// component that it is put in nor holds a `%s`.
pub proof fn law_encoded_is_one_component(bytes: Seq<u8>)
    ensures
        forall|i: int|
            0 <= i < percent_encoded(bytes).len() ==> #[trigger] encoded_at(
                percent_encoded(bytes),
                i,
            ),
    decreases bytes.len(),
{
    if bytes.len() > 0 {
        let head = percent_encoded(bytes.drop_last());
        let b = bytes.last();
        let tail = encoded_byte(b);
        let text = head + tail;
        law_encoded_is_one_component(bytes.drop_last());
        assert(is_hex_digit(hex_digit(b as int / 16)));
        assert(is_hex_digit(hex_digit(b as int % 16)));
        assert forall|i: int| 0 <= i < text.len() implies #[trigger] encoded_at(text, i) by {
            if i < head.len() {
                assert(encoded_at(head, i));
            } else {
                assert(text[i] == tail[i - head.len()]);
            }
        }
    }
}

} // verus!
