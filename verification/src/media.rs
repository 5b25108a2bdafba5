//! Media types, and the decision whether a content type announces JSON.
//!
//! Parsing a content type is left to the `mime` crate. What the decoder reads
//! of a parsed media type is kept in [`MediaType`] as plain strings.
use vstd::prelude::*;

verus! {

/// A parsed media type: `type/subtype`, or `type/subtype+suffix`.
///
/// The names are held as the parser gives them, without parameters.
#[derive(Clone, Debug, PartialEq, Eq)]
pub struct MediaType {
    /// The top-level type, such as `application`.
    pub type_: String,
    /// The subtype, such as `json` or `vnd.api`.
    pub subtype: String,
    /// What follows the `+` of the subtype, such as `json` in `vnd.api+json`.
    pub suffix: Option<String>,
}

/// The name that marks a JSON media type.
pub open spec fn json_name() -> Seq<char> {
    seq!['j', 's', 'o', 'n']
}

/// What the `mime` crate makes of a content type: the media type, or `None`
/// where it refuses the text.
pub uninterp spec fn media_type_of(content_type: Seq<char>) -> Option<MediaType>;

/// Calls `str::parse::<mime::Mime>`, then `Mime::type_`, `Mime::subtype` and
/// `Mime::suffix` to copy the three names of the parsed media type. The result
/// is `None` where `mime` returns an error.
#[verifier::external_body]
pub(crate) fn parse_media_type(content_type: &str) -> (parsed: Option<MediaType>)
    ensures
        parsed == media_type_of(content_type@),
{
    let mime: mime::Mime = content_type.parse().ok()?;
    let suffix = match mime.suffix() {
        Some(name) => Some(name.as_str().to_owned()),
        None => None,
    };
    Some(MediaType {
        type_: mime.type_().as_str().to_owned(),
        subtype: mime.subtype().as_str().to_owned(),
        suffix,
    })
}

/// Whether `name` is exactly `json`.
fn is_json_name(name: &str) -> (yes: bool)
    ensures
        yes <==> name@ == json_name(),
{
    if name.unicode_len() != 4 {
        return false;
    }
    let yes = name.get_char(0) == 'j' && name.get_char(1) == 's' && name.get_char(2) == 'o'
        && name.get_char(3) == 'n';
    assert(yes ==> name@ =~= json_name());
    yes
}

impl MediaType {
    /// Whether the media type is JSON by its own names: the subtype is `json`,
    /// or the suffix is.
    pub open spec fn names_json(self) -> bool {
        self.subtype@ == json_name() || (self.suffix matches Some(suffix) && suffix@
            == json_name())
    }

    /// Whether the media type is JSON by its own names: the subtype is `json`,
    /// as in `application/json`, or the suffix is, as in
    /// `application/vnd.api+json`.
    pub fn is_json(&self) -> (yes: bool)
        ensures
            yes == self.names_json(),
    {
        if is_json_name(self.subtype.as_str()) {
            return true;
        }
        match &self.suffix {
            Some(suffix) => is_json_name(suffix.as_str()),
            None => false,
        }
    }
}

/// Whether `accepted` is a verdict that may be given on a parsed content type.
///
/// A content type that did not parse is refused. A media type that names JSON
/// is accepted. For any other media type the predicate decides, if there is
/// one; without a predicate it is refused.
pub open spec fn verdict<F: Fn(MediaType) -> bool>(
    parsed: Option<MediaType>,
    predicate: Option<&F>,
    accepted: bool,
) -> bool {
    match parsed {
        None => !accepted,
        Some(media) => if media.names_json() {
            accepted
        } else {
            match predicate {
                None => !accepted,
                Some(p) => call_ensures(*p, (media,), accepted),
            }
        },
    }
}

/// Decides whether a body with this content type is read at all.
///
/// `parsed` is the media type of the content type, `None` if the header is
/// missing or does not parse. The predicate is only asked about a media type
/// that does not name JSON itself.
pub fn accepts<F: Fn(MediaType) -> bool>(parsed: Option<MediaType>, predicate: Option<&F>) -> (accepted:
    bool)
    requires
        parsed matches Some(media) ==> (predicate matches Some(p) ==> call_requires(
            *p,
            (media,),
        )),
    ensures
        verdict(parsed, predicate, accepted),
{
    match parsed {
        None => false,
        Some(media) => {
            if media.is_json() {
                true
            } else {
                match predicate {
                    None => false,
                    Some(p) => p(media),
                }
            }
        },
    }
}

} // verus!
