//! The content model of a post body: blocks, payloads and lookup tables.

use vstd::prelude::*;
use vstd::string::*;

use super::table::SideTable;
use crate::fanbox::{FollowingCreator, PostListItem};

verus! {

/// The media type reported for a file extension without a known mapping.
pub open spec fn octet_stream() -> Seq<char> {
    "application/octet-stream"@
}

/// The first media type that the extension table of `mime_guess` lists for
/// an extension, or `None` where it lists none.
pub uninterp spec fn guessed_mime(extension: Seq<char>) -> Option<Seq<char>>;

/// The media type derived from a file extension.
pub open spec fn mime_of_extension(extension: Seq<char>) -> Seq<char> {
    match guessed_mime(extension) {
        Some(mime) => mime,
        None => octet_stream(),
    }
}

/// Calls `mime_guess::from_ext(..).first()` and renders the media type as
/// text. The result is the table's first entry for the extension, which
/// depends on the extension alone; an empty extension has no entry.
#[verifier::external_body]
fn guess_mime(extension: &str) -> (guess: Option<String>)
    ensures
        match guess {
            Some(mime) => guessed_mime(extension@) == Some(mime@),
            None => guessed_mime(extension@) is None,
        },
        extension@.len() == 0 ==> guess is None,
{
    match mime_guess::from_ext(extension).first() {
        Some(mime) => Some(mime.to_string()),
        None => None,
    }
}

/// The media type to report for a guess: the guess itself, or
/// `application/octet-stream` where there is none.
pub fn mime_or_octet_stream(guess: Option<String>) -> (mime: String)
    ensures
        mime@ == match guess {
            Some(m) => m@,
            None => octet_stream(),
        },
{
    match guess {
        Some(m) => m,
        None => String::from_str("application/octet-stream"),
    }
}

/// The media type for a file extension.
pub fn mime_for(extension: &str) -> (mime: String)
    ensures
        mime@ == mime_of_extension(extension@),
        extension@.len() == 0 ==> mime@ == octet_stream(),
{
    mime_or_octet_stream(guess_mime(extension))
}

/// `stem`, a dot, then `extension`.
pub open spec fn dotted(stem: Seq<char>, extension: Seq<char>) -> Seq<char> {
    stem + seq!['.'] + extension
}

/// Joins a file stem and an extension with a dot.
pub fn join_dotted(stem: &str, extension: &str) -> (name: String)
    ensures
        name@ == dotted(stem@, extension@),
{
    proof {
        reveal_strlit(".");
        assert("."@ =~= seq!['.']);
    }
    let mut name = String::from_str(stem);
    name.append(".");
    name.append(extension);
    name
}

/// A style span over a text block: a type and a range counted in UTF-16
/// code units.
#[derive(Debug, Clone, PartialEq, Eq, Hash)]
pub struct PostBlockStyle {
    pub ty: String,
    pub offset: u32,
    pub length: u32,
}

impl PostBlockStyle {
    /// A copy that equals `self` in every field.
    pub fn duplicate(&self) -> (copy: Self)
        ensures
            copy == *self,
    {
        PostBlockStyle { ty: self.ty.clone(), offset: self.offset, length: self.length }
    }
}

/// One unit of a post's rich-text body.
#[derive(Debug, Clone, PartialEq, Eq, Hash)]
pub enum PostBlock {
    P { text: String, styles: Option<Vec<PostBlockStyle>> },
    Header { text: String, styles: Option<Vec<PostBlockStyle>> },
    Image { image_id: String },
    File { file_id: String },
    Embed { embed_id: String },
    UrlEmbed { url_embed_id: String },
    Video { video_id: String },
}

/// An image payload.
#[derive(Debug, Clone, PartialEq, Eq, Hash)]
pub struct PostImage {
    pub id: String,
    pub extension: String,
    pub width: u32,
    pub height: u32,
    pub original_url: String,
    pub thumbnail_url: String,
}

impl PostImage {
    /// The canonical file name: the identifier, a dot, the extension.
    pub open spec fn spec_filename(&self) -> Seq<char> {
        dotted(self.id@, self.extension@)
    }

    /// The media type, derived from the extension.
    pub open spec fn spec_mime(&self) -> Seq<char> {
        mime_of_extension(self.extension@)
    }

    /// The canonical file name.
    pub fn filename(&self) -> (name: String)
        ensures
            name@ == self.spec_filename(),
    {
        join_dotted(self.id.as_str(), self.extension.as_str())
    }

    /// The media type, `application/octet-stream` for an extension without
    /// a known mapping.
    pub fn mime(&self) -> (mime: String)
        ensures
            mime@ == self.spec_mime(),
    {
        mime_for(self.extension.as_str())
    }
}

/// A video hosted by an outside service.
#[derive(Debug, Clone, PartialEq, Eq, Hash)]
pub struct PostVideo {
    pub service_provider: String,
    pub video_id: String,
}

/// A file payload.
#[derive(Debug, Clone, PartialEq, Eq, Hash)]
pub struct PostFile {
    pub id: String,
    pub name: String,
    pub extension: String,
    pub size: u64,
    pub url: String,
}

impl PostFile {
    /// The canonical file name: the given name, a dot, the extension.
    pub open spec fn spec_filename(&self) -> Seq<char> {
        dotted(self.name@, self.extension@)
    }

    /// The media type, derived from the extension.
    pub open spec fn spec_mime(&self) -> Seq<char> {
        mime_of_extension(self.extension@)
    }

    /// The canonical file name.
    pub fn filename(&self) -> (name: String)
        ensures
            name@ == self.spec_filename(),
    {
        join_dotted(self.name.as_str(), self.extension.as_str())
    }

    /// The media type, `application/octet-stream` for an extension without
    /// a known mapping.
    pub fn mime(&self) -> (mime: String)
        ensures
            mime@ == self.spec_mime(),
    {
        mime_for(self.extension.as_str())
    }
}

/// Content embedded from an outside service.
#[derive(Debug, Clone, PartialEq, Eq, Hash)]
pub struct PostEmbed {
    pub id: String,
    pub service_provider: String,
    pub content_id: String,
}

impl PostEmbed {
    /// A copy that equals `self` in every field.
    pub fn duplicate(&self) -> (copy: Self)
        ensures
            copy == *self,
    {
        PostEmbed {
            id: self.id.clone(),
            service_provider: self.service_provider.clone(),
            content_id: self.content_id.clone(),
        }
    }
}

/// What an entry of the URL embed table resolves to. The variants that
/// point at another post or creator hold a summary by value.
#[derive(Debug, Clone, PartialEq, Eq, Hash)]
pub enum PostTextEmbed {
    Html { id: String, html: String },
    HtmlCard { id: String, html: String },
    FanboxPost { id: String, post_info: PostListItem },
    FanboxCreator { id: String, profile: FollowingCreator },
    Default { id: String, url: String, host: String },
}

impl PostTextEmbed {
    /// A copy of the same variant that equals `self` in every field.
    pub fn duplicate(&self) -> (copy: Self)
        ensures
            copy == *self,
    {
        match self {
            PostTextEmbed::Html { id, html } => PostTextEmbed::Html {
                id: id.clone(),
                html: html.clone(),
            },
            PostTextEmbed::HtmlCard { id, html } => PostTextEmbed::HtmlCard {
                id: id.clone(),
                html: html.clone(),
            },
            PostTextEmbed::FanboxPost { id, post_info } => PostTextEmbed::FanboxPost {
                id: id.clone(),
                post_info: post_info.duplicate(),
            },
            PostTextEmbed::FanboxCreator { id, profile } => PostTextEmbed::FanboxCreator {
                id: id.clone(),
                profile: profile.duplicate(),
            },
            PostTextEmbed::Default { id, url, host } => PostTextEmbed::Default {
                id: id.clone(),
                url: url.clone(),
                host: host.clone(),
            },
        }
    }
}

/// A post body as the platform delivers it: narrative content as plain text
/// or as blocks, payloads listed directly, and tables that blocks refer to.
#[derive(Debug, Clone, PartialEq, Eq, Hash)]
pub struct PostBody {
    pub text: Option<String>,
    pub blocks: Option<Vec<PostBlock>>,
    pub images: Option<Vec<PostImage>>,
    pub videos: Option<Vec<PostVideo>>,
    pub video: Option<PostVideo>,
    pub files: Option<Vec<PostFile>>,
    pub image_map: Option<SideTable<PostImage>>,
    pub file_map: Option<SideTable<PostFile>>,
    pub embed_map: Option<SideTable<PostEmbed>>,
    pub url_embed_map: Option<SideTable<PostTextEmbed>>,
}

} // verus!
