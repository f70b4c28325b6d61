//! Rich embeds attached to messages.

use vstd::prelude::*;

verus! {

/// Author of an embed.
#[derive(Clone, Debug, PartialEq, Eq, Hash)]
pub struct EmbedAuthor {
    /// URL of the author's icon.
    pub icon_url: Option<String>,
    /// Name of the author.
    pub name: String,
    /// Proxied URL of the author's icon.
    pub proxy_icon_url: Option<String>,
    /// URL of the author.
    pub url: Option<String>,
}

/// A titled field of an embed.
#[derive(Clone, Debug, PartialEq, Eq, Hash)]
pub struct EmbedField {
    /// Whether the field is displayed inline.
    pub inline: bool,
    /// Name of the field.
    pub name: String,
    /// Value of the field.
    pub value: String,
}

/// Footer of an embed.
#[derive(Clone, Debug, PartialEq, Eq, Hash)]
pub struct EmbedFooter {
    /// URL of the footer's icon.
    pub icon_url: Option<String>,
    /// Proxied URL of the footer's icon.
    pub proxy_icon_url: Option<String>,
    /// Text of the footer.
    pub text: String,
}

/// Image of an embed.
#[derive(Clone, Debug, PartialEq, Eq, Hash)]
pub struct EmbedImage {
    /// Height of the image.
    pub height: Option<u64>,
    /// Proxied URL of the image.
    pub proxy_url: Option<String>,
    /// URL of the image.
    pub url: String,
    /// Width of the image.
    pub width: Option<u64>,
}

/// Provider of an embed.
#[derive(Clone, Debug, PartialEq, Eq, Hash)]
pub struct EmbedProvider {
    /// Name of the provider.
    pub name: Option<String>,
    /// URL of the provider.
    pub url: Option<String>,
}

/// Thumbnail of an embed.
#[derive(Clone, Debug, PartialEq, Eq, Hash)]
pub struct EmbedThumbnail {
    /// Height of the thumbnail.
    pub height: Option<u64>,
    /// Proxied URL of the thumbnail.
    pub proxy_url: Option<String>,
    /// URL of the thumbnail.
    pub url: String,
    /// Width of the thumbnail.
    pub width: Option<u64>,
}

/// Video of an embed.
#[derive(Clone, Debug, PartialEq, Eq, Hash)]
pub struct EmbedVideo {
    /// Height of the video.
    pub height: Option<u64>,
    /// Proxied URL of the video.
    pub proxy_url: Option<String>,
    /// URL of the video.
    pub url: Option<String>,
    /// Width of the video.
    pub width: Option<u64>,
}

/// A rich embed.
#[derive(Clone, Debug, PartialEq, Eq, Hash)]
pub struct Embed {
    /// Author of the embed.
    pub author: Option<EmbedAuthor>,
    /// Colour of the embed's side bar, as an RGB value.
    pub color: Option<u32>,
    /// Description of the embed.
    pub description: Option<String>,
    /// Fields of the embed.
    pub fields: Vec<EmbedField>,
    /// Footer of the embed.
    pub footer: Option<EmbedFooter>,
    /// Image of the embed.
    pub image: Option<EmbedImage>,
    /// Type of the embed, such as `rich`.
    pub kind: String,
    /// Provider of the embed.
    pub provider: Option<EmbedProvider>,
    /// Thumbnail of the embed.
    pub thumbnail: Option<EmbedThumbnail>,
    /// Timestamp of the embed, in microseconds since the Unix epoch.
    pub timestamp: Option<i64>,
    /// Title of the embed.
    pub title: Option<String>,
    /// URL of the embed.
    pub url: Option<String>,
    /// Video of the embed.
    pub video: Option<EmbedVideo>,
}

} // verus!
