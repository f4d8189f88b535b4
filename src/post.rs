//! The content model of posts: text, media and layout blocks.
use vstd::prelude::*;

verus! {

/// A reference to a blog by its identifier.
#[derive(Debug, Clone, PartialEq)]
pub struct BlogInfo {
    pub uuid: String,
}

/// How a text block is displayed.
#[derive(Debug, Clone, Copy, PartialEq, Eq)]
pub enum TextSubtype {
    /// intended for post headings
    Heading1,
    /// intended for section subheadings
    Heading2,
    /// shown in a large cursive font
    Quirky,
    /// short quotations, shown in a large serif font
    Quote,
    /// longer quotations or photo captions, indented
    Indented,
    /// chat transcripts, shown in a monospace font
    Chat,
    /// an item of a numbered list
    OrderedListItem,
    /// an item of a bulleted list
    UnorderedListItem,
}

/// A reference to a post by its id.
#[derive(Debug, Clone, PartialEq)]
pub struct PostInfo {
    pub id: u64,
}

/// A kind of inline formatting.
#[derive(Debug, Clone, PartialEq)]
pub enum TextFormatType {
    Bold,
    Italic,
    Strikethrough,
    Small,
    Link { url: String },
    Mention { blog: BlogInfo },
    /// with a leading `#`
    Color { hex: String },
}

/// Formatting over a range of a text block, counted in characters.
#[derive(Debug, Clone, PartialEq)]
pub struct TextFormatting {
    pub start: usize,
    pub end: usize,
    pub format_type: TextFormatType,
}

/// An image, video or audio file.
#[derive(Debug, Clone, PartialEq)]
pub struct Media {
    pub url: String,
    pub mime_type: Option<String>,
    pub width: Option<u64>,
    pub height: Option<u64>,
}

/// Where a block's content comes from.
#[derive(Debug, Clone, PartialEq)]
pub enum Attribution {
    Post { url: String, blog: BlogInfo, post: PostInfo },
    Link { url: String },
    Blog { blog: BlogInfo },
    App {
        url: String,
        app_name: Option<String>,
        display_text: Option<String>,
        logo: Option<Media>,
    },
}

/// Audio or video given by URL or as media.
#[derive(Debug, Clone, PartialEq)]
pub enum MediaSource {
    Url { url: String },
    Media { media: Media },
}

/// An embedded frame.
#[derive(Debug, Clone, PartialEq)]
pub struct EmbedIframe {
    pub url: String,
    pub width: u64,
    pub height: u64,
}

/// The kind of a paywall block.
#[derive(Debug, Clone, PartialEq)]
pub enum PaywallSubtype {
    Cta { title: String },
    Disabled { title: String },
    Divider { color: Option<String> },
}

/// One block of a post's content.
#[derive(Debug, Clone, PartialEq)]
pub enum ContentBlock {
    Text {
        text: String,
        subtype: Option<TextSubtype>,
        /// from 0 to 7
        indent_level: Option<u8>,
        formatting: Option<Vec<TextFormatting>>,
    },
    Image {
        media: Vec<Media>,
        feedback_token: Option<String>,
        /// for GIFs
        poster: Option<Media>,
        attribution: Option<Attribution>,
        alt_text: Option<String>,
        caption: Option<String>,
    },
    Link {
        url: String,
        title: Option<String>,
        description: Option<String>,
        author: Option<String>,
        site_name: Option<String>,
        /// ignored on create, sent on retrieve
        display_url: Option<String>,
        poster: Option<Media>,
    },
    Audio {
        source: MediaSource,
        title: Option<String>,
        artist: Option<String>,
        album: Option<String>,
        poster: Option<Media>,
        embed_html: Option<String>,
        embed_url: Option<String>,
        attribution: Option<Attribution>,
    },
    Video {
        source: MediaSource,
        embed_html: Option<String>,
        embed_iframe: Option<EmbedIframe>,
        embed_url: Option<String>,
        poster: Option<Media>,
        attribution: Option<Attribution>,
        can_autoplay_on_cellular: Option<bool>,
    },
    Paywall { subtype: PaywallSubtype, url: String, text: String, is_visible: Option<bool> },
}

/// How a row of blocks is shown.
#[derive(Debug, Clone, Copy, PartialEq, Eq)]
pub enum RowDisplayMode {
    Carousel,
}

/// A row of content blocks, by index.
#[derive(Debug, Clone, PartialEq)]
pub struct RowDisplay {
    pub blocks: Vec<u64>,
    pub mode: Option<RowDisplayMode>,
}

/// How content blocks are laid out.
#[derive(Debug, Clone, PartialEq)]
pub enum LayoutBlock {
    Rows { blocks: Vec<RowDisplay>, truncate_after: Option<u64> },
    /// legacy; one of `truncate_after` and `blocks` is given
    Condensed {
        truncate_after: Option<u64>,
        /// starts at 0 and counts up by one
        blocks: Option<Vec<u64>>,
    },
    Ask {
        /// the block indices that make up the ask
        blocks: Vec<u64>,
        /// absent for an anonymous ask, else a blog
        attribution: Option<Attribution>,
    },
}

/// One entry of a post's reblog trail.
#[derive(Debug, Clone, PartialEq)]
pub enum ReblogTrail {
    Intact { post: PostInfo, blog: BlogInfo, content: Vec<ContentBlock>, layout: Vec<LayoutBlock> },
    Broken { broken_blog_name: String, content: Vec<ContentBlock>, layout: Vec<LayoutBlock> },
}

/// A post, by its id.
#[derive(Debug, Clone, PartialEq)]
pub struct Post {
    pub id: u64,
}

} // verus!
