use vstd::prelude::*;
use vstd::string::*;

verus! {

/// Media type of an [`Image`].
#[derive(Debug, Clone, Copy, PartialEq, Eq, Structural)]
pub enum ImageFormat {
    Jpeg,
    Png,
    Gif,
    Webp,
}

/// The subtype that names a format in a `data:image/...` URL.
pub open spec fn format_subtype(f: ImageFormat) -> Seq<char> {
    match f {
        ImageFormat::Jpeg => "jpeg"@,
        ImageFormat::Png => "png"@,
        ImageFormat::Gif => "gif"@,
        ImageFormat::Webp => "webp"@,
    }
}

/// The `img` tag that embeds base64 `data` of format `f`.
pub open spec fn img_tag(f: ImageFormat, data: Seq<char>) -> Seq<char> {
    "<img src=\"data:image/"@ + format_subtype(f) + ";base64,"@ + data + "\" />"@
}

/// An image block of a content: base64 data (without any metadata) and its
/// media type.
#[derive(Debug, Clone)]
pub struct Image {
    pub format: ImageFormat,
    pub base64: String,
}

impl Image {
    /// Media type of the image.
    pub fn format(&self) -> (r: ImageFormat)
        ensures
            r == self.format,
    {
        self.format
    }

    /// Base64 encoded data.
    pub fn base64(&self) -> (r: &str)
        ensures
            r@ == self.base64@,
    {
        self.base64.as_str()
    }

    /// An html `img` tag with the base64 data embedded.
    pub fn html(&self) -> (r: String)
        ensures
            r@ == img_tag(self.format, self.base64@),
    {
        let subtype: &str = match self.format {
            ImageFormat::Jpeg => "jpeg",
            ImageFormat::Png => "png",
            ImageFormat::Gif => "gif",
            ImageFormat::Webp => "webp",
        };
        let mut r = String::from_str("<img src=\"data:image/");
        r.append(subtype);
        r.append(";base64,");
        r.append(self.base64.as_str());
        r.append("\" />");
        r
    }
}

} // verus!
