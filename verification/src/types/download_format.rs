use vstd::prelude::*;

verus! {

/// The image format downloaded pictures are re-encoded to.
#[derive(Debug, Clone, Copy, PartialEq, Eq, Structural)]
pub enum DownloadFormat {
    Jpeg,
    Png,
    Webp,
}

impl DownloadFormat {
    /// The file extension of the format.
    pub fn extension(self) -> (r: &'static str)
        ensures
            self is Jpeg ==> r@ == "jpg"@,
            self is Png ==> r@ == "png"@,
            self is Webp ==> r@ == "webp"@,
    {
        match self {
            DownloadFormat::Jpeg => "jpg",
            DownloadFormat::Png => "png",
            DownloadFormat::Webp => "webp",
        }
    }

    /// The extension, named as chapter download code expects it.
    pub fn as_str(self) -> (r: &'static str)
        ensures
            self is Jpeg ==> r@ == "jpg"@,
            self is Png ==> r@ == "png"@,
            self is Webp ==> r@ == "webp"@,
    {
        self.extension()
    }
}

impl Default for DownloadFormat {
    /// Pictures are stored as JPEG unless configured otherwise.
    fn default() -> (r: Self)
        ensures
            r is Jpeg,
    {
        DownloadFormat::Jpeg
    }
}

} // verus!
