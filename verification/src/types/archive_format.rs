use vstd::prelude::*;

verus! {

/// The on-disk shape a downloaded comic is exported to.
#[derive(Debug, Clone, Copy, PartialEq, Eq, Structural)]
pub enum ArchiveFormat {
    Image,
    Pdf,
}

impl ArchiveFormat {
    /// The file extension of the archive; a plain image directory has none.
    pub fn extension(&self) -> (r: &'static str)
        ensures
            *self is Image ==> r@ == ""@,
            *self is Pdf ==> r@ == "pdf"@,
    {
        match self {
            ArchiveFormat::Image => "",
            ArchiveFormat::Pdf => "pdf",
        }
    }
}

impl Default for ArchiveFormat {
    /// Comics are exported as image directories unless configured otherwise.
    fn default() -> (r: Self)
        ensures
            r is Image,
    {
        ArchiveFormat::Image
    }
}

} // verus!
