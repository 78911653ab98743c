use vstd::prelude::*;

verus! {

/// How the window is opened: its title, its initial inner size in pixels, and
/// the smallest size the windowing layer lets it shrink to, if any.
#[derive(Debug, PartialEq, Eq)]
pub struct WindowConfig {
    pub title: String,
    pub width: u32,
    pub height: u32,
    pub min_size: Option<(u32, u32)>,
}

impl WindowConfig {
    /// A window with this title and size, and no lower bound on its size.
    pub fn new(title: &str, width: u32, height: u32) -> (r: WindowConfig)
        ensures
            r.title@ == title@,
            r.width == width,
            r.height == height,
            r.min_size is None,
    {
        WindowConfig { title: title.to_string(), width, height, min_size: None }
    }

    /// The same window, which cannot shrink below `width` by `height`.
    pub fn with_min_size(self, width: u32, height: u32) -> (r: WindowConfig)
        ensures
            r.title@ == self.title@,
            r.width == self.width,
            r.height == self.height,
            r.min_size == Some((width, height)),
    {
        WindowConfig { min_size: Some((width, height)), ..self }
    }
}

} // verus!
