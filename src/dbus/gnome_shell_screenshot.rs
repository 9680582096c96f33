use vstd::prelude::*;

verus! {

/// The compositor's answer to the screenshot service.
#[derive(Debug, Clone)]
pub enum NiriToScreenshot {
    /// The path of the file the screenshot was saved to, if it was.
    ScreenshotResult(Option<String>),
}

} // verus!
