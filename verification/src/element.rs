//! How the source element describes itself.

use vstd::prelude::*;

verus! {

/// The element's metadata.
pub struct ElementMetadata {
    pub long_name: &'static str,
    pub classification: &'static str,
    pub description: &'static str,
    pub author: &'static str,
}

/// The element's type name.
pub fn element_type_name() -> (name: &'static str)
    ensures
        name@ == "ScreenCaptureKitSrc"@,
{
    "ScreenCaptureKitSrc"
}

/// The element's metadata.
pub fn element_metadata() -> (m: ElementMetadata)
    ensures
        m.long_name@ == "ScreenCaptureKit Source"@,
        m.classification@ == "Source/ScreenCapture"@,
        m.description@ == "Generates media from ScreenCaptureKit"@,
        m.author@ == "Per Johansson <per@doom.fish>"@,
{
    ElementMetadata {
        long_name: "ScreenCaptureKit Source",
        classification: "Source/ScreenCapture",
        description: "Generates media from ScreenCaptureKit",
        author: "Per Johansson <per@doom.fish>",
    }
}

/// The name of the element's one pad, an always-present source pad.
pub fn src_pad_name() -> (name: &'static str)
    ensures
        name@ == "src"@,
{
    "src"
}

} // verus!
