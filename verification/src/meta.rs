//! The buffer metas the source attaches to its buffers: how each kind is
//! registered, which fields it is initialised with, and whether it follows a
//! buffer into its copies.

use vstd::prelude::*;

verus! {

/// The kinds of meta.
#[derive(Clone, Copy, Debug, PartialEq, Eq, Structural)]
pub enum MetaKind {
    /// Carries a Core Media sample buffer together with its image and pixel buffers.
    CoreMedia,
    /// Carries the captured sample buffer itself.
    SampleBuffer,
    /// Carries a Core Video image buffer.
    CoreVideo,
}

/// What a meta kind is registered with.
pub struct MetaRegistration {
    /// Name of the meta API type.
    pub api_name: &'static str,
    /// Tags of the meta API: the aspects of a buffer the meta refers to.
    pub tags: Vec<&'static str>,
    /// Name of the meta implementation.
    pub impl_name: &'static str,
}

/// The registration of a meta kind. The Core Media and Core Video metas refer
/// to the buffer's memory; the sample buffer meta refers to no aspect of it.
pub fn registration(kind: MetaKind) -> (r: MetaRegistration)
    ensures
        kind == MetaKind::CoreMedia ==> {
            &&& r.api_name@ == "GstCoreMediaMetaAPI"@
            &&& r.impl_name@ == "GstCoreMediaMeta"@
            &&& r.tags@.len() == 1
            &&& r.tags@[0]@ == "memory"@
        },
        kind == MetaKind::SampleBuffer ==> {
            &&& r.api_name@ == "MySCGstMetaAPI"@
            &&& r.impl_name@ == "MySCGstMeta"@
            &&& r.tags@.len() == 0
        },
        kind == MetaKind::CoreVideo ==> {
            &&& r.api_name@ == "GstCoreVideoMetaAPI"@
            &&& r.impl_name@ == "GstCoreVideoMeta"@
            &&& r.tags@.len() == 1
            &&& r.tags@[0]@ == "memory"@
        },
{
    match kind {
        MetaKind::CoreMedia => {
            let mut tags: Vec<&'static str> = Vec::new();
            tags.push("memory");
            MetaRegistration { api_name: "GstCoreMediaMetaAPI", tags, impl_name: "GstCoreMediaMeta" }
        },
        MetaKind::SampleBuffer => {
            MetaRegistration { api_name: "MySCGstMetaAPI", tags: Vec::new(), impl_name: "MySCGstMeta" }
        },
        MetaKind::CoreVideo => {
            let mut tags: Vec<&'static str> = Vec::new();
            tags.push("memory");
            MetaRegistration { api_name: "GstCoreVideoMetaAPI", tags, impl_name: "GstCoreVideoMeta" }
        },
    }
}

/// Whether a meta is copied onto the new buffer when its buffer is copied.
/// The sample buffer meta always is; the Core Media and Core Video metas are
/// copied along with the whole buffer but not with a copy of a region of it.
pub fn copies_on_transform(kind: MetaKind, region: bool) -> (copies: bool)
    ensures
        copies <==> (kind == MetaKind::SampleBuffer || !region),
{
    match kind {
        MetaKind::SampleBuffer => true,
        MetaKind::CoreMedia => !region,
        MetaKind::CoreVideo => !region,
    }
}

/// The fields a Core Media meta holds, as handles of type `P`.
#[derive(Clone, Copy, Debug, PartialEq, Eq)]
pub struct CoreMediaMetaFields<P> {
    pub sample_buf: P,
    /// `None` where the field is left unset.
    pub image_buf: Option<P>,
    /// `None` where the field is left unset.
    pub pixel_buf: Option<P>,
    /// `None` stands for the null handle.
    pub block_buf: Option<P>,
}

/// The fields a Core Media meta is initialised with, from a sample buffer that
/// may carry an image buffer: the image and pixel buffers are set only when the
/// image buffer is there, and the block buffer is null.
pub fn core_media_meta_fields<P: Copy>(
    sample_buf: P,
    image_buf: Option<P>,
    pixel_buf: Option<P>,
) -> (fields: CoreMediaMetaFields<P>)
    requires
        image_buf is Some ==> pixel_buf is Some,
    ensures
        fields.sample_buf == sample_buf,
        fields.image_buf == image_buf,
        fields.pixel_buf == (if image_buf is Some {
            pixel_buf
        } else {
            None
        }),
        fields.block_buf is None,
{
    match image_buf {
        Some(image) => CoreMediaMetaFields {
            sample_buf,
            image_buf: Some(image),
            pixel_buf: Some(pixel_buf.unwrap()),
            block_buf: None,
        },
        None => CoreMediaMetaFields { sample_buf, image_buf: None, pixel_buf: None, block_buf: None },
    }
}

/// The fields a Core Video meta holds, as handles of type `P`.
#[derive(Clone, Copy, Debug, PartialEq, Eq)]
pub struct CoreVideoMetaFields<P> {
    pub cvbuf: P,
    pub pixbuf: P,
}

/// The fields a Core Video meta is initialised with: both hold the image buffer.
pub fn core_video_meta_fields<P: Copy>(cvbuf: P) -> (fields: CoreVideoMetaFields<P>)
    ensures
        fields.cvbuf == cvbuf,
        fields.pixbuf == cvbuf,
{
    CoreVideoMetaFields { cvbuf, pixbuf: cvbuf }
}

} // verus!
