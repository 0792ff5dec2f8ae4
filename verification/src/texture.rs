//! Two-dimensional textures and their lazily decoded pixel payload.
//!
//! Image files are read and decoded by the caller, in one step. A texture
//! takes the decoded image, turns it upside down and keeps its pixels.

use crate::sync::clone_arc;
use crate::sync::lock_outcome;
use crate::sync::same_cell;
use crate::sync::LockUnavailable;
use image::ColorType;
use image::DynamicImage;
use image::GenericImageView;
use std::sync::Arc;
use std::sync::Mutex;
use std::sync::MutexGuard;
use uuid::Uuid;
use vstd::prelude::*;
use vstd::string::*;

verus! {

/// `uuid::Uuid`: an identifier that can be copied and compared.
#[verifier::external_type_specification]
#[verifier::external_body]
pub struct ExUuid(Uuid);

/// `image::DynamicImage`: a decoded image. What it holds is spoken of through
/// [`layout_of`], [`dimensions_of`] and [`samples_of`].
#[verifier::external_type_specification]
#[verifier::external_body]
pub struct ExDynamicImage(DynamicImage);

/// How texture coordinates outside `[0, 1]` are treated.
#[derive(Debug, Clone, Copy, PartialEq, Eq, Structural)]
pub enum Wrapping {
    Repeat,
    MirroredRepeat,
    ClampToEdge,
}

/// How texels are sampled.
#[allow(non_camel_case_types)]
#[derive(Debug, Clone, Copy, PartialEq, Eq, Structural)]
pub enum Filtering {
    NEAREST,
    LINEAR,
}

/// The channel layout of a decoded payload, with the bit depth of a channel.
#[derive(Debug, Clone, Copy, PartialEq, Eq, Structural)]
pub enum TextureColorType {
    NoColor,
    Gray(u8),
    RGB(u8),
    RGBA(u8),
}

/// Decoded pixels, rows stored bottom row first.
#[derive(Debug)]
pub struct TextureData {
    pub color_type: TextureColorType,
    pub width: u32,
    pub height: u32,
    pub data: Vec<u8>,
}

/// What a [`TextureData`] holds.
pub ghost struct TextureDataView {
    pub color_type: TextureColorType,
    pub width: u32,
    pub height: u32,
    pub data: Seq<u8>,
}

impl View for TextureData {
    type V = TextureDataView;

    open spec fn view(&self) -> TextureDataView {
        TextureDataView {
            color_type: self.color_type,
            width: self.width,
            height: self.height,
            data: self.data@,
        }
    }
}

/// The channel layout of an image as its decoder reports it, with the bit depth
/// of a channel.
#[derive(Debug, Clone, Copy, PartialEq, Eq, Structural)]
pub enum ColorLayout {
    Gray(u8),
    RGB(u8),
    Palette(u8),
    GrayA(u8),
    RGBA(u8),
    BGR(u8),
    BGRA(u8),
}

/// Why a texture has no pixels to offer.
#[derive(Debug, Clone, Copy, PartialEq, Eq, Structural)]
pub enum DecodeFailure {
    /// The texture names no image file.
    NoPath,
    /// The image file could not be read, or what it holds could not be
    /// decoded.
    Unreadable,
    /// The image is laid out in a way that textures do not take.
    UnsupportedLayout,
}

/// A texture could not be loaded.
#[derive(Debug, Clone, Copy, PartialEq, Eq, Structural)]
pub enum TextureError {
    ImageDecodeFailed(DecodeFailure),
}

/// A texture: where its image comes from, how it is sampled, and, once
/// decoded, its pixels.
#[derive(Debug)]
pub struct Texture2D {
    pub path: Option<String>,
    pub uuid: Uuid,
    pub wrapping_x: Wrapping,
    pub wrapping_y: Wrapping,
    pub filtering: Filtering,
    texture_data: Option<TextureData>,
}

/// `Uuid::new_v4`: a random identifier, different on every call. It panics when
/// the operating system cannot supply random bytes.
#[verifier::external_body]
fn random_uuid() -> (id: Uuid) {
    Uuid::new_v4()
}

/// What a [`Texture2D`] stands for.
pub ghost struct TextureModel {
    pub path: Option<Seq<char>>,
    pub uuid: Uuid,
    pub wrapping_x: Wrapping,
    pub wrapping_y: Wrapping,
    pub filtering: Filtering,
    /// The decoded pixels; `None` while the texture is unloaded.
    pub payload: Option<TextureDataView>,
}

impl View for Texture2D {
    type V = TextureModel;

    closed spec fn view(&self) -> TextureModel {
        TextureModel {
            path: match self.path {
                Some(p) => Some(p@),
                None => None,
            },
            uuid: self.uuid,
            wrapping_x: self.wrapping_x,
            wrapping_y: self.wrapping_y,
            filtering: self.filtering,
            payload: match self.texture_data {
                Some(d) => Some(d@),
                None => None,
            },
        }
    }
}

impl Texture2D {
    /// A texture that will be decoded from the image file at `path`.
    pub fn new(path: &str) -> (texture: Self)
        ensures
            texture@.path == Some(path@),
            texture@.wrapping_x == Wrapping::Repeat,
            texture@.wrapping_y == Wrapping::Repeat,
            texture@.filtering == Filtering::NEAREST,
            texture@.payload is None,
    {
        Self {
            path: Some(String::from_str(path)),
            uuid: random_uuid(),
            wrapping_x: Wrapping::Repeat,
            wrapping_y: Wrapping::Repeat,
            filtering: Filtering::NEAREST,
            texture_data: None,
        }
    }

    /// Replaces the payload, or drops it with `None`.
    pub fn set_texture_data(&mut self, data: Option<TextureData>)
        ensures
            final(self)@ == (TextureModel {
                payload: match data {
                    Some(d) => Some(d@),
                    None => None,
                },
                ..old(self)@
            }),
    {
        self.texture_data = data;
    }

    pub fn get_texture_data_ref(&self) -> (data: Option<&TextureData>)
        ensures
            match data {
                Some(d) => self@.payload == Some(d@),
                None => self@.payload is None,
            },
    {
        self.texture_data.as_ref()
    }

    /// The payload, open to change in place.
    pub fn get_texture_data_ref_mut(&mut self) -> (data: Option<&mut TextureData>)
        ensures
            match data {
                Some(d) => old(self)@.payload == Some(d@) && final(self)@ == (TextureModel {
                    payload: Some(final(d)@),
                    ..old(self)@
                }),
                None => old(self)@.payload is None && final(self)@ == old(self)@,
            },
    {
        self.texture_data.as_mut()
    }
}

/// `image` turned upside down.
pub uninterp spec fn flipped(image: DynamicImage) -> DynamicImage;

/// The channel layout of `image`.
pub uninterp spec fn layout_of(image: DynamicImage) -> ColorLayout;

/// Width and height of `image`, in pixels.
pub uninterp spec fn dimensions_of(image: DynamicImage) -> (u32, u32);

/// The samples of `image`: row after row from the top, pixel after pixel,
/// channel after channel.
pub uninterp spec fn samples_of(image: DynamicImage) -> Seq<u8>;

/// `DynamicImage::flipv`: a new image with the rows in reverse order.
#[verifier::external_body]
fn flip_vertically(image: &DynamicImage) -> (r: DynamicImage)
    ensures
        r == flipped(*image),
{
    image.flipv()
}

/// `DynamicImage::color`, variant for variant.
#[verifier::external_body]
fn color_layout(image: &DynamicImage) -> (r: ColorLayout)
    ensures
        r == layout_of(*image),
{
    match image.color() {
        ColorType::Gray(depth) => ColorLayout::Gray(depth),
        ColorType::RGB(depth) => ColorLayout::RGB(depth),
        ColorType::Palette(depth) => ColorLayout::Palette(depth),
        ColorType::GrayA(depth) => ColorLayout::GrayA(depth),
        ColorType::RGBA(depth) => ColorLayout::RGBA(depth),
        ColorType::BGR(depth) => ColorLayout::BGR(depth),
        ColorType::BGRA(depth) => ColorLayout::BGRA(depth),
    }
}

/// `GenericImageView::dimensions` of a `DynamicImage`.
#[verifier::external_body]
fn image_dimensions(image: &DynamicImage) -> (r: (u32, u32))
    ensures
        r == dimensions_of(*image),
{
    image.dimensions()
}

/// `DynamicImage::raw_pixels`: a copy of the image's samples.
#[verifier::external_body]
fn raw_samples(image: &DynamicImage) -> (r: Vec<u8>)
    ensures
        r@ == samples_of(*image),
{
    image.raw_pixels()
}

/// The layout of a payload made from an image of layout `layout`. Gray, RGB and
/// RGBA images with eight bits to a channel are taken; there is no payload for
/// any other layout, nor for any other depth.
pub open spec fn supported(layout: ColorLayout) -> Option<TextureColorType> {
    match layout {
        ColorLayout::Gray(depth) => if depth == 8 {
            Some(TextureColorType::Gray(8))
        } else {
            None
        },
        ColorLayout::RGB(depth) => if depth == 8 {
            Some(TextureColorType::RGB(8))
        } else {
            None
        },
        ColorLayout::RGBA(depth) => if depth == 8 {
            Some(TextureColorType::RGBA(8))
        } else {
            None
        },
        _ => None,
    }
}

/// Makes a payload out of what a decoder has delivered, or refuses the layout.
pub fn texture_data_from(layout: ColorLayout, width: u32, height: u32, data: Vec<u8>) -> (r:
    Result<TextureData, TextureError>)
    ensures
        match supported(layout) {
            Some(color_type) => r is Ok && r->Ok_0 == (TextureData {
                color_type,
                width,
                height,
                data,
            }),
            None => r is Err && r->Err_0 == TextureError::ImageDecodeFailed(
                DecodeFailure::UnsupportedLayout,
            ),
        },
{
    let color_type = match layout {
        ColorLayout::Gray(8) => TextureColorType::Gray(8),
        ColorLayout::RGB(8) => TextureColorType::RGB(8),
        ColorLayout::RGBA(8) => TextureColorType::RGBA(8),
        _ => {
            return Err(TextureError::ImageDecodeFailed(DecodeFailure::UnsupportedLayout));
        },
    };
    Ok(TextureData { color_type, width, height, data })
}

/// The payload of a decoded image: the image is flipped, so that its bottom
/// row comes first, and its samples are taken as they are.
pub open spec fn payload_of(image: DynamicImage) -> Result<TextureDataView, TextureError> {
    let upright = flipped(image);
    match supported(layout_of(upright)) {
        Some(color_type) => Ok(
            TextureDataView {
                color_type,
                width: dimensions_of(upright).0,
                height: dimensions_of(upright).1,
                data: samples_of(upright),
            },
        ),
        None => Err(TextureError::ImageDecodeFailed(DecodeFailure::UnsupportedLayout)),
    }
}

/// What loading `texture` yields when `image` is what its image file was
/// decoded to, or `None` if the file could not be read or decoded. A texture
/// that has a payload yields that payload, whatever image it is offered.
pub open spec fn load_outcome(texture: TextureModel, image: Option<DynamicImage>) -> Result<
    TextureDataView,
    TextureError,
> {
    match texture.payload {
        Some(data) => Ok(data),
        None => match texture.path {
            None => Err(TextureError::ImageDecodeFailed(DecodeFailure::NoPath)),
            Some(path) => match image {
                None => Err(TextureError::ImageDecodeFailed(DecodeFailure::Unreadable)),
                Some(image) => payload_of(image),
            },
        },
    }
}

/// The texture after loading: it holds the payload if there is one, and is as
/// before if not.
pub open spec fn after_load(texture: TextureModel, image: Option<DynamicImage>) -> TextureModel {
    match load_outcome(texture, image) {
        Ok(data) => TextureModel { payload: Some(data), ..texture },
        Err(_) => texture,
    }
}

/// Whether loading `texture` looks at the image it is offered: only a texture
/// that has a path and no payload yet needs its file decoded.
pub open spec fn needs_image(texture: TextureModel) -> bool {
    texture.payload is None && texture.path is Some
}

/// Loading is done once: a texture that has been loaded answers every later
/// load with the same payload, whatever image it is offered, does not change
/// any more, and needs no image.
pub proof fn lemma_load_is_cached(
    texture: TextureModel,
    first: Option<DynamicImage>,
    second: Option<DynamicImage>,
)
    requires
        load_outcome(texture, first) is Ok,
    ensures
        load_outcome(after_load(texture, first), second) == load_outcome(texture, first),
        after_load(after_load(texture, first), second) == after_load(texture, first),
        !needs_image(after_load(texture, first)),
{
}

/// A texture that needs no image loads the same with any image and with none.
pub proof fn lemma_image_is_not_looked_at(
    texture: TextureModel,
    one: Option<DynamicImage>,
    other: Option<DynamicImage>,
)
    requires
        !needs_image(texture),
    ensures
        load_outcome(texture, one) == load_outcome(texture, other),
        after_load(texture, one) == after_load(texture, other),
{
}

/// An image whose layout is not gray, RGB or RGBA with eight bits to a
/// channel is never made into a payload: loading an unloaded texture from such
/// an image fails, and the texture stays as it was.
pub proof fn lemma_unsupported_layout_fails(texture: TextureModel, image: DynamicImage)
    requires
        needs_image(texture),
        supported(layout_of(flipped(image))) is None,
    ensures
        load_outcome(texture, Some(image)) == Err::<TextureDataView, TextureError>(
            TextureError::ImageDecodeFailed(DecodeFailure::UnsupportedLayout),
        ),
        after_load(texture, Some(image)) == texture,
{
}

impl Texture2D {
    /// Tells whether the texture's image file has to be decoded for the next
    /// [`load`](Texture2D::load).
    pub fn wants_image(&self) -> (b: bool)
        ensures
            b == needs_image(self@),
    {
        self.texture_data.is_none() && self.path.is_some()
    }

    /// Loads the texture: takes its pixels from the decoded image on the first
    /// call and keeps them, and hands out the pixels it keeps on every later
    /// call.
    ///
    /// `image` is what the file at the texture's path was decoded to, or
    /// `None` if it could not be read or decoded. It is looked at only while
    /// the texture is unloaded. When loading fails the texture stays unloaded.
    pub fn load(&mut self, image: Option<DynamicImage>) -> (r: Result<&TextureData, TextureError>)
        ensures
            final(self)@ == after_load(old(self)@, image),
            match load_outcome(old(self)@, image) {
                Ok(data) => r is Ok && r->Ok_0@ == data,
                Err(e) => r == Err::<&TextureData, TextureError>(e),
            },
    {
        if self.texture_data.is_none() {
            if self.path.is_none() {
                return Err(TextureError::ImageDecodeFailed(DecodeFailure::NoPath));
            }
            let image = match image {
                None => {
                    return Err(TextureError::ImageDecodeFailed(DecodeFailure::Unreadable));
                },
                Some(image) => flip_vertically(&image),
            };
            let (width, height) = image_dimensions(&image);
            let data = match texture_data_from(
                color_layout(&image),
                width,
                height,
                raw_samples(&image),
            ) {
                Err(e) => {
                    return Err(e);
                },
                Ok(data) => data,
            };
            self.texture_data = Some(data);
        }
        Ok(self.texture_data.as_ref().unwrap())
    }
}

/// A texture shared between owners; one of them at a time may look at it or
/// change it.
#[derive(Debug, Clone)]
pub struct SharedTexture2D(Arc<Mutex<Texture2D>>);

/// The texture that `cell` was made around: what it held when it was new,
/// whatever its owners have done to it since.
pub uninterp spec fn texture_put_in(cell: Mutex<Texture2D>) -> TextureModel;

/// `Mutex::new`: a fresh, unlocked cell that holds `texture`.
#[verifier::external_body]
fn new_texture_cell(texture: Texture2D) -> (cell: Mutex<Texture2D>)
    ensures
        texture_put_in(cell) == texture@,
{
    Mutex::new(texture)
}

/// The cell that `guard` keeps locked.
pub uninterp spec fn texture_guarded(guard: MutexGuard<'_, Texture2D>) -> Mutex<Texture2D>;

/// `Mutex::lock` on a texture cell, waiting until the lock is free. A guard
/// that comes back is the guard of this cell. A poisoned lock comes back as
/// `None`; whether it is poisoned depends on what its earlier holders did.
#[verifier::external_body]
fn lock_texture_cell<'a>(cell: &'a Mutex<Texture2D>) -> (guard: Option<MutexGuard<'a, Texture2D>>)
    ensures
        guard is Some ==> texture_guarded(guard->Some_0) == *cell,
{
    cell.lock().ok()
}

impl SharedTexture2D {
    /// The cell that the handle points at.
    pub closed spec fn cell(self) -> Mutex<Texture2D> {
        *self.0
    }

    /// The texture that the shared cell held when it was made.
    pub open spec fn initial(self) -> TextureModel {
        texture_put_in(self.cell())
    }

    /// A new cell that holds `texture`, and the first handle on it.
    pub fn new(texture: Texture2D) -> (shared: Self)
        ensures
            shared.initial() == texture@,
    {
        SharedTexture2D(Arc::new(new_texture_cell(texture)))
    }

    /// A new cell with a texture that will be decoded from the image file at
    /// `path`, and the first handle on it.
    pub fn new_from_path(path: &str) -> (shared: Self)
        ensures
            shared.initial().path == Some(path@),
            shared.initial().wrapping_x == Wrapping::Repeat,
            shared.initial().wrapping_y == Wrapping::Repeat,
            shared.initial().filtering == Filtering::NEAREST,
            shared.initial().payload is None,
    {
        SharedTexture2D(Arc::new(new_texture_cell(Texture2D::new(path))))
    }

    /// Exclusive access to the texture, once no other owner holds it: the
    /// guard of this handle's cell, or [`LockUnavailable`] if the lock is
    /// poisoned. The handle stands for the same texture as before.
    pub fn lock(&mut self) -> (r: Result<MutexGuard<'_, Texture2D>, LockUnavailable>)
        ensures
            *final(self) == *old(self),
            r is Ok ==> texture_guarded(r->Ok_0) == old(self).cell(),
    {
        lock_outcome(lock_texture_cell(&self.0))
    }

    /// Another handle on the same texture.
    pub fn share(&self) -> (other: Self)
        ensures
            other == *self,
    {
        SharedTexture2D(clone_arc(&self.0))
    }

    /// Whether both handles stand for one and the same texture.
    pub fn is_same(&self, other: &Self) -> (same: bool)
        ensures
            same == (*self == *other),
    {
        same_cell(&self.0, &other.0)
    }
}

} // verus!
