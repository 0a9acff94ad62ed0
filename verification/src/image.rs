//! Pixel data that a notification can carry.

use vstd::prelude::*;
use crate::text::str_eq;
use crate::wire::{
    lemma_array_well_typed, lemma_container_models, lemma_struct_well_typed, well_typed, wire_models,
    WireValue, ValueView,
};

verus! {

/// The largest width or height of an image.
pub const MAX_IMAGE_SIZE: i32 = 0x0fff_ffff;

/// Why pixel data was not accepted as an image.
#[derive(Clone, Copy, Debug, PartialEq, Eq, Structural)]
pub enum ImageError {
    /// The width or the height is larger than [`MAX_IMAGE_SIZE`].
    TooBig,
    /// The number of bytes is not width times height times channels.
    WrongDataSize,
}

/// Raw pixel data with the metadata that the wire format asks for.
#[derive(Debug, PartialEq, Eq)]
pub struct Image {
    width: i32,
    height: i32,
    rowstride: i32,
    alpha: bool,
    bits_per_sample: i32,
    channels: i32,
    data: Vec<u8>,
}

/// The model of an [`Image`].
pub struct ImageView {
    pub width: i32,
    pub height: i32,
    pub rowstride: i32,
    pub alpha: bool,
    pub bits_per_sample: i32,
    pub channels: i32,
    pub data: Seq<u8>,
}

impl View for Image {
    type V = ImageView;

    closed spec fn view(&self) -> ImageView {
        ImageView {
            width: self.width,
            height: self.height,
            rowstride: self.rowstride,
            alpha: self.alpha,
            bits_per_sample: self.bits_per_sample,
            channels: self.channels,
            data: self.data@,
        }
    }
}

impl ImageView {
    /// An image of 8 bit samples whose rows follow each other without
    /// padding and whose data has exactly the size that its dimensions give.
    pub open spec fn packed(self) -> bool {
        &&& 0 <= self.width <= MAX_IMAGE_SIZE
        &&& 0 <= self.height <= MAX_IMAGE_SIZE
        &&& self.channels == if self.alpha { 4i32 } else { 3i32 }
        &&& self.bits_per_sample == 8
        &&& self.rowstride == self.width * self.channels
        &&& self.data.len() == self.width * self.height * self.channels
    }

    /// The wire form of an image: a struct of width, height, row stride,
    /// alpha flag, bits per sample, channels and the array of the bytes.
    pub open spec fn wire(self) -> ValueView {
        ValueView::Struct(
            seq![
                ValueView::Int32(self.width),
                ValueView::Int32(self.height),
                ValueView::Int32(self.rowstride),
                ValueView::Bool(self.alpha),
                ValueView::Int32(self.bits_per_sample),
                ValueView::Int32(self.channels),
                ValueView::Array("y"@, byte_items(self.data)),
            ],
        )
    }

    /// The image that a wire value holds, if it has the shape of one.
    pub open spec fn of_wire(v: ValueView) -> Option<ImageView> {
        match v {
            ValueView::Struct(f) => if f.len() == 7 && f[0] is Int32 && f[1] is Int32 && f[2] is Int32
                && f[3] is Bool && f[4] is Int32 && f[5] is Int32 && f[6] is Array && f[6]->Array_0
                == "y"@ && all_bytes(f[6]->Array_1) {
                Some(
                    ImageView {
                        width: f[0]->Int32_0,
                        height: f[1]->Int32_0,
                        rowstride: f[2]->Int32_0,
                        alpha: f[3]->Bool_0,
                        bits_per_sample: f[4]->Int32_0,
                        channels: f[5]->Int32_0,
                        data: item_bytes(f[6]->Array_1),
                    },
                )
            } else {
                None
            },
            _ => None,
        }
    }
}

/// The bytes of a buffer as wire items.
pub open spec fn byte_items(data: Seq<u8>) -> Seq<ValueView> {
    Seq::new(data.len(), |i: int| ValueView::Byte(data[i]))
}

/// Whether every item is a byte.
pub open spec fn all_bytes(items: Seq<ValueView>) -> bool {
    forall|i: int| 0 <= i < items.len() ==> items[i] is Byte
}

/// The bytes that a sequence of byte items holds.
pub open spec fn item_bytes(items: Seq<ValueView>) -> Seq<u8> {
    Seq::new(items.len(), |i: int| items[i]->Byte_0)
}

/// What [`Image::from_rgb`] and [`Image::from_rgba`] answer for given
/// dimensions, data and alpha flag.
pub open spec fn image_of_pixels(width: i32, height: i32, data: Seq<u8>, alpha: bool) -> Result<
    ImageView,
    ImageError,
> {
    let channels = if alpha { 4i32 } else { 3i32 };
    if width > MAX_IMAGE_SIZE || height > MAX_IMAGE_SIZE {
        Err(ImageError::TooBig)
    } else if width < 0 || height < 0 || data.len() != width * height * channels {
        Err(ImageError::WrongDataSize)
    } else {
        Ok(
            ImageView {
                width,
                height,
                rowstride: (width * channels) as i32,
                alpha,
                bits_per_sample: 8,
                channels,
                data,
            },
        )
    }
}

impl Image {
    /// An image of three channels, red, green and blue, of 8 bits each.
    pub fn from_rgb(width: i32, height: i32, data: Vec<u8>) -> (result: Result<Image, ImageError>)
        ensures
            result is Ok ==> image_of_pixels(width, height, data@, false) == Ok::<ImageView, ImageError>(
                result->Ok_0@,
            ),
            result is Err ==> image_of_pixels(width, height, data@, false) == Err::<
                ImageView,
                ImageError,
            >(result->Err_0),
            result is Ok ==> result->Ok_0@.packed(),
    {
        Self::from_pixels(width, height, data, false)
    }

    /// An image of four channels, red, green, blue and alpha, of 8 bits each.
    pub fn from_rgba(width: i32, height: i32, data: Vec<u8>) -> (result: Result<Image, ImageError>)
        ensures
            result is Ok ==> image_of_pixels(width, height, data@, true) == Ok::<ImageView, ImageError>(
                result->Ok_0@,
            ),
            result is Err ==> image_of_pixels(width, height, data@, true) == Err::<
                ImageView,
                ImageError,
            >(result->Err_0),
            result is Ok ==> result->Ok_0@.packed(),
    {
        Self::from_pixels(width, height, data, true)
    }

    fn from_pixels(width: i32, height: i32, data: Vec<u8>, alpha: bool) -> (result: Result<
        Image,
        ImageError,
    >)
        ensures
            result is Ok ==> image_of_pixels(width, height, data@, alpha) == Ok::<ImageView, ImageError>(
                result->Ok_0@,
            ),
            result is Err ==> image_of_pixels(width, height, data@, alpha) == Err::<
                ImageView,
                ImageError,
            >(result->Err_0),
            result is Ok ==> result->Ok_0@.packed(),
    {
        let channels: i32 = if alpha { 4 } else { 3 };
        if width > MAX_IMAGE_SIZE || height > MAX_IMAGE_SIZE {
            return Err(ImageError::TooBig);
        }
        if width < 0 || height < 0 {
            return Err(ImageError::WrongDataSize);
        }
        assert(0 <= width * height <= 0x0fff_ffff * 0x0fff_ffff) by (nonlinear_arith)
            requires
                0 <= width <= 0x0fff_ffff,
                0 <= height <= 0x0fff_ffff,
        ;
        let area: u64 = (width as u64) * (height as u64);
        let size: u64 = area * (channels as u64);
        if data.len() as u64 != size {
            return Err(ImageError::WrongDataSize);
        }
        Ok(
            Image {
                width,
                height,
                rowstride: width * channels,
                alpha,
                bits_per_sample: 8,
                channels,
                data,
            },
        )
    }

    /// The width in pixels.
    pub fn width(&self) -> (width: i32)
        ensures
            width == self@.width,
    {
        self.width
    }

    /// The height in pixels.
    pub fn height(&self) -> (height: i32)
        ensures
            height == self@.height,
    {
        self.height
    }

    /// The number of bytes from the start of one row to the start of the next.
    pub fn rowstride(&self) -> (rowstride: i32)
        ensures
            rowstride == self@.rowstride,
    {
        self.rowstride
    }

    /// Whether the pixels have an alpha channel.
    pub fn has_alpha(&self) -> (alpha: bool)
        ensures
            alpha == self@.alpha,
    {
        self.alpha
    }

    /// The number of bits of one sample.
    pub fn bits_per_sample(&self) -> (bits: i32)
        ensures
            bits == self@.bits_per_sample,
    {
        self.bits_per_sample
    }

    /// The number of channels of one pixel.
    pub fn channels(&self) -> (channels: i32)
        ensures
            channels == self@.channels,
    {
        self.channels
    }

    /// The bytes of the pixels.
    pub fn data(&self) -> (data: &Vec<u8>)
        ensures
            data@ == self@.data,
    {
        &self.data
    }

    /// Encodes the image as a wire struct.
    pub fn to_wire(&self) -> (wire: WireValue)
        ensures
            wire@ == self@.wire(),
    {
        let mut bytes: Vec<WireValue> = Vec::new();
        let mut i: usize = 0;
        while i < self.data.len()
            invariant
                i <= self.data.len(),
                bytes@.len() == i,
                forall|j: int| 0 <= j < i ==> bytes@[j]@ == ValueView::Byte(self.data@[j]),
            decreases self.data.len() - i,
        {
            bytes.push(WireValue::Byte(self.data[i]));
            i += 1;
        }
        let array = WireValue::Array("y".to_owned(), bytes);
        let mut fields: Vec<WireValue> = Vec::new();
        fields.push(WireValue::Int32(self.width));
        fields.push(WireValue::Int32(self.height));
        fields.push(WireValue::Int32(self.rowstride));
        fields.push(WireValue::Bool(self.alpha));
        fields.push(WireValue::Int32(self.bits_per_sample));
        fields.push(WireValue::Int32(self.channels));
        fields.push(array);
        let wire = WireValue::Struct(fields);
        proof {
            lemma_container_models(array);
            lemma_container_models(wire);
            assert(wire_models(bytes@) =~= byte_items(self.data@));
            assert(wire_models(fields@) =~= self@.wire()->Struct_0);
        }
        wire
    }

    /// Decodes a wire struct; `None` where the value has not the shape of an
    /// image.
    pub fn from_wire(wire: &WireValue) -> (image: Option<Image>)
        ensures
            image is Some ==> ImageView::of_wire(wire@) == Some(image->Some_0@),
            image is None ==> ImageView::of_wire(wire@) is None,
    {
        proof {
            lemma_container_models(*wire);
        }
        let fields = match wire {
            WireValue::Struct(fields) => fields,
            _ => {
                return None;
            },
        };
        if fields.len() != 7 {
            return None;
        }
        proof {
            lemma_container_models(fields@[6]);
        }
        match (&fields[0], &fields[1], &fields[2], &fields[3], &fields[4], &fields[5], &fields[6]) {
            (
                WireValue::Int32(width),
                WireValue::Int32(height),
                WireValue::Int32(rowstride),
                WireValue::Bool(alpha),
                WireValue::Int32(bits_per_sample),
                WireValue::Int32(channels),
                WireValue::Array(sig, items),
            ) => {
                if !str_eq(sig.as_str(), "y") {
                    return None;
                }
                let mut data: Vec<u8> = Vec::new();
                let mut i: usize = 0;
                while i < items.len()
                    invariant
                        i <= items.len(),
                        data@.len() == i,
                        forall|j: int| 0 <= j < i ==> items@[j]@ == ValueView::Byte(data@[j]),
                        wire@ == ValueView::Struct(wire_models(fields@)),
                        fields@.len() == 7,
                        fields@[6]@ == ValueView::Array(sig@, wire_models(items@)),
                    decreases items.len() - i,
                {
                    match &items[i] {
                        WireValue::Byte(b) => {
                            data.push(*b);
                        },
                        _ => {
                            assert(!(wire_models(items@)[i as int] is Byte));
                            return None;
                        },
                    }
                    i += 1;
                }
                assert(all_bytes(wire_models(items@)));
                assert(data@ =~= item_bytes(wire_models(items@)));
                Some(
                    Image {
                        width: *width,
                        height: *height,
                        rowstride: *rowstride,
                        alpha: *alpha,
                        bits_per_sample: *bits_per_sample,
                        channels: *channels,
                        data,
                    },
                )
            },
            _ => None,
        }
    }
}

impl Clone for Image {
    fn clone(&self) -> (copy: Self)
        ensures
            copy@ == self@,
    {
        Image {
            width: self.width,
            height: self.height,
            rowstride: self.rowstride,
            alpha: self.alpha,
            bits_per_sample: self.bits_per_sample,
            channels: self.channels,
            data: self.data.clone(),
        }
    }
}

/// Decoding the wire form of an image gives the image back.
pub proof fn lemma_image_round_trip(image: ImageView)
    ensures
        ImageView::of_wire(image.wire()) == Some(image),
{
    let items = byte_items(image.data);
    assert(all_bytes(items));
    assert(item_bytes(items) =~= image.data);
}

/// The wire form of an image is well typed: its array holds bytes only.
pub proof fn lemma_image_wire_well_typed(image: ImageView)
    ensures
        well_typed(image.wire()),
{
    let fields = image.wire()->Struct_0;
    lemma_array_well_typed("y"@, byte_items(image.data));
    lemma_struct_well_typed(fields);
    assert forall|i: int| 0 <= i < fields.len() implies well_typed(#[trigger] fields[i]) by {
        if i == 6 {
            assert(fields[6] == ValueView::Array("y"@, byte_items(image.data)));
        }
    }
}

} // verus!
