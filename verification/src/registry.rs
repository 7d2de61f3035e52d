//! The model registry: which product identifiers are known, and the geometry
//! of the models this driver can run.

use vstd::prelude::*;
use crate::text::str_eq;

verus! {

/// Vendor identifier shared by every deck.
pub const ELGATO_VID: &'static str = "0fd9";

pub const USB_PID_STREAMDECK_MINI: &'static str = "0063";
pub const USB_PID_STREAMDECK_MINI_MK2: &'static str = "0090";
pub const USB_PID_STREAMDECK_MINI_MK2_MODULE: &'static str = "00b8";
pub const USB_PID_STREAMDECK_MK2: &'static str = "0080";
pub const USB_PID_STREAMDECK_MK2_MODULE: &'static str = "00b9";
pub const USB_PID_STREAMDECK_MK2_SCISSOR: &'static str = "00a5";
pub const USB_PID_STREAMDECK_MK2_V2: &'static str = "00B9";
pub const USB_PID_STREAMDECK_NEO: &'static str = "009a";
pub const USB_PID_STREAMDECK_ORIGINAL: &'static str = "0060";
pub const USB_PID_STREAMDECK_ORIGINAL_V2: &'static str = "006d";
pub const USB_PID_STREAMDECK_PEDAL: &'static str = "0086";
pub const USB_PID_STREAMDECK_PLUS: &'static str = "0084";
pub const USB_PID_STREAMDECK_XL: &'static str = "006c";
pub const USB_PID_STREAMDECK_XL_V2: &'static str = "008f";
pub const USB_PID_STREAMDECK_STUDIO: &'static str = "00aa";
pub const USB_PID_STREAMDECK_XL_V2_MODULE: &'static str = "00ba";

/// Length in bytes of one input report.
pub const REPORT_LEN: usize = 64;

/// A deck model this driver can tell apart by its product identifier.
#[derive(Clone, Copy, Debug, PartialEq, Eq, Structural)]
pub enum Model {
    Mini,
    MiniMk2,
    MiniMk2Module,
    Mk2,
    Mk2Module,
    Mk2Scissor,
    Mk2V2,
    Neo,
    Original,
    OriginalV2,
    Pedal,
    Plus,
    Xl,
    XlV2,
    Studio,
    XlV2Module,
}

/// How a key image travels to the device.
#[derive(Clone, Copy, Debug, PartialEq, Eq, Structural)]
pub enum Encoding {
    /// The pixel bytes themselves, three per pixel, row by row, with no header.
    RawRgb,
    /// Compressed data split over header-framed packets. This driver does not
    /// produce it.
    Jpeg,
}

/// Geometry and capabilities of one model.
#[derive(Clone, Copy, Debug, PartialEq, Eq, Structural)]
pub struct ModelSpec {
    /// Number of keys.
    pub key_count: usize,
    /// Index in an input report of the state byte of key 0.
    pub report_offset: usize,
    /// Width of one key's display, in pixels.
    pub pixel_width: u32,
    /// Height of one key's display, in pixels.
    pub pixel_height: u32,
    /// How key images are sent.
    pub encoding: Encoding,
    /// Whether this driver runs sessions on the model.
    pub supported: bool,
}

impl Encoding {
    /// Whether this driver can produce the encoding.
    pub open spec fn complete(self) -> bool {
        self == Encoding::RawRgb
    }

    /// Whether this driver can produce the encoding.
    pub fn is_complete(&self) -> (yes: bool)
        ensures
            yes == self.complete(),
    {
        match self {
            Encoding::RawRgb => true,
            Encoding::Jpeg => false,
        }
    }
}

impl ModelSpec {
    /// A model has at least one key, a display of positive size whose
    /// canvas the machine can hold, and all its key-state bytes inside an
    /// input report.
    pub open spec fn wf(&self) -> bool {
        &&& self.key_count >= 1
        &&& self.pixel_width > 0
        &&& self.pixel_height > 0
        &&& self.report_offset + self.key_count <= REPORT_LEN
        &&& 3 * (self.pixel_width * self.pixel_height) <= usize::MAX
    }

    /// Whether key images can be sent to the model.
    pub open spec fn can_set_image(&self) -> bool {
        self.supported && self.encoding.complete()
    }

    /// Exec form of [`ModelSpec::wf`].
    pub fn is_wf(&self) -> (yes: bool)
        ensures
            yes == self.wf(),
    {
        assert(self.pixel_width * self.pixel_height <= 0xffff_ffff * 0xffff_ffff)
            by (nonlinear_arith)
            requires
                self.pixel_width <= 0xffff_ffff,
                self.pixel_height <= 0xffff_ffff,
        ;
        self.key_count >= 1 && self.pixel_width > 0 && self.pixel_height > 0
            && self.report_offset <= REPORT_LEN
            && self.key_count <= REPORT_LEN - self.report_offset
            && 3 * (self.pixel_width as u128 * self.pixel_height as u128) <= usize::MAX as u128
    }

    /// The capability check made before a key image is encoded.
    pub fn has_image_support(&self) -> (yes: bool)
        ensures
            yes == self.can_set_image(),
    {
        self.supported && self.encoding.is_complete()
    }
}

/// The product-identifier table. Identifiers are compared exactly: the two
/// spellings `00b9` and `00B9` are two entries.
pub open spec fn known_model(product_id: Seq<char>) -> Option<Model> {
    if product_id == USB_PID_STREAMDECK_MINI@ {
        Some(Model::Mini)
    } else if product_id == USB_PID_STREAMDECK_MINI_MK2@ {
        Some(Model::MiniMk2)
    } else if product_id == USB_PID_STREAMDECK_MINI_MK2_MODULE@ {
        Some(Model::MiniMk2Module)
    } else if product_id == USB_PID_STREAMDECK_MK2@ {
        Some(Model::Mk2)
    } else if product_id == USB_PID_STREAMDECK_MK2_MODULE@ {
        Some(Model::Mk2Module)
    } else if product_id == USB_PID_STREAMDECK_MK2_SCISSOR@ {
        Some(Model::Mk2Scissor)
    } else if product_id == USB_PID_STREAMDECK_MK2_V2@ {
        Some(Model::Mk2V2)
    } else if product_id == USB_PID_STREAMDECK_NEO@ {
        Some(Model::Neo)
    } else if product_id == USB_PID_STREAMDECK_ORIGINAL@ {
        Some(Model::Original)
    } else if product_id == USB_PID_STREAMDECK_ORIGINAL_V2@ {
        Some(Model::OriginalV2)
    } else if product_id == USB_PID_STREAMDECK_PEDAL@ {
        Some(Model::Pedal)
    } else if product_id == USB_PID_STREAMDECK_PLUS@ {
        Some(Model::Plus)
    } else if product_id == USB_PID_STREAMDECK_XL@ {
        Some(Model::Xl)
    } else if product_id == USB_PID_STREAMDECK_XL_V2@ {
        Some(Model::XlV2)
    } else if product_id == USB_PID_STREAMDECK_STUDIO@ {
        Some(Model::Studio)
    } else if product_id == USB_PID_STREAMDECK_XL_V2_MODULE@ {
        Some(Model::XlV2Module)
    } else {
        None
    }
}

/// The geometry registered for the Neo.
pub open spec fn neo_spec() -> ModelSpec {
    ModelSpec {
        key_count: 10,
        report_offset: 4,
        pixel_width: 96,
        pixel_height: 96,
        encoding: Encoding::RawRgb,
        supported: true,
    }
}

impl Model {
    /// The geometry registered for a model, if this driver runs it.
    pub open spec fn registered(self) -> Option<ModelSpec> {
        match self {
            Model::Neo => Some(neo_spec()),
            _ => None,
        }
    }

    /// The geometry registered for a model, if this driver runs it.
    pub fn spec(self) -> (found: Option<ModelSpec>)
        ensures
            found == self.registered(),
    {
        match self {
            Model::Neo => Some(
                ModelSpec {
                    key_count: 10,
                    report_offset: 4,
                    pixel_width: 96,
                    pixel_height: 96,
                    encoding: Encoding::RawRgb,
                    supported: true,
                },
            ),
            _ => None,
        }
    }
}

/// What [`resolve`] yields for a product identifier.
pub open spec fn registry(product_id: Seq<char>) -> Option<ModelSpec> {
    match known_model(product_id) {
        Some(model) => model.registered(),
        None => None,
    }
}

/// A product identifier is supported when the registry holds a geometry for it.
pub open spec fn is_supported(product_id: Seq<char>) -> bool {
    registry(product_id) is Some
}

/// Looks a product identifier up in the table.
pub fn identify(product_id: &str) -> (found: Option<Model>)
    ensures
        found == known_model(product_id@),
{
    if str_eq(product_id, USB_PID_STREAMDECK_MINI) {
        Some(Model::Mini)
    } else if str_eq(product_id, USB_PID_STREAMDECK_MINI_MK2) {
        Some(Model::MiniMk2)
    } else if str_eq(product_id, USB_PID_STREAMDECK_MINI_MK2_MODULE) {
        Some(Model::MiniMk2Module)
    } else if str_eq(product_id, USB_PID_STREAMDECK_MK2) {
        Some(Model::Mk2)
    } else if str_eq(product_id, USB_PID_STREAMDECK_MK2_MODULE) {
        Some(Model::Mk2Module)
    } else if str_eq(product_id, USB_PID_STREAMDECK_MK2_SCISSOR) {
        Some(Model::Mk2Scissor)
    } else if str_eq(product_id, USB_PID_STREAMDECK_MK2_V2) {
        Some(Model::Mk2V2)
    } else if str_eq(product_id, USB_PID_STREAMDECK_NEO) {
        Some(Model::Neo)
    } else if str_eq(product_id, USB_PID_STREAMDECK_ORIGINAL) {
        Some(Model::Original)
    } else if str_eq(product_id, USB_PID_STREAMDECK_ORIGINAL_V2) {
        Some(Model::OriginalV2)
    } else if str_eq(product_id, USB_PID_STREAMDECK_PEDAL) {
        Some(Model::Pedal)
    } else if str_eq(product_id, USB_PID_STREAMDECK_PLUS) {
        Some(Model::Plus)
    } else if str_eq(product_id, USB_PID_STREAMDECK_XL) {
        Some(Model::Xl)
    } else if str_eq(product_id, USB_PID_STREAMDECK_XL_V2) {
        Some(Model::XlV2)
    } else if str_eq(product_id, USB_PID_STREAMDECK_STUDIO) {
        Some(Model::Studio)
    } else if str_eq(product_id, USB_PID_STREAMDECK_XL_V2_MODULE) {
        Some(Model::XlV2Module)
    } else {
        None
    }
}

/// The geometry of the model with the given product identifier, or `None`
/// for an identifier this driver does not run. A geometry that comes back is
/// well formed and can take key images.
pub fn resolve(product_id: &str) -> (found: Option<ModelSpec>)
    ensures
        found == registry(product_id@),
        found is Some <==> is_supported(product_id@),
        found matches Some(spec) ==> spec.wf() && spec.key_count >= 1 && spec.pixel_width > 0
            && spec.pixel_height > 0 && spec.can_set_image(),
{
    match identify(product_id) {
        Some(model) => model.spec(),
        None => None,
    }
}

/// Every geometry the registry holds has at least one key and a display of
/// positive size, keeps its key-state bytes inside a report, and takes key
/// images.
pub proof fn lemma_registered_geometry(product_id: Seq<char>)
    ensures
        registry(product_id) matches Some(spec) ==> {
            &&& spec.key_count >= 1
            &&& spec.pixel_width > 0
            &&& spec.pixel_height > 0
            &&& spec.wf()
            &&& spec.can_set_image()
        },
        !is_supported(product_id) ==> registry(product_id) is None,
{
}

/// An identifier resolves exactly when it is the Neo's.
pub proof fn lemma_only_neo_resolves(product_id: Seq<char>)
    ensures
        is_supported(product_id) <==> product_id == USB_PID_STREAMDECK_NEO@,
        is_supported(product_id) ==> registry(product_id) == Some(neo_spec()),
{
    reveal_strlit("0063");
    reveal_strlit("0090");
    reveal_strlit("00b8");
    reveal_strlit("0080");
    reveal_strlit("00b9");
    reveal_strlit("00a5");
    reveal_strlit("00B9");
    reveal_strlit("009a");
    reveal_strlit("0060");
    reveal_strlit("006d");
    reveal_strlit("0086");
    reveal_strlit("0084");
    reveal_strlit("006c");
    reveal_strlit("008f");
    reveal_strlit("00aa");
    reveal_strlit("00ba");
    if product_id == USB_PID_STREAMDECK_NEO@ {
        assert(product_id[3] == 'a');
        assert(product_id[2] == '9');
    }
}

} // verus!
