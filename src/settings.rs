use vstd::prelude::*;

verus! {

/// The text of every camera setting, as the contracts see it.
pub struct CameraSettingsView {
    pub contrast: Seq<char>,
    pub sharpness: Seq<char>,
    pub brightness: Seq<char>,
    pub saturation: Seq<char>,
    pub quality: Seq<char>,
    pub timeout: Seq<char>,
    pub iso: Seq<char>,
    pub output: Seq<char>,
}

/// Camera settings. Every field is free-form text handed verbatim to the
/// capture tool, which alone decides what is valid; `iso` is kept but not
/// forwarded.
#[derive(Debug, Clone)]
pub struct CameraSettings {
    pub contrast: String,
    pub sharpness: String,
    pub brightness: String,
    pub saturation: String,
    pub quality: String,
    pub timeout: String,
    pub iso: String,
    pub output: String,
}

impl View for CameraSettings {
    type V = CameraSettingsView;

    open spec fn view(&self) -> CameraSettingsView {
        CameraSettingsView {
            contrast: self.contrast@,
            sharpness: self.sharpness@,
            brightness: self.brightness@,
            saturation: self.saturation@,
            quality: self.quality@,
            timeout: self.timeout@,
            iso: self.iso@,
            output: self.output@,
        }
    }
}

/// The documented default camera settings.
pub open spec fn camera_defaults() -> CameraSettingsView {
    CameraSettingsView {
        contrast: "1"@,
        sharpness: "1"@,
        brightness: "0.3"@,
        saturation: "2"@,
        quality: "93"@,
        timeout: "10ms"@,
        iso: "300"@,
        output: "./out.jpg"@,
    }
}

impl Default for CameraSettings {
    fn default() -> (r: CameraSettings)
        ensures
            r@ == camera_defaults(),
    {
        CameraSettings {
            contrast: String::from_str("1"),
            sharpness: String::from_str("1"),
            brightness: String::from_str("0.3"),
            saturation: String::from_str("2"),
            quality: String::from_str("93"),
            timeout: String::from_str("10ms"),
            iso: String::from_str("300"),
            output: String::from_str("./out.jpg"),
        }
    }
}

impl PartialEq for CameraSettings {
    fn eq(&self, other: &CameraSettings) -> (r: bool)
        ensures
            r == (self@ == other@),
    {
        self.contrast == other.contrast && self.sharpness == other.sharpness
            && self.brightness == other.brightness && self.saturation == other.saturation
            && self.quality == other.quality && self.timeout == other.timeout
            && self.iso == other.iso && self.output == other.output
    }
}

impl vstd::std_specs::cmp::PartialEqSpecImpl for CameraSettings {
    open spec fn obeys_eq_spec() -> bool {
        true
    }

    open spec fn eq_spec(&self, other: &CameraSettings) -> bool {
        self@ == other@
    }
}

/// The text of every image setting, as the contracts see it.
pub struct ImageSettingsView {
    pub width: Seq<char>,
    pub height: Seq<char>,
    pub rotation: Seq<char>,
    pub horizontal_flip: Seq<char>,
    pub vertical_flip: Seq<char>,
}

/// Image settings. `width` and `height` are text-encoded integers, where
/// "0" leaves the choice to the capture tool; rotation and the two flips
/// are kept but not forwarded.
#[derive(Debug, Clone)]
pub struct ImageSettings {
    pub width: String,
    pub height: String,
    pub rotation: String,
    pub horizontal_flip: String,
    pub vertical_flip: String,
}

impl View for ImageSettings {
    type V = ImageSettingsView;

    open spec fn view(&self) -> ImageSettingsView {
        ImageSettingsView {
            width: self.width@,
            height: self.height@,
            rotation: self.rotation@,
            horizontal_flip: self.horizontal_flip@,
            vertical_flip: self.vertical_flip@,
        }
    }
}

/// The documented default image settings.
pub open spec fn image_defaults() -> ImageSettingsView {
    ImageSettingsView {
        width: "0"@,
        height: "0"@,
        rotation: "180"@,
        horizontal_flip: "false"@,
        vertical_flip: "false"@,
    }
}

impl Default for ImageSettings {
    fn default() -> (r: ImageSettings)
        ensures
            r@ == image_defaults(),
    {
        ImageSettings {
            width: String::from_str("0"),
            height: String::from_str("0"),
            rotation: String::from_str("180"),
            horizontal_flip: String::from_str("false"),
            vertical_flip: String::from_str("false"),
        }
    }
}

impl PartialEq for ImageSettings {
    fn eq(&self, other: &ImageSettings) -> (r: bool)
        ensures
            r == (self@ == other@),
    {
        self.width == other.width && self.height == other.height
            && self.rotation == other.rotation && self.horizontal_flip == other.horizontal_flip
            && self.vertical_flip == other.vertical_flip
    }
}

impl vstd::std_specs::cmp::PartialEqSpecImpl for ImageSettings {
    open spec fn obeys_eq_spec() -> bool {
        true
    }

    open spec fn eq_spec(&self, other: &ImageSettings) -> bool {
        self@ == other@
    }
}

/// Building camera settings from the defaults with any one field replaced leaves every
/// other field at its default value; two records built that way,
/// independently, with the same text in that field are equal.
pub proof fn lemma_camera_override(
    defaults1: CameraSettings,
    defaults2: CameraSettings,
    value1: String,
    value2: String,
)
    requires
        defaults1@ == camera_defaults(),
        defaults2@ == camera_defaults(),
        value1@ == value2@,
    ensures
        ((CameraSettings { contrast: value1, ..defaults1 })@
            == (CameraSettingsView { contrast: value1@, ..camera_defaults() })),
        ((CameraSettings { contrast: value1, ..defaults1 })@
            == (CameraSettings { contrast: value2, ..defaults2 })@),
        ((CameraSettings { sharpness: value1, ..defaults1 })@
            == (CameraSettingsView { sharpness: value1@, ..camera_defaults() })),
        ((CameraSettings { sharpness: value1, ..defaults1 })@
            == (CameraSettings { sharpness: value2, ..defaults2 })@),
        ((CameraSettings { brightness: value1, ..defaults1 })@
            == (CameraSettingsView { brightness: value1@, ..camera_defaults() })),
        ((CameraSettings { brightness: value1, ..defaults1 })@
            == (CameraSettings { brightness: value2, ..defaults2 })@),
        ((CameraSettings { saturation: value1, ..defaults1 })@
            == (CameraSettingsView { saturation: value1@, ..camera_defaults() })),
        ((CameraSettings { saturation: value1, ..defaults1 })@
            == (CameraSettings { saturation: value2, ..defaults2 })@),
        ((CameraSettings { quality: value1, ..defaults1 })@
            == (CameraSettingsView { quality: value1@, ..camera_defaults() })),
        ((CameraSettings { quality: value1, ..defaults1 })@
            == (CameraSettings { quality: value2, ..defaults2 })@),
        ((CameraSettings { timeout: value1, ..defaults1 })@
            == (CameraSettingsView { timeout: value1@, ..camera_defaults() })),
        ((CameraSettings { timeout: value1, ..defaults1 })@
            == (CameraSettings { timeout: value2, ..defaults2 })@),
        ((CameraSettings { iso: value1, ..defaults1 })@
            == (CameraSettingsView { iso: value1@, ..camera_defaults() })),
        ((CameraSettings { iso: value1, ..defaults1 })@
            == (CameraSettings { iso: value2, ..defaults2 })@),
        ((CameraSettings { output: value1, ..defaults1 })@
            == (CameraSettingsView { output: value1@, ..camera_defaults() })),
        ((CameraSettings { output: value1, ..defaults1 })@
            == (CameraSettings { output: value2, ..defaults2 })@),
{
}

/// Building image settings from the defaults with any one field replaced leaves every
/// other field at its default value; two records built that way,
/// independently, with the same text in that field are equal.
pub proof fn lemma_image_override(
    defaults1: ImageSettings,
    defaults2: ImageSettings,
    value1: String,
    value2: String,
)
    requires
        defaults1@ == image_defaults(),
        defaults2@ == image_defaults(),
        value1@ == value2@,
    ensures
        ((ImageSettings { width: value1, ..defaults1 })@
            == (ImageSettingsView { width: value1@, ..image_defaults() })),
        ((ImageSettings { width: value1, ..defaults1 })@
            == (ImageSettings { width: value2, ..defaults2 })@),
        ((ImageSettings { height: value1, ..defaults1 })@
            == (ImageSettingsView { height: value1@, ..image_defaults() })),
        ((ImageSettings { height: value1, ..defaults1 })@
            == (ImageSettings { height: value2, ..defaults2 })@),
        ((ImageSettings { rotation: value1, ..defaults1 })@
            == (ImageSettingsView { rotation: value1@, ..image_defaults() })),
        ((ImageSettings { rotation: value1, ..defaults1 })@
            == (ImageSettings { rotation: value2, ..defaults2 })@),
        ((ImageSettings { horizontal_flip: value1, ..defaults1 })@
            == (ImageSettingsView { horizontal_flip: value1@, ..image_defaults() })),
        ((ImageSettings { horizontal_flip: value1, ..defaults1 })@
            == (ImageSettings { horizontal_flip: value2, ..defaults2 })@),
        ((ImageSettings { vertical_flip: value1, ..defaults1 })@
            == (ImageSettingsView { vertical_flip: value1@, ..image_defaults() })),
        ((ImageSettings { vertical_flip: value1, ..defaults1 })@
            == (ImageSettings { vertical_flip: value2, ..defaults2 })@),
{
}

} // verus!
