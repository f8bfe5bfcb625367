//! The static catalog of controllable settings: identity, value domain,
//! protocol address and the dependency graph between settings.

use vstd::prelude::*;

verus! {

/// Identity of one controllable property of the device.
///
/// The device stores settings per output route, so changing `Output`
/// invalidates every other cached value.
#[derive(Clone, Copy, PartialEq, Eq, Structural, Debug, Hash)]
pub enum FeatureId {
    SbxMaster,
    ScoutMode,
    Output,
    SurroundToggle,
    SurroundLevel,
    DialogPlusToggle,
    DialogPlusLevel,
    SmartVolToggle,
    SmartVolLevel,
    SmartVolMode,
    CrystalizerToggle,
    CrystalizerLevel,
    BassToggle,
    BassLevel,
    SurroundDistance,
    EqToggle,
    EqPreAmp,
    Eq31Hz,
    Eq62Hz,
    Eq125Hz,
    Eq250Hz,
    Eq500Hz,
    Eq1kHz,
    Eq2kHz,
    Eq4kHz,
    Eq8kHz,
    Eq16kHz,
}

/// The value domain of a feature. Ranged bounds are whole engineering
/// units (dB, or centimetres for the surround distance).
pub enum ValueKind {
    Toggle,
    Percentage,
    Ranged { min: i32, max: i32 },
    Preset(Vec<&'static str>),
}

/// How a feature is addressed on the wire.
#[derive(Clone, Copy, PartialEq, Eq, Structural, Debug)]
pub enum Format {
    /// Generic family/feature-byte addressing (family 0x96).
    Generic { family: u8, feature: u8 },
    /// One bit of the global-profile bitmask (command 0x26).
    GlobalBitmask { bit: u8 },
    /// The output-route selector (command 0x2c).
    OutputRoute,
}

/// The shared family byte of the generic addressing scheme.
pub const GENERIC_FAMILY: u8 = 0x96;

/// Every feature, in catalog order.
pub open spec fn all_ids_spec() -> Seq<FeatureId> {
    seq![
        FeatureId::SbxMaster,
        FeatureId::ScoutMode,
        FeatureId::Output,
        FeatureId::SurroundToggle,
        FeatureId::SurroundLevel,
        FeatureId::DialogPlusToggle,
        FeatureId::DialogPlusLevel,
        FeatureId::SmartVolToggle,
        FeatureId::SmartVolLevel,
        FeatureId::SmartVolMode,
        FeatureId::CrystalizerToggle,
        FeatureId::CrystalizerLevel,
        FeatureId::BassToggle,
        FeatureId::BassLevel,
        FeatureId::SurroundDistance,
        FeatureId::EqToggle,
        FeatureId::EqPreAmp,
        FeatureId::Eq31Hz,
        FeatureId::Eq62Hz,
        FeatureId::Eq125Hz,
        FeatureId::Eq250Hz,
        FeatureId::Eq500Hz,
        FeatureId::Eq1kHz,
        FeatureId::Eq2kHz,
        FeatureId::Eq4kHz,
        FeatureId::Eq8kHz,
        FeatureId::Eq16kHz,
    ]
}

/// The ten equalizer bands, lowest frequency first (no pre-amp).
pub open spec fn eq_bands_spec() -> Seq<FeatureId> {
    seq![
        FeatureId::Eq31Hz,
        FeatureId::Eq62Hz,
        FeatureId::Eq125Hz,
        FeatureId::Eq250Hz,
        FeatureId::Eq500Hz,
        FeatureId::Eq1kHz,
        FeatureId::Eq2kHz,
        FeatureId::Eq4kHz,
        FeatureId::Eq8kHz,
        FeatureId::Eq16kHz,
    ]
}

/// Every feature, in catalog order.
pub fn all_ids() -> (r: Vec<FeatureId>)
    ensures
        r@ == all_ids_spec(),
{
    let r = vec![
        FeatureId::SbxMaster,
        FeatureId::ScoutMode,
        FeatureId::Output,
        FeatureId::SurroundToggle,
        FeatureId::SurroundLevel,
        FeatureId::DialogPlusToggle,
        FeatureId::DialogPlusLevel,
        FeatureId::SmartVolToggle,
        FeatureId::SmartVolLevel,
        FeatureId::SmartVolMode,
        FeatureId::CrystalizerToggle,
        FeatureId::CrystalizerLevel,
        FeatureId::BassToggle,
        FeatureId::BassLevel,
        FeatureId::SurroundDistance,
        FeatureId::EqToggle,
        FeatureId::EqPreAmp,
        FeatureId::Eq31Hz,
        FeatureId::Eq62Hz,
        FeatureId::Eq125Hz,
        FeatureId::Eq250Hz,
        FeatureId::Eq500Hz,
        FeatureId::Eq1kHz,
        FeatureId::Eq2kHz,
        FeatureId::Eq4kHz,
        FeatureId::Eq8kHz,
        FeatureId::Eq16kHz,
    ];
    assert(r@ =~= all_ids_spec());
    r
}

/// The ten equalizer bands, lowest frequency first (no pre-amp).
pub fn eq_bands() -> (r: Vec<FeatureId>)
    ensures
        r@ == eq_bands_spec(),
{
    let r = vec![
        FeatureId::Eq31Hz,
        FeatureId::Eq62Hz,
        FeatureId::Eq125Hz,
        FeatureId::Eq250Hz,
        FeatureId::Eq500Hz,
        FeatureId::Eq1kHz,
        FeatureId::Eq2kHz,
        FeatureId::Eq4kHz,
        FeatureId::Eq8kHz,
        FeatureId::Eq16kHz,
    ];
    assert(r@ =~= eq_bands_spec());
    r
}

impl FeatureId {
    /// The feature byte under the generic addressing family, if any.
    pub open spec fn feature_byte(self) -> Option<u8> {
        match self {
            FeatureId::SurroundToggle => Some(0x00u8),
            FeatureId::SurroundLevel => Some(0x01u8),
            FeatureId::DialogPlusToggle => Some(0x02u8),
            FeatureId::DialogPlusLevel => Some(0x03u8),
            FeatureId::SmartVolToggle => Some(0x04u8),
            FeatureId::SmartVolLevel => Some(0x05u8),
            FeatureId::SmartVolMode => Some(0x06u8),
            FeatureId::CrystalizerToggle => Some(0x07u8),
            FeatureId::CrystalizerLevel => Some(0x08u8),
            FeatureId::EqToggle => Some(0x09u8),
            FeatureId::EqPreAmp => Some(0x0au8),
            FeatureId::Eq31Hz => Some(0x0bu8),
            FeatureId::Eq62Hz => Some(0x0cu8),
            FeatureId::Eq125Hz => Some(0x0du8),
            FeatureId::Eq250Hz => Some(0x0eu8),
            FeatureId::Eq500Hz => Some(0x0fu8),
            FeatureId::Eq1kHz => Some(0x10u8),
            FeatureId::Eq2kHz => Some(0x11u8),
            FeatureId::Eq4kHz => Some(0x12u8),
            FeatureId::Eq8kHz => Some(0x13u8),
            FeatureId::Eq16kHz => Some(0x14u8),
            FeatureId::SurroundDistance => Some(0x17u8),
            FeatureId::BassToggle => Some(0x18u8),
            FeatureId::BassLevel => Some(0x19u8),
            _ => None,
        }
    }

    /// The addressing scheme of the feature.
    pub open spec fn addressing_spec(self) -> Format {
        match self {
            FeatureId::SbxMaster => Format::GlobalBitmask { bit: 0x01 },
            FeatureId::ScoutMode => Format::GlobalBitmask { bit: 0x02 },
            FeatureId::Output => Format::OutputRoute,
            _ => Format::Generic { family: GENERIC_FAMILY, feature: self.feature_byte().unwrap() },
        }
    }

    /// The toggle that gates this feature inside the SBX group, if any.
    pub open spec fn group_toggle(self) -> Option<FeatureId> {
        match self {
            FeatureId::SurroundLevel | FeatureId::SurroundDistance => Some(FeatureId::SurroundToggle),
            FeatureId::DialogPlusLevel => Some(FeatureId::DialogPlusToggle),
            FeatureId::SmartVolLevel | FeatureId::SmartVolMode => Some(FeatureId::SmartVolToggle),
            FeatureId::CrystalizerLevel => Some(FeatureId::CrystalizerToggle),
            FeatureId::BassLevel => Some(FeatureId::BassToggle),
            FeatureId::EqPreAmp
            | FeatureId::Eq31Hz
            | FeatureId::Eq62Hz
            | FeatureId::Eq125Hz
            | FeatureId::Eq250Hz
            | FeatureId::Eq500Hz
            | FeatureId::Eq1kHz
            | FeatureId::Eq2kHz
            | FeatureId::Eq4kHz
            | FeatureId::Eq8kHz
            | FeatureId::Eq16kHz => Some(FeatureId::EqToggle),
            _ => None,
        }
    }

    /// Whether the feature lives under the generic (SBX) family and so
    /// needs the SBX master switch.
    pub open spec fn is_sbx(self) -> bool {
        self.feature_byte().is_some()
    }

    /// The dependency relation: `self` needs `other` on to work.
    pub open spec fn requires_spec(self, other: FeatureId) -> bool {
        (self.is_sbx() && other == FeatureId::SbxMaster) || self.group_toggle() == Some(other)
    }

    /// The features that must be on for this feature to work, in the order
    /// in which they are enabled.
    pub open spec fn dependencies_spec(self) -> Seq<FeatureId> {
        match self {
            FeatureId::SbxMaster | FeatureId::ScoutMode | FeatureId::Output => seq![],
            FeatureId::SurroundToggle
            | FeatureId::DialogPlusToggle
            | FeatureId::SmartVolToggle
            | FeatureId::CrystalizerToggle
            | FeatureId::BassToggle
            | FeatureId::EqToggle => seq![FeatureId::SbxMaster],
            _ => seq![FeatureId::SbxMaster, self.group_toggle().unwrap()],
        }
    }

    /// The features whose cached value is re-read after this one changes.
    pub open spec fn dependents_spec(self) -> Seq<FeatureId> {
        match self {
            FeatureId::SbxMaster => seq![
                FeatureId::SurroundToggle,
                FeatureId::SurroundLevel,
                FeatureId::SurroundDistance,
                FeatureId::DialogPlusToggle,
                FeatureId::DialogPlusLevel,
                FeatureId::SmartVolToggle,
                FeatureId::SmartVolLevel,
                FeatureId::SmartVolMode,
                FeatureId::CrystalizerToggle,
                FeatureId::CrystalizerLevel,
                FeatureId::BassToggle,
                FeatureId::BassLevel,
                FeatureId::EqToggle,
                FeatureId::EqPreAmp,
                FeatureId::Eq31Hz,
                FeatureId::Eq62Hz,
                FeatureId::Eq125Hz,
                FeatureId::Eq250Hz,
                FeatureId::Eq500Hz,
                FeatureId::Eq1kHz,
                FeatureId::Eq2kHz,
                FeatureId::Eq4kHz,
                FeatureId::Eq8kHz,
                FeatureId::Eq16kHz,
            ],
            FeatureId::SurroundToggle => seq![FeatureId::SurroundLevel, FeatureId::SurroundDistance],
            FeatureId::DialogPlusToggle => seq![FeatureId::DialogPlusLevel],
            FeatureId::SmartVolToggle => seq![FeatureId::SmartVolLevel, FeatureId::SmartVolMode],
            FeatureId::CrystalizerToggle => seq![FeatureId::CrystalizerLevel],
            FeatureId::BassToggle => seq![FeatureId::BassLevel],
            FeatureId::EqToggle => seq![
                FeatureId::EqPreAmp,
                FeatureId::Eq31Hz,
                FeatureId::Eq62Hz,
                FeatureId::Eq125Hz,
                FeatureId::Eq250Hz,
                FeatureId::Eq500Hz,
                FeatureId::Eq1kHz,
                FeatureId::Eq2kHz,
                FeatureId::Eq4kHz,
                FeatureId::Eq8kHz,
                FeatureId::Eq16kHz,
            ],
            _ => seq![],
        }
    }

    /// Length of the longest dependency chain below this feature.
    pub open spec fn depth(self) -> nat {
        if self == FeatureId::SbxMaster || self == FeatureId::ScoutMode || self == FeatureId::Output {
            0
        } else if self.group_toggle().is_none() {
            1
        } else {
            2
        }
    }

    pub open spec fn display_name_spec(self) -> Seq<char> {
        match self {
            FeatureId::SbxMaster => "SBX"@,
            FeatureId::ScoutMode => "Scout Mode"@,
            FeatureId::Output => "Output"@,
            FeatureId::SurroundToggle => "Surround"@,
            FeatureId::SurroundLevel => "Surround Slider"@,
            FeatureId::DialogPlusToggle => "Dialog+"@,
            FeatureId::DialogPlusLevel => "Dialog+ Slider"@,
            FeatureId::SmartVolToggle => "Smart Volume"@,
            FeatureId::SmartVolLevel => "Smart Volume Slider"@,
            FeatureId::SmartVolMode => "Smart Volume Mode"@,
            FeatureId::CrystalizerToggle => "Crystalizer"@,
            FeatureId::CrystalizerLevel => "Crystalizer Slider"@,
            FeatureId::BassToggle => "Bass"@,
            FeatureId::BassLevel => "Bass Slider"@,
            FeatureId::SurroundDistance => "Surround Distance"@,
            FeatureId::EqToggle => "Equalizer"@,
            FeatureId::EqPreAmp => "EQ Pre-Amp"@,
            FeatureId::Eq31Hz => "EQ 31Hz"@,
            FeatureId::Eq62Hz => "EQ 62Hz"@,
            FeatureId::Eq125Hz => "EQ 125Hz"@,
            FeatureId::Eq250Hz => "EQ 250Hz"@,
            FeatureId::Eq500Hz => "EQ 500Hz"@,
            FeatureId::Eq1kHz => "EQ 1kHz"@,
            FeatureId::Eq2kHz => "EQ 2kHz"@,
            FeatureId::Eq4kHz => "EQ 4kHz"@,
            FeatureId::Eq8kHz => "EQ 8kHz"@,
            FeatureId::Eq16kHz => "EQ 16kHz"@,
        }
    }

    /// Whether the feature is an on/off switch.
    pub open spec fn is_toggle_spec(self) -> bool {
        match self {
            FeatureId::SbxMaster
            | FeatureId::ScoutMode
            | FeatureId::SurroundToggle
            | FeatureId::DialogPlusToggle
            | FeatureId::SmartVolToggle
            | FeatureId::CrystalizerToggle
            | FeatureId::BassToggle
            | FeatureId::EqToggle => true,
            _ => false,
        }
    }

    /// The toggle that gates this slider, for the five SBX effect sliders.
    pub open spec fn paired_toggle_spec(self) -> Option<FeatureId> {
        match self {
            FeatureId::SurroundLevel => Some(FeatureId::SurroundToggle),
            FeatureId::DialogPlusLevel => Some(FeatureId::DialogPlusToggle),
            FeatureId::SmartVolLevel => Some(FeatureId::SmartVolToggle),
            FeatureId::CrystalizerLevel => Some(FeatureId::CrystalizerToggle),
            FeatureId::BassLevel => Some(FeatureId::BassToggle),
            _ => None,
        }
    }

    /// The slider gated by this toggle, for the five SBX effect toggles.
    pub open spec fn paired_slider_spec(self) -> Option<FeatureId> {
        match self {
            FeatureId::SurroundToggle => Some(FeatureId::SurroundLevel),
            FeatureId::DialogPlusToggle => Some(FeatureId::DialogPlusLevel),
            FeatureId::SmartVolToggle => Some(FeatureId::SmartVolLevel),
            FeatureId::CrystalizerToggle => Some(FeatureId::CrystalizerLevel),
            FeatureId::BassToggle => Some(FeatureId::BassLevel),
            _ => None,
        }
    }
}

impl FeatureId {
    /// Human-readable name of the feature.
    pub fn display_name(&self) -> (r: &'static str)
        ensures
            r@ == self.display_name_spec(),
    {
        match self {
            FeatureId::SbxMaster => "SBX",
            FeatureId::ScoutMode => "Scout Mode",
            FeatureId::Output => "Output",
            FeatureId::SurroundToggle => "Surround",
            FeatureId::SurroundLevel => "Surround Slider",
            FeatureId::DialogPlusToggle => "Dialog+",
            FeatureId::DialogPlusLevel => "Dialog+ Slider",
            FeatureId::SmartVolToggle => "Smart Volume",
            FeatureId::SmartVolLevel => "Smart Volume Slider",
            FeatureId::SmartVolMode => "Smart Volume Mode",
            FeatureId::CrystalizerToggle => "Crystalizer",
            FeatureId::CrystalizerLevel => "Crystalizer Slider",
            FeatureId::BassToggle => "Bass",
            FeatureId::BassLevel => "Bass Slider",
            FeatureId::SurroundDistance => "Surround Distance",
            FeatureId::EqToggle => "Equalizer",
            FeatureId::EqPreAmp => "EQ Pre-Amp",
            FeatureId::Eq31Hz => "EQ 31Hz",
            FeatureId::Eq62Hz => "EQ 62Hz",
            FeatureId::Eq125Hz => "EQ 125Hz",
            FeatureId::Eq250Hz => "EQ 250Hz",
            FeatureId::Eq500Hz => "EQ 500Hz",
            FeatureId::Eq1kHz => "EQ 1kHz",
            FeatureId::Eq2kHz => "EQ 2kHz",
            FeatureId::Eq4kHz => "EQ 4kHz",
            FeatureId::Eq8kHz => "EQ 8kHz",
            FeatureId::Eq16kHz => "EQ 16kHz",
        }
    }

    /// Whether the feature is an on/off switch.
    pub fn is_toggle(&self) -> (r: bool)
        ensures
            r == self.is_toggle_spec(),
    {
        match self {
            FeatureId::SbxMaster
            | FeatureId::ScoutMode
            | FeatureId::SurroundToggle
            | FeatureId::DialogPlusToggle
            | FeatureId::SmartVolToggle
            | FeatureId::CrystalizerToggle
            | FeatureId::BassToggle
            | FeatureId::EqToggle => true,
            _ => false,
        }
    }

    /// The value domain of the feature: exactly one per feature.
    pub fn value_kind(&self) -> (r: ValueKind)
        ensures
            self.is_toggle_spec() <==> r is Toggle,
            r is Percentage <==> self.paired_toggle_spec().is_some(),
            r is Ranged ==> (r->min < r->max),
            (r is Ranged && self.group_toggle() == Some(FeatureId::EqToggle) && *self != FeatureId::EqPreAmp)
                ==> (r->min == -12 && r->max == 12),
            *self == FeatureId::EqPreAmp ==> (r is Ranged && r->min == -6 && r->max == 6),
            *self == FeatureId::SurroundDistance ==> (r is Ranged && r->min == 10 && r->max == 300),
            *self == FeatureId::Output ==> (r is Preset && r->Preset_0@.len() == 2 && r->Preset_0@[0]@ == "Speakers"@
                && r->Preset_0@[1]@ == "Headphones"@),
            *self == FeatureId::SmartVolMode ==> (r is Preset && r->Preset_0@.len() == 3 && r->Preset_0@[0]@
                == "Normal"@ && r->Preset_0@[1]@ == "Loud"@ && r->Preset_0@[2]@ == "Night"@),
            (r is Preset) <==> (*self == FeatureId::Output || *self == FeatureId::SmartVolMode),
    {
        match self {
            FeatureId::SbxMaster
            | FeatureId::ScoutMode
            | FeatureId::SurroundToggle
            | FeatureId::DialogPlusToggle
            | FeatureId::SmartVolToggle
            | FeatureId::CrystalizerToggle
            | FeatureId::BassToggle
            | FeatureId::EqToggle => ValueKind::Toggle,
            FeatureId::SurroundLevel
            | FeatureId::DialogPlusLevel
            | FeatureId::SmartVolLevel
            | FeatureId::CrystalizerLevel
            | FeatureId::BassLevel => ValueKind::Percentage,
            FeatureId::EqPreAmp => ValueKind::Ranged { min: -6, max: 6 },
            FeatureId::Eq31Hz
            | FeatureId::Eq62Hz
            | FeatureId::Eq125Hz
            | FeatureId::Eq250Hz
            | FeatureId::Eq500Hz
            | FeatureId::Eq1kHz
            | FeatureId::Eq2kHz
            | FeatureId::Eq4kHz
            | FeatureId::Eq8kHz
            | FeatureId::Eq16kHz => ValueKind::Ranged { min: -12, max: 12 },
            FeatureId::SurroundDistance => ValueKind::Ranged { min: 10, max: 300 },
            FeatureId::SmartVolMode => ValueKind::Preset(vec!["Normal", "Loud", "Night"]),
            FeatureId::Output => ValueKind::Preset(vec!["Speakers", "Headphones"]),
        }
    }

    /// The `(family, feature)` pair of a generically addressed feature;
    /// `None` for features under another scheme.
    pub fn dsp_address(&self) -> (r: Option<(u8, u8)>)
        ensures
            r == (match self.feature_byte() {
                Some(b) => Some((GENERIC_FAMILY, b)),
                None => None::<(u8, u8)>,
            }),
    {
        let b: u8 = match self {
            FeatureId::SurroundToggle => 0x00,
            FeatureId::SurroundLevel => 0x01,
            FeatureId::DialogPlusToggle => 0x02,
            FeatureId::DialogPlusLevel => 0x03,
            FeatureId::SmartVolToggle => 0x04,
            FeatureId::SmartVolLevel => 0x05,
            FeatureId::SmartVolMode => 0x06,
            FeatureId::CrystalizerToggle => 0x07,
            FeatureId::CrystalizerLevel => 0x08,
            FeatureId::EqToggle => 0x09,
            FeatureId::EqPreAmp => 0x0a,
            FeatureId::Eq31Hz => 0x0b,
            FeatureId::Eq62Hz => 0x0c,
            FeatureId::Eq125Hz => 0x0d,
            FeatureId::Eq250Hz => 0x0e,
            FeatureId::Eq500Hz => 0x0f,
            FeatureId::Eq1kHz => 0x10,
            FeatureId::Eq2kHz => 0x11,
            FeatureId::Eq4kHz => 0x12,
            FeatureId::Eq8kHz => 0x13,
            FeatureId::Eq16kHz => 0x14,
            FeatureId::SurroundDistance => 0x17,
            FeatureId::BassToggle => 0x18,
            FeatureId::BassLevel => 0x19,
            _ => {
                return None;
            },
        };
        Some((GENERIC_FAMILY, b))
    }

    /// The addressing scheme used to read and write the feature.
    pub fn addressing(&self) -> (r: Format)
        ensures
            r == self.addressing_spec(),
    {
        match self {
            FeatureId::SbxMaster => Format::GlobalBitmask { bit: 0x01 },
            FeatureId::ScoutMode => Format::GlobalBitmask { bit: 0x02 },
            FeatureId::Output => Format::OutputRoute,
            _ => {
                let a = self.dsp_address();
                match a {
                    Some((family, feature)) => Format::Generic { family, feature },
                    None => Format::OutputRoute,
                }
            },
        }
    }

    /// Features that must be on for this feature to work.
    pub fn dependencies(&self) -> (r: Vec<FeatureId>)
        ensures
            r@ == self.dependencies_spec(),
    {
        let r = match self {
            FeatureId::SbxMaster | FeatureId::ScoutMode | FeatureId::Output => vec![],
            FeatureId::SurroundToggle
            | FeatureId::DialogPlusToggle
            | FeatureId::SmartVolToggle
            | FeatureId::CrystalizerToggle
            | FeatureId::BassToggle
            | FeatureId::EqToggle => vec![FeatureId::SbxMaster],
            FeatureId::SurroundLevel | FeatureId::SurroundDistance => vec![FeatureId::SbxMaster, FeatureId::SurroundToggle],
            FeatureId::DialogPlusLevel => vec![FeatureId::SbxMaster, FeatureId::DialogPlusToggle],
            FeatureId::SmartVolLevel | FeatureId::SmartVolMode => vec![FeatureId::SbxMaster, FeatureId::SmartVolToggle],
            FeatureId::CrystalizerLevel => vec![FeatureId::SbxMaster, FeatureId::CrystalizerToggle],
            FeatureId::BassLevel => vec![FeatureId::SbxMaster, FeatureId::BassToggle],
            _ => vec![FeatureId::SbxMaster, FeatureId::EqToggle],
        };
        assert(r@ =~= self.dependencies_spec());
        r
    }

    /// Features whose cached state is re-read after this feature changes.
    pub fn dependents(&self) -> (r: Vec<FeatureId>)
        ensures
            r@ == self.dependents_spec(),
    {
        let r = match self {
            FeatureId::SbxMaster => vec![
                FeatureId::SurroundToggle,
                FeatureId::SurroundLevel,
                FeatureId::SurroundDistance,
                FeatureId::DialogPlusToggle,
                FeatureId::DialogPlusLevel,
                FeatureId::SmartVolToggle,
                FeatureId::SmartVolLevel,
                FeatureId::SmartVolMode,
                FeatureId::CrystalizerToggle,
                FeatureId::CrystalizerLevel,
                FeatureId::BassToggle,
                FeatureId::BassLevel,
                FeatureId::EqToggle,
                FeatureId::EqPreAmp,
                FeatureId::Eq31Hz,
                FeatureId::Eq62Hz,
                FeatureId::Eq125Hz,
                FeatureId::Eq250Hz,
                FeatureId::Eq500Hz,
                FeatureId::Eq1kHz,
                FeatureId::Eq2kHz,
                FeatureId::Eq4kHz,
                FeatureId::Eq8kHz,
                FeatureId::Eq16kHz,
            ],
            FeatureId::SurroundToggle => vec![FeatureId::SurroundLevel, FeatureId::SurroundDistance],
            FeatureId::DialogPlusToggle => vec![FeatureId::DialogPlusLevel],
            FeatureId::SmartVolToggle => vec![FeatureId::SmartVolLevel, FeatureId::SmartVolMode],
            FeatureId::CrystalizerToggle => vec![FeatureId::CrystalizerLevel],
            FeatureId::BassToggle => vec![FeatureId::BassLevel],
            FeatureId::EqToggle => vec![
                FeatureId::EqPreAmp,
                FeatureId::Eq31Hz,
                FeatureId::Eq62Hz,
                FeatureId::Eq125Hz,
                FeatureId::Eq250Hz,
                FeatureId::Eq500Hz,
                FeatureId::Eq1kHz,
                FeatureId::Eq2kHz,
                FeatureId::Eq4kHz,
                FeatureId::Eq8kHz,
                FeatureId::Eq16kHz,
            ],
            _ => vec![],
        };
        assert(r@ =~= self.dependents_spec());
        r
    }

    /// For a toggle that gates a slider, the slider.
    pub fn paired_slider(&self) -> (r: Option<FeatureId>)
        ensures
            r == self.paired_slider_spec(),
    {
        match self {
            FeatureId::SurroundToggle => Some(FeatureId::SurroundLevel),
            FeatureId::DialogPlusToggle => Some(FeatureId::DialogPlusLevel),
            FeatureId::SmartVolToggle => Some(FeatureId::SmartVolLevel),
            FeatureId::CrystalizerToggle => Some(FeatureId::CrystalizerLevel),
            FeatureId::BassToggle => Some(FeatureId::BassLevel),
            _ => None,
        }
    }

    /// For a slider gated by a toggle, the toggle.
    pub fn paired_toggle(&self) -> (r: Option<FeatureId>)
        ensures
            r == self.paired_toggle_spec(),
    {
        match self {
            FeatureId::SurroundLevel => Some(FeatureId::SurroundToggle),
            FeatureId::DialogPlusLevel => Some(FeatureId::DialogPlusToggle),
            FeatureId::SmartVolLevel => Some(FeatureId::SmartVolToggle),
            FeatureId::CrystalizerLevel => Some(FeatureId::CrystalizerToggle),
            FeatureId::BassLevel => Some(FeatureId::BassToggle),
            _ => None,
        }
    }
}

/// The dependency list of `a` holds exactly the features that `a` requires.
proof fn lemma_dependencies_are_edges(a: FeatureId)
    ensures
        forall|b: FeatureId| #[trigger] a.dependencies_spec().contains(b) <==> a.requires_spec(b),
{
    let d = a.dependencies_spec();
    assert forall|b: FeatureId| #[trigger] d.contains(b) <==> a.requires_spec(b) by {
        if a.requires_spec(b) {
            if b == FeatureId::SbxMaster {
                assert(d[0] == b);
            } else {
                assert(d[1] == b);
            }
        }
    }
}

/// The dependents list of `b` holds exactly the features that require `b`.
proof fn lemma_dependents_are_edges(b: FeatureId)
    ensures
        forall|a: FeatureId| #[trigger] b.dependents_spec().contains(a) <==> a.requires_spec(b),
{
    let d = b.dependents_spec();
    assert forall|a: FeatureId| #[trigger] d.contains(a) <==> a.requires_spec(b) by {
        if a.requires_spec(b) {
            let i: int = match b {
                FeatureId::SbxMaster => match a {
                    FeatureId::SurroundToggle => 0,
                    FeatureId::SurroundLevel => 1,
                    FeatureId::SurroundDistance => 2,
                    FeatureId::DialogPlusToggle => 3,
                    FeatureId::DialogPlusLevel => 4,
                    FeatureId::SmartVolToggle => 5,
                    FeatureId::SmartVolLevel => 6,
                    FeatureId::SmartVolMode => 7,
                    FeatureId::CrystalizerToggle => 8,
                    FeatureId::CrystalizerLevel => 9,
                    FeatureId::BassToggle => 10,
                    FeatureId::BassLevel => 11,
                    FeatureId::EqToggle => 12,
                    FeatureId::EqPreAmp => 13,
                    FeatureId::Eq31Hz => 14,
                    FeatureId::Eq62Hz => 15,
                    FeatureId::Eq125Hz => 16,
                    FeatureId::Eq250Hz => 17,
                    FeatureId::Eq500Hz => 18,
                    FeatureId::Eq1kHz => 19,
                    FeatureId::Eq2kHz => 20,
                    FeatureId::Eq4kHz => 21,
                    FeatureId::Eq8kHz => 22,
                    _ => 23,
                },
                FeatureId::EqToggle => match a {
                    FeatureId::EqPreAmp => 0,
                    FeatureId::Eq31Hz => 1,
                    FeatureId::Eq62Hz => 2,
                    FeatureId::Eq125Hz => 3,
                    FeatureId::Eq250Hz => 4,
                    FeatureId::Eq500Hz => 5,
                    FeatureId::Eq1kHz => 6,
                    FeatureId::Eq2kHz => 7,
                    FeatureId::Eq4kHz => 8,
                    FeatureId::Eq8kHz => 9,
                    _ => 10,
                },
                _ => match a {
                    FeatureId::SurroundDistance | FeatureId::SmartVolMode => 1,
                    _ => 0,
                },
            };
            assert(d[i] == a);
        }
    }
}

/// Dependency symmetry: `b` is among the dependencies of `a` exactly when
/// `a` is among the dependents of `b`.
pub proof fn lemma_dependency_symmetry(a: FeatureId, b: FeatureId)
    ensures
        a.dependencies_spec().contains(b) <==> b.dependents_spec().contains(a),
{
    lemma_dependencies_are_edges(a);
    lemma_dependents_are_edges(b);
}

/// No feature depends on itself, nor lists itself among its dependents.
pub proof fn lemma_no_self_reference(a: FeatureId)
    ensures
        !a.dependencies_spec().contains(a),
        !a.dependents_spec().contains(a),
{
    lemma_dependencies_are_edges(a);
    lemma_dependents_are_edges(a);
}

/// Every dependency sits strictly lower in the graph than the feature that
/// needs it, and no chain is longer than two; so the dependency walk ends.
pub proof fn lemma_dependency_depth(a: FeatureId, b: FeatureId)
    ensures
        a.depth() <= 2,
        a.dependencies_spec().contains(b) ==> b.depth() < a.depth(),
{
    lemma_dependencies_are_edges(a);
}

} // verus!
