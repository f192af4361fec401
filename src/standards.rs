//! The closed set of document standards and the frame each one asks for.
use vstd::prelude::*;

verus! {

/// Largest value of [`CropConfig::top_margin_permille`]: a ratio of one.
pub const PERMILLE: u32 = 1000;

/// The frame that a standard asks for.
///
/// `top_margin_permille` is the face-region ratio in thousandths: the face
/// region is `target_height * top_margin_permille / 1000` pixels tall.
#[derive(Clone, Copy, Debug, PartialEq, Eq, Structural)]
pub struct CropConfig {
    pub target_width: u32,
    pub target_height: u32,
    pub top_margin_permille: u32,
}

impl CropConfig {
    /// Positive target dimensions and a ratio in `(0, 1]`.
    pub open spec fn wf(self) -> bool {
        &&& self.target_width > 0
        &&& self.target_height > 0
        &&& 0 < self.top_margin_permille <= PERMILLE
    }
}

/// A named document-photo standard.
#[derive(Clone, Copy, Debug, PartialEq, Eq, Structural)]
pub enum PassportStandard {
    SaudiEVisa,
    US,
    Schengen,
    GeneralID,
    UK,
    India,
    Custom,
}

/// The frame of each standard.
pub open spec fn config_of(s: PassportStandard) -> CropConfig {
    match s {
        PassportStandard::SaudiEVisa => CropConfig {
            target_width: 500,
            target_height: 500,
            top_margin_permille: 450,
        },
        PassportStandard::US => CropConfig {
            target_width: 600,
            target_height: 600,
            top_margin_permille: 450,
        },
        PassportStandard::Schengen => CropConfig {
            target_width: 500,
            target_height: 500,
            top_margin_permille: 450,
        },
        PassportStandard::GeneralID => CropConfig {
            target_width: 450,
            target_height: 550,
            top_margin_permille: 450,
        },
        PassportStandard::UK => CropConfig {
            target_width: 350,
            target_height: 450,
            top_margin_permille: 450,
        },
        PassportStandard::India => CropConfig {
            target_width: 350,
            target_height: 500,
            top_margin_permille: 450,
        },
        PassportStandard::Custom => CropConfig {
            target_width: 500,
            target_height: 500,
            top_margin_permille: 450,
        },
    }
}

/// The standard that a host's numeric identifier selects; identifiers
/// outside `0..=5` fall back to the general identity card.
pub open spec fn standard_of_id(id: i32) -> PassportStandard {
    if id == 0 {
        PassportStandard::SaudiEVisa
    } else if id == 1 {
        PassportStandard::US
    } else if id == 2 {
        PassportStandard::Schengen
    } else if id == 4 {
        PassportStandard::UK
    } else if id == 5 {
        PassportStandard::India
    } else {
        PassportStandard::GeneralID
    }
}

impl PassportStandard {
    /// The frame of this standard.
    pub fn to_config(self) -> (r: CropConfig)
        ensures
            r == config_of(self),
            r.wf(),
    {
        match self {
            PassportStandard::SaudiEVisa => CropConfig {
                target_width: 500,
                target_height: 500,
                top_margin_permille: 450,
            },
            PassportStandard::US => CropConfig {
                target_width: 600,
                target_height: 600,
                top_margin_permille: 450,
            },
            PassportStandard::Schengen => CropConfig {
                target_width: 500,
                target_height: 500,
                top_margin_permille: 450,
            },
            PassportStandard::GeneralID => CropConfig {
                target_width: 450,
                target_height: 550,
                top_margin_permille: 450,
            },
            PassportStandard::UK => CropConfig {
                target_width: 350,
                target_height: 450,
                top_margin_permille: 450,
            },
            PassportStandard::India => CropConfig {
                target_width: 350,
                target_height: 500,
                top_margin_permille: 450,
            },
            PassportStandard::Custom => CropConfig {
                target_width: 500,
                target_height: 500,
                top_margin_permille: 450,
            },
        }
    }

    /// The standard that a host's numeric identifier selects.
    pub fn from_id(id: i32) -> (r: PassportStandard)
        ensures
            r == standard_of_id(id),
    {
        if id == 0 {
            PassportStandard::SaudiEVisa
        } else if id == 1 {
            PassportStandard::US
        } else if id == 2 {
            PassportStandard::Schengen
        } else if id == 4 {
            PassportStandard::UK
        } else if id == 5 {
            PassportStandard::India
        } else {
            PassportStandard::GeneralID
        }
    }
}

/// Every standard has a frame with positive width and height.
pub proof fn lemma_config_dimensions_positive(s: PassportStandard)
    ensures
        config_of(s).target_width > 0,
        config_of(s).target_height > 0,
        config_of(s).wf(),
{
}

/// No standard's frame is wider or taller than 600 pixels, so its RGB
/// buffer fits in memory.
pub proof fn lemma_config_frame_fits_memory(s: PassportStandard)
    ensures
        config_of(s).target_width <= 600,
        config_of(s).target_height <= 600,
        config_of(s).target_width * config_of(s).target_height * 3 <= usize::MAX,
{
    let w = config_of(s).target_width as int;
    let h = config_of(s).target_height as int;
    assert(w * h * 3 <= 1_080_000) by (nonlinear_arith)
        requires
            0 <= w <= 600,
            0 <= h <= 600,
    ;
}

} // verus!
