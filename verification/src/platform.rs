//! Device platform detection.
//!
//! The platform is matched from the manufacturer name the runtime reports; it
//! decides which loader the outer layer opens and which features apply.

use vstd::prelude::*;
use vstd::string::StringExecFns;

verus! {

/// Platform of the device, matched from the runtime's manufacturer name.
#[derive(PartialEq, Eq, Clone, Copy, Structural, Debug)]
pub enum Platform {
    Quest,
    Pico,
    Vive,
    Yvr,
    Other,
}

/// Which platform a manufacturer name denotes.
pub open spec fn platform_spec(name: Seq<char>) -> Platform {
    if name == "Oculus"@ {
        Platform::Quest
    } else if name == "Pico"@ {
        Platform::Pico
    } else if name == "HTC"@ {
        Platform::Vive
    } else if name == "YVR"@ {
        Platform::Yvr
    } else {
        Platform::Other
    }
}

/// Maps the manufacturer name the runtime reports to the device platform;
/// unknown manufacturers fall back to the generic loader.
pub fn platform_from_manufacturer(name: &String) -> (r: Platform)
    ensures
        r == platform_spec(name@),
{
    let oculus: String = String::from_str("Oculus");
    let pico: String = String::from_str("Pico");
    let htc: String = String::from_str("HTC");
    let yvr: String = String::from_str("YVR");
    if name.eq(&oculus) {
        Platform::Quest
    } else if name.eq(&pico) {
        Platform::Pico
    } else if name.eq(&htc) {
        Platform::Vive
    } else if name.eq(&yvr) {
        Platform::Yvr
    } else {
        Platform::Other
    }
}

} // verus!
