//! The closed set of capture backends, chosen once at startup.
use vstd::prelude::*;
use crate::config::CaptureModule;
use crate::dummy::Dummy;
use crate::gphoto2::GPhoto2;

verus! {

pub enum Backend {
    Dummy(Dummy),
    GPhoto2(GPhoto2),
}

/// The backend that `module` names.
pub fn build(module: CaptureModule) -> (r: Backend)
    ensures
        module == CaptureModule::Dummy <==> r is Dummy,
        module == CaptureModule::GPhoto2 <==> r is GPhoto2,
{
    match module {
        CaptureModule::Dummy => Backend::Dummy(Dummy::new()),
        CaptureModule::GPhoto2 => Backend::GPhoto2(GPhoto2::new()),
    }
}

} // verus!
