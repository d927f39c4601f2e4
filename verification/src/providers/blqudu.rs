//! The blqudu site: a biquge-style site of layout 2.

use vstd::prelude::*;

use crate::providers::biquge_common::Biquge2Provider;

verus! {

/// The settings of the blqudu site.
pub open spec fn settings() -> Biquge2Provider {
    Biquge2Provider {
        name: "blqudu",
        base_url: "https://www.blqudu.cc",
    }
}

/// The blqudu site and its settings.
pub fn provider() -> (p: Biquge2Provider)
    ensures
        p == settings(),
        p.name@ == "blqudu"@,
        p.base_url@ == "https://www.blqudu.cc"@,
{
    let p = Biquge2Provider {
        name: "blqudu",
        base_url: "https://www.blqudu.cc",
    };
    p
}

} // verus!
