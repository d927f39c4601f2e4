//! The n23ddw site: a biquge-style site of layout 3.

use vstd::prelude::*;

use crate::providers::biquge_common::Biquge3Provider;

verus! {

/// The settings of the n23ddw site.
pub open spec fn settings() -> Biquge3Provider {
    Biquge3Provider {
        name: "n23ddw",
        base_url: "https://www.23ddw.net",
        search_url: "https://www.23ddw.net/searchss/",
    }
}

/// The n23ddw site and its settings.
pub fn provider() -> (p: Biquge3Provider)
    ensures
        p == settings(),
        p.name@ == "n23ddw"@,
        p.base_url@ == "https://www.23ddw.net"@,
        p.search_url@ == "https://www.23ddw.net/searchss/"@,
{
    let p = Biquge3Provider {
        name: "n23ddw",
        base_url: "https://www.23ddw.net",
        search_url: "https://www.23ddw.net/searchss/",
    };
    p
}

} // verus!
