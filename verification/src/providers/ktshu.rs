//! The ktshu site: a biquge-style site of layout 1.

use vstd::prelude::*;

use crate::providers::biquge_common::Biquge1Provider;

verus! {

/// The settings of the ktshu site.
pub open spec fn settings() -> Biquge1Provider {
    Biquge1Provider {
        name: "ktshu",
        base_url: "https://www.ktshu.cc",
        search_url: "https://www.ktshu.cc/search.php",
        use_paginated_info: true,
        use_paginated_chapter: true,
    }
}

/// The ktshu site and its settings.
pub fn provider() -> (p: Biquge1Provider)
    ensures
        p == settings(),
        p.name@ == "ktshu"@,
        p.base_url@ == "https://www.ktshu.cc"@,
        p.search_url@ == "https://www.ktshu.cc/search.php"@,
        p.use_paginated_info,
        p.use_paginated_chapter,
{
    let p = Biquge1Provider {
        name: "ktshu",
        base_url: "https://www.ktshu.cc",
        search_url: "https://www.ktshu.cc/search.php",
        use_paginated_info: true,
        use_paginated_chapter: true,
    };
    p
}

} // verus!
