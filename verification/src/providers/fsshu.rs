//! The fsshu site: a biquge-style site of layout 1.

use vstd::prelude::*;

use crate::providers::biquge_common::Biquge1Provider;

verus! {

/// The settings of the fsshu site.
pub open spec fn settings() -> Biquge1Provider {
    Biquge1Provider {
        name: "fsshu",
        base_url: "https://www.fsshu.com",
        search_url: "https://www.fsshu.com/search.php",
        use_paginated_info: true,
        use_paginated_chapter: true,
    }
}

/// The fsshu site and its settings.
pub fn provider() -> (p: Biquge1Provider)
    ensures
        p == settings(),
        p.name@ == "fsshu"@,
        p.base_url@ == "https://www.fsshu.com"@,
        p.search_url@ == "https://www.fsshu.com/search.php"@,
        p.use_paginated_info,
        p.use_paginated_chapter,
{
    let p = Biquge1Provider {
        name: "fsshu",
        base_url: "https://www.fsshu.com",
        search_url: "https://www.fsshu.com/search.php",
        use_paginated_info: true,
        use_paginated_chapter: true,
    };
    p
}

} // verus!
