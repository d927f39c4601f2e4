//! The bxwx9 site: a biquge-style site of layout 1.

use vstd::prelude::*;

use crate::providers::biquge_common::Biquge1Provider;

verus! {

/// The settings of the bxwx9 site.
pub open spec fn settings() -> Biquge1Provider {
    Biquge1Provider {
        name: "bxwx9",
        base_url: "https://www.bxwx9.org",
        search_url: "https://www.bxwx9.org/search.php",
        use_paginated_info: true,
        use_paginated_chapter: true,
    }
}

/// The bxwx9 site and its settings.
pub fn provider() -> (p: Biquge1Provider)
    ensures
        p == settings(),
        p.name@ == "bxwx9"@,
        p.base_url@ == "https://www.bxwx9.org"@,
        p.search_url@ == "https://www.bxwx9.org/search.php"@,
        p.use_paginated_info,
        p.use_paginated_chapter,
{
    let p = Biquge1Provider {
        name: "bxwx9",
        base_url: "https://www.bxwx9.org",
        search_url: "https://www.bxwx9.org/search.php",
        use_paginated_info: true,
        use_paginated_chapter: true,
    };
    p
}

} // verus!
