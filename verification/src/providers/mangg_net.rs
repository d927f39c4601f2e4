//! The mangg_net site: a biquge-style site of layout 1.

use vstd::prelude::*;

use crate::providers::biquge_common::Biquge1Provider;

verus! {

/// The settings of the mangg_net site.
pub open spec fn settings() -> Biquge1Provider {
    Biquge1Provider {
        name: "mangg_net",
        base_url: "https://www.mangg.net",
        search_url: "https://www.mangg.net/search.php",
        use_paginated_info: true,
        use_paginated_chapter: true,
    }
}

/// The mangg_net site and its settings.
pub fn provider() -> (p: Biquge1Provider)
    ensures
        p == settings(),
        p.name@ == "mangg_net"@,
        p.base_url@ == "https://www.mangg.net"@,
        p.search_url@ == "https://www.mangg.net/search.php"@,
        p.use_paginated_info,
        p.use_paginated_chapter,
{
    let p = Biquge1Provider {
        name: "mangg_net",
        base_url: "https://www.mangg.net",
        search_url: "https://www.mangg.net/search.php",
        use_paginated_info: true,
        use_paginated_chapter: true,
    };
    p
}

} // verus!
