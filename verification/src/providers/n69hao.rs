//! The n69hao site: a biquge-style site of layout 3.

use vstd::prelude::*;

use crate::providers::biquge_common::Biquge3Provider;

verus! {

/// The settings of the n69hao site.
pub open spec fn settings() -> Biquge3Provider {
    Biquge3Provider {
        name: "n69hao",
        base_url: "https://www.69hao.com",
        search_url: "",
    }
}

/// The n69hao site and its settings.
pub fn provider() -> (p: Biquge3Provider)
    ensures
        p == settings(),
        p.name@ == "n69hao"@,
        p.base_url@ == "https://www.69hao.com"@,
        p.search_url@ == Seq::<char>::empty(),
{
    proof {
        reveal_strlit("");
    }
    let p = Biquge3Provider {
        name: "n69hao",
        base_url: "https://www.69hao.com",
        search_url: "",
    };
    p
}

} // verus!
