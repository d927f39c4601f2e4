//! The sites: how their pages are addressed and parsed.

pub mod common;
pub mod biquge_common;
pub mod mangg_search;
pub mod pilibook;
pub mod lnovel;
pub mod faloo;
pub mod linovelib;
pub mod lvsewx;
pub mod sfacg;
pub mod novelpia;
pub mod ciyuanji;
pub mod dushu;
pub mod fanqienovel;
pub mod shaoniandream;
pub mod qidian;
pub mod n8novel;
pub mod piaotia;
pub mod kadokado;
pub mod haiwaishubao;
pub mod ixdzs8;
pub mod n23qb;
pub mod n71ge;
pub mod ciweimao;
pub mod qqbook;
pub mod n37yq;
pub mod ruochu;
pub mod n101kanshu;
pub mod quanben5;
pub mod bixiange;
pub mod hetushu;
pub mod linovel;
pub mod alphapolis;
pub mod guidaye;
pub mod hongxiuzhao;
pub mod kunnu;
pub mod mangg_com;
pub mod akatsuki_novels;
pub mod n17k;
pub mod laoyaoxs;
pub mod qbtr;
pub mod n69shuba;
pub mod dxmwx;
pub mod i25zw;
pub mod b520;
pub mod alicesw;
pub mod jpxs123;
pub mod biquge345;
pub mod esjzone;
pub mod blqudu;
pub mod fsshu;
pub mod ktshu;
pub mod bxwx9;
pub mod mangg_net;
pub mod n23ddw;
pub mod n69hao;

use vstd::prelude::*;

verus! {

use crate::providers::biquge_common::{Biquge1Provider, Biquge2Provider, Biquge3Provider};

/// A site of the downloader's 83-site list whose page rules this library
/// does not hold. Its identifier is known (every site's identifier is its
/// module's name); its address is not, and this library cannot search or
/// read it.
#[derive(Clone, Copy)]
pub enum Unheld {
    Biquge5,
    Biquguo,
    Ciluke,
    N37yue,
    Lewenn,
    Mjyhb,
    Shauthor,
    Czbooks,
    Shuhaige,
    Tongrenquan,
    Tongrenshe,
    Trxs,
    Ttkan,
    Uaa,
    Xiguashuwu,
    Yodu,
    Xshbook,
    Wenku8,
    Shencou,
    Shu111,
    Syosetu,
    Syosetu18,
    SyosetuOrg,
    Tianyabooks,
    Twkan,
    Westnovel,
    WestnovelSub,
    Wxsck,
    Yamibo,
    Yibige,
    Zhenhunxiaoshuo,
}

/// The identifier of a site without page rules.
pub open spec fn unheld_name(u: Unheld) -> Seq<char> {
    match u {
        Unheld::Biquge5 => "biquge5"@,
        Unheld::Biquguo => "biquguo"@,
        Unheld::Ciluke => "ciluke"@,
        Unheld::N37yue => "n37yue"@,
        Unheld::Lewenn => "lewenn"@,
        Unheld::Mjyhb => "mjyhb"@,
        Unheld::Shauthor => "shauthor"@,
        Unheld::Czbooks => "czbooks"@,
        Unheld::Shuhaige => "shuhaige"@,
        Unheld::Tongrenquan => "tongrenquan"@,
        Unheld::Tongrenshe => "tongrenshe"@,
        Unheld::Trxs => "trxs"@,
        Unheld::Ttkan => "ttkan"@,
        Unheld::Uaa => "uaa"@,
        Unheld::Xiguashuwu => "xiguashuwu"@,
        Unheld::Yodu => "yodu"@,
        Unheld::Xshbook => "xshbook"@,
        Unheld::Wenku8 => "wenku8"@,
        Unheld::Shencou => "shencou"@,
        Unheld::Shu111 => "shu111"@,
        Unheld::Syosetu => "syosetu"@,
        Unheld::Syosetu18 => "syosetu18"@,
        Unheld::SyosetuOrg => "syosetu_org"@,
        Unheld::Tianyabooks => "tianyabooks"@,
        Unheld::Twkan => "twkan"@,
        Unheld::Westnovel => "westnovel"@,
        Unheld::WestnovelSub => "westnovel_sub"@,
        Unheld::Wxsck => "wxsck"@,
        Unheld::Yamibo => "yamibo"@,
        Unheld::Yibige => "yibige"@,
        Unheld::Zhenhunxiaoshuo => "zhenhunxiaoshuo"@,
    }
}

impl Unheld {
    /// The site's identifier.
    pub fn name(&self) -> (r: &'static str)
        ensures
            r@ == unheld_name(*self),
    {
        match self {
            Unheld::Biquge5 => "biquge5",
            Unheld::Biquguo => "biquguo",
            Unheld::Ciluke => "ciluke",
            Unheld::N37yue => "n37yue",
            Unheld::Lewenn => "lewenn",
            Unheld::Mjyhb => "mjyhb",
            Unheld::Shauthor => "shauthor",
            Unheld::Czbooks => "czbooks",
            Unheld::Shuhaige => "shuhaige",
            Unheld::Tongrenquan => "tongrenquan",
            Unheld::Tongrenshe => "tongrenshe",
            Unheld::Trxs => "trxs",
            Unheld::Ttkan => "ttkan",
            Unheld::Uaa => "uaa",
            Unheld::Xiguashuwu => "xiguashuwu",
            Unheld::Yodu => "yodu",
            Unheld::Xshbook => "xshbook",
            Unheld::Wenku8 => "wenku8",
            Unheld::Shencou => "shencou",
            Unheld::Shu111 => "shu111",
            Unheld::Syosetu => "syosetu",
            Unheld::Syosetu18 => "syosetu18",
            Unheld::SyosetuOrg => "syosetu_org",
            Unheld::Tianyabooks => "tianyabooks",
            Unheld::Twkan => "twkan",
            Unheld::Westnovel => "westnovel",
            Unheld::WestnovelSub => "westnovel_sub",
            Unheld::Wxsck => "wxsck",
            Unheld::Yamibo => "yamibo",
            Unheld::Yibige => "yibige",
            Unheld::Zhenhunxiaoshuo => "zhenhunxiaoshuo",
        }
    }
}

/// One of the sites of the downloader's list.
#[derive(Clone, Copy)]
pub enum Site {
    /// A biquge-style site of layout 1, with its settings.
    Layout1(Biquge1Provider),
    /// A biquge-style site of layout 2, with its settings.
    Layout2(Biquge2Provider),
    /// A biquge-style site of layout 3, with its settings.
    Layout3(Biquge3Provider),
    Alicesw,
    B520,
    Biquge345,
    Bixiange,
    Ciyuanji,
    Dxmwx,
    Esjzone,
    Haiwaishubao,
    Hetushu,
    I25zw,
    Ixdzs8,
    Jpxs123,
    Laoyaoxs,
    N101kanshu,
    N23qb,
    N37yq,
    N71ge,
    Piaotia,
    Qbtr,
    Quanben5,
    Kadokado,
    N8novel,
    Linovel,
    Qidian,
    Linovelib,
    Sfacg,
    Ciweimao,
    Fanqienovel,
    AkatsukiNovels,
    Alphapolis,
    Dushu,
    Faloo,
    Guidaye,
    Hongxiuzhao,
    Kunnu,
    Lnovel,
    Lvsewx,
    ManggCom,
    Novelpia,
    Pilibook,
    Ruochu,
    Shaoniandream,
    N17k,
    N69shuba,
    Qqbook,
    /// A listed site whose page rules this library does not hold.
    Unheld(Unheld),
}

/// The identifier of a site.
pub open spec fn site_name(s: Site) -> Seq<char> {
    match s {
        Site::Layout1(p) => p.name@,
        Site::Layout2(p) => p.name@,
        Site::Layout3(p) => p.name@,
        Site::Alicesw => "alicesw"@,
        Site::B520 => "b520"@,
        Site::Biquge345 => "biquge345"@,
        Site::Bixiange => "bixiange"@,
        Site::Ciyuanji => "ciyuanji"@,
        Site::Dxmwx => "dxmwx"@,
        Site::Esjzone => "esjzone"@,
        Site::Haiwaishubao => "haiwaishubao"@,
        Site::Hetushu => "hetushu"@,
        Site::I25zw => "i25zw"@,
        Site::Ixdzs8 => "ixdzs8"@,
        Site::Jpxs123 => "jpxs123"@,
        Site::Laoyaoxs => "laoyaoxs"@,
        Site::N101kanshu => "n101kanshu"@,
        Site::N23qb => "n23qb"@,
        Site::N37yq => "n37yq"@,
        Site::N71ge => "n71ge"@,
        Site::Piaotia => "piaotia"@,
        Site::Qbtr => "qbtr"@,
        Site::Quanben5 => "quanben5"@,
        Site::Kadokado => "kadokado"@,
        Site::N8novel => "n8novel"@,
        Site::Linovel => "linovel"@,
        Site::Qidian => "qidian"@,
        Site::Linovelib => "linovelib"@,
        Site::Sfacg => "sfacg"@,
        Site::Ciweimao => "ciweimao"@,
        Site::Fanqienovel => "fanqienovel"@,
        Site::AkatsukiNovels => "akatsuki_novels"@,
        Site::Alphapolis => "alphapolis"@,
        Site::Dushu => "dushu"@,
        Site::Faloo => "faloo"@,
        Site::Guidaye => "guidaye"@,
        Site::Hongxiuzhao => "hongxiuzhao"@,
        Site::Kunnu => "kunnu"@,
        Site::Lnovel => "lnovel"@,
        Site::Lvsewx => "lvsewx"@,
        Site::ManggCom => "mangg_com"@,
        Site::Novelpia => "novelpia"@,
        Site::Pilibook => "pilibook"@,
        Site::Ruochu => "ruochu"@,
        Site::Shaoniandream => "shaoniandream"@,
        Site::N17k => "n17k"@,
        Site::N69shuba => "n69shuba"@,
        Site::Qqbook => "qqbook"@,
        Site::Unheld(u) => unheld_name(u),
    }
}

/// The display name of a site.
pub open spec fn site_display(s: Site) -> Seq<char> {
    match s {
        Site::Layout1(p) => p.name@,
        Site::Layout2(p) => p.name@,
        Site::Layout3(p) => p.name@,
        Site::Alicesw => "爱丽丝书屋"@,
        Site::B520 => "笔趣阁(b520)"@,
        Site::Biquge345 => "笔趣阁(345)"@,
        Site::Bixiange => "笔仙阁"@,
        Site::Ciyuanji => "次元姬"@,
        Site::Dxmwx => "大熊猫文学网"@,
        Site::Esjzone => "ESJ Zone"@,
        Site::Haiwaishubao => "海外书包"@,
        Site::Hetushu => "和图书"@,
        Site::I25zw => "25中文网"@,
        Site::Ixdzs8 => "ixdzs8"@,
        Site::Jpxs123 => "jpxs123"@,
        Site::Laoyaoxs => "laoyaoxs"@,
        Site::N101kanshu => "n101kanshu"@,
        Site::N23qb => "n23qb"@,
        Site::N37yq => "n37yq"@,
        Site::N71ge => "n71ge"@,
        Site::Piaotia => "piaotia"@,
        Site::Qbtr => "qbtr"@,
        Site::Quanben5 => "quanben5"@,
        Site::Kadokado => "KadoKado"@,
        Site::N8novel => "无限轻小说"@,
        Site::Linovel => "轻之文库"@,
        Site::Qidian => "起点中文网"@,
        Site::Linovelib => "哔哩轻小说"@,
        Site::Sfacg => "SF轻小说"@,
        Site::Ciweimao => "刺猬猫"@,
        Site::Fanqienovel => "番茄小说"@,
        Site::AkatsukiNovels => "暁 - Akatsuki Novels"@,
        Site::Alphapolis => "アルファポリス"@,
        Site::Dushu => "读书"@,
        Site::Faloo => "飞卢小说"@,
        Site::Guidaye => "名著阅读"@,
        Site::Hongxiuzhao => "红袖招"@,
        Site::Kunnu => "鲲弩小说"@,
        Site::Lnovel => "轻小说百科"@,
        Site::Lvsewx => "绿色小说网"@,
        Site::ManggCom => "追书网"@,
        Site::Novelpia => "ノベルピア"@,
        Site::Pilibook => "霹雳书屋"@,
        Site::Ruochu => "若初文学网"@,
        Site::Shaoniandream => "少年之梦"@,
        Site::N17k => "17K小说网"@,
        Site::N69shuba => "69书吧"@,
        Site::Qqbook => "QQ阅读"@,
        Site::Unheld(u) => unheld_name(u),
    }
}

/// The address of a site.
pub open spec fn site_base(s: Site) -> Seq<char> {
    match s {
        Site::Layout1(p) => p.base_url@,
        Site::Layout2(p) => p.base_url@,
        Site::Layout3(p) => p.base_url@,
        Site::Alicesw => alicesw::al_base(),
        Site::B520 => b520::b5_base(),
        Site::Biquge345 => biquge345::b3_base(),
        Site::Bixiange => bixiange::bx_base(),
        Site::Ciyuanji => ciyuanji::cy_base(),
        Site::Dxmwx => dxmwx::dx_base(),
        Site::Esjzone => esjzone::ej_base(),
        Site::Haiwaishubao => haiwaishubao::hw_base(),
        Site::Hetushu => hetushu::ht_base(),
        Site::I25zw => i25zw::i25_base(),
        Site::Ixdzs8 => ixdzs8::ix_base(),
        Site::Jpxs123 => jpxs123::jp_base(),
        Site::Laoyaoxs => laoyaoxs::ly_base(),
        Site::N101kanshu => n101kanshu::ks_base(),
        Site::N23qb => n23qb::qb_base(),
        Site::N37yq => n37yq::yq_base(),
        Site::N71ge => n71ge::qy_base(),
        Site::Piaotia => piaotia::pt_base(),
        Site::Qbtr => qbtr::qt_base(),
        Site::Quanben5 => quanben5::qb5_base(),
        Site::Kadokado => kadokado::kd_base(),
        Site::N8novel => n8novel::n8_base(),
        Site::Linovel => linovel::lv2_base(),
        Site::Qidian => qidian::qd_base(),
        Site::Linovelib => linovelib::lib_base(),
        Site::Sfacg => sfacg::sf_base(),
        Site::Ciweimao => ciweimao::cw_base(),
        Site::Fanqienovel => fanqienovel::fq_base(),
        Site::AkatsukiNovels => akatsuki_novels::ak_base(),
        Site::Alphapolis => alphapolis::ap_base(),
        Site::Dushu => dushu::du_base(),
        Site::Faloo => faloo::faloo_base(),
        Site::Guidaye => guidaye::gd_base(),
        Site::Hongxiuzhao => hongxiuzhao::hx_base(),
        Site::Kunnu => kunnu::kn_base(),
        Site::Lnovel => lnovel::ln_base(),
        Site::Lvsewx => lvsewx::lv_base(),
        Site::ManggCom => mangg_com::mc_base(),
        Site::Novelpia => novelpia::np_base(),
        Site::Pilibook => pilibook::pili_base(),
        Site::Ruochu => ruochu::rc_base(),
        Site::Shaoniandream => shaoniandream::sd_base(),
        Site::N17k => n17k::k17_base(),
        Site::N69shuba => n69shuba::s69_base(),
        Site::Qqbook => qqbook::qq_base(),
        Site::Unheld(_) => Seq::empty(),
    }
}

/// Whether a site has a search.
pub open spec fn site_search(s: Site) -> bool {
    match s {
        Site::Layout1(p) => p.search_url@.len() > 0,
        Site::Layout2(p) => false,
        Site::Layout3(p) => p.search_url@.len() > 0,
        Site::Alicesw => true,
        Site::B520 => true,
        Site::Biquge345 => true,
        Site::Bixiange => true,
        Site::Ciyuanji => true,
        Site::Dxmwx => true,
        Site::Esjzone => true,
        Site::Haiwaishubao => true,
        Site::Hetushu => true,
        Site::I25zw => true,
        Site::Ixdzs8 => true,
        Site::Jpxs123 => true,
        Site::Laoyaoxs => true,
        Site::N101kanshu => true,
        Site::N23qb => true,
        Site::N37yq => true,
        Site::N71ge => true,
        Site::Piaotia => true,
        Site::Qbtr => true,
        Site::Quanben5 => true,
        Site::Kadokado => true,
        Site::N8novel => true,
        Site::Linovel => true,
        Site::Qidian => true,
        Site::Linovelib => false,
        Site::Sfacg => false,
        Site::Ciweimao => false,
        Site::Fanqienovel => false,
        Site::AkatsukiNovels => false,
        Site::Alphapolis => false,
        Site::Dushu => false,
        Site::Faloo => false,
        Site::Guidaye => false,
        Site::Hongxiuzhao => false,
        Site::Kunnu => false,
        Site::Lnovel => false,
        Site::Lvsewx => false,
        Site::ManggCom => false,
        Site::Novelpia => false,
        Site::Pilibook => false,
        Site::Ruochu => false,
        Site::Shaoniandream => false,
        Site::N17k => false,
        Site::N69shuba => false,
        Site::Qqbook => false,
        Site::Unheld(_) => false,
    }
}

/// Every site of the downloader's list, in its order: 83 sites. For 52 of
/// them this library holds the page rules. The other 31 (biquge5, biquguo,
/// ciluke, n37yue, lewenn, mjyhb, shauthor, czbooks, shuhaige, tongrenquan,
/// tongrenshe, trxs, ttkan, uaa, xiguashuwu, yodu, xshbook, wenku8, shencou,
/// shu111, syosetu, syosetu18, syosetu_org, tianyabooks, twkan, westnovel,
/// westnovel_sub, wxsck, yamibo, yibige, zhenhunxiaoshuo) stand in their
/// places as [`Site::Unheld`]: with their identifier, which here also
/// serves as their display name; with an empty address, which is not known
/// here; and as not searchable here.
pub open spec fn all_sites() -> Seq<Site> {
    seq![
        Site::Unheld(Unheld::Biquge5),
        Site::Unheld(Unheld::Biquguo),
        Site::Layout1(bxwx9::settings()),
        Site::Unheld(Unheld::Ciluke),
        Site::Layout1(fsshu::settings()),
        Site::Layout1(ktshu::settings()),
        Site::Unheld(Unheld::N37yue),
        Site::Layout1(mangg_net::settings()),
        Site::Layout2(blqudu::settings()),
        Site::Unheld(Unheld::Lewenn),
        Site::Layout3(n23ddw::settings()),
        Site::Layout3(n69hao::settings()),
        Site::Unheld(Unheld::Mjyhb),
        Site::Unheld(Unheld::Shauthor),
        Site::Alicesw,
        Site::B520,
        Site::Biquge345,
        Site::Bixiange,
        Site::Ciyuanji,
        Site::Unheld(Unheld::Czbooks),
        Site::Dxmwx,
        Site::Esjzone,
        Site::Haiwaishubao,
        Site::Hetushu,
        Site::I25zw,
        Site::Ixdzs8,
        Site::Jpxs123,
        Site::Laoyaoxs,
        Site::N101kanshu,
        Site::N23qb,
        Site::N37yq,
        Site::N71ge,
        Site::Piaotia,
        Site::Qbtr,
        Site::Quanben5,
        Site::Unheld(Unheld::Shuhaige),
        Site::Unheld(Unheld::Tongrenquan),
        Site::Unheld(Unheld::Tongrenshe),
        Site::Unheld(Unheld::Trxs),
        Site::Unheld(Unheld::Ttkan),
        Site::Unheld(Unheld::Uaa),
        Site::Unheld(Unheld::Xiguashuwu),
        Site::Unheld(Unheld::Yodu),
        Site::Unheld(Unheld::Xshbook),
        Site::Kadokado,
        Site::N8novel,
        Site::Linovel,
        Site::Qidian,
        Site::Linovelib,
        Site::Unheld(Unheld::Wenku8),
        Site::Sfacg,
        Site::Ciweimao,
        Site::Fanqienovel,
        Site::AkatsukiNovels,
        Site::Alphapolis,
        Site::Dushu,
        Site::Faloo,
        Site::Guidaye,
        Site::Hongxiuzhao,
        Site::Kunnu,
        Site::Lnovel,
        Site::Lvsewx,
        Site::ManggCom,
        Site::Novelpia,
        Site::Pilibook,
        Site::Ruochu,
        Site::Shaoniandream,
        Site::Unheld(Unheld::Shencou),
        Site::Unheld(Unheld::Shu111),
        Site::Unheld(Unheld::Syosetu),
        Site::Unheld(Unheld::Syosetu18),
        Site::Unheld(Unheld::SyosetuOrg),
        Site::Unheld(Unheld::Tianyabooks),
        Site::Unheld(Unheld::Twkan),
        Site::Unheld(Unheld::Westnovel),
        Site::Unheld(Unheld::WestnovelSub),
        Site::Unheld(Unheld::Wxsck),
        Site::Unheld(Unheld::Yamibo),
        Site::Unheld(Unheld::Yibige),
        Site::Unheld(Unheld::Zhenhunxiaoshuo),
        Site::N17k,
        Site::N69shuba,
        Site::Qqbook,
    ]
}

impl Site {
    /// The site's identifier.
    pub fn name(&self) -> (r: &'static str)
        ensures
            r@ == site_name(*self),
    {
        match self {
            Site::Layout1(p) => p.name(),
            Site::Layout2(p) => p.name(),
            Site::Layout3(p) => p.name(),
            Site::Alicesw => alicesw::AliceswProvider.name(),
            Site::B520 => b520::B520Provider.name(),
            Site::Biquge345 => biquge345::Biquge345Provider.name(),
            Site::Bixiange => bixiange::BixiangeProvider.name(),
            Site::Ciyuanji => ciyuanji::CiyuanjiProvider.name(),
            Site::Dxmwx => dxmwx::DxmwxProvider.name(),
            Site::Esjzone => esjzone::EsjzoneProvider.name(),
            Site::Haiwaishubao => haiwaishubao::HaiwaishubaoProvider.name(),
            Site::Hetushu => hetushu::HetushuProvider.name(),
            Site::I25zw => i25zw::I25zwProvider.name(),
            Site::Ixdzs8 => ixdzs8::Ixdzs8Provider.name(),
            Site::Jpxs123 => jpxs123::Jpxs123Provider.name(),
            Site::Laoyaoxs => laoyaoxs::LaoyaoxsProvider.name(),
            Site::N101kanshu => n101kanshu::N101kanshuProvider.name(),
            Site::N23qb => n23qb::N23qbProvider.name(),
            Site::N37yq => n37yq::N37yqProvider.name(),
            Site::N71ge => n71ge::N71geProvider.name(),
            Site::Piaotia => piaotia::PiaotiaProvider.name(),
            Site::Qbtr => qbtr::QbtrProvider.name(),
            Site::Quanben5 => quanben5::Quanben5Provider.name(),
            Site::Kadokado => kadokado::KadokadoProvider.name(),
            Site::N8novel => n8novel::N8novelProvider.name(),
            Site::Linovel => linovel::LinovelProvider.name(),
            Site::Qidian => qidian::QidianProvider.name(),
            Site::Linovelib => linovelib::LinovelibProvider.name(),
            Site::Sfacg => sfacg::SfacgProvider.name(),
            Site::Ciweimao => ciweimao::CiweimaoProvider.name(),
            Site::Fanqienovel => fanqienovel::FanqienovelProvider.name(),
            Site::AkatsukiNovels => akatsuki_novels::AkatsukiNovelsProvider.name(),
            Site::Alphapolis => alphapolis::AlphapolisProvider.name(),
            Site::Dushu => dushu::DushuProvider.name(),
            Site::Faloo => faloo::FalooProvider.name(),
            Site::Guidaye => guidaye::GuidayeProvider.name(),
            Site::Hongxiuzhao => hongxiuzhao::HongxiuzhaoProvider.name(),
            Site::Kunnu => kunnu::KunnuProvider.name(),
            Site::Lnovel => lnovel::LnovelProvider.name(),
            Site::Lvsewx => lvsewx::LvsewxProvider.name(),
            Site::ManggCom => mangg_com::ManggComProvider.name(),
            Site::Novelpia => novelpia::NovelpiaProvider.name(),
            Site::Pilibook => pilibook::PilibookProvider.name(),
            Site::Ruochu => ruochu::RuochuProvider.name(),
            Site::Shaoniandream => shaoniandream::ShaoniandreamProvider.name(),
            Site::N17k => n17k::N17kProvider.name(),
            Site::N69shuba => n69shuba::N69shubaProvider.name(),
            Site::Qqbook => qqbook::QqbookProvider.name(),
            Site::Unheld(u) => u.name(),
        }
    }

    /// The site's display name.
    pub fn display_name(&self) -> (r: &'static str)
        ensures
            r@ == site_display(*self),
    {
        match self {
            Site::Layout1(p) => p.name(),
            Site::Layout2(p) => p.name(),
            Site::Layout3(p) => p.name(),
            Site::Alicesw => alicesw::AliceswProvider.display_name(),
            Site::B520 => b520::B520Provider.display_name(),
            Site::Biquge345 => biquge345::Biquge345Provider.display_name(),
            Site::Bixiange => bixiange::BixiangeProvider.display_name(),
            Site::Ciyuanji => ciyuanji::CiyuanjiProvider.display_name(),
            Site::Dxmwx => dxmwx::DxmwxProvider.display_name(),
            Site::Esjzone => esjzone::EsjzoneProvider.display_name(),
            Site::Haiwaishubao => haiwaishubao::HaiwaishubaoProvider.display_name(),
            Site::Hetushu => hetushu::HetushuProvider.display_name(),
            Site::I25zw => i25zw::I25zwProvider.display_name(),
            Site::Ixdzs8 => ixdzs8::Ixdzs8Provider.display_name(),
            Site::Jpxs123 => jpxs123::Jpxs123Provider.display_name(),
            Site::Laoyaoxs => laoyaoxs::LaoyaoxsProvider.display_name(),
            Site::N101kanshu => n101kanshu::N101kanshuProvider.display_name(),
            Site::N23qb => n23qb::N23qbProvider.display_name(),
            Site::N37yq => n37yq::N37yqProvider.display_name(),
            Site::N71ge => n71ge::N71geProvider.display_name(),
            Site::Piaotia => piaotia::PiaotiaProvider.display_name(),
            Site::Qbtr => qbtr::QbtrProvider.display_name(),
            Site::Quanben5 => quanben5::Quanben5Provider.display_name(),
            Site::Kadokado => kadokado::KadokadoProvider.display_name(),
            Site::N8novel => n8novel::N8novelProvider.display_name(),
            Site::Linovel => linovel::LinovelProvider.display_name(),
            Site::Qidian => qidian::QidianProvider.display_name(),
            Site::Linovelib => linovelib::LinovelibProvider.display_name(),
            Site::Sfacg => sfacg::SfacgProvider.display_name(),
            Site::Ciweimao => ciweimao::CiweimaoProvider.display_name(),
            Site::Fanqienovel => fanqienovel::FanqienovelProvider.display_name(),
            Site::AkatsukiNovels => akatsuki_novels::AkatsukiNovelsProvider.display_name(),
            Site::Alphapolis => alphapolis::AlphapolisProvider.display_name(),
            Site::Dushu => dushu::DushuProvider.display_name(),
            Site::Faloo => faloo::FalooProvider.display_name(),
            Site::Guidaye => guidaye::GuidayeProvider.display_name(),
            Site::Hongxiuzhao => hongxiuzhao::HongxiuzhaoProvider.display_name(),
            Site::Kunnu => kunnu::KunnuProvider.display_name(),
            Site::Lnovel => lnovel::LnovelProvider.display_name(),
            Site::Lvsewx => lvsewx::LvsewxProvider.display_name(),
            Site::ManggCom => mangg_com::ManggComProvider.display_name(),
            Site::Novelpia => novelpia::NovelpiaProvider.display_name(),
            Site::Pilibook => pilibook::PilibookProvider.display_name(),
            Site::Ruochu => ruochu::RuochuProvider.display_name(),
            Site::Shaoniandream => shaoniandream::ShaoniandreamProvider.display_name(),
            Site::N17k => n17k::N17kProvider.display_name(),
            Site::N69shuba => n69shuba::N69shubaProvider.display_name(),
            Site::Qqbook => qqbook::QqbookProvider.display_name(),
            Site::Unheld(u) => u.name(),
        }
    }

    /// The site's address.
    pub fn base_url(&self) -> (r: &'static str)
        ensures
            r@ == site_base(*self),
    {
        match self {
            Site::Layout1(p) => p.base_url(),
            Site::Layout2(p) => p.base_url(),
            Site::Layout3(p) => p.base_url(),
            Site::Alicesw => alicesw::AliceswProvider.base_url(),
            Site::B520 => b520::B520Provider.base_url(),
            Site::Biquge345 => biquge345::Biquge345Provider.base_url(),
            Site::Bixiange => bixiange::BixiangeProvider.base_url(),
            Site::Ciyuanji => ciyuanji::CiyuanjiProvider.base_url(),
            Site::Dxmwx => dxmwx::DxmwxProvider.base_url(),
            Site::Esjzone => esjzone::EsjzoneProvider.base_url(),
            Site::Haiwaishubao => haiwaishubao::HaiwaishubaoProvider.base_url(),
            Site::Hetushu => hetushu::HetushuProvider.base_url(),
            Site::I25zw => i25zw::I25zwProvider.base_url(),
            Site::Ixdzs8 => ixdzs8::Ixdzs8Provider.base_url(),
            Site::Jpxs123 => jpxs123::Jpxs123Provider.base_url(),
            Site::Laoyaoxs => laoyaoxs::LaoyaoxsProvider.base_url(),
            Site::N101kanshu => n101kanshu::N101kanshuProvider.base_url(),
            Site::N23qb => n23qb::N23qbProvider.base_url(),
            Site::N37yq => n37yq::N37yqProvider.base_url(),
            Site::N71ge => n71ge::N71geProvider.base_url(),
            Site::Piaotia => piaotia::PiaotiaProvider.base_url(),
            Site::Qbtr => qbtr::QbtrProvider.base_url(),
            Site::Quanben5 => quanben5::Quanben5Provider.base_url(),
            Site::Kadokado => kadokado::KadokadoProvider.base_url(),
            Site::N8novel => n8novel::N8novelProvider.base_url(),
            Site::Linovel => linovel::LinovelProvider.base_url(),
            Site::Qidian => qidian::QidianProvider.base_url(),
            Site::Linovelib => linovelib::LinovelibProvider.base_url(),
            Site::Sfacg => sfacg::SfacgProvider.base_url(),
            Site::Ciweimao => ciweimao::CiweimaoProvider.base_url(),
            Site::Fanqienovel => fanqienovel::FanqienovelProvider.base_url(),
            Site::AkatsukiNovels => akatsuki_novels::AkatsukiNovelsProvider.base_url(),
            Site::Alphapolis => alphapolis::AlphapolisProvider.base_url(),
            Site::Dushu => dushu::DushuProvider.base_url(),
            Site::Faloo => faloo::FalooProvider.base_url(),
            Site::Guidaye => guidaye::GuidayeProvider.base_url(),
            Site::Hongxiuzhao => hongxiuzhao::HongxiuzhaoProvider.base_url(),
            Site::Kunnu => kunnu::KunnuProvider.base_url(),
            Site::Lnovel => lnovel::LnovelProvider.base_url(),
            Site::Lvsewx => lvsewx::LvsewxProvider.base_url(),
            Site::ManggCom => mangg_com::ManggComProvider.base_url(),
            Site::Novelpia => novelpia::NovelpiaProvider.base_url(),
            Site::Pilibook => pilibook::PilibookProvider.base_url(),
            Site::Ruochu => ruochu::RuochuProvider.base_url(),
            Site::Shaoniandream => shaoniandream::ShaoniandreamProvider.base_url(),
            Site::N17k => n17k::N17kProvider.base_url(),
            Site::N69shuba => n69shuba::N69shubaProvider.base_url(),
            Site::Qqbook => qqbook::QqbookProvider.base_url(),
            Site::Unheld(_) => {
                proof {
                    reveal_strlit("");
                }
                assert(""@ =~= Seq::<char>::empty());
                ""
            },
        }
    }

    /// Whether the site has a search.
    pub fn supports_search(&self) -> (r: bool)
        ensures
            r == site_search(*self),
    {
        match self {
            Site::Layout1(p) => p.supports_search(),
            Site::Layout2(p) => false,
            Site::Layout3(p) => p.supports_search(),
            Site::Alicesw => alicesw::AliceswProvider.supports_search(),
            Site::B520 => b520::B520Provider.supports_search(),
            Site::Biquge345 => biquge345::Biquge345Provider.supports_search(),
            Site::Bixiange => bixiange::BixiangeProvider.supports_search(),
            Site::Ciyuanji => ciyuanji::CiyuanjiProvider.supports_search(),
            Site::Dxmwx => dxmwx::DxmwxProvider.supports_search(),
            Site::Esjzone => esjzone::EsjzoneProvider.supports_search(),
            Site::Haiwaishubao => haiwaishubao::HaiwaishubaoProvider.supports_search(),
            Site::Hetushu => hetushu::HetushuProvider.supports_search(),
            Site::I25zw => i25zw::I25zwProvider.supports_search(),
            Site::Ixdzs8 => ixdzs8::Ixdzs8Provider.supports_search(),
            Site::Jpxs123 => jpxs123::Jpxs123Provider.supports_search(),
            Site::Laoyaoxs => laoyaoxs::LaoyaoxsProvider.supports_search(),
            Site::N101kanshu => n101kanshu::N101kanshuProvider.supports_search(),
            Site::N23qb => n23qb::N23qbProvider.supports_search(),
            Site::N37yq => n37yq::N37yqProvider.supports_search(),
            Site::N71ge => n71ge::N71geProvider.supports_search(),
            Site::Piaotia => piaotia::PiaotiaProvider.supports_search(),
            Site::Qbtr => qbtr::QbtrProvider.supports_search(),
            Site::Quanben5 => quanben5::Quanben5Provider.supports_search(),
            Site::Kadokado => kadokado::KadokadoProvider.supports_search(),
            Site::N8novel => n8novel::N8novelProvider.supports_search(),
            Site::Linovel => linovel::LinovelProvider.supports_search(),
            Site::Qidian => qidian::QidianProvider.supports_search(),
            Site::Linovelib => false,
            Site::Sfacg => false,
            Site::Ciweimao => false,
            Site::Fanqienovel => false,
            Site::AkatsukiNovels => akatsuki_novels::AkatsukiNovelsProvider.supports_search(),
            Site::Alphapolis => alphapolis::AlphapolisProvider.supports_search(),
            Site::Dushu => false,
            Site::Faloo => false,
            Site::Guidaye => guidaye::GuidayeProvider.supports_search(),
            Site::Hongxiuzhao => hongxiuzhao::HongxiuzhaoProvider.supports_search(),
            Site::Kunnu => kunnu::KunnuProvider.supports_search(),
            Site::Lnovel => false,
            Site::Lvsewx => false,
            Site::ManggCom => mangg_com::ManggComProvider.supports_search(),
            Site::Novelpia => false,
            Site::Pilibook => false,
            Site::Ruochu => false,
            Site::Shaoniandream => false,
            Site::N17k => n17k::N17kProvider.supports_search(),
            Site::N69shuba => n69shuba::N69shubaProvider.supports_search(),
            Site::Qqbook => false,
            Site::Unheld(_) => false,
        }
    }
}

/// Every site of the downloader's list, in its order: the 83 of
/// [`all_sites`] (see there for the 31 whose page rules are not held).
pub fn get_all_providers() -> (r: Vec<Site>)
    ensures
        r@ == all_sites(),
{
    let r = vec![
        Site::Unheld(Unheld::Biquge5),
        Site::Unheld(Unheld::Biquguo),
        Site::Layout1(bxwx9::provider()),
        Site::Unheld(Unheld::Ciluke),
        Site::Layout1(fsshu::provider()),
        Site::Layout1(ktshu::provider()),
        Site::Unheld(Unheld::N37yue),
        Site::Layout1(mangg_net::provider()),
        Site::Layout2(blqudu::provider()),
        Site::Unheld(Unheld::Lewenn),
        Site::Layout3(n23ddw::provider()),
        Site::Layout3(n69hao::provider()),
        Site::Unheld(Unheld::Mjyhb),
        Site::Unheld(Unheld::Shauthor),
        Site::Alicesw,
        Site::B520,
        Site::Biquge345,
        Site::Bixiange,
        Site::Ciyuanji,
        Site::Unheld(Unheld::Czbooks),
        Site::Dxmwx,
        Site::Esjzone,
        Site::Haiwaishubao,
        Site::Hetushu,
        Site::I25zw,
        Site::Ixdzs8,
        Site::Jpxs123,
        Site::Laoyaoxs,
        Site::N101kanshu,
        Site::N23qb,
        Site::N37yq,
        Site::N71ge,
        Site::Piaotia,
        Site::Qbtr,
        Site::Quanben5,
        Site::Unheld(Unheld::Shuhaige),
        Site::Unheld(Unheld::Tongrenquan),
        Site::Unheld(Unheld::Tongrenshe),
        Site::Unheld(Unheld::Trxs),
        Site::Unheld(Unheld::Ttkan),
        Site::Unheld(Unheld::Uaa),
        Site::Unheld(Unheld::Xiguashuwu),
        Site::Unheld(Unheld::Yodu),
        Site::Unheld(Unheld::Xshbook),
        Site::Kadokado,
        Site::N8novel,
        Site::Linovel,
        Site::Qidian,
        Site::Linovelib,
        Site::Unheld(Unheld::Wenku8),
        Site::Sfacg,
        Site::Ciweimao,
        Site::Fanqienovel,
        Site::AkatsukiNovels,
        Site::Alphapolis,
        Site::Dushu,
        Site::Faloo,
        Site::Guidaye,
        Site::Hongxiuzhao,
        Site::Kunnu,
        Site::Lnovel,
        Site::Lvsewx,
        Site::ManggCom,
        Site::Novelpia,
        Site::Pilibook,
        Site::Ruochu,
        Site::Shaoniandream,
        Site::Unheld(Unheld::Shencou),
        Site::Unheld(Unheld::Shu111),
        Site::Unheld(Unheld::Syosetu),
        Site::Unheld(Unheld::Syosetu18),
        Site::Unheld(Unheld::SyosetuOrg),
        Site::Unheld(Unheld::Tianyabooks),
        Site::Unheld(Unheld::Twkan),
        Site::Unheld(Unheld::Westnovel),
        Site::Unheld(Unheld::WestnovelSub),
        Site::Unheld(Unheld::Wxsck),
        Site::Unheld(Unheld::Yamibo),
        Site::Unheld(Unheld::Yibige),
        Site::Unheld(Unheld::Zhenhunxiaoshuo),
        Site::N17k,
        Site::N69shuba,
        Site::Qqbook,
    ];
    assert(r@ =~= all_sites());
    r
}

} // verus!
