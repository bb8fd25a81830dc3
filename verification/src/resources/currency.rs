//! The currencies in which the service settles, by their ISO 4217 codes.

use crate::form::{text, Fields, Params};
use vstd::prelude::*;

verus! {

/// A currency. Each variant is named by its code in upper case.
#[derive(Debug, Clone, Copy, PartialEq, Eq, Structural)]
pub enum Currency {
    AED,
    AFN,
    ALL,
    AMD,
    ANG,
    AOA,
    ARS,
    AUD,
    AWG,
    AZN,
    BAM,
    BBD,
    BDT,
    BGN,
    BIF,
    BMD,
    BND,
    BOB,
    BRL,
    BSD,
    BWP,
    BZD,
    CAD,
    CDF,
    CHF,
    CLP,
    CNY,
    COP,
    CRC,
    CVE,
    CZK,
    DJF,
    DKK,
    DOP,
    DZD,
    EEK,
    EGP,
    ETB,
    EUR,
    FJD,
    FKP,
    GBP,
    GEL,
    GIP,
    GMD,
    GNF,
    GTQ,
    GYD,
    HKD,
    HNL,
    HRK,
    HTG,
    HUF,
    IDR,
    ILS,
    INR,
    ISK,
    JMD,
    JPY,
    KES,
    KGS,
    KHR,
    KMF,
    KRW,
    KYD,
    KZT,
    LAK,
    LBP,
    LKR,
    LRD,
    LSL,
    LTL,
    LVL,
    MAD,
    MDL,
    MGA,
    MKD,
    MNT,
    MOP,
    MRO,
    MUR,
    MVR,
    MWK,
    MXN,
    MYR,
    MZN,
    NAD,
    NGN,
    NIO,
    NOK,
    NPR,
    NZD,
    PAB,
    PEN,
    PGK,
    PHP,
    PKR,
    PLN,
    PYG,
    QAR,
    RON,
    RSD,
    RUB,
    RWF,
    SAR,
    SBD,
    SCR,
    SEK,
    SGD,
    SHP,
    SLL,
    SOS,
    SRD,
    STD,
    SVC,
    SZL,
    THB,
    TJS,
    TOP,
    TRY,
    TTD,
    TWD,
    TZS,
    UAH,
    UGX,
    USD,
    UYU,
    UZS,
    VND,
    VUV,
    WST,
    XAF,
    XCD,
    XOF,
    XPF,
    YER,
    ZAR,
    ZMW,
}

impl Currency {
    /// The code as the service writes it: three lower-case letters.
    pub open spec fn code(self) -> Seq<char> {
        match self {
            Currency::AED => "aed"@,
            Currency::AFN => "afn"@,
            Currency::ALL => "all"@,
            Currency::AMD => "amd"@,
            Currency::ANG => "ang"@,
            Currency::AOA => "aoa"@,
            Currency::ARS => "ars"@,
            Currency::AUD => "aud"@,
            Currency::AWG => "awg"@,
            Currency::AZN => "azn"@,
            Currency::BAM => "bam"@,
            Currency::BBD => "bbd"@,
            Currency::BDT => "bdt"@,
            Currency::BGN => "bgn"@,
            Currency::BIF => "bif"@,
            Currency::BMD => "bmd"@,
            Currency::BND => "bnd"@,
            Currency::BOB => "bob"@,
            Currency::BRL => "brl"@,
            Currency::BSD => "bsd"@,
            Currency::BWP => "bwp"@,
            Currency::BZD => "bzd"@,
            Currency::CAD => "cad"@,
            Currency::CDF => "cdf"@,
            Currency::CHF => "chf"@,
            Currency::CLP => "clp"@,
            Currency::CNY => "cny"@,
            Currency::COP => "cop"@,
            Currency::CRC => "crc"@,
            Currency::CVE => "cve"@,
            Currency::CZK => "czk"@,
            Currency::DJF => "djf"@,
            Currency::DKK => "dkk"@,
            Currency::DOP => "dop"@,
            Currency::DZD => "dzd"@,
            Currency::EEK => "eek"@,
            Currency::EGP => "egp"@,
            Currency::ETB => "etb"@,
            Currency::EUR => "eur"@,
            Currency::FJD => "fjd"@,
            Currency::FKP => "fkp"@,
            Currency::GBP => "gbp"@,
            Currency::GEL => "gel"@,
            Currency::GIP => "gip"@,
            Currency::GMD => "gmd"@,
            Currency::GNF => "gnf"@,
            Currency::GTQ => "gtq"@,
            Currency::GYD => "gyd"@,
            Currency::HKD => "hkd"@,
            Currency::HNL => "hnl"@,
            Currency::HRK => "hrk"@,
            Currency::HTG => "htg"@,
            Currency::HUF => "huf"@,
            Currency::IDR => "idr"@,
            Currency::ILS => "ils"@,
            Currency::INR => "inr"@,
            Currency::ISK => "isk"@,
            Currency::JMD => "jmd"@,
            Currency::JPY => "jpy"@,
            Currency::KES => "kes"@,
            Currency::KGS => "kgs"@,
            Currency::KHR => "khr"@,
            Currency::KMF => "kmf"@,
            Currency::KRW => "krw"@,
            Currency::KYD => "kyd"@,
            Currency::KZT => "kzt"@,
            Currency::LAK => "lak"@,
            Currency::LBP => "lbp"@,
            Currency::LKR => "lkr"@,
            Currency::LRD => "lrd"@,
            Currency::LSL => "lsl"@,
            Currency::LTL => "ltl"@,
            Currency::LVL => "lvl"@,
            Currency::MAD => "mad"@,
            Currency::MDL => "mdl"@,
            Currency::MGA => "mga"@,
            Currency::MKD => "mkd"@,
            Currency::MNT => "mnt"@,
            Currency::MOP => "mop"@,
            Currency::MRO => "mro"@,
            Currency::MUR => "mur"@,
            Currency::MVR => "mvr"@,
            Currency::MWK => "mwk"@,
            Currency::MXN => "mxn"@,
            Currency::MYR => "myr"@,
            Currency::MZN => "mzn"@,
            Currency::NAD => "nad"@,
            Currency::NGN => "ngn"@,
            Currency::NIO => "nio"@,
            Currency::NOK => "nok"@,
            Currency::NPR => "npr"@,
            Currency::NZD => "nzd"@,
            Currency::PAB => "pab"@,
            Currency::PEN => "pen"@,
            Currency::PGK => "pgk"@,
            Currency::PHP => "php"@,
            Currency::PKR => "pkr"@,
            Currency::PLN => "pln"@,
            Currency::PYG => "pyg"@,
            Currency::QAR => "qar"@,
            Currency::RON => "ron"@,
            Currency::RSD => "rsd"@,
            Currency::RUB => "rub"@,
            Currency::RWF => "rwf"@,
            Currency::SAR => "sar"@,
            Currency::SBD => "sbd"@,
            Currency::SCR => "scr"@,
            Currency::SEK => "sek"@,
            Currency::SGD => "sgd"@,
            Currency::SHP => "shp"@,
            Currency::SLL => "sll"@,
            Currency::SOS => "sos"@,
            Currency::SRD => "srd"@,
            Currency::STD => "std"@,
            Currency::SVC => "svc"@,
            Currency::SZL => "szl"@,
            Currency::THB => "thb"@,
            Currency::TJS => "tjs"@,
            Currency::TOP => "top"@,
            Currency::TRY => "try"@,
            Currency::TTD => "ttd"@,
            Currency::TWD => "twd"@,
            Currency::TZS => "tzs"@,
            Currency::UAH => "uah"@,
            Currency::UGX => "ugx"@,
            Currency::USD => "usd"@,
            Currency::UYU => "uyu"@,
            Currency::UZS => "uzs"@,
            Currency::VND => "vnd"@,
            Currency::VUV => "vuv"@,
            Currency::WST => "wst"@,
            Currency::XAF => "xaf"@,
            Currency::XCD => "xcd"@,
            Currency::XOF => "xof"@,
            Currency::XPF => "xpf"@,
            Currency::YER => "yer"@,
            Currency::ZAR => "zar"@,
            Currency::ZMW => "zmw"@,
        }
    }

    /// The code as the service writes it: three lower-case letters.
    pub fn as_str(&self) -> (code: &'static str)
        ensures
            code@ == self.code(),
    {
        match self {
            Currency::AED => "aed",
            Currency::AFN => "afn",
            Currency::ALL => "all",
            Currency::AMD => "amd",
            Currency::ANG => "ang",
            Currency::AOA => "aoa",
            Currency::ARS => "ars",
            Currency::AUD => "aud",
            Currency::AWG => "awg",
            Currency::AZN => "azn",
            Currency::BAM => "bam",
            Currency::BBD => "bbd",
            Currency::BDT => "bdt",
            Currency::BGN => "bgn",
            Currency::BIF => "bif",
            Currency::BMD => "bmd",
            Currency::BND => "bnd",
            Currency::BOB => "bob",
            Currency::BRL => "brl",
            Currency::BSD => "bsd",
            Currency::BWP => "bwp",
            Currency::BZD => "bzd",
            Currency::CAD => "cad",
            Currency::CDF => "cdf",
            Currency::CHF => "chf",
            Currency::CLP => "clp",
            Currency::CNY => "cny",
            Currency::COP => "cop",
            Currency::CRC => "crc",
            Currency::CVE => "cve",
            Currency::CZK => "czk",
            Currency::DJF => "djf",
            Currency::DKK => "dkk",
            Currency::DOP => "dop",
            Currency::DZD => "dzd",
            Currency::EEK => "eek",
            Currency::EGP => "egp",
            Currency::ETB => "etb",
            Currency::EUR => "eur",
            Currency::FJD => "fjd",
            Currency::FKP => "fkp",
            Currency::GBP => "gbp",
            Currency::GEL => "gel",
            Currency::GIP => "gip",
            Currency::GMD => "gmd",
            Currency::GNF => "gnf",
            Currency::GTQ => "gtq",
            Currency::GYD => "gyd",
            Currency::HKD => "hkd",
            Currency::HNL => "hnl",
            Currency::HRK => "hrk",
            Currency::HTG => "htg",
            Currency::HUF => "huf",
            Currency::IDR => "idr",
            Currency::ILS => "ils",
            Currency::INR => "inr",
            Currency::ISK => "isk",
            Currency::JMD => "jmd",
            Currency::JPY => "jpy",
            Currency::KES => "kes",
            Currency::KGS => "kgs",
            Currency::KHR => "khr",
            Currency::KMF => "kmf",
            Currency::KRW => "krw",
            Currency::KYD => "kyd",
            Currency::KZT => "kzt",
            Currency::LAK => "lak",
            Currency::LBP => "lbp",
            Currency::LKR => "lkr",
            Currency::LRD => "lrd",
            Currency::LSL => "lsl",
            Currency::LTL => "ltl",
            Currency::LVL => "lvl",
            Currency::MAD => "mad",
            Currency::MDL => "mdl",
            Currency::MGA => "mga",
            Currency::MKD => "mkd",
            Currency::MNT => "mnt",
            Currency::MOP => "mop",
            Currency::MRO => "mro",
            Currency::MUR => "mur",
            Currency::MVR => "mvr",
            Currency::MWK => "mwk",
            Currency::MXN => "mxn",
            Currency::MYR => "myr",
            Currency::MZN => "mzn",
            Currency::NAD => "nad",
            Currency::NGN => "ngn",
            Currency::NIO => "nio",
            Currency::NOK => "nok",
            Currency::NPR => "npr",
            Currency::NZD => "nzd",
            Currency::PAB => "pab",
            Currency::PEN => "pen",
            Currency::PGK => "pgk",
            Currency::PHP => "php",
            Currency::PKR => "pkr",
            Currency::PLN => "pln",
            Currency::PYG => "pyg",
            Currency::QAR => "qar",
            Currency::RON => "ron",
            Currency::RSD => "rsd",
            Currency::RUB => "rub",
            Currency::RWF => "rwf",
            Currency::SAR => "sar",
            Currency::SBD => "sbd",
            Currency::SCR => "scr",
            Currency::SEK => "sek",
            Currency::SGD => "sgd",
            Currency::SHP => "shp",
            Currency::SLL => "sll",
            Currency::SOS => "sos",
            Currency::SRD => "srd",
            Currency::STD => "std",
            Currency::SVC => "svc",
            Currency::SZL => "szl",
            Currency::THB => "thb",
            Currency::TJS => "tjs",
            Currency::TOP => "top",
            Currency::TRY => "try",
            Currency::TTD => "ttd",
            Currency::TWD => "twd",
            Currency::TZS => "tzs",
            Currency::UAH => "uah",
            Currency::UGX => "ugx",
            Currency::USD => "usd",
            Currency::UYU => "uyu",
            Currency::UZS => "uzs",
            Currency::VND => "vnd",
            Currency::VUV => "vuv",
            Currency::WST => "wst",
            Currency::XAF => "xaf",
            Currency::XCD => "xcd",
            Currency::XOF => "xof",
            Currency::XPF => "xpf",
            Currency::YER => "yer",
            Currency::ZAR => "zar",
            Currency::ZMW => "zmw",
        }
    }
}

/// The field `name` of the structure at `key`, where it has a currency,
/// which is written as its code.
pub open spec fn opt_code(key: Seq<char>, name: Seq<char>, value: Option<Currency>) -> Fields {
    match value {
        Some(currency) => text(key, name, currency.code()),
        None => Seq::empty(),
    }
}

/// Appends the field `name` of the structure at `key` to `out`, if it has a
/// value.
pub fn put_opt_currency(out: &mut Params, key: &str, name: &str, value: Option<Currency>)
    ensures
        final(out)@ == old(out)@ + opt_code(key@, name@, value),
{
    if let Some(currency) = value {
        out.put_str(key, name, currency.as_str());
    }
}

} // verus!
