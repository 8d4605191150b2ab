use vstd::prelude::*;
use crate::text::{decimal, parse_unsigned, parse_unsigned_range, chars_of, push_decimal, str_eq, all_digits, digits_value, is_digit};
use crate::meta::{MyColor, color_rgb, rgb_with, channel_of};

verus! {

/// One of the three channels of an RGB color.
#[derive(Debug, Clone, Copy, PartialEq, Eq, Structural)]
pub enum Color_channel {
    R,
    G,
    B,
}

pub open spec fn channel_next(c: Color_channel) -> Color_channel {
    match c {
        Color_channel::R => Color_channel::G,
        Color_channel::G => Color_channel::B,
        Color_channel::B => Color_channel::R,
    }
}

pub open spec fn channel_prev(c: Color_channel) -> Color_channel {
    match c {
        Color_channel::R => Color_channel::B,
        Color_channel::G => Color_channel::R,
        Color_channel::B => Color_channel::G,
    }
}

impl Color_channel {
    /// R, then G, then B, then R again.
    pub fn next(self) -> (r: Color_channel)
        ensures
            r == channel_next(self),
    {
        match self {
            Color_channel::R => Color_channel::G,
            Color_channel::G => Color_channel::B,
            Color_channel::B => Color_channel::R,
        }
    }

    /// The reverse of `next`.
    pub fn prev(self) -> (r: Color_channel)
        ensures
            r == channel_prev(self),
    {
        match self {
            Color_channel::R => Color_channel::B,
            Color_channel::G => Color_channel::R,
            Color_channel::B => Color_channel::G,
        }
    }
}

/// `prev` undoes `next` and `next` undoes `prev`; three steps go all the way round.
pub proof fn lemma_channel_cycle(c: Color_channel)
    ensures
        channel_prev(channel_next(c)) == c,
        channel_next(channel_prev(c)) == c,
        channel_next(channel_next(channel_next(c))) == c,
{
}


// ------------------------------------------------------------------------
// Currencies
// ------------------------------------------------------------------------

/// The currencies amounts can be shown in.
#[derive(Debug, Hash, PartialEq, Eq, Clone, Copy, Structural)]
pub enum Currency {
    USD,
    EUR,
    GBP,
    INR,
    JPY,
    CNY,
    AUD,
    CAD,
    CHF,
    SEK,
    NOK,
    DKK,
    NZD,
    SGD,
    HKD,
    KRW,
    TWD,
    THB,
    MYR,
    IDR,
    PHP,
    VND,
    PKR,
    BDT,
    LKR,
    NPR,
    AED,
    SAR,
    QAR,
    KWD,
    BHD,
    OMR,
    ILS,
    TRY,
    RUB,
    UAH,
    PLN,
    CZK,
    HUF,
    RON,
    BGN,
    HRK,
    RSD,
    MXN,
    BRL,
    ARS,
    CLP,
    COP,
    PEN,
    ZAR,
    NGN,
    EGP,
    MAD,
    KES,
    ETB,
}

/// The currency an ISO 4217 code names, among those supported.
pub open spec fn currency_from_code(s: Seq<char>) -> Option<Currency> {
    if s == "USD"@ {
        Some(Currency::USD)
    } else if s == "EUR"@ {
        Some(Currency::EUR)
    } else if s == "GBP"@ {
        Some(Currency::GBP)
    } else if s == "INR"@ {
        Some(Currency::INR)
    } else if s == "JPY"@ {
        Some(Currency::JPY)
    } else if s == "CNY"@ {
        Some(Currency::CNY)
    } else if s == "AUD"@ {
        Some(Currency::AUD)
    } else if s == "CAD"@ {
        Some(Currency::CAD)
    } else if s == "CHF"@ {
        Some(Currency::CHF)
    } else if s == "SEK"@ {
        Some(Currency::SEK)
    } else if s == "NOK"@ {
        Some(Currency::NOK)
    } else if s == "DKK"@ {
        Some(Currency::DKK)
    } else if s == "NZD"@ {
        Some(Currency::NZD)
    } else if s == "SGD"@ {
        Some(Currency::SGD)
    } else if s == "HKD"@ {
        Some(Currency::HKD)
    } else if s == "KRW"@ {
        Some(Currency::KRW)
    } else if s == "TWD"@ {
        Some(Currency::TWD)
    } else if s == "THB"@ {
        Some(Currency::THB)
    } else if s == "MYR"@ {
        Some(Currency::MYR)
    } else if s == "IDR"@ {
        Some(Currency::IDR)
    } else if s == "PHP"@ {
        Some(Currency::PHP)
    } else if s == "VND"@ {
        Some(Currency::VND)
    } else if s == "PKR"@ {
        Some(Currency::PKR)
    } else if s == "BDT"@ {
        Some(Currency::BDT)
    } else if s == "LKR"@ {
        Some(Currency::LKR)
    } else if s == "NPR"@ {
        Some(Currency::NPR)
    } else if s == "AED"@ {
        Some(Currency::AED)
    } else if s == "SAR"@ {
        Some(Currency::SAR)
    } else if s == "QAR"@ {
        Some(Currency::QAR)
    } else if s == "KWD"@ {
        Some(Currency::KWD)
    } else if s == "BHD"@ {
        Some(Currency::BHD)
    } else if s == "OMR"@ {
        Some(Currency::OMR)
    } else if s == "ILS"@ {
        Some(Currency::ILS)
    } else if s == "TRY"@ {
        Some(Currency::TRY)
    } else if s == "RUB"@ {
        Some(Currency::RUB)
    } else if s == "UAH"@ {
        Some(Currency::UAH)
    } else if s == "PLN"@ {
        Some(Currency::PLN)
    } else if s == "CZK"@ {
        Some(Currency::CZK)
    } else if s == "HUF"@ {
        Some(Currency::HUF)
    } else if s == "RON"@ {
        Some(Currency::RON)
    } else if s == "BGN"@ {
        Some(Currency::BGN)
    } else if s == "HRK"@ {
        Some(Currency::HRK)
    } else if s == "RSD"@ {
        Some(Currency::RSD)
    } else if s == "MXN"@ {
        Some(Currency::MXN)
    } else if s == "BRL"@ {
        Some(Currency::BRL)
    } else if s == "ARS"@ {
        Some(Currency::ARS)
    } else if s == "CLP"@ {
        Some(Currency::CLP)
    } else if s == "COP"@ {
        Some(Currency::COP)
    } else if s == "PEN"@ {
        Some(Currency::PEN)
    } else if s == "ZAR"@ {
        Some(Currency::ZAR)
    } else if s == "NGN"@ {
        Some(Currency::NGN)
    } else if s == "EGP"@ {
        Some(Currency::EGP)
    } else if s == "MAD"@ {
        Some(Currency::MAD)
    } else if s == "KES"@ {
        Some(Currency::KES)
    } else if s == "ETB"@ {
        Some(Currency::ETB)
    } else {
        None
    }
}

impl Default for Currency {
    fn default() -> (c: Currency)
        ensures
            c == Currency::INR,
    {
        Currency::INR
    }
}

pub open spec fn currency_next(c: Currency) -> Currency {
    match c {
        Currency::USD => Currency::EUR,
        Currency::EUR => Currency::GBP,
        Currency::GBP => Currency::INR,
        Currency::INR => Currency::JPY,
        Currency::JPY => Currency::CNY,
        Currency::CNY => Currency::AUD,
        Currency::AUD => Currency::CAD,
        Currency::CAD => Currency::CHF,
        Currency::CHF => Currency::SEK,
        Currency::SEK => Currency::NOK,
        Currency::NOK => Currency::DKK,
        Currency::DKK => Currency::NZD,
        Currency::NZD => Currency::SGD,
        Currency::SGD => Currency::HKD,
        Currency::HKD => Currency::KRW,
        Currency::KRW => Currency::TWD,
        Currency::TWD => Currency::THB,
        Currency::THB => Currency::MYR,
        Currency::MYR => Currency::IDR,
        Currency::IDR => Currency::PHP,
        Currency::PHP => Currency::VND,
        Currency::VND => Currency::PKR,
        Currency::PKR => Currency::BDT,
        Currency::BDT => Currency::LKR,
        Currency::LKR => Currency::NPR,
        Currency::NPR => Currency::AED,
        Currency::AED => Currency::SAR,
        Currency::SAR => Currency::QAR,
        Currency::QAR => Currency::KWD,
        Currency::KWD => Currency::BHD,
        Currency::BHD => Currency::OMR,
        Currency::OMR => Currency::ILS,
        Currency::ILS => Currency::TRY,
        Currency::TRY => Currency::RUB,
        Currency::RUB => Currency::UAH,
        Currency::UAH => Currency::PLN,
        Currency::PLN => Currency::CZK,
        Currency::CZK => Currency::HUF,
        Currency::HUF => Currency::RON,
        Currency::RON => Currency::BGN,
        Currency::BGN => Currency::HRK,
        Currency::HRK => Currency::RSD,
        Currency::RSD => Currency::MXN,
        Currency::MXN => Currency::BRL,
        Currency::BRL => Currency::ARS,
        Currency::ARS => Currency::CLP,
        Currency::CLP => Currency::COP,
        Currency::COP => Currency::PEN,
        Currency::PEN => Currency::ZAR,
        Currency::ZAR => Currency::NGN,
        Currency::NGN => Currency::EGP,
        Currency::EGP => Currency::MAD,
        Currency::MAD => Currency::KES,
        Currency::KES => Currency::ETB,
        Currency::ETB => Currency::USD,
    }
}

pub open spec fn currency_prev(c: Currency) -> Currency {
    match c {
        Currency::USD => Currency::ETB,
        Currency::EUR => Currency::USD,
        Currency::GBP => Currency::EUR,
        Currency::INR => Currency::GBP,
        Currency::JPY => Currency::INR,
        Currency::CNY => Currency::JPY,
        Currency::AUD => Currency::CNY,
        Currency::CAD => Currency::AUD,
        Currency::CHF => Currency::CAD,
        Currency::SEK => Currency::CHF,
        Currency::NOK => Currency::SEK,
        Currency::DKK => Currency::NOK,
        Currency::NZD => Currency::DKK,
        Currency::SGD => Currency::NZD,
        Currency::HKD => Currency::SGD,
        Currency::KRW => Currency::HKD,
        Currency::TWD => Currency::KRW,
        Currency::THB => Currency::TWD,
        Currency::MYR => Currency::THB,
        Currency::IDR => Currency::MYR,
        Currency::PHP => Currency::IDR,
        Currency::VND => Currency::PHP,
        Currency::PKR => Currency::VND,
        Currency::BDT => Currency::PKR,
        Currency::LKR => Currency::BDT,
        Currency::NPR => Currency::LKR,
        Currency::AED => Currency::NPR,
        Currency::SAR => Currency::AED,
        Currency::QAR => Currency::SAR,
        Currency::KWD => Currency::QAR,
        Currency::BHD => Currency::KWD,
        Currency::OMR => Currency::BHD,
        Currency::ILS => Currency::OMR,
        Currency::TRY => Currency::ILS,
        Currency::RUB => Currency::TRY,
        Currency::UAH => Currency::RUB,
        Currency::PLN => Currency::UAH,
        Currency::CZK => Currency::PLN,
        Currency::HUF => Currency::CZK,
        Currency::RON => Currency::HUF,
        Currency::BGN => Currency::RON,
        Currency::HRK => Currency::BGN,
        Currency::RSD => Currency::HRK,
        Currency::MXN => Currency::RSD,
        Currency::BRL => Currency::MXN,
        Currency::ARS => Currency::BRL,
        Currency::CLP => Currency::ARS,
        Currency::COP => Currency::CLP,
        Currency::PEN => Currency::COP,
        Currency::ZAR => Currency::PEN,
        Currency::NGN => Currency::ZAR,
        Currency::EGP => Currency::NGN,
        Currency::MAD => Currency::EGP,
        Currency::KES => Currency::MAD,
        Currency::ETB => Currency::KES,
    }
}

impl Currency {
    /// The next currency in the order they are declared, wrapping around.
    pub fn next(self) -> (r: Currency)
        ensures
            r == currency_next(self),
    {
        match self {
            Currency::USD => Currency::EUR,
            Currency::EUR => Currency::GBP,
            Currency::GBP => Currency::INR,
            Currency::INR => Currency::JPY,
            Currency::JPY => Currency::CNY,
            Currency::CNY => Currency::AUD,
            Currency::AUD => Currency::CAD,
            Currency::CAD => Currency::CHF,
            Currency::CHF => Currency::SEK,
            Currency::SEK => Currency::NOK,
            Currency::NOK => Currency::DKK,
            Currency::DKK => Currency::NZD,
            Currency::NZD => Currency::SGD,
            Currency::SGD => Currency::HKD,
            Currency::HKD => Currency::KRW,
            Currency::KRW => Currency::TWD,
            Currency::TWD => Currency::THB,
            Currency::THB => Currency::MYR,
            Currency::MYR => Currency::IDR,
            Currency::IDR => Currency::PHP,
            Currency::PHP => Currency::VND,
            Currency::VND => Currency::PKR,
            Currency::PKR => Currency::BDT,
            Currency::BDT => Currency::LKR,
            Currency::LKR => Currency::NPR,
            Currency::NPR => Currency::AED,
            Currency::AED => Currency::SAR,
            Currency::SAR => Currency::QAR,
            Currency::QAR => Currency::KWD,
            Currency::KWD => Currency::BHD,
            Currency::BHD => Currency::OMR,
            Currency::OMR => Currency::ILS,
            Currency::ILS => Currency::TRY,
            Currency::TRY => Currency::RUB,
            Currency::RUB => Currency::UAH,
            Currency::UAH => Currency::PLN,
            Currency::PLN => Currency::CZK,
            Currency::CZK => Currency::HUF,
            Currency::HUF => Currency::RON,
            Currency::RON => Currency::BGN,
            Currency::BGN => Currency::HRK,
            Currency::HRK => Currency::RSD,
            Currency::RSD => Currency::MXN,
            Currency::MXN => Currency::BRL,
            Currency::BRL => Currency::ARS,
            Currency::ARS => Currency::CLP,
            Currency::CLP => Currency::COP,
            Currency::COP => Currency::PEN,
            Currency::PEN => Currency::ZAR,
            Currency::ZAR => Currency::NGN,
            Currency::NGN => Currency::EGP,
            Currency::EGP => Currency::MAD,
            Currency::MAD => Currency::KES,
            Currency::KES => Currency::ETB,
            Currency::ETB => Currency::USD,
        }
    }

    /// The previous currency in the order they are declared, wrapping around.
    pub fn prev(self) -> (r: Currency)
        ensures
            r == currency_prev(self),
    {
        match self {
            Currency::USD => Currency::ETB,
            Currency::EUR => Currency::USD,
            Currency::GBP => Currency::EUR,
            Currency::INR => Currency::GBP,
            Currency::JPY => Currency::INR,
            Currency::CNY => Currency::JPY,
            Currency::AUD => Currency::CNY,
            Currency::CAD => Currency::AUD,
            Currency::CHF => Currency::CAD,
            Currency::SEK => Currency::CHF,
            Currency::NOK => Currency::SEK,
            Currency::DKK => Currency::NOK,
            Currency::NZD => Currency::DKK,
            Currency::SGD => Currency::NZD,
            Currency::HKD => Currency::SGD,
            Currency::KRW => Currency::HKD,
            Currency::TWD => Currency::KRW,
            Currency::THB => Currency::TWD,
            Currency::MYR => Currency::THB,
            Currency::IDR => Currency::MYR,
            Currency::PHP => Currency::IDR,
            Currency::VND => Currency::PHP,
            Currency::PKR => Currency::VND,
            Currency::BDT => Currency::PKR,
            Currency::LKR => Currency::BDT,
            Currency::NPR => Currency::LKR,
            Currency::AED => Currency::NPR,
            Currency::SAR => Currency::AED,
            Currency::QAR => Currency::SAR,
            Currency::KWD => Currency::QAR,
            Currency::BHD => Currency::KWD,
            Currency::OMR => Currency::BHD,
            Currency::ILS => Currency::OMR,
            Currency::TRY => Currency::ILS,
            Currency::RUB => Currency::TRY,
            Currency::UAH => Currency::RUB,
            Currency::PLN => Currency::UAH,
            Currency::CZK => Currency::PLN,
            Currency::HUF => Currency::CZK,
            Currency::RON => Currency::HUF,
            Currency::BGN => Currency::RON,
            Currency::HRK => Currency::BGN,
            Currency::RSD => Currency::HRK,
            Currency::MXN => Currency::RSD,
            Currency::BRL => Currency::MXN,
            Currency::ARS => Currency::BRL,
            Currency::CLP => Currency::ARS,
            Currency::COP => Currency::CLP,
            Currency::PEN => Currency::COP,
            Currency::ZAR => Currency::PEN,
            Currency::NGN => Currency::ZAR,
            Currency::EGP => Currency::NGN,
            Currency::MAD => Currency::EGP,
            Currency::KES => Currency::MAD,
            Currency::ETB => Currency::KES,
        }
    }
}

/// The ISO 4217 code of a currency, as its variant is named.
pub open spec fn currency_code(c: Currency) -> Seq<char> {
    match c {
        Currency::USD => "USD"@,
        Currency::EUR => "EUR"@,
        Currency::GBP => "GBP"@,
        Currency::INR => "INR"@,
        Currency::JPY => "JPY"@,
        Currency::CNY => "CNY"@,
        Currency::AUD => "AUD"@,
        Currency::CAD => "CAD"@,
        Currency::CHF => "CHF"@,
        Currency::SEK => "SEK"@,
        Currency::NOK => "NOK"@,
        Currency::DKK => "DKK"@,
        Currency::NZD => "NZD"@,
        Currency::SGD => "SGD"@,
        Currency::HKD => "HKD"@,
        Currency::KRW => "KRW"@,
        Currency::TWD => "TWD"@,
        Currency::THB => "THB"@,
        Currency::MYR => "MYR"@,
        Currency::IDR => "IDR"@,
        Currency::PHP => "PHP"@,
        Currency::VND => "VND"@,
        Currency::PKR => "PKR"@,
        Currency::BDT => "BDT"@,
        Currency::LKR => "LKR"@,
        Currency::NPR => "NPR"@,
        Currency::AED => "AED"@,
        Currency::SAR => "SAR"@,
        Currency::QAR => "QAR"@,
        Currency::KWD => "KWD"@,
        Currency::BHD => "BHD"@,
        Currency::OMR => "OMR"@,
        Currency::ILS => "ILS"@,
        Currency::TRY => "TRY"@,
        Currency::RUB => "RUB"@,
        Currency::UAH => "UAH"@,
        Currency::PLN => "PLN"@,
        Currency::CZK => "CZK"@,
        Currency::HUF => "HUF"@,
        Currency::RON => "RON"@,
        Currency::BGN => "BGN"@,
        Currency::HRK => "HRK"@,
        Currency::RSD => "RSD"@,
        Currency::MXN => "MXN"@,
        Currency::BRL => "BRL"@,
        Currency::ARS => "ARS"@,
        Currency::CLP => "CLP"@,
        Currency::COP => "COP"@,
        Currency::PEN => "PEN"@,
        Currency::ZAR => "ZAR"@,
        Currency::NGN => "NGN"@,
        Currency::EGP => "EGP"@,
        Currency::MAD => "MAD"@,
        Currency::KES => "KES"@,
        Currency::ETB => "ETB"@,
    }
}

/// Each currency's code reads back as that currency: `try_from` of the code is `Ok` of it.
pub proof fn lemma_currency_code_roundtrip(c: Currency)
    ensures
        currency_from_code(currency_code(c)) == Some(c),
{
    reveal_strlit("USD");
    reveal_strlit("EUR");
    reveal_strlit("GBP");
    reveal_strlit("INR");
    reveal_strlit("JPY");
    reveal_strlit("CNY");
    reveal_strlit("AUD");
    reveal_strlit("CAD");
    reveal_strlit("CHF");
    reveal_strlit("SEK");
    reveal_strlit("NOK");
    reveal_strlit("DKK");
    reveal_strlit("NZD");
    reveal_strlit("SGD");
    reveal_strlit("HKD");
    reveal_strlit("KRW");
    reveal_strlit("TWD");
    reveal_strlit("THB");
    reveal_strlit("MYR");
    reveal_strlit("IDR");
    reveal_strlit("PHP");
    reveal_strlit("VND");
    reveal_strlit("PKR");
    reveal_strlit("BDT");
    reveal_strlit("LKR");
    reveal_strlit("NPR");
    reveal_strlit("AED");
    reveal_strlit("SAR");
    reveal_strlit("QAR");
    reveal_strlit("KWD");
    reveal_strlit("BHD");
    reveal_strlit("OMR");
    reveal_strlit("ILS");
    reveal_strlit("TRY");
    reveal_strlit("RUB");
    reveal_strlit("UAH");
    reveal_strlit("PLN");
    reveal_strlit("CZK");
    reveal_strlit("HUF");
    reveal_strlit("RON");
    reveal_strlit("BGN");
    reveal_strlit("HRK");
    reveal_strlit("RSD");
    reveal_strlit("MXN");
    reveal_strlit("BRL");
    reveal_strlit("ARS");
    reveal_strlit("CLP");
    reveal_strlit("COP");
    reveal_strlit("PEN");
    reveal_strlit("ZAR");
    reveal_strlit("NGN");
    reveal_strlit("EGP");
    reveal_strlit("MAD");
    reveal_strlit("KES");
    reveal_strlit("ETB");
    let k = currency_code(c);
    match c {
        Currency::USD => assert(k[0] == 'U' && k[1] == 'S' && k[2] == 'D'),
        Currency::EUR => assert(k[0] == 'E' && k[1] == 'U' && k[2] == 'R'),
        Currency::GBP => assert(k[0] == 'G' && k[1] == 'B' && k[2] == 'P'),
        Currency::INR => assert(k[0] == 'I' && k[1] == 'N' && k[2] == 'R'),
        Currency::JPY => assert(k[0] == 'J' && k[1] == 'P' && k[2] == 'Y'),
        Currency::CNY => assert(k[0] == 'C' && k[1] == 'N' && k[2] == 'Y'),
        Currency::AUD => assert(k[0] == 'A' && k[1] == 'U' && k[2] == 'D'),
        Currency::CAD => assert(k[0] == 'C' && k[1] == 'A' && k[2] == 'D'),
        Currency::CHF => assert(k[0] == 'C' && k[1] == 'H' && k[2] == 'F'),
        Currency::SEK => assert(k[0] == 'S' && k[1] == 'E' && k[2] == 'K'),
        Currency::NOK => assert(k[0] == 'N' && k[1] == 'O' && k[2] == 'K'),
        Currency::DKK => assert(k[0] == 'D' && k[1] == 'K' && k[2] == 'K'),
        Currency::NZD => assert(k[0] == 'N' && k[1] == 'Z' && k[2] == 'D'),
        Currency::SGD => assert(k[0] == 'S' && k[1] == 'G' && k[2] == 'D'),
        Currency::HKD => assert(k[0] == 'H' && k[1] == 'K' && k[2] == 'D'),
        Currency::KRW => assert(k[0] == 'K' && k[1] == 'R' && k[2] == 'W'),
        Currency::TWD => assert(k[0] == 'T' && k[1] == 'W' && k[2] == 'D'),
        Currency::THB => assert(k[0] == 'T' && k[1] == 'H' && k[2] == 'B'),
        Currency::MYR => assert(k[0] == 'M' && k[1] == 'Y' && k[2] == 'R'),
        Currency::IDR => assert(k[0] == 'I' && k[1] == 'D' && k[2] == 'R'),
        Currency::PHP => assert(k[0] == 'P' && k[1] == 'H' && k[2] == 'P'),
        Currency::VND => assert(k[0] == 'V' && k[1] == 'N' && k[2] == 'D'),
        Currency::PKR => assert(k[0] == 'P' && k[1] == 'K' && k[2] == 'R'),
        Currency::BDT => assert(k[0] == 'B' && k[1] == 'D' && k[2] == 'T'),
        Currency::LKR => assert(k[0] == 'L' && k[1] == 'K' && k[2] == 'R'),
        Currency::NPR => assert(k[0] == 'N' && k[1] == 'P' && k[2] == 'R'),
        Currency::AED => assert(k[0] == 'A' && k[1] == 'E' && k[2] == 'D'),
        Currency::SAR => assert(k[0] == 'S' && k[1] == 'A' && k[2] == 'R'),
        Currency::QAR => assert(k[0] == 'Q' && k[1] == 'A' && k[2] == 'R'),
        Currency::KWD => assert(k[0] == 'K' && k[1] == 'W' && k[2] == 'D'),
        Currency::BHD => assert(k[0] == 'B' && k[1] == 'H' && k[2] == 'D'),
        Currency::OMR => assert(k[0] == 'O' && k[1] == 'M' && k[2] == 'R'),
        Currency::ILS => assert(k[0] == 'I' && k[1] == 'L' && k[2] == 'S'),
        Currency::TRY => assert(k[0] == 'T' && k[1] == 'R' && k[2] == 'Y'),
        Currency::RUB => assert(k[0] == 'R' && k[1] == 'U' && k[2] == 'B'),
        Currency::UAH => assert(k[0] == 'U' && k[1] == 'A' && k[2] == 'H'),
        Currency::PLN => assert(k[0] == 'P' && k[1] == 'L' && k[2] == 'N'),
        Currency::CZK => assert(k[0] == 'C' && k[1] == 'Z' && k[2] == 'K'),
        Currency::HUF => assert(k[0] == 'H' && k[1] == 'U' && k[2] == 'F'),
        Currency::RON => assert(k[0] == 'R' && k[1] == 'O' && k[2] == 'N'),
        Currency::BGN => assert(k[0] == 'B' && k[1] == 'G' && k[2] == 'N'),
        Currency::HRK => assert(k[0] == 'H' && k[1] == 'R' && k[2] == 'K'),
        Currency::RSD => assert(k[0] == 'R' && k[1] == 'S' && k[2] == 'D'),
        Currency::MXN => assert(k[0] == 'M' && k[1] == 'X' && k[2] == 'N'),
        Currency::BRL => assert(k[0] == 'B' && k[1] == 'R' && k[2] == 'L'),
        Currency::ARS => assert(k[0] == 'A' && k[1] == 'R' && k[2] == 'S'),
        Currency::CLP => assert(k[0] == 'C' && k[1] == 'L' && k[2] == 'P'),
        Currency::COP => assert(k[0] == 'C' && k[1] == 'O' && k[2] == 'P'),
        Currency::PEN => assert(k[0] == 'P' && k[1] == 'E' && k[2] == 'N'),
        Currency::ZAR => assert(k[0] == 'Z' && k[1] == 'A' && k[2] == 'R'),
        Currency::NGN => assert(k[0] == 'N' && k[1] == 'G' && k[2] == 'N'),
        Currency::EGP => assert(k[0] == 'E' && k[1] == 'G' && k[2] == 'P'),
        Currency::MAD => assert(k[0] == 'M' && k[1] == 'A' && k[2] == 'D'),
        Currency::KES => assert(k[0] == 'K' && k[1] == 'E' && k[2] == 'S'),
        Currency::ETB => assert(k[0] == 'E' && k[1] == 'T' && k[2] == 'B'),
    }
}

/// Stepping to the next currency and back, or back and forth, returns to the same one.
pub proof fn lemma_currency_cycle(c: Currency)
    ensures
        currency_prev(currency_next(c)) == c,
        currency_next(currency_prev(c)) == c,
{
}

impl Currency {
    /// The currency an ISO 4217 code names; `Err` for a code that is not supported.
    pub fn try_from(s: &str) -> (r: Result<Currency, ()>)
        ensures
            currency_from_code(s@) matches Some(c) ==> r == Ok::<Currency, ()>(c),
            currency_from_code(s@) is None ==> r is Err,
    {
        if str_eq(s, "USD") {
            Ok(Currency::USD)
        } else if str_eq(s, "EUR") {
            Ok(Currency::EUR)
        } else if str_eq(s, "GBP") {
            Ok(Currency::GBP)
        } else if str_eq(s, "INR") {
            Ok(Currency::INR)
        } else if str_eq(s, "JPY") {
            Ok(Currency::JPY)
        } else if str_eq(s, "CNY") {
            Ok(Currency::CNY)
        } else if str_eq(s, "AUD") {
            Ok(Currency::AUD)
        } else if str_eq(s, "CAD") {
            Ok(Currency::CAD)
        } else if str_eq(s, "CHF") {
            Ok(Currency::CHF)
        } else if str_eq(s, "SEK") {
            Ok(Currency::SEK)
        } else if str_eq(s, "NOK") {
            Ok(Currency::NOK)
        } else if str_eq(s, "DKK") {
            Ok(Currency::DKK)
        } else if str_eq(s, "NZD") {
            Ok(Currency::NZD)
        } else if str_eq(s, "SGD") {
            Ok(Currency::SGD)
        } else if str_eq(s, "HKD") {
            Ok(Currency::HKD)
        } else if str_eq(s, "KRW") {
            Ok(Currency::KRW)
        } else if str_eq(s, "TWD") {
            Ok(Currency::TWD)
        } else if str_eq(s, "THB") {
            Ok(Currency::THB)
        } else if str_eq(s, "MYR") {
            Ok(Currency::MYR)
        } else if str_eq(s, "IDR") {
            Ok(Currency::IDR)
        } else if str_eq(s, "PHP") {
            Ok(Currency::PHP)
        } else if str_eq(s, "VND") {
            Ok(Currency::VND)
        } else if str_eq(s, "PKR") {
            Ok(Currency::PKR)
        } else if str_eq(s, "BDT") {
            Ok(Currency::BDT)
        } else if str_eq(s, "LKR") {
            Ok(Currency::LKR)
        } else if str_eq(s, "NPR") {
            Ok(Currency::NPR)
        } else if str_eq(s, "AED") {
            Ok(Currency::AED)
        } else if str_eq(s, "SAR") {
            Ok(Currency::SAR)
        } else if str_eq(s, "QAR") {
            Ok(Currency::QAR)
        } else if str_eq(s, "KWD") {
            Ok(Currency::KWD)
        } else if str_eq(s, "BHD") {
            Ok(Currency::BHD)
        } else if str_eq(s, "OMR") {
            Ok(Currency::OMR)
        } else if str_eq(s, "ILS") {
            Ok(Currency::ILS)
        } else if str_eq(s, "TRY") {
            Ok(Currency::TRY)
        } else if str_eq(s, "RUB") {
            Ok(Currency::RUB)
        } else if str_eq(s, "UAH") {
            Ok(Currency::UAH)
        } else if str_eq(s, "PLN") {
            Ok(Currency::PLN)
        } else if str_eq(s, "CZK") {
            Ok(Currency::CZK)
        } else if str_eq(s, "HUF") {
            Ok(Currency::HUF)
        } else if str_eq(s, "RON") {
            Ok(Currency::RON)
        } else if str_eq(s, "BGN") {
            Ok(Currency::BGN)
        } else if str_eq(s, "HRK") {
            Ok(Currency::HRK)
        } else if str_eq(s, "RSD") {
            Ok(Currency::RSD)
        } else if str_eq(s, "MXN") {
            Ok(Currency::MXN)
        } else if str_eq(s, "BRL") {
            Ok(Currency::BRL)
        } else if str_eq(s, "ARS") {
            Ok(Currency::ARS)
        } else if str_eq(s, "CLP") {
            Ok(Currency::CLP)
        } else if str_eq(s, "COP") {
            Ok(Currency::COP)
        } else if str_eq(s, "PEN") {
            Ok(Currency::PEN)
        } else if str_eq(s, "ZAR") {
            Ok(Currency::ZAR)
        } else if str_eq(s, "NGN") {
            Ok(Currency::NGN)
        } else if str_eq(s, "EGP") {
            Ok(Currency::EGP)
        } else if str_eq(s, "MAD") {
            Ok(Currency::MAD)
        } else if str_eq(s, "KES") {
            Ok(Currency::KES)
        } else if str_eq(s, "ETB") {
            Ok(Currency::ETB)
        } else {
            Err(())
        }
    }
}


// ------------------------------------------------------------------------
// Pages
// ------------------------------------------------------------------------

/// The pages of the application, in tab order.
#[derive(Debug, PartialEq, Eq, Clone, Copy, Structural)]
pub enum Page {
    Home,
    Journal,
    Note,
    Todo,
    Calendar,
    Finance,
    Settings,
}

pub open spec fn page_idx(p: Page) -> nat {
    match p {
        Page::Home => 0,
        Page::Journal => 1,
        Page::Note => 2,
        Page::Todo => 3,
        Page::Calendar => 4,
        Page::Finance => 5,
        Page::Settings => 6,
    }
}

pub open spec fn page_at(i: nat) -> Page {
    let k = i % 7;
    if k == 0 {
        Page::Home
    } else if k == 1 {
        Page::Journal
    } else if k == 2 {
        Page::Note
    } else if k == 3 {
        Page::Todo
    } else if k == 4 {
        Page::Calendar
    } else if k == 5 {
        Page::Finance
    } else {
        Page::Settings
    }
}

pub open spec fn page_title(p: Page) -> Seq<char> {
    match p {
        Page::Home => "Home"@,
        Page::Journal => "Journal"@,
        Page::Note => "Note"@,
        Page::Todo => "Todo"@,
        Page::Calendar => "Calendar"@,
        Page::Finance => "Finance"@,
        Page::Settings => "Settings"@,
    }
}

impl Page {
    pub fn title(&self) -> (r: &'static str)
        ensures
            r@ == page_title(*self),
    {
        match self {
            Page::Home => "Home",
            Page::Journal => "Journal",
            Page::Note => "Note",
            Page::Todo => "Todo",
            Page::Calendar => "Calendar",
            Page::Finance => "Finance",
            Page::Settings => "Settings",
        }
    }

    /// The page's position in tab order.
    pub fn idx(&self) -> (i: usize)
        ensures
            i == page_idx(*self),
    {
        match self {
            Page::Home => 0,
            Page::Journal => 1,
            Page::Note => 2,
            Page::Todo => 3,
            Page::Calendar => 4,
            Page::Finance => 5,
            Page::Settings => 6,
        }
    }

    /// The page at a position, counted round the tabs (modulo 7).
    pub fn from_idx(i: usize) -> (p: Page)
        ensures
            p == page_at(i as nat),
    {
        let k = i % 7;
        if k == 0 {
            Page::Home
        } else if k == 1 {
            Page::Journal
        } else if k == 2 {
            Page::Note
        } else if k == 3 {
            Page::Todo
        } else if k == 4 {
            Page::Calendar
        } else if k == 5 {
            Page::Finance
        } else {
            Page::Settings
        }
    }
}

/// A page's position leads back to the page, and a position leads to a page whose
/// position is the first one modulo 7; turning a tab on and then a tab back (six on, of
/// seven) returns to the same page, and so does turning back and then on.
pub proof fn lemma_page_idx_roundtrip(p: Page, i: nat)
    ensures
        page_at(page_idx(p)) == p,
        page_idx(page_at(i)) == i % 7,
        page_at(page_idx(page_at(page_idx(p) + 1)) + 6) == p,
        page_at(page_idx(page_at(page_idx(p) + 6)) + 1) == p,
{
}

// ------------------------------------------------------------------------
// Themes
// ------------------------------------------------------------------------

/// The colors the interface is drawn with.
#[derive(Debug, Clone, Copy, PartialEq, Eq, Structural)]
pub struct Theme {
    pub primary: MyColor,
    pub secondary: MyColor,
    pub accent: MyColor,
    pub success: MyColor,
    pub warning: MyColor,
    pub error: MyColor,
}

pub open spec fn default_theme() -> Theme {
    Theme {
        primary: MyColor::Black,
        secondary: MyColor::White,
        accent: MyColor::BrightCyan,
        success: MyColor::BrightGreen,
        warning: MyColor::BrightYellow,
        error: MyColor::BrightRed,
    }
}

pub open spec fn or_else(o: Option<MyColor>, d: MyColor) -> MyColor {
    match o {
        Some(c) => c,
        None => d,
    }
}

impl Default for Theme {
    fn default() -> (t: Theme)
        ensures
            t == default_theme(),
    {
        Theme {
            primary: MyColor::Black,
            secondary: MyColor::White,
            accent: MyColor::BrightCyan,
            success: MyColor::BrightGreen,
            warning: MyColor::BrightYellow,
            error: MyColor::BrightRed,
        }
    }
}

impl Theme {
    /// A theme with the given colors, each missing one taken from the default theme.
    pub fn new(
        prim: Option<MyColor>,
        sec: Option<MyColor>,
        acc: Option<MyColor>,
        succ: Option<MyColor>,
        warning: Option<MyColor>,
        err: Option<MyColor>,
    ) -> (t: Theme)
        ensures
            t == (Theme {
                primary: or_else(prim, default_theme().primary),
                secondary: or_else(sec, default_theme().secondary),
                accent: or_else(acc, default_theme().accent),
                success: or_else(succ, default_theme().success),
                warning: or_else(warning, default_theme().warning),
                error: or_else(err, default_theme().error),
            }),
    {
        Theme {
            primary: if let Some(x) = prim { x } else { MyColor::Black },
            secondary: if let Some(x) = sec { x } else { MyColor::White },
            accent: if let Some(x) = acc { x } else { MyColor::BrightCyan },
            success: if let Some(x) = succ { x } else { MyColor::BrightGreen },
            warning: if let Some(x) = warning { x } else { MyColor::BrightYellow },
            error: if let Some(x) = err { x } else { MyColor::BrightRed },
        }
    }

    /// Takes every color of `new_t`.
    pub fn set(&mut self, new_t: Theme)
        ensures
            *final(self) == new_t,
    {
        self.primary = new_t.primary;
        self.secondary = new_t.secondary;
        self.accent = new_t.accent;
        self.success = new_t.success;
        self.warning = new_t.warning;
        self.error = new_t.error;
    }
}

/// One of the six colors of a theme.
#[derive(Debug, Clone, Copy, PartialEq, Eq, Structural)]
pub enum Theme_comp {
    Primary,
    Secondary,
    Accent,
    Success,
    Warning,
    Error,
}

pub open spec fn comp_get(c: Theme_comp, t: Theme) -> MyColor {
    match c {
        Theme_comp::Primary => t.primary,
        Theme_comp::Secondary => t.secondary,
        Theme_comp::Accent => t.accent,
        Theme_comp::Success => t.success,
        Theme_comp::Warning => t.warning,
        Theme_comp::Error => t.error,
    }
}

pub open spec fn comp_set(c: Theme_comp, t: Theme, v: MyColor) -> Theme {
    match c {
        Theme_comp::Primary => Theme { primary: v, ..t },
        Theme_comp::Secondary => Theme { secondary: v, ..t },
        Theme_comp::Accent => Theme { accent: v, ..t },
        Theme_comp::Success => Theme { success: v, ..t },
        Theme_comp::Warning => Theme { warning: v, ..t },
        Theme_comp::Error => Theme { error: v, ..t },
    }
}

pub open spec fn comp_next(c: Theme_comp) -> Theme_comp {
    match c {
        Theme_comp::Primary => Theme_comp::Secondary,
        Theme_comp::Secondary => Theme_comp::Accent,
        Theme_comp::Accent => Theme_comp::Success,
        Theme_comp::Success => Theme_comp::Warning,
        Theme_comp::Warning => Theme_comp::Error,
        Theme_comp::Error => Theme_comp::Primary,
    }
}

pub open spec fn comp_prev(c: Theme_comp) -> Theme_comp {
    match c {
        Theme_comp::Primary => Theme_comp::Error,
        Theme_comp::Secondary => Theme_comp::Primary,
        Theme_comp::Accent => Theme_comp::Secondary,
        Theme_comp::Success => Theme_comp::Accent,
        Theme_comp::Warning => Theme_comp::Success,
        Theme_comp::Error => Theme_comp::Warning,
    }
}

pub open spec fn comp_title(c: Theme_comp) -> Seq<char> {
    match c {
        Theme_comp::Primary => "Primary"@,
        Theme_comp::Secondary => "Secondary"@,
        Theme_comp::Accent => "Accent"@,
        Theme_comp::Success => "Success"@,
        Theme_comp::Warning => "Warning"@,
        Theme_comp::Error => "Error"@,
    }
}

impl Theme_comp {
    pub fn title(self) -> (r: &'static str)
        ensures
            r@ == comp_title(self),
    {
        match self {
            Theme_comp::Primary => "Primary",
            Theme_comp::Secondary => "Secondary",
            Theme_comp::Accent => "Accent",
            Theme_comp::Success => "Success",
            Theme_comp::Warning => "Warning",
            Theme_comp::Error => "Error",
        }
    }

    /// The theme's color for this component.
    pub fn get(self, theme: &Theme) -> (c: MyColor)
        ensures
            c == comp_get(self, *theme),
    {
        match self {
            Theme_comp::Primary => theme.primary,
            Theme_comp::Secondary => theme.secondary,
            Theme_comp::Accent => theme.accent,
            Theme_comp::Success => theme.success,
            Theme_comp::Warning => theme.warning,
            Theme_comp::Error => theme.error,
        }
    }

    /// Sets the theme's color for this component.
    pub fn set(self, theme: &mut Theme, c: MyColor)
        ensures
            *final(theme) == comp_set(self, *old(theme), c),
    {
        match self {
            Theme_comp::Primary => theme.primary = c,
            Theme_comp::Secondary => theme.secondary = c,
            Theme_comp::Accent => theme.accent = c,
            Theme_comp::Success => theme.success = c,
            Theme_comp::Warning => theme.warning = c,
            Theme_comp::Error => theme.error = c,
        }
    }

    /// The following component, wrapping from `Error` to `Primary`.
    pub fn next(self) -> (r: Theme_comp)
        ensures
            r == comp_next(self),
    {
        match self {
            Theme_comp::Primary => Theme_comp::Secondary,
            Theme_comp::Secondary => Theme_comp::Accent,
            Theme_comp::Accent => Theme_comp::Success,
            Theme_comp::Success => Theme_comp::Warning,
            Theme_comp::Warning => Theme_comp::Error,
            Theme_comp::Error => Theme_comp::Primary,
        }
    }

    /// The preceding component, wrapping from `Primary` to `Error`.
    pub fn prev(self) -> (r: Theme_comp)
        ensures
            r == comp_prev(self),
    {
        match self {
            Theme_comp::Primary => Theme_comp::Error,
            Theme_comp::Secondary => Theme_comp::Primary,
            Theme_comp::Accent => Theme_comp::Secondary,
            Theme_comp::Success => Theme_comp::Accent,
            Theme_comp::Warning => Theme_comp::Success,
            Theme_comp::Error => Theme_comp::Warning,
        }
    }
}

/// Setting a component and reading it back gives the color set; the other components
/// keep their colors.
pub proof fn lemma_comp_get_set(c: Theme_comp, other: Theme_comp, t: Theme, v: MyColor)
    ensures
        comp_get(c, comp_set(c, t, v)) == v,
        other != c ==> comp_get(other, comp_set(c, t, v)) == comp_get(other, t),
{
}

/// `prev` undoes `next` and `next` undoes `prev`; six steps go all the way round.
pub proof fn lemma_comp_cycle(c: Theme_comp)
    ensures
        comp_prev(comp_next(c)) == c,
        comp_next(comp_prev(c)) == c,
        comp_next(comp_next(comp_next(comp_next(comp_next(comp_next(c)))))) == c,
{
}

// ------------------------------------------------------------------------
// The color picker
// ------------------------------------------------------------------------

/// The live RGB picker: which channel has focus, which theme component is edited, and
/// the text typed for each channel.
pub struct ColorPickerState {
    pub selected: Color_channel,
    pub component: Theme_comp,
    pub buffers: [String; 3],
}

pub open spec fn buffer_index(ch: Color_channel) -> int {
    match ch {
        Color_channel::R => 0,
        Color_channel::G => 1,
        Color_channel::B => 2,
    }
}

/// The text of an unsigned number: an optional `+`, then one or more decimal digits.
pub open spec fn unsigned_body(s: Seq<char>) -> Seq<char> {
    if s.len() > 0 && s[0] == '+' {
        s.skip(1)
    } else {
        s
    }
}

pub open spec fn is_unsigned_text(s: Seq<char>) -> bool {
    unsigned_body(s).len() > 0 && all_digits(unsigned_body(s))
}

/// The channel value a buffer's text gives: the number it reads as, clamped to 0..=255,
/// and 0 where the text is not a number.
pub open spec fn buffer_value(s: Seq<char>) -> u8 {
    if is_unsigned_text(s) {
        let n = digits_value(unsigned_body(s));
        if n <= 255 { n as u8 } else { 255 }
    } else {
        0
    }
}

/// Whether the chars are an optional `+` followed by one or more decimal digits.
fn unsigned_text(s: &Vec<char>) -> (b: bool)
    ensures
        b == is_unsigned_text(s@),
{
    let mut i: usize = 0;
    if s.len() > 0 && s[0] == '+' {
        i = 1;
    }
    let start = i;
    proof {
        assert(unsigned_body(s@) =~= s@.subrange(start as int, s@.len() as int));
    }
    if i == s.len() {
        return false;
    }
    while i < s.len()
        invariant
            start <= i <= s@.len(),
            unsigned_body(s@) =~= s@.subrange(start as int, s@.len() as int),
            forall|k: int| start <= k < i ==> is_digit(#[trigger] s@[k]),
        decreases s.len() - i,
    {
        if !('0' <= s[i] && s[i] <= '9') {
            assert(unsigned_body(s@)[i - start] == s@[i as int]);
            return false;
        }
        i = i + 1;
    }
    assert forall|k: int| 0 <= k < unsigned_body(s@).len() implies is_digit(#[trigger] unsigned_body(s@)[k]) by {
        assert(unsigned_body(s@)[k] == s@[k + start]);
    }
    true
}

/// The buffers are the decimal channel values of the edited component's color.
pub open spec fn buffers_match(p: ColorPickerState, t: Theme) -> bool {
    let rgb = color_rgb(comp_get(p.component, t));
    &&& p.buffers@[0]@ == decimal(rgb.0 as nat)
    &&& p.buffers@[1]@ == decimal(rgb.1 as nat)
    &&& p.buffers@[2]@ == decimal(rgb.2 as nat)
}

fn decimal_string(n: u8) -> (s: String)
    ensures
        s@ == decimal(n as nat),
{
    let mut s = String::new();
    push_decimal(&mut s, n as u64);
    s
}

impl ColorPickerState {
    /// A picker on the primary color, red channel focused, its buffers filled from the theme.
    pub fn new(theme: &Theme) -> (s: ColorPickerState)
        ensures
            s.component == Theme_comp::Primary,
            s.selected == Color_channel::R,
            buffers_match(s, *theme),
    {
        let mut s = ColorPickerState {
            component: Theme_comp::Primary,
            selected: Color_channel::R,
            buffers: [String::new(), String::new(), String::new()],
        };
        s.reload_from_theme(theme);
        s
    }

    /// Refills the buffers from the theme's color for the edited component.
    pub fn reload_from_theme(&mut self, theme: &Theme)
        ensures
            final(self).component == old(self).component,
            final(self).selected == old(self).selected,
            buffers_match(*final(self), *theme),
    {
        let c = self.component.get(theme);
        self.buffers = [
            decimal_string(c.channel(Color_channel::R)),
            decimal_string(c.channel(Color_channel::G)),
            decimal_string(c.channel(Color_channel::B)),
        ];
    }

    /// The buffer of a channel, for editing.
    pub fn buffer_mut(&mut self, ch: Color_channel) -> (r: &mut String)
        ensures
            *r == old(self).buffers@[buffer_index(ch)],
            final(self).selected == old(self).selected,
            final(self).component == old(self).component,
            final(self).buffers@ == old(self).buffers@.update(buffer_index(ch), *final(r)),
    {
        match ch {
            Color_channel::R => &mut self.buffers[0],
            Color_channel::G => &mut self.buffers[1],
            Color_channel::B => &mut self.buffers[2],
        }
    }

    /// Reads the focused buffer, clamps it to 0..=255, and writes it straight into the theme's
    /// color for the edited component, as an explicit RGB triple.
    pub fn commit_focused_channel(&mut self, theme: &mut Theme)
        ensures
            final(self).selected == old(self).selected,
            final(self).component == old(self).component,
            final(self).buffers@ == old(self).buffers@,
            ({
                let rgb = rgb_with(
                    color_rgb(comp_get(old(self).component, *old(theme))),
                    old(self).selected,
                    buffer_value(old(self).buffers@[buffer_index(old(self).selected)]@),
                );
                *final(theme) == comp_set(old(self).component, *old(theme), MyColor::RGB(rgb.0, rgb.1, rgb.2))
            }),
    {
        let idx: usize = match self.selected {
            Color_channel::R => 0,
            Color_channel::G => 1,
            Color_channel::B => 2,
        };
        let raw = chars_of(self.buffers[idx].as_str());
        proof {
            assert(raw@.subrange(0, raw@.len() as int) =~= raw@);
        }
        let value: u8 = match parse_unsigned_range(&raw, 0, raw.len(), 255u64) {
            Some(n) => n as u8,
            None => if unsigned_text(&raw) { 255 } else { 0 },
        };
        let updated = self.component.get(theme).with_channel(self.selected, value);
        self.component.set(theme, updated);
    }
}

// ------------------------------------------------------------------------
// Settings
// ------------------------------------------------------------------------

/// The user's settings.
pub struct Settings {
    pub color_picker: ColorPickerState,
    pub theme: Theme,
    pub autosave: bool,
    pub autosave_freq: usize,
    pub vim_mode: bool,
    pub confirm_delete: bool,
    pub date_format: String,
    pub timezone: String,
    pub autocomplete: bool,
    pub currency: Currency,
}

impl Default for Settings {
    fn default() -> (s: Settings)
        ensures
            s.theme == default_theme(),
            buffers_match(s.color_picker, s.theme),
            s.color_picker.component == Theme_comp::Primary,
            s.color_picker.selected == Color_channel::R,
            !s.autosave && s.autosave_freq == 0 && !s.vim_mode && s.confirm_delete && !s.autocomplete,
            s.date_format@ == "dd-mm-yyyy"@,
            s.timezone@ == "india"@,
            s.currency == Currency::INR,
    {
        let theme = Theme::default();
        Settings {
            color_picker: ColorPickerState::new(&theme),
            theme,
            autosave: false,
            autosave_freq: 0,
            vim_mode: false,
            confirm_delete: true,
            date_format: String::from_str("dd-mm-yyyy"),
            timezone: String::from_str("india"),
            autocomplete: false,
            currency: Currency::INR,
        }
    }
}

impl Settings {
    /// Settings with the default theme, autosave off at the largest interval, dates as
    /// `dd-mm-yyyy` in UTC, rupees.
    pub fn new() -> (s: Settings)
        ensures
            s.theme == default_theme(),
            buffers_match(s.color_picker, s.theme),
            s.color_picker.component == Theme_comp::Primary,
            s.color_picker.selected == Color_channel::R,
            !s.autosave && s.autosave_freq == usize::MAX && !s.vim_mode && s.confirm_delete && !s.autocomplete,
            s.date_format@ == "dd-mm-yyyy"@,
            s.timezone@ == "Utc"@,
            s.currency == Currency::INR,
    {
        let theme = Theme::default();
        Settings {
            theme,
            autocomplete: false,
            autosave: false,
            autosave_freq: usize::MAX,
            vim_mode: false,
            confirm_delete: true,
            date_format: String::from_str("dd-mm-yyyy"),
            timezone: String::from_str("Utc"),
            currency: Currency::INR,
            color_picker: ColorPickerState::new(&theme),
        }
    }

    /// Takes every setting of `other`.
    pub fn set(&mut self, other: Settings)
        ensures
            final(self).theme == other.theme,
            final(self).autosave == other.autosave,
            final(self).vim_mode == other.vim_mode,
            final(self).confirm_delete == other.confirm_delete,
            final(self).date_format@ == other.date_format@,
            final(self).autosave_freq == other.autosave_freq,
            final(self).timezone@ == other.timezone@,
            final(self).autocomplete == other.autocomplete,
            final(self).currency == other.currency,
            final(self).color_picker.selected == other.color_picker.selected,
            final(self).color_picker.component == other.color_picker.component,
            final(self).color_picker.buffers@ == other.color_picker.buffers@,
    {
        self.theme = other.theme;
        self.autosave = other.autosave;
        self.vim_mode = other.vim_mode;
        self.confirm_delete = other.confirm_delete;
        self.date_format = other.date_format;
        self.autosave_freq = other.autosave_freq;
        self.timezone = other.timezone;
        self.autocomplete = other.autocomplete;
        self.currency = other.currency;
        self.color_picker = other.color_picker;
    }
}

} // verus!
