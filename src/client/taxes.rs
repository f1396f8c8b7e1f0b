//! Tax IDs.
use vstd::prelude::*;
use crate::request::{owned, str_eq};

verus! {

/// The type of a tax ID.
#[non_exhaustive]
#[derive(Debug, Clone, PartialEq, Eq, Hash)]
pub enum TaxIdType {
    /// United Arab Emirates Tax Registration Number.
    AeTrn,
    /// Australian Business Number.
    AuAbn,
    /// Australian Taxation Office Reference Number.
    AuArn,
    /// Bulgaria Unified Identification Code.
    BgUic,
    /// Brazilian CNPJ number.
    BrCnpj,
    /// Brazilian CPF number.
    BrCpf,
    /// Canadian BN.
    CaBn,
    /// Canadian GST/HST number.
    CaGstHst,
    /// Canadian PST number (British Columbia).
    CaPstBc,
    /// Canadian PST number (Manitoba).
    CaPstMb,
    /// Canadian PST number (Saskatchewan).
    CaPstSk,
    /// Canadian QST number (Québec).
    CaQst,
    /// Switzerland VAT number.
    ChVat,
    /// Chilean TIN.
    ClTin,
    /// Spanish NIF number (previously Spanish CIF number).
    EsCif,
    /// European One Stop Shop VAT number for non-Union scheme.
    EuOssVat,
    /// European VAT number.
    EuVat,
    /// United Kingdom VAT number.
    GbVat,
    /// Georgian VAT.
    GeVat,
    /// Hong Kong BR number.
    HkBr,
    /// Hungary tax number.
    HuTin,
    /// Indonesian NPWP number.
    IdNpwp,
    /// Israel VAT.
    IlVat,
    /// Indian GST number.
    InGst,
    /// Icelandic VAT.
    IsVat,
    /// Japanese Corporate Number.
    JpCn,
    /// Japanese Registered Foreign Businesses' Registration Number.
    JpRn,
    /// Japanese Tax Registration Number.
    JpTrn,
    /// Korean BRN.
    KrBrn,
    /// Liechtensteinian UID number.
    LiUid,
    /// Mexican RFC number.
    MxRfc,
    /// Malaysian FRP number.
    MyFrp,
    /// Malaysian ITN.
    MyItn,
    /// Malaysian SST number.
    MySst,
    /// Norwegian VAT number.
    NoVat,
    /// New Zealand GST number
    NzGst,
    /// Russian INN.
    RuInn,
    /// Russian KPP.
    RuKpp,
    /// Saudi Arabia VAT.
    SaVat,
    /// Singaporean GST.
    SgGst,
    /// Singaporean UEN.
    SgUen,
    /// Slovenia tax number.
    SiTin,
    /// Thai VAT.
    ThVat,
    /// Taiwanese VAT.
    TwVat,
    /// Ukrainian VAT.
    UaVat,
    /// United States EIN.
    UsEin,
    /// South African VAT number.
    ZaVat,
    /// A value this library does not know, as it came.
    Other(String),
}

impl TaxIdType {
    /// The string that stands for this value on the wire.
    pub open spec fn wire_name(&self) -> Seq<char> {
        match self {
            TaxIdType::AeTrn => "ae_trn"@,
            TaxIdType::AuAbn => "au_abn"@,
            TaxIdType::AuArn => "au_arn"@,
            TaxIdType::BgUic => "bg_uic"@,
            TaxIdType::BrCnpj => "br_cnpj"@,
            TaxIdType::BrCpf => "br_cpf"@,
            TaxIdType::CaBn => "ca_bn"@,
            TaxIdType::CaGstHst => "ca_gst_hst"@,
            TaxIdType::CaPstBc => "ca_pst_bc"@,
            TaxIdType::CaPstMb => "ca_pst_mb"@,
            TaxIdType::CaPstSk => "ca_pst_sk"@,
            TaxIdType::CaQst => "ca_qst"@,
            TaxIdType::ChVat => "ch_vat"@,
            TaxIdType::ClTin => "cl_tin"@,
            TaxIdType::EsCif => "es_cif"@,
            TaxIdType::EuOssVat => "eu_oss_vat"@,
            TaxIdType::EuVat => "eu_vat"@,
            TaxIdType::GbVat => "gb_vat"@,
            TaxIdType::GeVat => "ge_vat"@,
            TaxIdType::HkBr => "hk_br"@,
            TaxIdType::HuTin => "hu_tin"@,
            TaxIdType::IdNpwp => "id_npwp"@,
            TaxIdType::IlVat => "il_vat"@,
            TaxIdType::InGst => "in_gst"@,
            TaxIdType::IsVat => "is_vat"@,
            TaxIdType::JpCn => "jp_cn"@,
            TaxIdType::JpRn => "jp_rn"@,
            TaxIdType::JpTrn => "jp_trn"@,
            TaxIdType::KrBrn => "kr_brn"@,
            TaxIdType::LiUid => "li_uid"@,
            TaxIdType::MxRfc => "mx_rfc"@,
            TaxIdType::MyFrp => "my_frp"@,
            TaxIdType::MyItn => "my_itn"@,
            TaxIdType::MySst => "my_sst"@,
            TaxIdType::NoVat => "no_vat"@,
            TaxIdType::NzGst => "nz_gst"@,
            TaxIdType::RuInn => "ru_inn"@,
            TaxIdType::RuKpp => "ru_kpp"@,
            TaxIdType::SaVat => "sa_vat"@,
            TaxIdType::SgGst => "sg_gst"@,
            TaxIdType::SgUen => "sg_uen"@,
            TaxIdType::SiTin => "si_tin"@,
            TaxIdType::ThVat => "th_vat"@,
            TaxIdType::TwVat => "tw_vat"@,
            TaxIdType::UaVat => "ua_vat"@,
            TaxIdType::UsEin => "us_ein"@,
            TaxIdType::ZaVat => "za_vat"@,
            TaxIdType::Other(s) => s@,
        }
    }

    /// The known value that `s` stands for, if any.
    pub open spec fn known_value(s: Seq<char>) -> Option<TaxIdType> {
        if s == "ae_trn"@ {
            Some(TaxIdType::AeTrn)
        } else if s == "au_abn"@ {
            Some(TaxIdType::AuAbn)
        } else if s == "au_arn"@ {
            Some(TaxIdType::AuArn)
        } else if s == "bg_uic"@ {
            Some(TaxIdType::BgUic)
        } else if s == "br_cnpj"@ {
            Some(TaxIdType::BrCnpj)
        } else if s == "br_cpf"@ {
            Some(TaxIdType::BrCpf)
        } else if s == "ca_bn"@ {
            Some(TaxIdType::CaBn)
        } else if s == "ca_gst_hst"@ {
            Some(TaxIdType::CaGstHst)
        } else if s == "ca_pst_bc"@ {
            Some(TaxIdType::CaPstBc)
        } else if s == "ca_pst_mb"@ {
            Some(TaxIdType::CaPstMb)
        } else if s == "ca_pst_sk"@ {
            Some(TaxIdType::CaPstSk)
        } else if s == "ca_qst"@ {
            Some(TaxIdType::CaQst)
        } else if s == "ch_vat"@ {
            Some(TaxIdType::ChVat)
        } else if s == "cl_tin"@ {
            Some(TaxIdType::ClTin)
        } else if s == "es_cif"@ {
            Some(TaxIdType::EsCif)
        } else if s == "eu_oss_vat"@ {
            Some(TaxIdType::EuOssVat)
        } else if s == "eu_vat"@ {
            Some(TaxIdType::EuVat)
        } else if s == "gb_vat"@ {
            Some(TaxIdType::GbVat)
        } else if s == "ge_vat"@ {
            Some(TaxIdType::GeVat)
        } else if s == "hk_br"@ {
            Some(TaxIdType::HkBr)
        } else if s == "hu_tin"@ {
            Some(TaxIdType::HuTin)
        } else if s == "id_npwp"@ {
            Some(TaxIdType::IdNpwp)
        } else if s == "il_vat"@ {
            Some(TaxIdType::IlVat)
        } else if s == "in_gst"@ {
            Some(TaxIdType::InGst)
        } else if s == "is_vat"@ {
            Some(TaxIdType::IsVat)
        } else if s == "jp_cn"@ {
            Some(TaxIdType::JpCn)
        } else if s == "jp_rn"@ {
            Some(TaxIdType::JpRn)
        } else if s == "jp_trn"@ {
            Some(TaxIdType::JpTrn)
        } else if s == "kr_brn"@ {
            Some(TaxIdType::KrBrn)
        } else if s == "li_uid"@ {
            Some(TaxIdType::LiUid)
        } else if s == "mx_rfc"@ {
            Some(TaxIdType::MxRfc)
        } else if s == "my_frp"@ {
            Some(TaxIdType::MyFrp)
        } else if s == "my_itn"@ {
            Some(TaxIdType::MyItn)
        } else if s == "my_sst"@ {
            Some(TaxIdType::MySst)
        } else if s == "no_vat"@ {
            Some(TaxIdType::NoVat)
        } else if s == "nz_gst"@ {
            Some(TaxIdType::NzGst)
        } else if s == "ru_inn"@ {
            Some(TaxIdType::RuInn)
        } else if s == "ru_kpp"@ {
            Some(TaxIdType::RuKpp)
        } else if s == "sa_vat"@ {
            Some(TaxIdType::SaVat)
        } else if s == "sg_gst"@ {
            Some(TaxIdType::SgGst)
        } else if s == "sg_uen"@ {
            Some(TaxIdType::SgUen)
        } else if s == "si_tin"@ {
            Some(TaxIdType::SiTin)
        } else if s == "th_vat"@ {
            Some(TaxIdType::ThVat)
        } else if s == "tw_vat"@ {
            Some(TaxIdType::TwVat)
        } else if s == "ua_vat"@ {
            Some(TaxIdType::UaVat)
        } else if s == "us_ein"@ {
            Some(TaxIdType::UsEin)
        } else if s == "za_vat"@ {
            Some(TaxIdType::ZaVat)
        } else {
            None
        }
    }

    /// Decoding `s` gives `r`: the known value it stands for, else the
    /// fallback that keeps `s` as it came.
    pub open spec fn decodes_to(s: Seq<char>, r: TaxIdType) -> bool {
        match Self::known_value(s) {
            Some(v) => r == v,
            None => r matches TaxIdType::Other(t) && t@ == s,
        }
    }

    /// The string that stands for this value on the wire.
    pub fn as_str(&self) -> (r: &str)
        ensures
            r@ == self.wire_name(),
    {
        match self {
            TaxIdType::AeTrn => "ae_trn",
            TaxIdType::AuAbn => "au_abn",
            TaxIdType::AuArn => "au_arn",
            TaxIdType::BgUic => "bg_uic",
            TaxIdType::BrCnpj => "br_cnpj",
            TaxIdType::BrCpf => "br_cpf",
            TaxIdType::CaBn => "ca_bn",
            TaxIdType::CaGstHst => "ca_gst_hst",
            TaxIdType::CaPstBc => "ca_pst_bc",
            TaxIdType::CaPstMb => "ca_pst_mb",
            TaxIdType::CaPstSk => "ca_pst_sk",
            TaxIdType::CaQst => "ca_qst",
            TaxIdType::ChVat => "ch_vat",
            TaxIdType::ClTin => "cl_tin",
            TaxIdType::EsCif => "es_cif",
            TaxIdType::EuOssVat => "eu_oss_vat",
            TaxIdType::EuVat => "eu_vat",
            TaxIdType::GbVat => "gb_vat",
            TaxIdType::GeVat => "ge_vat",
            TaxIdType::HkBr => "hk_br",
            TaxIdType::HuTin => "hu_tin",
            TaxIdType::IdNpwp => "id_npwp",
            TaxIdType::IlVat => "il_vat",
            TaxIdType::InGst => "in_gst",
            TaxIdType::IsVat => "is_vat",
            TaxIdType::JpCn => "jp_cn",
            TaxIdType::JpRn => "jp_rn",
            TaxIdType::JpTrn => "jp_trn",
            TaxIdType::KrBrn => "kr_brn",
            TaxIdType::LiUid => "li_uid",
            TaxIdType::MxRfc => "mx_rfc",
            TaxIdType::MyFrp => "my_frp",
            TaxIdType::MyItn => "my_itn",
            TaxIdType::MySst => "my_sst",
            TaxIdType::NoVat => "no_vat",
            TaxIdType::NzGst => "nz_gst",
            TaxIdType::RuInn => "ru_inn",
            TaxIdType::RuKpp => "ru_kpp",
            TaxIdType::SaVat => "sa_vat",
            TaxIdType::SgGst => "sg_gst",
            TaxIdType::SgUen => "sg_uen",
            TaxIdType::SiTin => "si_tin",
            TaxIdType::ThVat => "th_vat",
            TaxIdType::TwVat => "tw_vat",
            TaxIdType::UaVat => "ua_vat",
            TaxIdType::UsEin => "us_ein",
            TaxIdType::ZaVat => "za_vat",
            TaxIdType::Other(s) => s.as_str(),
        }
    }

    /// Decodes a wire string.
    pub fn from_wire(s: &str) -> (r: TaxIdType)
        ensures
            Self::decodes_to(s@, r),
    {
        if str_eq(s, "ae_trn") {
            TaxIdType::AeTrn
        } else if str_eq(s, "au_abn") {
            TaxIdType::AuAbn
        } else if str_eq(s, "au_arn") {
            TaxIdType::AuArn
        } else if str_eq(s, "bg_uic") {
            TaxIdType::BgUic
        } else if str_eq(s, "br_cnpj") {
            TaxIdType::BrCnpj
        } else if str_eq(s, "br_cpf") {
            TaxIdType::BrCpf
        } else if str_eq(s, "ca_bn") {
            TaxIdType::CaBn
        } else if str_eq(s, "ca_gst_hst") {
            TaxIdType::CaGstHst
        } else if str_eq(s, "ca_pst_bc") {
            TaxIdType::CaPstBc
        } else if str_eq(s, "ca_pst_mb") {
            TaxIdType::CaPstMb
        } else if str_eq(s, "ca_pst_sk") {
            TaxIdType::CaPstSk
        } else if str_eq(s, "ca_qst") {
            TaxIdType::CaQst
        } else if str_eq(s, "ch_vat") {
            TaxIdType::ChVat
        } else if str_eq(s, "cl_tin") {
            TaxIdType::ClTin
        } else if str_eq(s, "es_cif") {
            TaxIdType::EsCif
        } else if str_eq(s, "eu_oss_vat") {
            TaxIdType::EuOssVat
        } else if str_eq(s, "eu_vat") {
            TaxIdType::EuVat
        } else if str_eq(s, "gb_vat") {
            TaxIdType::GbVat
        } else if str_eq(s, "ge_vat") {
            TaxIdType::GeVat
        } else if str_eq(s, "hk_br") {
            TaxIdType::HkBr
        } else if str_eq(s, "hu_tin") {
            TaxIdType::HuTin
        } else if str_eq(s, "id_npwp") {
            TaxIdType::IdNpwp
        } else if str_eq(s, "il_vat") {
            TaxIdType::IlVat
        } else if str_eq(s, "in_gst") {
            TaxIdType::InGst
        } else if str_eq(s, "is_vat") {
            TaxIdType::IsVat
        } else if str_eq(s, "jp_cn") {
            TaxIdType::JpCn
        } else if str_eq(s, "jp_rn") {
            TaxIdType::JpRn
        } else if str_eq(s, "jp_trn") {
            TaxIdType::JpTrn
        } else if str_eq(s, "kr_brn") {
            TaxIdType::KrBrn
        } else if str_eq(s, "li_uid") {
            TaxIdType::LiUid
        } else if str_eq(s, "mx_rfc") {
            TaxIdType::MxRfc
        } else if str_eq(s, "my_frp") {
            TaxIdType::MyFrp
        } else if str_eq(s, "my_itn") {
            TaxIdType::MyItn
        } else if str_eq(s, "my_sst") {
            TaxIdType::MySst
        } else if str_eq(s, "no_vat") {
            TaxIdType::NoVat
        } else if str_eq(s, "nz_gst") {
            TaxIdType::NzGst
        } else if str_eq(s, "ru_inn") {
            TaxIdType::RuInn
        } else if str_eq(s, "ru_kpp") {
            TaxIdType::RuKpp
        } else if str_eq(s, "sa_vat") {
            TaxIdType::SaVat
        } else if str_eq(s, "sg_gst") {
            TaxIdType::SgGst
        } else if str_eq(s, "sg_uen") {
            TaxIdType::SgUen
        } else if str_eq(s, "si_tin") {
            TaxIdType::SiTin
        } else if str_eq(s, "th_vat") {
            TaxIdType::ThVat
        } else if str_eq(s, "tw_vat") {
            TaxIdType::TwVat
        } else if str_eq(s, "ua_vat") {
            TaxIdType::UaVat
        } else if str_eq(s, "us_ein") {
            TaxIdType::UsEin
        } else if str_eq(s, "za_vat") {
            TaxIdType::ZaVat
        } else {
            TaxIdType::Other(owned(s))
        }
    }
}

/// Encoding a known value and decoding the string gives the value back;
/// a string that stands for no known value decodes to the fallback, which
/// encodes back to exactly that string.
pub proof fn lemma_tax_id_type_wire_round_trip(v: TaxIdType, s: Seq<char>, r: TaxIdType)
    ensures
        !(v is Other) && TaxIdType::decodes_to(v.wire_name(), r) ==> r == v,
        TaxIdType::known_value(s) is None && TaxIdType::decodes_to(s, r) ==> (r is Other && r.wire_name() == s),
{
    reveal_strlit("ae_trn");
    reveal_strlit("au_abn");
    reveal_strlit("au_arn");
    reveal_strlit("bg_uic");
    reveal_strlit("br_cnpj");
    reveal_strlit("br_cpf");
    reveal_strlit("ca_bn");
    reveal_strlit("ca_gst_hst");
    reveal_strlit("ca_pst_bc");
    reveal_strlit("ca_pst_mb");
    reveal_strlit("ca_pst_sk");
    reveal_strlit("ca_qst");
    reveal_strlit("ch_vat");
    reveal_strlit("cl_tin");
    reveal_strlit("es_cif");
    reveal_strlit("eu_oss_vat");
    reveal_strlit("eu_vat");
    reveal_strlit("gb_vat");
    reveal_strlit("ge_vat");
    reveal_strlit("hk_br");
    reveal_strlit("hu_tin");
    reveal_strlit("id_npwp");
    reveal_strlit("il_vat");
    reveal_strlit("in_gst");
    reveal_strlit("is_vat");
    reveal_strlit("jp_cn");
    reveal_strlit("jp_rn");
    reveal_strlit("jp_trn");
    reveal_strlit("kr_brn");
    reveal_strlit("li_uid");
    reveal_strlit("mx_rfc");
    reveal_strlit("my_frp");
    reveal_strlit("my_itn");
    reveal_strlit("my_sst");
    reveal_strlit("no_vat");
    reveal_strlit("nz_gst");
    reveal_strlit("ru_inn");
    reveal_strlit("ru_kpp");
    reveal_strlit("sa_vat");
    reveal_strlit("sg_gst");
    reveal_strlit("sg_uen");
    reveal_strlit("si_tin");
    reveal_strlit("th_vat");
    reveal_strlit("tw_vat");
    reveal_strlit("ua_vat");
    reveal_strlit("us_ein");
    reveal_strlit("za_vat");
    match v {
        TaxIdType::AeTrn => {},
        TaxIdType::AuAbn => {
            assert("ae_trn"@[1] != "au_abn"@[1]);
        },
        TaxIdType::AuArn => {
            assert("ae_trn"@[1] != "au_arn"@[1]);
            assert("au_abn"@[4] != "au_arn"@[4]);
        },
        TaxIdType::BgUic => {
            assert("ae_trn"@[0] != "bg_uic"@[0]);
            assert("au_abn"@[0] != "bg_uic"@[0]);
            assert("au_arn"@[0] != "bg_uic"@[0]);
        },
        TaxIdType::BrCnpj => {
            assert("ae_trn"@.len() != "br_cnpj"@.len());
            assert("au_abn"@.len() != "br_cnpj"@.len());
            assert("au_arn"@.len() != "br_cnpj"@.len());
            assert("bg_uic"@.len() != "br_cnpj"@.len());
        },
        TaxIdType::BrCpf => {
            assert("ae_trn"@[0] != "br_cpf"@[0]);
            assert("au_abn"@[0] != "br_cpf"@[0]);
            assert("au_arn"@[0] != "br_cpf"@[0]);
            assert("bg_uic"@[1] != "br_cpf"@[1]);
            assert("br_cnpj"@.len() != "br_cpf"@.len());
        },
        TaxIdType::CaBn => {
            assert("ae_trn"@.len() != "ca_bn"@.len());
            assert("au_abn"@.len() != "ca_bn"@.len());
            assert("au_arn"@.len() != "ca_bn"@.len());
            assert("bg_uic"@.len() != "ca_bn"@.len());
            assert("br_cnpj"@.len() != "ca_bn"@.len());
            assert("br_cpf"@.len() != "ca_bn"@.len());
        },
        TaxIdType::CaGstHst => {
            assert("ae_trn"@.len() != "ca_gst_hst"@.len());
            assert("au_abn"@.len() != "ca_gst_hst"@.len());
            assert("au_arn"@.len() != "ca_gst_hst"@.len());
            assert("bg_uic"@.len() != "ca_gst_hst"@.len());
            assert("br_cnpj"@.len() != "ca_gst_hst"@.len());
            assert("br_cpf"@.len() != "ca_gst_hst"@.len());
            assert("ca_bn"@.len() != "ca_gst_hst"@.len());
        },
        TaxIdType::CaPstBc => {
            assert("ae_trn"@.len() != "ca_pst_bc"@.len());
            assert("au_abn"@.len() != "ca_pst_bc"@.len());
            assert("au_arn"@.len() != "ca_pst_bc"@.len());
            assert("bg_uic"@.len() != "ca_pst_bc"@.len());
            assert("br_cnpj"@.len() != "ca_pst_bc"@.len());
            assert("br_cpf"@.len() != "ca_pst_bc"@.len());
            assert("ca_bn"@.len() != "ca_pst_bc"@.len());
            assert("ca_gst_hst"@.len() != "ca_pst_bc"@.len());
        },
        TaxIdType::CaPstMb => {
            assert("ae_trn"@.len() != "ca_pst_mb"@.len());
            assert("au_abn"@.len() != "ca_pst_mb"@.len());
            assert("au_arn"@.len() != "ca_pst_mb"@.len());
            assert("bg_uic"@.len() != "ca_pst_mb"@.len());
            assert("br_cnpj"@.len() != "ca_pst_mb"@.len());
            assert("br_cpf"@.len() != "ca_pst_mb"@.len());
            assert("ca_bn"@.len() != "ca_pst_mb"@.len());
            assert("ca_gst_hst"@.len() != "ca_pst_mb"@.len());
            assert("ca_pst_bc"@[7] != "ca_pst_mb"@[7]);
        },
        TaxIdType::CaPstSk => {
            assert("ae_trn"@.len() != "ca_pst_sk"@.len());
            assert("au_abn"@.len() != "ca_pst_sk"@.len());
            assert("au_arn"@.len() != "ca_pst_sk"@.len());
            assert("bg_uic"@.len() != "ca_pst_sk"@.len());
            assert("br_cnpj"@.len() != "ca_pst_sk"@.len());
            assert("br_cpf"@.len() != "ca_pst_sk"@.len());
            assert("ca_bn"@.len() != "ca_pst_sk"@.len());
            assert("ca_gst_hst"@.len() != "ca_pst_sk"@.len());
            assert("ca_pst_bc"@[7] != "ca_pst_sk"@[7]);
            assert("ca_pst_mb"@[7] != "ca_pst_sk"@[7]);
        },
        TaxIdType::CaQst => {
            assert("ae_trn"@[0] != "ca_qst"@[0]);
            assert("au_abn"@[0] != "ca_qst"@[0]);
            assert("au_arn"@[0] != "ca_qst"@[0]);
            assert("bg_uic"@[0] != "ca_qst"@[0]);
            assert("br_cnpj"@.len() != "ca_qst"@.len());
            assert("br_cpf"@[0] != "ca_qst"@[0]);
            assert("ca_bn"@.len() != "ca_qst"@.len());
            assert("ca_gst_hst"@.len() != "ca_qst"@.len());
            assert("ca_pst_bc"@.len() != "ca_qst"@.len());
            assert("ca_pst_mb"@.len() != "ca_qst"@.len());
            assert("ca_pst_sk"@.len() != "ca_qst"@.len());
        },
        TaxIdType::ChVat => {
            assert("ae_trn"@[0] != "ch_vat"@[0]);
            assert("au_abn"@[0] != "ch_vat"@[0]);
            assert("au_arn"@[0] != "ch_vat"@[0]);
            assert("bg_uic"@[0] != "ch_vat"@[0]);
            assert("br_cnpj"@.len() != "ch_vat"@.len());
            assert("br_cpf"@[0] != "ch_vat"@[0]);
            assert("ca_bn"@.len() != "ch_vat"@.len());
            assert("ca_gst_hst"@.len() != "ch_vat"@.len());
            assert("ca_pst_bc"@.len() != "ch_vat"@.len());
            assert("ca_pst_mb"@.len() != "ch_vat"@.len());
            assert("ca_pst_sk"@.len() != "ch_vat"@.len());
            assert("ca_qst"@[1] != "ch_vat"@[1]);
        },
        TaxIdType::ClTin => {
            assert("ae_trn"@[0] != "cl_tin"@[0]);
            assert("au_abn"@[0] != "cl_tin"@[0]);
            assert("au_arn"@[0] != "cl_tin"@[0]);
            assert("bg_uic"@[0] != "cl_tin"@[0]);
            assert("br_cnpj"@.len() != "cl_tin"@.len());
            assert("br_cpf"@[0] != "cl_tin"@[0]);
            assert("ca_bn"@.len() != "cl_tin"@.len());
            assert("ca_gst_hst"@.len() != "cl_tin"@.len());
            assert("ca_pst_bc"@.len() != "cl_tin"@.len());
            assert("ca_pst_mb"@.len() != "cl_tin"@.len());
            assert("ca_pst_sk"@.len() != "cl_tin"@.len());
            assert("ca_qst"@[1] != "cl_tin"@[1]);
            assert("ch_vat"@[1] != "cl_tin"@[1]);
        },
        TaxIdType::EsCif => {
            assert("ae_trn"@[0] != "es_cif"@[0]);
            assert("au_abn"@[0] != "es_cif"@[0]);
            assert("au_arn"@[0] != "es_cif"@[0]);
            assert("bg_uic"@[0] != "es_cif"@[0]);
            assert("br_cnpj"@.len() != "es_cif"@.len());
            assert("br_cpf"@[0] != "es_cif"@[0]);
            assert("ca_bn"@.len() != "es_cif"@.len());
            assert("ca_gst_hst"@.len() != "es_cif"@.len());
            assert("ca_pst_bc"@.len() != "es_cif"@.len());
            assert("ca_pst_mb"@.len() != "es_cif"@.len());
            assert("ca_pst_sk"@.len() != "es_cif"@.len());
            assert("ca_qst"@[0] != "es_cif"@[0]);
            assert("ch_vat"@[0] != "es_cif"@[0]);
            assert("cl_tin"@[0] != "es_cif"@[0]);
        },
        TaxIdType::EuOssVat => {
            assert("ae_trn"@.len() != "eu_oss_vat"@.len());
            assert("au_abn"@.len() != "eu_oss_vat"@.len());
            assert("au_arn"@.len() != "eu_oss_vat"@.len());
            assert("bg_uic"@.len() != "eu_oss_vat"@.len());
            assert("br_cnpj"@.len() != "eu_oss_vat"@.len());
            assert("br_cpf"@.len() != "eu_oss_vat"@.len());
            assert("ca_bn"@.len() != "eu_oss_vat"@.len());
            assert("ca_gst_hst"@[0] != "eu_oss_vat"@[0]);
            assert("ca_pst_bc"@.len() != "eu_oss_vat"@.len());
            assert("ca_pst_mb"@.len() != "eu_oss_vat"@.len());
            assert("ca_pst_sk"@.len() != "eu_oss_vat"@.len());
            assert("ca_qst"@.len() != "eu_oss_vat"@.len());
            assert("ch_vat"@.len() != "eu_oss_vat"@.len());
            assert("cl_tin"@.len() != "eu_oss_vat"@.len());
            assert("es_cif"@.len() != "eu_oss_vat"@.len());
        },
        TaxIdType::EuVat => {
            assert("ae_trn"@[0] != "eu_vat"@[0]);
            assert("au_abn"@[0] != "eu_vat"@[0]);
            assert("au_arn"@[0] != "eu_vat"@[0]);
            assert("bg_uic"@[0] != "eu_vat"@[0]);
            assert("br_cnpj"@.len() != "eu_vat"@.len());
            assert("br_cpf"@[0] != "eu_vat"@[0]);
            assert("ca_bn"@.len() != "eu_vat"@.len());
            assert("ca_gst_hst"@.len() != "eu_vat"@.len());
            assert("ca_pst_bc"@.len() != "eu_vat"@.len());
            assert("ca_pst_mb"@.len() != "eu_vat"@.len());
            assert("ca_pst_sk"@.len() != "eu_vat"@.len());
            assert("ca_qst"@[0] != "eu_vat"@[0]);
            assert("ch_vat"@[0] != "eu_vat"@[0]);
            assert("cl_tin"@[0] != "eu_vat"@[0]);
            assert("es_cif"@[1] != "eu_vat"@[1]);
            assert("eu_oss_vat"@.len() != "eu_vat"@.len());
        },
        TaxIdType::GbVat => {
            assert("ae_trn"@[0] != "gb_vat"@[0]);
            assert("au_abn"@[0] != "gb_vat"@[0]);
            assert("au_arn"@[0] != "gb_vat"@[0]);
            assert("bg_uic"@[0] != "gb_vat"@[0]);
            assert("br_cnpj"@.len() != "gb_vat"@.len());
            assert("br_cpf"@[0] != "gb_vat"@[0]);
            assert("ca_bn"@.len() != "gb_vat"@.len());
            assert("ca_gst_hst"@.len() != "gb_vat"@.len());
            assert("ca_pst_bc"@.len() != "gb_vat"@.len());
            assert("ca_pst_mb"@.len() != "gb_vat"@.len());
            assert("ca_pst_sk"@.len() != "gb_vat"@.len());
            assert("ca_qst"@[0] != "gb_vat"@[0]);
            assert("ch_vat"@[0] != "gb_vat"@[0]);
            assert("cl_tin"@[0] != "gb_vat"@[0]);
            assert("es_cif"@[0] != "gb_vat"@[0]);
            assert("eu_oss_vat"@.len() != "gb_vat"@.len());
            assert("eu_vat"@[0] != "gb_vat"@[0]);
        },
        TaxIdType::GeVat => {
            assert("ae_trn"@[0] != "ge_vat"@[0]);
            assert("au_abn"@[0] != "ge_vat"@[0]);
            assert("au_arn"@[0] != "ge_vat"@[0]);
            assert("bg_uic"@[0] != "ge_vat"@[0]);
            assert("br_cnpj"@.len() != "ge_vat"@.len());
            assert("br_cpf"@[0] != "ge_vat"@[0]);
            assert("ca_bn"@.len() != "ge_vat"@.len());
            assert("ca_gst_hst"@.len() != "ge_vat"@.len());
            assert("ca_pst_bc"@.len() != "ge_vat"@.len());
            assert("ca_pst_mb"@.len() != "ge_vat"@.len());
            assert("ca_pst_sk"@.len() != "ge_vat"@.len());
            assert("ca_qst"@[0] != "ge_vat"@[0]);
            assert("ch_vat"@[0] != "ge_vat"@[0]);
            assert("cl_tin"@[0] != "ge_vat"@[0]);
            assert("es_cif"@[0] != "ge_vat"@[0]);
            assert("eu_oss_vat"@.len() != "ge_vat"@.len());
            assert("eu_vat"@[0] != "ge_vat"@[0]);
            assert("gb_vat"@[1] != "ge_vat"@[1]);
        },
        TaxIdType::HkBr => {
            assert("ae_trn"@.len() != "hk_br"@.len());
            assert("au_abn"@.len() != "hk_br"@.len());
            assert("au_arn"@.len() != "hk_br"@.len());
            assert("bg_uic"@.len() != "hk_br"@.len());
            assert("br_cnpj"@.len() != "hk_br"@.len());
            assert("br_cpf"@.len() != "hk_br"@.len());
            assert("ca_bn"@[0] != "hk_br"@[0]);
            assert("ca_gst_hst"@.len() != "hk_br"@.len());
            assert("ca_pst_bc"@.len() != "hk_br"@.len());
            assert("ca_pst_mb"@.len() != "hk_br"@.len());
            assert("ca_pst_sk"@.len() != "hk_br"@.len());
            assert("ca_qst"@.len() != "hk_br"@.len());
            assert("ch_vat"@.len() != "hk_br"@.len());
            assert("cl_tin"@.len() != "hk_br"@.len());
            assert("es_cif"@.len() != "hk_br"@.len());
            assert("eu_oss_vat"@.len() != "hk_br"@.len());
            assert("eu_vat"@.len() != "hk_br"@.len());
            assert("gb_vat"@.len() != "hk_br"@.len());
            assert("ge_vat"@.len() != "hk_br"@.len());
        },
        TaxIdType::HuTin => {
            assert("ae_trn"@[0] != "hu_tin"@[0]);
            assert("au_abn"@[0] != "hu_tin"@[0]);
            assert("au_arn"@[0] != "hu_tin"@[0]);
            assert("bg_uic"@[0] != "hu_tin"@[0]);
            assert("br_cnpj"@.len() != "hu_tin"@.len());
            assert("br_cpf"@[0] != "hu_tin"@[0]);
            assert("ca_bn"@.len() != "hu_tin"@.len());
            assert("ca_gst_hst"@.len() != "hu_tin"@.len());
            assert("ca_pst_bc"@.len() != "hu_tin"@.len());
            assert("ca_pst_mb"@.len() != "hu_tin"@.len());
            assert("ca_pst_sk"@.len() != "hu_tin"@.len());
            assert("ca_qst"@[0] != "hu_tin"@[0]);
            assert("ch_vat"@[0] != "hu_tin"@[0]);
            assert("cl_tin"@[0] != "hu_tin"@[0]);
            assert("es_cif"@[0] != "hu_tin"@[0]);
            assert("eu_oss_vat"@.len() != "hu_tin"@.len());
            assert("eu_vat"@[0] != "hu_tin"@[0]);
            assert("gb_vat"@[0] != "hu_tin"@[0]);
            assert("ge_vat"@[0] != "hu_tin"@[0]);
            assert("hk_br"@.len() != "hu_tin"@.len());
        },
        TaxIdType::IdNpwp => {
            assert("ae_trn"@.len() != "id_npwp"@.len());
            assert("au_abn"@.len() != "id_npwp"@.len());
            assert("au_arn"@.len() != "id_npwp"@.len());
            assert("bg_uic"@.len() != "id_npwp"@.len());
            assert("br_cnpj"@[0] != "id_npwp"@[0]);
            assert("br_cpf"@.len() != "id_npwp"@.len());
            assert("ca_bn"@.len() != "id_npwp"@.len());
            assert("ca_gst_hst"@.len() != "id_npwp"@.len());
            assert("ca_pst_bc"@.len() != "id_npwp"@.len());
            assert("ca_pst_mb"@.len() != "id_npwp"@.len());
            assert("ca_pst_sk"@.len() != "id_npwp"@.len());
            assert("ca_qst"@.len() != "id_npwp"@.len());
            assert("ch_vat"@.len() != "id_npwp"@.len());
            assert("cl_tin"@.len() != "id_npwp"@.len());
            assert("es_cif"@.len() != "id_npwp"@.len());
            assert("eu_oss_vat"@.len() != "id_npwp"@.len());
            assert("eu_vat"@.len() != "id_npwp"@.len());
            assert("gb_vat"@.len() != "id_npwp"@.len());
            assert("ge_vat"@.len() != "id_npwp"@.len());
            assert("hk_br"@.len() != "id_npwp"@.len());
            assert("hu_tin"@.len() != "id_npwp"@.len());
        },
        TaxIdType::IlVat => {
            assert("ae_trn"@[0] != "il_vat"@[0]);
            assert("au_abn"@[0] != "il_vat"@[0]);
            assert("au_arn"@[0] != "il_vat"@[0]);
            assert("bg_uic"@[0] != "il_vat"@[0]);
            assert("br_cnpj"@.len() != "il_vat"@.len());
            assert("br_cpf"@[0] != "il_vat"@[0]);
            assert("ca_bn"@.len() != "il_vat"@.len());
            assert("ca_gst_hst"@.len() != "il_vat"@.len());
            assert("ca_pst_bc"@.len() != "il_vat"@.len());
            assert("ca_pst_mb"@.len() != "il_vat"@.len());
            assert("ca_pst_sk"@.len() != "il_vat"@.len());
            assert("ca_qst"@[0] != "il_vat"@[0]);
            assert("ch_vat"@[0] != "il_vat"@[0]);
            assert("cl_tin"@[0] != "il_vat"@[0]);
            assert("es_cif"@[0] != "il_vat"@[0]);
            assert("eu_oss_vat"@.len() != "il_vat"@.len());
            assert("eu_vat"@[0] != "il_vat"@[0]);
            assert("gb_vat"@[0] != "il_vat"@[0]);
            assert("ge_vat"@[0] != "il_vat"@[0]);
            assert("hk_br"@.len() != "il_vat"@.len());
            assert("hu_tin"@[0] != "il_vat"@[0]);
            assert("id_npwp"@.len() != "il_vat"@.len());
        },
        TaxIdType::InGst => {
            assert("ae_trn"@[0] != "in_gst"@[0]);
            assert("au_abn"@[0] != "in_gst"@[0]);
            assert("au_arn"@[0] != "in_gst"@[0]);
            assert("bg_uic"@[0] != "in_gst"@[0]);
            assert("br_cnpj"@.len() != "in_gst"@.len());
            assert("br_cpf"@[0] != "in_gst"@[0]);
            assert("ca_bn"@.len() != "in_gst"@.len());
            assert("ca_gst_hst"@.len() != "in_gst"@.len());
            assert("ca_pst_bc"@.len() != "in_gst"@.len());
            assert("ca_pst_mb"@.len() != "in_gst"@.len());
            assert("ca_pst_sk"@.len() != "in_gst"@.len());
            assert("ca_qst"@[0] != "in_gst"@[0]);
            assert("ch_vat"@[0] != "in_gst"@[0]);
            assert("cl_tin"@[0] != "in_gst"@[0]);
            assert("es_cif"@[0] != "in_gst"@[0]);
            assert("eu_oss_vat"@.len() != "in_gst"@.len());
            assert("eu_vat"@[0] != "in_gst"@[0]);
            assert("gb_vat"@[0] != "in_gst"@[0]);
            assert("ge_vat"@[0] != "in_gst"@[0]);
            assert("hk_br"@.len() != "in_gst"@.len());
            assert("hu_tin"@[0] != "in_gst"@[0]);
            assert("id_npwp"@.len() != "in_gst"@.len());
            assert("il_vat"@[1] != "in_gst"@[1]);
        },
        TaxIdType::IsVat => {
            assert("ae_trn"@[0] != "is_vat"@[0]);
            assert("au_abn"@[0] != "is_vat"@[0]);
            assert("au_arn"@[0] != "is_vat"@[0]);
            assert("bg_uic"@[0] != "is_vat"@[0]);
            assert("br_cnpj"@.len() != "is_vat"@.len());
            assert("br_cpf"@[0] != "is_vat"@[0]);
            assert("ca_bn"@.len() != "is_vat"@.len());
            assert("ca_gst_hst"@.len() != "is_vat"@.len());
            assert("ca_pst_bc"@.len() != "is_vat"@.len());
            assert("ca_pst_mb"@.len() != "is_vat"@.len());
            assert("ca_pst_sk"@.len() != "is_vat"@.len());
            assert("ca_qst"@[0] != "is_vat"@[0]);
            assert("ch_vat"@[0] != "is_vat"@[0]);
            assert("cl_tin"@[0] != "is_vat"@[0]);
            assert("es_cif"@[0] != "is_vat"@[0]);
            assert("eu_oss_vat"@.len() != "is_vat"@.len());
            assert("eu_vat"@[0] != "is_vat"@[0]);
            assert("gb_vat"@[0] != "is_vat"@[0]);
            assert("ge_vat"@[0] != "is_vat"@[0]);
            assert("hk_br"@.len() != "is_vat"@.len());
            assert("hu_tin"@[0] != "is_vat"@[0]);
            assert("id_npwp"@.len() != "is_vat"@.len());
            assert("il_vat"@[1] != "is_vat"@[1]);
            assert("in_gst"@[1] != "is_vat"@[1]);
        },
        TaxIdType::JpCn => {
            assert("ae_trn"@.len() != "jp_cn"@.len());
            assert("au_abn"@.len() != "jp_cn"@.len());
            assert("au_arn"@.len() != "jp_cn"@.len());
            assert("bg_uic"@.len() != "jp_cn"@.len());
            assert("br_cnpj"@.len() != "jp_cn"@.len());
            assert("br_cpf"@.len() != "jp_cn"@.len());
            assert("ca_bn"@[0] != "jp_cn"@[0]);
            assert("ca_gst_hst"@.len() != "jp_cn"@.len());
            assert("ca_pst_bc"@.len() != "jp_cn"@.len());
            assert("ca_pst_mb"@.len() != "jp_cn"@.len());
            assert("ca_pst_sk"@.len() != "jp_cn"@.len());
            assert("ca_qst"@.len() != "jp_cn"@.len());
            assert("ch_vat"@.len() != "jp_cn"@.len());
            assert("cl_tin"@.len() != "jp_cn"@.len());
            assert("es_cif"@.len() != "jp_cn"@.len());
            assert("eu_oss_vat"@.len() != "jp_cn"@.len());
            assert("eu_vat"@.len() != "jp_cn"@.len());
            assert("gb_vat"@.len() != "jp_cn"@.len());
            assert("ge_vat"@.len() != "jp_cn"@.len());
            assert("hk_br"@[0] != "jp_cn"@[0]);
            assert("hu_tin"@.len() != "jp_cn"@.len());
            assert("id_npwp"@.len() != "jp_cn"@.len());
            assert("il_vat"@.len() != "jp_cn"@.len());
            assert("in_gst"@.len() != "jp_cn"@.len());
            assert("is_vat"@.len() != "jp_cn"@.len());
        },
        TaxIdType::JpRn => {
            assert("ae_trn"@.len() != "jp_rn"@.len());
            assert("au_abn"@.len() != "jp_rn"@.len());
            assert("au_arn"@.len() != "jp_rn"@.len());
            assert("bg_uic"@.len() != "jp_rn"@.len());
            assert("br_cnpj"@.len() != "jp_rn"@.len());
            assert("br_cpf"@.len() != "jp_rn"@.len());
            assert("ca_bn"@[0] != "jp_rn"@[0]);
            assert("ca_gst_hst"@.len() != "jp_rn"@.len());
            assert("ca_pst_bc"@.len() != "jp_rn"@.len());
            assert("ca_pst_mb"@.len() != "jp_rn"@.len());
            assert("ca_pst_sk"@.len() != "jp_rn"@.len());
            assert("ca_qst"@.len() != "jp_rn"@.len());
            assert("ch_vat"@.len() != "jp_rn"@.len());
            assert("cl_tin"@.len() != "jp_rn"@.len());
            assert("es_cif"@.len() != "jp_rn"@.len());
            assert("eu_oss_vat"@.len() != "jp_rn"@.len());
            assert("eu_vat"@.len() != "jp_rn"@.len());
            assert("gb_vat"@.len() != "jp_rn"@.len());
            assert("ge_vat"@.len() != "jp_rn"@.len());
            assert("hk_br"@[0] != "jp_rn"@[0]);
            assert("hu_tin"@.len() != "jp_rn"@.len());
            assert("id_npwp"@.len() != "jp_rn"@.len());
            assert("il_vat"@.len() != "jp_rn"@.len());
            assert("in_gst"@.len() != "jp_rn"@.len());
            assert("is_vat"@.len() != "jp_rn"@.len());
            assert("jp_cn"@[3] != "jp_rn"@[3]);
        },
        TaxIdType::JpTrn => {
            assert("ae_trn"@[0] != "jp_trn"@[0]);
            assert("au_abn"@[0] != "jp_trn"@[0]);
            assert("au_arn"@[0] != "jp_trn"@[0]);
            assert("bg_uic"@[0] != "jp_trn"@[0]);
            assert("br_cnpj"@.len() != "jp_trn"@.len());
            assert("br_cpf"@[0] != "jp_trn"@[0]);
            assert("ca_bn"@.len() != "jp_trn"@.len());
            assert("ca_gst_hst"@.len() != "jp_trn"@.len());
            assert("ca_pst_bc"@.len() != "jp_trn"@.len());
            assert("ca_pst_mb"@.len() != "jp_trn"@.len());
            assert("ca_pst_sk"@.len() != "jp_trn"@.len());
            assert("ca_qst"@[0] != "jp_trn"@[0]);
            assert("ch_vat"@[0] != "jp_trn"@[0]);
            assert("cl_tin"@[0] != "jp_trn"@[0]);
            assert("es_cif"@[0] != "jp_trn"@[0]);
            assert("eu_oss_vat"@.len() != "jp_trn"@.len());
            assert("eu_vat"@[0] != "jp_trn"@[0]);
            assert("gb_vat"@[0] != "jp_trn"@[0]);
            assert("ge_vat"@[0] != "jp_trn"@[0]);
            assert("hk_br"@.len() != "jp_trn"@.len());
            assert("hu_tin"@[0] != "jp_trn"@[0]);
            assert("id_npwp"@.len() != "jp_trn"@.len());
            assert("il_vat"@[0] != "jp_trn"@[0]);
            assert("in_gst"@[0] != "jp_trn"@[0]);
            assert("is_vat"@[0] != "jp_trn"@[0]);
            assert("jp_cn"@.len() != "jp_trn"@.len());
            assert("jp_rn"@.len() != "jp_trn"@.len());
        },
        TaxIdType::KrBrn => {
            assert("ae_trn"@[0] != "kr_brn"@[0]);
            assert("au_abn"@[0] != "kr_brn"@[0]);
            assert("au_arn"@[0] != "kr_brn"@[0]);
            assert("bg_uic"@[0] != "kr_brn"@[0]);
            assert("br_cnpj"@.len() != "kr_brn"@.len());
            assert("br_cpf"@[0] != "kr_brn"@[0]);
            assert("ca_bn"@.len() != "kr_brn"@.len());
            assert("ca_gst_hst"@.len() != "kr_brn"@.len());
            assert("ca_pst_bc"@.len() != "kr_brn"@.len());
            assert("ca_pst_mb"@.len() != "kr_brn"@.len());
            assert("ca_pst_sk"@.len() != "kr_brn"@.len());
            assert("ca_qst"@[0] != "kr_brn"@[0]);
            assert("ch_vat"@[0] != "kr_brn"@[0]);
            assert("cl_tin"@[0] != "kr_brn"@[0]);
            assert("es_cif"@[0] != "kr_brn"@[0]);
            assert("eu_oss_vat"@.len() != "kr_brn"@.len());
            assert("eu_vat"@[0] != "kr_brn"@[0]);
            assert("gb_vat"@[0] != "kr_brn"@[0]);
            assert("ge_vat"@[0] != "kr_brn"@[0]);
            assert("hk_br"@.len() != "kr_brn"@.len());
            assert("hu_tin"@[0] != "kr_brn"@[0]);
            assert("id_npwp"@.len() != "kr_brn"@.len());
            assert("il_vat"@[0] != "kr_brn"@[0]);
            assert("in_gst"@[0] != "kr_brn"@[0]);
            assert("is_vat"@[0] != "kr_brn"@[0]);
            assert("jp_cn"@.len() != "kr_brn"@.len());
            assert("jp_rn"@.len() != "kr_brn"@.len());
            assert("jp_trn"@[0] != "kr_brn"@[0]);
        },
        TaxIdType::LiUid => {
            assert("ae_trn"@[0] != "li_uid"@[0]);
            assert("au_abn"@[0] != "li_uid"@[0]);
            assert("au_arn"@[0] != "li_uid"@[0]);
            assert("bg_uic"@[0] != "li_uid"@[0]);
            assert("br_cnpj"@.len() != "li_uid"@.len());
            assert("br_cpf"@[0] != "li_uid"@[0]);
            assert("ca_bn"@.len() != "li_uid"@.len());
            assert("ca_gst_hst"@.len() != "li_uid"@.len());
            assert("ca_pst_bc"@.len() != "li_uid"@.len());
            assert("ca_pst_mb"@.len() != "li_uid"@.len());
            assert("ca_pst_sk"@.len() != "li_uid"@.len());
            assert("ca_qst"@[0] != "li_uid"@[0]);
            assert("ch_vat"@[0] != "li_uid"@[0]);
            assert("cl_tin"@[0] != "li_uid"@[0]);
            assert("es_cif"@[0] != "li_uid"@[0]);
            assert("eu_oss_vat"@.len() != "li_uid"@.len());
            assert("eu_vat"@[0] != "li_uid"@[0]);
            assert("gb_vat"@[0] != "li_uid"@[0]);
            assert("ge_vat"@[0] != "li_uid"@[0]);
            assert("hk_br"@.len() != "li_uid"@.len());
            assert("hu_tin"@[0] != "li_uid"@[0]);
            assert("id_npwp"@.len() != "li_uid"@.len());
            assert("il_vat"@[0] != "li_uid"@[0]);
            assert("in_gst"@[0] != "li_uid"@[0]);
            assert("is_vat"@[0] != "li_uid"@[0]);
            assert("jp_cn"@.len() != "li_uid"@.len());
            assert("jp_rn"@.len() != "li_uid"@.len());
            assert("jp_trn"@[0] != "li_uid"@[0]);
            assert("kr_brn"@[0] != "li_uid"@[0]);
        },
        TaxIdType::MxRfc => {
            assert("ae_trn"@[0] != "mx_rfc"@[0]);
            assert("au_abn"@[0] != "mx_rfc"@[0]);
            assert("au_arn"@[0] != "mx_rfc"@[0]);
            assert("bg_uic"@[0] != "mx_rfc"@[0]);
            assert("br_cnpj"@.len() != "mx_rfc"@.len());
            assert("br_cpf"@[0] != "mx_rfc"@[0]);
            assert("ca_bn"@.len() != "mx_rfc"@.len());
            assert("ca_gst_hst"@.len() != "mx_rfc"@.len());
            assert("ca_pst_bc"@.len() != "mx_rfc"@.len());
            assert("ca_pst_mb"@.len() != "mx_rfc"@.len());
            assert("ca_pst_sk"@.len() != "mx_rfc"@.len());
            assert("ca_qst"@[0] != "mx_rfc"@[0]);
            assert("ch_vat"@[0] != "mx_rfc"@[0]);
            assert("cl_tin"@[0] != "mx_rfc"@[0]);
            assert("es_cif"@[0] != "mx_rfc"@[0]);
            assert("eu_oss_vat"@.len() != "mx_rfc"@.len());
            assert("eu_vat"@[0] != "mx_rfc"@[0]);
            assert("gb_vat"@[0] != "mx_rfc"@[0]);
            assert("ge_vat"@[0] != "mx_rfc"@[0]);
            assert("hk_br"@.len() != "mx_rfc"@.len());
            assert("hu_tin"@[0] != "mx_rfc"@[0]);
            assert("id_npwp"@.len() != "mx_rfc"@.len());
            assert("il_vat"@[0] != "mx_rfc"@[0]);
            assert("in_gst"@[0] != "mx_rfc"@[0]);
            assert("is_vat"@[0] != "mx_rfc"@[0]);
            assert("jp_cn"@.len() != "mx_rfc"@.len());
            assert("jp_rn"@.len() != "mx_rfc"@.len());
            assert("jp_trn"@[0] != "mx_rfc"@[0]);
            assert("kr_brn"@[0] != "mx_rfc"@[0]);
            assert("li_uid"@[0] != "mx_rfc"@[0]);
        },
        TaxIdType::MyFrp => {
            assert("ae_trn"@[0] != "my_frp"@[0]);
            assert("au_abn"@[0] != "my_frp"@[0]);
            assert("au_arn"@[0] != "my_frp"@[0]);
            assert("bg_uic"@[0] != "my_frp"@[0]);
            assert("br_cnpj"@.len() != "my_frp"@.len());
            assert("br_cpf"@[0] != "my_frp"@[0]);
            assert("ca_bn"@.len() != "my_frp"@.len());
            assert("ca_gst_hst"@.len() != "my_frp"@.len());
            assert("ca_pst_bc"@.len() != "my_frp"@.len());
            assert("ca_pst_mb"@.len() != "my_frp"@.len());
            assert("ca_pst_sk"@.len() != "my_frp"@.len());
            assert("ca_qst"@[0] != "my_frp"@[0]);
            assert("ch_vat"@[0] != "my_frp"@[0]);
            assert("cl_tin"@[0] != "my_frp"@[0]);
            assert("es_cif"@[0] != "my_frp"@[0]);
            assert("eu_oss_vat"@.len() != "my_frp"@.len());
            assert("eu_vat"@[0] != "my_frp"@[0]);
            assert("gb_vat"@[0] != "my_frp"@[0]);
            assert("ge_vat"@[0] != "my_frp"@[0]);
            assert("hk_br"@.len() != "my_frp"@.len());
            assert("hu_tin"@[0] != "my_frp"@[0]);
            assert("id_npwp"@.len() != "my_frp"@.len());
            assert("il_vat"@[0] != "my_frp"@[0]);
            assert("in_gst"@[0] != "my_frp"@[0]);
            assert("is_vat"@[0] != "my_frp"@[0]);
            assert("jp_cn"@.len() != "my_frp"@.len());
            assert("jp_rn"@.len() != "my_frp"@.len());
            assert("jp_trn"@[0] != "my_frp"@[0]);
            assert("kr_brn"@[0] != "my_frp"@[0]);
            assert("li_uid"@[0] != "my_frp"@[0]);
            assert("mx_rfc"@[1] != "my_frp"@[1]);
        },
        TaxIdType::MyItn => {
            assert("ae_trn"@[0] != "my_itn"@[0]);
            assert("au_abn"@[0] != "my_itn"@[0]);
            assert("au_arn"@[0] != "my_itn"@[0]);
            assert("bg_uic"@[0] != "my_itn"@[0]);
            assert("br_cnpj"@.len() != "my_itn"@.len());
            assert("br_cpf"@[0] != "my_itn"@[0]);
            assert("ca_bn"@.len() != "my_itn"@.len());
            assert("ca_gst_hst"@.len() != "my_itn"@.len());
            assert("ca_pst_bc"@.len() != "my_itn"@.len());
            assert("ca_pst_mb"@.len() != "my_itn"@.len());
            assert("ca_pst_sk"@.len() != "my_itn"@.len());
            assert("ca_qst"@[0] != "my_itn"@[0]);
            assert("ch_vat"@[0] != "my_itn"@[0]);
            assert("cl_tin"@[0] != "my_itn"@[0]);
            assert("es_cif"@[0] != "my_itn"@[0]);
            assert("eu_oss_vat"@.len() != "my_itn"@.len());
            assert("eu_vat"@[0] != "my_itn"@[0]);
            assert("gb_vat"@[0] != "my_itn"@[0]);
            assert("ge_vat"@[0] != "my_itn"@[0]);
            assert("hk_br"@.len() != "my_itn"@.len());
            assert("hu_tin"@[0] != "my_itn"@[0]);
            assert("id_npwp"@.len() != "my_itn"@.len());
            assert("il_vat"@[0] != "my_itn"@[0]);
            assert("in_gst"@[0] != "my_itn"@[0]);
            assert("is_vat"@[0] != "my_itn"@[0]);
            assert("jp_cn"@.len() != "my_itn"@.len());
            assert("jp_rn"@.len() != "my_itn"@.len());
            assert("jp_trn"@[0] != "my_itn"@[0]);
            assert("kr_brn"@[0] != "my_itn"@[0]);
            assert("li_uid"@[0] != "my_itn"@[0]);
            assert("mx_rfc"@[1] != "my_itn"@[1]);
            assert("my_frp"@[3] != "my_itn"@[3]);
        },
        TaxIdType::MySst => {
            assert("ae_trn"@[0] != "my_sst"@[0]);
            assert("au_abn"@[0] != "my_sst"@[0]);
            assert("au_arn"@[0] != "my_sst"@[0]);
            assert("bg_uic"@[0] != "my_sst"@[0]);
            assert("br_cnpj"@.len() != "my_sst"@.len());
            assert("br_cpf"@[0] != "my_sst"@[0]);
            assert("ca_bn"@.len() != "my_sst"@.len());
            assert("ca_gst_hst"@.len() != "my_sst"@.len());
            assert("ca_pst_bc"@.len() != "my_sst"@.len());
            assert("ca_pst_mb"@.len() != "my_sst"@.len());
            assert("ca_pst_sk"@.len() != "my_sst"@.len());
            assert("ca_qst"@[0] != "my_sst"@[0]);
            assert("ch_vat"@[0] != "my_sst"@[0]);
            assert("cl_tin"@[0] != "my_sst"@[0]);
            assert("es_cif"@[0] != "my_sst"@[0]);
            assert("eu_oss_vat"@.len() != "my_sst"@.len());
            assert("eu_vat"@[0] != "my_sst"@[0]);
            assert("gb_vat"@[0] != "my_sst"@[0]);
            assert("ge_vat"@[0] != "my_sst"@[0]);
            assert("hk_br"@.len() != "my_sst"@.len());
            assert("hu_tin"@[0] != "my_sst"@[0]);
            assert("id_npwp"@.len() != "my_sst"@.len());
            assert("il_vat"@[0] != "my_sst"@[0]);
            assert("in_gst"@[0] != "my_sst"@[0]);
            assert("is_vat"@[0] != "my_sst"@[0]);
            assert("jp_cn"@.len() != "my_sst"@.len());
            assert("jp_rn"@.len() != "my_sst"@.len());
            assert("jp_trn"@[0] != "my_sst"@[0]);
            assert("kr_brn"@[0] != "my_sst"@[0]);
            assert("li_uid"@[0] != "my_sst"@[0]);
            assert("mx_rfc"@[1] != "my_sst"@[1]);
            assert("my_frp"@[3] != "my_sst"@[3]);
            assert("my_itn"@[3] != "my_sst"@[3]);
        },
        TaxIdType::NoVat => {
            assert("ae_trn"@[0] != "no_vat"@[0]);
            assert("au_abn"@[0] != "no_vat"@[0]);
            assert("au_arn"@[0] != "no_vat"@[0]);
            assert("bg_uic"@[0] != "no_vat"@[0]);
            assert("br_cnpj"@.len() != "no_vat"@.len());
            assert("br_cpf"@[0] != "no_vat"@[0]);
            assert("ca_bn"@.len() != "no_vat"@.len());
            assert("ca_gst_hst"@.len() != "no_vat"@.len());
            assert("ca_pst_bc"@.len() != "no_vat"@.len());
            assert("ca_pst_mb"@.len() != "no_vat"@.len());
            assert("ca_pst_sk"@.len() != "no_vat"@.len());
            assert("ca_qst"@[0] != "no_vat"@[0]);
            assert("ch_vat"@[0] != "no_vat"@[0]);
            assert("cl_tin"@[0] != "no_vat"@[0]);
            assert("es_cif"@[0] != "no_vat"@[0]);
            assert("eu_oss_vat"@.len() != "no_vat"@.len());
            assert("eu_vat"@[0] != "no_vat"@[0]);
            assert("gb_vat"@[0] != "no_vat"@[0]);
            assert("ge_vat"@[0] != "no_vat"@[0]);
            assert("hk_br"@.len() != "no_vat"@.len());
            assert("hu_tin"@[0] != "no_vat"@[0]);
            assert("id_npwp"@.len() != "no_vat"@.len());
            assert("il_vat"@[0] != "no_vat"@[0]);
            assert("in_gst"@[0] != "no_vat"@[0]);
            assert("is_vat"@[0] != "no_vat"@[0]);
            assert("jp_cn"@.len() != "no_vat"@.len());
            assert("jp_rn"@.len() != "no_vat"@.len());
            assert("jp_trn"@[0] != "no_vat"@[0]);
            assert("kr_brn"@[0] != "no_vat"@[0]);
            assert("li_uid"@[0] != "no_vat"@[0]);
            assert("mx_rfc"@[0] != "no_vat"@[0]);
            assert("my_frp"@[0] != "no_vat"@[0]);
            assert("my_itn"@[0] != "no_vat"@[0]);
            assert("my_sst"@[0] != "no_vat"@[0]);
        },
        TaxIdType::NzGst => {
            assert("ae_trn"@[0] != "nz_gst"@[0]);
            assert("au_abn"@[0] != "nz_gst"@[0]);
            assert("au_arn"@[0] != "nz_gst"@[0]);
            assert("bg_uic"@[0] != "nz_gst"@[0]);
            assert("br_cnpj"@.len() != "nz_gst"@.len());
            assert("br_cpf"@[0] != "nz_gst"@[0]);
            assert("ca_bn"@.len() != "nz_gst"@.len());
            assert("ca_gst_hst"@.len() != "nz_gst"@.len());
            assert("ca_pst_bc"@.len() != "nz_gst"@.len());
            assert("ca_pst_mb"@.len() != "nz_gst"@.len());
            assert("ca_pst_sk"@.len() != "nz_gst"@.len());
            assert("ca_qst"@[0] != "nz_gst"@[0]);
            assert("ch_vat"@[0] != "nz_gst"@[0]);
            assert("cl_tin"@[0] != "nz_gst"@[0]);
            assert("es_cif"@[0] != "nz_gst"@[0]);
            assert("eu_oss_vat"@.len() != "nz_gst"@.len());
            assert("eu_vat"@[0] != "nz_gst"@[0]);
            assert("gb_vat"@[0] != "nz_gst"@[0]);
            assert("ge_vat"@[0] != "nz_gst"@[0]);
            assert("hk_br"@.len() != "nz_gst"@.len());
            assert("hu_tin"@[0] != "nz_gst"@[0]);
            assert("id_npwp"@.len() != "nz_gst"@.len());
            assert("il_vat"@[0] != "nz_gst"@[0]);
            assert("in_gst"@[0] != "nz_gst"@[0]);
            assert("is_vat"@[0] != "nz_gst"@[0]);
            assert("jp_cn"@.len() != "nz_gst"@.len());
            assert("jp_rn"@.len() != "nz_gst"@.len());
            assert("jp_trn"@[0] != "nz_gst"@[0]);
            assert("kr_brn"@[0] != "nz_gst"@[0]);
            assert("li_uid"@[0] != "nz_gst"@[0]);
            assert("mx_rfc"@[0] != "nz_gst"@[0]);
            assert("my_frp"@[0] != "nz_gst"@[0]);
            assert("my_itn"@[0] != "nz_gst"@[0]);
            assert("my_sst"@[0] != "nz_gst"@[0]);
            assert("no_vat"@[1] != "nz_gst"@[1]);
        },
        TaxIdType::RuInn => {
            assert("ae_trn"@[0] != "ru_inn"@[0]);
            assert("au_abn"@[0] != "ru_inn"@[0]);
            assert("au_arn"@[0] != "ru_inn"@[0]);
            assert("bg_uic"@[0] != "ru_inn"@[0]);
            assert("br_cnpj"@.len() != "ru_inn"@.len());
            assert("br_cpf"@[0] != "ru_inn"@[0]);
            assert("ca_bn"@.len() != "ru_inn"@.len());
            assert("ca_gst_hst"@.len() != "ru_inn"@.len());
            assert("ca_pst_bc"@.len() != "ru_inn"@.len());
            assert("ca_pst_mb"@.len() != "ru_inn"@.len());
            assert("ca_pst_sk"@.len() != "ru_inn"@.len());
            assert("ca_qst"@[0] != "ru_inn"@[0]);
            assert("ch_vat"@[0] != "ru_inn"@[0]);
            assert("cl_tin"@[0] != "ru_inn"@[0]);
            assert("es_cif"@[0] != "ru_inn"@[0]);
            assert("eu_oss_vat"@.len() != "ru_inn"@.len());
            assert("eu_vat"@[0] != "ru_inn"@[0]);
            assert("gb_vat"@[0] != "ru_inn"@[0]);
            assert("ge_vat"@[0] != "ru_inn"@[0]);
            assert("hk_br"@.len() != "ru_inn"@.len());
            assert("hu_tin"@[0] != "ru_inn"@[0]);
            assert("id_npwp"@.len() != "ru_inn"@.len());
            assert("il_vat"@[0] != "ru_inn"@[0]);
            assert("in_gst"@[0] != "ru_inn"@[0]);
            assert("is_vat"@[0] != "ru_inn"@[0]);
            assert("jp_cn"@.len() != "ru_inn"@.len());
            assert("jp_rn"@.len() != "ru_inn"@.len());
            assert("jp_trn"@[0] != "ru_inn"@[0]);
            assert("kr_brn"@[0] != "ru_inn"@[0]);
            assert("li_uid"@[0] != "ru_inn"@[0]);
            assert("mx_rfc"@[0] != "ru_inn"@[0]);
            assert("my_frp"@[0] != "ru_inn"@[0]);
            assert("my_itn"@[0] != "ru_inn"@[0]);
            assert("my_sst"@[0] != "ru_inn"@[0]);
            assert("no_vat"@[0] != "ru_inn"@[0]);
            assert("nz_gst"@[0] != "ru_inn"@[0]);
        },
        TaxIdType::RuKpp => {
            assert("ae_trn"@[0] != "ru_kpp"@[0]);
            assert("au_abn"@[0] != "ru_kpp"@[0]);
            assert("au_arn"@[0] != "ru_kpp"@[0]);
            assert("bg_uic"@[0] != "ru_kpp"@[0]);
            assert("br_cnpj"@.len() != "ru_kpp"@.len());
            assert("br_cpf"@[0] != "ru_kpp"@[0]);
            assert("ca_bn"@.len() != "ru_kpp"@.len());
            assert("ca_gst_hst"@.len() != "ru_kpp"@.len());
            assert("ca_pst_bc"@.len() != "ru_kpp"@.len());
            assert("ca_pst_mb"@.len() != "ru_kpp"@.len());
            assert("ca_pst_sk"@.len() != "ru_kpp"@.len());
            assert("ca_qst"@[0] != "ru_kpp"@[0]);
            assert("ch_vat"@[0] != "ru_kpp"@[0]);
            assert("cl_tin"@[0] != "ru_kpp"@[0]);
            assert("es_cif"@[0] != "ru_kpp"@[0]);
            assert("eu_oss_vat"@.len() != "ru_kpp"@.len());
            assert("eu_vat"@[0] != "ru_kpp"@[0]);
            assert("gb_vat"@[0] != "ru_kpp"@[0]);
            assert("ge_vat"@[0] != "ru_kpp"@[0]);
            assert("hk_br"@.len() != "ru_kpp"@.len());
            assert("hu_tin"@[0] != "ru_kpp"@[0]);
            assert("id_npwp"@.len() != "ru_kpp"@.len());
            assert("il_vat"@[0] != "ru_kpp"@[0]);
            assert("in_gst"@[0] != "ru_kpp"@[0]);
            assert("is_vat"@[0] != "ru_kpp"@[0]);
            assert("jp_cn"@.len() != "ru_kpp"@.len());
            assert("jp_rn"@.len() != "ru_kpp"@.len());
            assert("jp_trn"@[0] != "ru_kpp"@[0]);
            assert("kr_brn"@[0] != "ru_kpp"@[0]);
            assert("li_uid"@[0] != "ru_kpp"@[0]);
            assert("mx_rfc"@[0] != "ru_kpp"@[0]);
            assert("my_frp"@[0] != "ru_kpp"@[0]);
            assert("my_itn"@[0] != "ru_kpp"@[0]);
            assert("my_sst"@[0] != "ru_kpp"@[0]);
            assert("no_vat"@[0] != "ru_kpp"@[0]);
            assert("nz_gst"@[0] != "ru_kpp"@[0]);
            assert("ru_inn"@[3] != "ru_kpp"@[3]);
        },
        TaxIdType::SaVat => {
            assert("ae_trn"@[0] != "sa_vat"@[0]);
            assert("au_abn"@[0] != "sa_vat"@[0]);
            assert("au_arn"@[0] != "sa_vat"@[0]);
            assert("bg_uic"@[0] != "sa_vat"@[0]);
            assert("br_cnpj"@.len() != "sa_vat"@.len());
            assert("br_cpf"@[0] != "sa_vat"@[0]);
            assert("ca_bn"@.len() != "sa_vat"@.len());
            assert("ca_gst_hst"@.len() != "sa_vat"@.len());
            assert("ca_pst_bc"@.len() != "sa_vat"@.len());
            assert("ca_pst_mb"@.len() != "sa_vat"@.len());
            assert("ca_pst_sk"@.len() != "sa_vat"@.len());
            assert("ca_qst"@[0] != "sa_vat"@[0]);
            assert("ch_vat"@[0] != "sa_vat"@[0]);
            assert("cl_tin"@[0] != "sa_vat"@[0]);
            assert("es_cif"@[0] != "sa_vat"@[0]);
            assert("eu_oss_vat"@.len() != "sa_vat"@.len());
            assert("eu_vat"@[0] != "sa_vat"@[0]);
            assert("gb_vat"@[0] != "sa_vat"@[0]);
            assert("ge_vat"@[0] != "sa_vat"@[0]);
            assert("hk_br"@.len() != "sa_vat"@.len());
            assert("hu_tin"@[0] != "sa_vat"@[0]);
            assert("id_npwp"@.len() != "sa_vat"@.len());
            assert("il_vat"@[0] != "sa_vat"@[0]);
            assert("in_gst"@[0] != "sa_vat"@[0]);
            assert("is_vat"@[0] != "sa_vat"@[0]);
            assert("jp_cn"@.len() != "sa_vat"@.len());
            assert("jp_rn"@.len() != "sa_vat"@.len());
            assert("jp_trn"@[0] != "sa_vat"@[0]);
            assert("kr_brn"@[0] != "sa_vat"@[0]);
            assert("li_uid"@[0] != "sa_vat"@[0]);
            assert("mx_rfc"@[0] != "sa_vat"@[0]);
            assert("my_frp"@[0] != "sa_vat"@[0]);
            assert("my_itn"@[0] != "sa_vat"@[0]);
            assert("my_sst"@[0] != "sa_vat"@[0]);
            assert("no_vat"@[0] != "sa_vat"@[0]);
            assert("nz_gst"@[0] != "sa_vat"@[0]);
            assert("ru_inn"@[0] != "sa_vat"@[0]);
            assert("ru_kpp"@[0] != "sa_vat"@[0]);
        },
        TaxIdType::SgGst => {
            assert("ae_trn"@[0] != "sg_gst"@[0]);
            assert("au_abn"@[0] != "sg_gst"@[0]);
            assert("au_arn"@[0] != "sg_gst"@[0]);
            assert("bg_uic"@[0] != "sg_gst"@[0]);
            assert("br_cnpj"@.len() != "sg_gst"@.len());
            assert("br_cpf"@[0] != "sg_gst"@[0]);
            assert("ca_bn"@.len() != "sg_gst"@.len());
            assert("ca_gst_hst"@.len() != "sg_gst"@.len());
            assert("ca_pst_bc"@.len() != "sg_gst"@.len());
            assert("ca_pst_mb"@.len() != "sg_gst"@.len());
            assert("ca_pst_sk"@.len() != "sg_gst"@.len());
            assert("ca_qst"@[0] != "sg_gst"@[0]);
            assert("ch_vat"@[0] != "sg_gst"@[0]);
            assert("cl_tin"@[0] != "sg_gst"@[0]);
            assert("es_cif"@[0] != "sg_gst"@[0]);
            assert("eu_oss_vat"@.len() != "sg_gst"@.len());
            assert("eu_vat"@[0] != "sg_gst"@[0]);
            assert("gb_vat"@[0] != "sg_gst"@[0]);
            assert("ge_vat"@[0] != "sg_gst"@[0]);
            assert("hk_br"@.len() != "sg_gst"@.len());
            assert("hu_tin"@[0] != "sg_gst"@[0]);
            assert("id_npwp"@.len() != "sg_gst"@.len());
            assert("il_vat"@[0] != "sg_gst"@[0]);
            assert("in_gst"@[0] != "sg_gst"@[0]);
            assert("is_vat"@[0] != "sg_gst"@[0]);
            assert("jp_cn"@.len() != "sg_gst"@.len());
            assert("jp_rn"@.len() != "sg_gst"@.len());
            assert("jp_trn"@[0] != "sg_gst"@[0]);
            assert("kr_brn"@[0] != "sg_gst"@[0]);
            assert("li_uid"@[0] != "sg_gst"@[0]);
            assert("mx_rfc"@[0] != "sg_gst"@[0]);
            assert("my_frp"@[0] != "sg_gst"@[0]);
            assert("my_itn"@[0] != "sg_gst"@[0]);
            assert("my_sst"@[0] != "sg_gst"@[0]);
            assert("no_vat"@[0] != "sg_gst"@[0]);
            assert("nz_gst"@[0] != "sg_gst"@[0]);
            assert("ru_inn"@[0] != "sg_gst"@[0]);
            assert("ru_kpp"@[0] != "sg_gst"@[0]);
            assert("sa_vat"@[1] != "sg_gst"@[1]);
        },
        TaxIdType::SgUen => {
            assert("ae_trn"@[0] != "sg_uen"@[0]);
            assert("au_abn"@[0] != "sg_uen"@[0]);
            assert("au_arn"@[0] != "sg_uen"@[0]);
            assert("bg_uic"@[0] != "sg_uen"@[0]);
            assert("br_cnpj"@.len() != "sg_uen"@.len());
            assert("br_cpf"@[0] != "sg_uen"@[0]);
            assert("ca_bn"@.len() != "sg_uen"@.len());
            assert("ca_gst_hst"@.len() != "sg_uen"@.len());
            assert("ca_pst_bc"@.len() != "sg_uen"@.len());
            assert("ca_pst_mb"@.len() != "sg_uen"@.len());
            assert("ca_pst_sk"@.len() != "sg_uen"@.len());
            assert("ca_qst"@[0] != "sg_uen"@[0]);
            assert("ch_vat"@[0] != "sg_uen"@[0]);
            assert("cl_tin"@[0] != "sg_uen"@[0]);
            assert("es_cif"@[0] != "sg_uen"@[0]);
            assert("eu_oss_vat"@.len() != "sg_uen"@.len());
            assert("eu_vat"@[0] != "sg_uen"@[0]);
            assert("gb_vat"@[0] != "sg_uen"@[0]);
            assert("ge_vat"@[0] != "sg_uen"@[0]);
            assert("hk_br"@.len() != "sg_uen"@.len());
            assert("hu_tin"@[0] != "sg_uen"@[0]);
            assert("id_npwp"@.len() != "sg_uen"@.len());
            assert("il_vat"@[0] != "sg_uen"@[0]);
            assert("in_gst"@[0] != "sg_uen"@[0]);
            assert("is_vat"@[0] != "sg_uen"@[0]);
            assert("jp_cn"@.len() != "sg_uen"@.len());
            assert("jp_rn"@.len() != "sg_uen"@.len());
            assert("jp_trn"@[0] != "sg_uen"@[0]);
            assert("kr_brn"@[0] != "sg_uen"@[0]);
            assert("li_uid"@[0] != "sg_uen"@[0]);
            assert("mx_rfc"@[0] != "sg_uen"@[0]);
            assert("my_frp"@[0] != "sg_uen"@[0]);
            assert("my_itn"@[0] != "sg_uen"@[0]);
            assert("my_sst"@[0] != "sg_uen"@[0]);
            assert("no_vat"@[0] != "sg_uen"@[0]);
            assert("nz_gst"@[0] != "sg_uen"@[0]);
            assert("ru_inn"@[0] != "sg_uen"@[0]);
            assert("ru_kpp"@[0] != "sg_uen"@[0]);
            assert("sa_vat"@[1] != "sg_uen"@[1]);
            assert("sg_gst"@[3] != "sg_uen"@[3]);
        },
        TaxIdType::SiTin => {
            assert("ae_trn"@[0] != "si_tin"@[0]);
            assert("au_abn"@[0] != "si_tin"@[0]);
            assert("au_arn"@[0] != "si_tin"@[0]);
            assert("bg_uic"@[0] != "si_tin"@[0]);
            assert("br_cnpj"@.len() != "si_tin"@.len());
            assert("br_cpf"@[0] != "si_tin"@[0]);
            assert("ca_bn"@.len() != "si_tin"@.len());
            assert("ca_gst_hst"@.len() != "si_tin"@.len());
            assert("ca_pst_bc"@.len() != "si_tin"@.len());
            assert("ca_pst_mb"@.len() != "si_tin"@.len());
            assert("ca_pst_sk"@.len() != "si_tin"@.len());
            assert("ca_qst"@[0] != "si_tin"@[0]);
            assert("ch_vat"@[0] != "si_tin"@[0]);
            assert("cl_tin"@[0] != "si_tin"@[0]);
            assert("es_cif"@[0] != "si_tin"@[0]);
            assert("eu_oss_vat"@.len() != "si_tin"@.len());
            assert("eu_vat"@[0] != "si_tin"@[0]);
            assert("gb_vat"@[0] != "si_tin"@[0]);
            assert("ge_vat"@[0] != "si_tin"@[0]);
            assert("hk_br"@.len() != "si_tin"@.len());
            assert("hu_tin"@[0] != "si_tin"@[0]);
            assert("id_npwp"@.len() != "si_tin"@.len());
            assert("il_vat"@[0] != "si_tin"@[0]);
            assert("in_gst"@[0] != "si_tin"@[0]);
            assert("is_vat"@[0] != "si_tin"@[0]);
            assert("jp_cn"@.len() != "si_tin"@.len());
            assert("jp_rn"@.len() != "si_tin"@.len());
            assert("jp_trn"@[0] != "si_tin"@[0]);
            assert("kr_brn"@[0] != "si_tin"@[0]);
            assert("li_uid"@[0] != "si_tin"@[0]);
            assert("mx_rfc"@[0] != "si_tin"@[0]);
            assert("my_frp"@[0] != "si_tin"@[0]);
            assert("my_itn"@[0] != "si_tin"@[0]);
            assert("my_sst"@[0] != "si_tin"@[0]);
            assert("no_vat"@[0] != "si_tin"@[0]);
            assert("nz_gst"@[0] != "si_tin"@[0]);
            assert("ru_inn"@[0] != "si_tin"@[0]);
            assert("ru_kpp"@[0] != "si_tin"@[0]);
            assert("sa_vat"@[1] != "si_tin"@[1]);
            assert("sg_gst"@[1] != "si_tin"@[1]);
            assert("sg_uen"@[1] != "si_tin"@[1]);
        },
        TaxIdType::ThVat => {
            assert("ae_trn"@[0] != "th_vat"@[0]);
            assert("au_abn"@[0] != "th_vat"@[0]);
            assert("au_arn"@[0] != "th_vat"@[0]);
            assert("bg_uic"@[0] != "th_vat"@[0]);
            assert("br_cnpj"@.len() != "th_vat"@.len());
            assert("br_cpf"@[0] != "th_vat"@[0]);
            assert("ca_bn"@.len() != "th_vat"@.len());
            assert("ca_gst_hst"@.len() != "th_vat"@.len());
            assert("ca_pst_bc"@.len() != "th_vat"@.len());
            assert("ca_pst_mb"@.len() != "th_vat"@.len());
            assert("ca_pst_sk"@.len() != "th_vat"@.len());
            assert("ca_qst"@[0] != "th_vat"@[0]);
            assert("ch_vat"@[0] != "th_vat"@[0]);
            assert("cl_tin"@[0] != "th_vat"@[0]);
            assert("es_cif"@[0] != "th_vat"@[0]);
            assert("eu_oss_vat"@.len() != "th_vat"@.len());
            assert("eu_vat"@[0] != "th_vat"@[0]);
            assert("gb_vat"@[0] != "th_vat"@[0]);
            assert("ge_vat"@[0] != "th_vat"@[0]);
            assert("hk_br"@.len() != "th_vat"@.len());
            assert("hu_tin"@[0] != "th_vat"@[0]);
            assert("id_npwp"@.len() != "th_vat"@.len());
            assert("il_vat"@[0] != "th_vat"@[0]);
            assert("in_gst"@[0] != "th_vat"@[0]);
            assert("is_vat"@[0] != "th_vat"@[0]);
            assert("jp_cn"@.len() != "th_vat"@.len());
            assert("jp_rn"@.len() != "th_vat"@.len());
            assert("jp_trn"@[0] != "th_vat"@[0]);
            assert("kr_brn"@[0] != "th_vat"@[0]);
            assert("li_uid"@[0] != "th_vat"@[0]);
            assert("mx_rfc"@[0] != "th_vat"@[0]);
            assert("my_frp"@[0] != "th_vat"@[0]);
            assert("my_itn"@[0] != "th_vat"@[0]);
            assert("my_sst"@[0] != "th_vat"@[0]);
            assert("no_vat"@[0] != "th_vat"@[0]);
            assert("nz_gst"@[0] != "th_vat"@[0]);
            assert("ru_inn"@[0] != "th_vat"@[0]);
            assert("ru_kpp"@[0] != "th_vat"@[0]);
            assert("sa_vat"@[0] != "th_vat"@[0]);
            assert("sg_gst"@[0] != "th_vat"@[0]);
            assert("sg_uen"@[0] != "th_vat"@[0]);
            assert("si_tin"@[0] != "th_vat"@[0]);
        },
        TaxIdType::TwVat => {
            assert("ae_trn"@[0] != "tw_vat"@[0]);
            assert("au_abn"@[0] != "tw_vat"@[0]);
            assert("au_arn"@[0] != "tw_vat"@[0]);
            assert("bg_uic"@[0] != "tw_vat"@[0]);
            assert("br_cnpj"@.len() != "tw_vat"@.len());
            assert("br_cpf"@[0] != "tw_vat"@[0]);
            assert("ca_bn"@.len() != "tw_vat"@.len());
            assert("ca_gst_hst"@.len() != "tw_vat"@.len());
            assert("ca_pst_bc"@.len() != "tw_vat"@.len());
            assert("ca_pst_mb"@.len() != "tw_vat"@.len());
            assert("ca_pst_sk"@.len() != "tw_vat"@.len());
            assert("ca_qst"@[0] != "tw_vat"@[0]);
            assert("ch_vat"@[0] != "tw_vat"@[0]);
            assert("cl_tin"@[0] != "tw_vat"@[0]);
            assert("es_cif"@[0] != "tw_vat"@[0]);
            assert("eu_oss_vat"@.len() != "tw_vat"@.len());
            assert("eu_vat"@[0] != "tw_vat"@[0]);
            assert("gb_vat"@[0] != "tw_vat"@[0]);
            assert("ge_vat"@[0] != "tw_vat"@[0]);
            assert("hk_br"@.len() != "tw_vat"@.len());
            assert("hu_tin"@[0] != "tw_vat"@[0]);
            assert("id_npwp"@.len() != "tw_vat"@.len());
            assert("il_vat"@[0] != "tw_vat"@[0]);
            assert("in_gst"@[0] != "tw_vat"@[0]);
            assert("is_vat"@[0] != "tw_vat"@[0]);
            assert("jp_cn"@.len() != "tw_vat"@.len());
            assert("jp_rn"@.len() != "tw_vat"@.len());
            assert("jp_trn"@[0] != "tw_vat"@[0]);
            assert("kr_brn"@[0] != "tw_vat"@[0]);
            assert("li_uid"@[0] != "tw_vat"@[0]);
            assert("mx_rfc"@[0] != "tw_vat"@[0]);
            assert("my_frp"@[0] != "tw_vat"@[0]);
            assert("my_itn"@[0] != "tw_vat"@[0]);
            assert("my_sst"@[0] != "tw_vat"@[0]);
            assert("no_vat"@[0] != "tw_vat"@[0]);
            assert("nz_gst"@[0] != "tw_vat"@[0]);
            assert("ru_inn"@[0] != "tw_vat"@[0]);
            assert("ru_kpp"@[0] != "tw_vat"@[0]);
            assert("sa_vat"@[0] != "tw_vat"@[0]);
            assert("sg_gst"@[0] != "tw_vat"@[0]);
            assert("sg_uen"@[0] != "tw_vat"@[0]);
            assert("si_tin"@[0] != "tw_vat"@[0]);
            assert("th_vat"@[1] != "tw_vat"@[1]);
        },
        TaxIdType::UaVat => {
            assert("ae_trn"@[0] != "ua_vat"@[0]);
            assert("au_abn"@[0] != "ua_vat"@[0]);
            assert("au_arn"@[0] != "ua_vat"@[0]);
            assert("bg_uic"@[0] != "ua_vat"@[0]);
            assert("br_cnpj"@.len() != "ua_vat"@.len());
            assert("br_cpf"@[0] != "ua_vat"@[0]);
            assert("ca_bn"@.len() != "ua_vat"@.len());
            assert("ca_gst_hst"@.len() != "ua_vat"@.len());
            assert("ca_pst_bc"@.len() != "ua_vat"@.len());
            assert("ca_pst_mb"@.len() != "ua_vat"@.len());
            assert("ca_pst_sk"@.len() != "ua_vat"@.len());
            assert("ca_qst"@[0] != "ua_vat"@[0]);
            assert("ch_vat"@[0] != "ua_vat"@[0]);
            assert("cl_tin"@[0] != "ua_vat"@[0]);
            assert("es_cif"@[0] != "ua_vat"@[0]);
            assert("eu_oss_vat"@.len() != "ua_vat"@.len());
            assert("eu_vat"@[0] != "ua_vat"@[0]);
            assert("gb_vat"@[0] != "ua_vat"@[0]);
            assert("ge_vat"@[0] != "ua_vat"@[0]);
            assert("hk_br"@.len() != "ua_vat"@.len());
            assert("hu_tin"@[0] != "ua_vat"@[0]);
            assert("id_npwp"@.len() != "ua_vat"@.len());
            assert("il_vat"@[0] != "ua_vat"@[0]);
            assert("in_gst"@[0] != "ua_vat"@[0]);
            assert("is_vat"@[0] != "ua_vat"@[0]);
            assert("jp_cn"@.len() != "ua_vat"@.len());
            assert("jp_rn"@.len() != "ua_vat"@.len());
            assert("jp_trn"@[0] != "ua_vat"@[0]);
            assert("kr_brn"@[0] != "ua_vat"@[0]);
            assert("li_uid"@[0] != "ua_vat"@[0]);
            assert("mx_rfc"@[0] != "ua_vat"@[0]);
            assert("my_frp"@[0] != "ua_vat"@[0]);
            assert("my_itn"@[0] != "ua_vat"@[0]);
            assert("my_sst"@[0] != "ua_vat"@[0]);
            assert("no_vat"@[0] != "ua_vat"@[0]);
            assert("nz_gst"@[0] != "ua_vat"@[0]);
            assert("ru_inn"@[0] != "ua_vat"@[0]);
            assert("ru_kpp"@[0] != "ua_vat"@[0]);
            assert("sa_vat"@[0] != "ua_vat"@[0]);
            assert("sg_gst"@[0] != "ua_vat"@[0]);
            assert("sg_uen"@[0] != "ua_vat"@[0]);
            assert("si_tin"@[0] != "ua_vat"@[0]);
            assert("th_vat"@[0] != "ua_vat"@[0]);
            assert("tw_vat"@[0] != "ua_vat"@[0]);
        },
        TaxIdType::UsEin => {
            assert("ae_trn"@[0] != "us_ein"@[0]);
            assert("au_abn"@[0] != "us_ein"@[0]);
            assert("au_arn"@[0] != "us_ein"@[0]);
            assert("bg_uic"@[0] != "us_ein"@[0]);
            assert("br_cnpj"@.len() != "us_ein"@.len());
            assert("br_cpf"@[0] != "us_ein"@[0]);
            assert("ca_bn"@.len() != "us_ein"@.len());
            assert("ca_gst_hst"@.len() != "us_ein"@.len());
            assert("ca_pst_bc"@.len() != "us_ein"@.len());
            assert("ca_pst_mb"@.len() != "us_ein"@.len());
            assert("ca_pst_sk"@.len() != "us_ein"@.len());
            assert("ca_qst"@[0] != "us_ein"@[0]);
            assert("ch_vat"@[0] != "us_ein"@[0]);
            assert("cl_tin"@[0] != "us_ein"@[0]);
            assert("es_cif"@[0] != "us_ein"@[0]);
            assert("eu_oss_vat"@.len() != "us_ein"@.len());
            assert("eu_vat"@[0] != "us_ein"@[0]);
            assert("gb_vat"@[0] != "us_ein"@[0]);
            assert("ge_vat"@[0] != "us_ein"@[0]);
            assert("hk_br"@.len() != "us_ein"@.len());
            assert("hu_tin"@[0] != "us_ein"@[0]);
            assert("id_npwp"@.len() != "us_ein"@.len());
            assert("il_vat"@[0] != "us_ein"@[0]);
            assert("in_gst"@[0] != "us_ein"@[0]);
            assert("is_vat"@[0] != "us_ein"@[0]);
            assert("jp_cn"@.len() != "us_ein"@.len());
            assert("jp_rn"@.len() != "us_ein"@.len());
            assert("jp_trn"@[0] != "us_ein"@[0]);
            assert("kr_brn"@[0] != "us_ein"@[0]);
            assert("li_uid"@[0] != "us_ein"@[0]);
            assert("mx_rfc"@[0] != "us_ein"@[0]);
            assert("my_frp"@[0] != "us_ein"@[0]);
            assert("my_itn"@[0] != "us_ein"@[0]);
            assert("my_sst"@[0] != "us_ein"@[0]);
            assert("no_vat"@[0] != "us_ein"@[0]);
            assert("nz_gst"@[0] != "us_ein"@[0]);
            assert("ru_inn"@[0] != "us_ein"@[0]);
            assert("ru_kpp"@[0] != "us_ein"@[0]);
            assert("sa_vat"@[0] != "us_ein"@[0]);
            assert("sg_gst"@[0] != "us_ein"@[0]);
            assert("sg_uen"@[0] != "us_ein"@[0]);
            assert("si_tin"@[0] != "us_ein"@[0]);
            assert("th_vat"@[0] != "us_ein"@[0]);
            assert("tw_vat"@[0] != "us_ein"@[0]);
            assert("ua_vat"@[1] != "us_ein"@[1]);
        },
        TaxIdType::ZaVat => {
            assert("ae_trn"@[0] != "za_vat"@[0]);
            assert("au_abn"@[0] != "za_vat"@[0]);
            assert("au_arn"@[0] != "za_vat"@[0]);
            assert("bg_uic"@[0] != "za_vat"@[0]);
            assert("br_cnpj"@.len() != "za_vat"@.len());
            assert("br_cpf"@[0] != "za_vat"@[0]);
            assert("ca_bn"@.len() != "za_vat"@.len());
            assert("ca_gst_hst"@.len() != "za_vat"@.len());
            assert("ca_pst_bc"@.len() != "za_vat"@.len());
            assert("ca_pst_mb"@.len() != "za_vat"@.len());
            assert("ca_pst_sk"@.len() != "za_vat"@.len());
            assert("ca_qst"@[0] != "za_vat"@[0]);
            assert("ch_vat"@[0] != "za_vat"@[0]);
            assert("cl_tin"@[0] != "za_vat"@[0]);
            assert("es_cif"@[0] != "za_vat"@[0]);
            assert("eu_oss_vat"@.len() != "za_vat"@.len());
            assert("eu_vat"@[0] != "za_vat"@[0]);
            assert("gb_vat"@[0] != "za_vat"@[0]);
            assert("ge_vat"@[0] != "za_vat"@[0]);
            assert("hk_br"@.len() != "za_vat"@.len());
            assert("hu_tin"@[0] != "za_vat"@[0]);
            assert("id_npwp"@.len() != "za_vat"@.len());
            assert("il_vat"@[0] != "za_vat"@[0]);
            assert("in_gst"@[0] != "za_vat"@[0]);
            assert("is_vat"@[0] != "za_vat"@[0]);
            assert("jp_cn"@.len() != "za_vat"@.len());
            assert("jp_rn"@.len() != "za_vat"@.len());
            assert("jp_trn"@[0] != "za_vat"@[0]);
            assert("kr_brn"@[0] != "za_vat"@[0]);
            assert("li_uid"@[0] != "za_vat"@[0]);
            assert("mx_rfc"@[0] != "za_vat"@[0]);
            assert("my_frp"@[0] != "za_vat"@[0]);
            assert("my_itn"@[0] != "za_vat"@[0]);
            assert("my_sst"@[0] != "za_vat"@[0]);
            assert("no_vat"@[0] != "za_vat"@[0]);
            assert("nz_gst"@[0] != "za_vat"@[0]);
            assert("ru_inn"@[0] != "za_vat"@[0]);
            assert("ru_kpp"@[0] != "za_vat"@[0]);
            assert("sa_vat"@[0] != "za_vat"@[0]);
            assert("sg_gst"@[0] != "za_vat"@[0]);
            assert("sg_uen"@[0] != "za_vat"@[0]);
            assert("si_tin"@[0] != "za_vat"@[0]);
            assert("th_vat"@[0] != "za_vat"@[0]);
            assert("tw_vat"@[0] != "za_vat"@[0]);
            assert("ua_vat"@[0] != "za_vat"@[0]);
            assert("us_ein"@[0] != "za_vat"@[0]);
        },
        TaxIdType::Other(_) => {},
    }
}

} // verus!
