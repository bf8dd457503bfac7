//! The language codes that requests carry.

use vstd::prelude::*;
use vstd::string::StringExecFns;

use crate::percent::{lemma_kept_text, percent_encoded};
use crate::text::{chars_of, is_ascii_letter, letter_str};

verus! {

/// Two-letter language codes (ISO 639-1).
#[derive(Debug, Clone, Copy, PartialEq, Eq, Structural)]
pub enum LanguageCode {
    /// Afar.
    Aa,
    /// Abkhazian.
    Ab,
    /// Afrikaans.
    Af,
    /// Amharic.
    Am,
    /// Arabic.
    Ar,
    /// Assamese.
    As,
    /// Aymara.
    Ay,
    /// Azerbaijani.
    Az,
    /// Bashkir.
    Ba,
    /// Byelorussian.
    Be,
    /// Bulgarian.
    Bg,
    /// Bihari.
    Bh,
    /// Bislama.
    Bi,
    /// Bengali.
    Bn,
    /// Tibetan.
    Bo,
    /// Breton.
    Br,
    /// Catalan.
    Ca,
    /// Corsican.
    Co,
    /// Czech.
    Cs,
    /// Welch.
    Cy,
    /// Danish.
    Da,
    /// German.
    De,
    /// Bhutani.
    Dz,
    /// Greek.
    El,
    /// English.
    En,
    /// Esperanto.
    Eo,
    /// Spanish.
    Es,
    /// Estonian.
    Et,
    /// Basque.
    Eu,
    /// Persian.
    Fa,
    /// Finnish.
    Fi,
    /// Fiji.
    Fj,
    /// Faeroese.
    Fo,
    /// French.
    Fr,
    /// Frisian.
    Fy,
    /// Irish.
    Ga,
    /// Scots Gaelic.
    Gd,
    /// Galician.
    Gl,
    /// Guarani.
    Gn,
    /// Gujarati.
    Gu,
    /// Hausa.
    Ha,
    /// Hindi.
    Hi,
    /// Hebrew.
    He,
    /// Croatian.
    Hr,
    /// Hungarian.
    Hu,
    /// Armenian.
    Hy,
    /// Interlingua.
    Ia,
    /// Indonesian.
    Id,
    /// Interlingue.
    Ie,
    /// Inupiak.
    Ik,
    /// former Indonesian.
    In,
    /// Icelandic.
    Is,
    /// Italian.
    It,
    /// Inuktitut (Eskimo).
    Iu,
    /// former Hebrew.
    Iw,
    /// Japanese.
    Ja,
    /// former Yiddish.
    Ji,
    /// Javanese.
    Jw,
    /// Georgian.
    Ka,
    /// Kazakh.
    Kk,
    /// Greenlandic.
    Kl,
    /// Cambodian.
    Km,
    /// Kannada.
    Kn,
    /// Korean.
    Ko,
    /// Kashmiri.
    Ks,
    /// Kurdish.
    Ku,
    /// Kirghiz.
    Ky,
    /// Latin.
    La,
    /// Lingala.
    Ln,
    /// Laothian.
    Lo,
    /// Lithuanian.
    Lt,
    /// Latvian, Lettish.
    Lv,
    /// Malagasy.
    Mg,
    /// Maori.
    Mi,
    /// Macedonian.
    Mk,
    /// Malayalam.
    Ml,
    /// Mongolian.
    Mn,
    /// Moldavian.
    Mo,
    /// Marathi.
    Mr,
    /// Malay.
    Ms,
    /// Maltese.
    Mt,
    /// Burmese.
    My,
    /// Nauru.
    Na,
    /// Nepali.
    Ne,
    /// Dutch.
    Nl,
    /// Norwegian.
    No,
    /// Occitan.
    Oc,
    /// (Afan) Oromo.
    Om,
    /// Oriya.
    Or,
    /// Punjabi.
    Pa,
    /// Polish.
    Pl,
    /// Pashto, Pushto.
    Ps,
    /// Portuguese.
    Pt,
    /// Quechua.
    Qu,
    /// Rhaeto-Romance.
    Rm,
    /// Kirundi.
    Rn,
    /// Romanian.
    Ro,
    /// Russian.
    Ru,
    /// Kinyarwanda.
    Rw,
    /// Sanskrit.
    Sa,
    /// Sindhi.
    Sd,
    /// Sangro.
    Sg,
    /// Serbo-Croatian.
    Sh,
    /// Singhalese.
    Si,
    /// Slovak.
    Sk,
    /// Slovenian.
    Sl,
    /// Samoan.
    Sm,
    /// Shona.
    Sn,
    /// Somali.
    So,
    /// Albanian.
    Sq,
    /// Serbian.
    Sr,
    /// Siswati.
    Ss,
    /// Sesotho.
    St,
    /// Sudanese.
    Su,
    /// Swedish.
    Sv,
    /// Swahili.
    Sw,
    /// Tamil.
    Ta,
    /// Tegulu.
    Te,
    /// Tajik.
    Tg,
    /// Thai.
    Th,
    /// Tigrinya.
    Ti,
    /// Turkmen.
    Tk,
    /// Tagalog.
    Tl,
    /// Setswana.
    Tn,
    /// Tonga.
    To,
    /// Turkish.
    Tr,
    /// Tsonga.
    Ts,
    /// Tatar.
    Tt,
    /// Twi.
    Tw,
    /// Uigur.
    Ug,
    /// Ukrainian.
    Uk,
    /// Urdu.
    Ur,
    /// Uzbek.
    Uz,
    /// Vietnamese.
    Vi,
    /// Volapuk.
    Vo,
    /// Wolof.
    Wo,
    /// Xhosa.
    Xh,
    /// Yiddish.
    Yi,
    /// Yoruba.
    Yo,
    /// Zhuang.
    Za,
    /// Chinese.
    Zh,
    /// Zulu.
    Zu,
}

impl LanguageCode {
    /// The two letters of the code.
    pub open spec fn letters(self) -> (char, char) {
        match self {
            LanguageCode::Aa => ('a', 'a'),
            LanguageCode::Ab => ('a', 'b'),
            LanguageCode::Af => ('a', 'f'),
            LanguageCode::Am => ('a', 'm'),
            LanguageCode::Ar => ('a', 'r'),
            LanguageCode::As => ('a', 's'),
            LanguageCode::Ay => ('a', 'y'),
            LanguageCode::Az => ('a', 'z'),
            LanguageCode::Ba => ('b', 'a'),
            LanguageCode::Be => ('b', 'e'),
            LanguageCode::Bg => ('b', 'g'),
            LanguageCode::Bh => ('b', 'h'),
            LanguageCode::Bi => ('b', 'i'),
            LanguageCode::Bn => ('b', 'n'),
            LanguageCode::Bo => ('b', 'o'),
            LanguageCode::Br => ('b', 'r'),
            LanguageCode::Ca => ('c', 'a'),
            LanguageCode::Co => ('c', 'o'),
            LanguageCode::Cs => ('c', 's'),
            LanguageCode::Cy => ('c', 'y'),
            LanguageCode::Da => ('d', 'a'),
            LanguageCode::De => ('d', 'e'),
            LanguageCode::Dz => ('d', 'z'),
            LanguageCode::El => ('e', 'l'),
            LanguageCode::En => ('e', 'n'),
            LanguageCode::Eo => ('e', 'o'),
            LanguageCode::Es => ('e', 's'),
            LanguageCode::Et => ('e', 't'),
            LanguageCode::Eu => ('e', 'u'),
            LanguageCode::Fa => ('f', 'a'),
            LanguageCode::Fi => ('f', 'i'),
            LanguageCode::Fj => ('f', 'j'),
            LanguageCode::Fo => ('f', 'o'),
            LanguageCode::Fr => ('f', 'r'),
            LanguageCode::Fy => ('f', 'y'),
            LanguageCode::Ga => ('g', 'a'),
            LanguageCode::Gd => ('g', 'd'),
            LanguageCode::Gl => ('g', 'l'),
            LanguageCode::Gn => ('g', 'n'),
            LanguageCode::Gu => ('g', 'u'),
            LanguageCode::Ha => ('h', 'a'),
            LanguageCode::Hi => ('h', 'i'),
            LanguageCode::He => ('h', 'e'),
            LanguageCode::Hr => ('h', 'r'),
            LanguageCode::Hu => ('h', 'u'),
            LanguageCode::Hy => ('h', 'y'),
            LanguageCode::Ia => ('i', 'a'),
            LanguageCode::Id => ('i', 'd'),
            LanguageCode::Ie => ('i', 'e'),
            LanguageCode::Ik => ('i', 'k'),
            LanguageCode::In => ('i', 'n'),
            LanguageCode::Is => ('i', 's'),
            LanguageCode::It => ('i', 't'),
            LanguageCode::Iu => ('i', 'u'),
            LanguageCode::Iw => ('i', 'w'),
            LanguageCode::Ja => ('j', 'a'),
            LanguageCode::Ji => ('j', 'i'),
            LanguageCode::Jw => ('j', 'w'),
            LanguageCode::Ka => ('k', 'a'),
            LanguageCode::Kk => ('k', 'k'),
            LanguageCode::Kl => ('k', 'l'),
            LanguageCode::Km => ('k', 'm'),
            LanguageCode::Kn => ('k', 'n'),
            LanguageCode::Ko => ('k', 'o'),
            LanguageCode::Ks => ('k', 's'),
            LanguageCode::Ku => ('k', 'u'),
            LanguageCode::Ky => ('k', 'y'),
            LanguageCode::La => ('l', 'a'),
            LanguageCode::Ln => ('l', 'n'),
            LanguageCode::Lo => ('l', 'o'),
            LanguageCode::Lt => ('l', 't'),
            LanguageCode::Lv => ('l', 'v'),
            LanguageCode::Mg => ('m', 'g'),
            LanguageCode::Mi => ('m', 'i'),
            LanguageCode::Mk => ('m', 'k'),
            LanguageCode::Ml => ('m', 'l'),
            LanguageCode::Mn => ('m', 'n'),
            LanguageCode::Mo => ('m', 'o'),
            LanguageCode::Mr => ('m', 'r'),
            LanguageCode::Ms => ('m', 's'),
            LanguageCode::Mt => ('m', 't'),
            LanguageCode::My => ('m', 'y'),
            LanguageCode::Na => ('n', 'a'),
            LanguageCode::Ne => ('n', 'e'),
            LanguageCode::Nl => ('n', 'l'),
            LanguageCode::No => ('n', 'o'),
            LanguageCode::Oc => ('o', 'c'),
            LanguageCode::Om => ('o', 'm'),
            LanguageCode::Or => ('o', 'r'),
            LanguageCode::Pa => ('p', 'a'),
            LanguageCode::Pl => ('p', 'l'),
            LanguageCode::Ps => ('p', 's'),
            LanguageCode::Pt => ('p', 't'),
            LanguageCode::Qu => ('q', 'u'),
            LanguageCode::Rm => ('r', 'm'),
            LanguageCode::Rn => ('r', 'n'),
            LanguageCode::Ro => ('r', 'o'),
            LanguageCode::Ru => ('r', 'u'),
            LanguageCode::Rw => ('r', 'w'),
            LanguageCode::Sa => ('s', 'a'),
            LanguageCode::Sd => ('s', 'd'),
            LanguageCode::Sg => ('s', 'g'),
            LanguageCode::Sh => ('s', 'h'),
            LanguageCode::Si => ('s', 'i'),
            LanguageCode::Sk => ('s', 'k'),
            LanguageCode::Sl => ('s', 'l'),
            LanguageCode::Sm => ('s', 'm'),
            LanguageCode::Sn => ('s', 'n'),
            LanguageCode::So => ('s', 'o'),
            LanguageCode::Sq => ('s', 'q'),
            LanguageCode::Sr => ('s', 'r'),
            LanguageCode::Ss => ('s', 's'),
            LanguageCode::St => ('s', 't'),
            LanguageCode::Su => ('s', 'u'),
            LanguageCode::Sv => ('s', 'v'),
            LanguageCode::Sw => ('s', 'w'),
            LanguageCode::Ta => ('t', 'a'),
            LanguageCode::Te => ('t', 'e'),
            LanguageCode::Tg => ('t', 'g'),
            LanguageCode::Th => ('t', 'h'),
            LanguageCode::Ti => ('t', 'i'),
            LanguageCode::Tk => ('t', 'k'),
            LanguageCode::Tl => ('t', 'l'),
            LanguageCode::Tn => ('t', 'n'),
            LanguageCode::To => ('t', 'o'),
            LanguageCode::Tr => ('t', 'r'),
            LanguageCode::Ts => ('t', 's'),
            LanguageCode::Tt => ('t', 't'),
            LanguageCode::Tw => ('t', 'w'),
            LanguageCode::Ug => ('u', 'g'),
            LanguageCode::Uk => ('u', 'k'),
            LanguageCode::Ur => ('u', 'r'),
            LanguageCode::Uz => ('u', 'z'),
            LanguageCode::Vi => ('v', 'i'),
            LanguageCode::Vo => ('v', 'o'),
            LanguageCode::Wo => ('w', 'o'),
            LanguageCode::Xh => ('x', 'h'),
            LanguageCode::Yi => ('y', 'i'),
            LanguageCode::Yo => ('y', 'o'),
            LanguageCode::Za => ('z', 'a'),
            LanguageCode::Zh => ('z', 'h'),
            LanguageCode::Zu => ('z', 'u'),
        }
    }

    /// The language that two letters name, if any.
    pub open spec fn of_letters(first: char, second: char) -> Option<LanguageCode> {
        match first {
            'a' => match second {
                'a' => Some(LanguageCode::Aa),
                'b' => Some(LanguageCode::Ab),
                'f' => Some(LanguageCode::Af),
                'm' => Some(LanguageCode::Am),
                'r' => Some(LanguageCode::Ar),
                's' => Some(LanguageCode::As),
                'y' => Some(LanguageCode::Ay),
                'z' => Some(LanguageCode::Az),
                _ => None,
            },
            'b' => match second {
                'a' => Some(LanguageCode::Ba),
                'e' => Some(LanguageCode::Be),
                'g' => Some(LanguageCode::Bg),
                'h' => Some(LanguageCode::Bh),
                'i' => Some(LanguageCode::Bi),
                'n' => Some(LanguageCode::Bn),
                'o' => Some(LanguageCode::Bo),
                'r' => Some(LanguageCode::Br),
                _ => None,
            },
            'c' => match second {
                'a' => Some(LanguageCode::Ca),
                'o' => Some(LanguageCode::Co),
                's' => Some(LanguageCode::Cs),
                'y' => Some(LanguageCode::Cy),
                _ => None,
            },
            'd' => match second {
                'a' => Some(LanguageCode::Da),
                'e' => Some(LanguageCode::De),
                'z' => Some(LanguageCode::Dz),
                _ => None,
            },
            'e' => match second {
                'l' => Some(LanguageCode::El),
                'n' => Some(LanguageCode::En),
                'o' => Some(LanguageCode::Eo),
                's' => Some(LanguageCode::Es),
                't' => Some(LanguageCode::Et),
                'u' => Some(LanguageCode::Eu),
                _ => None,
            },
            'f' => match second {
                'a' => Some(LanguageCode::Fa),
                'i' => Some(LanguageCode::Fi),
                'j' => Some(LanguageCode::Fj),
                'o' => Some(LanguageCode::Fo),
                'r' => Some(LanguageCode::Fr),
                'y' => Some(LanguageCode::Fy),
                _ => None,
            },
            'g' => match second {
                'a' => Some(LanguageCode::Ga),
                'd' => Some(LanguageCode::Gd),
                'l' => Some(LanguageCode::Gl),
                'n' => Some(LanguageCode::Gn),
                'u' => Some(LanguageCode::Gu),
                _ => None,
            },
            'h' => match second {
                'a' => Some(LanguageCode::Ha),
                'i' => Some(LanguageCode::Hi),
                'e' => Some(LanguageCode::He),
                'r' => Some(LanguageCode::Hr),
                'u' => Some(LanguageCode::Hu),
                'y' => Some(LanguageCode::Hy),
                _ => None,
            },
            'i' => match second {
                'a' => Some(LanguageCode::Ia),
                'd' => Some(LanguageCode::Id),
                'e' => Some(LanguageCode::Ie),
                'k' => Some(LanguageCode::Ik),
                'n' => Some(LanguageCode::In),
                's' => Some(LanguageCode::Is),
                't' => Some(LanguageCode::It),
                'u' => Some(LanguageCode::Iu),
                'w' => Some(LanguageCode::Iw),
                _ => None,
            },
            'j' => match second {
                'a' => Some(LanguageCode::Ja),
                'i' => Some(LanguageCode::Ji),
                'w' => Some(LanguageCode::Jw),
                _ => None,
            },
            'k' => match second {
                'a' => Some(LanguageCode::Ka),
                'k' => Some(LanguageCode::Kk),
                'l' => Some(LanguageCode::Kl),
                'm' => Some(LanguageCode::Km),
                'n' => Some(LanguageCode::Kn),
                'o' => Some(LanguageCode::Ko),
                's' => Some(LanguageCode::Ks),
                'u' => Some(LanguageCode::Ku),
                'y' => Some(LanguageCode::Ky),
                _ => None,
            },
            'l' => match second {
                'a' => Some(LanguageCode::La),
                'n' => Some(LanguageCode::Ln),
                'o' => Some(LanguageCode::Lo),
                't' => Some(LanguageCode::Lt),
                'v' => Some(LanguageCode::Lv),
                _ => None,
            },
            'm' => match second {
                'g' => Some(LanguageCode::Mg),
                'i' => Some(LanguageCode::Mi),
                'k' => Some(LanguageCode::Mk),
                'l' => Some(LanguageCode::Ml),
                'n' => Some(LanguageCode::Mn),
                'o' => Some(LanguageCode::Mo),
                'r' => Some(LanguageCode::Mr),
                's' => Some(LanguageCode::Ms),
                't' => Some(LanguageCode::Mt),
                'y' => Some(LanguageCode::My),
                _ => None,
            },
            'n' => match second {
                'a' => Some(LanguageCode::Na),
                'e' => Some(LanguageCode::Ne),
                'l' => Some(LanguageCode::Nl),
                'o' => Some(LanguageCode::No),
                _ => None,
            },
            'o' => match second {
                'c' => Some(LanguageCode::Oc),
                'm' => Some(LanguageCode::Om),
                'r' => Some(LanguageCode::Or),
                _ => None,
            },
            'p' => match second {
                'a' => Some(LanguageCode::Pa),
                'l' => Some(LanguageCode::Pl),
                's' => Some(LanguageCode::Ps),
                't' => Some(LanguageCode::Pt),
                _ => None,
            },
            'q' => match second {
                'u' => Some(LanguageCode::Qu),
                _ => None,
            },
            'r' => match second {
                'm' => Some(LanguageCode::Rm),
                'n' => Some(LanguageCode::Rn),
                'o' => Some(LanguageCode::Ro),
                'u' => Some(LanguageCode::Ru),
                'w' => Some(LanguageCode::Rw),
                _ => None,
            },
            's' => match second {
                'a' => Some(LanguageCode::Sa),
                'd' => Some(LanguageCode::Sd),
                'g' => Some(LanguageCode::Sg),
                'h' => Some(LanguageCode::Sh),
                'i' => Some(LanguageCode::Si),
                'k' => Some(LanguageCode::Sk),
                'l' => Some(LanguageCode::Sl),
                'm' => Some(LanguageCode::Sm),
                'n' => Some(LanguageCode::Sn),
                'o' => Some(LanguageCode::So),
                'q' => Some(LanguageCode::Sq),
                'r' => Some(LanguageCode::Sr),
                's' => Some(LanguageCode::Ss),
                't' => Some(LanguageCode::St),
                'u' => Some(LanguageCode::Su),
                'v' => Some(LanguageCode::Sv),
                'w' => Some(LanguageCode::Sw),
                _ => None,
            },
            't' => match second {
                'a' => Some(LanguageCode::Ta),
                'e' => Some(LanguageCode::Te),
                'g' => Some(LanguageCode::Tg),
                'h' => Some(LanguageCode::Th),
                'i' => Some(LanguageCode::Ti),
                'k' => Some(LanguageCode::Tk),
                'l' => Some(LanguageCode::Tl),
                'n' => Some(LanguageCode::Tn),
                'o' => Some(LanguageCode::To),
                'r' => Some(LanguageCode::Tr),
                's' => Some(LanguageCode::Ts),
                't' => Some(LanguageCode::Tt),
                'w' => Some(LanguageCode::Tw),
                _ => None,
            },
            'u' => match second {
                'g' => Some(LanguageCode::Ug),
                'k' => Some(LanguageCode::Uk),
                'r' => Some(LanguageCode::Ur),
                'z' => Some(LanguageCode::Uz),
                _ => None,
            },
            'v' => match second {
                'i' => Some(LanguageCode::Vi),
                'o' => Some(LanguageCode::Vo),
                _ => None,
            },
            'w' => match second {
                'o' => Some(LanguageCode::Wo),
                _ => None,
            },
            'x' => match second {
                'h' => Some(LanguageCode::Xh),
                _ => None,
            },
            'y' => match second {
                'i' => Some(LanguageCode::Yi),
                'o' => Some(LanguageCode::Yo),
                _ => None,
            },
            'z' => match second {
                'a' => Some(LanguageCode::Za),
                'h' => Some(LanguageCode::Zh),
                'u' => Some(LanguageCode::Zu),
                _ => None,
            },
            _ => None,
        }
    }

    /// The name under which the code is written on the wire: its two
    /// letters.
    pub open spec fn wire(self) -> Seq<char> {
        seq![self.letters().0, self.letters().1]
    }

    /// Whether `name` is read as this code.
    pub open spec fn reads(self, name: Seq<char>) -> bool {
        name == self.wire()
    }

    /// The two letters of the code.
    pub fn code(&self) -> (letters: (char, char))
        ensures
            letters == self.letters(),
    {
        match self {
            LanguageCode::Aa => ('a', 'a'),
            LanguageCode::Ab => ('a', 'b'),
            LanguageCode::Af => ('a', 'f'),
            LanguageCode::Am => ('a', 'm'),
            LanguageCode::Ar => ('a', 'r'),
            LanguageCode::As => ('a', 's'),
            LanguageCode::Ay => ('a', 'y'),
            LanguageCode::Az => ('a', 'z'),
            LanguageCode::Ba => ('b', 'a'),
            LanguageCode::Be => ('b', 'e'),
            LanguageCode::Bg => ('b', 'g'),
            LanguageCode::Bh => ('b', 'h'),
            LanguageCode::Bi => ('b', 'i'),
            LanguageCode::Bn => ('b', 'n'),
            LanguageCode::Bo => ('b', 'o'),
            LanguageCode::Br => ('b', 'r'),
            LanguageCode::Ca => ('c', 'a'),
            LanguageCode::Co => ('c', 'o'),
            LanguageCode::Cs => ('c', 's'),
            LanguageCode::Cy => ('c', 'y'),
            LanguageCode::Da => ('d', 'a'),
            LanguageCode::De => ('d', 'e'),
            LanguageCode::Dz => ('d', 'z'),
            LanguageCode::El => ('e', 'l'),
            LanguageCode::En => ('e', 'n'),
            LanguageCode::Eo => ('e', 'o'),
            LanguageCode::Es => ('e', 's'),
            LanguageCode::Et => ('e', 't'),
            LanguageCode::Eu => ('e', 'u'),
            LanguageCode::Fa => ('f', 'a'),
            LanguageCode::Fi => ('f', 'i'),
            LanguageCode::Fj => ('f', 'j'),
            LanguageCode::Fo => ('f', 'o'),
            LanguageCode::Fr => ('f', 'r'),
            LanguageCode::Fy => ('f', 'y'),
            LanguageCode::Ga => ('g', 'a'),
            LanguageCode::Gd => ('g', 'd'),
            LanguageCode::Gl => ('g', 'l'),
            LanguageCode::Gn => ('g', 'n'),
            LanguageCode::Gu => ('g', 'u'),
            LanguageCode::Ha => ('h', 'a'),
            LanguageCode::Hi => ('h', 'i'),
            LanguageCode::He => ('h', 'e'),
            LanguageCode::Hr => ('h', 'r'),
            LanguageCode::Hu => ('h', 'u'),
            LanguageCode::Hy => ('h', 'y'),
            LanguageCode::Ia => ('i', 'a'),
            LanguageCode::Id => ('i', 'd'),
            LanguageCode::Ie => ('i', 'e'),
            LanguageCode::Ik => ('i', 'k'),
            LanguageCode::In => ('i', 'n'),
            LanguageCode::Is => ('i', 's'),
            LanguageCode::It => ('i', 't'),
            LanguageCode::Iu => ('i', 'u'),
            LanguageCode::Iw => ('i', 'w'),
            LanguageCode::Ja => ('j', 'a'),
            LanguageCode::Ji => ('j', 'i'),
            LanguageCode::Jw => ('j', 'w'),
            LanguageCode::Ka => ('k', 'a'),
            LanguageCode::Kk => ('k', 'k'),
            LanguageCode::Kl => ('k', 'l'),
            LanguageCode::Km => ('k', 'm'),
            LanguageCode::Kn => ('k', 'n'),
            LanguageCode::Ko => ('k', 'o'),
            LanguageCode::Ks => ('k', 's'),
            LanguageCode::Ku => ('k', 'u'),
            LanguageCode::Ky => ('k', 'y'),
            LanguageCode::La => ('l', 'a'),
            LanguageCode::Ln => ('l', 'n'),
            LanguageCode::Lo => ('l', 'o'),
            LanguageCode::Lt => ('l', 't'),
            LanguageCode::Lv => ('l', 'v'),
            LanguageCode::Mg => ('m', 'g'),
            LanguageCode::Mi => ('m', 'i'),
            LanguageCode::Mk => ('m', 'k'),
            LanguageCode::Ml => ('m', 'l'),
            LanguageCode::Mn => ('m', 'n'),
            LanguageCode::Mo => ('m', 'o'),
            LanguageCode::Mr => ('m', 'r'),
            LanguageCode::Ms => ('m', 's'),
            LanguageCode::Mt => ('m', 't'),
            LanguageCode::My => ('m', 'y'),
            LanguageCode::Na => ('n', 'a'),
            LanguageCode::Ne => ('n', 'e'),
            LanguageCode::Nl => ('n', 'l'),
            LanguageCode::No => ('n', 'o'),
            LanguageCode::Oc => ('o', 'c'),
            LanguageCode::Om => ('o', 'm'),
            LanguageCode::Or => ('o', 'r'),
            LanguageCode::Pa => ('p', 'a'),
            LanguageCode::Pl => ('p', 'l'),
            LanguageCode::Ps => ('p', 's'),
            LanguageCode::Pt => ('p', 't'),
            LanguageCode::Qu => ('q', 'u'),
            LanguageCode::Rm => ('r', 'm'),
            LanguageCode::Rn => ('r', 'n'),
            LanguageCode::Ro => ('r', 'o'),
            LanguageCode::Ru => ('r', 'u'),
            LanguageCode::Rw => ('r', 'w'),
            LanguageCode::Sa => ('s', 'a'),
            LanguageCode::Sd => ('s', 'd'),
            LanguageCode::Sg => ('s', 'g'),
            LanguageCode::Sh => ('s', 'h'),
            LanguageCode::Si => ('s', 'i'),
            LanguageCode::Sk => ('s', 'k'),
            LanguageCode::Sl => ('s', 'l'),
            LanguageCode::Sm => ('s', 'm'),
            LanguageCode::Sn => ('s', 'n'),
            LanguageCode::So => ('s', 'o'),
            LanguageCode::Sq => ('s', 'q'),
            LanguageCode::Sr => ('s', 'r'),
            LanguageCode::Ss => ('s', 's'),
            LanguageCode::St => ('s', 't'),
            LanguageCode::Su => ('s', 'u'),
            LanguageCode::Sv => ('s', 'v'),
            LanguageCode::Sw => ('s', 'w'),
            LanguageCode::Ta => ('t', 'a'),
            LanguageCode::Te => ('t', 'e'),
            LanguageCode::Tg => ('t', 'g'),
            LanguageCode::Th => ('t', 'h'),
            LanguageCode::Ti => ('t', 'i'),
            LanguageCode::Tk => ('t', 'k'),
            LanguageCode::Tl => ('t', 'l'),
            LanguageCode::Tn => ('t', 'n'),
            LanguageCode::To => ('t', 'o'),
            LanguageCode::Tr => ('t', 'r'),
            LanguageCode::Ts => ('t', 's'),
            LanguageCode::Tt => ('t', 't'),
            LanguageCode::Tw => ('t', 'w'),
            LanguageCode::Ug => ('u', 'g'),
            LanguageCode::Uk => ('u', 'k'),
            LanguageCode::Ur => ('u', 'r'),
            LanguageCode::Uz => ('u', 'z'),
            LanguageCode::Vi => ('v', 'i'),
            LanguageCode::Vo => ('v', 'o'),
            LanguageCode::Wo => ('w', 'o'),
            LanguageCode::Xh => ('x', 'h'),
            LanguageCode::Yi => ('y', 'i'),
            LanguageCode::Yo => ('y', 'o'),
            LanguageCode::Za => ('z', 'a'),
            LanguageCode::Zh => ('z', 'h'),
            LanguageCode::Zu => ('z', 'u'),
        }
    }

    /// The language that two letters name, if any.
    pub fn from_letters(first: char, second: char) -> (decoded: Option<LanguageCode>)
        ensures
            decoded == Self::of_letters(first, second),
    {
        match first {
            'a' => match second {
                'a' => Some(LanguageCode::Aa),
                'b' => Some(LanguageCode::Ab),
                'f' => Some(LanguageCode::Af),
                'm' => Some(LanguageCode::Am),
                'r' => Some(LanguageCode::Ar),
                's' => Some(LanguageCode::As),
                'y' => Some(LanguageCode::Ay),
                'z' => Some(LanguageCode::Az),
                _ => None,
            },
            'b' => match second {
                'a' => Some(LanguageCode::Ba),
                'e' => Some(LanguageCode::Be),
                'g' => Some(LanguageCode::Bg),
                'h' => Some(LanguageCode::Bh),
                'i' => Some(LanguageCode::Bi),
                'n' => Some(LanguageCode::Bn),
                'o' => Some(LanguageCode::Bo),
                'r' => Some(LanguageCode::Br),
                _ => None,
            },
            'c' => match second {
                'a' => Some(LanguageCode::Ca),
                'o' => Some(LanguageCode::Co),
                's' => Some(LanguageCode::Cs),
                'y' => Some(LanguageCode::Cy),
                _ => None,
            },
            'd' => match second {
                'a' => Some(LanguageCode::Da),
                'e' => Some(LanguageCode::De),
                'z' => Some(LanguageCode::Dz),
                _ => None,
            },
            'e' => match second {
                'l' => Some(LanguageCode::El),
                'n' => Some(LanguageCode::En),
                'o' => Some(LanguageCode::Eo),
                's' => Some(LanguageCode::Es),
                't' => Some(LanguageCode::Et),
                'u' => Some(LanguageCode::Eu),
                _ => None,
            },
            'f' => match second {
                'a' => Some(LanguageCode::Fa),
                'i' => Some(LanguageCode::Fi),
                'j' => Some(LanguageCode::Fj),
                'o' => Some(LanguageCode::Fo),
                'r' => Some(LanguageCode::Fr),
                'y' => Some(LanguageCode::Fy),
                _ => None,
            },
            'g' => match second {
                'a' => Some(LanguageCode::Ga),
                'd' => Some(LanguageCode::Gd),
                'l' => Some(LanguageCode::Gl),
                'n' => Some(LanguageCode::Gn),
                'u' => Some(LanguageCode::Gu),
                _ => None,
            },
            'h' => match second {
                'a' => Some(LanguageCode::Ha),
                'i' => Some(LanguageCode::Hi),
                'e' => Some(LanguageCode::He),
                'r' => Some(LanguageCode::Hr),
                'u' => Some(LanguageCode::Hu),
                'y' => Some(LanguageCode::Hy),
                _ => None,
            },
            'i' => match second {
                'a' => Some(LanguageCode::Ia),
                'd' => Some(LanguageCode::Id),
                'e' => Some(LanguageCode::Ie),
                'k' => Some(LanguageCode::Ik),
                'n' => Some(LanguageCode::In),
                's' => Some(LanguageCode::Is),
                't' => Some(LanguageCode::It),
                'u' => Some(LanguageCode::Iu),
                'w' => Some(LanguageCode::Iw),
                _ => None,
            },
            'j' => match second {
                'a' => Some(LanguageCode::Ja),
                'i' => Some(LanguageCode::Ji),
                'w' => Some(LanguageCode::Jw),
                _ => None,
            },
            'k' => match second {
                'a' => Some(LanguageCode::Ka),
                'k' => Some(LanguageCode::Kk),
                'l' => Some(LanguageCode::Kl),
                'm' => Some(LanguageCode::Km),
                'n' => Some(LanguageCode::Kn),
                'o' => Some(LanguageCode::Ko),
                's' => Some(LanguageCode::Ks),
                'u' => Some(LanguageCode::Ku),
                'y' => Some(LanguageCode::Ky),
                _ => None,
            },
            'l' => match second {
                'a' => Some(LanguageCode::La),
                'n' => Some(LanguageCode::Ln),
                'o' => Some(LanguageCode::Lo),
                't' => Some(LanguageCode::Lt),
                'v' => Some(LanguageCode::Lv),
                _ => None,
            },
            'm' => match second {
                'g' => Some(LanguageCode::Mg),
                'i' => Some(LanguageCode::Mi),
                'k' => Some(LanguageCode::Mk),
                'l' => Some(LanguageCode::Ml),
                'n' => Some(LanguageCode::Mn),
                'o' => Some(LanguageCode::Mo),
                'r' => Some(LanguageCode::Mr),
                's' => Some(LanguageCode::Ms),
                't' => Some(LanguageCode::Mt),
                'y' => Some(LanguageCode::My),
                _ => None,
            },
            'n' => match second {
                'a' => Some(LanguageCode::Na),
                'e' => Some(LanguageCode::Ne),
                'l' => Some(LanguageCode::Nl),
                'o' => Some(LanguageCode::No),
                _ => None,
            },
            'o' => match second {
                'c' => Some(LanguageCode::Oc),
                'm' => Some(LanguageCode::Om),
                'r' => Some(LanguageCode::Or),
                _ => None,
            },
            'p' => match second {
                'a' => Some(LanguageCode::Pa),
                'l' => Some(LanguageCode::Pl),
                's' => Some(LanguageCode::Ps),
                't' => Some(LanguageCode::Pt),
                _ => None,
            },
            'q' => match second {
                'u' => Some(LanguageCode::Qu),
                _ => None,
            },
            'r' => match second {
                'm' => Some(LanguageCode::Rm),
                'n' => Some(LanguageCode::Rn),
                'o' => Some(LanguageCode::Ro),
                'u' => Some(LanguageCode::Ru),
                'w' => Some(LanguageCode::Rw),
                _ => None,
            },
            's' => match second {
                'a' => Some(LanguageCode::Sa),
                'd' => Some(LanguageCode::Sd),
                'g' => Some(LanguageCode::Sg),
                'h' => Some(LanguageCode::Sh),
                'i' => Some(LanguageCode::Si),
                'k' => Some(LanguageCode::Sk),
                'l' => Some(LanguageCode::Sl),
                'm' => Some(LanguageCode::Sm),
                'n' => Some(LanguageCode::Sn),
                'o' => Some(LanguageCode::So),
                'q' => Some(LanguageCode::Sq),
                'r' => Some(LanguageCode::Sr),
                's' => Some(LanguageCode::Ss),
                't' => Some(LanguageCode::St),
                'u' => Some(LanguageCode::Su),
                'v' => Some(LanguageCode::Sv),
                'w' => Some(LanguageCode::Sw),
                _ => None,
            },
            't' => match second {
                'a' => Some(LanguageCode::Ta),
                'e' => Some(LanguageCode::Te),
                'g' => Some(LanguageCode::Tg),
                'h' => Some(LanguageCode::Th),
                'i' => Some(LanguageCode::Ti),
                'k' => Some(LanguageCode::Tk),
                'l' => Some(LanguageCode::Tl),
                'n' => Some(LanguageCode::Tn),
                'o' => Some(LanguageCode::To),
                'r' => Some(LanguageCode::Tr),
                's' => Some(LanguageCode::Ts),
                't' => Some(LanguageCode::Tt),
                'w' => Some(LanguageCode::Tw),
                _ => None,
            },
            'u' => match second {
                'g' => Some(LanguageCode::Ug),
                'k' => Some(LanguageCode::Uk),
                'r' => Some(LanguageCode::Ur),
                'z' => Some(LanguageCode::Uz),
                _ => None,
            },
            'v' => match second {
                'i' => Some(LanguageCode::Vi),
                'o' => Some(LanguageCode::Vo),
                _ => None,
            },
            'w' => match second {
                'o' => Some(LanguageCode::Wo),
                _ => None,
            },
            'x' => match second {
                'h' => Some(LanguageCode::Xh),
                _ => None,
            },
            'y' => match second {
                'i' => Some(LanguageCode::Yi),
                'o' => Some(LanguageCode::Yo),
                _ => None,
            },
            'z' => match second {
                'a' => Some(LanguageCode::Za),
                'h' => Some(LanguageCode::Zh),
                'u' => Some(LanguageCode::Zu),
                _ => None,
            },
            _ => None,
        }
    }

    /// The letters of a code name that code.
    pub proof fn lemma_letters_name(value: LanguageCode)
        ensures
            Self::of_letters(value.letters().0, value.letters().1) == Some(value),
    {
    }

    /// Letters name no code but the one that is written with them.
    pub proof fn lemma_named_letters(first: char, second: char)
        ensures
            Self::of_letters(first, second) matches Some(value) ==> value.letters() == (
                first,
                second,
            ),
    {
    }

    /// The letters of a code name that code, and no other letters do.
    pub proof fn lemma_of_letters(first: char, second: char, value: LanguageCode)
        ensures
            Self::of_letters(first, second) == Some(value) <==> value.letters() == (first, second),
    {
        Self::lemma_letters_name(value);
        Self::lemma_named_letters(first, second);
    }

    /// No name is read as two different codes.
    pub proof fn lemma_reads_one(a: LanguageCode, b: LanguageCode, name: Seq<char>)
        requires
            a.reads(name),
            b.reads(name),
        ensures
            a == b,
    {
        assert(a.wire()[0] == b.wire()[0]);
        assert(a.wire()[1] == b.wire()[1]);
        Self::lemma_of_letters(a.letters().0, a.letters().1, a);
        Self::lemma_of_letters(a.letters().0, a.letters().1, b);
    }

    /// The two letters of a code are letters.
    pub proof fn lemma_letters(value: LanguageCode)
        ensures
            is_ascii_letter(value.letters().0),
            is_ascii_letter(value.letters().1),
    {
    }

    /// The name of each code is written into a query string as it is.
    pub proof fn lemma_wire_kept(value: LanguageCode)
        ensures
            percent_encoded(value.wire()) == value.wire(),
    {
        Self::lemma_letters(value);
        lemma_kept_text(value.wire());
    }

    /// The name under which the code is written on the wire.
    pub fn wire_name(&self) -> (name: String)
        ensures
            name@ == self.wire(),
    {
        let (first, second) = self.code();
        let mut name = String::from_str(letter_str(first));
        name.append(letter_str(second));
        assert(name@ =~= self.wire());
        name
    }

    /// Reads a name from the wire: `Some` for exactly the two-letter names
    /// of the codes, `None` for every other text.
    pub fn from_wire(name: &str) -> (decoded: Option<LanguageCode>)
        ensures
            match decoded {
                Some(value) => value.reads(name@),
                None => forall|value: LanguageCode| !value.reads(name@),
            },
    {
        let chars = chars_of(name);
        if chars.len() != 2 {
            return None;
        }
        let decoded = Self::from_letters(chars[0], chars[1]);
        proof {
            assert forall|value: LanguageCode| value.reads(name@) implies decoded == Some(
                value,
            ) by {
                assert(value.wire()[0] == chars@[0] && value.wire()[1] == chars@[1]);
                Self::lemma_of_letters(chars@[0], chars@[1], value);
            }
            if let Some(value) = decoded {
                Self::lemma_of_letters(chars@[0], chars@[1], value);
                assert(name@ =~= value.wire());
            }
        }
        decoded
    }
}

} // verus!
