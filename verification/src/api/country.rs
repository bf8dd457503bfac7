//! The country codes that requests and responses carry.

use vstd::prelude::*;
use vstd::string::StringExecFns;

use crate::decode::Decode;
use crate::json::Json;
use crate::percent::{lemma_kept_text, percent_encoded};
use crate::text::{chars_of, is_ascii_letter, letter_str};

verus! {

/// Two-letter country codes (ISO 3166-1 alpha-2).
#[derive(Debug, Clone, Copy, PartialEq, Eq, Structural)]
pub enum CountryCode {
    /// Andorra.
    Ad,
    /// United Arab Emirates.
    Ae,
    /// Afghanistan.
    Af,
    /// Antigua and Barbuda.
    Ag,
    /// Anguilla.
    Ai,
    /// Albania.
    Al,
    /// Armenia.
    Am,
    /// Angola.
    Ao,
    /// Antarctica.
    Aq,
    /// Argentina.
    Ar,
    /// American Samoa.
    As,
    /// Austria.
    At,
    /// Australia.
    Au,
    /// Aruba.
    Aw,
    /// Aland Islands.
    Ax,
    /// Azerbaijan.
    Az,
    /// Bosnia and Herzegovina.
    Ba,
    /// Barbados.
    Bb,
    /// Bangladesh.
    Bd,
    /// Belgium.
    Be,
    /// Burkina Faso.
    Bf,
    /// Bulgaria.
    Bg,
    /// Bahrain.
    Bh,
    /// Burundi.
    Bi,
    /// Benin.
    Bj,
    /// Saint Barthelemy.
    Bl,
    /// Bermuda.
    Bm,
    /// Brunei Darussalam.
    Bn,
    /// Bolivia (Plurinational State of).
    Bo,
    /// Bonaire, Sint Eustatius and Saba.
    Bq,
    /// Brazil.
    Br,
    /// Bahamas.
    Bs,
    /// Bhutan.
    Bt,
    /// Bouvet Island.
    Bv,
    /// Botswana.
    Bw,
    /// Belarus.
    By,
    /// Belize.
    Bz,
    /// Canada.
    Ca,
    /// Cocos (Keeling) Islands.
    Cc,
    /// Congo, Democratic Republic of the.
    Cd,
    /// Central African Republic.
    Cf,
    /// Congo.
    Cg,
    /// Switzerland.
    Ch,
    /// Cote d'Ivoire.
    Ci,
    /// Cook Islands.
    Ck,
    /// Chile.
    Cl,
    /// Cameroon.
    Cm,
    /// China.
    Cn,
    /// Colombia.
    Co,
    /// Costa Rica.
    Cr,
    /// Cuba.
    Cu,
    /// Cabo Verde.
    Cv,
    /// Curacao.
    Cw,
    /// Christmas Island.
    Cx,
    /// Cyprus.
    Cy,
    /// Czechia.
    Cz,
    /// Germany.
    De,
    /// Djibouti.
    Dj,
    /// Denmark.
    Dk,
    /// Dominica.
    Dm,
    /// Dominican Republic.
    Do,
    /// Algeria.
    Dz,
    /// Ecuador.
    Ec,
    /// Estonia.
    Ee,
    /// Egypt.
    Eg,
    /// Western Sahara.
    Eh,
    /// Eritrea.
    Er,
    /// Spain.
    Es,
    /// Ethiopia.
    Et,
    /// Finland.
    Fi,
    /// Fiji.
    Fj,
    /// Falkland Islands (Malvinas).
    Fk,
    /// Micronesia (Federated States of).
    Fm,
    /// Faroe Islands.
    Fo,
    /// France.
    Fr,
    /// Gabon.
    Ga,
    /// United Kingdom of Great Britain and Northern Ireland.
    Gb,
    /// Grenada.
    Gd,
    /// Georgia.
    Ge,
    /// French Guiana.
    Gf,
    /// Guernsey.
    Gg,
    /// Ghana.
    Gh,
    /// Gibraltar.
    Gi,
    /// Greenland.
    Gl,
    /// Gambia.
    Gm,
    /// Guinea.
    Gn,
    /// Guadeloupe.
    Gp,
    /// Equatorial Guinea.
    Gq,
    /// Greece.
    Gr,
    /// South Georgia and the South Sandwich Islands.
    Gs,
    /// Guatemala.
    Gt,
    /// Guam.
    Gu,
    /// Guinea-Bissau.
    Gw,
    /// Guyana.
    Gy,
    /// Hong Kong.
    Hk,
    /// Heard Island and McDonald Islands.
    Hm,
    /// Honduras.
    Hn,
    /// Croatia.
    Hr,
    /// Haiti.
    Ht,
    /// Hungary.
    Hu,
    /// Indonesia.
    Id,
    /// Ireland.
    Ie,
    /// Israel.
    Il,
    /// Isle of Man.
    Im,
    /// India.
    In,
    /// British Indian Ocean Territory.
    Io,
    /// Iraq.
    Iq,
    /// Iran (Islamic Republic of).
    Ir,
    /// Iceland.
    Is,
    /// Italy.
    It,
    /// Jersey.
    Je,
    /// Jamaica.
    Jm,
    /// Jordan.
    Jo,
    /// Japan.
    Jp,
    /// Kenya.
    Ke,
    /// Kyrgyzstan.
    Kg,
    /// Cambodia.
    Kh,
    /// Kiribati.
    Ki,
    /// Comoros.
    Km,
    /// Saint Kitts and Nevis.
    Kn,
    /// Korea (Democratic People's Republic of).
    Kp,
    /// Korea, Republic of.
    Kr,
    /// Kuwait.
    Kw,
    /// Cayman Islands.
    Ky,
    /// Kazakhstan.
    Kz,
    /// Lao People's Democratic Republic.
    La,
    /// Lebanon.
    Lb,
    /// Saint Lucia.
    Lc,
    /// Liechtenstein.
    Li,
    /// Sri Lanka.
    Lk,
    /// Liberia.
    Lr,
    /// Lesotho.
    Ls,
    /// Lithuania.
    Lt,
    /// Luxembourg.
    Lu,
    /// Latvia.
    Lv,
    /// Libya.
    Ly,
    /// Morocco.
    Ma,
    /// Monaco.
    Mc,
    /// Moldova, Republic of.
    Md,
    /// Montenegro.
    Me,
    /// Saint Martin (French part).
    Mf,
    /// Madagascar.
    Mg,
    /// Marshall Islands.
    Mh,
    /// North Macedonia.
    Mk,
    /// Mali.
    Ml,
    /// Myanmar.
    Mm,
    /// Mongolia.
    Mn,
    /// Macao.
    Mo,
    /// Northern Mariana Islands.
    Mp,
    /// Martinique.
    Mq,
    /// Mauritania.
    Mr,
    /// Montserrat.
    Ms,
    /// Malta.
    Mt,
    /// Mauritius.
    Mu,
    /// Maldives.
    Mv,
    /// Malawi.
    Mw,
    /// Mexico.
    Mx,
    /// Malaysia.
    My,
    /// Mozambique.
    Mz,
    /// Namibia.
    Na,
    /// New Caledonia.
    Nc,
    /// Niger.
    Ne,
    /// Norfolk Island.
    Nf,
    /// Nigeria.
    Ng,
    /// Nicaragua.
    Ni,
    /// Netherlands.
    Nl,
    /// Norway.
    No,
    /// Nepal.
    Np,
    /// Nauru.
    Nr,
    /// Niue.
    Nu,
    /// New Zealand.
    Nz,
    /// Oman.
    Om,
    /// Panama.
    Pa,
    /// Peru.
    Pe,
    /// French Polynesia.
    Pf,
    /// Papua New Guinea.
    Pg,
    /// Philippines.
    Ph,
    /// Pakistan.
    Pk,
    /// Poland.
    Pl,
    /// Saint Pierre and Miquelon.
    Pm,
    /// Pitcairn.
    Pn,
    /// Puerto Rico.
    Pr,
    /// Palestine, State of.
    Ps,
    /// Portugal.
    Pt,
    /// Palau.
    Pw,
    /// Paraguay.
    Py,
    /// Qatar.
    Qa,
    /// Reunion.
    Re,
    /// Romania.
    Ro,
    /// Serbia.
    Rs,
    /// Russian Federation.
    Ru,
    /// Rwanda.
    Rw,
    /// Saudi Arabia.
    Sa,
    /// Solomon Islands.
    Sb,
    /// Seychelles.
    Sc,
    /// Sudan.
    Sd,
    /// Sweden.
    Se,
    /// Singapore.
    Sg,
    /// Saint Helena, Ascension and Tristan da Cunha.
    Sh,
    /// Slovenia.
    Si,
    /// Svalbard and Jan Mayen.
    Sj,
    /// Slovakia.
    Sk,
    /// Sierra Leone.
    Sl,
    /// San Marino.
    Sm,
    /// Senegal.
    Sn,
    /// Somalia.
    So,
    /// Suriname.
    Sr,
    /// South Sudan.
    Ss,
    /// Sao Tome and Principe.
    St,
    /// El Salvador.
    Sv,
    /// Sint Maarten (Dutch part).
    Sx,
    /// Syrian Arab Republic.
    Sy,
    /// Eswatini.
    Sz,
    /// Turks and Caicos Islands.
    Tc,
    /// Chad.
    Td,
    /// French Southern Territories.
    Tf,
    /// Togo.
    Tg,
    /// Thailand.
    Th,
    /// Tajikistan.
    Tj,
    /// Tokelau.
    Tk,
    /// Timor-Leste.
    Tl,
    /// Turkmenistan.
    Tm,
    /// Tunisia.
    Tn,
    /// Tonga.
    To,
    /// Turkey.
    Tr,
    /// Trinidad and Tobago.
    Tt,
    /// Tuvalu.
    Tv,
    /// Taiwan, Province of China.
    Tw,
    /// Tanzania, United Republic of.
    Tz,
    /// Ukraine.
    Ua,
    /// Uganda.
    Ug,
    /// United States Minor Outlying Islands.
    Um,
    /// United States of America.
    Us,
    /// Uruguay.
    Uy,
    /// Uzbekistan.
    Uz,
    /// Holy See.
    Va,
    /// Saint Vincent and the Grenadines.
    Vc,
    /// Venezuela (Bolivarian Republic of).
    Ve,
    /// Virgin Islands (British).
    Vg,
    /// Virgin Islands (U.S.).
    Vi,
    /// Viet Nam.
    Vn,
    /// Vanuatu.
    Vu,
    /// Wallis and Futuna.
    Wf,
    /// Samoa.
    Ws,
    /// Yemen.
    Ye,
    /// Mayotte.
    Yt,
    /// South Africa.
    Za,
    /// Zambia.
    Zm,
    /// Zimbabwe.
    Zw,
}

impl CountryCode {
    /// The two letters of the code.
    pub open spec fn letters(self) -> (char, char) {
        match self {
            CountryCode::Ad => ('A', 'D'),
            CountryCode::Ae => ('A', 'E'),
            CountryCode::Af => ('A', 'F'),
            CountryCode::Ag => ('A', 'G'),
            CountryCode::Ai => ('A', 'I'),
            CountryCode::Al => ('A', 'L'),
            CountryCode::Am => ('A', 'M'),
            CountryCode::Ao => ('A', 'O'),
            CountryCode::Aq => ('A', 'Q'),
            CountryCode::Ar => ('A', 'R'),
            CountryCode::As => ('A', 'S'),
            CountryCode::At => ('A', 'T'),
            CountryCode::Au => ('A', 'U'),
            CountryCode::Aw => ('A', 'W'),
            CountryCode::Ax => ('A', 'X'),
            CountryCode::Az => ('A', 'Z'),
            CountryCode::Ba => ('B', 'A'),
            CountryCode::Bb => ('B', 'B'),
            CountryCode::Bd => ('B', 'D'),
            CountryCode::Be => ('B', 'E'),
            CountryCode::Bf => ('B', 'F'),
            CountryCode::Bg => ('B', 'G'),
            CountryCode::Bh => ('B', 'H'),
            CountryCode::Bi => ('B', 'I'),
            CountryCode::Bj => ('B', 'J'),
            CountryCode::Bl => ('B', 'L'),
            CountryCode::Bm => ('B', 'M'),
            CountryCode::Bn => ('B', 'N'),
            CountryCode::Bo => ('B', 'O'),
            CountryCode::Bq => ('B', 'Q'),
            CountryCode::Br => ('B', 'R'),
            CountryCode::Bs => ('B', 'S'),
            CountryCode::Bt => ('B', 'T'),
            CountryCode::Bv => ('B', 'V'),
            CountryCode::Bw => ('B', 'W'),
            CountryCode::By => ('B', 'Y'),
            CountryCode::Bz => ('B', 'Z'),
            CountryCode::Ca => ('C', 'A'),
            CountryCode::Cc => ('C', 'C'),
            CountryCode::Cd => ('C', 'D'),
            CountryCode::Cf => ('C', 'F'),
            CountryCode::Cg => ('C', 'G'),
            CountryCode::Ch => ('C', 'H'),
            CountryCode::Ci => ('C', 'I'),
            CountryCode::Ck => ('C', 'K'),
            CountryCode::Cl => ('C', 'L'),
            CountryCode::Cm => ('C', 'M'),
            CountryCode::Cn => ('C', 'N'),
            CountryCode::Co => ('C', 'O'),
            CountryCode::Cr => ('C', 'R'),
            CountryCode::Cu => ('C', 'U'),
            CountryCode::Cv => ('C', 'V'),
            CountryCode::Cw => ('C', 'W'),
            CountryCode::Cx => ('C', 'X'),
            CountryCode::Cy => ('C', 'Y'),
            CountryCode::Cz => ('C', 'Z'),
            CountryCode::De => ('D', 'E'),
            CountryCode::Dj => ('D', 'J'),
            CountryCode::Dk => ('D', 'K'),
            CountryCode::Dm => ('D', 'M'),
            CountryCode::Do => ('D', 'O'),
            CountryCode::Dz => ('D', 'Z'),
            CountryCode::Ec => ('E', 'C'),
            CountryCode::Ee => ('E', 'E'),
            CountryCode::Eg => ('E', 'G'),
            CountryCode::Eh => ('E', 'H'),
            CountryCode::Er => ('E', 'R'),
            CountryCode::Es => ('E', 'S'),
            CountryCode::Et => ('E', 'T'),
            CountryCode::Fi => ('F', 'I'),
            CountryCode::Fj => ('F', 'J'),
            CountryCode::Fk => ('F', 'K'),
            CountryCode::Fm => ('F', 'M'),
            CountryCode::Fo => ('F', 'O'),
            CountryCode::Fr => ('F', 'R'),
            CountryCode::Ga => ('G', 'A'),
            CountryCode::Gb => ('G', 'B'),
            CountryCode::Gd => ('G', 'D'),
            CountryCode::Ge => ('G', 'E'),
            CountryCode::Gf => ('G', 'F'),
            CountryCode::Gg => ('G', 'G'),
            CountryCode::Gh => ('G', 'H'),
            CountryCode::Gi => ('G', 'I'),
            CountryCode::Gl => ('G', 'L'),
            CountryCode::Gm => ('G', 'M'),
            CountryCode::Gn => ('G', 'N'),
            CountryCode::Gp => ('G', 'P'),
            CountryCode::Gq => ('G', 'Q'),
            CountryCode::Gr => ('G', 'R'),
            CountryCode::Gs => ('G', 'S'),
            CountryCode::Gt => ('G', 'T'),
            CountryCode::Gu => ('G', 'U'),
            CountryCode::Gw => ('G', 'W'),
            CountryCode::Gy => ('G', 'Y'),
            CountryCode::Hk => ('H', 'K'),
            CountryCode::Hm => ('H', 'M'),
            CountryCode::Hn => ('H', 'N'),
            CountryCode::Hr => ('H', 'R'),
            CountryCode::Ht => ('H', 'T'),
            CountryCode::Hu => ('H', 'U'),
            CountryCode::Id => ('I', 'D'),
            CountryCode::Ie => ('I', 'E'),
            CountryCode::Il => ('I', 'L'),
            CountryCode::Im => ('I', 'M'),
            CountryCode::In => ('I', 'N'),
            CountryCode::Io => ('I', 'O'),
            CountryCode::Iq => ('I', 'Q'),
            CountryCode::Ir => ('I', 'R'),
            CountryCode::Is => ('I', 'S'),
            CountryCode::It => ('I', 'T'),
            CountryCode::Je => ('J', 'E'),
            CountryCode::Jm => ('J', 'M'),
            CountryCode::Jo => ('J', 'O'),
            CountryCode::Jp => ('J', 'P'),
            CountryCode::Ke => ('K', 'E'),
            CountryCode::Kg => ('K', 'G'),
            CountryCode::Kh => ('K', 'H'),
            CountryCode::Ki => ('K', 'I'),
            CountryCode::Km => ('K', 'M'),
            CountryCode::Kn => ('K', 'N'),
            CountryCode::Kp => ('K', 'P'),
            CountryCode::Kr => ('K', 'R'),
            CountryCode::Kw => ('K', 'W'),
            CountryCode::Ky => ('K', 'Y'),
            CountryCode::Kz => ('K', 'Z'),
            CountryCode::La => ('L', 'A'),
            CountryCode::Lb => ('L', 'B'),
            CountryCode::Lc => ('L', 'C'),
            CountryCode::Li => ('L', 'I'),
            CountryCode::Lk => ('L', 'K'),
            CountryCode::Lr => ('L', 'R'),
            CountryCode::Ls => ('L', 'S'),
            CountryCode::Lt => ('L', 'T'),
            CountryCode::Lu => ('L', 'U'),
            CountryCode::Lv => ('L', 'V'),
            CountryCode::Ly => ('L', 'Y'),
            CountryCode::Ma => ('M', 'A'),
            CountryCode::Mc => ('M', 'C'),
            CountryCode::Md => ('M', 'D'),
            CountryCode::Me => ('M', 'E'),
            CountryCode::Mf => ('M', 'F'),
            CountryCode::Mg => ('M', 'G'),
            CountryCode::Mh => ('M', 'H'),
            CountryCode::Mk => ('M', 'K'),
            CountryCode::Ml => ('M', 'L'),
            CountryCode::Mm => ('M', 'M'),
            CountryCode::Mn => ('M', 'N'),
            CountryCode::Mo => ('M', 'O'),
            CountryCode::Mp => ('M', 'P'),
            CountryCode::Mq => ('M', 'Q'),
            CountryCode::Mr => ('M', 'R'),
            CountryCode::Ms => ('M', 'S'),
            CountryCode::Mt => ('M', 'T'),
            CountryCode::Mu => ('M', 'U'),
            CountryCode::Mv => ('M', 'V'),
            CountryCode::Mw => ('M', 'W'),
            CountryCode::Mx => ('M', 'X'),
            CountryCode::My => ('M', 'Y'),
            CountryCode::Mz => ('M', 'Z'),
            CountryCode::Na => ('N', 'A'),
            CountryCode::Nc => ('N', 'C'),
            CountryCode::Ne => ('N', 'E'),
            CountryCode::Nf => ('N', 'F'),
            CountryCode::Ng => ('N', 'G'),
            CountryCode::Ni => ('N', 'I'),
            CountryCode::Nl => ('N', 'L'),
            CountryCode::No => ('N', 'O'),
            CountryCode::Np => ('N', 'P'),
            CountryCode::Nr => ('N', 'R'),
            CountryCode::Nu => ('N', 'U'),
            CountryCode::Nz => ('N', 'Z'),
            CountryCode::Om => ('O', 'M'),
            CountryCode::Pa => ('P', 'A'),
            CountryCode::Pe => ('P', 'E'),
            CountryCode::Pf => ('P', 'F'),
            CountryCode::Pg => ('P', 'G'),
            CountryCode::Ph => ('P', 'H'),
            CountryCode::Pk => ('P', 'K'),
            CountryCode::Pl => ('P', 'L'),
            CountryCode::Pm => ('P', 'M'),
            CountryCode::Pn => ('P', 'N'),
            CountryCode::Pr => ('P', 'R'),
            CountryCode::Ps => ('P', 'S'),
            CountryCode::Pt => ('P', 'T'),
            CountryCode::Pw => ('P', 'W'),
            CountryCode::Py => ('P', 'Y'),
            CountryCode::Qa => ('Q', 'A'),
            CountryCode::Re => ('R', 'E'),
            CountryCode::Ro => ('R', 'O'),
            CountryCode::Rs => ('R', 'S'),
            CountryCode::Ru => ('R', 'U'),
            CountryCode::Rw => ('R', 'W'),
            CountryCode::Sa => ('S', 'A'),
            CountryCode::Sb => ('S', 'B'),
            CountryCode::Sc => ('S', 'C'),
            CountryCode::Sd => ('S', 'D'),
            CountryCode::Se => ('S', 'E'),
            CountryCode::Sg => ('S', 'G'),
            CountryCode::Sh => ('S', 'H'),
            CountryCode::Si => ('S', 'I'),
            CountryCode::Sj => ('S', 'J'),
            CountryCode::Sk => ('S', 'K'),
            CountryCode::Sl => ('S', 'L'),
            CountryCode::Sm => ('S', 'M'),
            CountryCode::Sn => ('S', 'N'),
            CountryCode::So => ('S', 'O'),
            CountryCode::Sr => ('S', 'R'),
            CountryCode::Ss => ('S', 'S'),
            CountryCode::St => ('S', 'T'),
            CountryCode::Sv => ('S', 'V'),
            CountryCode::Sx => ('S', 'X'),
            CountryCode::Sy => ('S', 'Y'),
            CountryCode::Sz => ('S', 'Z'),
            CountryCode::Tc => ('T', 'C'),
            CountryCode::Td => ('T', 'D'),
            CountryCode::Tf => ('T', 'F'),
            CountryCode::Tg => ('T', 'G'),
            CountryCode::Th => ('T', 'H'),
            CountryCode::Tj => ('T', 'J'),
            CountryCode::Tk => ('T', 'K'),
            CountryCode::Tl => ('T', 'L'),
            CountryCode::Tm => ('T', 'M'),
            CountryCode::Tn => ('T', 'N'),
            CountryCode::To => ('T', 'O'),
            CountryCode::Tr => ('T', 'R'),
            CountryCode::Tt => ('T', 'T'),
            CountryCode::Tv => ('T', 'V'),
            CountryCode::Tw => ('T', 'W'),
            CountryCode::Tz => ('T', 'Z'),
            CountryCode::Ua => ('U', 'A'),
            CountryCode::Ug => ('U', 'G'),
            CountryCode::Um => ('U', 'M'),
            CountryCode::Us => ('U', 'S'),
            CountryCode::Uy => ('U', 'Y'),
            CountryCode::Uz => ('U', 'Z'),
            CountryCode::Va => ('V', 'A'),
            CountryCode::Vc => ('V', 'C'),
            CountryCode::Ve => ('V', 'E'),
            CountryCode::Vg => ('V', 'G'),
            CountryCode::Vi => ('V', 'I'),
            CountryCode::Vn => ('V', 'N'),
            CountryCode::Vu => ('V', 'U'),
            CountryCode::Wf => ('W', 'F'),
            CountryCode::Ws => ('W', 'S'),
            CountryCode::Ye => ('Y', 'E'),
            CountryCode::Yt => ('Y', 'T'),
            CountryCode::Za => ('Z', 'A'),
            CountryCode::Zm => ('Z', 'M'),
            CountryCode::Zw => ('Z', 'W'),
        }
    }

    /// The country that two letters name, if any.
    pub open spec fn of_letters(first: char, second: char) -> Option<CountryCode> {
        match first {
            'A' => match second {
                'D' => Some(CountryCode::Ad),
                'E' => Some(CountryCode::Ae),
                'F' => Some(CountryCode::Af),
                'G' => Some(CountryCode::Ag),
                'I' => Some(CountryCode::Ai),
                'L' => Some(CountryCode::Al),
                'M' => Some(CountryCode::Am),
                'O' => Some(CountryCode::Ao),
                'Q' => Some(CountryCode::Aq),
                'R' => Some(CountryCode::Ar),
                'S' => Some(CountryCode::As),
                'T' => Some(CountryCode::At),
                'U' => Some(CountryCode::Au),
                'W' => Some(CountryCode::Aw),
                'X' => Some(CountryCode::Ax),
                'Z' => Some(CountryCode::Az),
                _ => None,
            },
            'B' => match second {
                'A' => Some(CountryCode::Ba),
                'B' => Some(CountryCode::Bb),
                'D' => Some(CountryCode::Bd),
                'E' => Some(CountryCode::Be),
                'F' => Some(CountryCode::Bf),
                'G' => Some(CountryCode::Bg),
                'H' => Some(CountryCode::Bh),
                'I' => Some(CountryCode::Bi),
                'J' => Some(CountryCode::Bj),
                'L' => Some(CountryCode::Bl),
                'M' => Some(CountryCode::Bm),
                'N' => Some(CountryCode::Bn),
                'O' => Some(CountryCode::Bo),
                'Q' => Some(CountryCode::Bq),
                'R' => Some(CountryCode::Br),
                'S' => Some(CountryCode::Bs),
                'T' => Some(CountryCode::Bt),
                'V' => Some(CountryCode::Bv),
                'W' => Some(CountryCode::Bw),
                'Y' => Some(CountryCode::By),
                'Z' => Some(CountryCode::Bz),
                _ => None,
            },
            'C' => match second {
                'A' => Some(CountryCode::Ca),
                'C' => Some(CountryCode::Cc),
                'D' => Some(CountryCode::Cd),
                'F' => Some(CountryCode::Cf),
                'G' => Some(CountryCode::Cg),
                'H' => Some(CountryCode::Ch),
                'I' => Some(CountryCode::Ci),
                'K' => Some(CountryCode::Ck),
                'L' => Some(CountryCode::Cl),
                'M' => Some(CountryCode::Cm),
                'N' => Some(CountryCode::Cn),
                'O' => Some(CountryCode::Co),
                'R' => Some(CountryCode::Cr),
                'U' => Some(CountryCode::Cu),
                'V' => Some(CountryCode::Cv),
                'W' => Some(CountryCode::Cw),
                'X' => Some(CountryCode::Cx),
                'Y' => Some(CountryCode::Cy),
                'Z' => Some(CountryCode::Cz),
                _ => None,
            },
            'D' => match second {
                'E' => Some(CountryCode::De),
                'J' => Some(CountryCode::Dj),
                'K' => Some(CountryCode::Dk),
                'M' => Some(CountryCode::Dm),
                'O' => Some(CountryCode::Do),
                'Z' => Some(CountryCode::Dz),
                _ => None,
            },
            'E' => match second {
                'C' => Some(CountryCode::Ec),
                'E' => Some(CountryCode::Ee),
                'G' => Some(CountryCode::Eg),
                'H' => Some(CountryCode::Eh),
                'R' => Some(CountryCode::Er),
                'S' => Some(CountryCode::Es),
                'T' => Some(CountryCode::Et),
                _ => None,
            },
            'F' => match second {
                'I' => Some(CountryCode::Fi),
                'J' => Some(CountryCode::Fj),
                'K' => Some(CountryCode::Fk),
                'M' => Some(CountryCode::Fm),
                'O' => Some(CountryCode::Fo),
                'R' => Some(CountryCode::Fr),
                _ => None,
            },
            'G' => match second {
                'A' => Some(CountryCode::Ga),
                'B' => Some(CountryCode::Gb),
                'D' => Some(CountryCode::Gd),
                'E' => Some(CountryCode::Ge),
                'F' => Some(CountryCode::Gf),
                'G' => Some(CountryCode::Gg),
                'H' => Some(CountryCode::Gh),
                'I' => Some(CountryCode::Gi),
                'L' => Some(CountryCode::Gl),
                'M' => Some(CountryCode::Gm),
                'N' => Some(CountryCode::Gn),
                'P' => Some(CountryCode::Gp),
                'Q' => Some(CountryCode::Gq),
                'R' => Some(CountryCode::Gr),
                'S' => Some(CountryCode::Gs),
                'T' => Some(CountryCode::Gt),
                'U' => Some(CountryCode::Gu),
                'W' => Some(CountryCode::Gw),
                'Y' => Some(CountryCode::Gy),
                _ => None,
            },
            'H' => match second {
                'K' => Some(CountryCode::Hk),
                'M' => Some(CountryCode::Hm),
                'N' => Some(CountryCode::Hn),
                'R' => Some(CountryCode::Hr),
                'T' => Some(CountryCode::Ht),
                'U' => Some(CountryCode::Hu),
                _ => None,
            },
            'I' => match second {
                'D' => Some(CountryCode::Id),
                'E' => Some(CountryCode::Ie),
                'L' => Some(CountryCode::Il),
                'M' => Some(CountryCode::Im),
                'N' => Some(CountryCode::In),
                'O' => Some(CountryCode::Io),
                'Q' => Some(CountryCode::Iq),
                'R' => Some(CountryCode::Ir),
                'S' => Some(CountryCode::Is),
                'T' => Some(CountryCode::It),
                _ => None,
            },
            'J' => match second {
                'E' => Some(CountryCode::Je),
                'M' => Some(CountryCode::Jm),
                'O' => Some(CountryCode::Jo),
                'P' => Some(CountryCode::Jp),
                _ => None,
            },
            'K' => match second {
                'E' => Some(CountryCode::Ke),
                'G' => Some(CountryCode::Kg),
                'H' => Some(CountryCode::Kh),
                'I' => Some(CountryCode::Ki),
                'M' => Some(CountryCode::Km),
                'N' => Some(CountryCode::Kn),
                'P' => Some(CountryCode::Kp),
                'R' => Some(CountryCode::Kr),
                'W' => Some(CountryCode::Kw),
                'Y' => Some(CountryCode::Ky),
                'Z' => Some(CountryCode::Kz),
                _ => None,
            },
            'L' => match second {
                'A' => Some(CountryCode::La),
                'B' => Some(CountryCode::Lb),
                'C' => Some(CountryCode::Lc),
                'I' => Some(CountryCode::Li),
                'K' => Some(CountryCode::Lk),
                'R' => Some(CountryCode::Lr),
                'S' => Some(CountryCode::Ls),
                'T' => Some(CountryCode::Lt),
                'U' => Some(CountryCode::Lu),
                'V' => Some(CountryCode::Lv),
                'Y' => Some(CountryCode::Ly),
                _ => None,
            },
            'M' => match second {
                'A' => Some(CountryCode::Ma),
                'C' => Some(CountryCode::Mc),
                'D' => Some(CountryCode::Md),
                'E' => Some(CountryCode::Me),
                'F' => Some(CountryCode::Mf),
                'G' => Some(CountryCode::Mg),
                'H' => Some(CountryCode::Mh),
                'K' => Some(CountryCode::Mk),
                'L' => Some(CountryCode::Ml),
                'M' => Some(CountryCode::Mm),
                'N' => Some(CountryCode::Mn),
                'O' => Some(CountryCode::Mo),
                'P' => Some(CountryCode::Mp),
                'Q' => Some(CountryCode::Mq),
                'R' => Some(CountryCode::Mr),
                'S' => Some(CountryCode::Ms),
                'T' => Some(CountryCode::Mt),
                'U' => Some(CountryCode::Mu),
                'V' => Some(CountryCode::Mv),
                'W' => Some(CountryCode::Mw),
                'X' => Some(CountryCode::Mx),
                'Y' => Some(CountryCode::My),
                'Z' => Some(CountryCode::Mz),
                _ => None,
            },
            'N' => match second {
                'A' => Some(CountryCode::Na),
                'C' => Some(CountryCode::Nc),
                'E' => Some(CountryCode::Ne),
                'F' => Some(CountryCode::Nf),
                'G' => Some(CountryCode::Ng),
                'I' => Some(CountryCode::Ni),
                'L' => Some(CountryCode::Nl),
                'O' => Some(CountryCode::No),
                'P' => Some(CountryCode::Np),
                'R' => Some(CountryCode::Nr),
                'U' => Some(CountryCode::Nu),
                'Z' => Some(CountryCode::Nz),
                _ => None,
            },
            'O' => match second {
                'M' => Some(CountryCode::Om),
                _ => None,
            },
            'P' => match second {
                'A' => Some(CountryCode::Pa),
                'E' => Some(CountryCode::Pe),
                'F' => Some(CountryCode::Pf),
                'G' => Some(CountryCode::Pg),
                'H' => Some(CountryCode::Ph),
                'K' => Some(CountryCode::Pk),
                'L' => Some(CountryCode::Pl),
                'M' => Some(CountryCode::Pm),
                'N' => Some(CountryCode::Pn),
                'R' => Some(CountryCode::Pr),
                'S' => Some(CountryCode::Ps),
                'T' => Some(CountryCode::Pt),
                'W' => Some(CountryCode::Pw),
                'Y' => Some(CountryCode::Py),
                _ => None,
            },
            'Q' => match second {
                'A' => Some(CountryCode::Qa),
                _ => None,
            },
            'R' => match second {
                'E' => Some(CountryCode::Re),
                'O' => Some(CountryCode::Ro),
                'S' => Some(CountryCode::Rs),
                'U' => Some(CountryCode::Ru),
                'W' => Some(CountryCode::Rw),
                _ => None,
            },
            'S' => match second {
                'A' => Some(CountryCode::Sa),
                'B' => Some(CountryCode::Sb),
                'C' => Some(CountryCode::Sc),
                'D' => Some(CountryCode::Sd),
                'E' => Some(CountryCode::Se),
                'G' => Some(CountryCode::Sg),
                'H' => Some(CountryCode::Sh),
                'I' => Some(CountryCode::Si),
                'J' => Some(CountryCode::Sj),
                'K' => Some(CountryCode::Sk),
                'L' => Some(CountryCode::Sl),
                'M' => Some(CountryCode::Sm),
                'N' => Some(CountryCode::Sn),
                'O' => Some(CountryCode::So),
                'R' => Some(CountryCode::Sr),
                'S' => Some(CountryCode::Ss),
                'T' => Some(CountryCode::St),
                'V' => Some(CountryCode::Sv),
                'X' => Some(CountryCode::Sx),
                'Y' => Some(CountryCode::Sy),
                'Z' => Some(CountryCode::Sz),
                _ => None,
            },
            'T' => match second {
                'C' => Some(CountryCode::Tc),
                'D' => Some(CountryCode::Td),
                'F' => Some(CountryCode::Tf),
                'G' => Some(CountryCode::Tg),
                'H' => Some(CountryCode::Th),
                'J' => Some(CountryCode::Tj),
                'K' => Some(CountryCode::Tk),
                'L' => Some(CountryCode::Tl),
                'M' => Some(CountryCode::Tm),
                'N' => Some(CountryCode::Tn),
                'O' => Some(CountryCode::To),
                'R' => Some(CountryCode::Tr),
                'T' => Some(CountryCode::Tt),
                'V' => Some(CountryCode::Tv),
                'W' => Some(CountryCode::Tw),
                'Z' => Some(CountryCode::Tz),
                _ => None,
            },
            'U' => match second {
                'A' => Some(CountryCode::Ua),
                'G' => Some(CountryCode::Ug),
                'M' => Some(CountryCode::Um),
                'S' => Some(CountryCode::Us),
                'Y' => Some(CountryCode::Uy),
                'Z' => Some(CountryCode::Uz),
                _ => None,
            },
            'V' => match second {
                'A' => Some(CountryCode::Va),
                'C' => Some(CountryCode::Vc),
                'E' => Some(CountryCode::Ve),
                'G' => Some(CountryCode::Vg),
                'I' => Some(CountryCode::Vi),
                'N' => Some(CountryCode::Vn),
                'U' => Some(CountryCode::Vu),
                _ => None,
            },
            'W' => match second {
                'F' => Some(CountryCode::Wf),
                'S' => Some(CountryCode::Ws),
                _ => None,
            },
            'Y' => match second {
                'E' => Some(CountryCode::Ye),
                'T' => Some(CountryCode::Yt),
                _ => None,
            },
            'Z' => match second {
                'A' => Some(CountryCode::Za),
                'M' => Some(CountryCode::Zm),
                'W' => Some(CountryCode::Zw),
                _ => None,
            },
            _ => None,
        }
    }

    /// The name under which the code is written on the wire: its two
    /// letters.
    pub open spec fn wire(self) -> Seq<char> {
        seq![self.letters().0, self.letters().1]
    }

    /// Whether `name` is read as this code.
    pub open spec fn reads(self, name: Seq<char>) -> bool {
        name == self.wire()
    }

    /// The two letters of the code.
    pub fn code(&self) -> (letters: (char, char))
        ensures
            letters == self.letters(),
    {
        match self {
            CountryCode::Ad => ('A', 'D'),
            CountryCode::Ae => ('A', 'E'),
            CountryCode::Af => ('A', 'F'),
            CountryCode::Ag => ('A', 'G'),
            CountryCode::Ai => ('A', 'I'),
            CountryCode::Al => ('A', 'L'),
            CountryCode::Am => ('A', 'M'),
            CountryCode::Ao => ('A', 'O'),
            CountryCode::Aq => ('A', 'Q'),
            CountryCode::Ar => ('A', 'R'),
            CountryCode::As => ('A', 'S'),
            CountryCode::At => ('A', 'T'),
            CountryCode::Au => ('A', 'U'),
            CountryCode::Aw => ('A', 'W'),
            CountryCode::Ax => ('A', 'X'),
            CountryCode::Az => ('A', 'Z'),
            CountryCode::Ba => ('B', 'A'),
            CountryCode::Bb => ('B', 'B'),
            CountryCode::Bd => ('B', 'D'),
            CountryCode::Be => ('B', 'E'),
            CountryCode::Bf => ('B', 'F'),
            CountryCode::Bg => ('B', 'G'),
            CountryCode::Bh => ('B', 'H'),
            CountryCode::Bi => ('B', 'I'),
            CountryCode::Bj => ('B', 'J'),
            CountryCode::Bl => ('B', 'L'),
            CountryCode::Bm => ('B', 'M'),
            CountryCode::Bn => ('B', 'N'),
            CountryCode::Bo => ('B', 'O'),
            CountryCode::Bq => ('B', 'Q'),
            CountryCode::Br => ('B', 'R'),
            CountryCode::Bs => ('B', 'S'),
            CountryCode::Bt => ('B', 'T'),
            CountryCode::Bv => ('B', 'V'),
            CountryCode::Bw => ('B', 'W'),
            CountryCode::By => ('B', 'Y'),
            CountryCode::Bz => ('B', 'Z'),
            CountryCode::Ca => ('C', 'A'),
            CountryCode::Cc => ('C', 'C'),
            CountryCode::Cd => ('C', 'D'),
            CountryCode::Cf => ('C', 'F'),
            CountryCode::Cg => ('C', 'G'),
            CountryCode::Ch => ('C', 'H'),
            CountryCode::Ci => ('C', 'I'),
            CountryCode::Ck => ('C', 'K'),
            CountryCode::Cl => ('C', 'L'),
            CountryCode::Cm => ('C', 'M'),
            CountryCode::Cn => ('C', 'N'),
            CountryCode::Co => ('C', 'O'),
            CountryCode::Cr => ('C', 'R'),
            CountryCode::Cu => ('C', 'U'),
            CountryCode::Cv => ('C', 'V'),
            CountryCode::Cw => ('C', 'W'),
            CountryCode::Cx => ('C', 'X'),
            CountryCode::Cy => ('C', 'Y'),
            CountryCode::Cz => ('C', 'Z'),
            CountryCode::De => ('D', 'E'),
            CountryCode::Dj => ('D', 'J'),
            CountryCode::Dk => ('D', 'K'),
            CountryCode::Dm => ('D', 'M'),
            CountryCode::Do => ('D', 'O'),
            CountryCode::Dz => ('D', 'Z'),
            CountryCode::Ec => ('E', 'C'),
            CountryCode::Ee => ('E', 'E'),
            CountryCode::Eg => ('E', 'G'),
            CountryCode::Eh => ('E', 'H'),
            CountryCode::Er => ('E', 'R'),
            CountryCode::Es => ('E', 'S'),
            CountryCode::Et => ('E', 'T'),
            CountryCode::Fi => ('F', 'I'),
            CountryCode::Fj => ('F', 'J'),
            CountryCode::Fk => ('F', 'K'),
            CountryCode::Fm => ('F', 'M'),
            CountryCode::Fo => ('F', 'O'),
            CountryCode::Fr => ('F', 'R'),
            CountryCode::Ga => ('G', 'A'),
            CountryCode::Gb => ('G', 'B'),
            CountryCode::Gd => ('G', 'D'),
            CountryCode::Ge => ('G', 'E'),
            CountryCode::Gf => ('G', 'F'),
            CountryCode::Gg => ('G', 'G'),
            CountryCode::Gh => ('G', 'H'),
            CountryCode::Gi => ('G', 'I'),
            CountryCode::Gl => ('G', 'L'),
            CountryCode::Gm => ('G', 'M'),
            CountryCode::Gn => ('G', 'N'),
            CountryCode::Gp => ('G', 'P'),
            CountryCode::Gq => ('G', 'Q'),
            CountryCode::Gr => ('G', 'R'),
            CountryCode::Gs => ('G', 'S'),
            CountryCode::Gt => ('G', 'T'),
            CountryCode::Gu => ('G', 'U'),
            CountryCode::Gw => ('G', 'W'),
            CountryCode::Gy => ('G', 'Y'),
            CountryCode::Hk => ('H', 'K'),
            CountryCode::Hm => ('H', 'M'),
            CountryCode::Hn => ('H', 'N'),
            CountryCode::Hr => ('H', 'R'),
            CountryCode::Ht => ('H', 'T'),
            CountryCode::Hu => ('H', 'U'),
            CountryCode::Id => ('I', 'D'),
            CountryCode::Ie => ('I', 'E'),
            CountryCode::Il => ('I', 'L'),
            CountryCode::Im => ('I', 'M'),
            CountryCode::In => ('I', 'N'),
            CountryCode::Io => ('I', 'O'),
            CountryCode::Iq => ('I', 'Q'),
            CountryCode::Ir => ('I', 'R'),
            CountryCode::Is => ('I', 'S'),
            CountryCode::It => ('I', 'T'),
            CountryCode::Je => ('J', 'E'),
            CountryCode::Jm => ('J', 'M'),
            CountryCode::Jo => ('J', 'O'),
            CountryCode::Jp => ('J', 'P'),
            CountryCode::Ke => ('K', 'E'),
            CountryCode::Kg => ('K', 'G'),
            CountryCode::Kh => ('K', 'H'),
            CountryCode::Ki => ('K', 'I'),
            CountryCode::Km => ('K', 'M'),
            CountryCode::Kn => ('K', 'N'),
            CountryCode::Kp => ('K', 'P'),
            CountryCode::Kr => ('K', 'R'),
            CountryCode::Kw => ('K', 'W'),
            CountryCode::Ky => ('K', 'Y'),
            CountryCode::Kz => ('K', 'Z'),
            CountryCode::La => ('L', 'A'),
            CountryCode::Lb => ('L', 'B'),
            CountryCode::Lc => ('L', 'C'),
            CountryCode::Li => ('L', 'I'),
            CountryCode::Lk => ('L', 'K'),
            CountryCode::Lr => ('L', 'R'),
            CountryCode::Ls => ('L', 'S'),
            CountryCode::Lt => ('L', 'T'),
            CountryCode::Lu => ('L', 'U'),
            CountryCode::Lv => ('L', 'V'),
            CountryCode::Ly => ('L', 'Y'),
            CountryCode::Ma => ('M', 'A'),
            CountryCode::Mc => ('M', 'C'),
            CountryCode::Md => ('M', 'D'),
            CountryCode::Me => ('M', 'E'),
            CountryCode::Mf => ('M', 'F'),
            CountryCode::Mg => ('M', 'G'),
            CountryCode::Mh => ('M', 'H'),
            CountryCode::Mk => ('M', 'K'),
            CountryCode::Ml => ('M', 'L'),
            CountryCode::Mm => ('M', 'M'),
            CountryCode::Mn => ('M', 'N'),
            CountryCode::Mo => ('M', 'O'),
            CountryCode::Mp => ('M', 'P'),
            CountryCode::Mq => ('M', 'Q'),
            CountryCode::Mr => ('M', 'R'),
            CountryCode::Ms => ('M', 'S'),
            CountryCode::Mt => ('M', 'T'),
            CountryCode::Mu => ('M', 'U'),
            CountryCode::Mv => ('M', 'V'),
            CountryCode::Mw => ('M', 'W'),
            CountryCode::Mx => ('M', 'X'),
            CountryCode::My => ('M', 'Y'),
            CountryCode::Mz => ('M', 'Z'),
            CountryCode::Na => ('N', 'A'),
            CountryCode::Nc => ('N', 'C'),
            CountryCode::Ne => ('N', 'E'),
            CountryCode::Nf => ('N', 'F'),
            CountryCode::Ng => ('N', 'G'),
            CountryCode::Ni => ('N', 'I'),
            CountryCode::Nl => ('N', 'L'),
            CountryCode::No => ('N', 'O'),
            CountryCode::Np => ('N', 'P'),
            CountryCode::Nr => ('N', 'R'),
            CountryCode::Nu => ('N', 'U'),
            CountryCode::Nz => ('N', 'Z'),
            CountryCode::Om => ('O', 'M'),
            CountryCode::Pa => ('P', 'A'),
            CountryCode::Pe => ('P', 'E'),
            CountryCode::Pf => ('P', 'F'),
            CountryCode::Pg => ('P', 'G'),
            CountryCode::Ph => ('P', 'H'),
            CountryCode::Pk => ('P', 'K'),
            CountryCode::Pl => ('P', 'L'),
            CountryCode::Pm => ('P', 'M'),
            CountryCode::Pn => ('P', 'N'),
            CountryCode::Pr => ('P', 'R'),
            CountryCode::Ps => ('P', 'S'),
            CountryCode::Pt => ('P', 'T'),
            CountryCode::Pw => ('P', 'W'),
            CountryCode::Py => ('P', 'Y'),
            CountryCode::Qa => ('Q', 'A'),
            CountryCode::Re => ('R', 'E'),
            CountryCode::Ro => ('R', 'O'),
            CountryCode::Rs => ('R', 'S'),
            CountryCode::Ru => ('R', 'U'),
            CountryCode::Rw => ('R', 'W'),
            CountryCode::Sa => ('S', 'A'),
            CountryCode::Sb => ('S', 'B'),
            CountryCode::Sc => ('S', 'C'),
            CountryCode::Sd => ('S', 'D'),
            CountryCode::Se => ('S', 'E'),
            CountryCode::Sg => ('S', 'G'),
            CountryCode::Sh => ('S', 'H'),
            CountryCode::Si => ('S', 'I'),
            CountryCode::Sj => ('S', 'J'),
            CountryCode::Sk => ('S', 'K'),
            CountryCode::Sl => ('S', 'L'),
            CountryCode::Sm => ('S', 'M'),
            CountryCode::Sn => ('S', 'N'),
            CountryCode::So => ('S', 'O'),
            CountryCode::Sr => ('S', 'R'),
            CountryCode::Ss => ('S', 'S'),
            CountryCode::St => ('S', 'T'),
            CountryCode::Sv => ('S', 'V'),
            CountryCode::Sx => ('S', 'X'),
            CountryCode::Sy => ('S', 'Y'),
            CountryCode::Sz => ('S', 'Z'),
            CountryCode::Tc => ('T', 'C'),
            CountryCode::Td => ('T', 'D'),
            CountryCode::Tf => ('T', 'F'),
            CountryCode::Tg => ('T', 'G'),
            CountryCode::Th => ('T', 'H'),
            CountryCode::Tj => ('T', 'J'),
            CountryCode::Tk => ('T', 'K'),
            CountryCode::Tl => ('T', 'L'),
            CountryCode::Tm => ('T', 'M'),
            CountryCode::Tn => ('T', 'N'),
            CountryCode::To => ('T', 'O'),
            CountryCode::Tr => ('T', 'R'),
            CountryCode::Tt => ('T', 'T'),
            CountryCode::Tv => ('T', 'V'),
            CountryCode::Tw => ('T', 'W'),
            CountryCode::Tz => ('T', 'Z'),
            CountryCode::Ua => ('U', 'A'),
            CountryCode::Ug => ('U', 'G'),
            CountryCode::Um => ('U', 'M'),
            CountryCode::Us => ('U', 'S'),
            CountryCode::Uy => ('U', 'Y'),
            CountryCode::Uz => ('U', 'Z'),
            CountryCode::Va => ('V', 'A'),
            CountryCode::Vc => ('V', 'C'),
            CountryCode::Ve => ('V', 'E'),
            CountryCode::Vg => ('V', 'G'),
            CountryCode::Vi => ('V', 'I'),
            CountryCode::Vn => ('V', 'N'),
            CountryCode::Vu => ('V', 'U'),
            CountryCode::Wf => ('W', 'F'),
            CountryCode::Ws => ('W', 'S'),
            CountryCode::Ye => ('Y', 'E'),
            CountryCode::Yt => ('Y', 'T'),
            CountryCode::Za => ('Z', 'A'),
            CountryCode::Zm => ('Z', 'M'),
            CountryCode::Zw => ('Z', 'W'),
        }
    }

    /// The country that two letters name, if any.
    pub fn from_letters(first: char, second: char) -> (decoded: Option<CountryCode>)
        ensures
            decoded == Self::of_letters(first, second),
    {
        match first {
            'A' => match second {
                'D' => Some(CountryCode::Ad),
                'E' => Some(CountryCode::Ae),
                'F' => Some(CountryCode::Af),
                'G' => Some(CountryCode::Ag),
                'I' => Some(CountryCode::Ai),
                'L' => Some(CountryCode::Al),
                'M' => Some(CountryCode::Am),
                'O' => Some(CountryCode::Ao),
                'Q' => Some(CountryCode::Aq),
                'R' => Some(CountryCode::Ar),
                'S' => Some(CountryCode::As),
                'T' => Some(CountryCode::At),
                'U' => Some(CountryCode::Au),
                'W' => Some(CountryCode::Aw),
                'X' => Some(CountryCode::Ax),
                'Z' => Some(CountryCode::Az),
                _ => None,
            },
            'B' => match second {
                'A' => Some(CountryCode::Ba),
                'B' => Some(CountryCode::Bb),
                'D' => Some(CountryCode::Bd),
                'E' => Some(CountryCode::Be),
                'F' => Some(CountryCode::Bf),
                'G' => Some(CountryCode::Bg),
                'H' => Some(CountryCode::Bh),
                'I' => Some(CountryCode::Bi),
                'J' => Some(CountryCode::Bj),
                'L' => Some(CountryCode::Bl),
                'M' => Some(CountryCode::Bm),
                'N' => Some(CountryCode::Bn),
                'O' => Some(CountryCode::Bo),
                'Q' => Some(CountryCode::Bq),
                'R' => Some(CountryCode::Br),
                'S' => Some(CountryCode::Bs),
                'T' => Some(CountryCode::Bt),
                'V' => Some(CountryCode::Bv),
                'W' => Some(CountryCode::Bw),
                'Y' => Some(CountryCode::By),
                'Z' => Some(CountryCode::Bz),
                _ => None,
            },
            'C' => match second {
                'A' => Some(CountryCode::Ca),
                'C' => Some(CountryCode::Cc),
                'D' => Some(CountryCode::Cd),
                'F' => Some(CountryCode::Cf),
                'G' => Some(CountryCode::Cg),
                'H' => Some(CountryCode::Ch),
                'I' => Some(CountryCode::Ci),
                'K' => Some(CountryCode::Ck),
                'L' => Some(CountryCode::Cl),
                'M' => Some(CountryCode::Cm),
                'N' => Some(CountryCode::Cn),
                'O' => Some(CountryCode::Co),
                'R' => Some(CountryCode::Cr),
                'U' => Some(CountryCode::Cu),
                'V' => Some(CountryCode::Cv),
                'W' => Some(CountryCode::Cw),
                'X' => Some(CountryCode::Cx),
                'Y' => Some(CountryCode::Cy),
                'Z' => Some(CountryCode::Cz),
                _ => None,
            },
            'D' => match second {
                'E' => Some(CountryCode::De),
                'J' => Some(CountryCode::Dj),
                'K' => Some(CountryCode::Dk),
                'M' => Some(CountryCode::Dm),
                'O' => Some(CountryCode::Do),
                'Z' => Some(CountryCode::Dz),
                _ => None,
            },
            'E' => match second {
                'C' => Some(CountryCode::Ec),
                'E' => Some(CountryCode::Ee),
                'G' => Some(CountryCode::Eg),
                'H' => Some(CountryCode::Eh),
                'R' => Some(CountryCode::Er),
                'S' => Some(CountryCode::Es),
                'T' => Some(CountryCode::Et),
                _ => None,
            },
            'F' => match second {
                'I' => Some(CountryCode::Fi),
                'J' => Some(CountryCode::Fj),
                'K' => Some(CountryCode::Fk),
                'M' => Some(CountryCode::Fm),
                'O' => Some(CountryCode::Fo),
                'R' => Some(CountryCode::Fr),
                _ => None,
            },
            'G' => match second {
                'A' => Some(CountryCode::Ga),
                'B' => Some(CountryCode::Gb),
                'D' => Some(CountryCode::Gd),
                'E' => Some(CountryCode::Ge),
                'F' => Some(CountryCode::Gf),
                'G' => Some(CountryCode::Gg),
                'H' => Some(CountryCode::Gh),
                'I' => Some(CountryCode::Gi),
                'L' => Some(CountryCode::Gl),
                'M' => Some(CountryCode::Gm),
                'N' => Some(CountryCode::Gn),
                'P' => Some(CountryCode::Gp),
                'Q' => Some(CountryCode::Gq),
                'R' => Some(CountryCode::Gr),
                'S' => Some(CountryCode::Gs),
                'T' => Some(CountryCode::Gt),
                'U' => Some(CountryCode::Gu),
                'W' => Some(CountryCode::Gw),
                'Y' => Some(CountryCode::Gy),
                _ => None,
            },
            'H' => match second {
                'K' => Some(CountryCode::Hk),
                'M' => Some(CountryCode::Hm),
                'N' => Some(CountryCode::Hn),
                'R' => Some(CountryCode::Hr),
                'T' => Some(CountryCode::Ht),
                'U' => Some(CountryCode::Hu),
                _ => None,
            },
            'I' => match second {
                'D' => Some(CountryCode::Id),
                'E' => Some(CountryCode::Ie),
                'L' => Some(CountryCode::Il),
                'M' => Some(CountryCode::Im),
                'N' => Some(CountryCode::In),
                'O' => Some(CountryCode::Io),
                'Q' => Some(CountryCode::Iq),
                'R' => Some(CountryCode::Ir),
                'S' => Some(CountryCode::Is),
                'T' => Some(CountryCode::It),
                _ => None,
            },
            'J' => match second {
                'E' => Some(CountryCode::Je),
                'M' => Some(CountryCode::Jm),
                'O' => Some(CountryCode::Jo),
                'P' => Some(CountryCode::Jp),
                _ => None,
            },
            'K' => match second {
                'E' => Some(CountryCode::Ke),
                'G' => Some(CountryCode::Kg),
                'H' => Some(CountryCode::Kh),
                'I' => Some(CountryCode::Ki),
                'M' => Some(CountryCode::Km),
                'N' => Some(CountryCode::Kn),
                'P' => Some(CountryCode::Kp),
                'R' => Some(CountryCode::Kr),
                'W' => Some(CountryCode::Kw),
                'Y' => Some(CountryCode::Ky),
                'Z' => Some(CountryCode::Kz),
                _ => None,
            },
            'L' => match second {
                'A' => Some(CountryCode::La),
                'B' => Some(CountryCode::Lb),
                'C' => Some(CountryCode::Lc),
                'I' => Some(CountryCode::Li),
                'K' => Some(CountryCode::Lk),
                'R' => Some(CountryCode::Lr),
                'S' => Some(CountryCode::Ls),
                'T' => Some(CountryCode::Lt),
                'U' => Some(CountryCode::Lu),
                'V' => Some(CountryCode::Lv),
                'Y' => Some(CountryCode::Ly),
                _ => None,
            },
            'M' => match second {
                'A' => Some(CountryCode::Ma),
                'C' => Some(CountryCode::Mc),
                'D' => Some(CountryCode::Md),
                'E' => Some(CountryCode::Me),
                'F' => Some(CountryCode::Mf),
                'G' => Some(CountryCode::Mg),
                'H' => Some(CountryCode::Mh),
                'K' => Some(CountryCode::Mk),
                'L' => Some(CountryCode::Ml),
                'M' => Some(CountryCode::Mm),
                'N' => Some(CountryCode::Mn),
                'O' => Some(CountryCode::Mo),
                'P' => Some(CountryCode::Mp),
                'Q' => Some(CountryCode::Mq),
                'R' => Some(CountryCode::Mr),
                'S' => Some(CountryCode::Ms),
                'T' => Some(CountryCode::Mt),
                'U' => Some(CountryCode::Mu),
                'V' => Some(CountryCode::Mv),
                'W' => Some(CountryCode::Mw),
                'X' => Some(CountryCode::Mx),
                'Y' => Some(CountryCode::My),
                'Z' => Some(CountryCode::Mz),
                _ => None,
            },
            'N' => match second {
                'A' => Some(CountryCode::Na),
                'C' => Some(CountryCode::Nc),
                'E' => Some(CountryCode::Ne),
                'F' => Some(CountryCode::Nf),
                'G' => Some(CountryCode::Ng),
                'I' => Some(CountryCode::Ni),
                'L' => Some(CountryCode::Nl),
                'O' => Some(CountryCode::No),
                'P' => Some(CountryCode::Np),
                'R' => Some(CountryCode::Nr),
                'U' => Some(CountryCode::Nu),
                'Z' => Some(CountryCode::Nz),
                _ => None,
            },
            'O' => match second {
                'M' => Some(CountryCode::Om),
                _ => None,
            },
            'P' => match second {
                'A' => Some(CountryCode::Pa),
                'E' => Some(CountryCode::Pe),
                'F' => Some(CountryCode::Pf),
                'G' => Some(CountryCode::Pg),
                'H' => Some(CountryCode::Ph),
                'K' => Some(CountryCode::Pk),
                'L' => Some(CountryCode::Pl),
                'M' => Some(CountryCode::Pm),
                'N' => Some(CountryCode::Pn),
                'R' => Some(CountryCode::Pr),
                'S' => Some(CountryCode::Ps),
                'T' => Some(CountryCode::Pt),
                'W' => Some(CountryCode::Pw),
                'Y' => Some(CountryCode::Py),
                _ => None,
            },
            'Q' => match second {
                'A' => Some(CountryCode::Qa),
                _ => None,
            },
            'R' => match second {
                'E' => Some(CountryCode::Re),
                'O' => Some(CountryCode::Ro),
                'S' => Some(CountryCode::Rs),
                'U' => Some(CountryCode::Ru),
                'W' => Some(CountryCode::Rw),
                _ => None,
            },
            'S' => match second {
                'A' => Some(CountryCode::Sa),
                'B' => Some(CountryCode::Sb),
                'C' => Some(CountryCode::Sc),
                'D' => Some(CountryCode::Sd),
                'E' => Some(CountryCode::Se),
                'G' => Some(CountryCode::Sg),
                'H' => Some(CountryCode::Sh),
                'I' => Some(CountryCode::Si),
                'J' => Some(CountryCode::Sj),
                'K' => Some(CountryCode::Sk),
                'L' => Some(CountryCode::Sl),
                'M' => Some(CountryCode::Sm),
                'N' => Some(CountryCode::Sn),
                'O' => Some(CountryCode::So),
                'R' => Some(CountryCode::Sr),
                'S' => Some(CountryCode::Ss),
                'T' => Some(CountryCode::St),
                'V' => Some(CountryCode::Sv),
                'X' => Some(CountryCode::Sx),
                'Y' => Some(CountryCode::Sy),
                'Z' => Some(CountryCode::Sz),
                _ => None,
            },
            'T' => match second {
                'C' => Some(CountryCode::Tc),
                'D' => Some(CountryCode::Td),
                'F' => Some(CountryCode::Tf),
                'G' => Some(CountryCode::Tg),
                'H' => Some(CountryCode::Th),
                'J' => Some(CountryCode::Tj),
                'K' => Some(CountryCode::Tk),
                'L' => Some(CountryCode::Tl),
                'M' => Some(CountryCode::Tm),
                'N' => Some(CountryCode::Tn),
                'O' => Some(CountryCode::To),
                'R' => Some(CountryCode::Tr),
                'T' => Some(CountryCode::Tt),
                'V' => Some(CountryCode::Tv),
                'W' => Some(CountryCode::Tw),
                'Z' => Some(CountryCode::Tz),
                _ => None,
            },
            'U' => match second {
                'A' => Some(CountryCode::Ua),
                'G' => Some(CountryCode::Ug),
                'M' => Some(CountryCode::Um),
                'S' => Some(CountryCode::Us),
                'Y' => Some(CountryCode::Uy),
                'Z' => Some(CountryCode::Uz),
                _ => None,
            },
            'V' => match second {
                'A' => Some(CountryCode::Va),
                'C' => Some(CountryCode::Vc),
                'E' => Some(CountryCode::Ve),
                'G' => Some(CountryCode::Vg),
                'I' => Some(CountryCode::Vi),
                'N' => Some(CountryCode::Vn),
                'U' => Some(CountryCode::Vu),
                _ => None,
            },
            'W' => match second {
                'F' => Some(CountryCode::Wf),
                'S' => Some(CountryCode::Ws),
                _ => None,
            },
            'Y' => match second {
                'E' => Some(CountryCode::Ye),
                'T' => Some(CountryCode::Yt),
                _ => None,
            },
            'Z' => match second {
                'A' => Some(CountryCode::Za),
                'M' => Some(CountryCode::Zm),
                'W' => Some(CountryCode::Zw),
                _ => None,
            },
            _ => None,
        }
    }

    /// The letters of a code name that code.
    pub proof fn lemma_letters_name(value: CountryCode)
        ensures
            Self::of_letters(value.letters().0, value.letters().1) == Some(value),
    {
    }

    /// Letters name no code but the one that is written with them.
    #[verifier::rlimit(60)]
    pub proof fn lemma_named_letters(first: char, second: char)
        ensures
            Self::of_letters(first, second) matches Some(value) ==> value.letters() == (
                first,
                second,
            ),
    {
    }

    /// The letters of a code name that code, and no other letters do.
    pub proof fn lemma_of_letters(first: char, second: char, value: CountryCode)
        ensures
            Self::of_letters(first, second) == Some(value) <==> value.letters() == (first, second),
    {
        Self::lemma_letters_name(value);
        Self::lemma_named_letters(first, second);
    }

    /// No name is read as two different codes.
    pub proof fn lemma_reads_one(a: CountryCode, b: CountryCode, name: Seq<char>)
        requires
            a.reads(name),
            b.reads(name),
        ensures
            a == b,
    {
        assert(a.wire()[0] == b.wire()[0]);
        assert(a.wire()[1] == b.wire()[1]);
        Self::lemma_of_letters(a.letters().0, a.letters().1, a);
        Self::lemma_of_letters(a.letters().0, a.letters().1, b);
    }

    /// The two letters of a code are letters.
    pub proof fn lemma_letters(value: CountryCode)
        ensures
            is_ascii_letter(value.letters().0),
            is_ascii_letter(value.letters().1),
    {
    }

    /// The name of each code is written into a query string as it is.
    pub proof fn lemma_wire_kept(value: CountryCode)
        ensures
            percent_encoded(value.wire()) == value.wire(),
    {
        Self::lemma_letters(value);
        lemma_kept_text(value.wire());
    }

    /// The name under which the code is written on the wire.
    pub fn wire_name(&self) -> (name: String)
        ensures
            name@ == self.wire(),
    {
        let (first, second) = self.code();
        let mut name = String::from_str(letter_str(first));
        name.append(letter_str(second));
        assert(name@ =~= self.wire());
        name
    }

    /// Reads a name from the wire: `Some` for exactly the two-letter names
    /// of the codes, `None` for every other text.
    pub fn from_wire(name: &str) -> (decoded: Option<CountryCode>)
        ensures
            match decoded {
                Some(value) => value.reads(name@),
                None => forall|value: CountryCode| !value.reads(name@),
            },
    {
        let chars = chars_of(name);
        if chars.len() != 2 {
            return None;
        }
        let decoded = Self::from_letters(chars[0], chars[1]);
        proof {
            assert forall|value: CountryCode| value.reads(name@) implies decoded == Some(
                value,
            ) by {
                assert(value.wire()[0] == chars@[0] && value.wire()[1] == chars@[1]);
                Self::lemma_of_letters(chars@[0], chars@[1], value);
            }
            if let Some(value) = decoded {
                Self::lemma_of_letters(chars@[0], chars@[1], value);
                assert(name@ =~= value.wire());
            }
        }
        decoded
    }
}

impl Decode for CountryCode {
    open spec fn accepts(value: Json) -> bool {
        value matches Json::Text(name) && exists|decoded: CountryCode| decoded.reads(name@)
    }

    open spec fn renders(value: Json, decoded: CountryCode) -> bool {
        value matches Json::Text(name) && decoded.reads(name@)
    }

    fn decode(value: &Json) -> (decoded: Option<CountryCode>) {
        match value {
            Json::Text(name) => CountryCode::from_wire(name.as_str()),
            _ => None,
        }
    }
}

} // verus!
