//! Auflösung von Meldungen und Anzeigenamen.
//!
//! Die Engine liefert alle Texte als Übersetzungsschlüssel, teils mit
//! Argumenten hinter einem `|` (`"warn.process_running|chrome.exe"`). Erst
//! hier, an der Grenze zur Darstellung, wird daraus ein lesbarer Satz.

use vstd::prelude::*;
use crate::engine::types;
use crate::engine::types::{Category, Risk, Target};
use crate::i18n;
use crate::i18n::{fuellen, t};
use crate::zeichen;
use crate::zeichen::{getrimmt_von, kopie, teilfolge, text_aus, verkettet, zeichen_von, zerteile};

verus! {

/// Eine Meldung `schlüssel|arg0|arg1…` als Text; Leeres bleibt leer.
pub open spec fn meldungstext(lang: Seq<char>, roh: Seq<char>) -> Seq<char> {
    if zeichen::getrimmt(roh).len() == 0 {
        seq![]
    } else {
        let teile = zeichen::teile(roh, '|');
        i18n::gefuellt(i18n::text(lang, teile[0]), teile.skip(1))
    }
}

/// Die Zeichenfolgen einer Liste von Zeichenketten.
pub open spec fn texte(v: Seq<String>) -> Seq<Seq<char>> {
    v.map_values(|s: String| s@)
}

/// Alle Meldungen aufgelöst, leere weggelassen.
pub open spec fn meldungsliste(lang: Seq<char>, rohe: Seq<Seq<char>>) -> Seq<Seq<char>>
    decreases rohe.len(),
{
    if rohe.len() == 0 {
        seq![]
    } else {
        let davor = meldungsliste(lang, rohe.drop_last());
        let m = meldungstext(lang, rohe.last());
        if m.len() > 0 { davor.push(m) } else { davor }
    }
}

/// Ein Text auf höchstens `max` Zeichen gekürzt, Gekürztes endet mit `…`.
pub open spec fn gekuerzt(s: Seq<char>, max: nat) -> Seq<char> {
    if max == 0 {
        seq![]
    } else if s.len() <= max {
        s
    } else if max == 1 {
        seq!['…']
    } else {
        s.take(max - 1).push('…')
    }
}

/// ASCII-Symbol je Risikostufe.
pub open spec fn symbol(r: Risk) -> Seq<char> {
    match r {
        Risk::Safe => "+"@,
        Risk::Notice => "!"@,
        Risk::Caution => "#"@,
    }
}

proof fn lemma_teile_nicht_leer(s: Seq<char>, c: char)
    ensures
        zeichen::teile(s, c).len() >= 1,
{
}

/// Meldungsschlüssel der Engine in lesbaren Text übersetzen.
pub fn meldung(lang: &str, roh: &str) -> (r: String)
    ensures
        r@ == meldungstext(lang@, roh@),
{
    let z = zeichen_von(roh);
    if getrimmt_von(&z).len() == 0 {
        return String::new();
    }
    let teile = zerteile(&z, '|');
    proof {
        lemma_teile_nicht_leer(roh@, '|');
        assert(zeichen::ansichten(teile@).len() == teile@.len());
    }
    let schluessel = text_aus(&teile[0]);
    assert(schluessel@ == zeichen::teile(roh@, '|')[0]);
    let grund = t(lang, schluessel.as_str());
    let mut argumente: Vec<Vec<char>> = Vec::new();
    let mut k: usize = 1;
    while k < teile.len()
        invariant
            1 <= k <= teile@.len(),
            zeichen::ansichten(teile@) == zeichen::teile(roh@, '|'),
            argumente@.len() == k - 1,
            forall|m: int| 0 <= m < k - 1 ==> (#[trigger] argumente@[m])@ == teile@[m + 1]@,
        decreases teile@.len() - k,
    {
        argumente.push(kopie(&teile[k]));
        k = k + 1;
    }
    assert(zeichen::ansichten(argumente@) =~= zeichen::teile(roh@, '|').skip(1));
    let gefuellt = fuellen(zeichen_von(grund.as_str()), &argumente);
    text_aus(&gefuellt)
}

/// Mehrere Meldungen auflösen. Leere Einträge fallen weg.
pub fn meldungen(lang: &str, rohe: &[String]) -> (r: Vec<String>)
    ensures
        texte(r@) == meldungsliste(lang@, texte(rohe@)),
{
    let mut r: Vec<String> = Vec::new();
    let mut i: usize = 0;
    while i < rohe.len()
        invariant
            i <= rohe@.len(),
            texte(r@) == meldungsliste(lang@, texte(rohe@.subrange(0, i as int))),
        decreases rohe@.len() - i,
    {
        let m = meldung(lang, rohe[i].as_str());
        proof {
            assert(texte(rohe@.subrange(0, i + 1)).drop_last() =~= texte(rohe@.subrange(0, i as int)));
            assert(texte(rohe@.subrange(0, i + 1)).last() == rohe@[i as int]@);
        }
        if m.as_str().unicode_len() > 0 {
            let ghost vorher = r@;
            r.push(m);
            assert(texte(r@) =~= texte(vorher).push(m@));
        }
        i = i + 1;
    }
    assert(rohe@.subrange(0, i as int) =~= rohe@);
    r
}

/// Anzeigename eines Ziels; unbekannte Schlüssel bleiben sichtbar.
pub fn zielname(lang: &str, key: &str) -> (r: String)
    ensures
        r@ == i18n::text(lang@, "target."@ + key@ + ".name"@),
{
    let schluessel = verkettet("target.", key, ".name");
    t(lang, schluessel.as_str())
}

/// Beschreibung eines Ziels.
pub fn zielbeschreibung(lang: &str, key: &str) -> (r: String)
    ensures
        r@ == i18n::text(lang@, "target."@ + key@ + ".description"@),
{
    let schluessel = verkettet("target.", key, ".description");
    t(lang, schluessel.as_str())
}

/// Anzeigename einer Kategorie.
pub fn kategoriename(lang: &str, kategorie: Category) -> (r: String)
    ensures
        r@ == i18n::text(lang@, "category."@ + types::kategorie_schluessel(kategorie)),
{
    let schluessel = kategorie.i18n_key();
    t(lang, schluessel.as_str())
}

/// Anzeigename einer Risikostufe.
pub fn risikoname(lang: &str, risiko: Risk) -> (r: String)
    ensures
        r@ == i18n::text(lang@, "risk."@ + types::risiko_schluessel(risiko)),
{
    proof {
        reveal_strlit("");
    }
    let schluessel = verkettet("risk.", risiko.key(), "");
    assert(schluessel@ =~= "risk."@ + types::risiko_schluessel(risiko));
    t(lang, schluessel.as_str())
}

/// Erläuterung zur Risikostufe.
pub fn risikohinweis(lang: &str, risiko: Risk) -> (r: String)
    ensures
        r@ == i18n::text(lang@, "risk."@ + types::risiko_schluessel(risiko) + ".hint"@),
{
    let schluessel = verkettet("risk.", risiko.key(), ".hint");
    t(lang, schluessel.as_str())
}

/// Reines ASCII-Symbol je Risikostufe – die Stufe bleibt auch ohne Farbe erkennbar.
pub fn risikosymbol(risiko: Risk) -> (r: &'static str)
    ensures
        r@ == symbol(risiko),
{
    match risiko {
        Risk::Safe => "+",
        Risk::Notice => "!",
        Risk::Caution => "#",
    }
}

/// Statuszeichen für eine Zeile des Ergebnisberichts.
pub fn statuszeichen(ok: bool, uebersprungen: bool) -> (r: &'static str)
    ensures
        r@ == (if uebersprungen { "-"@ } else if ok { "+"@ } else { "x"@ }),
{
    if uebersprungen {
        "-"
    } else if ok {
        "+"
    } else {
        "x"
    }
}

/// Kennzeichnung besonderer Eigenschaften eines Ziels
/// (Administratorrechte, reiner Vorschlag). Leer, wenn nichts zutrifft.
pub fn zielmerkmale(lang: &str, ziel: &Target) -> (r: Vec<String>)
    ensures
        texte(r@) == (if ziel.requires_admin { seq![i18n::text(lang@, "risk.needs_admin"@)] } else { seq![] })
            + (if types::nur_vorschlag(*ziel) { seq![i18n::text(lang@, "risk.suggestion_only"@)] } else { seq![] }),
{
    let mut merkmale: Vec<String> = Vec::new();
    if ziel.requires_admin {
        merkmale.push(t(lang, "risk.needs_admin"));
    }
    let ghost mitte = merkmale@;
    if ziel.is_suggestion_only() {
        merkmale.push(t(lang, "risk.suggestion_only"));
    }
    assert(texte(merkmale@) =~= (if ziel.requires_admin { seq![i18n::text(lang@, "risk.needs_admin"@)] } else { seq![] })
        + (if types::nur_vorschlag(*ziel) { seq![i18n::text(lang@, "risk.suggestion_only"@)] } else { seq![] }));
    merkmale
}

/// Zeichenkette auf höchstens `max` Zeichen kürzen und mit `…` kennzeichnen.
/// Arbeitet auf Zeichen, nicht auf Bytes – ein Umlaut wird nie zerschnitten.
pub fn kuerzen(text: &str, max: usize) -> (r: String)
    ensures
        r@ == gekuerzt(text@, max as nat),
        r@.len() <= max,
{
    if max == 0 {
        return String::new();
    }
    let zeichen = zeichen_von(text);
    if zeichen.len() <= max {
        return text.to_owned();
    }
    if max == 1 {
        let mut r: Vec<char> = Vec::new();
        r.push('…');
        return text_aus(&r);
    }
    let mut vorne = teilfolge(&zeichen, 0, max - 1);
    vorne.push('…');
    assert(vorne@ =~= text@.take(max - 1).push('…'));
    text_aus(&vorne)
}

} // verus!
