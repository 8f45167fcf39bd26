//! Nach einer neueren Version sehen.
//!
//! Nur lesen, nur GitHub, nichts wird mitgeschickt: die Abfrage selbst läuft
//! außerhalb der Bibliothek; hier wird die Antwort ausgewertet. Die Adresse,
//! die geöffnet wird, steht fest im Programm und stammt nie aus der Antwort.

use vstd::prelude::*;
use crate::zeichen;
use crate::zeichen::{dezimal_von, folge_anhaengen, getrimmt_von, teilfolge, text_aus, zeichen_von, zerteile};

verus! {

/// Projektadresse – auch für die Anzeige in der Oberfläche.
pub const REPO: &'static str = "philppplik/plane";

/// Adresse der jüngsten Veröffentlichung (ohne Entwürfe und Vorabversionen).
pub const API: &'static str = "https://api.github.com/repos/philppplik/plane/releases/latest";

/// Seite, die beim Klick auf „Herunterladen“ geöffnet wird.
pub const SEITE: &'static str = "https://github.com/philppplik/plane/releases/latest";

/// Version dieses Programms.
pub const VERSION: &'static str = "0.2.0";

/// Ergebnis einer Prüfung.
#[derive(Debug, Clone, PartialEq, Eq)]
pub struct UpdateInfo {
    /// Version dieses Programms.
    pub current: String,
    /// Jüngste veröffentlichte Version, ohne führendes `v`.
    pub latest: String,
    /// Ist `latest` tatsächlich neuer als `current`?
    pub newer: bool,
    /// Seite, auf der die Dateien liegen.
    pub url: String,
    /// Veröffentlichungsdatum als `YYYY-MM-DD`, falls vorhanden.
    pub published: String,
}

/// Drei Zahlen nach Semantic Versioning.
#[derive(Debug, Clone, Copy, PartialEq, Eq, Structural, PartialOrd, Ord)]
pub struct Version(pub u32, pub u32, pub u32);

// ---------------------------------------------------------------------------
// Spezifikation
// ---------------------------------------------------------------------------

/// `a` ist neuer als `b`: der erste unterschiedliche Teil entscheidet.
pub open spec fn neuer(a: Version, b: Version) -> bool {
    a.0 > b.0 || (a.0 == b.0 && (a.1 > b.1 || (a.1 == b.1 && a.2 > b.2)))
}

/// Erste Stelle ab `i` mit `-` oder `+`, sonst die Länge.
pub open spec fn vorabstelle(s: Seq<char>, i: int) -> int
    decreases s.len() - i,
{
    if i < 0 || i >= s.len() {
        s.len() as int
    } else if s[i] == '-' || s[i] == '+' {
        i
    } else {
        vorabstelle(s, i + 1)
    }
}

/// Der Versionskern: getrimmt, ohne führende `v`/`V`, ohne Vorab- und Buildteil.
pub open spec fn kern(text: Seq<char>) -> Seq<char> {
    let ohne = zeichen::ohne_vorne(zeichen::getrimmt(text), |c: char| c == 'v' || c == 'V');
    ohne.take(vorabstelle(ohne, 0))
}

/// Eine Zahl aus Ziffern, die in `u32` passt.
pub open spec fn zahl(t: Seq<char>) -> Option<u32> {
    if t.len() > 0 && zeichen::nur_ziffern(t) && zeichen::ziffernwert(t) <= u32::MAX {
        Some(zeichen::ziffernwert(t) as u32)
    } else {
        None
    }
}

/// Die Version zu einem Text: die ersten bis zu drei Punktteile des Kerns,
/// fehlende Teile sind 0; ein einziger unlesbarer Teil macht alles ungültig.
pub open spec fn version_aus(text: Seq<char>) -> Option<Version> {
    let teile = zeichen::teile(kern(text), '.');
    let n = if teile.len() < 3 { teile.len() as int } else { 3 };
    if forall|k: int| 0 <= k < n ==> #[trigger] zahl(teile[k]) is Some {
        Some(Version(
            zahl(teile[0])->0,
            if n > 1 { zahl(teile[1])->0 } else { 0 },
            if n > 2 { zahl(teile[2])->0 } else { 0 },
        ))
    } else {
        None
    }
}

/// `a.b.c`.
pub open spec fn anzeige_von(v: Version) -> Seq<char> {
    zeichen::dezimal(v.0 as nat) + seq!['.'] + zeichen::dezimal(v.1 as nat) + seq!['.'] + zeichen::dezimal(v.2 as nat)
}

// ---------------------------------------------------------------------------
// Ausführbar
// ---------------------------------------------------------------------------

proof fn lemma_ziffernwert_monoton(t: Seq<char>, i: int)
    requires
        0 <= i <= t.len(),
        zeichen::nur_ziffern(t),
    ensures
        zeichen::ziffernwert(t.take(i)) <= zeichen::ziffernwert(t),
    decreases t.len() - i,
{
    if i < t.len() {
        lemma_ziffernwert_monoton(t, i + 1);
        assert(t.take(i + 1).drop_last() =~= t.take(i));
        assert(zeichen::ist_ziffer(t[i]));
    } else {
        assert(t.take(i) =~= t);
    }
}

/// Eine Folge von Ziffern als `u32` lesen.
pub fn zahl_lesen(t: &[char]) -> (r: Option<u32>)
    ensures
        r == zahl(t@),
{
    if t.len() == 0 {
        return None;
    }
    let mut wert: u64 = 0;
    let mut i: usize = 0;
    while i < t.len()
        invariant
            i <= t@.len(),
            t@.len() > 0,
            forall|k: int| 0 <= k < i ==> zeichen::ist_ziffer(#[trigger] t@[k]),
            wert == zeichen::ziffernwert(t@.take(i as int)),
            wert <= u32::MAX,
        decreases t@.len() - i,
    {
        let c = t[i];
        if !('0' <= c && c <= '9') {
            assert(!zeichen::nur_ziffern(t@));
            return None;
        }
        assert(t@.take(i + 1).drop_last() =~= t@.take(i as int));
        let neu: u64 = wert * 10 + ((c as u32) - ('0' as u32)) as u64;
        if neu > 4294967295 {
            proof {
                let rest_ziffern = forall|k: int| 0 <= k < t@.len() ==> zeichen::ist_ziffer(#[trigger] t@[k]);
                if rest_ziffern {
                    lemma_ziffernwert_monoton(t@, i + 1);
                }
            }
            return None;
        }
        wert = neu;
        i = i + 1;
    }
    assert(t@.take(i as int) =~= t@);
    Some(wert as u32)
}

impl Version {
    /// `v1.2.3`, `1.2.3`, `1.2` und `1.2.3-beta.1` werden verstanden. Der
    /// Vorabteil hinter `-` (und ein Buildteil hinter `+`) wird abgeschnitten,
    /// nicht ausgewertet.
    pub fn parse(text: &str) -> (r: Option<Version>)
        ensures
            r == version_aus(text@),
    {
        let getrimmt = getrimmt_von(&zeichen_von(text));
        let mut a: usize = 0;
        while a < getrimmt.len() && (getrimmt[a] == 'v' || getrimmt[a] == 'V')
            invariant
                a <= getrimmt@.len(),
                forall|j: int| 0 <= j < a ==> (#[trigger] getrimmt@[j] == 'v' || getrimmt@[j] == 'V'),
            decreases getrimmt@.len() - a,
        {
            a = a + 1;
        }
        proof {
            zeichen::lemma_ohne_vorne(getrimmt@, |c: char| c == 'v' || c == 'V', a as int);
        }
        let ohne = teilfolge(&getrimmt, a, getrimmt.len());
        let mut e: usize = 0;
        while e < ohne.len() && ohne[e] != '-' && ohne[e] != '+'
            invariant
                e <= ohne@.len(),
                vorabstelle(ohne@, 0) == vorabstelle(ohne@, e as int),
            decreases ohne@.len() - e,
        {
            e = e + 1;
        }
        let kern_v = teilfolge(&ohne, 0, e);
        assert(kern_v@ =~= kern(text@));
        let teile = zerteile(&kern_v, '.');
        let ghost t = zeichen::teile(kern(text@), '.');
        let n: usize = if teile.len() < 3 { teile.len() } else { 3 };
        let mut zahlen: Vec<u32> = Vec::new();
        let mut k: usize = 0;
        while k < n
            invariant
                k <= n,
                n == (if t.len() < 3 { t.len() as int } else { 3 }),
                t == zeichen::teile(kern(text@), '.'),
                zeichen::ansichten(teile@) == t,
                zahlen@.len() == k,
                forall|m: int| 0 <= m < k ==> #[trigger] zahl(t[m]) == Some(zahlen@[m]),
            decreases n - k,
        {
            assert(t[k as int] == teile@[k as int]@);
            match zahl_lesen(&teile[k]) {
                Some(z) => zahlen.push(z),
                None => {
                    assert(zahl(t[k as int]) is None);
                    assert(!(forall|m: int| 0 <= m < n ==> #[trigger] zahl(t[m]) is Some));
                    return None;
                },
            }
            k = k + 1;
        }
        proof {
            assert(t.len() >= 1) by {
                reveal_with_fuel(zeichen::teile, 2);
            }
        }
        let b = if n > 1 { zahlen[1] } else { 0 };
        let c = if n > 2 { zahlen[2] } else { 0 };
        Some(Version(zahlen[0], b, c))
    }

    /// Anzeige als `a.b.c`.
    pub fn anzeige(self) -> (r: String)
        ensures
            r@ == anzeige_von(self),
    {
        let mut v = dezimal_von(self.0 as u64);
        v.push('.');
        folge_anhaengen(&mut v, &dezimal_von(self.1 as u64));
        v.push('.');
        folge_anhaengen(&mut v, &dezimal_von(self.2 as u64));
        assert(v@ =~= anzeige_von(self));
        text_aus(&v)
    }

    /// `true`, wenn diese Version neuer ist als `andere`.
    pub fn ist_neuer_als(&self, andere: &Version) -> (r: bool)
        ensures
            r == neuer(*self, *andere),
    {
        self.0 > andere.0 || (self.0 == andere.0 && (self.1 > andere.1 || (self.1 == andere.1 && self.2 > andere.2)))
    }
}

/// Version dieses Programms.
pub fn eigene_version() -> (r: &'static str)
    ensures
        r@ == VERSION@,
{
    VERSION
}

/// Adresse der Veröffentlichungsseite – für die Anzeige zum Abtippen.
pub fn seite() -> (r: &'static str)
    ensures
        r@ == SEITE@,
{
    SEITE
}

/// Ohne Windows-Shell lässt sich kein Browser öffnen.
pub fn oeffne_seite() -> (r: Result<(), String>)
    ensures
        r is Err && r->Err_0@ == "update.error.browser"@,
{
    Err("update.error.browser".to_owned())
}

// ---------------------------------------------------------------------------
// Abfrage
// ---------------------------------------------------------------------------

/// Wie lange auf GitHub gewartet wird, in Sekunden – lieber eine ehrliche
/// Fehlermeldung als eine Oberfläche, die eine halbe Minute lang steht.
pub const ZEITGRENZE_SEKUNDEN: u64 = 8;

/// Höchstzahl der Umleitungen; GitHub antwortet direkt.
pub const MAX_UMLEITUNGEN: u32 = 2;

/// Das Format, in dem die Schnittstelle antworten soll.
pub const ACCEPT: &'static str = "application/vnd.github+json";

/// Der `User-Agent` der Anfrage, den die GitHub-API verlangt – und das
/// Einzige, was mitgeschickt wird.
pub fn user_agent() -> (r: String)
    ensures
        r@ == "plane/"@ + VERSION@,
{
    let mut r = "plane/".to_owned();
    zeichen::text_anhaengen(&mut r, VERSION);
    r
}

/// Übersetzungsschlüssel einer gescheiterten Abfrage: keine Veröffentlichung
/// (404), Anfragegrenze erreicht (403, 429), Zeitgrenze überschritten, sonst
/// nicht erreichbar.
pub open spec fn abfragefehler_spec(status: Option<u16>, zeitueberschreitung: bool) -> Seq<char> {
    match status {
        Some(c) => if c == 404 {
            "update.error.none_published"@
        } else if c == 403 || c == 429 {
            "update.error.rate_limit"@
        } else {
            "update.error.offline"@
        },
        None => if zeitueberschreitung {
            "update.error.timeout"@
        } else {
            "update.error.offline"@
        },
    }
}

/// Den Fehler einer Abfrage deuten: `status` ist der HTTP-Status, wenn die
/// Antwort einer war, `zeitueberschreitung`, ob die Zeitgrenze griff.
pub fn abfragefehler(status: Option<u16>, zeitueberschreitung: bool) -> (r: &'static str)
    ensures
        r@ == abfragefehler_spec(status, zeitueberschreitung),
{
    match status {
        Some(c) => if c == 404 {
            "update.error.none_published"
        } else if c == 403 || c == 429 {
            "update.error.rate_limit"
        } else {
            "update.error.offline"
        },
        None => if zeitueberschreitung {
            "update.error.timeout"
        } else {
            "update.error.offline"
        },
    }
}

/// Schlüssel, wenn die Antwort nicht lesbar war.
pub const UNLESBAR: &'static str = "update.error.unreadable";

// ---------------------------------------------------------------------------
// Antwort auswerten
// ---------------------------------------------------------------------------

/// Was eine Antwort der Veröffentlichungs-Schnittstelle enthält, soweit Plane
/// es liest: `None`, wenn sie kein JSON ist; sonst die Textwerte der Felder
/// `tag_name` und `published_at` (fehlend oder kein Text: `None`).
pub uninterp spec fn antwortfelder(rohtext: Seq<char>) -> Option<(Option<Seq<char>>, Option<Seq<char>>)>;

/// Die Sicht auf gelesene Antwortfelder.
pub open spec fn felder_sicht(f: Option<(Option<String>, Option<String>)>) -> Option<(Option<Seq<char>>, Option<Seq<char>>)> {
    match f {
        None => None,
        Some((a, b)) => Some((
            match a { Some(x) => Some(x@), None => None },
            match b { Some(x) => Some(x@), None => None },
        )),
    }
}

/// `serde_json::from_str` in einen `serde_json::Value`, dann `Value::get` für
/// `tag_name` und `published_at`. Übernommen werden nur Textwerte. Der
/// Vertrag sagt nur, dass das Ergebnis allein vom Text abhängt; wie JSON
/// gelesen wird, ist nicht ausgeschrieben.
#[verifier::external_body]
fn felder_lesen(rohtext: &str) -> (r: Option<(Option<String>, Option<String>)>)
    ensures
        felder_sicht(r) == antwortfelder(rohtext@),
{
    let daten: serde_json::Value = match serde_json::from_str(rohtext) {
        Ok(d) => d,
        Err(_) => return None,
    };
    let tag = match daten.get("tag_name") {
        Some(serde_json::Value::String(t)) => Some(t.clone()),
        _ => None,
    };
    let datum = match daten.get("published_at") {
        Some(serde_json::Value::String(d)) => Some(d.clone()),
        _ => None,
    };
    Some((tag, datum))
}

/// Die eigene Version; eine unlesbare zählt als `0.0.0`.
pub open spec fn eigene() -> Version {
    match version_aus(VERSION@) {
        Some(v) => v,
        None => Version(0, 0, 0),
    }
}

/// Der Teil vor dem ersten `T` (das Datum eines Zeitstempels).
pub open spec fn datumsteil(s: Seq<char>) -> Seq<char> {
    zeichen::teile(s, 'T')[0]
}

/// Auswertung gelesener Antwortfelder: aktuelle und neueste Version als Text,
/// ob die neueste neuer ist, die feste Seite und das Datum – oder der
/// Übersetzungsschlüssel des Fehlers.
pub open spec fn deutung(f: Option<(Option<Seq<char>>, Option<Seq<char>>)>)
    -> Result<(Seq<char>, Seq<char>, bool, Seq<char>, Seq<char>), Seq<char>> {
    match f {
        None => Err("update.error.unreadable"@),
        Some((None, _)) => Err("update.error.none_published"@),
        Some((Some(tag), datum)) => match version_aus(tag) {
            None => Err("update.error.unreadable"@),
            Some(neueste) => Ok((
                anzeige_von(eigene()),
                anzeige_von(neueste),
                neuer(neueste, eigene()),
                SEITE@,
                match datum { Some(d) => datumsteil(d), None => seq![] },
            )),
        },
    }
}

/// Die Sicht auf ein Prüfergebnis.
pub open spec fn info_sicht(r: Result<UpdateInfo, String>) -> Result<(Seq<char>, Seq<char>, bool, Seq<char>, Seq<char>), Seq<char>> {
    match r {
        Ok(i) => Ok((i.current@, i.latest@, i.newer, i.url@, i.published@)),
        Err(e) => Err(e@),
    }
}

/// Gelesene Antwortfelder auswerten. Die Seite stammt nie aus der Antwort:
/// eine Adresse aus dem Netz in den Browser zu reichen, wäre ein unnötiger
/// Vertrauensschritt.
pub fn deute_felder(felder: Option<(Option<String>, Option<String>)>) -> (r: Result<UpdateInfo, String>)
    ensures
        info_sicht(r) == deutung(felder_sicht(felder)),
{
    let (tag, datum) = match felder {
        None => return Err("update.error.unreadable".to_owned()),
        Some(f) => f,
    };
    let tag = match tag {
        None => return Err("update.error.none_published".to_owned()),
        Some(t) => t,
    };
    let neueste = match Version::parse(tag.as_str()) {
        None => return Err("update.error.unreadable".to_owned()),
        Some(v) => v,
    };
    let eigen = match Version::parse(eigene_version()) {
        Some(v) => v,
        None => Version(0, 0, 0),
    };
    let published = match datum {
        Some(d) => {
            let teile = zerteile(&zeichen_von(d.as_str()), 'T');
            proof {
                reveal_with_fuel(zeichen::teile, 2);
            }
            assert(zeichen::ansichten(teile@).len() == teile@.len());
            text_aus(&teile[0])
        },
        None => String::new(),
    };
    Ok(UpdateInfo {
        current: eigen.anzeige(),
        latest: neueste.anzeige(),
        newer: neueste.ist_neuer_als(&eigen),
        url: SEITE.to_owned(),
        published,
    })
}

/// Eine Antwort von GitHub auswerten.
pub fn deute(rohtext: &str) -> (r: Result<UpdateInfo, String>)
    ensures
        info_sicht(r) == deutung(antwortfelder(rohtext@)),
{
    deute_felder(felder_lesen(rohtext))
}

/// Keine Version ist neuer als sie selbst; von zwei verschiedenen ist genau
/// eine neuer.
pub proof fn neuer_ist_eine_strenge_ordnung(a: Version, b: Version)
    ensures
        !neuer(a, a),
        a != b ==> (neuer(a, b) != neuer(b, a)),
{
}

/// Versionen ordnen sich wie ihre Teile, der Reihe nach gelesen: ein
/// größerer Hauptteil ist neuer, bei gleichem Hauptteil ein größerer
/// Nebenteil, bei gleichen beiden ein größerer Patchteil; gleiche Versionen
/// sind nicht neuer als einander. Ein Patch-Release ist also neuer.
pub proof fn neuer_folgt_den_teilen(a: Version, b: Version)
    ensures
        a.0 > b.0 ==> neuer(a, b),
        a.0 == b.0 && a.1 > b.1 ==> neuer(a, b),
        a.0 == b.0 && a.1 == b.1 && a.2 > b.2 ==> neuer(a, b),
        a.0 == b.0 && a.1 == b.1 && a.2 == b.2 ==> !neuer(a, b),
        a.0 < b.0 ==> !neuer(a, b),
{
}

/// „Neuer“ ist transitiv.
pub proof fn neuer_ist_transitiv(a: Version, b: Version, c: Version)
    requires
        neuer(a, b),
        neuer(b, c),
    ensures
        neuer(a, c),
{
}

// ---------------------------------------------------------------------------
// Anzeige und Lesen passen zueinander
// ---------------------------------------------------------------------------

proof fn lemma_ziffer(d: nat)
    requires
        d < 10,
    ensures
        zeichen::ziffer(d) as u32 == 48 + d,
        '0' <= zeichen::ziffer(d) <= '9',
        zeichen::ist_ziffer(zeichen::ziffer(d)),
{
    let x: u32 = (48 + d) as u32;
    assert((x as char) as u32 == x);
}

proof fn lemma_dezimal(n: nat)
    ensures
        zeichen::dezimal(n).len() > 0,
        zeichen::nur_ziffern(zeichen::dezimal(n)),
        zeichen::ziffernwert(zeichen::dezimal(n)) == n,
        forall|i: int| 0 <= i < zeichen::dezimal(n).len() ==> '0' <= #[trigger] zeichen::dezimal(n)[i] <= '9',
    decreases n,
{
    assert(('0' as u32) == 48);
    if n < 10 {
        lemma_ziffer(n);
        let d = zeichen::dezimal(n);
        assert(d.drop_last() =~= Seq::<char>::empty());
        assert(d.last() == zeichen::ziffer(n));
        assert(zeichen::ziffernwert(d) == zeichen::ziffernwert(d.drop_last()) * 10 + ((d.last() as u32) - ('0' as u32)) as nat);
    } else {
        lemma_dezimal(n / 10);
        lemma_ziffer(n % 10);
        let d = zeichen::dezimal(n);
        let vorne = zeichen::dezimal(n / 10);
        assert(d == vorne.push(zeichen::ziffer(n % 10)));
        assert(d.drop_last() =~= vorne);
        assert(zeichen::ziffernwert(d) == zeichen::ziffernwert(vorne) * 10 + ((d.last() as u32) - ('0' as u32)) as nat);
        assert(zeichen::ziffernwert(d) == (n / 10) * 10 + n % 10);
        assert forall|i: int| 0 <= i < d.len() implies '0' <= #[trigger] d[i] <= '9' by {
            if i < vorne.len() {
                assert(d[i] == vorne[i]);
            }
        }
    }
}

proof fn lemma_erste_stelle(s: Seq<char>, c: char, j: int, k: int)
    requires
        0 <= j <= k < s.len(),
        s[k] == c,
        forall|i: int| 0 <= i < k ==> #[trigger] s[i] != c,
    ensures
        zeichen::stelle_ab(s, seq![c], j) == Some(k),
    decreases k - j,
{
    if j < k {
        assert(s.subrange(j, j + 1) != seq![c]) by {
            assert(s.subrange(j, j + 1)[0] == s[j]);
        }
        lemma_erste_stelle(s, c, j + 1, k);
    } else {
        assert(s.subrange(k, k + 1) =~= seq![c]);
    }
}

proof fn lemma_keine_stelle(s: Seq<char>, c: char, j: int)
    requires
        0 <= j <= s.len(),
        forall|i: int| 0 <= i < s.len() ==> #[trigger] s[i] != c,
    ensures
        zeichen::stelle_ab(s, seq![c], j) is None,
    decreases s.len() - j,
{
    if j < s.len() {
        assert(s.subrange(j, j + 1) != seq![c]) by {
            assert(s.subrange(j, j + 1)[0] == s[j]);
        }
        lemma_keine_stelle(s, c, j + 1);
    }
}

proof fn lemma_teile_vorn(a: Seq<char>, c: char, rest: Seq<char>)
    requires
        forall|i: int| 0 <= i < a.len() ==> #[trigger] a[i] != c,
    ensures
        zeichen::teile(a + seq![c] + rest, c) == seq![a] + zeichen::teile(rest, c),
{
    let s = a + seq![c] + rest;
    assert forall|i: int| 0 <= i < a.len() implies #[trigger] s[i] != c by {
        assert(s[i] == a[i]);
    }
    lemma_erste_stelle(s, c, 0, a.len() as int);
    assert(s.subrange(0, a.len() as int) =~= a);
    assert(s.subrange((a.len() + 1) as int, s.len() as int) =~= rest);
}

proof fn lemma_teile_ganz(a: Seq<char>, c: char)
    requires
        forall|i: int| 0 <= i < a.len() ==> #[trigger] a[i] != c,
    ensures
        zeichen::teile(a, c) == seq![a],
{
    lemma_keine_stelle(a, c, 0);
}

/// Lesen kehrt die Anzeige um: jede Version wird aus ihrer eigenen
/// Darstellung `a.b.c` genau wiedergewonnen.
pub proof fn anzeige_und_lesen_passen(v: Version)
    ensures
        version_aus(anzeige_von(v)) == Some(v),
{
    let a = zeichen::dezimal(v.0 as nat);
    let b = zeichen::dezimal(v.1 as nat);
    let c = zeichen::dezimal(v.2 as nat);
    lemma_dezimal(v.0 as nat);
    lemma_dezimal(v.1 as nat);
    lemma_dezimal(v.2 as nat);
    let s = anzeige_von(v);
    assert(s =~= a + seq!['.'] + (b + seq!['.'] + c));
    assert forall|i: int| 0 <= i < s.len() implies ('0' <= #[trigger] s[i] <= '9' || s[i] == '.') by {
        if i < a.len() {
            assert(s[i] == a[i]);
        } else if i == a.len() {
        } else if i < a.len() + 1 + b.len() {
            assert(s[i] == b[i - a.len() - 1]);
        } else if i == a.len() + 1 + b.len() {
        } else {
            assert(s[i] == c[i - a.len() - 2 - b.len()]);
        }
    }
    // Kein Leerraum an den Rändern, kein führendes `v`, kein Vorabteil.
    assert(s[0] == a[0]);
    assert(s[s.len() - 1] == c[c.len() - 1]);
    let ws = |x: char| zeichen::leerraum(x);
    zeichen::lemma_ohne_vorne(s, ws, 0);
    assert(s.subrange(0, s.len() as int) =~= s);
    zeichen::lemma_ohne_hinten(s, ws, s.len() as int);
    assert(zeichen::getrimmt(s) == s);
    let vv = |x: char| x == 'v' || x == 'V';
    zeichen::lemma_ohne_vorne(s, vv, 0);
    assert(zeichen::ohne_vorne(zeichen::getrimmt(s), |x: char| x == 'v' || x == 'V') == s);
    lemma_keine_vorabstelle(s, 0);
    assert(s.take(s.len() as int) =~= s);
    assert(kern(s) == s);
    // Die drei Punktteile.
    assert forall|i: int| 0 <= i < a.len() implies #[trigger] a[i] != '.' by {}
    assert forall|i: int| 0 <= i < b.len() implies #[trigger] b[i] != '.' by {}
    assert forall|i: int| 0 <= i < c.len() implies #[trigger] c[i] != '.' by {}
    lemma_teile_vorn(a, '.', b + seq!['.'] + c);
    lemma_teile_vorn(b, '.', c);
    lemma_teile_ganz(c, '.');
    let t = zeichen::teile(s, '.');
    assert(t =~= seq![a, b, c]);
    assert(zahl(t[0]) == Some(v.0));
    assert(zahl(t[1]) == Some(v.1));
    assert(zahl(t[2]) == Some(v.2));
}

proof fn lemma_keine_vorabstelle(s: Seq<char>, i: int)
    requires
        0 <= i <= s.len(),
        forall|j: int| 0 <= j < s.len() ==> ('0' <= #[trigger] s[j] <= '9' || s[j] == '.'),
    ensures
        vorabstelle(s, i) == s.len(),
    decreases s.len() - i,
{
    if i < s.len() {
        assert('0' <= s[i] <= '9' || s[i] == '.');
        lemma_keine_vorabstelle(s, i + 1);
    }
}

} // verus!
