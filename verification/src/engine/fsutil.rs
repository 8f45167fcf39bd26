//! Entscheidungen rund ums Dateisystem: welche Pfade angefasst werden dürfen,
//! wann ein Eintrag alt genug ist, wie ein Löschfehler einzuordnen ist und wie
//! Größen lesbar werden.
//!
//! Das Lesen und Löschen selbst geschieht außerhalb der Bibliothek; es fragt
//! hier nach, bevor es handelt.

use vstd::prelude::*;
use crate::i18n;
use crate::zeichen;
use crate::zeichen::{
    dezimal_von, enthaelt_folge, finde_zeichen, folge_anhaengen, klein_von, teilfolge, text_aus, zeichen_von,
    zerteile,
};

verus! {

// ---------------------------------------------------------------------------
// Geschützte Pfade
// ---------------------------------------------------------------------------

/// Pfadteile, unter denen nie gelöscht wird (kleingeschrieben).
pub const GESPERRT: [&'static str; 7] = [
    "\\windows\\system32",
    "\\windows\\syswow64",
    "\\windows\\winsxs",
    "\\program files\\",
    "\\program files (x86)\\",
    "\\program files (arm)\\",
    "\\users\\default\\",
];

/// `/` gilt unter Windows ebenfalls als Trenner.
pub open spec fn vereinheitlicht(s: Seq<char>) -> Seq<char> {
    s.map_values(|c: char| if c == '/' { '\\' } else { c })
}

/// Ein Pfadteil, der als Ebene zählt (`Component::Normal`): nicht leer, nicht `.` oder `..`.
pub open spec fn ist_ebene(t: Seq<char>) -> bool {
    t.len() > 0 && t != seq!['.'] && t != seq!['.', '.']
}

/// Anzahl der Ebenen in einer Folge von Pfadteilen.
pub open spec fn ebenen_in(teile: Seq<Seq<char>>) -> nat
    decreases teile.len(),
{
    if teile.len() == 0 {
        0
    } else {
        ebenen_in(teile.drop_last()) + if ist_ebene(teile.last()) { 1nat } else { 0nat }
    }
}

/// Beginnt mit einem Laufwerksbuchstaben samt Doppelpunkt (`C:`).
pub open spec fn hat_laufwerk(s: Seq<char>) -> bool {
    s.len() >= 2 && s[1] == ':' && (('a' <= s[0] && s[0] <= 'z') || ('A' <= s[0] && s[0] <= 'Z'))
}

/// Die Zeichen bis zum ersten Trenner; in wörtlichen Pfaden (`\\?\`) trennt
/// nur `\`, sonst auch `/`.
pub open spec fn bis_trenner(s: Seq<char>, woertlich: bool) -> nat
    decreases s.len(),
{
    if s.len() == 0 || s[0] == '\\' || (!woertlich && s[0] == '/') {
        0
    } else {
        1 + bis_trenner(s.drop_first(), woertlich)
    }
}

/// Länge des Präfixes und ob der Pfad wörtlich ist, wie Windows ihn zerlegt:
/// `\\?\UNC\server\freigabe` (Server und Freigabe gehören zum Präfix),
/// `\\?\präfix`, `\\.\gerät`, `\\server\freigabe` – nur mit Server und
/// Freigabe, sonst ist `\\` kein Präfix –, und `C:`.
pub open spec fn praefix(s: Seq<char>) -> (nat, bool) {
    if s.len() >= 2 && pfadtrenner(s[0]) && pfadtrenner(s[1]) {
        if s.len() >= 4 && s[0] == '\\' && s[1] == '\\' && s[2] == '?' && s[3] == '\\' {
            if s.len() >= 8 && s[4] == 'U' && s[5] == 'N' && s[6] == 'C' && pfadtrenner(s[7]) {
                let server = bis_trenner(s.skip(8), true);
                let freigabe = if 8 + server < s.len() { bis_trenner(s.skip((8 + server + 1) as int), true) } else { 0nat };
                ((8 + server + (if freigabe > 0 { 1 + freigabe } else { 0 })) as nat, true)
            } else {
                ((4 + bis_trenner(s.skip(4), true)) as nat, true)
            }
        } else if s.len() >= 4 && s[2] == '.' && pfadtrenner(s[3]) {
            ((4 + bis_trenner(s.skip(4), false)) as nat, false)
        } else {
            let server = bis_trenner(s.skip(2), false);
            let freigabe = if 2 + server < s.len() { bis_trenner(s.skip((2 + server + 1) as int), false) } else { 0nat };
            if server > 0 && freigabe > 0 {
                ((2 + server + 1 + freigabe) as nat, false)
            } else {
                (0, false)
            }
        }
    } else if hat_laufwerk(s) {
        (2, false)
    } else {
        (0, false)
    }
}

/// Die Ebenen unterhalb des Präfixes (`Component::Normal`), wie Windows einen
/// Pfad zerlegt.
pub open spec fn ebenen(s: Seq<char>) -> nat {
    let rest = s.skip(praefix(s).0 as int);
    if praefix(s).1 {
        ebenen_in(zeichen::teile(rest, '\\'))
    } else {
        ebenen_in(zeichen::teile(vereinheitlicht(rest), '\\'))
    }
}

/// Der Pfad liegt (ohne Groß-/Kleinschreibung) unter einem gesperrten Teil.
pub open spec fn gesperrt(s: Seq<char>) -> bool {
    exists|i: int| 0 <= i < 7 && zeichen::enthaelt(zeichen::klein_folge(s), #[trigger] GESPERRT[i]@)
}

/// Erlaubt sind nur Pfade mit mindestens zwei Ebenen unter dem Präfix, die
/// nicht unter einem gesperrten Teil liegen.
pub open spec fn erlaubt(s: Seq<char>) -> bool {
    ebenen(s) >= 2 && !gesperrt(s)
}

fn vereinheitliche(v: &[char]) -> (r: Vec<char>)
    ensures
        r@ == vereinheitlicht(v@),
{
    let mut r: Vec<char> = Vec::new();
    let mut i: usize = 0;
    while i < v.len()
        invariant
            i <= v@.len(),
            r@ == vereinheitlicht(v@.subrange(0, i as int)),
        decreases v@.len() - i,
    {
        let c = v[i];
        r.push(if c == '/' { '\\' } else { c });
        i = i + 1;
        assert(r@ =~= vereinheitlicht(v@.subrange(0, i as int)));
    }
    assert(v@.subrange(0, i as int) =~= v@);
    r
}

fn ist_ebene_von(t: &[char]) -> (r: bool)
    ensures
        r == ist_ebene(t@),
{
    if t.len() == 0 {
        false
    } else if t.len() == 1 {
        if t[0] == '.' {
            assert(t@ =~= seq!['.']);
            false
        } else {
            assert(t@[0] != seq!['.'][0]);
            true
        }
    } else if t.len() == 2 {
        if t[0] == '.' && t[1] == '.' {
            assert(t@ =~= seq!['.', '.']);
            false
        } else {
            assert(t@[0] != seq!['.', '.'][0] || t@[1] != seq!['.', '.'][1]);
            true
        }
    } else {
        assert(t@.len() != seq!['.'].len() && t@.len() != seq!['.', '.'].len());
        true
    }
}

fn zaehle_ebenen(teile: &Vec<Vec<char>>, ab: usize) -> (r: u64)
    requires
        ab <= teile@.len(),
    ensures
        r == ebenen_in(zeichen::ansichten(teile@).skip(ab as int)),
{
    let mut n: u64 = 0;
    let mut i = ab;
    while i < teile.len()
        invariant
            ab <= i <= teile@.len(),
            n == ebenen_in(zeichen::ansichten(teile@).subrange(ab as int, i as int)),
            n <= i - ab,
        decreases teile@.len() - i,
    {
        let ist = ist_ebene_von(&teile[i]);
        assert(zeichen::ansichten(teile@).subrange(ab as int, i + 1).drop_last()
            =~= zeichen::ansichten(teile@).subrange(ab as int, i as int));
        if ist {
            n = n + 1;
        }
        i = i + 1;
    }
    assert(zeichen::ansichten(teile@).subrange(ab as int, i as int) =~= zeichen::ansichten(teile@).skip(ab as int));
    n
}

/// Bis zum ersten Trenner ist nicht weiter als bis zum Ende.
proof fn lemma_bis_trenner(s: Seq<char>, woertlich: bool)
    ensures
        bis_trenner(s, woertlich) <= s.len(),
    decreases s.len(),
{
    if s.len() > 0 {
        lemma_bis_trenner(s.drop_first(), woertlich);
    }
}

fn bis_trenner_ab(z: &Vec<char>, ab: usize, woertlich: bool) -> (r: usize)
    requires
        ab <= z@.len(),
    ensures
        r == bis_trenner(z@.skip(ab as int), woertlich),
        ab + r <= z@.len(),
{
    let mut i = ab;
    while i < z.len() && z[i] != '\\' && (woertlich || z[i] != '/')
        invariant
            ab <= i <= z@.len(),
            bis_trenner(z@.skip(ab as int), woertlich) == (i - ab) + bis_trenner(z@.skip(i as int), woertlich),
        decreases z@.len() - i,
    {
        assert(z@.skip(i as int).drop_first() =~= z@.skip(i + 1));
        assert(z@.skip(i as int)[0] == z@[i as int]);
        i = i + 1;
    }
    if i < z.len() {
        assert(z@.skip(i as int)[0] == z@[i as int]);
    }
    i - ab
}

fn praefix_von(z: &Vec<char>) -> (r: (usize, bool))
    ensures
        r.0 == praefix(z@).0,
        r.1 == praefix(z@).1,
        r.0 <= z@.len(),
{
    let n = z.len();
    if n >= 2 && (z[0] == '\\' || z[0] == '/') && (z[1] == '\\' || z[1] == '/') {
        if n >= 4 && z[0] == '\\' && z[1] == '\\' && z[2] == '?' && z[3] == '\\' {
            if n >= 8 && z[4] == 'U' && z[5] == 'N' && z[6] == 'C' && (z[7] == '\\' || z[7] == '/') {
                let server = bis_trenner_ab(z, 8, true);
                let freigabe = if 8 + server < n { bis_trenner_ab(z, 8 + server + 1, true) } else { 0 };
                let laenge = if freigabe > 0 { 8 + server + 1 + freigabe } else { 8 + server };
                (laenge, true)
            } else {
                (4 + bis_trenner_ab(z, 4, true), true)
            }
        } else if n >= 4 && z[2] == '.' && (z[3] == '\\' || z[3] == '/') {
            (4 + bis_trenner_ab(z, 4, false), false)
        } else {
            let server = bis_trenner_ab(z, 2, false);
            let freigabe = if 2 + server < n { bis_trenner_ab(z, 2 + server + 1, false) } else { 0 };
            if server > 0 && freigabe > 0 {
                (2 + server + 1 + freigabe, false)
            } else {
                (0, false)
            }
        }
    } else if n >= 2 && z[1] == ':' && (('a' <= z[0] && z[0] <= 'z') || ('A' <= z[0] && z[0] <= 'Z')) {
        (2, false)
    } else {
        (0, false)
    }
}

fn ab_stelle(z: &Vec<char>, ab: usize) -> (r: Vec<char>)
    requires
        ab <= z@.len(),
    ensures
        r@ == z@.skip(ab as int),
{
    let mut r: Vec<char> = Vec::new();
    let mut k: usize = ab;
    while k < z.len()
        invariant
            ab <= k <= z@.len(),
            r@ == z@.subrange(ab as int, k as int),
        decreases z@.len() - k,
    {
        r.push(z[k]);
        k = k + 1;
        assert(r@ =~= z@.subrange(ab as int, k as int));
    }
    assert(r@ =~= z@.skip(ab as int));
    r
}

/// Schutz gegen versehentliches Löschen ganzer Laufwerke oder
/// Systemverzeichnisse. Pfade werden nach Windows-Regeln zerlegt.
pub fn path_is_allowed(ziel: &str) -> (r: bool)
    ensures
        r == erlaubt(ziel@),
{
    let z = zeichen_von(ziel);
    let (laenge, woertlich) = praefix_von(&z);
    let rest = ab_stelle(&z, laenge);
    let teile = if woertlich { zerteile(&rest, '\\') } else { zerteile(&vereinheitliche(&rest), '\\') };
    let ebenen = zaehle_ebenen(&teile, 0);
    assert(zeichen::ansichten(teile@).skip(0) =~= zeichen::ansichten(teile@));
    if ebenen < 2 {
        return false;
    }
    let klein = klein_von(&z);
    let mut i: usize = 0;
    while i < 7
        invariant
            i <= 7,
            klein@ == zeichen::klein_folge(ziel@),
            forall|k: int| 0 <= k < i ==> !zeichen::enthaelt(zeichen::klein_folge(ziel@), #[trigger] GESPERRT[k]@),
        decreases 7 - i,
    {
        let teil = zeichen_von(GESPERRT[i]);
        if enthaelt_folge(&klein, &teil) {
            return false;
        }
        i = i + 1;
    }
    true
}

/// Unter einem gesperrten Teil wird nie gelöscht: enthält der
/// kleingeschriebene Pfad irgendeinen Eintrag von [`GESPERRT`], ist er nicht
/// erlaubt – gleich wie tief er liegt.
pub proof fn gesperrte_teile_sind_nie_erlaubt(s: Seq<char>, i: int)
    requires
        0 <= i < 7,
        zeichen::enthaelt(zeichen::klein_folge(s), GESPERRT[i]@),
    ensures
        !erlaubt(s),
{
    assert(zeichen::enthaelt(zeichen::klein_folge(s), GESPERRT[i]@));
}

/// Ein Pfad mit weniger als zwei Ebenen unter dem Präfix – ein Laufwerk oder
/// ein Ordner direkt darunter – ist nie erlaubt.
pub proof fn flache_pfade_sind_nie_erlaubt(s: Seq<char>)
    requires
        ebenen(s) < 2,
    ensures
        !erlaubt(s),
{
}

/// Was mit einem Eintrag geschehen darf, bevor er gelöscht wird.
#[derive(Debug, Clone, Copy, PartialEq, Eq, Structural)]
pub enum Entfernung {
    /// Zu flach oder in einem Systemverzeichnis: nicht anfassen.
    Abgelehnt,
    /// Trockenlauf: nur die Größe messen, nichts löschen.
    NurMessen,
    /// Messen und löschen.
    Loeschen,
}

/// Der Plan für einen Eintrag: abgelehnt, wenn der Pfad nicht gelöscht
/// werden darf; sonst im Trockenlauf nur messen, sonst löschen.
pub fn entfernen_planen(pfad: &str, dry_run: bool) -> (r: Entfernung)
    ensures
        !erlaubt(pfad@) ==> r == Entfernung::Abgelehnt,
        erlaubt(pfad@) ==> r == (if dry_run { Entfernung::NurMessen } else { Entfernung::Loeschen }),
{
    if !path_is_allowed(pfad) {
        Entfernung::Abgelehnt
    } else if dry_run {
        Entfernung::NurMessen
    } else {
        Entfernung::Loeschen
    }
}

/// Die Meldung für einen abgelehnten Pfad.
pub fn abgelehnt_meldung(pfad: &str) -> (r: String)
    ensures
        r@ == ABGELEHNT@ + pfad@,
{
    let mut r = zeichen::text_von(ABGELEHNT);
    zeichen::text_anhaengen(&mut r, pfad);
    r
}

/// Der Anfang der Meldung für einen abgelehnten Pfad.
pub const ABGELEHNT: &'static str = "Aus Sicherheitsgründen abgelehnt: ";

// ---------------------------------------------------------------------------
// Alter
// ---------------------------------------------------------------------------

/// Sekunden eines Tages.
pub const TAG_SEKUNDEN: u64 = 86_400;

/// Alt genug zum Löschen: ohne Mindestalter immer; sonst nur, wenn das Alter
/// (in Sekunden seit der letzten Änderung) bekannt ist und reicht. Ein
/// unbekanntes Alter heißt: im Zweifel nicht anfassen.
pub open spec fn alt_genug(alter: Option<u64>, tage: u32) -> bool {
    tage == 0 || match alter {
        Some(a) => a >= tage * TAG_SEKUNDEN,
        None => false,
    }
}

/// Das Mindestalter in Tagen: ohne Mindestalter zählt jeder Eintrag; sonst
/// genau einer, dessen bekanntes Alter mindestens `tage` mal 86 400
/// Sekunden beträgt, und ein unbekanntes Alter zählt nie. Wer alt genug
/// ist, bleibt es mit wachsendem Alter.
pub proof fn mindestalter_in_tagen(alter: Option<u64>, tage: u32, a: u64, b: u64)
    ensures
        tage == 0 ==> alt_genug(alter, tage),
        tage > 0 ==> !alt_genug(None, tage),
        alt_genug(Some(a), tage) <==> (tage == 0 || a >= tage as int * 86400),
        alt_genug(Some(a), tage) && a <= b ==> alt_genug(Some(b), tage),
{
}

/// `true`, wenn ein Eintrag des angegebenen Alters mindestens `tage` Tage alt ist.
pub fn is_older_than(alter: Option<u64>, tage: u32) -> (r: bool)
    ensures
        r == alt_genug(alter, tage),
{
    if tage == 0 {
        return true;
    }
    match alter {
        Some(a) => a as u128 >= (tage as u128) * (TAG_SEKUNDEN as u128),
        None => false,
    }
}

// ---------------------------------------------------------------------------
// Ausgang eines Löschversuchs
// ---------------------------------------------------------------------------

/// Ausgang eines Löschversuchs. Nicht jeder nicht gelöschte Eintrag ist ein
/// Fehler: auf einem laufenden Windows ist immer irgendeine Datei geöffnet.
#[derive(Debug, Clone, PartialEq, Eq, Structural)]
pub enum Removal {
    /// Entfernt; enthält die freigegebenen Bytes.
    Removed(u64),
    /// War beim Zugriff schon nicht mehr da. Kein Fehler.
    Vanished,
    /// Von einem anderen Prozess geöffnet. Bleibt erhalten, ist kein Fehler.
    InUse,
    /// Zugriff verweigert. Hier helfen erhöhte Rechte oft.
    Denied,
    /// Windows verweigert das Betreten grundsätzlich.
    Blocked,
}

/// Die Art eines Ein-/Ausgabefehlers, soweit sie für die Einordnung zählt.
#[derive(Debug, Clone, Copy, PartialEq, Eq, Structural)]
pub enum Fehlerart {
    /// `ErrorKind::NotFound`.
    NichtGefunden,
    /// `ErrorKind::PermissionDenied`.
    KeineBerechtigung,
    /// Jede andere Art.
    Andere,
}

/// Windows-Fehlercode: Datei von einem anderen Prozess geöffnet.
pub const ERROR_SHARING_VIOLATION: i32 = 32;
/// Windows-Fehlercode: Bereich gesperrt.
pub const ERROR_LOCK_VIOLATION: i32 = 33;
/// Windows-Fehlercode: Zugriff verweigert.
pub const ERROR_ACCESS_DENIED: i32 = 5;
/// Windows-Fehlercode: nicht vertrauenswürdige Bereitstellung.
pub const ERROR_UNTRUSTED_MOUNT_POINT: i32 = 448;
/// Windows-Fehlercode: Datei nicht zugreifbar.
pub const ERROR_CANT_ACCESS_FILE: i32 = 1920;

/// Einordnung eines Löschfehlers; `None` heißt: ein echter Fehler.
pub open spec fn eingeordnet(art: Fehlerart, code: Option<i32>) -> Option<Removal> {
    if art == Fehlerart::NichtGefunden {
        Some(Removal::Vanished)
    } else if art == Fehlerart::KeineBerechtigung {
        Some(Removal::Denied)
    } else {
        match code {
            Some(c) => if c == ERROR_SHARING_VIOLATION || c == ERROR_LOCK_VIOLATION {
                Some(Removal::InUse)
            } else if c == ERROR_ACCESS_DENIED {
                Some(Removal::Denied)
            } else if c == ERROR_UNTRUSTED_MOUNT_POINT || c == ERROR_CANT_ACCESS_FILE {
                Some(Removal::Blocked)
            } else {
                None
            },
            None => None,
        }
    }
}

/// Einen Ein-/Ausgabefehler nach Art und Betriebssystemcode einordnen.
pub fn einordnen(art: Fehlerart, code: Option<i32>) -> (r: Option<Removal>)
    ensures
        r == eingeordnet(art, code),
{
    match art {
        Fehlerart::NichtGefunden => return Some(Removal::Vanished),
        Fehlerart::KeineBerechtigung => return Some(Removal::Denied),
        Fehlerart::Andere => {},
    }
    match code {
        Some(c) => {
            if c == ERROR_SHARING_VIOLATION || c == ERROR_LOCK_VIOLATION {
                Some(Removal::InUse)
            } else if c == ERROR_ACCESS_DENIED {
                Some(Removal::Denied)
            } else if c == ERROR_UNTRUSTED_MOUNT_POINT || c == ERROR_CANT_ACCESS_FILE {
                Some(Removal::Blocked)
            } else {
                None
            }
        },
        None => None,
    }
}

// ---------------------------------------------------------------------------
// Lesbare Größen
// ---------------------------------------------------------------------------

/// Einheiten der Größenangabe, je Stufe Faktor 1024.
pub const EINHEITEN: [&'static str; 5] = ["B", "KB", "MB", "GB", "TB"];

/// `1024` hoch `k`.
pub open spec fn stufe(k: nat) -> nat
    decreases k,
{
    if k == 0 { 1 } else { 1024 * stufe((k - 1) as nat) }
}

/// Die größte Einheit (höchstens TB), in der der Wert mindestens 1 ist.
pub open spec fn einheit(b: nat) -> nat {
    if b >= stufe(4) { 4 } else if b >= stufe(3) { 3 } else if b >= stufe(2) { 2 } else if b >= stufe(1) { 1 } else { 0 }
}

/// `b / d` in Zehnteln, kaufmännisch auf die gerade Ziffer gerundet
/// (genau wie die Ausgabe mit einer Nachkommastelle).
pub open spec fn zehntel(b: nat, d: nat) -> nat
    recommends
        d > 0,
{
    let q = (10 * b) / d;
    let r = (10 * b) % d;
    if 2 * r > d || (2 * r == d && q % 2 == 1) { q + 1 } else { q }
}

/// Lesbare Größe: Bytes ganz, größere Einheiten mit einer Nachkommastelle.
pub open spec fn groesse_text(b: nat) -> Seq<char> {
    let k = einheit(b);
    if k == 0 {
        zeichen::dezimal(b) + " B"@
    } else {
        let z = zehntel(b, stufe(k));
        zeichen::dezimal(z / 10) + "."@ + zeichen::dezimal(z % 10) + " "@ + EINHEITEN[k as int]@
    }
}

/// Bytes menschenlesbar formatieren (`1.5 GB`).
pub fn format_bytes(bytes: u64) -> (r: String)
    ensures
        r@ == groesse_text(bytes as nat),
{
    proof {
        reveal_with_fuel(stufe, 5);
        reveal_strlit(" B");
        reveal_strlit(".");
        reveal_strlit(" ");
        assert(stufe(1) == 1024);
        assert(stufe(2) == 1024 * 1024);
        assert(stufe(3) == 1024 * 1024 * 1024);
        assert(stufe(4) == 1024 * 1024 * 1024 * 1024);
    }
    let mut index: usize = 0;
    let mut teiler: u64 = 1;
    while index < 4 && bytes / 1024 >= teiler
        invariant
            index <= 4,
            teiler as nat == stufe(index as nat),
            index > 0 ==> bytes as nat >= stufe(index as nat),
            stufe(1) == 1024,
            stufe(2) == 1024 * 1024,
            stufe(3) == 1024 * 1024 * 1024,
            stufe(4) == 1024 * 1024 * 1024 * 1024,
        decreases 4 - index,
    {
        teiler = teiler * 1024;
        index = index + 1;
    }
    assert(index as nat == einheit(bytes as nat));
    let mut r: Vec<char> = Vec::new();
    if index == 0 {
        folge_anhaengen(&mut r, &dezimal_von(bytes));
        r.push(' ');
        r.push('B');
        assert(r@ =~= groesse_text(bytes as nat));
    } else {
        let zaehler: u128 = 10 * (bytes as u128);
        let d: u128 = teiler as u128;
        let q: u128 = zaehler / d;
        let rest: u128 = zaehler % d;
        let z: u128 = if 2 * rest > d || (2 * rest == d && q % 2 == 1) { q + 1 } else { q };
        assert(z == zehntel(bytes as nat, stufe(index as nat)));
        assert(z <= 10 * (bytes as nat) + 1) by (nonlinear_arith)
            requires
                q == zaehler / d,
                d >= 1,
                z <= q + 1,
                zaehler == 10 * (bytes as nat),
        ;
        let ganz = (z / 10) as u64;
        let nach = (z % 10) as u64;
        folge_anhaengen(&mut r, &dezimal_von(ganz));
        r.push('.');
        folge_anhaengen(&mut r, &dezimal_von(nach));
        r.push(' ');
        folge_anhaengen(&mut r, &zeichen_von(EINHEITEN[index]));
        assert(r@ =~= groesse_text(bytes as nat));
    }
    text_aus(&r)
}

// ---------------------------------------------------------------------------
// Umgebungsvariablen in Mustern
// ---------------------------------------------------------------------------

/// Die Namen der `%NAME%`-Variablen eines Musters, in ihrer Reihenfolge;
/// `None`, wenn ein `%` nicht geschlossen wird.
pub open spec fn variablen(s: Seq<char>) -> Option<Seq<Seq<char>>>
    decreases s.len(),
{
    match zeichen::zeichenstelle(s, '%') {
        None => Some(seq![]),
        Some(a) => {
            proof {
                zeichen::lemma_stelle_ab(s, seq!['%'], 0);
            }
            let nach = s.subrange(a + 1, s.len() as int);
            match zeichen::zeichenstelle(nach, '%') {
                None => None,
                Some(b) => {
                    proof {
                        zeichen::lemma_stelle_ab(nach, seq!['%'], 0);
                    }
                    match variablen(nach.subrange(b + 1, nach.len() as int)) {
                        None => None,
                        Some(v) => Some(seq![nach.subrange(0, b)] + v),
                    }
                },
            }
        },
    }
}

/// Ein Trenner, der am Ende eines eingesetzten Werts entfällt.
pub open spec fn pfadtrenner(c: char) -> bool {
    c == '\\' || c == '/'
}

/// Das Muster mit den Werten anstelle der Variablen, der Reihe nach; am Ende
/// eines Werts entfallen Trenner, damit keine doppelten entstehen.
pub open spec fn eingesetzt(s: Seq<char>, werte: Seq<Seq<char>>) -> Seq<char>
    decreases s.len(),
{
    match zeichen::zeichenstelle(s, '%') {
        None => s,
        Some(a) => {
            proof {
                zeichen::lemma_stelle_ab(s, seq!['%'], 0);
            }
            let nach = s.subrange(a + 1, s.len() as int);
            match zeichen::zeichenstelle(nach, '%') {
                None => s,
                Some(b) => {
                    proof {
                        zeichen::lemma_stelle_ab(nach, seq!['%'], 0);
                    }
                    s.subrange(0, a) + zeichen::ohne_hinten(werte[0], |c: char| pfadtrenner(c))
                        + eingesetzt(nach.subrange(b + 1, nach.len() as int), werte.drop_first())
                },
            }
        },
    }
}

/// Die Variablennamen eines Musters.
pub fn variablennamen(s: &[char]) -> (r: Option<Vec<Vec<char>>>)
    ensures
        r is None <==> variablen(s@) is None,
        r matches Some(v) ==> variablen(s@) == Some(zeichen::ansichten(v@)),
    decreases s@.len(),
{
    let n = s.len();
    let a = match finde_zeichen(s, '%') {
        None => {
            let leer: Vec<Vec<char>> = Vec::new();
            assert(zeichen::ansichten(leer@) =~= Seq::<Seq<char>>::empty());
            return Some(leer);
        },
        Some(a) => a,
    };
    proof {
        zeichen::lemma_stelle_ab(s@, seq!['%'], 0);
    }
    let nach = teilfolge(s, a + 1, n);
    let b = match finde_zeichen(&nach, '%') {
        None => {
            return None;
        },
        Some(b) => b,
    };
    proof {
        zeichen::lemma_stelle_ab(nach@, seq!['%'], 0);
    }
    let name = teilfolge(&nach, 0, b);
    let rest = teilfolge(&nach, b + 1, nach.len());
    match variablennamen(&rest) {
        None => None,
        Some(weitere) => {
            let mut r: Vec<Vec<char>> = Vec::new();
            r.push(name);
            let mut j: usize = 0;
            let ghost anfang = zeichen::ansichten(r@);
            while j < weitere.len()
                invariant
                    j <= weitere@.len(),
                    zeichen::ansichten(r@) == anfang + zeichen::ansichten(weitere@).subrange(0, j as int),
                decreases weitere@.len() - j,
            {
                let ghost vor = r@;
                r.push(zeichen::kopie(&weitere[j]));
                proof {
                    assert(zeichen::ansichten(r@) =~= zeichen::ansichten(vor).push(weitere@[j as int]@));
                    assert(zeichen::ansichten(weitere@).subrange(0, j + 1) =~= zeichen::ansichten(weitere@).subrange(0, j as int).push(weitere@[j as int]@));
                }
                j = j + 1;
            }
            assert(zeichen::ansichten(weitere@).subrange(0, j as int) =~= zeichen::ansichten(weitere@));
            assert(anfang =~= seq![nach@.subrange(0, b as int)]);
            Some(r)
        },
    }
}

/// Einen Wert ohne abschließende Trenner.
fn ohne_schlusstrenner(v: &[char]) -> (r: Vec<char>)
    ensures
        r@ == zeichen::ohne_hinten(v@, |c: char| pfadtrenner(c)),
{
    let ghost p = |c: char| pfadtrenner(c);
    let n = v.len();
    let mut b: usize = n;
    while b > 0 && (v[b - 1] == '\\' || v[b - 1] == '/')
        invariant
            b <= n,
            n == v@.len(),
            forall|j: int| b <= j < n ==> pfadtrenner(#[trigger] v@[j]),
        decreases b,
    {
        b = b - 1;
    }
    proof {
        assert forall|j: int| b <= j < n implies p(#[trigger] v@[j]) by {
            assert(pfadtrenner(v@[j]));
        }
        zeichen::lemma_ohne_hinten(v@, p, b as int);
    }
    teilfolge(v, 0, b)
}

/// Die Werte ab Stelle `k` in ein Muster einsetzen.
fn einsetzen_ab(s: &[char], werte: &Vec<Vec<char>>, k: usize) -> (r: Vec<char>)
    requires
        k <= werte@.len(),
        variablen(s@) matches Some(n) && n.len() == werte@.len() - k,
    ensures
        r@ == eingesetzt(s@, zeichen::ansichten(werte@).subrange(k as int, werte@.len() as int)),
    decreases s@.len(),
{
    let n = s.len();
    let a = match finde_zeichen(s, '%') {
        None => {
            return teilfolge(s, 0, n);
        },
        Some(a) => a,
    };
    proof {
        zeichen::lemma_stelle_ab(s@, seq!['%'], 0);
    }
    let nach = teilfolge(s, a + 1, n);
    let b = match finde_zeichen(&nach, '%') {
        None => {
            return teilfolge(s, 0, n);
        },
        Some(b) => b,
    };
    proof {
        zeichen::lemma_stelle_ab(nach@, seq!['%'], 0);
    }
    let rest = teilfolge(&nach, b + 1, nach.len());
    proof {
        assert(variablen(rest@) is Some);
        assert(variablen(s@)->0.len() == 1 + variablen(rest@)->0.len());
    }
    let ghost w = zeichen::ansichten(werte@).subrange(k as int, werte@.len() as int);
    assert(w.drop_first() =~= zeichen::ansichten(werte@).subrange(k + 1, werte@.len() as int));
    let mut r = teilfolge(s, 0, a);
    let wert = ohne_schlusstrenner(&werte[k]);
    folge_anhaengen(&mut r, &wert);
    let wl = werte.len();
    assert(k < wl);
    let hinten = einsetzen_ab(&rest, werte, k + 1);
    folge_anhaengen(&mut r, &hinten);
    r
}

/// Die Werte der Reihe nach für die Variablen eines Musters einsetzen.
pub fn einsetzen(s: &[char], werte: &Vec<Vec<char>>) -> (r: Vec<char>)
    requires
        variablen(s@) matches Some(n) && n.len() == werte@.len(),
    ensures
        r@ == eingesetzt(s@, zeichen::ansichten(werte@)),
{
    let r = einsetzen_ab(s, werte, 0);
    assert(zeichen::ansichten(werte@).subrange(0, werte@.len() as int) =~= zeichen::ansichten(werte@));
    r
}

/// `nachschlagen` hat für den Namen `name` den Wert `wert` geliefert.
pub open spec fn geliefert<F: Fn(&str) -> Option<String>>(nachschlagen: F, name: Seq<char>, wert: Seq<char>) -> bool {
    exists|a: &str, w: String| a@ == name && w@ == wert && #[trigger] call_ensures(nachschlagen, (a,), Some(w))
}

/// Die Werte sind die, die `nachschlagen` für die Namen geliefert hat.
pub open spec fn nachgeschlagen<F: Fn(&str) -> Option<String>>(nachschlagen: F, namen: Seq<Seq<char>>, werte: Seq<Seq<char>>) -> bool {
    &&& werte.len() == namen.len()
    &&& forall|i: int| 0 <= i < namen.len() ==> #[trigger] geliefert(nachschlagen, namen[i], werte[i])
}

/// `%NAME%`-Variablen eines Musters auflösen.
///
/// `nachschlagen` liefert den Wert einer Variablen – Umgebung oder bekannte
/// Ordner – oder `None`, wenn es sie nicht gibt. Dann, und bei einem nicht
/// geschlossenen `%`, ist das Ergebnis `None`. Abschließende Trenner eines
/// Werts entfallen, damit keine doppelten entstehen.
pub fn expand_vars_mit<F: Fn(&str) -> Option<String>>(muster: &str, nachschlagen: &F) -> (r: Option<String>)
    requires
        forall|a: &str| call_requires(*nachschlagen, (a,)),
    ensures
        variablen(muster@) is None ==> r is None,
        r matches Some(x) ==> (variablen(muster@) matches Some(namen)
            && exists|werte: Seq<Seq<char>>| nachgeschlagen(*nachschlagen, namen, werte) && x@ == eingesetzt(muster@, werte)),
        variablen(muster@) is Some && r is None ==> exists|i: int, a: &str|
            #![trigger variablen(muster@)->0[i], call_ensures(*nachschlagen, (a,), None::<String>)]
            0 <= i < variablen(muster@)->0.len() && a@ == variablen(muster@)->0[i]
            && call_ensures(*nachschlagen, (a,), None::<String>),
{
    let v = zeichen_von(muster);
    let namen = match variablennamen(&v) {
        None => {
            return None;
        },
        Some(n) => n,
    };
    let ghost nn = zeichen::ansichten(namen@);
    let mut werte: Vec<Vec<char>> = Vec::new();
    let mut i: usize = 0;
    while i < namen.len()
        invariant
            i <= namen@.len(),
            nn == zeichen::ansichten(namen@),
            variablen(muster@) == Some(nn),
            forall|a: &str| call_requires(*nachschlagen, (a,)),
            werte@.len() == i,
            forall|k: int| 0 <= k < i ==> #[trigger] geliefert(*nachschlagen, nn[k], werte@[k]@),
        decreases namen@.len() - i,
    {
        let name = text_aus(&namen[i]);
        let a: &str = name.as_str();
        match nachschlagen(a) {
            None => {
                assert(a@ == nn[i as int]);
                assert(call_ensures(*nachschlagen, (a,), None::<String>));
                assert(variablen(muster@)->0[i as int] == nn[i as int]);
                return None;
            },
            Some(w) => {
                let ghost vor = werte@;
                assert(geliefert(*nachschlagen, nn[i as int], w@));
                werte.push(zeichen_von(w.as_str()));
                assert forall|k: int| 0 <= k < i + 1 implies #[trigger] geliefert(*nachschlagen, nn[k], werte@[k]@) by {
                    if k < i {
                        assert(werte@[k] == vor[k]);
                    }
                }
            },
        }
        i = i + 1;
    }
    let e = einsetzen(&v, &werte);
    assert(nachgeschlagen(*nachschlagen, nn, zeichen::ansichten(werte@)));
    Some(text_aus(&e))
}

// ---------------------------------------------------------------------------
// Pfade zusammensetzen
// ---------------------------------------------------------------------------

/// Ein reines Laufwerk wie `C:` – ohne Wurzel und ohne weiteren Teil.
pub open spec fn nur_laufwerk(p: Seq<char>) -> bool {
    &&& p.len() == 2
    &&& p[1] == ':'
    &&& (('a' <= p[0] && p[0] <= 'z') || ('A' <= p[0] && p[0] <= 'Z'))
}

/// Ein relativer Name unter `basis`, wie Windows ihn anhängt: ein `\` kommt
/// nur dazwischen, wenn `basis` nicht leer ist, nicht schon auf einen Trenner
/// endet und kein reines Laufwerk ist.
pub open spec fn angehaengt(basis: Seq<char>, name: Seq<char>) -> Seq<char> {
    if basis.len() == 0 || pfadtrenner(basis.last()) || nur_laufwerk(basis) {
        basis + name
    } else {
        basis + seq!['\\'] + name
    }
}

/// `name` unter dem Verzeichnis `basis` (Windows-Schreibweise).
pub fn pfad_anhaengen(basis: &str, name: &str) -> (r: String)
    ensures
        r@ == angehaengt(basis@, name@),
{
    let b = zeichen_von(basis);
    let n = b.len();
    let trenner_noetig = if n == 0 {
        false
    } else if b[n - 1] == '\\' || b[n - 1] == '/' {
        false
    } else if n == 2 && b[1] == ':' && (('a' <= b[0] && b[0] <= 'z') || ('A' <= b[0] && b[0] <= 'Z')) {
        false
    } else {
        true
    };
    let mut r = basis.to_owned();
    if trenner_noetig {
        zeichen::text_anhaengen(&mut r, "\\");
    }
    zeichen::text_anhaengen(&mut r, name);
    proof {
        reveal_strlit("\\");
    }
    r
}

// ---------------------------------------------------------------------------
// Shell-Ordner
// ---------------------------------------------------------------------------

/// Von Plane definierte Kürzel für Shell-Ordner: Kürzel, Name in der
/// Shell-Ordnerdefinition, Ordnername im Benutzerprofil.
/// `%USERPROFILE%\Downloads` wäre falsch, sobald OneDrive die Ordner
/// umgeleitet hat – der echte Pfad steht in der Shell-Ordnerdefinition.
pub const SHELL_FOLDERS: [(&'static str, &'static str, &'static str); 3] = [
    ("DOWNLOADS", "{374DE290-123F-4565-9164-39C4925E467B}", "Downloads"),
    ("DESKTOP", "Desktop", "Desktop"),
    ("DOCUMENTS", "Personal", "Documents"),
];

/// Die Zeile des Kürzels in [`SHELL_FOLDERS`], ohne Rücksicht auf Groß- und
/// Kleinschreibung.
pub open spec fn ordnerzeile(kuerzel: Seq<char>) -> Option<int> {
    if i18n::gleich_ohne_gross(SHELL_FOLDERS[0].0@, kuerzel) {
        Some(0)
    } else if i18n::gleich_ohne_gross(SHELL_FOLDERS[1].0@, kuerzel) {
        Some(1)
    } else if i18n::gleich_ohne_gross(SHELL_FOLDERS[2].0@, kuerzel) {
        Some(2)
    } else {
        None
    }
}

/// Der Ordner im Benutzerprofil zu einem Kürzel: das Profil ohne
/// abschließende Trenner, `\` und der Ordnername.
pub open spec fn profilordner(kuerzel: Seq<char>, profil: Option<Seq<char>>) -> Option<Seq<char>> {
    match ordnerzeile(kuerzel) {
        Some(i) => match profil {
            Some(p) => Some(zeichen::ohne_hinten(p, |c: char| pfadtrenner(c)) + seq!['\\'] + SHELL_FOLDERS[i].2@),
            None => None,
        },
        None => None,
    }
}

/// Einen Shell-Ordner über das Benutzerprofil auflösen; `None` für ein
/// unbekanntes Kürzel oder ohne Profil.
pub fn known_folder(kuerzel: &str, profil: Option<&str>) -> (r: Option<String>)
    ensures
        match r {
            Some(x) => profilordner(kuerzel@, match profil { Some(p) => Some(p@), None => None }) == Some(x@),
            None => profilordner(kuerzel@, match profil { Some(p) => Some(p@), None => None }) is None,
        },
{
    let mut zeile: Option<usize> = None;
    if i18n::gleich_ohne_gross_text(SHELL_FOLDERS[0].0, kuerzel) {
        zeile = Some(0);
    } else if i18n::gleich_ohne_gross_text(SHELL_FOLDERS[1].0, kuerzel) {
        zeile = Some(1);
    } else if i18n::gleich_ohne_gross_text(SHELL_FOLDERS[2].0, kuerzel) {
        zeile = Some(2);
    }
    let z = match zeile {
        Some(z) => z,
        None => return None,
    };
    let p = match profil {
        Some(p) => p,
        None => return None,
    };
    let mut v = ohne_schlusstrenner(&zeichen_von(p));
    v.push('\\');
    folge_anhaengen(&mut v, &zeichen_von(SHELL_FOLDERS[z].2));
    Some(text_aus(&v))
}

/// Ein Pfad mit Windows-Trennern: `/` wird zu `\`.
pub fn mit_windows_trennern(pfad: &str) -> (r: String)
    ensures
        r@ == vereinheitlicht(pfad@),
{
    text_aus(&vereinheitliche(&zeichen_von(pfad)))
}

} // verus!
