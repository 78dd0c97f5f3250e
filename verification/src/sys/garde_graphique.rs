//! The two predicates of the graphics guard.
//!
//! A log record whose *target* names a rendering crate, or a panic whose
//! *text* carries a rendering crate's source path, belongs to the rendering
//! stack. Both predicates are pure: a string in, a boolean out.

use vstd::prelude::*;
use vstd::slice::slice_subrange;
use crate::text::{
    chars_of, char_is_ascii_digit, char_is_ascii_alphabetic, char_is_ascii_hexdigit, contains_seq,
    is_ascii_alphabetic, is_ascii_digit, is_ascii_hexdigit, matches_at, occurs_at, seq_contains, seq_eq,
    seq_starts_with, starts_with,
};

verus! {

/// Log targets of the rendering stack.
pub open spec fn caisses() -> Seq<Seq<char>> {
    seq![
        "wgpu"@, "wgpu_core"@, "wgpu_hal"@, "naga"@, "cosmic_text"@,
        "iced_wgpu"@, "iced_graphics"@, "cryoglyph"@, "lyon_tessellation"@, "glow"@,
    ]
}

/// Families of rendering crates, as their names appear in a crate
/// directory (`wgpu-core`, `lyon_tessellation`, ...).
pub open spec fn familles() -> Seq<Seq<char>> {
    seq![
        "wgpu"@, "naga"@, "cosmic-text"@, "cryoglyph"@, "etagere"@,
        "glow"@, "guillotiere"@, "lyon"@, "swash"@, "tiny-skia"@,
    ]
}

/// Messages that identify a renderer failure on their own.
pub open spec fn messages() -> Seq<Seq<char>> {
    seq!["wgpu error"@, "Shader compilation failed"@]
}

/// Rendering subdirectories of the `iced` git checkout.
pub open spec fn iced_rendu() -> Seq<Seq<char>> {
    seq!["wgpu"@, "graphics"@, "renderer"@, "tiny_skia"@]
}

/// A log target that is the crate `c` itself or one of its modules.
pub open spec fn cible_de_caisse(cible: Seq<char>, c: Seq<char>) -> bool {
    cible == c || starts_with(cible, c + seq![':', ':'])
}

/// True for log records coming from the rendering stack, judged on the
/// record's target and anchored at the module boundary `::`.
pub open spec fn spec_est_de_la_pile_graphique(cible: Seq<char>) -> bool {
    exists|k: int| 0 <= k < caisses().len() && cible_de_caisse(cible, #[trigger] caisses()[k])
}

pub open spec fn is_separator(c: char) -> bool {
    c == '/' || c == '\\'
}

/// `str::split(['/', '\\'])`, collected.
pub open spec fn segments(t: Seq<char>) -> Seq<Seq<char>>
    decreases t.len(),
{
    if t.len() == 0 {
        seq![Seq::empty()]
    } else {
        let prev = segments(t.drop_last());
        if is_separator(t.last()) {
            prev.push(Seq::empty())
        } else {
            prev.update(prev.len() - 1, prev.last().push(t.last()))
        }
    }
}

/// Every segment but the last: the directories of a path.
pub open spec fn repertoires(t: Seq<char>) -> Seq<Seq<char>> {
    segments(t).drop_last()
}

/// Index of the last occurrence of `c` in `s`.
pub open spec fn rfind(s: Seq<char>, c: char) -> Option<int>
    decreases s.len(),
{
    if s.len() == 0 {
        None
    } else if s.last() == c {
        Some(s.len() - 1)
    } else {
        rfind(s.drop_last(), c)
    }
}

/// `nom` belongs to family `f`: it is `f`, or starts with `f-` or `f_`.
pub open spec fn de_la_famille(nom: Seq<char>, f: Seq<char>) -> bool {
    nom == f || starts_with(nom, f.push('-')) || starts_with(nom, f.push('_'))
}

/// A crate directory of a rendering family: `<name>-<version>`, split at the
/// last `-`, where the version starts with an ASCII digit and contains a
/// dot, and the name belongs to one of the families.
pub open spec fn spec_est_repertoire_de_caisse(segment: Seq<char>) -> bool {
    match rfind(segment, '-') {
        None => false,
        Some(k) => {
            let nom = segment.take(k);
            let version = segment.skip(k + 1);
            &&& version.len() > 0
            &&& is_ascii_digit(version[0])
            &&& version.contains('.')
            &&& exists|f: int| 0 <= f < familles().len() && de_la_famille(nom, #[trigger] familles()[f])
        },
    }
}

/// A git checkout of `caisse`: `<caisse>-<hash>`, where the hash has at
/// least seven characters, all ASCII hex digits, at least one a letter.
/// (The length rule is one of bytes; a hash of ASCII hex digits has as many
/// bytes as characters, and any other hash fails the digit test.)
pub open spec fn spec_est_checkout_git(segment: Seq<char>, caisse: Seq<char>) -> bool {
    let h = segment.skip(caisse.len() as int + 1);
    &&& starts_with(segment, caisse.push('-'))
    &&& h.len() >= 7
    &&& forall|i: int| 0 <= i < h.len() ==> is_ascii_hexdigit(#[trigger] h[i])
    &&& exists|i: int| 0 <= i < h.len() && is_ascii_alphabetic(#[trigger] h[i])
}

/// The `iced` branch: the FIRST directory that is an `iced` checkout is
/// followed, two segments later, by a rendering subdirectory.
pub open spec fn branche_iced(reps: Seq<Seq<char>>) -> bool {
    exists|i: int|
        0 <= i < reps.len() && #[trigger] spec_est_checkout_git(reps[i], "iced"@) && (forall|j: int|
            0 <= j < i ==> !spec_est_checkout_git(#[trigger] reps[j], "iced"@)) && i + 2 < reps.len()
            && iced_rendu().contains(reps[i + 2])
}

/// Recognises a panic raised by the rendering stack, from its text.
pub open spec fn spec_panique_de_rendu(texte: Seq<char>) -> bool {
    let reps = repertoires(texte);
    ||| exists|m: int| 0 <= m < messages().len() && contains_seq(texte, #[trigger] messages()[m])
    ||| exists|i: int| 0 <= i < reps.len() && spec_est_repertoire_de_caisse(#[trigger] reps[i])
    ||| exists|i: int, f: int|
        0 <= i < reps.len() && 0 <= f < familles().len() && #[trigger] spec_est_checkout_git(
            reps[i],
            familles()[f],
        )
    ||| branche_iced(reps)
}

fn lit(s: &str) -> (r: Vec<char>)
    ensures
        r@ == s@,
{
    chars_of(s)
}

fn caisses_exec() -> (r: Vec<&'static str>)
    ensures
        r@.len() == caisses().len(),
        forall|k: int| 0 <= k < r@.len() ==> (#[trigger] r@[k])@ == caisses()[k],
{
    let r = vec![
        "wgpu", "wgpu_core", "wgpu_hal", "naga", "cosmic_text",
        "iced_wgpu", "iced_graphics", "cryoglyph", "lyon_tessellation", "glow",
    ];
    r
}

fn familles_exec() -> (r: Vec<&'static str>)
    ensures
        r@.len() == familles().len(),
        forall|k: int| 0 <= k < r@.len() ==> (#[trigger] r@[k])@ == familles()[k],
{
    let r = vec![
        "wgpu", "naga", "cosmic-text", "cryoglyph", "etagere",
        "glow", "guillotiere", "lyon", "swash", "tiny-skia",
    ];
    r
}

fn iced_rendu_exec() -> (r: Vec<&'static str>)
    ensures
        r@.len() == iced_rendu().len(),
        forall|k: int| 0 <= k < r@.len() ==> (#[trigger] r@[k])@ == iced_rendu()[k],
{
    let r = vec!["wgpu", "graphics", "renderer", "tiny_skia"];
    r
}

/// True for log records coming from the rendering stack.
pub fn est_de_la_pile_graphique(cible: &str) -> (r: bool)
    ensures
        r == spec_est_de_la_pile_graphique(cible@),
{
    let t = chars_of(cible);
    let cs = caisses_exec();
    for k in 0..cs.len()
        invariant
            t@ == cible@,
            cs@.len() == caisses().len(),
            forall|j: int| 0 <= j < cs@.len() ==> (#[trigger] cs@[j])@ == caisses()[j],
            forall|j: int| 0 <= j < k ==> !cible_de_caisse(cible@, #[trigger] caisses()[j]),
    {
        let mut c = lit(cs[k]);
        if seq_eq(&t, &c) {
            assert(cible_de_caisse(cible@, caisses()[k as int]));
            return true;
        }
        let ghost c0 = c@;
        c.push(':');
        c.push(':');
        assert(c@ == c0 + seq![':', ':']);
        if seq_starts_with(&t, &c) {
            assert(cible_de_caisse(cible@, caisses()[k as int]));
            return true;
        }
    }
    false
}

fn est_separateur(c: char) -> (r: bool)
    ensures
        r == is_separator(c),
{
    c == '/' || c == '\\'
}

/// The segments of `t` split at `/` and `\`, all but the last.
fn decouper_repertoires(t: &[char]) -> (r: Vec<Vec<char>>)
    ensures
        r@.len() == repertoires(t@).len(),
        forall|k: int| 0 <= k < r@.len() ==> (#[trigger] r@[k])@ == repertoires(t@)[k],
{
    let mut done: Vec<Vec<char>> = Vec::new();
    let mut current: Vec<char> = Vec::new();
    for i in 0..t.len()
        invariant
            segments(t@.take(i as int)).len() == done@.len() + 1,
            forall|k: int| 0 <= k < done@.len() ==> (#[trigger] done@[k])@ == segments(t@.take(i as int))[k],
            segments(t@.take(i as int))[done@.len() as int] == current@,
    {
        let c = t[i];
        let ghost pre = t@.take(i as int);
        let ghost next = t@.take(i + 1);
        assert(next.drop_last() == pre);
        assert(next.last() == c);
        if est_separateur(c) {
            let finished = current;
            done.push(finished);
            current = Vec::new();
        } else {
            current.push(c);
        }
    }
    assert(t@.take(t.len() as int) == t@);
    done
}

/// `<name>-<version>` with a rendering family name, a version starting with
/// an ASCII digit and containing a dot.
fn est_repertoire_de_caisse(segment: &[char]) -> (r: bool)
    ensures
        r == spec_est_repertoire_de_caisse(segment@),
{
    // Last `-`.
    let mut k: usize = segment.len();
    let mut trouve = false;
    assert(segment@.take(k as int) == segment@);
    while k > 0 && !trouve
        invariant
            k <= segment.len(),
            trouve ==> k > 0 && rfind(segment@, '-') == Some(k - 1),
            !trouve ==> rfind(segment@, '-') == rfind(segment@.take(k as int), '-'),
        decreases k + if trouve { 0int } else { 1int },
    {
        let ghost pre = segment@.take(k as int);
        assert(pre.drop_last() == segment@.take(k - 1));
        if segment[k - 1] == '-' {
            trouve = true;
        } else {
            k -= 1;
        }
    }
    if !trouve {
        assert(segment@.take(0) == Seq::<char>::empty());
        return false;
    }
    let k = k - 1;
    assert(rfind(segment@, '-') == Some(k as int));
    let nom = slice_subrange(segment, 0, k);
    let version = slice_subrange(segment, k + 1, segment.len());
    assert(nom@ == segment@.take(k as int));
    assert(version@ == segment@.skip(k + 1));
    if version.len() == 0 || !char_is_ascii_digit(version[0]) {
        return false;
    }
    let mut point = false;
    for j in 0..version.len()
        invariant
            !point ==> forall|i: int| 0 <= i < j ==> version@[i] != '.',
            point ==> version@.contains('.'),
    {
        if version[j] == '.' {
            point = true;
            assert(version@[j as int] == '.');
        }
    }
    if !point {
        return false;
    }
    let fs = familles_exec();
    for f in 0..fs.len()
        invariant
            rfind(segment@, '-') == Some(k as int),
            nom@ == segment@.take(k as int),
            version@ == segment@.skip(k + 1),
            version@.len() > 0,
            is_ascii_digit(version@[0]),
            version@.contains('.'),
            fs@.len() == familles().len(),
            forall|j: int| 0 <= j < fs@.len() ==> (#[trigger] fs@[j])@ == familles()[j],
            forall|j: int| 0 <= j < f ==> !de_la_famille(nom@, #[trigger] familles()[j]),
    {
        let fam = lit(fs[f]);
        if seq_eq(nom, &fam) {
            assert(de_la_famille(nom@, familles()[f as int]));
            return true;
        }
        let mut tiret = lit(fs[f]);
        tiret.push('-');
        if seq_starts_with(nom, &tiret) {
            assert(de_la_famille(nom@, familles()[f as int]));
            return true;
        }
        let mut souligne = lit(fs[f]);
        souligne.push('_');
        if seq_starts_with(nom, &souligne) {
            assert(de_la_famille(nom@, familles()[f as int]));
            return true;
        }
    }
    false
}

/// `<caisse>-<hash>`, the hash at least seven ASCII hex digits, one a letter.
fn est_checkout_git(segment: &[char], caisse: &[char]) -> (r: bool)
    ensures
        r == spec_est_checkout_git(segment@, caisse@),
{
    let n = caisse.len();
    if n >= segment.len() || !matches_at(segment, caisse, 0) || segment[n] != '-' {
        proof {
            if starts_with(segment@, caisse@.push('-')) {
                let p = caisse@.push('-');
                assert(segment@.subrange(0, n + 1) == p);
                assert(n < segment@.len());
                assert(segment@.subrange(0, n as int) =~= segment@.subrange(0, n + 1).subrange(0, n as int));
                assert(p.subrange(0, n as int) =~= caisse@);
                assert(occurs_at(segment@, caisse@, 0));
                assert(segment@[n as int] == segment@.subrange(0, n + 1)[n as int]);
                assert(false);
            }
        }
        return false;
    }
    assert(segment@.subrange(0, n + 1) =~= caisse@.push('-')) by {
        assert(segment@.subrange(0, n as int) == caisse@);
        assert forall|j: int| 0 <= j < n + 1 implies segment@.subrange(0, n + 1)[j] == caisse@.push('-')[j] by {
            if j < n {
                assert(segment@.subrange(0, n as int)[j] == segment@[j]);
            }
        }
    }
    let h = slice_subrange(segment, n + 1, segment.len());
    assert(h@ == segment@.skip(caisse@.len() as int + 1));
    if h.len() < 7 {
        return false;
    }
    let mut lettre = false;
    for i in 0..h.len()
        invariant
            h@ == segment@.skip(caisse@.len() as int + 1),
            forall|j: int| 0 <= j < i ==> is_ascii_hexdigit(#[trigger] h@[j]),
            lettre <==> exists|j: int| 0 <= j < i && is_ascii_alphabetic(#[trigger] h@[j]),
    {
        if !char_is_ascii_hexdigit(h[i]) {
            assert(!is_ascii_hexdigit(h@[i as int]));
            return false;
        }
        if char_is_ascii_alphabetic(h[i]) {
            lettre = true;
        }
    }
    lettre
}

/// Recognises a panic raised by the rendering stack, from its text alone.
///
/// A fixed message identifies one; otherwise the text is cut into path
/// segments and each directory (every segment but the last) is judged
/// whole: a versioned crate directory or a git checkout of a rendering
/// family, or the first `iced` checkout followed two segments later by a
/// rendering subdirectory.
pub fn panique_de_rendu(texte: &str) -> (r: bool)
    ensures
        r == spec_panique_de_rendu(texte@),
{
    let t = chars_of(texte);
    let m0 = lit("wgpu error");
    let m1 = lit("Shader compilation failed");
    if seq_contains(&t, &m0) || seq_contains(&t, &m1) {
        assert(contains_seq(texte@, messages()[0]) || contains_seq(texte@, messages()[1]));
        return true;
    }
    assert forall|m: int| 0 <= m < messages().len() implies !contains_seq(
        texte@,
        #[trigger] messages()[m],
    ) by {
        if m == 0 {
        } else {
        }
    }
    let reps = decouper_repertoires(&t);
    let ghost r_spec = repertoires(texte@);
    for i in 0..reps.len()
        invariant
            forall|m: int| 0 <= m < messages().len() ==> !contains_seq(texte@, #[trigger] messages()[m]),
            t@ == texte@,
            r_spec == repertoires(texte@),
            reps@.len() == r_spec.len(),
            forall|k: int| 0 <= k < reps@.len() ==> (#[trigger] reps@[k])@ == r_spec[k],
            forall|k: int| 0 <= k < i ==> !spec_est_repertoire_de_caisse(#[trigger] r_spec[k]),
    {
        if est_repertoire_de_caisse(&reps[i]) {
            assert(spec_est_repertoire_de_caisse(r_spec[i as int]));
            return true;
        }
    }
    let fs = familles_exec();
    for i in 0..reps.len()
        invariant
            forall|m: int| 0 <= m < messages().len() ==> !contains_seq(texte@, #[trigger] messages()[m]),
            forall|k: int| 0 <= k < r_spec.len() ==> !spec_est_repertoire_de_caisse(#[trigger] r_spec[k]),
            t@ == texte@,
            r_spec == repertoires(texte@),
            reps@.len() == r_spec.len(),
            forall|k: int| 0 <= k < reps@.len() ==> (#[trigger] reps@[k])@ == r_spec[k],
            fs@.len() == familles().len(),
            forall|j: int| 0 <= j < fs@.len() ==> (#[trigger] fs@[j])@ == familles()[j],
            forall|k: int, f: int|
                0 <= k < i && 0 <= f < familles().len() ==> !#[trigger] spec_est_checkout_git(
                    r_spec[k],
                    familles()[f],
                ),
    {
        for f in 0..fs.len()
            invariant
                r_spec == repertoires(texte@),
                reps@.len() == r_spec.len(),
                i < reps@.len(),
                forall|k: int| 0 <= k < reps@.len() ==> (#[trigger] reps@[k])@ == r_spec[k],
                fs@.len() == familles().len(),
                forall|j: int| 0 <= j < fs@.len() ==> (#[trigger] fs@[j])@ == familles()[j],
                forall|k: int, g: int|
                    0 <= k < i && 0 <= g < familles().len() ==> !#[trigger] spec_est_checkout_git(
                        r_spec[k],
                        familles()[g],
                    ),
                forall|g: int| 0 <= g < f ==> !#[trigger] spec_est_checkout_git(r_spec[i as int], familles()[g]),
        {
            let fam = lit(fs[f]);
            if est_checkout_git(&reps[i], &fam) {
                assert(spec_est_checkout_git(r_spec[i as int], familles()[f as int]));
                return true;
            }
        }
    }
    let iced = lit("iced");
    let rendu = iced_rendu_exec();
    for i in 0..reps.len()
        invariant
            forall|m: int| 0 <= m < messages().len() ==> !contains_seq(texte@, #[trigger] messages()[m]),
            forall|k: int| 0 <= k < r_spec.len() ==> !spec_est_repertoire_de_caisse(#[trigger] r_spec[k]),
            forall|k: int, f: int|
                0 <= k < r_spec.len() && 0 <= f < familles().len() ==> !#[trigger] spec_est_checkout_git(
                    r_spec[k],
                    familles()[f],
                ),
            r_spec == repertoires(texte@),
            reps@.len() == r_spec.len(),
            forall|k: int| 0 <= k < reps@.len() ==> (#[trigger] reps@[k])@ == r_spec[k],
            iced@ == "iced"@,
            rendu@.len() == iced_rendu().len(),
            forall|j: int| 0 <= j < rendu@.len() ==> (#[trigger] rendu@[j])@ == iced_rendu()[j],
            forall|k: int| 0 <= k < i ==> !spec_est_checkout_git(#[trigger] r_spec[k], "iced"@),
    {
        if est_checkout_git(&reps[i], &iced) {
            if reps.len() - i <= 2 {
                assert(!branche_iced(r_spec)) by {
                    assert forall|x: int|
                        0 <= x < r_spec.len() && #[trigger] spec_est_checkout_git(r_spec[x], "iced"@)
                            && (forall|j: int| 0 <= j < x ==> !spec_est_checkout_git(#[trigger] r_spec[j], "iced"@))
                        implies !(x + 2 < r_spec.len()) by {
                        if x > i {
                            assert(!spec_est_checkout_git(r_spec[i as int], "iced"@));
                        }
                    }
                }
                return false;
            }
            let cible = &reps[i + 2];
            let mut dedans = false;
            for j in 0..rendu.len()
                invariant
                    rendu@.len() == iced_rendu().len(),
                    forall|q: int| 0 <= q < rendu@.len() ==> (#[trigger] rendu@[q])@ == iced_rendu()[q],
                    dedans ==> iced_rendu().contains(cible@),
                    !dedans ==> forall|q: int| 0 <= q < j ==> iced_rendu()[q] != cible@,
            {
                let s = lit(rendu[j]);
                if seq_eq(cible, &s) {
                    dedans = true;
                    assert(iced_rendu()[j as int] == cible@);
                }
            }
            proof {
                if dedans {
                    assert(branche_iced(r_spec));
                } else {
                    assert(!iced_rendu().contains(cible@));
                    assert forall|x: int|
                        0 <= x < r_spec.len() && #[trigger] spec_est_checkout_git(r_spec[x], "iced"@)
                            && (forall|j: int| 0 <= j < x ==> !spec_est_checkout_git(#[trigger] r_spec[j], "iced"@))
                            && x + 2 < r_spec.len()
                        implies !iced_rendu().contains(r_spec[x + 2]) by {
                        if x > i {
                            assert(!spec_est_checkout_git(r_spec[i as int], "iced"@));
                        }
                    }
                }
            }
            return dedans;
        }
    }
    false
}

proof fn lemma_one_segment_without_separator(t: Seq<char>)
    requires
        forall|i: int| 0 <= i < t.len() ==> !is_separator(#[trigger] t[i]),
    ensures
        segments(t).len() == 1,
    decreases t.len(),
{
    if t.len() > 0 {
        assert forall|i: int| 0 <= i < t.drop_last().len() implies !is_separator(#[trigger] t.drop_last()[i]) by {
            assert(t.drop_last()[i] == t[i]);
        }
        lemma_one_segment_without_separator(t.drop_last());
        assert(!is_separator(t[t.len() - 1]));
    }
}

/// A text without any path separator is judged on the two messages alone:
/// a lone file name, however it looks, is never a rendering crate.
pub proof fn law_no_path_no_crate(texte: Seq<char>)
    requires
        forall|i: int| 0 <= i < texte.len() ==> !is_separator(#[trigger] texte[i]),
    ensures
        spec_panique_de_rendu(texte) <==> exists|m: int| 0 <= m < messages().len() && contains_seq(
            texte,
            #[trigger] messages()[m],
        ),
{
    lemma_one_segment_without_separator(texte);
    assert(repertoires(texte).len() == 0);
}

/// `s` holds no path separator.
pub open spec fn no_separator(s: Seq<char>) -> bool {
    forall|i: int| 0 <= i < s.len() ==> !is_separator(#[trigger] s[i])
}

proof fn lemma_segments_nonempty(t: Seq<char>)
    ensures
        segments(t).len() >= 1,
    decreases t.len(),
{
    if t.len() > 0 {
        lemma_segments_nonempty(t.drop_last());
    }
}

proof fn lemma_segments_extend(x: Seq<char>, y: Seq<char>)
    requires
        no_separator(y),
    ensures
        segments(x + y).len() == segments(x).len(),
        segments(x + y).last() == segments(x).last() + y,
        forall|k: int| 0 <= k < segments(x).len() - 1 ==> #[trigger] segments(x + y)[k] == segments(x)[k],
    decreases y.len(),
{
    if y.len() == 0 {
        assert(x + y =~= x);
        assert(segments(x).last() + y =~= segments(x).last());
    } else {
        let y0 = y.drop_last();
        assert(no_separator(y0)) by {
            assert forall|i: int| 0 <= i < y0.len() implies !is_separator(#[trigger] y0[i]) by {
                assert(y0[i] == y[i]);
            }
        }
        lemma_segments_extend(x, y0);
        lemma_segments_nonempty(x);
        assert((x + y).drop_last() =~= x + y0);
        assert((x + y).last() == y.last());
        assert(!is_separator(y[y.len() - 1]));
        assert(segments(x).last() + y =~= (segments(x).last() + y0).push(y.last()));
    }
}

proof fn lemma_segments_keep_prefix(x: Seq<char>, y: Seq<char>)
    ensures
        segments(x + y).len() >= segments(x).len(),
        forall|k: int| 0 <= k < segments(x).len() - 1 ==> #[trigger] segments(x + y)[k] == segments(x)[k],
    decreases y.len(),
{
    if y.len() == 0 {
        assert(x + y =~= x);
    } else {
        let y0 = y.drop_last();
        lemma_segments_keep_prefix(x, y0);
        lemma_segments_nonempty(x + y0);
        assert((x + y).drop_last() =~= x + y0);
    }
}

proof fn lemma_rfind_last_dash(n: Seq<char>, v: Seq<char>)
    requires
        !v.contains('-'),
    ensures
        rfind(n + seq!['-'] + v, '-') == Some(n.len() as int),
    decreases v.len(),
{
    if v.len() == 0 {
        assert(n + seq!['-'] + v =~= n.push('-'));
        assert(n.push('-').drop_last() =~= n);
    } else {
        let v0 = v.drop_last();
        assert(!v0.contains('-')) by {
            if v0.contains('-') {
                let i = choose|i: int| 0 <= i < v0.len() && v0[i] == '-';
                assert(v[i] == '-');
            }
        }
        lemma_rfind_last_dash(n, v0);
        assert((n + seq!['-'] + v).drop_last() =~= n + seq!['-'] + v0);
        assert((n + seq!['-'] + v).last() == v[v.len() - 1]);
        assert(v[v.len() - 1] != '-');
    }
}

/// Every crate directory of a rendering family, `<name>-<version>` with a
/// version that starts with an ASCII digit and holds a dot, marks a
/// rendering panic, wherever in the text its path stands.
pub proof fn law_family_crate_directory_is_render(
    a: Seq<char>,
    n: Seq<char>,
    v: Seq<char>,
    b: Seq<char>,
    f: int,
)
    requires
        0 <= f < familles().len(),
        de_la_famille(n, familles()[f]),
        no_separator(n),
        no_separator(v),
        v.len() > 0,
        is_ascii_digit(v[0]),
        v.contains('.'),
        !v.contains('-'),
    ensures
        spec_panique_de_rendu(a + seq!['/'] + n + seq!['-'] + v + seq!['/'] + b),
{
    let d = n + seq!['-'] + v;
    assert(no_separator(d)) by {
        assert forall|i: int| 0 <= i < d.len() implies !is_separator(#[trigger] d[i]) by {
            if i < n.len() {
                assert(d[i] == n[i]);
            } else if i > n.len() {
                assert(d[i] == v[i - n.len() - 1]);
            }
        }
    }
    let x = a.push('/');
    let m = segments(a).len() + 1;
    assert(x.drop_last() == a);
    assert(segments(x) == segments(a).push(Seq::<char>::empty()));
    lemma_segments_extend(x, d);
    let xd = x + d;
    assert(segments(xd).len() == m);
    assert(segments(xd).last() =~= d);
    let xds = xd.push('/');
    assert(xds.drop_last() == xd);
    assert(segments(xds) == segments(xd).push(Seq::<char>::empty()));
    assert(segments(xds)[m - 1] == d);
    lemma_segments_keep_prefix(xds, b);
    let texte = xds + b;
    assert(texte =~= a + seq!['/'] + n + seq!['-'] + v + seq!['/'] + b);
    let reps = repertoires(texte);
    assert(reps[m - 1] == d);
    assert(0 <= m - 1 < reps.len());
    lemma_rfind_last_dash(n, v);
    assert(d.take(n.len() as int) =~= n);
    assert(d.skip(n.len() as int + 1) =~= v);
    assert(spec_est_repertoire_de_caisse(d));
    assert(spec_est_repertoire_de_caisse(reps[m - 1]));
}


/// A folder is a git checkout of a crate only when, after `<crate>-`, it
/// holds seven or more ASCII hex digits (`0-9`, `a-f`, `A-F`) and nothing
/// else, one of them a letter: a client folder such as `etagere-cuisine`
/// is no checkout.
pub proof fn law_git_checkout_hash_is_hex(segment: Seq<char>, caisse: Seq<char>)
    requires
        spec_est_checkout_git(segment, caisse),
    ensures
        segment.len() >= caisse.len() + 8,
        segment.take(caisse.len() as int) == caisse,
        segment[caisse.len() as int] == '-',
        forall|i: int|
            caisse.len() + 1 <= i < segment.len() ==> ('0' <= #[trigger] segment[i] <= '9' || 'a' <= segment[i]
                <= 'f' || 'A' <= segment[i] <= 'F'),
        exists|i: int|
            caisse.len() + 1 <= i < segment.len() && ('a' <= #[trigger] segment[i] <= 'f' || 'A' <= segment[i]
                <= 'F'),
{
    let h = segment.skip(caisse.len() as int + 1);
    let p = caisse.push('-');
    assert(segment.subrange(0, p.len() as int) == p);
    assert(segment.take(caisse.len() as int) =~= p.subrange(0, caisse.len() as int));
    assert(p.subrange(0, caisse.len() as int) =~= caisse);
    assert(segment[caisse.len() as int] == segment.subrange(0, p.len() as int)[caisse.len() as int]);
    assert forall|i: int| caisse.len() + 1 <= i < segment.len() implies ('0' <= #[trigger] segment[i] <= '9'
        || 'a' <= segment[i] <= 'f' || 'A' <= segment[i] <= 'F') by {
        assert(segment[i] == h[i - caisse.len() - 1]);
        assert(is_ascii_hexdigit(h[i - caisse.len() - 1]));
    }
    let k = choose|k: int| 0 <= k < h.len() && is_ascii_alphabetic(#[trigger] h[k]);
    assert(is_ascii_hexdigit(h[k]));
    assert(segment[k + caisse.len() + 1] == h[k]);
}

} // verus!
