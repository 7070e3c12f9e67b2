//! Image paths of a product as the front-end server wants them: moved under
//! its image folder, and grouped by variant and resolution.
use vstd::prelude::*;
use crate::assoc_map::AssocMap;
use crate::text::{
    lemma_split_concat, lemma_split_keeps, lemma_split_nonempty, lemma_split_without_sep, chars_of, concat_text, contains_text, find_text, first_occurrence, occurs_at, split_at, split_at_seps,
    string_from_range, strings_view,
};

verus! {

/// Where on the front-end server a file goes.
#[derive(Clone, Copy, Debug, PartialEq, Eq, Structural)]
pub enum LokalizacjaNaFrontendzie {
    Images,
    Data,
}

impl LokalizacjaNaFrontendzie {
    /// The folder, relative to the server's root, for this kind of file.
    pub open spec fn localisation(&self) -> Seq<char> {
        match self {
            LokalizacjaNaFrontendzie::Images => seq![
                'd', 'a', 't', 'a', '/', 'i', 'm', 'g', '_', 'f', 'r', 'o', 'n', 't', '/',
            ],
            LokalizacjaNaFrontendzie::Data => seq!['d', 'a', 't', 'a', '/'],
        }
    }

    pub fn get_localisation(&self) -> (r: String)
        ensures
            r@ == self.localisation(),
    {
        match self {
            LokalizacjaNaFrontendzie::Images => {
                proof {
                    reveal_strlit("data/img_front/");
                }
                "data/img_front/".to_owned()
            },
            LokalizacjaNaFrontendzie::Data => {
                proof {
                    reveal_strlit("data/");
                }
                "data/".to_owned()
            },
        }
    }
}

/// The paths of one image in each of the eight resolutions it is stored in.
#[derive(Debug)]
pub struct ZdjeciaNaSerwerNorm {
    r16: String,
    r32: String,
    r64: String,
    r128: String,
    r256: String,
    r512: String,
    r1024: String,
    r2048: String,
}

impl View for ZdjeciaNaSerwerNorm {
    /// The paths from the smallest resolution (16) to the largest (2048).
    type V = Seq<Seq<char>>;

    closed spec fn view(&self) -> Seq<Seq<char>> {
        seq![
            self.r16@, self.r32@, self.r64@, self.r128@, self.r256@, self.r512@, self.r1024@,
            self.r2048@,
        ]
    }
}

impl Default for ZdjeciaNaSerwerNorm {
    fn default() -> (r: Self)
        ensures
            r@ == Seq::new(8, |i: int| Seq::<char>::empty()),
    {
        let r = ZdjeciaNaSerwerNorm {
            r16: String::new(),
            r32: String::new(),
            r64: String::new(),
            r128: String::new(),
            r256: String::new(),
            r512: String::new(),
            r1024: String::new(),
            r2048: String::new(),
        };
        assert(r@ =~= Seq::new(8, |i: int| Seq::<char>::empty()));
        r
    }
}

/// "images/": the folder after which a stored path names the image.
#[verifier::opaque]
pub open spec fn images_marker() -> Seq<char> {
    seq!['i', 'm', 'a', 'g', 'e', 's', '/']
}

/// "../data/img_front/": where the front-end server keeps images.
#[verifier::opaque]
pub open spec fn front_image_base() -> Seq<char> {
    seq!['.', '.', '/', 'd', 'a', 't', 'a', '/', 'i', 'm', 'g', '_', 'f', 'r', 'o', 'n', 't', '/']
}

/// A stored path as the front-end server sees it: what follows the first
/// "images/" is put under "../data/img_front/"; a path without "images/" is
/// kept as it is.
#[verifier::opaque]
pub open spec fn server_path(p: Seq<char>) -> Seq<char> {
    if contains_text(p, images_marker()) {
        front_image_base() + p.skip(first_occurrence(p, images_marker()) + images_marker().len())
    } else {
        p
    }
}

/// `rest` put under "../data/img_front/".
fn under_front_base(rest: &String) -> (r: String)
    ensures
        r@ == front_image_base() + rest@,
{
    proof {
        reveal_strlit("../data/img_front/");
    }
    let r = concat_text("../data/img_front/", rest.as_str());
    assert("../data/img_front/"@ =~= front_image_base()) by {
        reveal(front_image_base);
    }
    r
}

/// The characters of "images/".
fn marker_chars() -> (r: Vec<char>)
    ensures
        r@ == images_marker(),
{
    proof {
        reveal_strlit("images/");
    }
    let marker = chars_of("images/");
    assert(marker@ =~= images_marker()) by {
        reveal(images_marker);
    }
    marker
}

proof fn lemma_server_path_found(p: Seq<char>, pos: int)
    requires
        occurs_at(p, images_marker(), pos),
        pos == first_occurrence(p, images_marker()),
    ensures
        pos + 7 <= p.len(),
        server_path(p) == front_image_base() + p.skip(pos + 7),
{
    assert(images_marker().len() == 7) by {
        reveal(images_marker);
    }
    assert(contains_text(p, images_marker())) by {
        reveal(contains_text);
    }
    reveal(server_path);
}

proof fn lemma_server_path_absent(p: Seq<char>)
    requires
        !contains_text(p, images_marker()),
    ensures
        server_path(p) == p,
{
    reveal(server_path);
}

/// What follows position `start` of `chars`, put under "../data/img_front/".
fn front_path_from(chars: &Vec<char>, start: usize) -> (r: String)
    requires
        start <= chars@.len(),
    ensures
        r@ == front_image_base() + chars@.skip(start as int),
{
    let rest = string_from_range(chars, start, chars.len());
    assert(rest@ =~= chars@.skip(start as int));
    under_front_base(&rest)
}

fn server_path_of(path: &String) -> (r: String)
    ensures
        r@ == server_path(path@),
{
    let chars = chars_of(path.as_str());
    let marker = marker_chars();
    let found = find_text(&chars, &marker);
    match found {
        Some(pos) => {
            proof {
                lemma_server_path_found(chars@, pos as int);
            }
            assert(chars@.len() == chars.len());
            front_path_from(&chars, pos + 7)
        },
        None => {
            proof {
                lemma_server_path_absent(chars@);
            }
            path.clone()
        },
    }
}

/// Each stored path rewritten as `server_path` says.
pub fn zmiany_sciezek_fot_pod_serwer(dane: Vec<String>) -> (r: Vec<String>)
    ensures
        r@.len() == dane@.len(),
        forall|i: int| 0 <= i < dane@.len() ==> #[trigger] r@[i]@ == server_path(dane@[i]@),
{
    let mut out: Vec<String> = Vec::new();
    let mut i: usize = 0;
    while i < dane.len()
        invariant
            i <= dane@.len(),
            out@.len() == i,
            forall|k: int| 0 <= k < i ==> #[trigger] out@[k]@ == server_path(dane@[k]@),
        decreases dane@.len() - i,
    {
        let p = server_path_of(&dane[i]);
        out.push(p);
        i = i + 1;
    }
    out
}

/// "var_": the prefix of a variant's key.
pub open spec fn variant_prefix() -> Seq<char> {
    seq!['v', 'a', 'r', '_']
}

/// Where a path goes in the variant map: its file name (after the last '/')
/// up to the first '.', cut at '_'; with two pieces or more, the last but one
/// names the variant ("var_" and the piece) and the last the resolution.
pub open spec fn variant_entry(p: Seq<char>) -> Option<(Seq<char>, Seq<char>)> {
    let name = split_at_seps(p, seq!['/']).last();
    let clean = split_at_seps(name, seq!['.'])[0];
    let parts = split_at_seps(clean, seq!['_']);
    if parts.len() >= 2 {
        Some((variant_prefix() + parts[parts.len() - 2], parts[parts.len() - 1]))
    } else {
        None
    }
}

/// Placement law: where a path is filed depends only on its file name, the
/// text after its last '/'.
pub proof fn lemma_variant_entry_by_file_name(dir: Seq<char>, file_name: Seq<char>)
    requires
        forall|i: int| 0 <= i < file_name.len() ==> #[trigger] file_name[i] != '/',
    ensures
        variant_entry(dir + seq!['/'] + file_name) == variant_entry(file_name),
{
    let slash = seq!['/'];
    assert(slash.contains('/')) by {
        assert(slash[0] == '/');
    }
    assert forall|i: int| 0 <= i < file_name.len() implies !slash.contains(#[trigger] file_name[i]) by {
        if slash.contains(file_name[i]) {
            let j = choose|j: int| 0 <= j < slash.len() && slash[j] == file_name[i];
            assert(slash[j] == '/');
        }
    }
    lemma_split_concat(dir, '/', file_name, slash);
    lemma_split_without_sep(file_name, slash);
    assert(split_at_seps(dir + slash + file_name, slash).last() == file_name);
    assert(split_at_seps(file_name, slash).last() == file_name);
}

/// No character of `chars` occurs in `s`.
pub open spec fn free_of(s: Seq<char>, chars: Seq<char>) -> bool {
    forall|i: int| 0 <= i < s.len() ==> !chars.contains(#[trigger] s[i])
}

/// Placement law: a file "<name>_<variant>_<resolution>.<extension>", whose
/// variant and resolution hold no '_', is filed under "var_<variant>" at
/// "<resolution>"; the name before them may hold more '_'.
pub proof fn lemma_variant_entry_places(name: Seq<char>, variant: Seq<char>, res: Seq<char>, ext: Seq<char>)
    requires
        free_of(name, seq!['/', '.']),
        free_of(variant, seq!['/', '.', '_']),
        free_of(res, seq!['/', '.', '_']),
        free_of(ext, seq!['/']),
    ensures
        variant_entry(name + seq!['_'] + variant + seq!['_'] + res + seq!['.'] + ext)
            == Some((seq!['v', 'a', 'r', '_'] + variant, res)),
{
    let base = name + seq!['_'] + variant + seq!['_'] + res;
    let f = base + seq!['.'] + ext;
    let slash = seq!['/'];
    let dot = seq!['.'];
    let under = seq!['_'];
    assert(dot.contains('.')) by { assert(dot[0] == '.'); }
    assert(under.contains('_')) by { assert(under[0] == '_'); }
    assert(!seq!['/', '.'].contains('_')) by {
        assert(seq!['/', '.'][0] != '_' && seq!['/', '.'][1] != '_');
    }
    assert forall|i: int| 0 <= i < f.len() implies !slash.contains(#[trigger] f[i]) by {
        if slash.contains(f[i]) {
            let j = choose|j: int| 0 <= j < slash.len() && slash[j] == f[i];
            assert(f[i] == '/');
            assert(seq!['/', '.'].contains('/')) by { assert(seq!['/', '.'][0] == '/'); }
            assert(seq!['/', '.', '_'].contains('/')) by { assert(seq!['/', '.', '_'][0] == '/'); }
            if i < name.len() {
                assert(f[i] == name[i]);
            } else if i == name.len() {
                assert(f[i] == '_');
            } else if i < name.len() + 1 + variant.len() {
                assert(f[i] == variant[i - name.len() - 1]);
            } else if i == name.len() + 1 + variant.len() {
                assert(f[i] == '_');
            } else if i < base.len() {
                assert(f[i] == res[i - name.len() - 2 - variant.len()]);
            } else if i == base.len() {
                assert(f[i] == '.');
            } else {
                assert(f[i] == ext[i - base.len() - 1]);
            }
        }
    }
    lemma_split_without_sep(f, slash);
    assert forall|i: int| 0 <= i < base.len() implies !dot.contains(#[trigger] base[i]) by {
        if dot.contains(base[i]) {
            let j = choose|j: int| 0 <= j < dot.len() && dot[j] == base[i];
            assert(base[i] == '.');
            assert(seq!['/', '.'].contains('.')) by { assert(seq!['/', '.'][1] == '.'); }
            assert(seq!['/', '.', '_'].contains('.')) by { assert(seq!['/', '.', '_'][1] == '.'); }
            if i < name.len() {
                assert(base[i] == name[i]);
            } else if i == name.len() {
                assert(base[i] == '_');
            } else if i < name.len() + 1 + variant.len() {
                assert(base[i] == variant[i - name.len() - 1]);
            } else if i == name.len() + 1 + variant.len() {
                assert(base[i] == '_');
            } else {
                assert(base[i] == res[i - name.len() - 2 - variant.len()]);
            }
        }
    }
    lemma_split_concat(base, '.', ext, dot);
    lemma_split_without_sep(base, dot);
    lemma_split_nonempty(ext, dot);
    assert(split_at_seps(f, dot)[0] == base);
    assert forall|i: int| 0 <= i < variant.len() implies !under.contains(#[trigger] variant[i]) by {
        assert(!seq!['/', '.', '_'].contains(variant[i]));
        if under.contains(variant[i]) {
            let j = choose|j: int| 0 <= j < under.len() && under[j] == variant[i];
            assert(seq!['/', '.', '_'][2] == variant[i]);
        }
    }
    assert forall|i: int| 0 <= i < res.len() implies !under.contains(#[trigger] res[i]) by {
        assert(!seq!['/', '.', '_'].contains(res[i]));
        if under.contains(res[i]) {
            let j = choose|j: int| 0 <= j < under.len() && under[j] == res[i];
            assert(seq!['/', '.', '_'][2] == res[i]);
        }
    }
    lemma_split_concat(name + seq!['_'] + variant, '_', res, under);
    lemma_split_concat(name, '_', variant, under);
    lemma_split_without_sep(variant, under);
    lemma_split_without_sep(res, under);
    let parts = split_at_seps(base, under);
    assert(parts == split_at_seps(name, under) + seq![variant] + seq![res]);
    assert(parts[parts.len() - 2] == variant);
    assert(parts[parts.len() - 1] == res);
    assert(variant_prefix() == seq!['v', 'a', 'r', '_']);
}

/// Placement law: a file name without '_' is not filed.
pub proof fn lemma_variant_entry_needs_underscore(file_name: Seq<char>)
    requires
        free_of(file_name, seq!['/', '_']),
    ensures
        variant_entry(file_name) is None,
{
    let slash = seq!['/'];
    let dot = seq!['.'];
    let under = seq!['_'];
    assert forall|i: int| 0 <= i < file_name.len() implies !slash.contains(#[trigger] file_name[i]) by {
        assert(!seq!['/', '_'].contains(file_name[i]));
        if slash.contains(file_name[i]) {
            let j = choose|j: int| 0 <= j < slash.len() && slash[j] == file_name[i];
            assert(seq!['/', '_'][0] == file_name[i]);
        }
    }
    lemma_split_without_sep(file_name, slash);
    let no_underscore = |c: char| c != '_';
    assert forall|i: int| 0 <= i < file_name.len() implies no_underscore(#[trigger] file_name[i]) by {
        assert(!seq!['/', '_'].contains(file_name[i]));
        if file_name[i] == '_' {
            assert(seq!['/', '_'][1] == file_name[i]);
        }
    }
    lemma_split_keeps(file_name, dot, no_underscore);
    lemma_split_nonempty(file_name, dot);
    let clean = split_at_seps(file_name, dot)[0];
    assert forall|i: int| 0 <= i < clean.len() implies !under.contains(#[trigger] clean[i]) by {
        assert(no_underscore(split_at_seps(file_name, dot)[0][i]));
        if under.contains(clean[i]) {
            let j = choose|j: int| 0 <= j < under.len() && under[j] == clean[i];
            assert(under[j] == '_');
        }
    }
    lemma_split_without_sep(clean, under);
}

/// `m` with `p` filed under resolution `res` of group `key`, the group made
/// if it is not there yet.
pub open spec fn file_under(
    m: Map<Seq<char>, Map<Seq<char>, Seq<char>>>,
    key: Seq<char>,
    res: Seq<char>,
    p: Seq<char>,
) -> Map<Seq<char>, Map<Seq<char>, Seq<char>>> {
    let group = if m.contains_key(key) { m[key] } else { Map::empty() };
    m.insert(key, group.insert(res, p))
}

/// The variant map of a list of paths: each path that `variant_entry` places,
/// in order, a later path replacing an earlier one with the same place.
pub open spec fn variants_of(paths: Seq<Seq<char>>) -> Map<Seq<char>, Map<Seq<char>, Seq<char>>>
    decreases paths.len(),
{
    if paths.len() == 0 {
        Map::empty()
    } else {
        let m = variants_of(paths.drop_last());
        let p = paths.last();
        match variant_entry(p) {
            Some((key, res)) => file_under(m, key, res, p),
            None => m,
        }
    }
}

/// Every path in a variant map sits where its own name places it, and is
/// one of the paths the map was made from.
pub open spec fn placed_by_name(m: Map<Seq<char>, Map<Seq<char>, Seq<char>>>, paths: Seq<Seq<char>>) -> bool {
    forall|k: Seq<char>, r: Seq<char>|
        #![trigger m[k][r]]
        m.contains_key(k) && m[k].contains_key(r) ==> variant_entry(m[k][r]) == Some((k, r))
            && paths.contains(m[k][r])
}

/// Grouping law: what the variant map holds is placed by its own name and
/// comes from the paths given.
pub proof fn lemma_variants_placed_by_name(paths: Seq<Seq<char>>)
    ensures
        placed_by_name(variants_of(paths), paths),
    decreases paths.len(),
{
    if paths.len() > 0 {
        let init = paths.drop_last();
        lemma_variants_placed_by_name(init);
        let m = variants_of(init);
        let p = paths.last();
        let out = variants_of(paths);
        assert forall|k: Seq<char>, r: Seq<char>|
            #![trigger out[k][r]]
            out.contains_key(k) && out[k].contains_key(r) implies variant_entry(out[k][r]) == Some((k, r))
                && paths.contains(out[k][r]) by {
            match variant_entry(p) {
                Some((key, res)) => {
                    if k == key && r == res {
                        assert(paths[paths.len() - 1] == p);
                    } else {
                        assert(out[k][r] == m[k][r]);
                        let i = choose|i: int| 0 <= i < init.len() && init[i] == m[k][r];
                        assert(paths[i] == init[i]);
                    }
                },
                None => {
                    let i = choose|i: int| 0 <= i < init.len() && init[i] == m[k][r];
                    assert(paths[i] == init[i]);
                },
            }
        }
    }
}

/// Grouping law: every path whose name places it leaves its place filled.
pub proof fn lemma_variants_keep_every_place(paths: Seq<Seq<char>>, i: int)
    requires
        0 <= i < paths.len(),
        variant_entry(paths[i]) is Some,
    ensures
        ({
            let (k, r) = variant_entry(paths[i])->0;
            variants_of(paths).contains_key(k) && variants_of(paths)[k].contains_key(r)
        }),
    decreases paths.len(),
{
    if i < paths.len() - 1 {
        let init = paths.drop_last();
        assert(init[i] == paths[i]);
        lemma_variants_keep_every_place(init, i);
    }
}

/// No two paths that `variant_entry` places go to the same place.
pub open spec fn distinct_places(paths: Seq<Seq<char>>) -> bool {
    forall|i: int, j: int|
        #![trigger variant_entry(paths[i]), variant_entry(paths[j])]
        0 <= i < j < paths.len() && variant_entry(paths[i]) is Some ==> variant_entry(paths[i]) != variant_entry(paths[j])
}

/// Every group of the variant map holds at least one resolution.
proof fn lemma_groups_not_empty(paths: Seq<Seq<char>>, k: Seq<char>)
    requires
        variants_of(paths).contains_key(k),
    ensures
        exists|r: Seq<char>| variants_of(paths)[k].contains_key(r),
    decreases paths.len(),
{
    let init = paths.drop_last();
    let m = variants_of(init);
    match variant_entry(paths.last()) {
        Some((key, res)) => {
            if k == key {
                assert(variants_of(paths)[k].contains_key(res));
            } else {
                lemma_groups_not_empty(init, k);
                let r = choose|r: Seq<char>| m[k].contains_key(r);
                assert(variants_of(paths)[k].contains_key(r));
            }
        },
        None => {
            lemma_groups_not_empty(init, k);
        },
    }
}

/// Where no two paths share a place, each placed path is what its place
/// holds.
pub proof fn lemma_variants_hold_each_placed_path(paths: Seq<Seq<char>>, i: int)
    requires
        distinct_places(paths),
        0 <= i < paths.len(),
        variant_entry(paths[i]) is Some,
    ensures
        ({
            let (k, r) = variant_entry(paths[i])->0;
            variants_of(paths).contains_key(k) && variants_of(paths)[k][r] == paths[i]
        }),
{
    let (k, r) = variant_entry(paths[i])->0;
    let m = variants_of(paths);
    lemma_variants_keep_every_place(paths, i);
    lemma_variants_placed_by_name(paths);
    assert(variant_entry(m[k][r]) == Some((k, r)) && paths.contains(m[k][r]));
    let j = choose|j: int| 0 <= j < paths.len() && paths[j] == m[k][r];
    if j != i {
        if j < i {
            assert(variant_entry(paths[j]) != variant_entry(paths[i]));
        } else {
            assert(variant_entry(paths[i]) != variant_entry(paths[j]));
        }
    }
}

/// Grouping law: where no two paths share a place, the order in which the
/// paths come does not matter: any permutation of them gives the same
/// variant map.
pub proof fn lemma_variants_ignore_order(paths: Seq<Seq<char>>, perm: Seq<Seq<char>>)
    requires
        distinct_places(paths),
        perm.to_multiset() == paths.to_multiset(),
    ensures
        variants_of(perm) == variants_of(paths),
{
    perm.to_multiset_ensures();
    paths.to_multiset_ensures();
    let a = variants_of(paths);
    let b = variants_of(perm);
    lemma_variants_placed_by_name(paths);
    lemma_variants_placed_by_name(perm);
    assert forall|p: Seq<char>| perm.contains(p) <==> paths.contains(p) by {
        assert(perm.to_multiset().count(p) == paths.to_multiset().count(p));
        assert(perm.contains(p) <==> perm.to_multiset().count(p) > 0);
        assert(paths.contains(p) <==> paths.to_multiset().count(p) > 0);
    }
    // A place filled in one map is filled in the other.
    assert forall|k: Seq<char>, r: Seq<char>|
        #![trigger a[k].contains_key(r)]
        a.contains_key(k) && a[k].contains_key(r) implies b.contains_key(k) && b[k].contains_key(r) by {
        assert(variant_entry(a[k][r]) == Some((k, r)) && paths.contains(a[k][r]));
        assert(perm.contains(a[k][r]));
        let j = choose|j: int| 0 <= j < perm.len() && perm[j] == a[k][r];
        lemma_variants_keep_every_place(perm, j);
    }
    assert forall|k: Seq<char>, r: Seq<char>|
        #![trigger b[k].contains_key(r)]
        b.contains_key(k) && b[k].contains_key(r) implies a.contains_key(k) && a[k].contains_key(r) by {
        assert(variant_entry(b[k][r]) == Some((k, r)) && perm.contains(b[k][r]));
        assert(paths.contains(b[k][r]));
        let j = choose|j: int| 0 <= j < paths.len() && paths[j] == b[k][r];
        lemma_variants_keep_every_place(paths, j);
    }
    assert forall|k: Seq<char>| #[trigger] a.contains_key(k) <==> b.contains_key(k) by {
        if a.contains_key(k) {
            lemma_groups_not_empty(paths, k);
            let r = choose|r: Seq<char>| a[k].contains_key(r);
            assert(a.contains_key(k) && a[k].contains_key(r));
        }
        if b.contains_key(k) {
            lemma_groups_not_empty(perm, k);
            let r = choose|r: Seq<char>| b[k].contains_key(r);
            assert(b.contains_key(k) && b[k].contains_key(r));
        }
    }
    assert forall|k: Seq<char>| a.contains_key(k) implies #[trigger] a[k] == b[k] by {
        assert forall|r: Seq<char>| #[trigger] a[k].contains_key(r) <==> b[k].contains_key(r) by {
            if a[k].contains_key(r) {
                assert(a.contains_key(k) && a[k].contains_key(r));
            }
            if b[k].contains_key(r) {
                assert(b.contains_key(k) && b[k].contains_key(r));
            }
        }
        assert forall|r: Seq<char>| a[k].contains_key(r) implies #[trigger] a[k][r] == b[k][r] by {
            assert(a.contains_key(k) && a[k].contains_key(r));
            assert(b.contains_key(k) && b[k].contains_key(r));
            assert(variant_entry(a[k][r]) == Some((k, r)) && paths.contains(a[k][r]));
            assert(variant_entry(b[k][r]) == Some((k, r)) && perm.contains(b[k][r]));
            assert(paths.contains(b[k][r]));
            let i = choose|i: int| 0 <= i < paths.len() && paths[i] == a[k][r];
            let j = choose|j: int| 0 <= j < paths.len() && paths[j] == b[k][r];
            if i < j {
                assert(variant_entry(paths[i]) != variant_entry(paths[j]));
            } else if j < i {
                assert(variant_entry(paths[j]) != variant_entry(paths[i]));
            }
        }
        assert(a[k] =~= b[k]);
    }
    assert(a =~= b);
}

/// Files `p` under resolution `res` of group `key`.
pub fn file_path_under(
    m: &mut AssocMap<AssocMap<String>>,
    key: String,
    res: String,
    p: String,
)
    ensures
        final(m)@ == file_under(old(m)@, key@, res@, p@),
{
    match m.remove(key.as_str()) {
        Some(mut group) => {
            group.insert(res, p);
            m.insert(key, group);
        },
        None => {
            let mut group: AssocMap<String> = AssocMap::new();
            group.insert(res, p);
            m.insert(key, group);
        },
    }
    assert(final(m)@ =~= file_under(old(m)@, key@, res@, p@));
}

/// The last of a non-empty list of pieces.
fn last_piece(pieces: &Vec<String>) -> (r: String)
    requires
        pieces@.len() >= 1,
    ensures
        r@ == strings_view(pieces@).last(),
{
    pieces[pieces.len() - 1].clone()
}

/// Where `path` goes in the variant map, as `variant_entry` says.
fn variant_entry_of(path: &String) -> (r: Option<(String, String)>)
    ensures
        match r {
            Some((key, res)) => variant_entry(path@) == Some((key@, res@)),
            None => variant_entry(path@) is None,
        },
{
    proof {
        crate::text::lemma_split_nonempty(path@, seq!['/']);
        reveal_strlit("var_");
    }
    let mut slash: Vec<char> = Vec::new();
    slash.push('/');
    assert(slash@ =~= seq!['/']);
    let pieces = split_at(path.as_str(), &slash);
    assert(strings_view(pieces@).len() == pieces@.len());
    let name = last_piece(&pieces);
    proof {
        crate::text::lemma_split_nonempty(name@, seq!['.']);
    }
    let mut dot: Vec<char> = Vec::new();
    dot.push('.');
    assert(dot@ =~= seq!['.']);
    let before_dot = split_at(name.as_str(), &dot);
    assert(strings_view(before_dot@).len() == before_dot@.len());
    let clean = before_dot[0].clone();
    assert(clean@ == strings_view(before_dot@)[0]);
    let mut underscore: Vec<char> = Vec::new();
    underscore.push('_');
    assert(underscore@ =~= seq!['_']);
    let parts = split_at(clean.as_str(), &underscore);
    assert(strings_view(parts@).len() == parts@.len());
    let n = parts.len();
    if n >= 2 {
        let key = concat_text("var_", parts[n - 2].as_str());
        let res = parts[n - 1].clone();
        assert("var_"@ =~= variant_prefix());
        assert(strings_view(parts@)[n - 2] == parts@[n - 2]@);
        assert(strings_view(parts@)[n - 1] == parts@[n - 1]@);
        Some((key, res))
    } else {
        None
    }
}

/// Groups image paths by variant and resolution: "test_1_3_16.avif" is filed
/// under "var_3" at "16"; a path whose file name has no '_' is left out.
pub fn normalizacja_sciezek_wariantow_na_json(sciezki: Vec<String>) -> (r: AssocMap<AssocMap<String>>)
    ensures
        r@ == variants_of(strings_view(sciezki@)),
{
    let mut warianty: AssocMap<AssocMap<String>> = AssocMap::new();
    let mut i: usize = 0;
    while i < sciezki.len()
        invariant
            i <= sciezki@.len(),
            warianty@ == variants_of(strings_view(sciezki@).take(i as int)),
        decreases sciezki@.len() - i,
    {
        let path = &sciezki[i];
        let ghost before = strings_view(sciezki@).take(i as int);
        proof {
            let now = strings_view(sciezki@).take(i + 1);
            assert(now.drop_last() =~= before);
            assert(now.last() == path@);
        }
        match variant_entry_of(path) {
            Some((key, res)) => {
                file_path_under(&mut warianty, key, res, path.clone());
            },
            None => {},
        }
        i = i + 1;
    }
    assert(strings_view(sciezki@).take(sciezki@.len() as int) =~= strings_view(sciezki@));
    warianty
}

/// Where a JSON document for the front-end goes:
/// `{server}{folder}{modyfikator}/{nazwa}.json`.
pub fn front_json_url(
    frontend_server: &str,
    target: LokalizacjaNaFrontendzie,
    modyfikator: &str,
    nazwa: &str,
) -> (r: String)
    ensures
        r@ == frontend_server@ + target.localisation() + modyfikator@ + "/"@ + nazwa@ + ".json"@,
{
    let folder = target.get_localisation();
    let a = concat_text(frontend_server, folder.as_str());
    let b = concat_text(a.as_str(), modyfikator);
    let c = concat_text(b.as_str(), "/");
    let d = concat_text(c.as_str(), nazwa);
    concat_text(d.as_str(), ".json")
}

/// The file name of a path: what follows its last '/'.
pub open spec fn file_name_of(p: Seq<char>) -> Seq<char> {
    split_at_seps(p, seq!['/']).last()
}

/// Where an image file goes on the front-end server:
/// `{server}{folder}{modyfikator}/{file name}`.
pub fn front_file_url(
    frontend_server: &str,
    target: LokalizacjaNaFrontendzie,
    modyfikator: &str,
    sciezka: &str,
) -> (r: String)
    ensures
        r@ == frontend_server@ + target.localisation() + modyfikator@ + "/"@ + file_name_of(sciezka@),
{
    proof {
        crate::text::lemma_split_nonempty(sciezka@, seq!['/']);
    }
    let mut slash: Vec<char> = Vec::new();
    slash.push('/');
    assert(slash@ =~= seq!['/']);
    let pieces = split_at(sciezka, &slash);
    assert(strings_view(pieces@).len() == pieces@.len());
    let name = last_piece(&pieces);
    let folder = target.get_localisation();
    let a = concat_text(frontend_server, folder.as_str());
    let b = concat_text(a.as_str(), modyfikator);
    let c = concat_text(b.as_str(), "/");
    concat_text(c.as_str(), name.as_str())
}

/// The text id listed for `id`: that of its first entry, if any.
pub open spec fn name_id_for(list: Seq<(i64, Seq<char>)>, id: i64) -> Option<Seq<char>>
    decreases list.len(),
{
    if list.len() == 0 {
        None
    } else if list[0].0 == id {
        Some(list[0].1)
    } else {
        name_id_for(list.drop_first(), id)
    }
}

pub open spec fn ids_view(v: Seq<(i64, String)>) -> Seq<(i64, Seq<char>)> {
    v.map_values(|p: (i64, String)| (p.0, p.1@))
}

/// Looks up the text id of a product in the list of (id, text id) pairs.
pub fn znajdz_name_id(lista: &Vec<(i64, String)>, id: i64) -> (r: Option<String>)
    ensures
        match r {
            Some(n) => name_id_for(ids_view(lista@), id) == Some(n@),
            None => name_id_for(ids_view(lista@), id) is None,
        },
{
    let mut i: usize = 0;
    assert(ids_view(lista@).skip(0) =~= ids_view(lista@));
    while i < lista.len()
        invariant
            i <= lista@.len(),
            name_id_for(ids_view(lista@), id) == name_id_for(ids_view(lista@).skip(i as int), id),
        decreases lista@.len() - i,
    {
        let ghost rest = ids_view(lista@).skip(i as int);
        assert(rest[0] == (lista@[i as int].0, lista@[i as int].1@));
        assert(rest.drop_first() =~= ids_view(lista@).skip(i + 1));
        if lista[i].0 == id {
            return Some(lista[i].1.clone());
        }
        i = i + 1;
    }
    assert(ids_view(lista@).skip(i as int) =~= Seq::<(i64, Seq<char>)>::empty());
    None
}

} // verus!
