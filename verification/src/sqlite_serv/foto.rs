//! The images of a product: the files of each variant in each resolution.
use vstd::prelude::*;
use crate::assoc_map::AssocMap;
use crate::sqlite_serv::db_merge::{file_path_under, file_under, free_of, variant_prefix};
use crate::text::{concat_text, lemma_split_concat, lemma_split_nonempty, lemma_split_without_sep, split_at, split_at_seps, strings_view};

verus! {

/// The image files of a product, by variant and then by resolution.
#[derive(Debug)]
pub struct FotoData {
    pub product_id: i64,
    pub warianty_zdjec: AssocMap<AssocMap<String>>,
}

/// The folder that holds the service's files: the configured one. The
/// service stops if none was configured, so a value is required.
pub fn get_items_prefix<'a>(files_location: Option<&'a String>) -> (r: &'a str)
    requires
        files_location is Some,
    ensures
        r@ == files_location.unwrap()@,
{
    files_location.unwrap().as_str()
}

/// "default": the variant of a file whose name has no '_'.
pub open spec fn default_variant() -> Seq<char> {
    "default"@
}

/// Where a converted image file goes: its name up to the first '.', cut at
/// '_'; the last piece is the resolution and the one before it, if any,
/// names the variant ("var_" and the piece), else the variant is "default".
pub open spec fn image_file_place(file_name: Seq<char>) -> (Seq<char>, Seq<char>) {
    let base = split_at_seps(file_name, seq!['.'])[0];
    let parts = split_at_seps(base, seq!['_']);
    let variant = if parts.len() > 1 {
        variant_prefix() + parts[parts.len() - 2]
    } else {
        default_variant()
    };
    (variant, parts.last())
}

/// Placement law: a converted file "<name>_<variant>_<resolution>.<ext>",
/// whose variant and resolution hold no '_', goes to "var_<variant>" at
/// "<resolution>".
pub proof fn lemma_image_file_place_variant(name: Seq<char>, variant: Seq<char>, res: Seq<char>, ext: Seq<char>)
    requires
        free_of(name, seq!['.']),
        free_of(variant, seq!['.', '_']),
        free_of(res, seq!['.', '_']),
    ensures
        image_file_place(name + seq!['_'] + variant + seq!['_'] + res + seq!['.'] + ext)
            == (seq!['v', 'a', 'r', '_'] + variant, res),
{
    let base = name + seq!['_'] + variant + seq!['_'] + res;
    let dot = seq!['.'];
    let under = seq!['_'];
    assert(dot.contains('.')) by { assert(dot[0] == '.'); }
    assert(under.contains('_')) by { assert(under[0] == '_'); }
    assert forall|i: int| 0 <= i < base.len() implies !dot.contains(#[trigger] base[i]) by {
        if dot.contains(base[i]) {
            let j = choose|j: int| 0 <= j < dot.len() && dot[j] == base[i];
            assert(base[i] == '.');
            assert(seq!['.'].contains('.')) by { assert(seq!['.'][0] == '.'); }
            assert(seq!['.', '_'].contains('.')) by { assert(seq!['.', '_'][0] == '.'); }
            if i < name.len() {
                assert(base[i] == name[i]);
            } else if i == name.len() {
                assert(base[i] == '_');
            } else if i < name.len() + 1 + variant.len() {
                assert(base[i] == variant[i - name.len() - 1]);
            } else if i == name.len() + 1 + variant.len() {
                assert(base[i] == '_');
            } else {
                assert(base[i] == res[i - name.len() - 2 - variant.len()]);
            }
        }
    }
    lemma_split_concat(base, '.', ext, dot);
    lemma_split_without_sep(base, dot);
    lemma_split_nonempty(ext, dot);
    assert(split_at_seps(base + dot + ext, dot)[0] == base);
    assert forall|i: int| 0 <= i < variant.len() implies !under.contains(#[trigger] variant[i]) by {
        assert(!seq!['.', '_'].contains(variant[i]));
        if under.contains(variant[i]) {
            let j = choose|j: int| 0 <= j < under.len() && under[j] == variant[i];
            assert(seq!['.', '_'][1] == variant[i]);
        }
    }
    assert forall|i: int| 0 <= i < res.len() implies !under.contains(#[trigger] res[i]) by {
        assert(!seq!['.', '_'].contains(res[i]));
        if under.contains(res[i]) {
            let j = choose|j: int| 0 <= j < under.len() && under[j] == res[i];
            assert(seq!['.', '_'][1] == res[i]);
        }
    }
    lemma_split_concat(name + seq!['_'] + variant, '_', res, under);
    lemma_split_concat(name, '_', variant, under);
    lemma_split_without_sep(variant, under);
    lemma_split_without_sep(res, under);
    let parts = split_at_seps(base, under);
    assert(parts == split_at_seps(name, under) + seq![variant] + seq![res]);
    assert(parts[parts.len() - 2] == variant);
    assert(parts.last() == res);
    assert(variant_prefix() == seq!['v', 'a', 'r', '_']);
}

/// Placement law: a converted file "<base>.<ext>" whose base holds no '_'
/// goes to the variant "default" at "<base>".
pub proof fn lemma_image_file_place_default(base: Seq<char>, ext: Seq<char>)
    requires
        free_of(base, seq!['.', '_']),
    ensures
        image_file_place(base + seq!['.'] + ext) == (seq!['d', 'e', 'f', 'a', 'u', 'l', 't'], base),
{
    let dot = seq!['.'];
    let under = seq!['_'];
    assert(dot.contains('.')) by { assert(dot[0] == '.'); }
    assert forall|i: int| 0 <= i < base.len() implies !dot.contains(#[trigger] base[i]) by {
        assert(!seq!['.', '_'].contains(base[i]));
        if dot.contains(base[i]) {
            let j = choose|j: int| 0 <= j < dot.len() && dot[j] == base[i];
            assert(seq!['.', '_'][0] == base[i]);
        }
    }
    assert forall|i: int| 0 <= i < base.len() implies !under.contains(#[trigger] base[i]) by {
        assert(!seq!['.', '_'].contains(base[i]));
        if under.contains(base[i]) {
            let j = choose|j: int| 0 <= j < under.len() && under[j] == base[i];
            assert(seq!['.', '_'][1] == base[i]);
        }
    }
    lemma_split_concat(base, '.', ext, dot);
    lemma_split_without_sep(base, dot);
    lemma_split_nonempty(ext, dot);
    assert(split_at_seps(base + dot + ext, dot)[0] == base);
    lemma_split_without_sep(base, under);
    reveal_strlit("default");
    assert(default_variant() =~= seq!['d', 'e', 'f', 'a', 'u', 'l', 't']);
}

/// The variant map of converted files, given as (file name, path) pairs in
/// the order they are found; a later file replaces an earlier one with the
/// same place.
pub open spec fn image_variants_of(files: Seq<(Seq<char>, Seq<char>)>) -> Map<Seq<char>, Map<Seq<char>, Seq<char>>>
    decreases files.len(),
{
    if files.len() == 0 {
        Map::empty()
    } else {
        let m = image_variants_of(files.drop_last());
        let (name, path) = files.last();
        let (variant, res) = image_file_place(name);
        file_under(m, variant, res, path)
    }
}

/// Grouping law: every converted file leaves its place filled.
pub proof fn lemma_image_variants_keep_every_file(files: Seq<(Seq<char>, Seq<char>)>, i: int)
    requires
        0 <= i < files.len(),
    ensures
        ({
            let (variant, res) = image_file_place(files[i].0);
            image_variants_of(files).contains_key(variant) && image_variants_of(files)[variant].contains_key(res)
        }),
    decreases files.len(),
{
    if i < files.len() - 1 {
        let init = files.drop_last();
        assert(init[i] == files[i]);
        lemma_image_variants_keep_every_file(init, i);
    }
}

/// Every place of `m` holds the path of one of `files` whose name belongs
/// to that place.
pub open spec fn filled_from_files(
    m: Map<Seq<char>, Map<Seq<char>, Seq<char>>>,
    files: Seq<(Seq<char>, Seq<char>)>,
) -> bool {
    forall|v: Seq<char>, r: Seq<char>|
        #![trigger m[v].contains_key(r)]
        m.contains_key(v) && m[v].contains_key(r) ==> exists|j: int|
            #![trigger files[j]]
            0 <= j < files.len() && image_file_place(files[j].0) == (v, r) && files[j].1 == m[v][r]
}

/// Grouping law: every place holds the path of a file that belongs there.
pub proof fn lemma_image_variants_by_place(files: Seq<(Seq<char>, Seq<char>)>)
    ensures
        filled_from_files(image_variants_of(files), files),
    decreases files.len(),
{
    if files.len() > 0 {
        let init = files.drop_last();
        lemma_image_variants_by_place(init);
        let m = image_variants_of(init);
        let out = image_variants_of(files);
        let (name, path) = files.last();
        let (variant, res) = image_file_place(name);
        assert forall|v: Seq<char>, r: Seq<char>|
            #![trigger out[v].contains_key(r)]
            out.contains_key(v) && out[v].contains_key(r) implies exists|j: int|
                #![trigger files[j]]
                0 <= j < files.len() && image_file_place(files[j].0) == (v, r) && files[j].1 == out[v][r] by {
            if v == variant && r == res {
                let j = files.len() - 1;
                assert(files[j] == (name, path));
                assert(image_file_place(files[j].0) == (v, r));
            } else {
                assert(out[v][r] == m[v][r]);
                let j = choose|j: int|
                    #![trigger init[j]]
                    0 <= j < init.len() && image_file_place(init[j].0) == (v, r) && init[j].1 == m[v][r];
                assert(files[j] == init[j]);
            }
        }
    }
}

/// The (file name, path) pairs, by their views.
pub open spec fn pairs_view(v: Seq<(String, String)>) -> Seq<(Seq<char>, Seq<char>)> {
    v.map_values(|p: (String, String)| (p.0@, p.1@))
}

fn image_file_place_of(file_name: &String) -> (r: (String, String))
    ensures
        image_file_place(file_name@) == (r.0@, r.1@),
{
    proof {
        lemma_split_nonempty(file_name@, seq!['.']);
        reveal_strlit("var_");
    }
    let mut dot: Vec<char> = Vec::new();
    dot.push('.');
    assert(dot@ =~= seq!['.']);
    let pieces = split_at(file_name.as_str(), &dot);
    assert(strings_view(pieces@).len() == pieces@.len());
    let base = pieces[0].clone();
    assert(base@ == strings_view(pieces@)[0]);
    proof {
        lemma_split_nonempty(base@, seq!['_']);
    }
    let mut underscore: Vec<char> = Vec::new();
    underscore.push('_');
    assert(underscore@ =~= seq!['_']);
    let parts = split_at(base.as_str(), &underscore);
    assert(strings_view(parts@).len() == parts@.len());
    let n = parts.len();
    let res = parts[n - 1].clone();
    assert(res@ == strings_view(parts@)[n - 1]);
    let variant = if n > 1 {
        assert(parts@[n - 2]@ == strings_view(parts@)[n - 2]);
        let v = concat_text("var_", parts[n - 2].as_str());
        assert("var_"@ =~= variant_prefix());
        v
    } else {
        "default".to_owned()
    };
    (variant, res)
}

/// Groups converted image files by variant and resolution, as the
/// background conversion records them.
pub fn zbierz_warianty_zdjec(pliki: &Vec<(String, String)>) -> (r: AssocMap<AssocMap<String>>)
    ensures
        r@ == image_variants_of(pairs_view(pliki@)),
{
    let mut warianty: AssocMap<AssocMap<String>> = AssocMap::new();
    let mut i: usize = 0;
    while i < pliki.len()
        invariant
            i <= pliki@.len(),
            warianty@ == image_variants_of(pairs_view(pliki@).take(i as int)),
        decreases pliki@.len() - i,
    {
        let (name, path) = &pliki[i];
        proof {
            let now = pairs_view(pliki@).take(i + 1);
            assert(now.drop_last() =~= pairs_view(pliki@).take(i as int));
            assert(now.last() == (name@, path@));
        }
        let (variant, res) = image_file_place_of(name);
        file_path_under(&mut warianty, variant, res, path.clone());
        i = i + 1;
    }
    assert(pairs_view(pliki@).take(pliki@.len() as int) =~= pairs_view(pliki@));
    warianty
}

} // verus!
