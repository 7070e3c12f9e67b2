//! The 3D model of a product: its ambient-occlusion texture and one mesh per
//! level of detail, filled in from the files uploaded for it.
use vstd::prelude::*;
use crate::assoc_map::AssocMap;
use crate::sqlite_serv::product::ONE_F32_BITS;
use crate::text::{
    all_ascii, ascii_lower, ascii_small, ascii_upper, ascii_uppercased, lemma_lowered_is_word,
    lemma_same_ignoring_case_ascii, lemma_split_ascii, same_ignoring_ascii_case, same_text, split_at, split_at_seps, starts_with_text, str_lowercase, str_uppercase,
    strings_view, to_lower, to_upper,
};

verus! {

/// A product's 3D model: the texture file, the scale of the texture (the
/// bit pattern of an `f32`, which the model only stores) and the mesh file of
/// each level of detail ("LOD0", "LOD1", ...).
#[derive(Debug)]
pub struct Model {
    pub product_id: i64,
    pub texture_ao: Option<String>,
    pub model: AssocMap<String>,
    pub texture_scale: u32,
}

/// What a model holds, by views.
pub struct ModelView {
    pub product_id: i64,
    pub texture_ao: Option<Seq<char>>,
    pub model: Map<Seq<char>, Seq<char>>,
    pub texture_scale: u32,
}

impl View for Model {
    type V = ModelView;

    open spec fn view(&self) -> ModelView {
        ModelView {
            product_id: self.product_id,
            texture_ao: match self.texture_ao {
                Some(t) => Some(t@),
                None => None,
            },
            model: self.model@,
            texture_scale: self.texture_scale,
        }
    }
}

/// The texture scale stored for a model, or 1.0 where none is.
pub fn skala_lub_domyslna(scale: Option<u32>) -> (r: u32)
    ensures
        r == match scale {
            Some(s) => s,
            None => ONE_F32_BITS,
        },
{
    match scale {
        Some(s) => s,
        None => ONE_F32_BITS,
    }
}

impl Model {
    /// The stored model of a product, or an empty one where there is none,
    /// with the stored texture scale (1.0 where none is stored).
    pub fn or_empty(existing: Option<Model>, product_id: i64, scale: Option<u32>) -> (r: Model)
        ensures
            r@ == match existing {
                Some(m) => m@,
                None => ModelView {
                    product_id,
                    texture_ao: None,
                    model: Map::empty(),
                    texture_scale: match scale {
                        Some(s) => s,
                        None => ONE_F32_BITS,
                    },
                },
            },
    {
        match existing {
            Some(m) => m,
            None => Model { product_id, texture_ao: None, model: AssocMap::new(), texture_scale: skala_lub_domyslna(scale) },
        }
    }
}

/// What an uploaded file is to a model, by its extension.
#[derive(Clone, Copy, Debug, PartialEq, Eq, Structural)]
pub enum RodzajPlikuModelu {
    /// An image: the model's texture.
    Tekstura,
    /// A glTF binary: one level of detail of the mesh.
    Siatka,
    /// Anything else, which is left out.
    Inny,
}

/// The kind of a file with the given lower-case extension.
pub open spec fn kind_for(ext: Seq<char>) -> RodzajPlikuModelu {
    if ext == "dds"@ || ext == "webp"@ || ext == "avif"@ || ext == "png"@ || ext == "jpg"@ {
        RodzajPlikuModelu::Tekstura
    } else if ext == "glb"@ {
        RodzajPlikuModelu::Siatka
    } else {
        RodzajPlikuModelu::Inny
    }
}

/// The kind of a file with an ASCII extension, ASCII case aside.
pub open spec fn kind_ignoring_case(ext: Seq<char>) -> RodzajPlikuModelu {
    if same_ignoring_ascii_case(ext, "dds"@) || same_ignoring_ascii_case(ext, "webp"@)
        || same_ignoring_ascii_case(ext, "avif"@) || same_ignoring_ascii_case(ext, "png"@)
        || same_ignoring_ascii_case(ext, "jpg"@) {
        RodzajPlikuModelu::Tekstura
    } else if same_ignoring_ascii_case(ext, "glb"@) {
        RodzajPlikuModelu::Siatka
    } else {
        RodzajPlikuModelu::Inny
    }
}

/// Kind law: the extensions dds, webp, avif, png and jpg are textures and
/// glb a mesh, in lower case and, for ASCII text, in any case; every other
/// ASCII extension is left out.
pub proof fn lemma_extension_kinds(ext: Seq<char>)
    ensures
        kind_for("dds"@) == RodzajPlikuModelu::Tekstura,
        kind_for("webp"@) == RodzajPlikuModelu::Tekstura,
        kind_for("avif"@) == RodzajPlikuModelu::Tekstura,
        kind_for("png"@) == RodzajPlikuModelu::Tekstura,
        kind_for("jpg"@) == RodzajPlikuModelu::Tekstura,
        kind_for("glb"@) == RodzajPlikuModelu::Siatka,
        same_ignoring_ascii_case(ext, "dds"@) || same_ignoring_ascii_case(ext, "webp"@)
            || same_ignoring_ascii_case(ext, "avif"@) || same_ignoring_ascii_case(ext, "png"@)
            || same_ignoring_ascii_case(ext, "jpg"@)
            ==> kind_ignoring_case(ext) == RodzajPlikuModelu::Tekstura,
        kind_ignoring_case(ext) == RodzajPlikuModelu::Siatka <==> same_ignoring_ascii_case(ext, "glb"@),
        !(same_ignoring_ascii_case(ext, "dds"@) || same_ignoring_ascii_case(ext, "webp"@)
            || same_ignoring_ascii_case(ext, "avif"@) || same_ignoring_ascii_case(ext, "png"@)
            || same_ignoring_ascii_case(ext, "jpg"@) || same_ignoring_ascii_case(ext, "glb"@))
            ==> kind_ignoring_case(ext) == RodzajPlikuModelu::Inny,
{
    reveal_strlit("dds");
    reveal_strlit("webp");
    reveal_strlit("avif");
    reveal_strlit("png");
    reveal_strlit("jpg");
    reveal_strlit("glb");
    assert("glb"@[0] != "dds"@[0] && "glb"@[0] != "png"@[0] && "glb"@[0] != "jpg"@[0]);
    assert("glb"@.len() != "webp"@.len() && "glb"@.len() != "avif"@.len());
    if same_ignoring_ascii_case(ext, "glb"@) {
        assert(ascii_lower(ext[0]) == ascii_lower('g'));
        assert(ascii_lower(ext[2]) == ascii_lower('b'));
        assert(!same_ignoring_ascii_case(ext, "dds"@)) by {
            assert(ascii_lower("dds"@[0]) != ascii_lower('g'));
        }
        assert(!same_ignoring_ascii_case(ext, "png"@)) by {
            assert(ascii_lower("png"@[0]) != ascii_lower('g'));
        }
        assert(!same_ignoring_ascii_case(ext, "jpg"@)) by {
            assert(ascii_lower("jpg"@[0]) != ascii_lower('g'));
        }
        assert(!same_ignoring_ascii_case(ext, "webp"@));
        assert(!same_ignoring_ascii_case(ext, "avif"@));
    }
}

/// The kind of a file, its extension compared in lower case; for an ASCII
/// extension, ASCII case aside.
pub fn rodzaj_pliku(extension: &str) -> (r: RodzajPlikuModelu)
    ensures
        r == kind_for(str_lowercase(extension@)),
        all_ascii(extension@) ==> r == kind_ignoring_case(extension@),
        same_ignoring_ascii_case(extension@, "dds"@) || same_ignoring_ascii_case(extension@, "webp"@)
            || same_ignoring_ascii_case(extension@, "avif"@) || same_ignoring_ascii_case(extension@, "png"@)
            || same_ignoring_ascii_case(extension@, "jpg"@) ==> r == RodzajPlikuModelu::Tekstura,
        same_ignoring_ascii_case(extension@, "glb"@) ==> r == RodzajPlikuModelu::Siatka,
{
    let ext = to_lower(extension);
    proof {
        if all_ascii(extension@) {
            reveal_strlit("dds");
            reveal_strlit("webp");
            reveal_strlit("avif");
            reveal_strlit("png");
            reveal_strlit("jpg");
            reveal_strlit("glb");
            assert(ascii_small("dds"@));
            assert(ascii_small("webp"@));
            assert(ascii_small("avif"@));
            assert(ascii_small("png"@));
            assert(ascii_small("jpg"@));
            assert(ascii_small("glb"@));
            lemma_lowered_is_word(extension@, ext@, "dds"@);
            lemma_lowered_is_word(extension@, ext@, "webp"@);
            lemma_lowered_is_word(extension@, ext@, "avif"@);
            lemma_lowered_is_word(extension@, ext@, "png"@);
            lemma_lowered_is_word(extension@, ext@, "jpg"@);
            lemma_lowered_is_word(extension@, ext@, "glb"@);
        }
        reveal_strlit("dds");
        reveal_strlit("webp");
        reveal_strlit("avif");
        reveal_strlit("png");
        reveal_strlit("jpg");
        reveal_strlit("glb");
        assert(all_ascii("dds"@) && all_ascii("webp"@) && all_ascii("avif"@));
        assert(all_ascii("png"@) && all_ascii("jpg"@) && all_ascii("glb"@));
        if same_ignoring_ascii_case(extension@, "dds"@) {
            lemma_same_ignoring_case_ascii(extension@, "dds"@);
        } else if same_ignoring_ascii_case(extension@, "webp"@) {
            lemma_same_ignoring_case_ascii(extension@, "webp"@);
        } else if same_ignoring_ascii_case(extension@, "avif"@) {
            lemma_same_ignoring_case_ascii(extension@, "avif"@);
        } else if same_ignoring_ascii_case(extension@, "png"@) {
            lemma_same_ignoring_case_ascii(extension@, "png"@);
        } else if same_ignoring_ascii_case(extension@, "jpg"@) {
            lemma_same_ignoring_case_ascii(extension@, "jpg"@);
        } else if same_ignoring_ascii_case(extension@, "glb"@) {
            lemma_same_ignoring_case_ascii(extension@, "glb"@);
        }
        lemma_extension_kinds(extension@);
    }
    let e = ext.as_str();
    if same_text(e, "dds") || same_text(e, "webp") || same_text(e, "avif") || same_text(e, "png")
        || same_text(e, "jpg") {
        RodzajPlikuModelu::Tekstura
    } else if same_text(e, "glb") {
        RodzajPlikuModelu::Siatka
    } else {
        RodzajPlikuModelu::Inny
    }
}

/// A piece of a file name names a level of detail: in upper case it starts
/// with "LOD".
pub open spec fn is_lod_piece(piece: Seq<char>) -> bool {
    3 <= str_uppercase(piece).len() && str_uppercase(piece).take(3) == "LOD"@
}

/// The first piece that names a level of detail, in upper case; "LOD0" if
/// none does.
pub open spec fn lod_of_pieces(pieces: Seq<Seq<char>>) -> Seq<char>
    decreases pieces.len(),
{
    if pieces.len() == 0 {
        "LOD0"@
    } else if is_lod_piece(pieces[0]) {
        str_uppercase(pieces[0])
    } else {
        lod_of_pieces(pieces.drop_first())
    }
}

/// The level of detail that a mesh file's name gives, cut at '_', '-' and '.'.
pub open spec fn lod_level_of(file_name: Seq<char>) -> Seq<char> {
    lod_of_pieces(split_at_seps(file_name, seq!['_', '-', '.']))
}

/// An ASCII piece that names a level of detail: it starts with "LOD" in
/// any case.
pub open spec fn is_lod_piece_ascii(piece: Seq<char>) -> bool {
    &&& piece.len() >= 3
    &&& ascii_upper(piece[0]) == 'L' as u32
    &&& ascii_upper(piece[1]) == 'O' as u32
    &&& ascii_upper(piece[2]) == 'D' as u32
}

/// The level of detail of an ASCII mesh file name: the first piece (cut at
/// '_', '-' and '.') that starts with "LOD" in any case, in capitals; "LOD0"
/// if no piece does.
pub open spec fn is_lod_level_ascii(file_name: Seq<char>, level: Seq<char>) -> bool {
    let pieces = split_at_seps(file_name, seq!['_', '-', '.']);
    ||| exists|i: int|
        0 <= i < pieces.len() && #[trigger] is_lod_piece_ascii(pieces[i])
            && (forall|j: int| 0 <= j < i ==> !is_lod_piece_ascii(#[trigger] pieces[j]))
            && ascii_uppercased(level, pieces[i])
    ||| (forall|j: int| 0 <= j < pieces.len() ==> !is_lod_piece_ascii(#[trigger] pieces[j])) && level == "LOD0"@
}

/// For an ASCII piece and its upper case, the upper case starts with "LOD"
/// exactly when the piece names a level of detail.
proof fn lemma_lod_piece_ascii(piece: Seq<char>, upper: Seq<char>)
    requires
        ascii_uppercased(upper, piece),
    ensures
        (3 <= upper.len() && upper.take(3) == "LOD"@) == is_lod_piece_ascii(piece),
{
    reveal_strlit("LOD");
    if is_lod_piece_ascii(piece) {
        assert(upper[0] as u32 == ascii_upper(piece[0]));
        assert(upper[1] as u32 == ascii_upper(piece[1]));
        assert(upper[2] as u32 == ascii_upper(piece[2]));
        vstd::utf8::char_u32_cast(upper[0], upper[0] as u32);
        vstd::utf8::char_u32_cast(upper[1], upper[1] as u32);
        vstd::utf8::char_u32_cast(upper[2], upper[2] as u32);
        vstd::utf8::char_u32_cast('L', 'L' as u32);
        vstd::utf8::char_u32_cast('O', 'O' as u32);
        vstd::utf8::char_u32_cast('D', 'D' as u32);
        assert(upper.take(3) =~= "LOD"@);
    }
    if 3 <= upper.len() && upper.take(3) == "LOD"@ {
        assert(upper.take(3)[0] == 'L' && upper.take(3)[1] == 'O' && upper.take(3)[2] == 'D');
        assert(upper[0] as u32 == ascii_upper(piece[0]));
        assert(upper[1] as u32 == ascii_upper(piece[1]));
        assert(upper[2] as u32 == ascii_upper(piece[2]));
    }
}

/// The level of detail named in a mesh file's name: "krzeslo_lod1-v2.glb"
/// gives "LOD1"; a name without one gives "LOD0".
pub fn lod_level(file_name: &str) -> (r: String)
    ensures
        r@ == lod_level_of(file_name@),
        all_ascii(file_name@) ==> is_lod_level_ascii(file_name@, r@),
{
    proof {
        reveal_strlit("LOD");
        reveal_strlit("LOD0");
    }
    let mut seps: Vec<char> = Vec::new();
    seps.push('_');
    seps.push('-');
    seps.push('.');
    assert(seps@ =~= seq!['_', '-', '.']);
    let pieces = split_at(file_name, &seps);
    let ghost all = strings_view(pieces@);
    assert(all.skip(0) =~= all);
    proof {
        if all_ascii(file_name@) {
            lemma_split_ascii(file_name@, seq!['_', '-', '.']);
        }
    }
    let mut i: usize = 0;
    while i < pieces.len()
        invariant
            i <= pieces@.len(),
            all == strings_view(pieces@),
            all == split_at_seps(file_name@, seq!['_', '-', '.']),
            lod_of_pieces(all) == lod_of_pieces(all.skip(i as int)),
            all_ascii(file_name@) ==> forall|k: int| 0 <= k < all.len() ==> all_ascii(#[trigger] all[k]),
            all_ascii(file_name@) ==> forall|j: int| 0 <= j < i ==> !is_lod_piece_ascii(#[trigger] all[j]),
        decreases pieces@.len() - i,
    {
        let upper = to_upper(pieces[i].as_str());
        proof {
            reveal_strlit("LOD");
        }
        assert(all.skip(i as int)[0] == pieces@[i as int]@);
        assert(all.skip(i as int).drop_first() =~= all.skip(i + 1));
        proof {
            if all_ascii(file_name@) {
                assert(all_ascii(all[i as int]));
                lemma_lod_piece_ascii(all[i as int], upper@);
            }
        }
        if starts_with_text(upper.as_str(), "LOD") {
            assert(is_lod_piece(all.skip(i as int)[0]));
            assert(lod_of_pieces(all.skip(i as int)) == upper@);
            proof {
                if all_ascii(file_name@) {
                    assert(is_lod_piece_ascii(all[i as int]));
                    assert(ascii_uppercased(upper@, all[i as int]));
                }
            }
            return upper;
        }
        assert(!is_lod_piece(all.skip(i as int)[0]));
        i = i + 1;
    }
    assert(all.skip(i as int) =~= Seq::<Seq<char>>::empty());
    proof {
        reveal_strlit("LOD0");
    }
    "LOD0".to_owned()
}

/// A model after one uploaded file: a texture replaces the texture, a mesh
/// is filed under its level of detail, anything else leaves it as it was.
pub open spec fn with_file(m: ModelView, kind: RodzajPlikuModelu, file_name: Seq<char>, path: Seq<char>) -> ModelView {
    match kind {
        RodzajPlikuModelu::Tekstura => ModelView { texture_ao: Some(path), ..m },
        RodzajPlikuModelu::Siatka => ModelView { model: m.model.insert(lod_level_of(file_name), path), ..m },
        RodzajPlikuModelu::Inny => m,
    }
}

/// Records one uploaded file in the model, by its extension; returns the
/// kind, so that a caller can report a file left out.
pub fn dodaj_plik_modelu(model: &mut Model, extension: &str, file_name: &str, path: String) -> (r: RodzajPlikuModelu)
    ensures
        r == kind_for(str_lowercase(extension@)),
        final(model)@ == with_file(old(model)@, r, file_name@, path@),
        r == RodzajPlikuModelu::Siatka && all_ascii(file_name@) ==> is_lod_level_ascii(file_name@, lod_level_of(file_name@)),
{
    let kind = rodzaj_pliku(extension);
    match kind {
        RodzajPlikuModelu::Tekstura => {
            model.texture_ao = Some(path);
        },
        RodzajPlikuModelu::Siatka => {
            let lod = lod_level(file_name);
            model.model.insert(lod, path);
        },
        RodzajPlikuModelu::Inny => {},
    }
    kind
}

/// The uploaded files as (extension, file name, path), by views.
pub open spec fn uploads_view(v: Seq<(String, String, String)>) -> Seq<(Seq<char>, Seq<char>, Seq<char>)> {
    v.map_values(|t: (String, String, String)| (t.0@, t.1@, t.2@))
}

/// A model after the uploaded files, taken in order.
pub open spec fn with_files(m: ModelView, files: Seq<(Seq<char>, Seq<char>, Seq<char>)>) -> ModelView
    decreases files.len(),
{
    if files.len() == 0 {
        m
    } else {
        let (ext, name, path) = files.last();
        with_file(with_files(m, files.drop_last()), kind_for(str_lowercase(ext)), name, path)
    }
}

/// The names of the uploaded files whose kind is neither texture nor mesh,
/// in order.
pub open spec fn skipped_names(files: Seq<(Seq<char>, Seq<char>, Seq<char>)>) -> Seq<Seq<char>>
    decreases files.len(),
{
    if files.len() == 0 {
        Seq::empty()
    } else {
        let (ext, name, path) = files.last();
        let rest = skipped_names(files.drop_last());
        if kind_for(str_lowercase(ext)) == RodzajPlikuModelu::Inny {
            rest.push(name)
        } else {
            rest
        }
    }
}

/// Records the uploaded files, given as (extension, file name, path), in
/// the model; gives the names of the files left out.
pub fn uzupelnij_model(model: &mut Model, pliki: &Vec<(String, String, String)>) -> (pominiete: Vec<String>)
    ensures
        final(model)@ == with_files(old(model)@, uploads_view(pliki@)),
        strings_view(pominiete@) == skipped_names(uploads_view(pliki@)),
        forall|k: int|
            0 <= k < pliki@.len() && kind_for(str_lowercase(pliki@[k].0@)) == RodzajPlikuModelu::Siatka
                && all_ascii(#[trigger] pliki@[k].1@) ==> is_lod_level_ascii(pliki@[k].1@, lod_level_of(pliki@[k].1@)),
{
    let mut pominiete: Vec<String> = Vec::new();
    let mut i: usize = 0;
    while i < pliki.len()
        invariant
            i <= pliki@.len(),
            model@ == with_files(old(model)@, uploads_view(pliki@).take(i as int)),
            strings_view(pominiete@) == skipped_names(uploads_view(pliki@).take(i as int)),
            forall|k: int|
                0 <= k < i && kind_for(str_lowercase(pliki@[k].0@)) == RodzajPlikuModelu::Siatka
                    && all_ascii(#[trigger] pliki@[k].1@) ==> is_lod_level_ascii(pliki@[k].1@, lod_level_of(pliki@[k].1@)),
        decreases pliki@.len() - i,
    {
        let (ext, name, path) = &pliki[i];
        proof {
            let now = uploads_view(pliki@).take(i + 1);
            assert(now.drop_last() =~= uploads_view(pliki@).take(i as int));
            assert(now.last() == (ext@, name@, path@));
        }
        let kind = dodaj_plik_modelu(model, ext.as_str(), name.as_str(), path.clone());
        if kind == RodzajPlikuModelu::Inny {
            pominiete.push(name.clone());
        }
        assert(strings_view(pominiete@) =~= skipped_names(uploads_view(pliki@).take(i + 1)));
        i = i + 1;
    }
    assert(uploads_view(pliki@).take(pliki@.len() as int) =~= uploads_view(pliki@));
    pominiete
}

/// The product id in a request path: a decimal `i64`, else 400.
pub fn id_ze_sciezki(idx: &str) -> (r: Result<i64, crate::status::ApiError>)
    ensures
        match r {
            Ok(id) => crate::parse::parsed(idx@, true, i64::MIN as int, i64::MAX as int) == Some(id as int),
            Err(e) => crate::parse::parsed(idx@, true, i64::MIN as int, i64::MAX as int) is None
                && e.status == crate::status::STATUS_BAD_REQUEST && e.message@ == "Niepoprawny format ID"@,
        },
{
    match crate::parse::parse_i64(idx) {
        Some(id) => Ok(id),
        None => Err(crate::status::ApiError::new(crate::status::STATUS_BAD_REQUEST, "Niepoprawny format ID")),
    }
}

} // verus!
