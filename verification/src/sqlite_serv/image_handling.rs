//! Queued product images: which folder a file belongs to, which resolutions
//! are recorded, and the ids that new products get.
use vstd::prelude::*;
use crate::parse::{lemma_decimal_reads_back, parse_i32, parsed};
use crate::avif_image_handler::save::avif_sizes;
use crate::text::{decimal, concat_text, lemma_split_nonempty, split_at, split_at_seps, strings_view, same_text};

verus! {

/// The folder (and product text id) of an image: the first two '_'-pieces of
/// its name, joined by '_' ("stol_dab_1_512" gives "stol_dab").
pub open spec fn folder_of(name: Seq<char>) -> Seq<char> {
    let parts = split_at_seps(name, seq!['_']);
    if parts.len() >= 2 {
        parts[0] + seq!['_'] + parts[1]
    } else {
        parts[0]
    }
}

/// The folder name of an image, as `folder_of` says.
pub fn nazwa_folderu(name: &str) -> (r: String)
    ensures
        r@ == folder_of(name@),
{
    proof {
        lemma_split_nonempty(name@, seq!['_']);
        reveal_strlit("_");
    }
    let mut underscore: Vec<char> = Vec::new();
    underscore.push('_');
    assert(underscore@ =~= seq!['_']);
    let parts = split_at(name, &underscore);
    assert(strings_view(parts@).len() == parts@.len());
    assert(parts@[0]@ == strings_view(parts@)[0]);
    if parts.len() >= 2 {
        assert(parts@[1]@ == strings_view(parts@)[1]);
        let a = concat_text(parts[0].as_str(), "_");
        assert("_"@ =~= seq!['_']);
        concat_text(a.as_str(), parts[1].as_str())
    } else {
        parts[0].clone()
    }
}

/// The resolutions in which images are recorded.
pub open spec fn recorded_resolution(r: int) -> bool {
    r == 16 || r == 32 || r == 64 || r == 128 || r == 256 || r == 512 || r == 1024 || r == 2048
}

/// What becomes of a converted image file.
#[derive(Clone, Copy, Debug, PartialEq, Eq, Structural)]
pub enum OcenaRozdzielczosci {
    /// Its name has fewer than four '_'-pieces: it is passed over.
    Pominiety,
    /// It is recorded, at this resolution.
    Obslugiwana(i32),
    /// Its resolution (0 where it is not a number) is not one that is recorded.
    Nieobslugiwana(i32),
}

/// The resolution written in a file's name: the fourth '_'-piece up to its
/// first '.', read as an `i32`, 0 where it is not one.
pub open spec fn resolution_in(file_name: Seq<char>) -> int {
    let parts = split_at_seps(file_name, seq!['_']);
    let text = split_at_seps(parts[3], seq!['.'])[0];
    match parsed(text, true, i32::MIN as int, i32::MAX as int) {
        Some(v) => v,
        None => 0,
    }
}

/// What becomes of a converted image file with this name.
pub open spec fn resolution_verdict(file_name: Seq<char>) -> OcenaRozdzielczosci {
    if split_at_seps(file_name, seq!['_']).len() < 4 {
        OcenaRozdzielczosci::Pominiety
    } else if recorded_resolution(resolution_in(file_name)) {
        OcenaRozdzielczosci::Obslugiwana(resolution_in(file_name) as i32)
    } else {
        OcenaRozdzielczosci::Nieobslugiwana(resolution_in(file_name) as i32)
    }
}

/// The piece of a file name that carries its resolution: the fourth
/// '_'-piece, up to its first '.'.
pub open spec fn resolution_text(file_name: Seq<char>) -> Seq<char> {
    split_at_seps(split_at_seps(file_name, seq!['_'])[3], seq!['.'])[0]
}

/// Resolution law: a converted file that names one of the sizes the
/// service saves images in (2048, 1024, ..., 16) is recorded at that size.
pub proof fn lemma_saved_sizes_recorded(file_name: Seq<char>, k: int)
    requires
        0 <= k < avif_sizes().len(),
        split_at_seps(file_name, seq!['_']).len() >= 4,
        resolution_text(file_name) == decimal(avif_sizes()[k] as nat),
    ensures
        resolution_verdict(file_name) == OcenaRozdzielczosci::Obslugiwana(avif_sizes()[k] as i32),
{
    lemma_decimal_reads_back(avif_sizes()[k] as nat, true);
}

/// Resolution law: a converted file that names any other number in the
/// range of `i32` is not recorded, and the verdict carries that number.
pub proof fn lemma_other_sizes_not_recorded(file_name: Seq<char>, v: nat)
    requires
        v <= i32::MAX,
        forall|k: int| 0 <= k < avif_sizes().len() ==> avif_sizes()[k] != v,
        split_at_seps(file_name, seq!['_']).len() >= 4,
        resolution_text(file_name) == decimal(v),
    ensures
        resolution_verdict(file_name) == OcenaRozdzielczosci::Nieobslugiwana(v as i32),
{
    lemma_decimal_reads_back(v, true);
    assert(avif_sizes()[0] == 2048 && avif_sizes()[1] == 1024 && avif_sizes()[2] == 512);
    assert(avif_sizes()[3] == 256 && avif_sizes()[4] == 128 && avif_sizes()[5] == 64);
    assert(avif_sizes()[6] == 32 && avif_sizes()[7] == 16);
}

/// Resolution law: a file name of fewer than four '_'-pieces is passed over.
pub proof fn lemma_short_names_passed_over(file_name: Seq<char>)
    requires
        split_at_seps(file_name, seq!['_']).len() < 4,
    ensures
        resolution_verdict(file_name) == OcenaRozdzielczosci::Pominiety,
{
}

/// Decides, from its name, whether a converted image file is recorded.
pub fn ocen_rozdzielczosc(file_name: &str) -> (r: OcenaRozdzielczosci)
    ensures
        r == resolution_verdict(file_name@),
{
    let mut underscore: Vec<char> = Vec::new();
    underscore.push('_');
    assert(underscore@ =~= seq!['_']);
    let parts = split_at(file_name, &underscore);
    assert(strings_view(parts@).len() == parts@.len());
    if parts.len() < 4 {
        return OcenaRozdzielczosci::Pominiety;
    }
    assert(parts@[3]@ == strings_view(parts@)[3]);
    proof {
        lemma_split_nonempty(parts@[3]@, seq!['.']);
    }
    let mut dot: Vec<char> = Vec::new();
    dot.push('.');
    assert(dot@ =~= seq!['.']);
    let pieces = split_at(parts[3].as_str(), &dot);
    assert(strings_view(pieces@).len() == pieces@.len());
    assert(pieces@[0]@ == strings_view(pieces@)[0]);
    let value: i32 = match parse_i32(pieces[0].as_str()) {
        Some(v) => v,
        None => 0,
    };
    if value == 16 || value == 32 || value == 64 || value == 128 || value == 256 || value == 512
        || value == 1024 || value == 2048 {
        OcenaRozdzielczosci::Obslugiwana(value)
    } else {
        OcenaRozdzielczosci::Nieobslugiwana(value)
    }
}

/// Product ids are given out in the block from 1 000 000 000 (inclusive)
/// to 2 000 000 000 (exclusive).
pub const ID_BLOCK_START: i64 = 1_000_000_000;

pub const ID_BLOCK_END: i64 = 2_000_000_000;

/// The id for a new product, given the largest id already in the block (as
/// the database reports it): one more than that, or the block's start plus
/// one where the block is empty.
pub fn next_product_id(max_id: Option<i64>) -> (r: i64)
    requires
        match max_id {
            Some(m) => ID_BLOCK_START <= m < ID_BLOCK_END,
            None => true,
        },
    ensures
        r == match max_id {
            Some(m) => m + 1,
            None => ID_BLOCK_START + 1,
        },
        ID_BLOCK_START < r <= ID_BLOCK_END,
{
    match max_id {
        Some(m) => m + 1,
        None => ID_BLOCK_START + 1,
    }
}

/// Whether `s` holds `x` as one of its texts.
fn holds_text(s: &Vec<String>, x: &str) -> (r: bool)
    ensures
        r == strings_view(s@).contains(x@),
{
    let mut i: usize = 0;
    while i < s.len()
        invariant
            i <= s@.len(),
            forall|k: int| 0 <= k < i ==> s@[k]@ != x@,
        decreases s@.len() - i,
    {
        if same_text(s[i].as_str(), x) {
            assert(strings_view(s@)[i as int] == x@);
            return true;
        }
        i = i + 1;
    }
    assert forall|k: int| 0 <= k < strings_view(s@).len() implies strings_view(s@)[k] != x@ by {
        assert(s@[k]@ != x@);
    }
    false
}

/// `x` is the folder of one of the first `n` images.
pub open spec fn folder_among(x: Seq<char>, nazwy: Seq<String>, n: int) -> bool {
    exists|k: int| 0 <= k < n && x == folder_of(#[trigger] nazwy[k]@)
}

/// The folders of the given images, each once, in the order first met.
pub fn unikalne_foldery(nazwy: &Vec<String>) -> (r: Vec<String>)
    ensures
        forall|i: int, j: int| 0 <= i < j < r@.len() ==> #[trigger] r@[i]@ != #[trigger] r@[j]@,
        forall|k: int| 0 <= k < nazwy@.len() ==> strings_view(r@).contains(folder_of(#[trigger] nazwy@[k]@)),
        forall|i: int| 0 <= i < r@.len() ==> folder_among(#[trigger] r@[i]@, nazwy@, nazwy@.len() as int),
{
    let mut out: Vec<String> = Vec::new();
    let mut n: usize = 0;
    while n < nazwy.len()
        invariant
            n <= nazwy@.len(),
            forall|i: int, j: int| 0 <= i < j < out@.len() ==> #[trigger] out@[i]@ != #[trigger] out@[j]@,
            forall|k: int| 0 <= k < n ==> strings_view(out@).contains(folder_of(#[trigger] nazwy@[k]@)),
            forall|i: int| 0 <= i < out@.len() ==> folder_among(#[trigger] out@[i]@, nazwy@, n as int),
        decreases nazwy@.len() - n,
    {
        let folder = nazwa_folderu(nazwy[n].as_str());
        let ghost before = out@;
        if !holds_text(&out, folder.as_str()) {
            out.push(folder);
            proof {
                assert(strings_view(out@) =~= strings_view(before).push(folder@));
                assert forall|i: int| 0 <= i < out@.len() implies folder_among(#[trigger] out@[i]@, nazwy@, n + 1) by {
                    if i == before.len() {
                        assert(out@[i]@ == folder_of(nazwy@[n as int]@));
                    } else {
                        assert(out@[i] == before[i]);
                        assert(folder_among(before[i]@, nazwy@, n as int));
                    }
                }
                assert forall|k: int| 0 <= k < n + 1 implies strings_view(out@).contains(
                    folder_of(#[trigger] nazwy@[k]@)) by {
                    if k == n {
                        assert(strings_view(out@)[before.len() as int] == folder@);
                    } else {
                        let w = choose|w: int| 0 <= w < strings_view(before).len()
                            && strings_view(before)[w] == folder_of(nazwy@[k]@);
                        assert(strings_view(out@)[w] == strings_view(before)[w]);
                    }
                }
            }
        }
        n = n + 1;
    }
    out
}

} // verus!
