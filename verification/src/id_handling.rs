//! Catalogue entries kept in JSON lists, and the numbering of new entries.
//!
//! Each kind of entry numbers its items in a block of its own: an entry whose
//! kind has the prefix `p` gets ids from `p * 1_000_000_000 + 1` upwards.
use vstd::prelude::*;
use crate::status::{ApiError, STATUS_NOT_FOUND};

verus! {

/// Width of the block of ids that one prefix owns.
pub const ID_BLOCK: i64 = 1_000_000_000;

/// An entry of a JSON catalogue list, numbered within the block of its kind.
pub trait ElementyJson: Sized {
    /// The entry's id.
    spec fn id_of(&self) -> i64;

    /// The prefix of the entry's kind.
    spec fn prefix_of(&self) -> u8;

    /// The same entry under another id.
    spec fn with_id(&self, id: i64) -> Self;

    proof fn lemma_with_id(&self, id: i64)
        ensures
            self.with_id(id).id_of() == id,
            self.with_id(id).prefix_of() == self.prefix_of(),
    ;

    fn get_id(&self) -> (r: i64)
        ensures
            r == self.id_of(),
    ;

    fn get_value(&self) -> (r: u8)
        ensures
            r == self.prefix_of(),
    ;

    fn set_id(&mut self, id: i64)
        ensures
            *final(self) == old(self).with_id(id),
    ;
}

/// A product of the JSON catalogue. Each `f32` is held as its IEEE-754 bit
/// pattern, which the catalogue only stores and hands back.
#[derive(Debug, Clone)]
pub struct Product {
    pub id: i64,
    pub name_id: String,
    pub name: String,
    /// Bits of the `f32` price.
    pub price: u32,
    /// Bits of the `f32` VAT rate.
    pub vat: u32,
    pub description_pl: String,
    pub description_en: String,
    pub model_3d: Option<String>,
    pub texture_ao: Option<String>,
    pub texture_normal: Option<String>,
    /// Bits of the `f32` width.
    pub width: u32,
    /// Bits of the `f32` height.
    pub height: u32,
    /// Bits of the `f32` depth.
    pub depth: u32,
}

/// A 3D model of the JSON catalogue.
#[derive(Debug, Clone)]
pub struct ModelData {
    pub name: String,
    pub path: String,
    pub uid: i64,
    pub texture_ao: String,
    pub texture_normal: String,
}

/// Prefix of the products' block of ids.
pub const PRODUCT_PREFIX: u8 = 101;

/// Prefix of the models' block of ids.
pub const MODEL_PREFIX: u8 = 102;

impl ElementyJson for Product {
    open spec fn id_of(&self) -> i64 {
        self.id
    }

    open spec fn prefix_of(&self) -> u8 {
        PRODUCT_PREFIX
    }

    open spec fn with_id(&self, id: i64) -> Self {
        Product { id, ..*self }
    }

    proof fn lemma_with_id(&self, id: i64) {
    }

    fn get_id(&self) -> (r: i64) {
        self.id
    }

    fn get_value(&self) -> (r: u8) {
        PRODUCT_PREFIX
    }

    fn set_id(&mut self, id: i64) {
        self.id = id
    }
}

impl ElementyJson for ModelData {
    open spec fn id_of(&self) -> i64 {
        self.uid
    }

    open spec fn prefix_of(&self) -> u8 {
        MODEL_PREFIX
    }

    open spec fn with_id(&self, id: i64) -> Self {
        ModelData { uid: id, ..*self }
    }

    proof fn lemma_with_id(&self, id: i64) {
    }

    fn get_id(&self) -> (r: i64) {
        self.uid
    }

    fn get_value(&self) -> (r: u8) {
        MODEL_PREFIX
    }

    fn set_id(&mut self, id: i64) {
        self.uid = id
    }
}

/// The ids of a list of entries, in order.
pub open spec fn ids_of<T: ElementyJson>(s: Seq<T>) -> Seq<i64> {
    s.map_values(|x: T| x.id_of())
}

/// `id` lies in the block of prefix `p`: `id / 1_000_000_000 == p`, the
/// division rounding toward zero.
pub open spec fn in_block(id: int, p: int) -> bool {
    if p == 0 {
        -ID_BLOCK < id < ID_BLOCK
    } else if p > 0 {
        p * ID_BLOCK <= id < (p + 1) * ID_BLOCK
    } else {
        (p - 1) * ID_BLOCK < id <= p * ID_BLOCK
    }
}

/// The largest id of block `p` among `ids`, if there is one.
pub open spec fn block_max(ids: Seq<i64>, p: int) -> Option<int>
    decreases ids.len(),
{
    if ids.len() == 0 {
        None
    } else {
        let rest = block_max(ids.drop_last(), p);
        let x = ids.last() as int;
        if in_block(x, p) {
            match rest {
                Some(m) => Some(if x > m { x } else { m }),
                None => Some(x),
            }
        } else {
            rest
        }
    }
}

/// The id that a new entry of prefix `p` receives: one past the largest id of
/// its block, or the first id of the block when the block is empty.
pub open spec fn fresh_id(ids: Seq<i64>, p: int) -> int {
    match block_max(ids, p) {
        Some(m) => m + 1,
        None => p * ID_BLOCK + 1,
    }
}

/// The result of `get_new_id` when the entry carries id 0: the entry, under its
/// fresh id, is appended.
pub open spec fn appended_with_fresh_id<T: ElementyJson>(s: Seq<T>, typ: T) -> Seq<T> {
    s.push(typ.with_id(fresh_id(ids_of(s), typ.prefix_of() as int) as i64))
}

/// Every id in `ids` of block `p` is at most the block's maximum, which is an
/// id of the block found in `ids`.
pub proof fn lemma_block_max(ids: Seq<i64>, p: int)
    ensures
        match block_max(ids, p) {
            Some(m) => {
                &&& in_block(m, p)
                &&& exists|k: int| 0 <= k < ids.len() && ids[k] == m
                &&& forall|k: int| 0 <= k < ids.len() && in_block(ids[k] as int, p) ==> ids[k] <= m
            },
            None => forall|k: int| 0 <= k < ids.len() ==> !in_block(ids[k] as int, p),
        },
    decreases ids.len(),
{
    if ids.len() > 0 {
        let init = ids.drop_last();
        lemma_block_max(init, p);
        assert forall|k: int| 0 <= k < ids.len() - 1 implies ids[k] == init[k] by {}
        match block_max(init, p) {
            Some(m) => {
                let k0 = choose|k: int| 0 <= k < init.len() && init[k] == m;
                assert(ids[k0] == m);
            },
            None => {},
        }
    }
}

/// Numbering law: the id handed to a new entry is larger than every id of its
/// block, and, unless it runs past the end of its block, no entry of the list
/// carries it already.
pub proof fn lemma_fresh_id_is_unused(ids: Seq<i64>, p: int)
    requires
        0 <= p <= 255,
    ensures
        forall|k: int| 0 <= k < ids.len() && in_block(ids[k] as int, p) ==> ids[k] < fresh_id(ids, p),
        in_block(fresh_id(ids, p), p) ==> !ids.contains(fresh_id(ids, p) as i64),
        i64::MIN <= fresh_id(ids, p) <= i64::MAX,
{
    lemma_block_max(ids, p);
    let f = fresh_id(ids, p);
    if in_block(f, p) {
        if ids.contains(f as i64) {
            let k = choose|k: int| 0 <= k < ids.len() && ids[k] == f as i64;
            assert(in_block(ids[k] as int, p));
        }
    }
}

proof fn lemma_block_max_step(ids: Seq<i64>, i: int, p: int)
    requires
        0 <= i < ids.len(),
    ensures
        block_max(ids.take(i + 1), p) == (if in_block(ids[i] as int, p) {
            match block_max(ids.take(i), p) {
                Some(m) => Some(if ids[i] > m { ids[i] as int } else { m }),
                None => Some(ids[i] as int),
            }
        } else {
            block_max(ids.take(i), p)
        }),
{
    assert(ids.take(i + 1).drop_last() =~= ids.take(i));
}

/// The position of the first entry that carries `wanted`, if any.
fn position_of_id<T: ElementyJson>(produkty: &Vec<T>, wanted: i64) -> (r: Option<usize>)
    ensures
        match r {
            Some(k) => k < produkty@.len() && produkty@[k as int].id_of() == wanted
                && forall|j: int| 0 <= j < k ==> produkty@[j].id_of() != wanted,
            None => forall|j: int| 0 <= j < produkty@.len() ==> produkty@[j].id_of() != wanted,
        },
{
    let mut i: usize = 0;
    while i < produkty.len()
        invariant
            i <= produkty@.len(),
            forall|j: int| 0 <= j < i ==> produkty@[j].id_of() != wanted,
        decreases produkty@.len() - i,
    {
        if produkty[i].get_id() == wanted {
            return Some(i);
        }
        i = i + 1;
    }
    None
}

/// The id that a new entry of prefix `prefix` receives in `produkty`.
fn next_free_id<T: ElementyJson>(produkty: &Vec<T>, prefix: u8) -> (r: i64)
    ensures
        r == fresh_id(ids_of(produkty@), prefix as int),
{
    let ghost ids = ids_of(produkty@);
    let p: i64 = prefix as i64;
    let base_id: i64 = p * ID_BLOCK;
    let mut best: Option<i64> = None;
    let mut i: usize = 0;
    while i < produkty.len()
        invariant
            0 <= p <= 255,
            p == prefix,
            base_id == p * ID_BLOCK,
            ids == ids_of(produkty@),
            i <= produkty@.len(),
            best.is_some() == block_max(ids.take(i as int), p as int).is_some(),
            best matches Some(b) ==> block_max(ids.take(i as int), p as int) == Some(b as int),
        decreases produkty@.len() - i,
    {
        let id = produkty[i].get_id();
        proof {
            lemma_block_max_step(ids, i as int, p as int);
        }
        let inside = if p == 0 {
            -ID_BLOCK < id && id < ID_BLOCK
        } else {
            base_id <= id && id < base_id + ID_BLOCK
        };
        if inside {
            best = match best {
                Some(m) => Some(if id > m { id } else { m }),
                None => Some(id),
            };
        }
        i = i + 1;
    }
    proof {
        assert(ids.take(produkty@.len() as int) =~= ids);
        lemma_block_max(ids, p as int);
    }
    match best {
        Some(m) => m + 1,
        None => base_id + 1,
    }
}

/// Where `typ` carries id 0, gives it the next free id of its block and
/// appends it; otherwise replaces the first entry that carries its id, and
/// answers 404 when there is none.
pub fn get_new_id<T: ElementyJson>(typ: T, produkty: &mut Vec<T>) -> (r: Result<(), ApiError>)
    ensures
        typ.id_of() == 0 ==> r is Ok && final(produkty)@ == appended_with_fresh_id(old(produkty)@, typ),
        typ.id_of() != 0 ==> match r {
            Ok(()) => exists|k: int|
                0 <= k < old(produkty)@.len() && #[trigger] old(produkty)@[k].id_of() == typ.id_of()
                    && (forall|j: int| 0 <= j < k ==> old(produkty)@[j].id_of() != typ.id_of())
                    && final(produkty)@ == old(produkty)@.update(k, typ),
            Err(e) => {
                &&& forall|k: int| 0 <= k < old(produkty)@.len() ==> old(produkty)@[k].id_of() != typ.id_of()
                &&& final(produkty)@ == old(produkty)@
                &&& e.status == STATUS_NOT_FOUND
                &&& e.message@ == "Produkt o podanym ID nie istnieje w bazie"@
            },
        },
{
    let mut typ = typ;
    if typ.get_id() == 0 {
        let next_id = next_free_id(produkty, typ.get_value());
        typ.set_id(next_id);
        produkty.push(typ);
        Ok(())
    } else {
        match position_of_id(produkty, typ.get_id()) {
            Some(k) => {
                produkty[k] = typ;
                Ok(())
            },
            None => Err(ApiError::new(STATUS_NOT_FOUND, "Produkt o podanym ID nie istnieje w bazie")),
        }
    }
}

/// No id occurs twice.
pub open spec fn ids_unique(ids: Seq<i64>) -> bool {
    forall|i: int, j: int| 0 <= i < j < ids.len() ==> ids[i] != ids[j]
}

/// Numbering law: appending an entry under its fresh id keeps the ids of a
/// list unique, as long as the fresh id stays inside its block.
pub proof fn lemma_append_keeps_ids_unique<T: ElementyJson>(s: Seq<T>, typ: T)
    requires
        ids_unique(ids_of(s)),
        in_block(fresh_id(ids_of(s), typ.prefix_of() as int), typ.prefix_of() as int),
    ensures
        ids_unique(ids_of(appended_with_fresh_id(s, typ))),
{
    let p = typ.prefix_of() as int;
    let f = fresh_id(ids_of(s), p);
    lemma_fresh_id_is_unused(ids_of(s), p);
    typ.lemma_with_id(f as i64);
    let t = appended_with_fresh_id(s, typ);
    assert forall|i: int, j: int| 0 <= i < j < ids_of(t).len() implies ids_of(t)[i] != ids_of(t)[j] by {
        if j == s.len() {
            assert(ids_of(s)[i] == ids_of(t)[i]);
            assert(ids_of(s).contains(ids_of(s)[i]));
        } else {
            assert(ids_of(s)[i] == ids_of(t)[i]);
            assert(ids_of(s)[j] == ids_of(t)[j]);
        }
    }
}

/// Replacement law: replacing an entry by one that carries the same id leaves
/// the list's ids exactly as they were.
pub proof fn lemma_replace_keeps_ids<T: ElementyJson>(s: Seq<T>, k: int, typ: T)
    requires
        0 <= k < s.len(),
        s[k].id_of() == typ.id_of(),
    ensures
        ids_of(s.update(k, typ)) == ids_of(s),
{
    assert(ids_of(s.update(k, typ)) =~= ids_of(s));
}

} // verus!
