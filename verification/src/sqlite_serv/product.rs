//! Products of the shop, and partial updates of them. Measures and prices are
//! `f32` values in the service; here each is held by its bit pattern
//! (`f32::to_bits`), which is all that storing and replacing them needs.
use vstd::prelude::*;

verus! {

/// The bit pattern of `1.0f32`, the default texture scale.
pub const ONE_F32_BITS: u32 = 0x3F80_0000;

#[derive(Debug)]
pub struct Product {
    pub id: i64,
    pub name_id: String,
    pub name_pl: String,
    pub name_en: String,
    pub desc_pl: String,
    pub desc_en: String,
    pub wood_qua: u32,
    pub metal_qua: u32,
    pub glass_qua: u32,
    pub plastik_qua: u32,
    pub price: u32,
    pub width: u32,
    pub height: u32,
    pub depth: u32,
    pub texture_scale: u32,
}

/// A product's fields, texts by their characters.
pub struct ProductView {
    pub id: i64,
    pub name_id: Seq<char>,
    pub name_pl: Seq<char>,
    pub name_en: Seq<char>,
    pub desc_pl: Seq<char>,
    pub desc_en: Seq<char>,
    pub wood_qua: u32,
    pub metal_qua: u32,
    pub glass_qua: u32,
    pub plastik_qua: u32,
    pub price: u32,
    pub width: u32,
    pub height: u32,
    pub depth: u32,
    pub texture_scale: u32,
}

impl View for Product {
    type V = ProductView;

    open spec fn view(&self) -> ProductView {
        ProductView {
            id: self.id,
            name_id: self.name_id@,
            name_pl: self.name_pl@,
            name_en: self.name_en@,
            desc_pl: self.desc_pl@,
            desc_en: self.desc_en@,
            wood_qua: self.wood_qua,
            metal_qua: self.metal_qua,
            glass_qua: self.glass_qua,
            plastik_qua: self.plastik_qua,
            price: self.price,
            width: self.width,
            height: self.height,
            depth: self.depth,
            texture_scale: self.texture_scale,
        }
    }
}

/// The product with no data: id 0, empty texts, zero measures and a texture
/// scale of 1.
pub open spec fn blank_product() -> ProductView {
    ProductView {
        id: 0,
        name_id: Seq::empty(),
        name_pl: Seq::empty(),
        name_en: Seq::empty(),
        desc_pl: Seq::empty(),
        desc_en: Seq::empty(),
        wood_qua: 0,
        metal_qua: 0,
        glass_qua: 0,
        plastik_qua: 0,
        price: 0,
        width: 0,
        height: 0,
        depth: 0,
        texture_scale: ONE_F32_BITS,
    }
}

impl Default for Product {
    fn default() -> (r: Product)
        ensures
            r@ == blank_product(),
    {
        Product {
            id: 0,
            name_id: String::new(),
            name_pl: String::new(),
            name_en: String::new(),
            desc_pl: String::new(),
            desc_en: String::new(),
            wood_qua: 0,
            metal_qua: 0,
            glass_qua: 0,
            plastik_qua: 0,
            price: 0,
            width: 0,
            height: 0,
            depth: 0,
            texture_scale: ONE_F32_BITS,
        }
    }
}

/// The fields to change in a product; a field left `None` keeps its value.
#[derive(Debug)]
pub struct ProductUpdate {
    pub name_id: Option<String>,
    pub name_pl: Option<String>,
    pub name_en: Option<String>,
    pub desc_pl: Option<String>,
    pub desc_en: Option<String>,
    pub wood_qua: Option<u32>,
    pub metal_qua: Option<u32>,
    pub glass_qua: Option<u32>,
    pub price: Option<u32>,
    pub width: Option<u32>,
    pub height: Option<u32>,
    pub depth: Option<u32>,
    pub plastik_qua: Option<u32>,
    pub texture_scale: Option<u32>,
}

pub struct ProductUpdateView {
    pub name_id: Option<Seq<char>>,
    pub name_pl: Option<Seq<char>>,
    pub name_en: Option<Seq<char>>,
    pub desc_pl: Option<Seq<char>>,
    pub desc_en: Option<Seq<char>>,
    pub wood_qua: Option<u32>,
    pub metal_qua: Option<u32>,
    pub glass_qua: Option<u32>,
    pub price: Option<u32>,
    pub width: Option<u32>,
    pub height: Option<u32>,
    pub depth: Option<u32>,
    pub plastik_qua: Option<u32>,
    pub texture_scale: Option<u32>,
}

pub open spec fn text_view(o: Option<String>) -> Option<Seq<char>> {
    match o {
        Some(s) => Some(s@),
        None => None,
    }
}

impl View for ProductUpdate {
    type V = ProductUpdateView;

    open spec fn view(&self) -> ProductUpdateView {
        ProductUpdateView {
            name_id: text_view(self.name_id),
            name_pl: text_view(self.name_pl),
            name_en: text_view(self.name_en),
            desc_pl: text_view(self.desc_pl),
            desc_en: text_view(self.desc_en),
            wood_qua: self.wood_qua,
            metal_qua: self.metal_qua,
            glass_qua: self.glass_qua,
            price: self.price,
            width: self.width,
            height: self.height,
            depth: self.depth,
            plastik_qua: self.plastik_qua,
            texture_scale: self.texture_scale,
        }
    }
}

/// The new value where one is given, else the current one.
pub open spec fn pick<T>(change: Option<T>, current: T) -> T {
    match change {
        Some(v) => v,
        None => current,
    }
}

/// A product with an update applied: each field given in the update
/// replaces the product's; the id never changes.
pub open spec fn updated(p: ProductView, u: ProductUpdateView) -> ProductView {
    ProductView {
        id: p.id,
        name_id: pick(u.name_id, p.name_id),
        name_pl: pick(u.name_pl, p.name_pl),
        name_en: pick(u.name_en, p.name_en),
        desc_pl: pick(u.desc_pl, p.desc_pl),
        desc_en: pick(u.desc_en, p.desc_en),
        wood_qua: pick(u.wood_qua, p.wood_qua),
        metal_qua: pick(u.metal_qua, p.metal_qua),
        glass_qua: pick(u.glass_qua, p.glass_qua),
        plastik_qua: pick(u.plastik_qua, p.plastik_qua),
        price: pick(u.price, p.price),
        width: pick(u.width, p.width),
        height: pick(u.height, p.height),
        depth: pick(u.depth, p.depth),
        texture_scale: pick(u.texture_scale, p.texture_scale),
    }
}

/// An update that gives no field.
pub open spec fn no_change() -> ProductUpdateView {
    ProductUpdateView {
        name_id: None,
        name_pl: None,
        name_en: None,
        desc_pl: None,
        desc_en: None,
        wood_qua: None,
        metal_qua: None,
        glass_qua: None,
        price: None,
        width: None,
        height: None,
        depth: None,
        plastik_qua: None,
        texture_scale: None,
    }
}

/// An update that gives no field leaves a product as it was.
pub proof fn lemma_update_without_fields(p: ProductView)
    ensures
        updated(p, no_change()) == p,
{
}

/// Applying the same update twice is applying it once.
pub proof fn lemma_update_idempotent(p: ProductView, u: ProductUpdateView)
    ensures
        updated(updated(p, u), u) == updated(p, u),
{
}

impl Product {
    /// A blank product, to be filled in by the `add_*` builders.
    pub fn new() -> (r: Product)
        ensures
            r@ == blank_product(),
    {
        Product::default()
    }

    pub fn add_name_id(self, val: String) -> (r: Product)
        ensures
            r@ == (ProductView { name_id: val@, ..self@ }),
    {
        let mut p = self;
        p.name_id = val;
        p
    }

    pub fn add_name_pl(self, val: String) -> (r: Product)
        ensures
            r@ == (ProductView { name_pl: val@, ..self@ }),
    {
        let mut p = self;
        p.name_pl = val;
        p
    }

    pub fn add_name_en(self, val: String) -> (r: Product)
        ensures
            r@ == (ProductView { name_en: val@, ..self@ }),
    {
        let mut p = self;
        p.name_en = val;
        p
    }

    pub fn add_desc_pl(self, val: String) -> (r: Product)
        ensures
            r@ == (ProductView { desc_pl: val@, ..self@ }),
    {
        let mut p = self;
        p.desc_pl = val;
        p
    }

    pub fn add_desc_en(self, val: String) -> (r: Product)
        ensures
            r@ == (ProductView { desc_en: val@, ..self@ }),
    {
        let mut p = self;
        p.desc_en = val;
        p
    }

    pub fn add_wood_qua(self, val: u32) -> (r: Product)
        ensures
            r@ == (ProductView { wood_qua: val, ..self@ }),
    {
        let mut p = self;
        p.wood_qua = val;
        p
    }

    pub fn add_metal_qua(self, val: u32) -> (r: Product)
        ensures
            r@ == (ProductView { metal_qua: val, ..self@ }),
    {
        let mut p = self;
        p.metal_qua = val;
        p
    }

    pub fn add_glass_qua(self, val: u32) -> (r: Product)
        ensures
            r@ == (ProductView { glass_qua: val, ..self@ }),
    {
        let mut p = self;
        p.glass_qua = val;
        p
    }

    pub fn add_plastik_qua(self, val: u32) -> (r: Product)
        ensures
            r@ == (ProductView { plastik_qua: val, ..self@ }),
    {
        let mut p = self;
        p.plastik_qua = val;
        p
    }

    pub fn add_price(self, val: u32) -> (r: Product)
        ensures
            r@ == (ProductView { price: val, ..self@ }),
    {
        let mut p = self;
        p.price = val;
        p
    }

    pub fn add_width(self, val: u32) -> (r: Product)
        ensures
            r@ == (ProductView { width: val, ..self@ }),
    {
        let mut p = self;
        p.width = val;
        p
    }

    pub fn add_height(self, val: u32) -> (r: Product)
        ensures
            r@ == (ProductView { height: val, ..self@ }),
    {
        let mut p = self;
        p.height = val;
        p
    }

    pub fn add_depth(self, val: u32) -> (r: Product)
        ensures
            r@ == (ProductView { depth: val, ..self@ }),
    {
        let mut p = self;
        p.depth = val;
        p
    }

    pub fn add_texture_scale(self, val: u32) -> (r: Product)
        ensures
            r@ == (ProductView { texture_scale: val, ..self@ }),
    {
        let mut p = self;
        p.texture_scale = val;
        p
    }

    /// Applies an update: every field it gives replaces the product's.
    pub fn update(&mut self, change: ProductUpdate)
        ensures
            final(self)@ == updated(old(self)@, change@),
    {
        let ProductUpdate {
            name_id,
            name_pl,
            name_en,
            desc_pl,
            desc_en,
            wood_qua,
            metal_qua,
            glass_qua,
            price,
            width,
            height,
            depth,
            plastik_qua,
            texture_scale,
        } = change;
        if let Some(val) = name_id { self.name_id = val; }
        if let Some(val) = name_pl { self.name_pl = val; }
        if let Some(val) = name_en { self.name_en = val; }
        if let Some(val) = desc_pl { self.desc_pl = val; }
        if let Some(val) = desc_en { self.desc_en = val; }
        if let Some(val) = wood_qua { self.wood_qua = val; }
        if let Some(val) = metal_qua { self.metal_qua = val; }
        if let Some(val) = glass_qua { self.glass_qua = val; }
        if let Some(val) = plastik_qua { self.plastik_qua = val; }
        if let Some(val) = price { self.price = val; }
        if let Some(val) = width { self.width = val; }
        if let Some(val) = height { self.height = val; }
        if let Some(val) = depth { self.depth = val; }
        if let Some(val) = texture_scale { self.texture_scale = val; }
    }
}

/// A product's id and text id, as listed for the front-end.
#[derive(Debug)]
pub struct ProductMapping {
    pub id: i64,
    pub name_id: String,
}

} // verus!
