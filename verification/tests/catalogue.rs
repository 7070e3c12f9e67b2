use shop_backend::sqlite_serv::odleglosci_mapa::{brak_adresu, parametry_geokodowania};
use shop_backend::assoc_map::AssocMap;
use shop_backend::id_handling::{get_new_id, ModelData, Product as CatalogueProduct, PRODUCT_PREFIX};
use shop_backend::products::CartItem;
use shop_backend::sqlite_serv::db_merge::{
    front_file_url, front_json_url, normalizacja_sciezek_wariantow_na_json, zmiany_sciezek_fot_pod_serwer,
    znajdz_name_id, LokalizacjaNaFrontendzie, ZdjeciaNaSerwerNorm,
};
use shop_backend::sqlite_serv::foto::{get_items_prefix, zbierz_warianty_zdjec, FotoData};
use shop_backend::sqlite_serv::handler::{product_db_error, AddImageRequest, Rozdzielczosci};
use shop_backend::sqlite_serv::image_handling::{
    nazwa_folderu, next_product_id, ocen_rozdzielczosc, unikalne_foldery, OcenaRozdzielczosci,
};
use shop_backend::sqlite_serv::model::{
    dodaj_plik_modelu, id_ze_sciezki, lod_level, rodzaj_pliku, uzupelnij_model, Model, RodzajPlikuModelu,
};
use shop_backend::sqlite_serv::product::{Product, ProductMapping, ProductUpdate, ONE_F32_BITS};
use shop_backend::sqlite_serv::sending_data::{
    content_type, files_upload_url, frontend_server_or_default, json_upload_url, RodzajeDanychJson,
};

fn strings(v: &[&str]) -> Vec<String> {
    v.iter().map(|s| s.to_string()).collect()
}

fn entries(m: AssocMap<AssocMap<String>>) -> Vec<(String, Vec<(String, String)>)> {
    let mut out: Vec<(String, Vec<(String, String)>)> =
        m.into_entries().into_iter().map(|(k, v)| {
            let mut inner = v.into_entries();
            inner.sort();
            (k, inner)
        }).collect();
    out.sort();
    out
}

fn catalogue_product(id: i64) -> CatalogueProduct {
    CatalogueProduct {
        id,
        name_id: format!("p{id}"),
        name: "Stół".to_string(),
        price: 0,
        vat: 0,
        description_pl: String::new(),
        description_en: String::new(),
        model_3d: None,
        texture_ao: None,
        texture_normal: None,
        width: 0,
        height: 0,
        depth: 0,
    }
}

#[test]
fn front_locations() {
    assert_eq!(LokalizacjaNaFrontendzie::Images.get_localisation(), "data/img_front/");
    assert_eq!(LokalizacjaNaFrontendzie::Data.get_localisation(), "data/");
    let d = format!("{:?}", ZdjeciaNaSerwerNorm::default());
    assert!(d.contains("r16: \"\"") && d.contains("r2048: \"\""));
}

#[test]
fn server_paths() {
    let out = zmiany_sciezek_fot_pod_serwer(strings(&[
        "src/api/products/stol/images/test_1/test_1_1_256.avif",
        "bez/znacznika.avif",
        "images/a/images/b.avif",
    ]));
    assert_eq!(out, strings(&["../data/img_front/test_1/test_1_1_256.avif", "bez/znacznika.avif", "../data/img_front/a/images/b.avif"]));
}

#[test]
fn variants_do_not_depend_on_order() {
    let paths = ["x/a_1_16.avif", "x/a_1_32.avif", "x/a_2_16.avif", "x/logo.avif"];
    let forward = entries(normalizacja_sciezek_wariantow_na_json(strings(&paths)));
    let mut reversed = strings(&paths);
    reversed.reverse();
    assert_eq!(entries(normalizacja_sciezek_wariantow_na_json(reversed)), forward);
    assert_eq!(forward, vec![
        ("var_1".to_string(), vec![
            ("16".to_string(), "x/a_1_16.avif".to_string()),
            ("32".to_string(), "x/a_1_32.avif".to_string()),
        ]),
        ("var_2".to_string(), vec![("16".to_string(), "x/a_2_16.avif".to_string())]),
    ]);
}

#[test]
fn variants_from_paths() {
    let m = normalizacja_sciezek_wariantow_na_json(strings(&[
        "x/test_1_3_16.avif",
        "x/test_1_3_32.avif",
        "x/test_1_1_16.avif",
        "y/test_1_1_16.avif",
        "x/bez.avif",
    ]));
    assert_eq!(entries(m), vec![
        ("var_1".to_string(), vec![("16".to_string(), "y/test_1_1_16.avif".to_string())]),
        ("var_3".to_string(), vec![
            ("16".to_string(), "x/test_1_3_16.avif".to_string()),
            ("32".to_string(), "x/test_1_3_32.avif".to_string()),
        ]),
    ]);
}

#[test]
fn converted_files_by_variant() {
    let files = vec![
        ("stol_1_2_512.avif".to_string(), "/i/stol_1_2_512.avif".to_string()),
        ("logo.avif".to_string(), "/i/logo.avif".to_string()),
    ];
    let m = zbierz_warianty_zdjec(&files);
    assert_eq!(entries(m), vec![
        ("default".to_string(), vec![("logo".to_string(), "/i/logo.avif".to_string())]),
        ("var_2".to_string(), vec![("512".to_string(), "/i/stol_1_2_512.avif".to_string())]),
    ]);
    let f = FotoData { product_id: 3, warianty_zdjec: AssocMap::new() };
    assert_eq!(f.product_id, 3);
    let loc = "/srv/files".to_string();
    assert_eq!(get_items_prefix(Some(&loc)), "/srv/files");
}

#[test]
fn later_converted_file_takes_the_place() {
    let files = vec![
        ("stol_2_64.avif".to_string(), "/a/stol_2_64.avif".to_string()),
        ("krzeslo_2_64.png.avif".to_string(), "/b/krzeslo_2_64.png.avif".to_string()),
        ("stol_2_128.avif".to_string(), "/a/stol_2_128.avif".to_string()),
    ];
    let m = zbierz_warianty_zdjec(&files);
    assert_eq!(entries(m), vec![
        ("var_2".to_string(), vec![
            ("128".to_string(), "/a/stol_2_128.avif".to_string()),
            ("64".to_string(), "/b/krzeslo_2_64.png.avif".to_string()),
        ]),
    ]);
}

#[test]
fn frontend_addresses() {
    assert_eq!(RodzajeDanychJson::Models.str(), "models");
    assert_eq!(RodzajeDanychJson::ImgFront.str(), "img");
    assert_eq!(frontend_server_or_default(None), "https://localhost:8444/");
    assert_eq!(frontend_server_or_default(Some("http://f/".to_string())), "http://f/");
    assert_eq!(files_upload_url("http://f/", "stol"), "http://f/api/produkty/stol");
    assert_eq!(json_upload_url("http://f/", RodzajeDanychJson::Models, "stol"), "http://f/api/upload/json/models/stol");
    assert_eq!(front_json_url("http://f/", LokalizacjaNaFrontendzie::Images, "stol", "dane"), "http://f/data/img_front/stol/dane.json");
    assert_eq!(front_file_url("http://f/", LokalizacjaNaFrontendzie::Data, "stol", "a/b/c_16.avif"), "http://f/data/stol/c_16.avif");
    assert_eq!(content_type("GLB"), "model/gltf-binary");
    assert_eq!(content_type("jpeg"), "image/jpeg");
    assert_eq!(content_type("dds"), "image/vnd-ms.dds");
    assert_eq!(content_type("txt"), "application/octet-stream");
    assert_eq!(znajdz_name_id(&vec![(1, "a".to_string()), (2, "b".to_string()), (2, "c".to_string())], 2), Some("b".to_string()));
    assert_eq!(znajdz_name_id(&vec![(1, "a".to_string())], 5), None);
}

#[test]
fn lod_levels() {
    assert_eq!(lod_level("krzeslo_lod1-v2.glb"), "LOD1");
    assert_eq!(lod_level("krzeslo.LOD3.glb"), "LOD3");
    assert_eq!(lod_level("krzeslo.glb"), "LOD0");
    assert_eq!(lod_level("krzeslo_LOD1_wersja2.glb"), "LOD1");
    assert_eq!(lod_level("stol.glb"), "LOD0");
    assert_eq!(lod_level("szafa-lOd4x.glb"), "LOD4X");
    assert_eq!(lod_level("lodowka_LOD2.glb"), "LODOWKA");
    assert_eq!(rodzaj_pliku("PNG"), RodzajPlikuModelu::Tekstura);
    assert_eq!(rodzaj_pliku("glb"), RodzajPlikuModelu::Siatka);
    assert_eq!(rodzaj_pliku("obj"), RodzajPlikuModelu::Inny);
    assert_eq!(rodzaj_pliku("Glb"), RodzajPlikuModelu::Siatka);
    assert_eq!(rodzaj_pliku("WebP"), RodzajPlikuModelu::Tekstura);
}

#[test]
fn model_from_uploads() {
    let mut m = Model::or_empty(None, 12, None);
    assert_eq!((m.product_id, f32::from_bits(m.texture_scale)), (12, 1.0));
    let scaled = Model::or_empty(None, 12, Some(2.5f32.to_bits()));
    assert_eq!(f32::from_bits(scaled.texture_scale), 2.5);
    let files = vec![
        ("glb".to_string(), "stol_LOD0.glb".to_string(), "p/stol_LOD0.glb".to_string()),
        ("png".to_string(), "ao.png".to_string(), "p/ao.png".to_string()),
        ("GLB".to_string(), "stol_lod1.glb".to_string(), "p/stol_lod1.glb".to_string()),
        ("txt".to_string(), "notes.txt".to_string(), "p/notes.txt".to_string()),
        ("glb".to_string(), "stol_LOD0_b.glb".to_string(), "p/stol_LOD0_b.glb".to_string()),
    ];
    let skipped = uzupelnij_model(&mut m, &files);
    assert_eq!(skipped, strings(&["notes.txt"]));
    let mut other = Model::or_empty(None, 3, None);
    let odd = vec![
        ("obj".to_string(), "a.obj".to_string(), "p/a.obj".to_string()),
        ("jpg".to_string(), "b.jpg".to_string(), "p/b.jpg".to_string()),
        ("".to_string(), "c".to_string(), "p/c".to_string()),
    ];
    assert_eq!(uzupelnij_model(&mut other, &odd), strings(&["a.obj", "c"]));
    assert_eq!(m.texture_ao.as_deref(), Some("p/ao.png"));
    assert_eq!(m.model.get("LOD0").map(|s| s.as_str()), Some("p/stol_LOD0_b.glb"));
    assert_eq!(m.model.get("LOD1").map(|s| s.as_str()), Some("p/stol_lod1.glb"));
    assert_eq!(m.model.len(), 2);
    let k = dodaj_plik_modelu(&mut m, "webp", "t.webp", "p/t.webp".to_string());
    assert_eq!(k, RodzajPlikuModelu::Tekstura);
    assert_eq!(m.texture_ao.as_deref(), Some("p/t.webp"));
    assert_eq!(id_ze_sciezki("17").unwrap(), 17);
    let e = id_ze_sciezki("x17").unwrap_err();
    assert_eq!((e.status, e.message.as_str()), (400, "Niepoprawny format ID"));
}

#[test]
fn products_update_and_build() {
    let p = Product::default();
    assert_eq!((p.id, p.texture_scale, p.price), (0, ONE_F32_BITS, 0));
    assert_eq!(ONE_F32_BITS, 1.0f32.to_bits());
    let p = Product::new().add_name_id("stol".to_string()).add_price(12.5f32.to_bits()).add_width(3);
    assert_eq!((p.name_id.as_str(), f32::from_bits(p.price), p.width), ("stol", 12.5, 3));
    let change = || ProductUpdate {
        name_id: None, name_pl: Some("Stół".to_string()), name_en: None, desc_pl: None, desc_en: None,
        wood_qua: Some(2), metal_qua: None, glass_qua: None, price: None, width: None, height: None,
        depth: Some(9), plastik_qua: None, texture_scale: None,
    };
    let mut q = Product::new().add_name_id("stol".to_string()).add_width(3);
    q.update(change());
    assert_eq!((q.name_id.as_str(), q.name_pl.as_str(), q.wood_qua, q.width, q.depth), ("stol", "Stół", 2, 3, 9));
    q.update(change());
    assert_eq!((q.name_pl.as_str(), q.wood_qua, q.depth), ("Stół", 2, 9));
    let none = ProductUpdate {
        name_id: None, name_pl: None, name_en: None, desc_pl: None, desc_en: None, wood_qua: None,
        metal_qua: None, glass_qua: None, price: None, width: None, height: None, depth: None,
        plastik_qua: None, texture_scale: None,
    };
    q.update(none);
    assert_eq!((q.name_pl.as_str(), q.width), ("Stół", 3));
    let m = ProductMapping { id: 1, name_id: "a".to_string() };
    assert_eq!(m.id, 1);
    let e = product_db_error(true, "x".to_string());
    assert_eq!((e.status, e.message.as_str()), (404, "Product not found"));
    assert_eq!(product_db_error(false, "zepsute".to_string()).status, 500);
}

#[test]
fn image_files_and_ids() {
    assert_eq!(nazwa_folderu("stol_dab_1_512"), "stol_dab");
    assert_eq!(nazwa_folderu("stol"), "stol");
    assert_eq!(ocen_rozdzielczosc("stol_dab_1_512.avif"), OcenaRozdzielczosci::Obslugiwana(512));
    assert_eq!(ocen_rozdzielczosc("stol_dab_1_500.avif"), OcenaRozdzielczosci::Nieobslugiwana(500));
    assert_eq!(ocen_rozdzielczosc("stol_dab_1_x.avif"), OcenaRozdzielczosci::Nieobslugiwana(0));
    assert_eq!(ocen_rozdzielczosc("stol_1_512.avif"), OcenaRozdzielczosci::Pominiety);
    assert_eq!(next_product_id(None), 1_000_000_001);
    assert_eq!(next_product_id(Some(1_000_000_041)), 1_000_000_042);
    assert_eq!(unikalne_foldery(&strings(&["a_b_1", "a_b_2", "c_d_1", "a_b"])), strings(&["a_b", "c_d"]));
    let r = AddImageRequest { resolution: Rozdzielczosci::R256, path: "p".to_string() };
    assert_eq!(r.resolution.value(), 256);
    assert_eq!(Rozdzielczosci::from_value(1024), Some(Rozdzielczosci::R1024));
    assert_eq!(Rozdzielczosci::from_value(100), None);
    let c = CartItem { product_id: 1, quantity: 2 };
    assert_eq!(c.quantity, 2);
}

#[test]
fn new_catalogue_ids() {
    let mut list = vec![catalogue_product(101_000_000_005), catalogue_product(7)];
    get_new_id(catalogue_product(0), &mut list).unwrap();
    assert_eq!(list.len(), 3);
    assert_eq!(list[2].id, 101_000_000_006);
    let mut empty: Vec<CatalogueProduct> = vec![];
    get_new_id(catalogue_product(0), &mut empty).unwrap();
    assert_eq!(empty[0].id, PRODUCT_PREFIX as i64 * 1_000_000_000 + 1);
    let mut replace = vec![catalogue_product(7)];
    let mut changed = catalogue_product(7);
    changed.name = "Krzesło".to_string();
    get_new_id(changed, &mut replace).unwrap();
    assert_eq!((replace.len(), replace[0].name.as_str()), (1, "Krzesło"));
    let e = get_new_id(catalogue_product(8), &mut replace).unwrap_err();
    assert_eq!((e.status, e.message.as_str()), (404, "Produkt o podanym ID nie istnieje w bazie"));
    let mut models: Vec<ModelData> = vec![];
    let m = ModelData { name: "m".into(), path: "p".into(), uid: 0, texture_ao: String::new(), texture_normal: String::new() };
    get_new_id(m, &mut models).unwrap();
    assert_eq!(models[0].uid, 102_000_000_001);
}

#[test]
fn geocoding_request() {
    let p = parametry_geokodowania("Długa 1", "Rybnik", "44-200");
    assert_eq!(p[0], ("street".to_string(), "Długa 1".to_string()));
    assert_eq!(p[3], ("country".to_string(), "Poland".to_string()));
    assert_eq!(p.len(), 6);
    assert_eq!(brak_adresu("Długa 1", "Rybnik", "44-200"), "Nie udało się odnaleźć adresu: ul. Długa 1, 44-200 Rybnik");
}
