use std::io::Cursor;

use uranx_core::errors::ERRUranXError;
use uranx_core::mesh::{flatten_vertices, uniform_name, usize_decimal, vertex_layout, Mesh, Vertex};
use uranx_core::model::Model;
use uranx_core::texture::{decode_texture, flip_vertical, Texture, TextureCache, TextureKind};

fn b(x: f32) -> u32 {
    x.to_bits()
}

fn vertex(p: [f32; 3]) -> Vertex {
    Vertex {
        position: p.map(b),
        normal: [b(0.0); 3],
        texture_coords: [b(0.0); 2],
    }
}

fn triangle_vertices() -> Vec<Vertex> {
    vec![
        vertex([0.0, 0.0, 0.0]),
        vertex([1.0, 0.0, 0.0]),
        vertex([0.0, 1.0, 0.0]),
    ]
}

#[test]
fn cache_returns_identical_handle_for_same_path() {
    let mut cache = TextureCache::new();
    let first = Texture::new(7, TextureKind::Diffuse);
    let second = Texture::new(8, TextureKind::Diffuse);

    let got_first = cache.insert("res/a.png".to_string(), first);
    assert_eq!(got_first, first);
    // the second insert under the same path hands the first texture back
    let got_second = cache.insert("res/a.png".to_string(), second);
    assert_eq!(got_second, first);
    assert_eq!(cache.len(), 1);
    assert_eq!(cache.get(&"res/a.png".to_string()), Some(first));

    let other = cache.insert("res/b.png".to_string(), second);
    assert_eq!(other, second);
    assert_eq!(cache.len(), 2);
    assert_eq!(cache.get(&"res/a.png".to_string()), Some(first));
    assert_eq!(cache.get(&"res/c.png".to_string()), None);
}

#[test]
fn model_requests_each_texture_exactly_once() {
    let mut model = Model::new("res/objects/backpack.obj");
    assert_eq!(model.directory().as_str(), "res/objects");

    let relative = "diffuse.jpg".to_string();
    let path = model.texture_to_load(&relative).expect("first use must ask for a decode");
    assert_eq!(path.as_str(), "res/objects/diffuse.jpg");

    let texture = Texture::new(42, TextureKind::Diffuse);
    let stored = model.store_texture(path, texture);
    assert_eq!(stored, texture);

    // the path is cached now: no second decode is requested
    assert_eq!(model.texture_to_load(&relative), None);
    assert_eq!(model.cached_texture(&relative), Some(texture));
    // an empty material field never asks for a decode
    assert_eq!(model.texture_to_load(&String::new()), None);
    assert_eq!(model.texture_count(), 1);
}

#[test]
fn model_load_yields_three_indices_per_face_and_distinct_textures() {
    let mut model = Model::new("res/scene/scene.obj");
    // two materials that share one texture path: one distinct cache entry
    let relative = "wall.png".to_string();
    if let Some(p) = model.texture_to_load(&relative) {
        model.store_texture(p, Texture::new(1, TextureKind::Diffuse));
    }
    if let Some(p) = model.texture_to_load(&relative) {
        model.store_texture(p, Texture::new(2, TextureKind::Diffuse));
    }
    assert_eq!(model.texture_count(), 1);

    // one triangulated face
    let positions: Vec<u32> = vec![
        b(0.0), b(0.0), b(0.0), b(1.0), b(0.0), b(0.0), b(0.0), b(1.0), b(0.0),
    ];
    model
        .process_mesh(&positions, &vec![], &vec![], vec![0, 1, 2], Some(&relative), 1, 2, 3)
        .unwrap();
    // two triangulated faces over four vertices
    let quad: Vec<u32> = vec![
        b(0.0), b(0.0), b(0.0), b(1.0), b(0.0), b(0.0), b(1.0), b(1.0), b(0.0), b(0.0), b(1.0), b(0.0),
    ];
    model
        .process_mesh(&quad, &vec![], &vec![], vec![0, 1, 2, 0, 2, 3], None, 4, 5, 6)
        .unwrap();

    let meshes = model.meshes();
    assert_eq!(meshes.len(), 2);
    let total: usize = meshes.iter().map(|m| m.index_count()).sum();
    assert_eq!(total, 3 * 3);
    // the material resolved to the cached texture, first insert's handle
    assert_eq!(meshes[0].textures().len(), 1);
    assert_eq!(meshes[0].textures()[0].texture_id, 1);
    assert_eq!(meshes[1].textures().len(), 0);
}

#[test]
fn process_mesh_substitutes_zero_attributes() {
    let mut model = Model::new("m.obj");
    let positions: Vec<u32> = vec![
        b(1.0), b(2.0), b(3.0), b(4.0), b(5.0), b(6.0),
    ];
    // normals only for the first vertex, texture coordinates absent
    let normals: Vec<u32> = vec![b(0.0), b(1.0), b(0.0)];
    model
        .process_mesh(&positions, &normals, &vec![], vec![0, 1, 0], None, 0, 0, 0)
        .unwrap();
    let mesh = &model.meshes()[0];
    let vs = mesh.vertices();
    assert_eq!(vs.len(), 2);
    assert_eq!(vs[0].position, [b(1.0), b(2.0), b(3.0)]);
    assert_eq!(vs[0].normal, [b(0.0), b(1.0), b(0.0)]);
    assert_eq!(vs[0].texture_coords, [b(0.0), b(0.0)]);
    assert_eq!(vs[1].position, [b(4.0), b(5.0), b(6.0)]);
    // the source omitted this vertex's normal: substituted by zeros
    assert_eq!(vs[1].normal, [b(0.0), b(0.0), b(0.0)]);
}

#[test]
fn process_mesh_rejects_out_of_range_indices() {
    let mut model = Model::new("m.obj");
    let positions: Vec<u32> = vec![b(0.0); 9];
    let r = model.process_mesh(&positions, &vec![], &vec![], vec![0, 1, 3], None, 0, 0, 0);
    assert_eq!(r, Err(ERRUranXError::ASSET_DECODE_ERROR));
    assert_eq!(model.meshes().len(), 0);
}

#[test]
fn mesh_rejects_out_of_range_indices() {
    let r = Mesh::new(triangle_vertices(), vec![0, 1, 5], vec![], 0, 0, 0);
    assert!(matches!(r, Err(ERRUranXError::ASSET_DECODE_ERROR)));
}

#[test]
fn mesh_keeps_its_data_and_handles() {
    let m = Mesh::new(triangle_vertices(), vec![0, 1, 2], vec![], 10, 11, 12).unwrap();
    assert_eq!(m.vertices().len(), 3);
    assert_eq!(m.indices().as_slice(), &[0, 1, 2]);
    assert_eq!(m.index_count(), 3);
    assert_eq!(m.vertex_array(), 10);
    assert_eq!(m.vertex_buffer(), 11);
    assert_eq!(m.element_buffer(), 12);
}

#[test]
fn draw_bindings_use_per_type_counters_and_sequential_units() {
    let textures = vec![
        Texture::new(7, TextureKind::Diffuse),
        Texture::new(8, TextureKind::Diffuse),
        Texture::new(9, TextureKind::Specular),
    ];
    let m = Mesh::new(triangle_vertices(), vec![0, 1, 2], textures, 0, 0, 0).unwrap();
    let plan = m.draw_bindings();
    assert_eq!(plan.len(), 3);

    assert_eq!(plan[0].unit, 0);
    assert_eq!(plan[0].texture_id, 7);
    assert_eq!(plan[0].uniform_name.as_str(), "material_diffuse_1");

    assert_eq!(plan[1].unit, 1);
    assert_eq!(plan[1].texture_id, 8);
    assert_eq!(plan[1].uniform_name.as_str(), "material_diffuse_2");

    assert_eq!(plan[2].unit, 2);
    assert_eq!(plan[2].texture_id, 9);
    assert_eq!(plan[2].uniform_name.as_str(), "material_specular_1");
}

#[test]
fn uniform_names_carry_decimal_counters() {
    assert_eq!(usize_decimal(0).as_str(), "0");
    assert_eq!(usize_decimal(10).as_str(), "10");
    assert_eq!(usize_decimal(907).as_str(), "907");
    assert_eq!(uniform_name(TextureKind::Diffuse, 12).as_str(), "material_diffuse_12");
    assert_eq!(uniform_name(TextureKind::Specular, 1).as_str(), "material_specular_1");
}

#[test]
fn vertex_layout_is_the_fixed_3_3_2_layout() {
    let layout = vertex_layout();
    assert_eq!(layout.len(), 3);
    assert_eq!((layout[0].index, layout[0].size, layout[0].offset), (0, 3, 0));
    assert_eq!((layout[1].index, layout[1].size, layout[1].offset), (1, 3, 12));
    assert_eq!((layout[2].index, layout[2].size, layout[2].offset), (2, 2, 24));
    assert_eq!(uranx_core::mesh::VERTEX_STRIDE, 32);
}

#[test]
fn flatten_packs_vertices_in_attribute_order() {
    let v = Vertex {
        position: [b(1.0), b(2.0), b(3.0)],
        normal: [b(4.0), b(5.0), b(6.0)],
        texture_coords: [b(7.0), b(8.0)],
    };
    let w = Vertex {
        position: [b(9.0), b(10.0), b(11.0)],
        normal: [b(12.0), b(13.0), b(14.0)],
        texture_coords: [b(15.0), b(16.0)],
    };
    let flat = flatten_vertices(&vec![v, w]);
    let expected: Vec<u32> = (1..=16).map(|i| b(i as f32)).collect();
    assert_eq!(flat, expected);
}

fn png_bytes() -> Vec<u8> {
    let mut img = image::RgbImage::new(1, 2);
    img.put_pixel(0, 0, image::Rgb([255, 0, 0]));
    img.put_pixel(0, 1, image::Rgb([0, 0, 255]));
    let mut buf = Cursor::new(Vec::new());
    img.write_to(&mut buf, image::ImageFormat::Png).unwrap();
    buf.into_inner()
}

#[test]
fn decode_texture_flips_rows_vertically() {
    let img = decode_texture(&png_bytes()).unwrap();
    assert_eq!((img.width, img.height), (1, 2));
    // the bottom row of the file comes first after the flip
    assert_eq!(img.pixels, vec![0, 0, 255, 255, 0, 0]);
}

#[test]
fn decode_texture_reports_bad_data_as_decode_error() {
    let r = decode_texture(&vec![1, 2, 3, 4]);
    assert_eq!(r.unwrap_err(), ERRUranXError::ASSET_DECODE_ERROR);
}

#[test]
fn flip_vertical_reverses_row_order() {
    // three rows of one pixel each
    let pixels = vec![1, 2, 3, 4, 5, 6, 7, 8, 9];
    assert_eq!(flip_vertical(1, 3, &pixels), vec![7, 8, 9, 4, 5, 6, 1, 2, 3]);
    // flipping twice restores the buffer
    assert_eq!(flip_vertical(1, 3, &flip_vertical(1, 3, &pixels)), pixels);
}

#[test]
fn error_message_is_the_fixed_report() {
    let e = ERRUranXError::CANNOT_INIT_SETTINGS;
    assert_eq!(e.message(), "UranX can't work because We have a critical error.");
}
