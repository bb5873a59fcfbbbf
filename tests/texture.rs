use learn_opengl::mesh::{vertex_attributes, vertex_count, VertexAttribute, FLOATS_PER_VERTEX};
use learn_opengl::shader::Shader;
use learn_opengl::texture::{
    material_requests, uniform_names, PixelLayout, Texture, TextureCache, TextureKind, UnknownTextureType,
};

fn tex(id: u32, type_: &str, path: &str) -> Texture {
    Texture { id, type_: type_.to_string(), path: path.to_string() }
}

#[test]
fn sampler_names_round_trip() {
    for k in [TextureKind::Diffuse, TextureKind::Specular, TextureKind::Normal, TextureKind::Height] {
        assert_eq!(TextureKind::from_sampler_name(k.sampler_name()), Some(k));
    }
    assert_eq!(TextureKind::Diffuse.sampler_name(), "texture_diffuse");
    assert_eq!(TextureKind::Height.sampler_name(), "texture_height");
    assert_eq!(TextureKind::from_sampler_name("texture_ambient"), None);
    assert_eq!(TextureKind::from_sampler_name(""), None);
}

#[test]
fn uniform_names_number_each_kind_from_one() {
    let ts = vec![
        tex(1, "texture_diffuse", "a.png"),
        tex(2, "texture_specular", "b.png"),
        tex(3, "texture_diffuse", "c.png"),
        tex(4, "texture_normal", "d.png"),
        tex(5, "texture_height", "e.png"),
        tex(6, "texture_specular", "f.png"),
    ];
    let names = uniform_names(&ts).unwrap();
    assert_eq!(
        names,
        vec![
            "texture_diffuse1",
            "texture_specular1",
            "texture_diffuse2",
            "texture_normal1",
            "texture_height1",
            "texture_specular2",
        ]
    );
}

#[test]
fn uniform_names_count_past_nine() {
    let ts: Vec<Texture> = (0..12).map(|i| tex(i, "texture_diffuse", "x.png")).collect();
    let names = uniform_names(&ts).unwrap();
    assert_eq!(names[9], "texture_diffuse10");
    assert_eq!(names[11], "texture_diffuse12");
}

#[test]
fn uniform_names_of_no_textures() {
    assert_eq!(uniform_names(&Vec::new()).unwrap(), Vec::<String>::new());
}

#[test]
fn uniform_names_reject_unknown_kind() {
    let ts = vec![
        tex(1, "texture_diffuse", "a.png"),
        tex(2, "texture_glow", "b.png"),
        tex(3, "bogus", "c.png"),
    ];
    assert_eq!(uniform_names(&ts), Err(UnknownTextureType { index: 1 }));
}

#[test]
fn cache_finds_by_path() {
    let mut cache = TextureCache::new();
    assert_eq!(cache.len(), 0);
    assert_eq!(cache.find("a.png"), None);
    assert_eq!(cache.insert(tex(7, "texture_diffuse", "a.png")), 0);
    assert_eq!(cache.insert(tex(8, "texture_specular", "b.png")), 1);
    assert_eq!(cache.find("b.png"), Some(1));
    assert_eq!(cache.find("a.png"), Some(0));
    assert_eq!(cache.find("c.png"), None);
    assert_eq!(cache.get(1).id, 8);
}

#[test]
fn cache_keeps_first_texture_of_a_file() {
    let mut cache = TextureCache::new();
    cache.insert(tex(7, "texture_diffuse", "a.png"));
    assert_eq!(cache.insert(tex(9, "texture_specular", "a.png")), 0);
    assert_eq!(cache.len(), 1);
    assert_eq!(cache.get(0).id, 7);
    assert_eq!(cache.get(0).type_, "texture_diffuse");
}

#[test]
fn material_with_all_maps() {
    let r = material_requests("models/backpack", "diffuse.jpg", "specular.jpg", "normal.png");
    assert_eq!(r.len(), 3);
    assert_eq!(r[0].kind, TextureKind::Diffuse);
    assert_eq!(r[1].kind, TextureKind::Specular);
    assert_eq!(r[2].kind, TextureKind::Normal);
    for q in &r {
        assert_eq!(q.path, "models/backpack/diffuse.jpg");
    }
}

#[test]
fn material_with_only_specular() {
    let r = material_requests("dir", "", "spec.png", "");
    assert_eq!(r.len(), 1);
    assert_eq!(r[0].kind, TextureKind::Specular);
    assert_eq!(r[0].path, "dir/");
}

#[test]
fn material_without_maps() {
    assert!(material_requests("dir", "", "", "").is_empty());
}

#[test]
fn gl_formats_of_layouts() {
    assert_eq!(PixelLayout::Luma.gl_format(), 0x1903);
    assert_eq!(PixelLayout::LumaAlpha.gl_format(), 0x8227);
    assert_eq!(PixelLayout::Rgb.gl_format(), 0x1907);
    assert_eq!(PixelLayout::Rgba.gl_format(), 0x1908);
}

#[test]
fn vertex_count_of_complete_mesh() {
    assert_eq!(vertex_count(9, 9, 6), Some(3));
    assert_eq!(vertex_count(0, 0, 0), Some(0));
    assert_eq!(vertex_count(10, 9, 6), Some(3));
}

#[test]
fn vertex_count_of_short_arrays() {
    assert_eq!(vertex_count(9, 0, 6), None);
    assert_eq!(vertex_count(9, 9, 5), None);
}

#[test]
fn shader_holds_program() {
    let s = Shader { program: 4 };
    assert_eq!(s, Shader { program: 4 });
}

#[test]
fn vertex_layout_is_packed() {
    let a = vertex_attributes();
    assert_eq!(
        a,
        vec![
            VertexAttribute { location: 0, components: 3, offset: 0 },
            VertexAttribute { location: 1, components: 3, offset: 3 },
            VertexAttribute { location: 2, components: 2, offset: 6 },
            VertexAttribute { location: 3, components: 3, offset: 8 },
            VertexAttribute { location: 4, components: 3, offset: 11 },
        ]
    );
    assert_eq!(FLOATS_PER_VERTEX, 14);
}
