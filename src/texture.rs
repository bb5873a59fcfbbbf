use vstd::prelude::*;

verus! {

/// A texture that has been uploaded to the GPU: its object name, the kind of
/// sampler it feeds (`texture_diffuse`, ...) and the file it came from.
#[derive(Clone, Debug)]
pub struct Texture {
    pub id: u32,
    pub type_: String,
    pub path: String,
}

/// The kinds of texture map a mesh can carry.
#[derive(Clone, Copy, Debug, PartialEq, Eq, Structural)]
pub enum TextureKind {
    Diffuse,
    Specular,
    Normal,
    Height,
}

pub open spec fn spec_sampler_name(k: TextureKind) -> Seq<char> {
    match k {
        TextureKind::Diffuse => "texture_diffuse"@,
        TextureKind::Specular => "texture_specular"@,
        TextureKind::Normal => "texture_normal"@,
        TextureKind::Height => "texture_height"@,
    }
}

/// The kind whose sampler name is `s`, if any.
pub open spec fn spec_kind_of(s: Seq<char>) -> Option<TextureKind> {
    if s == spec_sampler_name(TextureKind::Diffuse) {
        Some(TextureKind::Diffuse)
    } else if s == spec_sampler_name(TextureKind::Specular) {
        Some(TextureKind::Specular)
    } else if s == spec_sampler_name(TextureKind::Normal) {
        Some(TextureKind::Normal)
    } else if s == spec_sampler_name(TextureKind::Height) {
        Some(TextureKind::Height)
    } else {
        None
    }
}

impl TextureKind {
    /// The sampler name under which shaders declare textures of this kind.
    pub fn sampler_name(self) -> (r: &'static str)
        ensures
            r@ == spec_sampler_name(self),
    {
        match self {
            TextureKind::Diffuse => "texture_diffuse",
            TextureKind::Specular => "texture_specular",
            TextureKind::Normal => "texture_normal",
            TextureKind::Height => "texture_height",
        }
    }

    /// The kind whose sampler name is `name`, or `None` for any other name.
    pub fn from_sampler_name(name: &str) -> (r: Option<TextureKind>)
        ensures
            r == spec_kind_of(name@),
    {
        let s = String::from_str(name);
        if s == String::from_str("texture_diffuse") {
            Some(TextureKind::Diffuse)
        } else if s == String::from_str("texture_specular") {
            Some(TextureKind::Specular)
        } else if s == String::from_str("texture_normal") {
            Some(TextureKind::Normal)
        } else if s == String::from_str("texture_height") {
            Some(TextureKind::Height)
        } else {
            None
        }
    }
}

/// The character of decimal digit `d` (`d < 10`).
pub open spec fn digit_char(d: nat) -> char {
    if d == 0 {
        '0'
    } else if d == 1 {
        '1'
    } else if d == 2 {
        '2'
    } else if d == 3 {
        '3'
    } else if d == 4 {
        '4'
    } else if d == 5 {
        '5'
    } else if d == 6 {
        '6'
    } else if d == 7 {
        '7'
    } else if d == 8 {
        '8'
    } else {
        '9'
    }
}

/// `n` written in decimal, without sign or leading zeros.
pub open spec fn decimal(n: nat) -> Seq<char>
    decreases n,
{
    if n < 10 {
        seq![digit_char(n)]
    } else {
        decimal(n / 10).push(digit_char(n % 10))
    }
}

fn digit_str(d: usize) -> (r: &'static str)
    requires
        d < 10,
    ensures
        r@ == seq![digit_char(d as nat)],
{
    proof {
        reveal_strlit("0");
        reveal_strlit("1");
        reveal_strlit("2");
        reveal_strlit("3");
        reveal_strlit("4");
        reveal_strlit("5");
        reveal_strlit("6");
        reveal_strlit("7");
        reveal_strlit("8");
        reveal_strlit("9");
    }
    match d {
        0 => "0",
        1 => "1",
        2 => "2",
        3 => "3",
        4 => "4",
        5 => "5",
        6 => "6",
        7 => "7",
        8 => "8",
        _ => "9",
    }
}

/// Appends `n` in decimal to `s`.
fn append_decimal(s: &mut String, n: usize)
    ensures
        final(s)@ == old(s)@ + decimal(n as nat),
    decreases n,
{
    if n >= 10 {
        append_decimal(s, n / 10);
    }
    s.append(digit_str(n % 10));
}

/// How many of the first `n` textures have sampler name `name`.
pub open spec fn count_named(ts: Seq<Texture>, name: Seq<char>, n: int) -> nat
    decreases n,
{
    if n <= 0 {
        0
    } else {
        count_named(ts, name, n - 1) + if ts[n - 1].type_@ == name {
            1nat
        } else {
            0nat
        }
    }
}

/// The uniform that texture `i` binds to: its sampler name followed by its
/// number among the textures of that kind, counted from 1 in list order
/// (`texture_diffuse1`, `texture_diffuse2`, `texture_specular1`, ...).
pub open spec fn spec_uniform_name(ts: Seq<Texture>, i: int) -> Seq<char> {
    ts[i].type_@ + decimal(count_named(ts, ts[i].type_@, i + 1))
}

/// A texture whose sampler name is none of the known kinds.
#[derive(Clone, Copy, Debug, PartialEq, Eq, Structural)]
pub struct UnknownTextureType {
    /// Position of the first such texture in the list.
    pub index: usize,
}

/// Names the shader uniform of each texture of a mesh; texture `i` is bound
/// to texture unit `i`. Fails on the first texture of an unknown kind.
pub fn uniform_names(textures: &Vec<Texture>) -> (r: Result<Vec<String>, UnknownTextureType>)
    ensures
        match r {
            Ok(names) => {
                &&& forall|i: int|
                    0 <= i < textures@.len() ==> spec_kind_of(#[trigger] textures@[i].type_@)
                        is Some
                &&& names@.len() == textures@.len()
                &&& forall|i: int|
                    0 <= i < names@.len() ==> #[trigger] names@[i]@ == spec_uniform_name(
                        textures@,
                        i,
                    )
            },
            Err(e) => {
                &&& e.index < textures@.len()
                &&& spec_kind_of(textures@[e.index as int].type_@) is None
                &&& forall|i: int|
                    0 <= i < e.index ==> spec_kind_of(#[trigger] textures@[i].type_@) is Some
            },
        },
{
    let ghost ts = textures@;
    let mut diffuse: usize = 0;
    let mut specular: usize = 0;
    let mut normal: usize = 0;
    let mut height: usize = 0;
    let mut names: Vec<String> = Vec::new();
    let mut i: usize = 0;
    while i < textures.len()
        invariant
            ts == textures@,
            0 <= i <= ts.len(),
            diffuse == count_named(ts, spec_sampler_name(TextureKind::Diffuse), i as int),
            specular == count_named(ts, spec_sampler_name(TextureKind::Specular), i as int),
            normal == count_named(ts, spec_sampler_name(TextureKind::Normal), i as int),
            height == count_named(ts, spec_sampler_name(TextureKind::Height), i as int),
            diffuse + specular + normal + height <= i,
            names@.len() == i,
            forall|j: int| 0 <= j < i ==> spec_kind_of(#[trigger] ts[j].type_@) is Some,
            forall|j: int| 0 <= j < i ==> #[trigger] names@[j]@ == spec_uniform_name(ts, j),
        decreases ts.len() - i,
    {
        let t = &textures[i];
        let kind = TextureKind::from_sampler_name(t.type_.as_str());
        proof {
            reveal_strlit("texture_diffuse");
            reveal_strlit("texture_specular");
            reveal_strlit("texture_normal");
            reveal_strlit("texture_height");
            assert(spec_sampler_name(TextureKind::Normal)[8] != spec_sampler_name(
                TextureKind::Height,
            )[8]);
        }
        let number = match kind {
            Some(TextureKind::Diffuse) => {
                diffuse = diffuse + 1;
                diffuse
            },
            Some(TextureKind::Specular) => {
                specular = specular + 1;
                specular
            },
            Some(TextureKind::Normal) => {
                normal = normal + 1;
                normal
            },
            Some(TextureKind::Height) => {
                height = height + 1;
                height
            },
            None => {
                return Err(UnknownTextureType { index: i });
            },
        };
        assert(number == count_named(ts, ts[i as int].type_@, i + 1));
        let mut name = String::from_str(t.type_.as_str());
        append_decimal(&mut name, number);
        names.push(name);
        i = i + 1;
    }
    Ok(names)
}

/// No two textures in `ts` come from the same file.
pub open spec fn paths_distinct(ts: Seq<Texture>) -> bool {
    forall|i: int, j: int|
        0 <= i < ts.len() && 0 <= j < ts.len() && i != j ==> #[trigger] ts[i].path@
            != #[trigger] ts[j].path@
}

/// Whether some texture in `ts` comes from file `path`.
pub open spec fn has_path(ts: Seq<Texture>, path: Seq<char>) -> bool {
    exists|i: int| 0 <= i < ts.len() && #[trigger] ts[i].path@ == path
}

/// The textures loaded so far, at most one per file, so that a file used by
/// several meshes is decoded and uploaded only once.
pub struct TextureCache {
    loaded: Vec<Texture>,
}

impl TextureCache {
    /// The cached textures, in the order they were added.
    pub closed spec fn view(&self) -> Seq<Texture> {
        self.loaded@
    }

    pub closed spec fn wf(&self) -> bool {
        paths_distinct(self.loaded@)
    }

    /// An empty cache.
    pub fn new() -> (r: TextureCache)
        ensures
            r.wf(),
            r@ == Seq::<Texture>::empty(),
    {
        TextureCache { loaded: Vec::new() }
    }

    /// How many textures are cached.
    pub fn len(&self) -> (r: usize)
        ensures
            r == self@.len(),
    {
        self.loaded.len()
    }

    /// The texture at position `i`.
    pub fn get(&self, i: usize) -> (r: &Texture)
        requires
            i < self@.len(),
        ensures
            *r == self@[i as int],
    {
        &self.loaded[i]
    }

    /// The position of the texture loaded from `path`, if there is one.
    pub fn find(&self, path: &str) -> (r: Option<usize>)
        ensures
            match r {
                Some(i) => i < self@.len() && self@[i as int].path@ == path@,
                None => !has_path(self@, path@),
            },
    {
        let p = String::from_str(path);
        let mut i: usize = 0;
        while i < self.loaded.len()
            invariant
                0 <= i <= self.loaded@.len(),
                p@ == path@,
                forall|j: int| 0 <= j < i ==> #[trigger] self.loaded@[j].path@ != path@,
            decreases self.loaded@.len() - i,
        {
            if self.loaded[i].path == p {
                return Some(i);
            }
            i = i + 1;
        }
        None
    }

    /// Adds `texture` unless a texture from the same file is cached already,
    /// and returns the position of the cached texture for that file.
    pub fn insert(&mut self, texture: Texture) -> (r: usize)
        requires
            old(self).wf(),
        ensures
            final(self).wf(),
            r < final(self)@.len(),
            final(self)@[r as int].path@ == texture.path@,
            has_path(old(self)@, texture.path@) ==> final(self)@ == old(self)@,
            !has_path(old(self)@, texture.path@) ==> final(self)@ == old(self)@.push(texture),
    {
        match self.find(texture.path.as_str()) {
            Some(i) => i,
            None => {
                let ghost before = self.loaded@;
                self.loaded.push(texture);
                proof {
                    assert forall|i: int, j: int|
                        0 <= i < self.loaded@.len() && 0 <= j < self.loaded@.len() && i != j
                            implies #[trigger] self.loaded@[i].path@
                        != #[trigger] self.loaded@[j].path@ by {
                        if i < before.len() && j < before.len() {
                            assert(before[i] == self.loaded@[i]);
                            assert(before[j] == self.loaded@[j]);
                        } else if i < before.len() {
                            assert(before[i] == self.loaded@[i]);
                        } else {
                            assert(before[j] == self.loaded@[j]);
                        }
                    }
                }
                self.loaded.len() - 1
            },
        }
    }
}

/// A texture map that a material asks for: the file to load and the kind of
/// sampler it feeds.
#[derive(Debug)]
pub struct TextureRequest {
    pub path: String,
    pub kind: TextureKind,
}

/// `[(path, kind)]` where the material names a map of that kind, else nothing.
pub open spec fn request_if(named: bool, path: Seq<char>, kind: TextureKind) -> Seq<
    (Seq<char>, TextureKind),
> {
    if named {
        seq![(path, kind)]
    } else {
        Seq::empty()
    }
}

/// The maps a material asks for, as (path, kind) pairs: diffuse, then
/// specular, then normal, each where the material names a file for it. Every
/// request loads the diffuse map's file, `directory/diffuse`; the specular and
/// normal entries only bind that same image to their own samplers.
pub open spec fn spec_material_requests(
    directory: Seq<char>,
    diffuse: Seq<char>,
    specular: Seq<char>,
    normal: Seq<char>,
) -> Seq<(Seq<char>, TextureKind)> {
    let p = directory + seq!['/'] + diffuse;
    request_if(diffuse.len() > 0, p, TextureKind::Diffuse) + request_if(
        specular.len() > 0,
        p,
        TextureKind::Specular,
    ) + request_if(normal.len() > 0, p, TextureKind::Normal)
}

/// Lists the texture files to load for a material whose diffuse, specular
/// and normal map file names are given (an empty name: no such map), with
/// paths relative to the model's `directory`.
pub fn material_requests(directory: &str, diffuse: &str, specular: &str, normal: &str) -> (r: Vec<
    TextureRequest,
>)
    ensures
        r@.len() == spec_material_requests(directory@, diffuse@, specular@, normal@).len(),
        forall|i: int|
            0 <= i < r@.len() ==> (#[trigger] r@[i]).path@ == spec_material_requests(
                directory@,
                diffuse@,
                specular@,
                normal@,
            )[i].0 && r@[i].kind == spec_material_requests(
                directory@,
                diffuse@,
                specular@,
                normal@,
            )[i].1,
{
    let ghost spec_r = spec_material_requests(directory@, diffuse@, specular@, normal@);
    proof {
        reveal_strlit("/");
    }
    let mut r: Vec<TextureRequest> = Vec::new();
    if diffuse.unicode_len() > 0 {
        let path = String::from_str(directory).concat("/").concat(diffuse);
        r.push(TextureRequest { path, kind: TextureKind::Diffuse });
    }
    if specular.unicode_len() > 0 {
        let path = String::from_str(directory).concat("/").concat(diffuse);
        r.push(TextureRequest { path, kind: TextureKind::Specular });
    }
    if normal.unicode_len() > 0 {
        let path = String::from_str(directory).concat("/").concat(diffuse);
        r.push(TextureRequest { path, kind: TextureKind::Normal });
    }
    assert(r@.len() == spec_r.len());
    assert forall|i: int| 0 <= i < r@.len() implies (#[trigger] r@[i]).path@ == spec_r[i].0
        && r@[i].kind == spec_r[i].1 by {
        assert(spec_r[i].0 =~= directory@ + seq!['/'] + diffuse@);
    }
    r
}

/// OpenGL's `GL_RED` pixel format: one channel.
pub const GL_RED: u32 = 0x1903;

/// OpenGL's `GL_RG` pixel format: two channels.
pub const GL_RG: u32 = 0x8227;

/// OpenGL's `GL_RGB` pixel format: three channels.
pub const GL_RGB: u32 = 0x1907;

/// OpenGL's `GL_RGBA` pixel format: four channels.
pub const GL_RGBA: u32 = 0x1908;

/// The channel layouts of 8-bit images that can be uploaded as textures.
#[derive(Clone, Copy, Debug, PartialEq, Eq, Structural)]
pub enum PixelLayout {
    Luma,
    LumaAlpha,
    Rgb,
    Rgba,
}

pub open spec fn spec_gl_format(l: PixelLayout) -> u32 {
    match l {
        PixelLayout::Luma => GL_RED,
        PixelLayout::LumaAlpha => GL_RG,
        PixelLayout::Rgb => GL_RGB,
        PixelLayout::Rgba => GL_RGBA,
    }
}

impl PixelLayout {
    /// The OpenGL pixel format under which images of this layout are
    /// uploaded: grey as red, grey with alpha as red-green.
    pub fn gl_format(self) -> (r: u32)
        ensures
            r == spec_gl_format(self),
    {
        match self {
            PixelLayout::Luma => GL_RED,
            PixelLayout::LumaAlpha => GL_RG,
            PixelLayout::Rgb => GL_RGB,
            PixelLayout::Rgba => GL_RGBA,
        }
    }
}

} // verus!
