//! Resolving scene objects into frame-ready draw objects, and emitting their
//! quads into the fixed-capacity buffer set.
use vstd::prelude::*;
use std::rc::Rc;

verus! {

use crate::vectors::Vectors;
use crate::vectors::Component;
use crate::vectors::ComponentV;
use crate::vectors::parse_spec;
use crate::vectors::component_views;
use crate::model::Object;
use crate::model::VisibleValue;
use crate::cache::KeyMap;
use crate::cache::Texture;
use crate::cache::clone_texture;
use crate::texpath::with_tex_ext;
use crate::texpath::with_tex_ext_chars;
use crate::text::chars_of;
use crate::buffer::Buffers;
use crate::MAX_VERTEX;
use crate::MAX_INDEX;

/// The bit pattern of the 64-bit value one, the fixed draw opacity.
pub const OPAQUE_ALPHA_BITS: u64 = 0x3FF0_0000_0000_0000;

/// Bytes from one vertex record to the next: six 32-bit words.
pub const VERTEX_STRIDE: u64 = 24;

/// One interleaved vertex record, the wire contract with the shader stage:
/// three position words, then two texture coordinate words (IEEE-754 32-bit
/// patterns), then the texture index. Reordering the fields breaks rendering.
#[derive(Clone, Copy, Debug, PartialEq, Eq, Structural)]
pub struct Vertex {
    pub pos_x: u32,
    pub pos_y: u32,
    pub pos_z: u32,
    pub uv_u: u32,
    pub uv_v: u32,
    pub texture_index: u32,
}

/// The data format of one vertex attribute.
#[derive(Clone, Copy, PartialEq, Eq, Structural)]
pub enum VertexFormat {
    Float32x3,
    Float32x2,
    Uint32,
}

/// One attribute of the vertex layout.
#[derive(Clone, Copy, PartialEq, Eq, Structural)]
pub struct VertexAttribute {
    pub offset: u64,
    pub shader_location: u32,
    pub format: VertexFormat,
}

/// The declared layout of the vertex buffer.
pub struct VertexBufferLayout {
    pub array_stride: u64,
    pub attributes: Vec<VertexAttribute>,
}

impl Vertex {
    /// The wire layout of a vertex record: position at byte 0, texture
    /// coordinates at byte 12, texture index at byte 20; 24 bytes a vertex.
    pub fn create_buffer_layout() -> (r: VertexBufferLayout)
        ensures
            r.array_stride == VERTEX_STRIDE,
            r.attributes@.len() == 3,
            r.attributes@[0] == (VertexAttribute {
                offset: 0,
                shader_location: 0,
                format: VertexFormat::Float32x3,
            }),
            r.attributes@[1] == (VertexAttribute {
                offset: 12,
                shader_location: 1,
                format: VertexFormat::Float32x2,
            }),
            r.attributes@[2] == (VertexAttribute {
                offset: 20,
                shader_location: 2,
                format: VertexFormat::Uint32,
            }),
    {
        let mut attributes: Vec<VertexAttribute> = Vec::new();
        attributes.push(
            VertexAttribute { offset: 0, shader_location: 0, format: VertexFormat::Float32x3 },
        );
        attributes.push(
            VertexAttribute { offset: 12, shader_location: 1, format: VertexFormat::Float32x2 },
        );
        attributes.push(
            VertexAttribute { offset: 20, shader_location: 2, format: VertexFormat::Uint32 },
        );
        VertexBufferLayout { array_stride: VERTEX_STRIDE, attributes }
    }
}

/// Three components, one per axis.
pub struct Vec3C {
    pub x: Component,
    pub y: Component,
    pub z: Component,
}

/// Two components, one per extent axis.
pub struct Vec2C {
    pub x: Component,
    pub y: Component,
}

/// The mathematical value of a [`Vec3C`].
pub struct Vec3V {
    pub x: ComponentV,
    pub y: ComponentV,
    pub z: ComponentV,
}

/// The mathematical value of a [`Vec2C`].
pub struct Vec2V {
    pub x: ComponentV,
    pub y: ComponentV,
}

impl View for Vec3C {
    type V = Vec3V;

    open spec fn view(&self) -> Vec3V {
        Vec3V { x: self.x@, y: self.y@, z: self.z@ }
    }
}

impl View for Vec2C {
    type V = Vec2V;

    open spec fn view(&self) -> Vec2V {
        Vec2V { x: self.x@, y: self.y@ }
    }
}

/// A resolved, frame-ready renderable unit: concrete transform components and
/// a shared handle to the decoded texture resource.
pub struct DrawTextureObject {
    pub texture: Rc<Texture>,
    pub origin: Vec3C,
    pub angles: Vec3C,
    pub scale: Vec3C,
    pub size: Vec2C,
    pub alpha: u64,
}

/// The mathematical value of a [`DrawTextureObject`].
pub struct DrawTextureObjectV {
    pub texture: Rc<Texture>,
    pub origin: Vec3V,
    pub angles: Vec3V,
    pub scale: Vec3V,
    pub size: Vec2V,
    pub alpha: u64,
}

impl View for DrawTextureObject {
    type V = DrawTextureObjectV;

    open spec fn view(&self) -> DrawTextureObjectV {
        DrawTextureObjectV {
            texture: self.texture,
            origin: self.origin@,
            angles: self.angles@,
            scale: self.scale@,
            size: self.size@,
            alpha: self.alpha,
        }
    }
}

/// Whether the visibility field lets the object draw: an absent field reads
/// as visible; an explicit false in either the plain or the wrapped encoding
/// excludes the object.
pub open spec fn visible_spec(v: Option<VisibleValue>) -> bool {
    match v {
        Some(VisibleValue::Plain(b)) => b,
        Some(VisibleValue::Wrapped(w)) => w.value,
        None => true,
    }
}

/// The components a parsed value provides at arity `k`: an exact match is
/// taken as it is, and a single component broadcasts to every axis.
pub open spec fn fit_spec(cs: Seq<ComponentV>, k: nat) -> Option<Seq<ComponentV>> {
    if cs.len() == k {
        Some(cs)
    } else if cs.len() == 1 {
        Some(Seq::new(k, |i: int| cs[0]))
    } else {
        None
    }
}

/// The `k` components of a geometric field. A mandatory field must be
/// present; an optional one defaults to the zero scalar, broadcast. A present
/// field that does not parse, or fits no `k` components, yields nothing.
pub open spec fn field_components_spec(ov: Option<Vectors>, k: nat, mandatory: bool) -> Option<
    Seq<ComponentV>,
> {
    match ov {
        Some(v) => match parse_spec(v@) {
            Some(cs) => fit_spec(cs, k),
            None => None,
        },
        None => if mandatory {
            None
        } else {
            Some(Seq::new(k, |i: int| ComponentV::Num(0)))
        },
    }
}

/// Three components as one value per axis.
pub open spec fn vec3v(cs: Seq<ComponentV>) -> Vec3V {
    Vec3V { x: cs[0], y: cs[1], z: cs[2] }
}

/// Two components as one value per extent axis.
pub open spec fn vec2v(cs: Seq<ComponentV>) -> Vec2V {
    Vec2V { x: cs[0], y: cs[1] }
}

/// What resolving `object` against the path table `jsons` and the texture
/// cache `textures` yields: a draw object exactly when the object is visible,
/// its geometry resolves (`origin` to 3 components, `size` to 2, `angles` and
/// `scale` to 3 with absent fields defaulting to zero), its image is named,
/// mapped by `jsons`, and the mapped path with a `tex` extension is in
/// `textures`; nothing otherwise. The draw opacity is fixed at one,
/// whatever the document's `alpha` holds.
pub open spec fn resolve_spec(
    object: Object,
    jsons: Map<Seq<char>, String>,
    textures: Map<Seq<char>, Rc<Texture>>,
) -> Option<DrawTextureObjectV> {
    if !visible_spec(object.visible) {
        None
    } else {
        match (
            field_components_spec(object.origin, 3, true),
            field_components_spec(object.angles, 3, false),
            field_components_spec(object.scale, 3, false),
            field_components_spec(object.size, 2, true),
        ) {
            (Some(origin), Some(angles), Some(scale), Some(size)) => match object.image {
                Some(img) => if jsons.contains_key(img@) {
                    if textures.contains_key(with_tex_ext(jsons[img@]@)) {
                        Some(
                            DrawTextureObjectV {
                                texture: textures[with_tex_ext(jsons[img@]@)],
                                origin: vec3v(origin),
                                angles: vec3v(angles),
                                scale: vec3v(scale),
                                size: vec2v(size),
                                alpha: OPAQUE_ALPHA_BITS,
                            },
                        )
                    } else {
                        None
                    }
                } else {
                    None
                },
                None => None,
            },
            _ => None,
        }
    }
}

/// Fits parsed components to arity `k`, as [`fit_spec`] says.
fn fit(cs: Vec<Component>, k: usize) -> (r: Option<Vec<Component>>)
    ensures
        r matches Some(out) ==> fit_spec(component_views(cs@), k as nat) == Some(
            component_views(out@),
        ),
        r matches Some(out) ==> out@.len() == k,
        r is None <==> fit_spec(component_views(cs@), k as nat) is None,
{
    if cs.len() == k {
        Some(cs)
    } else if cs.len() == 1 {
        let mut out: Vec<Component> = Vec::new();
        let mut i: usize = 0;
        while i < k
            invariant
                i <= k,
                cs@.len() == 1,
                out@.len() == i as int,
                forall|j: int| 0 <= j < i ==> out@[j]@ == cs@[0]@,
            decreases k - i,
        {
            out.push(cs[0].duplicate());
            i = i + 1;
        }
        proof {
            assert(component_views(out@) =~= Seq::new(k as nat, |i: int| component_views(cs@)[0]));
        }
        Some(out)
    } else {
        None
    }
}

/// The `k` components of a geometric field, as [`field_components_spec`]
/// says.
fn field_components(ov: &Option<Vectors>, k: usize, mandatory: bool) -> (r: Option<Vec<Component>>)
    ensures
        r matches Some(out) ==> field_components_spec(*ov, k as nat, mandatory) == Some(
            component_views(out@),
        ),
        r matches Some(out) ==> out@.len() == k,
        r is None <==> field_components_spec(*ov, k as nat, mandatory) is None,
{
    match ov {
        Some(v) => match v.parse() {
            Some(cs) => fit(cs, k),
            None => None,
        },
        None => {
            if mandatory {
                None
            } else {
                let mut out: Vec<Component> = Vec::new();
                let mut i: usize = 0;
                while i < k
                    invariant
                        i <= k,
                        out@.len() == i as int,
                        forall|j: int| 0 <= j < i ==> out@[j]@ == ComponentV::Num(0),
                    decreases k - i,
                {
                    out.push(Component::Num(0));
                    i = i + 1;
                }
                proof {
                    assert(component_views(out@) =~= Seq::new(
                        k as nat,
                        |i: int| ComponentV::Num(0),
                    ));
                }
                Some(out)
            }
        },
    }
}

/// Three owned components as one value per axis.
fn vec3_from(cs: Vec<Component>) -> (r: Vec3C)
    requires
        cs@.len() == 3,
    ensures
        r@ == vec3v(component_views(cs@)),
{
    let mut cs = cs;
    let z = cs.pop().unwrap();
    let y = cs.pop().unwrap();
    let x = cs.pop().unwrap();
    Vec3C { x, y, z }
}

/// Two owned components as one value per extent axis.
fn vec2_from(cs: Vec<Component>) -> (r: Vec2C)
    requires
        cs@.len() == 2,
    ensures
        r@ == vec2v(component_views(cs@)),
{
    let mut cs = cs;
    let y = cs.pop().unwrap();
    let x = cs.pop().unwrap();
    Vec2C { x, y }
}

impl DrawTextureObject {
    /// Resolves one scene object into a draw object, as [`resolve_spec`]
    /// says; an object that fails any step is dropped, never a fatal error.
    pub fn new(
        object: &Object,
        jsons: &KeyMap<String>,
        textures: &KeyMap<Rc<Texture>>,
    ) -> (r: Option<DrawTextureObject>)
        requires
            jsons.wf(),
            textures.wf(),
        ensures
            r matches Some(d) ==> resolve_spec(*object, jsons@, textures@) == Some(d@),
            r is None <==> resolve_spec(*object, jsons@, textures@) is None,
    {
        match &object.visible {
            Some(VisibleValue::Plain(b)) => {
                if !*b {
                    return None;
                }
            },
            Some(VisibleValue::Wrapped(w)) => {
                if !w.value {
                    return None;
                }
            },
            None => {},
        }
        let origin = match field_components(&object.origin, 3, true) {
            Some(cs) => cs,
            None => {
                return None;
            },
        };
        let angles = match field_components(&object.angles, 3, false) {
            Some(cs) => cs,
            None => {
                return None;
            },
        };
        let scale = match field_components(&object.scale, 3, false) {
            Some(cs) => cs,
            None => {
                return None;
            },
        };
        let size = match field_components(&object.size, 2, true) {
            Some(cs) => cs,
            None => {
                return None;
            },
        };
        let img = match &object.image {
            Some(s) => s,
            None => {
                return None;
            },
        };
        let path = match jsons.get_str(img.as_str()) {
            Some(p) => p,
            None => {
                return None;
            },
        };
        let pchars = chars_of(path.as_str());
        let key = with_tex_ext_chars(&pchars);
        let tex = match textures.get(&key) {
            Some(t) => t,
            None => {
                return None;
            },
        };
        let texture = clone_texture(tex);
        Some(
            DrawTextureObject {
                texture,
                origin: vec3_from(origin),
                angles: vec3_from(angles),
                scale: vec3_from(scale),
                size: vec2_from(size),
                alpha: OPAQUE_ALPHA_BITS,
            },
        )
    }
}

/// Law: an object missing `origin` or `size` never resolves, whatever its
/// other fields and the tables hold.
pub proof fn lemma_missing_geometry(
    object: Object,
    jsons: Map<Seq<char>, String>,
    textures: Map<Seq<char>, Rc<Texture>>,
)
    requires
        object.origin is None || object.size is None,
    ensures
        resolve_spec(object, jsons, textures) is None,
{
}

/// Law: an explicit false visibility, in either the plain or the wrapped
/// encoding, excludes the object, whatever else would resolve.
pub proof fn lemma_invisible_excluded(
    object: Object,
    jsons: Map<Seq<char>, String>,
    textures: Map<Seq<char>, Rc<Texture>>,
)
    requires
        object.visible == Some(VisibleValue::Plain(false)) || (object.visible matches Some(
            VisibleValue::Wrapped(w),
        ) && !w.value),
    ensures
        resolve_spec(object, jsons, textures) is None,
{
}

/// Law: objects naming the same image resolve, when they both resolve, to
/// draw objects carrying the very same texture resource.
pub proof fn lemma_shared_texture(
    o1: Object,
    o2: Object,
    jsons: Map<Seq<char>, String>,
    textures: Map<Seq<char>, Rc<Texture>>,
)
    requires
        o1.image == o2.image,
        resolve_spec(o1, jsons, textures) is Some,
        resolve_spec(o2, jsons, textures) is Some,
    ensures
        resolve_spec(o1, jsons, textures).unwrap().texture == resolve_spec(
            o2,
            jsons,
            textures,
        ).unwrap().texture,
{
}

/// The bit pattern of the 32-bit value zero, a texture coordinate.
pub const F32_ZERO_BITS: u32 = 0;

/// The bit pattern of the 32-bit value one, a texture coordinate.
pub const F32_ONE_BITS: u32 = 0x3F80_0000;

/// The placement of one quad, as 32-bit IEEE-754 patterns: the four rotated,
/// scaled and translated corner positions, in vertex order, and the shared
/// depth. The host computes these values from the draw object's components;
/// the library fixes everything else about the emitted quad.
#[derive(Clone, Copy, PartialEq, Eq, Structural)]
pub struct QuadGeometry {
    pub x0: u32,
    pub y0: u32,
    pub x1: u32,
    pub y1: u32,
    pub x2: u32,
    pub y2: u32,
    pub x3: u32,
    pub y3: u32,
    pub z: u32,
}

/// The vertex record of corner `j` of a quad placed by `g`: the corner
/// position at the shared depth, the texture coordinate corners
/// `(0,0) (1,0) (1,1) (0,1)` in corner order, and the texture index.
pub open spec fn quad_vertex(g: QuadGeometry, texture_index: u32, j: int) -> Vertex {
    if j == 0 {
        Vertex {
            pos_x: g.x0,
            pos_y: g.y0,
            pos_z: g.z,
            uv_u: F32_ZERO_BITS,
            uv_v: F32_ZERO_BITS,
            texture_index,
        }
    } else if j == 1 {
        Vertex {
            pos_x: g.x1,
            pos_y: g.y1,
            pos_z: g.z,
            uv_u: F32_ONE_BITS,
            uv_v: F32_ZERO_BITS,
            texture_index,
        }
    } else if j == 2 {
        Vertex {
            pos_x: g.x2,
            pos_y: g.y2,
            pos_z: g.z,
            uv_u: F32_ONE_BITS,
            uv_v: F32_ONE_BITS,
            texture_index,
        }
    } else {
        Vertex {
            pos_x: g.x3,
            pos_y: g.y3,
            pos_z: g.z,
            uv_u: F32_ZERO_BITS,
            uv_v: F32_ONE_BITS,
            texture_index,
        }
    }
}

/// The index pattern of one quad: the two triangles `0 2 1` and `0 3 2`,
/// winding consistently.
pub open spec fn quad_index_pattern(k: int) -> u16 {
    if k == 0 {
        0
    } else if k == 1 {
        2
    } else if k == 2 {
        1
    } else if k == 3 {
        0
    } else if k == 4 {
        3
    } else {
        2
    }
}

impl DrawTextureObject {
    /// Writes this object's quad into the buffer set: four vertices placed by
    /// `geom` and tagged `texture_index`, then six indices offset by the
    /// buffer's current index count; the cursors advance by four and six.
    fn draw(&self, buffers: &mut Buffers, texture_index: u32, geom: &QuadGeometry)
        requires
            old(buffers).wf(),
            old(buffers).vertex_len + 4 <= MAX_VERTEX,
            old(buffers).index_len + 6 <= MAX_INDEX,
        ensures
            final(buffers).wf(),
            final(buffers).vertex_len == old(buffers).vertex_len + 4,
            final(buffers).index_len == old(buffers).index_len + 6,
            final(buffers).vertex_data@ == old(buffers).vertex_data@ + Seq::new(
                4,
                |j: int| quad_vertex(*geom, texture_index, j),
            ),
            final(buffers).index_data@ == old(buffers).index_data@ + Seq::new(
                6,
                |k: int| (quad_index_pattern(k) + old(buffers).index_len) as u16,
            ),
    {
        let base = buffers.index_len as u16;
        buffers.vertex_data.push(
            Vertex {
                pos_x: geom.x0,
                pos_y: geom.y0,
                pos_z: geom.z,
                uv_u: F32_ZERO_BITS,
                uv_v: F32_ZERO_BITS,
                texture_index,
            },
        );
        buffers.vertex_data.push(
            Vertex {
                pos_x: geom.x1,
                pos_y: geom.y1,
                pos_z: geom.z,
                uv_u: F32_ONE_BITS,
                uv_v: F32_ZERO_BITS,
                texture_index,
            },
        );
        buffers.vertex_data.push(
            Vertex {
                pos_x: geom.x2,
                pos_y: geom.y2,
                pos_z: geom.z,
                uv_u: F32_ONE_BITS,
                uv_v: F32_ONE_BITS,
                texture_index,
            },
        );
        buffers.vertex_data.push(
            Vertex {
                pos_x: geom.x3,
                pos_y: geom.y3,
                pos_z: geom.z,
                uv_u: F32_ZERO_BITS,
                uv_v: F32_ONE_BITS,
                texture_index,
            },
        );
        buffers.index_data.push(base);
        buffers.index_data.push(base + 2);
        buffers.index_data.push(base + 1);
        buffers.index_data.push(base);
        buffers.index_data.push(base + 3);
        buffers.index_data.push(base + 2);
        buffers.vertex_len = buffers.vertex_len + 4;
        buffers.index_len = buffers.index_len + 6;
        proof {
            assert(final(buffers).vertex_data@ =~= old(buffers).vertex_data@ + Seq::new(
                4,
                |j: int| quad_vertex(*geom, texture_index, j),
            ));
            assert(final(buffers).index_data@ =~= old(buffers).index_data@ + Seq::new(
                6,
                |k: int| (quad_index_pattern(k) + old(buffers).index_len) as u16,
            ));
        }
    }
}

/// The vertex record that submission writes for corner `j` of the `i`-th
/// submitted object.
pub open spec fn submitted_vertex(geoms: Seq<QuadGeometry>, i: int, j: int) -> Vertex {
    quad_vertex(geoms[i], i as u32, j)
}

/// The index that submission writes at slot `k` of the `i`-th submitted
/// object, over the index cursor `base` it started from.
pub open spec fn submitted_index(base: u32, i: int, k: int) -> u16 {
    (quad_index_pattern(k) + base + 6 * i) as u16
}

/// How many more quads the buffer set takes before its vertex capacity is
/// reached.
pub open spec fn quads_left(b: Buffers) -> int {
    ((MAX_VERTEX - b.vertex_len) as int) / 4
}

/// The ordered collection of draw objects for one frame, insertion order
/// being document order; submission consumes it and is paint order.
pub struct DrawQueue {
    pub queue: Vec<DrawTextureObject>,
}

impl DrawQueue {
    /// An empty queue.
    pub fn new() -> (r: Self)
        ensures
            r.queue@ == Seq::<DrawTextureObject>::empty(),
    {
        Self { queue: Vec::new() }
    }

    /// Appends one draw object; later objects draw over earlier ones.
    pub fn push(&mut self, draw_texture_object: DrawTextureObject)
        ensures
            final(self).queue@ == old(self).queue@.push(draw_texture_object),
    {
        self.queue.push(draw_texture_object);
    }

    /// Submits the queue: for each object in insertion order, while capacity
    /// remains, writes its quad with a texture index equal to the object's
    /// position, placed by the matching entry of `geoms`. Returns how many
    /// objects were written: objects past the fixed capacity are dropped,
    /// never written out of bounds.
    pub fn submit_draw_queue(self, buffers: &mut Buffers, geoms: &Vec<QuadGeometry>) -> (n: usize)
        requires
            old(buffers).wf(),
            geoms@.len() == self.queue@.len(),
        ensures
            final(buffers).wf(),
            n as int == (if self.queue@.len() as int <= quads_left(*old(buffers)) {
                self.queue@.len() as int
            } else {
                quads_left(*old(buffers))
            }),
            final(buffers).vertex_len == old(buffers).vertex_len + 4 * n,
            final(buffers).index_len == old(buffers).index_len + 6 * n,
            final(buffers).vertex_data@.take(old(buffers).vertex_data@.len() as int) == old(
                buffers,
            ).vertex_data@,
            final(buffers).index_data@.take(old(buffers).index_data@.len() as int) == old(
                buffers,
            ).index_data@,
            forall|i: int, j: int|
                0 <= i < n && 0 <= j < 4 ==> final(buffers).vertex_data@[old(
                    buffers,
                ).vertex_data@.len() + 4 * i + j] == #[trigger] submitted_vertex(geoms@, i, j),
            forall|i: int, k: int|
                0 <= i < n && 0 <= k < 6 ==> final(buffers).index_data@[old(
                    buffers,
                ).index_data@.len() + 6 * i + k] == #[trigger] submitted_index(
                    old(buffers).index_len,
                    i,
                    k,
                ),
    {
        let q = self.queue;
        let mut i: usize = 0;
        while i < q.len()
            invariant
                old(buffers).wf(),
                buffers.wf(),
                q@ == self.queue@,
                i <= q@.len(),
                geoms@.len() == q@.len(),
                i as int <= quads_left(*old(buffers)),
                buffers.vertex_len == old(buffers).vertex_len + 4 * i,
                buffers.index_len == old(buffers).index_len + 6 * i,
                buffers.vertex_data@.take(old(buffers).vertex_data@.len() as int) == old(
                    buffers,
                ).vertex_data@,
                buffers.index_data@.take(old(buffers).index_data@.len() as int) == old(
                    buffers,
                ).index_data@,
                forall|p: int, j: int|
                    0 <= p < i && 0 <= j < 4 ==> buffers.vertex_data@[old(
                        buffers,
                    ).vertex_data@.len() + 4 * p + j] == #[trigger] submitted_vertex(geoms@, p, j),
                forall|p: int, k: int|
                    0 <= p < i && 0 <= k < 6 ==> buffers.index_data@[old(
                        buffers,
                    ).index_data@.len() + 6 * p + k] == #[trigger] submitted_index(
                        old(buffers).index_len,
                        p,
                        k,
                    ),
            decreases q@.len() - i,
        {
            if buffers.vertex_len + 4 > MAX_VERTEX || buffers.index_len + 6 > MAX_INDEX {
                proof {
                    assert(4 * (quads_left(*old(buffers)) as int) <= MAX_VERTEX - old(
                        buffers,
                    ).vertex_len);
                    assert(i as int == quads_left(*old(buffers)));
                }
                return i;
            }
            let ghost prev = *buffers;
            q[i].draw(buffers, i as u32, &geoms[i]);
            proof {
                assert(buffers.vertex_data@.take(old(buffers).vertex_data@.len() as int)
                    =~= prev.vertex_data@.take(old(buffers).vertex_data@.len() as int));
                assert(buffers.index_data@.take(old(buffers).index_data@.len() as int)
                    =~= prev.index_data@.take(old(buffers).index_data@.len() as int));
            }
            i = i + 1;
        }
        proof {
            assert(i as int <= quads_left(*old(buffers)));
        }
        i
    }
}

} // verus!
