//! The per-frame glue: the uniforms bundle, the keyboard decision
//! table, the frame orchestrator that drives vertices through the
//! transform, rasterizer and shading stages into the framebuffer, and a
//! procedural sphere mesh.

use vstd::prelude::*;
use crate::fixed::{dt, abs_i, clamp, clamp_i, div_trunc, fsin, fcos, fsin_spec, fcos_spec, fp_mul, fp_mul_spec, lemma_mul_bound, FP, PI_FP, TWO_PI_FP};
use crate::linalg::{Mat4, Vec2, Vec3, mat_bounded, vec3_bounded, MAT_BOUND};
use crate::noise::NoiseField;
use crate::framebuffer::{Framebuffer, point_spec};
use crate::vertex::{Vertex, ScreenVertex, Fragment, POS_BOUND};
use crate::triangle::{triangle, tri_frags_spec};
use crate::shaders::{ShaderKind, shade, shade_spec, vertex_shader, vertex_shader_spec};
use crate::camera::{Camera, orbit_spec, zoom_spec, move_center_spec};

verus! {

/// Bound on the elapsed-time uniform.
pub const TIME_BOUND: i64 = 0x8_0000_0000;

/// One orbit step per pressed key, about a fiftieth of a half turn.
pub const ROT_STEP: i64 = 4117;

/// One zoom step per pressed key, a tenth of a unit.
pub const ZOOM_STEP: i64 = 6553;

/// One center move step per pressed key, a whole unit.
pub const MOVE_STEP: i64 = 65536;

/// The ring mesh is drawn slightly below the planet's equator.
pub const RING_DROP: i64 = 26214;

/// The per-frame read-only bundle shared by every vertex and fragment
/// operation: the four transform matrices, the elapsed time, and the
/// noise field.
#[derive(Clone, Copy, PartialEq, Eq, Structural, Debug)]
pub struct Uniforms {
    pub model_matrix: Mat4,
    pub view_matrix: Mat4,
    pub projection_matrix: Mat4,
    pub viewport_matrix: Mat4,
    pub time: i64,
    pub noise: NoiseField,
}

impl Uniforms {
    /// All matrices within the transform bound, the time within its.
    pub open spec fn wf(&self) -> bool {
        &&& mat_bounded(self.model_matrix, MAT_BOUND as int)
        &&& mat_bounded(self.view_matrix, MAT_BOUND as int)
        &&& mat_bounded(self.projection_matrix, MAT_BOUND as int)
        &&& mat_bounded(self.viewport_matrix, MAT_BOUND as int)
        &&& 0 <= self.time <= TIME_BOUND
    }
}

/// The noise field every frame shares, seeded once at startup.
pub fn create_noise() -> (n: NoiseField)
    ensures
        n.seed == 1337,
{
    NoiseField::new(1337)
}

/// One frame's worth of key state, as the window host reports it.
#[derive(Clone, Copy, PartialEq, Eq, Structural, Debug)]
pub struct InputState {
    pub key1: bool,
    pub key2: bool,
    pub key3: bool,
    pub key4: bool,
    pub key5: bool,
    pub key6: bool,
    pub key7: bool,
    pub key8: bool,
    pub orbit_left: bool,
    pub orbit_right: bool,
    pub pitch_up: bool,
    pub pitch_down: bool,
    pub move_left: bool,
    pub move_right: bool,
    pub move_up: bool,
    pub move_down: bool,
    pub zoom_in: bool,
    pub zoom_out: bool,
}

/// The shader and ring flag selected by the number keys, later keys
/// winning. The second gas-giant key leaves the ring flag as it was;
/// the last key turns it on; every other key turns it off.
pub open spec fn select_shader_spec(inp: InputState, cur: ShaderKind, ring: bool) -> (ShaderKind, bool) {
    let sr = (cur, ring);
    let sr = if inp.key1 { (ShaderKind::Rocky, false) } else { sr };
    let sr = if inp.key2 { (ShaderKind::GasGiant, sr.1) } else { sr };
    let sr = if inp.key3 { (ShaderKind::Volcanic, false) } else { sr };
    let sr = if inp.key4 { (ShaderKind::Icy, false) } else { sr };
    let sr = if inp.key5 { (ShaderKind::Desert, false) } else { sr };
    let sr = if inp.key6 { (ShaderKind::Water, false) } else { sr };
    let sr = if inp.key7 { (ShaderKind::Moon, false) } else { sr };
    let sr = if inp.key8 { (ShaderKind::GasGiant2, true) } else { sr };
    sr
}

/// The camera after one frame of pressed movement keys: the four orbit
/// keys, then one center move from the four move keys, then the two
/// zoom keys, applied in that order.
pub open spec fn camera_after_spec(inp: InputState, cam: Camera) -> Camera {
    let c = cam;
    let c = if inp.orbit_left { orbit_spec(c, ROT_STEP as int, 0) } else { c };
    let c = if inp.orbit_right { orbit_spec(c, -(ROT_STEP as int), 0) } else { c };
    let c = if inp.pitch_up { orbit_spec(c, 0, -(ROT_STEP as int)) } else { c };
    let c = if inp.pitch_down { orbit_spec(c, 0, ROT_STEP as int) } else { c };
    let mx: int = (if inp.move_right { MOVE_STEP as int } else { 0 }) - (if inp.move_left { MOVE_STEP as int } else { 0 });
    let my: int = (if inp.move_up { MOVE_STEP as int } else { 0 }) - (if inp.move_down { MOVE_STEP as int } else { 0 });
    let c = if mx != 0 || my != 0 { move_center_spec(c, Vec3 { x: mx as i64, y: my as i64, z: 0 }) } else { c };
    let c = if inp.zoom_in { zoom_spec(c, ZOOM_STEP as int) } else { c };
    let c = if inp.zoom_out { zoom_spec(c, -(ZOOM_STEP as int)) } else { c };
    c
}

/// Apply one frame of input: select the shader and ring flag from the
/// number keys and move the camera from the movement keys.
pub fn handle_input(
    input: &InputState,
    camera: &mut Camera,
    current_shader: &mut ShaderKind,
    show_ring: &mut bool,
)
    requires
        old(camera).wf(),
    ensures
        *final(camera) == camera_after_spec(*input, *old(camera)),
        final(camera).wf(),
        (*final(current_shader), *final(show_ring)) == select_shader_spec(
            *input,
            *old(current_shader),
            *old(show_ring),
        ),
{
    if input.key1 {
        *current_shader = ShaderKind::Rocky;
        *show_ring = false;
    }
    if input.key2 {
        *current_shader = ShaderKind::GasGiant;
    }
    if input.key3 {
        *current_shader = ShaderKind::Volcanic;
        *show_ring = false;
    }
    if input.key4 {
        *current_shader = ShaderKind::Icy;
        *show_ring = false;
    }
    if input.key5 {
        *current_shader = ShaderKind::Desert;
        *show_ring = false;
    }
    if input.key6 {
        *current_shader = ShaderKind::Water;
        *show_ring = false;
    }
    if input.key7 {
        *current_shader = ShaderKind::Moon;
        *show_ring = false;
    }
    if input.key8 {
        *current_shader = ShaderKind::GasGiant2;
        *show_ring = true;
    }
    if input.orbit_left {
        camera.orbit(ROT_STEP, 0);
    }
    if input.orbit_right {
        camera.orbit(-ROT_STEP, 0);
    }
    if input.pitch_up {
        camera.orbit(0, -ROT_STEP);
    }
    if input.pitch_down {
        camera.orbit(0, ROT_STEP);
    }
    let mut mx: i64 = 0;
    let mut my: i64 = 0;
    if input.move_left {
        mx = mx - MOVE_STEP;
    }
    if input.move_right {
        mx = mx + MOVE_STEP;
    }
    if input.move_up {
        my = my + MOVE_STEP;
    }
    if input.move_down {
        my = my - MOVE_STEP;
    }
    if mx != 0 || my != 0 {
        camera.move_center(Vec3 { x: mx, y: my, z: 0 });
    }
    if input.zoom_in {
        camera.zoom(ZOOM_STEP);
    }
    if input.zoom_out {
        camera.zoom(-ZOOM_STEP);
    }
}

/// A ring vertex shifted a little below the planet, saturating at the
/// position bound.
pub open spec fn ring_offset_spec(v: Vertex) -> Vertex {
    Vertex {
        position: Vec3 {
            x: v.position.x,
            y: clamp_i(v.position.y - RING_DROP, POS_BOUND as int) as i64,
            z: v.position.z,
        },
        normal: v.normal,
        tex_coords: v.tex_coords,
    }
}

fn ring_offset(v: &Vertex) -> (r: Vertex)
    requires
        v.wf(),
    ensures
        r == ring_offset_spec(*v),
        r.wf(),
{
    Vertex {
        position: Vec3 {
            x: v.position.x,
            y: clamp(v.position.y - RING_DROP, POS_BOUND),
            z: v.position.z,
        },
        normal: v.normal,
        tex_coords: v.tex_coords,
    }
}


/// The fragments of the first `tris` positional triangles of a
/// vertex-shaded mesh, concatenated in order.
pub open spec fn mesh_frags_upto(u: Uniforms, verts: Seq<Vertex>, tris: nat) -> Seq<Fragment>
    decreases tris,
{
    if tris == 0 {
        Seq::empty()
    } else {
        mesh_frags_upto(u, verts, (tris - 1) as nat) + tri_frags_spec(
            vertex_shader_spec(verts[3 * (tris - 1)], u),
            vertex_shader_spec(verts[3 * (tris - 1) + 1], u),
            vertex_shader_spec(verts[3 * (tris - 1) + 2], u),
        )
    }
}

/// Every fragment the mesh yields: its complete vertex triples
/// (elements `3k`, `3k + 1`, `3k + 2`) vertex-shaded and rasterized in
/// order; a trailing remainder of one or two vertices contributes
/// nothing.
pub open spec fn pipeline_frags_spec(u: Uniforms, verts: Seq<Vertex>) -> Seq<Fragment> {
    mesh_frags_upto(u, verts, (verts.len() as int / 3) as nat)
}

/// Transform the vertices of one mesh and rasterize its positional
/// triangles (elements `3k`, `3k + 1`, `3k + 2`; a trailing remainder
/// is discarded), collecting every emitted fragment.
pub fn transform_and_rasterize(uniforms: &Uniforms, vertex_array: &Vec<Vertex>) -> (frags: Vec<Fragment>)
    requires
        uniforms.wf(),
        forall|i: int| 0 <= i < vertex_array@.len() ==> #[trigger] vertex_array@[i].wf(),
    ensures
        frags@ == pipeline_frags_spec(*uniforms, vertex_array@),
        forall|i: int| 0 <= i < frags@.len() ==> #[trigger] frags@[i].wf(),
{
    let mut frags: Vec<Fragment> = Vec::new();
    let n = vertex_array.len();
    let mut t: usize = 0;
    let ghost mut tris: nat = 0nat;
    while n >= 3 && t <= n - 3
        invariant
            uniforms.wf(),
            n == vertex_array@.len(),
            forall|i: int| 0 <= i < vertex_array@.len() ==> #[trigger] vertex_array@[i].wf(),
            t <= n || t == 0,
            t as int == 3 * tris,
            frags@ == mesh_frags_upto(*uniforms, vertex_array@, tris),
            forall|i: int| 0 <= i < frags@.len() ==> #[trigger] frags@[i].wf(),
        decreases n - t,
    {
        let s0 = vertex_shader(&vertex_array[t], uniforms);
        let s1 = vertex_shader(&vertex_array[t + 1], uniforms);
        let s2 = vertex_shader(&vertex_array[t + 2], uniforms);
        let mut tri_frags = triangle(&s0, &s1, &s2);
        let mut k: usize = 0;
        let ghost pre = frags@;
        while k < tri_frags.len()
            invariant
                forall|i: int| 0 <= i < tri_frags@.len() ==> #[trigger] tri_frags@[i].wf(),
                forall|i: int| 0 <= i < frags@.len() ==> #[trigger] frags@[i].wf(),
                k <= tri_frags@.len(),
                frags@ == pre + tri_frags@.subrange(0, k as int),
            decreases tri_frags@.len() - k,
        {
            let f = tri_frags[k];
            proof {
                assert(tri_frags@.subrange(0, k + 1) =~= tri_frags@.subrange(0, k as int).push(
                    tri_frags@[k as int],
                ));
                assert((pre + tri_frags@.subrange(0, k as int)).push(tri_frags@[k as int]) =~= pre
                    + tri_frags@.subrange(0, k as int).push(tri_frags@[k as int]));
            }
            frags.push(f);
            k = k + 1;
        }
        proof {
            assert(tri_frags@.subrange(0, tri_frags@.len() as int) =~= tri_frags@);
            assert(mesh_frags_upto(*uniforms, vertex_array@, (tris + 1) as nat)
                == mesh_frags_upto(*uniforms, vertex_array@, tris) + tri_frags_spec(
                vertex_shader_spec(vertex_array@[3 * tris as int], *uniforms),
                vertex_shader_spec(vertex_array@[3 * tris as int + 1], *uniforms),
                vertex_shader_spec(vertex_array@[3 * tris as int + 2], *uniforms),
            ));
            tris = tris + 1;
        }
        t = t + 3;
    }
    proof {
        if n >= 3 && t > n - 3 {
            vstd::arithmetic::div_mod::lemma_div_multiples_vanish_fancy(
                tris as int,
                n as int - 3 * tris,
                3int,
            );
        } else {
            vstd::arithmetic::div_mod::lemma_div_multiples_vanish_fancy(0int, n as int, 3int);
        }
        assert(vertex_array@.len() as int / 3 == tris);
    }
    frags
}

/// Render one mesh (and, when the flag is set, the ring mesh) into the
/// framebuffer: transform, rasterize, shade each fragment with the
/// selected shader, and write it through the bounds check and the depth
/// test. The buffer's size and configured colors are untouched.
pub fn render(
    framebuffer: &mut Framebuffer,
    uniforms: &Uniforms,
    vertex_array: &Vec<Vertex>,
    ring_vertex_array: &Vec<Vertex>,
    current_shader: ShaderKind,
    show_ring: bool,
)
    requires
        old(framebuffer).wf(),
        uniforms.wf(),
        forall|i: int| 0 <= i < vertex_array@.len() ==> #[trigger] vertex_array@[i].wf(),
        forall|i: int| 0 <= i < ring_vertex_array@.len() ==> #[trigger] ring_vertex_array@[i].wf(),
    ensures
        final(framebuffer).wf(),
        final(framebuffer).width == old(framebuffer).width,
        final(framebuffer).height == old(framebuffer).height,
        final(framebuffer).background_color == old(framebuffer).background_color,
        ({
            let w = old(framebuffer).width as int;
            let h = old(framebuffer).height as int;
            let planet_frags = pipeline_frags_spec(*uniforms, vertex_array@);
            let after_planets = draw_frags_spec(
                old(framebuffer).buffer@,
                old(framebuffer).zbuffer@,
                old(framebuffer).current_color,
                w,
                h,
                *uniforms,
                planet_frags,
                current_shader,
                planet_frags.len(),
            );
            let ring_frags = pipeline_frags_spec(
                *uniforms,
                ring_vertex_array@.map_values(|v: Vertex| ring_offset_spec(v)),
            );
            let fin = if show_ring {
                draw_frags_spec(
                    after_planets.0,
                    after_planets.1,
                    after_planets.2,
                    w,
                    h,
                    *uniforms,
                    ring_frags,
                    ShaderKind::Ring,
                    ring_frags.len(),
                )
            } else {
                after_planets
            };
            final(framebuffer).buffer@ == fin.0 && final(framebuffer).zbuffer@ == fin.1
                && final(framebuffer).current_color == fin.2
        }),
{
    let frags = transform_and_rasterize(uniforms, vertex_array);
    draw_fragments(framebuffer, uniforms, &frags, current_shader);
    if show_ring {
        let mut shifted: Vec<Vertex> = Vec::new();
        let mut i: usize = 0;
        while i < ring_vertex_array.len()
            invariant
                i <= ring_vertex_array@.len(),
                forall|j: int| 0 <= j < ring_vertex_array@.len() ==> #[trigger] ring_vertex_array@[j].wf(),
                forall|j: int| 0 <= j < shifted@.len() ==> #[trigger] shifted@[j].wf(),
                shifted@.len() == i,
                forall|j: int|
                    0 <= j < i ==> #[trigger] shifted@[j] == ring_offset_spec(
                        ring_vertex_array@[j],
                    ),
            decreases ring_vertex_array@.len() - i,
        {
            let v = ring_offset(&ring_vertex_array[i]);
            shifted.push(v);
            i = i + 1;
        }
        proof {
            assert(shifted@ =~= ring_vertex_array@.map_values(
                |v: Vertex| ring_offset_spec(v),
            ));
        }
        let ring_frags = transform_and_rasterize(uniforms, &shifted);
        draw_fragments(framebuffer, uniforms, &ring_frags, ShaderKind::Ring);
    }
}

/// The color buffer, depth buffer and current color after the first
/// `n` fragments of a stream are shaded with one variant and written
/// through the bounds check and the strict depth test, in order. A
/// fragment outside the buffer changes nothing.
pub open spec fn draw_frags_spec(
    colors: Seq<u32>,
    depths: Seq<i64>,
    cur: u32,
    width: int,
    height: int,
    u: Uniforms,
    frags: Seq<Fragment>,
    kind: ShaderKind,
    n: nat,
) -> (Seq<u32>, Seq<i64>, u32)
    decreases n,
{
    if n == 0 {
        (colors, depths, cur)
    } else {
        let prev = draw_frags_spec(colors, depths, cur, width, height, u, frags, kind, (n - 1) as nat);
        let f = frags[n - 1];
        if 0 <= f.x < width && 0 <= f.y < height {
            let hex = shade_spec(kind, f, u).to_hex_spec() as u32;
            let written = point_spec(prev.0, prev.1, width, f.x as int, f.y as int, f.depth, hex);
            (written.0, written.1, hex)
        } else {
            prev
        }
    }
}

fn draw_fragments(
    framebuffer: &mut Framebuffer,
    uniforms: &Uniforms,
    frags: &Vec<Fragment>,
    kind: ShaderKind,
)
    requires
        old(framebuffer).wf(),
        uniforms.wf(),
        forall|i: int| 0 <= i < frags@.len() ==> #[trigger] frags@[i].wf(),
    ensures
        final(framebuffer).wf(),
        final(framebuffer).width == old(framebuffer).width,
        final(framebuffer).height == old(framebuffer).height,
        final(framebuffer).background_color == old(framebuffer).background_color,
        ({
            let after = draw_frags_spec(
                old(framebuffer).buffer@,
                old(framebuffer).zbuffer@,
                old(framebuffer).current_color,
                old(framebuffer).width as int,
                old(framebuffer).height as int,
                *uniforms,
                frags@,
                kind,
                frags@.len(),
            );
            final(framebuffer).buffer@ == after.0 && final(framebuffer).zbuffer@ == after.1
                && final(framebuffer).current_color == after.2
        }),
{
    let mut k: usize = 0;
    while k < frags.len()
        invariant
            framebuffer.wf(),
            framebuffer.width == old(framebuffer).width,
            framebuffer.height == old(framebuffer).height,
            framebuffer.background_color == old(framebuffer).background_color,
            uniforms.wf(),
            forall|i: int| 0 <= i < frags@.len() ==> #[trigger] frags@[i].wf(),
            k <= frags@.len(),
            ({
                let sofar = draw_frags_spec(
                    old(framebuffer).buffer@,
                    old(framebuffer).zbuffer@,
                    old(framebuffer).current_color,
                    old(framebuffer).width as int,
                    old(framebuffer).height as int,
                    *uniforms,
                    frags@,
                    kind,
                    k as nat,
                );
                framebuffer.buffer@ == sofar.0 && framebuffer.zbuffer@ == sofar.1
                    && framebuffer.current_color == sofar.2
            }),
        decreases frags@.len() - k,
    {
        let f = frags[k];
        if 0 <= f.x && 0 <= f.y && f.x < framebuffer.width as i64 && f.y < framebuffer.height as i64 {
            let color = shade(kind, &f, uniforms);
            let hex = color.to_hex();
            framebuffer.set_current_color(hex);
            framebuffer.point(f.x as usize, f.y as usize, f.depth);
        }
        k = k + 1;
    }
}

/// The mesh vertex at lattice point `(i, j)` of a unit sphere with the
/// given subdivision: latitude angle `i * pi / stacks`, longitude angle
/// `j * 2 pi / slices`, position and normal on the sphere, texture
/// coordinate the lattice fractions.
pub open spec fn sphere_vertex_spec(i: int, j: int, stacks: int, slices: int) -> Vertex {
    let theta = dt(i * 205887, stacks);
    let phi = dt(j * 411774, slices);
    let st = fsin_spec(theta);
    let ct = fcos_spec(theta);
    let sp = fsin_spec(phi);
    let cp = fcos_spec(phi);
    let pos = Vec3 {
        x: fp_mul_spec(st, cp) as i64,
        y: ct as i64,
        z: fp_mul_spec(st, sp) as i64,
    };
    Vertex {
        position: pos,
        normal: pos,
        tex_coords: Vec2 { x: dt(j * 65536, slices) as i64, y: dt(i * 65536, stacks) as i64 },
    }
}

/// The six vertices (two triangles) of one latitude-longitude cell,
/// oldest corner first.
pub open spec fn sphere_cell_spec(i: int, j: int, stacks: int, slices: int) -> Seq<Vertex> {
    Seq::empty()
        .push(sphere_vertex_spec(i, j, stacks, slices))
        .push(sphere_vertex_spec(i + 1, j, stacks, slices))
        .push(sphere_vertex_spec(i, j + 1, stacks, slices))
        .push(sphere_vertex_spec(i + 1, j, stacks, slices))
        .push(sphere_vertex_spec(i + 1, j + 1, stacks, slices))
        .push(sphere_vertex_spec(i, j + 1, stacks, slices))
}

/// The cells of one latitude row, west to east.
pub open spec fn sphere_row_spec(i: int, stacks: int, slices: int, cols: nat) -> Seq<Vertex>
    decreases cols,
{
    if cols == 0 {
        Seq::empty()
    } else {
        sphere_row_spec(i, stacks, slices, (cols - 1) as nat) + sphere_cell_spec(
            i,
            cols - 1,
            stacks,
            slices,
        )
    }
}

/// The rows of the sphere mesh, pole to pole.
pub open spec fn sphere_mesh_spec(stacks: int, slices: int, rows: nat) -> Seq<Vertex>
    decreases rows,
{
    if rows == 0 {
        Seq::empty()
    } else {
        sphere_mesh_spec(stacks, slices, (rows - 1) as nat) + sphere_row_spec(
            rows - 1,
            stacks,
            slices,
            slices as nat,
        )
    }
}

fn sphere_vertex(i: usize, j: usize, stacks: usize, slices: usize) -> (v: Vertex)
    requires
        1 <= stacks <= 64,
        1 <= slices <= 64,
        i <= stacks,
        j <= slices,
    ensures
        v == sphere_vertex_spec(i as int, j as int, stacks as int, slices as int),
        v.wf(),
{
    let theta = div_trunc((i as i64) * PI_FP, stacks as i64);
    let phi = div_trunc((j as i64) * TWO_PI_FP, slices as i64);
    proof {
        crate::fixed::lemma_dt_bound((i as i64 as int) * (PI_FP as int), stacks as int, PI_FP as int);
        crate::fixed::lemma_dt_bound((j as i64 as int) * (TWO_PI_FP as int), slices as int, TWO_PI_FP as int);
        assert((i as int) * (PI_FP as int) <= (PI_FP as int) * (stacks as int)) by (nonlinear_arith)
            requires 0 <= i <= stacks, PI_FP as int > 0;
        assert((j as int) * (TWO_PI_FP as int) <= (TWO_PI_FP as int) * (slices as int)) by (nonlinear_arith)
            requires 0 <= j <= slices, TWO_PI_FP as int > 0;
    }
    let st = fsin(theta);
    let ct = fcos(theta);
    let sp = fsin(phi);
    let cp = fcos(phi);
    proof {
        lemma_mul_bound(st as int, cp as int, FP as int, FP as int);
        lemma_mul_bound(st as int, sp as int, FP as int, FP as int);
    }
    let x = fp_mul(st, cp);
    let y = ct;
    let z = fp_mul(st, sp);
    proof {
        crate::fixed::lemma_dt_bound(st as int * cp as int, FP as int, FP as int);
        crate::fixed::lemma_dt_bound(st as int * sp as int, FP as int, FP as int);
    }
    let pos = Vec3 { x, y, z };
    let u = div_trunc((j as i64) * FP, slices as i64);
    let w = div_trunc((i as i64) * FP, stacks as i64);
    proof {
        crate::fixed::lemma_dt_bound((j as i64 as int) * (FP as int), slices as int, FP as int);
        crate::fixed::lemma_dt_bound((i as i64 as int) * (FP as int), stacks as int, FP as int);
        assert((j as int) * (FP as int) <= (FP as int) * (slices as int)) by (nonlinear_arith)
            requires 0 <= j <= slices, FP as int > 0;
        assert((i as int) * (FP as int) <= (FP as int) * (stacks as int)) by (nonlinear_arith)
            requires 0 <= i <= stacks, FP as int > 0;
    }
    Vertex { position: pos, normal: pos, tex_coords: Vec2 { x: u, y: w } }
}

/// A unit sphere mesh of positional triangles: two triangles per
/// latitude-longitude cell, normals equal to positions.
pub fn unit_sphere(stacks: usize, slices: usize) -> (mesh: Vec<Vertex>)
    requires
        1 <= stacks <= 64,
        1 <= slices <= 64,
    ensures
        mesh@ == sphere_mesh_spec(stacks as int, slices as int, stacks as nat),
        mesh@.len() == 6 * stacks * slices,
        forall|i: int| 0 <= i < mesh@.len() ==> #[trigger] mesh@[i].wf(),
{
    let mut mesh: Vec<Vertex> = Vec::new();
    let mut i: usize = 0;
    while i < stacks
        invariant
            1 <= stacks <= 64,
            1 <= slices <= 64,
            i <= stacks,
            mesh@.len() == 6 * i * slices,
            mesh@ == sphere_mesh_spec(stacks as int, slices as int, i as nat),
            forall|k: int| 0 <= k < mesh@.len() ==> #[trigger] mesh@[k].wf(),
        decreases stacks - i,
    {
        let mut j: usize = 0;
        let ghost row_pre = mesh@;
        while j < slices
            invariant
                1 <= stacks <= 64,
                1 <= slices <= 64,
                i < stacks,
                j <= slices,
                mesh@.len() == 6 * i * slices + 6 * j,
                mesh@ == row_pre + sphere_row_spec(i as int, stacks as int, slices as int, j as nat),
                row_pre == sphere_mesh_spec(stacks as int, slices as int, i as nat),
                row_pre.len() == 6 * i * slices,
                forall|k: int| 0 <= k < mesh@.len() ==> #[trigger] mesh@[k].wf(),
            decreases slices - j,
        {
            let p00 = sphere_vertex(i, j, stacks, slices);
            let p10 = sphere_vertex(i + 1, j, stacks, slices);
            let p01 = sphere_vertex(i, j + 1, stacks, slices);
            let p11 = sphere_vertex(i + 1, j + 1, stacks, slices);
            let ghost before = mesh@;
            mesh.push(p00);
            mesh.push(p10);
            mesh.push(p01);
            mesh.push(p10);
            mesh.push(p11);
            mesh.push(p01);
            proof {
                assert(mesh@ =~= before + sphere_cell_spec(
                    i as int,
                    j as int,
                    stacks as int,
                    slices as int,
                ));
                assert(sphere_row_spec(i as int, stacks as int, slices as int, (j + 1) as nat)
                    == sphere_row_spec(i as int, stacks as int, slices as int, j as nat)
                    + sphere_cell_spec(i as int, j as int, stacks as int, slices as int));
                assert(mesh@ =~= row_pre + sphere_row_spec(
                    i as int,
                    stacks as int,
                    slices as int,
                    (j + 1) as nat,
                ));
            }
            j = j + 1;
        }
        proof {
            assert(6 * i * slices + 6 * slices == 6 * (i + 1) * slices) by (nonlinear_arith);
            assert(sphere_mesh_spec(stacks as int, slices as int, (i + 1) as nat)
                == sphere_mesh_spec(stacks as int, slices as int, i as nat) + sphere_row_spec(
                i as int,
                stacks as int,
                slices as int,
                slices as nat,
            ));
        }
        i = i + 1;
    }
    proof {
        assert(6 * i * slices == 6 * stacks * slices) by (nonlinear_arith)
            requires i == stacks;
    }
    mesh
}

} // verus!
