//! The frame driver's verified stages: vertex transformation, primitive
//! assembly and rasterization, shading and depth-tested writing, the
//! per-object uniform update, and the debug orbit overlay.
//!
//! Coherent-noise sampling is the one step the library does not perform:
//! the caller samples each fragment's [`crate::shaders::sample_plan`] and
//! hands the values to [`render_shaded`], which is verified for every
//! possible sample values.

use vstd::prelude::*;
use crate::fx::{FX_ONE, fx_add, fx_mul, fx_mul_s, fx_div, fx_div_s, fx_floor, int_to_fx, clamp64, clamp64_s, sat64};
use crate::vertex::Vertex;
use crate::fragment::Fragment;
use crate::color::Color;
use crate::noise::NoiseSamples;
use crate::renderer::{Object, ShaderType};
use crate::framebuffer::{Framebuffer, FbState, point_upd, LINE_LIMIT};
use crate::raster::{MAX_DIM, triangle, frag_ok_s, covered_s, coords_in_range};
use crate::shaders::{vertex_shader, vertex_shader_s, shade_fragment, shade_fragment_s};
use crate::matrices::{create_model_matrix, create_model_matrix_s};
use crate::Uniforms;

verus! {

/// Run every vertex through the vertex stage.
pub fn transform_vertices(vertex_array: &Vec<Vertex>, uniforms: &Uniforms) -> (tv: Vec<Vertex>)
    ensures
        tv@.len() == vertex_array@.len(),
        forall|i: int|
            0 <= i < tv@.len() ==> #[trigger] tv@[i] == vertex_shader_s(
                vertex_array@[i],
                *uniforms,
            ) && coords_in_range(tv@[i]),
{
    let mut tv: Vec<Vertex> = Vec::new();
    let n: usize = vertex_array.len();
    let mut i: usize = 0;
    while i < n
        invariant
            i <= n,
            n == vertex_array@.len(),
            tv@.len() == i,
            forall|j: int|
                0 <= j < i ==> #[trigger] tv@[j] == vertex_shader_s(vertex_array@[j], *uniforms)
                    && coords_in_range(tv@[j]),
        decreases n - i,
    {
        let transformed: Vertex = vertex_shader(&vertex_array[i], uniforms);
        tv.push(transformed);
        i = i + 1;
    }
    tv
}

/// The `k`-th vertex (0, 1 or 2) of the `t`-th assembled triangle, after
/// the vertex stage.
pub open spec fn tri_vertex_s(vs: Seq<Vertex>, u: Uniforms, t: int, k: int) -> Vertex {
    vertex_shader_s(vs[3 * t + k], u)
}

/// The fragment is one that some assembled triangle of the vertex stream
/// emits into a target of the given size.
pub open spec fn frag_from_stream_s(
    vs: Seq<Vertex>,
    u: Uniforms,
    fr: Fragment,
    w: int,
    h: int,
) -> bool {
    exists|t: int|
        0 <= t < vs.len() as int / 3 && frag_ok_s(
            tri_vertex_s(vs, u, t, 0),
            tri_vertex_s(vs, u, t, 1),
            tri_vertex_s(vs, u, t, 2),
            fr,
            w,
            h,
        )
}

/// The exact fragment sequence of a vertex stream: the in-order
/// concatenation of each assembled triangle's row-major fragment sequence.
pub open spec fn stream_frags_s(
    vs: Seq<Vertex>,
    u: Uniforms,
    w: int,
    h: int,
    t: int,
) -> Seq<Fragment>
    decreases t,
{
    if t <= 0 {
        Seq::<Fragment>::empty()
    } else {
        stream_frags_s(vs, u, w, h, t - 1) + crate::raster::triangle_frags_s(
            tri_vertex_s(vs, u, t - 1, 0),
            tri_vertex_s(vs, u, t - 1, 1),
            tri_vertex_s(vs, u, t - 1, 2),
            w,
            h,
        )
    }
}

/// Transform, assemble and rasterize one object's vertex stream: vertices
/// are grouped into consecutive non-overlapping triples (a trailing group of
/// fewer than three is discarded without error), and each triangle is scan
/// converted. The result is exactly the in-order concatenation of the
/// triangles' fragment sequences; in particular every emitted fragment
/// belongs to some assembled triangle and every in-bounds pixel covered by
/// an assembled triangle is emitted.
#[verifier::loop_isolation(false)]
#[verifier::rlimit(100)]
pub fn render_fragments(uniforms: &Uniforms, vertex_array: &Vec<Vertex>, width: usize, height: usize) -> (frags: Vec<Fragment>)
    requires
        width <= MAX_DIM,
        height <= MAX_DIM,
    ensures
        forall|i: int|
            0 <= i < frags@.len() ==> frag_from_stream_s(
                vertex_array@,
                *uniforms,
                #[trigger] frags@[i],
                width as int,
                height as int,
            ),
        forall|t: int, px: int, py: int|
            0 <= t < vertex_array@.len() as int / 3 && 0 <= px < width && 0 <= py < height
                && covered_s(
                tri_vertex_s(vertex_array@, *uniforms, t, 0),
                tri_vertex_s(vertex_array@, *uniforms, t, 1),
                tri_vertex_s(vertex_array@, *uniforms, t, 2),
                px,
                py,
            ) ==> exists|i: int|
                0 <= i < frags@.len() && (#[trigger] frags@[i]).x == px && frags@[i].y == py,
        frags@ == stream_frags_s(
            vertex_array@,
            *uniforms,
            width as int,
            height as int,
            vertex_array@.len() as int / 3,
        ),
{
    let tv: Vec<Vertex> = transform_vertices(vertex_array, uniforms);
    let n_tri: usize = tv.len() / 3;
    let mut frags: Vec<Fragment> = Vec::new();
    let mut t: usize = 0;
    while t < n_tri
        invariant
            t <= n_tri,
            frags@ == stream_frags_s(
                vertex_array@,
                *uniforms,
                width as int,
                height as int,
                t as int,
            ),
            forall|i: int|
                0 <= i < frags@.len() ==> frag_from_stream_s(
                    vertex_array@,
                    *uniforms,
                    #[trigger] frags@[i],
                    width as int,
                    height as int,
                ),
            forall|tt: int, px: int, py: int|
                0 <= tt < t && 0 <= px < width && 0 <= py < height && covered_s(
                    tri_vertex_s(vertex_array@, *uniforms, tt, 0),
                    tri_vertex_s(vertex_array@, *uniforms, tt, 1),
                    tri_vertex_s(vertex_array@, *uniforms, tt, 2),
                    px,
                    py,
                ) ==> exists|i: int|
                    0 <= i < frags@.len() && (#[trigger] frags@[i]).x == px && frags@[i].y == py,
        decreases n_tri - t,
    {
        let va: Vertex = tv[3 * t];
        let vb: Vertex = tv[3 * t + 1];
        let vc: Vertex = tv[3 * t + 2];
        let tri_frags: Vec<Fragment> = triangle(&va, &vb, &vc, width, height);
        let ghost pre: Seq<Fragment> = frags@;
        let m: usize = tri_frags.len();
        let mut k: usize = 0;
        while k < m
            invariant
                k <= m,
                frags@.len() == pre.len() + k,
                forall|j: int| 0 <= j < pre.len() ==> frags@[j] == pre[j],
                forall|j: int| 0 <= j < k ==> frags@[pre.len() + j] == tri_frags@[j],
            decreases m - k,
        {
            frags.push(tri_frags[k]);
            k = k + 1;
        }
        proof {
            assert(t < vertex_array@.len() as int / 3);
            assert(frags@ =~= pre + tri_frags@);
            assert(va == tri_vertex_s(vertex_array@, *uniforms, t as int, 0));
            assert(vb == tri_vertex_s(vertex_array@, *uniforms, t as int, 1));
            assert(vc == tri_vertex_s(vertex_array@, *uniforms, t as int, 2));
            assert(stream_frags_s(
                vertex_array@,
                *uniforms,
                width as int,
                height as int,
                t as int + 1,
            ) =~= pre + crate::raster::triangle_frags_s(va, vb, vc, width as int, height as int));
            assert forall|i: int|
                0 <= i < frags@.len() implies frag_from_stream_s(
                vertex_array@,
                *uniforms,
                #[trigger] frags@[i],
                width as int,
                height as int,
            ) by {
                if i < pre.len() {
                    assert(frags@[i] == pre[i]);
                    assert(frag_from_stream_s(
                        vertex_array@,
                        *uniforms,
                        pre[i],
                        width as int,
                        height as int,
                    ));
                } else {
                    assert(frags@[i] == tri_frags@[i - pre.len()]);
                    assert(va == tri_vertex_s(vertex_array@, *uniforms, t as int, 0));
                    assert(vb == tri_vertex_s(vertex_array@, *uniforms, t as int, 1));
                    assert(vc == tri_vertex_s(vertex_array@, *uniforms, t as int, 2));
                    assert(frag_ok_s(va, vb, vc, frags@[i], width as int, height as int));
                }
            }
            assert forall|tt: int, px: int, py: int|
                0 <= tt < t + 1 && 0 <= px < width && 0 <= py < height && covered_s(
                    tri_vertex_s(vertex_array@, *uniforms, tt, 0),
                    tri_vertex_s(vertex_array@, *uniforms, tt, 1),
                    tri_vertex_s(vertex_array@, *uniforms, tt, 2),
                    px,
                    py,
                ) implies exists|i: int|
                0 <= i < frags@.len() && (#[trigger] frags@[i]).x == px && frags@[i].y == py by {
                if tt < t {
                    let i = choose|i: int|
                        0 <= i < pre.len() && (#[trigger] pre[i]).x == px && pre[i].y == py;
                    assert(frags@[i].x == px && frags@[i].y == py);
                } else {
                    assert(covered_s(va, vb, vc, px, py));
                    let j = choose|j: int|
                        0 <= j < tri_frags@.len() && (#[trigger] tri_frags@[j]).x == px
                            && tri_frags@[j].y == py;
                    assert(frags@[pre.len() + j].x == px && frags@[pre.len() + j].y == py);
                }
            }
        }
        t = t + 1;
    }
    proof {
        assert(n_tri as int == vertex_array@.len() as int / 3);
    }
    frags
}

/// The packed color a material produces for one fragment.
pub open spec fn shade_hex_s(shader: ShaderType, f: Fragment, time: u32, ns: NoiseSamples) -> u32 {
    shade_fragment_s(shader, f, time, ns).to_hex_s()
}

/// The framebuffer planes after shading and depth-testing the first `n`
/// fragments in order: out-of-bounds fragments are discarded, the rest go
/// through the depth-tested point write with their material color.
pub open spec fn render_fold_s(
    st: FbState,
    w: int,
    h: int,
    shader: ShaderType,
    time: u32,
    frags: Seq<Fragment>,
    samples: Seq<NoiseSamples>,
    n: int,
) -> FbState
    decreases n,
{
    if n <= 0 {
        st
    } else {
        let prev = render_fold_s(st, w, h, shader, time, frags, samples, n - 1);
        let f = frags[n - 1];
        if (f.x as int) < w && (f.y as int) < h {
            point_upd(
                prev,
                w,
                h,
                shade_hex_s(shader, f, time, samples[n - 1]),
                f.x as int,
                f.y as int,
                f.depth,
            )
        } else {
            prev
        }
    }
}

/// The draw-color register after shading the first `n` fragments: the
/// color of the last in-bounds fragment, or the starting color.
pub open spec fn render_fold_color_s(
    cur: u32,
    w: int,
    h: int,
    shader: ShaderType,
    time: u32,
    frags: Seq<Fragment>,
    samples: Seq<NoiseSamples>,
    n: int,
) -> u32
    decreases n,
{
    if n <= 0 {
        cur
    } else {
        let f = frags[n - 1];
        if (f.x as int) < w && (f.y as int) < h {
            shade_hex_s(shader, f, time, samples[n - 1])
        } else {
            render_fold_color_s(cur, w, h, shader, time, frags, samples, n - 1)
        }
    }
}

/// Shade a fragment list with one material and write the results through
/// the depth test. `samples` answers each fragment's sample plan in order;
/// whatever values they hold, the resulting framebuffer is exactly the fold
/// of depth-tested writes of the material's colors.
pub fn render_shaded(
    fb: &mut Framebuffer,
    shader: ShaderType,
    uniforms: &Uniforms,
    frags: &Vec<Fragment>,
    samples: &Vec<NoiseSamples>,
)
    requires
        old(fb).wf(),
        samples@.len() == frags@.len(),
    ensures
        final(fb).wf(),
        final(fb).width == old(fb).width,
        final(fb).height == old(fb).height,
        final(fb).background_color == old(fb).background_color,
        final(fb).state() == render_fold_s(
            old(fb).state(),
            old(fb).width as int,
            old(fb).height as int,
            shader,
            uniforms.time,
            frags@,
            samples@,
            frags@.len() as int,
        ),
        final(fb).current_color == render_fold_color_s(
            old(fb).current_color,
            old(fb).width as int,
            old(fb).height as int,
            shader,
            uniforms.time,
            frags@,
            samples@,
            frags@.len() as int,
        ),
{
    let n: usize = frags.len();
    let mut i: usize = 0;
    while i < n
        invariant
            i <= n,
            n == frags@.len(),
            samples@.len() == frags@.len(),
            fb.wf(),
            fb.width == old(fb).width,
            fb.height == old(fb).height,
            fb.background_color == old(fb).background_color,
            fb.state() == render_fold_s(
                old(fb).state(),
                old(fb).width as int,
                old(fb).height as int,
                shader,
                uniforms.time,
                frags@,
                samples@,
                i as int,
            ),
            fb.current_color == render_fold_color_s(
                old(fb).current_color,
                old(fb).width as int,
                old(fb).height as int,
                shader,
                uniforms.time,
                frags@,
                samples@,
                i as int,
            ),
        decreases n - i,
    {
        let f: Fragment = frags[i];
        if f.x < fb.width && f.y < fb.height {
            let ns: NoiseSamples = samples[i];
            let shaded_color: Color = shade_fragment(shader, &f, uniforms, &ns);
            let color: u32 = shaded_color.to_hex();
            fb.set_current_color(color);
            fb.point(f.x, f.y, f.depth);
        }
        i = i + 1;
    }
}

/// The frame's uniforms updated for one object: the model matrix is rebuilt
/// from the object's transform; everything else is carried over.
pub fn uniforms_for_object(uniforms: &Uniforms, object: &Object) -> (u: Uniforms)
    ensures
        u == (Uniforms {
            model_matrix: create_model_matrix_s(
                object.transform.position,
                object.transform.scale,
                object.transform.rotation,
            ),
            ..*uniforms
        }),
{
    let model_matrix: crate::vecmat::Mat4 = create_model_matrix(
        object.transform.position,
        object.transform.scale,
        object.transform.rotation,
    );
    Uniforms {
        model_matrix,
        view_matrix: uniforms.view_matrix,
        projection_matrix: uniforms.projection_matrix,
        viewport_matrix: uniforms.viewport_matrix,
        time: uniforms.time,
        noise: uniforms.noise,
    }
}

/// The binary angle of the `i`-th of one hundred points around the orbit.
pub open spec fn orbit_angle_s(i: int) -> u16 {
    ((i * 65536 / 100) % 65536) as u16
}

/// One orbit coordinate: a fixed-point offset shifted to the target's
/// center, floored to a pixel and clamped into the drawable range (negative
/// coordinates collapse to zero, as an integer cast of a negative position
/// would).
pub open spec fn orbit_coord_s(v: i64, half: i64) -> usize {
    clamp64_s(sat64(v + half) as int / FX_ONE as int, 0, LINE_LIMIT as int) as usize
}

/// The pixel column of the `i`-th orbit point.
pub open spec fn orbit_x_s(radius: i64, aspect: i64, half_w: i64, i: int) -> usize {
    orbit_coord_s(
        fx_mul_s(fx_mul_s(radius, sat64(crate::fx::fx_cos_units_s(orbit_angle_s(i)))), aspect),
        half_w,
    )
}

/// The pixel row of the `i`-th orbit point.
pub open spec fn orbit_z_s(radius: i64, half_h: i64, i: int) -> usize {
    orbit_coord_s(fx_mul_s(radius, sat64(crate::fx::fx_sin_units_s(orbit_angle_s(i)))), half_h)
}

/// The target's fixed-point aspect ratio, width over height.
pub open spec fn aspect_s(width: int, height: int) -> i64 {
    fx_div_s(sat64(width * 65536), sat64(height * 65536))
}

/// Draw a circular orbit overlay as one hundred chords, stretched by the
/// target's aspect ratio and centered on the target, with the debug line
/// primitive (no depth testing). It paints pixels only with the orbit
/// color, and every in-bounds orbit point is painted.
#[verifier::rlimit(60)]
pub fn draw_orbit(fb: &mut Framebuffer, radius: i64)
    requires
        old(fb).wf(),
    ensures
        final(fb).wf(),
        final(fb).width == old(fb).width,
        final(fb).height == old(fb).height,
        final(fb).background_color == old(fb).background_color,
        final(fb).current_color == old(fb).current_color,
        final(fb).zbuffer@ == old(fb).zbuffer@,
        final(fb).buffer@.len() == old(fb).buffer@.len(),
        forall|k: int|
            0 <= k < final(fb).buffer@.len() ==> final(fb).buffer@[k] == old(fb).buffer@[k]
                || final(fb).buffer@[k] == 0x888888,
        forall|i: int|
            #![trigger orbit_angle_s(i)]
            0 <= i <= 100 && orbit_x_s(
                radius,
                aspect_s(old(fb).width as int, old(fb).height as int),
                sat64((old(fb).width as int / 2) * 65536),
                i,
            ) < old(fb).width && orbit_z_s(radius, sat64((old(fb).height as int / 2) * 65536), i)
                < old(fb).height ==> crate::framebuffer::pixel_at(
                final(fb).buffer@,
                old(fb).width as int,
                orbit_x_s(
                    radius,
                    aspect_s(old(fb).width as int, old(fb).height as int),
                    sat64((old(fb).width as int / 2) * 65536),
                    i,
                ) as int,
                orbit_z_s(radius, sat64((old(fb).height as int / 2) * 65536), i) as int,
            ) == 0x888888,
{
    let aspect: i64 = fx_div(int_to_fx(fb.width as i64), int_to_fx(fb.height as i64));
    let half_w: i64 = int_to_fx((fb.width / 2) as i64);
    let half_h: i64 = int_to_fx((fb.height / 2) as i64);
    let num_points: usize = 100;
    let mut i: usize = 0;
    while i < num_points
        invariant
            num_points == 100,
            i <= num_points,
            fb.wf(),
            fb.width == old(fb).width,
            fb.height == old(fb).height,
            fb.background_color == old(fb).background_color,
            fb.current_color == old(fb).current_color,
            fb.zbuffer@ == old(fb).zbuffer@,
            fb.buffer@.len() == old(fb).buffer@.len(),
            aspect == aspect_s(old(fb).width as int, old(fb).height as int),
            half_w == sat64((old(fb).width as int / 2) * 65536),
            half_h == sat64((old(fb).height as int / 2) * 65536),
            forall|k: int|
                0 <= k < fb.buffer@.len() ==> fb.buffer@[k] == old(fb).buffer@[k]
                    || fb.buffer@[k] == 0x888888,
            forall|j: int|
                #![trigger orbit_angle_s(j)]
                0 <= j <= i && i > 0 && orbit_x_s(radius, aspect, half_w, j) < old(fb).width
                    && orbit_z_s(radius, half_h, j) < old(fb).height
                    ==> crate::framebuffer::pixel_at(
                    fb.buffer@,
                    old(fb).width as int,
                    orbit_x_s(radius, aspect, half_w, j) as int,
                    orbit_z_s(radius, half_h, j) as int,
                ) == 0x888888,
        decreases num_points - i,
    {
        let a1: u16 = ((i as u64 * 65536 / 100) % 65536) as u16;
        let a2: u16 = (((i as u64 + 1) * 65536 / 100) % 65536) as u16;
        let x1: usize = orbit_coord(fx_mul(fx_mul(radius, crate::fx::fx_cos_units(a1)), aspect), half_w);
        let z1: usize = orbit_coord(fx_mul(radius, crate::fx::fx_sin_units(a1)), half_h);
        let x2: usize = orbit_coord(fx_mul(fx_mul(radius, crate::fx::fx_cos_units(a2)), aspect), half_w);
        let z2: usize = orbit_coord(fx_mul(radius, crate::fx::fx_sin_units(a2)), half_h);
        proof {
            assert(a1 == orbit_angle_s(i as int));
            assert(a2 == orbit_angle_s(i as int + 1));
            assert(x1 == orbit_x_s(radius, aspect, half_w, i as int));
            assert(z1 == orbit_z_s(radius, half_h, i as int));
            assert(x2 == orbit_x_s(radius, aspect, half_w, i as int + 1));
            assert(z2 == orbit_z_s(radius, half_h, i as int + 1));
        }
        let ghost pre: Seq<u32> = fb.buffer@;
        fb.draw_line(x1, z1, x2, z2, 0x888888);
        proof {
            let w = old(fb).width as int;
            let h = old(fb).height as int;
            assert forall|j: int|
                #![trigger orbit_angle_s(j)]
                0 <= j <= i + 1 && (i + 1) > 0 && orbit_x_s(radius, aspect, half_w, j) < old(
                fb,
            ).width && orbit_z_s(radius, half_h, j) < old(fb).height
                implies crate::framebuffer::pixel_at(
                fb.buffer@,
                w,
                orbit_x_s(radius, aspect, half_w, j) as int,
                orbit_z_s(radius, half_h, j) as int,
            ) == 0x888888 by {
                let px = orbit_x_s(radius, aspect, half_w, j) as int;
                let pz = orbit_z_s(radius, half_h, j) as int;
                crate::framebuffer::lemma_rowmajor_bound(px, pz, w, h);
                if j == i {
                    assert(px == x1 as int && pz == z1 as int);
                } else if j == i + 1 {
                    assert(px == x2 as int && pz == z2 as int);
                } else {
                    assert(crate::framebuffer::pixel_at(pre, w, px, pz) == 0x888888);
                    assert(fb.buffer@[pz * w + px] == pre[pz * w + px] || fb.buffer@[pz * w + px]
                        == 0x888888);
                }
            }
        }
        i = i + 1;
    }
}

/// Compute one orbit coordinate.
fn orbit_coord(v: i64, half: i64) -> (p: usize)
    ensures
        p == orbit_coord_s(v, half),
        p <= LINE_LIMIT,
{
    let shifted: i64 = fx_add(v, half);
    let floored: i64 = fx_floor(shifted);
    clamp64(floored, 0, LINE_LIMIT as i64) as usize
}

} // verus!
