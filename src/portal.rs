use vstd::prelude::*;
use crate::fixed::{UNIT, MAX_CELLS};
use crate::camera::Camera;
use crate::screen::{Atlas, pixel};
use crate::walls::screen_ok;
use crate::sprites::{
    Sprite, Blend, Coverage, group_ok, group_pixel, group_drawn, group_border, render_sprites, project, covers,
    in_border, before_wall, rect_left, rect_right, far_to_near, keys_of,
};
use crate::frame::{Scene, render, frame_pixel, walls_depth};

verus! {

/// A portal is rendered while the camera is nearer than this many cells.
pub const ACTIVE_RANGE: i64 = 7;

/// A portal: where it stands, which texture of the portal atlas shows its
/// view, and where it leads.
#[derive(Clone, Copy, Debug, PartialEq, Eq, Structural)]
pub struct Portal {
    pub x: i64,
    pub y: i64,
    pub texture: usize,
    pub dest_x: i64,
    pub dest_y: i64,
}

/// The offscreen buffers of portal views, and the RGBA textures (one per
/// portal, the size of the screen) that they are uploaded into.
pub struct PortalView {
    pub color: Vec<u32>,
    pub depth: Vec<i64>,
    pub textures: Atlas,
}

impl Portal {
    pub open spec fn wf(&self) -> bool {
        &&& 0 <= self.x < MAX_CELLS * UNIT
        &&& 0 <= self.y < MAX_CELLS * UNIT
        &&& 0 <= self.dest_x < MAX_CELLS * UNIT
        &&& 0 <= self.dest_y < MAX_CELLS * UNIT
    }

    /// The portal drawn as a sprite.
    pub open spec fn sprite(&self) -> Sprite {
        Sprite { x: self.x, y: self.y, texture: self.texture }
    }
}

impl PortalView {
    pub open spec fn wf(&self, w: int, h: int) -> bool {
        &&& self.color@.len() == w * h
        &&& self.depth@.len() == w
        &&& self.textures.wf()
        &&& self.textures.bytes_per_pixel == 4
        &&& self.textures.width == w
        &&& self.textures.height == h
    }
}

pub open spec fn dist_sq(cam: Camera, p: Portal) -> int {
    (cam.pos_x - p.x) * (cam.pos_x - p.x) + (cam.pos_y - p.y) * (cam.pos_y - p.y)
}

/// The portal is rendered: the camera is within `ACTIVE_RANGE` cells.
pub open spec fn is_active(cam: Camera, p: Portal) -> bool {
    dist_sq(cam, p) < (ACTIVE_RANGE * UNIT) * (ACTIVE_RANGE * UNIT)
}

/// The camera at the destination, keeping its offset from the portal and
/// its orientation.
pub open spec fn view_camera(cam: Camera, p: Portal) -> Camera {
    Camera { pos_x: (p.dest_x + cam.pos_x - p.x) as i64, pos_y: (p.dest_y + cam.pos_y - p.y) as i64, ..cam }
}

/// Teleport when the portal drew something and none of its border: its
/// rectangle covers the whole view.
pub open spec fn triggers(c: Coverage) -> bool {
    c.drawn && !c.border
}

/// The RGBA bytes of a colour buffer, alpha opaque.
pub open spec fn rgba_of(color: Seq<u32>) -> Seq<u8> {
    Seq::new(4 * color.len(), |i: int| if i % 4 == 3 { 255u8 } else { ((color[i / 4] >> (8 * (i % 4)) as u32) & 0xff) as u8 })
}

/// `d` is the integer square root of `n`.
pub open spec fn is_root(d: int, n: int) -> bool {
    0 <= d && d * d <= n < (d + 1) * (d + 1)
}

/// Integer square root.
pub fn isqrt(n: u64) -> (r: u64)
    requires
        n < 0x100000000,
    ensures
        r * r <= n < (r + 1) * (r + 1),
        r < 0x10000,
{
    let mut lo: u64 = 0;
    let mut hi: u64 = 0x10000;
    assert(hi * hi > n) by (nonlinear_arith) requires hi == 0x10000, n < 0x100000000;
    while hi - lo > 1
        invariant
            lo < hi <= 0x10000,
            lo * lo <= n < hi * hi,
        decreases hi - lo,
    {
        let mid = lo + (hi - lo) / 2;
        assert(mid * mid <= 0x100000000) by (nonlinear_arith) requires mid <= 0x10000;
        if mid * mid <= n {
            lo = mid;
        } else {
            hi = mid;
        }
    }
    assert(hi == lo + 1);
    lo
}

/// The pose and start distance of a portal's view, or `None` while the
/// portal is dormant.  The view stands within the active range of the
/// destination, so within `POS_MARGIN` of the grid's square.
pub fn portal_view(cam: &Camera, p: &Portal) -> (r: Option<(Camera, i64)>)
    requires
        cam.wf(),
        p.wf(),
    ensures
        r is Some <==> is_active(*cam, *p),
        r matches Some((c, d)) ==> {
            &&& c == view_camera(*cam, *p)
            &&& c.wf()
            &&& 0 <= d < ACTIVE_RANGE * UNIT
            &&& d * d <= dist_sq(*cam, *p) < (d + 1) * (d + 1)
        },
{
    let ex = cam.pos_x - p.x;
    let ey = cam.pos_y - p.y;
    assert(ex * ex <= 0x2000000000 && ey * ey <= 0x2000000000 && ex * ex >= 0 && ey * ey >= 0) by (nonlinear_arith)
        requires -270336 <= ex <= 270336, -270336 <= ey <= 270336;
    let d2 = ex * ex + ey * ey;
    let range = ACTIVE_RANGE * UNIT;
    if d2 >= range * range {
        return None;
    }
    let vx = p.dest_x + ex;
    let vy = p.dest_y + ey;
    assert(-range < ex < range && -range < ey < range) by (nonlinear_arith)
        requires ex * ex + ey * ey < range * range, range > 0, ey * ey >= 0, ex * ex >= 0;
    let root = isqrt(d2 as u64);
    let d = root as i64;
    assert(d < range) by (nonlinear_arith)
        requires d * d <= d2 < range * range, d >= 0, range > 0;
    Some((cam.moved_to(vx, vy), d))
}

/// Whether a portal pass should teleport the camera.
pub fn should_teleport(c: Coverage) -> (r: bool)
    ensures
        r == triggers(c),
{
    c.drawn && !c.border
}

/// Converts a colour buffer to RGBA texture bytes with opaque alpha.
pub fn upload_view(color: &Vec<u32>) -> (bytes: Vec<u8>)
    requires
        color@.len() <= 0x1000000,
    ensures
        bytes@ == rgba_of(color@),
{
    let mut bytes: Vec<u8> = Vec::new();
    let mut i: usize = 0;
    while i < color.len()
        invariant
            color@.len() <= 0x1000000,
            i <= color@.len(),
            bytes@.len() == 4 * i,
            forall|k: int| 0 <= k < 4 * i ==> #[trigger] bytes@[k] == rgba_of(color@)[k],
        decreases color@.len() - i,
    {
        let c = color[i];
        let ghost before = bytes@;
        bytes.push((c & 0xff) as u8);
        bytes.push(((c >> 8u32) & 0xff) as u8);
        bytes.push(((c >> 16u32) & 0xff) as u8);
        bytes.push(255u8);
        proof {
            assert forall|k: int| 0 <= k < 4 * (i + 1) implies #[trigger] bytes@[k] == rgba_of(color@)[k] by {
                if k >= 4 * i {
                    let j = k - 4 * i;
                    assert(k / 4 == i as int && k % 4 == j) by (nonlinear_arith)
                        requires k == 4 * i + j, 0 <= j < 4;
                    assert(c >> 0u32 == c) by (bit_vector);
                } else {
                    assert(bytes@[k] == before[k]);
                }
            }
        }
        i += 1;
    }
    assert(bytes@ =~= rgba_of(color@));
    bytes
}

/// The portal teleports a camera at `cam`: it is active and its pass draws
/// portal pixels but no border.
pub open spec fn fires(cam: Camera, p: Portal, depth: Seq<i64>, w: int, h: int) -> bool {
    is_active(cam, p) && triggers(portal_coverage(cam, p, depth, w, h))
}

/// The camera after portal `p` has been rendered.
pub open spec fn after_portal(cam: Camera, p: Portal, depth: Seq<i64>, w: int, h: int) -> Camera {
    if fires(cam, p, depth, w, h) { cam.moved_to_spec(p.dest_x, p.dest_y) } else { cam }
}

/// The camera as portal `i` is reached, the earlier portals having moved it.
pub open spec fn camera_at(cam: Camera, portals: Seq<Portal>, depth: Seq<i64>, w: int, h: int, i: nat) -> Camera
    decreases i,
{
    if i == 0 {
        cam
    } else {
        after_portal(camera_at(cam, portals, depth, w, h, (i - 1) as nat), portals[i - 1], depth, w, h)
    }
}

/// What one portal's pass does to the offscreen view (`v0` to `v1`) and to
/// the frame (`c0` to `c1`).  A dormant portal changes nothing.  An active
/// one renders the scene from the displaced pose, starting at the portal's
/// distance, into the view; uploads the view as its RGBA texture; and is
/// composited into the frame as a portal-mapped sprite.
pub open spec fn portal_pass(
    scene: Scene,
    p: Portal,
    v0: PortalView,
    v1: PortalView,
    c0: Seq<u32>,
    c1: Seq<u32>,
    depth: Seq<i64>,
    w: int,
    h: int,
    cam: Camera,
    tick: int,
) -> bool {
    if !is_active(cam, p) {
        &&& c1 == c0
        &&& v1.color@ == v0.color@
        &&& v1.depth@ == v0.depth@
        &&& v1.textures.textures@ == v0.textures.textures@
    } else {
        &&& exists|d: int|
            #[trigger] is_root(d, dist_sq(cam, p)) && v1.depth@ == walls_depth(scene, view_camera(cam, p), w, d, v0.depth@)
                && forall|x: int, y: int|
                0 <= x < w && 0 <= y < h ==> #[trigger] v1.color@[pixel(w, x, y)] == frame_pixel(
                    scene, view_camera(cam, p), w, h, d, tick, v0.depth@, x, y)
        &&& v1.textures.textures@[p.texture as int]@ == rgba_of(v1.color@)
        &&& forall|i: int| 0 <= i < v1.textures.textures@.len() && i != p.texture
            ==> #[trigger] v1.textures.textures@[i] == v0.textures.textures@[i]
        &&& forall|x: int, y: int|
            0 <= x < w && 0 <= y < h ==> #[trigger] c1[pixel(w, x, y)] == group_pixel(
                v1.textures,
                Blend::PortalMapped,
                cam,
                seq![p.sprite()],
                far_to_near(keys_of(cam, seq![p.sprite()]), 1),
                1,
                depth,
                w,
                h,
                tick,
                x,
                y,
                c0[pixel(w, x, y)],
            )
    }
}

/// Views and frames `views[i]`, `colors[i]` before portal `i` and after the
/// last one, each step one portal's pass with the camera as it stands then.
pub open spec fn portal_chain(
    scene: Scene,
    portals: Seq<Portal>,
    views: Seq<PortalView>,
    colors: Seq<Seq<u32>>,
    depth: Seq<i64>,
    w: int,
    h: int,
    cam: Camera,
    tick: int,
) -> bool {
    &&& views.len() == portals.len() + 1
    &&& colors.len() == portals.len() + 1
    &&& forall|i: int| 0 <= i < portals.len() ==> #[trigger] portal_pass(
        scene, portals[i], views[i], views[i + 1], colors[i], colors[i + 1], depth, w, h,
        camera_at(cam, portals, depth, w, h, i as nat), tick)
}

/// Renders one portal.  While it is active, draws the scene from the
/// destination pose (skipping walls nearer than the portal) into the
/// offscreen buffers, uploads that view as the portal's texture, and
/// composites the portal as a portal-mapped sprite into the frame.  Returns
/// the camera moved to the destination when the portal covered the whole
/// view without showing its border.
pub fn render_portal(
    scene: &Scene,
    portal: &Portal,
    view: &mut PortalView,
    color: &mut Vec<u32>,
    depth: &Vec<i64>,
    w: usize,
    h: usize,
    cam: &Camera,
    tick: u64,
) -> (r: Option<Camera>)
    requires
        scene.wf(w as int, h as int),
        cam.wf(),
        portal.wf(),
        screen_ok(w as int, h as int),
        old(view).wf(w as int, h as int),
        portal.texture < old(view).textures.textures@.len(),
        old(color)@.len() == w * h,
        depth@.len() == w,
    ensures
        final(view).wf(w as int, h as int),
        final(view).textures.textures@.len() == old(view).textures.textures@.len(),
        final(color)@.len() == w * h,
        portal_pass(*scene, *portal, *old(view), *final(view), old(color)@, final(color)@, depth@, w as int, h as int, *cam, tick as int),
        r == if fires(*cam, *portal, depth@, w as int, h as int) {
            Some(cam.moved_to_spec(portal.dest_x, portal.dest_y))
        } else {
            None::<Camera>
        },
{
    match portal_view(cam, portal) {
        None => None,
        Some((vc, d)) => {
            render(scene, &mut view.color, &mut view.depth, w, h, &vc, d, tick);
            assert(is_root(d as int, dist_sq(*cam, *portal)));
            assert(w * h <= 2048 * 2048) by (nonlinear_arith)
                requires w <= 2048, h <= 2048;
            let bytes = upload_view(&view.color);
            let ghost before = view.textures.textures@;
            view.textures.textures.set(portal.texture, bytes);
            assert forall|i: int| 0 <= i < view.textures.textures@.len() implies (#[trigger] view.textures.textures@[i])@.len()
                >= view.textures.width * view.textures.height * view.textures.bytes_per_pixel by {
                if i != portal.texture {
                    assert(view.textures.textures@[i] == before[i]);
                }
            }
            let s = Sprite { x: portal.x, y: portal.y, texture: portal.texture };
            let group = vec![s];
            assert(group@ == seq![portal.sprite()]);
            let cov = render_sprites(&view.textures, Blend::PortalMapped, &group, color, depth, w, h, cam, tick);
            if should_teleport(cov) {
                Some(cam.moved_to(portal.dest_x, portal.dest_y))
            } else {
                None
            }
        },
    }
}

/// Renders every portal in turn, each with the camera as the earlier ones
/// left it, and moves the camera through each portal that fires (there is
/// no latch: several may fire in one call).  Returns the indices of those
/// portals, in order.
pub fn render_portals(
    scene: &Scene,
    portals: &Vec<Portal>,
    view: &mut PortalView,
    color: &mut Vec<u32>,
    depth: &Vec<i64>,
    w: usize,
    h: usize,
    cam: &mut Camera,
    tick: u64,
) -> (teleports: Vec<usize>)
    requires
        scene.wf(w as int, h as int),
        old(cam).wf(),
        screen_ok(w as int, h as int),
        old(view).wf(w as int, h as int),
        forall|i: int| 0 <= i < portals@.len() ==> (#[trigger] portals@[i]).wf()
            && portals@[i].texture < old(view).textures.textures@.len(),
        old(color)@.len() == w * h,
        depth@.len() == w,
    ensures
        final(view).wf(w as int, h as int),
        final(color)@.len() == w * h,
        final(cam).wf(),
        *final(cam) == camera_at(*old(cam), portals@, depth@, w as int, h as int, portals@.len()),
        forall|i: int| 0 <= i < portals@.len() ==> (#[trigger] teleports@.contains(i as usize) <==> fires(
            camera_at(*old(cam), portals@, depth@, w as int, h as int, i as nat), portals@[i], depth@, w as int, h as int)),
        forall|k: int| 0 <= k < teleports@.len() ==> (#[trigger] teleports@[k]) < portals@.len(),
        forall|k: int, l: int| 0 <= k < l < teleports@.len() ==> teleports@[k] < teleports@[l],
        exists|views: Seq<PortalView>, colors: Seq<Seq<u32>>|
            #[trigger] portal_chain(*scene, portals@, views, colors, depth@, w as int, h as int, *old(cam), tick as int)
                && views[0] == *old(view) && views[portals@.len() as int] == *final(view)
                && colors[0] == old(color)@ && colors[portals@.len() as int] == final(color)@,
{
    let ghost cam0 = *cam;
    let ghost views: Seq<PortalView> = seq![*view];
    let ghost colors: Seq<Seq<u32>> = seq![color@];
    let mut teleports: Vec<usize> = Vec::new();
    let mut i: usize = 0;
    while i < portals.len()
        invariant
            scene.wf(w as int, h as int),
            cam.wf(),
            screen_ok(w as int, h as int),
            view.wf(w as int, h as int),
            forall|k: int| 0 <= k < portals@.len() ==> (#[trigger] portals@[k]).wf()
                && portals@[k].texture < view.textures.textures@.len(),
            color@.len() == w * h,
            depth@.len() == w,
            i <= portals@.len(),
            *cam == camera_at(cam0, portals@, depth@, w as int, h as int, i as nat),
            forall|k: int| 0 <= k < teleports@.len() ==> (#[trigger] teleports@[k]) < i,
            forall|k: int, l: int| 0 <= k < l < teleports@.len() ==> teleports@[k] < teleports@[l],
            forall|k: int| 0 <= k < i ==> (#[trigger] teleports@.contains(k as usize) <==> fires(
                camera_at(cam0, portals@, depth@, w as int, h as int, k as nat), portals@[k], depth@, w as int, h as int)),
            views.len() == i + 1,
            colors.len() == i + 1,
            views[0] == *old(view),
            colors[0] == old(color)@,
            views[i as int] == *view,
            colors[i as int] == color@,
            forall|k: int| 0 <= k < i ==> #[trigger] portal_pass(
                *scene, portals@[k], views[k], views[k + 1], colors[k], colors[k + 1], depth@, w as int, h as int,
                camera_at(cam0, portals@, depth@, w as int, h as int, k as nat), tick as int),
        decreases portals@.len() - i,
    {
        let p = portals[i];
        let ghost before = teleports@;
        let moved = render_portal(scene, &p, view, color, depth, w, h, cam, tick);
        match moved {
            Some(c) => {
                *cam = c;
                teleports.push(i);
            },
            None => {},
        }
        proof {
            views = views.push(*view);
            colors = colors.push(color@);
            assert forall|k: int| 0 <= k < i + 1 implies (#[trigger] teleports@.contains(k as usize) <==> fires(
                camera_at(cam0, portals@, depth@, w as int, h as int, k as nat), portals@[k], depth@, w as int, h as int)) by {
                if k < i {
                    if before.contains(k as usize) {
                        let j = choose|j: int| 0 <= j < before.len() && before[j] == k as usize;
                        assert(teleports@[j] == before[j]);
                    }
                    if teleports@.contains(k as usize) {
                        let j = choose|j: int| 0 <= j < teleports@.len() && teleports@[j] == k as usize;
                        if j < before.len() {
                            assert(before[j] == teleports@[j]);
                        }
                    }
                } else {
                    if moved is Some {
                        assert(teleports@[before.len() as int] == i);
                    } else {
                        if teleports@.contains(k as usize) {
                            let j = choose|j: int| 0 <= j < teleports@.len() && teleports@[j] == k as usize;
                        }
                    }
                }
            }
            assert forall|k: int| 0 <= k < i + 1 implies #[trigger] portal_pass(
                *scene, portals@[k], views[k], views[k + 1], colors[k], colors[k + 1], depth@, w as int, h as int,
                camera_at(cam0, portals@, depth@, w as int, h as int, k as nat), tick as int) by {
            }
        }
        i += 1;
    }
    proof {
        assert(portal_chain(*scene, portals@, views, colors, depth@, w as int, h as int, cam0, tick as int));
    }
    teleports
}

/// The coverage of a lone portal sprite.
pub open spec fn portal_coverage(cam: Camera, p: Portal, depth: Seq<i64>, w: int, h: int) -> Coverage {
    Coverage {
        drawn: group_drawn(cam, seq![p.sprite()], far_to_near(keys_of(cam, seq![p.sprite()]), 1), 1, depth, w, h),
        border: group_border(Blend::PortalMapped, cam, seq![p.sprite()], far_to_near(keys_of(cam, seq![p.sprite()]), 1), 1, depth, w, h),
    }
}

proof fn lemma_single_order(cam: Camera, s: Sprite)
    ensures
        far_to_near(keys_of(cam, seq![s]), 1) == seq![0usize],
{
    reveal_with_fuel(far_to_near, 2);
    assert(Seq::<usize>::empty().insert(0, 0usize) =~= seq![0usize]);
}

/// A portal whose rectangle spans the whole view with its border bands
/// off screen, and which is in front of the wall in some column, triggers.
pub proof fn lemma_full_view_portal_triggers(cam: Camera, p: Portal, depth: Seq<i64>, w: int, h: int, x: int)
    requires
        w >= 1,
        h >= 1,
        project(cam, p.sprite(), w, h).ty > 0,
        rect_right(project(cam, p.sprite(), w, h)) - rect_left(project(cam, p.sprite(), w, h)) >= 2,
        rect_left(project(cam, p.sprite(), w, h)) + 3 < 0,
        rect_right(project(cam, p.sprite(), w, h)) - 3 > w - 1,
        0 <= x < w,
        before_wall(project(cam, p.sprite(), w, h), depth, x),
    ensures
        triggers(portal_coverage(cam, p, depth, w, h)),
{
    lemma_single_order(cam, p.sprite());
    let pr = project(cam, p.sprite(), w, h);
    assert(seq![p.sprite()][0] == p.sprite());
    assert(covers(pr, depth, w, h, x, h / 2));
    assert(covers(project(cam, seq![p.sprite()][seq![0usize][0] as int], w, h), depth, w, h, x, h / 2));
    assert forall|j: int, cx: int, cy: int|
        0 <= j < 1 && #[trigger] covers(project(cam, seq![p.sprite()][seq![0usize][j] as int], w, h), depth, w, h, cx, cy)
        implies !in_border(Blend::PortalMapped, project(cam, seq![p.sprite()][seq![0usize][j] as int], w, h), cx) by {
        assert(j == 0);
    }
}

/// A portal whose rectangle has its left or right edge inside the view, at
/// a column where it is in front of the wall, shows its border there and so
/// never triggers.
pub proof fn lemma_partial_portal_never_triggers(cam: Camera, p: Portal, depth: Seq<i64>, w: int, h: int)
    requires
        w >= 1,
        h >= 1,
        project(cam, p.sprite(), w, h).ty > 0,
        rect_right(project(cam, p.sprite(), w, h)) - rect_left(project(cam, p.sprite(), w, h)) >= 2,
        (0 <= rect_left(project(cam, p.sprite(), w, h)) < w
            && before_wall(project(cam, p.sprite(), w, h), depth, rect_left(project(cam, p.sprite(), w, h))))
        || (0 <= rect_right(project(cam, p.sprite(), w, h)) - 1 < w
            && before_wall(project(cam, p.sprite(), w, h), depth, rect_right(project(cam, p.sprite(), w, h)) - 1)),
    ensures
        !triggers(portal_coverage(cam, p, depth, w, h)),
{
    lemma_single_order(cam, p.sprite());
    let pr = project(cam, p.sprite(), w, h);
    assert(seq![p.sprite()][0] == p.sprite());
    let x = if 0 <= rect_left(pr) < w && before_wall(pr, depth, rect_left(pr)) { rect_left(pr) } else { rect_right(pr) - 1 };
    assert(covers(pr, depth, w, h, x, h / 2));
    assert(in_border(Blend::PortalMapped, pr, x));
    assert(covers(project(cam, seq![p.sprite()][seq![0usize][0] as int], w, h), depth, w, h, x, h / 2));
}

/// Whether the portal buffers suit a `w` by `h` screen and every portal
/// is in range and has a texture, for portals that come from outside.
pub fn check_portals(portals: &Vec<Portal>, view: &PortalView, w: usize, h: usize) -> (r: bool)
    ensures
        r == (view.wf(w as int, h as int) && forall|i: int| 0 <= i < portals@.len() ==> (#[trigger] portals@[i]).wf()
            && portals@[i].texture < view.textures.textures@.len()),
{
    if !(view.textures.check() && view.textures.bytes_per_pixel == 4 && view.textures.width == w
        && view.textures.height == h && view.depth.len() == w) {
        return false;
    }
    if w > 0x10000 || h > 0x10000 {
        return false;
    }
    assert(w * h <= 0x100000000) by (nonlinear_arith)
        requires w <= 0x10000, h <= 0x10000;
    if view.color.len() as u64 != (w as u64) * (h as u64) {
        return false;
    }
    let lim = MAX_CELLS * UNIT;
    let mut i: usize = 0;
    while i < portals.len()
        invariant
            lim == MAX_CELLS * UNIT,
            i <= portals@.len(),
            forall|k: int| 0 <= k < i ==> (#[trigger] portals@[k]).wf() && portals@[k].texture < view.textures.textures@.len(),
        decreases portals@.len() - i,
    {
        let p = portals[i];
        if !(0 <= p.x && p.x < lim && 0 <= p.y && p.y < lim && 0 <= p.dest_x && p.dest_x < lim && 0 <= p.dest_y
            && p.dest_y < lim && p.texture < view.textures.textures.len()) {
            return false;
        }
        i += 1;
    }
    true
}

} // verus!
