//! The state of the viewer: the viewport, the parameters of the fractal and
//! the resident tiles, with the commands that change them and the rules
//! that say which tiles are shown, kept and loaded.
use crate::compute::Params;
use crate::fractal::{FractalKind, FractalParams, FractalVariation, RenderTechnique};
use crate::math::{to_i32, to_i32_spec, Complex, Exp, I64Vec2, Number, Real, Scalar, UVec2, Vec2};
use crate::quad_cell::QuadPos;
use crate::render::Instance;
use crate::tile_map::TileMap;
use vstd::prelude::*;

verus! {

/// The viewport, the parameters and the tiles of a viewer whose tiles are of
/// type `T`.
pub struct AppData<S: Scalar, T> {
    /// The side of a tile, in pixels.
    pub cell_size: u32,
    /// The size of the screen, in pixels; neither side is zero.
    pub screen_size: UVec2,
    /// The resident tiles.
    pub cells: TileMap<T>,
    /// The point of the plane at the centre of the screen.
    pub pos: Vec2<S>,
    /// The zoom: the factor by which the pixels are larger than at rest.
    pub zoom: S,
    /// The zoom of the other variation, swapped in when the variation
    /// changes.
    pub secondary_zoom: S,
    pub fractal_params: FractalParams<S>,
    pub prev_mouse_pos: Option<Vec2<S>>,
    pub prev_touch_pos: [Option<(u64, Vec2<S>)>; 2],
    pub require_redraw: bool,
}

/// The distance of the tile `q` from the camera at `camera`, squared: that
/// of the centre of the tile.
pub open spec fn tile_distance_spec<S: Real>(camera: Vec2<S>, q: QuadPos) -> S {
    camera.sub(q.cell_center::<S>()).length_squared()
}

/// The squared distance from `camera` to the centre of the tile `q`.
#[verifier::when_used_as_spec(tile_distance_spec)]
pub fn tile_distance<S: Real>(camera: Vec2<S>, q: QuadPos) -> (d: S)
    ensures
        d == tile_distance_spec(camera, q),
{
    camera.sub(q.cell_center::<S>()).length_squared()
}

/// The tiles of the column `x` from the row `y0` up to, not including, the
/// row `y1`, from the bottom up.
pub open spec fn column(exponent: i32, x: i64, y0: i64, y1: int) -> Seq<QuadPos>
    decreases y1 - y0,
{
    if y1 <= y0 {
        Seq::empty()
    } else {
        column(exponent, x, y0, y1 - 1).push(
            QuadPos { unscaled_pos: I64Vec2 { x, y: (y1 - 1) as i64 }, exponent },
        )
    }
}

/// The tiles of the columns from `x0` up to, not including, `x1`, column
/// after column, each from the row `y0` up to the row `y1`.
pub open spec fn grid(exponent: i32, x0: i64, x1: int, y0: i64, y1: i64) -> Seq<QuadPos>
    decreases x1 - x0,
{
    if x1 <= x0 {
        Seq::empty()
    } else {
        grid(exponent, x0, x1 - 1, y0, y1) + column(exponent, (x1 - 1) as i64, y0, y1 as int)
    }
}

/// Where a tile goes into a sequence ordered by distance: before the run
/// of tiles at the end that are strictly farther than it.
pub open spec fn insert_position<S: Real>(camera: Vec2<S>, sorted: Seq<QuadPos>, q: QuadPos) -> int
    decreases sorted.len(),
{
    if sorted.len() == 0 {
        0
    } else if tile_distance(camera, q).lt(tile_distance(camera, sorted.last())) {
        insert_position(camera, sorted.drop_last(), q)
    } else {
        sorted.len() as int
    }
}

/// The tiles of `cells` ordered by their distance from the camera, nearest
/// first. Tiles that the order does not tell apart keep their order.
pub open spec fn sort_by_distance<S: Real>(camera: Vec2<S>, cells: Seq<QuadPos>) -> Seq<QuadPos>
    decreases cells.len(),
{
    if cells.len() == 0 {
        Seq::empty()
    } else {
        let sorted = sort_by_distance(camera, cells.drop_last());
        sorted.insert(insert_position(camera, sorted, cells.last()), cells.last())
    }
}

/// Whether `b` may follow `a` in a sequence ordered by distance: `b` is
/// not strictly nearer than `a`, unless `a` is also strictly nearer than
/// `b`.
pub open spec fn in_order<S: Real>(camera: Vec2<S>, a: QuadPos, b: QuadPos) -> bool {
    tile_distance(camera, a).lt(tile_distance(camera, b)) || !tile_distance(camera, b).lt(
        tile_distance(camera, a),
    )
}

/// What `column` holds: the tiles of the column, one for each row, from
/// the bottom up.
pub proof fn lemma_column(exponent: i32, x: i64, y0: i64, y1: int)
    requires
        y1 <= i64::MAX + 1,
    ensures
        column(exponent, x, y0, y1).len() == if y1 <= y0 {
            0
        } else {
            y1 - y0
        },
        forall|k: int|
            0 <= k < column(exponent, x, y0, y1).len() ==> #[trigger] column(
                exponent,
                x,
                y0,
                y1,
            )[k] == (QuadPos { unscaled_pos: I64Vec2 { x, y: (y0 + k) as i64 }, exponent }),
    decreases y1 - y0,
{
    if y1 > y0 {
        lemma_column(exponent, x, y0, y1 - 1);
    }
}

/// What `grid` holds: the tiles of the given exponent whose column lies
/// from `x0` up to, not including, `x1`, and whose row lies from `y0` up
/// to, not including, `y1`; each of them, and no other tile.
pub proof fn lemma_grid(exponent: i32, x0: i64, x1: int, y0: i64, y1: i64, q: QuadPos)
    requires
        x1 <= i64::MAX + 1,
    ensures
        grid(exponent, x0, x1, y0, y1).contains(q) <==> (q.exponent == exponent && x0
            <= q.unscaled_pos.x < x1 && y0 <= q.unscaled_pos.y < y1),
    decreases x1 - x0,
{
    if x1 > x0 {
        lemma_grid(exponent, x0, x1 - 1, y0, y1, q);
        lemma_column(exponent, (x1 - 1) as i64, y0, y1 as int);
        let left = grid(exponent, x0, x1 - 1, y0, y1);
        let right = column(exponent, (x1 - 1) as i64, y0, y1 as int);
        let whole = left + right;
        if whole.contains(q) {
            let k = choose|k: int| 0 <= k < whole.len() && whole[k] == q;
            if k < left.len() {
                assert(left[k] == q);
                assert(left.contains(q));
            } else {
                assert(right[k - left.len()] == q);
            }
        }
        if q.exponent == exponent && x0 <= q.unscaled_pos.x < x1 && y0 <= q.unscaled_pos.y < y1 {
            if q.unscaled_pos.x < x1 - 1 {
                assert(left.contains(q));
                let k = choose|k: int| 0 <= k < left.len() && left[k] == q;
                assert(whole[k] == q);
            } else {
                let k = q.unscaled_pos.y - y0;
                assert(right[k] == q);
                assert(whole[left.len() + k] == q);
            }
        }
    }
}

/// What `insert_position` is: a place in the sequence such that every tile
/// from it on is strictly farther than `q`, and the tile before it, if
/// there is one, is not.
pub proof fn lemma_insert_position<S: Real>(camera: Vec2<S>, sorted: Seq<QuadPos>, q: QuadPos)
    ensures
        0 <= insert_position(camera, sorted, q) <= sorted.len(),
        forall|k: int|
            insert_position(camera, sorted, q) <= k < sorted.len() ==> tile_distance(
                camera,
                q,
            ).lt(tile_distance(camera, #[trigger] sorted[k])),
        insert_position(camera, sorted, q) > 0 ==> !tile_distance(camera, q).lt(
            tile_distance(camera, sorted[insert_position(camera, sorted, q) - 1]),
        ),
    decreases sorted.len(),
{
    if sorted.len() > 0 && tile_distance(camera, q).lt(tile_distance(camera, sorted.last())) {
        lemma_insert_position(camera, sorted.drop_last(), q);
        let p = insert_position(camera, sorted.drop_last(), q);
        assert forall|k: int| p <= k < sorted.len() implies tile_distance(camera, q).lt(
            tile_distance(camera, #[trigger] sorted[k]),
        ) by {
            if k < sorted.len() - 1 {
                assert(sorted.drop_last()[k] == sorted[k]);
            }
        }
        if p > 0 {
            assert(sorted.drop_last()[p - 1] == sorted[p - 1]);
        }
    }
}

/// Sorting by distance moves tiles and nothing more: the sorted sequence
/// holds each tile as often as the sequence it was made from.
pub proof fn lemma_sort_permutes<S: Real>(camera: Vec2<S>, cells: Seq<QuadPos>)
    ensures
        sort_by_distance(camera, cells).len() == cells.len(),
        sort_by_distance(camera, cells).to_multiset() =~= cells.to_multiset(),
    decreases cells.len(),
{
    if cells.len() > 0 {
        let rest = cells.drop_last();
        let last = cells.last();
        lemma_sort_permutes(camera, rest);
        let sorted = sort_by_distance(camera, rest);
        lemma_insert_position(camera, sorted, last);
        let p = insert_position(camera, sorted, last);
        let grown = sorted.insert(p, last);
        sorted.insert_ensures(p, last);
        assert(grown.remove(p) =~= sorted);
        grown.to_multiset_ensures();
        assert(grown.to_multiset().remove(last) =~= sorted.to_multiset());
        assert(grown.to_multiset().count(last) > 0) by {
            assert(grown[p] == last);
            assert(grown.contains(last));
        }
        assert(grown.to_multiset() =~= sorted.to_multiset().insert(last));
        assert(cells =~= rest.push(last));
        rest.to_multiset_ensures();
        assert(cells.to_multiset() =~= rest.to_multiset().insert(last));
    } else {
        assert(cells =~= Seq::empty());
    }
}

/// A sorted sequence is in order: no tile is strictly nearer to the camera
/// than the tile before it, as far as the order of the distances is one.
pub proof fn lemma_sort_orders<S: Real>(camera: Vec2<S>, cells: Seq<QuadPos>)
    ensures
        forall|i: int|
            0 <= i < sort_by_distance(camera, cells).len() - 1 ==> in_order(
                camera,
                #[trigger] sort_by_distance(camera, cells)[i],
                sort_by_distance(camera, cells)[i + 1],
            ),
    decreases cells.len(),
{
    if cells.len() > 0 {
        let rest = cells.drop_last();
        let last = cells.last();
        lemma_sort_orders(camera, rest);
        let sorted = sort_by_distance(camera, rest);
        lemma_insert_position(camera, sorted, last);
        let p = insert_position(camera, sorted, last);
        let grown = sorted.insert(p, last);
        sorted.insert_ensures(p, last);
        assert forall|i: int| 0 <= i < grown.len() - 1 implies in_order(
            camera,
            #[trigger] grown[i],
            grown[i + 1],
        ) by {
            if i + 1 < p {
                assert(grown[i] == sorted[i] && grown[i + 1] == sorted[i + 1]);
            } else if i + 1 == p {
                assert(grown[i] == sorted[p - 1]);
            } else if i == p {
                assert(grown[i + 1] == sorted[p]);
            } else {
                assert(grown[i] == sorted[i - 1] && grown[i + 1] == sorted[i]);
                assert(in_order(camera, sorted[i - 1], sorted[i - 1 + 1]));
            }
        }
    }
}

/// One more than `e`, or `e` itself at the top of the range of `i32`.
pub open spec fn increment(e: i32) -> i32 {
    if e < i32::MAX {
        (e + 1) as i32
    } else {
        e
    }
}

impl<S: Scalar, T> AppData<S, T> {
    /// The tiles are in order and the screen has no side of zero pixels.
    pub open spec fn wf(&self) -> bool {
        &&& self.cells.wf()
        &&& self.screen_size.x >= 1
        &&& self.screen_size.y >= 1
    }

    /// The state at rest: no tile, the camera at the origin, a zoom of one
    /// and the default fractal. The side of a tile is the lesser side of
    /// `cell_size`; a screen side of zero counts as one.
    pub fn new(cell_size: UVec2, screen_size: UVec2) -> (this: Self)
        ensures
            this.wf(),
            this.cell_size == if cell_size.x <= cell_size.y {
                cell_size.x
            } else {
                cell_size.y
            },
            this.screen_size.x == if screen_size.x == 0 {
                1
            } else {
                screen_size.x
            },
            this.screen_size.y == if screen_size.y == 0 {
                1
            } else {
                screen_size.y
            },
            this.cells.entries@.len() == 0,
            this.pos == (Vec2 { x: S::zero(), y: S::zero() }),
            this.zoom == S::one(),
            this.secondary_zoom == S::one(),
            this.fractal_params == FractalParams::<S>::default_spec(),
            this.prev_mouse_pos.is_none(),
            this.prev_touch_pos[0].is_none() && this.prev_touch_pos[1].is_none(),
            !this.require_redraw,
    {
        let mut this = AppData {
            cell_size: if cell_size.x <= cell_size.y {
                cell_size.x
            } else {
                cell_size.y
            },
            screen_size: UVec2 { x: 1, y: 1 },
            cells: TileMap::new(),
            pos: Vec2::splat(S::zero()),
            zoom: S::one(),
            secondary_zoom: S::one(),
            fractal_params: FractalParams::default(),
            prev_mouse_pos: None,
            prev_touch_pos: [None, None],
            require_redraw: false,
        };
        this.resize(screen_size);
        this
    }

    /// Takes a new size of the screen. A side of zero counts as one.
    pub fn resize(&mut self, new_screen_size: UVec2)
        requires
            old(self).cells.wf(),
        ensures
            final(self).wf(),
            final(self).screen_size.x == if new_screen_size.x == 0 {
                1
            } else {
                new_screen_size.x
            },
            final(self).screen_size.y == if new_screen_size.y == 0 {
                1
            } else {
                new_screen_size.y
            },
            *final(self) == (AppData { screen_size: final(self).screen_size, ..*old(self) }),
    {
        self.screen_size = UVec2 {
            x: if new_screen_size.x == 0 {
                1
            } else {
                new_screen_size.x
            },
            y: if new_screen_size.y == 0 {
                1
            } else {
                new_screen_size.y
            },
        };
    }

    /// Goes back to the view at rest: no tile, the camera at the origin, a
    /// zoom of one, the secondary position at the origin, and the iteration
    /// limit of the family. The family, the variation, the technique and
    /// the palette stay.
    pub fn reset(&mut self)
        requires
            old(self).wf(),
        ensures
            final(self).wf(),
            final(self).cells.entries@.len() == 0,
            forall|q: QuadPos| !final(self).cells.contains(q),
            final(self).pos == (Vec2 { x: S::zero(), y: S::zero() }),
            final(self).zoom == S::one(),
            final(self).fractal_params == (FractalParams {
                secondary_pos: Complex::zero(),
                iteration_limit: old(self).fractal_params.fractal_kind.default_iteration_limit(),
                ..old(self).fractal_params
            }),
            final(self).cell_size == old(self).cell_size,
            final(self).screen_size == old(self).screen_size,
            final(self).secondary_zoom == old(self).secondary_zoom,
            final(self).prev_mouse_pos == old(self).prev_mouse_pos,
            final(self).prev_touch_pos == old(self).prev_touch_pos,
            final(self).require_redraw == old(self).require_redraw,
    {
        self.cells = TileMap::new();
        self.pos = Vec2::splat(S::zero());
        self.zoom = S::one();
        self.fractal_params.secondary_pos = Complex::zero();
        self.fractal_params.iteration_limit =
            self.fractal_params.fractal_kind.default_iteration_limit();
    }

    /// The zoom after a zoom step of `zoom_value`: the zoom times
    /// `exp(-zoom_value * 0.5)`.
    pub open spec fn zoomed(&self, zoom_value: S) -> S {
        self.zoom.mul(zoom_value.neg().mul(S::from_decimal(5, -1i32)).exp())
    }

    /// Where the camera goes when the zoom changes to `new_zoom` about the
    /// point `center` of the screen, given in pixels from the top left: the
    /// point of the plane under `center` stays where it is.
    pub open spec fn zoomed_pos(&self, new_zoom: S, center: Vec2<S>) -> Vec2<S> {
        let half = S::from_decimal(5, -1i32);
        let offset = Vec2 {
            x: center.x.sub(S::from_int(self.screen_size.x as i64).mul(half)),
            y: S::from_int(self.screen_size.y as i64).mul(half).sub(center.y),
        };
        self.pos.add(offset.scale(self.base_pixel_world_size()).scale(self.zoom.sub(new_zoom)))
    }

    /// Zooms by `zoom_value`, in or out by its sign, about the point
    /// `zoom_center` of the screen if one is given and about the centre of
    /// the screen otherwise. Asks for a redraw.
    pub fn apply_zoom(&mut self, zoom_value: S, zoom_center: Option<Vec2<S>>)
        requires
            old(self).wf(),
        ensures
            final(self).wf(),
            final(self).zoom == old(self).zoomed(zoom_value),
            final(self).pos == match zoom_center {
                Some(center) => old(self).zoomed_pos(old(self).zoomed(zoom_value), center),
                None => old(self).pos,
            },
            final(self).require_redraw,
            *final(self) == (AppData {
                zoom: final(self).zoom,
                pos: final(self).pos,
                require_redraw: true,
                ..*old(self)
            }),
    {
        let old_zoom = self.zoom;
        let half = S::from_decimal(5, -1);
        self.zoom = self.zoom.mul(zoom_value.neg().mul(half).exp());
        if let Some(center) = zoom_center {
            let offset = Vec2::new(
                center.x.sub(S::from_int(self.screen_size.x as i64).mul(half)),
                S::from_int(self.screen_size.y as i64).mul(half).sub(center.y),
            );
            let base = self.base_pixel_world_size();
            self.pos = self.pos.add(offset.scale(base).scale(old_zoom.sub(self.zoom)));
        }
        self.require_redraw = true;
    }

    /// Drops every tile and asks for a redraw: what has been rendered is no
    /// longer the picture.
    pub fn reset_fractal_rendering(&mut self)
        requires
            old(self).wf(),
        ensures
            final(self).wf(),
            final(self).cells.entries@.len() == 0,
            forall|q: QuadPos| !final(self).cells.contains(q),
            final(self).require_redraw,
            final(self).cell_size == old(self).cell_size,
            final(self).screen_size == old(self).screen_size,
            final(self).pos == old(self).pos,
            final(self).zoom == old(self).zoom,
            final(self).secondary_zoom == old(self).secondary_zoom,
            final(self).fractal_params == old(self).fractal_params,
            final(self).prev_mouse_pos == old(self).prev_mouse_pos,
            final(self).prev_touch_pos == old(self).prev_touch_pos,
    {
        self.cells.clear();
        self.require_redraw = true;
    }

    /// Changes the family. Where the family is a new one, the iteration
    /// limit becomes that of the family and every tile is dropped; where it
    /// is the one in place, nothing changes.
    pub fn set_fractal_kind(&mut self, fractal_kind: FractalKind)
        requires
            old(self).wf(),
        ensures
            final(self).wf(),
            old(self).fractal_params.fractal_kind == fractal_kind ==> *final(self) == *old(self),
            old(self).fractal_params.fractal_kind != fractal_kind ==> {
                &&& final(self).fractal_params == (FractalParams {
                    fractal_kind,
                    iteration_limit: fractal_kind.default_iteration_limit(),
                    ..old(self).fractal_params
                })
                &&& final(self).cells.entries@.len() == 0
                &&& forall|q: QuadPos| !final(self).cells.contains(q)
                &&& final(self).require_redraw
            },
            final(self).cell_size == old(self).cell_size,
            final(self).screen_size == old(self).screen_size,
            final(self).pos == old(self).pos,
            final(self).zoom == old(self).zoom,
            final(self).secondary_zoom == old(self).secondary_zoom,
            final(self).prev_mouse_pos == old(self).prev_mouse_pos,
            final(self).prev_touch_pos == old(self).prev_touch_pos,
    {
        if self.fractal_params.fractal_kind == fractal_kind {
            return ;
        }
        self.fractal_params.fractal_kind = fractal_kind;
        self.fractal_params.iteration_limit =
            self.fractal_params.fractal_kind.default_iteration_limit();
        self.reset_fractal_rendering();
    }

    /// Changes the variation. Where it is a new one every tile is dropped;
    /// where it is the one in place, nothing changes.
    pub fn set_fractal_variation(&mut self, fractal_variation: FractalVariation)
        requires
            old(self).wf(),
        ensures
            final(self).wf(),
            old(self).fractal_params.variation == fractal_variation ==> *final(self) == *old(self),
            old(self).fractal_params.variation != fractal_variation ==> {
                &&& final(self).fractal_params == (FractalParams {
                    variation: fractal_variation,
                    ..old(self).fractal_params
                })
                &&& final(self).cells.entries@.len() == 0
                &&& forall|q: QuadPos| !final(self).cells.contains(q)
                &&& final(self).require_redraw
            },
            final(self).cell_size == old(self).cell_size,
            final(self).screen_size == old(self).screen_size,
            final(self).pos == old(self).pos,
            final(self).zoom == old(self).zoom,
            final(self).secondary_zoom == old(self).secondary_zoom,
            final(self).prev_mouse_pos == old(self).prev_mouse_pos,
            final(self).prev_touch_pos == old(self).prev_touch_pos,
    {
        if self.fractal_params.variation == fractal_variation {
            return ;
        }
        self.fractal_params.variation = fractal_variation;
        self.reset_fractal_rendering();
    }

    /// Changes the render technique. Where it is a new one every tile is
    /// dropped; where it is the one in place, nothing changes.
    pub fn set_fractal_rendering(&mut self, rendering_technique: RenderTechnique)
        requires
            old(self).wf(),
        ensures
            final(self).wf(),
            old(self).fractal_params.render_technique == rendering_technique ==> *final(self)
                == *old(self),
            old(self).fractal_params.render_technique != rendering_technique ==> {
                &&& final(self).fractal_params == (FractalParams {
                    render_technique: rendering_technique,
                    ..old(self).fractal_params
                })
                &&& final(self).cells.entries@.len() == 0
                &&& forall|q: QuadPos| !final(self).cells.contains(q)
                &&& final(self).require_redraw
            },
            final(self).cell_size == old(self).cell_size,
            final(self).screen_size == old(self).screen_size,
            final(self).pos == old(self).pos,
            final(self).zoom == old(self).zoom,
            final(self).secondary_zoom == old(self).secondary_zoom,
            final(self).prev_mouse_pos == old(self).prev_mouse_pos,
            final(self).prev_touch_pos == old(self).prev_touch_pos,
    {
        if self.fractal_params.render_technique == rendering_technique {
            return ;
        }
        self.fractal_params.render_technique = rendering_technique;
        self.reset_fractal_rendering();
    }

    /// Sets the iteration limit by hand. Every tile is dropped.
    pub fn set_iteration_limit(&mut self, iteration_limit: u32)
        requires
            old(self).wf(),
        ensures
            final(self).wf(),
            final(self).fractal_params == (FractalParams {
                iteration_limit,
                ..old(self).fractal_params
            }),
            final(self).cells.entries@.len() == 0,
            forall|q: QuadPos| !final(self).cells.contains(q),
            final(self).require_redraw,
            final(self).cell_size == old(self).cell_size,
            final(self).screen_size == old(self).screen_size,
            final(self).pos == old(self).pos,
            final(self).zoom == old(self).zoom,
            final(self).secondary_zoom == old(self).secondary_zoom,
            final(self).prev_mouse_pos == old(self).prev_mouse_pos,
            final(self).prev_touch_pos == old(self).prev_touch_pos,
    {
        self.fractal_params.iteration_limit = iteration_limit;
        self.reset_fractal_rendering();
    }

    /// Sets the secondary position by hand. Every tile is dropped.
    pub fn set_secondary_pos(&mut self, secondary_pos: Complex<S>)
        requires
            old(self).wf(),
        ensures
            final(self).wf(),
            final(self).fractal_params == (FractalParams {
                secondary_pos,
                ..old(self).fractal_params
            }),
            final(self).cells.entries@.len() == 0,
            forall|q: QuadPos| !final(self).cells.contains(q),
            final(self).require_redraw,
            final(self).cell_size == old(self).cell_size,
            final(self).screen_size == old(self).screen_size,
            final(self).pos == old(self).pos,
            final(self).zoom == old(self).zoom,
            final(self).secondary_zoom == old(self).secondary_zoom,
            final(self).prev_mouse_pos == old(self).prev_mouse_pos,
            final(self).prev_touch_pos == old(self).prev_touch_pos,
    {
        self.fractal_params.secondary_pos = secondary_pos;
        self.reset_fractal_rendering();
    }

    /// Moves the camera by hand. The tiles stay.
    pub fn set_position(&mut self, pos: Vec2<S>)
        ensures
            *final(self) == (AppData { pos, ..*old(self) }),
    {
        self.pos = pos;
    }

    /// Sets the zoom by hand. The tiles stay.
    pub fn set_zoom(&mut self, zoom: S)
        ensures
            *final(self) == (AppData { zoom, ..*old(self) }),
    {
        self.zoom = zoom;
    }

    pub open spec fn base_pixel_world_size_spec(&self) -> S {
        let least = if self.screen_size.x <= self.screen_size.y {
            self.screen_size.x
        } else {
            self.screen_size.y
        };
        S::from_decimal(4, 0).div(S::from_int(least as i64))
    }

    /// The side of a pixel in the plane at a zoom of one: the lesser side
    /// of the screen shows a stretch of 4.
    #[verifier::when_used_as_spec(base_pixel_world_size_spec)]
    pub fn base_pixel_world_size(&self) -> (r: S)
        ensures
            r == self.base_pixel_world_size_spec(),
    {
        let least = if self.screen_size.x <= self.screen_size.y {
            self.screen_size.x
        } else {
            self.screen_size.y
        };
        S::from_decimal(4, 0).div(S::from_int(least as i64))
    }

    pub open spec fn pixel_world_size_spec(&self) -> S {
        self.base_pixel_world_size().mul(self.zoom)
    }

    /// The side of a pixel in the plane.
    #[verifier::when_used_as_spec(pixel_world_size_spec)]
    pub fn pixel_world_size(&self) -> (r: S)
        ensures
            r == self.pixel_world_size_spec(),
    {
        self.base_pixel_world_size().mul(self.zoom)
    }

    pub open spec fn viewport_world_size_spec(&self) -> Vec2<S> {
        Vec2 {
            x: S::from_int(self.screen_size.x as i64),
            y: S::from_int(self.screen_size.y as i64),
        }.scale(self.pixel_world_size())
    }

    /// The size of the part of the plane that the screen shows.
    #[verifier::when_used_as_spec(viewport_world_size_spec)]
    pub fn viewport_world_size(&self) -> (r: Vec2<S>)
        ensures
            r == self.viewport_world_size_spec(),
    {
        let window_size = Vec2::new(
            S::from_int(self.screen_size.x as i64),
            S::from_int(self.screen_size.y as i64),
        );
        window_size.scale(self.pixel_world_size())
    }

    /// The exponent of the finest tiles shown: the integer part of the
    /// logarithm in base two of the side of a tile in the plane, rounded
    /// down.
    pub open spec fn min_exponent(&self) -> i32 {
        to_i32_spec(
            self.pixel_world_size().mul(S::from_int(self.cell_size as i64)).log2().floor(),
        )
    }

    /// The exponent of the coarsest tiles shown: one more than the
    /// logarithm in base two of the zoom, rounded up; never below the
    /// exponent of the finest.
    pub open spec fn max_exponent(&self) -> i32 {
        let coarse = increment(to_i32_spec(self.zoom.log2().ceil()));
        if coarse >= self.min_exponent() {
            coarse
        } else {
            self.min_exponent()
        }
    }

    /// The exponents of the tiles shown, from the finest to the coarsest.
    pub fn exponent_range(&self) -> (range: (i32, i32))
        ensures
            range.0 == self.min_exponent(),
            range.1 == self.max_exponent(),
            range.0 <= range.1,
    {
        let min_exponent = to_i32(
            self.pixel_world_size().mul(S::from_int(self.cell_size as i64)).log2().floor(),
        );
        let ceil = to_i32(self.zoom.log2().ceil());
        let coarse = if ceil < i32::MAX {
            ceil + 1
        } else {
            ceil
        };
        let max_exponent = if coarse >= min_exponent {
            coarse
        } else {
            min_exponent
        };
        (min_exponent, max_exponent)
    }

    /// Whether the tile `q` is kept by a frame: its exponent is no more
    /// than 4 away from the range of the exponents shown, and it reaches
    /// into the window that extends two viewports from the camera in each
    /// direction.
    pub open spec fn keeps(&self, q: QuadPos) -> bool {
        let viewport_size = self.viewport_world_size();
        let two = S::from_decimal(2, 0);
        let valid_pos_min = self.pos.sub(viewport_size.scale(two));
        let valid_pos_max = self.pos.add(viewport_size.scale(two));
        let bottom_left = q.cell_bottom_left::<S>();
        let top_right = q.cell_top_right::<S>();
        &&& self.min_exponent() - 4 <= q.exponent <= self.max_exponent() + 4
        &&& bottom_left.x.lt(valid_pos_max.x)
        &&& bottom_left.y.lt(valid_pos_max.y)
        &&& valid_pos_min.x.lt(top_right.x)
        &&& valid_pos_min.y.lt(top_right.y)
    }

    /// Drops the tiles that are far from what is shown, in size or in
    /// place. The tiles that are kept stay as they are.
    pub fn cleanup_cells(&mut self)
        requires
            old(self).wf(),
        ensures
            final(self).wf(),
            forall|q: QuadPos|
                final(self).cells.contains(q) == (old(self).cells.contains(q) && old(self).keeps(
                    q,
                )),
            forall|q: QuadPos|
                final(self).cells.contains(q) ==> final(self).cells.tile(q) == old(self).cells.tile(q),
            final(self).cell_size == old(self).cell_size,
            final(self).screen_size == old(self).screen_size,
            final(self).pos == old(self).pos,
            final(self).zoom == old(self).zoom,
            final(self).secondary_zoom == old(self).secondary_zoom,
            final(self).fractal_params == old(self).fractal_params,
            final(self).prev_mouse_pos == old(self).prev_mouse_pos,
            final(self).prev_touch_pos == old(self).prev_touch_pos,
            final(self).require_redraw == old(self).require_redraw,
    {
        let viewport_size = self.viewport_world_size();
        let exponent_range = self.exponent_range();
        let two = S::from_decimal(2, 0);
        let lowest: i64 = exponent_range.0 as i64 - 4;
        let highest: i64 = exponent_range.1 as i64 + 4;
        let valid_pos_min = self.pos.sub(viewport_size.scale(two));
        let valid_pos_max = self.pos.add(viewport_size.scale(two));
        let ghost start = *self;
        let mut i: usize = 0;
        while i < self.cells.len()
            invariant
                self.wf(),
                start.wf(),
                i <= self.cells.entries@.len(),
                lowest == start.min_exponent() - 4,
                highest == start.max_exponent() + 4,
                valid_pos_min == start.pos.sub(start.viewport_world_size().scale(two)),
                valid_pos_max == start.pos.add(start.viewport_world_size().scale(two)),
                two == S::from_decimal(2, 0),
                forall|k: int| 0 <= k < i ==> start.keeps((#[trigger] self.cells.entries@[k]).0),
                forall|q: QuadPos|
                    self.cells.contains(q) ==> start.cells.contains(q) && self.cells.tile(q)
                        == start.cells.tile(q),
                forall|q: QuadPos|
                    start.cells.contains(q) && start.keeps(q) ==> self.cells.contains(q),
                self.cell_size == start.cell_size,
                self.screen_size == start.screen_size,
                self.pos == start.pos,
                self.zoom == start.zoom,
                self.secondary_zoom == start.secondary_zoom,
                self.fractal_params == start.fractal_params,
                self.prev_mouse_pos == start.prev_mouse_pos,
                self.prev_touch_pos == start.prev_touch_pos,
                self.require_redraw == start.require_redraw,
            decreases self.cells.entries@.len() - i,
        {
            let q = self.cells.key_at(i);
            let bottom_left = q.cell_bottom_left::<S>();
            let top_right = q.cell_top_right::<S>();
            let keep = lowest <= q.exponent as i64 && q.exponent as i64 <= highest
                && bottom_left.x.lt(valid_pos_max.x) && bottom_left.y.lt(valid_pos_max.y)
                && valid_pos_min.x.lt(top_right.x) && valid_pos_min.y.lt(top_right.y);
            assert(keep == start.keeps(q));
            if keep {
                i = i + 1;
            } else {
                let ghost before = self.cells;
                self.cells.remove_at(i);
                proof {
                    assert forall|k: int| 0 <= k < i implies start.keeps(
                        (#[trigger] self.cells.entries@[k]).0,
                    ) by {
                        assert(self.cells.entries@[k] == before.entries@[k]);
                    }
                }
            }
        }
        proof {
            assert forall|q: QuadPos| self.cells.contains(q) implies start.keeps(q) by {
                let k = self.cells.index_of(q);
                assert(self.cells.entries@[k].0 == q);
            }
        }
    }

    /// The corner of the viewport with the least coordinates.
    pub open spec fn viewport_min(&self) -> Vec2<S> {
        self.pos.sub(self.viewport_world_size().unscale(S::from_decimal(2, 0)))
    }

    /// The corner of the viewport with the greatest coordinates.
    pub open spec fn viewport_max(&self) -> Vec2<S> {
        self.pos.add(self.viewport_world_size().unscale(S::from_decimal(2, 0)))
    }

    /// The first column and row of the tiles of the given exponent that
    /// reach into the viewport: the least corner over the side of a tile,
    /// rounded down.
    pub open spec fn quad_min(&self, exponent: i32) -> I64Vec2 {
        let cell_size = S::from_decimal(2, 0).powi(exponent);
        let v = self.viewport_min().unscale(cell_size);
        I64Vec2 { x: v.x.floor().to_int(), y: v.y.floor().to_int() }
    }

    /// The column and row after the last tiles of the given exponent that
    /// reach into the viewport: the greatest corner over the side of a
    /// tile, rounded up.
    pub open spec fn quad_max(&self, exponent: i32) -> I64Vec2 {
        let cell_size = S::from_decimal(2, 0).powi(exponent);
        let v = self.viewport_max().unscale(cell_size);
        I64Vec2 { x: v.x.ceil().to_int(), y: v.y.ceil().to_int() }
    }

    /// The tiles of the given exponent that reach into the viewport, column
    /// after column.
    pub open spec fn window(&self, exponent: i32) -> Seq<QuadPos> {
        grid(
            exponent,
            self.quad_min(exponent).x,
            self.quad_max(exponent).x as int,
            self.quad_min(exponent).y,
            self.quad_max(exponent).y,
        )
    }

    /// The tiles of the given exponent that are shown, nearest first.
    pub open spec fn visible_layer_spec(&self, exponent: i32) -> Seq<QuadPos> {
        sort_by_distance(self.pos, self.window(exponent))
    }

    /// The tiles shown whose exponent is at least `exponent`, coarsest
    /// layer first.
    pub open spec fn visible_down_to(&self, exponent: int) -> Seq<QuadPos>
        decreases self.max_exponent() + 1 - exponent,
    {
        if exponent > self.max_exponent() {
            Seq::empty()
        } else {
            self.visible_down_to(exponent + 1) + self.visible_layer_spec(exponent as i32)
        }
    }

    /// The tiles shown, in the order in which they are to be loaded: layer
    /// after layer from the coarsest to the finest, and within a layer the
    /// tile nearest to the camera first.
    pub open spec fn visible_cells_spec(&self) -> Seq<QuadPos> {
        self.visible_down_to(self.min_exponent() as int)
    }

    /// The tiles of the given exponent that are shown, nearest first.
    pub fn visible_layer(&self, exponent: i32) -> (layer: Vec<QuadPos>)
        ensures
            layer@ == self.visible_layer_spec(exponent),
    {
        let viewport_size = self.viewport_world_size();
        let two = S::from_decimal(2, 0);
        let cal_pos = self.pos;
        let viewport_min = cal_pos.sub(viewport_size.unscale(two));
        let viewport_max = cal_pos.add(viewport_size.unscale(two));
        let cell_size = two.powi(exponent);
        let low = viewport_min.unscale(cell_size);
        let high = viewport_max.unscale(cell_size);
        let quad_min = I64Vec2 { x: low.x.floor().to_int(), y: low.y.floor().to_int() };
        let quad_max = I64Vec2 { x: high.x.ceil().to_int(), y: high.y.ceil().to_int() };
        assert(quad_min == self.quad_min(exponent));
        assert(quad_max == self.quad_max(exponent));
        let mut cells: Vec<QuadPos> = Vec::new();
        let ghost mut seen: Seq<QuadPos> = Seq::empty();
        let mut x = quad_min.x;
        while x < quad_max.x
            invariant
                quad_min.x <= x || quad_max.x <= quad_min.x,
                x <= quad_max.x || quad_max.x <= quad_min.x,
                quad_max.x <= quad_min.x ==> x == quad_min.x,
                seen == grid(exponent, quad_min.x, x as int, quad_min.y, quad_max.y),
                cells@ == sort_by_distance(cal_pos, seen),
            decreases quad_max.x - x,
        {
            let ghost before_column = seen;
            let mut y = quad_min.y;
            while y < quad_max.y
                invariant
                    x < quad_max.x,
                    quad_min.y <= y || quad_max.y <= quad_min.y,
                    y <= quad_max.y || quad_max.y <= quad_min.y,
                    quad_max.y <= quad_min.y ==> y == quad_min.y,
                    seen == before_column + column(exponent, x, quad_min.y, y as int),
                    cells@ == sort_by_distance(cal_pos, seen),
                decreases quad_max.y - y,
            {
                let q = QuadPos { unscaled_pos: I64Vec2 { x, y }, exponent };
                let distance = tile_distance(cal_pos, q);
                let mut j = cells.len();
                assert(cells@.take(j as int) =~= cells@);
                while j > 0 && distance.lt(tile_distance(cal_pos, cells[j - 1]))
                    invariant
                        j <= cells@.len(),
                        distance == tile_distance_spec(cal_pos, q),
                        insert_position(cal_pos, cells@, q) == insert_position(
                            cal_pos,
                            cells@.take(j as int),
                            q,
                        ),
                    decreases j,
                {
                    proof {
                        let part = cells@.take(j as int);
                        assert(part.last() == cells@[j - 1]);
                        assert(part.drop_last() =~= cells@.take(j - 1));
                    }
                    j = j - 1;
                }
                proof {
                    let part = cells@.take(j as int);
                    if j > 0 {
                        assert(part.last() == cells@[j - 1]);
                    }
                    assert(insert_position(cal_pos, part, q) == j);
                    let grown = seen.push(q);
                    assert(grown.drop_last() =~= seen);
                    assert(grown.last() == q);
                    assert(before_column + column(exponent, x, quad_min.y, y + 1) =~= grown) by {
                        assert(column(exponent, x, quad_min.y, y + 1) =~= column(
                            exponent,
                            x,
                            quad_min.y,
                            y as int,
                        ).push(q));
                    }
                    seen = grown;
                }
                cells.insert(j, q);
                y = y + 1;
            }
            proof {
                if quad_max.y <= quad_min.y {
                    assert(column(exponent, x, quad_min.y, quad_max.y as int) =~= Seq::empty());
                    assert(seen =~= before_column);
                }
                assert(grid(exponent, quad_min.x, x + 1, quad_min.y, quad_max.y) =~= seen);
            }
            x = x + 1;
        }
        proof {
            if quad_max.x <= quad_min.x {
                assert(grid(exponent, quad_min.x, quad_max.x as int, quad_min.y, quad_max.y)
                    =~= Seq::empty());
            }
            assert(cells@.take(cells@.len() as int) =~= cells@);
        }
        cells
    }

    /// The tiles shown, in the order in which they are to be loaded.
    pub fn visible_cells(&self) -> (cells: Vec<QuadPos>)
        ensures
            cells@ == self.visible_cells_spec(),
    {
        let exponent_range = self.exponent_range();
        let mut cells: Vec<QuadPos> = Vec::new();
        let mut exponent: i64 = exponent_range.1 as i64;
        while exponent >= exponent_range.0 as i64
            invariant
                exponent_range.0 == self.min_exponent(),
                exponent_range.1 == self.max_exponent(),
                exponent_range.0 <= exponent_range.1,
                exponent_range.0 - 1 <= exponent <= exponent_range.1,
                cells@ == self.visible_down_to(exponent + 1),
            decreases exponent - exponent_range.0 + 1,
        {
            let mut layer = self.visible_layer(exponent as i32);
            cells.append(&mut layer);
            exponent = exponent - 1;
        }
        cells
    }

    /// Whether the tile `pos` is resident.
    pub fn is_cell_loaded(&self, pos: QuadPos) -> (loaded: bool)
        requires
            self.wf(),
        ensures
            loaded == self.cells.contains(pos),
    {
        self.cells.contains_key(&pos)
    }

    /// What the renderer is told of the tile `pos`: its bottom left corner
    /// and its side, twice.
    pub fn cell_instance(pos: QuadPos) -> (instance: Instance<S>)
        ensures
            instance.pos == pos.cell_bottom_left::<S>(),
            instance.size == (Vec2 { x: pos.cell_size::<S>(), y: pos.cell_size::<S>() }),
    {
        Instance { pos: pos.cell_bottom_left::<S>(), size: Vec2::splat(pos.cell_size::<S>()) }
    }

    /// What the tile `pos` is computed from: its region of the plane, the
    /// first row of pixels at the top, and the parameters in place.
    pub fn cell_params(&self, pos: QuadPos) -> (params: Params<S>)
        ensures
            params.min_pos == pos.cell_bottom_left::<S>().add(
                Vec2 { x: S::zero(), y: pos.cell_size::<S>() },
            ),
            params.max_pos == pos.cell_bottom_left::<S>().add(
                Vec2 { x: pos.cell_size::<S>(), y: S::zero() },
            ),
            params.fractal == self.fractal_params,
    {
        let cell_size = pos.cell_size::<S>();
        let cell_pos = pos.cell_bottom_left::<S>();
        Params {
            min_pos: cell_pos.add(Vec2::new(S::zero(), cell_size)),
            max_pos: cell_pos.add(Vec2::new(cell_size, S::zero())),
            fractal: self.fractal_params,
        }
    }

    /// Makes `tile` the resident tile of `pos`, in place of the one that
    /// was, and asks for a redraw.
    pub fn make_cell(&mut self, pos: QuadPos, tile: T)
        requires
            old(self).wf(),
        ensures
            final(self).wf(),
            final(self).cells.contains(pos),
            final(self).cells.tile(pos) == tile,
            forall|q: QuadPos|
                q != pos ==> final(self).cells.contains(q) == old(self).cells.contains(q),
            forall|q: QuadPos|
                q != pos && old(self).cells.contains(q) ==> final(self).cells.tile(q) == old(self).cells.tile(q),
            final(self).require_redraw,
            final(self).cell_size == old(self).cell_size,
            final(self).screen_size == old(self).screen_size,
            final(self).pos == old(self).pos,
            final(self).zoom == old(self).zoom,
            final(self).secondary_zoom == old(self).secondary_zoom,
            final(self).fractal_params == old(self).fractal_params,
            final(self).prev_mouse_pos == old(self).prev_mouse_pos,
            final(self).prev_touch_pos == old(self).prev_touch_pos,
    {
        self.cells.insert(pos, tile);
        self.require_redraw = true;
    }

    /// The tile to load next: the first of the tiles shown that is not
    /// resident. A frame loads this one tile and no other.
    pub fn next_cell_to_load(&self) -> (next: Option<QuadPos>)
        requires
            self.wf(),
        ensures
            match next {
                Some(q) => exists|i: int|
                    {
                        &&& 0 <= i < self.visible_cells_spec().len()
                        &&& self.visible_cells_spec()[i] == q
                        &&& !self.cells.contains(q)
                        &&& forall|j: int|
                            0 <= j < i ==> self.cells.contains(#[trigger] self.visible_cells_spec()[j])
                    },
                None => forall|i: int|
                    0 <= i < self.visible_cells_spec().len() ==> self.cells.contains(
                        #[trigger] self.visible_cells_spec()[i],
                    ),
            },
    {
        let visible = self.visible_cells();
        let mut i: usize = 0;
        while i < visible.len()
            invariant
                self.wf(),
                visible@ == self.visible_cells_spec(),
                i <= visible@.len(),
                forall|j: int| 0 <= j < i ==> self.cells.contains(#[trigger] visible@[j]),
            decreases visible@.len() - i,
        {
            let q = visible[i];
            if !self.is_cell_loaded(q) {
                return Some(q);
            }
            i = i + 1;
        }
        None
    }

    /// Opens a frame: takes note that the redraw is under way, drops the
    /// tiles that are far from what is shown, and only then picks the one
    /// tile that this frame loads.
    pub fn begin_frame(&mut self) -> (next: Option<QuadPos>)
        requires
            old(self).wf(),
        ensures
            final(self).wf(),
            !final(self).require_redraw,
            forall|q: QuadPos|
                final(self).cells.contains(q) == (old(self).cells.contains(q) && old(self).keeps(
                    q,
                )),
            next.is_some() ==> !final(self).cells.contains(next.unwrap()),
            final(self).visible_cells_spec() == old(self).visible_cells_spec(),
            match next {
                Some(q) => exists|i: int|
                    {
                        &&& 0 <= i < final(self).visible_cells_spec().len()
                        &&& final(self).visible_cells_spec()[i] == q
                        &&& forall|j: int|
                            0 <= j < i ==> final(self).cells.contains(
                                #[trigger] final(self).visible_cells_spec()[j],
                            )
                    },
                None => forall|i: int|
                    0 <= i < final(self).visible_cells_spec().len() ==> final(self).cells.contains(#[trigger] final(self).visible_cells_spec()[i]),
            },
    {
        self.require_redraw = false;
        let ghost start = *self;
        self.cleanup_cells();
        proof {
            self.lemma_visible_by_view(*old(self));
            assert forall|q: QuadPos| start.keeps(q) == old(self).keeps(q) by {}
        }
        self.next_cell_to_load()
    }

    /// An empty cache misses every tile: once the tiles are dropped, as
    /// they are when the family, the variation or the technique changes,
    /// no tile of the picture that was stays within reach, and every tile
    /// shown has to be loaded again. Where any tile is shown at all, the
    /// first of them is the next to load.
    pub proof fn lemma_invalidation_forces_reload(&self)
        requires
            self.wf(),
            self.cells.entries@.len() == 0,
        ensures
            forall|q: QuadPos| !self.cells.contains(q),
            forall|i: int|
                0 <= i < self.visible_cells_spec().len() ==> !self.cells.contains(
                    #[trigger] self.visible_cells_spec()[i],
                ),
    {
    }

    /// A change of family forces a reload: `after` being the state that
    /// `set_fractal_kind` leaves of `before` for a family that is a new one,
    /// no tile of the old family is left, the tiles shown are the same as
    /// before, and each of them is missing. Where any tile is shown, the
    /// first of them is due.
    pub proof fn lemma_kind_change_forces_reload(before: Self, after: Self, kind: FractalKind)
        requires
            before.wf(),
            after.wf(),
            kind != before.fractal_params.fractal_kind,
            after.cells.entries@.len() == 0,
            after.fractal_params.fractal_kind == kind,
            after.pos == before.pos,
            after.zoom == before.zoom,
            after.screen_size == before.screen_size,
            after.cell_size == before.cell_size,
        ensures
            forall|q: QuadPos| !after.cells.contains(q),
            after.visible_cells_spec() == before.visible_cells_spec(),
            forall|i: int|
                0 <= i < after.visible_cells_spec().len() ==> !after.cells.contains(
                    #[trigger] after.visible_cells_spec()[i],
                ),
            before.visible_cells_spec().len() > 0 ==> !after.cells.contains(
                after.visible_cells_spec()[0],
            ),
    {
        after.lemma_invalidation_forces_reload();
        after.lemma_visible_by_view(before);
    }

    /// The other variation.
    pub open spec fn other_variation(variation: FractalVariation) -> FractalVariation {
        match variation {
            FractalVariation::Normal => FractalVariation::JuliaSet,
            FractalVariation::JuliaSet => FractalVariation::Normal,
        }
    }

    /// Goes from the plain set to its Julia sets and back. The camera and
    /// the secondary position change places, and so do the two zooms: the
    /// point that was looked at becomes the constant. Every tile is
    /// dropped.
    pub fn toggle_variation(&mut self)
        requires
            old(self).wf(),
        ensures
            final(self).wf(),
            final(self).fractal_params == (FractalParams {
                variation: Self::other_variation(old(self).fractal_params.variation),
                secondary_pos: Complex { re: old(self).pos.x, im: old(self).pos.y },
                ..old(self).fractal_params
            }),
            final(self).pos == old(self).fractal_params.secondary_pos.to_vector(),
            final(self).zoom == old(self).secondary_zoom,
            final(self).secondary_zoom == old(self).zoom,
            final(self).cells.entries@.len() == 0,
            forall|q: QuadPos| !final(self).cells.contains(q),
            final(self).require_redraw,
            final(self).cell_size == old(self).cell_size,
            final(self).screen_size == old(self).screen_size,
            final(self).prev_mouse_pos == old(self).prev_mouse_pos,
            final(self).prev_touch_pos == old(self).prev_touch_pos,
    {
        let next = match self.fractal_params.variation {
            FractalVariation::Normal => FractalVariation::JuliaSet,
            FractalVariation::JuliaSet => FractalVariation::Normal,
        };
        self.set_fractal_variation(next);
        let pos = self.pos;
        self.pos = self.fractal_params.secondary_pos.to_vector();
        self.fractal_params.secondary_pos = Complex::from_vector(pos);
        let zoom = self.zoom;
        self.zoom = self.secondary_zoom;
        self.secondary_zoom = zoom;
    }

    /// The technique after `technique` in the cycle: escape time, point
    /// trap, cross trap, normal map, and round again.
    pub open spec fn next_technique(technique: RenderTechnique) -> RenderTechnique {
        match technique {
            RenderTechnique::Normal => RenderTechnique::OrbitTrapPoint,
            RenderTechnique::OrbitTrapPoint => RenderTechnique::OrbitTrapCross,
            RenderTechnique::OrbitTrapCross => RenderTechnique::NormalMap,
            RenderTechnique::NormalMap => RenderTechnique::Normal,
        }
    }

    /// Moves on to the next render technique. Every tile is dropped.
    pub fn cycle_render_technique(&mut self)
        requires
            old(self).wf(),
        ensures
            final(self).wf(),
            final(self).fractal_params == (FractalParams {
                render_technique: Self::next_technique(old(self).fractal_params.render_technique),
                ..old(self).fractal_params
            }),
            final(self).cells.entries@.len() == 0,
            forall|q: QuadPos| !final(self).cells.contains(q),
            final(self).require_redraw,
            final(self).cell_size == old(self).cell_size,
            final(self).screen_size == old(self).screen_size,
            final(self).pos == old(self).pos,
            final(self).zoom == old(self).zoom,
            final(self).secondary_zoom == old(self).secondary_zoom,
            final(self).prev_mouse_pos == old(self).prev_mouse_pos,
            final(self).prev_touch_pos == old(self).prev_touch_pos,
    {
        let next = match self.fractal_params.render_technique {
            RenderTechnique::Normal => RenderTechnique::OrbitTrapPoint,
            RenderTechnique::OrbitTrapPoint => RenderTechnique::OrbitTrapCross,
            RenderTechnique::OrbitTrapCross => RenderTechnique::NormalMap,
            RenderTechnique::NormalMap => RenderTechnique::Normal,
        };
        self.set_fractal_rendering(next);
    }

    /// Where the camera is after the pointer has dragged the picture from
    /// the pixel `from` to the pixel `to`: the picture follows the pointer.
    /// Pixels count downwards, the plane upwards.
    pub open spec fn dragged_pos(&self, from: Vec2<S>, to: Vec2<S>) -> Vec2<S> {
        self.pos.sub(
            Vec2 { x: to.x.sub(from.x), y: from.y.sub(to.y) }.scale(self.pixel_world_size()),
        )
    }

    /// Pans the view by a drag of the pointer from `from` to `to`, both in
    /// pixels. The tiles stay.
    pub fn drag_view(&mut self, from: Vec2<S>, to: Vec2<S>)
        ensures
            *final(self) == (AppData { pos: old(self).dragged_pos(from, to), ..*old(self) }),
    {
        let delta = Vec2::new(to.x.sub(from.x), from.y.sub(to.y));
        self.pos = self.pos.sub(delta.scale(self.pixel_world_size()));
    }

    /// Where the secondary position is after a drag of the pointer from
    /// `from` to `to`.
    pub open spec fn dragged_secondary(&self, from: Vec2<S>, to: Vec2<S>) -> Complex<S> {
        self.fractal_params.secondary_pos.sub(
            Complex { re: to.x.sub(from.x), im: to.y.sub(from.y) }.scale(self.pixel_world_size()),
        )
    }

    /// Moves the secondary position, the constant of the Julia sets, by a
    /// drag of the pointer from `from` to `to`, both in pixels. Every tile
    /// is dropped.
    pub fn drag_secondary(&mut self, from: Vec2<S>, to: Vec2<S>)
        requires
            old(self).wf(),
        ensures
            final(self).wf(),
            final(self).fractal_params == (FractalParams {
                secondary_pos: old(self).dragged_secondary(from, to),
                ..old(self).fractal_params
            }),
            final(self).cells.entries@.len() == 0,
            forall|q: QuadPos| !final(self).cells.contains(q),
            final(self).require_redraw,
            final(self).cell_size == old(self).cell_size,
            final(self).screen_size == old(self).screen_size,
            final(self).pos == old(self).pos,
            final(self).zoom == old(self).zoom,
            final(self).secondary_zoom == old(self).secondary_zoom,
            final(self).prev_mouse_pos == old(self).prev_mouse_pos,
            final(self).prev_touch_pos == old(self).prev_touch_pos,
    {
        self.reset_fractal_rendering();
        let delta = Complex::new(to.x.sub(from.x), to.y.sub(from.y));
        self.fractal_params.secondary_pos = self.fractal_params.secondary_pos.sub(
            delta.scale(self.pixel_world_size()),
        );
    }

    /// Takes note that the pointer is at `position`. Where it was seen
    /// before and a button is down, the move is a drag: of the view with
    /// the primary button, else of the secondary position with the
    /// secondary button. Says whether the window is to be redrawn at once.
    pub fn cursor_moved(&mut self, position: Vec2<S>, primary_down: bool, secondary_down: bool) -> (redraw: bool)
        requires
            old(self).wf(),
        ensures
            final(self).wf(),
            final(self).prev_mouse_pos == Some(position),
            redraw == (old(self).prev_mouse_pos.is_some() && (primary_down || secondary_down)),
            match old(self).prev_mouse_pos {
                Some(prev) => if primary_down {
                    *final(self) == (AppData {
                        pos: old(self).dragged_pos(prev, position),
                        prev_mouse_pos: Some(position),
                        ..*old(self)
                    })
                } else if secondary_down {
                    &&& final(self).fractal_params == (FractalParams {
                        secondary_pos: old(self).dragged_secondary(prev, position),
                        ..old(self).fractal_params
                    })
                    &&& final(self).cells.entries@.len() == 0
                    &&& final(self).require_redraw
                    &&& final(self).pos == old(self).pos
                    &&& final(self).zoom == old(self).zoom
                } else {
                    *final(self) == (AppData { prev_mouse_pos: Some(position), ..*old(self) })
                },
                None => *final(self) == (AppData {
                    prev_mouse_pos: Some(position),
                    ..*old(self)
                }),
            },
    {
        let mut redraw = false;
        if let Some(prev) = self.prev_mouse_pos {
            if primary_down {
                self.drag_view(prev, position);
                redraw = true;
            } else if secondary_down {
                self.drag_secondary(prev, position);
                redraw = true;
            }
        }
        self.prev_mouse_pos = Some(position);
        redraw
    }

    /// The touches that are followed once the touch `id` has come down at
    /// `location`: it takes the first of the two places that already is
    /// its own or is free; with both places taken by others it is not
    /// followed.
    pub open spec fn touches_after_start(
        touches: [Option<(u64, Vec2<S>)>; 2],
        id: u64,
        location: Vec2<S>,
    ) -> Seq<Option<(u64, Vec2<S>)>> {
        let first_is_mine = match touches[0] {
            Some(t) => t.0 == id,
            None => true,
        };
        let second_is_mine = match touches[1] {
            Some(t) => t.0 == id,
            None => true,
        };
        if first_is_mine {
            seq![Some((id, location)), touches[1]]
        } else if second_is_mine {
            seq![touches[0], Some((id, location))]
        } else {
            seq![touches[0], touches[1]]
        }
    }

    /// Takes note that the touch `id` has come down at `location`.
    pub fn touch_started(&mut self, id: u64, location: Vec2<S>)
        ensures
            final(self).prev_touch_pos@ == Self::touches_after_start(
                old(self).prev_touch_pos,
                id,
                location,
            ),
            *final(self) == (AppData { prev_touch_pos: final(self).prev_touch_pos, ..*old(self) }),
    {
        let first = self.prev_touch_pos[0];
        let second = self.prev_touch_pos[1];
        let first_is_mine = match first {
            Some(t) => t.0 == id,
            None => true,
        };
        let second_is_mine = match second {
            Some(t) => t.0 == id,
            None => true,
        };
        if first_is_mine {
            self.prev_touch_pos = [Some((id, location)), second];
        } else if second_is_mine {
            self.prev_touch_pos = [first, Some((id, location))];
        }
        assert(self.prev_touch_pos@ =~= Self::touches_after_start(
            old(self).prev_touch_pos,
            id,
            location,
        ));
    }

    /// The touches that are followed once the touch `id` has been lifted:
    /// where it was the first, the second moves up; where it was the
    /// second behind a first, its place is free.
    pub open spec fn touches_after_end(touches: [Option<(u64, Vec2<S>)>; 2], id: u64) -> Seq<
        Option<(u64, Vec2<S>)>,
    > {
        match touches[0] {
            Some(first) => if first.0 == id {
                seq![touches[1], None]
            } else {
                match touches[1] {
                    Some(second) => if second.0 == id {
                        seq![touches[0], None]
                    } else {
                        seq![touches[0], touches[1]]
                    },
                    None => seq![touches[0], touches[1]],
                }
            },
            None => seq![touches[0], touches[1]],
        }
    }

    /// Takes note that the touch `id` has been lifted or lost.
    pub fn touch_ended(&mut self, id: u64)
        ensures
            final(self).prev_touch_pos@ == Self::touches_after_end(old(self).prev_touch_pos, id),
            *final(self) == (AppData { prev_touch_pos: final(self).prev_touch_pos, ..*old(self) }),
    {
        let first = self.prev_touch_pos[0];
        let second = self.prev_touch_pos[1];
        if let Some(t0) = first {
            if t0.0 == id {
                self.prev_touch_pos = [second, None];
            } else if let Some(t1) = second {
                if t1.0 == id {
                    self.prev_touch_pos = [first, None];
                }
            }
        }
        assert(self.prev_touch_pos@ =~= Self::touches_after_end(old(self).prev_touch_pos, id));
    }

    /// The zoom step of a pinch: by how much the distance between the two
    /// touches has grown when the touch at `moved_from` has gone to
    /// `moved_to` while the other stayed at `other`.
    pub open spec fn pinch_delta(moved_from: Vec2<S>, other: Vec2<S>, moved_to: Vec2<S>) -> S {
        moved_to.sub(other).length().sub(moved_from.sub(other).length())
    }

    /// The point between two touches.
    pub open spec fn pinch_center(a: Vec2<S>, b: Vec2<S>) -> Vec2<S> {
        a.add(b).scale(S::from_decimal(5, -1i32))
    }

    /// Takes note that the touch `id` has moved to `location`. With two
    /// touches followed and `id` one of them the move is a pinch: the view
    /// zooms by the growth of their distance, about the point between them.
    /// With one touch followed and `id` that one the move is a drag of the
    /// view. Any other move changes nothing. Says whether the window is to
    /// be redrawn at once, which a drag asks for.
    pub fn touch_moved(&mut self, id: u64, location: Vec2<S>) -> (redraw: bool)
        requires
            old(self).wf(),
        ensures
            final(self).wf(),
            match (old(self).prev_touch_pos[0], old(self).prev_touch_pos[1]) {
                (Some(first), Some(second)) => if id == first.0 {
                    let followed = AppData {
                        prev_touch_pos: final(self).prev_touch_pos,
                        ..*old(self)
                    };
                    let delta = Self::pinch_delta(first.1, second.1, location);
                    let center = Self::pinch_center(location, second.1);
                    &&& !redraw
                    &&& final(self).prev_touch_pos@ =~= seq![Some((id, location)), Some(second)]
                    &&& *final(self) == (AppData {
                        zoom: followed.zoomed(delta),
                        pos: followed.zoomed_pos(followed.zoomed(delta), center),
                        require_redraw: true,
                        ..followed
                    })
                } else if id == second.0 {
                    let followed = AppData {
                        prev_touch_pos: final(self).prev_touch_pos,
                        ..*old(self)
                    };
                    let delta = Self::pinch_delta(second.1, first.1, location);
                    let center = Self::pinch_center(location, first.1);
                    &&& !redraw
                    &&& final(self).prev_touch_pos@ =~= seq![Some(first), Some((id, location))]
                    &&& *final(self) == (AppData {
                        zoom: followed.zoomed(delta),
                        pos: followed.zoomed_pos(followed.zoomed(delta), center),
                        require_redraw: true,
                        ..followed
                    })
                } else {
                    !redraw && *final(self) == *old(self)
                },
                (Some(first), None) => if id == first.0 {
                    &&& redraw
                    &&& final(self).prev_touch_pos@ =~= seq![Some((id, location)), None]
                    &&& *final(self) == (AppData {
                        pos: old(self).dragged_pos(first.1, location),
                        prev_touch_pos: final(self).prev_touch_pos,
                        ..*old(self)
                    })
                } else {
                    !redraw && *final(self) == *old(self)
                },
                (None, _) => !redraw && *final(self) == *old(self),
            },
    {
        let first = self.prev_touch_pos[0];
        let second = self.prev_touch_pos[1];
        let (id1, pos1) = match first {
            Some(t) => t,
            None => {
                return false;
            },
        };
        if let Some((id2, pos2)) = second {
            let (moved_from, second_pos) = if id == id1 {
                self.prev_touch_pos = [Some((id, location)), second];
                (pos1, pos2)
            } else if id == id2 {
                self.prev_touch_pos = [first, Some((id, location))];
                (pos2, pos1)
            } else {
                return false;
            };
            let old_dist = moved_from.sub(second_pos).length();
            let new_dist = location.sub(second_pos).length();
            let center = location.add(second_pos).scale(S::from_decimal(5, -1));
            let delta_dist = new_dist.sub(old_dist);
            self.apply_zoom(delta_dist, Some(center));
            false
        } else if id == id1 {
            self.drag_view(pos1, location);
            self.prev_touch_pos = [Some((id, location)), None];
            true
        } else {
            false
        }
    }

    /// What a layer holds: the tiles of its exponent whose column and row
    /// reach into the viewport, each once for each time it stands in the
    /// window, and no other tile; nearest first.
    pub proof fn lemma_visible_layer(&self, exponent: i32, q: QuadPos)
        ensures
            self.visible_layer_spec(exponent).len() == self.window(exponent).len(),
            self.visible_layer_spec(exponent).to_multiset() =~= self.window(
                exponent,
            ).to_multiset(),
            self.visible_layer_spec(exponent).contains(q) <==> (q.exponent == exponent
                && self.quad_min(exponent).x <= q.unscaled_pos.x < self.quad_max(exponent).x
                && self.quad_min(exponent).y <= q.unscaled_pos.y < self.quad_max(exponent).y),
            forall|i: int|
                0 <= i < self.visible_layer_spec(exponent).len() - 1 ==> in_order(
                    self.pos,
                    #[trigger] self.visible_layer_spec(exponent)[i],
                    self.visible_layer_spec(exponent)[i + 1],
                ),
    {
        let window = self.window(exponent);
        let layer = self.visible_layer_spec(exponent);
        lemma_sort_permutes(self.pos, window);
        lemma_sort_orders(self.pos, window);
        lemma_grid(
            exponent,
            self.quad_min(exponent).x,
            self.quad_max(exponent).x as int,
            self.quad_min(exponent).y,
            self.quad_max(exponent).y,
            q,
        );
        window.to_multiset_ensures();
        layer.to_multiset_ensures();
        assert(layer.contains(q) <==> layer.to_multiset().count(q) > 0);
        assert(window.contains(q) <==> window.to_multiset().count(q) > 0);
        assert(layer.to_multiset().count(q) == window.to_multiset().count(q));
    }

    /// The tiles shown down to a given exponent are those of the layers
    /// from it up to the coarsest, and they stand coarsest first.
    pub proof fn lemma_visible_down_to(&self, exponent: int)
        requires
            i32::MIN <= exponent,
        ensures
            forall|i: int|
                0 <= i < self.visible_down_to(exponent).len() ==> exponent <= (
                #[trigger] self.visible_down_to(exponent)[i]).exponent <= self.max_exponent(),
            forall|i: int, j: int|
                0 <= i <= j < self.visible_down_to(exponent).len() ==> (
                #[trigger] self.visible_down_to(exponent)[i]).exponent >= (
                #[trigger] self.visible_down_to(exponent)[j]).exponent,
        decreases self.max_exponent() + 1 - exponent,
    {
        if exponent <= self.max_exponent() {
            self.lemma_visible_down_to(exponent + 1);
            let coarser = self.visible_down_to(exponent + 1);
            let layer = self.visible_layer_spec(exponent as i32);
            let whole = self.visible_down_to(exponent);
            assert(whole == coarser + layer);
            assert forall|k: int| 0 <= k < layer.len() implies (#[trigger] layer[k]).exponent
                == exponent by {
                assert(layer.contains(layer[k]));
                self.lemma_visible_layer(exponent as i32, layer[k]);
            }
            assert forall|i: int| 0 <= i < whole.len() implies exponent <= (
            #[trigger] whole[i]).exponent <= self.max_exponent() by {
                if i < coarser.len() {
                    assert(whole[i] == coarser[i]);
                } else {
                    assert(whole[i] == layer[i - coarser.len()]);
                }
            }
            assert forall|i: int, j: int| 0 <= i <= j < whole.len() implies (
            #[trigger] whole[i]).exponent >= (#[trigger] whole[j]).exponent by {
                if j < coarser.len() {
                    assert(whole[i] == coarser[i] && whole[j] == coarser[j]);
                } else if i < coarser.len() {
                    assert(whole[i] == coarser[i]);
                    assert(whole[j] == layer[j - coarser.len()]);
                } else {
                    assert(whole[i] == layer[i - coarser.len()]);
                    assert(whole[j] == layer[j - coarser.len()]);
                }
            }
        }
    }

    /// Every tile of a layer at or above `exponent` stands among the tiles
    /// shown down to `exponent`.
    pub proof fn lemma_layer_within(&self, layer: i32, exponent: int, q: QuadPos)
        requires
            exponent <= layer <= self.max_exponent(),
            self.visible_layer_spec(layer).contains(q),
        ensures
            self.visible_down_to(exponent).contains(q),
        decreases layer - exponent,
    {
        let whole = self.visible_down_to(exponent);
        let coarser = self.visible_down_to(exponent + 1);
        let this_layer = self.visible_layer_spec(exponent as i32);
        assert(whole == coarser + this_layer);
        if exponent == layer {
            let k = choose|k: int| 0 <= k < this_layer.len() && this_layer[k] == q;
            assert(whole[coarser.len() + k] == q);
        } else {
            self.lemma_layer_within(layer, exponent + 1, q);
            let k = choose|k: int| 0 <= k < coarser.len() && coarser[k] == q;
            assert(whole[k] == q);
        }
    }

    /// A tile is shown exactly if its exponent lies in the range of the
    /// exponents shown and its column and row lie in the window of its
    /// layer. So some tile is shown as soon as the window of one layer is
    /// not empty.
    pub proof fn lemma_shown(&self, q: QuadPos)
        ensures
            self.visible_cells_spec().contains(q) <==> {
                &&& self.min_exponent() <= q.exponent <= self.max_exponent()
                &&& self.quad_min(q.exponent).x <= q.unscaled_pos.x < self.quad_max(q.exponent).x
                &&& self.quad_min(q.exponent).y <= q.unscaled_pos.y < self.quad_max(q.exponent).y
            },
    {
        let shown = self.visible_cells_spec();
        self.lemma_visible_layer(q.exponent, q);
        if shown.contains(q) {
            self.lemma_shown_is_of_a_layer(self.min_exponent() as int, q);
        }
        if self.min_exponent() <= q.exponent <= self.max_exponent() && self.visible_layer_spec(
            q.exponent,
        ).contains(q) {
            self.lemma_layer_within(q.exponent, self.min_exponent() as int, q);
        }
    }

    proof fn lemma_shown_is_of_a_layer(&self, exponent: int, q: QuadPos)
        requires
            i32::MIN <= exponent,
            self.visible_down_to(exponent).contains(q),
        ensures
            exponent <= q.exponent <= self.max_exponent(),
            self.visible_layer_spec(q.exponent).contains(q),
        decreases self.max_exponent() + 1 - exponent,
    {
        let whole = self.visible_down_to(exponent);
        if exponent <= self.max_exponent() {
            let coarser = self.visible_down_to(exponent + 1);
            let this_layer = self.visible_layer_spec(exponent as i32);
            assert(whole == coarser + this_layer);
            let k = choose|k: int| 0 <= k < whole.len() && whole[k] == q;
            if k < coarser.len() {
                assert(coarser[k] == q);
                self.lemma_shown_is_of_a_layer(exponent + 1, q);
            } else {
                assert(this_layer[k - coarser.len()] == q);
                assert(this_layer.contains(q));
                self.lemma_visible_layer(exponent as i32, q);
            }
        } else {
            assert(whole.len() == 0);
        }
    }

    /// Coarser tiles are shown, and loaded, first: along the tiles shown the
    /// exponent never goes up, and it stays within the range of the
    /// exponents shown.
    pub proof fn lemma_visible_coarse_first(&self)
        ensures
            forall|i: int|
                0 <= i < self.visible_cells_spec().len() ==> self.min_exponent() <= (
                #[trigger] self.visible_cells_spec()[i]).exponent <= self.max_exponent(),
            forall|i: int, j: int|
                0 <= i <= j < self.visible_cells_spec().len() ==> (
                #[trigger] self.visible_cells_spec()[i]).exponent >= (
                #[trigger] self.visible_cells_spec()[j]).exponent,
    {
        self.lemma_visible_down_to(self.min_exponent() as int);
    }

    /// The tiles shown depend on the view alone: on the camera, the zoom,
    /// the size of the screen and the side of a tile.
    pub proof fn lemma_visible_by_view(&self, other: Self)
        requires
            self.pos == other.pos,
            self.zoom == other.zoom,
            self.screen_size == other.screen_size,
            self.cell_size == other.cell_size,
        ensures
            self.visible_cells_spec() == other.visible_cells_spec(),
    {
        assert(self.min_exponent() == other.min_exponent());
        assert(self.max_exponent() == other.max_exponent());
        self.lemma_visible_down_to_by_view(other, self.min_exponent() as int);
    }

    proof fn lemma_visible_down_to_by_view(&self, other: Self, exponent: int)
        requires
            self.pos == other.pos,
            self.zoom == other.zoom,
            self.screen_size == other.screen_size,
            self.cell_size == other.cell_size,
        ensures
            self.visible_down_to(exponent) == other.visible_down_to(exponent),
        decreases self.max_exponent() + 1 - exponent,
    {
        assert(self.max_exponent() == other.max_exponent());
        if exponent <= self.max_exponent() {
            self.lemma_visible_down_to_by_view(other, exponent + 1);
            assert(self.visible_layer_spec(exponent as i32) == other.visible_layer_spec(
                exponent as i32,
            ));
        }
    }
}

} // verus!
